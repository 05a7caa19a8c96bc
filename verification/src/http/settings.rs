use vstd::prelude::*;

verus! {

#[derive(Debug)]
pub struct GetSettingsRequest {
    pub session_id: String,
}

impl GetSettingsRequest {
    pub fn new() -> (r: GetSettingsRequest)
        ensures
            r.session_id@.len() == 0,
    {
        GetSettingsRequest { session_id: String::new() }
    }
}

#[derive(Debug)]
pub struct GetSettingsResponse {
    pub response: GetSettingsPayload,
}

#[derive(Debug)]
pub struct GetSettingsPayload {
    pub settings: Settings,
}

#[derive(Debug)]
pub struct Settings {
    pub entitlement_info: SettingsEntitlementInfo,
    pub upload_device: Vec<UploadDevice>,
}

#[derive(Debug)]
pub struct SettingsEntitlementInfo {
    pub is_subscription: bool,
}

#[derive(Debug)]
pub struct UploadDevice {
    pub device_type: i32,
    pub id: String,
}

} // verus!
