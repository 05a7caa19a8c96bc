use vstd::prelude::*;

use crate::models::GMusicListResponse;

verus! {

pub type GetDeviceManagementInfoResponse = GMusicListResponse<DeviceManagementInfo>;

#[derive(Debug, Clone)]
pub struct DeviceManagementInfo {
    pub id: String,
    pub friendly_name: Option<String>,
    pub last_accessed_time_ms: String,
    pub smart_phone: Option<bool>,
    pub device_type: String,
    pub kind: String,
}

} // verus!
