use vstd::prelude::*;

verus! {

#[derive(Debug)]
pub struct OAuthRequest {
    pub account_type: String,
    pub has_permission: u32,
    pub service: String,
    pub source: String,
    pub android_id: String,
    pub app: String,
    pub device_country: String,
    pub operator_country: String,
    pub lang: String,
    pub sdk_version: String,
    pub master_token: Option<String>,
    pub encrypted_password: Option<String>,
    pub email: Option<String>,
}

impl OAuthRequest {
    /// The request that trades a master token for a service token.
    pub fn from_token(android_id: String, master_token: String) -> (r: OAuthRequest)
        ensures
            r.account_type@ == "HOSTED_OR_GOOGLE"@,
            r.has_permission == 1,
            r.service@ == "sj"@,
            r.source@ == "android"@,
            r.android_id == android_id,
            r.app@ == "com.google.android.music"@,
            r.device_country@ == "us"@,
            r.operator_country@ == "us"@,
            r.lang@ == "en"@,
            r.sdk_version@ == "17"@,
            r.master_token == Some(master_token),
            r.encrypted_password is None,
            r.email is None,
    {
        OAuthRequest {
            account_type: "HOSTED_OR_GOOGLE".to_owned(),
            has_permission: 1,
            service: "sj".to_owned(),
            source: "android".to_owned(),
            android_id,
            app: "com.google.android.music".to_owned(),
            device_country: "us".to_owned(),
            operator_country: "us".to_owned(),
            lang: "en".to_owned(),
            sdk_version: "17".to_owned(),
            master_token: Some(master_token),
            encrypted_password: None,
            email: None,
        }
    }
}

#[derive(Debug)]
pub struct OAuthResponse {
    pub auth: String,
}

} // verus!
