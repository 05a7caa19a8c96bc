use vstd::prelude::*;

verus! {

#[derive(Debug)]
pub struct LoginRequest {
    pub account_type: String,
    pub email: String,
    pub has_permission: String,
    pub add_account: String,
    pub encrypted_password: String,
    pub service: String,
    pub source: String,
    pub android_id: String,
    pub device_country: String,
    pub operator_country: String,
    pub lang: String,
    pub sdk_version: String,
}

#[derive(Debug)]
pub struct LoginResponse {
    pub auth: String,
    pub email: String,
    pub google_plus_update: u32,
    pub lsid: String,
    pub sid: String,
    pub token: String,
    pub first_name: String,
    pub last_name: String,
    pub services: String,
}

} // verus!
