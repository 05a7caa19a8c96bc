use vstd::prelude::*;

use crate::error::Error;
use vstd::string::StringExecFns;

verus! {

/// The legacy `GoogleLogin` authorization header value.
#[derive(Debug, Clone)]
pub struct GoogleAuth {
    pub token: String,
}

impl GoogleAuth {
    /// The header value: `GoogleLogin auth=` followed by the token.
    pub fn to_string(&self) -> (r: String)
        ensures
            r@ == "GoogleLogin auth="@ + self.token@,
    {
        let mut header = String::from_str("GoogleLogin auth=");
        header.append(self.token.as_str());
        header
    }
}

impl core::str::FromStr for GoogleAuth {
    type Err = Error;

    fn from_str(s: &str) -> Result<GoogleAuth, Error> {
        Ok(GoogleAuth { token: s.to_owned() })
    }
}

} // verus!
