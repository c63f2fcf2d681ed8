//! API key requests and responses.

use vstd::prelude::*;
use crate::error::{ErrorResponse, ErrorResponseType};

verus! {

/// The resource group an API key may act on.
#[derive(Debug, Clone, Copy, PartialEq, Eq, Structural)]
pub enum AccessGroup {
    Clients,
    Events,
    Generic,
    Groups,
    Roles,
    Secrets,
    Sessions,
    Scopes,
    UserAttributes,
    Users,
}

/// What an API key may do on a group.
#[derive(Debug, Clone, Copy, PartialEq, Eq, Structural)]
pub enum AccessRights {
    Read,
    Create,
    Update,
    Delete,
}

/// The rights of an API key on one group.
#[derive(Debug, Clone)]
pub struct ApiKeyAccess {
    pub group: AccessGroup,
    pub access_rights: Vec<AccessRights>,
}

/// A request to create or update an API key.
#[derive(Debug, Clone)]
pub struct ApiKeyRequest {
    /// 2 to 24 characters of `a-z`, `A-Z`, `0-9`, `_`, `-` and `/`.
    pub name: String,
    /// Expiry, in seconds since the epoch, between 2023-01-01 and 2099.
    pub exp: Option<i64>,
    pub access: Vec<ApiKeyAccess>,
}

/// All API keys.
#[derive(Debug, Clone)]
pub struct ApiKeysResponse {
    pub keys: Vec<ApiKeyResponse>,
}

/// One API key, without its secret.
#[derive(Debug, Clone)]
pub struct ApiKeyResponse {
    pub name: String,
    /// Seconds since the epoch.
    pub created: i64,
    /// Seconds since the epoch.
    pub expires: Option<i64>,
    pub access: Vec<ApiKeyAccess>,
}

/// The earliest expiry an API key request may ask for.
pub const API_KEY_EXP_MIN: i64 = 1_672_527_600;

/// The latest expiry an API key request may ask for.
pub const API_KEY_EXP_MAX: i64 = 4_070_905_200;

/// A character allowed in an API key name.
pub open spec fn api_key_name_char(c: char) -> bool {
    ('a' <= c && c <= 'z') || ('A' <= c && c <= 'Z') || ('0' <= c && c <= '9') || c == '_' || c
        == '-' || c == '/'
}

/// A valid API key name.
pub open spec fn valid_api_key_name(s: Seq<char>) -> bool {
    2 <= s.len() <= 24 && forall|i: int| 0 <= i < s.len() ==> api_key_name_char(#[trigger] s[i])
}

fn name_char_ok(c: char) -> (r: bool)
    ensures
        r == api_key_name_char(c),
{
    ('a' <= c && c <= 'z') || ('A' <= c && c <= 'Z') || ('0' <= c && c <= '9') || c == '_' || c
        == '-' || c == '/'
}

impl ApiKeyRequest {
    /// Fails with `BadRequest` on an invalid name or an expiry out of range.
    pub fn validate(&self) -> (r: Result<(), ErrorResponse>)
        ensures
            r is Ok <==> valid_api_key_name(self.name@) && match self.exp {
                Some(e) => API_KEY_EXP_MIN <= e <= API_KEY_EXP_MAX,
                None => true,
            },
            r matches Err(e) ==> e.error == ErrorResponseType::BadRequest,
    {
        let name = self.name.as_str();
        let n = name.unicode_len();
        if n < 2 || n > 24 {
            return Err(ErrorResponse::with(ErrorResponseType::BadRequest, "Invalid API key name"));
        }
        let mut i: usize = 0;
        while i < n
            invariant
                n == self.name@.len(),
                name@ == self.name@,
                i <= n,
                forall|j: int| 0 <= j < i ==> api_key_name_char(#[trigger] self.name@[j]),
            decreases n - i,
        {
            if !name_char_ok(name.get_char(i)) {
                return Err(ErrorResponse::with(ErrorResponseType::BadRequest, "Invalid API key name"));
            }
            i = i + 1;
        }
        match self.exp {
            Some(e) => {
                if e < API_KEY_EXP_MIN || e > API_KEY_EXP_MAX {
                    return Err(
                        ErrorResponse::with(ErrorResponseType::BadRequest, "Invalid API key expiry"),
                    );
                }
            },
            None => {},
        }
        Ok(())
    }
}

} // verus!
