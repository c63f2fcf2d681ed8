//! Core of an OpenID Connect identity provider: the login state machine, the
//! token engine, the single-use stores for authorization codes and refresh
//! tokens, and the timing equalizer for failed logins.
//!
//! Every decision is a verified function from plain values to plain values;
//! I/O (database, cache, sleeping, signing with serialized claims) is left to
//! the caller.

pub mod text;
pub mod error;
pub mod base64;
pub mod crypto;
pub mod uri;
pub mod pkce;
pub mod user;
pub mod keys;
pub mod client;
pub mod session;
pub mod claims;
pub mod auth_code;
pub mod refresh;
pub mod timing;
pub mod header;
pub mod principal;
pub mod authorize;
pub mod grant;
pub mod endpoints;
pub mod api_keys;

pub use api_keys::{ApiKeyRequest, ApiKeyResponse, ApiKeysResponse};
pub use authorize::authorize;
pub use claims::{build_access_token, build_id_token, build_refresh_token};
pub use endpoints::{get_token_info, get_userinfo, logout, validate_auth_req_param, validate_token};
pub use error::{ErrorResponse, ErrorResponseType};
pub use grant::{get_token_set, validate_refresh_token};
pub use keys::rotate_jwks;
pub use principal::permission_extractor;
pub use timing::handle_login_delay;
