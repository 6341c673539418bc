//! An AWS account as configured: which credentials the SDK clients are
//! built from.

use vstd::prelude::*;
use crate::cluster::{config_value, get_value, ConfigVar};
use crate::aws::network::opt_view;

verus! {

/// The region the price list service is queried in.
pub const PRICING_REGION: &'static str = "us-east-1";

/// An AWS account, by its configuration settings (`AUTH_MODE`,
/// `ACCESS_KEY_ID`, `SECRET_ACCESS_KEY`, `SESSION_TOKEN`).
pub struct AwsInterface {
    pub config_vars: Vec<ConfigVar>,
}

/// Where the SDK clients take their credentials from.
pub enum AwsCredentialSource {
    /// The SDK's default provider chain (environment, shared files, SSO...).
    DefaultChain,
    /// Keys stored in the configuration.
    Static { access_key_id: String, secret_access_key: String, session_token: Option<String> },
}

/// Why no credentials can be chosen.
pub enum AwsConfigError {
    /// The setting `key` is required and absent.
    MissingKey { key: String },
}

/// The session token to use: the setting, unless absent or empty.
pub open spec fn session_token_of(vars: Seq<ConfigVar>) -> Option<Seq<char>> {
    match config_value(vars, "SESSION_TOKEN"@) {
        Some(t) => if t.len() > 0 {
            Some(t)
        } else {
            None
        },
        None => None,
    }
}

impl AwsInterface {
    /// Chooses the credentials: the default chain when `AUTH_MODE` is
    /// `chain`; otherwise the stored access key id and secret (both
    /// required, the id first), with the session token when one is set and
    /// not empty.
    pub fn credential_source(&self) -> (r: Result<AwsCredentialSource, AwsConfigError>)
        ensures
            config_value(self.config_vars@, "AUTH_MODE"@) == Some("chain"@) ==> r matches Ok(
                AwsCredentialSource::DefaultChain,
            ),
            config_value(self.config_vars@, "AUTH_MODE"@) != Some("chain"@) ==> match (
                config_value(self.config_vars@, "ACCESS_KEY_ID"@),
                config_value(self.config_vars@, "SECRET_ACCESS_KEY"@),
            ) {
                (None, _) => r matches Err(AwsConfigError::MissingKey { key }) && key@
                    == "ACCESS_KEY_ID"@,
                (Some(_), None) => r matches Err(AwsConfigError::MissingKey { key }) && key@
                    == "SECRET_ACCESS_KEY"@,
                (Some(id), Some(secret)) => r matches Ok(
                    AwsCredentialSource::Static { access_key_id, secret_access_key, session_token },
                ) && access_key_id@ == id && secret_access_key@ == secret && opt_view(
                    session_token,
                ) == session_token_of(self.config_vars@),
            },
    {
        let chain = String::from_str("chain");
        match get_value(&self.config_vars, "AUTH_MODE") {
            Some(mode) => {
                if *mode == chain {
                    return Ok(AwsCredentialSource::DefaultChain);
                }
            },
            None => {},
        }
        let access_key_id = match get_value(&self.config_vars, "ACCESS_KEY_ID") {
            Some(v) => v.clone(),
            None => {
                return Err(AwsConfigError::MissingKey { key: String::from_str("ACCESS_KEY_ID") });
            },
        };
        let secret_access_key = match get_value(&self.config_vars, "SECRET_ACCESS_KEY") {
            Some(v) => v.clone(),
            None => {
                return Err(
                    AwsConfigError::MissingKey { key: String::from_str("SECRET_ACCESS_KEY") },
                );
            },
        };
        let session_token = match get_value(&self.config_vars, "SESSION_TOKEN") {
            Some(v) => {
                if v.unicode_len() > 0 {
                    Some(v.clone())
                } else {
                    None
                }
            },
            None => None,
        };
        Ok(AwsCredentialSource::Static { access_key_id, secret_access_key, session_token })
    }
}

} // verus!
