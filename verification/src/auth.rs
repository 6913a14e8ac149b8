//! The authorizer: a request may change files only where its authorization
//! line is exactly the one that the configured secret calls for.

use vstd::prelude::*;
use vstd::string::StringExecFns;

verus! {

/// What the server is started with.
#[derive(Clone, Debug)]
pub struct Configuration {
    /// The shared secret; `None` where none was set.
    pub secret_token: Option<String>,
    /// The directory under which every path is resolved.
    pub root_directory: String,
}

/// A configuration as plain values.
pub struct ConfigurationView {
    pub secret_token: Option<Seq<char>>,
    pub root_directory: Seq<char>,
}

impl View for Configuration {
    type V = ConfigurationView;

    open spec fn view(&self) -> ConfigurationView {
        ConfigurationView {
            secret_token: match self.secret_token {
                Some(secret) => Some(secret@),
                None => None,
            },
            root_directory: self.root_directory@,
        }
    }
}

/// Why a request could not be judged.
#[derive(Clone, Copy, Debug, PartialEq, Eq, Structural)]
pub enum ConfigError {
    /// No secret is configured.
    MissingSecret,
}

/// The one authorization line that `secret` admits.
pub open spec fn expected_header(secret: Seq<char>) -> Seq<char> {
    "Authorization: Bearer "@ + secret
}

/// Whether `header` is authorized under `config`: never without a secret.
pub open spec fn authorized(config: ConfigurationView, header: Option<Seq<char>>) -> bool {
    match (config.secret_token, header) {
        (Some(secret), Some(line)) => line == expected_header(secret),
        _ => false,
    }
}

/// Judges an authorization line. Without a configured secret nothing is
/// judged and the error is returned; with one, the line is authorized exactly
/// when it is `Authorization: Bearer ` followed by the secret, character for
/// character.
pub fn is_authorized(auth_header: &str, config: &Configuration) -> (r: Result<bool, ConfigError>)
    ensures
        match config@.secret_token {
            Some(secret) => r == Ok::<bool, ConfigError>(auth_header@ == expected_header(secret)),
            None => r == Err::<bool, ConfigError>(ConfigError::MissingSecret),
        },
{
    match &config.secret_token {
        Some(secret) => {
            let mut expected = String::from_str("Authorization: Bearer ");
            expected.append(secret.as_str());
            let given = auth_header.to_owned();
            Ok(expected == given)
        },
        None => Err(ConfigError::MissingSecret),
    }
}

} // verus!
