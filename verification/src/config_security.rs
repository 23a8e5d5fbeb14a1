//! Security configuration: the encryption key and API key of the
//! application's configuration.

use vstd::prelude::*;

verus! {

/// An ASCII letter or digit.
pub open spec fn is_ascii_alphanumeric(c: char) -> bool {
    ('A' <= c && c <= 'Z') || ('a' <= c && c <= 'z') || ('0' <= c && c <= '9')
}

/// A random text of ASCII letters and digits drawn with `rand`'s thread
/// generator and the `Alphanumeric` distribution. Only its length and its
/// alphabet are stated.
#[verifier::external_body]
fn random_alphanumeric(len: usize) -> (r: String)
    ensures
        r@.len() == len,
        forall|i: int| 0 <= i < len ==> is_ascii_alphanumeric(#[trigger] r@[i]),
{
    rand::Rng::sample_iter(rand::thread_rng(), &rand::distributions::Alphanumeric).take(len).map(char::from).collect()
}

/// A fresh random encryption key: thirty-two ASCII letters and digits.
pub fn generate_encryption_key() -> (k: String)
    ensures
        k@.len() == 32,
        forall|i: int| 0 <= i < 32 ==> is_ascii_alphanumeric(#[trigger] k@[i]),
{
    random_alphanumeric(32)
}

/// Security configuration structure.
#[derive(Debug, Clone)]
pub struct SecurityConfig {
    pub encryption_key: String,
    pub api_key: Option<String>,
    pub enable_encryption: bool,
}

impl Default for SecurityConfig {
    /// A fresh encryption key, no API key, encryption on.
    fn default() -> (c: Self)
        ensures
            c.encryption_key@.len() == 32,
            forall|i: int| 0 <= i < 32 ==> is_ascii_alphanumeric(#[trigger] c.encryption_key@[i]),
            c.api_key is None,
            c.enable_encryption,
    {
        SecurityConfig { encryption_key: generate_encryption_key(), api_key: None, enable_encryption: true }
    }
}

impl SecurityConfig {
    /// A new configuration, as by default.
    pub fn new() -> (c: Self)
        ensures
            c.encryption_key@.len() == 32,
            forall|i: int| 0 <= i < 32 ==> is_ascii_alphanumeric(#[trigger] c.encryption_key@[i]),
            c.api_key is None,
            c.enable_encryption,
    {
        Self::default()
    }

    /// The configuration with an API key.
    pub fn with_api_key(self, api_key: String) -> (c: Self)
        ensures
            c.api_key == Some(api_key),
            c.encryption_key == self.encryption_key,
            c.enable_encryption == self.enable_encryption,
    {
        SecurityConfig { api_key: Some(api_key), ..self }
    }

    /// The configuration with encryption switched on or off.
    pub fn with_encryption(self, enabled: bool) -> (c: Self)
        ensures
            c.enable_encryption == enabled,
            c.encryption_key == self.encryption_key,
            c.api_key == self.api_key,
    {
        SecurityConfig { enable_encryption: enabled, ..self }
    }
}

} // verus!
