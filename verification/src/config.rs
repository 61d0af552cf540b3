use vstd::prelude::*;

use crate::errors::AuthError;

verus! {

/// Process-wide configuration, resolved once at startup and injected
/// into the handlers: the store's address, the store namespace, and the
/// token signing secret.
pub struct Config {
    pub store_url: String,
    pub store_name: String,
    pub token_secret: String,
}

/// The store namespace used when none is configured.
pub fn default_store_name() -> (r: String)
    ensures
        r@ == "influ_db"@,
{
    String::from_str("influ_db")
}

/// Whether the supplied raw values leave the configuration unusable:
/// the store address or the signing secret absent, or the secret
/// empty. An empty secret counts as missing, since failing fast beats
/// signing tokens with a worthless key.
pub open spec fn config_missing(store_url: Option<String>, token_secret: Option<String>) -> bool {
    ||| store_url is None
    ||| token_secret is None
    ||| token_secret matches Some(s) && s@.len() == 0
}

/// Resolves startup configuration from the raw optional values the
/// environment supplies. The store address and the signing secret are
/// required: without either, startup fails with `ConfigurationMissing`
/// rather than surfacing a failure on the first request; with both
/// present, resolution succeeds. The namespace falls back to its
/// default.
pub fn resolve_config(
    store_url: Option<String>,
    store_name: Option<String>,
    token_secret: Option<String>,
) -> (r: Result<Config, AuthError>)
    ensures
        config_missing(store_url, token_secret) ==> r == Err::<Config, AuthError>(
            AuthError::ConfigurationMissing,
        ),
        !config_missing(store_url, token_secret) ==> (r matches Ok(c) && {
            &&& store_url matches Some(u) && c.store_url == u
            &&& token_secret matches Some(s) && c.token_secret == s
            &&& match store_name {
                Some(n) => c.store_name == n,
                None => c.store_name@ == "influ_db"@,
            }
        }),
{
    let url = match store_url {
        Some(u) => u,
        None => {
            return Err(AuthError::ConfigurationMissing);
        },
    };
    let secret = match token_secret {
        Some(s) => s,
        None => {
            return Err(AuthError::ConfigurationMissing);
        },
    };
    if secret.as_str().unicode_len() == 0 {
        return Err(AuthError::ConfigurationMissing);
    }
    let name = match store_name {
        Some(n) => n,
        None => default_store_name(),
    };
    Ok(Config { store_url: url, store_name: name, token_secret: secret })
}

} // verus!
