//! Credential-store logic. The OS keychain itself is an external
//! collaborator; this module owns everything decidable about it: the
//! account names under which secrets are filed, the read/write requests
//! the keychain edge executes, and the combination of lookup results into
//! the provider status and the primary backend's secret bundle.
use vstd::prelude::*;

use crate::models::{AliyunSecrets, ProviderKind, ProviderSecretField, ProviderStatus};
use crate::text::push_char;

verus! {

/// The account name under which one provider secret is filed.
pub open spec fn account_seq(provider: ProviderKind, field: ProviderSecretField) -> Seq<char> {
    provider.spec_key() + seq![':'] + field.spec_key()
}

/// A request to read one secret from the keychain.
#[derive(Debug, Clone)]
pub struct SecretReadRequest {
    pub service: String,
    pub account: String,
}

/// A request to write one secret to the keychain.
#[derive(Debug, Clone)]
pub struct SecretWriteRequest {
    pub service: String,
    pub account: String,
    pub value: String,
}

/// Names the keychain entries of one service; the keychain edge executes
/// the requests this store computes.
#[derive(Debug, Clone)]
pub struct KeychainStore {
    pub service_name: String,
}

impl KeychainStore {
    /// A store filing secrets under `service_name`.
    pub fn new(service_name: String) -> (r: Self)
        ensures
            r.service_name@ == service_name@,
    {
        KeychainStore { service_name }
    }

    /// The account name of one provider secret.
    pub fn account_name(&self, provider: ProviderKind, field: ProviderSecretField) -> (r: String)
        ensures
            r@ == account_seq(provider, field),
    {
        let mut out = String::from_str(provider.as_key());
        push_char(&mut out, ':');
        out.append(field.as_key());
        out
    }

    /// The write request that stores one provider secret.
    pub fn save_provider_secret(
        &self,
        provider: ProviderKind,
        field: ProviderSecretField,
        value: String,
    ) -> (r: SecretWriteRequest)
        ensures
            r.service@ == self.service_name@,
            r.account@ == account_seq(provider, field),
            r.value@ == value@,
    {
        SecretWriteRequest {
            service: self.service_name.clone(),
            account: self.account_name(provider, field),
            value,
        }
    }

    /// The read request that fetches one provider secret.
    pub fn get_provider_secret(&self, provider: ProviderKind, field: ProviderSecretField) -> (r:
        SecretReadRequest)
        ensures
            r.service@ == self.service_name@,
            r.account@ == account_seq(provider, field),
    {
        SecretReadRequest {
            service: self.service_name.clone(),
            account: self.account_name(provider, field),
        }
    }

    /// Saving an API key files it under the key field.
    pub fn save_provider_key(&self, provider: ProviderKind, api_key: String) -> (r:
        SecretWriteRequest)
        ensures
            r.service@ == self.service_name@,
            r.account@ == account_seq(provider, ProviderSecretField::ApiKey),
            r.value@ == api_key@,
    {
        self.save_provider_secret(provider, ProviderSecretField::ApiKey, api_key)
    }

    /// Reading an API key looks under the key field.
    pub fn get_provider_key(&self, provider: ProviderKind) -> (r: SecretReadRequest)
        ensures
            r.service@ == self.service_name@,
            r.account@ == account_seq(provider, ProviderSecretField::ApiKey),
    {
        self.get_provider_secret(provider, ProviderSecretField::ApiKey)
    }

    /// Whether the key field of `provider` is present, from its lookup
    /// result.
    pub fn has_key(&self, lookup: &Option<String>) -> (r: bool)
        ensures
            r == (lookup is Some),
    {
        lookup.is_some()
    }

    /// Whether one secret field is present, from its lookup result.
    pub fn has_secret(&self, lookup: &Option<String>) -> (r: bool)
        ensures
            r == (lookup is Some),
    {
        lookup.is_some()
    }

    /// Combines per-field lookup results into the provider status: the
    /// primary backend needs all three of its fields, every other provider
    /// its API key.
    pub fn provider_status(
        &self,
        aliyun_key_id: &Option<String>,
        aliyun_key_secret: &Option<String>,
        aliyun_app_key: &Option<String>,
        deepgram: &Option<String>,
        anthropic: &Option<String>,
        gemini: &Option<String>,
        openai: &Option<String>,
        custom_llm: &Option<String>,
    ) -> (r: ProviderStatus)
        ensures
            r.aliyun == (aliyun_key_id is Some && aliyun_key_secret is Some && aliyun_app_key
                is Some),
            r.deepgram == (deepgram is Some),
            r.anthropic == (anthropic is Some),
            r.gemini == (gemini is Some),
            r.openai == (openai is Some),
            r.custom_llm == (custom_llm is Some),
    {
        ProviderStatus {
            aliyun: aliyun_key_id.is_some() && aliyun_key_secret.is_some()
                && aliyun_app_key.is_some(),
            deepgram: deepgram.is_some(),
            anthropic: anthropic.is_some(),
            gemini: gemini.is_some(),
            openai: openai.is_some(),
            custom_llm: custom_llm.is_some(),
        }
    }
}

/// The secret service: the keychain store under the application's service
/// name, with the primary backend's bundle assembly on top.
#[derive(Debug, Clone)]
pub struct SecretService {
    pub store: KeychainStore,
}

impl SecretService {
    /// A service filing secrets under `service_name`.
    pub fn new(service_name: String) -> (r: Self)
        ensures
            r.store.service_name@ == service_name@,
    {
        SecretService { store: KeychainStore::new(service_name) }
    }

    /// The write request that stores one provider API key.
    pub fn save_provider_key(&self, provider: ProviderKind, api_key: String) -> (r:
        SecretWriteRequest)
        ensures
            r.service@ == self.store.service_name@,
            r.account@ == account_seq(provider, ProviderSecretField::ApiKey),
            r.value@ == api_key@,
    {
        self.store.save_provider_key(provider, api_key)
    }

    /// The read request that fetches one provider API key.
    pub fn get_provider_key(&self, provider: ProviderKind) -> (r: SecretReadRequest)
        ensures
            r.service@ == self.store.service_name@,
            r.account@ == account_seq(provider, ProviderSecretField::ApiKey),
    {
        self.store.get_provider_key(provider)
    }

    /// The write request that stores one provider secret field.
    pub fn save_provider_secret(
        &self,
        provider: ProviderKind,
        field: ProviderSecretField,
        value: String,
    ) -> (r: SecretWriteRequest)
        ensures
            r.service@ == self.store.service_name@,
            r.account@ == account_seq(provider, field),
            r.value@ == value@,
    {
        self.store.save_provider_secret(provider, field, value)
    }

    /// Combines the three primary-backend lookup results: the bundle exists
    /// exactly when all three fields do.
    pub fn get_aliyun_secrets(
        &self,
        access_key_id: Option<String>,
        access_key_secret: Option<String>,
        app_key: Option<String>,
    ) -> (r: Option<AliyunSecrets>)
        ensures
            r is Some == (access_key_id is Some && access_key_secret is Some && app_key is Some),
            r matches Some(s) ==> s.access_key_id@ == access_key_id.unwrap()@
                && s.access_key_secret@ == access_key_secret.unwrap()@ && s.app_key@
                == app_key.unwrap()@,
    {
        match (access_key_id, access_key_secret, app_key) {
            (Some(access_key_id), Some(access_key_secret), Some(app_key)) => Some(
                AliyunSecrets { access_key_id, access_key_secret, app_key },
            ),
            _ => None,
        }
    }

    /// Combines per-field lookup results into the provider status.
    pub fn provider_status(
        &self,
        aliyun_key_id: &Option<String>,
        aliyun_key_secret: &Option<String>,
        aliyun_app_key: &Option<String>,
        deepgram: &Option<String>,
        anthropic: &Option<String>,
        gemini: &Option<String>,
        openai: &Option<String>,
        custom_llm: &Option<String>,
    ) -> (r: ProviderStatus)
        ensures
            r.aliyun == (aliyun_key_id is Some && aliyun_key_secret is Some && aliyun_app_key
                is Some),
            r.deepgram == (deepgram is Some),
            r.anthropic == (anthropic is Some),
            r.gemini == (gemini is Some),
            r.openai == (openai is Some),
            r.custom_llm == (custom_llm is Some),
    {
        self.store.provider_status(
            aliyun_key_id,
            aliyun_key_secret,
            aliyun_app_key,
            deepgram,
            anthropic,
            gemini,
            openai,
            custom_llm,
        )
    }
}

/// Validates one API-key input: a value that trims to nothing is
/// rejected before anything reaches the keychain.
pub fn validate_provider_key(api_key: &str) -> (r: Result<String, String>)
    ensures
        crate::text::trim_spec(api_key@).len() == 0 ==> (r matches Err(m) && m@
            == "apiKey cannot be empty"@),
        crate::text::trim_spec(api_key@).len() > 0 ==> (r matches Ok(v) && v@
            == crate::text::trim_spec(api_key@)),
{
    let trimmed = crate::text::trim_str(api_key);
    if trimmed.unicode_len() == 0 {
        Err(String::from_str("apiKey cannot be empty"))
    } else {
        Ok(trimmed)
    }
}

/// Validates one secret-field input, likewise.
pub fn validate_provider_secret(value: &str) -> (r: Result<String, String>)
    ensures
        crate::text::trim_spec(value@).len() == 0 ==> (r matches Err(m) && m@
            == "provider secret value cannot be empty"@),
        crate::text::trim_spec(value@).len() > 0 ==> (r matches Ok(v) && v@
            == crate::text::trim_spec(value@)),
{
    let trimmed = crate::text::trim_str(value);
    if trimmed.unicode_len() == 0 {
        Err(String::from_str("provider secret value cannot be empty"))
    } else {
        Ok(trimmed)
    }
}

/// Which (provider, field) pairs name a stored secret: the primary backend
/// files its three fields, every other provider only its API key.
pub fn provider_field_is_stored(provider: ProviderKind, field: ProviderSecretField) -> (r: bool)
    ensures
        r == (provider == ProviderKind::Aliyun || field == ProviderSecretField::ApiKey),
{
    match (provider, field) {
        (ProviderKind::Aliyun, _) => true,
        (_, ProviderSecretField::ApiKey) => true,
        _ => false,
    }
}

} // verus!
