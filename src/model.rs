use std::collections::HashMap;
use vstd::prelude::*;

verus! {

/// Pseudo-random function salts of the `prf` extension.
#[derive(Debug, Clone, PartialEq)]
pub struct AuthenticationExtensionsPRFValues {
    pub first: Vec<u8>,
    pub second: Option<Vec<u8>>,
}

/// Inputs of the `prf` extension: one evaluation, and one per credential id.
#[derive(Debug, Clone, PartialEq)]
pub struct AuthenticationExtensionsPRFInputs {
    pub eval: Option<AuthenticationExtensionsPRFValues>,
    pub eval_by_credential: Option<HashMap<String, AuthenticationExtensionsPRFValues>>,
}

/// A previously registered credential, named in an allow or exclude list.
#[derive(Debug, Clone, PartialEq)]
pub struct PublicKeyCredentialDescriptor {
    pub id: Vec<u8>,
    pub transports: Option<Vec<String>>,
    pub type_: String,
}

/// The extension bag of a ceremony, handed to the authenticator as it is.
#[derive(Debug, Clone, PartialEq)]
pub struct AuthenticationExtensionsClientInputs {
    pub appid: Option<String>,
    pub cred_props: Option<bool>,
    pub hmac_create_secret: Option<bool>,
    pub min_pin_length: Option<bool>,
    pub prf: Option<AuthenticationExtensionsPRFInputs>,
}

/// A credential type with a COSE algorithm identifier.
#[derive(Debug, Clone, PartialEq)]
pub struct PublicKeyCredentialParameters {
    pub alg: i32,
    pub type_: String,
}

/// An entity known by its name alone.
#[derive(Debug, Clone, PartialEq)]
pub struct PublicKeyCredentialEntity {
    pub name: String,
}

/// The relying party; an absent `id` stands for the ambient origin.
#[derive(Debug, Clone, PartialEq)]
pub struct PublicKeyCredentialRpEntity {
    pub id: Option<String>,
    pub name: String,
}

/// The account a credential is created for; `id` is opaque.
#[derive(Debug, Clone, PartialEq)]
pub struct PublicKeyCredentialUserEntity {
    pub display_name: String,
    pub id: Vec<u8>,
    pub name: String,
}

/// What the relying party asks of the authenticator when creating.
#[derive(Debug, Clone, PartialEq)]
pub struct AuthenticatorSelectionCriteria {
    pub authenticator_attachment: Option<String>,
    pub require_resident_key: Option<bool>,
    pub resident_key: Option<String>,
    pub user_verification: Option<String>,
}

/// A request to create a credential.
#[derive(Debug, Clone, PartialEq)]
pub struct PublicKeyCredentialCreationOptions {
    pub attestation: Option<String>,
    pub authenticator_selection: Option<AuthenticatorSelectionCriteria>,
    pub challenge: Vec<u8>,
    pub exclude_credentials: Option<Vec<PublicKeyCredentialDescriptor>>,
    pub extensions: Option<AuthenticationExtensionsClientInputs>,
    pub pub_key_cred_params: Vec<PublicKeyCredentialParameters>,
    pub rp: PublicKeyCredentialRpEntity,
    pub timeout: Option<i32>,
    pub user: PublicKeyCredentialUserEntity,
}

/// A request for an assertion from an existing credential.
#[derive(Debug, Clone, PartialEq)]
pub struct PublicKeyCredentialRequestOptions {
    pub allow_credentials: Option<Vec<PublicKeyCredentialDescriptor>>,
    pub challenge: Vec<u8>,
    pub extensions: Option<AuthenticationExtensionsClientInputs>,
    pub rp_id: Option<String>,
    pub timeout: Option<i32>,
    pub user_verification: Option<String>,
}

/// The authenticator's answer to a creation ceremony.
#[derive(Debug, Clone, PartialEq)]
pub struct AuthenticatorAttestationResponse {
    pub client_data_json: Vec<u8>,
    pub attestation_object: Vec<u8>,
    pub transports: Vec<String>,
}

/// The authenticator's answer to an assertion ceremony.
#[derive(Debug, Clone, PartialEq)]
pub struct AuthenticatorAssertionResponse {
    pub client_data_json: Vec<u8>,
    pub authenticator_data: Vec<u8>,
    pub signature: Vec<u8>,
    pub user_handle: Option<Vec<u8>>,
}

/// The response of a credential, tagged by the ceremony that produced it.
#[derive(Debug, Clone, PartialEq)]
pub enum AuthenticatorResponse {
    Attestation(AuthenticatorAttestationResponse),
    Assertion(AuthenticatorAssertionResponse),
}

/// The outcome of a successful ceremony.
#[derive(Debug, Clone, PartialEq)]
pub struct PublicKeyCredential {
    pub id: String,
    pub raw_id: Vec<u8>,
    pub response: AuthenticatorResponse,
    pub authenticator_attachment: Option<String>,
    pub type_: String,
}

} // verus!
