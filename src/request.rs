use crate::error::{CeremonyError, RequiredField};
use crate::model::{
    AuthenticationExtensionsClientInputs, AuthenticatorSelectionCriteria,
    PublicKeyCredentialCreationOptions, PublicKeyCredentialDescriptor,
    PublicKeyCredentialParameters, PublicKeyCredentialRequestOptions,
};
use crate::platform::{supported, Adapter};
use vstd::prelude::*;

verus! {

/// User-verification preference as the native layer takes it.
#[derive(Debug, Clone, Copy, PartialEq, Eq, Structural)]
pub enum UserVerificationPreference {
    Required,
    Preferred,
    Discouraged,
}

/// What the platform adapter is handed to start a creation ceremony.
#[derive(Debug, Clone, PartialEq)]
pub struct NativeCreationRequest {
    /// `None` lets the native layer use the ambient origin.
    pub relying_party_id: Option<String>,
    pub relying_party_name: String,
    pub challenge: Vec<u8>,
    pub user_id: Vec<u8>,
    pub user_name: String,
    /// `None` where the caller's display name is empty.
    pub display_name: Option<String>,
    pub credential_parameters: Vec<PublicKeyCredentialParameters>,
    pub exclude_credentials: Option<Vec<PublicKeyCredentialDescriptor>>,
    pub authenticator_selection: Option<AuthenticatorSelectionCriteria>,
    pub user_verification: Option<UserVerificationPreference>,
    pub attestation: Option<String>,
    pub extensions: Option<AuthenticationExtensionsClientInputs>,
    /// Ceiling of the wait for the native completion, in milliseconds.
    pub timeout_ms: u64,
}

/// What the platform adapter is handed to start an assertion ceremony.
#[derive(Debug, Clone, PartialEq)]
pub struct NativeAssertionRequest {
    /// `None` lets the native layer use the ambient origin.
    pub relying_party_id: Option<String>,
    pub challenge: Vec<u8>,
    pub allow_credentials: Option<Vec<PublicKeyCredentialDescriptor>>,
    pub user_verification: Option<UserVerificationPreference>,
    pub extensions: Option<AuthenticationExtensionsClientInputs>,
    /// Ceiling of the wait for the native completion, in milliseconds.
    pub timeout_ms: u64,
}

/// `"required"` and `"discouraged"` are taken as they are; any other text
/// asks for the default, `Preferred`.
pub open spec fn preference_of(text: Seq<char>) -> UserVerificationPreference {
    if text == "required"@ {
        UserVerificationPreference::Required
    } else if text == "discouraged"@ {
        UserVerificationPreference::Discouraged
    } else {
        UserVerificationPreference::Preferred
    }
}

/// The preference read from an optional text; none where there is no text.
pub open spec fn optional_preference(text: Option<String>) -> Option<UserVerificationPreference> {
    match text {
        Some(t) => Some(preference_of(t@)),
        None => None,
    }
}

/// The wait ceiling: the smaller of what the caller asked for and the
/// platform's default; a negative request counts as zero.
pub open spec fn effective_timeout(requested: Option<i32>, platform_default_ms: u64) -> u64 {
    match requested {
        None => platform_default_ms,
        Some(t) => if t <= 0 {
            0
        } else if (t as u64) < platform_default_ms {
            t as u64
        } else {
            platform_default_ms
        },
    }
}

/// A relying-party identifier that is present and not empty.
pub open spec fn rp_id_resolved(id: Option<String>) -> bool {
    id matches Some(s) && s@.len() > 0
}

/// Why a ceremony with these inputs is refused before any native call, if
/// it is: a platform without adapter first; then the request's own shape,
/// the relying-party identifier before the challenge; only then a native
/// provider that this OS version lacks.
pub open spec fn ceremony_rejection(
    adapter: Adapter,
    rp_id: Option<String>,
    challenge: Seq<u8>,
) -> Option<CeremonyError> {
    match adapter {
        Adapter::NoCapability => Some(CeremonyError::Unsupported),
        Adapter::Platform(p) => if p.requires_rp_id && !rp_id_resolved(rp_id) {
            Some(CeremonyError::InvalidArgument(RequiredField::RelyingPartyId))
        } else if challenge.len() == 0 {
            Some(CeremonyError::InvalidArgument(RequiredField::Challenge))
        } else if !p.provider_available {
            Some(CeremonyError::Unavailable)
        } else {
            None
        },
    }
}

pub open spec fn creation_rejection(
    adapter: Adapter,
    options: PublicKeyCredentialCreationOptions,
) -> Option<CeremonyError> {
    ceremony_rejection(adapter, options.rp.id, options.challenge@)
}

pub open spec fn assertion_rejection(
    adapter: Adapter,
    options: PublicKeyCredentialRequestOptions,
) -> Option<CeremonyError> {
    ceremony_rejection(adapter, options.rp_id, options.challenge@)
}

/// The native creation request for accepted options: every field passed on
/// as it is, the preference read from the selection criteria, an empty
/// display name left out.
pub open spec fn creation_handoff(
    options: PublicKeyCredentialCreationOptions,
    platform_default_ms: u64,
) -> NativeCreationRequest {
    NativeCreationRequest {
        relying_party_id: options.rp.id,
        relying_party_name: options.rp.name,
        challenge: options.challenge,
        user_id: options.user.id,
        user_name: options.user.name,
        display_name: if options.user.display_name@.len() == 0 {
            None
        } else {
            Some(options.user.display_name)
        },
        credential_parameters: options.pub_key_cred_params,
        exclude_credentials: options.exclude_credentials,
        authenticator_selection: options.authenticator_selection,
        user_verification: match options.authenticator_selection {
            Some(s) => optional_preference(s.user_verification),
            None => None,
        },
        attestation: options.attestation,
        extensions: options.extensions,
        timeout_ms: effective_timeout(options.timeout, platform_default_ms),
    }
}

/// The native assertion request for accepted options.
pub open spec fn assertion_handoff(
    options: PublicKeyCredentialRequestOptions,
    platform_default_ms: u64,
) -> NativeAssertionRequest {
    NativeAssertionRequest {
        relying_party_id: options.rp_id,
        challenge: options.challenge,
        allow_credentials: options.allow_credentials,
        user_verification: optional_preference(options.user_verification),
        extensions: options.extensions,
        timeout_ms: effective_timeout(options.timeout, platform_default_ms),
    }
}

fn text_equals(text: &String, literal: &str) -> (r: bool)
    ensures
        r == (text@ == literal@),
{
    let owned = literal.to_owned();
    *text == owned
}

/// Reads a user-verification preference from its text.
pub fn parse_preference(text: &String) -> (p: UserVerificationPreference)
    ensures
        p == preference_of(text@),
{
    if text_equals(text, "required") {
        UserVerificationPreference::Required
    } else if text_equals(text, "discouraged") {
        UserVerificationPreference::Discouraged
    } else {
        UserVerificationPreference::Preferred
    }
}

fn parse_optional_preference(text: &Option<String>) -> (p: Option<UserVerificationPreference>)
    ensures
        p == optional_preference(*text),
{
    match text {
        Some(t) => Some(parse_preference(t)),
        None => None,
    }
}

/// Computes the wait ceiling of a ceremony.
pub fn timeout_ceiling(requested: Option<i32>, platform_default_ms: u64) -> (ms: u64)
    ensures
        ms == effective_timeout(requested, platform_default_ms),
        ms <= platform_default_ms,
{
    match requested {
        None => platform_default_ms,
        Some(t) => if t <= 0 {
            0
        } else if (t as u64) < platform_default_ms {
            t as u64
        } else {
            platform_default_ms
        },
    }
}

fn check_ceremony(adapter: &Adapter, rp_id: &Option<String>, challenge: &Vec<u8>) -> (r: Result<
    (),
    CeremonyError,
>)
    ensures
        match ceremony_rejection(*adapter, *rp_id, challenge@) {
            Some(e) => r == Err::<(), CeremonyError>(e),
            None => r is Ok,
        },
{
    match adapter {
        Adapter::NoCapability => Err(CeremonyError::Unsupported),
        Adapter::Platform(p) => {
            let resolved = match rp_id {
                Some(s) => !s.as_str().is_empty(),
                None => false,
            };
            if p.requires_rp_id && !resolved {
                return Err(CeremonyError::InvalidArgument(RequiredField::RelyingPartyId));
            }
            if challenge.len() == 0 {
                return Err(CeremonyError::InvalidArgument(RequiredField::Challenge));
            }
            if !p.provider_available {
                return Err(CeremonyError::Unavailable);
            }
            Ok(())
        },
    }
}

/// Validates a creation request against the adapter and turns it into what
/// the native layer is handed. Fails before any native call, as
/// `creation_rejection` says; otherwise every field goes on unchanged.
pub fn build_creation_request(
    adapter: &Adapter,
    options: PublicKeyCredentialCreationOptions,
    platform_default_ms: u64,
) -> (r: Result<NativeCreationRequest, CeremonyError>)
    ensures
        match creation_rejection(*adapter, options) {
            Some(e) => r == Err::<NativeCreationRequest, CeremonyError>(e),
            None => r == Ok::<NativeCreationRequest, CeremonyError>(
                creation_handoff(options, platform_default_ms),
            ),
        },
{
    check_ceremony(adapter, &options.rp.id, &options.challenge)?;
    let user_verification = match &options.authenticator_selection {
        Some(s) => parse_optional_preference(&s.user_verification),
        None => None,
    };
    let timeout_ms = timeout_ceiling(options.timeout, platform_default_ms);
    let display_name = if options.user.display_name.as_str().is_empty() {
        None
    } else {
        Some(options.user.display_name)
    };
    Ok(
        NativeCreationRequest {
            relying_party_id: options.rp.id,
            relying_party_name: options.rp.name,
            challenge: options.challenge,
            user_id: options.user.id,
            user_name: options.user.name,
            display_name,
            credential_parameters: options.pub_key_cred_params,
            exclude_credentials: options.exclude_credentials,
            authenticator_selection: options.authenticator_selection,
            user_verification,
            attestation: options.attestation,
            extensions: options.extensions,
            timeout_ms,
        },
    )
}

/// Validates an assertion request against the adapter and turns it into
/// what the native layer is handed. Fails before any native call, as
/// `assertion_rejection` says; otherwise every field goes on unchanged.
pub fn build_assertion_request(
    adapter: &Adapter,
    options: PublicKeyCredentialRequestOptions,
    platform_default_ms: u64,
) -> (r: Result<NativeAssertionRequest, CeremonyError>)
    ensures
        match assertion_rejection(*adapter, options) {
            Some(e) => r == Err::<NativeAssertionRequest, CeremonyError>(e),
            None => r == Ok::<NativeAssertionRequest, CeremonyError>(
                assertion_handoff(options, platform_default_ms),
            ),
        },
{
    check_ceremony(adapter, &options.rp_id, &options.challenge)?;
    let user_verification = parse_optional_preference(&options.user_verification);
    let timeout_ms = timeout_ceiling(options.timeout, platform_default_ms);
    Ok(
        NativeAssertionRequest {
            relying_party_id: options.rp_id,
            challenge: options.challenge,
            allow_credentials: options.allow_credentials,
            user_verification,
            extensions: options.extensions,
            timeout_ms,
        },
    )
}

/// On the adapter of a platform without capability, both ceremonies fail
/// at once with `Unsupported`, whatever the request holds.
pub proof fn lemma_no_capability_refuses_all(
    creation: PublicKeyCredentialCreationOptions,
    assertion: PublicKeyCredentialRequestOptions,
)
    ensures
        !supported(Adapter::NoCapability),
        creation_rejection(Adapter::NoCapability, creation) == Some(CeremonyError::Unsupported),
        assertion_rejection(Adapter::NoCapability, assertion) == Some(CeremonyError::Unsupported),
{
}

/// Where the adapter needs a relying-party identifier, a creation request
/// without one is refused with `InvalidArgument` before anything is handed
/// to the native layer, whether or not the native provider exists; so is an
/// assertion request without one.
pub proof fn lemma_missing_rp_id_is_invalid(
    adapter: Adapter,
    creation: PublicKeyCredentialCreationOptions,
    assertion: PublicKeyCredentialRequestOptions,
)
    requires
        adapter matches Adapter::Platform(p) && p.requires_rp_id,
    ensures
        creation.rp.id is None ==> creation_rejection(adapter, creation) == Some(
            CeremonyError::InvalidArgument(RequiredField::RelyingPartyId),
        ),
        assertion.rp_id is None ==> assertion_rejection(adapter, assertion) == Some(
            CeremonyError::InvalidArgument(RequiredField::RelyingPartyId),
        ),
{
}

} // verus!
