//! Platform-neutral core of a WebAuthn client: the request and response data
//! model, the choice of platform adapter, the translation of requests into
//! what the native authenticator is handed, a one-shot completion slot that
//! turns a callback-driven native flow into a single result, and the mapping
//! of native results and failures into a stable outcome and error taxonomy.

mod encoding;
mod error;
mod model;
mod outcome;
mod platform;
mod request;
mod slot;

pub use encoding::{base64url_of, unpadded_b64_len};
pub use error::{CeremonyError, RequiredField};
pub use model::{
    AuthenticationExtensionsClientInputs, AuthenticationExtensionsPRFInputs,
    AuthenticationExtensionsPRFValues, AuthenticatorAssertionResponse,
    AuthenticatorAttestationResponse, AuthenticatorResponse, AuthenticatorSelectionCriteria,
    PublicKeyCredential, PublicKeyCredentialCreationOptions, PublicKeyCredentialDescriptor,
    PublicKeyCredentialEntity, PublicKeyCredentialParameters, PublicKeyCredentialRequestOptions,
    PublicKeyCredentialRpEntity, PublicKeyCredentialUserEntity,
};
pub use outcome::{
    assertion_encodable, assertion_result, attestation_encodable, conclude_assertion,
    conclude_creation, creation_result, encodable, finish_assertion, finish_creation,
    id_matches_raw_id, is_assertion_outcome, is_attestation_outcome,
    lemma_outcome_id_encodes_raw_id, native_failure, slot_assertion_encodable,
    slot_attestation_encodable, woken_state, NativeAssertion, NativeAttestation,
};
pub use platform::{
    is_supported, select_adapter, selected_adapter, supported, Adapter, HostProbe,
    PlatformAdapter, MIN_MACOS_MAJOR,
};
pub use request::{
    assertion_handoff, assertion_rejection, build_assertion_request, build_creation_request,
    ceremony_rejection, creation_handoff, creation_rejection, effective_timeout,
    lemma_missing_rp_id_is_invalid, lemma_no_capability_refuses_all, optional_preference,
    parse_preference, preference_of, rp_id_resolved, timeout_ceiling, NativeAssertionRequest,
    NativeCreationRequest, UserVerificationPreference,
};
pub use slot::{
    expire_effect, fire_effect, lemma_double_fire_keeps_first, lemma_settled_slot_is_frozen,
    lemma_unfired_slot_times_out, take_effect, Completion, CompletionSlot, NativeError,
    SlotState,
};
