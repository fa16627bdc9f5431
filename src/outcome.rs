use crate::encoding::{base64_url_encode, base64url_of, unpadded_b64_len};
use crate::error::CeremonyError;
use crate::model::{
    AuthenticatorAssertionResponse, AuthenticatorAttestationResponse, AuthenticatorResponse,
    PublicKeyCredential,
};
use crate::slot::{expire_effect, take_effect, Completion, CompletionSlot, NativeError, SlotState};
use vstd::prelude::*;

verus! {

/// What the native layer reports of a created credential.
#[derive(Debug, Clone, PartialEq)]
pub struct NativeAttestation {
    pub raw_id: Vec<u8>,
    pub client_data_json: Vec<u8>,
    pub attestation_object: Vec<u8>,
    pub transports: Vec<String>,
    pub authenticator_attachment: Option<String>,
}

/// What the native layer reports of an assertion.
#[derive(Debug, Clone, PartialEq)]
pub struct NativeAssertion {
    pub raw_id: Vec<u8>,
    pub client_data_json: Vec<u8>,
    pub authenticator_data: Vec<u8>,
    pub signature: Vec<u8>,
    pub user_handle: Option<Vec<u8>>,
    pub authenticator_attachment: Option<String>,
}

/// A credential identifier short enough that its base64 text fits in memory.
pub open spec fn encodable(raw_id: Seq<u8>) -> bool {
    unpadded_b64_len(raw_id.len()) <= usize::MAX
}

/// The invariant of an outcome: its text id is the URL-safe unpadded base64
/// of its raw id.
pub open spec fn id_matches_raw_id(c: PublicKeyCredential) -> bool {
    c.id@ == base64url_of(c.raw_id@)
}

/// The error a caller sees for a native failure: its code and message kept.
pub open spec fn native_failure(e: NativeError) -> CeremonyError {
    CeremonyError::NativeFailure { code: e.code, message: e.message }
}

/// `c` is the outcome of the native attestation `a`: its bytes kept as they
/// are, its id computed from the raw id.
pub open spec fn is_attestation_outcome(c: PublicKeyCredential, a: NativeAttestation) -> bool {
    &&& c.id@ == base64url_of(a.raw_id@)
    &&& c.raw_id == a.raw_id
    &&& c.response == AuthenticatorResponse::Attestation(
        AuthenticatorAttestationResponse {
            client_data_json: a.client_data_json,
            attestation_object: a.attestation_object,
            transports: a.transports,
        },
    )
    &&& c.authenticator_attachment == a.authenticator_attachment
    &&& c.type_@ == "public-key"@
}

/// `c` is the outcome of the native assertion `a`.
pub open spec fn is_assertion_outcome(c: PublicKeyCredential, a: NativeAssertion) -> bool {
    &&& c.id@ == base64url_of(a.raw_id@)
    &&& c.raw_id == a.raw_id
    &&& c.response == AuthenticatorResponse::Assertion(
        AuthenticatorAssertionResponse {
            client_data_json: a.client_data_json,
            authenticator_data: a.authenticator_data,
            signature: a.signature,
            user_handle: a.user_handle,
        },
    )
    &&& c.authenticator_attachment == a.authenticator_attachment
    &&& c.type_@ == "public-key"@
}

/// What a creation ceremony returns for each terminal value of its slot.
pub open spec fn creation_result(
    c: Completion<NativeAttestation>,
    r: Result<PublicKeyCredential, CeremonyError>,
) -> bool {
    match c {
        Completion::Delivered(Ok(a)) => r matches Ok(cred) && is_attestation_outcome(cred, a),
        Completion::Delivered(Err(e)) => r == Err::<PublicKeyCredential, CeremonyError>(
            native_failure(e),
        ),
        Completion::TimedOut => r == Err::<PublicKeyCredential, CeremonyError>(
            CeremonyError::Timeout,
        ),
    }
}

/// What an assertion ceremony returns for each terminal value of its slot.
pub open spec fn assertion_result(
    c: Completion<NativeAssertion>,
    r: Result<PublicKeyCredential, CeremonyError>,
) -> bool {
    match c {
        Completion::Delivered(Ok(a)) => r matches Ok(cred) && is_assertion_outcome(cred, a),
        Completion::Delivered(Err(e)) => r == Err::<PublicKeyCredential, CeremonyError>(
            native_failure(e),
        ),
        Completion::TimedOut => r == Err::<PublicKeyCredential, CeremonyError>(
            CeremonyError::Timeout,
        ),
    }
}

/// The terminal value carries a raw id whose text can be computed.
pub open spec fn attestation_encodable(c: Completion<NativeAttestation>) -> bool {
    c matches Completion::Delivered(Ok(a)) ==> encodable(a.raw_id@)
}

pub open spec fn assertion_encodable(c: Completion<NativeAssertion>) -> bool {
    c matches Completion::Delivered(Ok(a)) ==> encodable(a.raw_id@)
}

fn public_key_type() -> (t: String)
    ensures
        t@ == "public-key"@,
{
    "public-key".to_owned()
}

fn native_error_to_failure(e: NativeError) -> (r: CeremonyError)
    ensures
        r == native_failure(e),
{
    CeremonyError::NativeFailure { code: e.code, message: e.message }
}

/// Maps the terminal value of a creation ceremony to what its caller gets:
/// a native success becomes an outcome whose id is recomputed from the raw
/// id, a native error a `NativeFailure`, an elapsed ceiling a `Timeout`.
pub fn finish_creation(c: Completion<NativeAttestation>) -> (r: Result<
    PublicKeyCredential,
    CeremonyError,
>)
    requires
        attestation_encodable(c),
    ensures
        creation_result(c, r),
        r matches Ok(cred) ==> id_matches_raw_id(cred),
{
    match c {
        Completion::Delivered(Ok(a)) => {
            let id = base64_url_encode(a.raw_id.as_slice());
            Ok(
                PublicKeyCredential {
                    id,
                    raw_id: a.raw_id,
                    response: AuthenticatorResponse::Attestation(
                        AuthenticatorAttestationResponse {
                            client_data_json: a.client_data_json,
                            attestation_object: a.attestation_object,
                            transports: a.transports,
                        },
                    ),
                    authenticator_attachment: a.authenticator_attachment,
                    type_: public_key_type(),
                },
            )
        },
        Completion::Delivered(Err(e)) => Err(native_error_to_failure(e)),
        Completion::TimedOut => Err(CeremonyError::Timeout),
    }
}

/// Maps the terminal value of an assertion ceremony to what its caller gets.
pub fn finish_assertion(c: Completion<NativeAssertion>) -> (r: Result<
    PublicKeyCredential,
    CeremonyError,
>)
    requires
        assertion_encodable(c),
    ensures
        assertion_result(c, r),
        r matches Ok(cred) ==> id_matches_raw_id(cred),
{
    match c {
        Completion::Delivered(Ok(a)) => {
            let id = base64_url_encode(a.raw_id.as_slice());
            Ok(
                PublicKeyCredential {
                    id,
                    raw_id: a.raw_id,
                    response: AuthenticatorResponse::Assertion(
                        AuthenticatorAssertionResponse {
                            client_data_json: a.client_data_json,
                            authenticator_data: a.authenticator_data,
                            signature: a.signature,
                            user_handle: a.user_handle,
                        },
                    ),
                    authenticator_attachment: a.authenticator_attachment,
                    type_: public_key_type(),
                },
            )
        },
        Completion::Delivered(Err(e)) => Err(native_error_to_failure(e)),
        Completion::TimedOut => Err(CeremonyError::Timeout),
    }
}

/// A slot whose delivered success, if any, has an encodable raw id.
pub open spec fn slot_attestation_encodable(s: SlotState<NativeAttestation>) -> bool {
    s matches SlotState::Filled(Ok(a)) ==> encodable(a.raw_id@)
}

pub open spec fn slot_assertion_encodable(s: SlotState<NativeAssertion>) -> bool {
    s matches SlotState::Filled(Ok(a)) ==> encodable(a.raw_id@)
}

/// The slot after the waiting ceremony wakes: expired first if the ceiling
/// elapsed, so that a value delivered in time still wins.
pub open spec fn woken_state<T>(s: SlotState<T>, ceiling_elapsed: bool) -> SlotState<T> {
    if ceiling_elapsed {
        expire_effect(s).0
    } else {
        s
    }
}

/// One step of a waiting creation ceremony, run each time it wakes: because
/// the slot was filled, or because the ceiling elapsed. Returns the result
/// for the caller once there is one, and `None` while it must wait on.
pub fn conclude_creation(slot: &mut CompletionSlot<NativeAttestation>, ceiling_elapsed: bool) -> (r:
    Option<Result<PublicKeyCredential, CeremonyError>>)
    requires
        slot_attestation_encodable(old(slot)@),
    ensures
        final(slot)@ == take_effect(woken_state(old(slot)@, ceiling_elapsed)).0,
        match take_effect(woken_state(old(slot)@, ceiling_elapsed)).1 {
            Some(c) => r matches Some(res) && creation_result(c, res),
            None => r is None,
        },
{
    if ceiling_elapsed {
        slot.expire();
    }
    match slot.take() {
        Some(c) => Some(finish_creation(c)),
        None => None,
    }
}

/// One step of a waiting assertion ceremony; see `conclude_creation`.
pub fn conclude_assertion(slot: &mut CompletionSlot<NativeAssertion>, ceiling_elapsed: bool) -> (r:
    Option<Result<PublicKeyCredential, CeremonyError>>)
    requires
        slot_assertion_encodable(old(slot)@),
    ensures
        final(slot)@ == take_effect(woken_state(old(slot)@, ceiling_elapsed)).0,
        match take_effect(woken_state(old(slot)@, ceiling_elapsed)).1 {
            Some(c) => r matches Some(res) && assertion_result(c, res),
            None => r is None,
        },
{
    if ceiling_elapsed {
        slot.expire();
    }
    match slot.take() {
        Some(c) => Some(finish_assertion(c)),
        None => None,
    }
}

/// Whatever a ceremony ends with, a successful outcome's text id is the
/// URL-safe unpadded base64 of its raw id.
pub proof fn lemma_outcome_id_encodes_raw_id(
    created: Completion<NativeAttestation>,
    asserted: Completion<NativeAssertion>,
    r1: Result<PublicKeyCredential, CeremonyError>,
    r2: Result<PublicKeyCredential, CeremonyError>,
)
    requires
        creation_result(created, r1),
        assertion_result(asserted, r2),
    ensures
        r1 matches Ok(c) ==> id_matches_raw_id(c),
        r2 matches Ok(c) ==> id_matches_raw_id(c),
{
}

} // verus!
