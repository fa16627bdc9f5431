use base64::Engine;
use webauthn_ceremony::{
    build_assertion_request, build_creation_request, conclude_assertion, conclude_creation,
    finish_creation, is_supported, parse_preference, select_adapter, timeout_ceiling, Adapter,
    AuthenticatorAttestationResponse, AuthenticatorResponse, AuthenticatorSelectionCriteria,
    CeremonyError, Completion, CompletionSlot, HostProbe, NativeAssertion, NativeAttestation,
    NativeCreationRequest, NativeError, PlatformAdapter, PublicKeyCredentialCreationOptions,
    PublicKeyCredentialDescriptor, PublicKeyCredentialParameters,
    PublicKeyCredentialRequestOptions, PublicKeyCredentialRpEntity,
    PublicKeyCredentialUserEntity, RequiredField, UserVerificationPreference,
};

const DEFAULT_CEILING_MS: u64 = 60_000;

fn platform_adapter() -> Adapter {
    Adapter::Platform(PlatformAdapter { provider_available: true, requires_rp_id: true })
}

fn creation_options(rp_id: Option<&str>) -> PublicKeyCredentialCreationOptions {
    PublicKeyCredentialCreationOptions {
        attestation: None,
        authenticator_selection: None,
        challenge: vec![9, 9, 9],
        exclude_credentials: None,
        extensions: None,
        pub_key_cred_params: vec![PublicKeyCredentialParameters {
            alg: -7,
            type_: "public-key".to_string(),
        }],
        rp: PublicKeyCredentialRpEntity {
            id: rp_id.map(|s| s.to_string()),
            name: "Example".to_string(),
        },
        timeout: None,
        user: PublicKeyCredentialUserEntity {
            display_name: "Alice".to_string(),
            id: vec![1, 2, 3],
            name: "alice".to_string(),
        },
    }
}

fn assertion_options(rp_id: Option<&str>) -> PublicKeyCredentialRequestOptions {
    PublicKeyCredentialRequestOptions {
        allow_credentials: None,
        challenge: vec![7, 7],
        extensions: None,
        rp_id: rp_id.map(|s| s.to_string()),
        timeout: None,
        user_verification: None,
    }
}

fn attestation(raw_id: Vec<u8>) -> NativeAttestation {
    NativeAttestation {
        raw_id,
        client_data_json: b"{\"type\":\"webauthn.create\"}".to_vec(),
        attestation_object: vec![0xA3, 0x63, 0x66],
        transports: vec!["internal".to_string()],
        authenticator_attachment: Some("platform".to_string()),
    }
}

/// Stands for the native layer: it counts the ceremonies it is asked to start.
struct RecordingNativeLayer {
    starts: usize,
}

impl RecordingNativeLayer {
    fn start(&mut self, _request: &NativeCreationRequest) {
        self.starts += 1;
    }
}

fn run_creation(
    adapter: &Adapter,
    options: PublicKeyCredentialCreationOptions,
    native: &mut RecordingNativeLayer,
) -> Result<NativeCreationRequest, CeremonyError> {
    let request = build_creation_request(adapter, options, DEFAULT_CEILING_MS)?;
    native.start(&request);
    Ok(request)
}

#[test]
fn end_to_end_creation_yields_encoded_id() {
    let adapter = platform_adapter();
    let request =
        build_creation_request(&adapter, creation_options(Some("example.com")), DEFAULT_CEILING_MS)
            .unwrap();
    assert_eq!(request.relying_party_id.as_deref(), Some("example.com"));
    assert_eq!(request.challenge, vec![9, 9, 9]);
    assert_eq!(request.user_id, vec![1, 2, 3]);
    assert_eq!(request.user_name, "alice");
    assert_eq!(request.display_name.as_deref(), Some("Alice"));
    assert_eq!(request.credential_parameters[0].alg, -7);

    let mut slot = CompletionSlot::new();
    assert!(slot.fire(Ok(attestation(vec![0x12, 0x34]))));
    let credential = conclude_creation(&mut slot, false).unwrap().unwrap();
    assert_eq!(credential.id, "EjQ");
    assert_eq!(credential.raw_id, vec![0x12, 0x34]);
    assert_eq!(credential.type_, "public-key");
    assert_eq!(credential.authenticator_attachment.as_deref(), Some("platform"));
    assert_eq!(
        credential.response,
        AuthenticatorResponse::Attestation(AuthenticatorAttestationResponse {
            client_data_json: b"{\"type\":\"webauthn.create\"}".to_vec(),
            attestation_object: vec![0xA3, 0x63, 0x66],
            transports: vec!["internal".to_string()],
        })
    );
}

#[test]
fn outcome_id_decodes_to_raw_id() {
    let samples: Vec<Vec<u8>> = vec![
        vec![],
        vec![0xff],
        vec![0xfb, 0xff],
        vec![0x00, 0x10, 0x83],
        (0u8..16).map(|i| i.wrapping_mul(37)).collect(),
        (0u8..=255).collect(),
    ];
    for raw in samples {
        let credential = finish_creation(Completion::Delivered(Ok(attestation(raw.clone()))))
            .unwrap();
        assert!(!credential.id.contains('='));
        assert!(!credential.id.contains('+') && !credential.id.contains('/'));
        let decoded = base64::engine::general_purpose::URL_SAFE_NO_PAD
            .decode(credential.id.as_bytes())
            .unwrap();
        assert_eq!(decoded, raw);
        assert_eq!(credential.raw_id, raw);
    }
}

#[test]
fn assertion_outcome_id_decodes_to_raw_id() {
    let raw = vec![0x12, 0x34, 0x56, 0x78, 0x9A, 0xBC, 0xDE, 0xF0, 0x11, 0x22, 0x33];
    let mut slot = CompletionSlot::new();
    assert!(slot.fire(Ok(NativeAssertion {
        raw_id: raw.clone(),
        client_data_json: vec![1],
        authenticator_data: vec![0x49, 0x96, 0x0D, 0xE5],
        signature: vec![0x30, 0x45],
        user_handle: Some(vec![1, 2, 3]),
        authenticator_attachment: None,
    })));
    let credential = conclude_assertion(&mut slot, false).unwrap().unwrap();
    assert_eq!(credential.id, "EjRWeJq83vARIjM");
    let decoded =
        base64::engine::general_purpose::URL_SAFE_NO_PAD.decode(&credential.id).unwrap();
    assert_eq!(decoded, raw);
    match credential.response {
        AuthenticatorResponse::Assertion(r) => {
            assert_eq!(r.authenticator_data, vec![0x49, 0x96, 0x0D, 0xE5]);
            assert_eq!(r.signature, vec![0x30, 0x45]);
            assert_eq!(r.user_handle, Some(vec![1, 2, 3]));
            assert_eq!(r.client_data_json, vec![1]);
        }
        AuthenticatorResponse::Attestation(_) => panic!("assertion ceremony gave an attestation"),
    }
    assert_eq!(credential.type_, "public-key");
}

#[test]
fn missing_rp_id_is_invalid_and_starts_nothing() {
    let adapter = platform_adapter();
    let mut native = RecordingNativeLayer { starts: 0 };
    let r = run_creation(&adapter, creation_options(None), &mut native);
    assert_eq!(r, Err(CeremonyError::InvalidArgument(RequiredField::RelyingPartyId)));
    assert_eq!(native.starts, 0);

    let r = run_creation(&adapter, creation_options(Some("")), &mut native);
    assert_eq!(r, Err(CeremonyError::InvalidArgument(RequiredField::RelyingPartyId)));
    assert_eq!(native.starts, 0);

    assert!(run_creation(&adapter, creation_options(Some("example.com")), &mut native).is_ok());
    assert_eq!(native.starts, 1);
}

#[test]
fn missing_rp_id_on_assertion_is_invalid() {
    let r = build_assertion_request(&platform_adapter(), assertion_options(None), DEFAULT_CEILING_MS);
    assert_eq!(r, Err(CeremonyError::InvalidArgument(RequiredField::RelyingPartyId)));
}

#[test]
fn absent_rp_id_passes_where_not_required() {
    let adapter =
        Adapter::Platform(PlatformAdapter { provider_available: true, requires_rp_id: false });
    let request = build_creation_request(&adapter, creation_options(None), DEFAULT_CEILING_MS)
        .unwrap();
    assert_eq!(request.relying_party_id, None);
    let request =
        build_assertion_request(&adapter, assertion_options(None), DEFAULT_CEILING_MS).unwrap();
    assert_eq!(request.relying_party_id, None);
    assert_eq!(request.challenge, vec![7, 7]);
}

#[test]
fn empty_challenge_is_invalid() {
    let mut options = creation_options(Some("example.com"));
    options.challenge = vec![];
    let r = build_creation_request(&platform_adapter(), options, DEFAULT_CEILING_MS);
    assert_eq!(r, Err(CeremonyError::InvalidArgument(RequiredField::Challenge)));

    let mut options = assertion_options(Some("example.com"));
    options.challenge = vec![];
    let r = build_assertion_request(&platform_adapter(), options, DEFAULT_CEILING_MS);
    assert_eq!(r, Err(CeremonyError::InvalidArgument(RequiredField::Challenge)));
}

#[test]
fn no_capability_adapter_is_unsupported() {
    let adapter = select_adapter(&HostProbe { is_macos: false, os_major: 14, provider_present: true });
    assert_eq!(adapter, Adapter::NoCapability);
    for _ in 0..3 {
        assert!(!is_supported(&adapter));
    }
    let r = build_creation_request(&adapter, creation_options(Some("example.com")), DEFAULT_CEILING_MS);
    assert_eq!(r, Err(CeremonyError::Unsupported));
    let r = build_creation_request(&adapter, creation_options(None), DEFAULT_CEILING_MS);
    assert_eq!(r, Err(CeremonyError::Unsupported));
    let r = build_assertion_request(&adapter, assertion_options(Some("example.com")), DEFAULT_CEILING_MS);
    assert_eq!(r, Err(CeremonyError::Unsupported));
    assert!(!is_supported(&adapter));
}

#[test]
fn old_or_incomplete_macos_is_unavailable() {
    let old = select_adapter(&HostProbe { is_macos: true, os_major: 12, provider_present: true });
    assert_eq!(
        old,
        Adapter::Platform(PlatformAdapter { provider_available: false, requires_rp_id: true })
    );
    assert!(!is_supported(&old));
    let r = build_creation_request(&old, creation_options(Some("example.com")), DEFAULT_CEILING_MS);
    assert_eq!(r, Err(CeremonyError::Unavailable));

    let missing = select_adapter(&HostProbe { is_macos: true, os_major: 14, provider_present: false });
    assert!(!is_supported(&missing));
    let r = build_assertion_request(&missing, assertion_options(None), DEFAULT_CEILING_MS);
    assert_eq!(r, Err(CeremonyError::InvalidArgument(RequiredField::RelyingPartyId)));
    let r = build_assertion_request(&missing, assertion_options(Some("example.com")), DEFAULT_CEILING_MS);
    assert_eq!(r, Err(CeremonyError::Unavailable));

    let current = select_adapter(&HostProbe { is_macos: true, os_major: 13, provider_present: true });
    assert_eq!(current, platform_adapter());
    assert!(is_supported(&current));
}

#[test]
fn double_fire_keeps_first_value() {
    let mut slot = CompletionSlot::new();
    assert!(slot.fire(Ok(attestation(vec![1]))));
    assert!(!slot.fire(Ok(attestation(vec![2]))));
    assert!(!slot.fire(Err(NativeError { code: 1, message: "late".to_string() })));
    let credential = conclude_creation(&mut slot, false).unwrap().unwrap();
    assert_eq!(credential.raw_id, vec![1]);
    assert_eq!(credential.id, "AQ");
    assert!(conclude_creation(&mut slot, false).is_none());
    assert!(slot.take().is_none());
    assert!(!slot.fire(Ok(attestation(vec![3]))));
}

#[test]
fn unfired_slot_times_out_and_late_fire_is_dropped() {
    let mut slot: CompletionSlot<NativeAttestation> = CompletionSlot::new();
    let mut other: CompletionSlot<NativeAttestation> = CompletionSlot::new();
    assert!(conclude_creation(&mut slot, false).is_none());
    assert!(slot.is_pending());
    assert_eq!(conclude_creation(&mut slot, true), Some(Err(CeremonyError::Timeout)));
    assert!(!slot.fire(Ok(attestation(vec![9]))));
    assert!(conclude_creation(&mut slot, false).is_none());
    assert!(other.is_pending());
    assert!(other.fire(Ok(attestation(vec![4]))));
    let credential = conclude_creation(&mut other, false).unwrap().unwrap();
    assert_eq!(credential.raw_id, vec![4]);
}

#[test]
fn expiry_before_take_refuses_late_delivery() {
    let mut slot: CompletionSlot<NativeAttestation> = CompletionSlot::new();
    assert!(slot.expire());
    assert!(!slot.expire());
    assert!(!slot.fire(Ok(attestation(vec![9]))));
    assert_eq!(slot.take(), Some(Completion::TimedOut));
    assert_eq!(slot.take(), None);
}

#[test]
fn value_delivered_in_time_wins_over_ceiling() {
    let mut slot = CompletionSlot::new();
    assert!(slot.fire(Ok(attestation(vec![0x12, 0x34]))));
    let credential = conclude_creation(&mut slot, true).unwrap().unwrap();
    assert_eq!(credential.id, "EjQ");
}

#[test]
fn native_error_becomes_native_failure() {
    let mut slot: CompletionSlot<NativeAttestation> = CompletionSlot::new();
    assert!(slot.fire(Err(NativeError { code: 1001, message: "The operation was canceled.".to_string() })));
    assert_eq!(
        conclude_creation(&mut slot, false),
        Some(Err(CeremonyError::NativeFailure {
            code: 1001,
            message: "The operation was canceled.".to_string()
        }))
    );
    let mut slot: CompletionSlot<NativeAssertion> = CompletionSlot::new();
    assert!(slot.fire(Err(NativeError { code: -3, message: "denied".to_string() })));
    assert_eq!(
        conclude_assertion(&mut slot, false),
        Some(Err(CeremonyError::NativeFailure { code: -3, message: "denied".to_string() }))
    );
}

#[test]
fn timeout_is_the_smaller_ceiling() {
    assert_eq!(timeout_ceiling(None, 60_000), 60_000);
    assert_eq!(timeout_ceiling(Some(500), 60_000), 500);
    assert_eq!(timeout_ceiling(Some(90_000), 60_000), 60_000);
    assert_eq!(timeout_ceiling(Some(60_000), 60_000), 60_000);
    assert_eq!(timeout_ceiling(Some(0), 60_000), 0);
    assert_eq!(timeout_ceiling(Some(-5), 60_000), 0);
    assert_eq!(timeout_ceiling(Some(i32::MAX), u64::MAX), i32::MAX as u64);

    let mut options = creation_options(Some("example.com"));
    options.timeout = Some(1_500);
    let request = build_creation_request(&platform_adapter(), options, DEFAULT_CEILING_MS).unwrap();
    assert_eq!(request.timeout_ms, 1_500);
    let request =
        build_assertion_request(&platform_adapter(), assertion_options(Some("a.example")), 2_000)
            .unwrap();
    assert_eq!(request.timeout_ms, 2_000);
}

#[test]
fn user_verification_text_is_mapped() {
    assert_eq!(parse_preference(&"required".to_string()), UserVerificationPreference::Required);
    assert_eq!(
        parse_preference(&"discouraged".to_string()),
        UserVerificationPreference::Discouraged
    );
    assert_eq!(parse_preference(&"preferred".to_string()), UserVerificationPreference::Preferred);
    assert_eq!(parse_preference(&"Required".to_string()), UserVerificationPreference::Preferred);
    assert_eq!(parse_preference(&String::new()), UserVerificationPreference::Preferred);

    let mut options = creation_options(Some("example.com"));
    options.authenticator_selection = Some(AuthenticatorSelectionCriteria {
        authenticator_attachment: Some("platform".to_string()),
        require_resident_key: Some(true),
        resident_key: Some("required".to_string()),
        user_verification: Some("discouraged".to_string()),
    });
    let request = build_creation_request(&platform_adapter(), options, DEFAULT_CEILING_MS).unwrap();
    assert_eq!(request.user_verification, Some(UserVerificationPreference::Discouraged));
    assert_eq!(
        request.authenticator_selection.unwrap().resident_key.as_deref(),
        Some("required")
    );

    let mut options = assertion_options(Some("example.com"));
    options.user_verification = Some("required".to_string());
    let request = build_assertion_request(&platform_adapter(), options, DEFAULT_CEILING_MS).unwrap();
    assert_eq!(request.user_verification, Some(UserVerificationPreference::Required));
}

#[test]
fn empty_display_name_is_left_out() {
    let mut options = creation_options(Some("example.com"));
    options.user.display_name = String::new();
    let request = build_creation_request(&platform_adapter(), options, DEFAULT_CEILING_MS).unwrap();
    assert_eq!(request.display_name, None);
    assert_eq!(request.user_name, "alice");
}

#[test]
fn credential_lists_pass_through_unchanged() {
    let descriptor = PublicKeyCredentialDescriptor {
        id: vec![0xde, 0xad, 0xbe, 0xef],
        transports: Some(vec!["internal".to_string(), "hybrid".to_string()]),
        type_: "public-key".to_string(),
    };
    let mut options = creation_options(Some("example.com"));
    options.exclude_credentials = Some(vec![descriptor.clone()]);
    options.attestation = Some("direct".to_string());
    let request = build_creation_request(&platform_adapter(), options, DEFAULT_CEILING_MS).unwrap();
    assert_eq!(request.exclude_credentials, Some(vec![descriptor.clone()]));
    assert_eq!(request.attestation.as_deref(), Some("direct"));

    let mut options = assertion_options(Some("example.com"));
    options.allow_credentials = Some(vec![descriptor.clone(), descriptor.clone()]);
    let request = build_assertion_request(&platform_adapter(), options, DEFAULT_CEILING_MS).unwrap();
    assert_eq!(request.allow_credentials, Some(vec![descriptor.clone(), descriptor]));
}

#[test]
fn request_shape_is_checked_before_provider() {
    let old = select_adapter(&HostProbe { is_macos: true, os_major: 12, provider_present: false });
    let mut native = RecordingNativeLayer { starts: 0 };
    let r = run_creation(&old, creation_options(None), &mut native);
    assert_eq!(r, Err(CeremonyError::InvalidArgument(RequiredField::RelyingPartyId)));
    let r = build_assertion_request(&old, assertion_options(None), DEFAULT_CEILING_MS);
    assert_eq!(r, Err(CeremonyError::InvalidArgument(RequiredField::RelyingPartyId)));

    let mut options = creation_options(Some("example.com"));
    options.challenge = vec![];
    let r = run_creation(&old, options, &mut native);
    assert_eq!(r, Err(CeremonyError::InvalidArgument(RequiredField::Challenge)));

    let r = run_creation(&old, creation_options(Some("example.com")), &mut native);
    assert_eq!(r, Err(CeremonyError::Unavailable));
    assert_eq!(native.starts, 0);
}
