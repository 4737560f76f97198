use eos_rs::callback::CallbackOnce;
use eos_rs::error::{result_with, EOS_SUCCESS};
use eos_rs::kinds::{eos_bool, EOS_FALSE, EOS_TRUE};
use eos_rs::lifecycle::{InitializeStep, Lifecycle, ShutdownStep};
use eos_rs::owned::{owned_from_call, OwnedObject};
use eos_rs::{
    ok, ContinuanceToken, EpicAccountId, Error, InitializeOptions, LoginStatus, NatType, PacketReliability,
    ProductUserId, RelayControl,
};
use eos_rs::ids::ConnectLoginCallbackInfo;

#[test]
fn ok_maps_result_codes() {
    assert!(ok(EOS_SUCCESS).is_ok());
    assert!(matches!(ok(13), Err(Error::Eos(13))));
    assert!(matches!(result_with(0, 7u32), Ok(7)));
    assert!(matches!(result_with(2, 7u32), Err(Error::Eos(2))));
}

#[test]
fn login_status_from_raw() {
    assert_eq!(LoginStatus::from_raw(0), LoginStatus::NotLoggedIn);
    assert_eq!(LoginStatus::from_raw(1), LoginStatus::UsingLocalProfile);
    assert_eq!(LoginStatus::from_raw(2), LoginStatus::LoggedIn);
    assert_eq!(LoginStatus::from_raw(7), LoginStatus::Other(7));
    assert_eq!(LoginStatus::from_raw(-1), LoginStatus::Other(-1));
}

#[test]
fn nat_type_from_raw() {
    assert_eq!(NatType::from_raw(0), NatType::Unknown);
    assert_eq!(NatType::from_raw(1), NatType::Open);
    assert_eq!(NatType::from_raw(2), NatType::Moderate);
    assert_eq!(NatType::from_raw(3), NatType::Strict);
    assert_eq!(NatType::from_raw(4), NatType::Other(4));
}

#[test]
fn relay_control_round_trips() {
    for v in [-3, 0, 1, 2, 3, 99] {
        assert_eq!(RelayControl::from_raw(v).to_raw(), v);
    }
    for r in [RelayControl::NoRelays, RelayControl::AllowRelays, RelayControl::ForceRelays, RelayControl::Other(5)] {
        assert_eq!(RelayControl::from_raw(r.to_raw()), r);
    }
    // A non-canonical value does not survive the round trip.
    assert_eq!(RelayControl::from_raw(RelayControl::Other(1).to_raw()), RelayControl::AllowRelays);
}

#[test]
fn packet_reliability_codes() {
    assert_eq!(PacketReliability::UnreliableUnordered.to_raw(), 0);
    assert_eq!(PacketReliability::ReliableUnordered.to_raw(), 1);
    assert_eq!(PacketReliability::ReliableOrdered.to_raw(), 2);
}

#[test]
fn eos_bool_codes() {
    assert_eq!(eos_bool(true), EOS_TRUE);
    assert_eq!(eos_bool(false), EOS_FALSE);
    assert_eq!(EOS_TRUE, 1);
}

#[test]
fn ids_keep_their_handles() {
    assert_eq!(EpicAccountId::from_raw(0x1234).raw(), 0x1234);
    assert_eq!(ProductUserId::from_raw(42).raw(), 42);
    assert_eq!(EpicAccountId::accept_parsed(9, true).unwrap().raw(), 9);
    assert!(matches!(EpicAccountId::accept_parsed(9, false), Err(Error::Null)));
    assert!(matches!(ProductUserId::accept_parsed(0, false), Err(Error::Null)));
    assert_eq!(ProductUserId::accept_parsed(5, true).unwrap().raw(), 5);
}

#[test]
fn id_text_from_buffer() {
    let mut buf = vec![0u8; eos_rs::ids::EPIC_ACCOUNT_ID_BUFFER_LEN];
    buf[..4].copy_from_slice(b"a1b2");
    assert_eq!(EpicAccountId::string_from_buffer(0, &buf).unwrap(), "a1b2");
    assert!(matches!(EpicAccountId::string_from_buffer(1, &buf), Err(Error::Eos(1))));
    assert_eq!(ProductUserId::string_from_buffer(0, &buf).unwrap(), "a1b2");
}

#[test]
fn continuance_token_from_callback() {
    let with = ConnectLoginCallbackInfo { result_code: 3, local_user_id: 0, continuance_token: 77 };
    assert_eq!(ContinuanceToken::from_login_callback(&with).unwrap().raw(), 77);
    let without = ConnectLoginCallbackInfo { result_code: 0, local_user_id: 5, continuance_token: 0 };
    assert!(ContinuanceToken::from_login_callback(&without).is_none());
}

#[test]
fn owned_objects() {
    assert!(matches!(OwnedObject::from_raw(0), Err(Error::Null)));
    let o = OwnedObject::from_raw(0x10).unwrap();
    assert_eq!(o.as_ptr(), 0x10);
    assert_eq!(o.into_raw(), 0x10);
    assert!(matches!(owned_from_call(4, 0x10), Err(Error::Eos(4))));
    assert!(matches!(owned_from_call(0, 0), Err(Error::Null)));
    assert_eq!(owned_from_call(0, 0x20).unwrap().into_raw(), 0x20);
}

fn opts(name: &str, version: &str) -> InitializeOptions {
    InitializeOptions { product_name: name.to_string(), product_version: version.to_string() }
}

#[test]
fn initialize_calls_sdk_until_success() {
    let mut life = Lifecycle::new();
    assert!(!life.is_initialized());
    match life.begin_initialize(&opts("game", "1.0")).unwrap() {
        InitializeStep::Call(req) => {
            assert_eq!(req.product_name, b"game\0".to_vec());
            assert_eq!(req.product_version, b"1.0\0".to_vec());
        }
        InitializeStep::AlreadyInitialized => panic!("fresh state must call the SDK"),
    }
    assert!(matches!(life.finish_initialize(5), Err(Error::Eos(5))));
    assert!(!life.is_initialized());
    assert!(life.finish_initialize(0).is_ok());
    assert!(life.is_initialized());
    // Once initialized, no further call, whatever the options.
    assert!(matches!(life.begin_initialize(&opts("a\0", "b")), Ok(InitializeStep::AlreadyInitialized)));
    assert!(matches!(life.finish_initialize(9), Err(Error::Eos(9))));
    assert!(life.is_initialized());
}

#[test]
fn initialize_rejects_nul_in_order() {
    let life = Lifecycle::new();
    match life.begin_initialize(&opts("ga\0me", "1\0")) {
        Err(Error::Nul(e)) => assert_eq!(e.bytes, b"ga\0me".to_vec()),
        _ => panic!("expected the product name's NUL"),
    }
    match life.begin_initialize(&opts("game", "1\0")) {
        Err(Error::Nul(e)) => assert_eq!(e.position, 1),
        _ => panic!("expected the version's NUL"),
    }
}

#[test]
fn shutdown_only_after_initialize() {
    let mut life = Lifecycle::new();
    assert_eq!(life.shutdown_step(), ShutdownStep::NothingToDo);
    life.finish_initialize(0).unwrap();
    assert_eq!(life.shutdown_step(), ShutdownStep::Call);
    assert!(life.finish_shutdown(0).is_ok());
    assert!(matches!(life.finish_shutdown(3), Err(Error::Eos(3))));
}

#[test]
fn callback_handed_out_once() {
    let mut slot = CallbackOnce::new(|x: u32| x + 1);
    assert!(slot.is_pending());
    let (f, outcome) = slot.complete(0, 41u32).unwrap();
    assert_eq!(f(outcome.unwrap()), 42);
    assert!(!slot.is_pending());
    assert!(slot.complete(0, 1u32).is_none());
    let mut failing = CallbackOnce::new(());
    match failing.complete(6, 0u8) {
        Some(((), Err(Error::Eos(6)))) => {}
        _ => panic!("expected the SDK's error"),
    }
}
