use eos_rs::lobby::{EncodedValue, SearchParameterRequest, SearchValue};
use eos_rs::login::{
    AuthLoginRequest, ConnectLoginRequest, EXTERNAL_CREDENTIAL_EPIC, EXTERNAL_CREDENTIAL_OPENID_ACCESS_TOKEN,
    LOGIN_CREDENTIAL_EXCHANGE_CODE,
};
use eos_rs::handles::{Auth, Lobby, Platform, P2P, UserInfo};
use eos_rs::lobby::{CreateLobbyParams, LOBBY_PERMISSION_INVITE_ONLY, LOBBY_PERMISSION_PUBLIC_ADVERTISED};
use eos_rs::p2p::{
    nat_type_from_call, receive_buffer, requested_channel_arg, ReceivedPacket, SendPacketRequest,
};
use eos_rs::platform::PlatformOptions;
use eos_rs::socket::make_socket_id;
use eos_rs::{Error, NatType, PacketReliability, ProductUserId};

#[test]
fn platform_from_created_handle() {
    assert!(matches!(Platform::from_created(0), Err(Error::Null)));
    assert_eq!(Platform::from_created(0xabc).unwrap().raw_handle(), 0xabc);
}

#[test]
fn interface_handles() {
    assert!(Auth::from_raw_handle(0).is_none());
    assert_eq!(Auth::from_raw_handle(8).unwrap().raw_handle(), 8);
    assert_eq!(Lobby::from_raw_handle(16).unwrap().raw_handle(), 16);
    assert_eq!(P2P::from_raw_handle(24).unwrap().raw_handle(), 24);
    assert!(UserInfo::from_raw_handle(0).is_none());
}

fn platform_options() -> PlatformOptions {
    PlatformOptions {
        product_id: "product".to_string(),
        sandbox_id: "sandbox".to_string(),
        deployment_id: "deployment".to_string(),
        client_id: "client".to_string(),
        client_secret: "secret".to_string(),
        is_server: true,
        encryption_key: None,
        override_country_code: Some("DE".to_string()),
        override_locale_code: None,
    }
}

#[test]
fn platform_options_to_raw() {
    let raw = platform_options().to_raw().unwrap();
    assert_eq!(raw.product_id, b"product\0".to_vec());
    assert_eq!(raw.client_secret, b"secret\0".to_vec());
    assert_eq!(raw.is_server, 1);
    assert_eq!(raw.encryption_key, None);
    assert_eq!(raw.override_country_code, Some(b"DE\0".to_vec()));
    assert_eq!(raw.override_locale_code, None);
    let mut client = platform_options();
    client.is_server = false;
    assert_eq!(client.to_raw().unwrap().is_server, 0);
}

#[test]
fn platform_options_first_nul_wins() {
    let mut o = platform_options();
    o.client_id = "c\0".to_string();
    o.override_locale_code = Some("\0".to_string());
    match o.to_raw() {
        Err(Error::Nul(e)) => assert_eq!(e.bytes, b"c\0".to_vec()),
        _ => panic!("expected the client id's NUL"),
    }
    let mut o = platform_options();
    o.encryption_key = Some("k\0ey".to_string());
    match o.to_raw() {
        Err(Error::Nul(e)) => {
            assert_eq!(e.position, 1);
            assert_eq!(e.bytes, b"k\0ey".to_vec());
        }
        _ => panic!("expected the encryption key's NUL"),
    }
}

#[test]
fn create_lobby_params_default() {
    let p = CreateLobbyParams::default();
    assert_eq!(p.max_lobby_members, 8);
    assert_eq!(p.permission_level, LOBBY_PERMISSION_PUBLIC_ADVERTISED);
    assert!(p.presence_enabled);
    assert!(p.allow_invites);
    assert_eq!(p.bucket_id, "default");
    assert!(!p.disable_host_migration);
    assert!(!p.enable_rtc_room);
    assert!(!p.enable_join_by_id);
    assert!(!p.rejoin_after_kick_requires_invite);
}

#[test]
fn create_lobby_options() {
    let mut p = CreateLobbyParams::default();
    p.permission_level = LOBBY_PERMISSION_INVITE_ONLY;
    p.enable_rtc_room = true;
    let o = p.to_options(ProductUserId::from_raw(77)).unwrap();
    assert_eq!(o.local_user_id, 77);
    assert_eq!(o.max_lobby_members, 8);
    assert_eq!(o.permission_level, 2);
    assert_eq!(o.presence_enabled, 1);
    assert_eq!(o.allow_invites, 1);
    assert_eq!(o.bucket_id, b"default\0".to_vec());
    assert_eq!(o.disable_host_migration, 0);
    assert_eq!(o.enable_rtc_room, 1);
    assert_eq!(o.enable_join_by_id, 0);
    assert_eq!(o.rejoin_after_kick_requires_invite, 0);
    p.bucket_id = "b\0".to_string();
    assert!(matches!(p.to_options(ProductUserId::from_raw(77)), Err(Error::Nul(_))));
}

#[test]
fn nat_type_outcomes() {
    assert_eq!(nat_type_from_call(0, 3).unwrap(), NatType::Strict);
    assert!(matches!(nat_type_from_call(12, 3), Err(Error::Eos(12))));
}

#[test]
fn requested_channel() {
    assert_eq!(requested_channel_arg(None), (0, false));
    assert_eq!(requested_channel_arg(Some(3)), (3, true));
    assert_eq!(requested_channel_arg(Some(0)), (0, true));
}

#[test]
fn received_packet_is_truncated() {
    let socket = make_socket_id("chat").unwrap();
    let buf = receive_buffer(8);
    assert_eq!(buf, vec![0u8; 8]);
    let data = vec![1, 2, 3, 4, 5, 6, 7, 8];
    let p = ReceivedPacket::from_call(0, 99, &socket, 4, data.clone(), 3).unwrap();
    assert_eq!(p.data, vec![1, 2, 3]);
    assert_eq!(p.peer_id.raw(), 99);
    assert_eq!(p.socket_name, "chat");
    assert_eq!(p.channel, 4);
    let whole = ReceivedPacket::from_call(0, 99, &socket, 4, data.clone(), 20).unwrap();
    assert_eq!(whole.data, data);
    assert!(matches!(ReceivedPacket::from_call(7, 99, &socket, 4, data, 3), Err(Error::Eos(7))));
}

#[test]
fn send_packet_request() {
    let payload = [9u8; 10];
    let q = SendPacketRequest::new(
        ProductUserId::from_raw(1),
        ProductUserId::from_raw(2),
        "game",
        5,
        &payload,
        PacketReliability::ReliableOrdered,
        true,
        false,
    )
    .unwrap();
    assert_eq!(q.local_user_id, 1);
    assert_eq!(q.remote_user_id, 2);
    assert_eq!(q.channel, 5);
    assert_eq!(q.data_length, 10);
    assert_eq!(q.reliability, 2);
    assert_eq!(q.allow_delayed_delivery, 1);
    assert_eq!(q.disable_auto_accept_connection, 0);
    assert_eq!(&q.socket.name_field()[..5], b"game\0");
    assert!(SendPacketRequest::new(
        ProductUserId::from_raw(1),
        ProductUserId::from_raw(2),
        "x\0",
        0,
        &payload,
        PacketReliability::UnreliableUnordered,
        false,
        false,
    )
    .is_err());
}

#[test]
fn create_lobby_fixed_fields() {
    let o = CreateLobbyParams::default().to_options(ProductUserId::from_raw(3)).unwrap();
    assert!(o.lobby_id.is_none());
    assert_eq!(o.local_rtc_options, 0);
    assert!(o.allowed_platform_ids.is_empty());
    assert_eq!(o.crossplay_opt_out, 0);
    assert_eq!(o.rtc_room_join_action_type, eos_rs::lobby::RTC_ROOM_JOIN_ACTION_AUTOMATIC_JOIN);
}

#[test]
fn join_lobby_request() {
    let details = eos_rs::owned::OwnedObject::from_raw(0x55).unwrap();
    let q = eos_rs::lobby::JoinLobbyRequest::new(&details, ProductUserId::from_raw(4), true);
    assert_eq!(q.lobby_details_handle, 0x55);
    assert_eq!(q.local_user_id, 4);
    assert_eq!(q.presence_enabled, 1);
    assert_eq!(q.local_rtc_options, 0);
    assert_eq!(q.crossplay_opt_out, 0);
    assert_eq!(q.rtc_room_join_action_type, 0);
    assert_eq!(details.as_ptr(), 0x55);
    let off = eos_rs::lobby::JoinLobbyRequest::new(&details, ProductUserId::from_raw(4), false);
    assert_eq!(off.presence_enabled, 0);
}

#[test]
fn search_parameter_request() {
    let q = SearchParameterRequest::new("mode", &SearchValue::String("ctf".to_string()), 3).unwrap();
    assert_eq!(q.key, b"mode\0".to_vec());
    assert_eq!(q.value_type, 3);
    assert!(matches!(&q.value, EncodedValue::AsUtf8(t) if t == b"ctf\0"));
    assert_eq!(q.comparison_op, 3);
    let b = SearchParameterRequest::new("ranked", &SearchValue::Bool(true), 0).unwrap();
    assert_eq!(b.value_type, 0);
    assert!(matches!(b.value, EncodedValue::AsBool(1)));
    let f = SearchParameterRequest::new("ranked", &SearchValue::Bool(false), 0).unwrap();
    assert!(matches!(f.value, EncodedValue::AsBool(0)));
    let n = SearchParameterRequest::new("n", &SearchValue::Int64(-7), 0).unwrap();
    assert_eq!(n.value_type, 1);
    assert!(matches!(n.value, EncodedValue::AsInt64(-7)));
    let d = SearchParameterRequest::float("x", 2).unwrap();
    assert_eq!(d.value_type, 2);
    assert!(matches!(d.value, EncodedValue::AsDouble));
    assert!(matches!(SearchParameterRequest::new("k\0", &SearchValue::Bool(true), 0), Err(Error::Nul(_))));
    assert!(matches!(SearchParameterRequest::float("k\0", 0), Err(Error::Nul(_))));
    match SearchParameterRequest::new("k", &SearchValue::String("a\0".to_string()), 0) {
        Err(Error::Nul(e)) => assert_eq!(e.bytes, b"a\0".to_vec()),
        _ => panic!("expected the string value's NUL"),
    }
}

#[test]
fn platform_fixed_fields() {
    let raw = platform_options().to_raw().unwrap();
    assert_eq!(raw.flags, 0);
    assert!(raw.cache_directory.is_none());
    assert_eq!(raw.tick_budget_in_milliseconds, 0);
    assert_eq!(raw.rtc_options, 0);
    assert_eq!(raw.integrated_platform_options_container, 0);
    assert_eq!(raw.system_specific_options, 0);
    assert_eq!(raw.task_network_timeout_seconds, 0);
}

#[test]
fn auth_exchange_code_request() {
    let q = AuthLoginRequest::exchange_code("abc").unwrap();
    assert!(q.id.is_none());
    assert_eq!(q.token, b"abc\0".to_vec());
    assert_eq!(q.credential_type, LOGIN_CREDENTIAL_EXCHANGE_CODE);
    assert_eq!(q.system_auth_credentials_options, 0);
    assert_eq!(q.external_type, EXTERNAL_CREDENTIAL_EPIC);
    assert_eq!(q.scope_flags, 0);
    assert_eq!(q.login_flags, 0);
    assert!(matches!(AuthLoginRequest::exchange_code("a\0"), Err(Error::Nul(_))));
}

#[test]
fn connect_openid_request() {
    let q = ConnectLoginRequest::openid_access_token("tok", Some("Ann")).unwrap();
    assert_eq!(q.token, b"tok\0".to_vec());
    assert_eq!(q.credential_type, EXTERNAL_CREDENTIAL_OPENID_ACCESS_TOKEN);
    let u = q.user_login_info.unwrap();
    assert_eq!(u.display_name, b"Ann\0".to_vec());
    assert!(u.nsa_id_token.is_none());
    assert!(ConnectLoginRequest::openid_access_token("tok", None).unwrap().user_login_info.is_none());
    match ConnectLoginRequest::openid_access_token("tok", Some("A\0")) {
        Err(Error::Nul(e)) => assert_eq!(e.bytes, b"A\0".to_vec()),
        _ => panic!("expected the display name's NUL"),
    }
    match ConnectLoginRequest::openid_access_token("t\0", Some("A\0")) {
        Err(Error::Nul(e)) => assert_eq!(e.bytes, b"t\0".to_vec()),
        _ => panic!("expected the token's NUL"),
    }
}
