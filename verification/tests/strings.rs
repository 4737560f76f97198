use eos_rs::cstr::{bytes_until_nul, c_string, c_string_from_bytes, optional_c_string, text_end_of};
use eos_rs::socket::{make_optional_socket_id, make_socket_id, socket_name_from_raw, SocketId, SOCKET_NAME_SIZE};
use eos_rs::text::{optional_text, result_text, str_from_c_buffer, string_from_c_buffer, string_from_call};
use eos_rs::Error;

#[test]
fn c_string_appends_terminator() {
    assert_eq!(c_string("abc").unwrap(), vec![b'a', b'b', b'c', 0]);
    assert_eq!(c_string("").unwrap(), vec![0]);
    assert_eq!(c_string("é").unwrap(), vec![0xc3, 0xa9, 0]);
}

#[test]
fn c_string_rejects_interior_nul() {
    match c_string("ab\0cd\0") {
        Err(Error::Nul(e)) => {
            assert_eq!(e.position, 2);
            assert_eq!(e.bytes, b"ab\0cd\0".to_vec());
        }
        other => panic!("unexpected {:?}", other),
    }
    match c_string_from_bytes(&[0]) {
        Err(e) => assert_eq!(e.position, 0),
        Ok(_) => panic!("a lone NUL is no C string"),
    }
}

#[test]
fn optional_c_string_keeps_none() {
    assert_eq!(optional_c_string(None).unwrap(), None);
    assert_eq!(optional_c_string(Some("x")).unwrap(), Some(vec![b'x', 0]));
    assert!(matches!(optional_c_string(Some("\0")), Err(Error::Nul(_))));
}

#[test]
fn text_end_and_prefix() {
    assert_eq!(text_end_of(b"ab\0cd"), 2);
    assert_eq!(text_end_of(b"abc"), 3);
    assert_eq!(text_end_of(b""), 0);
    assert_eq!(bytes_until_nul(b"ab\0cd"), b"ab".to_vec());
    assert_eq!(bytes_until_nul(b"\0"), Vec::<u8>::new());
}

#[test]
fn c_string_round_trip() {
    for s in ["", "lobby", "héllo wörld", "0002abcdef"] {
        let c = c_string(s).unwrap();
        assert_eq!(string_from_c_buffer(&c), s);
        assert_eq!(str_from_c_buffer(&c).unwrap(), s);
    }
}

#[test]
fn lossy_decoding_replaces_invalid_bytes() {
    let s = string_from_c_buffer(&[b'a', 0xff, b'b', 0, b'z']);
    assert_eq!(s, "a\u{fffd}b");
    assert_ne!(s.as_bytes(), &[b'a', 0xff, b'b']);
    assert_eq!(str_from_c_buffer(&[b'a', 0xff, 0]), None);
}

#[test]
fn string_from_call_reports_sdk_error() {
    assert!(matches!(string_from_call(10, b"abc\0"), Err(Error::Eos(10))));
    assert_eq!(string_from_call(0, b"abc\0\0\0").unwrap(), "abc");
}

#[test]
fn optional_text_cases() {
    assert_eq!(optional_text(None), None);
    assert_eq!(optional_text(Some(b"jwt\0")), Some("jwt".to_string()));
    assert_eq!(optional_text(Some(&[0xc3, 0])), None);
}

#[test]
fn result_text_cases() {
    assert_eq!(result_text(None), "EOS_Unknown");
    assert_eq!(result_text(Some(&[0xfe, 0xfe, 0])), "EOS_InvalidUtf8");
    assert_eq!(result_text(Some(b"EOS_Success\0")), "EOS_Success");
}

#[test]
fn socket_id_layout() {
    let id = make_socket_id("GAME").unwrap();
    let field = id.name_field();
    assert_eq!(field.len(), SOCKET_NAME_SIZE);
    assert_eq!(&field[..5], b"GAME\0");
    assert!(field[5..].iter().all(|b| *b == 0));
    assert_eq!(id.api_version(), 1);
}

#[test]
fn socket_name_round_trip() {
    for name in ["GAME", "", "socket-ü", "abcdefghijklmnopqrstuvwxyz012345"] {
        let id = make_socket_id(name).unwrap();
        assert_eq!(socket_name_from_raw(&id), name);
    }
}

#[test]
fn socket_name_too_long_or_nul() {
    // 32 bytes fit (with the terminator, 33); 33 do not.
    assert!(make_socket_id("abcdefghijklmnopqrstuvwxyz0123456").is_err());
    assert!(matches!(
        make_socket_id("abcdefghijklmnopqrstuvwxyz0123456"),
        Err(Error::Null)
    ));
    assert!(matches!(make_socket_id("a\0b"), Err(Error::Nul(_))));
}

#[test]
fn optional_socket_ids() {
    assert!(make_optional_socket_id(None).unwrap().is_none());
    let id = make_optional_socket_id(Some("X")).unwrap().unwrap();
    assert_eq!(socket_name_from_raw(&id), "X");
}

#[test]
fn socket_id_from_sdk_field() {
    let mut field = [0u8; 33];
    field[..3].copy_from_slice(b"abc");
    let id = SocketId::from_field(1, &field).unwrap();
    assert_eq!(socket_name_from_raw(&id), "abc");
    assert!(SocketId::from_field(1, &field[..10]).is_none());
    let empty = SocketId::empty();
    assert_eq!(socket_name_from_raw(&empty), "");
}
