use houdini::vsock::{parse_vsock_path, vsock_uri, Socket, SocketError, VsockPathError};

#[test]
fn socket_arguments() {
    assert!(matches!(Socket::from_str("3:2375"), Ok(Socket::Vsock(3, 2375))));
    assert!(matches!(Socket::from_str("+3:+7"), Ok(Socket::Vsock(3, 7))));
    match Socket::from_str("/run/houdini.sock") {
        Ok(Socket::Unix(p)) => assert_eq!(p, "/run/houdini.sock"),
        _ => panic!("should be a unix socket"),
    }
    assert!(matches!(Socket::from_str("x:1"), Err(SocketError::BadCid)));
    assert!(matches!(Socket::from_str("1:"), Err(SocketError::BadPort)));
    assert!(matches!(Socket::from_str("4294967296:1"), Err(SocketError::BadCid)));
    assert!(matches!(Socket::from_str("4294967295:1"), Ok(Socket::Vsock(4294967295, 1))));
}

#[test]
fn vsock_uris() {
    // "3:2375" hex-encoded.
    assert_eq!(vsock_uri(3, 2375, "/ping"), "vsock://333a32333735:0/ping");
    assert_eq!(parse_vsock_path(Some("vsock"), Some("333a32333735")), Ok((3, 2375)));
    assert_eq!(parse_vsock_path(Some("vsock"), Some("333A32333735")), Ok((3, 2375)));
}

#[test]
fn vsock_path_errors() {
    assert_eq!(parse_vsock_path(Some("http"), Some("333a31")), Err(VsockPathError::Scheme));
    assert_eq!(parse_vsock_path(None, Some("333a31")), Err(VsockPathError::Scheme));
    assert_eq!(parse_vsock_path(Some("vsock"), None), Err(VsockPathError::NoHost));
    assert_eq!(parse_vsock_path(Some("vsock"), Some("333")), Err(VsockPathError::NotHex));
    assert_eq!(parse_vsock_path(Some("vsock"), Some("zz")), Err(VsockPathError::NotHex));
    assert_eq!(parse_vsock_path(Some("vsock"), Some("3333")), Err(VsockPathError::NoPort));
    assert_eq!(parse_vsock_path(Some("vsock"), Some("783a31")), Err(VsockPathError::Cid));
    assert_eq!(parse_vsock_path(Some("vsock"), Some("313a78")), Err(VsockPathError::Port));
    // Invalid UTF-8 becomes a replacement character, which is no number.
    assert_eq!(parse_vsock_path(Some("vsock"), Some("ff3a31")), Err(VsockPathError::Cid));
}
