use quic_h3_emscripten::adapter::{
    accept_server_certificate, alpn_protocols, alpn_text, certificate_policy, CertificatePolicy,
    EmscriptenUdp, RecvMeta, STRICT_VERIFY,
};
use quic_h3_emscripten::address::SocketAddress;
use quic_h3_emscripten::io::{ErrorSource, IoError, IoErrorKind, Poll, Ready};
use quic_h3_emscripten::udp::UdpSocket;

fn peer() -> SocketAddress {
    SocketAddress::V6 { ip6: 1, port: 443, flowinfo: 0, scope_id: 0 }
}

fn sock(fd: i32) -> UdpSocket {
    UdpSocket::from_std(fd, |_fd: i32| Ok(())).unwrap()
}

fn meta0() -> RecvMeta {
    RecvMeta { addr: SocketAddress::V4 { ip4: 0, port: 0 }, len: 0, stride: 0 }
}

#[test]
fn no_buffers_receive_nothing() {
    let mut u = EmscriptenUdp::new(sock(4));
    let mut bufs: Vec<Vec<u8>> = Vec::new();
    let mut meta: Vec<RecvMeta> = Vec::new();
    let r = u.poll_recv(&mut bufs, &mut meta, |_room: usize| -> Result<(Vec<u8>, SocketAddress), IoError> { panic!("no receive without buffers") });
    assert!(matches!(r, Poll::Ready(Ok(0))));
}

#[test]
fn one_datagram_fills_first_buffer_and_meta() {
    let mut u = EmscriptenUdp::new(sock(4));
    u.socket_mut().set_readiness(Ready { readable: true, ..Ready::empty() });
    let mut bufs = vec![vec![0u8; 8], vec![5u8; 2]];
    let mut meta = vec![meta0(), meta0()];
    let r = u.poll_recv(&mut bufs, &mut meta, |room: usize| {
        assert_eq!(room, 8);
        Ok((b"quic".to_vec(), peer()))
    });
    assert!(matches!(r, Poll::Ready(Ok(1))));
    assert_eq!(bufs[0], vec![b'q', b'u', b'i', b'c', 0, 0, 0, 0]);
    assert_eq!(bufs[1], vec![5u8; 2]);
    assert_eq!(meta[0], RecvMeta { addr: peer(), len: 4, stride: 4 });
    assert_eq!(meta[1], meta0());
}

#[test]
fn receive_waits_for_readiness() {
    let mut u = EmscriptenUdp::new(sock(4));
    let mut bufs = vec![vec![0u8; 8]];
    let mut meta = vec![meta0()];
    let r = u.poll_recv(&mut bufs, &mut meta, |_room: usize| Ok((b"x".to_vec(), peer())));
    assert!(matches!(r, Poll::Pending));
    assert_eq!(meta[0], meta0());
}

#[test]
fn receive_error_passes_through() {
    let mut u = EmscriptenUdp::new(sock(4));
    u.socket_mut().set_readiness(Ready { readable: true, ..Ready::empty() });
    let mut bufs = vec![vec![0u8; 8]];
    let mut meta = vec![meta0()];
    let e = IoError { kind: IoErrorKind::ConnectionReset, source: ErrorSource::Os { code: 104 } };
    let r = u.poll_recv(&mut bufs, &mut meta, |_room: usize| Err(e));
    assert!(matches!(r, Poll::Ready(Err(x)) if x == e));
}

#[test]
fn send_is_one_datagram() {
    let mut u = EmscriptenUdp::new(sock(4));
    assert_eq!(u.try_send(b"abc", peer(), |b: &[u8], _to: SocketAddress| Ok(b.len())), Err(IoError::would_block()));
    u.socket_mut().set_readiness(Ready { writable: true, ..Ready::empty() });
    assert_eq!(u.try_send(b"abc", peer(), |b: &[u8], _to: SocketAddress| Ok(b.len())), Ok(()));
    assert!(matches!(u.poll_writable(), Poll::Ready(Ok(()))));
    assert_eq!(u.max_transmit_segments(), 1);
    assert_eq!(u.max_receive_segments(), 1);
    assert!(!u.may_fragment());
    assert_eq!(u.local_addr(|fd: i32| Ok(SocketAddress::V4 { ip4: 0, port: fd as u16 })), Ok(SocketAddress::V4 { ip4: 0, port: 4 }));
}

#[test]
fn tls_settings() {
    assert_eq!(alpn_protocols(), vec![b"h3".to_vec()]);
    assert!(!STRICT_VERIFY);
    assert_eq!(certificate_policy(STRICT_VERIFY), CertificatePolicy::AcceptChainCheckSignature);
    assert_eq!(certificate_policy(true), CertificatePolicy::TrustAnchors);
    assert!(accept_server_certificate(1400, 2));
}

#[test]
fn alpn_text_decodes_protocol() {
    assert_eq!(alpn_text(Some(b"h3")), "h3");
    assert_eq!(alpn_text(Some(b"h\xff")), "h\u{fffd}");
    assert_eq!(alpn_text(None), "");
}
