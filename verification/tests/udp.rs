use quic_h3_emscripten::address::SocketAddress;
use quic_h3_emscripten::io::{ErrorSource, Interest, IoError, IoErrorKind, Poll, ReadBuf, Ready};
use quic_h3_emscripten::udp::{send_to_target, UdpSocket};
use std::cell::Cell;

fn peer() -> SocketAddress {
    SocketAddress::V4 { ip4: 0x6812_1a0e, port: 443 }
}

fn os_err(code: i32) -> IoError {
    IoError { kind: IoErrorKind::ConnectionRefused, source: ErrorSource::Os { code } }
}

fn writable() -> Ready {
    Ready { writable: true, ..Ready::empty() }
}

fn readable() -> Ready {
    Ready { readable: true, ..Ready::empty() }
}

fn sock(fd: i32) -> UdpSocket {
    UdpSocket::from_std(fd, |_fd: i32| Ok(())).unwrap()
}

#[test]
fn try_send_without_readiness_would_block_without_sending() {
    let mut s = sock(7);
    let called = Cell::new(false);
    let r = s.try_send(b"x", |_b: &[u8]| {
        called.set(true);
        Ok(1)
    });
    assert_eq!(r, Err(IoError::would_block()));
    assert!(!called.get());
}

#[test]
fn try_send_when_writable_sends() {
    let mut s = sock(7);
    s.set_readiness(writable());
    let r = s.try_send(b"hello", |b: &[u8]| Ok(b.len()));
    assert_eq!(r, Ok(5));
    assert_eq!(s.ready_event(Interest::writable()), writable());
}

#[test]
fn would_block_consumes_readiness() {
    let mut s = sock(7);
    s.set_readiness(writable());
    let os_would_block = IoError { kind: IoErrorKind::WouldBlock, source: ErrorSource::Os { code: 11 } };
    let r = s.try_send(b"hello", |_b: &[u8]| Err(os_would_block));
    assert_eq!(r, Err(IoError::would_block()));
    assert!(s.ready_event(Interest::writable()).is_empty());
    let called = Cell::new(false);
    let r2 = s.try_send(b"hello", |_b: &[u8]| {
        called.set(true);
        Ok(5)
    });
    assert_eq!(r2, Err(IoError::would_block()));
    assert!(!called.get());
}

#[test]
fn closed_direction_is_never_consumed() {
    let mut s = sock(7);
    s.set_readiness(Ready { writable: true, write_closed: true, ..Ready::empty() });
    let r = s.try_send(b"x", |_b: &[u8]| Err(IoError::would_block()));
    assert_eq!(r, Err(IoError::would_block()));
    assert_eq!(s.ready_event(Interest::writable()), Ready { write_closed: true, ..Ready::empty() });
}

#[test]
fn consuming_write_readiness_keeps_read_readiness() {
    let mut s = sock(7);
    s.set_readiness(writable().or(&readable()));
    let _ = s.try_send(b"x", |_b: &[u8]| Err(IoError::would_block()));
    assert_eq!(s.ready_event(Interest::readable()), readable());
}

#[test]
fn other_errors_pass_through_and_keep_readiness() {
    let mut s = sock(7);
    s.set_readiness(writable());
    let r = s.try_send(b"x", |_b: &[u8]| Err(os_err(111)));
    assert_eq!(r, Err(os_err(111)));
    assert_eq!(s.ready_event(Interest::writable()), writable());
}

#[test]
fn try_io_runs_only_when_ready() {
    let mut s = sock(3);
    assert_eq!(s.try_io(Interest::readable(), || Ok::<u8, IoError>(9)), Err(IoError::would_block()));
    s.set_readiness(readable());
    assert_eq!(s.try_io(Interest::readable(), || Ok::<u8, IoError>(9)), Ok(9));
    assert_eq!(s.try_io(Interest::writable(), || Ok::<u8, IoError>(9)), Err(IoError::would_block()));
}

#[test]
fn try_recv_copies_the_datagram() {
    let mut s = sock(3);
    s.set_readiness(readable());
    let mut buf = vec![0u8; 4];
    let r = s.try_recv(&mut buf, |room: usize| {
        assert_eq!(room, 4);
        Ok(b"ab".to_vec())
    });
    assert_eq!(r, Ok(2));
    assert_eq!(buf, vec![b'a', b'b', 0, 0]);
}

#[test]
fn try_recv_from_gives_sender() {
    let mut s = sock(3);
    s.set_readiness(readable());
    let mut buf = vec![9u8; 3];
    let r = s.try_recv_from(&mut buf, |_room: usize| Ok((b"xyz".to_vec(), peer())));
    assert_eq!(r, Ok((3, peer())));
    assert_eq!(buf, b"xyz".to_vec());
}

#[test]
fn try_send_to_passes_target() {
    let mut s = sock(3);
    s.set_readiness(writable());
    let r = s.try_send_to(b"abc", peer(), |b: &[u8], to: SocketAddress| {
        assert_eq!(to, peer());
        Ok(b.len())
    });
    assert_eq!(r, Ok(3));
}

#[test]
fn poll_send_pending_until_writable() {
    let mut s = sock(3);
    assert!(matches!(s.poll_send(b"a", |b: &[u8]| Ok(b.len())), Poll::Pending));
    s.set_readiness(writable());
    assert!(matches!(s.poll_send(b"ab", |b: &[u8]| Ok(b.len())), Poll::Ready(Ok(2))));
    assert!(matches!(s.poll_send(b"ab", |_b: &[u8]| Err(IoError::would_block())), Poll::Pending));
    assert!(matches!(s.poll_send(b"ab", |b: &[u8]| Ok(b.len())), Poll::Pending));
}

#[test]
fn poll_send_to_reports_errors() {
    let mut s = sock(3);
    s.set_readiness(writable());
    let r = s.poll_send_to(b"a", peer(), |_b: &[u8], _t: SocketAddress| Err(os_err(1)));
    assert!(matches!(r, Poll::Ready(Err(e)) if e == os_err(1)));
}

#[test]
fn shutdown_fails_polls() {
    let mut s = sock(3);
    s.set_readiness(writable());
    s.set_shutdown();
    assert!(matches!(s.poll_send_ready(), Poll::Ready(Err(e)) if e == IoError::gone()));
    assert!(matches!(s.poll_send(b"a", |b: &[u8]| Ok(b.len())), Poll::Ready(Err(e)) if e == IoError::gone()));
    assert_eq!(IoError::gone().source, ErrorSource::RuntimeShuttingDown);
}

#[test]
fn readiness_polls() {
    let mut s = sock(3);
    assert!(matches!(s.poll_recv_ready(), Poll::Pending));
    assert!(matches!(s.poll_send_ready(), Poll::Pending));
    s.set_readiness(readable());
    assert!(matches!(s.poll_recv_ready(), Poll::Ready(Ok(()))));
    assert!(matches!(s.poll_send_ready(), Poll::Pending));
    assert!(matches!(s.readable(), Poll::Ready(Ok(()))));
    assert!(matches!(s.writable(), Poll::Pending));
    assert!(matches!(s.ready(Interest::readable()), Poll::Ready(Ok(r)) if r == readable()));
}

#[test]
fn poll_recv_fills_read_buf() {
    let mut s = sock(3);
    s.set_readiness(readable());
    let mut rb = ReadBuf::new(vec![7u8; 6]);
    let r = s.poll_recv(&mut rb, |room: usize| {
        assert_eq!(room, 6);
        Ok(b"abc".to_vec())
    });
    assert!(matches!(r, Poll::Ready(Ok(()))));
    assert_eq!(rb.filled(), b"abc");
    assert_eq!(rb.into_inner(), vec![b'a', b'b', b'c', 7, 7, 7]);
}

#[test]
fn poll_recv_from_gives_sender_and_truncates() {
    let mut s = sock(3);
    s.set_readiness(readable());
    let mut rb = ReadBuf::new(vec![0u8; 2]);
    let r = s.poll_recv_from(&mut rb, |_room: usize| Ok((b"abcd".to_vec(), peer())));
    assert!(matches!(r, Poll::Ready(Ok(a)) if a == peer()));
    assert_eq!(rb.filled(), b"ab");
}

#[test]
fn poll_recv_would_block_is_pending() {
    let mut s = sock(3);
    s.set_readiness(readable());
    let mut rb = ReadBuf::new(vec![0u8; 2]);
    let r = s.poll_recv(&mut rb, |_room: usize| Err(IoError::would_block()));
    assert!(matches!(r, Poll::Pending));
    assert!(s.ready_event(Interest::readable()).is_empty());
    assert_eq!(rb.filled(), b"");
}

#[test]
fn read_buf_initializes_and_advances() {
    let mut rb = ReadBuf::new(vec![1u8, 2, 3]);
    assert_eq!(rb.capacity(), 3);
    assert_eq!(rb.remaining(), 3);
    rb.write_unfilled(b"xy");
    rb.advance(2);
    assert_eq!(rb.filled(), b"xy");
    assert_eq!(rb.remaining(), 1);
    rb.initialize_unfilled();
    assert_eq!(rb.into_inner(), vec![b'x', b'y', 3]);
}

#[test]
fn bind_takes_first_success() {
    let addrs = vec![peer(), SocketAddress::V4 { ip4: 1, port: 2 }, SocketAddress::V4 { ip4: 3, port: 4 }];
    let s = UdpSocket::bind(&addrs, |a: SocketAddress| if a == peer() { Err(os_err(98)) } else { Ok(a.port() as i32 * 10) }, |_fd: i32| Ok(())).unwrap();
    assert_eq!(s.as_raw_fd(), 20);
    assert!(s.ready_event(Interest::readable()).is_empty());
}

#[test]
fn bind_reports_last_error() {
    let addrs = vec![peer(), SocketAddress::V4 { ip4: 1, port: 2 }];
    let r = UdpSocket::bind(&addrs, |a: SocketAddress| Err(os_err(a.port() as i32)), |_fd: i32| Ok(()));
    assert_eq!(r.err(), Some(os_err(2)));
}

#[test]
fn from_std_returns_the_registration_error() {
    let seen = Cell::new(0);
    let r = UdpSocket::from_std(9, |fd: i32| {
        seen.set(fd);
        Err(os_err(22))
    });
    assert_eq!(r.err(), Some(os_err(22)));
    assert_eq!(seen.get(), 9);
    let s = UdpSocket::from_std(9, |_fd: i32| Ok(())).unwrap();
    assert_eq!(s.as_raw_fd(), 9);
    assert!(s.ready_event(Interest::readable()).is_empty());
}

#[test]
fn bind_stops_at_a_registration_failure() {
    let addrs = vec![SocketAddress::V4 { ip4: 1, port: 2 }, SocketAddress::V4 { ip4: 3, port: 4 }];
    let tried = Cell::new(0);
    let r = UdpSocket::bind(
        &addrs,
        |a: SocketAddress| {
            tried.set(tried.get() + 1);
            Ok(a.port() as i32)
        },
        |fd: i32| Err(os_err(fd + 100)),
    );
    assert_eq!(r.err(), Some(os_err(102)));
    assert_eq!(tried.get(), 1);
}

#[test]
fn bind_without_addresses_is_invalid_input() {
    let r = UdpSocket::bind(&[], |_a: SocketAddress| Ok(1), |_fd: i32| Ok(()));
    assert_eq!(r.err(), Some(IoError { kind: IoErrorKind::InvalidInput, source: ErrorSource::NoAddressesToBind }));
}

#[test]
fn connect_tries_in_order() {
    let s = sock(5);
    let addrs = vec![SocketAddress::V4 { ip4: 1, port: 1 }, peer()];
    assert_eq!(s.connect(&addrs, |fd: i32, a: SocketAddress| if fd == 5 && a == peer() { Ok(()) } else { Err(os_err(111)) }), Ok(()));
    assert_eq!(s.connect(&addrs, |_fd: i32, a: SocketAddress| Err(os_err(a.port() as i32))), Err(os_err(443)));
    assert_eq!(s.connect(&[], |_fd: i32, _a: SocketAddress| Ok(())), Err(IoError { kind: IoErrorKind::InvalidInput, source: ErrorSource::NoAddressesToConnect }));
}

#[test]
fn send_to_target_is_first_address() {
    assert_eq!(send_to_target(&[peer(), SocketAddress::V4 { ip4: 1, port: 1 }]), Ok(peer()));
    assert_eq!(send_to_target(&[]), Err(IoError { kind: IoErrorKind::InvalidInput, source: ErrorSource::NoAddresses }));
}

#[test]
fn descriptor_queries_use_the_descriptor() {
    let s = sock(42);
    assert_eq!(s.take_error(|fd: i32| Ok(if fd == 42 { None } else { Some(os_err(fd)) })), Ok(None));
    assert_eq!(s.local_addr(|fd: i32| Ok(SocketAddress::V4 { ip4: 0, port: fd as u16 })), Ok(SocketAddress::V4 { ip4: 0, port: 42 }));
    assert_eq!(s.peer_addr(|_fd: i32| Err(os_err(107))), Err(os_err(107)));
    assert_eq!(s.into_std(), 42);
}

#[test]
fn async_io_step() {
    let mut s = sock(1);
    assert!(matches!(s.async_io(Interest::writable(), || Ok::<u8, IoError>(1)), Poll::Pending));
    s.set_readiness(writable());
    assert!(matches!(s.async_io(Interest::writable(), || Ok::<u8, IoError>(1)), Poll::Ready(Ok(1))));
}

#[test]
fn send_step_waits_then_sends() {
    let mut s = sock(2);
    assert!(matches!(s.send(b"abc", |b: &[u8]| Ok(b.len())), Poll::Pending));
    s.set_readiness(writable());
    assert!(matches!(s.send(b"abc", |b: &[u8]| Ok(b.len())), Poll::Ready(Ok(3))));
}

#[test]
fn send_to_uses_first_target_or_fails_without_one() {
    let mut s = sock(2);
    s.set_readiness(writable());
    let other = SocketAddress::V4 { ip4: 9, port: 9 };
    let r = s.send_to(b"ab", &[peer(), other], |b: &[u8], to: SocketAddress| if to == peer() { Ok(b.len()) } else { Err(os_err(1)) });
    assert!(matches!(r, Poll::Ready(Ok(2))));
    let r = s.send_to(b"ab", &[], |b: &[u8], _to: SocketAddress| Ok(b.len()));
    assert!(matches!(r, Poll::Ready(Err(e)) if e == IoError { kind: IoErrorKind::InvalidInput, source: ErrorSource::NoAddresses }));
}

#[test]
fn recv_steps() {
    let mut s = sock(2);
    let mut buf = vec![0u8; 3];
    assert!(matches!(s.recv(&mut buf, |_n: usize| Ok(b"a".to_vec())), Poll::Pending));
    s.set_readiness(readable());
    assert!(matches!(s.recv(&mut buf, |_n: usize| Ok(b"hi".to_vec())), Poll::Ready(Ok(2))));
    assert_eq!(buf, vec![b'h', b'i', 0]);
    let r = s.recv_from(&mut buf, |_n: usize| Ok((b"xyzw".to_vec(), peer())));
    assert!(matches!(r, Poll::Ready(Ok((3, a))) if a == peer()));
    assert_eq!(buf, b"xyz".to_vec());
    assert!(matches!(s.recv(&mut buf, |_n: usize| Err(IoError::would_block())), Poll::Pending));
    assert!(matches!(s.recv(&mut buf, |_n: usize| Ok(b"q".to_vec())), Poll::Pending));
}

#[test]
fn debug_text_shows_the_descriptor() {
    assert_eq!(sock(42).debug_text(), "UdpSocket { fd: 42 }");
    assert_eq!(sock(0).debug_text(), "UdpSocket { fd: 0 }");
    assert_eq!(sock(-1).debug_text(), "UdpSocket { fd: -1 }");
    assert_eq!(sock(i32::MIN).debug_text(), "UdpSocket { fd: -2147483648 }");
}

#[test]
fn descriptor_is_kept_across_operations() {
    let mut s = sock(13);
    s.set_readiness(writable().or(&readable()));
    let _ = s.try_send(b"x", |_b: &[u8]| Err(IoError::would_block()));
    let _ = s.try_send(b"x", |_b: &[u8]| Ok(1));
    s.set_shutdown();
    assert_eq!(s.as_raw_fd(), 13);
    assert_eq!(s.debug_text(), "UdpSocket { fd: 13 }");
}

#[test]
fn combined_interest_waits_for_either() {
    let mut s = sock(6);
    let both = Interest::readable().add(Interest::writable());
    assert!(matches!(s.ready(both), Poll::Pending));
    s.set_readiness(writable());
    assert!(matches!(s.ready(both), Poll::Ready(Ok(r)) if r == writable()));
    assert!(matches!(s.async_io(both, || Ok::<u8, IoError>(3)), Poll::Ready(Ok(3))));
}

#[test]
fn combined_interest_is_never_ready_to_try() {
    let mut s = sock(6);
    s.set_readiness(writable().or(&readable()));
    let both = Interest::readable().add(Interest::writable());
    assert!(s.ready_event(both).is_empty());
    let called = Cell::new(false);
    let r = s.try_io(both, || {
        called.set(true);
        Ok::<u8, IoError>(1)
    });
    assert_eq!(r, Err(IoError::would_block()));
    assert!(!called.get());
    assert_eq!(s.ready_event(Interest::readable()), readable());
}

#[test]
fn interests_add_up() {
    let i = Interest::readable().add(Interest::error());
    assert!(i.readable && i.error && !i.writable && !i.priority);
    assert_eq!(Interest::writable().add(Interest::writable()), Interest::writable());
    assert_eq!(i.events(), Ready { readable: true, read_closed: true, error: true, ..Ready::empty() });
    assert!(i.mask().is_empty());
    assert_eq!(Interest::priority().mask(), Ready { priority: true, read_closed: true, ..Ready::empty() });
}

#[test]
fn polls_make_no_call_while_not_ready() {
    let mut s = sock(8);
    let called = Cell::new(false);
    let mut rb = ReadBuf::new(vec![0u8; 4]);
    let r = s.poll_recv_from(&mut rb, |_room: usize| {
        called.set(true);
        Ok((vec![1u8], peer()))
    });
    assert!(matches!(r, Poll::Pending));
    assert!(rb.filled().is_empty());
    let r2 = s.poll_send(b"x", |_b: &[u8]| {
        called.set(true);
        Ok(1)
    });
    assert!(matches!(r2, Poll::Pending));
    let r3 = s.try_send_to(b"x", peer(), |_b: &[u8], _to: SocketAddress| {
        called.set(true);
        Ok(1)
    });
    assert_eq!(r3, Err(IoError::would_block()));
    assert!(!called.get());
}
