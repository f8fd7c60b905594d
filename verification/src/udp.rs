//! The reactor-backed UDP socket: the operating system moves the datagrams,
//! the reactor reports readiness, and the socket decides from that readiness
//! whether an operation is attempted and what a `WouldBlock` does to it.
//!
//! Each operation takes the system call it would make as a closure, so that
//! the caller performs the I/O and the socket keeps the readiness discipline.

use vstd::prelude::*;
use crate::address::SocketAddress;
use crate::text::{chars_of, decimal_text, push_decimal, string_from_chars};
use crate::io::{
    interest_add, interest_events, interest_mask, is_would_block, ready_and, ready_clear, ready_is_empty, ready_or,
    spec_empty_ready, spec_gone, spec_initialize_unfilled, spec_put_received, spec_would_block,
    ErrorSource, Interest, IoError, IoErrorKind, Poll, ReadBuf, Ready,
};

verus! {

/// The socket as a value: its descriptor, the readiness the reactor has
/// reported and not yet consumed, and whether the reactor is shutting down.
pub struct SocketState {
    pub fd: i32,
    pub readiness: Ready,
    pub shutdown: bool,
}

/// The readiness that an operation with `interest` can use.
pub open spec fn spec_ready_event(s: SocketState, interest: Interest) -> Ready {
    ready_and(interest_mask(interest), s.readiness)
}

/// The readiness that waiting with `interest` finds: the reported events of
/// each kind that it names. For a single interest this is the readiness
/// the operation can use (`lemma_single_interest_readiness`).
pub open spec fn spec_readiness(s: SocketState, interest: Interest) -> Ready {
    ready_and(interest_events(interest), s.readiness)
}

/// The state after an operation that used `event` found that it would
/// block: those events are consumed, closed events excepted.
pub open spec fn spec_cleared(s: SocketState, event: Ready) -> SocketState {
    SocketState { readiness: ready_clear(s.readiness, event), ..s }
}

/// The result and next state of an attempted operation that returned `res`,
/// after readiness `event` allowed it.
pub open spec fn spec_after_attempt<R>(
    s: SocketState,
    event: Ready,
    res: Result<R, IoError>,
) -> (Result<R, IoError>, SocketState) {
    if is_would_block(res) {
        (Err(spec_would_block()), spec_cleared(s, event))
    } else {
        (res, s)
    }
}

/// What polling for readiness with `interest` yields: the shutdown error
/// once the reactor is shutting down, else nothing yet while no usable event
/// is there, else the usable events.
pub open spec fn spec_poll_ready(s: SocketState, interest: Interest) -> Poll<Result<Ready, IoError>> {
    if s.shutdown {
        Poll::Ready(Err(spec_gone()))
    } else if ready_is_empty(spec_readiness(s, interest)) {
        Poll::Pending
    } else {
        Poll::Ready(Ok(spec_readiness(s, interest)))
    }
}

/// Whether polling with `interest` lets the operation run.
pub open spec fn poll_allows(s: SocketState, interest: Interest) -> bool {
    !s.shutdown && !ready_is_empty(spec_readiness(s, interest))
}

/// The poll result and next state of a polled operation that returned
/// `res`, after readiness `event` allowed it: a `WouldBlock` consumes the
/// event and leaves the poll pending until the reactor reports readiness
/// again.
pub open spec fn spec_poll_step<R>(s: SocketState, event: Ready, res: Result<R, IoError>) -> (
    Poll<Result<R, IoError>>,
    SocketState,
) {
    if is_would_block(res) {
        (Poll::Pending, spec_cleared(s, event))
    } else {
        (Poll::Ready(res), s)
    }
}

/// The poll result when polling does not let the operation run.
pub open spec fn spec_poll_refused<R>(s: SocketState) -> Poll<Result<R, IoError>> {
    if s.shutdown {
        Poll::Ready(Err(spec_gone()))
    } else {
        Poll::Pending
    }
}

/// The error of `bind` without addresses.
pub open spec fn spec_no_bind_address() -> IoError {
    IoError { kind: IoErrorKind::InvalidInput, source: ErrorSource::NoAddressesToBind }
}

/// The error of `connect` without addresses.
pub open spec fn spec_no_connect_address() -> IoError {
    IoError { kind: IoErrorKind::InvalidInput, source: ErrorSource::NoAddressesToConnect }
}

/// The error of `send_to` without addresses.
pub open spec fn spec_no_address() -> IoError {
    IoError { kind: IoErrorKind::InvalidInput, source: ErrorSource::NoAddresses }
}

/// A UDP socket registered with the reactor.
pub struct UdpSocket {
    fd: i32,
    readiness: Ready,
    shutdown: bool,
}

impl View for UdpSocket {
    type V = SocketState;

    closed spec fn view(&self) -> SocketState {
        SocketState { fd: self.fd, readiness: self.readiness, shutdown: self.shutdown }
    }
}

impl UdpSocket {
    /// Registers a bound socket, given by its descriptor, with the reactor:
    /// `register` puts it in non-blocking mode and registers it, and its
    /// error is the result if it fails. A registered socket keeps the
    /// descriptor and has no readiness reported yet.
    pub fn from_std<F: FnOnce(i32) -> Result<(), IoError>>(fd: i32, register: F) -> (r: Result<
        UdpSocket,
        IoError,
    >)
        requires
            register.requires((fd,)),
        ensures
            r matches Ok(sock) ==> sock@ == (SocketState {
                fd,
                readiness: spec_empty_ready(),
                shutdown: false,
            }) && register.ensures((fd,), Ok::<(), IoError>(())),
            r matches Err(e) ==> register.ensures((fd,), Err::<(), IoError>(e)),
    {
        let res = register(fd);
        match res {
            Ok(u) => {
                assert(u == ());
                assert(res == Ok::<(), IoError>(()));
                Ok(UdpSocket { fd, readiness: Ready::empty(), shutdown: false })
            },
            Err(e) => Err(e),
        }
    }

    /// The descriptor of the socket.
    pub fn as_raw_fd(&self) -> (r: i32)
        ensures
            r == self@.fd,
    {
        self.fd
    }

    /// The socket as its `Debug` shows it: `UdpSocket { fd: N }`, the
    /// descriptor in decimal.
    pub fn debug_text(&self) -> (r: String)
        ensures
            r@ == "UdpSocket { fd: "@ + decimal_text(self@.fd as int) + " }"@,
    {
        let mut out = chars_of("UdpSocket { fd: ");
        push_decimal(&mut out, self.fd);
        let mut tail = chars_of(" }");
        out.append(&mut tail);
        string_from_chars(out.as_slice())
    }

    /// Deregisters the socket and gives back its descriptor.
    pub fn into_std(self) -> (r: i32)
        ensures
            r == self@.fd,
    {
        self.fd
    }

    /// Takes in a readiness event that the reactor observed for the socket.
    pub fn set_readiness(&mut self, event: Ready)
        ensures
            final(self)@ == (SocketState {
                readiness: ready_or(old(self)@.readiness, event),
                ..old(self)@
            }),
            final(self)@ == spec_apply(old(self)@, SocketStep::Readiness(event)),
    {
        self.readiness = self.readiness.or(&event);
    }

    /// Takes in the reactor's shutdown.
    pub fn set_shutdown(&mut self)
        ensures
            final(self)@ == (SocketState { shutdown: true, ..old(self)@ }),
            final(self)@ == spec_apply(old(self)@, SocketStep::Shutdown),
    {
        self.shutdown = true;
    }

    /// The readiness that an operation with `interest` can use now.
    pub fn ready_event(&self, interest: Interest) -> (r: Ready)
        ensures
            r == spec_ready_event(self@, interest),
    {
        interest.mask().and(&self.readiness)
    }

    /// Runs `f` if the socket is ready for `interest`. If it is not, this is
    /// `WouldBlock` and `f` is not run; an interest that names several kinds
    /// of event is never ready here (`interest_mask`). If `f` reports `WouldBlock`, the
    /// readiness it used is consumed, so that the next attempt waits for a
    /// new event; any other outcome of `f` is returned as it is.
    pub fn try_io<R, F: FnOnce() -> Result<R, IoError>>(&mut self, interest: Interest, f: F) -> (r:
        Result<R, IoError>)
        requires
            !ready_is_empty(spec_ready_event(old(self)@, interest)) ==> f.requires(()),
        ensures
            ready_is_empty(spec_ready_event(old(self)@, interest)) ==> r == Err::<R, IoError>(
                spec_would_block(),
            ) && final(self)@ == old(self)@,
            !ready_is_empty(spec_ready_event(old(self)@, interest)) ==> exists|res: Result<
                R,
                IoError,
            >|
                #[trigger] f.ensures((), res) && (r, final(self)@) == spec_after_attempt(
                    old(self)@,
                    spec_ready_event(old(self)@, interest),
                    res,
                ),
    {
        let ev = self.ready_event(interest);
        if ev.is_empty() {
            return Err(IoError::would_block());
        }
        let res = f();
        match res {
            Err(e) => {
                if e.is_would_block() {
                    self.readiness = self.readiness.clear(&ev);
                    Err(IoError::would_block())
                } else {
                    Err(e)
                }
            },
            Ok(v) => Ok(v),
        }
    }

    /// Sends `buf` if the socket is ready for writing, without waiting: the
    /// discipline of `try_io` around the send that `send` makes.
    pub fn try_send<F: FnOnce(&[u8]) -> Result<usize, IoError>>(&mut self, buf: &[u8], send: F) -> (r:
        Result<usize, IoError>)
        requires
            !ready_is_empty(spec_ready_event(old(self)@, Interest::writable())) ==> send.requires((buf,)),
        ensures
            ready_is_empty(spec_ready_event(old(self)@, Interest::writable())) ==> r == Err::<
                usize,
                IoError,
            >(spec_would_block()) && final(self)@ == old(self)@,
            !ready_is_empty(spec_ready_event(old(self)@, Interest::writable())) ==> exists|
                res: Result<usize, IoError>,
            |
                #[trigger] send.ensures((buf,), res) && (r, final(self)@) == spec_after_attempt(
                    old(self)@,
                    spec_ready_event(old(self)@, Interest::writable()),
                    res,
                ),
    {
        let op = move || -> (res: Result<usize, IoError>)
            requires
                send.requires((buf,)),
            ensures
                send.ensures((buf,), res),
            { send(buf) };
        self.try_io(Interest::writable(), op)
    }

    /// Polls for readiness with `interest`.
    pub fn ready(&self, interest: Interest) -> (r: Poll<Result<Ready, IoError>>)
        ensures
            r == spec_poll_ready(self@, interest),
    {
        let ev = interest.events().and(&self.readiness);
        if self.shutdown {
            Poll::Ready(Err(IoError::gone()))
        } else if ev.is_empty() {
            Poll::Pending
        } else {
            Poll::Ready(Ok(ev))
        }
    }

    /// Polls until the socket is writable.
    pub fn writable(&self) -> (r: Poll<Result<(), IoError>>)
        ensures
            self@.shutdown ==> r == Poll::Ready(Err::<(), IoError>(spec_gone())),
            !self@.shutdown && ready_is_empty(spec_ready_event(self@, Interest::writable())) ==> r
                is Pending,
            poll_allows(self@, Interest::writable()) ==> r == Poll::Ready(Ok::<(), IoError>(())),
    {
        match self.ready(Interest::writable()) {
            Poll::Ready(Ok(_)) => Poll::Ready(Ok(())),
            Poll::Ready(Err(e)) => Poll::Ready(Err(e)),
            Poll::Pending => Poll::Pending,
        }
    }

    /// Polls until the socket is readable.
    pub fn readable(&self) -> (r: Poll<Result<(), IoError>>)
        ensures
            self@.shutdown ==> r == Poll::Ready(Err::<(), IoError>(spec_gone())),
            !self@.shutdown && ready_is_empty(spec_ready_event(self@, Interest::readable())) ==> r
                is Pending,
            poll_allows(self@, Interest::readable()) ==> r == Poll::Ready(Ok::<(), IoError>(())),
    {
        match self.ready(Interest::readable()) {
            Poll::Ready(Ok(_)) => Poll::Ready(Ok(())),
            Poll::Ready(Err(e)) => Poll::Ready(Err(e)),
            Poll::Pending => Poll::Pending,
        }
    }

    /// Polls for send readiness.
    pub fn poll_send_ready(&self) -> (r: Poll<Result<(), IoError>>)
        ensures
            self@.shutdown ==> r == Poll::Ready(Err::<(), IoError>(spec_gone())),
            !self@.shutdown && ready_is_empty(spec_ready_event(self@, Interest::writable())) ==> r
                is Pending,
            poll_allows(self@, Interest::writable()) ==> r == Poll::Ready(Ok::<(), IoError>(())),
    {
        self.writable()
    }

    /// Polls for receive readiness.
    pub fn poll_recv_ready(&self) -> (r: Poll<Result<(), IoError>>)
        ensures
            self@.shutdown ==> r == Poll::Ready(Err::<(), IoError>(spec_gone())),
            !self@.shutdown && ready_is_empty(spec_ready_event(self@, Interest::readable())) ==> r
                is Pending,
            poll_allows(self@, Interest::readable()) ==> r == Poll::Ready(Ok::<(), IoError>(())),
    {
        self.readable()
    }

    /// One step of an operation driven by polling: once the socket is ready
    /// for `interest`, runs `f`; a `WouldBlock` from it consumes the
    /// readiness and leaves the poll pending, any other outcome is the poll's
    /// result. While the socket is not ready, `f` is not run.
    pub fn async_io<R, F: FnOnce() -> Result<R, IoError>>(&mut self, interest: Interest, f: F) -> (r:
        Poll<Result<R, IoError>>)
        requires
            poll_allows(old(self)@, interest) ==> f.requires(()),
        ensures
            !poll_allows(old(self)@, interest) ==> r == spec_poll_refused::<R>(old(self)@)
                && final(self)@ == old(self)@,
            poll_allows(old(self)@, interest) ==> exists|res: Result<R, IoError>|
                #[trigger] f.ensures((), res) && (r, final(self)@) == spec_poll_step(
                    old(self)@,
                    spec_readiness(old(self)@, interest),
                    res,
                ),
    {
        let ev = interest.events().and(&self.readiness);
        if self.shutdown {
            return Poll::Ready(Err(IoError::gone()));
        }
        if ev.is_empty() {
            return Poll::Pending;
        }
        let res = f();
        match res {
            Err(e) => {
                if e.is_would_block() {
                    self.readiness = self.readiness.clear(&ev);
                    Poll::Pending
                } else {
                    Poll::Ready(Err(e))
                }
            },
            Ok(v) => Poll::Ready(Ok(v)),
        }
    }

    /// Sends `buf` to `target` if the socket is ready for writing, without
    /// waiting.
    pub fn try_send_to<F: FnOnce(&[u8], SocketAddress) -> Result<usize, IoError>>(
        &mut self,
        buf: &[u8],
        target: SocketAddress,
        send_to: F,
    ) -> (r: Result<usize, IoError>)
        requires
            !ready_is_empty(spec_ready_event(old(self)@, Interest::writable())) ==> send_to.requires((buf, target)),
        ensures
            ready_is_empty(spec_ready_event(old(self)@, Interest::writable())) ==> r == Err::<
                usize,
                IoError,
            >(spec_would_block()) && final(self)@ == old(self)@,
            !ready_is_empty(spec_ready_event(old(self)@, Interest::writable())) ==> exists|
                res: Result<usize, IoError>,
            |
                #[trigger] send_to.ensures((buf, target), res) && (r, final(self)@)
                    == spec_after_attempt(
                    old(self)@,
                    spec_ready_event(old(self)@, Interest::writable()),
                    res,
                ),
    {
        let op = move || -> (res: Result<usize, IoError>)
            requires
                send_to.requires((buf, target)),
            ensures
                send_to.ensures((buf, target), res),
            { send_to(buf, target) };
        self.try_io(Interest::writable(), op)
    }

    /// Receives a datagram into `buf` if the socket is ready for reading,
    /// without waiting. `recv` is given the room there is (the length of
    /// `buf`) and yields the received bytes; as many of them as fit are put
    /// at the start of `buf`, and their number is the result.
    pub fn try_recv<F: FnOnce(usize) -> Result<Vec<u8>, IoError>>(
        &mut self,
        buf: &mut Vec<u8>,
        recv: F,
    ) -> (r: Result<usize, IoError>)
        requires
            !ready_is_empty(spec_ready_event(old(self)@, Interest::readable())) ==> recv.requires((old(buf)@.len() as usize,)),
        ensures
            final(buf)@.len() == old(buf)@.len(),
            ready_is_empty(spec_ready_event(old(self)@, Interest::readable())) ==> r == Err::<
                usize,
                IoError,
            >(spec_would_block()) && final(self)@ == old(self)@ && final(buf)@ == old(buf)@,
            !ready_is_empty(spec_ready_event(old(self)@, Interest::readable())) ==> exists|
                res: Result<Vec<u8>, IoError>,
            |
                #[trigger] recv.ensures((old(buf)@.len() as usize,), res) && received_into(
                    old(self)@,
                    old(buf)@,
                    res,
                    r,
                    final(self)@,
                    final(buf)@,
                ),
    {
        let room = buf.len();
        let op = move || -> (res: Result<Vec<u8>, IoError>)
            requires
                recv.requires((room,)),
            ensures
                recv.ensures((room,), res),
            { recv(room) };
        let res = self.try_io(Interest::readable(), op);
        match res {
            Ok(data) => {
                let n = copy_prefix(buf, data.as_slice());
                Ok(n)
            },
            Err(e) => Err(e),
        }
    }

    /// Receives a datagram and its sender if the socket is ready for
    /// reading, without waiting; the bytes are put into `buf` as `try_recv`
    /// does.
    pub fn try_recv_from<F: FnOnce(usize) -> Result<(Vec<u8>, SocketAddress), IoError>>(
        &mut self,
        buf: &mut Vec<u8>,
        recv_from: F,
    ) -> (r: Result<(usize, SocketAddress), IoError>)
        requires
            !ready_is_empty(spec_ready_event(old(self)@, Interest::readable())) ==> recv_from.requires((old(buf)@.len() as usize,)),
        ensures
            final(buf)@.len() == old(buf)@.len(),
            ready_is_empty(spec_ready_event(old(self)@, Interest::readable())) ==> r == Err::<
                (usize, SocketAddress),
                IoError,
            >(spec_would_block()) && final(self)@ == old(self)@ && final(buf)@ == old(buf)@,
            !ready_is_empty(spec_ready_event(old(self)@, Interest::readable())) ==> exists|
                res: Result<(Vec<u8>, SocketAddress), IoError>,
            |
                #[trigger] recv_from.ensures((old(buf)@.len() as usize,), res)
                    && received_from_into(old(self)@, old(buf)@, res, r, final(self)@, final(buf)@),
    {
        let room = buf.len();
        let op = move || -> (res: Result<(Vec<u8>, SocketAddress), IoError>)
            requires
                recv_from.requires((room,)),
            ensures
                recv_from.ensures((room,), res),
            { recv_from(room) };
        let res = self.try_io(Interest::readable(), op);
        match res {
            Ok((data, from)) => {
                let n = copy_prefix(buf, data.as_slice());
                Ok((n, from))
            },
            Err(e) => Err(e),
        }
    }

    /// Polls sending `buf` to `target`.
    pub fn poll_send_to<F: FnOnce(&[u8], SocketAddress) -> Result<usize, IoError>>(
        &mut self,
        buf: &[u8],
        target: SocketAddress,
        send_to: F,
    ) -> (r: Poll<Result<usize, IoError>>)
        requires
            poll_allows(old(self)@, Interest::writable()) ==> send_to.requires((buf, target)),
        ensures
            !poll_allows(old(self)@, Interest::writable()) ==> r == spec_poll_refused::<usize>(
                old(self)@,
            ) && final(self)@ == old(self)@,
            poll_allows(old(self)@, Interest::writable()) ==> exists|res: Result<usize, IoError>|
                #[trigger] send_to.ensures((buf, target), res) && (r, final(self)@)
                    == spec_poll_step(
                    old(self)@,
                    spec_ready_event(old(self)@, Interest::writable()),
                    res,
                ),
    {
        let op = move || -> (res: Result<usize, IoError>)
            requires
                send_to.requires((buf, target)),
            ensures
                send_to.ensures((buf, target), res),
            { send_to(buf, target) };
        self.async_io(Interest::writable(), op)
    }

    /// Polls sending `buf` on a connected socket.
    pub fn poll_send<F: FnOnce(&[u8]) -> Result<usize, IoError>>(&mut self, buf: &[u8], send: F) -> (r:
        Poll<Result<usize, IoError>>)
        requires
            poll_allows(old(self)@, Interest::writable()) ==> send.requires((buf,)),
        ensures
            !poll_allows(old(self)@, Interest::writable()) ==> r == spec_poll_refused::<usize>(
                old(self)@,
            ) && final(self)@ == old(self)@,
            poll_allows(old(self)@, Interest::writable()) ==> exists|res: Result<usize, IoError>|
                #[trigger] send.ensures((buf,), res) && (r, final(self)@) == spec_poll_step(
                    old(self)@,
                    spec_ready_event(old(self)@, Interest::writable()),
                    res,
                ),
    {
        let op = move || -> (res: Result<usize, IoError>)
            requires
                send.requires((buf,)),
            ensures
                send.ensures((buf,), res),
            { send(buf) };
        self.async_io(Interest::writable(), op)
    }

    /// Polls receiving on a connected socket into `buf`: once the socket is
    /// readable, the unfilled part of `buf` is initialized, `recv` is given
    /// its size and yields the received bytes, which are put there and
    /// marked filled.
    pub fn poll_recv<F: FnOnce(usize) -> Result<Vec<u8>, IoError>>(
        &mut self,
        buf: &mut ReadBuf,
        recv: F,
    ) -> (r: Poll<Result<(), IoError>>)
        requires
            old(buf).wf(),
            poll_allows(old(self)@, Interest::readable()) ==> recv.requires(((old(buf)@.bytes.len() - old(buf)@.filled) as usize,)),
        ensures
            final(buf).wf(),
            !poll_allows(old(self)@, Interest::readable()) ==> r == spec_poll_refused::<()>(
                old(self)@,
            ) && final(self)@ == old(self)@ && final(buf)@ == old(buf)@,
            poll_allows(old(self)@, Interest::readable()) ==> exists|res: Result<Vec<u8>, IoError>|
                #[trigger] recv.ensures(
                    ((old(buf)@.bytes.len() - old(buf)@.filled) as usize,),
                    res,
                ) && polled_into(old(self)@, old(buf)@, res, r, final(self)@, final(buf)@),
    {
        let ev = self.ready_event(Interest::readable());
        if self.shutdown {
            return Poll::Ready(Err(IoError::gone()));
        }
        if ev.is_empty() {
            return Poll::Pending;
        }
        buf.initialize_unfilled();
        let room = buf.remaining();
        assert(room == (old(buf)@.bytes.len() - old(buf)@.filled) as usize);
        let res = recv(room);
        match res {
            Ok(data) => {
                buf.put_received(data.as_slice());
                Poll::Ready(Ok(()))
            },
            Err(e) => {
                if e.is_would_block() {
                    self.readiness = self.readiness.clear(&ev);
                    Poll::Pending
                } else {
                    Poll::Ready(Err(e))
                }
            },
        }
    }

    /// Polls receiving a datagram into `buf`, as `poll_recv` does, and gives
    /// its sender.
    pub fn poll_recv_from<F: FnOnce(usize) -> Result<(Vec<u8>, SocketAddress), IoError>>(
        &mut self,
        buf: &mut ReadBuf,
        recv_from: F,
    ) -> (r: Poll<Result<SocketAddress, IoError>>)
        requires
            old(buf).wf(),
            poll_allows(old(self)@, Interest::readable()) ==> recv_from.requires(((old(buf)@.bytes.len() - old(buf)@.filled) as usize,)),
        ensures
            final(buf).wf(),
            !poll_allows(old(self)@, Interest::readable()) ==> r == spec_poll_refused::<
                SocketAddress,
            >(old(self)@) && final(self)@ == old(self)@ && final(buf)@ == old(buf)@,
            poll_allows(old(self)@, Interest::readable()) ==> exists|
                res: Result<(Vec<u8>, SocketAddress), IoError>,
            |
                #[trigger] recv_from.ensures(
                    ((old(buf)@.bytes.len() - old(buf)@.filled) as usize,),
                    res,
                ) && polled_from_into(old(self)@, old(buf)@, res, r, final(self)@, final(buf)@),
    {
        let ev = self.ready_event(Interest::readable());
        if self.shutdown {
            return Poll::Ready(Err(IoError::gone()));
        }
        if ev.is_empty() {
            return Poll::Pending;
        }
        buf.initialize_unfilled();
        let room = buf.remaining();
        assert(room == (old(buf)@.bytes.len() - old(buf)@.filled) as usize);
        let res = recv_from(room);
        match res {
            Ok((data, from)) => {
                buf.put_received(data.as_slice());
                Poll::Ready(Ok(from))
            },
            Err(e) => {
                if e.is_would_block() {
                    self.readiness = self.readiness.clear(&ev);
                    Poll::Pending
                } else {
                    Poll::Ready(Err(e))
                }
            },
        }
    }

    /// One step of sending `buf` on a connected socket once it is writable:
    /// the step `async_io` takes with the send that `send` makes.
    pub fn send<F: FnOnce(&[u8]) -> Result<usize, IoError>>(&mut self, buf: &[u8], send: F) -> (r:
        Poll<Result<usize, IoError>>)
        requires
            poll_allows(old(self)@, Interest::writable()) ==> send.requires((buf,)),
        ensures
            !poll_allows(old(self)@, Interest::writable()) ==> r == spec_poll_refused::<usize>(
                old(self)@,
            ) && final(self)@ == old(self)@,
            poll_allows(old(self)@, Interest::writable()) ==> exists|res: Result<usize, IoError>|
                #[trigger] send.ensures((buf,), res) && (r, final(self)@) == spec_poll_step(
                    old(self)@,
                    spec_ready_event(old(self)@, Interest::writable()),
                    res,
                ),
    {
        self.poll_send(buf, send)
    }

    /// One step of sending `buf` to the first of the resolved `targets` once
    /// the socket is writable; without a target, an `InvalidInput` error and
    /// nothing is sent.
    pub fn send_to<F: FnOnce(&[u8], SocketAddress) -> Result<usize, IoError>>(
        &mut self,
        buf: &[u8],
        targets: &[SocketAddress],
        send_to: F,
    ) -> (r: Poll<Result<usize, IoError>>)
        requires
            targets@.len() > 0 && poll_allows(old(self)@, Interest::writable()) ==> send_to.requires((buf, targets@[0])),
        ensures
            targets@.len() == 0 ==> r == Poll::Ready(Err::<usize, IoError>(spec_no_address()))
                && final(self)@ == old(self)@,
            targets@.len() > 0 && !poll_allows(old(self)@, Interest::writable()) ==> r
                == spec_poll_refused::<usize>(old(self)@) && final(self)@ == old(self)@,
            targets@.len() > 0 && poll_allows(old(self)@, Interest::writable()) ==> exists|
                res: Result<usize, IoError>,
            |
                #[trigger] send_to.ensures((buf, targets@[0]), res) && (r, final(self)@)
                    == spec_poll_step(
                    old(self)@,
                    spec_ready_event(old(self)@, Interest::writable()),
                    res,
                ),
    {
        match send_to_target(targets) {
            Ok(target) => self.poll_send_to(buf, target, send_to),
            Err(e) => Poll::Ready(Err(e)),
        }
    }

    /// One step of receiving on a connected socket once it is readable; the
    /// received bytes are put into `buf` as `try_recv` does.
    pub fn recv<F: FnOnce(usize) -> Result<Vec<u8>, IoError>>(
        &mut self,
        buf: &mut Vec<u8>,
        recv: F,
    ) -> (r: Poll<Result<usize, IoError>>)
        requires
            poll_allows(old(self)@, Interest::readable()) ==> recv.requires((old(buf)@.len() as usize,)),
        ensures
            final(buf)@.len() == old(buf)@.len(),
            !poll_allows(old(self)@, Interest::readable()) ==> r == spec_poll_refused::<usize>(
                old(self)@,
            ) && final(self)@ == old(self)@ && final(buf)@ == old(buf)@,
            poll_allows(old(self)@, Interest::readable()) ==> exists|res: Result<Vec<u8>, IoError>|
                #[trigger] recv.ensures((old(buf)@.len() as usize,), res) && polled_copy(
                    old(self)@,
                    old(buf)@,
                    res,
                    r,
                    final(self)@,
                    final(buf)@,
                ),
    {
        let room = buf.len();
        let op = move || -> (res: Result<Vec<u8>, IoError>)
            requires
                recv.requires((room,)),
            ensures
                recv.ensures((room,), res),
            { recv(room) };
        match self.async_io(Interest::readable(), op) {
            Poll::Ready(Ok(data)) => {
                let n = copy_prefix(buf, data.as_slice());
                Poll::Ready(Ok(n))
            },
            Poll::Ready(Err(e)) => Poll::Ready(Err(e)),
            Poll::Pending => Poll::Pending,
        }
    }

    /// One step of receiving a datagram and its sender once the socket is
    /// readable; the received bytes are put into `buf` as `try_recv` does.
    pub fn recv_from<F: FnOnce(usize) -> Result<(Vec<u8>, SocketAddress), IoError>>(
        &mut self,
        buf: &mut Vec<u8>,
        recv_from: F,
    ) -> (r: Poll<Result<(usize, SocketAddress), IoError>>)
        requires
            poll_allows(old(self)@, Interest::readable()) ==> recv_from.requires((old(buf)@.len() as usize,)),
        ensures
            final(buf)@.len() == old(buf)@.len(),
            !poll_allows(old(self)@, Interest::readable()) ==> r == spec_poll_refused::<
                (usize, SocketAddress),
            >(old(self)@) && final(self)@ == old(self)@ && final(buf)@ == old(buf)@,
            poll_allows(old(self)@, Interest::readable()) ==> exists|
                res: Result<(Vec<u8>, SocketAddress), IoError>,
            |
                #[trigger] recv_from.ensures((old(buf)@.len() as usize,), res)
                    && polled_copy_from(old(self)@, old(buf)@, res, r, final(self)@, final(buf)@),
    {
        let room = buf.len();
        let op = move || -> (res: Result<(Vec<u8>, SocketAddress), IoError>)
            requires
                recv_from.requires((room,)),
            ensures
                recv_from.ensures((room,), res),
            { recv_from(room) };
        match self.async_io(Interest::readable(), op) {
            Poll::Ready(Ok((data, from))) => {
                let n = copy_prefix(buf, data.as_slice());
                Poll::Ready(Ok((n, from)))
            },
            Poll::Ready(Err(e)) => Poll::Ready(Err(e)),
            Poll::Pending => Poll::Pending,
        }
    }

    /// The pending error of the socket, as `query` reads it for the
    /// socket's descriptor.
    pub fn take_error<F: FnOnce(i32) -> Result<Option<IoError>, IoError>>(&self, query: F) -> (r:
        Result<Option<IoError>, IoError>)
        requires
            query.requires((self@.fd,)),
        ensures
            query.ensures((self@.fd,), r),
    {
        query(self.fd)
    }

    /// The local address of the socket, as `query` reads it for the socket's
    /// descriptor.
    pub fn local_addr<F: FnOnce(i32) -> Result<SocketAddress, IoError>>(&self, query: F) -> (r:
        Result<SocketAddress, IoError>)
        requires
            query.requires((self@.fd,)),
        ensures
            query.ensures((self@.fd,), r),
    {
        query(self.fd)
    }

    /// The connected peer's address, as `query` reads it for the socket's
    /// descriptor.
    pub fn peer_addr<F: FnOnce(i32) -> Result<SocketAddress, IoError>>(&self, query: F) -> (r:
        Result<SocketAddress, IoError>)
        requires
            query.requires((self@.fd,)),
        ensures
            query.ensures((self@.fd,), r),
    {
        query(self.fd)
    }

    /// Binds to the first of `addrs` that `bind_one` can bind, trying them
    /// in order, and registers the bound socket with `register`, as
    /// `from_std` does. If the registration fails, its error, at once: the
    /// later addresses are not tried. If no address can be bound, the error
    /// of the last attempt; if there is no address at all, an
    /// `InvalidInput` error.
    pub fn bind<F: Fn(SocketAddress) -> Result<i32, IoError>, G: Fn(i32) -> Result<(), IoError>>(
        addrs: &[SocketAddress],
        bind_one: F,
        register: G,
    ) -> (r: Result<UdpSocket, IoError>)
        requires
            forall|a: SocketAddress| bind_one.requires((a,)),
            forall|fd: i32| register.requires((fd,)),
        ensures
            addrs@.len() == 0 ==> r == Err::<UdpSocket, IoError>(spec_no_bind_address()),
            r matches Ok(sock) ==> exists|i: int|
                0 <= i < addrs@.len() && bind_one.ensures((addrs@[i],), Ok::<i32, IoError>(sock@.fd))
                    && all_failed(addrs@, bind_one, i) && register.ensures(
                    (sock@.fd,),
                    Ok::<(), IoError>(()),
                ) && sock@.readiness == spec_empty_ready() && !sock@.shutdown,
            r matches Err(e) ==> (exists|i: int, fd: i32|
                #![trigger bind_one.ensures((addrs@[i],), Ok::<i32, IoError>(fd))]
                0 <= i < addrs@.len() && bind_one.ensures((addrs@[i],), Ok::<i32, IoError>(fd))
                    && all_failed(addrs@, bind_one, i) && register.ensures(
                    (fd,),
                    Err::<(), IoError>(e),
                )) || (addrs@.len() > 0 && all_failed(addrs@, bind_one, addrs@.len() - 1)
                && bind_one.ensures((addrs@.last(),), Err::<i32, IoError>(e))) || (addrs@.len()
                == 0 && e == spec_no_bind_address()),
    {
        let n = addrs.len();
        let mut last_err: Option<IoError> = None;
        let mut i: usize = 0;
        while i < n
            invariant
                n == addrs@.len(),
                i <= n,
                forall|a: SocketAddress| bind_one.requires((a,)),
                forall|fd: i32| register.requires((fd,)),
                i == 0 <==> last_err is None,
                all_failed(addrs@, bind_one, i as int),
                last_err matches Some(e) ==> bind_one.ensures(
                    (addrs@[i - 1],),
                    Err::<i32, IoError>(e),
                ),
            decreases n - i,
        {
            match bind_one(addrs[i]) {
                Ok(fd) => {
                    assert(bind_one.ensures((addrs@[i as int],), Ok::<i32, IoError>(fd)));
                    let reg = UdpSocket::from_std(fd, |d: i32| -> (res: Result<(), IoError>)
                        requires
                            register.requires((d,)),
                        ensures
                            register.ensures((d,), res),
                        { register(d) });
                    match reg {
                        Ok(sock) => {
                            return Ok(sock);
                        },
                        Err(e) => {
                            assert(register.ensures((fd,), Err::<(), IoError>(e)));
                            return Err(e);
                        },
                    }
                },
                Err(e) => {
                    assert forall|j: int| 0 <= j < i + 1 implies #[trigger] bind_can_fail(
                        bind_one,
                        addrs@[j],
                    ) by {
                        if j == i {
                            assert(bind_one.ensures((addrs@[j],), Err::<i32, IoError>(e)));
                        }
                    }
                    last_err = Some(e);
                },
            }
            i = i + 1;
        }
        match last_err {
            Some(e) => Err(e),
            None => Err(IoError { kind: IoErrorKind::InvalidInput, source: ErrorSource::NoAddressesToBind }),
        }
    }

    /// Connects the socket to the first of `addrs` that `connect_one` can
    /// connect it to, trying them in order. If none works, the error of the
    /// last attempt; if there is no address at all, an `InvalidInput` error.
    pub fn connect<F: Fn(i32, SocketAddress) -> Result<(), IoError>>(
        &self,
        addrs: &[SocketAddress],
        connect_one: F,
    ) -> (r: Result<(), IoError>)
        requires
            forall|a: SocketAddress| connect_one.requires((self@.fd, a)),
        ensures
            addrs@.len() == 0 ==> r == Err::<(), IoError>(spec_no_connect_address()),
            r is Ok ==> exists|i: int|
                0 <= i < addrs@.len() && connect_one.ensures(
                    (self@.fd, addrs@[i]),
                    Ok::<(), IoError>(()),
                ) && all_connects_failed(self@.fd, addrs@, connect_one, i),
            addrs@.len() > 0 ==> (r matches Err(e) ==> all_connects_failed(
                self@.fd,
                addrs@,
                connect_one,
                addrs@.len() - 1,
            ) && connect_one.ensures((self@.fd, addrs@.last()), Err::<(), IoError>(e))),
    {
        let n = addrs.len();
        let fd = self.fd;
        let mut last_err: Option<IoError> = None;
        let mut i: usize = 0;
        while i < n
            invariant
                n == addrs@.len(),
                i <= n,
                fd == self@.fd,
                forall|a: SocketAddress| connect_one.requires((fd, a)),
                i == 0 <==> last_err is None,
                all_connects_failed(fd, addrs@, connect_one, i as int),
                last_err matches Some(e) ==> connect_one.ensures(
                    (fd, addrs@[i - 1]),
                    Err::<(), IoError>(e),
                ),
            decreases n - i,
        {
            let res = connect_one(fd, addrs[i]);
            match res {
                Ok(u) => {
                    assert(u == ());
                    assert(res == Ok::<(), IoError>(()));
                    assert(connect_one.ensures((fd, addrs@[i as int]), Ok::<(), IoError>(())));
                    return Ok(());
                },
                Err(e) => {
                    assert forall|j: int| 0 <= j < i + 1 implies #[trigger] connect_can_fail(
                        connect_one,
                        fd,
                        addrs@[j],
                    ) by {
                        if j == i {
                            assert(connect_one.ensures((fd, addrs@[j]), Err::<(), IoError>(e)));
                        }
                    }
                    last_err = Some(e);
                },
            }
            i = i + 1;
        }
        match last_err {
            Some(e) => Err(e),
            None => Err(
                IoError { kind: IoErrorKind::InvalidInput, source: ErrorSource::NoAddressesToConnect },
            ),
        }
    }
}

/// After a `WouldBlock` consumed the readiness an operation used, the only
/// usable events left for that interest are closed directions: unless the
/// direction is closed, the next attempt waits for a new readiness event.
/// Closed events themselves are never consumed.
pub proof fn lemma_would_block_consumes(s: SocketState, interest: Interest)
    ensures
        ({
            let s2 = spec_cleared(s, spec_ready_event(s, interest));
            let ev2 = spec_ready_event(s2, interest);
            &&& !ev2.readable && !ev2.writable && !ev2.priority && !ev2.error
            &&& s2.readiness.read_closed == s.readiness.read_closed
            &&& s2.readiness.write_closed == s.readiness.write_closed
            &&& !s.readiness.read_closed && !s.readiness.write_closed ==> ready_is_empty(ev2)
            &&& s2.fd == s.fd && s2.shutdown == s.shutdown
        }),
{
}

/// A change of the socket's state: a readiness event taken in, the
/// reactor's shutdown taken in, or readiness consumed by a `WouldBlock`.
/// These are all the changes that the socket's operations make.
pub enum SocketStep {
    Readiness(Ready),
    Shutdown,
    Consume(Ready),
}

/// The state after one change.
pub open spec fn spec_apply(s: SocketState, step: SocketStep) -> SocketState {
    match step {
        SocketStep::Readiness(event) => SocketState { readiness: ready_or(s.readiness, event), ..s },
        SocketStep::Shutdown => SocketState { shutdown: true, ..s },
        SocketStep::Consume(event) => spec_cleared(s, event),
    }
}

/// The state after a sequence of changes.
pub open spec fn spec_apply_all(s: SocketState, steps: Seq<SocketStep>) -> SocketState
    decreases steps.len(),
{
    if steps.len() == 0 {
        s
    } else {
        spec_apply(spec_apply_all(s, steps.drop_last()), steps.last())
    }
}

/// Every state change of an operation is one of the steps: an attempt or a
/// poll step leaves the state or consumes the readiness it used.
pub proof fn lemma_operations_are_steps<R>(s: SocketState, event: Ready, res: Result<R, IoError>)
    ensures
        spec_after_attempt(s, event, res).1 == s || spec_after_attempt(s, event, res).1
            == spec_apply(s, SocketStep::Consume(event)),
        spec_poll_step(s, event, res).1 == s || spec_poll_step(s, event, res).1 == spec_apply(
            s,
            SocketStep::Consume(event),
        ),
{
}

/// The socket's descriptor is never replaced: whatever readiness events,
/// shutdown and consumed readiness follow one another, the descriptor stays
/// the one the socket was registered with.
pub proof fn lemma_descriptor_kept(s: SocketState, steps: Seq<SocketStep>)
    ensures
        spec_apply_all(s, steps).fd == s.fd,
    decreases steps.len(),
{
    if steps.len() > 0 {
        lemma_descriptor_kept(s, steps.drop_last());
    }
}

/// For a single interest, waiting for readiness and trying the operation
/// read the same events.
pub proof fn lemma_single_interest_readiness(s: SocketState, interest: Interest)
    requires
        interest == Interest::readable() || interest == Interest::writable() || interest
            == Interest::priority() || interest == Interest::error(),
    ensures
        spec_readiness(s, interest) == spec_ready_event(s, interest),
{
}

/// Waiting with two interests together finds the events that either finds
/// alone.
pub proof fn lemma_combined_interest_readiness(s: SocketState, a: Interest, b: Interest)
    ensures
        spec_readiness(s, interest_add(a, b)) == ready_or(spec_readiness(s, a), spec_readiness(s, b)),
{
}

/// Consuming the readiness of one direction leaves the other direction's
/// readiness as it was.
pub proof fn lemma_directions_independent(s: SocketState)
    ensures
        spec_ready_event(
            spec_cleared(s, spec_ready_event(s, Interest::writable())),
            Interest::readable(),
        ) == spec_ready_event(s, Interest::readable()),
        spec_ready_event(
            spec_cleared(s, spec_ready_event(s, Interest::readable())),
            Interest::writable(),
        ) == spec_ready_event(s, Interest::writable()),
{
}

/// A readiness event that satisfies an interest makes the socket ready for
/// it, whatever readiness was there before.
pub proof fn lemma_event_makes_ready(s: SocketState, event: Ready, interest: Interest)
    requires
        !ready_is_empty(ready_and(interest_mask(interest), event)),
    ensures
        !ready_is_empty(
            spec_ready_event(
                SocketState { readiness: ready_or(s.readiness, event), ..s },
                interest,
            ),
        ),
{
}

/// Binding `a` can fail.
pub open spec fn bind_can_fail<F: Fn(SocketAddress) -> Result<i32, IoError>>(
    bind_one: F,
    a: SocketAddress,
) -> bool {
    exists|e: IoError| #[trigger] bind_one.ensures((a,), Err::<i32, IoError>(e))
}

/// Connecting `fd` to `a` can fail.
pub open spec fn connect_can_fail<F: Fn(i32, SocketAddress) -> Result<(), IoError>>(
    connect_one: F,
    fd: i32,
    a: SocketAddress,
) -> bool {
    exists|e: IoError| #[trigger] connect_one.ensures((fd, a), Err::<(), IoError>(e))
}

/// Every attempt before position `i` can have failed.
pub open spec fn all_failed<F: Fn(SocketAddress) -> Result<i32, IoError>>(
    addrs: Seq<SocketAddress>,
    bind_one: F,
    i: int,
) -> bool {
    forall|j: int| 0 <= j < i ==> #[trigger] bind_can_fail(bind_one, addrs[j])
}

/// Every connection attempt before position `i` can have failed.
pub open spec fn all_connects_failed<F: Fn(i32, SocketAddress) -> Result<(), IoError>>(
    fd: i32,
    addrs: Seq<SocketAddress>,
    connect_one: F,
    i: int,
) -> bool {
    forall|j: int| 0 <= j < i ==> #[trigger] connect_can_fail(connect_one, fd, addrs[j])
}

/// The datagram target of `send_to`: the first of the resolved addresses,
/// or an `InvalidInput` error when there is none.
pub fn send_to_target(addrs: &[SocketAddress]) -> (r: Result<SocketAddress, IoError>)
    ensures
        addrs@.len() == 0 ==> r == Err::<SocketAddress, IoError>(spec_no_address()),
        addrs@.len() > 0 ==> r == Ok::<SocketAddress, IoError>(addrs@[0]),
{
    if addrs.len() == 0 {
        Err(IoError { kind: IoErrorKind::InvalidInput, source: ErrorSource::NoAddresses })
    } else {
        Ok(addrs[0])
    }
}

/// How many received bytes fit into a buffer of length `room`.
pub open spec fn fitting(room: nat, data: Seq<u8>) -> nat {
    if data.len() < room {
        data.len()
    } else {
        room
    }
}

/// `buf` with the received bytes that fit put at its start.
pub open spec fn spec_copy_prefix(buf: Seq<u8>, data: Seq<u8>) -> Seq<u8> {
    data.take(fitting(buf.len(), data) as int) + buf.skip(fitting(buf.len(), data) as int)
}

/// What `try_recv` returns and leaves behind when readiness let `recv` run
/// and it returned `res`.
pub open spec fn received_into(
    s: SocketState,
    buf: Seq<u8>,
    res: Result<Vec<u8>, IoError>,
    r: Result<usize, IoError>,
    s2: SocketState,
    buf2: Seq<u8>,
) -> bool {
    let ev = spec_ready_event(s, Interest::readable());
    match res {
        Ok(data) => r == Ok::<usize, IoError>(fitting(buf.len(), data@) as usize) && s2 == s
            && buf2 == spec_copy_prefix(buf, data@),
        Err(e) => (r, s2) == spec_after_attempt(s, ev, Err::<usize, IoError>(e)) && buf2 == buf,
    }
}

/// What `try_recv_from` returns and leaves behind when readiness let
/// `recv_from` run and it returned `res`.
pub open spec fn received_from_into(
    s: SocketState,
    buf: Seq<u8>,
    res: Result<(Vec<u8>, SocketAddress), IoError>,
    r: Result<(usize, SocketAddress), IoError>,
    s2: SocketState,
    buf2: Seq<u8>,
) -> bool {
    let ev = spec_ready_event(s, Interest::readable());
    match res {
        Ok((data, from)) => r == Ok::<(usize, SocketAddress), IoError>(
            (fitting(buf.len(), data@) as usize, from),
        ) && s2 == s && buf2 == spec_copy_prefix(buf, data@),
        Err(e) => (r, s2) == spec_after_attempt(s, ev, Err::<(usize, SocketAddress), IoError>(e))
            && buf2 == buf,
    }
}

/// What `recv` returns and leaves behind when readiness let `recv` run and
/// it returned `res`.
pub open spec fn polled_copy(
    s: SocketState,
    buf: Seq<u8>,
    res: Result<Vec<u8>, IoError>,
    r: Poll<Result<usize, IoError>>,
    s2: SocketState,
    buf2: Seq<u8>,
) -> bool {
    let ev = spec_ready_event(s, Interest::readable());
    match res {
        Ok(data) => r == Poll::Ready(Ok::<usize, IoError>(fitting(buf.len(), data@) as usize))
            && s2 == s && buf2 == spec_copy_prefix(buf, data@),
        Err(e) => (r, s2) == spec_poll_step(s, ev, Err::<usize, IoError>(e)) && buf2 == buf,
    }
}

/// What `recv_from` returns and leaves behind when readiness let
/// `recv_from` run and it returned `res`.
pub open spec fn polled_copy_from(
    s: SocketState,
    buf: Seq<u8>,
    res: Result<(Vec<u8>, SocketAddress), IoError>,
    r: Poll<Result<(usize, SocketAddress), IoError>>,
    s2: SocketState,
    buf2: Seq<u8>,
) -> bool {
    let ev = spec_ready_event(s, Interest::readable());
    match res {
        Ok((data, from)) => r == Poll::Ready(
            Ok::<(usize, SocketAddress), IoError>((fitting(buf.len(), data@) as usize, from)),
        ) && s2 == s && buf2 == spec_copy_prefix(buf, data@),
        Err(e) => (r, s2) == spec_poll_step(s, ev, Err::<(usize, SocketAddress), IoError>(e))
            && buf2 == buf,
    }
}

/// What `poll_recv` returns and leaves behind when readiness let `recv` run
/// and it returned `res`: the unfilled part was initialized first either
/// way, and received bytes are put there.
pub open spec fn polled_into(
    s: SocketState,
    b: crate::io::ReadBufState,
    res: Result<Vec<u8>, IoError>,
    r: Poll<Result<(), IoError>>,
    s2: SocketState,
    b2: crate::io::ReadBufState,
) -> bool {
    let ev = spec_ready_event(s, Interest::readable());
    match res {
        Ok(data) => r == Poll::Ready(Ok::<(), IoError>(())) && s2 == s && b2 == spec_put_received(
            spec_initialize_unfilled(b),
            data@,
        ),
        Err(e) => (r, s2) == spec_poll_step(s, ev, Err::<(), IoError>(e)) && b2
            == spec_initialize_unfilled(b),
    }
}

/// What `poll_recv_from` returns and leaves behind when readiness let
/// `recv_from` run and it returned `res`.
pub open spec fn polled_from_into(
    s: SocketState,
    b: crate::io::ReadBufState,
    res: Result<(Vec<u8>, SocketAddress), IoError>,
    r: Poll<Result<SocketAddress, IoError>>,
    s2: SocketState,
    b2: crate::io::ReadBufState,
) -> bool {
    let ev = spec_ready_event(s, Interest::readable());
    match res {
        Ok((data, from)) => r == Poll::Ready(Ok::<SocketAddress, IoError>(from)) && s2 == s && b2
            == spec_put_received(spec_initialize_unfilled(b), data@),
        Err(e) => (r, s2) == spec_poll_step(s, ev, Err::<SocketAddress, IoError>(e)) && b2
            == spec_initialize_unfilled(b),
    }
}

/// The smaller of two lengths.
pub open spec fn min_len(a: int, b: int) -> int {
    if a < b {
        a
    } else {
        b
    }
}

/// `n` bytes of `data` were put at the start of `buf`, giving `buf2`, and
/// `n` is all of the datagram that fits: the datagram's length, or the
/// buffer's when the datagram is longer. The rest of the buffer is as it
/// was.
pub open spec fn copied_datagram(buf: Seq<u8>, data: Seq<u8>, n: int, buf2: Seq<u8>) -> bool {
    &&& n == min_len(data.len() as int, buf.len() as int)
    &&& buf2.len() == buf.len()
    &&& forall|i: int| 0 <= i < n ==> #[trigger] buf2[i] == data[i]
    &&& forall|i: int| n <= i < buf.len() ==> #[trigger] buf2[i] == buf[i]
}

proof fn lemma_copy_prefix_is_copied(buf: Seq<u8>, data: Seq<u8>)
    ensures
        copied_datagram(buf, data, fitting(buf.len(), data) as int, spec_copy_prefix(buf, data)),
{
    let n = fitting(buf.len(), data) as int;
    let b2 = spec_copy_prefix(buf, data);
    assert forall|i: int| 0 <= i < n implies #[trigger] b2[i] == data[i] by {}
    assert forall|i: int| n <= i < buf.len() implies #[trigger] b2[i] == buf[i] by {}
}

/// What an attempted operation gives back: a `WouldBlock` of any source
/// comes out as a plain `WouldBlock` (a poll: pending) and takes the
/// event's readable, writable, priority and error events out of the
/// readiness, keeping everything else; any other outcome comes out as it
/// is and leaves the socket as it was.
pub proof fn lemma_attempt_outcome<R>(s: SocketState, event: Ready, res: Result<R, IoError>)
    ensures
        ({
            let rd = s.readiness;
            let cleared = SocketState {
                fd: s.fd,
                shutdown: s.shutdown,
                readiness: Ready {
                    readable: rd.readable && !event.readable,
                    writable: rd.writable && !event.writable,
                    read_closed: rd.read_closed,
                    write_closed: rd.write_closed,
                    priority: rd.priority && !event.priority,
                    error: rd.error && !event.error,
                },
            };
            &&& (res matches Err(e) && e.kind == IoErrorKind::WouldBlock) ==> spec_after_attempt(
                s,
                event,
                res,
            ) == (Err::<R, IoError>(
                IoError { kind: IoErrorKind::WouldBlock, source: ErrorSource::Bare },
            ), cleared) && spec_poll_step(s, event, res) == (Poll::<Result<R, IoError>>::Pending, cleared)
            &&& !(res matches Err(e) && e.kind == IoErrorKind::WouldBlock) ==> spec_after_attempt(
                s,
                event,
                res,
            ) == (res, s) && spec_poll_step(s, event, res) == (Poll::Ready(res), s)
        }),
{
}

/// A receive into a plain buffer that gets a datagram returns how many of
/// its bytes were copied into the buffer, and copies exactly those: for
/// `try_recv`, `try_recv_from`, `recv` and `recv_from` alike, and the socket
/// state is left as it was.
pub proof fn lemma_receive_counts_copied_bytes(
    s: SocketState,
    buf: Seq<u8>,
    data: Vec<u8>,
    from: SocketAddress,
    s2: SocketState,
    buf2: Seq<u8>,
)
    requires
        buf.len() <= usize::MAX,
    ensures
        forall|r: Result<usize, IoError>|
            #[trigger] received_into(s, buf, Ok::<Vec<u8>, IoError>(data), r, s2, buf2) ==> r is Ok
                && copied_datagram(buf, data@, r->Ok_0 as int, buf2) && s2 == s,
        forall|r: Result<(usize, SocketAddress), IoError>|
            #[trigger] received_from_into(
                s,
                buf,
                Ok::<(Vec<u8>, SocketAddress), IoError>((data, from)),
                r,
                s2,
                buf2,
            ) ==> r is Ok && r->Ok_0.1 == from && copied_datagram(buf, data@, r->Ok_0.0 as int, buf2)
                && s2 == s,
        forall|r: Poll<Result<usize, IoError>>|
            #[trigger] polled_copy(s, buf, Ok::<Vec<u8>, IoError>(data), r, s2, buf2) ==> (r
                matches Poll::Ready(Ok(n)) && copied_datagram(buf, data@, n as int, buf2) && s2 == s),
        forall|r: Poll<Result<(usize, SocketAddress), IoError>>|
            #[trigger] polled_copy_from(
                s,
                buf,
                Ok::<(Vec<u8>, SocketAddress), IoError>((data, from)),
                r,
                s2,
                buf2,
            ) ==> (r matches Poll::Ready(Ok((n, a))) && a == from && copied_datagram(
                buf,
                data@,
                n as int,
                buf2,
            ) && s2 == s),
{
    lemma_copy_prefix_is_copied(buf, data@);
}

/// A polled receive into a read buffer that gets a datagram appends as much
/// of it as fits after the filled part, marks exactly that much filled,
/// and keeps the filled bytes and the buffer's size; `poll_recv_from` also
/// gives the sender.
pub proof fn lemma_polled_receive_appends(
    s: SocketState,
    b: crate::io::ReadBufState,
    data: Vec<u8>,
    from: SocketAddress,
    s2: SocketState,
    b2: crate::io::ReadBufState,
)
    requires
        b.filled <= b.initialized <= b.bytes.len(),
    ensures
        forall|r: Poll<Result<(), IoError>>|
            #[trigger] polled_into(s, b, Ok::<Vec<u8>, IoError>(data), r, s2, b2) ==> r
                == Poll::Ready(Ok::<(), IoError>(())) && s2 == s && b2.bytes.len() == b.bytes.len()
                && b2.filled == b.filled + min_len(data@.len() as int, b.bytes.len() - b.filled)
                && (forall|i: int| 0 <= i < b.filled ==> #[trigger] b2.bytes[i] == b.bytes[i])
                && (forall|i: int|
                b.filled <= i < b2.filled ==> #[trigger] b2.bytes[i] == data@[i - b.filled]),
        forall|r: Poll<Result<SocketAddress, IoError>>|
            #[trigger] polled_from_into(
                s,
                b,
                Ok::<(Vec<u8>, SocketAddress), IoError>((data, from)),
                r,
                s2,
                b2,
            ) ==> r == Poll::Ready(Ok::<SocketAddress, IoError>(from)) && s2 == s && b2.bytes.len()
                == b.bytes.len() && b2.filled == b.filled + min_len(
                data@.len() as int,
                b.bytes.len() - b.filled,
            ) && (forall|i: int| 0 <= i < b.filled ==> #[trigger] b2.bytes[i] == b.bytes[i]) && (
            forall|i: int| b.filled <= i < b2.filled ==> #[trigger] b2.bytes[i] == data@[i
                - b.filled]),
{
}

/// Waiting for readiness reports only the events that the interest names,
/// each exactly as the reactor reported it (a closed read direction counts
/// for reading and priority, a closed write direction for writing); the
/// poll is pending exactly while none of them is reported and the reactor
/// is not shutting down.
pub proof fn lemma_ready_reports_named_events(s: SocketState, interest: Interest)
    ensures
        ({
            let rd = s.readiness;
            let any = (interest.readable && rd.readable) || (interest.writable && rd.writable) || (
            interest.priority && rd.priority) || (interest.error && rd.error) || ((interest.readable
                || interest.priority) && rd.read_closed) || (interest.writable && rd.write_closed);
            &&& s.shutdown ==> spec_poll_ready(s, interest) == Poll::Ready(
                Err::<Ready, IoError>(spec_gone()),
            )
            &&& !s.shutdown && !any ==> spec_poll_ready(s, interest) is Pending
            &&& !s.shutdown && any ==> spec_poll_ready(s, interest) == Poll::Ready(
                Ok::<Ready, IoError>(
                    Ready {
                        readable: interest.readable && rd.readable,
                        writable: interest.writable && rd.writable,
                        read_closed: (interest.readable || interest.priority) && rd.read_closed,
                        write_closed: interest.writable && rd.write_closed,
                        priority: interest.priority && rd.priority,
                        error: interest.error && rd.error,
                    },
                ),
            )
        }),
{
}

/// The readiness an operation can use now: for reading, the reported read
/// and read-closed events; for writing, the write and write-closed events;
/// for priority, the priority and read-closed events; for errors, the error
/// event; nothing for an interest that names several kinds or none.
pub proof fn lemma_ready_event_by_interest(s: SocketState, interest: Interest)
    ensures
        ({
            let rd = s.readiness;
            let ev = spec_ready_event(s, interest);
            let none = Ready {
                readable: false,
                writable: false,
                read_closed: false,
                write_closed: false,
                priority: false,
                error: false,
            };
            &&& interest == Interest::readable() ==> ev == Ready {
                readable: rd.readable,
                read_closed: rd.read_closed,
                ..none
            }
            &&& interest == Interest::writable() ==> ev == Ready {
                writable: rd.writable,
                write_closed: rd.write_closed,
                ..none
            }
            &&& interest == Interest::priority() ==> ev == Ready {
                priority: rd.priority,
                read_closed: rd.read_closed,
                ..none
            }
            &&& interest == Interest::error() ==> ev == Ready { error: rd.error, ..none }
            &&& interest != Interest::readable() && interest != Interest::writable() && interest
                != Interest::priority() && interest != Interest::error() ==> ev == none
        }),
{
}

/// Puts as many of `data` as fit at the start of `buf`; returns how many.
fn copy_prefix(buf: &mut Vec<u8>, data: &[u8]) -> (n: usize)
    ensures
        n == fitting(old(buf)@.len(), data@),
        final(buf)@ == spec_copy_prefix(old(buf)@, data@),
{
    let n = if data.len() < buf.len() {
        data.len()
    } else {
        buf.len()
    };
    let ghost start = buf@;
    let mut i: usize = 0;
    while i < n
        invariant
            i <= n,
            n <= data@.len(),
            n <= start.len(),
            buf@.len() == start.len(),
            buf@ =~= data@.take(i as int) + start.skip(i as int),
        decreases n - i,
    {
        buf.set(i, data[i]);
        i = i + 1;
    }
    n
}

} // verus!
