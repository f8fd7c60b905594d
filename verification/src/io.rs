//! I/O vocabulary of the reactor-backed socket: errors, poll results,
//! readiness sets, interests, and the read buffer that receives fill.

use vstd::prelude::*;

verus! {

/// The kind of an I/O error, as `std::io::ErrorKind` names it.
#[derive(Clone, Copy, Debug, PartialEq, Eq, Structural)]
pub enum IoErrorKind {
    NotFound,
    PermissionDenied,
    ConnectionRefused,
    ConnectionReset,
    ConnectionAborted,
    NotConnected,
    AddrInUse,
    AddrNotAvailable,
    BrokenPipe,
    AlreadyExists,
    WouldBlock,
    InvalidInput,
    InvalidData,
    TimedOut,
    Interrupted,
    Unsupported,
    Other,
}

/// Where an I/O error comes from: the operating system (with its error
/// code), one of the socket's own refusals, or nowhere in particular.
#[derive(Clone, Copy, Debug, PartialEq, Eq, Structural)]
pub enum ErrorSource {
    /// An error code of the operating system.
    Os { code: i32 },
    /// `bind` was given no address ("no addresses to bind to").
    NoAddressesToBind,
    /// `connect` was given no address ("no addresses to connect to").
    NoAddressesToConnect,
    /// `send_to` was given no address ("no addresses").
    NoAddresses,
    /// The reactor that drives the socket is shutting down.
    RuntimeShuttingDown,
    /// An error made from its kind alone.
    Bare,
}

/// An I/O error: its kind and where it comes from.
#[derive(Clone, Copy, Debug, PartialEq, Eq, Structural)]
pub struct IoError {
    pub kind: IoErrorKind,
    pub source: ErrorSource,
}

/// The error that says an operation would have to wait.
pub open spec fn spec_would_block() -> IoError {
    IoError { kind: IoErrorKind::WouldBlock, source: ErrorSource::Bare }
}

/// The error a socket reports once its reactor is shutting down.
pub open spec fn spec_gone() -> IoError {
    IoError { kind: IoErrorKind::Other, source: ErrorSource::RuntimeShuttingDown }
}

/// Whether `r` is an error of kind `WouldBlock`.
pub open spec fn is_would_block<R>(r: Result<R, IoError>) -> bool {
    r matches Err(e) && e.kind == IoErrorKind::WouldBlock
}

impl IoError {
    /// An error of kind `WouldBlock`, made from its kind alone.
    pub fn would_block() -> (r: IoError)
        ensures
            r == spec_would_block(),
    {
        IoError { kind: IoErrorKind::WouldBlock, source: ErrorSource::Bare }
    }

    /// The error of a socket whose reactor is shutting down.
    pub fn gone() -> (r: IoError)
        ensures
            r == spec_gone(),
    {
        IoError { kind: IoErrorKind::Other, source: ErrorSource::RuntimeShuttingDown }
    }

    /// Whether this error says that the operation would have to wait.
    pub fn is_would_block(&self) -> (r: bool)
        ensures
            r == (self.kind == IoErrorKind::WouldBlock),
    {
        match self.kind {
            IoErrorKind::WouldBlock => true,
            _ => false,
        }
    }
}

/// The outcome of polling: a value now, or not yet.
#[derive(Debug)]
pub enum Poll<T> {
    Ready(T),
    Pending,
}

/// A readiness set of the reactor: which events it has seen for a socket.
#[derive(Clone, Copy, Debug, PartialEq, Eq, Structural)]
pub struct Ready {
    pub readable: bool,
    pub writable: bool,
    pub read_closed: bool,
    pub write_closed: bool,
    pub priority: bool,
    pub error: bool,
}

/// The empty readiness set.
pub open spec fn spec_empty_ready() -> Ready {
    Ready {
        readable: false,
        writable: false,
        read_closed: false,
        write_closed: false,
        priority: false,
        error: false,
    }
}

/// Whether a readiness set holds no event.
pub open spec fn ready_is_empty(r: Ready) -> bool {
    !r.readable && !r.writable && !r.read_closed && !r.write_closed && !r.priority && !r.error
}

/// The events that are in both sets.
pub open spec fn ready_and(a: Ready, b: Ready) -> Ready {
    Ready {
        readable: a.readable && b.readable,
        writable: a.writable && b.writable,
        read_closed: a.read_closed && b.read_closed,
        write_closed: a.write_closed && b.write_closed,
        priority: a.priority && b.priority,
        error: a.error && b.error,
    }
}

/// The events that are in either set.
pub open spec fn ready_or(a: Ready, b: Ready) -> Ready {
    Ready {
        readable: a.readable || b.readable,
        writable: a.writable || b.writable,
        read_closed: a.read_closed || b.read_closed,
        write_closed: a.write_closed || b.write_closed,
        priority: a.priority || b.priority,
        error: a.error || b.error,
    }
}

/// `a` without the events of `b`, except that the closed events stay: they
/// are final.
pub open spec fn ready_clear(a: Ready, b: Ready) -> Ready {
    Ready {
        readable: a.readable && !b.readable,
        writable: a.writable && !b.writable,
        read_closed: a.read_closed,
        write_closed: a.write_closed,
        priority: a.priority && !b.priority,
        error: a.error && !b.error,
    }
}

impl Ready {
    /// The empty readiness set.
    pub fn empty() -> (r: Ready)
        ensures
            r == spec_empty_ready(),
    {
        Ready {
            readable: false,
            writable: false,
            read_closed: false,
            write_closed: false,
            priority: false,
            error: false,
        }
    }

    /// Whether the set holds no event.
    pub fn is_empty(&self) -> (r: bool)
        ensures
            r == ready_is_empty(*self),
    {
        !self.readable && !self.writable && !self.read_closed && !self.write_closed
            && !self.priority && !self.error
    }

    /// The events in both sets.
    pub fn and(&self, other: &Ready) -> (r: Ready)
        ensures
            r == ready_and(*self, *other),
    {
        Ready {
            readable: self.readable && other.readable,
            writable: self.writable && other.writable,
            read_closed: self.read_closed && other.read_closed,
            write_closed: self.write_closed && other.write_closed,
            priority: self.priority && other.priority,
            error: self.error && other.error,
        }
    }

    /// The events in either set.
    pub fn or(&self, other: &Ready) -> (r: Ready)
        ensures
            r == ready_or(*self, *other),
    {
        Ready {
            readable: self.readable || other.readable,
            writable: self.writable || other.writable,
            read_closed: self.read_closed || other.read_closed,
            write_closed: self.write_closed || other.write_closed,
            priority: self.priority || other.priority,
            error: self.error || other.error,
        }
    }

    /// This set without the events of `other`, closed events excepted.
    pub fn clear(&self, other: &Ready) -> (r: Ready)
        ensures
            r == ready_clear(*self, *other),
    {
        Ready {
            readable: self.readable && !other.readable,
            writable: self.writable && !other.writable,
            read_closed: self.read_closed,
            write_closed: self.write_closed,
            priority: self.priority && !other.priority,
            error: self.error && !other.error,
        }
    }
}

/// What an operation waits for: any of the events it names. Interests
/// combine with `add`.
#[derive(Clone, Copy, Debug, PartialEq, Eq, Structural)]
pub struct Interest {
    pub readable: bool,
    pub writable: bool,
    pub priority: bool,
    pub error: bool,
}

/// Both interests.
pub open spec fn interest_add(a: Interest, b: Interest) -> Interest {
    Interest {
        readable: a.readable || b.readable,
        writable: a.writable || b.writable,
        priority: a.priority || b.priority,
        error: a.error || b.error,
    }
}

/// The events that a single interest reads from the current readiness: a
/// closed direction satisfies the interest in that direction, since the
/// operation will then not wait. An interest that names several kinds of
/// event, or none, reads nothing here.
pub open spec fn interest_mask(i: Interest) -> Ready {
    if i == Interest::spec_readable() {
        Ready { readable: true, read_closed: true, ..spec_empty_ready() }
    } else if i == Interest::spec_writable() {
        Ready { writable: true, write_closed: true, ..spec_empty_ready() }
    } else if i == Interest::spec_priority() {
        Ready { priority: true, read_closed: true, ..spec_empty_ready() }
    } else if i == Interest::spec_error() {
        Ready { error: true, ..spec_empty_ready() }
    } else {
        spec_empty_ready()
    }
}

/// The events that satisfy an interest when waiting for readiness: those of
/// each kind that it names.
pub open spec fn interest_events(i: Interest) -> Ready {
    Ready {
        readable: i.readable,
        writable: i.writable,
        read_closed: i.readable || i.priority,
        write_closed: i.writable,
        priority: i.priority,
        error: i.error,
    }
}

impl Interest {
    /// The interest in readable events alone.
    pub open spec fn spec_readable() -> Interest {
        Interest { readable: true, writable: false, priority: false, error: false }
    }

    /// The interest in reading.
    #[verifier::when_used_as_spec(spec_readable)]
    pub fn readable() -> (r: Interest)
        ensures
            r == Interest::spec_readable(),
    {
        Interest { readable: true, writable: false, priority: false, error: false }
    }

    /// The interest in writable events alone.
    pub open spec fn spec_writable() -> Interest {
        Interest { readable: false, writable: true, priority: false, error: false }
    }

    /// The interest in writing.
    #[verifier::when_used_as_spec(spec_writable)]
    pub fn writable() -> (r: Interest)
        ensures
            r == Interest::spec_writable(),
    {
        Interest { readable: false, writable: true, priority: false, error: false }
    }

    /// The interest in priority events alone.
    pub open spec fn spec_priority() -> Interest {
        Interest { readable: false, writable: false, priority: true, error: false }
    }

    /// The interest in priority events.
    #[verifier::when_used_as_spec(spec_priority)]
    pub fn priority() -> (r: Interest)
        ensures
            r == Interest::spec_priority(),
    {
        Interest { readable: false, writable: false, priority: true, error: false }
    }

    /// The interest in error events alone.
    pub open spec fn spec_error() -> Interest {
        Interest { readable: false, writable: false, priority: false, error: true }
    }

    /// The interest in error events.
    #[verifier::when_used_as_spec(spec_error)]
    pub fn error() -> (r: Interest)
        ensures
            r == Interest::spec_error(),
    {
        Interest { readable: false, writable: false, priority: false, error: true }
    }

    /// This interest and `other` together.
    pub fn add(self, other: Interest) -> (r: Interest)
        ensures
            r == interest_add(self, other),
    {
        Interest {
            readable: self.readable || other.readable,
            writable: self.writable || other.writable,
            priority: self.priority || other.priority,
            error: self.error || other.error,
        }
    }

    /// The events that this interest reads from the current readiness when
    /// it is a single interest; none otherwise.
    pub fn mask(&self) -> (r: Ready)
        ensures
            r == interest_mask(*self),
    {
        let e = Ready::empty();
        let one_kind = (self.readable as u8) + (self.writable as u8) + (self.priority as u8)
            + (self.error as u8) == 1;
        if !one_kind {
            e
        } else if self.readable {
            Ready { readable: true, read_closed: true, ..e }
        } else if self.writable {
            Ready { writable: true, write_closed: true, ..e }
        } else if self.priority {
            Ready { priority: true, read_closed: true, ..e }
        } else {
            Ready { error: true, ..e }
        }
    }

    /// The events that satisfy this interest when waiting for readiness.
    pub fn events(&self) -> (r: Ready)
        ensures
            r == interest_events(*self),
    {
        Ready {
            readable: self.readable,
            writable: self.writable,
            read_closed: self.readable || self.priority,
            write_closed: self.writable,
            priority: self.priority,
            error: self.error,
        }
    }
}

/// A read buffer as a value: its bytes, how many are filled, and how many
/// are initialized.
pub struct ReadBufState {
    pub bytes: Seq<u8>,
    pub filled: nat,
    pub initialized: nat,
}

/// A buffer that a receive fills from the front: the first `filled` bytes
/// hold data, the first `initialized` bytes hold defined values.
pub struct ReadBuf {
    buf: Vec<u8>,
    filled: usize,
    initialized: usize,
}

impl View for ReadBuf {
    type V = ReadBufState;

    closed spec fn view(&self) -> ReadBufState {
        ReadBufState {
            bytes: self.buf@,
            filled: self.filled as nat,
            initialized: self.initialized as nat,
        }
    }
}

/// `n` zero bytes.
pub open spec fn zeros(n: int) -> Seq<u8> {
    Seq::new(n as nat, |i: int| 0u8)
}

/// How many bytes of a received datagram fit in the unfilled part.
pub open spec fn received_len(b: ReadBufState, data: Seq<u8>) -> nat {
    let room = b.bytes.len() - b.filled;
    if data.len() < room {
        data.len()
    } else {
        room as nat
    }
}

/// The buffer after its unfilled part was initialized with zeros.
pub open spec fn spec_initialize_unfilled(b: ReadBufState) -> ReadBufState {
    ReadBufState {
        bytes: b.bytes.take(b.initialized as int) + zeros(b.bytes.len() - b.initialized),
        filled: b.filled,
        initialized: b.bytes.len(),
    }
}

/// The buffer after a received datagram was put in its (initialized)
/// unfilled part.
pub open spec fn spec_put_received(b: ReadBufState, data: Seq<u8>) -> ReadBufState {
    let n = received_len(b, data);
    ReadBufState {
        bytes: b.bytes.take(b.filled as int) + data.take(n as int) + b.bytes.skip((b.filled + n) as int),
        filled: b.filled + n,
        initialized: b.initialized,
    }
}

impl ReadBuf {
    /// `filled <= initialized <= capacity`.
    pub open spec fn wf(&self) -> bool {
        self@.filled <= self@.initialized <= self@.bytes.len()
    }

    /// A buffer over `buf`, all of whose bytes are initialized and none
    /// filled.
    pub fn new(buf: Vec<u8>) -> (r: ReadBuf)
        ensures
            r.wf(),
            r@.bytes == buf@,
            r@.filled == 0,
            r@.initialized == buf@.len(),
    {
        let n = buf.len();
        ReadBuf { buf, filled: 0, initialized: n }
    }

    /// How many bytes the buffer holds in all.
    pub fn capacity(&self) -> (r: usize)
        ensures
            r == self@.bytes.len(),
    {
        self.buf.len()
    }

    /// How many bytes can still be filled.
    pub fn remaining(&self) -> (r: usize)
        requires
            self.wf(),
        ensures
            r == self@.bytes.len() - self@.filled,
    {
        self.buf.len() - self.filled
    }

    /// The filled bytes.
    pub fn filled(&self) -> (r: &[u8])
        requires
            self.wf(),
        ensures
            r@ == self@.bytes.take(self@.filled as int),
    {
        vstd::slice::slice_subrange(self.buf.as_slice(), 0, self.filled)
    }

    /// Zeroes the bytes that are not yet initialized, so that all of the
    /// unfilled part can be handed to a receive.
    pub fn initialize_unfilled(&mut self)
        requires
            old(self).wf(),
        ensures
            final(self).wf(),
            final(self)@.filled == old(self)@.filled,
            final(self)@.initialized == old(self)@.bytes.len(),
            final(self)@.bytes == old(self)@.bytes.take(old(self)@.initialized as int) + zeros(
                old(self)@.bytes.len() - old(self)@.initialized,
            ),
            final(self)@ == spec_initialize_unfilled(old(self)@),
            final(self)@.bytes.len() == old(self)@.bytes.len(),
    {
        let n = self.buf.len();
        let mut i = self.initialized;
        let ghost start = self.buf@;
        while i < n
            invariant
                old(self).initialized <= i <= n,
                n == self.buf@.len(),
                start == old(self)@.bytes,
                start.len() == n,
                self.filled == old(self).filled,
                self.initialized == old(self).initialized,
                self.buf@ =~= start.take(old(self).initialized as int) + zeros(
                    i - old(self).initialized,
                ) + start.subrange(i as int, n as int),
            decreases n - i,
        {
            let ghost before = self.buf@;
            self.buf.set(i, 0u8);
            proof {
                let a = start.take(old(self).initialized as int);
                assert(zeros(i + 1 - old(self).initialized) =~= zeros(
                    i - old(self).initialized,
                ).push(0u8));
                assert(start.subrange(i as int, n as int) =~= seq![start[i as int]]
                    + start.subrange(i + 1, n as int));
                assert(self.buf@ =~= a + zeros(i + 1 - old(self).initialized) + start.subrange(
                    i + 1,
                    n as int,
                ));
            }
            i = i + 1;
        }
        assert(start.subrange(n as int, n as int) =~= Seq::<u8>::empty());
        self.initialized = n;
    }

    /// Writes `data` at the start of the unfilled part, which must be
    /// initialized and large enough.
    pub fn write_unfilled(&mut self, data: &[u8])
        requires
            old(self).wf(),
            old(self)@.initialized == old(self)@.bytes.len(),
            old(self)@.filled + data@.len() <= old(self)@.bytes.len(),
        ensures
            final(self).wf(),
            final(self)@.filled == old(self)@.filled,
            final(self)@.initialized == old(self)@.initialized,
            final(self)@.bytes == old(self)@.bytes.take(old(self)@.filled as int) + data@
                + old(self)@.bytes.skip((old(self)@.filled + data@.len()) as int),
    {
        let ghost start = self.buf@;
        let base = self.filled;
        let mut i: usize = 0;
        while i < data.len()
            invariant
                i <= data@.len(),
                base == self.filled,
                self.filled == old(self).filled,
                self.initialized == old(self).initialized,
                self.initialized == self.buf@.len(),
                start == old(self)@.bytes,
                self.buf@.len() == start.len(),
                base + data@.len() <= start.len(),
                self.buf@ =~= start.take(base as int) + data@.take(i as int) + start.skip(
                    base + i,
                ),
            decreases data@.len() - i,
        {
            self.buf.set(base + i, data[i]);
            i = i + 1;
        }
    }

    /// Marks `n` more bytes as filled.
    pub fn advance(&mut self, n: usize)
        requires
            old(self).wf(),
            old(self)@.filled + n <= old(self)@.initialized,
        ensures
            final(self).wf(),
            final(self)@.filled == old(self)@.filled + n,
            final(self)@.initialized == old(self)@.initialized,
            final(self)@.bytes == old(self)@.bytes,
    {
        self.filled = self.filled + n;
    }

    /// Puts a received datagram into the unfilled part, which must be
    /// initialized: as much of it as fits, and marks that much filled.
    /// Returns how many bytes were put.
    pub fn put_received(&mut self, data: &[u8]) -> (n: usize)
        requires
            old(self).wf(),
            old(self)@.initialized == old(self)@.bytes.len(),
        ensures
            final(self).wf(),
            final(self)@ == spec_put_received(old(self)@, data@),
            n == received_len(old(self)@, data@),
    {
        let room = self.buf.len() - self.filled;
        let n = if data.len() < room {
            data.len()
        } else {
            room
        };
        let part = vstd::slice::slice_subrange(data, 0, n);
        self.write_unfilled(part);
        self.advance(n);
        n
    }

    /// Gives back the underlying bytes.
    pub fn into_inner(self) -> (r: Vec<u8>)
        ensures
            r@ == self@.bytes,
    {
        self.buf
    }
}


} // verus!
