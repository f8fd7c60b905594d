//! The QUIC side of the socket: the single-datagram UDP socket handed to the
//! QUIC endpoint, and the TLS settings of the client.

use vstd::prelude::*;
use crate::address::SocketAddress;
use crate::text::{decode_utf8_lossy, utf8_lossy};
use crate::io::{is_would_block, spec_gone, spec_would_block, Interest, IoError, Poll, ReadBuf};
use crate::udp::{
    fitting, poll_allows, spec_after_attempt, spec_cleared, spec_copy_prefix, spec_poll_refused,
    spec_ready_event, SocketState, UdpSocket,
};

verus! {

/// What is known of a received datagram: its sender, its length, and the
/// stride of its segments (the whole datagram, as there is one segment). No
/// ECN codepoint and no destination address are reported.
#[derive(Clone, Copy, Debug, PartialEq, Eq, Structural)]
pub struct RecvMeta {
    pub addr: SocketAddress,
    pub len: usize,
    pub stride: usize,
}

/// The UDP socket of the QUIC endpoint: one datagram per send and per
/// receive, without segmentation offload.
pub struct EmscriptenUdp {
    sock: UdpSocket,
}

/// Whether two lists of buffers hold the same bytes.
pub open spec fn same_bytes(a: Seq<Vec<u8>>, b: Seq<Vec<u8>>) -> bool {
    a.len() == b.len() && forall|i: int| 0 <= i < a.len() ==> (#[trigger] a[i])@ == b[i]@
}

/// The outcome of receiving datagrams for the QUIC endpoint when readiness
/// let `recv_from` run and it returned `res`.
pub open spec fn spec_recv_outcome(
    s: SocketState,
    bufs: Seq<Vec<u8>>,
    meta: Seq<RecvMeta>,
    res: Result<(Vec<u8>, SocketAddress), IoError>,
    r: Poll<Result<usize, IoError>>,
    s2: SocketState,
    bufs2: Seq<Vec<u8>>,
    meta2: Seq<RecvMeta>,
) -> bool {
    match res {
        Ok((data, from)) => {
            let n = fitting(bufs[0]@.len(), data@) as usize;
            &&& r == Poll::Ready(Ok::<usize, IoError>(1))
            &&& s2 == s
            &&& bufs2.len() == bufs.len()
            &&& bufs2[0]@ == spec_copy_prefix(bufs[0]@, data@)
            &&& forall|i: int| 1 <= i < bufs.len() ==> #[trigger] bufs2[i] == bufs[i]
            &&& meta2 == meta.update(0, RecvMeta { addr: from, len: n, stride: n })
        },
        Err(e) => {
            &&& if is_would_block(res) {
                r is Pending && s2 == spec_cleared(s, spec_ready_event(s, Interest::readable()))
            } else {
                r == Poll::Ready(Err::<usize, IoError>(e)) && s2 == s
            }
            &&& same_bytes(bufs2, bufs)
            &&& meta2 == meta
        },
    }
}

impl EmscriptenUdp {
    /// Wraps a registered socket.
    pub fn new(sock: UdpSocket) -> (r: EmscriptenUdp)
        ensures
            r.state() == sock@,
    {
        EmscriptenUdp { sock }
    }

    /// The wrapped socket.
    pub fn socket(&self) -> (r: &UdpSocket)
        ensures
            r@ == self.state(),
    {
        &self.sock
    }

    /// The state of the wrapped socket.
    pub closed spec fn state(&self) -> SocketState {
        self.sock@
    }

    /// The wrapped socket, to be changed in place, as when the reactor
    /// reports a readiness event for it.
    pub fn socket_mut(&mut self) -> (r: &mut UdpSocket)
        ensures
            r@ == old(self).state(),
            final(self).state() == final(r)@,
    {
        &mut self.sock
    }

    /// Sends one datagram to its destination without waiting; what was sent
    /// is not reported, only whether it was.
    pub fn try_send<F: FnOnce(&[u8], SocketAddress) -> Result<usize, IoError>>(
        &mut self,
        contents: &[u8],
        destination: SocketAddress,
        send_to: F,
    ) -> (r: Result<(), IoError>)
        requires
            !crate::io::ready_is_empty(spec_ready_event(old(self).state(), Interest::writable()))
                ==> send_to.requires((contents, destination)),
        ensures
            crate::io::ready_is_empty(spec_ready_event(old(self).state(), Interest::writable()))
                ==> r == Err::<(), IoError>(spec_would_block()) && final(self).state() == old(self).state(),
            !crate::io::ready_is_empty(spec_ready_event(old(self).state(), Interest::writable()))
                ==> exists|res: Result<usize, IoError>|
                #[trigger] send_to.ensures((contents, destination), res) && ({
                    let (r2, s2) = spec_after_attempt(
                        old(self).state(),
                        spec_ready_event(old(self).state(), Interest::writable()),
                        res,
                    );
                    &&& final(self).state() == s2
                    &&& (r2 is Ok <==> r is Ok)
                    &&& (r2 matches Err(e) ==> r == Err::<(), IoError>(e))
                }),
    {
        match self.sock.try_send_to(contents, destination, send_to) {
            Ok(_) => Ok(()),
            Err(e) => Err(e),
        }
    }

    /// Receives at most one datagram into the first buffer, and describes it
    /// in the first metadata slot. With no buffer there is nothing to
    /// receive and the count is 0; otherwise a received datagram counts 1.
    pub fn poll_recv<F: FnOnce(usize) -> Result<(Vec<u8>, SocketAddress), IoError>>(
        &mut self,
        bufs: &mut Vec<Vec<u8>>,
        meta: &mut Vec<RecvMeta>,
        recv_from: F,
    ) -> (r: Poll<Result<usize, IoError>>)
        requires
            old(bufs)@.len() > 0 ==> old(meta)@.len() > 0,
            old(bufs)@.len() > 0 && poll_allows(old(self).state(), Interest::readable())
                ==> recv_from.requires((old(bufs)@[0]@.len() as usize,)),
        ensures
            old(bufs)@.len() == 0 ==> r == Poll::Ready(Ok::<usize, IoError>(0)) && final(self).state()
                == old(self).state() && final(bufs)@ == old(bufs)@ && final(meta)@ == old(meta)@,
            old(bufs)@.len() > 0 && !poll_allows(old(self).state(), Interest::readable()) ==> r
                == spec_poll_refused::<usize>(old(self).state()) && final(self).state() == old(self).state()
                && same_bytes(final(bufs)@, old(bufs)@) && final(meta)@ == old(meta)@,
            old(bufs)@.len() > 0 && poll_allows(old(self).state(), Interest::readable()) ==> exists|
                res: Result<(Vec<u8>, SocketAddress), IoError>,
            |
                #[trigger] recv_from.ensures((old(bufs)@[0]@.len() as usize,), res)
                    && spec_recv_outcome(
                    old(self).state(),
                    old(bufs)@,
                    old(meta)@,
                    res,
                    r,
                    final(self).state(),
                    final(bufs)@,
                    final(meta)@,
                ),
    {
        if bufs.len() == 0 {
            return Poll::Ready(Ok(0));
        }
        let ghost old_bufs = bufs@;
        let first = bufs.remove(0);
        let mut rb = ReadBuf::new(first);
        let res = self.sock.poll_recv_from(&mut rb, recv_from);
        let filled_len = rb.filled().len();
        let back = rb.into_inner();
        bufs.insert(0, back);
        proof {
            assert(bufs@.len() == old_bufs.len());
            assert forall|i: int| 1 <= i < old_bufs.len() implies #[trigger] bufs@[i]
                == old_bufs[i] by {
                assert(bufs@[i] == old_bufs.remove(0)[i - 1]);
            }
            assert(old_bufs[0]@.take(old_bufs[0]@.len() as int) + crate::io::zeros(0)
                =~= old_bufs[0]@);
        }
        match res {
            Poll::Ready(Ok(from)) => {
                meta.set(0, RecvMeta { addr: from, len: filled_len, stride: filled_len });
                Poll::Ready(Ok(1))
            },
            Poll::Ready(Err(e)) => Poll::Ready(Err(e)),
            Poll::Pending => Poll::Pending,
        }
    }

    /// Polls whether a datagram can be sent.
    pub fn poll_writable(&self) -> (r: Poll<Result<(), IoError>>)
        ensures
            self.state().shutdown ==> r == Poll::Ready(Err::<(), IoError>(spec_gone())),
            !self.state().shutdown && crate::io::ready_is_empty(
                spec_ready_event(self.state(), Interest::writable()),
            ) ==> r is Pending,
            poll_allows(self.state(), Interest::writable()) ==> r == Poll::Ready(
                Ok::<(), IoError>(()),
            ),
    {
        self.sock.poll_send_ready()
    }

    /// The local address of the socket, as `query` reads it.
    pub fn local_addr<F: FnOnce(i32) -> Result<SocketAddress, IoError>>(&self, query: F) -> (r:
        Result<SocketAddress, IoError>)
        requires
            query.requires((self.state().fd,)),
        ensures
            query.ensures((self.state().fd,), r),
    {
        self.sock.local_addr(query)
    }

    /// How many segments one send may carry: one.
    pub fn max_transmit_segments(&self) -> (r: usize)
        ensures
            r == 1,
    {
        1
    }

    /// How many segments one receive may carry: one.
    pub fn max_receive_segments(&self) -> (r: usize)
        ensures
            r == 1,
    {
        1
    }

    /// Whether sent datagrams may be fragmented: no.
    pub fn may_fragment(&self) -> (r: bool)
        ensures
            !r,
    {
        false
    }
}

/// Whether the server's certificate chain is verified against the public
/// root store. Off: behind a TLS-inspecting proxy the chain ends in a private
/// authority; the handshake signature is still checked either way.
pub const STRICT_VERIFY: bool = false;

/// How the server's certificate is checked.
#[derive(Clone, Copy, Debug, PartialEq, Eq, Structural)]
pub enum CertificatePolicy {
    /// The chain must lead to one of the public trust anchors.
    TrustAnchors,
    /// Any chain is accepted; the handshake signature is still verified
    /// with the leaf's key.
    AcceptChainCheckSignature,
}

/// The certificate policy for the `strict` setting.
pub fn certificate_policy(strict: bool) -> (r: CertificatePolicy)
    ensures
        strict ==> r == CertificatePolicy::TrustAnchors,
        !strict ==> r == CertificatePolicy::AcceptChainCheckSignature,
{
    if strict {
        CertificatePolicy::TrustAnchors
    } else {
        CertificatePolicy::AcceptChainCheckSignature
    }
}

/// The decision on a presented certificate chain under the accepting
/// policy: every chain is accepted.
pub fn accept_server_certificate(leaf_len: usize, intermediates: usize) -> (r: bool)
    ensures
        r,
{
    true
}

/// The application protocols offered in the TLS handshake: HTTP/3 (`h3`).
pub fn alpn_protocols() -> (r: Vec<Vec<u8>>)
    ensures
        r@.len() == 1,
        r@[0]@ == seq![104u8, 51u8],
{
    let mut h3: Vec<u8> = Vec::new();
    h3.push(104u8);
    h3.push(51u8);
    let mut v: Vec<Vec<u8>> = Vec::new();
    v.push(h3);
    v
}

/// The negotiated application protocol as text: the protocol name decoded
/// with invalid UTF-8 replaced, or empty when none was negotiated.
pub fn alpn_text(protocol: Option<&[u8]>) -> (r: String)
    ensures
        r@ == match protocol {
            Some(p) => utf8_lossy(p@),
            None => Seq::<char>::empty(),
        },
{
    match protocol {
        Some(p) => decode_utf8_lossy(p),
        None => String::new(),
    }
}

} // verus!
