//! Unix domain sockets.

use vstd::prelude::*;
use vstd::slice::slice_subrange;

use crate::errno::{Errno, EWOULDBLOCK};
#[allow(unused_imports)]
use crate::fs::transfer_len;
use crate::fs::{Inode, InodeData, Stream};
use crate::le::copy_at;
#[allow(unused_imports)]
use crate::le::splice;
#[allow(unused_imports)]
use crate::socket::{zeros, SOCKET_STORAGE_SIZE};
use crate::socket::{least, Message, SocketAddr};

verus! {

/// The maximum number of pending messages that we allow before we start
/// overwriting data.
pub const MAX_QUEUED_DGRAMS: usize = 16;

/// A datagram socket: a ring of messages, received from `recv_index` on.
#[derive(Clone)]
pub struct UnixDgram {
    pub recv_index: usize,
    pub buf: [Vec<u8>; MAX_QUEUED_DGRAMS],
    pub socket_addr: SocketAddr,
}

/// A stream socket.
#[derive(Clone)]
pub struct UnixStream {
    pub stream: Stream,
    pub socket_addr: SocketAddr,
}

/// The slot after `i` in the ring.
pub open spec fn next_slot(i: int) -> int {
    (i + 1) % (MAX_QUEUED_DGRAMS as int)
}

/// What receiving a datagram does: the message in the current slot, cut off
/// where the guest's buffer ends, goes to the start of the buffer, its slot is
/// emptied, and the next slot becomes current. An empty slot holds no message:
/// then nothing changes.
pub open spec fn dgram_received(
    before: UnixDgram,
    after: UnixDgram,
    buf: Seq<u8>,
    buf_after: Seq<u8>,
    r: Result<usize, Errno>,
) -> bool {
    let message = before.slots()[before.recv_index as int];
    if message.len() == 0 {
        &&& r == Err::<usize, Errno>(EWOULDBLOCK)
        &&& after == before
        &&& buf_after == buf
    } else {
        let n = transfer_len(message.len(), buf.len()) as int;
        &&& r matches Ok(m) && m == n
        &&& buf_after == splice(buf, 0, message.take(n))
        &&& after.slots() == before.slots().update(before.recv_index as int, Seq::empty())
        &&& after.recv_index == next_slot(before.recv_index as int)
        &&& after.socket_addr == before.socket_addr
    }
}

impl UnixDgram {
    /// The current slot is one of the ring.
    pub open spec fn wf(self) -> bool {
        self.recv_index < MAX_QUEUED_DGRAMS
    }

    /// The messages, slot by slot.
    pub open spec fn slots(self) -> Seq<Seq<u8>> {
        Seq::new(MAX_QUEUED_DGRAMS as nat, |i: int| self.buf[i]@)
    }

    /// The messages in the order in which they are received.
    pub open spec fn queue(self) -> Seq<Seq<u8>> {
        Seq::new(
            MAX_QUEUED_DGRAMS as nat,
            |k: int| self.slots()[(self.recv_index + k) % (MAX_QUEUED_DGRAMS as int)],
        )
    }

    /// Receives the next datagram.
    pub fn recvfrom(inode: &mut Inode, msg: &mut Message) -> (r: Result<usize, Errno>)
        requires
            old(inode).data is UnixDgram,
            old(inode).data->UnixDgram_0.wf(),
        ensures
            final(inode).data is UnixDgram,
            *final(inode) == (Inode { data: final(inode).data, ..*old(inode) }),
            final(inode).data->UnixDgram_0.wf(),
            dgram_received(
                old(inode).data->UnixDgram_0,
                final(inode).data->UnixDgram_0,
                old(msg).buf@,
                final(msg).buf@,
                r,
            ),
            final(msg).address == old(msg).address,
            final(final(msg).buf)@ == final(old(msg).buf)@,
    {
        match &mut inode.data {
            InodeData::UnixDgram(socket) => {
                let i: usize = socket.recv_index;
                let ghost before = *socket;
                let ghost message = socket.slots()[i as int];
                if socket.buf[i].len() == 0 {
                    return Err(EWOULDBLOCK);
                }
                let n: usize = least(socket.buf[i].len(), msg.buf.len());
                assert(message.subrange(0, n as int) =~= message.take(n as int));
                copy_at(msg.buf, 0, slice_subrange(socket.buf[i].as_slice(), 0, n));
                socket.buf[i].clear();
                socket.recv_index = i + 1;
                if socket.recv_index >= MAX_QUEUED_DGRAMS {
                    socket.recv_index = 0;
                }
                assert(socket.slots() =~= before.slots().update(i as int, Seq::empty()));
                Ok(n)
            },
            _ => vstd::pervasive::unreached(),
        }
    }

    /// Remembers the address the socket is bound to.
    pub fn bind(inode: &mut Inode, addr: &SocketAddr) -> (r: Result<(), Errno>)
        requires
            old(inode).data is UnixDgram,
        ensures
            r == Ok::<(), Errno>(()),
            *final(inode) == (Inode {
                data: InodeData::UnixDgram(
                    UnixDgram { socket_addr: *addr, ..old(inode).data->UnixDgram_0 },
                ),
                ..*old(inode)
            }),
    {
        match &mut inode.data {
            InodeData::UnixDgram(socket) => {
                socket.socket_addr = *addr;
                Ok(())
            },
            _ => vstd::pervasive::unreached(),
        }
    }
}

impl Default for UnixDgram {
    /// No message, not bound.
    fn default() -> (s: UnixDgram)
        ensures
            s.recv_index == 0,
            forall|i: int| 0 <= i < MAX_QUEUED_DGRAMS ==> #[trigger] s.slots()[i].len() == 0,
            s.socket_addr.addr@ == zeros(SOCKET_STORAGE_SIZE as nat),
    {
        UnixDgram {
            recv_index: 0,
            buf: [
                Vec::new(),
                Vec::new(),
                Vec::new(),
                Vec::new(),
                Vec::new(),
                Vec::new(),
                Vec::new(),
                Vec::new(),
                Vec::new(),
                Vec::new(),
                Vec::new(),
                Vec::new(),
                Vec::new(),
                Vec::new(),
                Vec::new(),
                Vec::new(),
            ],
            socket_addr: SocketAddr::default(),
        }
    }
}

/// What receiving from a stream does: the oldest bytes, as many as fit, go to
/// the start of the guest's buffer.
pub open spec fn stream_received(
    before: UnixStream,
    after: UnixStream,
    buf: Seq<u8>,
    buf_after: Seq<u8>,
    r: Result<usize, Errno>,
) -> bool {
    let pending = before.stream.pending@;
    let n = transfer_len(pending.len(), buf.len()) as int;
    &&& after.socket_addr == before.socket_addr
    &&& if pending.len() == 0 {
        &&& r == Err::<usize, Errno>(EWOULDBLOCK)
        &&& after.stream.pending@ == pending
        &&& buf_after == buf
    } else {
        &&& r matches Ok(m) && m == n
        &&& after.stream.pending@ == pending.skip(n)
        &&& buf_after == splice(buf, 0, pending.take(n))
    }
}

/// What sending to a stream does: all bytes are appended.
pub open spec fn stream_sent(
    before: UnixStream,
    after: UnixStream,
    buf: Seq<u8>,
    r: Result<usize, Errno>,
) -> bool {
    &&& after.socket_addr == before.socket_addr
    &&& after.stream.pending@ == before.stream.pending@ + buf
    &&& r matches Ok(m) && m == buf.len()
}

impl UnixStream {
    /// Receives what is pending.
    pub fn recvfrom(inode: &mut Inode, msg: &mut Message) -> (r: Result<usize, Errno>)
        requires
            old(inode).data is UnixStream,
        ensures
            final(inode).data is UnixStream,
            *final(inode) == (Inode { data: final(inode).data, ..*old(inode) }),
            stream_received(
                old(inode).data->UnixStream_0,
                final(inode).data->UnixStream_0,
                old(msg).buf@,
                final(msg).buf@,
                r,
            ),
            final(msg).address == old(msg).address,
            final(final(msg).buf)@ == final(old(msg).buf)@,
    {
        match &mut inode.data {
            InodeData::UnixStream(socket) => socket.stream.read(msg.buf),
            _ => vstd::pervasive::unreached(),
        }
    }

    /// Sends all of the message.
    pub fn sendto(inode: &mut Inode, msg: &Message) -> (r: Result<usize, Errno>)
        requires
            old(inode).data is UnixStream,
        ensures
            final(inode).data is UnixStream,
            *final(inode) == (Inode { data: final(inode).data, ..*old(inode) }),
            stream_sent(
                old(inode).data->UnixStream_0,
                final(inode).data->UnixStream_0,
                old(msg.buf)@,
                r,
            ),
    {
        match &mut inode.data {
            InodeData::UnixStream(socket) => socket.stream.write(msg.buf),
            _ => vstd::pervasive::unreached(),
        }
    }

    /// Remembers the address the socket is bound to.
    pub fn bind(inode: &mut Inode, addr: &SocketAddr) -> (r: Result<(), Errno>)
        requires
            old(inode).data is UnixStream,
        ensures
            r == Ok::<(), Errno>(()),
            *final(inode) == (Inode {
                data: InodeData::UnixStream(
                    UnixStream { socket_addr: *addr, ..old(inode).data->UnixStream_0 },
                ),
                ..*old(inode)
            }),
    {
        match &mut inode.data {
            InodeData::UnixStream(socket) => {
                socket.socket_addr = *addr;
                Ok(())
            },
            _ => vstd::pervasive::unreached(),
        }
    }
}

impl Default for UnixStream {
    /// Nothing pending, not bound.
    fn default() -> (s: UnixStream)
        ensures
            s.stream.pending@ == Seq::<u8>::empty(),
            s.socket_addr.addr@ == zeros(SOCKET_STORAGE_SIZE as nat),
    {
        UnixStream { stream: Stream::default(), socket_addr: SocketAddr::default() }
    }
}

/// Datagrams are received in the order of the ring, each exactly once: taking
/// one moves every other one step forward and leaves an empty slot behind all
/// of them.
pub proof fn law_datagrams_come_in_order(
    before: UnixDgram,
    after: UnixDgram,
    buf: Seq<u8>,
    buf_after: Seq<u8>,
    n: usize,
)
    requires
        before.wf(),
        dgram_received(before, after, buf, buf_after, Ok(n)),
    ensures
        after.wf(),
        n == transfer_len(before.queue()[0].len(), buf.len()),
        buf_after == splice(buf, 0, before.queue()[0].take(n as int)),
        after.queue() == before.queue().skip(1).push(Seq::empty()),
{
    let size = MAX_QUEUED_DGRAMS as int;
    let i = before.recv_index as int;
    assert((i + 0) % size == i);
    assert(before.queue()[0] == before.slots()[i]);
    assert forall|k: int| 0 <= k < size implies #[trigger] after.queue()[k]
        == before.queue().skip(1).push(Seq::empty())[k] by {
        assert((after.recv_index + k) % size == (i + 1 + k) % size);
        if k < size - 1 {
            assert((i + 1 + k) % size != i);
            assert(before.queue().skip(1)[k] == before.slots()[(i + (k + 1)) % size]);
        } else {
            assert((i + 1 + k) % size == i);
        }
    }
    assert(after.queue() =~= before.queue().skip(1).push(Seq::empty()));
}

/// A socket would block exactly when there is no message at its current slot,
/// and then stays as it is; otherwise it receives.
pub proof fn law_empty_socket_would_block(
    before: UnixDgram,
    after: UnixDgram,
    buf: Seq<u8>,
    buf_after: Seq<u8>,
    r: Result<usize, Errno>,
)
    requires
        before.wf(),
        dgram_received(before, after, buf, buf_after, r),
    ensures
        before.queue()[0].len() == 0 <==> r == Err::<usize, Errno>(EWOULDBLOCK),
        before.queue()[0].len() > 0 <==> r is Ok,
        r is Err ==> after == before && buf_after == buf,
{
    let i = before.recv_index as int;
    assert((i + 0) % (MAX_QUEUED_DGRAMS as int) == i);
    assert(before.queue()[0] == before.slots()[i]);
}

/// What one call sends on a stream socket, a later call with room for it
/// receives, whole and after everything sent before it.
pub proof fn law_stream_socket_round_trip(
    s0: UnixStream,
    s1: UnixStream,
    s2: UnixStream,
    sent: Seq<u8>,
    buf: Seq<u8>,
    buf_after: Seq<u8>,
    r1: Result<usize, Errno>,
    r2: Result<usize, Errno>,
)
    requires
        stream_sent(s0, s1, sent, r1),
        stream_received(s1, s2, buf, buf_after, r2),
        s0.stream.pending@.len() + sent.len() > 0,
        buf.len() >= s0.stream.pending@.len() + sent.len(),
    ensures
        r2 matches Ok(m) && m == s0.stream.pending@.len() + sent.len(),
        buf_after == splice(buf, 0, s0.stream.pending@ + sent),
        s2.stream.pending@ == Seq::<u8>::empty(),
{
    let pending = s1.stream.pending@;
    assert(pending.take(pending.len() as int) =~= pending);
    assert(pending.skip(pending.len() as int) =~= Seq::<u8>::empty());
}

} // verus!
