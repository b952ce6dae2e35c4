//! The socket operations of an inode.
//!
//! Which function serves a call follows from the inode's [`InodeVtable`]. For an
//! operation that a kind of inode does not have, this library has one default
//! answer: `ENOTSOCK`.

use vstd::prelude::*;

use crate::errno::{Errno, ENOSYS, ENOTSOCK};
use crate::fs::{Inode, InodeData, InodeVtable};
#[allow(unused_imports)]
use crate::socket::sockfs::{requested, socket_created, socket_requested, SocketFs};
#[allow(unused_imports)]
use crate::socket::net::{
    handles_closed, handles_opened, is_accounted, lemma_asked, lemma_handles, NetCall,
};
#[allow(unused_imports)]
use crate::socket::tcp::{connect_done, tcp_bound, tcp_received, tcp_released, tcp_sent};
use crate::socket::tcp::TcpSocket;
#[allow(unused_imports)]
use crate::socket::udp::{udp_bound, udp_received, udp_released, udp_sent};
use crate::socket::udp::UdpSocket;
#[allow(unused_imports)]
use crate::socket::unix::{dgram_received, stream_received, stream_sent};
use crate::socket::unix::{UnixDgram, UnixStream, MAX_QUEUED_DGRAMS};
use crate::socket::{Message, SocketAddr};

verus! {

/// The inode's data fits what its operations expect to find for sending and
/// receiving.
pub open spec fn can_transfer(inode: Inode) -> bool {
    match inode.vtable {
        InodeVtable::UnixDgram => inode.data is UnixDgram && inode.data->UnixDgram_0.wf(),
        InodeVtable::UnixStream => inode.data is UnixStream,
        _ => true,
    }
}

/// The inode's data fits what its operations expect to find for binding. A Unix
/// datagram inode shares the stream sockets' operation.
pub open spec fn can_bind(inode: Inode) -> bool {
    match inode.vtable {
        InodeVtable::UnixDgram | InodeVtable::UnixStream | InodeVtable::Netlink => inode.data
            is UnixStream,
        _ => true,
    }
}

/// What connecting an inode does. Only TCP sockets connect.
pub open spec fn connected(
    before: Inode,
    addr: SocketAddr,
    addr_len: usize,
    after: Inode,
    r: Result<(), Errno>,
) -> bool {
    if before.vtable == InodeVtable::Tcp {
        connect_done(before, addr, addr_len, after, r)
    } else {
        r == Err::<(), Errno>(ENOTSOCK) && after == before
    }
}

/// What receiving on an inode does.
pub open spec fn received(
    before: Inode,
    buf: Seq<u8>,
    addr: Option<Seq<u8>>,
    after: Inode,
    buf_after: Seq<u8>,
    addr_after: Option<Seq<u8>>,
    r: Result<usize, Errno>,
) -> bool {
    let only_data = after == (Inode { data: after.data, ..before });
    match before.vtable {
        InodeVtable::Default => {
            &&& r == Err::<usize, Errno>(ENOTSOCK)
            &&& after == before
            &&& buf_after == buf
            &&& addr_after == addr
        },
        InodeVtable::Netlink => {
            &&& r == Err::<usize, Errno>(ENOSYS)
            &&& after == before
            &&& buf_after == buf
            &&& addr_after == addr
        },
        InodeVtable::UnixDgram => {
            &&& only_data
            &&& after.data is UnixDgram
            &&& dgram_received(
                before.data->UnixDgram_0,
                after.data->UnixDgram_0,
                buf,
                buf_after,
                r,
            )
            &&& addr_after == addr
        },
        InodeVtable::UnixStream => {
            &&& only_data
            &&& after.data is UnixStream
            &&& stream_received(
                before.data->UnixStream_0,
                after.data->UnixStream_0,
                buf,
                buf_after,
                r,
            )
            &&& addr_after == addr
        },
        InodeVtable::Tcp => {
            &&& tcp_received(before, buf, after, buf_after, r)
            &&& addr_after == addr
        },
        InodeVtable::Udp => udp_received(before, buf, addr, after, buf_after, addr_after, r),
    }
}

/// What sending on an inode does.
pub open spec fn sent(
    before: Inode,
    buf: Seq<u8>,
    dest: Option<Seq<u8>>,
    after: Inode,
    r: Result<usize, Errno>,
) -> bool {
    match before.vtable {
        InodeVtable::Default | InodeVtable::UnixDgram => r == Err::<usize, Errno>(ENOTSOCK) && after
            == before,
        InodeVtable::Netlink => r == Err::<usize, Errno>(ENOSYS) && after == before,
        InodeVtable::UnixStream => {
            &&& after == (Inode { data: after.data, ..before })
            &&& after.data is UnixStream
            &&& stream_sent(before.data->UnixStream_0, after.data->UnixStream_0, buf, r)
        },
        InodeVtable::Tcp => tcp_sent(before, buf, after, r),
        InodeVtable::Udp => udp_sent(before, buf, dest, after, r),
    }
}

/// What binding an inode does.
pub open spec fn bound(
    before: Inode,
    addr: SocketAddr,
    after: Inode,
    r: Result<(), Errno>,
) -> bool {
    match before.vtable {
        InodeVtable::Default => r == Err::<(), Errno>(ENOTSOCK) && after == before,
        InodeVtable::UnixDgram | InodeVtable::UnixStream | InodeVtable::Netlink => {
            &&& r == Ok::<(), Errno>(())
            &&& after == (Inode {
                data: InodeData::UnixStream(
                    UnixStream { socket_addr: addr, ..before.data->UnixStream_0 },
                ),
                ..before
            })
        },
        InodeVtable::Tcp => tcp_bound(before, addr, after, r),
        InodeVtable::Udp => udp_bound(before, addr, after, r),
    }
}

/// What giving back an inode's hold on the host does.
pub open spec fn released(before: Inode, after: Inode) -> bool {
    &&& after == (Inode { data: after.data, ..before })
    &&& match (before.data, after.data) {
        (InodeData::Tcp(s), InodeData::Tcp(t)) => tcp_released(s, t),
        (InodeData::Udp(s), InodeData::Udp(t)) => udp_released(s, t),
        (a, b) => a == b,
    }
}

impl Inode {
    /// Whether the inode can be handed to [`Inode::recvfrom`] and
    /// [`Inode::sendto`].
    pub fn check_transfer(&self) -> (ok: bool)
        ensures
            ok == can_transfer(*self),
    {
        match (self.vtable, &self.data) {
            (InodeVtable::UnixDgram, InodeData::UnixDgram(s)) => s.recv_index < MAX_QUEUED_DGRAMS,
            (InodeVtable::UnixDgram, _) => false,
            (InodeVtable::UnixStream, InodeData::UnixStream(_)) => true,
            (InodeVtable::UnixStream, _) => false,
            _ => true,
        }
    }

    /// Whether the inode can be handed to [`Inode::bind`].
    pub fn check_bind(&self) -> (ok: bool)
        ensures
            ok == can_bind(*self),
    {
        match (self.vtable, &self.data) {
            (InodeVtable::Default, _) => true,
            (InodeVtable::Tcp, _) => true,
            (InodeVtable::Udp, _) => true,
            (_, InodeData::UnixStream(_)) => true,
            _ => false,
        }
    }

    /// Connects. Only TCP sockets do.
    pub fn connect(inode: &mut Inode, addr: &SocketAddr, addr_len: usize) -> (r: Result<(), Errno>)
        ensures
            connected(*old(inode), *addr, addr_len, *final(inode), r),
    {
        match inode.vtable {
            InodeVtable::Tcp => TcpSocket::connect(inode, addr, addr_len),
            _ => Err(ENOTSOCK),
        }
    }

    /// Receives a message.
    pub fn recvfrom(inode: &mut Inode, msg: &mut Message) -> (r: Result<usize, Errno>)
        requires
            can_transfer(*old(inode)),
        ensures
            received(
                *old(inode),
                old(msg).buf@,
                if old(msg).address is Some {
                    Some(old(msg).address->0.addr@)
                } else {
                    None
                },
                *final(inode),
                final(msg).buf@,
                if final(msg).address is Some {
                    Some(final(msg).address->0.addr@)
                } else {
                    None
                },
                r,
            ),
            can_transfer(*final(inode)),
            final(msg).address is Some == old(msg).address is Some,
            final(msg).address is Some ==> *final(final(msg).address->0)
                == *final(old(msg).address->0),
            final(final(msg).buf)@ == final(old(msg).buf)@,
    {
        match inode.vtable {
            InodeVtable::Default => Err(ENOTSOCK),
            InodeVtable::UnixDgram => UnixDgram::recvfrom(inode, msg),
            InodeVtable::UnixStream => UnixStream::recvfrom(inode, msg),
            InodeVtable::Tcp => TcpSocket::recvfrom_tcp(inode, msg),
            InodeVtable::Udp => UdpSocket::recvfrom_udp(inode, msg),
            InodeVtable::Netlink => Err(ENOSYS),
        }
    }

    /// Sends a message.
    pub fn sendto(inode: &mut Inode, msg: &Message) -> (r: Result<usize, Errno>)
        requires
            can_transfer(*old(inode)),
        ensures
            sent(
                *old(inode),
                old(msg.buf)@,
                if msg.address is Some {
                    Some(old(msg.address->0).addr@)
                } else {
                    None
                },
                *final(inode),
                r,
            ),
            can_transfer(*final(inode)),
    {
        match inode.vtable {
            InodeVtable::Default => Err(ENOTSOCK),
            InodeVtable::UnixDgram => Err(ENOTSOCK),
            InodeVtable::UnixStream => UnixStream::sendto(inode, msg),
            InodeVtable::Tcp => TcpSocket::sendto_tcp(inode, msg),
            InodeVtable::Udp => UdpSocket::sendto_udp(inode, msg),
            InodeVtable::Netlink => Err(ENOSYS),
        }
    }

    /// Binds to an address.
    pub fn bind(inode: &mut Inode, addr: &SocketAddr) -> (r: Result<(), Errno>)
        requires
            can_bind(*old(inode)),
        ensures
            bound(*old(inode), *addr, *final(inode), r),
            can_bind(*final(inode)),
    {
        match inode.vtable {
            InodeVtable::Default => Err(ENOTSOCK),
            InodeVtable::UnixDgram => UnixStream::bind(inode, addr),
            InodeVtable::UnixStream => UnixStream::bind(inode, addr),
            InodeVtable::Tcp => TcpSocket::bind_tcp(inode, addr),
            InodeVtable::Udp => UdpSocket::bind_udp(inode, addr),
            InodeVtable::Netlink => UnixStream::bind(inode, addr),
        }
    }

    /// Gives back what the inode holds on the host. Whoever owns the inode
    /// calls this when the last file descriptor referring to it goes away.
    pub fn release(&mut self)
        ensures
            released(*old(self), *final(self)),
    {
        match &mut self.data {
            InodeData::Tcp(socket) => socket.release(),
            InodeData::Udp(socket) => socket.release(),
            _ => {},
        }
    }
}

/// Every socket that is created holds what its operations expect: it can send
/// and receive at once, and, Unix datagram sockets apart, bind.
pub proof fn law_new_sockets_fit_their_operations(
    before: SocketFs,
    family: u64,
    kind: u64,
    protocol: u64,
    after: SocketFs,
    inode: Inode,
)
    requires
        socket_requested(before, requested(family, kind, protocol), after, Ok(inode)),
    ensures
        can_transfer(inode),
        inode.vtable != InodeVtable::UnixDgram ==> can_bind(inode),
{
}

/// Receiving and sending keep an inode's kind, operations and number, whatever
/// becomes of its data.
pub proof fn law_transfers_keep_the_inode(
    before: Inode,
    buf: Seq<u8>,
    addr: Option<Seq<u8>>,
    after: Inode,
    buf_after: Seq<u8>,
    addr_after: Option<Seq<u8>>,
    r: Result<usize, Errno>,
)
    requires
        received(before, buf, addr, after, buf_after, addr_after, r) || sent(
            before,
            buf,
            addr,
            after,
            r,
        ),
    ensures
        after == (Inode { data: after.data, ..before }),
{
}

/// Whatever a peer or a backend does, receiving never changes the size of the
/// guest's buffer, and never reports more bytes than it has.
pub proof fn law_received_bytes_fit_the_buffer(
    before: Inode,
    buf: Seq<u8>,
    addr: Option<Seq<u8>>,
    after: Inode,
    buf_after: Seq<u8>,
    addr_after: Option<Seq<u8>>,
    r: Result<usize, Errno>,
)
    requires
        received(before, buf, addr, after, buf_after, addr_after, r),
    ensures
        buf_after.len() == buf.len(),
        r matches Ok(n) ==> n <= buf.len(),
{
}

/// Sending never reports more bytes than it was given.
pub proof fn law_sent_bytes_come_from_the_buffer(
    before: Inode,
    buf: Seq<u8>,
    dest: Option<Seq<u8>>,
    after: Inode,
    r: Result<usize, Errno>,
)
    requires
        sent(before, buf, dest, after, r),
    ensures
        r matches Ok(n) ==> n <= buf.len(),
{
}

/// A UDP socket sends nowhere without a destination, even where the guest has
/// no network at all.
pub proof fn law_datagrams_need_a_destination(
    before: Inode,
    buf: Seq<u8>,
    after: Inode,
    r: Result<usize, Errno>,
)
    requires
        before.vtable == InodeVtable::Udp,
        sent(before, buf, None, after, r),
    ensures
        r == Err::<usize, Errno>(crate::errno::EDESTADDRREQ),
        after == before,
{
}

/// The calls that the socket in `inode` made of its backend, if it has one.
pub open spec fn calls_of(inode: Inode) -> Seq<NetCall> {
    match inode.data {
        InodeData::Tcp(TcpSocket { net: Some(net), .. }) => net.calls(),
        InodeData::Udp(UdpSocket { net: Some(net), .. }) => net.calls(),
        _ => Seq::empty(),
    }
}

/// The handle that the socket in `inode` has open, if any.
pub open spec fn handle_of(inode: Inode) -> Option<i64> {
    match inode.data {
        InodeData::Tcp(s) => s.handle,
        InodeData::Udp(s) => s.handle,
        _ => None,
    }
}

/// Every handle that the socket in `inode` ever opened was closed, once, but for
/// the one it has open, and it never closed another.
pub open spec fn accounted(inode: Inode) -> bool {
    match inode.data {
        InodeData::Tcp(s) => is_accounted(s.net, s.handle),
        InodeData::Udp(s) => is_accounted(s.net, s.handle),
        _ => true,
    }
}

/// `after` is what some call on an inode made of `before`.
pub open spec fn inode_step(before: Inode, after: Inode) -> bool {
    ||| exists|addr: SocketAddr, addr_len: usize, r: Result<(), Errno>| #[trigger]
        connected(before, addr, addr_len, after, r)
    ||| exists|
        buf: Seq<u8>,
        addr: Option<Seq<u8>>,
        buf_after: Seq<u8>,
        addr_after: Option<Seq<u8>>,
        r: Result<usize, Errno>,
    | #[trigger]
        received(before, buf, addr, after, buf_after, addr_after, r)
    ||| exists|buf: Seq<u8>, dest: Option<Seq<u8>>, r: Result<usize, Errno>| #[trigger]
        sent(before, buf, dest, after, r)
    ||| exists|addr: SocketAddr, r: Result<(), Errno>| #[trigger] bound(before, addr, after, r)
    ||| released(before, after)
}

/// One call keeps the account.
proof fn lemma_step_keeps_account(before: Inode, after: Inode)
    requires
        accounted(before),
        inode_step(before, after),
    ensures
        accounted(after),
{
    broadcast use {lemma_asked, lemma_handles};

}

/// Over the whole life of a socket, whatever the guest and the backend do, every
/// handle that the backend opened for it is closed exactly once, unless it is
/// still open; and nothing is closed that was not opened.
pub proof fn law_handles_are_accounted_for(
    before: SocketFs,
    family: u64,
    kind: u64,
    protocol: u64,
    after: SocketFs,
    states: Seq<Inode>,
)
    requires
        states.len() > 0,
        socket_requested(before, requested(family, kind, protocol), after, Ok(states[0])),
        forall|i: int| 0 < i < states.len() ==> inode_step(states[i - 1], #[trigger] states[i]),
    ensures
        accounted(states.last()),
        handles_opened(calls_of(states.last())) == match handle_of(states.last()) {
            Some(h) => handles_closed(calls_of(states.last())).push(h),
            None => handles_closed(calls_of(states.last())),
        },
    decreases states.len(),
{
    if states.len() > 1 {
        let earlier = states.drop_last();
        assert forall|i: int| 0 < i < earlier.len() implies inode_step(
            earlier[i - 1],
            #[trigger] earlier[i],
        ) by {
            assert(earlier[i] == states[i]);
        }
        law_handles_are_accounted_for(before, family, kind, protocol, after, earlier);
        assert(inode_step(earlier.last(), states[states.len() - 1]));
        lemma_step_keeps_account(earlier.last(), states.last());
    }
}

/// Releasing a socket closes the handle it has open, and that one only: from
/// then on everything that was opened is closed. A socket without a handle asks
/// nothing of its backend.
pub proof fn law_release_closes_what_is_open(before: Inode, after: Inode)
    requires
        accounted(before),
        released(before, after),
    ensures
        handle_of(after) is None,
        calls_of(after) == match handle_of(before) {
            Some(h) => calls_of(before).push(NetCall::Close { h }),
            None => calls_of(before),
        },
        handles_opened(calls_of(after)) == handles_closed(calls_of(after)),
        handles_opened(calls_of(after)) == handles_opened(calls_of(before)),
{
    broadcast use {lemma_asked, lemma_handles};

}

} // verus!
