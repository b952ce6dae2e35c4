//! UDP over IPv4.

use vstd::prelude::*;
use vstd::slice::slice_subrange;

use crate::errno::{Errno, EACCES, EDESTADDRREQ, ENOTSOCK};
use crate::fs::{Inode, InodeData};
use crate::le::copy_at;
#[allow(unused_imports)]
use crate::le::splice;
#[allow(unused_imports)]
use crate::socket::net::{lemma_asked, NetCall};
use crate::socket::net::Net;
#[allow(unused_imports)]
use crate::socket::NetBackend;
#[allow(unused_imports)]
use crate::socket::{clamped, stored_len, zeros};
use crate::socket::{
    clamp_reply, least, Message, SocketAddr, AF_INET, SOCKET_STORAGE_SIZE, SOCK_DGRAM,
};

verus! {

/// An `AF_INET`/`SOCK_DGRAM` socket, served entirely by the installed
/// [`NetBackend`].
///
/// Connectionless, so there is no single moment to hang the host-side handle
/// on. It is opened on whichever of `sendto` and `recvfrom` the guest calls
/// first, by the backend's `connect` with `SOCK_DGRAM` and an empty address,
/// since there is no destination to fix at open time: every `sendto` carries
/// its own. The handle is just an ephemeral local socket, not a connection to
/// anywhere.
pub struct UdpSocket {
    pub net: Option<Net>,
    pub handle: Option<i64>,
    pub socket_addr: SocketAddr,
}

/// `inode` with the UDP socket `s` in it.
pub open spec fn with_udp(inode: Inode, s: UdpSocket) -> Inode {
    Inode { data: InodeData::Udp(s), ..inode }
}

/// The error every transfer is refused with before the backend is asked.
pub open spec fn udp_refusal(inode: Inode) -> Option<Errno> {
    match inode.data {
        InodeData::Udp(s) => if s.net is None {
            Some(EACCES)
        } else {
            None
        },
        _ => Some(ENOTSOCK),
    }
}

/// The request that opens a host-side handle, and its answer.
pub open spec fn open_call(reply: Result<i64, Errno>) -> NetCall {
    NetCall::Connect { domain: AF_INET, kind: SOCK_DGRAM, addr: Seq::empty(), reply }
}

/// Exactly one call was made of the backend, with the answer that it gave, and
/// nothing else happened to the socket.
pub open spec fn udp_called(before: UdpSocket, call: NetCall, after: UdpSocket) -> bool {
    &&& before.net->0.backend().answers(call)
    &&& after == (UdpSocket { net: Some(before.net->0.asked(call)), ..before })
    &&& after.net->0.calls() == before.net->0.calls().push(call)
}

/// What the backend's answer to opening a handle leads to: the handle is kept,
/// or the error is passed on.
pub open spec fn open_settled(
    before: Inode,
    reply: Result<i64, Errno>,
    after: Inode,
    r: Result<i64, Errno>,
) -> bool {
    match (reply, before.data) {
        (Ok(h), InodeData::Udp(s)) => {
            &&& r == Ok::<i64, Errno>(h)
            &&& after == with_udp(before, UdpSocket { handle: Some(h), ..s })
        },
        (Ok(_), _) => r == Err::<i64, Errno>(ENOTSOCK) && after == before,
        (Err(e), _) => r == Err::<i64, Errno>(e) && after == before,
    }
}

/// Obtaining the handle of a socket with a backend: the one it has, without
/// asking, or one that the backend opens, asked once for exactly this.
pub open spec fn handle_obtained(
    before: UdpSocket,
    h: Result<i64, Errno>,
    after: UdpSocket,
) -> bool {
    match before.handle {
        Some(x) => h == Ok::<i64, Errno>(x) && after == before,
        None => exists|asked: UdpSocket|
            {
                &&& #[trigger] udp_called(before, open_call(h), asked)
                &&& after == match h {
                    Ok(x) => UdpSocket { handle: Some(x), ..asked },
                    Err(_) => asked,
                }
            },
    }
}

/// Obtaining the handle of an inode: refused without a UDP socket or a backend,
/// otherwise that of the socket in it.
pub open spec fn udp_opened(before: Inode, r: Result<i64, Errno>, after: Inode) -> bool {
    match udp_refusal(before) {
        Some(e) => r == Err::<i64, Errno>(e) && after == before,
        None => {
            &&& after.data is Udp
            &&& after == with_udp(before, after.data->Udp_0)
            &&& handle_obtained(before.data->Udp_0, r, after.data->Udp_0)
        },
    }
}

/// Sending `buf` to `addr` with what came of obtaining a handle.
pub open spec fn sent_through(
    before: UdpSocket,
    h: Result<i64, Errno>,
    buf: Seq<u8>,
    addr: Seq<u8>,
    after: UdpSocket,
    r: Result<usize, Errno>,
) -> bool {
    match h {
        Err(e) => r == Err::<usize, Errno>(e) && after == before,
        Ok(x) => exists|reply: Result<usize, Errno>|
            #[trigger] udp_called(before, NetCall::SendTo { h: x, buf, addr, reply }, after) && r
                == clamped(reply, buf.len()),
    }
}

/// Sending to `dest`: refused without a destination or a backend, otherwise
/// handed to the backend as it is.
pub open spec fn udp_sent(
    before: Inode,
    buf: Seq<u8>,
    dest: Option<Seq<u8>>,
    after: Inode,
    r: Result<usize, Errno>,
) -> bool {
    if dest is None {
        r == Err::<usize, Errno>(EDESTADDRREQ) && after == before
    } else if let Some(e) = udp_refusal(before) {
        r == Err::<usize, Errno>(e) && after == before
    } else {
        let s = after.data->Udp_0;
        &&& after == with_udp(before, s)
        &&& exists|h: Result<i64, Errno>, open: UdpSocket|
            #[trigger] handle_obtained(before.data->Udp_0, h, open) && sent_through(
                open,
                h,
                buf,
                dest->0,
                s,
                r,
            )
    }
}

/// The byte count a `recvfrom` that the backend answered tells the guest.
pub open spec fn settled_count(
    reply: Result<(usize, usize), Errno>,
    room: nat,
) -> Result<usize, Errno> {
    match reply {
        Ok((n, _)) => clamped(Ok(n), room),
        Err(e) => Err(e),
    }
}

/// What becomes of the guest's address buffer, if it gave one: the sender's
/// address, taken from `from`, replaces as much of it as it covers.
pub open spec fn settled_addr(
    reply: Result<(usize, usize), Errno>,
    from: Seq<u8>,
    addr: Option<Seq<u8>>,
) -> Option<Seq<u8>> {
    match (addr, reply) {
        (Some(a), Ok((_, len))) => Some(splice(a, 0, from.take(stored_len(len) as int))),
        _ => addr,
    }
}

/// Receiving with what came of obtaining a handle.
pub open spec fn received_through(
    before: UdpSocket,
    h: Result<i64, Errno>,
    buf: Seq<u8>,
    addr: Option<Seq<u8>>,
    after: UdpSocket,
    buf_after: Seq<u8>,
    addr_after: Option<Seq<u8>>,
    r: Result<usize, Errno>,
) -> bool {
    match h {
        Err(e) => {
            &&& r == Err::<usize, Errno>(e)
            &&& after == before
            &&& buf_after == buf
            &&& addr_after == addr
        },
        Ok(x) => exists|from: Seq<u8>, reply: Result<(usize, usize), Errno>|
            {
                &&& buf_after.len() == buf.len()
                &&& from.len() == SOCKET_STORAGE_SIZE
                &&& #[trigger] udp_called(
                    before,
                    NetCall::RecvFrom {
                        h: x,
                        before: buf,
                        after: buf_after,
                        addr_before: zeros(SOCKET_STORAGE_SIZE as nat),
                        addr_after: from,
                        reply,
                    },
                    after,
                )
                &&& r == settled_count(reply, buf.len())
                &&& addr_after == settled_addr(reply, from, addr)
            },
    }
}

/// Receiving into a buffer of `buf`, with the sender's address wanted in
/// `addr`, if at all.
pub open spec fn udp_received(
    before: Inode,
    buf: Seq<u8>,
    addr: Option<Seq<u8>>,
    after: Inode,
    buf_after: Seq<u8>,
    addr_after: Option<Seq<u8>>,
    r: Result<usize, Errno>,
) -> bool {
    if let Some(e) = udp_refusal(before) {
        &&& r == Err::<usize, Errno>(e)
        &&& after == before
        &&& buf_after == buf
        &&& addr_after == addr
    } else {
        let s = after.data->Udp_0;
        &&& after == with_udp(before, s)
        &&& exists|h: Result<i64, Errno>, open: UdpSocket|
            #[trigger] handle_obtained(before.data->Udp_0, h, open) && received_through(
                open,
                h,
                buf,
                addr,
                s,
                buf_after,
                addr_after,
                r,
            )
    }
}

/// Binding: the address is remembered.
pub open spec fn udp_bound(
    before: Inode,
    addr: SocketAddr,
    after: Inode,
    r: Result<(), Errno>,
) -> bool {
    match before.data {
        InodeData::Udp(s) => r == Ok::<(), Errno>(()) && after == with_udp(
            before,
            UdpSocket { socket_addr: addr, ..s },
        ),
        _ => r == Err::<(), Errno>(ENOTSOCK) && after == before,
    }
}

/// Releasing: the backend is told to close the handle, if there is one, and
/// nothing otherwise.
pub open spec fn udp_released(before: UdpSocket, after: UdpSocket) -> bool {
    match (before.net, before.handle) {
        (Some(net), Some(h)) => {
            &&& net.backend().answers(NetCall::Close { h })
            &&& after == (UdpSocket {
                net: Some(net.asked(NetCall::Close { h })),
                handle: None,
                ..before
            })
            &&& after.net->0.calls() == net.calls().push(NetCall::Close { h })
        },
        _ => after == (UdpSocket { handle: None, ..before }),
    }
}

impl UdpSocket {
    /// A socket of a guest with the given access to the network.
    pub fn new(net: Option<Net>) -> (s: UdpSocket)
        ensures
            s.net == net,
            s.handle is None,
            s.socket_addr.addr@ == zeros(SOCKET_STORAGE_SIZE as nat),
    {
        UdpSocket { net, handle: None, socket_addr: SocketAddr::default() }
    }

    /// The socket in an inode.
    fn data(inode: &mut Inode) -> (r: Result<&mut UdpSocket, Errno>)
        ensures
            match old(inode).data {
                InodeData::Udp(s) => {
                    &&& r is Ok
                    &&& *(r->Ok_0) == s
                    &&& *final(inode) == with_udp(*old(inode), *final(r->Ok_0))
                },
                _ => r == Err::<&mut UdpSocket, Errno>(ENOTSOCK) && *final(inode) == *old(inode),
            },
    {
        match &mut inode.data {
            InodeData::Udp(socket) => Ok(socket),
            _ => Err(ENOTSOCK),
        }
    }

    /// The backend of a socket that has one.
    fn backend(inode: &mut Inode) -> (r: Result<&mut Net, Errno>)
        ensures
            match udp_refusal(*old(inode)) {
                Some(e) => r == Err::<&mut Net, Errno>(e) && *final(inode) == *old(inode),
                None => {
                    &&& r is Ok
                    &&& *(r->Ok_0) == old(inode).data->Udp_0.net->0
                    &&& *final(inode) == with_udp(
                        *old(inode),
                        UdpSocket { net: Some(*final(r->Ok_0)), ..old(inode).data->Udp_0 },
                    )
                },
            },
    {
        match Self::data(inode) {
            Err(e) => Err(e),
            Ok(socket) => match &mut socket.net {
                Some(net) => Ok(net),
                None => Err(EACCES),
            },
        }
    }

    /// The handle of this socket, opening the host-side one on first use.
    /// `EACCES` when no backend is installed: a guest that is not meant to have
    /// network access must be told so rather than silently succeeding against
    /// nothing.
    pub fn handle(inode: &mut Inode) -> (r: Result<i64, Errno>)
        ensures
            udp_opened(*old(inode), r, *final(inode)),
    {
        let reply: Result<i64, Errno> = match Self::data(inode) {
            Err(e) => {
                return Err(e);
            },
            Ok(socket) => match &mut socket.net {
                None => {
                    return Err(EACCES);
                },
                Some(net) => {
                    if let Some(h) = socket.handle {
                        return Ok(h);
                    }
                    let nowhere: [u8; 0] = [];
                    assert(nowhere@ =~= Seq::<u8>::empty());
                    net.connect(AF_INET, SOCK_DGRAM, nowhere.as_slice())
                },
            },
        };
        assert(udp_called(old(inode).data->Udp_0, open_call(reply), inode.data->Udp_0)) by {
            lemma_asked(old(inode).data->Udp_0.net->0, open_call(reply));
        }
        Self::finish_open(inode, reply)
    }

    /// Takes the backend's answer to opening the host-side handle.
    pub fn finish_open(inode: &mut Inode, reply: Result<i64, Errno>) -> (r: Result<i64, Errno>)
        ensures
            open_settled(*old(inode), reply, *final(inode), r),
    {
        match reply {
            Err(e) => Err(e),
            Ok(h) => match Self::data(inode) {
                Err(e) => Err(e),
                Ok(socket) => {
                    socket.handle = Some(h);
                    Ok(h)
                },
            },
        }
    }

    /// Sends one datagram to the address of the message.
    ///
    /// The message carries no separate address length, so the destination the
    /// backend sees is always the full buffer, zero-padded past whatever the
    /// guest actually wrote.
    pub fn sendto_udp(inode: &mut Inode, msg: &Message) -> (r: Result<usize, Errno>)
        ensures
            udp_sent(
                *old(inode),
                old(msg.buf)@,
                if msg.address is Some {
                    Some(old(msg.address->0).addr@)
                } else {
                    None
                },
                *final(inode),
                r,
            ),
    {
        match &msg.address {
            None => Err(EDESTADDRREQ),
            Some(dest) => {
                let opened: Result<i64, Errno> = Self::handle(inode);
                let ghost open = inode.data->Udp_0;
                assert(udp_refusal(*old(inode)) is None ==> handle_obtained(
                    old(inode).data->Udp_0,
                    opened,
                    open,
                ));
                let handle: i64 = match opened {
                    Err(e) => {
                        return Err(e);
                    },
                    Ok(handle) => handle,
                };
                match Self::backend(inode) {
                    Err(e) => Err(e),
                    Ok(net) => {
                        let reply: Result<usize, Errno> = net.sendto(
                            handle,
                            msg.buf,
                            dest.addr.as_slice(),
                        );
                        let ghost call = NetCall::SendTo {
                            h: handle,
                            buf: old(msg.buf)@,
                            addr: old(msg.address->0).addr@,
                            reply,
                        };
                        assert(udp_called(open, call, inode.data->Udp_0)) by {
                            lemma_asked(open.net->0, call);
                        }
                        clamp_reply(reply, msg.buf.len())
                    },
                }
            },
        }
    }

    /// Receives one datagram, and the address of its sender if the message has
    /// room for it.
    pub fn recvfrom_udp(inode: &mut Inode, msg: &mut Message) -> (r: Result<usize, Errno>)
        ensures
            udp_received(
                *old(inode),
                old(msg).buf@,
                if old(msg).address is Some {
                    Some(old(msg).address->0.addr@)
                } else {
                    None
                },
                *final(inode),
                final(msg).buf@,
                if final(msg).address is Some {
                    Some(final(msg).address->0.addr@)
                } else {
                    None
                },
                r,
            ),
            final(msg).address is Some == old(msg).address is Some,
            final(msg).address is Some ==> *final(final(msg).address->0)
                == *final(old(msg).address->0),
            final(final(msg).buf)@ == final(old(msg).buf)@,
    {
        let opened: Result<i64, Errno> = Self::handle(inode);
        let ghost open = inode.data->Udp_0;
        assert(udp_refusal(*old(inode)) is None ==> handle_obtained(
            old(inode).data->Udp_0,
            opened,
            open,
        ));
        let handle: i64 = match opened {
            Err(e) => {
                return Err(e);
            },
            Ok(handle) => handle,
        };
        match Self::backend(inode) {
            Err(e) => Err(e),
            Ok(net) => {
                let mut from: [u8; SOCKET_STORAGE_SIZE] = [0; SOCKET_STORAGE_SIZE];
                assert(from@ =~= zeros(SOCKET_STORAGE_SIZE as nat));
                let reply: Result<(usize, usize), Errno> = net.recvfrom(
                    handle,
                    msg.buf,
                    &mut from,
                );
                let ghost call = NetCall::RecvFrom {
                    h: handle,
                    before: old(msg).buf@,
                    after: msg.buf@,
                    addr_before: zeros(SOCKET_STORAGE_SIZE as nat),
                    addr_after: from@,
                    reply,
                };
                assert(udp_called(open, call, inode.data->Udp_0)) by {
                    lemma_asked(open.net->0, call);
                }
                Self::finish_recvfrom(msg, &from, reply)
            },
        }
    }

    /// Takes the backend's answer to a `recvfrom`, with the sender's address
    /// in `from`.
    pub fn finish_recvfrom(
        msg: &mut Message,
        from: &[u8; SOCKET_STORAGE_SIZE],
        reply: Result<(usize, usize), Errno>,
    ) -> (r: Result<usize, Errno>)
        ensures
            r == settled_count(reply, old(msg).buf@.len()),
            (if final(msg).address is Some {
                Some(final(msg).address->0.addr@)
            } else {
                None
            }) == settled_addr(
                reply,
                from@,
                if old(msg).address is Some {
                    Some(old(msg).address->0.addr@)
                } else {
                    None
                },
            ),
            final(msg).buf@ == old(msg).buf@,
            final(msg).address is Some == old(msg).address is Some,
            final(msg).address is Some ==> *final(final(msg).address->0)
                == *final(old(msg).address->0),
            final(final(msg).buf)@ == final(old(msg).buf)@,
    {
        match reply {
            Err(e) => Err(e),
            Ok((n, addr_len)) => {
                if let Some(dest) = &mut msg.address {
                    let k: usize = least(addr_len, SOCKET_STORAGE_SIZE);
                    let name: &[u8] = slice_subrange(from.as_slice(), 0, k);
                    assert(name@ =~= from@.take(k as int));
                    copy_at(&mut dest.addr, 0, name);
                }
                clamp_reply(Ok(n), msg.buf.len())
            },
        }
    }

    /// Remembers the address the socket is bound to.
    pub fn bind_udp(inode: &mut Inode, addr: &SocketAddr) -> (r: Result<(), Errno>)
        ensures
            udp_bound(*old(inode), *addr, *final(inode), r),
    {
        match Self::data(inode) {
            Err(e) => Err(e),
            Ok(socket) => {
                socket.socket_addr = *addr;
                Ok(())
            },
        }
    }

    /// Releases the host-side handle. Whoever owns the socket calls this when
    /// the last file descriptor referring to it goes away.
    pub fn release(&mut self)
        ensures
            udp_released(*old(self), *final(self)),
    {
        broadcast use lemma_asked;

        if let Some(handle) = self.handle {
            if let Some(net) = &mut self.net {
                net.close(handle);
            }
        }
        self.handle = None;
    }
}

/// The handle is opened once: whatever a socket got from the backend first, it
/// uses from then on, and the backend is not asked again.
pub proof fn law_handle_is_opened_once(
    before: UdpSocket,
    h: i64,
    after: UdpSocket,
    again: Result<i64, Errno>,
    later: UdpSocket,
)
    requires
        handle_obtained(before, Ok(h), after),
        handle_obtained(after, again, later),
    ensures
        after.handle == Some(h),
        before.handle is Some ==> after == before,
        before.handle is None && before.net is Some ==> after.net is Some
            && after.net->0.backend() == before.net->0.backend() && after.net->0.calls()
            == before.net->0.calls().push(open_call(Ok(h))),
        after.socket_addr == before.socket_addr,
        again == Ok::<i64, Errno>(h),
        later == after,
{
    broadcast use lemma_asked;

}

/// A handle that could not be opened leaves the socket without one, and nothing
/// behind but the record that it was tried, so the next call tries again.
pub proof fn law_failed_open_changes_nothing(before: UdpSocket, e: Errno, after: UdpSocket)
    requires
        handle_obtained(before, Err(e), after),
    ensures
        before.handle is None,
        after == (UdpSocket { net: Some(before.net->0.asked(open_call(Err(e)))), ..before }),
{
}

/// The guest's address buffer keeps its length, and everything past the
/// sender's address.
pub proof fn law_sender_fits_the_buffer(
    reply: Result<(usize, usize), Errno>,
    from: Seq<u8>,
    addr: Seq<u8>,
)
    requires
        from.len() == SOCKET_STORAGE_SIZE,
        addr.len() == SOCKET_STORAGE_SIZE,
    ensures
        settled_addr(reply, from, Some(addr)) matches Some(after) && after.len() == addr.len() && (
        reply matches Ok((_, len)) ==> (forall|i: int|
            0 <= i < addr.len() ==> #[trigger] after[i] == if i < len {
                from[i]
            } else {
                addr[i]
            })) && (reply is Err ==> after == addr),
{
}

/// Binding does not disturb the handle.
pub proof fn law_udp_bind_keeps_the_handle(
    before: Inode,
    addr: SocketAddr,
    after: Inode,
    r: Result<(), Errno>,
)
    requires
        udp_bound(before, addr, after, r),
    ensures
        udp_refusal(after) == udp_refusal(before),
        before.data is Udp ==> after.data->Udp_0.handle == before.data->Udp_0.handle
            && after.data->Udp_0.net == before.data->Udp_0.net,
{
}

/// `after` is what some call on a UDP socket made of `before`: asking for the
/// handle, a send, a receive or a bind.
pub open spec fn udp_step(before: Inode, after: Inode) -> bool {
    ||| exists|r: Result<i64, Errno>| #[trigger] udp_opened(before, r, after)
    ||| exists|buf: Seq<u8>, dest: Option<Seq<u8>>, r: Result<usize, Errno>| #[trigger]
        udp_sent(before, buf, dest, after, r)
    ||| exists|
        buf: Seq<u8>,
        addr: Option<Seq<u8>>,
        buf_after: Seq<u8>,
        addr_after: Option<Seq<u8>>,
        r: Result<usize, Errno>,
    | #[trigger]
        udp_received(before, buf, addr, after, buf_after, addr_after, r)
    ||| exists|addr: SocketAddr, r: Result<(), Errno>| #[trigger] udp_bound(before, addr, after, r)
}

/// A datagram that goes through the handle `h`.
pub open spec fn uses_handle(call: NetCall, h: i64) -> bool {
    match call {
        NetCall::SendTo { h: x, .. } => x == h,
        NetCall::RecvFrom { h: x, .. } => x == h,
        _ => false,
    }
}

/// The calls that the UDP socket in `inode` made of its backend.
pub open spec fn udp_calls(inode: Inode) -> Seq<NetCall> {
    inode.data->Udp_0.net->0.calls()
}

/// An open handle lasts: whatever a guest does with a socket that has one, it
/// keeps it and its backend, and asks of the backend nothing but datagrams
/// through that handle. It is never opened again.
pub proof fn law_handle_lasts(states: Seq<Inode>, h: i64)
    requires
        states.len() > 0,
        udp_refusal(states[0]) is None,
        states[0].data->Udp_0.handle == Some(h),
        forall|i: int| 0 < i < states.len() ==> udp_step(states[i - 1], #[trigger] states[i]),
    ensures
        udp_refusal(states.last()) is None,
        states.last().data->Udp_0.handle == Some(h),
        states.last().data->Udp_0.net->0.backend() == states[0].data->Udp_0.net->0.backend(),
        udp_calls(states[0]).is_prefix_of(udp_calls(states.last())),
        forall|k: int|
            udp_calls(states[0]).len() <= k < udp_calls(states.last()).len() ==> uses_handle(
                #[trigger] udp_calls(states.last())[k],
                h,
            ),
    decreases states.len(),
{
    if states.len() > 1 {
        broadcast use lemma_asked;

        let earlier = states.drop_last();
        assert forall|i: int| 0 < i < earlier.len() implies udp_step(
            earlier[i - 1],
            #[trigger] earlier[i],
        ) by {
            assert(earlier[i] == states[i]);
        }
        law_handle_lasts(earlier, h);
        assert(udp_step(earlier.last(), states[states.len() - 1]));
    }
}

/// The call is an attempt to open a handle that the backend refused.
pub open spec fn is_failed_open(call: NetCall) -> bool {
    call matches NetCall::Connect { reply, .. } && reply is Err && call == open_call(reply)
}

/// `calls` are attempts to open a handle up to the `m`th, which gave `h`, and
/// from then on datagrams through `h`.
pub open spec fn opened_at(calls: Seq<NetCall>, m: int, h: i64) -> bool {
    &&& 0 <= m < calls.len()
    &&& forall|k: int| 0 <= k < m ==> is_failed_open(#[trigger] calls[k])
    &&& calls[m] == open_call(Ok(h))
    &&& forall|k: int| m < k < calls.len() ==> uses_handle(#[trigger] calls[k], h)
}

/// `calls` are all that a socket ever asked of its backend, with `handle` the
/// handle it has: attempts to open one until the first that succeeded, and from
/// then on datagrams through what that gave.
pub open spec fn is_udp_record(calls: Seq<NetCall>, handle: Option<i64>) -> bool {
    if handle is None {
        forall|k: int| 0 <= k < calls.len() ==> is_failed_open(#[trigger] calls[k])
    } else {
        exists|m: int| #[trigger] opened_at(calls, m, handle->0)
    }
}

/// One more call keeps the record.
proof fn lemma_udp_record(calls: Seq<NetCall>, handle: Option<i64>, call: NetCall)
    requires
        is_udp_record(calls, handle),
    ensures
        handle is None && is_failed_open(call) ==> is_udp_record(calls.push(call), None),
        call matches NetCall::Connect { reply: Ok(h), .. } ==> (handle is None && call == open_call(
            Ok(h),
        ) ==> is_udp_record(calls.push(call), Some(h))),
        handle is Some && uses_handle(call, handle->0) ==> is_udp_record(calls.push(call), handle),
{
    let longer = calls.push(call);
    if handle is None {
        if let NetCall::Connect { reply: Ok(h), .. } = call {
            if call == open_call(Ok(h)) {
                assert forall|k: int| 0 <= k < calls.len() implies is_failed_open(
                    #[trigger] longer[k],
                ) by {
                    assert(longer[k] == calls[k]);
                }
                assert(opened_at(longer, calls.len() as int, Some(h)->0));
            }
        }
    }
    if handle is Some && uses_handle(call, handle->0) {
        let m = choose|m: int| opened_at(calls, m, handle->0);
        assert(opened_at(calls.push(call), m, handle->0));
    }
}

/// One obtaining of the handle keeps the record.
proof fn lemma_obtaining_keeps_record(before: UdpSocket, h: Result<i64, Errno>, after: UdpSocket)
    requires
        before.net is Some,
        is_udp_record(before.net->0.calls(), before.handle),
        handle_obtained(before, h, after),
    ensures
        after.net is Some,
        is_udp_record(after.net->0.calls(), after.handle),
        h matches Ok(x) ==> after.handle == Some(x),
{
    lemma_udp_record(before.net->0.calls(), before.handle, open_call(h));
}

/// One call on the socket keeps the record.
proof fn lemma_step_keeps_record(before: Inode, after: Inode)
    requires
        udp_refusal(before) is None,
        is_udp_record(udp_calls(before), before.data->Udp_0.handle),
        udp_step(before, after),
    ensures
        udp_refusal(after) is None,
        is_udp_record(udp_calls(after), after.data->Udp_0.handle),
{
    let s = before.data->Udp_0;
    let t = after.data->Udp_0;
    if exists|r: Result<i64, Errno>| #[trigger] udp_opened(before, r, after) {
        let r = choose|r: Result<i64, Errno>| #[trigger] udp_opened(before, r, after);
        lemma_obtaining_keeps_record(s, r, t);
    } else if exists|buf: Seq<u8>, dest: Option<Seq<u8>>, r: Result<usize, Errno>| #[trigger]
        udp_sent(before, buf, dest, after, r) {
        let (buf, dest, r) = choose|
            buf: Seq<u8>,
            dest: Option<Seq<u8>>,
            r: Result<usize, Errno>,
        | #[trigger]
            udp_sent(before, buf, dest, after, r);
        if dest is Some {
            let (h, open) = choose|h: Result<i64, Errno>, open: UdpSocket|
                #[trigger] handle_obtained(s, h, open) && sent_through(open, h, buf, dest->0, t, r);
            lemma_obtaining_keeps_record(s, h, open);
            if let Ok(x) = h {
                let reply = choose|reply: Result<usize, Errno>|
                    #[trigger] udp_called(open, NetCall::SendTo { h: x, buf, addr: dest->0, reply }, t)
                        && r == clamped(reply, buf.len());
                lemma_udp_record(
                    open.net->0.calls(),
                    open.handle,
                    NetCall::SendTo { h: x, buf, addr: dest->0, reply },
                );
            }
        }
    } else if exists|
        buf: Seq<u8>,
        addr: Option<Seq<u8>>,
        buf_after: Seq<u8>,
        addr_after: Option<Seq<u8>>,
        r: Result<usize, Errno>,
    | #[trigger]
        udp_received(before, buf, addr, after, buf_after, addr_after, r) {
        let (buf, addr, buf_after, addr_after, r) = choose|
            buf: Seq<u8>,
            addr: Option<Seq<u8>>,
            buf_after: Seq<u8>,
            addr_after: Option<Seq<u8>>,
            r: Result<usize, Errno>,
        | #[trigger]
            udp_received(before, buf, addr, after, buf_after, addr_after, r);
        let (h, open) = choose|h: Result<i64, Errno>, open: UdpSocket|
            #[trigger] handle_obtained(s, h, open) && received_through(
                open,
                h,
                buf,
                addr,
                t,
                buf_after,
                addr_after,
                r,
            );
        lemma_obtaining_keeps_record(s, h, open);
        if h is Ok {
            lemma_udp_record(open.net->0.calls(), open.handle, t.net->0.calls().last());
            assert(t.net->0.calls() =~= open.net->0.calls().push(t.net->0.calls().last()));
        }
    }
}

/// A UDP socket opens its handle once, on first use: whatever a guest does with
/// a new socket, what it asks of its backend are attempts to open a handle, each
/// with an empty address, up to the first that succeeds, and from then on
/// datagrams through the handle that gave. It never asks for another.
pub proof fn law_socket_opens_one_handle(states: Seq<Inode>)
    requires
        states.len() > 0,
        udp_refusal(states[0]) is None,
        states[0].data->Udp_0.handle is None,
        udp_calls(states[0]) == Seq::<NetCall>::empty(),
        forall|i: int| 0 < i < states.len() ==> udp_step(states[i - 1], #[trigger] states[i]),
    ensures
        udp_refusal(states.last()) is None,
        is_udp_record(udp_calls(states.last()), states.last().data->Udp_0.handle),
    decreases states.len(),
{
    if states.len() > 1 {
        let earlier = states.drop_last();
        assert forall|i: int| 0 < i < earlier.len() implies udp_step(
            earlier[i - 1],
            #[trigger] earlier[i],
        ) by {
            assert(earlier[i] == states[i]);
        }
        law_socket_opens_one_handle(earlier);
        assert(udp_step(earlier.last(), states[states.len() - 1]));
        lemma_step_keeps_record(earlier.last(), states.last());
    }
}

} // verus!
