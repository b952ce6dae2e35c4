//! TCP over IPv4.

use vstd::prelude::*;
use vstd::slice::slice_subrange;

use crate::errno::{Errno, EACCES, EISCONN, ENOTCONN, ENOTSOCK};
use crate::fs::{Inode, InodeData};
#[allow(unused_imports)]
use crate::socket::net::{lemma_asked, NetCall};
use crate::socket::net::Net;
#[allow(unused_imports)]
use crate::socket::NetBackend;
#[allow(unused_imports)]
use crate::socket::{addr_prefix, clamped, zeros};
use crate::socket::{
    clamp_reply, least, Message, SocketAddr, AF_INET, SOCKET_STORAGE_SIZE, SOCK_STREAM,
};

verus! {

/// An `AF_INET`/`SOCK_STREAM` socket, served entirely by the installed
/// [`NetBackend`].
///
/// The socket owns nothing but the handle the backend gave it: there is no
/// byte queue, because every send and receive is a round trip to the host.
/// `handle` is `None` until `connect` succeeds, which is what makes sending and
/// receiving on an unconnected socket `ENOTCONN`; `net` is `None` when the
/// embedder installed no backend at all, which makes `connect` itself `EACCES`.
pub struct TcpSocket {
    pub net: Option<Net>,
    pub handle: Option<i64>,
    pub socket_addr: SocketAddr,
}

/// `inode` with the TCP socket `s` in it.
pub open spec fn with_tcp(inode: Inode, s: TcpSocket) -> Inode {
    Inode { data: InodeData::Tcp(s), ..inode }
}

/// `inode` after one more call through the reference of its TCP socket.
pub open spec fn tcp_asked(inode: Inode, call: NetCall) -> Inode {
    let s = inode.data->Tcp_0;
    with_tcp(inode, TcpSocket { net: Some(s.net->0.asked(call)), ..s })
}

/// The calls that the TCP socket in `inode` made of its backend.
pub open spec fn tcp_calls(inode: Inode) -> Seq<NetCall> {
    inode.data->Tcp_0.net->0.calls()
}

/// Exactly one call was made of the backend, with the answer that it gave, and
/// nothing else happened to the socket.
pub open spec fn tcp_called(before: Inode, call: NetCall, after: Inode) -> bool {
    &&& before.data->Tcp_0.net->0.backend().answers(call)
    &&& after == tcp_asked(before, call)
    &&& tcp_calls(after) == tcp_calls(before).push(call)
}

/// The error a `connect` is refused with before the backend is asked.
pub open spec fn connect_refusal(inode: Inode) -> Option<Errno> {
    match inode.data {
        InodeData::Tcp(s) => if s.handle is Some {
            Some(EISCONN)
        } else if s.net is None {
            Some(EACCES)
        } else {
            None
        },
        _ => Some(ENOTSOCK),
    }
}

/// What the backend's answer to a `connect` leads to: its handle and the
/// address are kept, or its error is passed on.
pub open spec fn connect_settled(
    before: Inode,
    addr: SocketAddr,
    reply: Result<i64, Errno>,
    after: Inode,
    r: Result<(), Errno>,
) -> bool {
    match (reply, before.data) {
        (Ok(h), InodeData::Tcp(s)) => {
            &&& r == Ok::<(), Errno>(())
            &&& after == with_tcp(
                before,
                TcpSocket { handle: Some(h), socket_addr: addr, ..s },
            )
        },
        (Ok(_), _) => r == Err::<(), Errno>(ENOTSOCK) && after == before,
        (Err(e), _) => r == Err::<(), Errno>(e) && after == before,
    }
}

/// A whole `connect`: refused without asking the backend, or settled with its
/// answer to exactly this request.
pub open spec fn connect_done(
    before: Inode,
    addr: SocketAddr,
    addr_len: usize,
    after: Inode,
    r: Result<(), Errno>,
) -> bool {
    match connect_refusal(before) {
        Some(e) => r == Err::<(), Errno>(e) && after == before,
        None => exists|reply: Result<i64, Errno>, asked: Inode|
            {
                &&& #[trigger] tcp_called(
                    before,
                    NetCall::Connect {
                        domain: AF_INET,
                        kind: SOCK_STREAM,
                        addr: addr_prefix(addr, addr_len),
                        reply,
                    },
                    asked,
                )
                &&& connect_settled(asked, addr, reply, after, r)
            },
    }
}

/// The handle of a connected socket, or why there is none.
pub open spec fn connection(inode: Inode) -> Result<i64, Errno> {
    match inode.data {
        InodeData::Tcp(s) => match s.handle {
            Some(h) if s.net is Some => Ok(h),
            _ => Err(ENOTCONN),
        },
        _ => Err(ENOTSOCK),
    }
}

/// Receiving: the backend fills the guest's buffer through the socket's handle,
/// asked once.
pub open spec fn tcp_received(
    before: Inode,
    buf: Seq<u8>,
    after: Inode,
    buf_after: Seq<u8>,
    r: Result<usize, Errno>,
) -> bool {
    match connection(before) {
        Err(e) => r == Err::<usize, Errno>(e) && after == before && buf_after == buf,
        Ok(h) => {
            &&& buf_after.len() == buf.len()
            &&& exists|reply: Result<usize, Errno>|
                #[trigger] tcp_called(
                    before,
                    NetCall::Recv { h, before: buf, after: buf_after, reply },
                    after,
                ) && r == clamped(reply, buf.len())
        },
    }
}

/// Sending: the backend gets the guest's buffer through the socket's handle,
/// once.
pub open spec fn tcp_sent(
    before: Inode,
    buf: Seq<u8>,
    after: Inode,
    r: Result<usize, Errno>,
) -> bool {
    match connection(before) {
        Err(e) => r == Err::<usize, Errno>(e) && after == before,
        Ok(h) => exists|reply: Result<usize, Errno>|
            #[trigger] tcp_called(before, NetCall::Send { h, buf, reply }, after) && r == clamped(
                reply,
                buf.len(),
            ),
    }
}

/// Binding: the address is remembered.
pub open spec fn tcp_bound(
    before: Inode,
    addr: SocketAddr,
    after: Inode,
    r: Result<(), Errno>,
) -> bool {
    match before.data {
        InodeData::Tcp(s) => r == Ok::<(), Errno>(()) && after == with_tcp(
            before,
            TcpSocket { socket_addr: addr, ..s },
        ),
        _ => r == Err::<(), Errno>(ENOTSOCK) && after == before,
    }
}

/// Releasing: the backend is told to close the handle, if there is one, and
/// nothing otherwise.
pub open spec fn tcp_released(before: TcpSocket, after: TcpSocket) -> bool {
    match (before.net, before.handle) {
        (Some(net), Some(h)) => {
            &&& net.backend().answers(NetCall::Close { h })
            &&& after == (TcpSocket {
                net: Some(net.asked(NetCall::Close { h })),
                handle: None,
                ..before
            })
            &&& after.net->0.calls() == net.calls().push(NetCall::Close { h })
        },
        _ => after == (TcpSocket { handle: None, ..before }),
    }
}

impl TcpSocket {
    /// A socket of a guest with the given access to the network, not connected.
    pub fn new(net: Option<Net>) -> (s: TcpSocket)
        ensures
            s.net == net,
            s.handle is None,
            s.socket_addr.addr@ == zeros(SOCKET_STORAGE_SIZE as nat),
    {
        TcpSocket { net, handle: None, socket_addr: SocketAddr::default() }
    }

    /// The socket in an inode.
    fn data(inode: &mut Inode) -> (r: Result<&mut TcpSocket, Errno>)
        ensures
            match old(inode).data {
                InodeData::Tcp(s) => {
                    &&& r is Ok
                    &&& *(r->Ok_0) == s
                    &&& *final(inode) == with_tcp(*old(inode), *final(r->Ok_0))
                },
                _ => r == Err::<&mut TcpSocket, Errno>(ENOTSOCK) && *final(inode) == *old(inode),
            },
    {
        match &mut inode.data {
            InodeData::Tcp(socket) => Ok(socket),
            _ => Err(ENOTSOCK),
        }
    }

    /// The backend and handle of a connected socket.
    fn connected(inode: &mut Inode) -> (r: Result<(&mut Net, i64), Errno>)
        ensures
            match connection(*old(inode)) {
                Err(e) => r == Err::<(&mut Net, i64), Errno>(e) && *final(inode) == *old(inode),
                Ok(h) => {
                    &&& r is Ok
                    &&& r->Ok_0.1 == h
                    &&& *(r->Ok_0.0) == old(inode).data->Tcp_0.net->0
                    &&& *final(inode) == with_tcp(
                        *old(inode),
                        TcpSocket { net: Some(*final(r->Ok_0.0)), ..old(inode).data->Tcp_0 },
                    )
                },
            },
    {
        match Self::data(inode) {
            Err(e) => Err(e),
            Ok(socket) => match socket.handle {
                None => Err(ENOTCONN),
                Some(handle) => match &mut socket.net {
                    None => Err(ENOTCONN),
                    Some(net) => Ok((net, handle)),
                },
            },
        }
    }

    /// The backend to connect through, or the error that a `connect` is refused
    /// with.
    fn connector(inode: &mut Inode) -> (r: Result<&mut Net, Errno>)
        ensures
            match connect_refusal(*old(inode)) {
                Some(e) => r == Err::<&mut Net, Errno>(e) && *final(inode) == *old(inode),
                None => {
                    &&& r is Ok
                    &&& *(r->Ok_0) == old(inode).data->Tcp_0.net->0
                    &&& *final(inode) == with_tcp(
                        *old(inode),
                        TcpSocket { net: Some(*final(r->Ok_0)), ..old(inode).data->Tcp_0 },
                    )
                },
            },
    {
        match Self::data(inode) {
            Err(e) => Err(e),
            Ok(socket) => {
                if socket.handle.is_some() {
                    return Err(EISCONN);
                }
                match &mut socket.net {
                    Some(net) => Ok(net),
                    None => Err(EACCES),
                }
            },
        }
    }

    /// Opens the host-side connection described by `addr` (the first
    /// `addr_len` bytes are the guest's `sockaddr`).
    ///
    /// `EACCES` when no backend is installed: a guest that is not meant to have
    /// network access must be told so, rather than silently succeeding against
    /// nothing.
    pub fn connect(inode: &mut Inode, addr: &SocketAddr, addr_len: usize) -> (r: Result<(), Errno>)
        ensures
            connect_done(*old(inode), *addr, addr_len, *final(inode), r),
    {
        match Self::connector(inode) {
            Err(e) => Err(e),
            Ok(net) => {
                let n: usize = least(addr_len, SOCKET_STORAGE_SIZE);
                let name: &[u8] = slice_subrange(addr.addr.as_slice(), 0, n);
                assert(name@ =~= addr_prefix(*addr, addr_len));
                let reply: Result<i64, Errno> = net.connect(AF_INET, SOCK_STREAM, name);
                let ghost call = NetCall::Connect {
                    domain: AF_INET,
                    kind: SOCK_STREAM,
                    addr: addr_prefix(*addr, addr_len),
                    reply,
                };
                assert(tcp_called(*old(inode), call, *inode)) by {
                    lemma_asked(old(inode).data->Tcp_0.net->0, call);
                }
                Self::finish_connect(inode, addr, reply)
            },
        }
    }

    /// Takes the backend's answer to a `connect`.
    pub fn finish_connect(
        inode: &mut Inode,
        addr: &SocketAddr,
        reply: Result<i64, Errno>,
    ) -> (r: Result<(), Errno>)
        ensures
            connect_settled(*old(inode), *addr, reply, *final(inode), r),
    {
        match reply {
            Err(e) => Err(e),
            Ok(handle) => match Self::data(inode) {
                Err(e) => Err(e),
                Ok(socket) => {
                    socket.handle = Some(handle);
                    socket.socket_addr = *addr;
                    Ok(())
                },
            },
        }
    }

    /// Receives from the host.
    pub fn recvfrom_tcp(inode: &mut Inode, msg: &mut Message) -> (r: Result<usize, Errno>)
        ensures
            tcp_received(*old(inode), old(msg).buf@, *final(inode), final(msg).buf@, r),
            final(msg).address == old(msg).address,
            final(final(msg).buf)@ == final(old(msg).buf)@,
    {
        match Self::connected(inode) {
            Err(e) => Err(e),
            Ok((net, handle)) => {
                let room: usize = msg.buf.len();
                let reply: Result<usize, Errno> = net.recv(handle, msg.buf);
                let ghost call = NetCall::Recv {
                    h: handle,
                    before: old(msg).buf@,
                    after: msg.buf@,
                    reply,
                };
                assert(tcp_called(*old(inode), call, *inode)) by {
                    lemma_asked(old(inode).data->Tcp_0.net->0, call);
                }
                clamp_reply(reply, room)
            },
        }
    }

    /// Sends to the host.
    pub fn sendto_tcp(inode: &mut Inode, msg: &Message) -> (r: Result<usize, Errno>)
        ensures
            tcp_sent(*old(inode), old(msg.buf)@, *final(inode), r),
    {
        match Self::connected(inode) {
            Err(e) => Err(e),
            Ok((net, handle)) => {
                let reply: Result<usize, Errno> = net.send(handle, msg.buf);
                let ghost call = NetCall::Send { h: handle, buf: old(msg.buf)@, reply };
                assert(tcp_called(*old(inode), call, *inode)) by {
                    lemma_asked(old(inode).data->Tcp_0.net->0, call);
                }
                clamp_reply(reply, msg.buf.len())
            },
        }
    }

    /// Remembers the address the socket is bound to.
    pub fn bind_tcp(inode: &mut Inode, addr: &SocketAddr) -> (r: Result<(), Errno>)
        ensures
            tcp_bound(*old(inode), *addr, *final(inode), r),
    {
        match Self::data(inode) {
            Err(e) => Err(e),
            Ok(socket) => {
                socket.socket_addr = *addr;
                Ok(())
            },
        }
    }

    /// Releases the host-side connection. Whoever owns the socket calls this
    /// when the last file descriptor referring to it goes away.
    pub fn release(&mut self)
        ensures
            tcp_released(*old(self), *final(self)),
    {
        broadcast use lemma_asked;

        if let Some(handle) = self.handle {
            if let Some(net) = &mut self.net {
                net.close(handle);
            }
        }
        self.handle = None;
    }
}

/// A successful `connect` keeps the backend's handle: the socket hands that
/// same value to the same backend from then on, and another `connect` is
/// refused with `EISCONN`.
pub proof fn law_connected_socket_keeps_its_handle(
    before: Inode,
    addr: SocketAddr,
    h: i64,
    after: Inode,
    r: Result<(), Errno>,
)
    requires
        before.data is Tcp,
        before.data->Tcp_0.net is Some,
        connect_settled(before, addr, Ok(h), after, r),
    ensures
        r is Ok,
        connection(after) == Ok::<i64, Errno>(h),
        after.data->Tcp_0.net == before.data->Tcp_0.net,
        connect_refusal(after) == Some(EISCONN),
{
}

/// A `connect` that fails leaves the socket as it was: one that was refused
/// changes nothing at all, and one that the backend failed leaves no more behind
/// than the record that it was tried, so that the next one is tried as well.
pub proof fn law_failed_connect_changes_nothing(
    before: Inode,
    addr: SocketAddr,
    addr_len: usize,
    after: Inode,
    r: Result<(), Errno>,
)
    requires
        connect_done(before, addr, addr_len, after, r),
        r is Err,
    ensures
        connect_refusal(before) is Some ==> after == before,
        connect_refusal(before) is None ==> after == tcp_asked(
            before,
            NetCall::Connect {
                domain: AF_INET,
                kind: SOCK_STREAM,
                addr: addr_prefix(addr, addr_len),
                reply: Err(r->Err_0),
            },
        ) && after.data->Tcp_0.handle is None,
        connect_refusal(after) == connect_refusal(before),
        connection(after) == connection(before),
{
}

/// A socket that is not connected neither sends nor receives: both are
/// `ENOTCONN`, the guest's buffer stays as it is, and the backend is not asked.
pub proof fn law_unconnected_socket_is_silent(
    inode: Inode,
    buf: Seq<u8>,
    buf_after: Seq<u8>,
    after_receiving: Inode,
    received: Result<usize, Errno>,
    after_sending: Inode,
    sent: Result<usize, Errno>,
)
    requires
        inode.data is Tcp,
        inode.data->Tcp_0.handle is None,
        tcp_received(inode, buf, after_receiving, buf_after, received),
        tcp_sent(inode, buf, after_sending, sent),
    ensures
        received == Err::<usize, Errno>(ENOTCONN),
        sent == Err::<usize, Errno>(ENOTCONN),
        buf_after == buf,
        after_receiving == inode,
        after_sending == inode,
{
}

/// Binding does not disturb a connection.
pub proof fn law_bind_keeps_the_connection(
    before: Inode,
    addr: SocketAddr,
    after: Inode,
    r: Result<(), Errno>,
)
    requires
        tcp_bound(before, addr, after, r),
    ensures
        connection(after) == connection(before),
        connect_refusal(after) == connect_refusal(before),
{
}

/// `after` is what some call on a TCP socket made of `before`: a receive, a
/// send, a bind or a connect.
pub open spec fn tcp_step(before: Inode, after: Inode) -> bool {
    ||| exists|buf: Seq<u8>, buf_after: Seq<u8>, r: Result<usize, Errno>| #[trigger]
        tcp_received(before, buf, after, buf_after, r)
    ||| exists|buf: Seq<u8>, r: Result<usize, Errno>| #[trigger] tcp_sent(before, buf, after, r)
    ||| exists|addr: SocketAddr, r: Result<(), Errno>| #[trigger] tcp_bound(before, addr, after, r)
    ||| exists|addr: SocketAddr, addr_len: usize, r: Result<(), Errno>| #[trigger]
        connect_done(before, addr, addr_len, after, r)
}

/// A call that goes through the connected handle `h`.
pub open spec fn uses_connection(call: NetCall, h: i64) -> bool {
    match call {
        NetCall::Send { h: x, .. } => x == h,
        NetCall::Recv { h: x, .. } => x == h,
        _ => false,
    }
}

/// A connection lasts: whatever a guest does with a connected socket, it keeps
/// its handle and its backend, and everything that it asks of the backend goes
/// through that handle.
pub proof fn law_connection_lasts(states: Seq<Inode>, h: i64)
    requires
        states.len() > 0,
        connection(states[0]) == Ok::<i64, Errno>(h),
        forall|i: int| 0 < i < states.len() ==> tcp_step(states[i - 1], #[trigger] states[i]),
    ensures
        connection(states.last()) == Ok::<i64, Errno>(h),
        states.last().data->Tcp_0.net->0.backend() == states[0].data->Tcp_0.net->0.backend(),
        tcp_calls(states[0]).is_prefix_of(tcp_calls(states.last())),
        forall|k: int|
            tcp_calls(states[0]).len() <= k < tcp_calls(states.last()).len() ==> uses_connection(
                #[trigger] tcp_calls(states.last())[k],
                h,
            ),
    decreases states.len(),
{
    if states.len() > 1 {
        broadcast use lemma_asked;

        let earlier = states.drop_last();
        assert forall|i: int| 0 < i < earlier.len() implies tcp_step(
            earlier[i - 1],
            #[trigger] earlier[i],
        ) by {
            assert(earlier[i] == states[i]);
        }
        law_connection_lasts(earlier, h);
        assert(tcp_step(earlier.last(), states[states.len() - 1]));
    }
}

} // verus!
