//! What sockets do, in terms of the bytes that the guest and the backend see,
//! the errors the guest is given, and the calls that are made.

use vstd::prelude::*;

#[allow(unused_imports)]
use crate::errno::Errno;
#[allow(unused_imports)]
use crate::fs::{ActiveFileData, FileKind, Inode, InodeData, InodeVtable, Stream, TempFs};
#[allow(unused_imports)]
use crate::socket::net::{lemma_asked, Net, NetCall};
#[allow(unused_imports)]
use crate::socket::sockfs::SocketFs;
#[allow(unused_imports)]
use crate::socket::tcp::TcpSocket;
#[allow(unused_imports)]
use crate::socket::udp::UdpSocket;
#[allow(unused_imports)]
use crate::socket::unix::{UnixDgram, UnixStream};
#[allow(unused_imports)]
use crate::socket::{clamp_reply, LinuxMmu, Message, NetBackend, SocketAddr};

verus! {

/// An address that the guest's memory gave has the bytes that were read, each in
/// its place, and zeros behind them; a failed read is passed on as it is.
pub proof fn law_addresses_keep_their_bytes<E>(
    read: &[u8],
    reply: Result<(), E>,
    r: Result<Option<SocketAddr>, E>,
)
    requires
        read@.len() <= 64,
        call_ensures(SocketAddr::from_read::<E>, (read, reply), r),
    ensures
        reply matches Err(e) ==> r == Err::<Option<SocketAddr>, E>(e),
        reply is Ok ==> {
            &&& r matches Ok(Some(a))
            &&& a.addr@.len() == 64
            &&& forall|i: int|
                0 <= i < 64 ==> #[trigger] a.addr@[i] == if i < read@.len() {
                    read@[i]
                } else {
                    0
                }
        },
{
    if let Ok(Some(a)) = r {
        if reply is Ok {
            assert(a.addr@ == crate::le::splice(crate::socket::zeros(64), 0, read@));
        }
    }
}

/// Reading an address asks the guest's memory once, at the guest's address, for
/// as many bytes as the guest says, 64 at most, and gives exactly what it
/// answered. A null address is no address, and the memory is not asked.
pub proof fn law_addresses_are_read_once<M: LinuxMmu>(
    mem: &mut M,
    addr: u64,
    len: u64,
    r: Result<Option<SocketAddr>, M::Error>,
)
    requires
        len <= usize::MAX,
        call_ensures(SocketAddr::read_user::<M>, (mem, addr, len), r),
    ensures
        addr == 0 ==> r == Ok::<Option<SocketAddr>, M::Error>(None) && *final(mem) == *old(mem),
        addr != 0 ==> exists|blank: Seq<u8>, read: Seq<u8>, reply: Result<(), M::Error>|
            {
                &&& #[trigger] old(mem).reads(*final(mem), addr, blank, read, reply)
                &&& blank.len() == if len < 64 {
                    len as int
                } else {
                    64
                }
                &&& forall|i: int| 0 <= i < blank.len() ==> #[trigger] blank[i] == 0
                &&& read.len() == blank.len()
                &&& reply matches Err(e) ==> r == Err::<Option<SocketAddr>, M::Error>(e)
                &&& reply is Ok ==> {
                    &&& r matches Ok(Some(a))
                    &&& a.addr@.len() == 64
                    &&& forall|i: int|
                        0 <= i < 64 ==> #[trigger] a.addr@[i] == if i < read.len() {
                            read[i]
                        } else {
                            0
                        }
                }
            },
{
    if addr != 0 {
        let n = crate::socket::stored_len(len as usize);
        let (read, reply) = choose|read: Seq<u8>, reply: Result<(), M::Error>|
            {
                &&& read.len() == n
                &&& #[trigger] old(mem).reads(
                    *final(mem),
                    addr,
                    crate::socket::zeros(n),
                    read,
                    reply,
                )
                &&& crate::socket::is_read_addr(read, reply, r)
            };
        assert(old(mem).reads(*final(mem), addr, crate::socket::zeros(n), read, reply));
        if let Ok(Some(a)) = r {
            if reply is Ok {
                assert(a.addr@ == crate::le::splice(crate::socket::zeros(64), 0, read));
            }
        }
    }
}

/// The guest is told of as many bytes as the backend reported, but never of more
/// than its buffer holds; 0 is passed on like any other number, and an error as
/// it is.
pub proof fn law_counts_are_passed_on(
    reply: Result<usize, Errno>,
    room: usize,
    r: Result<usize, Errno>,
)
    requires
        call_ensures(clamp_reply, (reply, room), r),
    ensures
        reply matches Ok(n) && n <= room ==> r == reply,
        reply matches Ok(n) && n > room ==> r == Ok::<usize, Errno>(room),
        reply is Err ==> r == reply,
{
}

/// A stream takes everything that is written to it, behind what is there.
pub proof fn law_streams_take_everything(
    s: &mut Stream,
    buf: &[u8],
    r: Result<usize, Errno>,
    i: int,
)
    requires
        call_ensures(Stream::write, (s, buf), r),
        0 <= i < final(s).pending@.len(),
    ensures
        r matches Ok(n) && n == buf@.len(),
        final(s).pending@.len() == old(s).pending@.len() + buf@.len(),
        i < old(s).pending@.len() ==> final(s).pending@[i] == old(s).pending@[i],
        i >= old(s).pending@.len() ==> final(s).pending@[i] == buf@[i - old(s).pending@.len()],
{
}

/// A stream gives its oldest bytes, as many as fit, in order, to the start of the
/// buffer, and keeps the rest; one with nothing in it would block, and changes
/// nothing.
pub proof fn law_streams_give_the_oldest(
    s: &mut Stream,
    buf: &mut [u8],
    r: Result<usize, Errno>,
    i: int,
)
    requires
        call_ensures(Stream::read, (s, buf), r),
    ensures
        old(s).pending@.len() == 0 ==> r == Err::<usize, Errno>(11) && final(buf)@ == old(buf)@
            && final(s).pending@ == old(s).pending@,
        old(s).pending@.len() > 0 ==> {
            let n = if old(s).pending@.len() < old(buf)@.len() {
                old(s).pending@.len() as int
            } else {
                old(buf)@.len() as int
            };
            &&& r matches Ok(m) && m == n
            &&& final(buf)@.len() == old(buf)@.len()
            &&& 0 <= i < n ==> final(buf)@[i] == old(s).pending@[i]
            &&& n <= i < old(buf)@.len() ==> final(buf)@[i] == old(buf)@[i]
            &&& final(s).pending@.len() == old(s).pending@.len() - n
            &&& 0 <= i < final(s).pending@.len() ==> final(s).pending@[i] == old(s).pending@[i + n]
        },
{
}

/// A datagram socket gives the message in its current slot, cut off where the
/// guest's buffer ends, byte for byte; the slot is then empty, every other slot
/// as it was, and the next one of the sixteen is current. Without a message
/// there it would block, and nothing changes.
pub proof fn law_datagrams_are_given_one_by_one(
    inode: &mut Inode,
    msg: &mut Message,
    r: Result<usize, Errno>,
    i: int,
)
    requires
        old(inode).data is UnixDgram,
        old(inode).data->UnixDgram_0.recv_index < 16,
        call_ensures(UnixDgram::recvfrom, (inode, msg), r) || (old(inode).vtable
            == InodeVtable::UnixDgram && call_ensures(Inode::recvfrom, (inode, msg), r)),
    ensures
        final(inode).data is UnixDgram,
        final(inode).dev_id == old(inode).dev_id && final(inode).number == old(inode).number
            && final(inode).vtable == old(inode).vtable && final(inode).kind == old(inode).kind,
        final(msg).buf@.len() == old(msg).buf@.len(),
        final(msg).address is Some == old(msg).address is Some,
        old(msg).address is Some ==> final(msg).address->0.addr@ == old(msg).address->0.addr@,
        ({
            let s = old(inode).data->UnixDgram_0;
            let t = final(inode).data->UnixDgram_0;
            let at = s.recv_index as int;
            let message = s.buf[at]@;
            let buf = old(msg).buf@;
            let n = if message.len() < buf.len() {
                message.len() as int
            } else {
                buf.len() as int
            };
            if message.len() == 0 {
                &&& r == Err::<usize, Errno>(11)
                &&& *final(inode) == *old(inode)
                &&& final(msg).buf@ == buf
            } else {
                &&& r matches Ok(m) && m == n
                &&& 0 <= i < n ==> final(msg).buf@[i] == message[i]
                &&& n <= i < buf.len() ==> final(msg).buf@[i] == buf[i]
                &&& t.buf[at]@.len() == 0
                &&& 0 <= i < 16 && i != at ==> t.buf[i]@ == s.buf[i]@
                &&& at == 15 ==> t.recv_index == 0
                &&& at < 15 ==> t.recv_index == at + 1
                &&& t.socket_addr == s.socket_addr
            }
        }),
{
    let s = old(inode).data->UnixDgram_0;
    let t = final(inode).data->UnixDgram_0;
    let at = s.recv_index as int;
    assert(s.slots()[at] == s.buf[at]@);
    assert(t.slots()[at] == t.buf[at]@);
    if 0 <= i < 16 {
        assert(s.slots()[i] == s.buf[i]@);
        assert(t.slots()[i] == t.buf[i]@);
    }
}

/// A stream socket receives what was sent first, as much as fits, to the start
/// of the guest's buffer, and keeps the rest; one with nothing pending would
/// block.
pub proof fn law_stream_sockets_receive_the_oldest(
    inode: &mut Inode,
    msg: &mut Message,
    r: Result<usize, Errno>,
    i: int,
)
    requires
        old(inode).data is UnixStream,
        call_ensures(UnixStream::recvfrom, (inode, msg), r) || (old(inode).vtable
            == InodeVtable::UnixStream && call_ensures(Inode::recvfrom, (inode, msg), r)),
    ensures
        final(inode).data is UnixStream,
        final(inode).dev_id == old(inode).dev_id && final(inode).number == old(inode).number
            && final(inode).vtable == old(inode).vtable && final(inode).kind == old(inode).kind,
        final(msg).buf@.len() == old(msg).buf@.len(),
        final(msg).address is Some == old(msg).address is Some,
        old(msg).address is Some ==> final(msg).address->0.addr@ == old(msg).address->0.addr@,
        ({
            let s = old(inode).data->UnixStream_0;
            let t = final(inode).data->UnixStream_0;
            let pending = s.stream.pending@;
            let left = t.stream.pending@;
            let buf = old(msg).buf@;
            let n = if pending.len() < buf.len() {
                pending.len() as int
            } else {
                buf.len() as int
            };
            &&& t.socket_addr == s.socket_addr
            &&& if pending.len() == 0 {
                &&& r == Err::<usize, Errno>(11)
                &&& left == pending
                &&& final(msg).buf@ == buf
            } else {
                &&& r matches Ok(m) && m == n
                &&& 0 <= i < n ==> final(msg).buf@[i] == pending[i]
                &&& n <= i < buf.len() ==> final(msg).buf@[i] == buf[i]
                &&& left.len() == pending.len() - n
                &&& 0 <= i < left.len() ==> left[i] == pending[i + n]
            }
        }),
{
}

/// A stream socket sends everything, behind what is pending.
pub proof fn law_stream_sockets_send_everything(
    inode: &mut Inode,
    msg: &Message,
    r: Result<usize, Errno>,
    i: int,
)
    requires
        old(inode).data is UnixStream,
        call_ensures(UnixStream::sendto, (inode, msg), r) || (old(inode).vtable
            == InodeVtable::UnixStream && call_ensures(Inode::sendto, (inode, msg), r)),
    ensures
        final(inode).data is UnixStream,
        final(inode).dev_id == old(inode).dev_id && final(inode).number == old(inode).number
            && final(inode).vtable == old(inode).vtable && final(inode).kind == old(inode).kind,
        ({
            let s = old(inode).data->UnixStream_0;
            let t = final(inode).data->UnixStream_0;
            let before = s.stream.pending@;
            let after = t.stream.pending@;
            let buf = old(msg.buf)@;
            &&& t.socket_addr == s.socket_addr
            &&& r matches Ok(m) && m == buf.len()
            &&& after.len() == before.len() + buf.len()
            &&& 0 <= i < before.len() ==> after[i] == before[i]
            &&& 0 <= i < buf.len() ==> after[before.len() + i] == buf[i]
        }),
{
}

/// Binding remembers the address in the socket, and changes nothing else of it or
/// of its inode.
pub proof fn law_binding_remembers_the_address(
    inode: &mut Inode,
    addr: &SocketAddr,
    r: Result<(), Errno>,
)
    requires
        ({
            ||| old(inode).data is UnixDgram && call_ensures(UnixDgram::bind, (inode, addr), r)
            ||| old(inode).data is UnixStream && call_ensures(UnixStream::bind, (inode, addr), r)
            ||| old(inode).data is Tcp && call_ensures(TcpSocket::bind_tcp, (inode, addr), r)
            ||| old(inode).data is Udp && call_ensures(UdpSocket::bind_udp, (inode, addr), r)
            ||| old(inode).data is UnixStream && (old(inode).vtable == InodeVtable::UnixStream
                || old(inode).vtable == InodeVtable::Netlink) && call_ensures(
                Inode::bind,
                (inode, addr),
                r,
            )
            ||| old(inode).data is Tcp && old(inode).vtable == InodeVtable::Tcp && call_ensures(
                Inode::bind,
                (inode, addr),
                r,
            )
            ||| old(inode).data is Udp && old(inode).vtable == InodeVtable::Udp && call_ensures(
                Inode::bind,
                (inode, addr),
                r,
            )
        }),
    ensures
        r == Ok::<(), Errno>(()),
        final(inode).dev_id == old(inode).dev_id && final(inode).number == old(inode).number
            && final(inode).vtable == old(inode).vtable && final(inode).kind == old(inode).kind,
        match (old(inode).data, final(inode).data) {
            (InodeData::UnixDgram(s), InodeData::UnixDgram(t)) => {
                &&& t.socket_addr == *addr
                &&& t.recv_index == s.recv_index
                &&& t.buf == s.buf
            },
            (InodeData::UnixStream(s), InodeData::UnixStream(t)) => {
                &&& t.socket_addr == *addr
                &&& t.stream == s.stream
            },
            (InodeData::Tcp(s), InodeData::Tcp(t)) => {
                &&& t.socket_addr == *addr
                &&& t.handle == s.handle
                &&& t.net == s.net
            },
            (InodeData::Udp(s), InodeData::Udp(t)) => {
                &&& t.socket_addr == *addr
                &&& t.handle == s.handle
                &&& t.net == s.net
            },
            _ => false,
        },
{
}

/// Connecting asks the backend once, for an IPv4 stream (2, 1), with the bytes of
/// the guest's address as they are, as many as the guest says and 64 at most;
/// keeps the handle and the address where the backend connects, and passes its
/// error on where it does not. A connected socket (106), one without a backend
/// (13) and an inode without a TCP socket (88) are refused, and nothing is asked
/// or changed.
pub proof fn law_connecting_asks_for_the_guests_address(
    inode: &mut Inode,
    addr: &SocketAddr,
    addr_len: usize,
    r: Result<(), Errno>,
)
    requires
        call_ensures(TcpSocket::connect, (inode, addr, addr_len), r) || (old(inode).vtable
            == InodeVtable::Tcp && call_ensures(Inode::connect, (inode, addr, addr_len), r)),
    ensures
        final(inode).dev_id == old(inode).dev_id && final(inode).number == old(inode).number
            && final(inode).vtable == old(inode).vtable && final(inode).kind == old(inode).kind,
        match old(inode).data {
            InodeData::Tcp(s) => if s.handle is Some {
                r == Err::<(), Errno>(106) && *final(inode) == *old(inode)
            } else if s.net is None {
                r == Err::<(), Errno>(13) && *final(inode) == *old(inode)
            } else {
                &&& final(inode).data matches InodeData::Tcp(t)
                &&& t.net is Some
                &&& t.net->0.backend() == s.net->0.backend()
                &&& t.net->0.calls().len() == s.net->0.calls().len() + 1
                &&& t.net->0.calls().drop_last() == s.net->0.calls()
                &&& s.net->0.backend().answers(t.net->0.calls().last())
                &&& t.net->0.calls().last() matches NetCall::Connect {
                    domain,
                    kind,
                    addr: name,
                    reply,
                }
                &&& domain == 2 && kind == 1
                &&& name.len() == if addr_len < 64 {
                    addr_len as int
                } else {
                    64
                }
                &&& forall|i: int| 0 <= i < name.len() ==> #[trigger] name[i] == addr.addr@[i]
                &&& reply is Ok ==> r == Ok::<(), Errno>(()) && t.handle == Some(reply->Ok_0)
                    && t.socket_addr == *addr
                &&& reply is Err ==> r == Err::<(), Errno>(reply->Err_0) && t.handle is None
                    && t.socket_addr == s.socket_addr
            },
            _ => r == Err::<(), Errno>(88) && *final(inode) == *old(inode),
        },
{
    broadcast use lemma_asked;

    match (old(inode).data, final(inode).data) {
        (InodeData::Tcp(s), InodeData::Tcp(t)) => {
            if s.net is Some && t.net is Some && s.handle is None {
                assert(t.net->0.calls().drop_last() =~= s.net->0.calls());
            }
        },
        _ => {},
    }
}

/// What the backend answered to a connect is kept or passed on: its handle with
/// the address, or its error, and on an inode without a TCP socket nothing.
pub proof fn law_connecting_keeps_the_answer(
    inode: &mut Inode,
    addr: &SocketAddr,
    reply: Result<i64, Errno>,
    r: Result<(), Errno>,
)
    requires
        call_ensures(TcpSocket::finish_connect, (inode, addr, reply), r),
    ensures
        reply matches Err(e) ==> r == Err::<(), Errno>(e) && *final(inode) == *old(inode),
        reply is Ok && !(old(inode).data is Tcp) ==> r == Err::<(), Errno>(88) && *final(inode)
            == *old(inode),
        reply is Ok && old(inode).data is Tcp ==> {
            &&& r == Ok::<(), Errno>(())
            &&& final(inode).data matches InodeData::Tcp(t)
            &&& t.handle == Some(reply->Ok_0)
            &&& t.socket_addr == *addr
            &&& t.net == old(inode).data->Tcp_0.net
            &&& final(inode).dev_id == old(inode).dev_id && final(inode).number == old(
                inode,
            ).number
            &&& final(inode).vtable == old(inode).vtable && final(inode).kind == old(inode).kind
        },
{
}

/// Receiving on a connected TCP socket asks the backend once, through the
/// socket's handle, to fill the guest's whole buffer. What it reports is what the
/// guest is told, 0 for a peer that is gone included, cut down to the buffer; the
/// guest gets an error only if the backend gave it. A socket that is not
/// connected (107) and an inode without one (88) are refused, and nothing is
/// asked or changed.
pub proof fn law_receiving_reports_what_the_backend_did(
    inode: &mut Inode,
    msg: &mut Message,
    r: Result<usize, Errno>,
)
    requires
        call_ensures(TcpSocket::recvfrom_tcp, (inode, msg), r) || (old(inode).vtable
            == InodeVtable::Tcp && call_ensures(Inode::recvfrom, (inode, msg), r)),
    ensures
        final(inode).dev_id == old(inode).dev_id && final(inode).number == old(inode).number
            && final(inode).vtable == old(inode).vtable && final(inode).kind == old(inode).kind,
        final(msg).buf@.len() == old(msg).buf@.len(),
        final(msg).address is Some == old(msg).address is Some,
        old(msg).address is Some ==> final(msg).address->0.addr@ == old(msg).address->0.addr@,
        match old(inode).data {
            InodeData::Tcp(s) => if s.handle is None || s.net is None {
                &&& r == Err::<usize, Errno>(107)
                &&& *final(inode) == *old(inode)
                &&& final(msg).buf@ == old(msg).buf@
            } else {
                &&& final(inode).data matches InodeData::Tcp(t)
                &&& t.handle == s.handle
                &&& t.socket_addr == s.socket_addr
                &&& t.net is Some
                &&& t.net->0.backend() == s.net->0.backend()
                &&& t.net->0.calls().len() == s.net->0.calls().len() + 1
                &&& t.net->0.calls().drop_last() == s.net->0.calls()
                &&& s.net->0.backend().answers(t.net->0.calls().last())
                &&& t.net->0.calls().last() matches NetCall::Recv { h, before, after, reply }
                &&& Some(h) == s.handle
                &&& before == old(msg).buf@
                &&& after == final(msg).buf@
                &&& reply matches Err(e) ==> r == Err::<usize, Errno>(e)
                &&& reply matches Ok(n) ==> r == Ok::<usize, Errno>(
                    if n <= old(msg).buf@.len() {
                        n
                    } else {
                        old(msg).buf@.len() as usize
                    },
                )
            },
            _ => {
                &&& r == Err::<usize, Errno>(88)
                &&& *final(inode) == *old(inode)
                &&& final(msg).buf@ == old(msg).buf@
            },
        },
{
    broadcast use lemma_asked;

    match (old(inode).data, final(inode).data) {
        (InodeData::Tcp(s), InodeData::Tcp(t)) => {
            if s.net is Some && t.net is Some && s.handle is Some {
                assert(t.net->0.calls().drop_last() =~= s.net->0.calls());
            }
        },
        _ => {},
    }
}

/// Sending on a connected TCP socket hands the backend the guest's bytes once,
/// all of them as they are, through the socket's handle, and tells the guest what
/// it reports, cut down to the buffer. A socket that is not connected (107) and
/// an inode without one (88) are refused, and nothing is asked or changed.
pub proof fn law_sending_hands_over_every_byte(
    inode: &mut Inode,
    msg: &Message,
    r: Result<usize, Errno>,
)
    requires
        call_ensures(TcpSocket::sendto_tcp, (inode, msg), r) || (old(inode).vtable
            == InodeVtable::Tcp && call_ensures(Inode::sendto, (inode, msg), r)),
    ensures
        final(inode).dev_id == old(inode).dev_id && final(inode).number == old(inode).number
            && final(inode).vtable == old(inode).vtable && final(inode).kind == old(inode).kind,
        match old(inode).data {
            InodeData::Tcp(s) => if s.handle is None || s.net is None {
                r == Err::<usize, Errno>(107) && *final(inode) == *old(inode)
            } else {
                &&& final(inode).data matches InodeData::Tcp(t)
                &&& t.handle == s.handle
                &&& t.socket_addr == s.socket_addr
                &&& t.net is Some
                &&& t.net->0.backend() == s.net->0.backend()
                &&& t.net->0.calls().len() == s.net->0.calls().len() + 1
                &&& t.net->0.calls().drop_last() == s.net->0.calls()
                &&& s.net->0.backend().answers(t.net->0.calls().last())
                &&& t.net->0.calls().last() matches NetCall::Send { h, buf, reply }
                &&& Some(h) == s.handle
                &&& buf == old(msg.buf)@
                &&& reply matches Err(e) ==> r == Err::<usize, Errno>(e)
                &&& reply matches Ok(n) ==> r == Ok::<usize, Errno>(
                    if n <= buf.len() {
                        n
                    } else {
                        buf.len() as usize
                    },
                )
            },
            _ => r == Err::<usize, Errno>(88) && *final(inode) == *old(inode),
        },
{
    broadcast use lemma_asked;

    match (old(inode).data, final(inode).data) {
        (InodeData::Tcp(s), InodeData::Tcp(t)) => {
            if s.net is Some && t.net is Some && s.handle is Some {
                assert(t.net->0.calls().drop_last() =~= s.net->0.calls());
            }
        },
        _ => {},
    }
}

/// A new network socket has the reference that it is given, no handle, and an
/// address of zeros.
pub proof fn law_new_network_sockets_are_blank(
    net: Option<Net>,
    t: TcpSocket,
    u: UdpSocket,
    i: int,
)
    requires
        call_ensures(TcpSocket::new, (net,), t),
        call_ensures(UdpSocket::new, (net,), u),
        0 <= i < 64,
    ensures
        t.net == net && t.handle is None && t.socket_addr.addr@[i] == 0,
        u.net == net && u.handle is None && u.socket_addr.addr@[i] == 0,
{
}

/// Releasing a socket closes the handle it has, once, through its backend, and
/// leaves it without one; a socket without a handle asks for nothing. Everything
/// else of the socket stays.
pub proof fn law_releasing_closes_the_handle(
    tcp: &mut TcpSocket,
    udp: &mut UdpSocket,
)
    requires
        call_ensures(TcpSocket::release, (tcp,), ()),
        call_ensures(UdpSocket::release, (udp,), ()),
    ensures
        final(tcp).handle is None && final(tcp).socket_addr == old(tcp).socket_addr,
        old(tcp).handle is None || old(tcp).net is None ==> final(tcp).net == old(tcp).net,
        old(tcp).handle is Some && old(tcp).net is Some ==> {
            &&& final(tcp).net is Some
            &&& final(tcp).net->0.backend() == old(tcp).net->0.backend()
            &&& final(tcp).net->0.calls() == old(tcp).net->0.calls().push(
                NetCall::Close { h: old(tcp).handle->0 },
            )
            &&& old(tcp).net->0.backend().answers(NetCall::Close { h: old(tcp).handle->0 })
        },
        final(udp).handle is None && final(udp).socket_addr == old(udp).socket_addr,
        old(udp).handle is None || old(udp).net is None ==> final(udp).net == old(udp).net,
        old(udp).handle is Some && old(udp).net is Some ==> {
            &&& final(udp).net is Some
            &&& final(udp).net->0.backend() == old(udp).net->0.backend()
            &&& final(udp).net->0.calls() == old(udp).net->0.calls().push(
                NetCall::Close { h: old(udp).handle->0 },
            )
            &&& old(udp).net->0.backend().answers(NetCall::Close { h: old(udp).handle->0 })
        },
{
    broadcast use lemma_asked;

}

/// Releasing an inode releases the network socket in it, and leaves any other
/// inode as it is.
pub proof fn law_releasing_an_inode(inode: &mut Inode)
    requires
        call_ensures(Inode::release, (inode,), ()),
    ensures
        final(inode).dev_id == old(inode).dev_id && final(inode).number == old(inode).number
            && final(inode).vtable == old(inode).vtable && final(inode).kind == old(inode).kind,
        match (old(inode).data, final(inode).data) {
            (InodeData::Tcp(s), InodeData::Tcp(t)) => {
                &&& t.handle is None && t.socket_addr == s.socket_addr
                &&& s.handle is None || s.net is None ==> t.net == s.net
                &&& s.handle is Some && s.net is Some ==> t.net is Some && t.net->0.calls()
                    == s.net->0.calls().push(NetCall::Close { h: s.handle->0 })
            },
            (InodeData::Udp(s), InodeData::Udp(t)) => {
                &&& t.handle is None && t.socket_addr == s.socket_addr
                &&& s.handle is None || s.net is None ==> t.net == s.net
                &&& s.handle is Some && s.net is Some ==> t.net is Some && t.net->0.calls()
                    == s.net->0.calls().push(NetCall::Close { h: s.handle->0 })
            },
            (a, b) => a == b && !(a is Tcp) && !(a is Udp),
        },
{
}

/// A UDP socket with a handle gives it without asking; one without asks its
/// backend once for an IPv4 datagram socket (2, 2) without an address, keeps the
/// handle that it gets, and passes an error on. Without a backend (13), or on an
/// inode without a UDP socket (88), nothing is asked or changed.
pub proof fn law_datagram_handles_are_opened_on_demand(
    inode: &mut Inode,
    r: Result<i64, Errno>,
)
    requires
        call_ensures(UdpSocket::handle, (inode,), r),
    ensures
        final(inode).dev_id == old(inode).dev_id && final(inode).number == old(inode).number
            && final(inode).vtable == old(inode).vtable && final(inode).kind == old(inode).kind,
        match old(inode).data {
            InodeData::Udp(s) => if s.net is None {
                r == Err::<i64, Errno>(13) && *final(inode) == *old(inode)
            } else if s.handle is Some {
                r == Ok::<i64, Errno>(s.handle->0) && *final(inode) == *old(inode)
            } else {
                &&& final(inode).data matches InodeData::Udp(t)
                &&& t.socket_addr == s.socket_addr
                &&& t.net is Some
                &&& t.net->0.backend() == s.net->0.backend()
                &&& t.net->0.calls().len() == s.net->0.calls().len() + 1
                &&& t.net->0.calls().drop_last() == s.net->0.calls()
                &&& s.net->0.backend().answers(t.net->0.calls().last())
                &&& t.net->0.calls().last() matches NetCall::Connect { domain, kind, addr, reply }
                &&& domain == 2 && kind == 2 && addr.len() == 0
                &&& r == reply
                &&& reply matches Ok(h) ==> t.handle == Some(h)
                &&& reply is Err ==> t.handle is None
            },
            _ => r == Err::<i64, Errno>(88) && *final(inode) == *old(inode),
        },
{
    broadcast use lemma_asked;

    match (old(inode).data, final(inode).data) {
        (InodeData::Udp(s), InodeData::Udp(t)) => {
            if s.net is Some && t.net is Some && s.handle is None {
                assert(t.net->0.calls().drop_last() =~= s.net->0.calls());
            }
        },
        _ => {},
    }
}

/// What the backend answered to opening a handle is kept or passed on.
pub proof fn law_opening_keeps_the_answer(
    inode: &mut Inode,
    reply: Result<i64, Errno>,
    r: Result<i64, Errno>,
)
    requires
        call_ensures(UdpSocket::finish_open, (inode, reply), r),
    ensures
        reply is Err ==> r == reply && *final(inode) == *old(inode),
        reply is Ok && !(old(inode).data is Udp) ==> r == Err::<i64, Errno>(88) && *final(inode)
            == *old(inode),
        reply is Ok && old(inode).data is Udp ==> {
            &&& r == reply
            &&& final(inode).data matches InodeData::Udp(t)
            &&& t.handle == Some(reply->Ok_0)
            &&& t.socket_addr == old(inode).data->Udp_0.socket_addr
            &&& t.net == old(inode).data->Udp_0.net
            &&& final(inode).dev_id == old(inode).dev_id && final(inode).number == old(
                inode,
            ).number
            &&& final(inode).vtable == old(inode).vtable && final(inode).kind == old(inode).kind
        },
{
}

/// A datagram without a destination (89), of a socket without a backend (13) or
/// of an inode without one (88) is refused, and nothing is asked or changed.
pub proof fn law_datagrams_are_refused(
    inode: &mut Inode,
    msg: &Message,
    r: Result<usize, Errno>,
)
    requires
        call_ensures(UdpSocket::sendto_udp, (inode, msg), r) || (old(inode).vtable
            == InodeVtable::Udp && call_ensures(Inode::sendto, (inode, msg), r)),
    ensures
        msg.address is None ==> r == Err::<usize, Errno>(89) && *final(inode) == *old(inode),
        msg.address is Some && !(old(inode).data is Udp) ==> r == Err::<usize, Errno>(88)
            && *final(inode) == *old(inode),
        msg.address is Some && old(inode).data is Udp && old(inode).data->Udp_0.net is None ==> r
            == Err::<usize, Errno>(13) && *final(inode) == *old(inode),
{
}

/// A datagram goes to the backend once, whole, with all 64 bytes of its
/// destination as they are, through the socket's handle, which is asked for
/// first where there is none. The guest is told what the backend reports, cut
/// down to the buffer, or its error.
pub proof fn law_datagrams_go_to_their_destination(
    inode: &mut Inode,
    msg: &Message,
    r: Result<usize, Errno>,
)
    requires
        msg.address is Some,
        old(inode).data is Udp,
        old(inode).data->Udp_0.net is Some,
        call_ensures(UdpSocket::sendto_udp, (inode, msg), r) || (old(inode).vtable
            == InodeVtable::Udp && call_ensures(Inode::sendto, (inode, msg), r)),
    ensures
        final(inode).dev_id == old(inode).dev_id && final(inode).number == old(inode).number
            && final(inode).vtable == old(inode).vtable && final(inode).kind == old(inode).kind,
        final(inode).data is Udp,
        ({
            let s = old(inode).data->Udp_0;
            let t = final(inode).data->Udp_0;
            let before = s.net->0.calls();
            let after = t.net->0.calls();
            let asked = before.len() as int;
            &&& t.socket_addr == s.socket_addr
            &&& t.net is Some
            &&& t.net->0.backend() == s.net->0.backend()
            &&& after.take(asked) == before
            &&& forall|k: int|
                asked <= k < after.len() ==> s.net->0.backend().answers(#[trigger] after[k])
            &&& s.handle is Some ==> t.handle == s.handle && after.len() == asked + 1
            &&& s.handle is None ==> {
                &&& after[asked] matches NetCall::Connect { domain, kind, addr, reply }
                &&& domain == 2 && kind == 2 && addr.len() == 0
                &&& reply is Err ==> after.len() == asked + 1 && t.handle is None && r == Err::<
                    usize,
                    Errno,
                >(reply->Err_0)
                &&& reply is Ok ==> after.len() == asked + 2 && t.handle == Some(reply->Ok_0)
            }
            &&& t.handle is Some ==> {
                &&& after.last() matches NetCall::SendTo { h, buf, addr, reply }
                &&& Some(h) == t.handle
                &&& buf == old(msg.buf)@
                &&& addr.len() == 64
                &&& addr == old(msg.address->0).addr@
                &&& reply matches Err(e) ==> r == Err::<usize, Errno>(e)
                &&& reply matches Ok(n) ==> r == Ok::<usize, Errno>(
                    if n <= buf.len() {
                        n
                    } else {
                        buf.len() as usize
                    },
                )
            }
        }),
{
    broadcast use lemma_asked;

    let before = old(inode).data->Udp_0.net->0.calls();
    let after = final(inode).data->Udp_0.net->0.calls();
    assert(after.take(before.len() as int) =~= before);
}

/// A datagram is received once, into the guest's whole buffer, through the
/// socket's handle, which is asked for first where there is none. The guest is
/// told what the backend reports, cut down to the buffer, or its error; and the
/// sender's address, as long as the backend says and 64 bytes at most, goes to
/// the start of the guest's address buffer, if it gave one, and nothing else
/// changes there.
pub proof fn law_datagrams_come_with_their_sender(
    inode: &mut Inode,
    msg: &mut Message,
    r: Result<usize, Errno>,
    i: int,
)
    requires
        old(inode).data is Udp,
        old(inode).data->Udp_0.net is Some,
        call_ensures(UdpSocket::recvfrom_udp, (inode, msg), r) || (old(inode).vtable
            == InodeVtable::Udp && call_ensures(Inode::recvfrom, (inode, msg), r)),
    ensures
        final(inode).dev_id == old(inode).dev_id && final(inode).number == old(inode).number
            && final(inode).vtable == old(inode).vtable && final(inode).kind == old(inode).kind,
        final(inode).data is Udp,
        final(msg).buf@.len() == old(msg).buf@.len(),
        final(msg).address is Some == old(msg).address is Some,
        ({
            let s = old(inode).data->Udp_0;
            let t = final(inode).data->Udp_0;
            let before = s.net->0.calls();
            let after = t.net->0.calls();
            let asked = before.len() as int;
            &&& t.socket_addr == s.socket_addr
            &&& t.net is Some
            &&& t.net->0.backend() == s.net->0.backend()
            &&& after.take(asked) == before
            &&& forall|k: int|
                asked <= k < after.len() ==> s.net->0.backend().answers(#[trigger] after[k])
            &&& s.handle is Some ==> t.handle == s.handle && after.len() == asked + 1
            &&& s.handle is None ==> {
                &&& after[asked] matches NetCall::Connect { domain, kind, addr, reply }
                &&& domain == 2 && kind == 2 && addr.len() == 0
                &&& reply is Err ==> after.len() == asked + 1 && t.handle is None && r == Err::<
                    usize,
                    Errno,
                >(reply->Err_0) && final(msg).buf@ == old(msg).buf@
                &&& reply is Ok ==> after.len() == asked + 2 && t.handle == Some(reply->Ok_0)
            }
            &&& t.handle is Some ==> {
                &&& after.last() matches NetCall::RecvFrom {
                    h,
                    before: handed,
                    after: filled,
                    addr_before,
                    addr_after,
                    reply,
                }
                &&& Some(h) == t.handle
                &&& handed == old(msg).buf@
                &&& filled == final(msg).buf@
                &&& addr_before.len() == 64 && addr_after.len() == 64
                &&& 0 <= i < 64 ==> addr_before[i] == 0
                &&& reply matches Err(e) ==> r == Err::<usize, Errno>(e)
                &&& reply is Ok ==> r == Ok::<usize, Errno>(
                    if reply->Ok_0.0 <= handed.len() {
                        reply->Ok_0.0
                    } else {
                        handed.len() as usize
                    },
                )
                &&& old(msg).address is Some && 0 <= i < 64 ==> final(msg).address->0.addr@[i]
                    == if reply is Ok && i < reply->Ok_0.1 {
                    addr_after[i]
                } else {
                    old(msg).address->0.addr@[i]
                }
            }
            &&& t.handle is None && old(msg).address is Some ==> final(msg).address->0.addr@
                == old(msg).address->0.addr@
        }),
{
    broadcast use lemma_asked;

    let before = old(inode).data->Udp_0.net->0.calls();
    let after = final(inode).data->Udp_0.net->0.calls();
    assert(after.take(before.len() as int) =~= before);
}

/// Receiving datagrams without a backend (13), or on an inode without a UDP
/// socket (88), is refused, and nothing is asked or changed.
pub proof fn law_receiving_datagrams_is_refused(
    inode: &mut Inode,
    msg: &mut Message,
    r: Result<usize, Errno>,
)
    requires
        call_ensures(UdpSocket::recvfrom_udp, (inode, msg), r) || (old(inode).vtable
            == InodeVtable::Udp && call_ensures(Inode::recvfrom, (inode, msg), r)),
    ensures
        !(old(inode).data is Udp) ==> r == Err::<usize, Errno>(88),
        old(inode).data is Udp && old(inode).data->Udp_0.net is None ==> r == Err::<usize, Errno>(
            13,
        ),
        !(old(inode).data is Udp) || old(inode).data->Udp_0.net is None ==> {
            &&& *final(inode) == *old(inode)
            &&& final(msg).buf@ == old(msg).buf@
            &&& final(msg).address is Some == old(msg).address is Some
            &&& old(msg).address is Some ==> final(msg).address->0.addr@ == old(
                msg,
            ).address->0.addr@
        },
{
}

/// The sender of a datagram that the backend gave goes to the start of the
/// guest's address buffer, if there is one, as long as the backend says and 64
/// bytes at most; the count is passed on, cut down to the buffer; an error leaves
/// both as they are.
pub proof fn law_senders_keep_their_bytes(
    msg: &mut Message,
    from: &[u8; 64],
    reply: Result<(usize, usize), Errno>,
    r: Result<usize, Errno>,
    i: int,
)
    requires
        call_ensures(UdpSocket::finish_recvfrom, (msg, from, reply), r),
    ensures
        final(msg).buf@ == old(msg).buf@,
        final(msg).address is Some == old(msg).address is Some,
        old(msg).address is Some && 0 <= i < 64 ==> final(msg).address->0.addr@[i] == if reply is Ok
            && i < reply->Ok_0.1 {
            from@[i]
        } else {
            old(msg).address->0.addr@[i]
        },
        reply matches Err(e) ==> r == Err::<usize, Errno>(e),
        reply is Ok ==> r == Ok::<usize, Errno>(
            if reply->Ok_0.0 <= old(msg).buf@.len() {
                reply->Ok_0.0
            } else {
                old(msg).buf@.len() as usize
            },
        ),
{
}

/// Which requests give a socket, which socket, and which error the others get.
/// The families are Unix (1), IPv4 (2) and netlink (16), the kinds streams (1)
/// and datagrams (2); the errors, the protocol (93), the kind (94) and the family
/// (97), in this order of precedence within a family, and last that no inode is
/// left (28).
pub proof fn law_requests_get_their_socket(
    fs: &mut SocketFs,
    family: u64,
    kind: u64,
    protocol: u64,
    r: Result<Inode, Errno>,
)
    requires
        call_ensures(SocketFs::create_socket, (fs, family, kind, protocol), r),
    ensures
        ({
            let known = {
                ||| family == 16
                ||| family == 1 && (protocol == 0 || protocol == 1) && (kind == 1 || kind == 2)
                ||| family == 2 && protocol == 0 && (kind == 1 || kind == 2)
            };
            &&& r is Ok <==> known && old(fs).fs.next_number < u64::MAX
            &&& known && old(fs).fs.next_number == u64::MAX ==> r == Err::<Inode, Errno>(28)
        }),
        family != 1 && family != 2 && family != 16 ==> r == Err::<Inode, Errno>(97),
        family == 1 && protocol != 0 && protocol != 1 ==> r == Err::<Inode, Errno>(93),
        family == 1 && (protocol == 0 || protocol == 1) && kind != 1 && kind != 2 ==> r == Err::<
            Inode,
            Errno,
        >(94),
        family == 2 && protocol != 0 ==> r == Err::<Inode, Errno>(93),
        family == 2 && protocol == 0 && kind != 1 && kind != 2 ==> r == Err::<Inode, Errno>(94),
        r is Err ==> *final(fs) == *old(fs),
        r matches Ok(inode) ==> {
            &&& inode.kind == FileKind::Socket
            &&& inode.dev_id == old(fs).fs.dev_id
            &&& inode.number == old(fs).fs.next_number
            &&& final(fs).fs.next_number == old(fs).fs.next_number + 1
            &&& final(fs).fs.dev_id == old(fs).fs.dev_id
            &&& final(fs).net.backend() == old(fs).net.backend()
            &&& family == 1 && kind == 1 ==> inode.vtable == InodeVtable::UnixStream
                && inode.data is UnixStream
            &&& family == 1 && kind == 2 ==> inode.vtable == InodeVtable::UnixDgram
                && inode.data is UnixDgram
            &&& family == 2 && kind == 1 ==> inode.vtable == InodeVtable::Tcp && inode.data is Tcp
            &&& family == 2 && kind == 2 ==> inode.vtable == InodeVtable::Udp && inode.data is Udp
            &&& family == 16 ==> inode.vtable == InodeVtable::Netlink && inode.data is UnixStream
        },
{
}

/// A file system in memory numbers its inodes from 0 on, each once, and gives
/// them out empty; when the numbers are used up it says so (28).
pub proof fn law_inodes_are_numbered(
    dev_id: usize,
    fresh: TempFs,
    fs: &mut TempFs,
    r: Result<Inode, Errno>,
)
    requires
        call_ensures(TempFs::create, (dev_id,), fresh),
        call_ensures(TempFs::alloc_inode, (fs,), r),
    ensures
        fresh.dev_id == dev_id && fresh.next_number == 0,
        old(fs).next_number == u64::MAX ==> r == Err::<Inode, Errno>(28) && *final(fs) == *old(fs),
        old(fs).next_number < u64::MAX ==> {
            &&& r matches Ok(n)
            &&& n.number == old(fs).next_number
            &&& n.dev_id == old(fs).dev_id
            &&& n.data is Empty && n.vtable == InodeVtable::Default && n.kind == FileKind::File
            &&& final(fs).next_number == old(fs).next_number + 1
            &&& final(fs).dev_id == old(fs).dev_id
        },
{
}

/// What is made by default is blank: an address of zeros, a stream with nothing
/// in it, and sockets with nothing received and no address.
pub proof fn law_defaults_are_blank(
    addr: SocketAddr,
    stream: Stream,
    dgram: UnixDgram,
    socket: UnixStream,
    i: int,
)
    requires
        call_ensures(<SocketAddr as Default>::default, (), addr),
        call_ensures(<Stream as Default>::default, (), stream),
        call_ensures(<UnixDgram as Default>::default, (), dgram),
        call_ensures(<UnixStream as Default>::default, (), socket),
        0 <= i < 64,
    ensures
        addr.addr@[i] == 0,
        stream.pending@.len() == 0,
        dgram.recv_index == 0 && dgram.socket_addr.addr@[i] == 0,
        i < 16 ==> dgram.buf[i]@.len() == 0,
        socket.stream.pending@.len() == 0 && socket.socket_addr.addr@[i] == 0,
{
    if i < 16 {
        assert(dgram.slots()[i].len() == 0);
        assert(dgram.slots()[i] == dgram.buf[i]@);
    }
}

/// A new socket is blank: nothing pending, no message, no handle, an address of
/// zeros; and a network socket has an unused reference to the backend that is
/// installed, or none where none is.
pub proof fn law_new_sockets_are_blank(
    fs: &mut SocketFs,
    family: u64,
    kind: u64,
    protocol: u64,
    inode: Inode,
    i: int,
)
    requires
        call_ensures(SocketFs::create_socket, (fs, family, kind, protocol), Ok(inode)),
        0 <= i < 64,
    ensures
        match inode.data {
            InodeData::Empty => false,
            InodeData::UnixStream(s) => {
                &&& s.stream.pending@.len() == 0
                &&& s.socket_addr.addr@[i] == 0
                &&& final(fs).net.handed_out() == old(fs).net.handed_out()
            },
            InodeData::UnixDgram(s) => {
                &&& s.recv_index == 0
                &&& i < 16 ==> s.buf[i]@.len() == 0
                &&& s.socket_addr.addr@[i] == 0
                &&& final(fs).net.handed_out() == old(fs).net.handed_out()
            },
            InodeData::Tcp(s) => {
                &&& s.handle is None
                &&& s.socket_addr.addr@[i] == 0
                &&& s.net is Some == old(fs).net.backend() is Some
                &&& s.net is Some ==> s.net->0.backend() == old(fs).net.backend()->0
                    && s.net->0.calls().len() == 0
                &&& final(fs).net.handed_out() == old(fs).net.handed_out() + 1
            },
            InodeData::Udp(s) => {
                &&& s.handle is None
                &&& s.socket_addr.addr@[i] == 0
                &&& s.net is Some == old(fs).net.backend() is Some
                &&& s.net is Some ==> s.net->0.backend() == old(fs).net.backend()->0
                    && s.net->0.calls().len() == 0
                &&& final(fs).net.handed_out() == old(fs).net.handed_out() + 1
            },
        },
{
    if let InodeData::UnixDgram(s) = inode.data {
        if i < 16 {
            assert(s.slots()[i].len() == 0);
            assert(s.slots()[i] == s.buf[i]@);
        }
    }
}

/// The backend that was installed last is the one in place, and none is once it
/// was removed, or before the first; the sockets that exist are not touched.
pub proof fn law_the_last_backend_counts(
    dev_id: usize,
    fresh: SocketFs,
    set: (&mut SocketFs, std::rc::Rc<dyn NetBackend>),
    cleared: &mut SocketFs,
)
    requires
        call_ensures(SocketFs::create, (dev_id,), fresh),
        call_ensures(SocketFs::set_net_backend, set, ()),
        call_ensures(SocketFs::clear_net_backend, (cleared,), ()),
    ensures
        fresh.net.backend() is None && fresh.fs.dev_id == dev_id && fresh.fs.next_number == 0,
        final(set.0).net.backend() is Some,
        final(set.0).net.backend()->0 == set.1,
        final(set.0).fs == old(set.0).fs,
        final(set.0).net.handed_out() == old(set.0).net.handed_out(),
        final(cleared).net.backend() is None,
        final(cleared).fs == old(cleared).fs,
        final(cleared).net.handed_out() == old(cleared).net.handed_out(),
{
}

/// Opening a socket gives an unnamed file on exactly that inode; a file has the
/// path and the inode that it was opened with.
pub proof fn law_files_are_on_their_inode<I>(
    fs: &mut SocketFs,
    inode: I,
    r: Result<ActiveFileData<I>, Errno>,
    path: Vec<u8>,
    named: ActiveFileData<I>,
)
    requires
        call_ensures(SocketFs::alloc_file::<I>, (fs, inode), r),
        call_ensures(ActiveFileData::<I>::new, (path, inode), named),
    ensures
        named.path == path && named.inode == inode,
        r matches Ok(file) && file.path@.len() == 0 && file.inode == inode,
        *final(fs) == *old(fs),
{
}

/// An operation that an inode does not have is refused (88), one that netlink
/// does not implement as well (38), and nothing changes.
pub proof fn law_missing_operations_are_refused(
    c: &mut Inode,
    addr: &SocketAddr,
    addr_len: usize,
    connect: Result<(), Errno>,
    v: &mut Inode,
    msg: &mut Message,
    recv: Result<usize, Errno>,
    s: &mut Inode,
    out: &Message,
    send: Result<usize, Errno>,
    b: &mut Inode,
    bind: Result<(), Errno>,
)
    requires
        call_ensures(Inode::connect, (c, addr, addr_len), connect),
        call_ensures(Inode::recvfrom, (v, msg), recv),
        call_ensures(Inode::sendto, (s, out), send),
        call_ensures(Inode::bind, (b, addr), bind),
    ensures
        old(c).vtable != InodeVtable::Tcp ==> connect == Err::<(), Errno>(88) && *final(c) == *old(
            c,
        ),
        old(v).vtable == InodeVtable::Default ==> recv == Err::<usize, Errno>(88) && *final(v)
            == *old(v) && final(msg).buf@ == old(msg).buf@,
        old(v).vtable == InodeVtable::Netlink ==> recv == Err::<usize, Errno>(38) && *final(v)
            == *old(v) && final(msg).buf@ == old(msg).buf@,
        old(s).vtable == InodeVtable::Default || old(s).vtable == InodeVtable::UnixDgram ==> send
            == Err::<usize, Errno>(88) && *final(s) == *old(s),
        old(s).vtable == InodeVtable::Netlink ==> send == Err::<usize, Errno>(38) && *final(s)
            == *old(s),
        old(b).vtable == InodeVtable::Default ==> bind == Err::<(), Errno>(88) && *final(b) == *old(
            b,
        ),
{
}

/// Which inodes can be handed to an operation: those that hold the socket that
/// their operations work on.
pub proof fn law_checks_look_at_the_socket(inode: &Inode, transfer: bool, bind: bool)
    requires
        call_ensures(Inode::check_transfer, (inode,), transfer),
        call_ensures(Inode::check_bind, (inode,), bind),
    ensures
        transfer == match inode.vtable {
            InodeVtable::UnixDgram => inode.data is UnixDgram
                && inode.data->UnixDgram_0.recv_index < 16,
            InodeVtable::UnixStream => inode.data is UnixStream,
            _ => true,
        },
        bind == match inode.vtable {
            InodeVtable::Default | InodeVtable::Tcp | InodeVtable::Udp => true,
            _ => inode.data is UnixStream,
        },
{
}

/// Binding an inode whose operations are those of a network socket that it does
/// not hold is refused (88), and nothing changes.
pub proof fn law_binding_needs_the_socket(
    t: &mut Inode,
    addr: &SocketAddr,
    tcp: Result<(), Errno>,
    u: &mut Inode,
    udp: Result<(), Errno>,
)
    requires
        call_ensures(TcpSocket::bind_tcp, (t, addr), tcp) || (old(t).vtable == InodeVtable::Tcp
            && call_ensures(Inode::bind, (t, addr), tcp)),
        call_ensures(UdpSocket::bind_udp, (u, addr), udp) || (old(u).vtable == InodeVtable::Udp
            && call_ensures(Inode::bind, (u, addr), udp)),
    ensures
        !(old(t).data is Tcp) ==> tcp == Err::<(), Errno>(88) && *final(t) == *old(t),
        !(old(u).data is Udp) ==> udp == Err::<(), Errno>(88) && *final(u) == *old(u),
{
}

/// The numbers that a guest uses for families, kinds and flags, and the errors it
/// is given, are those of Linux.
pub proof fn law_the_guest_speaks_linux()
    ensures
        crate::socket::AF_UNSPEC == 0 && crate::socket::AF_UNIX == 1 && crate::socket::AF_INET == 2
            && crate::socket::AF_INET6 == 10 && crate::socket::AF_NETLINK == 16,
        crate::socket::SOCK_STREAM == 1 && crate::socket::SOCK_DGRAM == 2
            && crate::socket::SOCK_RAW == 3 && crate::socket::SOCK_RDM == 4
            && crate::socket::SOCK_SEQPACKET == 5 && crate::socket::SOCK_DCCP == 6,
        crate::socket::SOCK_CLOEXEC == 0x8_0000 && crate::socket::SOCK_NONBLOCK == 0x800,
        crate::socket::SOCKET_STORAGE_SIZE == 64 && crate::socket::unix::MAX_QUEUED_DGRAMS == 16,
        crate::errno::EWOULDBLOCK == 11 && crate::errno::EACCES == 13 && crate::errno::ENOSPC == 28
            && crate::errno::ENOSYS == 38 && crate::errno::ENOTSOCK == 88
            && crate::errno::EDESTADDRREQ == 89 && crate::errno::EPROTONOSUPPORT == 93
            && crate::errno::ESOCKTNOSUPPORT == 94 && crate::errno::EAFNOSUPPORT == 97
            && crate::errno::EISCONN == 106 && crate::errno::ENOTCONN == 107,
{
}

} // verus!
