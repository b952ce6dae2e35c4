//! Guest sockets.
//!
//! Sockets live in inodes. What an inode does on a socket call follows from
//! its operations ([`ops`]); the socket kinds themselves are in [`unix`],
//! [`tcp`] and [`udp`], and [`sockfs`] creates them. Network sockets reach the
//! host through [`net`].

use vstd::prelude::*;

use crate::errno::Errno;
#[allow(unused_imports)]
use crate::fs::transfer_len;
use crate::le::copy_at;
#[allow(unused_imports)]
use crate::le::splice;
#[allow(unused_imports)]
use crate::socket::net::NetCall;

pub mod laws;
pub mod net;
pub mod ops;
pub mod sockfs;
pub mod tcp;
pub mod udp;
pub mod unix;

verus! {

pub const AF_UNSPEC: u64 = 0;

/// Unix domain sockets (UDS).
pub const AF_UNIX: u64 = 1;

/// IPv4 socket.
pub const AF_INET: u64 = 2;

/// IPv6 socket.
pub const AF_INET6: u64 = 10;

/// Netlink socket (used for user space <-> kernel communication).
pub const AF_NETLINK: u64 = 16;

pub const SOCK_STREAM: u64 = 1;

pub const SOCK_DGRAM: u64 = 2;

pub const SOCK_RAW: u64 = 3;

pub const SOCK_RDM: u64 = 4;

pub const SOCK_SEQPACKET: u64 = 5;

pub const SOCK_DCCP: u64 = 6;

pub const SOCK_CLOEXEC: u64 = 0o02000000;

pub const SOCK_NONBLOCK: u64 = 0o00004000;

pub const SOCKET_STORAGE_SIZE: usize = 64;

/// A guest `sockaddr`, in a buffer of fixed size.
#[derive(Clone, Copy, Debug, PartialEq, Eq)]
pub struct SocketAddr {
    pub addr: [u8; SOCKET_STORAGE_SIZE],
}

/// `n` zero bytes.
pub open spec fn zeros(n: nat) -> Seq<u8> {
    Seq::new(n, |i: int| 0u8)
}

/// How many bytes of a guest `sockaddr` of the given length are kept.
pub open spec fn stored_len(len: usize) -> nat {
    transfer_len(len as nat, SOCKET_STORAGE_SIZE as nat)
}

/// The first `len` bytes of `addr`, as far as it holds them.
pub open spec fn addr_prefix(addr: SocketAddr, len: usize) -> Seq<u8> {
    addr.addr@.take(stored_len(len) as int)
}

/// What reading a `sockaddr` from the guest gives, when the memory answered
/// `reply` and left `read` in the buffer: the bytes read, zeros behind them.
pub open spec fn is_read_addr<E>(
    read: Seq<u8>,
    reply: Result<(), E>,
    r: Result<Option<SocketAddr>, E>,
) -> bool {
    match reply {
        Err(e) => r == Err::<Option<SocketAddr>, E>(e),
        Ok(_) => r matches Ok(Some(a)) && a.addr@ == splice(
            zeros(SOCKET_STORAGE_SIZE as nat),
            0,
            read,
        ),
    }
}

/// The lesser of two lengths.
pub(crate) fn least(a: usize, b: usize) -> (m: usize)
    ensures
        m == transfer_len(a as nat, b as nat),
{
    if a <= b {
        a
    } else {
        b
    }
}

/// The guest's memory.
///
/// Whoever embeds the library implements it. [`LinuxMmu::reads`] names what an
/// implementation may answer, and promises nothing: one that leaves it as it is
/// here may answer as it likes.
pub trait LinuxMmu: Sized {
    /// Why an access failed.
    type Error;

    /// Reading at `addr` into a buffer of `before` may leave `read` in it, turn
    /// the memory into `after`, and answer `reply`.
    open spec fn reads(
        &self,
        after: Self,
        addr: u64,
        before: Seq<u8>,
        read: Seq<u8>,
        reply: Result<(), Self::Error>,
    ) -> bool {
        true
    }

    /// Fills `buf` from guest address `addr`.
    fn read_bytes(&mut self, addr: u64, buf: &mut [u8]) -> (reply: Result<(), Self::Error>)
        ensures
            final(buf)@.len() == old(buf)@.len(),
            old(self).reads(*final(self), addr, old(buf)@, final(buf)@, reply),
    ;
}

impl Default for SocketAddr {
    /// All zeros.
    fn default() -> (a: SocketAddr)
        ensures
            a.addr@ == zeros(SOCKET_STORAGE_SIZE as nat),
    {
        let a = SocketAddr { addr: [0; SOCKET_STORAGE_SIZE] };
        assert(a.addr@ =~= zeros(SOCKET_STORAGE_SIZE as nat));
        a
    }
}

impl SocketAddr {
    /// Reads the `sockaddr` of `len` bytes at guest address `addr`, as much of
    /// it as there is room for. A null address means that there is none.
    pub fn read_user<M: LinuxMmu>(mem: &mut M, addr: u64, len: u64) -> (r: Result<
        Option<SocketAddr>,
        M::Error,
    >)
        ensures
            addr == 0 ==> r == Ok::<Option<SocketAddr>, M::Error>(None) && *final(mem) == *old(mem),
            addr != 0 ==> exists|read: Seq<u8>, reply: Result<(), M::Error>|
                {
                    &&& read.len() == stored_len(len as usize)
                    &&& #[trigger] old(mem).reads(
                        *final(mem),
                        addr,
                        zeros(stored_len(len as usize)),
                        read,
                        reply,
                    )
                    &&& is_read_addr(read, reply, r)
                },
    {
        if addr == 0 {
            return Ok(None);
        }
        let mut scratch: [u8; SOCKET_STORAGE_SIZE] = [0; SOCKET_STORAGE_SIZE];
        let n: usize = least(len as usize, SOCKET_STORAGE_SIZE);
        let all: &mut [u8] = &mut scratch;
        let (head, _tail) = all.split_at_mut(n);
        assert(head@ =~= zeros(n as nat));
        let reply: Result<(), M::Error> = mem.read_bytes(addr, head);
        assert(old(mem).reads(*mem, addr, zeros(stored_len(len as usize)), head@, reply));
        SocketAddr::from_read(head, reply)
    }

    /// The `sockaddr` that the guest's memory gave: its bytes, zeros behind
    /// them.
    pub fn from_read<E>(read: &[u8], reply: Result<(), E>) -> (r: Result<Option<SocketAddr>, E>)
        requires
            read@.len() <= SOCKET_STORAGE_SIZE,
        ensures
            is_read_addr(read@, reply, r),
    {
        match reply {
            Err(e) => Err(e),
            Ok(_) => {
                let mut value: SocketAddr = SocketAddr::default();
                copy_at(&mut value.addr, 0, read);
                Ok(Some(value))
            },
        }
    }
}

/// A message on its way into or out of a socket.
pub struct Message<'a> {
    pub address: Option<&'a mut SocketAddr>,
    pub buf: &'a mut [u8],
}

/// A host-side provider of real network access.
///
/// The library has no networking of its own and cannot depend on whatever
/// embeds it, so this is the neutral seam: an embedder installs an
/// implementation with
/// [`SocketFs::set_net_backend`](sockfs::SocketFs::set_net_backend), and every
/// network socket the guest creates afterwards routes its calls through it.
/// With no backend installed the guest cannot reach a network at all, so
/// networking is off unless an embedder deliberately turns it on.
///
/// Handles are opaque: [`NetBackend::connect`] returns whatever non-negative
/// value identifies the connection on the host side, and the socket hands that
/// same value back on every later call. Errors are plain errno values, reported
/// to the guest unchanged.
///
/// [`NetBackend::answers`] names the answers that an implementation may give to
/// a request, so that contracts can say what was asked of it, whichever
/// implementation is behind a reference. It promises nothing: one that leaves
/// it as it is here may answer as it likes.
pub trait NetBackend {
    /// The implementation may be called like this, and answer so.
    open spec fn answers(&self, call: NetCall) -> bool {
        true
    }

    /// Opens a host socket of `domain`/`kind` (the `AF_*`/`SOCK_*` values the
    /// guest passed to `socket`) connected (or, for datagram sockets, bound)
    /// to `addr`, the raw `sockaddr` bytes the guest passed to `connect`.
    /// Returns an opaque non-negative handle.
    fn connect(&self, domain: u64, kind: u64, addr: &[u8]) -> (reply: Result<i64, Errno>)
        ensures
            self.answers(NetCall::Connect { domain, kind, addr: addr@, reply }),
    ;

    /// Sends `buf` on the connected handle `h`, returning the number of bytes
    /// accepted.
    fn send(&self, h: i64, buf: &[u8]) -> (reply: Result<usize, Errno>)
        ensures
            self.answers(NetCall::Send { h, buf: buf@, reply }),
    ;

    /// Reads up to `out.len()` bytes from `h`. A return of 0 means the peer
    /// closed the connection.
    fn recv(&self, h: i64, out: &mut [u8]) -> (reply: Result<usize, Errno>)
        ensures
            final(out)@.len() == old(out)@.len(),
            self.answers(NetCall::Recv { h, before: old(out)@, after: final(out)@, reply }),
    ;

    /// Sends `buf` on `h` to `addr`. Datagram sockets only.
    fn sendto(&self, h: i64, buf: &[u8], addr: &[u8]) -> (reply: Result<usize, Errno>)
        ensures
            self.answers(NetCall::SendTo { h, buf: buf@, addr: addr@, reply }),
    ;

    /// Reads up to `out.len()` bytes from `h`, writing the sender's address
    /// into `addr`. Returns the byte count and the address length. Datagram
    /// sockets only.
    fn recvfrom(&self, h: i64, out: &mut [u8], addr: &mut [u8]) -> (reply: Result<
        (usize, usize),
        Errno,
    >)
        ensures
            final(out)@.len() == old(out)@.len(),
            final(addr)@.len() == old(addr)@.len(),
            self.answers(
                NetCall::RecvFrom {
                    h,
                    before: old(out)@,
                    after: final(out)@,
                    addr_before: old(addr)@,
                    addr_after: final(addr)@,
                    reply,
                },
            ),
    ;

    /// Releases `h`. Called when the last file descriptor referring to the
    /// socket goes away, from a context that cannot report an error, so any
    /// failure is the backend's to handle.
    fn close(&self, h: i64)
        ensures
            self.answers(NetCall::Close { h }),
    ;
}

/// The byte count reported to the guest: what the backend reported, but never
/// more than the guest's buffer holds.
pub open spec fn clamped(reply: Result<usize, Errno>, room: nat) -> Result<usize, Errno> {
    match reply {
        Ok(n) => Ok(transfer_len(n as nat, room) as usize),
        Err(e) => Err(e),
    }
}

/// Turns the backend's byte count for a buffer of `room` bytes into the
/// guest's: a backend that over-reports would otherwise hand the guest bytes
/// from past the end of the buffer it asked for.
pub fn clamp_reply(reply: Result<usize, Errno>, room: usize) -> (r: Result<usize, Errno>)
    ensures
        r == clamped(reply, room as nat),
{
    match reply {
        Ok(n) => Ok(least(n, room)),
        Err(e) => Err(e),
    }
}

/// Whatever a backend reports, the guest is never told of more bytes than its
/// buffer has, and a backend's error reaches it unchanged.
pub proof fn law_reports_stay_in_the_buffer(reply: Result<usize, Errno>, room: nat)
    ensures
        clamped(reply, room) matches Ok(n) ==> n <= room,
        reply matches Ok(n) && n <= room ==> clamped(reply, room) == reply,
        reply is Err ==> clamped(reply, room) == reply,
{
}

} // verus!
