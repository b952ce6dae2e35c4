//! The part of the guest's file system that sockets live in: inodes, the file
//! system that numbers them, and byte streams.
//!
//! Three answers are choices of this library, made here and in
//! [`socket::ops`](crate::socket::ops): a stream with nothing in it is
//! `EWOULDBLOCK`, since 0 bytes would mean that the peer is gone; a file system
//! whose inode numbers are used up is `ENOSPC`; and an operation that a kind of
//! inode does not have is `ENOTSOCK`.

use vstd::prelude::*;

use crate::errno::{Errno, ENOSPC, EWOULDBLOCK};
use crate::le::copy_at;
#[allow(unused_imports)]
use crate::le::splice;
use crate::socket::tcp::TcpSocket;
use crate::socket::udp::UdpSocket;
use crate::socket::unix::{UnixDgram, UnixStream};

verus! {

/// What an inode is.
#[derive(Clone, Copy, Debug, PartialEq, Eq, Structural)]
pub enum FileKind {
    File,
    Socket,
}

/// What an inode holds.
pub enum InodeData {
    Empty,
    UnixDgram(UnixDgram),
    UnixStream(UnixStream),
    Tcp(TcpSocket),
    Udp(UdpSocket),
}

/// Which operations an inode has.
#[derive(Clone, Copy, Debug, PartialEq, Eq, Structural)]
pub enum InodeVtable {
    Default,
    UnixDgram,
    UnixStream,
    Tcp,
    Udp,
    Netlink,
}

pub struct Inode {
    /// The file system the inode belongs to, and its number there.
    pub dev_id: usize,
    pub number: u64,
    pub data: InodeData,
    pub vtable: InodeVtable,
    pub kind: FileKind,
}

/// A file system that exists in memory only. It hands out inodes, numbered from
/// 0 on.
pub struct TempFs {
    pub dev_id: usize,
    pub next_number: u64,
}

impl TempFs {
    pub fn create(dev_id: usize) -> (fs: TempFs)
        ensures
            fs.dev_id == dev_id,
            fs.next_number == 0,
    {
        TempFs { dev_id, next_number: 0 }
    }

    /// A fresh inode. Once the numbers are used up, this library answers
    /// `ENOSPC`.
    pub fn alloc_inode(&mut self) -> (r: Result<Inode, Errno>)
        ensures
            final(self).dev_id == old(self).dev_id,
            old(self).next_number == u64::MAX ==> r == Err::<Inode, Errno>(ENOSPC) && *final(self)
                == *old(self),
            old(self).next_number < u64::MAX ==> {
                &&& final(self).next_number == old(self).next_number + 1
                &&& r == Ok::<Inode, Errno>(
                    Inode {
                        dev_id: old(self).dev_id,
                        number: old(self).next_number,
                        data: InodeData::Empty,
                        vtable: InodeVtable::Default,
                        kind: FileKind::File,
                    },
                )
            },
    {
        if self.next_number == u64::MAX {
            return Err(ENOSPC);
        }
        let number: u64 = self.next_number;
        self.next_number = number + 1;
        Ok(
            Inode {
                dev_id: self.dev_id,
                number,
                data: InodeData::Empty,
                vtable: InodeVtable::Default,
                kind: FileKind::File,
            },
        )
    }
}

/// An open file on an inode, or on whatever refers to one: `I` may be a shared
/// reference.
pub struct ActiveFileData<I> {
    pub path: Vec<u8>,
    pub inode: I,
}

impl<I> ActiveFileData<I> {
    pub fn new(path: Vec<u8>, inode: I) -> (f: ActiveFileData<I>)
        ensures
            f.path == path,
            f.inode == inode,
    {
        ActiveFileData { path, inode }
    }
}

/// A stream of bytes, read in the order in which they were written.
#[derive(Clone)]
pub struct Stream {
    pub pending: Vec<u8>,
}

/// How many bytes move from `available` into a buffer of `room`.
pub open spec fn transfer_len(available: nat, room: nat) -> nat {
    if available <= room {
        available
    } else {
        room
    }
}

impl Default for Stream {
    /// Nothing pending.
    fn default() -> (s: Stream)
        ensures
            s.pending@ == Seq::<u8>::empty(),
    {
        Stream { pending: Vec::new() }
    }
}

impl Stream {
    /// Appends all of `buf`.
    pub fn write(&mut self, buf: &[u8]) -> (r: Result<usize, Errno>)
        ensures
            r matches Ok(m) && m == buf@.len(),
            final(self).pending@ == old(self).pending@ + buf@,
    {
        let n: usize = buf.len();
        let mut i: usize = 0;
        while i < n
            invariant
                i <= n == buf@.len(),
                self.pending@ =~= old(self).pending@ + buf@.take(i as int),
            decreases n - i,
        {
            self.pending.push(buf[i]);
            i = i + 1;
        }
        assert(buf@.take(n as int) =~= buf@);
        Ok(n)
    }

    /// Moves the oldest bytes, as many as fit, to the start of `buf`. Of a stream
    /// with nothing in it this library says that it would block.
    pub fn read(&mut self, buf: &mut [u8]) -> (r: Result<usize, Errno>)
        ensures
            old(self).pending@.len() == 0 ==> {
                &&& r == Err::<usize, Errno>(EWOULDBLOCK)
                &&& final(self).pending@ == old(self).pending@
                &&& final(buf)@ == old(buf)@
            },
            old(self).pending@.len() > 0 ==> {
                let n = transfer_len(old(self).pending@.len(), old(buf)@.len()) as int;
                &&& r matches Ok(m) && m == n
                &&& final(self).pending@ == old(self).pending@.skip(n)
                &&& final(buf)@ == splice(old(buf)@, 0, old(self).pending@.take(n))
            },
    {
        let available: usize = self.pending.len();
        if available == 0 {
            return Err(EWOULDBLOCK);
        }
        let room: usize = buf.len();
        let n: usize = if available <= room {
            available
        } else {
            room
        };
        let rest: Vec<u8> = self.pending.split_off(n);
        copy_at(buf, 0, self.pending.as_slice());
        self.pending = rest;
        Ok(n)
    }
}

/// What is written to a stream comes out again, whole and in order: reading
/// with room for everything pending gives first what was there before, then
/// what was written, and leaves the stream empty.
pub proof fn law_stream_gives_back_what_was_written(before: Seq<u8>, written: Seq<u8>, room: nat)
    requires
        room >= before.len() + written.len(),
    ensures
        ({
            let pending = before + written;
            let n = transfer_len(pending.len(), room) as int;
            &&& pending.take(n) == before + written
            &&& pending.skip(n) == Seq::<u8>::empty()
        }),
{
    let pending = before + written;
    assert(pending.take(pending.len() as int) =~= pending);
    assert(pending.skip(pending.len() as int) =~= Seq::<u8>::empty());
}

/// Two reads in a row give what one read with room for both would give.
pub proof fn law_stream_reads_join(pending: Seq<u8>, a: nat, b: nat)
    ensures
        ({
            let n = transfer_len(pending.len(), a) as int;
            let rest = pending.skip(n);
            let m = transfer_len(rest.len(), b) as int;
            let both = transfer_len(pending.len(), a + b) as int;
            &&& pending.take(n) + rest.take(m) == pending.take(both)
            &&& rest.skip(m) == pending.skip(both)
        }),
{
    let n = transfer_len(pending.len(), a) as int;
    let rest = pending.skip(n);
    let m = transfer_len(rest.len(), b) as int;
    let both = transfer_len(pending.len(), a + b) as int;
    assert(pending.take(n) + rest.take(m) =~= pending.take(both));
    assert(rest.skip(m) =~= pending.skip(both));
}

} // verus!
