//! The file system that sockets are created in.

use std::rc::Rc;

use vstd::prelude::*;

use crate::errno::{Errno, EAFNOSUPPORT, ENOSPC, EPROTONOSUPPORT, ESOCKTNOSUPPORT};
#[allow(unused_imports)]
use crate::errno::{EACCES, ENOTCONN};
use crate::fs::{ActiveFileData, FileKind, Inode, InodeData, InodeVtable, TempFs};
#[allow(unused_imports)]
use crate::socket::tcp::{connect_refusal, connection};
use crate::socket::net::NetProvider;
#[allow(unused_imports)]
use crate::socket::net::{is_fresh, NetCall};
use crate::socket::tcp::TcpSocket;
#[allow(unused_imports)]
use crate::socket::udp::udp_refusal;
use crate::socket::udp::UdpSocket;
#[allow(unused_imports)]
use crate::socket::unix::MAX_QUEUED_DGRAMS;
use crate::socket::unix::{UnixDgram, UnixStream};
#[allow(unused_imports)]
use crate::socket::{zeros, SOCKET_STORAGE_SIZE};
use crate::socket::{
    NetBackend, AF_INET, AF_INET6, AF_NETLINK, AF_UNIX, AF_UNSPEC, SOCK_DGRAM, SOCK_STREAM,
};

verus! {

pub struct SocketFs {
    pub fs: TempFs,
    /// Where network sockets get their host access from, if an embedder
    /// installed one. Handed to each socket as it is created, so a backend
    /// installed later does not retroactively connect sockets that already
    /// exist.
    pub net: NetProvider,
}

/// The operations of the socket that the guest asks for, or the error.
pub open spec fn requested(family: u64, kind: u64, protocol: u64) -> Result<InodeVtable, Errno> {
    if family == AF_UNIX {
        if protocol != AF_UNSPEC && protocol != AF_UNIX {
            Err(EPROTONOSUPPORT)
        } else if kind == SOCK_STREAM {
            Ok(InodeVtable::UnixStream)
        } else if kind == SOCK_DGRAM {
            Ok(InodeVtable::UnixDgram)
        } else {
            Err(ESOCKTNOSUPPORT)
        }
    } else if family == AF_INET {
        if protocol != 0 {
            Err(EPROTONOSUPPORT)
        } else if kind == SOCK_STREAM {
            Ok(InodeVtable::Tcp)
        } else if kind == SOCK_DGRAM {
            Ok(InodeVtable::Udp)
        } else {
            Err(ESOCKTNOSUPPORT)
        }
    } else if family == AF_NETLINK {
        Ok(InodeVtable::Netlink)
    } else {
        Err(EAFNOSUPPORT)
    }
}

/// `data` is a new socket for the operations `vtable`: nothing sent, received
/// or bound, and network access through a reference to `net` that was not used.
pub open spec fn is_new_socket(
    vtable: InodeVtable,
    net: Option<Rc<dyn NetBackend>>,
    data: InodeData,
) -> bool {
    match vtable {
        InodeVtable::Default => false,
        InodeVtable::UnixDgram => {
            &&& data matches InodeData::UnixDgram(s)
            &&& s.recv_index == 0
            &&& forall|i: int| 0 <= i < MAX_QUEUED_DGRAMS ==> #[trigger] s.slots()[i].len() == 0
            &&& s.socket_addr.addr@ == zeros(SOCKET_STORAGE_SIZE as nat)
        },
        InodeVtable::UnixStream | InodeVtable::Netlink => {
            &&& data matches InodeData::UnixStream(s)
            &&& s.stream.pending@ == Seq::<u8>::empty()
            &&& s.socket_addr.addr@ == zeros(SOCKET_STORAGE_SIZE as nat)
        },
        InodeVtable::Tcp => {
            &&& data matches InodeData::Tcp(s)
            &&& is_fresh(net, s.net)
            &&& s.handle is None
            &&& s.socket_addr.addr@ == zeros(SOCKET_STORAGE_SIZE as nat)
        },
        InodeVtable::Udp => {
            &&& data matches InodeData::Udp(s)
            &&& is_fresh(net, s.net)
            &&& s.handle is None
            &&& s.socket_addr.addr@ == zeros(SOCKET_STORAGE_SIZE as nat)
        },
    }
}

/// How many references to the backend a socket takes.
pub open spec fn references(vtable: InodeVtable) -> nat {
    match vtable {
        InodeVtable::Tcp | InodeVtable::Udp => 1,
        _ => 0,
    }
}

/// A socket with the operations `vtable` was put into a fresh inode, or there
/// was no inode left. The only reference to the backend that was handed out is
/// the one that the socket has.
pub open spec fn socket_created(
    before: SocketFs,
    vtable: InodeVtable,
    after: SocketFs,
    r: Result<Inode, Errno>,
) -> bool {
    &&& after.net.backend() == before.net.backend()
    &&& after.fs.dev_id == before.fs.dev_id
    &&& if before.fs.next_number == u64::MAX {
        &&& r == Err::<Inode, Errno>(ENOSPC)
        &&& after == before
    } else {
        &&& after.fs.next_number == before.fs.next_number + 1
        &&& after.net.handed_out() == before.net.handed_out() + references(vtable)
        &&& r matches Ok(inode)
        &&& inode.dev_id == before.fs.dev_id
        &&& inode.number == before.fs.next_number
        &&& inode.vtable == vtable
        &&& inode.kind == FileKind::Socket
        &&& is_new_socket(vtable, before.net.backend(), inode.data)
    }
}

/// What becomes of a request for a socket.
pub open spec fn socket_requested(
    before: SocketFs,
    request: Result<InodeVtable, Errno>,
    after: SocketFs,
    r: Result<Inode, Errno>,
) -> bool {
    match request {
        Err(e) => r == Err::<Inode, Errno>(e) && after == before,
        Ok(vtable) => socket_created(before, vtable, after, r),
    }
}

impl SocketFs {
    /// A file system without sockets, and without network access.
    pub fn create(dev_id: usize) -> (s: SocketFs)
        ensures
            s.fs.dev_id == dev_id,
            s.fs.next_number == 0,
            s.net.backend() is None,
            s.net.handed_out() == 0,
    {
        SocketFs { fs: TempFs::create(dev_id), net: NetProvider::new() }
    }

    /// Installs the host-side network provider, replacing any previous one.
    /// See [`NetBackend`]; without this call the guest has no network access.
    pub fn set_net_backend(&mut self, net: Rc<dyn NetBackend>)
        ensures
            final(self).net.backend() is Some,
            final(self).net.backend()->0 == net,
            final(self).net.handed_out() == old(self).net.handed_out(),
            final(self).fs == old(self).fs,
    {
        let installed = Some(net);
        self.net.set(installed);
    }

    /// Drops the reference to the host-side network provider.
    ///
    /// For embedders that must guarantee no callback runs after some point
    /// (typically their own teardown): sockets created before this still hold
    /// their own reference and will still close through it, so this only stops
    /// *new* sockets from reaching the backend.
    pub fn clear_net_backend(&mut self)
        ensures
            final(self).net.backend() is None,
            final(self).net.handed_out() == old(self).net.handed_out(),
            final(self).fs == old(self).fs,
    {
        self.net.set(None);
    }

    /// Creates the socket that a guest's `socket` call asks for.
    pub fn create_socket(&mut self, family: u64, kind: u64, protocol: u64) -> (r: Result<
        Inode,
        Errno,
    >)
        ensures
            socket_requested(*old(self), requested(family, kind, protocol), *final(self), r),
    {
        match family {
            AF_UNSPEC => Err(EAFNOSUPPORT),
            AF_UNIX => self.create_unix_socket(kind, protocol),
            AF_INET => self.create_ipv4_socket(kind, protocol),
            AF_INET6 => Err(EAFNOSUPPORT),
            AF_NETLINK => self.create_netlink_socket(kind, protocol),
            _ => Err(EAFNOSUPPORT),
        }
    }

    fn create_unix_socket(&mut self, kind: u64, protocol: u64) -> (r: Result<Inode, Errno>)
        ensures
            socket_requested(*old(self), requested(AF_UNIX, kind, protocol), *final(self), r),
    {
        if protocol != AF_UNSPEC && protocol != AF_UNIX {
            return Err(EPROTONOSUPPORT);
        }
        match kind {
            SOCK_STREAM => self.create_socket_with(InodeVtable::UnixStream),
            SOCK_DGRAM => self.create_socket_with(InodeVtable::UnixDgram),
            _ => Err(ESOCKTNOSUPPORT),
        }
    }

    fn create_ipv4_socket(&mut self, kind: u64, protocol: u64) -> (r: Result<Inode, Errno>)
        ensures
            socket_requested(*old(self), requested(AF_INET, kind, protocol), *final(self), r),
    {
        if protocol != 0 {
            return Err(EPROTONOSUPPORT);
        }
        match kind {
            SOCK_STREAM => self.create_socket_with(InodeVtable::Tcp),
            SOCK_DGRAM => self.create_socket_with(InodeVtable::Udp),
            _ => Err(ESOCKTNOSUPPORT),
        }
    }

    fn create_netlink_socket(&mut self, kind: u64, protocol: u64) -> (r: Result<Inode, Errno>)
        ensures
            socket_requested(*old(self), requested(AF_NETLINK, kind, protocol), *final(self), r),
    {
        self.create_socket_with(InodeVtable::Netlink)
    }

    /// The data of a new socket with the operations `vtable`.
    fn new_socket(&mut self, vtable: InodeVtable) -> (data: InodeData)
        requires
            vtable != InodeVtable::Default,
        ensures
            is_new_socket(vtable, old(self).net.backend(), data),
            final(self).fs == old(self).fs,
            final(self).net.backend() == old(self).net.backend(),
            final(self).net.handed_out() == old(self).net.handed_out() + references(vtable),
    {
        match vtable {
            InodeVtable::Default => InodeData::Empty,
            InodeVtable::UnixDgram => InodeData::UnixDgram(UnixDgram::default()),
            InodeVtable::UnixStream => InodeData::UnixStream(UnixStream::default()),
            InodeVtable::Tcp => InodeData::Tcp(TcpSocket::new(self.net.reference())),
            InodeVtable::Udp => InodeData::Udp(UdpSocket::new(self.net.reference())),
            InodeVtable::Netlink => InodeData::UnixStream(UnixStream::default()),
        }
    }

    /// Puts a new socket into a fresh inode.
    fn create_socket_with(&mut self, vtable: InodeVtable) -> (r: Result<Inode, Errno>)
        requires
            vtable != InodeVtable::Default,
        ensures
            socket_created(*old(self), vtable, *final(self), r),
    {
        match self.fs.alloc_inode() {
            Err(e) => Err(e),
            Ok(inode) => {
                let mut inode: Inode = inode;
                inode.data = self.new_socket(vtable);
                inode.vtable = vtable;
                inode.kind = FileKind::Socket;
                Ok(inode)
            },
        }
    }

    /// Opens a socket: an unnamed file on its inode, or on a reference to it.
    pub fn alloc_file<I>(&mut self, inode: I) -> (r: Result<ActiveFileData<I>, Errno>)
        ensures
            r matches Ok(file) && file.path@ == Seq::<u8>::empty() && file.inode == inode,
            *final(self) == *old(self),
    {
        Ok(ActiveFileData::new(Vec::new(), inode))
    }
}

/// Without a backend the guest has no network: every socket created while none
/// is installed refuses to connect, to send datagrams and to receive them with
/// `EACCES`, and is not connected.
pub proof fn law_no_backend_no_network(
    before: SocketFs,
    family: u64,
    kind: u64,
    protocol: u64,
    after: SocketFs,
    inode: Inode,
)
    requires
        socket_requested(before, requested(family, kind, protocol), after, Ok(inode)),
        before.net.backend() is None,
    ensures
        inode.vtable == InodeVtable::Tcp ==> connect_refusal(inode) == Some(EACCES) && connection(
            inode,
        ) == Err::<i64, Errno>(ENOTCONN),
        inode.vtable == InodeVtable::Udp ==> udp_refusal(inode) == Some(EACCES),
{
}

/// A network socket gets the backend that is installed when it is created, and
/// keeps it: what is installed or removed later lies with the file system, of
/// which the socket knows nothing.
pub proof fn law_socket_gets_the_current_backend(
    before: SocketFs,
    family: u64,
    kind: u64,
    protocol: u64,
    after: SocketFs,
    inode: Inode,
)
    requires
        socket_requested(before, requested(family, kind, protocol), after, Ok(inode)),
        before.net.backend() is Some,
    ensures
        after.net.backend() == before.net.backend(),
        inode.vtable == InodeVtable::Tcp ==> inode.data->Tcp_0.net is Some
            && inode.data->Tcp_0.net->0.backend() == before.net.backend()->0 && connect_refusal(
            inode,
        ) is None,
        inode.vtable == InodeVtable::Udp ==> inode.data->Udp_0.net is Some
            && inode.data->Udp_0.net->0.backend() == before.net.backend()->0 && udp_refusal(
            inode,
        ) is None,
{
}

/// Creating a socket asks nothing of the backend: the socket gets the only
/// reference that is handed out, a network socket one and any other none, and
/// no call was made through it.
pub proof fn law_creation_asks_nothing(
    before: SocketFs,
    family: u64,
    kind: u64,
    protocol: u64,
    after: SocketFs,
    r: Result<Inode, Errno>,
)
    requires
        socket_requested(before, requested(family, kind, protocol), after, r),
    ensures
        r is Err ==> after == before,
        r matches Ok(inode) ==> after.net.handed_out() == before.net.handed_out() + references(
            inode.vtable,
        ) && match inode.data {
            InodeData::Tcp(s) => s.net matches Some(net) ==> net.calls() == Seq::<NetCall>::empty(),
            InodeData::Udp(s) => s.net matches Some(net) ==> net.calls() == Seq::<NetCall>::empty(),
            _ => references(inode.vtable) == 0,
        },
{
}

/// Sockets that are created one after the other have different inodes.
pub proof fn law_sockets_have_their_own_inodes(
    s0: SocketFs,
    v1: InodeVtable,
    s1: SocketFs,
    i1: Inode,
    v2: InodeVtable,
    s2: SocketFs,
    i2: Inode,
)
    requires
        socket_created(s0, v1, s1, Ok(i1)),
        socket_created(s1, v2, s2, Ok(i2)),
    ensures
        i1.dev_id == i2.dev_id,
        i1.number < i2.number < s2.fs.next_number,
{
}

/// A refused request leaves the file system as it was.
pub proof fn law_refused_request_changes_nothing(
    before: SocketFs,
    request: Result<InodeVtable, Errno>,
    after: SocketFs,
    e: Errno,
)
    requires
        socket_requested(before, request, after, Err(e)),
    ensures
        after == before,
{
}

} // verus!
