use std::cell::RefCell;
use std::rc::Rc;

use icicle_host::errno::{
    EACCES, EAFNOSUPPORT, EDESTADDRREQ, EISCONN, ENOSPC, ENOSYS, ENOTCONN, ENOTSOCK,
    EPROTONOSUPPORT, ESOCKTNOSUPPORT, EWOULDBLOCK,
};
use icicle_host::fs::{FileKind, Inode, InodeData, InodeVtable, Stream};
use icicle_host::socket::sockfs::SocketFs;
use icicle_host::socket::tcp::TcpSocket;
use icicle_host::socket::udp::UdpSocket;
use icicle_host::socket::unix::{UnixDgram, UnixStream};
use icicle_host::socket::{
    clamp_reply, LinuxMmu, Message, NetBackend, SocketAddr, AF_INET, AF_INET6, AF_NETLINK, AF_UNIX,
    AF_UNSPEC, SOCK_CLOEXEC, SOCK_DGRAM, SOCK_RAW, SOCK_STREAM,
};

/// A host that writes down what it is asked and answers as told.
struct Host {
    log: RefCell<Vec<String>>,
    open: RefCell<Result<i64, u64>>,
    count: RefCell<Result<usize, u64>>,
    sender_len: RefCell<usize>,
}

impl Host {
    fn new() -> Rc<Host> {
        Rc::new(Host {
            log: RefCell::new(Vec::new()),
            open: RefCell::new(Ok(77)),
            count: RefCell::new(Ok(3)),
            sender_len: RefCell::new(16),
        })
    }

    fn take_log(&self) -> Vec<String> {
        self.log.borrow_mut().drain(..).collect()
    }
}

impl NetBackend for Host {
    fn connect(&self, domain: u64, kind: u64, addr: &[u8]) -> Result<i64, u64> {
        self.log.borrow_mut().push(format!("connect {} {} {:?}", domain, kind, addr));
        *self.open.borrow()
    }

    fn send(&self, h: i64, buf: &[u8]) -> Result<usize, u64> {
        self.log.borrow_mut().push(format!("send {} {:?}", h, buf));
        *self.count.borrow()
    }

    fn recv(&self, h: i64, out: &mut [u8]) -> Result<usize, u64> {
        self.log.borrow_mut().push(format!("recv {} {}", h, out.len()));
        out.fill(0xcc);
        *self.count.borrow()
    }

    fn sendto(&self, h: i64, buf: &[u8], addr: &[u8]) -> Result<usize, u64> {
        self.log.borrow_mut().push(format!("sendto {} {:?} {} {}", h, buf, addr.len(), addr[0]));
        *self.count.borrow()
    }

    fn recvfrom(&self, h: i64, out: &mut [u8], addr: &mut [u8]) -> Result<(usize, usize), u64> {
        self.log.borrow_mut().push(format!("recvfrom {} {} {}", h, out.len(), addr.len()));
        out.fill(0xdd);
        addr.fill(0xee);
        let n = (*self.count.borrow())?;
        Ok((n, *self.sender_len.borrow()))
    }

    fn close(&self, h: i64) {
        self.log.borrow_mut().push(format!("close {}", h));
    }
}

/// Guest memory that holds the low byte of each address, up to a limit.
struct Memory {
    limit: u64,
    reads: usize,
}

impl LinuxMmu for Memory {
    type Error = &'static str;

    fn read_bytes(&mut self, addr: u64, buf: &mut [u8]) -> Result<(), &'static str> {
        self.reads += 1;
        for (i, b) in buf.iter_mut().enumerate() {
            if addr + i as u64 >= self.limit {
                return Err("unmapped");
            }
            *b = (addr + i as u64) as u8;
        }
        Ok(())
    }
}

fn networked() -> (SocketFs, Rc<Host>) {
    let host = Host::new();
    let mut fs = SocketFs::create(1);
    fs.set_net_backend(host.clone());
    (fs, host)
}

fn made(fs: &mut SocketFs, family: u64, kind: u64, protocol: u64) -> Inode {
    match fs.create_socket(family, kind, protocol) {
        Ok(inode) => inode,
        Err(e) => panic!("errno {}", e),
    }
}

fn refused(fs: &mut SocketFs, family: u64, kind: u64, protocol: u64) -> u64 {
    match fs.create_socket(family, kind, protocol) {
        Ok(_) => panic!("created"),
        Err(e) => e,
    }
}

fn address(first: u8) -> SocketAddr {
    let mut a = SocketAddr::default();
    a.addr[0] = first;
    a.addr[1] = 9;
    a
}

fn recv(inode: &mut Inode, buf: &mut [u8]) -> Result<usize, u64> {
    let mut msg = Message { address: None, buf };
    Inode::recvfrom(inode, &mut msg)
}

fn send(inode: &mut Inode, buf: &mut [u8]) -> Result<usize, u64> {
    let msg = Message { address: None, buf };
    Inode::sendto(inode, &msg)
}

fn tcp(inode: &Inode) -> &TcpSocket {
    match &inode.data {
        InodeData::Tcp(s) => s,
        _ => panic!("not TCP"),
    }
}

fn udp(inode: &Inode) -> &UdpSocket {
    match &inode.data {
        InodeData::Udp(s) => s,
        _ => panic!("not UDP"),
    }
}

#[test]
fn socket_requests() {
    let mut fs = SocketFs::create(7);
    assert_eq!(refused(&mut fs, AF_UNSPEC, SOCK_STREAM, 0), EAFNOSUPPORT);
    assert_eq!(refused(&mut fs, AF_INET6, SOCK_STREAM, 0), EAFNOSUPPORT);
    assert_eq!(refused(&mut fs, 99, SOCK_STREAM, 0), EAFNOSUPPORT);
    assert_eq!(refused(&mut fs, AF_UNIX, SOCK_STREAM, 2), EPROTONOSUPPORT);
    assert_eq!(refused(&mut fs, AF_UNIX, SOCK_RAW, 0), ESOCKTNOSUPPORT);
    assert_eq!(refused(&mut fs, AF_INET, SOCK_STREAM, 6), EPROTONOSUPPORT);
    assert_eq!(refused(&mut fs, AF_INET, SOCK_RAW, 0), ESOCKTNOSUPPORT);
    assert_eq!(refused(&mut fs, AF_INET, SOCK_STREAM | SOCK_CLOEXEC, 0), ESOCKTNOSUPPORT);
    // The protocol is looked at before the kind.
    assert_eq!(refused(&mut fs, AF_INET, SOCK_RAW, 1), EPROTONOSUPPORT);
    assert_eq!(fs.fs.next_number, 0);

    let a = made(&mut fs, AF_UNIX, SOCK_STREAM, 0);
    let b = made(&mut fs, AF_UNIX, SOCK_DGRAM, AF_UNIX);
    let c = made(&mut fs, AF_INET, SOCK_STREAM, 0);
    let d = made(&mut fs, AF_INET, SOCK_DGRAM, 0);
    let e = made(&mut fs, AF_NETLINK, 12345, 678);
    assert_eq!(a.vtable, InodeVtable::UnixStream);
    assert_eq!(b.vtable, InodeVtable::UnixDgram);
    assert_eq!(c.vtable, InodeVtable::Tcp);
    assert_eq!(d.vtable, InodeVtable::Udp);
    assert_eq!(e.vtable, InodeVtable::Netlink);
    assert_eq!([a.number, b.number, c.number, d.number, e.number], [0, 1, 2, 3, 4]);
    assert!([a.kind, b.kind, c.kind, d.kind, e.kind].iter().all(|k| *k == FileKind::Socket));
    assert_eq!(a.dev_id, 7);
    assert!(matches!(e.data, InodeData::UnixStream(_)));
    assert!(a.check_transfer() && b.check_transfer() && a.check_bind() && e.check_bind());
    assert!(!b.check_bind());
}

#[test]
fn inode_numbers_run_out() {
    let mut fs = SocketFs::create(7);
    fs.fs.next_number = u64::MAX;
    assert_eq!(refused(&mut fs, AF_UNIX, SOCK_STREAM, 0), ENOSPC);
}

#[test]
fn files_are_unnamed() {
    let mut fs = SocketFs::create(7);
    let inode = made(&mut fs, AF_UNIX, SOCK_STREAM, 0);
    let file = fs.alloc_file(inode).ok().unwrap();
    assert!(file.path.is_empty());
    assert_eq!(file.inode.number, 0);

    // The inode may be shared with other files.
    let shared = Rc::new(RefCell::new(made(&mut fs, AF_UNIX, SOCK_STREAM, 0)));
    let a = fs.alloc_file(shared.clone()).ok().unwrap();
    let b = fs.alloc_file(shared).ok().unwrap();
    assert_eq!(send(&mut a.inode.borrow_mut(), &mut [4]), Ok(1));
    let mut buf = [0u8; 1];
    assert_eq!(recv(&mut b.inode.borrow_mut(), &mut buf), Ok(1));
    assert_eq!(buf, [4]);
}

#[test]
fn stream_gives_back_what_was_written() {
    let mut s = Stream::default();
    let mut buf = [0u8; 4];
    assert_eq!(s.read(&mut buf), Err(EWOULDBLOCK));
    assert_eq!(s.write(&[1, 2, 3]), Ok(3));
    assert_eq!(s.write(&[4, 5]), Ok(2));
    assert_eq!(s.read(&mut buf), Ok(4));
    assert_eq!(buf, [1, 2, 3, 4]);
    assert_eq!(s.read(&mut buf), Ok(1));
    assert_eq!(buf, [5, 2, 3, 4]);
    assert_eq!(s.read(&mut buf), Err(EWOULDBLOCK));
}

#[test]
fn unix_stream_round_trip() {
    let mut fs = SocketFs::create(7);
    let mut inode = made(&mut fs, AF_UNIX, SOCK_STREAM, 0);
    let mut buf = [0u8; 8];
    assert_eq!(recv(&mut inode, &mut buf), Err(EWOULDBLOCK));
    assert_eq!(send(&mut inode, &mut [7, 8, 9]), Ok(3));
    assert_eq!(recv(&mut inode, &mut buf[..2]), Ok(2));
    assert_eq!(recv(&mut inode, &mut buf[2..]), Ok(1));
    assert_eq!(buf, [7, 8, 9, 0, 0, 0, 0, 0]);
    assert_eq!(Inode::bind(&mut inode, &address(1)), Ok(()));
    match &inode.data {
        InodeData::UnixStream(s) => assert_eq!(s.socket_addr, address(1)),
        _ => panic!("not a stream"),
    }
    assert_eq!(Inode::connect(&mut inode, &address(1), 2), Err(ENOTSOCK));
    assert_eq!(UnixStream::bind(&mut inode, &address(2)), Ok(()));
}

#[test]
fn datagrams_come_in_order() {
    let mut fs = SocketFs::create(7);
    let mut inode = made(&mut fs, AF_UNIX, SOCK_DGRAM, 0);
    let mut socket = UnixDgram::default();
    socket.recv_index = 15;
    socket.buf[15] = vec![1, 2, 3];
    socket.buf[0] = vec![4];
    inode.data = InodeData::UnixDgram(socket);

    // A datagram longer than the buffer is cut off.
    let mut buf = [0u8; 2];
    assert_eq!(recv(&mut inode, &mut buf), Ok(2));
    assert_eq!(buf, [1, 2]);
    let mut buf = [9u8; 3];
    assert_eq!(recv(&mut inode, &mut buf), Ok(1));
    assert_eq!(buf, [4, 9, 9]);
    assert_eq!(recv(&mut inode, &mut buf), Err(EWOULDBLOCK));
    match &inode.data {
        InodeData::UnixDgram(s) => {
            assert_eq!(s.recv_index, 1);
            assert!(s.buf.iter().all(|b| b.is_empty()));
        }
        _ => panic!("not a datagram socket"),
    }
    assert_eq!(send(&mut inode, &mut [1]), Err(ENOTSOCK));
    assert_eq!(UnixDgram::bind(&mut inode, &address(3)), Ok(()));
    match &inode.data {
        InodeData::UnixDgram(s) => assert_eq!(s.socket_addr, address(3)),
        _ => panic!("not a datagram socket"),
    }
}

#[test]
fn netlink_only_binds() {
    let mut fs = SocketFs::create(7);
    let mut inode = made(&mut fs, AF_NETLINK, 3, 0);
    let mut buf = [5u8; 2];
    assert_eq!(recv(&mut inode, &mut buf), Err(ENOSYS));
    assert_eq!(buf, [5, 5]);
    assert_eq!(send(&mut inode, &mut buf), Err(ENOSYS));
    assert_eq!(Inode::bind(&mut inode, &address(1)), Ok(()));
    assert_eq!(Inode::connect(&mut inode, &address(1), 2), Err(ENOTSOCK));
}

#[test]
fn no_backend_no_network() {
    let mut fs = SocketFs::create(7);
    let mut t = made(&mut fs, AF_INET, SOCK_STREAM, 0);
    let mut buf = [5u8; 2];
    assert_eq!(Inode::connect(&mut t, &address(1), 2), Err(EACCES));
    assert_eq!(recv(&mut t, &mut buf), Err(ENOTCONN));
    assert_eq!(send(&mut t, &mut buf), Err(ENOTCONN));

    let mut u = made(&mut fs, AF_INET, SOCK_DGRAM, 0);
    assert_eq!(recv(&mut u, &mut buf), Err(EACCES));
    // Without a destination that is what is reported first.
    assert_eq!(send(&mut u, &mut buf), Err(EDESTADDRREQ));
    let mut dest = address(4);
    let msg = Message { address: Some(&mut dest), buf: &mut buf };
    assert_eq!(Inode::sendto(&mut u, &msg), Err(EACCES));
    assert_eq!(Inode::connect(&mut u, &address(1), 2), Err(ENOTSOCK));
}

#[test]
fn backend_is_fixed_at_creation() {
    let host = Host::new();
    let mut fs = SocketFs::create(7);
    let mut early = made(&mut fs, AF_INET, SOCK_STREAM, 0);
    fs.set_net_backend(host.clone());
    let mut inside = made(&mut fs, AF_INET, SOCK_STREAM, 0);
    fs.clear_net_backend();
    let mut late = made(&mut fs, AF_INET, SOCK_STREAM, 0);
    assert_eq!(Inode::connect(&mut early, &address(1), 1), Err(EACCES));
    assert_eq!(Inode::connect(&mut inside, &address(1), 1), Ok(()));
    assert_eq!(Inode::connect(&mut late, &address(1), 1), Err(EACCES));
    assert_eq!(host.take_log(), vec!["connect 2 1 [1]"]);
    // A socket from before the backend was removed still closes through it.
    inside.release();
    assert_eq!(host.take_log(), vec!["close 77"]);
}

#[test]
fn tcp_life() {
    let (mut fs, host) = networked();
    let mut inode = made(&mut fs, AF_INET, SOCK_STREAM, 0);
    let mut buf = [0u8; 4];
    assert_eq!(recv(&mut inode, &mut buf), Err(ENOTCONN));
    assert_eq!(send(&mut inode, &mut buf), Err(ENOTCONN));
    assert!(host.take_log().is_empty());

    // The backend's error is passed on and changes nothing.
    *host.open.borrow_mut() = Err(111);
    assert_eq!(Inode::connect(&mut inode, &address(5), 2), Err(111));
    assert_eq!(tcp(&inode).handle, None);
    assert_eq!(host.take_log(), vec!["connect 2 1 [5, 9]"]);

    *host.open.borrow_mut() = Ok(42);
    assert_eq!(Inode::connect(&mut inode, &address(5), 1000), Ok(()));
    assert_eq!(tcp(&inode).handle, Some(42));
    assert_eq!(tcp(&inode).socket_addr, address(5));
    let log = host.take_log();
    assert_eq!(log.len(), 1);
    assert_eq!(log[0].matches(',').count(), 63);

    assert_eq!(Inode::connect(&mut inode, &address(6), 2), Err(EISCONN));
    assert_eq!(Inode::bind(&mut inode, &address(8)), Ok(()));
    assert_eq!(tcp(&inode).socket_addr, address(8));
    assert_eq!(tcp(&inode).handle, Some(42));

    assert_eq!(send(&mut inode, &mut [1, 2, 3, 4]), Ok(3));
    assert_eq!(recv(&mut inode, &mut buf), Ok(3));
    assert_eq!(buf, [0xcc; 4]);
    assert_eq!(host.take_log(), vec!["send 42 [1, 2, 3, 4]", "recv 42 4"]);

    // Over-reports are cut down, errors are passed on.
    *host.count.borrow_mut() = Ok(1000);
    assert_eq!(send(&mut inode, &mut [1, 2]), Ok(2));
    assert_eq!(recv(&mut inode, &mut buf), Ok(4));
    *host.count.borrow_mut() = Err(104);
    assert_eq!(send(&mut inode, &mut [1, 2]), Err(104));
    assert_eq!(recv(&mut inode, &mut buf), Err(104));
    host.take_log();

    inode.release();
    assert_eq!(host.take_log(), vec!["close 42"]);
    inode.release();
    assert!(host.take_log().is_empty());
    assert_eq!(recv(&mut inode, &mut buf), Err(ENOTCONN));
}

#[test]
fn tcp_calls_on_another_inode() {
    let mut fs = SocketFs::create(7);
    let mut inode = made(&mut fs, AF_UNIX, SOCK_STREAM, 0);
    let mut buf = [0u8; 1];
    assert_eq!(TcpSocket::connect(&mut inode, &address(1), 1), Err(ENOTSOCK));
    assert_eq!(TcpSocket::finish_connect(&mut inode, &address(1), Ok(1)), Err(ENOTSOCK));
    assert_eq!(TcpSocket::finish_connect(&mut inode, &address(1), Err(5)), Err(5));
    assert_eq!(TcpSocket::bind_tcp(&mut inode, &address(1)), Err(ENOTSOCK));
    assert_eq!(UdpSocket::bind_udp(&mut inode, &address(1)), Err(ENOTSOCK));
    let mut msg = Message { address: None, buf: &mut buf };
    assert_eq!(TcpSocket::sendto_tcp(&mut inode, &msg), Err(ENOTSOCK));
    assert_eq!(TcpSocket::recvfrom_tcp(&mut inode, &mut msg), Err(ENOTSOCK));
    assert_eq!(UdpSocket::recvfrom_udp(&mut inode, &mut msg), Err(ENOTSOCK));
    inode.vtable = InodeVtable::Default;
    assert_eq!(Inode::bind(&mut inode, &address(1)), Err(ENOTSOCK));
    assert_eq!(recv(&mut inode, &mut buf), Err(ENOTSOCK));
    assert_eq!(send(&mut inode, &mut buf), Err(ENOTSOCK));
}

#[test]
fn udp_opens_once() {
    let (mut fs, host) = networked();
    let mut inode = made(&mut fs, AF_INET, SOCK_DGRAM, 0);
    let mut buf = [1u8, 2, 3];

    *host.open.borrow_mut() = Err(24);
    assert_eq!(recv(&mut inode, &mut buf), Err(24));
    assert_eq!(udp(&inode).handle, None);
    assert_eq!(host.take_log(), vec!["connect 2 2 []"]);

    *host.open.borrow_mut() = Ok(8);
    let mut dest = address(4);
    let msg = Message { address: Some(&mut dest), buf: &mut buf };
    assert_eq!(Inode::sendto(&mut inode, &msg), Ok(3));
    assert_eq!(udp(&inode).handle, Some(8));
    assert_eq!(host.take_log(), vec!["connect 2 2 []", "sendto 8 [1, 2, 3] 64 4"]);

    assert_eq!(recv(&mut inode, &mut buf), Ok(3));
    assert_eq!(buf, [0xdd; 3]);
    assert_eq!(host.take_log(), vec!["recvfrom 8 3 64"]);

    assert_eq!(Inode::bind(&mut inode, &address(3)), Ok(()));
    assert_eq!(udp(&inode).socket_addr, address(3));
    assert_eq!(udp(&inode).handle, Some(8));

    *host.count.borrow_mut() = Ok(99);
    let msg = Message { address: Some(&mut dest), buf: &mut buf };
    assert_eq!(Inode::sendto(&mut inode, &msg), Ok(3));
    host.take_log();
    inode.release();
    assert_eq!(host.take_log(), vec!["close 8"]);
    inode.release();
    assert!(host.take_log().is_empty());
}

#[test]
fn udp_handle_is_opened_on_first_use() {
    let (mut fs, host) = networked();
    let mut inode = made(&mut fs, AF_INET, SOCK_DGRAM, 0);
    *host.open.borrow_mut() = Err(24);
    assert_eq!(UdpSocket::handle(&mut inode), Err(24));
    *host.open.borrow_mut() = Ok(8);
    assert_eq!(UdpSocket::handle(&mut inode), Ok(8));
    *host.open.borrow_mut() = Ok(9);
    assert_eq!(UdpSocket::handle(&mut inode), Ok(8));
    let mut buf = [0u8; 3];
    assert_eq!(recv(&mut inode, &mut buf), Ok(3));
    assert_eq!(host.take_log(), vec!["connect 2 2 []", "connect 2 2 []", "recvfrom 8 3 64"]);

    let mut none = made(&mut SocketFs::create(7), AF_INET, SOCK_DGRAM, 0);
    assert_eq!(UdpSocket::handle(&mut none), Err(EACCES));
    let mut other = made(&mut fs, AF_INET, SOCK_STREAM, 0);
    assert_eq!(UdpSocket::handle(&mut other), Err(ENOTSOCK));
}

#[test]
fn udp_reports_the_sender() {
    let (mut fs, host) = networked();
    let mut inode = made(&mut fs, AF_INET, SOCK_DGRAM, 0);
    let mut buf = [0u8; 2];
    let mut from = address(1);
    from.addr[16] = 0x77;
    let mut msg = Message { address: Some(&mut from), buf: &mut buf };
    assert_eq!(Inode::recvfrom(&mut inode, &mut msg), Ok(2));
    assert_eq!(&from.addr[..16], &[0xee; 16]);
    assert_eq!(from.addr[16], 0x77);

    *host.sender_len.borrow_mut() = 1000;
    let mut msg = Message { address: Some(&mut from), buf: &mut buf };
    assert_eq!(Inode::recvfrom(&mut inode, &mut msg), Ok(2));
    assert_eq!(from.addr, [0xee; 64]);

    *host.count.borrow_mut() = Err(11);
    let mut from = address(1);
    let mut msg = Message { address: Some(&mut from), buf: &mut buf };
    assert_eq!(Inode::recvfrom(&mut inode, &mut msg), Err(11));
    assert_eq!(from, address(1));
}

#[test]
fn a_connection_lasts_and_is_closed_once() {
    let (mut fs, host) = networked();
    let mut inode = made(&mut fs, AF_INET, SOCK_STREAM, 0);
    // Neither creating a socket nor releasing an unconnected one asks anything.
    inode.release();
    assert!(host.take_log().is_empty());
    assert_eq!(Inode::connect(&mut inode, &address(5), 1), Ok(()));
    *host.open.borrow_mut() = Ok(99);
    let mut buf = [1u8, 2];
    for k in 0..3 {
        assert_eq!(send(&mut inode, &mut buf), Ok(2));
        assert_eq!(Inode::connect(&mut inode, &address(6), 1), Err(EISCONN));
        assert_eq!(recv(&mut inode, &mut buf), Ok(2));
        assert_eq!(Inode::bind(&mut inode, &address(k)), Ok(()));
        assert_eq!(tcp(&inode).handle, Some(77));
    }
    inode.release();
    inode.release();
    let log = host.take_log();
    assert_eq!(log.len(), 8);
    assert_eq!(log[0], "connect 2 1 [5]");
    assert!(log[1..7].iter().all(|l| l.starts_with("send 77 ") || l.starts_with("recv 77 ")));
    assert_eq!(log[7], "close 77");
}

#[test]
fn a_socket_that_could_not_open_closes_nothing() {
    let (mut fs, host) = networked();
    let mut inode = made(&mut fs, AF_INET, SOCK_DGRAM, 0);
    *host.open.borrow_mut() = Err(24);
    let mut buf = [0u8; 2];
    assert_eq!(recv(&mut inode, &mut buf), Err(24));
    assert_eq!(recv(&mut inode, &mut buf), Err(24));
    inode.release();
    assert_eq!(host.take_log(), vec!["connect 2 2 []", "connect 2 2 []"]);
}

#[test]
fn answers_of_the_backend() {
    assert_eq!(clamp_reply(Ok(5), 9), Ok(5));
    assert_eq!(clamp_reply(Ok(9), 5), Ok(5));
    assert_eq!(clamp_reply(Err(5), 1), Err(5));

    let mut fs = SocketFs::create(7);
    let mut inode = made(&mut fs, AF_INET, SOCK_DGRAM, 0);
    assert_eq!(UdpSocket::finish_open(&mut inode, Err(24)), Err(24));
    assert_eq!(udp(&inode).handle, None);
    assert_eq!(UdpSocket::finish_open(&mut inode, Ok(6)), Ok(6));
    assert_eq!(udp(&inode).handle, Some(6));
    let mut other = made(&mut fs, AF_INET, SOCK_STREAM, 0);
    assert_eq!(UdpSocket::finish_open(&mut other, Ok(6)), Err(ENOTSOCK));

    let mut buf = [0u8; 2];
    let mut addr = SocketAddr::default();
    let mut msg = Message { address: Some(&mut addr), buf: &mut buf };
    assert_eq!(UdpSocket::finish_recvfrom(&mut msg, &[3; 64], Ok((7, 2))), Ok(2));
    assert_eq!(&addr.addr[..3], &[3, 3, 0]);
}

#[test]
fn addresses_are_read_from_the_guest() {
    let mut mem = Memory { limit: 0x1000, reads: 0 };
    assert_eq!(SocketAddr::read_user(&mut mem, 0, 16), Ok(None));
    assert_eq!(mem.reads, 0);

    let a = SocketAddr::read_user(&mut mem, 0x10, 3).unwrap().unwrap();
    assert_eq!(&a.addr[..4], &[0x10, 0x11, 0x12, 0]);
    assert_eq!(&a.addr[3..], &[0u8; 61]);

    let a = SocketAddr::read_user(&mut mem, 0x10, u64::MAX).unwrap().unwrap();
    assert_eq!(a.addr[63], 0x4f);

    assert_eq!(SocketAddr::read_user(&mut mem, 0xfff, 2), Err("unmapped"));
    assert_eq!(SocketAddr::from_read(&[1], Err("no")), Err("no"));
}
