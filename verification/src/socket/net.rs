//! Access to the host's network, with a record of what was asked.
//!
//! A socket reaches its backend through a [`Net`] and in no other way, and a
//! [`Net`] writes every call down. The record exists in specifications only: it
//! is what contracts speak of when they say which calls were made, and that no
//! other one was.

use std::rc::Rc;

use vstd::prelude::*;

use crate::errno::Errno;
use crate::socket::NetBackend;

verus! {

/// A call of a [`NetBackend`], with what the backend answered.
#[allow(inconsistent_fields)]
pub enum NetCall {
    Connect { domain: u64, kind: u64, addr: Seq<u8>, reply: Result<i64, Errno> },
    Send { h: i64, buf: Seq<u8>, reply: Result<usize, Errno> },
    /// The buffer held `before`, and `after` when the call returned.
    Recv { h: i64, before: Seq<u8>, after: Seq<u8>, reply: Result<usize, Errno> },
    SendTo { h: i64, buf: Seq<u8>, addr: Seq<u8>, reply: Result<usize, Errno> },
    /// As `Recv`, with the same for the buffer of the sender's address.
    RecvFrom {
        h: i64,
        before: Seq<u8>,
        after: Seq<u8>,
        addr_before: Seq<u8>,
        addr_after: Seq<u8>,
        reply: Result<(usize, usize), Errno>,
    },
    Close { h: i64 },
}

/// A socket's own reference to a backend, with the record of its calls. It
/// cannot be copied, so nothing is asked through it that it does not know of.
pub struct Recorded<B: ?Sized> {
    backend: Rc<B>,
    calls: Ghost<Seq<NetCall>>,
}

/// A reference to whichever backend is installed.
pub type Net = Recorded<dyn NetBackend>;

impl<B: NetBackend + ?Sized> Recorded<B> {
    /// The backend.
    pub closed spec fn backend(self) -> Rc<B> {
        self.backend
    }

    /// The calls made through this reference, the latest last.
    pub closed spec fn calls(self) -> Seq<NetCall> {
        self.calls@
    }

    /// This reference after one more call.
    pub closed spec fn asked(self, call: NetCall) -> Recorded<B> {
        Recorded { calls: Ghost(self.calls@.push(call)), ..self }
    }

    /// See [`NetBackend::connect`].
    pub(crate) fn connect(&mut self, domain: u64, kind: u64, addr: &[u8]) -> (reply: Result<
        i64,
        Errno,
    >)
        ensures
            old(self).backend().answers(NetCall::Connect { domain, kind, addr: addr@, reply }),
            *final(self) == old(self).asked(NetCall::Connect { domain, kind, addr: addr@, reply }),
    {
        let reply: Result<i64, Errno> = self.backend.connect(domain, kind, addr);
        self.calls = Ghost(self.calls@.push(NetCall::Connect { domain, kind, addr: addr@, reply }));
        reply
    }

    /// See [`NetBackend::send`].
    pub(crate) fn send(&mut self, h: i64, buf: &[u8]) -> (reply: Result<usize, Errno>)
        ensures
            old(self).backend().answers(NetCall::Send { h, buf: buf@, reply }),
            *final(self) == old(self).asked(NetCall::Send { h, buf: buf@, reply }),
    {
        let reply: Result<usize, Errno> = self.backend.send(h, buf);
        self.calls = Ghost(self.calls@.push(NetCall::Send { h, buf: buf@, reply }));
        reply
    }

    /// See [`NetBackend::recv`].
    pub(crate) fn recv(&mut self, h: i64, out: &mut [u8]) -> (reply: Result<usize, Errno>)
        ensures
            final(out)@.len() == old(out)@.len(),
            old(self).backend().answers(
                NetCall::Recv { h, before: old(out)@, after: final(out)@, reply },
            ),
            *final(self) == old(self).asked(
                NetCall::Recv { h, before: old(out)@, after: final(out)@, reply },
            ),
    {
        let ghost before = out@;
        let reply: Result<usize, Errno> = self.backend.recv(h, out);
        self.calls = Ghost(self.calls@.push(NetCall::Recv { h, before, after: out@, reply }));
        reply
    }

    /// See [`NetBackend::sendto`].
    pub(crate) fn sendto(&mut self, h: i64, buf: &[u8], addr: &[u8]) -> (reply: Result<
        usize,
        Errno,
    >)
        ensures
            old(self).backend().answers(NetCall::SendTo { h, buf: buf@, addr: addr@, reply }),
            *final(self) == old(self).asked(NetCall::SendTo { h, buf: buf@, addr: addr@, reply }),
    {
        let reply: Result<usize, Errno> = self.backend.sendto(h, buf, addr);
        self.calls = Ghost(self.calls@.push(NetCall::SendTo { h, buf: buf@, addr: addr@, reply }));
        reply
    }

    /// See [`NetBackend::recvfrom`].
    pub(crate) fn recvfrom(&mut self, h: i64, out: &mut [u8], addr: &mut [u8]) -> (reply: Result<
        (usize, usize),
        Errno,
    >)
        ensures
            final(out)@.len() == old(out)@.len(),
            final(addr)@.len() == old(addr)@.len(),
            old(self).backend().answers(
                NetCall::RecvFrom {
                    h,
                    before: old(out)@,
                    after: final(out)@,
                    addr_before: old(addr)@,
                    addr_after: final(addr)@,
                    reply,
                },
            ),
            *final(self) == old(self).asked(
                NetCall::RecvFrom {
                    h,
                    before: old(out)@,
                    after: final(out)@,
                    addr_before: old(addr)@,
                    addr_after: final(addr)@,
                    reply,
                },
            ),
    {
        let ghost before = out@;
        let ghost addr_before = addr@;
        let reply: Result<(usize, usize), Errno> = self.backend.recvfrom(h, out, addr);
        self.calls = Ghost(
            self.calls@.push(
                NetCall::RecvFrom {
                    h,
                    before,
                    after: out@,
                    addr_before,
                    addr_after: addr@,
                    reply,
                },
            ),
        );
        reply
    }

    /// See [`NetBackend::close`].
    pub(crate) fn close(&mut self, h: i64)
        ensures
            old(self).backend().answers(NetCall::Close { h }),
            *final(self) == old(self).asked(NetCall::Close { h }),
    {
        self.backend.close(h);
        self.calls = Ghost(self.calls@.push(NetCall::Close { h }));
    }
}

/// One more call leaves the backend the same and is written down last.
pub broadcast proof fn lemma_asked(net: Net, call: NetCall)
    ensures
        #![trigger net.asked(call)]
        net.asked(call).backend() == net.backend(),
        net.asked(call).calls() == net.calls().push(call),
{
}

/// The handles that a backend opened, in order.
pub open spec fn handles_opened(calls: Seq<NetCall>) -> Seq<i64>
    decreases calls.len(),
{
    if calls.len() == 0 {
        Seq::empty()
    } else {
        let before = handles_opened(calls.drop_last());
        match calls.last() {
            NetCall::Connect { reply: Ok(h), .. } => before.push(h),
            _ => before,
        }
    }
}

/// The handles that a backend was told to close, in order.
pub open spec fn handles_closed(calls: Seq<NetCall>) -> Seq<i64>
    decreases calls.len(),
{
    if calls.len() == 0 {
        Seq::empty()
    } else {
        let before = handles_closed(calls.drop_last());
        match calls.last() {
            NetCall::Close { h } => before.push(h),
            _ => before,
        }
    }
}

/// Every handle opened through `net` was closed, once and in order, but for
/// `handle`, which is open; and no other handle was closed.
pub open spec fn is_accounted(net: Option<Net>, handle: Option<i64>) -> bool {
    match (net, handle) {
        (Some(n), Some(h)) => handles_opened(n.calls()) == handles_closed(n.calls()).push(h),
        (Some(n), None) => handles_opened(n.calls()) == handles_closed(n.calls()),
        (None, _) => handle is None,
    }
}

/// What one more call does to the two lists of handles.
pub broadcast proof fn lemma_handles(calls: Seq<NetCall>, call: NetCall)
    ensures
        #![trigger calls.push(call)]
        handles_opened(calls.push(call)) == match call {
            NetCall::Connect { reply: Ok(h), .. } => handles_opened(calls).push(h),
            _ => handles_opened(calls),
        },
        handles_closed(calls.push(call)) == match call {
            NetCall::Close { h } => handles_closed(calls).push(h),
            _ => handles_closed(calls),
        },
{
    assert(calls.push(call).drop_last() =~= calls);
}

/// `net` is the reference of a new socket to `backend`, if there is one: no call
/// was made through it.
pub open spec fn is_fresh(backend: Option<Rc<dyn NetBackend>>, net: Option<Net>) -> bool {
    match (backend, net) {
        (Some(b), Some(n)) => n.backend() == b && n.calls() == Seq::<NetCall>::empty(),
        (None, None) => true,
        _ => false,
    }
}

/// A reference through which nothing was asked yet.
fn fresh<B: NetBackend + ?Sized>(backend: &Option<Rc<B>>) -> (net: Option<Recorded<B>>)
    ensures
        net is Some == backend is Some,
        net matches Some(n) ==> Some(n.backend()) == *backend && n.calls()
            == Seq::<NetCall>::empty(),
{
    match backend {
        Some(b) => Some(Recorded { backend: b.clone(), calls: Ghost(Seq::empty()) }),
        None => None,
    }
}

/// Where network sockets get their references from: the backend that is
/// installed, if any.
///
/// It asks nothing of the backend itself. To reach it takes a reference, and
/// those are counted.
pub struct NetProvider {
    backend: Option<Rc<dyn NetBackend>>,
    handed_out: Ghost<nat>,
}

impl NetProvider {
    /// The backend that is installed.
    pub closed spec fn backend(self) -> Option<Rc<dyn NetBackend>> {
        self.backend
    }

    /// How many references were handed out.
    pub closed spec fn handed_out(self) -> nat {
        self.handed_out@
    }

    /// No backend.
    pub fn new() -> (p: NetProvider)
        ensures
            p.backend() is None,
            p.handed_out() == 0,
    {
        NetProvider { backend: None, handed_out: Ghost(0) }
    }

    /// Installs a backend, or none, in place of any previous one.
    pub fn set(&mut self, backend: Option<Rc<dyn NetBackend>>)
        ensures
            final(self).backend() == backend,
            final(self).handed_out() == old(self).handed_out(),
    {
        self.backend = backend;
    }

    /// The reference for a new socket.
    pub(crate) fn reference(&mut self) -> (net: Option<Net>)
        ensures
            is_fresh(old(self).backend(), net),
            final(self).backend() == old(self).backend(),
            final(self).handed_out() == old(self).handed_out() + 1,
    {
        self.handed_out = Ghost(self.handed_out@ + 1);
        fresh(&self.backend)
    }
}

} // verus!
