//! The run loop: what each vmexit asks for, and when the loop ends.
//!
//! The kernel leaves the description of a vmexit in the `kvm_run` area. The
//! functions here read that area, say what the caller has to do next, and put
//! a device's reply back where the kernel looks for it. Issuing `KVM_RUN` and
//! calling the device model are the caller's part.

use vstd::prelude::*;

use crate::le::{copy_at, read_le};
#[allow(unused_imports)]
use crate::le::{le_at, lemma_le_bounds, splice};
use crate::vmexit::{ExceptionCode, VmExit};

verus! {

/// `kvm_run.exit_reason` values used by the engine.
pub const EXIT_UNKNOWN: u32 = 0;

pub const EXIT_IO: u32 = 2;

pub const EXIT_EXCEPTION: u32 = 3;

pub const EXIT_INTR: u32 = 4;

pub const EXIT_HLT: u32 = 5;

pub const EXIT_MMIO: u32 = 6;

pub const EXIT_SHUTDOWN: u32 = 8;

/// Offset of `exit_reason` within `struct kvm_run`. The union that describes
/// the exit follows at byte 32.
pub const KVM_RUN_EXIT_REASON: usize = 8;

/// The port I/O description: { direction u8, size u8, port u16, count u32,
/// data_offset u64 }. `data_offset` is relative to the start of the area.
pub const KVM_RUN_IO_DIRECTION: usize = 32;

pub const KVM_RUN_IO_SIZE: usize = 33;

pub const KVM_RUN_IO_PORT: usize = 34;

pub const KVM_RUN_IO_DATA_OFFSET: usize = 40;

/// The memory-mapped I/O description: { phys_addr u64, data [u8; 8], len u32,
/// is_write u8 }.
pub const KVM_RUN_MMIO_PHYS: usize = 32;

pub const KVM_RUN_MMIO_DATA: usize = 40;

pub const KVM_RUN_MMIO_LEN: usize = 48;

pub const KVM_RUN_MMIO_IS_WRITE: usize = 52;

/// The widest access one vmexit may carry, in bytes.
pub const MAX_ACCESS: usize = 8;

/// The shortest area that holds every field above.
pub const KVM_RUN_MIN_LEN: usize = 53;

/// One access of the guest to a device.
pub struct IoRequest {
    /// Whether `addr` is an I/O port; a guest-physical address otherwise.
    pub port_io: bool,
    pub addr: u64,
    /// Whether the guest writes to the device.
    pub is_write: bool,
    /// What the guest wrote; on a read, where the device puts its reply.
    pub data: Vec<u8>,
    /// Where in the `kvm_run` area `data` lives.
    pub offset: usize,
}

/// What has to be done besides ending the run.
#[derive(Clone, Copy, Debug, PartialEq, Eq, Structural)]
pub enum ExitNote {
    Nothing,
    /// Fetch the registers, for diagnosis.
    FetchRegisters,
    /// Report an exit reason that the engine does not know.
    UnknownReason(u32),
}

/// What a vmexit asks for.
pub enum ExitStep {
    /// Hand the request to the device model, then call [`complete`].
    Dispatch(IoRequest),
    /// Leave the run loop.
    Stop(VmExit, ExitNote),
}

pub open spec fn internal_error(value: u64) -> VmExit {
    VmExit::UnhandledException((ExceptionCode::InternalError, value))
}

pub open spec fn exit_reason(run: Seq<u8>) -> nat {
    le_at(run, KVM_RUN_EXIT_REASON as int, 4)
}

pub open spec fn mmio_len(run: Seq<u8>) -> nat {
    le_at(run, KVM_RUN_MMIO_LEN as int, 4)
}

pub open spec fn io_size(run: Seq<u8>) -> nat {
    run[KVM_RUN_IO_SIZE as int] as nat
}

pub open spec fn io_data_offset(run: Seq<u8>) -> nat {
    le_at(run, KVM_RUN_IO_DATA_OFFSET as int, 8)
}

/// The area holds all the fields, and the payload of a port access that is
/// going to be served lies inside it.
pub open spec fn is_run_area(run: Seq<u8>) -> bool {
    &&& run.len() >= KVM_RUN_MIN_LEN
    &&& exit_reason(run) == EXIT_IO && io_size(run) <= MAX_ACCESS ==> io_data_offset(run) + io_size(
        run,
    ) <= run.len()
}

/// `req` is the memory-mapped access that `run` describes.
pub open spec fn is_mmio_request(run: Seq<u8>, req: IoRequest) -> bool {
    &&& !req.port_io
    &&& req.addr == le_at(run, KVM_RUN_MMIO_PHYS as int, 8)
    &&& req.is_write == (run[KVM_RUN_MMIO_IS_WRITE as int] != 0)
    &&& req.offset == KVM_RUN_MMIO_DATA
    &&& req.data@ == run.subrange(req.offset as int, req.offset + mmio_len(run))
}

/// `req` is the port access that `run` describes.
pub open spec fn is_port_request(run: Seq<u8>, req: IoRequest) -> bool {
    &&& req.port_io
    &&& req.addr == le_at(run, KVM_RUN_IO_PORT as int, 2)
    &&& req.is_write == (run[KVM_RUN_IO_DIRECTION as int] != 0)
    &&& req.offset == io_data_offset(run)
    &&& req.data@ == run.subrange(req.offset as int, req.offset + io_size(run))
}

/// `step` is what the vmexit described by `run` asks for.
pub open spec fn is_exit_step(run: Seq<u8>, step: ExitStep) -> bool {
    let reason = exit_reason(run);
    if reason == EXIT_MMIO {
        if mmio_len(run) > MAX_ACCESS {
            step == ExitStep::Stop(internal_error(1), ExitNote::Nothing)
        } else {
            step matches ExitStep::Dispatch(req) && is_mmio_request(run, req)
        }
    } else if reason == EXIT_IO {
        if io_size(run) > MAX_ACCESS {
            step == ExitStep::Stop(internal_error(3), ExitNote::Nothing)
        } else {
            step matches ExitStep::Dispatch(req) && is_port_request(run, req)
        }
    } else if reason == EXIT_HLT {
        step == ExitStep::Stop(VmExit::Halt, ExitNote::Nothing)
    } else if reason == EXIT_INTR {
        step == ExitStep::Stop(VmExit::Interrupted, ExitNote::Nothing)
    } else if reason == EXIT_SHUTDOWN {
        step == ExitStep::Stop(
            VmExit::UnhandledException((ExceptionCode::Halt, 0xDEAD)),
            ExitNote::FetchRegisters,
        )
    } else {
        step == ExitStep::Stop(
            internal_error(reason as u64),
            ExitNote::UnknownReason(reason as u32),
        )
    }
}

/// The vmexit that a device's answer to `req` ends the run with, if any.
pub open spec fn dispatch_outcome(req: IoRequest, accepted: bool) -> Option<VmExit> {
    if accepted {
        None
    } else if req.port_io {
        Some(internal_error(4))
    } else {
        Some(internal_error(2))
    }
}

fn internal_error_exit(value: u64) -> (exit: VmExit)
    ensures
        exit == internal_error(value),
{
    VmExit::UnhandledException((ExceptionCode::InternalError, value))
}

/// Whether `run` can be handed to [`classify_exit`].
pub fn check_run_area(run: &[u8]) -> (ok: bool)
    ensures
        ok == is_run_area(run@),
{
    let len: usize = run.len();
    if len < KVM_RUN_MIN_LEN {
        return false;
    }
    let reason: u64 = read_le(run, KVM_RUN_EXIT_REASON, 4);
    let size: usize = run[KVM_RUN_IO_SIZE] as usize;
    if reason != EXIT_IO as u64 || size > MAX_ACCESS {
        return true;
    }
    let offset: u64 = read_le(run, KVM_RUN_IO_DATA_OFFSET, 8);
    size <= len && offset <= (len - size) as u64
}

/// The `n` bytes of the area at `off`.
fn payload(run: &[u8], off: usize, n: usize) -> (data: Vec<u8>)
    requires
        off + n <= run@.len(),
    ensures
        data@ == run@.subrange(off as int, off + n),
{
    let len: usize = run.len();
    let mut data: Vec<u8> = Vec::new();
    let mut i: usize = 0;
    while i < n
        invariant
            i <= n,
            off + n <= len == run@.len(),
            data@ =~= run@.subrange(off as int, off + i),
        decreases n - i,
    {
        data.push(run[off + i]);
        i = i + 1;
    }
    data
}

/// Reads the description of a vmexit: what has to be done about it.
pub fn classify_exit(run: &[u8]) -> (step: ExitStep)
    requires
        is_run_area(run@),
    ensures
        is_exit_step(run@, step),
{
    proof {
        lemma_le_bounds();
    }
    let reason: u32 = read_le(run, KVM_RUN_EXIT_REASON, 4) as u32;
    if reason == EXIT_MMIO {
        let is_write: bool = run[KVM_RUN_MMIO_IS_WRITE] != 0;
        let len: u64 = read_le(run, KVM_RUN_MMIO_LEN, 4);
        let addr: u64 = read_le(run, KVM_RUN_MMIO_PHYS, 8);
        if len > MAX_ACCESS as u64 {
            return ExitStep::Stop(internal_error_exit(1), ExitNote::Nothing);
        }
        let offset: usize = KVM_RUN_MMIO_DATA;
        let data: Vec<u8> = payload(run, offset, len as usize);
        ExitStep::Dispatch(IoRequest { port_io: false, addr, is_write, data, offset })
    } else if reason == EXIT_IO {
        let direction: u8 = run[KVM_RUN_IO_DIRECTION];
        let size: usize = run[KVM_RUN_IO_SIZE] as usize;
        let port: u64 = read_le(run, KVM_RUN_IO_PORT, 2);
        if size > MAX_ACCESS {
            return ExitStep::Stop(internal_error_exit(3), ExitNote::Nothing);
        }
        let total: usize = run.len();
        let data_offset: u64 = read_le(run, KVM_RUN_IO_DATA_OFFSET, 8);
        assert(data_offset <= total);
        let offset: usize = data_offset as usize;
        let data: Vec<u8> = payload(run, offset, size);
        ExitStep::Dispatch(
            IoRequest { port_io: true, addr: port, is_write: direction != 0, data, offset },
        )
    } else if reason == EXIT_HLT {
        ExitStep::Stop(VmExit::Halt, ExitNote::Nothing)
    } else if reason == EXIT_INTR {
        ExitStep::Stop(VmExit::Interrupted, ExitNote::Nothing)
    } else if reason == EXIT_SHUTDOWN {
        // The guest triple-faulted natively.
        ExitStep::Stop(
            VmExit::UnhandledException((ExceptionCode::Halt, 0xDEAD)),
            ExitNote::FetchRegisters,
        )
    } else {
        ExitStep::Stop(internal_error_exit(reason as u64), ExitNote::UnknownReason(reason))
    }
}

/// Settles a dispatched access: a reply that the guest is waiting for goes
/// back into the area, and a device that refused ends the run.
pub fn complete(run: &mut [u8], req: &IoRequest, accepted: bool) -> (exit: Option<VmExit>)
    requires
        req.offset + req.data@.len() <= old(run)@.len(),
    ensures
        exit == dispatch_outcome(*req, accepted),
        final(run)@ == if accepted && !req.is_write {
            splice(old(run)@, req.offset as int, req.data@)
        } else {
            old(run)@
        },
{
    if accepted {
        if !req.is_write {
            copy_at(run, req.offset, req.data.as_slice());
        }
        None
    } else if req.port_io {
        Some(internal_error_exit(4))
    } else {
        Some(internal_error_exit(2))
    }
}

/// The value that a failed `KVM_RUN` reports: the OS error, 0 if there is
/// none, as a 64-bit pattern.
pub open spec fn os_error_value(code: Option<i32>) -> int {
    match code {
        None => 0,
        Some(c) => if c >= 0 {
            c as int
        } else {
            0x1_0000_0000_0000_0000 + c
        },
    }
}

/// The exit for a `KVM_RUN` that failed with the OS error `code`.
pub fn run_failed(code: Option<i32>) -> (exit: VmExit)
    ensures
        exit == internal_error(os_error_value(code) as u64),
        0 <= os_error_value(code) <= u64::MAX,
{
    let value: i32 = match code {
        Some(c) => c,
        None => 0,
    };
    assert(value < 0 ==> value as u64 == 0x1_0000_0000_0000_0000 + value) by (bit_vector);
    internal_error_exit(value as u64)
}

/// The budget of a run: how many more vmexits it may service.
///
/// KVM has no faithful per-instruction counter, so vmexits are counted.
pub struct RunLoop {
    pub left: u64,
}

/// What the caller of [`RunLoop::step`] has seen happen.
pub enum RunEvent {
    /// The run starts.
    Start,
    /// `KVM_RUN` failed with this OS error, if it left one.
    RunFailed(Option<i32>),
    /// `KVM_RUN` returned: the area describes a vmexit.
    Exited,
    /// The device model took the request, with its reply in it, or refused it.
    Dispatched(IoRequest, bool),
}

/// What the caller of [`RunLoop::step`] has to do next.
pub enum RunAction {
    /// Issue `KVM_RUN`.
    Run,
    /// Hand the request to the device model.
    Dispatch(IoRequest),
    /// Leave the loop with this exit.
    Finish(VmExit, ExitNote),
}

/// The area and the request that come with an event can be worked on.
pub open spec fn is_run_event(run: Seq<u8>, event: RunEvent) -> bool {
    match event {
        RunEvent::Start => true,
        RunEvent::RunFailed(_) => true,
        RunEvent::Exited => is_run_area(run),
        RunEvent::Dispatched(req, _) => req.offset + req.data@.len() <= run.len(),
    }
}

/// Going on with a budget of `left`: another `KVM_RUN`, or the end.
pub open spec fn resumed(left: nat) -> (nat, RunAction) {
    if left == 0 {
        (left, RunAction::Finish(VmExit::InstructionLimit, ExitNote::Nothing))
    } else {
        ((left - 1) as nat, RunAction::Run)
    }
}

/// The budget after an event, and what the event asks for.
pub open spec fn is_run_step(
    left: nat,
    run: Seq<u8>,
    event: RunEvent,
    left_after: nat,
    action: RunAction,
) -> bool {
    match event {
        RunEvent::Start => (left_after, action) == resumed(left),
        RunEvent::RunFailed(code) => {
            &&& left_after == left
            &&& action == RunAction::Finish(
                internal_error(os_error_value(code) as u64),
                ExitNote::Nothing,
            )
        },
        RunEvent::Exited => {
            &&& left_after == left
            &&& match action {
                RunAction::Run => false,
                RunAction::Dispatch(req) => is_exit_step(run, ExitStep::Dispatch(req)),
                RunAction::Finish(exit, note) => is_exit_step(run, ExitStep::Stop(exit, note)),
            }
        },
        RunEvent::Dispatched(req, accepted) => match dispatch_outcome(req, accepted) {
            None => (left_after, action) == resumed(left),
            Some(exit) => {
                &&& left_after == left
                &&& action == RunAction::Finish(exit, ExitNote::Nothing)
            },
        },
    }
}

/// The area after an event: only the reply to a read that a device took is
/// put into it.
pub open spec fn run_area_after(run: Seq<u8>, event: RunEvent) -> Seq<u8> {
    match event {
        RunEvent::Dispatched(req, true) => if req.is_write {
            run
        } else {
            splice(run, req.offset as int, req.data@)
        },
        _ => run,
    }
}

impl RunLoop {
    pub fn new(max_iters: u64) -> (l: RunLoop)
        ensures
            l.left == max_iters,
    {
        RunLoop { left: max_iters }
    }

    /// Asks for another `KVM_RUN`: `None` grants it, otherwise the run is over.
    pub fn begin(&mut self) -> (exit: Option<VmExit>)
        ensures
            old(self).left == 0 ==> exit == Some(VmExit::InstructionLimit) && *final(self) == *old(
                self,
            ),
            old(self).left > 0 ==> exit is None && final(self).left == old(self).left - 1,
    {
        if self.left == 0 {
            return Some(VmExit::InstructionLimit);
        }
        self.left = self.left - 1;
        None
    }

    fn resume(&mut self) -> (action: RunAction)
        ensures
            (final(self).left as nat, action) == resumed(old(self).left as nat),
    {
        match self.begin() {
            None => RunAction::Run,
            Some(exit) => RunAction::Finish(exit, ExitNote::Nothing),
        }
    }

    /// One turn of the run loop: from what happened to what is to be done.
    pub fn step(&mut self, run: &mut [u8], event: RunEvent) -> (action: RunAction)
        requires
            is_run_event(old(run)@, event),
        ensures
            is_run_step(
                old(self).left as nat,
                old(run)@,
                event,
                final(self).left as nat,
                action,
            ),
            final(run)@ == run_area_after(old(run)@, event),
    {
        match event {
            RunEvent::Start => self.resume(),
            RunEvent::RunFailed(code) => RunAction::Finish(run_failed(code), ExitNote::Nothing),
            RunEvent::Exited => match classify_exit(run) {
                ExitStep::Dispatch(req) => RunAction::Dispatch(req),
                ExitStep::Stop(exit, note) => RunAction::Finish(exit, note),
            },
            RunEvent::Dispatched(req, accepted) => match complete(run, &req, accepted) {
                None => self.resume(),
                Some(exit) => RunAction::Finish(exit, ExitNote::Nothing),
            },
        }
    }
}

/// Every turn that asks for `KVM_RUN` uses one unit of the budget, and no
/// other turn does.
pub proof fn law_each_run_costs_one(
    left: nat,
    run: Seq<u8>,
    event: RunEvent,
    left_after: nat,
    action: RunAction,
)
    requires
        is_run_step(left, run, event, left_after, action),
    ensures
        action is Run ==> left_after == left - 1,
        !(action is Run) ==> left_after == left,
{
}

/// One turn of a run: what the area held, what had happened, the budget after
/// the turn, and what was to be done.
pub struct Turn {
    pub area: Seq<u8>,
    pub event: RunEvent,
    pub left: nat,
    pub action: RunAction,
}

/// The same access, with whatever the device model left in its data.
pub open spec fn same_access(asked: IoRequest, answered: IoRequest) -> bool {
    &&& answered.port_io == asked.port_io
    &&& answered.addr == asked.addr
    &&& answered.is_write == asked.is_write
    &&& answered.offset == asked.offset
    &&& answered.data@.len() == asked.data@.len()
}

/// `next` comes after `turn`: the caller did what it was told. `KVM_RUN` fails,
/// or the kernel describes a vmexit in the area; the device model answers the
/// access that it was handed, while the area stays as it is; nothing comes after
/// the end.
pub open spec fn follows(turn: Turn, next: Turn) -> bool {
    let area = run_area_after(turn.area, turn.event);
    match turn.action {
        RunAction::Run => {
            &&& next.area.len() == area.len()
            &&& next.event is RunFailed || (next.event is Exited && is_run_area(next.area))
        },
        RunAction::Dispatch(req) => {
            &&& next.area == area
            &&& next.event matches RunEvent::Dispatched(answer, _) && same_access(req, answer)
        },
        RunAction::Finish(_, _) => false,
    }
}

/// The turns of a run with a budget of `max`, from its start on: each is a turn
/// of [`RunLoop::step`], and each follows from the one before it.
pub open spec fn is_run_trace(max: nat, turns: Seq<Turn>) -> bool {
    &&& turns.len() > 0
    &&& turns[0].event is Start
    &&& is_run_step(max, turns[0].area, turns[0].event, turns[0].left, turns[0].action)
    &&& forall|i: int|
        0 < i < turns.len() ==> {
            &&& follows(turns[i - 1], #[trigger] turns[i])
            &&& is_run_step(
                turns[i - 1].left,
                turns[i].area,
                turns[i].event,
                turns[i].left,
                turns[i].action,
            )
        }
}

/// How often a run issued `KVM_RUN`.
pub open spec fn runs(turns: Seq<Turn>) -> nat
    decreases turns.len(),
{
    if turns.len() == 0 {
        0
    } else {
        runs(turns.drop_last()) + if turns.last().action is Run {
            1nat
        } else {
            0
        }
    }
}

/// How many vmexits a run served: those whose access a device took.
pub open spec fn served(turns: Seq<Turn>) -> nat
    decreases turns.len(),
{
    if turns.len() == 0 {
        0
    } else {
        served(turns.drop_last()) + match turns.last().event {
            RunEvent::Dispatched(_, true) => 1nat,
            _ => 0,
        }
    }
}

/// What became of each `KVM_RUN` of a run, once that is known: `None` where the
/// vmexit was served, otherwise the exit that it ended the run with.
pub open spec fn outcomes(turns: Seq<Turn>) -> Seq<Option<VmExit>>
    decreases turns.len(),
{
    if turns.len() == 0 {
        Seq::empty()
    } else {
        let before = outcomes(turns.drop_last());
        match (turns.last().event, turns.last().action) {
            (RunEvent::Dispatched(_, true), _) => before.push(None),
            (RunEvent::Start, _) => before,
            (_, RunAction::Finish(exit, _)) => before.push(Some(exit)),
            _ => before,
        }
    }
}

/// What a run with a budget of `max` ends with, when its vmexits have the given
/// outcomes: the first one that ends it within the budget, or the limit once
/// the budget is used up. `None` while it needs another `KVM_RUN`.
pub open spec fn run_result(max: nat, outcomes: Seq<Option<VmExit>>) -> Option<VmExit>
    decreases outcomes.len(),
{
    if max == 0 {
        Some(VmExit::InstructionLimit)
    } else if outcomes.len() == 0 {
        None
    } else if outcomes[0] is Some {
        outcomes[0]
    } else {
        run_result((max - 1) as nat, outcomes.skip(1))
    }
}

/// As long as every vmexit lets the run go on, its result is open until the
/// budget is used up.
proof fn lemma_all_served(max: nat, outcomes: Seq<Option<VmExit>>)
    requires
        forall|i: int| 0 <= i < outcomes.len() ==> outcomes[i] is None,
    ensures
        outcomes.len() >= max ==> run_result(max, outcomes) == Some(VmExit::InstructionLimit),
        outcomes.len() < max ==> run_result(max, outcomes) is None,
    decreases max,
{
    if max > 0 && outcomes.len() > 0 {
        lemma_all_served((max - 1) as nat, outcomes.skip(1));
    }
}

/// The first vmexit within the budget that ends the run decides its result.
proof fn lemma_first_stop(max: nat, outcomes: Seq<Option<VmExit>>, k: int)
    requires
        0 <= k < outcomes.len(),
        k < max,
        outcomes[k] is Some,
        forall|i: int| 0 <= i < k ==> outcomes[i] is None,
    ensures
        run_result(max, outcomes) == outcomes[k],
    decreases k,
{
    if k > 0 {
        lemma_first_stop((max - 1) as nat, outcomes.skip(1), k - 1);
    }
}

/// What holds of a run at every turn: each `KVM_RUN` is paid for, all vmexits
/// but the last were served, and a run that goes on has one in flight.
proof fn lemma_run(max: nat, turns: Seq<Turn>)
    requires
        is_run_trace(max, turns),
    ensures
        is_run_event(turns.last().area, turns.last().event),
        runs(turns) + turns.last().left == max,
        forall|i: int| 0 <= i < outcomes(turns).len() - 1 ==> outcomes(turns)[i] is None,
        !(turns.last().action is Finish) ==> {
            &&& served(turns) == outcomes(turns).len() == runs(turns) - 1
            &&& outcomes(turns).len() > 0 ==> outcomes(turns).last() is None
        },
        turns.last().action matches RunAction::Dispatch(req) ==> {
            &&& req.offset + req.data@.len() <= turns.last().area.len()
            &&& run_area_after(turns.last().area, turns.last().event) == turns.last().area
        },
        turns.last().action matches RunAction::Finish(exit, _) ==> {
            &&& outcomes(turns).len() == runs(turns)
            &&& exit == VmExit::InstructionLimit ==> {
                &&& served(turns) == outcomes(turns).len() == max
                &&& outcomes(turns).len() > 0 ==> outcomes(turns).last() is None
            }
            &&& exit != VmExit::InstructionLimit ==> {
                &&& served(turns) + 1 == outcomes(turns).len()
                &&& outcomes(turns).last() == Some(exit)
            }
        },
    decreases turns.len(),
{
    let before = turns.drop_last();
    let last = turns.last();
    if turns.len() == 1 {
        assert(outcomes(before) == Seq::<Option<VmExit>>::empty());
        assert(runs(before) == 0 && served(before) == 0);
    } else {
        assert forall|i: int| 0 < i < before.len() implies {
            &&& follows(before[i - 1], #[trigger] before[i])
            &&& is_run_step(
                before[i - 1].left,
                before[i].area,
                before[i].event,
                before[i].left,
                before[i].action,
            )
        } by {
            assert(before[i] == turns[i]);
        }
        lemma_run(max, before);
        assert(follows(before.last(), turns[turns.len() - 1]));
        let earlier = outcomes(before);
        match (last.event, last.action) {
            (RunEvent::Exited, RunAction::Dispatch(req)) => {
                law_requests_stay_in_the_area(last.area, req);
                assert(outcomes(turns) == earlier);
            },
            (RunEvent::Dispatched(_, true), _) => {
                assert(outcomes(turns) == earlier.push(None));
            },
            (_, RunAction::Finish(exit, _)) => {
                assert(outcomes(turns) == earlier.push(Some(exit)));
                assert(exit != VmExit::InstructionLimit);
            },
            _ => {},
        }
    }
}

/// A caller that does what it is told can always go on: every event of a run
/// can be handed to [`RunLoop::step`].
pub proof fn law_run_never_gets_stuck(max: nat, turns: Seq<Turn>)
    requires
        is_run_trace(max, turns),
    ensures
        is_run_event(turns.last().area, turns.last().event),
{
    lemma_run(max, turns);
}

/// Over a whole run, whatever the guest and the devices do, `KVM_RUN` is issued
/// exactly as often as the budget went down, so never more often than it
/// allows.
pub proof fn law_whole_run_stays_in_budget(max: nat, turns: Seq<Turn>)
    requires
        is_run_trace(max, turns),
    ensures
        runs(turns) + turns.last().left == max,
        runs(turns) <= max,
{
    lemma_run(max, turns);
}

/// A run that has ended ended with `InstructionLimit` exactly when it served as
/// many vmexits as its budget allowed; a run that goes on has served fewer.
pub proof fn law_limit_means_budget_served(max: nat, turns: Seq<Turn>)
    requires
        is_run_trace(max, turns),
    ensures
        turns.last().action matches RunAction::Finish(exit, _) ==> (exit
            == VmExit::InstructionLimit <==> served(turns) == max),
        !(turns.last().action is Finish) ==> served(turns) < max,
{
    lemma_run(max, turns);
}

/// What a run ends with is what its vmexits and its budget say: the exit of the
/// first vmexit that was not served, or the limit. It goes on exactly as long as
/// they say nothing.
pub proof fn law_vmexits_decide_the_run(max: nat, turns: Seq<Turn>)
    requires
        is_run_trace(max, turns),
    ensures
        run_result(max, outcomes(turns)) == match turns.last().action {
            RunAction::Finish(exit, _) => Some(exit),
            _ => None,
        },
{
    lemma_run(max, turns);
    let done = outcomes(turns);
    match turns.last().action {
        RunAction::Finish(exit, _) => {
            if exit == VmExit::InstructionLimit {
                lemma_all_served(max, done);
            } else {
                lemma_first_stop(max, done, done.len() - 1);
            }
        },
        _ => {
            lemma_all_served(max, done);
        },
    }
}

/// A dispatched access stays within the area it came from, whichever device
/// serves it, so its reply can always be put back.
pub proof fn law_requests_stay_in_the_area(run: Seq<u8>, req: IoRequest)
    requires
        is_run_area(run),
        is_exit_step(run, ExitStep::Dispatch(req)),
    ensures
        req.data@.len() <= MAX_ACCESS,
        req.offset + req.data@.len() <= run.len(),
{
}

/// Settling an access changes the payload of a read and nothing else: the
/// description of the vmexit around it, and whatever a guest wrote, stay.
pub proof fn law_replies_touch_only_the_payload(
    run: Seq<u8>,
    req: IoRequest,
    accepted: bool,
    i: int,
)
    requires
        is_run_event(run, RunEvent::Dispatched(req, accepted)),
        0 <= i < run.len(),
    ensures
        run_area_after(run, RunEvent::Dispatched(req, accepted)).len() == run.len(),
        run_area_after(run, RunEvent::Dispatched(req, accepted))[i] == if accepted && !req.is_write
            && req.offset <= i < req.offset + req.data@.len() {
            req.data@[i - req.offset]
        } else {
            run[i]
        },
{
}

} // verus!
