//! What the run loop does, in terms of the bytes of the `kvm_run` area and of
//! what it answers.

use vstd::prelude::*;

#[allow(unused_imports)]
use crate::kvm::runloop::{
    check_run_area, classify_exit, complete, run_failed, ExitNote, ExitStep, IoRequest, RunAction,
    RunEvent, RunLoop,
};
#[allow(unused_imports)]
use crate::le::{law_eight_bytes, law_four_bytes, law_two_bytes};
#[allow(unused_imports)]
use crate::vmexit::{ExceptionCode, VmExit};

verus! {

/// A memory access of the guest that a device has to serve (exit reason 6, at
/// byte 8) reaches the device model whole: the address is the number at byte 32,
/// the length the number at byte 48, the direction byte 52, and the data are
/// that many bytes from byte 40 on, one for one. Only an access of more than 8
/// bytes ends the run instead.
pub proof fn law_mmio_access_is_handed_over_whole(run: &[u8], step: ExitStep)
    requires
        run@.len() >= 53,
        run@[8] == 6 && run@[9] == 0 && run@[10] == 0 && run@[11] == 0,
        call_ensures(classify_exit, (run,), step),
    ensures
        ({
            let s = run@;
            let len = s[48] + 0x100 * s[49] + 0x1_0000 * s[50] + 0x100_0000 * s[51];
            if len > 8 {
                step == ExitStep::Stop(
                    VmExit::UnhandledException((ExceptionCode::InternalError, 1)),
                    ExitNote::Nothing,
                )
            } else {
                &&& step matches ExitStep::Dispatch(req)
                &&& !req.port_io
                &&& req.addr == s[32] + 0x100 * s[33] + 0x1_0000 * s[34] + 0x100_0000 * s[35]
                    + 0x1_0000_0000 * s[36] + 0x100_0000_0000 * s[37] + 0x1_0000_0000_0000 * s[38]
                    + 0x100_0000_0000_0000 * s[39]
                &&& req.is_write == (s[52] != 0)
                &&& req.offset == 40
                &&& req.data@.len() == len
                &&& forall|i: int| 0 <= i < len ==> #[trigger] req.data@[i] == s[40 + i]
            }
        }),
{
    law_four_bytes(run@, 8);
    law_four_bytes(run@, 48);
    law_eight_bytes(run@, 32);
}

/// A port access of the guest (exit reason 2) reaches the device model whole:
/// byte 32 is the direction, byte 33 the size, bytes 34 and 35 the port, and the
/// data are that many bytes from where the number at byte 40 says, one for one.
/// Only an access of more than 8 bytes ends the run instead.
pub proof fn law_port_access_is_handed_over_whole(run: &[u8], step: ExitStep)
    requires
        run@.len() >= 53,
        run@[8] == 2 && run@[9] == 0 && run@[10] == 0 && run@[11] == 0,
        run@[33] <= 8 ==> run@[40] + 0x100 * run@[41] + 0x1_0000 * run@[42] + 0x100_0000 * run@[43]
            + 0x1_0000_0000 * run@[44] + 0x100_0000_0000 * run@[45] + 0x1_0000_0000_0000 * run@[46]
            + 0x100_0000_0000_0000 * run@[47] + run@[33] <= run@.len(),
        call_ensures(classify_exit, (run,), step),
    ensures
        ({
            let s = run@;
            let size = s[33];
            let off = s[40] + 0x100 * s[41] + 0x1_0000 * s[42] + 0x100_0000 * s[43] + 0x1_0000_0000
                * s[44] + 0x100_0000_0000 * s[45] + 0x1_0000_0000_0000 * s[46]
                + 0x100_0000_0000_0000 * s[47];
            if size > 8 {
                step == ExitStep::Stop(
                    VmExit::UnhandledException((ExceptionCode::InternalError, 3)),
                    ExitNote::Nothing,
                )
            } else {
                &&& step matches ExitStep::Dispatch(req)
                &&& req.port_io
                &&& req.addr == s[34] + 0x100 * s[35]
                &&& req.is_write == (s[32] != 0)
                &&& req.offset == off
                &&& req.data@.len() == size
                &&& forall|i: int| 0 <= i < size ==> #[trigger] req.data@[i] == s[off + i]
            }
        }),
{
    law_four_bytes(run@, 8);
    law_two_bytes(run@, 34);
    law_eight_bytes(run@, 40);
}

/// Every other vmexit ends the run, each in its own way: a halt (5), an
/// interruption (4), a triple fault (8, with the registers fetched), and any
/// reason that the engine does not know, which is reported and named.
pub proof fn law_other_vmexits_end_the_run(run: &[u8], step: ExitStep)
    requires
        run@.len() >= 53,
        call_ensures(classify_exit, (run,), step),
    ensures
        ({
            let s = run@;
            let reason = s[8] + 0x100 * s[9] + 0x1_0000 * s[10] + 0x100_0000 * s[11];
            &&& reason == 5 ==> step == ExitStep::Stop(VmExit::Halt, ExitNote::Nothing)
            &&& reason == 4 ==> step == ExitStep::Stop(VmExit::Interrupted, ExitNote::Nothing)
            &&& reason == 8 ==> step == ExitStep::Stop(
                VmExit::UnhandledException((ExceptionCode::Halt, 0xDEAD)),
                ExitNote::FetchRegisters,
            )
            &&& reason != 2 && reason != 4 && reason != 5 && reason != 6 && reason != 8 ==> {
                &&& step matches ExitStep::Stop(exit, note)
                &&& exit matches VmExit::UnhandledException((code, value))
                &&& code == ExceptionCode::InternalError
                &&& value == reason
                &&& note matches ExitNote::UnknownReason(named)
                &&& named == reason
            }
        }),
{
    law_four_bytes(run@, 8);
}

/// An area can be worked on exactly if it holds all the fields, 53 bytes, and
/// the data of a port access of up to 8 bytes lie inside it.
pub proof fn law_usable_areas(run: &[u8], ok: bool)
    requires
        call_ensures(check_run_area, (run,), ok),
    ensures
        run@.len() < 53 ==> !ok,
        run@.len() >= 53 ==> ({
            let s = run@;
            let port_access = s[8] == 2 && s[9] == 0 && s[10] == 0 && s[11] == 0 && s[33] <= 8;
            let off = s[40] + 0x100 * s[41] + 0x1_0000 * s[42] + 0x100_0000 * s[43] + 0x1_0000_0000
                * s[44] + 0x100_0000_0000 * s[45] + 0x1_0000_0000_0000 * s[46]
                + 0x100_0000_0000_0000 * s[47];
            ok == (port_access ==> off + s[33] <= s.len())
        }),
{
    if run@.len() >= 53 {
        law_four_bytes(run@, 8);
        law_eight_bytes(run@, 40);
    }
}

/// What a device answers to a read is what the guest gets, byte for byte, and
/// nothing else of the area changes; a write, and an access that the device
/// refused, change nothing. The run goes on exactly if the device took the
/// access, and a refusal says of which kind it was.
pub proof fn law_devices_answer_the_guest(
    run: &mut [u8],
    req: &IoRequest,
    accepted: bool,
    exit: Option<VmExit>,
    i: int,
)
    requires
        req.offset + req.data@.len() <= old(run)@.len(),
        call_ensures(complete, (run, req, accepted), exit),
        0 <= i < old(run)@.len(),
    ensures
        final(run)@.len() == old(run)@.len(),
        final(run)@[i] == if accepted && !req.is_write && req.offset <= i < req.offset
            + req.data@.len() {
            req.data@[i - req.offset]
        } else {
            old(run)@[i]
        },
        accepted ==> exit is None,
        !accepted && !req.port_io ==> exit == Some(
            VmExit::UnhandledException((ExceptionCode::InternalError, 2)),
        ),
        !accepted && req.port_io ==> exit == Some(
            VmExit::UnhandledException((ExceptionCode::InternalError, 4)),
        ),
{
}

/// A failed `KVM_RUN` reports the OS error as it is, sign-extended to 64 bits,
/// and 0 where there is none.
pub proof fn law_failed_runs_report_the_os_error(code: Option<i32>, exit: VmExit)
    requires
        call_ensures(run_failed, (code,), exit),
    ensures
        exit matches VmExit::UnhandledException((kind, value)) && kind
            == ExceptionCode::InternalError && (code is None ==> value == 0) && (code is Some
            && code->0 >= 0 ==> value == code->0) && (code is Some && code->0 < 0 ==> value
            == 0x1_0000_0000_0000_0000 + code->0),
{
}

/// A turn that goes on issues `KVM_RUN` as long as there is budget, at a cost of
/// one, and ends with `InstructionLimit` when there is none: so at the start,
/// and after an access that a device took. Neither touches more than the budget,
/// but for a reply to a read.
pub proof fn law_the_loop_goes_on_within_its_budget(
    lap: &mut RunLoop,
    run: &mut [u8],
    event: RunEvent,
    action: RunAction,
)
    requires
        call_ensures(RunLoop::step, (lap, run, event), action),
        event is Start || (event matches RunEvent::Dispatched(_, accepted) && accepted),
    ensures
        old(lap).left == 0 ==> final(lap).left == 0 && action == RunAction::Finish(
            VmExit::InstructionLimit,
            ExitNote::Nothing,
        ),
        old(lap).left > 0 ==> final(lap).left == old(lap).left - 1 && action is Run,
        event is Start ==> final(run)@ == old(run)@,
{
}

/// A turn that handles an answer of a device changes the area as that answer
/// says, and one that the device refused ends the run without using the budget.
pub proof fn law_the_loop_takes_the_answer_of_a_device(
    lap: &mut RunLoop,
    run: &mut [u8],
    req: IoRequest,
    accepted: bool,
    action: RunAction,
    i: int,
)
    requires
        req.offset + req.data@.len() <= old(run)@.len(),
        call_ensures(RunLoop::step, (lap, run, RunEvent::Dispatched(req, accepted)), action),
        0 <= i < old(run)@.len(),
    ensures
        final(run)@.len() == old(run)@.len(),
        final(run)@[i] == if accepted && !req.is_write && req.offset <= i < req.offset
            + req.data@.len() {
            req.data@[i - req.offset]
        } else {
            old(run)@[i]
        },
        !accepted ==> final(lap).left == old(lap).left && action == RunAction::Finish(
            VmExit::UnhandledException(
                (
                    ExceptionCode::InternalError,
                    if req.port_io {
                        4
                    } else {
                        2
                    },
                ),
            ),
            ExitNote::Nothing,
        ),
{
}

/// A turn that handles a vmexit does what the description in the area asks for,
/// hands the very access over that it describes, and leaves area and budget as
/// they are.
pub proof fn law_the_loop_does_what_a_vmexit_asks(
    lap: &mut RunLoop,
    run: &mut [u8],
    action: RunAction,
    area: &[u8],
    step: ExitStep,
)
    requires
        call_ensures(RunLoop::step, (lap, run, RunEvent::Exited), action),
        area@ == old(run)@,
        call_ensures(classify_exit, (area,), step),
    ensures
        final(run)@ == old(run)@,
        final(lap).left == old(lap).left,
        match step {
            ExitStep::Stop(exit, note) => action == RunAction::Finish(exit, note),
            ExitStep::Dispatch(asked) => {
                &&& action matches RunAction::Dispatch(req)
                &&& req.port_io == asked.port_io
                &&& req.addr == asked.addr
                &&& req.is_write == asked.is_write
                &&& req.offset == asked.offset
                &&& req.data@ == asked.data@
            },
        },
{
}

/// A turn that handles a failed `KVM_RUN` ends the run with what the failure
/// reports, and leaves area and budget as they are.
pub proof fn law_the_loop_ends_when_a_run_fails(
    lap: &mut RunLoop,
    run: &mut [u8],
    code: Option<i32>,
    action: RunAction,
    exit: VmExit,
)
    requires
        call_ensures(RunLoop::step, (lap, run, RunEvent::RunFailed(code)), action),
        call_ensures(run_failed, (code,), exit),
    ensures
        action == RunAction::Finish(exit, ExitNote::Nothing),
        final(run)@ == old(run)@,
        final(lap).left == old(lap).left,
{
}

/// A run may service as many vmexits as it is given, and is asked one by one.
pub proof fn law_the_budget_is_what_was_given(
    max_iters: u64,
    fresh: RunLoop,
    lap: &mut RunLoop,
    exit: Option<VmExit>,
)
    requires
        call_ensures(RunLoop::new, (max_iters,), fresh),
        call_ensures(RunLoop::begin, (lap,), exit),
    ensures
        fresh.left == max_iters,
        old(lap).left == 0 ==> exit == Some(VmExit::InstructionLimit) && final(lap).left == 0,
        old(lap).left > 0 ==> exit is None && final(lap).left == old(lap).left - 1,
{
}

} // verus!
