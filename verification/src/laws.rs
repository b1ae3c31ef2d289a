use vstd::prelude::*;
use crate::literal::array_literal;
use crate::pipeline::{aborted, begun, next, ActionView, ArgsView, EventView, StateView};
use crate::toolchain::{override_outcome, DiscoveryError, LLVMPathView};

verus! {

/// The actions that an invocation asks for when it starts in `state` and the
/// host reports `events`, one after the other.
pub open spec fn actions(state: StateView, events: Seq<EventView>) -> Seq<ActionView>
    decreases events.len(),
{
    if events.len() == 0 {
        Seq::empty()
    } else {
        let (following, action) = next(state, events[0]);
        seq![action] + actions(following, events.drop_first())
    }
}

/// Whether a tool is running in `state`.
pub open spec fn runs_tool(state: StateView) -> bool {
    state is Querying || state is Compiling || state is Stripping
}

/// One path override without the other is refused: the invocation aborts
/// with the diagnostic that names the missing override, and no toolchain is
/// looked for in its place.
pub proof fn lone_override_is_refused(
    clang: Option<Seq<char>>,
    objcopy: Option<Seq<char>>,
    args: ArgsView,
)
    requires
        (clang is Some) != (objcopy is Some),
    ensures
        override_outcome(clang, objcopy) == Err::<Option<LLVMPathView>, DiscoveryError>(
            if clang is Some {
                DiscoveryError::ObjcopyPathNotSet
            } else {
                DiscoveryError::ClangPathNotSet
            },
        ),
        override_outcome(clang, objcopy) matches Err(error) && begun(Err(error), args) == aborted(
            error.text(),
        ) && error.text().len() > 0,
{
    reveal_strlit("BINGEN_CLANG_PATH is not set");
    reveal_strlit("BINGEN_OBJCOPY_PATH is not set");
}

/// A tool that exits with anything but code zero ends the invocation with a
/// diagnostic that is not empty. This is how a target triple or an assembly
/// text that the compiler rejects comes back to the caller.
pub proof fn failing_tool_aborts(
    state: StateView,
    code: Option<i32>,
    stdout: Seq<u8>,
    stderr: Seq<u8>,
)
    requires
        runs_tool(state),
        code != Some(0i32),
    ensures
        next(state, EventView::Exited { code, stdout, stderr }).0 == StateView::Done,
        next(state, EventView::Exited { code, stdout, stderr }).1 matches ActionView::Abort {
            message,
        } && message.len() > 0,
{
    reveal_strlit(" returned ");
    reveal_strlit("exit code not set");
    reveal_strlit("Failed to get llvm path from brew: ");
}

/// Whatever ends an invocation early says why: the diagnostic of an abort is
/// never empty.
pub proof fn abort_has_diagnostic(state: StateView, event: EventView)
    ensures
        next(state, event).1 matches ActionView::Abort { message } ==> message.len() > 0,
{
    reveal_strlit(" returned ");
    reveal_strlit("exit code not set");
    reveal_strlit("Failed to get llvm path from brew: ");
    reveal_strlit("unexpected event");
    reveal_strlit(": ");
}

/// A result is emitted in one way only: the image was read, and the literal
/// stands for exactly the bytes read.
pub proof fn emit_renders_image(state: StateView, event: EventView)
    ensures
        next(state, event).1 matches ActionView::Emit { literal } ==> {
            &&& state is Reading
            &&& event matches EventView::Contents { bytes }
            &&& literal == array_literal(bytes)
        },
{
}

/// An invocation that is over stays over: every further event is answered
/// with an abort.
pub proof fn done_is_final(event: EventView)
    ensures
        next(StateView::Done, event) == aborted("unexpected event"@),
{
}

/// Once an invocation is over, nothing is emitted any more: every event is
/// answered with an abort.
pub proof fn nothing_after_done(events: Seq<EventView>)
    ensures
        actions(StateView::Done, events).len() == events.len(),
        forall|i: int| 0 <= i < events.len() ==> actions(StateView::Done, events)[i] is Abort,
    decreases events.len(),
{
    if events.len() > 0 {
        done_is_final(events[0]);
        nothing_after_done(events.drop_first());
    }
}

/// After a tool has failed no result is ever emitted, whatever the host
/// reports from then on: a failure is never passed over in silence.
pub proof fn no_result_after_failure(state: StateView, events: Seq<EventView>)
    requires
        runs_tool(state),
        events.len() > 0,
        events[0] matches EventView::Exited { code, .. } && code != Some(0i32),
    ensures
        actions(state, events).len() == events.len(),
        forall|i: int| 0 <= i < events.len() ==> actions(state, events)[i] is Abort,
{
    match events[0] {
        EventView::Exited { code, stdout, stderr } => {
            failing_tool_aborts(state, code, stdout, stderr);
        },
        _ => {},
    }
    nothing_after_done(events.drop_first());
}

} // verus!
