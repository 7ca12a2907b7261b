//! Per-iteration dispatch for a loop built on the combinator.
//!
//! Each iteration lends the state to a branch whose `Borrowing` side
//! carries a two-case [`Dependent`] tag (return from the enclosing
//! function, or break out of the loop with a value still tied to the
//! state) and whose `Owned` side carries a `ControlFlow` tag (break out of
//! the loop with an independent value, or continue).  [`polonius_loop_step`]
//! turns the combinator's outcome into the action the enclosing loop takes.

use crate::Placeholder;
use crate::PoloniusResult;
use crate::combined;
use core::ops::ControlFlow;
use vstd::prelude::*;

verus! {

/// Deliberately self-describing marker that shows up in diagnostics when a
/// dependent break is attempted without declaring the loop's break type.
///
/// Conceptually this type is uninhabited — it only exists to be named in an
/// error message.  A datatype needs a variant here, but nothing in this
/// crate ever constructs one, and every contract that meets the type
/// requires it absent.
#[allow(nonstandard_style)]
pub enum cannot_use__polonius_break_dependent__without_a_break_type_annotation_on__polonius_loop {
    AnnotationMissing,
}

/// Inner tag of the `Borrowing` side of a loop iteration: a dependent
/// value either returns from the enclosing function or breaks out of the
/// loop.
///
/// Without a declared break type, `Break` carries the
/// [error-only marker][cannot_use__polonius_break_dependent__without_a_break_type_annotation_on__polonius_loop]
/// and cannot legitimately occur.
pub enum Dependent<
    Return,
    Break = cannot_use__polonius_break_dependent__without_a_break_type_annotation_on__polonius_loop,
> {
    Return(Return),
    Break(Break),
}

impl<T> Dependent<T> {
    /// Extracts the `Return` value of a loop that declared no break type:
    /// its `Break` case would carry the error-only marker, which never
    /// legitimately exists, so the precondition rules it out.
    pub fn return_no_break(self) -> (r: T)
        requires
            self is Return,
        ensures
            self matches Dependent::Return(v) && r == v,
    {
        match self {
            Dependent::Return(it) => it,
            Dependent::Break(_) => unreached(),
        }
    }
}

/// The action an enclosing loop takes after one iteration's combinator
/// outcome has been dispatched.
///
/// The borrow slot reappears exactly in the two cases whose break-out value
/// is independent of the state: a plain break keeps the state usable, and a
/// continue rebinds it for the next iteration.
pub enum LoopStep<Return, DependentBreak, Break, InputBorrow> {
    /// Return from the function enclosing the loop with this value.
    ReturnValue(Return),
    /// Break out of the loop with a value still tied to the state; the
    /// state is consumed and no borrow comes back.
    BreakDependent(DependentBreak),
    /// Break out of the loop with an independent value; the borrow comes
    /// back and the state stays usable.
    BreakValue { value: Break, input_borrow: InputBorrow },
    /// Run the next iteration with the state rebound to this borrow.
    NextIteration { input_borrow: InputBorrow },
}

/// The dispatch table of the loop: which [`LoopStep`] each combinator
/// outcome maps to.
pub open spec fn loop_dispatch<Return, DependentBreak, Break, InputBorrow>(
    outcome: PoloniusResult<
        Dependent<Return, DependentBreak>,
        ControlFlow<Break, ()>,
        InputBorrow,
    >,
) -> LoopStep<Return, DependentBreak, Break, InputBorrow> {
    match outcome {
        PoloniusResult::Borrowing(Dependent::Return(v)) => LoopStep::ReturnValue(v),
        PoloniusResult::Borrowing(Dependent::Break(v)) => LoopStep::BreakDependent(v),
        PoloniusResult::Owned { value: ControlFlow::Break(e), input_borrow } => LoopStep::BreakValue {
            value: e,
            input_borrow,
        },
        PoloniusResult::Owned { value: ControlFlow::Continue(_), input_borrow } => LoopStep::NextIteration {
            input_borrow,
        },
    }
}

/// Dispatches one loop iteration's combinator outcome to the action the
/// enclosing loop takes, exactly as [`loop_dispatch`] says.
pub fn polonius_loop_step<Return, DependentBreak, Break, InputBorrow>(
    outcome: PoloniusResult<
        Dependent<Return, DependentBreak>,
        ControlFlow<Break, ()>,
        InputBorrow,
    >,
) -> (step: LoopStep<Return, DependentBreak, Break, InputBorrow>)
    ensures
        step == loop_dispatch(outcome),
{
    match outcome {
        PoloniusResult::Borrowing(Dependent::Return(v)) => LoopStep::ReturnValue(v),
        PoloniusResult::Borrowing(Dependent::Break(v)) => LoopStep::BreakDependent(v),
        PoloniusResult::Owned { value: ControlFlow::Break(e), input_borrow } => LoopStep::BreakValue {
            value: e,
            input_borrow,
        },
        PoloniusResult::Owned { value: ControlFlow::Continue(()), input_borrow } => LoopStep::NextIteration {
            input_borrow,
        },
    }
}

/// The value-level image of a loop step whose borrow slot holds an
/// exclusive borrow: the slot is read through the borrow as it stands when
/// the step is taken.
pub open spec fn loop_step_snapshot<'i, Input, Return, DependentBreak, Break>(
    step: LoopStep<Return, DependentBreak, Break, &'i mut Input>,
) -> LoopStep<Return, DependentBreak, Break, Input> {
    match step {
        LoopStep::ReturnValue(v) => LoopStep::ReturnValue(v),
        LoopStep::BreakDependent(v) => LoopStep::BreakDependent(v),
        LoopStep::BreakValue { value, input_borrow } => LoopStep::BreakValue {
            value,
            input_borrow: *input_borrow,
        },
        LoopStep::NextIteration { input_borrow } => LoopStep::NextIteration {
            input_borrow: *input_borrow,
        },
    }
}

/// One whole iteration of the loop: lend the state to the branch through
/// [`crate::polonius`], then dispatch the outcome.
///
/// The postcondition pins every row of the dispatch table: a continue
/// signal rebinds the lent borrow for the next iteration, a plain break
/// hands it back beside the break value, and a return or dependent break
/// consumes it, the final state flowing through whichever borrow carries
/// it on.
pub fn polonius_loop_iteration<'i, Input, Return, DependentBreak, Break, F>(
    input_borrow: &'i mut Input,
    branch: F,
) -> (step: LoopStep<Return, DependentBreak, Break, &'i mut Input>) where
    F: FnOnce(&mut Input) -> PoloniusResult<
        Dependent<Return, DependentBreak>,
        ControlFlow<Break, ()>,
        Placeholder,
    >,

    requires
        forall|i: &mut Input| *i == *old(input_borrow) ==> call_requires(branch, (i,)),
    ensures
        exists|
            tent: &'i mut Input,
            out: PoloniusResult<Dependent<Return, DependentBreak>, ControlFlow<Break, ()>, Placeholder>,
        |
            {
                &&& #[trigger] call_ensures(branch, (tent,), out)
                &&& *tent == *old(input_borrow)
                &&& loop_step_snapshot(step) == loop_dispatch(combined(out, *final(tent)))
                &&& match step {
                    LoopStep::BreakValue { value: _, input_borrow: ib } => *final(input_borrow)
                        == *final(ib),
                    LoopStep::NextIteration { input_borrow: ib } => *final(input_borrow)
                        == *final(ib),
                    _ => *final(input_borrow) == *final(tent),
                }
            },
{
    let outcome = crate::polonius(input_borrow, branch);
    polonius_loop_step(outcome)
}

/// Loop restoration: a branch that signals continue leaves the next
/// iteration with the state rebound to the very borrow the combinator was
/// lent.
pub proof fn lemma_loop_restoration<Return, DependentBreak, Break, InputBorrow>(
    lent: InputBorrow,
)
    ensures
        loop_dispatch::<Return, DependentBreak, Break, InputBorrow>(
            combined(
                PoloniusResult::Owned {
                    value: ControlFlow::Continue(()),
                    input_borrow: Placeholder,
                },
                lent,
            ),
        ) == (LoopStep::<Return, DependentBreak, Break, InputBorrow>::NextIteration {
            input_borrow: lent,
        }),
{
}

/// Break discrimination: an independent break hands the outer scope its
/// value together with the still-usable borrow, while a dependent break
/// hands it only the value tied to the now-consumed state.
pub proof fn lemma_break_discrimination<Return, DependentBreak, Break, InputBorrow>(
    e: Break,
    v: DependentBreak,
    lent: InputBorrow,
)
    ensures
        loop_dispatch::<Return, DependentBreak, Break, InputBorrow>(
            combined(
                PoloniusResult::Owned { value: ControlFlow::Break(e), input_borrow: Placeholder },
                lent,
            ),
        ) == (LoopStep::<Return, DependentBreak, Break, InputBorrow>::BreakValue {
            value: e,
            input_borrow: lent,
        }),
        loop_dispatch::<Return, DependentBreak, Break, InputBorrow>(
            combined(PoloniusResult::Borrowing(Dependent::Break(v)), lent),
        ) == LoopStep::<Return, DependentBreak, Break, InputBorrow>::BreakDependent(v),
{
}

} // verus!
