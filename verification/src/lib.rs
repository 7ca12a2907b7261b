//! A verified control-flow combinator for the "conditional borrow return"
//! pattern.
//!
//! A branch of code tentatively borrows some state; if it finds what it was
//! looking for it keeps a value tied to that borrow, and otherwise it
//! reports an owned value and expects the caller to get its exclusive
//! access back.  Default borrow analyses reject the direct phrasing of this
//! pattern, so the heart of the crate is [`polonius`]: it lends the state
//! to the branch, inspects the branch's [`PoloniusResult`], and on the
//! owned side replaces the [`Placeholder`] with the very borrow it was
//! lent.
//!
//! The [`loops`] module models the per-iteration dispatch of a loop built
//! on top of the combinator (return / dependent break / plain break /
//! continue), and the [`fallible`] module models `?`-style early return
//! through the combinator.

use vstd::prelude::*;

pub mod fallible;
pub mod loops;

pub use fallible::FnPtr;
pub use fallible::Never;
pub use fallible::Residual;
pub use fallible::Try;
pub use loops::Dependent;
pub use loops::LoopStep;
pub use loops::cannot_use__polonius_break_dependent__without_a_break_type_annotation_on__polonius_loop;
pub use loops::loop_dispatch;
pub use loops::polonius_loop_iteration;
pub use loops::polonius_loop_step;

verus! {

/// Zero-information marker standing in the `input_borrow` slot of a freshly
/// built [`PoloniusResult::Owned`].
///
/// The branch that builds the `Owned` variant does not hold the original
/// exclusive borrow (that is the very limitation this crate works around),
/// so it cannot populate the slot; [`polonius`] overwrites the placeholder
/// with the borrow on the way out.
pub struct Placeholder;

/// Outcome of a tentative branch, and of [`polonius`] itself.
///
/// Either some value is still `Borrowing` from the state that was lent to
/// the branch, or the branch is done with the state and reports an `Owned`
/// value, alongside a slot for the borrow being handed back: [`Placeholder`]
/// when the branch builds the result, the input borrow itself once
/// [`polonius`] returns it.
pub enum PoloniusResult<BorrowingOutput, OwnedOutput, InputBorrow = Placeholder> {
    /// The branch produced a value that still depends on the lent state;
    /// the combinator forwards it unchanged.
    Borrowing(BorrowingOutput),
    /// The branch produced a value independent of the lent state, and the
    /// exclusive borrow travels back to the caller in `input_borrow`.
    Owned { value: OwnedOutput, input_borrow: InputBorrow },
}

impl<BorrowingOutput, OwnedOutput> PoloniusResult<BorrowingOutput, OwnedOutput> {
    /// Tuple-variant-looking sugar to construct the [`Self::Owned`] variant
    /// with the [`Placeholder`] in the borrow slot.
    #[allow(nonstandard_style)]
    pub fn Owned(value: OwnedOutput) -> (r: Self)
        ensures
            r == (PoloniusResult::<BorrowingOutput, OwnedOutput>::Owned {
                value,
                input_borrow: Placeholder,
            }),
    {
        PoloniusResult::Owned { value, input_borrow: Placeholder }
    }
}

/// What [`polonius`] makes of a branch output: a `Borrowing` output is
/// forwarded verbatim, while an `Owned` output has its placeholder slot
/// replaced by the input borrow.
pub open spec fn combined<BorrowingOutput, OwnedOutput, InputBorrow>(
    branch_output: PoloniusResult<BorrowingOutput, OwnedOutput, Placeholder>,
    input_borrow: InputBorrow,
) -> PoloniusResult<BorrowingOutput, OwnedOutput, InputBorrow> {
    match branch_output {
        PoloniusResult::Borrowing(dependent) => PoloniusResult::Borrowing(dependent),
        PoloniusResult::Owned { value, input_borrow: _ } => PoloniusResult::Owned {
            value,
            input_borrow,
        },
    }
}

/// The value-level image of a combinator result whose borrow slot holds an
/// exclusive borrow: the `Owned` slot is read through the borrow as it
/// stands when the combinator returns.
pub open spec fn snapshot<'i, Input, BorrowingOutput, OwnedOutput>(
    r: PoloniusResult<BorrowingOutput, OwnedOutput, &'i mut Input>,
) -> PoloniusResult<BorrowingOutput, OwnedOutput, Input> {
    match r {
        PoloniusResult::Borrowing(dependent) => PoloniusResult::Borrowing(dependent),
        PoloniusResult::Owned { value, input_borrow } => PoloniusResult::Owned {
            value,
            input_borrow: *input_borrow,
        },
    }
}

/// The key stone of the crate.
///
/// `polonius` lends `input_borrow` to `branch` as a tentative reborrow.
/// If the branch answers `Borrowing(dependent)`, that value is returned
/// verbatim and the state stays behind it.  If the branch answers
/// `Owned { value, .. }`, the tentative reborrow is dropped and the caller
/// receives `Owned { value, input_borrow }`: the exact borrow it lent,
/// holding the state as the branch left it.
///
/// The postcondition names the tentative reborrow `tent` (`*tent` is the
/// state the branch received, `*final(tent)` the state it left behind) and
/// the branch's own answer `out`, and pins the result to
/// [`combined`]`(out, state-the-branch-left)`, with the final value of
/// `input_borrow` flowing through whichever side carries the state on.
pub fn polonius<'i, Input, OwnedOutput, BorrowingOutput, F>(
    input_borrow: &'i mut Input,
    branch: F,
) -> (r: PoloniusResult<BorrowingOutput, OwnedOutput, &'i mut Input>) where
    F: FnOnce(&mut Input) -> PoloniusResult<BorrowingOutput, OwnedOutput, Placeholder>,

    requires
        forall|i: &mut Input| *i == *old(input_borrow) ==> call_requires(branch, (i,)),
    ensures
        exists|tent: &'i mut Input, out: PoloniusResult<BorrowingOutput, OwnedOutput, Placeholder>|
            {
                &&& #[trigger] call_ensures(branch, (tent,), out)
                &&& *tent == *old(input_borrow)
                &&& snapshot(r) == combined(out, *final(tent))
                &&& match out {
                    PoloniusResult::Borrowing(_) => *final(input_borrow) == *final(tent),
                    PoloniusResult::Owned { .. } => r matches PoloniusResult::Owned {
                        value: _,
                        input_borrow: ib,
                    } && *final(input_borrow) == *final(ib),
                }
            },
{
    let tentative = &mut *input_borrow;
    match branch(tentative) {
        PoloniusResult::Borrowing(dependent) => PoloniusResult::Borrowing(dependent),
        PoloniusResult::Owned { value, input_borrow: Placeholder } => PoloniusResult::Owned {
            value,
            input_borrow,
        },
    }
}

/// The action the function enclosing a basic combinator block takes: an
/// early return with a dependent value, or ordinary continuation with the
/// owned value and the rebound borrow.
pub enum BlockStep<Return, Value, InputBorrow> {
    /// Return from the enclosing function with this value; the state stays
    /// behind it.
    ReturnValue(Return),
    /// Go on after the block: it evaluated to `value` and the state is
    /// rebound to `input_borrow`.
    Evaluated { value: Value, input_borrow: InputBorrow },
}

/// A whole basic block: lend the state to the branch through [`polonius`],
/// then either return early with the dependent value or rebind the borrow
/// and evaluate to the owned value.
///
/// A branch of a basic block never signals a loop break, so its
/// `Borrowing` side must carry [`Dependent::Return`]; the second
/// precondition says just that.
pub fn polonius_block<'i, Input, Return, Value, F>(
    input_borrow: &'i mut Input,
    branch: F,
) -> (step: BlockStep<Return, Value, &'i mut Input>) where
    F: FnOnce(&mut Input) -> PoloniusResult<Dependent<Return>, Value, Placeholder>,

    requires
        forall|i: &mut Input| *i == *old(input_borrow) ==> call_requires(branch, (i,)),
        forall|t: &mut Input, o: PoloniusResult<Dependent<Return>, Value, Placeholder>|
            #[trigger] call_ensures(branch, (t,), o) ==> (o matches PoloniusResult::Borrowing(d)
                ==> d is Return),
    ensures
        exists|tent: &'i mut Input, out: PoloniusResult<Dependent<Return>, Value, Placeholder>|
            {
                &&& #[trigger] call_ensures(branch, (tent,), out)
                &&& *tent == *old(input_borrow)
                &&& match out {
                    PoloniusResult::Borrowing(d) => d matches Dependent::Return(v) && step
                        == BlockStep::<Return, Value, &'i mut Input>::ReturnValue(v)
                        && *final(input_borrow) == *final(tent),
                    PoloniusResult::Owned { value, .. } => step matches BlockStep::Evaluated {
                        value: v2,
                        input_borrow: ib,
                    } && v2 == value && *ib == *final(tent) && *final(input_borrow) == *final(ib),
                }
            },
{
    match polonius(input_borrow, branch) {
        PoloniusResult::Borrowing(dependent) => BlockStep::ReturnValue(
            dependent.return_no_break(),
        ),
        PoloniusResult::Owned { value, input_borrow } => BlockStep::Evaluated {
            value,
            input_borrow,
        },
    }
}

/// Transparency, stated against the combinator itself: lending the state
/// to a branch every outcome of which is `Owned` with value `e`, leaving
/// the state as it found it, answers exactly
/// `Owned { value: e, input_borrow }` — the lent borrow comes back holding
/// the untouched state, and the caller's subsequent access goes through it
/// as if the tentative borrow had never been taken.
pub fn polonius_transparent<'i, Input, OwnedOutput, BorrowingOutput, F>(
    input_borrow: &'i mut Input,
    branch: F,
    Ghost(e): Ghost<OwnedOutput>,
) -> (r: PoloniusResult<BorrowingOutput, OwnedOutput, &'i mut Input>) where
    F: FnOnce(&mut Input) -> PoloniusResult<BorrowingOutput, OwnedOutput, Placeholder>,

    requires
        forall|i: &mut Input| *i == *old(input_borrow) ==> call_requires(branch, (i,)),
        forall|t: &mut Input, o: PoloniusResult<BorrowingOutput, OwnedOutput, Placeholder>|
            #[trigger] call_ensures(branch, (t,), o) ==> o == (PoloniusResult::<
                BorrowingOutput,
                OwnedOutput,
            >::Owned { value: e, input_borrow: Placeholder }) && *final(t) == *t,
    ensures
        r matches PoloniusResult::Owned { value, input_borrow: ib } && value == e && *ib == *old(
            input_borrow,
        ) && *final(input_borrow) == *final(ib),
{
    polonius(input_borrow, branch)
}

/// Dependent forwarding, stated against the combinator itself: lending the
/// state to a branch every outcome of which is `Borrowing` answers exactly
/// the dependent value some run of the branch produced on the lent state,
/// and the state behind it is the one that run left.
pub fn polonius_forwards_dependent<'i, Input, OwnedOutput, BorrowingOutput, F>(
    input_borrow: &'i mut Input,
    branch: F,
) -> (r: PoloniusResult<BorrowingOutput, OwnedOutput, &'i mut Input>) where
    F: FnOnce(&mut Input) -> PoloniusResult<BorrowingOutput, OwnedOutput, Placeholder>,

    requires
        forall|i: &mut Input| *i == *old(input_borrow) ==> call_requires(branch, (i,)),
        forall|t: &mut Input, o: PoloniusResult<BorrowingOutput, OwnedOutput, Placeholder>|
            #[trigger] call_ensures(branch, (t,), o) ==> o is Borrowing,
    ensures
        r matches PoloniusResult::Borrowing(d) && (exists|
            t: &'i mut Input,
            o: PoloniusResult<BorrowingOutput, OwnedOutput, Placeholder>,
        |
            {
                &&& #[trigger] call_ensures(branch, (t,), o)
                &&& *t == *old(input_borrow)
                &&& o == PoloniusResult::<BorrowingOutput, OwnedOutput>::Borrowing(d)
                &&& *final(input_borrow) == *final(t)
            }),
{
    polonius(input_borrow, branch)
}

/// Idempotence of re-binding, stated against the combinator itself: after
/// an `Owned` outcome from a branch that left the state as it found it,
/// the rebound borrow holds that same state, so invoking the combinator
/// again through it satisfies exactly the contract of a fresh call on the
/// borrow the caller lent first.
pub fn polonius_rebound_is_fresh<'i, Input, O1, B1, OwnedOutput, BorrowingOutput, F1, F2>(
    input_borrow: &'i mut Input,
    first: F1,
    second: F2,
    Ghost(e): Ghost<O1>,
) -> (r: PoloniusResult<BorrowingOutput, OwnedOutput, &'i mut Input>) where
    F1: FnOnce(&mut Input) -> PoloniusResult<B1, O1, Placeholder>,
    F2: FnOnce(&mut Input) -> PoloniusResult<BorrowingOutput, OwnedOutput, Placeholder>,

    requires
        forall|i: &mut Input| *i == *old(input_borrow) ==> call_requires(first, (i,)),
        forall|t: &mut Input, o: PoloniusResult<B1, O1, Placeholder>|
            #[trigger] call_ensures(first, (t,), o) ==> o == (PoloniusResult::<B1, O1>::Owned {
                value: e,
                input_borrow: Placeholder,
            }) && *final(t) == *t,
        forall|i: &mut Input| *i == *old(input_borrow) ==> call_requires(second, (i,)),
    ensures
        exists|tent: &'i mut Input, out: PoloniusResult<BorrowingOutput, OwnedOutput, Placeholder>|
            {
                &&& #[trigger] call_ensures(second, (tent,), out)
                &&& *tent == *old(input_borrow)
                &&& snapshot(r) == combined(out, *final(tent))
                &&& match out {
                    PoloniusResult::Borrowing(_) => *final(input_borrow) == *final(tent),
                    PoloniusResult::Owned { .. } => r matches PoloniusResult::Owned {
                        value: _,
                        input_borrow: ib,
                    } && *final(input_borrow) == *final(ib),
                }
            },
{
    match polonius_transparent(input_borrow, first, Ghost(e)) {
        PoloniusResult::Owned { value: _, input_borrow: rebound } => polonius(rebound, second),
        PoloniusResult::Borrowing(_) => unreached(),
    }
}

/// Transparency at the value level: when the branch's output is `Owned`
/// with value `e`, the combinator's answer is exactly
/// `Owned { value: e, input_borrow }` with the lent borrow in the slot.
pub proof fn lemma_transparency<BorrowingOutput, OwnedOutput, InputBorrow>(
    e: OwnedOutput,
    lent: InputBorrow,
)
    ensures
        combined::<BorrowingOutput, OwnedOutput, InputBorrow>(
            PoloniusResult::Owned { value: e, input_borrow: Placeholder },
            lent,
        ) == (PoloniusResult::<BorrowingOutput, OwnedOutput, InputBorrow>::Owned {
            value: e,
            input_borrow: lent,
        }),
{
}

/// Dependent forwarding: a `Borrowing` output travels through the
/// combinator unchanged; the lent borrow does not reappear in the result,
/// the state stays behind the forwarded value.
pub proof fn lemma_dependent_forwarding<BorrowingOutput, OwnedOutput, InputBorrow>(
    dependent: BorrowingOutput,
    lent: InputBorrow,
)
    ensures
        combined::<BorrowingOutput, OwnedOutput, InputBorrow>(
            PoloniusResult::Borrowing(dependent),
            lent,
        ) == PoloniusResult::<BorrowingOutput, OwnedOutput, InputBorrow>::Borrowing(dependent),
{
}

/// Idempotence of re-binding: after an `Owned` outcome the slot holds the
/// very borrow that was lent, so combining a second branch output with the
/// rebound borrow is the same as combining it with the original one — a
/// re-invocation of the combinator is equivalent to a fresh call.
pub proof fn lemma_rebinding_idempotent<BorrowingOutput, OwnedOutput, InputBorrow, B2, O2>(
    e: OwnedOutput,
    lent: InputBorrow,
    second: PoloniusResult<B2, O2, Placeholder>,
)
    ensures
        combined(
            second,
            combined::<BorrowingOutput, OwnedOutput, InputBorrow>(
                PoloniusResult::Owned { value: e, input_borrow: Placeholder },
                lent,
            )->input_borrow,
        ) == combined(second, lent),
{
}

} // verus!
