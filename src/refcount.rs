//! The reference-counting discipline of shared native handles.
//!
//! Captures and images are handles whose native objects keep a reference
//! count: `k4a_*_reference` adds one, `k4a_*_release` removes one, and the
//! object is freed when the count reaches zero. Every wrapper of such a
//! handle holds exactly one reference. `ref_steps` says which native calls,
//! in which order, each operation on a wrapper makes; the proofs below show
//! that, so made, the count never falls below the number of live wrappers
//! and no object is freed while a wrapper still refers to it.

use vstd::prelude::*;

verus! {

/// One native call on a shared handle's reference count.
#[derive(Clone, Copy, Debug, PartialEq, Eq, Structural)]
pub enum RefStep {
    /// Add a reference to the handle of the wrapper that is copied from.
    ReferenceSource,
    /// Drop the reference that the wrapper acted upon held.
    ReleaseOwn,
}

/// An operation on a wrapper of a shared handle.
#[derive(Clone, Copy, Debug, PartialEq, Eq, Structural)]
pub enum WrapperOp {
    /// A new wrapper is made as a copy of an existing one (`clone`).
    Duplicate,
    /// A wrapper is dropped.
    Destroy,
    /// A wrapper is overwritten with a copy of another (`clone_from`).
    Assign,
}

/// The native calls that an operation makes, in order.
pub open spec fn spec_ref_steps(op: WrapperOp) -> Seq<RefStep> {
    match op {
        WrapperOp::Duplicate => seq![RefStep::ReferenceSource],
        WrapperOp::Destroy => seq![RefStep::ReleaseOwn],
        WrapperOp::Assign => seq![RefStep::ReferenceSource, RefStep::ReleaseOwn],
    }
}

/// The native calls that an operation on a wrapper makes, in order. An
/// assignment takes its new reference before it drops its old one, so that
/// assigning a wrapper a copy of a wrapper of the same handle never lets
/// that handle's count reach zero.
pub fn ref_steps(op: WrapperOp) -> (r: Vec<RefStep>)
    ensures
        r@ == spec_ref_steps(op),
{
    let mut r: Vec<RefStep> = Vec::new();
    match op {
        WrapperOp::Duplicate => {
            r.push(RefStep::ReferenceSource);
        },
        WrapperOp::Destroy => {
            r.push(RefStep::ReleaseOwn);
        },
        WrapperOp::Assign => {
            r.push(RefStep::ReferenceSource);
            r.push(RefStep::ReleaseOwn);
        },
    }
    r
}

/// How one call changes the count of a handle `h`: `own_is_h` says that the
/// wrapper acted upon held `h`, `source_is_h` that the wrapper copied from
/// holds `h`.
pub open spec fn step_delta(step: RefStep, own_is_h: bool, source_is_h: bool) -> int {
    match step {
        RefStep::ReferenceSource => if source_is_h { 1 } else { 0 },
        RefStep::ReleaseOwn => if own_is_h { -1 } else { 0 },
    }
}

/// The count of `h` after the calls, from `count`.
pub open spec fn count_after(count: int, steps: Seq<RefStep>, own_is_h: bool, source_is_h: bool) -> int
    decreases steps.len(),
{
    if steps.len() == 0 {
        count
    } else {
        count_after(
            count + step_delta(steps[0], own_is_h, source_is_h),
            steps.drop_first(),
            own_is_h,
            source_is_h,
        )
    }
}

/// The count of `h` is positive before each call and after the last: the
/// native object stays alive all through the calls.
pub open spec fn stays_alive(count: int, steps: Seq<RefStep>, own_is_h: bool, source_is_h: bool) -> bool
    decreases steps.len(),
{
    &&& count >= 1
    &&& steps.len() > 0 ==> stays_alive(
        count + step_delta(steps[0], own_is_h, source_is_h),
        steps.drop_first(),
        own_is_h,
        source_is_h,
    )
}

/// The number of live wrappers of `h` after an operation, from `live`.
pub open spec fn live_after(op: WrapperOp, live: int, own_is_h: bool, source_is_h: bool) -> int {
    match op {
        WrapperOp::Duplicate => live + if source_is_h { 1int } else { 0int },
        WrapperOp::Destroy => live - if own_is_h { 1int } else { 0int },
        WrapperOp::Assign => live + (if source_is_h { 1int } else { 0int }) - (if own_is_h {
            1int
        } else {
            0int
        }),
    }
}

/// What holds of a handle `h` before an operation: it has `live` wrappers and
/// at least as many native references, and a wrapper that the operation
/// reads is one of them.
pub open spec fn op_ready(count: int, live: int, own_is_h: bool, source_is_h: bool) -> bool {
    &&& 0 <= live <= count
    &&& own_is_h ==> live >= 1
    &&& source_is_h ==> live >= 1
}

/// Any operation on a wrapper, made with the calls of `ref_steps`, keeps the
/// native count of every handle at least the number of its live wrappers,
/// and never frees the object of a handle that some wrapper still holds
/// afterwards.
pub proof fn lemma_wrapper_op_keeps_handles_alive(
    op: WrapperOp,
    count: int,
    live: int,
    own_is_h: bool,
    source_is_h: bool,
)
    requires
        op_ready(count, live, own_is_h, source_is_h),
    ensures
        count_after(count, spec_ref_steps(op), own_is_h, source_is_h) >= live_after(
            op,
            live,
            own_is_h,
            source_is_h,
        ),
        live_after(op, live, own_is_h, source_is_h) >= 1 ==> stays_alive(
            count,
            spec_ref_steps(op),
            own_is_h,
            source_is_h,
        ),
{
    let steps = spec_ref_steps(op);
    reveal_with_fuel(count_after, 3);
    reveal_with_fuel(stays_alive, 3);
    if steps.len() == 2 {
        assert(steps.drop_first() =~= seq![RefStep::ReleaseOwn]);
        assert(steps.drop_first().drop_first() =~= Seq::<RefStep>::empty());
    } else {
        assert(steps.drop_first() =~= Seq::<RefStep>::empty());
    }
}

/// Duplicating a wrapper of a handle and then destroying one of the two
/// duplicates leaves the count and the number of live wrappers as they were,
/// and the object alive all through, so that the other duplicate stays
/// usable.
pub proof fn lemma_duplicate_then_destroy(count: int, live: int)
    requires
        1 <= live <= count,
    ensures
        count_after(count, spec_ref_steps(WrapperOp::Duplicate), false, true) >= live + 1,
        stays_alive(count, spec_ref_steps(WrapperOp::Duplicate), false, true),
        count_after(
            count_after(count, spec_ref_steps(WrapperOp::Duplicate), false, true),
            spec_ref_steps(WrapperOp::Destroy),
            true,
            false,
        ) == count,
        stays_alive(
            count_after(count, spec_ref_steps(WrapperOp::Duplicate), false, true),
            spec_ref_steps(WrapperOp::Destroy),
            true,
            false,
        ),
        live_after(WrapperOp::Destroy, live_after(WrapperOp::Duplicate, live, false, true), true, false)
            == live,
{
    lemma_wrapper_op_keeps_handles_alive(WrapperOp::Duplicate, count, live, false, true);
    let c1 = count_after(count, spec_ref_steps(WrapperOp::Duplicate), false, true);
    lemma_wrapper_op_keeps_handles_alive(WrapperOp::Destroy, c1, live + 1, true, false);
    reveal_with_fuel(count_after, 2);
    assert(spec_ref_steps(WrapperOp::Duplicate).drop_first() =~= Seq::<RefStep>::empty());
    assert(spec_ref_steps(WrapperOp::Destroy).drop_first() =~= Seq::<RefStep>::empty());
}

} // verus!
