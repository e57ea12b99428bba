//! The counter state machine: the record, the account slot that holds it, and
//! the two transitions, Init and Increment.
//!
//! The host resolves the accounts an operation runs against — the slot at the
//! derived address, and for Init a funding caller whose signature it has
//! verified — and dispatches each operation as an atomic unit. The transition
//! logic here is host-independent: it checks every precondition itself
//! and either applies the whole effect or reports an error and changes
//! nothing.

use vstd::prelude::*;

use crate::errors::CounterError;

verus! {

/// The sole persistent entity: a single unsigned 64-bit counter.
#[derive(Clone, Copy, Debug, PartialEq, Eq, Structural)]
pub struct GlobalCounter {
    pub count: u64,
}

impl GlobalCounter {
    /// The record as Init writes it: the count starts at zero.
    pub fn new() -> (r: GlobalCounter)
        ensures
            r.count == 0,
    {
        GlobalCounter { count: 0 }
    }

    /// The record after one Increment, or `ArithmeticOverflow` when the count
    /// is already at the largest representable value. The arithmetic is
    /// checked, never wrapping: silent wraparound would break monotonicity.
    pub fn incremented(&self) -> (r: Result<GlobalCounter, CounterError>)
        ensures
            self.count < u64::MAX ==> r == Ok::<GlobalCounter, CounterError>(
                (GlobalCounter { count: (self.count + 1) as u64 }),
            ),
            self.count == u64::MAX ==> r == Err::<GlobalCounter, CounterError>(
                CounterError::ArithmeticOverflow,
            ),
    {
        if self.count < u64::MAX {
            Ok(GlobalCounter { count: self.count + 1 })
        } else {
            Err(CounterError::ArithmeticOverflow)
        }
    }
}

/// A storage slot keyed by its 32-byte address: the location the host
/// resolved for an operation, holding a record once one was allocated there.
#[derive(Clone, Copy, Debug, PartialEq, Eq)]
pub struct AccountSlot {
    /// The derived address the slot lives at.
    pub address: [u8; 32],
    /// The record allocated at the address, if any.
    pub record: Option<GlobalCounter>,
}

/// The caller who initializes the counter: the host has already verified its
/// signature; what the transition still checks is that it can fund the
/// record's storage allocation.
#[derive(Clone, Copy, Debug, PartialEq, Eq)]
pub struct Payer {
    /// What the caller can spend on the allocation.
    pub funds: u64,
}

/// The accounts Init runs against, as the host hands them over: the slot at
/// the derived address, the funding caller, and what the host charges for
/// allocating the fixed-size record.
#[derive(Clone, Copy, Debug, PartialEq, Eq)]
pub struct InitializeCounter {
    pub global_counter: AccountSlot,
    pub user: Payer,
    pub allocation_cost: u64,
}

/// The accounts Increment runs against: only the slot at the derived address.
#[derive(Clone, Copy, Debug, PartialEq, Eq)]
pub struct IncrementCounter {
    pub global_counter: AccountSlot,
}

impl InitializeCounter {
    /// The precondition of Init: the slot is still empty and the caller can cover the
    /// allocation.
    pub open spec fn init_accepted(self) -> bool {
        self.global_counter.record is None && self.user.funds >= self.allocation_cost
    }
}

/// The whole Init transition as a relation between the accounts before, the
/// accounts after, and the outcome: a record already at the address rejects
/// the call as `AlreadyInitialized`; a caller who cannot cover the allocation
/// rejects it as `InsufficientFunds`; otherwise a record with count zero is
/// allocated and the caller pays for it. Every rejection leaves the accounts
/// exactly as they were.
pub open spec fn init_step(
    pre: InitializeCounter,
    post: InitializeCounter,
    r: Result<(), CounterError>,
) -> bool {
    if pre.global_counter.record is Some {
        r == Err::<(), CounterError>(CounterError::AlreadyInitialized) && post == pre
    } else if pre.user.funds < pre.allocation_cost {
        r == Err::<(), CounterError>(CounterError::InsufficientFunds) && post == pre
    } else {
        r == Ok::<(), CounterError>(()) && post == (InitializeCounter {
            global_counter: AccountSlot {
                address: pre.global_counter.address,
                record: Some(GlobalCounter { count: 0 }),
            },
            user: Payer { funds: (pre.user.funds - pre.allocation_cost) as u64 },
            allocation_cost: pre.allocation_cost,
        })
    }
}

/// The whole Increment transition as a relation: an empty slot rejects the
/// call as `Uninitialized`; a count at the largest representable value
/// rejects it as `ArithmeticOverflow`; otherwise the count grows by exactly
/// one. Every rejection leaves the accounts exactly as they were.
pub open spec fn increment_step(
    pre: IncrementCounter,
    post: IncrementCounter,
    r: Result<(), CounterError>,
) -> bool {
    match pre.global_counter.record {
        None => r == Err::<(), CounterError>(CounterError::Uninitialized) && post == pre,
        Some(c) => if c.count == u64::MAX {
            r == Err::<(), CounterError>(CounterError::ArithmeticOverflow) && post == pre
        } else {
            r == Ok::<(), CounterError>(()) && post == (IncrementCounter {
                global_counter: AccountSlot {
                    address: pre.global_counter.address,
                    record: Some(GlobalCounter { count: (c.count + 1) as u64 }),
                },
            })
        },
    }
}

/// Init, the transition from `Uninitialized` to `Active`: allocates the
/// record at the derived address with `count == 0`, paid for by the caller.
/// Succeeds exactly when no record exists there yet and the caller can cover
/// the allocation; any rejection changes nothing.
pub fn initialize(ctx: &mut InitializeCounter) -> (r: Result<(), CounterError>)
    ensures
        init_step(*old(ctx), *final(ctx), r),
        r is Ok <==> old(ctx).init_accepted(),
{
    if ctx.global_counter.record.is_some() {
        return Err(CounterError::AlreadyInitialized);
    }
    if ctx.user.funds < ctx.allocation_cost {
        return Err(CounterError::InsufficientFunds);
    }
    ctx.user.funds = ctx.user.funds - ctx.allocation_cost;
    ctx.global_counter.record = Some(GlobalCounter::new());
    Ok(())
}

/// Increment, the transition from `Active` to `Active`: adds exactly one to
/// the count of the record at the derived address. Succeeds exactly when a
/// record exists there and its count is below the largest representable
/// value; any rejection changes nothing. Deliberately open: whoever supplies
/// the correct derived address may increment — there is no signer check.
pub fn increment(ctx: &mut IncrementCounter) -> (r: Result<(), CounterError>)
    ensures
        increment_step(*old(ctx), *final(ctx), r),
        r is Ok <==> (old(ctx).global_counter.record matches Some(c)
            && c.count < u64::MAX),
{
    match ctx.global_counter.record {
        None => Err(CounterError::Uninitialized),
        Some(current) => match current.incremented() {
            Ok(next) => {
                ctx.global_counter.record = Some(next);
                Ok(())
            },
            Err(e) => Err(e),
        },
    }
}

/// Single initialization: of two consecutive Init attempts against the same
/// derived address, the first — on an empty slot with a caller who can fund
/// it — succeeds and writes a record with count zero; the second is rejected
/// as `AlreadyInitialized` and leaves everything as the first call left it.
pub proof fn lemma_single_initialization(
    s0: InitializeCounter,
    s1: InitializeCounter,
    r1: Result<(), CounterError>,
    s2: InitializeCounter,
    r2: Result<(), CounterError>,
)
    requires
        s0.init_accepted(),
        init_step(s0, s1, r1),
        init_step(s1, s2, r2),
    ensures
        r1 == Ok::<(), CounterError>(()),
        s1.global_counter.record == Some(GlobalCounter { count: 0u64 }),
        r2 == Err::<(), CounterError>(CounterError::AlreadyInitialized),
        s2 == s1,
{
}

/// A record is never destroyed and its count never decreases: whatever
/// outcome an Increment has, a slot that held a record still holds one, with
/// a count at least as large as before.
pub proof fn lemma_record_never_regresses(
    pre: IncrementCounter,
    post: IncrementCounter,
    r: Result<(), CounterError>,
)
    requires
        increment_step(pre, post, r),
    ensures
        pre.global_counter.record matches Some(c) ==> (post.global_counter.record matches Some(d)
            && d.count >= c.count),
{
}

/// Monotonic increment: a run of states that starts right after a successful
/// Init — a record with count zero — and advances only by successful
/// Increments ends with the count equal to the number of Increments taken.
/// Such a run can take at most `u64::MAX` steps.
pub proof fn lemma_monotonic_increment(trace: Seq<IncrementCounter>)
    requires
        trace.len() >= 1,
        trace[0].global_counter.record == Some(GlobalCounter { count: 0u64 }),
        forall|i: int|
            0 <= i < trace.len() - 1 ==> #[trigger] increment_step(
                trace[i],
                trace[i + 1],
                Ok::<(), CounterError>(()),
            ),
    ensures
        trace.len() - 1 <= u64::MAX,
        trace.last().global_counter.record == Some(
            (GlobalCounter { count: (trace.len() - 1) as u64 }),
        ),
    decreases trace.len(),
{
    if trace.len() > 1 {
        let prefix = trace.drop_last();
        assert forall|i: int|
            0 <= i < prefix.len() - 1 implies #[trigger] increment_step(
            prefix[i],
            prefix[i + 1],
            Ok::<(), CounterError>(()),
        ) by {
            assert(increment_step(trace[i], trace[i + 1], Ok::<(), CounterError>(())));
        }
        lemma_monotonic_increment(prefix);
        assert(increment_step(
            trace[trace.len() - 2],
            trace[trace.len() - 1],
            Ok::<(), CounterError>(()),
        ));
    }
}

} // verus!

