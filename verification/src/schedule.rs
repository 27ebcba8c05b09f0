//! The weighted action scheduler: which action a simulated user takes next,
//! and when it stops taking any.
//!
//! Actions are drawn from a table of weights by Walker's alias method, which
//! the `weighted_rand` crate provides. An action's chance is proportional
//! to its weight, and an action of weight zero is never drawn.

use vstd::prelude::*;
use weighted_rand::builder::{NewBuilder, WalkerTableBuilder};
use crate::cancel::CancelSignal;
use crate::delay::NANOS_PER_SEC;

verus! {

/// The number of actions that a user can take.
pub const TASK_COUNT: usize = 8;

/// The pause after each action: a tenth of a second.
pub const THINK_TIME_NANOS: u64 = 100_000_000;

/// An action of a simulated user.
#[derive(Clone, Copy, Debug, PartialEq, Eq, Structural)]
pub enum TaskIndex {
    /// Stay idle for a while.
    DoNothing,
    /// Send a text message to the room of interest.
    SendText,
    /// Look at a room and mark its latest message as read.
    LookAtRoom,
    /// Load a page of a room's history.
    PaginateRoom,
    /// Go away from the keyboard for a longer while.
    GoAFK,
    /// Change the display name.
    ChangeDisplayName,
    /// Send an image.
    SendImage,
    /// React to a recent message.
    SendReaction,
}

impl TaskIndex {
    /// The action's position in a table of weights.
    pub open spec fn index(self) -> int {
        match self {
            TaskIndex::DoNothing => 0,
            TaskIndex::SendText => 1,
            TaskIndex::LookAtRoom => 2,
            TaskIndex::PaginateRoom => 3,
            TaskIndex::GoAFK => 4,
            TaskIndex::ChangeDisplayName => 5,
            TaskIndex::SendImage => 6,
            TaskIndex::SendReaction => 7,
        }
    }

    /// The action at position `value` of a table of weights.
    pub fn from(value: usize) -> (task: TaskIndex)
        requires
            value < TASK_COUNT,
        ensures
            task.index() == value,
    {
        match value {
            0 => TaskIndex::DoNothing,
            1 => TaskIndex::SendText,
            2 => TaskIndex::LookAtRoom,
            3 => TaskIndex::PaginateRoom,
            4 => TaskIndex::GoAFK,
            5 => TaskIndex::ChangeDisplayName,
            6 => TaskIndex::SendImage,
            _ => TaskIndex::SendReaction,
        }
    }

    /// The action's position in a table of weights.
    pub fn position(&self) -> (value: usize)
        ensures
            value == self.index(),
            value < TASK_COUNT,
    {
        match self {
            TaskIndex::DoNothing => 0,
            TaskIndex::SendText => 1,
            TaskIndex::LookAtRoom => 2,
            TaskIndex::PaginateRoom => 3,
            TaskIndex::GoAFK => 4,
            TaskIndex::ChangeDisplayName => 5,
            TaskIndex::SendImage => 6,
            TaskIndex::SendReaction => 7,
        }
    }
}

/// The sum of the weights.
pub open spec fn weight_sum(weights: Seq<u32>) -> nat
    decreases weights.len(),
{
    if weights.len() == 0 {
        0
    } else {
        weight_sum(weights.drop_last()) + weights.last() as nat
    }
}

/// Whether a table can be built from these weights: there is a weight, one
/// of them is positive, and the sum of the weights, multiplied by their
/// number, fits into 32 bits, which is what building the table computes with.
pub open spec fn valid_weights(weights: Seq<u32>) -> bool {
    &&& weights.len() > 0
    &&& weight_sum(weights) > 0
    &&& weights.len() * weight_sum(weights) <= u32::MAX
}

/// Why a table of weights is refused.
#[derive(Clone, Copy, Debug, PartialEq, Eq, Structural)]
pub enum WeightError {
    /// The table holds no weight.
    Empty,
    /// No weight is positive.
    NoPositiveWeight,
    /// The weights are too large to build a table from.
    TooHeavy,
    /// The table does not hold one weight for each action.
    WrongLength,
}

/// The error that `ActionWeightTable::new` gives for `weights`, if any.
pub open spec fn weight_error(weights: Seq<u32>) -> Option<WeightError> {
    if weights.len() == 0 {
        Some(WeightError::Empty)
    } else if weights.len() * weight_sum(weights) > u32::MAX {
        Some(WeightError::TooHeavy)
    } else if weight_sum(weights) == 0 {
        Some(WeightError::NoPositiveWeight)
    } else {
        None
    }
}

/// The sum of a stretch of weights is the sum of its front and of its back.
pub proof fn lemma_weight_sum_split(weights: Seq<u32>, k: int)
    requires
        0 <= k <= weights.len(),
    ensures
        weight_sum(weights) == weight_sum(weights.take(k)) + weight_sum(weights.skip(k)),
    decreases weights.len(),
{
    if k == weights.len() {
        assert(weights.take(k) =~= weights);
        assert(weights.skip(k).len() == 0);
    } else {
        let front = weights.drop_last();
        lemma_weight_sum_split(front, k);
        assert(front.take(k) =~= weights.take(k));
        assert(front.skip(k) =~= weights.skip(k).drop_last());
        assert(weights.skip(k).last() == weights.last());
    }
}

/// A sum of weights is zero only if every weight is, and it is at least
/// as large as any one of them.
pub proof fn lemma_weight_sum_bounds(weights: Seq<u32>)
    ensures
        forall|i: int| 0 <= i < weights.len() ==> weights[i] <= weight_sum(weights),
        weight_sum(weights) == 0 <==> forall|i: int| 0 <= i < weights.len() ==> weights[i] == 0,
    decreases weights.len(),
{
    if weights.len() > 0 {
        let front = weights.drop_last();
        lemma_weight_sum_bounds(front);
        assert(forall|i: int| 0 <= i < front.len() ==> front[i] == weights[i]);
        if weight_sum(weights) == 0 {
            assert forall|i: int| 0 <= i < weights.len() implies weights[i] == 0 by {
                if i < front.len() {
                    assert(front[i] == 0);
                }
            }
        }
    }
}

/// A table of weights, one for each position, that a sampler can be built from.
#[derive(Debug)]
pub struct ActionWeightTable {
    weights: Vec<u32>,
}

impl View for ActionWeightTable {
    type V = Seq<u32>;

    closed spec fn view(&self) -> Seq<u32> {
        self.weights@
    }
}

impl ActionWeightTable {
    /// A table's weights are valid.
    #[verifier::type_invariant]
    spec fn holds_valid_weights(&self) -> bool {
        valid_weights(self.weights@)
    }

    /// The table of the given weights, where they are valid.
    pub fn new(weights: Vec<u32>) -> (res: Result<ActionWeightTable, WeightError>)
        ensures
            match weight_error(weights@) {
                Some(e) => res == Err::<ActionWeightTable, WeightError>(e),
                None => res matches Ok(table) && table@ == weights@,
            },
            weight_error(weights@) is None <==> valid_weights(weights@),
            weight_error(weights@) != Some(WeightError::WrongLength),
    {
        let n = weights.len();
        if n == 0 {
            return Err(WeightError::Empty);
        }
        let ghost all = weights@;
        let mut sum: u64 = 0;
        let mut i: usize = 0;
        while i < n
            invariant
                n == weights.len(),
                all == weights@,
                0 < n,
                i <= n,
                sum == weight_sum(all.take(i as int)),
                n * sum <= u32::MAX,
            decreases n - i,
        {
            proof {
                assert(all.take(i + 1).drop_last() =~= all.take(i as int));
                assert(all.take(i + 1).last() == all[i as int]);
                assert(sum <= n * sum) by (nonlinear_arith)
                    requires
                        0 < n,
                        0 <= sum,
                ;
            }
            sum = sum + weights[i] as u64;
            i = i + 1;
            let fits = match (n as u64).checked_mul(sum) {
                Some(product) => product <= u32::MAX as u64,
                None => false,
            };
            if !fits {
                proof {
                    lemma_weight_sum_split(all, i as int);
                    assert(n * weight_sum(all) >= n * sum) by (nonlinear_arith)
                        requires
                            weight_sum(all) >= sum,
                            0 < n,
                    ;
                }
                return Err(WeightError::TooHeavy);
            }
        }
        proof {
            assert(all.take(n as int) =~= all);
        }
        if sum == 0 {
            return Err(WeightError::NoPositiveWeight);
        }
        Ok(ActionWeightTable { weights })
    }

    /// The number of weights. The weights of a table are valid.
    pub fn len(&self) -> (n: usize)
        ensures
            n == self@.len(),
            valid_weights(self@),
    {
        proof {
            use_type_invariant(self);
        }
        self.weights.len()
    }

    /// The weight at position `i`.
    pub fn weight(&self, i: usize) -> (w: u32)
        requires
            i < self@.len(),
        ensures
            w == self@[i as int],
    {
        self.weights[i]
    }
}

/// An alias table of the `weighted_rand` crate (`WalkerTable`), kept
/// together with the weights that it was built from. The table itself
/// holds aliases and probabilities only.
#[verifier::external_body]
pub struct WeightedTable {
    weights: Vec<u32>,
    table: weighted_rand::table::WalkerTable,
}

/// The weights that are kept with an alias table: the field `weights`.
pub uninterp spec fn sampler_weights(sampler: WeightedTable) -> Seq<u32>;

/// `WalkerTableBuilder::new` on a slice of `u32` weights, then
/// `WalkerTableBuilder::build`: the table for these weights, kept together
/// with them. The builder multiplies each weight by the number of weights
/// and sums the products in 32 bits, so the product of number and sum has
/// to fit.
#[verifier::external_body]
fn build_walker_table(weights: Vec<u32>) -> (built: WeightedTable)
    requires
        weights@.len() * weight_sum(weights@) <= u32::MAX,
    ensures
        sampler_weights(built) == weights@,
{
    let table = WalkerTableBuilder::new(weights.as_slice()).build();
    WeightedTable { weights, table }
}

/// `WalkerTable::next_rng` with the thread's random number generator: an
/// index of the table, drawn at random. The table must not be empty. Where
/// a weight is positive, the index of a weight of zero is not given out, as
/// the builder's documentation says.
#[verifier::external_body]
fn next_index(sampler: &WeightedTable) -> (index: usize)
    requires
        sampler_weights(*sampler).len() > 0,
    ensures
        index < sampler_weights(*sampler).len(),
        weight_sum(sampler_weights(*sampler)) > 0 ==> sampler_weights(*sampler)[index as int] > 0,
{
    sampler.table.next_rng(&mut rand::thread_rng())
}

/// A copy of the weights.
fn copy_weights(weights: &Vec<u32>) -> (copy: Vec<u32>)
    ensures
        copy@ == weights@,
{
    let mut copy: Vec<u32> = Vec::new();
    let mut i: usize = 0;
    while i < weights.len()
        invariant
            i <= weights@.len(),
            copy@ == weights@.take(i as int),
        decreases weights.len() - i,
    {
        copy.push(weights[i]);
        assert(copy@ =~= weights@.take(i + 1));
        i += 1;
    }
    assert(weights@.take(i as int) =~= weights@);
    copy
}

/// A sampler of positions, each with a chance proportional to its weight.
pub struct Sampler {
    weights: ActionWeightTable,
    table: WeightedTable,
}

impl Sampler {
    /// The weights that the sampler draws by.
    pub closed spec fn weights(&self) -> Seq<u32> {
        self.weights@
    }

    /// The sampler's table was built from its weights, and they are valid.
    #[verifier::type_invariant]
    spec fn table_matches_weights(&self) -> bool {
        &&& valid_weights(self.weights@)
        &&& sampler_weights(self.table) == self.weights@
    }

    /// The sampler for a table of weights.
    pub fn new(weights: ActionWeightTable) -> (sampler: Sampler)
        ensures
            sampler.weights() == weights@,
    {
        proof {
            use_type_invariant(&weights);
        }
        let table = build_walker_table(copy_weights(&weights.weights));
        Sampler { weights, table }
    }

    /// Draws a position at random. Its weight is positive.
    pub fn draw(&self) -> (index: usize)
        ensures
            index < self.weights().len(),
            self.weights()[index as int] > 0,
    {
        proof {
            use_type_invariant(self);
        }
        next_index(&self.table)
    }

    /// The weight at position `i`.
    pub fn weight(&self, i: usize) -> (w: u32)
        requires
            i < self.weights().len(),
        ensures
            w == self.weights()[i as int],
    {
        self.weights.weight(i)
    }
}

/// Whether a run is over: the signal is raised, or more time has passed
/// than the run is to take.
pub open spec fn run_is_over(cancelled: bool, elapsed: int, runtime_secs: int) -> bool {
    cancelled || elapsed > runtime_secs * NANOS_PER_SEC
}

/// Whether a run of `runtime_secs` seconds is over after `elapsed` nanoseconds.
pub fn should_stop(signal: &CancelSignal, elapsed: u64, runtime_secs: u64) -> (stop: bool)
    ensures
        stop == run_is_over(signal.cancelled(), elapsed as int, runtime_secs as int),
{
    if signal.is_cancelled() {
        return true;
    }
    match runtime_secs.checked_mul(NANOS_PER_SEC) {
        Some(runtime) => elapsed > runtime,
        None => false,
    }
}

/// The number of actions that a user takes from time `now` on, in a run
/// that is not cancelled, where every action returns at once and every
/// pause lasts exactly the think time.
pub open spec fn actions_from(runtime_secs: int, now: int) -> nat
    decreases
        if now <= runtime_secs * NANOS_PER_SEC {
            runtime_secs * NANOS_PER_SEC - now + THINK_TIME_NANOS
        } else {
            0
        },
{
    if run_is_over(false, now, runtime_secs) {
        0
    } else {
        1 + actions_from(runtime_secs, now + THINK_TIME_NANOS)
    }
}

/// The number of actions of such a run follows from its length and the
/// think time alone: ten for each second, and one at the very end.
pub proof fn lemma_actions_in_a_run(runtime_secs: nat)
    ensures
        actions_from(runtime_secs as int, 0) == 10 * runtime_secs + 1,
{
    lemma_actions_left(runtime_secs, 0);
}

/// After `taken` pauses, the run has one action for each pause that still
/// fits in, and one more.
pub proof fn lemma_actions_left(runtime_secs: nat, taken: nat)
    requires
        taken <= 10 * runtime_secs + 1,
    ensures
        actions_from(runtime_secs as int, taken * THINK_TIME_NANOS) == 10 * runtime_secs + 1 - taken,
    decreases 10 * runtime_secs + 1 - taken,
{
    if taken <= 10 * runtime_secs {
        lemma_actions_left(runtime_secs, taken + 1);
        assert((taken + 1) * THINK_TIME_NANOS == taken * THINK_TIME_NANOS + THINK_TIME_NANOS) by (nonlinear_arith);
    }
}

/// The weights of the actions, by position:
/// idle 11, text 6, look 4, paginate 2, away 1, display name 1, image 0, reaction 1.
pub open spec fn default_weight_seq() -> Seq<u32> {
    seq![11u32, 6u32, 4u32, 2u32, 1u32, 1u32, 0u32, 1u32]
}

/// The weights of the actions, by position.
pub fn default_weights() -> (weights: Vec<u32>)
    ensures
        weights@ == default_weight_seq(),
{
    let weights: Vec<u32> = vec![11, 6, 4, 2, 1, 1, 0, 1];
    assert(weights@ =~= default_weight_seq());
    weights
}

/// The default weights are valid and hold one weight for each action.
pub proof fn lemma_default_weights_valid()
    ensures
        default_weight_seq().len() == TASK_COUNT,
        weight_sum(default_weight_seq()) == 26,
        valid_weights(default_weight_seq()),
{
    let w = default_weight_seq();
    reveal_with_fuel(weight_sum, 9);
    assert(w.drop_last() =~= seq![11u32, 6u32, 4u32, 2u32, 1u32, 1u32, 0u32]);
    assert(w.drop_last().drop_last() =~= seq![11u32, 6u32, 4u32, 2u32, 1u32, 1u32]);
    assert(w.drop_last().drop_last().drop_last() =~= seq![11u32, 6u32, 4u32, 2u32, 1u32]);
    assert(w.drop_last().drop_last().drop_last().drop_last() =~= seq![11u32, 6u32, 4u32, 2u32]);
    assert(w.drop_last().drop_last().drop_last().drop_last().drop_last() =~= seq![11u32, 6u32, 4u32]);
    assert(w.drop_last().drop_last().drop_last().drop_last().drop_last().drop_last() =~= seq![11u32, 6u32]);
    assert(w.drop_last().drop_last().drop_last().drop_last().drop_last().drop_last().drop_last() =~= seq![11u32]);
    assert(weight_sum(w) == 26);
}

/// The scheduler of one user's run.
pub struct Scheduler {
    sampler: Sampler,
    runtime_secs: u64,
}

impl Scheduler {
    /// The weights that the scheduler draws by.
    pub closed spec fn weights(&self) -> Seq<u32> {
        self.sampler.weights()
    }

    /// The time that the run is to take, in seconds.
    pub closed spec fn runtime_secs(&self) -> u64 {
        self.runtime_secs
    }

    /// The scheduler's sampler has one weight for each action.
    #[verifier::type_invariant]
    spec fn one_weight_for_each_task(&self) -> bool {
        self.sampler.weights().len() == TASK_COUNT
    }

    /// The scheduler for a run of `runtime_secs` seconds that draws actions
    /// by `weights`. The weights have to be valid and one for each action.
    pub fn new(weights: Vec<u32>, runtime_secs: u64) -> (res: Result<Scheduler, WeightError>)
        ensures
            match res {
                Ok(s) => {
                    &&& s.weights() == weights@
                    &&& s.runtime_secs() == runtime_secs
                    &&& weights@.len() == TASK_COUNT
                    &&& valid_weights(weights@)
                },
                Err(e) => e == if weights@.len() != TASK_COUNT {
                    WeightError::WrongLength
                } else {
                    weight_error(weights@)->0
                } && (weights@.len() != TASK_COUNT || !valid_weights(weights@)),
            },
    {
        if weights.len() != TASK_COUNT {
            return Err(WeightError::WrongLength);
        }
        match ActionWeightTable::new(weights) {
            Ok(table) => Ok(Scheduler { sampler: Sampler::new(table), runtime_secs }),
            Err(e) => Err(e),
        }
    }

    /// The start of an iteration: `None` if the run is over; else the
    /// action to take, drawn at random among those of positive weight.
    pub fn next_task(&self, signal: &CancelSignal, elapsed: u64) -> (task: Option<TaskIndex>)
        ensures
            task is None <==> run_is_over(signal.cancelled(), elapsed as int, self.runtime_secs() as int),
            task matches Some(t) ==> self.weights()[t.index()] > 0,
    {
        proof {
            use_type_invariant(self);
        }
        if should_stop(signal, elapsed, self.runtime_secs) {
            return None;
        }
        let index = self.sampler.draw();
        Some(TaskIndex::from(index))
    }

    /// The check right before an action is dispatched: whether the run
    /// still goes on.
    pub fn may_dispatch(&self, signal: &CancelSignal, elapsed: u64) -> (go: bool)
        ensures
            go == !run_is_over(signal.cancelled(), elapsed as int, self.runtime_secs() as int),
    {
        !should_stop(signal, elapsed, self.runtime_secs)
    }

    /// The pause after an action.
    pub fn think_time(&self) -> (nanos: u64)
        ensures
            nanos == THINK_TIME_NANOS,
    {
        THINK_TIME_NANOS
    }
}

} // verus!
