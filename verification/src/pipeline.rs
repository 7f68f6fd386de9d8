use vstd::prelude::*;

verus! {

/// The value that tells a consumer to stop.
pub const TERMINATION_SIGNAL: i32 = -1;

/// Items each producer generates.
pub const ITEM_COUNT: usize = 10;

/// Number of producer threads.
pub const PRODUCERS: usize = 2;

/// Number of consumer threads; each needs its own termination signal.
pub const CONSUMERS: usize = 3;

/// The `i`-th value of producer `id`: the producer's id times one hundred
/// plus the item's index, both taken as `i32` values.
pub open spec fn produced_value_spec(id: usize, i: usize) -> int {
    (id as i32) * 100 + (i as i32)
}

/// Both steps of the computation stay within `i32`.
pub open spec fn produced_value_fits(id: usize, i: usize) -> bool {
    &&& i32::MIN <= (id as i32) * 100 <= i32::MAX
    &&& i32::MIN <= produced_value_spec(id, i) <= i32::MAX
}

/// The `i`-th value that producer `id` sends.
pub fn produced_value(id: usize, i: usize) -> (value: i32)
    requires
        produced_value_fits(id, i),
    ensures
        value == produced_value_spec(id, i),
{
    let id_value = #[verifier::truncate] (id as i32);
    let index_value = #[verifier::truncate] (i as i32);
    id_value * 100 + index_value
}

/// Every value that producer `id` sends, in order.
pub fn producer_values(id: usize, count: usize) -> (values: Vec<i32>)
    requires
        forall|i: usize| i < count ==> #[trigger] produced_value_fits(id, i),
    ensures
        values.len() == count,
        forall|i: int| 0 <= i < count ==> values[i] == produced_value_spec(id, i as usize),
{
    let mut values: Vec<i32> = Vec::new();
    let mut i: usize = 0;
    while i < count
        invariant
            i <= count,
            values.len() == i,
            forall|k: usize| k < count ==> #[trigger] produced_value_fits(id, k),
            forall|k: int| 0 <= k < i ==> values[k] == produced_value_spec(id, k as usize),
        decreases count - i,
    {
        assert(produced_value_fits(id, i));
        let v = produced_value(id, i);
        values.push(v);
        i = i + 1;
    }
    values
}

/// What a consumer does with a value it receives.
#[derive(Clone, Copy, Debug, PartialEq, Eq, Structural)]
pub enum ConsumerAction {
    Process(i32),
    Stop,
}

/// A consumer stops on the termination signal and processes any other value.
pub fn consumer_step(value: i32) -> (action: ConsumerAction)
    ensures
        value == TERMINATION_SIGNAL ==> action == ConsumerAction::Stop,
        value != TERMINATION_SIGNAL ==> action == ConsumerAction::Process(value),
{
    if value == TERMINATION_SIGNAL {
        ConsumerAction::Stop
    } else {
        ConsumerAction::Process(value)
    }
}

/// A producer's values are never taken for the termination signal: a value
/// built from an id and an index small enough to need no truncation is
/// processed, not mistaken for a stop.
pub proof fn lemma_produced_value_is_processed(id: usize, i: usize)
    requires
        id * 100 + i <= i32::MAX,
    ensures
        produced_value_fits(id, i),
        produced_value_spec(id, i) == id * 100 + i,
        produced_value_spec(id, i) != TERMINATION_SIGNAL,
{
    assert(id <= i32::MAX && i <= i32::MAX) by (nonlinear_arith)
        requires
            id * 100 + i <= i32::MAX,
    {
    }
    assert((id as i32) == id);
    assert((i as i32) == i);
}

} // verus!
