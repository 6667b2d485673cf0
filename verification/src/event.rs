use crate::aggregate::Aggregate;
use vstd::prelude::*;

verus! {

/// One committed event together with the identity of its aggregate instance
/// and its position in that instance's history.
pub struct EventEnvelope<A: Aggregate> {
    /// The aggregate instance that the event belongs to.
    pub aggregate_id: String,
    /// The position of the event in the history of its aggregate instance.
    pub sequence: usize,
    /// The event itself.
    pub payload: A::Event,
    /// Key / value pairs that travel with the event and that nothing here reads.
    pub metadata: Vec<(String, String)>,
}

/// Every envelope of `events` belongs to `aggregate_id`, and the envelopes
/// stand in strictly ascending sequence.
pub open spec fn in_commit_order<A: Aggregate>(
    aggregate_id: Seq<char>,
    events: Seq<EventEnvelope<A>>,
) -> bool {
    &&& forall|i: int|
        0 <= i < events.len() ==> (#[trigger] events[i]).aggregate_id@ == aggregate_id
    &&& forall|i: int, j: int|
        0 <= i < j < events.len() ==> (#[trigger] events[i]).sequence < (
        #[trigger] events[j]).sequence
}

/// A batch as it is handed to a query: a named aggregate instance and at least
/// one of its events, in commit order.
pub open spec fn is_committed_batch<A: Aggregate>(
    aggregate_id: Seq<char>,
    events: Seq<EventEnvelope<A>>,
) -> bool {
    &&& aggregate_id.len() > 0
    &&& events.len() > 0
    &&& in_commit_order(aggregate_id, events)
}

/// `envelopes` wrap `events` one for one, in the same order, for the aggregate
/// instance `aggregate_id`, numbered without gaps from `after + 1` and with no
/// metadata.
pub open spec fn is_numbered_from<A: Aggregate>(
    envelopes: Seq<EventEnvelope<A>>,
    aggregate_id: Seq<char>,
    after: int,
    events: Seq<A::Event>,
) -> bool {
    &&& envelopes.len() == events.len()
    &&& forall|i: int|
        0 <= i < envelopes.len() ==> {
            &&& (#[trigger] envelopes[i]).aggregate_id@ == aggregate_id
            &&& envelopes[i].sequence == after + 1 + i
            &&& envelopes[i].payload == events[i]
            &&& envelopes[i].metadata@.len() == 0
        }
}

/// Envelopes that were numbered without gaps stand in commit order.
pub proof fn lemma_numbered_is_commit_order<A: Aggregate>(
    envelopes: Seq<EventEnvelope<A>>,
    aggregate_id: Seq<char>,
    after: int,
    events: Seq<A::Event>,
)
    requires
        is_numbered_from(envelopes, aggregate_id, after, events),
    ensures
        in_commit_order(aggregate_id, envelopes),
{
}

/// The items of `items`, last first.
fn reversed<T>(items: Vec<T>) -> (r: Vec<T>)
    ensures
        r@.len() == items@.len(),
        forall|k: int| 0 <= k < r@.len() ==> r@[k] == items@[items@.len() - 1 - k],
{
    let mut rest: Vec<T> = items;
    let mut out: Vec<T> = Vec::new();
    while rest.len() > 0
        invariant
            out@.len() + rest@.len() == items@.len(),
            rest@ == items@.subrange(0, rest@.len() as int),
            forall|k: int| 0 <= k < out@.len() ==> out@[k] == items@[items@.len() - 1 - k],
        decreases rest@.len(),
    {
        match rest.pop() {
            Some(item) => {
                out.push(item);
            },
            None => {},
        }
    }
    out
}

/// Wraps freshly produced events for the aggregate instance `aggregate_id`,
/// whose history holds `after` events so far: the first gets the sequence
/// number `after + 1`, each following one the next number.
pub fn envelopes<A: Aggregate>(aggregate_id: &str, after: usize, events: Vec<A::Event>) -> (r:
    Vec<EventEnvelope<A>>)
    requires
        after + events@.len() <= usize::MAX,
    ensures
        is_numbered_from(r@, aggregate_id@, after as int, events@),
        in_commit_order(aggregate_id@, r@),
{
    let ghost total = events@.len();
    let mut rest: Vec<A::Event> = reversed(events);
    let mut out: Vec<EventEnvelope<A>> = Vec::new();
    while rest.len() > 0
        invariant
            total == events@.len(),
            after + total <= usize::MAX,
            out@.len() + rest@.len() == total,
            is_numbered_from(
                out@,
                aggregate_id@,
                after as int,
                events@.subrange(0, out@.len() as int),
            ),
            forall|k: int| 0 <= k < rest@.len() ==> rest@[k] == events@[total - 1 - k],
        decreases rest@.len(),
    {
        let done: usize = out.len();
        match rest.pop() {
            Some(payload) => {
                let sequence: usize = after + 1 + done;
                out.push(
                    EventEnvelope {
                        aggregate_id: aggregate_id.to_owned(),
                        sequence,
                        payload,
                        metadata: Vec::new(),
                    },
                );
            },
            None => {},
        }
    }
    proof {
        assert(events@.subrange(0, out@.len() as int) =~= events@);
        lemma_numbered_is_commit_order(out@, aggregate_id@, after as int, events@);
    }
    out
}

} // verus!
