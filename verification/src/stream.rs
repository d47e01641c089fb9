//! The record the library keeps for one log stream.

use vstd::prelude::*;

verus! {

/// One log stream of the queried log group, as the library sees it.
///
/// `last_event_ms` is the instant of the stream's most recent event, in
/// milliseconds since the Unix epoch; it is absent for a stream that has
/// never received an event. `name` is the stream's name, which the logging
/// service may omit.
pub struct StreamRecord {
    pub name: Option<String>,
    pub last_event_ms: Option<u64>,
}

impl Clone for StreamRecord {
    fn clone(&self) -> (r: Self)
        ensures
            r == *self,
    {
        let name = match &self.name {
            Some(n) => Some(n.clone()),
            None => None,
        };
        StreamRecord { name, last_event_ms: self.last_event_ms }
    }
}

/// The records of the successfully fetched items, in fetch order; a `None`
/// stands for an item whose page failed to arrive and is dropped.
pub open spec fn fetched_records(fetched: Seq<Option<StreamRecord>>) -> Seq<StreamRecord>
    decreases fetched.len(),
{
    if fetched.len() == 0 {
        Seq::empty()
    } else {
        let rest = fetched_records(fetched.drop_last());
        match fetched.last() {
            Some(rec) => rest.push(rec),
            None => rest,
        }
    }
}

/// Keeps the successfully fetched stream records and drops the failed
/// fetches, preserving their order: the tolerant half of stream retrieval,
/// which skips a failing page and goes on with the rest.
pub fn retain_fetched(fetched: &Vec<Option<StreamRecord>>) -> (kept: Vec<StreamRecord>)
    ensures
        kept@ == fetched_records(fetched@),
{
    let mut kept: Vec<StreamRecord> = Vec::new();
    let mut i: usize = 0;
    while i < fetched.len()
        invariant
            i <= fetched@.len(),
            kept@ == fetched_records(fetched@.take(i as int)),
        decreases fetched@.len() - i,
    {
        match &fetched[i] {
            Some(rec) => kept.push(rec.clone()),
            None => {},
        }
        proof {
            assert(fetched@.take(i + 1).drop_last() =~= fetched@.take(i as int));
        }
        i = i + 1;
    }
    proof {
        assert(fetched@.take(fetched@.len() as int) =~= fetched@);
    }
    kept
}

} // verus!
