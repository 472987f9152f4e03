//! Pieces of a live simulation that are not geometry: which reference
//! events it replays, whose asset the packets carry, and the length of a
//! route step.

use vstd::prelude::*;
use crate::text::same_text;

verus! {

/// Whether a reference event is of the given kind: its `meta.event` is that text.
pub fn is_event_of_kind(event: Option<&str>, kind: &str) -> (same: bool)
    ensures
        same == (event matches Some(e) && e@ == kind@),
{
    match event {
        Some(e) => same_text(e, kind),
        None => false,
    }
}

/// The positions of the reference events of the given kind, in order.
pub open spec fn positions_of_kind(events: Seq<Option<String>>, kind: Seq<char>) -> Seq<usize>
    decreases events.len(),
{
    if events.len() == 0 {
        seq![]
    } else {
        let rest = positions_of_kind(events.drop_last(), kind);
        if events.last() matches Some(e) && e@ == kind {
            rest.push((events.len() - 1) as usize)
        } else {
            rest
        }
    }
}

/// The positions, in order, of the reference events (given by their
/// `meta.event`) of the given kind.
pub fn events_of_kind(events: &Vec<Option<String>>, kind: &str) -> (picked: Vec<usize>)
    ensures
        picked@ == positions_of_kind(events@, kind@),
{
    let mut picked: Vec<usize> = Vec::new();
    let mut i: usize = 0;
    while i < events.len()
        invariant
            i <= events@.len(),
            picked@ == positions_of_kind(events@.subrange(0, i as int), kind@),
        decreases events@.len() - i,
    {
        let same = match &events[i] {
            Some(e) => same_text(e.as_str(), kind),
            None => false,
        };
        if same {
            picked.push(i);
        }
        assert(events@.subrange(0, i + 1 as int).drop_last() =~= events@.subrange(0, i as int));
        i = i + 1;
    }
    assert(events@.subrange(0, events@.len() as int) =~= events@);
    picked
}

/// The asset that simulated packets carry: the configured IMEI when there is
/// one, the reference asset otherwise.
pub fn simulated_asset(imei: Option<String>, reference: Option<String>) -> (asset: Option<String>)
    ensures
        asset == match imei {
            Some(i) => Some(i),
            None => reference,
        },
{
    match imei {
        Some(i) => Some(i),
        None => reference,
    }
}

/// The seconds a route step is taken to last, from the parts of its duration:
/// its whole minutes times 60, plus its whole seconds, plus its whole hours
/// times 360.
pub fn step_seconds(minutes: i64, seconds: i64, hours: i64) -> (total: i128)
    ensures
        total == minutes * 60 + seconds + hours * 360,
{
    (minutes as i128) * 60 + (seconds as i128) + (hours as i128) * 360
}

} // verus!
