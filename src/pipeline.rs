use itertools::Itertools;
use vstd::prelude::*;
use crate::departure::{Departure, RawDeparture, displayed_ms, normalized_from};

verus! {

/// The departure board endpoint: the stop, the number of results, the offset
/// from now and the transport types shown.
pub const DEPARTURE_URL: &'static str = "https://www.mvg.de/api/fib/v2/departure?globalId=de:09184:2000&limit=14&offsetInMinutes=0&transportTypes=SBAHN,BUS,UBAHN,TRAM";

/// Why a refresh produced no departure list.
#[derive(Clone, Debug)]
pub enum FetchError {
    /// The request could not complete (name resolution, connection, timeout).
    Transport(String),
    /// The response body did not hold departure records in the expected shape.
    Decode(String),
}

impl FetchError {
    /// The human-readable cause.
    pub fn message(&self) -> (m: String)
        ensures
            m@ == (match *self {
                FetchError::Transport(s) => s@,
                FetchError::Decode(s) => s@,
            }),
    {
        match self {
            FetchError::Transport(s) => s.clone(),
            FetchError::Decode(s) => s.clone(),
        }
    }
}

/// `s` is in ascending order of displayed time.
pub open spec fn sorted_by_displayed(s: Seq<Departure>) -> bool {
    forall|i: int, j: int| 0 <= i < j < s.len() ==> displayed_ms(s[i]) <= displayed_ms(s[j])
}

/// The departures of `s` displayed at `t`, in the order of `s`.
pub open spec fn displayed_at(s: Seq<Departure>, t: int) -> Seq<Departure> {
    s.filter(|d: Departure| displayed_ms(d) == t)
}

/// `r` is `s` sorted stably by displayed time: ascending, and departures shown
/// at the same instant keep the relative order they have in `s`.
pub open spec fn is_stable_sort(r: Seq<Departure>, s: Seq<Departure>) -> bool {
    &&& r.len() == s.len()
    &&& sorted_by_displayed(r)
    &&& forall|t: int| #[trigger] displayed_at(r, t) == displayed_at(s, t)
}

/// Every record of `raws` converts to a local time.
pub open spec fn all_valid(raws: Seq<RawDeparture>) -> bool {
    forall|i: int| 0 <= i < raws.len() ==> #[trigger] raws[i].wf()
}

/// `ds` is `raws` converted record by record.
pub open spec fn converted_all(ds: Seq<Departure>, raws: Seq<RawDeparture>) -> bool {
    &&& ds.len() == raws.len()
    &&& forall|i: int| 0 <= i < raws.len() ==> normalized_from(#[trigger] ds[i], raws[i])
}

/// Relies on itertools' `Itertools::sorted_by_key`, which collects the items into
/// a `Vec` and orders it with std's `slice::sort_by_key`: a stable sort,
/// ascending by the key.
#[verifier::external_body]
fn sort_by_displayed_time(v: Vec<Departure>) -> (r: Vec<Departure>)
    ensures
        is_stable_sort(r@, v@),
{
    v.into_iter().sorted_by_key(|d| d.displayed_epoch_ms()).collect()
}

/// Converts each raw record and orders the result by displayed time, stably.
/// Fails with a decode error when some record's timestamp lies outside the
/// range that converts to a local time.
pub fn normalize_departures(raws: &Vec<RawDeparture>) -> (r: Result<Vec<Departure>, FetchError>)
    ensures
        r.is_ok() <==> all_valid(raws@),
        match r {
            Ok(ds) => exists|c: Seq<Departure>| converted_all(c, raws@) && is_stable_sort(ds@, c),
            Err(e) => e is Decode,
        },
{
    let mut converted: Vec<Departure> = Vec::new();
    let mut i: usize = 0;
    while i < raws.len()
        invariant
            i <= raws.len(),
            all_valid(raws@.take(i as int)),
            converted_all(converted@, raws@.take(i as int)),
        decreases raws.len() - i,
    {
        if !raws[i].has_valid_timestamps() {
            assert(!raws@[i as int].wf());
            return Err(FetchError::Decode("departure timestamp out of range".to_owned()));
        }
        let d = Departure::from_raw(&raws[i]);
        converted.push(d);
        i = i + 1;
        assert(raws@.take(i as int) == raws@.take(i - 1).push(raws@[i - 1]));
    }
    assert(raws@.take(i as int) == raws@);
    let ghost c = converted@;
    let sorted = sort_by_displayed_time(converted);
    Ok(sorted)
}

} // verus!
