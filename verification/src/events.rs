//! MJAI event records: the fields that the feature encoders read from an
//! event's JSON text, taken out by `serde_json`.

use vstd::prelude::*;
use vstd::string::StrSliceExecFns;

verus! {

/// The fields of an MJAI event, each as `serde_json` reads it: a string
/// field only when the JSON value is a string, an integer field only when it
/// is an integer in range, an array field with the items read one by one.
pub struct MjaiEventFields {
    pub event_type: Option<String>,
    pub actor: Option<u64>,
    pub target: Option<u64>,
    pub pai: Option<String>,
    pub tsumogiri: Option<bool>,
    pub consumed: Option<Vec<Option<String>>>,
    pub honba: Option<u64>,
    pub kyotaku: Option<u64>,
    pub scores: Option<Vec<Option<i64>>>,
}

/// The mathematical value of [`MjaiEventFields`]: strings as character sequences.
pub struct MjaiEventView {
    pub event_type: Option<Seq<char>>,
    pub actor: Option<u64>,
    pub target: Option<u64>,
    pub pai: Option<Seq<char>>,
    pub tsumogiri: Option<bool>,
    pub consumed: Option<Seq<Option<Seq<char>>>>,
    pub honba: Option<u64>,
    pub kyotaku: Option<u64>,
    pub scores: Option<Seq<Option<i64>>>,
}

/// View of an optional string.
pub open spec fn opt_str_view(s: Option<String>) -> Option<Seq<char>> {
    match s {
        Some(x) => Some(x@),
        None => None,
    }
}

impl View for MjaiEventFields {
    type V = MjaiEventView;

    open spec fn view(&self) -> MjaiEventView {
        MjaiEventView {
            event_type: opt_str_view(self.event_type),
            actor: self.actor,
            target: self.target,
            pai: opt_str_view(self.pai),
            tsumogiri: self.tsumogiri,
            consumed: match self.consumed {
                Some(v) => Some(v@.map_values(|x: Option<String>| opt_str_view(x))),
                None => None,
            },
            honba: self.honba,
            kyotaku: self.kyotaku,
            scores: match self.scores {
                Some(v) => Some(v@),
                None => None,
            },
        }
    }
}

/// View of an optional event record.
pub open spec fn opt_event_view(e: Option<MjaiEventFields>) -> Option<MjaiEventView> {
    match e {
        Some(f) => Some(f@),
        None => None,
    }
}

/// The fields that `serde_json` reads from the JSON text `text`, or `None`
/// where the text is not valid JSON.
pub uninterp spec fn mjai_json_event(text: Seq<char>) -> Option<MjaiEventView>;

/// Reads the fields of an MJAI event from its JSON text with
/// `serde_json::from_str::<serde_json::Value>`, then `Value::as_str`,
/// `as_u64`, `as_bool`, `as_array` and `as_i64` on the keys the encoders use.
/// The contract claims only that the result is a function of the text
/// (`None` exactly where `from_str` fails).
#[verifier::external_body]
pub(crate) fn parse_mjai_event(text: &str) -> (r: Option<MjaiEventFields>)
    ensures
        opt_event_view(r) == mjai_json_event(text@),
{
    let v: serde_json::Value = serde_json::from_str(text).ok()?;
    let s = |k: &str| v[k].as_str().map(String::from);
    let n = |k: &str| v[k].as_u64();
    Some(MjaiEventFields {
        event_type: s("type"), actor: n("actor"), target: n("target"), pai: s("pai"),
        tsumogiri: v["tsumogiri"].as_bool(), honba: n("honba"), kyotaku: n("kyotaku"),
        consumed: v["consumed"].as_array().map(|a| a.iter().map(|x| x.as_str().map(String::from)).collect()),
        scores: v["scores"].as_array().map(|a| a.iter().map(|x| x.as_i64()).collect()),
    })
}

/// Reads every event of `events` with [`parse_mjai_event`].
pub fn parse_mjai_events(events: &Vec<String>) -> (r: Vec<Option<MjaiEventFields>>)
    ensures
        r@.len() == events@.len(),
        forall|i: int|
            0 <= i < events@.len() ==> opt_event_view(#[trigger] r@[i]) == mjai_json_event(
                events@[i]@,
            ),
{
    let mut r: Vec<Option<MjaiEventFields>> = Vec::new();
    let mut i: usize = 0;
    while i < events.len()
        invariant
            0 <= i <= events@.len(),
            r@.len() == i,
            forall|j: int|
                0 <= j < i ==> opt_event_view(#[trigger] r@[j]) == mjai_json_event(events@[j]@),
        decreases events@.len() - i,
    {
        r.push(parse_mjai_event(events[i].as_str()));
        i = i + 1;
    }
    r
}

/// The parsed views of a list of events.
pub open spec fn events_view(evs: Seq<Option<MjaiEventFields>>) -> Seq<Option<MjaiEventView>> {
    evs.map_values(|e: Option<MjaiEventFields>| opt_event_view(e))
}

/// Whether two strings hold the same characters.
pub fn str_eq(a: &str, b: &str) -> (r: bool)
    ensures
        r == (a@ == b@),
{
    let n = a.unicode_len();
    if n != b.unicode_len() {
        return false;
    }
    let mut i: usize = 0;
    while i < n
        invariant
            0 <= i <= n,
            n == a@.len(),
            n == b@.len(),
            forall|j: int| 0 <= j < i ==> a@[j] == b@[j],
        decreases n - i,
    {
        if a.get_char(i) != b.get_char(i) {
            return false;
        }
        i = i + 1;
    }
    assert(a@ =~= b@);
    true
}

/// Whether an optional string holds exactly `lit`.
pub fn opt_str_is(s: &Option<String>, lit: &str) -> (r: bool)
    ensures
        r == (opt_str_view(*s) == Some(lit@)),
{
    match s {
        Some(x) => str_eq(x.as_str(), lit),
        None => false,
    }
}

} // verus!
