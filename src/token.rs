//! Card identifiers: what one reading of the detector yields, and the
//! allow-list that decides which identifiers open the share.

use vstd::prelude::*;
use crate::record::{str_trim, trimmed};

verus! {

/// One poll of the card detector.
#[derive(Debug)]
pub enum Reading {
    /// A card with this identifier lies on the reader.
    Detected(String),
    /// No card, or nothing usable came back.
    Absent,
}

impl Reading {
    pub open spec fn view_id(self) -> Option<Seq<char>> {
        match self {
            Reading::Detected(id) => Some(id@),
            Reading::Absent => None,
        }
    }
}

/// The detector's replies that mean "no usable card".
pub open spec fn is_sentinel(t: Seq<char>) -> bool {
    ||| t.len() == 0
    ||| t == "NO_CARD"@
    ||| t == "ERROR"@
    ||| t == "NO_READERS"@
    ||| t == "CONNECT_ERROR"@
    ||| has_prefix(t, "EXCEPTION:"@)
}

pub open spec fn has_prefix(s: Seq<char>, p: Seq<char>) -> bool {
    p.len() <= s.len() && s.subrange(0, p.len() as int) == p
}

/// The card identifier that a line of detector output names, if any.
pub open spec fn reading_id(output: Seq<char>) -> Option<Seq<char>> {
    let t = trimmed(output);
    if is_sentinel(t) {
        None
    } else {
        Some(t)
    }
}

/// Whether `s` begins with `p`.
pub fn starts_with(s: &str, p: &str) -> (r: bool)
    ensures
        r == has_prefix(s@, p@),
{
    let n = p.unicode_len();
    if n > s.unicode_len() {
        return false;
    }
    let mut i: usize = 0;
    while i < n
        invariant
            n == p@.len(),
            n <= s@.len(),
            i <= n,
            forall|j: int| 0 <= j < i ==> s@[j] == p@[j],
        decreases n - i,
    {
        if s.get_char(i) != p.get_char(i) {
            assert(s@.subrange(0, n as int)[i as int] != p@[i as int]);
            return false;
        }
        i = i + 1;
    }
    assert(s@.subrange(0, n as int) =~= p@);
    true
}

fn same_text(a: &str, b: &str) -> (r: bool)
    ensures
        r == (a@ == b@),
{
    a.to_owned() == b.to_owned()
}

/// Turns one line of detector output into a reading: white space around it is
/// dropped, and the sentinels and an empty line mean that no card was read.
pub fn classify_output(output: &str) -> (r: Reading)
    ensures
        r.view_id() == reading_id(output@),
{
    let t = str_trim(output);
    if t.unicode_len() == 0 || same_text(t, "NO_CARD") || same_text(t, "ERROR")
        || same_text(t, "NO_READERS") || same_text(t, "CONNECT_ERROR")
        || starts_with(t, "EXCEPTION:") {
        Reading::Absent
    } else {
        Reading::Detected(t.to_owned())
    }
}

/// The identifiers of the cards that may open the share.
pub struct AllowList {
    ids: Vec<String>,
}

impl View for AllowList {
    type V = Seq<Seq<char>>;

    closed spec fn view(&self) -> Seq<Seq<char>> {
        self.ids@.map_values(|s: String| s@)
    }
}

impl AllowList {
    /// A list holding exactly `ids`, in this order.
    pub fn new(ids: Vec<String>) -> (r: AllowList)
        ensures
            r@ == ids@.map_values(|s: String| s@),
    {
        AllowList { ids }
    }

    /// Whether `id` is on the list, compared exactly, case included.
    pub fn contains(&self, id: &str) -> (r: bool)
        ensures
            r == self@.contains(id@),
    {
        let mut i: usize = 0;
        while i < self.ids.len()
            invariant
                i <= self.ids@.len(),
                forall|j: int| 0 <= j < i ==> self@[j] != id@,
            decreases self.ids@.len() - i,
        {
            if same_text(self.ids[i].as_str(), id) {
                assert(self@[i as int] == id@);
                return true;
            }
            i = i + 1;
        }
        proof {
            if self@.contains(id@) {
                let k = choose|k: int| 0 <= k < self@.len() && self@[k] == id@;
                assert(self@[k] == id@);
            }
        }
        false
    }
}

} // verus!
