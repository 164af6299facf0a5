//! Query and form parameters: a `HashMap<String, String>` read by key, and a list of
//! `(key, value)` pairs (a form in which a key may repeat) taken by their views.
use std::collections::HashMap;
use vstd::prelude::*;

verus! {

/// The value stored under the key whose characters are `klic`, if there is one.
pub open spec fn hodnota_parametru(m: Map<String, String>, klic: Seq<char>) -> Option<Seq<char>> {
    if exists|k: String| #[trigger] m.contains_key(k) && k@ == klic {
        Some(m[choose|k: String| #[trigger] m.contains_key(k) && k@ == klic]@)
    } else {
        None
    }
}

/// `HashMap::get` with a `&str` key on a map keyed by `String`. A `String` key is found
/// by a `&str` with the same characters (`String: Borrow<str>`, with equal hashes and
/// equality); the contract says that the value stored under such a key comes back,
/// and `None` when no key has those characters.
#[verifier::external_body]
fn hledej<'a>(m: &'a HashMap<String, String>, klic: &str) -> (res: Option<&'a String>)
    ensures
        match res {
            Some(v) => (exists|k: String| #[trigger] m@.contains_key(k) && k@ == klic@) && (forall|
                k: String,
            | #[trigger] m@.contains_key(k) && k@ == klic@ ==> m@[k] == *v),
            None => forall|k: String| #[trigger] m@.contains_key(k) ==> k@ != klic@,
        },
{
    m.get(klic)
}

/// The value of a parameter, by its key.
pub fn parametr<'a>(m: &'a HashMap<String, String>, klic: &str) -> (res: Option<&'a String>)
    ensures
        match res {
            Some(v) => hodnota_parametru(m@, klic@) == Some(v@),
            None => hodnota_parametru(m@, klic@) is None,
        },
{
    let res = hledej(m, klic);
    proof {
        if res is Some {
            let k = choose|k: String| #[trigger] m@.contains_key(k) && k@ == klic@;
            assert(m@.contains_key(k) && k@ == klic@);
        }
    }
    res
}

/// The pairs of a form, each taken by the characters of its key and value.
pub open spec fn pole_v(pole: Seq<(String, String)>) -> Seq<(Seq<char>, Seq<char>)> {
    pole.map_values(|p: (String, String)| (p.0@, p.1@))
}

} // verus!
