//! Named fields in a decoded form: a callback carries each field once.

use vstd::prelude::*;
use crate::encoding::pairs_view;

verus! {

/// `key` stands at place `i` of the form, and nowhere else.
pub open spec fn is_only(pairs: Seq<(Seq<char>, Seq<char>)>, key: Seq<char>, i: int) -> bool {
    &&& 0 <= i < pairs.len()
    &&& pairs[i].0 == key
    &&& forall|j: int| 0 <= j < pairs.len() && (#[trigger] pairs[j]).0 == key ==> j == i
}

/// The value of the field `key`, where the form holds that key exactly once.
/// A key that is missing, or that stands twice, gives no value.
pub open spec fn field(pairs: Seq<(Seq<char>, Seq<char>)>, key: Seq<char>) -> Option<Seq<char>> {
    if exists|i: int| is_only(pairs, key, i) {
        Some(pairs[choose|i: int| is_only(pairs, key, i)].1)
    } else {
        None
    }
}

/// Looks the field `key` up.
pub fn get_field<'a>(pairs: &'a Vec<(String, String)>, key: &str) -> (value: Option<&'a String>)
    ensures
        match value {
            Some(v) => field(pairs_view(pairs@), key@) == Some(v@),
            None => field(pairs_view(pairs@), key@).is_none(),
        },
{
    let ghost form = pairs_view(pairs@);
    let mut found: Option<usize> = None;
    let mut i: usize = 0;
    while i < pairs.len()
        invariant
            i <= pairs@.len(),
            form == pairs_view(pairs@),
            match found {
                Some(k) => k < i && form[k as int].0 == key@ && forall|j: int|
                    0 <= j < i && (#[trigger] form[j]).0 == key@ ==> j == k,
                None => forall|j: int| 0 <= j < i ==> (#[trigger] form[j]).0 != key@,
            },
        decreases pairs@.len() - i,
    {
        if pairs[i].0.as_str().eq(key) {
            match found {
                Some(k) => {
                    assert forall|j: int| !is_only(form, key@, j) by {
                        if is_only(form, key@, j) {
                            assert(form[i as int].0 == key@);
                        }
                    }
                    return None;
                },
                None => {
                    found = Some(i);
                },
            }
        }
        i += 1;
    }
    match found {
        Some(k) => {
            assert(is_only(form, key@, k as int));
            Some(&pairs[k].1)
        },
        None => None,
    }
}

} // verus!
