//! Record keys: within one record set no key occurs twice.

use vstd::prelude::*;

verus! {

/// The characters of each of a list of keys.
pub open spec fn key_texts(keys: Seq<&String>) -> Seq<Seq<char>> {
    keys.map_values(|k: &String| k@)
}

/// Whether no key occurs twice in the list.
pub fn all_distinct(keys: &Vec<&String>) -> (r: bool)
    ensures
        r == key_texts(keys@).no_duplicates(),
{
    let ghost texts = key_texts(keys@);
    let mut i: usize = 0;
    while i < keys.len()
        invariant
            i <= keys@.len(),
            texts == key_texts(keys@),
            forall|a: int, b: int| 0 <= a < b < keys@.len() && a < i ==> texts[a] != texts[b],
        decreases keys@.len() - i,
    {
        let mut j: usize = i + 1;
        while j < keys.len()
            invariant
                i < j <= keys@.len(),
                texts == key_texts(keys@),
                forall|b: int| i < b < j ==> texts[i as int] != texts[b],
            decreases keys@.len() - j,
        {
            if *keys[i] == *keys[j] {
                assert(texts[i as int] == texts[j as int]);
                return false;
            }
            j += 1;
        }
        i += 1;
    }
    assert forall|a: int, b: int|
        0 <= a < texts.len() && 0 <= b < texts.len() && a != b implies texts[a] != texts[b] by {
        if a < b {
            assert(texts[a] != texts[b]);
        } else {
            assert(texts[b] != texts[a]);
        }
    }
    true
}

} // verus!
