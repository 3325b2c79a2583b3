//! Lists of strings as lists of texts.

use vstd::prelude::*;

verus! {

/// The texts that a list of strings holds, in order.
pub open spec fn texts(list: Seq<String>) -> Seq<Seq<char>> {
    list.map_values(|s: String| s@)
}

/// All texts of a list, one after the other.
pub open spec fn concat(parts: Seq<Seq<char>>) -> Seq<char>
    decreases parts.len(),
{
    if parts.len() == 0 {
        Seq::empty()
    } else {
        concat(parts.drop_last()) + parts.last()
    }
}

/// Joining two lists and then their texts is joining the texts of each.
pub proof fn lemma_concat_add(front: Seq<Seq<char>>, back: Seq<Seq<char>>)
    ensures
        concat(front + back) == concat(front) + concat(back),
    decreases back.len(),
{
    if back.len() == 0 {
        assert(front + back =~= front);
        assert(concat(front) + concat(back) =~= concat(front));
    } else {
        assert((front + back).drop_last() =~= front + back.drop_last());
        assert((front + back).last() == back.last());
        lemma_concat_add(front, back.drop_last());
        assert(concat(front) + concat(back.drop_last()) + back.last() =~= concat(front) + (concat(
            back.drop_last(),
        ) + back.last()));
    }
}

} // verus!
