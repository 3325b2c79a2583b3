//! Split inspection: from the entries of an index's storage directory to
//! split identifiers and their count.

use vstd::prelude::*;
use vstd::string::*;
use crate::text::texts;

verus! {

/// Structural statistics of the splits that an index is made of.
#[derive(Clone, Copy, Debug, PartialEq, Eq, Structural)]
pub struct SplitDetails {
    pub num_splits: usize,
}

/// Number of leading characters of an entry name that form its split
/// identifier: everything before the last dot, unless the name has no dot
/// or its only dot is the first character, in which case the whole name.
pub open spec fn stem_len(name: Seq<char>) -> nat
    decreases name.len(),
{
    if name.len() <= 1 {
        name.len()
    } else if name.last() == '.' {
        (name.len() - 1) as nat
    } else {
        let shorter = stem_len(name.drop_last());
        if shorter == name.len() - 1 {
            name.len()
        } else {
            shorter
        }
    }
}

/// The split identifier of a directory entry: its name without extension.
pub open spec fn split_id_of(name: Seq<char>) -> Seq<char> {
    name.take(stem_len(name) as int)
}

/// The split identifiers of a directory's entries, in the order of the entries.
pub open spec fn split_ids_of(names: Seq<Seq<char>>) -> Seq<Seq<char>> {
    names.map_values(|name: Seq<char>| split_id_of(name))
}

/// `cut` is where the extension of `name` starts: a dot that is not the
/// first character and has no dot after it.
pub open spec fn is_extension_dot(name: Seq<char>, cut: int) -> bool {
    &&& 0 < cut < name.len()
    &&& name[cut] == '.'
    &&& forall|j: int| cut < j < name.len() ==> name[j] != '.'
}

/// A name has an extension when some dot after its first character exists.
pub open spec fn has_extension(name: Seq<char>) -> bool {
    exists|i: int| 0 < i < name.len() && name[i] == '.'
}

/// The stem ends at the last dot of the name, and a name without an
/// extension is its own stem.
pub proof fn lemma_stem_len(name: Seq<char>)
    ensures
        stem_len(name) <= name.len(),
        has_extension(name) ==> is_extension_dot(name, stem_len(name) as int),
        !has_extension(name) ==> stem_len(name) == name.len(),
    decreases name.len(),
{
    if name.len() <= 1 {
    } else if name.last() == '.' {
        assert(name[name.len() - 1] == '.');
    } else {
        let front = name.drop_last();
        lemma_stem_len(front);
        if has_extension(name) {
            let i = choose|i: int| 0 < i < name.len() && name[i] == '.';
            assert(front[i] == '.');
            assert(has_extension(front));
            let cut = stem_len(front) as int;
            assert(is_extension_dot(front, cut));
            assert(name[cut] == front[cut]);
            assert forall|j: int| cut < j < name.len() implies name[j] != '.' by {
                if j < front.len() {
                    assert(name[j] == front[j]);
                }
            }
        } else {
            if has_extension(front) {
                let i = choose|i: int| 0 < i < front.len() && front[i] == '.';
                assert(name[i] == '.');
            }
        }
    }
}

/// The split identifier of one directory entry, given by its file name.
pub fn split_id(entry_name: &str) -> (id: String)
    ensures
        id@ == split_id_of(entry_name@),
{
    let len = entry_name.unicode_len();
    let mut cut: usize = len;
    let mut i: usize = len;
    while i > 1 && cut == len
        invariant
            i <= len,
            cut <= len,
            len == entry_name@.len(),
            cut == len ==> forall|j: int| i <= j < len && 0 < j ==> entry_name@[j] != '.',
            cut < len ==> is_extension_dot(entry_name@, cut as int),
        decreases i,
    {
        i = i - 1;
        if entry_name.get_char(i) == '.' {
            cut = i;
        }
    }
    proof {
        lemma_stem_len(entry_name@);
        let stem = stem_len(entry_name@) as int;
        if cut < len {
            assert(has_extension(entry_name@));
            assert(entry_name@[stem] == '.');
            assert(entry_name@[cut as int] == '.');
        } else if has_extension(entry_name@) {
            assert(entry_name@[stem] == '.');
        }
    }
    entry_name.substring_char(0, cut).to_owned()
}

/// The split identifiers of an index, one per entry of its storage
/// directory and in the same order.
pub fn get_split_ids(entry_names: &Vec<String>) -> (ids: Vec<String>)
    ensures
        texts(ids@) == split_ids_of(texts(entry_names@)),
{
    let mut ids: Vec<String> = Vec::new();
    let mut i: usize = 0;
    while i < entry_names.len()
        invariant
            i <= entry_names.len(),
            ids.len() == i,
            forall|j: int| 0 <= j < i ==> ids@[j]@ == split_id_of(#[trigger] entry_names@[j]@),
        decreases entry_names.len() - i,
    {
        let id = split_id(entry_names[i].as_str());
        ids.push(id);
        i = i + 1;
    }
    assert(texts(ids@) =~= split_ids_of(texts(entry_names@)));
    ids
}

/// The statistics of an index, from the entries of its storage directory:
/// every entry is one split.
pub fn get_details_from_splits(entry_names: &Vec<String>) -> (details: SplitDetails)
    ensures
        details.num_splits == split_ids_of(texts(entry_names@)).len(),
        details.num_splits == entry_names@.len(),
{
    let split_ids = get_split_ids(entry_names);
    assert(texts(split_ids@).len() == split_ids@.len());
    SplitDetails { num_splits: split_ids.len() }
}

} // verus!
