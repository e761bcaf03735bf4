//! First-match lookup over sequences of string keys, shared by the mirror
//! and the durable-store model.
use vstd::prelude::*;

verus! {

/// Index of the first occurrence of `key` in `keys`, or -1 when absent.
pub open spec fn first_index_of(keys: Seq<Seq<char>>, key: Seq<char>) -> int
    decreases keys.len(),
{
    if keys.len() == 0 {
        -1
    } else if keys[0] == key {
        0
    } else {
        let rest = first_index_of(keys.skip(1), key);
        if rest == -1 {
            -1
        } else {
            rest + 1
        }
    }
}

/// When `keys[i]` is the first occurrence of `key`, `first_index_of` finds it.
pub proof fn lemma_first_index_of_found(keys: Seq<Seq<char>>, key: Seq<char>, i: int)
    requires
        0 <= i < keys.len(),
        keys[i] == key,
        forall|j: int| 0 <= j < i ==> keys[j] != key,
    ensures
        first_index_of(keys, key) == i,
    decreases i,
{
    if i > 0 {
        assert(keys.skip(1)[i - 1] == keys[i]);
        assert(forall|j: int| 0 <= j < i - 1 ==> keys.skip(1)[j] == keys[j + 1]);
        lemma_first_index_of_found(keys.skip(1), key, i - 1);
    }
}

/// When no element of `keys` equals `key`, `first_index_of` reports -1.
pub proof fn lemma_first_index_of_absent(keys: Seq<Seq<char>>, key: Seq<char>)
    requires
        forall|j: int| 0 <= j < keys.len() ==> keys[j] != key,
    ensures
        first_index_of(keys, key) == -1,
    decreases keys.len(),
{
    if keys.len() > 0 {
        assert(forall|j: int| 0 <= j < keys.len() - 1 ==> keys.skip(1)[j] == keys[j + 1]);
        lemma_first_index_of_absent(keys.skip(1), key);
    }
}

/// What a non-negative or negative result of `first_index_of` means.
pub proof fn lemma_first_index_of_props(keys: Seq<Seq<char>>, key: Seq<char>)
    ensures
        first_index_of(keys, key) == -1 ==> forall|j: int|
            0 <= j < keys.len() ==> keys[j] != key,
        first_index_of(keys, key) != -1 ==> {
            let r = first_index_of(keys, key);
            &&& 0 <= r < keys.len()
            &&& keys[r] == key
            &&& forall|j: int| 0 <= j < r ==> keys[j] != key
        },
    decreases keys.len(),
{
    if keys.len() == 0 {
    } else if keys[0] == key {
    } else {
        lemma_first_index_of_props(keys.skip(1), key);
        let r = first_index_of(keys.skip(1), key);
        if r == -1 {
            assert forall|j: int| 0 <= j < keys.len() implies keys[j] != key by {
                if j > 0 {
                    assert(keys.skip(1)[j - 1] == keys[j]);
                }
            }
        } else {
            assert(keys.skip(1)[r] == keys[r + 1]);
            assert forall|j: int| 0 <= j < r + 1 implies keys[j] != key by {
                if j > 0 {
                    assert(keys.skip(1)[j - 1] == keys[j]);
                }
            }
        }
    }
}

} // verus!
