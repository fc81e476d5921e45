//! The per-address values as a mathematical map, and the laws of writing
//! and reading them.
//!
//! An address stands here by its strkey. The map holds an entry for each
//! address that has been written and none for the others; a write replaces
//! the entry of its address and touches no other.

use vstd::prelude::*;

verus! {

/// The values kept for the addresses, each address given by its strkey.
pub type Entries = Map<Seq<char>, u32>;

/// One write: the address, by its strkey, and the value put under it.
pub type Write = (Seq<char>, u32);

/// The entries after `value` has been written under `key`.
pub open spec fn written(entries: Entries, key: Seq<char>, value: u32) -> Entries {
    entries.insert(key, value)
}

/// What a read of `key` gives: the value under it, or nothing when the key
/// was never written. A stored zero is `Some(0)`, not `None`.
pub open spec fn value_at(entries: Entries, key: Seq<char>) -> Option<u32> {
    if entries.dom().contains(key) {
        Some(entries[key])
    } else {
        None
    }
}

/// The entries after the writes of `writes` have been made in order.
pub open spec fn written_all(entries: Entries, writes: Seq<Write>) -> Entries
    decreases writes.len(),
{
    if writes.len() == 0 {
        entries
    } else {
        written(written_all(entries, writes.drop_last()), writes.last().0, writes.last().1)
    }
}

/// Whether one of `writes` goes to `key`.
pub open spec fn writes_to(writes: Seq<Write>, key: Seq<char>) -> bool {
    exists|i: int| 0 <= i < writes.len() && (#[trigger] writes[i]).0 == key
}

/// A read after a write to the same address gives the value written.
pub proof fn lemma_read_own_write(entries: Entries, key: Seq<char>, value: u32)
    ensures
        value_at(written(entries, key, value), key) == Some(value),
{
}

/// Of two writes to the same address the later one wins: a read gives its
/// value, and the entries are as if the earlier write had never been made.
pub proof fn lemma_last_write_wins(entries: Entries, key: Seq<char>, first: u32, second: u32)
    ensures
        value_at(written(written(entries, key, first), key, second), key) == Some(second),
        written(written(entries, key, first), key, second) == written(entries, key, second),
{
    assert(written(written(entries, key, first), key, second) =~= written(entries, key, second));
}

/// A write to one address leaves what a read of any other address gives.
pub proof fn lemma_write_keeps_others(
    entries: Entries,
    key: Seq<char>,
    value: u32,
    other: Seq<char>,
)
    requires
        other != key,
    ensures
        value_at(written(entries, key, value), other) == value_at(entries, other),
{
}

/// Writes of which none goes to `key` leave what a read of `key` gives.
pub proof fn lemma_writes_keep_others(entries: Entries, writes: Seq<Write>, key: Seq<char>)
    requires
        !writes_to(writes, key),
    ensures
        value_at(written_all(entries, writes), key) == value_at(entries, key),
    decreases writes.len(),
{
    if writes.len() > 0 {
        let earlier = writes.drop_last();
        assert forall|i: int| 0 <= i < earlier.len() implies (#[trigger] earlier[i]).0 != key by {
            assert(earlier[i] == writes[i]);
        }
        lemma_writes_keep_others(entries, earlier, key);
        assert(writes[writes.len() - 1].0 != key);
    }
}

/// An address that was never written reads as absent: starting from no
/// entries at all, after any writes of which none goes to `key`, a read of
/// `key` gives `None`.
pub proof fn lemma_unwritten_is_absent(writes: Seq<Write>, key: Seq<char>)
    requires
        !writes_to(writes, key),
    ensures
        value_at(written_all(Map::empty(), writes), key) == None::<u32>,
{
    lemma_writes_keep_others(Map::empty(), writes, key);
}

/// After any writes, a read of `key` gives the value of the last write that
/// went to `key`.
pub proof fn lemma_read_gives_last_write(entries: Entries, writes: Seq<Write>, i: int)
    requires
        0 <= i < writes.len(),
        forall|j: int| i < j < writes.len() ==> (#[trigger] writes[j]).0 != writes[i].0,
    ensures
        value_at(written_all(entries, writes), writes[i].0) == Some(writes[i].1),
    decreases writes.len(),
{
    let earlier = writes.drop_last();
    if i < writes.len() - 1 {
        assert(earlier[i] == writes[i]);
        assert forall|j: int| i < j < earlier.len() implies (#[trigger] earlier[j]).0
            != earlier[i].0 by {
            assert(earlier[j] == writes[j]);
        }
        lemma_read_gives_last_write(entries, earlier, i);
        assert(writes[writes.len() - 1].0 != writes[i].0);
    }
}

} // verus!
