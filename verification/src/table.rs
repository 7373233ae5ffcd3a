//! Keyed tables kept as rows in arrival order. Where a key occurs more than
//! once the last row counts.

use vstd::prelude::*;

verus! {

/// The map that a sequence of rows stands for.
pub open spec fn table_map<K, R>(rows: Seq<(K, R)>) -> Map<K, R>
    decreases rows.len(),
{
    if rows.len() == 0 {
        Map::empty()
    } else {
        table_map(rows.drop_last()).insert(rows.last().0, rows.last().1)
    }
}

/// True when row `i` is the last row with its key.
pub open spec fn is_last_row_of<K, R>(rows: Seq<(K, R)>, i: int, key: K) -> bool {
    &&& 0 <= i < rows.len()
    &&& rows[i].0 == key
    &&& forall|j: int| i < j < rows.len() ==> (#[trigger] rows[j]).0 != key
}

/// A key that no row carries is not in the map.
pub proof fn lemma_table_absent<K, R>(rows: Seq<(K, R)>, key: K)
    requires
        forall|j: int| 0 <= j < rows.len() ==> (#[trigger] rows[j]).0 != key,
    ensures
        !table_map(rows).dom().contains(key),
    decreases rows.len(),
{
    if rows.len() > 0 {
        let front = rows.drop_last();
        assert forall|j: int| 0 <= j < front.len() implies (#[trigger] front[j]).0 != key by {
            assert(front[j] == rows[j]);
        }
        lemma_table_absent(front, key);
        assert(rows.last() == rows[rows.len() - 1]);
    }
}

/// The map holds, for a key, what the last row with that key holds.
pub proof fn lemma_table_lookup<K, R>(rows: Seq<(K, R)>, i: int, key: K)
    requires
        is_last_row_of(rows, i, key),
    ensures
        table_map(rows).dom().contains(key),
        table_map(rows)[key] == rows[i].1,
    decreases rows.len(),
{
    let front = rows.drop_last();
    if i < rows.len() - 1 {
        assert(rows.last() == rows[rows.len() - 1]);
        assert(front[i] == rows[i]);
        assert forall|j: int| i < j < front.len() implies (#[trigger] front[j]).0 != key by {
            assert(front[j] == rows[j]);
        }
        lemma_table_lookup(front, i, key);
    }
}

/// Replacing what the last row of a key holds replaces what the map holds
/// for that key, and nothing else.
pub proof fn lemma_table_update<K, R>(rows: Seq<(K, R)>, i: int, key: K, record: R)
    requires
        is_last_row_of(rows, i, key),
    ensures
        table_map(rows.update(i, (key, record))) == table_map(rows).insert(key, record),
    decreases rows.len(),
{
    let updated = rows.update(i, (key, record));
    let front = rows.drop_last();
    if i == rows.len() - 1 {
        assert(updated.drop_last() =~= front);
        assert(table_map(updated) =~= table_map(rows).insert(key, record));
    } else {
        assert(rows.last() == rows[rows.len() - 1]);
        assert(front[i] == rows[i]);
        assert forall|j: int| i < j < front.len() implies (#[trigger] front[j]).0 != key by {
            assert(front[j] == rows[j]);
        }
        lemma_table_update(front, i, key, record);
        assert(updated.drop_last() =~= front.update(i, (key, record)));
        assert(updated.last() == rows.last());
        assert(table_map(updated) =~= table_map(rows).insert(key, record));
    }
}

/// A row added at the end sets what the map holds for its key.
pub proof fn lemma_table_push<K, R>(rows: Seq<(K, R)>, key: K, record: R)
    ensures
        table_map(rows.push((key, record))) == table_map(rows).insert(key, record),
{
    assert(rows.push((key, record)).drop_last() =~= rows);
}

} // verus!
