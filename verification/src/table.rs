//! Rows kept in a vector and found by a text key, seen as a map from key to row.

use vstd::prelude::*;

verus! {

/// A row that is stored and found again under a text key.
pub trait Keyed: View + Sized {
    /// The key of the row.
    spec fn key(&self) -> Seq<char>;

    /// Whether the row's key is `key`.
    fn has_key(&self, key: &str) -> (same: bool)
        ensures
            same == (self.key() == key@),
    ;
}

/// No two rows share a key.
pub open spec fn distinct_keys<R: Keyed>(rows: Seq<R>) -> bool {
    forall|i: int, j: int|
        0 <= i < rows.len() && 0 <= j < rows.len() && i != j ==> #[trigger] rows[i].key()
            != #[trigger] rows[j].key()
}

/// Some row has the key.
pub open spec fn holds_key<R: Keyed>(rows: Seq<R>, key: Seq<char>) -> bool {
    exists|i: int| 0 <= i < rows.len() && #[trigger] rows[i].key() == key
}

/// The place of a row with the key.
pub open spec fn row_of<R: Keyed>(rows: Seq<R>, key: Seq<char>) -> int {
    choose|i: int| 0 <= i < rows.len() && #[trigger] rows[i].key() == key
}

/// The rows as a map from key to the view of the row.
pub open spec fn entries<R: Keyed>(rows: Seq<R>) -> Map<Seq<char>, R::V> {
    Map::new(|key: Seq<char>| holds_key(rows, key), |key: Seq<char>| rows[row_of(rows, key)]@)
}

/// The map holds nothing.
pub open spec fn holds_none<V>(map: Map<Seq<char>, V>) -> bool {
    forall|key: Seq<char>| !map.contains_key(key)
}

/// The place of the row with the key, if there is one.
pub fn position<R: Keyed>(rows: &Vec<R>, key: &str) -> (found: Option<usize>)
    ensures
        match found {
            Some(i) => i < rows.len() && rows[i as int].key() == key@,
            None => !holds_key(rows@, key@),
        },
{
    let mut i: usize = 0;
    while i < rows.len()
        invariant
            i <= rows.len(),
            forall|j: int| 0 <= j < i ==> #[trigger] rows[j].key() != key@,
        decreases rows.len() - i,
    {
        if rows[i].has_key(key) {
            return Some(i);
        }
        i = i + 1;
    }
    None
}

/// Where keys are distinct, the entry under a row's key is that row.
pub proof fn lemma_entry_at<R: Keyed>(rows: Seq<R>, i: int)
    requires
        distinct_keys(rows),
        0 <= i < rows.len(),
    ensures
        entries(rows).contains_key(rows[i].key()),
        entries(rows)[rows[i].key()] == rows[i]@,
{
    let key = rows[i].key();
    assert(holds_key(rows, key));
    let j = row_of(rows, key);
    assert(0 <= j < rows.len() && rows[j].key() == key);
    assert(j == i);
}

/// Appending a row under a new key inserts its entry.
pub proof fn lemma_entries_push<R: Keyed>(rows: Seq<R>, row: R)
    requires
        distinct_keys(rows),
        !holds_key(rows, row.key()),
    ensures
        distinct_keys(rows.push(row)),
        entries(rows.push(row)) == entries(rows).insert(row.key(), row@),
{
    let after = rows.push(row);
    assert forall|i: int, j: int|
        0 <= i < after.len() && 0 <= j < after.len() && i != j implies #[trigger] after[i].key()
        != #[trigger] after[j].key() by {
        if i < rows.len() && j < rows.len() {
            assert(rows[i].key() != rows[j].key());
        } else if i < rows.len() {
            assert(rows[i].key() != row.key());
        } else {
            assert(rows[j].key() != row.key());
        }
    }
    assert forall|key: Seq<char>| holds_key(after, key) <==> (key == row.key() || holds_key(
        rows,
        key,
    )) by {
        if holds_key(after, key) {
            let i = choose|i: int| 0 <= i < after.len() && #[trigger] after[i].key() == key;
            if i < rows.len() {
                assert(rows[i].key() == key);
            }
        }
        if holds_key(rows, key) {
            let i = choose|i: int| 0 <= i < rows.len() && #[trigger] rows[i].key() == key;
            assert(after[i].key() == key);
        }
        if key == row.key() {
            assert(after[rows.len() as int].key() == key);
        }
    }
    assert forall|key: Seq<char>| holds_key(after, key) implies #[trigger] entries(after)[key]
        == entries(rows).insert(row.key(), row@)[key] by {
        let i = row_of(after, key);
        lemma_entry_at(after, i);
        if i < rows.len() {
            assert(rows[i].key() == key);
            lemma_entry_at(rows, i);
        }
    }
    assert(entries(after) =~= entries(rows).insert(row.key(), row@));
}

/// Replacing a row by one of the same key replaces its entry.
pub proof fn lemma_entries_update<R: Keyed>(rows: Seq<R>, i: int, row: R)
    requires
        distinct_keys(rows),
        0 <= i < rows.len(),
        row.key() == rows[i].key(),
    ensures
        distinct_keys(rows.update(i, row)),
        entries(rows.update(i, row)) == entries(rows).insert(row.key(), row@),
{
    let after = rows.update(i, row);
    assert forall|a: int, b: int|
        0 <= a < after.len() && 0 <= b < after.len() && a != b implies #[trigger] after[a].key()
        != #[trigger] after[b].key() by {
        assert(after[a].key() == rows[a].key());
        assert(after[b].key() == rows[b].key());
    }
    assert forall|key: Seq<char>| holds_key(after, key) <==> holds_key(rows, key) by {
        if holds_key(after, key) {
            let a = choose|a: int| 0 <= a < after.len() && #[trigger] after[a].key() == key;
            assert(rows[a].key() == key);
        }
        if holds_key(rows, key) {
            let a = choose|a: int| 0 <= a < rows.len() && #[trigger] rows[a].key() == key;
            assert(after[a].key() == key);
        }
    }
    assert(holds_key(rows, row.key()));
    assert forall|key: Seq<char>| holds_key(after, key) implies #[trigger] entries(after)[key]
        == entries(rows).insert(row.key(), row@)[key] by {
        let a = row_of(after, key);
        lemma_entry_at(after, a);
        if a != i {
            assert(rows[a].key() == key);
            lemma_entry_at(rows, a);
        }
    }
    assert(entries(after) =~= entries(rows).insert(row.key(), row@));
}

/// Where keys are distinct there are as many entries as rows.
pub proof fn lemma_entries_len<R: Keyed>(rows: Seq<R>)
    requires
        distinct_keys(rows),
    ensures
        entries(rows).dom().finite(),
        entries(rows).dom().len() == rows.len(),
    decreases rows.len(),
{
    if rows.len() == 0 {
        assert(entries(rows).dom() =~= Set::<Seq<char>>::empty());
    } else {
        let front = rows.drop_last();
        let last = rows.last();
        assert(rows =~= front.push(last));
        assert(distinct_keys(front)) by {
            assert forall|i: int, j: int|
                0 <= i < front.len() && 0 <= j < front.len() && i != j implies #[trigger] front[i].key()
                != #[trigger] front[j].key() by {
                assert(rows[i].key() != rows[j].key());
            }
        }
        assert(!holds_key(front, last.key())) by {
            if holds_key(front, last.key()) {
                let i = choose|i: int| 0 <= i < front.len() && #[trigger] front[i].key() == last.key();
                assert(rows[i].key() != rows[rows.len() - 1].key());
            }
        }
        lemma_entries_len(front);
        lemma_entries_push(front, last);
        assert(!entries(front).dom().contains(last.key()));
        assert(entries(rows).dom() =~= entries(front).dom().insert(last.key()));
    }
}

} // verus!
