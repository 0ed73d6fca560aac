use vstd::prelude::*;

verus! {

/// What is recorded for one account.
#[derive(Debug)]
pub struct Entry<V> {
    pub account_id: String,
    pub value: V,
}

/// `id` is listed at index `i`.
pub open spec fn listed_at<V>(entries: Seq<Entry<V>>, id: Seq<char>, i: int) -> bool {
    0 <= i < entries.len() && entries[i].account_id@ == id
}

/// No account is listed twice.
pub open spec fn distinct_ids<V>(entries: Seq<Entry<V>>) -> bool {
    forall|i: int, j: int|
        0 <= i < j < entries.len() ==> entries[i].account_id@ != entries[j].account_id@
}

/// What is recorded for `id`: the value it is listed with, or `absent` for
/// an account that is not listed.
pub open spec fn recorded<V>(entries: Seq<Entry<V>>, id: Seq<char>, absent: V) -> V {
    if exists|i: int| listed_at(entries, id, i) {
        entries[choose|i: int| listed_at(entries, id, i)].value
    } else {
        absent
    }
}

/// `after` is `before` with `entry` written at index `at`: in the place of
/// the entry of the same account, or at the end for an account that was not
/// listed.
pub open spec fn written<V>(
    before: Seq<Entry<V>>,
    after: Seq<Entry<V>>,
    entry: Entry<V>,
    at: int,
) -> bool {
    if at < before.len() {
        listed_at(before, entry.account_id@, at) && after == before.update(at, entry)
    } else {
        &&& at == before.len()
        &&& forall|j: int| !listed_at(before, entry.account_id@, j)
        &&& after == before.push(entry)
    }
}

/// An account that is listed, and only once, is recorded with the value
/// in its entry.
pub proof fn lemma_recorded_at<V>(entries: Seq<Entry<V>>, i: int, absent: V)
    requires
        distinct_ids(entries),
        0 <= i < entries.len(),
    ensures
        recorded(entries, entries[i].account_id@, absent) == entries[i].value,
{
    let id = entries[i].account_id@;
    assert(listed_at(entries, id, i));
    let j = choose|j: int| listed_at(entries, id, j);
    assert(listed_at(entries, id, j));
    assert(j == i);
}

/// Writing an entry keeps every account listed once, records the entry's
/// value for its account, and leaves what is recorded for any other account.
pub proof fn lemma_written<V>(
    before: Seq<Entry<V>>,
    after: Seq<Entry<V>>,
    entry: Entry<V>,
    at: int,
    absent: V,
)
    requires
        distinct_ids(before),
        written(before, after, entry, at),
    ensures
        distinct_ids(after),
        recorded(after, entry.account_id@, absent) == entry.value,
        forall|other: Seq<char>|
            other != entry.account_id@ ==> #[trigger] recorded(after, other, absent) == recorded(
                before,
                other,
                absent,
            ),
{
    let id = entry.account_id@;
    assert forall|a: int, b: int| 0 <= a < b < after.len() implies after[a].account_id@
        != after[b].account_id@ by {
        if b == before.len() {
            assert(!listed_at(before, id, a));
        } else {
            assert(after[a].account_id@ == before[a].account_id@);
            assert(after[b].account_id@ == before[b].account_id@);
        }
    }
    assert(listed_at(after, id, at));
    lemma_recorded_at(after, at, absent);
    assert forall|other: Seq<char>| other != id implies #[trigger] recorded(after, other, absent)
        == recorded(before, other, absent) by {
        if exists|i: int| listed_at(before, other, i) {
            let i = choose|i: int| listed_at(before, other, i);
            assert(listed_at(after, other, i));
            let j = choose|j: int| listed_at(after, other, j);
            assert(listed_at(before, other, j));
            assert(i == j);
        } else {
            if exists|j: int| listed_at(after, other, j) {
                let j = choose|j: int| listed_at(after, other, j);
                assert(listed_at(before, other, j));
            }
        }
    }
}

/// Where `id` is listed, if at all.
pub fn find<V>(entries: &Vec<Entry<V>>, id: &String) -> (r: Option<usize>)
    ensures
        match r {
            Some(i) => listed_at(entries@, id@, i as int),
            None => forall|j: int| !listed_at(entries@, id@, j),
        },
{
    let mut i: usize = 0;
    while i < entries.len()
        invariant
            i <= entries.len(),
            forall|j: int| 0 <= j < i ==> !listed_at(entries@, id@, j),
        decreases entries.len() - i,
    {
        if entries[i].account_id == *id {
            return Some(i);
        }
        i = i + 1;
    }
    None
}

/// Whether no account is listed twice.
pub fn all_distinct<V>(entries: &Vec<Entry<V>>) -> (b: bool)
    ensures
        b == distinct_ids(entries@),
{
    let mut j: usize = 0;
    while j < entries.len()
        invariant
            j <= entries.len(),
            forall|a: int, b: int|
                0 <= a < b < j ==> entries@[a].account_id@ != entries@[b].account_id@,
        decreases entries.len() - j,
    {
        let mut i: usize = 0;
        while i < j
            invariant
                i <= j < entries.len(),
                forall|a: int|
                    0 <= a < i ==> entries@[a].account_id@ != entries@[j as int].account_id@,
            decreases j - i,
        {
            if entries[i].account_id == entries[j].account_id {
                return false;
            }
            i = i + 1;
        }
        j = j + 1;
    }
    true
}

/// Records `value` for `id`: in the entry of `id`, or in a new entry at the
/// end. Returns the index of the entry.
pub fn put<V>(entries: &mut Vec<Entry<V>>, id: String, value: V) -> (at: usize)
    ensures
        written(old(entries)@, final(entries)@, Entry { account_id: id, value }, at as int),
{
    match find(entries, &id) {
        Some(i) => {
            entries.set(i, Entry { account_id: id, value });
            i
        },
        None => {
            entries.push(Entry { account_id: id, value });
            entries.len() - 1
        },
    }
}

} // verus!
