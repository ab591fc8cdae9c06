//! What the tag and task tables share: rows keyed by a unique id, whole-row
//! upsert, and selection by owner and synced-at.

use vstd::prelude::*;
use crate::db::scan::{first_index, lemma_first_index, lemma_first_index_is, lemma_first_index_none};
use crate::time::{passes, Timestamp};

verus! {

/// A row of a synchronised table.
pub trait Record: Sized {
    /// The id of the row: the merge key.
    spec fn key(&self) -> Seq<char>;

    /// The user who owns the row.
    spec fn owner(&self) -> Seq<char>;

    /// When the server last accepted a write of the row.
    spec fn synced(&self) -> Timestamp;

    /// The instant by which listings order the row.
    spec fn listed(&self) -> Timestamp;

    /// The stored row after `incoming` was written over it: id and owner stay,
    /// every other column is the incoming one.
    spec fn overwritten_by(&self, incoming: &Self) -> Self;

    proof fn lemma_overwritten_by(&self, incoming: &Self)
        ensures
            self.overwritten_by(incoming).key() == self.key(),
            self.overwritten_by(incoming).owner() == self.owner(),
            self.overwritten_by(incoming).synced() == incoming.synced(),
    ;

    fn has_key(&self, id: &str) -> (r: bool)
        ensures
            r == (self.key() == id@),
    ;

    fn has_owner(&self, user_id: &str) -> (r: bool)
        ensures
            r == (self.owner() == user_id@),
    ;

    fn owner_id(&self) -> (user_id: &str)
        ensures
            user_id@ == self.owner(),
    ;

    fn synced_at(&self) -> (t: Timestamp)
        ensures
            t == self.synced(),
    ;

    fn listed_at(&self) -> (t: Timestamp)
        ensures
            t == self.listed(),
    ;

    fn id(&self) -> (id: &str)
        ensures
            id@ == self.key(),
    ;

    fn overwrite(&self, incoming: &Self) -> (row: Self)
        ensures
            row == self.overwritten_by(incoming),
    ;

    fn duplicate(&self) -> (row: Self)
        ensures
            row == *self,
    ;
}

/// No two rows share an id.
pub open spec fn keys_unique<R: Record>(rows: Seq<R>) -> bool {
    forall|i: int, j: int| 0 <= i < j < rows.len() ==> rows[i].key() != rows[j].key()
}

/// The condition of having the id `key`.
pub open spec fn keyed<R: Record>(key: Seq<char>) -> spec_fn(R) -> bool {
    |row: R| row.key() == key
}

/// The index of the first row with id `key`.
pub open spec fn position<R: Record>(rows: Seq<R>, key: Seq<char>) -> Option<int> {
    first_index(rows, keyed(key))
}

/// The table after one record was upserted: written over the row with its
/// id where the record's owner owns that row, appended where no row has the
/// id. A record under the id of a row of another owner changes nothing.
pub open spec fn upsert_one<R: Record>(rows: Seq<R>, record: R) -> Seq<R> {
    match position(rows, record.key()) {
        Some(i) if rows[i].owner() == record.owner() => rows.update(i, rows[i].overwritten_by(&record)),
        Some(_) => rows,
        None => rows.push(record),
    }
}

/// Whether the table takes `record` when it is upserted: the record's id is
/// free, or it is the id of a row of the record's owner.
pub open spec fn admits<R: Record>(rows: Seq<R>, record: R) -> bool {
    match position(rows, record.key()) {
        Some(i) => rows[i].owner() == record.owner(),
        None => true,
    }
}

/// The table after a batch was upserted, record by record in the batch's order.
pub open spec fn upsert_all<R: Record>(rows: Seq<R>, batch: Seq<R>) -> Seq<R>
    decreases batch.len(),
{
    if batch.len() == 0 {
        rows
    } else {
        upsert_one(upsert_all(rows, batch.drop_last()), batch.last())
    }
}

/// The condition of belonging to `user_id` and passing the bound `cutoff`.
pub open spec fn wanted<R: Record>(user_id: Seq<char>, cutoff: Option<Timestamp>) -> spec_fn(R) -> bool {
    |row: R| row.owner() == user_id && passes(row.synced(), cutoff)
}

/// The rows of `user_id` that pass the bound `cutoff`, in table order.
pub open spec fn selected<R: Record>(rows: Seq<R>, user_id: Seq<char>, cutoff: Option<Timestamp>) -> Seq<R> {
    rows.filter(wanted(user_id, cutoff))
}

/// `position` finds the first row with the id, and finds none only where no
/// row has it.
pub proof fn lemma_position<R: Record>(rows: Seq<R>, key: Seq<char>)
    ensures
        match position(rows, key) {
            Some(i) => 0 <= i < rows.len() && rows[i].key() == key && forall|k: int|
                0 <= k < i ==> rows[k].key() != key,
            None => forall|k: int| 0 <= k < rows.len() ==> rows[k].key() != key,
        },
{
    lemma_first_index(rows, keyed::<R>(key));
}

/// An upsert leaves the ids unique.
pub proof fn lemma_upsert_one_keeps_unique<R: Record>(rows: Seq<R>, record: R)
    requires
        keys_unique(rows),
    ensures
        keys_unique(upsert_one(rows, record)),
{
    lemma_position(rows, record.key());
    match position(rows, record.key()) {
        Some(i) => {
            rows[i].lemma_overwritten_by(&record);
        },
        None => {},
    }
}

/// A batch of upserts leaves the ids unique.
pub proof fn lemma_upsert_all_keeps_unique<R: Record>(rows: Seq<R>, batch: Seq<R>)
    requires
        keys_unique(rows),
    ensures
        keys_unique(upsert_all(rows, batch)),
    decreases batch.len(),
{
    if batch.len() > 0 {
        lemma_upsert_all_keeps_unique(rows, batch.drop_last());
        lemma_upsert_one_keeps_unique(upsert_all(rows, batch.drop_last()), batch.last());
    }
}

/// What one upsert leaves alone: the table does not shrink, every row keeps
/// its id and its owner, and a row with another id or another owner keeps
/// all its columns. A row that is appended is the record itself.
pub proof fn lemma_upsert_one_frame<R: Record>(rows: Seq<R>, record: R)
    ensures
        rows.len() <= upsert_one(rows, record).len() <= rows.len() + 1,
        forall|i: int|
            0 <= i < rows.len() ==> {
                &&& (#[trigger] upsert_one(rows, record)[i]).key() == rows[i].key()
                &&& upsert_one(rows, record)[i].owner() == rows[i].owner()
                &&& rows[i].key() != record.key() || rows[i].owner() != record.owner() ==> upsert_one(
                    rows,
                    record,
                )[i] == rows[i]
            },
        forall|i: int|
            rows.len() <= i < upsert_one(rows, record).len() ==> #[trigger] upsert_one(rows, record)[i]
                == record,
{
    lemma_position(rows, record.key());
    match position(rows, record.key()) {
        Some(k) => {
            rows[k].lemma_overwritten_by(&record);
        },
        None => {},
    }
}

/// Whether `record` is written over `row` when it is upserted: it has the
/// row's id and the row's owner.
pub open spec fn reaches<R: Record>(record: R, row: R) -> bool {
    record.key() == row.key() && record.owner() == row.owner()
}

/// What a batch of upserts leaves alone: the table does not shrink, every
/// row keeps its id and its owner, and a row that no record of the batch
/// reaches keeps all its columns. A row that is appended has the id and the
/// owner of a record of the batch.
pub proof fn lemma_upsert_all_frame<R: Record>(rows: Seq<R>, batch: Seq<R>)
    ensures
        rows.len() <= upsert_all(rows, batch).len(),
        forall|i: int|
            0 <= i < rows.len() ==> {
                &&& (#[trigger] upsert_all(rows, batch)[i]).key() == rows[i].key()
                &&& upsert_all(rows, batch)[i].owner() == rows[i].owner()
                &&& (forall|b: int| 0 <= b < batch.len() ==> !reaches(#[trigger] batch[b], rows[i]))
                    ==> upsert_all(rows, batch)[i] == rows[i]
            },
        forall|i: int|
            rows.len() <= i < upsert_all(rows, batch).len() ==> exists|b: int|
                0 <= b < batch.len() && (#[trigger] batch[b]).key() == (#[trigger] upsert_all(
                    rows,
                    batch,
                )[i]).key() && batch[b].owner() == upsert_all(rows, batch)[i].owner(),
    decreases batch.len(),
{
    if batch.len() > 0 {
        let front = batch.drop_last();
        let mid = upsert_all(rows, front);
        let all = upsert_all(rows, batch);
        lemma_upsert_all_frame(rows, front);
        lemma_upsert_one_frame(mid, batch.last());
        assert(forall|b: int| 0 <= b < front.len() ==> front[b] == batch[b]);
        assert forall|i: int| 0 <= i < rows.len() implies {
            &&& (#[trigger] all[i]).key() == rows[i].key()
            &&& all[i].owner() == rows[i].owner()
            &&& (forall|b: int| 0 <= b < batch.len() ==> !reaches(#[trigger] batch[b], rows[i])) ==> all[i]
                == rows[i]
        } by {
            assert(all[i].key() == mid[i].key());
            assert(all[i].owner() == mid[i].owner());
            if forall|b: int| 0 <= b < batch.len() ==> !reaches(#[trigger] batch[b], rows[i]) {
                assert forall|b: int| 0 <= b < front.len() implies !reaches(#[trigger] front[b], rows[i]) by {
                    assert(front[b] == batch[b]);
                }
                assert(!reaches(batch[batch.len() - 1], rows[i]));
                assert(mid[i] == rows[i]);
            }
        }
        assert forall|i: int| rows.len() <= i < all.len() implies exists|b: int|
            0 <= b < batch.len() && (#[trigger] batch[b]).key() == (#[trigger] all[i]).key()
                && batch[b].owner() == all[i].owner() by {
            if i < mid.len() {
                assert(all[i].key() == mid[i].key());
                assert(all[i].owner() == mid[i].owner());
                let b = choose|b: int|
                    0 <= b < front.len() && (#[trigger] front[b]).key() == mid[i].key() && front[b].owner()
                        == mid[i].owner();
                assert(front[b] == batch[b]);
            } else {
                assert(all[i] == batch[batch.len() - 1]);
            }
        }
    }
}

/// Every selected row is a row of the table that belongs to the user and
/// passes the bound, and every such row of the table is selected.
pub proof fn lemma_selected<R: Record>(rows: Seq<R>, user_id: Seq<char>, cutoff: Option<Timestamp>)
    ensures
        forall|i: int|
            0 <= i < selected(rows, user_id, cutoff).len() ==> {
                &&& (#[trigger] selected(rows, user_id, cutoff)[i]).owner() == user_id
                &&& passes(selected(rows, user_id, cutoff)[i].synced(), cutoff)
                &&& rows.contains(selected(rows, user_id, cutoff)[i])
            },
        forall|i: int|
            0 <= i < rows.len() && (#[trigger] rows[i]).owner() == user_id && passes(rows[i].synced(), cutoff)
                ==> selected(rows, user_id, cutoff).contains(rows[i]),
{
    let out = selected(rows, user_id, cutoff);
    assert forall|i: int| 0 <= i < out.len() implies {
        &&& (#[trigger] out[i]).owner() == user_id
        &&& passes(out[i].synced(), cutoff)
        &&& rows.contains(out[i])
    } by {
        rows.lemma_filter_pred(wanted(user_id, cutoff), i);
        assert(out.contains(out[i]));
        rows.lemma_filter_contains_rev(wanted(user_id, cutoff), out[i]);
    }
    assert forall|i: int|
        0 <= i < rows.len() && (#[trigger] rows[i]).owner() == user_id && passes(
            rows[i].synced(),
            cutoff,
        ) implies out.contains(rows[i]) by {
        rows.lemma_filter_contains(wanted(user_id, cutoff), i);
    }
}

/// Two conditions that agree on every element of a sequence pick the same
/// elements of it.
pub proof fn lemma_filter_agrees<T>(rows: Seq<T>, one: spec_fn(T) -> bool, other: spec_fn(T) -> bool)
    requires
        forall|i: int| 0 <= i < rows.len() ==> one(#[trigger] rows[i]) == other(rows[i]),
    ensures
        rows.filter(one) == rows.filter(other),
    decreases rows.len(),
{
    reveal(Seq::filter);
    if rows.len() > 0 {
        let front = rows.drop_last();
        assert(forall|i: int| 0 <= i < front.len() ==> front[i] == rows[i]);
        lemma_filter_agrees(front, one, other);
        assert(one(rows[rows.len() - 1]) == other(rows[rows.len() - 1]));
    }
}

/// Looks for the row with the given id.
pub fn find<R: Record>(rows: &Vec<R>, id: &str) -> (at: Option<usize>)
    ensures
        match at {
            Some(i) => position(rows@, id@) == Some(i as int),
            None => position(rows@, id@) is None,
        },
{
    let mut i: usize = 0;
    while i < rows.len()
        invariant
            i <= rows.len(),
            forall|k: int| 0 <= k < i ==> rows@[k].key() != id@,
        decreases rows.len() - i,
    {
        if rows[i].has_key(id) {
            proof {
                lemma_first_index_is(rows@, keyed::<R>(id@), i as int);
            }
            return Some(i);
        }
        i += 1;
    }
    proof {
        lemma_first_index_none(rows@, keyed::<R>(id@));
    }
    None
}

/// Upserts every record of `batch`, in order. A record under the id of a
/// row of another owner is passed over.
pub fn upsert_many<R: Record>(rows: &mut Vec<R>, batch: &Vec<R>)
    ensures
        final(rows)@ == upsert_all(old(rows)@, batch@),
{
    let mut i: usize = 0;
    while i < batch.len()
        invariant
            i <= batch.len(),
            rows@ == upsert_all(old(rows)@, batch@.take(i as int)),
        decreases batch.len() - i,
    {
        proof {
            assert(batch@.take(i as int + 1).drop_last() =~= batch@.take(i as int));
            lemma_position(rows@, batch@[i as int].key());
        }
        let record = batch[i].duplicate();
        match find(rows, record.id()) {
            Some(k) => {
                if rows[k].has_owner(record.owner_id()) {
                    let row = rows[k].overwrite(&record);
                    rows.set(k, row);
                }
            },
            None => {
                rows.push(record);
            },
        }
        i += 1;
    }
    proof {
        assert(batch@.take(batch.len() as int) =~= batch@);
    }
}

/// The row with id `key`, where `user_id` owns it.
pub open spec fn owned_row<R: Record>(rows: Seq<R>, user_id: Seq<char>, key: Seq<char>) -> Option<R> {
    match position(rows, key) {
        Some(i) if rows[i].owner() == user_id => Some(rows[i]),
        _ => None,
    }
}

/// The table after a plain insert: the record is appended where its id is
/// new, and refused where a row has it.
pub open spec fn inserted<R: Record>(rows: Seq<R>, record: R) -> Seq<R> {
    if position(rows, record.key()) is None {
        rows.push(record)
    } else {
        rows
    }
}

/// The table after an update by the record's owner: the row with its id is
/// written over where that user owns it, and nothing changes otherwise.
pub open spec fn updated<R: Record>(rows: Seq<R>, record: R) -> Seq<R> {
    match position(rows, record.key()) {
        Some(i) if rows[i].owner() == record.owner() => rows.update(
            i,
            rows[i].overwritten_by(&record),
        ),
        _ => rows,
    }
}

/// A plain insert leaves the ids unique.
pub proof fn lemma_inserted_keeps_unique<R: Record>(rows: Seq<R>, record: R)
    requires
        keys_unique(rows),
    ensures
        keys_unique(inserted(rows, record)),
{
    lemma_position(rows, record.key());
}

/// An update leaves the ids unique.
pub proof fn lemma_updated_keeps_unique<R: Record>(rows: Seq<R>, record: R)
    requires
        keys_unique(rows),
    ensures
        keys_unique(updated(rows, record)),
{
    lemma_position(rows, record.key());
    match position(rows, record.key()) {
        Some(i) => {
            rows[i].lemma_overwritten_by(&record);
        },
        None => {},
    }
}

/// Looks up the row with the given id for its owner.
pub fn get_owned<R: Record>(rows: &Vec<R>, user_id: &str, id: &str) -> (row: Option<R>)
    ensures
        row == owned_row(rows@, user_id@, id@),
{
    proof {
        lemma_position(rows@, id@);
    }
    match find(rows, id) {
        Some(i) => if rows[i].has_owner(user_id) {
            Some(rows[i].duplicate())
        } else {
            None
        },
        None => None,
    }
}

/// Appends a record whose id is new; says whether it did.
pub fn insert_new<R: Record>(rows: &mut Vec<R>, record: R) -> (done: bool)
    ensures
        final(rows)@ == inserted(old(rows)@, record),
        done == (position(old(rows)@, record.key()) is None),
{
    match find(rows, record.id()) {
        Some(_) => false,
        None => {
            rows.push(record);
            true
        },
    }
}

/// Writes a record over the row with its id, where the record's owner owns
/// that row; says whether it did.
pub fn update_owned<R: Record>(rows: &mut Vec<R>, record: &R) -> (done: bool)
    ensures
        final(rows)@ == updated(old(rows)@, *record),
        done == (owned_row(old(rows)@, record.owner(), record.key()) is Some),
{
    proof {
        lemma_position(rows@, record.key());
    }
    match find(rows, record.id()) {
        Some(i) => if rows[i].has_owner(record.owner_id()) {
            let row = rows[i].overwrite(record);
            rows.set(i, row);
            true
        } else {
            false
        },
        None => false,
    }
}

/// The condition of being listed earlier than `at`.
pub open spec fn older_than<R: Record>(at: Timestamp) -> spec_fn(R) -> bool {
    |row: R| row.listed().at() < at.at()
}

/// Where `row` goes in a listing: before the first row that is older.
pub open spec fn slot<R: Record>(listing: Seq<R>, row: R) -> int {
    match first_index(listing, older_than(row.listed())) {
        Some(k) => k,
        None => listing.len() as int,
    }
}

/// A listing with `row` put in its place.
pub open spec fn placed<R: Record>(listing: Seq<R>, row: R) -> Seq<R> {
    listing.insert(slot(listing, row), row)
}

/// The rows from newest to oldest; rows of the same instant keep their order.
pub open spec fn newest_first<R: Record>(rows: Seq<R>) -> Seq<R>
    decreases rows.len(),
{
    if rows.len() == 0 {
        rows
    } else {
        placed(newest_first(rows.drop_last()), rows.last())
    }
}

/// No row stands before a newer one.
pub open spec fn is_newest_first<R: Record>(rows: Seq<R>) -> bool {
    forall|i: int, j: int| 0 <= i < j < rows.len() ==> rows[i].listed().at() >= rows[j].listed().at()
}

/// Putting a row in its place keeps a listing ordered, and adds that row and
/// nothing else.
pub proof fn lemma_placed<R: Record>(listing: Seq<R>, row: R)
    requires
        is_newest_first(listing),
    ensures
        is_newest_first(placed(listing, row)),
        placed(listing, row).len() == listing.len() + 1,
        placed(listing, row).to_multiset() == listing.to_multiset().insert(row),
        0 <= slot(listing, row) <= listing.len(),
{
    lemma_first_index(listing, older_than::<R>(row.listed()));
    let k = slot(listing, row);
    let out = placed(listing, row);
    listing.insert_ensures(k, row);
    vstd::seq_lib::to_multiset_insert(listing, k, row);
    assert forall|i: int, j: int| 0 <= i < j < out.len() implies out[i].listed().at() >= out[j].listed().at() by {
        if i < k {
            assert(out[i] == listing[i]);
            assert(!older_than::<R>(row.listed())(listing[i]));
        }
        if j > k {
            assert(out[j] == listing[j - 1]);
            if k < listing.len() {
                assert(older_than::<R>(row.listed())(listing[k]));
            }
        }
    }
}

/// Listing newest first orders the rows and neither drops nor adds one.
pub proof fn lemma_newest_first<R: Record>(rows: Seq<R>)
    ensures
        is_newest_first(newest_first(rows)),
        newest_first(rows).len() == rows.len(),
        newest_first(rows).to_multiset() == rows.to_multiset(),
    decreases rows.len(),
{
    if rows.len() > 0 {
        let front = rows.drop_last();
        lemma_newest_first(front);
        lemma_placed(newest_first(front), rows.last());
        assert(rows =~= front.push(rows.last()));
        vstd::seq_lib::to_multiset_build(front, rows.last());
    }
}

/// Lists the rows from newest to oldest.
pub fn sort_newest_first<R: Record>(rows: &Vec<R>) -> (out: Vec<R>)
    ensures
        out@ == newest_first(rows@),
{
    let mut out: Vec<R> = Vec::new();
    let mut i: usize = 0;
    while i < rows.len()
        invariant
            i <= rows.len(),
            out@ == newest_first(rows@.take(i as int)),
        decreases rows.len() - i,
    {
        proof {
            assert(rows@.take(i as int + 1).drop_last() =~= rows@.take(i as int));
        }
        let row = rows[i].duplicate();
        let at = row.listed_at();
        let mut k: usize = 0;
        while k < out.len() && !(out[k].listed_at().micros < at.micros)
            invariant
                k <= out.len(),
                at == row.listed(),
                forall|j: int| 0 <= j < k ==> !older_than::<R>(at)(out@[j]),
            decreases out.len() - k,
        {
            k += 1;
        }
        proof {
            if k < out.len() {
                lemma_first_index_is(out@, older_than::<R>(at), k as int);
            } else {
                lemma_first_index_none(out@, older_than::<R>(at));
            }
        }
        out.insert(k, row);
        i += 1;
    }
    proof {
        assert(rows@.take(rows.len() as int) =~= rows@);
    }
    out
}

/// Copies a table.
pub fn copy_rows<R: Record>(rows: &Vec<R>) -> (out: Vec<R>)
    ensures
        out@ == rows@,
{
    let mut out: Vec<R> = Vec::new();
    let mut i: usize = 0;
    while i < rows.len()
        invariant
            i <= rows.len(),
            out@ == rows@.take(i as int),
        decreases rows.len() - i,
    {
        out.push(rows[i].duplicate());
        assert(out@ =~= rows@.take(i as int + 1));
        i += 1;
    }
    assert(rows@.take(rows.len() as int) =~= rows@);
    out
}

/// Copies out the rows of `user_id` that pass `cutoff`.
pub fn select_since<R: Record>(rows: &Vec<R>, user_id: &str, cutoff: Option<Timestamp>) -> (out: Vec<R>)
    ensures
        out@ == selected(rows@, user_id@, cutoff),
{
    let mut out: Vec<R> = Vec::new();
    let mut i: usize = 0;
    while i < rows.len()
        invariant
            i <= rows.len(),
            out@ == selected(rows@.take(i as int), user_id@, cutoff),
        decreases rows.len() - i,
    {
        proof {
            assert(rows@.take(i as int + 1) =~= rows@.take(i as int).push(rows@[i as int]));
            rows@.take(i as int).lemma_filter_push(rows@[i as int], wanted(user_id@, cutoff));
        }
        if rows[i].has_owner(user_id) && rows[i].synced_at().passes_cutoff(cutoff) {
            out.push(rows[i].duplicate());
        }
        i += 1;
    }
    proof {
        assert(rows@.take(rows.len() as int) =~= rows@);
    }
    out
}

} // verus!
