//! The single catch-all group of the default strategy: an ordered membership
//! list of rows, tracked by id, together with the laws of that membership.

use vstd::prelude::*;

use crate::entities::{Row, row_ids};

verus! {

/// A named bucket of rows produced by a grouping strategy for a given field.
///
/// Membership is an ordered list; a row id may in principle occur more than
/// once, since adding performs no deduplication.
pub struct GroupData {
    /// The group's identifier.
    pub id: String,
    /// The id of the field driving the grouping.
    pub field_id: String,
    /// Whether the group is shown in the view.
    pub is_visible: bool,
    /// The member rows, in insertion order.
    pub rows: Vec<Row>,
}

/// Two groups agree on identity and on membership (by value).
pub open spec fn group_eq(a: GroupData, b: GroupData) -> bool {
    &&& a.id@ == b.id@
    &&& a.field_id@ == b.field_id@
    &&& a.is_visible == b.is_visible
    &&& a.rows@ == b.rows@
}

impl GroupData {
    /// The membership model: the member rows' ids, in order.
    pub open spec fn row_id_seq(&self) -> Seq<Seq<char>> {
        row_ids(self.rows@)
    }

    /// The group's identity (everything but membership) as a single value.
    pub open spec fn identity(&self) -> (Seq<char>, Seq<char>, bool) {
        (self.id@, self.field_id@, self.is_visible)
    }

    /// Builds an empty group.
    pub fn new(id: String, field_id: String, is_visible: bool) -> (r: GroupData)
        ensures
            r.id@ == id@,
            r.field_id@ == field_id@,
            r.is_visible == is_visible,
            r.rows@ == Seq::<Row>::empty(),
    {
        GroupData { id, field_id, is_visible, rows: Vec::new() }
    }

    /// Appends a row to the membership list.
    pub fn add_row(&mut self, row: Row)
        ensures
            final(self).rows@ == old(self).rows@.push(row),
            final(self).identity() == old(self).identity(),
    {
        self.rows.push(row);
    }

    /// Whether a row with the given id is currently a member.
    pub fn contains_row(&self, row_id: &String) -> (r: bool)
        ensures
            r == self.row_id_seq().contains(row_id@),
    {
        let n = self.rows.len();
        let mut i: usize = 0;
        while i < n
            invariant
                n == self.rows@.len(),
                0 <= i <= n,
                forall|j: int| 0 <= j < i ==> self.row_id_seq()[j] != row_id@,
            decreases n - i,
        {
            if self.rows[i].id == *row_id {
                assert(self.row_id_seq()[i as int] == row_id@);
                return true;
            }
            i += 1;
        }
        false
    }

    /// Removes the first member with the given id, if any; a member occurring
    /// more than once loses only its first occurrence.
    pub fn remove_row(&mut self, row_id: &String)
        ensures
            final(self).identity() == old(self).identity(),
            match old(self).row_id_seq().index_of_first(row_id@) {
                Some(k) => final(self).rows@ == old(self).rows@.remove(k),
                None => *final(self) == *old(self),
            },
    {
        let n = self.rows.len();
        let mut i: usize = 0;
        while i < n
            invariant
                *self == *old(self),
                n == self.rows@.len(),
                0 <= i <= n,
                forall|j: int| 0 <= j < i ==> old(self).row_id_seq()[j] != row_id@,
            decreases n - i,
        {
            if self.rows[i].id == *row_id {
                proof {
                    let ids = old(self).row_id_seq();
                    ids.index_of_first_ensures(row_id@);
                    assert(ids[i as int] == row_id@);
                    assert(ids.index_of_first(row_id@) == Some(i as int));
                }
                self.rows.remove(i);
                return ;
            }
            i += 1;
        }
        proof {
            let ids = old(self).row_id_seq();
            ids.index_of_first_ensures(row_id@);
            assert(forall|j: int| 0 <= j < ids.len() ==> ids[j] != row_id@);
            assert(!ids.contains(row_id@));
        }
    }
}

impl Clone for GroupData {
    /// Clones the group; the copy agrees with the original on identity and
    /// membership.
    fn clone(&self) -> (r: Self)
        ensures
            group_eq(r, *self),
    {
        let n = self.rows.len();
        let mut rows: Vec<Row> = Vec::new();
        let mut i: usize = 0;
        while i < n
            invariant
                n == self.rows@.len(),
                0 <= i <= n,
                rows@ == self.rows@.subrange(0, i as int),
            decreases n - i,
        {
            rows.push(self.rows[i].clone());
            proof {
                assert(rows@ =~= self.rows@.subrange(0, i + 1));
            }
            i += 1;
        }
        proof {
            assert(rows@ =~= self.rows@);
        }
        GroupData {
            id: self.id.clone(),
            field_id: self.field_id.clone(),
            is_visible: self.is_visible,
            rows,
        }
    }
}

/// The membership that results from adding the row batches `batches`, in
/// order, to a group whose membership starts as `init`. Each initialization
/// and each bulk fill of a group is one such batch: both append their rows
/// at the end, in the order received.
pub open spec fn after_fills<T>(init: Seq<T>, batches: Seq<Seq<T>>) -> Seq<T>
    decreases batches.len(),
{
    if batches.len() == 0 {
        init
    } else {
        after_fills(init + batches[0], batches.drop_first())
    }
}

/// All batches, concatenated in order.
pub open spec fn concat_batches<T>(batches: Seq<Seq<T>>) -> Seq<T>
    decreases batches.len(),
{
    if batches.len() == 0 {
        Seq::<T>::empty()
    } else {
        batches[0] + concat_batches(batches.drop_first())
    }
}

/// Filling accumulates: the membership after the batches is the starting
/// membership followed by every batch, in order.
pub proof fn lemma_after_fills_appends<T>(init: Seq<T>, batches: Seq<Seq<T>>)
    ensures
        after_fills(init, batches) == init + concat_batches(batches),
    decreases batches.len(),
{
    if batches.len() == 0 {
        assert(init + Seq::<T>::empty() =~= init);
    } else {
        lemma_after_fills_appends(init + batches[0], batches.drop_first());
        assert((init + batches[0]) + concat_batches(batches.drop_first()) =~= init + (batches[0]
            + concat_batches(batches.drop_first())));
    }
}

/// Law: over any sequence of row batches added by initialization or bulk
/// fill, a group that started empty holds exactly the rows added, in
/// insertion order — the concatenation of the batches.
pub proof fn lemma_membership_is_rows_added<T>(batches: Seq<Seq<T>>)
    ensures
        after_fills(Seq::<T>::empty(), batches) == concat_batches(batches),
{
    lemma_after_fills_appends(Seq::<T>::empty(), batches);
    assert(Seq::<T>::empty() + concat_batches(batches) =~= concat_batches(batches));
}

/// Law: deleting a row is idempotent when its id occurs at most once.
/// Removing the sole occurrence of `id` from a membership list leaves a list
/// in which `id` no longer occurs, so a second delete of the same id finds
/// nothing, changes nothing, and reports nothing.
///
/// The at-most-once premise is needed: a membership list that holds the same
/// id twice (adding performs no deduplication) still contains the id after
/// one removal.
pub proof fn lemma_delete_idempotent(ids: Seq<Seq<char>>, id: Seq<char>)
    requires
        ids.index_of_first(id) is Some,
        forall|i: int, j: int|
            0 <= i < ids.len() && 0 <= j < ids.len() && ids[i] == id && ids[j] == id ==> i == j,
    ensures
        !ids.remove(ids.index_of_first(id)->Some_0).contains(id),
{
    ids.index_of_first_ensures(id);
    let k = ids.index_of_first(id)->Some_0;
    ids.remove_ensures(k);
    let removed = ids.remove(k);
    assert forall|m: int| 0 <= m < removed.len() implies removed[m] != id by {
        if m < k {
            assert(removed[m] == ids[m]);
        } else {
            assert(removed[m] == ids[m + 1]);
        }
    }
}

} // verus!
