//! The default grouping strategy: every row of the view lives in one
//! catch-all group with a fixed synthetic id, and all group-management
//! operations are exact no-ops.
//!
//! The strategy exists so that a field type without a dedicated grouping
//! strategy can still be driven through the shared grouping-controller
//! interface; it reads nothing of the field's data.

use vstd::prelude::*;

use crate::entities::{
    Cells, Field, GroupChangeset, GroupPB, GroupRowsNotificationPB, InsertedGroupPB, InsertedRowPB,
    MoveGroupRowContext, Row, TypeOptionData,
};
use crate::error::{FlowyError, FlowyResult};
use crate::group::{GroupData, group_eq};

verus! {

/// The outcome of a row update, as handed back to the grouping coordinator.
pub struct DidUpdateGroupRowResult {
    pub inserted_group: Option<InsertedGroupPB>,
    pub deleted_group: Option<GroupPB>,
    pub row_changesets: Vec<GroupRowsNotificationPB>,
}

/// The outcome of a row deletion or move, as handed back to the grouping
/// coordinator.
pub struct DidMoveGroupRowResult {
    pub deleted_group: Option<GroupPB>,
    pub row_changesets: Vec<GroupRowsNotificationPB>,
}

/// The row store consulted by a controller: it can fetch all rows of a view.
/// Implementations live with the caller; fetching may fail, and the
/// controller propagates that failure.
pub trait GroupControllerDelegate {
    fn get_all_rows(&self, view_id: &String) -> FlowyResult<Vec<Row>>;
}

/// A grouping controller for field types without a dedicated strategy. It
/// keeps exactly one group, which holds every row of the view.
pub struct DefaultGroupController<D: GroupControllerDelegate> {
    pub view_id: String,
    pub field_id: String,
    pub group: GroupData,
    pub delegate: D,
}

impl<D: GroupControllerDelegate> DefaultGroupController<D> {
    /// Everything but the group's membership list is unchanged.
    pub open spec fn identity_unchanged(&self, other: &Self) -> bool {
        &&& self.view_id@ == other.view_id@
        &&& self.field_id@ == other.field_id@
        &&& self.group.identity() == other.group.identity()
        &&& self.delegate == other.delegate
    }

    /// Builds a controller for the given view and field, with one visible,
    /// still empty group under the fixed synthetic id, consulting the given
    /// row store.
    pub fn new(view_id: &str, field: &Field, delegate: D) -> (r: Self)
        ensures
            r.view_id@ == view_id@,
            r.field_id@ == field.id@,
            r.group.id@ == "DefaultGroupController"@,
            r.group.field_id@ == field.id@,
            r.group.is_visible == true,
            r.group.rows@ == Seq::<Row>::empty(),
            r.delegate == delegate,
    {
        let group = GroupData::new("DefaultGroupController".to_owned(), field.id.clone(), true);
        DefaultGroupController { view_id: view_id.to_owned(), field_id: field.id.clone(), group, delegate }
    }

    /// Appends the given rows to the group, in order.
    fn add_rows(&mut self, rows: &Vec<Row>)
        ensures
            final(self).identity_unchanged(old(self)),
            final(self).group.rows@ == old(self).group.rows@ + rows@,
    {
        let n = rows.len();
        let mut i: usize = 0;
        while i < n
            invariant
                n == rows@.len(),
                0 <= i <= n,
                self.identity_unchanged(old(self)),
                self.group.rows@ == old(self).group.rows@ + rows@.subrange(0, i as int),
            decreases n - i,
        {
            self.group.add_row(rows[i].clone());
            proof {
                assert(old(self).group.rows@ + rows@.subrange(0, i as int + 1) =~= (old(
                    self,
                ).group.rows@ + rows@.subrange(0, i as int)).push(rows@[i as int]));
            }
            i += 1;
        }
        proof {
            assert(rows@.subrange(0, n as int) =~= rows@);
        }
    }

    /// Fetches all rows of the owning view from the delegate and adds every
    /// fetched row to the group, in the order received. Fails only by
    /// propagating the delegate's failure, in which case nothing changes.
    ///
    /// Calling this more than once duplicates membership: nothing here
    /// deduplicates.
    pub fn load_group_data(&mut self) -> (r: FlowyResult<()>)
        ensures
            final(self).identity_unchanged(old(self)),
            r is Ok ==> old(self).group.rows@.is_prefix_of(final(self).group.rows@),
            r is Err ==> *final(self) == *old(self),
    {
        let view_id = self.view_id.clone();
        let rows = match self.delegate.get_all_rows(&view_id) {
            Ok(rows) => rows,
            Err(e) => {
                return Err(e);
            },
        };
        self.add_rows(&rows);
        Ok(())
    }

    /// The id of the field driving the strategy.
    pub fn get_grouping_field_id(&self) -> (r: &str)
        ensures
            r@ == self.field_id@,
    {
        self.field_id.as_str()
    }

    /// The controller's groups: always exactly its single group.
    pub fn get_all_groups(&self) -> (r: Vec<&GroupData>)
        ensures
            r@.len() == 1,
            r@[0] == &self.group,
    {
        let mut groups: Vec<&GroupData> = Vec::new();
        groups.push(&self.group);
        groups
    }

    /// Looks a group up by id. Whatever id is asked for, matching or not,
    /// the answer is the single group at index 0.
    pub fn get_group(&self, _group_id: &str) -> (r: Option<(usize, GroupData)>)
        ensures
            r is Some,
            r->Some_0.0 == 0usize,
            group_eq(r->Some_0.1, self.group),
    {
        Some((0, self.group.clone()))
    }

    /// Adds the supplied rows to the single group, in order; the field is
    /// ignored, since the default strategy is data-type-agnostic. Never
    /// fails.
    pub fn fill_groups(&mut self, rows: &Vec<Row>, _field: &Field) -> (r: FlowyResult<()>)
        ensures
            final(self).identity_unchanged(old(self)),
            final(self).group.rows@ == old(self).group.rows@ + rows@,
            r is Ok,
    {
        self.add_rows(rows);
        Ok(())
    }

    /// No-op: the single group is fixed, so no group can be created. Returns
    /// neutral results and changes nothing.
    pub fn create_group(&mut self, _name: String) -> (r: FlowyResult<
        (Option<TypeOptionData>, Option<InsertedGroupPB>),
    >)
        ensures
            *final(self) == *old(self),
            r is Ok,
            r->Ok_0.0 is None,
            r->Ok_0.1 is None,
    {
        Ok((None, None))
    }

    /// No-op: with a single group there is nothing to move. Changes nothing.
    pub fn move_group(&mut self, _from_group_id: &str, _to_group_id: &str) -> (r: FlowyResult<()>)
        ensures
            *final(self) == *old(self),
            r is Ok,
    {
        Ok(())
    }

    /// Adds the newly created row to the single group and reports exactly one
    /// insertion: the row at the given index, flagged new and visible.
    pub fn did_create_row(&mut self, row: &Row, index: usize) -> (r: Vec<GroupRowsNotificationPB>)
        requires
            index <= i32::MAX,
        ensures
            final(self).identity_unchanged(old(self)),
            final(self).group.rows@ == old(self).group.rows@.push(*row),
            r@.len() == 1,
            r@[0].group_id@ == old(self).group.id@,
            r@[0].deleted_rows@.len() == 0,
            r@[0].inserted_rows@.len() == 1,
            r@[0].inserted_rows@[0].row_id@ == row.id@,
            r@[0].inserted_rows@[0].index == Some(index as i32),
            r@[0].inserted_rows@[0].is_new == true,
            r@[0].inserted_rows@[0].is_hidden_in_view == false,
    {
        self.group.add_row(row.clone());

        let inserted = InsertedRowPB {
            row_id: row.id.clone(),
            index: Some(index as i32),
            is_new: true,
            is_hidden_in_view: false,
        };
        let mut inserted_rows: Vec<InsertedRowPB> = Vec::new();
        inserted_rows.push(inserted);
        let mut notifications: Vec<GroupRowsNotificationPB> = Vec::new();
        notifications.push(GroupRowsNotificationPB::insert(self.group.id.clone(), inserted_rows));
        notifications
    }

    /// No-op: the default strategy never moves a row between groups, so an
    /// update inserts no group, deletes no group, and produces no row
    /// changesets. Changes nothing.
    pub fn did_update_group_row(
        &mut self,
        _old_row: &Option<Row>,
        _new_row: &Row,
        _field: &Field,
    ) -> (r: FlowyResult<DidUpdateGroupRowResult>)
        ensures
            *final(self) == *old(self),
            r is Ok,
            r->Ok_0.inserted_group is None,
            r->Ok_0.deleted_group is None,
            r->Ok_0.row_changesets@.len() == 0,
    {
        Ok(DidUpdateGroupRowResult { inserted_group: None, deleted_group: None, row_changesets: Vec::new() })
    }

    /// Removes the row from the single group if it is a member, and reports
    /// exactly one changeset: it lists the row's id as deleted when the row
    /// was a member, and nothing otherwise. No group is ever deleted.
    pub fn did_delete_row(&mut self, row: &Row) -> (r: FlowyResult<DidMoveGroupRowResult>)
        ensures
            final(self).identity_unchanged(old(self)),
            r is Ok,
            r->Ok_0.deleted_group is None,
            r->Ok_0.row_changesets@.len() == 1,
            r->Ok_0.row_changesets@[0].group_id@ == old(self).group.id@,
            r->Ok_0.row_changesets@[0].inserted_rows@.len() == 0,
            match old(self).group.row_id_seq().index_of_first(row.id@) {
                Some(k) => {
                    &&& final(self).group.rows@ == old(self).group.rows@.remove(k)
                    &&& r->Ok_0.row_changesets@[0].deleted_rows@.len() == 1
                    &&& r->Ok_0.row_changesets@[0].deleted_rows@[0]@ == row.id@
                },
                None => {
                    &&& final(self).group.rows@ == old(self).group.rows@
                    &&& r->Ok_0.row_changesets@[0].deleted_rows@.len() == 0
                },
            },
    {
        proof {
            old(self).group.row_id_seq().index_of_first_ensures(row.id@);
        }
        let mut changeset = GroupRowsNotificationPB::new(self.group.id.clone());
        if self.group.contains_row(&row.id) {
            self.group.remove_row(&row.id);
            changeset.deleted_rows.push(row.id.clone());
        }
        let mut row_changesets: Vec<GroupRowsNotificationPB> = Vec::new();
        row_changesets.push(changeset);
        Ok(DidMoveGroupRowResult { deleted_group: None, row_changesets })
    }

    /// No-op: a row cannot move between groups when there is only one.
    /// Returns a neutral result and changes nothing.
    pub fn move_group_row(&mut self, _context: MoveGroupRowContext) -> (r: FlowyResult<
        DidMoveGroupRowResult,
    >)
        ensures
            *final(self) == *old(self),
            r is Ok,
            r->Ok_0.deleted_group is None,
            r->Ok_0.row_changesets@.len() == 0,
    {
        Ok(DidMoveGroupRowResult { deleted_group: None, row_changesets: Vec::new() })
    }

    /// No-op: the single group is permanent, so nothing is deleted and no
    /// configuration changes. Changes nothing.
    pub fn delete_group(&mut self, _group_id: &str) -> (r: FlowyResult<
        (Vec<String>, Option<TypeOptionData>),
    >)
        ensures
            *final(self) == *old(self),
            r is Ok,
            r->Ok_0.0@.len() == 0,
            r->Ok_0.1 is None,
    {
        Ok((Vec::new(), None))
    }

    /// No-op: group changesets do not apply to the fixed single group.
    /// Returns neutral results and changes nothing.
    pub fn apply_group_changeset(&mut self, _changeset: &[GroupChangeset]) -> (r: FlowyResult<
        (Vec<GroupPB>, Option<TypeOptionData>),
    >)
        ensures
            *final(self) == *old(self),
            r is Ok,
            r->Ok_0.0@.len() == 0,
            r->Ok_0.1 is None,
    {
        Ok((Vec::new(), None))
    }

    /// No-op: the default strategy stamps no group-defining value onto a new
    /// row's cells, so the cells are left exactly as given.
    pub fn will_create_row(&self, cells: &mut Cells, _field: &Field, _group_id: &str)
        ensures
            *final(cells) == *old(cells),
    {
    }
}

} // verus!
