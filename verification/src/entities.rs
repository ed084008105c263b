//! The plain data that the grouping logic reads and produces.
//!
//! A row is tracked by its id alone: the controller never owns row data, it
//! only records membership. The notification types describe, to an observer
//! of the view, which rows entered or left a group.

use vstd::prelude::*;

verus! {

/// A reference to a row of the underlying row store, tracked by id.
pub struct Row {
    pub id: String,
}

impl Row {
    /// Builds a row reference for the given row id.
    pub fn new(id: String) -> (r: Row)
        ensures
            r.id@ == id@,
    {
        Row { id }
    }
}

impl Clone for Row {
    fn clone(&self) -> (r: Self)
        ensures
            r == *self,
    {
        Row { id: self.id.clone() }
    }
}

/// The ids of a sequence of rows, in order. Group membership is stated over
/// this model.
pub open spec fn row_ids(rows: Seq<Row>) -> Seq<Seq<char>> {
    rows.map_values(|r: Row| r.id@)
}

/// A column definition; the grouping strategy is chosen per field, and the
/// default strategy reads nothing of the field but its id.
pub struct Field {
    pub id: String,
}

impl Field {
    /// Builds a field with the given id.
    pub fn new(id: String) -> (r: Field)
        ensures
            r.id@ == id@,
    {
        Field { id }
    }
}

/// The cell data of a row under construction, keyed by field id.
pub struct Cells {
    pub entries: Vec<(String, Vec<u8>)>,
}

/// One row inserted into a group, as reported to observers.
pub struct InsertedRowPB {
    /// The id of the inserted row.
    pub row_id: String,
    /// The position at which the row was inserted, when known.
    pub index: Option<i32>,
    /// Whether the row was newly created rather than moved in.
    pub is_new: bool,
    /// Whether the row is hidden in the view it was inserted into.
    pub is_hidden_in_view: bool,
}

/// A batch description of rows inserted into or deleted from one group.
pub struct GroupRowsNotificationPB {
    pub group_id: String,
    pub inserted_rows: Vec<InsertedRowPB>,
    pub deleted_rows: Vec<String>,
}

impl GroupRowsNotificationPB {
    /// An empty changeset for the given group.
    pub fn new(group_id: String) -> (r: GroupRowsNotificationPB)
        ensures
            r.group_id@ == group_id@,
            r.inserted_rows@ == Seq::<InsertedRowPB>::empty(),
            r.deleted_rows@ == Seq::<String>::empty(),
    {
        GroupRowsNotificationPB { group_id, inserted_rows: Vec::new(), deleted_rows: Vec::new() }
    }

    /// A changeset recording only insertions into the given group.
    pub fn insert(group_id: String, inserted_rows: Vec<InsertedRowPB>) -> (r:
        GroupRowsNotificationPB)
        ensures
            r.group_id@ == group_id@,
            r.inserted_rows@ == inserted_rows@,
            r.deleted_rows@ == Seq::<String>::empty(),
    {
        GroupRowsNotificationPB { group_id, inserted_rows, deleted_rows: Vec::new() }
    }

    /// Whether the changeset reports no change at all.
    pub open spec fn is_neutral(&self) -> bool {
        self.inserted_rows@.len() == 0 && self.deleted_rows@.len() == 0
    }
}

/// A group as reported to observers.
pub struct GroupPB {
    pub group_id: String,
}

/// A newly created group together with its position, as reported to
/// observers. The default strategy never creates groups.
pub struct InsertedGroupPB {
    pub group: GroupPB,
    pub index: i32,
}

/// Opaque per-field configuration of a grouping strategy. The default
/// strategy has none, so it never returns an updated value.
pub struct TypeOptionData {
    pub entries: Vec<(String, Vec<u8>)>,
}

/// A requested change to one group's name or visibility. The default
/// strategy's single group is immutable, so changesets are ignored.
pub struct GroupChangeset {
    pub group_id: String,
    pub name: Option<String>,
    pub visible: Option<bool>,
}

/// The context of a row being moved from one group to another. The default
/// strategy has a single group, so no such move can occur.
pub struct MoveGroupRowContext {
    pub row: Row,
    pub from_group_id: String,
    pub to_group_id: String,
}

} // verus!
