use flowy_core::{
    Cells, GroupChangeset, MoveGroupRowContext,
    DefaultGroupController, Field, FlowyError, FlowyResult, GroupControllerDelegate, Row,
};

struct FixedRows {
    ids: Vec<&'static str>,
}

impl GroupControllerDelegate for FixedRows {
    fn get_all_rows(&self, _view_id: &String) -> FlowyResult<Vec<Row>> {
        Ok(self.ids.iter().map(|id| Row::new((*id).to_string())).collect())
    }
}

struct FailingStore;

impl GroupControllerDelegate for FailingStore {
    fn get_all_rows(&self, _view_id: &String) -> FlowyResult<Vec<Row>> {
        Err(FlowyError::new("row store unavailable".to_string()))
    }
}

fn controller(ids: Vec<&'static str>) -> DefaultGroupController<FixedRows> {
    let field = Field::new("F1".to_string());
    DefaultGroupController::new("view-1", &field, FixedRows { ids })
}

fn member_ids<D: GroupControllerDelegate>(c: &DefaultGroupController<D>) -> Vec<&str> {
    c.group.rows.iter().map(|r| r.id.as_str()).collect()
}

#[test]
fn new_creates_one_empty_visible_group() {
    let c = controller(vec![]);
    assert_eq!(c.view_id, "view-1");
    assert_eq!(c.field_id, "F1");
    assert_eq!(c.group.id, "DefaultGroupController");
    assert_eq!(c.group.field_id, "F1");
    assert!(c.group.is_visible);
    assert!(c.group.rows.is_empty());
}

#[test]
fn load_adds_rows_in_order() {
    let mut c = controller(vec!["r1", "r2", "r3"]);
    assert!(c.load_group_data().is_ok());
    assert_eq!(member_ids(&c), vec!["r1", "r2", "r3"]);
}

#[test]
fn load_twice_duplicates_membership() {
    let mut c = controller(vec!["r1", "r2"]);
    assert!(c.load_group_data().is_ok());
    assert!(c.load_group_data().is_ok());
    assert_eq!(member_ids(&c), vec!["r1", "r2", "r1", "r2"]);
}

#[test]
fn load_propagates_row_store_failure() {
    let field = Field::new("F1".to_string());
    let mut c = DefaultGroupController::new("view-1", &field, FailingStore);
    let r = c.load_group_data();
    assert!(r.is_err());
    assert_eq!(r.err().unwrap().message(), "row store unavailable");
    assert!(c.group.rows.is_empty());
}

#[test]
fn fill_groups_appends_batches_in_order() {
    let mut c = controller(vec![]);
    let field = Field::new("ignored".to_string());
    let batch1 = vec![Row::new("a".to_string()), Row::new("b".to_string())];
    let batch2 = vec![Row::new("c".to_string())];
    assert!(c.fill_groups(&batch1, &field).is_ok());
    assert!(c.fill_groups(&batch2, &field).is_ok());
    assert_eq!(member_ids(&c), vec!["a", "b", "c"]);
}

#[test]
fn get_grouping_field_id_returns_field() {
    let c = controller(vec![]);
    assert_eq!(c.get_grouping_field_id(), "F1");
}

#[test]
fn get_all_groups_returns_single_group() {
    let mut c = controller(vec!["r1"]);
    assert!(c.load_group_data().is_ok());
    let groups = c.get_all_groups();
    assert_eq!(groups.len(), 1);
    assert_eq!(groups[0].id, "DefaultGroupController");
    assert_eq!(groups[0].rows.len(), 1);
}

#[test]
fn get_group_ignores_requested_id() {
    let mut c = controller(vec!["r1", "r2"]);
    assert!(c.load_group_data().is_ok());

    let (index, group) = c.get_group("no-such-group").unwrap();
    assert_eq!(index, 0);
    assert_eq!(group.id, "DefaultGroupController");
    assert_eq!(
        group.rows.iter().map(|r| r.id.as_str()).collect::<Vec<_>>(),
        vec!["r1", "r2"]
    );

    let (index, group) = c.get_group("DefaultGroupController").unwrap();
    assert_eq!(index, 0);
    assert_eq!(group.id, "DefaultGroupController");
}

#[test]
fn did_create_row_reports_one_new_insertion() {
    let mut c = controller(vec![]);
    let row = Row::new("r9".to_string());
    let notifications = c.did_create_row(&row, 0);
    assert_eq!(member_ids(&c), vec!["r9"]);
    assert_eq!(notifications.len(), 1);
    let n = &notifications[0];
    assert_eq!(n.group_id, "DefaultGroupController");
    assert!(n.deleted_rows.is_empty());
    assert_eq!(n.inserted_rows.len(), 1);
    assert_eq!(n.inserted_rows[0].row_id, "r9");
    assert_eq!(n.inserted_rows[0].index, Some(0));
    assert!(n.inserted_rows[0].is_new);
    assert!(!n.inserted_rows[0].is_hidden_in_view);
}

#[test]
fn delete_absent_row_yields_empty_changeset() {
    let mut c = controller(vec!["r1"]);
    assert!(c.load_group_data().is_ok());
    let r = c.did_delete_row(&Row::new("missing".to_string())).unwrap();
    assert!(r.deleted_group.is_none());
    assert_eq!(r.row_changesets.len(), 1);
    assert!(r.row_changesets[0].inserted_rows.is_empty());
    assert!(r.row_changesets[0].deleted_rows.is_empty());
    assert_eq!(member_ids(&c), vec!["r1"]);
}

#[test]
fn delete_present_row_then_again_is_idempotent() {
    let mut c = controller(vec!["r1", "r2"]);
    assert!(c.load_group_data().is_ok());

    let first = c.did_delete_row(&Row::new("r1".to_string())).unwrap();
    assert!(first.deleted_group.is_none());
    assert_eq!(first.row_changesets.len(), 1);
    assert_eq!(first.row_changesets[0].deleted_rows, vec!["r1".to_string()]);
    assert_eq!(member_ids(&c), vec!["r2"]);

    let second = c.did_delete_row(&Row::new("r1".to_string())).unwrap();
    assert_eq!(second.row_changesets.len(), 1);
    assert!(second.row_changesets[0].deleted_rows.is_empty());
    assert_eq!(member_ids(&c), vec!["r2"]);
}

#[test]
fn delete_removes_only_first_occurrence() {
    let mut c = controller(vec!["r1", "r2"]);
    assert!(c.load_group_data().is_ok());
    assert!(c.load_group_data().is_ok());
    let r = c.did_delete_row(&Row::new("r1".to_string())).unwrap();
    assert_eq!(r.row_changesets[0].deleted_rows, vec!["r1".to_string()]);
    assert_eq!(member_ids(&c), vec!["r2", "r1", "r2"]);
}

#[test]
fn group_management_noops_return_neutral_results() {

    let mut c = controller(vec!["r1"]);
    assert!(c.load_group_data().is_ok());

    let (type_option, inserted) = c.create_group("new group".to_string()).unwrap();
    assert!(type_option.is_none());
    assert!(inserted.is_none());

    assert!(c.move_group("a", "b").is_ok());

    let update = c
        .did_update_group_row(&None, &Row::new("r1".to_string()), &Field::new("F1".to_string()))
        .unwrap();
    assert!(update.inserted_group.is_none());
    assert!(update.deleted_group.is_none());
    assert!(update.row_changesets.is_empty());

    let moved = c
        .move_group_row(MoveGroupRowContext {
            row: Row::new("r1".to_string()),
            from_group_id: "a".to_string(),
            to_group_id: "b".to_string(),
        })
        .unwrap();
    assert!(moved.deleted_group.is_none());
    assert!(moved.row_changesets.is_empty());

    let (deleted_rows, type_option) = c.delete_group("DefaultGroupController").unwrap();
    assert!(deleted_rows.is_empty());
    assert!(type_option.is_none());

    let changesets = vec![GroupChangeset {
        group_id: "DefaultGroupController".to_string(),
        name: Some("renamed".to_string()),
        visible: Some(false),
    }];
    let (groups, type_option) = c.apply_group_changeset(&changesets).unwrap();
    assert!(groups.is_empty());
    assert!(type_option.is_none());

    // none of the no-ops touched the single group
    assert_eq!(c.group.id, "DefaultGroupController");
    assert!(c.group.is_visible);
    assert_eq!(member_ids(&c), vec!["r1"]);
}

#[test]
fn will_create_row_leaves_cells_unchanged() {

    let c = controller(vec![]);
    let mut cells = Cells {
        entries: vec![("F1".to_string(), vec![1u8, 2u8])],
    };
    c.will_create_row(&mut cells, &Field::new("F1".to_string()), "DefaultGroupController");
    assert_eq!(cells.entries.len(), 1);
    assert_eq!(cells.entries[0].0, "F1");
    assert_eq!(cells.entries[0].1, vec![1u8, 2u8]);
}

#[test]
fn controller_scenario_for_field_f1() {
    // load adds [r1, r2]; creating r3 at index 2 appends it and reports one
    // new insertion; deleting r2 removes it and reports its id.
    let mut c = controller(vec!["r1", "r2"]);
    assert!(c.load_group_data().is_ok());
    assert_eq!(member_ids(&c), vec!["r1", "r2"]);

    let notifications = c.did_create_row(&Row::new("r3".to_string()), 2);
    assert_eq!(member_ids(&c), vec!["r1", "r2", "r3"]);
    assert_eq!(notifications.len(), 1);
    assert_eq!(notifications[0].inserted_rows.len(), 1);
    assert_eq!(notifications[0].inserted_rows[0].row_id, "r3");
    assert_eq!(notifications[0].inserted_rows[0].index, Some(2));
    assert!(notifications[0].inserted_rows[0].is_new);

    let deleted = c.did_delete_row(&Row::new("r2".to_string())).unwrap();
    assert_eq!(member_ids(&c), vec!["r1", "r3"]);
    assert_eq!(deleted.row_changesets.len(), 1);
    assert_eq!(deleted.row_changesets[0].deleted_rows, vec!["r2".to_string()]);
}
