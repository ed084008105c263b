//! A degenerate grouping strategy for database views together with the
//! decision logic of a foreign-event bridge.
//!
//! The grouping half keeps every row of a view in one catch-all group and
//! answers the full grouping-controller interface with exact, mostly neutral
//! results. The bridge half decides, from the bridge's state and an incoming
//! event, whether the event may be handed to the dispatch runtime and what
//! request it becomes; the runtime itself is the host's.

mod default_controller;
mod entities;
mod error;
mod event_bridge;
mod group;

pub use default_controller::{
    DefaultGroupController, DidMoveGroupRowResult, DidUpdateGroupRowResult, GroupControllerDelegate,
};
pub use entities::{
    Cells, Field, GroupChangeset, GroupPB, GroupRowsNotificationPB, InsertedGroupPB, InsertedRowPB,
    MoveGroupRowContext, Row, TypeOptionData, row_ids,
};
pub use error::{FlowyError, FlowyResult};
pub use event_bridge::{
    DispatcherError, DispatcherHandle, EventBridge, PluginRequest, WasmEvent, async_event, init_sdk,
};
pub use group::{
    GroupData, after_fills, concat_batches, group_eq, lemma_after_fills_appends,
    lemma_delete_idempotent, lemma_membership_is_rows_added,
};
