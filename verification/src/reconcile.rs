//! The reconciler: map a confirmed server response onto local state.
//!
//! The mapping from operation kind to merge action is closed: create
//! operations carry the server-assigned identifier back (when the response
//! holds one), update and delete operations only confirm what the client
//! already did, and an unrecognized kind merges nothing.

use vstd::prelude::*;

use crate::json::json_field_i64;
use crate::json::json_get_i64;

verus! {

/// What a confirmed response asks local state to do.
#[derive(Clone, Debug, PartialEq, Eq)]
pub enum ReconcileAction {
    /// A create was confirmed; overwrite the client-optimistic identifier
    /// with the server-assigned one, when the response carried it.
    RecordCreated { server_id: Option<i64> },
    /// An update was confirmed; local data already matches the server.
    ConfirmUpdated,
    /// A delete was confirmed; the local record is already gone.
    ConfirmDeleted,
    /// Unrecognized operation kind: merge nothing.
    NoChange,
}

/// Whether this operation kind is a confirmed create.
pub open spec fn is_create_op(op: Seq<char>) -> bool {
    op == "product_create"@ || op == "user_create"@ || op == "order_create"@
}

/// Whether this operation kind is a confirmed update.
pub open spec fn is_update_op(op: Seq<char>) -> bool {
    op == "product_update"@ || op == "user_update"@ || op == "order_update"@
}

/// Whether this operation kind is a confirmed delete.
pub open spec fn is_delete_op(op: Seq<char>) -> bool {
    op == "product_delete"@ || op == "user_delete"@ || op == "order_delete"@
}

/// The action a confirmed response maps to, given the operation kind and the
/// server-assigned identifier the response body carries (if any).
pub open spec fn spec_reconcile(op: Seq<char>, server_id: Option<i64>) -> ReconcileAction {
    if is_create_op(op) {
        ReconcileAction::RecordCreated { server_id }
    } else if is_update_op(op) {
        ReconcileAction::ConfirmUpdated
    } else if is_delete_op(op) {
        ReconcileAction::ConfirmDeleted
    } else {
        ReconcileAction::NoChange
    }
}

/// Map a confirmed response onto a merge action: exactly `spec_reconcile`
/// applied to the operation kind and the `id` field of the response body.
pub fn handle_sync_response(operation_type: &String, response_body: &String) -> (r:
    ReconcileAction)
    ensures
        r == spec_reconcile(operation_type@, json_field_i64(response_body@, "id"@)),
{
    if *operation_type == "product_create".to_owned() || *operation_type == "user_create".to_owned()
        || *operation_type == "order_create".to_owned() {
        let server_id = json_get_i64(response_body.as_str(), "id");
        ReconcileAction::RecordCreated { server_id }
    } else if *operation_type == "product_update".to_owned() || *operation_type
        == "user_update".to_owned() || *operation_type == "order_update".to_owned() {
        ReconcileAction::ConfirmUpdated
    } else if *operation_type == "product_delete".to_owned() || *operation_type
        == "user_delete".to_owned() || *operation_type == "order_delete".to_owned() {
        ReconcileAction::ConfirmDeleted
    } else {
        ReconcileAction::NoChange
    }
}

} // verus!
