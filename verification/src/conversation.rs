//! Conversations: one per invocation of a processor.

use vstd::prelude::*;
use crate::audit::{item_views, AuditItem, AuditItemView};
use crate::ident::Timestamp;

verus! {

/// One invocation of a processor, with the audit items written during it.
#[derive(Debug)]
pub struct RequestConversation {
    pub id: u128,
    pub created_at: Timestamp,
    pub request_processor_id: u128,
    pub audit_items: Vec<AuditItem>,
}

/// The mathematical value of a conversation.
pub struct RequestConversationView {
    pub id: u128,
    pub created_at: Timestamp,
    pub request_processor_id: u128,
    pub audit_items: Seq<AuditItemView>,
}

impl View for RequestConversation {
    type V = RequestConversationView;

    open spec fn view(&self) -> RequestConversationView {
        RequestConversationView {
            id: self.id,
            created_at: self.created_at,
            request_processor_id: self.request_processor_id,
            audit_items: item_views(self.audit_items@),
        }
    }
}

} // verus!
