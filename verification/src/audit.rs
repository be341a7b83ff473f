//! Audit items: the records of what happened during a conversation.

use vstd::prelude::*;
use crate::ident::{fresh_id, now, Timestamp};
use crate::request::{Request, RequestView};
use crate::response::{Response, ResponseView};

verus! {

/// One event of a conversation.
#[derive(Debug)]
#[allow(inconsistent_fields)]
pub enum AuditItem {
    /// The inbound request (`inc` 0) or a request that the processor's code
    /// issued. `inc` counts the requests of the conversation.
    Request { id: u128, created_at: Timestamp, inc: i32, conversation_id: u128, payload: Request },
    /// A response received; `request_id` names a request item.
    Response {
        id: u128,
        created_at: Timestamp,
        conversation_id: u128,
        request_id: u128,
        payload: Response,
    },
    /// A log entry written by the processor's code.
    Log { id: u128, created_at: Timestamp, conversation_id: u128, payload: String },
}

/// The mathematical value of an audit item.
#[allow(inconsistent_fields)]
pub enum AuditItemView {
    Request {
        id: u128,
        created_at: Timestamp,
        inc: i32,
        conversation_id: u128,
        payload: RequestView,
    },
    Response {
        id: u128,
        created_at: Timestamp,
        conversation_id: u128,
        request_id: u128,
        payload: ResponseView,
    },
    Log { id: u128, created_at: Timestamp, conversation_id: u128, payload: Seq<char> },
}

impl AuditItemView {
    pub open spec fn id(self) -> u128 {
        match self {
            AuditItemView::Request { id, .. } => id,
            AuditItemView::Response { id, .. } => id,
            AuditItemView::Log { id, .. } => id,
        }
    }

    pub open spec fn created_at(self) -> Timestamp {
        match self {
            AuditItemView::Request { created_at, .. } => created_at,
            AuditItemView::Response { created_at, .. } => created_at,
            AuditItemView::Log { created_at, .. } => created_at,
        }
    }

    pub open spec fn conversation_id(self) -> u128 {
        match self {
            AuditItemView::Request { conversation_id, .. } => conversation_id,
            AuditItemView::Response { conversation_id, .. } => conversation_id,
            AuditItemView::Log { conversation_id, .. } => conversation_id,
        }
    }
}

impl View for AuditItem {
    type V = AuditItemView;

    open spec fn view(&self) -> AuditItemView {
        match self {
            AuditItem::Request { id, created_at, inc, conversation_id, payload } => {
                AuditItemView::Request {
                    id: *id,
                    created_at: *created_at,
                    inc: *inc,
                    conversation_id: *conversation_id,
                    payload: payload@,
                }
            },
            AuditItem::Response { id, created_at, conversation_id, request_id, payload } => {
                AuditItemView::Response {
                    id: *id,
                    created_at: *created_at,
                    conversation_id: *conversation_id,
                    request_id: *request_id,
                    payload: payload@,
                }
            },
            AuditItem::Log { id, created_at, conversation_id, payload } => AuditItemView::Log {
                id: *id,
                created_at: *created_at,
                conversation_id: *conversation_id,
                payload: payload@,
            },
        }
    }
}

/// The values of a list of audit items.
pub open spec fn item_views(items: Seq<AuditItem>) -> Seq<AuditItemView> {
    items.map_values(|item: AuditItem| item@)
}

impl AuditItem {
    /// The identifier of the item.
    pub fn get_id(&self) -> (id: u128)
        ensures
            id == self@.id(),
    {
        match self {
            Self::Response { id, .. } => *id,
            Self::Request { id, .. } => *id,
            Self::Log { id, .. } => *id,
        }
    }

    /// The time at which the item was made.
    pub fn created_at(&self) -> (at: Timestamp)
        ensures
            at == self@.created_at(),
    {
        match self {
            Self::Response { created_at, .. } => *created_at,
            Self::Request { created_at, .. } => *created_at,
            Self::Log { created_at, .. } => *created_at,
        }
    }

    /// The conversation that the item belongs to.
    pub fn conversation_id(&self) -> (id: u128)
        ensures
            id == self@.conversation_id(),
    {
        match self {
            Self::Response { conversation_id, .. } => *conversation_id,
            Self::Request { conversation_id, .. } => *conversation_id,
            Self::Log { conversation_id, .. } => *conversation_id,
        }
    }

    /// A request item with a fresh identifier, made now.
    pub fn new_request(conversation_id: u128, inc: i32, payload: Request) -> (item: Self)
        ensures
            item@ == (AuditItemView::Request {
                id: item@.id(),
                created_at: item@.created_at(),
                inc,
                conversation_id,
                payload: payload@,
            }),
    {
        Self::Request { id: fresh_id(), created_at: now(), inc, conversation_id, payload }
    }

    /// A response item with a fresh identifier, made now.
    pub fn new_response(conversation_id: u128, request_id: u128, payload: Response) -> (item: Self)
        ensures
            item@ == (AuditItemView::Response {
                id: item@.id(),
                created_at: item@.created_at(),
                conversation_id,
                request_id,
                payload: payload@,
            }),
    {
        Self::Response { id: fresh_id(), created_at: now(), conversation_id, request_id, payload }
    }

    /// A log item with a fresh identifier, made now.
    pub fn new_log(conversation_id: u128, payload: String) -> (item: Self)
        ensures
            item@ == (AuditItemView::Log {
                id: item@.id(),
                created_at: item@.created_at(),
                conversation_id,
                payload: payload@,
            }),
    {
        Self::Log { id: fresh_id(), created_at: now(), conversation_id, payload }
    }

    /// A copy of the item.
    pub fn duplicate(&self) -> (copy: AuditItem)
        ensures
            copy@ == self@,
    {
        match self {
            AuditItem::Request { id, created_at, inc, conversation_id, payload } => {
                AuditItem::Request {
                    id: *id,
                    created_at: *created_at,
                    inc: *inc,
                    conversation_id: *conversation_id,
                    payload: payload.duplicate(),
                }
            },
            AuditItem::Response { id, created_at, conversation_id, request_id, payload } => {
                AuditItem::Response {
                    id: *id,
                    created_at: *created_at,
                    conversation_id: *conversation_id,
                    request_id: *request_id,
                    payload: payload.duplicate(),
                }
            },
            AuditItem::Log { id, created_at, conversation_id, payload } => AuditItem::Log {
                id: *id,
                created_at: *created_at,
                conversation_id: *conversation_id,
                payload: payload.clone(),
            },
        }
    }
}

} // verus!
