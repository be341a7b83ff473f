//! The commands that the storage actor accepts, and their replies.

use vstd::prelude::*;
use crate::audit::AuditItem;
use crate::conversation::RequestConversation;
use crate::error::RequestProcessorError;
use crate::ident::Timestamp;
use crate::laws::law_changes_keep_the_tables_sound;
use crate::processor::{RequestProcessor, RequestProcessorView};
use crate::rows::{item_outcome, items_outcome, processor_outcome};
use crate::storage::{
    conversation_created,
    conversation_outcome,
    processors_outcome,
    unit_outcome,
    Store,
    StoreView,
};

verus! {

/// A command to the storage actor. Each is answered by one reply.
#[derive(Debug)]
pub enum ReqCmd {
    CreateRequestProcessor { proc: RequestProcessor },
    GetRequestProcessor { id: u128 },
    GetRequestProcessors { user_id: String },
    UpdateRequestProcessor { id: u128, proc: RequestProcessor },
    DeleteRequestProcessor { id: u128 },
    CreateRequestConversation { request_processor_id: u128 },
    CreateAuditLogEntry { item: AuditItem },
    GetRequestConversation { id: u128 },
    GetRequestConversationAuditItems { id: u128 },
}

/// The reply to a command, by what the command gives.
#[derive(Debug)]
pub enum ReqReply {
    Processor(Result<RequestProcessor, RequestProcessorError>),
    Processors(Result<Vec<RequestProcessor>, RequestProcessorError>),
    Deleted(Result<(), RequestProcessorError>),
    Conversation(Result<RequestConversation, RequestProcessorError>),
    AuditItem(Result<AuditItem, RequestProcessorError>),
    AuditItems(Result<Vec<AuditItem>, RequestProcessorError>),
}

/// `after` and `reply` are what the command did to the store `before` and
/// what it was answered with.
pub open spec fn command_done(before: StoreView, cmd: ReqCmd, after: StoreView, reply: ReqReply) -> bool {
    match cmd {
        ReqCmd::CreateRequestProcessor { proc } => {
            &&& reply matches ReqReply::Processor(r)
            &&& (after, processor_outcome(r)) == before.creating_processor(proc@)
        },
        ReqCmd::GetRequestProcessor { id } => {
            &&& reply matches ReqReply::Processor(r)
            &&& after == before
            &&& processor_outcome(r) == before.fetch_processor(id)
        },
        ReqCmd::GetRequestProcessors { user_id } => {
            &&& reply matches ReqReply::Processors(r)
            &&& after == before
            &&& processors_outcome(r) == before.fetch_processors(user_id@)
        },
        ReqCmd::UpdateRequestProcessor { id, proc } => {
            &&& reply matches ReqReply::Processor(r)
            &&& (after, processor_outcome(r)) == before.replacing_processor(id, proc@)
        },
        ReqCmd::DeleteRequestProcessor { id } => {
            &&& reply matches ReqReply::Deleted(r)
            &&& (after, unit_outcome(r)) == before.removing_processor(id)
        },
        ReqCmd::CreateRequestConversation { request_processor_id } => {
            &&& reply matches ReqReply::Conversation(r)
            &&& conversation_created(before, after, request_processor_id, conversation_outcome(r))
        },
        ReqCmd::CreateAuditLogEntry { item } => {
            &&& reply matches ReqReply::AuditItem(r)
            &&& (after, item_outcome(r)) == before.storing_item(item@)
        },
        ReqCmd::GetRequestConversation { id } => {
            &&& reply matches ReqReply::Conversation(r)
            &&& after == before
            &&& conversation_outcome(r) == before.fetch_conversation(id)
        },
        ReqCmd::GetRequestConversationAuditItems { id } => {
            &&& reply matches ReqReply::AuditItems(r)
            &&& after == before
            &&& items_outcome(r) == before.fetch_items(id)
        },
    }
}

/// No command changes or removes a conversation or an audit item: what the
/// two tables held before a command, they hold after it, in front of what
/// the command added.
pub proof fn law_conversations_and_audit_items_are_only_added(
    before: StoreView,
    cmd: ReqCmd,
    after: StoreView,
    reply: ReqReply,
)
    requires
        command_done(before, cmd, after, reply),
    ensures
        before.conversations.is_prefix_of(after.conversations),
        before.audit_items.is_prefix_of(after.audit_items),
{
    assert(before.conversations.is_prefix_of(before.conversations));
    assert(before.audit_items.is_prefix_of(before.audit_items));
    assert forall|row: crate::storage::ConversationRow|
        before.conversations.is_prefix_of(#[trigger] before.conversations.push(row)) by {}
    assert forall|row: crate::rows::DbAuditItemView|
        before.audit_items.is_prefix_of(#[trigger] before.audit_items.push(row)) by {}
}

/// Every command keeps the tables sound.
pub proof fn law_commands_keep_the_tables_sound(
    before: StoreView,
    cmd: ReqCmd,
    after: StoreView,
    reply: ReqReply,
)
    requires
        before.wf(),
        command_done(before, cmd, after, reply),
    ensures
        after.wf(),
{
    let t = Timestamp { nanos: 0 };
    match cmd {
        ReqCmd::CreateRequestProcessor { proc } => {
            law_changes_keep_the_tables_sound(before, proc@, 0, t, arbitrary());
        },
        ReqCmd::UpdateRequestProcessor { id, proc } => {
            law_changes_keep_the_tables_sound(before, proc@, id, t, arbitrary());
        },
        ReqCmd::DeleteRequestProcessor { id } => {
            law_changes_keep_the_tables_sound(before, arbitrary(), id, t, arbitrary());
        },
        ReqCmd::CreateAuditLogEntry { item } => {
            law_changes_keep_the_tables_sound(before, arbitrary(), 0, t, item@);
        },
        ReqCmd::CreateRequestConversation { request_processor_id } => {
            match reply {
                ReqReply::Conversation(Ok(c)) => {
                    let p = RequestProcessorView {
                        id: request_processor_id,
                        ..arbitrary::<RequestProcessorView>()
                    };
                    law_changes_keep_the_tables_sound(before, p, c.id, c.created_at, arbitrary());
                },
                _ => {},
            }
        },
        _ => {},
    }
}

impl Store {
    /// Carries out one command and gives its reply.
    pub fn process_command(&mut self, cmd: ReqCmd) -> (reply: ReqReply)
        ensures
            command_done(old(self)@, cmd, final(self)@, reply),
            old(self)@.wf() ==> final(self)@.wf(),
    {
        let ghost before = self@;
        let ghost asked = cmd;
        let reply = self.dispatch(cmd);
        proof {
            if before.wf() {
                law_commands_keep_the_tables_sound(before, asked, self@, reply);
            }
        }
        reply
    }

    /// Carries out one command.
    fn dispatch(&mut self, cmd: ReqCmd) -> (reply: ReqReply)
        ensures
            command_done(old(self)@, cmd, final(self)@, reply),
    {
        match cmd {
            ReqCmd::CreateRequestProcessor { proc } => ReqReply::Processor(
                self.create_request_processor(proc),
            ),
            ReqCmd::GetRequestProcessor { id } => ReqReply::Processor(
                self.get_request_processor(id),
            ),
            ReqCmd::GetRequestProcessors { user_id } => ReqReply::Processors(
                self.get_request_processors(user_id.as_str()),
            ),
            ReqCmd::UpdateRequestProcessor { id, proc } => ReqReply::Processor(
                self.update_request_processor(id, proc),
            ),
            ReqCmd::DeleteRequestProcessor { id } => ReqReply::Deleted(
                self.delete_request_processor(id),
            ),
            ReqCmd::CreateRequestConversation { request_processor_id } => ReqReply::Conversation(
                self.create_request_conversation(request_processor_id),
            ),
            ReqCmd::CreateAuditLogEntry { item } => ReqReply::AuditItem(
                self.create_audit_item(item),
            ),
            ReqCmd::GetRequestConversation { id } => ReqReply::Conversation(
                self.get_request_conversation(id),
            ),
            ReqCmd::GetRequestConversationAuditItems { id } => ReqReply::AuditItems(
                self.get_audit_items(id),
            ),
        }
    }
}

} // verus!
