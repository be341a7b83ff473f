//! The store: processors, conversations and audit items as they are
//! persisted, and the commands that read and change them.
//!
//! The store keeps three tables of rows. A row is found by its identifier;
//! where several rows carry one identifier, the first counts for reading,
//! and all of them are changed or removed together.

use vstd::prelude::*;
use crate::audit::{item_views, AuditItem, AuditItemView};
use crate::chronology::sort_audit_items;
use crate::conversation::{RequestConversation, RequestConversationView};
use crate::error::{ErrorView, RequestProcessorError};
use crate::ident::{fresh_id, now, Timestamp};
use crate::lookup::{lemma_position, lemma_position_is, position};
use crate::processor::{RequestProcessor, RequestProcessorView};
use crate::rows::{
    audit_row,
    item_outcome,
    items_outcome,
    lemma_rows_items_fail,
    processor_outcome,
    processor_row,
    row_processor,
    row_views,
    rows_items,
    rows_shown,
    DbAuditItem,
    DbAuditItemView,
    ProcessorRow,
    ProcessorRowView,
};
use crate::text::text_eq;

verus! {

/// A stored conversation.
#[derive(Clone, Copy, Debug, PartialEq, Eq, Structural)]
pub struct ConversationRow {
    pub id: u128,
    pub created_at: Timestamp,
    pub request_processor: u128,
}

/// The three tables.
#[derive(Debug)]
pub struct Store {
    pub processors: Vec<ProcessorRow>,
    pub conversations: Vec<ConversationRow>,
    pub audit_items: Vec<DbAuditItem>,
}

/// The mathematical value of the store.
pub struct StoreView {
    pub processors: Seq<ProcessorRowView>,
    pub conversations: Seq<ConversationRow>,
    pub audit_items: Seq<DbAuditItemView>,
}

/// The values of a list of processor rows.
pub open spec fn processor_views(rows: Seq<ProcessorRow>) -> Seq<ProcessorRowView> {
    rows.map_values(|row: ProcessorRow| row@)
}

impl View for Store {
    type V = StoreView;

    open spec fn view(&self) -> StoreView {
        StoreView {
            processors: processor_views(self.processors@),
            conversations: self.conversations@,
            audit_items: row_views(self.audit_items@),
        }
    }
}

/// The identifiers of processor rows.
pub open spec fn processor_ids(rows: Seq<ProcessorRowView>) -> Seq<u128> {
    rows.map_values(|row: ProcessorRowView| row.id)
}

/// The identifiers of conversation rows.
pub open spec fn conversation_ids(rows: Seq<ConversationRow>) -> Seq<u128> {
    rows.map_values(|row: ConversationRow| row.id)
}

/// The identifiers of audit rows.
pub open spec fn audit_ids(rows: Seq<DbAuditItemView>) -> Seq<u128> {
    rows.map_values(|row: DbAuditItemView| row.id)
}

/// The processor rows of one user, in the order of the table.
pub open spec fn rows_of_user(rows: Seq<ProcessorRowView>, user_id: Seq<char>) -> Seq<
    ProcessorRowView,
>
    decreases rows.len(),
{
    if rows.len() == 0 {
        Seq::empty()
    } else {
        let front = rows_of_user(rows.drop_last(), user_id);
        if rows.last().user_id == user_id {
            front.push(rows.last())
        } else {
            front
        }
    }
}

/// The processors that a list of rows stores, in the order of the rows, or
/// the failure of the first row that stores none.
pub open spec fn rows_processors(rows: Seq<ProcessorRowView>) -> Result<
    Seq<RequestProcessorView>,
    ErrorView,
>
    decreases rows.len(),
{
    if rows.len() == 0 {
        Ok(Seq::empty())
    } else {
        match rows_processors(rows.drop_last()) {
            Err(e) => Err(e),
            Ok(front) => match row_processor(rows.last()) {
                Err(e) => Err(e),
                Ok(p) => Ok(front.push(p)),
            },
        }
    }
}

/// The processor rows without those that carry `id`.
pub open spec fn rows_without(rows: Seq<ProcessorRowView>, id: u128) -> Seq<ProcessorRowView>
    decreases rows.len(),
{
    if rows.len() == 0 {
        Seq::empty()
    } else {
        let front = rows_without(rows.drop_last(), id);
        if rows.last().id == id {
            front
        } else {
            front.push(rows.last())
        }
    }
}

/// The processor rows with `row` in place of each row that carries `id`.
pub open spec fn rows_replaced(rows: Seq<ProcessorRowView>, id: u128, row: ProcessorRowView) -> Seq<
    ProcessorRowView,
> {
    Seq::new(rows.len(), |j: int| if rows[j].id == id { row } else { rows[j] })
}

/// The audit rows of one conversation, in the order of the table.
pub open spec fn rows_of_conversation(rows: Seq<DbAuditItemView>, id: u128) -> Seq<
    DbAuditItemView,
>
    decreases rows.len(),
{
    if rows.len() == 0 {
        Seq::empty()
    } else {
        let front = rows_of_conversation(rows.drop_last(), id);
        if rows.last().conversation_id == id {
            front.push(rows.last())
        } else {
            front
        }
    }
}

/// The failure for a processor that is not stored.
pub open spec fn no_processor(id: u128) -> ErrorView {
    ErrorView::NotFound { kind: "RequestProcessor"@, id }
}

/// The failure for a conversation that is not stored.
pub open spec fn no_conversation(id: u128) -> ErrorView {
    ErrorView::NotFound { kind: "RequestConversation"@, id }
}

/// The failure for a row whose identifier is taken.
pub open spec fn duplicate_key() -> ErrorView {
    ErrorView::Db("duplicate key value violates unique constraint"@)
}

impl StoreView {
    /// The tables are sound: no two rows of a table carry one identifier,
    /// every row stores a value, and every audit row belongs to a stored
    /// conversation.
    pub open spec fn wf(self) -> bool {
        &&& processor_ids(self.processors).no_duplicates()
        &&& conversation_ids(self.conversations).no_duplicates()
        &&& audit_ids(self.audit_items).no_duplicates()
        &&& forall|i: int|
            0 <= i < self.processors.len() ==> row_processor(#[trigger] self.processors[i]) is Ok
        &&& forall|i: int|
            0 <= i < self.audit_items.len() ==> crate::rows::row_item(
                #[trigger] self.audit_items[i],
            ) is Ok
        &&& forall|i: int|
            0 <= i < self.audit_items.len() ==> self.has_conversation(
                (#[trigger] self.audit_items[i]).conversation_id,
            )
    }

    /// A processor is stored under `id`.
    pub open spec fn has_processor(self, id: u128) -> bool {
        position(processor_ids(self.processors), id) >= 0
    }

    /// What fetching the processor `id` gives.
    pub open spec fn fetch_processor(self, id: u128) -> Result<RequestProcessorView, ErrorView> {
        if self.has_processor(id) {
            row_processor(self.processors[position(processor_ids(self.processors), id)])
        } else {
            Err(no_processor(id))
        }
    }

    /// What fetching the processors of a user gives.
    pub open spec fn fetch_processors(self, user_id: Seq<char>) -> Result<
        Seq<RequestProcessorView>,
        ErrorView,
    > {
        rows_processors(rows_of_user(self.processors, user_id))
    }

    /// A conversation is stored under `id`.
    pub open spec fn has_conversation(self, id: u128) -> bool {
        position(conversation_ids(self.conversations), id) >= 0
    }

    /// The row of the conversation `id`.
    pub open spec fn conversation(self, id: u128) -> ConversationRow
        recommends
            self.has_conversation(id),
    {
        self.conversations[position(conversation_ids(self.conversations), id)]
    }

    /// An audit item is stored under `id`.
    pub open spec fn has_audit_item(self, id: u128) -> bool {
        position(audit_ids(self.audit_items), id) >= 0
    }

    /// What fetching the audit items of the conversation `id` gives: the
    /// items in the order in which they are shown; a failure where a row of
    /// the conversation stores no item, or where the conversation is neither
    /// stored nor has rows.
    pub open spec fn fetch_items(self, id: u128) -> Result<Seq<AuditItemView>, ErrorView> {
        if rows_of_conversation(self.audit_items, id).len() == 0 && !self.has_conversation(id) {
            Err(no_conversation(id))
        } else {
            rows_shown(rows_of_conversation(self.audit_items, id))
        }
    }

    /// What fetching the conversation `id` gives.
    pub open spec fn fetch_conversation(self, id: u128) -> Result<
        RequestConversationView,
        ErrorView,
    > {
        if !self.has_conversation(id) {
            Err(no_conversation(id))
        } else {
            match rows_shown(rows_of_conversation(self.audit_items, id)) {
                Err(e) => Err(e),
                Ok(items) => Ok(
                    RequestConversationView {
                        id,
                        created_at: self.conversation(id).created_at,
                        request_processor_id: self.conversation(id).request_processor,
                        audit_items: items,
                    },
                ),
            }
        }
    }

    /// What storing a new processor does and gives: it fails, and leaves the
    /// store as it was, exactly when a processor is stored under the
    /// processor's identifier.
    pub open spec fn creating_processor(self, p: RequestProcessorView) -> (
        StoreView,
        Result<RequestProcessorView, ErrorView>,
    ) {
        if self.has_processor(p.id) {
            (self, Err(duplicate_key()))
        } else {
            (self.with_processor(processor_row(p)), Ok(p))
        }
    }

    /// What replacing the processor `id` does and gives: it fails, and
    /// leaves the store as it was, exactly when fetching `id` fails; else the
    /// processor given is stored with `id` as its identifier, and given back.
    pub open spec fn replacing_processor(self, id: u128, p: RequestProcessorView) -> (
        StoreView,
        Result<RequestProcessorView, ErrorView>,
    ) {
        match self.fetch_processor(id) {
            Err(e) => (self, Err(e)),
            Ok(_) => (
                self.with_processor_replaced(id, processor_row(with_id(p, id))),
                Ok(with_id(p, id)),
            ),
        }
    }

    /// What removing the processor `id` does and gives: it fails, and leaves
    /// the store as it was, exactly when fetching `id` fails.
    pub open spec fn removing_processor(self, id: u128) -> (StoreView, Result<(), ErrorView>) {
        match self.fetch_processor(id) {
            Err(e) => (self, Err(e)),
            Ok(_) => (self.without_processor(id), Ok(())),
        }
    }

    /// What storing a new conversation of a processor does and gives, under
    /// the identifier and with the time given: it fails, and leaves the store
    /// as it was, when fetching the processor fails, and otherwise exactly
    /// when a conversation is stored under the identifier.
    pub open spec fn creating_conversation(
        self,
        request_processor_id: u128,
        id: u128,
        created_at: Timestamp,
    ) -> (StoreView, Result<RequestConversationView, ErrorView>) {
        match self.fetch_processor(request_processor_id) {
            Err(e) => (self, Err(e)),
            Ok(_) => if self.has_conversation(id) {
                (self, Err(duplicate_key()))
            } else {
                (
                    self.with_conversation(
                        ConversationRow { id, created_at, request_processor: request_processor_id },
                    ),
                    Ok(
                        RequestConversationView {
                            id,
                            created_at,
                            request_processor_id,
                            audit_items: Seq::empty(),
                        },
                    ),
                )
            },
        }
    }

    /// What storing an audit item does and gives: it fails, and leaves the
    /// store as it was, when the item's conversation is not stored, and
    /// otherwise exactly when an audit item is stored under the item's
    /// identifier.
    pub open spec fn storing_item(self, item: AuditItemView) -> (
        StoreView,
        Result<AuditItemView, ErrorView>,
    ) {
        if !self.has_conversation(item.conversation_id()) {
            (self, Err(no_conversation(item.conversation_id())))
        } else if self.has_audit_item(item.id()) {
            (self, Err(duplicate_key()))
        } else {
            (self.with_audit_item(audit_row(item)), Ok(item))
        }
    }

    /// The store with one more processor row.
    pub open spec fn with_processor(self, row: ProcessorRowView) -> StoreView {
        StoreView { processors: self.processors.push(row), ..self }
    }

    /// The store with `row` in place of each processor row that carries `id`.
    pub open spec fn with_processor_replaced(self, id: u128, row: ProcessorRowView) -> StoreView {
        StoreView { processors: rows_replaced(self.processors, id, row), ..self }
    }

    /// The store without the processor rows that carry `id`.
    pub open spec fn without_processor(self, id: u128) -> StoreView {
        StoreView { processors: rows_without(self.processors, id), ..self }
    }

    /// The store with one more conversation row.
    pub open spec fn with_conversation(self, row: ConversationRow) -> StoreView {
        StoreView { conversations: self.conversations.push(row), ..self }
    }

    /// The store with one more audit row.
    pub open spec fn with_audit_item(self, row: DbAuditItemView) -> StoreView {
        StoreView { audit_items: self.audit_items.push(row), ..self }
    }
}

/// The value of what a command that gives a conversation gives.
pub open spec fn conversation_outcome(
    r: Result<RequestConversation, RequestProcessorError>,
) -> Result<RequestConversationView, ErrorView> {
    match r {
        Ok(c) => Ok(c@),
        Err(e) => Err(e@),
    }
}

/// The value of what a command that gives a list of processors gives.
pub open spec fn processors_outcome(
    r: Result<Vec<RequestProcessor>, RequestProcessorError>,
) -> Result<Seq<RequestProcessorView>, ErrorView> {
    match r {
        Ok(ps) => Ok(ps@.map_values(|p: RequestProcessor| p@)),
        Err(e) => Err(e@),
    }
}

/// The value of what a command that gives nothing gives.
pub open spec fn unit_outcome(r: Result<(), RequestProcessorError>) -> Result<(), ErrorView> {
    match r {
        Ok(_) => Ok(()),
        Err(e) => Err(e@),
    }
}

/// A new conversation of a processor was asked for, under an identifier and
/// with a time that the store chose: `after` and `created` are what storing
/// it under some identifier and with some time did and gave. So the
/// conversation is stored unless fetching the processor fails or the
/// identifier chosen is taken, and a conversation that is given back carries
/// the identifier and the time chosen.
pub open spec fn conversation_created(
    before: StoreView,
    after: StoreView,
    request_processor_id: u128,
    created: Result<RequestConversationView, ErrorView>,
) -> bool {
    &&& exists|id: u128, at: Timestamp|
        (after, created) == #[trigger] before.creating_conversation(request_processor_id, id, at)
    &&& match created {
        Ok(c) => (after, created) == before.creating_conversation(
            request_processor_id,
            c.id,
            c.created_at,
        ),
        Err(e) => {
            &&& after == before
            &&& match before.fetch_processor(request_processor_id) {
                Err(f) => e == f,
                Ok(_) => e == duplicate_key(),
            }
        },
    }
}

/// The processor with its identifier set to `id`.
pub open spec fn with_id(p: RequestProcessorView, id: u128) -> RequestProcessorView {
    RequestProcessorView { id, ..p }
}

impl Store {
    /// The empty store.
    pub fn new() -> (store: Store)
        ensures
            store@.wf(),
            store@.processors.len() == 0,
            store@.conversations.len() == 0,
            store@.audit_items.len() == 0,
    {
        Store { processors: Vec::new(), conversations: Vec::new(), audit_items: Vec::new() }
    }

    /// The index of the first processor row that carries `id`.
    pub fn find_processor(&self, id: u128) -> (found: Option<usize>)
        ensures
            match found {
                Some(i) => i < self.processors@.len() && position(processor_ids(self@.processors), id) == i,
                None => position(processor_ids(self@.processors), id) == -1,
            },
    {
        let ghost ids = processor_ids(self@.processors);
        let mut i: usize = 0;
        while i < self.processors.len()
            invariant
                i <= self.processors@.len(),
                ids == processor_ids(self@.processors),
                forall|j: int| 0 <= j < i ==> ids[j] != id,
            decreases self.processors@.len() - i,
        {
            if self.processors[i].id == id {
                proof {
                    lemma_position_is(ids, id, i as int);
                }
                return Some(i);
            }
            i += 1;
        }
        proof {
            lemma_position(ids, id);
        }
        None
    }

    /// The index of the first conversation row that carries `id`.
    pub fn find_conversation(&self, id: u128) -> (found: Option<usize>)
        ensures
            match found {
                Some(i) => i < self.conversations@.len() && position(conversation_ids(self@.conversations), id) == i,
                None => position(conversation_ids(self@.conversations), id) == -1,
            },
    {
        let ghost ids = conversation_ids(self@.conversations);
        let mut i: usize = 0;
        while i < self.conversations.len()
            invariant
                i <= self.conversations@.len(),
                ids == conversation_ids(self@.conversations),
                forall|j: int| 0 <= j < i ==> ids[j] != id,
            decreases self.conversations@.len() - i,
        {
            if self.conversations[i].id == id {
                proof {
                    lemma_position_is(ids, id, i as int);
                }
                return Some(i);
            }
            i += 1;
        }
        proof {
            lemma_position(ids, id);
        }
        None
    }

    /// The index of the first audit row that carries `id`.
    pub fn find_audit_item(&self, id: u128) -> (found: Option<usize>)
        ensures
            match found {
                Some(i) => i < self.audit_items@.len() && position(audit_ids(self@.audit_items), id) == i,
                None => position(audit_ids(self@.audit_items), id) == -1,
            },
    {
        let ghost ids = audit_ids(self@.audit_items);
        let mut i: usize = 0;
        while i < self.audit_items.len()
            invariant
                i <= self.audit_items@.len(),
                ids == audit_ids(self@.audit_items),
                forall|j: int| 0 <= j < i ==> ids[j] != id,
            decreases self.audit_items@.len() - i,
        {
            if self.audit_items[i].id == id {
                proof {
                    lemma_position_is(ids, id, i as int);
                }
                return Some(i);
            }
            i += 1;
        }
        proof {
            lemma_position(ids, id);
        }
        None
    }

    /// Fetches the processor stored under `id`.
    pub fn get_request_processor(&self, id: u128) -> (fetched: Result<
        RequestProcessor,
        RequestProcessorError,
    >)
        ensures
            processor_outcome(fetched) == self@.fetch_processor(id),
    {
        match self.find_processor(id) {
            Some(i) => RequestProcessor::from_row(&self.processors[i]),
            None => Err(RequestProcessorError::not_found("RequestProcessor", id)),
        }
    }

    /// Stores a new processor and gives it back. Fails, and leaves the store
    /// as it was, exactly when a processor is stored under its identifier.
    pub fn create_request_processor(&mut self, processor: RequestProcessor) -> (created: Result<
        RequestProcessor,
        RequestProcessorError,
    >)
        ensures
            (final(self)@, processor_outcome(created)) == old(self)@.creating_processor(processor@),
    {
        match self.find_processor(processor.id) {
            Some(_) => Err(
                RequestProcessorError::Db(
                    "duplicate key value violates unique constraint".to_owned(),
                ),
            ),
            None => {
                let row = processor.to_row();
                proof {
                    assert(processor_views(self.processors@.push(row)) =~= processor_views(
                        self.processors@,
                    ).push(row@));
                }
                self.processors.push(row);
                Ok(processor)
            },
        }
    }

    /// Fetches the processors of a user, in the order in which they were
    /// stored.
    pub fn get_request_processors(&self, user_id: &str) -> (fetched: Result<
        Vec<RequestProcessor>,
        RequestProcessorError,
    >)
        ensures
            processors_outcome(fetched) == self@.fetch_processors(user_id@),
    {
        let ghost all = self@.processors;
        let mut found: Vec<RequestProcessor> = Vec::new();
        let mut i: usize = 0;
        proof {
            assert(all.take(0) =~= Seq::<ProcessorRowView>::empty());
            assert(found@.map_values(|p: RequestProcessor| p@) =~= Seq::<
                RequestProcessorView,
            >::empty());
        }
        while i < self.processors.len()
            invariant
                i <= self.processors@.len(),
                all == self@.processors,
                rows_processors(rows_of_user(all.take(i as int), user_id@)) == Ok::<
                    Seq<RequestProcessorView>,
                    ErrorView,
                >(found@.map_values(|p: RequestProcessor| p@)),
            decreases self.processors@.len() - i,
        {
            proof {
                assert(all.take(i as int + 1).drop_last() =~= all.take(i as int));
                assert(all.take(i as int + 1).last() == self.processors@[i as int]@);
            }
            if text_eq(self.processors[i].user_id.as_str(), user_id) {
                let ghost front = rows_of_user(all.take(i as int), user_id@);
                proof {
                    assert(front.push(all[i as int]).drop_last() =~= front);
                }
                match RequestProcessor::from_row(&self.processors[i]) {
                    Ok(p) => {
                        proof {
                            assert(found@.push(p).map_values(|p: RequestProcessor| p@)
                                =~= found@.map_values(|p: RequestProcessor| p@).push(p@));
                        }
                        found.push(p);
                    },
                    Err(e) => {
                        proof {
                            lemma_rows_of_user_prefix(all, user_id@, i as int + 1);
                            lemma_rows_processors_fail(
                                rows_of_user(all, user_id@),
                                rows_of_user(all.take(i as int + 1), user_id@).len() as int,
                            );
                        }
                        return Err(e);
                    },
                }
            }
            i += 1;
        }
        proof {
            assert(all.take(self.processors@.len() as int) =~= all);
        }
        Ok(found)
    }

    /// Replaces the processor stored under `id` by the one given, whose
    /// identifier becomes `id`, and gives the stored processor back. Fails,
    /// and leaves the store as it was, exactly when fetching `id` fails.
    pub fn update_request_processor(&mut self, id: u128, processor: RequestProcessor) -> (updated:
        Result<RequestProcessor, RequestProcessorError>)
        ensures
            (final(self)@, processor_outcome(updated)) == old(self)@.replacing_processor(
                id,
                processor@,
            ),
    {
        match self.get_request_processor(id) {
            Err(e) => {
                return Err(e);
            },
            Ok(_) => {},
        }
        let mut processor = processor;
        processor.id = id;
        let ghost before = self.processors@;
        let ghost row = processor_row(processor@);
        let mut i: usize = 0;
        while i < self.processors.len()
            invariant
                i <= self.processors@.len(),
                self.processors@.len() == before.len(),
                before == old(self).processors@,
                self@.conversations == old(self)@.conversations,
                self@.audit_items == old(self)@.audit_items,
                row == processor_row(processor@),
                forall|j: int|
                    0 <= j < i ==> (#[trigger] self.processors@[j])@ == (if before[j].id == id {
                        row
                    } else {
                        before[j]@
                    }),
                forall|j: int| i <= j < before.len() ==> (#[trigger] self.processors@[j]) == before[j],
            decreases self.processors@.len() - i,
        {
            if self.processors[i].id == id {
                let new_row = processor.to_row();
                self.processors.set(i, new_row);
            }
            i += 1;
        }
        proof {
            assert(self@.processors =~= rows_replaced(old(self)@.processors, id, row));
        }
        Ok(processor)
    }

    /// Removes the processor stored under `id`. Fails, and leaves the store
    /// as it was, exactly when fetching `id` fails.
    pub fn delete_request_processor(&mut self, id: u128) -> (deleted: Result<
        (),
        RequestProcessorError,
    >)
        ensures
            (final(self)@, unit_outcome(deleted)) == old(self)@.removing_processor(id),
    {
        match self.get_request_processor(id) {
            Err(e) => {
                return Err(e);
            },
            Ok(_) => {},
        }
        let ghost before = self@.processors;
        let mut kept: Vec<ProcessorRow> = Vec::new();
        let mut i: usize = 0;
        proof {
            assert(before.take(0) =~= Seq::<ProcessorRowView>::empty());
            assert(processor_views(kept@) =~= Seq::<ProcessorRowView>::empty());
        }
        while i < self.processors.len()
            invariant
                i <= self.processors@.len(),
                before == self@.processors,
                self@ == old(self)@,
                processor_views(kept@) == rows_without(before.take(i as int), id),
            decreases self.processors@.len() - i,
        {
            proof {
                assert(before.take(i as int + 1).drop_last() =~= before.take(i as int));
                assert(before.take(i as int + 1).last() == self.processors@[i as int]@);
            }
            if self.processors[i].id != id {
                let row = self.processors[i].duplicate();
                proof {
                    assert(processor_views(kept@.push(row)) =~= processor_views(kept@).push(row@));
                }
                kept.push(row);
            }
            i += 1;
        }
        proof {
            assert(before.take(self.processors@.len() as int) =~= before);
        }
        self.processors = kept;
        Ok(())
    }

    /// Stores a new conversation of the processor given, under the
    /// identifier and with the time given, and gives it back without audit
    /// items. Fails, and leaves the store as it was, when fetching the
    /// processor fails, and otherwise exactly when a conversation is stored
    /// under the identifier.
    pub fn create_request_conversation_with(
        &mut self,
        request_processor_id: u128,
        id: u128,
        created_at: Timestamp,
    ) -> (created: Result<RequestConversation, RequestProcessorError>)
        ensures
            (final(self)@, conversation_outcome(created)) == old(self)@.creating_conversation(
                request_processor_id,
                id,
                created_at,
            ),
    {
        match self.get_request_processor(request_processor_id) {
            Err(e) => {
                return Err(e);
            },
            Ok(_) => {},
        }
        match self.find_conversation(id) {
            Some(_) => Err(
                RequestProcessorError::Db(
                    "duplicate key value violates unique constraint".to_owned(),
                ),
            ),
            None => {
                self.conversations.push(
                    ConversationRow { id, created_at, request_processor: request_processor_id },
                );
                let conversation = RequestConversation {
                    id,
                    created_at,
                    request_processor_id,
                    audit_items: Vec::new(),
                };
                proof {
                    assert(conversation@.audit_items =~= Seq::<AuditItemView>::empty());
                }
                Ok(conversation)
            },
        }
    }

    /// Stores a new conversation of the processor given, under a fresh
    /// identifier and with the present time, and gives it back without audit
    /// items. Fails, and leaves the store as it was, when fetching the
    /// processor fails, and otherwise exactly when the identifier drawn is
    /// taken; so it succeeds for a stored processor while no conversation is
    /// stored.
    pub fn create_request_conversation(&mut self, request_processor_id: u128) -> (created: Result<
        RequestConversation,
        RequestProcessorError,
    >)
        ensures
            conversation_created(
                old(self)@,
                final(self)@,
                request_processor_id,
                conversation_outcome(created),
            ),
    {
        let id = fresh_id();
        let at = now();
        let created = self.create_request_conversation_with(request_processor_id, id, at);
        proof {
            assert((self@, conversation_outcome(created)) == old(self)@.creating_conversation(
                request_processor_id,
                id,
                at,
            ));
        }
        created
    }

    /// The audit items that the rows of the conversation `id` store, in the
    /// order of the table, and the number of these rows.
    fn conversation_items(&self, id: u128) -> (read: (
        Result<Vec<AuditItem>, RequestProcessorError>,
        usize,
    ))
        ensures
            items_outcome(read.0) == rows_items(rows_of_conversation(self@.audit_items, id)),
            read.0 is Ok ==> read.1 == rows_of_conversation(self@.audit_items, id).len(),
            read.0 is Err ==> rows_of_conversation(self@.audit_items, id).len() > 0,
    {
        let ghost all = self@.audit_items;
        let mut items: Vec<AuditItem> = Vec::new();
        let mut i: usize = 0;
        proof {
            assert(all.take(0) =~= Seq::<DbAuditItemView>::empty());
            assert(item_views(items@) =~= Seq::<AuditItemView>::empty());
        }
        while i < self.audit_items.len()
            invariant
                i <= self.audit_items@.len(),
                all == self@.audit_items,
                rows_items(rows_of_conversation(all.take(i as int), id)) == Ok::<
                    Seq<AuditItemView>,
                    ErrorView,
                >(item_views(items@)),
                items@.len() == rows_of_conversation(all.take(i as int), id).len(),
            decreases self.audit_items@.len() - i,
        {
            proof {
                assert(all.take(i as int + 1).drop_last() =~= all.take(i as int));
                assert(all.take(i as int + 1).last() == self.audit_items@[i as int]@);
            }
            if self.audit_items[i].conversation_id == id {
                let ghost front = rows_of_conversation(all.take(i as int), id);
                proof {
                    assert(front.push(all[i as int]).drop_last() =~= front);
                }
                match AuditItem::from_db_audit_item(&self.audit_items[i]) {
                    Ok(item) => {
                        proof {
                            assert(item_views(items@.push(item)) =~= item_views(items@).push(
                                item@,
                            ));
                        }
                        items.push(item);
                    },
                    Err(e) => {
                        proof {
                            lemma_rows_of_conversation_prefix(all, id, i as int + 1);
                            lemma_rows_items_fail(
                                rows_of_conversation(all, id),
                                rows_of_conversation(all.take(i as int + 1), id).len() as int,
                            );
                        }
                        return (Err(e), 0);
                    },
                }
            }
            i += 1;
        }
        proof {
            assert(all.take(self.audit_items@.len() as int) =~= all);
        }
        let n = items.len();
        (Ok(items), n)
    }

    /// Fetches the audit items of the conversation `id`, in the order in
    /// which they are shown.
    pub fn get_audit_items(&self, id: u128) -> (fetched: Result<
        Vec<AuditItem>,
        RequestProcessorError,
    >)
        ensures
            items_outcome(fetched) == self@.fetch_items(id),
    {
        match self.conversation_items(id) {
            (Err(e), _) => Err(e),
            (Ok(items), n) => {
                if n == 0 && self.find_conversation(id).is_none() {
                    return Err(RequestProcessorError::not_found("RequestConversation", id));
                }
                Ok(sort_audit_items(items))
            },
        }
    }

    /// Fetches the conversation `id` with its audit items, in the order in
    /// which they are shown.
    pub fn get_request_conversation(&self, id: u128) -> (fetched: Result<
        RequestConversation,
        RequestProcessorError,
    >)
        ensures
            conversation_outcome(fetched) == self@.fetch_conversation(id),
    {
        match self.find_conversation(id) {
            None => Err(RequestProcessorError::not_found("RequestConversation", id)),
            Some(i) => {
                match self.conversation_items(id) {
                    (Err(e), _) => Err(e),
                    (Ok(items), _) => Ok(
                        RequestConversation {
                            id,
                            created_at: self.conversations[i].created_at,
                            request_processor_id: self.conversations[i].request_processor,
                            audit_items: sort_audit_items(items),
                        },
                    ),
                }
            },
        }
    }

    /// Stores an audit item and gives it back. Fails, and leaves the store
    /// as it was, when the item's conversation is not stored, and otherwise
    /// exactly when an audit item is stored under the item's identifier.
    pub fn create_audit_item(&mut self, item: AuditItem) -> (created: Result<
        AuditItem,
        RequestProcessorError,
    >)
        ensures
            (final(self)@, item_outcome(created)) == old(self)@.storing_item(item@),
    {
        let row = item.to_audit_db_item();
        if self.find_conversation(row.conversation_id).is_none() {
            return Err(
                RequestProcessorError::not_found("RequestConversation", row.conversation_id),
            );
        }
        match self.find_audit_item(row.id) {
            Some(_) => Err(
                RequestProcessorError::Db(
                    "duplicate key value violates unique constraint".to_owned(),
                ),
            ),
            None => {
                proof {
                    assert(row_views(self.audit_items@.push(row)) =~= row_views(
                        self.audit_items@,
                    ).push(row@));
                }
                self.audit_items.push(row);
                Ok(item)
            },
        }
    }
}

/// The rows of a conversation among the first rows of a table are the
/// first of the conversation's rows in the table.
pub proof fn lemma_rows_of_conversation_prefix(rows: Seq<DbAuditItemView>, id: u128, n: int)
    requires
        0 <= n <= rows.len(),
    ensures
        rows_of_conversation(rows.take(n), id).len() <= rows_of_conversation(rows, id).len(),
        rows_of_conversation(rows, id).take(rows_of_conversation(rows.take(n), id).len() as int)
            == rows_of_conversation(rows.take(n), id),
    decreases rows.len() - n,
{
    if n < rows.len() {
        lemma_rows_of_conversation_prefix(rows, id, n + 1);
        assert(rows.take(n + 1).drop_last() =~= rows.take(n));
        let longer = rows_of_conversation(rows.take(n + 1), id);
        let shorter = rows_of_conversation(rows.take(n), id);
        assert(rows_of_conversation(rows, id).take(shorter.len() as int) =~= shorter) by {
            assert(longer.take(shorter.len() as int) =~= shorter);
            assert(rows_of_conversation(rows, id).take(longer.len() as int).take(
                shorter.len() as int,
            ) =~= rows_of_conversation(rows, id).take(shorter.len() as int));
        }
    } else {
        assert(rows.take(n) =~= rows);
        assert(rows_of_conversation(rows, id).take(rows_of_conversation(rows, id).len() as int)
            =~= rows_of_conversation(rows, id));
    }
}

/// The rows of a user among the first rows of a table are the first of the
/// user's rows in the table.
pub proof fn lemma_rows_of_user_prefix(rows: Seq<ProcessorRowView>, user_id: Seq<char>, n: int)
    requires
        0 <= n <= rows.len(),
    ensures
        rows_of_user(rows.take(n), user_id).len() <= rows_of_user(rows, user_id).len(),
        rows_of_user(rows, user_id).take(rows_of_user(rows.take(n), user_id).len() as int)
            == rows_of_user(rows.take(n), user_id),
    decreases rows.len() - n,
{
    if n < rows.len() {
        lemma_rows_of_user_prefix(rows, user_id, n + 1);
        assert(rows.take(n + 1).drop_last() =~= rows.take(n));
        let longer = rows_of_user(rows.take(n + 1), user_id);
        let shorter = rows_of_user(rows.take(n), user_id);
        assert(rows_of_user(rows, user_id).take(shorter.len() as int) =~= shorter) by {
            assert(longer.take(shorter.len() as int) =~= shorter);
            assert(rows_of_user(rows, user_id).take(longer.len() as int).take(
                shorter.len() as int,
            ) =~= rows_of_user(rows, user_id).take(shorter.len() as int));
        }
    } else {
        assert(rows.take(n) =~= rows);
        assert(rows_of_user(rows, user_id).take(rows_of_user(rows, user_id).len() as int)
            =~= rows_of_user(rows, user_id));
    }
}

/// Where the first rows of a list store no processors, the list stores
/// none, for the same reason.
pub proof fn lemma_rows_processors_fail(rows: Seq<ProcessorRowView>, n: int)
    requires
        0 <= n <= rows.len(),
        rows_processors(rows.take(n)) is Err,
    ensures
        rows_processors(rows) == rows_processors(rows.take(n)),
    decreases rows.len() - n,
{
    if n < rows.len() {
        assert(rows.take(n + 1).drop_last() =~= rows.take(n));
        lemma_rows_processors_fail(rows, n + 1);
    } else {
        assert(rows.take(n) =~= rows);
    }
}

} // verus!
