//! Laws: what holds of the gateway across its operations.

use vstd::prelude::*;
use crate::audit::{AuditItem, AuditItemView};
use crate::chronology::{
    chronological,
    lemma_chronological_ordered,
    lemma_chronological_permutation,
    ordered,
    precedes,
};
use crate::command::{command_done, ReqReply};
use crate::conversation::RequestConversationView;
use crate::engine::{
    advanced,
    run_failure,
    started,
    EngineAction,
    EngineEvent,
    Invocation,
    ProcessorCmd,
    Scripts,
    Thrown,
};
use crate::text::holds_text;
use crate::error::{message_of, status_of, ErrorView, Origin, RequestProcessorError};
use crate::frontend::{body_view, conversation_of, stores_processor, FrontAction, Inbound};
use crate::ident::{id_text, Timestamp};
use crate::lookup::{lemma_position, lemma_position_contains, position};
use crate::processor::{unknown_tag_text, RequestProcessorView};
use crate::request::{Request, RequestView};
use crate::response::{body_text, ResponseView};
use crate::rows::{
    audit_row,
    lemma_audit_row_round_trip,
    processor_row,
    row_item,
    row_processor,
    rows_items,
    rows_shown,
    DbAuditItemView,
    ProcessorRowView,
};
use crate::runtime::{
    conversation_header,
    counting,
    dispatched,
    request_added,
    request_incs,
    response_recorded,
    Dispatch,
    MAX_REQUESTS,
    RuntimeState,
};
use crate::storage::{
    audit_ids,
    conversation_created,
    conversation_ids,
    no_processor,
    processor_ids,
    rows_of_conversation,
    rows_without,
    with_id,
    StoreView,
};
use crate::wire::{error_message_json, json_draft};

verus! {

/// The clock never went back between two items of the list.
pub open spec fn clock_never_went_back(items: Seq<AuditItemView>) -> bool {
    forall|i: int, j: int|
        0 <= i <= j < items.len() ==> items[i].created_at().spec_le(items[j].created_at())
}

/// Every response item that an invocation hands out names a request item
/// that the invocation handed out before it, in the same conversation: the
/// item of the inbound request. Where the clock never went back, that
/// request item was made no later than the response item.
pub proof fn law_responses_name_a_request(state: RuntimeState, i: int)
    requires
        state.wf(),
        0 <= i < state.journal@.len(),
        state.journal@[i] is Response,
    ensures
        i > 0,
        state.journal@[0] is Request,
        state.journal@[i] matches AuditItemView::Response { request_id, conversation_id, .. }
            && request_id == state.journal@[0].id() && conversation_id
            == state.journal@[0].conversation_id(),
        clock_never_went_back(state.journal@) ==> state.journal@[0].created_at().spec_le(
            state.journal@[i].created_at(),
        ),
{
}

/// The `inc` values of the request items that an invocation hands out are,
/// in the order in which it hands them out, the numbers from 0 up to the
/// number of requests that the processor's code has issued; so no two
/// request items of an invocation have the same `inc`.
pub proof fn law_incs_count_up(state: RuntimeState)
    requires
        state.wf(),
    ensures
        request_incs(state.journal@) == counting(state.counter.0 + 1),
        forall|k: int|
            0 <= k <= state.counter.0 ==> (#[trigger] request_incs(state.journal@)[k]) == k,
        request_incs(state.journal@).no_duplicates(),
{
}

/// Every item that an invocation hands out belongs to the invocation's
/// conversation.
pub proof fn law_journal_is_of_one_conversation(state: RuntimeState, i: int)
    requires
        state.wf(),
        0 <= i < state.journal@.len(),
    ensures
        state.journal@[i].conversation_id() == state.conversation_id,
{
}

/// The response that an invocation answers with carries the header
/// `FH-Conversation-Id` with exactly one value, the canonical text of the
/// conversation's identifier, and that is the identifier which the front
/// end reads from it.
pub proof fn law_answer_names_the_conversation(state: RuntimeState)
    ensures
        state.answer().headers.contains_key(conversation_header()),
        state.answer().headers[conversation_header()] == seq![id_text(state.conversation_id)],
        conversation_of(state.answer()) == Some(id_text(state.conversation_id)),
{
}

/// Two outbound calls that the processor's code asks for one after the
/// other are recorded in that order, the second with the next `inc`; and
/// where their items were made at the same time, the first is shown before
/// the second and not the second before the first.
pub proof fn law_dispatches_keep_issue_order(
    s0: RuntimeState,
    s1: RuntimeState,
    s2: RuntimeState,
    first: (RequestView, Seq<char>),
    second: (RequestView, Seq<char>),
    first_ok: (bool, bool),
    second_ok: (bool, bool),
    d1: Dispatch,
    d2: Dispatch,
)
    requires
        s0.wf(),
        dispatched(s0, s1, first.0, first.1, first_ok.0, first_ok.1, Ok(d1)),
        dispatched(s1, s2, second.0, second.1, second_ok.0, second_ok.1, Ok(d2)),
    ensures
        s2.journal@ == s0.journal@.push(d1.item@).push(d2.item@),
        d1.item@ matches AuditItemView::Request { inc: a, .. } && d2.item@ matches AuditItemView::Request {
            inc: b,
            ..
        } && b == a + 1,
        d1.item@.created_at() == d2.item@.created_at() ==> precedes(d1.item@, d2.item@) && !precedes(
            d2.item@,
            d1.item@,
        ),
{
}

/// Asking for an outbound call whose URL is not valid fails with a
/// processing error; the request is recorded under the next `inc` all the
/// same, and its item handed out, and nothing else is: no response item
/// follows it. This holds as long as fewer than `MAX_REQUESTS` requests
/// were issued.
pub proof fn law_invalid_url_records_the_request_only(
    before: RuntimeState,
    after: RuntimeState,
    request: RequestView,
    url: Seq<char>,
    method_ok: bool,
    asked: Result<Dispatch, RequestProcessorError>,
)
    requires
        before.wf(),
        before.counter.0 < MAX_REQUESTS,
        dispatched(before, after, request, url, method_ok, false, asked),
    ensures
        asked matches Ok(d) && {
            &&& d.call matches Err(e) && e@ is Processing
            &&& d.item@ matches AuditItemView::Request { inc, payload, conversation_id, .. }
                && inc == before.counter.0 + 1 && payload == request && conversation_id
                == before.conversation_id
            &&& after.journal@ == before.journal@.push(d.item@)
        },
        after.request_list.requests@.contains_key((before.counter.0 + 1) as usize),
        after.request_list.requests@[(before.counter.0 + 1) as usize]@ == request,
        after.request_list.responses@ == before.request_list.responses@,
{
}

/// A request to store a processor whose body names a language other than
/// `javascript` is answered at once with status 400; no command is sent.
pub proof fn law_unknown_language_is_a_bad_request(inbound: Inbound, action: FrontAction)
    requires
        inbound.document matches Some(j) && json_draft(j@) matches Some(d) && d.language
            != "javascript"@,
        stores_processor(inbound, action, None),
    ensures
        action matches FrontAction::Answer(a) && a.status == 400 && body_view(a.body) == Some(
            error_message_json(400, unknown_tag_text()),
        ),
{
}

/// Recording a request that the processor's code issues gives it the next
/// `inc`, one more than the number of requests issued before, records it
/// under that index and hands out one request item with that `inc`, for the
/// conversation of the invocation and with the request as payload. This
/// holds as long as fewer than `MAX_REQUESTS` requests were issued.
pub proof fn law_a_request_gets_the_next_inc(
    before: RuntimeState,
    after: RuntimeState,
    request: RequestView,
    added: Result<(usize, AuditItem), RequestProcessorError>,
)
    requires
        before.wf(),
        before.counter.0 < MAX_REQUESTS,
        request_added(before, after, request, added),
    ensures
        added matches Ok((inc, item)) && inc == before.counter.0 + 1 && after.counter.0 == inc
            && after.request_list.requests@.contains_key(inc)
            && after.request_list.requests@[inc]@ == request && item@
            == (AuditItemView::Request {
            id: item@.id(),
            created_at: item@.created_at(),
            inc: (before.counter.0 + 1) as i32,
            conversation_id: before.conversation_id,
            payload: request,
        }) && after.journal@ == before.journal@.push(item@),
{
}

/// An outbound call that is asked for with a valid method and a valid URL,
/// and answered, leaves the request item and then the response item in the
/// journal; the response is recorded under the index of the request, is
/// given back as its document, and is the last response, so that its body
/// is the final body where no final response is set. This holds as long as
/// fewer than `MAX_REQUESTS` requests were issued.
pub proof fn law_an_answered_call_is_recorded(
    states: (RuntimeState, RuntimeState, RuntimeState),
    call: (RequestView, Seq<char>),
    asked: Result<Dispatch, RequestProcessorError>,
    response: ResponseView,
    item: AuditItemView,
)
    requires
        states.0.wf(),
        states.0.counter.0 < MAX_REQUESTS,
        dispatched(states.0, states.1, call.0, call.1, true, true, asked),
        asked matches Ok(d) && d.call matches Ok(c) && response_recorded(
            states.1,
            states.2,
            c.inc,
            response,
            item,
        ),
    ensures
        asked matches Ok(d) && d.call matches Ok(c) && {
            &&& c.inc == states.0.counter.0 + 1
            &&& d.item@ matches AuditItemView::Request { inc, payload, .. } && inc == c.inc
                && payload == call.0
            &&& item matches AuditItemView::Response { payload, request_id, .. } && payload
                == response && request_id == states.0.request_audit_id
            &&& states.2.journal@ == states.0.journal@.push(d.item@).push(item)
            &&& states.2.request_list.responses@.contains_key(c.inc)
            &&& states.2.request_list.responses@[c.inc]@ == response
            &&& states.2.final_response is None ==> states.2.final_body() == body_text(response)
        },
{
}

/// The value of the failure kept, if one is kept.
pub open spec fn kept_view(thrown: Thrown) -> Option<ErrorView> {
    match thrown.kept {
        Some(f) => Some(f@),
        None => None,
    }
}

/// A failed run is answered with exactly one reply, a processing error, and
/// the invocation is over: the failure of the operation that the code did
/// not catch, so that a failed outbound call is answered as one; or, where
/// the code failed by itself, a processing error of the engine.
pub proof fn law_a_failed_run_is_answered_with_a_processing_error(
    state: RuntimeState,
    thrown: Thrown,
    scripts: Scripts,
    next: Invocation,
    action: EngineAction,
)
    requires
        advanced(
            Invocation::Running { state },
            EngineEvent::Executed(Err(thrown)),
            scripts,
            next,
            action,
        ),
    ensures
        next is Done,
        action matches EngineAction::Reply(Err(e)) && e@ is Processing && e@ == run_failure(thrown),
        (thrown.kept matches Some(f) && f@ is Processing && holds_text(
            thrown.text@,
            message_of(f@),
        )) ==> (action matches EngineAction::Reply(Err(e)) && Some(e@) == kept_view(thrown)),
        thrown.kept is None ==> (action matches EngineAction::Reply(Err(e)) && e@
            == (ErrorView::Processing { origin: Origin::Engine, message: thrown.text@ })),
{
}

/// Where a processor is stored and no conversation is, a conversation of
/// the processor is created, whatever identifier is drawn for it.
pub proof fn law_the_first_conversation_is_created(
    before: StoreView,
    after: StoreView,
    request_processor_id: u128,
    created: Result<RequestConversationView, ErrorView>,
)
    requires
        before.fetch_processor(request_processor_id) is Ok,
        before.conversations.len() == 0,
        conversation_created(before, after, request_processor_id, created),
    ensures
        created matches Ok(c) && c.request_processor_id == request_processor_id
            && after.conversations.len() == 1 && after.has_conversation(c.id),
{
    assert(conversation_ids(before.conversations) =~= Seq::<u128>::empty());
    assert(forall|id: u128| !before.has_conversation(id));
    let c = created->Ok_0;
    let ids = conversation_ids(after.conversations);
    assert(ids[0] == c.id);
    lemma_position_contains(ids, c.id);
}

/// Removing a processor that is not stored fails with the failure for a
/// missing processor, which is answered with status 404, and leaves the
/// store as it was.
pub proof fn law_delete_of_missing_processor_is_not_found(store: StoreView, id: u128)
    requires
        !store.has_processor(id),
    ensures
        store.removing_processor(id) == (store, Err::<(), ErrorView>(no_processor(id))),
        status_of(no_processor(id)) == 404,
{
}

/// A processor that has just been stored is fetched as it was stored.
pub proof fn law_create_then_get(store: StoreView, p: RequestProcessorView)
    requires
        !store.has_processor(p.id),
    ensures
        store.creating_processor(p).1 == Ok::<RequestProcessorView, ErrorView>(p),
        store.creating_processor(p).0.fetch_processor(p.id) == Ok::<RequestProcessorView, ErrorView>(
            p,
        ),
{
    let ids = processor_ids(store.processors);
    let after = store.creating_processor(p).0;
    let ids2 = processor_ids(after.processors);
    assert(ids2 =~= ids.push(p.id));
    assert(ids2.drop_last() =~= ids);
}

/// A processor that has just been replaced is fetched as the replacement,
/// under the identifier that it was stored under before.
pub proof fn law_update_then_get(store: StoreView, id: u128, p: RequestProcessorView)
    requires
        store.fetch_processor(id) is Ok,
    ensures
        store.replacing_processor(id, p).1 == Ok::<RequestProcessorView, ErrorView>(with_id(p, id)),
        store.replacing_processor(id, p).0.fetch_processor(id) == Ok::<
            RequestProcessorView,
            ErrorView,
        >(with_id(p, id)),
{
    let ids = processor_ids(store.processors);
    let after = store.replacing_processor(id, p).0;
    let ids2 = processor_ids(after.processors);
    lemma_position(ids, id);
    assert(ids2 =~= ids);
}

/// The rows of a conversation all carry the conversation's identifier, and
/// each of them is a row of the table.
pub proof fn lemma_rows_of_conversation(rows: Seq<DbAuditItemView>, id: u128)
    ensures
        forall|k: int|
            0 <= k < rows_of_conversation(rows, id).len() ==> (#[trigger] rows_of_conversation(
                rows,
                id,
            )[k]).conversation_id == id && rows.contains(rows_of_conversation(rows, id)[k]),
    decreases rows.len(),
{
    if rows.len() > 0 {
        let front = rows.drop_last();
        lemma_rows_of_conversation(front, id);
        let found = rows_of_conversation(rows, id);
        assert forall|k: int| 0 <= k < found.len() implies (#[trigger] found[k]).conversation_id
            == id && rows.contains(found[k]) by {
            if k < rows_of_conversation(front, id).len() {
                let r = rows_of_conversation(front, id)[k];
                assert(found[k] == r);
                let j = choose|j: int| 0 <= j < front.len() && front[j] == r;
                assert(rows[j] == r);
            } else {
                assert(found[k] == rows[rows.len() - 1]);
            }
        }
    }
}

/// The items that rows store are as many as the rows, and each is the item
/// of its row.
pub proof fn lemma_rows_items(rows: Seq<DbAuditItemView>)
    requires
        rows_items(rows) is Ok,
    ensures
        rows_items(rows)->Ok_0.len() == rows.len(),
        forall|k: int|
            0 <= k < rows.len() ==> row_item(#[trigger] rows[k]) == Ok::<AuditItemView, ErrorView>(
                rows_items(rows)->Ok_0[k],
            ),
    decreases rows.len(),
{
    if rows.len() > 0 {
        lemma_rows_items(rows.drop_last());
        assert forall|k: int| 0 <= k < rows.len() implies row_item(#[trigger] rows[k]) == Ok::<
            AuditItemView,
            ErrorView,
        >(rows_items(rows)->Ok_0[k]) by {
            if k < rows.len() - 1 {
                assert(rows.drop_last()[k] == rows[k]);
            }
        }
    }
}

/// Every item of the shown order is an item of the list given.
pub proof fn lemma_chronological_members(items: Seq<AuditItemView>, k: int)
    requires
        0 <= k < chronological(items).len(),
    ensures
        items.contains(chronological(items)[k]),
{
    broadcast use vstd::seq_lib::group_to_multiset_ensures;

    lemma_chronological_permutation(items);
    let shown = chronological(items);
    assert(shown.contains(shown[k]));
    assert(shown.to_multiset().count(shown[k]) > 0);
}

/// Every audit item that is fetched for a conversation carries the
/// conversation's identifier, whether the items are fetched alone or with
/// the conversation.
pub proof fn law_fetched_items_belong_to_the_conversation(store: StoreView, id: u128)
    ensures
        store.fetch_items(id) matches Ok(items) ==> forall|k: int|
            0 <= k < items.len() ==> (#[trigger] items[k]).conversation_id() == id,
        store.fetch_conversation(id) matches Ok(c) ==> c.id == id && forall|k: int|
            0 <= k < c.audit_items.len() ==> (#[trigger] c.audit_items[k]).conversation_id() == id,
{
    let rows = rows_of_conversation(store.audit_items, id);
    if rows_shown(rows) is Ok {
        let stored = rows_items(rows)->Ok_0;
        let shown = chronological(stored);
        lemma_rows_of_conversation(store.audit_items, id);
        lemma_rows_items(rows);
        assert forall|k: int| 0 <= k < shown.len() implies (#[trigger] shown[k]).conversation_id()
            == id by {
            lemma_chronological_members(stored, k);
            let j = choose|j: int| 0 <= j < stored.len() && stored[j] == shown[k];
            assert(row_item(rows[j]) == Ok::<AuditItemView, ErrorView>(stored[j]));
            assert(rows[j].conversation_id == id);
        }
    }
}

/// The audit items that are fetched for a conversation are in the order in
/// which they are shown: by time of creation, and two requests made at the
/// same time by `inc`.
pub proof fn law_fetched_items_are_ordered(store: StoreView, id: u128)
    ensures
        store.fetch_items(id) matches Ok(items) ==> ordered(items),
        store.fetch_conversation(id) matches Ok(c) ==> ordered(c.audit_items),
        forall|a: AuditItemView, b: AuditItemView|
            #![trigger precedes(a, b)]
            precedes(a, b) && a.created_at() == b.created_at() && a is Request && b is Request
                ==> a->Request_inc <= b->Request_inc,
{
    let rows = rows_of_conversation(store.audit_items, id);
    if rows_shown(rows) is Ok {
        lemma_chronological_ordered(rows_items(rows)->Ok_0);
    }
}

/// The rows without those of an identifier are rows of the table, in the
/// order of the table, and none of them carries the identifier.
pub proof fn lemma_rows_without(rows: Seq<ProcessorRowView>, id: u128)
    ensures
        forall|k: int|
            0 <= k < rows_without(rows, id).len() ==> (
            #[trigger] rows_without(rows, id)[k]).id != id && rows.contains(
                rows_without(rows, id)[k],
            ),
        processor_ids(rows).no_duplicates() ==> processor_ids(
            rows_without(rows, id),
        ).no_duplicates(),
    decreases rows.len(),
{
    if rows.len() > 0 {
        let front = rows.drop_last();
        lemma_rows_without(front, id);
        let kept = rows_without(rows, id);
        let kept_front = rows_without(front, id);
        assert forall|k: int| 0 <= k < kept.len() implies (#[trigger] kept[k]).id != id
            && rows.contains(kept[k]) by {
            if k < kept_front.len() {
                let r = kept_front[k];
                assert(kept[k] == r);
                let j = choose|j: int| 0 <= j < front.len() && front[j] == r;
                assert(rows[j] == r);
            } else {
                assert(kept[k] == rows[rows.len() - 1]);
            }
        }
        if processor_ids(rows).no_duplicates() {
            assert forall|i: int, j: int|
                0 <= i < front.len() && 0 <= j < front.len() && i != j implies processor_ids(
                front,
            )[i] != processor_ids(front)[j] by {
                assert(processor_ids(rows)[i] == front[i].id);
                assert(processor_ids(rows)[j] == front[j].id);
            }
            if rows.last().id != id {
                assert forall|i: int, j: int|
                    0 <= i < kept.len() && 0 <= j < kept.len() && i != j implies processor_ids(
                    kept,
                )[i] != processor_ids(kept)[j] by {
                    if i < kept_front.len() && j < kept_front.len() {
                        assert(processor_ids(kept_front)[i] == kept[i].id);
                        assert(processor_ids(kept_front)[j] == kept[j].id);
                    } else {
                        let low = if i < j {
                            i
                        } else {
                            j
                        };
                        let r = kept_front[low];
                        assert(kept[low] == r);
                        let m = choose|m: int| 0 <= m < front.len() && front[m] == r;
                        assert(processor_ids(rows)[m] == r.id);
                        assert(processor_ids(rows)[rows.len() - 1] == rows.last().id);
                    }
                }
            }
        }
    }
}

/// Storing, replacing and removing processors, and storing conversations
/// and audit items, keep the tables sound.
pub proof fn law_changes_keep_the_tables_sound(
    store: StoreView,
    p: RequestProcessorView,
    id: u128,
    at: Timestamp,
    item: AuditItemView,
)
    requires
        store.wf(),
    ensures
        store.creating_processor(p).0.wf(),
        store.replacing_processor(id, p).0.wf(),
        store.removing_processor(id).0.wf(),
        store.creating_conversation(p.id, id, at).0.wf(),
        store.storing_item(item).0.wf(),
{
    let pids = processor_ids(store.processors);
    let cids = conversation_ids(store.conversations);
    let aids = audit_ids(store.audit_items);
    assert(store.creating_processor(p).0.wf()) by {
        let after = store.creating_processor(p).0;
        if !store.has_processor(p.id) {
            lemma_position_contains(pids, p.id);
            assert(processor_ids(after.processors) =~= pids.push(p.id));
            assert forall|i: int| 0 <= i < after.processors.len() implies row_processor(
                #[trigger] after.processors[i],
            ) is Ok by {
                if i < store.processors.len() {
                    assert(after.processors[i] == store.processors[i]);
                }
            }
        }
    }
    assert(store.replacing_processor(id, p).0.wf()) by {
        let after = store.replacing_processor(id, p).0;
        if store.fetch_processor(id) is Ok {
            assert(processor_ids(after.processors) =~= pids);
            assert forall|i: int| 0 <= i < after.processors.len() implies row_processor(
                #[trigger] after.processors[i],
            ) is Ok by {
                assert(after.processors[i] == if store.processors[i].id == id {
                    processor_row(with_id(p, id))
                } else {
                    store.processors[i]
                });
            }
        }
    }
    assert(store.removing_processor(id).0.wf()) by {
        let after = store.removing_processor(id).0;
        if store.fetch_processor(id) is Ok {
            lemma_rows_without(store.processors, id);
            assert forall|i: int| 0 <= i < after.processors.len() implies row_processor(
                #[trigger] after.processors[i],
            ) is Ok by {
                let r = after.processors[i];
                let j = choose|j: int| 0 <= j < store.processors.len() && store.processors[j] == r;
                assert(row_processor(store.processors[j]) is Ok);
            }
        }
    }
    assert(store.creating_conversation(p.id, id, at).0.wf()) by {
        let after = store.creating_conversation(p.id, id, at).0;
        if after != store {
            lemma_position_contains(cids, id);
            let cids2 = conversation_ids(after.conversations);
            assert(cids2 =~= cids.push(id));
            assert forall|i: int| 0 <= i < after.audit_items.len() implies after.has_conversation(
                (#[trigger] after.audit_items[i]).conversation_id,
            ) by {
                let c = store.audit_items[i].conversation_id;
                assert(store.has_conversation(c));
                lemma_position_contains(cids, c);
                let j = choose|j: int| 0 <= j < cids.len() && cids[j] == c;
                assert(cids2[j] == c);
                lemma_position_contains(cids2, c);
            }
        }
    }
    assert(store.storing_item(item).0.wf()) by {
        let after = store.storing_item(item).0;
        if after != store {
            lemma_position_contains(aids, item.id());
            assert(audit_ids(after.audit_items) =~= aids.push(item.id()));
            lemma_audit_row_round_trip(item);
            assert forall|i: int| 0 <= i < after.audit_items.len() implies row_item(
                #[trigger] after.audit_items[i],
            ) is Ok && after.has_conversation(after.audit_items[i].conversation_id) by {
                if i < store.audit_items.len() {
                    assert(after.audit_items[i] == store.audit_items[i]);
                }
            }
        }
    }
}

/// Rows that all store an item store, as a list, the list of their items.
pub proof fn lemma_rows_items_total(rows: Seq<DbAuditItemView>)
    requires
        forall|k: int| 0 <= k < rows.len() ==> row_item(#[trigger] rows[k]) is Ok,
    ensures
        rows_items(rows) is Ok,
    decreases rows.len(),
{
    if rows.len() > 0 {
        assert forall|k: int| 0 <= k < rows.drop_last().len() implies row_item(
            #[trigger] rows.drop_last()[k],
        ) is Ok by {
            assert(rows.drop_last()[k] == rows[k]);
        }
        lemma_rows_items_total(rows.drop_last());
        assert(row_item(rows[rows.len() - 1]) is Ok);
    }
}

/// In a sound store, a stored conversation is fetched, and so are its audit
/// items.
pub proof fn law_stored_conversation_is_fetched(store: StoreView, id: u128)
    requires
        store.wf(),
        store.has_conversation(id),
    ensures
        store.fetch_conversation(id) is Ok,
        store.fetch_items(id) is Ok,
{
    let rows = rows_of_conversation(store.audit_items, id);
    lemma_rows_of_conversation(store.audit_items, id);
    assert forall|k: int| 0 <= k < rows.len() implies row_item(#[trigger] rows[k]) is Ok by {
        let j = choose|j: int| 0 <= j < store.audit_items.len() && store.audit_items[j] == rows[k];
        assert(row_item(store.audit_items[j]) is Ok);
    }
    lemma_rows_items_total(rows);
}

/// Two conversations that are created one after the other have different
/// identifiers.
pub proof fn law_conversations_differ(
    store: StoreView,
    first: (u128, u128, Timestamp),
    second: (u128, u128, Timestamp),
)
    requires
        store.creating_conversation(first.0, first.1, first.2).1 is Ok,
        store.creating_conversation(first.0, first.1, first.2).0.creating_conversation(
            second.0,
            second.1,
            second.2,
        ).1 is Ok,
    ensures
        first.1 != second.1,
{
    let after = store.creating_conversation(first.0, first.1, first.2).0;
    let ids = conversation_ids(after.conversations);
    assert(ids[ids.len() - 1] == first.1);
    lemma_position_contains(ids, first.1);
}

/// The rows of a conversation in two tables, one behind the other, are its
/// rows in the first followed by its rows in the second.
pub proof fn lemma_rows_of_conversation_append(
    a: Seq<DbAuditItemView>,
    b: Seq<DbAuditItemView>,
    id: u128,
)
    ensures
        rows_of_conversation(a + b, id) == rows_of_conversation(a, id) + rows_of_conversation(
            b,
            id,
        ),
    decreases b.len(),
{
    if b.len() == 0 {
        assert(a + b =~= a);
        assert(rows_of_conversation(a, id) + rows_of_conversation(b, id) =~= rows_of_conversation(
            a,
            id,
        ));
    } else {
        lemma_rows_of_conversation_append(a, b.drop_last(), id);
        assert((a + b).drop_last() =~= a + b.drop_last());
        assert((a + b).last() == b.last());
        let front = rows_of_conversation(a, id) + rows_of_conversation(b.drop_last(), id);
        if b.last().conversation_id == id {
            assert(front.push(b.last()) =~= rows_of_conversation(a, id) + rows_of_conversation(
                b.drop_last(),
                id,
            ).push(b.last()));
        }
    }
}

/// Storing an audit item of one conversation leaves the rows of every other
/// conversation as they were, and so what is fetched for it.
pub proof fn law_conversations_do_not_mix(store: StoreView, item: AuditItemView, id: u128)
    requires
        item.conversation_id() != id,
    ensures
        rows_of_conversation(store.storing_item(item).0.audit_items, id) == rows_of_conversation(
            store.audit_items,
            id,
        ),
        store.storing_item(item).0.fetch_items(id) == store.fetch_items(id),
        store.storing_item(item).0.fetch_conversation(id) == store.fetch_conversation(id),
{
    let after = store.storing_item(item).0;
    if after != store {
        assert(after.audit_items.drop_last() =~= store.audit_items);
    }
}

/// The rows that store a list of audit items.
pub open spec fn audit_rows(items: Seq<AuditItemView>) -> Seq<DbAuditItemView> {
    items.map_values(|item: AuditItemView| audit_row(item))
}

/// The store after the audit items of a list were stored one after the
/// other.
pub open spec fn record_all(store: StoreView, items: Seq<AuditItemView>) -> StoreView
    decreases items.len(),
{
    if items.len() == 0 {
        store
    } else {
        record_all(store, items.drop_last()).storing_item(items.last()).0
    }
}

/// No two items of the list carry one identifier, and the store holds an
/// audit item under none of their identifiers.
pub open spec fn fresh_items(store: StoreView, items: Seq<AuditItemView>) -> bool {
    &&& forall|i: int| 0 <= i < items.len() ==> !store.has_audit_item((#[trigger] items[i]).id())
    &&& forall|i: int, j: int|
        0 <= i < j < items.len() ==> (#[trigger] items[i]).id() != (#[trigger] items[j]).id()
}

/// Storing fresh items of a stored conversation adds their rows behind
/// those of the table, and changes nothing else.
pub proof fn lemma_record_all(store: StoreView, id: u128, items: Seq<AuditItemView>)
    requires
        store.has_conversation(id),
        forall|i: int| 0 <= i < items.len() ==> (#[trigger] items[i]).conversation_id() == id,
        fresh_items(store, items),
    ensures
        record_all(store, items) == (StoreView {
            audit_items: store.audit_items + audit_rows(items),
            ..store
        }),
    decreases items.len(),
{
    if items.len() == 0 {
        assert(store.audit_items + audit_rows(items) =~= store.audit_items);
    } else {
        let front = items.drop_last();
        let item = items.last();
        assert forall|i: int| 0 <= i < front.len() implies (#[trigger] front[i]).conversation_id()
            == id && !store.has_audit_item(front[i].id()) by {
            assert(front[i] == items[i]);
        }
        assert forall|i: int, j: int| 0 <= i < j < front.len() implies (#[trigger] front[i]).id()
            != (#[trigger] front[j]).id() by {
            assert(front[i] == items[i] && front[j] == items[j]);
        }
        lemma_record_all(store, id, front);
        let before = record_all(store, front);
        let ids = audit_ids(before.audit_items);
        assert(item == items[items.len() - 1]);
        lemma_position_contains(ids, item.id());
        if ids.contains(item.id()) {
            let j = choose|j: int| 0 <= j < ids.len() && ids[j] == item.id();
            if j < store.audit_items.len() {
                assert(audit_ids(store.audit_items)[j] == item.id());
                lemma_position_contains(audit_ids(store.audit_items), item.id());
            } else {
                assert(before.audit_items[j] == audit_row(front[j - store.audit_items.len()]));
                assert(front[j - store.audit_items.len()] == items[j - store.audit_items.len()]);
            }
        }
        assert(before.audit_items.push(audit_row(item)) =~= store.audit_items + audit_rows(items));
    }
}

/// The rows that store a list of items of one conversation are rows of that
/// conversation, and store the list.
pub proof fn lemma_audit_rows(items: Seq<AuditItemView>, id: u128)
    requires
        forall|i: int| 0 <= i < items.len() ==> (#[trigger] items[i]).conversation_id() == id,
    ensures
        rows_of_conversation(audit_rows(items), id) == audit_rows(items),
        rows_items(audit_rows(items)) == Ok::<Seq<AuditItemView>, ErrorView>(items),
    decreases items.len(),
{
    if items.len() == 0 {
        assert(audit_rows(items) =~= Seq::<DbAuditItemView>::empty());
        assert(items =~= Seq::<AuditItemView>::empty());
    } else {
        let front = items.drop_last();
        assert forall|i: int| 0 <= i < front.len() implies (#[trigger] front[i]).conversation_id()
            == id by {
            assert(front[i] == items[i]);
        }
        lemma_audit_rows(front, id);
        assert(audit_rows(items).drop_last() =~= audit_rows(front));
        assert(audit_rows(items).last() == audit_row(items.last()));
        assert(items.last() == items[items.len() - 1]);
        lemma_audit_row_round_trip(items.last());
        assert(audit_rows(front).push(audit_row(items.last())) =~= audit_rows(items));
        assert(front.push(items.last()) =~= items);
    }
}

/// Where the audit items of a list are stored one after the other for a
/// stored conversation that had none, the conversation is fetched with
/// exactly these items, in the order in which they are shown; so with at
/// least one item where the list is not empty.
pub proof fn law_recorded_items_are_fetched(store: StoreView, id: u128, items: Seq<AuditItemView>)
    requires
        store.has_conversation(id),
        rows_of_conversation(store.audit_items, id).len() == 0,
        forall|i: int| 0 <= i < items.len() ==> (#[trigger] items[i]).conversation_id() == id,
        fresh_items(store, items),
    ensures
        record_all(store, items).fetch_items(id) == Ok::<Seq<AuditItemView>, ErrorView>(
            chronological(items),
        ),
        record_all(store, items).fetch_conversation(id) matches Ok(c) && c.audit_items
            == chronological(items),
        chronological(items).len() == items.len(),
{
    lemma_record_all(store, id, items);
    lemma_audit_rows(items, id);
    lemma_rows_of_conversation_append(store.audit_items, audit_rows(items), id);
    lemma_chronological_permutation(items);
    let after = record_all(store, items);
    assert(rows_of_conversation(after.audit_items, id) =~= audit_rows(items));
}

/// Storing a list of items is storing its first item and then the rest.
pub proof fn lemma_record_all_first(store: StoreView, first: AuditItemView, rest: Seq<AuditItemView>)
    ensures
        record_all(store, seq![first] + rest) == record_all(store.storing_item(first).0, rest),
    decreases rest.len(),
{
    let all = seq![first] + rest;
    let after = store.storing_item(first).0;
    if rest.len() == 0 {
        assert(all.drop_last() =~= Seq::<AuditItemView>::empty());
        assert(all.last() == first);
        assert(record_all(store, all.drop_last()) == store);
        assert(record_all(store, all) == after);
        assert(record_all(after, rest) == after);
    } else {
        lemma_record_all_first(store, first, rest.drop_last());
        assert(all.drop_last() =~= seq![first] + rest.drop_last());
        assert(all.last() == rest.last());
        assert(record_all(store, all) == record_all(store, all.drop_last()).storing_item(
            all.last(),
        ).0);
        assert(record_all(after, rest) == record_all(after, rest.drop_last()).storing_item(
            rest.last(),
        ).0);
    }
}

/// A run of a stored processor that comes to an answer leaves its trail.
///
/// The run goes through its stages against a store whose tables are sound:
/// the conversation is created, the processor fetched, the audit item of the
/// inbound request stored, and the code run. While the code runs, the state
/// goes from the one that the run started with to `finished`, and every
/// audit item that it hands out meanwhile is stored, in the order in which
/// it is handed out, under an identifier that is not taken.
///
/// Then the answer carries the canonical text of the conversation's
/// identifier as the only value of `FH-Conversation-Id`, and the
/// conversation of that identifier is fetched from the store as a
/// conversation of the processor that was run, with exactly the audit items
/// that the state handed out, of which there is at least one, in the order
/// in which they are shown.
pub proof fn law_a_run_leaves_its_trail(
    scripts: Scripts,
    run: (u128, Request, bool),
    stages: (Invocation, Invocation, Invocation, Invocation, Invocation),
    actions: (EngineAction, EngineAction, EngineAction, EngineAction, EngineAction),
    replies: (ReqReply, ReqReply, ReqReply),
    stores: (StoreView, StoreView, StoreView, StoreView, StoreView),
    finished: RuntimeState,
)
    requires
        stores.0.wf(),
        started(
            ProcessorCmd::RunRequestProcessor { id: run.0, request: run.1, prelude: run.2 },
            scripts,
            stages.0,
            actions.0,
        ),
        actions.0 matches EngineAction::Storage(c) && command_done(
            stores.0,
            c,
            stores.1,
            replies.0,
        ),
        advanced(stages.0, EngineEvent::Storage(replies.0), scripts, stages.1, actions.1),
        actions.1 matches EngineAction::Storage(c) && command_done(
            stores.1,
            c,
            stores.2,
            replies.1,
        ),
        advanced(stages.1, EngineEvent::Storage(replies.1), scripts, stages.2, actions.2),
        actions.2 matches EngineAction::Storage(c) && command_done(
            stores.2,
            c,
            stores.3,
            replies.2,
        ),
        advanced(stages.2, EngineEvent::Storage(replies.2), scripts, stages.3, actions.3),
        stages.3 matches Invocation::Running { state } && finished.conversation_id
            == state.conversation_id && finished.journal@.len() > 0 && finished.journal@[0]
            == state.journal@[0],
        finished.wf(),
        fresh_items(stores.3, finished.journal@.skip(1)),
        stores.4 == record_all(stores.3, finished.journal@.skip(1)),
        advanced(
            Invocation::Running { state: finished },
            EngineEvent::Executed(Ok(())),
            scripts,
            stages.4,
            actions.4,
        ),
    ensures
        actions.4 matches EngineAction::Reply(Ok(response)) && conversation_of(response@) == Some(
            id_text(finished.conversation_id),
        ) && response@.headers[conversation_header()].len() == 1,
        stores.4.fetch_conversation(finished.conversation_id) matches Ok(c) && c.id
            == finished.conversation_id && c.request_processor_id == run.0 && c.audit_items
            == chronological(finished.journal@) && c.audit_items.len() > 0,
{
    let id = finished.conversation_id;
    let journal = finished.journal@;
    let first = journal[0];
    let rest = journal.skip(1);
    let s0 = stores.0;
    let s2 = stores.2;
    let s3 = stores.3;
    // The conversation is new in the store that the run started with.
    assert(!s0.has_conversation(id));
    assert(s2.audit_items == s0.audit_items);
    assert(s2.has_conversation(id)) by {
        let ids = conversation_ids(s2.conversations);
        assert(ids[ids.len() - 1] == id);
        lemma_position_contains(ids, id);
    }
    // So it has no rows yet.
    lemma_rows_of_conversation(s0.audit_items, id);
    if rows_of_conversation(s0.audit_items, id).len() > 0 {
        let r = rows_of_conversation(s0.audit_items, id)[0];
        let j = choose|j: int| 0 <= j < s0.audit_items.len() && s0.audit_items[j] == r;
        assert(s0.has_conversation(s0.audit_items[j].conversation_id));
    }
    // The first item of the journal is stored by the run itself, the rest
    // while the code runs.
    assert(s3 == s2.storing_item(first).0);
    assert(!s2.has_audit_item(first.id()));
    assert(journal =~= seq![first] + rest);
    lemma_record_all_first(s2, first, rest);
    assert forall|i: int| 0 <= i < journal.len() implies (#[trigger] journal[i]).conversation_id()
        == id && !s2.has_audit_item(journal[i].id()) by {
        if i > 0 {
            assert(rest[i - 1] == journal[i]);
            let ids3 = audit_ids(s3.audit_items);
            let ids2 = audit_ids(s2.audit_items);
            lemma_position_contains(ids3, journal[i].id());
            lemma_position_contains(ids2, journal[i].id());
            if ids2.contains(journal[i].id()) {
                let k = choose|k: int| 0 <= k < ids2.len() && ids2[k] == journal[i].id();
                assert(ids3[k] == journal[i].id());
            }
        }
    }
    assert forall|i: int, j: int| 0 <= i < j < journal.len() implies (#[trigger] journal[i]).id()
        != (#[trigger] journal[j]).id() by {
        assert(rest[j - 1] == journal[j]);
        if i > 0 {
            assert(rest[i - 1] == journal[i]);
        } else {
            let ids3 = audit_ids(s3.audit_items);
            assert(ids3[ids3.len() - 1] == first.id());
            lemma_position_contains(ids3, first.id());
        }
    }
    law_recorded_items_are_fetched(s2, id, journal);
    lemma_record_all(s2, id, journal);
    // The conversation's row is the one that the run created.
    let ids = conversation_ids(s2.conversations);
    lemma_position(ids, id);
    let ids0 = conversation_ids(s0.conversations);
    lemma_position_contains(ids0, id);
    if position(ids, id) < ids.len() - 1 {
        assert(ids0[position(ids, id)] == id);
    }
}

} // verus!
