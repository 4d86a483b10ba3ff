//! The three exchanges of the board, each as a function from the stage an
//! exchange has reached and the event that was observed to the next stage and
//! the action to perform.
//!
//! The caller starts an exchange at [`Stage::Arrived`] with
//! [`Event::Request`], performs each action it is handed, and reports the
//! outcome as the next event, until the action is a [`Action::Reply`].

use vstd::prelude::*;
use sqlx::sqlite::SqliteRow;
use crate::message::{FormData, UserMessage};
use crate::notify::{
    dispatches, notice_fault, send_code, Dispatch, NotifierConfig, NotifyOutcome, NotifyResult,
};
use crate::store::{
    all_readable, lists_rows, read_rows, row_record, row_texts, select_statement, select_text,
    ListOrder, StoreError, INSERT_MESSAGE,
};

verus! {

/// How far an exchange has come.
#[derive(Clone, Copy, Debug, PartialEq, Eq, Structural)]
pub enum Stage {
    /// The request has arrived; nothing was done yet.
    Arrived,
    /// A connection to the store was asked for.
    Connecting,
    /// The insert was handed to the store.
    Storing,
    /// The query was handed to the store.
    Fetching,
    /// The notice was handed to the relay.
    Notifying,
    /// The reply was given.
    Done,
}

/// What the caller observed after performing an action.
pub enum Event {
    /// A request came in.
    Request,
    /// The store is connected.
    Connected,
    /// The store could not be reached.
    ConnectFailed,
    /// The insert completed. `at` is the time by the caller's clock, in
    /// seconds since the start of 1970; it dates the notice.
    Written { at: i64 },
    /// The insert failed.
    WriteFailed,
    /// The query returned these rows, in this order.
    Rows(Vec<SqliteRow>),
    /// The query failed.
    ReadFailed,
    /// The relay accepted the notice.
    Delivered,
    /// The relay could not be reached or refused the notice; the text says
    /// why.
    DeliveryFailed(String),
}

/// What the board answers to the client.
#[derive(Debug)]
pub enum Reply {
    /// The page of the board.
    Page,
    /// The outcome of the notification, as an envelope.
    Notified(NotifyResult),
    /// The stored messages.
    Listing(Vec<UserMessage>),
    /// The store failed.
    Fault(StoreError),
    /// The event does not belong to the stage the exchange was in.
    OutOfTurn,
}

/// What the caller is to do next.
#[derive(Debug)]
pub enum Action {
    /// Open a connection to the store.
    Connect,
    /// Execute `statement` with `text` bound to its single parameter.
    Execute { statement: &'static str, text: String },
    /// Run the query `statement` and collect every row.
    Fetch { statement: &'static str },
    /// Hand the notice to the relay.
    Deliver(Dispatch),
    /// Answer the client; the exchange is over.
    Reply(Reply),
}

impl Reply {
    /// The HTTP status of the reply: 500 where the store failed or the
    /// exchange was driven out of turn, else 200. A failed notification is
    /// reported inside the envelope, under status 200.
    pub open spec fn spec_status(&self) -> int {
        match self {
            Reply::Fault(_) | Reply::OutOfTurn => 500,
            _ => 200,
        }
    }

    /// The HTTP status of the reply.
    pub fn status(&self) -> (code: u16)
        ensures
            code as int == self.spec_status(),
    {
        match self {
            Reply::Fault(_) | Reply::OutOfTurn => 500,
            _ => 200,
        }
    }
}

/// Whether `action` appends `text`, and nothing but `text`, to the table.
pub open spec fn writes(action: Action, text: Seq<char>) -> bool {
    action matches Action::Execute { statement, text: bound } && statement@ == INSERT_MESSAGE@
        && bound@ == text
}

/// Whether `action` lists the table in `order`.
pub open spec fn fetches(action: Action, order: ListOrder) -> bool {
    action matches Action::Fetch { statement } && statement@ == select_text(order)
}

/// Whether `action` answers that the store failed with `error`.
pub open spec fn faults(action: Action, error: StoreError) -> bool {
    action matches Action::Reply(Reply::Fault(e)) && e == error
}

/// Whether `action` answers with the envelope of `outcome`.
pub open spec fn notifies(action: Action, outcome: NotifyOutcome) -> bool {
    action matches Action::Reply(Reply::Notified(result)) && result@ == outcome
}

/// Whether `action` and `next` are what follows a write of `text` that
/// completed at `at`: the notice goes to the relay, together with the message
/// that lettre builds from it, or, where something stands against the notice,
/// the client is answered with the failure.
pub open spec fn announces(
    action: Action,
    next: Stage,
    config: NotifierConfig,
    text: Seq<char>,
    at: i64,
) -> bool {
    match notice_fault(config, text, at) {
        None => {
            &&& next == Stage::Notifying
            &&& action matches Action::Deliver(dispatch)
            &&& dispatches(dispatch, config, text, at)
        },
        Some(detail) => next == Stage::Done && notifies(action, NotifyOutcome::Failure(detail)),
    }
}

/// The steps of a `/send` exchange for a form that holds `text`.
pub open spec fn send_transition(
    stage: Stage,
    event: Event,
    text: Seq<char>,
    config: NotifierConfig,
    next: Stage,
    action: Action,
) -> bool {
    match (stage, event) {
        (Stage::Arrived, Event::Request) => next == Stage::Connecting && action is Connect,
        (Stage::Connecting, Event::Connected) => next == Stage::Storing && writes(action, text),
        (Stage::Connecting, Event::ConnectFailed) => next == Stage::Done && faults(
            action,
            StoreError::Connect,
        ),
        (Stage::Storing, Event::Written { at }) => announces(action, next, config, text, at),
        (Stage::Storing, Event::WriteFailed) => next == Stage::Done && faults(
            action,
            StoreError::Write,
        ),
        (Stage::Notifying, Event::Delivered) => next == Stage::Done && notifies(
            action,
            NotifyOutcome::Success,
        ),
        (Stage::Notifying, Event::DeliveryFailed(detail)) => next == Stage::Done && notifies(
            action,
            NotifyOutcome::Failure(detail@),
        ),
        _ => next == Stage::Done && action matches Action::Reply(Reply::OutOfTurn),
    }
}

/// The steps of a `/messages` exchange.
pub open spec fn list_transition(stage: Stage, event: Event, next: Stage, action: Action) -> bool {
    match (stage, event) {
        (Stage::Arrived, Event::Request) => next == Stage::Connecting && action is Connect,
        (Stage::Connecting, Event::Connected) => next == Stage::Fetching && fetches(
            action,
            ListOrder::Reverse,
        ),
        (Stage::Connecting, Event::ConnectFailed) => next == Stage::Done && faults(
            action,
            StoreError::Connect,
        ),
        (Stage::Fetching, Event::Rows(rows)) => next == Stage::Done && if all_readable(rows@) {
            action matches Action::Reply(Reply::Listing(list)) && lists_rows(list@, rows@)
        } else {
            faults(action, StoreError::Read)
        },
        (Stage::Fetching, Event::ReadFailed) => next == Stage::Done && faults(
            action,
            StoreError::Read,
        ),
        _ => next == Stage::Done && action matches Action::Reply(Reply::OutOfTurn),
    }
}

/// The single step of a `/` exchange: the page, whatever the store holds.
pub open spec fn page_transition(stage: Stage, event: Event, next: Stage, action: Action) -> bool {
    next == Stage::Done && match (stage, event) {
        (Stage::Arrived, Event::Request) => action matches Action::Reply(Reply::Page),
        _ => action matches Action::Reply(Reply::OutOfTurn),
    }
}

/// One step of `/send`: connect, store the text of the form, then notify,
/// then answer with the outcome of the notification.
///
/// The text is stored as it is, whatever it holds. Once the store has
/// confirmed the write, the notice for the text goes to the relay, unless
/// something stands against it; a notification that fails is answered in the
/// envelope. A store that fails is answered with its error.
pub fn send_message(stage: Stage, event: Event, form: &FormData, config: &NotifierConfig) -> (r: (
    Stage,
    Action,
))
    ensures
        send_transition(stage, event, form@, *config, r.0, r.1),
{
    match (stage, event) {
        (Stage::Arrived, Event::Request) => (Stage::Connecting, Action::Connect),
        (Stage::Connecting, Event::Connected) => (
            Stage::Storing,
            Action::Execute { statement: INSERT_MESSAGE, text: form.message().clone() },
        ),
        (Stage::Connecting, Event::ConnectFailed) => (
            Stage::Done,
            Action::Reply(Reply::Fault(StoreError::Connect)),
        ),
        (Stage::Storing, Event::Written { at }) => match send_code(
            config,
            form.message().clone(),
            at,
        ) {
            Ok(dispatch) => (Stage::Notifying, Action::Deliver(dispatch)),
            Err(failure) => (Stage::Done, Action::Reply(Reply::Notified(failure))),
        },
        (Stage::Storing, Event::WriteFailed) => (
            Stage::Done,
            Action::Reply(Reply::Fault(StoreError::Write)),
        ),
        (Stage::Notifying, Event::Delivered) => (
            Stage::Done,
            Action::Reply(Reply::Notified(NotifyResult::Success)),
        ),
        (Stage::Notifying, Event::DeliveryFailed(detail)) => (
            Stage::Done,
            Action::Reply(Reply::Notified(NotifyResult::Failure(detail))),
        ),
        _ => (Stage::Done, Action::Reply(Reply::OutOfTurn)),
    }
}

/// One step of `/messages`: connect, fetch every row with the newest first,
/// and answer with one entry per row, in the order the store returned them.
pub fn get_message(stage: Stage, event: Event) -> (r: (Stage, Action))
    ensures
        list_transition(stage, event, r.0, r.1),
{
    match (stage, event) {
        (Stage::Arrived, Event::Request) => (Stage::Connecting, Action::Connect),
        (Stage::Connecting, Event::Connected) => (
            Stage::Fetching,
            Action::Fetch { statement: select_statement(ListOrder::Reverse) },
        ),
        (Stage::Connecting, Event::ConnectFailed) => (
            Stage::Done,
            Action::Reply(Reply::Fault(StoreError::Connect)),
        ),
        (Stage::Fetching, Event::Rows(rows)) => match read_rows(&rows) {
            Ok(list) => (Stage::Done, Action::Reply(Reply::Listing(list))),
            Err(error) => (Stage::Done, Action::Reply(Reply::Fault(error))),
        },
        (Stage::Fetching, Event::ReadFailed) => (
            Stage::Done,
            Action::Reply(Reply::Fault(StoreError::Read)),
        ),
        _ => (Stage::Done, Action::Reply(Reply::OutOfTurn)),
    }
}

/// The single step of `/`: answer with the page. The store is not asked.
pub fn chat_route(stage: Stage, event: Event) -> (r: (Stage, Action))
    ensures
        page_transition(stage, event, r.0, r.1),
{
    match (stage, event) {
        (Stage::Arrived, Event::Request) => (Stage::Done, Action::Reply(Reply::Page)),
        _ => (Stage::Done, Action::Reply(Reply::OutOfTurn)),
    }
}

/// One step of an exchange as it was taken: the stage and the event that
/// went in, the stage and the action that came out.
pub struct Step {
    /// The stage before the step.
    pub stage: Stage,
    /// The event that was reported.
    pub event: Event,
    /// The stage after the step.
    pub next: Stage,
    /// The action that was handed out.
    pub action: Action,
}

/// Whether step `i` of `steps` is a step of `send_message` for a form that
/// holds `text`, and starts where the step before it ended; the first step
/// starts at `Stage::Arrived`.
pub open spec fn send_step(
    steps: Seq<Step>,
    i: int,
    text: Seq<char>,
    config: NotifierConfig,
) -> bool {
    &&& send_transition(
        steps[i].stage,
        steps[i].event,
        text,
        config,
        steps[i].next,
        steps[i].action,
    )
    &&& steps[i].stage == if i == 0 {
        Stage::Arrived
    } else {
        steps[i - 1].next
    }
}

/// Whether `steps` is the beginning of a `/send` exchange for a form that
/// holds `text`.
pub open spec fn send_run(steps: Seq<Step>, text: Seq<char>, config: NotifierConfig) -> bool {
    forall|i: int| 0 <= i < steps.len() ==> #[trigger] send_step(steps, i, text, config)
}

/// Whether the ids of `list` strictly decrease from each entry to the next.
pub open spec fn newest_first(list: Seq<UserMessage>) -> bool {
    forall|i: int, j: int| 0 <= i < j < list.len() ==> list[i]@.id > list[j]@.id
}

/// In a `/send` exchange the store is written before the relay is asked: a
/// notice is handed out only in the third step, after the second step has
/// handed the store the text of the form and the store has confirmed the
/// write. Neither the text nor the configuration can prevent the write. The
/// notice is the one for the text of the form.
pub proof fn law_write_precedes_notice(
    steps: Seq<Step>,
    text: Seq<char>,
    config: NotifierConfig,
    k: int,
)
    requires
        send_run(steps, text, config),
        0 <= k < steps.len(),
        steps[k].action is Deliver,
    ensures
        k == 2,
        writes(steps[1].action, text),
        steps[2].event is Written,
        dispatches(steps[2].action->Deliver_0, config, text, steps[2].event->Written_at),
{
    lemma_send_run_shape(steps, text, config, k);
}

/// A `/send` exchange touches the store once: only its second step can hand
/// out a write. Whatever the relay answers afterwards, the stored row is
/// left alone.
pub proof fn law_single_write(steps: Seq<Step>, text: Seq<char>, config: NotifierConfig, k: int)
    requires
        send_run(steps, text, config),
        0 <= k < steps.len(),
        steps[k].action is Execute || steps[k].action is Fetch,
    ensures
        k == 1,
        writes(steps[k].action, text),
{
    lemma_send_run_shape(steps, text, config, k);
}

/// A relay that fails is reported in the envelope, under status 200, with
/// the relay's words.
pub proof fn law_failed_notice_is_reported(
    steps: Seq<Step>,
    text: Seq<char>,
    config: NotifierConfig,
    k: int,
)
    requires
        send_run(steps, text, config),
        0 <= k < steps.len(),
        steps[k].stage == Stage::Notifying,
        steps[k].event is DeliveryFailed,
    ensures
        notifies(steps[k].action, NotifyOutcome::Failure(steps[k].event->DeliveryFailed_0@)),
        steps[k].action->Reply_0.spec_status() == 200,
{
    assert(send_step(steps, k, text, config));
}

/// What each step of a `/send` exchange can hand out: the first step no
/// write and no notice, the second no notice and no other write than that of
/// the text, the third no write and no other notice than that for the text,
/// and every later step a reply.
proof fn lemma_send_run_shape(steps: Seq<Step>, text: Seq<char>, config: NotifierConfig, k: int)
    requires
        send_run(steps, text, config),
        0 <= k < steps.len(),
    ensures
        steps[k].action is Execute || steps[k].action is Fetch ==> k == 1 && writes(
            steps[1].action,
            text,
        ),
        steps[k].action is Deliver ==> {
            &&& k == 2
            &&& writes(steps[1].action, text)
            &&& steps[2].event is Written
            &&& dispatches(steps[2].action->Deliver_0, config, text, steps[2].event->Written_at)
        },
{
    assert(send_step(steps, 0, text, config));
    if k >= 1 {
        assert(send_step(steps, 1, text, config));
    }
    if k >= 2 {
        assert(send_step(steps, 2, text, config));
    }
    if k >= 3 {
        lemma_send_run_ends(steps, text, config, k);
    }
}

/// From its fourth step on, a `/send` exchange only replies.
proof fn lemma_send_run_ends(steps: Seq<Step>, text: Seq<char>, config: NotifierConfig, k: int)
    requires
        send_run(steps, text, config),
        3 <= k < steps.len(),
    ensures
        steps[k].next == Stage::Done,
        steps[k].action is Reply,
    decreases k,
{
    assert(send_step(steps, k, text, config));
    if k > 3 {
        lemma_send_run_ends(steps, text, config, k - 1);
    } else {
        assert(send_step(steps, 0, text, config));
        assert(send_step(steps, 1, text, config));
        assert(send_step(steps, 2, text, config));
    }
}

/// Listing changes nothing: no step of `/messages` hands the store a write
/// or the relay a notice, and its only query asks for the newest first.
pub proof fn law_listing_only_reads(stage: Stage, event: Event, next: Stage, action: Action)
    requires
        list_transition(stage, event, next, action),
    ensures
        !(action is Execute),
        !(action is Deliver),
        action is Fetch ==> fetches(action, ListOrder::Reverse),
{
}

/// The page needs nothing from the store: whatever the stage and the event,
/// `/` hands out a reply at once, and at the start of an exchange it is the
/// page.
pub proof fn law_page_without_store(stage: Stage, event: Event, next: Stage, action: Action)
    requires
        page_transition(stage, event, next, action),
    ensures
        next == Stage::Done,
        action is Reply,
        stage == Stage::Arrived && event is Request ==> action->Reply_0 is Page
            && action->Reply_0.spec_status() == 200,
{
}

/// A text that was sent is listed as it was sent. The `/send` exchange hands
/// the store the text of the form; where the store returns a row that holds
/// the text it was handed, `/messages` shows an entry with that text, at the
/// row's place.
pub proof fn law_sent_text_is_listed(
    text: Seq<char>,
    config: NotifierConfig,
    stored: Step,
    rows: Vec<SqliteRow>,
    k: int,
    listed: Step,
)
    requires
        stored.stage == Stage::Connecting,
        stored.event is Connected,
        send_transition(stored.stage, stored.event, text, config, stored.next, stored.action),
        0 <= k < rows@.len(),
        all_readable(rows@),
        row_texts(rows@[k]).get("message"@) == Some(stored.action->Execute_text@),
        listed.stage == Stage::Fetching,
        listed.event == Event::Rows(rows),
        list_transition(listed.stage, listed.event, listed.next, listed.action),
    ensures
        listed.action matches Action::Reply(Reply::Listing(list)) && list@.len() == rows@.len()
            && list@[k]@.message == text,
{
    let list = listed.action->Reply_0->Listing_0;
    assert(row_record(rows@[k]) == Some(list@[k]@));
}

/// A listing keeps the order of the rows: where the store returns them with
/// strictly decreasing ids, as the query of `/messages` asks, the ids of the
/// entries strictly decrease.
pub proof fn law_listing_newest_first(rows: Vec<SqliteRow>, listed: Step)
    requires
        listed.stage == Stage::Fetching,
        listed.event == Event::Rows(rows),
        list_transition(listed.stage, listed.event, listed.next, listed.action),
        all_readable(rows@),
        forall|i: int, j: int|
            0 <= i < j < rows@.len() ==> row_record(rows@[i])->Some_0.id > row_record(
                rows@[j],
            )->Some_0.id,
    ensures
        listed.action matches Action::Reply(Reply::Listing(list)) && newest_first(list@),
{
    let list = listed.action->Reply_0->Listing_0;
    assert forall|i: int, j: int| 0 <= i < j < list@.len() implies list@[i]@.id > list@[j]@.id by {
        assert(row_record(rows@[i]) == Some(list@[i]@));
        assert(row_record(rows@[j]) == Some(list@[j]@));
    }
}

} // verus!
