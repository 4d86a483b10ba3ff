//! The message table: its statements, and reading back what it returns.

use vstd::prelude::*;
use sqlx::sqlite::SqliteRow;
use sqlx::Row;
use crate::message::{MessageRecord, UserMessage};

verus! {

/// Which end of the table a listing starts from.
#[derive(Clone, Copy, Debug, PartialEq, Eq, Structural)]
pub enum ListOrder {
    /// Oldest row first.
    Insertion,
    /// Newest row first.
    Reverse,
}

/// Why the store could not serve a request.
#[derive(Clone, Copy, Debug, PartialEq, Eq, Structural)]
pub enum StoreError {
    /// The database could not be opened.
    Connect,
    /// The insert did not complete.
    Write,
    /// The query failed, or a row it returned could not be read.
    Read,
}

/// Creates the message table where it does not exist yet.
pub const CREATE_TABLE: &'static str =
    "CREATE TABLE IF NOT EXISTS chat_message (id INTEGER PRIMARY KEY AUTOINCREMENT, message TEXT NOT NULL, create_time TIMESTAMP NOT NULL DEFAULT CURRENT_TIMESTAMP)";

/// Appends one row. Its single parameter is the text; the store assigns
/// `id` and `create_time` itself.
pub const INSERT_MESSAGE: &'static str = "INSERT INTO chat_message (message) VALUES (?)";

/// Lists every row as the table holds them.
pub const SELECT_ALL: &'static str = "SELECT * FROM chat_message";

/// Lists every row, the highest `id` first.
pub const SELECT_NEWEST_FIRST: &'static str = "SELECT * FROM chat_message ORDER BY id DESC";

/// The query that lists the table in `order`.
pub open spec fn select_text(order: ListOrder) -> Seq<char> {
    match order {
        ListOrder::Insertion => SELECT_ALL@,
        ListOrder::Reverse => SELECT_NEWEST_FIRST@,
    }
}

/// The query that lists the table in `order`.
pub fn select_statement(order: ListOrder) -> (sql: &'static str)
    ensures
        sql@ == select_text(order),
{
    match order {
        ListOrder::Insertion => SELECT_ALL,
        ListOrder::Reverse => SELECT_NEWEST_FIRST,
    }
}

/// How far the preparation of the store has come.
#[derive(Clone, Copy, Debug, PartialEq, Eq, Structural)]
pub enum Setup {
    /// Nothing was done yet.
    Start,
    /// The database file is being looked for.
    Probing,
    /// The database file is being created.
    Creating,
    /// A connection is being opened.
    Connecting,
    /// The table is being created.
    Preparing,
    /// The store is ready.
    Ready,
    /// The store cannot be used.
    Failed,
}

/// What the caller observed while preparing the store.
#[derive(Clone, Copy, Debug, PartialEq, Eq, Structural)]
pub enum SetupEvent {
    /// The process starts.
    Begin,
    /// The database file exists.
    Exists,
    /// There is no database file.
    Missing,
    /// Looking for the database file failed.
    ProbeFailed,
    /// The database file was created.
    Created,
    /// The database file could not be created.
    CreateFailed,
    /// The connection is open.
    Connected,
    /// The connection could not be opened.
    ConnectFailed,
    /// The table exists now.
    Prepared,
    /// The table could not be created.
    PrepareFailed,
}

/// What the caller is to do next while preparing the store.
#[derive(Clone, Copy, Debug)]
pub enum SetupAction {
    /// Find out whether the database file exists.
    Probe,
    /// Create an empty database file.
    Create,
    /// Open a connection.
    Connect,
    /// Execute `statement`, which takes no parameter.
    Prepare { statement: &'static str },
    /// Start serving requests.
    Serve,
    /// Stop the process: the store failed with this error.
    Halt(StoreError),
    /// Stop the process: the event does not belong to the stage.
    OutOfTurn,
}

/// The steps that prepare the store.
pub open spec fn setup_transition(
    stage: Setup,
    event: SetupEvent,
    next: Setup,
    action: SetupAction,
) -> bool {
    match (stage, event) {
        (Setup::Start, SetupEvent::Begin) => next == Setup::Probing && action is Probe,
        (Setup::Probing, SetupEvent::Exists) => next == Setup::Connecting && action is Connect,
        (Setup::Probing, SetupEvent::Missing) | (Setup::Probing, SetupEvent::ProbeFailed) => next
            == Setup::Creating && action is Create,
        (Setup::Creating, SetupEvent::Created) => next == Setup::Connecting && action is Connect,
        (Setup::Creating, SetupEvent::CreateFailed) => next == Setup::Failed && action
            == SetupAction::Halt(StoreError::Connect),
        (Setup::Connecting, SetupEvent::Connected) => {
            &&& next == Setup::Preparing
            &&& action matches SetupAction::Prepare { statement }
            &&& statement@ == CREATE_TABLE@
        },
        (Setup::Connecting, SetupEvent::ConnectFailed) => next == Setup::Failed && action
            == SetupAction::Halt(StoreError::Connect),
        (Setup::Preparing, SetupEvent::Prepared) => next == Setup::Ready && action is Serve,
        (Setup::Preparing, SetupEvent::PrepareFailed) => next == Setup::Failed && action
            == SetupAction::Halt(StoreError::Write),
        _ => next == Setup::Failed && action is OutOfTurn,
    }
}

/// One step of preparing the store at startup: make sure the database file
/// exists, connect, and make sure the table exists. A file that cannot be
/// found is created, and so is one that cannot be looked for. Any other
/// failure stops the process.
pub fn initialize(stage: Setup, event: SetupEvent) -> (r: (Setup, SetupAction))
    ensures
        setup_transition(stage, event, r.0, r.1),
{
    match (stage, event) {
        (Setup::Start, SetupEvent::Begin) => (Setup::Probing, SetupAction::Probe),
        (Setup::Probing, SetupEvent::Exists) => (Setup::Connecting, SetupAction::Connect),
        (Setup::Probing, SetupEvent::Missing) | (Setup::Probing, SetupEvent::ProbeFailed) => (
            Setup::Creating,
            SetupAction::Create,
        ),
        (Setup::Creating, SetupEvent::Created) => (Setup::Connecting, SetupAction::Connect),
        (Setup::Creating, SetupEvent::CreateFailed) => (
            Setup::Failed,
            SetupAction::Halt(StoreError::Connect),
        ),
        (Setup::Connecting, SetupEvent::Connected) => (
            Setup::Preparing,
            SetupAction::Prepare { statement: CREATE_TABLE },
        ),
        (Setup::Connecting, SetupEvent::ConnectFailed) => (
            Setup::Failed,
            SetupAction::Halt(StoreError::Connect),
        ),
        (Setup::Preparing, SetupEvent::Prepared) => (Setup::Ready, SetupAction::Serve),
        (Setup::Preparing, SetupEvent::PrepareFailed) => (
            Setup::Failed,
            SetupAction::Halt(StoreError::Write),
        ),
        _ => (Setup::Failed, SetupAction::OutOfTurn),
    }
}

/// A row that SQLite returned for a query.
#[verifier::external_type_specification]
#[verifier::external_body]
pub struct ExSqliteRow(SqliteRow);

/// The error that sqlx reports.
#[verifier::external_type_specification]
#[verifier::external_body]
pub struct ExSqlxError(sqlx::Error);

/// The columns of `row` that read as a 32-bit integer, by name.
pub uninterp spec fn row_integers(row: SqliteRow) -> Map<Seq<char>, i32>;

/// The columns of `row` that read as text, by name.
pub uninterp spec fn row_texts(row: SqliteRow) -> Map<Seq<char>, Seq<char>>;

/// `Row::try_get` of sqlx, asked for an `i32` by column name. It answers
/// from the row alone: with the value where the row has such a column and its
/// value decodes as a 32-bit integer, else with an error. `row_integers`
/// names the columns that decode, with their values.
#[verifier::external_body]
fn integer_column(row: &SqliteRow, column: &str) -> (r: Result<i32, sqlx::Error>)
    ensures
        match r {
            Ok(value) => row_integers(*row).get(column@) == Some(value),
            Err(_) => row_integers(*row).get(column@).is_none(),
        },
{
    row.try_get::<i32, &str>(column)
}

/// `Row::try_get` of sqlx, asked for a `String` by column name. It answers
/// from the row alone: with the text where the row has such a column and its
/// value decodes as text, else with an error. `row_texts` names the columns
/// that decode, with their values.
#[verifier::external_body]
fn text_column(row: &SqliteRow, column: &str) -> (r: Result<String, sqlx::Error>)
    ensures
        match r {
            Ok(text) => row_texts(*row).get(column@) == Some(text@),
            Err(_) => row_texts(*row).get(column@).is_none(),
        },
{
    row.try_get::<String, &str>(column)
}

/// The message that `row` holds, if its three columns can be read.
pub open spec fn row_record(row: SqliteRow) -> Option<MessageRecord> {
    if row_integers(row).contains_key("id"@) && row_texts(row).contains_key("message"@)
        && row_texts(row).contains_key("create_time"@) {
        Some(
            MessageRecord {
                id: row_integers(row)["id"@] as int,
                message: row_texts(row)["message"@],
                create_time: row_texts(row)["create_time"@],
            },
        )
    } else {
        None
    }
}

/// Whether every row of `rows` can be read as a message.
pub open spec fn all_readable(rows: Seq<SqliteRow>) -> bool {
    forall|i: int| 0 <= i < rows.len() ==> (#[trigger] row_record(rows[i])).is_some()
}

/// Whether `list` holds the messages of `rows`, one for one and in the same
/// order.
pub open spec fn lists_rows(list: Seq<UserMessage>, rows: Seq<SqliteRow>) -> bool {
    &&& list.len() == rows.len()
    &&& forall|i: int| 0 <= i < rows.len() ==> row_record(rows[i]) == Some(#[trigger] list[i]@)
}

/// Reads one fetched row as a message: its `id`, `message` and `create_time`
/// columns. A row that lacks one of them, or holds another type in it, is a
/// read error.
pub fn read_row(row: &SqliteRow) -> (r: Result<UserMessage, StoreError>)
    ensures
        match r {
            Ok(m) => row_record(*row) == Some(m@),
            Err(e) => row_record(*row).is_none() && e == StoreError::Read,
        },
{
    let id: i32 = match integer_column(row, "id") {
        Ok(id) => id,
        Err(_) => {
            return Err(StoreError::Read);
        },
    };
    let message = match text_column(row, "message") {
        Ok(text) => text,
        Err(_) => {
            return Err(StoreError::Read);
        },
    };
    let create_time = match text_column(row, "create_time") {
        Ok(text) => text,
        Err(_) => {
            return Err(StoreError::Read);
        },
    };
    Ok(UserMessage::new(id, message, create_time))
}

/// Reads the fetched rows as messages, keeping their order. One row that
/// cannot be read fails the whole listing.
pub fn read_rows(rows: &Vec<SqliteRow>) -> (r: Result<Vec<UserMessage>, StoreError>)
    ensures
        match r {
            Ok(list) => all_readable(rows@) && lists_rows(list@, rows@),
            Err(e) => !all_readable(rows@) && e == StoreError::Read,
        },
{
    let mut list: Vec<UserMessage> = Vec::new();
    let mut i: usize = 0;
    while i < rows.len()
        invariant
            i <= rows.len(),
            list.len() == i,
            forall|k: int| 0 <= k < i ==> row_record(rows[k]) == Some(#[trigger] list[k]@),
        decreases rows.len() - i,
    {
        match read_row(&rows[i]) {
            Ok(m) => {
                list.push(m);
            },
            Err(e) => {
                return Err(e);
            },
        }
        i += 1;
    }
    assert forall|k: int| 0 <= k < rows.len() implies (#[trigger] row_record(
        rows[k],
    )).is_some() by {
        assert(row_record(rows[k]) == Some(list[k]@));
    }
    Ok(list)
}

} // verus!
