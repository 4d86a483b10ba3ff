//! The exchanges of the board, played against a real SQLite database. The
//! test stands where the serving program stands: it performs each action and
//! reports what happened. The relay is played by a fixed answer, the clock by
//! a fixed time.

use chat_board::store::{read_row, read_rows, CREATE_TABLE, INSERT_MESSAGE, SELECT_ALL};
use chat_board::{
    chat_route, get_message, send_message, Action, Event, FormData, NotifierConfig, Reply, Stage,
    StoreError, UserMessage,
};
use sqlx::sqlite::SqliteConnectOptions;
use sqlx::{Connection, SqliteConnection};
use std::future::Future;

fn block_on<F: Future>(future: F) -> F::Output {
    tokio::runtime::Builder::new_current_thread()
        .enable_all()
        .build()
        .unwrap()
        .block_on(future)
}

fn config() -> NotifierConfig {
    NotifierConfig {
        sender_name: String::from("Board"),
        sender_address: String::from("board@example.com"),
        recipient: String::from("reader@example.com"),
        subject: String::from("New message"),
    }
}

async fn empty_database() -> SqliteConnection {
    SqliteConnection::connect("sqlite::memory:").await.unwrap()
}

async fn fresh_store() -> SqliteConnection {
    let mut conn = empty_database().await;
    sqlx::query(CREATE_TABLE).execute(&mut conn).await.unwrap();
    conn
}

async fn perform(
    conn: &mut SqliteConnection,
    action: Action,
    relay: &Result<(), String>,
) -> Result<Event, Reply> {
    match action {
        Action::Connect => Ok(Event::Connected),
        Action::Execute { statement, text } => {
            match sqlx::query(statement).bind(text).execute(&mut *conn).await {
                Ok(_) => Ok(Event::Written { at: 1_700_000_000 }),
                Err(_) => Ok(Event::WriteFailed),
            }
        }
        Action::Fetch { statement } => match sqlx::query(statement).fetch_all(&mut *conn).await {
            Ok(rows) => Ok(Event::Rows(rows)),
            Err(_) => Ok(Event::ReadFailed),
        },
        Action::Deliver(_) => match relay {
            Ok(()) => Ok(Event::Delivered),
            Err(detail) => Ok(Event::DeliveryFailed(detail.clone())),
        },
        Action::Reply(reply) => Err(reply),
    }
}

async fn post(conn: &mut SqliteConnection, text: &str, relay: Result<(), String>) -> Reply {
    let form = FormData::new(String::from(text));
    let config = config();
    let (mut stage, mut action) = send_message(Stage::Arrived, Event::Request, &form, &config);
    loop {
        let event = match perform(conn, action, &relay).await {
            Ok(event) => event,
            Err(reply) => {
                assert_eq!(stage, Stage::Done);
                return reply;
            }
        };
        let next = send_message(stage, event, &form, &config);
        stage = next.0;
        action = next.1;
    }
}

async fn list(conn: &mut SqliteConnection) -> Reply {
    let (mut stage, mut action) = get_message(Stage::Arrived, Event::Request);
    loop {
        let event = match perform(conn, action, &Ok(())).await {
            Ok(event) => event,
            Err(reply) => {
                assert_eq!(stage, Stage::Done);
                return reply;
            }
        };
        let next = get_message(stage, event);
        stage = next.0;
        action = next.1;
    }
}

async fn open_page(conn: &mut SqliteConnection) -> Reply {
    let (mut stage, mut action) = chat_route(Stage::Arrived, Event::Request);
    loop {
        let event = match perform(conn, action, &Ok(())).await {
            Ok(event) => event,
            Err(reply) => return reply,
        };
        let next = chat_route(stage, event);
        stage = next.0;
        action = next.1;
    }
}

fn listing(reply: Reply) -> Vec<UserMessage> {
    match reply {
        Reply::Listing(list) => list,
        _ => panic!("the reply is no listing"),
    }
}

fn entries(reply: Reply) -> Vec<(i32, String)> {
    listing(reply)
        .iter()
        .map(|m| (m.id(), m.message().clone()))
        .collect()
}

fn envelope_of(reply: &Reply) -> (String, String) {
    match reply {
        Reply::Notified(result) => {
            let envelope = result.envelope();
            (String::from(envelope.kind), String::from(envelope.message))
        }
        _ => panic!("the reply is no envelope"),
    }
}

#[test]
fn posting_hello_stores_row_one_and_confirms() {
    block_on(async {
        let mut conn = fresh_store().await;
        let reply = post(&mut conn, "hello", Ok(())).await;
        assert_eq!(reply.status(), 200);
        assert_eq!(
            envelope_of(&reply),
            (String::from("success"), String::from("发送成功"))
        );
        let stored = listing(list(&mut conn).await);
        assert_eq!(stored.len(), 1);
        assert_eq!(stored[0].id(), 1);
        assert_eq!(stored[0].message(), "hello");
        assert!(!stored[0].create_time().is_empty());
    });
}

#[test]
fn posting_hello_to_a_failing_relay_reports_the_detail() {
    block_on(async {
        let mut conn = fresh_store().await;
        let reply = post(&mut conn, "hello", Err(String::from("connection refused"))).await;
        assert_eq!(reply.status(), 200);
        assert_eq!(
            envelope_of(&reply),
            (String::from("error"), String::from("connection refused"))
        );
        assert_eq!(
            entries(list(&mut conn).await),
            vec![(1, String::from("hello"))]
        );
    });
}

#[test]
fn two_posts_are_listed_newest_first() {
    block_on(async {
        let mut conn = fresh_store().await;
        post(&mut conn, "a", Ok(())).await;
        post(&mut conn, "b", Ok(())).await;
        let reply = list(&mut conn).await;
        assert_eq!(reply.status(), 200);
        assert_eq!(
            entries(reply),
            vec![(2, String::from("b")), (1, String::from("a"))]
        );
    });
}

#[test]
fn a_sent_text_is_listed_as_it_was_sent() {
    block_on(async {
        let mut conn = fresh_store().await;
        let text = "<b>it's</b> 50% \"done\"; DROP TABLE chat_message; -- 你好\n?";
        post(&mut conn, text, Ok(())).await;
        assert_eq!(entries(list(&mut conn).await), vec![(1, String::from(text))]);
    });
}

#[test]
fn an_empty_text_is_stored_and_listed() {
    block_on(async {
        let mut conn = fresh_store().await;
        let reply = post(&mut conn, "", Ok(())).await;
        assert_eq!(envelope_of(&reply).0, "success");
        assert_eq!(entries(list(&mut conn).await), vec![(1, String::new())]);
    });
}

#[test]
fn listed_ids_strictly_decrease() {
    block_on(async {
        let mut conn = fresh_store().await;
        for text in ["one", "two", "three", "four", "five"] {
            post(&mut conn, text, Ok(())).await;
        }
        let listed = entries(list(&mut conn).await);
        assert_eq!(listed.len(), 5);
        for pair in listed.windows(2) {
            assert!(pair[0].0 > pair[1].0);
        }
        assert_eq!(listed[0], (5, String::from("five")));
        assert_eq!(listed[4], (1, String::from("one")));
    });
}

#[test]
fn each_insert_gets_the_next_id() {
    block_on(async {
        let mut conn = fresh_store().await;
        let mut newest: Vec<i32> = Vec::new();
        for text in ["same", "same", "same"] {
            post(&mut conn, text, Ok(())).await;
            let listed = entries(list(&mut conn).await);
            newest.push(listed[0].0);
        }
        assert_eq!(newest, vec![1, 2, 3]);
    });
}

#[test]
fn the_store_sets_the_time_of_each_message() {
    block_on(async {
        let mut conn = fresh_store().await;
        post(&mut conn, "create_time=1999-01-01 00:00:00", Ok(())).await;
        let stored = listing(list(&mut conn).await);
        let time = stored[0].create_time();
        assert_eq!(stored[0].message(), "create_time=1999-01-01 00:00:00");
        assert_eq!(time.len(), 19);
        assert_ne!(time.as_str(), "1999-01-01 00:00:00");
        let shape: Vec<bool> = time.chars().map(|c| c.is_ascii_digit()).collect();
        assert_eq!(
            shape,
            vec![
                true, true, true, true, false, true, true, false, true, true, false, true, true,
                false, true, true, false, true, true
            ]
        );
    });
}

#[test]
fn a_failing_relay_does_not_lose_the_message() {
    block_on(async {
        let mut conn = fresh_store().await;
        post(&mut conn, "kept", Err(String::from("relay unreachable"))).await;
        post(&mut conn, "also kept", Ok(())).await;
        assert_eq!(
            entries(list(&mut conn).await),
            vec![(2, String::from("also kept")), (1, String::from("kept"))]
        );
    });
}

#[test]
fn stored_messages_survive_a_new_connection() {
    block_on(async {
        let options = SqliteConnectOptions::new()
            .filename("/tmp/chat_board_survival.db")
            .create_if_missing(true);
        let mut first = SqliteConnection::connect_with(&options).await.unwrap();
        sqlx::query("DROP TABLE IF EXISTS chat_message")
            .execute(&mut first)
            .await
            .unwrap();
        sqlx::query(CREATE_TABLE).execute(&mut first).await.unwrap();
        post(&mut first, "before", Ok(())).await;
        first.close().await.unwrap();

        let mut second = SqliteConnection::connect_with(&options).await.unwrap();
        sqlx::query(CREATE_TABLE).execute(&mut second).await.unwrap();
        post(&mut second, "after", Ok(())).await;
        assert_eq!(
            entries(list(&mut second).await),
            vec![(2, String::from("after")), (1, String::from("before"))]
        );
        sqlx::query("DROP TABLE chat_message")
            .execute(&mut second)
            .await
            .unwrap();
    });
}

#[test]
fn the_page_is_served_whatever_the_store_holds() {
    block_on(async {
        let mut empty = empty_database().await;
        let without_table = open_page(&mut empty).await;
        assert!(matches!(without_table, Reply::Page));
        assert_eq!(without_table.status(), 200);
        let mut conn = fresh_store().await;
        assert!(matches!(open_page(&mut conn).await, Reply::Page));
        post(&mut conn, "a", Ok(())).await;
        let with_rows = open_page(&mut conn).await;
        assert!(matches!(with_rows, Reply::Page));
        assert_eq!(with_rows.status(), 200);
        assert_eq!(entries(list(&mut conn).await), vec![(1, String::from("a"))]);
    });
}

#[test]
fn the_table_as_it_is_comes_oldest_first() {
    block_on(async {
        let mut conn = fresh_store().await;
        post(&mut conn, "a", Ok(())).await;
        post(&mut conn, "b", Ok(())).await;
        let rows = sqlx::query(SELECT_ALL).fetch_all(&mut conn).await.unwrap();
        let list = read_rows(&rows).unwrap();
        let listed: Vec<(i32, String)> =
            list.iter().map(|m| (m.id(), m.message().clone())).collect();
        assert_eq!(listed, vec![(1, String::from("a")), (2, String::from("b"))]);
    });
}

#[test]
fn a_missing_table_fails_the_write() {
    block_on(async {
        let mut conn = empty_database().await;
        let reply = post(&mut conn, "lost", Ok(())).await;
        assert!(matches!(reply, Reply::Fault(StoreError::Write)));
        assert_eq!(reply.status(), 500);
    });
}

#[test]
fn a_missing_table_fails_the_listing() {
    block_on(async {
        let mut conn = empty_database().await;
        let reply = list(&mut conn).await;
        assert!(matches!(reply, Reply::Fault(StoreError::Read)));
        assert_eq!(reply.status(), 500);
    });
}

#[test]
fn a_row_without_its_columns_is_a_read_error() {
    block_on(async {
        let mut conn = fresh_store().await;
        post(&mut conn, "a", Ok(())).await;
        let rows = sqlx::query("SELECT message, create_time FROM chat_message")
            .fetch_all(&mut conn)
            .await
            .unwrap();
        assert!(matches!(read_row(&rows[0]), Err(StoreError::Read)));
        let (stage, action) = get_message(Stage::Fetching, Event::Rows(rows));
        assert_eq!(stage, Stage::Done);
        assert!(matches!(action, Action::Reply(Reply::Fault(StoreError::Read))));
    });
}

#[test]
fn a_column_of_another_type_is_a_read_error() {
    block_on(async {
        let mut conn = fresh_store().await;
        post(&mut conn, "a", Ok(())).await;
        let rows = sqlx::query("SELECT message AS id, message, create_time FROM chat_message")
            .fetch_all(&mut conn)
            .await
            .unwrap();
        assert!(matches!(read_row(&rows[0]), Err(StoreError::Read)));
        let rows = sqlx::query("SELECT id, id AS message, create_time FROM chat_message")
            .fetch_all(&mut conn)
            .await
            .unwrap();
        assert!(matches!(read_rows(&rows), Err(StoreError::Read)));
    });
}

#[test]
fn an_id_beyond_32_bits_is_a_read_error() {
    block_on(async {
        let mut conn = fresh_store().await;
        sqlx::query("INSERT INTO chat_message (id, message) VALUES (2147483647, 'last')")
            .execute(&mut conn)
            .await
            .unwrap();
        assert_eq!(
            entries(list(&mut conn).await),
            vec![(2147483647, String::from("last"))]
        );
        sqlx::query(INSERT_MESSAGE)
            .bind("beyond")
            .execute(&mut conn)
            .await
            .unwrap();
        let reply = list(&mut conn).await;
        assert!(matches!(reply, Reply::Fault(StoreError::Read)));
    });
}

#[test]
fn one_bad_row_fails_the_whole_listing() {
    block_on(async {
        let mut conn = fresh_store().await;
        post(&mut conn, "a", Ok(())).await;
        post(&mut conn, "b", Ok(())).await;
        let rows = sqlx::query(
            "SELECT CASE WHEN id = 2 THEN 'two' ELSE id END AS id, message, create_time \
             FROM chat_message ORDER BY id",
        )
        .fetch_all(&mut conn)
        .await
        .unwrap();
        assert!(read_row(&rows[0]).is_ok());
        assert!(matches!(read_row(&rows[1]), Err(StoreError::Read)));
        assert!(matches!(read_rows(&rows), Err(StoreError::Read)));
    });
}

#[test]
fn no_rows_give_an_empty_listing() {
    block_on(async {
        let mut conn = fresh_store().await;
        assert_eq!(entries(list(&mut conn).await), Vec::new());
    });
}
