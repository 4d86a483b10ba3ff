//! A small chat board: stored messages, their listing, and the notice sent
//! for each new message.
//!
//! The crate holds the decisions of the board. Reading and writing the
//! database file, talking to the mail relay and serving HTTP are left to the
//! program around it, which performs each [`service::Action`] and reports
//! back with an [`service::Event`].

pub mod message;
pub mod notify;
pub mod service;
pub mod store;

pub use message::{FormData, MessageRecord, ResponseMessage, UserMessage};
pub use notify::{send_code, Dispatch, Email, NotifierConfig, NotifyOutcome, NotifyResult};
pub use service::{chat_route, get_message, send_message, Action, Event, Reply, Stage};
pub use store::{initialize, ListOrder, Setup, SetupAction, SetupEvent, StoreError};
