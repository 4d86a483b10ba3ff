//! The notice sent for each new message: what it says, and how the relay's
//! answer is reported.

use vstd::prelude::*;
use std::str::FromStr;
use std::time::{Duration, UNIX_EPOCH};
use lettre::message::header::ContentType;
use lettre::message::Mailbox;
use lettre::{Address, Message};
use crate::message::ResponseMessage;

verus! {

/// Who the notices come from, who gets them, and their subject line.
#[derive(Debug)]
pub struct NotifierConfig {
    /// The display name shown as the sender.
    pub sender_name: String,
    /// The sender's address, `user@domain`.
    pub sender_address: String,
    /// The recipient's mailbox: an address, or `Name <address>`.
    pub recipient: String,
    /// The subject of every notice.
    pub subject: String,
}

/// A notice as plain values.
#[derive(Debug)]
pub struct Email {
    /// The display name shown as the sender.
    pub sender_name: String,
    /// The sender's address.
    pub sender_address: String,
    /// The recipient's mailbox.
    pub recipient: String,
    /// The subject line.
    pub subject: String,
    /// The content type of the body.
    pub content_type: &'static str,
    /// The body: the text of the message that was posted.
    pub body: String,
    /// The date of the notice, in seconds since the start of 1970.
    pub date: u64,
}

/// A notice that is ready for the relay.
#[derive(Debug)]
pub struct Dispatch {
    /// What the notice says.
    pub email: Email,
    /// The same notice as lettre built it.
    pub message: Message,
}

/// How a notification ended, as plain mathematics.
pub enum NotifyOutcome {
    /// The relay accepted the notice.
    Success,
    /// No notice went out; the text says why.
    Failure(Seq<char>),
}

/// How a notification ended.
#[derive(Debug)]
pub enum NotifyResult {
    /// The relay accepted the notice.
    Success,
    /// No notice went out; the text says why.
    Failure(String),
}

impl View for NotifyResult {
    type V = NotifyOutcome;

    open spec fn view(&self) -> NotifyOutcome {
        match self {
            NotifyResult::Success => NotifyOutcome::Success,
            NotifyResult::Failure(detail) => NotifyOutcome::Failure(detail@),
        }
    }
}

/// The text that confirms a notice.
pub const CONFIRMATION: &'static str = "发送成功";

/// The content type of every notice: HTML.
pub const HTML: &'static str = "text/html; charset=utf-8";

/// The first second that is too late for the date of a notice: the start of
/// the year 10000.
pub const DATE_LIMIT: i64 = 253402300800;

/// Why a sender's name with a line break in it gets no notice.
pub const BROKEN_NAME: &'static str = "the sender's name holds a line break";

/// Why a date before 1970 or after 9999 gets no notice.
pub const BAD_DATE: &'static str = "the date lies outside the years 1970 to 9999";

/// An email message as lettre holds it, ready for a transport.
#[verifier::external_type_specification]
#[verifier::external_body]
pub struct ExMessage(Message);

/// What lettre objects to when `text` is read as an address: nothing where it
/// accepts the text, else the debug text of its error.
pub uninterp spec fn address_fault(text: Seq<char>) -> Option<Seq<char>>;

/// What lettre objects to when `text` is read as a mailbox: nothing where it
/// accepts the text, else the debug text of its error.
pub uninterp spec fn mailbox_fault(text: Seq<char>) -> Option<Seq<char>>;

/// What lettre's message builder returns for a sender's name and address, a
/// recipient, a subject, a content type, a body and a date: the message, or
/// the debug text of its error.
pub uninterp spec fn built(
    sender_name: Seq<char>,
    sender_address: Seq<char>,
    recipient: Seq<char>,
    subject: Seq<char>,
    content_type: Seq<char>,
    body: Seq<char>,
    date: u64,
) -> Result<Message, Seq<char>>;

/// `Address::from_str` of lettre. Whether it accepts `text` depends on the
/// text alone; `address_fault` names its verdict. An error comes back as its
/// debug text, and the address itself is dropped.
#[verifier::external_body]
fn check_address(text: &str) -> (r: Result<(), String>)
    ensures
        match r {
            Ok(_) => address_fault(text@).is_none(),
            Err(detail) => address_fault(text@) == Some(detail@),
        },
{
    match Address::from_str(text) {
        Ok(_) => Ok(()),
        Err(error) => Err(format!("{:?}", error)),
    }
}

/// `Mailbox::from_str` of lettre. Whether it accepts `text` depends on the
/// text alone; `mailbox_fault` names its verdict. An error comes back as its
/// debug text, and the mailbox itself is dropped.
#[verifier::external_body]
fn check_mailbox(text: &str) -> (r: Result<(), String>)
    ensures
        match r {
            Ok(_) => mailbox_fault(text@).is_none(),
            Err(detail) => mailbox_fault(text@) == Some(detail@),
        },
{
    match Mailbox::from_str(text) {
        Ok(_) => Ok(()),
        Err(error) => Err(format!("{:?}", error)),
    }
}

/// lettre's message builder: `Message::builder()`, then `from`, `to`,
/// `subject`, the header `ContentType::TEXT_HTML`, `date`, and `body`. With
/// the date handed in, what comes back depends on the arguments alone;
/// `built` names it. An error comes back as its debug text.
///
/// Left out are the inputs on which the call would panic: a sender or a
/// recipient that lettre does not parse (both are parsed here once more), a
/// sender's name with a line break, which lettre cannot write into the
/// header, and a date that it cannot format. The content type is the one
/// that the builder is handed here.
#[verifier::external_body]
fn compose(email: &Email) -> (r: Result<Message, String>)
    requires
        address_fault(email.sender_address@).is_none(),
        mailbox_fault(email.recipient@).is_none(),
        !breaks_line(email.sender_name@),
        email.content_type@ == HTML@,
        email.date < DATE_LIMIT,
    ensures
        match r {
            Ok(message) => built(
                email.sender_name@,
                email.sender_address@,
                email.recipient@,
                email.subject@,
                email.content_type@,
                email.body@,
                email.date,
            ) == Ok::<Message, Seq<char>>(message),
            Err(detail) => built(
                email.sender_name@,
                email.sender_address@,
                email.recipient@,
                email.subject@,
                email.content_type@,
                email.body@,
                email.date,
            ) == Err::<Message, Seq<char>>(detail@),
        },
{
    let sender = Address::from_str(&email.sender_address).unwrap();
    let built = Message::builder()
        .from(Mailbox::new(Some(email.sender_name.clone()), sender))
        .to(Mailbox::from_str(&email.recipient).unwrap())
        .subject(email.subject.as_str())
        .header(ContentType::TEXT_HTML)
        .date(UNIX_EPOCH + Duration::from_secs(email.date))
        .body(email.body.clone());
    match built {
        Ok(message) => Ok(message),
        Err(error) => Err(format!("{:?}", error)),
    }
}

/// Whether `name` holds a carriage return or a line feed.
pub open spec fn breaks_line(name: Seq<char>) -> bool {
    exists|i: int| 0 <= i < name.len() && (#[trigger] name[i] == '\n' || name[i] == '\r')
}

/// Whether `date` can stand on a notice: it lies in the years 1970 to 9999.
pub open spec fn date_fits(date: i64) -> bool {
    0 <= date < DATE_LIMIT
}

/// Whether `email` is the notice that `config` prescribes for `text` at
/// `date`: sender, recipient and subject as configured, HTML as content type,
/// the text as body.
pub open spec fn drafted(email: Email, config: NotifierConfig, text: Seq<char>, date: u64) -> bool {
    &&& email.sender_name@ == config.sender_name@
    &&& email.sender_address@ == config.sender_address@
    &&& email.recipient@ == config.recipient@
    &&& email.subject@ == config.subject@
    &&& email.content_type@ == HTML@
    &&& email.body@ == text
    &&& email.date == date
}

/// What lettre's message builder returns for the notice that `config`
/// prescribes for `text` at `date`.
pub open spec fn notice_built(config: NotifierConfig, text: Seq<char>, date: i64) -> Result<
    Message,
    Seq<char>,
> {
    built(
        config.sender_name@,
        config.sender_address@,
        config.recipient@,
        config.subject@,
        HTML@,
        text,
        date as u64,
    )
}

/// Why no notice goes out for `text` at `date`, if none does. The sender's
/// address is judged first, then the recipient's mailbox, the sender's name
/// and the date, and at last lettre builds the message.
pub open spec fn notice_fault(config: NotifierConfig, text: Seq<char>, date: i64) -> Option<
    Seq<char>,
> {
    if address_fault(config.sender_address@).is_some() {
        address_fault(config.sender_address@)
    } else if mailbox_fault(config.recipient@).is_some() {
        mailbox_fault(config.recipient@)
    } else if breaks_line(config.sender_name@) {
        Some(BROKEN_NAME@)
    } else if !date_fits(date) {
        Some(BAD_DATE@)
    } else {
        match notice_built(config, text, date) {
            Ok(_) => None,
            Err(detail) => Some(detail),
        }
    }
}

/// Whether `dispatch` is the notice for `text` at `date`, together with the
/// message that lettre builds from it.
pub open spec fn dispatches(
    dispatch: Dispatch,
    config: NotifierConfig,
    text: Seq<char>,
    date: i64,
) -> bool {
    &&& date_fits(date)
    &&& drafted(dispatch.email, config, text, date as u64)
    &&& notice_built(config, text, date) == Ok::<Message, Seq<char>>(dispatch.message)
}

/// Tells whether `name` holds a carriage return or a line feed.
pub fn holds_line_break(name: &str) -> (found: bool)
    ensures
        found == breaks_line(name@),
{
    let length = name.unicode_len();
    let mut i: usize = 0;
    while i < length
        invariant
            length == name@.len(),
            i <= length,
            forall|k: int| 0 <= k < i ==> name@[k] != '\n' && name@[k] != '\r',
        decreases length - i,
    {
        let c = name.get_char(i);
        if c == '\n' || c == '\r' {
            return true;
        }
        i += 1;
    }
    false
}

/// The notice for `text` at `date`: sender, recipient and subject as
/// configured, HTML as content type, the text as its body.
pub fn draft(config: &NotifierConfig, text: String, date: u64) -> (email: Email)
    ensures
        drafted(email, *config, text@, date),
{
    Email {
        sender_name: config.sender_name.clone(),
        sender_address: config.sender_address.clone(),
        recipient: config.recipient.clone(),
        subject: config.subject.clone(),
        content_type: HTML,
        body: text,
        date,
    }
}

/// Pairs a notice with what lettre made of it. A refusal by lettre becomes a
/// failed notification that carries lettre's words.
pub fn seal(email: Email, built: Result<Message, String>) -> (r: Result<Dispatch, NotifyResult>)
    ensures
        match built {
            Ok(message) => r == Ok::<Dispatch, NotifyResult>(Dispatch { email, message }),
            Err(detail) => r is Err && r->Err_0@ == NotifyOutcome::Failure(detail@),
        },
{
    match built {
        Ok(message) => Ok(Dispatch { email, message }),
        Err(detail) => Err(NotifyResult::Failure(detail)),
    }
}

/// Prepares the notice for a message that was stored at `date`, given in
/// seconds since the start of 1970.
///
/// A notice comes back exactly where nothing stands against it. It holds the
/// configured sender, recipient and subject, is HTML and has `message_data`
/// as its body, and the message beside it is the one that lettre builds from
/// these. Otherwise the notification fails with the objection: that of
/// lettre to the sender's address, to the recipient's mailbox or to the
/// message as a whole, or this library's own to a sender's name with a line
/// break or a date outside the years 1970 to 9999.
pub fn send_code(config: &NotifierConfig, message_data: String, date: i64) -> (r: Result<
    Dispatch,
    NotifyResult,
>)
    ensures
        match r {
            Ok(dispatch) => notice_fault(*config, message_data@, date).is_none() && dispatches(
                dispatch,
                *config,
                message_data@,
                date,
            ),
            Err(failure) => notice_fault(*config, message_data@, date) matches Some(detail)
                && failure@ == NotifyOutcome::Failure(detail),
        },
{
    match check_address(config.sender_address.as_str()) {
        Ok(_) => {},
        Err(detail) => {
            return Err(NotifyResult::Failure(detail));
        },
    }
    match check_mailbox(config.recipient.as_str()) {
        Ok(_) => {},
        Err(detail) => {
            return Err(NotifyResult::Failure(detail));
        },
    }
    if holds_line_break(config.sender_name.as_str()) {
        return Err(NotifyResult::Failure(BROKEN_NAME.to_owned()));
    }
    if date < 0 || date >= DATE_LIMIT {
        return Err(NotifyResult::Failure(BAD_DATE.to_owned()));
    }
    let email = draft(config, message_data, date as u64);
    let built = compose(&email);
    seal(email, built)
}

impl NotifyResult {
    /// The envelope that reports this outcome to the client: `success` with
    /// the confirmation, or `error` with the detail of the failure.
    pub fn envelope(&self) -> (e: ResponseMessage<'_>)
        ensures
            match self@ {
                NotifyOutcome::Success => e.kind@ == "success"@ && e.message@ == CONFIRMATION@,
                NotifyOutcome::Failure(detail) => e.kind@ == "error"@ && e.message@ == detail,
            },
    {
        match self {
            NotifyResult::Success => ResponseMessage { kind: "success", message: CONFIRMATION },
            NotifyResult::Failure(detail) => ResponseMessage {
                kind: "error",
                message: detail.as_str(),
            },
        }
    }
}

} // verus!
