//! The values that cross the board's HTTP surface.

use vstd::prelude::*;

verus! {

/// What a stored message is, as plain mathematics.
pub struct MessageRecord {
    /// The identifier the store assigned.
    pub id: int,
    /// The text the client submitted.
    pub message: Seq<char>,
    /// The time the store recorded at insertion.
    pub create_time: Seq<char>,
}

/// One stored message, as `/messages` reports it.
#[derive(Debug)]
pub struct UserMessage {
    id: i32,
    message: String,
    create_time: String,
}

impl View for UserMessage {
    type V = MessageRecord;

    closed spec fn view(&self) -> MessageRecord {
        MessageRecord {
            id: self.id as int,
            message: self.message@,
            create_time: self.create_time@,
        }
    }
}

impl UserMessage {
    /// A message with the given identifier, text and time.
    pub fn new(id: i32, message: String, create_time: String) -> (m: UserMessage)
        ensures
            m@ == (MessageRecord { id: id as int, message: message@, create_time: create_time@ }),
    {
        UserMessage { id, message, create_time }
    }

    /// The identifier the store assigned.
    pub fn id(&self) -> (id: i32)
        ensures
            id as int == self@.id,
    {
        self.id
    }

    /// The text the client submitted.
    pub fn message(&self) -> (text: &String)
        ensures
            text@ == self@.message,
    {
        &self.message
    }

    /// The time the store recorded at insertion.
    pub fn create_time(&self) -> (time: &String)
        ensures
            time@ == self@.create_time,
    {
        &self.create_time
    }
}

/// The form that `/send` accepts: one field, the text to post.
pub struct FormData {
    message: String,
}

impl View for FormData {
    type V = Seq<char>;

    closed spec fn view(&self) -> Seq<char> {
        self.message@
    }
}

impl FormData {
    /// A form holding `message`. Any text is accepted, the empty one too.
    pub fn new(message: String) -> (form: FormData)
        ensures
            form@ == message@,
    {
        FormData { message }
    }

    /// The text to post.
    pub fn message(&self) -> (text: &String)
        ensures
            text@ == self@,
    {
        &self.message
    }
}

/// The envelope that `/send` answers with: a discriminator and a text.
#[derive(Debug)]
pub struct ResponseMessage<'a> {
    /// `"success"` or `"error"`; serialized under the key `type`.
    pub kind: &'a str,
    /// The confirmation, or the detail of the failure.
    pub message: &'a str,
}

} // verus!
