//! Data carried between the bot and the messaging platform's HTTP API.
//!
//! These are plain values: the HTTP client that sends and receives them
//! lives outside the library.

use vstd::prelude::*;

verus! {

/// Envelope around every answer of the messaging API.
pub struct TelegramResponse<T> {
    pub ok: bool,
    pub result: T,
}

/// One inbound update: a message together with the cursor value
/// (`update_id`) by which the poll loop advances its offset.
#[derive(Clone, Debug, PartialEq)]
pub struct Update {
    pub update_id: i32,
    pub message: Message,
}

#[derive(Clone, Debug, PartialEq)]
pub struct Message {
    pub message_id: i64,
    pub from: Option<User>,
    pub text: Option<String>,
    pub chat: Chat,
}

#[derive(Clone, Debug, PartialEq)]
pub struct Chat {
    pub id: i64,
}

#[derive(Clone, Debug, PartialEq)]
pub struct User {
    pub id: i32,
    pub is_bot: bool,
    pub first_name: String,
    pub last_name: Option<String>,
    pub username: Option<String>,
}

/// A bot command advertised to the messaging platform.
#[derive(Clone, Debug, PartialEq)]
pub struct BotCommand<'a> {
    pub command: &'a str,
    pub description: &'a str,
}

#[derive(Clone, Debug, PartialEq)]
pub enum ParseMode {
    MarkdownV2,
    Markdown,
    HTML,
}

/// An outbound message, ready for the messaging API's `sendMessage` call.
#[derive(Clone, Debug, PartialEq)]
pub struct SendMessage {
    pub chat_id: String,
    pub text: String,
    pub parse_mode: Option<ParseMode>,
    pub reply_to_message_id: Option<i64>,
}

/// What the update-processing logic reads of an inbound update: the cursor
/// value, the chat it came from, and its text.
pub struct UpdateS {
    pub update_id: i32,
    pub chat_id: i64,
    pub text: Option<Seq<char>>,
}

impl View for Update {
    type V = UpdateS;

    open spec fn view(&self) -> UpdateS {
        UpdateS {
            update_id: self.update_id,
            chat_id: self.message.chat.id,
            text: self.message.text.deep_view(),
        }
    }
}

/// The mathematical value of an outbound message.
pub struct SendMessageS {
    pub chat_id: Seq<char>,
    pub text: Seq<char>,
    pub parse_mode: Option<ParseMode>,
    pub reply_to_message_id: Option<i64>,
}

impl View for SendMessage {
    type V = SendMessageS;

    open spec fn view(&self) -> SendMessageS {
        SendMessageS {
            chat_id: self.chat_id@,
            text: self.text@,
            parse_mode: self.parse_mode,
            reply_to_message_id: self.reply_to_message_id,
        }
    }
}

} // verus!
