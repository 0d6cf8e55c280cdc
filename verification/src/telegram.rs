//! The chat platform's side: the updates that come in and the messages that
//! go out.

use vstd::prelude::*;
use vstd::string::*;
use crate::text::optional_text;

verus! {

/// The chat that a message belongs to.
#[derive(Debug)]
pub struct Chat {
    pub id: i64,
}

/// A message of an incoming update.
#[derive(Debug)]
pub struct Message {
    pub chat: Chat,
    pub text: Option<String>,
}

/// A button press of an incoming update, with the message that held the
/// button.
#[derive(Debug)]
pub struct CallbackQuery {
    pub data: String,
    pub message: Message,
}

/// An incoming update as it is read: a message, a button press, both or
/// neither.
#[derive(Debug)]
pub struct TelegramUpdate {
    pub message: Option<Message>,
    pub callback_query: Option<CallbackQuery>,
}

/// An incoming update that has one of the two accepted shapes.
#[derive(Debug)]
pub enum InboundUpdate {
    Message { chat_id: i64, text: Option<String> },
    CallbackQuery { data: String, chat_id: i64 },
}

/// A button under an outgoing message.
#[derive(Debug)]
pub struct TelegramButton {
    pub text: String,
    pub callback_data: String,
}

/// The rows of buttons under an outgoing message.
#[derive(Debug)]
pub struct ReplyMarkup {
    pub inline_keyboard: Vec<Vec<TelegramButton>>,
}

/// How the platform is to read an outgoing message's text.
#[derive(Clone, Copy, Debug, PartialEq, Eq, Structural)]
pub enum TelegramMessageParseMode {
    MarkdownV2,
}

/// The platform's methods that the bot calls.
#[derive(Clone, Copy, Debug, PartialEq, Eq, Structural)]
pub enum TelegramMessageMethod {
    SendMessage,
}

/// An outgoing message.
#[derive(Debug)]
pub struct TelegramMessage {
    pub chat_id: i64,
    pub text: String,
    pub parse_mode: TelegramMessageParseMode,
    pub reply_markup: Option<ReplyMarkup>,
}

/// Mathematical value of a [`Message`].
pub struct MessageView {
    pub chat_id: int,
    pub text: Option<Seq<char>>,
}

/// Mathematical value of a [`CallbackQuery`].
pub struct CallbackQueryView {
    pub data: Seq<char>,
    pub message: MessageView,
}

/// Mathematical value of a [`TelegramUpdate`].
pub struct TelegramUpdateView {
    pub message: Option<MessageView>,
    pub callback_query: Option<CallbackQueryView>,
}

/// Mathematical value of an [`InboundUpdate`].
pub enum InboundUpdateView {
    Message { chat_id: int, text: Option<Seq<char>> },
    CallbackQuery { data: Seq<char>, chat_id: int },
}

/// Mathematical value of a [`TelegramButton`].
pub struct TelegramButtonView {
    pub text: Seq<char>,
    pub callback_data: Seq<char>,
}

/// Mathematical value of a [`TelegramMessage`]: the rows of buttons are
/// sequences, and a message without buttons has `None`.
pub struct TelegramMessageView {
    pub chat_id: int,
    pub text: Seq<char>,
    pub parse_mode: TelegramMessageParseMode,
    pub reply_markup: Option<Seq<Seq<TelegramButtonView>>>,
}

impl View for Message {
    type V = MessageView;

    open spec fn view(&self) -> MessageView {
        MessageView {
            chat_id: self.chat.id as int,
            text: optional_text(self.text),
        }
    }
}

impl View for CallbackQuery {
    type V = CallbackQueryView;

    open spec fn view(&self) -> CallbackQueryView {
        CallbackQueryView { data: self.data@, message: self.message@ }
    }
}

impl View for TelegramUpdate {
    type V = TelegramUpdateView;

    open spec fn view(&self) -> TelegramUpdateView {
        TelegramUpdateView {
            message: match self.message {
                Some(message) => Some(message@),
                None => None,
            },
            callback_query: match self.callback_query {
                Some(query) => Some(query@),
                None => None,
            },
        }
    }
}

impl View for InboundUpdate {
    type V = InboundUpdateView;

    open spec fn view(&self) -> InboundUpdateView {
        match self {
            InboundUpdate::Message { chat_id, text } => InboundUpdateView::Message {
                chat_id: *chat_id as int,
                text: optional_text(*text),
            },
            InboundUpdate::CallbackQuery { data, chat_id } => InboundUpdateView::CallbackQuery {
                data: data@,
                chat_id: *chat_id as int,
            },
        }
    }
}

impl View for TelegramButton {
    type V = TelegramButtonView;

    open spec fn view(&self) -> TelegramButtonView {
        TelegramButtonView { text: self.text@, callback_data: self.callback_data@ }
    }
}

/// The values of one row of buttons.
pub open spec fn row_view(row: Seq<TelegramButton>) -> Seq<TelegramButtonView> {
    Seq::new(row.len(), |i: int| row[i]@)
}

impl View for ReplyMarkup {
    type V = Seq<Seq<TelegramButtonView>>;

    open spec fn view(&self) -> Seq<Seq<TelegramButtonView>> {
        Seq::new(self.inline_keyboard@.len(), |i: int| row_view(self.inline_keyboard@[i]@))
    }
}

impl View for TelegramMessage {
    type V = TelegramMessageView;

    open spec fn view(&self) -> TelegramMessageView {
        TelegramMessageView {
            chat_id: self.chat_id as int,
            text: self.text@,
            parse_mode: self.parse_mode,
            reply_markup: match self.reply_markup {
                Some(markup) => Some(markup@),
                None => None,
            },
        }
    }
}

/// The one button that every message to the user carries.
pub open spec fn request_button() -> TelegramButtonView {
    TelegramButtonView { text: "Request Bus Timings"@, callback_data: "request_timings"@ }
}

/// A message to `chat_id` with the given text, read as strict markdown, and
/// the request button alone in a single row under it.
pub open spec fn message_with_request_button(chat_id: int, text: Seq<char>) -> TelegramMessageView {
    TelegramMessageView {
        chat_id,
        text,
        parse_mode: TelegramMessageParseMode::MarkdownV2,
        reply_markup: Some(seq![seq![request_button()]]),
    }
}

/// The name under which the platform knows a method.
pub open spec fn method_name(method: TelegramMessageMethod) -> Seq<char> {
    match method {
        TelegramMessageMethod::SendMessage => "sendMessage"@,
    }
}

/// The address to which a call of `method` is posted for the bot that holds
/// `api_key`.
pub open spec fn method_url(api_key: Seq<char>, method: TelegramMessageMethod) -> Seq<char> {
    "https://api.telegram.org/bot"@ + api_key + "/"@ + method_name(method)
}

impl TelegramMessageMethod {
    /// The name under which the platform knows the method.
    pub fn name(&self) -> (name: String)
        ensures
            name@ == method_name(*self),
    {
        match self {
            TelegramMessageMethod::SendMessage => String::from_str("sendMessage"),
        }
    }

    /// The address to which a call of the method is posted.
    pub fn url(&self, telegram_api_key: &str) -> (url: String)
        ensures
            url@ == method_url(telegram_api_key@, *self),
    {
        let mut url = String::from_str("https://api.telegram.org/bot");
        url.append(telegram_api_key);
        url.append("/");
        let name = self.name();
        url.append(name.as_str());
        url
    }
}

/// Builds a message to `chat_id` with the given text and the request button.
pub fn get_telegram_message_with_request_button(
    chat_id: i64,
    text: &str,
) -> (message: TelegramMessage)
    ensures
        message@ == message_with_request_button(chat_id as int, text@),
{
    let button = TelegramButton {
        text: String::from_str("Request Bus Timings"),
        callback_data: String::from_str("request_timings"),
    };
    let mut row: Vec<TelegramButton> = Vec::new();
    row.push(button);
    let mut rows: Vec<Vec<TelegramButton>> = Vec::new();
    rows.push(row);
    let markup = ReplyMarkup { inline_keyboard: rows };
    assert(row_view(markup.inline_keyboard@[0]@) =~= seq![request_button()]);
    assert(markup@ =~= seq![seq![request_button()]]);
    TelegramMessage {
        chat_id,
        text: String::from_str(text),
        parse_mode: TelegramMessageParseMode::MarkdownV2,
        reply_markup: Some(markup),
    }
}

} // verus!
