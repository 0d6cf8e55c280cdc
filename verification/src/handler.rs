//! The request handler as a chain of decisions. Each decision takes what has
//! just happened and says what is to be done next; the caller does it and
//! comes back with the outcome.

use vstd::prelude::*;
use vstd::string::*;
use crate::arrivals::{
    current_timestamp, services_summary, services_view, summarize_services_at, BusService,
    BusServiceView,
};
use crate::report::{bus_timings_text, format_bus_timings_message};
use crate::telegram::{
    get_telegram_message_with_request_button, message_with_request_button, method_url,
    request_button, InboundUpdate, InboundUpdateView, TelegramMessage, TelegramMessageMethod,
    TelegramMessageParseMode, TelegramMessageView, TelegramUpdate, TelegramUpdateView,
};
use crate::text::{decimal, decimal_i64, optional_text};

verus! {

/// Why a request was given up.
#[derive(Debug)]
pub enum HandlerError {
    /// The update is neither a message nor a button press.
    MalformedPayload,
    /// The update names no chat.
    MissingChatId,
    /// The update comes from a chat other than the configured one.
    Unauthorized { chat_id: i64 },
    /// A button press carries a token other than the request button's.
    InvalidCallback { data: String },
    /// A message carries no text, or a text other than the start command.
    InvalidCommand { text: Option<String> },
    /// The arrival service could not be reached.
    UpstreamUnreachable,
    /// The arrival service answered with something that could not be read.
    UpstreamBadResponse,
    /// The reply could not be handed to the chat platform.
    DeliveryFailed,
}

/// Mathematical value of a [`HandlerError`].
pub enum HandlerErrorView {
    MalformedPayload,
    MissingChatId,
    Unauthorized { chat_id: int },
    InvalidCallback { data: Seq<char> },
    InvalidCommand { text: Option<Seq<char>> },
    UpstreamUnreachable,
    UpstreamBadResponse,
    DeliveryFailed,
}

impl View for HandlerError {
    type V = HandlerErrorView;

    open spec fn view(&self) -> HandlerErrorView {
        match self {
            HandlerError::MalformedPayload => HandlerErrorView::MalformedPayload,
            HandlerError::MissingChatId => HandlerErrorView::MissingChatId,
            HandlerError::Unauthorized { chat_id } => HandlerErrorView::Unauthorized {
                chat_id: *chat_id as int,
            },
            HandlerError::InvalidCallback { data } => HandlerErrorView::InvalidCallback {
                data: data@,
            },
            HandlerError::InvalidCommand { text } => HandlerErrorView::InvalidCommand {
                text: optional_text(*text),
            },
            HandlerError::UpstreamUnreachable => HandlerErrorView::UpstreamUnreachable,
            HandlerError::UpstreamBadResponse => HandlerErrorView::UpstreamBadResponse,
            HandlerError::DeliveryFailed => HandlerErrorView::DeliveryFailed,
        }
    }
}

/// The line that tells of an error, with the value that was refused.
pub open spec fn error_text(error: HandlerErrorView) -> Seq<char> {
    match error {
        HandlerErrorView::MalformedPayload => "Update is neither a message nor a callback query"@,
        HandlerErrorView::MissingChatId => "No chat id found in request"@,
        HandlerErrorView::Unauthorized { chat_id } => "Chat ID "@ + decimal(chat_id)
            + " is not allowed"@,
        HandlerErrorView::InvalidCallback { data } =>
            "Invalid callback query, expected \"request_timings\" but got \""@ + data + "\""@,
        HandlerErrorView::InvalidCommand { text: Some(text) } =>
            "Invalid message, expected \"/start\" but got \""@ + text + "\""@,
        HandlerErrorView::InvalidCommand { text: None } => "No message found in request"@,
        HandlerErrorView::UpstreamUnreachable => "Bus arrival service could not be reached"@,
        HandlerErrorView::UpstreamBadResponse => "Bus arrival service sent an unreadable response"@,
        HandlerErrorView::DeliveryFailed => "Message could not be delivered"@,
    }
}

impl HandlerError {
    /// Writes the line that tells of the error.
    pub fn describe(&self) -> (line: String)
        ensures
            line@ == error_text(self@),
    {
        match self {
            HandlerError::MalformedPayload => String::from_str(
                "Update is neither a message nor a callback query",
            ),
            HandlerError::MissingChatId => String::from_str("No chat id found in request"),
            HandlerError::Unauthorized { chat_id } => {
                let mut line = String::from_str("Chat ID ");
                let written = decimal_i64(*chat_id);
                line.append(written.as_str());
                line.append(" is not allowed");
                line
            },
            HandlerError::InvalidCallback { data } => {
                let mut line = String::from_str(
                    "Invalid callback query, expected \"request_timings\" but got \"",
                );
                line.append(data.as_str());
                line.append("\"");
                line
            },
            HandlerError::InvalidCommand { text: Some(text) } => {
                let mut line = String::from_str(
                    "Invalid message, expected \"/start\" but got \"",
                );
                line.append(text.as_str());
                line.append("\"");
                line
            },
            HandlerError::InvalidCommand { text: None } => String::from_str(
                "No message found in request",
            ),
            HandlerError::UpstreamUnreachable => String::from_str(
                "Bus arrival service could not be reached",
            ),
            HandlerError::UpstreamBadResponse => String::from_str(
                "Bus arrival service sent an unreadable response",
            ),
            HandlerError::DeliveryFailed => String::from_str("Message could not be delivered"),
        }
    }
}

/// What one request works with: the two credentials, the stop and the one
/// chat that is served.
#[derive(Debug)]
pub struct Config {
    pub lta_api_key: String,
    pub telegram_api_key: String,
    pub bus_stop_code: String,
    pub allowed_chat_id: String,
}

/// Mathematical value of a [`Config`].
pub struct ConfigView {
    pub lta_api_key: Seq<char>,
    pub telegram_api_key: Seq<char>,
    pub bus_stop_code: Seq<char>,
    pub allowed_chat_id: Seq<char>,
}

impl View for Config {
    type V = ConfigView;

    open spec fn view(&self) -> ConfigView {
        ConfigView {
            lta_api_key: self.lta_api_key@,
            telegram_api_key: self.telegram_api_key@,
            bus_stop_code: self.bus_stop_code@,
            allowed_chat_id: self.allowed_chat_id@,
        }
    }
}

/// How the call to the arrival service ended.
#[derive(Debug)]
pub enum FetchOutcome {
    Fetched(Vec<BusService>),
    Unreachable,
    BadResponse,
}

/// Mathematical value of a [`FetchOutcome`].
pub enum FetchOutcomeView {
    Fetched(Seq<BusServiceView>),
    Unreachable,
    BadResponse,
}

impl View for FetchOutcome {
    type V = FetchOutcomeView;

    open spec fn view(&self) -> FetchOutcomeView {
        match self {
            FetchOutcome::Fetched(services) => FetchOutcomeView::Fetched(services_view(services@)),
            FetchOutcome::Unreachable => FetchOutcomeView::Unreachable,
            FetchOutcome::BadResponse => FetchOutcomeView::BadResponse,
        }
    }
}

/// How the call to the chat platform ended. What the platform answered is
/// not looked at: a call that got through counts as sent.
#[derive(Clone, Copy, Debug, PartialEq, Eq, Structural)]
pub enum SendOutcome {
    Sent,
    TransportFailed,
}

/// What has just happened. An outcome of the arrival call brings back the
/// chat id that the request for that call named.
#[derive(Debug)]
pub enum Event {
    Update(TelegramUpdate),
    UnreadableUpdate,
    Arrivals { chat_id: i64, outcome: FetchOutcome },
    Delivery(SendOutcome),
}

/// Mathematical value of an [`Event`].
pub enum EventView {
    Update(TelegramUpdateView),
    UnreadableUpdate,
    Arrivals { chat_id: int, outcome: FetchOutcomeView },
    Delivery(SendOutcome),
}

impl View for Event {
    type V = EventView;

    open spec fn view(&self) -> EventView {
        match self {
            Event::Update(update) => EventView::Update(update@),
            Event::UnreadableUpdate => EventView::UnreadableUpdate,
            Event::Arrivals { chat_id, outcome } => EventView::Arrivals {
                chat_id: *chat_id as int,
                outcome: outcome@,
            },
            Event::Delivery(outcome) => EventView::Delivery(*outcome),
        }
    }
}

/// What is to be done next.
#[derive(Debug)]
pub enum Action {
    /// Ask the arrival service, with the key in the `AccountKey` header, and
    /// come back with [`Event::Arrivals`] for the same chat.
    FetchArrivals { chat_id: i64, url: String, account_key: String },
    /// Post the message to the chat platform and come back with
    /// [`Event::Delivery`].
    SendMessage { url: String, message: TelegramMessage },
    /// Answer the platform's call with this body; the request is done.
    Respond { body: String },
    /// Give the request up.
    Fail(HandlerError),
}

/// Mathematical value of an [`Action`].
pub enum ActionView {
    FetchArrivals { chat_id: int, url: Seq<char>, account_key: Seq<char> },
    SendMessage { url: Seq<char>, message: TelegramMessageView },
    Respond { body: Seq<char> },
    Fail(HandlerErrorView),
}

impl View for Action {
    type V = ActionView;

    open spec fn view(&self) -> ActionView {
        match self {
            Action::FetchArrivals { chat_id, url, account_key } => ActionView::FetchArrivals {
                chat_id: *chat_id as int,
                url: url@,
                account_key: account_key@,
            },
            Action::SendMessage { url, message } => ActionView::SendMessage {
                url: url@,
                message: message@,
            },
            Action::Respond { body } => ActionView::Respond { body: body@ },
            Action::Fail(error) => ActionView::Fail(error@),
        }
    }
}

/// The token that the request button sends back.
pub open spec fn request_token() -> Seq<char> {
    "request_timings"@
}

/// The command that opens a conversation.
pub open spec fn start_command() -> Seq<char> {
    "/start"@
}

/// The text that answers the start command.
pub open spec fn welcome_text() -> Seq<char> {
    "Welcome to the Bus Arrival Bot! Click the button below to request bus timings:"@
}

/// The body that answers the platform's call once a reply is sent.
pub open spec fn acknowledgement() -> Seq<char> {
    "OK"@
}

/// The address at which the arrival service is asked about a stop.
pub open spec fn arrivals_url(bus_stop_code: Seq<char>) -> Seq<char> {
    "http://datamall2.mytransport.sg/ltaodataservice/BusArrivalv2?BusStopCode="@ + bus_stop_code
}

/// The shape of an update: a button press where there is one, else a message
/// where there is one, else an error.
pub open spec fn classify(update: TelegramUpdateView) -> Result<
    InboundUpdateView,
    HandlerErrorView,
> {
    match update.callback_query {
        Some(query) => Ok(
            InboundUpdateView::CallbackQuery { data: query.data, chat_id: query.message.chat_id },
        ),
        None => match update.message {
            Some(message) => Ok(
                InboundUpdateView::Message { chat_id: message.chat_id, text: message.text },
            ),
            None => Err(HandlerErrorView::MalformedPayload),
        },
    }
}

/// The chat that an update of an accepted shape comes from.
pub open spec fn inbound_chat_id(update: InboundUpdateView) -> int {
    match update {
        InboundUpdateView::Message { chat_id, .. } => chat_id,
        InboundUpdateView::CallbackQuery { chat_id, .. } => chat_id,
    }
}

/// Whether a chat is the configured one: its id, written in decimal, is the
/// configured text.
pub open spec fn is_authorized(chat_id: int, allowed_chat_id: Seq<char>) -> bool {
    decimal(chat_id) == allowed_chat_id
}

/// The reply to the configured chat: a message with the request button,
/// posted to the platform's send method.
pub open spec fn reply_action(chat_id: int, text: Seq<char>, config: ConfigView) -> ActionView {
    ActionView::SendMessage {
        url: method_url(config.telegram_api_key, TelegramMessageMethod::SendMessage),
        message: message_with_request_button(chat_id, text),
    }
}

/// What an authorized update asks for: a press of the request button asks for
/// the arrivals, the start command is answered with the welcome, anything
/// else is an error.
pub open spec fn dispatch_action(update: InboundUpdateView, config: ConfigView) -> ActionView {
    match update {
        InboundUpdateView::CallbackQuery { data, chat_id } => if data == request_token() {
            ActionView::FetchArrivals {
                chat_id,
                url: arrivals_url(config.bus_stop_code),
                account_key: config.lta_api_key,
            }
        } else {
            ActionView::Fail(HandlerErrorView::InvalidCallback { data })
        },
        InboundUpdateView::Message { chat_id, text } => if text == Some(start_command()) {
            reply_action(chat_id, welcome_text(), config)
        } else {
            ActionView::Fail(HandlerErrorView::InvalidCommand { text })
        },
    }
}

/// The decision on an incoming update: its shape is checked first, then its
/// chat, then what it asks for.
pub open spec fn update_action(update: TelegramUpdateView, config: ConfigView) -> ActionView {
    match classify(update) {
        Err(error) => ActionView::Fail(error),
        Ok(inbound) => if is_authorized(inbound_chat_id(inbound), config.allowed_chat_id) {
            dispatch_action(inbound, config)
        } else {
            ActionView::Fail(HandlerErrorView::Unauthorized { chat_id: inbound_chat_id(inbound) })
        },
    }
}

/// The decision on the outcome of the arrival call, seen at the instant
/// `now`: the report goes to the chat, or the request is given up.
pub open spec fn arrivals_action(
    chat_id: int,
    outcome: FetchOutcomeView,
    config: ConfigView,
    now: int,
) -> ActionView {
    match outcome {
        FetchOutcomeView::Fetched(services) => reply_action(
            chat_id,
            bus_timings_text(services_summary(services, now)),
            config,
        ),
        FetchOutcomeView::Unreachable => ActionView::Fail(HandlerErrorView::UpstreamUnreachable),
        FetchOutcomeView::BadResponse => ActionView::Fail(HandlerErrorView::UpstreamBadResponse),
    }
}

/// The decision on the outcome of the send call.
pub open spec fn delivery_action(outcome: SendOutcome) -> ActionView {
    match outcome {
        SendOutcome::Sent => ActionView::Respond { body: acknowledgement() },
        SendOutcome::TransportFailed => ActionView::Fail(HandlerErrorView::DeliveryFailed),
    }
}

/// The decision on any event, seen at the instant `now`. Only the report on
/// fetched arrivals depends on the instant.
pub open spec fn next_action(event: EventView, config: ConfigView, now: int) -> ActionView {
    match event {
        EventView::Update(update) => update_action(update, config),
        EventView::UnreadableUpdate => ActionView::Fail(HandlerErrorView::MalformedPayload),
        EventView::Arrivals { chat_id, outcome } => arrivals_action(chat_id, outcome, config, now),
        EventView::Delivery(outcome) => delivery_action(outcome),
    }
}

/// Whether the decision on an event depends on the instant at which it is
/// taken.
pub open spec fn reads_clock(event: EventView) -> bool {
    event matches EventView::Arrivals { outcome: FetchOutcomeView::Fetched(_), .. }
}

/// Sorts an update by its shape.
pub fn parse_update(update: TelegramUpdate) -> (parsed: Result<InboundUpdate, HandlerError>)
    ensures
        match parsed {
            Ok(inbound) => classify(update@) == Ok::<InboundUpdateView, HandlerErrorView>(inbound@),
            Err(error) => classify(update@) == Err::<InboundUpdateView, HandlerErrorView>(error@),
        },
{
    match update.callback_query {
        Some(query) => Ok(
            InboundUpdate::CallbackQuery { data: query.data, chat_id: query.message.chat.id },
        ),
        None => match update.message {
            Some(message) => Ok(
                InboundUpdate::Message { chat_id: message.chat.id, text: message.text },
            ),
            None => Err(HandlerError::MalformedPayload),
        },
    }
}

/// The chat that an update comes from: that of the button press where there
/// is one, else that of the message.
pub fn extract_chat_id(update: &TelegramUpdate) -> (chat_id: Result<i64, HandlerError>)
    ensures
        match chat_id {
            Ok(id) => classify(update@) is Ok && id as int == inbound_chat_id(
                classify(update@)->Ok_0,
            ),
            Err(error) => update@.callback_query is None && update@.message is None
                && error@ == HandlerErrorView::MissingChatId,
        },
{
    match &update.callback_query {
        Some(query) => Ok(query.message.chat.id),
        None => match &update.message {
            Some(message) => Ok(message.chat.id),
            None => Err(HandlerError::MissingChatId),
        },
    }
}

/// Lets the configured chat through and no other.
pub fn authorize(chat_id: i64, allowed_chat_id: &str) -> (verdict: Result<(), HandlerError>)
    ensures
        verdict is Ok <==> is_authorized(chat_id as int, allowed_chat_id@),
        verdict is Err ==> verdict->Err_0@ == (HandlerErrorView::Unauthorized {
            chat_id: chat_id as int,
        }),
{
    let written = decimal_i64(chat_id);
    let allowed = String::from_str(allowed_chat_id);
    if written == allowed {
        Ok(())
    } else {
        Err(HandlerError::Unauthorized { chat_id })
    }
}

/// Builds the reply to a chat.
pub fn reply(chat_id: i64, text: &str, config: &Config) -> (action: Action)
    ensures
        action@ == reply_action(chat_id as int, text@, config@),
{
    Action::SendMessage {
        url: TelegramMessageMethod::SendMessage.url(config.telegram_api_key.as_str()),
        message: get_telegram_message_with_request_button(chat_id, text),
    }
}

/// Decides what an authorized update asks for.
pub fn dispatch(update: InboundUpdate, config: &Config) -> (action: Action)
    ensures
        action@ == dispatch_action(update@, config@),
{
    match update {
        InboundUpdate::CallbackQuery { data, chat_id } => {
            if data == String::from_str("request_timings") {
                let mut url = String::from_str(
                    "http://datamall2.mytransport.sg/ltaodataservice/BusArrivalv2?BusStopCode=",
                );
                url.append(config.bus_stop_code.as_str());
                Action::FetchArrivals { chat_id, url, account_key: config.lta_api_key.clone() }
            } else {
                Action::Fail(HandlerError::InvalidCallback { data })
            }
        },
        InboundUpdate::Message { chat_id, text } => {
            match text {
                Some(command) => {
                    if command == String::from_str("/start") {
                        reply(
                            chat_id,
                            "Welcome to the Bus Arrival Bot! Click the button below to request bus timings:",
                            config,
                        )
                    } else {
                        Action::Fail(HandlerError::InvalidCommand { text: Some(command) })
                    }
                },
                None => Action::Fail(HandlerError::InvalidCommand { text: None }),
            }
        },
    }
}

/// Decides on an incoming update.
pub fn handle_update(update: TelegramUpdate, config: &Config) -> (action: Action)
    ensures
        action@ == update_action(update@, config@),
{
    let sender = extract_chat_id(&update);
    match parse_update(update) {
        Err(error) => Action::Fail(error),
        Ok(inbound) => match sender {
            Err(error) => Action::Fail(error),
            Ok(chat_id) => match authorize(chat_id, config.allowed_chat_id.as_str()) {
                Ok(_) => dispatch(inbound, config),
                Err(error) => Action::Fail(error),
            },
        },
    }
}

/// Decides on the outcome of the arrival call, seen at the instant `now`.
pub fn handle_arrivals_at(
    chat_id: i64,
    outcome: FetchOutcome,
    config: &Config,
    now: i64,
) -> (action: Action)
    ensures
        action@ == arrivals_action(chat_id as int, outcome@, config@, now as int),
{
    match outcome {
        FetchOutcome::Fetched(services) => {
            let timings = summarize_services_at(&services, now);
            let text = format_bus_timings_message(timings);
            reply(chat_id, text.as_str(), config)
        },
        FetchOutcome::Unreachable => Action::Fail(HandlerError::UpstreamUnreachable),
        FetchOutcome::BadResponse => Action::Fail(HandlerError::UpstreamBadResponse),
    }
}

/// Decides on the outcome of the send call.
pub fn handle_delivery(outcome: SendOutcome) -> (action: Action)
    ensures
        action@ == delivery_action(outcome),
{
    match outcome {
        SendOutcome::Sent => Action::Respond { body: String::from_str("OK") },
        SendOutcome::TransportFailed => Action::Fail(HandlerError::DeliveryFailed),
    }
}

/// Decides on any event, seen at the instant `now`.
pub fn handle_request_at(event: Event, config: &Config, now: i64) -> (action: Action)
    ensures
        action@ == next_action(event@, config@, now as int),
{
    match event {
        Event::Update(update) => handle_update(update, config),
        Event::UnreadableUpdate => Action::Fail(HandlerError::MalformedPayload),
        Event::Arrivals { chat_id, outcome } => handle_arrivals_at(chat_id, outcome, config, now),
        Event::Delivery(outcome) => handle_delivery(outcome),
    }
}

/// Decides on any event. The clock is read where fetched arrivals are to be
/// reported, and only there; every other decision is the same at any instant.
pub fn handle_request(event: Event, config: &Config) -> (action: Action)
    ensures
        exists|now: i64| action@ == #[trigger] next_action(event@, config@, now as int),
        !reads_clock(event@) ==> forall|now: int|
            action@ == #[trigger] next_action(event@, config@, now),
{
    let fetched = match &event {
        Event::Arrivals { outcome: FetchOutcome::Fetched(_), .. } => true,
        _ => false,
    };
    let now: i64 = if fetched {
        current_timestamp()
    } else {
        0
    };
    handle_request_at(event, config, now)
}

/// The actions of one whole request, in order: the decision on the update,
/// then, as long as the last action asks for a call, the decision on that
/// call's outcome.
pub open spec fn request_actions(
    update: TelegramUpdateView,
    fetch: FetchOutcomeView,
    delivery: SendOutcome,
    config: ConfigView,
    now: int,
) -> Seq<ActionView> {
    let first = next_action(EventView::Update(update), config, now);
    match first {
        ActionView::FetchArrivals { chat_id, .. } => {
            let second = next_action(EventView::Arrivals { chat_id, outcome: fetch }, config, now);
            if second is SendMessage {
                seq![first, second, next_action(EventView::Delivery(delivery), config, now)]
            } else {
                seq![first, second]
            }
        },
        ActionView::SendMessage { .. } => seq![
            first,
            next_action(EventView::Delivery(delivery), config, now),
        ],
        _ => seq![first],
    }
}

/// Whether no action of a list asks for the arrivals.
pub open spec fn fetches_nothing(actions: Seq<ActionView>) -> bool {
    forall|i: int| 0 <= i < actions.len() ==> !(#[trigger] actions[i] is FetchArrivals)
}

/// Whether no action of a list sends a message.
pub open spec fn sends_nothing(actions: Seq<ActionView>) -> bool {
    forall|i: int| 0 <= i < actions.len() ==> !(#[trigger] actions[i] is SendMessage)
}

/// Whether the action at `at` is the only one of a list that asks for the
/// arrivals.
pub open spec fn fetches_once_at(actions: Seq<ActionView>, at: int) -> bool {
    &&& 0 <= at < actions.len()
    &&& forall|i: int| 0 <= i < actions.len() ==> (#[trigger] actions[i] is FetchArrivals <==> i == at)
}

/// Whether the action at `at` is the only one of a list that sends a message.
pub open spec fn sends_once_at(actions: Seq<ActionView>, at: int) -> bool {
    &&& 0 <= at < actions.len()
    &&& forall|i: int| 0 <= i < actions.len() ==> (#[trigger] actions[i] is SendMessage <==> i == at)
}

/// Whether an action asks the caller for a call and waits for its outcome.
pub open spec fn asks_for_a_call(action: ActionView) -> bool {
    action is FetchArrivals || action is SendMessage
}

/// Whatever the update and the outcomes of the calls, a request ends, with an
/// answer or a failure, after at most three decisions; every decision before
/// the last asks for a call; the arrivals are asked for at most once, a
/// message is sent at most once, and a message is never sent before the
/// arrivals are asked for.
pub proof fn law_request_ends(
    update: TelegramUpdateView,
    fetch: FetchOutcomeView,
    delivery: SendOutcome,
    config: ConfigView,
    now: int,
)
    ensures
        1 <= request_actions(update, fetch, delivery, config, now).len() <= 3,
        !asks_for_a_call(request_actions(update, fetch, delivery, config, now).last()),
        forall|i: int|
            0 <= i < request_actions(update, fetch, delivery, config, now).len() - 1
                ==> asks_for_a_call(
                #[trigger] request_actions(update, fetch, delivery, config, now)[i],
            ),
        forall|i: int, j: int|
            0 <= i < j < request_actions(update, fetch, delivery, config, now).len() ==> {
                &&& !(request_actions(update, fetch, delivery, config, now)[j] is FetchArrivals)
                &&& !(request_actions(update, fetch, delivery, config, now)[i] is SendMessage
                    && request_actions(update, fetch, delivery, config, now)[j] is SendMessage)
            },
{
}

/// Every message that the handler sends, whatever the event, is read as
/// strict markdown and carries the request button alone in a single row.
pub proof fn law_every_message_carries_the_button(event: EventView, config: ConfigView, now: int)
    ensures
        match next_action(event, config, now) {
            ActionView::SendMessage { message, .. } => {
                &&& message.reply_markup == Some(seq![seq![request_button()]])
                &&& message.parse_mode == TelegramMessageParseMode::MarkdownV2
            },
            _ => true,
        },
{
}

/// The start command from the configured chat is answered with one message,
/// the welcome with the request button, and the arrivals are not asked for.
pub proof fn law_start_is_welcomed(
    update: TelegramUpdateView,
    chat_id: int,
    fetch: FetchOutcomeView,
    delivery: SendOutcome,
    config: ConfigView,
    now: int,
)
    requires
        classify(update) == Ok::<InboundUpdateView, HandlerErrorView>(
            InboundUpdateView::Message { chat_id, text: Some(start_command()) },
        ),
        is_authorized(chat_id, config.allowed_chat_id),
    ensures
        request_actions(update, fetch, delivery, config, now) == seq![
            reply_action(chat_id, welcome_text(), config),
            delivery_action(delivery),
        ],
        sends_once_at(request_actions(update, fetch, delivery, config, now), 0),
        fetches_nothing(request_actions(update, fetch, delivery, config, now)),
{
}

/// A press of the request button from the configured chat asks for the
/// arrivals of the configured stop once, first of all. Where they are fetched,
/// exactly one message follows: the report on the fetched services, one
/// summary for each, in their order. Where they are not, nothing is sent.
pub proof fn law_request_is_reported(
    update: TelegramUpdateView,
    chat_id: int,
    fetch: FetchOutcomeView,
    delivery: SendOutcome,
    config: ConfigView,
    now: int,
)
    requires
        classify(update) == Ok::<InboundUpdateView, HandlerErrorView>(
            InboundUpdateView::CallbackQuery { data: request_token(), chat_id },
        ),
        is_authorized(chat_id, config.allowed_chat_id),
    ensures
        fetches_once_at(request_actions(update, fetch, delivery, config, now), 0),
        request_actions(update, fetch, delivery, config, now)[0] == (ActionView::FetchArrivals {
            chat_id,
            url: arrivals_url(config.bus_stop_code),
            account_key: config.lta_api_key,
        }),
        match fetch {
            FetchOutcomeView::Fetched(services) => {
                &&& request_actions(update, fetch, delivery, config, now).len() == 3
                &&& sends_once_at(request_actions(update, fetch, delivery, config, now), 1)
                &&& request_actions(update, fetch, delivery, config, now)[1] == reply_action(
                    chat_id,
                    bus_timings_text(services_summary(services, now)),
                    config,
                )
                &&& request_actions(update, fetch, delivery, config, now)[2] == delivery_action(
                    delivery,
                )
                &&& services_summary(services, now).len() == services.len()
                &&& forall|i: int|
                    0 <= i < services.len() ==> (#[trigger] services_summary(
                        services,
                        now,
                    )[i]).service_no == services[i].service_no
            },
            _ => {
                &&& request_actions(update, fetch, delivery, config, now).len() == 2
                &&& sends_nothing(request_actions(update, fetch, delivery, config, now))
                &&& request_actions(update, fetch, delivery, config, now)[1] is Fail
            },
        },
{
}

/// An update of an accepted shape from any chat but the configured one is
/// given up as unauthorized, and nothing is sent or asked for.
pub proof fn law_other_chats_get_nothing(
    update: TelegramUpdateView,
    fetch: FetchOutcomeView,
    delivery: SendOutcome,
    config: ConfigView,
    now: int,
)
    requires
        classify(update) is Ok,
        !is_authorized(inbound_chat_id(classify(update)->Ok_0), config.allowed_chat_id),
    ensures
        request_actions(update, fetch, delivery, config, now) == seq![
            ActionView::Fail(
                HandlerErrorView::Unauthorized {
                    chat_id: inbound_chat_id(classify(update)->Ok_0),
                },
            ),
        ],
        sends_nothing(request_actions(update, fetch, delivery, config, now)),
        fetches_nothing(request_actions(update, fetch, delivery, config, now)),
{
}

/// An update that is neither a message nor a button press is given up as
/// malformed, and nothing is sent or asked for.
pub proof fn law_shapeless_update_is_malformed(
    update: TelegramUpdateView,
    fetch: FetchOutcomeView,
    delivery: SendOutcome,
    config: ConfigView,
    now: int,
)
    requires
        update.message is None,
        update.callback_query is None,
    ensures
        request_actions(update, fetch, delivery, config, now) == seq![
            ActionView::Fail(HandlerErrorView::MalformedPayload),
        ],
        sends_nothing(request_actions(update, fetch, delivery, config, now)),
        fetches_nothing(request_actions(update, fetch, delivery, config, now)),
{
}

/// A button press from the configured chat with any token but the request
/// button's is given up as an invalid callback that names the token, and
/// nothing is sent or asked for.
pub proof fn law_unknown_token_is_refused(
    update: TelegramUpdateView,
    chat_id: int,
    data: Seq<char>,
    fetch: FetchOutcomeView,
    delivery: SendOutcome,
    config: ConfigView,
    now: int,
)
    requires
        classify(update) == Ok::<InboundUpdateView, HandlerErrorView>(
            InboundUpdateView::CallbackQuery { data, chat_id },
        ),
        is_authorized(chat_id, config.allowed_chat_id),
        data != request_token(),
    ensures
        request_actions(update, fetch, delivery, config, now) == seq![
            ActionView::Fail(HandlerErrorView::InvalidCallback { data }),
        ],
        sends_nothing(request_actions(update, fetch, delivery, config, now)),
        fetches_nothing(request_actions(update, fetch, delivery, config, now)),
{
}

} // verus!
