use bus_arrival_bot::telegram::{
    get_telegram_message_with_request_button, TelegramMessageMethod, TelegramMessageParseMode,
};

#[test]
fn message_carries_the_request_button() {
    let message = get_telegram_message_with_request_button(42, "hello");
    assert_eq!(message.chat_id, 42);
    assert_eq!(message.text, "hello");
    assert_eq!(message.parse_mode, TelegramMessageParseMode::MarkdownV2);
    let markup = message.reply_markup.unwrap();
    assert_eq!(markup.inline_keyboard.len(), 1);
    assert_eq!(markup.inline_keyboard[0].len(), 1);
    assert_eq!(markup.inline_keyboard[0][0].text, "Request Bus Timings");
    assert_eq!(markup.inline_keyboard[0][0].callback_data, "request_timings");
}

#[test]
fn message_keeps_chat_and_text() {
    let message = get_telegram_message_with_request_button(-1_001_234, "");
    assert_eq!(message.chat_id, -1_001_234);
    assert_eq!(message.text, "");
    assert!(message.reply_markup.is_some());
}

#[test]
fn send_method_is_named_in_camel_case() {
    assert_eq!(TelegramMessageMethod::SendMessage.name(), "sendMessage");
}

#[test]
fn send_method_address_holds_the_key() {
    assert_eq!(
        TelegramMessageMethod::SendMessage.url("123:abc"),
        "https://api.telegram.org/bot123:abc/sendMessage"
    );
    assert_eq!(
        TelegramMessageMethod::SendMessage.url(""),
        "https://api.telegram.org/bot/sendMessage"
    );
}
