use messaging::messages::{reply, ReplyError, ReplyRequest};

#[test]
fn reply_hello_gives_world() {
    assert_eq!(reply("hello").unwrap(), "world");
}

#[test]
fn reply_ping_gives_pong() {
    assert_eq!(reply("ping").unwrap(), "pong");
}

#[test]
fn reply_unknown_message_is_rejected() {
    let err = reply("bogus").unwrap_err();
    match err {
        ReplyError::UnknownMessage(m) => assert_eq!(m, "bogus"),
    }
}

#[test]
fn reply_error_message_names_the_message() {
    let err = reply("what").unwrap_err();
    assert_eq!(err.message(), "Unknown message \"what\"");
}

#[test]
fn reply_request_carries_its_message() {
    let request = ReplyRequest { message: "hello".to_string() };
    assert_eq!(reply(&request.message).unwrap(), "world");
}
