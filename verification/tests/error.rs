use zuse::config::{ZuseConfigNotifierType, ZuseConfigTestType};
use zuse::error::{Setting, SetupError};
use zuse::text::decimal;

fn s(text: &str) -> String {
    text.to_string()
}

fn line(error: SetupError) -> String {
    error.message().unwrap()
}

#[test]
fn numbers_are_shown_in_decimal() {
    for number in [0usize, 7, 9, 10, 11, 99, 100, 1234567890, usize::MAX] {
        assert_eq!(decimal(number), number.to_string());
    }
}

#[test]
fn lines_about_telegram() {
    let notifier_type = ZuseConfigNotifierType::Telegram;
    assert_eq!(
        line(SetupError::MissingToken { notifier_id: 12, notifier_type }),
        "Error: notifier 12 (Telegram) must specify a token.",
    );
    assert_eq!(
        line(SetupError::InvalidToken { notifier_id: 0, notifier_type, token: s("tok") }),
        "Error: notifier 0 (Telegram) has invalid telegram token. (token: tok)",
    );
    assert_eq!(
        line(SetupError::MissingChannelId { channel: s("a \"b\"") }),
        "Error: channel \"a \\\"b\\\"\" must specify an id.",
    );
    assert_eq!(
        line(SetupError::UnknownChat { channel: s("a"), id: s("-5") }),
        "Error: channel \"a\" could not be validated. (cid: -5)",
    );
}

#[test]
fn lines_about_sns() {
    let notifier_type = ZuseConfigNotifierType::Sns;
    assert_eq!(
        line(SetupError::MissingRegion { notifier_id: 1, notifier_type }),
        "Error: notifier 1 (Sns) must specify region.",
    );
    assert_eq!(
        line(SetupError::MissingCredentials { notifier_id: 1, notifier_type }),
        "Error: notifier 1 (Sns) has no key and secret set, defaulting to env creds.\n\
         Error: notifier 1 (Sns) requires env (AWS_ACCESS_KEY_ID and AWS_SECRET_ACCESS_KEY) to be set.",
    );
    assert_eq!(
        line(SetupError::RefusedCredentials { notifier_id: 1, notifier_type }),
        "Error: notifier 1 (Sns) could not validate AWS credentials.",
    );
    assert_eq!(
        line(SetupError::OptedOut { notifier_id: 1, notifier_type, channel: s("p"), phone: s("+49") }),
        "Error: notifier 1 (Sns) channel \"p\": \"+49\" has explicitly opted out from receing SMS via SNS.",
    );
    assert_eq!(
        line(SetupError::AmbiguousTarget { notifier_id: 1, notifier_type, channel: s("p\n") }),
        "Error: notifier 1 (Sns) channel \"p\\n\" must specify at least and at most one of phone, target_arn or topic_arn.",
    );
}

#[test]
fn lines_about_references() {
    let test_type = ZuseConfigTestType::TcpOk;
    assert_eq!(
        line(SetupError::GroupWithUnknownChannel { group: s("g"), channel: s("c") }),
        "Error: notify group 'g' references inexistent channel: c",
    );
    assert_eq!(
        line(SetupError::TestWithUnknownChannel { test: s("t"), test_type, channel: s("c") }),
        "Error: 't' (type: TcpOk) references inexistent channel: c",
    );
    assert_eq!(
        line(SetupError::TestWithUnknownGroup { test: s("t"), test_type, group: s("g") }),
        "Error: 't' (type: TcpOk) references inexistent notify group: g",
    );
}

#[test]
fn lines_about_targets() {
    let test_type = ZuseConfigTestType::HttpMatch;
    assert_eq!(
        line(SetupError::InvalidUrl { test: s("t"), test_type: ZuseConfigTestType::HttpOk, target: s("x") }),
        "Error: 't' (type: HttpOk) requires a valid URL as target. Got: x",
    );
    assert_eq!(
        line(SetupError::InvalidAddress { test: s("t"), test_type: ZuseConfigTestType::TcpOk, target: s("x") }),
        "Error: 't' (type: TcpOk) requires an IPv4 (RFC791) or IPv6 (RFC4291) and 16 bit port tuple as target. Got: x",
    );
    assert_eq!(
        line(SetupError::MissingExpectations { test: s("t"), test_type }),
        "Error: 't' (type: HttpMatch) requires expectations.",
    );
    assert_eq!(
        line(SetupError::EmptyExpectations { test: s("t"), test_type }),
        "Error: 't' (type: HttpMatch) either status or text expectations.",
    );
    assert_eq!(
        line(SetupError::InvalidStatus { test: s("t"), test_type, status: 99 }),
        "Error: 't' (type: HttpMatch) has expects invalid status. Got: 99",
    );
}

#[test]
fn lines_about_settings() {
    for (setting, name) in [
        (Setting::Retries, "retries"),
        (Setting::Recovery, "recovery"),
        (Setting::Interval, "interval"),
    ] {
        let test_type = ZuseConfigTestType::HttpOk;
        assert_eq!(
            line(SetupError::MissingSetting { test: s("t"), test_type, setting }),
            format!("Error: 't' (type: HttpOk) lacks '{}', but no default was set.", name),
        );
    }
}

#[test]
fn a_region_that_does_not_exist_has_no_line() {
    assert_eq!(SetupError::UnknownRegion { region: s("r") }.message(), None);
}

#[test]
fn the_line_about_an_id_that_is_no_number() {
    assert_eq!(
        line(SetupError::MalformedChannelId { channel: s("c\"d"), id: s("i") }),
        "Error: channel \"c\\\"d\" must have valid i64 id. (cid: i)",
    );
}

#[test]
fn names_are_shown_as_given() {
    let error = SetupError::MissingChannelId { channel: s("c") };
    assert_eq!(error.message_with("<c>", ""), Some(s("Error: channel <c> must specify an id.")));
}
