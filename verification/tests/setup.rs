use zuse::config::{
    ZuseArgs, ZuseConfig, ZuseConfigNotifier, ZuseConfigNotifierAuth, ZuseConfigNotifierChannel,
    ZuseConfigNotifierType,
};
use zuse::error::SetupError;
use zuse::setup::{
    opening, takes_messages, Setup, SetupAction, SetupStage, SnsCredentials, ZuseChannelType,
    ZuseNotifyType,
};

fn text(value: &str) -> Option<String> {
    Some(value.to_string())
}

fn channel(name: &str) -> ZuseConfigNotifierChannel {
    ZuseConfigNotifierChannel {
        name: name.to_string(),
        id: None,
        phone: None,
        target_arn: None,
        topic_arn: None,
    }
}

fn chat(name: &str, id: &str) -> ZuseConfigNotifierChannel {
    ZuseConfigNotifierChannel { id: text(id), ..channel(name) }
}

fn phone(name: &str, number: &str) -> ZuseConfigNotifierChannel {
    ZuseConfigNotifierChannel { phone: text(number), ..channel(name) }
}

fn topic(name: &str, arn: &str) -> ZuseConfigNotifierChannel {
    ZuseConfigNotifierChannel { topic_arn: text(arn), ..channel(name) }
}

fn telegram(token: Option<&str>, channels: Vec<ZuseConfigNotifierChannel>) -> ZuseConfigNotifier {
    ZuseConfigNotifier {
        notifier_type: ZuseConfigNotifierType::Telegram,
        sender_id: None,
        auth: ZuseConfigNotifierAuth {
            token: token.map(|token| token.to_string()),
            key: None,
            secret: None,
            region: None,
        },
        templates: None,
        channels,
    }
}

fn sns(region: Option<&str>, channels: Vec<ZuseConfigNotifierChannel>) -> ZuseConfigNotifier {
    ZuseConfigNotifier {
        notifier_type: ZuseConfigNotifierType::Sns,
        sender_id: None,
        auth: ZuseConfigNotifierAuth {
            token: None,
            key: text("key"),
            secret: text("secret"),
            region: region.map(|region| region.to_string()),
        },
        templates: None,
        channels,
    }
}

fn begin(notifiers: Vec<ZuseConfigNotifier>, environment: &[&str]) -> (Setup, SetupAction) {
    let config =
        ZuseConfig { config: None, defaults: None, notifiers, notify_groups: None, tests: vec![] };
    let names: Vec<String> = environment.iter().map(|name| name.to_string()).collect();
    Setup::new(ZuseArgs::new(false, false, config), &names)
}

fn failure(action: SetupAction) -> SetupError {
    match action {
        SetupAction::Fail(error) => error,
        other => panic!("{:?}", other),
    }
}

#[test]
fn nothing_is_asked_where_there_are_no_notifiers() {
    let (setup, action) = begin(vec![], &[]);
    assert!(matches!(action, SetupAction::Done));
    assert_eq!(setup.stage, SetupStage::Ready);
}

#[test]
fn telegram_is_asked_for_the_token_and_for_each_chat() {
    let (mut setup, action) =
        begin(vec![telegram(Some("tok"), vec![chat("a", "-1000000000000"), chat("b", "+5")])], &[]);
    assert!(matches!(action, SetupAction::VerifyToken { notifier_id: 0, token } if token == "tok"));
    let action = setup.advance(true);
    assert!(matches!(
        action,
        SetupAction::VerifyChat { notifier_id: 0, channel_id: 0, chat_id: -1000000000000 }
    ));
    assert!(setup.channels.get("a").is_none());
    let action = setup.advance(true);
    assert!(matches!(action, SetupAction::VerifyChat { channel_id: 1, chat_id: 5, .. }));
    assert!(setup.channels.get("a").is_some());
    assert!(matches!(setup.advance(true), SetupAction::Done));
    assert_eq!(setup.stage, SetupStage::Ready);
    assert_eq!(setup.notifiers, vec![ZuseNotifyType::Telegram]);
    assert!(matches!(
        setup.channels.get("b"),
        Some((0, ZuseChannelType::Telegram(id))) if id == "+5"
    ));
}

#[test]
fn sns_is_asked_for_the_identity_and_for_each_phone() {
    let notifiers = vec![
        telegram(Some("tok"), vec![]),
        sns(Some("us-east-1"), vec![topic("t", "arn:t"), phone("p", "+49"), topic("u", "arn:u")]),
    ];
    let (mut setup, action) = begin(notifiers, &[]);
    match action {
        SetupAction::VerifyIdentity {
            notifier_id: 1,
            region,
            credentials: SnsCredentials::Static { key, secret },
        } => assert_eq!((region.as_str(), key.as_str(), secret.as_str()), ("us-east-1", "key", "secret")),
        other => panic!("{:?}", other),
    }
    let action = setup.advance(true);
    assert!(matches!(
        action,
        SetupAction::VerifyPhone { notifier_id: 1, channel_id: 1, phone } if phone == "+49"
    ));
    assert!(matches!(setup.advance(true), SetupAction::Done));
    assert_eq!(setup.notifiers, vec![ZuseNotifyType::Sns]);
    assert!(matches!(
        setup.channels.get("u"),
        Some((1, ZuseChannelType::Sns(None, None, Some(arn)))) if arn == "arn:u"
    ));
    assert!(matches!(
        setup.channels.get("p"),
        Some((1, ZuseChannelType::Sns(Some(number), None, None))) if number == "+49"
    ));
}

#[test]
fn the_last_channel_with_a_name_stays() {
    let notifiers = vec![
        telegram(Some("one"), vec![chat("x", "1"), chat("x", "2")]),
        telegram(Some("two"), vec![chat("x", "3")]),
    ];
    let (mut setup, mut action) = begin(notifiers, &[]);
    while !matches!(action, SetupAction::Done) {
        action = setup.advance(true);
    }
    assert_eq!(setup.channels.len(), 1);
    assert!(matches!(
        setup.channels.get("x"),
        Some((1, ZuseChannelType::Telegram(id))) if id == "3"
    ));
    assert_eq!(setup.notifiers, vec![ZuseNotifyType::Telegram, ZuseNotifyType::Telegram]);
}

#[test]
fn a_set_up_asks_once_for_each_notifier_and_each_channel() {
    let notifiers = vec![
        telegram(Some("one"), vec![chat("a", "1"), chat("b", "2")]),
        sns(Some("eu-west-1"), vec![phone("c", "+1"), phone("d", "+2"), phone("e", "+3")]),
    ];
    let (mut setup, mut action) = begin(notifiers, &[]);
    let mut questions = 0;
    while !matches!(action, SetupAction::Done) {
        questions += 1;
        action = setup.advance(true);
    }
    assert_eq!(questions, 7);
}

#[test]
fn a_token_has_to_be_there() {
    let (setup, action) = begin(vec![telegram(None, vec![chat("a", "1")])], &[]);
    assert!(matches!(failure(action), SetupError::MissingToken { notifier_id: 0, .. }));
    assert_eq!(setup.stage, SetupStage::Failed);
}

#[test]
fn a_notifier_without_channels_needs_nothing() {
    let (_, action) = begin(vec![telegram(None, vec![]), sns(None, vec![])], &[]);
    assert!(matches!(action, SetupAction::Done));
}

#[test]
fn a_token_has_to_be_taken() {
    let (mut setup, _) = begin(vec![telegram(Some("tok"), vec![chat("a", "1")])], &[]);
    let error = failure(setup.advance(false));
    assert!(matches!(error, SetupError::InvalidToken { notifier_id: 0, token, .. } if token == "tok"));
    assert_eq!(setup.stage, SetupStage::Failed);
}

#[test]
fn a_chat_has_to_have_an_id() {
    let (mut setup, _) = begin(vec![telegram(Some("tok"), vec![channel("a")])], &[]);
    let error = failure(setup.advance(true));
    assert!(matches!(error, SetupError::MissingChannelId { channel } if channel == "a"));
}

#[test]
fn the_id_of_a_chat_has_to_be_a_number() {
    for id in ["", "-", "+", "1 ", " 1", "1_0", "one", "0x1", "1.0", "9223372036854775808", "٣"] {
        let (mut setup, _) = begin(vec![telegram(Some("tok"), vec![chat("a", id)])], &[]);
        let error = failure(setup.advance(true));
        assert!(
            matches!(&error, SetupError::MalformedChannelId { channel, id: shown } if channel == "a" && shown == id),
            "{:?}",
            error,
        );
    }
    for (id, number) in [
        ("0", 0),
        ("-0", 0),
        ("007", 7),
        ("9223372036854775807", i64::MAX),
        ("-9223372036854775808", i64::MIN),
    ] {
        let (mut setup, _) = begin(vec![telegram(Some("tok"), vec![chat("a", id)])], &[]);
        let action = setup.advance(true);
        assert!(matches!(action, SetupAction::VerifyChat { chat_id, .. } if chat_id == number));
    }
}

#[test]
fn a_chat_has_to_be_found() {
    let (mut setup, _) = begin(vec![telegram(Some("tok"), vec![chat("a", "1")])], &[]);
    setup.advance(true);
    let error = failure(setup.advance(false));
    assert!(matches!(error, SetupError::UnknownChat { channel, id } if channel == "a" && id == "1"));
}

#[test]
fn a_region_has_to_be_there_and_exist() {
    let (_, action) = begin(vec![sns(None, vec![topic("a", "arn")])], &[]);
    assert!(matches!(failure(action), SetupError::MissingRegion { notifier_id: 0, .. }));
    let (_, action) = begin(vec![sns(Some("mars-1"), vec![topic("a", "arn")])], &[]);
    assert!(matches!(failure(action), SetupError::UnknownRegion { region } if region == "mars-1"));
    for region in ["us-east-1", "EU-WEST-1", "eucentral1"] {
        let (_, action) = begin(vec![sns(Some(region), vec![topic("a", "arn")])], &[]);
        assert!(matches!(action, SetupAction::VerifyIdentity { .. }));
    }
}

#[test]
fn credentials_come_from_the_environment_where_there_are_none() {
    let mut notifier = sns(Some("us-east-1"), vec![topic("a", "arn")]);
    notifier.auth.secret = None;
    let both = ["HOME", "AWS_SECRET_ACCESS_KEY", "AWS_ACCESS_KEY_ID"];
    let (_, action) = begin(vec![notifier.clone()], &both);
    assert!(matches!(
        action,
        SetupAction::VerifyIdentity { credentials: SnsCredentials::Environment, .. }
    ));
    for names in [&both[..2], &["AWS_ACCESS_KEY_ID"][..], &[][..]] {
        let (_, action) = begin(vec![notifier.clone()], names);
        assert!(matches!(failure(action), SetupError::MissingCredentials { notifier_id: 0, .. }));
    }
}

#[test]
fn credentials_have_to_be_taken() {
    let (mut setup, _) = begin(vec![sns(Some("us-east-1"), vec![topic("a", "arn")])], &[]);
    let error = failure(setup.advance(false));
    assert!(matches!(error, SetupError::RefusedCredentials { notifier_id: 0, .. }));
}

#[test]
fn a_phone_can_opt_out() {
    assert!(takes_messages(None));
    assert!(takes_messages(Some(false)));
    assert!(!takes_messages(Some(true)));
    let (mut setup, _) = begin(vec![sns(Some("us-east-1"), vec![phone("p", "+49")])], &[]);
    setup.advance(true);
    let error = failure(setup.advance(takes_messages(Some(true))));
    match error {
        SetupError::OptedOut { notifier_id: 0, channel, phone, .. } => {
            assert_eq!((channel.as_str(), phone.as_str()), ("p", "+49"))
        }
        other => panic!("{:?}", other),
    }
}

#[test]
fn an_sns_channel_has_exactly_one_target() {
    let (mut setup, _) = begin(vec![sns(Some("us-east-1"), vec![channel("none")])], &[]);
    let error = failure(setup.advance(true));
    assert!(matches!(error, SetupError::AmbiguousTarget { channel, .. } if channel == "none"));

    let two = ZuseConfigNotifierChannel { target_arn: text("t"), ..topic("two", "arn") };
    let (mut setup, _) = begin(vec![sns(Some("us-east-1"), vec![two])], &[]);
    assert!(matches!(failure(setup.advance(true)), SetupError::AmbiguousTarget { .. }));

    let also_phone = ZuseConfigNotifierChannel { topic_arn: text("t"), ..phone("p", "+1") };
    let (mut setup, _) = begin(vec![sns(Some("us-east-1"), vec![also_phone])], &[]);
    assert!(matches!(setup.advance(true), SetupAction::VerifyPhone { .. }));
    assert!(matches!(failure(setup.advance(true)), SetupError::AmbiguousTarget { .. }));
}

#[test]
fn the_opening_follows_from_what_is_known() {
    let mut notifier = sns(Some("anywhere"), vec![]);
    assert!(matches!(opening(3, &notifier, true, false), SetupAction::VerifyIdentity { notifier_id: 3, .. }));
    assert!(matches!(
        failure(opening(3, &notifier, false, false)),
        SetupError::UnknownRegion { .. }
    ));
    notifier.auth.key = None;
    assert!(matches!(
        failure(opening(3, &notifier, true, false)),
        SetupError::MissingCredentials { notifier_id: 3, .. }
    ));
    let notifier = telegram(Some("t"), vec![]);
    assert!(matches!(opening(4, &notifier, false, false), SetupAction::VerifyToken { notifier_id: 4, .. }));
}
