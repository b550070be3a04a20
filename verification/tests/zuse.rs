use zuse::config::{
    ZuseArgs, ZuseConfig, ZuseConfigDefaults, ZuseConfigNotifier, ZuseConfigNotifierAuth,
    ZuseConfigNotifierChannel, ZuseConfigNotifierType, ZuseConfigNotifyGroups, ZuseConfigTest,
    ZuseConfigTestExpecations, ZuseConfigTestType,
};
use zuse::error::{Setting, SetupError};
use zuse::job::JobSMStates;
use zuse::message::{TemplateError, ZuseJobMessage};
use zuse::setup::{Setup, SetupAction, ZuseChannelType, ZuseNotifyType};
use zuse::validate::{check_target, check_type};
use zuse::zuse::{deliver, Delivery, SendError, Zuse};

fn channel(name: &str, id: Option<&str>, topic: Option<&str>) -> ZuseConfigNotifierChannel {
    ZuseConfigNotifierChannel {
        name: name.to_string(),
        id: id.map(|id| id.to_string()),
        phone: None,
        target_arn: None,
        topic_arn: topic.map(|topic| topic.to_string()),
    }
}

fn notifier(
    notifier_type: ZuseConfigNotifierType,
    channels: Vec<ZuseConfigNotifierChannel>,
) -> ZuseConfigNotifier {
    ZuseConfigNotifier {
        notifier_type,
        sender_id: None,
        auth: ZuseConfigNotifierAuth {
            token: Some("token".to_string()),
            key: Some("key".to_string()),
            secret: Some("secret".to_string()),
            region: Some("us-east-1".to_string()),
        },
        templates: None,
        channels,
    }
}

fn telegram() -> ZuseConfigNotifier {
    notifier(
        ZuseConfigNotifierType::Telegram,
        vec![channel("a", Some("-11"), None), channel("b", Some("22"), None)],
    )
}

fn sns() -> ZuseConfigNotifier {
    notifier(ZuseConfigNotifierType::Sns, vec![channel("c", None, Some("arn:c"))])
}

fn test(test_type: ZuseConfigTestType, target: &str) -> ZuseConfigTest {
    ZuseConfigTest {
        test_type,
        name: "t".to_string(),
        target: target.to_string(),
        expect: None,
        notify: None,
        notify_groups: None,
        retries: Some(1),
        recovery: Some(2),
        interval: Some(3),
        timeout: Some(4),
    }
}

fn http() -> ZuseConfigTest {
    test(ZuseConfigTestType::HttpOk, "https://site.com/")
}

fn matching(text: Option<&str>, status: Option<u16>) -> ZuseConfigTest {
    let mut test = test(ZuseConfigTestType::HttpMatch, "https://site.com/");
    test.expect =
        Some(ZuseConfigTestExpecations { text: text.map(|text| text.to_string()), status });
    test
}

fn names(list: &[&str]) -> Vec<String> {
    list.iter().map(|name| name.to_string()).collect()
}

fn config(tests: Vec<ZuseConfigTest>) -> ZuseConfig {
    ZuseConfig {
        config: None,
        defaults: None,
        notifiers: vec![telegram(), sns()],
        notify_groups: Some(vec![
            ZuseConfigNotifyGroups { name: "all".to_string(), notify: names(&["c", "b", "a"]) },
            ZuseConfigNotifyGroups { name: "chats".to_string(), notify: names(&["a", "b"]) },
        ]),
        tests,
    }
}

fn start(config: ZuseConfig) -> Result<Zuse, SetupError> {
    let addresses: Vec<bool> = config
        .tests
        .iter()
        .map(|test| ["127.0.0.1:80", "[::1]:443", "1.2.3.4:5"].contains(&test.target.as_str()))
        .collect();
    let (mut setup, mut action) = Setup::new(ZuseArgs::new(true, false, config), &vec![]);
    while !matches!(action, SetupAction::Done) {
        action = setup.advance(true);
    }
    Zuse::new(setup, &addresses)
}

fn refused(config: ZuseConfig) -> SetupError {
    match start(config) {
        Err(error) => error,
        Ok(_) => panic!("accepted"),
    }
}

fn message(test_id: usize, state: JobSMStates) -> ZuseJobMessage {
    ZuseJobMessage {
        test_id,
        test_name: "site".to_string(),
        test_url: "u".to_string(),
        dump_html: String::new(),
        dump_url: String::new(),
        dump_used: false,
        time_state_lasted: 9,
        state,
    }
}

fn told(zuse: &Zuse, test_id: usize) -> String {
    zuse.handle_msg(&message(test_id, JobSMStates::Failure))
        .iter()
        .map(|channel| match &channel.1 {
            ZuseChannelType::Telegram(id) => format!("{}:{} ", channel.0, id),
            ZuseChannelType::Sns(_, _, topic) => format!("{}:{} ", channel.0, topic.as_ref().unwrap()),
        })
        .collect()
}

#[test]
fn a_good_configuration_is_taken() {
    let zuse = start(config(vec![
        http(),
        matching(Some("text"), Some(200)),
        test(ZuseConfigTestType::TcpOk, "127.0.0.1:80"),
        test(ZuseConfigTestType::TcpOk, "[::1]:443"),
    ]))
    .ok()
    .unwrap();
    assert_eq!(zuse.notifiers, vec![ZuseNotifyType::Telegram, ZuseNotifyType::Sns]);
    assert_eq!(zuse.channels.len(), 3);
    assert_eq!(zuse.notify_groups.len(), 2);
    assert_eq!(zuse.args.config.tests.len(), 4);
    assert_eq!(zuse.args.verbosity, 1);
}

#[test]
fn a_group_names_channels_that_are_there() {
    let mut config = config(vec![]);
    config.notify_groups.as_mut().unwrap()[1].notify = names(&["a", "x", "y"]);
    match refused(config) {
        SetupError::GroupWithUnknownChannel { group, channel } => {
            assert_eq!((group.as_str(), channel.as_str()), ("chats", "x"))
        }
        other => panic!("{:?}", other),
    }
}

#[test]
fn the_last_group_with_a_name_stays() {
    let mut config = config(vec![ZuseConfigTest {
        notify_groups: Some(names(&["all"])),
        ..http()
    }]);
    config.notify_groups.as_mut().unwrap()[1].name = "all".to_string();
    let zuse = start(config).ok().unwrap();
    assert_eq!(zuse.notify_groups.len(), 1);
    assert_eq!(told(&zuse, 0), "0:-11 0:22 ");
}

#[test]
fn a_test_names_channels_and_groups_that_are_there() {
    let bad_channel = ZuseConfigTest { notify: Some(names(&["a", "all"])), ..http() };
    assert!(matches!(
        refused(config(vec![http(), bad_channel])),
        SetupError::TestWithUnknownChannel { channel, .. } if channel == "all"
    ));
    let bad_group = ZuseConfigTest { notify_groups: Some(names(&["all", "a"])), ..http() };
    assert!(matches!(
        refused(config(vec![http(), bad_group])),
        SetupError::TestWithUnknownGroup { group, .. } if group == "a"
    ));
}

#[test]
fn a_target_of_http_is_a_url() {
    for test_type in [ZuseConfigTestType::HttpOk, ZuseConfigTestType::HttpMatch] {
        for target in ["", "site.com", "/path", "http://", "http://[::1", "127.0.0.1:80"] {
            let error = refused(config(vec![test(test_type, target)]));
            assert!(
                matches!(&error, SetupError::InvalidUrl { target: shown, .. } if shown == target),
                "{:?}",
                error,
            );
        }
    }
    assert!(check_type(&test(ZuseConfigTestType::HttpOk, "https://site.com/a?b#c"), false).is_none());
    assert!(check_type(&test(ZuseConfigTestType::HttpOk, "mailto:me"), false).is_none());
}

#[test]
fn a_target_of_tcp_is_an_address() {
    for target in ["", "localhost:80", "127.0.0.1", "127.0.0.1:65536", "https://site.com/"] {
        let error = refused(config(vec![test(ZuseConfigTestType::TcpOk, target)]));
        assert!(
            matches!(&error, SetupError::InvalidAddress { target: shown, .. } if shown == target),
            "{:?}",
            error,
        );
    }
}

#[test]
fn what_is_matched_has_to_be_said() {
    let nothing = test(ZuseConfigTestType::HttpMatch, "https://site.com/");
    assert!(matches!(refused(config(vec![nothing])), SetupError::MissingExpectations { .. }));
    assert!(matches!(
        refused(config(vec![matching(None, None)])),
        SetupError::EmptyExpectations { .. }
    ));
    let text_only = start(config(vec![matching(Some("x"), None)])).ok().unwrap();
    assert_eq!(text_only.args.config.tests, vec![matching(Some("x"), None)]);
    for status in [0u16, 99, 1000, 65535] {
        assert!(matches!(
            refused(config(vec![matching(None, Some(status))])),
            SetupError::InvalidStatus { status: shown, .. } if shown == status
        ));
    }
    for status in [100u16, 200, 999] {
        assert!(start(config(vec![matching(None, Some(status))])).is_ok());
    }
}

#[test]
fn a_target_is_judged_by_what_is_known_of_it() {
    let anything = |test_type| test(test_type, "anything");
    assert!(check_target(&anything(ZuseConfigTestType::HttpOk), true, false).is_none());
    assert!(matches!(
        check_target(&anything(ZuseConfigTestType::HttpOk), false, true),
        Some(SetupError::InvalidUrl { .. })
    ));
    assert!(check_target(&anything(ZuseConfigTestType::TcpOk), false, true).is_none());
    assert!(matches!(
        check_target(&anything(ZuseConfigTestType::TcpOk), true, false),
        Some(SetupError::InvalidAddress { .. })
    ));
}

#[test]
fn settings_fall_back_to_the_defaults() {
    let mut bare = http();
    bare.retries = None;
    bare.recovery = None;
    bare.interval = None;
    bare.timeout = None;
    let mut config = config(vec![bare, http()]);
    config.defaults = Some(ZuseConfigDefaults {
        retries: Some(10),
        recovery: Some(20),
        interval: Some(30),
        timeout: Some(40),
    });
    let zuse = start(config).ok().unwrap();
    let settings = |test: &ZuseConfigTest| (test.retries, test.recovery, test.interval, test.timeout);
    let tests = &zuse.args.config.tests;
    assert_eq!(settings(&tests[0]), (Some(10), Some(20), Some(30), Some(40)));
    assert_eq!(settings(&tests[1]), (Some(1), Some(2), Some(3), Some(4)));
}

#[test]
fn a_setting_without_a_default_is_missed() {
    let lacking = |setting: Setting| {
        let mut test = http();
        match setting {
            Setting::Retries => test.retries = None,
            Setting::Recovery => test.recovery = None,
            Setting::Interval => test.interval = None,
        }
        test
    };
    for setting in [Setting::Retries, Setting::Recovery, Setting::Interval] {
        assert!(matches!(
            refused(config(vec![http(), lacking(setting)])),
            SetupError::MissingSetting { setting: shown, .. } if shown == setting
        ));
    }
}

#[test]
fn the_first_thing_wrong_is_the_one_told() {
    let mut lacking = test(ZuseConfigTestType::TcpOk, "nowhere");
    lacking.retries = None;
    lacking.notify = Some(names(&["x"]));
    let mut config = config(vec![lacking]);
    config.notify_groups.as_mut().unwrap()[0].notify = names(&["y"]);
    assert!(matches!(refused(config.clone()), SetupError::GroupWithUnknownChannel { .. }));
    config.notify_groups = None;
    assert!(matches!(refused(config.clone()), SetupError::TestWithUnknownChannel { .. }));
    config.tests[0].notify = None;
    assert!(matches!(refused(config.clone()), SetupError::InvalidAddress { .. }));
    config.tests[0].target = "1.2.3.4:5".to_string();
    assert!(matches!(refused(config.clone()), SetupError::MissingSetting { .. }));
    config.tests[0].retries = Some(0);
    assert!(start(config).is_ok());
}

#[test]
fn a_message_goes_to_channels_and_then_to_groups() {
    let zuse = start(config(vec![
        http(),
        ZuseConfigTest { notify: Some(names(&["b", "b"])), ..http() },
        ZuseConfigTest {
            notify: Some(names(&["c"])),
            notify_groups: Some(names(&["chats", "all"])),
            ..http()
        },
    ]))
    .ok()
    .unwrap();
    assert_eq!(told(&zuse, 0), "");
    assert_eq!(told(&zuse, 1), "0:22 0:22 ");
    assert_eq!(told(&zuse, 2), "1:arn:c 0:-11 0:22 1:arn:c 0:22 0:-11 ");
}

#[test]
fn every_channel_is_served_by_a_notifier_of_its_kind() {
    let zuse = start(config(vec![http()])).ok().unwrap();
    let failed = message(0, JobSMStates::Failure);
    match zuse.try_send(zuse.channels.get("a").unwrap(), &failed) {
        Ok(Delivery::Telegram { chat_id, text, html, preview }) => {
            assert_eq!(chat_id, -11);
            assert!(html && !preview);
            assert_eq!(text, "<b>ALRT</b> Uptime checks failed on 'site'. (url: u)");
        }
        other => panic!("{:?}", other),
    }
    let recovered = message(0, JobSMStates::Recovery);
    match zuse.try_send(zuse.channels.get("c").unwrap(), &recovered) {
        Ok(Delivery::Sns(request)) => {
            assert_eq!(
                request.message,
                "RSLV Uptime checks recovered on 'site'. (duration=9s, url: u)",
            );
            assert_eq!(request.subject, "RSVL site");
            assert_eq!(request.topic_arn, Some("arn:c".to_string()));
            assert_eq!(request.phone_number, None);
            assert_eq!(request.target_arn, None);
            let attributes: Vec<String> = request
                .attributes
                .iter()
                .map(|a| format!("{} {} {}", a.name, a.data_type, a.value))
                .collect();
            assert_eq!(
                attributes,
                ["DefaultSenderID String NOTICE", "DefaultSMSType String Transactional"],
            );
        }
        other => panic!("{:?}", other),
    }
}

#[test]
fn a_test_can_do_without_a_timeout() {
    let mut test = http();
    test.timeout = None;
    let zuse = start(config(vec![test])).ok().unwrap();
    assert_eq!(zuse.args.config.tests[0].timeout, None);
}

#[test]
fn a_notifier_without_channels_does_not_move_the_others() {
    let mut config = config(vec![]);
    config.notify_groups = None;
    let mut empty = config.notifiers[0].clone();
    empty.channels = vec![];
    config.notifiers.insert(0, empty.clone());
    config.notifiers.insert(2, empty);
    let zuse = start(config).ok().unwrap();
    assert_eq!(zuse.notifiers, vec![ZuseNotifyType::Telegram, ZuseNotifyType::Sns]);
    let failed = message(0, JobSMStates::Failure);
    let chat = zuse.channels.get("a").unwrap();
    assert_eq!((chat.0, zuse.notifier_slot(chat)), (1, 0));
    assert!(matches!(
        zuse.try_send(chat, &failed),
        Ok(Delivery::Telegram { chat_id: -11, .. })
    ));
    let topic = zuse.channels.get("c").unwrap();
    assert_eq!((topic.0, zuse.notifier_slot(topic)), (3, 1));
    assert!(matches!(zuse.try_send(topic, &failed), Ok(Delivery::Sns(_))));
    let beyond = (9, ZuseChannelType::Telegram("5".to_string()));
    assert_eq!(zuse.notifier_slot(&beyond), 7);
    assert!(matches!(zuse.try_send(&beyond, &failed), Err(SendError::NoNotifier)));
}

#[test]
fn sns_passes_over_a_chat_whatever_the_message() {
    let zuse = start(config(vec![])).ok().unwrap();
    let sns = zuse.channels.get("c").unwrap().0;
    let chat = (sns, ZuseChannelType::Telegram("5".to_string()));
    for state in [JobSMStates::Normative, JobSMStates::Failure, JobSMStates::Recovery] {
        assert!(matches!(zuse.try_send(&chat, &message(0, state)), Ok(Delivery::Nothing)));
    }
}

#[test]
fn a_template_that_is_none_is_not_sent() {
    let mut config = config(vec![]);
    config.notifiers[0].templates = Some(zuse::config::ZuseConfigNotifierTemplates {
        alert_subject: None,
        alert_plain: None,
        alert_html: Some("{{".to_string()),
        resolve_subject: None,
        resolve_plain: None,
        resolve_html: None,
    });
    let zuse = start(config).ok().unwrap();
    assert!(matches!(
        zuse.try_send(zuse.channels.get("a").unwrap(), &message(0, JobSMStates::Failure)),
        Err(SendError::Template(TemplateError::Refused(_)))
    ));
}

#[test]
fn a_template_that_has_no_end_is_not_sent() {
    let mut config = config(vec![]);
    let own = |alert: &str, resolve: &str| {
        Some(zuse::config::ZuseConfigNotifierTemplates {
            alert_subject: Some(alert.to_string()),
            alert_plain: None,
            alert_html: None,
            resolve_subject: None,
            resolve_plain: None,
            resolve_html: Some(resolve.to_string()),
        })
    };
    config.notifiers[0].templates = own(
        "{{#*inline \"x\"}}{{> x}}{{/inline}}{{> x}}",
        "{{#*inline \"x\"}}hi {{test_name}}{{/inline}}{{> x}}",
    );
    let zuse = start(config.clone()).ok().unwrap();
    let chat = zuse.channels.get("a").unwrap();
    assert!(matches!(
        zuse.try_send(chat, &message(0, JobSMStates::Failure)),
        Err(SendError::Template(TemplateError::CircularPartials))
    ));
    assert!(matches!(
        zuse.try_send(chat, &message(0, JobSMStates::Recovery)),
        Ok(Delivery::Telegram { text, .. }) if text == "hi site"
    ));
    config.notifiers[0].templates = own("{{@this}}", "{{@first}}.");
    let zuse = start(config).ok().unwrap();
    let chat = zuse.channels.get("a").unwrap();
    assert!(matches!(
        zuse.try_send(chat, &message(0, JobSMStates::Failure)),
        Err(SendError::Template(TemplateError::LocalThis))
    ));
    assert!(matches!(
        zuse.try_send(chat, &message(0, JobSMStates::Recovery)),
        Ok(Delivery::Telegram { text, .. }) if text == "."
    ));
}

#[test]
fn what_is_sent_follows_from_notifier_and_channel() {
    let built = || ("s".to_string(), "j".to_string(), "t".to_string());
    let chat = ZuseChannelType::Telegram("5".to_string());
    let topic = ZuseChannelType::Sns(None, None, Some("arn".to_string()));
    assert!(matches!(
        deliver(ZuseNotifyType::Telegram, &chat, built()),
        Ok(Delivery::Telegram { chat_id: 5, text, .. }) if text == "t"
    ));
    assert!(matches!(deliver(ZuseNotifyType::Telegram, &topic, built()), Err(SendError::NoChat)));
    assert!(matches!(
        deliver(ZuseNotifyType::Telegram, &ZuseChannelType::Telegram("x".to_string()), built()),
        Err(SendError::NoChat)
    ));
    assert!(matches!(deliver(ZuseNotifyType::Sns, &chat, built()), Ok(Delivery::Nothing)));
    assert!(matches!(
        deliver(ZuseNotifyType::Sns, &topic, built()),
        Ok(Delivery::Sns(request)) if request.message == "t" && request.subject == "j"
    ));
}
