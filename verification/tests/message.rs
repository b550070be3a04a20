use zuse::config::{
    ZuseArgs, ZuseConfig, ZuseConfigNotifier, ZuseConfigNotifierAuth, ZuseConfigNotifierTemplates,
    ZuseConfigNotifierType,
};
use zuse::job::JobSMStates;
use zuse::message::{compose, TemplateError, ZuseJobMessage};
use zuse::template::{has_local_this, has_circular_partials};

fn templates(mark: &str) -> ZuseConfigNotifierTemplates {
    ZuseConfigNotifierTemplates {
        alert_subject: Some(format!("{}1", mark)),
        alert_plain: Some(format!("{}2", mark)),
        alert_html: Some(format!("{}3", mark)),
        resolve_subject: Some(format!("{}4", mark)),
        resolve_plain: Some(format!("{}5", mark)),
        resolve_html: Some(format!("{}6", mark)),
    }
}

fn notifier(
    notifier_type: ZuseConfigNotifierType,
    templates: Option<ZuseConfigNotifierTemplates>,
) -> ZuseConfigNotifier {
    ZuseConfigNotifier {
        notifier_type,
        sender_id: None,
        auth: ZuseConfigNotifierAuth { token: None, key: None, secret: None, region: None },
        templates,
        channels: vec![],
    }
}

fn args(notifiers: Vec<ZuseConfigNotifier>) -> ZuseArgs {
    ZuseArgs::new(
        false,
        false,
        ZuseConfig { config: None, defaults: None, notifiers, notify_groups: None, tests: vec![] },
    )
}

fn message(state: JobSMStates) -> ZuseJobMessage {
    ZuseJobMessage {
        test_id: 7,
        test_name: "site & co".to_string(),
        test_url: "https://site.com/".to_string(),
        dump_html: "<i>".to_string(),
        dump_url: "d".to_string(),
        dump_used: true,
        time_state_lasted: 61,
        state,
    }
}

fn texts(built: (String, String, String)) -> [String; 3] {
    [built.0, built.1, built.2]
}

#[test]
fn another_state_changes_nothing_else() {
    let changed = message(JobSMStates::Normative).with_state(JobSMStates::Recovery);
    assert_eq!(changed.state, JobSMStates::Recovery);
    assert_eq!(changed.test_id, 7);
    assert_eq!(changed.test_name, "site & co");
    assert_eq!(changed.time_state_lasted, 61);
    assert!(changed.dump_used);
}

#[test]
fn own_templates_come_before_the_default_ones() {
    let own = notifier(ZuseConfigNotifierType::Sns, Some(templates("t")));
    let alert = message(JobSMStates::Failure).resolve_custom_templates(&own);
    assert_eq!(texts(alert), ["t1", "t3", "t2"]);
    let resolve = message(JobSMStates::Recovery).resolve_custom_templates(&own);
    assert_eq!(texts(resolve), ["t4", "t6", "t5"]);
}

#[test]
fn templates_that_are_left_out_are_the_default_ones() {
    let mut some = templates("t");
    some.alert_html = None;
    some.resolve_subject = None;
    let own = notifier(ZuseConfigNotifierType::Telegram, Some(some));
    let alert = message(JobSMStates::Failure).resolve_custom_templates(&own);
    assert_eq!(
        texts(alert),
        [
            "t1",
            "<b>ALRT</b> Uptime checks failed on '{{test_name}}'. (url: {{test_url}})",
            "t2",
        ],
    );
    let resolve = message(JobSMStates::Recovery).resolve_custom_templates(&own);
    assert_eq!(texts(resolve), ["RSVL {{test_name}}", "t6", "t5"]);
}

#[test]
fn telegram_gets_html_and_sns_does_not() {
    let args = args(vec![
        notifier(ZuseConfigNotifierType::Telegram, None),
        notifier(ZuseConfigNotifierType::Sns, None),
    ]);
    assert_eq!(
        texts(message(JobSMStates::Failure).build(&args, 0)),
        [
            "NOTICE",
            "ALRT site &amp; co",
            "<b>ALRT</b> Uptime checks failed on 'site &amp; co'. (url: https://site.com/)",
        ],
    );
    assert_eq!(
        texts(message(JobSMStates::Recovery).build(&args, 1)),
        [
            "NOTICE",
            "RSVL site &amp; co",
            "RSLV Uptime checks recovered on 'site &amp; co'. (duration=61s, url: https://site.com/)",
        ],
    );
    assert_eq!(
        texts(message(JobSMStates::Recovery).try_build(&args, 0).unwrap())[2],
        "<b>RSLV</b> Uptime checks recovered on 'site &amp; co'. (duration=61s, url: https://site.com/)",
    );
    assert_eq!(
        texts(message(JobSMStates::Failure).try_build(&args, 1).unwrap())[2],
        "ALRT Uptime checks failed on 'site &amp; co'. (url: https://site.com/)",
    );
}

#[test]
fn a_template_can_name_every_field() {
    let mut own = templates("t");
    own.alert_plain = Some(
        "{{test_id}} {{test_name}} {{test_url}} {{{dump_html}}} {{dump_url}} {{dump_used}} \
         {{time_state_lasted}} {{state}} {{other}}|{{#if dump_used}}yes{{/if}}\
         {{#if (gt time_state_lasted 60)}}long{{/if}}{{#if (eq state \"Failure\")}}!{{/if}}"
            .to_string(),
    );
    own.resolve_plain = Some("{{state}}".to_string());
    let args = args(vec![notifier(ZuseConfigNotifierType::Sns, Some(own))]);
    assert_eq!(
        message(JobSMStates::Failure).build(&args, 0).2,
        "7 site &amp; co https://site.com/ <i> d true 61 Failure |yeslong!",
    );
    assert_eq!(message(JobSMStates::Recovery).build(&args, 0).2, "Recovery");
}

#[test]
fn a_template_that_is_none_is_refused() {
    let mut bad_text = templates("t");
    bad_text.alert_html = Some("{{#if}".to_string());
    let mut bad_subject = templates("t");
    bad_subject.alert_subject = Some("{{nothing 1}}".to_string());
    let args = args(vec![
        notifier(ZuseConfigNotifierType::Telegram, Some(bad_text)),
        notifier(ZuseConfigNotifierType::Telegram, Some(bad_subject)),
    ]);
    assert!(matches!(
        message(JobSMStates::Failure).try_build(&args, 0),
        Err(TemplateError::Refused(_))
    ));
    assert!(message(JobSMStates::Recovery).try_build(&args, 0).is_ok());
    assert!(matches!(
        message(JobSMStates::Failure).try_build(&args, 1),
        Err(TemplateError::Refused(_))
    ));
}

#[test]
fn a_sender_of_ones_own_comes_first() {
    let mut own = notifier(ZuseConfigNotifierType::Sns, None);
    let (subject, text) = ("s".to_string(), "t".to_string());
    assert_eq!(texts(compose(&own, subject.clone(), text.clone())), ["NOTICE", "s", "t"]);
    own.sender_id = Some("ME".to_string());
    assert_eq!(texts(compose(&own, subject, text)), ["ME", "s", "t"]);
}

#[test]
fn debugging_is_verbose() {
    let with = |verbose, debug| {
        let args = ZuseArgs::new(verbose, debug, args(vec![]).config);
        (args.verbosity, args.verbose(), args.debug())
    };
    assert_eq!(with(false, false), (0, false, false));
    assert_eq!(with(true, false), (1, true, false));
    assert_eq!(with(false, true), (2, true, true));
    assert_eq!(with(true, true), (2, true, true));
}

#[test]
fn partials_that_include_one_another_are_found() {
    for circular in [
        "{{#*inline \"a\"}}{{> a}}{{/inline}}{{> a}}",
        "{{#*inline \"a\"}}{{#if b}}c{{else}}{{~> a}}{{/if}}{{/inline}}{{#if c}}{{> a}}{{/if}}",
        "{{#*inline \"a\"}}{{> b}}{{/inline}}{{#*inline \"b\"}}{{> a}}{{/inline}}{{> a}}",
        "{{#*inline \"c\"}}{{> a}}{{/inline}}{{#*inline \"a\"}}{{> a}}{{/inline}}{{> c}}",
        "{{#*inline \"a\"}}{{#*inline \"b\"}}{{> a}}{{/inline}}{{> b}}{{/inline}}{{> a}}",
        "{{#*inline \"a\"}}{{#> a}}{{/a}}{{/inline}}{{#> a}}{{/a}}",
        "{{#*inline \"a\"}}{{#> b}}{{> a}}{{/b}}{{/inline}}{{> a}}",
        "{{#> a}}{{> @partial-block}}{{/a}}",
        "{{#if b}}{{else}}{{#> a}}{{> @partial-block}}{{/a}}{{/if}}",
        "{{#*inline test_name}}{{> a}}{{/inline}}{{> b}}",
        "{{#*inline \"a\"}}{{> (lookup this \"state\")}}{{/inline}}{{> a}}",
        "{{#*inline \"a\"}}\\{{/inline}}{{> a}}{{/inline}}{{> a}}",
        "{{#*inline \"a\"}}{{!-- {{/inline}} --}}{{> a}}{{/inline}}{{> a}}",
        "{{#*inline \"a\"}}{{log \"}}{{/inline}}{{x\"}}{{> a}}{{/inline}}{{> a}}",
    ] {
        assert!(has_circular_partials(circular), "{}", circular);
    }
    for straight in [
        "",
        "{{> missing}}",
        "{{> (lookup this \"state\")}}",
        "{{#*inline \"a\"}}hi{{/inline}}{{> a}}",
        "{{#*inline \"a\"}}1{{/inline}}{{#*inline \"b\"}}{{> a}}{{/inline}}{{> b}}{{> a}}",
        "{{#*inline \"a\"}}1{{/inline}}{{> a}}{{#*inline \"b\"}}2{{/inline}}{{> b}}",
        "{{#*inline \"a\"}}{{> a}}{{/inline}}{{> b}}",
        "{{#> a}}{{#> b}}{{> c}}{{/b}}{{/a}}",
        "{{#*inline \"l\"}}[{{> @partial-block}}]{{/inline}}{{#> l}}x{{/l}}",
        "{{#*inline \"a\"}}{{!-- {{> a}} --}}{{/inline}}{{> a}}",
        "{{#*inline \"a\"}}\\{{> a}}{{/inline}}{{> a}}",
        "{{#*inline \"a\"}}{{> a}",
        "<b>{{a}}</b> >",
    ] {
        assert!(!has_circular_partials(straight), "{}", straight);
    }
}

#[test]
fn a_local_variable_is_not_named_this() {
    for named in [
        "{{@this}}",
        "{{@../this}}",
        "{{@.../this}}",
        "{{@[this]}}",
        "{{@../[this]}}",
        "{{#if @this}}a{{/if}}",
        "{{./@this/this}}",
        "{{@this.[this]/this}}",
        "{{a \"}}\" @this}}",
        "{{a [}}] @this}}",
        "{{> '}}' @this}}",
        "{{a {\"b\":{\"c\":1}} @this}}",
        "{{a \"\\\"\" @this}}",
        "\\\\{{@this}}",
        "{{{@this}}}",
        "{{a}} {{&@this}}",
        "{{! a}}{{~@this}}",
    ] {
        assert!(has_local_this(named), "{}", named);
    }
    for other in [
        "",
        "@",
        "this",
        "{{this}}",
        "{{@thi}}",
        "{{@thisone}}",
        "{{@this_}}",
        "{{@this\u{e4}}}",
        "{{@this.key}}",
        "{{@this/[key]}}",
        "{{@[this one]}}",
        "{{@root/this}}",
        "{{@first}} this",
        "ask @this desk",
        "{{test_name}}: ask ops@this.com",
        "{{{test_name}}} '{{state}}' @this",
        "{{#if (eq state \"Failure\")}}ask @this desk{{/if}}",
        "{{! ask @this desk }}",
        "{{!-- ask @this desk --}}",
        "{{log \"@this\"}}",
        "\\{{@this}}",
    ] {
        assert!(!has_local_this(other), "{}", other);
    }
}

fn own_alert(subject: &str, html: &str) -> ZuseArgs {
    let mut own = templates("t");
    own.alert_subject = Some(subject.to_string());
    own.alert_html = Some(html.to_string());
    args(vec![notifier(ZuseConfigNotifierType::Telegram, Some(own))])
}

#[test]
fn partials_are_rendered() {
    for (template, text) in [
        ("{{#*inline \"x\"}}hi{{/inline}}{{> x}}", "hi"),
        ("{{#*inline \"x\"}}{{state}}{{/inline}}{{#if test_id}}{{> x}}{{/if}}!", "Failure!"),
        ("a{{> missing}}b", "ab"),
        ("a{{!-- {{> x}} --}}b", "ab"),
        ("{{#> missing}}else{{/missing}}", "else"),
        ("{{#*inline \"a\"}}1{{/inline}}{{#*inline \"b\"}}{{> a}}2{{/inline}}{{> b}}", "12"),
        ("{{#*inline \"l\"}}[{{> @partial-block}}]{{/inline}}{{#> l}}x{{/l}}", "[x]"),
        ("{{#*inline \"a\"}}{{> a}}{{/inline}}unused", "unused"),
        ("ask @this desk, {{state}} ops@this.com {{@this.key}}!", "ask @this desk, Failure ops@this.com !"),
        ("{{#if (eq state \"Failure\")}}ask @this{{/if}}", "ask @this"),
        ("a{{! @this }}b\\{{@this}}", "ab{{@this}}"),
    ] {
        let args = own_alert("s", template);
        let built = message(JobSMStates::Failure).try_build(&args, 0).unwrap();
        assert_eq!(built.2, text, "{}", template);
        let args = own_alert(template, "t");
        assert_eq!(message(JobSMStates::Failure).build(&args, 0).1, text, "{}", template);
    }
}

#[test]
fn templates_without_end_are_not_rendered() {
    let circular = "{{#*inline \"a\"}}{{> a}}{{/inline}}{{> a}}";
    let build = |subject: &str, html: &str| {
        message(JobSMStates::Failure).try_build(&own_alert(subject, html), 0)
    };
    assert!(matches!(build("s", circular), Err(TemplateError::CircularPartials)));
    assert!(matches!(build(circular, "t"), Err(TemplateError::CircularPartials)));
    assert!(matches!(build("s", "{{@this}}"), Err(TemplateError::LocalThis)));
    assert!(matches!(build("{{@this}}", circular), Err(TemplateError::LocalThis)));
}

#[test]
fn templates_that_are_not_used_have_no_effect() {
    let mut own = templates("t");
    own.alert_plain = Some("{{@this}}".to_string());
    own.resolve_plain = Some("{{".to_string());
    let args = args(vec![notifier(ZuseConfigNotifierType::Telegram, Some(own))]);
    for (state, text) in [(JobSMStates::Failure, "t3"), (JobSMStates::Recovery, "t6")] {
        assert_eq!(message(state).try_build(&args, 0).unwrap().2, text);
    }
}

#[test]
fn the_templates_of_a_message_follow_from_the_notifier() {
    let both = |notifier_type| {
        let own = notifier(notifier_type, Some(templates("t")));
        let alert = message(JobSMStates::Failure).chosen_templates(&own);
        let resolve = message(JobSMStates::Recovery).chosen_templates(&own);
        [alert.0, alert.1, resolve.0, resolve.1]
    };
    assert_eq!(both(ZuseConfigNotifierType::Telegram), ["t3", "t1", "t6", "t4"]);
    assert_eq!(both(ZuseConfigNotifierType::Sns), ["t2", "t1", "t5", "t4"]);
}
