use std::time::SystemTime;
use zuse::config::{
    ZuseArgs, ZuseConfig, ZuseConfigInternal, ZuseConfigTest, ZuseConfigTestExpecations,
    ZuseConfigTestType,
};
use zuse::job::{ClockReading, JobSMStates};
use zuse::runner::{
    dump_html, dump_url, link_dump, test_runner_http_match, test_runner_http_ok,
    test_runner_tcp_ok, MatchResponse, TestRunner, ZuseRunnerStatus, ZuseTestResult,
};

fn args(retries: u64, recovery: u64, dump_prefix_url: Option<&str>) -> ZuseArgs {
    let test = ZuseConfigTest {
        test_type: ZuseConfigTestType::HttpOk,
        name: "site".to_string(),
        target: "https://site.com/".to_string(),
        expect: None,
        notify: None,
        notify_groups: None,
        retries: Some(retries),
        recovery: Some(recovery),
        interval: Some(1),
        timeout: Some(1),
    };
    let config = ZuseConfig {
        config: Some(ZuseConfigInternal {
            dump_prefix_url: dump_prefix_url.map(|prefix| prefix.to_string()),
        }),
        defaults: None,
        notifiers: vec![],
        notify_groups: None,
        tests: vec![test],
    };
    ZuseArgs::new(false, false, config)
}

fn result(passed: bool) -> ZuseTestResult {
    ZuseTestResult { status: ZuseRunnerStatus::from(passed), debug_dump: None }
}

fn told(runner: &mut TestRunner, results: &str) -> String {
    let mut news = String::new();
    for c in results.chars() {
        match runner.round(&result(c == 'w')) {
            Some(message) => match message.state {
                JobSMStates::Failure => news.push('F'),
                JobSMStates::Recovery => news.push('R'),
                JobSMStates::Normative => news.push('?'),
            },
            None => news.push('.'),
        }
    }
    news
}

fn expect(text: Option<&str>, status: Option<u16>) -> ZuseConfigTestExpecations {
    ZuseConfigTestExpecations { text: text.map(|text| text.to_string()), status }
}

fn response(status: u16, text: Option<&str>) -> Option<MatchResponse> {
    Some(MatchResponse { status, text: text.map(|text| text.to_string()) })
}

#[test]
fn a_flag_is_a_status() {
    assert_eq!(ZuseRunnerStatus::from(true), ZuseRunnerStatus::Success);
    assert_eq!(ZuseRunnerStatus::from(false), ZuseRunnerStatus::Failure);
}

#[test]
fn success_is_from_200_to_299() {
    for code in [100u16, 199, 300, 301, 404, 500, 999, 0, 99, 1000, 65535] {
        let result = test_runner_http_ok(Some(code), "dump".to_string());
        assert_eq!(result.status, ZuseRunnerStatus::Failure, "{}", code);
    }
    for code in [200u16, 204, 299] {
        let result = test_runner_http_ok(Some(code), "dump".to_string());
        assert_eq!(result.status, ZuseRunnerStatus::Success, "{}", code);
        assert_eq!(result.debug_dump, Some("dump".to_string()));
    }
}

#[test]
fn no_response_is_no_success() {
    let result = test_runner_http_ok(None, "Err(..)".to_string());
    assert_eq!(result.status, ZuseRunnerStatus::Failure);
    assert_eq!(result.debug_dump, Some("Err(..)".to_string()));
}

#[test]
fn text_and_status_have_to_match() {
    let cases = [
        (expect(Some("fine"), Some(200)), response(200, Some("all is fine here")), true),
        (expect(Some("fine"), Some(200)), response(200, Some("all is Fine here")), false),
        (expect(Some("fine"), Some(200)), response(201, Some("fine")), false),
        (expect(Some("fine"), Some(200)), response(200, None), true),
        (expect(Some("fine"), Some(200)), response(500, None), false),
        (expect(Some("fine"), None), response(500, Some("fine")), true),
        (expect(None, Some(404)), response(404, Some("nothing")), true),
        (expect(None, Some(404)), response(200, Some("nothing")), false),
        (expect(Some(""), Some(200)), response(200, Some("")), true),
        (expect(Some("größe"), Some(200)), response(200, Some("die größe")), true),
        (expect(Some("longer"), Some(200)), response(200, Some("long")), false),
        (expect(None, Some(200)), None, false),
    ];
    for (expected, response, passes) in cases {
        let result = test_runner_http_match(&expected, &response);
        assert_eq!(result.status, ZuseRunnerStatus::from(passes), "{:?} {:?}", expected, response);
        assert_eq!(result.debug_dump, None);
    }
}

#[test]
fn a_status_that_does_not_exist_is_not_reached_where_the_text_differs() {
    let result = test_runner_http_match(&expect(Some("a"), Some(7)), &response(200, Some("b")));
    assert_eq!(result.status, ZuseRunnerStatus::Failure);
}

#[test]
fn a_connection_is_enough_for_tcp() {
    assert_eq!(test_runner_tcp_ok(true).status, ZuseRunnerStatus::Success);
    assert_eq!(test_runner_tcp_ok(false).status, ZuseRunnerStatus::Failure);
    assert_eq!(test_runner_tcp_ok(true).debug_dump, None);
}

#[test]
fn a_dump_stands_behind_its_prefix_in_base64() {
    let prefix = Some("https://dump.site/".to_string());
    let dump = Some("hello world".to_string());
    assert_eq!(dump_url(&prefix, &dump), "https://dump.site/#aGVsbG8gd29ybGQ=");
    assert_eq!(dump_url(&prefix, &Some("~?\u{fc}".to_string())), "https://dump.site/#fj/DvA==");
    assert_eq!(dump_url(&prefix, &Some(String::new())), "https://dump.site/#");
    assert_eq!(dump_url(&prefix, &None), "");
    assert_eq!(dump_url(&None, &dump), "");
    assert_eq!(link_dump("p", "e"), "p#e");
}

#[test]
fn a_dump_is_linked_where_dumps_are_used() {
    assert_eq!(dump_html(true, "u#d"), "<a href='u#d'>view dump</a>, ");
    assert_eq!(dump_html(true, ""), "<a href=''>view dump</a>, ");
    assert_eq!(dump_html(false, "u#d"), "");
}

#[test]
fn a_failing_test_is_told_once() {
    let mut runner = TestRunner::new(&args(3, 3, None), 0);
    assert_eq!(told(&mut runner, "lllllll"), "..F....");
}

#[test]
fn a_passing_test_is_not_told() {
    let mut runner = TestRunner::new(&args(1, 1, None), 0);
    assert_eq!(told(&mut runner, "wwwww"), ".....");
}

#[test]
fn a_recovery_is_told_once() {
    let mut runner = TestRunner::new(&args(2, 3, None), 0);
    assert_eq!(told(&mut runner, "lllwwwwww"), ".F...R...");
    assert_eq!(runner.jsm.state, JobSMStates::Normative);
    assert_eq!(told(&mut runner, "lll"), ".F.");
}

#[test]
fn failures_and_recoveries_are_told_in_turn() {
    let mut runner = TestRunner::new(&args(1, 1, None), 0);
    assert_eq!(told(&mut runner, "lwlwllwwl"), "FRFRF.R.F");
}

#[test]
fn a_failure_is_told_again_where_the_test_passes_right_after() {
    let mut runner = TestRunner::new(&args(3, 3, None), 0);
    assert_eq!(told(&mut runner, "lllwww"), "..FFFR");
}

#[test]
fn an_unsteady_test_is_not_told_before_it_fails_in_a_row() {
    let mut runner = TestRunner::new(&args(3, 1, None), 0);
    assert_eq!(told(&mut runner, "llwllwlll"), "........F");
}

#[test]
fn a_message_carries_the_test_and_the_dump() {
    let mut runner = TestRunner::new(&args(1, 1, Some("http://d/")), 0);
    let failed = ZuseTestResult {
        status: ZuseRunnerStatus::Failure,
        debug_dump: Some("hello world".to_string()),
    };
    let message = runner.round(&failed).unwrap();
    assert_eq!(message.test_id, 0);
    assert_eq!(message.test_name, "site");
    assert_eq!(message.test_url, "https://site.com/");
    assert_eq!(message.dump_url, "http://d/#aGVsbG8gd29ybGQ=");
    assert_eq!(message.dump_html, "<a href='http://d/#aGVsbG8gd29ybGQ='>view dump</a>, ");
    assert!(message.dump_used);
    assert_eq!(message.state, JobSMStates::Failure);
}

#[test]
fn a_message_without_dumps_carries_none() {
    let mut runner = TestRunner::new(&args(1, 1, None), 0);
    let failed = ZuseTestResult {
        status: ZuseRunnerStatus::Failure,
        debug_dump: Some("hello world".to_string()),
    };
    let message = runner.round(&failed).unwrap();
    assert_eq!(message.dump_url, "");
    assert_eq!(message.dump_html, "");
    assert!(!message.dump_used);
}

#[test]
fn a_recovery_carries_how_long_the_failure_lasted() {
    let now = SystemTime::UNIX_EPOCH;
    let at = |seconds: u64| ClockReading { elapsed: Some(seconds), now };
    let mut runner = TestRunner::new_at(&args(1, 1, None), 0, now);
    let failure = runner.round_at(&result(false), at(10), at(0)).unwrap();
    assert_eq!(failure.time_state_lasted, 10);
    assert!(runner.round_at(&result(false), at(11), at(0)).is_none());
    let recovery = runner.round_at(&result(true), at(42), at(1)).unwrap();
    assert_eq!(recovery.time_state_lasted, 42);
    assert_eq!(recovery.state, JobSMStates::Recovery);
    assert_eq!(runner.jsm.last_state_lasted, 1);
    assert_eq!(runner.jsm.state, JobSMStates::Normative);
}

#[test]
fn a_recovery_ends_with_being_told() {
    let mut runner = TestRunner::new(&args(1, 1, None), 0);
    runner.count(ZuseRunnerStatus::Failure);
    assert_eq!(runner.jsm.state, JobSMStates::Failure);
    assert_eq!(runner.tell(&result(false)).unwrap().state, JobSMStates::Failure);
    assert_eq!(runner.jsm.state, JobSMStates::Failure);
    runner.count(ZuseRunnerStatus::Success);
    assert_eq!(runner.jsm.state, JobSMStates::Recovery);
    assert_eq!(runner.jsm.last_state, JobSMStates::Failure);
    assert_eq!(runner.tell(&result(true)).unwrap().state, JobSMStates::Recovery);
    assert_eq!(runner.jsm.state, JobSMStates::Normative);
    assert_eq!(runner.jsm.last_state, JobSMStates::Recovery);
}

#[test]
fn counting_and_telling_take_the_clock_as_it_is_given() {
    let now = SystemTime::now();
    let reading = |seconds| ClockReading { elapsed: Some(seconds), now };
    let mut runner = TestRunner::new_at(&args(1, 1, None), 0, now);
    runner.count_at(ZuseRunnerStatus::Failure, reading(7));
    assert_eq!(runner.tell_at(&result(false), reading(8)).unwrap().time_state_lasted, 7);
    assert_eq!(runner.jsm.last_state_lasted, 7);
    runner.count_at(ZuseRunnerStatus::Success, reading(9));
    assert_eq!(runner.tell_at(&result(true), reading(10)).unwrap().time_state_lasted, 9);
    assert_eq!(runner.jsm.last_state_lasted, 10);
}

#[test]
fn a_failure_is_told_at_the_first_full_run() {
    let mut runner = TestRunner::new(&args(3, 2, None), 0);
    assert_eq!(told(&mut runner, "llwllwwlllll"), ".........F..");
    assert_eq!(told(&mut runner, "wlwlww"), ".....R");
}

#[test]
fn a_recovery_is_told_at_the_first_full_run() {
    let mut runner = TestRunner::new(&args(1, 3, None), 0);
    assert_eq!(told(&mut runner, "lwwlwwwl"), "FFF...RF");
    let mut runner = TestRunner::new(&args(1, 3, None), 0);
    assert_eq!(told(&mut runner, "lwwww"), "FFFR.");
}
