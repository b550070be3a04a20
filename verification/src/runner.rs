//! Running a test: what a response counts as, and what a round of a test leads
//! to.

use crate::bindings::{contains, encode_base64, status_succeeds};
use crate::config::{ZuseArgs, ZuseConfig, ZuseConfigTestExpecations};
use crate::job::{ClockReading, JobSMStates, JobStateMachine};
use crate::message::ZuseJobMessage;
use crate::setup::same_text;
use std::time::SystemTime;
use vstd::prelude::*;

verus! {

/// Whether a test passed.
#[derive(Debug, Clone, Copy, PartialEq, Eq, Structural)]
pub enum ZuseRunnerStatus {
    Success,
    Failure,
}

/// The status of a test that passed, or did not.
pub open spec fn status_of(passed: bool) -> ZuseRunnerStatus {
    if passed {
        ZuseRunnerStatus::Success
    } else {
        ZuseRunnerStatus::Failure
    }
}

impl From<bool> for ZuseRunnerStatus {
    fn from(passed: bool) -> (status: Self) {
        if passed {
            ZuseRunnerStatus::Success
        } else {
            ZuseRunnerStatus::Failure
        }
    }
}

impl vstd::std_specs::convert::FromSpecImpl<bool> for ZuseRunnerStatus {
    open spec fn obeys_from_spec() -> bool {
        true
    }

    open spec fn from_spec(passed: bool) -> Self {
        status_of(passed)
    }
}

/// How a test went.
#[derive(Debug)]
pub struct ZuseTestResult {
    pub status: ZuseRunnerStatus,
    pub debug_dump: Option<String>,
}

/// A response that is held against expectations: its status, and its text where
/// that was asked for and could be read.
#[derive(Debug)]
pub struct MatchResponse {
    pub status: u16,
    pub text: Option<String>,
}

/// Whether the text of a response holds the expected one. A text that could not
/// be read does not count against it.
pub open spec fn text_agrees(expect: ZuseConfigTestExpecations, response: MatchResponse) -> bool {
    match (expect.text, response.text) {
        (Some(expected), Some(text)) => crate::text::occurs_in(expected@, text@),
        _ => true,
    }
}

/// Whether the status of a response is the expected one.
pub open spec fn status_agrees(expect: ZuseConfigTestExpecations, response: MatchResponse) -> bool {
    expect.status matches Some(status) ==> status == response.status
}

/// Whether there was a response, and it is as expected.
pub open spec fn agrees(
    expect: ZuseConfigTestExpecations,
    response: Option<MatchResponse>,
) -> bool {
    match response {
        Some(response) => text_agrees(expect, response) && status_agrees(expect, response),
        None => false,
    }
}

/// A test for a response with a status of success, by the status of the response
/// if there was one.
pub fn test_runner_http_ok(status: Option<u16>, dump: String) -> (result: ZuseTestResult)
    ensures
        result.status == status_of(status matches Some(code) && 200 <= code < 300),
        result.status is Success <==> (status is Some && 200 <= status->0 < 300),
        result.debug_dump == Some(dump),
{
    let passed = match status {
        Some(code) => status_succeeds(code),
        None => false,
    };
    ZuseTestResult { status: ZuseRunnerStatus::from(passed), debug_dump: Some(dump) }
}

/// A test for a response that is as expected. The status is compared only where
/// the text agrees, and has to be one then.
pub fn test_runner_http_match(
    expect: &ZuseConfigTestExpecations,
    response: &Option<MatchResponse>,
) -> (result: ZuseTestResult)
    requires
        response matches Some(response) && text_agrees(*expect, *response)
            && expect.status is Some ==> crate::validate::is_status(expect.status->0),
    ensures
        result.status == status_of(agrees(*expect, *response)),
        result.status is Success <==> {
            &&& response is Some
            &&& expect.text is Some && response->0.text is Some ==> crate::text::occurs_in(
                expect.text->0@,
                response->0.text->0@,
            )
            &&& expect.status is Some ==> expect.status->0 == response->0.status
        },
        result.debug_dump is None,
{
    let passed = match response {
        Some(response) => {
            let text_agrees = match (&expect.text, &response.text) {
                (Some(expected), Some(text)) => contains(text.as_str(), expected.as_str()),
                _ => true,
            };
            let status_agrees = match expect.status {
                Some(status) => status == response.status,
                None => true,
            };
            text_agrees && status_agrees
        },
        None => false,
    };
    ZuseTestResult { status: ZuseRunnerStatus::from(passed), debug_dump: None }
}

/// A test for a connection.
pub fn test_runner_tcp_ok(connected: bool) -> (result: ZuseTestResult)
    ensures
        result.status == status_of(connected),
        result.status is Success <==> connected,
        result.debug_dump is None,
{
    ZuseTestResult { status: ZuseRunnerStatus::from(connected), debug_dump: None }
}

/// The address that a dump is put behind, if the configuration has one.
pub open spec fn dump_prefix(config: ZuseConfig) -> Option<String> {
    match config.config {
        Some(internal) => internal.dump_prefix_url,
        None => None,
    }
}

/// The address of a dump that has been encoded.
pub open spec fn dump_link(prefix: Seq<char>, encoded: Seq<char>) -> Seq<char> {
    prefix + "#"@ + encoded
}

/// The address of a dump: none where there is no dump, or nothing to put it
/// behind.
pub open spec fn dump_address(prefix: Option<String>, dump: Option<String>) -> Seq<char> {
    match (prefix, dump) {
        (Some(prefix), Some(dump)) => dump_link(prefix@, crate::bindings::base64_text(dump@)),
        _ => Seq::empty(),
    }
}

/// The address of a dump as HTML, where dumps are used.
pub open spec fn dump_anchor(used: bool, address: Seq<char>) -> Seq<char> {
    if used {
        "<a href='"@ + address + "'>view dump</a>, "@
    } else {
        Seq::empty()
    }
}

/// The address of a dump that has been encoded.
pub fn link_dump(prefix: &str, encoded: &str) -> (link: String)
    ensures
        link@ == dump_link(prefix@, encoded@),
        link@ == prefix@ + "#"@ + encoded@,
{
    prefix.to_string().concat("#").concat(encoded)
}

/// The address of a dump.
pub fn dump_url(prefix: &Option<String>, dump: &Option<String>) -> (url: String)
    ensures
        url@ == dump_address(*prefix, *dump),
        prefix is Some && dump is Some ==> url@ == prefix->0@ + "#"@
            + crate::bindings::base64_text(dump->0@),
        prefix is None || dump is None ==> url@.len() == 0,
{
    match (prefix, dump) {
        (Some(prefix), Some(dump)) => {
            let encoded = encode_base64(dump.as_str());
            link_dump(prefix.as_str(), encoded.as_str())
        },
        _ => String::new(),
    }
}

/// The address of a dump as HTML.
pub fn dump_html(used: bool, url: &str) -> (html: String)
    ensures
        html@ == dump_anchor(used, url@),
        used ==> html@ == "<a href='"@ + url@ + "'>view dump</a>, "@,
        !used ==> html@.len() == 0,
{
    if used {
        "<a href='".to_string().concat(url).concat("'>view dump</a>, ")
    } else {
        String::new()
    }
}

/// A test that is run again and again.
#[derive(Debug)]
pub struct TestRunner {
    pub test_id: usize,
    pub test_name: String,
    pub test_url: String,
    pub dump_prefix_url: Option<String>,
    pub jsm: JobStateMachine,
}

/// The machine of a test once a result has been counted.
pub open spec fn counted(
    jsm: JobStateMachine,
    status: ZuseRunnerStatus,
    reading: ClockReading,
) -> JobStateMachine {
    match status {
        ZuseRunnerStatus::Success => jsm.won(reading),
        ZuseRunnerStatus::Failure => jsm.lost(reading),
    }
}

/// What is to be told once a result has been counted: that the test has failed,
/// or that it has recovered.
pub open spec fn news(jsm: JobStateMachine) -> Option<JobSMStates> {
    if jsm.changed() && jsm.state !is Normative {
        Some(jsm.state)
    } else {
        None
    }
}

/// The machine of a test once a recovery has been told.
pub open spec fn told(jsm: JobStateMachine, reading: ClockReading) -> JobStateMachine {
    if news(jsm) == Some(JobSMStates::Recovery) {
        jsm.settled(reading)
    } else {
        jsm
    }
}

/// The machine of a test after a whole round, by what the clock showed when the
/// result was counted and when a recovery was told.
pub open spec fn after_round(
    jsm: JobStateMachine,
    status: ZuseRunnerStatus,
    counting: ClockReading,
    telling: ClockReading,
) -> JobStateMachine {
    told(counted(jsm, status, counting), telling)
}

impl TestRunner {
    /// Whether two runners are of the same test.
    pub open spec fn same_test(self, other: TestRunner) -> bool {
        &&& self.test_id == other.test_id
        &&& self.test_name == other.test_name
        &&& self.test_url == other.test_url
        &&& self.dump_prefix_url == other.dump_prefix_url
    }

    /// What is told of a test whose machine has counted a result.
    pub open spec fn message(
        self,
        jsm: JobStateMachine,
        debug_dump: Option<String>,
    ) -> Option<crate::message::JobMessageView> {
        let used = self.dump_prefix_url is Some;
        let address = dump_address(self.dump_prefix_url, debug_dump);
        match news(jsm) {
            Some(state) => Some(
                crate::message::JobMessageView {
                    test_id: self.test_id as nat,
                    test_name: self.test_name@,
                    test_url: self.test_url@,
                    dump_html: dump_anchor(used, address),
                    dump_url: address,
                    dump_used: used,
                    time_state_lasted: jsm.last_state_lasted,
                    state,
                },
            ),
            None => None,
        }
    }

    /// Whether another runner is of the same test, and a message is what is to be
    /// told of it now that a result has been counted.
    pub open spec fn tells(
        self,
        result: ZuseTestResult,
        next: TestRunner,
        message: Option<ZuseJobMessage>,
    ) -> bool {
        let expected = self.message(self.jsm, result.debug_dump);
        &&& next.same_test(self)
        &&& message is Some == expected is Some
        &&& message matches Some(message) ==> message@ == expected->0
    }

    /// Whether a round leads from one runner to another, with the given message:
    /// the result is counted, the message is about what comes of that, and a
    /// recovery ends with being told.
    pub open spec fn round_leads_to(
        self,
        result: ZuseTestResult,
        counting: ClockReading,
        telling: ClockReading,
        next: TestRunner,
        message: Option<ZuseJobMessage>,
    ) -> bool {
        let expected = self.message(counted(self.jsm, result.status, counting), result.debug_dump);
        &&& next.same_test(self)
        &&& next.jsm == after_round(self.jsm, result.status, counting, telling)
        &&& message is Some == expected is Some
        &&& message matches Some(message) ==> message@ == expected->0
    }

    /// Whether a round can be counted.
    pub open spec fn can_count(self, status: ZuseRunnerStatus) -> bool {
        &&& self.jsm.wf()
        &&& status is Failure ==> self.jsm.n_failures < u64::MAX
    }

    /// The runner of a test of a configuration, at the given time.
    pub fn new_at(args: &ZuseArgs, test_id: usize, now: SystemTime) -> (runner: TestRunner)
        requires
            test_id < args.config.tests@.len(),
            args.config.tests[test_id as int].retries is Some,
            args.config.tests[test_id as int].recovery is Some,
        ensures
            ({
                let test = args.config.tests[test_id as int];
                &&& runner.test_id == test_id
                &&& runner.test_name == test.name
                &&& runner.test_url == test.target
                &&& runner.dump_prefix_url == dump_prefix(args.config)
                &&& args.config.config is Some ==> runner.dump_prefix_url
                    == args.config.config->0.dump_prefix_url
                &&& args.config.config is None ==> runner.dump_prefix_url is None
                &&& runner.jsm.retries == test.retries->0
                &&& runner.jsm.recovery == test.recovery->0
                &&& runner.jsm.n_failures == 0
                &&& runner.jsm.n_recoveries == 0
                &&& runner.jsm.state is Normative
                &&& runner.jsm.last_state is Normative
                &&& runner.jsm == JobStateMachine::fresh(test.retries->0, test.recovery->0, now)
                &&& runner.jsm.wf()
            }),
    {
        let test = &args.config.tests[test_id];
        let dump_prefix_url = match &args.config.config {
            Some(internal) => same_text(&internal.dump_prefix_url),
            None => None,
        };
        TestRunner {
            test_id,
            test_name: test.name.clone(),
            test_url: test.target.clone(),
            dump_prefix_url,
            jsm: JobStateMachine::new_at(test.retries.unwrap(), test.recovery.unwrap(), now),
        }
    }

    /// The runner of a test of a configuration, from now on.
    pub fn new(args: &ZuseArgs, test_id: usize) -> (runner: TestRunner)
        requires
            test_id < args.config.tests@.len(),
            args.config.tests[test_id as int].retries is Some,
            args.config.tests[test_id as int].recovery is Some,
        ensures
            ({
                let test = args.config.tests[test_id as int];
                &&& runner.test_id == test_id
                &&& runner.test_name == test.name
                &&& runner.test_url == test.target
                &&& runner.dump_prefix_url == dump_prefix(args.config)
                &&& args.config.config is Some ==> runner.dump_prefix_url
                    == args.config.config->0.dump_prefix_url
                &&& args.config.config is None ==> runner.dump_prefix_url is None
                &&& runner.jsm.retries == test.retries->0
                &&& runner.jsm.recovery == test.recovery->0
                &&& runner.jsm.n_failures == 0
                &&& runner.jsm.n_recoveries == 0
                &&& runner.jsm.state is Normative
                &&& runner.jsm.last_state is Normative
                &&& exists|now: SystemTime|
                    crate::bindings::was_read(now) && runner.jsm
                        == #[trigger] JobStateMachine::fresh(
                        test.retries->0,
                        test.recovery->0,
                        now,
                    )
                &&& crate::bindings::was_read(runner.jsm.last_change)
                &&& runner.jsm.wf()
            }),
    {
        Self::new_at(args, test_id, crate::bindings::clock_now())
    }

    /// What is to be told now that a result has been counted.
    pub fn report(&self, result: &ZuseTestResult) -> (message: Option<ZuseJobMessage>)
        ensures
            message is Some == self.message(self.jsm, result.debug_dump) is Some,
            message matches Some(message) ==> message@ == self.message(
                self.jsm,
                result.debug_dump,
            )->0,
            message is Some <==> self.jsm.state != self.jsm.last_state && self.jsm.state !is Normative,
            message matches Some(message) ==> {
                &&& message.test_id == self.test_id
                &&& message.test_name@ == self.test_name@
                &&& message.test_url@ == self.test_url@
                &&& message.state == self.jsm.state
                &&& message.time_state_lasted == self.jsm.last_state_lasted
                &&& message.dump_used == (self.dump_prefix_url is Some)
                &&& self.dump_prefix_url is Some && result.debug_dump is Some ==> message.dump_url@
                    == self.dump_prefix_url->0@ + "#"@ + crate::bindings::base64_text(
                    result.debug_dump->0@,
                )
                &&& self.dump_prefix_url is None || result.debug_dump is None
                    ==> message.dump_url@.len() == 0
                &&& self.dump_prefix_url is Some ==> message.dump_html@ == "<a href='"@
                    + message.dump_url@ + "'>view dump</a>, "@
                &&& self.dump_prefix_url is None ==> message.dump_html@.len() == 0
            },
    {
        let dump_used = self.dump_prefix_url.is_some();
        let dump_url = dump_url(&self.dump_prefix_url, &result.debug_dump);
        let dump_html = dump_html(dump_used, dump_url.as_str());
        let message = ZuseJobMessage {
            test_id: self.test_id,
            test_name: self.test_name.clone(),
            test_url: self.test_url.clone(),
            dump_html,
            dump_url,
            dump_used,
            time_state_lasted: self.jsm.last_state_lasted,
            state: JobSMStates::Normative,
        };
        if !self.jsm.state_changed() {
            return None;
        }
        match self.jsm.state {
            JobSMStates::Failure => Some(message.with_state(JobSMStates::Failure)),
            JobSMStates::Recovery => Some(message.with_state(JobSMStates::Recovery)),
            JobSMStates::Normative => None,
        }
    }

    /// Whether the recovery of the test has just been told.
    fn has_recovered(&self) -> (recovered: bool)
        ensures
            recovered == (news(self.jsm) == Some(JobSMStates::Recovery)),
    {
        self.jsm.state_changed() && self.jsm.state == JobSMStates::Recovery
    }

    /// Counts a result, with what the clock shows at that moment.
    pub fn count_at(&mut self, status: ZuseRunnerStatus, reading: ClockReading)
        requires
            old(self).can_count(status),
        ensures
            final(self).same_test(*old(self)),
            final(self).test_id == old(self).test_id,
            final(self).test_name == old(self).test_name,
            final(self).test_url == old(self).test_url,
            final(self).dump_prefix_url == old(self).dump_prefix_url,
            final(self).jsm == counted(old(self).jsm, status, reading),
            final(self).jsm.wf(),
    {
        match status {
            ZuseRunnerStatus::Success => self.jsm.win_at(reading),
            ZuseRunnerStatus::Failure => self.jsm.loss_at(reading),
        }
    }

    /// Counts a result.
    pub fn count(&mut self, status: ZuseRunnerStatus)
        requires
            old(self).can_count(status),
        ensures
            final(self).same_test(*old(self)),
            final(self).test_id == old(self).test_id,
            final(self).test_name == old(self).test_name,
            final(self).test_url == old(self).test_url,
            final(self).dump_prefix_url == old(self).dump_prefix_url,
            exists|reading: ClockReading|
                reading.counts_from(old(self).jsm.last_change) && final(self).jsm
                    == #[trigger] counted(old(self).jsm, status, reading),
            final(self).jsm.state != old(self).jsm.state ==> crate::bindings::was_read(
                final(self).jsm.last_change,
            ),
            final(self).jsm.state != old(self).jsm.state ==> final(self).jsm.last_state_lasted == (
            match crate::bindings::seconds_between(
                old(self).jsm.last_change,
                final(self).jsm.last_change,
            ) {
                Some(seconds) => seconds,
                None => 0,
            }),
            final(self).jsm.state == old(self).jsm.state ==> final(self).jsm.last_change == old(
                self,
            ).jsm.last_change,
            final(self).jsm.state == old(self).jsm.state ==> final(self).jsm.last_state_lasted == old(
                self,
            ).jsm.last_state_lasted,
            final(self).jsm.wf(),
    {
        let ghost before = self.jsm;
        match status {
            ZuseRunnerStatus::Success => {
                self.jsm.win();
                proof {
                    let reading = choose|reading: ClockReading|
                        reading.counts_from(before.last_change) && self.jsm
                            == #[trigger] before.won(reading);
                    assert(self.jsm == counted(before, status, reading));
                }
            },
            ZuseRunnerStatus::Failure => {
                self.jsm.loss();
                proof {
                    let reading = choose|reading: ClockReading|
                        reading.counts_from(before.last_change) && self.jsm
                            == #[trigger] before.lost(reading);
                    assert(self.jsm == counted(before, status, reading));
                }
            },
        }
    }

    /// Gives what is to be told now that a result has been counted, and ends a
    /// recovery, with what the clock shows at that moment.
    pub fn tell_at(&mut self, result: &ZuseTestResult, reading: ClockReading) -> (message: Option<
        ZuseJobMessage,
    >)
        ensures
            old(self).tells(*result, *final(self), message),
            message is Some <==> old(self).jsm.state != old(self).jsm.last_state && old(self).jsm.state !is Normative,
            message matches Some(message) ==> {
                &&& message.test_id == old(self).test_id
                &&& message.test_name@ == old(self).test_name@
                &&& message.test_url@ == old(self).test_url@
                &&& message.state == old(self).jsm.state
                &&& message.time_state_lasted == old(self).jsm.last_state_lasted
                &&& message.dump_used == (old(self).dump_prefix_url is Some)
                &&& old(self).dump_prefix_url is Some && result.debug_dump is Some ==> message.dump_url@
                    == old(self).dump_prefix_url->0@ + "#"@ + crate::bindings::base64_text(
                    result.debug_dump->0@,
                )
                &&& old(self).dump_prefix_url is None || result.debug_dump is None
                    ==> message.dump_url@.len() == 0
                &&& old(self).dump_prefix_url is Some ==> message.dump_html@ == "<a href='"@
                    + message.dump_url@ + "'>view dump</a>, "@
                &&& old(self).dump_prefix_url is None ==> message.dump_html@.len() == 0
            },
            final(self).test_id == old(self).test_id,
            final(self).test_name == old(self).test_name,
            final(self).test_url == old(self).test_url,
            final(self).dump_prefix_url == old(self).dump_prefix_url,
            message is Some && old(self).jsm.state is Recovery ==> final(self).jsm.state is Normative,
            !(message is Some && old(self).jsm.state is Recovery) ==> final(self).jsm == old(
                self,
            ).jsm,
            final(self).jsm.n_failures == old(self).jsm.n_failures,
            final(self).jsm.n_recoveries == old(self).jsm.n_recoveries,
            final(self).jsm == told(old(self).jsm, reading),
            old(self).jsm.wf() ==> final(self).jsm.wf(),
    {
        let message = self.report(result);
        if self.has_recovered() {
            self.jsm.normative_at(reading);
        }
        message
    }

    /// Gives what is to be told now that a result has been counted, and ends a
    /// recovery.
    pub fn tell(&mut self, result: &ZuseTestResult) -> (message: Option<ZuseJobMessage>)
        ensures
            old(self).tells(*result, *final(self), message),
            message is Some <==> old(self).jsm.state != old(self).jsm.last_state && old(self).jsm.state !is Normative,
            message matches Some(message) ==> {
                &&& message.test_id == old(self).test_id
                &&& message.test_name@ == old(self).test_name@
                &&& message.test_url@ == old(self).test_url@
                &&& message.state == old(self).jsm.state
                &&& message.time_state_lasted == old(self).jsm.last_state_lasted
                &&& message.dump_used == (old(self).dump_prefix_url is Some)
                &&& old(self).dump_prefix_url is Some && result.debug_dump is Some ==> message.dump_url@
                    == old(self).dump_prefix_url->0@ + "#"@ + crate::bindings::base64_text(
                    result.debug_dump->0@,
                )
                &&& old(self).dump_prefix_url is None || result.debug_dump is None
                    ==> message.dump_url@.len() == 0
                &&& old(self).dump_prefix_url is Some ==> message.dump_html@ == "<a href='"@
                    + message.dump_url@ + "'>view dump</a>, "@
                &&& old(self).dump_prefix_url is None ==> message.dump_html@.len() == 0
            },
            final(self).test_id == old(self).test_id,
            final(self).test_name == old(self).test_name,
            final(self).test_url == old(self).test_url,
            final(self).dump_prefix_url == old(self).dump_prefix_url,
            message is Some && old(self).jsm.state is Recovery ==> final(self).jsm.state is Normative,
            !(message is Some && old(self).jsm.state is Recovery) ==> final(self).jsm == old(
                self,
            ).jsm,
            final(self).jsm.n_failures == old(self).jsm.n_failures,
            final(self).jsm.n_recoveries == old(self).jsm.n_recoveries,
            exists|reading: ClockReading|
                reading.counts_from(old(self).jsm.last_change) && final(self).jsm
                    == #[trigger] told(old(self).jsm, reading),
            old(self).jsm.wf() ==> final(self).jsm.wf(),
    {
        let ghost before = self.jsm;
        let message = self.report(result);
        if self.has_recovered() {
            self.jsm.normative();
            proof {
                let reading = choose|reading: ClockReading|
                    reading.counts_from(before.last_change) && self.jsm
                        == #[trigger] before.settled(reading);
                assert(self.jsm == told(before, reading));
            }
        } else {
            proof {
                crate::bindings::clock_can_be_read();
                let now = choose|time: SystemTime| crate::bindings::was_read(time);
                let elapsed = crate::bindings::seconds_between(before.last_change, now);
                let reading = ClockReading { elapsed, now };
                assert(reading.counts_from(before.last_change));
                assert(self.jsm == told(before, reading));
            }
        }
        message
    }

    /// Takes note of a result, by what the clock shows when it is counted and when
    /// a recovery is told, and gives what is to be told.
    pub fn round_at(
        &mut self,
        result: &ZuseTestResult,
        counting: ClockReading,
        telling: ClockReading,
    ) -> (message: Option<ZuseJobMessage>)
        requires
            old(self).can_count(result.status),
        ensures
            old(self).round_leads_to(*result, counting, telling, *final(self), message),
            final(self).jsm.wf(),
    {
        self.count_at(result.status, counting);
        self.tell_at(result, telling)
    }

    /// Takes note of a result, and gives what is to be told.
    pub fn round(&mut self, result: &ZuseTestResult) -> (message: Option<ZuseJobMessage>)
        requires
            old(self).can_count(result.status),
        ensures
            exists|counting: ClockReading, telling: ClockReading|
                counting.counts_from(old(self).jsm.last_change) && telling.counts_from(
                    counted(old(self).jsm, result.status, counting).last_change,
                ) && #[trigger] old(self).round_leads_to(
                    *result,
                    counting,
                    telling,
                    *final(self),
                    message,
                ),
            final(self).jsm.wf(),
    {
        let ghost before = self.jsm;
        self.count(result.status);
        let ghost middle = self.jsm;
        let message = self.tell(result);
        proof {
            let counting = choose|reading: ClockReading|
                reading.counts_from(before.last_change) && middle
                    == #[trigger] counted(before, result.status, reading);
            let telling = choose|reading: ClockReading|
                reading.counts_from(middle.last_change) && self.jsm
                    == #[trigger] told(middle, reading);
            assert(old(self).round_leads_to(*result, counting, telling, *self, message));
        }
        message
    }
}

} // verus!
