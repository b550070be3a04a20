//! What single operations promise, in terms of what goes in and what comes out.

use crate::config::{
    ZuseConfigDefaults, ZuseConfigNotifier, ZuseConfigNotifierChannel, ZuseConfigNotifierTemplates,
    ZuseConfigNotifierType, ZuseConfigNotifyGroups, ZuseConfigTest, ZuseConfigTestType,
};
use crate::error::{Setting, SetupError};
use crate::job::{ClockReading, JobSMStates, JobStateMachine};
use crate::message::ZuseJobMessage;
use crate::runner::{TestRunner, ZuseRunnerStatus};
use crate::setup::{SetupAction, SetupPosition, SnsCredentials, ZuseChannel};
use crate::setup::{ZuseChannelType, ZuseNotifyType};
use crate::zuse::{Delivery, SendError, Zuse};
use vstd::prelude::*;

verus! {

/// Whichever step it is: a state that is left lasted from when it was entered to
/// the reading of the clock, which is when the next one is entered; and a state
/// that stays keeps both times.
pub proof fn law_left_state_lasted_until_the_reading(
    jsm: JobStateMachine,
    state: JobSMStates,
    reading: ClockReading,
    next: JobStateMachine,
)
    requires
        reading.elapsed == crate::bindings::seconds_between(jsm.last_change, reading.now),
        next == jsm.entered(state, reading) || next == jsm.lost(reading) || next == jsm.won(reading)
            || next == jsm.settled(reading),
    ensures
        next.state != jsm.state ==> {
            &&& next.last_change == reading.now
            &&& crate::bindings::seconds_between(jsm.last_change, next.last_change) is Some
                ==> next.last_state_lasted == crate::bindings::seconds_between(
                jsm.last_change,
                next.last_change,
            )->0
            &&& crate::bindings::seconds_between(jsm.last_change, next.last_change) is None
                ==> next.last_state_lasted == 0
            &&& next.last_state == jsm.state
        },
        next.state == jsm.state ==> {
            &&& next.last_change == jsm.last_change
            &&& next.last_state_lasted == jsm.last_state_lasted
        },
        next.retries == jsm.retries,
        next.recovery == jsm.recovery,
{
}

/// What a step leads to: entering a state gives that state, a failure leads to the
/// failing state once it makes the retries full and at once during a recovery, a
/// pass leads out of it once it makes the recoveries full, and a recovery ends in
/// the normative state.
pub proof fn law_states_follow_from_counts(
    jsm: JobStateMachine,
    state: JobSMStates,
    reading: ClockReading,
)
    requires
        jsm.n_failures < u64::MAX,
        jsm.n_recoveries < u64::MAX,
    ensures
        jsm.entered(state, reading).state == state,
        jsm.lost(reading).n_failures == jsm.n_failures + 1,
        jsm.lost(reading).n_recoveries == 0,
        jsm.lost(reading).state is Normative <==> jsm.state is Normative && jsm.n_failures + 1
            < jsm.retries,
        jsm.lost(reading).state !is Recovery,
        jsm.state is Normative ==> {
            &&& jsm.won(reading).state is Normative
            &&& jsm.won(reading).n_failures == 0
        },
        jsm.state is Failure && jsm.n_recoveries + 1 < jsm.recovery ==> {
            &&& jsm.won(reading).state is Failure
            &&& jsm.won(reading).n_recoveries == jsm.n_recoveries + 1
            &&& jsm.won(reading).n_failures == jsm.n_failures
        },
        jsm.state is Failure && jsm.n_recoveries + 1 >= jsm.recovery ==> {
            &&& jsm.won(reading).state is Recovery
            &&& jsm.won(reading).n_recoveries == 0
            &&& jsm.won(reading).n_failures == 0
        },
        jsm.state is Recovery ==> {
            &&& jsm.won(reading).state is Recovery
            &&& jsm.settled(reading).state is Normative
        },
        jsm.state !is Recovery ==> jsm.settled(reading) == jsm,
        jsm.settled(reading).n_failures == jsm.n_failures,
        jsm.settled(reading).n_recoveries == jsm.n_recoveries,
        jsm.entered(state, reading).n_failures == jsm.n_failures,
        jsm.entered(state, reading).n_recoveries == jsm.n_recoveries,
        jsm.entered(state, reading).last_state == jsm.state,
        jsm.state is Failure ==> jsm.lost(reading).last_state is Failure,
        jsm.lost(reading).state is Normative ==> jsm.lost(reading).last_state == jsm.last_state,
        jsm.state is Normative ==> jsm.won(reading).last_state is Normative,
        jsm.state is Recovery ==> jsm.won(reading).last_state is Recovery,
        jsm.won(reading).state is Failure ==> jsm.won(reading).last_state == jsm.last_state,
        jsm.changed() <==> jsm.last_state != jsm.state,
{
}

/// The message of a recovery says how long the test had been failing: the whole
/// seconds from when the failing state was entered to the reading with which the
/// last pass was counted.
pub proof fn law_recovery_tells_how_long_the_failure_lasted(
    runner: TestRunner,
    counting: ClockReading,
    dump: Option<String>,
)
    requires
        runner.jsm.state is Failure,
        runner.jsm.n_recoveries + 1 >= runner.jsm.recovery,
        counting.elapsed == crate::bindings::seconds_between(
            runner.jsm.last_change,
            counting.now,
        ),
    ensures
        ({
            let counted = crate::runner::counted(
                runner.jsm,
                ZuseRunnerStatus::Success,
                counting,
            );
            &&& runner.message(counted, dump) is Some
            &&& runner.message(counted, dump)->0.state is Recovery
            &&& crate::bindings::seconds_between(runner.jsm.last_change, counting.now) is Some
                ==> runner.message(counted, dump)->0.time_state_lasted
                == crate::bindings::seconds_between(runner.jsm.last_change, counting.now)->0
        }),
{
}

/// However the rounds of an outage went: its recovery tells the whole seconds from
/// when the failing state was entered to the reading of the last round.
pub proof fn law_outage_is_told_from_its_beginning(
    jsm: JobStateMachine,
    rounds: Seq<crate::laws::Round>,
)
    requires
        jsm.state is Failure,
        jsm.n_recoveries == 0,
        rounds.len() > 0,
        crate::laws::never_in_a_row(
            rounds.drop_last(),
            ZuseRunnerStatus::Success,
            crate::laws::in_a_row(jsm.recovery),
        ),
        crate::laws::trailing(rounds, ZuseRunnerStatus::Success) >= crate::laws::in_a_row(
            jsm.recovery,
        ),
        ({
            let before = crate::laws::after_rounds(jsm, rounds.drop_last());
            rounds.last().counting.elapsed == crate::bindings::seconds_between(
                before.last_change,
                rounds.last().counting.now,
            )
        }),
    ensures
        ({
            let counted = crate::runner::counted(
                crate::laws::after_rounds(jsm, rounds.drop_last()),
                rounds.last().status,
                rounds.last().counting,
            );
            &&& counted.state is Recovery
            &&& counted.last_state_lasted == (match crate::bindings::seconds_between(
                jsm.last_change,
                rounds.last().counting.now,
            ) {
                Some(seconds) => seconds,
                None => 0,
            })
        }),
{
    crate::laws::law_recovery_is_told_at_the_first_full_run(jsm, rounds);
    failing_since(jsm, rounds.drop_last());
}

/// A test that has not recovered has been failing since the same time.
proof fn failing_since(jsm: JobStateMachine, rounds: Seq<crate::laws::Round>)
    requires
        jsm.state is Failure,
        jsm.n_recoveries == 0,
        crate::laws::never_in_a_row(
            rounds,
            ZuseRunnerStatus::Success,
            crate::laws::in_a_row(jsm.recovery),
        ),
    ensures
        crate::laws::after_rounds(jsm, rounds).state is Failure,
        crate::laws::after_rounds(jsm, rounds).last_change == jsm.last_change,
        crate::laws::after_rounds(jsm, rounds).recovery == jsm.recovery,
        crate::laws::after_rounds(jsm, rounds).n_recoveries == crate::laws::trailing(
            rounds,
            ZuseRunnerStatus::Success,
        ),
    decreases rounds.len(),
{
    if rounds.len() > 0 {
        let earlier = rounds.drop_last();
        assert forall|k: int| 0 <= k <= earlier.len() implies crate::laws::trailing(
            #[trigger] earlier.take(k),
            ZuseRunnerStatus::Success,
        ) < crate::laws::in_a_row(jsm.recovery) by {
            assert(earlier.take(k) =~= rounds.take(k));
        }
        assert(rounds.take(rounds.len() as int) =~= rounds);
        failing_since(jsm, earlier);
    }
}

/// A message is about the test of its runner and the state that was just entered,
/// and links the dump of the result where dumps have an address to go to.
pub proof fn law_message_is_about_the_test(
    runner: TestRunner,
    jsm: JobStateMachine,
    dump: Option<String>,
)
    ensures
        runner.message(jsm, dump) is Some <==> jsm.last_state != jsm.state && (jsm.state is Failure
            || jsm.state is Recovery),
        runner.message(jsm, dump) matches Some(message) ==> {
            &&& message.test_id == runner.test_id
            &&& message.test_name == runner.test_name@
            &&& message.test_url == runner.test_url@
            &&& message.state == jsm.state
            &&& message.time_state_lasted == jsm.last_state_lasted
            &&& message.dump_used <==> runner.dump_prefix_url is Some
            &&& runner.dump_prefix_url is Some && dump is Some ==> message.dump_url
                == runner.dump_prefix_url->0@ + "#"@ + crate::bindings::base64_text(dump->0@)
            &&& runner.dump_prefix_url is None || dump is None ==> message.dump_url.len() == 0
            &&& message.dump_used ==> message.dump_html == "<a href='"@ + message.dump_url
                + "'>view dump</a>, "@
            &&& !message.dump_used ==> message.dump_html.len() == 0
        },
{
}

/// Whether positions come one after the other.
pub open spec fn ascending(positions: Seq<int>) -> bool {
    forall|i: int, j: int| 0 <= i < j < positions.len() ==> positions[i] < positions[j]
}

/// Of a list of names, those that are known are reached, each at every place where
/// it is listed, in the order of the list, and nothing else is.
pub proof fn law_known_names_are_reached(channels: Map<Seq<char>, ZuseChannel>, listed: Seq<String>)
    ensures
        exists|positions: Seq<int>|
            {
                &&& #[trigger] ascending(positions)
                &&& positions.len() == crate::zuse::reached(channels, listed, listed.len()).len()
                &&& forall|i: int|
                    0 <= i < positions.len() ==> {
                        &&& 0 <= #[trigger] positions[i] < listed.len()
                        &&& channels.contains_key(listed[positions[i]]@)
                        &&& crate::zuse::reached(channels, listed, listed.len())[i]
                            == channels[listed[positions[i]]@]
                    }
                &&& forall|k: int|
                    0 <= k < listed.len() && channels.contains_key((#[trigger] listed[k])@)
                        ==> positions.contains(k)
            },
{
    let positions = known_positions(channels, listed, listed.len());
    assert(ascending(positions));
}

/// Where the known ones of the first few names stand.
proof fn known_positions(
    channels: Map<Seq<char>, ZuseChannel>,
    listed: Seq<String>,
    count: nat,
) -> (positions: Seq<int>)
    requires
        count <= listed.len(),
    ensures
        ascending(positions),
        positions.len() == crate::zuse::reached(channels, listed, count).len(),
        forall|i: int|
            0 <= i < positions.len() ==> {
                &&& 0 <= #[trigger] positions[i] < count
                &&& channels.contains_key(listed[positions[i]]@)
                &&& crate::zuse::reached(channels, listed, count)[i]
                    == channels[listed[positions[i]]@]
            },
        forall|k: int|
            0 <= k < count && channels.contains_key((#[trigger] listed[k])@) ==> positions.contains(
                k,
            ),
    decreases count,
{
    if count == 0 {
        Seq::empty()
    } else {
        let before = known_positions(channels, listed, (count - 1) as nat);
        let last = count - 1;
        if channels.contains_key(listed[last]@) {
            let positions = before.push(last);
            assert forall|k: int|
                0 <= k < count && channels.contains_key(
                    (#[trigger] listed[k])@,
                ) implies positions.contains(k) by {
                if k == last {
                    assert(positions[before.len() as int] == last);
                } else {
                    let i = choose|i: int| 0 <= i < before.len() && before[i] == k;
                    assert(positions[i] == k);
                }
            }
            positions
        } else {
            before
        }
    }
}

/// How many members the first few of some groups have.
pub open spec fn members_before(
    groups: Map<Seq<char>, Vec<String>>,
    listed: Seq<String>,
    count: int,
) -> int
    decreases count,
{
    if count <= 0 {
        0
    } else {
        members_before(groups, listed, count - 1) + groups[listed[count - 1]@]@.len()
    }
}

/// A member of one of some groups.
pub open spec fn member(
    groups: Map<Seq<char>, Vec<String>>,
    listed: Seq<String>,
    g: int,
    k: int,
) -> String {
    groups[listed[g]@]@[k]
}

/// Where the members of the first few groups stand.
proof fn members_in_order(
    groups: Map<Seq<char>, Vec<String>>,
    listed: Seq<String>,
    count: nat,
    g: int,
    k: int,
)
    requires
        count <= listed.len(),
        0 <= g < count ==> 0 <= k < groups[listed[g]@]@.len(),
    ensures
        crate::zuse::members(groups, listed, count).len() == members_before(
            groups,
            listed,
            count as int,
        ),
        0 <= g < count ==> {
            &&& 0 <= members_before(groups, listed, g) + k < crate::zuse::members(
                groups,
                listed,
                count,
            ).len()
            &&& crate::zuse::members(groups, listed, count)[members_before(groups, listed, g) + k]
                == member(groups, listed, g, k)
        },
    decreases count,
{
    if count > 0 {
        members_in_order(groups, listed, (count - 1) as nat, g, k);
        let before = crate::zuse::members(groups, listed, (count - 1) as nat);
        let all = crate::zuse::members(groups, listed, count);
        let at = members_before(groups, listed, g) + k;
        if 0 <= g < count - 1 {
            assert(all[at] == before[at]);
        } else if g == count - 1 {
            assert(at == before.len() + k);
            assert(all[at] == groups[listed[g]@]@[k]);
        }
    }
}

/// A message goes to the channels that its test names, each in its place, and then
/// for each group that it names to the members of the group, each in its place;
/// and to no others.
pub proof fn law_message_goes_to_names_then_members(zuse: Zuse, test_id: int)
    requires
        zuse.wf(),
        0 <= test_id < zuse.args.config.tests@.len(),
    ensures
        ({
            let test = zuse.args.config.tests@[test_id];
            let told = zuse.told_channels(test);
            let own = match test.notify {
                Some(notify) => notify@,
                None => Seq::empty(),
            };
            let listed = match test.notify_groups {
                Some(groups) => groups@,
                None => Seq::empty(),
            };
            let groups = zuse.notify_groups@;
            &&& told.len() == own.len() + members_before(groups, listed, listed.len() as int)
            &&& forall|i: int|
                0 <= i < own.len() ==> {
                    &&& zuse.channels@.contains_key((#[trigger] own[i])@)
                    &&& told[i] == zuse.channels@[own[i]@]
                }
            &&& forall|g: int, k: int|
                #![trigger member(groups, listed, g, k)]
                0 <= g < listed.len() && 0 <= k < groups[listed[g]@]@.len() ==> {
                    &&& groups.contains_key(listed[g]@)
                    &&& zuse.channels@.contains_key(member(groups, listed, g, k)@)
                    &&& told[own.len() + members_before(groups, listed, g) + k]
                        == zuse.channels@[member(groups, listed, g, k)@]
                }
        }),
{
    let test = zuse.args.config.tests@[test_id];
    let told = zuse.told_channels(test);
    let names = zuse.told_names(test);
    let own = match test.notify {
        Some(notify) => notify@,
        None => Seq::empty(),
    };
    let listed = match test.notify_groups {
        Some(groups) => groups@,
        None => Seq::empty(),
    };
    let groups = zuse.notify_groups@;
    let members = crate::zuse::members(groups, listed, listed.len());
    crate::laws::law_every_name_is_told(zuse, test_id);
    members_in_order(groups, listed, listed.len(), -1, 0);
    assert(names == own + members);
    assert forall|i: int| 0 <= i < own.len() implies {
        &&& zuse.channels@.contains_key((#[trigger] own[i])@)
        &&& told[i] == zuse.channels@[own[i]@]
    } by {
        assert(names[i] == own[i]);
    }
    assert forall|g: int, k: int|
        #![trigger member(groups, listed, g, k)]
        0 <= g < listed.len() && 0 <= k < groups[listed[g]@]@.len() implies {
        &&& groups.contains_key(listed[g]@)
        &&& zuse.channels@.contains_key(member(groups, listed, g, k)@)
        &&& told[own.len() + members_before(groups, listed, g) + k]
            == zuse.channels@[member(groups, listed, g, k)@]
    } by {
        assert(zuse.can_run(zuse.args.config.tests@[test_id]));
        assert(crate::validate::names(test.notify_groups)[g] == listed[g]);
        let at = members_before(groups, listed, g) + k;
        members_in_order(groups, listed, listed.len(), g, k);
        assert(members[at] == member(groups, listed, g, k));
        assert(names[own.len() + at] == members[at]);
    }
}

/// What is delivered for a channel goes where the channel says, and carries what
/// was built.
pub proof fn law_delivery_goes_where_the_channel_says(
    notifier: ZuseNotifyType,
    channel: ZuseChannelType,
    built: (Seq<char>, Seq<char>, Seq<char>),
    outcome: Result<Delivery, SendError>,
)
    requires
        crate::zuse::delivers(notifier, channel, built, outcome),
    ensures
        notifier is Sns && channel is Sns ==> {
            &&& outcome is Ok
            &&& outcome->Ok_0 is Sns
            &&& outcome->Ok_0->Sns_0.phone_number == channel->Sns_0
            &&& outcome->Ok_0->Sns_0.target_arn == channel->Sns_1
            &&& outcome->Ok_0->Sns_0.topic_arn == channel->Sns_2
            &&& outcome->Ok_0->Sns_0.subject@ == built.1
            &&& outcome->Ok_0->Sns_0.message@ == built.2
            &&& outcome->Ok_0->Sns_0.attributes@.len() == 2
            &&& outcome->Ok_0->Sns_0.attributes@[0].name@ == "DefaultSenderID"@
            &&& outcome->Ok_0->Sns_0.attributes@[0].data_type@ == "String"@
            &&& outcome->Ok_0->Sns_0.attributes@[0].value@ == built.0
            &&& outcome->Ok_0->Sns_0.attributes@[1].name@ == "DefaultSMSType"@
            &&& outcome->Ok_0->Sns_0.attributes@[1].data_type@ == "String"@
            &&& outcome->Ok_0->Sns_0.attributes@[1].value@ == "Transactional"@
        },
        notifier is Telegram && channel is Telegram && crate::text::parsed_i64(
            channel->Telegram_0@,
        ) is Some ==> {
            &&& outcome is Ok
            &&& outcome->Ok_0 is Telegram
            &&& Some(outcome->Ok_0->chat_id) == crate::text::parsed_i64(channel->Telegram_0@)
            &&& outcome->Ok_0->text@ == built.2
            &&& outcome->Ok_0->html
            &&& !outcome->Ok_0->preview
        },
        notifier is Telegram && channel is Telegram && crate::text::parsed_i64(
            channel->Telegram_0@,
        ) is None ==> outcome matches Err(SendError::NoChat),
        notifier is Telegram && channel is Sns ==> outcome matches Err(SendError::NoChat),
        notifier is Sns && channel is Telegram ==> outcome matches Ok(Delivery::Nothing),
{
}

/// What is sent to a channel goes where the configuration lists it: to the chat of
/// its id with the HTML text of its notifier, or to the phone, the target or the
/// topic that it names, with the subject, the text and the sender of its notifier.
pub proof fn law_message_goes_where_the_configuration_says(
    zuse: Zuse,
    name: Seq<char>,
    m: int,
    k: int,
    msg: ZuseJobMessage,
    outcome: Result<Delivery, SendError>,
)
    requires
        zuse.wf(),
        ({
            let notifiers = zuse.args.config.notifiers@;
            &&& 0 <= m < notifiers.len()
            &&& 0 <= k < notifiers[m].channels@.len()
            &&& notifiers[m].channels@[k].name@ == name
            &&& forall|n: int, j: int|
                0 <= n < notifiers.len() && 0 <= j < notifiers[n].channels@.len() && (
                #[trigger] notifiers[n].channels@[j]).name@ == name ==> n < m || n == m && j <= k
        }),
        zuse.sends(zuse.channels@[name], msg, outcome),
        outcome is Ok,
    ensures
        zuse.channels@.contains_key(name),
        zuse.channels@[name].0 == m,
        ({
            let notifier = zuse.args.config.notifiers@[m];
            let channel = notifier.channels@[k];
            &&& notifier.notifier_type is Sns ==> {
                &&& outcome->Ok_0 is Sns
                &&& outcome->Ok_0->Sns_0.phone_number == channel.phone
                &&& outcome->Ok_0->Sns_0.target_arn == channel.target_arn
                &&& outcome->Ok_0->Sns_0.topic_arn == channel.topic_arn
                &&& Some(outcome->Ok_0->Sns_0.subject@) == msg@.rendering(
                    crate::message::subject_template(msg.state, notifier),
                )
                &&& Some(outcome->Ok_0->Sns_0.message@) == msg@.rendering(
                    crate::message::plain_template(msg.state, notifier),
                )
                &&& outcome->Ok_0->Sns_0.attributes@[0].value@ == (match notifier.sender_id {
                    Some(sender) => sender@,
                    None => "NOTICE"@,
                })
            }
            &&& notifier.notifier_type is Telegram ==> {
                &&& outcome->Ok_0 is Telegram
                &&& channel.id is Some
                &&& Some(outcome->Ok_0->chat_id) == crate::text::parsed_i64(channel.id->0@)
                &&& Some(outcome->Ok_0->text@) == msg@.rendering(
                    crate::message::html_template(msg.state, notifier),
                )
                &&& outcome->Ok_0->html
                &&& !outcome->Ok_0->preview
            }
        }),
{
    let notifiers = zuse.args.config.notifiers@;
    let count = zuse.args.config.notifiers.len();
    assert(crate::laws::named_before(notifiers, notifiers.len(), 0, name, m, k));
    assert forall|n: int, j: int| #[trigger]
        crate::laws::named_before(notifiers, notifiers.len(), 0, name, n, j) implies n < m || n == m
        && j <= k by {
        assert(notifiers[n].channels@[j].name@ == name);
    }
    assert(crate::laws::last_named_before(notifiers, notifiers.len(), 0, name, m, k));
    crate::laws::law_last_channel_with_a_name_stays(zuse, name);
    assert(m < count);
    assert(crate::setup::is_usable(notifiers[m].notifier_type, notifiers[m].channels@[k]));
    crate::laws::connected_at_slot(notifiers, notifiers.len(), m as nat);
}

/// A template that a notifier has for a state is used for it; one that it leaves
/// out is the default of its own kind, whatever else the notifier sets.
pub proof fn law_templates_are_those_of_the_state(notifier: ZuseConfigNotifier)
    ensures
        ({
            let own = notifier.templates;
            let alert = JobSMStates::Failure;
            let resolve = JobSMStates::Recovery;
            let subject = "ALRT {{test_name}}"@;
            let html = "<b>ALRT</b> Uptime checks failed on '{{test_name}}'. (url: {{test_url}})"@;
            let plain = "ALRT Uptime checks failed on '{{test_name}}'. (url: {{test_url}})"@;
            &&& own is Some && own->0.alert_subject is Some ==> crate::message::subject_template(
                alert,
                notifier,
            ) == own->0.alert_subject->0@
            &&& own is Some && own->0.alert_html is Some ==> crate::message::html_template(
                alert,
                notifier,
            ) == own->0.alert_html->0@
            &&& own is Some && own->0.alert_plain is Some ==> crate::message::plain_template(
                alert,
                notifier,
            ) == own->0.alert_plain->0@
            &&& own is Some && own->0.resolve_subject is Some
                ==> crate::message::subject_template(resolve, notifier)
                == own->0.resolve_subject->0@
            &&& own is Some && own->0.resolve_html is Some ==> crate::message::html_template(
                resolve,
                notifier,
            ) == own->0.resolve_html->0@
            &&& own is Some && own->0.resolve_plain is Some ==> crate::message::plain_template(
                resolve,
                notifier,
            ) == own->0.resolve_plain->0@
            &&& own is None || own->0.alert_subject is None ==> crate::message::subject_template(
                alert,
                notifier,
            ) == subject
            &&& own is None || own->0.alert_html is None ==> crate::message::html_template(
                alert,
                notifier,
            ) == html
            &&& own is None || own->0.alert_plain is None ==> crate::message::plain_template(
                alert,
                notifier,
            ) == plain
            &&& own is None || own->0.resolve_subject is None
                ==> crate::message::subject_template(resolve, notifier) == "RSVL {{test_name}}"@
            &&& own is None || own->0.resolve_html is None ==> crate::message::html_template(
                resolve,
                notifier,
            )
                == "<b>RSLV</b> Uptime checks recovered on '{{test_name}}'. (duration={{time_state_lasted}}s, url: {{test_url}})"@
            &&& own is None || own->0.resolve_plain is None ==> crate::message::plain_template(
                resolve,
                notifier,
            )
                == "RSLV Uptime checks recovered on '{{test_name}}'. (duration={{time_state_lasted}}s, url: {{test_url}})"@
        }),
{
}

/// An alert does not depend on the templates of a recovery, nor a recovery on those
/// of an alert.
pub proof fn law_templates_of_the_other_state_have_no_effect(
    one: ZuseConfigNotifier,
    other: ZuseConfigNotifier,
    ones: ZuseConfigNotifierTemplates,
    others: ZuseConfigNotifierTemplates,
)
    requires
        one.notifier_type == other.notifier_type,
        one.templates == Some(ones),
        other.templates == Some(others),
    ensures
        ones.alert_subject == others.alert_subject && ones.alert_html == others.alert_html
            && ones.alert_plain == others.alert_plain ==> {
            let state = JobSMStates::Failure;
            &&& crate::message::subject_template(state, one) == crate::message::subject_template(
                state,
                other,
            )
            &&& crate::message::html_template(state, one) == crate::message::html_template(
                state,
                other,
            )
            &&& crate::message::plain_template(state, one) == crate::message::plain_template(
                state,
                other,
            )
            &&& crate::message::body_template(state, one) == crate::message::body_template(
                state,
                other,
            )
        },
        ones.resolve_subject == others.resolve_subject && ones.resolve_html == others.resolve_html
            && ones.resolve_plain == others.resolve_plain ==> {
            let state = JobSMStates::Recovery;
            &&& crate::message::subject_template(state, one) == crate::message::subject_template(
                state,
                other,
            )
            &&& crate::message::html_template(state, one) == crate::message::html_template(
                state,
                other,
            )
            &&& crate::message::plain_template(state, one) == crate::message::plain_template(
                state,
                other,
            )
            &&& crate::message::body_template(state, one) == crate::message::body_template(
                state,
                other,
            )
        },
{
}

/// Telegram gets the text in HTML and SNS the one without markup, and a message
/// comes from the sender that the notifier names.
pub proof fn law_text_and_sender_follow_from_the_notifier(
    state: JobSMStates,
    notifier: ZuseConfigNotifier,
)
    ensures
        notifier.notifier_type is Telegram ==> crate::message::body_template(state, notifier)
            == crate::message::html_template(state, notifier),
        notifier.notifier_type is Sns ==> crate::message::body_template(state, notifier)
            == crate::message::plain_template(state, notifier),
        notifier.sender_id is Some ==> crate::message::sender(notifier) == notifier.sender_id->0@,
        notifier.sender_id is None ==> crate::message::sender(notifier) == "NOTICE"@,
{
}

/// What a template can name: every field of a message, under its name.
pub proof fn law_template_can_name_every_field(message: crate::message::JobMessageView)
    requires
        message.test_id <= u64::MAX,
    ensures
        message.numbers().len() == 2,
        message.texts().len() == 5,
        message.flags().len() == 1,
        exists|i: int|
            0 <= i < 2 && (#[trigger] message.numbers()[i]).0 == "test_id"@
                && message.numbers()[i].1 == message.test_id,
        exists|i: int|
            0 <= i < 2 && #[trigger] message.numbers()[i] == (
                "time_state_lasted"@,
                message.time_state_lasted,
            ),
        exists|i: int|
            0 <= i < 5 && #[trigger] message.texts()[i] == ("test_name"@, message.test_name),
        exists|i: int|
            0 <= i < 5 && #[trigger] message.texts()[i] == ("test_url"@, message.test_url),
        exists|i: int|
            0 <= i < 5 && #[trigger] message.texts()[i] == ("dump_html"@, message.dump_html),
        exists|i: int|
            0 <= i < 5 && #[trigger] message.texts()[i] == ("dump_url"@, message.dump_url),
        exists|i: int|
            0 <= i < 5 && #[trigger] message.texts()[i] == (
                "state"@,
                match message.state {
                    JobSMStates::Normative => "Normative"@,
                    JobSMStates::Failure => "Failure"@,
                    JobSMStates::Recovery => "Recovery"@,
                },
            ),
        message.flags()[0] == ("dump_used"@, message.dump_used),
{
    assert(message.numbers()[0].0 == "test_id"@);
    assert(message.numbers()[1].0 == "time_state_lasted"@);
    assert(message.texts()[0].0 == "test_name"@);
    assert(message.texts()[1].0 == "test_url"@);
    assert(message.texts()[2].0 == "dump_html"@);
    assert(message.texts()[3].0 == "dump_url"@);
    assert(message.texts()[4].0 == "state"@);
}

/// A setting that a test gives itself stays as it is, whatever the defaults; a
/// default shows only where the test gives none. Nothing else of a test changes.
pub proof fn law_own_settings_stay(test: ZuseConfigTest, defaults: ZuseConfigDefaults)
    ensures
        ({
            let full = crate::validate::completed(test, defaults);
            &&& test.retries is Some ==> full.retries == test.retries
            &&& test.recovery is Some ==> full.recovery == test.recovery
            &&& test.interval is Some ==> full.interval == test.interval
            &&& test.timeout is Some ==> full.timeout == test.timeout
            &&& test.retries is None ==> full.retries == defaults.retries
            &&& test.recovery is None ==> full.recovery == defaults.recovery
            &&& test.interval is None ==> full.interval == defaults.interval
            &&& test.timeout is None ==> full.timeout == defaults.timeout
            &&& full.test_type == test.test_type
            &&& full.name == test.name
            &&& full.target == test.target
            &&& full.expect == test.expect
            &&& full.notify == test.notify
            &&& full.notify_groups == test.notify_groups
        }),
{
}

/// To fill in the defaults twice is to fill them in once, and defaults that are not
/// there fill in nothing.
pub proof fn law_defaults_are_filled_in_once(
    test: ZuseConfigTest,
    defaults: ZuseConfigDefaults,
    others: ZuseConfigDefaults,
)
    ensures
        crate::validate::completed(crate::validate::completed(test, defaults), defaults)
            == crate::validate::completed(test, defaults),
        test.retries is Some && test.recovery is Some && test.interval is Some && test.timeout is Some
            ==> crate::validate::completed(test, others) == test,
        crate::validate::completed(test, crate::validate::defaults_of(None)) == test,
        crate::validate::defaults_of(Some(defaults)) == defaults,
{
}

/// A test lacks a setting if and only if neither it nor the defaults give it; the
/// first of retries, recovery and interval that it lacks is told. A timeout is
/// never missed.
pub proof fn law_first_lacking_setting_is_told(test: ZuseConfigTest, defaults: ZuseConfigDefaults)
    ensures
        ({
            let error = crate::validate::setting_error_of(test, defaults);
            let retries = test.retries is Some || defaults.retries is Some;
            let recovery = test.recovery is Some || defaults.recovery is Some;
            let interval = test.interval is Some || defaults.interval is Some;
            &&& error is None <==> retries && recovery && interval
            &&& error is Some ==> {
                &&& error->0 is MissingSetting
                &&& error->0->MissingSetting_test == test.name
                &&& error->0->MissingSetting_test_type == test.test_type
                &&& error->0->setting is Retries <==> !retries
                &&& error->0->setting is Recovery <==> retries && !recovery
                &&& error->0->setting is Interval <==> retries && recovery && !interval
            }
        }),
{
}

/// What is told of a list of names is the first one that is not known.
pub proof fn law_first_unknown_name_is_told(names: Seq<String>, known: Set<Seq<char>>)
    ensures
        crate::validate::first_unknown(names, known, 0) is None <==> forall|i: int|
            0 <= i < names.len() ==> known.contains((#[trigger] names[i])@),
        crate::validate::first_unknown(names, known, 0) matches Some(name) ==> exists|i: int|
            {
                &&& 0 <= i < names.len()
                &&& #[trigger] names[i] == name
                &&& !known.contains(name@)
                &&& forall|j: int| 0 <= j < i ==> known.contains((#[trigger] names[j])@)
            },
{
    crate::zuse::all_known(names, known, 0);
    if crate::validate::first_unknown(names, known, 0) is Some {
        let i = unknown_from(names, known, 0);
    }
}

/// Where the first unknown name stands, from a place on.
proof fn unknown_from(names: Seq<String>, known: Set<Seq<char>>, from: nat) -> (i: int)
    requires
        crate::validate::first_unknown(names, known, from) is Some,
    ensures
        from <= i < names.len(),
        names[i] == crate::validate::first_unknown(names, known, from)->0,
        !known.contains(names[i]@),
        forall|j: int| from <= j < i ==> known.contains((#[trigger] names[j])@),
    decreases names.len() - from,
{
    if !known.contains(names[from as int]@) {
        from as int
    } else {
        unknown_from(names, known, from + 1)
    }
}

/// What is told of the notify groups is the first member, of the first group, that
/// is no channel.
pub proof fn law_first_unknown_member_is_told(
    groups: Seq<ZuseConfigNotifyGroups>,
    channels: Set<Seq<char>>,
)
    ensures
        crate::validate::group_error(groups, channels, 0) matches Some(error) ==> exists|
            g: int,
            i: int,
        |
            {
                &&& 0 <= g < groups.len()
                &&& 0 <= i < groups[g].notify@.len()
                &&& !channels.contains((#[trigger] groups[g].notify@[i])@)
                &&& error == (SetupError::GroupWithUnknownChannel {
                    group: groups[g].name,
                    channel: groups[g].notify@[i],
                })
                &&& forall|h: int, j: int|
                    0 <= h < groups.len() && 0 <= j < groups[h].notify@.len() && (h < g || h == g
                        && j < i) ==> channels.contains((#[trigger] groups[h].notify@[j])@)
            },
{
    if crate::validate::group_error(groups, channels, 0) is Some {
        let (g, i) = unknown_member_from(groups, channels, 0);
        assert(!channels.contains(groups[g].notify@[i]@));
    }
}

/// Where the first member stands that is no channel, from a group on.
proof fn unknown_member_from(
    groups: Seq<ZuseConfigNotifyGroups>,
    channels: Set<Seq<char>>,
    from: nat,
) -> (found: (int, int))
    requires
        crate::validate::group_error(groups, channels, from) is Some,
    ensures
        from <= found.0 < groups.len(),
        0 <= found.1 < groups[found.0].notify@.len(),
        !channels.contains(groups[found.0].notify@[found.1]@),
        crate::validate::group_error(groups, channels, from) == Some(
            SetupError::GroupWithUnknownChannel {
                group: groups[found.0].name,
                channel: groups[found.0].notify@[found.1],
            },
        ),
        forall|h: int, j: int|
            from <= h < groups.len() && 0 <= j < groups[h].notify@.len() && (h < found.0 || h
                == found.0 && j < found.1) ==> channels.contains(
                (#[trigger] groups[h].notify@[j])@,
            ),
    decreases groups.len() - from,
{
    let first = groups[from as int].notify@;
    if crate::validate::first_unknown(first, channels, 0) is Some {
        let i = unknown_from(first, channels, 0);
        assert forall|h: int, j: int|
            from <= h < groups.len() && 0 <= j < groups[h].notify@.len() && (h < from || h == from
                && j < i) implies channels.contains((#[trigger] groups[h].notify@[j])@) by {
            assert(first[j] == groups[h].notify@[j]);
        }
        (from as int, i)
    } else {
        crate::zuse::all_known(first, channels, 0);
        let (g, i) = unknown_member_from(groups, channels, from + 1);
        assert forall|h: int, j: int|
            from <= h < groups.len() && 0 <= j < groups[h].notify@.len() && (h < g || h == g && j
                < i) implies channels.contains((#[trigger] groups[h].notify@[j])@) by {
            if h == from {
                assert(first[j] == groups[h].notify@[j]);
            }
        }
        (g, i)
    }
}

/// A test names a channel or a group that is not there if and only if that is told
/// of it: the first such channel, or where all channels are there the first such
/// group.
pub proof fn law_first_unknown_reference_is_told(
    test: ZuseConfigTest,
    own: Seq<String>,
    listed: Seq<String>,
    channels: Set<Seq<char>>,
    groups: Set<Seq<char>>,
)
    requires
        test.notify is Some ==> own == test.notify->0@,
        test.notify is None ==> own.len() == 0,
        test.notify_groups is Some ==> listed == test.notify_groups->0@,
        test.notify_groups is None ==> listed.len() == 0,
    ensures
        crate::validate::reference_error_of(test, channels, groups) is None <==> {
            &&& forall|i: int| 0 <= i < own.len() ==> channels.contains((#[trigger] own[i])@)
            &&& forall|i: int| 0 <= i < listed.len() ==> groups.contains((#[trigger] listed[i])@)
        },
        forall|i: int|
            {
                &&& 0 <= i < own.len()
                &&& !channels.contains((#[trigger] own[i])@)
                &&& forall|j: int| 0 <= j < i ==> channels.contains((#[trigger] own[j])@)
            } ==> crate::validate::reference_error_of(test, channels, groups) == Some(
                SetupError::TestWithUnknownChannel {
                    test: test.name,
                    test_type: test.test_type,
                    channel: own[i],
                },
            ),
        (forall|j: int| 0 <= j < own.len() ==> channels.contains((#[trigger] own[j])@))
            ==> forall|i: int|
            {
                &&& 0 <= i < listed.len()
                &&& !groups.contains((#[trigger] listed[i])@)
                &&& forall|j: int| 0 <= j < i ==> groups.contains((#[trigger] listed[j])@)
            } ==> crate::validate::reference_error_of(test, channels, groups) == Some(
                SetupError::TestWithUnknownGroup {
                    test: test.name,
                    test_type: test.test_type,
                    group: listed[i],
                },
            ),
{
    assert(own =~= crate::validate::names(test.notify));
    assert(listed =~= crate::validate::names(test.notify_groups));
    crate::zuse::all_known(own, channels, 0);
    crate::zuse::all_known(listed, groups, 0);
    if crate::validate::first_unknown(own, channels, 0) is Some {
        let i = unknown_from(own, channels, 0);
        assert(!channels.contains(own[i]@));
    } else if crate::validate::first_unknown(listed, groups, 0) is Some {
        let i = unknown_from(listed, groups, 0);
        assert(!groups.contains(listed[i]@));
    }
}

/// A target fits its test if and only if it is a URL for HTTP and a socket address
/// for TCP; a test that matches has to expect a text or a status, and a status has
/// to be one. What is told is about that test.
pub proof fn law_target_fits_its_test(test: ZuseConfigTest, url: bool, address: bool)
    ensures
        ({
            let error = crate::validate::target_error(test, url, address);
            let matching = test.test_type is HttpMatch;
            let expects = test.expect is Some && (test.expect->0.text is Some
                || test.expect->0.status is Some);
            let sound = test.expect is Some && test.expect->0.status is Some ==> 100
                <= test.expect->0.status->0 < 1000;
            &&& crate::validate::type_error_of(test, address) == crate::validate::target_error(
                test,
                crate::bindings::is_absolute_url(test.target@),
                address,
            )
            &&& test.test_type is TcpOk ==> (error is None <==> address)
            &&& test.test_type is HttpOk ==> (error is None <==> url)
            &&& matching ==> (error is None <==> url && expects && sound)
            &&& test.test_type is TcpOk && !address ==> error == Some(
                SetupError::InvalidAddress {
                    test: test.name,
                    test_type: test.test_type,
                    target: test.target,
                },
            )
            &&& test.test_type !is TcpOk && !url ==> error == Some(
                SetupError::InvalidUrl {
                    test: test.name,
                    test_type: test.test_type,
                    target: test.target,
                },
            )
            &&& matching && url && test.expect is None ==> error == Some(
                SetupError::MissingExpectations { test: test.name, test_type: test.test_type },
            )
            &&& matching && url && test.expect is Some && !expects ==> error == Some(
                SetupError::EmptyExpectations { test: test.name, test_type: test.test_type },
            )
            &&& matching && url && expects && !sound ==> error == Some(
                SetupError::InvalidStatus {
                    test: test.name,
                    test_type: test.test_type,
                    status: test.expect->0.status->0,
                },
            )
        }),
{
}

/// What is told of the tests is about the first one that something is wrong with.
pub proof fn law_first_wrong_test_is_told(
    tests: Seq<ZuseConfigTest>,
    channels: Set<Seq<char>>,
    groups: Set<Seq<char>>,
    addresses: Seq<bool>,
    defaults: ZuseConfigDefaults,
)
    ensures
        crate::validate::reference_error(tests, channels, groups, 0) is Some ==> exists|t: int|
            {
                &&& 0 <= t < tests.len()
                &&& crate::validate::reference_error_of(#[trigger] tests[t], channels, groups)
                    == crate::validate::reference_error(tests, channels, groups, 0)
                &&& forall|u: int|
                    0 <= u < t ==> crate::validate::reference_error_of(
                        #[trigger] tests[u],
                        channels,
                        groups,
                    ) is None
            },
        crate::validate::type_error(tests, addresses, 0) is Some ==> exists|t: int|
            {
                &&& 0 <= t < tests.len()
                &&& crate::validate::type_error_of(#[trigger] tests[t], addresses[t])
                    == crate::validate::type_error(tests, addresses, 0)
                &&& forall|u: int|
                    0 <= u < t ==> crate::validate::type_error_of(
                        #[trigger] tests[u],
                        addresses[u],
                    ) is None
            },
        crate::validate::setting_error(tests, defaults, 0) is Some ==> exists|t: int|
            {
                &&& 0 <= t < tests.len()
                &&& crate::validate::setting_error_of(#[trigger] tests[t], defaults)
                    == crate::validate::setting_error(tests, defaults, 0)
                &&& forall|u: int|
                    0 <= u < t ==> crate::validate::setting_error_of(
                        #[trigger] tests[u],
                        defaults,
                    ) is None
            },
{
    if crate::validate::reference_error(tests, channels, groups, 0) is Some {
        let t = wrong_reference_from(tests, channels, groups, 0);
        assert(crate::validate::reference_error_of(tests[t], channels, groups) is Some);
    }
    if crate::validate::type_error(tests, addresses, 0) is Some {
        let t = wrong_type_from(tests, addresses, 0);
        assert(crate::validate::type_error_of(tests[t], addresses[t]) is Some);
    }
    if crate::validate::setting_error(tests, defaults, 0) is Some {
        let t = wrong_setting_from(tests, defaults, 0);
        assert(crate::validate::setting_error_of(tests[t], defaults) is Some);
    }
}

/// The first test that names what is not there, from a place on.
proof fn wrong_reference_from(
    tests: Seq<ZuseConfigTest>,
    channels: Set<Seq<char>>,
    groups: Set<Seq<char>>,
    from: nat,
) -> (t: int)
    requires
        crate::validate::reference_error(tests, channels, groups, from) is Some,
    ensures
        from <= t < tests.len(),
        crate::validate::reference_error_of(tests[t], channels, groups)
            == crate::validate::reference_error(tests, channels, groups, from),
        forall|u: int|
            from <= u < t ==> crate::validate::reference_error_of(
                #[trigger] tests[u],
                channels,
                groups,
            ) is None,
    decreases tests.len() - from,
{
    if crate::validate::reference_error_of(tests[from as int], channels, groups) is Some {
        from as int
    } else {
        wrong_reference_from(tests, channels, groups, from + 1)
    }
}

/// The first test whose target or expectations do not fit, from a place on.
proof fn wrong_type_from(tests: Seq<ZuseConfigTest>, addresses: Seq<bool>, from: nat) -> (t: int)
    requires
        crate::validate::type_error(tests, addresses, from) is Some,
    ensures
        from <= t < tests.len(),
        crate::validate::type_error_of(tests[t], addresses[t]) == crate::validate::type_error(
            tests,
            addresses,
            from,
        ),
        forall|u: int|
            from <= u < t ==> crate::validate::type_error_of(
                #[trigger] tests[u],
                addresses[u],
            ) is None,
    decreases tests.len() - from,
{
    if crate::validate::type_error_of(tests[from as int], addresses[from as int]) is Some {
        from as int
    } else {
        wrong_type_from(tests, addresses, from + 1)
    }
}

/// The first test that lacks a setting, from a place on.
proof fn wrong_setting_from(
    tests: Seq<ZuseConfigTest>,
    defaults: ZuseConfigDefaults,
    from: nat,
) -> (t: int)
    requires
        crate::validate::setting_error(tests, defaults, from) is Some,
    ensures
        from <= t < tests.len(),
        crate::validate::setting_error_of(tests[t], defaults) == crate::validate::setting_error(
            tests,
            defaults,
            from,
        ),
        forall|u: int|
            from <= u < t ==> crate::validate::setting_error_of(
                #[trigger] tests[u],
                defaults,
            ) is None,
    decreases tests.len() - from,
{
    if crate::validate::setting_error_of(tests[from as int], defaults) is Some {
        from as int
    } else {
        wrong_setting_from(tests, defaults, from + 1)
    }
}

/// Groups come before tests, and of the tests whom they tell comes before what they
/// test, and that before their settings.
pub proof fn law_errors_come_in_order(
    config: crate::config::ZuseConfig,
    channels: Set<Seq<char>>,
    addresses: Seq<bool>,
    groups: Seq<ZuseConfigNotifyGroups>,
    defaults: ZuseConfigDefaults,
)
    requires
        config.notify_groups is Some ==> groups == config.notify_groups->0@,
        config.notify_groups is None ==> groups.len() == 0,
        config.defaults == Some(defaults),
    ensures
        ({
            let known = crate::validate::grouped(groups, groups.len()).dom();
            let error = crate::validate::configuration_error(config, channels, addresses);
            let of_groups = crate::validate::group_error(groups, channels, 0);
            let of_references = crate::validate::reference_error(
                config.tests@,
                channels,
                known,
                0,
            );
            let of_types = crate::validate::type_error(config.tests@, addresses, 0);
            let of_settings = crate::validate::setting_error(config.tests@, defaults, 0);
            &&& of_groups is Some ==> error == of_groups
            &&& of_groups is None && of_references is Some ==> error == of_references
            &&& of_groups is None && of_references is None && of_types is Some ==> error == of_types
            &&& of_groups is None && of_references is None && of_types is None ==> error
                == of_settings
        }),
{
    assert(groups =~= crate::validate::group_list(config.notify_groups));
}

/// The groups go by exactly the names that the configuration gives them.
pub proof fn law_groups_go_by_their_names(groups: Seq<ZuseConfigNotifyGroups>, name: Seq<char>)
    ensures
        crate::validate::grouped(groups, groups.len()).contains_key(name) <==> exists|g: int|
            0 <= g < groups.len() && (#[trigger] groups[g]).name@ == name,
{
    group_names_before(groups, groups.len(), name);
}

/// The first few groups go by exactly their names.
proof fn group_names_before(groups: Seq<ZuseConfigNotifyGroups>, count: nat, name: Seq<char>)
    requires
        count <= groups.len(),
    ensures
        crate::validate::grouped(groups, count).contains_key(name) <==> exists|g: int|
            0 <= g < count && (#[trigger] groups[g]).name@ == name,
    decreases count,
{
    if count > 0 {
        group_names_before(groups, (count - 1) as nat, name);
        if groups[count - 1].name@ != name && exists|g: int|
            0 <= g < count && (#[trigger] groups[g]).name@ == name {
            let g = choose|g: int| 0 <= g < count && (#[trigger] groups[g]).name@ == name;
            assert(g < count - 1);
        }
    }
}

/// A notifier is asked who it is, with what the configuration gives for that; where
/// something is missing, that is told. Credentials of the environment are used only
/// where the notifier has not both a key and a secret.
pub proof fn law_notifier_is_asked_who_it_is(
    notifier_id: usize,
    notifier: ZuseConfigNotifier,
    region_exists: bool,
    environment: bool,
)
    ensures
        ({
            let action = crate::setup::opening_action(
                notifier_id,
                notifier,
                region_exists,
                environment,
            );
            let auth = notifier.auth;
            let telegram = notifier.notifier_type is Telegram;
            let notifier_type = notifier.notifier_type;
            let own = auth.key is Some && auth.secret is Some;
            &&& telegram && auth.token is Some ==> action == (SetupAction::VerifyToken {
                notifier_id,
                token: auth.token->0,
            })
            &&& telegram && auth.token is None ==> action == SetupAction::Fail(
                SetupError::MissingToken { notifier_id, notifier_type },
            )
            &&& !telegram && auth.region is None ==> action == SetupAction::Fail(
                SetupError::MissingRegion { notifier_id, notifier_type },
            )
            &&& !telegram && auth.region is Some && !region_exists ==> action == SetupAction::Fail(
                SetupError::UnknownRegion { region: auth.region->0 },
            )
            &&& !telegram && auth.region is Some && region_exists && own ==> action == (
            SetupAction::VerifyIdentity {
                notifier_id,
                region: auth.region->0,
                credentials: SnsCredentials::Static {
                    key: auth.key->0,
                    secret: auth.secret->0,
                },
            })
            &&& !telegram && auth.region is Some && region_exists && !own && environment ==> action
                == (SetupAction::VerifyIdentity {
                notifier_id,
                region: auth.region->0,
                credentials: SnsCredentials::Environment,
            })
            &&& !telegram && auth.region is Some && region_exists && !own && !environment ==> action
                == SetupAction::Fail(SetupError::MissingCredentials { notifier_id, notifier_type })
        }),
{
}

/// The next notifier that is asked is the first one that has channels; where there
/// is none, the set-up is done.
pub proof fn law_first_notifier_with_channels_is_next(
    notifiers: Seq<ZuseConfigNotifier>,
    environment: bool,
    from: nat,
)
    ensures
        (forall|m: int| from <= m < notifiers.len() ==> (#[trigger] notifiers[m]).channels@.len() == 0)
            ==> {
            &&& crate::setup::from_notifier(notifiers, environment, from).0.stage is Ready
            &&& crate::setup::from_notifier(notifiers, environment, from).1 is Done
        },
        forall|m: int|
            {
                &&& from <= m < notifiers.len()
                &&& (#[trigger] notifiers[m]).channels@.len() > 0
                &&& forall|n: int|
                    from <= n < m ==> (#[trigger] notifiers[n]).channels@.len() == 0
            } ==> {
                let next = crate::setup::from_notifier(notifiers, environment, from);
                &&& next.0.notifier == m
                &&& next.0.channel == 0
                &&& next.1 == crate::setup::opening_action(
                    m as usize,
                    notifiers[m],
                    notifiers[m].auth.region is Some && crate::bindings::is_region(
                        notifiers[m].auth.region->0@,
                    ),
                    environment,
                )
                &&& next.0.stage is Failed <==> next.1 is Fail
                &&& next.0.stage is Token <==> next.1 is VerifyToken
                &&& next.0.stage is Identity <==> next.1 is VerifyIdentity
            },
    decreases notifiers.len() - from,
{
    if from < notifiers.len() && notifiers[from as int].channels@.len() == 0 {
        law_first_notifier_with_channels_is_next(notifiers, environment, from + 1);
    }
}

/// The channels of a Telegram notifier are asked for one after the other, each by
/// the number that it names; what is missing for that is told. After the last the
/// next notifier comes.
pub proof fn law_chats_are_asked_for_in_order(
    notifiers: Seq<ZuseConfigNotifier>,
    environment: bool,
    notifier: nat,
    channel: nat,
)
    requires
        notifier < notifiers.len(),
        notifiers[notifier as int].notifier_type is Telegram,
    ensures
        ({
            let next = crate::setup::from_channel(notifiers, environment, notifier, channel);
            let channels = notifiers[notifier as int].channels@;
            let asked = channels[channel as int];
            let there = channel < channels.len();
            let number = crate::text::parsed_i64(asked.id->0@);
            &&& !there ==> next == crate::setup::from_notifier(
                notifiers,
                environment,
                notifier + 1,
            )
            &&& there ==> next.0.notifier == notifier && next.0.channel == channel
            &&& there && asked.id is None ==> {
                &&& next.0.stage is Failed
                &&& next.1 == SetupAction::Fail(
                    SetupError::MissingChannelId { channel: asked.name },
                )
            }
            &&& there && asked.id is Some && number is None ==> {
                &&& next.0.stage is Failed
                &&& next.1 == SetupAction::Fail(
                    SetupError::MalformedChannelId { channel: asked.name, id: asked.id->0 },
                )
            }
            &&& there && asked.id is Some && number is Some ==> {
                &&& next.0.stage is Chat
                &&& next.1 == (SetupAction::VerifyChat {
                    notifier_id: notifier as usize,
                    channel_id: channel as usize,
                    chat_id: number->0,
                })
            }
        }),
{
}

/// Whether an SNS channel can be registered without a question.
pub open spec fn needs_no_question(channel: ZuseConfigNotifierChannel) -> bool {
    channel.phone is None && (channel.target_arn is Some) != (channel.topic_arn is Some)
}

/// The channels of an SNS notifier are gone through in order: the first one with a
/// phone is asked about, the first one with none or more than one target stops the
/// set-up, and where neither is left the next notifier comes.
pub proof fn law_phones_are_asked_about_in_order(
    notifiers: Seq<ZuseConfigNotifier>,
    environment: bool,
    notifier: nat,
    channel: nat,
    next: nat,
)
    requires
        notifier < notifiers.len(),
        notifiers[notifier as int].notifier_type is Sns,
        channel <= next <= notifiers[notifier as int].channels@.len(),
        forall|k: int|
            channel <= k < next ==> needs_no_question(
                #[trigger] notifiers[notifier as int].channels@[k],
            ),
        next < notifiers[notifier as int].channels@.len() ==> !needs_no_question(
            notifiers[notifier as int].channels@[next as int],
        ),
    ensures
        ({
            let came = crate::setup::from_channel(notifiers, environment, notifier, channel);
            let channels = notifiers[notifier as int].channels@;
            let asked = channels[next as int];
            let there = next < channels.len();
            &&& !there ==> came == crate::setup::from_notifier(
                notifiers,
                environment,
                notifier + 1,
            )
            &&& there ==> came.0.notifier == notifier && came.0.channel == next
            &&& there && asked.phone is Some ==> {
                &&& came.0.stage is Phone
                &&& came.1 == (SetupAction::VerifyPhone {
                    notifier_id: notifier as usize,
                    channel_id: next as usize,
                    phone: asked.phone->0,
                })
            }
            &&& there && asked.phone is None ==> {
                &&& came.0.stage is Failed
                &&& came.1 == SetupAction::Fail(
                    SetupError::AmbiguousTarget {
                        notifier_id: notifier as usize,
                        notifier_type: ZuseConfigNotifierType::Sns,
                        channel: asked.name,
                    },
                )
            }
        }),
    decreases next - channel,
{
    if channel < next {
        assert(needs_no_question(notifiers[notifier as int].channels@[channel as int]));
        law_phones_are_asked_about_in_order(notifiers, environment, notifier, channel + 1, next);
    }
}

/// A bad answer is told with what was asked about; a good one leads on, past the
/// channel that was asked about.
pub proof fn law_answers_lead_on_or_are_told(
    notifiers: Seq<ZuseConfigNotifier>,
    environment: bool,
    position: SetupPosition,
    passed: bool,
)
    requires
        position.notifier < notifiers.len(),
        position.channel < notifiers[position.notifier as int].channels@.len(),
    ensures
        ({
            let next = crate::setup::answered(notifiers, environment, position, passed);
            let notifier_id = position.notifier as usize;
            let notifier = notifiers[position.notifier as int];
            let notifier_type = notifier.notifier_type;
            let asked = notifier.channels@[position.channel as int];
            let one = (asked.phone is Some && asked.target_arn is None && asked.topic_arn is None)
                || (asked.phone is None && asked.target_arn is Some && asked.topic_arn is None) || (
            asked.phone is None && asked.target_arn is None && asked.topic_arn is Some);
            let behind = crate::setup::from_channel(
                notifiers,
                environment,
                position.notifier,
                position.channel + 1,
            );
            let first = crate::setup::from_channel(notifiers, environment, position.notifier, 0);
            let stage = position.stage;
            &&& (stage is Token || stage is Identity) && passed ==> next == first
            &&& stage is Chat && passed ==> next == behind
            &&& stage is Phone && passed && one ==> next == behind
            &&& stage is Phone && passed && !one ==> next.1 == SetupAction::Fail(
                SetupError::AmbiguousTarget { notifier_id, notifier_type, channel: asked.name },
            )
            &&& stage is Token && !passed ==> next.1 == SetupAction::Fail(
                SetupError::InvalidToken {
                    notifier_id,
                    notifier_type,
                    token: notifier.auth.token->0,
                },
            )
            &&& stage is Identity && !passed ==> next.1 == SetupAction::Fail(
                SetupError::RefusedCredentials { notifier_id, notifier_type },
            )
            &&& stage is Chat && !passed ==> next.1 == SetupAction::Fail(
                SetupError::UnknownChat { channel: asked.name, id: asked.id->0 },
            )
            &&& stage is Phone && !passed ==> next.1 == SetupAction::Fail(
                SetupError::OptedOut {
                    notifier_id,
                    notifier_type,
                    channel: asked.name,
                    phone: asked.phone->0,
                },
            )
        }),
{
}

/// What a channel is registered as: the place of its notifier, and its id or its
/// phone, target and topic, each in its place. It can be sent to if and only if the
/// id is a number, or exactly one of the three is there.
pub proof fn law_channel_is_registered_as_configured(
    place: usize,
    notifier_type: ZuseConfigNotifierType,
    channel: ZuseConfigNotifierChannel,
)
    ensures
        ({
            let entry = crate::setup::channel_entry(place as nat, notifier_type, channel);
            let phone = channel.phone is Some;
            let target = channel.target_arn is Some;
            let topic = channel.topic_arn is Some;
            &&& entry.0 == place
            &&& notifier_type is Telegram && channel.id is Some ==> entry.1
                == ZuseChannelType::Telegram(channel.id->0)
            &&& notifier_type is Sns ==> {
                &&& entry.1 is Sns
                &&& entry.1->Sns_0 == channel.phone
                &&& entry.1->Sns_1 == channel.target_arn
                &&& entry.1->Sns_2 == channel.topic_arn
            }
            &&& notifier_type is Telegram ==> (crate::setup::is_usable(notifier_type, channel)
                <==> channel.id is Some && crate::text::parsed_i64(channel.id->0@) is Some)
            &&& notifier_type is Sns ==> (crate::setup::is_usable(notifier_type, channel) <==> (
            phone && !target && !topic) || (!phone && target && !topic) || (!phone && !target
                && topic))
            &&& notifier_type is Telegram <==> crate::setup::notify_type(notifier_type) is Telegram
        }),
{
}

/// What the set-up registers is what the configuration lists: under the name of a
/// channel stands the last one of that name, with its notifier's place and its own
/// id, or phone, target and topic; and under no other name stands anything.
pub proof fn law_registered_is_what_is_listed(
    zuse: Zuse,
    name: Seq<char>,
    m: int,
    k: int,
)
    requires
        zuse.wf(),
    ensures
        ({
            let notifiers = zuse.args.config.notifiers@;
            &&& zuse.channels@.contains_key(name) <==> exists|n: int, j: int|
                0 <= n < notifiers.len() && 0 <= j < notifiers[n].channels@.len() && (
                #[trigger] notifiers[n].channels@[j]).name@ == name
            &&& {
                &&& 0 <= m < notifiers.len()
                &&& 0 <= k < notifiers[m].channels@.len()
                &&& notifiers[m].channels@[k].name@ == name
                &&& forall|n: int, j: int|
                    0 <= n < notifiers.len() && 0 <= j < notifiers[n].channels@.len() && (
                    #[trigger] notifiers[n].channels@[j]).name@ == name ==> n < m || n == m && j
                        <= k
            } ==> {
                let channel = notifiers[m].channels@[k];
                &&& zuse.channels@[name].0 == m
                &&& notifiers[m].notifier_type is Telegram ==> channel.id is Some
                    && zuse.channels@[name].1 == ZuseChannelType::Telegram(channel.id->0)
                &&& notifiers[m].notifier_type is Sns ==> zuse.channels@[name].1
                    == ZuseChannelType::Sns(channel.phone, channel.target_arn, channel.topic_arn)
            }
        }),
{
    let notifiers = zuse.args.config.notifiers@;
    let count = zuse.args.config.notifiers.len();
    crate::laws::law_last_channel_with_a_name_stays(zuse, name);
    if zuse.channels@.contains_key(name) {
        let (n, j) = choose|n: int, j: int| #[trigger]
            crate::laws::last_named_before(notifiers, notifiers.len(), 0, name, n, j);
        assert(crate::laws::named_before(notifiers, notifiers.len(), 0, name, n, j));
        assert(notifiers[n].channels@[j].name@ == name);
    }
    if exists|n: int, j: int|
        0 <= n < notifiers.len() && 0 <= j < notifiers[n].channels@.len() && (
        #[trigger] notifiers[n].channels@[j]).name@ == name {
        let (n, j) = choose|n: int, j: int|
            0 <= n < notifiers.len() && 0 <= j < notifiers[n].channels@.len() && (
            #[trigger] notifiers[n].channels@[j]).name@ == name;
        named_is_registered(notifiers, notifiers.len(), 0, name, n, j);
    }
    if {
        &&& 0 <= m < notifiers.len()
        &&& 0 <= k < notifiers[m].channels@.len()
        &&& notifiers[m].channels@[k].name@ == name
        &&& forall|n: int, j: int|
            0 <= n < notifiers.len() && 0 <= j < notifiers[n].channels@.len() && (
            #[trigger] notifiers[n].channels@[j]).name@ == name ==> n < m || n == m && j <= k
    } {
        assert(crate::laws::named_before(notifiers, notifiers.len(), 0, name, m, k));
        assert forall|n: int, j: int| #[trigger]
            crate::laws::named_before(notifiers, notifiers.len(), 0, name, n, j) implies n < m || n
            == m && j <= k by {
            assert(notifiers[n].channels@[j].name@ == name);
        }
        assert(crate::laws::last_named_before(notifiers, notifiers.len(), 0, name, m, k));
        assert(m < count);
        assert(crate::setup::is_usable(notifiers[m].notifier_type, notifiers[m].channels@[k]));
    }
}

/// A channel that stands before a place is registered there under its name.
proof fn named_is_registered(
    notifiers: Seq<ZuseConfigNotifier>,
    notifier: nat,
    channel: nat,
    name: Seq<char>,
    n: int,
    j: int,
)
    requires
        notifier <= notifiers.len(),
        0 <= n < notifiers.len(),
        0 <= j < notifiers[n].channels@.len(),
        n < notifier || n == notifier && j < channel,
        notifiers[n].channels@[j].name@ == name,
    ensures
        crate::setup::registered(notifiers, notifier, channel).contains_key(name),
    decreases notifier, channel,
{
    if channel > 0 {
        if !(n == notifier && j == channel - 1) {
            named_is_registered(notifiers, notifier, (channel - 1) as nat, name, n, j);
        }
    } else {
        let before = notifiers[notifier - 1].channels@.len();
        named_is_registered(notifiers, (notifier - 1) as nat, before, name, n, j);
    }
}

/// A number in decimal stands for that number, is made of digits alone, and has no
/// leading zero.
pub proof fn law_decimal_stands_for_its_number(number: nat)
    ensures
        crate::text::digits_value(crate::text::decimal_text(number)) == number,
        crate::text::is_digits(crate::text::decimal_text(number)),
        number > 0 ==> crate::text::decimal_text(number)[0] != '0',
        number == 0 ==> crate::text::decimal_text(number).len() == 1,
    decreases number,
{
    let text = crate::text::decimal_text(number);
    if number < 10 {
        assert(text.drop_last() =~= Seq::empty());
        assert(crate::text::digits_value(text.drop_last()) == 0);
    } else {
        law_decimal_stands_for_its_number(number / 10);
        assert(text.drop_last() =~= crate::text::decimal_text(number / 10));
        assert(text[0] == crate::text::decimal_text(number / 10)[0]);
    }
}

/// A number is read back from its decimal form, with and without a sign.
pub proof fn law_number_is_read_back(number: nat)
    ensures
        number <= i64::MAX ==> crate::text::parsed_i64(crate::text::decimal_text(number)) == Some(
            number as i64,
        ),
        number <= i64::MAX ==> crate::text::parsed_i64(
            seq!['+'] + crate::text::decimal_text(number),
        ) == Some(number as i64),
        number <= i64::MAX + 1 ==> crate::text::parsed_i64(
            seq!['-'] + crate::text::decimal_text(number),
        ) == Some((-number) as i64),
        number > i64::MAX + 1 ==> {
            &&& crate::text::parsed_i64(crate::text::decimal_text(number)) is None
            &&& crate::text::parsed_i64(seq!['-'] + crate::text::decimal_text(number)) is None
        },
{
    let text = crate::text::decimal_text(number);
    law_decimal_stands_for_its_number(number);
    assert('0' <= text[0] <= '9');
    assert((seq!['+'] + text).skip(1) =~= text);
    assert((seq!['-'] + text).skip(1) =~= text);
}

/// A pattern is a part of a text if and only if something can stand before and
/// behind it to make the text.
pub proof fn law_part_of_a_text(pattern: Seq<char>, text: Seq<char>)
    ensures
        crate::text::occurs_in(pattern, text) <==> exists|before: Seq<char>, behind: Seq<char>|
            text == #[trigger] (before + pattern + behind),
{
    if crate::text::occurs_in(pattern, text) {
        let at = choose|at: int| #[trigger] crate::text::occurs_at(pattern, text, at);
        let before = text.take(at);
        let behind = text.skip(at + pattern.len());
        assert(text =~= before + pattern + behind);
    }
    if exists|before: Seq<char>, behind: Seq<char>|
        text == #[trigger] (before + pattern + behind) {
        let (before, behind) = choose|before: Seq<char>, behind: Seq<char>|
            text == #[trigger] (before + pattern + behind);
        let at = before.len() as int;
        assert(text.subrange(at, at + pattern.len()) =~= pattern);
        assert(crate::text::occurs_at(pattern, text, at));
    }
}

/// A line about a notifier begins with its place and its type, and says what is
/// wrong with it.
pub proof fn law_line_is_about_the_notifier(
    error: SetupError,
    place: usize,
    notifier_type: ZuseConfigNotifierType,
    shown: Seq<char>,
    phone: Seq<char>,
)
    ensures
        ({
            let line = error.line_with(shown, phone);
            let name = match notifier_type {
                ZuseConfigNotifierType::Telegram => "Telegram"@,
                ZuseConfigNotifierType::Sns => "Sns"@,
            };
            let start = "Error: notifier "@ + crate::text::decimal_text(place as nat) + " ("@ + name
                + ")"@;
            &&& error == (SetupError::MissingToken { notifier_id: place, notifier_type }) ==> line
                == Some(start + " must specify a token."@)
            &&& error is InvalidToken && error->InvalidToken_notifier_id == place
                && error->InvalidToken_notifier_type == notifier_type ==> line == Some(
                start + " has invalid telegram token. (token: "@ + error->token@ + ")"@,
            )
            &&& error == (SetupError::MissingRegion { notifier_id: place, notifier_type }) ==> line
                == Some(start + " must specify region."@)
            &&& error == (SetupError::MissingCredentials { notifier_id: place, notifier_type })
                ==> line == Some(
                start + " has no key and secret set, defaulting to env creds.\n"@ + start
                    + " requires env (AWS_ACCESS_KEY_ID and AWS_SECRET_ACCESS_KEY) to be set."@,
            )
            &&& error == (SetupError::RefusedCredentials { notifier_id: place, notifier_type })
                ==> line == Some(start + " could not validate AWS credentials."@)
            &&& error is OptedOut && error->OptedOut_notifier_id == place
                && error->OptedOut_notifier_type == notifier_type ==> line == Some(
                start + " channel "@ + shown + ": "@ + phone
                    + " has explicitly opted out from receing SMS via SNS."@,
            )
            &&& error is AmbiguousTarget && error->AmbiguousTarget_notifier_id == place
                && error->AmbiguousTarget_notifier_type == notifier_type ==> line == Some(
                start + " channel "@ + shown
                    + " must specify at least and at most one of phone, target_arn or topic_arn."@,
            )
        }),
{
}

/// A line about a channel or a notify group names it, and says what is wrong with
/// it. Only a region that does not exist has no line.
pub proof fn law_line_names_the_channel(error: SetupError, shown: Seq<char>, phone: Seq<char>)
    ensures
        ({
            let line = error.line_with(shown, phone);
            &&& line is None <==> error is UnknownRegion
            &&& error is MissingChannelId ==> line == Some(
                "Error: channel "@ + shown + " must specify an id."@,
            )
            &&& error is MalformedChannelId ==> line == Some(
                "Error: channel "@ + shown + " must have valid i64 id. (cid: "@
                    + error->MalformedChannelId_id@ + ")"@,
            )
            &&& error is UnknownChat ==> line == Some(
                "Error: channel "@ + shown + " could not be validated. (cid: "@
                    + error->UnknownChat_id@ + ")"@,
            )
            &&& error is GroupWithUnknownChannel ==> line == Some(
                "Error: notify group '"@ + error->GroupWithUnknownChannel_group@
                    + "' references inexistent channel: "@
                    + error->GroupWithUnknownChannel_channel@,
            )
            &&& error is MissingChannelId ==> error.channel_shown() == crate::bindings::debug_text(
                error->MissingChannelId_channel@,
            )
            &&& error is MalformedChannelId ==> error.channel_shown()
                == crate::bindings::debug_text(error->MalformedChannelId_channel@)
            &&& error is UnknownChat ==> error.channel_shown() == crate::bindings::debug_text(
                error->UnknownChat_channel@,
            )
            &&& error is OptedOut ==> {
                &&& error.channel_shown() == crate::bindings::debug_text(error->OptedOut_channel@)
                &&& error.phone_shown() == crate::bindings::debug_text(error->phone@)
            }
            &&& error is AmbiguousTarget ==> error.channel_shown() == crate::bindings::debug_text(
                error->AmbiguousTarget_channel@,
            )
            &&& error.line() == error.line_with(error.channel_shown(), error.phone_shown())
        }),
{
}

/// A line about a test begins with its name and its type, and says what is wrong
/// with it.
pub proof fn law_line_is_about_the_test(
    error: SetupError,
    test: String,
    test_type: ZuseConfigTestType,
    shown: Seq<char>,
    phone: Seq<char>,
)
    ensures
        ({
            let line = error.line_with(shown, phone);
            let name = match test_type {
                ZuseConfigTestType::HttpOk => "HttpOk"@,
                ZuseConfigTestType::TcpOk => "TcpOk"@,
                ZuseConfigTestType::HttpMatch => "HttpMatch"@,
            };
            let start = "Error: '"@ + test@ + "' (type: "@ + name + ")"@;
            &&& forall|channel: String|
                error == (SetupError::TestWithUnknownChannel { test, test_type, channel }) ==> line
                    == Some(start + " references inexistent channel: "@ + #[trigger] channel@)
            &&& forall|group: String|
                error == (SetupError::TestWithUnknownGroup { test, test_type, group }) ==> line
                    == Some(start + " references inexistent notify group: "@ + #[trigger] group@)
            &&& forall|target: String|
                error == (SetupError::InvalidUrl { test, test_type, target }) ==> line == Some(
                    start + " requires a valid URL as target. Got: "@ + #[trigger] target@,
                )
            &&& forall|target: String|
                error == (SetupError::InvalidAddress { test, test_type, target }) ==> line == Some(
                    start
                        + " requires an IPv4 (RFC791) or IPv6 (RFC4291) and 16 bit port tuple as target. Got: "@
                        + #[trigger] target@,
                )
            &&& error == (SetupError::MissingExpectations { test, test_type }) ==> line == Some(
                start + " requires expectations."@,
            )
            &&& error == (SetupError::EmptyExpectations { test, test_type }) ==> line == Some(
                start + " either status or text expectations."@,
            )
            &&& error is InvalidStatus && error->InvalidStatus_test == test
                && error->InvalidStatus_test_type == test_type ==> line == Some(
                start + " has expects invalid status. Got: "@ + crate::text::decimal_text(
                    error->status as nat,
                ),
            )
            &&& error is MissingSetting && error->MissingSetting_test == test
                && error->MissingSetting_test_type == test_type ==> line == Some(
                start + " lacks '"@ + (match error->setting {
                    Setting::Retries => "retries"@,
                    Setting::Recovery => "recovery"@,
                    Setting::Interval => "interval"@,
                }) + "', but no default was set."@,
            )
        }),
{
}

/// A notifier without channels takes no slot, and the others take one each, in the
/// order of the configuration.
pub proof fn law_notifiers_keep_their_order(notifiers: Seq<ZuseConfigNotifier>, m: nat, n: nat)
    requires
        m < n <= notifiers.len(),
    ensures
        crate::setup::slot(notifiers, 0) == 0,
        notifiers[m as int].channels@.len() > 0 ==> crate::setup::slot(notifiers, m)
            < crate::setup::slot(notifiers, n),
        (forall|l: int| m <= l < n ==> (#[trigger] notifiers[l]).channels@.len() == 0)
            ==> crate::setup::slot(notifiers, m) == crate::setup::slot(notifiers, n),
        (forall|l: int| m <= l < n ==> (#[trigger] notifiers[l]).channels@.len() > 0)
            ==> crate::setup::slot(notifiers, n) == crate::setup::slot(notifiers, m) + (n - m),
        crate::setup::slot(notifiers, m) <= crate::setup::slot(notifiers, n),
    decreases n - m,
{
    if m + 1 < n {
        law_notifiers_keep_their_order(notifiers, m, (n - 1) as nat);
        assert(notifiers[n - 1].channels@.len() >= 0);
    }
}

/// A message that cannot be built is not sent, and it is told why.
pub proof fn law_refused_template_is_told(
    zuse: Zuse,
    name: Seq<char>,
    msg: ZuseJobMessage,
    outcome: Result<Delivery, SendError>,
)
    requires
        zuse.wf(),
        zuse.channels@.contains_key(name),
        zuse.sends(zuse.channels@[name], msg, outcome),
    ensures
        ({
            let notifier = zuse.args.config.notifiers[zuse.channels@[name].0 as int];
            let body = crate::message::body_template(msg.state, notifier);
            let subject = crate::message::subject_template(msg.state, notifier);
            let named = crate::template::names_local_this(body)
                || crate::template::names_local_this(subject);
            let circular = crate::template::is_circular(body) || crate::template::is_circular(
                subject,
            );
            let rendered = msg@.rendering(body) is Some && msg@.rendering(subject) is Some;
            &&& outcome is Ok <==> !named && !circular && rendered
            &&& outcome is Err ==> outcome->Err_0 is Template
            &&& named ==> outcome->Err_0->Template_0 is LocalThis
            &&& !named && circular ==> outcome->Err_0->Template_0 is CircularPartials
            &&& !named && !circular && !rendered ==> outcome->Err_0->Template_0 is Refused
        }),
{
    let notifiers = zuse.args.config.notifiers@;
    let count = zuse.args.config.notifiers.len();
    crate::laws::law_last_channel_with_a_name_stays(zuse, name);
    let (m, k) = choose|m: int, k: int| #[trigger]
        crate::laws::last_named_before(notifiers, notifiers.len(), 0, name, m, k);
    assert(crate::laws::last_named_before(notifiers, notifiers.len(), 0, name, m, k));
    assert(m < count);
    assert(crate::setup::is_usable(notifiers[m].notifier_type, notifiers[m].channels@[k]));
    crate::laws::connected_at_slot(notifiers, notifiers.len(), m as nat);
}

/// A text without two braces in a row, or without an at sign, never counts as
/// naming a local variable, and one without two braces in a row never as including
/// a partial.
pub proof fn law_text_without_tags_is_rendered(text: Seq<char>)
    ensures
        (forall|i: int|
            0 <= i && i + 1 < text.len() && #[trigger] text[i] == '{' ==> text[i + 1] != '{') ==> {
            &&& !crate::template::names_local_this(text)
            &&& !crate::template::mentions_partial(text)
        },
        (forall|i: int| 0 <= i < text.len() ==> #[trigger] text[i] != '@')
            ==> !crate::template::names_local_this(text),
{
}

/// A tag that names a local variable `this` and nothing else always counts as doing
/// so.
pub proof fn law_tag_with_a_local_this_is_found(before: Seq<char>, behind: Seq<char>)
    requires
        before.len() > 0 ==> before.last() != '\\' && before.last() != '{',
    ensures
        crate::template::names_local_this(
            before + seq!['{', '{', '@', 't', 'h', 'i', 's', '}', '}'] + behind,
        ),
{
    let text = before + seq!['{', '{', '@', 't', 'h', 'i', 's', '}', '}'] + behind;
    let at = before.len() as int + 2;
    assert(text[at - 1] == '{');
    assert(text[at - 2] == '{');
    assert(text[at] == '@');
    assert(text[at + 1] == 't');
    assert(text[at + 2] == 'h');
    assert(text[at + 3] == 'i');
    assert(text[at + 4] == 's');
    assert(text[at + 5] == '}');
    if at >= 3 {
        assert(text[at - 3] == before.last());
    }
    assert(crate::template::steps(text, at, at + 1));
    assert(crate::template::after_this(text, at + 1) == Some(at + 5));
    assert(!crate::template::goes_on(text, at + 5));
    assert(crate::template::only_this(text, at + 1));
    assert(crate::template::begins(text, at));
    assert(crate::template::may_reach(text, at, at));
}

/// Whether one piece can include another.
pub open spec fn can_include(
    pieces: Seq<crate::template::PieceView>,
    i: int,
    j: int,
) -> bool {
    &&& 0 <= i < pieces.len()
    &&& 0 <= j < pieces.len()
    &&& exists|t: int|
        0 <= t < pieces[i].tags.len() && crate::template::reaches(
            #[trigger] pieces[i].tags[t],
            pieces[j].source,
        )
}

/// Partials that can be ranked, so that each includes only lower ones, come to an
/// end.
pub proof fn law_ranked_partials_come_to_an_end(
    tags: Seq<Option<Seq<char>>>,
    pieces: Seq<crate::template::PieceView>,
    ranks: Seq<nat>,
)
    requires
        forall|i: int, j: int| #[trigger] can_include(pieces, i, j) ==> ranks[j] < ranks[i],
    ensures
        !crate::template::lead_on(tags, pieces),
{
    if crate::template::lead_on(tags, pieces) {
        let marks = choose|marks: Seq<bool>| #[trigger]
            crate::template::keep_including(pieces, marks) && crate::template::reaches_marked(
                tags,
                pieces,
                marks,
            );
        let i = marked_target(tags, pieces, marks);
        ranks_go_down(pieces, ranks, marks, i);
    }
}

/// A marked piece that one of some tags can include.
proof fn marked_target(
    tags: Seq<Option<Seq<char>>>,
    pieces: Seq<crate::template::PieceView>,
    marks: Seq<bool>,
) -> (i: int)
    requires
        crate::template::reaches_marked(tags, pieces, marks),
    ensures
        0 <= i < pieces.len(),
        marks[i],
        exists|t: int|
            0 <= t < tags.len() && crate::template::reaches(
                #[trigger] tags[t],
                pieces[i].source,
            ),
{
    let (t, i) = choose|t: int, i: int|
        0 <= t < tags.len() && 0 <= i < pieces.len() && marks[i] && crate::template::reaches(
            #[trigger] tags[t],
            (#[trigger] pieces[i]).source,
        );
    i
}

/// No piece is marked that could lead down only so far.
proof fn ranks_go_down(
    pieces: Seq<crate::template::PieceView>,
    ranks: Seq<nat>,
    marks: Seq<bool>,
    i: int,
)
    requires
        forall|i: int, j: int| #[trigger] can_include(pieces, i, j) ==> ranks[j] < ranks[i],
        crate::template::keep_including(pieces, marks),
        0 <= i < pieces.len(),
    ensures
        !marks[i],
    decreases ranks[i],
{
    if marks[i] {
        assert(crate::template::reaches_marked(pieces[i].tags, pieces, marks));
        let j = marked_target(pieces[i].tags, pieces, marks);
        assert(can_include(pieces, i, j));
        ranks_go_down(pieces, ranks, marks, j);
    }
}

/// Partials of which each includes the next, and the last the first, have no end
/// once one of them is included.
pub proof fn law_circle_has_no_end(
    tags: Seq<Option<Seq<char>>>,
    pieces: Seq<crate::template::PieceView>,
    circle: Seq<int>,
    uses: Seq<int>,
    t: int,
)
    requires
        circle.len() > 0,
        uses.len() == circle.len(),
        forall|c: int|
            0 <= c < circle.len() ==> {
                let next = if c + 1 < circle.len() {
                    circle[c + 1]
                } else {
                    circle[0]
                };
                &&& 0 <= #[trigger] circle[c] < pieces.len()
                &&& 0 <= uses[c] < pieces[circle[c]].tags.len()
                &&& crate::template::reaches(
                    pieces[circle[c]].tags[uses[c]],
                    pieces[next].source,
                )
            },
        0 <= t < tags.len(),
        crate::template::reaches(tags[t], pieces[circle[0]].source),
    ensures
        crate::template::lead_on(tags, pieces),
{
    let marks = Seq::new(pieces.len(), |i: int| circle.contains(i));
    assert(circle.contains(circle[0]));
    assert forall|i: int| 0 <= i < pieces.len() && marks[i] implies crate::template::reaches_marked(
        (#[trigger] pieces[i]).tags,
        pieces,
        marks,
    ) by {
        let c = choose|c: int| 0 <= c < circle.len() && circle[c] == i;
        let next = if c + 1 < circle.len() {
            circle[c + 1]
        } else {
            circle[0]
        };
        assert(circle.contains(next));
        assert(circle[c] == i);
        let own = pieces[i].tags;
        assert(crate::template::reaches(own[uses[c]], pieces[next].source));
        assert(marks[next]);
    }
    assert(crate::template::keep_including(pieces, marks));
    assert(marks[circle[0]]);
    assert(crate::template::reaches_marked(tags, pieces, marks));
}

/// Whatever stands in a template is looked at: a tag is among the names that are
/// included, a definition and a block that is handed over are among the pieces,
/// with the names that they include; and so is what stands inside of blocks.
pub proof fn law_every_part_is_looked_at(parts: Seq<crate::template::Part>, i: int)
    requires
        0 <= i < parts.len(),
    ensures
        ({
            let tags = crate::template::tags(parts);
            let pieces = crate::template::pieces(parts);
            match parts[i] {
                crate::template::Part::Plain => true,
                crate::template::Part::Partial(name) => tags.contains(
                    crate::template::name_text(name),
                ),
                crate::template::Part::Block(body, otherwise) => {
                    &&& forall|tag: Option<Seq<char>>|
                        crate::template::tags(body@).contains(tag) || crate::template::tags(
                            otherwise@,
                        ).contains(tag) ==> #[trigger] tags.contains(tag)
                    &&& forall|piece: crate::template::PieceView|
                        crate::template::pieces(body@).contains(piece) || crate::template::pieces(
                            otherwise@,
                        ).contains(piece) ==> #[trigger] pieces.contains(piece)
                },
                crate::template::Part::Definition(name, body) => {
                    &&& pieces.contains(
                        crate::template::PieceView {
                            source: crate::template::source_of(name),
                            tags: crate::template::tags(body@),
                        },
                    )
                    &&& forall|piece: crate::template::PieceView|
                        crate::template::pieces(body@).contains(piece)
                            ==> #[trigger] pieces.contains(piece)
                },
                crate::template::Part::PartialBlock(name, body) => {
                    &&& tags.contains(crate::template::name_text(name))
                    &&& forall|tag: Option<Seq<char>>|
                        crate::template::tags(body@).contains(tag) ==> #[trigger] tags.contains(tag)
                    &&& pieces.contains(
                        crate::template::PieceView {
                            source: crate::template::SourceView::Handed,
                            tags: crate::template::tags(body@),
                        },
                    )
                    &&& forall|piece: crate::template::PieceView|
                        crate::template::pieces(body@).contains(piece)
                            ==> #[trigger] pieces.contains(piece)
                },
            }
        }),
{
    let part = parts[i];
    let part_tags = crate::template::part_tags(part);
    let part_pieces = crate::template::part_pieces(part);
    parts_are_held(parts, i);
    match part {
        crate::template::Part::Plain => {},
        crate::template::Part::Partial(name) => {
            assert(part_tags[0] == crate::template::name_text(name));
        },
        crate::template::Part::Block(body, otherwise) => {
            sum_holds(crate::template::tags(body@), crate::template::tags(otherwise@));
            sum_holds(crate::template::pieces(body@), crate::template::pieces(otherwise@));
        },
        crate::template::Part::Definition(_, body) => {
            let own = part_pieces[0];
            assert(part_pieces.contains(own));
            sum_holds(seq![own], crate::template::pieces(body@));
        },
        crate::template::Part::PartialBlock(name, body) => {
            assert(part_tags[0] == crate::template::name_text(name));
            sum_holds(
                seq![crate::template::name_text(name)],
                crate::template::tags(body@),
            );
            let own = part_pieces[0];
            assert(part_pieces.contains(own));
            sum_holds(seq![own], crate::template::pieces(body@));
        },
    }
}

/// Two sequences in one hold what either holds.
proof fn sum_holds<T>(one: Seq<T>, other: Seq<T>)
    ensures
        forall|x: T| one.contains(x) || other.contains(x) ==> #[trigger] (one + other).contains(x),
{
    assert forall|x: T| one.contains(x) || other.contains(x) implies #[trigger] (one
        + other).contains(x) by {
        if one.contains(x) {
            let i = choose|i: int| 0 <= i < one.len() && one[i] == x;
            assert((one + other)[i] == x);
        } else {
            let i = choose|i: int| 0 <= i < other.len() && other[i] == x;
            assert((one + other)[one.len() + i] == x);
        }
    }
}

/// What a part holds, the parts hold.
proof fn parts_are_held(parts: Seq<crate::template::Part>, i: int)
    requires
        0 <= i < parts.len(),
    ensures
        forall|tag: Option<Seq<char>>|
            crate::template::part_tags(parts[i]).contains(tag)
                ==> #[trigger] crate::template::tags(parts).contains(tag),
        forall|piece: crate::template::PieceView|
            crate::template::part_pieces(parts[i]).contains(piece)
                ==> #[trigger] crate::template::pieces(parts).contains(piece),
    decreases parts.len(),
{
    let earlier = parts.drop_last();
    let last = parts.last();
    sum_holds(crate::template::tags(earlier), crate::template::part_tags(last));
    sum_holds(crate::template::pieces(earlier), crate::template::part_pieces(last));
    if i < parts.len() - 1 {
        parts_are_held(earlier, i);
        assert(earlier[i] == parts[i]);
    }
}

/// A round counts its result, tells what the test has come to where that is new,
/// and ends a recovery with telling it.
pub proof fn law_round_counts_and_tells(
    runner: TestRunner,
    result: crate::runner::ZuseTestResult,
    counting: ClockReading,
    telling: ClockReading,
    next: TestRunner,
    message: Option<ZuseJobMessage>,
)
    requires
        runner.round_leads_to(result, counting, telling, next, message),
    ensures
        ({
            let jsm = if result.status is Failure {
                runner.jsm.lost(counting)
            } else {
                runner.jsm.won(counting)
            };
            let new = jsm.last_state != jsm.state;
            &&& message is Some <==> new && (jsm.state is Failure || jsm.state is Recovery)
            &&& message is Some ==> {
                &&& message->0.state == jsm.state
                &&& message->0.time_state_lasted == jsm.last_state_lasted
                &&& message->0.test_id == runner.test_id
                &&& message->0.test_name@ == runner.test_name@
                &&& message->0.test_url@ == runner.test_url@
            }
            &&& new && jsm.state is Recovery ==> next.jsm == jsm.settled(telling)
            &&& !(new && jsm.state is Recovery) ==> next.jsm == jsm
            &&& next.test_id == runner.test_id
            &&& next.test_name == runner.test_name
            &&& next.test_url == runner.test_url
            &&& next.dump_prefix_url == runner.dump_prefix_url
        }),
{
}

/// What is known of a message, of a set-up and of a piece of a template is each of
/// their fields.
pub proof fn law_views_show_the_fields(
    message: ZuseJobMessage,
    setup: crate::setup::Setup,
    piece: crate::template::Piece,
)
    ensures
        message@.test_id == message.test_id,
        message@.test_name == message.test_name@,
        message@.test_url == message.test_url@,
        message@.dump_html == message.dump_html@,
        message@.dump_url == message.dump_url@,
        message@.dump_used == message.dump_used,
        message@.time_state_lasted == message.time_state_lasted,
        message@.state == message.state,
        setup@.notifier == setup.notifier_id,
        setup@.channel == setup.channel_id,
        setup@.stage == setup.stage,
        piece@.tags.len() == piece.tags@.len(),
        piece.source is Named ==> piece@.source == crate::template::SourceView::Named(
            piece.source->0@,
        ),
        piece.source is Handed <==> piece@.source is Handed,
        piece.source is Computed <==> piece@.source is Computed,
        forall|t: int|
            0 <= t < piece.tags@.len() ==> {
                &&& #[trigger] piece.tags@[t] is Some ==> piece@.tags[t] == Some(
                    piece.tags@[t]->0@,
                )
                &&& piece.tags@[t] is None ==> piece@.tags[t] is None
            },
{
}

/// A test that passed is a success, and one that did not is a failure.
pub proof fn law_status_says_whether_a_test_passed(passed: bool)
    ensures
        passed ==> crate::runner::status_of(passed) is Success,
        !passed ==> crate::runner::status_of(passed) is Failure,
        <ZuseRunnerStatus as vstd::std_specs::convert::FromSpec<bool>>::from_spec(passed)
            == crate::runner::status_of(passed),
{
}

/// The names that a test tells are those of its channels and then those of the
/// members of its groups, also where some of them are not known; and what is told
/// are the channels that go by these names.
pub proof fn law_names_come_before_members(
    zuse: Zuse,
    test: ZuseConfigTest,
    own: Seq<String>,
    listed: Seq<String>,
    g: int,
    k: int,
)
    requires
        test.notify is Some ==> own == test.notify->0@,
        test.notify is None ==> own.len() == 0,
        test.notify_groups is Some ==> listed == test.notify_groups->0@,
        test.notify_groups is None ==> listed.len() == 0,
    ensures
        ({
            let names = zuse.told_names(test);
            let groups = zuse.notify_groups@;
            &&& names.len() == own.len() + members_before(groups, listed, listed.len() as int)
            &&& names.take(own.len() as int) =~= own
            &&& 0 <= g < listed.len() && 0 <= k < groups[listed[g]@]@.len() ==> names[own.len()
                + members_before(groups, listed, g) + k] == member(groups, listed, g, k)
            &&& zuse.told_channels(test) == crate::zuse::reached(
                zuse.channels@,
                names,
                names.len(),
            )
        }),
{
    let groups = zuse.notify_groups@;
    assert(own =~= crate::validate::names(test.notify));
    assert(listed =~= crate::validate::names(test.notify_groups));
    members_in_order(groups, listed, listed.len(), -1, 0);
    if 0 <= g < listed.len() && 0 <= k < groups[listed[g]@]@.len() {
        members_in_order(groups, listed, listed.len(), g, k);
    }
}

/// Also of a bot that was put together by hand: a channel goes by the notifier in
/// its slot, nothing is sent where that is not there, and what is sent goes where
/// the channel says.
pub proof fn law_channel_goes_by_the_notifier_in_its_slot(
    zuse: Zuse,
    channel: ZuseChannel,
    msg: ZuseJobMessage,
    outcome: Result<Delivery, SendError>,
)
    requires
        zuse.sends(channel, msg, outcome),
    ensures
        ({
            let slot = crate::setup::slot(zuse.args.config.notifiers@, channel.0 as nat);
            let there = slot < zuse.notifiers@.len();
            let notifier = zuse.notifiers@[slot as int];
            let configured = zuse.args.config.notifiers@[channel.0 as int];
            &&& !there ==> outcome is Err && outcome->Err_0 is NoNotifier
            &&& there && notifier is Sns && channel.1 is Telegram ==> outcome is Ok
                && outcome->Ok_0 is Nothing
            &&& there && !(notifier is Sns && channel.1 is Telegram) && channel.0
                >= zuse.args.config.notifiers@.len() ==> outcome is Err && outcome->Err_0 is NoNotifier
            &&& outcome is Ok && outcome->Ok_0 is Sns ==> {
                &&& channel.1 is Sns
                &&& outcome->Ok_0->Sns_0.phone_number == channel.1->Sns_0
                &&& outcome->Ok_0->Sns_0.target_arn == channel.1->Sns_1
                &&& outcome->Ok_0->Sns_0.topic_arn == channel.1->Sns_2
                &&& Some(outcome->Ok_0->Sns_0.subject@) == msg@.rendering(
                    crate::message::subject_template(msg.state, configured),
                )
                &&& Some(outcome->Ok_0->Sns_0.message@) == msg@.rendering(
                    crate::message::body_template(msg.state, configured),
                )
            }
            &&& outcome is Ok && outcome->Ok_0 is Telegram ==> {
                &&& channel.1 is Telegram
                &&& Some(outcome->Ok_0->chat_id) == crate::text::parsed_i64(
                    channel.1->Telegram_0@,
                )
                &&& Some(outcome->Ok_0->text@) == msg@.rendering(
                    crate::message::body_template(msg.state, configured),
                )
            }
        }),
{
}

/// Every test of a bot that was set up has what its runs need: its counts and its
/// interval, a URL where it asks over HTTP, and something sound to expect where it
/// matches; and whom it names is there.
pub proof fn law_every_test_can_be_run(zuse: Zuse, t: int, i: int)
    requires
        zuse.wf(),
        0 <= t < zuse.args.config.tests@.len(),
    ensures
        ({
            let test = zuse.args.config.tests@[t];
            &&& test.retries is Some
            &&& test.recovery is Some
            &&& test.interval is Some
            &&& test.test_type is HttpOk || test.test_type is HttpMatch
                ==> crate::bindings::is_absolute_url(test.target@)
            &&& test.test_type is HttpMatch ==> {
                &&& test.expect is Some
                &&& test.expect->0.text is Some || test.expect->0.status is Some
                &&& test.expect->0.status is Some ==> 100 <= test.expect->0.status->0 < 1000
            }
            &&& test.notify is Some && 0 <= i < test.notify->0@.len()
                ==> zuse.channels@.contains_key(test.notify->0@[i]@)
            &&& test.notify_groups is Some && 0 <= i < test.notify_groups->0@.len()
                ==> zuse.notify_groups@.contains_key(test.notify_groups->0@[i]@)
        }),
{
    let test = zuse.args.config.tests@[t];
    assert(zuse.can_run(test));
    if test.notify is Some && 0 <= i < test.notify->0@.len() {
        assert(crate::validate::names(test.notify)[i] == test.notify->0@[i]);
    }
    if test.notify_groups is Some && 0 <= i < test.notify_groups->0@.len() {
        assert(crate::validate::names(test.notify_groups)[i] == test.notify_groups->0@[i]);
    }
}

} // verus!
