//! What holds of the bot over many steps.

use crate::config::{ZuseArgs, ZuseConfig, ZuseConfigNotifier, ZuseConfigNotifyGroups};
use crate::job::{ClockReading, JobSMStates, JobStateMachine};
use crate::message::ZuseJobMessage;
use crate::runner::ZuseRunnerStatus;
use crate::setup::{Setup, SetupPosition, SetupStage, ZuseChannel};
use crate::validate::ZuseNotifyGroup;
use crate::zuse::{Delivery, SendError, Zuse};
use vstd::prelude::*;

verus! {

/// A round of a test: its result, and what the clock showed.
pub struct Round {
    pub status: ZuseRunnerStatus,
    pub counting: ClockReading,
    pub telling: ClockReading,
}

/// The machine of a test after some rounds.
pub open spec fn after_rounds(jsm: JobStateMachine, rounds: Seq<Round>) -> JobStateMachine
    decreases rounds.len(),
{
    if rounds.len() == 0 {
        jsm
    } else {
        let last = rounds.last();
        crate::runner::after_round(
            after_rounds(jsm, rounds.drop_last()),
            last.status,
            last.counting,
            last.telling,
        )
    }
}

/// What has been told after some rounds.
pub open spec fn news_of_rounds(jsm: JobStateMachine, rounds: Seq<Round>) -> Seq<JobSMStates>
    decreases rounds.len(),
{
    if rounds.len() == 0 {
        Seq::empty()
    } else {
        let last = rounds.last();
        let before = after_rounds(jsm, rounds.drop_last());
        let told = news_of_rounds(jsm, rounds.drop_last());
        match crate::runner::news(crate::runner::counted(before, last.status, last.counting)) {
            Some(state) => told.push(state),
            None => told,
        }
    }
}

/// Whether all rounds end the same way.
pub open spec fn all_end(rounds: Seq<Round>, status: ZuseRunnerStatus) -> bool {
    forall|i: int| 0 <= i < rounds.len() ==> (#[trigger] rounds[i]).status == status
}

/// How many times something has to happen in a row: a limit of zero counts as one.
pub open spec fn in_a_row(limit: u64) -> nat {
    if limit == 0 {
        1
    } else {
        limit as nat
    }
}

/// How many rounds at the end went the same way without a break.
pub open spec fn trailing(rounds: Seq<Round>, status: ZuseRunnerStatus) -> nat
    decreases rounds.len(),
{
    if rounds.len() == 0 || rounds.last().status != status {
        0
    } else {
        trailing(rounds.drop_last(), status) + 1
    }
}

/// Whether no beginning of some rounds ends with so many of a kind in a row.
pub open spec fn never_in_a_row(rounds: Seq<Round>, status: ZuseRunnerStatus, limit: nat) -> bool {
    forall|k: int| 0 <= k <= rounds.len() ==> trailing(#[trigger] rounds.take(k), status) < limit
}

/// Rounds that never went one way so often in a row did not before the last one
/// either.
proof fn never_before(rounds: Seq<Round>, status: ZuseRunnerStatus, limit: nat)
    requires
        rounds.len() > 0,
        never_in_a_row(rounds, status, limit),
    ensures
        never_in_a_row(rounds.drop_last(), status, limit),
        trailing(rounds, status) < limit,
{
    let earlier = rounds.drop_last();
    assert forall|k: int| 0 <= k <= earlier.len() implies trailing(
        #[trigger] earlier.take(k),
        status,
    ) < limit by {
        assert(earlier.take(k) =~= rounds.take(k));
    }
    assert(rounds.take(rounds.len() as int) =~= rounds);
}

/// Nothing is told of a test before it has failed often enough in a row.
proof fn quiet_until_failing(jsm: JobStateMachine, rounds: Seq<Round>)
    requires
        jsm.state is Normative,
        jsm.n_failures == 0,
        never_in_a_row(rounds, ZuseRunnerStatus::Failure, in_a_row(jsm.retries)),
    ensures
        news_of_rounds(jsm, rounds) =~= Seq::<JobSMStates>::empty(),
        after_rounds(jsm, rounds).state is Normative,
        after_rounds(jsm, rounds).n_failures == trailing(rounds, ZuseRunnerStatus::Failure),
        after_rounds(jsm, rounds).retries == jsm.retries,
    decreases rounds.len(),
{
    if rounds.len() > 0 {
        never_before(rounds, ZuseRunnerStatus::Failure, in_a_row(jsm.retries));
        quiet_until_failing(jsm, rounds.drop_last());
    }
}

/// Whatever comes before: nothing is told of a test until it has failed as often
/// in a row as there are retries, and then it is told that it failed.
pub proof fn law_failure_is_told_at_the_first_full_run(jsm: JobStateMachine, rounds: Seq<Round>)
    requires
        jsm.state is Normative,
        jsm.n_failures == 0,
        rounds.len() > 0,
        never_in_a_row(rounds.drop_last(), ZuseRunnerStatus::Failure, in_a_row(jsm.retries)),
    ensures
        news_of_rounds(jsm, rounds.drop_last()) =~= Seq::<JobSMStates>::empty(),
        trailing(rounds, ZuseRunnerStatus::Failure) < in_a_row(jsm.retries) ==> {
            &&& news_of_rounds(jsm, rounds) =~= Seq::<JobSMStates>::empty()
            &&& after_rounds(jsm, rounds).state is Normative
        },
        trailing(rounds, ZuseRunnerStatus::Failure) >= in_a_row(jsm.retries) ==> {
            &&& news_of_rounds(jsm, rounds) =~= seq![JobSMStates::Failure]
            &&& after_rounds(jsm, rounds).state is Failure
        },
{
    let earlier = rounds.drop_last();
    quiet_until_failing(jsm, earlier);
    assert(earlier.take(earlier.len() as int) =~= earlier);
}

/// Whether all that is told is that a test has failed.
pub open spec fn only_failures(news: Seq<JobSMStates>) -> bool {
    forall|i: int| 0 <= i < news.len() ==> #[trigger] news[i] is Failure
}

/// No recovery of a failing test is told before it has passed often enough in a
/// row.
proof fn failing_until_recovering(jsm: JobStateMachine, rounds: Seq<Round>)
    requires
        jsm.state is Failure,
        jsm.n_recoveries == 0,
        never_in_a_row(rounds, ZuseRunnerStatus::Success, in_a_row(jsm.recovery)),
    ensures
        only_failures(news_of_rounds(jsm, rounds)),
        !jsm.changed() ==> {
            &&& news_of_rounds(jsm, rounds) =~= Seq::<JobSMStates>::empty()
            &&& !after_rounds(jsm, rounds).changed()
        },
        after_rounds(jsm, rounds).state is Failure,
        after_rounds(jsm, rounds).n_recoveries == trailing(rounds, ZuseRunnerStatus::Success),
        after_rounds(jsm, rounds).recovery == jsm.recovery,
    decreases rounds.len(),
{
    if rounds.len() > 0 {
        never_before(rounds, ZuseRunnerStatus::Success, in_a_row(jsm.recovery));
        failing_until_recovering(jsm, rounds.drop_last());
    }
}

/// Whatever comes before: the recovery of a failing test is told when it has passed
/// as often in a row as it takes to recover, and not earlier. Up to then nothing
/// but failures is told, and not even those once the test has gone on failing.
pub proof fn law_recovery_is_told_at_the_first_full_run(jsm: JobStateMachine, rounds: Seq<Round>)
    requires
        jsm.state is Failure,
        jsm.n_recoveries == 0,
        rounds.len() > 0,
        never_in_a_row(rounds.drop_last(), ZuseRunnerStatus::Success, in_a_row(jsm.recovery)),
    ensures
        only_failures(news_of_rounds(jsm, rounds.drop_last())),
        !jsm.changed() ==> news_of_rounds(jsm, rounds.drop_last()) =~= Seq::<JobSMStates>::empty(),
        crate::runner::news(
            crate::runner::counted(
                after_rounds(jsm, rounds.drop_last()),
                rounds.last().status,
                rounds.last().counting,
            ),
        ) == Some(JobSMStates::Recovery) <==> trailing(rounds, ZuseRunnerStatus::Success)
            >= in_a_row(jsm.recovery),
        trailing(rounds, ZuseRunnerStatus::Success) < in_a_row(jsm.recovery) ==> {
            &&& only_failures(news_of_rounds(jsm, rounds))
            &&& !jsm.changed() ==> news_of_rounds(jsm, rounds) =~= Seq::<JobSMStates>::empty()
            &&& after_rounds(jsm, rounds).state is Failure
        },
        trailing(rounds, ZuseRunnerStatus::Success) >= in_a_row(jsm.recovery) ==> {
            &&& news_of_rounds(jsm, rounds) =~= news_of_rounds(jsm, rounds.drop_last()).push(
                JobSMStates::Recovery,
            )
            &&& after_rounds(jsm, rounds).state is Normative
        },
{
    let earlier = rounds.drop_last();
    failing_until_recovering(jsm, earlier);
    assert(earlier.take(earlier.len() as int) =~= earlier);
}

/// A test that keeps failing is told of exactly once, at the failure that makes
/// the number of retries full.
pub proof fn law_failing_test_is_told_once(jsm: JobStateMachine, rounds: Seq<Round>)
    requires
        jsm.state is Normative,
        jsm.n_failures == 0,
        all_end(rounds, ZuseRunnerStatus::Failure),
    ensures
        rounds.len() < in_a_row(jsm.retries) ==> {
            &&& news_of_rounds(jsm, rounds) =~= Seq::<JobSMStates>::empty()
            &&& after_rounds(jsm, rounds).state is Normative
            &&& after_rounds(jsm, rounds).n_failures == rounds.len()
        },
        rounds.len() >= in_a_row(jsm.retries) ==> {
            &&& news_of_rounds(jsm, rounds) =~= seq![JobSMStates::Failure]
            &&& after_rounds(jsm, rounds).state is Failure
        },
        after_rounds(jsm, rounds).retries == jsm.retries,
    decreases rounds.len(),
{
    if rounds.len() > 0 {
        assert(rounds.last() == rounds[rounds.len() - 1]);
        law_failing_test_is_told_once(jsm, rounds.drop_last());
    }
}

/// A number of failures, told one after the other.
pub open spec fn failures(count: nat) -> Seq<JobSMStates> {
    Seq::new(count, |i: int| JobSMStates::Failure)
}

/// The recovery of a failing test that keeps passing is told exactly once, at the
/// pass that makes the number of recoveries full; after that it is as it should
/// be. Where the failure has just been told, every pass before tells it again.
pub proof fn law_recovering_test_is_told_once(jsm: JobStateMachine, rounds: Seq<Round>)
    requires
        jsm.state is Failure,
        jsm.n_recoveries == 0,
        all_end(rounds, ZuseRunnerStatus::Success),
    ensures
        rounds.len() < in_a_row(jsm.recovery) ==> {
            &&& news_of_rounds(jsm, rounds) =~= failures(
                if jsm.changed() {
                    rounds.len()
                } else {
                    0
                },
            )
            &&& after_rounds(jsm, rounds).state is Failure
            &&& after_rounds(jsm, rounds).changed() == jsm.changed()
            &&& after_rounds(jsm, rounds).n_recoveries == rounds.len()
        },
        rounds.len() >= in_a_row(jsm.recovery) ==> {
            &&& news_of_rounds(jsm, rounds) =~= failures(
                if jsm.changed() {
                    (in_a_row(jsm.recovery) - 1) as nat
                } else {
                    0
                },
            ).push(JobSMStates::Recovery)
            &&& after_rounds(jsm, rounds).state is Normative
            &&& after_rounds(jsm, rounds).n_failures == 0
            &&& after_rounds(jsm, rounds).n_recoveries == 0
        },
        after_rounds(jsm, rounds).recovery == jsm.recovery,
    decreases rounds.len(),
{
    if rounds.len() > 0 {
        assert(rounds.last() == rounds[rounds.len() - 1]);
        law_recovering_test_is_told_once(jsm, rounds.drop_last());
    }
}

/// Nothing is told of a test that keeps passing.
pub proof fn law_passing_test_is_not_told(jsm: JobStateMachine, rounds: Seq<Round>)
    requires
        jsm.state is Normative,
        all_end(rounds, ZuseRunnerStatus::Success),
    ensures
        news_of_rounds(jsm, rounds) =~= Seq::<JobSMStates>::empty(),
        after_rounds(jsm, rounds).state is Normative,
    decreases rounds.len(),
{
    if rounds.len() > 0 {
        assert(rounds.last() == rounds[rounds.len() - 1]);
        law_passing_test_is_not_told(jsm, rounds.drop_last());
    }
}

/// Only what happens in a row counts: a pass before the test has failed makes the
/// failures start again, and a failure before it has recovered the recoveries.
pub proof fn law_counting_starts_again(jsm: JobStateMachine, reading: ClockReading)
    ensures
        jsm.state is Normative ==> jsm.won(reading).n_failures == 0,
        jsm.lost(reading).n_recoveries == 0,
{
}

/// The time of the last change, and how long the state before it lasted, stand
/// until the state changes.
pub proof fn law_clock_stands_while_state_lasts(
    jsm: JobStateMachine,
    status: ZuseRunnerStatus,
    counting: ClockReading,
    telling: ClockReading,
)
    ensures
        ({
            let next = crate::runner::after_round(jsm, status, counting, telling);
            next.state == jsm.state && jsm.state !is Recovery ==> {
                &&& next.last_change == jsm.last_change
                &&& next.last_state_lasted == jsm.last_state_lasted
            }
        }),
{
}

/// Between rounds a test is failing or as it should be, and it is failing if and
/// only if that was the last thing told.
proof fn state_is_last_news(jsm: JobStateMachine, rounds: Seq<Round>)
    requires
        jsm.state is Normative,
    ensures
        after_rounds(jsm, rounds).state !is Recovery,
        after_rounds(jsm, rounds).state is Failure <==> {
            &&& news_of_rounds(jsm, rounds).len() > 0
            &&& news_of_rounds(jsm, rounds).last() is Failure
        },
    decreases rounds.len(),
{
    if rounds.len() > 0 {
        state_is_last_news(jsm, rounds.drop_last());
    }
}

/// The first thing told of a test is that it has failed, and a recovery is told
/// only right after a failure.
pub proof fn law_recovery_follows_failure(jsm: JobStateMachine, rounds: Seq<Round>, i: int)
    requires
        jsm.state is Normative,
        0 <= i < news_of_rounds(jsm, rounds).len(),
        news_of_rounds(jsm, rounds)[i] is Recovery,
    ensures
        i > 0,
        news_of_rounds(jsm, rounds)[i - 1] is Failure,
    decreases rounds.len(),
{
    let told = news_of_rounds(jsm, rounds.drop_last());
    state_is_last_news(jsm, rounds.drop_last());
    if i < told.len() {
        law_recovery_follows_failure(jsm, rounds.drop_last(), i);
    }
}

/// Whether a failure is told again: where the test passes right after it was told,
/// or after passing ever since, and has not recovered yet.
pub open spec fn tells_again(jsm: JobStateMachine, status: ZuseRunnerStatus) -> bool {
    &&& jsm.state is Failure
    &&& jsm.changed()
    &&& status is Success
    &&& jsm.n_recoveries + 1 < jsm.recovery
}

/// Where no failure is told again, failures and recoveries are told in turn.
pub proof fn law_news_alternate(jsm: JobStateMachine, rounds: Seq<Round>, i: int)
    requires
        jsm.state is Normative,
        forall|k: int|
            0 <= k < rounds.len() ==> !tells_again(
                after_rounds(jsm, rounds.take(k)),
                (#[trigger] rounds[k]).status,
            ),
        0 < i < news_of_rounds(jsm, rounds).len(),
    ensures
        news_of_rounds(jsm, rounds)[i] != news_of_rounds(jsm, rounds)[i - 1],
    decreases rounds.len(),
{
    let earlier = rounds.drop_last();
    let last = rounds.len() - 1;
    state_is_last_news(jsm, earlier);
    assert(rounds.take(last) =~= earlier);
    assert(!tells_again(after_rounds(jsm, rounds.take(last)), rounds[last].status));
    if i < news_of_rounds(jsm, earlier).len() {
        assert forall|k: int| 0 <= k < earlier.len() implies !tells_again(
            after_rounds(jsm, earlier.take(k)),
            (#[trigger] earlier[k]).status,
        ) by {
            assert(earlier.take(k) =~= rounds.take(k));
            assert(earlier[k] == rounds[k]);
        }
        law_news_alternate(jsm, earlier, i);
    }
}

/// Debugging takes in being verbose.
pub proof fn law_debug_is_verbose(args: ZuseArgs)
    ensures
        args.wants_debug() ==> args.wants_verbose(),
{
}

/// How many questions the notifiers before the given one can lead to.
pub open spec fn questions_before(notifiers: Seq<ZuseConfigNotifier>, notifier: nat) -> nat
    decreases notifier,
{
    if notifier == 0 {
        0
    } else {
        questions_before(notifiers, (notifier - 1) as nat) + 1 + notifiers[notifier
            - 1].channels@.len()
    }
}

/// How many questions stand before a place of a set-up.
pub open spec fn progress(notifiers: Seq<ZuseConfigNotifier>, position: SetupPosition) -> nat {
    let before = questions_before(notifiers, position.notifier);
    match position.stage {
        SetupStage::Chat | SetupStage::Phone => before + 1 + position.channel,
        _ => before,
    }
}

/// More notifiers lead to more questions.
proof fn questions_grow(notifiers: Seq<ZuseConfigNotifier>, fewer: nat, more: nat)
    requires
        fewer <= more,
    ensures
        questions_before(notifiers, fewer) <= questions_before(notifiers, more),
    decreases more,
{
    if fewer < more {
        questions_grow(notifiers, fewer, (more - 1) as nat);
    }
}

/// Looking at notifiers does not go back.
proof fn notifiers_go_forward(
    notifiers: Seq<ZuseConfigNotifier>,
    environment: bool,
    notifier: nat,
)
    requires
        notifier <= notifiers.len(),
    ensures
        ({
            let (position, action) = crate::setup::from_notifier(notifiers, environment, notifier);
            action !is Fail ==> {
                &&& questions_before(notifiers, notifier) <= progress(notifiers, position)
                &&& progress(notifiers, position) <= questions_before(notifiers, notifiers.len())
            }
        }),
    decreases notifiers.len() - notifier,
{
    if notifier < notifiers.len() {
        questions_grow(notifiers, notifier, notifier + 1);
        questions_grow(notifiers, notifier, notifiers.len());
        notifiers_go_forward(notifiers, environment, notifier + 1);
    }
}

/// Looking at channels does not go back.
proof fn channels_go_forward(
    notifiers: Seq<ZuseConfigNotifier>,
    environment: bool,
    notifier: nat,
    channel: nat,
)
    requires
        notifier < notifiers.len(),
        channel <= notifiers[notifier as int].channels@.len(),
    ensures
        ({
            let (position, action) = crate::setup::from_channel(
                notifiers,
                environment,
                notifier,
                channel,
            );
            action !is Fail ==> {
                &&& questions_before(notifiers, notifier) + 1 + channel <= progress(
                    notifiers,
                    position,
                )
                &&& progress(notifiers, position) <= questions_before(notifiers, notifiers.len())
            }
        }),
    decreases notifiers[notifier as int].channels@.len() - channel,
{
    if channel < notifiers[notifier as int].channels@.len() {
        questions_grow(notifiers, notifier + 1, notifiers.len());
        channels_go_forward(notifiers, environment, notifier, channel + 1);
    } else {
        notifiers_go_forward(notifiers, environment, notifier + 1);
    }
}

/// A set-up comes to an end: every good answer that does not make it fail brings
/// it forward, and it cannot go further than one question for each notifier and
/// one for each channel.
pub proof fn law_setup_ends(setup: Setup)
    requires
        setup.wf(),
        setup.waits(),
    ensures
        ({
            let (position, action) = crate::setup::answered(
                setup.configured(),
                setup.environment,
                setup@,
                true,
            );
            action !is Fail ==> {
                &&& progress(setup.configured(), setup@) < progress(setup.configured(), position)
                &&& progress(setup.configured(), position) <= questions_before(
                    setup.configured(),
                    setup.configured().len(),
                )
            }
        }),
{
    let channels = setup.configured()[setup@.notifier as int].channels@;
    channels_go_forward(setup.configured(), setup.environment, setup@.notifier, 0);
    channels_go_forward(
        setup.configured(),
        setup.environment,
        setup@.notifier,
        setup@.channel + 1,
    );
}

/// A bad answer ends a set-up.
pub proof fn law_bad_answer_fails(setup: Setup)
    requires
        setup.wf(),
        setup.waits(),
    ensures
        ({
            let (position, action) = crate::setup::answered(
                setup.configured(),
                setup.environment,
                setup@,
                false,
            );
            action is Fail && position.stage is Failed
        }),
{
}

/// Whether a channel of a configuration has the given name, and stands before the
/// given place.
pub open spec fn named_before(
    notifiers: Seq<ZuseConfigNotifier>,
    notifier: nat,
    channel: nat,
    name: Seq<char>,
    m: int,
    k: int,
) -> bool {
    &&& 0 <= m < notifiers.len()
    &&& 0 <= k < notifiers[m].channels@.len()
    &&& m < notifier || m == notifier && k < channel
    &&& notifiers[m].channels@[k].name@ == name
}

/// Whether it is the last channel with that name before that place.
pub open spec fn last_named_before(
    notifiers: Seq<ZuseConfigNotifier>,
    notifier: nat,
    channel: nat,
    name: Seq<char>,
    m: int,
    k: int,
) -> bool {
    &&& named_before(notifiers, notifier, channel, name, m, k)
    &&& forall|n: int, j: int| #[trigger]
        named_before(notifiers, notifier, channel, name, n, j) ==> n < m || n == m && j <= k
}

/// A name that is registered before a place is that of a channel before it, and
/// stands for the last such channel.
proof fn registered_is_last(
    notifiers: Seq<ZuseConfigNotifier>,
    notifier: nat,
    channel: nat,
    name: Seq<char>,
)
    requires
        notifier <= notifiers.len(),
        notifier == notifiers.len() ==> channel == 0,
        notifier < notifiers.len() ==> channel <= notifiers[notifier as int].channels@.len(),
    ensures
        crate::setup::registered(notifiers, notifier, channel).contains_key(name) <==> exists|
            m: int,
            k: int,
        | #[trigger] last_named_before(notifiers, notifier, channel, name, m, k),
        forall|m: int, k: int| #[trigger]
            last_named_before(notifiers, notifier, channel, name, m, k)
                ==> crate::setup::registered(notifiers, notifier, channel)[name]
                == crate::setup::channel_entry(
                m as nat,
                notifiers[m].notifier_type,
                notifiers[m].channels@[k],
            ),
    decreases notifier, channel,
{
    let map = crate::setup::registered(notifiers, notifier, channel);
    if channel > 0 {
        let c = (channel - 1) as nat;
        registered_is_last(notifiers, notifier, c, name);
        let added = notifiers[notifier as int].channels@[c as int];
        if added.name@ == name {
            assert(last_named_before(
                notifiers,
                notifier,
                channel,
                name,
                notifier as int,
                c as int,
            ));
            assert forall|m: int, k: int| #[trigger]
                last_named_before(notifiers, notifier, channel, name, m, k) implies m == notifier
                && k == c by {
                assert(named_before(
                    notifiers,
                    notifier,
                    channel,
                    name,
                    notifier as int,
                    c as int,
                ));
            }
        } else {
            assert forall|m: int, k: int|
                named_before(notifiers, notifier, channel, name, m, k) == #[trigger] named_before(
                    notifiers,
                    notifier,
                    c,
                    name,
                    m,
                    k,
                ) by {}
            same_last(notifiers, notifier, channel, notifier, c, name);
        }
    } else if notifier > 0 {
        let n = (notifier - 1) as nat;
        let c = notifiers[n as int].channels@.len();
        registered_is_last(notifiers, n, c, name);
        assert forall|m: int, k: int|
            named_before(notifiers, notifier, channel, name, m, k) == #[trigger] named_before(
                notifiers,
                n,
                c,
                name,
                m,
                k,
            ) by {}
        same_last(notifiers, notifier, channel, n, c, name);
    } else {
        assert forall|m: int, k: int| !last_named_before(notifiers, 0, 0, name, m, k) by {}
    }
}

/// Two places before which the same channels have a name have the same last one.
proof fn same_last(
    notifiers: Seq<ZuseConfigNotifier>,
    notifier: nat,
    channel: nat,
    other_notifier: nat,
    other_channel: nat,
    name: Seq<char>,
)
    requires
        forall|m: int, k: int|
            named_before(notifiers, notifier, channel, name, m, k) == #[trigger] named_before(
                notifiers,
                other_notifier,
                other_channel,
                name,
                m,
                k,
            ),
    ensures
        forall|m: int, k: int|
            #![trigger last_named_before(notifiers, notifier, channel, name, m, k)]
            #![trigger last_named_before(notifiers, other_notifier, other_channel, name, m, k)]
            last_named_before(notifiers, notifier, channel, name, m, k) == last_named_before(
                notifiers,
                other_notifier,
                other_channel,
                name,
                m,
                k,
            ),
{
    assert forall|m: int, k: int|
        #![trigger last_named_before(notifiers, notifier, channel, name, m, k)]
        #![trigger last_named_before(notifiers, other_notifier, other_channel, name, m, k)]
        last_named_before(notifiers, notifier, channel, name, m, k) == last_named_before(
            notifiers,
            other_notifier,
            other_channel,
            name,
            m,
            k,
        ) by {
        assert(named_before(notifiers, notifier, channel, name, m, k) == named_before(
            notifiers,
            other_notifier,
            other_channel,
            name,
            m,
            k,
        ));
        if last_named_before(notifiers, notifier, channel, name, m, k) {
            assert forall|n: int, j: int| #[trigger]
                named_before(
                    notifiers,
                    other_notifier,
                    other_channel,
                    name,
                    n,
                    j,
                ) implies n < m || n == m && j <= k by {
                assert(named_before(notifiers, notifier, channel, name, n, j));
            }
        }
        if last_named_before(notifiers, other_notifier, other_channel, name, m, k) {
            assert forall|n: int, j: int| #[trigger]
                named_before(notifiers, notifier, channel, name, n, j) implies n < m || n == m
                && j <= k by {
                assert(named_before(notifiers, other_notifier, other_channel, name, n, j));
            }
        }
    }
}

/// The bot knows exactly the channels that its configuration names, and of several
/// with one name the last.
pub proof fn law_last_channel_with_a_name_stays(zuse: Zuse, name: Seq<char>)
    requires
        zuse.wf(),
    ensures
        ({
            let notifiers = zuse.args.config.notifiers@;
            &&& zuse.channels@.contains_key(name) <==> exists|m: int, k: int| #[trigger]
                last_named_before(notifiers, notifiers.len(), 0, name, m, k)
            &&& forall|m: int, k: int| #[trigger]
                last_named_before(notifiers, notifiers.len(), 0, name, m, k)
                    ==> zuse.channels@[name] == crate::setup::channel_entry(
                    m as nat,
                    notifiers[m].notifier_type,
                    notifiers[m].channels@[k],
                )
        }),
{
    let notifiers = zuse.args.config.notifiers@;
    registered_is_last(notifiers, notifiers.len(), 0, name);
}

/// A notifier with channels is set up, at its slot.
pub(crate) proof fn connected_at_slot(notifiers: Seq<ZuseConfigNotifier>, count: nat, m: nat)
    requires
        m < count <= notifiers.len(),
        notifiers[m as int].channels@.len() > 0,
    ensures
        crate::setup::slot(notifiers, count) == crate::setup::connected(notifiers, count).len(),
        crate::setup::slot(notifiers, m) < crate::setup::connected(notifiers, count).len(),
        crate::setup::connected(notifiers, count)[crate::setup::slot(notifiers, m) as int]
            == crate::setup::notify_type(notifiers[m as int].notifier_type),
    decreases count,
{
    slot_counts(notifiers, count);
    slot_counts(notifiers, m);
    if m < count - 1 {
        connected_at_slot(notifiers, (count - 1) as nat, m);
    }
}

/// A slot is how many notifiers before a place are set up.
proof fn slot_counts(notifiers: Seq<ZuseConfigNotifier>, place: nat)
    requires
        place <= notifiers.len(),
    ensures
        crate::setup::slot(notifiers, place) == crate::setup::connected(notifiers, place).len(),
    decreases place,
{
    if place > 0 {
        slot_counts(notifiers, (place - 1) as nat);
    }
}

/// Every channel of the bot is served by the notifier under which the configuration
/// lists it, whichever others have no channel: a message that can be rendered is
/// sent there.
pub proof fn law_every_channel_is_served(
    zuse: Zuse,
    name: Seq<char>,
    msg: ZuseJobMessage,
    outcome: Result<Delivery, SendError>,
)
    requires
        zuse.wf(),
        zuse.channels@.contains_key(name),
        ({
            let notifier = zuse.args.config.notifiers[zuse.channels@[name].0 as int];
            &&& !crate::message::names_local_this(msg.state, notifier)
            &&& !crate::message::is_circular(msg.state, notifier)
            &&& msg@.rendering(crate::message::body_template(msg.state, notifier)) is Some
            &&& msg@.rendering(crate::message::subject_template(msg.state, notifier)) is Some
        }),
        zuse.sends(zuse.channels@[name], msg, outcome),
    ensures
        zuse.serving(zuse.channels@[name]) == Some(
            crate::setup::notify_type(
                zuse.args.config.notifiers[zuse.channels@[name].0 as int].notifier_type,
            ),
        ),
        outcome is Ok,
        match zuse.channels@[name].1 {
            crate::setup::ZuseChannelType::Telegram(_) => outcome->Ok_0 is Telegram,
            crate::setup::ZuseChannelType::Sns(_, _, _) => outcome->Ok_0 is Sns,
        },
{
    let notifiers = zuse.args.config.notifiers@;
    let count = zuse.args.config.notifiers.len();
    law_last_channel_with_a_name_stays(zuse, name);
    let (m, k) = choose|m: int, k: int| #[trigger]
        last_named_before(notifiers, notifiers.len(), 0, name, m, k);
    assert(last_named_before(notifiers, notifiers.len(), 0, name, m, k));
    assert(m < count);
    assert(crate::setup::is_usable(notifiers[m].notifier_type, notifiers[m].channels@[k]));
    connected_at_slot(notifiers, notifiers.len(), m as nat);
}

/// Where no angle bracket follows on a brace or a leading character, no partial is
/// included, and where there is no at sign no local variable is named.
proof fn is_simple(text: Seq<char>)
    requires
        forall|i: int|
            0 < i < text.len() && #[trigger] text[i] == '>' ==> text[i - 1] != '{'
                && !crate::template::is_lead(text[i - 1]),
        forall|i: int| 0 <= i < text.len() ==> #[trigger] text[i] != '@',
    ensures
        !crate::template::mentions_partial(text),
        !crate::template::names_local_this(text),
{
}

/// A notifier without templates of its own never meets one that is not rendered
/// for what it includes or names.
pub proof fn law_default_templates_are_simple(state: JobSMStates, notifier: ZuseConfigNotifier)
    requires
        notifier.templates is None,
    ensures
        !crate::message::mentions_partial(state, notifier),
        !crate::message::names_local_this(state, notifier),
{
    reveal_strlit("ALRT {{test_name}}");
    reveal_strlit("ALRT Uptime checks failed on '{{test_name}}'. (url: {{test_url}})");
    reveal_strlit("<b>ALRT</b> Uptime checks failed on '{{test_name}}'. (url: {{test_url}})");
    reveal_strlit("RSVL {{test_name}}");
    reveal_strlit(
        "RSLV Uptime checks recovered on '{{test_name}}'. (duration={{time_state_lasted}}s, url: {{test_url}})",
    );
    reveal_strlit(
        "<b>RSLV</b> Uptime checks recovered on '{{test_name}}'. (duration={{time_state_lasted}}s, url: {{test_url}})",
    );
    is_simple(crate::message::body_template(state, notifier));
    is_simple(crate::message::subject_template(state, notifier));
}

/// What a message is made of does not depend on the templates that the notifier
/// does not use: for Telegram those of the text without markup, and for SNS those
/// in HTML.
pub proof fn law_unused_templates_have_no_effect(
    state: JobSMStates,
    one: ZuseConfigNotifier,
    other: ZuseConfigNotifier,
)
    requires
        one.notifier_type == other.notifier_type,
        one.sender_id == other.sender_id,
        ({
            let ones = crate::message::templates_of(one.templates);
            let others = crate::message::templates_of(other.templates);
            &&& ones.alert_subject == others.alert_subject
            &&& ones.resolve_subject == others.resolve_subject
            &&& one.notifier_type is Telegram ==> {
                &&& ones.alert_html == others.alert_html
                &&& ones.resolve_html == others.resolve_html
            }
            &&& one.notifier_type is Sns ==> {
                &&& ones.alert_plain == others.alert_plain
                &&& ones.resolve_plain == others.resolve_plain
            }
        }),
    ensures
        crate::message::sender(one) == crate::message::sender(other),
        crate::message::subject_template(state, one) == crate::message::subject_template(
            state,
            other,
        ),
        crate::message::body_template(state, one) == crate::message::body_template(state, other),
        crate::message::names_local_this(state, one) == crate::message::names_local_this(
            state,
            other,
        ),
        crate::message::is_circular(state, one) == crate::message::is_circular(state, other),
{
}

/// Names that are all known reach as many channels.
proof fn all_reached(channels: Map<Seq<char>, ZuseChannel>, listed: Seq<String>, count: nat)
    requires
        count <= listed.len(),
        forall|i: int| 0 <= i < listed.len() ==> channels.contains_key((#[trigger] listed[i])@),
    ensures
        crate::zuse::reached(channels, listed, count).len() == count,
        forall|i: int|
            0 <= i < count ==> #[trigger] crate::zuse::reached(channels, listed, count)[i]
                == channels[listed[i]@],
    decreases count,
{
    if count > 0 {
        all_reached(channels, listed, (count - 1) as nat);
    }
}

/// Members of groups that have only known members are known.
proof fn all_members_known(
    channels: Map<Seq<char>, ZuseChannel>,
    groups: Map<Seq<char>, ZuseNotifyGroup>,
    listed: Seq<String>,
    count: nat,
)
    requires
        count <= listed.len(),
        forall|i: int| 0 <= i < listed.len() ==> groups.contains_key((#[trigger] listed[i])@),
        forall|name: Seq<char>, i: int|
            groups.contains_key(name) && 0 <= i < groups[name]@.len() ==> channels.contains_key(
                (#[trigger] groups[name]@[i])@,
            ),
    ensures
        ({
            let members = crate::zuse::members(groups, listed, count);
            forall|i: int|
                0 <= i < members.len() ==> channels.contains_key((#[trigger] members[i])@)
        }),
    decreases count,
{
    if count > 0 {
        all_members_known(channels, groups, listed, (count - 1) as nat);
        let before = crate::zuse::members(groups, listed, (count - 1) as nat);
        let members = crate::zuse::members(groups, listed, count);
        let last = listed[count - 1];
        assert(groups.contains_key(last@));
        assert forall|i: int| 0 <= i < members.len() implies channels.contains_key(
            (#[trigger] members[i])@,
        ) by {
            if i < before.len() {
                assert(members[i] == before[i]);
            } else {
                assert(members[i] == groups[last@]@[i - before.len()]);
            }
        }
    }
}

/// A message about a test goes to every name that the test lists, once for each
/// time it is listed, in that order.
pub proof fn law_every_name_is_told(zuse: Zuse, test_id: int)
    requires
        zuse.wf(),
        0 <= test_id < zuse.args.config.tests@.len(),
    ensures
        ({
            let test = zuse.args.config.tests@[test_id];
            &&& zuse.told_channels(test).len() == zuse.told_names(test).len()
            &&& forall|i: int|
                0 <= i < zuse.told_names(test).len() ==> {
                    &&& zuse.channels@.contains_key((#[trigger] zuse.told_names(test)[i])@)
                    &&& zuse.told_channels(test)[i] == zuse.channels@[zuse.told_names(test)[i]@]
                }
        }),
{
    let test = zuse.args.config.tests@[test_id];
    let own = crate::validate::names(test.notify);
    let groups = crate::validate::names(test.notify_groups);
    let names = zuse.told_names(test);
    all_members_known(zuse.channels@, zuse.notify_groups@, groups, groups.len());
    assert forall|i: int| 0 <= i < names.len() implies zuse.channels@.contains_key(
        (#[trigger] names[i])@,
    ) by {
        if i < own.len() {
            assert(names[i] == own[i]);
        } else {
            let members = crate::zuse::members(zuse.notify_groups@, groups, groups.len());
            assert(names[i] == members[i - own.len()]);
        }
    }
    all_reached(zuse.channels@, names, names.len());
}

/// Whether a configuration holds what setting up its notifiers needs.
pub open spec fn is_sound(notifiers: Seq<ZuseConfigNotifier>, environment: bool) -> bool {
    &&& forall|m: int|
        0 <= m < notifiers.len() && notifiers[m].channels@.len() > 0
            ==> crate::setup::opening_action(
            m as usize,
            #[trigger] notifiers[m],
            crate::setup::region_exists(notifiers[m]),
            environment,
        ) !is Fail
    &&& crate::setup::all_usable(notifiers, notifiers.len(), 0)
}

/// Nothing is missing from the notifiers of a sound configuration.
proof fn sound_notifiers(notifiers: Seq<ZuseConfigNotifier>, environment: bool, notifier: nat)
    requires
        is_sound(notifiers, environment),
    ensures
        crate::setup::from_notifier(notifiers, environment, notifier).1 !is Fail,
    decreases notifiers.len() - notifier,
{
    if notifier < notifiers.len() {
        sound_notifiers(notifiers, environment, notifier + 1);
    }
}

/// Nothing is missing from the channels of a sound configuration.
proof fn sound_channels(
    notifiers: Seq<ZuseConfigNotifier>,
    environment: bool,
    notifier: nat,
    channel: nat,
)
    requires
        is_sound(notifiers, environment),
        notifier < notifiers.len(),
    ensures
        crate::setup::from_channel(notifiers, environment, notifier, channel).1 !is Fail,
    decreases notifiers[notifier as int].channels@.len() - channel,
{
    let channels = notifiers[notifier as int].channels@;
    if channel < channels.len() {
        assert(crate::setup::is_usable(
            notifiers[notifier as int].notifier_type,
            channels[channel as int],
        ));
        sound_channels(notifiers, environment, notifier, channel + 1);
    } else {
        sound_notifiers(notifiers, environment, notifier + 1);
    }
}

/// A set-up of a sound configuration does not fail as long as the answers are good.
pub proof fn law_sound_configuration_sets_up(setup: Setup)
    requires
        setup.wf(),
        setup.waits(),
        is_sound(setup.configured(), setup.environment),
    ensures
        crate::setup::from_notifier(setup.configured(), setup.environment, 0).1 !is Fail,
        crate::setup::answered(
            setup.configured(),
            setup.environment,
            setup@,
            true,
        ).1 !is Fail,
{
    sound_notifiers(setup.configured(), setup.environment, 0);
    sound_channels(setup.configured(), setup.environment, setup@.notifier, 0);
    sound_channels(setup.configured(), setup.environment, setup@.notifier, setup@.channel + 1);
    assert(crate::setup::is_usable(
        setup.configured()[setup@.notifier as int].notifier_type,
        setup.configured()[setup@.notifier as int].channels@[setup@.channel as int],
    ));
}

/// Nothing is wrong with a configuration whose channels are known if and only if
/// every member of a group is a channel and nothing is wrong with any test taken
/// by itself.
pub proof fn law_configuration_is_checked_piece_by_piece(
    config: ZuseConfig,
    channels: Set<Seq<char>>,
    addresses: Seq<bool>,
)
    ensures
        ({
            let groups = crate::validate::group_list(config.notify_groups);
            let known_groups = crate::validate::grouped(groups, groups.len()).dom();
            let defaults = crate::validate::defaults_of(config.defaults);
            crate::validate::configuration_error(config, channels, addresses) is None <==> {
                &&& forall|g: int, i: int|
                    0 <= g < groups.len() && 0 <= i < groups[g].notify@.len()
                        ==> channels.contains((#[trigger] groups[g].notify@[i])@)
                &&& forall|t: int|
                    0 <= t < config.tests@.len() ==> {
                        let test = #[trigger] config.tests@[t];
                        &&& crate::validate::reference_error_of(
                            test,
                            channels,
                            known_groups,
                        ) is None
                        &&& crate::validate::type_error_of(test, addresses[t]) is None
                        &&& crate::validate::setting_error_of(test, defaults) is None
                    }
            }
        }),
{
    let groups = crate::validate::group_list(config.notify_groups);
    let known_groups = crate::validate::grouped(groups, groups.len()).dom();
    let defaults = crate::validate::defaults_of(config.defaults);
    crate::zuse::all_members_known(groups, channels, 0);
    crate::zuse::all_references_known(config.tests@, channels, known_groups, 0);
    crate::zuse::all_types_fit(config.tests@, addresses, 0);
    crate::zuse::all_settings_there(config.tests@, defaults, 0);
}

/// Of several notify groups with one name the last stays.
pub proof fn law_last_group_with_a_name_stays(groups: Seq<ZuseConfigNotifyGroups>, g: int)
    requires
        0 <= g < groups.len(),
        forall|h: int| g < h < groups.len() ==> (#[trigger] groups[h]).name@ != groups[g].name@,
    ensures
        crate::validate::grouped(groups, groups.len()).contains_key(groups[g].name@),
        crate::validate::grouped(groups, groups.len())[groups[g].name@] == groups[g].notify@,
{
    group_stays(groups, groups.len(), g);
}

/// A group stays among the groups until another one has its name.
proof fn group_stays(groups: Seq<ZuseConfigNotifyGroups>, count: nat, g: int)
    requires
        0 <= g < count <= groups.len(),
        forall|h: int| g < h < groups.len() ==> (#[trigger] groups[h]).name@ != groups[g].name@,
    ensures
        crate::validate::grouped(groups, count).contains_key(groups[g].name@),
        crate::validate::grouped(groups, count)[groups[g].name@] == groups[g].notify@,
    decreases count,
{
    if g < count - 1 {
        group_stays(groups, (count - 1) as nat, g);
    }
}

} // verus!
