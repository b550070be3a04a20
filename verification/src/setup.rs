//! Setting up the notifiers: which questions the messengers are asked, in which
//! order, and what an answer leads to.

use crate::bindings::{parse_i64, region_parses};
use crate::config::{
    ZuseArgs, ZuseConfigNotifier, ZuseConfigNotifierChannel, ZuseConfigNotifierType,
};
use crate::error::SetupError;
use vstd::hash_map::StringHashMap;
use vstd::prelude::*;

verus! {

/// A notifier that has been set up.
#[derive(Debug, Clone, Copy, PartialEq, Eq, Structural)]
pub enum ZuseNotifyType {
    Telegram,
    Sns,
}

/// Where a message for a channel goes: to a chat, or to a phone, a target or a
/// topic.
#[derive(Debug)]
pub enum ZuseChannelType {
    Telegram(String),
    Sns(Option<String>, Option<String>, Option<String>),
}

/// A channel, with the position of its notifier in the configuration.
pub type ZuseChannel = (usize, ZuseChannelType);

/// The channels by name.
pub type ZuseChannelMap = StringHashMap<ZuseChannel>;

/// How a client of SNS proves who it is.
#[derive(Debug, Clone)]
pub enum SnsCredentials {
    Static { key: String, secret: String },
    Environment,
}

/// What has to be done next.
#[derive(Debug, Clone)]
pub enum SetupAction {
    /// Ask Telegram whether it takes the token.
    VerifyToken { notifier_id: usize, token: String },
    /// Ask Telegram for the chat of a channel.
    VerifyChat { notifier_id: usize, channel_id: usize, chat_id: i64 },
    /// Ask AWS whether it takes the credentials.
    VerifyIdentity { notifier_id: usize, region: String, credentials: SnsCredentials },
    /// Ask SNS whether the owner of a phone takes messages.
    VerifyPhone { notifier_id: usize, channel_id: usize, phone: String },
    /// Nothing: every notifier is set up.
    Done,
    /// Stop.
    Fail(SetupError),
}

/// What a set-up waits for.
#[derive(Debug, Clone, Copy, PartialEq, Eq, Structural)]
pub enum SetupStage {
    Token,
    Chat,
    Identity,
    Phone,
    Ready,
    Failed,
}

/// Where a set-up stands: the notifier, the channel of it, and what is asked.
#[verifier::ext_equal]
pub struct SetupPosition {
    pub notifier: nat,
    pub channel: nat,
    pub stage: SetupStage,
}

/// Whether an SNS channel has exactly one target.
pub open spec fn has_one_target(channel: ZuseConfigNotifierChannel) -> bool {
    let phone: int = if channel.phone is Some { 1 } else { 0 };
    let target: int = if channel.target_arn is Some { 1 } else { 0 };
    let topic: int = if channel.topic_arn is Some { 1 } else { 0 };
    phone + target + topic == 1
}

/// What a channel of a configuration is registered as.
pub open spec fn channel_entry(
    notifier_id: nat,
    notifier_type: ZuseConfigNotifierType,
    channel: ZuseConfigNotifierChannel,
) -> ZuseChannel {
    match notifier_type {
        ZuseConfigNotifierType::Telegram => (
            notifier_id as usize,
            ZuseChannelType::Telegram(channel.id->0),
        ),
        ZuseConfigNotifierType::Sns => (
            notifier_id as usize,
            ZuseChannelType::Sns(channel.phone, channel.target_arn, channel.topic_arn),
        ),
    }
}

/// The channels of all notifiers before the given one, and the first few of that
/// one. Of two channels with one name the later stays.
pub open spec fn registered(
    notifiers: Seq<ZuseConfigNotifier>,
    notifier: nat,
    channel: nat,
) -> Map<Seq<char>, ZuseChannel>
    decreases notifier, channel,
{
    if channel > 0 {
        let current = notifiers[notifier as int];
        let added = current.channels[channel - 1];
        registered(notifiers, notifier, (channel - 1) as nat).insert(
            added.name@,
            channel_entry(notifier, current.notifier_type, added),
        )
    } else if notifier > 0 {
        registered(notifiers, (notifier - 1) as nat, notifiers[notifier - 1].channels@.len())
    } else {
        Map::empty()
    }
}

/// Whether a channel can be sent to: a channel of Telegram names a chat by its
/// number, a channel of SNS has exactly one target.
pub open spec fn is_usable(
    notifier_type: ZuseConfigNotifierType,
    channel: ZuseConfigNotifierChannel,
) -> bool {
    match notifier_type {
        ZuseConfigNotifierType::Telegram => {
            &&& channel.id is Some
            &&& crate::text::parsed_i64(channel.id->0@) is Some
        },
        ZuseConfigNotifierType::Sns => has_one_target(channel),
    }
}

/// Whether the channels of all notifiers before the given one, and the first few
/// of that one, can be sent to.
pub open spec fn all_usable(
    notifiers: Seq<ZuseConfigNotifier>,
    notifier: nat,
    channel: nat,
) -> bool {
    forall|m: int, k: int|
        0 <= m < notifiers.len() && 0 <= k < notifiers[m].channels@.len() && (m < notifier || m
            == notifier && k < channel) ==> is_usable(
            notifiers[m].notifier_type,
            #[trigger] notifiers[m].channels@[k],
        )
}

/// What a notifier is set up as.
pub open spec fn notify_type(notifier_type: ZuseConfigNotifierType) -> ZuseNotifyType {
    match notifier_type {
        ZuseConfigNotifierType::Telegram => ZuseNotifyType::Telegram,
        ZuseConfigNotifierType::Sns => ZuseNotifyType::Sns,
    }
}

/// The notifiers before the given one, without those that have no channel.
pub open spec fn connected(notifiers: Seq<ZuseConfigNotifier>, notifier: nat) -> Seq<ZuseNotifyType>
    decreases notifier,
{
    if notifier == 0 {
        Seq::empty()
    } else {
        let before = connected(notifiers, (notifier - 1) as nat);
        let last = notifiers[notifier - 1];
        if last.channels@.len() == 0 {
            before
        } else {
            before.push(notify_type(last.notifier_type))
        }
    }
}

/// Where the notifier at a place of the configuration stands among those that
/// have been set up: those without a channel are passed over.
pub open spec fn slot(notifiers: Seq<ZuseConfigNotifier>, place: nat) -> nat
    decreases place,
{
    if place == 0 {
        0
    } else {
        let before = slot(notifiers, (place - 1) as nat);
        if place <= notifiers.len() && notifiers[place - 1].channels@.len() == 0 {
            before
        } else {
            before + 1
        }
    }
}

/// A set-up that has failed at a place.
pub open spec fn failed_at(notifier: nat, channel: nat, error: SetupError) -> (
    SetupPosition,
    SetupAction,
) {
    (
        SetupPosition { notifier, channel, stage: SetupStage::Failed },
        SetupAction::Fail(error),
    )
}

/// What a notifier with channels is asked first, where it is known whether its
/// region exists and whether the environment holds credentials: who it is, unless
/// something is missing for that.
pub open spec fn opening_action(
    notifier_id: usize,
    notifier: ZuseConfigNotifier,
    region_exists: bool,
    environment: bool,
) -> SetupAction {
    let notifier_type = notifier.notifier_type;
    match notifier_type {
        ZuseConfigNotifierType::Telegram => match notifier.auth.token {
            None => SetupAction::Fail(SetupError::MissingToken { notifier_id, notifier_type }),
            Some(token) => SetupAction::VerifyToken { notifier_id, token },
        },
        ZuseConfigNotifierType::Sns => match notifier.auth.region {
            None => SetupAction::Fail(SetupError::MissingRegion { notifier_id, notifier_type }),
            Some(region) => if !region_exists {
                SetupAction::Fail(SetupError::UnknownRegion { region })
            } else if notifier.auth.key is Some && notifier.auth.secret is Some {
                SetupAction::VerifyIdentity {
                    notifier_id,
                    region,
                    credentials: SnsCredentials::Static {
                        key: notifier.auth.key->0,
                        secret: notifier.auth.secret->0,
                    },
                }
            } else if environment {
                SetupAction::VerifyIdentity {
                    notifier_id,
                    region,
                    credentials: SnsCredentials::Environment,
                }
            } else {
                SetupAction::Fail(SetupError::MissingCredentials { notifier_id, notifier_type })
            },
        },
    }
}

/// Whether a notifier names a region that exists.
pub open spec fn region_exists(notifier: ZuseConfigNotifier) -> bool {
    notifier.auth.region matches Some(region) && crate::bindings::is_region(region@)
}

/// How a set-up goes on from a notifier on: the first one that has channels is
/// looked at.
pub open spec fn from_notifier(
    notifiers: Seq<ZuseConfigNotifier>,
    environment: bool,
    notifier: nat,
) -> (SetupPosition, SetupAction)
    decreases notifiers.len() - notifier,
{
    if notifier >= notifiers.len() {
        (
            SetupPosition { notifier, channel: 0, stage: SetupStage::Ready },
            SetupAction::Done,
        )
    } else {
        let current = notifiers[notifier as int];
        if current.channels@.len() == 0 {
            from_notifier(notifiers, environment, notifier + 1)
        } else {
            let action = opening_action(
                notifier as usize,
                current,
                region_exists(current),
                environment,
            );
            let stage = if action is Fail {
                SetupStage::Failed
            } else if current.notifier_type is Telegram {
                SetupStage::Token
            } else {
                SetupStage::Identity
            };
            (SetupPosition { notifier, channel: 0, stage }, action)
        }
    }
}

/// How a set-up goes on from a channel on.
pub open spec fn from_channel(
    notifiers: Seq<ZuseConfigNotifier>,
    environment: bool,
    notifier: nat,
    channel: nat,
) -> (SetupPosition, SetupAction)
    decreases notifiers[notifier as int].channels@.len() - channel,
{
    let current = notifiers[notifier as int];
    if channel >= current.channels@.len() {
        from_notifier(notifiers, environment, notifier + 1)
    } else {
        let next = current.channels[channel as int];
        match current.notifier_type {
            ZuseConfigNotifierType::Telegram => match next.id {
                None => failed_at(
                    notifier,
                    channel,
                    SetupError::MissingChannelId { channel: next.name },
                ),
                Some(id) => match crate::text::parsed_i64(id@) {
                    None => failed_at(
                        notifier,
                        channel,
                        SetupError::MalformedChannelId { channel: next.name, id },
                    ),
                    Some(chat_id) => (
                        SetupPosition { notifier, channel, stage: SetupStage::Chat },
                        SetupAction::VerifyChat {
                            notifier_id: notifier as usize,
                            channel_id: channel as usize,
                            chat_id,
                        },
                    ),
                },
            },
            ZuseConfigNotifierType::Sns => match next.phone {
                Some(phone) => (
                    SetupPosition { notifier, channel, stage: SetupStage::Phone },
                    SetupAction::VerifyPhone {
                        notifier_id: notifier as usize,
                        channel_id: channel as usize,
                        phone,
                    },
                ),
                None => if has_one_target(next) {
                    from_channel(notifiers, environment, notifier, channel + 1)
                } else {
                    failed_at(
                        notifier,
                        channel,
                        SetupError::AmbiguousTarget {
                            notifier_id: notifier as usize,
                            notifier_type: current.notifier_type,
                            channel: next.name,
                        },
                    )
                },
            },
        }
    }
}

/// How a set-up goes on once a question has been answered.
pub open spec fn answered(
    notifiers: Seq<ZuseConfigNotifier>,
    environment: bool,
    position: SetupPosition,
    passed: bool,
) -> (SetupPosition, SetupAction) {
    let notifier = position.notifier;
    let channel = position.channel;
    let notifier_id = notifier as usize;
    let current = notifiers[notifier as int];
    let notifier_type = current.notifier_type;
    let asked = current.channels[channel as int];
    match position.stage {
        SetupStage::Token => if passed {
            from_channel(notifiers, environment, notifier, 0)
        } else {
            failed_at(
                notifier,
                channel,
                SetupError::InvalidToken { notifier_id, notifier_type, token: current.auth.token->0 },
            )
        },
        SetupStage::Identity => if passed {
            from_channel(notifiers, environment, notifier, 0)
        } else {
            failed_at(
                notifier,
                channel,
                SetupError::RefusedCredentials { notifier_id, notifier_type },
            )
        },
        SetupStage::Chat => if passed {
            from_channel(notifiers, environment, notifier, channel + 1)
        } else {
            failed_at(
                notifier,
                channel,
                SetupError::UnknownChat { channel: asked.name, id: asked.id->0 },
            )
        },
        SetupStage::Phone => if !passed {
            failed_at(
                notifier,
                channel,
                SetupError::OptedOut {
                    notifier_id,
                    notifier_type,
                    channel: asked.name,
                    phone: asked.phone->0,
                },
            )
        } else if has_one_target(asked) {
            from_channel(notifiers, environment, notifier, channel + 1)
        } else {
            failed_at(
                notifier,
                channel,
                SetupError::AmbiguousTarget { notifier_id, notifier_type, channel: asked.name },
            )
        },
        SetupStage::Ready | SetupStage::Failed => (position, SetupAction::Done),
    }
}

/// Whether a list of names holds a name.
pub open spec fn lists(names: Seq<String>, name: Seq<char>) -> bool {
    exists|i: int| 0 <= i < names.len() && #[trigger] names[i]@ == name
}

/// Whether a list of names holds a name.
fn listed(names: &Vec<String>, name: &str) -> (found: bool)
    ensures
        found == lists(names@, name@),
{
    let wanted = name.to_string();
    let mut i: usize = 0;
    while i < names.len()
        invariant
            i <= names.len(),
            wanted@ == name@,
            forall|j: int| 0 <= j < i ==> #[trigger] names@[j]@ != name@,
        decreases names.len() - i,
    {
        if names[i] == wanted {
            assert(names@[i as int]@ == name@);
            return true;
        }
        i += 1;
    }
    false
}

/// Whether the owner of a phone takes messages, by what SNS says of having opted
/// out.
pub fn takes_messages(is_opted_out: Option<bool>) -> (takes: bool)
    ensures
        takes == (is_opted_out != Some(true)),
{
    match is_opted_out {
        Some(opted_out) => !opted_out,
        None => true,
    }
}

/// What a notifier with channels is asked first, where it is known whether its
/// region exists and whether the environment holds credentials.
pub fn opening(
    notifier_id: usize,
    notifier: &ZuseConfigNotifier,
    region_exists: bool,
    environment: bool,
) -> (action: SetupAction)
    ensures
        action == opening_action(notifier_id, *notifier, region_exists, environment),
{
    let notifier_type = notifier.notifier_type;
    match notifier_type {
        ZuseConfigNotifierType::Telegram => match &notifier.auth.token {
            None => SetupAction::Fail(SetupError::MissingToken { notifier_id, notifier_type }),
            Some(token) => SetupAction::VerifyToken { notifier_id, token: token.clone() },
        },
        ZuseConfigNotifierType::Sns => {
            let region = match &notifier.auth.region {
                None => {
                    return SetupAction::Fail(
                        SetupError::MissingRegion { notifier_id, notifier_type },
                    );
                },
                Some(region) => region.clone(),
            };
            if !region_exists {
                return SetupAction::Fail(SetupError::UnknownRegion { region });
            }
            let credentials = match (&notifier.auth.key, &notifier.auth.secret) {
                (Some(key), Some(secret)) => SnsCredentials::Static {
                    key: key.clone(),
                    secret: secret.clone(),
                },
                _ => {
                    if !environment {
                        return SetupAction::Fail(
                            SetupError::MissingCredentials { notifier_id, notifier_type },
                        );
                    }
                    SnsCredentials::Environment
                },
            };
            SetupAction::VerifyIdentity { notifier_id, region, credentials }
        },
    }
}

/// The same text, or none.
pub(crate) fn same_text(text: &Option<String>) -> (copy: Option<String>)
    ensures
        copy == *text,
{
    match text {
        Some(text) => Some(text.clone()),
        None => None,
    }
}

/// A text that is there.
fn wanted(text: &Option<String>) -> (copy: String)
    requires
        text is Some,
    ensures
        copy == text->0,
{
    match text {
        Some(text) => text.clone(),
        None => String::new(),
    }
}

impl Clone for ZuseChannelType {
    fn clone(&self) -> (copy: Self)
        ensures
            copy == *self,
    {
        match self {
            ZuseChannelType::Telegram(chat_id) => ZuseChannelType::Telegram(chat_id.clone()),
            ZuseChannelType::Sns(phone, target, topic) => ZuseChannelType::Sns(
                same_text(phone),
                same_text(target),
                same_text(topic),
            ),
        }
    }
}

/// A set-up under way. It asks one question at a time, and is told whether the
/// answer was good.
pub struct Setup {
    pub args: ZuseArgs,
    /// Whether the environment holds credentials for AWS.
    pub environment: bool,
    pub notifier_id: usize,
    pub channel_id: usize,
    pub stage: SetupStage,
    pub notifiers: Vec<ZuseNotifyType>,
    pub channels: ZuseChannelMap,
}

impl View for Setup {
    type V = SetupPosition;

    open spec fn view(&self) -> SetupPosition {
        SetupPosition {
            notifier: self.notifier_id as nat,
            channel: self.channel_id as nat,
            stage: self.stage,
        }
    }
}

impl Setup {
    /// The notifiers of the configuration.
    pub open spec fn configured(self) -> Seq<ZuseConfigNotifier> {
        self.args.config.notifiers@
    }

    /// What has been registered so far is what stands before the place reached,
    /// and can be sent to.
    pub open spec fn records(self) -> bool {
        &&& self.notifier_id <= self.configured().len()
        &&& self.channels@ == registered(self.configured(), self@.notifier, self@.channel)
        &&& self.notifiers@ == connected(self.configured(), self@.notifier)
        &&& all_usable(self.configured(), self@.notifier, self@.channel)
    }

    /// What every step keeps: what has been registered so far is what stands
    /// before the place reached, and a question is asked only where the
    /// configuration holds what it is about.
    pub open spec fn wf(self) -> bool {
        let current = self.configured()[self.notifier_id as int];
        let asked = current.channels[self.channel_id as int];
        let within = self.notifier_id < self.configured().len() && self.channel_id
            < current.channels@.len();
        &&& self.records()
        &&& match self.stage {
            SetupStage::Token => {
                &&& within
                &&& self.channel_id == 0
                &&& current.notifier_type is Telegram
                &&& current.auth.token is Some
            },
            SetupStage::Chat => {
                &&& within
                &&& current.notifier_type is Telegram
                &&& asked.id matches Some(id) && crate::text::parsed_i64(id@) is Some
            },
            SetupStage::Identity => {
                &&& within
                &&& self.channel_id == 0
                &&& current.notifier_type is Sns
                &&& current.auth.region is Some
            },
            SetupStage::Phone => {
                &&& within
                &&& current.notifier_type is Sns
                &&& asked.phone is Some
            },
            SetupStage::Ready => {
                &&& self.notifier_id == self.configured().len()
                &&& self.channel_id == 0
            },
            SetupStage::Failed => true,
        }
    }

    /// Whether a question is open.
    pub open spec fn waits(self) -> bool {
        !(self.stage is Ready || self.stage is Failed)
    }

    /// Begins a set-up, given the names of the environment's variables.
    pub fn new(args: ZuseArgs, environment_names: &Vec<String>) -> (begun: (Setup, SetupAction))
        ensures
            begun.0.wf(),
            begun.0.args == args,
            begun.0.environment == (lists(environment_names@, "AWS_ACCESS_KEY_ID"@) && lists(
                environment_names@,
                "AWS_SECRET_ACCESS_KEY"@,
            )),
            begun.0.environment <==> {
                &&& exists|i: int|
                    0 <= i < environment_names@.len() && #[trigger] environment_names@[i]@
                        == "AWS_ACCESS_KEY_ID"@
                &&& exists|i: int|
                    0 <= i < environment_names@.len() && #[trigger] environment_names@[i]@
                        == "AWS_SECRET_ACCESS_KEY"@
            },
            (begun.0@, begun.1) == from_notifier(
                args.config.notifiers@,
                begun.0.environment,
                0,
            ),
    {
        let environment = listed(environment_names, "AWS_ACCESS_KEY_ID") && listed(
            environment_names,
            "AWS_SECRET_ACCESS_KEY",
        );
        let mut setup = Setup {
            args,
            environment,
            notifier_id: 0,
            channel_id: 0,
            stage: SetupStage::Ready,
            notifiers: Vec::new(),
            channels: StringHashMap::new(),
        };
        let action = setup.look_at_notifiers();
        (setup, action)
    }

    /// Stops.
    fn fail(&mut self, error: SetupError) -> (action: SetupAction)
        ensures
            *final(self) == (Setup { stage: SetupStage::Failed, ..*old(self) }),
            action == SetupAction::Fail(error),
    {
        self.stage = SetupStage::Failed;
        SetupAction::Fail(error)
    }

    /// Goes on from the present notifier, of which nothing has been asked yet.
    fn look_at_notifiers(&mut self) -> (action: SetupAction)
        requires
            old(self).records(),
            old(self).channel_id == 0,
        ensures
            final(self).wf(),
            final(self).args == old(self).args,
            final(self).environment == old(self).environment,
            (final(self)@, action) == from_notifier(
                old(self).configured(),
                old(self).environment,
                old(self)@.notifier,
            ),
    {
        while self.notifier_id < self.args.config.notifiers.len() && self.args.config.notifiers[self.notifier_id].channels.len() == 0
            invariant
                self.records(),
                self.channel_id == 0,
                self.args == old(self).args,
                self.environment == old(self).environment,
                from_notifier(self.configured(), self.environment, self@.notifier)
                    == from_notifier(
                    old(self).configured(),
                    old(self).environment,
                    old(self)@.notifier,
                ),
            decreases self.configured().len() - self.notifier_id,
        {
            self.notifier_id = self.notifier_id + 1;
        }
        if self.notifier_id >= self.args.config.notifiers.len() {
            self.stage = SetupStage::Ready;
            return SetupAction::Done;
        }
        let notifier = &self.args.config.notifiers[self.notifier_id];
        let region_exists = match &notifier.auth.region {
            Some(region) => region_parses(region.as_str()),
            None => false,
        };
        let action = opening(self.notifier_id, notifier, region_exists, self.environment);
        self.stage = match action {
            SetupAction::Fail(_) => SetupStage::Failed,
            _ => match notifier.notifier_type {
                ZuseConfigNotifierType::Telegram => SetupStage::Token,
                ZuseConfigNotifierType::Sns => SetupStage::Identity,
            },
        };
        action
    }

    /// Whether the present channel has exactly one target.
    fn one_target(&self) -> (one: bool)
        requires
            self.notifier_id < self.configured().len(),
            self.channel_id < self.configured()[self.notifier_id as int].channels@.len(),
        ensures
            one == has_one_target(
                self.configured()[self.notifier_id as int].channels[self.channel_id as int],
            ),
    {
        let channel = &self.args.config.notifiers[self.notifier_id].channels[self.channel_id];
        let phone: u8 = if channel.phone.is_some() { 1 } else { 0 };
        let target: u8 = if channel.target_arn.is_some() { 1 } else { 0 };
        let topic: u8 = if channel.topic_arn.is_some() { 1 } else { 0 };
        phone + target + topic == 1
    }

    /// Registers the present channel, and leaves it behind.
    fn register(&mut self)
        requires
            old(self).records(),
            old(self).notifier_id < old(self).configured().len(),
            old(self).channel_id < old(self).configured()[old(
                self,
            ).notifier_id as int].channels@.len(),
            ({
                let current = old(self).configured()[old(self).notifier_id as int];
                is_usable(current.notifier_type, current.channels[old(self).channel_id as int])
            }),
        ensures
            final(self).records(),
            final(self).args == old(self).args,
            final(self).environment == old(self).environment,
            final(self).stage == old(self).stage,
            final(self).notifier_id == old(self).notifier_id,
            final(self).channel_id == old(self).channel_id + 1,
    {
        let notifier = &self.args.config.notifiers[self.notifier_id];
        let channel = &notifier.channels[self.channel_id];
        assert(self.channel_id < notifier.channels.len());
        let place = match notifier.notifier_type {
            ZuseConfigNotifierType::Telegram => match &channel.id {
                Some(id) => ZuseChannelType::Telegram(id.clone()),
                None => ZuseChannelType::Telegram(String::new()),
            },
            ZuseConfigNotifierType::Sns => ZuseChannelType::Sns(
                same_text(&channel.phone),
                same_text(&channel.target_arn),
                same_text(&channel.topic_arn),
            ),
        };
        self.channels.insert(channel.name.clone(), (self.notifier_id, place));
        self.channel_id = self.channel_id + 1;
    }

    /// Goes on from the present channel, or from the next notifier where the
    /// present one has no more channels.
    fn look_at_channels(&mut self) -> (action: SetupAction)
        requires
            old(self).records(),
            old(self).notifier_id < old(self).configured().len(),
            0 < old(self).configured()[old(self).notifier_id as int].channels@.len(),
            old(self).channel_id <= old(self).configured()[old(
                self,
            ).notifier_id as int].channels@.len(),
        ensures
            final(self).wf(),
            final(self).args == old(self).args,
            final(self).environment == old(self).environment,
            (final(self)@, action) == from_channel(
                old(self).configured(),
                old(self).environment,
                old(self)@.notifier,
                old(self)@.channel,
            ),
    {
        let notifier_id = self.notifier_id;
        let notifier_type = self.args.config.notifiers[notifier_id].notifier_type;
        while self.channel_id < self.args.config.notifiers[notifier_id].channels.len()
            invariant
                self.records(),
                self.args == old(self).args,
                self.environment == old(self).environment,
                self.notifier_id == notifier_id,
                self.notifier_id == old(self).notifier_id,
                notifier_id < self.configured().len(),
                notifier_type == self.configured()[notifier_id as int].notifier_type,
                self.channel_id <= self.configured()[notifier_id as int].channels@.len(),
                from_channel(
                    self.configured(),
                    self.environment,
                    self@.notifier,
                    self@.channel,
                ) == from_channel(
                    old(self).configured(),
                    old(self).environment,
                    old(self)@.notifier,
                    old(self)@.channel,
                ),
            decreases self.configured()[notifier_id as int].channels@.len() - self.channel_id,
        {
            let channel_id = self.channel_id;
            let asked = &self.args.config.notifiers[notifier_id].channels[channel_id];
            let name = asked.name.clone();
            match notifier_type {
                ZuseConfigNotifierType::Telegram => {
                    let id = match &asked.id {
                        None => {
                            return self.fail(SetupError::MissingChannelId { channel: name });
                        },
                        Some(id) => id.clone(),
                    };
                    return match parse_i64(id.as_str()) {
                        None => self.fail(SetupError::MalformedChannelId { channel: name, id }),
                        Some(chat_id) => {
                            self.stage = SetupStage::Chat;
                            SetupAction::VerifyChat { notifier_id, channel_id, chat_id }
                        },
                    };
                },
                ZuseConfigNotifierType::Sns => {
                    if let Some(phone) = same_text(&asked.phone) {
                        self.stage = SetupStage::Phone;
                        return SetupAction::VerifyPhone { notifier_id, channel_id, phone };
                    }
                    if !self.one_target() {
                        return self.fail(
                            SetupError::AmbiguousTarget {
                                notifier_id,
                                notifier_type,
                                channel: name,
                            },
                        );
                    }
                    self.register();
                },
            }
        }
        assert(notifier_id < self.args.config.notifiers.len());
        self.notifiers.push(
            match notifier_type {
                ZuseConfigNotifierType::Telegram => ZuseNotifyType::Telegram,
                ZuseConfigNotifierType::Sns => ZuseNotifyType::Sns,
            },
        );
        self.notifier_id = notifier_id + 1;
        self.channel_id = 0;
        self.look_at_notifiers()
    }

    /// Goes on once the open question has been answered.
    pub fn advance(&mut self, passed: bool) -> (action: SetupAction)
        requires
            old(self).wf(),
            old(self).waits(),
        ensures
            final(self).wf(),
            final(self).args == old(self).args,
            final(self).environment == old(self).environment,
            (final(self)@, action) == answered(
                old(self).configured(),
                old(self).environment,
                old(self)@,
                passed,
            ),
    {
        let notifier_id = self.notifier_id;
        let notifier = &self.args.config.notifiers[notifier_id];
        let notifier_type = notifier.notifier_type;
        let asked = &notifier.channels[self.channel_id];
        let name = asked.name.clone();
        if !passed {
            let error = match self.stage {
                SetupStage::Token => SetupError::InvalidToken {
                    notifier_id,
                    notifier_type,
                    token: wanted(&notifier.auth.token),
                },
                SetupStage::Identity => SetupError::RefusedCredentials {
                    notifier_id,
                    notifier_type,
                },
                SetupStage::Chat => SetupError::UnknownChat {
                    channel: name,
                    id: wanted(&asked.id),
                },
                _ => SetupError::OptedOut {
                    notifier_id,
                    notifier_type,
                    channel: name,
                    phone: wanted(&asked.phone),
                },
            };
            return self.fail(error);
        }
        match self.stage {
            SetupStage::Token | SetupStage::Identity => self.look_at_channels(),
            SetupStage::Chat => {
                self.register();
                self.look_at_channels()
            },
            _ => {
                if !self.one_target() {
                    return self.fail(
                        SetupError::AmbiguousTarget { notifier_id, notifier_type, channel: name },
                    );
                }
                self.register();
                self.look_at_channels()
            },
        }
    }
}

} // verus!
