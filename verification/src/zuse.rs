//! The bot with a configuration that has been checked: whom a message goes to,
//! and what is sent there.

use crate::bindings::parse_i64;
use crate::config::{ZuseArgs, ZuseConfigNotifier, ZuseConfigNotifyGroups, ZuseConfigTest};
use crate::error::SetupError;
use crate::message::{TemplateError, ZuseJobMessage};
use crate::setup::{
    same_text, Setup, ZuseChannel, ZuseChannelMap, ZuseChannelType, ZuseNotifyType,
};
use crate::validate::{
    check_references, check_types, collect_groups, complete_tests, same_names, ZuseNotifyGroup,
    ZuseNotifyGroupMap,
};
use vstd::prelude::*;

verus! {

/// An attribute of a message to SNS.
#[derive(Debug)]
pub struct MessageAttribute {
    pub name: String,
    pub data_type: String,
    pub value: String,
}

/// A message to SNS.
#[derive(Debug)]
pub struct PublishRequest {
    pub message: String,
    pub subject: String,
    pub attributes: Vec<MessageAttribute>,
    pub phone_number: Option<String>,
    pub target_arn: Option<String>,
    pub topic_arn: Option<String>,
}

/// What is sent for a channel.
#[derive(Debug)]
pub enum Delivery {
    /// A text for a chat: whether it is HTML, and whether what it links to is shown.
    Telegram { chat_id: i64, text: String, html: bool, preview: bool },
    /// A message to SNS.
    Sns(PublishRequest),
    /// Nothing: the notifier does not serve such a channel.
    Nothing,
}

/// Why nothing can be sent for a channel.
#[derive(Debug)]
pub enum SendError {
    /// No notifier stands at the position that the channel names.
    NoNotifier,
    /// The message was not built.
    Template(TemplateError),
    /// The notifier sends to chats, and the channel names none.
    NoChat,
}

/// The contents of a message to SNS.
#[verifier::ext_equal]
pub struct PublishView {
    pub message: Seq<char>,
    pub subject: Seq<char>,
    pub sender: Seq<char>,
    pub phone_number: Option<String>,
    pub target_arn: Option<String>,
    pub topic_arn: Option<String>,
}

impl PublishRequest {
    /// Whether a request carries the given contents, with the sender and the kind
    /// of message among its attributes.
    pub open spec fn carries(self, contents: PublishView) -> bool {
        &&& self.message@ == contents.message
        &&& self.subject@ == contents.subject
        &&& self.phone_number == contents.phone_number
        &&& self.target_arn == contents.target_arn
        &&& self.topic_arn == contents.topic_arn
        &&& self.attributes@.len() == 2
        &&& self.attributes@[0].name@ == "DefaultSenderID"@
        &&& self.attributes@[0].data_type@ == "String"@
        &&& self.attributes@[0].value@ == contents.sender
        &&& self.attributes@[1].name@ == "DefaultSMSType"@
        &&& self.attributes@[1].data_type@ == "String"@
        &&& self.attributes@[1].value@ == "Transactional"@
    }
}

/// The chat that a channel names, if it is a channel of Telegram.
pub open spec fn chat_text(channel: ZuseChannelType) -> Seq<char> {
    match channel {
        ZuseChannelType::Telegram(chat_id) => chat_id@,
        ZuseChannelType::Sns(_, _, _) => Seq::empty(),
    }
}

/// Whether a message for a channel is what a notifier sends, given who it comes
/// from, its subject and its text.
pub open spec fn delivers(
    notifier: ZuseNotifyType,
    channel: ZuseChannelType,
    built: (Seq<char>, Seq<char>, Seq<char>),
    outcome: Result<Delivery, SendError>,
) -> bool {
    match notifier {
        ZuseNotifyType::Telegram => match crate::text::parsed_i64(chat_text(channel)) {
            Some(number) => outcome matches Ok(
                Delivery::Telegram { chat_id, text, html, preview },
            ) && chat_id == number && text@ == built.2 && html && !preview,
            None => outcome matches Err(SendError::NoChat),
        },
        ZuseNotifyType::Sns => match channel {
            ZuseChannelType::Sns(phone, target, topic) => outcome matches Ok(
                Delivery::Sns(request),
            ) && request.carries(
                PublishView {
                    message: built.2,
                    subject: built.1,
                    sender: built.0,
                    phone_number: phone,
                    target_arn: target,
                    topic_arn: topic,
                },
            ),
            ZuseChannelType::Telegram(_) => outcome matches Ok(Delivery::Nothing),
        },
    }
}

/// What a notifier sends for a channel, given who the message comes from, its
/// subject and its text.
pub fn deliver(
    notifier: ZuseNotifyType,
    channel: &ZuseChannelType,
    built: (String, String, String),
) -> (outcome: Result<Delivery, SendError>)
    ensures
        delivers(notifier, *channel, (built.0@, built.1@, built.2@), outcome),
{
    let (sender, subject, message) = built;
    match notifier {
        ZuseNotifyType::Telegram => {
            let chat = match channel {
                ZuseChannelType::Telegram(chat_id) => chat_id.clone(),
                _ => String::new(),
            };
            match parse_i64(chat.as_str()) {
                Some(chat_id) => Ok(
                    Delivery::Telegram { chat_id, text: message, html: true, preview: false },
                ),
                None => Err(SendError::NoChat),
            }
        },
        ZuseNotifyType::Sns => match channel {
            ZuseChannelType::Sns(phone, target, topic) => {
                let attributes: Vec<MessageAttribute> = vec![
                    MessageAttribute {
                        name: "DefaultSenderID".to_string(),
                        data_type: "String".to_string(),
                        value: sender,
                    },
                    MessageAttribute {
                        name: "DefaultSMSType".to_string(),
                        data_type: "String".to_string(),
                        value: "Transactional".to_string(),
                    },
                ];
                Ok(
                    Delivery::Sns(
                        PublishRequest {
                            message,
                            subject,
                            attributes,
                            phone_number: same_text(phone),
                            target_arn: same_text(target),
                            topic_arn: same_text(topic),
                        },
                    ),
                )
            },
            ZuseChannelType::Telegram(_) => Ok(Delivery::Nothing),
        },
    }
}

/// The members of the first few of the given groups, one group after the other.
pub open spec fn members(
    groups: Map<Seq<char>, ZuseNotifyGroup>,
    listed: Seq<String>,
    count: nat,
) -> Seq<String>
    decreases count,
{
    if count == 0 {
        Seq::empty()
    } else {
        members(groups, listed, (count - 1) as nat) + groups[listed[count - 1]@]@
    }
}

/// The channels that go by the first few of the given names.
pub open spec fn reached(
    channels: Map<Seq<char>, ZuseChannel>,
    listed: Seq<String>,
    count: nat,
) -> Seq<ZuseChannel>
    decreases count,
{
    if count == 0 {
        Seq::empty()
    } else {
        let before = reached(channels, listed, (count - 1) as nat);
        let name = listed[count - 1]@;
        if channels.contains_key(name) {
            before.push(channels[name])
        } else {
            before
        }
    }
}

/// The bot with a configuration that has been checked.
pub struct Zuse {
    pub args: ZuseArgs,
    pub notifiers: Vec<ZuseNotifyType>,
    pub channels: ZuseChannelMap,
    pub notify_groups: ZuseNotifyGroupMap,
}

impl Zuse {
    /// Whether a test can be run: whom it tells is there, and it has what its type
    /// and its runs need.
    pub open spec fn can_run(self, test: ZuseConfigTest) -> bool {
        &&& forall|i: int|
            0 <= i < crate::validate::names(test.notify).len() ==> self.channels@.contains_key(
                (#[trigger] crate::validate::names(test.notify)[i])@,
            )
        &&& forall|i: int|
            0 <= i < crate::validate::names(test.notify_groups).len()
                ==> self.notify_groups@.contains_key(
                (#[trigger] crate::validate::names(test.notify_groups)[i])@,
            )
        &&& test.retries is Some
        &&& test.recovery is Some
        &&& test.interval is Some
        &&& test.test_type !is TcpOk ==> crate::bindings::is_absolute_url(test.target@)
        &&& test.test_type is HttpMatch ==> {
            &&& test.expect is Some
            &&& test.expect->0.status is Some || test.expect->0.text is Some
            &&& test.expect->0.status matches Some(status) ==> crate::validate::is_status(status)
        }
    }

    /// What a checked configuration is good for: the channels and notifiers are
    /// those of the configuration and can be sent to, every member of a group is
    /// a channel, and every test can be run.
    pub open spec fn wf(self) -> bool {
        let notifiers = self.args.config.notifiers@;
        &&& self.channels@ == crate::setup::registered(notifiers, notifiers.len(), 0)
        &&& self.notifiers@ == crate::setup::connected(notifiers, notifiers.len())
        &&& crate::setup::all_usable(notifiers, notifiers.len(), 0)
        &&& forall|name: Seq<char>, i: int|
            self.notify_groups@.contains_key(name) && 0 <= i < self.notify_groups@[name]@.len()
                ==> self.channels@.contains_key((#[trigger] self.notify_groups@[name]@[i])@)
        &&& forall|t: int|
            0 <= t < self.args.config.tests@.len() ==> self.can_run(
                #[trigger] self.args.config.tests@[t],
            )
    }

    /// The names that a test tells: its channels, then the members of its groups.
    pub open spec fn told_names(self, test: ZuseConfigTest) -> Seq<String> {
        let groups = crate::validate::names(test.notify_groups);
        crate::validate::names(test.notify) + members(self.notify_groups@, groups, groups.len())
    }

    /// The channels that a test tells.
    pub open spec fn told_channels(self, test: ZuseConfigTest) -> Seq<ZuseChannel> {
        let names = self.told_names(test);
        reached(self.channels@, names, names.len())
    }

    /// The notifier that serves a channel, if there is one: that under which the
    /// configuration lists it.
    pub open spec fn serving(self, channel: ZuseChannel) -> Option<ZuseNotifyType> {
        let slot = crate::setup::slot(self.args.config.notifiers@, channel.0 as nat);
        if slot < self.notifiers@.len() {
            Some(self.notifiers@[slot as int])
        } else {
            None
        }
    }

    /// Whether nothing is sent to a channel because its notifier does not serve
    /// such channels.
    pub open spec fn passes_over(self, channel: ZuseChannel) -> bool {
        self.serving(channel) == Some(ZuseNotifyType::Sns) && channel.1 is Telegram
    }

    /// What comes of sending a message to a channel.
    pub open spec fn sends(
        self,
        channel: ZuseChannel,
        msg: ZuseJobMessage,
        outcome: Result<Delivery, SendError>,
    ) -> bool {
        let configured = self.args.config.notifiers[channel.0 as int];
        let text = msg@.rendering(crate::message::body_template(msg.state, configured));
        let subject = msg@.rendering(crate::message::subject_template(msg.state, configured));
        if self.serving(channel) is None {
            outcome matches Err(SendError::NoNotifier)
        } else if self.passes_over(channel) {
            outcome matches Ok(Delivery::Nothing)
        } else if channel.0 >= self.args.config.notifiers@.len() {
            outcome matches Err(SendError::NoNotifier)
        } else if crate::message::names_local_this(msg.state, configured) {
            outcome matches Err(SendError::Template(TemplateError::LocalThis))
        } else if crate::message::is_circular(msg.state, configured) {
            &&& outcome matches Err(SendError::Template(TemplateError::CircularPartials))
            &&& crate::message::mentions_partial(msg.state, configured)
        } else if text is None || subject is None {
            outcome matches Err(SendError::Template(TemplateError::Refused(_)))
        } else {
            delivers(
                self.serving(channel)->0,
                channel.1,
                (crate::message::sender(configured), subject->0, text->0),
                outcome,
            )
        }
    }
}

/// None of some names is unknown if and only if all are known.
pub proof fn all_known(names: Seq<String>, known: Set<Seq<char>>, from: nat)
    ensures
        crate::validate::first_unknown(names, known, from) is None <==> forall|i: int|
            from <= i < names.len() ==> known.contains((#[trigger] names[i])@),
    decreases names.len() - from,
{
    if from < names.len() {
        all_known(names, known, from + 1);
    }
}

/// Nothing is wrong with some groups if and only if all their members are known.
pub proof fn all_members_known(
    groups: Seq<ZuseConfigNotifyGroups>,
    known: Set<Seq<char>>,
    from: nat,
)
    ensures
        crate::validate::group_error(groups, known, from) is None <==> forall|g: int, i: int|
            from <= g < groups.len() && 0 <= i < groups[g].notify@.len() ==> known.contains(
                (#[trigger] groups[g].notify@[i])@,
            ),
    decreases groups.len() - from,
{
    if from < groups.len() {
        let first = groups[from as int].notify@;
        all_known(first, known, 0);
        all_members_known(groups, known, from + 1);
        if crate::validate::first_unknown(first, known, 0) is Some {
            let i = choose|i: int| 0 <= i < first.len() && !known.contains((#[trigger] first[i])@);
            assert(!known.contains(groups[from as int].notify@[i]@));
        }
    }
}

/// What goes by a name among the groups is one of them.
proof fn grouped_are_groups(groups: Seq<ZuseConfigNotifyGroups>, count: nat, name: Seq<char>)
    requires
        count <= groups.len(),
        crate::validate::grouped(groups, count).contains_key(name),
    ensures
        exists|g: int|
            0 <= g < count && (#[trigger] groups[g]).notify@ == crate::validate::grouped(
                groups,
                count,
            )[name],
    decreases count,
{
    if count > 0 {
        if groups[count - 1].name@ != name {
            grouped_are_groups(groups, (count - 1) as nat, name);
        }
    }
}

/// Places behind the end of a configuration are not passed over.
proof fn slots_beyond(notifiers: Seq<ZuseConfigNotifier>, passed: nat, place: nat)
    requires
        passed <= place,
        passed == place || passed >= notifiers.len(),
    ensures
        crate::setup::slot(notifiers, place) == crate::setup::slot(notifiers, passed) + (place
            - passed),
    decreases place,
{
    if passed < place {
        slots_beyond(notifiers, passed, (place - 1) as nat);
    }
}

/// Nothing is wrong with whom some tests tell if and only if that holds of each.
pub proof fn all_references_known(
    tests: Seq<ZuseConfigTest>,
    channels: Set<Seq<char>>,
    groups: Set<Seq<char>>,
    from: nat,
)
    ensures
        crate::validate::reference_error(tests, channels, groups, from) is None <==> forall|t: int|
            from <= t < tests.len() ==> crate::validate::reference_error_of(
                #[trigger] tests[t],
                channels,
                groups,
            ) is None,
    decreases tests.len() - from,
{
    if from < tests.len() {
        all_references_known(tests, channels, groups, from + 1);
    }
}

/// Nothing is wrong with what some tests test if and only if that holds of each.
pub proof fn all_types_fit(tests: Seq<ZuseConfigTest>, addresses: Seq<bool>, from: nat)
    ensures
        crate::validate::type_error(tests, addresses, from) is None <==> forall|t: int|
            from <= t < tests.len() ==> crate::validate::type_error_of(
                #[trigger] tests[t],
                addresses[t],
            ) is None,
    decreases tests.len() - from,
{
    if from < tests.len() {
        all_types_fit(tests, addresses, from + 1);
    }
}

/// Some tests lack no setting if and only if that holds of each.
pub proof fn all_settings_there(
    tests: Seq<ZuseConfigTest>,
    defaults: crate::config::ZuseConfigDefaults,
    from: nat,
)
    ensures
        crate::validate::setting_error(tests, defaults, from) is None <==> forall|t: int|
            from <= t < tests.len() ==> crate::validate::setting_error_of(
                #[trigger] tests[t],
                defaults,
            ) is None,
    decreases tests.len() - from,
{
    if from < tests.len() {
        all_settings_there(tests, defaults, from + 1);
    }
}

impl Zuse {
    /// The bot, once its notifiers are set up and where it is known which targets
    /// of the tests are socket addresses; or the first thing wrong with the rest
    /// of the configuration.
    pub fn new(setup: Setup, addresses: &Vec<bool>) -> (outcome: Result<Zuse, SetupError>)
        requires
            setup.wf(),
            setup.stage is Ready,
            addresses@.len() == setup.args.config.tests@.len(),
        ensures
            ({
                let config = setup.args.config;
                let groups = crate::validate::group_list(config.notify_groups);
                let defaults = crate::validate::defaults_of(config.defaults);
                let error = crate::validate::configuration_error(
                    config,
                    setup.channels@.dom(),
                    addresses@,
                );
                match outcome {
                    Ok(zuse) => {
                        &&& error is None
                        &&& zuse.wf()
                        &&& zuse.args.verbosity == setup.args.verbosity
                        &&& zuse.args.config.config == config.config
                        &&& zuse.args.config.defaults == config.defaults
                        &&& zuse.args.config.notifiers == config.notifiers
                        &&& zuse.args.config.notify_groups == config.notify_groups
                        &&& zuse.args.config.tests@ == config.tests@.map_values(
                            |test: ZuseConfigTest| crate::validate::completed(test, defaults),
                        )
                        &&& crate::validate::group_names(zuse.notify_groups@)
                            == crate::validate::grouped(groups, groups.len())
                    },
                    Err(reason) => error == Some(reason),
                }
            }),
    {
        let Setup { args, notifiers, channels, .. } = setup;
        let mut args = args;
        let ghost config = args.config;
        let ghost groups = crate::validate::group_list(config.notify_groups);
        let ghost defaults = crate::validate::defaults_of(config.defaults);
        let notify_groups = match collect_groups(&args.config.notify_groups, &channels) {
            Ok(notify_groups) => notify_groups,
            Err(error) => {
                return Err(error);
            },
        };
        proof {
            assert(notify_groups@.dom() =~= crate::validate::group_names(notify_groups@).dom());
        }
        if let Some(error) = check_references(&args.config.tests, &channels, &notify_groups) {
            return Err(error);
        }
        if let Some(error) = check_types(&args.config.tests, addresses) {
            return Err(error);
        }
        if let Some(error) = complete_tests(&mut args.config.tests, &args.config.defaults) {
            return Err(error);
        }
        let zuse = Zuse { args, notifiers, channels, notify_groups };
        proof {
            all_members_known(groups, channels@.dom(), 0);
            all_references_known(config.tests@, channels@.dom(), notify_groups@.dom(), 0);
            all_types_fit(config.tests@, addresses@, 0);
            all_settings_there(config.tests@, defaults, 0);
            assert forall|name: Seq<char>, i: int|
                zuse.notify_groups@.contains_key(name) && 0 <= i
                    < zuse.notify_groups@[name]@.len() implies zuse.channels@.contains_key(
                (#[trigger] zuse.notify_groups@[name]@[i])@,
            ) by {
                grouped_are_groups(groups, groups.len(), name);
                let g = choose|g: int|
                    0 <= g < groups.len() && (#[trigger] groups[g]).notify@
                        == crate::validate::grouped(groups, groups.len())[name];
                assert(crate::validate::group_names(notify_groups@)[name]
                    == notify_groups@[name]@);
                assert(groups[g].notify@[i] == zuse.notify_groups@[name]@[i]);
            }
            assert forall|t: int| 0 <= t < zuse.args.config.tests@.len() implies zuse.can_run(
                #[trigger] zuse.args.config.tests@[t],
            ) by {
                let test = config.tests@[t];
                assert(zuse.args.config.tests@[t] == crate::validate::completed(test, defaults));
                all_known(crate::validate::names(test.notify), channels@.dom(), 0);
                all_known(crate::validate::names(test.notify_groups), notify_groups@.dom(), 0);
            }
        }
        Ok(zuse)
    }

    /// The channels that a message goes to, in the order in which it is sent: those
    /// that its test names, then the members of the groups that it names.
    pub fn handle_msg(&self, msg: &ZuseJobMessage) -> (told: Vec<ZuseChannel>)
        requires
            msg.test_id < self.args.config.tests@.len(),
            ({
                let groups = crate::validate::names(
                    self.args.config.tests[msg.test_id as int].notify_groups,
                );
                forall|i: int|
                    0 <= i < groups.len() ==> self.notify_groups@.contains_key(
                        (#[trigger] groups[i])@,
                    )
            }),
        ensures
            told@ == self.told_channels(self.args.config.tests[msg.test_id as int]),
    {
        let test = &self.args.config.tests[msg.test_id];
        let mut listed: Vec<String> = match &test.notify {
            Some(notify) => same_names(notify),
            None => Vec::new(),
        };
        let ghost own = listed@;
        assert(own == crate::validate::names(test.notify));
        if let Some(groups) = &test.notify_groups {
            let mut i: usize = 0;
            assert forall|j: int| 0 <= j < groups@.len() implies self.notify_groups@.contains_key(
                (#[trigger] groups@[j])@,
            ) by {
                assert(crate::validate::names(test.notify_groups)[j] == groups@[j]);
            }
            assert(listed@ =~= own + members(self.notify_groups@, groups@, 0));
            while i < groups.len()
                invariant
                    i <= groups.len(),
                    forall|j: int|
                        0 <= j < groups@.len() ==> self.notify_groups@.contains_key(
                            (#[trigger] groups@[j])@,
                        ),
                    listed@ == own + members(self.notify_groups@, groups@, i as nat),
                decreases groups.len() - i,
            {
                if let Some(group) = self.notify_groups.get(groups[i].as_str()) {
                    let mut added = same_names(group);
                    listed.append(&mut added);
                }
                i += 1;
                assert(listed@ =~= own + members(self.notify_groups@, groups@, i as nat));
            }
        }
        assert(listed@ =~= self.told_names(*test));
        let mut told: Vec<ZuseChannel> = Vec::new();
        let mut i: usize = 0;
        while i < listed.len()
            invariant
                i <= listed.len(),
                told@ == reached(self.channels@, listed@, i as nat),
            decreases listed.len() - i,
        {
            if let Some(channel) = self.channels.get(listed[i].as_str()) {
                told.push((channel.0, channel.1.clone()));
            }
            i += 1;
        }
        told
    }

    /// Where the notifier of a channel stands among those that have been set up.
    pub fn notifier_slot(&self, channel: &ZuseChannel) -> (slot: usize)
        ensures
            slot == crate::setup::slot(self.args.config.notifiers@, channel.0 as nat),
    {
        let place = channel.0;
        let notifiers = &self.args.config.notifiers;
        let mut passed: usize = 0;
        let mut slot: usize = 0;
        while passed < place && passed < notifiers.len()
            invariant
                passed <= place,
                passed <= notifiers.len(),
                slot <= passed,
                notifiers@ == self.args.config.notifiers@,
                slot == crate::setup::slot(notifiers@, passed as nat),
            decreases place - passed,
        {
            if notifiers[passed].channels.len() > 0 {
                slot += 1;
            }
            passed += 1;
        }
        proof {
            slots_beyond(notifiers@, passed as nat, place as nat);
        }
        slot + (place - passed)
    }

    /// What is sent for a channel. A message about the normative state has no
    /// templates, and can only go where nothing is sent.
    pub fn try_send(&self, channel: &ZuseChannel, msg: &ZuseJobMessage) -> (outcome: Result<
        Delivery,
        SendError,
    >)
        requires
            msg.state is Normative ==> self.passes_over(*channel),
        ensures
            self.sends(*channel, *msg, outcome),
    {
        let slot = self.notifier_slot(channel);
        if slot >= self.notifiers.len() {
            return Err(SendError::NoNotifier);
        }
        let notifier = self.notifiers[slot];
        if let (ZuseNotifyType::Sns, ZuseChannelType::Telegram(_)) = (notifier, &channel.1) {
            return Ok(Delivery::Nothing);
        }
        if channel.0 >= self.args.config.notifiers.len() {
            return Err(SendError::NoNotifier);
        }
        match msg.try_build(&self.args, channel.0) {
            Ok(built) => deliver(notifier, &channel.1, built),
            Err(error) => Err(SendError::Template(error)),
        }
    }
}

} // verus!
