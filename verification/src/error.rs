//! Why the bot does not start, and the line that says so.

use crate::bindings::quoted;
use crate::config::{ZuseConfigNotifierType, ZuseConfigTestType};
use crate::text::decimal;
use vstd::prelude::*;

verus! {

/// A setting that every test needs, from itself or from the defaults.
#[derive(Debug, Clone, Copy, PartialEq, Eq, Structural)]
pub enum Setting {
    Retries,
    Recovery,
    Interval,
}

/// The first thing found wrong with a configuration.
#[derive(Debug, Clone)]
pub enum SetupError {
    /// A Telegram notifier without a token.
    MissingToken { notifier_id: usize, notifier_type: ZuseConfigNotifierType },
    /// A token that Telegram does not take.
    InvalidToken { notifier_id: usize, notifier_type: ZuseConfigNotifierType, token: String },
    /// A Telegram channel without an id.
    MissingChannelId { channel: String },
    /// A Telegram channel whose id is no number.
    MalformedChannelId { channel: String, id: String },
    /// A Telegram channel that the bot cannot reach.
    UnknownChat { channel: String, id: String },
    /// An SNS notifier without a region.
    MissingRegion { notifier_id: usize, notifier_type: ZuseConfigNotifierType },
    /// An SNS notifier in a region that does not exist.
    UnknownRegion { region: String },
    /// An SNS notifier without key and secret, where the environment has none.
    MissingCredentials { notifier_id: usize, notifier_type: ZuseConfigNotifierType },
    /// Credentials that AWS does not take.
    RefusedCredentials { notifier_id: usize, notifier_type: ZuseConfigNotifierType },
    /// A phone whose owner does not want messages.
    OptedOut {
        notifier_id: usize,
        notifier_type: ZuseConfigNotifierType,
        channel: String,
        phone: String,
    },
    /// An SNS channel with none, or more than one, of its three targets.
    AmbiguousTarget { notifier_id: usize, notifier_type: ZuseConfigNotifierType, channel: String },
    /// A notify group that names a channel that is not there.
    GroupWithUnknownChannel { group: String, channel: String },
    /// A test that names a channel that is not there.
    TestWithUnknownChannel { test: String, test_type: ZuseConfigTestType, channel: String },
    /// A test that names a notify group that is not there.
    TestWithUnknownGroup { test: String, test_type: ZuseConfigTestType, group: String },
    /// A target that is no URL.
    InvalidUrl { test: String, test_type: ZuseConfigTestType, target: String },
    /// A target that is no socket address.
    InvalidAddress { test: String, test_type: ZuseConfigTestType, target: String },
    /// A matching test that expects nothing.
    MissingExpectations { test: String, test_type: ZuseConfigTestType },
    /// A matching test with expectations that hold nothing.
    EmptyExpectations { test: String, test_type: ZuseConfigTestType },
    /// A matching test that expects a number that is no status.
    InvalidStatus { test: String, test_type: ZuseConfigTestType, status: u16 },
    /// A test without a setting that has no default either.
    MissingSetting { test: String, test_type: ZuseConfigTestType, setting: Setting },
}

/// The name of a notifier's type.
pub open spec fn notifier_type_text(notifier_type: ZuseConfigNotifierType) -> Seq<char> {
    match notifier_type {
        ZuseConfigNotifierType::Telegram => "Telegram"@,
        ZuseConfigNotifierType::Sns => "Sns"@,
    }
}

/// The name of a test's type.
pub open spec fn test_type_text(test_type: ZuseConfigTestType) -> Seq<char> {
    match test_type {
        ZuseConfigTestType::HttpOk => "HttpOk"@,
        ZuseConfigTestType::TcpOk => "TcpOk"@,
        ZuseConfigTestType::HttpMatch => "HttpMatch"@,
    }
}

/// The name of a setting.
pub open spec fn setting_text(setting: Setting) -> Seq<char> {
    match setting {
        Setting::Retries => "retries"@,
        Setting::Recovery => "recovery"@,
        Setting::Interval => "interval"@,
    }
}

/// How a line about a notifier begins.
pub open spec fn notifier_prefix(
    notifier_id: usize,
    notifier_type: ZuseConfigNotifierType,
) -> Seq<char> {
    "Error: notifier "@ + crate::text::decimal_text(notifier_id as nat) + " ("@
        + notifier_type_text(notifier_type) + ")"@
}

/// How a line about a test begins.
pub open spec fn test_prefix(test: Seq<char>, test_type: ZuseConfigTestType) -> Seq<char> {
    "Error: '"@ + test + "' (type: "@ + test_type_text(test_type) + ")"@
}

fn notifier_type_name(notifier_type: ZuseConfigNotifierType) -> (name: &'static str)
    ensures
        name@ == notifier_type_text(notifier_type),
{
    match notifier_type {
        ZuseConfigNotifierType::Telegram => "Telegram",
        ZuseConfigNotifierType::Sns => "Sns",
    }
}

fn test_type_name(test_type: ZuseConfigTestType) -> (name: &'static str)
    ensures
        name@ == test_type_text(test_type),
{
    match test_type {
        ZuseConfigTestType::HttpOk => "HttpOk",
        ZuseConfigTestType::TcpOk => "TcpOk",
        ZuseConfigTestType::HttpMatch => "HttpMatch",
    }
}

fn setting_name(setting: Setting) -> (name: &'static str)
    ensures
        name@ == setting_text(setting),
{
    match setting {
        Setting::Retries => "retries",
        Setting::Recovery => "recovery",
        Setting::Interval => "interval",
    }
}

fn about_notifier(notifier_id: usize, notifier_type: ZuseConfigNotifierType) -> (line: String)
    ensures
        line@ == notifier_prefix(notifier_id, notifier_type),
{
    "Error: notifier ".to_string().concat(decimal(notifier_id).as_str()).concat(" (").concat(
        notifier_type_name(notifier_type),
    ).concat(")")
}

fn about_test(test: &String, test_type: ZuseConfigTestType) -> (line: String)
    ensures
        line@ == test_prefix(test@, test_type),
{
    "Error: '".to_string().concat(test.as_str()).concat("' (type: ").concat(
        test_type_name(test_type),
    ).concat(")")
}

impl SetupError {
    /// The line that the bot prints before it stops. A region that does not exist
    /// has none. How the name of the channel and the phone are shown is given.
    pub open spec fn line_with(self, channel_shown: Seq<char>, phone_shown: Seq<char>) -> Option<
        Seq<char>,
    > {
        match self {
            SetupError::MissingToken { notifier_id, notifier_type } => Some(
                notifier_prefix(notifier_id, notifier_type)
                    + " must specify a token."@,
            ),
            SetupError::InvalidToken { notifier_id, notifier_type, token } => Some(
                notifier_prefix(notifier_id, notifier_type)
                    + " has invalid telegram token. (token: "@
                    + token@
                    + ")"@,
            ),
            SetupError::MissingChannelId { .. } => Some(
                "Error: channel "@ + channel_shown
                    + " must specify an id."@,
            ),
            SetupError::MalformedChannelId { id, .. } => Some(
                "Error: channel "@ + channel_shown
                    + " must have valid i64 id. (cid: "@
                    + id@
                    + ")"@,
            ),
            SetupError::UnknownChat { id, .. } => Some(
                "Error: channel "@ + channel_shown
                    + " could not be validated. (cid: "@
                    + id@
                    + ")"@,
            ),
            SetupError::MissingRegion { notifier_id, notifier_type } => Some(
                notifier_prefix(notifier_id, notifier_type)
                    + " must specify region."@,
            ),
            SetupError::UnknownRegion { .. } => None,
            SetupError::MissingCredentials { notifier_id, notifier_type } => Some(
                notifier_prefix(notifier_id, notifier_type)
                    + " has no key and secret set, defaulting to env creds.\n"@
                    + notifier_prefix(notifier_id, notifier_type)
                    + " requires env (AWS_ACCESS_KEY_ID and AWS_SECRET_ACCESS_KEY) to be set."@,
            ),
            SetupError::RefusedCredentials { notifier_id, notifier_type } => Some(
                notifier_prefix(notifier_id, notifier_type)
                    + " could not validate AWS credentials."@,
            ),
            SetupError::OptedOut { notifier_id, notifier_type, .. } => Some(
                notifier_prefix(notifier_id, notifier_type)
                    + " channel "@
                    + channel_shown
                    + ": "@
                    + phone_shown
                    + " has explicitly opted out from receing SMS via SNS."@,
            ),
            SetupError::AmbiguousTarget { notifier_id, notifier_type, .. } => Some(
                notifier_prefix(notifier_id, notifier_type)
                    + " channel "@
                    + channel_shown
                    + " must specify at least and at most one of phone, target_arn or topic_arn."@,
            ),
            SetupError::GroupWithUnknownChannel { group, channel } => Some(
                "Error: notify group '"@
                    + group@
                    + "' references inexistent channel: "@
                    + channel@,
            ),
            SetupError::TestWithUnknownChannel { test, test_type, channel } => Some(
                test_prefix(test@, test_type)
                    + " references inexistent channel: "@
                    + channel@,
            ),
            SetupError::TestWithUnknownGroup { test, test_type, group } => Some(
                test_prefix(test@, test_type)
                    + " references inexistent notify group: "@
                    + group@,
            ),
            SetupError::InvalidUrl { test, test_type, target } => Some(
                test_prefix(test@, test_type)
                    + " requires a valid URL as target. Got: "@
                    + target@,
            ),
            SetupError::InvalidAddress { test, test_type, target } => Some(
                test_prefix(test@, test_type)
                    + " requires an IPv4 (RFC791) or IPv6 (RFC4291) and 16 bit port tuple as target. Got: "@
                    + target@,
            ),
            SetupError::MissingExpectations { test, test_type } => Some(
                test_prefix(test@, test_type)
                    + " requires expectations."@,
            ),
            SetupError::EmptyExpectations { test, test_type } => Some(
                test_prefix(test@, test_type)
                    + " either status or text expectations."@,
            ),
            SetupError::InvalidStatus { test, test_type, status } => Some(
                test_prefix(test@, test_type)
                    + " has expects invalid status. Got: "@
                    + crate::text::decimal_text(status as nat),
            ),
            SetupError::MissingSetting { test, test_type, setting } => Some(
                test_prefix(test@, test_type)
                    + " lacks '"@
                    + setting_text(setting)
                    + "', but no default was set."@,
            ),
        }
    }

    /// The name of the channel as the line shows it.
    pub open spec fn channel_shown(self) -> Seq<char> {
        match self {
            SetupError::MissingChannelId { channel } => crate::bindings::debug_text(channel@),
            SetupError::MalformedChannelId { channel, .. } => crate::bindings::debug_text(
                channel@,
            ),
            SetupError::UnknownChat { channel, .. } => crate::bindings::debug_text(channel@),
            SetupError::OptedOut { channel, .. } => crate::bindings::debug_text(channel@),
            SetupError::AmbiguousTarget { channel, .. } => crate::bindings::debug_text(channel@),
            _ => Seq::empty(),
        }
    }

    /// The phone as the line shows it.
    pub open spec fn phone_shown(self) -> Seq<char> {
        match self {
            SetupError::OptedOut { phone, .. } => crate::bindings::debug_text(phone@),
            _ => Seq::empty(),
        }
    }

    /// The line that the bot prints before it stops.
    pub open spec fn line(self) -> Option<Seq<char>> {
        self.line_with(self.channel_shown(), self.phone_shown())
    }

    /// The line that the bot prints before it stops, if the failure has one, where
    /// it is known how the name of the channel and the phone are shown.
    pub fn message_with(&self, channel_shown: &str, phone_shown: &str) -> (message: Option<String>)
        ensures
            message is Some == self.line_with(channel_shown@, phone_shown@) is Some,
            message matches Some(text) ==> Some(text@) == self.line_with(
                channel_shown@,
                phone_shown@,
            ),
    {
        match self {
            SetupError::MissingToken { notifier_id, notifier_type } => Some(
                about_notifier(*notifier_id, *notifier_type)
                    .concat(" must specify a token."),
            ),
            SetupError::InvalidToken { notifier_id, notifier_type, token } => Some(
                about_notifier(*notifier_id, *notifier_type)
                    .concat(" has invalid telegram token. (token: ")
                    .concat(token.as_str())
                    .concat(")"),
            ),
            SetupError::MissingChannelId { .. } => Some(
                "Error: channel ".to_string().concat(channel_shown)
                    .concat(" must specify an id."),
            ),
            SetupError::MalformedChannelId { id, .. } => Some(
                "Error: channel ".to_string().concat(channel_shown)
                    .concat(" must have valid i64 id. (cid: ")
                    .concat(id.as_str())
                    .concat(")"),
            ),
            SetupError::UnknownChat { id, .. } => Some(
                "Error: channel ".to_string().concat(channel_shown)
                    .concat(" could not be validated. (cid: ")
                    .concat(id.as_str())
                    .concat(")"),
            ),
            SetupError::MissingRegion { notifier_id, notifier_type } => Some(
                about_notifier(*notifier_id, *notifier_type)
                    .concat(" must specify region."),
            ),
            SetupError::UnknownRegion { .. } => None,
            SetupError::MissingCredentials { notifier_id, notifier_type } => Some(
                about_notifier(*notifier_id, *notifier_type)
                    .concat(" has no key and secret set, defaulting to env creds.\n")
                    .concat(about_notifier(*notifier_id, *notifier_type).as_str())
                    .concat(" requires env (AWS_ACCESS_KEY_ID and AWS_SECRET_ACCESS_KEY) to be set."),
            ),
            SetupError::RefusedCredentials { notifier_id, notifier_type } => Some(
                about_notifier(*notifier_id, *notifier_type)
                    .concat(" could not validate AWS credentials."),
            ),
            SetupError::OptedOut { notifier_id, notifier_type, .. } => Some(
                about_notifier(*notifier_id, *notifier_type)
                    .concat(" channel ")
                    .concat(channel_shown)
                    .concat(": ")
                    .concat(phone_shown)
                    .concat(" has explicitly opted out from receing SMS via SNS."),
            ),
            SetupError::AmbiguousTarget { notifier_id, notifier_type, .. } => Some(
                about_notifier(*notifier_id, *notifier_type)
                    .concat(" channel ")
                    .concat(channel_shown)
                    .concat(" must specify at least and at most one of phone, target_arn or topic_arn."),
            ),
            SetupError::GroupWithUnknownChannel { group, channel } => Some(
                "Error: notify group '".to_string()
                    .concat(group.as_str())
                    .concat("' references inexistent channel: ")
                    .concat(channel.as_str()),
            ),
            SetupError::TestWithUnknownChannel { test, test_type, channel } => Some(
                about_test(test, *test_type)
                    .concat(" references inexistent channel: ")
                    .concat(channel.as_str()),
            ),
            SetupError::TestWithUnknownGroup { test, test_type, group } => Some(
                about_test(test, *test_type)
                    .concat(" references inexistent notify group: ")
                    .concat(group.as_str()),
            ),
            SetupError::InvalidUrl { test, test_type, target } => Some(
                about_test(test, *test_type)
                    .concat(" requires a valid URL as target. Got: ")
                    .concat(target.as_str()),
            ),
            SetupError::InvalidAddress { test, test_type, target } => Some(
                about_test(test, *test_type)
                    .concat(" requires an IPv4 (RFC791) or IPv6 (RFC4291) and 16 bit port tuple as target. Got: ")
                    .concat(target.as_str()),
            ),
            SetupError::MissingExpectations { test, test_type } => Some(
                about_test(test, *test_type)
                    .concat(" requires expectations."),
            ),
            SetupError::EmptyExpectations { test, test_type } => Some(
                about_test(test, *test_type)
                    .concat(" either status or text expectations."),
            ),
            SetupError::InvalidStatus { test, test_type, status } => Some(
                about_test(test, *test_type)
                    .concat(" has expects invalid status. Got: ")
                    .concat(decimal(*status as usize).as_str()),
            ),
            SetupError::MissingSetting { test, test_type, setting } => Some(
                about_test(test, *test_type)
                    .concat(" lacks '")
                    .concat(setting_name(*setting))
                    .concat("', but no default was set."),
            ),
        }
    }

    /// The line that the bot prints before it stops, if the failure has one.
    pub fn message(&self) -> (message: Option<String>)
        ensures
            message is Some == self.line() is Some,
            message matches Some(text) ==> Some(text@) == self.line(),
    {
        let channel_shown = match self {
            SetupError::MissingChannelId { channel } => quoted(channel.as_str()),
            SetupError::MalformedChannelId { channel, .. } => quoted(channel.as_str()),
            SetupError::UnknownChat { channel, .. } => quoted(channel.as_str()),
            SetupError::OptedOut { channel, .. } => quoted(channel.as_str()),
            SetupError::AmbiguousTarget { channel, .. } => quoted(channel.as_str()),
            _ => String::new(),
        };
        let phone_shown = match self {
            SetupError::OptedOut { phone, .. } => quoted(phone.as_str()),
            _ => String::new(),
        };
        self.message_with(channel_shown.as_str(), phone_shown.as_str())
    }
}

} // verus!
