//! The configuration, as it was read.

use vstd::prelude::*;

verus! {

/// A place that messages of a notifier can go to.
#[derive(Debug, Clone, PartialEq)]
pub struct ZuseConfigNotifierChannel {
    pub name: String,
    /// Telegram: the chat.
    pub id: Option<String>,
    /// SNS: exactly one of these three.
    pub phone: Option<String>,
    pub target_arn: Option<String>,
    pub topic_arn: Option<String>,
}

/// How a notifier proves who it is.
#[derive(Debug, Clone, PartialEq)]
pub struct ZuseConfigNotifierAuth {
    /// Telegram.
    pub token: Option<String>,
    /// SNS.
    pub key: Option<String>,
    pub secret: Option<String>,
    pub region: Option<String>,
}

/// The texts of a notifier's messages, where they are not the default ones.
#[derive(Debug, Clone, PartialEq)]
pub struct ZuseConfigNotifierTemplates {
    pub alert_subject: Option<String>,
    pub alert_plain: Option<String>,
    pub alert_html: Option<String>,
    pub resolve_subject: Option<String>,
    pub resolve_plain: Option<String>,
    pub resolve_html: Option<String>,
}

/// The messenger behind a notifier.
#[derive(Debug, Clone, Copy, PartialEq, Eq, Structural)]
pub enum ZuseConfigNotifierType {
    Telegram,
    Sns,
}

/// A messenger account with the channels that it serves.
#[derive(Debug, Clone, PartialEq)]
pub struct ZuseConfigNotifier {
    pub notifier_type: ZuseConfigNotifierType,
    pub sender_id: Option<String>,
    pub auth: ZuseConfigNotifierAuth,
    pub templates: Option<ZuseConfigNotifierTemplates>,
    pub channels: Vec<ZuseConfigNotifierChannel>,
}

/// What a response has to look like.
#[derive(Debug, Clone, PartialEq)]
pub struct ZuseConfigTestExpecations {
    pub text: Option<String>,
    pub status: Option<u16>,
}

/// How a target is tested.
#[derive(Debug, Clone, Copy, PartialEq, Eq, Structural)]
pub enum ZuseConfigTestType {
    HttpOk,
    TcpOk,
    HttpMatch,
}

/// A target, how often it is tested, and who is told.
#[derive(Debug, Clone, PartialEq)]
pub struct ZuseConfigTest {
    pub test_type: ZuseConfigTestType,
    pub name: String,
    pub target: String,
    pub expect: Option<ZuseConfigTestExpecations>,
    pub notify: Option<Vec<String>>,
    pub notify_groups: Option<Vec<String>>,
    /// These four fall back to the defaults.
    pub retries: Option<u64>,
    pub recovery: Option<u64>,
    pub interval: Option<u64>,
    pub timeout: Option<u64>,
}

/// Settings of the bot itself.
#[derive(Debug, Clone, PartialEq)]
pub struct ZuseConfigInternal {
    pub dump_prefix_url: Option<String>,
}

/// What a test gets that does not say otherwise.
#[derive(Debug, Clone, PartialEq)]
pub struct ZuseConfigDefaults {
    pub retries: Option<u64>,
    pub recovery: Option<u64>,
    pub interval: Option<u64>,
    pub timeout: Option<u64>,
}

/// Channels that go by one name.
#[derive(Debug, Clone, PartialEq)]
pub struct ZuseConfigNotifyGroups {
    pub name: String,
    pub notify: Vec<String>,
}

/// The whole configuration.
#[derive(Debug, Clone, PartialEq)]
pub struct ZuseConfig {
    pub config: Option<ZuseConfigInternal>,
    pub defaults: Option<ZuseConfigDefaults>,
    pub notifiers: Vec<ZuseConfigNotifier>,
    pub notify_groups: Option<Vec<ZuseConfigNotifyGroups>>,
    pub tests: Vec<ZuseConfigTest>,
}

/// What the program was started with.
#[derive(Debug, Clone)]
pub struct ZuseArgs {
    pub verbosity: u8,
    pub config: ZuseConfig,
}

impl ZuseArgs {
    /// Whether debugging output is wanted.
    pub open spec fn wants_debug(self) -> bool {
        self.verbosity > 1
    }

    /// Whether verbose output is wanted.
    pub open spec fn wants_verbose(self) -> bool {
        self.verbosity > 0
    }

    /// The arguments for the given switches: debugging takes in being verbose.
    pub fn new(verbose: bool, debug: bool, config: ZuseConfig) -> (args: ZuseArgs)
        ensures
            args.verbosity == (if debug { 2u8 } else if verbose { 1u8 } else { 0u8 }),
            args.config == config,
            args.wants_debug() == debug,
            args.wants_verbose() == (debug || verbose),
    {
        let verbosity: u8 = if debug {
            2
        } else if verbose {
            1
        } else {
            0
        };
        ZuseArgs { verbosity, config }
    }

    /// Whether debugging output is wanted.
    pub fn debug(&self) -> (wanted: bool)
        ensures
            wanted == self.wants_debug(),
            wanted == (self.verbosity > 1),
    {
        self.verbosity > 1
    }

    /// Whether verbose output is wanted.
    pub fn verbose(&self) -> (wanted: bool)
        ensures
            wanted == self.wants_verbose(),
            wanted == (self.verbosity > 0),
    {
        self.verbosity > 0
    }
}

} // verus!
