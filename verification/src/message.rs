//! The message about a test: what it carries, and the text that it becomes.

use crate::bindings::render;
use crate::config::{
    ZuseArgs, ZuseConfigNotifier, ZuseConfigNotifierTemplates, ZuseConfigNotifierType,
};
use crate::job::JobSMStates;
use crate::template::{has_local_this, has_circular_partials};
use handlebars::TemplateRenderError;
use vstd::prelude::*;

verus! {

pub const DEFAULT_SENDER_ID: &'static str = "NOTICE";

pub const DEFAULT_MSG_TMPL_ALRT_SUBJECT: &'static str = "ALRT {{test_name}}";

pub const DEFAULT_MSG_TMPL_ALRT_PLAIN: &'static str =
    "ALRT Uptime checks failed on '{{test_name}}'. (url: {{test_url}})";

pub const DEFAULT_MSG_TMPL_ALRT_HTML: &'static str =
    "<b>ALRT</b> Uptime checks failed on '{{test_name}}'. (url: {{test_url}})";

pub const DEFAULT_MSG_TMPL_RSLV_SUBJECT: &'static str = "RSVL {{test_name}}";

pub const DEFAULT_MSG_TMPL_RSLV_PLAIN: &'static str =
    "RSLV Uptime checks recovered on '{{test_name}}'. (duration={{time_state_lasted}}s, url: {{test_url}})";

pub const DEFAULT_MSG_TMPL_RSLV_HTML: &'static str =
    "<b>RSLV</b> Uptime checks recovered on '{{test_name}}'. (duration={{time_state_lasted}}s, url: {{test_url}})";

/// Why a message was not built.
#[derive(Debug)]
pub enum TemplateError {
    /// A template names a local variable `this`, which there cannot be.
    LocalThis,
    /// A template includes partials that include one another, and rendering it
    /// might have no end.
    CircularPartials,
    /// A template was refused.
    Refused(TemplateRenderError),
}

/// What is told about a test.
#[derive(Debug)]
pub struct ZuseJobMessage {
    pub test_id: usize,
    pub test_name: String,
    pub test_url: String,
    pub dump_html: String,
    pub dump_url: String,
    pub dump_used: bool,
    pub time_state_lasted: u64,
    pub state: JobSMStates,
}

/// The contents of a message.
#[verifier::ext_equal]
pub struct JobMessageView {
    pub test_id: nat,
    pub test_name: Seq<char>,
    pub test_url: Seq<char>,
    pub dump_html: Seq<char>,
    pub dump_url: Seq<char>,
    pub dump_used: bool,
    pub time_state_lasted: u64,
    pub state: JobSMStates,
}

impl View for ZuseJobMessage {
    type V = JobMessageView;

    open spec fn view(&self) -> JobMessageView {
        JobMessageView {
            test_id: self.test_id as nat,
            test_name: self.test_name@,
            test_url: self.test_url@,
            dump_html: self.dump_html@,
            dump_url: self.dump_url@,
            dump_used: self.dump_used,
            time_state_lasted: self.time_state_lasted,
            state: self.state,
        }
    }
}

/// The name of a state.
pub open spec fn state_text(state: JobSMStates) -> Seq<char> {
    match state {
        JobSMStates::Normative => "Normative"@,
        JobSMStates::Failure => "Failure"@,
        JobSMStates::Recovery => "Recovery"@,
    }
}

impl JobMessageView {
    /// The fields of a message that hold numbers, as a template names them.
    pub open spec fn numbers(self) -> Seq<(Seq<char>, u64)> {
        seq![
            ("test_id"@, self.test_id as u64),
            ("time_state_lasted"@, self.time_state_lasted),
        ]
    }

    /// The fields of a message that hold texts, as a template names them.
    pub open spec fn texts(self) -> Seq<(Seq<char>, Seq<char>)> {
        seq![
            ("test_name"@, self.test_name),
            ("test_url"@, self.test_url),
            ("dump_html"@, self.dump_html),
            ("dump_url"@, self.dump_url),
            ("state"@, state_text(self.state)),
        ]
    }

    /// The fields of a message that hold flags, as a template names them.
    pub open spec fn flags(self) -> Seq<(Seq<char>, bool)> {
        seq![("dump_used"@, self.dump_used)]
    }

    /// What a template makes of a message, if anything.
    pub open spec fn rendering(self, template: Seq<char>) -> Option<Seq<char>> {
        crate::bindings::rendered(template, self.numbers(), self.texts(), self.flags())
    }
}

/// A text of one's own, or else the default one.
pub open spec fn own_or(own: Option<String>, default: Seq<char>) -> Seq<char> {
    match own {
        Some(own) => own@,
        None => default,
    }
}

/// The templates of a notifier, where nothing is said of them.
pub open spec fn templates_of(
    templates: Option<ZuseConfigNotifierTemplates>,
) -> ZuseConfigNotifierTemplates {
    match templates {
        Some(templates) => templates,
        None => ZuseConfigNotifierTemplates {
            alert_subject: None,
            alert_plain: None,
            alert_html: None,
            resolve_subject: None,
            resolve_plain: None,
            resolve_html: None,
        },
    }
}

/// The template of the subject of a message.
pub open spec fn subject_template(state: JobSMStates, notifier: ZuseConfigNotifier) -> Seq<char> {
    let own = templates_of(notifier.templates);
    if state is Failure {
        own_or(own.alert_subject, DEFAULT_MSG_TMPL_ALRT_SUBJECT@)
    } else {
        own_or(own.resolve_subject, DEFAULT_MSG_TMPL_RSLV_SUBJECT@)
    }
}

/// The template of the text of a message in HTML.
pub open spec fn html_template(state: JobSMStates, notifier: ZuseConfigNotifier) -> Seq<char> {
    let own = templates_of(notifier.templates);
    if state is Failure {
        own_or(own.alert_html, DEFAULT_MSG_TMPL_ALRT_HTML@)
    } else {
        own_or(own.resolve_html, DEFAULT_MSG_TMPL_RSLV_HTML@)
    }
}

/// The template of the text of a message without markup.
pub open spec fn plain_template(state: JobSMStates, notifier: ZuseConfigNotifier) -> Seq<char> {
    let own = templates_of(notifier.templates);
    if state is Failure {
        own_or(own.alert_plain, DEFAULT_MSG_TMPL_ALRT_PLAIN@)
    } else {
        own_or(own.resolve_plain, DEFAULT_MSG_TMPL_RSLV_PLAIN@)
    }
}

/// The template of the text that a notifier sends: Telegram takes HTML, SNS does
/// not.
pub open spec fn body_template(state: JobSMStates, notifier: ZuseConfigNotifier) -> Seq<char> {
    match notifier.notifier_type {
        ZuseConfigNotifierType::Telegram => html_template(state, notifier),
        ZuseConfigNotifierType::Sns => plain_template(state, notifier),
    }
}

/// Whether a template that is rendered for a notifier names a local variable
/// `this`.
pub open spec fn names_local_this(state: JobSMStates, notifier: ZuseConfigNotifier) -> bool {
    ||| crate::template::names_local_this(body_template(state, notifier))
    ||| crate::template::names_local_this(subject_template(state, notifier))
}

/// Whether a template that is rendered for a notifier includes partials that
/// include one another without end.
pub open spec fn is_circular(state: JobSMStates, notifier: ZuseConfigNotifier) -> bool {
    ||| crate::template::is_circular(body_template(state, notifier))
    ||| crate::template::is_circular(subject_template(state, notifier))
}

/// Whether a template that is rendered for a notifier holds the beginning of a tag
/// that includes a partial.
pub open spec fn mentions_partial(state: JobSMStates, notifier: ZuseConfigNotifier) -> bool {
    ||| crate::template::mentions_partial(body_template(state, notifier))
    ||| crate::template::mentions_partial(subject_template(state, notifier))
}

/// Who a message of a notifier comes from.
pub open spec fn sender(notifier: ZuseConfigNotifier) -> Seq<char> {
    own_or(notifier.sender_id, DEFAULT_SENDER_ID@)
}

/// A text of one's own, or else the default one.
fn choose_text(own: Option<&String>, default: &str) -> (text: String)
    ensures
        text@ == (match own {
            Some(own) => own@,
            None => default@,
        }),
{
    match own {
        Some(own) => own.clone(),
        None => default.to_string(),
    }
}

/// A message once its texts are there: who it comes from, its subject and its
/// text.
pub fn compose(notifier: &ZuseConfigNotifier, subject: String, text: String) -> (built: (
    String,
    String,
    String,
))
    ensures
        built.0@ == sender(*notifier),
        built.1 == subject,
        built.2 == text,
{
    (choose_text(notifier.sender_id.as_ref(), DEFAULT_SENDER_ID), subject, text)
}

impl ZuseJobMessage {
    /// The same message about another state.
    pub fn with_state(self, state: JobSMStates) -> (message: ZuseJobMessage)
        ensures
            message == (ZuseJobMessage { state, ..self }),
    {
        ZuseJobMessage { state, ..self }
    }

    /// The templates of the subject, of the text in HTML and of the text without
    /// markup.
    pub fn resolve_custom_templates(&self, notifier: &ZuseConfigNotifier) -> (templates: (
        String,
        String,
        String,
    ))
        requires
            self.state !is Normative,
        ensures
            templates.0@ == subject_template(self.state, *notifier),
            templates.1@ == html_template(self.state, *notifier),
            templates.2@ == plain_template(self.state, *notifier),
    {
        let own = notifier.templates.as_ref();
        match self.state {
            JobSMStates::Failure => {
                let (subject, html, plain) = match own {
                    Some(own) => (
                        own.alert_subject.as_ref(),
                        own.alert_html.as_ref(),
                        own.alert_plain.as_ref(),
                    ),
                    None => (None, None, None),
                };
                (
                    choose_text(subject, DEFAULT_MSG_TMPL_ALRT_SUBJECT),
                    choose_text(html, DEFAULT_MSG_TMPL_ALRT_HTML),
                    choose_text(plain, DEFAULT_MSG_TMPL_ALRT_PLAIN),
                )
            },
            _ => {
                let (subject, html, plain) = match own {
                    Some(own) => (
                        own.resolve_subject.as_ref(),
                        own.resolve_html.as_ref(),
                        own.resolve_plain.as_ref(),
                    ),
                    None => (None, None, None),
                };
                (
                    choose_text(subject, DEFAULT_MSG_TMPL_RSLV_SUBJECT),
                    choose_text(html, DEFAULT_MSG_TMPL_RSLV_HTML),
                    choose_text(plain, DEFAULT_MSG_TMPL_RSLV_PLAIN),
                )
            },
        }
    }

    /// What a template makes of the message.
    fn render_with(&self, template: &str) -> (outcome: Result<String, TemplateRenderError>)
        requires
            !crate::template::names_local_this(template@),
            !crate::template::is_circular(template@),
        ensures
            match outcome {
                Ok(text) => self@.rendering(template@) == Some(text@),
                Err(_) => self@.rendering(template@) is None,
            },
    {
        let state = match self.state {
            JobSMStates::Normative => "Normative",
            JobSMStates::Failure => "Failure",
            JobSMStates::Recovery => "Recovery",
        };
        let numbers: Vec<(String, u64)> = vec![
            ("test_id".to_string(), self.test_id as u64),
            ("time_state_lasted".to_string(), self.time_state_lasted),
        ];
        let texts: Vec<(String, String)> = vec![
            ("test_name".to_string(), self.test_name.clone()),
            ("test_url".to_string(), self.test_url.clone()),
            ("dump_html".to_string(), self.dump_html.clone()),
            ("dump_url".to_string(), self.dump_url.clone()),
            ("state".to_string(), state.to_string()),
        ];
        let flags: Vec<(String, bool)> = vec![("dump_used".to_string(), self.dump_used)];
        assert(crate::bindings::number_fields(numbers@) =~= self@.numbers());
        assert(crate::bindings::text_fields(texts@) =~= self@.texts());
        assert(crate::bindings::flag_fields(flags@) =~= self@.flags());
        render(template, &numbers, &texts, &flags)
    }

    /// The templates that are rendered for a notifier: that of the text, and that
    /// of the subject.
    pub fn chosen_templates(&self, notifier: &ZuseConfigNotifier) -> (templates: (String, String))
        requires
            self.state !is Normative,
        ensures
            templates.0@ == body_template(self.state, *notifier),
            templates.1@ == subject_template(self.state, *notifier),
    {
        let (subject, html, plain) = self.resolve_custom_templates(notifier);
        let body = match notifier.notifier_type {
            ZuseConfigNotifierType::Telegram => html,
            ZuseConfigNotifierType::Sns => plain,
        };
        (body, subject)
    }

    /// The message that a notifier sends: who it comes from, its subject and its
    /// text. The templates have to be ones that can be rendered.
    pub fn build(&self, args: &ZuseArgs, notifier_id: usize) -> (built: (String, String, String))
        requires
            self.state !is Normative,
            notifier_id < args.config.notifiers@.len(),
            ({
                let notifier = args.config.notifiers[notifier_id as int];
                &&& !names_local_this(self.state, notifier)
                &&& !is_circular(self.state, notifier)
                &&& self@.rendering(body_template(self.state, notifier)) is Some
                &&& self@.rendering(subject_template(self.state, notifier)) is Some
            }),
        ensures
            ({
                let notifier = args.config.notifiers[notifier_id as int];
                &&& built.0@ == sender(notifier)
                &&& Some(built.1@) == self@.rendering(subject_template(self.state, notifier))
                &&& Some(built.2@) == self@.rendering(body_template(self.state, notifier))
            }),
    {
        let notifier = &args.config.notifiers[notifier_id];
        let (body, subject) = self.chosen_templates(notifier);
        match (self.render_with(body.as_str()), self.render_with(subject.as_str())) {
            (Ok(text), Ok(subject)) => compose(notifier, subject, text),
            _ => (String::new(), String::new(), String::new()),
        }
    }

    /// The message that a notifier sends, or why there is none. Where both
    /// templates are refused, it is the one of the text that is told.
    pub fn try_build(&self, args: &ZuseArgs, notifier_id: usize) -> (outcome: Result<
        (String, String, String),
        TemplateError,
    >)
        requires
            self.state !is Normative,
            notifier_id < args.config.notifiers@.len(),
        ensures
            ({
                let notifier = args.config.notifiers[notifier_id as int];
                let text = self@.rendering(body_template(self.state, notifier));
                let subject = self@.rendering(subject_template(self.state, notifier));
                match outcome {
                    Ok(built) => {
                        &&& !names_local_this(self.state, notifier)
                        &&& !is_circular(self.state, notifier)
                        &&& built.0@ == sender(notifier)
                        &&& Some(built.1@) == subject
                        &&& Some(built.2@) == text
                    },
                    Err(TemplateError::LocalThis) => names_local_this(self.state, notifier),
                    Err(TemplateError::CircularPartials) => {
                        &&& !names_local_this(self.state, notifier)
                        &&& is_circular(self.state, notifier)
                        &&& mentions_partial(self.state, notifier)
                    },
                    Err(TemplateError::Refused(_)) => {
                        &&& !names_local_this(self.state, notifier)
                        &&& !is_circular(self.state, notifier)
                        &&& text is None || subject is None
                    },
                }
            }),
    {
        let (body, subject) = self.chosen_templates(&args.config.notifiers[notifier_id]);
        if has_local_this(body.as_str()) || has_local_this(subject.as_str()) {
            return Err(TemplateError::LocalThis);
        }
        if has_circular_partials(body.as_str()) || has_circular_partials(subject.as_str()) {
            return Err(TemplateError::CircularPartials);
        }
        if let Err(error) = self.render_with(body.as_str()) {
            return Err(TemplateError::Refused(error));
        }
        if let Err(error) = self.render_with(subject.as_str()) {
            return Err(TemplateError::Refused(error));
        }
        Ok(self.build(args, notifier_id))
    }
}

} // verus!
