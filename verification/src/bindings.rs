//! The functions and types from outside that the library builds on, each with
//! the contract that the rest of the library relies on.

use crate::template::Part;
use handlebars::template::Parameter::Literal;
use handlebars::template::TemplateElement::{
    DecoratorBlock, HelperBlock, PartialBlock, PartialExpression,
};
use handlebars::template::{DecoratorTemplate, Template};
use handlebars::{to_json, Handlebars, JsonValue, TemplateRenderError};
use hyper::http::status::StatusCode;
use rusoto_core::Region;
use std::collections::BTreeMap;
use std::time::SystemTime;
use url::Url;
use vstd::prelude::*;

verus! {

/// A reading of the system clock, carried along and never looked into.
#[verifier::external_type_specification]
#[verifier::external_body]
pub struct ExSystemTime(std::time::SystemTime);

/// Why a template was not rendered, carried along and never looked into.
#[verifier::external_type_specification]
#[verifier::external_body]
pub struct ExTemplateRenderError(handlebars::TemplateRenderError);

/// Whether a time was read from the clock. Nothing follows from it: it tells a
/// reading apart from any other time, and outside of this module only a reading
/// gives it.
pub closed spec fn was_read(time: SystemTime) -> bool {
    true
}

/// The clock can be read.
pub proof fn clock_can_be_read()
    ensures
        exists|time: SystemTime| was_read(time),
{
    assert(was_read(vstd::pervasive::arbitrary::<SystemTime>()));
}

/// `SystemTime::now`. Nothing is claimed of what the clock shows, but that it was
/// read.
#[verifier::external_body]
pub(crate) fn clock_now() -> (now: SystemTime)
    ensures
        was_read(now),
{
    SystemTime::now()
}

/// The whole seconds from one time to another, and `None` where the second one is
/// the earlier.
pub uninterp spec fn seconds_between(since: SystemTime, seen: SystemTime) -> Option<u64>;

/// `SystemTime::duration_since`, in whole seconds, and `None` where `seen` is
/// before `since`. How a time is held is left to the standard library; the
/// result depends on the two times alone.
#[verifier::external_body]
pub(crate) fn seconds_from(since: &SystemTime, seen: &SystemTime) -> (seconds: Option<u64>)
    ensures
        seconds == seconds_between(*since, *seen),
{
    match seen.duration_since(*since) {
        Ok(elapsed) => Some(elapsed.as_secs()),
        Err(_) => None,
    }
}

/// `str::parse::<i64>`: an optional sign followed by decimal digits and nothing
/// else, whose value fits.
#[verifier::external_body]
pub(crate) fn parse_i64(text: &str) -> (value: Option<i64>)
    ensures
        value == crate::text::parsed_i64(text@),
{
    text.parse::<i64>().ok()
}

/// `str::contains`: whether `pattern` is a part of `text`.
#[verifier::external_body]
pub(crate) fn contains(text: &str, pattern: &str) -> (found: bool)
    ensures
        found == crate::text::occurs_in(pattern@, text@),
{
    text.contains(pattern)
}

/// A string as the `{:?}` of the standard library writes it.
pub uninterp spec fn debug_text(text: Seq<char>) -> Seq<char>;

/// `Debug` of `str`: the text in quotes, with escapes. What is escaped is left
/// open; the result depends on the text alone.
#[verifier::external_body]
pub(crate) fn quoted(text: &str) -> (shown: String)
    ensures
        shown@ == debug_text(text@),
{
    format!("{:?}", text)
}

/// What `url::Url::parse` takes for an absolute URL.
pub uninterp spec fn is_absolute_url(text: Seq<char>) -> bool;

/// `url::Url::parse`: whether the text is an absolute URL. Which texts are is
/// left to that crate; the answer depends on the text alone.
#[verifier::external_body]
pub(crate) fn url_parses(text: &str) -> (valid: bool)
    ensures
        valid == is_absolute_url(text@),
{
    Url::parse(text).is_ok()
}

/// What `rusoto_core::Region` takes for the name of a region.
pub uninterp spec fn is_region(name: Seq<char>) -> bool;

/// `rusoto_core::Region::from_str`: whether the text names a region. Which texts
/// do is left to that crate; the answer depends on the text alone.
#[verifier::external_body]
pub(crate) fn region_parses(name: &str) -> (known: bool)
    ensures
        known == is_region(name@),
{
    name.parse::<Region>().is_ok()
}

/// `StatusCode::from_u16`: a status is at least 100 and below 1000.
#[verifier::external_body]
pub(crate) fn status_parses(code: u16) -> (valid: bool)
    ensures
        valid == (100 <= code < 1000),
{
    StatusCode::from_u16(code).is_ok()
}

/// `StatusCode::is_success`: within 200 to 299. A code that is no status is no
/// success either.
#[verifier::external_body]
pub(crate) fn status_succeeds(code: u16) -> (success: bool)
    ensures
        success == (200 <= code < 300),
{
    match StatusCode::from_u16(code) {
        Ok(status) => status.is_success(),
        Err(_) => false,
    }
}

/// The standard base64 form of the UTF-8 bytes of a text.
pub uninterp spec fn base64_text(text: Seq<char>) -> Seq<char>;

/// `base64::encode`: the bytes of the text in base64, with the standard alphabet
/// and padding. No string is long enough to overflow the size it computes.
#[verifier::external_body]
pub(crate) fn encode_base64(text: &str) -> (encoded: String)
    ensures
        encoded@ == base64_text(text@),
{
    base64::encode(text)
}

/// A template that has been parsed.
#[verifier::external_type_specification]
#[verifier::external_body]
pub struct ExTemplate(handlebars::template::Template);

/// The parts that a template is made of.
pub uninterp spec fn outline(template: Template) -> Seq<Part>;

/// The parts of the template that a text is parsed to, and `None` where it is
/// refused.
pub uninterp spec fn outlined(text: Seq<char>) -> Option<Seq<Part>>;

/// `handlebars::template::Template::compile`: which parts come of a text is left
/// to that crate, and depends on the text alone. There is no tag that includes a
/// partial where the text has not even the beginning of one. A path of a local
/// variable that names nothing but `this` makes the call panic.
#[verifier::external_body]
pub(crate) fn compile(text: &str) -> (template: Option<Template>)
    requires
        !crate::template::names_local_this(text@),
    ensures
        match template {
            Some(template) => {
                &&& outlined(text@) == Some(outline(template))
                &&& crate::template::includes(outline(template))
                    ==> crate::template::mentions_partial(text@)
            },
            None => outlined(text@) is None,
        },
{
    Template::compile(text).ok()
}

/// The public field `elements` of `handlebars::template::Template`, with the
/// templates inside of it: each element becomes one part, with the name that its
/// tag includes or defines where that is written down.
#[verifier::external_body]
pub(crate) fn parts(template: &Template) -> (parts: Vec<Part>)
    ensures
        parts@ == outline(*template),
{
    let inner = |block: &Option<Template>| block.iter().flat_map(parts).collect();
    let name = |tag: &DecoratorTemplate| tag.name.as_name().map(str::to_string);
    template.elements.iter().map(|element| match element {
        HelperBlock(tag) => Part::Block(inner(&tag.template), inner(&tag.inverse)),
        DecoratorBlock(tag) => Part::Definition(match tag.params.first() {
            Some(Literal(value)) => value.as_str().map(str::to_string),
            _ => None,
        }, inner(&tag.template)),
        PartialBlock(tag) => Part::PartialBlock(name(tag), inner(&tag.template)),
        PartialExpression(tag) => Part::Partial(name(tag)),
        _ => Part::Plain,
    }).collect()
}

/// What handlebars makes of a template and the fields that it can name, and
/// `None` where the template is refused.
pub uninterp spec fn rendered(
    template: Seq<char>,
    numbers: Seq<(Seq<char>, u64)>,
    texts: Seq<(Seq<char>, Seq<char>)>,
    flags: Seq<(Seq<char>, bool)>,
) -> Option<Seq<char>>;

/// The names and values of fields that hold numbers.
pub open spec fn number_fields(fields: Seq<(String, u64)>) -> Seq<(Seq<char>, u64)> {
    Seq::new(fields.len(), |i: int| (fields[i].0@, fields[i].1))
}

/// The names and values of fields that hold texts.
pub open spec fn text_fields(fields: Seq<(String, String)>) -> Seq<(Seq<char>, Seq<char>)> {
    Seq::new(fields.len(), |i: int| (fields[i].0@, fields[i].1@))
}

/// The names and values of fields that hold flags.
pub open spec fn flag_fields(fields: Seq<(String, bool)>) -> Seq<(Seq<char>, bool)> {
    Seq::new(fields.len(), |i: int| (fields[i].0@, fields[i].1))
}

/// `Handlebars::render_template` on a registry with nothing registered, over an
/// object with the given fields. What the template language means is left to
/// that crate; the result depends on the template and the fields alone. Where it
/// includes no partials that go on including one another, rendering comes to an
/// end, given a stack for the blocks that stand in one another. A path of a local
/// variable that names nothing but `this` makes the call panic.
#[verifier::external_body]
pub(crate) fn render(
    template: &str,
    numbers: &Vec<(String, u64)>,
    texts: &Vec<(String, String)>,
    flags: &Vec<(String, bool)>,
) -> (outcome: Result<String, TemplateRenderError>)
    requires
        !crate::template::names_local_this(template@),
        !crate::template::is_circular(template@),
    ensures
        match outcome {
            Ok(text) => rendered(
                template@,
                number_fields(numbers@),
                text_fields(texts@),
                flag_fields(flags@),
            ) == Some(text@),
            Err(_) => rendered(
                template@,
                number_fields(numbers@),
                text_fields(texts@),
                flag_fields(flags@),
            ) is None,
        },
{
    let mut fields: BTreeMap<&str, JsonValue> = BTreeMap::new();
    fields.extend(numbers.iter().map(|field| (field.0.as_str(), to_json(field.1))));
    fields.extend(texts.iter().map(|field| (field.0.as_str(), to_json(&field.1))));
    fields.extend(flags.iter().map(|field| (field.0.as_str(), to_json(field.1))));
    Handlebars::new().render_template(template, &fields)
}

} // verus!
