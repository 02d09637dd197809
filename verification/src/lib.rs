//! Danish dictionary lookup library: extraction of dictionary entries from
//! HTML documents, classification of grammatical group descriptions,
//! normalization into prefixed display records, and rendering to JSON or a
//! named template.

pub mod dsl_dk;
pub mod json;
pub mod ordnet;
pub mod text;
pub mod webpage;
pub mod word;

use vstd::prelude::*;

use crate::json::{json_of_word, json_pretty_of_word};
use crate::text::str_eq;
use crate::word::Word;

verus! {

/// Provider selection: the primary source (ordnet.dk) or the secondary,
/// faster one (ws.dsl.dk).
#[derive(Debug, Copy, Clone, PartialEq, Eq, PartialOrd, Ord, Structural)]
pub enum Source {
    Ordnet,
    Dsl,
}

/// Output format selection: compact JSON, human-readable JSON, or a named
/// external template.
#[derive(Debug)]
pub enum Format {
    Json,
    JsonPretty,
    Custom(String),
}

/// Command-line input, already parsed into plain values: the query text, an
/// optional format text, and the provider.
#[derive(Debug)]
pub struct Args {
    pub query: String,
    pub format: Option<String>,
    pub source: Source,
}

/// One run's configuration: what to look up, how to render it, and where.
#[derive(Debug)]
pub struct Config {
    pub query: String,
    pub format: Format,
    pub source: Source,
}

/// How a configuration arises from the arguments: the query and provider are
/// taken as given; the format text "json" selects compact JSON,
/// "json-pretty" the readable form, any other text names a custom template,
/// and an absent format falls back to the template named "default".
pub open spec fn config_from_args(c: Config, a: Args) -> bool {
    &&& c.query == a.query
    &&& c.source == a.source
    &&& match a.format {
        Option::None => c.format matches Format::Custom(s) && s@ == "default"@,
        Option::Some(f) => if f@ == "json"@ {
            c.format is Json
        } else if f@ == "json-pretty"@ {
            c.format is JsonPretty
        } else {
            c.format matches Format::Custom(s) && s@ == f@
        },
    }
}

impl Config {
    /// Builds a configuration from parsed arguments, as `config_from_args`
    /// states; it succeeds on every input.
    pub fn build(args: Args) -> (r: Result<Config, &'static str>)
        ensures
            r matches Ok(c) && config_from_args(c, args),
    {
        let Args { query, format, source } = args;
        let format = match format {
            Option::Some(s) => {
                if str_eq(s.as_str(), "json") {
                    Format::Json
                } else if str_eq(s.as_str(), "json-pretty") {
                    Format::JsonPretty
                } else {
                    Format::Custom(s)
                }
            },
            Option::None => Format::Custom(String::from_str("default")),
        };
        Ok(Config { query, format, source })
    }
}

/// What the Output Dispatcher decides for one record and one format: either
/// the finished text, or the name of the external template that must render
/// the record.
#[derive(Debug)]
pub enum RenderPlan {
    Rendered(String),
    Template(String),
}

/// How a render plan arises from a record and a format: the two JSON formats
/// are rendered here, character for character; a custom format hands its
/// template name on unchanged — never substituted by another, so an unknown
/// name can only fail at the template repository, not fall back silently.
pub open spec fn render_plan_from(r: RenderPlan, w: Word, f: Format) -> bool {
    match f {
        Format::Json => r matches RenderPlan::Rendered(t) && t@ == json_of_word(w),
        Format::JsonPretty => r matches RenderPlan::Rendered(t) && t@ == json_pretty_of_word(w),
        Format::Custom(name) => r matches RenderPlan::Template(n) && n@ == name@,
    }
}

/// The Output Dispatcher's decision for `word` under `format`, as
/// `render_plan_from` states it.
pub fn render_plan(word: &Word, format: &Format) -> (r: RenderPlan)
    ensures
        render_plan_from(r, *word, *format),
{
    match format {
        Format::Json => RenderPlan::Rendered(word.to_json()),
        Format::JsonPretty => RenderPlan::Rendered(word.to_json_pretty()),
        Format::Custom(name) => RenderPlan::Template(name.clone()),
    }
}

} // verus!
