//! The output formats a report can be rendered in.
use vstd::prelude::*;
use crate::text::{join2, string_of};

verus! {

/// Supported output formats for the repository reports.
#[derive(Clone, Copy, Debug, PartialEq, Eq, Structural)]
pub enum OutputFormat {
    /// A human-readable table (the default).
    Table,
    /// Structured JSON data.
    Json,
    /// An HTML table.
    Html,
}

/// A format name that names no supported format.
#[derive(Clone, Debug)]
pub struct UnsupportedFormat {
    /// The name as it was given.
    pub input: String,
}

impl UnsupportedFormat {
    /// The message that explains the rejection and lists the valid names.
    pub fn message(&self) -> (r: String)
        ensures
            r@ == "Unsupported output format '"@ + self.input@
                + "'. Valid formats: table, json, html"@,
    {
        let head = join2("Unsupported output format '", self.input.as_str());
        join2(head.as_str(), "'. Valid formats: table, json, html")
    }
}

/// The lowercase mapping of a string, as std's `str::to_lowercase` computes it.
pub uninterp spec fn lower_of(s: Seq<char>) -> Seq<char>;

/// Relies on `str::to_lowercase`: the result depends on the characters alone.
#[verifier::external_body]
fn lowercase(s: &str) -> (r: String)
    ensures
        r@ == lower_of(s@),
{
    s.to_lowercase()
}

/// The format that a lowercase name denotes.
pub open spec fn format_named(lowered: Seq<char>) -> Option<OutputFormat> {
    if lowered == "table"@ {
        Some(OutputFormat::Table)
    } else if lowered == "json"@ {
        Some(OutputFormat::Json)
    } else if lowered == "html"@ {
        Some(OutputFormat::Html)
    } else {
        None
    }
}

/// The lowercase name of a format.
pub open spec fn format_name(f: OutputFormat) -> Seq<char> {
    match f {
        OutputFormat::Table => "table"@,
        OutputFormat::Json => "json"@,
        OutputFormat::Html => "html"@,
    }
}

impl Default for OutputFormat {
    /// The table format.
    fn default() -> (r: Self)
        ensures
            r == OutputFormat::Table,
    {
        OutputFormat::Table
    }
}

impl OutputFormat {
    /// The format that an already lowercased name denotes, `None` for any other name.
    pub fn from_lowercase(lowered: &str) -> (r: Option<OutputFormat>)
        ensures
            r == format_named(lowered@),
    {
        let s = string_of(lowered);
        let table = string_of("table");
        let json = string_of("json");
        let html = string_of("html");
        if s == table {
            Some(OutputFormat::Table)
        } else if s == json {
            Some(OutputFormat::Json)
        } else if s == html {
            Some(OutputFormat::Html)
        } else {
            None
        }
    }

    /// Parses a format name, ignoring case.
    pub fn parse(s: &str) -> (r: Result<OutputFormat, UnsupportedFormat>)
        ensures
            match r {
                Ok(f) => format_named(lower_of(s@)) == Some(f),
                Err(e) => format_named(lower_of(s@)) is None && e.input@ == s@,
            },
    {
        let lowered = lowercase(s);
        match OutputFormat::from_lowercase(lowered.as_str()) {
            Some(f) => Ok(f),
            None => Err(UnsupportedFormat { input: string_of(s) }),
        }
    }

    /// The lowercase name of this format.
    pub fn name(&self) -> (r: &'static str)
        ensures
            r@ == format_name(*self),
    {
        match self {
            OutputFormat::Table => "table",
            OutputFormat::Json => "json",
            OutputFormat::Html => "html",
        }
    }

    /// Every format, in declaration order.
    pub fn all() -> (r: Vec<OutputFormat>)
        ensures
            r@ == seq![OutputFormat::Table, OutputFormat::Json, OutputFormat::Html],
    {
        vec![OutputFormat::Table, OutputFormat::Json, OutputFormat::Html]
    }

    /// Whether this format can be written to a file.
    pub fn supports_file_output(&self) -> (r: bool)
        ensures
            r == (*self == OutputFormat::Json || *self == OutputFormat::Html),
    {
        match self {
            OutputFormat::Table => false,
            OutputFormat::Json | OutputFormat::Html => true,
        }
    }

    /// The file extension for this format, where it can be written to a file.
    pub fn default_extension(&self) -> (r: Option<&'static str>)
        ensures
            match *self {
                OutputFormat::Table => r is None,
                _ => r matches Some(e) && e@ == format_name(*self),
            },
    {
        match self {
            OutputFormat::Table => None,
            OutputFormat::Json => Some("json"),
            OutputFormat::Html => Some("html"),
        }
    }
}

impl std::str::FromStr for OutputFormat {
    type Err = UnsupportedFormat;

    fn from_str(s: &str) -> Result<OutputFormat, UnsupportedFormat> {
        OutputFormat::parse(s)
    }
}

} // verus!
