//! A received response, and what batch output shows of it.

use vstd::prelude::*;
use crate::cli::OutputFormat;
use crate::display::{pretty_body, pretty_body_fits};

verus! {

broadcast use vstd::string::group_string_axioms;

pub struct ParsedResponse {
    pub status: u16,
    pub status_text: String,
    pub headers: Vec<(String, String)>,
    pub body: String,
    pub content_type: String,
    /// The length of the body in bytes.
    pub size_bytes: usize,
    pub elapsed_ms: u128,
}

impl ParsedResponse {
    /// A response from its parts: a status without a reason phrase reads
    /// `Unknown`, and a missing content type reads `application/octet-stream`.
    pub fn from_parts(
        status: u16,
        reason: Option<&str>,
        content_type: Option<&str>,
        headers: Vec<(String, String)>,
        body: String,
        elapsed_ms: u128,
    ) -> (r: ParsedResponse)
        ensures
            r.status == status,
            r.status_text@ == match reason {
                Some(x) => x@,
                None => "Unknown"@,
            },
            r.content_type@ == match content_type {
                Some(x) => x@,
                None => "application/octet-stream"@,
            },
            r.headers@ == headers@,
            r.body@ == body@,
            r.size_bytes == vstd::utf8::encode_utf8(body@).len() as usize,
            r.elapsed_ms == elapsed_ms,
    {
        let status_text = match reason {
            Some(x) => String::from_str(x),
            None => String::from_str("Unknown"),
        };
        let content_type = match content_type {
            Some(x) => String::from_str(x),
            None => String::from_str("application/octet-stream"),
        };
        let size_bytes = body.as_str().len();
        ParsedResponse { status, status_text, headers, body, content_type, size_bytes, elapsed_ms }
    }
}

/// What batch output prints of a response.
pub struct ResponseOutput {
    pub show_status: bool,
    pub show_headers: bool,
    pub body_text: String,
    /// Whether a line end follows the body.
    pub line_end: bool,
}

/// The output for the chosen format and verbosity: the status unless quiet,
/// the headers when verbose and not quiet; the body pretty-printed, or as
/// received with or without a line end.
pub fn render_response(parsed: &ParsedResponse, format: OutputFormat, verbose: bool, quiet: bool) -> (r: ResponseOutput)
    ensures
        r.show_status == !quiet,
        r.show_headers == (verbose && !quiet),
        r.line_end == (format != OutputFormat::Plain),
        format != OutputFormat::Pretty ==> r.body_text@ == parsed.body@,
        format == OutputFormat::Pretty ==> pretty_body_fits(
            parsed.body@,
            parsed.content_type@,
            r.body_text@,
        ),
{
    let body_text = match format {
        OutputFormat::Pretty => pretty_body(parsed.body.as_str(), parsed.content_type.as_str()),
        OutputFormat::Json => parsed.body.clone(),
        OutputFormat::Plain => parsed.body.clone(),
    };
    ResponseOutput {
        show_status: !quiet,
        show_headers: verbose && !quiet,
        body_text,
        line_end: format != OutputFormat::Plain,
    }
}

} // verus!
