//! Rendering of response bodies into display text.

use vstd::prelude::*;
use crate::json::{json_pretty_text, json_text, reindent_json};
use crate::lines::{line_ranges, lines_of, range_text};
use crate::text::{
    chars_of, contains_seq, find_seq, first_occurrence, occurs_at, lemma_trim_start_prefix, leading_white_end,
    string_of, trailing_white_start, trim_end, trim_start,
};
use colored::Colorize;

verus! {

broadcast use vstd::string::group_string_axioms;

/// Whether a content type names JSON: it holds `application/json` or
/// `text/json`, matched as typed.
pub open spec fn json_content_type(ct: Seq<char>) -> bool {
    contains_seq(ct, "application/json"@) || contains_seq(ct, "text/json"@)
}

pub fn is_json_content_type(content_type: &str) -> (r: bool)
    ensures
        r == json_content_type(content_type@),
{
    let ct = chars_of(content_type);
    let app = chars_of("application/json");
    let txt = chars_of("text/json");
    find_seq(&ct, &app).is_some() || find_seq(&ct, &txt).is_some()
}

/// The display text of a body: where the content type names JSON and the
/// body is JSON text, serde_json's re-indented text of it; else the body.
pub open spec fn formatted_body(body: Seq<char>, content_type: Seq<char>) -> Seq<char> {
    if json_content_type(content_type) && json_text(body) {
        json_pretty_text(body)
    } else {
        body
    }
}

/// Display text of a response body: JSON re-indented where the content type
/// names JSON and the body parses; anything else as received.
pub fn format_body(body: &str, content_type: &str) -> (r: String)
    ensures
        r@ == formatted_body(body@, content_type@),
{
    if is_json_content_type(content_type) {
        match reindent_json(body) {
            Some(p) => p,
            None => String::from_str(body),
        }
    } else {
        String::from_str(body)
    }
}

/// The escape sequence that ends a colored segment.
pub open spec fn ansi_reset() -> Seq<char> {
    seq!['\x1b', '[', '0', 'm']
}

pub open spec fn ansi_cyan() -> Seq<char> {
    seq!['\x1b', '[', '3', '6', 'm']
}

pub open spec fn ansi_yellow() -> Seq<char> {
    seq!['\x1b', '[', '3', '3', 'm']
}

/// What holds of `r`, `s` painted with the escape sequence `open` by the
/// colored crate: where the environment turns color off, `s` itself; else
/// `s` between `open` and the reset sequence (for an `s` that holds no reset
/// sequence of its own).
pub open spec fn painted(open: Seq<char>, s: Seq<char>, r: Seq<char>) -> bool {
    contains_seq(s, ansi_reset()) || r == s || r == open + s + ansi_reset()
}

/// Relies on colored's `cyan` and the `Display` of `ColoredString`.
#[verifier::external_body]
fn paint_cyan(s: &str) -> (r: String)
    ensures
        painted(ansi_cyan(), s@, r@),
{
    s.cyan().to_string()
}

/// Relies on colored's `yellow` and the `Display` of `ColoredString`.
#[verifier::external_body]
fn paint_yellow(s: &str) -> (r: String)
    ensures
        painted(ansi_yellow(), s@, r@),
{
    s.yellow().to_string()
}

/// What ends the key of a `"key": value` line.
pub open spec fn key_end() -> Seq<char> {
    seq!['"', ':', ' ']
}

/// How the colorizer reads a line.
pub enum LineShape {
    Plain,
    /// A line whose text, after its indent, starts with `"` and holds
    /// `": `; the key runs up to and with the first `": `.
    KeyValue { indent: Seq<char>, key: Seq<char>, value: Seq<char> },
}

pub open spec fn line_shape(line: Seq<char>) -> LineShape {
    let t = trim_start(line);
    if t.len() > 0 && t[0] == '"' && contains_seq(t, key_end()) {
        let pos = choose|p: int| first_occurrence(t, key_end(), p);
        LineShape::KeyValue {
            indent: line.take(line.len() - t.len()),
            key: t.take(pos + 3),
            value: t.skip(pos + 3),
        }
    } else {
        LineShape::Plain
    }
}

/// Whether `pk` and `pv` are what painting made of the key and the value of
/// `line`: the key is painted; the value only where it starts with `"`.
pub open spec fn paints_fit(line: Seq<char>, pk: Seq<char>, pv: Seq<char>) -> bool {
    match line_shape(line) {
        LineShape::Plain => true,
        LineShape::KeyValue { key, value, .. } => {
            &&& painted(ansi_cyan(), key, pk)
            &&& if value.len() > 0 && value[0] == '"' {
                painted(ansi_yellow(), value, pv)
            } else {
                pv == value
            }
        },
    }
}

/// `line` with its key and value replaced by their painted forms.
pub open spec fn rendered_line(line: Seq<char>, pk: Seq<char>, pv: Seq<char>) -> Seq<char> {
    match line_shape(line) {
        LineShape::Plain => line,
        LineShape::KeyValue { indent, .. } => indent + pk + pv,
    }
}

/// Each of `ls`, followed by a line end.
pub open spec fn joined(ls: Seq<Seq<char>>) -> Seq<char>
    decreases ls.len(),
{
    if ls.len() == 0 {
        Seq::empty()
    } else {
        joined(ls.drop_last()) + ls.last() + seq!['\n']
    }
}

pub open spec fn rendered_lines(
    ls: Seq<Seq<char>>,
    paints: Seq<(Seq<char>, Seq<char>)>,
) -> Seq<Seq<char>> {
    Seq::new(ls.len(), |i: int| rendered_line(ls[i], paints[i].0, paints[i].1))
}

/// The colorized text of `json`, given what painting made of each line.
pub open spec fn colorized(json: Seq<char>, paints: Seq<(Seq<char>, Seq<char>)>) -> Seq<char> {
    trim_end(joined(rendered_lines(lines_of(json), paints)))
}

/// Where `p` occurs in `s`, it occurs a first time.
proof fn lemma_first_occurrence_exists(s: Seq<char>, p: Seq<char>, i: int)
    requires
        occurs_at(s, p, i),
    ensures
        exists|j: int| first_occurrence(s, p, j),
    decreases i,
{
    if exists|j: int| 0 <= j < i && occurs_at(s, p, j) {
        let j = choose|j: int| 0 <= j < i && occurs_at(s, p, j);
        lemma_first_occurrence_exists(s, p, j);
    } else {
        assert(first_occurrence(s, p, i));
    }
}

/// Paints that leave each key and value as it is, which is what painting
/// gives where the environment turns color off.
pub open spec fn unpainted(ls: Seq<Seq<char>>) -> Seq<(Seq<char>, Seq<char>)> {
    Seq::new(
        ls.len(),
        |i: int|
            match line_shape(ls[i]) {
                LineShape::KeyValue { key, value, .. } => (key, value),
                LineShape::Plain => (ls[i], ls[i]),
            },
    )
}

proof fn lemma_unpainted_line(line: Seq<char>)
    ensures
        line_shape(line) matches LineShape::KeyValue { key, value, .. } ==> rendered_line(
            line,
            key,
            value,
        ) == line,
{
    let t = trim_start(line);
    lemma_trim_start_prefix(line, line.len() as int);
    if t.len() > 0 && t[0] == '"' && contains_seq(t, key_end()) {
        let i = choose|i: int| occurs_at(t, key_end(), i);
        lemma_first_occurrence_exists(t, key_end(), i);
        let pos = choose|p: int| first_occurrence(t, key_end(), p);
        assert(pos + 3 <= t.len());
        assert(t.take(pos + 3) + t.skip(pos + 3) =~= t);
        assert(line.take(line.len() - t.len()) + t =~= line);
    }
}

/// Unpainted, the colorizer keeps the text: its output is the input's lines,
/// each ended by a line end, with trailing whitespace trimmed.
pub proof fn lemma_colorless_keeps_text(json: Seq<char>)
    ensures
        forall|i: int|
            0 <= i < lines_of(json).len() ==> paints_fit(
                lines_of(json)[i],
                #[trigger] unpainted(lines_of(json))[i].0,
                unpainted(lines_of(json))[i].1,
            ),
        colorized(json, unpainted(lines_of(json))) == trim_end(joined(lines_of(json))),
{
    let ls = lines_of(json);
    let ps = unpainted(ls);
    assert forall|i: int| 0 <= i < ls.len() implies rendered_lines(ls, ps)[i] == ls[i] by {
        lemma_unpainted_line(ls[i]);
    }
    assert(rendered_lines(ls, ps) =~= ls);
}

/// Where the key and the value of a line start in `cs`, if the line
/// `cs[from..to]` is a `"key": value` line.
fn key_value_bounds(cs: &Vec<char>, from: usize, to: usize) -> (r: Option<(usize, usize)>)
    requires
        from <= to <= cs@.len(),
    ensures
        match line_shape(cs@.subrange(from as int, to as int)) {
            LineShape::Plain => r is None,
            LineShape::KeyValue { indent, key, value } => r matches Some((s, k)) && from <= s <= k
                <= to && indent == cs@.subrange(from as int, s as int) && key == cs@.subrange(
                s as int,
                k as int,
            ) && value == cs@.subrange(k as int, to as int),
        },
{
    let ghost line = cs@.subrange(from as int, to as int);
    let start = leading_white_end(cs, from);
    proof {
        lemma_trim_start_prefix(cs@.subrange(from as int, cs@.len() as int), (to - from) as int);
        assert(cs@.subrange(from as int, cs@.len() as int).take((to - from) as int) =~= line);
    }
    if start >= to || cs[start] != '"' {
        return None;
    }
    let ghost t = cs@.subrange(start as int, to as int);
    assert(trim_start(line) == t) by {
        assert(cs@.subrange(start as int, cs@.len() as int).take((to - start) as int) =~= t);
    }
    let tail = string_of(cs, start, to);
    let tcs = chars_of(tail.as_str());
    let sep: Vec<char> = vec!['"', ':', ' '];
    assert(sep@ =~= key_end());
    match find_seq(&tcs, &sep) {
        None => None,
        Some(pos) => {
            proof {
                let p = choose|p: int| first_occurrence(t, key_end(), p);
                if p < pos {
                    assert(!first_occurrence(t, key_end(), pos as int));
                } else if p > pos {
                    assert(!first_occurrence(t, key_end(), p));
                }
                assert(line.take(line.len() - t.len()) =~= cs@.subrange(from as int, start as int));
                assert(t.take(pos + 3) =~= cs@.subrange(start as int, start + pos + 3));
                assert(t.skip(pos + 3) =~= cs@.subrange(start + pos + 3, to as int));
            }
            Some((start, start + pos + 3))
        },
    }
}

/// Colors one line, and appends it and a line end to `out`.
#[verifier::rlimit(30)]
fn colorize_line(cs: &Vec<char>, from: usize, to: usize, out: &mut String) -> (r: Ghost<
    (Seq<char>, Seq<char>),
>)
    requires
        from <= to <= cs@.len(),
    ensures
        paints_fit(cs@.subrange(from as int, to as int), r@.0, r@.1),
        final(out)@ == old(out)@ + rendered_line(cs@.subrange(from as int, to as int), r@.0, r@.1)
            + seq!['\n'],
{
    let ghost line = cs@.subrange(from as int, to as int);
    proof {
        reveal_strlit("\n");
    }
    match key_value_bounds(cs, from, to) {
        Some((s, k)) => {
            let indent = string_of(cs, from, s);
            let key = string_of(cs, s, k);
            let value = string_of(cs, k, to);
            let pk = paint_cyan(key.as_str());
            let pv = if k < to && cs[k] == '"' {
                paint_yellow(value.as_str())
            } else {
                value
            };
            out.append(indent.as_str());
            out.append(pk.as_str());
            out.append(pv.as_str());
            out.append("\n");
            Ghost((pk@, pv@))
        },
        None => {
            let whole = string_of(cs, from, to);
            out.append(whole.as_str());
            out.append("\n");
            Ghost((line, line))
        },
    }
}

/// Colors the keys of `"key": value` lines of pretty-printed JSON, and the
/// values that start with `"`; other lines pass unchanged. A line-by-line
/// heuristic: a string value that spans lines, or holds `": `, can mislead it.
pub fn colorize_json(json: &str) -> (r: String)
    ensures
        exists|paints: Seq<(Seq<char>, Seq<char>)>|
            {
                &&& paints.len() == lines_of(json@).len()
                &&& forall|i: int|
                    0 <= i < paints.len() ==> paints_fit(
                        lines_of(json@)[i],
                        #[trigger] paints[i].0,
                        paints[i].1,
                    )
                &&& r@ == colorized(json@, paints)
            },
{
    let cs = chars_of(json);
    let ranges = line_ranges(&cs);
    let ghost ls = lines_of(json@);
    let ghost mut paints: Seq<(Seq<char>, Seq<char>)> = Seq::empty();
    let mut out = String::new();
    let mut i: usize = 0;
    while i < ranges.len()
        invariant
            cs@ == json@,
            ls == lines_of(json@),
            ranges@.len() == ls.len(),
            forall|k: int|
                0 <= k < ranges@.len() ==> crate::lines::in_range(cs@, #[trigger] ranges@[k])
                    && range_text(cs@, ranges@[k]) == ls[k],
            i <= ranges@.len(),
            paints.len() == i,
            forall|k: int| 0 <= k < i ==> paints_fit(ls[k], #[trigger] paints[k].0, paints[k].1),
            out@ == joined(rendered_lines(ls.take(i as int), paints)),
        decreases ranges@.len() - i,
    {
        let (a, b) = ranges[i];
        assert(crate::lines::in_range(cs@, ranges@[i as int]));
        let g = colorize_line(&cs, a, b, &mut out);
        proof {
            let old_paints = paints;
            paints = paints.push(g@);
            let prev = rendered_lines(ls.take(i as int), old_paints);
            let next = rendered_lines(ls.take(i + 1), paints);
            assert(next.drop_last() =~= prev);
            assert(next.last() == rendered_line(ls[i as int], g@.0, g@.1));
        }
        i += 1;
    }
    assert(ls.take(ls.len() as int) =~= ls);
    let all = chars_of(out.as_str());
    let end = trailing_white_start(&all, 0, all.len());
    assert(all@.subrange(0, all@.len() as int) =~= all@);
    let res = string_of(&all, 0, end);
    assert(res@ == colorized(json@, paints));
    res
}

/// Whether `r` is the pretty output of a body: where the content type names
/// JSON and the body is JSON text, serde_json's re-indented text colorized
/// line by line; else the body.
pub open spec fn pretty_body_fits(body: Seq<char>, content_type: Seq<char>, r: Seq<char>) -> bool {
    if json_content_type(content_type) && json_text(body) {
        let text = json_pretty_text(body);
        exists|paints: Seq<(Seq<char>, Seq<char>)>|
            {
                &&& paints.len() == lines_of(text).len()
                &&& forall|i: int|
                    0 <= i < paints.len() ==> paints_fit(
                        lines_of(text)[i],
                        #[trigger] paints[i].0,
                        paints[i].1,
                    )
                &&& r == colorized(text, paints)
            }
    } else {
        r == body
    }
}

/// A body for pretty output: JSON re-indented and colorized where the
/// content type names JSON and the body parses; anything else as received.
pub fn pretty_body(body: &str, content_type: &str) -> (r: String)
    ensures
        pretty_body_fits(body@, content_type@, r@),
{
    if is_json_content_type(content_type) {
        match reindent_json(body) {
            Some(pretty) => colorize_json(pretty.as_str()),
            None => String::from_str(body),
        }
    } else {
        String::from_str(body)
    }
}

/// The class of an HTTP status code.
#[derive(Clone, Copy, Debug, PartialEq, Eq, Structural)]
pub enum StatusClass {
    Success,
    Redirect,
    ClientError,
    ServerError,
    Unknown,
}

impl StatusClass {
    pub open spec fn spec_label(self) -> Seq<char> {
        match self {
            StatusClass::Success => "success"@,
            StatusClass::Redirect => "redirect"@,
            StatusClass::ClientError => "client_error"@,
            StatusClass::ServerError => "server_error"@,
            StatusClass::Unknown => "unknown"@,
        }
    }

    pub fn label(&self) -> (r: &'static str)
        ensures
            r@ == self.spec_label(),
    {
        match self {
            StatusClass::Success => "success",
            StatusClass::Redirect => "redirect",
            StatusClass::ClientError => "client_error",
            StatusClass::ServerError => "server_error",
            StatusClass::Unknown => "unknown",
        }
    }
}

pub open spec fn class_of(code: u16) -> StatusClass {
    if 200 <= code <= 299 {
        StatusClass::Success
    } else if 300 <= code <= 399 {
        StatusClass::Redirect
    } else if 400 <= code <= 499 {
        StatusClass::ClientError
    } else if 500 <= code <= 599 {
        StatusClass::ServerError
    } else {
        StatusClass::Unknown
    }
}

pub fn status_class(code: u16) -> (r: StatusClass)
    ensures
        r == class_of(code),
{
    if 200 <= code && code <= 299 {
        StatusClass::Success
    } else if 300 <= code && code <= 399 {
        StatusClass::Redirect
    } else if 400 <= code && code <= 499 {
        StatusClass::ClientError
    } else if 500 <= code && code <= 599 {
        StatusClass::ServerError
    } else {
        StatusClass::Unknown
    }
}

} // verus!
