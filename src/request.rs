//! Canonical requests, and their resolution from loosely typed input.

use vstd::prelude::*;
use crate::cli::Command;
use crate::config::AppConfig;
use crate::error::{AppError, ErrorView};
use crate::fields::{FieldMap, with_field};
use crate::json::{json_text, parse_json};
use crate::text::{chars_of, find_char, has_prefix, split_first, split_once_char, starts_with, string_of, trim, trimmed};

verus! {

broadcast use vstd::string::group_string_axioms;

/// Whether the url crate parses `s` as an absolute URL.
pub uninterp spec fn url_parses(s: Seq<char>) -> bool;

/// The text of `rel` resolved against the base URL `base`, or `None` where
/// either does not parse.
pub uninterp spec fn url_join(base: Seq<char>, rel: Seq<char>) -> Option<Seq<char>>;

/// Relies on `url::Url::parse`: it succeeds exactly on what it parses.
#[verifier::external_body]
fn check_url(s: &str) -> (r: Result<(), url::ParseError>)
    ensures
        r is Ok <==> url_parses(s@),
{
    url::Url::parse(s).map(|_| ())
}

/// Relies on `url::Url::join` (after `Url::parse` of the base): standard
/// reference resolution, rendered by the URL's `Display`.
#[verifier::external_body]
fn join_url(base: &str, rel: &str) -> (r: Result<String, url::ParseError>)
    ensures
        match url_join(base@, rel@) {
            Some(u) => r matches Ok(s) && s@ == u,
            None => r is Err,
        },
{
    url::Url::parse(base).and_then(|b| b.join(rel)).map(|u| u.to_string())
}

#[derive(Clone, Copy, Debug, PartialEq, Eq, Structural)]
pub enum HttpMethod {
    Get,
    Post,
    Put,
    Patch,
    Delete,
    Head,
}

impl HttpMethod {
    /// The method's name on the wire.
    pub open spec fn name(self) -> Seq<char> {
        match self {
            HttpMethod::Get => "GET"@,
            HttpMethod::Post => "POST"@,
            HttpMethod::Put => "PUT"@,
            HttpMethod::Patch => "PATCH"@,
            HttpMethod::Delete => "DELETE"@,
            HttpMethod::Head => "HEAD"@,
        }
    }

    pub fn to_string(&self) -> (r: String)
        ensures
            r@ == self.name(),
    {
        match self {
            HttpMethod::Get => String::from_str("GET"),
            HttpMethod::Post => String::from_str("POST"),
            HttpMethod::Put => String::from_str("PUT"),
            HttpMethod::Patch => String::from_str("PATCH"),
            HttpMethod::Delete => String::from_str("DELETE"),
            HttpMethod::Head => String::from_str("HEAD"),
        }
    }
}

pub enum RequestBody {
    Json(serde_json::Value),
    Form(FieldMap),
    Text(String),
    /// A path whose file is read when the request is sent.
    File(String),
}

/// A body, without the JSON value that only serde_json can look into.
pub enum BodyView {
    Json,
    Form(Seq<(Seq<char>, Seq<char>)>),
    Text(Seq<char>),
    File(Seq<char>),
}

impl View for RequestBody {
    type V = BodyView;

    open spec fn view(&self) -> BodyView {
        match self {
            RequestBody::Json(_) => BodyView::Json,
            RequestBody::Form(m) => BodyView::Form(m@),
            RequestBody::Text(s) => BodyView::Text(s@),
            RequestBody::File(p) => BodyView::File(p@),
        }
    }
}

pub open spec fn body_view(b: Option<RequestBody>) -> Option<BodyView> {
    match b {
        Some(x) => Some(x@),
        None => None,
    }
}

pub struct HttpRequest {
    pub method: HttpMethod,
    pub url: String,
    pub headers: FieldMap,
    pub query: FieldMap,
    pub body: Option<RequestBody>,
}

pub struct RequestView {
    pub method: HttpMethod,
    pub url: Seq<char>,
    pub headers: Seq<(Seq<char>, Seq<char>)>,
    pub query: Seq<(Seq<char>, Seq<char>)>,
    pub body: Option<BodyView>,
}

impl View for HttpRequest {
    type V = RequestView;

    open spec fn view(&self) -> RequestView {
        RequestView {
            method: self.method,
            url: self.url@,
            headers: self.headers@,
            query: self.query@,
            body: body_view(self.body),
        }
    }
}

impl HttpRequest {
    pub open spec fn wf(&self) -> bool {
        &&& self.headers.wf()
        &&& self.query.wf()
        &&& (self.body matches Some(RequestBody::Form(m)) ==> m.wf())
    }
}

/// The characters of each string.
pub open spec fn texts(v: Seq<String>) -> Seq<Seq<char>> {
    v.map_values(|s: String| s@)
}

pub open spec fn opt_text(o: Option<String>) -> Option<Seq<char>> {
    match o {
        Some(s) => Some(s@),
        None => None,
    }
}

pub open spec fn opt_str(o: Option<&str>) -> Option<Seq<char>> {
    match o {
        Some(s) => Some(s@),
        None => None,
    }
}

/// Whether `s` carries an `http://` or `https://` scheme.
pub open spec fn has_http_scheme(s: Seq<char>) -> bool {
    starts_with(s, "http://"@) || starts_with(s, "https://"@)
}

/// The absolute URL that `raw` stands for: kept as it is where it has a
/// scheme, joined to `base` where there is one, else given `http://`.
pub open spec fn resolved_url(raw: Seq<char>, base: Option<Seq<char>>) -> Option<Seq<char>> {
    if has_http_scheme(raw) {
        if url_parses(raw) { Some(raw) } else { None }
    } else {
        match base {
            Some(b) => url_join(b, raw),
            None => {
                let w = "http://"@ + raw;
                if url_parses(w) { Some(w) } else { None }
            },
        }
    }
}

/// A URL that has its scheme and parses comes back unchanged, whatever the base.
pub proof fn lemma_absolute_url_kept(raw: Seq<char>, base: Option<Seq<char>>)
    requires
        has_http_scheme(raw),
        url_parses(raw),
    ensures
        resolved_url(raw, base) == Some(raw),
{
}

/// A URL without a scheme, and no base: `http://` goes in front.
pub proof fn lemma_bare_host_gets_http(raw: Seq<char>)
    requires
        !has_http_scheme(raw),
        url_parses("http://"@ + raw),
    ensures
        resolved_url(raw, None) == Some("http://"@ + raw),
{
}

pub fn resolve_url(url: &str, base: Option<&str>) -> (r: Result<String, AppError>)
    ensures
        match resolved_url(url@, opt_str(base)) {
            Some(u) => r matches Ok(s) && s@ == u,
            None => r matches Err(e) && e@ == ErrorView::UrlParse,
        },
{
    let cs = chars_of(url);
    let http = chars_of("http://");
    let https = chars_of("https://");
    if has_prefix(&cs, &http) || has_prefix(&cs, &https) {
        return match check_url(url) {
            Ok(()) => Ok(String::from_str(url)),
            Err(e) => Err(AppError::UrlParse(e)),
        };
    }
    match base {
        Some(b) => match join_url(b, url) {
            Ok(s) => Ok(s),
            Err(e) => Err(AppError::UrlParse(e)),
        },
        None => {
            let mut with_scheme = String::from_str("http://");
            with_scheme.append(url);
            match check_url(with_scheme.as_str()) {
                Ok(()) => Ok(with_scheme),
                Err(e) => Err(AppError::UrlParse(e)),
            }
        },
    }
}

/// Name and value of a header line: split at the first `:`, both trimmed.
pub open spec fn header_parts(raw: Seq<char>) -> Option<(Seq<char>, Seq<char>)> {
    match split_first(raw, ':') {
        Some((k, v)) => Some((trim(k), trim(v))),
        None => None,
    }
}

pub fn parse_header(raw: &str) -> (r: Result<(String, String), AppError>)
    ensures
        match header_parts(raw@) {
            Some((k, v)) => r matches Ok((x, y)) && x@ == k && y@ == v,
            None => r matches Err(e) && e@ == ErrorView::InvalidHeader(raw@),
        },
{
    let cs = chars_of(raw);
    match find_char(&cs, ':') {
        Some(i) => {
            let n = cs.len();
            assert(i < n);
            assert(cs@.take(i as int) == cs@.subrange(0, i as int));
            assert(cs@.skip(i + 1) == cs@.subrange(i + 1, n as int));
            Ok((trimmed(&cs, 0, i), trimmed(&cs, i + 1, n)))
        },
        None => Err(AppError::InvalidHeader { header: String::from_str(raw) }),
    }
}

/// The message for a `key=value` token without `=`; `form` tells a form
/// field from a query parameter.
pub open spec fn key_value_message(form: bool, raw: Seq<char>) -> Seq<char> {
    if form {
        "Invalid form field '"@ + raw + "' — expected key=value"@
    } else {
        "Invalid query param '"@ + raw + "' — expected key=value"@
    }
}

/// A `key=value` token split at the first `=`.
pub fn parse_key_value(raw: &str, form: bool) -> (r: Result<(String, String), AppError>)
    ensures
        match split_first(raw@, '=') {
            Some((k, v)) => r matches Ok((x, y)) && x@ == k && y@ == v,
            None => r matches Err(e) && e@ == ErrorView::Other(key_value_message(form, raw@)),
        },
{
    match split_once_char(raw, '=') {
        Some(kv) => Ok(kv),
        None => {
            let mut msg = if form {
                String::from_str("Invalid form field '")
            } else {
                String::from_str("Invalid query param '")
            };
            msg.append(raw);
            msg.append("' — expected key=value");
            Err(AppError::Other(msg))
        },
    }
}

/// `es` with each header line of `raw` set in turn; the first malformed line
/// is the error.
pub open spec fn headers_applied(
    es: Seq<(Seq<char>, Seq<char>)>,
    raw: Seq<Seq<char>>,
) -> Result<Seq<(Seq<char>, Seq<char>)>, ErrorView>
    decreases raw.len(),
{
    if raw.len() == 0 {
        Ok(es)
    } else {
        match headers_applied(es, raw.drop_last()) {
            Err(e) => Err(e),
            Ok(acc) => match header_parts(raw.last()) {
                Some((k, v)) => Ok(with_field(acc, k, v)),
                None => Err(ErrorView::InvalidHeader(raw.last())),
            },
        }
    }
}

/// `es` with each `key=value` token of `raw` set in turn; the first token
/// without `=` is the error.
pub open spec fn pairs_applied(
    es: Seq<(Seq<char>, Seq<char>)>,
    raw: Seq<Seq<char>>,
    form: bool,
) -> Result<Seq<(Seq<char>, Seq<char>)>, ErrorView>
    decreases raw.len(),
{
    if raw.len() == 0 {
        Ok(es)
    } else {
        match pairs_applied(es, raw.drop_last(), form) {
            Err(e) => Err(e),
            Ok(acc) => match split_first(raw.last(), '=') {
                Some((k, v)) => Ok(with_field(acc, k, v)),
                None => Err(ErrorView::Other(key_value_message(form, raw.last()))),
            },
        }
    }
}

/// Sets each `key=value` token of `raw` into `map`, in order.
fn apply_pairs(map: &mut FieldMap, raw: &[String], form: bool) -> (r: Result<(), AppError>)
    requires
        old(map).wf(),
    ensures
        final(map).wf(),
        match pairs_applied(old(map)@, texts(raw@), form) {
            Ok(es) => r is Ok && final(map)@ == es,
            Err(e) => r matches Err(x) && x@ == e,
        },
{
    let ghost start = map@;
    let mut i: usize = 0;
    while i < raw.len()
        invariant
            i <= raw@.len(),
            start == old(map)@,
            map.wf(),
            pairs_applied(start, texts(raw@).take(i as int), form) == Ok::<
                Seq<(Seq<char>, Seq<char>)>,
                ErrorView,
            >(map@),
        decreases raw@.len() - i,
    {
        assert(texts(raw@).take(i + 1).drop_last() =~= texts(raw@).take(i as int));
        match parse_key_value(raw[i].as_str(), form) {
            Ok((k, v)) => {
                map.insert(k, v);
            },
            Err(e) => {
                proof {
                    let pre = texts(raw@).take(i + 1);
                    assert(pre.last() == raw@[i as int]@);
                    assert(split_first(raw@[i as int]@, '=') is None);
                    assert(pairs_applied(start, pre, form) == Err::<Seq<(Seq<char>, Seq<char>)>, ErrorView>(e@));
                    lemma_pairs_error_stays(start, texts(raw@), form, i + 1);
                }
                return Err(e);
            },
        }
        i += 1;
    }
    assert(texts(raw@).take(raw@.len() as int) =~= texts(raw@));
    Ok(())
}

/// Once a prefix of the tokens fails, the whole list fails with that error.
proof fn lemma_pairs_error_stays(
    es: Seq<(Seq<char>, Seq<char>)>,
    raw: Seq<Seq<char>>,
    form: bool,
    n: int,
)
    requires
        0 <= n <= raw.len(),
        pairs_applied(es, raw.take(n), form) is Err,
    ensures
        pairs_applied(es, raw, form) == pairs_applied(es, raw.take(n), form),
    decreases raw.len() - n,
{
    if n < raw.len() {
        assert(raw.take(n + 1).drop_last() =~= raw.take(n));
        lemma_pairs_error_stays(es, raw, form, n + 1);
    } else {
        assert(raw.take(n) =~= raw);
    }
}

/// Once a prefix of the header lines fails, the whole list fails with that error.
proof fn lemma_headers_error_stays(es: Seq<(Seq<char>, Seq<char>)>, raw: Seq<Seq<char>>, n: int)
    requires
        0 <= n <= raw.len(),
        headers_applied(es, raw.take(n)) is Err,
    ensures
        headers_applied(es, raw) == headers_applied(es, raw.take(n)),
    decreases raw.len() - n,
{
    if n < raw.len() {
        assert(raw.take(n + 1).drop_last() =~= raw.take(n));
        lemma_headers_error_stays(es, raw, n + 1);
    } else {
        assert(raw.take(n) =~= raw);
    }
}

/// The body that the arguments describe: form fields win over everything
/// else; `@path` names a file; JSON text is JSON; anything else is text.
pub open spec fn body_result(body: Option<Seq<char>>, form: Seq<Seq<char>>) -> Result<
    Option<BodyView>,
    ErrorView,
> {
    if form.len() > 0 {
        match pairs_applied(Seq::empty(), form, true) {
            Ok(f) => Ok(Some(BodyView::Form(f))),
            Err(e) => Err(e),
        }
    } else {
        match body {
            None => Ok(None),
            Some(s) => if s.len() > 0 && s[0] == '@' {
                Ok(Some(BodyView::File(s.drop_first())))
            } else if json_text(s) {
                Ok(Some(BodyView::Json))
            } else {
                Ok(Some(BodyView::Text(s)))
            },
        }
    }
}

/// Given form fields, the body argument is ignored: the same fields give the
/// same result whatever body was passed beside them.
pub proof fn lemma_form_wins(a: Option<Seq<char>>, b: Option<Seq<char>>, form: Seq<Seq<char>>)
    requires
        form.len() > 0,
    ensures
        body_result(a, form) == body_result(b, form),
        body_result(a, form) matches Ok(x) ==> x matches Some(BodyView::Form(_)),
{
}

pub fn resolve_body(body: &Option<String>, form: &[String]) -> (r: Result<
    Option<RequestBody>,
    AppError,
>)
    ensures
        match body_result(opt_text(*body), texts(form@)) {
            Ok(b) => r matches Ok(x) && body_view(x) == b && (x matches Some(
                RequestBody::Form(m),
            ) ==> m.wf()),
            Err(e) => r matches Err(x) && x@ == e,
        },
{
    if form.len() != 0 {
        let mut map = FieldMap::new();
        return match apply_pairs(&mut map, form, true) {
            Ok(()) => Ok(Some(RequestBody::Form(map))),
            Err(e) => Err(e),
        };
    }
    match body {
        None => Ok(None),
        Some(s) => {
            let cs = chars_of(s.as_str());
            if cs.len() > 0 && cs[0] == '@' {
                let path = string_of(&cs, 1, cs.len());
                assert(cs@.subrange(1, cs@.len() as int) =~= cs@.drop_first());
                Ok(Some(RequestBody::File(path)))
            } else {
                match parse_json(s.as_str()) {
                    Ok(v) => Ok(Some(RequestBody::Json(v))),
                    Err(_) => Ok(Some(RequestBody::Text(s.clone()))),
                }
            }
        },
    }
}

/// A request on `url`, with the configured default headers and nothing else.
pub open spec fn base_request(method: HttpMethod, url: Seq<char>, config: AppConfig) -> Result<
    RequestView,
    ErrorView,
> {
    match resolved_url(url, opt_text(config.base_url)) {
        Some(u) => Ok(
            RequestView {
                method,
                url: u,
                headers: config.default_headers@,
                query: Seq::empty(),
                body: None,
            },
        ),
        None => Err(ErrorView::UrlParse),
    }
}

/// `r` with the header lines `raw` laid over its headers.
pub open spec fn with_headers(r: Result<RequestView, ErrorView>, raw: Seq<Seq<char>>) -> Result<
    RequestView,
    ErrorView,
> {
    match r {
        Err(e) => Err(e),
        Ok(v) => match headers_applied(v.headers, raw) {
            Ok(h) => Ok(RequestView { headers: h, ..v }),
            Err(e) => Err(e),
        },
    }
}

/// `r` with the query tokens `raw` set into its query.
pub open spec fn with_query(r: Result<RequestView, ErrorView>, raw: Seq<Seq<char>>) -> Result<
    RequestView,
    ErrorView,
> {
    match r {
        Err(e) => Err(e),
        Ok(v) => match pairs_applied(v.query, raw, false) {
            Ok(q) => Ok(RequestView { query: q, ..v }),
            Err(e) => Err(e),
        },
    }
}

/// `r` with the body that `body` and `form` describe.
pub open spec fn with_body(
    r: Result<RequestView, ErrorView>,
    body: Option<Seq<char>>,
    form: Seq<Seq<char>>,
) -> Result<RequestView, ErrorView> {
    match r {
        Err(e) => Err(e),
        Ok(v) => match body_result(body, form) {
            Ok(b) => Ok(RequestView { body: b, ..v }),
            Err(e) => Err(e),
        },
    }
}

/// The request that a command describes: URL first, then headers over the
/// configured ones, then query or body.
pub open spec fn command_request(cmd: Command, config: AppConfig) -> Result<RequestView, ErrorView> {
    match cmd {
        Command::Get { url, headers, query } => with_query(
            with_headers(base_request(HttpMethod::Get, url@, config), texts(headers@)),
            texts(query@),
        ),
        Command::Post { url, headers, body, form } => with_body(
            with_headers(base_request(HttpMethod::Post, url@, config), texts(headers@)),
            opt_text(body),
            texts(form@),
        ),
        Command::Put { url, headers, body } => with_body(
            with_headers(base_request(HttpMethod::Put, url@, config), texts(headers@)),
            opt_text(body),
            Seq::empty(),
        ),
        Command::Patch { url, headers, body } => with_body(
            with_headers(base_request(HttpMethod::Patch, url@, config), texts(headers@)),
            opt_text(body),
            Seq::empty(),
        ),
        Command::Delete { url, headers } => with_headers(
            base_request(HttpMethod::Delete, url@, config),
            texts(headers@),
        ),
        Command::Head { url, headers } => with_headers(
            base_request(HttpMethod::Head, url@, config),
            texts(headers@),
        ),
        _ => Err(ErrorView::Other("Not an HTTP command"@)),
    }
}

impl HttpRequest {
    /// Builds the request that `cmd` describes.
    pub fn from_command(cmd: &Command, config: &AppConfig) -> (r: Result<HttpRequest, AppError>)
        requires
            config.wf(),
        ensures
            match command_request(*cmd, *config) {
                Ok(v) => r matches Ok(req) && req@ == v && req.wf(),
                Err(e) => r matches Err(x) && x@ == e,
            },
    {
        match cmd {
            Command::Get { url, headers, query } => {
                let mut req = Self::new(HttpMethod::Get, url.as_str(), config)?;
                req.apply_headers(headers.as_slice())?;
                req.apply_query(query.as_slice())?;
                Ok(req)
            },
            Command::Post { url, headers, body, form } => {
                let mut req = Self::new(HttpMethod::Post, url.as_str(), config)?;
                req.apply_headers(headers.as_slice())?;
                req.body = resolve_body(body, form.as_slice())?;
                Ok(req)
            },
            Command::Put { url, headers, body } => {
                let mut req = Self::new(HttpMethod::Put, url.as_str(), config)?;
                req.apply_headers(headers.as_slice())?;
                let none: Vec<String> = Vec::new();
                req.body = resolve_body(body, none.as_slice())?;
                Ok(req)
            },
            Command::Patch { url, headers, body } => {
                let mut req = Self::new(HttpMethod::Patch, url.as_str(), config)?;
                req.apply_headers(headers.as_slice())?;
                let none: Vec<String> = Vec::new();
                req.body = resolve_body(body, none.as_slice())?;
                Ok(req)
            },
            Command::Delete { url, headers } => {
                let mut req = Self::new(HttpMethod::Delete, url.as_str(), config)?;
                req.apply_headers(headers.as_slice())?;
                Ok(req)
            },
            Command::Head { url, headers } => {
                let mut req = Self::new(HttpMethod::Head, url.as_str(), config)?;
                req.apply_headers(headers.as_slice())?;
                Ok(req)
            },
            _ => Err(AppError::Other(String::from_str("Not an HTTP command"))),
        }
    }

    fn new(method: HttpMethod, raw_url: &str, config: &AppConfig) -> (r: Result<HttpRequest, AppError>)
        requires
            config.wf(),
        ensures
            match base_request(method, raw_url@, *config) {
                Ok(v) => r matches Ok(req) && req@ == v && req.wf(),
                Err(e) => r matches Err(x) && x@ == e,
            },
    {
        let base = match &config.base_url {
            Some(b) => Some(b.as_str()),
            None => None,
        };
        let url = resolve_url(raw_url, base)?;
        Ok(HttpRequest {
            method,
            url,
            headers: config.default_headers.duplicate(),
            query: FieldMap::new(),
            body: None,
        })
    }

    /// Lays the header lines `raw` over the headers, a later one winning.
    fn apply_headers(&mut self, raw: &[String]) -> (r: Result<(), AppError>)
        requires
            old(self).wf(),
        ensures
            final(self).wf(),
            final(self).method == old(self).method,
            final(self).url == old(self).url,
            final(self).query@ == old(self).query@,
            body_view(final(self).body) == body_view(old(self).body),
            match headers_applied(old(self).headers@, texts(raw@)) {
                Ok(es) => r is Ok && final(self).headers@ == es,
                Err(e) => r matches Err(x) && x@ == e,
            },
    {
        let ghost start = self.headers@;
        let mut i: usize = 0;
        while i < raw.len()
            invariant
                i <= raw@.len(),
                start == old(self).headers@,
                self.wf(),
                self.method == old(self).method,
                self.url == old(self).url,
                self.query@ == old(self).query@,
                body_view(self.body) == body_view(old(self).body),
                headers_applied(start, texts(raw@).take(i as int)) == Ok::<
                    Seq<(Seq<char>, Seq<char>)>,
                    ErrorView,
                >(self.headers@),
            decreases raw@.len() - i,
        {
            assert(texts(raw@).take(i + 1).drop_last() =~= texts(raw@).take(i as int));
            match parse_header(raw[i].as_str()) {
                Ok((k, v)) => {
                    self.headers.insert(k, v);
                },
                Err(e) => {
                    proof {
                        let pre = texts(raw@).take(i + 1);
                        assert(pre.last() == raw@[i as int]@);
                        assert(header_parts(raw@[i as int]@) is None);
                        assert(headers_applied(start, pre) == Err::<Seq<(Seq<char>, Seq<char>)>, ErrorView>(e@));
                        lemma_headers_error_stays(start, texts(raw@), i + 1);
                    }
                    return Err(e);
                },
            }
            i += 1;
        }
        assert(texts(raw@).take(raw@.len() as int) =~= texts(raw@));
        Ok(())
    }

    /// Sets the `key=value` tokens `raw` into the query.
    fn apply_query(&mut self, raw: &[String]) -> (r: Result<(), AppError>)
        requires
            old(self).wf(),
        ensures
            final(self).wf(),
            final(self).method == old(self).method,
            final(self).url == old(self).url,
            final(self).headers@ == old(self).headers@,
            body_view(final(self).body) == body_view(old(self).body),
            match pairs_applied(old(self).query@, texts(raw@), false) {
                Ok(es) => r is Ok && final(self).query@ == es,
                Err(e) => r matches Err(x) && x@ == e,
            },
    {
        apply_pairs(&mut self.query, raw, false)
    }
}

} // verus!
