//! The content formatter: pure functions that turn the selected entry and
//! the header-visibility flag into the ordered display lines of the list
//! pane, the request pane and the response pane. JSON response bodies are
//! pretty-printed, with a diagnostic fallback when they do not parse.

use crate::app::App;
use crate::model::{Entry, Header};
use crate::text::{
    i64_to_dec, is_json_mime, lemma_views_of_push, spec_dec, spec_dec_signed, spec_is_json_mime,
    spec_split_lines, split_lines, u64_to_dec, views_of,
};
use vstd::prelude::*;
use vstd::string::StringExecFns;

verus! {

/// The class of a response status, deciding the accent of its list line:
/// redirects (the 300s) get one accent, errors (400 and above) another;
/// everything else, successes included, stays neutral.
#[derive(Clone, Copy, Debug, PartialEq, Eq, Structural)]
pub enum StatusClass {
    Neutral,
    Redirect,
    Error,
}

/// The status class of a numeric status code.
pub open spec fn spec_status_class(status: i64) -> StatusClass {
    if 300 <= status < 400 {
        StatusClass::Redirect
    } else if status >= 400 {
        StatusClass::Error
    } else {
        StatusClass::Neutral
    }
}

/// Classifies a response status for the list pane's accent.
pub fn status_class(status: i64) -> (r: StatusClass)
    ensures
        r == spec_status_class(status),
{
    if 300 <= status && status < 400 {
        StatusClass::Redirect
    } else if status >= 400 {
        StatusClass::Error
    } else {
        StatusClass::Neutral
    }
}

/// The summary line of an entry: `<METHOD> <URL>`.
pub open spec fn spec_request_summary(e: Entry) -> Seq<char> {
    e.request.method@ + " "@ + e.request.url@
}

/// The first line of the request pane and the list line of an entry:
/// `<METHOD> <URL>`.
pub fn get_request_summary(entry: &Entry) -> (r: String)
    ensures
        r@ == spec_request_summary(*entry),
{
    let mut r = entry.request.method.clone();
    r.append(" ");
    r.append(entry.request.url.as_str());
    r
}

/// The status part of the response pane's first line:
/// `<status> <status text>`.
pub open spec fn spec_response_summary(e: Entry) -> Seq<char> {
    spec_dec_signed(e.response.status as int) + " "@ + e.response.status_text@
}

/// Renders `<status> <status text>` for the response pane's first line.
pub fn get_response_summary(entry: &Entry) -> (r: String)
    ensures
        r@ == spec_response_summary(*entry),
{
    let mut r = i64_to_dec(entry.response.status);
    r.append(" ");
    r.append(entry.response.status_text.as_str());
    r
}

/// The content type shown in the response pane: the response's mime type,
/// or the literal `none` when it is absent.
pub open spec fn spec_response_content_type(e: Entry) -> Seq<char> {
    match e.response.content.mime_type {
        Option::None => "none"@,
        Option::Some(t) => t@,
    }
}

/// The content-type text of the response pane's first line.
pub fn get_response_content_type(entry: &Entry) -> (r: String)
    ensures
        r@ == spec_response_content_type(*entry),
{
    match &entry.response.content.mime_type {
        Option::None => "none".to_owned(),
        Option::Some(t) => t.clone(),
    }
}

/// Whether serde_json's parser accepts a text as JSON. Named, not spelled
/// out: the JSON grammar is the parser's own.
pub uninterp spec fn json_parses(s: Seq<char>) -> bool;

/// The pretty-printed form serde_json renders for a JSON text; meaningful
/// only where `json_parses` holds of the text. Named, not spelled out: the
/// result depends on the text alone.
pub uninterp spec fn json_pretty(s: Seq<char>) -> Seq<char>;

/// Relies on serde_json::from_str::<Value>, which returns Ok exactly when
/// its parser accepts the text, deciding by the text alone, and on
/// serde_json::to_string_pretty, whose rendering is a function of the parsed
/// value and hence of the text. Returns None exactly when parsing fails.
#[verifier::external_body]
fn reformat_json(s: &str) -> (r: Option<String>)
    ensures
        r is Some <==> json_parses(s@),
        r matches Some(p) ==> p@ == json_pretty(s@),
{
    match serde_json::from_str::<serde_json::Value>(s) {
        Err(_) => None,
        Ok(v) => match serde_json::to_string_pretty(&v) {
            Err(_) => Some(s.to_owned()),
            Ok(p) => Some(p),
        },
    }
}

/// The body text of the response pane, before line splitting: `no text` when
/// the body is absent; for JSON content, the pretty-printed body, or a
/// diagnostic line and the raw text when it does not parse; the raw text
/// verbatim for any other or absent mime type.
pub open spec fn spec_response_text(e: Entry) -> Seq<char> {
    let t = match e.response.content.text {
        Option::None => "no text"@,
        Option::Some(t0) => t0@,
    };
    match e.response.content.mime_type {
        Option::None => t,
        Option::Some(m) => if spec_is_json_mime(m@) {
            if json_parses(t) {
                json_pretty(t)
            } else {
                "Can't Parse JSON!\n"@ + t
            }
        } else {
            t
        },
    }
}

/// Renders the response body: pretty-printed JSON where the mime type says
/// JSON and the body parses, a diagnostic fallback where it does not, the
/// raw text otherwise.
pub fn get_response_text(entry: &Entry) -> (r: String)
    ensures
        r@ == spec_response_text(*entry),
{
    let t: String = match &entry.response.content.text {
        Option::None => "no text".to_owned(),
        Option::Some(t0) => t0.clone(),
    };
    match &entry.response.content.mime_type {
        Option::None => t,
        Option::Some(m) => {
            if is_json_mime(m.as_str()) {
                match reformat_json(t.as_str()) {
                    Option::Some(p) => p,
                    Option::None => {
                        let mut r = "Can't Parse JSON!\n".to_owned();
                        r.append(t.as_str());
                        r
                    },
                }
            } else {
                t
            }
        },
    }
}

/// One displayed header line: `<name>: <value>`.
pub open spec fn spec_header_line(h: Header) -> Seq<char> {
    h.name@ + ": "@ + h.value@
}

/// The header block when headers are shown: one line per header, in the
/// original order.
pub open spec fn spec_shown_header_lines(hs: Seq<Header>) -> Seq<Seq<char>> {
    hs.map_values(|h: Header| spec_header_line(h))
}

/// The header block: the headers themselves when they are shown, else the
/// single line `Headers: (<count>, hidden)`, where the count is the number
/// of headers.
pub open spec fn spec_header_lines(hs: Seq<Header>, show_headers: bool) -> Seq<Seq<char>> {
    if show_headers {
        spec_shown_header_lines(hs)
    } else {
        seq!["Headers: ("@ + spec_dec(hs.len()) + ", hidden)"@]
    }
}

/// Appends the header block to the display lines.
pub fn add_headers(lines: &mut Vec<String>, headers: &Vec<Header>, show_headers: bool)
    ensures
        views_of(final(lines)@) == views_of(old(lines)@) + spec_header_lines(
            headers@,
            show_headers,
        ),
{
    if show_headers {
        let ghost initial = lines@;
        proof {
            assert(headers@.subrange(0, 0) =~= Seq::<Header>::empty());
            assert(views_of(lines@) =~= views_of(initial) + spec_shown_header_lines(
                headers@.subrange(0, 0),
            ));
        }
        let mut k: usize = 0;
        while k < headers.len()
            invariant
                k <= headers@.len(),
                views_of(lines@) == views_of(initial) + spec_shown_header_lines(
                    headers@.subrange(0, k as int),
                ),
            decreases headers@.len() - k,
        {
            let h = &headers[k];
            let mut line = h.name.clone();
            line.append(": ");
            line.append(h.value.as_str());
            proof {
                lemma_views_of_push(lines@, line);
                assert(spec_shown_header_lines(headers@.subrange(0, k + 1))
                    =~= spec_shown_header_lines(headers@.subrange(0, k as int)).push(
                    spec_header_line(headers@[k as int]),
                ));
                assert((views_of(initial) + spec_shown_header_lines(
                    headers@.subrange(0, k as int),
                )).push(spec_header_line(headers@[k as int])) =~= views_of(initial)
                    + spec_shown_header_lines(headers@.subrange(0, k + 1)));
            }
            lines.push(line);
            k += 1;
        }
        proof {
            assert(headers@.subrange(0, headers@.len() as int) =~= headers@);
        }
    } else {
        let count = u64_to_dec(headers.len() as u64);
        let mut line = "Headers: (".to_owned();
        line.append(count.as_str());
        line.append(", hidden)");
        proof {
            lemma_views_of_push(lines@, line);
            assert(views_of(lines@).push(line@) =~= views_of(lines@) + spec_header_lines(
                headers@,
                show_headers,
            ));
        }
        lines.push(line);
    }
}

/// Appends a text to the display lines, split on newline boundaries into one
/// line per segment.
pub fn add_raw_text_lines(lines: &mut Vec<String>, text: &str)
    ensures
        views_of(final(lines)@) == views_of(old(lines)@) + spec_split_lines(text@),
{
    let mut split = split_lines(text);
    proof {
        crate::text::lemma_views_of_concat(lines@, split@);
    }
    lines.append(&mut split);
}

/// The request-pane lines for one entry: the summary line, the header block,
/// and, when post data is present, its body text split on newlines (an
/// absent body text renders as one empty line, not nothing).
pub open spec fn spec_request_lines(e: Entry, show_headers: bool) -> Seq<Seq<char>> {
    seq![spec_request_summary(e)] + spec_header_lines(e.request.headers@, show_headers) + (
    match e.request.post_data {
        Option::None => Seq::<Seq<char>>::empty(),
        Option::Some(pd) => spec_split_lines(
            match pd.text {
                Option::None => Seq::<char>::empty(),
                Option::Some(t) => t@,
            },
        ),
    })
}

/// The request-pane lines of the whole state: those of the selected entry,
/// or none when no entry is selected.
pub open spec fn spec_request_text(app: App) -> Seq<Seq<char>> {
    match app.log.selected {
        Option::None => Seq::<Seq<char>>::empty(),
        Option::Some(i) => spec_request_lines(app.log.list@[i as int], app.show_headers),
    }
}

/// Builds the request pane's display lines for the current selection.
pub fn build_request_text(app: &App) -> (r: Vec<String>)
    requires
        app.wf(),
    ensures
        views_of(r@) == spec_request_text(*app),
{
    let sel: usize = match app.log.selected {
        Option::None => {
            let r: Vec<String> = Vec::new();
            proof {
                assert(views_of(r@) =~= Seq::<Seq<char>>::empty());
            }
            return r;
        },
        Option::Some(i) => i,
    };
    let e = &app.log.list[sel];
    let mut lines: Vec<String> = Vec::new();
    let summary = get_request_summary(e);
    proof {
        lemma_views_of_push(lines@, summary);
        assert(views_of(lines@).push(summary@) =~= seq![spec_request_summary(*e)]);
    }
    lines.push(summary);
    add_headers(&mut lines, &e.request.headers, app.show_headers);
    match &e.request.post_data {
        Option::None => {},
        Option::Some(data) => {
            match &data.text {
                Option::None => {
                    let empty_text = String::new();
                    add_raw_text_lines(&mut lines, empty_text.as_str());
                },
                Option::Some(t) => {
                    add_raw_text_lines(&mut lines, t.as_str());
                },
            }
        },
    }
    proof {
        assert(views_of(lines@) =~= spec_request_text(*app));
    }
    lines
}

/// The response-pane lines for one entry: the summary line
/// `<status> <status text>, <content type>`, the header block, one blank
/// line, and the formatted body split on newlines.
pub open spec fn spec_response_lines(e: Entry, show_headers: bool) -> Seq<Seq<char>> {
    seq![spec_response_summary(e) + ", "@ + spec_response_content_type(e)] + spec_header_lines(
        e.response.headers@,
        show_headers,
    ) + seq![Seq::<char>::empty()] + spec_split_lines(spec_response_text(e))
}

/// The response-pane lines of the whole state: those of the selected entry,
/// or none when no entry is selected.
pub open spec fn spec_response_pane_text(app: App) -> Seq<Seq<char>> {
    match app.log.selected {
        Option::None => Seq::<Seq<char>>::empty(),
        Option::Some(i) => spec_response_lines(app.log.list@[i as int], app.show_headers),
    }
}

/// Builds the response pane's display lines for the current selection.
pub fn build_response_text(app: &App) -> (r: Vec<String>)
    requires
        app.wf(),
    ensures
        views_of(r@) == spec_response_pane_text(*app),
{
    let sel: usize = match app.log.selected {
        Option::None => {
            let r: Vec<String> = Vec::new();
            proof {
                assert(views_of(r@) =~= Seq::<Seq<char>>::empty());
            }
            return r;
        },
        Option::Some(i) => i,
    };
    let e = &app.log.list[sel];
    let mut lines: Vec<String> = Vec::new();
    let mut summary = get_response_summary(e);
    summary.append(", ");
    let content_type = get_response_content_type(e);
    summary.append(content_type.as_str());
    proof {
        lemma_views_of_push(lines@, summary);
        assert(views_of(lines@).push(summary@) =~= seq![
            spec_response_summary(*e) + ", "@ + spec_response_content_type(*e),
        ]);
    }
    lines.push(summary);
    add_headers(&mut lines, &e.response.headers, app.show_headers);
    let blank = String::new();
    proof {
        lemma_views_of_push(lines@, blank);
    }
    lines.push(blank);
    let body = get_response_text(e);
    add_raw_text_lines(&mut lines, body.as_str());
    proof {
        assert(views_of(lines@) =~= spec_response_pane_text(*app));
    }
    lines
}

/// Builds the list pane's items, one per entry in capture order: the entry's
/// summary line paired with the status class that picks its accent.
pub fn build_list_items(app: &App) -> (r: Vec<(String, StatusClass)>)
    ensures
        r@.len() == app.log.list@.len(),
        forall|i: int|
            0 <= i < r@.len() ==> r@[i].0@ == spec_request_summary(#[trigger] app.log.list@[i])
                && r@[i].1 == spec_status_class(app.log.list@[i].response.status),
{
    let mut r: Vec<(String, StatusClass)> = Vec::new();
    let n = app.log.list.len();
    let mut k: usize = 0;
    while k < n
        invariant
            k <= n,
            n == app.log.list@.len(),
            r@.len() == k,
            forall|i: int|
                0 <= i < k ==> r@[i].0@ == spec_request_summary(#[trigger] app.log.list@[i])
                    && r@[i].1 == spec_status_class(app.log.list@[i].response.status),
        decreases n - k,
    {
        let e = &app.log.list[k];
        let item = (get_request_summary(e), status_class(e.response.status));
        r.push(item);
        k += 1;
    }
    r
}

/// Law: the header toggle is an involution, and it acts on both panes
/// identically. Toggling twice restores the flag, and each detail pane,
/// being a function of the entry and that one flag, renders as before.
pub proof fn lemma_toggle_headers_involutive(e: Entry, show_headers: bool)
    ensures
        !!show_headers == show_headers,
        spec_request_lines(e, !!show_headers) == spec_request_lines(e, show_headers),
        spec_response_lines(e, !!show_headers) == spec_response_lines(e, show_headers),
{
}

/// Law: an empty log is safe under every navigation command. No movement can
/// set a selection — forward and backward steps keep it unset — and both
/// detail panes render no lines.
pub proof fn lemma_empty_log_safety(app: App)
    requires
        app.wf(),
        app.log.list@.len() == 0,
    ensures
        app.log.selected is None,
        crate::util::spec_advance(app.log.list@.len(), app.log.selected) is None,
        crate::util::spec_retreat(app.log.list@.len(), app.log.selected) is None,
        spec_request_text(app) == Seq::<Seq<char>>::empty(),
        spec_response_pane_text(app) == Seq::<Seq<char>>::empty(),
{
}

} // verus!
