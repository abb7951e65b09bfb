//! The HTTP side of the API server and of the raw chart fetcher: request
//! lines, paths with query strings, header lines, request text and the body
//! of a raw response.

use vstd::prelude::*;
use crate::text::{
    chars_of, contains_seq, find_char_in, find_seq, has_prefix, is_first_index, is_first_occurrence,
    occurs_at, opt_chars, parse_decimal, parse_unsigned, split_char, split_on, split_whitespace,
    starts_with_str, substring, trim, trimmed, views, words, decimal, decimal_string,
};

verus! {

/// The position of the first `c` in `s` (meaningful when `s` contains `c`).
pub open spec fn index_of(s: Seq<char>, c: char) -> int {
    choose|i: int| is_first_index(s, c, i)
}

/// There is only one first position.
pub proof fn lemma_first_index_unique(s: Seq<char>, c: char, i: int)
    requires
        is_first_index(s, c, i),
    ensures
        index_of(s, c) == i,
{
    let j: int = index_of(s, c);
    assert(is_first_index(s, c, j));
    if j < i {
        assert(s[j] != c);
    } else if i < j {
        assert(s[i] != c);
    }
}

/// A query parameter written `key=value`: split at the first `=`; a piece
/// without `=` is no parameter.
pub open spec fn param_of(piece: Seq<char>) -> Option<(Seq<char>, Seq<char>)> {
    if piece.contains('=') {
        let e: int = index_of(piece, '=');
        Some((piece.take(e), piece.skip(e + 1)))
    } else {
        None
    }
}

/// The parameters of a list of `&`-separated pieces, in order.
pub open spec fn params_of(pieces: Seq<Seq<char>>) -> Seq<(Seq<char>, Seq<char>)>
    decreases pieces.len(),
{
    if pieces.len() == 0 {
        Seq::empty()
    } else {
        let before = params_of(pieces.drop_last());
        match param_of(pieces.last()) {
            Some(p) => before.push(p),
            None => before,
        }
    }
}

/// The path of a request target: everything before the first `?`.
pub open spec fn path_of(target: Seq<char>) -> Seq<char> {
    if target.contains('?') { target.take(index_of(target, '?')) } else { target }
}

/// The parameters of a request target: those of the text after the first `?`.
pub open spec fn query_of(target: Seq<char>) -> Seq<(Seq<char>, Seq<char>)> {
    if target.contains('?') {
        params_of(split_on(target.skip(index_of(target, '?') + 1), '&'))
    } else {
        Seq::empty()
    }
}

/// The value of the last parameter named `key`: a later parameter with the
/// same name replaces an earlier one.
pub open spec fn lookup(pairs: Seq<(Seq<char>, Seq<char>)>, key: Seq<char>) -> Option<Seq<char>>
    decreases pairs.len(),
{
    if pairs.len() == 0 {
        None
    } else if pairs.last().0 == key {
        Some(pairs.last().1)
    } else {
        lookup(pairs.drop_last(), key)
    }
}

/// The query parameters of a request, in the order they were written.
pub struct QueryParams {
    pub pairs: Vec<(String, String)>,
}

/// The characters of a list of key/value pairs.
pub open spec fn pair_views(v: Seq<(String, String)>) -> Seq<(Seq<char>, Seq<char>)> {
    v.map_values(|p: (String, String)| (p.0@, p.1@))
}

impl View for QueryParams {
    type V = Seq<(Seq<char>, Seq<char>)>;

    open spec fn view(&self) -> Seq<(Seq<char>, Seq<char>)> {
        pair_views(self.pairs@)
    }
}

impl QueryParams {
    /// No parameters.
    pub fn new() -> (r: Self)
        ensures
            r@ == Seq::<(Seq<char>, Seq<char>)>::empty(),
    {
        QueryParams { pairs: Vec::new() }
    }

    /// The value of parameter `key` (the last one given, when it is repeated).
    pub fn get(&self, key: &str) -> (r: Option<String>)
        ensures
            opt_chars(r) == lookup(self@, key@),
    {
        let k = key.to_owned();
        let mut i: usize = self.pairs.len();
        proof {
            assert(self@.take(i as int) =~= self@);
        }
        while i > 0
            invariant
                i <= self.pairs@.len(),
                k@ == key@,
                lookup(self@, key@) == lookup(self@.take(i as int), key@),
            decreases i,
        {
            proof {
                assert(self@.take(i as int).drop_last() =~= self@.take(i - 1));
                assert(self@.take(i as int).last() == self@[i - 1]);
            }
            if self.pairs[i - 1].0 == k {
                return Some(self.pairs[i - 1].1.clone());
            }
            i = i - 1;
        }
        None
    }

    /// Whether parameter `key` was given.
    pub fn contains_key(&self, key: &str) -> (r: bool)
        ensures
            r == lookup(self@, key@) is Some,
    {
        self.get(key).is_some()
    }
}

/// Splits a request target into its path and its query parameters, as the
/// server does before routing.
pub fn parse_path_query(path_with_query: &str) -> (r: (String, QueryParams))
    ensures
        r.0@ == path_of(path_with_query@),
        r.1@ == query_of(path_with_query@),
{
    let cs = chars_of(path_with_query);
    let n: usize = cs.len();
    match find_char_in(&cs, '?', 0, n) {
        None => {
            proof {
                assert(cs@.subrange(0, n as int) =~= cs@);
            }
            (path_with_query.to_owned(), QueryParams::new())
        },
        Some(q) => {
            proof {
                assert(cs@.subrange(0, n as int) =~= cs@);
                assert(path_with_query@.contains('?'));
                lemma_first_index_unique(path_with_query@, '?', q as int);
            }
            let path = substring(path_with_query, 0, q);
            let query = substring(path_with_query, q + 1, n);
            proof {
                assert(path_with_query@.take(q as int) =~= path@);
                assert(path_with_query@.skip(q + 1) =~= query@);
            }
            let pieces = split_char(query.as_str(), '&');
            let params = params_from_pieces(&pieces);
            (path, params)
        },
    }
}

/// The parameter written in one piece, if it has an `=`.
fn param_from_piece(piece: &String) -> (r: Option<(String, String)>)
    ensures
        match r {
            Some(p) => param_of(piece@) == Some((p.0@, p.1@)),
            None => param_of(piece@) is None,
        },
{
    let cs = chars_of(piece.as_str());
    let n: usize = cs.len();
    match find_char_in(&cs, '=', 0, n) {
        None => {
            proof {
                assert(cs@.subrange(0, n as int) =~= cs@);
            }
            None
        },
        Some(e) => {
            proof {
                assert(cs@.subrange(0, n as int) =~= cs@);
                assert(piece@.contains('='));
                lemma_first_index_unique(piece@, '=', e as int);
            }
            let key = substring(piece.as_str(), 0, e);
            let value = substring(piece.as_str(), e + 1, n);
            proof {
                assert(piece@.take(e as int) =~= key@);
                assert(piece@.skip(e + 1) =~= value@);
            }
            Some((key, value))
        },
    }
}

/// The parameters of a list of pieces.
fn params_from_pieces(pieces: &Vec<String>) -> (r: QueryParams)
    ensures
        r@ == params_of(views(pieces@)),
{
    let mut out = QueryParams::new();
    let mut i: usize = 0;
    proof {
        assert(views(pieces@).take(0) =~= Seq::<Seq<char>>::empty());
    }
    while i < pieces.len()
        invariant
            i <= pieces@.len(),
            out@ == params_of(views(pieces@).take(i as int)),
        decreases pieces@.len() - i,
    {
        proof {
            assert(views(pieces@).take(i + 1).drop_last() =~= views(pieces@).take(i as int));
            assert(views(pieces@).take(i + 1).last() == pieces@[i as int]@);
        }
        match param_from_piece(&pieces[i]) {
            Some(p) => {
                let ghost before = out.pairs@;
                let ghost pv = (p.0@, p.1@);
                out.pairs.push(p);
                proof {
                    assert(pair_views(out.pairs@) =~= pair_views(before).push(pv));
                }
            },
            None => {},
        }
        i = i + 1;
    }
    proof {
        assert(views(pieces@).take(pieces@.len() as int) =~= views(pieces@));
    }
    out
}

} // verus!

verus! {

/// The method and target of a request line: its first two words, when it has
/// at least two.
pub open spec fn request_line_parts(line: Seq<char>) -> Option<(Seq<char>, Seq<char>)> {
    if words(line).len() >= 2 { Some((words(line)[0], words(line)[1])) } else { None }
}

/// Reads the method and target from a request line; `None` is answered with
/// 400 Bad Request.
pub fn parse_request_line(line: &str) -> (r: Option<(String, String)>)
    ensures
        match r {
            Some(p) => request_line_parts(line@) == Some((p.0@, p.1@)),
            None => request_line_parts(line@) is None,
        },
{
    let parts = split_whitespace(line);
    if parts.len() < 2 {
        None
    } else {
        proof {
            assert(views(parts@)[0] == parts@[0]@);
            assert(views(parts@)[1] == parts@[1]@);
        }
        Some((parts[0].clone(), parts[1].clone()))
    }
}

/// What one header line of a request means to the body reader.
pub enum HeaderLine {
    /// The blank line that ends the headers (or the end of input).
    End,
    /// A `Content-Length:` header with a valid length.
    ContentLength(usize),
    /// A `Content-Length:` header whose value is not a length.
    BadContentLength,
    /// Any other header.
    Other,
}

/// The name of the length header, with its colon.
pub open spec fn content_length_prefix() -> Seq<char> {
    "Content-Length:"@
}

/// How a header line (with or without its line break) is read: it is trimmed;
/// an empty line ends the headers; a line that starts with `Content-Length:`
/// carries the length written after it (trimmed).
pub open spec fn header_line_kind(line: Seq<char>) -> HeaderLine {
    let t = trimmed(line);
    if t.len() == 0 {
        HeaderLine::End
    } else if has_prefix(t, content_length_prefix()) {
        match parse_unsigned(trimmed(t.skip(content_length_prefix().len() as int)), usize::MAX as nat) {
            Some(n) => HeaderLine::ContentLength(n as usize),
            None => HeaderLine::BadContentLength,
        }
    } else {
        HeaderLine::Other
    }
}

/// Classifies one header line of a request.
pub fn classify_header_line(line: &str) -> (r: HeaderLine)
    ensures
        r == header_line_kind(line@),
{
    let t = trim(line);
    if t.as_str().is_empty() {
        return HeaderLine::End;
    }
    let prefix = "Content-Length:";
    proof {
        reveal_strlit("Content-Length:");
    }
    if starts_with_str(t.as_str(), prefix) {
        let tc = chars_of(t.as_str());
        let rest = substring(t.as_str(), 15, tc.len());
        proof {
            assert(rest@ =~= t@.skip(15));
        }
        let value = trim(rest.as_str());
        match parse_decimal(value.as_str(), usize::MAX as u64) {
            Some(n) => HeaderLine::ContentLength(n as usize),
            None => HeaderLine::BadContentLength,
        }
    } else {
        HeaderLine::Other
    }
}

/// The blank line that separates the head of a raw response from its body.
pub open spec fn head_end() -> Seq<char> {
    "\r\n\r\n"@
}

/// The body of a raw HTTP response: the text after the first blank line, or
/// an error when there is none.
pub open spec fn body_of(response: Seq<char>) -> Option<Seq<char>> {
    if contains_seq(response, head_end()) {
        Some(response.skip((choose|i: int| is_first_occurrence(response, head_end(), i)) + 4))
    } else {
        None
    }
}

/// There is only one first occurrence.
pub proof fn lemma_first_occurrence_unique(s: Seq<char>, p: Seq<char>, i: int)
    requires
        is_first_occurrence(s, p, i),
    ensures
        (choose|j: int| is_first_occurrence(s, p, j)) == i,
{
    let j: int = choose|j: int| is_first_occurrence(s, p, j);
    assert(is_first_occurrence(s, p, j));
}

/// Takes the body out of a raw HTTP response.
pub fn extract_http_body(response: &str) -> (r: Result<String, String>)
    ensures
        match r {
            Ok(body) => body_of(response@) == Some(body@),
            Err(msg) => body_of(response@) is None && msg@ == "Malformed HTTP response"@,
        },
{
    let cs = chars_of(response);
    let sep = chars_of("\r\n\r\n");
    proof {
        reveal_strlit("\r\n\r\n");
        assert(sep@.len() == 4);
    }
    match find_seq(&cs, &sep) {
        Some(pos) => {
            proof {
                lemma_first_occurrence_unique(response@, head_end(), pos as int);
                assert(occurs_at(cs@, sep@, pos as int));
                assert(pos + 4 <= cs@.len());
                assert(cs@.len() == cs.len());
            }
            let body = substring(response, pos + 4, cs.len());
            proof {
                assert(body@ =~= response@.skip(pos + 4));
            }
            Ok(body)
        },
        None => Err("Malformed HTTP response".to_owned()),
    }
}

/// A head that does not contain a blank line, followed by a blank line and a
/// body, gives back exactly that body.
pub proof fn lemma_body_roundtrip(head: Seq<char>, body: Seq<char>)
    requires
        !contains_seq(head + "\r\n"@, head_end()),
        !contains_seq(head + "\r\n\r"@, head_end()),
        !contains_seq(head + "\r"@, head_end()),
        !contains_seq(head, head_end()),
    ensures
        body_of(head + head_end() + body) == Some(body),
{
    reveal_strlit("\r\n\r\n");
    reveal_strlit("\r\n");
    reveal_strlit("\r\n\r");
    reveal_strlit("\r");
    let s = head + head_end() + body;
    let h: int = head.len() as int;
    assert(s.subrange(h, h + 4) =~= head_end());
    assert(occurs_at(s, head_end(), h));
    assert forall|j: int| 0 <= j < h implies !occurs_at(s, head_end(), j) by {
        if occurs_at(s, head_end(), j) {
            if j + 4 <= h {
                assert(head.subrange(j, j + 4) =~= s.subrange(j, j + 4));
                assert(occurs_at(head, head_end(), j));
            } else if j + 3 == h {
                let t = head + "\r"@;
                assert(t.subrange(j, j + 4) =~= s.subrange(j, j + 4));
                assert(occurs_at(t, head_end(), j));
            } else if j + 2 == h {
                let t = head + "\r\n"@;
                assert(t.subrange(j, j + 4) =~= s.subrange(j, j + 4));
                assert(occurs_at(t, head_end(), j));
            } else {
                let t = head + "\r\n\r"@;
                assert(t.subrange(j, j + 4) =~= s.subrange(j, j + 4));
                assert(occurs_at(t, head_end(), j));
            }
        }
    }
    assert(is_first_occurrence(s, head_end(), h));
    lemma_first_occurrence_unique(s, head_end(), h);
    assert(s.skip(h + 4) =~= body);
}

} // verus!

verus! {

/// Appends `b` to `a`.
fn push_str(a: &mut String, b: &str)
    ensures
        final(a)@ == old(a)@ + b@,
{
    a.append(b);
}

/// The text of a plain-text response.
pub open spec fn plain_response_text(status_code: u16, status_text: Seq<char>, body: &str) -> Seq<char> {
    "HTTP/1.1 "@ + decimal(status_code as nat) + " "@ + status_text + "\r\nContent-Length: "@
        + decimal(body.len() as nat) + "\r\nContent-Type: text/plain\r\n\r\n"@ + body@
}

/// A plain-text response with the given status; the length header counts the
/// body's bytes.
pub fn plain_response(status_code: u16, status_text: &str, body: &str) -> (r: String)
    ensures
        r@ == plain_response_text(status_code, status_text@, body),
{
    let mut s = "HTTP/1.1 ".to_owned();
    push_str(&mut s, decimal_string(status_code as u64).as_str());
    push_str(&mut s, " ");
    push_str(&mut s, status_text);
    push_str(&mut s, "\r\nContent-Length: ");
    push_str(&mut s, decimal_string(body.len() as u64).as_str());
    push_str(&mut s, "\r\nContent-Type: text/plain\r\n\r\n");
    push_str(&mut s, body);
    s
}

/// The text of a JSON response whose extra header lines are `headers`.
pub open spec fn json_response_text(status_code: u16, json: &str, headers: Seq<char>) -> Seq<char> {
    "HTTP/1.1 "@ + decimal(status_code as nat) + " OK\r\nContent-Length: "@ + decimal(
        json.len() as nat,
    ) + "\r\nContent-Type: application/json\r\n"@ + headers + "\r\n"@ + json@
}

/// A JSON response with the given status and extra header lines (each ending
/// in a line break).
pub fn json_response(status_code: u16, json: &str, headers: &str) -> (r: String)
    ensures
        r@ == json_response_text(status_code, json, headers@),
{
    let mut s = "HTTP/1.1 ".to_owned();
    push_str(&mut s, decimal_string(status_code as u64).as_str());
    push_str(&mut s, " OK\r\nContent-Length: ");
    push_str(&mut s, decimal_string(json.len() as u64).as_str());
    push_str(&mut s, "\r\nContent-Type: application/json\r\n");
    push_str(&mut s, headers);
    push_str(&mut s, "\r\n");
    push_str(&mut s, json);
    s
}

/// The answer to a CORS preflight request.
pub fn preflight_response(headers: &str) -> (r: String)
    ensures
        r@ == "HTTP/1.1 204 No Content\r\n"@ + headers@ + "\r\n"@,
{
    let mut s = "HTTP/1.1 204 No Content\r\n".to_owned();
    push_str(&mut s, headers);
    push_str(&mut s, "\r\n");
    s
}

/// The text of a `GET` request that asks the server to close the connection.
pub open spec fn get_request_text(path: Seq<char>, domain: Seq<char>) -> Seq<char> {
    "GET "@ + path + " HTTP/1.1\r\nHost: "@ + domain
        + "\r\nUser-Agent: stock-client/1.0\r\nConnection: close\r\n\r\n"@
}

/// A `GET` request for `path` on `domain`.
pub fn http_get_request(path: &str, domain: &str) -> (r: String)
    ensures
        r@ == get_request_text(path@, domain@),
{
    let mut s = "GET ".to_owned();
    push_str(&mut s, path);
    push_str(&mut s, " HTTP/1.1\r\nHost: ");
    push_str(&mut s, domain);
    push_str(&mut s, "\r\nUser-Agent: stock-client/1.0\r\nConnection: close\r\n\r\n");
    s
}

} // verus!

verus! {

impl QueryParams {
    /// The value of `key`, or `default` when it is missing.
    pub fn get_or(&self, key: &str, default: &str) -> (r: String)
        ensures
            r@ == (match lookup(self@, key@) {
                Some(v) => v,
                None => default@,
            }),
    {
        match self.get(key) {
            Some(v) => v,
            None => default.to_owned(),
        }
    }

    /// Whether `key` is the text `true`, when it is given.
    pub fn flag(&self, key: &str) -> (r: Option<bool>)
        ensures
            r == (match lookup(self@, key@) {
                Some(v) => Some(v == "true"@),
                None => None,
            }),
    {
        match self.get(key) {
            Some(v) => Some(crate::text::str_eq(v.as_str(), "true")),
            None => None,
        }
    }

    /// `key` read as an unsigned number no larger than `max`, when it is
    /// given and is one.
    pub fn get_number(&self, key: &str, max: u64) -> (r: Option<u64>)
        ensures
            r == (match lookup(self@, key@) {
                Some(v) => match parse_unsigned(v, max as nat) {
                    Some(n) => Some(n as u64),
                    None => None,
                },
                None => None,
            }),
    {
        match self.get(key) {
            Some(v) => parse_decimal(v.as_str(), max),
            None => None,
        }
    }

    /// The comma-separated list in `key`, or the single `default` when it is
    /// missing.
    pub fn list_or(&self, key: &str, default: &str) -> (r: Vec<String>)
        ensures
            views(r@) == (match lookup(self@, key@) {
                Some(v) => split_on(v, ','),
                None => seq![default@],
            }),
    {
        match self.get(key) {
            Some(v) => split_char(v.as_str(), ','),
            None => {
                let mut out: Vec<String> = Vec::new();
                out.push(default.to_owned());
                proof {
                    assert(views(out@) =~= seq![default@]);
                }
                out
            },
        }
    }
}

} // verus!
