//! Finding the session crumb: cleaning the text of the crumb endpoint and
//! searching a quote page with the crumb patterns.

use vstd::prelude::*;
use crate::text::{contains_seq, opt_chars, trim, trim_matches_char, trimmed, trimmed_of};

verus! {

/// Group 1 of the first match of the regular expression `pattern` in `text`,
/// as the `regex` crate finds it (`None` when the pattern does not compile,
/// nothing matches, or group 1 takes no part in the match).
pub uninterp spec fn regex_group1(pattern: Seq<char>, text: Seq<char>) -> Option<Seq<char>>;

/// Group 1 of each successive non-overlapping match of the regular expression
/// `pattern` in `text`, as the `regex` crate finds them (empty when the
/// pattern does not compile).
pub uninterp spec fn regex_groups1(pattern: Seq<char>, text: Seq<char>) -> Seq<Option<Seq<char>>>;

/// Calls `regex::Regex::new(pattern)` and, on success, `captures(text)` and
/// group 1 of the result. The contract names the result and adds what the
/// crate documents: a capture is a piece of `text`.
#[verifier::external_body]
fn regex_first_group(pattern: &str, text: &str) -> (r: Option<String>)
    ensures
        opt_chars(r) == regex_group1(pattern@, text@),
        r matches Some(c) ==> contains_seq(text@, c@),
{
    let re = match regex::Regex::new(pattern) {
        Ok(re) => re,
        Err(_) => return None,
    };
    let caps = re.captures(text)?;
    let m = caps.get(1)?;
    Some(m.as_str().to_string())
}

/// Calls `regex::Regex::new(pattern)` and, on success, `captures_iter(text)`,
/// keeping group 1 of each match. The contract names the result and adds
/// what the crate documents: every capture is a piece of `text`.
#[verifier::external_body]
fn regex_all_groups(pattern: &str, text: &str) -> (r: Vec<Option<String>>)
    ensures
        r@.map_values(|o: Option<String>| opt_chars(o)) == regex_groups1(pattern@, text@),
        forall|i: int| 0 <= i < r@.len() ==> (#[trigger] r@[i] matches Some(c) ==> contains_seq(text@, c@)),
{
    match regex::Regex::new(pattern) {
        Ok(re) => re.captures_iter(text).map(|c| c.get(1).map(|m| m.as_str().to_string())).collect(),
        Err(_) => Vec::new(),
    }
}

/// The views of a list of string slices.
pub open spec fn str_views(v: Seq<&str>) -> Seq<Seq<char>> {
    v.map_values(|p: &str| p@)
}

/// The capture of the first pattern, in order, that captures something.
pub open spec fn first_hit(patterns: Seq<Seq<char>>, text: Seq<char>) -> Option<Seq<char>>
    decreases patterns.len(),
{
    if patterns.len() == 0 {
        None
    } else {
        match regex_group1(patterns[0], text) {
            Some(c) => Some(c),
            None => first_hit(patterns.drop_first(), text),
        }
    }
}

/// Tries the patterns in order on `text`.
pub fn first_pattern_match(patterns: &Vec<&str>, text: &str) -> (r: Option<String>)
    ensures
        opt_chars(r) == first_hit(str_views(patterns@), text@),
{
    let mut i: usize = 0;
    proof {
        assert(str_views(patterns@).skip(0) =~= str_views(patterns@));
    }
    while i < patterns.len()
        invariant
            i <= patterns@.len(),
            first_hit(str_views(patterns@), text@) == first_hit(str_views(patterns@).skip(i as int), text@),
        decreases patterns@.len() - i,
    {
        proof {
            assert(str_views(patterns@).skip(i as int).drop_first() =~= str_views(patterns@).skip(i + 1));
            assert(str_views(patterns@).skip(i as int)[0] == patterns@[i as int]@);
        }
        match regex_first_group(patterns[i], text) {
            Some(c) => return Some(c),
            None => {},
        }
        i = i + 1;
    }
    None
}

/// The first hit of the patterns inside the texts, in order, skipping
/// missing texts.
pub open spec fn hit_in_texts(texts: Seq<Option<Seq<char>>>, patterns: Seq<Seq<char>>) -> Option<Seq<char>>
    decreases texts.len(),
{
    if texts.len() == 0 {
        None
    } else {
        let here = match texts[0] {
            Some(t) => first_hit(patterns, t),
            None => None,
        };
        match here {
            Some(c) => Some(c),
            None => hit_in_texts(texts.drop_first(), patterns),
        }
    }
}

/// The script blocks of a page: group 1 of `<script ...>...</script>`.
pub open spec fn script_pattern() -> Seq<char> {
    "<script[^>]*>(.*?)</script>"@
}

/// Tries the patterns on each script block of `html`, in order.
pub fn script_pattern_match(patterns: &Vec<&str>, html: &str) -> (r: Option<String>)
    ensures
        opt_chars(r) == hit_in_texts(regex_groups1(script_pattern(), html@), str_views(patterns@)),
{
    let scripts = regex_all_groups("<script[^>]*>(.*?)</script>", html);
    let ghost texts = scripts@.map_values(|o: Option<String>| opt_chars(o));
    let mut i: usize = 0;
    proof {
        assert(texts.skip(0) =~= texts);
    }
    while i < scripts.len()
        invariant
            i <= scripts@.len(),
            texts == scripts@.map_values(|o: Option<String>| opt_chars(o)),
            texts == regex_groups1(script_pattern(), html@),
            hit_in_texts(texts, str_views(patterns@)) == hit_in_texts(texts.skip(i as int), str_views(patterns@)),
        decreases scripts@.len() - i,
    {
        proof {
            assert(texts.skip(i as int).drop_first() =~= texts.skip(i + 1));
            assert(texts.skip(i as int)[0] == opt_chars(scripts@[i as int]));
        }
        match &scripts[i] {
            Some(script) => match first_pattern_match(patterns, script.as_str()) {
                Some(c) => return Some(c),
                None => {},
            },
            None => {},
        }
        i = i + 1;
    }
    None
}

/// The text of the crumb endpoint without surrounding whitespace and quotes.
pub open spec fn cleaned_crumb(text: Seq<char>) -> Seq<char> {
    trimmed_of(trimmed(text), '"')
}

/// Strips surrounding whitespace, then surrounding double quotes.
pub fn clean_crumb(text: &str) -> (r: String)
    ensures
        r@ == cleaned_crumb(text@),
{
    let t = trim(text);
    trim_matches_char(t.as_str(), '"')
}

} // verus!

verus! {

/// The shorter list of crumb patterns used by the enhanced clients.
pub open spec fn short_crumb_patterns() -> Seq<Seq<char>> {
    seq![
        r#""CrumbStore":\s*\{\s*"crumb":\s*"([^"]+)""#@,
        r#""crumb"\s*:\s*"([^"]+)""#@,
        r#"window\.crumb\s*=\s*"([^"]+)""#@,
    ]
}

/// The shorter crumb pattern list.
pub fn short_crumb_pattern_list() -> (r: Vec<&'static str>)
    ensures
        str_views(r@) == short_crumb_patterns(),
{
    let mut v: Vec<&'static str> = Vec::new();
    v.push(r#""CrumbStore":\s*\{\s*"crumb":\s*"([^"]+)""#);
    v.push(r#""crumb"\s*:\s*"([^"]+)""#);
    v.push(r#"window\.crumb\s*=\s*"([^"]+)""#);
    proof {
        assert(str_views(v@) =~= short_crumb_patterns());
    }
    v
}

/// The crumb in a quote page by the shorter pattern list, if any pattern
/// captures one.
pub fn find_crumb_short(html: &str) -> (r: Option<String>)
    ensures
        opt_chars(r) == first_hit(short_crumb_patterns(), html@),
{
    let patterns = short_crumb_pattern_list();
    first_pattern_match(&patterns, html)
}

} // verus!
