use vstd::prelude::*;

use crate::dom::opt_view;
use crate::error::ExtractError;
use crate::routing::valid_regex;

verus! {

/// The text of capture group `group` of the first match of the regular
/// expression `pat` in `text`; `None` when `pat` does not match or the group
/// captured nothing.
pub uninterp spec fn re_capture(pat: Seq<char>, text: Seq<char>, group: int) -> Option<Seq<char>>;

/// Relies on regex::Regex::new, regex::Regex::captures and
/// regex::Captures::get: `None` when the pattern does not compile, else the
/// text of capture group `group` of the first match, if any.
#[verifier::external_body]
fn regex_capture(pat: &str, text: &str, group: usize) -> (r: Option<Option<String>>)
    ensures
        r is Some <==> valid_regex(pat@),
        r matches Some(c) ==> opt_view(c) == re_capture(pat@, text@, group as int),
{
    let re = match regex::Regex::new(pat) {
        Ok(re) => re,
        Err(_) => return None,
    };
    Some(re.captures(text).and_then(|caps| caps.get(group)).map(|m| m.as_str().to_string()))
}

/// What `match_content` returns: the capture when the pattern compiles, the
/// pattern matches and the group captured something; a pattern-match failure
/// otherwise.
pub open spec fn match_content_post(
    text: Seq<char>,
    pattern: Seq<char>,
    group: int,
    r: Result<String, ExtractError>,
) -> bool {
    if !valid_regex(pattern) {
        r == Result::<String, ExtractError>::Err(ExtractError::PatternMatch)
    } else {
        match re_capture(pattern, text, group) {
            Some(c) => r matches Ok(s) && s@ == c,
            None => r == Result::<String, ExtractError>::Err(ExtractError::PatternMatch),
        }
    }
}

/// Capture group `group` of the first match of `pattern` in `text`. A
/// pattern that does not compile, a pattern that does not match, and a group
/// that captured nothing are all pattern-match failures.
pub fn match_content(text: &str, pattern: &str, group: usize) -> (r: Result<String, ExtractError>)
    ensures
        match_content_post(text@, pattern@, group as int, r),
{
    match regex_capture(pattern, text, group) {
        None => Err(ExtractError::PatternMatch),
        Some(None) => Err(ExtractError::PatternMatch),
        Some(Some(s)) => Ok(s),
    }
}

} // verus!
