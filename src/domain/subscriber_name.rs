use unicode_segmentation::UnicodeSegmentation;
use vstd::prelude::*;
use vstd::string::*;

verus! {

/// The longest name accepted, in grapheme clusters.
pub const MAX_NAME_GRAPHEMES: usize = 256;

/// Number of extended grapheme clusters in a string.
pub uninterp spec fn grapheme_count_of(s: Seq<char>) -> nat;

/// Whether a character has the Unicode `White_Space` property.
pub uninterp spec fn whitespace_char(c: char) -> bool;

/// Relies on `UnicodeSegmentation::graphemes(true).count()`: the number of
/// extended grapheme clusters; each cluster holds at least one character.
#[verifier::external_body]
fn grapheme_count(s: &str) -> (r: usize)
    ensures
        r as nat == grapheme_count_of(s@),
        r <= s@.len(),
{
    s.graphemes(true).count()
}

/// Relies on `char::is_whitespace`: the Unicode `White_Space` property.
#[verifier::external_body]
fn is_whitespace(c: char) -> (r: bool)
    ensures
        r == whitespace_char(c),
{
    c.is_whitespace()
}

pub open spec fn is_forbidden_char(c: char) -> bool {
    c == '/' || c == '\\' || c == '(' || c == ')' || c == '{' || c == '}' || c == '<' || c == '>'
        || c == '"'
}

pub open spec fn has_forbidden_char(s: Seq<char>) -> bool {
    exists|i: int| 0 <= i < s.len() && is_forbidden_char(#[trigger] s[i])
}

/// Empty, or made of whitespace only: nothing is left once the string is trimmed.
pub open spec fn is_blank(s: Seq<char>) -> bool {
    forall|i: int| 0 <= i < s.len() ==> whitespace_char(#[trigger] s[i])
}

pub open spec fn is_valid_name(s: Seq<char>) -> bool {
    &&& !is_blank(s)
    &&& !has_forbidden_char(s)
    &&& grapheme_count_of(s) <= MAX_NAME_GRAPHEMES
}

/// A subscriber's name: not blank, free of the characters of
/// `FORBIDDEN_CHARS`, at most `MAX_NAME_GRAPHEMES` grapheme clusters long.
#[derive(Debug)]
pub struct SubscriberName(String);

impl View for SubscriberName {
    type V = Seq<char>;

    closed spec fn view(&self) -> Seq<char> {
        self.0@
    }
}

impl SubscriberName {
    pub const FORBIDDEN_CHARS: [char; 9] = ['/', '\\', '(', ')', '{', '}', '<', '>', '"'];

    pub closed spec fn wf(&self) -> bool {
        is_valid_name(self.0@)
    }

    /// Accepts `name` exactly when it is a valid subscriber name; the error
    /// names the rejected input.
    pub fn parse(name: String) -> (r: Result<SubscriberName, String>)
        ensures
            r is Ok <==> is_valid_name(name@),
            r matches Ok(n) ==> n@ == name@ && n.wf(),
            r matches Err(e) ==> e@ == "Invalid subscriber name "@ + name@,
    {
        let blank = is_blank_str(name.as_str());
        let count = grapheme_count(name.as_str());
        if name_is_acceptable(name.as_str(), blank, count) {
            Ok(SubscriberName(name))
        } else {
            let mut e = String::from_str("Invalid subscriber name ");
            e.append(name.as_str());
            Err(e)
        }
    }

    pub fn as_str(&self) -> (r: &str)
        ensures
            r@ == self@,
    {
        self.0.as_str()
    }
}

/// Whether every character of `s` is whitespace (true of the empty string).
fn is_blank_str(s: &str) -> (r: bool)
    ensures
        r == is_blank(s@),
{
    let n = s.unicode_len();
    let mut i: usize = 0;
    while i < n
        invariant
            n == s@.len(),
            i <= n,
            forall|j: int| 0 <= j < i ==> whitespace_char(#[trigger] s@[j]),
        decreases n - i,
    {
        if !is_whitespace(s.get_char(i)) {
            return false;
        }
        i += 1;
    }
    true
}

/// Whether `s` holds one of the characters of `SubscriberName::FORBIDDEN_CHARS`.
pub fn has_forbidden_chars(s: &str) -> (r: bool)
    ensures
        r == has_forbidden_char(s@),
{
    let n = s.unicode_len();
    let mut i: usize = 0;
    while i < n
        invariant
            n == s@.len(),
            i <= n,
            forall|j: int| 0 <= j < i ==> !is_forbidden_char(#[trigger] s@[j]),
        decreases n - i,
    {
        if is_forbidden(s.get_char(i)) {
            return true;
        }
        i += 1;
    }
    false
}

fn is_forbidden(c: char) -> (r: bool)
    ensures
        r == is_forbidden_char(c),
{
    let forbidden = SubscriberName::FORBIDDEN_CHARS;
    assert(forbidden@ =~= seq!['/', '\\', '(', ')', '{', '}', '<', '>', '"']);
    let mut k: usize = 0;
    while k < 9
        invariant
            k <= 9,
            forbidden@ =~= seq!['/', '\\', '(', ')', '{', '}', '<', '>', '"'],
            forall|m: int| 0 <= m < k ==> forbidden[m] != c,
        decreases 9 - k,
    {
        if forbidden[k] == c {
            return true;
        }
        k += 1;
    }
    false
}

/// The verdict on a name, given whether it is blank and how many grapheme
/// clusters it has.
pub fn name_is_acceptable(name: &str, blank: bool, grapheme_count: usize) -> (r: bool)
    ensures
        r == (!blank && !has_forbidden_char(name@) && grapheme_count <= MAX_NAME_GRAPHEMES),
{
    !blank && !has_forbidden_chars(name) && grapheme_count <= MAX_NAME_GRAPHEMES
}

} // verus!
