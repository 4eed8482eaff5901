//! Value objects of the subscriber domain: display name and email address.
//!
//! Both are parse-on-construct smart constructors: a value of either type can
//! only exist if its validation rules held, and the wrapped text is stored
//! unchanged.

use vstd::prelude::*;
use crate::error::ValidationError;

verus! {

/// The number of grapheme clusters that `s` decomposes into under extended
/// grapheme segmentation. The decomposition depends on the characters alone.
pub uninterp spec fn grapheme_count_of(s: Seq<char>) -> nat;

/// Whether `c` has the Unicode `White_Space` property.
pub uninterp spec fn is_unicode_whitespace(c: char) -> bool;

/// Whether `s` is a syntactically valid email address under the HTML5
/// email grammar (local part, `@`, domain). The answer depends on the
/// characters alone.
pub uninterp spec fn is_valid_email(s: Seq<char>) -> bool;

/// Relies on unicode_segmentation::UnicodeSegmentation::graphemes with
/// extended segmentation: the iterator yields one item per user-perceived
/// character, so its count is a function of the string's characters alone.
#[verifier::external_body]
fn grapheme_count(s: &str) -> (n: usize)
    ensures
        n as nat == grapheme_count_of(s@),
{
    unicode_segmentation::UnicodeSegmentation::graphemes(s, true).count()
}

/// Relies on char::is_whitespace: true exactly for characters with the
/// Unicode `White_Space` property.
#[verifier::external_body]
fn char_is_whitespace(c: char) -> (r: bool)
    ensures
        r == is_unicode_whitespace(c),
{
    c.is_whitespace()
}

/// Relies on validator::validate_email: a deterministic check of the string
/// against the HTML5 email grammar (with RFC 5321 length caps on the local
/// part and the domain).
#[verifier::external_body]
fn email_is_valid(s: &str) -> (r: bool)
    ensures
        r == is_valid_email(s@),
{
    validator::validate_email(s)
}

/// The characters that a display name may not contain.
pub open spec fn is_forbidden_char(c: char) -> bool {
    ||| c == '/'
    ||| c == '('
    ||| c == ')'
    ||| c == '"'
    ||| c == '<'
    ||| c == '>'
    ||| c == '\\'
    ||| c == '{'
    ||| c == '}'
}

/// Every character of `s` is whitespace; holds vacuously of the empty
/// string, so this is exactly "the text trims to nothing".
pub open spec fn is_blank(s: Seq<char>) -> bool {
    forall|i: int| 0 <= i < s.len() ==> is_unicode_whitespace(#[trigger] s[i])
}

/// Some character of `s` is forbidden in a display name.
pub open spec fn has_forbidden_char(s: Seq<char>) -> bool {
    exists|i: int| 0 <= i < s.len() && is_forbidden_char(#[trigger] s[i])
}

/// The upper bound on a display name's length in grapheme clusters.
pub const MAX_NAME_GRAPHEMES: usize = 256;

/// The validation rule of a display name: not blank, at most 256 grapheme
/// clusters, and free of forbidden characters.
pub open spec fn valid_name(s: Seq<char>) -> bool {
    &&& !is_blank(s)
    &&& grapheme_count_of(s) <= MAX_NAME_GRAPHEMES
    &&& !has_forbidden_char(s)
}

fn check_forbidden_char(c: char) -> (r: bool)
    ensures
        r == is_forbidden_char(c),
{
    c == '/' || c == '(' || c == ')' || c == '"' || c == '<' || c == '>' || c == '\\' || c == '{'
        || c == '}'
}

fn all_chars_whitespace(s: &str) -> (r: bool)
    ensures
        r == is_blank(s@),
{
    let len = s.unicode_len();
    let mut i: usize = 0;
    while i < len
        invariant
            i <= len,
            len == s@.len(),
            forall|j: int| 0 <= j < i ==> is_unicode_whitespace(#[trigger] s@[j]),
        decreases len - i,
    {
        let c = s.get_char(i);
        if !char_is_whitespace(c) {
            return false;
        }
        i = i + 1;
    }
    true
}

fn contains_forbidden_char(s: &str) -> (r: bool)
    ensures
        r == has_forbidden_char(s@),
{
    let len = s.unicode_len();
    let mut i: usize = 0;
    while i < len
        invariant
            i <= len,
            len == s@.len(),
            forall|j: int| 0 <= j < i ==> !is_forbidden_char(#[trigger] s@[j]),
        decreases len - i,
    {
        let c = s.get_char(i);
        if check_forbidden_char(c) {
            return true;
        }
        i = i + 1;
    }
    false
}

/// A validated display name. The wrapped text is the raw input, unchanged.
#[derive(Debug)]
pub struct SubscriberName(String);

impl View for SubscriberName {
    type V = Seq<char>;

    closed spec fn view(&self) -> Seq<char> {
        self.0@
    }
}

impl SubscriberName {
    /// The invariant that construction established: the wrapped text is a
    /// valid display name.
    pub closed spec fn wf(&self) -> bool {
        valid_name(self.0@)
    }

    /// Validates `s` as a display name and wraps it unchanged, or rejects it
    /// with `InvalidName` carrying the offending text.
    pub fn parse(s: String) -> (r: Result<SubscriberName, ValidationError>)
        ensures
            r is Ok <==> valid_name(s@),
            r is Ok ==> r->Ok_0@ == s@ && r->Ok_0.wf(),
            r is Err ==> r->Err_0 is InvalidName && r->Err_0->InvalidName_0@ == s@,
    {
        let is_empty_or_whitespace = all_chars_whitespace(s.as_str());
        let is_too_long = grapheme_count(s.as_str()) > MAX_NAME_GRAPHEMES;
        let contains_forbidden_characters = contains_forbidden_char(s.as_str());

        if is_empty_or_whitespace || is_too_long || contains_forbidden_characters {
            Err(ValidationError::InvalidName(s))
        } else {
            Ok(SubscriberName(s))
        }
    }

    /// The wrapped text.
    pub fn as_ref(&self) -> (r: &str)
        ensures
            r@ == self@,
    {
        self.0.as_str()
    }
}

/// A validated email address. The wrapped text is the raw input, unchanged.
#[derive(Debug)]
pub struct SubscriberEmail(String);

impl View for SubscriberEmail {
    type V = Seq<char>;

    closed spec fn view(&self) -> Seq<char> {
        self.0@
    }
}

impl SubscriberEmail {
    /// The invariant that construction established: the wrapped text is a
    /// syntactically valid email address.
    pub closed spec fn wf(&self) -> bool {
        is_valid_email(self.0@)
    }

    /// Validates `s` as an email address and wraps it unchanged, or rejects
    /// it with `InvalidEmail` carrying the offending text.
    pub fn parse(s: String) -> (r: Result<SubscriberEmail, ValidationError>)
        ensures
            r is Ok <==> is_valid_email(s@),
            r is Ok ==> r->Ok_0@ == s@ && r->Ok_0.wf(),
            r is Err ==> r->Err_0 is InvalidEmail && r->Err_0->InvalidEmail_0@ == s@,
    {
        if email_is_valid(s.as_str()) {
            Ok(SubscriberEmail(s))
        } else {
            Err(ValidationError::InvalidEmail(s))
        }
    }

    /// The wrapped text.
    pub fn as_ref(&self) -> (r: &str)
        ensures
            r@ == self@,
    {
        self.0.as_str()
    }
}

/// The validated aggregate: a subscriber can only exist if both its name and
/// its email validated successfully.
#[derive(Debug)]
pub struct NewSubscriber {
    pub email: SubscriberEmail,
    pub name: SubscriberName,
}

impl NewSubscriber {
    /// The invariants of both components hold.
    pub open spec fn wf(&self) -> bool {
        self.name.wf() && self.email.wf()
    }
}

/// A name whose text trims to nothing — empty or whitespace-only — is never
/// a valid display name.
pub proof fn lemma_blank_name_rejected(s: Seq<char>)
    requires
        is_blank(s),
    ensures
        !valid_name(s),
{
}

/// A name of more than 256 grapheme clusters is never a valid display name.
pub proof fn lemma_overlong_name_rejected(s: Seq<char>)
    requires
        grapheme_count_of(s) > MAX_NAME_GRAPHEMES,
    ensures
        !valid_name(s),
{
}

/// At exactly 256 grapheme clusters a name passes the length rule: it is
/// valid whenever the other two rules hold as well.
pub proof fn lemma_boundary_name_accepted(s: Seq<char>)
    requires
        !is_blank(s),
        !has_forbidden_char(s),
        grapheme_count_of(s) == MAX_NAME_GRAPHEMES,
    ensures
        valid_name(s),
{
}

/// A name containing any forbidden character is never a valid display name.
pub proof fn lemma_forbidden_char_rejected(s: Seq<char>, i: int)
    requires
        0 <= i < s.len(),
        is_forbidden_char(s[i]),
    ensures
        !valid_name(s),
{
}

/// A name that uses no forbidden character, fits in 256 grapheme clusters,
/// and does not trim to nothing is a valid display name.
pub proof fn lemma_clean_name_accepted(s: Seq<char>)
    requires
        !is_blank(s),
        grapheme_count_of(s) <= MAX_NAME_GRAPHEMES,
        forall|i: int| 0 <= i < s.len() ==> !is_forbidden_char(#[trigger] s[i]),
    ensures
        valid_name(s),
{
}

} // verus!
