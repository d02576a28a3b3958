//! Validated domain values: a subscriber's display name and email address.
//!
//! Raw strings enter through `SubscriberName::parse` and
//! `SubscriberEmail::parse`; every value of these types satisfies its
//! validity predicate, recorded as a type invariant.

use vstd::prelude::*;

verus! {

/// Why a raw submission was rejected.
#[derive(Clone, Copy, Debug, PartialEq, Eq, Structural)]
pub enum ValidationError {
    InvalidName,
    InvalidEmail,
}

/// The characters a subscriber name may not contain.
pub open spec fn is_forbidden_char(c: char) -> bool {
    c == '/' || c == '(' || c == ')' || c == '"' || c == '<' || c == '>' || c == '\\'
        || c == '{' || c == '}'
}

/// Whether the string holds any forbidden character.
pub open spec fn has_forbidden_char(s: Seq<char>) -> bool {
    exists|i: int| 0 <= i < s.len() && is_forbidden_char(s[i])
}

/// The string with leading and trailing whitespace removed, as `str::trim`
/// computes it.
pub uninterp spec fn trim_of(s: Seq<char>) -> Seq<char>;

/// The number of extended grapheme clusters in the string, as the Unicode
/// segmentation of the characters determines it.
pub uninterp spec fn grapheme_count(s: Seq<char>) -> nat;

/// Whether the email checker accepts the string as an email address.
pub uninterp spec fn email_accepted(s: Seq<char>) -> bool;

/// A name is valid when its trimmed form is non-empty, it spans at most 256
/// grapheme clusters, and it holds no forbidden character.
pub open spec fn name_is_valid(s: Seq<char>) -> bool {
    &&& trim_of(s).len() > 0
    &&& grapheme_count(s) <= 256
    &&& !has_forbidden_char(s)
}

/// Relies on `str::trim`: it returns the string with leading and trailing
/// whitespace removed, so the trim of an empty string is empty.
#[verifier::external_body]
fn trim_str(s: &str) -> (r: &str)
    ensures
        r@ == trim_of(s@),
        s@.len() == 0 ==> r@.len() == 0,
{
    s.trim()
}

/// Relies on `unicode_segmentation::UnicodeSegmentation::graphemes`: the
/// segmentation into extended grapheme clusters depends on the characters
/// alone, and a string is empty exactly when it has no clusters.
#[verifier::external_body]
fn count_graphemes(s: &str) -> (n: usize)
    ensures
        n as nat == grapheme_count(s@),
        (n == 0) <==> (s@.len() == 0),
{
    unicode_segmentation::UnicodeSegmentation::graphemes(s, true).count()
}

/// Relies on `validator::validate_email`: acceptance depends on the
/// characters alone, and an empty string, or one without an `@`, is
/// rejected.
#[verifier::external_body]
fn check_email(s: &str) -> (r: bool)
    ensures
        r == email_accepted(s@),
        s@.len() == 0 ==> !r,
        !s@.contains('@') ==> !r,
{
    validator::validate_email(s)
}

/// Whether this character is on the forbidden list.
fn is_forbidden(c: char) -> (r: bool)
    ensures
        r == is_forbidden_char(c),
{
    c == '/' || c == '(' || c == ')' || c == '"' || c == '<' || c == '>' || c == '\\'
        || c == '{' || c == '}'
}

/// Scans the string for a forbidden character.
fn contains_forbidden_char(s: &str) -> (r: bool)
    ensures
        r == has_forbidden_char(s@),
{
    let len: usize = s.unicode_len();
    let mut i: usize = 0;
    while i < len
        invariant
            i <= len,
            len == s@.len(),
            forall|j: int| 0 <= j < i ==> !is_forbidden_char(s@[j]),
        decreases len - i,
    {
        let c = s.get_char(i);
        if is_forbidden(c) {
            assert(has_forbidden_char(s@)) by {
                assert(is_forbidden_char(s@[i as int]));
            }
            return true;
        }
        i += 1;
    }
    false
}

/// A subscriber's display name that passed validation.
#[derive(Debug)]
pub struct SubscriberName {
    inner: String,
}

impl View for SubscriberName {
    type V = Seq<char>;

    closed spec fn view(&self) -> Seq<char> {
        self.inner@
    }
}

/// The outcomes that the name validator's contract allows for a raw string:
/// the raw string itself when it is valid, and `InvalidName` otherwise.
pub open spec fn parse_name_allows(s: Seq<char>, r: Result<Seq<char>, ValidationError>) -> bool {
    match r {
        Ok(v) => name_is_valid(s) && v == s,
        Err(e) => !name_is_valid(s) && e == ValidationError::InvalidName,
    }
}

/// The raw strings a name parse result stands for.
pub open spec fn name_result_view(
    r: Result<SubscriberName, ValidationError>,
) -> Result<Seq<char>, ValidationError> {
    match r {
        Ok(n) => Ok(n@),
        Err(e) => Err(e),
    }
}

impl SubscriberName {
    #[verifier::type_invariant]
    spec fn wf(self) -> bool {
        name_is_valid(self@)
    }

    /// Validates a raw display name: the trimmed form must be non-empty, at
    /// most 256 grapheme clusters long, and free of forbidden characters;
    /// any other string is rejected with `InvalidName`.
    pub fn parse(name: String) -> (r: Result<SubscriberName, ValidationError>)
        ensures
            parse_name_allows(name@, name_result_view(r)),
    {
        let trimmed_empty = trim_str(name.as_str()).is_empty();
        let too_long = count_graphemes(name.as_str()) > 256;
        let forbidden = contains_forbidden_char(name.as_str());
        if trimmed_empty || too_long || forbidden {
            Err(ValidationError::InvalidName)
        } else {
            Ok(SubscriberName { inner: name })
        }
    }

    /// The validated name as a string slice.
    pub fn as_str(&self) -> (r: &str)
        ensures
            r@ == self@,
    {
        self.inner.as_str()
    }
}

/// A subscriber's email address that passed validation.
#[derive(Debug)]
pub struct SubscriberEmail {
    inner: String,
}

impl View for SubscriberEmail {
    type V = Seq<char>;

    closed spec fn view(&self) -> Seq<char> {
        self.inner@
    }
}

/// The outcomes that the email validator's contract allows for a raw string:
/// the raw string itself when the checker accepts it, `InvalidEmail` otherwise.
pub open spec fn parse_email_allows(s: Seq<char>, r: Result<Seq<char>, ValidationError>) -> bool {
    match r {
        Ok(v) => email_accepted(s) && v == s,
        Err(e) => !email_accepted(s) && e == ValidationError::InvalidEmail,
    }
}

/// The raw strings an email parse result stands for.
pub open spec fn email_result_view(
    r: Result<SubscriberEmail, ValidationError>,
) -> Result<Seq<char>, ValidationError> {
    match r {
        Ok(n) => Ok(n@),
        Err(e) => Err(e),
    }
}

impl SubscriberEmail {
    #[verifier::type_invariant]
    spec fn wf(self) -> bool {
        email_accepted(self@)
    }

    /// Validates a raw email address against the email checker; a string
    /// the checker does not accept is rejected with `InvalidEmail`.
    pub fn parse(email: String) -> (r: Result<SubscriberEmail, ValidationError>)
        ensures
            parse_email_allows(email@, email_result_view(r)),
    {
        if check_email(email.as_str()) {
            Ok(SubscriberEmail { inner: email })
        } else {
            Err(ValidationError::InvalidEmail)
        }
    }

    /// The validated address as a string slice.
    pub fn as_str(&self) -> (r: &str)
        ensures
            r@ == self@,
    {
        self.inner.as_str()
    }
}

/// The raw fields of one decoded subscription form.
pub struct FormData {
    pub name: String,
    pub email: String,
}

/// A validated submission, ready to be recorded and confirmed.
pub struct NewSubscriber {
    pub name: SubscriberName,
    pub email: SubscriberEmail,
}

impl NewSubscriber {
    /// Validates both raw fields of a form: the name is checked first, so an
    /// invalid name is reported even when the email is also invalid.
    pub fn from_form(form: FormData) -> (r: Result<NewSubscriber, ValidationError>)
        ensures
            !name_is_valid(form.name@) ==> (r matches Err(e) && e == ValidationError::InvalidName),
            name_is_valid(form.name@) && !email_accepted(form.email@) ==> (r matches Err(e) && e
                == ValidationError::InvalidEmail),
            name_is_valid(form.name@) && email_accepted(form.email@) ==> (r matches Ok(ns)
                && ns.name@ == form.name@ && ns.email@ == form.email@),
    {
        let name = match SubscriberName::parse(form.name) {
            Ok(n) => n,
            Err(e) => {
                return Err(e);
            },
        };
        let email = match SubscriberEmail::parse(form.email) {
            Ok(m) => m,
            Err(e) => {
                return Err(e);
            },
        };
        Ok(NewSubscriber { name, email })
    }
}

/// Law: a name whose trimmed form is empty is rejected with `InvalidName`,
/// whatever else it holds.
pub proof fn lemma_trimmed_empty_name_rejected(s: Seq<char>, r: Result<Seq<char>, ValidationError>)
    requires
        trim_of(s).len() == 0,
        parse_name_allows(s, r),
    ensures
        r == Err::<Seq<char>, ValidationError>(ValidationError::InvalidName),
{
}

/// Law: a name that holds a forbidden character is rejected with
/// `InvalidName`, regardless of its length.
pub proof fn lemma_forbidden_char_name_rejected(s: Seq<char>, r: Result<Seq<char>, ValidationError>)
    requires
        has_forbidden_char(s),
        parse_name_allows(s, r),
    ensures
        r == Err::<Seq<char>, ValidationError>(ValidationError::InvalidName),
{
}

/// Law: a name of at most 256 grapheme clusters, with no forbidden character
/// and a non-empty trimmed form, is accepted unchanged.
pub proof fn lemma_name_within_limit_accepted(s: Seq<char>, r: Result<Seq<char>, ValidationError>)
    requires
        grapheme_count(s) <= 256,
        !has_forbidden_char(s),
        trim_of(s).len() > 0,
        parse_name_allows(s, r),
    ensures
        r == Ok::<Seq<char>, ValidationError>(s),
{
}

/// Law: a name of more than 256 grapheme clusters is rejected with
/// `InvalidName`, whatever else it holds.
pub proof fn lemma_name_over_limit_rejected(s: Seq<char>, r: Result<Seq<char>, ValidationError>)
    requires
        grapheme_count(s) > 256,
        parse_name_allows(s, r),
    ensures
        r == Err::<Seq<char>, ValidationError>(ValidationError::InvalidName),
{
}

/// Law: the email validator decides exactly by the checker's acceptance; an
/// accepted string comes back unchanged, any other fails with `InvalidEmail`.
pub proof fn lemma_email_validator_decides(s: Seq<char>, r: Result<Seq<char>, ValidationError>)
    requires
        parse_email_allows(s, r),
    ensures
        email_accepted(s) ==> r == Ok::<Seq<char>, ValidationError>(s),
        !email_accepted(s) ==> r == Err::<Seq<char>, ValidationError>(ValidationError::InvalidEmail),
{
}

/// Law: the name validator is a pure function of its input; any two results
/// its contract allows for the same raw string are the same result.
pub proof fn lemma_parse_name_deterministic(
    s: Seq<char>,
    r1: Result<Seq<char>, ValidationError>,
    r2: Result<Seq<char>, ValidationError>,
)
    requires
        parse_name_allows(s, r1),
        parse_name_allows(s, r2),
    ensures
        r1 == r2,
{
}

/// Law: the email validator is a pure function of its input; any two results
/// its contract allows for the same raw string are the same result.
pub proof fn lemma_parse_email_deterministic(
    s: Seq<char>,
    r1: Result<Seq<char>, ValidationError>,
    r2: Result<Seq<char>, ValidationError>,
)
    requires
        parse_email_allows(s, r1),
        parse_email_allows(s, r2),
    ensures
        r1 == r2,
{
}

} // verus!
