//! Per-field validation rules, whose messages show once a field was touched.
use vstd::prelude::*;
use vstd::utf8::encode_utf8;

verus! {

/// Why a field's content is not acceptable.
#[derive(Debug, Clone, Copy, PartialEq, Eq, Structural)]
pub enum ValidationError {
    Required,
    TooLong,
    InvalidDate,
}

impl ValidationError {
    pub open spec fn message_text(self) -> Seq<char> {
        match self {
            ValidationError::Required => "Required"@,
            ValidationError::TooLong => "Too long"@,
            ValidationError::InvalidDate => "Invalid date"@,
        }
    }

    /// The message shown under the field.
    pub fn message(&self) -> (r: String)
        ensures
            r@ == self.message_text(),
    {
        match self {
            ValidationError::Required => String::from_str("Required"),
            ValidationError::TooLong => String::from_str("Too long"),
            ValidationError::InvalidDate => String::from_str("Invalid date"),
        }
    }
}

/// The longest title accepted, in bytes of UTF-8.
pub const TITLE_MAX_BYTES: usize = 100;

/// A year, optionally followed by a month, optionally followed by a day:
/// `2024`, `2024-01` or `2024-01-01`.
pub const DATE_PATTERN: &'static str = "^\\d{4}(-\\d{2}(-\\d{2})?)?$";

/// Whether `haystack` matches the regular expression `pattern`, as the regex
/// crate decides it.
pub uninterp spec fn regex_matches(pattern: Seq<char>, haystack: Seq<char>) -> bool;

/// Relies on regex::Regex::new and Regex::is_match: whether `haystack`
/// matches `pattern`, or `None` where `pattern` does not compile. `new`
/// fails only on an invalid pattern or one over the default size limit;
/// `DATE_PATTERN` is neither.
#[verifier::external_body]
fn regex_is_match(pattern: &str, haystack: &str) -> (r: Option<bool>)
    ensures
        r matches Some(b) ==> b == regex_matches(pattern@, haystack@),
        pattern@ == DATE_PATTERN@ ==> r is Some,
{
    match regex::Regex::new(pattern) {
        Ok(re) => Some(re.is_match(haystack)),
        Err(_) => None,
    }
}

/// The rule for titles: required, and at most `TITLE_MAX_BYTES` bytes long.
pub open spec fn title_rule(text: Seq<char>) -> Option<ValidationError> {
    if text.len() == 0 {
        Some(ValidationError::Required)
    } else if encode_utf8(text).len() > TITLE_MAX_BYTES {
        Some(ValidationError::TooLong)
    } else {
        None
    }
}

/// The rule for dates, given whether the text matched the date pattern
/// (`None` where the pattern could not be used): an empty text is an error
/// only where the date is required, any other must match.
pub open spec fn date_rule(text: Seq<char>, required: bool, matched: Option<bool>) -> Option<
    ValidationError,
> {
    if text.len() == 0 {
        if required {
            Some(ValidationError::Required)
        } else {
            None
        }
    } else if matched == Some(true) {
        None
    } else {
        Some(ValidationError::InvalidDate)
    }
}

pub fn validate_title(text: &str) -> (r: Option<ValidationError>)
    ensures
        r == title_rule(text@),
{
    if text.is_empty() {
        return Some(ValidationError::Required);
    }
    if text.as_bytes().len() > TITLE_MAX_BYTES {
        return Some(ValidationError::TooLong);
    }
    None
}

/// Applies the date rule to a text and the outcome of matching it.
pub fn date_error(text: &str, required: bool, matched: Option<bool>) -> (r: Option<
    ValidationError,
>)
    ensures
        r == date_rule(text@, required, matched),
{
    if text.is_empty() {
        if required {
            return Some(ValidationError::Required);
        }
        return None;
    }
    match matched {
        Some(true) => None,
        _ => Some(ValidationError::InvalidDate),
    }
}

/// Validates a date field against `DATE_PATTERN`. An empty text is an
/// error only where the date is required; any other text is valid exactly
/// when it matches.
pub fn validate_date(text: &str, required: bool) -> (r: Option<ValidationError>)
    ensures
        r == date_rule(text@, required, Some(regex_matches(DATE_PATTERN@, text@))),
{
    if text.is_empty() {
        return date_error(text, required, None);
    }
    let matched = regex_is_match(DATE_PATTERN, text);
    date_error(text, required, matched)
}

/// What a field shows: nothing until it was modified, then its rule's
/// verdict.
pub open spec fn shown_error(has_modified: bool, verdict: Option<ValidationError>) -> Option<
    ValidationError,
> {
    if has_modified {
        verdict
    } else {
        None
    }
}

/// Validation messages stay hidden until a field was modified, and from
/// then on show exactly what the field's rule says.
pub proof fn lemma_errors_hidden_until_modified(verdict: Option<ValidationError>)
    ensures
        shown_error(false, verdict) is None,
        shown_error(true, verdict) == verdict,
{
}

} // verus!
