//! Validation of request values before any session or backend work.

use vstd::prelude::*;
use vstd::string::StringExecFns;
use crate::constants::{HEADER_CHUNK_INDEX, HEADER_UPLOAD_ID};
use crate::errors::{AppError, AppResult, ErrorView};
use crate::text::{chars_of, has_prefix, starts_with};

verus! {

/// Whether a MIME type is one the service stores: any image, video, audio or
/// text type, JSON, PDF or ZIP.
pub open spec fn content_type_allowed(t: Seq<char>) -> bool {
    has_prefix(t, "image/"@) || has_prefix(t, "video/"@) || has_prefix(t, "audio/"@)
        || has_prefix(t, "text/"@) || has_prefix(t, "application/json"@)
        || has_prefix(t, "application/pdf"@) || has_prefix(t, "application/zip"@)
}

/// The error for an unsupported content type.
pub open spec fn unsupported_type_error() -> ErrorView {
    ErrorView::InvalidField { field: "contentType"@, reason: "Unsupported file type"@ }
}

/// Whether `c` is an ASCII decimal digit.
pub open spec fn is_digit(c: char) -> bool {
    '0' <= c && c <= '9'
}

/// Every character of `s` is an ASCII decimal digit.
pub open spec fn all_digits(s: Seq<char>) -> bool {
    forall|i: int| 0 <= i < s.len() ==> is_digit(#[trigger] s[i])
}

/// The number that the decimal digits `s` denote.
pub open spec fn digits_value(s: Seq<char>) -> nat
    decreases s.len(),
{
    if s.len() == 0 {
        0
    } else {
        digits_value(s.drop_last()) * 10 + ((s.last() as nat) - ('0' as nat)) as nat
    }
}

/// What `u16::from_str` accepts: an optional `+`, then one or more decimal
/// digits denoting a number below 65536.
pub open spec fn parse_u16(s: Seq<char>) -> Option<u16> {
    let d = if s.len() > 0 && s[0] == '+' { s.drop_first() } else { s };
    if d.len() > 0 && all_digits(d) && digits_value(d) <= u16::MAX {
        Some(digits_value(d) as u16)
    } else {
        None
    }
}

/// The outcome of validating the two upload headers.
pub open spec fn upload_headers_outcome(upload_id: Option<Seq<char>>, chunk_index: Option<Seq<char>>) -> Result<(Seq<char>, u16), ErrorView> {
    match upload_id {
        None => Err(ErrorView::MissingField { field: HEADER_UPLOAD_ID@ + " header"@ }),
        Some(id) => match chunk_index {
            None => Err(ErrorView::MissingField { field: HEADER_CHUNK_INDEX@ + " header"@ }),
            Some(text) => match parse_u16(text) {
                None => Err(
                    ErrorView::InvalidField { field: HEADER_CHUNK_INDEX@, reason: "Must be a valid number"@ },
                ),
                Some(index) => Ok((id, index)),
            },
        },
    }
}

proof fn lemma_digits_value_grows(s: Seq<char>, c: char)
    requires
        is_digit(c),
    ensures
        digits_value(s.push(c)) >= digits_value(s),
        digits_value(s.push(c)) == digits_value(s) * 10 + ((c as nat) - ('0' as nat)) as nat,
{
    assert(s.push(c).drop_last() =~= s);
}

/// Parses a chunk index as `u16::from_str` does.
pub fn parse_chunk_index(text: &str) -> (r: Option<u16>)
    ensures
        r == parse_u16(text@),
{
    let cs = chars_of(text);
    let start: usize = if cs.len() > 0 && cs[0] == '+' { 1 } else { 0 };
    let ghost d = if cs@.len() > 0 && cs@[0] == '+' { cs@.drop_first() } else { cs@ };
    assert(d =~= cs@.subrange(start as int, cs@.len() as int));
    if start >= cs.len() {
        return None;
    }
    let mut value: u32 = 0;
    let mut i: usize = start;
    assert(cs@.subrange(start as int, start as int) =~= Seq::<char>::empty());
    while i < cs.len()
        invariant
            start <= i <= cs@.len(),
            cs@ == text@,
            d == cs@.subrange(start as int, cs@.len() as int),
            d == (if cs@.len() > 0 && cs@[0] == '+' { cs@.drop_first() } else { cs@ }),
            all_digits(cs@.subrange(start as int, i as int)),
            value as nat == digits_value(cs@.subrange(start as int, i as int)),
            value <= u16::MAX,
        decreases cs.len() - i,
    {
        let c = cs[i];
        let ghost prev = cs@.subrange(start as int, i as int);
        assert(cs@.subrange(start as int, i + 1) =~= prev.push(c));
        if c < '0' || c > '9' {
            assert(d[i - start] == c);
            assert(!is_digit(d[i - start]));
            assert(!all_digits(d));
            return None;
        }
        proof {
            lemma_digits_value_grows(prev, c);
        }
        let next: u32 = value * 10 + (c as u32 - '0' as u32);
        if next > 65535 {
            proof {
                lemma_digits_value_monotone(d, i + 1 - start);
                assert(d.subrange(0, i + 1 - start) =~= prev.push(c));
            }
            return None;
        }
        value = next;
        i += 1;
    }
    assert(cs@.subrange(start as int, i as int) =~= d);
    Some(value as u16)
}

/// The value of a digit string is at least the value of any of its prefixes,
/// or it contains a non-digit.
proof fn lemma_digits_value_monotone(s: Seq<char>, n: int)
    requires
        0 <= n <= s.len(),
    ensures
        all_digits(s) ==> digits_value(s) >= digits_value(s.subrange(0, n)),
    decreases s.len() - n,
{
    if n < s.len() {
        lemma_digits_value_monotone(s, n + 1);
        if all_digits(s) {
            assert(s.subrange(0, n + 1) =~= s.subrange(0, n).push(s[n]));
            lemma_digits_value_grows(s.subrange(0, n), s[n]);
        }
    } else {
        assert(s.subrange(0, n) =~= s);
    }
}

/// Validation of upload requests.
pub struct ValidationMiddleware;

impl ValidationMiddleware {
    /// Checks the session-identifier and chunk-index header values of a
    /// chunk upload and returns them, the index parsed.
    pub fn validate_upload_headers(upload_id: Option<String>, chunk_index: Option<String>) -> (r: AppResult<(String, u16)>)
        ensures
            match r {
                Ok((id, index)) => upload_headers_outcome(
                    match upload_id { Some(s) => Some(s@), None => None },
                    match chunk_index { Some(s) => Some(s@), None => None },
                ) == Ok::<(Seq<char>, u16), ErrorView>((id@, index)),
                Err(e) => upload_headers_outcome(
                    match upload_id { Some(s) => Some(s@), None => None },
                    match chunk_index { Some(s) => Some(s@), None => None },
                ) == Err::<(Seq<char>, u16), ErrorView>(e@),
            },
    {
        let id = match upload_id {
            Some(id) => id,
            None => {
                let mut field = String::from_str(HEADER_UPLOAD_ID);
                field.append(" header");
                return Err(AppError::MissingField { field });
            },
        };
        let text = match chunk_index {
            Some(text) => text,
            None => {
                let mut field = String::from_str(HEADER_CHUNK_INDEX);
                field.append(" header");
                return Err(AppError::MissingField { field });
            },
        };
        match parse_chunk_index(text.as_str()) {
            Some(index) => Ok((id, index)),
            None => Err(
                AppError::InvalidField {
                    field: String::from_str(HEADER_CHUNK_INDEX),
                    reason: String::from_str("Must be a valid number"),
                },
            ),
        }
    }

    /// Rejects a declared size over the maximum with `FileSizeExceeded`,
    /// carrying both sizes.
    pub fn validate_file_size(size: u64, max_size: u64) -> (r: AppResult<()>)
        ensures
            size <= max_size <==> r is Ok,
            r matches Err(e) ==> e@ == (ErrorView::FileSizeExceeded { size, max: max_size }),
    {
        if size > max_size {
            return Err(AppError::FileSizeExceeded { size, max: max_size });
        }
        Ok(())
    }

    /// Rejects a MIME type that the service does not store with
    /// `InvalidField`.
    pub fn validate_content_type(content_type: &str) -> (r: AppResult<()>)
        ensures
            content_type_allowed(content_type@) <==> r is Ok,
            r matches Err(e) ==> e@ == unsupported_type_error(),
    {
        let t = chars_of(content_type);
        if starts_with(&t, &chars_of("image/")) || starts_with(&t, &chars_of("video/"))
            || starts_with(&t, &chars_of("audio/")) || starts_with(&t, &chars_of("text/"))
            || starts_with(&t, &chars_of("application/json")) || starts_with(
            &t,
            &chars_of("application/pdf"),
        ) || starts_with(&t, &chars_of("application/zip")) {
            Ok(())
        } else {
            Err(
                AppError::InvalidField {
                    field: String::from_str("contentType"),
                    reason: String::from_str("Unsupported file type"),
                },
            )
        }
    }
}

} // verus!
