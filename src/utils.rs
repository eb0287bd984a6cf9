//! Storage-key derivation and session identifiers.
//!
//! A stored object's key is `{role}/{user}/{date}/{category}/{file}`, each
//! part sanitized so that no client input can add path segments.

use vstd::prelude::*;
use vstd::string::StringExecFns;
use crate::models::{role_name, UserRole};
use crate::runtime::{new_uuid, now_millis, utc_date_stamp};
use crate::text::{
    alphanumeric, chars_of, contains, has_infix, has_prefix, is_alphanumeric, lower_of,
    lowercase, push_signed_decimal, signed_decimal, starts_with, string_from_chars, trim, trimmed,
};

verus! {

/// Characters kept in a path component.
pub open spec fn is_path_char(c: char) -> bool {
    alphanumeric(c) || c == '-' || c == '_'
}

/// Characters removed from a file name.
pub open spec fn is_forbidden_name_char(c: char) -> bool {
    c == '/' || c == '\\' || c == ':' || c == '*' || c == '?' || c == '"' || c == '<' || c == '>'
        || c == '|'
}

/// The characters of `s` that may stand in a path component, in order.
pub open spec fn path_chars(s: Seq<char>) -> Seq<char>
    decreases s.len(),
{
    if s.len() == 0 {
        s
    } else if is_path_char(s.last()) {
        path_chars(s.drop_last()).push(s.last())
    } else {
        path_chars(s.drop_last())
    }
}

/// The characters of `s` that may stand in a file name, in order.
pub open spec fn name_chars(s: Seq<char>) -> Seq<char>
    decreases s.len(),
{
    if s.len() == 0 {
        s
    } else if !is_forbidden_name_char(s.last()) {
        name_chars(s.drop_last()).push(s.last())
    } else {
        name_chars(s.drop_last())
    }
}

/// At most the first `n` characters of `s`.
pub open spec fn first_n(s: Seq<char>, n: nat) -> Seq<char> {
    if s.len() <= n {
        s
    } else {
        s.subrange(0, n as int)
    }
}

/// A path component: its letters, digits, `-` and `_`, at most 50 of them,
/// lowercased.
pub open spec fn path_component(s: Seq<char>) -> Seq<char> {
    lower_of(first_n(path_chars(s), 50))
}

/// A file name: trimmed, without path separators and the other characters
/// that storage systems treat specially, at most 255 characters; `unknown`
/// when nothing is left.
pub open spec fn safe_file_name(s: Seq<char>) -> Seq<char> {
    let t = first_n(name_chars(trimmed(s)), 255);
    if t.len() == 0 {
        "unknown"@
    } else {
        t
    }
}

/// The storage directory for a MIME type, decided on its lowercase form.
pub open spec fn content_category(content_type: Seq<char>) -> Seq<char> {
    let t = lower_of(content_type);
    if has_prefix(t, "image/"@) {
        "image"@
    } else if has_prefix(t, "video/"@) {
        "video"@
    } else if has_prefix(t, "audio/"@) {
        "audio"@
    } else if has_prefix(t, "text/"@) || has_infix(t, "json"@) {
        "document"@
    } else {
        "other"@
    }
}

/// The storage key of a file uploaded on the day written `date`.
pub open spec fn storage_key(
    role: UserRole,
    user_id: Seq<char>,
    file_name: Seq<char>,
    content_type: Seq<char>,
    date: Seq<char>,
) -> Seq<char> {
    path_component(role_name(role)) + "/"@ + path_component(user_id) + "/"@ + date + "/"@
        + content_category(content_type) + "/"@ + safe_file_name(file_name)
}

proof fn lemma_first_n_push(s: Seq<char>, c: char, n: nat)
    ensures
        first_n(s.push(c), n) == if s.len() < n {
            first_n(s, n).push(c)
        } else {
            first_n(s, n)
        },
{
    if s.len() >= n {
        assert(s.push(c).subrange(0, n as int) =~= first_n(s, n));
    }
}

/// Sanitizes one component of a storage path: keeps letters, digits, `-`
/// and `_`, at most 50 of them, and lowercases the result.
pub fn sanitize_path_component(component: &str) -> (r: String)
    ensures
        r@ == path_component(component@),
{
    let cs = chars_of(component);
    let mut out: Vec<char> = Vec::new();
    let mut i: usize = 0;
    assert(cs@.subrange(0, 0) =~= Seq::<char>::empty());
    while i < cs.len()
        invariant
            i <= cs@.len(),
            cs@ == component@,
            out@ == first_n(path_chars(cs@.subrange(0, i as int)), 50),
        decreases cs.len() - i,
    {
        let c = cs[i];
        let ghost prev = cs@.subrange(0, i as int);
        assert(cs@.subrange(0, i + 1).drop_last() =~= prev);
        let k = is_alphanumeric(c) || c == '-' || c == '_';
        proof {
            let next = cs@.subrange(0, i + 1);
            assert(next.last() == c);
            if k {
                assert(path_chars(next) == path_chars(prev).push(c));
            } else {
                assert(path_chars(next) == path_chars(prev));
            }
        }
        if k {
            proof {
                lemma_first_n_push(path_chars(prev), c, 50);
            }
            if out.len() < 50 {
                out.push(c);
            }
        }
        i += 1;
    }
    assert(cs@.subrange(0, i as int) =~= cs@);
    let kept_text = string_from_chars(&out);
    lowercase(kept_text.as_str())
}

/// Sanitizes a file name: trims it, removes path separators and the
/// characters `\ : * ? " < > |`, keeps at most 255 characters, and answers
/// `unknown` when nothing is left.
pub fn sanitize_filename(filename: &str) -> (r: String)
    ensures
        r@ == safe_file_name(filename@),
{
    let t = trim(filename);
    let cs = chars_of(t);
    let mut out: Vec<char> = Vec::new();
    let mut i: usize = 0;
    assert(cs@.subrange(0, 0) =~= Seq::<char>::empty());
    while i < cs.len()
        invariant
            i <= cs@.len(),
            cs@ == trimmed(filename@),
            out@ == first_n(name_chars(cs@.subrange(0, i as int)), 255),
        decreases cs.len() - i,
    {
        let c = cs[i];
        let ghost prev = cs@.subrange(0, i as int);
        assert(cs@.subrange(0, i + 1).drop_last() =~= prev);
        let forbidden = c == '/' || c == '\\' || c == ':' || c == '*' || c == '?' || c == '"'
            || c == '<' || c == '>' || c == '|';
        proof {
            let next = cs@.subrange(0, i + 1);
            assert(next.last() == c);
            if !forbidden {
                assert(name_chars(next) == name_chars(prev).push(c));
            } else {
                assert(name_chars(next) == name_chars(prev));
            }
        }
        if !forbidden {
            proof {
                lemma_first_n_push(name_chars(prev), c, 255);
            }
            if out.len() < 255 {
                out.push(c);
            }
        }
        i += 1;
    }
    assert(cs@.subrange(0, i as int) =~= cs@);
    if out.len() == 0 {
        String::from_str("unknown")
    } else {
        string_from_chars(&out)
    }
}

/// The storage directory for a MIME type: `image`, `video`, `audio`,
/// `document` for text and JSON, `other` for the rest.
pub fn categorize_content_type(content_type: &str) -> (r: &'static str)
    ensures
        r@ == content_category(content_type@),
{
    let lower = lowercase(content_type);
    let t = chars_of(lower.as_str());
    if starts_with(&t, &chars_of("image/")) {
        "image"
    } else if starts_with(&t, &chars_of("video/")) {
        "video"
    } else if starts_with(&t, &chars_of("audio/")) {
        "audio"
    } else if starts_with(&t, &chars_of("text/")) || contains(&t, &chars_of("json")) {
        "document"
    } else {
        "other"
    }
}

/// The storage key of a file uploaded on the day written `date`.
pub fn storage_key_for(
    user_role: &UserRole,
    user_id: &str,
    file_name: &str,
    content_type: &str,
    date: &str,
) -> (r: String)
    ensures
        r@ == storage_key(*user_role, user_id@, file_name@, content_type@, date@),
{
    let mut key = sanitize_path_component(user_role.as_str());
    key.append("/");
    key.append(sanitize_path_component(user_id).as_str());
    key.append("/");
    key.append(date);
    key.append("/");
    key.append(categorize_content_type(content_type));
    key.append("/");
    key.append(sanitize_filename(file_name).as_str());
    assert(key@ =~= storage_key(*user_role, user_id@, file_name@, content_type@, date@));
    key
}

/// The storage key of a file uploaded today (UTC), with the date written
/// as `YYYYMMDD`.
pub fn generate_r2_key(user_role: &UserRole, user_id: &str, file_name: &str, content_type: &str) -> (r:
    String)
    ensures
        exists|date: Seq<char>| r@ == storage_key(*user_role, user_id@, file_name@, content_type@, date),
{
    let date = utc_date_stamp();
    storage_key_for(user_role, user_id, file_name, content_type, date.as_str())
}

/// A session identifier: the current time in milliseconds, a hyphen, and a
/// random UUID in hyphenated form.
pub fn generate_unique_identifier() -> (r: String)
    ensures
        exists|millis: i64, uuid: Seq<char>|
            uuid.len() == 36 && r@ == signed_decimal(millis as int) + "-"@ + uuid,
{
    let uuid = new_uuid();
    let millis = now_millis();
    let mut id = String::new();
    push_signed_decimal(&mut id, millis);
    id.append("-");
    id.append(uuid.as_str());
    assert(id@ =~= signed_decimal(millis as int) + "-"@ + uuid@);
    id
}

} // verus!
