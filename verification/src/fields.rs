//! Field-level decode rules shared by the server-stats and source objects:
//! exact-name lookup, required and optional fields, no type coercion.

use vstd::prelude::*;
use crate::json::{Json, lookup, lemma_lookup_push};
use crate::errors::{DecodeError, DecodeErrorModel};

verus! {

/// Whether a string is a well-formed RFC 3339 date-time.
pub uninterp spec fn rfc3339_valid(s: Seq<char>) -> bool;

/// Relies on chrono's `DateTime::parse_from_rfc3339`: whether a string parses
/// as an RFC 3339 date-time is a function of its characters alone.
#[verifier::external_body]
pub fn is_rfc3339(s: &str) -> (r: bool)
    ensures
        r == rfc3339_valid(s@),
{
    chrono::DateTime::parse_from_rfc3339(s).is_ok()
}

/// The error, if any, of a required string field: absent is `MissingField`,
/// present with any non-string value is `TypeMismatch`.
pub open spec fn req_str_check(fs: Seq<(String, Json)>, name: Seq<char>) -> Option<
    DecodeErrorModel,
> {
    match lookup(fs, name) {
        Option::None => Some(DecodeErrorModel::MissingField(name)),
        Option::Some(j) => match j {
            Json::Str(_) => None,
            _ => Some(DecodeErrorModel::TypeMismatch(name, "string"@)),
        },
    }
}

/// The value of a required string field, meaningful when its check passes.
pub open spec fn req_str_val(fs: Seq<(String, Json)>, name: Seq<char>) -> Seq<char> {
    match lookup(fs, name) {
        Option::Some(Json::Str(s)) => s@,
        _ => Seq::empty(),
    }
}

/// The error, if any, of an optional string field: absent is fine, present
/// with any non-string value is `TypeMismatch`.
pub open spec fn opt_str_check(fs: Seq<(String, Json)>, name: Seq<char>) -> Option<
    DecodeErrorModel,
> {
    match lookup(fs, name) {
        Option::None => None,
        Option::Some(j) => match j {
            Json::Str(_) => None,
            _ => Some(DecodeErrorModel::TypeMismatch(name, "string"@)),
        },
    }
}

/// The value of an optional string field: `None` exactly when it is absent.
pub open spec fn opt_str_val(fs: Seq<(String, Json)>, name: Seq<char>) -> Option<Seq<char>> {
    match lookup(fs, name) {
        Option::Some(Json::Str(s)) => Some(s@),
        _ => None,
    }
}

/// The error, if any, of an optional non-negative counter that must fit `u32`.
pub open spec fn opt_u32_check(fs: Seq<(String, Json)>, name: Seq<char>) -> Option<
    DecodeErrorModel,
> {
    match lookup(fs, name) {
        Option::None => None,
        Option::Some(j) => match j {
            Json::Num(n) => if n <= u32::MAX as u64 {
                None
            } else {
                Some(DecodeErrorModel::TypeMismatch(name, "u32"@))
            },
            _ => Some(DecodeErrorModel::TypeMismatch(name, "u32"@)),
        },
    }
}

/// The value of an optional `u32` field: `None` exactly when it is absent.
pub open spec fn opt_u32_val(fs: Seq<(String, Json)>, name: Seq<char>) -> Option<u32> {
    match lookup(fs, name) {
        Option::Some(Json::Num(n)) => Some(n as u32),
        _ => None,
    }
}

/// The error, if any, of an optional non-negative counter that must fit `u8`.
pub open spec fn opt_u8_check(fs: Seq<(String, Json)>, name: Seq<char>) -> Option<
    DecodeErrorModel,
> {
    match lookup(fs, name) {
        Option::None => None,
        Option::Some(j) => match j {
            Json::Num(n) => if n <= u8::MAX as u64 {
                None
            } else {
                Some(DecodeErrorModel::TypeMismatch(name, "u8"@))
            },
            _ => Some(DecodeErrorModel::TypeMismatch(name, "u8"@)),
        },
    }
}

/// The value of an optional `u8` field: `None` exactly when it is absent.
pub open spec fn opt_u8_val(fs: Seq<(String, Json)>, name: Seq<char>) -> Option<u8> {
    match lookup(fs, name) {
        Option::Some(Json::Num(n)) => Some(n as u8),
        _ => None,
    }
}

/// The error, if any, of a required timestamp field. It must be a string; in
/// strict mode it must also parse as an RFC 3339 date-time.
pub open spec fn req_ts_check(fs: Seq<(String, Json)>, name: Seq<char>, strict: bool) -> Option<
    DecodeErrorModel,
> {
    match lookup(fs, name) {
        Option::None => Some(DecodeErrorModel::MissingField(name)),
        Option::Some(j) => match j {
            Json::Str(s) => if strict && !rfc3339_valid(s@) {
                Some(DecodeErrorModel::TypeMismatch(name, "rfc3339 timestamp"@))
            } else {
                None
            },
            _ => Some(DecodeErrorModel::TypeMismatch(name, "string"@)),
        },
    }
}

/// The error, if any, of an optional timestamp field.
pub open spec fn opt_ts_check(fs: Seq<(String, Json)>, name: Seq<char>, strict: bool) -> Option<
    DecodeErrorModel,
> {
    match lookup(fs, name) {
        Option::None => None,
        Option::Some(j) => match j {
            Json::Str(s) => if strict && !rfc3339_valid(s@) {
                Some(DecodeErrorModel::TypeMismatch(name, "rfc3339 timestamp"@))
            } else {
                None
            },
            _ => Some(DecodeErrorModel::TypeMismatch(name, "string"@)),
        },
    }
}

/// Decode a required string field.
pub fn get_req_string(fs: &Vec<(String, Json)>, name: &str) -> (r: Result<String, DecodeError>)
    ensures
        match r {
            Ok(s) => req_str_check(fs@, name@) is None && s@ == req_str_val(fs@, name@),
            Err(e) => req_str_check(fs@, name@) == Some(e@),
        },
{
    match crate::json::find_field(fs, name) {
        Some(Json::Str(s)) => Ok(s.clone()),
        Some(_) => Err(
            DecodeError::TypeMismatch { name: name.to_owned(), expected: "string".to_owned() },
        ),
        None => Err(DecodeError::MissingField { name: name.to_owned() }),
    }
}

/// Decode an optional string field.
pub fn get_opt_string(fs: &Vec<(String, Json)>, name: &str) -> (r: Result<
    Option<String>,
    DecodeError,
>)
    ensures
        match r {
            Ok(o) => opt_str_check(fs@, name@) is None && (match o {
                Some(s) => opt_str_val(fs@, name@) == Some(s@),
                None => opt_str_val(fs@, name@) is None,
            }),
            Err(e) => opt_str_check(fs@, name@) == Some(e@),
        },
{
    match crate::json::find_field(fs, name) {
        Some(Json::Str(s)) => Ok(Some(s.clone())),
        Some(_) => Err(
            DecodeError::TypeMismatch { name: name.to_owned(), expected: "string".to_owned() },
        ),
        None => Ok(None),
    }
}

/// Decode an optional `u32` counter field.
pub fn get_opt_u32(fs: &Vec<(String, Json)>, name: &str) -> (r: Result<Option<u32>, DecodeError>)
    ensures
        match r {
            Ok(o) => opt_u32_check(fs@, name@) is None && o == opt_u32_val(fs@, name@),
            Err(e) => opt_u32_check(fs@, name@) == Some(e@),
        },
{
    match crate::json::find_field(fs, name) {
        None => Ok(None),
        Some(Json::Num(n)) => if *n <= u32::MAX as u64 {
            Ok(Some(*n as u32))
        } else {
            Err(DecodeError::TypeMismatch { name: name.to_owned(), expected: "u32".to_owned() })
        },
        Some(_) => Err(
            DecodeError::TypeMismatch { name: name.to_owned(), expected: "u32".to_owned() },
        ),
    }
}

/// Decode an optional `u8` counter field.
pub fn get_opt_u8(fs: &Vec<(String, Json)>, name: &str) -> (r: Result<Option<u8>, DecodeError>)
    ensures
        match r {
            Ok(o) => opt_u8_check(fs@, name@) is None && o == opt_u8_val(fs@, name@),
            Err(e) => opt_u8_check(fs@, name@) == Some(e@),
        },
{
    match crate::json::find_field(fs, name) {
        None => Ok(None),
        Some(Json::Num(n)) => if *n <= u8::MAX as u64 {
            Ok(Some(*n as u8))
        } else {
            Err(DecodeError::TypeMismatch { name: name.to_owned(), expected: "u8".to_owned() })
        },
        Some(_) => Err(
            DecodeError::TypeMismatch { name: name.to_owned(), expected: "u8".to_owned() },
        ),
    }
}

/// Decode a required timestamp field, strictly or as a raw string.
pub fn get_req_timestamp(fs: &Vec<(String, Json)>, name: &str, strict: bool) -> (r: Result<
    String,
    DecodeError,
>)
    ensures
        match r {
            Ok(s) => req_ts_check(fs@, name@, strict) is None && s@ == req_str_val(fs@, name@),
            Err(e) => req_ts_check(fs@, name@, strict) == Some(e@),
        },
{
    match crate::json::find_field(fs, name) {
        Some(Json::Str(s)) => if strict && !is_rfc3339(s.as_str()) {
            Err(
                DecodeError::TypeMismatch {
                    name: name.to_owned(),
                    expected: "rfc3339 timestamp".to_owned(),
                },
            )
        } else {
            Ok(s.clone())
        },
        Some(_) => Err(
            DecodeError::TypeMismatch { name: name.to_owned(), expected: "string".to_owned() },
        ),
        None => Err(DecodeError::MissingField { name: name.to_owned() }),
    }
}

/// Decode an optional timestamp field, strictly or as a raw string.
pub fn get_opt_timestamp(fs: &Vec<(String, Json)>, name: &str, strict: bool) -> (r: Result<
    Option<String>,
    DecodeError,
>)
    ensures
        match r {
            Ok(o) => opt_ts_check(fs@, name@, strict) is None && (match o {
                Some(s) => opt_str_val(fs@, name@) == Some(s@),
                None => opt_str_val(fs@, name@) is None,
            }),
            Err(e) => opt_ts_check(fs@, name@, strict) == Some(e@),
        },
{
    match crate::json::find_field(fs, name) {
        Some(Json::Str(s)) => if strict && !is_rfc3339(s.as_str()) {
            Err(
                DecodeError::TypeMismatch {
                    name: name.to_owned(),
                    expected: "rfc3339 timestamp".to_owned(),
                },
            )
        } else {
            Ok(Some(s.clone()))
        },
        Some(_) => Err(
            DecodeError::TypeMismatch { name: name.to_owned(), expected: "string".to_owned() },
        ),
        None => Ok(None),
    }
}

/// A present optional string viewed as `Option<Seq<char>>`.
pub open spec fn opt_view(o: Option<String>) -> Option<Seq<char>> {
    match o {
        Some(s) => Some(s@),
        None => None,
    }
}

/// How a lookup table changes when one optional entry is appended: existing
/// bindings are untouched and the entry's own name is now bound exactly when
/// the entry is present.
pub open spec fn pushed_lookup(
    before: Seq<(String, Json)>,
    after: Seq<(String, Json)>,
    name: Seq<char>,
    entry: Option<Json>,
) -> bool {
    forall|q: Seq<char>|
        #[trigger] lookup(after, q) == (if lookup(before, q) is Some {
            lookup(before, q)
        } else if q == name && entry is Some {
            Some(entry->0)
        } else {
            None
        })
}

/// Append an optional string member.
pub fn push_opt_str(es: &mut Vec<(String, Json)>, name: &str, val: &Option<String>)
    ensures
        pushed_lookup(
            old(es)@,
            final(es)@,
            name@,
            match val {
                Some(s) => Some(Json::Str(*s)),
                None => None,
            },
        ),
        final(es)@.len() == old(es)@.len() + (if val is Some {
            1int
        } else {
            0int
        }),
{
    match val {
        Some(x) => {
            let ghost before = es@;
            es.push((name.to_owned(), Json::Str(x.clone())));
            proof {
                lemma_lookup_push(before, es@[es@.len() - 1]);
            }
        },
        None => {},
    }
}

/// Append an optional `u32` member.
pub fn push_opt_u32(es: &mut Vec<(String, Json)>, name: &str, val: &Option<u32>)
    ensures
        pushed_lookup(
            old(es)@,
            final(es)@,
            name@,
            match val {
                Some(n) => Some(Json::Num(*n as u64)),
                None => None,
            },
        ),
        final(es)@.len() == old(es)@.len() + (if val is Some {
            1int
        } else {
            0int
        }),
{
    match val {
        Some(n) => {
            let ghost before = es@;
            es.push((name.to_owned(), Json::Num(*n as u64)));
            proof {
                lemma_lookup_push(before, es@[es@.len() - 1]);
            }
        },
        None => {},
    }
}

/// Append an optional `u8` member.
pub fn push_opt_u8(es: &mut Vec<(String, Json)>, name: &str, val: &Option<u8>)
    ensures
        pushed_lookup(
            old(es)@,
            final(es)@,
            name@,
            match val {
                Some(n) => Some(Json::Num(*n as u64)),
                None => None,
            },
        ),
        final(es)@.len() == old(es)@.len() + (if val is Some {
            1int
        } else {
            0int
        }),
{
    match val {
        Some(n) => {
            let ghost before = es@;
            es.push((name.to_owned(), Json::Num(*n as u64)));
            proof {
                lemma_lookup_push(before, es@[es@.len() - 1]);
            }
        },
        None => {},
    }
}

/// The state of an object under construction from a table of `n` pairwise
/// distinct member names and their planned optional values: the first `k`
/// planned members have been appended (present ones as members, absent ones
/// not at all) and the rest not yet, so a planned name is bound exactly when
/// its entry is present and already appended.
pub open spec fn built_upto(
    es: Seq<(String, Json)>,
    keys: spec_fn(int) -> Seq<char>,
    entries: spec_fn(int) -> Option<Json>,
    n: int,
    k: int,
) -> bool {
    forall|i: int|
        0 <= i < n ==> #[trigger] lookup(es, keys(i)) == (if i < k {
            entries(i)
        } else {
            None
        })
}

/// Appending the `k`-th planned member carries the construction one step.
pub proof fn lemma_built_step(
    before: Seq<(String, Json)>,
    after: Seq<(String, Json)>,
    keys: spec_fn(int) -> Seq<char>,
    entries: spec_fn(int) -> Option<Json>,
    n: int,
    k: int,
)
    requires
        0 <= k < n,
        forall|i: int, j: int|
            #![trigger keys(i), keys(j)]
            0 <= i < n && 0 <= j < n && i != j ==> keys(i) != keys(j),
        built_upto(before, keys, entries, n, k),
        pushed_lookup(before, after, keys(k), entries(k)),
    ensures
        built_upto(after, keys, entries, n, k + 1),
{
    assert forall|i: int|
        0 <= i < n implies #[trigger] lookup(after, keys(i)) == (if i < k + 1 {
        entries(i)
    } else {
        None
    }) by {
        assert(lookup(before, keys(i)) == (if i < k {
            entries(i)
        } else {
            None
        }));
        if i != k {
            assert(keys(i) != keys(k));
        }
    }
}

/// Append a member that is always present.
pub fn push_member(es: &mut Vec<(String, Json)>, name: &str, val: Json)
    ensures
        pushed_lookup(old(es)@, final(es)@, name@, Some(val)),
        final(es)@.len() == old(es)@.len() + 1,
{
    let ghost before = es@;
    es.push((name.to_owned(), val));
    proof {
        lemma_lookup_push(before, es@[es@.len() - 1]);
    }
}

} // verus!
