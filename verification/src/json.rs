//! The library's model of a JSON document, and the trusted bridge from raw
//! bytes to that model.

use vstd::prelude::*;

verus! {

/// A JSON document as the decoder sees it.
///
/// The status document only ever carries strings, booleans, non-negative
/// integers, objects and arrays in the fields the decoder reads, so a number
/// that does not fit `u64` (negative or fractional) is kept only as
/// [`Json::OtherNum`]: enough to know it is a number of no expected type.
/// Object members are held as a list of name-value pairs and read by name;
/// a document parsed through serde_json arrives with its members sorted by
/// name and one value per name.
#[derive(Debug, PartialEq)]
pub enum Json {
    Null,
    Bool(bool),
    Num(u64),
    OtherNum,
    Str(String),
    Arr(Vec<Json>),
    Obj(Vec<(String, Json)>),
}

/// The value of the first member of `es` named `key`, if any.
pub open spec fn lookup(es: Seq<(String, Json)>, key: Seq<char>) -> Option<Json>
    decreases es.len(),
{
    if es.len() == 0 {
        None
    } else if es[0].0@ == key {
        Some(es[0].1)
    } else {
        lookup(es.subrange(1, es.len() as int), key)
    }
}

/// `lookup` ignores a prefix whose member names all differ from the key.
pub proof fn lemma_lookup_skip(es: Seq<(String, Json)>, key: Seq<char>, i: int)
    requires
        0 <= i <= es.len(),
        forall|j: int| 0 <= j < i ==> es[j].0@ != key,
    ensures
        lookup(es, key) == lookup(es.subrange(i, es.len() as int), key),
    decreases i,
{
    if i > 0 {
        let rest = es.subrange(1, es.len() as int);
        assert(forall|j: int| 0 <= j < i - 1 ==> rest[j].0@ != key);
        lemma_lookup_skip(rest, key, i - 1);
        assert(rest.subrange(i - 1, rest.len() as int) =~= es.subrange(i, es.len() as int));
        assert(es[0].0@ != key);
        assert(lookup(es, key) == lookup(rest, key));
    } else {
        assert(es.subrange(0, es.len() as int) =~= es);
    }
}

/// How `lookup` behaves on a sequence extended by one member: an existing
/// binding is untouched, and a key that was unbound now maps to the new value
/// exactly when it is the new member's name.
pub proof fn lemma_lookup_push(es: Seq<(String, Json)>, e: (String, Json))
    ensures
        forall|q: Seq<char>|
            #[trigger] lookup(es.push(e), q) == (if lookup(es, q) is Some {
                lookup(es, q)
            } else if e.0@ == q {
                Some(e.1)
            } else {
                None
            }),
    decreases es.len(),
{
    let with_e = es.push(e);
    if es.len() == 0 {
        assert forall|q: Seq<char>|
            #[trigger] lookup(with_e, q) == (if lookup(es, q) is Some {
                lookup(es, q)
            } else if e.0@ == q {
                Some(e.1)
            } else {
                None
            }) by {
            assert(with_e.len() == 1);
            assert(with_e[0] == e);
            assert(with_e.subrange(1, with_e.len() as int) =~= Seq::<(String, Json)>::empty());
            assert(lookup(with_e.subrange(1, with_e.len() as int), q) is None);
            assert(lookup(es, q) is None);
        }
    } else {
        let rest = es.subrange(1, es.len() as int);
        lemma_lookup_push(rest, e);
        assert forall|q: Seq<char>|
            #[trigger] lookup(with_e, q) == (if lookup(es, q) is Some {
                lookup(es, q)
            } else if e.0@ == q {
                Some(e.1)
            } else {
                None
            }) by {
            assert(with_e.subrange(1, with_e.len() as int) =~= rest.push(e));
            assert(with_e[0] == es[0]);
            assert(lookup(with_e, q) == (if with_e[0].0@ == q {
                Some(with_e[0].1)
            } else {
                lookup(rest.push(e), q)
            }));
            assert(lookup(es, q) == (if es[0].0@ == q {
                Some(es[0].1)
            } else {
                lookup(rest, q)
            }));
        }
    }
}

/// `lookup` is blind to a member inserted anywhere under a different name.
pub proof fn lemma_lookup_insert(es: Seq<(String, Json)>, i: int, e: (String, Json))
    requires
        0 <= i <= es.len(),
    ensures
        forall|q: Seq<char>|
            q != e.0@ ==> #[trigger] lookup(es.insert(i, e), q) == lookup(es, q),
    decreases es.len(),
{
    let with_e = es.insert(i, e);
    if i == 0 {
        assert forall|q: Seq<char>|
            q != e.0@ implies #[trigger] lookup(with_e, q) == lookup(es, q) by {
            assert(with_e[0] == e);
            assert(with_e.subrange(1, with_e.len() as int) =~= es);
        }
    } else {
        let rest = es.subrange(1, es.len() as int);
        lemma_lookup_insert(rest, i - 1, e);
        assert forall|q: Seq<char>|
            q != e.0@ implies #[trigger] lookup(with_e, q) == lookup(es, q) by {
            assert(with_e[0] == es[0]);
            assert(with_e.subrange(1, with_e.len() as int) =~= rest.insert(i - 1, e));
            assert(lookup(with_e, q) == (if with_e[0].0@ == q {
                Some(with_e[0].1)
            } else {
                lookup(rest.insert(i - 1, e), q)
            }));
            assert(lookup(es, q) == (if es[0].0@ == q {
                Some(es[0].1)
            } else {
                lookup(rest, q)
            }));
        }
    }
}

/// Find the first member of `fields` named `name`.
pub fn find_field<'a>(fields: &'a Vec<(String, Json)>, name: &str) -> (r: Option<&'a Json>)
    ensures
        match r {
            Some(j) => lookup(fields@, name@) == Some(*j),
            None => lookup(fields@, name@) is None,
        },
{
    let name_s: String = name.to_owned();
    let mut i: usize = 0;
    while i < fields.len()
        invariant
            i <= fields@.len(),
            name_s@ == name@,
            forall|j: int| 0 <= j < i ==> fields@[j].0@ != name@,
        decreases fields@.len() - i,
    {
        if fields[i].0 == name_s {
            proof {
                lemma_lookup_skip(fields@, name@, i as int);
                assert(fields@.subrange(i as int, fields@.len() as int)[0] == fields@[i as int]);
            }
            return Some(&fields[i].1);
        }
        i += 1;
    }
    proof {
        lemma_lookup_skip(fields@, name@, fields@.len() as int);
        assert(fields@.subrange(fields@.len() as int, fields@.len() as int)
            =~= Seq::<(String, Json)>::empty());
    }
    None
}

#[verifier::external_type_specification]
#[verifier::external_body]
pub struct ExValue(serde_json::Value);

/// What `serde_json::from_slice::<serde_json::Value>` yields on a byte
/// sequence, carried into the library's model: `None` exactly when the bytes
/// are not a valid JSON document. Parsing depends on the bytes alone.
pub uninterp spec fn json_of_text(bytes: Seq<u8>) -> Option<Json>;

/// The library's model of a `serde_json::Value`: each variant of the tree
/// mapped to the matching [`Json`] variant.
pub uninterp spec fn value_model(v: serde_json::Value) -> Json;

/// Relies on `serde_json::from_slice`: it parses the bytes as one JSON
/// document, deterministically, and errs exactly when they are not valid JSON.
#[verifier::external_body]
fn parse_value(bytes: &[u8]) -> (r: Option<serde_json::Value>)
    ensures
        match r {
            Some(v) => json_of_text(bytes@) == Some(value_model(v)),
            None => json_of_text(bytes@) is None,
        },
{
    serde_json::from_slice::<serde_json::Value>(bytes).ok()
}

/// Relies on `serde_json::Value` being a plain data tree: each variant is
/// carried to the matching [`Json`] variant, member for member; a number that
/// does not fit `u64` becomes [`Json::OtherNum`].
#[verifier::external_body]
fn value_to_json(v: &serde_json::Value) -> (r: Json)
    ensures
        r == value_model(*v),
{
    match v {
        serde_json::Value::Null => Json::Null,
        serde_json::Value::Bool(b) => Json::Bool(*b),
        serde_json::Value::Number(n) => match n.as_u64() {
            Some(u) => Json::Num(u),
            None => Json::OtherNum,
        },
        serde_json::Value::String(s) => Json::Str(s.clone()),
        serde_json::Value::Array(a) => Json::Arr(a.iter().map(value_to_json).collect()),
        serde_json::Value::Object(m) => Json::Obj(
            m.iter().map(|(k, x)| (k.clone(), value_to_json(x))).collect(),
        ),
    }
}

/// Parse a byte string as one JSON document into the library's model.
pub fn parse_json(bytes: &[u8]) -> (r: Option<Json>)
    ensures
        r == json_of_text(bytes@),
{
    match parse_value(bytes) {
        Some(v) => Some(value_to_json(&v)),
        None => None,
    }
}

} // verus!
