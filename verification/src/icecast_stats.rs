//! The server-level status document: its typed model, the tolerant decode
//! from the wire document, and the encode back to JSON.

use vstd::prelude::*;
use crate::json::{Json, lookup, parse_json, json_of_text};
use crate::errors::{DecodeError, DecodeErrorModel};
use crate::icecast_source::{
    IcecastStatsSource, SourceModel, source_field_err, source_model_of, decode_source_spec,
    decode_source_obj, decode_source_json,
};
use crate::fields::{
    req_str_check, req_str_val, req_ts_check, opt_u32_check, opt_u32_val, get_req_string,
    get_req_timestamp, get_opt_u32, push_opt_u32, push_member, built_upto, lemma_built_step,
    pushed_lookup,
};

verus! {

/// How timestamp fields are decoded: kept as raw strings, or required to
/// parse as RFC 3339 date-times. Chosen once at the decode entry point, not a
/// runtime branch inside the mapping.
#[derive(Debug, Clone, Copy, PartialEq, Eq)]
pub enum TimestampMode {
    /// Timestamps are opaque strings.
    Raw,
    /// A present timestamp that is not a well-formed RFC 3339 date-time is a
    /// `TypeMismatch`.
    Strict,
}

impl TimestampMode {
    /// Whether this mode holds timestamps to the strict format.
    pub open spec fn is_strict(self) -> bool {
        self is Strict
    }
}

/// The `source` field of the wire document: absent, a single object, or an
/// array of objects. The three cases stay distinguishable; callers that do
/// not care may flatten it themselves.
#[derive(Debug, Clone, PartialEq)]
pub enum IcecastStatsSourceEnum {
    Single(IcecastStatsSource),
    Multiple(Vec<IcecastStatsSource>),
}

/// The mathematical view of the source cardinality.
#[verifier::ext_equal]
pub enum SourceEnumModel {
    Single(SourceModel),
    Multiple(Seq<SourceModel>),
}

/// The views of a sequence of sources, in order.
pub open spec fn source_views(v: Seq<IcecastStatsSource>) -> Seq<SourceModel> {
    Seq::new(v.len(), |i: int| v[i]@)
}

impl View for IcecastStatsSourceEnum {
    type V = SourceEnumModel;

    open spec fn view(&self) -> SourceEnumModel {
        match self {
            IcecastStatsSourceEnum::Single(s) => SourceEnumModel::Single(s@),
            IcecastStatsSourceEnum::Multiple(v) => SourceEnumModel::Multiple(source_views(v@)),
        }
    }
}

/// A snapshot of server-wide counters and identity fields, decoded from one
/// status document. Immutable once decoded; a new fetch yields a new value.
#[derive(Debug, Clone, PartialEq)]
pub struct IcecastStats {
    admin: String,
    client_connections: Option<u32>,
    clients: Option<u32>,
    connections: Option<u32>,
    file_connections: Option<u32>,
    host: String,
    listener_connections: Option<u32>,
    listeners: Option<u32>,
    location: String,
    server_id: String,
    source_client_connections: Option<u32>,
    source_relay_connections: Option<u32>,
    source_total_connections: Option<u32>,
    sources: Option<u32>,
    stats: Option<u32>,
    stats_connections: Option<u32>,
    server_start_iso8601: String,
    /// The active streaming sources, in wire order.
    pub source: Option<IcecastStatsSourceEnum>,
}

/// The mathematical view of a server-stats snapshot.
#[verifier::ext_equal]
pub struct StatsModel {
    pub admin: Seq<char>,
    pub client_connections: Option<u32>,
    pub clients: Option<u32>,
    pub connections: Option<u32>,
    pub file_connections: Option<u32>,
    pub host: Seq<char>,
    pub listener_connections: Option<u32>,
    pub listeners: Option<u32>,
    pub location: Seq<char>,
    pub server_id: Seq<char>,
    pub source_client_connections: Option<u32>,
    pub source_relay_connections: Option<u32>,
    pub source_total_connections: Option<u32>,
    pub sources: Option<u32>,
    pub stats: Option<u32>,
    pub stats_connections: Option<u32>,
    pub server_start_iso8601: Seq<char>,
    pub source: Option<SourceEnumModel>,
}

impl View for IcecastStats {
    type V = StatsModel;

    closed spec fn view(&self) -> StatsModel {
        StatsModel {
            admin: self.admin@,
            client_connections: self.client_connections,
            clients: self.clients,
            connections: self.connections,
            file_connections: self.file_connections,
            host: self.host@,
            listener_connections: self.listener_connections,
            listeners: self.listeners,
            location: self.location@,
            server_id: self.server_id@,
            source_client_connections: self.source_client_connections,
            source_relay_connections: self.source_relay_connections,
            source_total_connections: self.source_total_connections,
            sources: self.sources,
            stats: self.stats,
            stats_connections: self.stats_connections,
            server_start_iso8601: self.server_start_iso8601@,
            source: match &self.source {
                Some(e) => Some(e@),
                None => None,
            },
        }
    }
}

/// The root wrapper of the wire document: one recognized key, `icestats`.
#[derive(Debug, Clone, PartialEq)]
pub struct IcecastStatsRoot {
    pub icestats: IcecastStats,
}

impl View for IcecastStatsRoot {
    type V = StatsModel;

    open spec fn view(&self) -> StatsModel {
        self.icestats@
    }
}

/// What a sequence of JSON values decodes to as a source list: every element
/// must decode as a source, in order, and the first failing element's error
/// fails the whole list.
pub open spec fn decode_sources_spec(elems: Seq<Json>, strict: bool) -> Result<
    Seq<SourceModel>,
    DecodeErrorModel,
>
    decreases elems.len(),
{
    if elems.len() == 0 {
        Ok(Seq::empty())
    } else {
        match decode_sources_spec(elems.drop_last(), strict) {
            Err(e) => Err(e),
            Ok(ms) => match decode_source_spec(elems.last(), strict) {
                Err(e) => Err(e),
                Ok(m) => Ok(ms.push(m)),
            },
        }
    }
}

/// A failing element fails the whole source list with its own error, whatever
/// follows it.
proof fn lemma_sources_error(elems: Seq<Json>, i: int, strict: bool)
    requires
        0 <= i < elems.len(),
        decode_sources_spec(elems.take(i), strict) is Ok,
        decode_source_spec(elems[i], strict) is Err,
    ensures
        decode_sources_spec(elems, strict) == Err::<Seq<SourceModel>, DecodeErrorModel>(
            decode_source_spec(elems[i], strict)->Err_0,
        ),
    decreases elems.len(),
{
    if elems.len() == i + 1 {
        assert(elems.take(i) =~= elems.drop_last());
        assert(elems.last() == elems[i]);
    } else {
        assert(elems.drop_last().take(i) =~= elems.take(i));
        assert(elems.drop_last()[i] == elems[i]);
        lemma_sources_error(elems.drop_last(), i, strict);
    }
}

/// The first field-level error of the server-stats object: required fields
/// first, then the optional counters, then the `source` field. Unknown
/// fields are ignored.
pub open spec fn stats_field_err(fs: Seq<(String, Json)>, strict: bool) -> Option<
    DecodeErrorModel,
> {
    if req_str_check(fs, "admin"@) is Some {
        req_str_check(fs, "admin"@)
    } else if req_str_check(fs, "host"@) is Some {
        req_str_check(fs, "host"@)
    } else if req_str_check(fs, "location"@) is Some {
        req_str_check(fs, "location"@)
    } else if req_str_check(fs, "server_id"@) is Some {
        req_str_check(fs, "server_id"@)
    } else if req_ts_check(fs, "server_start_iso8601"@, strict) is Some {
        req_ts_check(fs, "server_start_iso8601"@, strict)
    } else if opt_u32_check(fs, "client_connections"@) is Some {
        opt_u32_check(fs, "client_connections"@)
    } else if opt_u32_check(fs, "clients"@) is Some {
        opt_u32_check(fs, "clients"@)
    } else if opt_u32_check(fs, "connections"@) is Some {
        opt_u32_check(fs, "connections"@)
    } else if opt_u32_check(fs, "file_connections"@) is Some {
        opt_u32_check(fs, "file_connections"@)
    } else if opt_u32_check(fs, "listener_connections"@) is Some {
        opt_u32_check(fs, "listener_connections"@)
    } else if opt_u32_check(fs, "listeners"@) is Some {
        opt_u32_check(fs, "listeners"@)
    } else if opt_u32_check(fs, "source_client_connections"@) is Some {
        opt_u32_check(fs, "source_client_connections"@)
    } else if opt_u32_check(fs, "source_relay_connections"@) is Some {
        opt_u32_check(fs, "source_relay_connections"@)
    } else if opt_u32_check(fs, "source_total_connections"@) is Some {
        opt_u32_check(fs, "source_total_connections"@)
    } else if opt_u32_check(fs, "sources"@) is Some {
        opt_u32_check(fs, "sources"@)
    } else if opt_u32_check(fs, "stats"@) is Some {
        opt_u32_check(fs, "stats"@)
    } else if opt_u32_check(fs, "stats_connections"@) is Some {
        opt_u32_check(fs, "stats_connections"@)
    } else {
        source_check(fs, strict)
    }
}

/// The error, if any, of the `source` field: absent is fine, an object or an
/// array is decoded as sources, anything else is a type mismatch.
pub open spec fn source_check(fs: Seq<(String, Json)>, strict: bool) -> Option<DecodeErrorModel> {
    match lookup(fs, "source"@) {
        Option::None => None,
        Option::Some(j) => match j {
            Json::Obj(o) => source_field_err(o@, strict),
            Json::Arr(a) => match decode_sources_spec(a@, strict) {
                Err(e) => Some(e),
                Ok(_) => None,
            },
            _ => Some(DecodeErrorModel::TypeMismatch("source"@, "object or array"@)),
        },
    }
}

/// The source cardinality of the document: `None` when the field is absent,
/// one source for an object, a list in wire order for an array.
pub open spec fn source_val(fs: Seq<(String, Json)>, strict: bool) -> Option<SourceEnumModel> {
    match lookup(fs, "source"@) {
        Option::Some(Json::Obj(o)) => Some(SourceEnumModel::Single(source_model_of(o@))),
        Option::Some(Json::Arr(a)) => match decode_sources_spec(a@, strict) {
            Ok(ms) => Some(SourceEnumModel::Multiple(ms)),
            Err(_) => None,
        },
        _ => None,
    }
}

/// The model the server-stats object decodes to, meaningful when
/// `stats_field_err` is `None`.
pub open spec fn stats_model_of(fs: Seq<(String, Json)>, strict: bool) -> StatsModel {
    StatsModel {
        admin: req_str_val(fs, "admin"@),
        client_connections: opt_u32_val(fs, "client_connections"@),
        clients: opt_u32_val(fs, "clients"@),
        connections: opt_u32_val(fs, "connections"@),
        file_connections: opt_u32_val(fs, "file_connections"@),
        host: req_str_val(fs, "host"@),
        listener_connections: opt_u32_val(fs, "listener_connections"@),
        listeners: opt_u32_val(fs, "listeners"@),
        location: req_str_val(fs, "location"@),
        server_id: req_str_val(fs, "server_id"@),
        source_client_connections: opt_u32_val(fs, "source_client_connections"@),
        source_relay_connections: opt_u32_val(fs, "source_relay_connections"@),
        source_total_connections: opt_u32_val(fs, "source_total_connections"@),
        sources: opt_u32_val(fs, "sources"@),
        stats: opt_u32_val(fs, "stats"@),
        stats_connections: opt_u32_val(fs, "stats_connections"@),
        server_start_iso8601: req_str_val(fs, "server_start_iso8601"@),
        source: source_val(fs, strict),
    }
}

/// What the server-stats object decodes to: its first field-level error, or
/// its model.
pub open spec fn decode_fields_spec(fs: Seq<(String, Json)>, strict: bool) -> Result<
    StatsModel,
    DecodeErrorModel,
> {
    match stats_field_err(fs, strict) {
        Some(e) => Err(e),
        None => Ok(stats_model_of(fs, strict)),
    }
}

/// What one JSON document decodes to: the wrapper key `icestats` must be
/// present and hold an object, else the shape is not the status document's.
pub open spec fn decode_doc_spec(j: Json, strict: bool) -> Result<StatsModel, DecodeErrorModel> {
    match j {
        Json::Obj(es) => match lookup(es@, "icestats"@) {
            Option::Some(Json::Obj(fs)) => decode_fields_spec(fs@, strict),
            Option::Some(_) => Err(DecodeErrorModel::UnexpectedShape),
            Option::None => Err(DecodeErrorModel::UnexpectedShape),
        },
        _ => Err(DecodeErrorModel::UnexpectedShape),
    }
}

/// What a byte string decodes to: bytes that are not valid JSON are
/// `Malformed`, a valid document decodes by `decode_doc_spec`.
pub open spec fn decode_bytes_spec(bytes: Seq<u8>, strict: bool) -> Result<
    StatsModel,
    DecodeErrorModel,
> {
    match json_of_text(bytes) {
        Option::None => Err(DecodeErrorModel::Malformed),
        Option::Some(j) => decode_doc_spec(j, strict),
    }
}

/// Decode a JSON array as a source list, in order, failing on the first
/// element that is not a well-formed source.
fn decode_source_list(a: &Vec<Json>, strict: bool) -> (r: Result<
    Vec<IcecastStatsSource>,
    DecodeError,
>)
    ensures
        match r {
            Ok(v) => decode_sources_spec(a@, strict) == Ok::<Seq<SourceModel>, DecodeErrorModel>(
                source_views(v@),
            ),
            Err(e) => decode_sources_spec(a@, strict) == Err::<Seq<SourceModel>, DecodeErrorModel>(
                e@,
            ),
        },
{
    let mut v: Vec<IcecastStatsSource> = Vec::new();
    let mut i: usize = 0;
    proof {
        assert(a@.take(0) =~= Seq::<Json>::empty());
        assert(source_views(v@) =~= Seq::<SourceModel>::empty());
    }
    while i < a.len()
        invariant
            i <= a@.len(),
            v@.len() == i,
            decode_sources_spec(a@.take(i as int), strict) == Ok::<
                Seq<SourceModel>,
                DecodeErrorModel,
            >(source_views(v@)),
        decreases a@.len() - i,
    {
        let s = match decode_source_json(&a[i], strict) {
            Ok(s) => s,
            Err(e) => {
                proof {
                    lemma_sources_error(a@, i as int, strict);
                }
                return Err(e);
            },
        };
        let ghost old_views = source_views(v@);
        v.push(s);
        proof {
            assert(a@.take(i + 1 as int).drop_last() =~= a@.take(i as int));
            assert(a@.take(i + 1 as int).last() == a@[i as int]);
            assert(source_views(v@) =~= old_views.push(s@));
        }
        i += 1;
    }
    proof {
        assert(a@.take(a@.len() as int) =~= a@);
    }
    Ok(v)
}

/// Decode the members of the server-stats object: required fields by exact
/// name, optional counters left `None` when absent, the `source` field by its
/// cardinality; the first failing field's error fails the decode.
fn decode_fields(fs: &Vec<(String, Json)>, strict: bool) -> (r: Result<IcecastStats, DecodeError>)
    ensures
        match r {
            Ok(s) => stats_field_err(fs@, strict) is None && s@ =~= stats_model_of(fs@, strict),
            Err(e) => stats_field_err(fs@, strict) == Some(e@),
        },
{
    let admin = match get_req_string(fs, "admin") {
        Ok(v) => v,
        Err(e) => return Err(e),
    };
    let host = match get_req_string(fs, "host") {
        Ok(v) => v,
        Err(e) => return Err(e),
    };
    let location = match get_req_string(fs, "location") {
        Ok(v) => v,
        Err(e) => return Err(e),
    };
    let server_id = match get_req_string(fs, "server_id") {
        Ok(v) => v,
        Err(e) => return Err(e),
    };
    let server_start_iso8601 = match get_req_timestamp(fs, "server_start_iso8601", strict) {
        Ok(v) => v,
        Err(e) => return Err(e),
    };
    let client_connections = match get_opt_u32(fs, "client_connections") {
        Ok(v) => v,
        Err(e) => return Err(e),
    };
    let clients = match get_opt_u32(fs, "clients") {
        Ok(v) => v,
        Err(e) => return Err(e),
    };
    let connections = match get_opt_u32(fs, "connections") {
        Ok(v) => v,
        Err(e) => return Err(e),
    };
    let file_connections = match get_opt_u32(fs, "file_connections") {
        Ok(v) => v,
        Err(e) => return Err(e),
    };
    let listener_connections = match get_opt_u32(fs, "listener_connections") {
        Ok(v) => v,
        Err(e) => return Err(e),
    };
    let listeners = match get_opt_u32(fs, "listeners") {
        Ok(v) => v,
        Err(e) => return Err(e),
    };
    let source_client_connections = match get_opt_u32(fs, "source_client_connections") {
        Ok(v) => v,
        Err(e) => return Err(e),
    };
    let source_relay_connections = match get_opt_u32(fs, "source_relay_connections") {
        Ok(v) => v,
        Err(e) => return Err(e),
    };
    let source_total_connections = match get_opt_u32(fs, "source_total_connections") {
        Ok(v) => v,
        Err(e) => return Err(e),
    };
    let sources = match get_opt_u32(fs, "sources") {
        Ok(v) => v,
        Err(e) => return Err(e),
    };
    let stats = match get_opt_u32(fs, "stats") {
        Ok(v) => v,
        Err(e) => return Err(e),
    };
    let stats_connections = match get_opt_u32(fs, "stats_connections") {
        Ok(v) => v,
        Err(e) => return Err(e),
    };
    let source: Option<IcecastStatsSourceEnum> = match crate::json::find_field(fs, "source") {
        None => None,
        Some(j) => match j {
            Json::Obj(o) => match decode_source_obj(o, strict) {
                Ok(s) => Some(IcecastStatsSourceEnum::Single(s)),
                Err(e) => return Err(e),
            },
            Json::Arr(a) => match decode_source_list(a, strict) {
                Ok(v) => Some(IcecastStatsSourceEnum::Multiple(v)),
                Err(e) => return Err(e),
            },
            _ => {
                return Err(
                    DecodeError::TypeMismatch {
                        name: "source".to_owned(),
                        expected: "object or array".to_owned(),
                    },
                );
            },
        },
    };
    Ok(
        IcecastStats {
            admin,
            client_connections,
            clients,
            connections,
            file_connections,
            host,
            listener_connections,
            listeners,
            location,
            server_id,
            source_client_connections,
            source_relay_connections,
            source_total_connections,
            sources,
            stats,
            stats_connections,
            server_start_iso8601,
            source,
        },
    )
}

/// Decode one JSON document as a status document.
pub fn decode_doc(j: &Json, mode: TimestampMode) -> (r: Result<IcecastStats, DecodeError>)
    ensures
        match r {
            Ok(s) => decode_doc_spec(*j, mode.is_strict()) == Ok::<StatsModel, DecodeErrorModel>(
                s@,
            ),
            Err(e) => decode_doc_spec(*j, mode.is_strict()) == Err::<StatsModel, DecodeErrorModel>(
                e@,
            ),
        },
{
    let strict: bool = match mode {
        TimestampMode::Strict => true,
        TimestampMode::Raw => false,
    };
    match j {
        Json::Obj(es) => match crate::json::find_field(es, "icestats") {
            Some(Json::Obj(fs)) => decode_fields(fs, strict),
            Some(_) => Err(DecodeError::UnexpectedShape),
            None => Err(DecodeError::UnexpectedShape),
        },
        _ => Err(DecodeError::UnexpectedShape),
    }
}

/// Decode a byte string as a status document: parse it as JSON, unwrap the
/// `icestats` wrapper, and map the fields. Pure and total: every input yields
/// a model or a classified error, and no absent field is ever defaulted.
pub fn decode(bytes: &[u8], mode: TimestampMode) -> (r: Result<IcecastStats, DecodeError>)
    ensures
        match r {
            Ok(s) => decode_bytes_spec(bytes@, mode.is_strict()) == Ok::<
                StatsModel,
                DecodeErrorModel,
            >(s@),
            Err(e) => decode_bytes_spec(bytes@, mode.is_strict()) == Err::<
                StatsModel,
                DecodeErrorModel,
            >(e@),
        },
{
    match parse_json(bytes) {
        None => Err(DecodeError::Malformed),
        Some(j) => decode_doc(&j, mode),
    }
}

/// The name of the planned member at each position of the encoder's fixed
/// order; the last position is the `source` member, appended separately.
pub open spec fn stats_key(i: int) -> Seq<char> {
    if i == 0 {
        "admin"@
    } else if i == 1 {
        "host"@
    } else if i == 2 {
        "location"@
    } else if i == 3 {
        "server_id"@
    } else if i == 4 {
        "server_start_iso8601"@
    } else if i == 5 {
        "client_connections"@
    } else if i == 6 {
        "clients"@
    } else if i == 7 {
        "connections"@
    } else if i == 8 {
        "file_connections"@
    } else if i == 9 {
        "listener_connections"@
    } else if i == 10 {
        "listeners"@
    } else if i == 11 {
        "source_client_connections"@
    } else if i == 12 {
        "source_relay_connections"@
    } else if i == 13 {
        "source_total_connections"@
    } else if i == 14 {
        "sources"@
    } else if i == 15 {
        "stats"@
    } else if i == 16 {
        "stats_connections"@
    } else {
        "source"@
    }
}

/// The member each scalar position contributes for a given snapshot:
/// required fields always, optional counters only when present.
pub closed spec fn stats_entry(s: &IcecastStats, i: int) -> Option<Json> {
    if i == 0 {
        Some(Json::Str(s.admin))
    } else if i == 1 {
        Some(Json::Str(s.host))
    } else if i == 2 {
        Some(Json::Str(s.location))
    } else if i == 3 {
        Some(Json::Str(s.server_id))
    } else if i == 4 {
        Some(Json::Str(s.server_start_iso8601))
    } else if i == 5 {
        if s.client_connections is Some { Some(Json::Num(s.client_connections->0 as u64)) } else { None }
    } else if i == 6 {
        if s.clients is Some { Some(Json::Num(s.clients->0 as u64)) } else { None }
    } else if i == 7 {
        if s.connections is Some { Some(Json::Num(s.connections->0 as u64)) } else { None }
    } else if i == 8 {
        if s.file_connections is Some { Some(Json::Num(s.file_connections->0 as u64)) } else { None }
    } else if i == 9 {
        if s.listener_connections is Some { Some(Json::Num(s.listener_connections->0 as u64)) } else { None }
    } else if i == 10 {
        if s.listeners is Some { Some(Json::Num(s.listeners->0 as u64)) } else { None }
    } else if i == 11 {
        if s.source_client_connections is Some { Some(Json::Num(s.source_client_connections->0 as u64)) } else { None }
    } else if i == 12 {
        if s.source_relay_connections is Some { Some(Json::Num(s.source_relay_connections->0 as u64)) } else { None }
    } else if i == 13 {
        if s.source_total_connections is Some { Some(Json::Num(s.source_total_connections->0 as u64)) } else { None }
    } else if i == 14 {
        if s.sources is Some { Some(Json::Num(s.sources->0 as u64)) } else { None }
    } else if i == 15 {
        if s.stats is Some { Some(Json::Num(s.stats->0 as u64)) } else { None }
    } else if i == 16 {
        if s.stats_connections is Some { Some(Json::Num(s.stats_connections->0 as u64)) } else { None }
    } else {
        None
    }
}

/// The planned member names, as one table.
pub closed spec fn stats_keys_fn() -> spec_fn(int) -> Seq<char> {
    |i: int| stats_key(i)
}

/// The planned scalar members of a given snapshot, as one table.
pub closed spec fn stats_entries_fn(s: &IcecastStats) -> spec_fn(int) -> Option<Json> {
    |i: int| stats_entry(s, i)
}

/// The planned member names are pairwise distinct.
#[verifier::rlimit(100)]
pub proof fn lemma_stats_keys_distinct()
    ensures
        forall|i: int, j: int|
            #![trigger stats_key(i), stats_key(j)]
            0 <= i < 18 && 0 <= j < 18 && i != j ==> stats_key(i) != stats_key(j),
{
    broadcast use vstd::string::group_string_axioms;

    reveal_strlit("admin");
    reveal_strlit("host");
    reveal_strlit("location");
    reveal_strlit("server_id");
    reveal_strlit("server_start_iso8601");
    reveal_strlit("client_connections");
    reveal_strlit("clients");
    reveal_strlit("connections");
    reveal_strlit("file_connections");
    reveal_strlit("listener_connections");
    reveal_strlit("listeners");
    reveal_strlit("source_client_connections");
    reveal_strlit("source_relay_connections");
    reveal_strlit("source_total_connections");
    reveal_strlit("sources");
    reveal_strlit("stats");
    reveal_strlit("stats_connections");
    reveal_strlit("source");
    assert("admin"@.len() == 5);
    assert("admin"@[0] == 'a');
    assert("host"@.len() == 4);
    assert("host"@[0] == 'h');
    assert("location"@.len() == 8);
    assert("location"@[0] == 'l');
    assert("location"@[7] == 'n');
    assert("server_id"@.len() == 9);
    assert("server_id"@[0] == 's');
    assert("server_id"@[7] == 'i');
    assert("server_start_iso8601"@.len() == 20);
    assert("server_start_iso8601"@[0] == 's');
    assert("server_start_iso8601"@[7] == 's');
    assert("client_connections"@.len() == 18);
    assert("client_connections"@[0] == 'c');
    assert("client_connections"@[7] == 'c');
    assert("clients"@.len() == 7);
    assert("clients"@[0] == 'c');
    assert("connections"@.len() == 11);
    assert("connections"@[0] == 'c');
    assert("connections"@[7] == 'i');
    assert("file_connections"@.len() == 16);
    assert("file_connections"@[0] == 'f');
    assert("file_connections"@[7] == 'n');
    assert("listener_connections"@.len() == 20);
    assert("listener_connections"@[0] == 'l');
    assert("listener_connections"@[7] == 'r');
    assert("listeners"@.len() == 9);
    assert("listeners"@[0] == 'l');
    assert("listeners"@[7] == 'r');
    assert("source_client_connections"@.len() == 25);
    assert("source_client_connections"@[0] == 's');
    assert("source_client_connections"@[7] == 'c');
    assert("source_relay_connections"@.len() == 24);
    assert("source_relay_connections"@[0] == 's');
    assert("source_relay_connections"@[7] == 'r');
    assert("source_total_connections"@.len() == 24);
    assert("source_total_connections"@[0] == 's');
    assert("source_total_connections"@[7] == 't');
    assert("sources"@.len() == 7);
    assert("sources"@[0] == 's');
    assert("stats"@.len() == 5);
    assert("stats"@[0] == 's');
    assert("stats_connections"@.len() == 17);
    assert("stats_connections"@[0] == 's');
    assert("stats_connections"@[7] == 'o');
    assert("source"@.len() == 6);
    assert("source"@[0] == 's');
    assert forall|i: int| #![trigger stats_key(i)] 0 <= i < 18 && i != 0 implies stats_key(
        i,
    ) != stats_key(0) by {
        let a = stats_key(i);
        let b = stats_key(0);
        assert(a.len() != b.len() || a[0] != b[0] || a[7] != b[7]);
    }
    assert forall|i: int| #![trigger stats_key(i)] 0 <= i < 18 && i != 1 implies stats_key(
        i,
    ) != stats_key(1) by {
        let a = stats_key(i);
        let b = stats_key(1);
        assert(a.len() != b.len() || a[0] != b[0] || a[7] != b[7]);
    }
    assert forall|i: int| #![trigger stats_key(i)] 0 <= i < 18 && i != 2 implies stats_key(
        i,
    ) != stats_key(2) by {
        let a = stats_key(i);
        let b = stats_key(2);
        assert(a.len() != b.len() || a[0] != b[0] || a[7] != b[7]);
    }
    assert forall|i: int| #![trigger stats_key(i)] 0 <= i < 18 && i != 3 implies stats_key(
        i,
    ) != stats_key(3) by {
        let a = stats_key(i);
        let b = stats_key(3);
        assert(a.len() != b.len() || a[0] != b[0] || a[7] != b[7]);
    }
    assert forall|i: int| #![trigger stats_key(i)] 0 <= i < 18 && i != 4 implies stats_key(
        i,
    ) != stats_key(4) by {
        let a = stats_key(i);
        let b = stats_key(4);
        assert(a.len() != b.len() || a[0] != b[0] || a[7] != b[7]);
    }
    assert forall|i: int| #![trigger stats_key(i)] 0 <= i < 18 && i != 5 implies stats_key(
        i,
    ) != stats_key(5) by {
        let a = stats_key(i);
        let b = stats_key(5);
        assert(a.len() != b.len() || a[0] != b[0] || a[7] != b[7]);
    }
    assert forall|i: int| #![trigger stats_key(i)] 0 <= i < 18 && i != 6 implies stats_key(
        i,
    ) != stats_key(6) by {
        let a = stats_key(i);
        let b = stats_key(6);
        assert(a.len() != b.len() || a[0] != b[0] || a[7] != b[7]);
    }
    assert forall|i: int| #![trigger stats_key(i)] 0 <= i < 18 && i != 7 implies stats_key(
        i,
    ) != stats_key(7) by {
        let a = stats_key(i);
        let b = stats_key(7);
        assert(a.len() != b.len() || a[0] != b[0] || a[7] != b[7]);
    }
    assert forall|i: int| #![trigger stats_key(i)] 0 <= i < 18 && i != 8 implies stats_key(
        i,
    ) != stats_key(8) by {
        let a = stats_key(i);
        let b = stats_key(8);
        assert(a.len() != b.len() || a[0] != b[0] || a[7] != b[7]);
    }
    assert forall|i: int| #![trigger stats_key(i)] 0 <= i < 18 && i != 9 implies stats_key(
        i,
    ) != stats_key(9) by {
        let a = stats_key(i);
        let b = stats_key(9);
        assert(a.len() != b.len() || a[0] != b[0] || a[7] != b[7]);
    }
    assert forall|i: int| #![trigger stats_key(i)] 0 <= i < 18 && i != 10 implies stats_key(
        i,
    ) != stats_key(10) by {
        let a = stats_key(i);
        let b = stats_key(10);
        assert(a.len() != b.len() || a[0] != b[0] || a[7] != b[7]);
    }
    assert forall|i: int| #![trigger stats_key(i)] 0 <= i < 18 && i != 11 implies stats_key(
        i,
    ) != stats_key(11) by {
        let a = stats_key(i);
        let b = stats_key(11);
        assert(a.len() != b.len() || a[0] != b[0] || a[7] != b[7]);
    }
    assert forall|i: int| #![trigger stats_key(i)] 0 <= i < 18 && i != 12 implies stats_key(
        i,
    ) != stats_key(12) by {
        let a = stats_key(i);
        let b = stats_key(12);
        assert(a.len() != b.len() || a[0] != b[0] || a[7] != b[7]);
    }
    assert forall|i: int| #![trigger stats_key(i)] 0 <= i < 18 && i != 13 implies stats_key(
        i,
    ) != stats_key(13) by {
        let a = stats_key(i);
        let b = stats_key(13);
        assert(a.len() != b.len() || a[0] != b[0] || a[7] != b[7]);
    }
    assert forall|i: int| #![trigger stats_key(i)] 0 <= i < 18 && i != 14 implies stats_key(
        i,
    ) != stats_key(14) by {
        let a = stats_key(i);
        let b = stats_key(14);
        assert(a.len() != b.len() || a[0] != b[0] || a[7] != b[7]);
    }
    assert forall|i: int| #![trigger stats_key(i)] 0 <= i < 18 && i != 15 implies stats_key(
        i,
    ) != stats_key(15) by {
        let a = stats_key(i);
        let b = stats_key(15);
        assert(a.len() != b.len() || a[0] != b[0] || a[7] != b[7]);
    }
    assert forall|i: int| #![trigger stats_key(i)] 0 <= i < 18 && i != 16 implies stats_key(
        i,
    ) != stats_key(16) by {
        let a = stats_key(i);
        let b = stats_key(16);
        assert(a.len() != b.len() || a[0] != b[0] || a[7] != b[7]);
    }
    assert forall|i: int| #![trigger stats_key(i)] 0 <= i < 18 && i != 17 implies stats_key(
        i,
    ) != stats_key(17) by {
        let a = stats_key(i);
        let b = stats_key(17);
        assert(a.len() != b.len() || a[0] != b[0] || a[7] != b[7]);
    }
    assert forall|i: int, j: int|
        #![trigger stats_key(i), stats_key(j)]
        0 <= i < 18 && 0 <= j < 18 && i != j implies stats_key(i) != stats_key(j) by {
        assert(0 <= j < 18);
    }
}

/// Every planned scalar member of `s` stands in `fs` under its wire name:
/// required fields bound to their value, optional counters bound exactly
/// when present.
pub closed spec fn stats_scalar_lookups(fs: Seq<(String, Json)>, s: &IcecastStats) -> bool {
    lookup(fs, "admin"@) == (Some(Json::Str(s.admin)))
    &&
    lookup(fs, "host"@) == (Some(Json::Str(s.host)))
    &&
    lookup(fs, "location"@) == (Some(Json::Str(s.location)))
    &&
    lookup(fs, "server_id"@) == (Some(Json::Str(s.server_id)))
    &&
    lookup(fs, "server_start_iso8601"@) == (Some(Json::Str(s.server_start_iso8601)))
    &&
    lookup(fs, "client_connections"@) == (if s.client_connections is Some { Some(Json::Num(s.client_connections->0 as u64)) } else { None })
    &&
    lookup(fs, "clients"@) == (if s.clients is Some { Some(Json::Num(s.clients->0 as u64)) } else { None })
    &&
    lookup(fs, "connections"@) == (if s.connections is Some { Some(Json::Num(s.connections->0 as u64)) } else { None })
    &&
    lookup(fs, "file_connections"@) == (if s.file_connections is Some { Some(Json::Num(s.file_connections->0 as u64)) } else { None })
    &&
    lookup(fs, "listener_connections"@) == (if s.listener_connections is Some { Some(Json::Num(s.listener_connections->0 as u64)) } else { None })
    &&
    lookup(fs, "listeners"@) == (if s.listeners is Some { Some(Json::Num(s.listeners->0 as u64)) } else { None })
    &&
    lookup(fs, "source_client_connections"@) == (if s.source_client_connections is Some { Some(Json::Num(s.source_client_connections->0 as u64)) } else { None })
    &&
    lookup(fs, "source_relay_connections"@) == (if s.source_relay_connections is Some { Some(Json::Num(s.source_relay_connections->0 as u64)) } else { None })
    &&
    lookup(fs, "source_total_connections"@) == (if s.source_total_connections is Some { Some(Json::Num(s.source_total_connections->0 as u64)) } else { None })
    &&
    lookup(fs, "sources"@) == (if s.sources is Some { Some(Json::Num(s.sources->0 as u64)) } else { None })
    &&
    lookup(fs, "stats"@) == (if s.stats is Some { Some(Json::Num(s.stats->0 as u64)) } else { None })
    &&
    lookup(fs, "stats_connections"@) == (if s.stats_connections is Some { Some(Json::Num(s.stats_connections->0 as u64)) } else { None })
}

/// The indexed construction invariant, completed over the scalars, says
/// exactly that every planned scalar member stands under its wire name.
pub proof fn lemma_stats_lookup_facts(fs: Seq<(String, Json)>, s: &IcecastStats)
    requires
        forall|i: int| 0 <= i < 17 ==> #[trigger] lookup(fs, stats_key(i)) == stats_entry(s, i),
    ensures
        stats_scalar_lookups(fs, s),
{
    assert(lookup(fs, stats_key(0int)) == stats_entry(s, 0int));
    assert(lookup(fs, "admin"@) == (Some(Json::Str(s.admin))));
    assert(lookup(fs, stats_key(1int)) == stats_entry(s, 1int));
    assert(lookup(fs, "host"@) == (Some(Json::Str(s.host))));
    assert(lookup(fs, stats_key(2int)) == stats_entry(s, 2int));
    assert(lookup(fs, "location"@) == (Some(Json::Str(s.location))));
    assert(lookup(fs, stats_key(3int)) == stats_entry(s, 3int));
    assert(lookup(fs, "server_id"@) == (Some(Json::Str(s.server_id))));
    assert(lookup(fs, stats_key(4int)) == stats_entry(s, 4int));
    assert(lookup(fs, "server_start_iso8601"@) == (Some(Json::Str(s.server_start_iso8601))));
    assert(lookup(fs, stats_key(5int)) == stats_entry(s, 5int));
    assert(lookup(fs, "client_connections"@) == (if s.client_connections is Some { Some(Json::Num(s.client_connections->0 as u64)) } else { None }));
    assert(lookup(fs, stats_key(6int)) == stats_entry(s, 6int));
    assert(lookup(fs, "clients"@) == (if s.clients is Some { Some(Json::Num(s.clients->0 as u64)) } else { None }));
    assert(lookup(fs, stats_key(7int)) == stats_entry(s, 7int));
    assert(lookup(fs, "connections"@) == (if s.connections is Some { Some(Json::Num(s.connections->0 as u64)) } else { None }));
    assert(lookup(fs, stats_key(8int)) == stats_entry(s, 8int));
    assert(lookup(fs, "file_connections"@) == (if s.file_connections is Some { Some(Json::Num(s.file_connections->0 as u64)) } else { None }));
    assert(lookup(fs, stats_key(9int)) == stats_entry(s, 9int));
    assert(lookup(fs, "listener_connections"@) == (if s.listener_connections is Some { Some(Json::Num(s.listener_connections->0 as u64)) } else { None }));
    assert(lookup(fs, stats_key(10int)) == stats_entry(s, 10int));
    assert(lookup(fs, "listeners"@) == (if s.listeners is Some { Some(Json::Num(s.listeners->0 as u64)) } else { None }));
    assert(lookup(fs, stats_key(11int)) == stats_entry(s, 11int));
    assert(lookup(fs, "source_client_connections"@) == (if s.source_client_connections is Some { Some(Json::Num(s.source_client_connections->0 as u64)) } else { None }));
    assert(lookup(fs, stats_key(12int)) == stats_entry(s, 12int));
    assert(lookup(fs, "source_relay_connections"@) == (if s.source_relay_connections is Some { Some(Json::Num(s.source_relay_connections->0 as u64)) } else { None }));
    assert(lookup(fs, stats_key(13int)) == stats_entry(s, 13int));
    assert(lookup(fs, "source_total_connections"@) == (if s.source_total_connections is Some { Some(Json::Num(s.source_total_connections->0 as u64)) } else { None }));
    assert(lookup(fs, stats_key(14int)) == stats_entry(s, 14int));
    assert(lookup(fs, "sources"@) == (if s.sources is Some { Some(Json::Num(s.sources->0 as u64)) } else { None }));
    assert(lookup(fs, stats_key(15int)) == stats_entry(s, 15int));
    assert(lookup(fs, "stats"@) == (if s.stats is Some { Some(Json::Num(s.stats->0 as u64)) } else { None }));
    assert(lookup(fs, stats_key(16int)) == stats_entry(s, 16int));
    assert(lookup(fs, "stats_connections"@) == (if s.stats_connections is Some { Some(Json::Num(s.stats_connections->0 as u64)) } else { None }));
}

/// An object holding exactly the planned scalar members, and a `source`
/// member carrying the snapshot's source cardinality, decodes back to the
/// snapshot's model with no field-level error in raw-timestamp mode.
#[verifier::rlimit(100)]
proof fn lemma_stats_obj_decodes(fs: Seq<(String, Json)>, s: &IcecastStats)
    requires
        stats_scalar_lookups(fs, s),
        source_check(fs, false) is None,
        source_val(fs, false) == (match s.source {
            Option::Some(e) => Some(e@),
            Option::None => None::<SourceEnumModel>,
        }),
    ensures
        stats_field_err(fs, false) is None,
        stats_model_of(fs, false) =~= s@,
{
    assert(stats_field_err(fs, false) is None);
    assert(stats_model_of(fs, false) =~= s@);
}

/// After the scalars, appending the `source` member binds it and leaves
/// every scalar binding as planned.
proof fn lemma_stats_scalars_after_source(
    prev: Seq<(String, Json)>,
    cur: Seq<(String, Json)>,
    s: &IcecastStats,
    v: Json,
)
    requires
        built_upto(prev, stats_keys_fn(), stats_entries_fn(s), 18, 17),
        pushed_lookup(prev, cur, "source"@, Some(v)),
    ensures
        forall|i: int| 0 <= i < 17 ==> #[trigger] lookup(cur, stats_key(i)) == stats_entry(s, i),
        lookup(cur, "source"@) == Some(v),
{
    lemma_stats_keys_distinct();
    let keys = stats_keys_fn();
    let entries = stats_entries_fn(s);
    assert(stats_key(17int) == "source"@);
    assert(lookup(prev, keys(17int)) == None::<Json>);
    assert forall|i: int| 0 <= i < 17 implies #[trigger] lookup(cur, stats_key(i)) == stats_entry(
        s,
        i,
    ) by {
        assert(lookup(prev, keys(i)) == entries(i));
        assert(stats_key(i) != stats_key(17int));
    }
}

/// With no `source` member appended, the scalars stand as planned and the
/// `source` name is unbound.
proof fn lemma_stats_scalars_no_source(cur: Seq<(String, Json)>, s: &IcecastStats)
    requires
        built_upto(cur, stats_keys_fn(), stats_entries_fn(s), 18, 17),
    ensures
        forall|i: int| 0 <= i < 17 ==> #[trigger] lookup(cur, stats_key(i)) == stats_entry(s, i),
        lookup(cur, "source"@) is None,
{
    let keys = stats_keys_fn();
    let entries = stats_entries_fn(s);
    assert(stats_key(17int) == "source"@);
    assert(lookup(cur, keys(17int)) == None::<Json>);
    assert forall|i: int| 0 <= i < 17 implies #[trigger] lookup(cur, stats_key(i)) == stats_entry(
        s,
        i,
    ) by {
        assert(lookup(cur, keys(i)) == entries(i));
    }
}

/// A member name the server-stats decode recognizes.
pub open spec fn stats_known_name(n: Seq<char>) -> bool {
    exists|i: int| 0 <= i < 18 && stats_key(i) == n
}

/// Forward compatibility: a member with an unrecognized name, inserted at
/// any position of the server-stats object, changes nothing about what the
/// object decodes to.
#[verifier::rlimit(100)]
pub proof fn lemma_unknown_member_ignored(
    fs: Seq<(String, Json)>,
    i: int,
    e: (String, Json),
    strict: bool,
)
    requires
        0 <= i <= fs.len(),
        !stats_known_name(e.0@),
    ensures
        decode_fields_spec(fs.insert(i, e), strict) == decode_fields_spec(fs, strict),
{
    crate::json::lemma_lookup_insert(fs, i, e);
    assert(stats_key(0int) == "admin"@);
    assert(e.0@ != "admin"@);
    assert(lookup(fs.insert(i, e), "admin"@) == lookup(fs, "admin"@));
    assert(stats_key(1int) == "host"@);
    assert(e.0@ != "host"@);
    assert(lookup(fs.insert(i, e), "host"@) == lookup(fs, "host"@));
    assert(stats_key(2int) == "location"@);
    assert(e.0@ != "location"@);
    assert(lookup(fs.insert(i, e), "location"@) == lookup(fs, "location"@));
    assert(stats_key(3int) == "server_id"@);
    assert(e.0@ != "server_id"@);
    assert(lookup(fs.insert(i, e), "server_id"@) == lookup(fs, "server_id"@));
    assert(stats_key(4int) == "server_start_iso8601"@);
    assert(e.0@ != "server_start_iso8601"@);
    assert(lookup(fs.insert(i, e), "server_start_iso8601"@) == lookup(fs, "server_start_iso8601"@));
    assert(stats_key(5int) == "client_connections"@);
    assert(e.0@ != "client_connections"@);
    assert(lookup(fs.insert(i, e), "client_connections"@) == lookup(fs, "client_connections"@));
    assert(stats_key(6int) == "clients"@);
    assert(e.0@ != "clients"@);
    assert(lookup(fs.insert(i, e), "clients"@) == lookup(fs, "clients"@));
    assert(stats_key(7int) == "connections"@);
    assert(e.0@ != "connections"@);
    assert(lookup(fs.insert(i, e), "connections"@) == lookup(fs, "connections"@));
    assert(stats_key(8int) == "file_connections"@);
    assert(e.0@ != "file_connections"@);
    assert(lookup(fs.insert(i, e), "file_connections"@) == lookup(fs, "file_connections"@));
    assert(stats_key(9int) == "listener_connections"@);
    assert(e.0@ != "listener_connections"@);
    assert(lookup(fs.insert(i, e), "listener_connections"@) == lookup(fs, "listener_connections"@));
    assert(stats_key(10int) == "listeners"@);
    assert(e.0@ != "listeners"@);
    assert(lookup(fs.insert(i, e), "listeners"@) == lookup(fs, "listeners"@));
    assert(stats_key(11int) == "source_client_connections"@);
    assert(e.0@ != "source_client_connections"@);
    assert(lookup(fs.insert(i, e), "source_client_connections"@) == lookup(fs, "source_client_connections"@));
    assert(stats_key(12int) == "source_relay_connections"@);
    assert(e.0@ != "source_relay_connections"@);
    assert(lookup(fs.insert(i, e), "source_relay_connections"@) == lookup(fs, "source_relay_connections"@));
    assert(stats_key(13int) == "source_total_connections"@);
    assert(e.0@ != "source_total_connections"@);
    assert(lookup(fs.insert(i, e), "source_total_connections"@) == lookup(fs, "source_total_connections"@));
    assert(stats_key(14int) == "sources"@);
    assert(e.0@ != "sources"@);
    assert(lookup(fs.insert(i, e), "sources"@) == lookup(fs, "sources"@));
    assert(stats_key(15int) == "stats"@);
    assert(e.0@ != "stats"@);
    assert(lookup(fs.insert(i, e), "stats"@) == lookup(fs, "stats"@));
    assert(stats_key(16int) == "stats_connections"@);
    assert(e.0@ != "stats_connections"@);
    assert(lookup(fs.insert(i, e), "stats_connections"@) == lookup(fs, "stats_connections"@));
    assert(stats_key(17int) == "source"@);
    assert(e.0@ != "source"@);
    assert(lookup(fs.insert(i, e), "source"@) == lookup(fs, "source"@));
    assert(stats_field_err(fs.insert(i, e), strict) == stats_field_err(fs, strict));
    assert(stats_model_of(fs.insert(i, e), strict) =~= stats_model_of(fs, strict));
    assert(stats_model_of(fs.insert(i, e), strict) == stats_model_of(fs, strict));
}

/// Forward compatibility at the root: two top-level objects that differ only
/// by one member whose name is not the wrapper key decode to the same result.
pub proof fn lemma_root_unknown_member_ignored(
    plain: Json,
    extended: Json,
    i: int,
    e: (String, Json),
    strict: bool,
)
    requires
        plain matches Json::Obj(es) && 0 <= i <= es@.len() && (extended matches Json::Obj(xs)
            && xs@ == es@.insert(i, e)),
        e.0@ != "icestats"@,
    ensures
        decode_doc_spec(extended, strict) == decode_doc_spec(plain, strict),
{
    let es = plain->Obj_0;
    crate::json::lemma_lookup_insert(es@, i, e);
    assert(lookup(es@.insert(i, e), "icestats"@) == lookup(es@, "icestats"@));
}

impl IcecastStats {
    /// Append the first half of the planned scalar members.
    #[verifier::rlimit(100)]
    fn encode_members_front(&self, fs: &mut Vec<(String, Json)>)
        requires
            built_upto(old(fs)@, stats_keys_fn(), stats_entries_fn(self), 18, 0),
        ensures
            built_upto(final(fs)@, stats_keys_fn(), stats_entries_fn(self), 18, 9),
    {
        let ghost keys: spec_fn(int) -> Seq<char> = stats_keys_fn();
        let ghost entries: spec_fn(int) -> Option<Json> = stats_entries_fn(self);
        proof {
            lemma_stats_keys_distinct();
        }
        let ghost prev = fs@;
        push_member(fs, "admin", Json::Str(self.admin.clone()));
        proof {
            assert(keys(0int) == "admin"@);
            assert(entries(0int) == (Some(Json::Str(self.admin))));
            lemma_built_step(prev, fs@, keys, entries, 18, 0);
        }
        let ghost prev = fs@;
        push_member(fs, "host", Json::Str(self.host.clone()));
        proof {
            assert(keys(1int) == "host"@);
            assert(entries(1int) == (Some(Json::Str(self.host))));
            lemma_built_step(prev, fs@, keys, entries, 18, 1);
        }
        let ghost prev = fs@;
        push_member(fs, "location", Json::Str(self.location.clone()));
        proof {
            assert(keys(2int) == "location"@);
            assert(entries(2int) == (Some(Json::Str(self.location))));
            lemma_built_step(prev, fs@, keys, entries, 18, 2);
        }
        let ghost prev = fs@;
        push_member(fs, "server_id", Json::Str(self.server_id.clone()));
        proof {
            assert(keys(3int) == "server_id"@);
            assert(entries(3int) == (Some(Json::Str(self.server_id))));
            lemma_built_step(prev, fs@, keys, entries, 18, 3);
        }
        let ghost prev = fs@;
        push_member(fs, "server_start_iso8601", Json::Str(self.server_start_iso8601.clone()));
        proof {
            assert(keys(4int) == "server_start_iso8601"@);
            assert(entries(4int) == (Some(Json::Str(self.server_start_iso8601))));
            lemma_built_step(prev, fs@, keys, entries, 18, 4);
        }
        let ghost prev = fs@;
        push_opt_u32(fs, "client_connections", &self.client_connections);
        proof {
            assert(keys(5int) == "client_connections"@);
            assert(entries(5int) == (if self.client_connections is Some { Some(Json::Num(self.client_connections->0 as u64)) } else { None }));
            lemma_built_step(prev, fs@, keys, entries, 18, 5);
        }
        let ghost prev = fs@;
        push_opt_u32(fs, "clients", &self.clients);
        proof {
            assert(keys(6int) == "clients"@);
            assert(entries(6int) == (if self.clients is Some { Some(Json::Num(self.clients->0 as u64)) } else { None }));
            lemma_built_step(prev, fs@, keys, entries, 18, 6);
        }
        let ghost prev = fs@;
        push_opt_u32(fs, "connections", &self.connections);
        proof {
            assert(keys(7int) == "connections"@);
            assert(entries(7int) == (if self.connections is Some { Some(Json::Num(self.connections->0 as u64)) } else { None }));
            lemma_built_step(prev, fs@, keys, entries, 18, 7);
        }
        let ghost prev = fs@;
        push_opt_u32(fs, "file_connections", &self.file_connections);
        proof {
            assert(keys(8int) == "file_connections"@);
            assert(entries(8int) == (if self.file_connections is Some { Some(Json::Num(self.file_connections->0 as u64)) } else { None }));
            lemma_built_step(prev, fs@, keys, entries, 18, 8);
        }
    }

    /// Append the second half of the planned scalar members.
    #[verifier::rlimit(100)]
    fn encode_members_back(&self, fs: &mut Vec<(String, Json)>)
        requires
            built_upto(old(fs)@, stats_keys_fn(), stats_entries_fn(self), 18, 9),
        ensures
            built_upto(final(fs)@, stats_keys_fn(), stats_entries_fn(self), 18, 17),
    {
        let ghost keys: spec_fn(int) -> Seq<char> = stats_keys_fn();
        let ghost entries: spec_fn(int) -> Option<Json> = stats_entries_fn(self);
        proof {
            lemma_stats_keys_distinct();
        }
        let ghost prev = fs@;
        push_opt_u32(fs, "listener_connections", &self.listener_connections);
        proof {
            assert(keys(9int) == "listener_connections"@);
            assert(entries(9int) == (if self.listener_connections is Some { Some(Json::Num(self.listener_connections->0 as u64)) } else { None }));
            lemma_built_step(prev, fs@, keys, entries, 18, 9);
        }
        let ghost prev = fs@;
        push_opt_u32(fs, "listeners", &self.listeners);
        proof {
            assert(keys(10int) == "listeners"@);
            assert(entries(10int) == (if self.listeners is Some { Some(Json::Num(self.listeners->0 as u64)) } else { None }));
            lemma_built_step(prev, fs@, keys, entries, 18, 10);
        }
        let ghost prev = fs@;
        push_opt_u32(fs, "source_client_connections", &self.source_client_connections);
        proof {
            assert(keys(11int) == "source_client_connections"@);
            assert(entries(11int) == (if self.source_client_connections is Some { Some(Json::Num(self.source_client_connections->0 as u64)) } else { None }));
            lemma_built_step(prev, fs@, keys, entries, 18, 11);
        }
        let ghost prev = fs@;
        push_opt_u32(fs, "source_relay_connections", &self.source_relay_connections);
        proof {
            assert(keys(12int) == "source_relay_connections"@);
            assert(entries(12int) == (if self.source_relay_connections is Some { Some(Json::Num(self.source_relay_connections->0 as u64)) } else { None }));
            lemma_built_step(prev, fs@, keys, entries, 18, 12);
        }
        let ghost prev = fs@;
        push_opt_u32(fs, "source_total_connections", &self.source_total_connections);
        proof {
            assert(keys(13int) == "source_total_connections"@);
            assert(entries(13int) == (if self.source_total_connections is Some { Some(Json::Num(self.source_total_connections->0 as u64)) } else { None }));
            lemma_built_step(prev, fs@, keys, entries, 18, 13);
        }
        let ghost prev = fs@;
        push_opt_u32(fs, "sources", &self.sources);
        proof {
            assert(keys(14int) == "sources"@);
            assert(entries(14int) == (if self.sources is Some { Some(Json::Num(self.sources->0 as u64)) } else { None }));
            lemma_built_step(prev, fs@, keys, entries, 18, 14);
        }
        let ghost prev = fs@;
        push_opt_u32(fs, "stats", &self.stats);
        proof {
            assert(keys(15int) == "stats"@);
            assert(entries(15int) == (if self.stats is Some { Some(Json::Num(self.stats->0 as u64)) } else { None }));
            lemma_built_step(prev, fs@, keys, entries, 18, 15);
        }
        let ghost prev = fs@;
        push_opt_u32(fs, "stats_connections", &self.stats_connections);
        proof {
            assert(keys(16int) == "stats_connections"@);
            assert(entries(16int) == (if self.stats_connections is Some { Some(Json::Num(self.stats_connections->0 as u64)) } else { None }));
            lemma_built_step(prev, fs@, keys, entries, 18, 16);
        }
    }

    /// Encode this snapshot back to a wire document: one `icestats` wrapper
    /// holding the required fields, exactly the present counters, and the
    /// `source` field in its original cardinality (absent when `None`); the
    /// result decodes back to the same model.
    #[verifier::rlimit(100)]
    pub fn encode(&self) -> (r: Json)
        ensures
            decode_doc_spec(r, false) == Ok::<StatsModel, DecodeErrorModel>(self@),
            r matches Json::Obj(es) && es@.len() == 1,
    {
        let mut fs: Vec<(String, Json)> = Vec::new();
        proof {
            assert(built_upto(fs@, stats_keys_fn(), stats_entries_fn(self), 18, 0));
        }
        self.encode_members_front(&mut fs);
        self.encode_members_back(&mut fs);
        let ghost scalars_done = fs@;
        match &self.source {
            None => {
                proof {
                    lemma_stats_scalars_no_source(fs@, self);
                    lemma_stats_lookup_facts(fs@, self);
                    assert(source_check(fs@, false) is None);
                    assert(source_val(fs@, false) == (match self.source {
                        Option::Some(e) => Some(e@),
                        Option::None => None::<SourceEnumModel>,
                    }));
                    lemma_stats_obj_decodes(fs@, self);
                }
            },
            Some(IcecastStatsSourceEnum::Single(src)) => {
                let encoded = src.encode();
                let ghost ev = encoded;
                push_member(&mut fs, "source", encoded);
                proof {
                    lemma_stats_scalars_after_source(scalars_done, fs@, self, ev);
                    lemma_stats_lookup_facts(fs@, self);
                    assert(source_check(fs@, false) is None);
                    assert(source_val(fs@, false) == Some(SourceEnumModel::Single(src@)));
                    lemma_stats_obj_decodes(fs@, self);
                }
            },
            Some(IcecastStatsSourceEnum::Multiple(v)) => {
                let mut arr: Vec<Json> = Vec::new();
                let mut i: usize = 0;
                proof {
                    assert(source_views(v@).subrange(0, 0) =~= Seq::<SourceModel>::empty());
                }
                while i < v.len()
                    invariant
                        i <= v@.len(),
                        arr@.len() == i,
                        decode_sources_spec(arr@, false) == Ok::<
                            Seq<SourceModel>,
                            DecodeErrorModel,
                        >(source_views(v@).subrange(0, i as int)),
                    decreases v@.len() - i,
                {
                    let ghost old_arr = arr@;
                    let encoded = v[i].encode();
                    arr.push(encoded);
                    proof {
                        assert(arr@.drop_last() =~= old_arr);
                        assert(arr@.last() == encoded);
                        assert(source_views(v@).subrange(0, (i + 1) as int) =~= source_views(
                            v@,
                        ).subrange(0, i as int).push(v@[i as int]@));
                    }
                    i += 1;
                }
                proof {
                    assert(source_views(v@).subrange(0, v@.len() as int) =~= source_views(v@));
                }
                let packed = Json::Arr(arr);
                let ghost ev = packed;
                push_member(&mut fs, "source", packed);
                proof {
                    lemma_stats_scalars_after_source(scalars_done, fs@, self, ev);
                    lemma_stats_lookup_facts(fs@, self);
                    assert(source_check(fs@, false) is None);
                    assert(source_val(fs@, false) == Some(
                        SourceEnumModel::Multiple(source_views(v@)),
                    ));
                    lemma_stats_obj_decodes(fs@, self);
                }
            },
        }
        let ghost gfs = fs@;
        let mut root: Vec<(String, Json)> = Vec::new();
        push_member(&mut root, "icestats", Json::Obj(fs));
        proof {
            assert(lookup(root@, "icestats"@) is Some);
            assert(stats_model_of(gfs, false) == self@);
        }
        Json::Obj(root)
    }
}


impl IcecastStats {
    /// Contact details of the server administrator, as configured.
    pub fn admin(&self) -> (r: &String)
        ensures
            r@ == self@.admin,
    {
        &self.admin
    }

    /// Client connections since start-up: an accumulating counter.
    /// `None` when the field was absent from the document.
    pub fn client_connections(&self) -> (r: &Option<u32>)
        ensures
            *r == self@.client_connections,
    {
        &self.client_connections
    }

    /// Currently active client connections.
    /// `None` when the field was absent from the document.
    pub fn clients(&self) -> (r: &Option<u32>)
        ensures
            *r == self@.clients,
    {
        &self.clients
    }

    /// All inbound TCP connections since start-up: an accumulating counter.
    /// `None` when the field was absent from the document.
    pub fn connections(&self) -> (r: &Option<u32>)
        ensures
            *r == self@.connections,
    {
        &self.connections
    }

    /// File-serving connections: an accumulating counter.
    /// `None` when the field was absent from the document.
    pub fn file_connections(&self) -> (r: &Option<u32>)
        ensures
            *r == self@.file_connections,
    {
        &self.file_connections
    }

    /// The host name this server reports for itself, as configured.
    pub fn host(&self) -> (r: &String)
        ensures
            r@ == self@.host,
    {
        &self.host
    }

    /// Listener connections to mount points: an accumulating counter.
    /// `None` when the field was absent from the document.
    pub fn listener_connections(&self) -> (r: &Option<u32>)
        ensures
            *r == self@.listener_connections,
    {
        &self.listener_connections
    }

    /// Currently active listener connections.
    /// `None` when the field was absent from the document.
    pub fn listeners(&self) -> (r: &Option<u32>)
        ensures
            *r == self@.listeners,
    {
        &self.listeners
    }

    /// Free-form physical location of the server, as configured.
    pub fn location(&self) -> (r: &String)
        ensures
            r@ == self@.location,
    {
        &self.location
    }

    /// Version string of the running server, unless overridden.
    pub fn server_id(&self) -> (r: &String)
        ensures
            r@ == self@.server_id,
    {
        &self.server_id
    }

    /// Source client connections since start-up: an accumulating counter.
    /// `None` when the field was absent from the document.
    pub fn source_client_connections(&self) -> (r: &Option<u32>)
        ensures
            *r == self@.source_client_connections,
    {
        &self.source_client_connections
    }

    /// Outbound relay connections to master servers: an accumulating counter.
    /// `None` when the field was absent from the document.
    pub fn source_relay_connections(&self) -> (r: &Option<u32>)
        ensures
            *r == self@.source_relay_connections,
    {
        &self.source_relay_connections
    }

    /// Source clients and relays together: an accumulating counter.
    /// `None` when the field was absent from the document.
    pub fn source_total_connections(&self) -> (r: &Option<u32>)
        ensures
            *r == self@.source_total_connections,
    {
        &self.source_total_connections
    }

    /// Currently connected sources.
    /// `None` when the field was absent from the document.
    pub fn sources(&self) -> (r: &Option<u32>)
        ensures
            *r == self@.sources,
    {
        &self.sources
    }

    /// Currently connected stats clients.
    /// `None` when the field was absent from the document.
    pub fn stats(&self) -> (r: &Option<u32>)
        ensures
            *r == self@.stats,
    {
        &self.stats
    }

    /// Stats client connections since start-up: an accumulating counter.
    /// `None` when the field was absent from the document.
    pub fn stats_connections(&self) -> (r: &Option<u32>)
        ensures
            *r == self@.stats_connections,
    {
        &self.stats_connections
    }

    /// Timestamp of server start-up in ISO 8601 date format.
    pub fn server_start_iso8601(&self) -> (r: &String)
        ensures
            r@ == self@.server_start_iso8601,
    {
        &self.server_start_iso8601
    }

}

} // verus!
