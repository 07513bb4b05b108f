//! Decode the status document of an Icecast streaming server into a typed,
//! queryable model, and derive the status endpoint's URL from any URL that
//! points at the same server.
//!
//! The status document is a JSON object whose shape varies across server
//! versions: most fields are optional, the `source` field may be absent, a
//! single object, or an array of objects, and timestamps may be held to a
//! strict format or kept as raw strings. The decoder normalizes all of that
//! into [`IcecastStats`] without inventing values for absent fields and
//! without dropping values that are present.

use vstd::prelude::*;

mod json;
mod errors;
mod fields;
mod icecast_source;
mod icecast_stats;
mod status_url;
mod fetch;

pub use crate::json::{Json, lookup, lemma_lookup_insert, json_of_text, value_model, parse_json};
pub use crate::errors::{DecodeError, DecodeErrorModel, FetchError, FetchErrorModel};
pub use crate::fields::rfc3339_valid;
pub use crate::icecast_source::{
    IcecastStatsSource, SourceModel, decode_source_spec, source_field_err, source_model_of,
    source_key, source_known_name, lemma_source_unknown_member_ignored,
};
pub use crate::icecast_stats::{
    IcecastStats, IcecastStatsRoot, IcecastStatsSourceEnum, SourceEnumModel, StatsModel,
    TimestampMode, decode, decode_doc, decode_bytes_spec, decode_doc_spec, decode_fields_spec,
    decode_sources_spec, source_views, stats_key, stats_known_name, lemma_unknown_member_ignored,
    lemma_root_unknown_member_ignored,
};
pub use crate::status_url::{
    UrlParts, url_parts, url_spec, url_string, encoded_path, derive_parts,
    generate_icecast_stats_url, parse_url, url_to_string, lemma_derive_idempotent,
    lemma_derive_preserves_components,
};
pub use crate::fetch::{status_url_string, finish_fetch};

verus! {

} // verus!
