//! The compute halves of a fetch: deriving the request target from the input
//! string, and classifying what the transport returned. The transport call
//! itself (an HTTP GET) is the caller's: it hands the body, or its failure's
//! cause, to [`finish_fetch`].

use vstd::prelude::*;
use crate::errors::{DecodeErrorModel, FetchError, FetchErrorModel};
use crate::icecast_stats::{IcecastStats, StatsModel, TimestampMode, decode, decode_bytes_spec};
use crate::status_url::{
    derive_parts, generate_icecast_stats_url, parse_url, url_spec, url_string, url_to_string,
};

verus! {

/// The URL a fetch requests: the input parsed, its path replaced by the
/// status path, serialized back. `InvalidUrl` exactly when the input is not a
/// valid URL.
pub fn status_url_string(base: &str) -> (r: Result<String, FetchError>)
    ensures
        match r {
            Ok(s) => url_spec(base@) matches Some(p) && s@ == url_string(derive_parts(p)),
            Err(e) => url_spec(base@) is None && e@ == FetchErrorModel::InvalidUrl,
        },
{
    match parse_url(base) {
        Some(u) => {
            let su = generate_icecast_stats_url(u);
            Ok(url_to_string(&su))
        },
        None => Err(FetchError::InvalidUrl),
    }
}

/// Classify what the transport returned: a transport failure is surfaced
/// unchanged as `Transport`, never as a decode-stage error; a body is
/// decoded, and a decode failure is wrapped as `Decode`.
pub fn finish_fetch(body: Result<Vec<u8>, String>, mode: TimestampMode) -> (r: Result<
    IcecastStats,
    FetchError,
>)
    ensures
        match body {
            Err(cause) => r matches Err(e) && e@ == FetchErrorModel::Transport(cause@),
            Ok(bytes) => match r {
                Ok(s) => decode_bytes_spec(bytes@, mode.is_strict()) == Ok::<
                    StatsModel,
                    DecodeErrorModel,
                >(s@),
                Err(e) => e@ matches FetchErrorModel::Decode(d) && decode_bytes_spec(
                    bytes@,
                    mode.is_strict(),
                ) == Err::<StatsModel, DecodeErrorModel>(d),
            },
        },
{
    match body {
        Err(cause) => Err(FetchError::Transport(cause)),
        Ok(bytes) => match decode(bytes.as_slice(), mode) {
            Ok(s) => Ok(s),
            Err(e) => Err(FetchError::Decode(e)),
        },
    }
}

} // verus!
