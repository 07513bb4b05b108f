//! One streaming source (mount point) of the status document: every field is
//! optional, and the decode captures exactly the fields that are present.

use vstd::prelude::*;
use crate::json::{Json, lookup};
use crate::errors::{DecodeError, DecodeErrorModel};
use crate::fields::{
    opt_str_check, opt_str_val, opt_u32_check, opt_u32_val, opt_u8_check, opt_u8_val,
    opt_ts_check, opt_view, get_opt_string, get_opt_u32, get_opt_u8, get_opt_timestamp,
    push_opt_str, push_opt_u32, push_opt_u8, built_upto, lemma_built_step,
};

verus! {

/// A streaming source. No field is guaranteed present: a source may
/// legitimately report almost nothing, and an absent field stays `None`,
/// never a defaulted value.
#[derive(Debug, Clone, PartialEq)]
pub struct IcecastStatsSource {
    artist: Option<String>,
    title: Option<String>,
    audio_bitrate: Option<u32>,
    audio_channels: Option<u8>,
    audio_samplerate: Option<u32>,
    frame_size: Option<String>,
    bitrate: Option<u32>,
    genre: Option<String>,
    ice_bitrate: Option<u32>,
    listener_peak: Option<u32>,
    listeners: Option<u32>,
    listenurl: Option<String>,
    server_description: Option<String>,
    server_name: Option<String>,
    server_type: Option<String>,
    subtype: Option<String>,
    stream_start_iso8601: Option<String>,
    total_bytes_read: Option<u32>,
    total_bytes_sent: Option<u32>,
    user_agent: Option<String>,
    video_bitrate: Option<u32>,
    video_quality: Option<u32>,
}

/// The mathematical view of a source: each field as a plain optional value.
#[verifier::ext_equal]
pub struct SourceModel {
    pub artist: Option<Seq<char>>,
    pub title: Option<Seq<char>>,
    pub audio_bitrate: Option<u32>,
    pub audio_channels: Option<u8>,
    pub audio_samplerate: Option<u32>,
    pub frame_size: Option<Seq<char>>,
    pub bitrate: Option<u32>,
    pub genre: Option<Seq<char>>,
    pub ice_bitrate: Option<u32>,
    pub listener_peak: Option<u32>,
    pub listeners: Option<u32>,
    pub listenurl: Option<Seq<char>>,
    pub server_description: Option<Seq<char>>,
    pub server_name: Option<Seq<char>>,
    pub server_type: Option<Seq<char>>,
    pub subtype: Option<Seq<char>>,
    pub stream_start_iso8601: Option<Seq<char>>,
    pub total_bytes_read: Option<u32>,
    pub total_bytes_sent: Option<u32>,
    pub user_agent: Option<Seq<char>>,
    pub video_bitrate: Option<u32>,
    pub video_quality: Option<u32>,
}

impl View for IcecastStatsSource {
    type V = SourceModel;

    closed spec fn view(&self) -> SourceModel {
        SourceModel {
            artist: opt_view(self.artist),
            title: opt_view(self.title),
            audio_bitrate: self.audio_bitrate,
            audio_channels: self.audio_channels,
            audio_samplerate: self.audio_samplerate,
            frame_size: opt_view(self.frame_size),
            bitrate: self.bitrate,
            genre: opt_view(self.genre),
            ice_bitrate: self.ice_bitrate,
            listener_peak: self.listener_peak,
            listeners: self.listeners,
            listenurl: opt_view(self.listenurl),
            server_description: opt_view(self.server_description),
            server_name: opt_view(self.server_name),
            server_type: opt_view(self.server_type),
            subtype: opt_view(self.subtype),
            stream_start_iso8601: opt_view(self.stream_start_iso8601),
            total_bytes_read: self.total_bytes_read,
            total_bytes_sent: self.total_bytes_sent,
            user_agent: opt_view(self.user_agent),
            video_bitrate: self.video_bitrate,
            video_quality: self.video_quality,
        }
    }
}

/// The first field-level error of a source object, checking each known field
/// in a fixed order; `None` when every present known field has its expected
/// type. Unknown fields are ignored.
pub open spec fn source_field_err(fs: Seq<(String, Json)>, strict: bool) -> Option<
    DecodeErrorModel,
> {
    if opt_str_check(fs, "artist"@) is Some {
        opt_str_check(fs, "artist"@)
    } else if opt_str_check(fs, "title"@) is Some {
        opt_str_check(fs, "title"@)
    } else if opt_u32_check(fs, "audio_bitrate"@) is Some {
        opt_u32_check(fs, "audio_bitrate"@)
    } else if opt_u8_check(fs, "audio_channels"@) is Some {
        opt_u8_check(fs, "audio_channels"@)
    } else if opt_u32_check(fs, "audio_samplerate"@) is Some {
        opt_u32_check(fs, "audio_samplerate"@)
    } else if opt_str_check(fs, "frame_size"@) is Some {
        opt_str_check(fs, "frame_size"@)
    } else if opt_u32_check(fs, "bitrate"@) is Some {
        opt_u32_check(fs, "bitrate"@)
    } else if opt_str_check(fs, "genre"@) is Some {
        opt_str_check(fs, "genre"@)
    } else if opt_u32_check(fs, "ice-bitrate"@) is Some {
        opt_u32_check(fs, "ice-bitrate"@)
    } else if opt_u32_check(fs, "listener_peak"@) is Some {
        opt_u32_check(fs, "listener_peak"@)
    } else if opt_u32_check(fs, "listeners"@) is Some {
        opt_u32_check(fs, "listeners"@)
    } else if opt_str_check(fs, "listenurl"@) is Some {
        opt_str_check(fs, "listenurl"@)
    } else if opt_str_check(fs, "server_description"@) is Some {
        opt_str_check(fs, "server_description"@)
    } else if opt_str_check(fs, "server_name"@) is Some {
        opt_str_check(fs, "server_name"@)
    } else if opt_str_check(fs, "server_type"@) is Some {
        opt_str_check(fs, "server_type"@)
    } else if opt_str_check(fs, "subtype"@) is Some {
        opt_str_check(fs, "subtype"@)
    } else if opt_ts_check(fs, "stream_start_iso8601"@, strict) is Some {
        opt_ts_check(fs, "stream_start_iso8601"@, strict)
    } else if opt_u32_check(fs, "total_bytes_read"@) is Some {
        opt_u32_check(fs, "total_bytes_read"@)
    } else if opt_u32_check(fs, "total_bytes_sent"@) is Some {
        opt_u32_check(fs, "total_bytes_sent"@)
    } else if opt_str_check(fs, "user_agent"@) is Some {
        opt_str_check(fs, "user_agent"@)
    } else if opt_u32_check(fs, "video_bitrate"@) is Some {
        opt_u32_check(fs, "video_bitrate"@)
    } else if opt_u32_check(fs, "video_quality"@) is Some {
        opt_u32_check(fs, "video_quality"@)
    } else {
        None
    }
}

/// The model a source object decodes to, meaningful when `source_field_err`
/// is `None`.
pub open spec fn source_model_of(fs: Seq<(String, Json)>) -> SourceModel {
    SourceModel {
        artist: opt_str_val(fs, "artist"@),
        title: opt_str_val(fs, "title"@),
        audio_bitrate: opt_u32_val(fs, "audio_bitrate"@),
        audio_channels: opt_u8_val(fs, "audio_channels"@),
        audio_samplerate: opt_u32_val(fs, "audio_samplerate"@),
        frame_size: opt_str_val(fs, "frame_size"@),
        bitrate: opt_u32_val(fs, "bitrate"@),
        genre: opt_str_val(fs, "genre"@),
        ice_bitrate: opt_u32_val(fs, "ice-bitrate"@),
        listener_peak: opt_u32_val(fs, "listener_peak"@),
        listeners: opt_u32_val(fs, "listeners"@),
        listenurl: opt_str_val(fs, "listenurl"@),
        server_description: opt_str_val(fs, "server_description"@),
        server_name: opt_str_val(fs, "server_name"@),
        server_type: opt_str_val(fs, "server_type"@),
        subtype: opt_str_val(fs, "subtype"@),
        stream_start_iso8601: opt_str_val(fs, "stream_start_iso8601"@),
        total_bytes_read: opt_u32_val(fs, "total_bytes_read"@),
        total_bytes_sent: opt_u32_val(fs, "total_bytes_sent"@),
        user_agent: opt_str_val(fs, "user_agent"@),
        video_bitrate: opt_u32_val(fs, "video_bitrate"@),
        video_quality: opt_u32_val(fs, "video_quality"@),
    }
}

/// What a JSON value decodes to as one source: an object is decoded field by
/// field, anything else is a type mismatch.
pub open spec fn decode_source_spec(j: Json, strict: bool) -> Result<SourceModel, DecodeErrorModel> {
    match j {
        Json::Obj(fs) => match source_field_err(fs@, strict) {
            Some(e) => Err(e),
            None => Ok(source_model_of(fs@)),
        },
        _ => Err(DecodeErrorModel::TypeMismatch("source"@, "object"@)),
    }
}

/// Decode the members of one source object.
pub fn decode_source_obj(fs: &Vec<(String, Json)>, strict: bool) -> (r: Result<
    IcecastStatsSource,
    DecodeError,
>)
    ensures
        match r {
            Ok(s) => source_field_err(fs@, strict) is None && s@ =~= source_model_of(fs@),
            Err(e) => source_field_err(fs@, strict) == Some(e@),
        },
{
    let artist = match get_opt_string(fs, "artist") {
        Ok(v) => v,
        Err(e) => return Err(e),
    };
    let title = match get_opt_string(fs, "title") {
        Ok(v) => v,
        Err(e) => return Err(e),
    };
    let audio_bitrate = match get_opt_u32(fs, "audio_bitrate") {
        Ok(v) => v,
        Err(e) => return Err(e),
    };
    let audio_channels = match get_opt_u8(fs, "audio_channels") {
        Ok(v) => v,
        Err(e) => return Err(e),
    };
    let audio_samplerate = match get_opt_u32(fs, "audio_samplerate") {
        Ok(v) => v,
        Err(e) => return Err(e),
    };
    let frame_size = match get_opt_string(fs, "frame_size") {
        Ok(v) => v,
        Err(e) => return Err(e),
    };
    let bitrate = match get_opt_u32(fs, "bitrate") {
        Ok(v) => v,
        Err(e) => return Err(e),
    };
    let genre = match get_opt_string(fs, "genre") {
        Ok(v) => v,
        Err(e) => return Err(e),
    };
    let ice_bitrate = match get_opt_u32(fs, "ice-bitrate") {
        Ok(v) => v,
        Err(e) => return Err(e),
    };
    let listener_peak = match get_opt_u32(fs, "listener_peak") {
        Ok(v) => v,
        Err(e) => return Err(e),
    };
    let listeners = match get_opt_u32(fs, "listeners") {
        Ok(v) => v,
        Err(e) => return Err(e),
    };
    let listenurl = match get_opt_string(fs, "listenurl") {
        Ok(v) => v,
        Err(e) => return Err(e),
    };
    let server_description = match get_opt_string(fs, "server_description") {
        Ok(v) => v,
        Err(e) => return Err(e),
    };
    let server_name = match get_opt_string(fs, "server_name") {
        Ok(v) => v,
        Err(e) => return Err(e),
    };
    let server_type = match get_opt_string(fs, "server_type") {
        Ok(v) => v,
        Err(e) => return Err(e),
    };
    let subtype = match get_opt_string(fs, "subtype") {
        Ok(v) => v,
        Err(e) => return Err(e),
    };
    let stream_start_iso8601 = match get_opt_timestamp(fs, "stream_start_iso8601", strict) {
        Ok(v) => v,
        Err(e) => return Err(e),
    };
    let total_bytes_read = match get_opt_u32(fs, "total_bytes_read") {
        Ok(v) => v,
        Err(e) => return Err(e),
    };
    let total_bytes_sent = match get_opt_u32(fs, "total_bytes_sent") {
        Ok(v) => v,
        Err(e) => return Err(e),
    };
    let user_agent = match get_opt_string(fs, "user_agent") {
        Ok(v) => v,
        Err(e) => return Err(e),
    };
    let video_bitrate = match get_opt_u32(fs, "video_bitrate") {
        Ok(v) => v,
        Err(e) => return Err(e),
    };
    let video_quality = match get_opt_u32(fs, "video_quality") {
        Ok(v) => v,
        Err(e) => return Err(e),
    };
    Ok(
        IcecastStatsSource {
            artist,
            title,
            audio_bitrate,
            audio_channels,
            audio_samplerate,
            frame_size,
            bitrate,
            genre,
            ice_bitrate,
            listener_peak,
            listeners,
            listenurl,
            server_description,
            server_name,
            server_type,
            subtype,
            stream_start_iso8601,
            total_bytes_read,
            total_bytes_sent,
            user_agent,
            video_bitrate,
            video_quality,
        },
    )
}

/// Decode one JSON value as a source.
pub fn decode_source_json(j: &Json, strict: bool) -> (r: Result<IcecastStatsSource, DecodeError>)
    ensures
        match r {
            Ok(s) => decode_source_spec(*j, strict) == Ok::<SourceModel, DecodeErrorModel>(s@),
            Err(e) => decode_source_spec(*j, strict) == Err::<SourceModel, DecodeErrorModel>(e@),
        },
{
    match j {
        Json::Obj(fs) => match decode_source_obj(fs, strict) {
            Ok(s) => {
                proof {
                    assert(decode_source_spec(*j, strict) == Ok::<SourceModel, DecodeErrorModel>(
                        source_model_of(fs@),
                    ));
                }
                Ok(s)
            },
            Err(e) => Err(e),
        },
        _ => Err(
            DecodeError::TypeMismatch { name: "source".to_owned(), expected: "object".to_owned() },
        ),
    }
}


/// The name of the planned member at each position of the encoder's fixed
/// order.
pub open spec fn source_key(i: int) -> Seq<char> {
    if i == 0 {
        "artist"@
    } else if i == 1 {
        "title"@
    } else if i == 2 {
        "audio_bitrate"@
    } else if i == 3 {
        "audio_channels"@
    } else if i == 4 {
        "audio_samplerate"@
    } else if i == 5 {
        "frame_size"@
    } else if i == 6 {
        "bitrate"@
    } else if i == 7 {
        "genre"@
    } else if i == 8 {
        "ice-bitrate"@
    } else if i == 9 {
        "listener_peak"@
    } else if i == 10 {
        "listeners"@
    } else if i == 11 {
        "listenurl"@
    } else if i == 12 {
        "server_description"@
    } else if i == 13 {
        "server_name"@
    } else if i == 14 {
        "server_type"@
    } else if i == 15 {
        "subtype"@
    } else if i == 16 {
        "stream_start_iso8601"@
    } else if i == 17 {
        "total_bytes_read"@
    } else if i == 18 {
        "total_bytes_sent"@
    } else if i == 19 {
        "user_agent"@
    } else if i == 20 {
        "video_bitrate"@
    } else {
        "video_quality"@
    }
}

/// The member each planned position contributes for a given source: the
/// field's JSON value when present, nothing when absent.
pub closed spec fn source_entry(s: &IcecastStatsSource, i: int) -> Option<Json> {
    if i == 0 {
        if s.artist is Some { Some(Json::Str(s.artist->0)) } else { None }
    } else if i == 1 {
        if s.title is Some { Some(Json::Str(s.title->0)) } else { None }
    } else if i == 2 {
        if s.audio_bitrate is Some { Some(Json::Num(s.audio_bitrate->0 as u64)) } else { None }
    } else if i == 3 {
        if s.audio_channels is Some { Some(Json::Num(s.audio_channels->0 as u64)) } else { None }
    } else if i == 4 {
        if s.audio_samplerate is Some { Some(Json::Num(s.audio_samplerate->0 as u64)) } else { None }
    } else if i == 5 {
        if s.frame_size is Some { Some(Json::Str(s.frame_size->0)) } else { None }
    } else if i == 6 {
        if s.bitrate is Some { Some(Json::Num(s.bitrate->0 as u64)) } else { None }
    } else if i == 7 {
        if s.genre is Some { Some(Json::Str(s.genre->0)) } else { None }
    } else if i == 8 {
        if s.ice_bitrate is Some { Some(Json::Num(s.ice_bitrate->0 as u64)) } else { None }
    } else if i == 9 {
        if s.listener_peak is Some { Some(Json::Num(s.listener_peak->0 as u64)) } else { None }
    } else if i == 10 {
        if s.listeners is Some { Some(Json::Num(s.listeners->0 as u64)) } else { None }
    } else if i == 11 {
        if s.listenurl is Some { Some(Json::Str(s.listenurl->0)) } else { None }
    } else if i == 12 {
        if s.server_description is Some { Some(Json::Str(s.server_description->0)) } else { None }
    } else if i == 13 {
        if s.server_name is Some { Some(Json::Str(s.server_name->0)) } else { None }
    } else if i == 14 {
        if s.server_type is Some { Some(Json::Str(s.server_type->0)) } else { None }
    } else if i == 15 {
        if s.subtype is Some { Some(Json::Str(s.subtype->0)) } else { None }
    } else if i == 16 {
        if s.stream_start_iso8601 is Some { Some(Json::Str(s.stream_start_iso8601->0)) } else { None }
    } else if i == 17 {
        if s.total_bytes_read is Some { Some(Json::Num(s.total_bytes_read->0 as u64)) } else { None }
    } else if i == 18 {
        if s.total_bytes_sent is Some { Some(Json::Num(s.total_bytes_sent->0 as u64)) } else { None }
    } else if i == 19 {
        if s.user_agent is Some { Some(Json::Str(s.user_agent->0)) } else { None }
    } else if i == 20 {
        if s.video_bitrate is Some { Some(Json::Num(s.video_bitrate->0 as u64)) } else { None }
    } else {
        if s.video_quality is Some { Some(Json::Num(s.video_quality->0 as u64)) } else { None }
    }
}

/// The planned member names, as one table.
pub closed spec fn source_keys_fn() -> spec_fn(int) -> Seq<char> {
    |i: int| source_key(i)
}

/// The planned members of a given source, as one table.
pub closed spec fn source_entries_fn(s: &IcecastStatsSource) -> spec_fn(int) -> Option<Json> {
    |i: int| source_entry(s, i)
}

/// The planned member names are pairwise distinct.
#[verifier::rlimit(100)]
pub proof fn lemma_source_keys_distinct()
    ensures
        forall|i: int, j: int|
            #![trigger source_key(i), source_key(j)]
            0 <= i < 22 && 0 <= j < 22 && i != j ==> source_key(i) != source_key(j),
{
    broadcast use vstd::string::group_string_axioms;

    reveal_strlit("artist");
    reveal_strlit("title");
    reveal_strlit("audio_bitrate");
    reveal_strlit("audio_channels");
    reveal_strlit("audio_samplerate");
    reveal_strlit("frame_size");
    reveal_strlit("bitrate");
    reveal_strlit("genre");
    reveal_strlit("ice-bitrate");
    reveal_strlit("listener_peak");
    reveal_strlit("listeners");
    reveal_strlit("listenurl");
    reveal_strlit("server_description");
    reveal_strlit("server_name");
    reveal_strlit("server_type");
    reveal_strlit("subtype");
    reveal_strlit("stream_start_iso8601");
    reveal_strlit("total_bytes_read");
    reveal_strlit("total_bytes_sent");
    reveal_strlit("user_agent");
    reveal_strlit("video_bitrate");
    reveal_strlit("video_quality");
    assert("artist"@.len() == 6);
    assert("artist"@[0] == 'a');
    assert("title"@.len() == 5);
    assert("title"@[0] == 't');
    assert("audio_bitrate"@.len() == 13);
    assert("audio_bitrate"@[0] == 'a');
    assert("audio_bitrate"@[6] == 'b');
    assert("audio_bitrate"@[7] == 'i');
    assert("audio_bitrate"@[12] == 'e');
    assert("audio_channels"@.len() == 14);
    assert("audio_channels"@[0] == 'a');
    assert("audio_channels"@[6] == 'c');
    assert("audio_channels"@[7] == 'h');
    assert("audio_channels"@[12] == 'l');
    assert("audio_samplerate"@.len() == 16);
    assert("audio_samplerate"@[0] == 'a');
    assert("audio_samplerate"@[6] == 's');
    assert("audio_samplerate"@[7] == 'a');
    assert("audio_samplerate"@[12] == 'r');
    assert("frame_size"@.len() == 10);
    assert("frame_size"@[0] == 'f');
    assert("frame_size"@[6] == 's');
    assert("frame_size"@[7] == 'i');
    assert("bitrate"@.len() == 7);
    assert("bitrate"@[0] == 'b');
    assert("bitrate"@[6] == 'e');
    assert("genre"@.len() == 5);
    assert("genre"@[0] == 'g');
    assert("ice-bitrate"@.len() == 11);
    assert("ice-bitrate"@[0] == 'i');
    assert("ice-bitrate"@[6] == 't');
    assert("ice-bitrate"@[7] == 'r');
    assert("listener_peak"@.len() == 13);
    assert("listener_peak"@[0] == 'l');
    assert("listener_peak"@[6] == 'e');
    assert("listener_peak"@[7] == 'r');
    assert("listener_peak"@[12] == 'k');
    assert("listeners"@.len() == 9);
    assert("listeners"@[0] == 'l');
    assert("listeners"@[6] == 'e');
    assert("listeners"@[7] == 'r');
    assert("listenurl"@.len() == 9);
    assert("listenurl"@[0] == 'l');
    assert("listenurl"@[6] == 'u');
    assert("listenurl"@[7] == 'r');
    assert("server_description"@.len() == 18);
    assert("server_description"@[0] == 's');
    assert("server_description"@[6] == '_');
    assert("server_description"@[7] == 'd');
    assert("server_description"@[12] == 'i');
    assert("server_name"@.len() == 11);
    assert("server_name"@[0] == 's');
    assert("server_name"@[6] == '_');
    assert("server_name"@[7] == 'n');
    assert("server_type"@.len() == 11);
    assert("server_type"@[0] == 's');
    assert("server_type"@[6] == '_');
    assert("server_type"@[7] == 't');
    assert("subtype"@.len() == 7);
    assert("subtype"@[0] == 's');
    assert("subtype"@[6] == 'e');
    assert("stream_start_iso8601"@.len() == 20);
    assert("stream_start_iso8601"@[0] == 's');
    assert("stream_start_iso8601"@[6] == '_');
    assert("stream_start_iso8601"@[7] == 's');
    assert("stream_start_iso8601"@[12] == '_');
    assert("total_bytes_read"@.len() == 16);
    assert("total_bytes_read"@[0] == 't');
    assert("total_bytes_read"@[6] == 'b');
    assert("total_bytes_read"@[7] == 'y');
    assert("total_bytes_read"@[12] == 'r');
    assert("total_bytes_sent"@.len() == 16);
    assert("total_bytes_sent"@[0] == 't');
    assert("total_bytes_sent"@[6] == 'b');
    assert("total_bytes_sent"@[7] == 'y');
    assert("total_bytes_sent"@[12] == 's');
    assert("user_agent"@.len() == 10);
    assert("user_agent"@[0] == 'u');
    assert("user_agent"@[6] == 'g');
    assert("user_agent"@[7] == 'e');
    assert("video_bitrate"@.len() == 13);
    assert("video_bitrate"@[0] == 'v');
    assert("video_bitrate"@[6] == 'b');
    assert("video_bitrate"@[7] == 'i');
    assert("video_bitrate"@[12] == 'e');
    assert("video_quality"@.len() == 13);
    assert("video_quality"@[0] == 'v');
    assert("video_quality"@[6] == 'q');
    assert("video_quality"@[7] == 'u');
    assert("video_quality"@[12] == 'y');
    assert forall|i: int| #![trigger source_key(i)] 0 <= i < 22 && i != 0 implies source_key(
        i,
    ) != source_key(0) by {
        let a = source_key(i);
        let b = source_key(0);
        assert(a.len() != b.len() || a[0] != b[0] || a[6] != b[6] || a[7] != b[7] || a[12] != b[12]);
    }
    assert forall|i: int| #![trigger source_key(i)] 0 <= i < 22 && i != 1 implies source_key(
        i,
    ) != source_key(1) by {
        let a = source_key(i);
        let b = source_key(1);
        assert(a.len() != b.len() || a[0] != b[0] || a[6] != b[6] || a[7] != b[7] || a[12] != b[12]);
    }
    assert forall|i: int| #![trigger source_key(i)] 0 <= i < 22 && i != 2 implies source_key(
        i,
    ) != source_key(2) by {
        let a = source_key(i);
        let b = source_key(2);
        assert(a.len() != b.len() || a[0] != b[0] || a[6] != b[6] || a[7] != b[7] || a[12] != b[12]);
    }
    assert forall|i: int| #![trigger source_key(i)] 0 <= i < 22 && i != 3 implies source_key(
        i,
    ) != source_key(3) by {
        let a = source_key(i);
        let b = source_key(3);
        assert(a.len() != b.len() || a[0] != b[0] || a[6] != b[6] || a[7] != b[7] || a[12] != b[12]);
    }
    assert forall|i: int| #![trigger source_key(i)] 0 <= i < 22 && i != 4 implies source_key(
        i,
    ) != source_key(4) by {
        let a = source_key(i);
        let b = source_key(4);
        assert(a.len() != b.len() || a[0] != b[0] || a[6] != b[6] || a[7] != b[7] || a[12] != b[12]);
    }
    assert forall|i: int| #![trigger source_key(i)] 0 <= i < 22 && i != 5 implies source_key(
        i,
    ) != source_key(5) by {
        let a = source_key(i);
        let b = source_key(5);
        assert(a.len() != b.len() || a[0] != b[0] || a[6] != b[6] || a[7] != b[7] || a[12] != b[12]);
    }
    assert forall|i: int| #![trigger source_key(i)] 0 <= i < 22 && i != 6 implies source_key(
        i,
    ) != source_key(6) by {
        let a = source_key(i);
        let b = source_key(6);
        assert(a.len() != b.len() || a[0] != b[0] || a[6] != b[6] || a[7] != b[7] || a[12] != b[12]);
    }
    assert forall|i: int| #![trigger source_key(i)] 0 <= i < 22 && i != 7 implies source_key(
        i,
    ) != source_key(7) by {
        let a = source_key(i);
        let b = source_key(7);
        assert(a.len() != b.len() || a[0] != b[0] || a[6] != b[6] || a[7] != b[7] || a[12] != b[12]);
    }
    assert forall|i: int| #![trigger source_key(i)] 0 <= i < 22 && i != 8 implies source_key(
        i,
    ) != source_key(8) by {
        let a = source_key(i);
        let b = source_key(8);
        assert(a.len() != b.len() || a[0] != b[0] || a[6] != b[6] || a[7] != b[7] || a[12] != b[12]);
    }
    assert forall|i: int| #![trigger source_key(i)] 0 <= i < 22 && i != 9 implies source_key(
        i,
    ) != source_key(9) by {
        let a = source_key(i);
        let b = source_key(9);
        assert(a.len() != b.len() || a[0] != b[0] || a[6] != b[6] || a[7] != b[7] || a[12] != b[12]);
    }
    assert forall|i: int| #![trigger source_key(i)] 0 <= i < 22 && i != 10 implies source_key(
        i,
    ) != source_key(10) by {
        let a = source_key(i);
        let b = source_key(10);
        assert(a.len() != b.len() || a[0] != b[0] || a[6] != b[6] || a[7] != b[7] || a[12] != b[12]);
    }
    assert forall|i: int| #![trigger source_key(i)] 0 <= i < 22 && i != 11 implies source_key(
        i,
    ) != source_key(11) by {
        let a = source_key(i);
        let b = source_key(11);
        assert(a.len() != b.len() || a[0] != b[0] || a[6] != b[6] || a[7] != b[7] || a[12] != b[12]);
    }
    assert forall|i: int| #![trigger source_key(i)] 0 <= i < 22 && i != 12 implies source_key(
        i,
    ) != source_key(12) by {
        let a = source_key(i);
        let b = source_key(12);
        assert(a.len() != b.len() || a[0] != b[0] || a[6] != b[6] || a[7] != b[7] || a[12] != b[12]);
    }
    assert forall|i: int| #![trigger source_key(i)] 0 <= i < 22 && i != 13 implies source_key(
        i,
    ) != source_key(13) by {
        let a = source_key(i);
        let b = source_key(13);
        assert(a.len() != b.len() || a[0] != b[0] || a[6] != b[6] || a[7] != b[7] || a[12] != b[12]);
    }
    assert forall|i: int| #![trigger source_key(i)] 0 <= i < 22 && i != 14 implies source_key(
        i,
    ) != source_key(14) by {
        let a = source_key(i);
        let b = source_key(14);
        assert(a.len() != b.len() || a[0] != b[0] || a[6] != b[6] || a[7] != b[7] || a[12] != b[12]);
    }
    assert forall|i: int| #![trigger source_key(i)] 0 <= i < 22 && i != 15 implies source_key(
        i,
    ) != source_key(15) by {
        let a = source_key(i);
        let b = source_key(15);
        assert(a.len() != b.len() || a[0] != b[0] || a[6] != b[6] || a[7] != b[7] || a[12] != b[12]);
    }
    assert forall|i: int| #![trigger source_key(i)] 0 <= i < 22 && i != 16 implies source_key(
        i,
    ) != source_key(16) by {
        let a = source_key(i);
        let b = source_key(16);
        assert(a.len() != b.len() || a[0] != b[0] || a[6] != b[6] || a[7] != b[7] || a[12] != b[12]);
    }
    assert forall|i: int| #![trigger source_key(i)] 0 <= i < 22 && i != 17 implies source_key(
        i,
    ) != source_key(17) by {
        let a = source_key(i);
        let b = source_key(17);
        assert(a.len() != b.len() || a[0] != b[0] || a[6] != b[6] || a[7] != b[7] || a[12] != b[12]);
    }
    assert forall|i: int| #![trigger source_key(i)] 0 <= i < 22 && i != 18 implies source_key(
        i,
    ) != source_key(18) by {
        let a = source_key(i);
        let b = source_key(18);
        assert(a.len() != b.len() || a[0] != b[0] || a[6] != b[6] || a[7] != b[7] || a[12] != b[12]);
    }
    assert forall|i: int| #![trigger source_key(i)] 0 <= i < 22 && i != 19 implies source_key(
        i,
    ) != source_key(19) by {
        let a = source_key(i);
        let b = source_key(19);
        assert(a.len() != b.len() || a[0] != b[0] || a[6] != b[6] || a[7] != b[7] || a[12] != b[12]);
    }
    assert forall|i: int| #![trigger source_key(i)] 0 <= i < 22 && i != 20 implies source_key(
        i,
    ) != source_key(20) by {
        let a = source_key(i);
        let b = source_key(20);
        assert(a.len() != b.len() || a[0] != b[0] || a[6] != b[6] || a[7] != b[7] || a[12] != b[12]);
    }
    assert forall|i: int| #![trigger source_key(i)] 0 <= i < 22 && i != 21 implies source_key(
        i,
    ) != source_key(21) by {
        let a = source_key(i);
        let b = source_key(21);
        assert(a.len() != b.len() || a[0] != b[0] || a[6] != b[6] || a[7] != b[7] || a[12] != b[12]);
    }
    assert forall|i: int, j: int|
        #![trigger source_key(i), source_key(j)]
        0 <= i < 22 && 0 <= j < 22 && i != j implies source_key(i) != source_key(j) by {
        assert(0 <= j < 22);
    }
}

/// Every planned member of `s` stands in `es` under its wire name: present
/// fields bound to their JSON value, absent fields unbound.
pub closed spec fn source_lookups_literal(es: Seq<(String, Json)>, s: &IcecastStatsSource) -> bool {
    lookup(es, "artist"@) == (if s.artist is Some { Some(Json::Str(s.artist->0)) } else { None })
    &&
    lookup(es, "title"@) == (if s.title is Some { Some(Json::Str(s.title->0)) } else { None })
    &&
    lookup(es, "audio_bitrate"@) == (if s.audio_bitrate is Some { Some(Json::Num(s.audio_bitrate->0 as u64)) } else { None })
    &&
    lookup(es, "audio_channels"@) == (if s.audio_channels is Some { Some(Json::Num(s.audio_channels->0 as u64)) } else { None })
    &&
    lookup(es, "audio_samplerate"@) == (if s.audio_samplerate is Some { Some(Json::Num(s.audio_samplerate->0 as u64)) } else { None })
    &&
    lookup(es, "frame_size"@) == (if s.frame_size is Some { Some(Json::Str(s.frame_size->0)) } else { None })
    &&
    lookup(es, "bitrate"@) == (if s.bitrate is Some { Some(Json::Num(s.bitrate->0 as u64)) } else { None })
    &&
    lookup(es, "genre"@) == (if s.genre is Some { Some(Json::Str(s.genre->0)) } else { None })
    &&
    lookup(es, "ice-bitrate"@) == (if s.ice_bitrate is Some { Some(Json::Num(s.ice_bitrate->0 as u64)) } else { None })
    &&
    lookup(es, "listener_peak"@) == (if s.listener_peak is Some { Some(Json::Num(s.listener_peak->0 as u64)) } else { None })
    &&
    lookup(es, "listeners"@) == (if s.listeners is Some { Some(Json::Num(s.listeners->0 as u64)) } else { None })
    &&
    lookup(es, "listenurl"@) == (if s.listenurl is Some { Some(Json::Str(s.listenurl->0)) } else { None })
    &&
    lookup(es, "server_description"@) == (if s.server_description is Some { Some(Json::Str(s.server_description->0)) } else { None })
    &&
    lookup(es, "server_name"@) == (if s.server_name is Some { Some(Json::Str(s.server_name->0)) } else { None })
    &&
    lookup(es, "server_type"@) == (if s.server_type is Some { Some(Json::Str(s.server_type->0)) } else { None })
    &&
    lookup(es, "subtype"@) == (if s.subtype is Some { Some(Json::Str(s.subtype->0)) } else { None })
    &&
    lookup(es, "stream_start_iso8601"@) == (if s.stream_start_iso8601 is Some { Some(Json::Str(s.stream_start_iso8601->0)) } else { None })
    &&
    lookup(es, "total_bytes_read"@) == (if s.total_bytes_read is Some { Some(Json::Num(s.total_bytes_read->0 as u64)) } else { None })
    &&
    lookup(es, "total_bytes_sent"@) == (if s.total_bytes_sent is Some { Some(Json::Num(s.total_bytes_sent->0 as u64)) } else { None })
    &&
    lookup(es, "user_agent"@) == (if s.user_agent is Some { Some(Json::Str(s.user_agent->0)) } else { None })
    &&
    lookup(es, "video_bitrate"@) == (if s.video_bitrate is Some { Some(Json::Num(s.video_bitrate->0 as u64)) } else { None })
    &&
    lookup(es, "video_quality"@) == (if s.video_quality is Some { Some(Json::Num(s.video_quality->0 as u64)) } else { None })
}

/// The indexed construction invariant, completed, says exactly that every
/// planned member stands in the object under its wire name.
pub proof fn lemma_source_lookup_facts(es: Seq<(String, Json)>, s: &IcecastStatsSource)
    requires
        forall|i: int| 0 <= i < 22 ==> #[trigger] lookup(es, source_key(i)) == source_entry(s, i),
    ensures
        source_lookups_literal(es, s),
{
    assert(lookup(es, source_key(0int)) == source_entry(s, 0int));
    assert(lookup(es, "artist"@) == (if s.artist is Some { Some(Json::Str(s.artist->0)) } else { None }));
    assert(lookup(es, source_key(1int)) == source_entry(s, 1int));
    assert(lookup(es, "title"@) == (if s.title is Some { Some(Json::Str(s.title->0)) } else { None }));
    assert(lookup(es, source_key(2int)) == source_entry(s, 2int));
    assert(lookup(es, "audio_bitrate"@) == (if s.audio_bitrate is Some { Some(Json::Num(s.audio_bitrate->0 as u64)) } else { None }));
    assert(lookup(es, source_key(3int)) == source_entry(s, 3int));
    assert(lookup(es, "audio_channels"@) == (if s.audio_channels is Some { Some(Json::Num(s.audio_channels->0 as u64)) } else { None }));
    assert(lookup(es, source_key(4int)) == source_entry(s, 4int));
    assert(lookup(es, "audio_samplerate"@) == (if s.audio_samplerate is Some { Some(Json::Num(s.audio_samplerate->0 as u64)) } else { None }));
    assert(lookup(es, source_key(5int)) == source_entry(s, 5int));
    assert(lookup(es, "frame_size"@) == (if s.frame_size is Some { Some(Json::Str(s.frame_size->0)) } else { None }));
    assert(lookup(es, source_key(6int)) == source_entry(s, 6int));
    assert(lookup(es, "bitrate"@) == (if s.bitrate is Some { Some(Json::Num(s.bitrate->0 as u64)) } else { None }));
    assert(lookup(es, source_key(7int)) == source_entry(s, 7int));
    assert(lookup(es, "genre"@) == (if s.genre is Some { Some(Json::Str(s.genre->0)) } else { None }));
    assert(lookup(es, source_key(8int)) == source_entry(s, 8int));
    assert(lookup(es, "ice-bitrate"@) == (if s.ice_bitrate is Some { Some(Json::Num(s.ice_bitrate->0 as u64)) } else { None }));
    assert(lookup(es, source_key(9int)) == source_entry(s, 9int));
    assert(lookup(es, "listener_peak"@) == (if s.listener_peak is Some { Some(Json::Num(s.listener_peak->0 as u64)) } else { None }));
    assert(lookup(es, source_key(10int)) == source_entry(s, 10int));
    assert(lookup(es, "listeners"@) == (if s.listeners is Some { Some(Json::Num(s.listeners->0 as u64)) } else { None }));
    assert(lookup(es, source_key(11int)) == source_entry(s, 11int));
    assert(lookup(es, "listenurl"@) == (if s.listenurl is Some { Some(Json::Str(s.listenurl->0)) } else { None }));
    assert(lookup(es, source_key(12int)) == source_entry(s, 12int));
    assert(lookup(es, "server_description"@) == (if s.server_description is Some { Some(Json::Str(s.server_description->0)) } else { None }));
    assert(lookup(es, source_key(13int)) == source_entry(s, 13int));
    assert(lookup(es, "server_name"@) == (if s.server_name is Some { Some(Json::Str(s.server_name->0)) } else { None }));
    assert(lookup(es, source_key(14int)) == source_entry(s, 14int));
    assert(lookup(es, "server_type"@) == (if s.server_type is Some { Some(Json::Str(s.server_type->0)) } else { None }));
    assert(lookup(es, source_key(15int)) == source_entry(s, 15int));
    assert(lookup(es, "subtype"@) == (if s.subtype is Some { Some(Json::Str(s.subtype->0)) } else { None }));
    assert(lookup(es, source_key(16int)) == source_entry(s, 16int));
    assert(lookup(es, "stream_start_iso8601"@) == (if s.stream_start_iso8601 is Some { Some(Json::Str(s.stream_start_iso8601->0)) } else { None }));
    assert(lookup(es, source_key(17int)) == source_entry(s, 17int));
    assert(lookup(es, "total_bytes_read"@) == (if s.total_bytes_read is Some { Some(Json::Num(s.total_bytes_read->0 as u64)) } else { None }));
    assert(lookup(es, source_key(18int)) == source_entry(s, 18int));
    assert(lookup(es, "total_bytes_sent"@) == (if s.total_bytes_sent is Some { Some(Json::Num(s.total_bytes_sent->0 as u64)) } else { None }));
    assert(lookup(es, source_key(19int)) == source_entry(s, 19int));
    assert(lookup(es, "user_agent"@) == (if s.user_agent is Some { Some(Json::Str(s.user_agent->0)) } else { None }));
    assert(lookup(es, source_key(20int)) == source_entry(s, 20int));
    assert(lookup(es, "video_bitrate"@) == (if s.video_bitrate is Some { Some(Json::Num(s.video_bitrate->0 as u64)) } else { None }));
    assert(lookup(es, source_key(21int)) == source_entry(s, 21int));
    assert(lookup(es, "video_quality"@) == (if s.video_quality is Some { Some(Json::Num(s.video_quality->0 as u64)) } else { None }));
}

/// An object holding exactly the planned members of a source decodes back to
/// that source's model, with no field-level error in raw-timestamp mode.
#[verifier::rlimit(100)]
pub proof fn lemma_source_obj_decodes(es: Seq<(String, Json)>, s: &IcecastStatsSource)
    requires
        source_lookups_literal(es, s),
    ensures
        source_field_err(es, false) is None,
        source_model_of(es) =~= s@,
{
    assert(source_field_err(es, false) is None);
    assert(source_model_of(es) =~= s@);
}

/// A member name the source decode recognizes.
pub open spec fn source_known_name(n: Seq<char>) -> bool {
    exists|i: int| 0 <= i < 22 && source_key(i) == n
}

/// Forward compatibility: a member with an unrecognized name, inserted at
/// any position of a source object, changes nothing about what the object
/// decodes to.
#[verifier::rlimit(100)]
pub proof fn lemma_source_unknown_member_ignored(
    fs: Seq<(String, Json)>,
    i: int,
    e: (String, Json),
    strict: bool,
)
    requires
        0 <= i <= fs.len(),
        !source_known_name(e.0@),
    ensures
        source_field_err(fs.insert(i, e), strict) == source_field_err(fs, strict),
        source_model_of(fs.insert(i, e)) =~= source_model_of(fs),
{
    crate::json::lemma_lookup_insert(fs, i, e);
    assert(source_key(0int) == "artist"@);
    assert(e.0@ != "artist"@);
    assert(lookup(fs.insert(i, e), "artist"@) == lookup(fs, "artist"@));
    assert(source_key(1int) == "title"@);
    assert(e.0@ != "title"@);
    assert(lookup(fs.insert(i, e), "title"@) == lookup(fs, "title"@));
    assert(source_key(2int) == "audio_bitrate"@);
    assert(e.0@ != "audio_bitrate"@);
    assert(lookup(fs.insert(i, e), "audio_bitrate"@) == lookup(fs, "audio_bitrate"@));
    assert(source_key(3int) == "audio_channels"@);
    assert(e.0@ != "audio_channels"@);
    assert(lookup(fs.insert(i, e), "audio_channels"@) == lookup(fs, "audio_channels"@));
    assert(source_key(4int) == "audio_samplerate"@);
    assert(e.0@ != "audio_samplerate"@);
    assert(lookup(fs.insert(i, e), "audio_samplerate"@) == lookup(fs, "audio_samplerate"@));
    assert(source_key(5int) == "frame_size"@);
    assert(e.0@ != "frame_size"@);
    assert(lookup(fs.insert(i, e), "frame_size"@) == lookup(fs, "frame_size"@));
    assert(source_key(6int) == "bitrate"@);
    assert(e.0@ != "bitrate"@);
    assert(lookup(fs.insert(i, e), "bitrate"@) == lookup(fs, "bitrate"@));
    assert(source_key(7int) == "genre"@);
    assert(e.0@ != "genre"@);
    assert(lookup(fs.insert(i, e), "genre"@) == lookup(fs, "genre"@));
    assert(source_key(8int) == "ice-bitrate"@);
    assert(e.0@ != "ice-bitrate"@);
    assert(lookup(fs.insert(i, e), "ice-bitrate"@) == lookup(fs, "ice-bitrate"@));
    assert(source_key(9int) == "listener_peak"@);
    assert(e.0@ != "listener_peak"@);
    assert(lookup(fs.insert(i, e), "listener_peak"@) == lookup(fs, "listener_peak"@));
    assert(source_key(10int) == "listeners"@);
    assert(e.0@ != "listeners"@);
    assert(lookup(fs.insert(i, e), "listeners"@) == lookup(fs, "listeners"@));
    assert(source_key(11int) == "listenurl"@);
    assert(e.0@ != "listenurl"@);
    assert(lookup(fs.insert(i, e), "listenurl"@) == lookup(fs, "listenurl"@));
    assert(source_key(12int) == "server_description"@);
    assert(e.0@ != "server_description"@);
    assert(lookup(fs.insert(i, e), "server_description"@) == lookup(fs, "server_description"@));
    assert(source_key(13int) == "server_name"@);
    assert(e.0@ != "server_name"@);
    assert(lookup(fs.insert(i, e), "server_name"@) == lookup(fs, "server_name"@));
    assert(source_key(14int) == "server_type"@);
    assert(e.0@ != "server_type"@);
    assert(lookup(fs.insert(i, e), "server_type"@) == lookup(fs, "server_type"@));
    assert(source_key(15int) == "subtype"@);
    assert(e.0@ != "subtype"@);
    assert(lookup(fs.insert(i, e), "subtype"@) == lookup(fs, "subtype"@));
    assert(source_key(16int) == "stream_start_iso8601"@);
    assert(e.0@ != "stream_start_iso8601"@);
    assert(lookup(fs.insert(i, e), "stream_start_iso8601"@) == lookup(fs, "stream_start_iso8601"@));
    assert(source_key(17int) == "total_bytes_read"@);
    assert(e.0@ != "total_bytes_read"@);
    assert(lookup(fs.insert(i, e), "total_bytes_read"@) == lookup(fs, "total_bytes_read"@));
    assert(source_key(18int) == "total_bytes_sent"@);
    assert(e.0@ != "total_bytes_sent"@);
    assert(lookup(fs.insert(i, e), "total_bytes_sent"@) == lookup(fs, "total_bytes_sent"@));
    assert(source_key(19int) == "user_agent"@);
    assert(e.0@ != "user_agent"@);
    assert(lookup(fs.insert(i, e), "user_agent"@) == lookup(fs, "user_agent"@));
    assert(source_key(20int) == "video_bitrate"@);
    assert(e.0@ != "video_bitrate"@);
    assert(lookup(fs.insert(i, e), "video_bitrate"@) == lookup(fs, "video_bitrate"@));
    assert(source_key(21int) == "video_quality"@);
    assert(e.0@ != "video_quality"@);
    assert(lookup(fs.insert(i, e), "video_quality"@) == lookup(fs, "video_quality"@));
    assert(source_field_err(fs.insert(i, e), strict) == source_field_err(fs, strict));
    assert(source_model_of(fs.insert(i, e)) =~= source_model_of(fs));
}

impl IcecastStatsSource {
    /// Append the first half of the planned members.
    #[verifier::rlimit(100)]
    fn encode_members_front(&self, es: &mut Vec<(String, Json)>)
        requires
            built_upto(old(es)@, source_keys_fn(), source_entries_fn(self), 22, 0),
        ensures
            built_upto(final(es)@, source_keys_fn(), source_entries_fn(self), 22, 11),
    {
        let ghost keys: spec_fn(int) -> Seq<char> = source_keys_fn();
        let ghost entries: spec_fn(int) -> Option<Json> = source_entries_fn(self);
        proof {
            lemma_source_keys_distinct();
        }
        let ghost prev = es@;
        push_opt_str(es, "artist", &self.artist);
        proof {
            assert(keys(0int) == "artist"@);
            assert(entries(0int) == (if self.artist is Some { Some(Json::Str(self.artist->0)) } else { None }));
            lemma_built_step(prev, es@, keys, entries, 22, 0);
        }
        let ghost prev = es@;
        push_opt_str(es, "title", &self.title);
        proof {
            assert(keys(1int) == "title"@);
            assert(entries(1int) == (if self.title is Some { Some(Json::Str(self.title->0)) } else { None }));
            lemma_built_step(prev, es@, keys, entries, 22, 1);
        }
        let ghost prev = es@;
        push_opt_u32(es, "audio_bitrate", &self.audio_bitrate);
        proof {
            assert(keys(2int) == "audio_bitrate"@);
            assert(entries(2int) == (if self.audio_bitrate is Some { Some(Json::Num(self.audio_bitrate->0 as u64)) } else { None }));
            lemma_built_step(prev, es@, keys, entries, 22, 2);
        }
        let ghost prev = es@;
        push_opt_u8(es, "audio_channels", &self.audio_channels);
        proof {
            assert(keys(3int) == "audio_channels"@);
            assert(entries(3int) == (if self.audio_channels is Some { Some(Json::Num(self.audio_channels->0 as u64)) } else { None }));
            lemma_built_step(prev, es@, keys, entries, 22, 3);
        }
        let ghost prev = es@;
        push_opt_u32(es, "audio_samplerate", &self.audio_samplerate);
        proof {
            assert(keys(4int) == "audio_samplerate"@);
            assert(entries(4int) == (if self.audio_samplerate is Some { Some(Json::Num(self.audio_samplerate->0 as u64)) } else { None }));
            lemma_built_step(prev, es@, keys, entries, 22, 4);
        }
        let ghost prev = es@;
        push_opt_str(es, "frame_size", &self.frame_size);
        proof {
            assert(keys(5int) == "frame_size"@);
            assert(entries(5int) == (if self.frame_size is Some { Some(Json::Str(self.frame_size->0)) } else { None }));
            lemma_built_step(prev, es@, keys, entries, 22, 5);
        }
        let ghost prev = es@;
        push_opt_u32(es, "bitrate", &self.bitrate);
        proof {
            assert(keys(6int) == "bitrate"@);
            assert(entries(6int) == (if self.bitrate is Some { Some(Json::Num(self.bitrate->0 as u64)) } else { None }));
            lemma_built_step(prev, es@, keys, entries, 22, 6);
        }
        let ghost prev = es@;
        push_opt_str(es, "genre", &self.genre);
        proof {
            assert(keys(7int) == "genre"@);
            assert(entries(7int) == (if self.genre is Some { Some(Json::Str(self.genre->0)) } else { None }));
            lemma_built_step(prev, es@, keys, entries, 22, 7);
        }
        let ghost prev = es@;
        push_opt_u32(es, "ice-bitrate", &self.ice_bitrate);
        proof {
            assert(keys(8int) == "ice-bitrate"@);
            assert(entries(8int) == (if self.ice_bitrate is Some { Some(Json::Num(self.ice_bitrate->0 as u64)) } else { None }));
            lemma_built_step(prev, es@, keys, entries, 22, 8);
        }
        let ghost prev = es@;
        push_opt_u32(es, "listener_peak", &self.listener_peak);
        proof {
            assert(keys(9int) == "listener_peak"@);
            assert(entries(9int) == (if self.listener_peak is Some { Some(Json::Num(self.listener_peak->0 as u64)) } else { None }));
            lemma_built_step(prev, es@, keys, entries, 22, 9);
        }
        let ghost prev = es@;
        push_opt_u32(es, "listeners", &self.listeners);
        proof {
            assert(keys(10int) == "listeners"@);
            assert(entries(10int) == (if self.listeners is Some { Some(Json::Num(self.listeners->0 as u64)) } else { None }));
            lemma_built_step(prev, es@, keys, entries, 22, 10);
        }
    }

    /// Append the second half of the planned members.
    #[verifier::rlimit(100)]
    fn encode_members_back(&self, es: &mut Vec<(String, Json)>)
        requires
            built_upto(old(es)@, source_keys_fn(), source_entries_fn(self), 22, 11),
        ensures
            built_upto(final(es)@, source_keys_fn(), source_entries_fn(self), 22, 22),
    {
        let ghost keys: spec_fn(int) -> Seq<char> = source_keys_fn();
        let ghost entries: spec_fn(int) -> Option<Json> = source_entries_fn(self);
        proof {
            lemma_source_keys_distinct();
        }
        let ghost prev = es@;
        push_opt_str(es, "listenurl", &self.listenurl);
        proof {
            assert(keys(11int) == "listenurl"@);
            assert(entries(11int) == (if self.listenurl is Some { Some(Json::Str(self.listenurl->0)) } else { None }));
            lemma_built_step(prev, es@, keys, entries, 22, 11);
        }
        let ghost prev = es@;
        push_opt_str(es, "server_description", &self.server_description);
        proof {
            assert(keys(12int) == "server_description"@);
            assert(entries(12int) == (if self.server_description is Some { Some(Json::Str(self.server_description->0)) } else { None }));
            lemma_built_step(prev, es@, keys, entries, 22, 12);
        }
        let ghost prev = es@;
        push_opt_str(es, "server_name", &self.server_name);
        proof {
            assert(keys(13int) == "server_name"@);
            assert(entries(13int) == (if self.server_name is Some { Some(Json::Str(self.server_name->0)) } else { None }));
            lemma_built_step(prev, es@, keys, entries, 22, 13);
        }
        let ghost prev = es@;
        push_opt_str(es, "server_type", &self.server_type);
        proof {
            assert(keys(14int) == "server_type"@);
            assert(entries(14int) == (if self.server_type is Some { Some(Json::Str(self.server_type->0)) } else { None }));
            lemma_built_step(prev, es@, keys, entries, 22, 14);
        }
        let ghost prev = es@;
        push_opt_str(es, "subtype", &self.subtype);
        proof {
            assert(keys(15int) == "subtype"@);
            assert(entries(15int) == (if self.subtype is Some { Some(Json::Str(self.subtype->0)) } else { None }));
            lemma_built_step(prev, es@, keys, entries, 22, 15);
        }
        let ghost prev = es@;
        push_opt_str(es, "stream_start_iso8601", &self.stream_start_iso8601);
        proof {
            assert(keys(16int) == "stream_start_iso8601"@);
            assert(entries(16int) == (if self.stream_start_iso8601 is Some { Some(Json::Str(self.stream_start_iso8601->0)) } else { None }));
            lemma_built_step(prev, es@, keys, entries, 22, 16);
        }
        let ghost prev = es@;
        push_opt_u32(es, "total_bytes_read", &self.total_bytes_read);
        proof {
            assert(keys(17int) == "total_bytes_read"@);
            assert(entries(17int) == (if self.total_bytes_read is Some { Some(Json::Num(self.total_bytes_read->0 as u64)) } else { None }));
            lemma_built_step(prev, es@, keys, entries, 22, 17);
        }
        let ghost prev = es@;
        push_opt_u32(es, "total_bytes_sent", &self.total_bytes_sent);
        proof {
            assert(keys(18int) == "total_bytes_sent"@);
            assert(entries(18int) == (if self.total_bytes_sent is Some { Some(Json::Num(self.total_bytes_sent->0 as u64)) } else { None }));
            lemma_built_step(prev, es@, keys, entries, 22, 18);
        }
        let ghost prev = es@;
        push_opt_str(es, "user_agent", &self.user_agent);
        proof {
            assert(keys(19int) == "user_agent"@);
            assert(entries(19int) == (if self.user_agent is Some { Some(Json::Str(self.user_agent->0)) } else { None }));
            lemma_built_step(prev, es@, keys, entries, 22, 19);
        }
        let ghost prev = es@;
        push_opt_u32(es, "video_bitrate", &self.video_bitrate);
        proof {
            assert(keys(20int) == "video_bitrate"@);
            assert(entries(20int) == (if self.video_bitrate is Some { Some(Json::Num(self.video_bitrate->0 as u64)) } else { None }));
            lemma_built_step(prev, es@, keys, entries, 22, 20);
        }
        let ghost prev = es@;
        push_opt_u32(es, "video_quality", &self.video_quality);
        proof {
            assert(keys(21int) == "video_quality"@);
            assert(entries(21int) == (if self.video_quality is Some { Some(Json::Num(self.video_quality->0 as u64)) } else { None }));
            lemma_built_step(prev, es@, keys, entries, 22, 21);
        }
    }

    /// Encode this source back to a JSON object holding exactly its present
    /// fields, in a fixed order, under the wire names the decoder reads; the
    /// result decodes back to the same model.
    #[verifier::rlimit(100)]
    pub fn encode(&self) -> (r: Json)
        ensures
            decode_source_spec(r, false) == Ok::<SourceModel, DecodeErrorModel>(self@),
            r matches Json::Obj(_),
    {
        let mut es: Vec<(String, Json)> = Vec::new();
        proof {
            assert(built_upto(es@, source_keys_fn(), source_entries_fn(self), 22, 0));
        }
        self.encode_members_front(&mut es);
        self.encode_members_back(&mut es);
        proof {
            assert forall|i: int| 0 <= i < 22 implies #[trigger] lookup(es@, source_key(i))
                == source_entry(self, i) by {
                let keys = source_keys_fn();
                let entries = source_entries_fn(self);
                assert(lookup(es@, keys(i)) == entries(i));
            }
            lemma_source_lookup_facts(es@, self);
            lemma_source_obj_decodes(es@, self);
        }
        Json::Obj(es)
    }
}


impl IcecastStatsSource {
    /// Artist of the current song, as set by the source client.
    /// `None` when the field was absent from the document.
    pub fn artist(&self) -> (r: &Option<String>)
        ensures
            opt_view(*r) == self@.artist,
    {
        &self.artist
    }

    /// Title of the current song, as set by the source client.
    /// `None` when the field was absent from the document.
    pub fn title(&self) -> (r: &Option<String>)
        ensures
            opt_view(*r) == self@.title,
    {
        &self.title
    }

    /// Audio bitrate in bits per second, as set by the source client.
    /// `None` when the field was absent from the document.
    pub fn audio_bitrate(&self) -> (r: &Option<u32>)
        ensures
            *r == self@.audio_bitrate,
    {
        &self.audio_bitrate
    }

    /// Number of audio channels, as set by the source client.
    /// `None` when the field was absent from the document.
    pub fn audio_channels(&self) -> (r: &Option<u8>)
        ensures
            *r == self@.audio_channels,
    {
        &self.audio_channels
    }

    /// Sample rate of the stream, as set by the source client.
    /// `None` when the field was absent from the document.
    pub fn audio_samplerate(&self) -> (r: &Option<u32>)
        ensures
            *r == self@.audio_samplerate,
    {
        &self.audio_samplerate
    }

    /// Video frame size, such as `720 x 576`.
    /// `None` when the field was absent from the document.
    pub fn frame_size(&self) -> (r: &Option<String>)
        ensures
            opt_view(*r) == self@.frame_size,
    {
        &self.frame_size
    }

    /// Nominal bitrate of the stream.
    /// `None` when the field was absent from the document.
    pub fn bitrate(&self) -> (r: &Option<u32>)
        ensures
            *r == self@.bitrate,
    {
        &self.bitrate
    }

    /// Genre of the stream, such as `jazz` or `classical`.
    /// `None` when the field was absent from the document.
    pub fn genre(&self) -> (r: &Option<String>)
        ensures
            opt_view(*r) == self@.genre,
    {
        &self.genre
    }

    /// Bitrate as reported in the `ice-bitrate` wire field.
    /// `None` when the field was absent from the document.
    pub fn ice_bitrate(&self) -> (r: &Option<u32>)
        ensures
            *r == self@.ice_bitrate,
    {
        &self.ice_bitrate
    }

    /// Peak of concurrent listeners on this mount point.
    /// `None` when the field was absent from the document.
    pub fn listener_peak(&self) -> (r: &Option<u32>)
        ensures
            *r == self@.listener_peak,
    {
        &self.listener_peak
    }

    /// Currently active listeners.
    /// `None` when the field was absent from the document.
    pub fn listeners(&self) -> (r: &Option<u32>)
        ensures
            *r == self@.listeners,
    {
        &self.listeners
    }

    /// The mount point's listen URL, the closest thing to an identity.
    /// `None` when the field was absent from the document.
    pub fn listenurl(&self) -> (r: &Option<String>)
        ensures
            opt_view(*r) == self@.listenurl,
    {
        &self.listenurl
    }

    /// Description of the mount point.
    /// `None` when the field was absent from the document.
    pub fn server_description(&self) -> (r: &Option<String>)
        ensures
            opt_view(*r) == self@.server_description,
    {
        &self.server_description
    }

    /// Name of the mount point.
    /// `None` when the field was absent from the document.
    pub fn server_name(&self) -> (r: &Option<String>)
        ensures
            opt_view(*r) == self@.server_name,
    {
        &self.server_name
    }

    /// MIME type of the stream currently active on this mount point.
    /// `None` when the field was absent from the document.
    pub fn server_type(&self) -> (r: &Option<String>)
        ensures
            opt_view(*r) == self@.server_type,
    {
        &self.server_type
    }

    /// MIME subtype, such as the codec of the stream.
    /// `None` when the field was absent from the document.
    pub fn subtype(&self) -> (r: &Option<String>)
        ensures
            opt_view(*r) == self@.subtype,
    {
        &self.subtype
    }

    /// Timestamp the stream started at.
    /// `None` when the field was absent from the document.
    pub fn stream_start_iso8601(&self) -> (r: &Option<String>)
        ensures
            opt_view(*r) == self@.stream_start_iso8601,
    {
        &self.stream_start_iso8601
    }

    /// HTTP user agent string as sent by the source client.
    /// `None` when the field was absent from the document.
    pub fn user_agent(&self) -> (r: &Option<String>)
        ensures
            opt_view(*r) == self@.user_agent,
    {
        &self.user_agent
    }

    /// Video bitrate in bits per second.
    /// `None` when the field was absent from the document.
    pub fn video_bitrate(&self) -> (r: &Option<u32>)
        ensures
            *r == self@.video_bitrate,
    {
        &self.video_bitrate
    }

    /// Video quality setting.
    /// `None` when the field was absent from the document.
    pub fn video_quality(&self) -> (r: &Option<u32>)
        ensures
            *r == self@.video_quality,
    {
        &self.video_quality
    }

}

} // verus!
