//! The layout of the two record kinds in bytes.
//!
//! A traffic report is laid out as
//!
//! ```text
//! id              8 bytes, little-endian
//! reporter_id     8 bytes, little-endian
//! timestamp       8 bytes, little-endian
//! severity        1 byte
//! resolved        1 byte, 0 or 1
//! n               8 bytes, little-endian: the length of the description
//! description     n bytes, UTF-8
//! location        the remaining bytes, UTF-8
//! ```
//!
//! and a user profile as
//!
//! ```text
//! id              8 bytes, little-endian
//! points          8 bytes, little-endian
//! contributions   8 bytes, little-endian
//! route_tokens    8 bytes, little-endian
//! username        the remaining bytes, UTF-8
//! ```
//!
//! Every record has exactly one encoding, and decoding an encoding gives the
//! record back.

use crate::record::{TrafficReport, TrafficReportView, UserProfile, UserProfileView};
use crate::text::text_from_utf8;
use vstd::bytes::{
    lemma_auto_spec_u64_to_from_le_bytes, spec_u64_from_le_bytes, spec_u64_to_le_bytes,
    u64_from_le_bytes, u64_to_le_bytes,
};
use vstd::prelude::*;
use vstd::slice::{slice_subrange, slice_to_vec};
use vstd::string::StrSliceExecFns;
use vstd::utf8::{
    decode_utf8, decode_utf8_encode_utf8, encode_utf8, encode_utf8_decode_utf8,
    encode_utf8_valid_utf8, valid_utf8,
};

verus! {

/// The largest encoding of a traffic report that the durable map takes.
pub const REPORT_MAX_SIZE: usize = 1024;

/// The largest encoding of a user profile that the durable map takes.
pub const PROFILE_MAX_SIZE: usize = 512;

/// The number of bytes of an encoded traffic report before its texts.
pub const REPORT_FIXED_SIZE: usize = 34;

/// The number of bytes of an encoded user profile before its name.
pub const PROFILE_FIXED_SIZE: usize = 32;

/// The byte that stands for a truth value.
pub open spec fn flag_byte(flag: bool) -> u8 {
    if flag {
        1
    } else {
        0
    }
}

/// The encoding of a traffic report.
pub open spec fn report_bytes(report: TrafficReportView) -> Seq<u8> {
    spec_u64_to_le_bytes(report.id) + spec_u64_to_le_bytes(report.reporter_id)
        + spec_u64_to_le_bytes(report.timestamp) + seq![report.severity, flag_byte(report.resolved)]
        + spec_u64_to_le_bytes(encode_utf8(report.description).len() as u64) + encode_utf8(
        report.description,
    ) + encode_utf8(report.location)
}

/// The length of the encoding of a traffic report with the given texts.
pub open spec fn report_size(description: Seq<char>, location: Seq<char>) -> nat {
    REPORT_FIXED_SIZE as nat + encode_utf8(description).len() + encode_utf8(location).len()
}

/// The traffic report that the bytes encode, if they encode one.
pub open spec fn parse_report(bytes: Seq<u8>) -> Option<TrafficReportView> {
    if bytes.len() < REPORT_FIXED_SIZE {
        None
    } else {
        let text_len = spec_u64_from_le_bytes(bytes.subrange(26, 34));
        if bytes[25] > 1 || text_len > bytes.len() - REPORT_FIXED_SIZE {
            None
        } else {
            let description = bytes.subrange(34, 34 + text_len);
            let location = bytes.subrange(34 + text_len, bytes.len() as int);
            if valid_utf8(description) && valid_utf8(location) {
                Some(
                    TrafficReportView {
                        id: spec_u64_from_le_bytes(bytes.subrange(0, 8)),
                        reporter_id: spec_u64_from_le_bytes(bytes.subrange(8, 16)),
                        timestamp: spec_u64_from_le_bytes(bytes.subrange(16, 24)),
                        severity: bytes[24],
                        resolved: bytes[25] == 1,
                        description: decode_utf8(description),
                        location: decode_utf8(location),
                    },
                )
            } else {
                None
            }
        }
    }
}

/// The encoding of a user profile.
pub open spec fn profile_bytes(profile: UserProfileView) -> Seq<u8> {
    spec_u64_to_le_bytes(profile.id) + spec_u64_to_le_bytes(profile.points) + spec_u64_to_le_bytes(
        profile.contributions,
    ) + spec_u64_to_le_bytes(profile.route_tokens) + encode_utf8(profile.username)
}

/// The length of the encoding of a user profile with the given name.
pub open spec fn profile_size(username: Seq<char>) -> nat {
    PROFILE_FIXED_SIZE as nat + encode_utf8(username).len()
}

/// The user profile that the bytes encode, if they encode one.
pub open spec fn parse_profile(bytes: Seq<u8>) -> Option<UserProfileView> {
    if bytes.len() < PROFILE_FIXED_SIZE {
        None
    } else {
        let username = bytes.subrange(32, bytes.len() as int);
        if valid_utf8(username) {
            Some(
                UserProfileView {
                    id: spec_u64_from_le_bytes(bytes.subrange(0, 8)),
                    points: spec_u64_from_le_bytes(bytes.subrange(8, 16)),
                    contributions: spec_u64_from_le_bytes(bytes.subrange(16, 24)),
                    route_tokens: spec_u64_from_le_bytes(bytes.subrange(24, 32)),
                    username: decode_utf8(username),
                },
            )
        } else {
            None
        }
    }
}

/// The encoding of a traffic report is as long as `report_size` says.
pub proof fn lemma_report_bytes_len(report: TrafficReportView)
    ensures
        report_bytes(report).len() == report_size(report.description, report.location),
{
    lemma_auto_spec_u64_to_from_le_bytes();
}

/// The encoding of a user profile is as long as `profile_size` says.
pub proof fn lemma_profile_bytes_len(profile: UserProfileView)
    ensures
        profile_bytes(profile).len() == profile_size(profile.username),
{
    lemma_auto_spec_u64_to_from_le_bytes();
}

/// Encoding a traffic report and decoding the bytes gives the report back,
/// whatever its texts, as long as the length of the description can be
/// written in eight bytes.
pub proof fn lemma_report_round_trip(report: TrafficReportView)
    requires
        encode_utf8(report.description).len() <= u64::MAX,
    ensures
        parse_report(report_bytes(report)) == Some(report),
{
    lemma_auto_spec_u64_to_from_le_bytes();
    let description = encode_utf8(report.description);
    let location = encode_utf8(report.location);
    let bytes = report_bytes(report);
    let text_len = description.len() as u64;
    assert(bytes.subrange(0, 8) =~= spec_u64_to_le_bytes(report.id));
    assert(bytes.subrange(8, 16) =~= spec_u64_to_le_bytes(report.reporter_id));
    assert(bytes.subrange(16, 24) =~= spec_u64_to_le_bytes(report.timestamp));
    assert(bytes.subrange(26, 34) =~= spec_u64_to_le_bytes(text_len));
    assert(bytes.subrange(34, 34 + text_len) =~= description);
    assert(bytes.subrange(34 + text_len, bytes.len() as int) =~= location);
    assert(bytes[24] == report.severity);
    assert(bytes[25] == flag_byte(report.resolved));
    encode_utf8_valid_utf8(report.description);
    encode_utf8_valid_utf8(report.location);
    encode_utf8_decode_utf8(report.description);
    encode_utf8_decode_utf8(report.location);
}

/// Bytes that decode to a traffic report are the encoding of that report:
/// no two byte sequences stand for the same report.
pub proof fn lemma_report_encoding_is_unique(bytes: Seq<u8>)
    requires
        parse_report(bytes) is Some,
    ensures
        report_bytes(parse_report(bytes)->0) == bytes,
{
    lemma_auto_spec_u64_to_from_le_bytes();
    let report = parse_report(bytes)->0;
    let text_len = spec_u64_from_le_bytes(bytes.subrange(26, 34));
    let description = bytes.subrange(34, 34 + text_len);
    let location = bytes.subrange(34 + text_len, bytes.len() as int);
    decode_utf8_encode_utf8(description);
    decode_utf8_encode_utf8(location);
    assert(spec_u64_to_le_bytes(report.id) == bytes.subrange(0, 8));
    assert(spec_u64_to_le_bytes(report.reporter_id) == bytes.subrange(8, 16));
    assert(spec_u64_to_le_bytes(report.timestamp) == bytes.subrange(16, 24));
    assert(spec_u64_to_le_bytes(text_len) == bytes.subrange(26, 34));
    assert(encode_utf8(report.description).len() as u64 == text_len);
    assert(report_bytes(report) =~= bytes);
}

/// Encoding a user profile and decoding the bytes gives the profile back,
/// whatever its name.
pub proof fn lemma_profile_round_trip(profile: UserProfileView)
    ensures
        parse_profile(profile_bytes(profile)) == Some(profile),
{
    lemma_auto_spec_u64_to_from_le_bytes();
    let bytes = profile_bytes(profile);
    assert(bytes.subrange(0, 8) =~= spec_u64_to_le_bytes(profile.id));
    assert(bytes.subrange(8, 16) =~= spec_u64_to_le_bytes(profile.points));
    assert(bytes.subrange(16, 24) =~= spec_u64_to_le_bytes(profile.contributions));
    assert(bytes.subrange(24, 32) =~= spec_u64_to_le_bytes(profile.route_tokens));
    assert(bytes.subrange(32, bytes.len() as int) =~= encode_utf8(profile.username));
    encode_utf8_valid_utf8(profile.username);
    encode_utf8_decode_utf8(profile.username);
}

/// Bytes that decode to a user profile are the encoding of that profile.
pub proof fn lemma_profile_encoding_is_unique(bytes: Seq<u8>)
    requires
        parse_profile(bytes) is Some,
    ensures
        profile_bytes(parse_profile(bytes)->0) == bytes,
{
    lemma_auto_spec_u64_to_from_le_bytes();
    let profile = parse_profile(bytes)->0;
    decode_utf8_encode_utf8(bytes.subrange(32, bytes.len() as int));
    assert(spec_u64_to_le_bytes(profile.id) == bytes.subrange(0, 8));
    assert(spec_u64_to_le_bytes(profile.points) == bytes.subrange(8, 16));
    assert(spec_u64_to_le_bytes(profile.contributions) == bytes.subrange(16, 24));
    assert(spec_u64_to_le_bytes(profile.route_tokens) == bytes.subrange(24, 32));
    assert(profile_bytes(profile) =~= bytes);
}

/// Whether a traffic report with these texts fits the durable map.
pub fn report_fits(description: &str, location: &str) -> (fits: bool)
    ensures
        fits == (report_size(description@, location@) <= REPORT_MAX_SIZE),
{
    let description_len = description.as_bytes().len();
    let location_len = location.as_bytes().len();
    let room = REPORT_MAX_SIZE - REPORT_FIXED_SIZE;
    description_len <= room && location_len <= room - description_len
}

/// Encodes a traffic report.
pub fn encode_report(report: &TrafficReport) -> (bytes: Vec<u8>)
    ensures
        bytes@ == report_bytes(report@),
{
    let mut description = report.description.as_str().as_bytes_vec();
    let mut location = report.location.as_str().as_bytes_vec();
    let mut bytes = u64_to_le_bytes(report.id);
    let mut reporter_id = u64_to_le_bytes(report.reporter_id);
    bytes.append(&mut reporter_id);
    let mut timestamp = u64_to_le_bytes(report.timestamp);
    bytes.append(&mut timestamp);
    bytes.push(report.severity);
    bytes.push(if report.resolved { 1 } else { 0 });
    let mut text_len = u64_to_le_bytes(description.len() as u64);
    bytes.append(&mut text_len);
    bytes.append(&mut description);
    bytes.append(&mut location);
    assert(bytes@ =~= report_bytes(report@));
    bytes
}

/// Decodes a traffic report; `None` for bytes that do not encode one.
pub fn decode_report(bytes: &[u8]) -> (report: Option<TrafficReport>)
    ensures
        match parse_report(bytes@) {
            Some(parsed) => report matches Some(decoded) && decoded@ == parsed,
            None => report is None,
        },
{
    if bytes.len() < REPORT_FIXED_SIZE {
        return None;
    }
    let id = u64_from_le_bytes(slice_subrange(bytes, 0, 8));
    let reporter_id = u64_from_le_bytes(slice_subrange(bytes, 8, 16));
    let timestamp = u64_from_le_bytes(slice_subrange(bytes, 16, 24));
    let severity = bytes[24];
    let resolved = bytes[25];
    let text_len = u64_from_le_bytes(slice_subrange(bytes, 26, 34));
    if resolved > 1 || text_len > (bytes.len() - REPORT_FIXED_SIZE) as u64 {
        return None;
    }
    let middle = REPORT_FIXED_SIZE + text_len as usize;
    let description = text_from_utf8(slice_to_vec(slice_subrange(bytes, REPORT_FIXED_SIZE, middle)));
    let location = text_from_utf8(slice_to_vec(slice_subrange(bytes, middle, bytes.len())));
    match (description, location) {
        (Some(description), Some(location)) => Some(
            TrafficReport {
                id,
                reporter_id,
                description,
                location,
                timestamp,
                severity,
                resolved: resolved == 1,
            },
        ),
        _ => None,
    }
}

/// Encodes a user profile.
pub fn encode_profile(profile: &UserProfile) -> (bytes: Vec<u8>)
    ensures
        bytes@ == profile_bytes(profile@),
{
    let mut username = profile.username.as_str().as_bytes_vec();
    let mut bytes = u64_to_le_bytes(profile.id);
    let mut points = u64_to_le_bytes(profile.points);
    bytes.append(&mut points);
    let mut contributions = u64_to_le_bytes(profile.contributions);
    bytes.append(&mut contributions);
    let mut route_tokens = u64_to_le_bytes(profile.route_tokens);
    bytes.append(&mut route_tokens);
    bytes.append(&mut username);
    assert(bytes@ =~= profile_bytes(profile@));
    bytes
}

/// Decodes a user profile; `None` for bytes that do not encode one.
pub fn decode_profile(bytes: &[u8]) -> (profile: Option<UserProfile>)
    ensures
        match parse_profile(bytes@) {
            Some(parsed) => profile matches Some(decoded) && decoded@ == parsed,
            None => profile is None,
        },
{
    if bytes.len() < PROFILE_FIXED_SIZE {
        return None;
    }
    let id = u64_from_le_bytes(slice_subrange(bytes, 0, 8));
    let points = u64_from_le_bytes(slice_subrange(bytes, 8, 16));
    let contributions = u64_from_le_bytes(slice_subrange(bytes, 16, 24));
    let route_tokens = u64_from_le_bytes(slice_subrange(bytes, 24, 32));
    match text_from_utf8(slice_to_vec(slice_subrange(bytes, PROFILE_FIXED_SIZE, bytes.len()))) {
        Some(username) => Some(UserProfile { id, username, points, contributions, route_tokens }),
        None => None,
    }
}

} // verus!
