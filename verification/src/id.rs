//! Identifiers of users, projects and log entries.
//!
//! An identifier is a 128-bit value laid out as a version 7 UUID: the upper
//! 48 bits hold the creation time in milliseconds since the Unix epoch, the
//! next four bits the version tag, the rest a counter and random bits. An
//! identifier always carries the version tag [`ID_VERSION`]; a raw value
//! with another tag is refused when it enters the library.
//!
//! Fresh values, parsing and formatting come from the `uuid` crate. The
//! functions that call it are private to this module and their contracts are
//! taken on trust; each says which function of `uuid` it stands for.

use vstd::prelude::*;

use crate::clock::elapsed_since_epoch;

verus! {

/// The version tag that every identifier carries.
pub const ID_VERSION: usize = 7;

/// A value that does not meet the data model.
#[derive(Debug, Clone, Copy, PartialEq, Eq, Structural)]
pub enum ModelError {
    /// The raw value or text is no identifier of this scheme.
    InvalidId,
}

/// A point in time as an identifier records it: whole seconds since the Unix
/// epoch and the nanoseconds into that second.
#[derive(Debug, Clone, Copy, PartialEq, Eq, Structural)]
pub struct Timestamp {
    pub seconds: u64,
    pub subsec_nanos: u32,
}

/// The version tag of a raw 128-bit value: bits 76 to 79.
pub open spec fn version_of(raw: u128) -> u128 {
    (raw >> 76) & 0xf
}

/// Whether a raw 128-bit value is an identifier of this scheme.
pub open spec fn is_valid_id(raw: u128) -> bool {
    version_of(raw) == ID_VERSION
}

/// The creation time that a raw value encodes, in milliseconds since the Unix
/// epoch: its upper 48 bits.
pub open spec fn unix_millis_of(raw: u128) -> u128 {
    raw >> 80
}

/// The creation time that a raw value encodes, as a [`Timestamp`]. The
/// encoding keeps milliseconds, so the nanoseconds are whole milliseconds.
pub open spec fn timestamp_of(raw: u128) -> Timestamp {
    Timestamp {
        seconds: (unix_millis_of(raw) / 1000) as u64,
        subsec_nanos: ((unix_millis_of(raw) % 1000) * 1_000_000) as u32,
    }
}

/// The `index`-th of the 32 hexadecimal digits of `raw`, the most significant
/// first, in lower case.
pub open spec fn hex_digit_of(raw: u128, index: int) -> char {
    let nibble = (raw >> ((124 - 4 * index) as u128)) & 0xf;
    if nibble < 10 {
        (nibble + 48) as u8 as char
    } else {
        (nibble + 87) as u8 as char
    }
}

/// The text form of a raw value: its 32 hexadecimal digits in lower case, in
/// groups of 8, 4, 4, 4 and 12 with a hyphen between two groups.
pub open spec fn hyphenated_text(raw: u128) -> Seq<char> {
    Seq::new(
        36,
        |at: int|
            if at == 8 || at == 13 || at == 18 || at == 23 {
                '-'
            } else if at < 8 {
                hex_digit_of(raw, at)
            } else if at < 13 {
                hex_digit_of(raw, at - 1)
            } else if at < 18 {
                hex_digit_of(raw, at - 2)
            } else if at < 23 {
                hex_digit_of(raw, at - 3)
            } else {
                hex_digit_of(raw, at - 4)
            },
    )
}

/// The raw value that `uuid::Uuid::parse_str` reads from a text, and `None`
/// where it refuses the text. It accepts 32 hexadecimal digits, bare or in
/// hyphenated groups, the latter also in braces or behind `urn:uuid:`.
pub uninterp spec fn parsed_uuid(text: Seq<char>) -> Option<u128>;

/// Stands for `uuid::Uuid::now_v7`. The result differs from call to call; all
/// that is claimed is that it carries version tag 7, which `now_v7` sets on
/// every value it builds. `now_v7` reads the system clock and expects it not
/// to stand before the Unix epoch, so it is called only after the clock was
/// read and stood at or after the epoch.
#[verifier::external_body]
fn fresh_v7() -> (raw: u128)
    ensures
        is_valid_id(raw),
{
    uuid::Uuid::now_v7().as_u128()
}

/// Stands for `uuid::Uuid::new_v7` on the timestamp that
/// `uuid::Timestamp::from_unix_time` makes of a time and no counter. `new_v7`
/// reads no clock: it writes the milliseconds of the given time into the
/// upper 48 bits, sets version tag 7 and fills the rest with random bits.
/// The time is one that 48 bits of milliseconds hold.
#[verifier::external_body]
fn fresh_v7_at(seconds: u64, subsec_nanos: u32) -> (raw: u128)
    requires
        seconds * 1000 + subsec_nanos / 1_000_000 < 0x1_0000_0000_0000,
    ensures
        is_valid_id(raw),
        unix_millis_of(raw) == seconds * 1000 + subsec_nanos / 1_000_000,
{
    uuid::Uuid::new_v7(uuid::Timestamp::from_unix_time(seconds, subsec_nanos, 0, 0)).as_u128()
}

/// The milliseconds since the Unix epoch of a time of `seconds` whole seconds
/// and `subsec_nanos` nanoseconds into the next.
pub open spec fn millis_of_time(seconds: u64, subsec_nanos: u32) -> int {
    seconds * 1000 + subsec_nanos / 1_000_000
}

/// One more than the last millisecond that an identifier can encode.
pub const MILLIS_END: u64 = 0x1_0000_0000_0000;

/// A fresh raw value that is stamped with the given time, and `None` where
/// the time lies beyond what the 48 bits of an identifier encode.
pub fn raw_stamped_at(seconds: u64, subsec_nanos: u32) -> (res: Option<u128>)
    ensures
        res is Some <==> millis_of_time(seconds, subsec_nanos) < MILLIS_END,
        res matches Some(raw) ==> is_valid_id(raw) && unix_millis_of(raw) == millis_of_time(
            seconds,
            subsec_nanos,
        ),
{
    if seconds > MILLIS_END / 1000 {
        None
    } else if seconds * 1000 + (subsec_nanos / 1_000_000) as u64 >= MILLIS_END {
        None
    } else {
        Some(fresh_v7_at(seconds, subsec_nanos))
    }
}

/// A fresh raw value, stamped with the current time. A clock that stands
/// before the Unix epoch reads as the epoch.
fn fresh_raw() -> (raw: u128)
    ensures
        is_valid_id(raw),
{
    match elapsed_since_epoch() {
        Some(_) => fresh_v7(),
        None => fresh_v7_at(0, 0),
    }
}

/// Stands for `uuid::Uuid::get_version_num`, which returns the upper four
/// bits of the seventh byte, that is bits 76 to 79 of the 128-bit value.
#[verifier::external_body]
fn version_number(raw: u128) -> (version: usize)
    ensures
        version == version_of(raw),
{
    uuid::Uuid::from_u128(raw).get_version_num()
}

/// Stands for `uuid::Uuid::get_timestamp` on a version 7 value: it reads the
/// upper 48 bits as milliseconds since the Unix epoch and returns the whole
/// seconds and the rest in nanoseconds.
#[verifier::external_body]
fn unix_time(raw: u128) -> (time: Option<(u64, u32)>)
    requires
        is_valid_id(raw),
    ensures
        time == Some((timestamp_of(raw).seconds, timestamp_of(raw).subsec_nanos)),
{
    match uuid::Uuid::from_u128(raw).get_timestamp() {
        Some(t) => Some(t.to_unix()),
        None => None,
    }
}

/// Stands for `uuid::Uuid::parse_str`: the value it reads, or `None` where it
/// returns an error.
#[verifier::external_body]
fn parse_uuid(text: &str) -> (raw: Option<u128>)
    ensures
        raw == parsed_uuid(text@),
{
    match uuid::Uuid::parse_str(text) {
        Ok(id) => Some(id.as_u128()),
        Err(_) => None,
    }
}

/// Stands for the `Display` form of `uuid::Uuid`, the hyphenated lower-case
/// text, which `parse_str` reads back as the same value.
#[verifier::external_body]
fn format_uuid(raw: u128) -> (text: String)
    ensures
        text@ == hyphenated_text(raw),
        parsed_uuid(text@) == Some(raw),
{
    uuid::Uuid::from_u128(raw).to_string()
}

/// Accepts the raw values that carry the scheme's version tag.
fn checked_raw(raw: u128) -> (res: Result<u128, ModelError>)
    ensures
        res == validated(raw),
{
    if version_number(raw) == ID_VERSION {
        Ok(raw)
    } else {
        Err(ModelError::InvalidId)
    }
}

/// What validating a raw value gives: the value where it carries the version
/// tag, `InvalidId` otherwise.
pub open spec fn validated(raw: u128) -> Result<u128, ModelError> {
    if is_valid_id(raw) {
        Ok(raw)
    } else {
        Err(ModelError::InvalidId)
    }
}

/// What reading an identifier from the outcome of parsing a text gives:
/// `InvalidId` where the text was refused, otherwise the validated value.
pub open spec fn validated_parse(parsed: Option<u128>) -> Result<u128, ModelError> {
    match parsed {
        Some(raw) => validated(raw),
        None => Err(ModelError::InvalidId),
    }
}

/// Turns the outcome of parsing a text into a validated raw value.
pub fn raw_from_parsed(parsed: Option<u128>) -> (res: Result<u128, ModelError>)
    ensures
        res == validated_parse(parsed),
{
    match parsed {
        Some(raw) => checked_raw(raw),
        None => Err(ModelError::InvalidId),
    }
}

/// The creation time of a validated raw value.
fn timestamp_from_raw(raw: u128) -> (time: Timestamp)
    requires
        is_valid_id(raw),
    ensures
        time == timestamp_of(raw),
{
    match unix_time(raw) {
        Some((seconds, subsec_nanos)) => Timestamp { seconds, subsec_nanos },
        None => {
            // a value that carries the version tag always encodes a time
            assert(false);
            Timestamp { seconds: 0, subsec_nanos: 0 }
        },
    }
}

/// Identifier of a user.
#[derive(Debug, Clone, Copy, PartialEq, Eq, Structural)]
pub struct UserId(u128);

impl View for UserId {
    type V = u128;

    closed spec fn view(&self) -> u128 {
        self.0
    }
}

impl UserId {
    #[verifier::type_invariant]
    spec fn well_formed(self) -> bool {
        is_valid_id(self.0)
    }

    /// Makes a fresh identifier, stamped with the current time.
    pub fn create() -> (id: UserId)
        ensures
            is_valid_id(id@),
    {
        UserId(fresh_raw())
    }

    /// Accepts a raw value as an identifier if it carries the version tag.
    pub fn validate(raw: u128) -> (res: Result<UserId, ModelError>)
        ensures
            res is Ok <==> is_valid_id(raw),
            res matches Ok(id) ==> id@ == raw,
            res matches Err(e) ==> e == ModelError::InvalidId,
    {
        match checked_raw(raw) {
            Ok(raw) => Ok(UserId(raw)),
            Err(e) => Err(e),
        }
    }

    /// Reads an identifier from its text form.
    pub fn parse(text: &str) -> (res: Result<UserId, ModelError>)
        ensures
            match res {
                Ok(id) => validated_parse(parsed_uuid(text@)) == Ok::<u128, ModelError>(id@),
                Err(e) => validated_parse(parsed_uuid(text@)) == Err::<u128, ModelError>(e),
            },
    {
        match raw_from_parsed(parse_uuid(text)) {
            Ok(raw) => Ok(UserId(raw)),
            Err(e) => Err(e),
        }
    }

    /// The raw 128-bit value.
    pub fn as_u128(&self) -> (raw: u128)
        ensures
            raw == self@,
            is_valid_id(raw),
    {
        proof {
            use_type_invariant(self);
        }
        self.0
    }

    /// The creation time that the identifier encodes.
    pub fn timestamp(&self) -> (time: Timestamp)
        ensures
            time == timestamp_of(self@),
    {
        proof {
            use_type_invariant(self);
        }
        timestamp_from_raw(self.0)
    }

    /// The text form, which [`UserId::parse`] reads back.
    pub fn to_string(&self) -> (text: String)
        ensures
            text@ == hyphenated_text(self@),
            parsed_uuid(text@) == Some(self@),
    {
        format_uuid(self.0)
    }
}

impl Default for UserId {
    /// A fresh identifier.
    fn default() -> (id: UserId)
        ensures
            is_valid_id(id@),
    {
        UserId::create()
    }
}

impl core::str::FromStr for UserId {
    type Err = ModelError;

    /// Reads an identifier from its text form, as [`UserId::parse`] does.
    fn from_str(input: &str) -> (res: Result<UserId, ModelError>)
        ensures
            match res {
                Ok(id) => validated_parse(parsed_uuid(input@)) == Ok::<u128, ModelError>(id@),
                Err(e) => validated_parse(parsed_uuid(input@)) == Err::<u128, ModelError>(e),
            },
    {
        UserId::parse(input)
    }
}

/// Identifier of a project.
#[derive(Debug, Clone, Copy, PartialEq, Eq, Structural)]
pub struct ProjectId(u128);

impl View for ProjectId {
    type V = u128;

    closed spec fn view(&self) -> u128 {
        self.0
    }
}

impl ProjectId {
    #[verifier::type_invariant]
    spec fn well_formed(self) -> bool {
        is_valid_id(self.0)
    }

    /// Makes a fresh identifier, stamped with the current time.
    pub fn create() -> (id: ProjectId)
        ensures
            is_valid_id(id@),
    {
        ProjectId(fresh_raw())
    }

    /// Accepts a raw value as an identifier if it carries the version tag.
    pub fn validate(raw: u128) -> (res: Result<ProjectId, ModelError>)
        ensures
            res is Ok <==> is_valid_id(raw),
            res matches Ok(id) ==> id@ == raw,
            res matches Err(e) ==> e == ModelError::InvalidId,
    {
        match checked_raw(raw) {
            Ok(raw) => Ok(ProjectId(raw)),
            Err(e) => Err(e),
        }
    }

    /// Reads an identifier from its text form.
    pub fn parse(text: &str) -> (res: Result<ProjectId, ModelError>)
        ensures
            match res {
                Ok(id) => validated_parse(parsed_uuid(text@)) == Ok::<u128, ModelError>(id@),
                Err(e) => validated_parse(parsed_uuid(text@)) == Err::<u128, ModelError>(e),
            },
    {
        match raw_from_parsed(parse_uuid(text)) {
            Ok(raw) => Ok(ProjectId(raw)),
            Err(e) => Err(e),
        }
    }

    /// The raw 128-bit value.
    pub fn as_u128(&self) -> (raw: u128)
        ensures
            raw == self@,
            is_valid_id(raw),
    {
        proof {
            use_type_invariant(self);
        }
        self.0
    }

    /// The creation time that the identifier encodes.
    pub fn timestamp(&self) -> (time: Timestamp)
        ensures
            time == timestamp_of(self@),
    {
        proof {
            use_type_invariant(self);
        }
        timestamp_from_raw(self.0)
    }

    /// The text form, which [`ProjectId::parse`] reads back.
    pub fn to_string(&self) -> (text: String)
        ensures
            text@ == hyphenated_text(self@),
            parsed_uuid(text@) == Some(self@),
    {
        format_uuid(self.0)
    }
}

impl Default for ProjectId {
    /// A fresh identifier.
    fn default() -> (id: ProjectId)
        ensures
            is_valid_id(id@),
    {
        ProjectId::create()
    }
}

impl core::str::FromStr for ProjectId {
    type Err = ModelError;

    /// Reads an identifier from its text form, as [`ProjectId::parse`] does.
    fn from_str(input: &str) -> (res: Result<ProjectId, ModelError>)
        ensures
            match res {
                Ok(id) => validated_parse(parsed_uuid(input@)) == Ok::<u128, ModelError>(id@),
                Err(e) => validated_parse(parsed_uuid(input@)) == Err::<u128, ModelError>(e),
            },
    {
        ProjectId::parse(input)
    }
}

/// Identifier of a log entry.
#[derive(Debug, Clone, Copy, PartialEq, Eq, Structural)]
pub struct EntryId(u128);

impl View for EntryId {
    type V = u128;

    closed spec fn view(&self) -> u128 {
        self.0
    }
}

impl EntryId {
    #[verifier::type_invariant]
    spec fn well_formed(self) -> bool {
        is_valid_id(self.0)
    }

    /// Makes a fresh identifier, stamped with the current time.
    pub fn create() -> (id: EntryId)
        ensures
            is_valid_id(id@),
    {
        EntryId(fresh_raw())
    }

    /// Accepts a raw value as an identifier if it carries the version tag.
    pub fn validate(raw: u128) -> (res: Result<EntryId, ModelError>)
        ensures
            res is Ok <==> is_valid_id(raw),
            res matches Ok(id) ==> id@ == raw,
            res matches Err(e) ==> e == ModelError::InvalidId,
    {
        match checked_raw(raw) {
            Ok(raw) => Ok(EntryId(raw)),
            Err(e) => Err(e),
        }
    }

    /// Reads an identifier from its text form.
    pub fn parse(text: &str) -> (res: Result<EntryId, ModelError>)
        ensures
            match res {
                Ok(id) => validated_parse(parsed_uuid(text@)) == Ok::<u128, ModelError>(id@),
                Err(e) => validated_parse(parsed_uuid(text@)) == Err::<u128, ModelError>(e),
            },
    {
        match raw_from_parsed(parse_uuid(text)) {
            Ok(raw) => Ok(EntryId(raw)),
            Err(e) => Err(e),
        }
    }

    /// The raw 128-bit value.
    pub fn as_u128(&self) -> (raw: u128)
        ensures
            raw == self@,
            is_valid_id(raw),
    {
        proof {
            use_type_invariant(self);
        }
        self.0
    }

    /// The creation time that the identifier encodes.
    pub fn timestamp(&self) -> (time: Timestamp)
        ensures
            time == timestamp_of(self@),
    {
        proof {
            use_type_invariant(self);
        }
        timestamp_from_raw(self.0)
    }

    /// The text form, which [`EntryId::parse`] reads back.
    pub fn to_string(&self) -> (text: String)
        ensures
            text@ == hyphenated_text(self@),
            parsed_uuid(text@) == Some(self@),
    {
        format_uuid(self.0)
    }
}

impl Default for EntryId {
    /// A fresh identifier.
    fn default() -> (id: EntryId)
        ensures
            is_valid_id(id@),
    {
        EntryId::create()
    }
}

impl core::str::FromStr for EntryId {
    type Err = ModelError;

    /// Reads an identifier from its text form, as [`EntryId::parse`] does.
    fn from_str(input: &str) -> (res: Result<EntryId, ModelError>)
        ensures
            match res {
                Ok(id) => validated_parse(parsed_uuid(input@)) == Ok::<u128, ModelError>(id@),
                Err(e) => validated_parse(parsed_uuid(input@)) == Err::<u128, ModelError>(e),
            },
    {
        EntryId::parse(input)
    }
}

/// Whether `a` lies before `b`.
pub open spec fn earlier(a: Timestamp, b: Timestamp) -> bool {
    a.seconds < b.seconds || (a.seconds == b.seconds && a.subsec_nanos < b.subsec_nanos)
}

/// Of two raw values, the one that encodes the earlier millisecond is the
/// smaller: identifiers sort by creation time.
pub proof fn lemma_earlier_is_smaller(a: u128, b: u128)
    requires
        unix_millis_of(a) < unix_millis_of(b),
    ensures
        a < b,
{
    assert((a >> 80) < (b >> 80) ==> a < b) by (bit_vector);
}

/// The same of the timestamps that the raw values encode: the value with the
/// earlier timestamp is the smaller.
pub proof fn lemma_earlier_timestamp_is_smaller(a: u128, b: u128)
    requires
        earlier(timestamp_of(a), timestamp_of(b)),
    ensures
        a < b,
{
    assert((a >> 80) < 0x1_0000_0000_0000u128) by (bit_vector);
    assert((b >> 80) < 0x1_0000_0000_0000u128) by (bit_vector);
    lemma_earlier_is_smaller(a, b);
}

} // verus!
