//! Identifiers: the 64-bit value that embeds its time of creation, and one
//! distinct type for each kind of entity that such a value can name.

use crate::datetime::DateTime;
use crate::text::{decimal, parse_decimal, parse_u64, render_u64};
use crate::wire::{
    as_text, as_unsigned, error_of, owned_text, Decode, DecodeError, Encode, Json, Value,
};
use crate::idset::Identifier;
use vstd::prelude::*;
use vstd::std_specs::convert::FromSpecImpl;

verus! {

/// The milliseconds from the start of 1970 to the start of 2015, from which
/// the time in an identifier counts.
pub const EPOCH_MILLIS: u64 = 1_420_070_400_000;

/// The milliseconds since the start of 1970 at which the identifier `v` was
/// made: its high 42 bits, counted from `EPOCH_MILLIS`.
pub open spec fn timestamp_millis(v: u64) -> int {
    v / 0x40_0000 + EPOCH_MILLIS
}

/// The worker that made the identifier `v`: the 5 bits above the low 17.
pub open spec fn worker_of(v: u64) -> int {
    ((v / 0x2_0000) % 32) as int
}

/// The process that made the identifier `v`: the 5 bits above the low 12.
pub open spec fn process_of(v: u64) -> int {
    ((v / 0x1000) % 32) as int
}

/// The count within its process and millisecond of the identifier `v`: its
/// low 12 bits.
pub open spec fn increment_of(v: u64) -> int {
    (v % 0x1000) as int
}

/// What reading `j` as an identifier gives: the number of an unsigned
/// token, the number that a text token holds in base 10, and `InvalidValue`
/// for every other token.
pub open spec fn decoded_id(j: Json) -> Result<u64, DecodeError> {
    match j {
        Json::Unsigned(n) => Ok(n),
        Json::Text(s) => match parse_decimal(s) {
            Some(n) => Ok(n),
            None => Err(DecodeError::InvalidValue),
        },
        _ => Err(DecodeError::InvalidValue),
    }
}

/// The wire form of the identifier `v`: its decimal text.
pub open spec fn encoded_id(v: u64) -> Json {
    Json::Text(decimal(v as nat))
}

/// A 64-bit identifier. Every 64-bit value is one.
#[derive(Clone, Copy, Debug, PartialEq, Eq, Structural, Hash, PartialOrd, Ord)]
pub struct Snowflake(pub u64);

impl View for Snowflake {
    type V = u64;

    open spec fn view(&self) -> u64 {
        self.0
    }
}

impl Snowflake {
    /// The number of the identifier.
    pub fn value(&self) -> (r: u64)
        ensures
            r == self@,
    {
        self.0
    }

    /// The instant at which the identifier was made.
    pub fn date_time(&self) -> (r: DateTime)
        ensures
            r.spec_seconds() == timestamp_millis(self@) / 1000,
            r.spec_nanos() == (timestamp_millis(self@) % 1000) * 1_000_000,
    {
        let v: u64 = self.0;
        assert(v >> 22 == v / 0x40_0000 && v >> 22 < 0x400_0000_0000) by (bit_vector);
        let millis: u64 = (v >> 22) + EPOCH_MILLIS;
        DateTime::from_millis(millis)
    }

    /// The worker that made the identifier.
    pub fn worker(&self) -> (r: u8)
        ensures
            r == worker_of(self@),
    {
        let v: u64 = self.0;
        assert((v & 0x3E0000) >> 17 == (v / 0x2_0000) % 32) by (bit_vector);
        ((v & 0x3E0000) >> 17) as u8
    }

    /// The process that made the identifier.
    pub fn process(&self) -> (r: u8)
        ensures
            r == process_of(self@),
    {
        let v: u64 = self.0;
        assert((v & 0x1F000) >> 12 == (v / 0x1000) % 32) by (bit_vector);
        ((v & 0x1F000) >> 12) as u8
    }

    /// The count of the identifier within its process and millisecond.
    pub fn increment(&self) -> (r: u16)
        ensures
            r == increment_of(self@),
    {
        let v: u64 = self.0;
        assert(v & 0xFFF == v % 0x1000) by (bit_vector);
        (v & 0xFFF) as u16
    }

    /// The decimal text of the identifier.
    pub fn to_text(&self) -> (r: String)
        ensures
            r@ == decimal(self@ as nat),
    {
        render_u64(self.0)
    }

    /// The identifier that `s` holds in base 10, if it holds one.
    pub fn from_text(s: &str) -> (r: Option<Snowflake>)
        ensures
            match r {
                Some(id) => parse_decimal(s@) == Some(id@),
                None => parse_decimal(s@) is None,
            },
    {
        match parse_u64(s) {
            Some(n) => Some(Snowflake(n)),
            None => None,
        }
    }

    /// The identifier that a database holds as the signed number `n`: the
    /// one with the same 64 bits.
    pub fn from_signed(n: i64) -> (r: Snowflake)
        ensures
            r@ == n as u64,
    {
        Snowflake(n as u64)
    }

    /// The signed number with the same 64 bits, as a database holds it.
    pub fn to_signed(&self) -> (r: i64)
        ensures
            r == self@ as i64,
    {
        self.0 as i64
    }
}

impl From<u64> for Snowflake {
    fn from(snowflake: u64) -> (r: Self) {
        Snowflake(snowflake)
    }
}

impl FromSpecImpl<u64> for Snowflake {
    open spec fn obeys_from_spec() -> bool {
        true
    }

    open spec fn from_spec(v: u64) -> Self {
        Snowflake(v)
    }
}

impl From<Snowflake> for u64 {
    fn from(snowflake: Snowflake) -> (r: Self) {
        snowflake.0
    }
}

impl FromSpecImpl<Snowflake> for u64 {
    open spec fn obeys_from_spec() -> bool {
        true
    }

    open spec fn from_spec(v: Snowflake) -> Self {
        v.0
    }
}

impl Decode for Snowflake {
    open spec fn decodes(j: Json, x: Self) -> bool {
        decoded_id(j) == Ok::<u64, DecodeError>(x@)
    }

    open spec fn rejection(j: Json) -> Option<DecodeError> {
        error_of(decoded_id(j))
    }

    fn decode(v: &Value) -> (r: Result<Self, DecodeError>)
        ensures
            match r {
                Ok(x) => decoded_id(v@) == Ok::<u64, DecodeError>(x@),
                Err(e) => decoded_id(v@) == Err::<u64, DecodeError>(e),
            },
    {
        let r = match as_unsigned(v) {
            Some(n) => Ok(Snowflake(n)),
            None => match as_text(v) {
                Some(s) => match parse_u64(s.as_str()) {
                    Some(n) => Ok(Snowflake(n)),
                    None => Err(DecodeError::InvalidValue),
                },
                None => Err(DecodeError::InvalidValue),
            },
        };
        // What `decodes` and `rejection` stand for, spelled out for the solver.
        assert(Self::rejection(v@) == error_of(decoded_id(v@)));
        assert(forall|x: Self| Self::decodes(v@, x) == (decoded_id(v@)
            == Ok::<u64, DecodeError>(x@)));
        r
    }
}

impl Encode for Snowflake {
    open spec fn wire(&self) -> Json {
        encoded_id(self@)
    }

    fn encode(&self) -> (r: Value) {
        // What `wire` stands for, spelled out for the solver.
        assert(self.wire() == encoded_id(self@));
        owned_text(render_u64(self.0))
    }
}

/// An identifier that arrives as text or as a number is written back as its
/// decimal text.
pub proof fn lemma_id_round_trip(v: u64)
    ensures
        decoded_id(Json::Text(decimal(v as nat))) == Ok::<u64, DecodeError>(v),
        decoded_id(Json::Unsigned(v)) == Ok::<u64, DecodeError>(v),
        decoded_id(encoded_id(v)) == Ok::<u64, DecodeError>(v),
        Snowflake(v).wire() == Json::Text(decimal(v as nat)),
{
    crate::text::lemma_parse_decimal(v);
}

/// The identifier of an application.
#[derive(Clone, Copy, Debug, PartialEq, Eq, Structural, Hash, PartialOrd, Ord)]
pub struct ApplicationId(pub Snowflake);

impl View for ApplicationId {
    type V = u64;

    open spec fn view(&self) -> u64 {
        self.0.0
    }
}

impl ApplicationId {
    /// The identifier without its kind.
    pub fn snowflake(&self) -> (r: Snowflake)
        ensures
            r@ == self@,
    {
        self.0
    }

    /// The number of the identifier.
    pub fn value(&self) -> (r: u64)
        ensures
            r == self@,
    {
        self.0.0
    }

    /// The decimal text of the identifier.
    pub fn to_text(&self) -> (r: String)
        ensures
            r@ == decimal(self@ as nat),
    {
        self.0.to_text()
    }

    /// The identifier that `s` holds in base 10, if it holds one.
    pub fn from_text(s: &str) -> (r: Option<ApplicationId>)
        ensures
            match r {
                Some(id) => parse_decimal(s@) == Some(id@),
                None => parse_decimal(s@) is None,
            },
    {
        match parse_u64(s) {
            Some(n) => Some(ApplicationId(Snowflake(n))),
            None => None,
        }
    }
}

impl From<Snowflake> for ApplicationId {
    fn from(id: Snowflake) -> (r: Self) {
        ApplicationId(id)
    }
}

impl FromSpecImpl<Snowflake> for ApplicationId {
    open spec fn obeys_from_spec() -> bool {
        true
    }

    open spec fn from_spec(v: Snowflake) -> Self {
        ApplicationId(v)
    }
}

impl From<&Snowflake> for ApplicationId {
    fn from(id: &Snowflake) -> (r: Self) {
        ApplicationId(*id)
    }
}

impl FromSpecImpl<&Snowflake> for ApplicationId {
    open spec fn obeys_from_spec() -> bool {
        true
    }

    open spec fn from_spec(v: &Snowflake) -> Self {
        ApplicationId(*v)
    }
}

impl From<&ApplicationId> for ApplicationId {
    fn from(id: &ApplicationId) -> (r: Self) {
        *id
    }
}

impl FromSpecImpl<&ApplicationId> for ApplicationId {
    open spec fn obeys_from_spec() -> bool {
        true
    }

    open spec fn from_spec(v: &ApplicationId) -> Self {
        *v
    }
}

impl From<u64> for ApplicationId {
    fn from(id: u64) -> (r: Self) {
        ApplicationId(Snowflake(id))
    }
}

impl FromSpecImpl<u64> for ApplicationId {
    open spec fn obeys_from_spec() -> bool {
        true
    }

    open spec fn from_spec(v: u64) -> Self {
        ApplicationId(Snowflake(v))
    }
}

impl From<ApplicationId> for u64 {
    fn from(id: ApplicationId) -> (r: Self) {
        id.0.0
    }
}

impl FromSpecImpl<ApplicationId> for u64 {
    open spec fn obeys_from_spec() -> bool {
        true
    }

    open spec fn from_spec(v: ApplicationId) -> Self {
        v.0.0
    }
}

impl Decode for ApplicationId {
    open spec fn decodes(j: Json, x: Self) -> bool {
        decoded_id(j) == Ok::<u64, DecodeError>(x@)
    }

    open spec fn rejection(j: Json) -> Option<DecodeError> {
        error_of(decoded_id(j))
    }

    fn decode(v: &Value) -> (r: Result<Self, DecodeError>)
        ensures
            match r {
                Ok(x) => decoded_id(v@) == Ok::<u64, DecodeError>(x@),
                Err(e) => decoded_id(v@) == Err::<u64, DecodeError>(e),
            },
    {
        match Snowflake::decode(v) {
            Ok(id) => Ok(ApplicationId(id)),
            Err(e) => Err(e),
        }
    }
}

impl Encode for ApplicationId {
    open spec fn wire(&self) -> Json {
        encoded_id(self@)
    }

    fn encode(&self) -> (r: Value) {
        self.0.encode()
    }
}

impl Identifier for ApplicationId {
    open spec fn number(self) -> u64 {
        self@
    }

    fn raw(&self) -> (r: u64) {
        self.0.0
    }

    proof fn lemma_same_number(a: Self, b: Self) {
    }

    proof fn lemma_wire_form(self) {
    }
}

/// The identifier of a channel.
#[derive(Clone, Copy, Debug, PartialEq, Eq, Structural, Hash, PartialOrd, Ord)]
pub struct ChannelId(pub Snowflake);

impl View for ChannelId {
    type V = u64;

    open spec fn view(&self) -> u64 {
        self.0.0
    }
}

impl ChannelId {
    /// The identifier without its kind.
    pub fn snowflake(&self) -> (r: Snowflake)
        ensures
            r@ == self@,
    {
        self.0
    }

    /// The number of the identifier.
    pub fn value(&self) -> (r: u64)
        ensures
            r == self@,
    {
        self.0.0
    }

    /// The decimal text of the identifier.
    pub fn to_text(&self) -> (r: String)
        ensures
            r@ == decimal(self@ as nat),
    {
        self.0.to_text()
    }

    /// The identifier that `s` holds in base 10, if it holds one.
    pub fn from_text(s: &str) -> (r: Option<ChannelId>)
        ensures
            match r {
                Some(id) => parse_decimal(s@) == Some(id@),
                None => parse_decimal(s@) is None,
            },
    {
        match parse_u64(s) {
            Some(n) => Some(ChannelId(Snowflake(n))),
            None => None,
        }
    }
}

impl From<Snowflake> for ChannelId {
    fn from(id: Snowflake) -> (r: Self) {
        ChannelId(id)
    }
}

impl FromSpecImpl<Snowflake> for ChannelId {
    open spec fn obeys_from_spec() -> bool {
        true
    }

    open spec fn from_spec(v: Snowflake) -> Self {
        ChannelId(v)
    }
}

impl From<&Snowflake> for ChannelId {
    fn from(id: &Snowflake) -> (r: Self) {
        ChannelId(*id)
    }
}

impl FromSpecImpl<&Snowflake> for ChannelId {
    open spec fn obeys_from_spec() -> bool {
        true
    }

    open spec fn from_spec(v: &Snowflake) -> Self {
        ChannelId(*v)
    }
}

impl From<&ChannelId> for ChannelId {
    fn from(id: &ChannelId) -> (r: Self) {
        *id
    }
}

impl FromSpecImpl<&ChannelId> for ChannelId {
    open spec fn obeys_from_spec() -> bool {
        true
    }

    open spec fn from_spec(v: &ChannelId) -> Self {
        *v
    }
}

impl From<u64> for ChannelId {
    fn from(id: u64) -> (r: Self) {
        ChannelId(Snowflake(id))
    }
}

impl FromSpecImpl<u64> for ChannelId {
    open spec fn obeys_from_spec() -> bool {
        true
    }

    open spec fn from_spec(v: u64) -> Self {
        ChannelId(Snowflake(v))
    }
}

impl From<ChannelId> for u64 {
    fn from(id: ChannelId) -> (r: Self) {
        id.0.0
    }
}

impl FromSpecImpl<ChannelId> for u64 {
    open spec fn obeys_from_spec() -> bool {
        true
    }

    open spec fn from_spec(v: ChannelId) -> Self {
        v.0.0
    }
}

impl Decode for ChannelId {
    open spec fn decodes(j: Json, x: Self) -> bool {
        decoded_id(j) == Ok::<u64, DecodeError>(x@)
    }

    open spec fn rejection(j: Json) -> Option<DecodeError> {
        error_of(decoded_id(j))
    }

    fn decode(v: &Value) -> (r: Result<Self, DecodeError>)
        ensures
            match r {
                Ok(x) => decoded_id(v@) == Ok::<u64, DecodeError>(x@),
                Err(e) => decoded_id(v@) == Err::<u64, DecodeError>(e),
            },
    {
        match Snowflake::decode(v) {
            Ok(id) => Ok(ChannelId(id)),
            Err(e) => Err(e),
        }
    }
}

impl Encode for ChannelId {
    open spec fn wire(&self) -> Json {
        encoded_id(self@)
    }

    fn encode(&self) -> (r: Value) {
        self.0.encode()
    }
}

impl Identifier for ChannelId {
    open spec fn number(self) -> u64 {
        self@
    }

    fn raw(&self) -> (r: u64) {
        self.0.0
    }

    proof fn lemma_same_number(a: Self, b: Self) {
    }

    proof fn lemma_wire_form(self) {
    }
}

/// The identifier of a guild.
#[derive(Clone, Copy, Debug, PartialEq, Eq, Structural, Hash, PartialOrd, Ord)]
pub struct GuildId(pub Snowflake);

impl View for GuildId {
    type V = u64;

    open spec fn view(&self) -> u64 {
        self.0.0
    }
}

impl GuildId {
    /// The identifier without its kind.
    pub fn snowflake(&self) -> (r: Snowflake)
        ensures
            r@ == self@,
    {
        self.0
    }

    /// The number of the identifier.
    pub fn value(&self) -> (r: u64)
        ensures
            r == self@,
    {
        self.0.0
    }

    /// The decimal text of the identifier.
    pub fn to_text(&self) -> (r: String)
        ensures
            r@ == decimal(self@ as nat),
    {
        self.0.to_text()
    }

    /// The identifier that `s` holds in base 10, if it holds one.
    pub fn from_text(s: &str) -> (r: Option<GuildId>)
        ensures
            match r {
                Some(id) => parse_decimal(s@) == Some(id@),
                None => parse_decimal(s@) is None,
            },
    {
        match parse_u64(s) {
            Some(n) => Some(GuildId(Snowflake(n))),
            None => None,
        }
    }
}

impl From<Snowflake> for GuildId {
    fn from(id: Snowflake) -> (r: Self) {
        GuildId(id)
    }
}

impl FromSpecImpl<Snowflake> for GuildId {
    open spec fn obeys_from_spec() -> bool {
        true
    }

    open spec fn from_spec(v: Snowflake) -> Self {
        GuildId(v)
    }
}

impl From<&Snowflake> for GuildId {
    fn from(id: &Snowflake) -> (r: Self) {
        GuildId(*id)
    }
}

impl FromSpecImpl<&Snowflake> for GuildId {
    open spec fn obeys_from_spec() -> bool {
        true
    }

    open spec fn from_spec(v: &Snowflake) -> Self {
        GuildId(*v)
    }
}

impl From<&GuildId> for GuildId {
    fn from(id: &GuildId) -> (r: Self) {
        *id
    }
}

impl FromSpecImpl<&GuildId> for GuildId {
    open spec fn obeys_from_spec() -> bool {
        true
    }

    open spec fn from_spec(v: &GuildId) -> Self {
        *v
    }
}

impl From<u64> for GuildId {
    fn from(id: u64) -> (r: Self) {
        GuildId(Snowflake(id))
    }
}

impl FromSpecImpl<u64> for GuildId {
    open spec fn obeys_from_spec() -> bool {
        true
    }

    open spec fn from_spec(v: u64) -> Self {
        GuildId(Snowflake(v))
    }
}

impl From<GuildId> for u64 {
    fn from(id: GuildId) -> (r: Self) {
        id.0.0
    }
}

impl FromSpecImpl<GuildId> for u64 {
    open spec fn obeys_from_spec() -> bool {
        true
    }

    open spec fn from_spec(v: GuildId) -> Self {
        v.0.0
    }
}

impl Decode for GuildId {
    open spec fn decodes(j: Json, x: Self) -> bool {
        decoded_id(j) == Ok::<u64, DecodeError>(x@)
    }

    open spec fn rejection(j: Json) -> Option<DecodeError> {
        error_of(decoded_id(j))
    }

    fn decode(v: &Value) -> (r: Result<Self, DecodeError>)
        ensures
            match r {
                Ok(x) => decoded_id(v@) == Ok::<u64, DecodeError>(x@),
                Err(e) => decoded_id(v@) == Err::<u64, DecodeError>(e),
            },
    {
        match Snowflake::decode(v) {
            Ok(id) => Ok(GuildId(id)),
            Err(e) => Err(e),
        }
    }
}

impl Encode for GuildId {
    open spec fn wire(&self) -> Json {
        encoded_id(self@)
    }

    fn encode(&self) -> (r: Value) {
        self.0.encode()
    }
}

impl Identifier for GuildId {
    open spec fn number(self) -> u64 {
        self@
    }

    fn raw(&self) -> (r: u64) {
        self.0.0
    }

    proof fn lemma_same_number(a: Self, b: Self) {
    }

    proof fn lemma_wire_form(self) {
    }
}

/// The identifier of an interaction.
#[derive(Clone, Copy, Debug, PartialEq, Eq, Structural, Hash, PartialOrd, Ord)]
pub struct InteractionId(pub Snowflake);

impl View for InteractionId {
    type V = u64;

    open spec fn view(&self) -> u64 {
        self.0.0
    }
}

impl InteractionId {
    /// The identifier without its kind.
    pub fn snowflake(&self) -> (r: Snowflake)
        ensures
            r@ == self@,
    {
        self.0
    }

    /// The number of the identifier.
    pub fn value(&self) -> (r: u64)
        ensures
            r == self@,
    {
        self.0.0
    }

    /// The decimal text of the identifier.
    pub fn to_text(&self) -> (r: String)
        ensures
            r@ == decimal(self@ as nat),
    {
        self.0.to_text()
    }

    /// The identifier that `s` holds in base 10, if it holds one.
    pub fn from_text(s: &str) -> (r: Option<InteractionId>)
        ensures
            match r {
                Some(id) => parse_decimal(s@) == Some(id@),
                None => parse_decimal(s@) is None,
            },
    {
        match parse_u64(s) {
            Some(n) => Some(InteractionId(Snowflake(n))),
            None => None,
        }
    }
}

impl From<Snowflake> for InteractionId {
    fn from(id: Snowflake) -> (r: Self) {
        InteractionId(id)
    }
}

impl FromSpecImpl<Snowflake> for InteractionId {
    open spec fn obeys_from_spec() -> bool {
        true
    }

    open spec fn from_spec(v: Snowflake) -> Self {
        InteractionId(v)
    }
}

impl From<&Snowflake> for InteractionId {
    fn from(id: &Snowflake) -> (r: Self) {
        InteractionId(*id)
    }
}

impl FromSpecImpl<&Snowflake> for InteractionId {
    open spec fn obeys_from_spec() -> bool {
        true
    }

    open spec fn from_spec(v: &Snowflake) -> Self {
        InteractionId(*v)
    }
}

impl From<&InteractionId> for InteractionId {
    fn from(id: &InteractionId) -> (r: Self) {
        *id
    }
}

impl FromSpecImpl<&InteractionId> for InteractionId {
    open spec fn obeys_from_spec() -> bool {
        true
    }

    open spec fn from_spec(v: &InteractionId) -> Self {
        *v
    }
}

impl From<u64> for InteractionId {
    fn from(id: u64) -> (r: Self) {
        InteractionId(Snowflake(id))
    }
}

impl FromSpecImpl<u64> for InteractionId {
    open spec fn obeys_from_spec() -> bool {
        true
    }

    open spec fn from_spec(v: u64) -> Self {
        InteractionId(Snowflake(v))
    }
}

impl From<InteractionId> for u64 {
    fn from(id: InteractionId) -> (r: Self) {
        id.0.0
    }
}

impl FromSpecImpl<InteractionId> for u64 {
    open spec fn obeys_from_spec() -> bool {
        true
    }

    open spec fn from_spec(v: InteractionId) -> Self {
        v.0.0
    }
}

impl Decode for InteractionId {
    open spec fn decodes(j: Json, x: Self) -> bool {
        decoded_id(j) == Ok::<u64, DecodeError>(x@)
    }

    open spec fn rejection(j: Json) -> Option<DecodeError> {
        error_of(decoded_id(j))
    }

    fn decode(v: &Value) -> (r: Result<Self, DecodeError>)
        ensures
            match r {
                Ok(x) => decoded_id(v@) == Ok::<u64, DecodeError>(x@),
                Err(e) => decoded_id(v@) == Err::<u64, DecodeError>(e),
            },
    {
        match Snowflake::decode(v) {
            Ok(id) => Ok(InteractionId(id)),
            Err(e) => Err(e),
        }
    }
}

impl Encode for InteractionId {
    open spec fn wire(&self) -> Json {
        encoded_id(self@)
    }

    fn encode(&self) -> (r: Value) {
        self.0.encode()
    }
}

impl Identifier for InteractionId {
    open spec fn number(self) -> u64 {
        self@
    }

    fn raw(&self) -> (r: u64) {
        self.0.0
    }

    proof fn lemma_same_number(a: Self, b: Self) {
    }

    proof fn lemma_wire_form(self) {
    }
}

/// The identifier of a message.
#[derive(Clone, Copy, Debug, PartialEq, Eq, Structural, Hash, PartialOrd, Ord)]
pub struct MessageId(pub Snowflake);

impl View for MessageId {
    type V = u64;

    open spec fn view(&self) -> u64 {
        self.0.0
    }
}

impl MessageId {
    /// The identifier without its kind.
    pub fn snowflake(&self) -> (r: Snowflake)
        ensures
            r@ == self@,
    {
        self.0
    }

    /// The number of the identifier.
    pub fn value(&self) -> (r: u64)
        ensures
            r == self@,
    {
        self.0.0
    }

    /// The decimal text of the identifier.
    pub fn to_text(&self) -> (r: String)
        ensures
            r@ == decimal(self@ as nat),
    {
        self.0.to_text()
    }

    /// The identifier that `s` holds in base 10, if it holds one.
    pub fn from_text(s: &str) -> (r: Option<MessageId>)
        ensures
            match r {
                Some(id) => parse_decimal(s@) == Some(id@),
                None => parse_decimal(s@) is None,
            },
    {
        match parse_u64(s) {
            Some(n) => Some(MessageId(Snowflake(n))),
            None => None,
        }
    }
}

impl From<Snowflake> for MessageId {
    fn from(id: Snowflake) -> (r: Self) {
        MessageId(id)
    }
}

impl FromSpecImpl<Snowflake> for MessageId {
    open spec fn obeys_from_spec() -> bool {
        true
    }

    open spec fn from_spec(v: Snowflake) -> Self {
        MessageId(v)
    }
}

impl From<&Snowflake> for MessageId {
    fn from(id: &Snowflake) -> (r: Self) {
        MessageId(*id)
    }
}

impl FromSpecImpl<&Snowflake> for MessageId {
    open spec fn obeys_from_spec() -> bool {
        true
    }

    open spec fn from_spec(v: &Snowflake) -> Self {
        MessageId(*v)
    }
}

impl From<&MessageId> for MessageId {
    fn from(id: &MessageId) -> (r: Self) {
        *id
    }
}

impl FromSpecImpl<&MessageId> for MessageId {
    open spec fn obeys_from_spec() -> bool {
        true
    }

    open spec fn from_spec(v: &MessageId) -> Self {
        *v
    }
}

impl From<u64> for MessageId {
    fn from(id: u64) -> (r: Self) {
        MessageId(Snowflake(id))
    }
}

impl FromSpecImpl<u64> for MessageId {
    open spec fn obeys_from_spec() -> bool {
        true
    }

    open spec fn from_spec(v: u64) -> Self {
        MessageId(Snowflake(v))
    }
}

impl From<MessageId> for u64 {
    fn from(id: MessageId) -> (r: Self) {
        id.0.0
    }
}

impl FromSpecImpl<MessageId> for u64 {
    open spec fn obeys_from_spec() -> bool {
        true
    }

    open spec fn from_spec(v: MessageId) -> Self {
        v.0.0
    }
}

impl Decode for MessageId {
    open spec fn decodes(j: Json, x: Self) -> bool {
        decoded_id(j) == Ok::<u64, DecodeError>(x@)
    }

    open spec fn rejection(j: Json) -> Option<DecodeError> {
        error_of(decoded_id(j))
    }

    fn decode(v: &Value) -> (r: Result<Self, DecodeError>)
        ensures
            match r {
                Ok(x) => decoded_id(v@) == Ok::<u64, DecodeError>(x@),
                Err(e) => decoded_id(v@) == Err::<u64, DecodeError>(e),
            },
    {
        match Snowflake::decode(v) {
            Ok(id) => Ok(MessageId(id)),
            Err(e) => Err(e),
        }
    }
}

impl Encode for MessageId {
    open spec fn wire(&self) -> Json {
        encoded_id(self@)
    }

    fn encode(&self) -> (r: Value) {
        self.0.encode()
    }
}

impl Identifier for MessageId {
    open spec fn number(self) -> u64 {
        self@
    }

    fn raw(&self) -> (r: u64) {
        self.0.0
    }

    proof fn lemma_same_number(a: Self, b: Self) {
    }

    proof fn lemma_wire_form(self) {
    }
}

/// The identifier of a role.
#[derive(Clone, Copy, Debug, PartialEq, Eq, Structural, Hash, PartialOrd, Ord)]
pub struct RoleId(pub Snowflake);

impl View for RoleId {
    type V = u64;

    open spec fn view(&self) -> u64 {
        self.0.0
    }
}

impl RoleId {
    /// The identifier without its kind.
    pub fn snowflake(&self) -> (r: Snowflake)
        ensures
            r@ == self@,
    {
        self.0
    }

    /// The number of the identifier.
    pub fn value(&self) -> (r: u64)
        ensures
            r == self@,
    {
        self.0.0
    }

    /// The decimal text of the identifier.
    pub fn to_text(&self) -> (r: String)
        ensures
            r@ == decimal(self@ as nat),
    {
        self.0.to_text()
    }

    /// The identifier that `s` holds in base 10, if it holds one.
    pub fn from_text(s: &str) -> (r: Option<RoleId>)
        ensures
            match r {
                Some(id) => parse_decimal(s@) == Some(id@),
                None => parse_decimal(s@) is None,
            },
    {
        match parse_u64(s) {
            Some(n) => Some(RoleId(Snowflake(n))),
            None => None,
        }
    }
}

impl From<Snowflake> for RoleId {
    fn from(id: Snowflake) -> (r: Self) {
        RoleId(id)
    }
}

impl FromSpecImpl<Snowflake> for RoleId {
    open spec fn obeys_from_spec() -> bool {
        true
    }

    open spec fn from_spec(v: Snowflake) -> Self {
        RoleId(v)
    }
}

impl From<&Snowflake> for RoleId {
    fn from(id: &Snowflake) -> (r: Self) {
        RoleId(*id)
    }
}

impl FromSpecImpl<&Snowflake> for RoleId {
    open spec fn obeys_from_spec() -> bool {
        true
    }

    open spec fn from_spec(v: &Snowflake) -> Self {
        RoleId(*v)
    }
}

impl From<&RoleId> for RoleId {
    fn from(id: &RoleId) -> (r: Self) {
        *id
    }
}

impl FromSpecImpl<&RoleId> for RoleId {
    open spec fn obeys_from_spec() -> bool {
        true
    }

    open spec fn from_spec(v: &RoleId) -> Self {
        *v
    }
}

impl From<u64> for RoleId {
    fn from(id: u64) -> (r: Self) {
        RoleId(Snowflake(id))
    }
}

impl FromSpecImpl<u64> for RoleId {
    open spec fn obeys_from_spec() -> bool {
        true
    }

    open spec fn from_spec(v: u64) -> Self {
        RoleId(Snowflake(v))
    }
}

impl From<RoleId> for u64 {
    fn from(id: RoleId) -> (r: Self) {
        id.0.0
    }
}

impl FromSpecImpl<RoleId> for u64 {
    open spec fn obeys_from_spec() -> bool {
        true
    }

    open spec fn from_spec(v: RoleId) -> Self {
        v.0.0
    }
}

impl Decode for RoleId {
    open spec fn decodes(j: Json, x: Self) -> bool {
        decoded_id(j) == Ok::<u64, DecodeError>(x@)
    }

    open spec fn rejection(j: Json) -> Option<DecodeError> {
        error_of(decoded_id(j))
    }

    fn decode(v: &Value) -> (r: Result<Self, DecodeError>)
        ensures
            match r {
                Ok(x) => decoded_id(v@) == Ok::<u64, DecodeError>(x@),
                Err(e) => decoded_id(v@) == Err::<u64, DecodeError>(e),
            },
    {
        match Snowflake::decode(v) {
            Ok(id) => Ok(RoleId(id)),
            Err(e) => Err(e),
        }
    }
}

impl Encode for RoleId {
    open spec fn wire(&self) -> Json {
        encoded_id(self@)
    }

    fn encode(&self) -> (r: Value) {
        self.0.encode()
    }
}

impl Identifier for RoleId {
    open spec fn number(self) -> u64 {
        self@
    }

    fn raw(&self) -> (r: u64) {
        self.0.0
    }

    proof fn lemma_same_number(a: Self, b: Self) {
    }

    proof fn lemma_wire_form(self) {
    }
}

/// The identifier of a user.
#[derive(Clone, Copy, Debug, PartialEq, Eq, Structural, Hash, PartialOrd, Ord)]
pub struct UserId(pub Snowflake);

impl View for UserId {
    type V = u64;

    open spec fn view(&self) -> u64 {
        self.0.0
    }
}

impl UserId {
    /// The identifier without its kind.
    pub fn snowflake(&self) -> (r: Snowflake)
        ensures
            r@ == self@,
    {
        self.0
    }

    /// The number of the identifier.
    pub fn value(&self) -> (r: u64)
        ensures
            r == self@,
    {
        self.0.0
    }

    /// The decimal text of the identifier.
    pub fn to_text(&self) -> (r: String)
        ensures
            r@ == decimal(self@ as nat),
    {
        self.0.to_text()
    }

    /// The identifier that `s` holds in base 10, if it holds one.
    pub fn from_text(s: &str) -> (r: Option<UserId>)
        ensures
            match r {
                Some(id) => parse_decimal(s@) == Some(id@),
                None => parse_decimal(s@) is None,
            },
    {
        match parse_u64(s) {
            Some(n) => Some(UserId(Snowflake(n))),
            None => None,
        }
    }
}

impl From<Snowflake> for UserId {
    fn from(id: Snowflake) -> (r: Self) {
        UserId(id)
    }
}

impl FromSpecImpl<Snowflake> for UserId {
    open spec fn obeys_from_spec() -> bool {
        true
    }

    open spec fn from_spec(v: Snowflake) -> Self {
        UserId(v)
    }
}

impl From<&Snowflake> for UserId {
    fn from(id: &Snowflake) -> (r: Self) {
        UserId(*id)
    }
}

impl FromSpecImpl<&Snowflake> for UserId {
    open spec fn obeys_from_spec() -> bool {
        true
    }

    open spec fn from_spec(v: &Snowflake) -> Self {
        UserId(*v)
    }
}

impl From<&UserId> for UserId {
    fn from(id: &UserId) -> (r: Self) {
        *id
    }
}

impl FromSpecImpl<&UserId> for UserId {
    open spec fn obeys_from_spec() -> bool {
        true
    }

    open spec fn from_spec(v: &UserId) -> Self {
        *v
    }
}

impl From<u64> for UserId {
    fn from(id: u64) -> (r: Self) {
        UserId(Snowflake(id))
    }
}

impl FromSpecImpl<u64> for UserId {
    open spec fn obeys_from_spec() -> bool {
        true
    }

    open spec fn from_spec(v: u64) -> Self {
        UserId(Snowflake(v))
    }
}

impl From<UserId> for u64 {
    fn from(id: UserId) -> (r: Self) {
        id.0.0
    }
}

impl FromSpecImpl<UserId> for u64 {
    open spec fn obeys_from_spec() -> bool {
        true
    }

    open spec fn from_spec(v: UserId) -> Self {
        v.0.0
    }
}

impl Decode for UserId {
    open spec fn decodes(j: Json, x: Self) -> bool {
        decoded_id(j) == Ok::<u64, DecodeError>(x@)
    }

    open spec fn rejection(j: Json) -> Option<DecodeError> {
        error_of(decoded_id(j))
    }

    fn decode(v: &Value) -> (r: Result<Self, DecodeError>)
        ensures
            match r {
                Ok(x) => decoded_id(v@) == Ok::<u64, DecodeError>(x@),
                Err(e) => decoded_id(v@) == Err::<u64, DecodeError>(e),
            },
    {
        match Snowflake::decode(v) {
            Ok(id) => Ok(UserId(id)),
            Err(e) => Err(e),
        }
    }
}

impl Encode for UserId {
    open spec fn wire(&self) -> Json {
        encoded_id(self@)
    }

    fn encode(&self) -> (r: Value) {
        self.0.encode()
    }
}

impl Identifier for UserId {
    open spec fn number(self) -> u64 {
        self@
    }

    fn raw(&self) -> (r: u64) {
        self.0.0
    }

    proof fn lemma_same_number(a: Self, b: Self) {
    }

    proof fn lemma_wire_form(self) {
    }
}

} // verus!
