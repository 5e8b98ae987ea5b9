//! Flag sets: fixed-width bit masks over named bits, and the two ways of
//! reading one from the wire.

use crate::wire::{as_unsigned, error_of, unsigned, Decode, DecodeError, Encode, Json, Value};
use core::marker::PhantomData;
use vstd::prelude::*;

verus! {

/// A set of flags over named bits of a 32-bit mask.
pub trait BitFlags: Sized {
    /// The union of the named bits.
    spec fn known() -> u32;

    /// The mask of the flags that are set.
    spec fn spec_bits(&self) -> u32;

    /// The union of the named bits.
    fn known_bits() -> (r: u32)
        ensures
            r == Self::known(),
    ;

    /// The mask of the flags that are set. It has no bit that is not named.
    fn bits(&self) -> (r: u32)
        ensures
            r == self.spec_bits(),
            r & !Self::known() == 0,
    ;

    /// The set with the mask `bits`, which holds no bit that is not named.
    fn from_known_bits(bits: u32) -> (r: Self)
        requires
            bits & !Self::known() == 0,
        ensures
            r.spec_bits() == bits,
    ;
}

/// Whether `n` fits in 32 bits and has no bit outside `known`.
pub open spec fn only_known(n: u64, known: u32) -> bool {
    n <= u32::MAX && (n as u32) & !known == 0
}

/// What a strict reading of `j` gives: the mask of an unsigned token that
/// fits in 32 bits and has no bit outside `known`, and `InvalidValue` for
/// every other token.
pub open spec fn decoded_strict(j: Json, known: u32) -> Result<u32, DecodeError> {
    match j {
        Json::Unsigned(n) => if only_known(n, known) {
            Ok(n as u32)
        } else {
            Err(DecodeError::InvalidValue)
        },
        _ => Err(DecodeError::InvalidValue),
    }
}

/// What a truncating reading of `j` gives: the bits of an unsigned token
/// that lie in `known`, and `InvalidValue` for a token that is no unsigned
/// number.
pub open spec fn decoded_truncating(j: Json, known: u32) -> Result<u32, DecodeError> {
    match j {
        Json::Unsigned(n) => Ok((n & known as u64) as u32),
        _ => Err(DecodeError::InvalidValue),
    }
}

/// Masking with `known` leaves no other bit, and fits in 32 bits.
pub proof fn lemma_truncate(n: u64, known: u32)
    ensures
        n & known as u64 <= u32::MAX,
        ((n & known as u64) as u32) & !known == 0,
        (n as u32) & known == (n & known as u64) as u32,
{
    assert(n & known as u64 <= 0xffff_ffff && ((n & known as u64) as u32) & !known == 0
        && (n as u32)
        & known == (n & known as u64) as u32) by (bit_vector);
}

/// The union, the intersection and the difference of two masks over `known`
/// are masks over `known`.
pub proof fn lemma_closed(a: u32, b: u32, known: u32)
    requires
        a & !known == 0,
        b & !known == 0,
    ensures
        (a | b) & !known == 0,
        (a & b) & !known == 0,
        (a & !b) & !known == 0,
{
    assert((a | b) & !known == 0 && (a & b) & !known == 0 && (a & !b) & !known == 0)
        by (bit_vector)
        requires
            a & !known == 0,
            b & !known == 0,
    ;
}

/// Reads flag sets of the type `T` from numeric tokens.
pub struct BitFlagsVisitor<T> {
    marker: PhantomData<T>,
}

impl<T: BitFlags> BitFlagsVisitor<T> {
    pub fn new() -> (r: Self) {
        BitFlagsVisitor { marker: PhantomData }
    }

    /// The strict policy: a number with a bit that is not named, or one that
    /// does not fit in 32 bits, is refused.
    pub fn visit_strict(&self, v: u64) -> (r: Result<T, DecodeError>)
        ensures
            match r {
                Ok(f) => only_known(v, T::known()) && f.spec_bits() == v,
                Err(e) => !only_known(v, T::known()) && e == DecodeError::InvalidValue,
            },
    {
        if v > 0xffff_ffff {
            return Err(DecodeError::InvalidValue);
        }
        let bits: u32 = v as u32;
        if bits & !T::known_bits() != 0 {
            return Err(DecodeError::InvalidValue);
        }
        Ok(T::from_known_bits(bits))
    }

    /// The truncating policy: the bits that are not named are dropped,
    /// whatever the width of the number.
    pub fn visit_truncating(&self, v: u64) -> (r: T)
        ensures
            r.spec_bits() == (v & T::known() as u64) as u32,
    {
        proof {
            lemma_truncate(v, T::known());
        }
        let bits: u32 = (v & T::known_bits() as u64) as u32;
        T::from_known_bits(bits)
    }
}

/// Reads a flag set by the strict policy.
pub fn decode_strict<T: BitFlags>(v: &Value) -> (r: Result<T, DecodeError>)
    ensures
        match r {
            Ok(f) => decoded_strict(v@, T::known()) == Ok::<u32, DecodeError>(f.spec_bits()),
            Err(e) => decoded_strict(v@, T::known()) == Err::<u32, DecodeError>(e),
        },
{
    match as_unsigned(v) {
        Some(n) => BitFlagsVisitor::<T>::new().visit_strict(n),
        None => Err(DecodeError::InvalidValue),
    }
}

/// Reads a flag set by the truncating policy.
pub fn decode_truncating<T: BitFlags>(v: &Value) -> (r: Result<T, DecodeError>)
    ensures
        match r {
            Ok(f) => decoded_truncating(v@, T::known()) == Ok::<u32, DecodeError>(f.spec_bits()),
            Err(e) => decoded_truncating(v@, T::known()) == Err::<u32, DecodeError>(e),
        },
{
    match as_unsigned(v) {
        Some(n) => Ok(BitFlagsVisitor::<T>::new().visit_truncating(n)),
        None => Err(DecodeError::InvalidValue),
    }
}

/// A strict reading refuses every number with a bit that is not named, and
/// a number that it accepts is written back unchanged.
pub proof fn lemma_strict(n: u64, known: u32)
    ensures
        !only_known(n, known) ==> decoded_strict(Json::Unsigned(n), known) == Err::<
            u32,
            DecodeError,
        >(DecodeError::InvalidValue),
        only_known(n, known) ==> decoded_strict(Json::Unsigned(n), known) == Ok::<
            u32,
            DecodeError,
        >(n as u32) && Json::Unsigned((n as u32) as u64) == Json::Unsigned(n),
{
}

/// A truncating reading accepts every number, and what it keeps differs
/// from the number by exactly the bits that are not named.
pub proof fn lemma_truncating(n: u64, known: u32)
    ensures
        decoded_truncating(Json::Unsigned(n), known) == Ok::<u32, DecodeError>(
            (n & known as u64) as u32,
        ),
        ((n & known as u64) as u32) & !known == 0,
        ((n & known as u64) as u32) as u64 ^ n == n & !(known as u64),
        (n & known as u64) ^ n == n & !(known as u64),
{
    assert(((n & known as u64) as u32) & !known == 0 && ((n & known as u64) as u32) as u64 ^ n == n
        & !(known as u64) && (n & known as u64) ^ n == n & !(known as u64)) by (bit_vector);
}

/// The kinds of events that a session asks for. Read strictly: the wire
/// number has the width of the mask.
#[derive(Clone, Copy, Debug, PartialEq, Eq, Hash, PartialOrd, Ord)]
pub struct Intents {
    bits: u32,
}

impl Intents {
    pub const GUILDS: u32 = 0x0000_0001;

    pub const GUILD_MEMBERS: u32 = 0x0000_0002;

    pub const GUILD_BANS: u32 = 0x0000_0004;

    pub const GUILD_EMOJIS: u32 = 0x0000_0008;

    pub const GUILD_INTEGRATIONS: u32 = 0x0000_0010;

    pub const GUILD_WEBHOOKS: u32 = 0x0000_0020;

    pub const GUILD_INVITES: u32 = 0x0000_0040;

    pub const GUILD_VOICE_STATES: u32 = 0x0000_0080;

    pub const GUILD_PRESENCES: u32 = 0x0000_0100;

    pub const GUILD_MESSAGES: u32 = 0x0000_0200;

    pub const GUILD_MESSAGE_REACTIONS: u32 = 0x0000_0400;

    pub const GUILD_MESSAGE_TYPING: u32 = 0x0000_0800;

    pub const DIRECT_MESSAGES: u32 = 0x0000_1000;

    pub const DIRECT_MESSAGE_REACTIONS: u32 = 0x0000_2000;

    pub const DIRECT_MESSAGE_TYPING: u32 = 0x0000_4000;

    pub const MESSAGE_CONTENT: u32 = 0x0000_8000;

    pub const GUILD_SCHEDULED_EVENTS: u32 = 0x0001_0000;

    pub const AUTO_MODERATION_CONFIGURATION: u32 = 0x0010_0000;

    pub const AUTO_MODERATION_EXECUTION: u32 = 0x0020_0000;

    pub const GUILD_ALL: u32 = 0x0001_0FFF;

    pub const DIRECT_MESSAGE_ALL: u32 = 0x0000_7000;

    pub const ALL: u32 = 0x0031_FFFF;

    /// The union of the named bits.
    pub const ALL_BITS: u32 = 0x0031_FFFF;

    #[verifier::type_invariant]
    spec fn only_named(self) -> bool {
        self.bits & !Intents::ALL_BITS == 0
    }

    /// The set with no flag.
    pub fn empty() -> (r: Self)
        ensures
            r.spec_bits() == 0,
    {
        assert(0u32 & !Intents::ALL_BITS == 0) by (bit_vector);
        Intents { bits: 0 }
    }

    /// The set with every named flag.
    pub fn all() -> (r: Self)
        ensures
            r.spec_bits() == Intents::ALL_BITS,
    {
        assert(Intents::ALL_BITS & !Intents::ALL_BITS == 0) by (bit_vector);
        Intents { bits: Intents::ALL_BITS }
    }

    /// The set with the mask `bits`, if `bits` holds no bit that is not
    /// named.
    pub fn from_bits(bits: u32) -> (r: Option<Self>)
        ensures
            match r {
                Some(f) => f.spec_bits() == bits && bits & !Intents::ALL_BITS == 0,
                None => bits & !Intents::ALL_BITS != 0,
            },
    {
        if bits & !Intents::ALL_BITS == 0 {
            Some(Intents { bits })
        } else {
            None
        }
    }

    /// The set of the named flags in `bits`.
    pub fn from_bits_truncate(bits: u32) -> (r: Self)
        ensures
            r.spec_bits() == bits & Intents::ALL_BITS,
    {
        proof {
            lemma_truncate(bits as u64, Intents::ALL_BITS);
            assert(bits as u64 & Intents::ALL_BITS as u64 == (bits & Intents::ALL_BITS) as u64)
                by (bit_vector);
        }
        Intents { bits: bits & Intents::ALL_BITS }
    }

    /// The mask of the flags that are set. It has no bit that is not named.
    pub fn bits(&self) -> (r: u32)
        ensures
            r == self.spec_bits(),
            r & !Intents::ALL_BITS == 0,
    {
        proof {
            use_type_invariant(self);
        }
        self.bits
    }

    /// Whether no flag is set.
    pub fn is_empty(&self) -> (r: bool)
        ensures
            r == (self.spec_bits() == 0),
    {
        self.bits == 0
    }

    /// Whether every flag of `other` is set in `self`.
    pub fn contains(&self, other: &Intents) -> (r: bool)
        ensures
            r == (self.spec_bits() & other.spec_bits() == other.spec_bits()),
    {
        self.bits & other.bits == other.bits
    }

    /// The flags that are set in `self` or in `other`.
    pub fn union(&self, other: &Intents) -> (r: Self)
        ensures
            r.spec_bits() == self.spec_bits() | other.spec_bits(),
    {
        proof {
            use_type_invariant(self);
            use_type_invariant(other);
            lemma_closed(self.bits, other.bits, Intents::ALL_BITS);
        }
        Intents { bits: self.bits | other.bits }
    }

    /// The flags that are set in `self` and in `other`.
    pub fn intersection(&self, other: &Intents) -> (r: Self)
        ensures
            r.spec_bits() == self.spec_bits() & other.spec_bits(),
    {
        proof {
            use_type_invariant(self);
            use_type_invariant(other);
            lemma_closed(self.bits, other.bits, Intents::ALL_BITS);
        }
        Intents { bits: self.bits & other.bits }
    }

    /// The flags that are set in `self` and not in `other`.
    pub fn difference(&self, other: &Intents) -> (r: Self)
        ensures
            r.spec_bits() == self.spec_bits() & !other.spec_bits(),
    {
        proof {
            use_type_invariant(self);
            use_type_invariant(other);
            lemma_closed(self.bits, other.bits, Intents::ALL_BITS);
        }
        Intents { bits: self.bits & !other.bits }
    }
}

impl BitFlags for Intents {
    open spec fn known() -> u32 {
        Intents::ALL_BITS
    }

    closed spec fn spec_bits(&self) -> u32 {
        self.bits
    }

    fn known_bits() -> (r: u32) {
        Intents::ALL_BITS
    }

    fn bits(&self) -> (r: u32) {
        proof {
            use_type_invariant(self);
        }
        self.bits
    }

    fn from_known_bits(bits: u32) -> (r: Self) {
        Intents { bits }
    }
}

impl Decode for Intents {
    open spec fn decodes(j: Json, x: Self) -> bool {
        decoded_strict(j, Intents::ALL_BITS) == Ok::<u32, DecodeError>(x.spec_bits())
    }

    open spec fn rejection(j: Json) -> Option<DecodeError> {
        error_of(decoded_strict(j, Intents::ALL_BITS))
    }

    fn decode(v: &Value) -> (r: Result<Self, DecodeError>)
        ensures
            match r {
                Ok(x) => decoded_strict(v@, Intents::ALL_BITS) == Ok::<u32, DecodeError>(
                    x.spec_bits(),
                ),
                Err(e) => decoded_strict(v@, Intents::ALL_BITS) == Err::<u32, DecodeError>(e),
            },
    {
        decode_strict::<Intents>(v)
    }
}

impl Encode for Intents {
    open spec fn wire(&self) -> Json {
        Json::Unsigned(self.spec_bits() as u64)
    }

    fn encode(&self) -> (r: Value) {
        unsigned(self.bits as u64)
    }
}

impl Intents {
    /// A number is read exactly when it fits in 32 bits and has no bit that
    /// is not named, and the set that is read from it is written back as
    /// that number.
    pub proof fn lemma_read_and_written(n: u64, f: Intents)
        ensures
            Intents::rejection(Json::Unsigned(n)) == if only_known(n, Intents::ALL_BITS) {
                None
            } else {
                Some(DecodeError::InvalidValue)
            },
            Intents::decodes(Json::Unsigned(n), f) ==> f.wire() == Json::Unsigned(n),
    {
    }
}

/// The marks on a user's account. Read by truncation: the wire number is
/// wider than the mask.
#[derive(Clone, Copy, Debug, PartialEq, Eq, Hash, PartialOrd, Ord)]
pub struct UserFlags {
    bits: u32,
}

impl UserFlags {
    pub const DISCORD_EMPLOYEE: u32 = 0x0000_0001;

    pub const DISCORD_PARTNER: u32 = 0x0000_0002;

    pub const HYPESQUAD_EVENTS: u32 = 0x0000_0004;

    pub const BUG_HUNTER_LEVEL_1: u32 = 0x0000_0008;

    pub const HOUSE_BRAVERY: u32 = 0x0000_0040;

    pub const HOUSE_BRILLIANCE: u32 = 0x0000_0080;

    pub const HOUSE_BALANCE: u32 = 0x0000_0100;

    pub const EARLY_SUPPORTER: u32 = 0x0000_0200;

    pub const TEAM_USER: u32 = 0x0000_0400;

    pub const SYSTEM: u32 = 0x0000_1000;

    pub const BUG_HUNTER_LEVEL_2: u32 = 0x0000_4000;

    pub const VERIFIED_BOT: u32 = 0x0001_0000;

    pub const VERIFIED_BOT_DEVELOPER: u32 = 0x0002_0000;

    pub const CERTIFIED_MODERATOR: u32 = 0x0004_0000;

    pub const BOT_HTTP_INTERACTIONS: u32 = 0x0008_0000;

    pub const ACTIVE_DEVELOPER: u32 = 0x0040_0000;

    /// The union of the named bits.
    pub const ALL_BITS: u32 = 0x004F_57CF;

    #[verifier::type_invariant]
    spec fn only_named(self) -> bool {
        self.bits & !UserFlags::ALL_BITS == 0
    }

    /// The set with no flag.
    pub fn empty() -> (r: Self)
        ensures
            r.spec_bits() == 0,
    {
        assert(0u32 & !UserFlags::ALL_BITS == 0) by (bit_vector);
        UserFlags { bits: 0 }
    }

    /// The set with every named flag.
    pub fn all() -> (r: Self)
        ensures
            r.spec_bits() == UserFlags::ALL_BITS,
    {
        assert(UserFlags::ALL_BITS & !UserFlags::ALL_BITS == 0) by (bit_vector);
        UserFlags { bits: UserFlags::ALL_BITS }
    }

    /// The set with the mask `bits`, if `bits` holds no bit that is not
    /// named.
    pub fn from_bits(bits: u32) -> (r: Option<Self>)
        ensures
            match r {
                Some(f) => f.spec_bits() == bits && bits & !UserFlags::ALL_BITS == 0,
                None => bits & !UserFlags::ALL_BITS != 0,
            },
    {
        if bits & !UserFlags::ALL_BITS == 0 {
            Some(UserFlags { bits })
        } else {
            None
        }
    }

    /// The set of the named flags in `bits`.
    pub fn from_bits_truncate(bits: u32) -> (r: Self)
        ensures
            r.spec_bits() == bits & UserFlags::ALL_BITS,
    {
        proof {
            lemma_truncate(bits as u64, UserFlags::ALL_BITS);
            assert(bits as u64 & UserFlags::ALL_BITS as u64 == (bits & UserFlags::ALL_BITS) as u64)
                by (bit_vector);
        }
        UserFlags { bits: bits & UserFlags::ALL_BITS }
    }

    /// The mask of the flags that are set. It has no bit that is not named.
    pub fn bits(&self) -> (r: u32)
        ensures
            r == self.spec_bits(),
            r & !UserFlags::ALL_BITS == 0,
    {
        proof {
            use_type_invariant(self);
        }
        self.bits
    }

    /// Whether no flag is set.
    pub fn is_empty(&self) -> (r: bool)
        ensures
            r == (self.spec_bits() == 0),
    {
        self.bits == 0
    }

    /// Whether every flag of `other` is set in `self`.
    pub fn contains(&self, other: &UserFlags) -> (r: bool)
        ensures
            r == (self.spec_bits() & other.spec_bits() == other.spec_bits()),
    {
        self.bits & other.bits == other.bits
    }

    /// The flags that are set in `self` or in `other`.
    pub fn union(&self, other: &UserFlags) -> (r: Self)
        ensures
            r.spec_bits() == self.spec_bits() | other.spec_bits(),
    {
        proof {
            use_type_invariant(self);
            use_type_invariant(other);
            lemma_closed(self.bits, other.bits, UserFlags::ALL_BITS);
        }
        UserFlags { bits: self.bits | other.bits }
    }

    /// The flags that are set in `self` and in `other`.
    pub fn intersection(&self, other: &UserFlags) -> (r: Self)
        ensures
            r.spec_bits() == self.spec_bits() & other.spec_bits(),
    {
        proof {
            use_type_invariant(self);
            use_type_invariant(other);
            lemma_closed(self.bits, other.bits, UserFlags::ALL_BITS);
        }
        UserFlags { bits: self.bits & other.bits }
    }

    /// The flags that are set in `self` and not in `other`.
    pub fn difference(&self, other: &UserFlags) -> (r: Self)
        ensures
            r.spec_bits() == self.spec_bits() & !other.spec_bits(),
    {
        proof {
            use_type_invariant(self);
            use_type_invariant(other);
            lemma_closed(self.bits, other.bits, UserFlags::ALL_BITS);
        }
        UserFlags { bits: self.bits & !other.bits }
    }
}

impl BitFlags for UserFlags {
    open spec fn known() -> u32 {
        UserFlags::ALL_BITS
    }

    closed spec fn spec_bits(&self) -> u32 {
        self.bits
    }

    fn known_bits() -> (r: u32) {
        UserFlags::ALL_BITS
    }

    fn bits(&self) -> (r: u32) {
        proof {
            use_type_invariant(self);
        }
        self.bits
    }

    fn from_known_bits(bits: u32) -> (r: Self) {
        UserFlags { bits }
    }
}

impl Decode for UserFlags {
    open spec fn decodes(j: Json, x: Self) -> bool {
        decoded_truncating(j, UserFlags::ALL_BITS) == Ok::<u32, DecodeError>(x.spec_bits())
    }

    open spec fn rejection(j: Json) -> Option<DecodeError> {
        error_of(decoded_truncating(j, UserFlags::ALL_BITS))
    }

    fn decode(v: &Value) -> (r: Result<Self, DecodeError>)
        ensures
            match r {
                Ok(x) => decoded_truncating(v@, UserFlags::ALL_BITS) == Ok::<u32, DecodeError>(
                    x.spec_bits(),
                ),
                Err(e) => decoded_truncating(v@, UserFlags::ALL_BITS) == Err::<u32, DecodeError>(e),
            },
    {
        decode_truncating::<UserFlags>(v)
    }
}

impl Encode for UserFlags {
    open spec fn wire(&self) -> Json {
        Json::Unsigned(self.spec_bits() as u64)
    }

    fn encode(&self) -> (r: Value) {
        unsigned(self.bits as u64)
    }
}

impl UserFlags {
    /// Every number is read, and the set that is read from it is written
    /// back as the number without the bits that are not named.
    pub proof fn lemma_read_and_written(n: u64, f: UserFlags)
        ensures
            UserFlags::rejection(Json::Unsigned(n)) is None,
            UserFlags::decodes(Json::Unsigned(n), f) ==> f.wire() == Json::Unsigned(
                n & UserFlags::ALL_BITS as u64,
            ),
            (n & UserFlags::ALL_BITS as u64) ^ n == n & !(UserFlags::ALL_BITS as u64),
    {
        lemma_truncating(n, UserFlags::ALL_BITS);
        lemma_truncate(n, UserFlags::ALL_BITS);
    }
}

/// The marks on a message. Read strictly.
#[derive(Clone, Copy, Debug, PartialEq, Eq, Hash, PartialOrd, Ord)]
pub struct MessageFlags {
    bits: u32,
}

impl MessageFlags {
    pub const CROSSPOSTED: u32 = 0x0000_0001;

    pub const IS_CROSSPOST: u32 = 0x0000_0002;

    pub const SUPPRESS_EMBEDS: u32 = 0x0000_0004;

    pub const SOURCE_MESSAGE_DELETED: u32 = 0x0000_0008;

    pub const URGENT: u32 = 0x0000_0010;

    /// The union of the named bits.
    pub const ALL_BITS: u32 = 0x0000_001F;

    #[verifier::type_invariant]
    spec fn only_named(self) -> bool {
        self.bits & !MessageFlags::ALL_BITS == 0
    }

    /// The set with no flag.
    pub fn empty() -> (r: Self)
        ensures
            r.spec_bits() == 0,
    {
        assert(0u32 & !MessageFlags::ALL_BITS == 0) by (bit_vector);
        MessageFlags { bits: 0 }
    }

    /// The set with every named flag.
    pub fn all() -> (r: Self)
        ensures
            r.spec_bits() == MessageFlags::ALL_BITS,
    {
        assert(MessageFlags::ALL_BITS & !MessageFlags::ALL_BITS == 0) by (bit_vector);
        MessageFlags { bits: MessageFlags::ALL_BITS }
    }

    /// The set with the mask `bits`, if `bits` holds no bit that is not
    /// named.
    pub fn from_bits(bits: u32) -> (r: Option<Self>)
        ensures
            match r {
                Some(f) => f.spec_bits() == bits && bits & !MessageFlags::ALL_BITS == 0,
                None => bits & !MessageFlags::ALL_BITS != 0,
            },
    {
        if bits & !MessageFlags::ALL_BITS == 0 {
            Some(MessageFlags { bits })
        } else {
            None
        }
    }

    /// The set of the named flags in `bits`.
    pub fn from_bits_truncate(bits: u32) -> (r: Self)
        ensures
            r.spec_bits() == bits & MessageFlags::ALL_BITS,
    {
        proof {
            lemma_truncate(bits as u64, MessageFlags::ALL_BITS);
            assert(bits as u64 & MessageFlags::ALL_BITS as u64
                == (bits & MessageFlags::ALL_BITS) as u64)
                by (bit_vector);
        }
        MessageFlags { bits: bits & MessageFlags::ALL_BITS }
    }

    /// The mask of the flags that are set. It has no bit that is not named.
    pub fn bits(&self) -> (r: u32)
        ensures
            r == self.spec_bits(),
            r & !MessageFlags::ALL_BITS == 0,
    {
        proof {
            use_type_invariant(self);
        }
        self.bits
    }

    /// Whether no flag is set.
    pub fn is_empty(&self) -> (r: bool)
        ensures
            r == (self.spec_bits() == 0),
    {
        self.bits == 0
    }

    /// Whether every flag of `other` is set in `self`.
    pub fn contains(&self, other: &MessageFlags) -> (r: bool)
        ensures
            r == (self.spec_bits() & other.spec_bits() == other.spec_bits()),
    {
        self.bits & other.bits == other.bits
    }

    /// The flags that are set in `self` or in `other`.
    pub fn union(&self, other: &MessageFlags) -> (r: Self)
        ensures
            r.spec_bits() == self.spec_bits() | other.spec_bits(),
    {
        proof {
            use_type_invariant(self);
            use_type_invariant(other);
            lemma_closed(self.bits, other.bits, MessageFlags::ALL_BITS);
        }
        MessageFlags { bits: self.bits | other.bits }
    }

    /// The flags that are set in `self` and in `other`.
    pub fn intersection(&self, other: &MessageFlags) -> (r: Self)
        ensures
            r.spec_bits() == self.spec_bits() & other.spec_bits(),
    {
        proof {
            use_type_invariant(self);
            use_type_invariant(other);
            lemma_closed(self.bits, other.bits, MessageFlags::ALL_BITS);
        }
        MessageFlags { bits: self.bits & other.bits }
    }

    /// The flags that are set in `self` and not in `other`.
    pub fn difference(&self, other: &MessageFlags) -> (r: Self)
        ensures
            r.spec_bits() == self.spec_bits() & !other.spec_bits(),
    {
        proof {
            use_type_invariant(self);
            use_type_invariant(other);
            lemma_closed(self.bits, other.bits, MessageFlags::ALL_BITS);
        }
        MessageFlags { bits: self.bits & !other.bits }
    }
}

impl BitFlags for MessageFlags {
    open spec fn known() -> u32 {
        MessageFlags::ALL_BITS
    }

    closed spec fn spec_bits(&self) -> u32 {
        self.bits
    }

    fn known_bits() -> (r: u32) {
        MessageFlags::ALL_BITS
    }

    fn bits(&self) -> (r: u32) {
        proof {
            use_type_invariant(self);
        }
        self.bits
    }

    fn from_known_bits(bits: u32) -> (r: Self) {
        MessageFlags { bits }
    }
}

impl Decode for MessageFlags {
    open spec fn decodes(j: Json, x: Self) -> bool {
        decoded_strict(j, MessageFlags::ALL_BITS) == Ok::<u32, DecodeError>(x.spec_bits())
    }

    open spec fn rejection(j: Json) -> Option<DecodeError> {
        error_of(decoded_strict(j, MessageFlags::ALL_BITS))
    }

    fn decode(v: &Value) -> (r: Result<Self, DecodeError>)
        ensures
            match r {
                Ok(x) => decoded_strict(v@, MessageFlags::ALL_BITS) == Ok::<u32, DecodeError>(
                    x.spec_bits(),
                ),
                Err(e) => decoded_strict(v@, MessageFlags::ALL_BITS) == Err::<u32, DecodeError>(e),
            },
    {
        decode_strict::<MessageFlags>(v)
    }
}

/// The ways in which a voice connection is sending sound. Read strictly.
#[derive(Clone, Copy, Debug, PartialEq, Eq, Hash, PartialOrd, Ord)]
pub struct SpeakingFlags {
    bits: u32,
}

impl SpeakingFlags {
    pub const MICROPHONE: u32 = 0x0000_0001;

    pub const SOUNDSHARE: u32 = 0x0000_0002;

    pub const PRIORITY: u32 = 0x0000_0004;

    /// The union of the named bits.
    pub const ALL_BITS: u32 = 0x0000_0007;

    #[verifier::type_invariant]
    spec fn only_named(self) -> bool {
        self.bits & !SpeakingFlags::ALL_BITS == 0
    }

    /// The set with no flag.
    pub fn empty() -> (r: Self)
        ensures
            r.spec_bits() == 0,
    {
        assert(0u32 & !SpeakingFlags::ALL_BITS == 0) by (bit_vector);
        SpeakingFlags { bits: 0 }
    }

    /// The set with every named flag.
    pub fn all() -> (r: Self)
        ensures
            r.spec_bits() == SpeakingFlags::ALL_BITS,
    {
        assert(SpeakingFlags::ALL_BITS & !SpeakingFlags::ALL_BITS == 0) by (bit_vector);
        SpeakingFlags { bits: SpeakingFlags::ALL_BITS }
    }

    /// The set with the mask `bits`, if `bits` holds no bit that is not
    /// named.
    pub fn from_bits(bits: u32) -> (r: Option<Self>)
        ensures
            match r {
                Some(f) => f.spec_bits() == bits && bits & !SpeakingFlags::ALL_BITS == 0,
                None => bits & !SpeakingFlags::ALL_BITS != 0,
            },
    {
        if bits & !SpeakingFlags::ALL_BITS == 0 {
            Some(SpeakingFlags { bits })
        } else {
            None
        }
    }

    /// The set of the named flags in `bits`.
    pub fn from_bits_truncate(bits: u32) -> (r: Self)
        ensures
            r.spec_bits() == bits & SpeakingFlags::ALL_BITS,
    {
        proof {
            lemma_truncate(bits as u64, SpeakingFlags::ALL_BITS);
            assert(bits as u64 & SpeakingFlags::ALL_BITS as u64
                == (bits & SpeakingFlags::ALL_BITS) as u64)
                by (bit_vector);
        }
        SpeakingFlags { bits: bits & SpeakingFlags::ALL_BITS }
    }

    /// The mask of the flags that are set. It has no bit that is not named.
    pub fn bits(&self) -> (r: u32)
        ensures
            r == self.spec_bits(),
            r & !SpeakingFlags::ALL_BITS == 0,
    {
        proof {
            use_type_invariant(self);
        }
        self.bits
    }

    /// Whether no flag is set.
    pub fn is_empty(&self) -> (r: bool)
        ensures
            r == (self.spec_bits() == 0),
    {
        self.bits == 0
    }

    /// Whether every flag of `other` is set in `self`.
    pub fn contains(&self, other: &SpeakingFlags) -> (r: bool)
        ensures
            r == (self.spec_bits() & other.spec_bits() == other.spec_bits()),
    {
        self.bits & other.bits == other.bits
    }

    /// The flags that are set in `self` or in `other`.
    pub fn union(&self, other: &SpeakingFlags) -> (r: Self)
        ensures
            r.spec_bits() == self.spec_bits() | other.spec_bits(),
    {
        proof {
            use_type_invariant(self);
            use_type_invariant(other);
            lemma_closed(self.bits, other.bits, SpeakingFlags::ALL_BITS);
        }
        SpeakingFlags { bits: self.bits | other.bits }
    }

    /// The flags that are set in `self` and in `other`.
    pub fn intersection(&self, other: &SpeakingFlags) -> (r: Self)
        ensures
            r.spec_bits() == self.spec_bits() & other.spec_bits(),
    {
        proof {
            use_type_invariant(self);
            use_type_invariant(other);
            lemma_closed(self.bits, other.bits, SpeakingFlags::ALL_BITS);
        }
        SpeakingFlags { bits: self.bits & other.bits }
    }

    /// The flags that are set in `self` and not in `other`.
    pub fn difference(&self, other: &SpeakingFlags) -> (r: Self)
        ensures
            r.spec_bits() == self.spec_bits() & !other.spec_bits(),
    {
        proof {
            use_type_invariant(self);
            use_type_invariant(other);
            lemma_closed(self.bits, other.bits, SpeakingFlags::ALL_BITS);
        }
        SpeakingFlags { bits: self.bits & !other.bits }
    }
}

impl BitFlags for SpeakingFlags {
    open spec fn known() -> u32 {
        SpeakingFlags::ALL_BITS
    }

    closed spec fn spec_bits(&self) -> u32 {
        self.bits
    }

    fn known_bits() -> (r: u32) {
        SpeakingFlags::ALL_BITS
    }

    fn bits(&self) -> (r: u32) {
        proof {
            use_type_invariant(self);
        }
        self.bits
    }

    fn from_known_bits(bits: u32) -> (r: Self) {
        SpeakingFlags { bits }
    }
}

impl Decode for SpeakingFlags {
    open spec fn decodes(j: Json, x: Self) -> bool {
        decoded_strict(j, SpeakingFlags::ALL_BITS) == Ok::<u32, DecodeError>(x.spec_bits())
    }

    open spec fn rejection(j: Json) -> Option<DecodeError> {
        error_of(decoded_strict(j, SpeakingFlags::ALL_BITS))
    }

    fn decode(v: &Value) -> (r: Result<Self, DecodeError>)
        ensures
            match r {
                Ok(x) => decoded_strict(v@, SpeakingFlags::ALL_BITS) == Ok::<u32, DecodeError>(
                    x.spec_bits(),
                ),
                Err(e) => decoded_strict(v@, SpeakingFlags::ALL_BITS) == Err::<u32, DecodeError>(e),
            },
    {
        decode_strict::<SpeakingFlags>(v)
    }
}

impl Encode for SpeakingFlags {
    open spec fn wire(&self) -> Json {
        Json::Unsigned(self.spec_bits() as u64)
    }

    fn encode(&self) -> (r: Value) {
        unsigned(self.bits as u64)
    }
}

impl SpeakingFlags {
    /// A number is read exactly when it fits in 32 bits and has no bit that
    /// is not named, and the set that is read from it is written back as
    /// that number.
    pub proof fn lemma_read_and_written(n: u64, f: SpeakingFlags)
        ensures
            SpeakingFlags::rejection(Json::Unsigned(n))
                == if only_known(n, SpeakingFlags::ALL_BITS) {
                None
            } else {
                Some(DecodeError::InvalidValue)
            },
            SpeakingFlags::decodes(Json::Unsigned(n), f) ==> f.wire() == Json::Unsigned(n),
    {
    }
}

} // verus!
