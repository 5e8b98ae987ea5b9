//! Wire values: the tree of tokens that a JSON document consists of, its
//! mathematical model, and the two traits by which a type is read from and
//! written to such a tree.

use crate::text::same_text;
use vstd::prelude::*;
use vstd::string::*;

verus! {

/// One JSON value.
///
/// A number is `Unsigned` when it is a non-negative integer, `Signed` when
/// it is a negative one, and `Real` otherwise; `Real` holds the bit pattern
/// of the IEEE 754 double.
#[derive(Debug, PartialEq)]
pub enum Value {
    Null,
    Bool(bool),
    Unsigned(u64),
    Signed(i64),
    Real(u64),
    Text(String),
    List(Vec<Value>),
    Object(Vec<Entry>),
}

/// One key of an object together with its value. An object keeps its entries
/// in document order, repeated keys included.
#[derive(Clone, Debug, PartialEq)]
pub struct Entry {
    pub key: String,
    pub value: Value,
}

/// The mathematical model of a [`Value`].
pub enum Json {
    Null,
    Bool(bool),
    Unsigned(u64),
    Signed(i64),
    Real(u64),
    Text(Seq<char>),
    List(Seq<Json>),
    Object(Seq<(Seq<char>, Json)>),
}

/// Why a value could not be read.
#[derive(Clone, Copy, Debug, PartialEq, Eq)]
pub enum DecodeError {
    /// A required key is absent from the object.
    MissingField(&'static str),
    /// A key occurs more than once in the object.
    DuplicateField(&'static str),
    /// A token is present but is not a value of the type that is read.
    InvalidValue,
}

/// The model of `v`.
#[verifier::opaque]
pub open spec fn json_of(v: Value) -> Json
    decreases v,
{
    match v {
        Value::Null => Json::Null,
        Value::Bool(b) => Json::Bool(b),
        Value::Unsigned(n) => Json::Unsigned(n),
        Value::Signed(n) => Json::Signed(n),
        Value::Real(bits) => Json::Real(bits),
        Value::Text(s) => Json::Text(s@),
        Value::List(items) => Json::List(
            Seq::new(
                items@.len(),
                |i: int|
                    if 0 <= i < items@.len() {
                        json_of(items@[i])
                    } else {
                        Json::Null
                    },
            ),
        ),
        Value::Object(entries) => Json::Object(
            Seq::new(
                entries@.len(),
                |i: int|
                    if 0 <= i < entries@.len() {
                        (entries@[i].key@, json_of(entries@[i].value))
                    } else {
                        (Seq::empty(), Json::Null)
                    },
            ),
        ),
    }
}

impl View for Value {
    type V = Json;

    open spec fn view(&self) -> Json {
        json_of(*self)
    }
}

/// The models of the items of a list.
pub open spec fn items_view(items: Seq<Value>) -> Seq<Json> {
    Seq::new(items.len(), |i: int| items[i]@)
}

/// The models of the entries of an object.
pub open spec fn entries_view(entries: Seq<Entry>) -> Seq<(Seq<char>, Json)> {
    Seq::new(entries.len(), |i: int| (entries[i].key@, entries[i].value@))
}

/// The model of a list is the list of the models of its items.
pub proof fn lemma_list_view(items: Vec<Value>)
    ensures
        Value::List(items)@ == Json::List(items_view(items@)),
{
    reveal_with_fuel(json_of, 2);
    let model = Value::List(items)@;
    assert(model matches Json::List(js) && js =~= items_view(items@));
}

/// The model of an object is the list of the models of its entries.
pub proof fn lemma_object_view(entries: Vec<Entry>)
    ensures
        Value::Object(entries)@ == Json::Object(entries_view(entries@)),
{
    reveal_with_fuel(json_of, 2);
    let model = Value::Object(entries)@;
    assert(model matches Json::Object(es) && es =~= entries_view(entries@));
}

/// The model of a token that is no list and no object.
pub proof fn lemma_scalar_view(v: Value)
    ensures
        match v {
            Value::Null => v@ == Json::Null,
            Value::Bool(b) => v@ == Json::Bool(b),
            Value::Unsigned(n) => v@ == Json::Unsigned(n),
            Value::Signed(n) => v@ == Json::Signed(n),
            Value::Real(bits) => v@ == Json::Real(bits),
            Value::Text(s) => v@ == Json::Text(s@),
            Value::List(_) => v@ is List,
            Value::Object(_) => v@ is Object,
        },
{
    reveal_with_fuel(json_of, 2);
}

/// Whether `v` is null.
pub fn is_null(v: &Value) -> (r: bool)
    ensures
        r == (v@ is Null),
{
    proof {
        lemma_scalar_view(*v);
    }
    match v {
        Value::Null => true,
        _ => false,
    }
}

/// The truth value that `v` is, if it is one.
pub fn as_bool(v: &Value) -> (r: Option<bool>)
    ensures
        match r {
            Some(b) => v@ == Json::Bool(b),
            None => !(v@ is Bool),
        },
{
    proof {
        lemma_scalar_view(*v);
    }
    match v {
        Value::Bool(b) => Some(*b),
        _ => None,
    }
}

/// The non-negative whole number that `v` is, if it is one.
pub fn as_unsigned(v: &Value) -> (r: Option<u64>)
    ensures
        match r {
            Some(n) => v@ == Json::Unsigned(n),
            None => !(v@ is Unsigned),
        },
{
    proof {
        lemma_scalar_view(*v);
    }
    match v {
        Value::Unsigned(n) => Some(*n),
        _ => None,
    }
}

/// The text that `v` is, if it is one.
pub fn as_text(v: &Value) -> (r: Option<&String>)
    ensures
        match r {
            Some(s) => v@ == Json::Text(s@),
            None => !(v@ is Text),
        },
{
    proof {
        lemma_scalar_view(*v);
    }
    match v {
        Value::Text(s) => Some(s),
        _ => None,
    }
}

/// The items of `v` if it is a list.
pub fn list_of(v: &Value) -> (r: Option<&Vec<Value>>)
    ensures
        match r {
            Some(items) => v@ == Json::List(items_view(items@)) && *v == Value::List(*items),
            None => !(v@ is List),
        },
{
    proof {
        lemma_scalar_view(*v);
    }
    match v {
        Value::List(items) => {
            proof {
                lemma_list_view(*items);
            }
            Some(items)
        },
        _ => None,
    }
}

/// The null token.
pub fn null() -> (r: Value)
    ensures
        r@ == Json::Null,
{
    proof {
        lemma_scalar_view(Value::Null);
    }
    Value::Null
}

/// The token of the truth value `b`.
pub fn boolean(b: bool) -> (r: Value)
    ensures
        r@ == Json::Bool(b),
{
    proof {
        lemma_scalar_view(Value::Bool(b));
    }
    Value::Bool(b)
}

/// The token of the non-negative whole number `n`.
pub fn unsigned(n: u64) -> (r: Value)
    ensures
        r@ == Json::Unsigned(n),
{
    proof {
        lemma_scalar_view(Value::Unsigned(n));
    }
    Value::Unsigned(n)
}

/// The text token that holds `s`.
pub fn text(s: &str) -> (r: Value)
    ensures
        r@ == Json::Text(s@),
{
    owned_text(String::from_str(s))
}

/// The text token that holds `s`.
pub fn owned_text(s: String) -> (r: Value)
    ensures
        r@ == Json::Text(s@),
{
    proof {
        lemma_scalar_view(Value::Text(s));
    }
    Value::Text(s)
}

/// The list that holds `items`.
pub fn list(items: Vec<Value>) -> (r: Value)
    ensures
        r@ == Json::List(items_view(items@)),
{
    proof {
        lemma_list_view(items);
    }
    Value::List(items)
}

impl Clone for Value {
    fn clone(&self) -> (r: Self)
        ensures
            r@ == self@,
        decreases self,
    {
        proof {
            lemma_scalar_view(*self);
        }
        match self {
            Value::Null => null(),
            Value::Bool(b) => boolean(*b),
            Value::Unsigned(n) => unsigned(*n),
            Value::Signed(n) => {
                proof {
                    lemma_scalar_view(Value::Signed(*n));
                }
                Value::Signed(*n)
            },
            Value::Real(bits) => {
                proof {
                    lemma_scalar_view(Value::Real(*bits));
                }
                Value::Real(*bits)
            },
            Value::Text(s) => owned_text(s.clone()),
            Value::List(items) => {
                let mut out: Vec<Value> = Vec::new();
                let mut i: usize = 0;
                while i < items.len()
                    invariant
                        i <= items.len(),
                        out@.len() == i,
                        *self == Value::List(*items),
                        forall|k: int| 0 <= k < i ==> (#[trigger] out@[k])@ == items@[k]@,
                    decreases items.len() - i,
                {
                    assert(self->List_0 == *items);
                    out.push(items[i].clone());
                    i = i + 1;
                }
                proof {
                    lemma_list_view(*items);
                    assert(items_view(out@) =~= items_view(items@));
                }
                list(out)
            },
            Value::Object(entries) => {
                let mut out: Vec<Entry> = Vec::new();
                let mut i: usize = 0;
                while i < entries.len()
                    invariant
                        i <= entries.len(),
                        out@.len() == i,
                        *self == Value::Object(*entries),
                        forall|k: int|
                            0 <= k < i ==> (#[trigger] out@[k]).key@ == entries@[k].key@
                                && out@[k].value@ == entries@[k].value@,
                    decreases entries.len() - i,
                {
                    assert(self->Object_0 == *entries);
                    let value = entries[i].value.clone();
                    out.push(Entry { key: entries[i].key.clone(), value });
                    i = i + 1;
                }
                proof {
                    lemma_object_view(*entries);
                    lemma_object_view(out);
                    assert(entries_view(out@) =~= entries_view(entries@));
                }
                Value::Object(out)
            },
        }
    }
}

/// What a search for one key in an object finds.
pub enum Lookup {
    /// No entry has the key.
    Absent,
    /// Exactly one entry has the key; this is its value.
    Once(Json),
    /// Two or more entries have the key.
    Repeated,
}

/// Searches the entries of an object for `key`.
pub open spec fn lookup(entries: Seq<(Seq<char>, Json)>, key: Seq<char>) -> Lookup
    decreases entries.len(),
{
    if entries.len() == 0 {
        Lookup::Absent
    } else {
        let before = lookup(entries.drop_last(), key);
        if entries.last().0 == key {
            match before {
                Lookup::Absent => Lookup::Once(entries.last().1),
                _ => Lookup::Repeated,
            }
        } else {
            before
        }
    }
}

/// A type that is read from a wire value.
pub trait Decode: Sized {
    /// Whether `j` is a wire form of `x`.
    spec fn decodes(j: Json, x: Self) -> bool;

    /// The error that reading `j` ends in, or `None` where `j` is read.
    spec fn rejection(j: Json) -> Option<DecodeError>;

    /// Reads a value of this type from `v`. It fails with the error that
    /// `rejection` gives, and then `v` is the wire form of no value of this
    /// type.
    fn decode(v: &Value) -> (r: Result<Self, DecodeError>)
        ensures
            match r {
                Ok(x) => Self::decodes(v@, x) && Self::rejection(v@) is None,
                Err(e) => Self::rejection(v@) == Some(e) && forall|x: Self| !Self::decodes(v@, x),
            },
    ;
}

/// The error of a failed reading, or `None` for a reading that succeeded.
pub open spec fn error_of<T>(r: Result<T, DecodeError>) -> Option<DecodeError> {
    match r {
        Ok(_) => None,
        Err(e) => Some(e),
    }
}

/// The order in which the errors of the parts of a value count.
pub trait Sooner {
    /// The first of two errors: `self` where there is one, else `next`.
    spec fn or_later(self, next: Self) -> Self;
}

impl Sooner for Option<DecodeError> {
    open spec fn or_later(self, next: Self) -> Self {
        if self is Some {
            self
        } else {
            next
        }
    }
}

/// The error of a number that has to be a non-negative whole number of at
/// most `max`.
pub open spec fn unsigned_rejection(j: Json, max: u64) -> Option<DecodeError> {
    match j {
        Json::Unsigned(n) => if n <= max {
            None
        } else {
            Some(DecodeError::InvalidValue)
        },
        _ => Some(DecodeError::InvalidValue),
    }
}

/// A type that is written as a wire value.
pub trait Encode {
    /// The wire form of `self`.
    spec fn wire(&self) -> Json;

    /// Writes `self` as a wire value.
    fn encode(&self) -> (r: Value)
        ensures
            r@ == self.wire(),
    ;
}

/// A type with a value that stands in for an absent key.
pub trait Blank: Decode {
    /// Whether `x` is the value that stands in for an absent key.
    spec fn is_blank(x: Self) -> bool;

    /// The value that stands in for an absent key.
    fn blank() -> (r: Self)
        ensures
            Self::is_blank(r),
    ;
}

/// `key` occurs once in the object and its value is a wire form of `x`.
pub open spec fn has_required<T: Decode>(
    entries: Seq<(Seq<char>, Json)>,
    key: Seq<char>,
    x: T,
) -> bool {
    lookup(entries, key) matches Lookup::Once(j) && T::decodes(j, x)
}

/// `key` is absent or null and `x` is `None`, or it occurs once and its value
/// is a wire form of what `x` holds.
pub open spec fn has_optional<T: Decode>(
    entries: Seq<(Seq<char>, Json)>,
    key: Seq<char>,
    x: Option<T>,
) -> bool {
    match lookup(entries, key) {
        Lookup::Absent => x is None,
        Lookup::Once(j) => Option::<T>::decodes(j, x),
        Lookup::Repeated => false,
    }
}

/// `key` is absent and `x` is blank, or it occurs once and its value is a
/// wire form of `x`.
pub open spec fn has_defaulted<T: Blank>(
    entries: Seq<(Seq<char>, Json)>,
    key: Seq<char>,
    x: T,
) -> bool {
    match lookup(entries, key) {
        Lookup::Absent => T::is_blank(x),
        Lookup::Once(j) => T::decodes(j, x),
        Lookup::Repeated => false,
    }
}

/// The error of a key that has to be there: it is missing, it occurs twice,
/// or its value is refused.
pub open spec fn required_rejection<T: Decode>(
    entries: Seq<(Seq<char>, Json)>,
    name: &'static str,
) -> Option<DecodeError> {
    match lookup(entries, name@) {
        Lookup::Absent => Some(DecodeError::MissingField(name)),
        Lookup::Once(j) => T::rejection(j),
        Lookup::Repeated => Some(DecodeError::DuplicateField(name)),
    }
}

/// The error of a key that may be absent or null: it occurs twice, or its
/// value is refused.
pub open spec fn optional_rejection<T: Decode>(
    entries: Seq<(Seq<char>, Json)>,
    name: &'static str,
) -> Option<DecodeError> {
    match lookup(entries, name@) {
        Lookup::Absent => None,
        Lookup::Once(j) => Option::<T>::rejection(j),
        Lookup::Repeated => Some(DecodeError::DuplicateField(name)),
    }
}

/// The error of a key whose absence stands for the blank value: it occurs
/// twice, or its value is refused.
pub open spec fn defaulted_rejection<T: Blank>(
    entries: Seq<(Seq<char>, Json)>,
    name: &'static str,
) -> Option<DecodeError> {
    match lookup(entries, name@) {
        Lookup::Absent => None,
        Lookup::Once(j) => T::rejection(j),
        Lookup::Repeated => Some(DecodeError::DuplicateField(name)),
    }
}

/// What a search finds in an object is a part of the object.
pub proof fn lemma_lookup_decreases(entries: Seq<(Seq<char>, Json)>, key: Seq<char>)
    ensures
        lookup(entries, key) matches Lookup::Once(j) ==> decreases_to!(entries => j),
    decreases entries.len(),
{
    if entries.len() > 0 {
        lemma_lookup_decreases(entries.drop_last(), key);
        assert(decreases_to!(entries => entries.drop_last()));
        assert(decreases_to!(entries => entries[entries.len() - 1]));
        assert(decreases_to!(entries.last() => entries.last().1));
    }
}

/// A way of reading one value of the type `T` from one item of a list.
pub trait Element<T> {
    /// Whether `j` is a wire form of the item that holds `x`.
    spec fn holds(j: Json, x: T) -> bool;

    /// The error that reading the item `j` ends in, or `None` where it is
    /// read.
    spec fn refusal(j: Json) -> Option<DecodeError>;

    /// Reads the value that the item `v` holds.
    fn read(v: &Value) -> (r: Result<T, DecodeError>)
        ensures
            match r {
                Ok(x) => Self::holds(v@, x) && Self::refusal(v@) is None,
                Err(e) => Self::refusal(v@) == Some(e) && forall|x: T| !Self::holds(v@, x),
            },
    ;
}

/// The item is the value itself.
pub struct Plain;

/// The item is an object that holds the value under the key `id`.
pub struct Keyed;

impl<T: Decode> Element<T> for Plain {
    open spec fn holds(j: Json, x: T) -> bool {
        T::decodes(j, x)
    }

    open spec fn refusal(j: Json) -> Option<DecodeError> {
        T::rejection(j)
    }

    fn read(v: &Value) -> (r: Result<T, DecodeError>) {
        T::decode(v)
    }
}

impl<T: Decode> Element<T> for Keyed {
    open spec fn holds(j: Json, x: T) -> bool {
        j matches Json::Object(entries) && has_required(entries, "id"@, x)
    }

    open spec fn refusal(j: Json) -> Option<DecodeError> {
        match j {
            Json::Object(entries) => required_rejection::<T>(entries, "id"),
            _ => Some(DecodeError::InvalidValue),
        }
    }

    fn read(v: &Value) -> (r: Result<T, DecodeError>) {
        let entries = object_of(v)?;
        required::<T>(entries, "id")
    }
}

/// The error of the first item from the place `from` on that is refused, or
/// `None` where each of them is read.
pub open spec fn first_refusal<T, E: Element<T>>(items: Seq<Json>, from: int) -> Option<
    DecodeError,
>
    decreases items.len() - from,
{
    if 0 <= from < items.len() {
        E::refusal(items[from]).or_later(first_refusal::<T, E>(items, from + 1))
    } else {
        None
    }
}

/// Items that are read do not count for the first refusal.
pub proof fn lemma_refusal_skip<T, E: Element<T>>(items: Seq<Json>, n: int)
    requires
        0 <= n <= items.len(),
        forall|k: int| 0 <= k < n ==> E::refusal(#[trigger] items[k]) is None,
    ensures
        first_refusal::<T, E>(items, 0) == first_refusal::<T, E>(items, n),
    decreases n,
{
    if n > 0 {
        lemma_refusal_skip::<T, E>(items, n - 1);
        assert(E::refusal(items[n - 1]) is None);
    }
}

/// Searches the entries of an object for the key `name`.
pub fn find<'a>(entries: &'a Vec<Entry>, name: &'static str) -> (r: Result<
    Option<&'a Value>,
    DecodeError,
>)
    ensures
        match lookup(entries_view(entries@), name@) {
            Lookup::Absent => r == Ok::<Option<&Value>, DecodeError>(None),
            Lookup::Once(j) => r matches Ok(Some(v)) && v@ == j,
            Lookup::Repeated => r == Err::<Option<&Value>, DecodeError>(
                DecodeError::DuplicateField(name),
            ),
        },
        r matches Ok(Some(v)) ==> exists|k: int|
            0 <= k < entries@.len() && (#[trigger] entries@[k]).value == *v,
{
    let mut found: Option<&'a Value> = None;
    let mut i: usize = 0;
    let ghost all = entries_view(entries@);
    while i < entries.len()
        invariant
            i <= entries.len(),
            all == entries_view(entries@),
            match lookup(all.subrange(0, i as int), name@) {
                Lookup::Absent => found is None,
                Lookup::Once(j) => found matches Some(v) && v@ == j,
                Lookup::Repeated => false,
            },
            found matches Some(v) ==> exists|k: int|
                0 <= k < entries@.len() && (#[trigger] entries@[k]).value == *v,
        decreases entries.len() - i,
    {
        let ghost next = all.subrange(0, i + 1);
        proof {
            assert(next.drop_last() =~= all.subrange(0, i as int));
            assert(next.last() == all[i as int]);
        }
        if same_text(entries[i].key.as_str(), name) {
            if found.is_some() {
                proof {
                    lemma_repeated_stays(all, i + 1, name@);
                }
                return Err(DecodeError::DuplicateField(name));
            }
            found = Some(&entries[i].value);
        }
        i = i + 1;
    }
    assert(all.subrange(0, i as int) =~= all);
    Ok(found)
}

/// Once a key has been seen twice, it stays repeated in every longer prefix.
proof fn lemma_repeated_stays(entries: Seq<(Seq<char>, Json)>, k: int, key: Seq<char>)
    requires
        0 <= k <= entries.len(),
        lookup(entries.subrange(0, k), key) is Repeated,
    ensures
        lookup(entries, key) is Repeated,
    decreases entries.len() - k,
{
    if k == entries.len() {
        assert(entries.subrange(0, k) =~= entries);
    } else {
        let next = entries.subrange(0, k + 1);
        assert(next.drop_last() =~= entries.subrange(0, k));
        lemma_repeated_stays(entries, k + 1, key);
    }
}

/// The entries of `v` if it is an object.
pub fn object_of(v: &Value) -> (r: Result<&Vec<Entry>, DecodeError>)
    ensures
        match r {
            Ok(entries) => v@ == Json::Object(entries_view(entries@)) && *v == Value::Object(
                *entries,
            ),
            Err(e) => e == DecodeError::InvalidValue && !(v@ is Object),
        },
{
    proof {
        lemma_scalar_view(*v);
    }
    match v {
        Value::Object(entries) => {
            proof {
                lemma_object_view(*entries);
            }
            Ok(entries)
        },
        _ => Err(DecodeError::InvalidValue),
    }
}

/// Reads the value of a key that has to be there.
pub fn required<T: Decode>(entries: &Vec<Entry>, name: &'static str) -> (r: Result<T, DecodeError>)
    ensures
        match r {
            Ok(x) => has_required(entries_view(entries@), name@, x) && required_rejection::<T>(
                entries_view(entries@),
                name,
            ) is None,
            Err(e) => required_rejection::<T>(entries_view(entries@), name) == Some(e) && forall|
                x: T,
            | !has_required(entries_view(entries@), name@, x),
        },
{
    match find(entries, name)? {
        Some(v) => T::decode(v),
        None => Err(DecodeError::MissingField(name)),
    }
}

/// Reads the value of a key that may be absent or null.
pub fn optional<T: Decode>(entries: &Vec<Entry>, name: &'static str) -> (r: Result<
    Option<T>,
    DecodeError,
>)
    ensures
        match r {
            Ok(x) => has_optional(entries_view(entries@), name@, x) && optional_rejection::<T>(
                entries_view(entries@),
                name,
            ) is None,
            Err(e) => optional_rejection::<T>(entries_view(entries@), name) == Some(e) && forall|
                x: Option<T>,
            | !has_optional(entries_view(entries@), name@, x),
        },
{
    match find(entries, name)? {
        Some(v) => Option::<T>::decode(v),
        None => Ok(None),
    }
}

/// Reads the value of a key whose absence stands for the blank value.
pub fn defaulted<T: Blank>(entries: &Vec<Entry>, name: &'static str) -> (r: Result<T, DecodeError>)
    ensures
        match r {
            Ok(x) => has_defaulted(entries_view(entries@), name@, x) && defaulted_rejection::<T>(
                entries_view(entries@),
                name,
            ) is None,
            Err(e) => defaulted_rejection::<T>(entries_view(entries@), name) == Some(e) && forall|
                x: T,
            | !has_defaulted(entries_view(entries@), name@, x),
        },
{
    match find(entries, name)? {
        Some(v) => T::decode(v),
        None => Ok(T::blank()),
    }
}

impl<T: Decode> Decode for Option<T> {
    open spec fn decodes(j: Json, x: Self) -> bool {
        if j is Null {
            x is None
        } else {
            x matches Some(y) && T::decodes(j, y)
        }
    }

    open spec fn rejection(j: Json) -> Option<DecodeError> {
        if j is Null {
            None
        } else {
            T::rejection(j)
        }
    }

    fn decode(v: &Value) -> (r: Result<Self, DecodeError>) {
        if is_null(v) {
            return Ok(None);
        }
        match T::decode(v) {
            Ok(x) => Ok(Some(x)),
            Err(e) => Err(e),
        }
    }
}

impl<T: Decode> Decode for Vec<T> {
    open spec fn decodes(j: Json, x: Self) -> bool {
        &&& j matches Json::List(items)
        &&& items.len() == x@.len()
        &&& forall|i: int| 0 <= i < items.len() ==> T::decodes(#[trigger] items[i], x@[i])
    }

    open spec fn rejection(j: Json) -> Option<DecodeError> {
        match j {
            Json::List(items) => first_refusal::<T, Plain>(items, 0),
            _ => Some(DecodeError::InvalidValue),
        }
    }

    fn decode(v: &Value) -> (r: Result<Self, DecodeError>) {
        match list_of(v) {
            Some(items) => {
                let mut out: Vec<T> = Vec::new();
                let mut i: usize = 0;
                while i < items.len()
                    invariant
                        i <= items.len(),
                        out@.len() == i,
                        v@ == Json::List(items_view(items@)),
                        forall|k: int| 0 <= k < i ==> T::decodes(items@[k]@, #[trigger] out@[k]),
                        forall|k: int|
                            0 <= k < i ==> T::rejection(#[trigger] items_view(items@)[k]) is None,
                    decreases items.len() - i,
                {
                    match T::decode(&items[i]) {
                        Ok(x) => {
                            assert(items_view(items@)[i as int] == items@[i as int]@);
                            out.push(x);
                        },
                        Err(e) => {
                            proof {
                                let js = items_view(items@);
                                assert forall|x: Self| !Self::decodes(v@, x) by {
                                    if Self::decodes(v@, x) {
                                        assert(T::decodes(js[i as int], x@[i as int]));
                                    }
                                }
                                lemma_refusal_skip::<T, Plain>(js, i as int);
                                assert(js[i as int] == items@[i as int]@);
                            }
                            return Err(e);
                        },
                    }
                    i = i + 1;
                }
                proof {
                    let js = items_view(items@);
                    assert forall|k: int| 0 <= k < js.len() implies T::decodes(
                        #[trigger] js[k],
                        out@[k],
                    ) by {
                        assert(T::decodes(items@[k]@, out@[k]));
                    }
                    lemma_refusal_skip::<T, Plain>(js, js.len() as int);
                }
                Ok(out)
            },
            None => Err(DecodeError::InvalidValue),
        }
    }
}

impl<T: Decode> Blank for Vec<T> {
    open spec fn is_blank(x: Self) -> bool {
        x@.len() == 0
    }

    fn blank() -> (r: Self) {
        Vec::new()
    }
}

impl Decode for bool {
    open spec fn decodes(j: Json, x: Self) -> bool {
        j == Json::Bool(x)
    }

    open spec fn rejection(j: Json) -> Option<DecodeError> {
        if j is Bool {
            None
        } else {
            Some(DecodeError::InvalidValue)
        }
    }

    fn decode(v: &Value) -> (r: Result<Self, DecodeError>) {
        match as_bool(v) {
            Some(b) => Ok(b),
            None => Err(DecodeError::InvalidValue),
        }
    }
}

impl Blank for bool {
    open spec fn is_blank(x: Self) -> bool {
        !x
    }

    fn blank() -> (r: Self) {
        false
    }
}

impl Decode for u64 {
    open spec fn decodes(j: Json, x: Self) -> bool {
        j == Json::Unsigned(x)
    }

    open spec fn rejection(j: Json) -> Option<DecodeError> {
        unsigned_rejection(j, u64::MAX)
    }

    fn decode(v: &Value) -> (r: Result<Self, DecodeError>) {
        match as_unsigned(v) {
            Some(n) => Ok(n),
            None => Err(DecodeError::InvalidValue),
        }
    }
}

impl Decode for u32 {
    open spec fn decodes(j: Json, x: Self) -> bool {
        j == Json::Unsigned(x as u64)
    }

    open spec fn rejection(j: Json) -> Option<DecodeError> {
        unsigned_rejection(j, 0xffff_ffff)
    }

    fn decode(v: &Value) -> (r: Result<Self, DecodeError>) {
        match as_unsigned(v) {
            Some(n) => {
                if n <= 0xffff_ffff {
                    Ok(n as u32)
                } else {
                    Err(DecodeError::InvalidValue)
                }
            },
            None => Err(DecodeError::InvalidValue),
        }
    }
}

impl Blank for u32 {
    open spec fn is_blank(x: Self) -> bool {
        x == 0
    }

    fn blank() -> (r: Self) {
        0
    }
}

impl Decode for u16 {
    open spec fn decodes(j: Json, x: Self) -> bool {
        j == Json::Unsigned(x as u64)
    }

    open spec fn rejection(j: Json) -> Option<DecodeError> {
        unsigned_rejection(j, 0xffff)
    }

    fn decode(v: &Value) -> (r: Result<Self, DecodeError>) {
        match as_unsigned(v) {
            Some(n) => {
                if n <= 0xffff {
                    Ok(n as u16)
                } else {
                    Err(DecodeError::InvalidValue)
                }
            },
            None => Err(DecodeError::InvalidValue),
        }
    }
}

impl Decode for u8 {
    open spec fn decodes(j: Json, x: Self) -> bool {
        j == Json::Unsigned(x as u64)
    }

    open spec fn rejection(j: Json) -> Option<DecodeError> {
        unsigned_rejection(j, 0xff)
    }

    fn decode(v: &Value) -> (r: Result<Self, DecodeError>) {
        match as_unsigned(v) {
            Some(n) => {
                if n <= 0xff {
                    Ok(n as u8)
                } else {
                    Err(DecodeError::InvalidValue)
                }
            },
            None => Err(DecodeError::InvalidValue),
        }
    }
}

impl Decode for String {
    open spec fn decodes(j: Json, x: Self) -> bool {
        j == Json::Text(x@)
    }

    open spec fn rejection(j: Json) -> Option<DecodeError> {
        if j is Text {
            None
        } else {
            Some(DecodeError::InvalidValue)
        }
    }

    fn decode(v: &Value) -> (r: Result<Self, DecodeError>) {
        match as_text(v) {
            Some(s) => Ok(s.clone()),
            None => Err(DecodeError::InvalidValue),
        }
    }
}

impl Blank for String {
    open spec fn is_blank(x: Self) -> bool {
        x@.len() == 0
    }

    fn blank() -> (r: Self) {
        String::new()
    }
}

/// An entry with the key `name`.
pub fn entry(name: &str, value: Value) -> (r: Entry)
    ensures
        r.key@ == name@,
        r.value == value,
{
    Entry { key: String::from_str(name), value }
}

/// The object that holds `entries`.
pub fn object(entries: Vec<Entry>) -> (r: Value)
    ensures
        r@ == Json::Object(entries_view(entries@)),
{
    proof {
        lemma_object_view(entries);
    }
    Value::Object(entries)
}

impl<T: Encode> Encode for Option<T> {
    open spec fn wire(&self) -> Json {
        match self {
            Some(x) => x.wire(),
            None => Json::Null,
        }
    }

    fn encode(&self) -> (r: Value) {
        match self {
            Some(x) => x.encode(),
            None => null(),
        }
    }
}

impl<T: Encode> Encode for Vec<T> {
    open spec fn wire(&self) -> Json {
        Json::List(Seq::new(self@.len(), |i: int| self@[i].wire()))
    }

    fn encode(&self) -> (r: Value) {
        let mut out: Vec<Value> = Vec::new();
        let mut i: usize = 0;
        while i < self.len()
            invariant
                i <= self.len(),
                out@.len() == i,
                forall|k: int| 0 <= k < i ==> (#[trigger] out@[k])@ == self@[k].wire(),
            decreases self.len() - i,
        {
            out.push(self[i].encode());
            i = i + 1;
        }
        assert(items_view(out@) =~= Seq::new(self@.len(), |i: int| self@[i].wire()));
        list(out)
    }
}

impl Encode for bool {
    open spec fn wire(&self) -> Json {
        Json::Bool(*self)
    }

    fn encode(&self) -> (r: Value) {
        boolean(*self)
    }
}

impl Encode for u64 {
    open spec fn wire(&self) -> Json {
        Json::Unsigned(*self)
    }

    fn encode(&self) -> (r: Value) {
        unsigned(*self)
    }
}

impl Encode for u32 {
    open spec fn wire(&self) -> Json {
        Json::Unsigned(*self as u64)
    }

    fn encode(&self) -> (r: Value) {
        unsigned(*self as u64)
    }
}

impl Encode for u16 {
    open spec fn wire(&self) -> Json {
        Json::Unsigned(*self as u64)
    }

    fn encode(&self) -> (r: Value) {
        unsigned(*self as u64)
    }
}

impl Encode for u8 {
    open spec fn wire(&self) -> Json {
        Json::Unsigned(*self as u64)
    }

    fn encode(&self) -> (r: Value) {
        unsigned(*self as u64)
    }
}

impl Encode for String {
    open spec fn wire(&self) -> Json {
        Json::Text(self@)
    }

    fn encode(&self) -> (r: Value) {
        owned_text(self.clone())
    }
}

impl<'a> Encode for &'a str {
    open spec fn wire(&self) -> Json {
        Json::Text(self@)
    }

    fn encode(&self) -> (r: Value) {
        text(*self)
    }
}

/// The one entry that holds `j` under `key`.
pub open spec fn one(key: Seq<char>, j: Json) -> Seq<(Seq<char>, Json)> {
    seq![(key, j)]
}

/// The entry that holds what `x` holds under `key`, or nothing where `x`
/// holds nothing.
pub open spec fn maybe<T: Encode>(key: Seq<char>, x: Option<T>) -> Seq<(Seq<char>, Json)> {
    match x {
        Some(v) => seq![(key, v.wire())],
        None => Seq::empty(),
    }
}

/// The entry that holds the list `xs` under `key`, or nothing where the list
/// is empty.
pub open spec fn unless_empty<T: Encode>(key: Seq<char>, xs: Vec<T>) -> Seq<(Seq<char>, Json)> {
    if xs@.len() == 0 {
        Seq::empty()
    } else {
        seq![(key, xs.wire())]
    }
}

/// An object under construction, with no entry yet.
pub fn fresh() -> (r: Vec<Entry>)
    ensures
        r@ == Seq::<Entry>::empty(),
        entries_view(r@) == Seq::<(Seq<char>, Json)>::empty(),
{
    let r: Vec<Entry> = Vec::new();
    assert(entries_view(r@) =~= Seq::<(Seq<char>, Json)>::empty());
    r
}

/// Appends the entry that holds `value` under `name`.
pub fn put_value(entries: &mut Vec<Entry>, name: &str, value: Value)
    ensures
        entries_view(final(entries)@) == entries_view(old(entries)@) + one(name@, value@),
{
    entries.push(entry(name, value));
    assert(entries_view(entries@) =~= entries_view(old(entries)@) + one(name@, value@));
}

/// Appends the entry that holds `x` under `name`.
pub fn put<T: Encode>(entries: &mut Vec<Entry>, name: &str, x: &T)
    ensures
        entries_view(final(entries)@) == entries_view(old(entries)@) + one(name@, x.wire()),
{
    put_value(entries, name, x.encode());
}

/// Appends the entry that holds what `x` holds under `name`, if `x` holds
/// anything.
pub fn put_some<T: Encode>(entries: &mut Vec<Entry>, name: &str, x: &Option<T>)
    ensures
        entries_view(final(entries)@) == entries_view(old(entries)@) + maybe(name@, *x),
{
    match x {
        Some(v) => {
            put_value(entries, name, v.encode());
        },
        None => {
            assert(entries_view(entries@) =~= entries_view(old(entries)@) + maybe(name@, *x));
        },
    }
}

/// Appends the entry that holds the list `xs` under `name`, unless the list
/// is empty.
pub fn put_filled<T: Encode>(entries: &mut Vec<Entry>, name: &str, xs: &Vec<T>)
    ensures
        entries_view(final(entries)@) == entries_view(old(entries)@) + unless_empty(name@, *xs),
{
    if xs.len() > 0 {
        put_value(entries, name, xs.encode());
    } else {
        assert(entries_view(entries@) =~= entries_view(old(entries)@) + unless_empty(name@, *xs));
    }
}

/// A number as it stands in a document, whatever its kind. `Real` holds the
/// bit pattern of the IEEE 754 double.
#[derive(Clone, Copy, Debug, PartialEq, Eq, Structural)]
pub enum Number {
    Unsigned(u64),
    Signed(i64),
    Real(u64),
}

impl Number {
    /// The token that a number is.
    pub open spec fn token(self) -> Json {
        match self {
            Number::Unsigned(n) => Json::Unsigned(n),
            Number::Signed(n) => Json::Signed(n),
            Number::Real(bits) => Json::Real(bits),
        }
    }
}

impl Decode for Number {
    open spec fn decodes(j: Json, x: Self) -> bool {
        j == x.token()
    }

    open spec fn rejection(j: Json) -> Option<DecodeError> {
        if j is Unsigned || j is Signed || j is Real {
            None
        } else {
            Some(DecodeError::InvalidValue)
        }
    }

    fn decode(v: &Value) -> (r: Result<Self, DecodeError>) {
        proof {
            lemma_scalar_view(*v);
        }
        match v {
            Value::Unsigned(n) => Ok(Number::Unsigned(*n)),
            Value::Signed(n) => Ok(Number::Signed(*n)),
            Value::Real(bits) => Ok(Number::Real(*bits)),
            _ => Err(DecodeError::InvalidValue),
        }
    }
}

impl Decode for (u8, u8) {
    open spec fn decodes(j: Json, x: Self) -> bool {
        &&& j matches Json::List(items)
        &&& items.len() == 2
        &&& items[0] == Json::Unsigned(x.0 as u64)
        &&& items[1] == Json::Unsigned(x.1 as u64)
    }

    open spec fn rejection(j: Json) -> Option<DecodeError> {
        match j {
            Json::List(items) => if items.len() == 2 {
                u8::rejection(items[0]).or_later(u8::rejection(items[1]))
            } else {
                Some(DecodeError::InvalidValue)
            },
            _ => Some(DecodeError::InvalidValue),
        }
    }

    fn decode(v: &Value) -> (r: Result<Self, DecodeError>) {
        match list_of(v) {
            Some(items) => {
                if items.len() != 2 {
                    return Err(DecodeError::InvalidValue);
                }
                let a = match u8::decode(&items[0]) {
                    Ok(a) => a,
                    Err(e) => {
                        proof {
                            assert forall|x: Self| !Self::decodes(v@, x) by {
                                if Self::decodes(v@, x) {
                                    assert(items_view(items@)[0] == items@[0]@);
                                    assert(u8::decodes(items@[0]@, x.0));
                                }
                            }
                        }
                        return Err(e);
                    },
                };
                let b = match u8::decode(&items[1]) {
                    Ok(b) => b,
                    Err(e) => {
                        proof {
                            assert forall|x: Self| !Self::decodes(v@, x) by {
                                if Self::decodes(v@, x) {
                                    assert(items_view(items@)[1] == items@[1]@);
                                    assert(u8::decodes(items@[1]@, x.1));
                                }
                            }
                        }
                        return Err(e);
                    },
                };
                assert(items_view(items@)[0] == items@[0]@);
                assert(items_view(items@)[1] == items@[1]@);
                Ok((a, b))
            },
            _ => Err(DecodeError::InvalidValue),
        }
    }
}

impl Encode for (u8, u8) {
    open spec fn wire(&self) -> Json {
        Json::List(seq![Json::Unsigned(self.0 as u64), Json::Unsigned(self.1 as u64)])
    }

    fn encode(&self) -> (r: Value) {
        let mut items: Vec<Value> = Vec::new();
        items.push(unsigned(self.0 as u64));
        items.push(unsigned(self.1 as u64));
        assert(items_view(items@) =~= seq![
            Json::Unsigned(self.0 as u64),
            Json::Unsigned(self.1 as u64),
        ]);
        list(items)
    }
}

/// The key of a voice session: 32 bytes.
#[derive(Clone, Copy, PartialEq, Eq)]
pub struct SecretKey {
    pub bytes: [u8; 32],
}

impl Decode for SecretKey {
    open spec fn decodes(j: Json, x: Self) -> bool {
        &&& j matches Json::List(items)
        &&& items.len() == 32
        &&& forall|i: int| 0 <= i < 32 ==> #[trigger] items[i] == Json::Unsigned(x.bytes@[i] as u64)
    }

    open spec fn rejection(j: Json) -> Option<DecodeError> {
        match j {
            Json::List(items) => if items.len() == 32 {
                first_refusal::<u8, Plain>(items, 0)
            } else {
                Some(DecodeError::InvalidValue)
            },
            _ => Some(DecodeError::InvalidValue),
        }
    }

    fn decode(v: &Value) -> (r: Result<Self, DecodeError>) {
        match list_of(v) {
            Some(items) => {
                if items.len() != 32 {
                    return Err(DecodeError::InvalidValue);
                }
                let mut bytes: [u8; 32] = [0u8; 32];
                let mut i: usize = 0;
                while i < 32
                    invariant
                        i <= 32,
                        items@.len() == 32,
                        v@ == Json::List(items_view(items@)),
                        forall|k: int|
                            0 <= k < i ==> items@[k]@
                                == Json::Unsigned(#[trigger] bytes@[k] as u64),
                        forall|k: int|
                            0 <= k < i ==> u8::rejection(#[trigger] items_view(items@)[k]) is None,
                    decreases 32 - i,
                {
                    assert(items_view(items@)[i as int] == items@[i as int]@);
                    match u8::decode(&items[i]) {
                        Ok(b) => {
                            bytes[i] = b;
                        },
                        Err(e) => {
                            proof {
                                lemma_refusal_skip::<u8, Plain>(items_view(items@), i as int);
                                assert forall|x: Self| !Self::decodes(v@, x) by {
                                    if Self::decodes(v@, x) {
                                        assert(items_view(items@)[i as int] == Json::Unsigned(
                                            x.bytes@[i as int] as u64,
                                        ));
                                        assert(u8::decodes(items@[i as int]@, x.bytes@[i as int]));
                                    }
                                }
                            }
                            return Err(e);
                        },
                    }
                    i = i + 1;
                }
                proof {
                    let js = items_view(items@);
                    assert forall|k: int| 0 <= k < 32 implies #[trigger] js[k] == Json::Unsigned(
                        bytes@[k] as u64,
                    ) by {
                        assert(items@[k]@ == Json::Unsigned(bytes@[k] as u64));
                    }
                    lemma_refusal_skip::<u8, Plain>(js, 32);
                }
                Ok(SecretKey { bytes })
            },
            _ => Err(DecodeError::InvalidValue),
        }
    }
}

} // verus!
