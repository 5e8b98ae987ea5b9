//! Sets of identifiers of one kind.

use crate::snowflake::{encoded_id, GuildId};
use crate::wire::{
    first_refusal, items_view, lemma_refusal_skip, list, list_of, Decode, DecodeError, Element,
    Encode, Json, Keyed, Plain, Value,
};
use vstd::prelude::*;

verus! {

/// An identifier of some kind: a value that is known by its number alone.
pub trait Identifier: Copy + Decode + Encode {
    /// The number of the identifier.
    spec fn number(self) -> u64;

    /// The number of the identifier.
    fn raw(&self) -> (r: u64)
        ensures
            r == self.number(),
    ;

    /// Two identifiers with one number are the same.
    proof fn lemma_same_number(a: Self, b: Self)
        requires
            a.number() == b.number(),
        ensures
            a == b,
    ;

    /// An identifier is written as the decimal text of its number.
    proof fn lemma_wire_form(self)
        ensures
            self.wire() == encoded_id(self.number()),
    ;
}

/// Whether some member is held by the item `j`.
#[verifier::opaque]
pub open spec fn covered<T, E: Element<T>>(j: Json, members: Seq<T>) -> bool {
    exists|k: int| 0 <= k < members.len() && #[trigger] E::holds(j, members[k])
}

/// Whether some one of the first `n` items holds `x`.
#[verifier::opaque]
pub open spec fn sourced<T, E: Element<T>>(x: T, items: Seq<Json>, n: int) -> bool {
    exists|i: int| 0 <= i < n && #[trigger] E::holds(items[i], x)
}

/// Whether `members` are the identifiers that the first `n` items hold: each
/// of those items holds a member, and each member is held by one of them.
pub open spec fn gathers<T, E: Element<T>>(items: Seq<Json>, n: int, members: Seq<T>) -> bool {
    &&& forall|i: int| 0 <= i < n ==> covered::<T, E>(#[trigger] items[i], members)
    &&& forall|k: int| 0 <= k < members.len() ==> sourced::<T, E>(#[trigger] members[k], items, n)
}

/// What the first `n` items hold, and what the next item holds, are what the
/// first `n + 1` items hold.
proof fn lemma_gather_step<T, E: Element<T>>(
    items: Seq<Json>,
    n: int,
    before: Seq<T>,
    id: T,
    after: Seq<T>,
)
    requires
        0 <= n < items.len(),
        gathers::<T, E>(items, n, before),
        E::holds(items[n], id),
        after == before.push(id) || (after == before && before.contains(id)),
    ensures
        gathers::<T, E>(items, n + 1, after),
{
    assert forall|a: int| 0 <= a < n + 1 implies covered::<T, E>(#[trigger] items[a], after) by {
        reveal(covered);
        if a < n {
            assert(covered::<T, E>(items[a], before));
            let k = choose|k: int| 0 <= k < before.len()
                && #[trigger] E::holds(items[a], before[k]);
            assert(E::holds(items[a], after[k]));
        } else if after == before.push(id) {
            assert(E::holds(items[a], after[before.len() as int]));
        } else {
            let k = choose|k: int| 0 <= k < before.len() && before[k] == id;
            assert(E::holds(items[a], after[k]));
        }
    }
    assert forall|k: int| 0 <= k < after.len() implies sourced::<T, E>(
        #[trigger] after[k],
        items,
        n + 1,
    ) by {
        reveal(sourced);
        if k < before.len() {
            assert(sourced::<T, E>(before[k], items, n));
            let a = choose|a: int| 0 <= a < n && #[trigger] E::holds(items[a], before[k]);
            assert(E::holds(items[a], after[k]));
        } else {
            assert(E::holds(items[n], after[k]));
        }
    }
}

/// Whether `members` are the identifiers that the list `j` holds.
pub open spec fn gathered<T, E: Element<T>>(j: Json, members: Seq<T>) -> bool {
    j matches Json::List(items) && gathers::<T, E>(items, items.len() as int, members)
}

/// The error of reading a set from `j`: `j` is no list, or one of its items
/// is refused.
pub open spec fn gather_rejection<T, E: Element<T>>(j: Json) -> Option<DecodeError> {
    match j {
        Json::List(items) => first_refusal::<T, E>(items, 0),
        _ => Some(DecodeError::InvalidValue),
    }
}

/// Where an item of a list is the wire form of no identifier, no members are
/// gathered from the list.
pub proof fn lemma_not_gathered<T, E: Element<T>>(items: Seq<Json>, i: int, members: Seq<T>)
    requires
        0 <= i < items.len(),
        forall|x: T| !E::holds(items[i], x),
    ensures
        !gathers::<T, E>(items, items.len() as int, members),
{
    if gathers::<T, E>(items, items.len() as int, members) {
        reveal(covered);
        assert(covered::<T, E>(items[i], members));
    }
}

/// A set of identifiers of the type `T`. It keeps its members in the order
/// in which they came, each once.
#[derive(Clone, Debug)]
pub struct IdSet<T: Identifier> {
    items: Vec<T>,
}

impl<T: Identifier> IdSet<T> {
    /// No identifier is a member twice. This holds of every set that `new`,
    /// `insert` and the readers make.
    pub closed spec fn distinct(self) -> bool {
        forall|i: int, j: int|
            0 <= i < j < self.items@.len() ==> (#[trigger] self.items@[i]).number() != (
            #[trigger] self.items@[j]).number()
    }

    /// The members, in the order in which they came.
    pub closed spec fn members(self) -> Seq<T> {
        self.items@
    }

    /// The set without members.
    pub fn new() -> (r: Self)
        ensures
            r.members() == Seq::<T>::empty(),
            r.distinct(),
    {
        IdSet { items: Vec::new() }
    }

    /// How many members there are.
    pub fn len(&self) -> (r: usize)
        ensures
            r == self.members().len(),
    {
        self.items.len()
    }

    /// Whether there is no member.
    pub fn is_empty(&self) -> (r: bool)
        ensures
            r == (self.members().len() == 0),
    {
        self.items.len() == 0
    }

    /// The member at the place `i`.
    pub fn get(&self, i: usize) -> (r: T)
        requires
            i < self.members().len(),
        ensures
            r == self.members()[i as int],
    {
        self.items[i]
    }

    /// Whether `id` is a member.
    pub fn contains(&self, id: &T) -> (r: bool)
        ensures
            r == self.members().contains(*id),
    {
        let n: u64 = id.raw();
        let mut i: usize = 0;
        while i < self.items.len()
            invariant
                i <= self.items@.len(),
                n == id.number(),
                forall|k: int| 0 <= k < i ==> self.items@[k] != *id,
            decreases self.items.len() - i,
        {
            if self.items[i].raw() == n {
                proof {
                    T::lemma_same_number(self.items@[i as int], *id);
                }
                return true;
            }
            i = i + 1;
        }
        false
    }

    /// Makes `id` a member. Says whether it was none before.
    pub fn insert(&mut self, id: T) -> (r: bool)
        requires
            old(self).distinct(),
        ensures
            final(self).distinct(),
            r == !old(self).members().contains(id),
            final(self).members() == if r {
                old(self).members().push(id)
            } else {
                old(self).members()
            },
    {
        if self.contains(&id) {
            return false;
        }
        proof {
            assert forall|i: int, j: int| 0 <= i < j < self.items@.push(id).len() implies (
            #[trigger] self.items@.push(id)[i]).number() != (#[trigger] self.items@.push(
                id,
            )[j]).number() by {
                if j == self.items@.len() {
                    if self.items@[i].number() == id.number() {
                        T::lemma_same_number(self.items@[i], id);
                    }
                }
            }
        }
        self.items.push(id);
        true
    }

    /// Reads a set from a list whose items are read as `E` says. An
    /// identifier that the list holds more than once is a member once.
    pub fn gather<E: Element<T>>(v: &Value) -> (r: Result<Self, DecodeError>)
        ensures
            match r {
                Ok(x) => x.distinct() && gather_rejection::<T, E>(v@) is None && gathered::<T, E>(
                    v@,
                    x.members(),
                ),
                Err(e) => gather_rejection::<T, E>(v@) == Some(e) && forall|members: Seq<T>|
                    !gathered::<T, E>(v@, members),
            },
    {
        match list_of(v) {
            Some(list) => {
                let ghost items = items_view(list@);
                let mut out: IdSet<T> = IdSet::new();
                let mut i: usize = 0;
                while i < list.len()
                    invariant
                        i <= list.len(),
                        items == items_view(list@),
                        v@ == Json::List(items),
                        out.distinct(),
                        gathers::<T, E>(items, i as int, out.members()),
                        forall|k: int| 0 <= k < i ==> E::refusal(#[trigger] items[k]) is None,
                    decreases list.len() - i,
                {
                    let ghost before = out.members();
                    match E::read(&list[i]) {
                        Ok(id) => {
                            let fresh = out.insert(id);
                            proof {
                                lemma_gather_step::<T, E>(
                                    items,
                                    i as int,
                                    before,
                                    id,
                                    out.members(),
                                );
                            }
                        },
                        Err(e) => {
                            proof {
                                lemma_refusal_skip::<T, E>(items, i as int);
                                assert forall|members: Seq<T>| !gathered::<T, E>(v@, members) by {
                                    lemma_not_gathered::<T, E>(items, i as int, members);
                                }
                            }
                            return Err(e);
                        },
                    }
                    i = i + 1;
                }
                proof {
                    lemma_refusal_skip::<T, E>(items, items.len() as int);
                }
                Ok(out)
            },
            None => Err(DecodeError::InvalidValue),
        }
    }
}

impl<T: Identifier> Decode for IdSet<T> {
    open spec fn decodes(j: Json, x: Self) -> bool {
        &&& x.distinct()
        &&& gathered::<T, Plain>(j, x.members())
    }

    open spec fn rejection(j: Json) -> Option<DecodeError> {
        gather_rejection::<T, Plain>(j)
    }

    fn decode(v: &Value) -> (r: Result<Self, DecodeError>) {
        IdSet::<T>::gather::<Plain>(v)
    }
}

impl<T: Identifier> Encode for IdSet<T> {
    open spec fn wire(&self) -> Json {
        Json::List(
            Seq::new(self.members().len(), |i: int| encoded_id(self.members()[i].number())),
        )
    }

    fn encode(&self) -> (r: Value) {
        let mut out: Vec<Value> = Vec::new();
        let mut i: usize = 0;
        while i < self.items.len()
            invariant
                i <= self.items.len(),
                out@.len() == i,
                forall|k: int|
                    0 <= k < i ==> (#[trigger] out@[k])@ == encoded_id(self.items@[k].number()),
            decreases self.items.len() - i,
        {
            proof {
                self.items@[i as int].lemma_wire_form();
            }
            out.push(self.items[i].encode());
            i = i + 1;
        }
        assert(items_view(out@) =~= Seq::new(
            self.members().len(),
            |i: int| encoded_id(self.members()[i].number()),
        ));
        list(out)
    }
}

/// Reads the guilds of a session: a list of objects, each of which holds
/// the identifier of one guild under the key `id`.
pub fn guild_list(v: &Value) -> (r: Result<IdSet<GuildId>, DecodeError>)
    ensures
        match r {
            Ok(x) => x.distinct() && gather_rejection::<GuildId, Keyed>(v@) is None && gathered::<
                GuildId,
                Keyed,
            >(v@, x.members()),
            Err(e) => gather_rejection::<GuildId, Keyed>(v@) == Some(e) && forall|
                members: Seq<GuildId>,
            | !gathered::<GuildId, Keyed>(v@, members),
        },
{
    IdSet::<GuildId>::gather::<Keyed>(v)
}

} // verus!
