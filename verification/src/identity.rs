//! The identity of a shape family.

use crate::shape::Family;
use crate::shape::Zonbi;
use std::any::TypeId;
use std::cmp::Ordering;
use vstd::prelude::*;

verus! {

/// `std::any::TypeId`, which Verus carries through as an opaque value.
#[verifier::external_type_specification]
#[verifier::external_body]
pub struct ExTypeId(TypeId);

/// Calls `==` of `std::any::TypeId`. Two `TypeId`s compare equal exactly when
/// they are the same identifier.
#[verifier::external_body]
fn same_type_id(a: &TypeId, b: &TypeId) -> (same: bool)
    ensures
        same == (*a == *b),
{
    a == b
}

/// What `<` of `std::any::TypeId` answers for the two identifiers.
pub uninterp spec fn type_id_precedes(a: TypeId, b: TypeId) -> bool;

/// Calls `<` of `std::any::TypeId`. The answer depends on the two identifiers
/// and on nothing else. Nothing more is claimed of the order.
#[verifier::external_body]
fn type_id_lt(a: &TypeId, b: &TypeId) -> (less: bool)
    ensures
        less == type_id_precedes(*a, *b),
{
    a < b
}

/// The identity of a shape family: unique for every type, its lifetimes left
/// aside.
///
/// It wraps a `TypeId`, by convention that of the `'static` instantiation of
/// the family. As with `TypeId`, the order and the hash of identities may
/// differ from one compiler release to the next, so nothing should depend on
/// their values. Within one program two identities are equal or one precedes
/// the other, and the answer is the same whenever it is asked.
#[derive(Clone, Copy, Debug, Eq, Ord, Hash)]
pub struct ZonbiId(TypeId);

impl View for ZonbiId {
    type V = TypeId;

    closed spec fn view(&self) -> TypeId {
        self.0
    }
}

impl PartialEq for ZonbiId {
    fn eq(&self, other: &Self) -> (same: bool) {
        self.same_as(other)
    }
}

impl vstd::std_specs::cmp::PartialEqSpecImpl for ZonbiId {
    open spec fn obeys_eq_spec() -> bool {
        true
    }

    open spec fn eq_spec(&self, other: &Self) -> bool {
        *self == *other
    }
}

impl PartialOrd for ZonbiId {
    fn partial_cmp(&self, other: &Self) -> (order: Option<Ordering>) {
        if self.same_as(other) {
            Some(Ordering::Equal)
        } else if type_id_lt(&self.0, &other.0) {
            Some(Ordering::Less)
        } else {
            Some(Ordering::Greater)
        }
    }
}

impl vstd::std_specs::cmp::PartialOrdSpecImpl for ZonbiId {
    open spec fn obeys_partial_cmp_spec() -> bool {
        true
    }

    open spec fn partial_cmp_spec(&self, other: &Self) -> Option<Ordering> {
        if *self == *other {
            Some(Ordering::Equal)
        } else if type_id_precedes(self@, other@) {
            Some(Ordering::Less)
        } else {
            Some(Ordering::Greater)
        }
    }
}

impl From<TypeId> for ZonbiId {
    /// Any `TypeId` is an identity. There is no way back.
    fn from(value: TypeId) -> (id: Self)
        ensures
            id@ == value,
    {
        ZonbiId(value)
    }
}

impl vstd::std_specs::convert::FromSpecImpl<TypeId> for ZonbiId {
    open spec fn obeys_from_spec() -> bool {
        true
    }

    closed spec fn from_spec(value: TypeId) -> Self {
        ZonbiId(value)
    }
}

impl ZonbiId {
    /// The identity of the family of `Z`.
    pub open spec fn spec_of<'life, Z: Zonbi<'life>>() -> ZonbiId {
        <Z as Family>::family()
    }

    /// Returns the identity of the family of `Z`. It is also the identity of
    /// `Z::Casted`, the same family at scope `'life`: the scope of an
    /// instantiation plays no part in it.
    pub fn of<'life, Z: Zonbi<'life>>() -> (id: ZonbiId)
        ensures
            id == Self::spec_of::<Z>(),
            id == <Z::Casted as Family>::family(),
    {
        Z::zonbi_id()
    }

    /// Whether the two identities are one.
    pub(crate) fn same_as(&self, other: &ZonbiId) -> (same: bool)
        ensures
            same == (*self == *other),
    {
        same_type_id(&self.0, &other.0)
    }

    /// Two shapes of distinct families have distinct identities, and two shapes
    /// of one family have one identity.
    pub proof fn lemma_of_tells_families_apart<'life, S: Zonbi<'life>, T: Zonbi<'life>>()
        ensures
            (<S as Family>::family() != <T as Family>::family()) <==> (Self::spec_of::<S>()
                != Self::spec_of::<T>()),
    {
    }

    /// An identity is its `TypeId` and nothing else.
    pub proof fn lemma_view_decides_equality(a: ZonbiId, b: ZonbiId)
        ensures
            (a@ == b@) <==> (a == b),
    {
    }
}

} // verus!
