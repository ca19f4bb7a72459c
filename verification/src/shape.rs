//! The contract between a shape and the containers that hold it erased.
//!
//! A *shape family* is one logical type together with all its instantiations
//! over scopes (lifetimes): `Counter<'a>` and `Counter<'b>` are two
//! instantiations of one family. A family has one [`ZonbiId`], whatever the
//! scope of the instantiation that is asked.
//!
//! A container does not reinterpret untyped memory. The storage behind it is
//! typed: one type, chosen by the client, that can hold a value of every family
//! that is to share a container. In practice it is an enum with one variant for
//! each family. [`Storage::holds`] says which family a stored value belongs to,
//! and the projections of [`Zonbi`] may be called only on storage that holds
//! their own family. For a verified impl this is what lets Verus prove that the
//! other variants are never met. It also forces two families of one storage to
//! have distinct identities, for else that proof could not be had.
//!
//! The specification functions of the three traits have defaults, so that an
//! impl in unverified code needs none of them. An impl in verified code defines
//! them.

use crate::identity::ZonbiId;
use vstd::prelude::*;

verus! {

/// What all instantiations of one shape family have in common.
pub trait Family {
    /// The identity of the family. It does not depend on any scope.
    open spec fn family() -> ZonbiId {
        arbitrary()
    }
}

/// Storage for erased values: the stand-in for untyped memory.
pub trait Storage {
    /// The identity of the family whose value is stored.
    open spec fn holds(&self) -> ZonbiId {
        arbitrary()
    }
}

/// A shape that can be held erased in a container of scope `'life`.
///
/// The contracts are the obligations of an implementer. Verus checks them for
/// an impl in verified code. For an impl in unverified code they are a promise,
/// and everything that is proved of containers rests on it.
pub trait Zonbi<'life>: Family + Sized + 'life {
    /// The same family with every lifetime replaced by `'life`.
    type Casted: Family + Sized;

    /// The storage of the containers that can hold this shape.
    type Raw: Storage;

    /// This value re-expressed at scope `'life`: the same fields, borrowed for
    /// `'life`.
    open spec fn casted(self) -> Self::Casted {
        arbitrary()
    }

    /// What storage that holds this family contains, at scope `'life`.
    open spec fn revealed(raw: Self::Raw) -> Self::Casted {
        arbitrary()
    }

    /// Returns the identity of the family. Re-expressing the shape at scope
    /// `'life` does not change it.
    fn zonbi_id() -> (id: ZonbiId)
        ensures
            id == <Self as Family>::family(),
            id == <Self::Casted as Family>::family(),
    ;

    /// Moves the value into storage, at scope `'life`. The storage then holds
    /// this family, and contains this value.
    fn into_raw(self) -> (raw: Self::Raw)
        ensures
            raw.holds() == <Self as Family>::family(),
            Self::revealed(raw) == self.casted(),
    ;

    /// Takes the value out of storage that holds this family.
    fn zonbify(raw: Self::Raw) -> (val: Self::Casted)
        requires
            raw.holds() == <Self as Family>::family(),
        ensures
            val == Self::revealed(raw),
    ;

    /// Borrows the value in storage that holds this family.
    fn zonbify_ref(raw: &Self::Raw) -> (val: &Self::Casted)
        requires
            raw.holds() == <Self as Family>::family(),
        ensures
            *val == Self::revealed(*raw),
    ;

    /// Borrows the value in storage that holds this family, for writing. What
    /// is written through the reference is what the storage then contains, and
    /// the storage still holds the same family.
    fn zonbify_mut(raw: &mut Self::Raw) -> (val: &mut Self::Casted)
        requires
            old(raw).holds() == <Self as Family>::family(),
        ensures
            *val == Self::revealed(*old(raw)),
            *final(val) == Self::revealed(*final(raw)),
            final(raw).holds() == old(raw).holds(),
    ;
}

} // verus!
