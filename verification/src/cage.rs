//! The erased container and the downcasts out of it.

use crate::identity::ZonbiId;
use crate::private::Sealed;
use crate::shape::Storage;
use crate::shape::Zonbi;
use std::marker::PhantomData;
use vstd::prelude::*;

verus! {

/// The interface of an erased container of scope `'life`: it tells the identity
/// of the family that it holds, and gives the value back to whoever names that
/// family.
///
/// [`Cage`] is the one type that has it.
pub trait AnyZonbi<'life>: Sealed + Sized + 'life {
    /// The storage behind the container.
    type Raw: Storage;

    /// The identity that the container advertises.
    spec fn advertised(&self) -> ZonbiId;

    /// What the container stores.
    spec fn storage(&self) -> Self::Raw;

    /// The advertised identity is that of the family that is stored. It holds
    /// of every container that was made by [`Cage::new`], and every operation
    /// keeps it.
    spec fn wf(&self) -> bool;

    /// Returns the identity of the family that the container holds.
    fn zonbi_id(&self) -> (id: ZonbiId)
        ensures
            id == self.advertised(),
    ;

    /// Returns `true` if the container holds the family of `Z`, whatever the
    /// lifetimes of `Z`.
    fn represents<Z: Zonbi<'life>>(&self) -> (yes: bool)
        ensures
            yes == (self.advertised() == ZonbiId::spec_of::<Z>()),
    ;

    /// Returns a shared reference to the held value at scope `'life` if the
    /// container holds the family of `Z`, and `None` if it does not.
    fn downcast_ref<'r, Z: Zonbi<'life, Raw = Self::Raw>>(&'r self) -> (val: Option<&'r Z::Casted>)
        where 'life: 'r
        requires
            self.wf(),
        ensures
            match val {
                Some(held) => self.advertised() == ZonbiId::spec_of::<Z>() && *held == Z::revealed(
                    self.storage(),
                ),
                None => self.advertised() != ZonbiId::spec_of::<Z>(),
            },
    ;

    /// Like [`downcast_ref`](Self::downcast_ref), without the comparison of
    /// identities. The caller has established that the container holds the
    /// family of `Z`.
    fn downcast_ref_unchecked<'r, Z: Zonbi<'life, Raw = Self::Raw>>(&'r self) -> (val: &'r Z::Casted)
        where 'life: 'r
        requires
            self.wf(),
            self.advertised() == ZonbiId::spec_of::<Z>(),
        ensures
            *val == Z::revealed(self.storage()),
    ;

    /// Returns an exclusive reference to the held value at scope `'life` if the
    /// container holds the family of `Z`. If it does not, returns `None` and
    /// leaves the container as it was.
    ///
    /// What is written through the reference is what the container then holds.
    /// The family that it holds does not change.
    fn downcast_mut<'r, Z: Zonbi<'life, Raw = Self::Raw>>(&'r mut self) -> (val: Option<&'r mut Z::Casted>)
        where 'life: 'r
        requires
            old(self).wf(),
        ensures
            final(self).wf(),
            final(self).advertised() == old(self).advertised(),
            match val {
                Some(held) => {
                    &&& old(self).advertised() == ZonbiId::spec_of::<Z>()
                    &&& *held == Z::revealed(old(self).storage())
                    &&& *final(held) == Z::revealed(final(self).storage())
                },
                None => {
                    &&& old(self).advertised() != ZonbiId::spec_of::<Z>()
                    &&& *final(self) == *old(self)
                },
            },
    ;

    /// Like [`downcast_mut`](Self::downcast_mut), without the comparison of
    /// identities. The caller has established that the container holds the
    /// family of `Z`.
    fn downcast_mut_unchecked<'r, Z: Zonbi<'life, Raw = Self::Raw>>(&'r mut self) -> (val: &'r mut Z::Casted)
        where 'life: 'r
        requires
            old(self).wf(),
            old(self).advertised() == ZonbiId::spec_of::<Z>(),
        ensures
            final(self).wf(),
            final(self).advertised() == old(self).advertised(),
            *val == Z::revealed(old(self).storage()),
            *final(val) == Z::revealed(final(self).storage()),
    ;
}

/// Holds one value of some shape family, erased, and remembers only the
/// identity of the family. The value lives at least as long as `'life`, and
/// no reference that the cage hands out lives longer.
///
/// `R` is the storage. The cage takes any shape whose storage it is, so cages
/// of different families have one type and can share a collection.
pub struct Cage<'life, R: Storage> {
    id: ZonbiId,
    raw: R,
    phantom: PhantomData<&'life ()>,
}

impl<'life, R: Storage> Sealed for Cage<'life, R> {
}

impl<'life, R: Storage + 'life> Cage<'life, R> {
    /// Creates a cage for `val`. The value moves in at scope `'life`, and the
    /// cage advertises the identity of its family.
    pub fn new<Z: Zonbi<'life, Raw = R>>(val: Z) -> (cage: Self)
        ensures
            cage.cages(val),
    {
        let id = Z::zonbi_id();
        let raw = val.into_raw();
        Self { id, raw, phantom: PhantomData }
    }

    /// Returns the held value at scope `'life` and ends the cage. The caller
    /// names the family that the cage holds, having established it, for
    /// instance by [`represents`](AnyZonbi::represents).
    pub fn into_inner<Z: Zonbi<'life, Raw = R>>(self) -> (inner: Z::Casted)
        requires
            self.wf(),
            self.represents_spec::<Z>(),
        ensures
            inner == Z::revealed(self.storage()),
    {
        Z::zonbify(self.raw)
    }

    /// The storage, for the downcasts and for nothing else.
    fn get_raw(&self) -> (raw: &R)
        ensures
            *raw == self.storage(),
    {
        &self.raw
    }

    /// The storage for writing, for the downcasts and for nothing else: who
    /// writes another family into it breaks [`wf`](AnyZonbi::wf).
    fn get_raw_mut(&mut self) -> (raw: &mut R)
        ensures
            *raw == old(self).storage(),
            *final(raw) == final(self).storage(),
            final(self).advertised() == old(self).advertised(),
    {
        &mut self.raw
    }
}

impl<'life, R: Storage + 'life> Cage<'life, R> {
    /// Whether the cage holds the family of `Z`.
    pub open spec fn represents_spec<Z: Zonbi<'life>>(self) -> bool {
        self.advertised() == ZonbiId::spec_of::<Z>()
    }

    /// What a downcast to `Z` gives: the held value at scope `'life` where the
    /// cage holds the family of `Z`, and nothing where it does not.
    pub open spec fn downcast_spec<Z: Zonbi<'life, Raw = R>>(self) -> Option<Z::Casted> {
        if self.represents_spec::<Z>() {
            Some(Z::revealed(self.storage()))
        } else {
            None
        }
    }

    /// Whether this is what [`new`](Self::new) makes of `val`.
    pub open spec fn cages<Z: Zonbi<'life, Raw = R>>(self, val: Z) -> bool {
        &&& self.wf()
        &&& self.represents_spec::<Z>()
        &&& Z::revealed(self.storage()) == val.casted()
    }
}

impl<'life, R: Storage + 'life> AnyZonbi<'life> for Cage<'life, R> {
    type Raw = R;

    closed spec fn advertised(&self) -> ZonbiId {
        self.id
    }

    closed spec fn storage(&self) -> R {
        self.raw
    }

    closed spec fn wf(&self) -> bool {
        self.id == self.raw.holds()
    }

    fn zonbi_id(&self) -> (id: ZonbiId) {
        self.id
    }

    fn represents<Z: Zonbi<'life>>(&self) -> (yes: bool)
        ensures
            yes == self.represents_spec::<Z>(),
    {
        ZonbiId::of::<Z>().same_as(&self.zonbi_id())
    }

    fn downcast_ref<'r, Z: Zonbi<'life, Raw = R>>(&'r self) -> (val: Option<&'r Z::Casted>)
        where 'life: 'r
        ensures
            match val {
                Some(held) => self.downcast_spec::<Z>() == Some(*held),
                None => self.downcast_spec::<Z>().is_none(),
            },
    {
        if self.represents::<Z>() {
            Some(self.downcast_ref_unchecked::<Z>())
        } else {
            None
        }
    }

    fn downcast_ref_unchecked<'r, Z: Zonbi<'life, Raw = R>>(&'r self) -> (val: &'r Z::Casted)
        where 'life: 'r
    {
        Z::zonbify_ref(self.get_raw())
    }

    fn downcast_mut<'r, Z: Zonbi<'life, Raw = R>>(&'r mut self) -> (val: Option<&'r mut Z::Casted>)
        where 'life: 'r
        ensures
            match val {
                Some(held) => {
                    &&& old(self).downcast_spec::<Z>() == Some(*held)
                    &&& final(self).downcast_spec::<Z>() == Some(*final(held))
                },
                None => old(self).downcast_spec::<Z>().is_none(),
            },
    {
        if self.represents::<Z>() {
            Some(self.downcast_mut_unchecked::<Z>())
        } else {
            None
        }
    }

    fn downcast_mut_unchecked<'r, Z: Zonbi<'life, Raw = R>>(&'r mut self) -> (val: &'r mut Z::Casted)
        where 'life: 'r
    {
        Z::zonbify_mut(self.get_raw_mut())
    }
}

impl<'life, R: Storage + 'life> Cage<'life, R> {
    /// A downcast to the family that went in gives the value that went in, at
    /// scope `'life`.
    pub proof fn lemma_round_trip<Z: Zonbi<'life, Raw = R>>(self, val: Z)
        requires
            self.cages(val),
        ensures
            self.downcast_spec::<Z>() == Some(val.casted()),
    {
    }

    /// A downcast to any other family than the one that went in gives nothing.
    pub proof fn lemma_other_family_is_absent<S: Zonbi<'life, Raw = R>, T: Zonbi<'life, Raw = R>>(
        self,
        val: S,
    )
        requires
            self.cages(val),
            ZonbiId::spec_of::<S>() != ZonbiId::spec_of::<T>(),
        ensures
            !self.represents_spec::<T>(),
            self.downcast_spec::<T>().is_none(),
    {
    }

    /// Whether a cage represents a family depends on the identity that it
    /// advertises and on nothing else. A cage that is not replaced keeps that
    /// identity, so the answer stays the same however often it is asked, also
    /// after the held value was written through
    /// [`downcast_mut`](AnyZonbi::downcast_mut).
    pub proof fn lemma_represents_is_stable<Z: Zonbi<'life>>(self, later: Self)
        requires
            later.advertised() == self.advertised(),
        ensures
            later.represents_spec::<Z>() == self.represents_spec::<Z>(),
    {
    }

    /// A cage represents exactly one family: two families that it represents
    /// have one identity.
    pub proof fn lemma_represents_one_family<S: Zonbi<'life>, T: Zonbi<'life>>(self)
        requires
            self.represents_spec::<S>(),
            self.represents_spec::<T>(),
        ensures
            ZonbiId::spec_of::<S>() == ZonbiId::spec_of::<T>(),
    {
    }
}

} // verus!
