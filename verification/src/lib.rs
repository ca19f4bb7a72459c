//! Type erasure for values that borrow.
//!
//! `std::any::Any` erases `'static` types only. This crate holds values whose
//! types have lifetimes in one kind of container, tells them apart at run time
//! by the identity of their *shape family* (the type, its lifetimes left
//! aside), and gives a value back to whoever names its family.
//!
//! - [`ZonbiId`] is the identity of a family. It is the same for every
//!   instantiation of the family, whatever its lifetimes.
//! - [`Zonbi`] is the contract of a shape: its identity, and the way of its
//!   values into and out of the storage of a container. [`Family`] and
//!   [`Storage`] carry the specification that the contract is stated in.
//! - [`Cage`] is the container. It holds one value, erased, and advertises the
//!   identity of the family and nothing else. Its scope `'life` bounds every
//!   reference that it hands out.
//! - [`AnyZonbi`] is the interface of the container: the question whether it
//!   holds a given family, and the downcasts.
//! - [`generics`] holds the rules by which a derive macro writes an impl of
//!   [`Zonbi`] for a structure.
//!
//! A downcast compares identities and reads the storage as the family that was
//! asked only if they are equal. Verus proves that this is enough: a projection
//! of [`Zonbi`] is never called on storage that holds another family. The
//! unchecked downcasts leave the comparison out, and the proof obligation moves
//! to their caller as a `requires`.
//!
//! With `Counter<'a>` a structure that borrows for `'a`, and `Slot<'a>` an enum
//! that has a variant for it:
//!
//! ```ignore
//! let mut cages: HashMap<ZonbiId, Cage<'a, Slot<'a>>> = HashMap::new();
//! cages.insert(ZonbiId::of::<Counter>(), Cage::new(Counter { val: &number }));
//!
//! let cage = &cages[&ZonbiId::of::<Counter>()];
//! let counter: &Counter<'a> = cage.downcast_ref::<Counter>().unwrap();
//! assert!(cage.downcast_ref::<Pair>().is_none());
//! ```

pub mod cage;
pub mod generics;
pub mod identity;
mod private;
pub mod shape;

pub use cage::AnyZonbi;
pub use cage::Cage;
pub use identity::ZonbiId;
pub use shape::Family;
pub use shape::Storage;
pub use shape::Zonbi;
