//! Generic and convenient `std` atomics.
//!
//! This crate offers the generic [`Atomic<T>`][Atomic] type which can perform
//! atomic operations on `T`. The `Atomic<T>` in this crate only works with
//! types that actually support atomic operations on the target platform: a
//! lock-based fallback for other types is not used.
//!
//! What another thread or a logical or integer operation has left in an
//! atomic need not represent a `T`. No method panics then: each that reads
//! returns the value or the [`Fault`].
//!
//! To use a type `T` in `Atomic<T>`, it has to implement [`Atom`]. You can
//! implement that trait for your own types as long as they can be represented
//! by a type that implements [`impls::PrimitiveAtom`]. The module [`derive`]
//! writes such an impl for a struct of one field or an enum without fields.

pub use crate::atom::{decode, Atom, AtomInteger, AtomLogic, Fault};
pub use crate::atomic::Atomic;
pub use core::sync::atomic::Ordering;

mod atom;
mod atomic;
pub mod derive;
pub mod impls;
pub mod order;
