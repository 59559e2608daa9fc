//! Code generation for two derive contracts: a byte-order transform on
//! records and a checked conversion from a raw tag to an enumeration variant.
//!
//! A declaration comes in as a [`TypeDeclaration`] of plain values; the
//! generators hand back the source text of the implementation block.

mod text;
pub mod descriptor;
pub mod swap;
pub mod tag;

pub use swap::{generate_swap, swap_endian};
pub use tag::{enum_try_into, generate_try_from, variant_for_tag};
pub use descriptor::{
    extract, Descriptor, EnumDescriptor, Fields, GenError, RecordDescriptor, Shape,
    TaggedVariant, TypeDeclaration, Variant,
};


