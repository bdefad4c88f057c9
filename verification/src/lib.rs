//! Classification of record fields and emission of builder source text.
//!
//! A record declaration is described by the plain types of [`decl`]. Each
//! field is classified as repeatable, optional or required ([`field`]), by the
//! shape of its type ([`shape`]) and by its first annotation
//! ([`annotation`]). The faults of all fields ([`diag`]) are gathered into one
//! list ([`collect`]), and for a faultless declaration the text of a builder
//! type is produced ([`emit`]). What the emitted builder does when it runs is
//! modelled by [`builder`]; [`player`] holds a sample record.

pub mod decl;
pub mod shape;
pub mod diag;
pub mod annotation;
pub mod field;
pub mod collect;
pub mod emit;
pub mod builder;
pub mod player;
