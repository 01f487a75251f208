//! Identifiers for content-addressed resources.
//!
//! Every resource (geometry, material, texture, scene node) carries a random
//! 128-bit id generated at construction time.  Objects reference each other
//! by id, never by owning pointer: the loaders and the scene resolve ids on
//! demand and degrade gracefully when a lookup misses.

use vstd::prelude::*;

verus! {

/// A 128-bit identifier used as the key of every content-addressed store.
/// Equality is bitwise; a freshly generated id is never zero and never
/// reused.
#[derive(Debug, PartialEq, Eq, Structural, Clone, Copy, Hash)]
pub struct Id(pub u128);

/// An identifier of a texture resource, kept distinct from [`Id`] so that a
/// texture id cannot be confused with a geometry or material id.
#[derive(Debug, PartialEq, Eq, Structural, Clone, Copy, Hash)]
pub struct TextureId(pub u128);

/// Relies on `uuid::Uuid::new_v4` and `Uuid::as_u128`: a random version-4
/// identifier.  Its version field is always set to 4, so the 128-bit value
/// is never zero.
#[verifier::external_body]
pub(crate) fn fresh_u128() -> (r: u128)
    ensures
        r != 0,
{
    uuid::Uuid::new_v4().as_u128()
}

impl Id {
    /// Generate a fresh random id.
    pub fn new() -> (r: Id)
        ensures
            r.0 != 0,
    {
        Id(fresh_u128())
    }
}

impl Default for Id {
    /// Default construction generates a fresh id; it is not zero-valued.
    fn default() -> (r: Id)
        ensures
            r.0 != 0,
    {
        Id::new()
    }
}

impl TextureId {
    /// Generate a fresh random texture id.
    pub fn new() -> (r: TextureId)
        ensures
            r.0 != 0,
    {
        TextureId(fresh_u128())
    }
}

impl Default for TextureId {
    /// Default construction generates a fresh id; it is not zero-valued.
    fn default() -> (r: TextureId)
        ensures
            r.0 != 0,
    {
        TextureId::new()
    }
}

/// Anything that carries a resource id.
pub trait Resource {
    spec fn spec_id(&self) -> Id;

    fn id(&self) -> (r: Id)
        ensures
            r == self.spec_id(),
    ;
}

} // verus!
