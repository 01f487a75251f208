//! A minimal single-color mesh material description, configured with a
//! packed RGBA color and a wireframe flag.

use vstd::prelude::*;

verus! {

/// A single-color mesh material: a packed 32-bit RGBA color and whether
/// to draw as wireframe.
#[derive(Debug, PartialEq, Eq, Structural, Clone, Copy)]
pub struct MeshBasic {
    pub color: u32,
    pub wireframe: bool,
}

/// Why building a [`MeshBasic`] failed: a required field was never set.
#[derive(Debug, PartialEq, Eq, Structural, Clone, Copy)]
pub enum MeshBasicBuilderError {
    MissingColor,
    MissingWireframe,
}

/// Builder for [`MeshBasic`]; both fields are required.
#[derive(Debug, Clone, Copy, Default)]
pub struct MeshBasicBuilder {
    pub color: Option<u32>,
    pub wireframe: Option<bool>,
}

impl MeshBasicBuilder {
    pub fn color(self, color: u32) -> (r: Self)
        ensures
            r == (MeshBasicBuilder { color: Some(color), ..self }),
    {
        MeshBasicBuilder { color: Some(color), ..self }
    }

    pub fn wireframe(self, wireframe: bool) -> (r: Self)
        ensures
            r == (MeshBasicBuilder { wireframe: Some(wireframe), ..self }),
    {
        MeshBasicBuilder { wireframe: Some(wireframe), ..self }
    }

    /// Succeeds exactly when both fields were set; a missing color is
    /// reported first.
    pub fn build(self) -> (r: Result<MeshBasic, MeshBasicBuilderError>)
        ensures
            match r {
                Ok(m) => self.color == Some(m.color) && self.wireframe == Some(m.wireframe),
                Err(MeshBasicBuilderError::MissingColor) => self.color is None,
                Err(MeshBasicBuilderError::MissingWireframe) => self.color is Some
                    && self.wireframe is None,
            },
    {
        let color = match self.color {
            Some(c) => c,
            None => {
                return Err(MeshBasicBuilderError::MissingColor);
            },
        };
        let wireframe = match self.wireframe {
            Some(w) => w,
            None => {
                return Err(MeshBasicBuilderError::MissingWireframe);
            },
        };
        Ok(MeshBasic { color, wireframe })
    }
}

impl MeshBasic {
    pub fn builder() -> (r: MeshBasicBuilder)
        ensures
            r == (MeshBasicBuilder { color: None::<u32>, wireframe: None::<bool> }),
    {
        MeshBasicBuilder { color: None, wireframe: None }
    }
}

} // verus!
