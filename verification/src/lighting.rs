//! Light descriptions held by the host application.
//!
//! The scene never stores these records themselves: it stores only their
//! packed GPU representation in fixed-capacity uniform buffers (see the
//! scene module for the packing).

use vstd::prelude::*;

use crate::resource::{Id, Resource};
use crate::units::Vec3;

verus! {

/// Uniform background illumination.
#[derive(Debug, Clone, Copy)]
pub struct AmbientLight {
    pub color: Vec3,
}

/// Builder for [`AmbientLight`]; the color defaults to black.
#[derive(Debug, Clone, Copy, Default)]
pub struct AmbientLightBuilder {
    pub color: Option<Vec3>,
}

impl AmbientLightBuilder {
    pub fn color(self, color: Vec3) -> (r: Self)
        ensures
            r == (AmbientLightBuilder { color: Some(color) }),
    {
        AmbientLightBuilder { color: Some(color) }
    }

    pub fn build(self) -> (r: AmbientLight)
        ensures
            r.color == (match self.color {
                Some(c) => c,
                None => Vec3::zero_spec(),
            }),
    {
        AmbientLight {
            color: match self.color {
                Some(c) => c,
                None => Vec3::zero(),
            },
        }
    }
}

impl AmbientLight {
    pub fn builder() -> (r: AmbientLightBuilder)
        ensures
            r == (AmbientLightBuilder { color: None::<Vec3> }),
    {
        AmbientLightBuilder { color: None }
    }

    pub fn color(&self) -> (r: &Vec3)
        ensures
            *r == self.color,
    {
        &self.color
    }

    pub fn set_color(&mut self, color: Vec3)
        ensures
            final(self).color == color,
    {
        self.color = color;
    }
}

/// A light that shines in one direction from infinitely far away.
#[derive(Debug, Clone, Copy)]
pub struct DirectionalLight {
    pub id: Id,
    pub color: Vec3,
    pub direction: Vec3,
}

/// Builder for [`DirectionalLight`]; color and direction default to zero.
#[derive(Debug, Clone, Copy, Default)]
pub struct DirectionalLightBuilder {
    pub color: Option<Vec3>,
    pub direction: Option<Vec3>,
}

impl DirectionalLightBuilder {
    pub fn color(self, color: Vec3) -> (r: Self)
        ensures
            r == (DirectionalLightBuilder { color: Some(color), ..self }),
    {
        DirectionalLightBuilder { color: Some(color), ..self }
    }

    pub fn direction(self, direction: Vec3) -> (r: Self)
        ensures
            r == (DirectionalLightBuilder { direction: Some(direction), ..self }),
    {
        DirectionalLightBuilder { direction: Some(direction), ..self }
    }

    pub fn build(self) -> (r: DirectionalLight)
        ensures
            r.id.0 != 0,
            r.color == (match self.color {
                Some(c) => c,
                None => Vec3::zero_spec(),
            }),
            r.direction == (match self.direction {
                Some(d) => d,
                None => Vec3::zero_spec(),
            }),
    {
        DirectionalLight {
            id: Id::new(),
            color: match self.color {
                Some(c) => c,
                None => Vec3::zero(),
            },
            direction: match self.direction {
                Some(d) => d,
                None => Vec3::zero(),
            },
        }
    }
}

impl DirectionalLight {
    pub fn builder() -> (r: DirectionalLightBuilder)
        ensures
            r == (DirectionalLightBuilder { color: None::<Vec3>, direction: None::<Vec3> }),
    {
        DirectionalLightBuilder { color: None, direction: None }
    }

    pub fn color(&self) -> (r: &Vec3)
        ensures
            *r == self.color,
    {
        &self.color
    }

    pub fn direction(&self) -> (r: &Vec3)
        ensures
            *r == self.direction,
    {
        &self.direction
    }

    pub fn set_color(&mut self, color: Vec3)
        ensures
            *final(self) == (DirectionalLight { color, ..*old(self) }),
    {
        self.color = color;
    }

    pub fn set_direction(&mut self, direction: Vec3)
        ensures
            *final(self) == (DirectionalLight { direction, ..*old(self) }),
    {
        self.direction = direction;
    }
}

impl Resource for DirectionalLight {
    open spec fn spec_id(&self) -> Id {
        self.id
    }

    fn id(&self) -> (r: Id) {
        self.id
    }
}

/// A light that radiates in every direction from a point.
#[derive(Debug, Clone, Copy)]
pub struct PointLight {
    pub id: Id,
    pub color: Vec3,
    pub position: Vec3,
}

/// Builder for [`PointLight`]; the color defaults to white, the position to
/// the origin.
#[derive(Debug, Clone, Copy, Default)]
pub struct PointLightBuilder {
    pub color: Option<Vec3>,
    pub position: Option<Vec3>,
}

impl PointLightBuilder {
    pub fn color(self, color: Vec3) -> (r: Self)
        ensures
            r == (PointLightBuilder { color: Some(color), ..self }),
    {
        PointLightBuilder { color: Some(color), ..self }
    }

    pub fn position(self, position: Vec3) -> (r: Self)
        ensures
            r == (PointLightBuilder { position: Some(position), ..self }),
    {
        PointLightBuilder { position: Some(position), ..self }
    }

    pub fn build(self) -> (r: PointLight)
        ensures
            r.id.0 != 0,
            r.color == (match self.color {
                Some(c) => c,
                None => Vec3::one_spec(),
            }),
            r.position == (match self.position {
                Some(p) => p,
                None => Vec3::zero_spec(),
            }),
    {
        PointLight {
            id: Id::new(),
            color: match self.color {
                Some(c) => c,
                None => Vec3::one(),
            },
            position: match self.position {
                Some(p) => p,
                None => Vec3::zero(),
            },
        }
    }
}

impl PointLight {
    pub fn builder() -> (r: PointLightBuilder)
        ensures
            r == (PointLightBuilder { color: None::<Vec3>, position: None::<Vec3> }),
    {
        PointLightBuilder { color: None, position: None }
    }

    pub fn color(&self) -> (r: &Vec3)
        ensures
            *r == self.color,
    {
        &self.color
    }

    pub fn position(&self) -> (r: &Vec3)
        ensures
            *r == self.position,
    {
        &self.position
    }

    pub fn set_color(&mut self, color: Vec3)
        ensures
            *final(self) == (PointLight { color, ..*old(self) }),
    {
        self.color = color;
    }

    pub fn set_position(&mut self, position: Vec3)
        ensures
            *final(self) == (PointLight { position, ..*old(self) }),
    {
        self.position = position;
    }
}

impl Resource for PointLight {
    open spec fn spec_id(&self) -> Id {
        self.id
    }

    fn id(&self) -> (r: Id) {
        self.id
    }
}

/// A cone of light from a point in a direction, bounded by a cutoff angle.
#[derive(Debug, Clone, Copy)]
pub struct SpotLight {
    pub id: Id,
    pub color: Vec3,
    pub position: Vec3,
    pub direction: Vec3,
    /// Half-angle of the cone, in radians, as a single-precision bit
    /// pattern.
    pub cutoff_angle: u32,
}

/// Builder for [`SpotLight`]; the color defaults to white, everything else
/// to zero.
#[derive(Debug, Clone, Copy, Default)]
pub struct SpotLightBuilder {
    pub color: Option<Vec3>,
    pub position: Option<Vec3>,
    pub direction: Option<Vec3>,
    pub cutoff_angle: Option<u32>,
}

impl SpotLightBuilder {
    pub fn color(self, color: Vec3) -> (r: Self)
        ensures
            r == (SpotLightBuilder { color: Some(color), ..self }),
    {
        SpotLightBuilder { color: Some(color), ..self }
    }

    pub fn position(self, position: Vec3) -> (r: Self)
        ensures
            r == (SpotLightBuilder { position: Some(position), ..self }),
    {
        SpotLightBuilder { position: Some(position), ..self }
    }

    pub fn direction(self, direction: Vec3) -> (r: Self)
        ensures
            r == (SpotLightBuilder { direction: Some(direction), ..self }),
    {
        SpotLightBuilder { direction: Some(direction), ..self }
    }

    pub fn cutoff_angle(self, cutoff_angle: u32) -> (r: Self)
        ensures
            r == (SpotLightBuilder { cutoff_angle: Some(cutoff_angle), ..self }),
    {
        SpotLightBuilder { cutoff_angle: Some(cutoff_angle), ..self }
    }

    pub fn build(self) -> (r: SpotLight)
        ensures
            r.id.0 != 0,
            r.color == (match self.color {
                Some(c) => c,
                None => Vec3::one_spec(),
            }),
            r.position == (match self.position {
                Some(p) => p,
                None => Vec3::zero_spec(),
            }),
            r.direction == (match self.direction {
                Some(d) => d,
                None => Vec3::zero_spec(),
            }),
            r.cutoff_angle == (match self.cutoff_angle {
                Some(a) => a,
                None => crate::units::F32_ZERO_BITS,
            }),
    {
        SpotLight {
            id: Id::new(),
            color: match self.color {
                Some(c) => c,
                None => Vec3::one(),
            },
            position: match self.position {
                Some(p) => p,
                None => Vec3::zero(),
            },
            direction: match self.direction {
                Some(d) => d,
                None => Vec3::zero(),
            },
            cutoff_angle: match self.cutoff_angle {
                Some(a) => a,
                None => crate::units::F32_ZERO_BITS,
            },
        }
    }
}

impl SpotLight {
    pub fn builder() -> (r: SpotLightBuilder)
        ensures
            r == (SpotLightBuilder {
                color: None::<Vec3>,
                position: None::<Vec3>,
                direction: None::<Vec3>,
                cutoff_angle: None::<u32>,
            }),
    {
        SpotLightBuilder { color: None, position: None, direction: None, cutoff_angle: None }
    }

    pub fn color(&self) -> (r: &Vec3)
        ensures
            *r == self.color,
    {
        &self.color
    }

    pub fn position(&self) -> (r: &Vec3)
        ensures
            *r == self.position,
    {
        &self.position
    }

    pub fn direction(&self) -> (r: &Vec3)
        ensures
            *r == self.direction,
    {
        &self.direction
    }

    pub fn cutoff_angle(&self) -> (r: u32)
        ensures
            r == self.cutoff_angle,
    {
        self.cutoff_angle
    }

    pub fn set_color(&mut self, color: Vec3)
        ensures
            *final(self) == (SpotLight { color, ..*old(self) }),
    {
        self.color = color;
    }

    pub fn set_position(&mut self, position: Vec3)
        ensures
            *final(self) == (SpotLight { position, ..*old(self) }),
    {
        self.position = position;
    }

    pub fn set_direction(&mut self, direction: Vec3)
        ensures
            *final(self) == (SpotLight { direction, ..*old(self) }),
    {
        self.direction = direction;
    }

    pub fn set_cutoff_angle(&mut self, cutoff_angle: u32)
        ensures
            *final(self) == (SpotLight { cutoff_angle, ..*old(self) }),
    {
        self.cutoff_angle = cutoff_angle;
    }
}

impl Resource for SpotLight {
    open spec fn spec_id(&self) -> Id {
        self.id
    }

    fn id(&self) -> (r: Id) {
        self.id
    }
}

} // verus!
