//! The light sources of a scene, as their owners describe them.

use crate::binary32::{MINUS_ONE, ONE, ZERO};
use crate::color::Color;
use crate::math::Vec3;
use vstd::prelude::*;

verus! {

/// The word of `200.0`: the intensity of a point light that nobody set.
pub const DEFAULT_POINT_INTENSITY: u32 = 0x4348_0000;

/// The word of `20.0`: the range of a point light that nobody set.
pub const DEFAULT_POINT_RANGE: u32 = 0x41A0_0000;

/// The word of `100000.0`: an illuminance on the scale of sunlight.
pub const DEFAULT_ILLUMINANCE: u32 = 0x47C3_5000;

/// The word of `0.05`: the brightness of ambient light that nobody set.
pub const DEFAULT_BRIGHTNESS: u32 = 0x3D4C_CCCD;

/// A light that shines from a point in every direction.
#[derive(Clone, Copy, Debug)]
pub struct PointLight {
    pub color: Color,
    /// Luminous intensity.
    pub intensity: u32,
    /// The distance beyond which the light counts for nothing. The inverse
    /// square of it goes to the shader, so it is meant to be above zero.
    pub range: u32,
    /// The radius of the source itself.
    pub radius: u32,
}

impl Default for PointLight {
    /// A white light of intensity `200.0` and range `20.0`, with no radius.
    fn default() -> (light: Self)
        ensures
            light.color == Color::white(),
            light.intensity == DEFAULT_POINT_INTENSITY,
            light.range == DEFAULT_POINT_RANGE,
            light.radius == ZERO,
    {
        PointLight {
            color: Color::rgb(ONE, ONE, ONE),
            intensity: DEFAULT_POINT_INTENSITY,
            range: DEFAULT_POINT_RANGE,
            radius: ZERO,
        }
    }
}

/// A light so far away that its rays are parallel, like the sun's.
///
/// The direction is kept out of reach: it enters through [`DirectionalLight::new`]
/// or [`DirectionalLight::set_direction`], which take unit vectors only, or
/// through their `try_` forms, which test first.
#[derive(Clone, Copy, Debug)]
pub struct DirectionalLight {
    pub color: Color,
    /// Illuminance, in lux.
    pub intensity: u32,
    direction: Vec3,
}

/// What a directional light holds, with every part in view.
pub struct DirectionalLightView {
    pub color: Color,
    pub intensity: u32,
    pub direction: Vec3,
}

impl View for DirectionalLight {
    type V = DirectionalLightView;

    closed spec fn view(&self) -> DirectionalLightView {
        DirectionalLightView {
            color: self.color,
            intensity: self.intensity,
            direction: self.direction,
        }
    }
}

impl DirectionalLight {
    /// The invariant of the type: the direction is a unit vector.
    pub open spec fn wf(&self) -> bool {
        self@.direction.is_normalized()
    }

    /// The light straight down: where `(0, -1, 0)` points.
    pub open spec fn down() -> Vec3 {
        Vec3 { x: ZERO, y: MINUS_ONE, z: ZERO }
    }

    /// A light of the given colour and illuminance that shines along
    /// `direction`, which is stored as it is.
    pub fn new(color: Color, intensity: u32, direction: Vec3) -> (light: Self)
        requires
            direction.is_normalized(),
        ensures
            light@ == (DirectionalLightView { color, intensity, direction }),
            light.wf(),
    {
        DirectionalLight { color, intensity, direction }
    }

    /// Tests `direction` and makes the light if it is a unit vector.
    pub fn try_new(color: Color, intensity: u32, direction: Vec3) -> (made: Option<Self>)
        ensures
            made is Some <==> direction.is_normalized(),
            made matches Some(light) ==> {
                &&& light@ == (DirectionalLightView { color, intensity, direction })
                &&& light.wf()
            },
    {
        if direction.is_normalized() {
            Some(Self::new(color, intensity, direction))
        } else {
            None
        }
    }

    /// Turns the light to shine along `direction`.
    pub fn set_direction(&mut self, direction: Vec3)
        requires
            direction.is_normalized(),
        ensures
            final(self)@ == (DirectionalLightView { direction, ..old(self)@ }),
            final(self).wf(),
    {
        self.direction = direction;
    }

    /// Tests `direction` and turns the light if it is a unit vector; the
    /// light stays as it was if it is not.
    pub fn try_set_direction(&mut self, direction: Vec3) -> (turned: bool)
        ensures
            turned == direction.is_normalized(),
            turned ==> final(self)@ == (DirectionalLightView { direction, ..old(self)@ }),
            !turned ==> final(self)@ == old(self)@,
            old(self).wf() || turned ==> final(self).wf(),
    {
        if direction.is_normalized() {
            self.set_direction(direction);
            true
        } else {
            false
        }
    }

    /// The direction of the light, read off its view.
    pub open spec fn spec_get_direction(&self) -> Vec3 {
        self@.direction
    }

    /// The direction in which the light shines, as it was given.
    #[verifier::when_used_as_spec(spec_get_direction)]
    pub fn get_direction(&self) -> (direction: Vec3)
        ensures
            direction == self@.direction,
    {
        self.direction
    }
}

/// A unit vector that a light was made with, or turned to, is the direction
/// that the light gives back, word for word, and the light is well formed.
pub proof fn lemma_direction_is_kept(
    light: DirectionalLight,
    color: Color,
    intensity: u32,
    direction: Vec3,
)
    requires
        direction.is_normalized(),
        light@ == (DirectionalLightView { color, intensity, direction }),
    ensures
        light.get_direction() == direction,
        light.wf(),
{
}

impl Default for DirectionalLight {
    /// A white light of `100000.0` lux that shines straight down.
    fn default() -> (light: Self)
        ensures
            light@ == (DirectionalLightView {
                color: Color::white(),
                intensity: DEFAULT_ILLUMINANCE,
                direction: Self::down(),
            }),
            light.wf(),
    {
        let direction = Vec3::new(ZERO, MINUS_ONE, ZERO);
        assert(direction.is_signed_axis()) by {
            assert(0u32 & 0x7FFF_FFFFu32 == 0u32) by (bit_vector);
            assert(0xBF80_0000u32 & 0x7FFF_FFFFu32 == 0x3F80_0000u32) by (bit_vector);
        }
        DirectionalLight::new(Color::rgb(ONE, ONE, ONE), DEFAULT_ILLUMINANCE, direction)
    }
}

/// Light that reaches every surface of the scene alike.
///
/// Whoever hands it to a shader multiplies the colour by the brightness
/// first.
#[derive(Debug)]
pub struct AmbientLight {
    pub color: Color,
    pub brightness: u32,
}

impl Default for AmbientLight {
    /// White light of brightness `0.05`.
    fn default() -> (light: Self)
        ensures
            light.color == Color::white(),
            light.brightness == DEFAULT_BRIGHTNESS,
    {
        AmbientLight { color: Color::rgb(ONE, ONE, ONE), brightness: DEFAULT_BRIGHTNESS }
    }
}

} // verus!
