//! Per-camera effect settings records.
//!
//! Each effect is parameterized by one plain data record attached to a camera.
//! Scalar fields hold the IEEE-754 bit pattern of the shader parameter as a
//! `u32`; the host converts floating-point values at the boundary. Carrying
//! bit patterns keeps the once-per-frame copy and the GPU byte layout exact.

use vstd::prelude::*;

verus! {

/// Identifies one of the screen-space effects the pipeline can run.
#[derive(Clone, Copy, Debug, PartialEq, Eq, Structural)]
pub enum EffectKind {
    ChromaticAberration,
    Outline,
    VolumetricNebula,
}

/// A three-component vector, one 32-bit component bit pattern per axis.
#[derive(Clone, Copy, Debug, PartialEq, Eq, Structural)]
pub struct Vec3Words {
    pub x: u32,
    pub y: u32,
    pub z: u32,
}

/// Parameters of the chromatic aberration pass. Both fields are set once when
/// the effect is attached to a camera and never recomputed per frame.
#[derive(Clone, Copy, Debug, PartialEq, Eq, Structural)]
pub struct ChromaticAberrationSettings {
    pub intensity: u32,
    pub distance_exponent: u32,
}

/// Parameters of the edge outline pass. The cutoff is set once at attach time.
#[derive(Clone, Copy, Debug, PartialEq, Eq, Structural)]
pub struct OutlineSettings {
    pub cutoff: u32,
}

/// Parameters of the volumetric nebula pass. The camera basis vectors and the
/// wrapped elapsed time are recomputed every frame from the camera transform;
/// the light direction is captured once after the scene light is spawned; the
/// remaining fields are static tunables.
#[derive(Clone, Copy, Debug, PartialEq, Eq, Structural)]
pub struct VolumetricNebulaSettings {
    pub time: u32,
    pub camera_position: Vec3Words,
    pub camera_right: Vec3Words,
    pub camera_up: Vec3Words,
    pub camera_forward: Vec3Words,
    pub light_direction: Vec3Words,
    pub speed: u32,
    pub scale: u32,
    pub iso_value: u32,
    pub step_count: i32,
    pub step_distance: u32,
}

/// One effect settings record, tagged by the effect it parameterizes.
#[derive(Clone, Copy, Debug, PartialEq, Eq, Structural)]
pub enum EffectRecord {
    ChromaticAberration(ChromaticAberrationSettings),
    Outline(OutlineSettings),
    VolumetricNebula(VolumetricNebulaSettings),
}

impl EffectRecord {
    /// The effect this record belongs to.
    pub open spec fn spec_kind(&self) -> EffectKind {
        match self {
            EffectRecord::ChromaticAberration(_) => EffectKind::ChromaticAberration,
            EffectRecord::Outline(_) => EffectKind::Outline,
            EffectRecord::VolumetricNebula(_) => EffectKind::VolumetricNebula,
        }
    }

    /// Returns the effect this record belongs to.
    #[verifier::when_used_as_spec(spec_kind)]
    pub fn kind(&self) -> (k: EffectKind)
        ensures
            k == self.spec_kind(),
    {
        match self {
            EffectRecord::ChromaticAberration(_) => EffectKind::ChromaticAberration,
            EffectRecord::Outline(_) => EffectKind::Outline,
            EffectRecord::VolumetricNebula(_) => EffectKind::VolumetricNebula,
        }
    }
}

impl Default for Vec3Words {
    /// The zero vector.
    fn default() -> (v: Vec3Words)
        ensures
            v == (Vec3Words { x: 0, y: 0, z: 0 }),
    {
        Vec3Words { x: 0, y: 0, z: 0 }
    }
}

impl Default for ChromaticAberrationSettings {
    /// An all-zero record, as a camera holds before the attach-time
    /// constants are set.
    fn default() -> (s: ChromaticAberrationSettings)
        ensures
            s == (ChromaticAberrationSettings { intensity: 0, distance_exponent: 0 }),
    {
        ChromaticAberrationSettings { intensity: 0, distance_exponent: 0 }
    }
}

impl Default for OutlineSettings {
    /// An all-zero record, as a camera holds before the attach-time cutoff
    /// is set.
    fn default() -> (s: OutlineSettings)
        ensures
            s == (OutlineSettings { cutoff: 0 }),
    {
        OutlineSettings { cutoff: 0 }
    }
}

impl Default for VolumetricNebulaSettings {
    /// An all-zero record; the startup system fills in the tunables and the
    /// per-frame systems the rest.
    fn default() -> (s: VolumetricNebulaSettings)
        ensures
            s == (VolumetricNebulaSettings {
                time: 0,
                camera_position: Vec3Words { x: 0, y: 0, z: 0 },
                camera_right: Vec3Words { x: 0, y: 0, z: 0 },
                camera_up: Vec3Words { x: 0, y: 0, z: 0 },
                camera_forward: Vec3Words { x: 0, y: 0, z: 0 },
                light_direction: Vec3Words { x: 0, y: 0, z: 0 },
                speed: 0,
                scale: 0,
                iso_value: 0,
                step_count: 0,
                step_distance: 0,
            }),
    {
        VolumetricNebulaSettings {
            time: 0,
            camera_position: Vec3Words { x: 0, y: 0, z: 0 },
            camera_right: Vec3Words { x: 0, y: 0, z: 0 },
            camera_up: Vec3Words { x: 0, y: 0, z: 0 },
            camera_forward: Vec3Words { x: 0, y: 0, z: 0 },
            light_direction: Vec3Words { x: 0, y: 0, z: 0 },
            speed: 0,
            scale: 0,
            iso_value: 0,
            step_count: 0,
            step_distance: 0,
        }
    }
}

/// A nebula record after its per-frame update: fresh camera basis and time,
/// every other field kept.
pub open spec fn spec_updated_from_camera(
    s: VolumetricNebulaSettings,
    position: Vec3Words,
    right: Vec3Words,
    up: Vec3Words,
    forward: Vec3Words,
    time: u32,
) -> VolumetricNebulaSettings {
    VolumetricNebulaSettings {
        time,
        camera_position: position,
        camera_right: right,
        camera_up: up,
        camera_forward: forward,
        ..s
    }
}

/// A nebula record after capturing the scene light's direction.
pub open spec fn spec_with_light_direction(
    s: VolumetricNebulaSettings,
    direction: Vec3Words,
) -> VolumetricNebulaSettings {
    VolumetricNebulaSettings { light_direction: direction, ..s }
}

impl VolumetricNebulaSettings {
    /// Refreshes the per-frame fields from the camera's current transform and
    /// the wrapped elapsed time. The static tunables and the captured light
    /// direction are left untouched.
    pub fn update_from_camera(
        &mut self,
        position: Vec3Words,
        right: Vec3Words,
        up: Vec3Words,
        forward: Vec3Words,
        time: u32,
    )
        ensures
            *final(self) == spec_updated_from_camera(*old(self), position, right, up, forward, time),
            final(self).camera_position == position,
            final(self).camera_right == right,
            final(self).camera_up == up,
            final(self).camera_forward == forward,
            final(self).time == time,
            final(self).light_direction == old(self).light_direction,
            final(self).speed == old(self).speed,
            final(self).scale == old(self).scale,
            final(self).iso_value == old(self).iso_value,
            final(self).step_count == old(self).step_count,
            final(self).step_distance == old(self).step_distance,
    {
        self.camera_position = position;
        self.camera_right = right;
        self.camera_up = up;
        self.camera_forward = forward;
        self.time = time;
    }

    /// Captures the scene light's forward direction, once the light exists.
    pub fn set_light_direction(&mut self, direction: Vec3Words)
        ensures
            *final(self) == spec_with_light_direction(*old(self), direction),
            final(self).light_direction == direction,
            final(self).time == old(self).time,
            final(self).camera_position == old(self).camera_position,
            final(self).camera_right == old(self).camera_right,
            final(self).camera_up == old(self).camera_up,
            final(self).camera_forward == old(self).camera_forward,
            final(self).speed == old(self).speed,
            final(self).scale == old(self).scale,
            final(self).iso_value == old(self).iso_value,
            final(self).step_count == old(self).step_count,
            final(self).step_distance == old(self).step_distance,
    {
        self.light_direction = direction;
    }
}

} // verus!
