//! End-to-end frame tests: extraction, aggregation, dynamic indices and the
//! read-back of every slot.

use postfx::aggregate::{aggregate, build_effect_frame};
use postfx::extract::extract;
use postfx::layout::{deserialize_record, record_size};
use postfx::settings::{
    ChromaticAberrationSettings, EffectKind, EffectRecord, Vec3Words, VolumetricNebulaSettings,
};
use postfx::world::SimWorld;

const ALIGNMENT: usize = 256;

fn nebula_defaults() -> VolumetricNebulaSettings {
    VolumetricNebulaSettings {
        time: 0.0f32.to_bits(),
        camera_position: Vec3Words { x: 0, y: 0, z: 0 },
        camera_right: Vec3Words { x: 0, y: 0, z: 0 },
        camera_up: Vec3Words { x: 0, y: 0, z: 0 },
        camera_forward: Vec3Words { x: 0, y: 0, z: 0 },
        light_direction: Vec3Words { x: 0, y: 0, z: 0 },
        speed: 2.0f32.to_bits(),
        scale: 0.1f32.to_bits(),
        iso_value: 0.86f32.to_bits(),
        step_count: 30,
        step_distance: 3.0f32.to_bits(),
    }
}

#[test]
fn zero_carrying_cameras_give_empty_buffer() {
    let mut world = SimWorld::new();
    assert!(world.spawn_camera(1, true, true));
    // the camera exists but carries no record of any effect
    let snaps = extract(&world, EffectKind::ChromaticAberration);
    assert_eq!(snaps.len(), 0);
    let frame = aggregate(&snaps, EffectKind::ChromaticAberration, ALIGNMENT);
    assert_eq!(frame.data.len(), 0);
    assert_eq!(frame.offsets.len(), 0);
    assert_eq!(frame.cameras.len(), 0);
    assert_eq!(frame.dynamic_index_of(1), None);
}

#[test]
fn each_camera_gets_its_own_aligned_slot() {
    let mut world = SimWorld::new();
    for id in 1u64..=3 {
        assert!(world.spawn_camera(id, id == 1, false));
        let settings = ChromaticAberrationSettings {
            intensity: (0.01f32 * id as f32).to_bits(),
            distance_exponent: (id as f32).to_bits(),
        };
        assert!(world.attach_record(id, EffectRecord::ChromaticAberration(settings)));
    }
    let frame = build_effect_frame(&world, EffectKind::ChromaticAberration, ALIGNMENT);
    assert_eq!(frame.cameras, vec![1, 2, 3]);
    assert_eq!(frame.offsets, vec![0, 256, 512]);
    assert_eq!(frame.data.len(), 3 * 256);
    for id in 1u64..=3 {
        let offset = frame.dynamic_index_of(id).expect("camera contributed a slot") as usize;
        assert_eq!(offset, (id as usize - 1) * 256);
        let read = deserialize_record(&frame.data, offset, EffectKind::ChromaticAberration);
        let expected = EffectRecord::ChromaticAberration(ChromaticAberrationSettings {
            intensity: (0.01f32 * id as f32).to_bits(),
            distance_exponent: (id as f32).to_bits(),
        });
        assert_eq!(read, expected);
    }
}

#[test]
fn rebuilding_from_unchanged_state_is_byte_identical() {
    let mut world = SimWorld::new();
    assert!(world.spawn_camera(7, true, true));
    assert!(world.attach_record(7, EffectRecord::VolumetricNebula(nebula_defaults())));
    assert!(world.spawn_camera(8, false, false));
    assert!(world.attach_record(
        8,
        EffectRecord::ChromaticAberration(ChromaticAberrationSettings {
            intensity: 0.25f32.to_bits(),
            distance_exponent: 2.0f32.to_bits(),
        }),
    ));
    for kind in [EffectKind::ChromaticAberration, EffectKind::VolumetricNebula] {
        let first = build_effect_frame(&world, kind, ALIGNMENT);
        let second = build_effect_frame(&world, kind, ALIGNMENT);
        assert_eq!(first.data, second.data);
        assert_eq!(first.offsets, second.offsets);
        assert_eq!(first.cameras, second.cameras);
    }
}

#[test]
fn chromatic_single_camera_record_sits_at_offset_zero() {
    let mut world = SimWorld::new();
    assert!(world.spawn_camera(1, true, false));
    let settings = ChromaticAberrationSettings {
        intensity: 0.01f32.to_bits(),
        distance_exponent: 4.0f32.to_bits(),
    };
    assert!(world.attach_record(1, EffectRecord::ChromaticAberration(settings)));
    let frame = build_effect_frame(&world, EffectKind::ChromaticAberration, ALIGNMENT);
    assert_eq!(frame.cameras, vec![1]);
    assert_eq!(frame.offsets, vec![0]);
    assert_eq!(frame.dynamic_index_of(1), Some(0));
    assert_eq!(&frame.data[0..4], &0.01f32.to_le_bytes());
    assert_eq!(&frame.data[4..8], &4.0f32.to_le_bytes());
    let read = deserialize_record(&frame.data, 0, EffectKind::ChromaticAberration);
    assert_eq!(read, EffectRecord::ChromaticAberration(settings));
}

#[test]
fn nebula_snapshots_stay_independent_per_camera() {
    let mut world = SimWorld::new();
    assert!(world.spawn_camera(1, true, true));
    assert!(world.spawn_camera(2, false, true));
    let wrapped_time = 12.5f32;
    for (id, x_axis) in [(1u64, 1.0f32), (2u64, -1.0f32)] {
        let mut settings = nebula_defaults();
        // each camera recomputes its own basis from its own transform; the
        // wrapped elapsed time source is shared
        settings.update_from_camera(
            Vec3Words { x: (10.0f32 * x_axis).to_bits(), y: 0, z: 0 },
            Vec3Words { x: x_axis.to_bits(), y: 0, z: 0 },
            Vec3Words { x: 0, y: 1.0f32.to_bits(), z: 0 },
            Vec3Words { x: 0, y: 0, z: x_axis.to_bits() },
            (wrapped_time * x_axis.abs()).to_bits(),
        );
        assert!(world.attach_record(id, EffectRecord::VolumetricNebula(settings)));
    }
    let snaps = extract(&world, EffectKind::VolumetricNebula);
    assert_eq!(snaps.len(), 2);
    assert_eq!(snaps[0].camera, 1);
    assert_eq!(snaps[1].camera, 2);
    let frame = aggregate(&snaps, EffectKind::VolumetricNebula, ALIGNMENT);
    for (slot, x_axis) in [(0usize, 1.0f32), (1usize, -1.0f32)] {
        let offset = frame.offsets[slot] as usize;
        match deserialize_record(&frame.data, offset, EffectKind::VolumetricNebula) {
            EffectRecord::VolumetricNebula(read) => {
                assert_eq!(read.camera_position.x, (10.0f32 * x_axis).to_bits());
                assert_eq!(read.camera_right.x, x_axis.to_bits());
                assert_eq!(read.camera_forward.z, x_axis.to_bits());
                assert_eq!(read.time, wrapped_time.to_bits());
                assert_eq!(read.speed, 2.0f32.to_bits());
                assert_eq!(read.step_count, 30);
            }
            other => panic!("wrong record extracted: {:?}", other),
        }
    }
}

#[test]
fn despawned_camera_leaves_no_snapshot() {
    let mut world = SimWorld::new();
    assert!(world.spawn_camera(1, true, false));
    assert!(world.spawn_camera(2, false, false));
    for id in [1u64, 2] {
        assert!(world.attach_record(
            id,
            EffectRecord::ChromaticAberration(ChromaticAberrationSettings {
                intensity: id as u32,
                distance_exponent: 0,
            }),
        ));
    }
    assert!(world.despawn_camera(1));
    let snaps = extract(&world, EffectKind::ChromaticAberration);
    assert_eq!(snaps.len(), 1);
    assert_eq!(snaps[0].camera, 2);
    let frame = aggregate(&snaps, EffectKind::ChromaticAberration, ALIGNMENT);
    assert_eq!(frame.dynamic_index_of(1), None);
    assert_eq!(frame.dynamic_index_of(2), Some(0));
}

#[test]
fn aggregation_pads_each_slot_to_the_stride() {
    let mut world = SimWorld::new();
    assert!(world.spawn_camera(1, true, false));
    assert!(world.spawn_camera(2, false, false));
    for id in [1u64, 2] {
        assert!(world.attach_record(
            id,
            EffectRecord::ChromaticAberration(ChromaticAberrationSettings {
                intensity: u32::MAX,
                distance_exponent: u32::MAX,
            }),
        ));
    }
    let frame = build_effect_frame(&world, EffectKind::ChromaticAberration, ALIGNMENT);
    let size = record_size(EffectKind::ChromaticAberration);
    assert_eq!(size, 16);
    // everything after each record up to the next slot is zero padding
    for slot in 0..2usize {
        for i in (slot * 256 + size)..(slot + 1) * 256 {
            assert_eq!(frame.data[i], 0, "padding byte {} not zero", i);
        }
    }
}
