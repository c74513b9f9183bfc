//! Byte-level tests of the shader wire contract: field offsets, padding,
//! record sizes and the serialize/deserialize round trip.

use postfx::aggregate::round_up;
use postfx::layout::{deserialize_record, record_size, serialize_record};
use postfx::settings::{
    ChromaticAberrationSettings, EffectKind, EffectRecord, OutlineSettings, Vec3Words,
    VolumetricNebulaSettings,
};

fn sample_nebula() -> VolumetricNebulaSettings {
    VolumetricNebulaSettings {
        time: 1.5f32.to_bits(),
        camera_position: Vec3Words {
            x: 1.0f32.to_bits(),
            y: 2.0f32.to_bits(),
            z: 3.0f32.to_bits(),
        },
        camera_right: Vec3Words {
            x: 4.0f32.to_bits(),
            y: 5.0f32.to_bits(),
            z: 6.0f32.to_bits(),
        },
        camera_up: Vec3Words {
            x: 7.0f32.to_bits(),
            y: 8.0f32.to_bits(),
            z: 9.0f32.to_bits(),
        },
        camera_forward: Vec3Words {
            x: 10.0f32.to_bits(),
            y: 11.0f32.to_bits(),
            z: 12.0f32.to_bits(),
        },
        light_direction: Vec3Words {
            x: 13.0f32.to_bits(),
            y: 14.0f32.to_bits(),
            z: 15.0f32.to_bits(),
        },
        speed: 2.0f32.to_bits(),
        scale: 0.1f32.to_bits(),
        iso_value: 0.86f32.to_bits(),
        step_count: -30,
        step_distance: 3.0f32.to_bits(),
    }
}

#[test]
fn record_sizes_follow_the_gpu_struct_rules() {
    assert_eq!(record_size(EffectKind::ChromaticAberration), 16);
    assert_eq!(record_size(EffectKind::Outline), 16);
    assert_eq!(record_size(EffectKind::VolumetricNebula), 112);
}

#[test]
fn chromatic_layout_is_two_words_then_padding() {
    let settings = ChromaticAberrationSettings {
        intensity: 0x0102_0304,
        distance_exponent: 0xA1B2_C3D4,
    };
    let bytes = serialize_record(&EffectRecord::ChromaticAberration(settings));
    assert_eq!(bytes.len(), 16);
    assert_eq!(&bytes[0..4], &[0x04, 0x03, 0x02, 0x01]);
    assert_eq!(&bytes[4..8], &[0xD4, 0xC3, 0xB2, 0xA1]);
    assert_eq!(&bytes[8..16], &[0u8; 8]);
}

#[test]
fn outline_layout_is_one_word_then_padding() {
    let settings = OutlineSettings { cutoff: 0.5f32.to_bits() };
    let bytes = serialize_record(&EffectRecord::Outline(settings));
    assert_eq!(bytes.len(), 16);
    assert_eq!(&bytes[0..4], &0.5f32.to_le_bytes());
    assert_eq!(&bytes[4..16], &[0u8; 12]);
}

#[test]
fn nebula_fields_sit_at_their_declared_offsets() {
    let settings = sample_nebula();
    let bytes = serialize_record(&EffectRecord::VolumetricNebula(settings));
    assert_eq!(bytes.len(), 112);
    assert_eq!(&bytes[0..4], &1.5f32.to_le_bytes());
    assert_eq!(&bytes[4..16], &[0u8; 12]); // pad up to the first vec3
    assert_eq!(&bytes[16..20], &1.0f32.to_le_bytes()); // camera_position.x
    assert_eq!(&bytes[24..28], &3.0f32.to_le_bytes()); // camera_position.z
    assert_eq!(&bytes[28..32], &[0u8; 4]); // vec3 block padding
    assert_eq!(&bytes[32..36], &4.0f32.to_le_bytes()); // camera_right.x
    assert_eq!(&bytes[48..52], &7.0f32.to_le_bytes()); // camera_up.x
    assert_eq!(&bytes[64..68], &10.0f32.to_le_bytes()); // camera_forward.x
    assert_eq!(&bytes[80..84], &13.0f32.to_le_bytes()); // light_direction.x
    assert_eq!(&bytes[88..92], &15.0f32.to_le_bytes()); // light_direction.z
    assert_eq!(&bytes[92..96], &2.0f32.to_le_bytes()); // speed, packed right after
    assert_eq!(&bytes[96..100], &0.1f32.to_le_bytes()); // scale
    assert_eq!(&bytes[100..104], &0.86f32.to_le_bytes()); // iso_value
    assert_eq!(&bytes[104..108], &(-30i32).to_le_bytes()); // step_count
    assert_eq!(&bytes[108..112], &3.0f32.to_le_bytes()); // step_distance
}

#[test]
fn every_record_survives_the_round_trip() {
    let records = [
        EffectRecord::ChromaticAberration(ChromaticAberrationSettings {
            intensity: 0.01f32.to_bits(),
            distance_exponent: 4.0f32.to_bits(),
        }),
        EffectRecord::Outline(OutlineSettings { cutoff: 0.5f32.to_bits() }),
        EffectRecord::VolumetricNebula(sample_nebula()),
    ];
    for record in records {
        let bytes = serialize_record(&record);
        let read = deserialize_record(&bytes, 0, record.kind());
        assert_eq!(read, record);
    }
}

#[test]
fn round_up_lands_on_the_next_multiple() {
    assert_eq!(round_up(0, 256), 0);
    assert_eq!(round_up(16, 256), 256);
    assert_eq!(round_up(112, 256), 256);
    assert_eq!(round_up(256, 256), 256);
    assert_eq!(round_up(257, 256), 512);
    assert_eq!(round_up(112, 16), 112);
    assert_eq!(round_up(17, 16), 32);
}
