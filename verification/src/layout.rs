//! GPU byte layout of the effect settings records.
//!
//! Each record is serialized into a fixed, shader-agreed struct layout: fields
//! in declaration order, scalars as four little-endian bytes, `vec3` fields
//! aligned to 16 bytes, the whole struct padded to a multiple of 16 bytes.
//! Padding bytes are written as zero, so serialization is a pure function of
//! the record. This layout is the wire contract with the fragment shaders and
//! must be bit-exact.

use vstd::prelude::*;
use crate::settings::{
    ChromaticAberrationSettings, EffectKind, EffectRecord, OutlineSettings, Vec3Words,
    VolumetricNebulaSettings,
};

verus! {

/// The four little-endian bytes of one 32-bit word.
pub open spec fn word_bytes(w: u32) -> Seq<u8> {
    seq![
        (w & 0xff) as u8,
        ((w >> 8) & 0xff) as u8,
        ((w >> 16) & 0xff) as u8,
        ((w >> 24) & 0xff) as u8,
    ]
}

/// The word with little-endian bytes `b0 b1 b2 b3`.
pub open spec fn word_of_bytes(b0: u8, b1: u8, b2: u8, b3: u8) -> u32 {
    (b0 as u32) | ((b1 as u32) << 8) | ((b2 as u32) << 16) | ((b3 as u32) << 24)
}

/// `n` zero bytes of padding.
pub open spec fn zero_bytes(n: nat) -> Seq<u8> {
    Seq::new(n, |i: int| 0u8)
}

/// The twelve payload bytes of a `vec3` field, component by component.
pub open spec fn vec3_bytes(v: Vec3Words) -> Seq<u8> {
    word_bytes(v.x) + word_bytes(v.y) + word_bytes(v.z)
}

/// Reassembling a word from its little-endian bytes gives the word back.
pub proof fn lemma_word_roundtrip(w: u32)
    ensures
        word_of_bytes(
            word_bytes(w)[0],
            word_bytes(w)[1],
            word_bytes(w)[2],
            word_bytes(w)[3],
        ) == w,
{
    assert(((w & 0xff) as u8 as u32) | ((((w >> 8) & 0xff) as u8 as u32) << 8) | ((((w >> 16)
        & 0xff) as u8 as u32) << 16) | ((((w >> 24) & 0xff) as u8 as u32) << 24) == w)
        by (bit_vector);
}

/// Size in bytes of one record of the given effect in its GPU layout.
pub open spec fn spec_record_size(kind: EffectKind) -> nat {
    match kind {
        EffectKind::ChromaticAberration => 16,
        EffectKind::Outline => 16,
        EffectKind::VolumetricNebula => 112,
    }
}

/// Returns the size in bytes of one record of the given effect.
pub fn record_size(kind: EffectKind) -> (n: usize)
    ensures
        n == spec_record_size(kind),
{
    match kind {
        EffectKind::ChromaticAberration => 16,
        EffectKind::Outline => 16,
        EffectKind::VolumetricNebula => 112,
    }
}

/// Byte layout of a chromatic aberration record: intensity at offset 0, the
/// distance exponent at 4, padded to the 16-byte struct size.
pub open spec fn chromatic_bytes(s: ChromaticAberrationSettings) -> Seq<u8> {
    word_bytes(s.intensity) + word_bytes(s.distance_exponent) + zero_bytes(8)
}

/// Byte layout of an outline record: the cutoff at offset 0, padded to the
/// 16-byte struct size.
pub open spec fn outline_bytes(s: OutlineSettings) -> Seq<u8> {
    word_bytes(s.cutoff) + zero_bytes(12)
}

/// The sixteen-byte block of one 16-byte-aligned `vec3` field: twelve payload
/// bytes followed by four padding bytes.
pub open spec fn vec3_block(v: Vec3Words) -> Seq<u8> {
    vec3_bytes(v) + zero_bytes(4)
}

/// The packed trailing scalars of a volumetric nebula record.
pub open spec fn nebula_tail(s: VolumetricNebulaSettings) -> Seq<u8> {
    word_bytes(s.speed) + word_bytes(s.scale) + word_bytes(s.iso_value) + word_bytes(
        s.step_count as u32,
    ) + word_bytes(s.step_distance)
}

/// Byte layout of a volumetric nebula record: time at offset 0, the four
/// camera `vec3` fields at 16-byte-aligned offsets 16, 32, 48 and 64, the
/// light direction at 80, and the trailing scalars packed from offset 92 on,
/// for a 112-byte struct.
pub open spec fn nebula_bytes(s: VolumetricNebulaSettings) -> Seq<u8> {
    word_bytes(s.time) + zero_bytes(12) + vec3_block(s.camera_position) + vec3_block(
        s.camera_right,
    ) + vec3_block(s.camera_up) + vec3_block(s.camera_forward) + vec3_bytes(s.light_direction)
        + nebula_tail(s)
}

/// Byte layout of any effect record.
pub open spec fn record_bytes(r: EffectRecord) -> Seq<u8> {
    match r {
        EffectRecord::ChromaticAberration(s) => chromatic_bytes(s),
        EffectRecord::Outline(s) => outline_bytes(s),
        EffectRecord::VolumetricNebula(s) => nebula_bytes(s),
    }
}

/// A record's byte layout has exactly the declared struct size.
pub proof fn lemma_record_bytes_len(r: EffectRecord)
    ensures
        record_bytes(r).len() == spec_record_size(r.kind()),
{
}

/// Appends the four little-endian bytes of `w`.
pub fn push_word(buf: &mut Vec<u8>, w: u32)
    ensures
        final(buf)@ == old(buf)@ + word_bytes(w),
{
    buf.push((w & 0xff) as u8);
    buf.push(((w >> 8) & 0xff) as u8);
    buf.push(((w >> 16) & 0xff) as u8);
    buf.push(((w >> 24) & 0xff) as u8);
    assert(buf@ =~= old(buf)@ + word_bytes(w));
}

/// Appends `n` zero padding bytes.
pub fn push_zero_pad(buf: &mut Vec<u8>, n: usize)
    ensures
        final(buf)@ == old(buf)@ + zero_bytes(n as nat),
{
    let mut i: usize = 0;
    while i < n
        invariant
            i <= n,
            buf@ == old(buf)@ + zero_bytes(i as nat),
        decreases n - i,
    {
        buf.push(0u8);
        i = i + 1;
        assert(buf@ =~= old(buf)@ + zero_bytes(i as nat));
    }
    assert(buf@ =~= old(buf)@ + zero_bytes(n as nat));
}

/// Appends the twelve payload bytes of a `vec3` field.
pub fn push_vec3(buf: &mut Vec<u8>, v: Vec3Words)
    ensures
        final(buf)@ == old(buf)@ + vec3_bytes(v),
{
    push_word(buf, v.x);
    push_word(buf, v.y);
    push_word(buf, v.z);
    assert(buf@ =~= old(buf)@ + vec3_bytes(v));
}

/// Serializes one record into its GPU byte layout.
pub fn serialize_record(r: &EffectRecord) -> (out: Vec<u8>)
    ensures
        out@ == record_bytes(*r),
        out@.len() == spec_record_size(r.kind()),
{
    let mut out: Vec<u8> = Vec::new();
    match r {
        EffectRecord::ChromaticAberration(s) => {
            push_word(&mut out, s.intensity);
            push_word(&mut out, s.distance_exponent);
            push_zero_pad(&mut out, 8);
            assert(out@ =~= record_bytes(*r));
        },
        EffectRecord::Outline(s) => {
            push_word(&mut out, s.cutoff);
            push_zero_pad(&mut out, 12);
            assert(out@ =~= record_bytes(*r));
        },
        EffectRecord::VolumetricNebula(s) => {
            push_word(&mut out, s.time);
            push_zero_pad(&mut out, 12);
            push_vec3(&mut out, s.camera_position);
            push_zero_pad(&mut out, 4);
            push_vec3(&mut out, s.camera_right);
            push_zero_pad(&mut out, 4);
            push_vec3(&mut out, s.camera_up);
            push_zero_pad(&mut out, 4);
            push_vec3(&mut out, s.camera_forward);
            push_zero_pad(&mut out, 4);
            push_vec3(&mut out, s.light_direction);
            push_word(&mut out, s.speed);
            push_word(&mut out, s.scale);
            push_word(&mut out, s.iso_value);
            push_word(&mut out, s.step_count as u32);
            push_word(&mut out, s.step_distance);
            assert(out@ =~= record_bytes(*r));
        },
    }
    proof {
        lemma_record_bytes_len(*r);
    }
    out
}

/// The word stored at byte offset `off` of `b`.
pub open spec fn word_at(b: Seq<u8>, off: int) -> u32 {
    word_of_bytes(b[off], b[off + 1], b[off + 2], b[off + 3])
}

/// The `vec3` stored at byte offset `off` of `b`.
pub open spec fn vec3_at(b: Seq<u8>, off: int) -> Vec3Words {
    Vec3Words { x: word_at(b, off), y: word_at(b, off + 4), z: word_at(b, off + 8) }
}

/// The record of the given effect read back from the byte layout `b`.
pub open spec fn decode_record(kind: EffectKind, b: Seq<u8>) -> EffectRecord {
    match kind {
        EffectKind::ChromaticAberration => EffectRecord::ChromaticAberration(
            ChromaticAberrationSettings {
                intensity: word_at(b, 0),
                distance_exponent: word_at(b, 4),
            },
        ),
        EffectKind::Outline => EffectRecord::Outline(OutlineSettings { cutoff: word_at(b, 0) }),
        EffectKind::VolumetricNebula => EffectRecord::VolumetricNebula(
            VolumetricNebulaSettings {
                time: word_at(b, 0),
                camera_position: vec3_at(b, 16),
                camera_right: vec3_at(b, 32),
                camera_up: vec3_at(b, 48),
                camera_forward: vec3_at(b, 64),
                light_direction: vec3_at(b, 80),
                speed: word_at(b, 92),
                scale: word_at(b, 96),
                iso_value: word_at(b, 100),
                step_count: word_at(b, 104) as i32,
                step_distance: word_at(b, 108),
            },
        ),
    }
}

/// Reads the little-endian word at byte offset `off`.
pub fn read_word(buf: &Vec<u8>, off: usize) -> (w: u32)
    requires
        off + 4 <= buf@.len(),
    ensures
        w == word_at(buf@, off as int),
{
    proof {
        vstd::std_specs::vec::axiom_spec_len(buf);
    }
    let b0 = buf[off] as u32;
    let b1 = buf[off + 1] as u32;
    let b2 = buf[off + 2] as u32;
    let b3 = buf[off + 3] as u32;
    b0 | (b1 << 8u32) | (b2 << 16u32) | (b3 << 24u32)
}

/// Reads the `vec3` whose payload starts at byte offset `off`.
pub fn read_vec3(buf: &Vec<u8>, off: usize) -> (v: Vec3Words)
    requires
        off + 12 <= buf@.len(),
    ensures
        v == vec3_at(buf@, off as int),
{
    proof {
        vstd::std_specs::vec::axiom_spec_len(buf);
    }
    Vec3Words {
        x: read_word(buf, off),
        y: read_word(buf, off + 4),
        z: read_word(buf, off + 8),
    }
}

/// Reads one record of the given effect back from its byte layout starting
/// at `off`; the inverse of serialization on what serialization wrote.
pub fn deserialize_record(buf: &Vec<u8>, off: usize, kind: EffectKind) -> (r: EffectRecord)
    requires
        off + spec_record_size(kind) <= buf@.len(),
    ensures
        r == decode_record(kind, buf@.subrange(off as int, off + spec_record_size(kind))),
{
    proof {
        vstd::std_specs::vec::axiom_spec_len(buf);
    }
    let ghost sub = buf@.subrange(off as int, off + spec_record_size(kind));
    match kind {
        EffectKind::ChromaticAberration => {
            let r = EffectRecord::ChromaticAberration(
                ChromaticAberrationSettings {
                    intensity: read_word(buf, off),
                    distance_exponent: read_word(buf, off + 4),
                },
            );
            proof {
                assert(word_at(sub, 0) == word_at(buf@, off as int));
                assert(word_at(sub, 4) == word_at(buf@, off + 4));
            }
            r
        },
        EffectKind::Outline => {
            let r = EffectRecord::Outline(OutlineSettings { cutoff: read_word(buf, off) });
            proof {
                assert(word_at(sub, 0) == word_at(buf@, off as int));
            }
            r
        },
        EffectKind::VolumetricNebula => {
            let r = EffectRecord::VolumetricNebula(
                VolumetricNebulaSettings {
                    time: read_word(buf, off),
                    camera_position: read_vec3(buf, off + 16),
                    camera_right: read_vec3(buf, off + 32),
                    camera_up: read_vec3(buf, off + 48),
                    camera_forward: read_vec3(buf, off + 64),
                    light_direction: read_vec3(buf, off + 80),
                    speed: read_word(buf, off + 92),
                    scale: read_word(buf, off + 96),
                    iso_value: read_word(buf, off + 100),
                    step_count: #[verifier::truncate] (read_word(buf, off + 104) as i32),
                    step_distance: read_word(buf, off + 108),
                },
            );
            proof {
                assert(word_at(sub, 0) == word_at(buf@, off as int));
                assert(vec3_at(sub, 16) == vec3_at(buf@, off + 16));
                assert(vec3_at(sub, 32) == vec3_at(buf@, off + 32));
                assert(vec3_at(sub, 48) == vec3_at(buf@, off + 48));
                assert(vec3_at(sub, 64) == vec3_at(buf@, off + 64));
                assert(vec3_at(sub, 80) == vec3_at(buf@, off + 80));
                assert(word_at(sub, 92) == word_at(buf@, off + 92));
                assert(word_at(sub, 96) == word_at(buf@, off + 96));
                assert(word_at(sub, 100) == word_at(buf@, off + 100));
                assert(word_at(sub, 104) == word_at(buf@, off + 104));
                assert(word_at(sub, 108) == word_at(buf@, off + 108));
            }
            r
        },
    }
}

/// A word whose four layout bytes stand at offset `off` of `b` reads back
/// unchanged from there.
pub proof fn lemma_word_at_slot(b: Seq<u8>, w: u32, off: int)
    requires
        0 <= off,
        off + 4 <= b.len(),
        b.subrange(off, off + 4) == word_bytes(w),
    ensures
        word_at(b, off) == w,
{
    assert(b[off] == word_bytes(w)[0]);
    assert(b[off + 1] == word_bytes(w)[1]);
    assert(b[off + 2] == word_bytes(w)[2]);
    assert(b[off + 3] == word_bytes(w)[3]);
    lemma_word_roundtrip(w);
}

/// A `vec3` whose twelve payload bytes stand at offset `off` of `b` reads
/// back unchanged from there.
proof fn lemma_vec3_at_slot(b: Seq<u8>, v: Vec3Words, off: int)
    requires
        0 <= off,
        off + 12 <= b.len(),
        b.subrange(off, off + 12) == vec3_bytes(v),
    ensures
        vec3_at(b, off) == v,
{
    let s = b.subrange(off, off + 12);
    assert(s.subrange(0, 4) =~= word_bytes(v.x));
    assert(s.subrange(4, 8) =~= word_bytes(v.y));
    assert(s.subrange(8, 12) =~= word_bytes(v.z));
    lemma_word_at_slot(s, v.x, 0);
    lemma_word_at_slot(s, v.y, 4);
    lemma_word_at_slot(s, v.z, 8);
    assert(b[off] == s[0] && b[off + 1] == s[1] && b[off + 2] == s[2] && b[off + 3] == s[3]);
    assert(b[off + 4] == s[4] && b[off + 5] == s[5] && b[off + 6] == s[6] && b[off + 7] == s[7]);
    assert(b[off + 8] == s[8] && b[off + 9] == s[9] && b[off + 10] == s[10] && b[off + 11]
        == s[11]);
}

/// Decoding a record's byte layout gives the record back.
#[verifier::rlimit(100)]
pub proof fn lemma_record_roundtrip(r: EffectRecord)
    ensures
        decode_record(r.kind(), record_bytes(r)) == r,
{
    match r {
        EffectRecord::ChromaticAberration(s) => {
            let b = chromatic_bytes(s);
            assert(b.subrange(0, 4) =~= word_bytes(s.intensity));
            assert(b.subrange(4, 8) =~= word_bytes(s.distance_exponent));
            lemma_word_at_slot(b, s.intensity, 0);
            lemma_word_at_slot(b, s.distance_exponent, 4);
        },
        EffectRecord::Outline(s) => {
            let b = outline_bytes(s);
            assert(b.subrange(0, 4) =~= word_bytes(s.cutoff));
            lemma_word_at_slot(b, s.cutoff, 0);
        },
        EffectRecord::VolumetricNebula(s) => {
            lemma_nebula_roundtrip(s);
        },
    }
}

/// The time word occupies bytes 0 to 4 of the nebula layout.
proof fn lemma_nebula_slice_time(s: VolumetricNebulaSettings)
    ensures
        nebula_bytes(s).subrange(0, 4) == word_bytes(s.time),
{
    assert(nebula_bytes(s).subrange(0, 4) =~= word_bytes(s.time));
}

/// The camera position payload occupies bytes 16 to 28 of the nebula layout.
proof fn lemma_nebula_slice_position(s: VolumetricNebulaSettings)
    ensures
        nebula_bytes(s).subrange(16, 28) == vec3_bytes(s.camera_position),
{
    assert(nebula_bytes(s).subrange(16, 28) =~= vec3_bytes(s.camera_position));
}

/// The camera right payload occupies bytes 32 to 44 of the nebula layout.
proof fn lemma_nebula_slice_right(s: VolumetricNebulaSettings)
    ensures
        nebula_bytes(s).subrange(32, 44) == vec3_bytes(s.camera_right),
{
    assert(nebula_bytes(s).subrange(32, 44) =~= vec3_bytes(s.camera_right));
}

/// The camera up payload occupies bytes 48 to 60 of the nebula layout.
proof fn lemma_nebula_slice_up(s: VolumetricNebulaSettings)
    ensures
        nebula_bytes(s).subrange(48, 60) == vec3_bytes(s.camera_up),
{
    assert(nebula_bytes(s).subrange(48, 60) =~= vec3_bytes(s.camera_up));
}

/// The camera forward payload occupies bytes 64 to 76 of the nebula layout.
proof fn lemma_nebula_slice_forward(s: VolumetricNebulaSettings)
    ensures
        nebula_bytes(s).subrange(64, 76) == vec3_bytes(s.camera_forward),
{
    assert(nebula_bytes(s).subrange(64, 76) =~= vec3_bytes(s.camera_forward));
}

/// The light direction payload occupies bytes 80 to 92 of the nebula layout.
proof fn lemma_nebula_slice_light(s: VolumetricNebulaSettings)
    ensures
        nebula_bytes(s).subrange(80, 92) == vec3_bytes(s.light_direction),
{
    assert(nebula_bytes(s).subrange(80, 92) =~= vec3_bytes(s.light_direction));
}

/// The packed scalars occupy bytes 92 to 112 of the nebula layout.
proof fn lemma_nebula_slice_tail(s: VolumetricNebulaSettings)
    ensures
        nebula_bytes(s).subrange(92, 112) == nebula_tail(s),
{
    assert(nebula_bytes(s).subrange(92, 112) =~= nebula_tail(s));
}

/// Each volumetric nebula field reads back from its declared offset.
#[verifier::rlimit(100)]
proof fn lemma_nebula_roundtrip(s: VolumetricNebulaSettings)
    ensures
        decode_record(EffectKind::VolumetricNebula, nebula_bytes(s)) == EffectRecord::VolumetricNebula(
            s,
        ),
{
    let b = nebula_bytes(s);
    lemma_nebula_slice_time(s);
    lemma_word_at_slot(b, s.time, 0);
    lemma_nebula_slice_position(s);
    lemma_vec3_at_slot(b, s.camera_position, 16);
    lemma_nebula_slice_right(s);
    lemma_vec3_at_slot(b, s.camera_right, 32);
    lemma_nebula_slice_up(s);
    lemma_vec3_at_slot(b, s.camera_up, 48);
    lemma_nebula_slice_forward(s);
    lemma_vec3_at_slot(b, s.camera_forward, 64);
    lemma_nebula_slice_light(s);
    lemma_vec3_at_slot(b, s.light_direction, 80);
    lemma_nebula_slice_tail(s);
    let t = b.subrange(92, 112);
    assert(t.subrange(0, 4) =~= word_bytes(s.speed));
    lemma_word_at_slot(t, s.speed, 0);
    assert(t.subrange(4, 8) =~= word_bytes(s.scale));
    lemma_word_at_slot(t, s.scale, 4);
    assert(t.subrange(8, 12) =~= word_bytes(s.iso_value));
    lemma_word_at_slot(t, s.iso_value, 8);
    assert(t.subrange(12, 16) =~= word_bytes(s.step_count as u32));
    lemma_word_at_slot(t, s.step_count as u32, 12);
    assert(t.subrange(16, 20) =~= word_bytes(s.step_distance));
    lemma_word_at_slot(t, s.step_distance, 16);
    assert forall|i: int| 0 <= i < 20 implies b[92 + i] == t[i] by {
        assert(t[i] == b[92 + i]);
    }
    assert(word_at(b, 92) == word_at(t, 0));
    assert(word_at(b, 96) == word_at(t, 4));
    assert(word_at(b, 100) == word_at(t, 8));
    assert(word_at(b, 104) == word_at(t, 12));
    assert(word_at(b, 108) == word_at(t, 16));
    let sc = s.step_count;
    assert(sc as u32 as i32 == sc) by (bit_vector);
}

} // verus!
