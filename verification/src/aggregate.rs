//! Uniform Aggregator: packs one frame's extracted snapshots of one effect
//! into a single contiguous uniform buffer and assigns each snapshot the byte
//! offset ("dynamic index") its draw binds the buffer at.
//!
//! Slots are laid out in snapshot order at a fixed stride: the record size
//! rounded up to the GPU's minimum uniform-buffer offset alignment. Slot
//! padding is written as zero, so the whole buffer is a pure function of the
//! snapshots. A dynamic index is frame-scoped: the buffer is rebuilt every
//! frame and an index must never be applied to a later frame's buffer.

use vstd::prelude::*;
use vstd::arithmetic::div_mod::{
    lemma_fundamental_div_mod, lemma_mod_division_less_than_divisor, lemma_mod_multiples_basic,
};
use crate::extract::{count_with_record, extract, extracted, lemma_extracted_kinds,
    lemma_extracted_len, Snapshot};
use crate::layout::{lemma_record_bytes_len, lemma_record_roundtrip, decode_record, record_bytes,
    record_size, serialize_record, spec_record_size, push_zero_pad, zero_bytes};
use crate::settings::EffectKind;
use crate::world::SimWorld;

verus! {

/// `n` rounded up to the next multiple of `align`.
pub open spec fn spec_round_up(n: int, align: int) -> int
    recommends
        align >= 1,
{
    ((n + align - 1) / align) * align
}

/// Rounding up reaches at least `n`, overshoots by less than `align`, and
/// lands on a multiple of `align`.
pub proof fn lemma_round_up(n: int, align: int)
    requires
        0 <= n,
        1 <= align,
    ensures
        n <= spec_round_up(n, align),
        spec_round_up(n, align) < n + align,
        spec_round_up(n, align) % align == 0,
{
    let x = n + align - 1;
    let q = x / align;
    lemma_fundamental_div_mod(x, align);
    lemma_mod_division_less_than_divisor(x, align);
    assert(q * align == x - x % align) by (nonlinear_arith)
        requires
            x == align * q + x % align,
    ;
    lemma_mod_multiples_basic(q, align);
}

/// Returns `n` rounded up to the next multiple of `align`.
pub fn round_up(n: usize, align: usize) -> (r: usize)
    requires
        1 <= align,
        n + align <= usize::MAX,
    ensures
        r == spec_round_up(n as int, align as int),
{
    proof {
        lemma_round_up(n as int, align as int);
    }
    ((n + align - 1) / align) * align
}

/// Byte stride between consecutive slots of one effect's uniform buffer.
pub open spec fn spec_stride(kind: EffectKind, align: int) -> int {
    spec_round_up(spec_record_size(kind) as int, align)
}

/// Whether every snapshot of `snaps` carries a record of the given effect.
pub open spec fn all_of_kind(snaps: Seq<Snapshot>, kind: EffectKind) -> bool {
    forall|i: int| 0 <= i < snaps.len() ==> (#[trigger] snaps[i]).record.spec_kind() == kind
}

/// One snapshot's slot: its record's byte layout, zero-padded to the stride.
pub open spec fn slot_bytes(s: Snapshot, kind: EffectKind, align: int) -> Seq<u8> {
    record_bytes(s.record) + zero_bytes(
        (spec_stride(kind, align) - spec_record_size(kind)) as nat,
    )
}

/// The frame's whole uniform buffer: every snapshot's slot, in snapshot
/// order. Zero snapshots give the empty buffer.
pub open spec fn frame_bytes(snaps: Seq<Snapshot>, kind: EffectKind, align: int) -> Seq<u8>
    decreases snaps.len(),
{
    if snaps.len() == 0 {
        Seq::empty()
    } else {
        frame_bytes(snaps.drop_last(), kind, align) + slot_bytes(snaps.last(), kind, align)
    }
}

/// Dropping the last snapshot keeps the remaining records' effect.
proof fn lemma_all_of_kind_drop_last(snaps: Seq<Snapshot>, kind: EffectKind)
    requires
        all_of_kind(snaps, kind),
        snaps.len() > 0,
    ensures
        all_of_kind(snaps.drop_last(), kind),
{
    assert forall|i: int|
        0 <= i < snaps.drop_last().len() implies (#[trigger] snaps.drop_last()[i]).record.spec_kind()
        == kind by {
        assert(snaps.drop_last()[i] == snaps[i]);
    }
}

/// The frame buffer is exactly the snapshot count times the stride long.
pub proof fn lemma_frame_bytes_len(snaps: Seq<Snapshot>, kind: EffectKind, align: int)
    requires
        1 <= align,
        all_of_kind(snaps, kind),
    ensures
        frame_bytes(snaps, kind, align).len() == snaps.len() * spec_stride(kind, align),
    decreases snaps.len(),
{
    let stride = spec_stride(kind, align);
    lemma_round_up(spec_record_size(kind) as int, align);
    if snaps.len() == 0 {
    } else {
        lemma_all_of_kind_drop_last(snaps, kind);
        lemma_frame_bytes_len(snaps.drop_last(), kind, align);
        lemma_record_bytes_len(snaps.last().record);
        assert(snaps.last().record.spec_kind() == kind);
        assert((snaps.len() - 1) * stride + stride == snaps.len() * stride) by (nonlinear_arith);
    }
}

/// Slot `i` of the frame buffer holds exactly snapshot `i`'s record layout,
/// starting at the slot's dynamic offset `i * stride`.
pub proof fn lemma_frame_slot(snaps: Seq<Snapshot>, kind: EffectKind, align: int, i: int)
    requires
        1 <= align,
        all_of_kind(snaps, kind),
        0 <= i < snaps.len(),
    ensures
        frame_bytes(snaps, kind, align).subrange(
            i * spec_stride(kind, align),
            i * spec_stride(kind, align) + spec_record_size(kind),
        ) == record_bytes(snaps[i].record),
    decreases snaps.len(),
{
    let stride = spec_stride(kind, align);
    let size = spec_record_size(kind) as int;
    let off = i * stride;
    lemma_round_up(size, align);
    lemma_all_of_kind_drop_last(snaps, kind);
    lemma_frame_bytes_len(snaps.drop_last(), kind, align);
    lemma_record_bytes_len(snaps.last().record);
    assert(snaps.last().record.spec_kind() == kind);
    let b = frame_bytes(snaps, kind, align);
    let prefix = frame_bytes(snaps.drop_last(), kind, align);
    if i == snaps.len() - 1 {
        assert(off == prefix.len()) by (nonlinear_arith)
            requires
                prefix.len() == (snaps.len() - 1) * stride,
                off == i * stride,
                i == snaps.len() - 1,
        ;
        assert(b.subrange(off, off + size) =~= record_bytes(snaps[i].record));
    } else {
        lemma_frame_slot(snaps.drop_last(), kind, align, i);
        assert(off + size <= prefix.len()) by (nonlinear_arith)
            requires
                prefix.len() == (snaps.len() - 1) * stride,
                off == i * stride,
                0 <= i,
                i + 1 <= snaps.len() - 1,
                size <= stride,
        ;
        assert(snaps.drop_last()[i] == snaps[i]);
        assert(b.subrange(off, off + size) =~= prefix.subrange(off, off + size));
    }
}

/// Reading a slot back through its dynamic offset yields the snapshot's
/// record unchanged: the write-extract-serialize-read round trip is exact.
pub proof fn lemma_frame_slot_roundtrip(snaps: Seq<Snapshot>, kind: EffectKind, align: int, i: int)
    requires
        1 <= align,
        all_of_kind(snaps, kind),
        0 <= i < snaps.len(),
    ensures
        decode_record(
            kind,
            frame_bytes(snaps, kind, align).subrange(
                i * spec_stride(kind, align),
                i * spec_stride(kind, align) + spec_record_size(kind),
            ),
        ) == snaps[i].record,
{
    lemma_frame_slot(snaps, kind, align, i);
    lemma_record_roundtrip(snaps[i].record);
}

/// Slots never overlap: an earlier slot's record ends at or before a later
/// slot begins, so every dynamic index addresses its own bytes.
pub proof fn lemma_slots_disjoint(kind: EffectKind, align: int, i: int, j: int)
    requires
        1 <= align,
        0 <= i < j,
    ensures
        i * spec_stride(kind, align) + spec_record_size(kind) <= j * spec_stride(kind, align),
{
    let stride = spec_stride(kind, align);
    let size = spec_record_size(kind) as int;
    lemma_round_up(size, align);
    assert(i * stride + size <= j * stride) by (nonlinear_arith)
        requires
            0 <= i,
            i + 1 <= j,
            0 < stride,
            size <= stride,
    ;
}

/// Every dynamic index lands on a multiple of the uniform-buffer alignment.
pub proof fn lemma_offsets_aligned(kind: EffectKind, align: int, i: int)
    requires
        1 <= align,
        0 <= i,
    ensures
        (i * spec_stride(kind, align)) % align == 0,
{
    let stride = spec_stride(kind, align);
    lemma_round_up(spec_record_size(kind) as int, align);
    let q = stride / align;
    lemma_fundamental_div_mod(stride, align);
    assert(i * stride == (i * q) * align) by (nonlinear_arith)
        requires
            stride == align * q,
    ;
    lemma_mod_multiples_basic(i * q, align);
}

/// A frame whose simulation state has no camera carrying the effect's record
/// extracts no snapshot and aggregates to the empty buffer.
pub proof fn lemma_no_records_empty_buffer(
    cams: Seq<crate::world::SimCamera>,
    kind: EffectKind,
    align: int,
)
    requires
        count_with_record(cams, kind) == 0,
    ensures
        extracted(cams, kind).len() == 0,
        frame_bytes(extracted(cams, kind), kind, align) == Seq::<u8>::empty(),
{
    lemma_extracted_len(cams, kind);
}

/// The whole frame round trip is exact: a record attached to a camera,
/// extracted, serialized into the frame's buffer and read back through that
/// snapshot's dynamic offset comes back unchanged, and the snapshot itself
/// copies a live camera verbatim.
pub proof fn lemma_frame_reads_back_extracted(
    cams: Seq<crate::world::SimCamera>,
    kind: EffectKind,
    align: int,
    i: int,
)
    requires
        1 <= align,
        0 <= i < extracted(cams, kind).len(),
    ensures
        decode_record(
            kind,
            frame_bytes(extracted(cams, kind), kind, align).subrange(
                i * spec_stride(kind, align),
                i * spec_stride(kind, align) + spec_record_size(kind),
            ),
        ) == extracted(cams, kind)[i].record,
        crate::extract::backed_by_live_camera(cams, kind, extracted(cams, kind)[i]),
{
    lemma_extracted_kinds(cams, kind);
    lemma_frame_slot_roundtrip(extracted(cams, kind), kind, align, i);
    crate::extract::lemma_extracted_from_live_cameras(cams, kind);
}

/// Rebuilding the frame from an unchanged simulation state yields a
/// byte-identical uniform buffer: extraction and aggregation are pure
/// functions of the simulation state.
pub proof fn lemma_rebuild_byte_identical(
    cams: Seq<crate::world::SimCamera>,
    kind: EffectKind,
    align: int,
    first: Seq<u8>,
    second: Seq<u8>,
)
    requires
        first == frame_bytes(extracted(cams, kind), kind, align),
        second == frame_bytes(extracted(cams, kind), kind, align),
    ensures
        first == second,
{
}

/// One effect's uniform buffer for the current frame, with the owning camera
/// and the assigned dynamic index of every slot, in snapshot order. Valid for
/// this frame only; the next frame aggregates afresh.
pub struct UniformFrame {
    pub kind: EffectKind,
    pub alignment: usize,
    pub data: Vec<u8>,
    pub cameras: Vec<u64>,
    pub offsets: Vec<u32>,
}

impl UniformFrame {
    /// Well-formed: one offset per slot, each at its multiple of the stride,
    /// and the buffer exactly filled.
    pub open spec fn wf(self) -> bool {
        &&& 1 <= self.alignment
        &&& self.offsets@.len() == self.cameras@.len()
        &&& self.data@.len() == self.cameras@.len() * spec_stride(self.kind, self.alignment as int)
        &&& forall|i: int|
            0 <= i < self.offsets@.len() ==> #[trigger] self.offsets@[i] == i * spec_stride(
                self.kind,
                self.alignment as int,
            )
    }

    /// The dynamic index this frame assigned to the given camera's snapshot,
    /// if the camera contributed one.
    pub fn dynamic_index_of(&self, camera: u64) -> (r: Option<u32>)
        requires
            self.wf(),
        ensures
            match r {
                Some(off) => exists|i: int|
                    0 <= i < self.cameras@.len() && #[trigger] self.cameras@[i] == camera
                        && self.offsets@[i] == off,
                None => forall|i: int|
                    0 <= i < self.cameras@.len() ==> #[trigger] self.cameras@[i] != camera,
            },
    {
        let mut i: usize = 0;
        while i < self.cameras.len()
            invariant
                i <= self.cameras@.len(),
                self.offsets@.len() == self.cameras@.len(),
                forall|k: int| 0 <= k < i ==> #[trigger] self.cameras@[k] != camera,
            decreases self.cameras@.len() - i,
        {
            if self.cameras[i] == camera {
                return Some(self.offsets[i]);
            }
            i = i + 1;
        }
        None
    }
}

/// Runs the Uniform Aggregator: serializes every snapshot into one buffer at
/// stride-aligned slots and assigns each its dynamic index. Supports any
/// snapshot count, including zero (empty buffer, no offsets).
pub fn aggregate(snaps: &Vec<Snapshot>, kind: EffectKind, alignment: usize) -> (frame: UniformFrame)
    requires
        1 <= alignment,
        spec_record_size(kind) + alignment <= usize::MAX,
        snaps@.len() * spec_stride(kind, alignment as int) <= u32::MAX,
        all_of_kind(snaps@, kind),
    ensures
        frame.wf(),
        frame.kind == kind,
        frame.alignment == alignment,
        frame.data@ == frame_bytes(snaps@, kind, alignment as int),
        frame.cameras@.len() == snaps@.len(),
        frame.offsets@.len() == snaps@.len(),
        forall|i: int|
            0 <= i < snaps@.len() ==> #[trigger] frame.cameras@[i] == snaps@[i].camera,
        forall|i: int|
            0 <= i < snaps@.len() ==> #[trigger] frame.offsets@[i] == i * spec_stride(
                kind,
                alignment as int,
            ),
{
    let size = record_size(kind);
    let stride = round_up(size, alignment);
    proof {
        lemma_round_up(size as int, alignment as int);
    }
    let mut data: Vec<u8> = Vec::new();
    let mut cameras: Vec<u64> = Vec::new();
    let mut offsets: Vec<u32> = Vec::new();
    let mut i: usize = 0;
    while i < snaps.len()
        invariant
            i <= snaps@.len(),
            1 <= alignment,
            stride == spec_stride(kind, alignment as int),
            size == spec_record_size(kind),
            size <= stride,
            snaps@.len() * stride <= u32::MAX,
            all_of_kind(snaps@, kind),
            data@ == frame_bytes(snaps@.take(i as int), kind, alignment as int),
            data@.len() == i * stride,
            cameras@.len() == i,
            offsets@.len() == i,
            forall|k: int| 0 <= k < i ==> #[trigger] cameras@[k] == snaps@[k].camera,
            forall|k: int|
                0 <= k < i ==> #[trigger] offsets@[k] == k * spec_stride(kind, alignment as int),
        decreases snaps@.len() - i,
    {
        proof {
            assert(i * stride <= snaps@.len() * stride) by (nonlinear_arith)
                requires
                    0 <= i <= snaps@.len(),
                    0 <= stride,
            ;
        }
        let offset: u32 = (i * stride) as u32;
        let snap = snaps[i];
        let mut rec = serialize_record(&snap.record);
        proof {
            assert(snap.record.spec_kind() == kind);
        }
        data.append(&mut rec);
        push_zero_pad(&mut data, stride - size);
        cameras.push(snap.camera);
        offsets.push(offset);
        proof {
            assert(snaps@.take(i + 1).drop_last() =~= snaps@.take(i as int));
            assert(snaps@.take(i + 1).last() == snaps@[i as int]);
            assert(data@ =~= frame_bytes(snaps@.take(i + 1), kind, alignment as int));
            assert((i + 1) * stride == i * stride + stride) by (nonlinear_arith);
        }
        i = i + 1;
    }
    proof {
        assert(snaps@.take(snaps@.len() as int) =~= snaps@);
    }
    UniformFrame { kind, alignment, data, cameras, offsets }
}

/// Builds one effect's whole uniform frame from the simulation state:
/// extraction followed by aggregation, the once-per-frame pipeline front end.
pub fn build_effect_frame(world: &SimWorld, kind: EffectKind, alignment: usize) -> (frame:
    UniformFrame)
    requires
        1 <= alignment,
        spec_record_size(kind) + alignment <= usize::MAX,
        count_with_record(world.cameras@, kind) * spec_stride(kind, alignment as int)
            <= u32::MAX,
    ensures
        frame.wf(),
        frame.kind == kind,
        frame.alignment == alignment,
        frame.data@ == frame_bytes(extracted(world.cameras@, kind), kind, alignment as int),
        frame.cameras@.len() == extracted(world.cameras@, kind).len(),
        forall|i: int|
            0 <= i < frame.cameras@.len() ==> #[trigger] frame.cameras@[i] == extracted(
                world.cameras@,
                kind,
            )[i].camera,
        forall|i: int|
            0 <= i < frame.offsets@.len() ==> #[trigger] frame.offsets@[i] == i * spec_stride(
                kind,
                alignment as int,
            ),
{
    let snaps = extract(world, kind);
    proof {
        lemma_extracted_len(world.cameras@, kind);
        lemma_extracted_kinds(world.cameras@, kind);
    }
    aggregate(&snaps, kind, alignment)
}

} // verus!
