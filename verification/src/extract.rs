//! Extraction stage: the one-way, once-per-frame copy of effect settings from
//! simulation state into render-side snapshots.
//!
//! Extraction runs at the synchronization point between the simulation update
//! and render-graph execution, with a full and consistent view of the
//! simulation state. For every camera carrying a record of the tracked effect
//! it produces exactly one snapshot, field values verbatim; cameras without
//! the record yield nothing. Snapshots never outlive the frame: the next
//! frame extracts afresh, so no snapshot of a despawned camera is retained.

use vstd::prelude::*;
use crate::settings::{EffectKind, EffectRecord};
use crate::world::{SimCamera, SimWorld};

verus! {

/// A copy of one camera's effect record taken at the synchronization point,
/// with the owning camera's identity and prepass availability. Owned by the
/// render side; discarded and recreated every frame.
#[derive(Clone, Copy, Debug, PartialEq, Eq, Structural)]
pub struct Snapshot {
    pub camera: u64,
    pub has_prepass: bool,
    pub record: EffectRecord,
}

/// The snapshots extracted from `cams` for one effect: one per camera
/// carrying its record, in camera order, field values verbatim.
pub open spec fn extracted(cams: Seq<SimCamera>, kind: EffectKind) -> Seq<Snapshot>
    decreases cams.len(),
{
    if cams.len() == 0 {
        Seq::empty()
    } else {
        extracted(cams.drop_last(), kind) + match cams.last().spec_record_of(kind) {
            Some(rec) => seq![
                Snapshot {
                    camera: cams.last().id,
                    has_prepass: cams.last().has_prepass,
                    record: rec,
                },
            ],
            None => Seq::empty(),
        }
    }
}

/// How many cameras of `cams` carry a record of the given effect.
pub open spec fn count_with_record(cams: Seq<SimCamera>, kind: EffectKind) -> nat
    decreases cams.len(),
{
    if cams.len() == 0 {
        0
    } else {
        count_with_record(cams.drop_last(), kind) + if cams.last().spec_record_of(kind) is Some {
            1nat
        } else {
            0nat
        }
    }
}

/// Extraction yields exactly one snapshot per camera carrying the record: no
/// camera with the record is missed, none is duplicated, and zero carrying
/// cameras yield zero snapshots.
pub proof fn lemma_extracted_len(cams: Seq<SimCamera>, kind: EffectKind)
    ensures
        extracted(cams, kind).len() == count_with_record(cams, kind),
    decreases cams.len(),
{
    if cams.len() > 0 {
        lemma_extracted_len(cams.drop_last(), kind);
    }
}

/// Every extracted snapshot carries a record of the extracted effect.
pub proof fn lemma_extracted_kinds(cams: Seq<SimCamera>, kind: EffectKind)
    ensures
        forall|i: int|
            0 <= i < extracted(cams, kind).len() ==> #[trigger] extracted(cams, kind)[i]
                .record.spec_kind() == kind,
    decreases cams.len(),
{
    if cams.len() > 0 {
        lemma_extracted_kinds(cams.drop_last(), kind);
    }
}

/// Whether some camera of `cams` backs the snapshot `s` verbatim: same
/// identity, exactly `s`'s record attached, same prepass availability.
pub open spec fn backed_by_live_camera(cams: Seq<SimCamera>, kind: EffectKind, s: Snapshot) -> bool {
    exists|k: int|
        0 <= k < cams.len() && #[trigger] cams[k].id == s.camera && cams[k].spec_record_of(kind)
            == Some(s.record) && cams[k].has_prepass == s.has_prepass
}

/// Every extracted snapshot copies a live camera verbatim: no stale snapshot
/// is produced, and no field is altered on the way.
pub proof fn lemma_extracted_from_live_cameras(cams: Seq<SimCamera>, kind: EffectKind)
    ensures
        forall|i: int|
            0 <= i < extracted(cams, kind).len() ==> backed_by_live_camera(
                cams,
                kind,
                #[trigger] extracted(cams, kind)[i],
            ),
    decreases cams.len(),
{
    if cams.len() > 0 {
        lemma_extracted_from_live_cameras(cams.drop_last(), kind);
        let e = extracted(cams, kind);
        let ed = extracted(cams.drop_last(), kind);
        assert forall|i: int| 0 <= i < e.len() implies backed_by_live_camera(
            cams,
            kind,
            #[trigger] e[i],
        ) by {
            if i < ed.len() {
                assert(backed_by_live_camera(cams.drop_last(), kind, ed[i]));
                let k = choose|k: int|
                    0 <= k < cams.drop_last().len() && #[trigger] cams.drop_last()[k].id
                        == ed[i].camera && cams.drop_last()[k].spec_record_of(kind) == Some(
                        ed[i].record,
                    ) && cams.drop_last()[k].has_prepass == ed[i].has_prepass;
                assert(cams[k] == cams.drop_last()[k]);
            } else {
                let k = cams.len() - 1;
                assert(cams[k] == cams.last());
            }
        }
    }
}

/// Whether some camera of `cams` with identifier `id` carries a record of
/// the given effect.
pub open spec fn camera_carries(cams: Seq<SimCamera>, kind: EffectKind, id: u64) -> bool {
    exists|k: int|
        0 <= k < cams.len() && #[trigger] cams[k].id == id && cams[k].spec_record_of(kind) is Some
}

/// A camera contributes a snapshot exactly when it carries the record: a
/// camera lacking the record yields none, so no draw can bind for it.
pub proof fn lemma_extraction_membership(cams: Seq<SimCamera>, kind: EffectKind, id: u64)
    ensures
        camera_carries(cams, kind, id) <==> exists|i: int|
            0 <= i < extracted(cams, kind).len() && #[trigger] extracted(cams, kind)[i].camera
                == id,
    decreases cams.len(),
{
    let e = extracted(cams, kind);
    if cams.len() == 0 {
    } else {
        lemma_extraction_membership(cams.drop_last(), kind, id);
        let ed = extracted(cams.drop_last(), kind);
        if camera_carries(cams, kind, id) {
            let k = choose|k: int|
                0 <= k < cams.len() && #[trigger] cams[k].id == id && cams[k].spec_record_of(
                    kind,
                ) is Some;
            if k == cams.len() - 1 {
                assert(cams[k] == cams.last());
                assert(e[e.len() - 1].camera == id);
            } else {
                assert(cams.drop_last()[k] == cams[k]);
                assert(camera_carries(cams.drop_last(), kind, id));
                let i = choose|i: int| 0 <= i < ed.len() && #[trigger] ed[i].camera == id;
                assert(e[i].camera == id);
            }
        }
        if exists|i: int| 0 <= i < e.len() && #[trigger] e[i].camera == id {
            let i = choose|i: int| 0 <= i < e.len() && #[trigger] e[i].camera == id;
            if i < ed.len() {
                assert(ed[i].camera == id);
                let k = choose|k: int|
                    0 <= k < cams.drop_last().len() && #[trigger] cams.drop_last()[k].id == id
                        && cams.drop_last()[k].spec_record_of(kind) is Some;
                assert(cams[k] == cams.drop_last()[k]);
            } else {
                assert(cams.last().spec_record_of(kind) is Some);
                assert(cams.last().id == id);
                assert(cams[cams.len() - 1] == cams.last());
            }
        }
    }
}

/// Runs the extraction stage for one effect over the frame's simulation
/// state, copying each carrying camera's record into a fresh snapshot.
pub fn extract(world: &SimWorld, kind: EffectKind) -> (snaps: Vec<Snapshot>)
    ensures
        snaps@ == extracted(world.cameras@, kind),
{
    let mut snaps: Vec<Snapshot> = Vec::new();
    let mut i: usize = 0;
    while i < world.cameras.len()
        invariant
            i <= world.cameras@.len(),
            snaps@ == extracted(world.cameras@.take(i as int), kind),
        decreases world.cameras@.len() - i,
    {
        proof {
            assert(world.cameras@.take(i + 1).drop_last() =~= world.cameras@.take(i as int));
            assert(world.cameras@.take(i + 1).last() == world.cameras@[i as int]);
        }
        let cam = world.cameras[i];
        match cam.record_of(kind) {
            Some(rec) => {
                snaps.push(Snapshot { camera: cam.id, has_prepass: cam.has_prepass, record: rec });
                proof {
                    assert(snaps@ =~= extracted(world.cameras@.take(i + 1), kind));
                }
            },
            None => {
                proof {
                    assert(snaps@ =~= extracted(world.cameras@.take(i + 1), kind));
                }
            },
        }
        i = i + 1;
    }
    proof {
        assert(world.cameras@.take(world.cameras@.len() as int) =~= world.cameras@);
    }
    snaps
}

} // verus!
