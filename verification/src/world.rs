//! Simulation-side state: camera entities and the effect settings records
//! attached to them.
//!
//! Gameplay systems mutate this state freely during the simulation phase of a
//! frame; the extraction stage reads it at the synchronization point and never
//! writes back. Attaching and removing records is the only simulation-side
//! interface the pipeline depends on.

use vstd::prelude::*;
use vstd::pervasive::VecAdditionalExecFns;
use crate::settings::{EffectKind, EffectRecord, Vec3Words};

verus! {

/// One camera entity: its identity, whether it is the designated primary
/// view, whether depth and normal prepass textures are rendered for it, and
/// at most one settings record per effect.
#[derive(Clone, Copy, Debug)]
pub struct SimCamera {
    pub id: u64,
    pub is_primary: bool,
    pub has_prepass: bool,
    pub chromatic: Option<crate::settings::ChromaticAberrationSettings>,
    pub outline: Option<crate::settings::OutlineSettings>,
    pub nebula: Option<crate::settings::VolumetricNebulaSettings>,
}

impl SimCamera {
    /// Creates a camera carrying no effect records.
    pub fn new(id: u64, is_primary: bool, has_prepass: bool) -> (c: SimCamera)
        ensures
            c.id == id,
            c.is_primary == is_primary,
            c.has_prepass == has_prepass,
            c.chromatic is None,
            c.outline is None,
            c.nebula is None,
    {
        SimCamera { id, is_primary, has_prepass, chromatic: None, outline: None, nebula: None }
    }

    /// The record of the given effect attached to this camera, if any.
    pub open spec fn spec_record_of(self, kind: EffectKind) -> Option<EffectRecord> {
        match kind {
            EffectKind::ChromaticAberration => match self.chromatic {
                Some(s) => Some(EffectRecord::ChromaticAberration(s)),
                None => None,
            },
            EffectKind::Outline => match self.outline {
                Some(s) => Some(EffectRecord::Outline(s)),
                None => None,
            },
            EffectKind::VolumetricNebula => match self.nebula {
                Some(s) => Some(EffectRecord::VolumetricNebula(s)),
                None => None,
            },
        }
    }

    /// Returns the record of the given effect attached to this camera, if any.
    pub fn record_of(&self, kind: EffectKind) -> (r: Option<EffectRecord>)
        ensures
            r == self.spec_record_of(kind),
    {
        match kind {
            EffectKind::ChromaticAberration => match self.chromatic {
                Some(s) => Some(EffectRecord::ChromaticAberration(s)),
                None => None,
            },
            EffectKind::Outline => match self.outline {
                Some(s) => Some(EffectRecord::Outline(s)),
                None => None,
            },
            EffectKind::VolumetricNebula => match self.nebula {
                Some(s) => Some(EffectRecord::VolumetricNebula(s)),
                None => None,
            },
        }
    }

    /// This camera with the record's effect slot replaced by `rec`. At most
    /// one record of a given effect stays attached per camera.
    pub open spec fn spec_with_record(self, rec: EffectRecord) -> SimCamera {
        match rec {
            EffectRecord::ChromaticAberration(s) => SimCamera { chromatic: Some(s), ..self },
            EffectRecord::Outline(s) => SimCamera { outline: Some(s), ..self },
            EffectRecord::VolumetricNebula(s) => SimCamera { nebula: Some(s), ..self },
        }
    }

    /// This camera with the given effect's slot emptied.
    pub open spec fn spec_without_record(self, kind: EffectKind) -> SimCamera {
        match kind {
            EffectKind::ChromaticAberration => SimCamera { chromatic: None, ..self },
            EffectKind::Outline => SimCamera { outline: None, ..self },
            EffectKind::VolumetricNebula => SimCamera { nebula: None, ..self },
        }
    }
}

/// Whether some camera of `cams` has the identifier `id`.
pub open spec fn has_camera(cams: Seq<SimCamera>, id: u64) -> bool {
    exists|k: int| 0 <= k < cams.len() && cams[k].id == id
}

/// Whether some camera of `cams` has the identifier `id` and carries a
/// volumetric nebula record.
pub open spec fn camera_has_nebula(cams: Seq<SimCamera>, id: u64) -> bool {
    exists|k: int| 0 <= k < cams.len() && #[trigger] cams[k].id == id && cams[k].nebula is Some
}

/// How many cameras of `cams` are tagged as the primary view.
pub open spec fn count_primary(cams: Seq<SimCamera>) -> nat
    decreases cams.len(),
{
    if cams.len() == 0 {
        0
    } else {
        count_primary(cams.drop_last()) + if cams.last().is_primary {
            1nat
        } else {
            0nat
        }
    }
}

/// Why no single primary camera could be resolved.
#[derive(Clone, Copy, Debug, PartialEq, Eq, Structural)]
pub enum PrimaryCameraError {
    /// No camera is tagged as the primary view.
    NoPrimary,
    /// More than one camera is tagged as the primary view.
    MultiplePrimaries,
}

/// The simulation state the pipeline reads: every live camera entity.
#[derive(Debug)]
pub struct SimWorld {
    pub cameras: Vec<SimCamera>,
}

impl SimWorld {
    /// Well-formed: camera identifiers are unique.
    pub open spec fn wf(self) -> bool {
        forall|i: int, j: int|
            0 <= i < j < self.cameras@.len() ==> self.cameras@[i].id != self.cameras@[j].id
    }

    /// Creates an empty simulation state.
    pub fn new() -> (w: SimWorld)
        ensures
            w.wf(),
            w.cameras@.len() == 0,
    {
        SimWorld { cameras: Vec::new() }
    }

    /// Finds the position of the camera with the given identifier.
    pub fn find_camera(&self, id: u64) -> (r: Option<usize>)
        ensures
            match r {
                Some(i) => i < self.cameras@.len() && self.cameras@[i as int].id == id,
                None => !has_camera(self.cameras@, id),
            },
    {
        let mut i: usize = 0;
        while i < self.cameras.len()
            invariant
                i <= self.cameras@.len(),
                forall|k: int| 0 <= k < i ==> self.cameras@[k].id != id,
            decreases self.cameras@.len() - i,
        {
            if self.cameras[i].id == id {
                return Some(i);
            }
            i = i + 1;
        }
        None
    }

    /// Spawns a camera with a fresh identifier; a taken identifier is
    /// refused and the state left unchanged.
    pub fn spawn_camera(&mut self, id: u64, is_primary: bool, has_prepass: bool) -> (ok: bool)
        ensures
            ok == !has_camera(old(self).cameras@, id),
            ok ==> final(self).cameras@ == old(self).cameras@.push(
                SimCamera {
                    id,
                    is_primary,
                    has_prepass,
                    chromatic: None,
                    outline: None,
                    nebula: None,
                },
            ),
            !ok ==> *final(self) == *old(self),
            old(self).wf() ==> final(self).wf(),
    {
        match self.find_camera(id) {
            Some(_) => false,
            None => {
                self.cameras.push(SimCamera::new(id, is_primary, has_prepass));
                true
            },
        }
    }

    /// Despawns the camera with the given identifier, dropping its records
    /// with it; despawning an unknown camera is a no-op.
    pub fn despawn_camera(&mut self, id: u64) -> (ok: bool)
        ensures
            ok == has_camera(old(self).cameras@, id),
            ok ==> exists|k: int|
                0 <= k < old(self).cameras@.len() && old(self).cameras@[k].id == id && final(self).cameras@ == old(self).cameras@.remove(k),
            !ok ==> *final(self) == *old(self),
            old(self).wf() ==> final(self).wf(),
    {
        match self.find_camera(id) {
            Some(i) => {
                self.cameras.remove(i);
                proof {
                    if old(self).wf() {
                        let oc = old(self).cameras@;
                        let nc = self.cameras@;
                        assert forall|a: int, b: int|
                            0 <= a < b < nc.len() implies nc[a].id != nc[b].id by {
                            assert(nc[a] == if a < i as int {
                                oc[a]
                            } else {
                                oc[a + 1]
                            });
                            assert(nc[b] == if b < i as int {
                                oc[b]
                            } else {
                                oc[b + 1]
                            });
                        }
                    }
                }
                true
            },
            None => false,
        }
    }

    /// Attaches (or replaces) the record's effect settings on the given
    /// camera. Reports whether the camera exists.
    pub fn attach_record(&mut self, camera: u64, rec: EffectRecord) -> (ok: bool)
        ensures
            ok == has_camera(old(self).cameras@, camera),
            ok ==> exists|k: int|
                0 <= k < old(self).cameras@.len() && old(self).cameras@[k].id == camera && final(self).cameras@ == old(self).cameras@.update(
                    k,
                    old(self).cameras@[k].spec_with_record(rec),
                ),
            !ok ==> *final(self) == *old(self),
            old(self).wf() ==> final(self).wf(),
    {
        match self.find_camera(camera) {
            Some(i) => {
                let mut c = self.cameras[i];
                c = match rec {
                    EffectRecord::ChromaticAberration(s) => SimCamera { chromatic: Some(s), ..c },
                    EffectRecord::Outline(s) => SimCamera { outline: Some(s), ..c },
                    EffectRecord::VolumetricNebula(s) => SimCamera { nebula: Some(s), ..c },
                };
                self.cameras.set(i, c);
                true
            },
            None => false,
        }
    }

    /// Removes the given effect's record from the given camera, if attached.
    /// Reports whether the camera exists.
    pub fn remove_record(&mut self, camera: u64, kind: EffectKind) -> (ok: bool)
        ensures
            ok == has_camera(old(self).cameras@, camera),
            ok ==> exists|k: int|
                0 <= k < old(self).cameras@.len() && old(self).cameras@[k].id == camera && final(self).cameras@ == old(self).cameras@.update(
                    k,
                    old(self).cameras@[k].spec_without_record(kind),
                ),
            !ok ==> *final(self) == *old(self),
            old(self).wf() ==> final(self).wf(),
    {
        match self.find_camera(camera) {
            Some(i) => {
                let mut c = self.cameras[i];
                c = match kind {
                    EffectKind::ChromaticAberration => SimCamera { chromatic: None, ..c },
                    EffectKind::Outline => SimCamera { outline: None, ..c },
                    EffectKind::VolumetricNebula => SimCamera { nebula: None, ..c },
                };
                self.cameras.set(i, c);
                true
            },
            None => false,
        }
    }

    /// Resolves the one camera tagged as the primary view; zero or several
    /// such cameras are an error, never an arbitrary pick.
    pub fn primary_camera(&self) -> (r: Result<u64, PrimaryCameraError>)
        ensures
            r is Ok <==> count_primary(self.cameras@) == 1,
            (r == Result::<u64, PrimaryCameraError>::Err(PrimaryCameraError::NoPrimary))
                <==> count_primary(self.cameras@) == 0,
            (r == Result::<u64, PrimaryCameraError>::Err(PrimaryCameraError::MultiplePrimaries))
                <==> count_primary(self.cameras@) >= 2,
            r is Ok ==> count_primary(self.cameras@) == 1 && exists|k: int|
                0 <= k < self.cameras@.len() && self.cameras@[k].is_primary
                    && self.cameras@[k].id == r->Ok_0,
    {
        let mut found: Option<u64> = None;
        let mut i: usize = 0;
        while i < self.cameras.len()
            invariant
                i <= self.cameras@.len(),
                match found {
                    Some(id) => count_primary(self.cameras@.take(i as int)) == 1 && exists|k: int|
                        0 <= k < i && self.cameras@[k].is_primary && self.cameras@[k].id == id,
                    None => count_primary(self.cameras@.take(i as int)) == 0,
                },
            decreases self.cameras@.len() - i,
        {
            proof {
                assert(self.cameras@.take(i + 1).drop_last() =~= self.cameras@.take(i as int));
                assert(self.cameras@.take(i + 1).last() == self.cameras@[i as int]);
            }
            if self.cameras[i].is_primary {
                if found.is_some() {
                    proof {
                        lemma_count_primary_grows(self.cameras@, i + 1);
                    }
                    return Err(PrimaryCameraError::MultiplePrimaries);
                }
                found = Some(self.cameras[i].id);
            }
            i = i + 1;
        }
        proof {
            assert(self.cameras@.take(self.cameras@.len() as int) =~= self.cameras@);
        }
        match found {
            Some(id) => Ok(id),
            None => Err(PrimaryCameraError::NoPrimary),
        }
    }

    /// Attaches a record to the one primary camera, as an effect does at
    /// startup. With zero or several primary cameras nothing is attached and
    /// the cardinality error is reported, never an arbitrary pick.
    pub fn attach_to_primary(&mut self, rec: EffectRecord) -> (r: Result<
        u64,
        PrimaryCameraError,
    >)
        requires
            old(self).wf(),
        ensures
            final(self).wf(),
            r is Ok <==> count_primary(old(self).cameras@) == 1,
            r is Err ==> *final(self) == *old(self),
            r matches Ok(id) ==> exists|k: int|
                0 <= k < old(self).cameras@.len() && #[trigger] old(self).cameras@[k].id == id
                    && old(self).cameras@[k].is_primary && final(self).cameras@ == old(
                    self,
                ).cameras@.update(k, old(self).cameras@[k].spec_with_record(rec)),
            (r == Result::<u64, PrimaryCameraError>::Err(PrimaryCameraError::NoPrimary)) <==>
                count_primary(old(self).cameras@) == 0,
            (r == Result::<u64, PrimaryCameraError>::Err(PrimaryCameraError::MultiplePrimaries))
                <==> count_primary(old(self).cameras@) >= 2,
    {
        match self.primary_camera() {
            Ok(id) => {
                let ghost k0 = choose|k: int|
                    0 <= k < self.cameras@.len() && self.cameras@[k].is_primary
                        && self.cameras@[k].id == id;
                let attached = self.attach_record(id, rec);
                assert(attached);
                proof {
                    let k = choose|k: int|
                        0 <= k < old(self).cameras@.len() && old(self).cameras@[k].id == id
                            && final(self).cameras@ == old(self).cameras@.update(
                            k,
                            old(self).cameras@[k].spec_with_record(rec),
                        );
                    assert(k == k0);
                    assert(old(self).cameras@[k].is_primary);
                }
                Ok(id)
            },
            Err(e) => Err(e),
        }
    }

    /// Refreshes the per-frame fields of one camera's nebula record from the
    /// camera's transform and the wrapped elapsed time, as the settings
    /// update system does every frame. A camera without the record is left
    /// alone and reported.
    pub fn update_nebula_from_camera(
        &mut self,
        camera: u64,
        position: Vec3Words,
        right: Vec3Words,
        up: Vec3Words,
        forward: Vec3Words,
        time: u32,
    ) -> (ok: bool)
        requires
            old(self).wf(),
        ensures
            final(self).wf(),
            ok == camera_has_nebula(old(self).cameras@, camera),
            ok ==> exists|k: int|
                0 <= k < old(self).cameras@.len() && #[trigger] old(self).cameras@[k].id == camera
                    && old(self).cameras@[k].nebula is Some && final(self).cameras@ == old(
                    self,
                ).cameras@.update(
                    k,
                    old(self).cameras@[k].spec_with_record(
                        EffectRecord::VolumetricNebula(
                            crate::settings::spec_updated_from_camera(
                                old(self).cameras@[k].nebula->Some_0,
                                position,
                                right,
                                up,
                                forward,
                                time,
                            ),
                        ),
                    ),
                ),
            !ok ==> *final(self) == *old(self),
    {
        match self.find_camera(camera) {
            Some(i) => {
                let c = self.cameras[i];
                match c.nebula {
                    Some(settings) => {
                        let mut updated = settings;
                        updated.update_from_camera(position, right, up, forward, time);
                        self.cameras.set(i, SimCamera { nebula: Some(updated), ..c });
                        true
                    },
                    None => {
                        proof {
                            if camera_has_nebula(old(self).cameras@, camera) {
                                let k = choose|k: int|
                                    0 <= k < old(self).cameras@.len() && old(
                                        self,
                                    ).cameras@[k].id == camera && old(
                                        self,
                                    ).cameras@[k].nebula is Some;
                                assert(old(self).cameras@[i as int].id == camera);
                            }
                        }
                        false
                    },
                }
            },
            None => false,
        }
    }

    /// Captures the scene light's direction into one camera's nebula record,
    /// once the light exists after startup. A camera without the record is
    /// left alone and reported.
    pub fn capture_light_direction(&mut self, camera: u64, direction: Vec3Words) -> (ok: bool)
        requires
            old(self).wf(),
        ensures
            final(self).wf(),
            ok == camera_has_nebula(old(self).cameras@, camera),
            ok ==> exists|k: int|
                0 <= k < old(self).cameras@.len() && #[trigger] old(self).cameras@[k].id == camera
                    && old(self).cameras@[k].nebula is Some && final(self).cameras@ == old(
                    self,
                ).cameras@.update(
                    k,
                    old(self).cameras@[k].spec_with_record(
                        EffectRecord::VolumetricNebula(
                            crate::settings::spec_with_light_direction(
                                old(self).cameras@[k].nebula->Some_0,
                                direction,
                            ),
                        ),
                    ),
                ),
            !ok ==> *final(self) == *old(self),
    {
        match self.find_camera(camera) {
            Some(i) => {
                let c = self.cameras[i];
                match c.nebula {
                    Some(settings) => {
                        let mut updated = settings;
                        updated.set_light_direction(direction);
                        self.cameras.set(i, SimCamera { nebula: Some(updated), ..c });
                        true
                    },
                    None => {
                        proof {
                            if camera_has_nebula(old(self).cameras@, camera) {
                                let k = choose|k: int|
                                    0 <= k < old(self).cameras@.len() && old(
                                        self,
                                    ).cameras@[k].id == camera && old(
                                        self,
                                    ).cameras@[k].nebula is Some;
                                assert(old(self).cameras@[i as int].id == camera);
                            }
                        }
                        false
                    },
                }
            },
            None => false,
        }
    }
}

/// Extending the counted prefix never lowers the primary-camera count.
proof fn lemma_count_primary_grows(cams: Seq<SimCamera>, n: int)
    requires
        0 <= n <= cams.len(),
    ensures
        count_primary(cams.take(n)) <= count_primary(cams),
    decreases cams.len() - n,
{
    if n == cams.len() {
        assert(cams.take(n) =~= cams);
    } else {
        assert(cams.take(n + 1).drop_last() =~= cams.take(n));
        lemma_count_primary_grows(cams, n + 1);
    }
}

} // verus!
