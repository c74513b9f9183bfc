//! Render graph wiring: one node per effect at a fixed place in the frame's
//! node order.
//!
//! Every effect node is registered with the same pair of edges — after tone
//! mapping and before the end of post-processing — so the nodes execute
//! between those two anchors, in registration order, each consuming the
//! previous node's output through the view-target swap.

use vstd::prelude::*;
use crate::settings::EffectKind;

verus! {

/// A node label in the frame's post-processing section of the render graph.
#[derive(Clone, Copy, Debug, PartialEq, Eq, Structural)]
pub enum NodeLabel {
    /// The upstream anchor: the tone-mapping node every effect follows.
    Tonemapping,
    /// One registered full-screen effect node.
    Effect(EffectKind),
    /// The downstream anchor every effect precedes.
    EndMainPassPostProcessing,
}

/// The execution order the graph schedules: the tone-mapping anchor, every
/// registered effect in registration order, then the closing anchor.
pub open spec fn spec_execution_order(effects: Seq<EffectKind>) -> Seq<NodeLabel> {
    seq![NodeLabel::Tonemapping] + effects.map_values(|k: EffectKind| NodeLabel::Effect(k))
        + seq![NodeLabel::EndMainPassPostProcessing]
}

/// The post-processing section of the render graph: the effect nodes
/// registered between the two anchors, in registration order.
#[derive(Debug)]
pub struct RenderGraph {
    pub effects: Vec<EffectKind>,
}

impl RenderGraph {
    /// Well-formed: one node per effect at most.
    pub open spec fn wf(self) -> bool {
        forall|i: int, j: int|
            0 <= i < j < self.effects@.len() ==> self.effects@[i] != self.effects@[j]
    }

    /// Creates a graph with the two anchors and no effect node yet.
    pub fn new() -> (g: RenderGraph)
        ensures
            g.wf(),
            g.effects@.len() == 0,
    {
        RenderGraph { effects: Vec::new() }
    }

    /// Whether the effect's node is registered.
    pub open spec fn spec_has_effect(self, kind: EffectKind) -> bool {
        exists|i: int| 0 <= i < self.effects@.len() && self.effects@[i] == kind
    }

    /// Finds the registered position of the effect's node.
    pub fn find_effect(&self, kind: EffectKind) -> (r: Option<usize>)
        ensures
            match r {
                Some(i) => i < self.effects@.len() && self.effects@[i as int] == kind,
                None => !self.spec_has_effect(kind),
            },
    {
        let mut i: usize = 0;
        while i < self.effects.len()
            invariant
                i <= self.effects@.len(),
                forall|k: int| 0 <= k < i ==> self.effects@[k] != kind,
            decreases self.effects@.len() - i,
        {
            if self.effects[i] == kind {
                return Some(i);
            }
            i = i + 1;
        }
        None
    }

    /// Registers the effect's node with edges from the tone-mapping anchor
    /// and to the closing anchor, appending it to the execution order; a
    /// second registration of the same effect is refused.
    pub fn register_effect(&mut self, kind: EffectKind) -> (ok: bool)
        ensures
            ok == !old(self).spec_has_effect(kind),
            ok ==> final(self).effects@ == old(self).effects@.push(kind),
            !ok ==> *final(self) == *old(self),
            old(self).wf() ==> final(self).wf(),
    {
        match self.find_effect(kind) {
            Some(_) => false,
            None => {
                self.effects.push(kind);
                true
            },
        }
    }

    /// Removes the effect's node, leaving every other node where it was; an
    /// unregistered effect is a no-op.
    pub fn remove_effect(&mut self, kind: EffectKind) -> (ok: bool)
        ensures
            ok == old(self).spec_has_effect(kind),
            ok ==> exists|i: int|
                0 <= i < old(self).effects@.len() && old(self).effects@[i] == kind
                    && final(self).effects@ == old(self).effects@.remove(i),
            !ok ==> *final(self) == *old(self),
            old(self).wf() ==> final(self).wf(),
    {
        match self.find_effect(kind) {
            Some(i) => {
                self.effects.remove(i);
                proof {
                    if old(self).wf() {
                        let oe = old(self).effects@;
                        let ne = self.effects@;
                        assert forall|a: int, b: int|
                            0 <= a < b < ne.len() implies ne[a] != ne[b] by {
                            assert(ne[a] == if a < i as int {
                                oe[a]
                            } else {
                                oe[a + 1]
                            });
                            assert(ne[b] == if b < i as int {
                                oe[b]
                            } else {
                                oe[b + 1]
                            });
                        }
                    }
                }
                true
            },
            None => false,
        }
    }

    /// Returns the execution order the graph schedules this frame: the
    /// anchors around every registered effect node, in registration order.
    pub fn execution_order(&self) -> (order: Vec<NodeLabel>)
        ensures
            order@ == spec_execution_order(self.effects@),
    {
        let mut order: Vec<NodeLabel> = Vec::new();
        order.push(NodeLabel::Tonemapping);
        let mut i: usize = 0;
        while i < self.effects.len()
            invariant
                i <= self.effects@.len(),
                order@ == seq![NodeLabel::Tonemapping] + self.effects@.take(
                    i as int,
                ).map_values(|k: EffectKind| NodeLabel::Effect(k)),
            decreases self.effects@.len() - i,
        {
            order.push(NodeLabel::Effect(self.effects[i]));
            proof {
                assert(order@ =~= seq![NodeLabel::Tonemapping] + self.effects@.take(
                    i + 1,
                ).map_values(|k: EffectKind| NodeLabel::Effect(k)));
            }
            i = i + 1;
        }
        order.push(NodeLabel::EndMainPassPostProcessing);
        proof {
            assert(self.effects@.take(self.effects@.len() as int) =~= self.effects@);
            assert(order@ =~= spec_execution_order(self.effects@));
        }
        order
    }
}

/// The execution order keeps its shape: anchors first and last, each effect
/// node between them at its registration position.
pub proof fn lemma_execution_order_shape(effects: Seq<EffectKind>)
    ensures
        spec_execution_order(effects).len() == effects.len() + 2,
        spec_execution_order(effects)[0] == NodeLabel::Tonemapping,
        spec_execution_order(effects).last() == NodeLabel::EndMainPassPostProcessing,
        forall|i: int|
            0 <= i < effects.len() ==> spec_execution_order(effects)[i + 1] == NodeLabel::Effect(
                #[trigger] effects[i],
            ),
{
}

/// Removing one effect node leaves every remaining pair of effect nodes in
/// the same relative execution order: each survivor keeps its place, only
/// shifted past the gap.
pub proof fn lemma_remove_preserves_relative_order(
    effects: Seq<EffectKind>,
    r: int,
    a: int,
    b: int,
)
    requires
        0 <= r < effects.len(),
        0 <= a < b < effects.len(),
        a != r,
        b != r,
    ensures
        ({
            let survivors = effects.remove(r);
            let a2 = if a < r {
                a
            } else {
                a - 1
            };
            let b2 = if b < r {
                b
            } else {
                b - 1
            };
            &&& 0 <= a2 < b2 < survivors.len()
            &&& survivors[a2] == effects[a]
            &&& survivors[b2] == effects[b]
        }),
{
}

} // verus!
