//! Pipeline configuration caches.
//!
//! Keyed memoization for the expensive graphics objects: compiled
//! pipelines, keyed by the full configuration of one entry point, and
//! pipeline layouts, keyed by the configurable parameter values of all
//! participating bind groups. Keys compare structurally. A cache starts
//! empty, holds at most one entry per key value, and never evicts; the
//! caller looks a key up under one mutual-exclusion domain, builds the
//! object only when the key is absent, and registers it, so at most one
//! build runs per distinct key over the cache's lifetime. Handles are
//! shared-ownership values owned by the caller's handle type.
use vstd::prelude::*;

use crate::binding::ConfigDefault;

verus! {

/// How a vertex buffer steps through its data.
#[derive(Clone, Copy, Debug, PartialEq, Eq, Structural)]
pub enum VertexStepMode {
    Vertex,
    Instance,
}

/// The configuration key of one render pipeline: per vertex input its
/// step mode; the override-constant values in declaration order, as bit
/// patterns; the fixed-function state words the caller encodes
/// (primitive, depth-stencil and multisample state); the fragment entry
/// choice with one encoded color-target word per render target; and the
/// multiview count.
#[derive(Clone, Debug, PartialEq, Eq)]
pub struct RenderPipelineKey {
    pub step_modes: Vec<VertexStepMode>,
    pub overrides: Vec<u64>,
    pub fixed_state: Vec<u64>,
    pub fragment_entry: u32,
    pub targets: Vec<u64>,
    pub multiview: Option<u32>,
}

/// The configuration key of one compute pipeline: the override-constant
/// values in declaration order, as bit patterns.
#[derive(Clone, Debug, PartialEq, Eq)]
pub struct ComputePipelineKey {
    pub overrides: Vec<u64>,
}

/// The configuration key of one pipeline, by entry-point kind.
#[derive(Clone, Debug, PartialEq, Eq)]
pub enum PipelineKey {
    Render(RenderPipelineKey),
    Compute(ComputePipelineKey),
}

/// Structural equality of render keys: every component equal, value by
/// value.
pub open spec fn render_key_eq(a: RenderPipelineKey, b: RenderPipelineKey) -> bool {
    &&& a.step_modes@ == b.step_modes@
    &&& a.overrides@ == b.overrides@
    &&& a.fixed_state@ == b.fixed_state@
    &&& a.fragment_entry == b.fragment_entry
    &&& a.targets@ == b.targets@
    &&& a.multiview == b.multiview
}

/// Structural equality of pipeline keys.
pub open spec fn key_eq_spec(a: PipelineKey, b: PipelineKey) -> bool {
    match (a, b) {
        (PipelineKey::Render(x), PipelineKey::Render(y)) => render_key_eq(x, y),
        (PipelineKey::Compute(x), PipelineKey::Compute(y)) => x.overrides@ == y.overrides@,
        _ => false,
    }
}

/// Compares two word vectors for equality.
fn eq_words(a: &Vec<u64>, b: &Vec<u64>) -> (r: bool)
    ensures
        r == (a@ == b@),
{
    if a.len() != b.len() {
        return false;
    }
    let n = a.len();
    let mut i: usize = 0;
    while i < n
        invariant
            i <= n,
            n == a@.len() == b@.len(),
            forall|k: int| 0 <= k < i ==> a@[k] == b@[k],
        decreases n - i,
    {
        if a[i] != b[i] {
            return false;
        }
        i += 1;
    }
    proof {
        assert(a@ =~= b@);
    }
    true
}

/// Compares two step-mode vectors for equality.
fn eq_step_modes(a: &Vec<VertexStepMode>, b: &Vec<VertexStepMode>) -> (r: bool)
    ensures
        r == (a@ == b@),
{
    if a.len() != b.len() {
        return false;
    }
    let n = a.len();
    let mut i: usize = 0;
    while i < n
        invariant
            i <= n,
            n == a@.len() == b@.len(),
            forall|k: int| 0 <= k < i ==> a@[k] == b@[k],
        decreases n - i,
    {
        if a[i] != b[i] {
            return false;
        }
        i += 1;
    }
    proof {
        assert(a@ =~= b@);
    }
    true
}

/// Structural equality of pipeline keys, the cache's lookup relation.
pub fn key_eq(a: &PipelineKey, b: &PipelineKey) -> (r: bool)
    ensures
        r == key_eq_spec(*a, *b),
{
    match (a, b) {
        (PipelineKey::Render(x), PipelineKey::Render(y)) => {
            let multiview_eq = match (x.multiview, y.multiview) {
                (Some(m1), Some(m2)) => m1 == m2,
                (None, None) => true,
                _ => false,
            };
            eq_step_modes(&x.step_modes, &y.step_modes) && eq_words(&x.overrides, &y.overrides)
                && eq_words(&x.fixed_state, &y.fixed_state) && x.fragment_entry
                == y.fragment_entry && eq_words(&x.targets, &y.targets) && multiview_eq
        },
        (PipelineKey::Compute(x), PipelineKey::Compute(y)) => eq_words(
            &x.overrides,
            &y.overrides,
        ),
        _ => false,
    }
}

/// A keyed pipeline cache: at most one entry per distinct key value,
/// append-only for the owner's lifetime.
pub struct PipelineCache<H> {
    entries: Vec<(PipelineKey, H)>,
}

impl<H> PipelineCache<H> {
    /// The cached entries, in registration order.
    pub closed spec fn view(&self) -> Seq<(PipelineKey, H)> {
        self.entries@
    }

    /// No two entries share a key value.
    pub open spec fn wf(&self) -> bool {
        forall|i: int, j: int|
            0 <= i < j < self.view().len() ==> !key_eq_spec(
                (#[trigger] self.view()[i]).0,
                (#[trigger] self.view()[j]).0,
            )
    }

    /// An empty cache; every key starts absent.
    pub fn new() -> (c: Self)
        ensures
            c.wf(),
            c.view().len() == 0,
    {
        PipelineCache { entries: Vec::new() }
    }

    /// Looks a key up: the index of the unique entry whose key equals
    /// it, or nothing when the key is absent.
    pub fn lookup(&self, key: &PipelineKey) -> (r: Option<usize>)
        ensures
            match r {
                Some(i) => i < self.view().len() && key_eq_spec(self.view()[i as int].0, *key),
                None => forall|i: int|
                    0 <= i < self.view().len() ==> !key_eq_spec(
                        (#[trigger] self.view()[i]).0,
                        *key,
                    ),
            },
    {
        let n = self.entries.len();
        let mut i: usize = 0;
        while i < n
            invariant
                i <= n,
                n == self.view().len(),
                forall|k: int|
                    0 <= k < i ==> !key_eq_spec((#[trigger] self.view()[k]).0, *key),
            decreases n - i,
        {
            if key_eq(&self.entries[i].0, key) {
                return Some(i);
            }
            i += 1;
        }
        None
    }

    /// The handle registered at an index.
    pub fn handle(&self, i: usize) -> (h: &H)
        requires
            i < self.view().len(),
        ensures
            *h == self.view()[i as int].1,
    {
        &self.entries[i].1
    }

    /// Registers the handle built for an absent key. The key becomes
    /// present; every earlier entry is untouched, so handles already
    /// observed stay valid and no key is ever rebuilt.
    pub fn insert(&mut self, key: PipelineKey, handle: H)
        requires
            old(self).wf(),
            forall|i: int|
                0 <= i < old(self).view().len() ==> !key_eq_spec(
                    (#[trigger] old(self).view()[i]).0,
                    key,
                ),
        ensures
            final(self).wf(),
            final(self).view() == old(self).view().push((key, handle)),
    {
        self.entries.push((key, handle));
    }
}

/// The configuration key of one pipeline layout: the chosen value of
/// every configurable parameter of every participating bind group, in
/// the flattened parameter order.
#[derive(Clone, Debug, PartialEq, Eq)]
pub struct LayoutKey {
    pub values: Vec<ConfigDefault>,
}

/// Structural equality of layout keys.
pub open spec fn layout_key_eq_spec(a: LayoutKey, b: LayoutKey) -> bool {
    a.values@ == b.values@
}

/// Structural equality of layout keys, the layout cache's lookup
/// relation.
pub fn layout_key_eq(a: &LayoutKey, b: &LayoutKey) -> (r: bool)
    ensures
        r == layout_key_eq_spec(*a, *b),
{
    if a.values.len() != b.values.len() {
        return false;
    }
    let n = a.values.len();
    let mut i: usize = 0;
    while i < n
        invariant
            i <= n,
            n == a.values@.len() == b.values@.len(),
            forall|k: int| 0 <= k < i ==> a.values@[k] == b.values@[k],
        decreases n - i,
    {
        if a.values[i] != b.values[i] {
            return false;
        }
        i += 1;
    }
    proof {
        assert(a.values@ =~= b.values@);
    }
    true
}

/// A keyed pipeline-layout cache: at most one layout per distinct
/// parameter assignment, append-only for the owner's lifetime.
pub struct LayoutCache<H> {
    entries: Vec<(LayoutKey, H)>,
}

impl<H> LayoutCache<H> {
    /// The cached entries, in registration order.
    pub closed spec fn view(&self) -> Seq<(LayoutKey, H)> {
        self.entries@
    }

    /// No two entries share a key value.
    pub open spec fn wf(&self) -> bool {
        forall|i: int, j: int|
            0 <= i < j < self.view().len() ==> !layout_key_eq_spec(
                (#[trigger] self.view()[i]).0,
                (#[trigger] self.view()[j]).0,
            )
    }

    /// An empty cache; every key starts absent.
    pub fn new() -> (c: Self)
        ensures
            c.wf(),
            c.view().len() == 0,
    {
        LayoutCache { entries: Vec::new() }
    }

    /// Looks a parameter assignment up.
    pub fn lookup(&self, key: &LayoutKey) -> (r: Option<usize>)
        ensures
            match r {
                Some(i) => i < self.view().len() && layout_key_eq_spec(
                    self.view()[i as int].0,
                    *key,
                ),
                None => forall|i: int|
                    0 <= i < self.view().len() ==> !layout_key_eq_spec(
                        (#[trigger] self.view()[i]).0,
                        *key,
                    ),
            },
    {
        let n = self.entries.len();
        let mut i: usize = 0;
        while i < n
            invariant
                i <= n,
                n == self.view().len(),
                forall|k: int|
                    0 <= k < i ==> !layout_key_eq_spec((#[trigger] self.view()[k]).0, *key),
            decreases n - i,
        {
            if layout_key_eq(&self.entries[i].0, key) {
                return Some(i);
            }
            i += 1;
        }
        None
    }

    /// The handle registered at an index.
    pub fn handle(&self, i: usize) -> (h: &H)
        requires
            i < self.view().len(),
        ensures
            *h == self.view()[i as int].1,
    {
        &self.entries[i].1
    }

    /// Registers the layout built for an absent parameter assignment.
    pub fn insert(&mut self, key: LayoutKey, handle: H)
        requires
            old(self).wf(),
            forall|i: int|
                0 <= i < old(self).view().len() ==> !layout_key_eq_spec(
                    (#[trigger] old(self).view()[i]).0,
                    key,
                ),
        ensures
            final(self).wf(),
            final(self).view() == old(self).view().push((key, handle)),
    {
        self.entries.push((key, handle));
    }
}

/// Key equality is transitive through a shared key, so a well-formed
/// cache holds at most one entry per key value: any two entries whose
/// keys equal the same key are one entry. Every lookup of that key
/// therefore lands on that entry, and all callers observe the one handle
/// built for it.
pub proof fn lemma_at_most_one_entry_per_key<H>(
    c: &PipelineCache<H>,
    key: PipelineKey,
    i: int,
    j: int,
)
    requires
        c.wf(),
        0 <= i < c.view().len(),
        0 <= j < c.view().len(),
        key_eq_spec(c.view()[i].0, key),
        key_eq_spec(c.view()[j].0, key),
    ensures
        i == j,
        c.view()[i].1 == c.view()[j].1,
{
    if i < j {
        assert(key_eq_spec(c.view()[i].0, c.view()[j].0));
    }
    if j < i {
        assert(key_eq_spec(c.view()[j].0, c.view()[i].0));
    }
}

/// The layout cache holds at most one entry per parameter assignment.
pub proof fn lemma_at_most_one_layout_per_key<H>(c: &LayoutCache<H>, key: LayoutKey, i: int, j: int)
    requires
        c.wf(),
        0 <= i < c.view().len(),
        0 <= j < c.view().len(),
        layout_key_eq_spec(c.view()[i].0, key),
        layout_key_eq_spec(c.view()[j].0, key),
    ensures
        i == j,
        c.view()[i].1 == c.view()[j].1,
{
}

/// Entries for distinct keys are distinct entries, so requests for
/// different keys never share or overwrite one another's objects.
pub proof fn lemma_distinct_keys_distinct_entries<H>(c: &PipelineCache<H>, i: int, j: int)
    requires
        c.wf(),
        0 <= i < c.view().len(),
        0 <= j < c.view().len(),
        !key_eq_spec(c.view()[i].0, c.view()[j].0),
    ensures
        i != j,
{
    if i == j {
        assert(key_eq_spec(c.view()[i].0, c.view()[j].0));
    }
}

} // verus!
