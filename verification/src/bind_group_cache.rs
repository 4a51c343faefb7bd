//! A cache of one bind group, kept for as long as the texture view that it
//! binds stays the same.
use vstd::prelude::*;
use bevy::render::render_resource::{BindGroup, TextureViewId};

verus! {

/// The id that bevy gives each texture view it creates.
#[verifier::external_type_specification]
#[verifier::external_body]
pub struct ExTextureViewId(TextureViewId);

/// A bevy bind group: GPU resources bound for one render pass.
#[verifier::external_type_specification]
#[verifier::external_body]
pub struct ExBindGroup(BindGroup);

/// bevy's `PartialEq` for `TextureViewId`, which is derived and compares the
/// ids' numbers: the result is whether the two ids are the same id.
#[verifier::external_body]
fn same_texture_view(a: &TextureViewId, b: &TextureViewId) -> (r: bool)
    ensures
        r == (*a == *b),
{
    a == b
}

/// Holds at most one bind group, together with the id of the texture view
/// that it was made for.
pub struct BindGroupCache<B> {
    cached: Option<(TextureViewId, B)>,
}

impl<B> BindGroupCache<B> {
    /// The cached entry: the texture view id and its bind group.
    pub closed spec fn entry(self) -> Option<(TextureViewId, B)> {
        self.cached
    }

    /// The bind group that the cache holds for the texture view `view_id`.
    pub open spec fn cached_for(self, view_id: TextureViewId) -> Option<B> {
        match self.entry() {
            Some((id, group)) => if id == view_id {
                Some(group)
            } else {
                None
            },
            None => None,
        }
    }

    /// An empty cache.
    pub fn new() -> (r: Self)
        ensures
            r.entry() is None,
    {
        BindGroupCache { cached: None }
    }

    /// The cached bind group, if it was made for the texture view `view_id`.
    pub fn lookup(&self, view_id: TextureViewId) -> (r: Option<&B>)
        ensures
            match r {
                Some(group) => self.cached_for(view_id) == Some(*group),
                None => self.cached_for(view_id) is None,
            },
    {
        match &self.cached {
            Some((id, group)) => {
                if same_texture_view(id, &view_id) {
                    Some(group)
                } else {
                    None
                }
            },
            None => None,
        }
    }

    /// Whether the cache holds a bind group for the texture view `view_id`.
    pub fn holds(&self, view_id: TextureViewId) -> (r: bool)
        ensures
            r == self.cached_for(view_id) is Some,
    {
        match &self.cached {
            Some((id, _)) => same_texture_view(id, &view_id),
            None => false,
        }
    }

    /// Keeps `group` as the bind group of the texture view `view_id`, in
    /// place of whatever was cached, and hands it back.
    pub fn store(&mut self, view_id: TextureViewId, group: B) -> (r: &B)
        ensures
            final(self).entry() == Some((view_id, group)),
            *r == group,
    {
        let entry = self.cached.insert((view_id, group));
        &entry.1
    }
}

impl<B> Default for BindGroupCache<B> {
    fn default() -> (r: Self)
        ensures
            r.entry() is None,
    {
        BindGroupCache { cached: None }
    }
}

/// What a lookup gives back after a store: the stored bind group for the
/// texture view it was stored for, and nothing for any other view, since the
/// cache holds one bind group at a time.
pub proof fn lemma_lookup_after_store<B>(
    cache: BindGroupCache<B>,
    view_id: TextureViewId,
    group: B,
    other_id: TextureViewId,
)
    requires
        cache.entry() == Some((view_id, group)),
    ensures
        cache.cached_for(view_id) == Some(group),
        other_id != view_id ==> cache.cached_for(other_id) is None,
{
}

/// An empty cache holds nothing for any texture view.
pub proof fn lemma_empty_holds_nothing<B>(cache: BindGroupCache<B>, view_id: TextureViewId)
    requires
        cache.entry() is None,
    ensures
        cache.cached_for(view_id) is None,
{
}

/// The bind group cache of the threshold pass.
pub type ThresholdBindGroupCache = BindGroupCache<BindGroup>;

/// The bind group cache of the color-to-UV pass.
pub type ColorToUVBindGroupCache = BindGroupCache<BindGroup>;

/// The bind group cache of the distance-to-value pass, which the smooth-step
/// pass uses too.
pub type DistanceToValueBindGroupCache = BindGroupCache<BindGroup>;

} // verus!
