//! The bridge itself: one active engine and the cache of surfaces it draws
//! to. The engine and the surfaces belong to the graphics backend; the bridge
//! holds them and decides when one is made, kept or replaced.

use vstd::prelude::*;
use crate::surface::{
    decimal, has_tag, resolution, tags_in_order, CacheModel, SurfaceCache, SurfaceLookupError,
    SurfaceStep, TagModel, TargetTag,
};
use crate::util::SurfaceAcquireError;

verus! {

/// Why a frame was not rendered.
#[derive(Clone, Copy, Debug, PartialEq, Eq, Structural)]
pub enum RenderError {
    /// No surface was found for the target.
    Surface(SurfaceLookupError),
    /// The surface gave no frame. Nothing is retried: the caller decides
    /// whether to make the target anew.
    Acquire(SurfaceAcquireError),
}

impl RenderError {
    /// The words of this error.
    pub open spec fn text(self) -> Seq<char> {
        match self {
            RenderError::Surface(e) => e.text(),
            RenderError::Acquire(e) => e.text(),
        }
    }

    /// The words of this error, for the host.
    pub fn message(&self) -> (r: String)
        ensures
            r@ == self.text(),
    {
        match self {
            RenderError::Surface(e) => e.message(),
            RenderError::Acquire(e) => e.message(),
        }
    }
}

/// A rendering engine of type `E` and the surfaces of type `S` made for its
/// render targets. Exactly one engine is active at any time.
pub struct TweakShader<E, S> {
    context: E,
    surface_map: SurfaceCache<S>,
}

impl<E, S> TweakShader<E, S> {
    /// The active engine.
    pub closed spec fn engine(&self) -> E {
        self.context
    }

    /// The surfaces made so far, with their tags.
    pub closed spec fn surfaces(&self) -> CacheModel<S> {
        self.surface_map@
    }

    /// The bridge's invariant: every surface's tag is its slot in decimal.
    pub open spec fn wf(&self) -> bool {
        tags_in_order(self.surfaces())
    }

    /// Makes a bridge around the engine that was built from the shader
    /// source. Where the source did not compile there is no bridge, and the
    /// compile error is handed on.
    pub fn new<X>(built: Result<E, X>) -> (r: Result<TweakShader<E, S>, X>)
        ensures
            match built {
                Ok(engine) => r is Ok && r->Ok_0.engine() == engine && r->Ok_0.surfaces().len() == 0
                    && r->Ok_0.wf(),
                Err(e) => r is Err && r->Err_0 == e,
            },
    {
        match built {
            Ok(context) => Ok(TweakShader { context, surface_map: SurfaceCache::new() }),
            Err(e) => Err(e),
        }
    }

    /// Swaps the engine for the one built from a new shader source. Where
    /// the build succeeded the new engine is active and the retired one is
    /// handed back, so that its resources can be moved over; where it
    /// failed the bridge is untouched and the compile error is handed on.
    /// The surfaces stay in either case.
    pub fn update_src<X>(&mut self, built: Result<E, X>) -> (r: Result<E, X>)
        ensures
            final(self).surfaces() == old(self).surfaces(),
            final(self).wf() == old(self).wf(),
            match built {
                Ok(engine) => final(self).engine() == engine && r is Ok && r->Ok_0 == old(
                    self,
                ).engine(),
                Err(e) => *final(self) == *old(self) && r is Err && r->Err_0 == e,
            },
    {
        match built {
            Ok(engine) => {
                let mut retired: E = engine;
                core::mem::swap(&mut self.context, &mut retired);
                Ok(retired)
            },
            Err(e) => Err(e),
        }
    }

    /// The active engine.
    pub fn context(&self) -> (r: &E)
        ensures
            *r == self.engine(),
    {
        &self.context
    }

    /// The active engine, to be changed in place. The surfaces stay.
    pub fn context_mut(&mut self) -> (r: &mut E)
        ensures
            *r == old(self).engine(),
            final(self).engine() == *final(r),
            final(self).surfaces() == old(self).surfaces(),
            final(self).wf() == old(self).wf(),
    {
        &mut self.context
    }

    /// How many surfaces were made.
    pub fn surface_count(&self) -> (r: usize)
        ensures
            r == self.surfaces().len(),
    {
        self.surface_map.len()
    }

    /// Decides what a render target needs, from the tag it carries: a new
    /// surface where it carries none, the slot of its own surface where the
    /// tag is known, an error otherwise.
    pub fn retrieve_surface(&self, tag: &TargetTag) -> (r: Result<SurfaceStep, RenderError>)
        requires
            self.wf(),
        ensures
            match resolution(self.surfaces(), tag@) {
                Ok(step) => r == Ok::<SurfaceStep, RenderError>(step),
                Err(e) => r == Err::<SurfaceStep, RenderError>(RenderError::Surface(e)),
            },
            match r {
                Ok(SurfaceStep::Cached(slot)) => slot < self.surfaces().len(),
                _ => true,
            },
    {
        match self.surface_map.retrieve_surface(tag) {
            Ok(step) => Ok(step),
            Err(e) => Err(RenderError::Surface(e)),
        }
    }

    /// Takes the surface made for a new target into the cache and returns
    /// the tag to attach to the target. The engine stays.
    pub fn insert_surface(&mut self, surface: S) -> (tag: String)
        requires
            old(self).wf(),
        ensures
            final(self).wf(),
            final(self).engine() == old(self).engine(),
            tag@ == decimal(old(self).surfaces().len()),
            final(self).surfaces() == old(self).surfaces().push((tag@, surface)),
            !has_tag(old(self).surfaces(), tag@),
            resolution(final(self).surfaces(), TagModel::Text(tag@)) == Ok::<
                SurfaceStep,
                SurfaceLookupError,
            >(SurfaceStep::Cached(old(self).surfaces().len() as usize)),
            forall|t: Seq<char>|
                has_tag(old(self).surfaces(), t) ==> #[trigger] resolution(
                    final(self).surfaces(),
                    TagModel::Text(t),
                ) == resolution(old(self).surfaces(), TagModel::Text(t)),
    {
        self.surface_map.insert(surface)
    }

    /// The surface in a slot.
    pub fn surface(&self, slot: usize) -> (r: &S)
        requires
            slot < self.surfaces().len(),
        ensures
            *r == self.surfaces()[slot as int].1,
    {
        self.surface_map.get(slot)
    }
}

/// The outcome of one frame, from what the backend answered when the frame
/// was asked of the surface.
pub fn frame_outcome(acquired: Result<(), SurfaceAcquireError>) -> (r: Result<(), RenderError>)
    ensures
        r == match acquired {
            Ok(_) => Ok::<(), RenderError>(()),
            Err(e) => Err::<(), RenderError>(RenderError::Acquire(e)),
        },
{
    match acquired {
        Ok(_) => Ok(()),
        Err(e) => Err(RenderError::Acquire(e)),
    }
}

} // verus!
