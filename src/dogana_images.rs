//! The build-once image cache: each variant's image is built at most once, and every later
//! request for it gets the same image.
use vstd::prelude::*;

use crate::image_name::ImageName;
use crate::metadata::dogana_metadata::ImageVariant;

verus! {

/// What a request to the cache calls for: an image that is ready, or a build of the variant.
#[derive(Debug, Clone)]
pub enum CacheStep {
    Ready(ImageName),
    Build(ImageVariant),
}

/// The images built so far, at most one for each variant.
#[derive(Debug)]
pub struct ImageCache {
    alpine: Option<ImageName>,
    debian: Option<ImageName>,
}

/// Whether a request meets a cache that holds `cached` with a build.
pub open spec fn step_builds(cached: Option<Seq<char>>) -> bool {
    cached is None
}

/// The image that a request gets, where the cache holds `cached` and a build would give `built`.
pub open spec fn step_handle(cached: Option<Seq<char>>, built: Seq<char>) -> Seq<char> {
    match cached {
        Some(h) => h,
        None => built,
    }
}

/// What the cache holds after such a request.
pub open spec fn step_next(cached: Option<Seq<char>>, built: Seq<char>) -> Option<Seq<char>> {
    Some(step_handle(cached, built))
}

/// Serving one request for each element of `built`, from a cache that holds `cached` for the
/// variant, where the `k`-th request would build `built[k]` if it built: the number of builds
/// and the images handed out, in order.
pub open spec fn serve(cached: Option<Seq<char>>, built: Seq<Seq<char>>) -> (nat, Seq<Seq<char>>)
    decreases built.len(),
{
    if built.len() == 0 {
        (0, Seq::empty())
    } else {
        let rest = serve(step_next(cached, built[0]), built.drop_first());
        (
            rest.0 + if step_builds(cached) {
                1nat
            } else {
                0nat
            },
            seq![step_handle(cached, built[0])] + rest.1,
        )
    }
}

/// Requests for a variant that the cache holds build nothing and all get the held image.
pub proof fn lemma_serve_cached(h: Seq<char>, built: Seq<Seq<char>>)
    ensures
        serve(Some(h), built).0 == 0,
        serve(Some(h), built).1.len() == built.len(),
        forall|k: int| 0 <= k < built.len() ==> #[trigger] serve(Some(h), built).1[k] == h,
    decreases built.len(),
{
    if built.len() > 0 {
        lemma_serve_cached(h, built.drop_first());
        let tail = serve(Some(h), built.drop_first()).1;
        assert forall|k: int| 0 <= k < built.len() implies #[trigger] serve(Some(h), built).1[k]
            == h by {
            if k > 0 {
                assert(serve(Some(h), built).1[k] == tail[k - 1]);
            }
        }
    }
}

/// Any number of requests for a variant that is not cached yet build it exactly once, and all
/// get the image of that one build.
pub proof fn lemma_build_once(built: Seq<Seq<char>>)
    requires
        built.len() > 0,
    ensures
        serve(None, built).0 == 1,
        serve(None, built).1.len() == built.len(),
        forall|k: int| 0 <= k < built.len() ==> #[trigger] serve(None, built).1[k] == built[0],
{
    lemma_serve_cached(built[0], built.drop_first());
    let tail = serve(Some(built[0]), built.drop_first()).1;
    assert forall|k: int| 0 <= k < built.len() implies #[trigger] serve(None, built).1[k]
        == built[0] by {
        if k > 0 {
            assert(serve(None, built).1[k] == tail[k - 1]);
        }
    }
}

impl ImageCache {
    /// The image held for `variant`, if any.
    pub closed spec fn handle_of(&self, variant: ImageVariant) -> Option<Seq<char>> {
        match variant {
            ImageVariant::Alpine => match self.alpine {
                Some(h) => Some(h@),
                None => None,
            },
            ImageVariant::Debian => match self.debian {
                Some(h) => Some(h@),
                None => None,
            },
        }
    }

    /// An empty cache.
    pub fn new() -> (r: Self)
        ensures
            forall|v: ImageVariant| #[trigger] r.handle_of(v) is None,
    {
        ImageCache { alpine: None, debian: None }
    }

    /// What a request for `variant` calls for: the held image, or a build when none is held.
    pub fn request(&self, variant: ImageVariant) -> (r: CacheStep)
        ensures
            step_builds(self.handle_of(variant)) <==> r is Build,
            r matches CacheStep::Build(v) ==> v == variant,
            r matches CacheStep::Ready(h) ==> self.handle_of(variant) == Some(h@),
    {
        let held = match variant {
            ImageVariant::Alpine => &self.alpine,
            ImageVariant::Debian => &self.debian,
        };
        match held {
            Some(h) => CacheStep::Ready(h.duplicate()),
            None => CacheStep::Build(variant),
        }
    }

    /// Records that a build of `variant` gave `built`, and returns the image that the request
    /// gets: the one already held, if any, which is never replaced; else `built`.
    pub fn complete(&mut self, variant: ImageVariant, built: ImageName) -> (r: ImageName)
        ensures
            r@ == step_handle(old(self).handle_of(variant), built@),
            final(self).handle_of(variant) == step_next(old(self).handle_of(variant), built@),
            forall|v: ImageVariant| v != variant ==> #[trigger] final(self).handle_of(v) == old(
                self,
            ).handle_of(v),
    {
        let slot = match variant {
            ImageVariant::Alpine => &mut self.alpine,
            ImageVariant::Debian => &mut self.debian,
        };
        match slot {
            Some(h) => h.duplicate(),
            None => {
                let r = built.duplicate();
                *slot = Some(built);
                r
            },
        }
    }
}

} // verus!
