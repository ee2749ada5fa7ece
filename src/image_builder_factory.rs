//! The per-variant image builders.
pub mod alpine_builder;
pub mod debian_builder;

use vstd::prelude::*;

use crate::image_builder::ImageBuilder;
use crate::image_builder_factory::alpine_builder::AlpineImageBuilder;
use crate::image_builder_factory::debian_builder::DebianImageBuilder;
use crate::metadata::dogana_metadata::ImageVariant;

verus! {

/// Makes the builder of each variant.
pub struct ImageBuilderFactory;

impl ImageBuilderFactory {
    pub fn debian_builder() -> (r: DebianImageBuilder)
        ensures
            r.image_variant() == ImageVariant::Debian,
    {
        DebianImageBuilder
    }

    pub fn alpine_builder() -> (r: AlpineImageBuilder)
        ensures
            r.image_variant() == ImageVariant::Alpine,
    {
        AlpineImageBuilder
    }
}

} // verus!
