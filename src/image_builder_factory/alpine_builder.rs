//! The Alpine image: built on the Alpine flavor of the Rust image, run on Alpine.
use vstd::prelude::*;

use crate::image_builder::ImageBuilder;
use crate::image_name::ImageName;
use crate::metadata::dogana_metadata::ImageVariant;

verus! {

/// The builder of the Alpine image.
pub struct AlpineImageBuilder;

impl ImageBuilder for AlpineImageBuilder {
    open spec fn image_variant(&self) -> ImageVariant {
        ImageVariant::Alpine
    }

    fn variant(&self) -> (r: ImageVariant) {
        ImageVariant::Alpine
    }

    fn build_stage_base_image(&self, msrv: &str) -> (r: ImageName) {
        let mut r = "docker.io/library/rust:".to_owned();
        r.append(msrv);
        r.append("-alpine3.21");
        ImageName(r)
    }

    fn run_stage_base_image(&self) -> (r: ImageName) {
        ImageName("docker.io/library/alpine:3.21".to_owned())
    }
}

} // verus!
