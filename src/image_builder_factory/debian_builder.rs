//! The Debian image: built on the slim Rust image, run on slim Debian.
use vstd::prelude::*;

use crate::image_builder::ImageBuilder;
use crate::image_name::ImageName;
use crate::metadata::dogana_metadata::ImageVariant;

verus! {

/// The builder of the Debian image.
pub struct DebianImageBuilder;

impl ImageBuilder for DebianImageBuilder {
    open spec fn image_variant(&self) -> ImageVariant {
        ImageVariant::Debian
    }

    fn variant(&self) -> (r: ImageVariant) {
        ImageVariant::Debian
    }

    fn build_stage_base_image(&self, msrv: &str) -> (r: ImageName) {
        let mut r = "docker.io/library/rust:".to_owned();
        r.append(msrv);
        r.append("-slim");
        ImageName(r)
    }

    fn run_stage_base_image(&self) -> (r: ImageName) {
        ImageName("docker.io/library/debian:12.9-slim".to_owned())
    }
}

} // verus!
