//! What the tests need to know of the package under test.
pub mod dogana_metadata;
pub mod msrv;

use vstd::prelude::*;

use crate::metadata::dogana_metadata::{DoganaMetadata, ImageVariant};
use crate::text::{copy_strings, views};

verus! {

/// The package under test: its name, version, minimum supported Rust version, binary targets,
/// and test-image metadata.
#[derive(Debug, Clone)]
pub struct PackageMetadata {
    pub name: String,
    pub version: String,
    pub msrv: String,
    pub bins: Vec<String>,
    pub dogana: Option<DoganaMetadata>,
}

impl PackageMetadata {
    /// The system packages that `variant` requires; none when the metadata lists none.
    pub open spec fn required_packages(self, variant: ImageVariant) -> Seq<Seq<char>> {
        match self.dogana {
            Some(d) => d.packages_of(variant),
            None => Seq::empty(),
        }
    }
}

pub fn package_name(meta: &PackageMetadata) -> (r: &str)
    ensures
        r@ == meta.name@,
{
    meta.name.as_str()
}

pub fn package_version(meta: &PackageMetadata) -> (r: &str)
    ensures
        r@ == meta.version@,
{
    meta.version.as_str()
}

pub fn package_msrv(meta: &PackageMetadata) -> (r: &str)
    ensures
        r@ == meta.msrv@,
{
    meta.msrv.as_str()
}

pub fn package_bins(meta: &PackageMetadata) -> (r: &[String])
    ensures
        r@ == meta.bins@,
{
    meta.bins.as_slice()
}

/// The system packages to install in images of `variant`.
pub fn required_system_packages(meta: &PackageMetadata, variant: ImageVariant) -> (r: Vec<String>)
    ensures
        views(r@) == meta.required_packages(variant),
{
    match &meta.dogana {
        None => Vec::new(),
        Some(d) => match d.variant_metadata(variant) {
            None => Vec::new(),
            Some(m) => match &m.required_packages {
                None => Vec::new(),
                Some(p) => copy_strings(p),
            },
        },
    }
}

} // verus!
