//! The image variants and the per-variant metadata of a package.
use vstd::prelude::*;

use crate::text::{join, join_strings, views};

verus! {

/// A flavor of base system that test images are built from.
#[derive(Debug, Clone, Copy, Hash, PartialEq, Eq, Structural)]
pub enum ImageVariant {
    Alpine,
    Debian,
}

impl ImageVariant {
    /// The metadata key of the variant, also used in image tags and file names.
    pub open spec fn key(self) -> Seq<char> {
        match self {
            ImageVariant::Alpine => "alpine"@,
            ImageVariant::Debian => "debian"@,
        }
    }

    /// The metadata key of the variant.
    pub fn to_string(&self) -> (r: String)
        ensures
            r@ == self.key(),
    {
        match self {
            ImageVariant::Alpine => "alpine".to_owned(),
            ImageVariant::Debian => "debian".to_owned(),
        }
    }

    /// The command of the variant's package manager that installs packages.
    pub open spec fn install_command(self) -> Seq<char> {
        match self {
            ImageVariant::Alpine => "apk add --no-cache"@,
            ImageVariant::Debian => "apt-get update && apt-get install -y --no-install-recommends"@,
        }
    }

    /// The shell command that installs `packages` with the variant's package manager.
    pub fn install_sys_package_instruction(&self, packages: &[String]) -> (r: String)
        ensures
            r@ == self.install_command() + " "@ + join(views(packages@), " "@),
    {
        let pkgs = join_strings(packages, " ");
        let mut r = match self {
            ImageVariant::Alpine => "apk add --no-cache".to_owned(),
            ImageVariant::Debian => "apt-get update && apt-get install -y --no-install-recommends".to_owned(),
        };
        r.append(" ");
        r.append(pkgs.as_str());
        r
    }
}

/// The test-image section of a package's metadata: for some variants, what they need.
#[derive(Debug, Clone)]
pub struct DoganaMetadata {
    pub dogana: Option<Vec<(ImageVariant, VariantMetadata)>>,
}

/// What one image variant needs.
#[derive(Debug, Clone)]
pub struct VariantMetadata {
    /// The system packages to install in the run stage of the image.
    pub required_packages: Option<Vec<String>>,
}

/// The metadata of the first entry for `variant`, if any.
pub open spec fn variant_entry(entries: Seq<(ImageVariant, VariantMetadata)>, variant: ImageVariant) -> Option<
    VariantMetadata,
>
    decreases entries.len(),
{
    if entries.len() == 0 {
        None
    } else if entries[0].0 == variant {
        Some(entries[0].1)
    } else {
        variant_entry(entries.drop_first(), variant)
    }
}

impl DoganaMetadata {
    /// The system packages that `variant` requires; none when no entry lists any.
    pub open spec fn packages_of(self, variant: ImageVariant) -> Seq<Seq<char>> {
        match self.dogana {
            Some(entries) => match variant_entry(entries@, variant) {
                Some(m) => match m.required_packages {
                    Some(p) => views(p@),
                    None => Seq::empty(),
                },
                None => Seq::empty(),
            },
            None => Seq::empty(),
        }
    }

    /// The metadata of the entry for `variant`, if any.
    pub fn variant_metadata(&self, variant: ImageVariant) -> (r: Option<&VariantMetadata>)
        ensures
            match self.dogana {
                Some(entries) => match variant_entry(entries@, variant) {
                    Some(m) => r matches Some(x) && *x == m,
                    None => r is None,
                },
                None => r is None,
            },
    {
        match &self.dogana {
            None => None,
            Some(entries) => {
                let mut i: usize = 0;
                assert(entries@.subrange(0, entries@.len() as int) =~= entries@);
                while i < entries.len()
                    invariant
                        i <= entries.len(),
                        self.dogana matches Some(e) && e@ == entries@,
                        variant_entry(entries@, variant) == variant_entry(
                            entries@.subrange(i as int, entries@.len() as int),
                            variant,
                        ),
                    decreases entries.len() - i,
                {
                    let ghost rest = entries@.subrange(i as int, entries@.len() as int);
                    assert(rest[0] == entries@[i as int]);
                    assert(rest.drop_first() =~= entries@.subrange(i + 1, entries@.len() as int));
                    if entries[i].0 == variant {
                        assert(entries@[i as int].0 == variant);
                        assert(variant_entry(rest, variant) == Some(entries@[i as int].1));
                        return Some(&entries[i].1);
                    }
                    i += 1;
                }
                assert(entries@.subrange(i as int, entries@.len() as int).len() == 0);
                None
            },
        }
    }
}

} // verus!
