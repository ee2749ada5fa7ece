//! The shared procedure that turns a variant's recipe into a container image: the two-stage
//! Dockerfile, the image tag, the engine's build arguments and the reading of its result.
use vstd::prelude::*;
use vstd::utf8::{decode_utf8, valid_utf8};

use crate::image_name::ImageName;
use crate::metadata::dogana_metadata::ImageVariant;
use crate::metadata::{required_system_packages, PackageMetadata};
use crate::text::{decode_text, join, join_strings, views};

verus! {

/// The per-variant rules of an image: its variant and the base images of its two stages.
pub trait ImageBuilder {
    /// The variant that the builder makes.
    spec fn image_variant(&self) -> ImageVariant;

    fn variant(&self) -> (r: ImageVariant)
        ensures
            r == self.image_variant(),
    ;

    /// The base image of the build stage, for the Rust version `msrv`.
    fn build_stage_base_image(&self, msrv: &str) -> (r: ImageName)
        ensures
            r@ == build_stage_image_of(self.image_variant(), msrv@),
    ;

    /// The base image of the run stage.
    fn run_stage_base_image(&self) -> (r: ImageName)
        ensures
            r@ == run_stage_image_of(self.image_variant()),
    ;
}

/// The base image of the build stage of `variant`, for the Rust version `msrv`.
pub open spec fn build_stage_image_of(variant: ImageVariant, msrv: Seq<char>) -> Seq<char> {
    match variant {
        ImageVariant::Alpine => "docker.io/library/rust:"@ + msrv + "-alpine3.21"@,
        ImageVariant::Debian => "docker.io/library/rust:"@ + msrv + "-slim"@,
    }
}

/// The base image of the run stage of `variant`.
pub open spec fn run_stage_image_of(variant: ImageVariant) -> Seq<char> {
    match variant {
        ImageVariant::Alpine => "docker.io/library/alpine:3.21"@,
        ImageVariant::Debian => "docker.io/library/debian:12.9-slim"@,
    }
}

/// The engine failed to build an image; it carries what the engine wrote to stderr.
#[derive(Debug, Clone)]
pub struct ImageBuildError {
    pub stderr_content: String,
}

impl ImageBuildError {
    pub fn new(message: &str) -> (r: Self)
        ensures
            r.stderr_content@ == message@,
    {
        ImageBuildError { stderr_content: message.to_owned() }
    }

    /// The description of the failure.
    pub fn describe(&self) -> (r: String)
        ensures
            r@ == "failed to build image: "@ + self.stderr_content@,
    {
        let mut r = "failed to build image: ".to_owned();
        r.append(self.stderr_content.as_str());
        r
    }
}

/// The tag of the image of `variant` for the package `meta`.
pub open spec fn image_tag(meta: PackageMetadata, variant: ImageVariant) -> Seq<char> {
    meta.name@ + "-integration-tests-base-"@ + variant.key() + ":"@ + meta.version@ + "-rust"@
        + meta.msrv@
}

/// The tag of the image of `variant` for the package `meta`.
pub fn output_image_name(meta: &PackageMetadata, variant: ImageVariant) -> (r: ImageName)
    ensures
        r@ == image_tag(*meta, variant),
{
    let mut r = meta.name.clone();
    r.append("-integration-tests-base-");
    let key = variant.to_string();
    r.append(key.as_str());
    r.append(":");
    r.append(meta.version.as_str());
    r.append("-rust");
    r.append(meta.msrv.as_str());
    ImageName(r)
}

/// The Dockerfile line that installs the system packages of `variant`; empty when there are
/// none.
pub open spec fn install_line(meta: PackageMetadata, variant: ImageVariant) -> Seq<char> {
    let packages = meta.required_packages(variant);
    if packages.len() == 0 {
        Seq::empty()
    } else {
        "RUN "@ + variant.install_command() + " "@ + join(packages, " "@)
    }
}

/// The Dockerfile line that installs the system packages of `variant`.
pub fn install_system_packages_instruction(meta: &PackageMetadata, variant: ImageVariant) -> (r:
    String)
    ensures
        r@ == install_line(*meta, variant),
{
    let sys_packages = required_system_packages(meta, variant);
    if sys_packages.len() == 0 {
        String::new()
    } else {
        let mut r = "RUN ".to_owned();
        let install = variant.install_sys_package_instruction(sys_packages.as_slice());
        r.append(install.as_str());
        r
    }
}

/// Where the build stage leaves the binary `bin`.
pub open spec fn bin_path(bin: Seq<char>) -> Seq<char> {
    "/project/target/debug/"@ + bin
}

/// The Dockerfile line that copies the package's binaries into the run stage; empty when the
/// package has none.
pub open spec fn copy_line(bins: Seq<Seq<char>>) -> Seq<char> {
    if bins.len() == 0 {
        Seq::empty()
    } else {
        "COPY --from=builder "@ + join(bins.map_values(|b: Seq<char>| bin_path(b)), " "@)
            + " /usr/local/bin/"@
    }
}

/// The Dockerfile line that copies the package's binaries into the run stage.
pub fn copy_bins_instruction(meta: &PackageMetadata) -> (r: String)
    ensures
        r@ == copy_line(views(meta.bins@)),
{
    if meta.bins.len() == 0 {
        return String::new();
    }
    let mut paths: Vec<String> = Vec::new();
    let mut i: usize = 0;
    while i < meta.bins.len()
        invariant
            i <= meta.bins.len(),
            views(paths@) == views(meta.bins@).subrange(0, i as int).map_values(
                |b: Seq<char>| bin_path(b),
            ),
        decreases meta.bins.len() - i,
    {
        let mut p = "/project/target/debug/".to_owned();
        p.append(meta.bins[i].as_str());
        let ghost before = paths@;
        assert(p@ == bin_path(views(meta.bins@)[i as int]));
        paths.push(p);
        assert(paths@ == before.push(p));
        assert(views(paths@) =~= views(before).push(p@));
        assert(views(meta.bins@).subrange(0, i + 1) =~= views(meta.bins@).subrange(0, i as int).push(
            views(meta.bins@)[i as int],
        ));
        assert(views(paths@) =~= views(meta.bins@).subrange(0, i + 1).map_values(
            |b: Seq<char>| bin_path(b),
        ));
        i += 1;
    }
    assert(views(meta.bins@).subrange(0, i as int) =~= views(meta.bins@));
    let mut r = "COPY --from=builder ".to_owned();
    let joined = join_strings(paths.as_slice(), " ");
    r.append(joined.as_str());
    r.append(" /usr/local/bin/");
    r
}

/// The two-stage Dockerfile: a build stage that compiles the whole source tree, and a run
/// stage that installs the system packages and receives the binaries.
pub open spec fn dockerfile(
    build_base: Seq<char>,
    run_base: Seq<char>,
    install: Seq<char>,
    copy: Seq<char>,
) -> Seq<char> {
    "FROM "@ + build_base + " AS builder\nWORKDIR /project\nCOPY ./ ./\nRUN cargo build\n\nFROM "@
        + run_base + " AS runner\n"@ + install + "\n"@ + copy + "\n"@
}

/// The Dockerfile of the image that `builder` describes, for the package `meta`.
pub fn dockerfile_content<B: ImageBuilder>(builder: &B, meta: &PackageMetadata) -> (r: String)
    ensures
        r@ == dockerfile(
            build_stage_image_of(builder.image_variant(), meta.msrv@),
            run_stage_image_of(builder.image_variant()),
            install_line(*meta, builder.image_variant()),
            copy_line(views(meta.bins@)),
        ),
{
    let variant = builder.variant();
    let build_base = builder.build_stage_base_image(meta.msrv.as_str());
    let run_base = builder.run_stage_base_image();
    let install = install_system_packages_instruction(meta, variant);
    let copy = copy_bins_instruction(meta);
    let mut r = "FROM ".to_owned();
    r.append(build_base.as_str());
    r.append(" AS builder\nWORKDIR /project\nCOPY ./ ./\nRUN cargo build\n\nFROM ");
    r.append(run_base.as_str());
    r.append(" AS runner\n");
    r.append(install.as_str());
    r.append("\n");
    r.append(copy.as_str());
    r.append("\n");
    r
}

/// The file name of the Dockerfile of `variant`, in the host's directory for temporary files.
pub fn dockerfile_name(meta: &PackageMetadata, variant: ImageVariant) -> (r: String)
    ensures
        r@ == "Dockerfile."@ + meta.name@ + "-integration-tests."@ + variant.key(),
{
    let mut r = "Dockerfile.".to_owned();
    r.append(meta.name.as_str());
    r.append("-integration-tests.");
    let key = variant.to_string();
    r.append(key.as_str());
    r
}

/// The arguments of the engine's build subcommand.
pub fn build_arguments(tag: &ImageName, dockerfile_path: &str) -> (r: Vec<String>)
    ensures
        views(r@) == seq!["build"@, "-t"@, tag@, "-f"@, dockerfile_path@, "."@],
{
    let mut r: Vec<String> = Vec::new();
    r.push("build".to_owned());
    r.push("-t".to_owned());
    r.push(tag.to_string());
    r.push("-f".to_owned());
    r.push(dockerfile_path.to_owned());
    r.push(".".to_owned());
    assert(views(r@) =~= seq!["build"@, "-t"@, tag@, "-f"@, dockerfile_path@, "."@]);
    r
}

/// The message of a failed build whose stderr is not UTF-8.
pub open spec fn undecodable_stderr() -> Seq<char> {
    "the engine's stderr is not valid UTF-8"@
}

/// The result of the engine's build: the image `tag` when the engine succeeded, else the
/// failure with the engine's stderr.
pub fn build_outcome(tag: ImageName, success: bool, stderr: &[u8]) -> (r: Result<
    ImageName,
    ImageBuildError,
>)
    ensures
        success ==> (r matches Ok(t) && t@ == tag@),
        !success ==> (r matches Err(e) && (if valid_utf8(stderr@) {
            e.stderr_content@ == decode_utf8(stderr@)
        } else {
            e.stderr_content@ == undecodable_stderr()
        })),
{
    if success {
        Ok(tag)
    } else {
        match decode_text(stderr) {
            Some(text) => Err(ImageBuildError::new(text.as_str())),
            None => Err(ImageBuildError::new("the engine's stderr is not valid UTF-8")),
        }
    }
}

} // verus!
