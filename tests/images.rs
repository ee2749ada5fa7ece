use dogana::container_manager::{select_container_manager, SupportedContainerManagerNotFound};
use dogana::dogana_images::{CacheStep, ImageCache};
use dogana::image_builder::{
    build_arguments, build_outcome, copy_bins_instruction, dockerfile_content, dockerfile_name,
    install_system_packages_instruction, output_image_name, ImageBuildError, ImageBuilder,
};
use dogana::image_builder_factory::ImageBuilderFactory;
use dogana::image_name::ImageName;
use dogana::metadata::dogana_metadata::{DoganaMetadata, ImageVariant, VariantMetadata};
use dogana::metadata::msrv::{msrv_from_rustc, rustc_version, CommandError, MsrvError};
use dogana::metadata::{
    package_bins, package_msrv, package_name, package_version, required_system_packages,
    PackageMetadata,
};
use dogana::text::decode_text;

fn meta(bins: &[&str], debian_packages: Option<&[&str]>) -> PackageMetadata {
    PackageMetadata {
        name: "mytool".to_string(),
        version: "0.3.1".to_string(),
        msrv: "1.80.0".to_string(),
        bins: bins.iter().map(|b| b.to_string()).collect(),
        dogana: Some(DoganaMetadata {
            dogana: Some(vec![
                (
                    ImageVariant::Alpine,
                    VariantMetadata {
                        required_packages: None,
                    },
                ),
                (
                    ImageVariant::Debian,
                    VariantMetadata {
                        required_packages: debian_packages
                            .map(|p| p.iter().map(|s| s.to_string()).collect()),
                    },
                ),
            ]),
        }),
    }
}

#[test]
fn image_tag_format() {
    let m = meta(&[], None);
    assert_eq!(
        output_image_name(&m, ImageVariant::Debian).as_str(),
        "mytool-integration-tests-base-debian:0.3.1-rust1.80.0"
    );
    assert_eq!(
        output_image_name(&m, ImageVariant::Alpine).to_string(),
        "mytool-integration-tests-base-alpine:0.3.1-rust1.80.0"
    );
    assert_eq!(dockerfile_name(&m, ImageVariant::Alpine), "Dockerfile.mytool-integration-tests.alpine");
    assert_eq!(package_name(&m), "mytool");
    assert_eq!(package_version(&m), "0.3.1");
    assert_eq!(package_msrv(&m), "1.80.0");
    assert!(package_bins(&m).is_empty());
}

#[test]
fn packages_and_binaries_lines() {
    let m = meta(&["a", "b"], Some(&["git", "curl"]));
    assert_eq!(
        required_system_packages(&m, ImageVariant::Debian),
        vec!["git".to_string(), "curl".to_string()]
    );
    assert!(required_system_packages(&m, ImageVariant::Alpine).is_empty());
    assert_eq!(
        install_system_packages_instruction(&m, ImageVariant::Debian),
        "RUN apt-get update && apt-get install -y --no-install-recommends git curl"
    );
    assert_eq!(install_system_packages_instruction(&m, ImageVariant::Alpine), "");
    assert_eq!(
        ImageVariant::Alpine.install_sys_package_instruction(&["bash".to_string()]),
        "apk add --no-cache bash"
    );
    assert_eq!(
        copy_bins_instruction(&m),
        "COPY --from=builder /project/target/debug/a /project/target/debug/b /usr/local/bin/"
    );
    assert_eq!(copy_bins_instruction(&meta(&[], None)), "");
    let none = PackageMetadata {
        dogana: None,
        ..meta(&[], None)
    };
    assert!(required_system_packages(&none, ImageVariant::Debian).is_empty());
}

#[test]
fn dockerfiles_of_both_variants() {
    let m = meta(&["tool"], Some(&["bash"]));
    let debian = ImageBuilderFactory::debian_builder();
    assert_eq!(debian.variant(), ImageVariant::Debian);
    assert_eq!(
        dockerfile_content(&debian, &m),
        "FROM docker.io/library/rust:1.80.0-slim AS builder\n\
         WORKDIR /project\n\
         COPY ./ ./\n\
         RUN cargo build\n\
         \n\
         FROM docker.io/library/debian:12.9-slim AS runner\n\
         RUN apt-get update && apt-get install -y --no-install-recommends bash\n\
         COPY --from=builder /project/target/debug/tool /usr/local/bin/\n"
    );
    let alpine = ImageBuilderFactory::alpine_builder();
    assert_eq!(alpine.variant(), ImageVariant::Alpine);
    assert_eq!(
        alpine.build_stage_base_image("1.85").as_str(),
        "docker.io/library/rust:1.85-alpine3.21"
    );
    assert_eq!(
        alpine.run_stage_base_image().as_str(),
        "docker.io/library/alpine:3.21"
    );
    assert_eq!(
        dockerfile_content(&alpine, &meta(&[], None)),
        "FROM docker.io/library/rust:1.80.0-alpine3.21 AS builder\nWORKDIR /project\nCOPY ./ ./\nRUN cargo build\n\nFROM docker.io/library/alpine:3.21 AS runner\n\n\n"
    );
}

#[test]
fn build_invocation_and_outcome() {
    let tag = ImageName("t:1".to_string());
    assert_eq!(
        build_arguments(&tag, "/tmp/Dockerfile.x"),
        vec!["build", "-t", "t:1", "-f", "/tmp/Dockerfile.x", "."]
    );
    assert_eq!(build_outcome(tag.clone(), true, b"").unwrap().as_str(), "t:1");
}

#[test]
fn failed_build_reports_stderr() {
    let tag = ImageName("t:1".to_string());
    let err = build_outcome(tag.clone(), false, b"disk full").unwrap_err();
    assert_eq!(err.stderr_content, "disk full");
    assert!(err.describe().contains("disk full"));
    assert_eq!(err.describe(), "failed to build image: disk full");
    let err = build_outcome(tag, false, &[0xff]).unwrap_err();
    assert_eq!(err.stderr_content, "the engine's stderr is not valid UTF-8");
    assert_eq!(ImageBuildError::new("x").stderr_content, "x");
}

#[test]
fn cache_builds_each_variant_once() {
    let mut cache = ImageCache::new();
    let mut builds = 0;
    let mut handles = Vec::new();
    for i in 0..5 {
        let h = match cache.request(ImageVariant::Debian) {
            CacheStep::Ready(h) => h,
            CacheStep::Build(v) => {
                assert_eq!(v, ImageVariant::Debian);
                builds += 1;
                cache.complete(v, ImageName(format!("debian-{i}")))
            }
        };
        handles.push(h.to_string());
    }
    assert_eq!(builds, 1);
    assert!(handles.iter().all(|h| h == "debian-0"));
    assert!(matches!(
        cache.request(ImageVariant::Alpine),
        CacheStep::Build(ImageVariant::Alpine)
    ));
    let kept = cache.complete(ImageVariant::Debian, ImageName("other".to_string()));
    assert_eq!(kept.as_str(), "debian-0");
}

#[test]
fn container_manager_selection() {
    assert_eq!(
        select_container_manager(&[None, Some("/usr/bin/docker".to_string())]).unwrap(),
        "/usr/bin/docker"
    );
    assert_eq!(
        select_container_manager(&[
            Some("/usr/bin/podman".to_string()),
            Some("/usr/bin/docker".to_string())
        ])
        .unwrap(),
        "/usr/bin/podman"
    );
    let err = select_container_manager(&[None, None]).unwrap_err();
    assert_eq!(err, SupportedContainerManagerNotFound::new());
    assert_eq!(
        err.describe(),
        "No supported container manager found in path. Install one of [podman, docker]."
    );
}

#[test]
fn msrv_from_compiler_output() {
    assert_eq!(
        rustc_version("rustc 1.80.0 (051478957 2024-07-21)\n").as_deref(),
        Some("1.80.0")
    );
    assert_eq!(rustc_version("rustc 1.80.0").as_deref(), Some("1.80.0"));
    assert_eq!(rustc_version("rustc"), None);
    assert_eq!(
        msrv_from_rustc(true, b"rustc 1.79.0 (x)\n", b"").unwrap(),
        "1.79.0"
    );
    match msrv_from_rustc(false, b"", b"boom") {
        Err(MsrvError::Command(e)) => {
            assert_eq!(e.error, "boom");
            assert_eq!(e.describe(), "command execution failed: boom");
        }
        other => panic!("unexpected {other:?}"),
    }
    assert!(matches!(
        msrv_from_rustc(true, b"rustc", b""),
        Err(MsrvError::MissingVersion)
    ));
    assert!(matches!(
        msrv_from_rustc(true, &[0xff], b""),
        Err(MsrvError::InvalidText)
    ));
    assert_eq!(CommandError::new("x").error, "x");
}

#[test]
fn decoding_text() {
    assert_eq!(decode_text("ä€".as_bytes()).as_deref(), Some("ä€"));
    assert_eq!(decode_text(&[0xe2, 0x82]), None);
}
