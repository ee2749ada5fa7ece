use dogana::dogana_test::accept_exit_code::AcceptExitCode;
use dogana::dogana_test::builder::DoganaTestBuilder;
use dogana::dogana_test::test_options::{DoganaTestOptions, Shell};
use dogana::dogana_test::DoganaTest;
use dogana::image_name::ImageName;

#[test]
#[should_panic]
fn missing_a_required_field_panics() {
    DoganaTestBuilder::new().build();
}

#[test]
fn setting_all_required_fields_allows_to_build_test() {
    let image = ImageName("docker.io/library/debian:12.9-slim".to_string());
    let t = DoganaTestBuilder::new()
        .set_run_commands(&["true"])
        .set_expected_output("")
        .set_base_image(&image)
        .build();
    assert!(t.run_commands == vec!["true".to_string()]);
    assert_eq!(t.expected_output, "");
    assert_eq!(t.base_image.as_str(), "docker.io/library/debian:12.9-slim");
}

#[test]
fn new_builder_is_empty_with_random_name() {
    let b = DoganaTestBuilder::new();
    assert_eq!(b.test_name.chars().count(), 36);
    assert!(b.base_image.is_none());
    assert!(b.run_commands.is_none());
    assert!(b.expected_output.is_none());
    assert!(b.init_commands.is_empty());
    assert_eq!(b.test_options, DoganaTestOptions::default());
    let other = DoganaTest::builder();
    assert_ne!(b.test_name, other.test_name);
}

#[test]
fn missing_fields_are_listed_in_order() {
    let mut b = DoganaTestBuilder::new();
    assert_eq!(
        b.missing_fields(),
        vec![
            "base_image".to_string(),
            "run_commands".to_string(),
            "expected_output".to_string()
        ]
    );
    b.set_run_commands(&["echo a"]);
    assert_eq!(
        b.missing_fields(),
        vec!["base_image".to_string(), "expected_output".to_string()]
    );
    b.set_expected_output("a")
        .set_base_image(&ImageName("img".to_string()));
    assert!(b.missing_fields().is_empty());
}

#[test]
fn builder_can_stamp_several_tests() {
    let mut b = DoganaTestBuilder::new();
    b.set_base_image(&ImageName("img".to_string()))
        .set_init_commands(&["mkdir x", "cd x"])
        .set_run_commands(&["pwd"])
        .set_expected_output("/x")
        .set_test_options(DoganaTestOptions {
            shell: Shell::Bash,
            keep_old_containers: true,
            accepted_exit_codes: AcceptExitCode::All,
        });
    let first = b.build();
    b.set_expected_output("/y");
    let second = b.build();
    assert_eq!(first.expected_output, "/x");
    assert_eq!(second.expected_output, "/y");
    assert_eq!(first.init_commands, vec!["mkdir x".to_string(), "cd x".to_string()]);
    assert_eq!(second.test_options.shell, Shell::Bash);
    assert_eq!(first.test_name, second.test_name);
}

#[test]
fn default_options() {
    let o = DoganaTestOptions::default();
    assert_eq!(o.shell, Shell::Sh);
    assert!(!o.keep_old_containers);
    assert_eq!(o.accepted_exit_codes, AcceptExitCode::Success);
    assert_eq!(Shell::default(), Shell::Sh);
    assert_eq!(Shell::Sh.to_string(), "sh");
    assert_eq!(Shell::Bash.to_string(), "bash");
}
