//! Assembling a test from required and optional fields.
use vstd::prelude::*;

use crate::dogana_test::test_options::DoganaTestOptions;
use crate::dogana_test::accept_exit_code::AcceptExitCode;
use crate::dogana_test::test_options::Shell;
use crate::dogana_test::DoganaTest;
use crate::image_name::ImageName;
use crate::text::{copy_strings, str_views, to_strings, views};

verus! {

/// Relies on `uuid::Uuid::new_v4` and the `Display` of `Uuid`: a random UUID, written in its
/// hyphenated form of 36 characters.
#[verifier::external_body]
fn random_test_name() -> (r: String)
    ensures
        r@.len() == 36,
{
    uuid::Uuid::new_v4().to_string()
}

/// Convenience struct for creating [DoganaTest]s.
///
/// A builder is not consumed by building a test, so it can prepare several tests with similar
/// values.
///
/// Building a test requires the base image, the run commands and the expected output. The
/// other fields are optional.
#[derive(Debug)]
pub struct DoganaTestBuilder {
    pub test_name: String,
    pub test_options: DoganaTestOptions,
    pub base_image: Option<ImageName>,
    pub init_commands: Vec<String>,
    pub run_commands: Option<Vec<String>>,
    pub expected_output: Option<String>,
}

/// The name of each required field, in order.
pub open spec fn required_field_names() -> Seq<Seq<char>> {
    seq!["base_image"@, "run_commands"@, "expected_output"@]
}

impl DoganaTestBuilder {
    /// A builder as `new` makes it: default options, a random 36-character name, no fields set.
    pub open spec fn is_fresh(self) -> bool {
        &&& self.test_name@.len() == 36
        &&& self.test_options == DoganaTestOptions {
            shell: Shell::Sh,
            keep_old_containers: false,
            accepted_exit_codes: AcceptExitCode::Success,
        }
        &&& self.base_image is None
        &&& self.init_commands@.len() == 0
        &&& self.run_commands is None
        &&& self.expected_output is None
    }

    /// Whether every required field is set.
    pub open spec fn is_complete(self) -> bool {
        &&& self.base_image is Some
        &&& self.run_commands is Some
        &&& self.expected_output is Some
    }

    /// The names of the required fields that are not set, in order.
    pub open spec fn missing(self) -> Seq<Seq<char>> {
        (if self.base_image is None {
            seq![required_field_names()[0]]
        } else {
            Seq::empty()
        }) + (if self.run_commands is None {
            seq![required_field_names()[1]]
        } else {
            Seq::empty()
        }) + (if self.expected_output is None {
            seq![required_field_names()[2]]
        } else {
            Seq::empty()
        })
    }

    /// Initialize a builder with default options and a randomly generated test name.
    pub fn new() -> (r: Self)
        ensures
            r.is_fresh(),
    {
        DoganaTestBuilder {
            test_name: random_test_name(),
            test_options: DoganaTestOptions::default(),
            base_image: None,
            init_commands: Vec::new(),
            run_commands: None,
            expected_output: None,
        }
    }

    pub fn set_test_options(&mut self, test_options: DoganaTestOptions) -> (r: &mut Self)
        ensures
            *r == (DoganaTestBuilder { test_options, ..*old(self) }),
            *final(self) == *final(r),
    {
        self.test_options = test_options;
        self
    }

    pub fn set_base_image(&mut self, base_image: &ImageName) -> (r: &mut Self)
        ensures
            r.base_image matches Some(b) && b@ == base_image@,
            r.test_name == old(self).test_name,
            r.test_options == old(self).test_options,
            r.init_commands == old(self).init_commands,
            r.run_commands == old(self).run_commands,
            r.expected_output == old(self).expected_output,
            *final(self) == *final(r),
    {
        self.base_image = Some(base_image.duplicate());
        self
    }

    pub fn set_init_commands(&mut self, init_commands: &[&str]) -> (r: &mut Self)
        ensures
            views(r.init_commands@) == str_views(init_commands@),
            r.test_name == old(self).test_name,
            r.test_options == old(self).test_options,
            r.base_image == old(self).base_image,
            r.run_commands == old(self).run_commands,
            r.expected_output == old(self).expected_output,
            *final(self) == *final(r),
    {
        self.init_commands = to_strings(init_commands);
        self
    }

    pub fn set_run_commands(&mut self, run_commands: &[&str]) -> (r: &mut Self)
        ensures
            r.run_commands matches Some(c) && views(c@) == str_views(run_commands@),
            r.test_name == old(self).test_name,
            r.test_options == old(self).test_options,
            r.base_image == old(self).base_image,
            r.init_commands == old(self).init_commands,
            r.expected_output == old(self).expected_output,
            *final(self) == *final(r),
    {
        self.run_commands = Some(to_strings(run_commands));
        self
    }

    pub fn set_expected_output(&mut self, expected_output: &str) -> (r: &mut Self)
        ensures
            r.expected_output matches Some(e) && e@ == expected_output@,
            r.test_name == old(self).test_name,
            r.test_options == old(self).test_options,
            r.base_image == old(self).base_image,
            r.init_commands == old(self).init_commands,
            r.run_commands == old(self).run_commands,
            *final(self) == *final(r),
    {
        self.expected_output = Some(expected_output.to_owned());
        self
    }

    /// The names of the required fields that are not set, in order; empty exactly when the
    /// builder can build.
    pub fn missing_fields(&self) -> (r: Vec<String>)
        ensures
            views(r@) == self.missing(),
            r@.len() == 0 <==> self.is_complete(),
    {
        let mut r: Vec<String> = Vec::new();
        if self.base_image.is_none() {
            r.push("base_image".to_owned());
        }
        if self.run_commands.is_none() {
            r.push("run_commands".to_owned());
        }
        if self.expected_output.is_none() {
            r.push("expected_output".to_owned());
        }
        assert(views(r@) =~= self.missing());
        r
    }

    /// The test that the fields describe.
    pub fn build(&self) -> (r: DoganaTest)
        requires
            self.is_complete(),
        ensures
            r.test_name == self.test_name,
            r.base_image@ == self.base_image->0@,
            r.init_commands@ == self.init_commands@,
            r.run_commands@ == self.run_commands->0@,
            r.expected_output == self.expected_output->0,
            r.test_options == self.test_options,
    {
        let base_image = match &self.base_image {
            Some(b) => b.duplicate(),
            None => vstd::pervasive::unreached(),
        };
        let run_commands = match &self.run_commands {
            Some(c) => copy_strings(c),
            None => vstd::pervasive::unreached(),
        };
        let expected_output = match &self.expected_output {
            Some(e) => e.clone(),
            None => vstd::pervasive::unreached(),
        };
        DoganaTest {
            test_name: self.test_name.clone(),
            base_image,
            init_commands: copy_strings(&self.init_commands),
            run_commands,
            expected_output,
            test_options: self.test_options,
        }
    }
}

impl Default for DoganaTestBuilder {
    fn default() -> (r: Self)
        ensures
            r.is_fresh(),
    {
        Self::new()
    }
}

} // verus!
