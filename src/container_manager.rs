//! The choice of the container engine among those installed on the host.
use vstd::prelude::*;

use crate::text::{join, join_strings, str_views, to_strings};

verus! {

/// The supported container engines, most preferred first.
pub const SUPPORTED_MANAGERS: [&'static str; 2] = ["podman", "docker"];

/// No supported container engine is installed.
#[derive(Debug, Clone, Copy, PartialEq, Eq, Structural)]
pub struct SupportedContainerManagerNotFound {}

impl SupportedContainerManagerNotFound {
    pub fn new() -> (r: Self) {
        SupportedContainerManagerNotFound {  }
    }

    /// The description of the failure, naming the supported engines.
    pub fn describe(&self) -> (r: String)
        ensures
            r@ == "No supported container manager found in path. Install one of ["@ + join(
                str_views(SUPPORTED_MANAGERS@),
                ", "@,
            ) + "]."@,
    {
        let names = to_strings(SUPPORTED_MANAGERS.as_slice());
        let joined = join_strings(names.as_slice(), ", ");
        let mut r = "No supported container manager found in path. Install one of [".to_owned();
        r.append(joined.as_str());
        r.append("].");
        r
    }
}

/// The first path that was found, if any.
pub open spec fn first_found(found: Seq<Option<String>>) -> Option<Seq<char>>
    decreases found.len(),
{
    if found.len() == 0 {
        None
    } else {
        match found[0] {
            Some(p) => Some(p@),
            None => first_found(found.drop_first()),
        }
    }
}

/// The engine to use: the first one found. `found[i]` is where the `i`-th supported engine was
/// found on the host, if it was.
pub fn select_container_manager(found: &[Option<String>]) -> (r: Result<
    String,
    SupportedContainerManagerNotFound,
>)
    ensures
        match first_found(found@) {
            Some(p) => r matches Ok(x) && x@ == p,
            None => r is Err,
        },
{
    let mut i: usize = 0;
    assert(found@.subrange(0, found@.len() as int) =~= found@);
    while i < found.len()
        invariant
            i <= found.len(),
            first_found(found@) == first_found(found@.subrange(i as int, found@.len() as int)),
        decreases found.len() - i,
    {
        let ghost rest = found@.subrange(i as int, found@.len() as int);
        assert(rest[0] == found@[i as int]);
        assert(rest.drop_first() =~= found@.subrange(i + 1, found@.len() as int));
        match &found[i] {
            Some(p) => {
                return Ok(p.clone());
            },
            None => {},
        }
        i += 1;
    }
    assert(found@.subrange(i as int, found@.len() as int).len() == 0);
    Err(SupportedContainerManagerNotFound::new())
}

} // verus!
