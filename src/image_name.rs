//! The name of a container image.
use vstd::prelude::*;

verus! {

/// A container image reference, such as `docker.io/library/alpine:3.21`.
#[derive(Debug, Clone)]
pub struct ImageName(pub String);

impl View for ImageName {
    type V = Seq<char>;

    open spec fn view(&self) -> Seq<char> {
        self.0@
    }
}

impl ImageName {
    /// The name as text.
    pub fn as_str(&self) -> (r: &str)
        ensures
            r@ == self@,
    {
        self.0.as_str()
    }

    /// The name as an owned string.
    pub fn to_string(&self) -> (r: String)
        ensures
            r@ == self@,
    {
        self.0.clone()
    }

    /// Another image name with the same text.
    pub fn duplicate(&self) -> (r: ImageName)
        ensures
            r@ == self@,
    {
        ImageName(self.0.clone())
    }
}

} // verus!
