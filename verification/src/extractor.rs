use vstd::prelude::*;

verus! {

use crate::http::Version;

/// A value that can be pulled out of a keyword-argument table knows the
/// key it lives under.
pub trait ExtractorName {
    /// The key this parameter lives under.
    fn extractor_name() -> (s: &'static str);
}

/// The result of looking one optional parameter up: either the converted
/// value, or nothing when the key was absent.
pub struct Extractor<T: ExtractorName> {
    value: Option<T>,
}

impl<T: ExtractorName> Extractor<T> {
    /// What the extraction found.
    pub closed spec fn spec_inner(&self) -> Option<T> {
        self.value
    }

    /// Wrap what an extraction found.
    pub fn found(value: T) -> (r: Extractor<T>)
        ensures
            r.spec_inner() == Some(value),
    {
        Extractor { value: Some(value) }
    }

    /// Record that the key was absent.
    pub fn absent() -> (r: Extractor<T>)
        ensures
            r.spec_inner() is None,
    {
        Extractor { value: None }
    }

    /// Consume the extractor and hand the wrapped value out.
    pub fn into_inner(self) -> (r: Option<T>)
        ensures
            r == self.spec_inner(),
    {
        self.value
    }
}

impl ExtractorName for Version {
    /// HTTP versions are passed under the `version` key.
    fn extractor_name() -> (s: &'static str)
        ensures
            s@ == "version"@,
    {
        "version"
    }
}

} // verus!
