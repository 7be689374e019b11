//! The provider's error type. Each variant says exactly which check
//! failed; `message` renders it for pod status conditions.

use vstd::prelude::*;

verus! {

#[derive(Debug)]
pub enum StackableError {
    /// A container image reference could not be read as `product:version`.
    PackageParseError { msg: String },
    /// The pod object itself is unusable for this provider.
    PodValidationError { msg: String },
    /// Required custom resource definitions are not registered.
    CrdMissing { missing_crds: Vec<String> },
    /// A repository object lacked the properties a repository needs.
    RepositoryConversionError,
    /// A URL in a repository definition could not be parsed or resolved.
    UrlParseError { url: String },
    /// A failure outside the pod's own definition.
    RuntimeError { msg: String },
}

impl StackableError {
    /// A human-readable rendering, recorded on pod status.
    pub fn message(&self) -> (r: String)
        ensures
            self matches StackableError::PackageParseError { msg } ==> r@ == msg@,
            self matches StackableError::PodValidationError { msg } ==> r@ == msg@,
            self matches StackableError::RuntimeError { msg } ==> r@ == msg@,
            self is CrdMissing ==> r@
                == "A required custom resource definition is not registered"@,
            self is RepositoryConversionError ==> r@
                == "Unable to convert repository object: no url property"@,
            self matches StackableError::UrlParseError { url } ==> r@ == "Unable to parse url: "@
                + url@,
    {
        match self {
            StackableError::PackageParseError { msg } => msg.clone(),
            StackableError::PodValidationError { msg } => msg.clone(),
            StackableError::CrdMissing { missing_crds: _ } => String::from_str(
                "A required custom resource definition is not registered",
            ),
            StackableError::RepositoryConversionError => String::from_str(
                "Unable to convert repository object: no url property",
            ),
            StackableError::UrlParseError { url } => {
                let mut m = String::from_str("Unable to parse url: ");
                m.append(url.as_str());
                m
            },
            StackableError::RuntimeError { msg } => msg.clone(),
        }
    }
}

} // verus!
