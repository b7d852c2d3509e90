use vstd::prelude::*;

use crate::names::{NameError, Platform};

verus! {

/// The user-supplied argument that a failure concerns.
#[derive(Clone, Copy, Debug, PartialEq, Eq, Structural)]
pub enum ArgField {
    ProjectName,
    BucketName,
    AccountId,
    StackName,
    Output,
}

/// Why no configuration document was produced.
#[derive(Clone, Copy, Debug, PartialEq, Eq, Structural)]
pub enum DeployError {
    /// A required argument is missing, or an argument is malformed.
    Argument { platform: Platform, field: ArgField },
    /// An identifier could not be turned into a platform-conformant name.
    Name { platform: Platform, field: ArgField, cause: NameError },
}

} // verus!
