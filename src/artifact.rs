use vstd::prelude::*;

use crate::error::DeployError;
use crate::names::Platform;

verus! {

/// A generated configuration document and where it is meant to be written.
pub struct Artifact {
    pub platform: Platform,
    pub path: String,
    pub document: String,
}

pub struct ArtifactView {
    pub platform: Platform,
    pub path: Seq<char>,
    pub document: Seq<char>,
}

impl View for Artifact {
    type V = ArtifactView;

    open spec fn view(&self) -> ArtifactView {
        ArtifactView { platform: self.platform, path: self.path@, document: self.document@ }
    }
}

/// The text of an optional string argument.
pub open spec fn opt_view(o: Option<String>) -> Option<Seq<char>> {
    match o {
        Some(s) => Some(s@),
        None => None,
    }
}

/// A generation result with the artifact seen through its view.
pub open spec fn result_view(r: Result<Artifact, DeployError>) -> Result<ArtifactView, DeployError> {
    match r {
        Ok(a) => Ok(a@),
        Err(e) => Err(e),
    }
}

} // verus!
