//! Generation of deployment configuration for the OTLP-to-Parquet pipeline: a
//! Workers manifest for Cloudflare and a SAM template for AWS.
use vstd::prelude::*;

pub mod artifact;
pub mod aws;
pub mod cloudflare;
pub mod error;
pub mod names;

use crate::artifact::{result_view, Artifact, ArtifactView};
use crate::aws::{AwsArgs, AwsArgsView};
use crate::cloudflare::{CloudflareArgs, CloudflareArgsView};
use crate::error::{ArgField, DeployError};
use crate::names::Platform;

verus! {

/// The `create` subcommands: one per platform, each with its arguments.
pub enum DeployCommand {
    /// Generate wrangler.toml for Cloudflare Workers + R2 (alias `cf`).
    Cloudflare(CloudflareArgs),
    /// Generate template.yaml for AWS Lambda + S3/S3 Tables.
    Aws(AwsArgs),
}

pub enum DeployCommandView {
    Cloudflare(CloudflareArgsView),
    Aws(AwsArgsView),
}

impl View for DeployCommand {
    type V = DeployCommandView;

    open spec fn view(&self) -> DeployCommandView {
        match self {
            DeployCommand::Cloudflare(a) => DeployCommandView::Cloudflare(a@),
            DeployCommand::Aws(a) => DeployCommandView::Aws(a@),
        }
    }
}

/// The platform a command targets.
pub open spec fn platform_of(c: DeployCommandView) -> Platform {
    match c {
        DeployCommandView::Cloudflare(_) => Platform::Cloudflare,
        DeployCommandView::Aws(_) => Platform::Aws,
    }
}

/// What running a command produces: the result of the generator of its platform.
pub open spec fn run_spec(c: DeployCommandView) -> Result<ArtifactView, DeployError> {
    match c {
        DeployCommandView::Cloudflare(a) => cloudflare::generate_spec(a),
        DeployCommandView::Aws(a) => aws::generate_spec(a),
    }
}

/// The platform that a result, document or failure, concerns.
pub open spec fn result_platform(r: Result<ArtifactView, DeployError>) -> Platform {
    match r {
        Ok(a) => a.platform,
        Err(DeployError::Argument { platform, .. }) => platform,
        Err(DeployError::Name { platform, .. }) => platform,
    }
}

impl DeployCommand {
    /// Runs the generator of the command's platform and hands back its result unchanged.
    pub fn run(self) -> (r: Result<Artifact, DeployError>)
        ensures
            result_view(r) == run_spec(self@),
            result_platform(result_view(r)) == platform_of(self@),
    {
        proof {
            dispatch_is_exclusive(self@);
        }
        match self {
            DeployCommand::Cloudflare(args) => cloudflare::generate(args),
            DeployCommand::Aws(args) => aws::generate(args),
        }
    }
}

/// Each command is handled by the generator of its own platform alone: its result is
/// that generator's result, and every document or failure it yields is of that platform.
pub proof fn dispatch_is_exclusive(c: DeployCommandView)
    ensures
        c matches DeployCommandView::Cloudflare(a) ==> run_spec(c) == cloudflare::generate_spec(a),
        c matches DeployCommandView::Aws(a) ==> run_spec(c) == aws::generate_spec(a),
        result_platform(run_spec(c)) == platform_of(c),
{
}

/// Generation is deterministic: two commands with the same arguments produce the
/// same document at the same path, or the same failure.
pub proof fn generation_is_deterministic(c1: DeployCommandView, c2: DeployCommandView)
    requires
        c1 == c2,
    ensures
        run_spec(c1) == run_spec(c2),
{
}

/// A command whose arguments lack a required field fails with an argument error of its
/// platform, naming the missing field, before any document is produced.
pub proof fn missing_field_is_argument_error(c: DeployCommandView)
    ensures
        c matches DeployCommandView::Cloudflare(a) && a.name is None ==> run_spec(c) == Err::<
            ArtifactView,
            DeployError,
        >(DeployError::Argument { platform: Platform::Cloudflare, field: ArgField::ProjectName }),
        c matches DeployCommandView::Cloudflare(a) && a.name is Some && a.bucket is None
            ==> run_spec(c) == Err::<ArtifactView, DeployError>(
            DeployError::Argument { platform: Platform::Cloudflare, field: ArgField::BucketName },
        ),
        c matches DeployCommandView::Aws(a) && a.stack_name is None ==> run_spec(c) == Err::<
            ArtifactView,
            DeployError,
        >(DeployError::Argument { platform: Platform::Aws, field: ArgField::StackName }),
{
}

} // verus!
