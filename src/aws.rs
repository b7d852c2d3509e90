use vstd::prelude::*;

use crate::artifact::{opt_view, Artifact, ArtifactView};
use crate::error::{ArgField, DeployError};
use crate::names::{derive_name, derived, NameError, Platform};

verus! {

/// Where the template goes when no output path is given.
pub const DEFAULT_PATH: &'static str = "template.yaml";

/// Appended to the stack name to name the Lambda function.
pub const FUNCTION_SUFFIX: &'static str = "-ingest";

/// Appended to the stack name to name the bucket when none is given.
pub const BUCKET_SUFFIX: &'static str = "-data";

pub const TEMPLATE_HEAD: &'static str = "AWSTemplateFormatVersion: \"2010-09-09\"
Transform: AWS::Serverless-2016-10-31
Description: otlp2parquet ingestion stack ";

pub const FUNCTION_HEAD: &'static str = "

Resources:
  IngestFunction:
    Type: AWS::Serverless::Function
    Properties:
      FunctionName: ";

pub const FUNCTION_BODY: &'static str = "
      Runtime: provided.al2023
      Handler: bootstrap
      Architectures:
        - arm64
      MemorySize: 512
      Timeout: 30
      FunctionUrlConfig:
        AuthType: AWS_IAM
      Environment:
        Variables:
          OTLP2PARQUET_BUCKET: ";

pub const S3_STORAGE: &'static str = "
          OTLP2PARQUET_STORAGE: s3
  DataBucket:
    Type: AWS::S3::Bucket
    Properties:
      BucketName: ";

pub const TABLES_STORAGE: &'static str = "
          OTLP2PARQUET_STORAGE: s3tables
  DataBucket:
    Type: AWS::S3Tables::TableBucket
    Properties:
      TableBucketName: ";

pub const NEWLINE: &'static str = "\n";

/// Arguments of `create aws`.
pub struct AwsArgs {
    /// CloudFormation stack name; the function is named after it. Required.
    pub stack_name: Option<String>,
    /// Name of the bucket; the stack name with `-data` when absent.
    pub bucket_name: Option<String>,
    /// Store data in an S3 table bucket rather than a plain S3 bucket.
    pub tables: bool,
    /// Where to write the template; `template.yaml` when absent.
    pub output: Option<String>,
}

pub struct AwsArgsView {
    pub stack_name: Option<Seq<char>>,
    pub bucket_name: Option<Seq<char>>,
    pub tables: bool,
    pub output: Option<Seq<char>>,
}

impl View for AwsArgs {
    type V = AwsArgsView;

    open spec fn view(&self) -> AwsArgsView {
        AwsArgsView {
            stack_name: opt_view(self.stack_name),
            bucket_name: opt_view(self.bucket_name),
            tables: self.tables,
            output: opt_view(self.output),
        }
    }
}

/// The template text for a stack, its function and its bucket.
pub open spec fn template_text(
    stack: Seq<char>,
    function: Seq<char>,
    bucket: Seq<char>,
    tables: bool,
) -> Seq<char> {
    let head = TEMPLATE_HEAD@ + stack + FUNCTION_HEAD@ + function + FUNCTION_BODY@ + bucket;
    let head = if tables {
        head + TABLES_STORAGE@
    } else {
        head + S3_STORAGE@
    };
    head + bucket + NEWLINE@
}

/// The argument error, if any, in the order the arguments are checked.
pub open spec fn argument_error(a: AwsArgsView) -> Option<ArgField> {
    if a.stack_name is None {
        Some(ArgField::StackName)
    } else if a.output matches Some(o) && o.len() == 0 {
        Some(ArgField::Output)
    } else {
        None
    }
}

/// The base the bucket name is derived from, given the derived stack name.
pub open spec fn bucket_base(a: AwsArgsView, stack: Seq<char>) -> Seq<char> {
    match a.bucket_name {
        Some(b) => b,
        None => stack + BUCKET_SUFFIX@,
    }
}

/// The argument that the bucket name comes from.
pub open spec fn bucket_field(a: AwsArgsView) -> ArgField {
    if a.bucket_name is Some {
        ArgField::BucketName
    } else {
        ArgField::StackName
    }
}

/// What `create aws` produces for the given arguments.
pub open spec fn generate_spec(a: AwsArgsView) -> Result<ArtifactView, DeployError> {
    let p = Platform::Aws;
    match argument_error(a) {
        Some(f) => Err(DeployError::Argument { platform: p, field: f }),
        None => match derived(a.stack_name.unwrap(), p) {
            Err(e) => Err(DeployError::Name { platform: p, field: ArgField::StackName, cause: e }),
            Ok(stack) => match derived(stack + FUNCTION_SUFFIX@, p) {
                Err(e) => Err(
                    DeployError::Name { platform: p, field: ArgField::StackName, cause: e },
                ),
                Ok(function) => match derived(bucket_base(a, stack), p) {
                    Err(e) => Err(
                        DeployError::Name { platform: p, field: bucket_field(a), cause: e },
                    ),
                    Ok(bucket) => Ok(
                        ArtifactView {
                            platform: p,
                            path: match a.output {
                                Some(o) => o,
                                None => DEFAULT_PATH@,
                            },
                            document: template_text(stack, function, bucket, a.tables),
                        },
                    ),
                },
            },
        },
    }
}

fn name_error(field: ArgField, cause: NameError) -> (r: DeployError)
    ensures
        r == (DeployError::Name { platform: Platform::Aws, field, cause }),
{
    DeployError::Name { platform: Platform::Aws, field, cause }
}

fn argument(field: ArgField) -> (r: DeployError)
    ensures
        r == (DeployError::Argument { platform: Platform::Aws, field }),
{
    DeployError::Argument { platform: Platform::Aws, field }
}

/// Builds the SAM template for the arguments: a Lambda function and its storage
/// resource, both under names derived from the stack name.
pub fn generate(args: AwsArgs) -> (r: Result<Artifact, DeployError>)
    ensures
        crate::artifact::result_view(r) == generate_spec(args@),
{
    let ghost a = args@;
    let stack_arg = match args.stack_name {
        Some(s) => s,
        None => return Err(argument(ArgField::StackName)),
    };
    if let Some(o) = &args.output {
        if o.as_str().unicode_len() == 0 {
            return Err(argument(ArgField::Output));
        }
    }
    assert(argument_error(a) is None);
    let stack = match derive_name(stack_arg.as_str(), Platform::Aws) {
        Ok(s) => s,
        Err(e) => return Err(name_error(ArgField::StackName, e)),
    };
    let function_base = stack.clone().concat(FUNCTION_SUFFIX);
    let function = match derive_name(function_base.as_str(), Platform::Aws) {
        Ok(f) => f,
        Err(e) => return Err(name_error(ArgField::StackName, e)),
    };
    let (base, field) = match args.bucket_name {
        Some(b) => (b, ArgField::BucketName),
        None => (stack.clone().concat(BUCKET_SUFFIX), ArgField::StackName),
    };
    let bucket = match derive_name(base.as_str(), Platform::Aws) {
        Ok(b) => b,
        Err(e) => return Err(name_error(field, e)),
    };
    let mut doc = String::from_str(TEMPLATE_HEAD);
    doc.append(stack.as_str());
    doc.append(FUNCTION_HEAD);
    doc.append(function.as_str());
    doc.append(FUNCTION_BODY);
    doc.append(bucket.as_str());
    if args.tables {
        doc.append(TABLES_STORAGE);
    } else {
        doc.append(S3_STORAGE);
    }
    doc.append(bucket.as_str());
    doc.append(NEWLINE);
    let path = match args.output {
        Some(o) => o,
        None => String::from_str(DEFAULT_PATH),
    };
    Ok(Artifact { platform: Platform::Aws, path, document: doc })
}

} // verus!
