use otlp2parquet_deploy::artifact::Artifact;
use otlp2parquet_deploy::aws::AwsArgs;
use otlp2parquet_deploy::cloudflare::CloudflareArgs;
use otlp2parquet_deploy::error::{ArgField, DeployError};
use otlp2parquet_deploy::names::{NameError, Platform};
use otlp2parquet_deploy::DeployCommand;

fn cf(name: Option<&str>, bucket: Option<&str>, account: Option<&str>, output: Option<&str>) -> DeployCommand {
    DeployCommand::Cloudflare(CloudflareArgs {
        name: name.map(String::from),
        bucket: bucket.map(String::from),
        account_id: account.map(String::from),
        output: output.map(String::from),
    })
}

fn aws(stack: Option<&str>, bucket: Option<&str>, tables: bool, output: Option<&str>) -> DeployCommand {
    DeployCommand::Aws(AwsArgs {
        stack_name: stack.map(String::from),
        bucket_name: bucket.map(String::from),
        tables,
        output: output.map(String::from),
    })
}

fn ok(cmd: DeployCommand) -> Artifact {
    match cmd.run() {
        Ok(a) => a,
        Err(e) => panic!("generation failed: {:?}", e),
    }
}

fn err(cmd: DeployCommand) -> DeployError {
    match cmd.run() {
        Ok(a) => panic!("unexpected document at {}", a.path),
        Err(e) => e,
    }
}

const CF_BODY: &str = "main = \"build/worker/shim.mjs\"
compatibility_date = \"2024-11-01\"

[build]
command = \"cargo install -q worker-build && worker-build --release\"

[[r2_buckets]]
binding = \"OTLP_BUCKET\"
bucket_name = \"";

#[test]
fn cloudflare_manifest_binds_derived_bucket() {
    let a = ok(cf(Some("otlp-demo"), Some("otlp-demo-data"), None, None));
    assert_eq!(a.platform, Platform::Cloudflare);
    assert_eq!(a.path, "wrangler.toml");
    let expected = format!("name = \"otlp-demo\"\n{}otlp-demo-data\"\n", CF_BODY);
    assert_eq!(a.document, expected);
}

#[test]
fn cloudflare_manifest_normalizes_names() {
    let a = ok(cf(Some("My Demo"), Some("Demo_Data.Store"), None, Some("out/wrangler.toml")));
    assert_eq!(a.path, "out/wrangler.toml");
    assert!(a.document.starts_with("name = \"my-demo\"\n"));
    assert!(a.document.ends_with("bucket_name = \"demo-data-store\"\n"));
}

#[test]
fn cloudflare_manifest_with_account() {
    let id = "0123456789abcdef0123456789abcdef";
    let a = ok(cf(Some("otlp-demo"), Some("otlp-demo-data"), Some(id), None));
    let expected = format!(
        "name = \"otlp-demo\"\naccount_id = \"{}\"\n{}otlp-demo-data\"\n",
        id, CF_BODY
    );
    assert_eq!(a.document, expected);
}

#[test]
fn aws_template_names_function_and_bucket_from_stack() {
    let a = ok(aws(Some("otlp-prod"), None, false, None));
    assert_eq!(a.platform, Platform::Aws);
    assert_eq!(a.path, "template.yaml");
    let d = &a.document;
    assert!(d.starts_with("AWSTemplateFormatVersion: \"2010-09-09\"\n"));
    assert!(d.contains("Description: otlp2parquet ingestion stack otlp-prod\n"));
    assert!(d.contains("    Type: AWS::Serverless::Function\n"));
    assert!(d.contains("      FunctionName: otlp-prod-ingest\n"));
    assert!(d.contains("          OTLP2PARQUET_BUCKET: otlp-prod-data\n"));
    assert!(d.contains("          OTLP2PARQUET_STORAGE: s3\n"));
    assert!(d.contains("    Type: AWS::S3::Bucket\n"));
    assert!(d.ends_with("      BucketName: otlp-prod-data\n"));
}

#[test]
fn aws_template_with_table_bucket() {
    let a = ok(aws(Some("otlp-prod"), Some("Telemetry Tables"), true, Some("sam.yaml")));
    assert_eq!(a.path, "sam.yaml");
    let d = &a.document;
    assert!(d.contains("          OTLP2PARQUET_STORAGE: s3tables\n"));
    assert!(d.contains("    Type: AWS::S3Tables::TableBucket\n"));
    assert!(d.ends_with("      TableBucketName: telemetry-tables\n"));
    assert!(!d.contains("AWS::S3::Bucket"));
}

#[test]
fn missing_required_arguments() {
    assert_eq!(
        err(cf(None, Some("otlp-demo-data"), None, None)),
        DeployError::Argument { platform: Platform::Cloudflare, field: ArgField::ProjectName }
    );
    assert_eq!(
        err(cf(Some("otlp-demo"), None, None, None)),
        DeployError::Argument { platform: Platform::Cloudflare, field: ArgField::BucketName }
    );
    assert_eq!(
        err(aws(None, Some("bucket"), false, None)),
        DeployError::Argument { platform: Platform::Aws, field: ArgField::StackName }
    );
}

#[test]
fn malformed_arguments() {
    assert_eq!(
        err(cf(Some("otlp-demo"), Some("data"), Some("ABC"), None)),
        DeployError::Argument { platform: Platform::Cloudflare, field: ArgField::AccountId }
    );
    assert_eq!(
        err(cf(Some("otlp-demo"), Some("data"), Some("0123456789abcdef0123456789abcdeg"), None)),
        DeployError::Argument { platform: Platform::Cloudflare, field: ArgField::AccountId }
    );
    assert_eq!(
        err(cf(Some("otlp-demo"), Some("data"), None, Some(""))),
        DeployError::Argument { platform: Platform::Cloudflare, field: ArgField::Output }
    );
    assert_eq!(
        err(aws(Some("otlp-prod"), None, false, Some(""))),
        DeployError::Argument { platform: Platform::Aws, field: ArgField::Output }
    );
}

#[test]
fn argument_errors_come_before_name_errors() {
    assert_eq!(
        err(cf(Some(""), Some("data"), Some("x"), None)),
        DeployError::Argument { platform: Platform::Cloudflare, field: ArgField::AccountId }
    );
}

#[test]
fn unusable_names_fail() {
    assert_eq!(
        err(cf(Some("!!!"), Some("data"), None, None)),
        DeployError::Name {
            platform: Platform::Cloudflare,
            field: ArgField::ProjectName,
            cause: NameError::Empty
        }
    );
    assert_eq!(
        err(cf(Some("demo"), Some("ab"), None, None)),
        DeployError::Name {
            platform: Platform::Cloudflare,
            field: ArgField::BucketName,
            cause: NameError::TooShort
        }
    );
    assert_eq!(
        err(aws(Some("2024"), None, false, None)),
        DeployError::Name { platform: Platform::Aws, field: ArgField::StackName, cause: NameError::Empty }
    );
    assert_eq!(
        err(aws(Some("otlp-prod"), Some("--"), false, None)),
        DeployError::Name { platform: Platform::Aws, field: ArgField::BucketName, cause: NameError::Empty }
    );
}

#[test]
fn generation_twice_gives_identical_documents() {
    let a = ok(aws(Some("otlp-prod"), None, true, None));
    let b = ok(aws(Some("otlp-prod"), None, true, None));
    assert_eq!(a.document, b.document);
    assert_eq!(a.path, b.path);
    let c = ok(cf(Some("otlp-demo"), Some("otlp-demo-data"), None, None));
    let d = ok(cf(Some("otlp-demo"), Some("otlp-demo-data"), None, None));
    assert_eq!(c.document, d.document);
}

#[test]
fn each_command_yields_its_own_platform() {
    let a = ok(cf(Some("otlp-demo"), Some("otlp-demo-data"), None, None));
    assert_eq!(a.platform, Platform::Cloudflare);
    assert!(!a.document.contains("AWS::"));
    let b = ok(aws(Some("otlp-demo"), Some("otlp-demo-data"), false, None));
    assert_eq!(b.platform, Platform::Aws);
    assert!(!b.document.contains("r2_buckets"));
}
