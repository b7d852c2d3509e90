use vstd::prelude::*;

use crate::artifact::{opt_view, Artifact, ArtifactView};
use crate::error::{ArgField, DeployError};
use crate::names::{derive_name, derived, NameError, Platform};

verus! {

/// Where the manifest goes when no output path is given.
pub const DEFAULT_PATH: &'static str = "wrangler.toml";

pub const NAME_KEY: &'static str = "name = \"";

pub const ACCOUNT_KEY: &'static str = "account_id = \"";

pub const LINE_END: &'static str = "\"\n";

pub const WORKER_BODY: &'static str = "main = \"build/worker/shim.mjs\"
compatibility_date = \"2024-11-01\"

[build]
command = \"cargo install -q worker-build && worker-build --release\"

[[r2_buckets]]
binding = \"OTLP_BUCKET\"
bucket_name = \"";

/// Arguments of `create cloudflare`.
pub struct CloudflareArgs {
    /// Project name; the Worker is named after it. Required.
    pub name: Option<String>,
    /// Name of the R2 bucket the Worker writes to. Required.
    pub bucket: Option<String>,
    /// Cloudflare account identifier: 32 lowercase hexadecimal digits.
    pub account_id: Option<String>,
    /// Where to write the manifest; `wrangler.toml` when absent.
    pub output: Option<String>,
}

pub struct CloudflareArgsView {
    pub name: Option<Seq<char>>,
    pub bucket: Option<Seq<char>>,
    pub account_id: Option<Seq<char>>,
    pub output: Option<Seq<char>>,
}

impl View for CloudflareArgs {
    type V = CloudflareArgsView;

    open spec fn view(&self) -> CloudflareArgsView {
        CloudflareArgsView {
            name: opt_view(self.name),
            bucket: opt_view(self.bucket),
            account_id: opt_view(self.account_id),
            output: opt_view(self.output),
        }
    }
}

pub open spec fn is_hex_digit(c: char) -> bool {
    ('0' <= c && c <= '9') || ('a' <= c && c <= 'f')
}

/// A well-formed account identifier.
pub open spec fn is_account_id(s: Seq<char>) -> bool {
    s.len() == 32 && forall|i: int| 0 <= i < s.len() ==> #[trigger] is_hex_digit(s[i])
}

/// The manifest text for a Worker, its bucket and an optional account.
pub open spec fn manifest_text(
    worker: Seq<char>,
    bucket: Seq<char>,
    account: Option<Seq<char>>,
) -> Seq<char> {
    let head = NAME_KEY@ + worker + LINE_END@;
    let head = match account {
        Some(a) => head + ACCOUNT_KEY@ + a + LINE_END@,
        None => head,
    };
    head + WORKER_BODY@ + bucket + LINE_END@
}

/// The argument error, if any, in the order the arguments are checked.
pub open spec fn argument_error(a: CloudflareArgsView) -> Option<ArgField> {
    if a.name is None {
        Some(ArgField::ProjectName)
    } else if a.bucket is None {
        Some(ArgField::BucketName)
    } else if a.account_id matches Some(id) && !is_account_id(id) {
        Some(ArgField::AccountId)
    } else if a.output matches Some(o) && o.len() == 0 {
        Some(ArgField::Output)
    } else {
        None
    }
}

/// What `create cloudflare` produces for the given arguments.
pub open spec fn generate_spec(a: CloudflareArgsView) -> Result<ArtifactView, DeployError> {
    let p = Platform::Cloudflare;
    match argument_error(a) {
        Some(f) => Err(DeployError::Argument { platform: p, field: f }),
        None => match derived(a.name.unwrap(), p) {
            Err(e) => Err(DeployError::Name { platform: p, field: ArgField::ProjectName, cause: e }),
            Ok(worker) => match derived(a.bucket.unwrap(), p) {
                Err(e) => Err(
                    DeployError::Name { platform: p, field: ArgField::BucketName, cause: e },
                ),
                Ok(bucket) => Ok(
                    ArtifactView {
                        platform: p,
                        path: match a.output {
                            Some(o) => o,
                            None => DEFAULT_PATH@,
                        },
                        document: manifest_text(worker, bucket, a.account_id),
                    },
                ),
            },
        },
    }
}

fn check_account_id(s: &str) -> (r: bool)
    ensures
        r == is_account_id(s@),
{
    let len = s.unicode_len();
    if len != 32 {
        return false;
    }
    let mut i: usize = 0;
    while i < len
        invariant
            len == s@.len(),
            i <= len,
            forall|j: int| 0 <= j < i ==> #[trigger] is_hex_digit(s@[j]),
        decreases len - i,
    {
        let c = s.get_char(i);
        if !(('0' <= c && c <= '9') || ('a' <= c && c <= 'f')) {
            assert(!is_hex_digit(s@[i as int]));
            return false;
        }
        i = i + 1;
    }
    true
}

fn name_error(field: ArgField, cause: NameError) -> (r: DeployError)
    ensures
        r == (DeployError::Name { platform: Platform::Cloudflare, field, cause }),
{
    DeployError::Name { platform: Platform::Cloudflare, field, cause }
}

fn argument(field: ArgField) -> (r: DeployError)
    ensures
        r == (DeployError::Argument { platform: Platform::Cloudflare, field }),
{
    DeployError::Argument { platform: Platform::Cloudflare, field }
}

/// Builds the Workers manifest for the arguments, binding the Worker to its R2 bucket
/// under the derived names.
pub fn generate(args: CloudflareArgs) -> (r: Result<Artifact, DeployError>)
    ensures
        crate::artifact::result_view(r) == generate_spec(args@),
{
    let ghost a = args@;
    let name = match args.name {
        Some(n) => n,
        None => return Err(argument(ArgField::ProjectName)),
    };
    let bucket = match args.bucket {
        Some(b) => b,
        None => return Err(argument(ArgField::BucketName)),
    };
    if let Some(id) = &args.account_id {
        if !check_account_id(id.as_str()) {
            return Err(argument(ArgField::AccountId));
        }
    }
    if let Some(o) = &args.output {
        if o.as_str().unicode_len() == 0 {
            return Err(argument(ArgField::Output));
        }
    }
    assert(argument_error(a) is None);
    let worker = match derive_name(name.as_str(), Platform::Cloudflare) {
        Ok(w) => w,
        Err(e) => return Err(name_error(ArgField::ProjectName, e)),
    };
    let bucket_name = match derive_name(bucket.as_str(), Platform::Cloudflare) {
        Ok(b) => b,
        Err(e) => return Err(name_error(ArgField::BucketName, e)),
    };
    let mut doc = String::from_str(NAME_KEY);
    doc.append(worker.as_str());
    doc.append(LINE_END);
    if let Some(id) = &args.account_id {
        doc.append(ACCOUNT_KEY);
        doc.append(id.as_str());
        doc.append(LINE_END);
    }
    doc.append(WORKER_BODY);
    doc.append(bucket_name.as_str());
    doc.append(LINE_END);
    let path = match args.output {
        Some(o) => o,
        None => String::from_str(DEFAULT_PATH),
    };
    Ok(Artifact { platform: Platform::Cloudflare, path, document: doc })
}

} // verus!
