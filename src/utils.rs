//! Random names and the one-time installation of the analyzer runtime.

use vstd::prelude::*;

use rand::Rng;

verus! {

/// Where the analyzer runtime is unpacked.
pub const RUNTIME_ROOT: &'static str = "/tmp/cj";

/// The analyzer's executable inside the runtime.
pub const ANALYZER_PATH: &'static str = "/tmp/cj/tools/bin/cjlint";

/// Where a runtime is unpacked before it is moved into place as a whole.
pub const RUNTIME_STAGING: &'static str = "/tmp/cj.staging";

/// An ASCII letter or digit.
pub open spec fn is_alphanumeric(c: char) -> bool {
    ('a' <= c && c <= 'z') || ('A' <= c && c <= 'Z') || ('0' <= c && c <= '9')
}

/// Relies on `rand::rng` sampled through `rand::distr::Alphanumeric`: `length`
/// characters, each drawn from the ASCII letters and digits.
#[verifier::external_body]
pub fn generate_random_string(length: usize) -> (r: String)
    ensures
        r@.len() == length,
        forall|i: int| 0 <= i < r@.len() ==> is_alphanumeric(#[trigger] r@[i]),
{
    rand::rng().sample_iter(rand::distr::Alphanumeric).take(length).map(char::from).collect()
}

/// What zstd decompression makes of `archive`, or `None` when it is no valid zstd data.
pub uninterp spec fn zstd_decoded(archive: Seq<u8>) -> Option<Seq<u8>>;

/// Relies on `zstd::stream::decode_all`: it decompresses every frame of `archive`
/// and fails on data that is not zstd; the outcome depends on the bytes alone.
#[verifier::external_body]
fn zstd_decode_all(archive: &[u8]) -> (r: Result<Vec<u8>, String>)
    ensures
        match r {
            Ok(v) => zstd_decoded(archive@) == Some(v@),
            Err(_) => zstd_decoded(archive@) is None,
        },
{
    zstd::stream::decode_all(archive).map_err(|e| e.to_string())
}

/// Why the analyzer runtime could not be made ready.
#[derive(Clone, Debug, PartialEq, Eq)]
pub enum ProvisionError {
    /// The embedded bundle is not valid compressed data.
    Decompress(String),
    /// Unpacking, setting permissions or moving the runtime into place failed.
    Install(String),
}

impl ProvisionError {
    /// A description of the failure.
    pub fn message(&self) -> (r: String)
        ensures
            r@ == provision_error_text(*self),
    {
        match self {
            ProvisionError::Decompress(e) => String::from_str("Failed to decompress the analyzer bundle: ").concat(e.as_str()),
            ProvisionError::Install(e) => String::from_str("Failed to install the analyzer runtime: ").concat(e.as_str()),
        }
    }
}

pub open spec fn provision_error_text(e: ProvisionError) -> Seq<char> {
    match e {
        ProvisionError::Decompress(m) => "Failed to decompress the analyzer bundle: "@ + m@,
        ProvisionError::Install(m) => "Failed to install the analyzer runtime: "@ + m@,
    }
}

/// Decompresses the embedded runtime bundle into the archive it holds.
pub fn decode_bundle(bundle: &[u8]) -> (r: Result<Vec<u8>, ProvisionError>)
    ensures
        match r {
            Ok(v) => zstd_decoded(bundle@) == Some(v@),
            Err(e) => zstd_decoded(bundle@) is None && e is Decompress,
        },
{
    match zstd_decode_all(bundle) {
        Ok(v) => Ok(v),
        Err(e) => Err(ProvisionError::Decompress(e)),
    }
}

/// What a readiness check asks of the caller.
#[derive(Clone, Copy, Debug, PartialEq, Eq, Structural)]
pub enum ProvisionStep {
    /// The runtime is installed; nothing to do.
    Ready,
    /// Unpack the bundle into the staging directory, make the analyzer executable,
    /// move the staging directory to the runtime root, then report with `finish`.
    Extract,
}

/// Whether a check must extract, given whether this process already installed the
/// runtime and whether the root and the executable were found.
pub open spec fn needs_extraction(ready: bool, root_exists: bool, executable_exists: bool) -> bool {
    !ready && !(root_exists && executable_exists)
}

/// Process-wide memory of whether the analyzer runtime is installed.
///
/// The runtime counts as installed only when both its root directory and its
/// executable are present: a root without the executable is a partial
/// extraction and is replaced.
pub struct RuntimeProvisioner {
    pub ready: bool,
}

impl RuntimeProvisioner {
    /// A provisioner that has not yet seen the runtime.
    pub fn new() -> (r: RuntimeProvisioner)
        ensures
            !r.ready,
    {
        RuntimeProvisioner { ready: false }
    }

    /// Decides whether the runtime must be extracted, from what was found on disk.
    pub fn check(&mut self, root_exists: bool, executable_exists: bool) -> (r: ProvisionStep)
        ensures
            (r == ProvisionStep::Extract) == needs_extraction(old(self).ready, root_exists, executable_exists),
            final(self).ready == (old(self).ready || (root_exists && executable_exists)),
    {
        if self.ready {
            ProvisionStep::Ready
        } else if root_exists && executable_exists {
            self.ready = true;
            ProvisionStep::Ready
        } else {
            ProvisionStep::Extract
        }
    }

    /// Records how an extraction ended; on failure nothing counts as installed.
    pub fn finish(&mut self, outcome: Result<(), String>) -> (r: Result<(), ProvisionError>)
        ensures
            final(self).ready == outcome is Ok,
            match outcome {
                Ok(_) => r is Ok,
                Err(e) => r == Err::<(), ProvisionError>(ProvisionError::Install(e)),
            },
    {
        match outcome {
            Ok(()) => {
                self.ready = true;
                Ok(())
            },
            Err(e) => {
                self.ready = false;
                Err(ProvisionError::Install(e))
            },
        }
    }
}

/// Two readiness checks in a row extract at most once, provided an extraction
/// that the first check asked for succeeded; afterwards the runtime is ready.
pub proof fn lemma_provision_extracts_once(
    p: RuntimeProvisioner,
    root1: bool,
    exe1: bool,
    extraction_ok: bool,
    root2: bool,
    exe2: bool,
)
    requires
        needs_extraction(p.ready, root1, exe1) ==> extraction_ok,
    ensures
        ({
            let first = needs_extraction(p.ready, root1, exe1);
            let ready1 = if first { extraction_ok } else { p.ready || (root1 && exe1) };
            &&& ready1
            &&& !needs_extraction(ready1, root2, exe2)
        }),
{
}

} // verus!
