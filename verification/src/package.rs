//! What the package build prints, and the package that is made of it.

use vstd::prelude::*;
use crate::address::Address;
use crate::base64::{base64_decoded, decode_base64};
use crate::error::{HarnessError, PackageFault};

verus! {

/// Number of bytes in a digest.
pub const DIGEST_LENGTH: usize = 32;

/// The output of the compile subcommand, as it is written in JSON.
#[derive(Clone, Debug, PartialEq, Eq)]
pub struct MoveBuildOutput {
    /// The compiled modules, each in Base64.
    pub modules: Vec<String>,
    /// The addresses of the packages the modules depend on.
    pub dependencies: Vec<Address>,
    /// The digest of the package, byte for byte.
    pub digest: Vec<u8>,
}

/// A package ready to be published: the bytecode of its modules and the
/// addresses of its dependencies.
#[derive(Clone, Debug, PartialEq, Eq)]
pub struct Publish {
    pub modules: Vec<Vec<u8>>,
    pub dependencies: Vec<Address>,
}

/// The digest of a package.
#[derive(Clone, Copy, Debug, PartialEq, Eq)]
pub struct Digest {
    pub bytes: [u8; 32],
}

impl View for Digest {
    type V = Seq<u8>;

    open spec fn view(&self) -> Seq<u8> {
        self.bytes@
    }
}

/// Whether `modules` are the bytecode of `texts`, one for one and in order.
pub open spec fn modules_decoded(texts: Seq<String>, modules: Seq<Vec<u8>>) -> bool {
    &&& modules.len() == texts.len()
    &&& forall|i: int|
        0 <= i < texts.len() ==> base64_decoded(#[trigger] texts[i]@) == Some(modules[i]@)
}

/// Whether `index` is the position of the first text that is not Base64.
pub open spec fn first_bad_module(texts: Seq<String>, index: int) -> bool {
    &&& 0 <= index < texts.len()
    &&& base64_decoded(texts[index]@) is None
    &&& forall|j: int| 0 <= j < index ==> base64_decoded(#[trigger] texts[j]@) is Some
}

/// Whether `got` is the outcome of decoding every module in turn.
pub open spec fn modules_outcome(texts: Seq<String>, got: Result<Vec<Vec<u8>>, HarnessError>) -> bool {
    match got {
        Ok(modules) => modules_decoded(texts, modules@),
        Err(e) => e matches HarnessError::InvalidBuildOutput(PackageFault::Module { index })
            && first_bad_module(texts, index as int),
    }
}

/// Whether `got` is the outcome of reading a digest from `bytes`: the digest
/// with those bytes if there are exactly as many as a digest has.
pub open spec fn digest_outcome(bytes: Seq<u8>, got: Result<Digest, HarnessError>) -> bool {
    if bytes.len() == DIGEST_LENGTH {
        got is Ok && got->Ok_0@ == bytes
    } else {
        got is Err && got->Err_0 == HarnessError::InvalidBuildOutput(
            PackageFault::Digest { len: bytes.len() as usize },
        )
    }
}

/// Whether `got` is the outcome of turning `output` into a package: the
/// modules decoded in order, the dependencies as given and the digest; or the
/// fault of the first module that is not Base64; or, with every module
/// decoded, the fault of a digest of the wrong length.
pub open spec fn package_outcome(
    output: MoveBuildOutput,
    got: Result<(Publish, Digest), HarnessError>,
) -> bool {
    match got {
        Ok((publish, digest)) => {
            &&& modules_decoded(output.modules@, publish.modules@)
            &&& publish.dependencies@ == output.dependencies@
            &&& output.digest@.len() == DIGEST_LENGTH
            &&& digest@ == output.digest@
        },
        Err(e) => {
            ||| e matches HarnessError::InvalidBuildOutput(PackageFault::Module { index })
                && first_bad_module(output.modules@, index as int)
            ||| {
                &&& forall|i: int|
                    0 <= i < output.modules@.len() ==> base64_decoded(
                        #[trigger] output.modules@[i]@,
                    ) is Some
                &&& output.digest@.len() != DIGEST_LENGTH
                &&& e == HarnessError::InvalidBuildOutput(
                    PackageFault::Digest { len: output.digest@.len() as usize },
                )
            }
        },
    }
}

/// Judges the exit status of the compile subcommand. On success the standard
/// output is handed on for parsing; on failure both streams go into the
/// error, untouched.
pub fn build_status(success: bool, stdout: Vec<u8>, stderr: Vec<u8>) -> (outcome: Result<
    Vec<u8>,
    HarnessError,
>)
    ensures
        outcome is Ok <==> success,
        outcome matches Ok(out) ==> out@ == stdout@,
        outcome matches Err(e) ==> e matches HarnessError::BuildSubprocessFailure {
            stdout: out,
            stderr: err,
        } && out@ == stdout@ && err@ == stderr@,
{
    if success {
        Ok(stdout)
    } else {
        Err(HarnessError::BuildSubprocessFailure { stdout, stderr })
    }
}

/// Decodes the modules of a build from Base64, in order, and stops at the
/// first that is not Base64.
pub fn decode_modules(texts: &Vec<String>) -> (modules: Result<Vec<Vec<u8>>, HarnessError>)
    ensures
        modules_outcome(texts@, modules),
{
    let mut modules: Vec<Vec<u8>> = Vec::new();
    let mut i: usize = 0;
    while i < texts.len()
        invariant
            i <= texts@.len(),
            modules_decoded(texts@.take(i as int), modules@),
        decreases texts@.len() - i,
    {
        match decode_base64(texts[i].as_str()) {
            Some(bytes) => {
                modules.push(bytes);
                proof {
                    let next = texts@.take(i + 1);
                    assert forall|k: int| 0 <= k < next.len() implies base64_decoded(
                        #[trigger] next[k]@,
                    ) == Some(modules@[k]@) by {
                        if k < i {
                            assert(texts@.take(i as int)[k] == next[k]);
                        }
                    }
                }
            },
            None => {
                proof {
                    assert forall|j: int| 0 <= j < i implies base64_decoded(
                        #[trigger] texts@[j]@,
                    ) is Some by {
                        assert(texts@.take(i as int)[j] == texts@[j]);
                    }
                }
                return Err(HarnessError::InvalidBuildOutput(PackageFault::Module { index: i }));
            },
        }
        i += 1;
    }
    assert(texts@.take(texts@.len() as int) =~= texts@);
    Ok(modules)
}

/// Reads a digest from exactly thirty-two bytes.
pub fn digest_from_bytes(bytes: &[u8]) -> (digest: Result<Digest, HarnessError>)
    ensures
        digest_outcome(bytes@, digest),
{
    if bytes.len() != DIGEST_LENGTH {
        return Err(HarnessError::InvalidBuildOutput(PackageFault::Digest { len: bytes.len() }));
    }
    let mut material = [0u8; 32];
    let mut i: usize = 0;
    while i < 32
        invariant
            i <= 32,
            bytes@.len() == 32,
            forall|j: int| 0 <= j < i ==> material@[j] == bytes@[j],
        decreases 32 - i,
    {
        material[i] = bytes[i];
        i += 1;
    }
    assert(material@ =~= bytes@);
    Ok(Digest { bytes: material })
}

/// Turns the parsed output of a successful build into the package to publish
/// and its digest.
pub fn decode_build_output(output: MoveBuildOutput) -> (package: Result<
    (Publish, Digest),
    HarnessError,
>)
    ensures
        package_outcome(output, package),
{
    let modules = match decode_modules(&output.modules) {
        Ok(modules) => modules,
        Err(e) => {
            return Err(e);
        },
    };
    let digest = match digest_from_bytes(output.digest.as_slice()) {
        Ok(digest) => digest,
        Err(e) => {
            return Err(e);
        },
    };
    Ok((Publish { modules, dependencies: output.dependencies }, digest))
}

} // verus!
