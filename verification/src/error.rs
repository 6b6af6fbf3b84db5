//! What can go wrong, and the message each failure carries.

use vstd::prelude::*;
use vstd::string::*;
use crate::address::{address_text, Address};
use crate::text::{decimal, escaped, push_decimal, push_escaped};

verus! {

/// Why a transaction could not be assembled.
#[derive(Debug, Clone, PartialEq, Eq)]
#[non_exhaustive]
pub enum Error {
    Input(String),
    WrongGasObject,
    MissingObjectId,
    MissingVersion(Address),
    MissingDigest(Address),
    MissingSender,
    MissingGasObjects,
    MissingGasBudget,
    MissingGasPrice,
    MissingObjectKind(Address),
    SharedObjectMutability(Address),
}

/// The two transactions the harness issues on its own account.
#[derive(Debug, Clone, Copy, PartialEq, Eq)]
pub enum Flow {
    /// The call that brings the system state to its current representation.
    SystemStateUpgrade,
    /// A transfer of freshly made coins to a list of recipients.
    Fund,
}

/// Why a key blob was refused.
#[derive(Debug, Clone, Copy, PartialEq, Eq)]
pub enum KeyFault {
    /// The text is not Base64.
    Encoding,
    /// The blob holds no byte at all, so no scheme flag.
    Empty,
    /// The blob names a signature scheme other than the supported one.
    UnsupportedScheme { flag: u8 },
    /// The key material does not have the length of a private key.
    WrongLength { len: usize },
}

/// Why the output of a package build was refused.
#[derive(Debug, Clone, Copy, PartialEq, Eq)]
pub enum PackageFault {
    /// The module at this position is not Base64.
    Module { index: usize },
    /// The digest does not have the length of a digest.
    Digest { len: usize },
}

/// Every way in which bringing up or driving the network can fail.
#[derive(Debug, Clone, PartialEq, Eq)]
pub enum HarnessError {
    /// No node executable was found; callers skip their work on this one.
    BinaryNotFound,
    /// The genesis subcommand ended with a failure status.
    GenesisFailure,
    /// The node process could not be started.
    ProcessSpawnFailure { reason: String },
    /// The network did not report enough progress within the bound.
    ReadinessTimeout { timeout_secs: u64 },
    /// Key material in the generated configuration is unusable.
    InvalidKey(KeyFault),
    /// The transaction could not be assembled.
    TransactionBuildFailure(Error),
    /// The network executed the transaction and reported a failure.
    TransactionExecutionFailure(Flow),
    /// The compile subcommand ended with a failure status.
    BuildSubprocessFailure { stdout: Vec<u8>, stderr: Vec<u8> },
    /// The compile subcommand succeeded but its output is unusable.
    InvalidBuildOutput(PackageFault),
    /// No free port was found within the allowed number of attempts.
    PortExhaustion,
}

impl Error {
    /// The message of the error.
    pub open spec fn message_text(self) -> Seq<char> {
        match self {
            Error::Input(reason) => "Conversion error due to input issue: "@ + reason@,
            Error::WrongGasObject => "Gas object should be an immutable or owned object"@,
            Error::MissingObjectId => "Missing object id"@,
            Error::MissingVersion(object) => "Missing version for object "@ + address_text(
                object@,
            ),
            Error::MissingDigest(object) => "Missing digest for object "@ + address_text(object@),
            Error::MissingSender => "Missing sender"@,
            Error::MissingGasObjects => "Missing gas objects"@,
            Error::MissingGasBudget => "Missing gas budget"@,
            Error::MissingGasPrice => "Missing gas price"@,
            Error::MissingObjectKind(object) => "Missing object kind for object "@ + address_text(
                object@,
            ),
            Error::SharedObjectMutability(object) => "Unknown shared object mutability for object "@
                + address_text(object@),
        }
    }

    /// Renders the message of the error.
    pub fn message(&self) -> (text: String)
        ensures
            text@ == self.message_text(),
    {
        match self {
            Error::Input(reason) => {
                "Conversion error due to input issue: ".to_owned().concat(reason.as_str())
            },
            Error::WrongGasObject => "Gas object should be an immutable or owned object".to_owned(),
            Error::MissingObjectId => "Missing object id".to_owned(),
            Error::MissingVersion(object) => about_object("Missing version for object ", object),
            Error::MissingDigest(object) => about_object("Missing digest for object ", object),
            Error::MissingSender => "Missing sender".to_owned(),
            Error::MissingGasObjects => "Missing gas objects".to_owned(),
            Error::MissingGasBudget => "Missing gas budget".to_owned(),
            Error::MissingGasPrice => "Missing gas price".to_owned(),
            Error::MissingObjectKind(object) => about_object(
                "Missing object kind for object ",
                object,
            ),
            Error::SharedObjectMutability(object) => about_object(
                "Unknown shared object mutability for object ",
                object,
            ),
        }
    }
}

/// A message that ends in the text of an address.
fn about_object(lead: &str, object: &Address) -> (text: String)
    ensures
        text@ == lead@ + address_text(object@),
{
    let hex = object.to_hex();
    lead.to_owned().concat(hex.as_str())
}

impl Flow {
    /// The name by which a failed flow is reported.
    pub open spec fn failure_text(self) -> Seq<char> {
        match self {
            Flow::SystemStateUpgrade => "system-state upgrade failed"@,
            Flow::Fund => "fund failed"@,
        }
    }
}

impl PackageFault {
    /// The message of the fault.
    pub open spec fn message_text(self) -> Seq<char> {
        match self {
            PackageFault::Module { index } => "invalid Base64 in bytecode module "@ + decimal(
                index as nat,
            ),
            PackageFault::Digest { len } => "invalid digest length "@ + decimal(len as nat),
        }
    }
}

impl HarnessError {
    /// The message of the error.
    pub open spec fn message_text(self) -> Seq<char> {
        match self {
            HarnessError::BinaryNotFound => "myso binary not found. Please install myso or set MYSO_BINARY env var"@,
            HarnessError::GenesisFailure => "Failed to generate genesis"@,
            HarnessError::ProcessSpawnFailure { reason } => "Failed to run `myso start`: "@
                + reason@,
            HarnessError::ReadinessTimeout { timeout_secs } => "Network failed to start within "@
                + decimal(timeout_secs as nat) + "s timeout"@,
            HarnessError::InvalidKey(_) => "Invalid key"@,
            HarnessError::TransactionBuildFailure(cause) => cause.message_text(),
            HarnessError::TransactionExecutionFailure(flow) => flow.failure_text(),
            HarnessError::BuildSubprocessFailure { stdout, stderr } => "stdout: "@ + escaped(
                stdout@,
            ) + "\n\n stderr: "@ + escaped(stderr@),
            HarnessError::InvalidBuildOutput(fault) => fault.message_text(),
            HarnessError::PortExhaustion => "Error: could not find an available port on localhost"@,
        }
    }

    /// Whether the error only says that the environment lacks the node
    /// executable, so that the caller's work is to be skipped, not failed.
    pub open spec fn is_skip(self) -> bool {
        self is BinaryNotFound
    }

    /// Tells whether the caller should skip its work instead of failing.
    pub fn should_skip(&self) -> (skip: bool)
        ensures
            skip == self.is_skip(),
    {
        match self {
            HarnessError::BinaryNotFound => true,
            _ => false,
        }
    }

    /// Renders the message of the error.
    pub fn message(&self) -> (text: String)
        ensures
            text@ == self.message_text(),
    {
        match self {
            HarnessError::BinaryNotFound => "myso binary not found. Please install myso or set MYSO_BINARY env var".to_owned(),
            HarnessError::GenesisFailure => "Failed to generate genesis".to_owned(),
            HarnessError::ProcessSpawnFailure { reason } => {
                "Failed to run `myso start`: ".to_owned().concat(reason.as_str())
            },
            HarnessError::ReadinessTimeout { timeout_secs } => {
                let mut text = "Network failed to start within ".to_owned();
                push_decimal(&mut text, *timeout_secs);
                text.concat("s timeout")
            },
            HarnessError::InvalidKey(_) => "Invalid key".to_owned(),
            HarnessError::TransactionBuildFailure(cause) => cause.message(),
            HarnessError::TransactionExecutionFailure(flow) => match flow {
                Flow::SystemStateUpgrade => "system-state upgrade failed".to_owned(),
                Flow::Fund => "fund failed".to_owned(),
            },
            HarnessError::BuildSubprocessFailure { stdout, stderr } => {
                let mut text = "stdout: ".to_owned();
                push_escaped(&mut text, stdout.as_slice());
                text.append("\n\n stderr: ");
                push_escaped(&mut text, stderr.as_slice());
                text
            },
            HarnessError::InvalidBuildOutput(fault) => match fault {
                PackageFault::Module { index } => {
                    let mut text = "invalid Base64 in bytecode module ".to_owned();
                    push_decimal(&mut text, *index as u64);
                    text
                },
                PackageFault::Digest { len } => {
                    let mut text = "invalid digest length ".to_owned();
                    push_decimal(&mut text, *len as u64);
                    text
                },
            },
            HarnessError::PortExhaustion => "Error: could not find an available port on localhost".to_owned(),
        }
    }
}

} // verus!
