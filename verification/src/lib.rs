//! Bootstrap and orchestration rules for a disposable local validator network.
//!
//! The library decides; the caller acts. Every function here goes from plain
//! values to plain values: which command line to run, how to read the keys
//! that genesis wrote, when the network counts as ready, which transaction
//! funds which account, and what has to be released when a step fails. The
//! processes, sockets, files and RPC calls themselves stay with the caller.

pub mod address;
pub mod base64;
pub mod command;
pub mod error;
pub mod headers;
pub mod keys;
pub mod locator;
pub mod network;
pub mod package;
pub mod ports;
pub mod readiness;
pub mod scalars;
pub mod text;
pub mod transaction;
pub mod validators;

pub use address::Address;
pub use error::{Error, Flow, HarnessError, KeyFault, PackageFault};
pub use keys::{load_keys, LoadedKeys, NetworkConfig, PrivateKey};
pub use locator::{check_binary_available, find_myso_binary, myso_binary, BinaryCache, LookupOutput};
pub use network::{Bootstrap, BootstrapAction, Stage, SuiNetworkBuilder, SuiNetworkHandle};
pub use package::{Digest, MoveBuildOutput, Publish};
pub use ports::{get_available_port, PortDecision};
pub use readiness::{wait_for_ready, Readiness, ReadinessGate};
pub use scalars::BigInt;
pub use transaction::{BuilderCommand, TransactionPlan};
pub use validators::{ValidatorKey, ValidatorKeys};
