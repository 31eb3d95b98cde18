use vstd::prelude::*;

use crate::error::TensorError;

verus! {

/// How verbosely the inference engine is asked to log.
#[derive(Clone, Copy, Debug, PartialEq, Eq, Structural)]
pub enum LoggingLevel {
    Off,
    Error,
    Warning,
    Info,
    Verbose,
}

/// How aggressively the inference engine is asked to optimize the loaded
/// model graph.
#[derive(Clone, Copy, Debug, PartialEq, Eq, Structural)]
pub enum OptimizationLevel {
    Disabled,
    Basic,
    Extended,
    All,
}

/// The configuration a client hands the inference engine when a session
/// is opened. A collaborator of the tensor model, not part of it: the
/// model only states what the record holds and how it is resolved.
#[derive(Clone, Copy, Debug, PartialEq, Eq, Structural)]
pub struct ClientConfig {
    pub log_level: LoggingLevel,
    pub optimization_level: OptimizationLevel,
    pub number_threads: u8,
}

impl ClientConfig {
    /// The compiled-in default: warning-level logging, basic graph
    /// optimization, one thread.
    pub open spec fn spec_default() -> ClientConfig {
        ClientConfig {
            log_level: LoggingLevel::Warning,
            optimization_level: OptimizationLevel::Basic,
            number_threads: 1,
        }
    }
}

impl Default for ClientConfig {
    fn default() -> (r: Self)
        ensures
            r == ClientConfig::spec_default(),
    {
        ClientConfig {
            log_level: LoggingLevel::Warning,
            optimization_level: OptimizationLevel::Basic,
            number_threads: 1,
        }
    }
}

impl ClientConfig {
    /// Resolves the configuration for the running process. Resolution
    /// from environment variables is a future extension point; today this
    /// returns exactly the compiled-in default and never fails.
    pub fn try_infer() -> (r: Result<ClientConfig, TensorError>)
        ensures
            r == Ok::<ClientConfig, TensorError>(ClientConfig::spec_default()),
    {
        Ok(ClientConfig::default())
    }

    /// Builds the configuration a fresh deployment starts from: the
    /// compiled-in default, unconditionally.
    pub fn genesis() -> (r: Result<ClientConfig, TensorError>)
        ensures
            r == Ok::<ClientConfig, TensorError>(ClientConfig::spec_default()),
    {
        Ok(ClientConfig::default())
    }
}

} // verus!
