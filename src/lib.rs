//! Startup bootstrap and typed message envelope of a mesh-node agent.
//!
//! Before an agent serves anything it checks its host dependencies (repairing them at most
//! once), validates and opens its local store, and records the start there. The dependency
//! checks run outside this library: [`deps`] judges their results and drives the repair
//! through a small state machine, and [`store`] owns the store.
use vstd::prelude::*;

pub mod command;
pub mod context;
pub mod deps;
pub mod error;
pub mod protocol;
pub mod store;

pub use command::{parse_command_line, split_command, CommandLine};
pub use context::{AgentInitializationContext, AGENT_VERSION};
pub use deps::{
    check_dependencies_command, check_dependencies_present, repair_next, repair_start,
    install_dependencies_command, try_install_missing_dependencies, CommandOutput, CommandRun,
    RepairAction, RepairPhase,
};
pub use error::{InitializationErrorKind, RqMeshError};
pub use protocol::{
    CapabilityBroadcast, DescribeAgentRequest, DescribeAgentResponse, RqMeshFrame,
    RqMeshProtocolAction,
};
pub use store::{check_store_path, details_params, store_path_verdict, summary_of, Agent};

verus! {

} // verus!
