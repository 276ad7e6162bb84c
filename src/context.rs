use vstd::prelude::*;

verus! {

/// Version of the agent recorded in the store when none is given.
pub const AGENT_VERSION: &'static str = "0.1.0";

/// Configuration of one agent start: where the store lives, how to check for and install
/// host dependencies, and the agent version to record.
#[derive(Debug, Clone, PartialEq, Eq, PartialOrd, Ord)]
pub struct AgentInitializationContext {
    store_path: String,
    check_deps_command: String,
    install_deps_command: String,
    version: String,
}

impl AgentInitializationContext {
    pub closed spec fn spec_store_path(&self) -> Seq<char> {
        self.store_path@
    }

    pub closed spec fn spec_check_deps_command(&self) -> Seq<char> {
        self.check_deps_command@
    }

    pub closed spec fn spec_install_deps_command(&self) -> Seq<char> {
        self.install_deps_command@
    }

    pub closed spec fn spec_version(&self) -> Seq<char> {
        self.version@
    }

    /// A context that records the agent's own version.
    pub fn new(store_path: &str, check_deps_command: &str, install_deps_command: &str) -> (r:
        AgentInitializationContext)
        ensures
            r.spec_store_path() == store_path@,
            r.spec_check_deps_command() == check_deps_command@,
            r.spec_install_deps_command() == install_deps_command@,
            r.spec_version() == AGENT_VERSION@,
    {
        AgentInitializationContext {
            store_path: store_path.to_owned(),
            check_deps_command: check_deps_command.to_owned(),
            install_deps_command: install_deps_command.to_owned(),
            version: AGENT_VERSION.to_owned(),
        }
    }

    /// The same context, recording `version` instead.
    pub fn with_version(self, version: &str) -> (r: AgentInitializationContext)
        ensures
            r.spec_store_path() == self.spec_store_path(),
            r.spec_check_deps_command() == self.spec_check_deps_command(),
            r.spec_install_deps_command() == self.spec_install_deps_command(),
            r.spec_version() == version@,
    {
        AgentInitializationContext { version: version.to_owned(), ..self }
    }

    pub fn store_path(&self) -> (r: &str)
        ensures
            r@ == self.spec_store_path(),
    {
        self.store_path.as_str()
    }

    pub fn check_deps_command(&self) -> (r: &str)
        ensures
            r@ == self.spec_check_deps_command(),
    {
        self.check_deps_command.as_str()
    }

    pub fn install_deps_command(&self) -> (r: &str)
        ensures
            r@ == self.spec_install_deps_command(),
    {
        self.install_deps_command.as_str()
    }

    pub fn version(&self) -> (r: &str)
        ensures
            r@ == self.spec_version(),
    {
        self.version.as_str()
    }
}

} // verus!
