use vstd::prelude::*;
use vstd::string::StringExecFns;

verus! {

/// The closed set of failures that can stop an agent from starting.
#[derive(Debug, Clone, PartialEq, Eq, PartialOrd, Ord)]
pub enum InitializationErrorKind {
    InvalidStoreLocation { store_location: String, message: String },
    InvalidCheckDependenciesCommand { command: String, message: String },
    InvalidInstallDependenciesCommand { command: String, message: String },
    MissingRequiredDependencies { message: String },
    StoreInitializationError { message: String },
}

/// Top-level error of the mesh agent.
#[derive(Debug, Clone, PartialEq, Eq, PartialOrd, Ord)]
pub enum RqMeshError {
    InitializationError(InitializationErrorKind),
}

/// Mathematical picture of an error: its kind with the text it carries.
pub enum ErrorView {
    InvalidStoreLocation { store_location: Seq<char>, message: Seq<char> },
    InvalidCheckDependenciesCommand { command: Seq<char>, message: Seq<char> },
    InvalidInstallDependenciesCommand { command: Seq<char>, message: Seq<char> },
    MissingRequiredDependencies { message: Seq<char> },
    StoreInitializationError { message: Seq<char> },
}

impl View for InitializationErrorKind {
    type V = ErrorView;

    open spec fn view(&self) -> ErrorView {
        match self {
            InitializationErrorKind::InvalidStoreLocation { store_location, message } => {
                ErrorView::InvalidStoreLocation {
                    store_location: store_location@,
                    message: message@,
                }
            },
            InitializationErrorKind::InvalidCheckDependenciesCommand { command, message } => {
                ErrorView::InvalidCheckDependenciesCommand { command: command@, message: message@ }
            },
            InitializationErrorKind::InvalidInstallDependenciesCommand { command, message } => {
                ErrorView::InvalidInstallDependenciesCommand {
                    command: command@,
                    message: message@,
                }
            },
            InitializationErrorKind::MissingRequiredDependencies { message } => {
                ErrorView::MissingRequiredDependencies { message: message@ }
            },
            InitializationErrorKind::StoreInitializationError { message } => {
                ErrorView::StoreInitializationError { message: message@ }
            },
        }
    }
}

impl View for RqMeshError {
    type V = ErrorView;

    open spec fn view(&self) -> ErrorView {
        match self {
            RqMeshError::InitializationError(kind) => kind@,
        }
    }
}

impl InitializationErrorKind {
    pub fn new_invalid_check_deps_cmd(command: &str, message: &str) -> (r: InitializationErrorKind)
        ensures
            r@ == (ErrorView::InvalidCheckDependenciesCommand { command: command@, message: message@ }),
    {
        InitializationErrorKind::InvalidCheckDependenciesCommand {
            command: command.to_owned(),
            message: message.to_owned(),
        }
    }

    pub fn new_invalid_install_deps_cmd(command: &str, message: &str) -> (r: InitializationErrorKind)
        ensures
            r@ == (ErrorView::InvalidInstallDependenciesCommand { command: command@, message: message@ }),
    {
        InitializationErrorKind::InvalidInstallDependenciesCommand {
            command: command.to_owned(),
            message: message.to_owned(),
        }
    }

    pub fn new_missing_deps(message: &str) -> (r: InitializationErrorKind)
        ensures
            r@ == (ErrorView::MissingRequiredDependencies { message: message@ }),
    {
        InitializationErrorKind::MissingRequiredDependencies { message: message.to_owned() }
    }

    pub fn new_invalid_store_location(store_location: &str, message: &str) -> (r:
        InitializationErrorKind)
        ensures
            r@ == (ErrorView::InvalidStoreLocation {
                store_location: store_location@,
                message: message@,
            }),
    {
        InitializationErrorKind::InvalidStoreLocation {
            store_location: store_location.to_owned(),
            message: message.to_owned(),
        }
    }

    pub fn new_sqlite_init_err(message: &str) -> (r: InitializationErrorKind)
        ensures
            r@ == (ErrorView::StoreInitializationError { message: message@ }),
    {
        InitializationErrorKind::StoreInitializationError { message: message.to_owned() }
    }

    /// Human-readable rendering: the kind, the offending command or path, and the message.
    pub fn to_message(&self) -> (r: String)
        ensures
            r@ == self@.render(),
    {
        match self {
            InitializationErrorKind::InvalidStoreLocation { store_location, message } => {
                String::from_str("InvalidStoreLocation (").concat(store_location.as_str()).concat(
                    "): ",
                ).concat(message.as_str())
            },
            InitializationErrorKind::InvalidCheckDependenciesCommand { command, message } => {
                String::from_str("InvalidCheckDependenciesCommand (").concat(
                    command.as_str(),
                ).concat("): ").concat(message.as_str())
            },
            InitializationErrorKind::InvalidInstallDependenciesCommand { command, message } => {
                String::from_str("InvalidInstallDependenciesCommand (").concat(
                    command.as_str(),
                ).concat("): ").concat(message.as_str())
            },
            InitializationErrorKind::MissingRequiredDependencies { message } => {
                String::from_str("MissingRequiredDependencies: ").concat(message.as_str())
            },
            InitializationErrorKind::StoreInitializationError { message } => {
                String::from_str("StoreInitializationError: ").concat(message.as_str())
            },
        }
    }
}

impl ErrorView {
    /// The text shown to a person for this error.
    pub open spec fn render(self) -> Seq<char> {
        match self {
            ErrorView::InvalidStoreLocation { store_location, message } => {
                "InvalidStoreLocation ("@ + store_location + "): "@ + message
            },
            ErrorView::InvalidCheckDependenciesCommand { command, message } => {
                "InvalidCheckDependenciesCommand ("@ + command + "): "@ + message
            },
            ErrorView::InvalidInstallDependenciesCommand { command, message } => {
                "InvalidInstallDependenciesCommand ("@ + command + "): "@ + message
            },
            ErrorView::MissingRequiredDependencies { message } => {
                "MissingRequiredDependencies: "@ + message
            },
            ErrorView::StoreInitializationError { message } => {
                "StoreInitializationError: "@ + message
            },
        }
    }
}

impl RqMeshError {
    /// Human-readable rendering of the error.
    pub fn to_message(&self) -> (r: String)
        ensures
            r@ == self@.render(),
    {
        match self {
            RqMeshError::InitializationError(kind) => kind.to_message(),
        }
    }

    /// The kind of initialization failure carried by this error.
    pub fn kind(&self) -> (r: &InitializationErrorKind)
        ensures
            r@ == self@,
    {
        match self {
            RqMeshError::InitializationError(kind) => kind,
        }
    }
}

impl From<InitializationErrorKind> for RqMeshError {
    fn from(value: InitializationErrorKind) -> (r: RqMeshError)
        ensures
            r == RqMeshError::InitializationError(value),
    {
        RqMeshError::InitializationError(value)
    }
}

impl vstd::std_specs::convert::FromSpecImpl<InitializationErrorKind> for RqMeshError {
    open spec fn obeys_from_spec() -> bool {
        true
    }

    open spec fn from_spec(v: InitializationErrorKind) -> RqMeshError {
        RqMeshError::InitializationError(v)
    }
}

} // verus!
