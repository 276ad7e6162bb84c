use vstd::prelude::*;
use vstd::string::StringExecFns;

use crate::command::string_views;
use crate::context::AgentInitializationContext;
use crate::error::{ErrorView, InitializationErrorKind, RqMeshError};
use crate::protocol::DescribeAgentResponse;

verus! {

#[verifier::external_type_specification]
#[verifier::external_body]
pub struct ExConnection(rusqlite::Connection);

#[verifier::external_type_specification]
#[verifier::external_body]
pub struct ExSqliteError(rusqlite::Error);

pub const CREATE_TABLE_SQL: &'static str =
    "CREATE TABLE IF NOT EXISTS agent_details (version VARCHAR(10) NOT NULL, store_location NVARCHAR(1024) NOT NULL, initialized_at VARCHAR(100) NOT NULL, UNIQUE(version, store_location));";

pub const INSERT_DETAILS_SQL: &'static str =
    "INSERT OR IGNORE INTO agent_details (version, store_location, initialized_at) VALUES (?1, ?2, datetime('now'));";

pub const LATEST_DETAILS_SQL: &'static str =
    "SELECT version, store_location, initialized_at FROM agent_details ORDER BY initialized_at DESC LIMIT 1";

pub const NO_PARENT_MESSAGE: &'static str = "Store path has no parent directory";

pub const MISSING_PARENT_MESSAGE: &'static str =
    "Parent directory of the store path not found, create it and restart the agent";

/// Relies on std::path::Path::exists: whether something is found at the path right now.
#[verifier::external_body]
fn path_exists(p: &str) -> (r: bool) {
    std::path::Path::new(p).exists()
}

/// The directory part of a path as std's path rules take it apart.
pub uninterp spec fn path_parent(p: Seq<char>) -> Option<Seq<char>>;

/// Relies on std::path::Path::parent: the path without its final component; none for a
/// root, a prefix or an empty path. The parent of a `str` path is valid UTF-8, so the
/// lossy conversion keeps it as it is.
#[verifier::external_body]
fn parent_dir(p: &str) -> (r: Option<String>)
    ensures
        r is None <==> path_parent(p@) is None,
        r matches Some(d) ==> path_parent(p@) == Some(d@),
        p@.len() == 0 ==> r is None,
{
    std::path::Path::new(p).parent().map(|d| d.to_string_lossy().into_owned())
}

/// Relies on rusqlite::Connection::open: opens the database file at `path`, creating the
/// file (never a directory) when it is absent.
#[verifier::external_body]
fn open_connection(path: &str) -> (r: Result<rusqlite::Connection, rusqlite::Error>) {
    rusqlite::Connection::open(path)
}

/// Relies on rusqlite::Connection::execute: runs one statement with positional text
/// parameters.
#[verifier::external_body]
fn execute_statement(conn: &rusqlite::Connection, sql: &str, params: &Vec<String>) -> (r: Result<
    usize,
    rusqlite::Error,
>) {
    conn.execute(sql, rusqlite::params_from_iter(params.iter()))
}

/// Relies on rusqlite::Connection::query_row: the first row of a query, read as three text
/// columns.
#[verifier::external_body]
fn query_text_row(conn: &rusqlite::Connection, sql: &str) -> (r: Result<
    (String, String, String),
    rusqlite::Error,
>) {
    conn.query_row(sql, [], |row| Ok((row.get(0)?, row.get(1)?, row.get(2)?)))
}

/// What validating a store path yields, given whether the path exists and, when it has a
/// parent directory, whether that directory exists.
pub open spec fn store_path_outcome(path: Seq<char>, path_found: bool, parent_found: Option<bool>) -> Result<
    (),
    ErrorView,
> {
    if path_found {
        Ok(())
    } else {
        match parent_found {
            None => Err(
                ErrorView::InvalidStoreLocation { store_location: path, message: NO_PARENT_MESSAGE@ },
            ),
            Some(true) => Ok(()),
            Some(false) => Err(
                ErrorView::InvalidStoreLocation {
                    store_location: path,
                    message: MISSING_PARENT_MESSAGE@,
                },
            ),
        }
    }
}

/// An error from validating the store path or from the store engine.
pub open spec fn is_store_error(e: ErrorView, path: Seq<char>) -> bool {
    ||| e matches ErrorView::InvalidStoreLocation { store_location, .. } && store_location == path
    ||| e is StoreInitializationError
}

/// Decides on a store path from what was found on disk: an existing path is accepted as it
/// is; a new one needs its parent directory, which is never created.
pub fn store_path_verdict(path: &str, path_found: bool, parent_found: Option<bool>) -> (r: Result<
    (),
    RqMeshError,
>)
    ensures
        crate::deps::result_view(r) == store_path_outcome(path@, path_found, parent_found),
{
    if path_found {
        return Ok(());
    }
    match parent_found {
        None => Err(
            RqMeshError::InitializationError(
                InitializationErrorKind::new_invalid_store_location(path, NO_PARENT_MESSAGE),
            ),
        ),
        Some(true) => Ok(()),
        Some(false) => Err(
            RqMeshError::InitializationError(
                InitializationErrorKind::new_invalid_store_location(path, MISSING_PARENT_MESSAGE),
            ),
        ),
    }
}

/// What was found on disk for a path: whether it exists and, when it does not, whether its
/// parent directory exists (none when the path has no parent).
pub open spec fn probe_fits(path: Seq<char>, path_found: bool, parent_found: Option<bool>) -> bool {
    !path_found ==> (parent_found is None <==> path_parent(path) is None)
}

/// Validates the configured store path against the file system as it is now: the parent
/// looked at is the path's own parent.
pub fn check_store_path(ctx: &AgentInitializationContext) -> (r: Result<(), RqMeshError>)
    ensures
        exists|path_found: bool, parent_found: Option<bool>|
            probe_fits(ctx.spec_store_path(), path_found, parent_found)
                && crate::deps::result_view(r) == store_path_outcome(
                ctx.spec_store_path(),
                path_found,
                parent_found,
            ),
{
    let path = ctx.store_path();
    let path_found = path_exists(path);
    let parent_found = if path_found {
        None
    } else {
        match parent_dir(path) {
            Some(dir) => Some(path_exists(dir.as_str())),
            None => None,
        }
    };
    let r = store_path_verdict(path, path_found, parent_found);
    assert(probe_fits(ctx.spec_store_path(), path_found, parent_found));
    r
}

/// The values recorded for a start: the agent version, then the store location.
pub fn details_params(ctx: &AgentInitializationContext) -> (r: Vec<String>)
    ensures
        string_views(r@) == seq![ctx.spec_version(), ctx.spec_store_path()],
{
    let r: Vec<String> = vec![ctx.version().to_owned(), ctx.store_path().to_owned()];
    assert(string_views(r@) =~= seq![ctx.spec_version(), ctx.spec_store_path()]);
    r
}

/// A store failure carrying what the engine said, after a short account of the step.
fn store_error(step: &str, e: &rusqlite::Error) -> (r: RqMeshError)
    ensures
        r@ is StoreInitializationError,
{
    let text = String::from_str(step).concat(": ").concat(e.to_string().as_str());
    RqMeshError::InitializationError(InitializationErrorKind::new_sqlite_init_err(text.as_str()))
}

/// Makes sure the details table exists (`CREATE_TABLE_SQL`) and records this start with
/// `INSERT_DETAILS_SQL` on the values of `details_params`, once per pair of version and
/// store location. On success the same connection comes back.
pub fn validate_or_initialize_sqlite_connection(
    ctx: &AgentInitializationContext,
    conn: rusqlite::Connection,
) -> (r: Result<rusqlite::Connection, RqMeshError>)
    ensures
        r matches Ok(c) ==> c == conn,
        r matches Err(e) ==> e@ is StoreInitializationError,
{
    let no_params: Vec<String> = Vec::new();
    match execute_statement(&conn, CREATE_TABLE_SQL, &no_params) {
        Ok(_) => {},
        Err(e) => return Err(store_error("Error creating agent_details table", &e)),
    }
    let params = details_params(ctx);
    match execute_statement(&conn, INSERT_DETAILS_SQL, &params) {
        Ok(_) => Ok(conn),
        Err(e) => Err(store_error("Error inserting into agent_details table", &e)),
    }
}

/// Projects a row read from the details table (version, store location, start time) into
/// a response; a failed read is a store failure.
pub fn details_from_row(row: Result<(String, String, String), rusqlite::Error>) -> (r: Result<
    DescribeAgentResponse,
    RqMeshError,
>)
    ensures
        row is Ok <==> r is Ok,
        row matches Ok(t) ==> r matches Ok(d) && d@ == (t.0@, t.1@, t.2@),
        r matches Err(e) ==> e@ is StoreInitializationError,
{
    match row {
        Ok((version, storage_location, initialized_at)) => Ok(
            DescribeAgentResponse::from_parts(version, storage_location, initialized_at),
        ),
        Err(e) => Err(store_error("Error reading agent_details table", &e)),
    }
}

/// How the result of opening relates to the path check: a rejected path is the result;
/// after an accepted one, any failure is a store failure.
pub open spec fn opened_after_check(checked: Result<(), ErrorView>, r: Result<Agent, RqMeshError>) -> bool {
    &&& checked matches Err(c) ==> r matches Err(e) && e@ == c
    &&& checked is Ok ==> (r matches Err(e) ==> e@ is StoreInitializationError)
}

/// A started agent: it owns the open store.
pub struct Agent {
    connection: rusqlite::Connection,
}

impl Agent {
    /// Validates the store path, opens the store and records this start. The store is not
    /// opened, so no file is created, when the path is rejected: that rejection is then the
    /// result; any later failure is a store failure.
    pub fn open(ctx: &AgentInitializationContext) -> (r: Result<Agent, RqMeshError>)
        ensures
            r matches Err(e) ==> is_store_error(e@, ctx.spec_store_path()),
            exists|path_found: bool, parent_found: Option<bool>|
                #[trigger] probe_fits(ctx.spec_store_path(), path_found, parent_found)
                    && opened_after_check(
                    store_path_outcome(ctx.spec_store_path(), path_found, parent_found),
                    r,
                ),
    {
        let checked = check_store_path(ctx);
        let ghost (pf, ppf) = choose|path_found: bool, parent_found: Option<bool>|
            probe_fits(ctx.spec_store_path(), path_found, parent_found)
                && crate::deps::result_view(checked) == store_path_outcome(
                ctx.spec_store_path(),
                path_found,
                parent_found,
            );
        match checked {
            Ok(()) => {},
            Err(e) => {
                assert(store_path_outcome(ctx.spec_store_path(), pf, ppf) matches Err(c) && e@ == c);
                return Err(e);
            },
        }
        let conn = match open_connection(ctx.store_path()) {
            Ok(c) => c,
            Err(e) => return Err(store_error("Error opening store", &e)),
        };
        let r = match validate_or_initialize_sqlite_connection(ctx, conn) {
            Ok(connection) => Ok(Agent { connection }),
            Err(e) => Err(e),
        };
        assert(store_path_outcome(ctx.spec_store_path(), pf, ppf) is Ok);
        r
    }

    /// The latest recorded start of this agent.
    pub fn describe(&self) -> (r: Result<DescribeAgentResponse, RqMeshError>)
        ensures
            r matches Err(e) ==> e@ is StoreInitializationError,
    {
        let row = query_text_row(&self.connection, LATEST_DETAILS_SQL);
        details_from_row(row)
    }

    /// One line that names the agent's version, start time and store.
    pub fn summary(&self) -> (r: Result<String, RqMeshError>)
        ensures
            r matches Ok(s) ==> exists|d: DescribeAgentResponse| s@ == summary_text(d@),
            r matches Err(e) ==> e@ is StoreInitializationError,
    {
        match self.describe() {
            Ok(d) => Ok(summary_of(&d)),
            Err(e) => Err(e),
        }
    }
}

/// The one-line account of the agent that `d` describes.
pub fn summary_of(d: &DescribeAgentResponse) -> (r: String)
    ensures
        r@ == summary_text(d@),
{
    String::from_str("agent v").concat(d.version()).concat(" @ ").concat(d.initialized_at()).concat(
        ": ",
    ).concat(d.storage_location())
}

/// A store path that does not exist under a parent directory that does not exist either is
/// rejected as an invalid store location, naming that path.
pub proof fn lemma_missing_parent_rejected(path: Seq<char>)
    ensures
        store_path_outcome(path, false, Some(false)) matches Err(e) && e matches ErrorView::InvalidStoreLocation {
            store_location,
            ..
        } && store_location == path,
{
}

/// A new store path whose parent directory exists is accepted.
pub proof fn lemma_existing_parent_accepted(path: Seq<char>)
    ensures
        store_path_outcome(path, false, Some(true)) is Ok,
{
}

/// The one-line account of an agent described by `d`.
pub open spec fn summary_text(d: (Seq<char>, Seq<char>, Seq<char>)) -> Seq<char> {
    "agent v"@ + d.0 + " @ "@ + d.2 + ": "@ + d.1
}

} // verus!
