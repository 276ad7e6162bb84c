use rqmesh::{
    check_dependencies_present, check_store_path, repair_next, repair_start, store_path_verdict, summary_of, details_params,
    Agent, AgentInitializationContext, CommandOutput, DescribeAgentRequest,
    DescribeAgentResponse, RepairAction, InitializationErrorKind, RqMeshFrame, AGENT_VERSION,
};
use std::path::Path;

/// A store path under /tmp whose details table starts empty.
fn fresh_store(name: &str) -> String {
    let path = format!("/tmp/rqmesh_test_{}.db", name);
    let conn = rusqlite::Connection::open(&path).unwrap();
    conn.execute("DROP TABLE IF EXISTS agent_details", []).unwrap();
    path
}

fn row_count(path: &str) -> i64 {
    let conn = rusqlite::Connection::open(path).unwrap();
    conn.query_row("SELECT COUNT(*) FROM agent_details", [], |r| r.get(0)).unwrap()
}

#[test]
fn context_accessors() {
    let c = AgentInitializationContext::new("/tmp/a.db", "apk list", "apk add");
    assert_eq!(c.store_path(), "/tmp/a.db");
    assert_eq!(c.check_deps_command(), "apk list");
    assert_eq!(c.install_deps_command(), "apk add");
    assert_eq!(c.version(), AGENT_VERSION);
    let c = c.with_version("2.0.0");
    assert_eq!(c.version(), "2.0.0");
    assert_eq!(c.store_path(), "/tmp/a.db");
}

#[test]
fn same_version_and_location_recorded_once() {
    let path = fresh_store("idempotent");
    let c = AgentInitializationContext::new(&path, "true", "true");
    assert!(Agent::open(&c).is_ok());
    assert!(Agent::open(&c).is_ok());
    assert_eq!(row_count(&path), 1);
}

#[test]
fn new_version_appends_and_latest_is_described() {
    let path = fresh_store("versions");
    let c = AgentInitializationContext::new(&path, "true", "true");
    assert!(Agent::open(&c).is_ok());
    let agent = Agent::open(&c.clone().with_version("0.2.0")).unwrap();
    assert_eq!(row_count(&path), 2);
    let conn = rusqlite::Connection::open(&path).unwrap();
    conn.execute(
        "INSERT INTO agent_details (version, store_location, initialized_at) VALUES ('9.9.9', ?1, '2999-01-01 00:00:00')",
        [&path],
    )
    .unwrap();
    let d = agent.describe().unwrap();
    assert_eq!(d.version(), "9.9.9");
    assert_eq!(d.initialized_at(), "2999-01-01 00:00:00");
    assert_eq!(
        agent.summary().unwrap(),
        format!("agent v9.9.9 @ 2999-01-01 00:00:00: {}", path)
    );
}

#[test]
fn missing_parent_rejects_and_creates_nothing() {
    let path = "/tmp/rqmesh_no_such_dir/sub/db";
    let c = AgentInitializationContext::new(path, "true", "true");
    match Agent::open(&c) {
        Err(e) => match e.kind() {
            InitializationErrorKind::InvalidStoreLocation { store_location, .. } => {
                assert_eq!(store_location, path)
            }
            other => panic!("unexpected {:?}", other),
        },
        Ok(_) => panic!("store opened under a missing directory"),
    }
    assert!(!Path::new(path).exists());
    assert!(check_store_path(&c).is_err());
}

#[test]
fn store_path_decisions() {
    assert!(store_path_verdict("/tmp/x.db", true, None).is_ok());
    assert!(store_path_verdict("/tmp/x.db", false, Some(true)).is_ok());
    let r = store_path_verdict("/nope/x.db", false, Some(false));
    assert!(matches!(
        r.unwrap_err().kind(),
        InitializationErrorKind::InvalidStoreLocation { .. }
    ));
    let r = store_path_verdict("", false, None);
    assert!(matches!(
        r.unwrap_err().kind(),
        InitializationErrorKind::InvalidStoreLocation { .. }
    ));
    let c = AgentInitializationContext::new("/tmp/rqmesh_path_check.db", "a", "b");
    assert!(check_store_path(&c).is_ok());
}

#[test]
fn end_to_end_start_and_describe() {
    let path = fresh_store("end_to_end");
    let c = AgentInitializationContext::new(&path, "apk list sqlite --installed", "true");
    let (phase, action) = repair_start();
    assert_eq!(action, RepairAction::RunCheck);
    let run = Ok(CommandOutput { success: true, stdout: b"sqlite-3.45\n".to_vec(), stderr: vec![] });
    let (_, action) = repair_next(phase, check_dependencies_present(&c, &run));
    assert_eq!(action, RepairAction::Finish(Ok(())));
    let agent = Agent::open(&c).unwrap();
    let d = agent.describe().unwrap();
    assert_eq!(d.version(), AGENT_VERSION);
    assert_eq!(d.storage_location(), path);
    assert!(!d.initialized_at().is_empty());
}

#[test]
fn recorded_values_are_version_then_path() {
    let c = AgentInitializationContext::new("/tmp/p.db", "a", "b").with_version("3.1.4");
    assert_eq!(details_params(&c), vec!["3.1.4".to_string(), "/tmp/p.db".to_string()]);
}

#[test]
fn summary_line() {
    let d = DescribeAgentResponse::new("1.0", "/tmp/s.db", "2024-01-01 10:00:00");
    assert_eq!(summary_of(&d), "agent v1.0 @ 2024-01-01 10:00:00: /tmp/s.db");
}

#[test]
fn response_fields() {
    let d = DescribeAgentResponse::new("1.0", "/tmp/s.db", "2024-01-01 10:00:00");
    assert_eq!(d.version(), "1.0");
    assert_eq!(d.storage_location(), "/tmp/s.db");
    assert_eq!(d.initialized_at(), "2024-01-01 10:00:00");
}

#[test]
fn response_survives_encoding() {
    let d = DescribeAgentResponse::new("1.0", "/tmp/s.db", "2024-01-01 10:00:00");
    let bytes = bincode::serialize(&d.clone().into_parts()).unwrap();
    let (v, l, t): (String, String, String) = bincode::deserialize(&bytes).unwrap();
    assert_eq!(DescribeAgentResponse::from_parts(v, l, t), d);
}

#[test]
fn frame_survives_encoding() {
    let f = RqMeshFrame::new(DescribeAgentRequest {}, "x");
    assert_eq!(f.requestor(), "x");
    assert_eq!(*f.contents(), DescribeAgentRequest {});
    let (contents, requestor) = f.into_parts();
    let bytes = bincode::serialize(&((), requestor)).unwrap();
    let ((), requestor): ((), String) = bincode::deserialize(&bytes).unwrap();
    let back = RqMeshFrame::from_parts(contents, requestor);
    assert_eq!(back.requestor(), "x");
    assert_eq!(*back.contents(), DescribeAgentRequest {});
}
