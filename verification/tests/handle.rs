use settings_store::a2a_db::SettingA2AServerDbManager;
use settings_store::error::{Cause, ErrorKind, Operation, RecordKey, RowError, StoreFailure};
use settings_store::handle::{
    DbManager, QueryStage, SqlState, STORAGE_DIR_NAME, STORAGE_FILE_NAME,
};
use settings_store::model::{DyncmcpConnection, SettingA2AServerParams};
use settings_store::statement::{plain_statement, select_servers, unary_statement};
use settings_store::value::{Cell, Param};

fn server(name: &str) -> SettingA2AServerParams {
    SettingA2AServerParams {
        name: name.to_string(),
        agent_card_url: format!("http://{name}"),
        agent_card_json: None,
        enabled: false,
    }
}

#[test]
fn the_handle_starts_on_an_empty_store_in_memory() {
    let db = DbManager::open_in_memory().unwrap();
    assert_eq!(db.name, "");
    let rows = db
        .query(
            &plain_statement("SELECT count(*) FROM sqlite_master"),
            Operation::PrepareQuery,
            RecordKey::Unkeyed,
        )
        .unwrap();
    assert_eq!(rows, vec![vec![Cell::Integer(0)]]);
}

#[test]
fn the_storage_location_has_fixed_names() {
    assert_eq!(STORAGE_DIR_NAME, "a2a-client-db");
    assert_eq!(STORAGE_FILE_NAME, "index.db");
}

#[test]
fn attach_swaps_the_store_and_forgets_the_schema() {
    let mut db = DbManager::open_in_memory().unwrap();
    let mut state = SqlState::new();
    let servers = SettingA2AServerDbManager::new();
    servers.init(&db).unwrap();
    servers.insert(&db, &server("a")).unwrap();
    db.init(&mut state).unwrap();
    assert!(state.0);
    assert_eq!(db.attach(":memory:", &mut state), Ok(()));
    assert!(!state.0);
    assert_eq!(db.name, "");
    assert_eq!(servers.get_all(&db).unwrap_err().operation, Operation::PrepareQuery);
    servers.init(&db).unwrap();
    assert_eq!(servers.get_all(&db), Ok(vec![]));
    assert_eq!(db.query_all(&mut state), Ok(vec![]));
    assert!(state.0);
}

#[test]
fn a_failed_attach_leaves_handle_and_state_as_they_were() {
    let mut db = DbManager::open_in_memory().unwrap();
    let mut state = SqlState::new();
    let servers = SettingA2AServerDbManager::new();
    servers.init(&db).unwrap();
    let id = servers.insert(&db, &server("kept")).unwrap();
    db.init(&mut state).unwrap();
    let e = db.attach("/no-such-directory-for-the-store/nested/index.db", &mut state).unwrap_err();
    assert_eq!(e.kind, ErrorKind::Lifecycle);
    assert_eq!(e.operation, Operation::OpenConnection);
    assert_eq!(e.key, RecordKey::Unkeyed);
    assert_eq!(e.message(), "open db connection failed");
    assert!(matches!(e.cause, Cause::Reported(_)));
    assert!(state.0);
    assert_eq!(servers.get_by_id(&db, id as i32).unwrap().unwrap().name, "kept");
}

#[test]
fn run_reports_the_rows_that_the_store_changed() {
    let db = DbManager::open_in_memory().unwrap();
    let create = plain_statement("CREATE TABLE t (v INTEGER)");
    assert_eq!(db.run(&create, Operation::InitSchema, RecordKey::Unkeyed), Ok(0));
    let insert = unary_statement("INSERT INTO t (v) VALUES (?)", Param::Integer(4));
    assert_eq!(db.run(&insert, Operation::InitSchema, RecordKey::Unkeyed), Ok(1));
    assert_eq!(db.run(&insert, Operation::InitSchema, RecordKey::Unkeyed), Ok(1));
    let bump = plain_statement("UPDATE t SET v = v + 1");
    assert_eq!(db.run(&bump, Operation::InitSchema, RecordKey::Unkeyed), Ok(2));
    let none = unary_statement("DELETE FROM t WHERE v = ?", Param::Integer(100));
    assert_eq!(db.run(&none, Operation::InitSchema, RecordKey::Unkeyed), Ok(0));
}

#[test]
fn run_reports_a_failure_under_the_given_operation_and_key() {
    let db = DbManager::open_in_memory().unwrap();
    let e = db
        .run(&plain_statement("DELETE FROM missing"), Operation::DeleteServer, RecordKey::Id(2))
        .unwrap_err();
    assert_eq!(e.kind, ErrorKind::Store);
    assert_eq!(e.operation, Operation::DeleteServer);
    assert_eq!(e.key, RecordKey::Id(2));
    match e.cause {
        Cause::Reported(text) => assert!(text.contains("missing")),
        other => panic!("unexpected cause {other:?}"),
    }
}

#[test]
fn a_statement_that_binds_too_few_values_is_refused_by_the_store() {
    let db = DbManager::open_in_memory().unwrap();
    db.run(&plain_statement("CREATE TABLE t (v INTEGER)"), Operation::InitSchema, RecordKey::Unkeyed)
        .unwrap();
    let e = db
        .run(&plain_statement("INSERT INTO t (v) VALUES (?)"), Operation::InitSchema, RecordKey::Unkeyed)
        .unwrap_err();
    assert_eq!(e.kind, ErrorKind::Store);
    let e = db
        .query(&plain_statement("SELECT v FROM t WHERE v = ?"), Operation::GetServer, RecordKey::Unkeyed)
        .unwrap_err();
    assert_eq!(e.operation, Operation::MapQuery);
}

#[test]
fn query_returns_each_column_as_the_store_holds_it() {
    let db = DbManager::open_in_memory().unwrap();
    let q = unary_statement("SELECT NULL, 7, 1.5, ?, x'00ff'", Param::Text("t".to_string()));
    let rows = db.query(&q, Operation::GetServer, RecordKey::Unkeyed).unwrap();
    assert_eq!(
        rows,
        vec![vec![Cell::Null, Cell::Integer(7), Cell::Real, Cell::Text("t".to_string()), Cell::Blob]]
    );
    let q = unary_statement("SELECT ?", Param::Null);
    assert_eq!(
        db.query(&q, Operation::GetServer, RecordKey::Unkeyed),
        Ok(vec![vec![Cell::Null]])
    );
    let q = unary_statement("SELECT ? + 1", Param::Integer(-9));
    assert_eq!(
        db.query(&q, Operation::GetServer, RecordKey::Unkeyed),
        Ok(vec![vec![Cell::Integer(-8)]])
    );
}

#[test]
fn query_returns_the_rows_in_the_order_of_the_store() {
    let db = DbManager::open_in_memory().unwrap();
    let q = plain_statement("SELECT 3, 'a' UNION ALL SELECT 1, 'b' UNION ALL SELECT 2, 'c'");
    let rows = db.query(&q, Operation::GetServer, RecordKey::Unkeyed).unwrap();
    assert_eq!(
        rows,
        vec![
            vec![Cell::Integer(3), Cell::Text("a".to_string())],
            vec![Cell::Integer(1), Cell::Text("b".to_string())],
            vec![Cell::Integer(2), Cell::Text("c".to_string())],
        ]
    );
    let none = plain_statement("SELECT 1 WHERE 0");
    assert_eq!(db.query(&none, Operation::GetServer, RecordKey::Unkeyed), Ok(vec![]));
}

#[test]
fn create_schema_stops_at_the_first_statement_that_fails() {
    let db = DbManager::open_in_memory().unwrap();
    let statements = vec![
        plain_statement("CREATE TABLE a (v INTEGER)"),
        plain_statement("CREATE TABLE a (v INTEGER)"),
        plain_statement("CREATE TABLE b (v INTEGER)"),
    ];
    let e = db.create_schema(&statements, Operation::InitSchema).unwrap_err();
    assert_eq!(e.operation, Operation::InitSchema);
    assert_eq!(e.key, RecordKey::Unkeyed);
    let tables = db
        .query(
            &plain_statement("SELECT name FROM sqlite_master WHERE type = 'table' ORDER BY name"),
            Operation::GetServer,
            RecordKey::Unkeyed,
        )
        .unwrap();
    assert_eq!(tables, vec![vec![Cell::Text("a".to_string())]]);
    assert_eq!(db.create_schema(&vec![], Operation::InitSchema), Ok(()));
}

#[test]
fn a_failed_init_leaves_the_schema_unrecorded() {
    let db = DbManager::open_in_memory().unwrap();
    db.run(
        &plain_statement("CREATE VIEW tb_dynmcp_connection AS SELECT 1 AS url"),
        Operation::InitSchema,
        RecordKey::Unkeyed,
    )
    .unwrap();
    let mut state = SqlState::new();
    let e = db.init(&mut state).unwrap_err();
    assert_eq!(e.operation, Operation::InitSchema);
    assert_eq!(e.message(), "failed to execute init SQL");
    assert!(!state.0);
    let ac = DyncmcpConnection {
        id: None,
        name: "n".to_string(),
        url: "u".to_string(),
        api_key: "k".to_string(),
        starred: false,
    };
    assert_eq!(db.upsert(&ac, &mut state).unwrap_err().operation, Operation::InitSchema);
    assert!(!state.0);
}

#[test]
fn a_row_that_does_not_fit_fails_the_read_with_its_cause() {
    let db = DbManager::open_in_memory().unwrap();
    let servers = SettingA2AServerDbManager::new();
    servers.init(&db).unwrap();
    let id = servers.insert(&db, &server("fine")).unwrap();
    let big = unary_statement(
        "INSERT INTO tb_setting_a2a_server (name, agent_card_url, enabled) VALUES ('big', 'u', ?)",
        Param::Integer(5_000_000_000),
    );
    db.run(&big, Operation::InsertServer, RecordKey::Unkeyed).unwrap();
    let e = servers.get_all(&db).unwrap_err();
    assert_eq!(e.kind, ErrorKind::Store);
    assert_eq!(e.operation, Operation::CollectServers);
    assert_eq!(e.cause, Cause::Row(RowError::OutOfRange(4)));
    let e = servers.get_by_name(&db, "big").unwrap_err();
    assert_eq!(e.operation, Operation::GetServer);
    assert_eq!(e.key, RecordKey::Name("big".to_string()));
    assert_eq!(e.cause, Cause::Row(RowError::OutOfRange(4)));
    assert_eq!(servers.get_by_id(&db, id as i32).unwrap().unwrap().name, "fine");
    assert_eq!(servers.get_enabled(&db), Ok(vec![]));
    let set = plain_statement("UPDATE tb_setting_a2a_server SET enabled = 1 WHERE name = 'fine'");
    db.run(&set, Operation::UpdateServer, RecordKey::Unkeyed).unwrap();
    let bad = plain_statement("UPDATE tb_setting_a2a_server SET name = x'01' WHERE name = 'big'");
    db.run(&bad, Operation::UpdateServer, RecordKey::Unkeyed).unwrap();
    let one = plain_statement("UPDATE tb_setting_a2a_server SET enabled = 1");
    db.run(&one, Operation::UpdateServer, RecordKey::Unkeyed).unwrap();
    let e = servers.get_enabled(&db).unwrap_err();
    assert_eq!(e.operation, Operation::CollectEnabledServers);
    assert_eq!(e.cause, Cause::Row(RowError::WrongType(1)));
}

#[test]
fn a_blob_in_a_text_column_is_a_wrong_type() {
    let db = DbManager::open_in_memory().unwrap();
    let servers = SettingA2AServerDbManager::new();
    servers.init(&db).unwrap();
    let blob = plain_statement(
        "INSERT INTO tb_setting_a2a_server (name, agent_card_url) VALUES (x'00', 'u')",
    );
    db.run(&blob, Operation::InsertServer, RecordKey::Unkeyed).unwrap();
    let e = servers.get_by_id(&db, 1).unwrap_err();
    assert_eq!(e.key, RecordKey::Id(1));
    assert_eq!(e.cause, Cause::Row(RowError::WrongType(1)));
}

#[test]
fn the_query_for_all_servers_yields_seven_columns() {
    let db = DbManager::open_in_memory().unwrap();
    let servers = SettingA2AServerDbManager::new();
    servers.init(&db).unwrap();
    servers.insert(&db, &server("a")).unwrap();
    let rows = db.query(&select_servers(), Operation::CollectServers, RecordKey::Unkeyed).unwrap();
    assert_eq!(rows.len(), 1);
    assert_eq!(rows[0].len(), 7);
    assert_eq!(rows[0][0], Cell::Integer(1));
    assert_eq!(rows[0][1], Cell::Text("a".to_string()));
    assert_eq!(rows[0][3], Cell::Null);
    assert_eq!(rows[0][4], Cell::Integer(0));
}

#[test]
fn a_failed_creation_of_the_server_table_is_reported_as_such() {
    let db = DbManager::open_in_memory().unwrap();
    db.run(
        &plain_statement("CREATE VIEW idx_setting_a2a_server_name AS SELECT 1 AS v"),
        Operation::InitSchema,
        RecordKey::Unkeyed,
    )
    .unwrap();
    let e = SettingA2AServerDbManager::new().init(&db).unwrap_err();
    assert_eq!(e.kind, ErrorKind::Store);
    assert_eq!(e.operation, Operation::CreateServerTable);
    assert_eq!(e.key, RecordKey::Unkeyed);
    assert_eq!(e.message(), "failed to create setting A2A server table");
}

#[test]
fn a_write_on_a_missing_connection_table_fails_under_its_own_operation() {
    let db = DbManager::open_in_memory().unwrap();
    let mut state = SqlState(true);
    let ac = DyncmcpConnection {
        id: None,
        name: "n".to_string(),
        url: "http://u".to_string(),
        api_key: "k".to_string(),
        starred: false,
    };
    let e = db.upsert(&ac, &mut state).unwrap_err();
    assert_eq!(e.kind, ErrorKind::Store);
    assert_eq!(e.operation, Operation::UpsertConnection);
    assert_eq!(e.key, RecordKey::Url("http://u".to_string()));
    assert_eq!(e.message(), "failed to insert or update connection");
    let e = db.insert(&ac, &mut state).unwrap_err();
    assert_eq!(e.operation, Operation::InsertConnection);
    assert!(state.0);
}

#[test]
fn a_connection_row_that_does_not_fit_fails_query_all() {
    let db = DbManager::open_in_memory().unwrap();
    let mut state = SqlState::new();
    db.init(&mut state).unwrap();
    let odd = plain_statement(
        "INSERT INTO tb_dynmcp_connection (name, url, api_key, starred) VALUES ('n', 'u', x'00', 0)",
    );
    db.run(&odd, Operation::InsertConnection, RecordKey::Unkeyed).unwrap();
    let e = db.query_all(&mut state).unwrap_err();
    assert_eq!(e.kind, ErrorKind::Store);
    assert_eq!(e.operation, Operation::CollectConnections);
    assert_eq!(e.key, RecordKey::Unkeyed);
    assert_eq!(e.cause, Cause::Row(RowError::WrongType(3)));
    assert_eq!(e.message(), "failed to collect connections");
}

#[test]
fn a_missing_payload_of_a_connection_cannot_be_written() {
    let db = DbManager::open_in_memory().unwrap();
    let mut state = SqlState::new();
    db.init(&mut state).unwrap();
    let null_key = plain_statement(
        "INSERT INTO tb_dynmcp_connection (name, url, api_key, starred) VALUES ('n', 'u', NULL, 0)",
    );
    let e = db.run(&null_key, Operation::InsertConnection, RecordKey::Unkeyed).unwrap_err();
    assert_eq!(e.kind, ErrorKind::Constraint);
}

#[test]
fn what_the_store_reports_is_returned_as_the_operation_s_outcome() {
    assert_eq!(DbManager::affected_rows(Ok(0), Operation::DeleteServer, RecordKey::Id(1)), Ok(0));
    assert_eq!(DbManager::affected_rows(Ok(3), Operation::DeleteServer, RecordKey::Id(1)), Ok(3));
    let failure = StoreFailure { constraint: true, text: "UNIQUE".to_string() };
    let e = DbManager::affected_rows(
        Err(failure.clone()),
        Operation::InsertConnection,
        RecordKey::Url("u".to_string()),
    )
    .unwrap_err();
    assert_eq!(e.kind, ErrorKind::Constraint);
    assert_eq!(e.operation, Operation::InsertConnection);
    assert_eq!(e.key, RecordKey::Url("u".to_string()));
    assert_eq!(e.cause, Cause::Reported("UNIQUE".to_string()));
    let at = |stage| {
        DbManager::query_error(stage, failure.clone(), Operation::GetServer, RecordKey::Id(2))
            .operation
    };
    assert_eq!(at(QueryStage::Prepare), Operation::PrepareQuery);
    assert_eq!(at(QueryStage::Bind), Operation::MapQuery);
    assert_eq!(at(QueryStage::Fetch), Operation::GetServer);
    let open = failure.on(Operation::OpenConnection, RecordKey::Unkeyed);
    assert_eq!(open.kind, ErrorKind::Lifecycle);
}

#[test]
fn a_row_with_text_that_is_not_utf8_cannot_be_read() {
    let db = DbManager::open_in_memory().unwrap();
    let garbled = plain_statement("SELECT 1, CAST(x'ff' AS TEXT)");
    let e = db.query(&garbled, Operation::GetServer, RecordKey::Id(1)).unwrap_err();
    assert_eq!(e.kind, ErrorKind::Store);
    assert_eq!(e.operation, Operation::GetServer);
    assert_eq!(e.key, RecordKey::Id(1));
    assert!(matches!(e.cause, Cause::Reported(_)));
    let fine = plain_statement("SELECT 1, CAST(x'c3a9' AS TEXT)");
    assert_eq!(
        db.query(&fine, Operation::GetServer, RecordKey::Id(1)),
        Ok(vec![vec![Cell::Integer(1), Cell::Text("\u{e9}".to_string())]])
    );
}

#[test]
fn a_failure_carries_the_message_and_the_class_that_the_store_reports() {
    let db = DbManager::open_in_memory().unwrap();
    db.run(
        &plain_statement("CREATE TABLE t (v INTEGER UNIQUE)"),
        Operation::InitSchema,
        RecordKey::Unkeyed,
    )
    .unwrap();
    let insert = unary_statement("INSERT INTO t (v) VALUES (?)", Param::Integer(1));
    db.run(&insert, Operation::InsertServer, RecordKey::Unkeyed).unwrap();
    let e = db.run(&insert, Operation::InsertServer, RecordKey::Unkeyed).unwrap_err();
    assert_eq!(e.kind, ErrorKind::Constraint);
    assert_eq!(e.cause, Cause::Reported("UNIQUE constraint failed: t.v".to_string()));
    let e = db
        .run(&plain_statement("INSERT INTO u (v) VALUES (1)"), Operation::InsertServer, RecordKey::Unkeyed)
        .unwrap_err();
    assert_eq!(e.kind, ErrorKind::Store);
    match e.cause {
        Cause::Reported(text) => assert!(text.contains("no such table: u")),
        other => panic!("unexpected cause {other:?}"),
    }
}
