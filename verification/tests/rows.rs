use settings_store::a2a_db::SettingA2AServerDbManager;
use settings_store::error::{Cause, DbError, ErrorKind, Operation, RecordKey, RowError};
use settings_store::handle::DbManager;
use settings_store::model::{DyncmcpConnection, SettingA2AServer};
use settings_store::row::{read_first_id, read_flag, read_integer, read_opt_text, read_text};
use settings_store::value::Cell;

fn text(s: &str) -> Cell {
    Cell::Text(s.to_string())
}

fn server_row() -> Vec<Cell> {
    vec![
        Cell::Integer(5),
        text("alpha"),
        text("http://a"),
        Cell::Null,
        Cell::Integer(1),
        text("2024-01-01 00:00:00"),
        text("2024-01-02 00:00:00"),
    ]
}

fn connection_row() -> Vec<Cell> {
    vec![Cell::Integer(8), text("c"), text("http://c"), text("key"), Cell::Integer(0)]
}

#[test]
fn a_server_row_is_read_by_position() {
    assert_eq!(
        SettingA2AServerDbManager::extract_a2a_server_row(&server_row()),
        Ok(SettingA2AServer {
            id: Some(5),
            name: "alpha".to_string(),
            agent_card_url: "http://a".to_string(),
            agent_card_json: None,
            enabled: true,
            created_at: Some("2024-01-01 00:00:00".to_string()),
            updated_at: Some("2024-01-02 00:00:00".to_string()),
        })
    );
}

#[test]
fn a_server_row_may_hold_a_payload_and_lack_times() {
    let mut row = server_row();
    row[3] = text("{\"a\":1}");
    row[4] = Cell::Integer(0);
    row[5] = Cell::Null;
    row[6] = Cell::Null;
    let s = SettingA2AServerDbManager::extract_a2a_server_row(&row).unwrap();
    assert_eq!(s.agent_card_json, Some("{\"a\":1}".to_string()));
    assert!(!s.enabled);
    assert_eq!(s.created_at, None);
    assert_eq!(s.updated_at, None);
}

#[test]
fn a_server_row_with_further_columns_is_read_from_the_first_seven() {
    let mut row = server_row();
    row.push(Cell::Blob);
    assert!(SettingA2AServerDbManager::extract_a2a_server_row(&row).is_ok());
}

#[test]
fn a_short_server_row_lacks_its_first_missing_column() {
    for len in 0..7 {
        let row: Vec<Cell> = server_row().into_iter().take(len).collect();
        assert_eq!(
            SettingA2AServerDbManager::extract_a2a_server_row(&row),
            Err(RowError::MissingColumn(len))
        );
    }
}

#[test]
fn a_server_row_with_a_wrong_type_names_the_column() {
    let wrong = [
        (0, Cell::Null),
        (0, text("5")),
        (1, Cell::Null),
        (1, Cell::Integer(1)),
        (2, Cell::Blob),
        (3, Cell::Integer(0)),
        (4, Cell::Null),
        (4, text("1")),
        (4, Cell::Real),
        (5, Cell::Integer(0)),
        (6, Cell::Real),
    ];
    for (index, cell) in wrong.iter() {
        let mut row = server_row();
        row[*index] = cell.clone();
        assert_eq!(
            SettingA2AServerDbManager::extract_a2a_server_row(&row),
            Err(RowError::WrongType(*index))
        );
    }
}

#[test]
fn the_first_column_that_does_not_fit_gives_the_error() {
    let mut row = server_row();
    row[2] = Cell::Null;
    row[4] = Cell::Integer(i64::MAX);
    row[6] = Cell::Blob;
    assert_eq!(
        SettingA2AServerDbManager::extract_a2a_server_row(&row),
        Err(RowError::WrongType(2))
    );
}

#[test]
fn a_flag_is_an_integer_of_32_bits_set_unless_zero() {
    let at = |v: i64| read_flag(&vec![Cell::Integer(v)], 0);
    assert_eq!(at(0), Ok(false));
    assert_eq!(at(1), Ok(true));
    assert_eq!(at(-1), Ok(true));
    assert_eq!(at(2), Ok(true));
    assert_eq!(at(2147483647), Ok(true));
    assert_eq!(at(-2147483648), Ok(true));
    assert_eq!(at(2147483648), Err(RowError::OutOfRange(0)));
    assert_eq!(at(-2147483649), Err(RowError::OutOfRange(0)));
    assert_eq!(at(i64::MAX), Err(RowError::OutOfRange(0)));
    assert_eq!(read_flag(&vec![Cell::Null], 0), Err(RowError::WrongType(0)));
    assert_eq!(read_flag(&vec![Cell::Integer(1)], 1), Err(RowError::MissingColumn(1)));
}

#[test]
fn the_typed_readers_accept_their_type_only() {
    let row = vec![Cell::Null, Cell::Integer(i64::MIN), Cell::Real, text("t"), Cell::Blob];
    assert_eq!(read_integer(&row, 1), Ok(i64::MIN));
    assert_eq!(read_text(&row, 3), Ok("t".to_string()));
    assert_eq!(read_opt_text(&row, 3), Ok(Some("t".to_string())));
    assert_eq!(read_opt_text(&row, 0), Ok(None));
    for index in [0, 2, 3, 4] {
        assert_eq!(read_integer(&row, index), Err(RowError::WrongType(index)));
    }
    for index in [0, 1, 2, 4] {
        assert_eq!(read_text(&row, index), Err(RowError::WrongType(index)));
    }
    for index in [1, 2, 4] {
        assert_eq!(read_opt_text(&row, index), Err(RowError::WrongType(index)));
    }
    assert_eq!(read_integer(&row, 5), Err(RowError::MissingColumn(5)));
    assert_eq!(read_text(&row, 5), Err(RowError::MissingColumn(5)));
    assert_eq!(read_opt_text(&row, usize::MAX), Err(RowError::MissingColumn(usize::MAX)));
}

#[test]
fn a_connection_row_is_read_by_position() {
    assert_eq!(
        DbManager::extrace_conns_row(&connection_row()),
        Ok(DyncmcpConnection {
            id: Some(8),
            name: "c".to_string(),
            url: "http://c".to_string(),
            api_key: "key".to_string(),
            starred: false,
        })
    );
}

#[test]
fn a_connection_row_that_does_not_fit_names_the_column() {
    let mut row = connection_row();
    row[3] = Cell::Null;
    assert_eq!(DbManager::extrace_conns_row(&row), Err(RowError::WrongType(3)));
    let mut row = connection_row();
    row[4] = Cell::Integer(1 << 40);
    assert_eq!(DbManager::extrace_conns_row(&row), Err(RowError::OutOfRange(4)));
    let row: Vec<Cell> = connection_row().into_iter().take(4).collect();
    assert_eq!(DbManager::extrace_conns_row(&row), Err(RowError::MissingColumn(4)));
    assert_eq!(DbManager::extrace_conns_row(&vec![]), Err(RowError::MissingColumn(0)));
}

#[test]
fn rows_map_to_records_in_their_order() {
    let mut second = server_row();
    second[0] = Cell::Integer(6);
    second[1] = text("beta");
    let servers =
        SettingA2AServerDbManager::servers_from_rows(&vec![server_row(), second]).unwrap();
    assert_eq!(servers.len(), 2);
    assert_eq!(servers[0].id, Some(5));
    assert_eq!(servers[1].id, Some(6));
    assert_eq!(servers[1].name, "beta");
    assert_eq!(SettingA2AServerDbManager::servers_from_rows(&vec![]), Ok(vec![]));
    let mut other = connection_row();
    other[0] = Cell::Integer(9);
    let conns = DbManager::connections_from_rows(&vec![connection_row(), other]).unwrap();
    assert_eq!(conns.iter().map(|c| c.id).collect::<Vec<_>>(), vec![Some(8), Some(9)]);
    assert_eq!(DbManager::connections_from_rows(&vec![]), Ok(vec![]));
}

#[test]
fn the_first_row_that_does_not_fit_gives_the_error() {
    let mut bad_flag = server_row();
    bad_flag[4] = Cell::Integer(1 << 33);
    let mut bad_name = server_row();
    bad_name[1] = Cell::Null;
    assert_eq!(
        SettingA2AServerDbManager::servers_from_rows(&vec![server_row(), bad_flag, bad_name]),
        Err(RowError::OutOfRange(4))
    );
    let mut bad = connection_row();
    bad[2] = Cell::Integer(0);
    assert_eq!(
        DbManager::connections_from_rows(&vec![connection_row(), bad, vec![]]),
        Err(RowError::WrongType(2))
    );
}

#[test]
fn a_point_lookup_reads_the_first_row_only() {
    assert_eq!(SettingA2AServerDbManager::first_server(&vec![]), Ok(None));
    let found = SettingA2AServerDbManager::first_server(&vec![server_row(), vec![]]).unwrap();
    assert_eq!(found.unwrap().id, Some(5));
    assert_eq!(
        SettingA2AServerDbManager::first_server(&vec![vec![], server_row()]),
        Err(RowError::MissingColumn(0))
    );
}

#[test]
fn a_point_lookup_of_a_connection_reads_the_first_row_only() {
    assert_eq!(DbManager::first_connection(&vec![]), Ok(None));
    let found = DbManager::first_connection(&vec![connection_row(), vec![]]).unwrap();
    assert_eq!(found.unwrap().id, Some(8));
    assert_eq!(
        DbManager::first_connection(&vec![vec![Cell::Null], connection_row()]),
        Err(RowError::WrongType(0))
    );
}

#[test]
fn the_first_id_is_that_of_the_first_row() {
    assert_eq!(read_first_id(&vec![]), Ok(None));
    assert_eq!(read_first_id(&vec![vec![Cell::Integer(4)], vec![Cell::Integer(5)]]), Ok(Some(4)));
    assert_eq!(read_first_id(&vec![vec![Cell::Null]]), Err(RowError::WrongType(0)));
    assert_eq!(read_first_id(&vec![vec![]]), Err(RowError::MissingColumn(0)));
}

#[test]
fn the_written_id_is_read_or_its_lack_is_reported() {
    let url = "http://c".to_string();
    assert_eq!(DbManager::written_id(&vec![vec![Cell::Integer(3)]], &url), Ok(3));
    assert_eq!(
        DbManager::written_id(&vec![], &url),
        Err(DbError {
            kind: ErrorKind::Store,
            operation: Operation::RetrieveId,
            key: RecordKey::Url(url.clone()),
            cause: Cause::NoRows,
        })
    );
    assert_eq!(
        DbManager::written_id(&vec![vec![text("3")]], &url),
        Err(DbError {
            kind: ErrorKind::Store,
            operation: Operation::RetrieveId,
            key: RecordKey::Url(url.clone()),
            cause: Cause::Row(RowError::WrongType(0)),
        })
    );
}
