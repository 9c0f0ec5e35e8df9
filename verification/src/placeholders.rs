//! Placeholders: a statement must bind one value for each `?` of its text.
//! The texts of this library are fixed but for the partial update, whose
//! text grows with the fields that are supplied; the lemmas here count the
//! placeholders of each.

use vstd::prelude::*;
use crate::statement::{
    column_name, set_clause, update_sql, ServerColumn,
    CREATE_CONNECTION_TABLE,
    CREATE_CONNECTION_URL_INDEX,
    CREATE_SERVER_ENABLED_INDEX,
    CREATE_SERVER_NAME_INDEX,
    CREATE_SERVER_TABLE,
    DELETE_SERVER_BY_ID,
    DELETE_SERVER_BY_NAME,
    DISABLE_OTHER_SERVERS,
    INSERT_CONNECTION,
    INSERT_SERVER,
    SELECT_CONNECTIONS,
    SELECT_CONNECTION_BY_URL,
    SELECT_CONNECTION_ID,
    SELECT_ENABLED_SERVERS,
    SELECT_SERVERS,
    SELECT_SERVER_BY_ID,
    SELECT_SERVER_BY_NAME,
    TOGGLE_SERVER,
    UPDATE_SERVER_HEAD,
    UPDATE_SERVER_TAIL,
    UPSERT_CONNECTION,
};

verus! {

/// The number of placeholders in a text: one for each `?`.
pub open spec fn placeholders(text: Seq<char>) -> nat
    decreases text.len(),
{
    if text.len() == 0 {
        0
    } else {
        placeholders(text.drop_last()) + if text.last() == '?' {
            1nat
        } else {
            0nat
        }
    }
}

/// The placeholders of a text are those of its parts.
pub proof fn lemma_placeholders_concat(a: Seq<char>, b: Seq<char>)
    ensures
        placeholders(a + b) == placeholders(a) + placeholders(b),
    decreases b.len(),
{
    if b.len() == 0 {
        assert(a + b =~= a);
    } else {
        assert((a + b).drop_last() =~= a + b.drop_last());
        lemma_placeholders_concat(a, b.drop_last());
    }
}

/// A text has as many placeholders as it has positions that hold `?`.
/// `marks` lists those positions in ascending order.
pub proof fn lemma_placeholders_at(text: Seq<char>, marks: Seq<int>)
    requires
        forall|j: int, k: int| 0 <= j < k < marks.len() ==> marks[j] < marks[k],
        forall|j: int| 0 <= j < marks.len() ==> 0 <= #[trigger] marks[j] < text.len(),
        forall|j: int| 0 <= j < marks.len() ==> text[#[trigger] marks[j]] == '?',
        forall|i: int|
            0 <= i < text.len() && #[trigger] text[i] == '?' ==> exists|j: int|
                0 <= j < marks.len() && marks[j] == i,
    ensures
        placeholders(text) == marks.len(),
    decreases text.len(),
{
    if text.len() == 0 {
        if marks.len() > 0 {
            assert(0 <= marks[0] < text.len());
        }
    } else {
        let rest = text.drop_last();
        let end = text.len() - 1;
        if text.last() == '?' {
            let j = choose|j: int| 0 <= j < marks.len() && marks[j] == end;
            if j < marks.len() - 1 {
                assert(marks[j] < marks[marks.len() - 1]);
            }
            let fewer = marks.drop_last();
            assert forall|k: int| 0 <= k < fewer.len() implies 0 <= #[trigger] fewer[k]
                < rest.len() by {
                assert(fewer[k] == marks[k]);
                assert(marks[k] < marks[marks.len() - 1]);
            }
            assert forall|i: int| 0 <= i < rest.len() && #[trigger] rest[i] == '?' implies exists|
                k: int,
            | 0 <= k < fewer.len() && fewer[k] == i by {
                assert(text[i] == '?');
                let k = choose|k: int| 0 <= k < marks.len() && marks[k] == i;
                assert(fewer[k] == i);
            }
            assert forall|k: int| 0 <= k < fewer.len() implies rest[#[trigger] fewer[k]]
                == '?' by {
                assert(fewer[k] == marks[k]);
                assert(marks[k] < marks[marks.len() - 1]);
            }
            lemma_placeholders_at(rest, fewer);
        } else {
            assert forall|k: int| 0 <= k < marks.len() implies 0 <= #[trigger] marks[k]
                < rest.len() by {
                assert(text[marks[k]] == '?');
            }
            assert forall|i: int| 0 <= i < rest.len() && #[trigger] rest[i] == '?' implies exists|
                k: int,
            | 0 <= k < marks.len() && marks[k] == i by {
                assert(text[i] == '?');
            }
            lemma_placeholders_at(rest, marks);
        }
    }
}

/// The name of a column holds no placeholder.
pub proof fn lemma_column_name_plain(column: ServerColumn)
    ensures
        placeholders(column_name(column)) == 0,
{
    reveal_strlit("name");
    reveal_strlit("agent_card_url");
    reveal_strlit("agent_card_json");
    reveal_strlit("enabled");
    lemma_placeholders_at(column_name(column), seq![]);
}

/// The assignments of a partial update hold one placeholder for each column.
pub proof fn lemma_set_clause_placeholders(columns: Seq<ServerColumn>)
    ensures
        placeholders(set_clause(columns)) == columns.len(),
    decreases columns.len(),
{
    if columns.len() > 0 {
        lemma_set_clause_placeholders(columns.drop_last());
        lemma_column_name_plain(columns.last());
        lemma_placeholders_concat(set_clause(columns.drop_last()), column_name(columns.last()));
        lemma_placeholders_concat(
            set_clause(columns.drop_last()) + column_name(columns.last()),
            " = ?, "@,
        );
        reveal_strlit(" = ?, ");
        let marks = seq![3int];
        assert(marks[0] == 3);
        lemma_placeholders_at(" = ?, "@, marks);
    }
}

/// A partial update has one placeholder for each value that it binds: one
/// for each supplied column, and one for the id of the record.
pub proof fn lemma_update_placeholders(columns: Seq<ServerColumn>)
    ensures
        placeholders(update_sql(columns)) == columns.len() + 1,
{
    lemma_text_update_server_head();
    lemma_text_update_server_tail();
    lemma_set_clause_placeholders(columns);
    lemma_placeholders_concat(UPDATE_SERVER_HEAD@, set_clause(columns));
    lemma_placeholders_concat(UPDATE_SERVER_HEAD@ + set_clause(columns), UPDATE_SERVER_TAIL@);
}

/// `UPDATE_SERVER_HEAD` has no placeholder.
pub proof fn lemma_text_update_server_head()
    ensures
        placeholders(UPDATE_SERVER_HEAD@) == 0,
{
    reveal_strlit(
        "UPDATE tb_setting_a2a_server SET ",
    );
    lemma_placeholders_at(UPDATE_SERVER_HEAD@, seq![]);
}

/// `UPDATE_SERVER_TAIL` has one placeholder.
pub proof fn lemma_text_update_server_tail()
    ensures
        placeholders(UPDATE_SERVER_TAIL@) == 1,
{
    reveal_strlit(
        "updated_at = datetime('now') WHERE id = ?",
    );
    let marks = seq![40];
    assert(marks[0] == 40);
    lemma_placeholders_at(UPDATE_SERVER_TAIL@, marks);
}

/// `CREATE_SERVER_TABLE` has no placeholder.
pub proof fn lemma_text_create_server_table()
    ensures
        placeholders(CREATE_SERVER_TABLE@) == 0,
{
    reveal_strlit(
        "CREATE TABLE IF NOT EXISTS tb_setting_a2a_server (id INTEGER PRIMARY KEY AUTOINCREMENT, name TEXT NOT NULL, agent_card_url TEXT NOT NULL, agent_card_json TEXT, enabled INTEGER NOT NULL DEFAULT 0, created_at TEXT DEFAULT (datetime('now')), updated_at TEXT DEFAULT (datetime('now')))",
    );
    lemma_placeholders_at(CREATE_SERVER_TABLE@, seq![]);
}

/// `CREATE_SERVER_NAME_INDEX` has no placeholder.
pub proof fn lemma_text_create_server_name_index()
    ensures
        placeholders(CREATE_SERVER_NAME_INDEX@) == 0,
{
    reveal_strlit(
        "CREATE INDEX IF NOT EXISTS idx_setting_a2a_server_name ON tb_setting_a2a_server (name)",
    );
    lemma_placeholders_at(CREATE_SERVER_NAME_INDEX@, seq![]);
}

/// `CREATE_SERVER_ENABLED_INDEX` has no placeholder.
pub proof fn lemma_text_create_server_enabled_index()
    ensures
        placeholders(CREATE_SERVER_ENABLED_INDEX@) == 0,
{
    reveal_strlit(
        "CREATE INDEX IF NOT EXISTS idx_setting_a2a_server_enabled ON tb_setting_a2a_server (enabled)",
    );
    lemma_placeholders_at(CREATE_SERVER_ENABLED_INDEX@, seq![]);
}

/// `INSERT_SERVER` has four placeholders.
pub proof fn lemma_text_insert_server()
    ensures
        placeholders(INSERT_SERVER@) == 4,
{
    reveal_strlit(
        "INSERT INTO tb_setting_a2a_server (name, agent_card_url, agent_card_json, enabled) VALUES (?1, ?2, ?3, ?4)",
    );
    let marks = seq![91, 95, 99, 103];
    assert(marks[0] == 91);
    assert(marks[1] == 95);
    assert(marks[2] == 99);
    assert(marks[3] == 103);
    lemma_placeholders_at(INSERT_SERVER@, marks);
}

/// `SELECT_SERVERS` has no placeholder.
pub proof fn lemma_text_select_servers()
    ensures
        placeholders(SELECT_SERVERS@) == 0,
{
    reveal_strlit(
        "SELECT id, name, agent_card_url, agent_card_json, enabled, created_at, updated_at FROM tb_setting_a2a_server ORDER BY id ASC",
    );
    lemma_placeholders_at(SELECT_SERVERS@, seq![]);
}

/// `SELECT_SERVER_BY_ID` has one placeholder.
pub proof fn lemma_text_select_server_by_id()
    ensures
        placeholders(SELECT_SERVER_BY_ID@) == 1,
{
    reveal_strlit(
        "SELECT id, name, agent_card_url, agent_card_json, enabled, created_at, updated_at FROM tb_setting_a2a_server WHERE id = ?",
    );
    let marks = seq![120];
    assert(marks[0] == 120);
    lemma_placeholders_at(SELECT_SERVER_BY_ID@, marks);
}

/// `SELECT_SERVER_BY_NAME` has one placeholder.
pub proof fn lemma_text_select_server_by_name()
    ensures
        placeholders(SELECT_SERVER_BY_NAME@) == 1,
{
    reveal_strlit(
        "SELECT id, name, agent_card_url, agent_card_json, enabled, created_at, updated_at FROM tb_setting_a2a_server WHERE name = ?",
    );
    let marks = seq![122];
    assert(marks[0] == 122);
    lemma_placeholders_at(SELECT_SERVER_BY_NAME@, marks);
}

/// `SELECT_ENABLED_SERVERS` has no placeholder.
pub proof fn lemma_text_select_enabled_servers()
    ensures
        placeholders(SELECT_ENABLED_SERVERS@) == 0,
{
    reveal_strlit(
        "SELECT id, name, agent_card_url, agent_card_json, enabled, created_at, updated_at FROM tb_setting_a2a_server WHERE enabled = 1 ORDER BY id ASC",
    );
    lemma_placeholders_at(SELECT_ENABLED_SERVERS@, seq![]);
}

/// `DELETE_SERVER_BY_ID` has one placeholder.
pub proof fn lemma_text_delete_server_by_id()
    ensures
        placeholders(DELETE_SERVER_BY_ID@) == 1,
{
    reveal_strlit(
        "DELETE FROM tb_setting_a2a_server WHERE id = ?",
    );
    let marks = seq![45];
    assert(marks[0] == 45);
    lemma_placeholders_at(DELETE_SERVER_BY_ID@, marks);
}

/// `DELETE_SERVER_BY_NAME` has one placeholder.
pub proof fn lemma_text_delete_server_by_name()
    ensures
        placeholders(DELETE_SERVER_BY_NAME@) == 1,
{
    reveal_strlit(
        "DELETE FROM tb_setting_a2a_server WHERE name = ?",
    );
    let marks = seq![47];
    assert(marks[0] == 47);
    lemma_placeholders_at(DELETE_SERVER_BY_NAME@, marks);
}

/// `TOGGLE_SERVER` has one placeholder.
pub proof fn lemma_text_toggle_server()
    ensures
        placeholders(TOGGLE_SERVER@) == 1,
{
    reveal_strlit(
        "UPDATE tb_setting_a2a_server SET enabled = CASE WHEN enabled = 1 THEN 0 ELSE 1 END, updated_at = datetime('now') WHERE id = ?",
    );
    let marks = seq![124];
    assert(marks[0] == 124);
    lemma_placeholders_at(TOGGLE_SERVER@, marks);
}

/// `DISABLE_OTHER_SERVERS` has one placeholder.
pub proof fn lemma_text_disable_other_servers()
    ensures
        placeholders(DISABLE_OTHER_SERVERS@) == 1,
{
    reveal_strlit(
        "UPDATE tb_setting_a2a_server SET enabled = 0, updated_at = datetime('now') WHERE id != ?",
    );
    let marks = seq![87];
    assert(marks[0] == 87);
    lemma_placeholders_at(DISABLE_OTHER_SERVERS@, marks);
}

/// `CREATE_CONNECTION_TABLE` has no placeholder.
pub proof fn lemma_text_create_connection_table()
    ensures
        placeholders(CREATE_CONNECTION_TABLE@) == 0,
{
    reveal_strlit(
        "CREATE TABLE IF NOT EXISTS tb_dynmcp_connection (id INTEGER PRIMARY KEY AUTOINCREMENT, name TEXT NOT NULL, url TEXT NOT NULL UNIQUE, api_key TEXT NOT NULL, starred INTEGER NOT NULL DEFAULT 0)",
    );
    lemma_placeholders_at(CREATE_CONNECTION_TABLE@, seq![]);
}

/// `CREATE_CONNECTION_URL_INDEX` has no placeholder.
pub proof fn lemma_text_create_connection_url_index()
    ensures
        placeholders(CREATE_CONNECTION_URL_INDEX@) == 0,
{
    reveal_strlit(
        "CREATE INDEX IF NOT EXISTS idx_connection_url ON tb_dynmcp_connection (url)",
    );
    lemma_placeholders_at(CREATE_CONNECTION_URL_INDEX@, seq![]);
}

/// `INSERT_CONNECTION` has four placeholders.
pub proof fn lemma_text_insert_connection()
    ensures
        placeholders(INSERT_CONNECTION@) == 4,
{
    reveal_strlit(
        "INSERT INTO tb_dynmcp_connection (name, url, api_key, starred) VALUES (?1, ?2, ?3, ?4)",
    );
    let marks = seq![71, 75, 79, 83];
    assert(marks[0] == 71);
    assert(marks[1] == 75);
    assert(marks[2] == 79);
    assert(marks[3] == 83);
    lemma_placeholders_at(INSERT_CONNECTION@, marks);
}

/// `UPSERT_CONNECTION` has four placeholders.
pub proof fn lemma_text_upsert_connection()
    ensures
        placeholders(UPSERT_CONNECTION@) == 4,
{
    reveal_strlit(
        "INSERT INTO tb_dynmcp_connection (name, url, api_key, starred) VALUES (?1, ?2, ?3, ?4) ON CONFLICT(url) DO UPDATE SET name = excluded.name, api_key = excluded.api_key, starred = excluded.starred",
    );
    let marks = seq![71, 75, 79, 83];
    assert(marks[0] == 71);
    assert(marks[1] == 75);
    assert(marks[2] == 79);
    assert(marks[3] == 83);
    lemma_placeholders_at(UPSERT_CONNECTION@, marks);
}

/// `SELECT_CONNECTION_ID` has one placeholder.
pub proof fn lemma_text_select_connection_id()
    ensures
        placeholders(SELECT_CONNECTION_ID@) == 1,
{
    reveal_strlit(
        "SELECT id FROM tb_dynmcp_connection WHERE url = ?1",
    );
    let marks = seq![48];
    assert(marks[0] == 48);
    lemma_placeholders_at(SELECT_CONNECTION_ID@, marks);
}

/// `SELECT_CONNECTION_BY_URL` has one placeholder.
pub proof fn lemma_text_select_connection_by_url()
    ensures
        placeholders(SELECT_CONNECTION_BY_URL@) == 1,
{
    reveal_strlit(
        "SELECT id, name, url, api_key, starred FROM tb_dynmcp_connection WHERE url = ?",
    );
    let marks = seq![77];
    assert(marks[0] == 77);
    lemma_placeholders_at(SELECT_CONNECTION_BY_URL@, marks);
}

/// `SELECT_CONNECTIONS` has no placeholder.
pub proof fn lemma_text_select_connections()
    ensures
        placeholders(SELECT_CONNECTIONS@) == 0,
{
    reveal_strlit(
        "SELECT id, name, url, api_key, starred FROM tb_dynmcp_connection ORDER BY id ASC",
    );
    lemma_placeholders_at(SELECT_CONNECTIONS@, seq![]);
}

} // verus!
