use linda::cmd::Cmd;
use linda::statement::{schema_sql, InsertStatement};
use rusqlite::Connection;

#[test]
fn initialize_twice_leaves_one_table() {
    let conn = Connection::open_in_memory().unwrap();
    conn.execute(schema_sql(), ()).unwrap();
    // The schema statement creates the table only where it is absent, so a
    // second run must succeed and change nothing.
    conn.execute(schema_sql(), ()).unwrap();
    let tables: i64 = conn
        .query_row(
            "SELECT count(*) FROM sqlite_master WHERE type = 'table' AND name = 'transaction'",
            (),
            |row| row.get(0),
        )
        .unwrap();
    assert_eq!(tables, 1);
    let columns: i64 = conn
        .query_row("SELECT count(*) FROM pragma_table_info('transaction')", (), |row| row.get(0))
        .unwrap();
    assert_eq!(columns, 6);
}

#[test]
fn income_statement_inserts_the_record_values() {
    let cmd = Cmd::from_line("&10,some word", 77).unwrap();
    let st: InsertStatement = cmd.to_sql().unwrap().unwrap();
    assert_eq!(
        st.sql,
        "INSERT INTO `transaction` (created_at, tax, category) VALUES (?1, ?2, ?3)"
    );
    assert_eq!(st.created_at, 77);
    assert_eq!(st.tax, 10);
    assert_eq!(st.category, "some word");

    let conn = Connection::open_in_memory().unwrap();
    conn.execute(schema_sql(), ()).unwrap();
    conn.execute(&st.sql, (st.created_at, st.tax, st.category.clone())).unwrap();
    let (created_at, tax, category): (i64, i32, String) = conn
        .query_row("SELECT created_at, tax, category FROM `transaction`", (), |row| {
            Ok((row.get(0)?, row.get(1)?, row.get(2)?))
        })
        .unwrap();
    assert_eq!(created_at, 77);
    assert_eq!(tax, 10);
    assert_eq!(category, "some word");
}

#[test]
fn adversarial_category_text_stays_data() {
    // With parameter binding, a quote-laden category cannot corrupt the
    // statement: it lands in the column verbatim.
    let cmd = Cmd::from_line("&1,x'); DROP TABLE `transaction`; --", 1).unwrap();
    let st = cmd.to_sql().unwrap().unwrap();
    let conn = Connection::open_in_memory().unwrap();
    conn.execute(schema_sql(), ()).unwrap();
    conn.execute(&st.sql, (st.created_at, st.tax, st.category.clone())).unwrap();
    let category: String = conn
        .query_row("SELECT category FROM `transaction`", (), |row| row.get(0))
        .unwrap();
    assert_eq!(category, "x'); DROP TABLE `transaction`; --");
}
