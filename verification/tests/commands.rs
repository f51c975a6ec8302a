use livelog::commands::{
    apply_filters_query, clear_all_query, delete_log_query, entry_reply, listing_reply, logs_query,
    refresh_logs_query,
};
use livelog::filters::Filter;
use livelog::sql::Arg;

#[test]
fn logs_lists_everything_newest_first() {
    let q = logs_query();
    assert_eq!(q.sql, "SELECT id, date, data, source, color, level, extras FROM logs ORDER BY date DESC");
    assert!(q.args.is_empty());
}

#[test]
fn unfiltered_listing_is_plain_listing() {
    assert_eq!(apply_filters_query(Filter::new(None, None, None)), logs_query());
}

#[test]
fn apply_filters_selects_then_filters() {
    let q = apply_filters_query(Filter::from_request(Some("red".to_string()), None, None));
    assert_eq!(
        q.sql,
        "SELECT id, date, data, source, color, level, extras FROM logs WHERE (color IN ('red')) ORDER BY date DESC"
    );
}

#[test]
fn refresh_binds_row_id_last() {
    let q = refresh_logs_query(Filter::new(None, None, Some("x".to_string())), 7);
    assert!(q.sql.starts_with("SELECT * FROM logs WHERE rowid = ? WHERE"));
    assert_eq!(
        q.args,
        vec![Arg::Text("%x%".to_string()), Arg::Text("%x%".to_string()), Arg::Integer(7)]
    );
    let q = refresh_logs_query(Filter::new(None, None, None), 3);
    assert_eq!(q.sql, "SELECT * FROM logs WHERE rowid = ? ORDER BY date DESC");
    assert_eq!(q.args, vec![Arg::Integer(3)]);
}

#[test]
fn delete_and_clear_statements() {
    let q = delete_log_query("abc%");
    assert_eq!(q.sql, "DELETE FROM logs WHERE id LIKE ?;");
    assert_eq!(q.args, vec![Arg::Text("abc%".to_string())]);
    let q = clear_all_query();
    assert_eq!(q.sql, "DELETE FROM logs;");
    assert!(q.args.is_empty());
}

#[test]
fn replies_of_commands() {
    assert_eq!(listing_reply(Ok("<li>".to_string())), "<li>");
    assert_eq!(listing_reply(Err("no table".to_string())), "Error no table");
    assert_eq!(entry_reply(Some("<p>".to_string())), "<p>");
    assert_eq!(entry_reply(None), "");
}
