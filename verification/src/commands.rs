//! The statements that the user's commands run against the log table, and
//! the replies that the commands give once the statements have run.
use vstd::prelude::*;
use crate::filters::{Filter, FilterView, filter_args, filter_sql, filtered, order_sql};
use crate::sql::{Arg, ArgView, Query, QueryBuilder, QueryView};

verus! {

/// The columns of a log entry, from the log table.
pub open spec fn select_logs_sql() -> Seq<char> {
    r"SELECT id, date, data, source, color, level, extras FROM logs"@
}

/// One log entry, by its row number.
pub open spec fn select_row_sql() -> Seq<char> {
    r"SELECT * FROM logs WHERE rowid = ?"@
}

/// Applying a filter with nothing set lists exactly what the plain listing lists.
pub proof fn lemma_unfiltered_listing_is_plain_listing()
    ensures
        filtered(
            QueryView { sql: select_logs_sql(), args: Seq::<ArgView>::empty() },
            FilterView { color: None, level: None, search: None },
        ) == (QueryView {
            sql: r"SELECT id, date, data, source, color, level, extras FROM logs ORDER BY date DESC"@,
            args: Seq::<ArgView>::empty(),
        }),
{
    reveal_strlit(r"SELECT id, date, data, source, color, level, extras FROM logs");
    reveal_strlit(" ORDER BY date DESC");
    reveal_strlit(r"SELECT id, date, data, source, color, level, extras FROM logs ORDER BY date DESC");
    let f = FilterView { color: None, level: None, search: None };
    let q = filtered(QueryView { sql: select_logs_sql(), args: Seq::<ArgView>::empty() }, f);
    assert(filter_sql(f) =~= order_sql());
    assert(q.sql =~= r"SELECT id, date, data, source, color, level, extras FROM logs ORDER BY date DESC"@);
    assert(q.args =~= Seq::<ArgView>::empty());
}

/// The statement that lists every log entry, newest first.
pub fn logs_query() -> (q: Query)
    ensures
        q@.sql == r"SELECT id, date, data, source, color, level, extras FROM logs ORDER BY date DESC"@,
        q@.args == Seq::<ArgView>::empty(),
{
    let qb = QueryBuilder::new(r"SELECT id, date, data, source, color, level, extras FROM logs ORDER BY date DESC");
    qb.build()
}

/// The statement that lists the log entries that pass `filter`, newest first.
pub fn apply_filters_query(filter: Filter) -> (q: Query)
    ensures
        q@ == filtered(QueryView { sql: select_logs_sql(), args: Seq::<ArgView>::empty() }, filter@),
{
    let mut qb = QueryBuilder::new(r"SELECT id, date, data, source, color, level, extras FROM logs");
    filter.get_query(&mut qb)
}

/// The statement that fetches the entry in row `id` under `filter`: the row
/// condition, then the filter's text; the filter's values, then `id`.
pub fn refresh_logs_query(filter: Filter, id: i64) -> (q: Query)
    ensures
        q@.sql == select_row_sql() + filter_sql(filter@),
        q@.args == filter_args(filter@).push(ArgView::Integer(id)),
{
    let mut qb = QueryBuilder::new(r"SELECT * FROM logs WHERE rowid = ?");
    let ghost f = filter@;
    let q = filter.get_query(&mut qb);
    proof {
        assert(Seq::<ArgView>::empty() + filter_args(f) =~= filter_args(f));
    }
    q.bind(Arg::Integer(id))
}

/// The statement that deletes the entries whose id is like `id`.
pub fn delete_log_query(id: &str) -> (q: Query)
    ensures
        q@.sql == r"DELETE FROM logs WHERE id LIKE ?;"@,
        q@.args == seq![ArgView::Text(id@)],
{
    let q = QueryBuilder::new(r"DELETE FROM logs WHERE id LIKE ?;").build();
    let r = q.bind(Arg::Text(String::from_str(id)));
    proof {
        assert(r@.args =~= seq![ArgView::Text(id@)]);
    }
    r
}

/// The statement that deletes every log entry.
pub fn clear_all_query() -> (q: Query)
    ensures
        q@.sql == "DELETE FROM logs;"@,
        q@.args == Seq::<ArgView>::empty(),
{
    QueryBuilder::new("DELETE FROM logs;").build()
}

/// What a listing command answers: the rendered page when the entries
/// could be read, else `Error ` followed by the reason.
pub fn listing_reply(outcome: Result<String, String>) -> (r: String)
    ensures
        r@ == match outcome {
            Ok(page) => page@,
            Err(reason) => "Error "@ + reason@,
        },
{
    match outcome {
        Ok(page) => page,
        Err(reason) => {
            let mut r = String::from_str("Error ");
            r.append(reason.as_str());
            r
        },
    }
}

/// What the refresh command answers: the rendered entry when it could be
/// read, else nothing.
pub fn entry_reply(rendered: Option<String>) -> (r: String)
    ensures
        r@ == match rendered {
            Some(page) => page@,
            None => Seq::<char>::empty(),
        },
{
    match rendered {
        Some(page) => page,
        None => String::new(),
    }
}

} // verus!
