use livelog::filters::Filter;
use livelog::sql::{Arg, QueryBuilder};

const BASE: &str = "SELECT id, date, data, source, color, level, extras FROM logs";
const SEARCH: &str = " (json_extract(logs.data, '$.data', '$.message') LIKE ? OR json_extract(logs.source, '$.file', '$.line') LIKE ?)";

fn s(x: &str) -> Option<String> {
    Some(x.to_string())
}

fn run(f: Filter) -> (String, Vec<Arg>) {
    let mut qb = QueryBuilder::new(BASE);
    let q = f.get_query(&mut qb);
    assert_eq!(qb.sql(), q.sql);
    (q.sql, q.args)
}

#[test]
fn new_filter_without_conditions_only_orders() {
    let (sql, args) = run(Filter::new(None, None, None));
    assert_eq!(sql, format!("{} ORDER BY date DESC", BASE));
    assert!(args.is_empty());
}

#[test]
fn search_binds_the_pattern_twice() {
    let (sql, args) = run(Filter::new(None, None, s("err")));
    assert_eq!(sql, format!("{} WHERE{} ORDER BY date DESC", BASE, SEARCH));
    assert_eq!(args, vec![Arg::Text("%err%".to_string()), Arg::Text("%err%".to_string())]);
}

#[test]
fn empty_search_with_colors_drops_empty_items() {
    let (sql, args) = run(Filter::new(s("red,,blue"), None, s("")));
    assert_eq!(sql, format!("{} WHERE (color IN ('red','blue')) ORDER BY date DESC", BASE));
    assert!(args.is_empty());
}

#[test]
fn null_color_also_admits_entries_without_color() {
    let (sql, _) = run(Filter::new(s("red,null"), None, None));
    assert_eq!(sql, format!("{} WHERE (color IN ('red','null') OR color IS NULL) ORDER BY date DESC", BASE));
    let (sql, _) = run(Filter::new(s("null"), None, None));
    assert_eq!(sql, format!("{} WHERE (color IN ('null') OR color IS NULL) ORDER BY date DESC", BASE));
}

#[test]
fn empty_color_list_gives_empty_sql_list() {
    let (sql, _) = run(Filter::new(s(",,"), None, None));
    assert_eq!(sql, format!("{} WHERE (color IN ()) ORDER BY date DESC", BASE));
}

#[test]
fn all_three_conditions_are_joined_with_and() {
    let (sql, args) = run(Filter::new(s("red"), s("info,warn"), s("x")));
    assert_eq!(
        sql,
        format!("{} WHERE{} AND (color IN ('red')) AND (level IN ('info','warn')) ORDER BY date DESC", BASE, SEARCH)
    );
    assert_eq!(args.len(), 2);
}

#[test]
fn levels_alone() {
    let (sql, _) = run(Filter::new(None, s("info"), None));
    assert_eq!(sql, format!("{} WHERE (level IN ('info')) ORDER BY date DESC", BASE));
}

#[test]
fn colors_and_levels_without_search_are_not_joined() {
    let (sql, _) = run(Filter::new(s("red"), s("info"), None));
    assert_eq!(sql, format!("{} WHERE (color IN ('red')) (level IN ('info')) ORDER BY date DESC", BASE));
}

#[test]
fn empty_search_still_joins_levels_with_and() {
    let (sql, _) = run(Filter::new(None, s("info"), s("")));
    assert_eq!(sql, format!("{} WHERE AND (level IN ('info')) ORDER BY date DESC", BASE));
}

#[test]
fn query_is_appended_to_builder_text() {
    let mut qb = QueryBuilder::new("X");
    qb.push_bind(Arg::Integer(1));
    let q = Filter::new(None, None, s("a")).get_query(&mut qb);
    assert!(q.sql.starts_with("X? WHERE"));
    assert_eq!(q.args[0], Arg::Integer(1));
    assert_eq!(q.args.len(), 3);
}

#[test]
fn from_request_treats_empty_color_as_unset() {
    let (sql, _) = run(Filter::from_request(s(""), None, None));
    assert_eq!(sql, format!("{} ORDER BY date DESC", BASE));
    let (sql, _) = run(Filter::from_request(s("red"), None, None));
    assert_eq!(sql, format!("{} WHERE (color IN ('red')) ORDER BY date DESC", BASE));
    let (sql, _) = run(Filter::from_request(None, s(""), None));
    assert_eq!(sql, format!("{} WHERE (level IN ()) ORDER BY date DESC", BASE));
}

#[test]
fn every_listing_ends_ordered_newest_first() {
    for f in [
        Filter::new(None, None, None),
        Filter::new(s("a"), s("b"), s("c")),
        Filter::new(s(""), None, s("")),
    ] {
        let (sql, _) = run(f);
        assert!(sql.ends_with(" ORDER BY date DESC"));
    }
}

#[test]
fn where_appears_exactly_when_something_is_set() {
    let (sql, _) = run(Filter::new(None, None, None));
    assert!(!sql[BASE.len()..].starts_with(" WHERE"));
    let (sql, _) = run(Filter::new(None, None, s("")));
    assert!(sql[BASE.len()..].starts_with(" WHERE"));
}

#[test]
fn placeholders_match_bound_values() {
    for f in [
        Filter::new(s("r,null"), s("i"), s("q")),
        Filter::new(s("r"), None, s("")),
        Filter::new(None, None, s("z")),
    ] {
        let (sql, args) = run(f);
        assert_eq!(sql.matches('?').count(), args.len());
    }
}
