use livelog::sql::{opt_text, Arg, QueryBuilder};

#[test]
fn builder_appends_text_and_placeholders() {
    let mut qb = QueryBuilder::new("SELECT 1");
    qb.push(" WHERE a =");
    qb.push_bind(Arg::Text("v".to_string()));
    assert_eq!(qb.sql(), "SELECT 1 WHERE a =?");
    let q = qb.build();
    assert_eq!(q.sql, "SELECT 1 WHERE a =?");
    assert_eq!(q.args, vec![Arg::Text("v".to_string())]);
    let q = q.bind(Arg::Null);
    assert_eq!(q.sql, "SELECT 1 WHERE a =?");
    assert_eq!(q.args, vec![Arg::Text("v".to_string()), Arg::Null]);
}

#[test]
fn optional_text_binds_null_when_absent() {
    assert_eq!(opt_text(None), Arg::Null);
    assert_eq!(opt_text(Some("x".to_string())), Arg::Text("x".to_string()));
}

#[test]
fn cloned_arg_equals_its_source() {
    let a = Arg::Json("{\"k\":1}".to_string());
    assert_eq!(a.clone(), a);
}
