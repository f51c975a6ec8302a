//! SQL statements as text with `?` placeholders and the values bound to them.
use vstd::prelude::*;

verus! {

/// A value bound to one `?` placeholder of a statement.
#[derive(Debug, PartialEq, Eq)]
pub enum Arg {
    /// A text value.
    Text(String),
    /// A 64-bit integer value.
    Integer(i64),
    /// A JSON document, stored as its text.
    Json(String),
    /// SQL `NULL`.
    Null,
}

/// The mathematical value of an [`Arg`].
pub enum ArgView {
    Text(Seq<char>),
    Integer(i64),
    Json(Seq<char>),
    Null,
}

impl View for Arg {
    type V = ArgView;

    open spec fn view(&self) -> ArgView {
        match self {
            Arg::Text(s) => ArgView::Text(s@),
            Arg::Integer(i) => ArgView::Integer(*i),
            Arg::Json(s) => ArgView::Json(s@),
            Arg::Null => ArgView::Null,
        }
    }
}

impl Clone for Arg {
    fn clone(&self) -> (r: Self)
        ensures
            r@ == self@,
    {
        match self {
            Arg::Text(s) => Arg::Text(s.clone()),
            Arg::Integer(i) => Arg::Integer(*i),
            Arg::Json(s) => Arg::Json(s.clone()),
            Arg::Null => Arg::Null,
        }
    }
}

/// The view of a text value that may be absent: `Some` binds text, `None` binds `NULL`.
pub open spec fn opt_text_arg(o: Option<Seq<char>>) -> ArgView {
    match o {
        Some(s) => ArgView::Text(s),
        None => ArgView::Null,
    }
}

/// Turns an optional text into the value bound for it: the text itself, or `NULL`.
pub fn opt_text(o: Option<String>) -> (a: Arg)
    ensures
        a@ == opt_text_arg(opt_view(o)),
{
    match o {
        Some(s) => Arg::Text(s),
        None => Arg::Null,
    }
}

/// The view of an optional string.
pub open spec fn opt_view(o: Option<String>) -> Option<Seq<char>> {
    match o {
        Some(s) => Some(s@),
        None => None,
    }
}

/// The mathematical value of a statement: its text and its bound values, in order.
pub struct QueryView {
    pub sql: Seq<char>,
    pub args: Seq<ArgView>,
}

/// The views of a sequence of bound values.
pub open spec fn args_view(args: Seq<Arg>) -> Seq<ArgView> {
    args.map_values(|a: Arg| a@)
}

/// A statement ready to run: its text and the values bound to its placeholders.
#[derive(Debug, PartialEq, Eq)]
pub struct Query {
    pub sql: String,
    pub args: Vec<Arg>,
}

impl View for Query {
    type V = QueryView;

    open spec fn view(&self) -> QueryView {
        QueryView { sql: self.sql@, args: args_view(self.args@) }
    }
}

impl Query {
    /// Binds one more value, after those bound so far; the text is unchanged.
    pub fn bind(self, a: Arg) -> (q: Query)
        ensures
            q@.sql == self@.sql,
            q@.args == self@.args.push(a@),
    {
        let Query { sql, mut args } = self;
        let ghost old_args = args@;
        args.push(a);
        proof {
            assert(args_view(args@) =~= args_view(old_args).push(a@));
        }
        Query { sql, args }
    }
}

/// Copies a list of bound values.
fn clone_args(args: &Vec<Arg>) -> (r: Vec<Arg>)
    ensures
        args_view(r@) == args_view(args@),
{
    let mut r: Vec<Arg> = Vec::new();
    let n = args.len();
    for i in 0..n
        invariant
            n == args.len(),
            r@.len() == i,
            forall|j: int| 0 <= j < i ==> #[trigger] r@[j]@ == args@[j]@,
    {
        r.push(args[i].clone());
    }
    assert(args_view(r@) =~= args_view(args@));
    r
}

/// A statement under construction: text is appended piece by piece and each
/// placeholder is appended together with the value bound to it.
pub struct QueryBuilder {
    sql: String,
    args: Vec<Arg>,
}

impl View for QueryBuilder {
    type V = QueryView;

    closed spec fn view(&self) -> QueryView {
        QueryView { sql: self.sql@, args: args_view(self.args@) }
    }
}

impl QueryBuilder {
    /// Starts a statement with the given text and no bound values.
    pub fn new(init: &str) -> (qb: QueryBuilder)
        ensures
            qb@.sql == init@,
            qb@.args == Seq::<ArgView>::empty(),
    {
        let qb = QueryBuilder { sql: String::from_str(init), args: Vec::new() };
        assert(args_view(qb.args@) =~= Seq::<ArgView>::empty());
        qb
    }

    /// Appends a piece of text.
    pub fn push(&mut self, s: &str)
        ensures
            final(self)@.sql == old(self)@.sql + s@,
            final(self)@.args == old(self)@.args,
    {
        self.sql.append(s);
    }

    /// Appends a `?` placeholder and binds `a` to it.
    pub fn push_bind(&mut self, a: Arg)
        ensures
            final(self)@.sql == old(self)@.sql + placeholder(),
            final(self)@.args == old(self)@.args.push(a@),
    {
        proof {
            reveal_strlit("?");
        }
        let ghost old_args = self.args@;
        self.sql.append("?");
        self.args.push(a);
        proof {
            assert(args_view(self.args@) =~= args_view(old_args).push(a@));
        }
    }

    /// The text built so far.
    pub fn sql(&self) -> (s: &str)
        ensures
            s@ == self@.sql,
    {
        self.sql.as_str()
    }

    /// The statement built so far, ready to run.
    pub fn build(&self) -> (q: Query)
        ensures
            q@ == self@,
    {
        Query { sql: self.sql.clone(), args: clone_args(&self.args) }
    }
}

/// The text of a placeholder.
pub open spec fn placeholder() -> Seq<char> {
    seq!['?']
}

} // verus!
