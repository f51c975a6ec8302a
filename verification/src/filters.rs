//! The filter that the user sets on the log list, and the SQL that applies it.
use vstd::prelude::*;
use crate::sql::{Arg, ArgView, Query, QueryBuilder, QueryView, opt_view, placeholder};
use crate::text::{contains_item, join_quoted, list_items, quote, split_list, sql_list};

verus! {

/// Which log entries to show: by text search, by a comma-separated list of
/// colors (where `null` stands for "no color") and by a comma-separated list of levels.
#[derive(Debug, Clone)]
pub struct Filter {
    color: Option<String>,
    level: Option<String>,
    search: Option<String>,
}

/// The mathematical value of a [`Filter`].
pub struct FilterView {
    pub color: Option<Seq<char>>,
    pub level: Option<Seq<char>>,
    pub search: Option<Seq<char>>,
}

impl View for Filter {
    type V = FilterView;

    closed spec fn view(&self) -> FilterView {
        FilterView {
            color: opt_view(self.color),
            level: opt_view(self.level),
            search: opt_view(self.search),
        }
    }
}

/// Whether the filter searches for a non-empty text.
pub open spec fn search_active(f: FilterView) -> bool {
    f.search matches Some(s) && s.len() > 0
}

/// Whether any of the three filters is set (an empty text counts as set).
pub open spec fn any_set(f: FilterView) -> bool {
    f.search is Some || f.color is Some || f.level is Some
}

/// `s` between percent signs: the `LIKE` pattern that matches any text containing `s`.
pub open spec fn like_pattern(s: Seq<char>) -> Seq<char> {
    seq!['%'] + s + seq!['%']
}

/// The opening of the clause.
pub open spec fn where_sql(f: FilterView) -> Seq<char> {
    if any_set(f) {
        " WHERE"@
    } else {
        Seq::<char>::empty()
    }
}

/// The text search: the message or the data, or the source file and line, are like the pattern.
pub open spec fn search_sql(f: FilterView) -> Seq<char> {
    if search_active(f) {
        r" (json_extract(logs.data, '$.data', '$.message') LIKE "@ + placeholder()
            + r" OR json_extract(logs.source, '$.file', '$.line') LIKE "@ + placeholder() + ")"@
    } else {
        Seq::<char>::empty()
    }
}

/// The values bound by the text search: the pattern, once for each placeholder.
pub open spec fn filter_args(f: FilterView) -> Seq<ArgView> {
    if search_active(f) {
        let p = like_pattern(f.search->0);
        seq![ArgView::Text(p), ArgView::Text(p)]
    } else {
        Seq::<ArgView>::empty()
    }
}

/// The tail of the color condition that also admits entries without a color,
/// present when `null` is one of the listed colors.
pub open spec fn null_color_sql(c: Seq<char>) -> Seq<char> {
    if list_items(c).contains("null"@) {
        (if sql_list(c).len() > 0 {
            " OR"@
        } else {
            Seq::<char>::empty()
        }) + " color IS NULL"@
    } else {
        Seq::<char>::empty()
    }
}

/// The color condition: joined with `AND` when a text search precedes it.
pub open spec fn color_sql(f: FilterView) -> Seq<char> {
    match f.color {
        Some(c) => (if search_active(f) {
            " AND"@
        } else {
            Seq::<char>::empty()
        }) + " (color IN ("@ + sql_list(c) + ")"@ + null_color_sql(c) + ")"@,
        None => Seq::<char>::empty(),
    }
}

/// The level condition: joined with `AND` whenever a search text is set, empty or not.
pub open spec fn level_sql(f: FilterView) -> Seq<char> {
    match f.level {
        Some(l) => (if f.search is Some {
            " AND"@
        } else {
            Seq::<char>::empty()
        }) + " (level IN ("@ + sql_list(l) + "))"@,
        None => Seq::<char>::empty(),
    }
}

/// The ordering: newest first.
pub open spec fn order_sql() -> Seq<char> {
    " ORDER BY date DESC"@
}

/// All the text that the filter appends to a `SELECT` statement.
pub open spec fn filter_sql(f: FilterView) -> Seq<char> {
    where_sql(f) + search_sql(f) + color_sql(f) + level_sql(f) + order_sql()
}

/// The statement `base` followed by the filter's text and values.
pub open spec fn filtered(base: QueryView, f: FilterView) -> QueryView {
    QueryView { sql: base.sql + filter_sql(f), args: base.args + filter_args(f) }
}

/// Every filtered listing is ordered newest first: the filter's text always
/// ends with the ordering.
pub proof fn lemma_ordered_newest_first(f: FilterView)
    ensures
        order_sql().is_suffix_of(filter_sql(f)),
{
    let s = filter_sql(f);
    assert(s.subrange(s.len() - order_sql().len(), s.len() as int) =~= order_sql());
}

/// The filter's text opens a `WHERE` clause exactly when one of the three
/// filters is set, even to an empty text.
pub proof fn lemma_where_iff_set(f: FilterView)
    ensures
        filter_sql(f).len() >= 6,
        filter_sql(f).take(6) == " WHERE"@ <==> any_set(f),
{
    reveal_strlit(" WHERE");
    reveal_strlit(" ORDER BY date DESC");
    let s = filter_sql(f);
    let rest = search_sql(f) + color_sql(f) + level_sql(f) + order_sql();
    if any_set(f) {
        assert(s =~= " WHERE"@ + rest);
        assert(s.take(6) =~= " WHERE"@);
    } else {
        assert(s =~= order_sql());
        assert(s.take(6)[1] == 'O');
        assert(" WHERE"@[1] == 'W');
    }
}

/// A non-empty search text `s` binds `%s%` twice, so that entries whose
/// message, data or source holds `s` anywhere match; any other search binds nothing.
pub proof fn lemma_search_binds_contains_pattern(f: FilterView)
    ensures
        f.search is Some && f.search->0.len() > 0 ==> filter_args(f) == seq![
            ArgView::Text(seq!['%'] + f.search->0 + seq!['%']),
            ArgView::Text(seq!['%'] + f.search->0 + seq!['%']),
        ],
        !(f.search is Some && f.search->0.len() > 0) ==> filter_args(f).len() == 0,
{
}

/// The joined list of quoted items is not empty when there is an item.
proof fn lemma_sql_list_nonempty(c: Seq<char>)
    requires
        list_items(c).len() > 0,
    ensures
        sql_list(c).len() >= 2,
{
    let q = list_items(c).map_values(|i: Seq<char>| quote(i));
    assert(q.last() == quote(list_items(c).last()));
    if q.len() > 1 {
        assert(crate::text::join_commas(q) == crate::text::join_commas(q.drop_last()) + seq![','] + q.last());
    }
}

/// The color condition also admits entries without a color exactly when
/// `null` is one of the listed colors, wherever it stands in the list.
pub proof fn lemma_null_color_admits_uncolored(f: FilterView)
    requires
        f.color is Some,
    ensures
        (" OR color IS NULL)"@).is_suffix_of(color_sql(f)) <==> exists|i: int|
            0 <= i < list_items(f.color->0).len() && list_items(f.color->0)[i] == "null"@,
{
    reveal_strlit(" OR color IS NULL)");
    reveal_strlit(" color IS NULL");
    reveal_strlit(" OR");
    reveal_strlit(")");
    let c = f.color->0;
    let items = list_items(c);
    let x = color_sql(f);
    let tail = " OR color IS NULL)"@;
    let pre = (if search_active(f) { " AND"@ } else { Seq::<char>::empty() }) + " (color IN ("@
        + sql_list(c) + ")"@;
    assert(x == pre + null_color_sql(c) + ")"@);
    if exists|i: int| 0 <= i < items.len() && items[i] == "null"@ {
        let i = choose|i: int| 0 <= i < items.len() && items[i] == "null"@;
        assert(items.contains("null"@));
        lemma_sql_list_nonempty(c);
        assert(null_color_sql(c) =~= " OR"@ + " color IS NULL"@);
        assert(tail =~= " OR"@ + " color IS NULL"@ + ")"@);
        assert(x =~= pre + (" OR"@ + " color IS NULL"@ + ")"@));
        assert(x.subrange(x.len() - tail.len(), x.len() as int) =~= tail);
    } else {
        assert(!items.contains("null"@));
        assert(x =~= pre + ")"@);
        assert(x[x.len() - 2] == ')');
        assert(tail[tail.len() - 2] == 'L');
        if tail.is_suffix_of(x) {
            assert(x.subrange(x.len() - tail.len(), x.len() as int)[tail.len() - 2] == x[x.len() - 2]);
        }
    }
}

/// A level condition is joined with `AND` exactly when a search text is set
/// (empty or not), whatever the color filter.
pub proof fn lemma_levels_joined_when_searching(f: FilterView)
    requires
        f.level is Some,
    ensures
        level_sql(f).len() >= 4,
        level_sql(f).take(4) == " AND"@ <==> f.search is Some,
{
    reveal_strlit(" AND");
    reveal_strlit(" (level IN (");
    let l = f.level->0;
    let rest = " (level IN ("@ + sql_list(l) + "))"@;
    if f.search is Some {
        assert(level_sql(f) =~= " AND"@ + rest);
        assert(level_sql(f).take(4) =~= " AND"@);
    } else {
        assert(level_sql(f) =~= rest);
        assert(level_sql(f).take(4)[1] == '(');
        assert(" AND"@[1] == 'A');
    }
}

/// Whether a character is a placeholder.
pub open spec fn is_placeholder(c: char) -> bool {
    c == '?'
}

/// The number of placeholders in a text.
pub open spec fn placeholder_count(s: Seq<char>) -> nat {
    s.filter(|c: char| is_placeholder(c)).len()
}

proof fn lemma_count_add(a: Seq<char>, b: Seq<char>)
    ensures
        placeholder_count(a + b) == placeholder_count(a) + placeholder_count(b),
{
    Seq::filter_distributes_over_add(a, b, |c: char| is_placeholder(c));
}

proof fn lemma_count_none(s: Seq<char>)
    requires
        forall|i: int| 0 <= i < s.len() ==> s[i] != '?',
    ensures
        placeholder_count(s) == 0,
    decreases s.len(),
{
    reveal_with_fuel(Seq::filter, 1);
    if s.len() > 0 {
        lemma_count_none(s.drop_last());
    }
}

/// Every placeholder that the filter writes has a value bound to it, as long
/// as the color and level lists hold no `?` of their own.
pub proof fn lemma_each_placeholder_bound(f: FilterView)
    requires
        f.color matches Some(c) ==> !c.contains('?'),
        f.level matches Some(l) ==> !l.contains('?'),
    ensures
        placeholder_count(filter_sql(f)) == filter_args(f).len(),
{
    reveal_with_fuel(Seq::filter, 2);
    assert(placeholder_count(placeholder()) == 1);
    let empty = Seq::<char>::empty();
    assert(placeholder_count(empty) == 0);
    lemma_literals_hold_no_placeholder();
    // the opening
    assert(placeholder_count(where_sql(f)) == 0);
    // the search
    if search_active(f) {
        let a = r" (json_extract(logs.data, '$.data', '$.message') LIKE "@;
        let b = r" OR json_extract(logs.source, '$.file', '$.line') LIKE "@;
        lemma_count_add(a, placeholder());
        lemma_count_add(a + placeholder(), b);
        lemma_count_add(a + placeholder() + b, placeholder());
        lemma_count_add(a + placeholder() + b + placeholder(), ")"@);
    }
    assert(placeholder_count(search_sql(f)) == filter_args(f).len());
    // the colors
    if let Some(c) = f.color {
        crate::text::lemma_sql_list_avoids(c, '?');
        lemma_count_none(sql_list(c));
        let and = if search_active(f) { " AND"@ } else { empty };
        assert(placeholder_count(and) == 0);
        let or = if sql_list(c).len() > 0 { " OR"@ } else { empty };
        assert(placeholder_count(or) == 0);
        lemma_count_add(or, " color IS NULL"@);
        assert(placeholder_count(null_color_sql(c)) == 0);
        lemma_count_add(and, " (color IN ("@);
        lemma_count_add(and + " (color IN ("@, sql_list(c));
        lemma_count_add(and + " (color IN ("@ + sql_list(c), ")"@);
        lemma_count_add(and + " (color IN ("@ + sql_list(c) + ")"@, null_color_sql(c));
        lemma_count_add(and + " (color IN ("@ + sql_list(c) + ")"@ + null_color_sql(c), ")"@);
    }
    assert(placeholder_count(color_sql(f)) == 0);
    // the levels
    if let Some(l) = f.level {
        crate::text::lemma_sql_list_avoids(l, '?');
        lemma_count_none(sql_list(l));
        let and = if f.search is Some { " AND"@ } else { empty };
        assert(placeholder_count(and) == 0);
        lemma_count_add(and, " (level IN ("@);
        lemma_count_add(and + " (level IN ("@, sql_list(l));
        lemma_count_add(and + " (level IN ("@ + sql_list(l), "))"@);
    }
    assert(placeholder_count(level_sql(f)) == 0);
    // all together
    lemma_count_add(where_sql(f), search_sql(f));
    lemma_count_add(where_sql(f) + search_sql(f), color_sql(f));
    lemma_count_add(where_sql(f) + search_sql(f) + color_sql(f), level_sql(f));
    lemma_count_add(where_sql(f) + search_sql(f) + color_sql(f) + level_sql(f), order_sql());
}

/// No fixed piece of the filter's text is a placeholder.
proof fn lemma_literals_hold_no_placeholder()
    ensures
        placeholder_count(" WHERE"@) == 0,
        placeholder_count(r" (json_extract(logs.data, '$.data', '$.message') LIKE "@) == 0,
        placeholder_count(r" OR json_extract(logs.source, '$.file', '$.line') LIKE "@) == 0,
        placeholder_count(")"@) == 0,
        placeholder_count(" AND"@) == 0,
        placeholder_count(" (color IN ("@) == 0,
        placeholder_count(" OR"@) == 0,
        placeholder_count(" color IS NULL"@) == 0,
        placeholder_count(" (level IN ("@) == 0,
        placeholder_count("))"@) == 0,
        placeholder_count(" ORDER BY date DESC"@) == 0,
{
    reveal_strlit(" WHERE");
    reveal_strlit(r" (json_extract(logs.data, '$.data', '$.message') LIKE ");
    reveal_strlit(r" OR json_extract(logs.source, '$.file', '$.line') LIKE ");
    reveal_strlit(")");
    reveal_strlit(" AND");
    reveal_strlit(" (color IN (");
    reveal_strlit(" OR");
    reveal_strlit(" color IS NULL");
    reveal_strlit(" (level IN (");
    reveal_strlit("))");
    reveal_strlit(" ORDER BY date DESC");
    lemma_count_none(" WHERE"@);
    lemma_count_none(r" (json_extract(logs.data, '$.data', '$.message') LIKE "@);
    lemma_count_none(r" OR json_extract(logs.source, '$.file', '$.line') LIKE "@);
    lemma_count_none(")"@);
    lemma_count_none(" AND"@);
    lemma_count_none(" (color IN ("@);
    lemma_count_none(" OR"@);
    lemma_count_none(" color IS NULL"@);
    lemma_count_none(" (level IN ("@);
    lemma_count_none("))"@);
    lemma_count_none(" ORDER BY date DESC"@);
}

/// The pattern `%s%`.
fn like(s: &String) -> (r: String)
    ensures
        r@ == like_pattern(s@),
{
    proof {
        reveal_strlit("%");
    }
    let mut r = String::from_str("%");
    r.append(s.as_str());
    r.append("%");
    r
}

impl Filter {
    /// A filter with the given color list, level list and search text.
    pub fn new(color: Option<String>, level: Option<String>, search: Option<String>) -> (f: Self)
        ensures
            f@ == (FilterView {
                color: opt_view(color),
                level: opt_view(level),
                search: opt_view(search),
            }),
    {
        Filter { color, level, search }
    }

    /// The filter that a request sets: an empty color list means no color filter;
    /// the level list and the search text are taken as given.
    pub fn from_request(color: Option<String>, level: Option<String>, search: Option<String>) -> (f: Self)
        ensures
            f@ == (FilterView {
                color: match color {
                    Some(c) => if c@.len() > 0 { Some(c@) } else { None },
                    None => None,
                },
                level: opt_view(level),
                search: opt_view(search),
            }),
    {
        let colors = match color {
            Some(c) => if c.as_str().is_empty() { None } else { Some(c) },
            None => None,
        };
        Filter::new(colors, level, search)
    }

    fn push_search(&self, qb: &mut QueryBuilder)
        ensures
            final(qb)@.sql == old(qb)@.sql + search_sql(self@),
            final(qb)@.args == old(qb)@.args + filter_args(self@),
    {
        match &self.search {
            Some(s) => {
                if !s.as_str().is_empty() {
                    let ghost q0 = qb@;
                    let p = like(s);
                    qb.push(r" (json_extract(logs.data, '$.data', '$.message') LIKE ");
                    qb.push_bind(Arg::Text(p.clone()));
                    qb.push(r" OR json_extract(logs.source, '$.file', '$.line') LIKE ");
                    qb.push_bind(Arg::Text(p));
                    qb.push(")");
                    proof {
                        assert(qb@.sql =~= q0.sql + search_sql(self@));
                        assert(qb@.args =~= q0.args + filter_args(self@));
                    }
                } else {
                    proof {
                        assert(qb@.sql =~= qb@.sql + Seq::<char>::empty());
                        assert(qb@.args =~= qb@.args + Seq::<ArgView>::empty());
                    }
                }
            },
            None => {
                proof {
                    assert(qb@.sql =~= qb@.sql + Seq::<char>::empty());
                    assert(qb@.args =~= qb@.args + Seq::<ArgView>::empty());
                }
            },
        }
    }

    fn push_colors(&self, qb: &mut QueryBuilder, searching: bool)
        requires
            searching == search_active(self@),
        ensures
            final(qb)@.sql == old(qb)@.sql + color_sql(self@),
            final(qb)@.args == old(qb)@.args,
    {
        match &self.color {
            Some(colors) => {
                let ghost q0 = qb@;
                if searching {
                    qb.push(" AND");
                }
                let items = split_list(colors.as_str());
                let null = String::from_str("null");
                let nullable = contains_item(&items, &null);
                let list = join_quoted(&items);
                qb.push(" (color IN (");
                qb.push(list.as_str());
                qb.push(")");
                let ghost q2 = qb@;
                if nullable {
                    if !list.as_str().is_empty() {
                        qb.push(" OR");
                    }
                    qb.push(" color IS NULL");
                }
                proof {
                    assert(qb@.sql =~= q2.sql + null_color_sql(colors@));
                }
                qb.push(")");
                proof {
                    assert(qb@.sql =~= q0.sql + color_sql(self@));
                }
            },
            None => {
                proof {
                    assert(qb@.sql =~= qb@.sql + Seq::<char>::empty());
                }
            },
        }
    }

    fn push_levels(&self, qb: &mut QueryBuilder)
        ensures
            final(qb)@.sql == old(qb)@.sql + level_sql(self@),
            final(qb)@.args == old(qb)@.args,
    {
        match &self.level {
            Some(levels) => {
                let ghost q0 = qb@;
                if self.search.is_some() {
                    qb.push(" AND");
                }
                let items = split_list(levels.as_str());
                let list = join_quoted(&items);
                qb.push(" (level IN (");
                qb.push(list.as_str());
                qb.push("))");
                proof {
                    assert(qb@.sql =~= q0.sql + level_sql(self@));
                }
            },
            None => {
                proof {
                    assert(qb@.sql =~= qb@.sql + Seq::<char>::empty());
                }
            },
        }
    }

    /// Appends to `qb` the condition that selects the entries passing this
    /// filter and the ordering newest first, and returns the statement built.
    pub fn get_query(self, qb: &mut QueryBuilder) -> (q: Query)
        ensures
            final(qb)@ == filtered(old(qb)@, self@),
            q@ == final(qb)@,
    {
        let ghost q0 = qb@;
        let searching = match &self.search {
            Some(s) => !s.as_str().is_empty(),
            None => false,
        };
        if self.search.is_some() || self.color.is_some() || self.level.is_some() {
            qb.push(" WHERE");
        }
        proof {
            assert(qb@.sql =~= q0.sql + where_sql(self@));
        }
        self.push_search(qb);
        self.push_colors(qb, searching);
        self.push_levels(qb);
        qb.push(" ORDER BY date DESC");
        proof {
            assert(qb@.sql =~= q0.sql + filter_sql(self@));
            assert(qb@.args =~= q0.args + filter_args(self@));
        }
        qb.build()
    }
}

} // verus!
