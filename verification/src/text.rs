//! Comma-separated lists: splitting them into their non-empty fields and
//! writing fields back as a quoted, comma-separated SQL list.
use vstd::prelude::*;

verus! {

/// The fields of `s` between commas, in order, empty ones included:
/// `""` has one empty field and `"a,,b"` has the fields `a`, `` and `b`.
pub open spec fn fields(s: Seq<char>) -> Seq<Seq<char>>
    decreases s.len(),
{
    if s.len() == 0 {
        seq![Seq::<char>::empty()]
    } else {
        let f = fields(s.drop_last());
        if s.last() == ',' {
            f.push(Seq::<char>::empty())
        } else {
            f.update(f.len() - 1, f.last().push(s.last()))
        }
    }
}

/// Whether a field is kept: only non-empty fields are.
pub open spec fn nonempty(f: Seq<char>) -> bool {
    f.len() > 0
}

/// The non-empty ones among the fields, in order.
pub open spec fn nonempty_fields(f: Seq<Seq<char>>) -> Seq<Seq<char>> {
    f.filter(|x: Seq<char>| nonempty(x))
}

/// The non-empty comma-separated fields of `s`, in order.
pub open spec fn list_items(s: Seq<char>) -> Seq<Seq<char>> {
    nonempty_fields(fields(s))
}

/// `item` between single quotes.
pub open spec fn quote(item: Seq<char>) -> Seq<char> {
    seq!['\''] + item + seq!['\'']
}

/// The items joined with commas between them.
pub open spec fn join_commas(items: Seq<Seq<char>>) -> Seq<char>
    decreases items.len(),
{
    if items.len() == 0 {
        Seq::<char>::empty()
    } else if items.len() == 1 {
        items[0]
    } else {
        join_commas(items.drop_last()) + seq![','] + items.last()
    }
}

/// The SQL list written for the comma-separated text `s`: each non-empty
/// field between single quotes, joined with commas.
pub open spec fn sql_list(s: Seq<char>) -> Seq<char> {
    join_commas(list_items(s).map_values(|i: Seq<char>| quote(i)))
}

/// There is always at least one field.
pub proof fn lemma_fields_nonempty(s: Seq<char>)
    ensures
        fields(s).len() >= 1,
    decreases s.len(),
{
    if s.len() > 0 {
        lemma_fields_nonempty(s.drop_last());
    }
}

/// Unfolds the filter of a sequence at its last element.
proof fn lemma_filter_last(f: Seq<Seq<char>>)
    requires
        f.len() >= 1,
    ensures
        nonempty_fields(f) == if nonempty(f.last()) {
            nonempty_fields(f.drop_last()).push(f.last())
        } else {
            nonempty_fields(f.drop_last())
        },
{
    reveal_with_fuel(Seq::filter, 1);
}

/// `s` without its commas.
pub open spec fn without_commas(s: Seq<char>) -> Seq<char> {
    s.filter(|c: char| c != ',')
}

/// The fields hold every character of `s` but the commas, in order, and no comma.
proof fn lemma_fields_shape(s: Seq<char>)
    ensures
        fields(s).flatten_alt() == without_commas(s),
        forall|i: int| 0 <= i < fields(s).len() ==> !(#[trigger] fields(s)[i]).contains(','),
    decreases s.len(),
{
    reveal_with_fuel(Seq::filter, 1);
    if s.len() == 0 {
        let f = fields(s);
        assert(f.drop_last() =~= Seq::<Seq<char>>::empty());
        assert(f.drop_last().flatten_alt() == Seq::<char>::empty());
        assert(f.last() == Seq::<char>::empty());
        assert(f.flatten_alt() =~= Seq::<char>::empty());
    } else {
        let t = s.drop_last();
        let c = s.last();
        assert(without_commas(s) == if c != ',' { without_commas(t).push(c) } else { without_commas(t) });
        lemma_fields_shape(t);
        lemma_fields_nonempty(t);
        let f = fields(t);
        if c == ',' {
            let g = f.push(Seq::<char>::empty());
            assert(g.drop_last() =~= f);
            assert(g.flatten_alt() =~= f.flatten_alt());
            assert forall|i: int| 0 <= i < g.len() implies !(#[trigger] g[i]).contains(',') by {
                if i < f.len() {
                    assert(g[i] == f[i]);
                }
            }
        } else {
            let g = f.update(f.len() - 1, f.last().push(c));
            assert(g.drop_last() =~= f.drop_last());
            assert(f.drop_last().flatten_alt() + f.last() == f.flatten_alt());
            assert(g.flatten_alt() =~= f.flatten_alt().push(c));
            assert forall|i: int| 0 <= i < g.len() implies !(#[trigger] g[i]).contains(',') by {
                if i < f.len() - 1 {
                    assert(g[i] == f[i]);
                } else {
                    assert(!f[i].contains(','));
                    if g[i].contains(',') {
                        let k = choose|k: int| 0 <= k < g[i].len() && g[i][k] == ',';
                        assert(f[i][k] == ',');
                    }
                }
            }
        }
    }
}

/// Dropping the empty fields loses no character, and what is left is non-empty
/// and, when no field holds a comma, holds no comma.
proof fn lemma_drop_empty_fields(f: Seq<Seq<char>>, ch: char)
    ensures
        nonempty_fields(f).flatten_alt() == f.flatten_alt(),
        forall|i: int|
            0 <= i < nonempty_fields(f).len() ==> nonempty(
                #[trigger] nonempty_fields(f)[i],
            ),
        (forall|i: int| 0 <= i < f.len() ==> !(#[trigger] f[i]).contains(ch)) ==> (forall|i: int|
            0 <= i < nonempty_fields(f).len() ==> !(#[trigger] nonempty_fields(f)[i]).contains(ch)),
    decreases f.len(),
{
    if f.len() > 0 {
        let d = f.drop_last();
        lemma_drop_empty_fields(d, ch);
        lemma_filter_last(f);
        let fd = nonempty_fields(d);
        if nonempty(f.last()) {
            let ff = fd.push(f.last());
            assert(ff.drop_last() =~= fd);
            assert forall|i: int| 0 <= i < ff.len() implies nonempty(#[trigger] ff[i]) by {
                if i < fd.len() {
                    assert(ff[i] == fd[i]);
                }
            }
            if forall|i: int| 0 <= i < f.len() ==> !(#[trigger] f[i]).contains(ch) {
                assert forall|i: int| 0 <= i < d.len() implies !(#[trigger] d[i]).contains(ch) by {
                    assert(d[i] == f[i]);
                }
                assert forall|i: int| 0 <= i < ff.len() implies !(#[trigger] ff[i]).contains(ch) by {
                    if i < fd.len() {
                        assert(ff[i] == fd[i]);
                    } else {
                        assert(ff[i] == f[f.len() - 1]);
                    }
                }
            }
        } else {
            assert(f.last() =~= Seq::<char>::empty());
            assert(f.flatten_alt() =~= d.flatten_alt());
            if forall|i: int| 0 <= i < f.len() ==> !(#[trigger] f[i]).contains(ch) {
                assert forall|i: int| 0 <= i < d.len() implies !(#[trigger] d[i]).contains(ch) by {
                    assert(d[i] == f[i]);
                }
            }
        }
    }
}

/// Splitting a list keeps every character but the commas, in order, and each
/// item it gives is non-empty and holds no comma.
pub proof fn lemma_list_items_shape(s: Seq<char>)
    ensures
        list_items(s).flatten() == without_commas(s),
        forall|i: int| 0 <= i < list_items(s).len() ==> (#[trigger] list_items(s)[i]).len() > 0,
        forall|i: int| 0 <= i < list_items(s).len() ==> !(#[trigger] list_items(s)[i]).contains(','),
{
    lemma_fields_shape(s);
    lemma_drop_empty_fields(fields(s), ',');
    list_items(s).lemma_flatten_and_flatten_alt_are_equivalent();
}

/// A character that `s` lacks is in none of its fields.
proof fn lemma_fields_avoid(s: Seq<char>, ch: char)
    requires
        !s.contains(ch),
    ensures
        forall|i: int| 0 <= i < fields(s).len() ==> !(#[trigger] fields(s)[i]).contains(ch),
    decreases s.len(),
{
    if s.len() > 0 {
        let t = s.drop_last();
        let c = s.last();
        assert(!t.contains(ch)) by {
            if t.contains(ch) {
                let k = choose|k: int| 0 <= k < t.len() && t[k] == ch;
                assert(s[k] == ch);
            }
        }
        assert(c != ch) by {
            assert(s[s.len() - 1] == c);
        }
        lemma_fields_avoid(t, ch);
        lemma_fields_nonempty(t);
        let f = fields(t);
        if c == ',' {
            let g = f.push(Seq::<char>::empty());
            assert forall|i: int| 0 <= i < g.len() implies !(#[trigger] g[i]).contains(ch) by {
                if i < f.len() {
                    assert(g[i] == f[i]);
                }
            }
        } else {
            let g = f.update(f.len() - 1, f.last().push(c));
            assert forall|i: int| 0 <= i < g.len() implies !(#[trigger] g[i]).contains(ch) by {
                if i < f.len() - 1 {
                    assert(g[i] == f[i]);
                } else {
                    assert(!f[i].contains(ch));
                    if g[i].contains(ch) {
                        let k = choose|k: int| 0 <= k < g[i].len() && g[i][k] == ch;
                        assert(f[i][k] == ch);
                    }
                }
            }
        }
    }
}

/// Joining items that lack `ch` with commas gives a text that lacks it, when `ch` is no comma.
proof fn lemma_join_avoids(items: Seq<Seq<char>>, ch: char)
    requires
        ch != ',',
        forall|i: int| 0 <= i < items.len() ==> !(#[trigger] items[i]).contains(ch),
    ensures
        !join_commas(items).contains(ch),
    decreases items.len(),
{
    if items.len() == 1 {
        assert(!items[0].contains(ch));
    } else if items.len() > 1 {
        let d = items.drop_last();
        assert forall|i: int| 0 <= i < d.len() implies !(#[trigger] d[i]).contains(ch) by {
            assert(d[i] == items[i]);
        }
        lemma_join_avoids(d, ch);
        let a = join_commas(d);
        let b = items.last();
        assert(!b.contains(ch)) by {
            assert(items[items.len() - 1] == b);
        }
        let j = a + seq![','] + b;
        if j.contains(ch) {
            let k = choose|k: int| 0 <= k < j.len() && j[k] == ch;
            if k < a.len() {
                assert(a[k] == ch);
            } else if k == a.len() {
                assert(j[k] == ',');
            } else {
                assert(b[k - a.len() - 1] == ch);
            }
        }
    }
}

/// The SQL list written for a text lacks every character that the text lacks,
/// other than the quote and the comma that it adds.
pub proof fn lemma_sql_list_avoids(s: Seq<char>, ch: char)
    requires
        !s.contains(ch),
        ch != ',',
        ch != '\'',
    ensures
        !sql_list(s).contains(ch),
{
    lemma_fields_avoid(s, ch);
    lemma_drop_empty_fields(fields(s), ch);
    let items = list_items(s);
    let q = items.map_values(|i: Seq<char>| quote(i));
    assert forall|i: int| 0 <= i < q.len() implies !(#[trigger] q[i]).contains(ch) by {
        let it = items[i];
        assert(!it.contains(ch));
        assert(q[i] == quote(it));
        if quote(it).contains(ch) {
            let k = choose|k: int| 0 <= k < quote(it).len() && quote(it)[k] == ch;
            if k == 0 || k == it.len() + 1 {
            } else {
                assert(it[k - 1] == ch);
            }
        }
    }
    lemma_join_avoids(q, ch);
}

/// The fields after a comma are those before it followed by those after it.
proof fn lemma_fields_concat(a: Seq<char>, b: Seq<char>)
    ensures
        fields(a + seq![','] + b) == fields(a) + fields(b),
    decreases b.len(),
{
    let ac = a + seq![','];
    assert(ac.drop_last() =~= a);
    if b.len() == 0 {
        assert(a + seq![','] + b =~= ac);
        assert(fields(ac) =~= fields(a) + fields(b));
    } else {
        let b0 = b.drop_last();
        let c = b.last();
        lemma_fields_concat(a, b0);
        lemma_fields_nonempty(a);
        lemma_fields_nonempty(b0);
        let x = a + seq![','] + b;
        assert(x.drop_last() =~= a + seq![','] + b0);
        assert(x.last() == c);
        let fa = fields(a);
        let fb = fields(b0);
        if c == ',' {
            assert(fields(x) =~= fa + fb.push(Seq::<char>::empty()));
        } else {
            let g = fa + fb;
            assert(g.update(g.len() - 1, g.last().push(c)) =~= fa + fb.update(
                fb.len() - 1,
                fb.last().push(c),
            ));
        }
    }
}

/// Every comma separates items: the items of a text with a comma in it are the
/// items before the comma followed by the items after it.
pub proof fn lemma_list_items_split_at_comma(a: Seq<char>, b: Seq<char>)
    ensures
        list_items(a + seq![','] + b) == list_items(a) + list_items(b),
{
    lemma_fields_concat(a, b);
    Seq::filter_distributes_over_add(fields(a), fields(b), |x: Seq<char>| nonempty(x));
}

/// A text without a comma is a single item, unless it is empty, which gives none.
pub proof fn lemma_list_items_without_comma(s: Seq<char>)
    requires
        !s.contains(','),
    ensures
        list_items(s) == if s.len() > 0 { seq![s] } else { Seq::<Seq<char>>::empty() },
{
    lemma_fields_shape(s);
    lemma_fields_single(s);
    reveal_with_fuel(Seq::filter, 2);
    let f = fields(s);
    assert(f.drop_last() =~= Seq::<Seq<char>>::empty());
    if s.len() > 0 {
        assert(list_items(s) =~= seq![s]);
    } else {
        assert(list_items(s) =~= Seq::<Seq<char>>::empty());
    }
}

/// A text without a comma has one field, the text itself.
proof fn lemma_fields_single(s: Seq<char>)
    requires
        !s.contains(','),
    ensures
        fields(s) == seq![s],
    decreases s.len(),
{
    if s.len() > 0 {
        let t = s.drop_last();
        assert(!t.contains(',')) by {
            if t.contains(',') {
                let k = choose|k: int| 0 <= k < t.len() && t[k] == ',';
                assert(s[k] == ',');
            }
        }
        assert(s.last() != ',') by {
            assert(s[s.len() - 1] == s.last());
        }
        lemma_fields_single(t);
        assert(t.push(s.last()) =~= s);
        assert(fields(s) =~= seq![s]);
    } else {
        assert(s =~= Seq::<char>::empty());
        assert(fields(s) =~= seq![s]);
    }
}

/// Joining puts one comma between every two consecutive items: joining two
/// non-empty runs of items is joining each and putting a comma between them.
pub proof fn lemma_join_commas_concat(a: Seq<Seq<char>>, b: Seq<Seq<char>>)
    requires
        a.len() > 0,
        b.len() > 0,
    ensures
        join_commas(a + b) == join_commas(a) + seq![','] + join_commas(b),
    decreases b.len(),
{
    let ab = a + b;
    if b.len() == 1 {
        assert(ab.drop_last() =~= a);
        assert(ab.last() == b[0]);
    } else {
        let b0 = b.drop_last();
        lemma_join_commas_concat(a, b0);
        assert(ab.drop_last() =~= a + b0);
        assert(ab.last() == b.last());
        assert(join_commas(ab) =~= join_commas(a) + seq![','] + join_commas(b));
    }
}

/// Joining no item gives the empty text, and joining one item gives the item.
pub proof fn lemma_join_commas_small(x: Seq<char>)
    ensures
        join_commas(Seq::<Seq<char>>::empty()) == Seq::<char>::empty(),
        join_commas(seq![x]) == x,
{
}

/// The text of a joined list is as long as its items together, plus one comma
/// between each two of them.
pub proof fn lemma_join_commas_len(items: Seq<Seq<char>>)
    requires
        items.len() > 0,
    ensures
        join_commas(items).len() == items.map_values(|i: Seq<char>| i.len() as int).fold_left(
            0int,
            |acc: int, n: int| acc + n,
        ) + items.len() - 1,
    decreases items.len(),
{
    let lens = items.map_values(|i: Seq<char>| i.len() as int);
    if items.len() == 1 {
        reveal_with_fuel(Seq::fold_left, 2);
        assert(lens.drop_last() =~= Seq::<int>::empty());
    } else {
        let d = items.drop_last();
        lemma_join_commas_len(d);
        assert(lens.drop_last() =~= d.map_values(|i: Seq<char>| i.len() as int));
    }
}

/// Splits `s` on commas and keeps the non-empty fields, in order.
pub fn split_list(s: &str) -> (items: Vec<String>)
    ensures
        items@.map_values(|x: String| x@) == list_items(s@),
{
    let n = s.unicode_len();
    let mut items: Vec<String> = Vec::new();
    let mut start: usize = 0;
    let mut i: usize = 0;
    proof {
        assert(s@.take(0) =~= Seq::<char>::empty());
        assert(fields(s@.take(0)).drop_last() =~= Seq::<Seq<char>>::empty());
        reveal_with_fuel(Seq::filter, 1);
        assert(s@.subrange(0, 0) =~= Seq::<char>::empty());
        assert(items@.map_values(|x: String| x@) =~= Seq::<Seq<char>>::empty());
    }
    while i < n
        invariant
            n == s@.len(),
            0 <= start <= i <= n,
            fields(s@.take(i as int)).last() == s@.subrange(start as int, i as int),
            items@.map_values(|x: String| x@) == nonempty_fields(fields(s@.take(i as int)).drop_last()),
        decreases n - i,
    {
        let c = s.get_char(i);
        let ghost prev = s@.take(i as int);
        let ghost next = s@.take(i + 1);
        proof {
            assert(next.drop_last() =~= prev);
            assert(next.last() == c);
            lemma_fields_nonempty(prev);
        }
        if c == ',' {
            let ghost old_items = items@.map_values(|x: String| x@);
            if start < i {
                let piece = s.substring_char(start, i);
                items.push(String::from_str(piece));
                proof {
                    assert(items@.map_values(|x: String| x@) =~= old_items.push(piece@));
                }
            }
            proof {
                let f = fields(prev);
                assert(fields(next) == f.push(Seq::<char>::empty()));
                assert(fields(next).drop_last() =~= f);
                lemma_filter_last(f);
                assert(s@.subrange(i + 1, i + 1) =~= Seq::<char>::empty());
            }
            start = i + 1;
        } else {
            proof {
                let f = fields(prev);
                let g = f.update(f.len() - 1, f.last().push(c));
                assert(fields(next) == g);
                assert(g.drop_last() =~= f.drop_last());
                assert(s@.subrange(start as int, i + 1) =~= s@.subrange(start as int, i as int).push(c));
            }
        }
        i = i + 1;
    }
    proof {
        assert(s@.take(n as int) =~= s@);
        lemma_fields_nonempty(s@);
    }
    let ghost before = items@.map_values(|x: String| x@);
    if start < n {
        let piece = s.substring_char(start, n);
        items.push(String::from_str(piece));
        proof {
            assert(items@.map_values(|x: String| x@) =~= before.push(piece@));
        }
    }
    proof {
        lemma_filter_last(fields(s@));
    }
    items
}

/// Writes the items as an SQL list: each between single quotes, joined with commas.
pub fn join_quoted(items: &Vec<String>) -> (r: String)
    ensures
        r@ == join_commas(items@.map_values(|x: String| x@).map_values(|i: Seq<char>| quote(i))),
{
    proof {
        reveal_strlit("'");
        reveal_strlit(",");
    }
    let ghost q = items@.map_values(|x: String| x@).map_values(|i: Seq<char>| quote(i));
    let mut r = String::new();
    let n = items.len();
    proof {
        assert(q.take(0) =~= Seq::<Seq<char>>::empty());
    }
    for i in 0..n
        invariant
            n == items@.len(),
            q == items@.map_values(|x: String| x@).map_values(|i: Seq<char>| quote(i)),
            r@ == join_commas(q.take(i as int)),
    {
        let ghost before = r@;
        if i > 0 {
            r.append(",");
        }
        r.append("'");
        r.append(items[i].as_str());
        r.append("'");
        proof {
            reveal_strlit("'");
            reveal_strlit(",");
            let t = q.take(i + 1);
            assert(t.drop_last() =~= q.take(i as int));
            assert(t.last() == quote(items@[i as int]@));
            if i == 0 {
                assert(before =~= Seq::<char>::empty());
                assert(r@ =~= quote(items@[0]@));
            } else {
                assert(r@ =~= before + seq![','] + quote(items@[i as int]@));
            }
        }
    }
    proof {
        assert(q.take(n as int) =~= q);
    }
    r
}

/// Whether `item` is one of the items.
pub fn contains_item(items: &Vec<String>, item: &String) -> (b: bool)
    ensures
        b == items@.map_values(|x: String| x@).contains(item@),
{
    let n = items.len();
    for i in 0..n
        invariant
            n == items@.len(),
            forall|j: int| 0 <= j < i ==> items@[j]@ != item@,
    {
        if items[i] == *item {
            proof {
                assert(items@.map_values(|x: String| x@)[i as int] == item@);
            }
            return true;
        }
    }
    proof {
        let v = items@.map_values(|x: String| x@);
        if v.contains(item@) {
            let j = choose|j: int| 0 <= j < v.len() && v[j] == item@;
            assert(items@[j]@ == item@);
        }
    }
    false
}

} // verus!
