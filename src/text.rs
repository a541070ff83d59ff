//! Joining source fragments into program text.
use vstd::prelude::*;

verus! {

/// The characters of each string, in order.
pub open spec fn texts(v: Seq<String>) -> Seq<Seq<char>> {
    v.map_values(|s: String| s@)
}

/// `parts` laid end to end with `sep` between each two neighbours.
pub open spec fn joined(parts: Seq<Seq<char>>, sep: Seq<char>) -> Seq<char>
    decreases parts.len(),
{
    if parts.len() == 0 {
        Seq::empty()
    } else if parts.len() == 1 {
        parts[0]
    } else {
        joined(parts.drop_last(), sep) + sep + parts.last()
    }
}

/// Where `parts[i]` starts in `joined(parts, sep)`: the length of every part
/// before it, each with the separator that follows it.
pub open spec fn offset(parts: Seq<Seq<char>>, sep: Seq<char>, i: int) -> int
    decreases i,
{
    if i <= 0 {
        0
    } else {
        offset(parts, sep, i - 1) + parts[i - 1].len() + sep.len()
    }
}

/// Offsets grow with the index.
pub proof fn lemma_offset_grows(parts: Seq<Seq<char>>, sep: Seq<char>, a: int, b: int)
    requires
        0 <= a <= b,
    ensures
        offset(parts, sep, a) <= offset(parts, sep, b),
    decreases b,
{
    if a < b {
        lemma_offset_grows(parts, sep, a, b - 1);
    }
}

/// Offsets up to `i` do not look past the first `i` parts.
proof fn lemma_offset_prefix(parts: Seq<Seq<char>>, sep: Seq<char>, i: int)
    requires
        0 <= i < parts.len(),
    ensures
        offset(parts, sep, i) == offset(parts.drop_last(), sep, i),
    decreases i,
{
    if i > 0 {
        lemma_offset_prefix(parts, sep, i - 1);
    }
}

/// A non-empty join is as long as the offset past its last part, less one
/// separator.
proof fn lemma_joined_len(parts: Seq<Seq<char>>, sep: Seq<char>)
    requires
        parts.len() > 0,
    ensures
        joined(parts, sep).len() + sep.len() == offset(parts, sep, parts.len() as int),
    decreases parts.len(),
{
    let n = parts.len() as int;
    assert(offset(parts, sep, n) == offset(parts, sep, n - 1) + parts[n - 1].len() + sep.len());
    if n > 1 {
        let d = parts.drop_last();
        lemma_joined_len(d, sep);
        lemma_offset_prefix(parts, sep, n - 1);
        assert(joined(parts, sep) == joined(d, sep) + sep + parts.last());
    } else {
        assert(offset(parts, sep, 0) == 0);
    }
}

/// Each part stands in the join at its offset.
pub proof fn lemma_part_at(parts: Seq<Seq<char>>, sep: Seq<char>, i: int)
    requires
        0 <= i < parts.len(),
    ensures
        offset(parts, sep, i) + parts[i].len() <= joined(parts, sep).len(),
        joined(parts, sep).subrange(offset(parts, sep, i), offset(parts, sep, i) + parts[i].len())
            == parts[i],
    decreases parts.len(),
{
    let j = joined(parts, sep);
    if parts.len() == 1 {
        assert(j.subrange(0, parts[0].len() as int) =~= parts[0]);
    } else {
        let d = parts.drop_last();
        assert(j == joined(d, sep) + sep + parts.last());
        lemma_joined_len(d, sep);
        lemma_offset_prefix(parts, sep, i);
        lemma_offset_prefix(parts, sep, parts.len() - 1);
        if i == parts.len() - 1 {
            assert(j.subrange(offset(parts, sep, i), offset(parts, sep, i) + parts[i].len()) =~= parts[i]);
        } else {
            lemma_part_at(d, sep, i);
            assert(d[i] == parts[i]);
            let o = offset(parts, sep, i);
            assert(o == offset(d, sep, i));
            assert(o + d[i].len() <= joined(d, sep).len());
            assert(0 <= o) by {
                lemma_offset_grows(parts, sep, 0, i);
            }
            assert(j.subrange(o, o + parts[i].len()) =~= joined(d, sep).subrange(o, o + parts[i].len()));
        }
    }
}

/// Joins the strings of `parts`, putting `sep` between each two neighbours.
pub fn join(parts: &Vec<String>, sep: &str) -> (r: String)
    ensures
        r@ == joined(texts(parts@), sep@),
{
    let ghost t = texts(parts@);
    let mut out = String::new();
    let mut i: usize = 0;
    while i < parts.len()
        invariant
            i <= parts.len(),
            t == texts(parts@),
            out@ == joined(t.take(i as int), sep@),
        decreases parts.len() - i,
    {
        proof {
            assert(t.take(i as int + 1).drop_last() =~= t.take(i as int));
        }
        if i > 0 {
            out.append(sep);
        } else {
            assert(out@ =~= Seq::<char>::empty());
        }
        out.append(parts[i].as_str());
        proof {
            if i == 0 {
                assert(out@ =~= t[0]);
            }
        }
        i = i + 1;
    }
    assert(t.take(parts.len() as int) =~= t);
    out
}

/// The strings of `v`, last first.
pub fn reversed(v: &Vec<String>) -> (r: Vec<String>)
    ensures
        texts(r@) == texts(v@).reverse(),
{
    let n = v.len();
    let mut r: Vec<String> = Vec::new();
    let mut k: usize = 0;
    while k < n
        invariant
            n == v.len(),
            k <= n,
            r@.len() == k,
            forall|j: int| 0 <= j < k ==> #[trigger] r@[j]@ == v@[n - 1 - j]@,
        decreases n - k,
    {
        r.push(v[n - 1 - k].clone());
        k = k + 1;
    }
    assert(texts(r@) =~= texts(v@).reverse());
    r
}

/// Joining `a` and then `b` behind it is joining each and putting `sep` between.
pub proof fn lemma_joined_append(a: Seq<Seq<char>>, b: Seq<Seq<char>>, sep: Seq<char>)
    requires
        a.len() > 0,
        b.len() > 0,
    ensures
        joined(a + b, sep) == joined(a, sep) + sep + joined(b, sep),
    decreases b.len(),
{
    if b.len() == 1 {
        assert((a + b).drop_last() =~= a);
    } else {
        lemma_joined_append(a, b.drop_last(), sep);
        assert((a + b).drop_last() =~= a + b.drop_last());
        assert(joined(a, sep) + sep + (joined(b.drop_last(), sep) + sep + b.last())
            =~= joined(a, sep) + sep + joined(b.drop_last(), sep) + sep + b.last());
    }
}

/// Teardown order is last in, first out: a fragment registered after all of
/// `earlier` runs before every one of them, when the fragments are run in
/// reverse order of registration.
pub proof fn lemma_last_registered_runs_first(earlier: Seq<Seq<char>>, last: Seq<char>, sep: Seq<char>)
    requires
        earlier.len() > 0,
    ensures
        joined(earlier.push(last).reverse(), sep) == last + sep + joined(earlier.reverse(), sep),
{
    assert(earlier.push(last).reverse() =~= seq![last] + earlier.reverse());
    lemma_joined_append(seq![last], earlier.reverse(), sep);
}

} // verus!
