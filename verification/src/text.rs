use vstd::prelude::*;
use vstd::string::*;

verus! {

/// The contents of each string of a list, in order.
pub open spec fn texts(items: Seq<String>) -> Seq<Seq<char>> {
    items.map_values(|s: String| s@)
}

/// The parts in order, with `sep` between neighbours: nothing for no parts,
/// no separator for one.
pub open spec fn joined(parts: Seq<Seq<char>>, sep: Seq<char>) -> Seq<char>
    decreases parts.len(),
{
    if parts.len() == 0 {
        Seq::empty()
    } else if parts.len() == 1 {
        parts[0]
    } else {
        joined(parts.drop_last(), sep) + sep + parts.last()
    }
}

/// Joining two non-empty lists one after the other is joining each and
/// putting one separator between the results: order is kept and nothing is
/// added or lost.
pub proof fn lemma_joined_concat(a: Seq<Seq<char>>, b: Seq<Seq<char>>, sep: Seq<char>)
    requires
        a.len() > 0,
        b.len() > 0,
    ensures
        joined(a + b, sep) == joined(a, sep) + sep + joined(b, sep),
    decreases b.len(),
{
    assert((a + b).drop_last() =~= a + b.drop_last());
    assert((a + b).last() == b.last());
    if b.len() == 1 {
        assert(a + b.drop_last() =~= a);
        assert(joined(a + b, sep) =~= joined(a, sep) + sep + joined(b, sep));
    } else {
        lemma_joined_concat(a, b.drop_last(), sep);
        assert(joined(a + b, sep) =~= joined(a, sep) + sep + joined(b, sep));
    }
}

/// The lengths of all parts together.
pub open spec fn total_len(parts: Seq<Seq<char>>) -> nat
    decreases parts.len(),
{
    if parts.len() == 0 {
        0
    } else {
        total_len(parts.drop_last()) + parts.last().len()
    }
}

/// The length of a joined text.
pub proof fn lemma_joined_len(parts: Seq<Seq<char>>, sep: Seq<char>)
    requires
        parts.len() > 0,
    ensures
        joined(parts, sep).len() == total_len(parts) + (parts.len() - 1) * sep.len(),
    decreases parts.len(),
{
    if parts.len() == 1 {
        assert(parts.drop_last().len() == 0);
        assert(total_len(parts.drop_last()) == 0);
    } else {
        lemma_joined_len(parts.drop_last(), sep);
        assert((parts.len() - 1) * sep.len() == (parts.len() - 2) * sep.len() + sep.len())
            by (nonlinear_arith);
    }
}

/// Where the part with index `k` starts in the joined text: behind the parts
/// before it and one separator for each of them.
pub open spec fn part_offset(parts: Seq<Seq<char>>, sep: Seq<char>, k: int) -> int {
    total_len(parts.take(k)) + k * sep.len()
}

/// Every part stands in the joined text unchanged, at the place its index
/// gives it: the parts come out in the order they went in.
pub proof fn lemma_joined_part_at(parts: Seq<Seq<char>>, sep: Seq<char>, k: int)
    requires
        0 <= k < parts.len(),
    ensures
        0 <= part_offset(parts, sep, k),
        part_offset(parts, sep, k) + parts[k].len() <= joined(parts, sep).len(),
        joined(parts, sep).subrange(
            part_offset(parts, sep, k),
            part_offset(parts, sep, k) + parts[k].len(),
        ) == parts[k],
    decreases parts.len(),
{
    let n: int = parts.len() as int;
    let m: int = sep.len() as int;
    let front = parts.drop_last();
    let at = part_offset(parts, sep, k);
    let whole = joined(parts, sep);
    assert(k * m >= 0) by (nonlinear_arith)
        requires
            k >= 0,
            m >= 0,
    ;
    if n == 1 {
        assert(parts.take(0).len() == 0);
        assert(total_len(parts.take(0)) == 0);
        assert(at == 0) by (nonlinear_arith)
            requires
                at == 0 + k * m,
                k == 0,
        ;
        assert(whole.subrange(0, parts[0].len() as int) =~= parts[0]);
    } else if k == n - 1 {
        lemma_joined_len(front, sep);
        assert(parts.take(k) =~= front);
        assert((n - 1) * m == (n - 2) * m + m) by (nonlinear_arith);
        assert(at == joined(front, sep).len() + m);
        assert(whole.subrange(at, at + parts[k].len()) =~= parts[k]);
    } else {
        lemma_joined_part_at(front, sep, k);
        assert(front.take(k) =~= parts.take(k));
        assert(front[k] == parts[k]);
        assert(whole.subrange(at, at + parts[k].len()) =~= joined(front, sep).subrange(
            at,
            at + parts[k].len(),
        ));
    }
}

/// Joins the strings with `sep` between them, in their order.
pub fn join(parts: &Vec<String>, sep: &str) -> (r: String)
    ensures
        r@ == joined(texts(parts@), sep@),
{
    let mut out = String::new();
    let mut i: usize = 0;
    while i < parts.len()
        invariant
            i <= parts.len(),
            out@ == joined(texts(parts@).take(i as int), sep@),
        decreases parts.len() - i,
    {
        proof {
            let all = texts(parts@);
            assert(all.take(i + 1).drop_last() =~= all.take(i as int));
            assert(all.take(i + 1).last() == parts@[i as int]@);
        }
        if i > 0 {
            out.append(sep);
        }
        out.append(parts[i].as_str());
        proof {
            if i == 0 {
                assert(out@ =~= parts@[0]@);
            }
        }
        i = i + 1;
    }
    proof {
        assert(texts(parts@).take(i as int) =~= texts(parts@));
    }
    out
}

/// The decimal digit for a value below ten.
pub open spec fn digit(d: nat) -> char
    recommends
        d < 10,
{
    seq!['0', '1', '2', '3', '4', '5', '6', '7', '8', '9'][d as int]
}

/// A number in decimal: most significant digit first, no sign, no leading
/// zero, `0` for zero.
pub open spec fn decimal_text(n: nat) -> Seq<char>
    decreases n,
{
    if n < 10 {
        seq![digit(n)]
    } else {
        decimal_text(n / 10).push(digit(n % 10))
    }
}

/// Calls `ToString::to_string` of `u32`, which std documents to write the
/// number in decimal without sign or padding.
#[verifier::external_body]
pub(crate) fn decimal(n: u32) -> (r: String)
    ensures
        r@ == decimal_text(n as nat),
{
    n.to_string()
}

/// How a flag is written on the wire.
pub open spec fn bool_text(b: bool) -> Seq<char> {
    if b {
        "true"@
    } else {
        "false"@
    }
}

pub fn bool_token(b: bool) -> (r: String)
    ensures
        r@ == bool_text(b),
{
    if b {
        String::from_str("true")
    } else {
        String::from_str("false")
    }
}

} // verus!
