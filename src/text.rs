//! Small verified operations on text.
use vstd::prelude::*;
use vstd::string::*;

use crate::code::{fold, fold_step, join, Fold};

verus! {

/// The character sequences of a list of strings.
pub open spec fn views(v: Seq<String>) -> Seq<Seq<char>> {
    v.map_values(|s: String| s@)
}

/// Whether two texts hold the same characters.
pub fn text_is(s: &str, lit: &str) -> (r: bool)
    ensures
        r == (s@ == lit@),
{
    let n = s.unicode_len();
    let m = lit.unicode_len();
    if n != m {
        return false;
    }
    let mut i: usize = 0;
    while i < n
        invariant
            n == s@.len(),
            m == lit@.len(),
            n == m,
            i <= n,
            forall|j: int| 0 <= j < i ==> s@[j] == lit@[j],
        decreases n - i,
    {
        if s.get_char(i) != lit.get_char(i) {
            return false;
        }
        i = i + 1;
    }
    assert(s@ =~= lit@);
    true
}

/// The texts of `cs` from index `lo` on, with `sep` between each two.
pub fn join_text(cs: &Vec<String>, lo: usize, sep: &str) -> (r: String)
    requires
        lo <= cs.len(),
    ensures
        r@ == join(views(cs@).subrange(lo as int, cs.len() as int), sep@),
{
    let ghost all = views(cs@);
    let mut r = String::new();
    let mut i: usize = lo;
    while i < cs.len()
        invariant
            lo <= i <= cs.len(),
            all == views(cs@),
            r@ == join(all.subrange(lo as int, i as int), sep@),
        decreases cs.len() - i,
    {
        let ghost before = all.subrange(lo as int, i as int);
        let ghost after = all.subrange(lo as int, i + 1 as int);
        assert(after.drop_last() =~= before);
        if i > lo {
            r.append(sep);
        }
        r.append(cs[i].as_str());
        proof {
            if i == lo {
                assert(r@ =~= join(after, sep@));
            }
        }
        i = i + 1;
    }
    r
}

/// One step of a left fold.
pub fn step_text(f: Fold, acc: String, c: &str) -> (r: String)
    ensures
        r@ == fold_step(f, acc@, c@),
{
    let mut r = String::new();
    match f {
        Fold::Sum | Fold::Difference | Fold::Product | Fold::Quotient => {
            r.append(acc.as_str());
            match f {
                Fold::Sum => r.append(" + ("),
                Fold::Difference => r.append(" - ("),
                Fold::Product => r.append(" * ("),
                _ => r.append(" / ("),
            }
            r.append(c);
            r.append(")");
        },
        Fold::Conjunction | Fold::Disjunction => {
            r.append("(");
            r.append(acc.as_str());
            match f {
                Fold::Conjunction => r.append(") && ("),
                _ => r.append(") || ("),
            }
            r.append(c);
            r.append(")");
        },
        Fold::Minimum | Fold::Maximum => {
            match f {
                Fold::Minimum => r.append("std::cmp::min("),
                _ => r.append("std::cmp::max("),
            }
            r.append(acc.as_str());
            r.append(", ");
            r.append(c);
            r.append(")");
        },
    }
    assert(r@ =~= fold_step(f, acc@, c@));
    r
}

/// `init` folded with the texts of `cs` from index `lo` on.
pub fn fold_text(f: Fold, init: String, cs: &Vec<String>, lo: usize) -> (r: String)
    requires
        lo <= cs.len(),
    ensures
        r@ == fold(f, init@, views(cs@).subrange(lo as int, cs.len() as int)),
{
    let ghost all = views(cs@);
    let ghost start = init@;
    let mut r = init;
    let mut i: usize = lo;
    while i < cs.len()
        invariant
            lo <= i <= cs.len(),
            all == views(cs@),
            r@ == fold(f, start, all.subrange(lo as int, i as int)),
        decreases cs.len() - i,
    {
        let ghost after = all.subrange(lo as int, i + 1 as int);
        assert(after.drop_last() =~= all.subrange(lo as int, i as int));
        r = step_text(f, r, cs[i].as_str());
        i = i + 1;
    }
    r
}

} // verus!
