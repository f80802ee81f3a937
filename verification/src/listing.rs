//! Laying out a listing of names and locations in two columns.
use vstd::prelude::*;
use vstd::string::*;

verus! {

/// One line of a listing: a name, the gap that aligns the arrow behind it,
/// and the location.
#[derive(Debug, Clone, PartialEq)]
pub struct Row {
    pub name: String,
    pub gap: String,
    pub location: String,
}

/// The length, in characters, of the longest name in `hops`.
pub open spec fn spec_widest(hops: Seq<(String, String)>) -> nat
    decreases hops.len(),
{
    if hops.len() == 0 {
        0
    } else {
        let rest = spec_widest(hops.drop_last());
        if hops.last().0@.len() > rest {
            hops.last().0@.len()
        } else {
            rest
        }
    }
}

/// `n` spaces.
pub open spec fn spec_spaces(n: nat) -> Seq<char> {
    Seq::new(n, |i: int| ' ')
}

/// The gap behind a name of `len` characters in a listing whose longest name
/// has `widest`: what the name lacks, and one space more.
pub open spec fn spec_gap(widest: nat, len: nat) -> Seq<char> {
    spec_spaces((widest - len + 1) as nat)
}

/// No name of `hops` is longer than the longest.
pub proof fn widest_bounds_each(hops: Seq<(String, String)>, i: int)
    requires
        0 <= i < hops.len(),
    ensures
        hops[i].0@.len() <= spec_widest(hops),
    decreases hops.len(),
{
    if i < hops.len() - 1 {
        widest_bounds_each(hops.drop_last(), i);
    }
}

/// The length of the longest name in `hops`.
pub fn widest(hops: &Vec<(String, String)>) -> (r: usize)
    ensures
        r == spec_widest(hops@),
{
    let mut best: usize = 0;
    let mut i: usize = 0;
    while i < hops.len()
        invariant
            i <= hops@.len(),
            best == spec_widest(hops@.subrange(0, i as int)),
        decreases hops@.len() - i,
    {
        let len = hops[i].0.as_str().unicode_len();
        assert(hops@.subrange(0, i + 1).drop_last() =~= hops@.subrange(0, i as int));
        if len > best {
            best = len;
        }
        i += 1;
    }
    assert(hops@.subrange(0, hops@.len() as int) =~= hops@);
    best
}

fn gap(widest: usize, len: usize) -> (r: String)
    requires
        len <= widest,
    ensures
        r@ == spec_gap(widest as nat, len as nat),
{
    let mut r = " ".to_owned();
    let mut k: usize = 0;
    proof {
        reveal_strlit(" ");
    }
    while k < widest - len
        invariant
            len <= widest,
            k <= widest - len,
            r@ == spec_spaces((k + 1) as nat),
        decreases widest - len - k,
    {
        r.append(" ");
        k += 1;
        proof {
            reveal_strlit(" ");
        }
    }
    r
}

/// The lines of a listing of `hops`, pairs of name and location, in their
/// order: every arrow stands one space behind the longest name.
pub fn format_map(hops: &Vec<(String, String)>) -> (rows: Vec<Row>)
    ensures
        rows@.len() == hops@.len(),
        forall|i: int|
            0 <= i < rows@.len() ==> (#[trigger] rows@[i]).name@ == hops@[i].0@ && rows@[i].location@
                == hops@[i].1@ && rows@[i].gap@ == spec_gap(
                spec_widest(hops@),
                hops@[i].0@.len(),
            ),
{
    let max_name_size = widest(hops);
    let mut rows: Vec<Row> = Vec::new();
    let mut i: usize = 0;
    while i < hops.len()
        invariant
            i <= hops@.len(),
            max_name_size == spec_widest(hops@),
            rows@.len() == i,
            forall|k: int|
                0 <= k < i ==> (#[trigger] rows@[k]).name@ == hops@[k].0@ && rows@[k].location@
                    == hops@[k].1@ && rows@[k].gap@ == spec_gap(
                    spec_widest(hops@),
                    hops@[k].0@.len(),
                ),
        decreases hops@.len() - i,
    {
        proof {
            widest_bounds_each(hops@, i as int);
        }
        let name = hops[i].0.clone();
        let location = hops[i].1.clone();
        let len = name.as_str().unicode_len();
        rows.push(Row { gap: gap(max_name_size, len), name, location });
        i += 1;
    }
    rows
}

} // verus!
