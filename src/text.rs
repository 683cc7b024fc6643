//! Joining pieces of source text.

use vstd::prelude::*;

verus! {

/// The pieces written one after another, with `sep` between each two.
pub open spec fn join(parts: Seq<Seq<char>>, sep: Seq<char>) -> Seq<char>
    decreases parts.len(),
{
    if parts.len() == 0 {
        Seq::empty()
    } else if parts.len() == 1 {
        parts[0]
    } else {
        join(parts.drop_last(), sep) + sep + parts.last()
    }
}

/// The text held by each string of `v`.
pub open spec fn strings_view(v: Seq<String>) -> Seq<Seq<char>> {
    v.map_values(|s: String| s@)
}

/// Writes the strings of `parts` one after another, separated by `sep`.
pub fn join_strings(parts: &Vec<String>, sep: &str) -> (r: String)
    ensures
        r@ == join(strings_view(parts@), sep@),
{
    let mut out = String::new();
    let mut i: usize = 0;
    while i < parts.len()
        invariant
            i <= parts.len(),
            out@ == join(strings_view(parts@.take(i as int)), sep@),
        decreases parts.len() - i,
    {
        let ghost before = strings_view(parts@.take(i as int));
        let ghost after = strings_view(parts@.take(i + 1));
        assert(after.drop_last() =~= before);
        assert(after.last() == parts@[i as int]@);
        if i > 0 {
            out.append(sep);
        }
        out.append(parts[i].as_str());
        assert(before.len() == 0 ==> out@ =~= after[0]);
        i = i + 1;
    }
    assert(parts@.take(parts.len() as int) =~= parts@);
    out
}

} // verus!
