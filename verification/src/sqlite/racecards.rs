//! The text of statements with many parameters.

use vstd::prelude::*;
use vstd::string::StringExecFns;

verus! {

/// `count` question marks, with a comma and a blank between one and the
/// next.
pub open spec fn placeholder_list(count: nat) -> Seq<char>
    decreases count,
{
    if count == 0 {
        Seq::empty()
    } else if count == 1 {
        "?"@
    } else {
        placeholder_list((count - 1) as nat) + ", ?"@
    }
}

/// Writes the parameter list of a statement with `count` parameters.
pub fn placeholders(count: usize) -> (r: String)
    ensures
        r@ == placeholder_list(count as nat),
{
    let mut out = String::new();
    let mut i: usize = 0;
    while i < count
        invariant
            i <= count,
            out@ == placeholder_list(i as nat),
        decreases count - i,
    {
        if i == 0 {
            out.append("?");
            assert(out@ =~= "?"@);
        } else {
            out.append(", ?");
        }
        i += 1;
    }
    out
}

} // verus!
