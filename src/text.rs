use vstd::prelude::*;

verus! {

broadcast use vstd::string::group_string_axioms;

/// Whether `s` holds exactly the text `lit`.
pub(crate) fn text_is(s: &String, lit: &str) -> (r: bool)
    ensures
        r == (s@ == lit@),
{
    let l = lit.to_string();
    *s == l
}

} // verus!
