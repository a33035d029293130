use vstd::prelude::*;

verus! {

/// The message of an error with a context label put in front of it: the
/// label, one space, then the cause.
pub open spec fn prefixed(prefix: Seq<char>, cause: Seq<char>) -> Seq<char> {
    prefix + seq![' '] + cause
}

/// Puts a context label in front of an error message.
pub fn map_prefixed_err(prefix: &str, cause: &str) -> (r: String)
    ensures
        r@ == prefixed(prefix@, cause@),
{
    let mut r = String::from_str(prefix);
    r.append(" ");
    r.append(cause);
    proof { reveal_strlit(" "); }
    r
}

} // verus!
