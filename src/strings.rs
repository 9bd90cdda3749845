use vstd::prelude::*;

verus! {

/// Appends the word `hello` to `s`.
pub fn some_fn(s: &mut String)
    ensures
        final(s)@ == old(s)@ + "hello"@,
{
    s.append("hello");
}

} // verus!
