use vstd::prelude::*;

verus! {

/// A dog with a name.
pub struct Pug {
    pub name: String,
}

impl Pug {
    /// A pug called `Pug`.
    pub fn new() -> (r: Pug)
        ensures
            r.name@ == "Pug"@,
    {
        Pug { name: String::from_str("Pug") }
    }
}

} // verus!
