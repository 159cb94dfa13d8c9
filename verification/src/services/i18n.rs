use vstd::prelude::*;

verus! {

/// The people who translated the application.
pub fn translators_list() -> (r: Vec<&'static str>)
    ensures
        r@.len() == 1,
        r@[0]@ == "Andrea Coronese (English, Italian)"@,
{
    let mut v: Vec<&'static str> = Vec::new();
    v.push("Andrea Coronese (English, Italian)");
    v
}

} // verus!
