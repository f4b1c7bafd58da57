use vstd::prelude::*;

verus! {

/// The function that the sample library exports as `rust_fun_add_one`: its
/// argument plus one.
pub fn rust_fun_add_one(arg: i32) -> (r: i32)
    requires
        arg < i32::MAX,
    ensures
        r == arg + 1,
{
    arg + 1
}

} // verus!
