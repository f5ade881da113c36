use vstd::prelude::*;

verus! {

/// The console window the program may have been started from; hiding it is
/// a platform call, which the application makes.
pub struct Console;

} // verus!
