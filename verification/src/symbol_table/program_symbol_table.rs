use vstd::prelude::*;

verus! {

/// A value without content: all values of the type are the same.
#[allow(non_camel_case_types)]
#[derive(Debug, PartialEq, Eq, Structural)]
pub struct hello();

impl hello {
    /// The one value of the type.
    pub fn hello() -> (r: Self)
        ensures
            r == hello(),
    {
        hello {  }
    }
}

} // verus!
