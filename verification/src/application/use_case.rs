use vstd::prelude::*;

verus! {

/// An operation of the application: it takes an input and gives an output or an error.
pub trait UseCase<Input, Output> {
    type Error;

    fn execute(&mut self, input: Input) -> Result<Output, Self::Error>;
}

} // verus!
