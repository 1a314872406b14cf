pub mod helloworld;
pub mod pathtracer;
pub mod renderer;

use vstd::prelude::*;

verus! {

/// The rendering algorithms of the library.
#[derive(Clone, Copy, Debug, PartialEq, Eq, Structural)]
pub enum Algorithm {
    HelloWorld,
    PathTracer,
}

impl Algorithm {
    /// The name an algorithm is shown by.
    pub open spec fn spec_name(self) -> Seq<char> {
        match self {
            Algorithm::HelloWorld => "HelloWorld"@,
            Algorithm::PathTracer => "PathTracer"@,
        }
    }

    /// The name of the algorithm, as its variant is written.
    pub fn to_string(&self) -> (r: String)
        ensures
            r@ == self.spec_name(),
    {
        match self {
            Algorithm::HelloWorld => String::from_str("HelloWorld"),
            Algorithm::PathTracer => String::from_str("PathTracer"),
        }
    }
}

impl Default for Algorithm {
    fn default() -> (r: Algorithm)
        ensures
            r == Algorithm::HelloWorld,
    {
        Algorithm::HelloWorld
    }
}

} // verus!
