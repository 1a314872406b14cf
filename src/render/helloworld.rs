use vstd::prelude::*;

verus! {

/// A renderer that ignores the scene and paints a fixed colour gradient over the
/// image, to exercise the output path end to end.
#[derive(Clone, Copy, Debug, PartialEq, Eq, Structural)]
pub struct HelloWorld {}

impl HelloWorld {
    pub fn new() -> (r: HelloWorld)
        ensures
            r == (HelloWorld {}),
    {
        HelloWorld {}
    }
}

} // verus!
