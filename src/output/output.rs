use vstd::prelude::*;

verus! {

/// Relies on `str::to_lowercase`: the lowercase form of a string, which depends on
/// its characters alone.
pub uninterp spec fn lowercase_of(s: Seq<char>) -> Seq<char>;

/// Relies on `str::to_lowercase`, used to compare format names without regard to case.
#[verifier::external_body]
fn to_lowercase(s: &str) -> (r: String)
    ensures
        r@ == lowercase_of(s@),
{
    s.to_lowercase()
}

/// The image formats a render can be written to.
#[derive(Debug, Clone, Copy, PartialEq, Eq, Structural)]
pub enum OutputType {
    PNG,
}

/// The message that reports a format name that is not known.
pub open spec fn unknown_output_message(s: Seq<char>) -> Seq<char> {
    "Unknown output type: "@ + s
}

impl OutputType {
    /// Reads a format from its name, after folding the name to lower case.
    pub fn from_lowercase(lowered: &String, name: &str) -> (r: Result<OutputType, String>)
        ensures
            lowered@ == "png"@ ==> r == Ok::<OutputType, String>(OutputType::PNG),
            lowered@ != "png"@ ==> r is Err && r->Err_0@ == unknown_output_message(name@),
    {
        let png = String::from_str("png");
        if *lowered == png {
            Ok(OutputType::PNG)
        } else {
            let mut message = String::from_str("Unknown output type: ");
            message.append(name);
            Err(message)
        }
    }

    /// Reads a format from its name, in any case: `"png"` and `"PNG"` both give
    /// [`OutputType::PNG`]; any other name is an error that names it.
    pub fn parse(name: &str) -> (r: Result<OutputType, String>)
        ensures
            lowercase_of(name@) == "png"@ ==> r == Ok::<OutputType, String>(OutputType::PNG),
            lowercase_of(name@) != "png"@ ==> r is Err && r->Err_0@ == unknown_output_message(
                name@,
            ),
    {
        let lowered = to_lowercase(name);
        OutputType::from_lowercase(&lowered, name)
    }
}

impl std::str::FromStr for OutputType {
    type Err = String;

    fn from_str(s: &str) -> (r: Result<OutputType, String>)
        ensures
            lowercase_of(s@) == "png"@ ==> r == Ok::<OutputType, String>(OutputType::PNG),
            lowercase_of(s@) != "png"@ ==> r is Err && r->Err_0@ == unknown_output_message(s@),
    {
        OutputType::parse(s)
    }
}

} // verus!
