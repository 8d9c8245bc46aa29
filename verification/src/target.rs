use vstd::prelude::*;
use vstd::string::StringExecFns;

verus! {

/// An input that is either standard input or a real path.
pub enum Input {
    /// Standard input, represented by `-` on the command line.
    Stdin,
    /// A non-empty path.
    Path(String),
}

/// An output that is either standard output or a real path.
pub enum Output {
    /// Standard output, represented by `-` on the command line.
    Stdout,
    /// A non-empty path.
    Path(String),
}

impl Input {
    /// The argument handed to the compiler subprocess for this input:
    /// `-` for standard input, the path itself otherwise.
    pub open spec fn arg_view(&self) -> Seq<char> {
        match self {
            Input::Stdin => "-"@,
            Input::Path(p) => p@,
        }
    }
}

impl Output {
    /// The argument handed to the compiler subprocess for this output:
    /// `-` for standard output, the path itself otherwise.
    pub open spec fn arg_view(&self) -> Seq<char> {
        match self {
            Output::Stdout => "-"@,
            Output::Path(p) => p@,
        }
    }
}

/// Parses a raw command-line value into an [`Input`]: an empty value is
/// rejected, `-` means standard input, anything else is a path.
pub fn parse_input(arg: &String) -> (r: Option<Input>)
    ensures
        arg@.len() == 0 ==> r is None,
        arg@ == "-"@ ==> (r matches Some(i) && i is Stdin),
        arg@.len() > 0 && arg@ != "-"@ ==> (r matches Some(i) && i matches Input::Path(p) && p@
            == arg@),
        r is Some <==> arg@.len() > 0,
{
    proof {
        reveal_strlit("-");
    }
    let dash: String = String::from_str("-");
    if arg.as_str().is_empty() {
        None
    } else if arg.eq(&dash) {
        Some(Input::Stdin)
    } else {
        Some(Input::Path(arg.clone()))
    }
}

/// Parses a raw command-line value into an [`Output`]: an empty value is
/// rejected, `-` means standard output, anything else is a path.
pub fn parse_output(arg: &String) -> (r: Option<Output>)
    ensures
        arg@.len() == 0 ==> r is None,
        arg@ == "-"@ ==> (r matches Some(o) && o is Stdout),
        arg@.len() > 0 && arg@ != "-"@ ==> (r matches Some(o) && o matches Output::Path(p) && p@
            == arg@),
        r is Some <==> arg@.len() > 0,
{
    proof {
        reveal_strlit("-");
    }
    let dash: String = String::from_str("-");
    if arg.as_str().is_empty() {
        None
    } else if arg.eq(&dash) {
        Some(Output::Stdout)
    } else {
        Some(Output::Path(arg.clone()))
    }
}

} // verus!
