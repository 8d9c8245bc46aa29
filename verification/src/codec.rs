use vstd::prelude::*;
use vstd::string::StringExecFns;

use crate::opt_text;
use crate::target::Input;

verus! {

/// The character for one decimal digit value.
pub open spec fn dec_digit(d: nat) -> char {
    if d == 0 {
        '0'
    } else if d == 1 {
        '1'
    } else if d == 2 {
        '2'
    } else if d == 3 {
        '3'
    } else if d == 4 {
        '4'
    } else if d == 5 {
        '5'
    } else if d == 6 {
        '6'
    } else if d == 7 {
        '7'
    } else if d == 8 {
        '8'
    } else {
        '9'
    }
}

/// The decimal representation of a number, most significant digit first,
/// without leading zeroes (a single `0` for zero).
pub open spec fn dec_seq(n: nat) -> Seq<char>
    decreases n,
{
    if n < 10 {
        seq![dec_digit(n)]
    } else {
        dec_seq(n / 10).push(dec_digit(n % 10))
    }
}

/// One decimal digit value as a string slice.
fn digit_str(d: u64) -> (r: &'static str)
    requires
        d < 10,
    ensures
        r@ == seq![dec_digit(d as nat)],
{
    proof {
        reveal_strlit("0");
        reveal_strlit("1");
        reveal_strlit("2");
        reveal_strlit("3");
        reveal_strlit("4");
        reveal_strlit("5");
        reveal_strlit("6");
        reveal_strlit("7");
        reveal_strlit("8");
        reveal_strlit("9");
    }
    if d == 0 {
        "0"
    } else if d == 1 {
        "1"
    } else if d == 2 {
        "2"
    } else if d == 3 {
        "3"
    } else if d == 4 {
        "4"
    } else if d == 5 {
        "5"
    } else if d == 6 {
        "6"
    } else if d == 7 {
        "7"
    } else if d == 8 {
        "8"
    } else {
        "9"
    }
}

/// Formats a number in decimal.
pub fn u64_to_dec(n: u64) -> (r: String)
    ensures
        r@ == dec_seq(n as nat),
    decreases n,
{
    if n < 10 {
        String::from_str(digit_str(n))
    } else {
        let mut s = u64_to_dec(n / 10);
        s.append(digit_str(n % 10));
        proof {
            assert(dec_seq(n as nat) =~= dec_seq(n as nat / 10) + seq![
                dec_digit(n as nat % 10),
            ]);
        }
        s
    }
}

/// The side-channel file name for a run stamped with the given milliseconds:
/// a fixed prefix, the timestamp in decimal, and the data-file extension.
pub open spec fn filename_view(millis: nat) -> Seq<char> {
    "__lirstings-data-"@ + dec_seq(millis) + ".json"@
}

/// Generates the side-channel file name for a run stamped with the given
/// milliseconds-since-epoch value, unique across runs that do not share a
/// millisecond.
pub fn side_channel_filename(millis: u64) -> (r: String)
    ensures
        r@ == filename_view(millis as nat),
{
    let mut s = String::from_str("__lirstings-data-");
    let digits = u64_to_dec(millis);
    s.append(digits.as_str());
    s.append(".json");
    s
}

/// What `std::path::Path::parent` returns for a path, as text: the path
/// without its final component, or nothing for a root or empty path.
pub uninterp spec fn parent_of(p: Seq<char>) -> Option<Seq<char>>;

/// Relies on `std::path::Path::parent`: it returns the path without its final
/// component, and `None` only for a path that terminates in a root or prefix
/// or is empty; the result is determined by the path alone. `None` is also
/// returned here for the rare path whose parent is not valid UTF-8 encoded
/// text, which a `String` argument cannot produce.
#[verifier::external_body]
fn parent_dir(path: &str) -> (r: Option<String>)
    ensures
        (r matches Some(d) ==> parent_of(path@) == Some(d@)),
        (r is None ==> parent_of(path@) is None),
{
    std::path::Path::new(path).parent().and_then(|p| p.to_str()).map(|p| p.to_owned())
}

/// Joining a file name onto a directory: empty text stands for the current
/// directory and adds no separator.
pub open spec fn join_view(dir: Seq<char>, file: Seq<char>) -> Seq<char> {
    if dir.len() == 0 {
        file
    } else {
        dir + "/"@ + file
    }
}

/// Where the side-channel file for a run is placed: in the project root if one
/// is configured, else beside the input file, else (for a streamed input or a
/// bare file name) in the current directory.
pub open spec fn side_channel_path_view(
    root: Option<Seq<char>>,
    input: Input,
    file: Seq<char>,
) -> Seq<char> {
    match root {
        Some(r) => join_view(r, file),
        None => match input {
            Input::Stdin => file,
            Input::Path(p) => match parent_of(p@) {
                Some(d) => join_view(d, file),
                None => file,
            },
        },
    }
}

/// Joins a file name onto a directory with a `/` separator; an empty
/// directory stands for the current directory and adds no separator.
pub fn dir_join(dir: &String, file: &str) -> (r: String)
    ensures
        r@ == join_view(dir@, file@),
{
    if dir.as_str().is_empty() {
        String::from_str(file)
    } else {
        let mut s = dir.clone();
        s.append("/");
        s.append(file);
        proof {
            assert(s@ =~= dir@ + "/"@ + file@);
        }
        s
    }
}

/// Resolves the full path of the side-channel file for one run.
pub fn side_channel_path(root: &Option<String>, input: &Input, file: &str) -> (r: String)
    ensures
        r@ == side_channel_path_view(opt_text(*root), *input, file@),
{
    match root {
        Some(dir) => dir_join(dir, file),
        None => match input {
            Input::Stdin => String::from_str(file),
            Input::Path(p) => match parent_dir(p.as_str()) {
                Some(dir) => dir_join(&dir, file),
                None => String::from_str(file),
            },
        },
    }
}

} // verus!
