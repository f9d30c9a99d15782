//! Reading files and naming them for display.
use vstd::prelude::*;

verus! {

/// The final component of a path, as `std::path::Path::file_name` gives it,
/// or `None` where the path has none.
pub uninterp spec fn file_name_of(path: Seq<char>) -> Option<Seq<char>>;

/// Relies on `std::path::Path::file_name`: the final component of the path
/// (`None` for a path that ends in `..` or is a root). The component of a
/// `str` path is valid UTF-8, so `to_str` only converts it.
#[verifier::external_body]
pub(crate) fn file_name(path: &str) -> (r: Option<String>)
    ensures
        r matches Some(n) ==> file_name_of(path@) == Some(n@),
        r is None ==> file_name_of(path@) is None,
{
    std::path::Path::new(path).file_name().and_then(|n| n.to_str()).map(|n| n.to_string())
}

/// The text that stands for a missing optional name.
pub open spec fn name_or_spec(name: Option<Seq<char>>, fallback: Seq<char>) -> Seq<char> {
    match name {
        Some(n) => n,
        None => fallback,
    }
}

/// The name shown for a file whose path has no final component.
pub open spec fn untitled() -> Seq<char> {
    "Untitled"@
}

/// The display name of a path: its final component, or "Untitled".
pub open spec fn display_name(path: Seq<char>) -> Seq<char> {
    name_or_spec(file_name_of(path), untitled())
}

/// Takes a name, or the fallback where there is none.
pub fn name_or(name: Option<String>, fallback: &str) -> (r: String)
    ensures
        r@ == name_or_spec(
            match name {
                Some(n) => Some(n@),
                None => None,
            },
            fallback@,
        ),
{
    match name {
        Some(n) => n,
        None => String::from_str(fallback),
    }
}

/// The name under which a file is shown: the last segment of its path, or
/// "Untitled" where the path has none. Never fails.
pub fn get_filename(path: String) -> (r: String)
    ensures
        r@ == display_name(path@),
{
    name_or(file_name(path.as_str()), "Untitled")
}

/// The message of the error for a path that does not exist.
pub open spec fn not_found_message(path: Seq<char>) -> Seq<char> {
    "File not found: "@ + path
}

/// The message of the error for a file that could not be read, from the
/// cause that the read reported.
pub open spec fn read_failure_message(cause: Seq<char>) -> Seq<char> {
    "Failed to read file: "@ + cause
}

/// The first step of reading a file: a path that does not exist is refused
/// with a not-found error before any read is tried.
pub fn check_exists(path: &String, exists: bool) -> (r: Result<(), String>)
    ensures
        r is Ok <==> exists,
        r matches Err(m) ==> m@ == not_found_message(path@),
{
    if exists {
        Ok(())
    } else {
        let mut m = String::from_str("File not found: ");
        m.append(path.as_str());
        Err(m)
    }
}

/// The second step of reading a file: the text that was read is returned as
/// it is, and a failed read becomes a read-failure error carrying its cause.
pub fn read_result(read: Result<String, String>) -> (r: Result<String, String>)
    ensures
        read matches Ok(t) ==> r == Ok::<String, String>(t),
        read matches Err(e) ==> (r matches Err(m) && m@ == read_failure_message(e@)),
{
    match read {
        Ok(t) => Ok(t),
        Err(e) => {
            let mut m = String::from_str("Failed to read file: ");
            m.append(e.as_str());
            Err(m)
        },
    }
}

} // verus!
