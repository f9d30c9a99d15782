//! Choosing, from the program's arguments, the markdown files to open at
//! start-up.
use vstd::prelude::*;

verus! {

/// The extension of a path, as `std::path::Path::extension` gives it.
pub uninterp spec fn extension_of(path: Seq<char>) -> Option<Seq<char>>;

/// What `str::to_lowercase` makes of a string.
pub uninterp spec fn lower_of(s: Seq<char>) -> Seq<char>;

/// Relies on `std::path::Path::extension`: the part of the final component
/// after its last `.`, if any. The extension of a `str` path is valid UTF-8,
/// so `to_str` only converts it.
#[verifier::external_body]
fn extension(path: &str) -> (r: Option<String>)
    ensures
        r matches Some(e) ==> extension_of(path@) == Some(e@),
        r is None ==> extension_of(path@) is None,
{
    std::path::Path::new(path).extension().and_then(|e| e.to_str()).map(|e| e.to_string())
}

/// Relies on `str::to_lowercase`: the lower-case form of every character;
/// the empty string stays empty.
#[verifier::external_body]
fn lowercase(s: &str) -> (r: String)
    ensures
        r@ == lower_of(s@),
        s@.len() == 0 ==> r@.len() == 0,
{
    s.to_lowercase()
}

/// The lower-case extensions of markdown files.
pub open spec fn is_markdown_extension_spec(e: Seq<char>) -> bool {
    e == "md"@ || e == "markdown"@ || e == "mdown"@ || e == "mkd"@ || e == "mkdown"@
}

/// A path names a markdown file when its extension, in lower case, is one of
/// the markdown extensions.
pub open spec fn is_markdown_path_spec(path: Seq<char>) -> bool {
    match extension_of(path) {
        Some(e) => is_markdown_extension_spec(lower_of(e)),
        None => false,
    }
}

/// Whether an extension already in lower case is a markdown one.
pub fn is_markdown_extension(lowered: &String) -> (r: bool)
    ensures
        r == is_markdown_extension_spec(lowered@),
{
    *lowered == String::from_str("md") || *lowered == String::from_str("markdown")
        || *lowered == String::from_str("mdown") || *lowered == String::from_str("mkd")
        || *lowered == String::from_str("mkdown")
}

/// Whether a path has a markdown extension, in any case.
pub fn is_markdown_path(path: &String) -> (r: bool)
    ensures
        r == is_markdown_path_spec(path@),
{
    match extension(path.as_str()) {
        Some(e) => is_markdown_extension(&lowercase(e.as_str())),
        None => false,
    }
}

/// One argument of the program, with what the file system said of it.
pub struct CliArg {
    /// The argument as it was given.
    pub arg: String,
    /// Whether a file or directory exists at that path.
    pub exists: bool,
    /// The absolute, canonical form of the path, where one could be had.
    pub canonical: Option<String>,
}

/// An argument is kept when its path exists and names a markdown file.
pub open spec fn is_kept(a: CliArg) -> bool {
    a.exists && is_markdown_path_spec(a.arg@)
}

/// The path under which a kept argument is staged: its canonical form, or
/// the argument itself where that could not be had.
pub open spec fn staged_path(a: CliArg) -> Seq<char> {
    match a.canonical {
        Some(c) => c@,
        None => a.arg@,
    }
}

/// The staged paths of the kept arguments, in the order given.
pub open spec fn select_spec(args: Seq<CliArg>) -> Seq<Seq<char>>
    decreases args.len(),
{
    if args.len() == 0 {
        seq![]
    } else {
        let rest = select_spec(args.drop_last());
        if is_kept(args.last()) {
            rest.push(staged_path(args.last()))
        } else {
            rest
        }
    }
}

/// The paths to stage at start-up: of the arguments (the program's name left
/// out), those that exist and have a markdown extension, each in its
/// canonical form where one could be had.
pub fn select_startup_files(args: &Vec<CliArg>) -> (r: Vec<String>)
    ensures
        r@.map_values(|s: String| s@) == select_spec(args@),
{
    let mut r: Vec<String> = Vec::new();
    let mut i: usize = 0;
    while i < args.len()
        invariant
            i <= args@.len(),
            r@.map_values(|s: String| s@) == select_spec(args@.subrange(0, i as int)),
        decreases args@.len() - i,
    {
        let a = &args[i];
        proof {
            assert(args@.subrange(0, i + 1).drop_last() =~= args@.subrange(0, i as int));
        }
        if a.exists && is_markdown_path(&a.arg) {
            let p = match &a.canonical {
                Some(c) => c.clone(),
                None => a.arg.clone(),
            };
            r.push(p);
        }
        i = i + 1;
        proof {
            assert(r@.map_values(|s: String| s@) =~= select_spec(args@.subrange(0, i as int)));
        }
    }
    assert(args@.subrange(0, args@.len() as int) =~= args@);
    r
}

} // verus!
