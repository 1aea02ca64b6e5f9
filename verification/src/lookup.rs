//! Asking the system where a program is: which program answers, and how its
//! answer is read.

use crate::platform::Platform;
use crate::text::{text_of, texts};
use vstd::prelude::*;
use vstd::string::*;

verus! {

/// The lines of a text, as `str::lines` yields them.
pub uninterp spec fn lines_of(text: Seq<char>) -> Seq<Seq<char>>;

/// A text without the whitespace at its two ends, as `str::trim` returns it.
pub uninterp spec fn trimmed(text: Seq<char>) -> Seq<char>;

/// `str::lines`: the lines of the text in order, each as a text of its own.
#[verifier::external_body]
fn text_lines(text: &str) -> (lines: Vec<String>)
    ensures
        texts(lines@) == lines_of(text@),
{
    text.lines().map(|line| line.to_string()).collect()
}

/// `str::trim`: the text without its leading and trailing whitespace.
#[verifier::external_body]
fn trim_text(text: &str) -> (inner: String)
    ensures
        inner@ == trimmed(text@),
{
    text.trim().to_string()
}

/// The name of the program that finds other programs on the search path.
pub open spec fn lookup_command(platform: Platform) -> Seq<char> {
    if platform is Windows {
        "where"@
    } else {
        "which"@
    }
}

/// The program that is looked for.
pub open spec fn lookup_target() -> Seq<char> {
    "java"@
}

/// Each of `lines` without the whitespace at its ends.
pub open spec fn trimmed_each(lines: Seq<Seq<char>>) -> Seq<Seq<char>> {
    Seq::new(lines.len(), |i: int| trimmed(lines[i]))
}

/// The paths that the output of a lookup lists: its lines, trimmed.
pub open spec fn listed_paths(output: Seq<char>) -> Seq<Seq<char>> {
    trimmed_each(lines_of(output))
}

/// The first path that the output of a lookup lists, if it lists any.
pub open spec fn first_listed(output: Seq<char>) -> Option<Seq<char>> {
    if lines_of(output).len() > 0 {
        Some(trimmed(lines_of(output)[0]))
    } else {
        None
    }
}

/// The name of the program that finds other programs on the search path.
pub fn lookup_program(platform: Platform) -> (name: String)
    ensures
        name@ == lookup_command(platform),
{
    match platform {
        Platform::Windows => String::from_str("where"),
        _ => String::from_str("which"),
    }
}

/// The argument the lookup program is run with.
pub fn lookup_argument() -> (name: String)
    ensures
        name@ == lookup_target(),
{
    String::from_str("java")
}

/// Trims each of `lines`.
pub fn trim_each(lines: &Vec<String>) -> (paths: Vec<String>)
    ensures
        texts(paths@) == trimmed_each(texts(lines@)),
{
    let mut paths: Vec<String> = Vec::new();
    let mut i: usize = 0;
    while i < lines.len()
        invariant
            i <= lines@.len(),
            paths@.len() == i,
            forall|k: int| 0 <= k < i ==> (#[trigger] paths@[k])@ == trimmed(lines@[k]@),
        decreases lines@.len() - i,
    {
        paths.push(trim_text(lines[i].as_str()));
        i = i + 1;
    }
    assert(texts(paths@) =~= trimmed_each(texts(lines@)));
    paths
}

/// The paths that the output of a lookup lists, in order.
pub fn lookup_paths(output: &str) -> (paths: Vec<String>)
    ensures
        texts(paths@) == listed_paths(output@),
{
    let lines = text_lines(output);
    trim_each(&lines)
}

/// The first path that the output of a lookup lists, if it lists any.
pub fn first_path(output: &str) -> (path: Option<String>)
    ensures
        text_of(path) == first_listed(output@),
{
    let lines = text_lines(output);
    if lines.len() > 0 {
        assert(texts(lines@)[0] == lines@[0]@);
        Some(trim_text(lines[0].as_str()))
    } else {
        None
    }
}

/// The first path of a lookup is the first of all the paths it lists.
pub proof fn lemma_first_of_listed(output: Seq<char>)
    ensures
        first_listed(output) == if listed_paths(output).len() > 0 {
            Some(listed_paths(output)[0])
        } else {
            None
        },
        listed_paths(output).len() == lines_of(output).len(),
{
}

} // verus!
