//! The platforms that the engine's surroundings tell apart.

use vstd::prelude::*;
use vstd::string::*;

verus! {

/// The operating system that paths and programs belong to.
#[derive(Clone, Copy, PartialEq, Eq, Structural, Debug)]
pub enum Platform {
    Windows,
    MacOs,
    Linux,
    /// Any other system: nothing is known of its conventions.
    Other,
}

/// The prefix `\\?\` that marks an extended-length path on Windows.
pub open spec fn unc_prefix() -> Seq<char> {
    seq!['\\', '\\', '?', '\\']
}

/// Whether `path` begins with the extended-length prefix.
pub open spec fn has_unc_prefix(path: Seq<char>) -> bool {
    unc_prefix().is_prefix_of(path)
}

/// `path` without the extended-length prefix, where the platform knows such
/// a prefix and the path has it; else `path` itself.
pub open spec fn without_unc_prefix(platform: Platform, path: Seq<char>) -> Seq<char> {
    if platform is Windows && has_unc_prefix(path) {
        path.skip(4)
    } else {
        path
    }
}

/// Removes the extended-length prefix `\\?\` from a Windows path. On every
/// other platform, and for a path without the prefix, the path comes back
/// as it is.
pub fn strip_unc_prefix(platform: Platform, path: String) -> (stripped: String)
    ensures
        stripped@ == without_unc_prefix(platform, path@),
{
    match platform {
        Platform::Windows => {
            let text = path.as_str();
            let n = text.unicode_len();
            if n >= 4 && text.get_char(0) == '\\' && text.get_char(1) == '\\' && text.get_char(2)
                == '?' && text.get_char(3) == '\\' {
                let rest = text.substring_char(4, n);
                proof {
                    assert(path@.subrange(0, 4) =~= unc_prefix());
                    assert(path@.subrange(4, n as int) =~= path@.skip(4));
                }
                String::from_str(rest)
            } else {
                proof {
                    if has_unc_prefix(path@) {
                        let head = path@.subrange(0, 4);
                        assert(head[0] == '\\' && head[1] == '\\' && head[2] == '?' && head[3]
                            == '\\');
                    }
                }
                path
            }
        },
        _ => path,
    }
}

/// Stripping takes nothing but the four characters of the prefix, and a
/// path that does not begin with two backslashes is never changed.
pub proof fn lemma_strip_keeps_the_rest(platform: Platform, path: Seq<char>)
    ensures
        without_unc_prefix(platform, path) == path || unc_prefix() + without_unc_prefix(
            platform,
            path,
        ) == path,
        !(platform is Windows) ==> without_unc_prefix(platform, path) == path,
        path.len() < 4 ==> without_unc_prefix(platform, path) == path,
{
    if platform is Windows && has_unc_prefix(path) {
        assert(unc_prefix() + path.skip(4) =~= path);
    }
}

} // verus!
