//! Output path derivation. Every screenshot lands at a path that ends in the
//! fixed image extension `.png`:
//!
//! - An explicit destination has its extension *replaced*. The extension of a
//!   path is what follows the last `.` of its final `/`-separated component,
//!   provided that dot is not the component's first character (a leading dot
//!   marks a hidden file, not an extension). A destination with no extension
//!   gets `.png` appended.
//! - A bare URL (no destination) is used verbatim as the path base and gets
//!   `.png` *appended*, never substituted: a URL such as `https://example.com`
//!   must become `https://example.com.png`, not a garbled substitution inside
//!   the host name. Callers that need a filesystem-safe name supply a
//!   destination.

use vstd::prelude::*;

verus! {

/// The fixed image extension, dot included.
pub open spec fn png_suffix() -> Seq<char> {
    ".png"@
}

/// Index of the first character of the final `/`-separated component of `s`:
/// one past the last `/`, or 0 when `s` holds no `/`.
pub open spec fn name_start(s: Seq<char>) -> int
    decreases s.len(),
{
    if s.len() == 0 {
        0
    } else if s[s.len() - 1] == '/' {
        s.len() as int
    } else {
        name_start(s.drop_last())
    }
}

/// Index of the dot that starts the extension of `s`, if `s` has one: the
/// last `.` inside the final component, excluding that component's first
/// character.
pub open spec fn ext_dot(s: Seq<char>) -> Option<int>
    decreases s.len(),
{
    if s.len() == 0 {
        Option::None
    } else if s[s.len() - 1] == '/' {
        Option::None
    } else if s[s.len() - 1] == '.' && s.len() - 1 > name_start(s) {
        Option::Some(s.len() - 1)
    } else {
        ext_dot(s.drop_last())
    }
}

/// `s` with its extension forced to `.png`: the extension (if any) is cut and
/// `.png` takes its place; otherwise `.png` is appended.
pub open spec fn spec_with_png(s: Seq<char>) -> Seq<char> {
    match ext_dot(s) {
        Option::Some(i) => s.take(i) + png_suffix(),
        Option::None => s + png_suffix(),
    }
}

/// Forces the extension of `path` to `.png`, as `spec_with_png` says.
pub fn with_png_extension(path: &str) -> (r: String)
    ensures
        r@ == spec_with_png(path@),
{
    let n = path.unicode_len();
    let mut start: usize = 0;
    let mut dot: Option<usize> = Option::None;
    let mut i: usize = 0;
    while i < n
        invariant
            n == path@.len(),
            i <= n,
            start <= i,
            start as int == name_start(path@.take(i as int)),
            match dot {
                Option::Some(j) => j < i && ext_dot(path@.take(i as int)) == Option::Some(
                    j as int,
                ),
                Option::None => ext_dot(path@.take(i as int)) is None,
            },
        decreases n - i,
    {
        let c = path.get_char(i);
        proof {
            assert(path@.take(i + 1).drop_last() =~= path@.take(i as int));
            assert(path@.take(i + 1).last() == path@[i as int]);
        }
        if c == '/' {
            start = i + 1;
            dot = Option::None;
        } else if c == '.' {
            if i > start {
                dot = Option::Some(i);
            }
        }
        i = i + 1;
    }
    proof {
        assert(path@.take(n as int) =~= path@);
    }
    match dot {
        Option::Some(j) => {
            let stem = path.substring_char(0, j);
            stem.to_owned().concat(".png")
        },
        Option::None => path.to_owned().concat(".png"),
    }
}

} // verus!
