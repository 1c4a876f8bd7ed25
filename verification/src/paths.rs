//! File-system paths, held as strings.

use vstd::prelude::*;

verus! {

/// A single relative path component made of ASCII letters, digits, `-`,
/// `_` and `.`, not starting with `.`: joining it never replaces or pops the
/// base path.
pub open spec fn is_plain_name(name: Seq<char>) -> bool {
    &&& name.len() > 0
    &&& name[0] != '.'
    &&& forall|i: int|
        0 <= i < name.len() ==> {
            let c = #[trigger] name[i];
            ||| 'a' <= c <= 'z'
            ||| 'A' <= c <= 'Z'
            ||| '0' <= c <= '9'
            ||| c == '-'
            ||| c == '_'
            ||| c == '.'
        }
}

/// A path separator on some platform: `/` everywhere, `\` on Windows.
pub open spec fn is_separator(c: char) -> bool {
    c == '/' || c == '\\'
}

/// `base` begins with two separators: a UNC, device or verbatim (`\\?\`)
/// path on Windows, which joining may rebuild from its components.
pub open spec fn starts_with_double_separator(base: Seq<char>) -> bool {
    base.len() >= 2 && is_separator(base[0]) && is_separator(base[1])
}

/// `base` is a bare drive such as `C:`, to which Windows appends without a
/// separator.
pub open spec fn is_bare_drive(base: Seq<char>) -> bool {
    &&& base.len() == 2
    &&& ('a' <= base[0] <= 'z' || 'A' <= base[0] <= 'Z')
    &&& base[1] == ':'
}

/// `s` ends with `suffix`.
pub open spec fn ends_with(s: Seq<char>, suffix: Seq<char>) -> bool {
    suffix.len() <= s.len() && s.subrange(s.len() - suffix.len(), s.len() as int) == suffix
}

/// `r` is `base` joined with the plain name `name`, on any platform:
/// - an empty `base` gives `name`;
/// - after a trailing `/`, `name` is appended directly;
/// - after a trailing `\` or a bare drive `X:`, `name` is appended directly
///   (Windows) or after `/` (elsewhere);
/// - after any other last character, `name` follows one separator, `/` or
///   `\` as the platform has it;
/// - a `base` that begins with two separators may be rebuilt (Windows
///   normalises verbatim paths); the result then only ends with `name`.
pub open spec fn is_join_of(base: Seq<char>, name: Seq<char>, r: Seq<char>) -> bool {
    if starts_with_double_separator(base) {
        ends_with(r, name)
    } else if base.len() == 0 {
        r == name
    } else if base.last() == '/' {
        r == base + name
    } else if base.last() == '\\' || is_bare_drive(base) {
        r == base + name || r == base + seq!['/'] + name
    } else {
        r == base + seq!['/'] + name || r == base + seq!['\\'] + name
    }
}

/// `std::path::Path::join` of `base` with a plain `name`, as a string.
/// Claimed (what `PathBuf::push` does with a relative name that has no
/// prefix, root or separator): `name` is appended to `base`, with the
/// platform's separator inserted when `base` is non-empty and does not
/// already end in one (nor is a bare Windows drive); see `is_join_of`.
/// Left open: which separator the platform uses, and, for a `base` that
/// begins with two separators (which Windows may rebuild from its
/// components), everything but that the result ends with `name`.
#[verifier::external_body]
pub(crate) fn join(base: &str, name: &str) -> (r: String)
    requires
        is_plain_name(name@),
    ensures
        is_join_of(base@, name@, r@),
{
    std::path::Path::new(base).join(name).to_string_lossy().into_owned()
}

} // verus!
