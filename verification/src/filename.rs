//! Sanitizing of arbitrary strings into filesystem-safe download filenames.

use vstd::prelude::*;

verus! {

/// A character that may stay as it is in a download filename.
pub open spec fn is_safe_char(c: char) -> bool {
    ('a' <= c && c <= 'z') || ('A' <= c && c <= 'Z') || ('0' <= c && c <= '9') || c == '-'
        || c == '_' || c == '.'
}

/// The sanitized form of a string: every character outside
/// `[A-Za-z0-9._-]` replaced by `'_'`, the rest kept in place.
pub open spec fn sanitized(s: Seq<char>) -> Seq<char> {
    s.map_values(|c: char| if is_safe_char(c) { c } else { '_' })
}

/// Turn an arbitrary string into a filesystem-safe filename: unsafe
/// characters become `'_'`; an empty input falls back to `"sbom"`.
pub fn safe_filename(input: &str) -> (name: String)
    ensures
        input@.len() > 0 ==> name@ == sanitized(input@),
        input@.len() == 0 ==> name@ == "sbom"@,
{
    let n = input.unicode_len();
    if n == 0 {
        return String::from_str("sbom");
    }
    let mut out = String::new();
    let mut i: usize = 0;
    while i < n
        invariant
            n == input@.len(),
            i <= n,
            out@ == sanitized(input@.subrange(0, i as int)),
        decreases n - i,
    {
        let c = input.get_char(i);
        if ('a' <= c && c <= 'z') || ('A' <= c && c <= 'Z') || ('0' <= c && c <= '9') || c == '-'
            || c == '_' || c == '.' {
            let piece = input.substring_char(i, i + 1);
            out.append(piece);
        } else {
            proof {
                reveal_strlit("_");
            }
            out.append("_");
        }
        proof {
            assert(out@ =~= sanitized(input@.subrange(0, i + 1 as int)));
        }
        i = i + 1;
    }
    proof {
        assert(input@.subrange(0, n as int) =~= input@);
    }
    out
}

} // verus!
