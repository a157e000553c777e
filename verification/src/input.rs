//! Splitting a command-line target `<file>:<symbol>` at the colon that
//! follows a known source-file extension, so that paths holding their own
//! colons (drive letters, for one) still parse.

use vstd::prelude::*;
use vstd::string::StrSliceExecFns;
use vstd::string::StringExecFns;
use crate::text::find_index;
use crate::text::find_sub;

verus! {

/// Split `s` at the first occurrence of the marker `ext` (an extension
/// followed by a colon): the file part keeps the extension, the symbol part
/// is what follows the colon. `None` when the marker is absent or nothing
/// follows its colon.
pub open spec fn marker_split(s: Seq<char>, ext: Seq<char>) -> Option<(Seq<char>, Seq<char>)> {
    let pos = find_index(s, ext);
    if pos < 0 {
        None
    } else {
        let colon = pos + ext.len() - 1;
        let symbol = s.skip(colon + 1);
        if symbol.len() > 0 {
            Some((s.take(colon), symbol))
        } else {
            None
        }
    }
}

/// The file-and-symbol split of one command-line target: the first marker
/// of the fixed list whose occurrence leaves a non-empty symbol wins.
pub open spec fn parse_input_spec(s: Seq<char>) -> Option<(Seq<char>, Seq<char>)> {
    if marker_split(s, ".py:"@) is Some {
        marker_split(s, ".py:"@)
    } else if marker_split(s, ".rs:"@) is Some {
        marker_split(s, ".rs:"@)
    } else if marker_split(s, ".ts:"@) is Some {
        marker_split(s, ".ts:"@)
    } else if marker_split(s, ".tsx:"@) is Some {
        marker_split(s, ".tsx:"@)
    } else if marker_split(s, ".js:"@) is Some {
        marker_split(s, ".js:"@)
    } else if marker_split(s, ".jsx:"@) is Some {
        marker_split(s, ".jsx:"@)
    } else if marker_split(s, ".mts:"@) is Some {
        marker_split(s, ".mts:"@)
    } else if marker_split(s, ".cts:"@) is Some {
        marker_split(s, ".cts:"@)
    } else if marker_split(s, ".mjs:"@) is Some {
        marker_split(s, ".mjs:"@)
    } else if marker_split(s, ".cjs:"@) is Some {
        marker_split(s, ".cjs:"@)
    } else {
        None
    }
}

/// Split `input` at the first occurrence of `ext`, keeping the extension on
/// the file side and demanding a non-empty symbol after the colon.
fn split_at_marker(input: &str, ext: &str) -> (r: Option<(String, String)>)
    requires
        ext@.len() >= 1,
    ensures
        match r {
            Some(p) => marker_split(input@, ext@) == Some((p.0@, p.1@)),
            None => marker_split(input@, ext@) is None,
        },
{
    proof {
        crate::text::lemma_find_index(input@, ext@);
    }
    let pos = match find_sub(input, ext) {
        None => {
            return None;
        },
        Some(p) => p,
    };
    let el: usize = ext.unicode_len();
    let n: usize = input.unicode_len();
    let colon = pos + el - 1;
    if colon + 1 < n {
        let file = input.substring_char(0, colon);
        let symbol = input.substring_char(colon + 1, n);
        proof {
            assert(file@ =~= input@.take(colon as int));
            assert(symbol@ =~= input@.skip(colon as int + 1));
        }
        Some((String::from_str(file), String::from_str(symbol)))
    } else {
        None
    }
}

/// Parse a `<file>:<symbol>` target: the split happens at the colon that
/// follows the first known extension marker found in the text, and the
/// symbol part must be non-empty.
pub fn parse_input(input: &str) -> (r: Option<(String, String)>)
    ensures
        match r {
            Some(p) => parse_input_spec(input@) == Some((p.0@, p.1@)),
            None => parse_input_spec(input@) is None,
        },
{
    proof {
        reveal_strlit(".py:");
        reveal_strlit(".rs:");
        reveal_strlit(".ts:");
        reveal_strlit(".tsx:");
        reveal_strlit(".js:");
        reveal_strlit(".jsx:");
        reveal_strlit(".mts:");
        reveal_strlit(".cts:");
        reveal_strlit(".mjs:");
        reveal_strlit(".cjs:");
    }
    if let Some(p) = split_at_marker(input, ".py:") {
        return Some(p);
    }
    if let Some(p) = split_at_marker(input, ".rs:") {
        return Some(p);
    }
    if let Some(p) = split_at_marker(input, ".ts:") {
        return Some(p);
    }
    if let Some(p) = split_at_marker(input, ".tsx:") {
        return Some(p);
    }
    if let Some(p) = split_at_marker(input, ".js:") {
        return Some(p);
    }
    if let Some(p) = split_at_marker(input, ".jsx:") {
        return Some(p);
    }
    if let Some(p) = split_at_marker(input, ".mts:") {
        return Some(p);
    }
    if let Some(p) = split_at_marker(input, ".cts:") {
        return Some(p);
    }
    if let Some(p) = split_at_marker(input, ".mjs:") {
        return Some(p);
    }
    if let Some(p) = split_at_marker(input, ".cjs:") {
        return Some(p);
    }
    None
}

} // verus!
