//! Window-size policy.
//!
//! A `WIDTHxHEIGHT` token from the command line is well formed only when
//! it holds exactly one `'x'` with a plain number on each side; anything
//! else is malformed, which callers treat as fatal. The resolved size
//! prefers the command-line override (with `0` as the "unset" sentinel
//! per dimension), then the
//! persisted settings, then the hard-coded defaults, and is always floored
//! at [`crate::MIN_DIMENSION`] so that a corrupt settings file can never
//! produce a degenerate window.

use vstd::prelude::*;

use crate::numbers::parse_u32;
use crate::numbers::parsed_u32;

verus! {

/// `i` is the position of the only `'x'` in `s`.
pub open spec fn size_separator_at(s: Seq<char>, i: int) -> bool {
    &&& 0 <= i < s.len()
    &&& s[i] == 'x'
    &&& forall|j: int| 0 <= j < s.len() && s[j] == 'x' ==> j == i
}

/// The two sides of a well-formed size token, split at its only `'x'`;
/// `None` when the token has no `'x'` or more than one.
pub open spec fn split_size_token(s: Seq<char>) -> Option<(Seq<char>, Seq<char>)> {
    if exists|i: int| size_separator_at(s, i) {
        let i = choose|i: int| size_separator_at(s, i);
        Some((s.take(i), s.skip(i + 1)))
    } else {
        None
    }
}

/// What a `WIDTHxHEIGHT` token stands for: `None` exactly when the token
/// is malformed — no single `'x'`, or a side that is not a nonempty run
/// of digits fitting `u32` — which callers treat as fatal.
pub open spec fn parsed_size_token(s: Seq<char>) -> Option<(u32, u32)> {
    match split_size_token(s) {
        Some(parts) => match (parsed_u32(parts.0), parsed_u32(parts.1)) {
            (Some(w), Some(h)) => Some((w, h)),
            _ => None,
        },
        None => None,
    }
}

/// Parses a `WIDTHxHEIGHT` token: `None` exactly on a malformed token.
pub fn parse_size_token(s: &str) -> (r: Option<(u32, u32)>)
    ensures
        r == parsed_size_token(s@),
{
    let n = s.unicode_len();
    let mut i: usize = 0;
    let mut found = false;
    let mut dup = false;
    let mut pos: usize = 0;
    let mut pos2: usize = 0;
    while i < n
        invariant
            0 <= i <= n,
            n == s@.len(),
            !found ==> !dup && (forall|j: int| 0 <= j < i ==> s@[j] != 'x'),
            found ==> pos < i && s@[pos as int] == 'x',
            found && !dup ==> forall|j: int| 0 <= j < i && s@[j] == 'x' ==> j == pos,
            dup ==> found && pos < pos2 < i && s@[pos2 as int] == 'x',
        decreases n - i,
    {
        let c = s.get_char(i);
        if c == 'x' {
            if !found {
                found = true;
                pos = i;
            } else if !dup {
                dup = true;
                pos2 = i;
            }
        }
        i = i + 1;
    }
    if !found {
        proof {
            assert forall|k: int| !size_separator_at(s@, k) by {
                if 0 <= k < s@.len() {
                    assert(s@[k] != 'x');
                }
            }
        }
        return None;
    }
    if dup {
        proof {
            assert forall|k: int| !size_separator_at(s@, k) by {
                if size_separator_at(s@, k) {
                    assert(pos == k && pos2 == k);
                }
            }
        }
        return None;
    }
    proof {
        assert(size_separator_at(s@, pos as int));
        let k = choose|k: int| size_separator_at(s@, k);
        assert(s@[pos as int] == 'x');
        assert(k == pos as int);
    }
    let left = s.substring_char(0, pos);
    let right = s.substring_char(pos + 1, n);
    proof {
        assert(left@ =~= s@.take(pos as int));
        assert(right@ =~= s@.skip(pos as int + 1));
    }
    let w = match parse_u32(left) {
        Some(v) => v,
        None => {
            return None;
        },
    };
    let h = match parse_u32(right) {
        Some(v) => v,
        None => {
            return None;
        },
    };
    Some((w, h))
}

/// A dimension floored at the minimum the window accepts.
pub open spec fn floor_dimension(v: u32) -> u32 {
    if v < crate::MIN_DIMENSION {
        crate::MIN_DIMENSION
    } else {
        v
    }
}

/// The view of an optional piece of stored text.
pub open spec fn opt_text_view(o: Option<&String>) -> Option<Seq<char>> {
    match o {
        Some(t) => Some(t@),
        None => None,
    }
}

/// The three-tier resolution of one window dimension: a nonzero
/// command-line value wins; otherwise the persisted text, when it parses;
/// otherwise the hard-coded default; always floored at the minimum.
pub open spec fn resolved_dimension(cli: u32, stored: Option<Seq<char>>, fallback: u32) -> u32 {
    if cli != 0 {
        floor_dimension(cli)
    } else {
        match stored {
            Some(t) => match parsed_u32(t) {
                Some(v) => floor_dimension(v),
                None => floor_dimension(fallback),
            },
            None => floor_dimension(fallback),
        }
    }
}

/// Resolves one window dimension from the command-line value (`0` means
/// unset), the persisted text, and the hard-coded fallback.
pub fn resolve_dimension(cli: u32, stored: Option<&String>, fallback: u32) -> (r: u32)
    ensures
        r == resolved_dimension(cli, opt_text_view(stored), fallback),
{
    if cli != 0 {
        if cli < crate::MIN_DIMENSION {
            crate::MIN_DIMENSION
        } else {
            cli
        }
    } else {
        let v = match stored {
            Some(t) => match parse_u32(t.as_str()) {
                Some(v) => v,
                None => fallback,
            },
            None => fallback,
        };
        if v < crate::MIN_DIMENSION {
            crate::MIN_DIMENSION
        } else {
            v
        }
    }
}

/// The resolved window size: both dimensions, from the optional
/// command-line override and the persisted texts.
pub fn resolve_window_size(
    override_size: Option<(u32, u32)>,
    stored_width: Option<&String>,
    stored_height: Option<&String>,
) -> (r: (u32, u32))
    ensures
        r.0 == resolved_dimension(
            match override_size {
                Some(p) => p.0,
                None => 0,
            },
            opt_text_view(stored_width),
            crate::DEFAULT_WIDTH,
        ),
        r.1 == resolved_dimension(
            match override_size {
                Some(p) => p.1,
                None => 0,
            },
            opt_text_view(stored_height),
            crate::DEFAULT_HEIGHT,
        ),
{
    let (cw, ch) = match override_size {
        Some(p) => p,
        None => (0, 0),
    };
    let w = resolve_dimension(cw, stored_width, crate::DEFAULT_WIDTH);
    let h = resolve_dimension(ch, stored_height, crate::DEFAULT_HEIGHT);
    (w, h)
}

/// For a well-formed `WIDTHxHEIGHT` token whose two sides stand for
/// positive numbers, the resolved window size is exactly the parsed pair
/// floored at the minimum dimension, whatever the settings file holds.
pub proof fn lemma_override_wins(
    s: Seq<char>,
    w: u32,
    h: u32,
    stored_width: Option<Seq<char>>,
    stored_height: Option<Seq<char>>,
)
    requires
        parsed_size_token(s) == Some((w, h)),
        w != 0,
        h != 0,
    ensures
        resolved_dimension(w, stored_width, crate::DEFAULT_WIDTH) == floor_dimension(w),
        resolved_dimension(h, stored_height, crate::DEFAULT_HEIGHT) == floor_dimension(h),
{
}

} // verus!
