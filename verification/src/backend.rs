//! Runtime backend selection.
//!
//! The selector inspects two read-only environment values — the session
//! type and the display endpoint — and resolves to exactly one backend:
//! the compositor-protocol backend when the session type equals the
//! compositor token, or when the lowercased display endpoint contains
//! that token; the legacy display-server backend otherwise. There is no
//! error case. The values arrive as raw bytes so that the decision is a
//! pure function of them.

use vstd::prelude::*;

verus! {

/// The two mutually exclusive display-server families of the
/// compositor dichotomy.
#[derive(Clone, Copy, Debug, PartialEq, Eq, Structural)]
pub enum Backend {
    Wayland,
    X11,
}

/// ASCII lowercasing of one byte; bytes outside `A..=Z` are unchanged.
pub open spec fn spec_lower(c: u8) -> u8 {
    if 65 <= c <= 90 {
        (c + 32) as u8
    } else {
        c
    }
}

/// ASCII lowercasing of a byte string.
pub open spec fn spec_lower_bytes(s: Seq<u8>) -> Seq<u8> {
    s.map_values(|c: u8| spec_lower(c))
}

/// The bytes of the compositor-protocol token, `wayland`.
pub open spec fn wayland_token() -> Seq<u8> {
    seq![119u8, 97u8, 121u8, 108u8, 97u8, 110u8, 100u8]
}

/// `needle` occurs in `haystack` starting at position `i`.
pub open spec fn spec_match_at(haystack: Seq<u8>, needle: Seq<u8>, i: int) -> bool {
    &&& 0 <= i
    &&& i + needle.len() <= haystack.len()
    &&& forall|k: int| 0 <= k < needle.len() ==> haystack[i + k] == needle[k]
}

/// `needle` occurs somewhere in `haystack`.
pub open spec fn spec_contains(haystack: Seq<u8>, needle: Seq<u8>) -> bool {
    exists|i: int| spec_match_at(haystack, needle, i)
}

/// The decision rule of the selector: the session type equals the
/// token, or the lowercased display endpoint contains it.
pub open spec fn spec_selects_wayland(session_type: Seq<u8>, display_endpoint: Seq<u8>) -> bool {
    ||| session_type == wayland_token()
    ||| spec_contains(spec_lower_bytes(display_endpoint), wayland_token())
}

pub open spec fn spec_select_backend(session_type: Seq<u8>, display_endpoint: Seq<u8>) -> Backend {
    if spec_selects_wayland(session_type, display_endpoint) {
        Backend::Wayland
    } else {
        Backend::X11
    }
}

/// The byte of the token at position `i`.
fn token_byte(i: usize) -> (r: u8)
    requires
        i < 7,
    ensures
        r == wayland_token()[i as int],
{
    if i == 0 {
        119
    } else if i == 1 {
        97
    } else if i == 2 {
        121
    } else if i == 3 {
        108
    } else if i == 4 {
        97
    } else if i == 5 {
        110
    } else {
        100
    }
}

fn lower_byte(c: u8) -> (r: u8)
    ensures
        r == spec_lower(c),
{
    if 65 <= c && c <= 90 {
        c + 32
    } else {
        c
    }
}

/// Whole-string equality of `s` with the token.
fn equals_token(s: &[u8]) -> (r: bool)
    ensures
        r == (s@ == wayland_token()),
{
    if s.len() != 7 {
        return false;
    }
    let mut i: usize = 0;
    while i < 7
        invariant
            i <= 7,
            s@.len() == 7,
            forall|k: int| 0 <= k < i ==> s@[k] == wayland_token()[k],
        decreases 7 - i,
    {
        if s[i] != token_byte(i) {
            return false;
        }
        i += 1;
    }
    proof {
        assert(s@ =~= wayland_token());
    }
    true
}

/// The lowercased form of `s` contains the token.
fn lowercase_contains_token(s: &[u8]) -> (r: bool)
    ensures
        r == spec_contains(spec_lower_bytes(s@), wayland_token()),
{
    let n = s.len();
    if n < 7 {
        proof {
            assert(forall|i: int| !spec_match_at(spec_lower_bytes(s@), wayland_token(), i));
        }
        return false;
    }
    let mut i: usize = 0;
    while i <= n - 7
        invariant
            n == s@.len(),
            7 <= n,
            i <= n - 7 + 1,
            forall|j: int| 0 <= j < i ==> !spec_match_at(spec_lower_bytes(s@), wayland_token(), j),
        decreases n - i,
    {
        let mut k: usize = 0;
        let mut all_match = true;
        while k < 7
            invariant
                n == s@.len(),
                7 <= n,
                i <= n - 7,
                k <= 7,
                all_match ==> forall|t: int|
                    0 <= t < k ==> spec_lower_bytes(s@)[i + t] == wayland_token()[t],
                !all_match ==> !spec_match_at(spec_lower_bytes(s@), wayland_token(), i as int),
            decreases 7 - k,
        {
            if lower_byte(s[i + k]) != token_byte(k) {
                proof {
                    assert(spec_lower_bytes(s@)[i + k] == spec_lower(s@[i + k]));
                }
                all_match = false;
            }
            k += 1;
        }
        if all_match {
            proof {
                assert(spec_match_at(spec_lower_bytes(s@), wayland_token(), i as int));
            }
            return true;
        }
        i += 1;
    }
    proof {
        assert forall|j: int| !spec_match_at(spec_lower_bytes(s@), wayland_token(), j) by {
            if 0 <= j <= n - 7 {
                assert(!spec_match_at(spec_lower_bytes(s@), wayland_token(), j));
            }
        }
    }
    false
}

/// Resolves the backend from the two environment values; always
/// returns exactly one variant, defaulting to the legacy display
/// server when neither indicator names the compositor protocol.
pub fn select_backend(session_type: &[u8], display_endpoint: &[u8]) -> (b: Backend)
    ensures
        b == spec_select_backend(session_type@, display_endpoint@),
{
    if equals_token(session_type) {
        Backend::Wayland
    } else if lowercase_contains_token(display_endpoint) {
        Backend::Wayland
    } else {
        Backend::X11
    }
}

/// The selector is deterministic: two selections made over identical
/// environment input resolve to the same backend.
pub proof fn lemma_backend_selection_deterministic(
    session_type: Seq<u8>,
    display_endpoint: Seq<u8>,
    b1: Backend,
    b2: Backend,
)
    requires
        b1 == spec_select_backend(session_type, display_endpoint),
        b2 == spec_select_backend(session_type, display_endpoint),
    ensures
        b1 == b2,
{
}

} // verus!
