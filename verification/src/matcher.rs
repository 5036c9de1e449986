//! Scanning free-form text for a supported post link.
//!
//! A link has the shape `https://<host>/<handle>/status/<digits>`, where the
//! host is one of the two accepted aliases of the platform, the handle is 1 to
//! 16 characters drawn from `[A-Za-z0-9_]`, and the digits are one or more
//! decimal digits.  The scanner returns the digits of the leftmost link, and
//! nothing on text without one.

use vstd::prelude::*;

verus! {

/// A decimal digit, as the identifier part of a link accepts it.
pub open spec fn is_digit_char(c: char) -> bool {
    '0' <= c && c <= '9'
}

/// A character the handle part of a link accepts: `[A-Za-z0-9_]`.
pub open spec fn is_handle_char(c: char) -> bool {
    is_digit_char(c) || ('a' <= c && c <= 'z') || ('A' <= c && c <= 'Z') || c == '_'
}

/// Reports whether a character is a decimal digit.
fn digit_char(c: char) -> (r: bool)
    ensures
        r == is_digit_char(c),
{
    '0' <= c && c <= '9'
}

/// Reports whether a character may stand in a handle.
fn handle_char(c: char) -> (r: bool)
    ensures
        r == is_handle_char(c),
{
    ('0' <= c && c <= '9') || ('a' <= c && c <= 'z') || ('A' <= c && c <= 'Z') || c == '_'
}

/// The first accepted host alias, with the surrounding separators:
/// `https://x.com/`.
pub open spec fn prefix_x() -> Seq<char> {
    seq!['h', 't', 't', 'p', 's', ':', '/', '/', 'x', '.', 'c', 'o', 'm', '/']
}

/// The second accepted host alias, with the surrounding separators:
/// `https://twitter.com/`.
pub open spec fn prefix_twitter() -> Seq<char> {
    seq!['h', 't', 't', 'p', 's', ':', '/', '/', 't', 'w', 'i', 't', 't', 'e', 'r', '.', 'c', 'o', 'm', '/']
}

/// The path segment between the handle and the digits: `/status/`.
pub open spec fn status_segment() -> Seq<char> {
    seq!['/', 's', 't', 'a', 't', 'u', 's', '/']
}

/// The pattern `pat` occurs in `s` starting at position `i`.
pub open spec fn seq_at(s: Seq<char>, i: int, pat: Seq<char>) -> bool {
    &&& 0 <= i
    &&& i + pat.len() <= s.len()
    &&& forall|k: int| 0 <= k < pat.len() ==> s[i + k] == pat[k]
}

/// Length of the run of characters satisfying `p` that starts at position `i`.
pub open spec fn run_len(s: Seq<char>, i: int, p: spec_fn(char) -> bool) -> int
    decreases s.len() - i,
{
    if i < 0 || i >= s.len() || !p(s[i]) {
        0
    } else {
        1 + run_len(s, i + 1, p)
    }
}

/// One of the two host aliases occurs at position `i`.
pub open spec fn host_at(s: Seq<char>, i: int) -> bool {
    seq_at(s, i, prefix_x()) || seq_at(s, i, prefix_twitter())
}

/// Length of the host alias that occurs at position `i`.
pub open spec fn host_len_at(s: Seq<char>, i: int) -> int {
    if seq_at(s, i, prefix_x()) {
        prefix_x().len() as int
    } else {
        prefix_twitter().len() as int
    }
}

/// A whole link occurs at position `i`: a host alias, a handle of 1 to 16
/// handle characters, the `/status/` segment, and at least one digit.
///
/// The handle run below is maximal, which loses nothing: any admissible
/// handle is followed by the `/` of `/status/`, which is not a handle
/// character, so an admissible handle is exactly the maximal run.
pub open spec fn match_at(s: Seq<char>, i: int) -> bool {
    let b = i + host_len_at(s, i);
    let hl = run_len(s, b, |c: char| is_handle_char(c));
    &&& host_at(s, i)
    &&& 1 <= hl <= 16
    &&& seq_at(s, b + hl, status_segment())
    &&& run_len(s, b + hl + status_segment().len(), |c: char| is_digit_char(c)) >= 1
}

/// The digits of the link that occurs at position `i`: the maximal digit run
/// after its `/status/` segment.
pub open spec fn id_at(s: Seq<char>, i: int) -> Seq<char> {
    let b = i + host_len_at(s, i);
    let hl = run_len(s, b, |c: char| is_handle_char(c));
    let d = b + hl + status_segment().len();
    s.subrange(d, d + run_len(s, d, |c: char| is_digit_char(c)))
}

/// The identifier the scanner owes on `s`, looking from position `i` on:
/// the digits of the leftmost link at or after `i`, or nothing.
pub open spec fn match_from(s: Seq<char>, i: int) -> Option<Seq<char>>
    decreases s.len() - i,
{
    if i >= s.len() {
        None
    } else if match_at(s, i) {
        Some(id_at(s, i))
    } else {
        match_from(s, i + 1)
    }
}

/// The identifier the scanner owes on `s`: the digits of the leftmost link,
/// or nothing when `s` holds no link.
pub open spec fn match_spec(s: Seq<char>) -> Option<Seq<char>> {
    match_from(s, 0)
}

/// A run is never shorter than nothing.
proof fn lemma_run_len_nonneg(s: Seq<char>, i: int, p: spec_fn(char) -> bool)
    ensures
        run_len(s, i, p) >= 0,
    decreases s.len() - i,
{
    if !(i < 0 || i >= s.len() || !p(s[i])) {
        lemma_run_len_nonneg(s, i + 1, p);
    }
}

/// A run's length is pinned by what a scan sees: all of `[i, j)` satisfies
/// `p` and `j` is the end of the text or fails `p`.
proof fn lemma_run_len_exact(s: Seq<char>, i: int, j: int, p: spec_fn(char) -> bool)
    requires
        0 <= i <= j <= s.len(),
        forall|k: int| i <= k < j ==> p(s[k]),
        j == s.len() || !p(s[j]),
    ensures
        run_len(s, i, p) == j - i,
    decreases j - i,
{
    if i == j {
    } else {
        lemma_run_len_exact(s, i + 1, j, p);
    }
}

/// No link starts at or after `i`, so nothing is owed from `i` on.
proof fn lemma_match_from_none(s: Seq<char>, i: int)
    requires
        forall|j: int| i <= j < s.len() ==> !match_at(s, j),
    ensures
        match_from(s, i) is None,
    decreases s.len() - i,
{
    if i < s.len() {
        lemma_match_from_none(s, i + 1);
    }
}

/// A link starts at `i` and none starts earlier than `i` but at or after `t`,
/// so from `t` on the scanner owes the digits of the link at `i`.
proof fn lemma_match_from_found(s: Seq<char>, t: int, i: int)
    requires
        0 <= t <= i,
        match_at(s, i),
        forall|j: int| t <= j < i ==> !match_at(s, j),
    ensures
        match_from(s, t) == Some(id_at(s, i)),
    decreases i - t,
{
    assert(i < s.len());
    if t < i {
        lemma_match_from_found(s, t + 1, i);
    }
}

/// Law: a spelled-out link is a match.  If position `i` carries a host
/// alias, then `h` handle characters with 1 <= `h` <= 16, then the
/// `/status/` segment, then a digit, a link occurs at `i` — whatever stands
/// around it.
pub proof fn lemma_decomposition_matches(s: Seq<char>, i: int, h: int)
    requires
        host_at(s, i),
        1 <= h <= 16,
        forall|k: int|
            i + host_len_at(s, i) <= k < i + host_len_at(s, i) + h ==> is_handle_char(s[k]),
        seq_at(s, i + host_len_at(s, i) + h, status_segment()),
        i + host_len_at(s, i) + h + status_segment().len() < s.len(),
        is_digit_char(s[i + host_len_at(s, i) + h + status_segment().len()]),
    ensures
        match_at(s, i),
{
    let b = i + host_len_at(s, i);
    let d = b + h + status_segment().len();
    assert(s[b + h] == '/');
    assert(!is_handle_char(s[b + h]));
    lemma_run_len_exact(s, b, b + h, |c: char| is_handle_char(c));
    lemma_run_len_nonneg(s, d + 1, |c: char| is_digit_char(c));
    assert(run_len(s, d, |c: char| is_digit_char(c)) >= 1);
}

/// Law: the scanner never overlooks a link.  If a link occurs anywhere in the
/// text, the result is the digits of the leftmost one.
pub proof fn lemma_match_complete(s: Seq<char>, i0: int)
    requires
        0 <= i0,
        match_at(s, i0),
    ensures
        exists|i: int|
            {
                &&& 0 <= i <= i0
                &&& match_at(s, i)
                &&& forall|j: int| 0 <= j < i ==> !match_at(s, j)
                &&& match_spec(s) == Some(id_at(s, i))
            },
    decreases i0,
{
    if exists|j: int| 0 <= j < i0 && match_at(s, j) {
        let j0 = choose|j: int| 0 <= j < i0 && match_at(s, j);
        lemma_match_complete(s, j0);
    } else {
        lemma_match_from_found(s, 0, i0);
        assert({
            &&& 0 <= i0 <= i0
            &&& match_at(s, i0)
            &&& forall|j: int| 0 <= j < i0 ==> !match_at(s, j)
            &&& match_spec(s) == Some(id_at(s, i0))
        });
    }
}

/// Law: on text without a link the scanner returns nothing.
pub proof fn lemma_match_absent(s: Seq<char>)
    requires
        forall|i: int| 0 <= i < s.len() ==> !match_at(s, i),
    ensures
        match_spec(s) is None,
{
    lemma_match_from_none(s, 0);
}

/// Law: the scanner is a pure function of the text.  Any two results that
/// its contract admits on the same text are equal, so two calls on the same
/// text return the same identifier.
pub proof fn lemma_match_deterministic(s: Seq<char>, r1: Option<Seq<char>>, r2: Option<Seq<char>>)
    requires
        r1 == match_spec(s),
        r2 == match_spec(s),
    ensures
        r1 == r2,
{
}

/// The pattern `pat` occurs in `s` at character position `i`.
fn seq_matches_at(s: &str, n: usize, i: usize, pat: &Vec<char>) -> (r: bool)
    requires
        n == s@.len(),
        i <= n,
    ensures
        r == seq_at(s@, i as int, pat@),
{
    if pat.len() > n - i {
        return false;
    }
    let mut k: usize = 0;
    while k < pat.len()
        invariant
            n == s@.len(),
            i <= n,
            i + pat@.len() <= n,
            k <= pat@.len(),
            forall|m: int| 0 <= m < k ==> s@[i + m] == pat@[m],
        decreases pat@.len() - k,
    {
        if s.get_char(i + k) != pat[k] {
            return false;
        }
        k += 1;
    }
    true
}

/// Scans `content` for a supported post link and returns the digits of the
/// leftmost one, or nothing when the text holds none.  The result is a
/// function of the text alone.
pub fn match_twitter_url(content: &str) -> (r: Option<String>)
    ensures
        r is Some <==> match_spec(content@) is Some,
        r matches Some(id) ==> match_spec(content@) == Some(id@),
        r matches Some(id) ==> id@.len() >= 1 && (forall|k: int|
            0 <= k < id@.len() ==> is_digit_char(id@[k])),
{
    let n = content.unicode_len();
    let px: Vec<char> = vec!['h', 't', 't', 'p', 's', ':', '/', '/', 'x', '.', 'c', 'o', 'm', '/'];
    let pt: Vec<char> = vec!['h', 't', 't', 'p', 's', ':', '/', '/', 't', 'w', 'i', 't', 't', 'e', 'r', '.', 'c', 'o', 'm', '/'];
    let ps: Vec<char> = vec!['/', 's', 't', 'a', 't', 'u', 's', '/'];
    proof {
        assert(px@ =~= prefix_x());
        assert(pt@ =~= prefix_twitter());
        assert(ps@ =~= status_segment());
    }
    let mut i: usize = 0;
    while i < n
        invariant
            n == content@.len(),
            i <= n,
            px@ == prefix_x(),
            pt@ == prefix_twitter(),
            ps@ == status_segment(),
            forall|j: int| 0 <= j < i ==> !match_at(content@, j),
        decreases n - i,
    {
        let host_len: usize = if seq_matches_at(content, n, i, &px) {
            14
        } else if seq_matches_at(content, n, i, &pt) {
            20
        } else {
            0
        };
        if host_len > 0 {
            let b = i + host_len;
            let mut j = b;
            while j < n && handle_char(content.get_char(j))
                invariant
                    n == content@.len(),
                    b <= j <= n,
                    forall|k: int| b <= k < j ==> is_handle_char(content@[k]),
                decreases n - j,
            {
                j += 1;
            }
            proof {
                lemma_run_len_exact(content@, b as int, j as int, |c: char| is_handle_char(c));
            }
            let hl = j - b;
            if 1 <= hl && hl <= 16 && seq_matches_at(content, n, j, &ps) {
                let ds = j + 8;
                let mut de = ds;
                while de < n && digit_char(content.get_char(de))
                    invariant
                        n == content@.len(),
                        ds <= de <= n,
                        forall|k: int| ds <= k < de ==> is_digit_char(content@[k]),
                    decreases n - de,
                {
                    de += 1;
                }
                proof {
                    lemma_run_len_exact(content@, ds as int, de as int, |c: char| is_digit_char(c));
                }
                if de > ds {
                    let sub = content.substring_char(ds, de);
                    let id = String::from_str(sub);
                    proof {
                        assert(match_at(content@, i as int));
                        assert(id@ == id_at(content@, i as int));
                        lemma_match_from_found(content@, 0, i as int);
                    }
                    return Some(id);
                }
            }
            proof {
                assert(!match_at(content@, i as int));
            }
        } else {
            proof {
                assert(!host_at(content@, i as int));
                assert(!match_at(content@, i as int));
            }
        }
        i += 1;
    }
    proof {
        lemma_match_from_none(content@, 0);
    }
    None
}

} // verus!

