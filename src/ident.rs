//! Locating the channel identifier inside a channel URL.
use vstd::prelude::*;

verus! {

/// The path marker that precedes the identifier: `/channel/`.
pub open spec fn channel_marker() -> Seq<char> {
    seq!['/', 'c', 'h', 'a', 'n', 'n', 'e', 'l', '/']
}

/// The number of characters in the marker.
pub const MARKER_LEN: usize = 9;

/// `u` holds the marker starting at position `i`.
pub open spec fn marker_at(u: Seq<char>, i: int) -> bool {
    0 <= i && i + channel_marker().len() <= u.len() && u.subrange(
        i,
        i + channel_marker().len(),
    ) == channel_marker()
}

/// The first position at or after `i` where the marker starts, if any.
pub open spec fn first_marker_from(u: Seq<char>, i: nat) -> Option<nat>
    decreases u.len() - i,
{
    if u.len() < i + channel_marker().len() {
        None
    } else if marker_at(u, i as int) {
        Some(i)
    } else {
        first_marker_from(u, i + 1)
    }
}

/// The first position at or after `i` that holds `/`, or the length of `u`
/// where there is none.
pub open spec fn slash_or_end_from(u: Seq<char>, i: nat) -> nat
    decreases u.len() - i,
{
    if u.len() <= i {
        u.len()
    } else if u[i as int] == '/' {
        i
    } else {
        slash_or_end_from(u, i + 1)
    }
}

/// The identifier of the channel that URL `u` names: what follows the first
/// marker, up to the next `/` or the end; `None` where `u` has no marker.
pub open spec fn channel_id_of(u: Seq<char>) -> Option<Seq<char>> {
    match first_marker_from(u, 0) {
        Some(k) => {
            let start = k + channel_marker().len();
            Some(u.subrange(start as int, slash_or_end_from(u, start) as int))
        },
        None => None,
    }
}

/// The search from `i` finds `k` where the marker stands at `k` and nowhere
/// between `i` and `k`.
proof fn lemma_first_marker_is(u: Seq<char>, i: nat, k: nat)
    requires
        i <= k,
        marker_at(u, k as int),
        forall|j: int| i <= j < k ==> !marker_at(u, j),
    ensures
        first_marker_from(u, i) == Some(k),
    decreases k - i,
{
    if i < k {
        lemma_first_marker_is(u, i + 1, k);
    }
}

/// The search from `i` finds nothing where no marker starts at or after `i`.
proof fn lemma_no_marker_from(u: Seq<char>, i: nat)
    requires
        forall|j: int| i <= j ==> !marker_at(u, j),
    ensures
        first_marker_from(u, i) is None,
    decreases u.len() - i,
{
    if u.len() >= i + channel_marker().len() {
        lemma_no_marker_from(u, i + 1);
    }
}

/// The scan from `i` stops at `e` where no `/` lies between them and `e` is
/// a `/` or the end.
proof fn lemma_slash_or_end_is(u: Seq<char>, i: nat, e: nat)
    requires
        i <= e <= u.len(),
        forall|j: int| i <= j < e ==> u[j] != '/',
        e == u.len() || u[e as int] == '/',
    ensures
        slash_or_end_from(u, i) == e,
    decreases e - i,
{
    if i < e {
        lemma_slash_or_end_is(u, i + 1, e);
    }
}

/// Where the first marker of a URL is followed by an identifier holding no
/// `/` and the URL ends there, that identifier is the one extracted.
pub proof fn lemma_id_up_to_end(head: Seq<char>, id: Seq<char>)
    requires
        forall|j: int| 0 <= j < head.len() ==> !marker_at(head + channel_marker() + id, j),
        forall|j: int| 0 <= j < id.len() ==> id[j] != '/',
    ensures
        channel_id_of(head + channel_marker() + id) == Some(id),
{
    let u = head + channel_marker() + id;
    let m = channel_marker();
    assert(u.subrange(head.len() as int, (head.len() + m.len()) as int) =~= m);
    lemma_first_marker_is(u, 0, head.len());
    let start = head.len() + m.len();
    lemma_slash_or_end_is(u, start, u.len());
    assert(u.subrange(start as int, u.len() as int) =~= id);
}

/// Where the first marker of a URL is followed by an identifier holding no
/// `/` and one closing `/`, that identifier, without the slash, is the one
/// extracted.
pub proof fn lemma_id_before_trailing_slash(head: Seq<char>, id: Seq<char>)
    requires
        forall|j: int|
            0 <= j < head.len() ==> !marker_at(head + channel_marker() + id + seq!['/'], j),
        forall|j: int| 0 <= j < id.len() ==> id[j] != '/',
    ensures
        channel_id_of(head + channel_marker() + id + seq!['/']) == Some(id),
{
    let u = head + channel_marker() + id + seq!['/'];
    let m = channel_marker();
    assert(u.subrange(head.len() as int, (head.len() + m.len()) as int) =~= m);
    lemma_first_marker_is(u, 0, head.len());
    let start = head.len() + m.len();
    lemma_slash_or_end_is(u, start, (start + id.len()) as nat);
    assert(u.subrange(start as int, (start + id.len()) as int) =~= id);
}

/// A URL that holds no marker names no identifier.
pub proof fn lemma_no_marker_no_id(u: Seq<char>)
    requires
        forall|j: int| !marker_at(u, j),
    ensures
        channel_id_of(u) is None,
{
    lemma_no_marker_from(u, 0);
}

/// Whether `s` holds the marker at position `i`.
fn has_marker_at(s: &str, n: usize, i: usize) -> (r: bool)
    requires
        n == s@.len(),
        i <= n,
    ensures
        r == marker_at(s@, i as int),
{
    let m = "/channel/";
    proof {
        reveal_strlit("/channel/");
        assert(m@ =~= channel_marker());
    }
    if n - i < MARKER_LEN {
        return false;
    }
    let mut j: usize = 0;
    while j < MARKER_LEN
        invariant
            j <= MARKER_LEN,
            m@ == channel_marker(),
            i + MARKER_LEN <= n,
            n == s@.len(),
            forall|k: int| 0 <= k < j ==> s@[i + k] == channel_marker()[k],
        decreases MARKER_LEN - j,
    {
        if s.get_char(i + j) != m.get_char(j) {
            assert(s@.subrange(i as int, i + MARKER_LEN)[j as int] != channel_marker()[j as int]);
            return false;
        }
        j += 1;
    }
    assert(s@.subrange(i as int, i + MARKER_LEN) =~= channel_marker());
    true
}

/// The position of the first marker in `s`.
pub fn find_channel_marker(s: &str) -> (r: Option<usize>)
    ensures
        r is None <==> first_marker_from(s@, 0) is None,
        r matches Some(k) ==> first_marker_from(s@, 0) == Some(k as nat),
        r matches Some(k) ==> k + MARKER_LEN <= s@.len() <= usize::MAX,
{
    let n = s.unicode_len();
    let mut i: usize = 0;
    while i < n
        invariant
            i <= n,
            n == s@.len(),
            first_marker_from(s@, 0) == first_marker_from(s@, i as nat),
        decreases n - i,
    {
        if has_marker_at(s, n, i) {
            assert(channel_marker().len() == MARKER_LEN);
            return Some(i);
        }
        assert(first_marker_from(s@, i as nat) == first_marker_from(s@, (i + 1) as nat));
        i += 1;
    }
    None
}

/// The position of the first `/` at or after `start` in `s`, or its length.
pub fn find_slash_or_end(s: &str, start: usize) -> (r: usize)
    requires
        start <= s@.len(),
    ensures
        r as nat == slash_or_end_from(s@, start as nat),
        start <= r <= s@.len(),
{
    let n = s.unicode_len();
    let mut i: usize = start;
    while i < n
        invariant
            start <= i <= n,
            n == s@.len(),
            slash_or_end_from(s@, start as nat) == slash_or_end_from(s@, i as nat),
        decreases n - i,
    {
        if s.get_char(i) == '/' {
            return i;
        }
        i += 1;
    }
    i
}

} // verus!
