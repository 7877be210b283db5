//! How wide a piece of text is on a terminal, and where it may be cut.

use vstd::prelude::*;
use unicode_segmentation::UnicodeSegmentation;
use unicode_width::UnicodeWidthStr;

verus! {

/// The number of terminal columns that a string takes, as the crate
/// `unicode-width` counts them: a double-width character such as an emoji
/// counts as two, a combining mark as none.
pub uninterp spec fn display_width(s: Seq<char>) -> nat;

/// The extended grapheme clusters of a string, as the crate
/// `unicode-segmentation` finds them, in their order. A cluster is what a
/// reader takes for one character; a string is never cut inside of one.
pub uninterp spec fn grapheme_clusters(s: Seq<char>) -> Seq<Seq<char>>;

/// The first `n` of `parts`, one after the other.
pub open spec fn joined(parts: Seq<Seq<char>>, n: int) -> Seq<char>
    decreases n,
{
    if n <= 0 {
        Seq::empty()
    } else {
        joined(parts, n - 1) + parts[n - 1]
    }
}

/// Whether `parts` are `whole` cut into pieces of which none is empty.
pub open spec fn partitions(parts: Seq<Seq<char>>, whole: Seq<char>) -> bool {
    &&& forall|k: int| 0 <= k < parts.len() ==> (#[trigger] parts[k]).len() > 0
    &&& joined(parts, parts.len() as int) == whole
}

/// What each of `parts` holds.
pub open spec fn texts(parts: Seq<&str>) -> Seq<Seq<char>> {
    Seq::new(parts.len(), |k: int| parts[k]@)
}

/// `UnicodeWidthStr::width` of the crate `unicode-width`: the result is the
/// number of columns that the crate counts for the string. Nothing more is
/// claimed of that number.
#[verifier::external_body]
pub(crate) fn str_width(s: &str) -> (w: usize)
    ensures
        w == display_width(s@),
{
    UnicodeWidthStr::width(s)
}

/// `UnicodeSegmentation::graphemes` of the crate `unicode-segmentation`, for
/// extended clusters: the result holds the clusters that the crate finds,
/// in their order. The crate's iterator hands out one slice of the string
/// after the other, each from where the last one ended to the next boundary
/// after it, until the string is used up: so no cluster is empty, and
/// together they are the string.
#[verifier::external_body]
pub(crate) fn graphemes_of<'a>(s: &'a str) -> (r: Vec<&'a str>)
    ensures
        texts(r@) == grapheme_clusters(s@),
        partitions(texts(r@), s@),
{
    UnicodeSegmentation::graphemes(s, true).collect()
}

/// The number of characters in the first `n` of `parts`.
pub open spec fn joined_len(parts: Seq<Seq<char>>, n: int) -> int
    decreases n,
{
    if n <= 0 {
        0
    } else {
        joined_len(parts, n - 1) + parts[n - 1].len()
    }
}

/// The first `n` of `parts`, joined, are as long as [`joined_len`] says.
pub proof fn lemma_joined_len_prefix(parts: Seq<Seq<char>>, n: int)
    requires
        0 <= n <= parts.len(),
    ensures
        joined(parts, n).len() == joined_len(parts, n),
        0 <= joined_len(parts, n),
    decreases n,
{
    if n > 0 {
        lemma_joined_len_prefix(parts, n - 1);
    }
}

/// The first `n` of `parts`, joined, are the start of the first `m` of them,
/// joined.
pub proof fn lemma_joined_is_prefix(parts: Seq<Seq<char>>, n: int, m: int)
    requires
        0 <= n <= m <= parts.len(),
    ensures
        joined_len(parts, n) <= joined(parts, m).len(),
        joined(parts, m).subrange(0, joined_len(parts, n)) == joined(parts, n),
    decreases m - n,
{
    lemma_joined_len_prefix(parts, n);
    if m == n {
        assert(joined(parts, n).subrange(0, joined_len(parts, n)) =~= joined(parts, n));
    } else {
        lemma_joined_is_prefix(parts, n, m - 1);
        assert(joined(parts, m).subrange(0, joined_len(parts, n)) =~= joined(
            parts,
            m - 1,
        ).subrange(0, joined_len(parts, n)));
    }
}

/// The characters of a string.
pub fn chars_of(s: &str) -> (r: Vec<char>)
    ensures
        r@ == s@,
{
    let n = s.unicode_len();
    let mut chars: Vec<char> = Vec::new();
    let mut i: usize = 0;
    while i < n
        invariant
            i <= n,
            n == s@.len(),
            chars@ == s@.subrange(0, i as int),
        decreases n - i,
    {
        chars.push(s.get_char(i));
        assert(chars@ =~= s@.subrange(0, i + 1));
        i = i + 1;
    }
    assert(s@.subrange(0, n as int) =~= s@);
    chars
}

/// The number of extended grapheme clusters of a string.
pub fn count_graphemes(s: &str) -> (n: usize)
    ensures
        n == grapheme_clusters(s@).len(),
{
    graphemes_of(s).len()
}

} // verus!
