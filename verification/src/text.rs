//! Character-level helpers over strings: whitespace, trimming, splitting and
//! decimal numbers.

use vstd::prelude::*;
use vstd::string::StrSliceExecFns;
use vstd::string::StringExecFns;

verus! {

/// Whether `c` is one of the Unicode `White_Space` code points.
pub open spec fn is_space(c: char) -> bool {
    let n = c as u32;
    ||| (0x09 <= n && n <= 0x0D)
    ||| n == 0x20
    ||| n == 0x85
    ||| n == 0xA0
    ||| n == 0x1680
    ||| (0x2000 <= n && n <= 0x200A)
    ||| n == 0x2028
    ||| n == 0x2029
    ||| n == 0x202F
    ||| n == 0x205F
    ||| n == 0x3000
}

/// Executable test for [`is_space`].
pub fn char_is_space(c: char) -> (r: bool)
    ensures
        r == is_space(c),
{
    let n: u32 = c as u32;
    (0x09 <= n && n <= 0x0D) || n == 0x20 || n == 0x85 || n == 0xA0 || n == 0x1680 || (0x2000 <= n
        && n <= 0x200A) || n == 0x2028 || n == 0x2029 || n == 0x202F || n == 0x205F || n == 0x3000
}

/// The characters of `s`, in order.
pub fn chars_of(s: &str) -> (r: Vec<char>)
    ensures
        r@ == s@,
{
    let mut out: Vec<char> = Vec::new();
    for c in it: s.chars()
        invariant
            out@ == it.seq().take(it.index() as int),
            it.seq() == s@,
    {
        out.push(c);
    }
    out
}

/// How many whitespace characters `s` starts with.
pub open spec fn leading_spaces(s: Seq<char>) -> nat
    decreases s.len(),
{
    if s.len() > 0 && is_space(s[0]) {
        1 + leading_spaces(s.drop_first())
    } else {
        0
    }
}

/// How many whitespace characters `s` ends with.
pub open spec fn trailing_spaces(s: Seq<char>) -> nat
    decreases s.len(),
{
    if s.len() > 0 && is_space(s.last()) {
        1 + trailing_spaces(s.drop_last())
    } else {
        0
    }
}

/// `s` without its leading and trailing whitespace.
pub open spec fn trimmed(s: Seq<char>) -> Seq<char> {
    let rest = s.skip(leading_spaces(s) as int);
    rest.take(rest.len() - trailing_spaces(rest))
}

/// The leading whitespace of `s` is a prefix of it, and what follows does not
/// start with whitespace.
pub proof fn lemma_leading_spaces(s: Seq<char>)
    ensures
        leading_spaces(s) <= s.len(),
        forall|i: int| 0 <= i < leading_spaces(s) ==> is_space(#[trigger] s[i]),
        leading_spaces(s) < s.len() ==> !is_space(s[leading_spaces(s) as int]),
    decreases s.len(),
{
    if s.len() > 0 && is_space(s[0]) {
        let t = s.drop_first();
        lemma_leading_spaces(t);
        assert forall|i: int| 0 <= i < leading_spaces(s) implies is_space(#[trigger] s[i]) by {
            if i > 0 {
                assert(s[i] == t[i - 1]);
            }
        }
        if leading_spaces(s) < s.len() {
            assert(s[leading_spaces(s) as int] == t[leading_spaces(t) as int]);
        }
    }
}

/// The trailing whitespace of `s` is a suffix of it, and what precedes does
/// not end with whitespace.
pub proof fn lemma_trailing_spaces(s: Seq<char>)
    ensures
        trailing_spaces(s) <= s.len(),
        forall|i: int| s.len() - trailing_spaces(s) <= i < s.len() ==> is_space(#[trigger] s[i]),
        trailing_spaces(s) < s.len() ==> !is_space(s[s.len() - trailing_spaces(s) - 1]),
    decreases s.len(),
{
    if s.len() > 0 && is_space(s.last()) {
        let t = s.drop_last();
        lemma_trailing_spaces(t);
        assert forall|i: int| s.len() - trailing_spaces(s) <= i < s.len() implies is_space(
            #[trigger] s[i],
        ) by {
            if i < s.len() - 1 {
                assert(s[i] == t[i]);
            }
        }
        if trailing_spaces(s) < s.len() {
            assert(s[s.len() - trailing_spaces(s) - 1] == t[t.len() - trailing_spaces(t) - 1]);
        }
    }
}

/// Trimming yields a contiguous part of the input that neither starts nor
/// ends with whitespace, and only whitespace is cut away.
pub proof fn lemma_trimmed(s: Seq<char>)
    ensures
        ({
            let a = leading_spaces(s) as int;
            let t = trimmed(s);
            &&& a + t.len() <= s.len()
            &&& t == s.subrange(a, a + t.len())
            &&& t.len() > 0 ==> !is_space(t[0]) && !is_space(t.last())
            &&& forall|i: int| 0 <= i < a ==> is_space(#[trigger] s[i])
            &&& forall|i: int| a + t.len() <= i < s.len() ==> is_space(#[trigger] s[i])
        }),
{
    lemma_leading_spaces(s);
    let a = leading_spaces(s) as int;
    let rest = s.skip(a);
    lemma_trailing_spaces(rest);
    let t = trimmed(s);
    assert(t =~= s.subrange(a, a + t.len()));
    assert forall|i: int| a + t.len() <= i < s.len() implies is_space(#[trigger] s[i]) by {
        assert(s[i] == rest[i - a]);
    }
    if t.len() > 0 {
        assert(t[0] == s[a]);
        assert(t.last() == rest[rest.len() - trailing_spaces(rest) - 1]);
    }
}

/// `s` without leading and trailing whitespace.
pub fn trim(s: &str) -> (r: &str)
    ensures
        r@ == trimmed(s@),
{
    let cs = chars_of(s);
    let n = cs.len();
    let mut a: usize = 0;
    assert(s@.skip(0) =~= s@);
    while a < n && char_is_space(cs[a])
        invariant
            cs@ == s@,
            n == cs.len(),
            a <= n,
            leading_spaces(s@) == a + leading_spaces(s@.skip(a as int)),
        decreases n - a,
    {
        assert(s@.skip(a as int).drop_first() =~= s@.skip(a as int + 1));
        a = a + 1;
    }
    let ghost rest = s@.skip(a as int);
    let mut b: usize = n;
    assert(rest.take(n - a) =~= rest);
    while b > a && char_is_space(cs[b - 1])
        invariant
            cs@ == s@,
            n == cs.len(),
            a <= b <= n,
            rest == s@.skip(a as int),
            trailing_spaces(rest) == (n - b) + trailing_spaces(rest.take(b - a)),
        decreases b,
    {
        assert(rest.take(b - a).drop_last() =~= rest.take(b - a - 1));
        b = b - 1;
    }
    proof {
        assert(leading_spaces(rest) == 0);
        assert(trailing_spaces(rest.take(b - a)) == 0);
        assert(rest.take(b - a) =~= s@.subrange(a as int, b as int));
    }
    s.substring_char(a, b)
}

/// What separates the pieces of a text.
#[derive(Clone, Copy, Debug, PartialEq, Eq)]
pub enum Separator {
    /// Any run of whitespace.
    Whitespace,
    /// A line feed.
    LineFeed,
}

impl Separator {
    /// Whether `c` separates pieces.
    pub open spec fn splits_at(self, c: char) -> bool {
        match self {
            Separator::Whitespace => is_space(c),
            Separator::LineFeed => c == '\n',
        }
    }

    /// Executable test for [`Separator::splits_at`].
    pub fn is_separator(self, c: char) -> (r: bool)
        ensures
            r == self.splits_at(c),
    {
        match self {
            Separator::Whitespace => char_is_space(c),
            Separator::LineFeed => c == '\n',
        }
    }
}

/// `piece` as a one-element list, or nothing when it is empty.
pub open spec fn closed_piece(piece: Seq<char>) -> Seq<Seq<char>> {
    if piece.len() > 0 {
        seq![piece]
    } else {
        Seq::empty()
    }
}

/// The non-empty pieces of `s` between separators, in order, given that
/// `piece` has been read since the last separator.
pub open spec fn pieces_from(s: Seq<char>, piece: Seq<char>, sep: Separator) -> Seq<Seq<char>>
    decreases s.len(),
{
    if s.len() == 0 {
        closed_piece(piece)
    } else if sep.splits_at(s[0]) {
        closed_piece(piece) + pieces_from(s.drop_first(), Seq::empty(), sep)
    } else {
        pieces_from(s.drop_first(), piece.push(s[0]), sep)
    }
}

/// The maximal separator-free, non-empty stretches of `s`, in order.
pub open spec fn pieces(s: Seq<char>, sep: Separator) -> Seq<Seq<char>> {
    pieces_from(s, Seq::empty(), sep)
}

/// The whitespace-separated words of `s`.
pub open spec fn words(s: Seq<char>) -> Seq<Seq<char>> {
    pieces(s, Separator::Whitespace)
}

/// The non-empty lines of `s`.
pub open spec fn lines(s: Seq<char>) -> Seq<Seq<char>> {
    pieces(s, Separator::LineFeed)
}

/// Whether `p` is non-empty and free of separators.
pub open spec fn is_piece(p: Seq<char>, sep: Separator) -> bool {
    &&& p.len() > 0
    &&& forall|j: int| 0 <= j < p.len() ==> !sep.splits_at(#[trigger] p[j])
}

/// Reading on from a separator-free `piece` yields only proper pieces.
pub proof fn lemma_pieces_from(s: Seq<char>, piece: Seq<char>, sep: Separator)
    requires
        forall|j: int| 0 <= j < piece.len() ==> !sep.splits_at(#[trigger] piece[j]),
    ensures
        forall|i: int|
            0 <= i < pieces_from(s, piece, sep).len() ==> is_piece(
                #[trigger] pieces_from(s, piece, sep)[i],
                sep,
            ),
    decreases s.len(),
{
    let all = pieces_from(s, piece, sep);
    if piece.len() > 0 {
        assert(closed_piece(piece)[0] == piece);
        assert(is_piece(piece, sep));
    }
    if s.len() == 0 {
        assert(all == closed_piece(piece));
    } else if sep.splits_at(s[0]) {
        let tail = pieces_from(s.drop_first(), Seq::empty(), sep);
        lemma_pieces_from(s.drop_first(), Seq::empty(), sep);
        assert forall|i: int| 0 <= i < all.len() implies is_piece(#[trigger] all[i], sep) by {
            let head = closed_piece(piece);
            if i >= head.len() {
                assert(all[i] == tail[i - head.len()]);
            } else {
                assert(all[i] == piece);
            }
        }
    } else {
        let longer = piece.push(s[0]);
        assert forall|j: int| 0 <= j < longer.len() implies !sep.splits_at(
            #[trigger] longer[j],
        ) by {
            if j < piece.len() {
                assert(longer[j] == piece[j]);
            }
        }
        lemma_pieces_from(s.drop_first(), longer, sep);
        assert(all == pieces_from(s.drop_first(), longer, sep));
    }
}

/// Every piece of a text is non-empty and free of separators.
pub proof fn lemma_pieces(s: Seq<char>, sep: Separator)
    ensures
        forall|i: int|
            0 <= i < pieces(s, sep).len() ==> is_piece(#[trigger] pieces(s, sep)[i], sep),
{
    lemma_pieces_from(s, Seq::empty(), sep);
}

/// The view of a list of strings: the characters of each.
pub open spec fn texts(v: Seq<String>) -> Seq<Seq<char>> {
    Seq::new(v.len(), |i: int| v[i]@)
}

/// Splits `s` at separators and returns the non-empty pieces in order.
pub fn split(s: &str, sep: Separator) -> (r: Vec<String>)
    ensures
        texts(r@) == pieces(s@, sep),
{
    let cs = chars_of(s);
    let n = cs.len();
    let mut out: Vec<String> = Vec::new();
    let mut start: usize = 0;
    let mut i: usize = 0;
    assert(s@.skip(0) =~= s@);
    assert(s@.subrange(0, 0) =~= Seq::<char>::empty());
    assert(texts(out@) =~= Seq::<Seq<char>>::empty());
    while i < n
        invariant
            cs@ == s@,
            n == cs.len(),
            start <= i <= n,
            pieces(s@, sep) == texts(out@) + pieces_from(
                s@.skip(i as int),
                s@.subrange(start as int, i as int),
                sep,
            ),
        decreases n - i,
    {
        let ghost rest = s@.skip(i as int);
        let ghost piece = s@.subrange(start as int, i as int);
        assert(rest.drop_first() =~= s@.skip(i + 1));
        assert(rest[0] == s@[i as int]);
        if sep.is_separator(cs[i]) {
            let ghost before = texts(out@);
            if start < i {
                let word = String::from_str(s.substring_char(start, i));
                out.push(word);
            }
            assert(texts(out@) =~= before + closed_piece(piece));
            assert(s@.subrange(i + 1, i + 1) =~= Seq::<char>::empty());
            start = i + 1;
        } else {
            assert(piece.push(s@[i as int]) =~= s@.subrange(start as int, i + 1));
        }
        i = i + 1;
    }
    let ghost before = texts(out@);
    let ghost piece = s@.subrange(start as int, n as int);
    if start < n {
        let word = String::from_str(s.substring_char(start, n));
        out.push(word);
    }
    assert(texts(out@) =~= before + closed_piece(piece));
    out
}

/// The whitespace-separated words of `s`, in order.
pub fn split_whitespace(s: &str) -> (r: Vec<String>)
    ensures
        texts(r@) == words(s@),
{
    split(s, Separator::Whitespace)
}

/// The non-empty lines of `s`, in order.
pub fn split_lines(s: &str) -> (r: Vec<String>)
    ensures
        texts(r@) == lines(s@),
{
    split(s, Separator::LineFeed)
}

/// Whether `a` and `b` hold the same characters.
pub fn same_text(a: &str, b: &str) -> (r: bool)
    ensures
        r == (a@ == b@),
{
    String::from_str(a) == String::from_str(b)
}

} // verus!
