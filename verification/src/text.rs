//! Text helpers: the spec-level names for case folding and whitespace,
//! thin trusted wrappers over std's string operations, and verified
//! helpers (substring matching, blank tests, line splitting) that the
//! reducer's contracts are stated over.

use vstd::prelude::*;
use vstd::string::StrSliceExecFns;
use vstd::string::StringExecFns;

verus! {

/// The character sequence that `str::to_lowercase` returns for `s`.
pub uninterp spec fn lower_of(s: Seq<char>) -> Seq<char>;

/// Whether `char::is_whitespace` holds of `c`.
pub uninterp spec fn is_ws(c: char) -> bool;

/// Relies on str::to_lowercase: the result depends on the characters
/// alone, and an empty string stays empty.
#[verifier::external_body]
pub(crate) fn lowercase(s: &str) -> (r: String)
    ensures
        r@ == lower_of(s@),
        s@.len() == 0 ==> r@.len() == 0,
{
    s.to_lowercase()
}

/// Relies on char::is_whitespace: the result depends on the character alone.
#[verifier::external_body]
pub(crate) fn is_ws_char(c: char) -> (r: bool)
    ensures
        r == is_ws(c),
{
    c.is_whitespace()
}

/// `needle` occurs contiguously inside `hay`.
pub open spec fn is_substring(needle: Seq<char>, hay: Seq<char>) -> bool {
    exists|i: int|
        0 <= i && i + needle.len() <= hay.len() && #[trigger] hay.subrange(i, i + needle.len())
            == needle
}

/// Relies on str::contains: true iff the pattern matches a sub-slice of
/// the string (for valid UTF-8, sub-slices align with character
/// boundaries, so this is containment of the character sequence).
#[verifier::external_body]
pub(crate) fn contains_substr(hay: &str, needle: &str) -> (r: bool)
    ensures
        r == is_substring(needle@, hay@),
{
    hay.contains(needle)
}

/// Relies on str's PartialEq: two slices are equal iff they hold the
/// same characters.
#[verifier::external_body]
pub(crate) fn str_eq(a: &str, b: &str) -> (r: bool)
    ensures
        r == (a@ == b@),
{
    a == b
}

/// Relies on String::push: appends exactly one character.
#[verifier::external_body]
pub(crate) fn push_char(s: &mut String, c: char)
    ensures
        final(s)@ == old(s)@.push(c),
{
    s.push(c);
}

/// Relies on String::pop: removes and returns the last character, if any.
#[verifier::external_body]
pub(crate) fn pop_char(s: &mut String) -> (r: Option<char>)
    ensures
        old(s)@.len() == 0 ==> final(s)@ == old(s)@ && r is None,
        old(s)@.len() > 0 ==> final(s)@ == old(s)@.drop_last() && r == Some(old(s)@.last()),
{
    s.pop()
}

/// Every character of `s` is whitespace (true of the empty sequence).
pub open spec fn blank(s: Seq<char>) -> bool {
    forall|i: int| 0 <= i < s.len() ==> is_ws(s[i])
}

/// Whether `s` consists of whitespace only.
pub(crate) fn is_blank(s: &str) -> (r: bool)
    ensures
        r == blank(s@),
{
    let n = s.unicode_len();
    let mut j: usize = 0;
    while j < n
        invariant
            n == s@.len(),
            j <= n,
            forall|i: int| 0 <= i < j ==> is_ws(s@[i]),
        decreases n - j,
    {
        if !is_ws_char(s.get_char(j)) {
            return false;
        }
        j += 1;
    }
    true
}

/// The concatenation of two string slices.
pub(crate) fn concat2(a: &str, b: &str) -> (r: String)
    ensures
        r@ == a@ + b@,
{
    let mut s = a.to_owned();
    s.append(b);
    s
}

/// The concatenation of three string slices.
pub(crate) fn concat3(a: &str, b: &str, c: &str) -> (r: String)
    ensures
        r@ == a@ + b@ + c@,
{
    let mut s = a.to_owned();
    s.append(b);
    s.append(c);
    s
}

/// Index of the first occurrence of `c` in `s`, or `s.len()` if there
/// is none.
pub open spec fn find_char(s: Seq<char>, c: char) -> nat
    decreases s.len(),
{
    if s.len() == 0 {
        0
    } else if s[0] == c {
        0
    } else {
        1 + find_char(s.skip(1), c)
    }
}

pub proof fn lemma_find_char(s: Seq<char>, c: char)
    ensures
        find_char(s, c) <= s.len(),
        find_char(s, c) < s.len() ==> s[find_char(s, c) as int] == c,
        forall|i: int| 0 <= i < find_char(s, c) ==> s[i] != c,
    decreases s.len(),
{
    if s.len() == 0 {
    } else if s[0] == c {
    } else {
        lemma_find_char(s.skip(1), c);
        assert forall|i: int| 0 <= i < find_char(s, c) implies s[i] != c by {
            if i > 0 {
                assert(s.skip(1)[i - 1] == s[i]);
            }
        }
    }
}

/// A line with a trailing carriage return removed.
pub open spec fn strip_cr(l: Seq<char>) -> Seq<char> {
    if l.len() > 0 && l.last() == '\r' {
        l.drop_last()
    } else {
        l
    }
}

/// The lines of `s`, split at `\n` with an optional preceding `\r`
/// removed, the final newline optional (as `str::lines` splits).
pub open spec fn split_lines(s: Seq<char>) -> Seq<Seq<char>>
    decreases s.len(),
{
    if s.len() == 0 {
        Seq::empty()
    } else {
        let k = find_char(s, '\n') as int;
        if k >= s.len() {
            seq![strip_cr(s)]
        } else {
            seq![strip_cr(s.take(k))] + split_lines(s.skip(k + 1))
        }
    }
}

/// Splits `s` into its lines.
pub(crate) fn split_into_lines(s: &str) -> (r: Vec<String>)
    ensures
        r.deep_view() == split_lines(s@),
{
    let n = s.unicode_len();
    let mut out: Vec<String> = Vec::new();
    let mut start: usize = 0;
    proof {
        assert(out.deep_view() =~= Seq::<Seq<char>>::empty());
        assert(s@.skip(0) =~= s@);
        assert(Seq::<Seq<char>>::empty() + split_lines(s@) =~= split_lines(s@));
    }
    while start < n
        invariant
            n == s@.len(),
            start <= n,
            out.deep_view() + split_lines(s@.skip(start as int)) == split_lines(s@),
        decreases n - start,
    {
        let ghost rest = s@.skip(start as int);
        let mut j = start;
        while j < n && s.get_char(j) != '\n'
            invariant
                n == s@.len(),
                start <= j <= n,
                forall|i: int| start <= i < j ==> s@[i] != '\n',
            decreases n - j,
        {
            j += 1;
        }
        proof {
            lemma_find_char(rest, '\n');
            assert forall|i: int| 0 <= i < j - start implies rest[i] != '\n' by {
                assert(rest[i] == s@[start + i]);
            }
            if j < n {
                assert(rest[j - start] == s@[j as int]);
            }
            assert(find_char(rest, '\n') == (j - start) as nat);
        }
        let piece = if j > start && s.get_char(j - 1) == '\r' {
            s.substring_char(start, j - 1)
        } else {
            s.substring_char(start, j)
        };
        proof {
            let k = (j - start) as int;
            if k >= rest.len() {
                assert(strip_cr(rest) =~= piece@);
            } else {
                assert(rest.take(k) =~= s@.subrange(start as int, j as int));
                assert(strip_cr(rest.take(k)) =~= piece@);
            }
        }
        let owned = piece.to_owned();
        out.push(owned);
        proof {
            let k = (j - start) as int;
            if k < rest.len() {
                assert(rest.skip(k + 1) =~= s@.skip(j + 1));
                assert(split_lines(rest) == seq![piece@] + split_lines(s@.skip(j + 1)));
            } else {
                assert(split_lines(rest) == seq![piece@]);
                assert(s@.skip(n as int) =~= Seq::<char>::empty());
            }
            assert(out.deep_view() =~= out.deep_view().drop_last().push(piece@));
        }
        if j >= n {
            start = n;
            proof {
                assert(out.deep_view() + split_lines(s@.skip(n as int)) =~= out.deep_view());
                assert(out.deep_view() =~= out.deep_view().drop_last() + seq![piece@]);
            }
        } else {
            proof {
                assert(out.deep_view() =~= out.deep_view().drop_last() + seq![piece@]);
                assert((out.deep_view().drop_last() + seq![piece@]) + split_lines(s@.skip(j + 1))
                    =~= out.deep_view().drop_last() + (seq![piece@] + split_lines(s@.skip(
                    j + 1,
                ))));
            }
            start = j + 1;
        }
    }
    proof {
        assert(s@.skip(start as int) =~= Seq::<char>::empty());
        assert(split_lines(s@.skip(start as int)) =~= Seq::<Seq<char>>::empty());
        assert(out.deep_view() + Seq::<Seq<char>>::empty() =~= out.deep_view());
    }
    out
}

} // verus!
