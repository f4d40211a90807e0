//! The format-string scanner.
//!
//! [`StrftimeItems`] splits a strftime-like format string into a finite
//! sequence of display [`Item`]s in a single left-to-right pass: a `%`
//! followed by a specifier becomes a fixed field (only `%A`, the long weekday
//! name, is recognised; any other specifier, or a `%` at the end of the
//! input, becomes an in-band [`Item::Error`]), a maximal run of whitespace
//! becomes one [`Item::Space`], and a maximal run of other characters free of
//! `%` and whitespace becomes one [`Item::Literal`]. After an unrecognised
//! specifier the scan continues right behind the specifier character.

use vstd::prelude::*;

verus! {

/// Fixed-format item types.
#[derive(Copy, Clone, PartialEq, Eq, Debug)]
pub enum Fixed {
    /// The full name of the day of the week.
    LongWeekdayName,
}

/// One display item of a scanned format string.
#[derive(Copy, Clone, PartialEq, Eq, Debug)]
pub enum Item<'a> {
    /// A literally printed text.
    Literal(&'a str),
    /// Whitespace.
    Space(&'a str),
    /// A field substituted from the date.
    Fixed(Fixed),
    /// Issues a formatting error. Used to signal an invalid format string.
    Error,
}

/// The mathematical shape of an [`Item`]: its text as a sequence of
/// characters.
pub enum Tok {
    /// A literally printed text.
    Literal(Seq<char>),
    /// Whitespace.
    Space(Seq<char>),
    /// A field substituted from the date.
    Fixed(Fixed),
    /// A formatting error.
    Error,
}

impl<'a> View for Item<'a> {
    type V = Tok;

    open spec fn view(&self) -> Tok {
        match *self {
            Item::Literal(s) => Tok::Literal(s@),
            Item::Space(s) => Tok::Space(s@),
            Item::Fixed(f) => Tok::Fixed(f),
            Item::Error => Tok::Error,
        }
    }
}

/// The Unicode `White_Space` characters.
pub open spec fn spec_is_space(c: char) -> bool {
    ||| c == ' '
    ||| ('\u{09}' <= c && c <= '\u{0D}')
    ||| c == '\u{85}'
    ||| c == '\u{A0}'
    ||| c == '\u{1680}'
    ||| ('\u{2000}' <= c && c <= '\u{200A}')
    ||| c == '\u{2028}'
    ||| c == '\u{2029}'
    ||| c == '\u{202F}'
    ||| c == '\u{205F}'
    ||| c == '\u{3000}'
}

/// Decides whether `c` is a whitespace character.
pub fn is_space(c: char) -> (r: bool)
    ensures
        r == spec_is_space(c),
{
    c == ' ' || ('\u{09}' <= c && c <= '\u{0D}') || c == '\u{85}' || c == '\u{A0}'
        || c == '\u{1680}' || ('\u{2000}' <= c && c <= '\u{200A}') || c == '\u{2028}'
        || c == '\u{2029}' || c == '\u{202F}' || c == '\u{205F}' || c == '\u{3000}'
}

/// Length of the maximal whitespace run at the front of `s`.
pub open spec fn space_run(s: Seq<char>) -> int
    decreases s.len(),
{
    if s.len() == 0 || !spec_is_space(s[0]) {
        0
    } else {
        1 + space_run(s.skip(1))
    }
}

/// Length of the maximal run at the front of `s` free of `%` and whitespace.
pub open spec fn literal_run(s: Seq<char>) -> int
    decreases s.len(),
{
    if s.len() == 0 || spec_is_space(s[0]) || s[0] == '%' {
        0
    } else {
        1 + literal_run(s.skip(1))
    }
}

/// The item that one scanning step takes from the front of `s`, and the
/// number of characters the step consumes; `None` when `s` is empty.
pub open spec fn spec_scan(s: Seq<char>) -> Option<(Tok, int)> {
    if s.len() == 0 {
        None
    } else if s[0] == '%' {
        if s.len() == 1 {
            Some((Tok::Error, 1))
        } else if s[1] == 'A' {
            Some((Tok::Fixed(Fixed::LongWeekdayName), 2))
        } else {
            Some((Tok::Error, 2))
        }
    } else if spec_is_space(s[0]) {
        Some((Tok::Space(s.take(space_run(s))), space_run(s)))
    } else {
        Some((Tok::Literal(s.take(literal_run(s))), literal_run(s)))
    }
}

/// A cursor over a format string that hands out one [`Item`] per pull.
#[derive(Clone, Debug)]
pub struct StrftimeItems<'a> {
    /// The full input.
    s: &'a str,
    /// Characters before this position have been consumed.
    pos: usize,
}

impl<'a> StrftimeItems<'a> {
    /// The cursor position lies inside the input.
    pub closed spec fn wf(&self) -> bool {
        self.pos <= self.s@.len()
    }

    /// The characters not yet consumed.
    pub closed spec fn remaining(&self) -> Seq<char> {
        self.s@.skip(self.pos as int)
    }

    /// A fresh scanner over `s`, positioned at its first character.
    pub fn new(s: &'a str) -> (r: StrftimeItems<'a>)
        ensures
            r.wf(),
            r.remaining() == s@,
    {
        proof {
            assert(s@.skip(0) =~= s@);
        }
        StrftimeItems { s, pos: 0 }
    }

    /// Takes the next item off the front of the remaining input, or `None`
    /// when the input is exhausted.
    pub fn next(&mut self) -> (r: Option<Item<'a>>)
        requires
            old(self).wf(),
        ensures
            final(self).wf(),
            match spec_scan(old(self).remaining()) {
                None => r is None && final(self).remaining() == old(self).remaining(),
                Some((tok, consumed)) => {
                    &&& r matches Some(item) && item@ == tok
                    &&& final(self).remaining() == old(self).remaining().skip(consumed)
                },
            },
    {
        let ghost rem = self.remaining();
        let ghost start0 = self.pos as int;
        let n = self.s.unicode_len();
        if self.pos >= n {
            return None;
        }
        assert(rem[0] == self.s@[start0]);
        let c = self.s.get_char(self.pos);
        if c == '%' {
            if self.pos + 1 >= n {
                // A trailing `%` with no specifier: consume it and report the
                // premature end of the string.
                self.pos = n;
                proof {
                    assert(self.remaining() =~= rem.skip(1));
                }
                return Some(Item::Error);
            }
            let spec_char = self.s.get_char(self.pos + 1);
            self.pos = self.pos + 2;
            proof {
                assert(rem[1] == self.s@[start0 + 1]);
                assert(self.remaining() =~= rem.skip(2));
            }
            if spec_char == 'A' {
                return Some(Item::Fixed(Fixed::LongWeekdayName));
            }
            return Some(Item::Error);
        }
        if is_space(c) {
            let start = self.pos;
            let mut p = self.pos;
            while p < n && space_at(self.s, p)
                invariant
                    self.s@.len() == n,
                    start <= p <= n,
                    forall|j: int| start <= j < p ==> spec_is_space(self.s@[j]),
                decreases n - p,
            {
                p = p + 1;
            }
            let text = self.s.substring_char(start, p);
            self.pos = p;
            proof {
                assert forall|j: int| 0 <= j < p - start implies spec_is_space(rem[j]) by {
                    assert(rem[j] == self.s@[start + j]);
                }
                if p - start < rem.len() {
                    assert(rem[p - start] == self.s@[p as int]);
                }
                lemma_space_run_exact(rem, p - start);
                assert(text@ =~= rem.take(p - start));
                assert(self.remaining() =~= rem.skip(p - start));
            }
            return Some(Item::Space(text));
        }
        let start = self.pos;
        let mut p = self.pos;
        while p < n && literal_at(self.s, p)
            invariant
                self.s@.len() == n,
                start <= p <= n,
                forall|j: int| start <= j < p ==> !spec_is_space(self.s@[j]) && self.s@[j] != '%',
            decreases n - p,
        {
            p = p + 1;
        }
        let text = self.s.substring_char(start, p);
        self.pos = p;
        proof {
            assert forall|j: int| 0 <= j < p - start implies !spec_is_space(rem[j]) && rem[j]
                != '%' by {
                assert(rem[j] == self.s@[start + j]);
            }
            if p - start < rem.len() {
                assert(rem[p - start] == self.s@[p as int]);
            }
            lemma_literal_run_exact(rem, p - start);
            assert(text@ =~= rem.take(p - start));
            assert(self.remaining() =~= rem.skip(p - start));
        }
        Some(Item::Literal(text))
    }
}

/// The character at position `i` of `s` is whitespace.
fn space_at(s: &str, i: usize) -> (r: bool)
    requires
        i < s@.len(),
    ensures
        r == spec_is_space(s@[i as int]),
{
    is_space(s.get_char(i))
}

/// The character at position `i` of `s` belongs to a literal run: it is
/// neither whitespace nor `%`.
fn literal_at(s: &str, i: usize) -> (r: bool)
    requires
        i < s@.len(),
    ensures
        r == (!spec_is_space(s@[i as int]) && s@[i as int] != '%'),
{
    let c = s.get_char(i);
    !is_space(c) && c != '%'
}

/// A scanning step on a non-empty input consumes at least one and at most
/// all of its characters: a scanner makes progress on every pull, and the
/// item sequence of a format string is finite.
pub proof fn lemma_scan_progress(s: Seq<char>)
    requires
        s.len() > 0,
    ensures
        spec_scan(s) matches Some(step) && 1 <= step.1 <= s.len(),
{
    if s[0] == '%' {
    } else if spec_is_space(s[0]) {
        lemma_space_run_bounds(s.skip(1));
    } else {
        lemma_literal_run_bounds(s.skip(1));
    }
}

/// The whitespace run at the front of `s` lies inside `s`.
proof fn lemma_space_run_bounds(s: Seq<char>)
    ensures
        0 <= space_run(s) <= s.len(),
    decreases s.len(),
{
    if s.len() != 0 && spec_is_space(s[0]) {
        lemma_space_run_bounds(s.skip(1));
    }
}

/// The literal run at the front of `s` lies inside `s`.
proof fn lemma_literal_run_bounds(s: Seq<char>)
    ensures
        0 <= literal_run(s) <= s.len(),
    decreases s.len(),
{
    if s.len() != 0 && !spec_is_space(s[0]) && s[0] != '%' {
        lemma_literal_run_bounds(s.skip(1));
    }
}

/// A run of `k` whitespace characters that is either closed off by a
/// non-whitespace character or reaches the end of `s` is the maximal one.
proof fn lemma_space_run_exact(s: Seq<char>, k: int)
    requires
        0 <= k <= s.len(),
        forall|j: int| 0 <= j < k ==> spec_is_space(s[j]),
        k == s.len() || !spec_is_space(s[k]),
    ensures
        space_run(s) == k,
    decreases k,
{
    if k == 0 {
    } else {
        let t = s.skip(1);
        assert(spec_is_space(s[0]));
        assert forall|j: int| 0 <= j < k - 1 implies spec_is_space(t[j]) by {
            assert(t[j] == s[j + 1]);
        }
        if k < s.len() {
            assert(t[k - 1] == s[k]);
        }
        lemma_space_run_exact(t, k - 1);
    }
}

/// A run of `k` characters free of `%` and whitespace that is either closed
/// off or reaches the end of `s` is the maximal one.
proof fn lemma_literal_run_exact(s: Seq<char>, k: int)
    requires
        0 <= k <= s.len(),
        forall|j: int| 0 <= j < k ==> !spec_is_space(s[j]) && s[j] != '%',
        k == s.len() || spec_is_space(s[k]) || s[k] == '%',
    ensures
        literal_run(s) == k,
    decreases k,
{
    if k == 0 {
    } else {
        let t = s.skip(1);
        assert forall|j: int| 0 <= j < k - 1 implies !spec_is_space(t[j]) && t[j] != '%' by {
            assert(t[j] == s[j + 1]);
        }
        if k < s.len() {
            assert(t[k - 1] == s[k]);
        }
        lemma_literal_run_exact(t, k - 1);
    }
}

} // verus!
