//! Character-level helpers for the two text formats: string comparison,
//! decimal parsing, and tokenization on separator classes.

use vstd::prelude::*;

verus! {

/// Compares two string slices character by character.
pub fn str_eq(a: &str, b: &str) -> (r: bool)
    ensures
        r == (a@ == b@),
{
    let a_len: usize = a.unicode_len();
    let b_len: usize = b.unicode_len();
    if a_len != b_len {
        assert(a@ != b@) by {
            assert(a@.len() != b@.len());
        }
        return false;
    }
    let mut i: usize = 0;
    while i < a_len
        invariant
            a_len == a@.len(),
            b_len == b@.len(),
            a_len == b_len,
            i <= a_len,
            forall|j: int| 0 <= j < i ==> a@[j] == b@[j],
        decreases a_len - i,
    {
        if a.get_char(i) != b.get_char(i) {
            return false;
        }
        i = i + 1;
    }
    assert(a@ =~= b@);
    true
}

/// The separator classes of the two file formats.
#[derive(Clone, Copy, Debug, PartialEq, Eq, Structural)]
pub enum SepMode {
    /// The part-and-glyphs side of a catalog line: parenthesis, quote,
    /// comma and space characters are separators.
    Glyphs,
    /// The emotion-and-postures side of a catalog line: colon, bracket,
    /// comma and space characters are separators.
    Names,
    /// A sprite file: whitespace, colon and semicolon are separators.
    Sprite,
    /// A whole catalog file: line breaks are separators, so blank lines
    /// vanish.
    Lines,
}

/// Whether `c` separates tokens under `mode`.
pub open spec fn is_sep(mode: SepMode, c: char) -> bool {
    match mode {
        SepMode::Glyphs => c == '(' || c == '\'' || c == '"' || c == ',' || c == ')' || c == ' ',
        SepMode::Names => c == ':' || c == '[' || c == ',' || c == ']' || c == ' ',
        SepMode::Sprite => c == ' ' || c == '\n' || c == '\t' || c == '\r' || c == ':' || c == ';',
        SepMode::Lines => c == '\n' || c == '\r',
    }
}

/// The tokens of `s[i..]` under `mode`, with `cur` the (possibly empty)
/// token accumulated so far: the maximal runs of non-separator characters.
pub open spec fn tokens_from(s: Seq<char>, i: int, cur: Seq<char>, mode: SepMode) -> Seq<Seq<char>>
    decreases s.len() - i,
{
    if i < 0 || i >= s.len() {
        if cur.len() > 0 {
            seq![cur]
        } else {
            Seq::empty()
        }
    } else if is_sep(mode, s[i]) {
        if cur.len() > 0 {
            seq![cur] + tokens_from(s, i + 1, Seq::empty(), mode)
        } else {
            tokens_from(s, i + 1, Seq::empty(), mode)
        }
    } else {
        tokens_from(s, i + 1, cur.push(s[i]), mode)
    }
}

/// The tokens of `s` under `mode`: the maximal non-empty runs of
/// non-separator characters, in order.
pub open spec fn tokens(s: Seq<char>, mode: SepMode) -> Seq<Seq<char>> {
    tokens_from(s, 0, Seq::empty(), mode)
}

/// Splits `s` into its tokens under `mode`.
pub fn tokenize<'a>(s: &'a str, mode: SepMode) -> (r: Vec<&'a str>)
    ensures
        r@.len() == tokens(s@, mode).len(),
        forall|k: int| 0 <= k < r@.len() ==> (#[trigger] r@[k])@ == tokens(s@, mode)[k],
{
    let len = s.unicode_len();
    let mut r: Vec<&'a str> = Vec::new();
    let mut i: usize = 0;
    let mut start: usize = 0;
    proof {
        assert(s@.subrange(0, 0) =~= Seq::<char>::empty());
        assert(r@.map_values(|t: &str| t@) =~= Seq::<Seq<char>>::empty());
        assert(Seq::<Seq<char>>::empty() + tokens_from(s@, 0, Seq::<char>::empty(), mode)
            =~= tokens_from(s@, 0, Seq::<char>::empty(), mode));
    }
    while i < len
        invariant
            len == s@.len(),
            start <= i <= len,
            s@.subrange(start as int, i as int).len() == i - start,
            tokens(s@, mode) == r@.map_values(|t: &str| t@) + tokens_from(
                s@,
                i as int,
                s@.subrange(start as int, i as int),
                mode,
            ),
            forall|j: int| start <= j < i ==> !is_sep(mode, s@[j]),
        decreases len - i,
    {
        let c = s.get_char(i);
        let sep = match mode {
            SepMode::Glyphs => c == '(' || c == '\'' || c == '"' || c == ',' || c == ')' || c
                == ' ',
            SepMode::Names => c == ':' || c == '[' || c == ',' || c == ']' || c == ' ',
            SepMode::Sprite => c == ' ' || c == '\n' || c == '\t' || c == '\r' || c == ':' || c
                == ';',
            SepMode::Lines => c == '\n' || c == '\r',
        };
        if sep {
            if start < i {
                let tok = s.substring_char(start, i);
                r.push(tok);
                proof {
                    let m_old = r@.subrange(0, r@.len() - 1).map_values(|t: &str| t@);
                    assert(r@.map_values(|t: &str| t@) =~= m_old.push(tok@));
                    assert(m_old + (seq![tok@] + tokens_from(
                        s@,
                        i + 1 as int,
                        Seq::<char>::empty(),
                        mode,
                    )) =~= m_old.push(tok@) + tokens_from(
                        s@,
                        i + 1 as int,
                        Seq::<char>::empty(),
                        mode,
                    ));
                }
            }
            start = i + 1;
            proof {
                assert(s@.subrange(start as int, start as int) =~= Seq::<char>::empty());
            }
        } else {
            proof {
                assert(s@.subrange(start as int, i + 1 as int) =~= s@.subrange(
                    start as int,
                    i as int,
                ).push(s@[i as int]));
            }
        }
        i = i + 1;
        proof {
            assert(s@.subrange(start as int, i as int).len() == i - start);
        }
    }
    if start < len {
        let tok = s.substring_char(start, len);
        r.push(tok);
        proof {
            assert(r@.map_values(|t: &str| t@) =~= r@.subrange(0, r@.len() - 1).map_values(
                |t: &str| t@,
            ).push(tok@));
        }
    }
    proof {
        assert(r@.map_values(|t: &str| t@) + Seq::<Seq<char>>::empty() =~= r@.map_values(
            |t: &str| t@,
        ));
        assert forall|k: int| 0 <= k < r@.len() implies (#[trigger] r@[k])@ == tokens(s@, mode)[k] by {
            assert(r@.map_values(|t: &str| t@)[k] == r@[k]@);
        }
    }
    r
}

/// Some character of `s` is `c`.
pub open spec fn str_has_char(s: Seq<char>, c: char) -> bool {
    exists|i: int| 0 <= i < s.len() && s[i] == c
}

/// `i` is the first position of `c` in `s`.
pub open spec fn str_char_at(s: Seq<char>, c: char, i: int) -> bool {
    &&& 0 <= i < s.len()
    &&& s[i] == c
    &&& forall|j: int| 0 <= j < i ==> s[j] != c
}

/// The first position of `c` in `s`, if any.
pub fn find_first_char(s: &str, c: char) -> (r: Option<usize>)
    ensures
        match r {
            Some(i) => str_char_at(s@, c, i as int),
            None => !str_has_char(s@, c),
        },
{
    let len = s.unicode_len();
    let mut k: usize = 0;
    while k < len
        invariant
            k <= len,
            len == s@.len(),
            forall|j: int| 0 <= j < k ==> s@[j] != c,
        decreases len - k,
    {
        if s.get_char(k) == c {
            return Some(k);
        }
        k = k + 1;
    }
    None
}

/// True for the ten decimal digit characters.
pub open spec fn is_digit(c: char) -> bool {
    0x30 <= c as u32 <= 0x39
}

/// `s` is a non-empty run of decimal digits.
pub open spec fn all_digits(s: Seq<char>) -> bool {
    s.len() > 0 && forall|i: int| 0 <= i < s.len() ==> is_digit(#[trigger] s[i])
}

/// The value of a run of decimal digits.
pub open spec fn digits_val(s: Seq<char>) -> int
    decreases s.len(),
{
    if s.len() == 0 {
        0
    } else {
        digits_val(s.drop_last()) * 10 + (s.last() as u32 - 0x30)
    }
}

pub proof fn lemma_digits_val_nonneg(s: Seq<char>)
    requires
        forall|i: int| 0 <= i < s.len() ==> is_digit(#[trigger] s[i]),
    ensures
        digits_val(s) >= 0,
    decreases s.len(),
{
    if s.len() > 0 {
        lemma_digits_val_nonneg(s.drop_last());
    }
}

/// A digit run is worth at least any of its prefixes.
pub proof fn lemma_digits_val_prefix(s: Seq<char>, k: int)
    requires
        forall|i: int| 0 <= i < s.len() ==> is_digit(#[trigger] s[i]),
        0 <= k <= s.len(),
    ensures
        digits_val(s.take(k)) <= digits_val(s),
    decreases s.len(),
{
    if k == s.len() {
        assert(s.take(k) =~= s);
    } else {
        assert(s.take(k) =~= s.drop_last().take(k));
        lemma_digits_val_prefix(s.drop_last(), k);
        lemma_digits_val_nonneg(s.drop_last());
    }
}

/// The number a token denotes: an optional leading minus sign, then
/// decimal digits, within the `i64` range.
pub open spec fn parse_i64_spec(s: Seq<char>) -> Option<int> {
    if s.len() > 0 && s[0] == '-' {
        if all_digits(s.skip(1)) && -digits_val(s.skip(1)) >= i64::MIN {
            Some(-digits_val(s.skip(1)))
        } else {
            None
        }
    } else if all_digits(s) && digits_val(s) <= i64::MAX {
        Some(digits_val(s))
    } else {
        None
    }
}

/// Reads the non-empty digit run `s[from..]` into a magnitude, or `None`
/// past `u64::MAX`.
fn parse_digits(s: &str, from: usize) -> (r: Option<u64>)
    requires
        from <= s@.len(),
    ensures
        match r {
            Some(v) => all_digits(s@.skip(from as int)) && v == digits_val(s@.skip(from as int)),
            None => !(all_digits(s@.skip(from as int)) && digits_val(s@.skip(from as int))
                <= u64::MAX),
        },
{
    let len = s.unicode_len();
    let ghost digits = s@.skip(from as int);
    if from == len {
        return None;
    }
    let mut acc: u64 = 0;
    let mut i: usize = from;
    while i < len
        invariant
            from <= i <= len,
            len == s@.len(),
            from < len,
            digits == s@.skip(from as int),
            forall|j: int| 0 <= j < i - from ==> is_digit(#[trigger] digits[j]),
            acc == digits_val(digits.take(i - from)),
        decreases len - i,
    {
        let c = s.get_char(i);
        let code: u32 = c as u32;
        proof {
            assert(digits[i - from] == s@[i as int]);
        }
        if code < 0x30 || code > 0x39 {
            return None;
        }
        let d: u64 = (code - 0x30) as u64;
        proof {
            assert(digits.take(i + 1 - from).drop_last() =~= digits.take(i - from));
            assert(digits.take(i + 1 - from).last() == digits[i - from]);
        }
        let next = match acc.checked_mul(10) {
            Some(m) => m.checked_add(d),
            None => None,
        };
        match next {
            Some(v) => {
                acc = v;
            },
            None => {
                proof {
                    let taken = i + 1 - from;
                    assert(digits_val(digits.take(taken)) > u64::MAX);
                    if all_digits(digits) {
                        lemma_digits_val_prefix(digits, taken);
                    }
                }
                return None;
            },
        }
        i = i + 1;
    }
    proof {
        assert(digits.take(len - from) =~= digits);
    }
    Some(acc)
}

/// Parses a token as a signed 64-bit decimal number: an optional leading
/// minus sign, then digits; anything else, or a value out of range, is
/// `None`.
pub fn parse_i64(s: &str) -> (r: Option<i64>)
    ensures
        match r {
            Some(v) => parse_i64_spec(s@) == Some(v as int),
            None => parse_i64_spec(s@) is None,
        },
{
    let len = s.unicode_len();
    if len == 0 {
        return None;
    }
    if s.get_char(0) == '-' {
        match parse_digits(s, 1) {
            Some(m) => {
                proof {
                    lemma_digits_val_nonneg(s@.skip(1));
                }
                if m <= 0x8000_0000_0000_0000u64 {
                    if m == 0x8000_0000_0000_0000u64 {
                        Some(i64::MIN)
                    } else {
                        Some(-(m as i64))
                    }
                } else {
                    None
                }
            },
            None => {
                proof {
                    if all_digits(s@.skip(1)) && -digits_val(s@.skip(1)) >= i64::MIN {
                        assert(digits_val(s@.skip(1)) <= 0x8000_0000_0000_0000 <= u64::MAX);
                    }
                }
                None
            },
        }
    } else {
        match parse_digits(s, 0) {
            Some(m) => {
                proof {
                    assert(s@.skip(0) =~= s@);
                    lemma_digits_val_nonneg(s@);
                }
                if m <= 0x7fff_ffff_ffff_ffffu64 {
                    Some(m as i64)
                } else {
                    None
                }
            },
            None => {
                proof {
                    assert(s@.skip(0) =~= s@);
                    if all_digits(s@) && digits_val(s@) <= i64::MAX {
                        assert(digits_val(s@) <= u64::MAX);
                    }
                }
                None
            },
        }
    }
}

} // verus!
