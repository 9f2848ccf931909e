//! The size of the terminal in pixels: reading the terminal's answer to the
//! question for it, and the size of one cell.

use vstd::prelude::*;

verus! {

/// What is sent to the terminal to ask for its size in pixels.
pub const SIZE_QUERY: &'static str = "\x1b[14t";

pub open spec fn is_digit(b: u8) -> bool {
    0x30 <= b <= 0x39
}

/// A field of the answer ends at a semicolon or at the closing `t`.
pub open spec fn is_separator(b: u8) -> bool {
    b == 0x3b || b == 0x74
}

pub open spec fn all_digits(s: Seq<u8>) -> bool {
    forall|i: int| 0 <= i < s.len() ==> is_digit(#[trigger] s[i])
}

/// The number that decimal digits stand for.
pub open spec fn digits_value(s: Seq<u8>) -> nat
    decreases s.len(),
{
    if s.len() == 0 {
        0
    } else {
        digits_value(s.drop_last()) * 10 + (s.last() - 0x30) as nat
    }
}

/// The number below 65536 that a field stands for: decimal digits, at least
/// one, which a plus sign may precede.
pub open spec fn field_value(s: Seq<u8>) -> Option<u16> {
    let digits = if s.len() > 0 && s[0] == 0x2b {
        s.skip(1)
    } else {
        s
    };
    if digits.len() > 0 && all_digits(digits) && digits_value(digits) <= u16::MAX {
        Some(digits_value(digits) as u16)
    } else {
        None
    }
}

/// Where the answer's opening ends: after every `ESC [ 4` from `i` on.
pub open spec fn intro_end(b: Seq<u8>, i: int) -> int
    decreases b.len() - i,
{
    if 0 <= i && i + 3 <= b.len() && b[i] == 0x1b && b[i + 1] == 0x5b && b[i + 2] == 0x34 {
        intro_end(b, i + 3)
    } else {
        i
    }
}

/// Where the semicolons from `i` on end.
pub open spec fn semis_end(b: Seq<u8>, i: int) -> int
    decreases b.len() - i,
{
    if 0 <= i < b.len() && b[i] == 0x3b {
        semis_end(b, i + 1)
    } else {
        i
    }
}

/// Where the field that starts at `i` ends.
pub open spec fn field_end(b: Seq<u8>, i: int) -> int
    decreases b.len() - i,
{
    if 0 <= i < b.len() && !is_separator(b[i]) {
        field_end(b, i + 1)
    } else {
        i
    }
}

/// Why an answer gives no size.
#[derive(Clone, Copy, Debug, PartialEq, Eq, Structural)]
pub enum SizeError {
    /// There are no two fields.
    Unparseable,
    /// The height is no number below 65536.
    BadHeight,
    /// The width is no number below 65536.
    BadWidth,
}

/// Width and height that an answer of the terminal gives. The answer reads
/// `ESC [ 4 ; height ; width t`: after the opening and the semicolons that
/// follow it come the height, a separator, and the width.
pub open spec fn size_in(b: Seq<u8>) -> Result<(u16, u16), SizeError> {
    let h_start = semis_end(b, intro_end(b, 0));
    let h_end = field_end(b, h_start);
    if h_end >= b.len() {
        Err(SizeError::Unparseable)
    } else {
        let w_end = field_end(b, h_end + 1);
        match field_value(b.subrange(h_start, h_end)) {
            None => Err(SizeError::BadHeight),
            Some(h) => match field_value(b.subrange(h_end + 1, w_end)) {
                None => Err(SizeError::BadWidth),
                Some(w) => Ok((w, h)),
            },
        }
    }
}

/// `n` in decimal digits, without leading zeros.
pub open spec fn decimal_bytes(n: nat) -> Seq<u8>
    decreases n,
{
    if n < 10 {
        seq![(0x30 + n) as u8]
    } else {
        decimal_bytes(n / 10).push((0x30 + n % 10) as u8)
    }
}

/// The answer of a terminal that is `h` pixels high and `w` pixels wide, up
/// to its closing `t`.
pub open spec fn size_answer(h: u16, w: u16) -> Seq<u8> {
    seq![0x1bu8, 0x5bu8, 0x34u8, 0x3bu8] + decimal_bytes(h as nat) + seq![0x3bu8] + decimal_bytes(
        w as nat,
    )
}

proof fn lemma_decimal_bytes(n: nat)
    ensures
        decimal_bytes(n).len() > 0,
        all_digits(decimal_bytes(n)),
        digits_value(decimal_bytes(n)) == n,
    decreases n,
{
    let d = decimal_bytes(n);
    if n < 10 {
        assert(d.drop_last() =~= Seq::<u8>::empty());
        assert(digits_value(d.drop_last()) == 0);
    } else {
        lemma_decimal_bytes(n / 10);
        let rest = decimal_bytes(n / 10);
        assert(d.drop_last() =~= rest);
        assert forall|i: int| 0 <= i < d.len() implies is_digit(#[trigger] d[i]) by {
            if i < rest.len() {
                assert(d[i] == rest[i]);
            }
        }
    }
}

proof fn lemma_field_ends_at(b: Seq<u8>, i: int, j: int)
    requires
        0 <= i <= j <= b.len(),
        forall|t: int| i <= t < j ==> !is_separator(#[trigger] b[t]),
        j == b.len() || is_separator(b[j]),
    ensures
        field_end(b, i) == j,
    decreases j - i,
{
    if i < j {
        lemma_field_ends_at(b, i + 1, j);
    }
}

/// The answer of a terminal reads back as its width and height, with or
/// without the closing `t`.
pub proof fn lemma_size_answer_reads_back(h: u16, w: u16)
    ensures
        size_in(size_answer(h, w)) == Ok::<(u16, u16), SizeError>((w, h)),
        size_in(size_answer(h, w).push(0x74u8)) == Ok::<(u16, u16), SizeError>((w, h)),
{
    lemma_size_answer_prefix_reads_back(h, w, size_answer(h, w));
    lemma_size_answer_prefix_reads_back(h, w, size_answer(h, w).push(0x74u8));
}

proof fn lemma_size_answer_prefix_reads_back(h: u16, w: u16, b: Seq<u8>)
    requires
        b == size_answer(h, w) || b == size_answer(h, w).push(0x74u8),
    ensures
        size_in(b) == Ok::<(u16, u16), SizeError>((w, h)),
{
    let dh = decimal_bytes(h as nat);
    let dw = decimal_bytes(w as nat);
    lemma_decimal_bytes(h as nat);
    lemma_decimal_bytes(w as nat);
    let a = size_answer(h, w);
    let h_end: int = 4 + dh.len() as int;
    let w_end: int = h_end + 1 + dw.len() as int;
    assert(a.len() == w_end);
    assert forall|t: int| 0 <= t < a.len() implies #[trigger] b[t] == a[t] by {}
    assert(b[0] == 0x1b && b[1] == 0x5b && b[2] == 0x34 && b[3] == 0x3b);
    assert forall|t: int| 4 <= t < h_end implies #[trigger] b[t] == dh[t - 4] by {}
    assert(b[h_end] == 0x3b);
    assert forall|t: int| h_end + 1 <= t < w_end implies #[trigger] b[t] == dw[t - h_end - 1] by {}
    // the opening, once, and the semicolon after it
    assert(intro_end(b, 3) == 3);
    assert(intro_end(b, 0) == 3);
    assert(is_digit(dh[0]));
    assert(b[4] == dh[0]);
    assert(semis_end(b, 4) == 4);
    assert(semis_end(b, 3) == 4);
    // the height, up to the semicolon after it
    assert forall|t: int| 4 <= t < h_end implies !is_separator(#[trigger] b[t]) by {
        assert(is_digit(dh[t - 4]));
    }
    lemma_field_ends_at(b, 4, h_end);
    // the width, up to the end or the closing letter
    assert forall|t: int| h_end + 1 <= t < w_end implies !is_separator(#[trigger] b[t]) by {
        assert(is_digit(dw[t - h_end - 1]));
    }
    lemma_field_ends_at(b, h_end + 1, w_end);
    assert(b.subrange(4, h_end) =~= dh);
    assert(b.subrange(h_end + 1, w_end) =~= dw);
    assert(is_digit(dw[0]));
}

proof fn lemma_value_grows(s: Seq<u8>, i: int)
    requires
        0 <= i <= s.len(),
        all_digits(s),
    ensures
        digits_value(s.take(i)) <= digits_value(s),
    decreases s.len() - i,
{
    if i < s.len() {
        let longer = s.take(i + 1);
        assert(longer.drop_last() =~= s.take(i));
        lemma_value_grows(s, i + 1);
    } else {
        assert(s.take(i) =~= s);
    }
}

#[verifier::loop_isolation(false)]
fn parse_field(b: &[u8], from: usize, to: usize) -> (r: Option<u16>)
    requires
        from <= to <= b.len(),
    ensures
        r == field_value(b@.subrange(from as int, to as int)),
{
    let ghost s = b@.subrange(from as int, to as int);
    let start = if from < to && b[from] == 0x2b {
        from + 1
    } else {
        from
    };
    let ghost digits = b@.subrange(start as int, to as int);
    assert(digits =~= if s.len() > 0 && s[0] == 0x2b {
        s.skip(1)
    } else {
        s
    });
    if start == to {
        return None;
    }
    let mut acc: u32 = 0;
    let mut i = start;
    assert(digits.take(0) =~= Seq::empty());
    while i < to
        invariant
            start <= i <= to <= b.len(),
            digits == b@.subrange(start as int, to as int),
            acc == digits_value(digits.take(i - start)),
            acc <= u16::MAX,
            all_digits(digits.take(i - start)),
        decreases to - i,
    {
        let c = b[i];
        if c < 0x30 || c > 0x39 {
            assert(digits[i - start] == c);
            return None;
        }
        proof {
            let longer = digits.take(i - start + 1);
            assert(longer.drop_last() =~= digits.take(i - start));
            assert(longer.last() == c);
            assert(all_digits(longer)) by {
                assert forall|j: int| 0 <= j < longer.len() implies is_digit(#[trigger] longer[j]) by {
                    if j < i - start {
                        assert(longer[j] == digits.take(i - start)[j]);
                    }
                }
            }
        }
        acc = acc * 10 + (c - 0x30) as u32;
        if acc > 0xffff {
            proof {
                if all_digits(digits) {
                    lemma_value_grows(digits, i - start + 1);
                }
            }
            return None;
        }
        i = i + 1;
    }
    assert(digits.take(to - start) =~= digits);
    Some(acc as u16)
}

/// Reads width and height in pixels out of the terminal's answer.
pub fn parse_size_response(b: &[u8]) -> (r: Result<(u16, u16), SizeError>)
    ensures
        r == size_in(b@),
{
    let n = b.len();
    let mut i: usize = 0;
    while n >= 3 && i <= n - 3 && b[i] == 0x1b && b[i + 1] == 0x5b && b[i + 2] == 0x34
        invariant
            i <= n,
            n == b.len(),
            intro_end(b@, 0) == intro_end(b@, i as int),
        decreases n - i,
    {
        i = i + 3;
    }
    let ghost intro = i;
    while i < n && b[i] == 0x3b
        invariant
            intro <= i <= n,
            n == b.len(),
            semis_end(b@, intro as int) == semis_end(b@, i as int),
        decreases n - i,
    {
        i = i + 1;
    }
    let h_start = i;
    while i < n && b[i] != 0x3b && b[i] != 0x74
        invariant
            h_start <= i <= n,
            n == b.len(),
            field_end(b@, h_start as int) == field_end(b@, i as int),
        decreases n - i,
    {
        i = i + 1;
    }
    let h_end = i;
    if h_end >= n {
        return Err(SizeError::Unparseable);
    }
    i = h_end + 1;
    while i < n && b[i] != 0x3b && b[i] != 0x74
        invariant
            h_end < i <= n,
            n == b.len(),
            field_end(b@, h_end + 1) == field_end(b@, i as int),
        decreases n - i,
    {
        i = i + 1;
    }
    let w_end = i;
    match parse_field(b, h_start, h_end) {
        None => Err(SizeError::BadHeight),
        Some(h) => match parse_field(b, h_end + 1, w_end) {
            None => Err(SizeError::BadWidth),
            Some(w) => Ok((w, h)),
        },
    }
}

/// Width and height of one terminal cell in pixels, for a window of so many
/// pixels and so many cells; `None` for a window without columns or rows.
pub fn cell_size(width_px: u16, height_px: u16, columns: u16, rows: u16) -> (r: Option<(u16, u16)>)
    ensures
        r == if columns == 0 || rows == 0 {
            None
        } else {
            Some(((width_px / columns) as u16, (height_px / rows) as u16))
        },
{
    if columns == 0 || rows == 0 {
        None
    } else {
        Some((width_px / columns, height_px / rows))
    }
}

} // verus!
