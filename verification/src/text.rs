//! Text building blocks: decimal numerals, padding, character replacement,
//! and comparison of strings by their characters.

use vstd::prelude::*;

verus! {

/// The character of a decimal digit.
pub open spec fn digit_char(d: nat) -> char {
    if d == 0 { '0' }
    else if d == 1 { '1' }
    else if d == 2 { '2' }
    else if d == 3 { '3' }
    else if d == 4 { '4' }
    else if d == 5 { '5' }
    else if d == 6 { '6' }
    else if d == 7 { '7' }
    else if d == 8 { '8' }
    else { '9' }
}

/// The decimal numeral of a natural number, without leading zeros.
pub open spec fn decimal(n: nat) -> Seq<char>
    decreases n,
{
    if n < 10 {
        seq![digit_char(n)]
    } else {
        decimal(n / 10).push(digit_char(n % 10))
    }
}

/// The decimal numeral of `n` reads back as `n`: it is one or more digits,
/// with no leading zero, whose value is `n`.
pub proof fn lemma_decimal_reads_back(n: nat)
    ensures
        decimal(n).len() >= 1,
        forall|i: int| 0 <= i < decimal(n).len() ==> is_digit(#[trigger] decimal(n)[i]),
        digits_value(decimal(n)) == n,
        n > 0 ==> decimal(n)[0] != '0',
    decreases n,
{
    let c = digit_char(n % 10);
    assert(c as int - '0' as int == n % 10);
    if n >= 10 {
        lemma_decimal_reads_back(n / 10);
        let d = decimal(n / 10);
        assert(decimal(n) == d.push(c));
        assert(d.push(c).drop_last() =~= d);
        assert(decimal(n)[0] == d[0]);
        assert(decimal(n).last() == c);
        assert(digits_value(decimal(n)) == digits_value(d) * 10 + (c as int - '0' as int));
        assert(n == (n / 10) * 10 + n % 10);
    } else {
        assert(decimal(n) == seq![c]);
        assert(seq![c].drop_last() =~= Seq::<char>::empty());
        assert(digits_value(seq![c]) == digits_value(Seq::<char>::empty()) * 10 + (c as int - '0' as int));
    }
}

/// The decimal numeral of an integer: a minus sign before negative ones.
pub open spec fn signed_decimal(i: int) -> Seq<char> {
    if i < 0 {
        seq!['-'] + decimal((-i) as nat)
    } else {
        decimal(i as nat)
    }
}

/// `n` spaces.
pub open spec fn spaces(n: nat) -> Seq<char> {
    Seq::new(n, |_i: int| ' ')
}

/// `s` followed by spaces up to `width` characters (left aligned).
pub open spec fn padded_end(s: Seq<char>, width: nat) -> Seq<char> {
    if s.len() >= width { s } else { s + spaces((width - s.len()) as nat) }
}

/// Spaces up to `width` characters followed by `s` (right aligned).
pub open spec fn padded_start(s: Seq<char>, width: nat) -> Seq<char> {
    if s.len() >= width { s } else { spaces((width - s.len()) as nat) + s }
}

/// `s` centred in `width` characters; an odd space goes to the right.
pub open spec fn padded_center(s: Seq<char>, width: nat) -> Seq<char> {
    if s.len() >= width {
        s
    } else {
        let pad = (width - s.len()) as nat;
        spaces(pad / 2) + s + spaces((pad - pad / 2) as nat)
    }
}

/// `s` with every `from` replaced by `to`.
pub open spec fn replaced(s: Seq<char>, from: char, to: char) -> Seq<char> {
    s.map_values(|c: char| if c == from { to } else { c })
}

/// `s` with every `x` taken out.
pub open spec fn removed(s: Seq<char>, x: char) -> Seq<char>
    decreases s.len(),
{
    if s.len() == 0 {
        s
    } else if s.last() == x {
        removed(s.drop_last(), x)
    } else {
        removed(s.drop_last(), x).push(s.last())
    }
}

/// Whether `c` occurs in `s`.
pub open spec fn has_char(s: Seq<char>, c: char) -> bool {
    exists|i: int| 0 <= i < s.len() && s[i] == c
}

/// The text of `s` before the first `c`, or all of `s` when there is none.
pub open spec fn before_first(s: Seq<char>, c: char) -> Seq<char> {
    if has_char(s, c) {
        s.take(choose|i: int| 0 <= i < s.len() && s[i] == c && forall|j: int| 0 <= j < i ==> s[j] != c)
    } else {
        s
    }
}

/// The text of `true` or `false`.
pub open spec fn bool_text(b: bool) -> Seq<char> {
    if b { seq!['t', 'r', 'u', 'e'] } else { seq!['f', 'a', 'l', 's', 'e'] }
}

/// Whether `c` is an ASCII decimal digit.
pub open spec fn is_digit(c: char) -> bool {
    '0' <= c && c <= '9'
}

/// The value of a string of decimal digits.
pub open spec fn digits_value(s: Seq<char>) -> int
    decreases s.len(),
{
    if s.len() == 0 {
        0
    } else {
        digits_value(s.drop_last()) * 10 + (s.last() as int - '0' as int)
    }
}

/// The integer that a string writes: an optional `+` or `-` followed by one or
/// more decimal digits, and nothing else.
pub open spec fn parsed_integer(s: Seq<char>) -> Option<int> {
    let negative = s.len() > 0 && s[0] == '-';
    let body = if s.len() > 0 && (s[0] == '-' || s[0] == '+') { s.skip(1) } else { s };
    if body.len() > 0 && forall|i: int| 0 <= i < body.len() ==> is_digit(#[trigger] body[i]) {
        Some(if negative { -digits_value(body) } else { digits_value(body) })
    } else {
        None
    }
}

/// The `i16` that a string writes, if it writes one in range.
pub open spec fn parsed_i16(s: Seq<char>) -> Option<i16> {
    match parsed_integer(s) {
        Some(v) => if i16::MIN <= v <= i16::MAX { Some(v as i16) } else { None },
        None => None,
    }
}

/// Why a text is not an `i16`: the kinds of std's `IntErrorKind` that
/// parsing an `i16` can give.
#[derive(Debug, PartialEq, Eq, Clone, Copy)]
pub enum AmountError {
    /// The text is empty.
    Empty,
    /// The text holds a character that is not a digit where one is needed.
    InvalidDigit,
    /// The number is too large for an `i16`.
    PosOverflow,
    /// The number is too small for an `i16`.
    NegOverflow,
}

impl AmountError {
    /// The text std gives this kind of error when it reports it.
    pub fn message(&self) -> (res: String)
        ensures
            res@ == match *self {
                AmountError::Empty => "cannot parse integer from empty string"@,
                AmountError::InvalidDigit => "invalid digit found in string"@,
                AmountError::PosOverflow => "number too large to fit in target type"@,
                AmountError::NegOverflow => "number too small to fit in target type"@,
            },
    {
        match self {
            AmountError::Empty => String::from_str("cannot parse integer from empty string"),
            AmountError::InvalidDigit => String::from_str("invalid digit found in string"),
            AmountError::PosOverflow => String::from_str("number too large to fit in target type"),
            AmountError::NegOverflow => String::from_str("number too small to fit in target type"),
        }
    }
}

/// The errors std's documentation allows for parsing a text as an `i16`: an
/// empty text is `Empty`; a well formed number out of range overflows on its
/// side; any other text is an invalid digit, or an overflow when the digits
/// before the fault are already out of range.
pub open spec fn parse_error_allowed(s: Seq<char>, e: AmountError) -> bool {
    if s.len() == 0 {
        e == AmountError::Empty
    } else {
        match parsed_integer(s) {
            Some(v) => if v > i16::MAX {
                e == AmountError::PosOverflow
            } else if v < i16::MIN {
                e == AmountError::NegOverflow
            } else {
                false
            },
            None => e != AmountError::Empty,
        }
    }
}

/// `str::parse::<i16>` of std: an optional `+` or `-` sign followed by decimal
/// digits, with a value in range, and nothing else (no whitespace) parses;
/// everything else is an error, of the kind std's documentation gives for it
/// (the kind of its `ParseIntError`; `IntErrorKind::Zero` only arises for
/// non-zero types).
#[verifier::external_body]
pub fn parse_i16(text: &str) -> (res: Result<i16, AmountError>)
    ensures
        res matches Ok(n) ==> parsed_i16(text@) == Some(n),
        res is Err ==> parsed_i16(text@) is None,
        res matches Err(e) ==> parse_error_allowed(text@, e),
{
    match text.parse::<i16>() {
        Ok(n) => Ok(n),
        Err(e) => Err(match e.kind() {
            std::num::IntErrorKind::Empty => AmountError::Empty,
            std::num::IntErrorKind::PosOverflow => AmountError::PosOverflow,
            std::num::IntErrorKind::NegOverflow => AmountError::NegOverflow,
            _ => AmountError::InvalidDigit,
        }),
    }
}

/// The character of a decimal digit.
fn digit_text(d: u64) -> (c: char)
    requires
        d < 10,
    ensures
        c == digit_char(d as nat),
{
    if d == 0 { '0' }
    else if d == 1 { '1' }
    else if d == 2 { '2' }
    else if d == 3 { '3' }
    else if d == 4 { '4' }
    else if d == 5 { '5' }
    else if d == 6 { '6' }
    else if d == 7 { '7' }
    else if d == 8 { '8' }
    else { '9' }
}

/// The decimal numeral of an unsigned integer.
pub fn u64_text(n: u64) -> (res: String)
    ensures
        res@ == decimal(n as nat),
    decreases n,
{
    if n < 10 {
        let mut res = String::new();
        push_char(&mut res, digit_text(n));
        assert(res@ =~= seq![digit_char(n as nat)]);
        res
    } else {
        let mut res = u64_text(n / 10);
        push_char(&mut res, digit_text(n % 10));
        res
    }
}

/// The decimal numeral of a signed integer, with a minus sign when it is negative.
pub fn i64_text(n: i64) -> (res: String)
    ensures
        res@ == signed_decimal(n as int),
{
    if n < 0 {
        let magnitude: u64 = if n == i64::MIN { 9223372036854775808u64 } else { (-n) as u64 };
        let mut res = String::new();
        push_char(&mut res, '-');
        let digits = u64_text(magnitude);
        res.append(digits.as_str());
        assert(res@ =~= seq!['-'] + decimal((-n) as nat));
        res
    } else {
        u64_text(n as u64)
    }
}

/// `String::push`: std appends one character.
#[verifier::external_body]
pub fn push_char(s: &mut String, c: char)
    ensures
        final(s)@ == old(s)@.push(c),
{
    s.push(c);
}


/// Whether two strings hold the same characters.
pub fn text_eq(a: &str, b: &str) -> (res: bool)
    ensures
        res == (a@ == b@),
{
    let n = a.unicode_len();
    let m = b.unicode_len();
    if n != m {
        return false;
    }
    let mut i: usize = 0;
    while i < n
        invariant
            n == a@.len(),
            m == b@.len(),
            n == m,
            i <= n,
            forall|j: int| 0 <= j < i ==> a@[j] == b@[j],
        decreases n - i,
    {
        if a.get_char(i) != b.get_char(i) {
            return false;
        }
        i = i + 1;
    }
    assert(a@ =~= b@);
    true
}

/// Appends `n` spaces.
pub fn push_spaces(s: &mut String, n: usize)
    ensures
        final(s)@ == old(s)@ + spaces(n as nat),
{
    let ghost start = s@;
    let mut i: usize = 0;
    while i < n
        invariant
            i <= n,
            s@ == start + spaces(i as nat),
        decreases n - i,
    {
        push_char(s, ' ');
        assert(spaces((i + 1) as nat) =~= spaces(i as nat).push(' '));
        assert(start + spaces((i + 1) as nat) =~= (start + spaces(i as nat)).push(' '));
        i = i + 1;
    }
}

/// `s` padded with spaces on the right to `width` characters (`{:<width}`).
pub fn pad_end(s: &str, width: usize) -> (res: String)
    ensures
        res@ == padded_end(s@, width as nat),
{
    let len = s.unicode_len();
    let mut res = String::from_str(s);
    if len < width {
        push_spaces(&mut res, width - len);
    }
    res
}

/// `s` padded with spaces on the left to `width` characters (`{:>width}`).
pub fn pad_start(s: &str, width: usize) -> (res: String)
    ensures
        res@ == padded_start(s@, width as nat),
{
    let len = s.unicode_len();
    let mut res = String::new();
    if len < width {
        push_spaces(&mut res, width - len);
    }
    res.append(s);
    res
}

/// `s` centred with spaces in `width` characters (`{:^width}`).
pub fn pad_center(s: &str, width: usize) -> (res: String)
    ensures
        res@ == padded_center(s@, width as nat),
{
    let len = s.unicode_len();
    if len >= width {
        return String::from_str(s);
    }
    let pad = width - len;
    let mut res = String::new();
    push_spaces(&mut res, pad / 2);
    res.append(s);
    push_spaces(&mut res, pad - pad / 2);
    res
}

/// `s` with every `from` replaced by `to` (`str::replace` of one character).
pub fn replace_char(s: &str, from: char, to: char) -> (res: String)
    ensures
        res@ == replaced(s@, from, to),
{
    let n = s.unicode_len();
    let mut res = String::new();
    let mut i: usize = 0;
    while i < n
        invariant
            n == s@.len(),
            i <= n,
            res@ == replaced(s@.take(i as int), from, to),
        decreases n - i,
    {
        let c = s.get_char(i);
        if c == from {
            push_char(&mut res, to);
        } else {
            push_char(&mut res, c);
        }
        assert(replaced(s@.take(i + 1), from, to) =~= replaced(s@.take(i as int), from, to).push(
            if c == from { to } else { c },
        ));
        i = i + 1;
    }
    assert(s@.take(n as int) =~= s@);
    res
}

/// `s` with every `x` taken out (`str::replace` of one character by nothing).
pub fn remove_char(s: &str, x: char) -> (res: String)
    ensures
        res@ == removed(s@, x),
{
    let n = s.unicode_len();
    let mut res = String::new();
    let mut i: usize = 0;
    while i < n
        invariant
            n == s@.len(),
            i <= n,
            res@ == removed(s@.take(i as int), x),
        decreases n - i,
    {
        let c = s.get_char(i);
        assert(s@.take(i + 1).drop_last() =~= s@.take(i as int));
        if c != x {
            push_char(&mut res, c);
        }
        i = i + 1;
    }
    assert(s@.take(n as int) =~= s@);
    res
}

/// The text of `s` before its first `c`, or all of `s` (`s.split(c).next()`).
pub fn text_before(s: &str, c: char) -> (res: String)
    ensures
        res@ == before_first(s@, c),
{
    let n = s.unicode_len();
    let mut i: usize = 0;
    while i < n
        invariant
            n == s@.len(),
            i <= n,
            forall|j: int| 0 <= j < i ==> s@[j] != c,
        decreases n - i,
    {
        if s.get_char(i) == c {
            let res = s.substring_char(0, i);
            proof {
                let k = choose|k: int| 0 <= k < s@.len() && s@[k] == c && forall|j: int| 0 <= j < k ==> s@[j] != c;
                assert(k == i) by {
                    if k < i {
                        assert(s@[k] != c);
                    } else if k > i {
                        assert(s@[i as int] != c);
                    }
                };
            }
            return String::from_str(res);
        }
        i = i + 1;
    }
    proof {
        assert(!has_char(s@, c));
    }
    String::from_str(s)
}

/// The text of a boolean (`bool::to_string`).
pub fn bool_to_text(b: bool) -> (res: String)
    ensures
        res@ == bool_text(b),
{
    let mut res = String::new();
    if b {
        push_char(&mut res, 't');
        push_char(&mut res, 'r');
        push_char(&mut res, 'u');
        push_char(&mut res, 'e');
    } else {
        push_char(&mut res, 'f');
        push_char(&mut res, 'a');
        push_char(&mut res, 'l');
        push_char(&mut res, 's');
        push_char(&mut res, 'e');
    }
    assert(res@ =~= bool_text(b));
    res
}

} // verus!
