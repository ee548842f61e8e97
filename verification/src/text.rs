//! Text: numbers written out and read back, padding, and white space.
use vstd::prelude::*;

verus! {

/// The digit character for `d`: `0`-`9`, then `a`-`f`.
pub open spec fn digit(d: nat) -> char {
    if d < 10 {
        (48 + d) as char
    } else {
        (87 + d) as char
    }
}

/// What a character counts for as a digit, in either letter case.
pub open spec fn digit_value(c: char) -> Option<nat> {
    if '0' <= c <= '9' {
        Some((c as int - 48) as nat)
    } else if 'a' <= c <= 'f' {
        Some((c as int - 87) as nat)
    } else if 'A' <= c <= 'F' {
        Some((c as int - 55) as nat)
    } else {
        None
    }
}

/// Whether `c` is a digit of numbers written in `base`.
pub open spec fn is_digit(c: char, base: nat) -> bool {
    digit_value(c) matches Some(d) && d < base
}

/// `n` written in `base` with no leading zero.
pub open spec fn radix(n: nat, base: nat) -> Seq<char>
    decreases n,
{
    if n < base || base < 2 {
        seq![digit(n)]
    } else {
        proof {
            lemma_quotient_shrinks(n, base);
        }
        radix(n / base, base).push(digit(n % base))
    }
}

/// `n` in decimal.
pub open spec fn decimal(n: nat) -> Seq<char> {
    radix(n, 10)
}

/// `n` in decimal, with a minus sign where it is negative.
pub open spec fn signed_decimal(n: int) -> Seq<char> {
    if n < 0 {
        seq!['-'] + decimal((-n) as nat)
    } else {
        decimal(n as nat)
    }
}

/// The character `c`, `n` times.
pub open spec fn repeated(c: char, n: nat) -> Seq<char> {
    Seq::new(n, |i: int| c)
}

/// `s` filled up with spaces on the right to at least `width` characters.
pub open spec fn pad_end(s: Seq<char>, width: nat) -> Seq<char> {
    if s.len() < width {
        s + repeated(' ', (width - s.len()) as nat)
    } else {
        s
    }
}

/// `s` filled up with zeros on the left to at least `width` characters.
pub open spec fn zero_pad(s: Seq<char>, width: nat) -> Seq<char> {
    if s.len() < width {
        repeated('0', (width - s.len()) as nat) + s
    } else {
        s
    }
}

/// The number that the digits of `s` stand for in `base`.
pub open spec fn positional(s: Seq<char>, base: nat) -> nat
    decreases s.len(),
{
    if s.len() == 0 {
        0
    } else {
        positional(s.drop_last(), base) * base + digit_value(s.last()).unwrap_or(0)
    }
}

/// Whether `s` is made of digits of `base` alone.
pub open spec fn all_digits(s: Seq<char>, base: nat) -> bool {
    forall|i: int| 0 <= i < s.len() ==> is_digit(#[trigger] s[i], base)
}

/// `s` without a leading `+`.
pub open spec fn after_plus(s: Seq<char>) -> Seq<char> {
    if s.len() > 0 && s[0] == '+' {
        s.skip(1)
    } else {
        s
    }
}

/// The number that `s` spells in `base`: an optional `+`, then one or more
/// digits and nothing else, for a value that fits in 64 bits.
pub open spec fn unsigned(s: Seq<char>, base: nat) -> Option<nat> {
    let digits = after_plus(s);
    if digits.len() > 0 && all_digits(digits, base) && positional(digits, base) <= u64::MAX {
        Some(positional(digits, base))
    } else {
        None
    }
}

/// Unicode's `White_Space` property.
pub open spec fn is_white(c: char) -> bool {
    let n = c as u32;
    ||| 0x09 <= n <= 0x0d
    ||| n == 0x20
    ||| n == 0x85
    ||| n == 0xa0
    ||| n == 0x1680
    ||| 0x2000 <= n <= 0x200a
    ||| n == 0x2028
    ||| n == 0x2029
    ||| n == 0x202f
    ||| n == 0x205f
    ||| n == 0x3000
}

/// Whether `s` holds nothing but white space.
pub open spec fn is_blank(s: Seq<char>) -> bool {
    forall|i: int| 0 <= i < s.len() ==> is_white(#[trigger] s[i])
}

/// `s` without its leading white space.
pub open spec fn trim_start(s: Seq<char>) -> Seq<char>
    decreases s.len(),
{
    if s.len() > 0 && is_white(s[0]) {
        trim_start(s.skip(1))
    } else {
        s
    }
}

/// `s` without its trailing white space.
pub open spec fn trim_end(s: Seq<char>) -> Seq<char>
    decreases s.len(),
{
    if s.len() > 0 && is_white(s.last()) {
        trim_end(s.drop_last())
    } else {
        s
    }
}

/// `s` without the white space at either end.
pub open spec fn trimmed(s: Seq<char>) -> Seq<char> {
    trim_end(trim_start(s))
}

/// Dividing by a base of at least two makes a number smaller.
pub proof fn lemma_quotient_shrinks(n: nat, base: nat)
    requires
        2 <= base <= n,
    ensures
        n / base < n,
{
    assert(n / base < n) by (nonlinear_arith)
        requires
            2 <= base <= n,
    ;
}

/// Writing a digit and reading it back gives the digit.
proof fn lemma_digit_round_trip(d: nat)
    requires
        d < 16,
    ensures
        digit_value(digit(d)) == Some(d),
        digit(d) != '+',
{
}

/// A number written out is read back as itself.
pub proof fn lemma_radix_reads_back(n: nat, base: nat)
    requires
        2 <= base <= 16,
    ensures
        radix(n, base).len() > 0,
        positional(radix(n, base), base) == n,
        all_digits(radix(n, base), base),
    decreases n,
{
    let s = radix(n, base);
    if n < base {
        lemma_digit_round_trip(n);
        assert(s.drop_last() =~= Seq::<char>::empty());
        assert(positional(s.drop_last(), base) == 0);
        assert(0 * base == 0) by (nonlinear_arith);
        assert(s.last() == digit(n));
    } else {
        lemma_quotient_shrinks(n, base);
        lemma_radix_reads_back(n / base, base);
        let rest = radix(n / base, base);
        assert(s =~= rest.push(digit(n % base)));
        assert(s.drop_last() =~= rest);
        assert(n % base < base && (n / base) * base + n % base == n) by (nonlinear_arith)
            requires
                base >= 2,
        ;
        lemma_digit_round_trip(n % base);
        assert forall|i: int| 0 <= i < s.len() implies is_digit(#[trigger] s[i], base) by {
            if i < rest.len() {
                assert(s[i] == rest[i]);
            }
        }
    }
}

/// Zeros in front of a number do not change it.
pub proof fn lemma_leading_zeros(k: nat, s: Seq<char>, base: nat)
    requires
        2 <= base <= 16,
    ensures
        positional(repeated('0', k) + s, base) == positional(s, base),
    decreases s.len(), k,
{
    let all = repeated('0', k) + s;
    if s.len() > 0 {
        lemma_leading_zeros(k, s.drop_last(), base);
        assert(all.drop_last() =~= repeated('0', k) + s.drop_last());
        assert(all.last() == s.last());
    } else if k > 0 {
        lemma_leading_zeros((k - 1) as nat, s, base);
        assert(all.drop_last() =~= repeated('0', (k - 1) as nat) + s);
        assert(all.last() == '0');
        assert(0 * base == 0) by (nonlinear_arith);
    } else {
        assert(all =~= s);
    }
}

/// Two numbers that are written alike are the same number.
pub proof fn lemma_radix_injective(m: nat, n: nat, base: nat)
    requires
        2 <= base <= 16,
        radix(m, base) == radix(n, base),
    ensures
        m == n,
{
    lemma_radix_reads_back(m, base);
    lemma_radix_reads_back(n, base);
}

/// Text is blank exactly where trimming leaves nothing.
pub proof fn lemma_blank_trims_to_nothing(s: Seq<char>)
    ensures
        is_blank(s) <==> trimmed(s).len() == 0,
{
    lemma_trim_start(s);
    lemma_trim_end(trim_start(s));
    let t = trim_start(s);
    if trimmed(s).len() == 0 {
        if t.len() > 0 {
            assert(is_white(t[0]));
        }
    }
}

proof fn lemma_trim_start(s: Seq<char>)
    ensures
        trim_start(s).len() > 0 ==> !is_white(trim_start(s)[0]),
        is_blank(s) <==> trim_start(s).len() == 0,
    decreases s.len(),
{
    if s.len() > 0 && is_white(s[0]) {
        let rest = s.skip(1);
        lemma_trim_start(rest);
        if is_blank(rest) {
            assert forall|i: int| 0 <= i < s.len() implies is_white(#[trigger] s[i]) by {
                if i > 0 {
                    assert(s[i] == rest[i - 1]);
                }
            }
        }
        if is_blank(s) {
            assert forall|i: int| 0 <= i < rest.len() implies is_white(#[trigger] rest[i]) by {
                assert(rest[i] == s[i + 1]);
            }
        }
    }
}

proof fn lemma_trim_end(s: Seq<char>)
    ensures
        trim_end(s).len() == 0 <==> is_blank(s),
    decreases s.len(),
{
    if s.len() > 0 && is_white(s.last()) {
        let rest = s.drop_last();
        lemma_trim_end(rest);
        if is_blank(rest) {
            assert forall|i: int| 0 <= i < s.len() implies is_white(#[trigger] s[i]) by {
                if i < rest.len() {
                    assert(s[i] == rest[i]);
                }
            }
        }
        if is_blank(s) {
            assert forall|i: int| 0 <= i < rest.len() implies is_white(#[trigger] rest[i]) by {
                assert(rest[i] == s[i]);
            }
        }
    } else if s.len() > 0 {
        assert(!is_white(s[s.len() - 1]));
    }
}

/// The characters of `s`.
pub fn chars_of(s: &str) -> (chars: Vec<char>)
    ensures
        chars@ == s@,
{
    let mut chars: Vec<char> = Vec::new();
    for c in it: s.chars()
        invariant
            chars@ == s@.take(it.index()),
            it.seq() == s@,
    {
        chars.push(c);
    }
    chars
}

/// Whether two texts are the same.
pub fn same_text(a: &str, b: &str) -> (same: bool)
    ensures
        same == (a@ == b@),
{
    let left = chars_of(a);
    let right = chars_of(b);
    if left.len() != right.len() {
        return false;
    }
    let mut i: usize = 0;
    while i < left.len()
        invariant
            i <= left.len(),
            left.len() == right.len(),
            left@ == a@,
            right@ == b@,
            forall|j: int| 0 <= j < i ==> left@[j] == right@[j],
        decreases left.len() - i,
    {
        if left[i] != right[i] {
            return false;
        }
        i = i + 1;
    }
    assert(a@ =~= b@);
    true
}

/// The digit character for `d`.
fn digit_char(d: u64) -> (c: char)
    requires
        d < 16,
    ensures
        c == digit(d as nat),
{
    if d < 10 {
        (48 + d as u8) as char
    } else {
        (87 + d as u8) as char
    }
}

/// Appends `n` written in `base`.
pub fn push_radix(out: &mut String, n: u64, base: u64)
    requires
        2 <= base <= 16,
    ensures
        final(out)@ == old(out)@ + radix(n as nat, base as nat),
    decreases n,
{
    if n >= base {
        proof {
            lemma_quotient_shrinks(n as nat, base as nat);
        }
        push_radix(out, n / base, base);
    }
    assert(n % base < base) by (nonlinear_arith)
        requires
            base >= 2,
    ;
    assert(n < base ==> n % base == n) by (nonlinear_arith)
        requires
            base >= 2,
    ;
    out.push(digit_char(n % base));
    assert(out@ =~= old(out)@ + radix(n as nat, base as nat));
}

/// Appends `n` in decimal.
pub fn push_decimal(out: &mut String, n: u64)
    ensures
        final(out)@ == old(out)@ + decimal(n as nat),
{
    push_radix(out, n, 10);
}

/// `n` in decimal.
pub fn decimal_text(n: u64) -> (text: String)
    ensures
        text@ == decimal(n as nat),
{
    let mut out = String::new();
    push_decimal(&mut out, n);
    assert(out@ =~= decimal(n as nat));
    out
}

/// Appends `n` in decimal, with its sign where it is negative.
pub fn push_signed(out: &mut String, n: i64)
    ensures
        final(out)@ == old(out)@ + signed_decimal(n as int),
{
    if n < 0 {
        out.push('-');
        let magnitude: u64 = (-(n as i128)) as u64;
        push_decimal(out, magnitude);
        assert(out@ =~= old(out)@ + signed_decimal(n as int));
    } else {
        push_decimal(out, n as u64);
    }
}

/// Appends `c`, `n` times.
pub fn push_repeated(out: &mut String, c: char, n: usize)
    ensures
        final(out)@ == old(out)@ + repeated(c, n as nat),
{
    let mut i: usize = 0;
    assert(out@ =~= old(out)@ + repeated(c, 0));
    while i < n
        invariant
            i <= n,
            out@ == old(out)@ + repeated(c, i as nat),
        decreases n - i,
    {
        out.push(c);
        i = i + 1;
        assert(out@ =~= old(out)@ + repeated(c, i as nat));
    }
}

/// Appends `s` filled up with spaces on the right to `width` characters.
pub fn push_padded(out: &mut String, s: &str, width: usize)
    ensures
        final(out)@ == old(out)@ + pad_end(s@, width as nat),
{
    let len: usize = s.unicode_len();
    out.append(s);
    if len < width {
        push_repeated(out, ' ', width - len);
    }
    assert(out@ =~= old(out)@ + pad_end(s@, width as nat));
}

/// Appends `s` filled up with zeros on the left to `width` characters.
pub fn push_zero_padded(out: &mut String, s: &str, width: usize)
    ensures
        final(out)@ == old(out)@ + zero_pad(s@, width as nat),
{
    let len: usize = s.unicode_len();
    if len < width {
        push_repeated(out, '0', width - len);
    }
    out.append(s);
    assert(out@ =~= old(out)@ + zero_pad(s@, width as nat));
}

/// What `c` counts for as a digit of numbers written in `base`.
fn digit_in(c: char, base: u64) -> (value: Option<u64>)
    requires
        2 <= base <= 16,
    ensures
        value is Some <==> is_digit(c, base as nat),
        value matches Some(d) ==> digit_value(c) == Some(d as nat),
{
    let n: u32 = c as u32;
    let d: u64 = if 48 <= n && n <= 57 {
        (n - 48) as u64
    } else if 97 <= n && n <= 102 {
        (n - 87) as u64
    } else if 65 <= n && n <= 70 {
        (n - 55) as u64
    } else {
        return None;
    };
    if d < base {
        Some(d)
    } else {
        None
    }
}

/// Reads the number that the characters from `start` on spell in `base`.
pub fn read_unsigned(chars: &Vec<char>, start: usize, base: u64) -> (value: Option<u64>)
    requires
        start <= chars.len(),
        2 <= base <= 16,
    ensures
        match value {
            Some(n) => unsigned(chars@.skip(start as int), base as nat) == Some(n as nat),
            None => unsigned(chars@.skip(start as int), base as nat) is None,
        },
{
    let ghost s = chars@.skip(start as int);
    let first: usize = if start < chars.len() && chars[start] == '+' {
        start + 1
    } else {
        start
    };
    let ghost digits = after_plus(s);
    assert(digits =~= chars@.skip(first as int));
    if first == chars.len() {
        return None;
    }
    let mut value: u64 = 0;
    let mut overflow = false;
    let mut i: usize = first;
    assert(digits.take(0) =~= Seq::<char>::empty());
    while i < chars.len()
        invariant
            first <= i <= chars.len(),
            2 <= base <= 16,
            digits == chars@.skip(first as int),
            s == chars@.skip(start as int),
            start <= first <= chars.len(),
            digits == after_plus(s),
            forall|j: int| 0 <= j < i - first ==> is_digit(#[trigger] digits[j], base as nat),
            !overflow ==> value == positional(digits.take(i - first), base as nat),
            overflow ==> positional(digits.take(i - first), base as nat) > u64::MAX,
        decreases chars.len() - i,
    {
        let ghost k = i - first;
        assert(digits[k] == chars@[i as int]);
        match digit_in(chars[i], base) {
            None => {
                assert(!is_digit(digits[k], base as nat));
                return None;
            },
            Some(d) => {
                let ghost before = positional(digits.take(k), base as nat);
                assert(digits.take(k + 1).drop_last() =~= digits.take(k));
                assert(digits.take(k + 1).last() == digits[k]);
                assert(positional(digits.take(k + 1), base as nat) == before * base + d);
                let wide: u128 = if overflow {
                    0
                } else {
                    assert(value * base + d <= u64::MAX * 16 + 16) by (nonlinear_arith)
                        requires
                            value <= u64::MAX,
                            base <= 16,
                            d <= 16,
                    ;
                    value as u128 * base as u128 + d as u128
                };
                if overflow {
                    assert(before <= before * base) by (nonlinear_arith)
                        requires
                            base >= 2,
                    ;
                } else if wide > u64::MAX as u128 {
                    overflow = true;
                } else {
                    value = wide as u64;
                }
                i = i + 1;
            },
        }
    }
    assert(digits.take(i - first) =~= digits);
    if overflow {
        None
    } else {
        Some(value)
    }
}

/// Whether `c` is white space.
pub fn char_is_white(c: char) -> (white: bool)
    ensures
        white == is_white(c),
{
    let n: u32 = c as u32;
    (0x09 <= n && n <= 0x0d) || n == 0x20 || n == 0x85 || n == 0xa0 || n == 0x1680
        || (0x2000 <= n && n <= 0x200a) || n == 0x2028 || n == 0x2029 || n == 0x202f
        || n == 0x205f || n == 0x3000
}

/// Whether `s` holds nothing but white space.
pub fn text_is_blank(s: &str) -> (blank: bool)
    ensures
        blank == is_blank(s@),
{
    let chars = chars_of(s);
    let mut i: usize = 0;
    while i < chars.len()
        invariant
            i <= chars.len(),
            chars@ == s@,
            forall|j: int| 0 <= j < i ==> is_white(#[trigger] s@[j]),
        decreases chars.len() - i,
    {
        if !char_is_white(chars[i]) {
            assert(!is_white(s@[i as int]));
            return false;
        }
        i = i + 1;
    }
    true
}

/// `s` without the white space at either end.
pub fn trim(s: &str) -> (text: String)
    ensures
        text@ == trimmed(s@),
{
    let chars = chars_of(s);
    let mut start: usize = 0;
    assert(chars@.skip(0) =~= chars@);
    while start < chars.len() && char_is_white(chars[start])
        invariant
            start <= chars.len(),
            trim_start(chars@) == trim_start(chars@.skip(start as int)),
        decreases chars.len() - start,
    {
        assert(chars@.skip(start as int)[0] == chars@[start as int]);
        assert(chars@.skip(start as int).skip(1) =~= chars@.skip(start + 1));
        start = start + 1;
    }
    let ghost rest = chars@.skip(start as int);
    assert(rest.len() > 0 ==> rest[0] == chars@[start as int]);
    assert(trim_start(chars@) == rest);
    let mut end: usize = chars.len();
    assert(chars@.subrange(start as int, end as int) =~= rest);
    while end > start && char_is_white(chars[end - 1])
        invariant
            start <= end <= chars.len(),
            trim_end(rest) == trim_end(chars@.subrange(start as int, end as int)),
        decreases end,
    {
        let ghost part = chars@.subrange(start as int, end as int);
        assert(part.last() == chars@[end - 1]);
        assert(part.drop_last() =~= chars@.subrange(start as int, end - 1));
        end = end - 1;
    }
    let ghost part = chars@.subrange(start as int, end as int);
    assert(part.len() > 0 ==> part.last() == chars@[end - 1]);
    assert(trim_end(part) == part);
    let text = s.substring_char(start, end);
    text.to_owned()
}

/// Whether `part` is in `s` at `k`.
pub open spec fn part_at(s: Seq<char>, part: Seq<char>, k: int) -> bool {
    0 <= k && k + part.len() <= s.len() && s.subrange(k, k + part.len()) == part
}

/// Whether `part` is somewhere in `s`.
pub open spec fn mentions(s: Seq<char>, part: Seq<char>) -> bool {
    exists|k: int| part_at(s, part, k)
}

/// What is between two texts is in the whole.
pub proof fn lemma_mentions(before: Seq<char>, part: Seq<char>, after: Seq<char>)
    ensures
        mentions(before + part + after, part),
{
    let s = before + part + after;
    assert(s.subrange(before.len() as int, before.len() as int + part.len()) =~= part);
    assert(part_at(s, part, before.len() as int));
}

/// What is in a part is in the whole.
pub proof fn lemma_mentions_within(
    before: Seq<char>,
    middle: Seq<char>,
    after: Seq<char>,
    part: Seq<char>,
)
    requires
        mentions(middle, part),
    ensures
        mentions(before + middle + after, part),
{
    let k = choose|k: int| part_at(middle, part, k);
    let s = before + middle + after;
    assert(s.subrange(before.len() + k, before.len() + k + part.len()) =~= middle.subrange(
        k,
        k + part.len(),
    ));
    assert(part_at(s, part, before.len() + k));
}

/// A number in decimal is made of decimal digits that stand for it.
pub proof fn law_decimal_reads_back(n: nat)
    ensures
        decimal(n).len() > 0,
        forall|i: int| 0 <= i < decimal(n).len() ==> '0' <= #[trigger] decimal(n)[i] <= '9',
        positional(decimal(n), 10) == n,
{
    lemma_radix_reads_back(n, 10);
    assert forall|i: int| 0 <= i < decimal(n).len() implies '0' <= #[trigger] decimal(n)[i] <= '9' by {
        assert(is_digit(decimal(n)[i], 10));
    }
}

/// Padding adds nothing but the filling, on its own side, and no more of it
/// than the width asks for.
pub proof fn law_padding_only_fills(s: Seq<char>, width: nat)
    ensures
        pad_end(s, width).len() == if s.len() < width {
            width
        } else {
            s.len()
        },
        pad_end(s, width).take(s.len() as int) == s,
        forall|i: int| s.len() <= i < pad_end(s, width).len() ==> #[trigger] pad_end(s, width)[i] == ' ',
        zero_pad(s, width).len() == if s.len() < width {
            width
        } else {
            s.len()
        },
        zero_pad(s, width).skip(zero_pad(s, width).len() - s.len()) == s,
        forall|i: int|
            0 <= i < zero_pad(s, width).len() - s.len() ==> #[trigger] zero_pad(s, width)[i] == '0',
{
    assert(pad_end(s, width).take(s.len() as int) =~= s);
    assert(zero_pad(s, width).skip(zero_pad(s, width).len() - s.len()) =~= s);
}

/// Trimming takes white space off both ends and nothing else.
pub proof fn law_trimming_takes_only_white_space(s: Seq<char>)
    ensures
        exists|a: int, b: int|
            {
                &&& 0 <= a <= b <= s.len()
                &&& #[trigger] s.subrange(a, b) == trimmed(s)
                &&& forall|i: int| (0 <= i < a || b <= i < s.len()) ==> is_white(#[trigger] s[i])
            },
        trimmed(s).len() > 0 ==> !is_white(trimmed(s)[0]) && !is_white(trimmed(s).last()),
{
    let start = trim_start(s);
    lemma_front(s);
    let a = s.len() - start.len();
    lemma_back(start);
    let end = trim_end(start);
    let b = a + end.len();
    assert(s.subrange(a, b) =~= end);
    assert forall|i: int| (0 <= i < a || b <= i < s.len()) implies is_white(#[trigger] s[i]) by {
        if i >= b {
            assert(s[i] == start[i - a]);
        }
    }
    if end.len() > 0 {
        assert(end[0] == start[0]);
    }
}

proof fn lemma_front(s: Seq<char>)
    ensures
        trim_start(s).len() <= s.len(),
        s.skip(s.len() - trim_start(s).len()) == trim_start(s),
        forall|i: int| 0 <= i < s.len() - trim_start(s).len() ==> is_white(#[trigger] s[i]),
        trim_start(s).len() > 0 ==> !is_white(trim_start(s)[0]),
    decreases s.len(),
{
    if s.len() > 0 && is_white(s[0]) {
        let rest = s.skip(1);
        lemma_front(rest);
        let n = s.len() - trim_start(s).len();
        assert(s.skip(n) =~= rest.skip(n - 1));
        assert forall|i: int| 0 <= i < n implies is_white(#[trigger] s[i]) by {
            if i > 0 {
                assert(s[i] == rest[i - 1]);
            }
        }
    } else {
        assert(s.skip(0) =~= s);
    }
}

proof fn lemma_back(s: Seq<char>)
    ensures
        trim_end(s).len() <= s.len(),
        s.take(trim_end(s).len() as int) == trim_end(s),
        forall|i: int| trim_end(s).len() <= i < s.len() ==> is_white(#[trigger] s[i]),
        trim_end(s).len() > 0 ==> !is_white(trim_end(s).last()),
    decreases s.len(),
{
    if s.len() > 0 && is_white(s.last()) {
        let rest = s.drop_last();
        lemma_back(rest);
        let n = trim_end(s).len() as int;
        assert(s.take(n) =~= rest.take(n));
        assert forall|i: int| n <= i < s.len() implies is_white(#[trigger] s[i]) by {
            if i < s.len() - 1 {
                assert(s[i] == rest[i]);
            }
        }
    } else {
        assert(s.take(s.len() as int) =~= s);
    }
}

/// Numbers are written with as few digits as will do, and with small letters
/// for the digits above nine.
pub proof fn law_numbers_have_no_leading_zero(n: nat, base: nat)
    requires
        2 <= base <= 16,
    ensures
        radix(n, base)[0] == '0' <==> n == 0,
        n < base <==> radix(n, base).len() == 1,
        forall|i: int|
            0 <= i < radix(n, base).len() ==> '0' <= #[trigger] radix(n, base)[i] <= '9' || 'a'
                <= radix(n, base)[i] <= 'f',
    decreases n,
{
    let s = radix(n, base);
    if n >= base {
        lemma_quotient_shrinks(n, base);
        let rest = radix(n / base, base);
        law_numbers_have_no_leading_zero(n / base, base);
        lemma_radix_reads_back(n / base, base);
        assert(n / base > 0 && n % base < base) by (nonlinear_arith)
            requires
                2 <= base <= n,
        ;
        assert(s[0] == rest[0]);
        assert forall|i: int| 0 <= i < s.len() implies '0' <= #[trigger] s[i] <= '9' || 'a' <= s[i]
            <= 'f' by {
            if i < rest.len() {
                assert(s[i] == rest[i]);
            }
        }
    }
}

/// What digits count for: their distance from zero, or ten more than their
/// distance from the letter A.
pub proof fn law_digits_count_up(c: char)
    ensures
        '0' <= c <= '9' ==> digit_value(c) == Some((c as int - '0' as int) as nat),
        'a' <= c <= 'f' ==> digit_value(c) == Some((10 + (c as int - 'a' as int)) as nat),
        'A' <= c <= 'F' ==> digit_value(c) == Some((10 + (c as int - 'A' as int)) as nat),
        !('0' <= c <= '9' || 'a' <= c <= 'f' || 'A' <= c <= 'F') ==> digit_value(c) is None,
{
}

/// A number in front of another digit counts for that many times the base.
pub proof fn law_each_place_counts_for_the_base(s: Seq<char>, c: char, base: nat)
    ensures
        positional(s.push(c), base) == positional(s, base) * base + digit_value(c).unwrap_or(0),
        positional(Seq::<char>::empty(), base) == 0,
{
    assert(s.push(c).drop_last() =~= s);
}

/// Only a number below zero has a sign, and behind the sign is how far below.
pub proof fn law_only_negative_numbers_have_a_sign(n: int)
    ensures
        signed_decimal(n)[0] == '-' <==> n < 0,
        n < 0 ==> positional(signed_decimal(n).skip(1), 10) == -n,
        n >= 0 ==> positional(signed_decimal(n), 10) == n,
{
    if n < 0 {
        law_decimal_reads_back((-n) as nat);
        assert(signed_decimal(n).skip(1) =~= decimal((-n) as nat));
    } else {
        law_decimal_reads_back(n as nat);
        assert('0' <= decimal(n as nat)[0] <= '9');
    }
}

/// Zeros that fill a number up leave it the number that it is.
pub proof fn law_zeros_leave_numbers_alone(n: nat, width: nat)
    ensures
        positional(zero_pad(decimal(n), width), 10) == n,
        zero_pad(decimal(n), width).len() >= width,
        zero_pad(decimal(n), width).len() >= decimal(n).len(),
        zero_pad(decimal(n), width).len() == width || zero_pad(decimal(n), width).len() == decimal(
            n,
        ).len(),
{
    law_decimal_reads_back(n);
    if decimal(n).len() < width {
        lemma_leading_zeros((width - decimal(n).len()) as nat, decimal(n), 10);
    }
}

/// What counts as white space: tabs and line ends, spaces of all widths, and
/// the separators of lines and paragraphs; nothing that can be seen.
pub proof fn law_white_space_cannot_be_seen(c: char)
    ensures
        is_white(c) <==> c == '\t' || c == '\n' || c == '\u{b}' || c == '\u{c}' || c == '\r' || c
            == ' ' || c == '\u{85}' || c == '\u{a0}' || c == '\u{1680}' || '\u{2000}' <= c
            <= '\u{200a}' || c == '\u{2028}' || c == '\u{2029}' || c == '\u{202f}' || c
            == '\u{205f}' || c == '\u{3000}',
{
}

/// A text is blank exactly if there is nothing in it but white space.
pub proof fn law_blank_texts_show_nothing(s: Seq<char>, i: int)
    requires
        0 <= i < s.len(),
    ensures
        is_blank(s) ==> is_white(s[i]),
        is_blank(Seq::<char>::empty()),
        is_blank(s) <==> is_blank(s.take(i)) && is_white(s[i]) && is_blank(s.skip(i + 1)),
{
    let front = s.take(i);
    let back = s.skip(i + 1);
    if is_blank(s) {
        assert forall|k: int| 0 <= k < front.len() implies is_white(#[trigger] front[k]) by {
            assert(front[k] == s[k]);
        }
        assert forall|k: int| 0 <= k < back.len() implies is_white(#[trigger] back[k]) by {
            assert(back[k] == s[i + 1 + k]);
        }
    }
    if is_blank(front) && is_white(s[i]) && is_blank(back) {
        assert forall|k: int| 0 <= k < s.len() implies is_white(#[trigger] s[k]) by {
            if k < i {
                assert(s[k] == front[k]);
            } else if k > i {
                assert(s[k] == back[k - i - 1]);
            }
        }
    }
}

/// What reads as a number: digits of the base and nothing else, but for one
/// plus sign that may be in front, of a number that fits in 64 bits.
pub proof fn law_numbers_are_read_digit_by_digit(digits: Seq<char>, plus: bool, base: nat)
    requires
        base == 10 || base == 16,
        !plus && digits.len() > 0 ==> digits[0] != '+',
    ensures
        ({
            let s = if plus {
                seq!['+'] + digits
            } else {
                digits
            };
            let good = digits.len() > 0 && positional(digits, base) < 0x1_0000_0000_0000_0000
                && forall|i: int|
                0 <= i < digits.len() ==> ('0' <= #[trigger] digits[i] <= '9' || base == 16 && ('a'
                    <= digits[i] <= 'f' || 'A' <= digits[i] <= 'F'));
            unsigned(s, base) == if good {
                Some(positional(digits, base))
            } else {
                None
            }
        }),
{
    let s = if plus {
        seq!['+'] + digits
    } else {
        digits
    };
    if plus {
        assert(s.skip(1) =~= digits);
    }
    assert(after_plus(s) == digits);
    if all_digits(digits, base) {
        assert forall|i: int| 0 <= i < digits.len() implies ('0' <= #[trigger] digits[i] <= '9'
            || base == 16 && ('a' <= digits[i] <= 'f' || 'A' <= digits[i] <= 'F')) by {
            assert(is_digit(digits[i], base));
        }
    }
}

/// A character repeated is that many of it.
pub proof fn law_repeating_repeats(c: char, n: nat)
    ensures
        repeated(c, n).len() == n,
        forall|i: int| 0 <= i < n ==> #[trigger] repeated(c, n)[i] == c,
{
}

} // verus!
