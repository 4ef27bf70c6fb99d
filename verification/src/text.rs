//! Character-level text helpers shared by the other modules.
//!
//! Contracts describe a string by the sequence of its characters, and its
//! encoded size by the length of its UTF-8 encoding.
use vstd::prelude::*;
use vstd::string::*;
use vstd::utf8::*;

verus! {

/// Whether a character has the Unicode `White_Space` property.
pub open spec fn white_space(c: char) -> bool {
    let code = c as u32;
    ||| 0x9 <= code <= 0xd
    ||| code == 0x20
    ||| code == 0x85
    ||| code == 0xa0
    ||| code == 0x1680
    ||| 0x2000 <= code <= 0x200a
    ||| code == 0x2028
    ||| code == 0x2029
    ||| code == 0x202f
    ||| code == 0x205f
    ||| code == 0x3000
}

/// Whether a text is empty or holds white space only.
pub open spec fn blank(text: Seq<char>) -> bool {
    forall|i: int| 0 <= i < text.len() ==> white_space(#[trigger] text[i])
}

/// The number of bytes that a text takes in UTF-8.
pub open spec fn utf8_len(text: Seq<char>) -> nat {
    encode_utf8(text).len()
}

/// A text without the white space at its two ends.
pub open spec fn trimmed(text: Seq<char>) -> Seq<char> {
    trimmed_end(trimmed_start(text))
}

/// A text without the white space it starts with.
pub open spec fn trimmed_start(text: Seq<char>) -> Seq<char>
    decreases text.len(),
{
    if text.len() > 0 && white_space(text[0]) {
        trimmed_start(text.skip(1))
    } else {
        text
    }
}

/// A text without the white space it ends with.
pub open spec fn trimmed_end(text: Seq<char>) -> Seq<char>
    decreases text.len(),
{
    if text.len() > 0 && white_space(text.last()) {
        trimmed_end(text.drop_last())
    } else {
        text
    }
}

/// A text without the repetitions of `c` that it ends with.
pub open spec fn without_trailing(text: Seq<char>, c: char) -> Seq<char>
    decreases text.len(),
{
    if text.len() > 0 && text.last() == c {
        without_trailing(text.drop_last(), c)
    } else {
        text
    }
}

/// Tests a character for the Unicode `White_Space` property.
pub fn is_white_space(c: char) -> (r: bool)
    ensures
        r == white_space(c),
{
    let code: u32 = c as u32;
    (0x9 <= code && code <= 0xd) || code == 0x20 || code == 0x85 || code == 0xa0
        || code == 0x1680 || (0x2000 <= code && code <= 0x200a) || code == 0x2028
        || code == 0x2029 || code == 0x202f || code == 0x205f || code == 0x3000
}

/// Collects the characters of a text.
pub fn chars_of(text: &str) -> (r: Vec<char>)
    ensures
        r@ == text@,
{
    let mut out: Vec<char> = Vec::new();
    for c in it: text.chars()
        invariant
            it.seq() == text@,
            out@ == text@.take(it.index() as int),
    {
        proof {
            assert(text@.take(it.index() as int).push(c) =~= text@.take(it.index() as int + 1));
        }
        out.push(c);
    }
    proof {
        assert(text@.take(text@.len() as int) =~= text@);
    }
    out
}

/// Tests whether a text is empty or holds white space only.
pub fn is_blank(text: &str) -> (r: bool)
    ensures
        r == blank(text@),
{
    let chars = chars_of(text);
    let mut i: usize = 0;
    while i < chars.len()
        invariant
            i <= chars@.len(),
            chars@ == text@,
            forall|j: int| 0 <= j < i ==> white_space(#[trigger] text@[j]),
        decreases chars@.len() - i,
    {
        if !is_white_space(chars[i]) {
            assert(!white_space(text@[i as int]));
            return false;
        }
        i = i + 1;
    }
    true
}

/// A text that is white space throughout is what trimming leaves empty.
pub proof fn law_blank_iff_trimmed_empty(text: Seq<char>)
    ensures
        blank(text) <==> trimmed(text).len() == 0,
{
    lemma_trimmed_start_blank(text);
    lemma_trimmed_end_blank(trimmed_start(text));
    if blank(text) {
        assert(blank(trimmed_start(text)));
    }
}

proof fn lemma_trimmed_start_blank(text: Seq<char>)
    ensures
        blank(text) <==> trimmed_start(text).len() == 0,
        trimmed_start(text).len() > 0 ==> !white_space(trimmed_start(text)[0]),
    decreases text.len(),
{
    if text.len() > 0 && white_space(text[0]) {
        lemma_trimmed_start_blank(text.skip(1));
        if blank(text.skip(1)) {
            assert forall|i: int| 0 <= i < text.len() implies white_space(#[trigger] text[i]) by {
                if i > 0 {
                    assert(text[i] == text.skip(1)[i - 1]);
                }
            }
        }
        if blank(text) {
            assert forall|i: int| 0 <= i < text.skip(1).len() implies white_space(
                #[trigger] text.skip(1)[i],
            ) by {
                assert(text.skip(1)[i] == text[i + 1]);
            }
        }
    } else if text.len() > 0 {
        assert(!white_space(text[0]));
    }
}

proof fn lemma_trimmed_end_blank(text: Seq<char>)
    ensures
        blank(text) <==> trimmed_end(text).len() == 0,
    decreases text.len(),
{
    if text.len() > 0 && white_space(text.last()) {
        lemma_trimmed_end_blank(text.drop_last());
        if blank(text.drop_last()) {
            assert forall|i: int| 0 <= i < text.len() implies white_space(#[trigger] text[i]) by {
                if i < text.len() - 1 {
                    assert(text[i] == text.drop_last()[i]);
                }
            }
        }
        if blank(text) {
            assert forall|i: int| 0 <= i < text.drop_last().len() implies white_space(
                #[trigger] text.drop_last()[i],
            ) by {
                assert(text.drop_last()[i] == text[i]);
            }
        }
    } else if text.len() > 0 {
        assert(!white_space(text[text.len() - 1]));
    }
}

/// Copies a text without the white space at its two ends.
pub fn trim(text: &str) -> (r: String)
    ensures
        r@ == trimmed(text@),
{
    let chars = chars_of(text);
    let mut start: usize = 0;
    proof {
        assert(text@.skip(0) =~= text@);
    }
    while start < chars.len() && is_white_space(chars[start])
        invariant
            start <= chars@.len(),
            chars@ == text@,
            trimmed_start(text@) == trimmed_start(text@.skip(start as int)),
        decreases chars@.len() - start,
    {
        proof {
            assert(text@.skip(start as int)[0] == text@[start as int]);
            assert(text@.skip(start as int).skip(1) =~= text@.skip(start as int + 1));
        }
        start = start + 1;
    }
    let mut end: usize = chars.len();
    proof {
        if start < end {
            assert(text@.skip(start as int)[0] == text@[start as int]);
        }
        assert(trimmed_start(text@) == text@.skip(start as int));
        assert(text@.subrange(start as int, end as int) =~= text@.skip(start as int));
    }
    while end > start && is_white_space(chars[end - 1])
        invariant
            start <= end <= chars@.len(),
            chars@ == text@,
            trimmed(text@) == trimmed_end(text@.subrange(start as int, end as int)),
        decreases end,
    {
        proof {
            let part = text@.subrange(start as int, end as int);
            assert(part.last() == text@[end - 1]);
            assert(part.drop_last() =~= text@.subrange(start as int, end - 1));
        }
        end = end - 1;
    }
    proof {
        let part = text@.subrange(start as int, end as int);
        if start < end {
            assert(part.last() == text@[end - 1]);
        }
    }
    text.substring_char(start, end).to_owned()
}

/// Copies a text without the repetitions of `c` that it ends with.
pub fn trim_end_char(text: &str, c: char) -> (r: String)
    ensures
        r@ == without_trailing(text@, c),
{
    let chars = chars_of(text);
    let mut end: usize = chars.len();
    proof {
        assert(text@.subrange(0, end as int) =~= text@);
    }
    while end > 0 && chars[end - 1] == c
        invariant
            end <= chars@.len(),
            chars@ == text@,
            without_trailing(text@, c) == without_trailing(text@.subrange(0, end as int), c),
        decreases end,
    {
        proof {
            let part = text@.subrange(0, end as int);
            assert(part.last() == text@[end - 1]);
            assert(part.drop_last() =~= text@.subrange(0, end - 1));
        }
        end = end - 1;
    }
    proof {
        let part = text@.subrange(0, end as int);
        if end > 0 {
            assert(part.last() == text@[end - 1]);
        }
    }
    text.substring_char(0, end).to_owned()
}

/// Two texts are the same characters exactly when their UTF-8 encodings agree.
pub proof fn lemma_utf8_injective(a: Seq<char>, b: Seq<char>)
    ensures
        encode_utf8(a) == encode_utf8(b) <==> a == b,
{
    encode_utf8_decode_utf8(a);
    encode_utf8_decode_utf8(b);
}

/// Compares two texts character by character.
pub fn same_text(a: &str, b: &str) -> (r: bool)
    ensures
        r == (a@ == b@),
{
    proof {
        lemma_utf8_injective(a@, b@);
    }
    let left = a.as_bytes();
    let right = b.as_bytes();
    if left.len() != right.len() {
        return false;
    }
    let mut i: usize = 0;
    while i < left.len()
        invariant
            i <= left@.len(),
            left@.len() == right@.len(),
            left@ == encode_utf8(a@),
            right@ == encode_utf8(b@),
            encode_utf8(a@) == encode_utf8(b@) <==> a@ == b@,
            forall|j: int| 0 <= j < i ==> left@[j] == right@[j],
        decreases left@.len() - i,
    {
        if left[i] != right[i] {
            return false;
        }
        i = i + 1;
    }
    proof {
        assert(left@ =~= right@);
    }
    true
}

/// Counts the bytes that a text takes in UTF-8.
pub fn byte_len(text: &str) -> (r: usize)
    ensures
        r == utf8_len(text@),
{
    text.as_bytes().len()
}

/// The number of bytes that a character takes in UTF-8.
pub open spec fn char_len(c: char) -> nat {
    if c as u32 <= 0x7f {
        1
    } else if c as u32 <= 0x7ff {
        2
    } else if c as u32 <= 0xffff {
        3
    } else {
        4
    }
}

/// Counts the bytes that a character takes in UTF-8.
pub fn char_byte_len(c: char) -> (r: usize)
    ensures
        r == char_len(c),
{
    let scalar: u32 = c as u32;
    if scalar <= 0x7f {
        1
    } else if scalar <= 0x7ff {
        2
    } else if scalar <= 0xffff {
        3
    } else {
        4
    }
}

/// A character at the end of a text adds its own bytes.
pub proof fn lemma_utf8_len_push(text: Seq<char>, c: char)
    ensures
        utf8_len(text.push(c)) == utf8_len(text) + char_len(c),
    decreases text.len(),
{
    char_is_scalar(c);
    if text.len() == 0 {
        assert(text.push(c).drop_first() =~= text);
        assert(text.push(c)[0] == c);
        reveal_with_fuel(encode_utf8, 2);
    } else {
        lemma_utf8_len_push(text.drop_first(), c);
        assert(text.push(c).drop_first() =~= text.drop_first().push(c));
    }
}

/// The bytes of two joined texts are those of both.
pub proof fn lemma_utf8_len_join(a: Seq<char>, b: Seq<char>)
    ensures
        utf8_len(a + b) == utf8_len(a) + utf8_len(b),
    decreases b.len(),
{
    if b.len() == 0 {
        assert(a + b =~= a);
    } else {
        let shorter = b.drop_last();
        lemma_utf8_len_join(a, shorter);
        lemma_utf8_len_push(a + shorter, b.last());
        lemma_utf8_len_push(shorter, b.last());
        assert((a + shorter).push(b.last()) =~= a + b);
        assert(shorter.push(b.last()) =~= b);
    }
}

/// Whether every character of a text is an ASCII one.
pub open spec fn ascii(text: Seq<char>) -> bool {
    forall|i: int| 0 <= i < text.len() ==> (#[trigger] text[i]) as u32 <= 0x7f
}

/// A text takes one to four bytes for each character, and one for each exactly
/// when it is ASCII.
pub proof fn lemma_utf8_len_bounds(text: Seq<char>)
    ensures
        text.len() <= utf8_len(text) <= 4 * text.len(),
        text.len() == utf8_len(text) <==> ascii(text),
    decreases text.len(),
{
    if text.len() > 0 {
        let shorter = text.drop_last();
        lemma_utf8_len_bounds(shorter);
        lemma_utf8_len_push(shorter, text.last());
        assert(shorter.push(text.last()) =~= text);
        if ascii(shorter) && text.last() as u32 <= 0x7f {
            assert forall|i: int| 0 <= i < text.len() implies (#[trigger] text[i]) as u32
                <= 0x7f by {
                if i < shorter.len() {
                    assert(shorter[i] == text[i]);
                }
            }
        }
        if ascii(text) {
            assert forall|i: int| 0 <= i < shorter.len() implies (#[trigger] shorter[i]) as u32
                <= 0x7f by {
                assert(shorter[i] == text[i]);
            }
            assert(text[text.len() - 1] as u32 <= 0x7f);
        }
    }
}

/// The longest start of a text that takes no more than a number of bytes in
/// UTF-8.
pub open spec fn fitting(text: Seq<char>, limit: nat) -> Seq<char>
    decreases text.len(),
{
    if utf8_len(text) <= limit || text.len() == 0 {
        text
    } else {
        fitting(text.drop_last(), limit)
    }
}

/// The longest start of a text ends where the next character would not fit.
proof fn lemma_fitting(text: Seq<char>, limit: nat, k: int)
    requires
        0 <= k <= text.len(),
        utf8_len(text.take(k)) <= limit,
        k < text.len() ==> utf8_len(text.take(k + 1)) > limit,
    ensures
        fitting(text, limit) == text.take(k),
    decreases text.len(),
{
    if k == text.len() {
        assert(text.take(k) =~= text);
    } else {
        assert(text.take(k + 1) + text.skip(k + 1) =~= text);
        lemma_utf8_len_join(text.take(k + 1), text.skip(k + 1));
        let shorter = text.drop_last();
        assert(shorter.take(k) =~= text.take(k));
        if k < shorter.len() {
            assert(shorter.take(k + 1) =~= text.take(k + 1));
        }
        lemma_fitting(shorter, limit, k);
    }
}

/// Cuts a text so that it takes no more than a number of bytes in UTF-8.
pub fn fit(text: &str, limit: usize) -> (r: String)
    ensures
        r@ == fitting(text@, limit as nat),
{
    let chars = chars_of(text);
    let mut total: usize = 0;
    let mut i: usize = 0;
    let mut out = String::new();
    proof {
        assert(text@.take(0) =~= Seq::<char>::empty());
    }
    while i < chars.len()
        invariant
            chars@ == text@,
            i <= chars@.len(),
            out@ == text@.take(i as int),
            total == utf8_len(text@.take(i as int)),
            total <= limit,
        decreases chars@.len() - i,
    {
        let added: usize = char_byte_len(chars[i]);
        proof {
            assert(text@.take(i as int).push(text@[i as int]) =~= text@.take(i as int + 1));
            lemma_utf8_len_push(text@.take(i as int), text@[i as int]);
        }
        if added > limit - total {
            proof {
                lemma_fitting(text@, limit as nat, i as int);
            }
            return out;
        }
        total = total + added;
        push_char(&mut out, chars[i]);
        i = i + 1;
    }
    proof {
        lemma_fitting(text@, limit as nat, i as int);
    }
    out
}

/// Appends one character to a string.
///
/// Trusted: `std::string::String::push`, which adds the character at the end
/// and leaves what was there before.
#[verifier::external_body]
pub(crate) fn push_char(target: &mut String, c: char)
    ensures
        final(target)@ == old(target)@.push(c),
{
    target.push(c)
}

/// Whether a text comes before another one in the order of strings: at the
/// first difference it has the lesser character, or it ends.
pub open spec fn before(a: Seq<char>, b: Seq<char>) -> bool
    decreases a.len(),
{
    if b.len() == 0 {
        false
    } else if a.len() == 0 {
        true
    } else if a[0] != b[0] {
        (a[0] as int) < (b[0] as int)
    } else {
        before(a.skip(1), b.skip(1))
    }
}

/// Of two different texts one comes before the other, and not the other way
/// round.
pub proof fn lemma_before_is_total(a: Seq<char>, b: Seq<char>)
    ensures
        a == b ==> !before(a, b) && !before(b, a),
        a != b ==> before(a, b) != before(b, a),
    decreases a.len(),
{
    if a.len() > 0 && b.len() > 0 {
        lemma_before_is_total(a.skip(1), b.skip(1));
        if a[0] == b[0] && a.skip(1) == b.skip(1) {
            assert(a =~= seq![a[0]] + a.skip(1));
            assert(b =~= seq![b[0]] + b.skip(1));
        }
    } else if a.len() == 0 && b.len() == 0 {
        assert(a =~= b);
    }
}

/// The order of strings is transitive.
pub proof fn lemma_before_is_transitive(a: Seq<char>, b: Seq<char>, c: Seq<char>)
    requires
        before(a, b),
        before(b, c),
    ensures
        before(a, c),
    decreases a.len(),
{
    if a.len() > 0 && b.len() > 0 && c.len() > 0 && a[0] == b[0] && b[0] == c[0] {
        lemma_before_is_transitive(a.skip(1), b.skip(1), c.skip(1));
    }
}

/// Tests whether a character has a lesser code point than another one.
fn char_before(c: char, d: char) -> (r: bool)
    ensures
        r == ((c as int) < (d as int)),
{
    (c as u32) < (d as u32)
}

/// Tests whether a text comes before another one.
pub fn comes_before(a: &str, b: &str) -> (r: bool)
    ensures
        r == before(a@, b@),
{
    let left = chars_of(a);
    let right = chars_of(b);
    let mut i: usize = 0;
    proof {
        assert(a@.skip(0) =~= a@);
        assert(b@.skip(0) =~= b@);
    }
    while i < left.len() && i < right.len()
        invariant
            left@ == a@,
            right@ == b@,
            i <= left@.len(),
            i <= right@.len(),
            before(a@, b@) == before(a@.skip(i as int), b@.skip(i as int)),
        decreases left@.len() - i,
    {
        proof {
            assert(a@.skip(i as int).skip(1) =~= a@.skip(i as int + 1));
            assert(b@.skip(i as int).skip(1) =~= b@.skip(i as int + 1));
        }
        let c: char = left[i];
        let d: char = right[i];
        if c != d {
            return char_before(c, d);
        }
        i = i + 1;
    }
    i < right.len()
}

/// Joins two texts.
pub fn join(a: &str, b: &str) -> (r: String)
    ensures
        r@ == a@ + b@,
{
    a.to_owned().concat(b)
}

/// Joins three texts.
pub fn join3(a: &str, b: &str, c: &str) -> (r: String)
    ensures
        r@ == a@ + b@ + c@,
{
    a.to_owned().concat(b).concat(c)
}

/// The character of one decimal digit.
pub open spec fn digit_char(d: int) -> char {
    (48 + d) as char
}

/// Whether a character is one of `0` to `9`.
pub open spec fn is_digit(c: char) -> bool {
    48 <= c as u32 <= 57
}

/// The value of one decimal digit.
pub open spec fn digit_value(c: char) -> int {
    c as u32 - 48
}

/// Whether a text holds decimal digits only.
pub open spec fn all_digits(text: Seq<char>) -> bool {
    forall|i: int| 0 <= i < text.len() ==> is_digit(#[trigger] text[i])
}

/// The number that a sequence of decimal digits stands for.
pub open spec fn digits_value(text: Seq<char>) -> int
    decreases text.len(),
{
    if text.len() == 0 {
        0
    } else {
        10 * digits_value(text.drop_last()) + digit_value(text.last())
    }
}

/// The decimal digits of a number, without leading zeros.
pub open spec fn decimal_digits(n: nat) -> Seq<char>
    decreases n,
{
    if n < 10 {
        seq![digit_char(n as int)]
    } else {
        decimal_digits(n / 10).push(digit_char((n % 10) as int))
    }
}

/// The last `width` decimal digits of a number, with leading zeros.
pub open spec fn padded_digits(n: nat, width: nat) -> Seq<char>
    decreases width,
{
    if width == 0 {
        Seq::empty()
    } else {
        padded_digits(n / 10, (width - 1) as nat).push(digit_char((n % 10) as int))
    }
}

/// Ten to the power of `k`.
pub open spec fn ten_to(k: nat) -> int
    decreases k,
{
    if k == 0 {
        1
    } else {
        10 * ten_to((k - 1) as nat)
    }
}

/// Ten to a power is at least one.
pub proof fn lemma_ten_to_positive(k: nat)
    ensures
        ten_to(k) >= 1,
    decreases k,
{
    if k > 0 {
        lemma_ten_to_positive((k - 1) as nat);
    }
}

/// Powers of ten multiply by adding their exponents.
pub proof fn lemma_ten_to_sum(a: nat, b: nat)
    ensures
        ten_to(a) * ten_to(b) == ten_to(a + b),
    decreases a,
{
    if a == 0 {
        assert(1 * ten_to(b) == ten_to(b));
    } else {
        lemma_ten_to_sum((a - 1) as nat, b);
        let x = ten_to((a - 1) as nat);
        let y = ten_to(b);
        assert((10 * x) * y == 10 * (x * y)) by (nonlinear_arith);
        assert((a - 1) as nat + b == (a + b - 1) as nat);
    }
}

/// The digits of a number are digits and stand for that number.
pub proof fn lemma_decimal_digits(n: nat)
    ensures
        all_digits(decimal_digits(n)),
        decimal_digits(n).len() > 0,
        digits_value(decimal_digits(n)) == n,
    decreases n,
{
    reveal_with_fuel(digits_value, 2);
    if n < 10 {
        assert(decimal_digits(n).drop_last() =~= Seq::<char>::empty());
    } else {
        lemma_decimal_digits(n / 10);
        assert(decimal_digits(n).drop_last() =~= decimal_digits(n / 10));
    }
}

/// Padded digits are digits and stand for the number, as far as they reach.
pub proof fn lemma_padded_digits(n: nat, width: nat)
    requires
        n < ten_to(width),
    ensures
        all_digits(padded_digits(n, width)),
        padded_digits(n, width).len() == width,
        digits_value(padded_digits(n, width)) == n,
    decreases width,
{
    if width > 0 {
        lemma_padded_digits(n / 10, (width - 1) as nat);
        assert(padded_digits(n, width).drop_last() =~= padded_digits(
            n / 10,
            (width - 1) as nat,
        ));
    }
}

/// Digits stand for a number below ten to the power of their count.
pub proof fn lemma_digits_value_bound(text: Seq<char>)
    requires
        all_digits(text),
    ensures
        0 <= digits_value(text) < ten_to(text.len()),
    decreases text.len(),
{
    if text.len() > 0 {
        assert forall|i: int| 0 <= i < text.drop_last().len() implies is_digit(
            #[trigger] text.drop_last()[i],
        ) by {
            assert(text.drop_last()[i] == text[i]);
        }
        lemma_digits_value_bound(text.drop_last());
        assert(is_digit(text[text.len() - 1]));
    }
}

/// A prefix of digits stands for no larger a number than the whole.
pub proof fn lemma_digits_value_prefix(text: Seq<char>, k: int)
    requires
        all_digits(text),
        0 <= k <= text.len(),
    ensures
        digits_value(text.take(k)) <= digits_value(text),
    decreases text.len() - k,
{
    if k == text.len() {
        assert(text.take(k) =~= text);
    } else {
        lemma_digits_value_prefix(text, k + 1);
        let longer = text.take(k + 1);
        assert(longer.drop_last() =~= text.take(k));
        assert(is_digit(text[k]));
        assert forall|i: int| 0 <= i < text.take(k).len() implies is_digit(
            #[trigger] text.take(k)[i],
        ) by {
            assert(text.take(k)[i] == text[i]);
        }
        lemma_digits_value_bound(text.take(k));
    }
}

/// The character of one decimal digit.
pub(crate) fn digit(d: u8) -> (c: char)
    requires
        d < 10,
    ensures
        c == digit_char(d as int),
{
    (48 + d) as char
}

/// Writes a number in decimal.
pub fn decimal_text(n: u64) -> (r: String)
    ensures
        r@ == decimal_digits(n as nat),
    decreases n,
{
    if n < 10 {
        let mut out = String::new();
        push_char(&mut out, digit(n as u8));
        proof {
            assert(out@ =~= decimal_digits(n as nat));
        }
        out
    } else {
        let mut out = decimal_text(n / 10);
        push_char(&mut out, digit((n % 10) as u8));
        out
    }
}

/// The text that Rust's `Debug` formatting writes for a string.
pub uninterp spec fn quoted_text(text: Seq<char>) -> Seq<char>;

/// Writes a text between quotes, with its special characters escaped.
///
/// Trusted: the `Debug` formatting of `str`. What it writes depends on the
/// text alone; which characters it escapes is left to the standard library.
#[verifier::external_body]
pub(crate) fn quoted(text: &str) -> (r: String)
    ensures
        r@ == quoted_text(text@),
{
    format!("{text:?}")
}

/// Trimming leaves a part of the text that neither starts nor ends with white
/// space, and takes nothing but white space away; trimming again changes
/// nothing.
pub proof fn law_trimming_takes_white_space_alone(text: Seq<char>)
    ensures
        exists|from: int, to: int|
            {
                &&& 0 <= from <= to <= text.len()
                &&& trimmed(text) == #[trigger] text.subrange(from, to)
                &&& blank(text.take(from))
                &&& blank(text.skip(to))
            },
        trimmed(text).len() > 0 ==> !white_space(trimmed(text)[0]) && !white_space(
            trimmed(text).last(),
        ),
{
    let from = lemma_trimmed_start(text);
    let rest = text.skip(from);
    let n = lemma_trimmed_end(rest);
    let to = from + n;
    assert(rest.take(n) =~= text.subrange(from, to));
    assert(text.skip(to) =~= rest.skip(n));
    if n > 0 {
        assert(trimmed(text)[0] == rest[0]);
    }
}

/// What a text starts with is white space up to a place.
proof fn lemma_trimmed_start(text: Seq<char>) -> (from: int)
    ensures
        0 <= from <= text.len(),
        trimmed_start(text) == text.skip(from),
        blank(text.take(from)),
        from < text.len() ==> !white_space(text[from]),
    decreases text.len(),
{
    if text.len() > 0 && white_space(text[0]) {
        let n = lemma_trimmed_start(text.skip(1));
        assert(text.skip(1).skip(n) =~= text.skip(n + 1));
        assert forall|i: int| 0 <= i < text.take(n + 1).len() implies white_space(
            #[trigger] text.take(n + 1)[i],
        ) by {
            if i > 0 {
                assert(text.skip(1).take(n)[i - 1] == text[i]);
            }
        }
        n + 1
    } else {
        assert(text.skip(0) =~= text);
        0
    }
}

/// What a text ends with is white space from a place on.
proof fn lemma_trimmed_end(text: Seq<char>) -> (to: int)
    ensures
        0 <= to <= text.len(),
        trimmed_end(text) == text.take(to),
        blank(text.skip(to)),
        to > 0 ==> !white_space(text[to - 1]),
    decreases text.len(),
{
    if text.len() > 0 && white_space(text.last()) {
        let shorter = text.drop_last();
        let to = lemma_trimmed_end(shorter);
        assert(shorter.take(to) =~= text.take(to));
        assert forall|i: int| 0 <= i < text.skip(to).len() implies white_space(
            #[trigger] text.skip(to)[i],
        ) by {
            if i < text.len() - to - 1 {
                assert(shorter.skip(to)[i] == text.skip(to)[i]);
            }
        }
        to
    } else {
        assert(text.take(text.len() as int) =~= text);
        text.len() as int
    }
}

/// Blanks are the space, the tabulator, and the ends of lines, among others;
/// letters, digits, and signs are none.
pub proof fn law_letters_are_no_white_space(c: char)
    ensures
        white_space(' ') && white_space('\t') && white_space('\n') && white_space('\r'),
        0x21 <= c as u32 <= 0x7e ==> !white_space(c),
        blank(Seq::empty()),
{
}

/// Repetitions of a character are taken off the end, all of them and nothing
/// else.
pub proof fn law_trailing_characters_are_taken_off(text: Seq<char>, c: char)
    ensures
        without_trailing(text, c).is_prefix_of(text),
        without_trailing(text, c).len() > 0 ==> without_trailing(text, c).last() != c,
        forall|i: int|
            without_trailing(text, c).len() <= i < text.len() ==> #[trigger] text[i] == c,
    decreases text.len(),
{
    if text.len() > 0 && text.last() == c {
        let shorter = text.drop_last();
        law_trailing_characters_are_taken_off(shorter, c);
        assert forall|i: int|
            without_trailing(text, c).len() <= i < text.len() implies #[trigger] text[i] == c by {
            if i < shorter.len() {
                assert(shorter[i] == text[i]);
            }
        }
        assert(without_trailing(text, c).is_prefix_of(text));
    }
}

/// Whether a text ends with another one.
pub open spec fn ends_with(text: Seq<char>, end: Seq<char>) -> bool {
    text.len() >= end.len() && text.skip(text.len() - end.len()) == end
}

/// A text that was put behind another one is its end.
pub proof fn lemma_ends_with(start: Seq<char>, end: Seq<char>)
    ensures
        ends_with(start + end, end),
{
    assert((start + end).skip((start + end).len() - end.len()) =~= end);
}

/// A number is written in decimal digits that read as that number, without a
/// leading zero.
pub proof fn law_numbers_read_back(n: nat)
    ensures
        all_digits(decimal_digits(n)),
        digits_value(decimal_digits(n)) == n,
        decimal_digits(n).len() > 0,
        n > 0 ==> decimal_digits(n)[0] != '0',
    decreases n,
{
    lemma_decimal_digits(n);
    if n >= 10 {
        law_numbers_read_back(n / 10);
        assert(decimal_digits(n)[0] == decimal_digits(n / 10)[0]);
    }
}

/// Texts are ordered by their first difference: the one with the lesser
/// character comes first, and a text comes before its continuations.
pub proof fn law_texts_are_ordered_by_their_first_difference(
    start: Seq<char>,
    one: char,
    other: char,
    rest: Seq<char>,
    more: Seq<char>,
)
    ensures
        before(start + seq![one] + rest, start + seq![other] + more) <==> (one as int) < (
        other as int) || (one == other && before(rest, more)),
        before(start, start + seq![one] + rest),
        !before(start + rest, start),
    decreases start.len(),
{
    let a = start + seq![one] + rest;
    let b = start + seq![other] + more;
    if start.len() == 0 {
        assert(a.skip(1) =~= rest);
        assert(b.skip(1) =~= more);
        assert(start + rest =~= rest);
    } else {
        let shorter = start.skip(1);
        law_texts_are_ordered_by_their_first_difference(shorter, one, other, rest, more);
        assert(a.skip(1) =~= shorter + seq![one] + rest);
        assert(b.skip(1) =~= shorter + seq![other] + more);
        assert((start + rest).skip(1) =~= shorter + rest);
        assert(a[0] == start[0]);
        assert(b[0] == start[0]);
        assert((start + rest)[0] == start[0]);
    }
}

} // verus!
