//! Operations on text, over the characters that a string holds.

use vstd::prelude::*;

verus! {

/// Whether a character has the Unicode property `White_Space`.
pub open spec fn white_space(c: char) -> bool {
    let n = c as int;
    ||| 0x9 <= n <= 0xd
    ||| n == 0x20
    ||| n == 0x85
    ||| n == 0xa0
    ||| n == 0x1680
    ||| 0x2000 <= n <= 0x200a
    ||| n == 0x2028
    ||| n == 0x2029
    ||| n == 0x202f
    ||| n == 0x205f
    ||| n == 0x3000
}

/// A text without its leading white space.
pub open spec fn without_leading_space(s: Seq<char>) -> Seq<char>
    decreases s.len(),
{
    if s.len() > 0 && white_space(s[0]) {
        without_leading_space(s.drop_first())
    } else {
        s
    }
}

/// A text without its trailing white space.
pub open spec fn without_trailing_space(s: Seq<char>) -> Seq<char>
    decreases s.len(),
{
    if s.len() > 0 && white_space(s.last()) {
        without_trailing_space(s.drop_last())
    } else {
        s
    }
}

/// A text without the white space around it.
pub open spec fn trimmed(s: Seq<char>) -> Seq<char> {
    without_trailing_space(without_leading_space(s))
}

/// A text without the slashes at its end.
pub open spec fn without_trailing_slashes(s: Seq<char>) -> Seq<char>
    decreases s.len(),
{
    if s.len() > 0 && s.last() == '/' {
        without_trailing_slashes(s.drop_last())
    } else {
        s
    }
}

/// Whether `part` occurs in `s` as a run of consecutive characters.
pub open spec fn has_text(s: Seq<char>, part: Seq<char>) -> bool {
    exists|i: int|
        0 <= i <= s.len() - part.len() && #[trigger] s.subrange(i, i + part.len()) == part
}

/// The decimal digits of a natural number, the most significant one first.
pub open spec fn digits(n: nat) -> Seq<char>
    decreases n,
{
    if n < 10 {
        seq![('0' as int + n) as char]
    } else {
        digits(n / 10).push(('0' as int + n % 10) as char)
    }
}

/// An integer as it is written in decimal: a minus sign if it is negative, and its digits.
pub open spec fn decimal(n: int) -> Seq<char> {
    if n < 0 {
        seq!['-'] + digits((-n) as nat)
    } else {
        digits(n as nat)
    }
}

/// Whether two texts hold the same characters.
pub fn same_text(a: &str, b: &str) -> (r: bool)
    ensures
        r == (a@ == b@),
{
    a.to_string() == b.to_string()
}

/// The two texts, one behind the other.
pub fn join(a: &str, b: &str) -> (r: String)
    ensures
        r@ == a@ + b@,
{
    let mut out = a.to_string();
    out.append(b);
    out
}

fn is_white_space(c: char) -> (r: bool)
    ensures
        r == white_space(c),
{
    let n: u32 = c as u32;
    (0x9 <= n && n <= 0xd) || n == 0x20 || n == 0x85 || n == 0xa0 || n == 0x1680 || (0x2000 <= n
        && n <= 0x200a) || n == 0x2028 || n == 0x2029 || n == 0x202f || n == 0x205f || n == 0x3000
}

/// The text without the white space around it.
pub fn trim(s: &str) -> (r: &str)
    ensures
        r@ == trimmed(s@),
{
    let n: usize = s.unicode_len();
    let mut from: usize = 0;
    assert(s@.skip(0) == s@);
    while from < n && is_white_space(s.get_char(from))
        invariant
            n == s@.len(),
            from <= n,
            without_leading_space(s@.skip(from as int)) == without_leading_space(s@),
        decreases n - from,
    {
        assert(s@.skip(from as int).drop_first() == s@.skip(from + 1));
        from += 1;
    }
    assert(without_leading_space(s@) == s@.skip(from as int));
    let ghost rest = s@.skip(from as int);
    let mut to: usize = n;
    assert(rest == s@.subrange(from as int, to as int));
    while from < to && is_white_space(s.get_char(to - 1))
        invariant
            n == s@.len(),
            from <= to <= n,
            without_trailing_space(s@.subrange(from as int, to as int)) == without_trailing_space(
                rest,
            ),
        decreases to,
    {
        assert(s@.subrange(from as int, to as int).drop_last() == s@.subrange(
            from as int,
            to - 1,
        ));
        to -= 1;
    }
    s.substring_char(from, to)
}

/// The text without the slashes at its end.
pub fn trim_end_slashes(s: &str) -> (r: &str)
    ensures
        r@ == without_trailing_slashes(s@),
{
    let mut to: usize = s.unicode_len();
    assert(s@ == s@.subrange(0, to as int));
    while 0 < to && s.get_char(to - 1) == '/'
        invariant
            to <= s@.len(),
            without_trailing_slashes(s@.subrange(0, to as int)) == without_trailing_slashes(s@),
        decreases to,
    {
        assert(s@.subrange(0, to as int).drop_last() == s@.subrange(0, to - 1));
        to -= 1;
    }
    s.substring_char(0, to)
}

/// Whether `part` occurs in `s`.
pub fn contains_text(s: &str, part: &str) -> (r: bool)
    ensures
        r == has_text(s@, part@),
{
    let n: usize = s.unicode_len();
    let m: usize = part.unicode_len();
    if n < m {
        return false;
    }
    let last: usize = n - m;
    let mut i: usize = 0;
    while !same_text(s.substring_char(i, i + m), part)
        invariant
            n == s@.len(),
            m == part@.len(),
            last == n - m,
            i <= last,
            forall|k: int| 0 <= k < i ==> #[trigger] s@.subrange(k, k + m) != part@,
        decreases last - i,
    {
        if i == last {
            return false;
        }
        i += 1;
    }
    true
}

/// The integer as it is written in decimal.
pub fn decimal_text(n: i64) -> (r: String)
    ensures
        r@ == decimal(n as int),
{
    if n < 0 {
        proof {
            reveal_strlit("-");
        }
        join("-", &digits_text((-(n as i128)) as u64))
    } else {
        digits_text(n as u64)
    }
}

/// The natural number as it is written in decimal.
pub fn digits_text(n: u64) -> (r: String)
    ensures
        r@ == digits(n as nat),
    decreases n,
{
    if n < 10 {
        digit_text(n as u8)
    } else {
        let mut out = digits_text(n / 10);
        out.append(&digit_text((n % 10) as u8));
        out
    }
}

fn digit_text(n: u8) -> (r: String)
    requires
        n < 10,
    ensures
        r@ == seq![('0' as int + n) as char],
{
    let all = "0123456789";
    proof {
        reveal_strlit("0123456789");
    }
    let k: usize = n as usize;
    all.substring_char(k, k + 1).to_string()
}

/// What is left of a text without its trailing slashes does not end in one, and is how the text
/// begins.
pub proof fn lemma_no_trailing_slash(s: Seq<char>)
    ensures
        without_trailing_slashes(s).len() > 0 ==> without_trailing_slashes(s).last() != '/',
        without_trailing_slashes(s).is_prefix_of(s),
    decreases s.len(),
{
    if s.len() > 0 && s.last() == '/' {
        lemma_no_trailing_slash(s.drop_last());
        let r = without_trailing_slashes(s);
        assert(s.take(r.len() as int) =~= s.drop_last().take(r.len() as int));
    }
}

/// What is cut off a text is white space at its ends, and all of it: what is left stands in the text
/// as it is, and neither begins nor ends with white space.
pub proof fn lemma_trimmed(s: Seq<char>)
    ensures
        exists|i: int, j: int|
            #![trigger s.subrange(i, j)]
            0 <= i <= j <= s.len() && trimmed(s) == s.subrange(i, j) && (forall|k: int|
                0 <= k < i || j <= k < s.len() ==> white_space(#[trigger] s[k])),
        trimmed(s).len() > 0 ==> !white_space(trimmed(s)[0]) && !white_space(trimmed(s).last()),
{
    lemma_leading(s);
    let rest = without_leading_space(s);
    let i = choose|i: int|
        #![trigger s.skip(i)]
        0 <= i <= s.len() && rest == s.skip(i) && (forall|k: int|
            0 <= k < i ==> white_space(#[trigger] s[k]));
    lemma_trailing(rest);
    let n = choose|n: int|
        #![trigger rest.take(n)]
        0 <= n <= rest.len() && without_trailing_space(rest) == rest.take(n) && (forall|k: int|
            n <= k < rest.len() ==> white_space(#[trigger] rest[k]));
    assert(trimmed(s) =~= s.subrange(i, i + n));
    assert forall|k: int| 0 <= k < i || i + n <= k < s.len() implies white_space(
        #[trigger] s[k],
    ) by {
        if k >= i + n {
            assert(rest[k - i] == s[k]);
        }
    }
    if trimmed(s).len() > 0 {
        assert(trimmed(s)[0] == rest[0]);
    }
}

proof fn lemma_leading(s: Seq<char>)
    ensures
        exists|i: int|
            #![trigger s.skip(i)]
            0 <= i <= s.len() && without_leading_space(s) == s.skip(i) && (forall|k: int|
                0 <= k < i ==> white_space(#[trigger] s[k])),
        without_leading_space(s).len() > 0 ==> !white_space(without_leading_space(s)[0]),
    decreases s.len(),
{
    if s.len() > 0 && white_space(s[0]) {
        let t = s.drop_first();
        lemma_leading(t);
        let i = choose|i: int|
            #![trigger t.skip(i)]
            0 <= i <= t.len() && without_leading_space(t) == t.skip(i) && (forall|k: int|
                0 <= k < i ==> white_space(#[trigger] t[k]));
        assert(t.skip(i) =~= s.skip(i + 1));
        assert forall|k: int| 0 <= k < i + 1 implies white_space(#[trigger] s[k]) by {
            if k > 0 {
                assert(t[k - 1] == s[k]);
            }
        }
    } else {
        assert(s.skip(0) =~= s);
    }
}

proof fn lemma_trailing(s: Seq<char>)
    ensures
        exists|n: int|
            #![trigger s.take(n)]
            0 <= n <= s.len() && without_trailing_space(s) == s.take(n) && (forall|k: int|
                n <= k < s.len() ==> white_space(#[trigger] s[k])),
        without_trailing_space(s).len() > 0 ==> !white_space(without_trailing_space(s).last()),
    decreases s.len(),
{
    if s.len() > 0 && white_space(s.last()) {
        let t = s.drop_last();
        lemma_trailing(t);
        let n = choose|n: int|
            #![trigger t.take(n)]
            0 <= n <= t.len() && without_trailing_space(t) == t.take(n) && (forall|k: int|
                n <= k < t.len() ==> white_space(#[trigger] t[k]));
        assert(t.take(n) =~= s.take(n));
        assert forall|k: int| n <= k < s.len() implies white_space(#[trigger] s[k]) by {
            if k < t.len() {
                assert(t[k] == s[k]);
            }
        }
    } else {
        assert(s.take(s.len() as int) =~= s);
    }
}

/// The number that decimal digits stand for.
pub open spec fn value_of_digits(s: Seq<char>) -> int
    decreases s.len(),
{
    if s.len() == 0 {
        0
    } else {
        10 * value_of_digits(s.drop_last()) + (s.last() as int - '0' as int)
    }
}

/// The digits of a number stand for it. They are digits, and the first is not 0 unless it is the only
/// one.
pub proof fn lemma_digits_stand_for_the_number(n: nat)
    ensures
        value_of_digits(digits(n)) == n,
        digits(n).len() > 0,
        forall|i: int| 0 <= i < digits(n).len() ==> '0' <= #[trigger] digits(n)[i] <= '9',
        n > 0 ==> digits(n)[0] != '0',
    decreases n,
{
    if n < 10 {
        let s = digits(n);
        assert(s.drop_last().len() == 0);
        assert(value_of_digits(s.drop_last()) == 0);
    } else {
        lemma_digits_stand_for_the_number(n / 10);
        let s = digits(n);
        assert(s.drop_last() =~= digits(n / 10));
        assert(s[0] == digits(n / 10)[0]);
    }
}

/// A number that is negative is written with a minus sign before its digits, and no other with one.
pub proof fn lemma_sign_of_decimal(n: int)
    ensures
        decimal(n).len() > 0,
        n < 0 <==> decimal(n)[0] == '-',
        n < 0 ==> value_of_digits(decimal(n).skip(1)) == -n,
        n >= 0 ==> value_of_digits(decimal(n)) == n,
{
    if n < 0 {
        lemma_digits_stand_for_the_number((-n) as nat);
        assert(decimal(n).skip(1) =~= digits((-n) as nat));
    } else {
        lemma_digits_stand_for_the_number(n as nat);
    }
}

/// A text occurs in another if and only if the other is something, then this text, then something.
pub proof fn lemma_occurs(s: Seq<char>, part: Seq<char>, before: Seq<char>, behind: Seq<char>)
    ensures
        has_text(before + part + behind, part),
        has_text(s, part) ==> exists|i: int|
            0 <= i && i + part.len() <= s.len() && s == #[trigger] s.take(i) + part + s.skip(
                i + part.len(),
            ),
        part.len() > s.len() ==> !has_text(s, part),
{
    let all = before + part + behind;
    let n = before.len() as int;
    assert(all.subrange(n, n + part.len()) =~= part);
    if has_text(s, part) {
        let i = choose|i: int|
            0 <= i <= s.len() - part.len() && #[trigger] s.subrange(i, i + part.len()) == part;
        assert(s =~= s.take(i) + part + s.skip(i + part.len()));
    }
}

} // verus!
