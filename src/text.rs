//! Reading command output: decimal numbers, flags and trailing text.

use vstd::prelude::*;

verus! {

/// The value of an ASCII decimal digit.
pub open spec fn digit_of(c: char) -> nat {
    (c as u32 - '0' as u32) as nat
}

pub open spec fn is_digit(c: char) -> bool {
    '0' <= c && c <= '9'
}

pub open spec fn all_digits(s: Seq<char>) -> bool {
    forall|i: int| 0 <= i < s.len() ==> is_digit(#[trigger] s[i])
}

/// The number written by a sequence of decimal digits.
pub open spec fn digits_value(s: Seq<char>) -> nat
    decreases s.len(),
{
    if s.len() == 0 {
        0
    } else {
        digits_value(s.drop_last()) * 10 + digit_of(s.last())
    }
}

/// The digits of a number with an optional leading `+` taken off.
pub open spec fn unsigned_digits(s: Seq<char>) -> Seq<char> {
    if s.len() > 0 && s[0] == '+' {
        s.drop_first()
    } else {
        s
    }
}

/// A `u64` written in decimal, with an optional leading `+`; `None` when the
/// text is no such number or the number does not fit.
pub open spec fn number_of(s: Seq<char>) -> Option<u64> {
    let d = unsigned_digits(s);
    if d.len() > 0 && all_digits(d) && digits_value(d) <= u64::MAX {
        Some(digits_value(d) as u64)
    } else {
        None
    }
}

proof fn lemma_digits_value_grows(d: Seq<char>, i: int)
    requires
        0 <= i <= d.len(),
        all_digits(d),
    ensures
        digits_value(d.take(i)) <= digits_value(d),
    decreases d.len() - i,
{
    if i < d.len() {
        lemma_digits_value_grows(d, i + 1);
        assert(d.take(i + 1).drop_last() =~= d.take(i));
    } else {
        assert(d.take(i) =~= d);
    }
}

/// Reads a decimal `u64` (an optional `+`, then one or more digits).
pub fn parse_number(s: &str) -> (r: Option<u64>)
    ensures
        r == number_of(s@),
{
    let n = s.unicode_len();
    let mut i: usize = 0;
    if n > 0 && s.get_char(0) == '+' {
        i = 1;
    }
    let start = i;
    let ghost d = unsigned_digits(s@);
    assert(d =~= s@.skip(start as int));
    if start == n {
        return None;
    }
    let mut acc: u64 = 0;
    while i < n
        invariant
            start <= i <= n,
            n == s@.len(),
            d =~= s@.skip(start as int),
            d == unsigned_digits(s@),
            all_digits(d.take(i - start)),
            acc as nat == digits_value(d.take(i - start)),
        decreases n - i,
    {
        let c = s.get_char(i);
        if !('0' <= c && c <= '9') {
            assert(d[i - start] == c);
            assert(!is_digit(d[i - start]));
            assert(!all_digits(d));
            assert(number_of(s@) is None);
            return None;
        }
        let v = (c as u32 - '0' as u32) as u64;
        assert(d[i - start] == c);
        assert(v == digit_of(c));
        assert(d.take(i + 1 - start).drop_last() =~= d.take(i - start));
        assert(d.take(i + 1 - start).last() == c);
        if acc > (u64::MAX - v) / 10 {
            proof {
                assert(acc * 10 + v > u64::MAX) by (nonlinear_arith)
                    requires
                        acc > (u64::MAX - v) / 10,
                        v <= 9,
                ;
                assert(all_digits(d.take(i + 1 - start)));
                assert(digits_value(d.take(i + 1 - start)) == acc * 10 + v);
                if all_digits(d) {
                    lemma_digits_value_grows(d, i + 1 - start);
                    assert(digits_value(d) > u64::MAX);
                }
                assert(number_of(s@) is None);
            }
            return None;
        }
        proof {
            assert(acc * 10 + v <= u64::MAX) by (nonlinear_arith)
                requires
                    acc <= (u64::MAX - v) / 10,
                    v <= 9,
            ;
        }
        acc = acc * 10 + v;
        i = i + 1;
        assert(all_digits(d.take(i - start)));
    }
    assert(d.take(n - start) =~= d);
    Some(acc)
}

/// The flag that a word stands for: `true` or `1`, `false` or `0`.
pub open spec fn flag_of(w: Seq<char>) -> Option<bool> {
    if w == seq!['t', 'r', 'u', 'e'] || w == seq!['1'] {
        Some(true)
    } else if w == seq!['f', 'a', 'l', 's', 'e'] || w == seq!['0'] {
        Some(false)
    } else {
        None
    }
}

/// Relies on `String::push`: appends one character at the end.
#[verifier::external_body]
pub(crate) fn push_char(s: &mut String, c: char)
    ensures
        final(s)@ == old(s)@.push(c),
{
    s.push(c)
}

/// Whether two strings hold the same characters.
pub fn same_text(a: &str, b: &str) -> (r: bool)
    ensures
        r == (a@ == b@),
{
    let n = a.unicode_len();
    if n != b.unicode_len() {
        return false;
    }
    let mut i: usize = 0;
    while i < n
        invariant
            n == a@.len() == b@.len(),
            i <= n,
            forall|j: int| 0 <= j < i ==> a@[j] == b@[j],
        decreases n - i,
    {
        if a.get_char(i) != b.get_char(i) {
            return false;
        }
        i = i + 1;
    }
    assert(a@ =~= b@);
    true
}

/// Reads a flag word: `true` or `1`, `false` or `0`.
pub fn parse_flag(w: &str) -> (r: Option<bool>)
    ensures
        r == flag_of(w@),
{
    proof {
        reveal_strlit("true");
        reveal_strlit("1");
        reveal_strlit("false");
        reveal_strlit("0");
    }
    assert("true"@ =~= seq!['t', 'r', 'u', 'e']);
    assert("false"@ =~= seq!['f', 'a', 'l', 's', 'e']);
    assert("1"@ =~= seq!['1']);
    assert("0"@ =~= seq!['0']);
    if same_text(w, "true") || same_text(w, "1") {
        Some(true)
    } else if same_text(w, "false") || same_text(w, "0") {
        Some(false)
    } else {
        None
    }
}

/// The character of a decimal digit.
pub open spec fn digit_char(d: nat) -> char {
    ((48 + d) as u8) as char
}

/// A number written in decimal, without leading zeros.
pub open spec fn decimal(n: nat) -> Seq<char>
    decreases n,
{
    if n < 10 {
        seq![digit_char(n)]
    } else {
        decimal(n / 10).push(digit_char(n % 10))
    }
}

/// Appends `n` written in decimal.
pub fn push_decimal(s: &mut String, n: u64)
    ensures
        final(s)@ == old(s)@ + decimal(n as nat),
    decreases n,
{
    if n >= 10 {
        push_decimal(s, n / 10);
    }
    let d = (n % 10) as u8;
    push_char(s, (48u8 + d) as char);
    assert(s@ =~= old(s)@ + decimal(n as nat));
}

/// Unicode's White_Space characters.
pub open spec fn white_space(c: char) -> bool {
    ||| '\u{9}' <= c && c <= '\u{d}'
    ||| c == ' '
    ||| c == '\u{85}'
    ||| c == '\u{a0}'
    ||| c == '\u{1680}'
    ||| '\u{2000}' <= c && c <= '\u{200a}'
    ||| c == '\u{2028}'
    ||| c == '\u{2029}'
    ||| c == '\u{202f}'
    ||| c == '\u{205f}'
    ||| c == '\u{3000}'
}

/// Whether a character is white space.
pub fn is_white(c: char) -> (r: bool)
    ensures
        r == white_space(c),
{
    ('\u{9}' <= c && c <= '\u{d}') || c == ' ' || c == '\u{85}' || c == '\u{a0}' || c
        == '\u{1680}' || ('\u{2000}' <= c && c <= '\u{200a}') || c == '\u{2028}' || c
        == '\u{2029}' || c == '\u{202f}' || c == '\u{205f}' || c == '\u{3000}'
}

/// Scanning `s` from the left: the finished words, and the word being read.
pub open spec fn scan_words(s: Seq<char>) -> (Seq<Seq<char>>, Seq<char>)
    decreases s.len(),
{
    if s.len() == 0 {
        (Seq::empty(), Seq::empty())
    } else {
        let (done, cur) = scan_words(s.drop_last());
        if !white_space(s.last()) {
            (done, cur.push(s.last()))
        } else if cur.len() > 0 {
            (done.push(cur), Seq::empty())
        } else {
            (done, Seq::empty())
        }
    }
}

/// The words of `s`: its longest runs of characters other than white space,
/// in order.
pub open spec fn words(s: Seq<char>) -> Seq<Seq<char>> {
    let (done, cur) = scan_words(s);
    if cur.len() > 0 {
        done.push(cur)
    } else {
        done
    }
}

pub open spec fn strings_view(v: Seq<String>) -> Seq<Seq<char>> {
    v.map_values(|w: String| w@)
}

/// Splits text into its words.
pub fn split_words(s: &str) -> (r: Vec<String>)
    ensures
        strings_view(r@) == words(s@),
{
    let n = s.unicode_len();
    let mut done: Vec<String> = Vec::new();
    let mut cur = String::new();
    let mut i: usize = 0;
    assert(s@.take(0) =~= Seq::<char>::empty());
    while i < n
        invariant
            i <= n == s@.len(),
            (strings_view(done@), cur@) == scan_words(s@.take(i as int)),
        decreases n - i,
    {
        let c = s.get_char(i);
        assert(s@.take(i + 1).drop_last() =~= s@.take(i as int));
        assert(s@.take(i + 1).last() == c);
        if !is_white(c) {
            push_char(&mut cur, c);
        } else if cur.unicode_len() > 0 {
            let w = cur;
            cur = String::new();
            proof {
                let ghost before = done@;
                assert(strings_view(before.push(w)) =~= strings_view(before).push(w@));
            }
            done.push(w);
        } else {
            cur = String::new();
        }
        i = i + 1;
        assert((strings_view(done@), cur@) == scan_words(s@.take(i as int)));
    }
    assert(s@.take(n as int) =~= s@);
    if cur.unicode_len() > 0 {
        proof {
            let ghost before = done@;
            assert(strings_view(before.push(cur)) =~= strings_view(before).push(cur@));
        }
        done.push(cur);
    }
    done
}

/// Appends the characters of `t`.
pub fn push_str(s: &mut String, t: &str)
    ensures
        final(s)@ == old(s)@ + t@,
{
    let n = t.unicode_len();
    let ghost head = s@;
    let mut i: usize = 0;
    while i < n
        invariant
            i <= n == t@.len(),
            s@ =~= head + t@.take(i as int),
        decreases n - i,
    {
        push_char(s, t.get_char(i));
        i = i + 1;
        assert(s@ =~= head + t@.take(i as int));
    }
    assert(t@.take(n as int) =~= t@);
}

/// Words written one after the other, with nothing between them.
pub open spec fn joined(ws: Seq<Seq<char>>) -> Seq<char>
    decreases ws.len(),
{
    if ws.len() == 0 {
        Seq::empty()
    } else {
        joined(ws.drop_last()) + ws.last()
    }
}

/// The number that the first word of `s` writes; `None` when there is no
/// word or it is no number.
pub open spec fn leading_number(s: Seq<char>) -> Option<u64> {
    if words(s).len() == 0 {
        None
    } else {
        number_of(words(s)[0])
    }
}

/// Reads the number that the first word writes.
pub fn parse_leading_number(s: &str) -> (r: Option<u64>)
    ensures
        r == leading_number(s@),
{
    let ws = split_words(s);
    if ws.len() == 0 {
        None
    } else {
        parse_number(ws[0].as_str())
    }
}

/// The flag that the first word of `s` stands for, and the words after it
/// joined; `None` when there is no word or the first is no flag.
pub open spec fn flag_reading(s: Seq<char>) -> Option<(bool, Seq<char>)> {
    let w = words(s);
    if w.len() == 0 {
        None
    } else {
        match flag_of(w[0]) {
            Some(b) => Some((b, joined(w.drop_first()))),
            None => None,
        }
    }
}

/// Reads a flag word and the words after it.
pub fn parse_flag_reading(s: &str) -> (r: Option<(bool, String)>)
    ensures
        match flag_reading(s@) {
            Some((b, t)) => match r {
                Some((c, u)) => c == b && u@ == t,
                None => false,
            },
            None => r is None,
        },
{
    let ws = split_words(s);
    let ghost w = strings_view(ws@);
    if ws.len() == 0 {
        return None;
    }
    match parse_flag(ws[0].as_str()) {
        Some(b) => {
            let mut rest = String::new();
            let mut i: usize = 1;
            assert(w.subrange(1, 1) =~= Seq::<Seq<char>>::empty());
            while i < ws.len()
                invariant
                    1 <= i <= ws@.len(),
                    w == strings_view(ws@),
                    rest@ == joined(w.subrange(1, i as int)),
                decreases ws@.len() - i,
            {
                assert(w.subrange(1, i + 1).drop_last() =~= w.subrange(1, i as int));
                push_str(&mut rest, ws[i].as_str());
                i = i + 1;
            }
            assert(w.subrange(1, w.len() as int) =~= w.drop_first());
            Some((b, rest))
        },
        None => None,
    }
}

/// The number of bytes that UTF-8 takes for one character.
pub open spec fn char_width(c: char) -> nat {
    if (c as u32) < 0x80 {
        1
    } else if (c as u32) < 0x800 {
        2
    } else if (c as u32) < 0x10000 {
        3
    } else {
        4
    }
}

/// The number of bytes that UTF-8 takes for a text.
pub open spec fn utf8_width(s: Seq<char>) -> nat
    decreases s.len(),
{
    if s.len() == 0 {
        0
    } else {
        utf8_width(s.drop_last()) + char_width(s.last())
    }
}

proof fn lemma_utf8_width_grows(s: Seq<char>, i: int)
    requires
        0 <= i <= s.len(),
    ensures
        utf8_width(s.take(i)) <= utf8_width(s),
    decreases s.len() - i,
{
    if i < s.len() {
        lemma_utf8_width_grows(s, i + 1);
        assert(s.take(i + 1).drop_last() =~= s.take(i));
    } else {
        assert(s.take(i) =~= s);
    }
}

/// The UTF-8 length of a text, when it is at most `u16::MAX` bytes.
pub fn short_utf8_width(s: &str) -> (r: Option<u16>)
    ensures
        r == if utf8_width(s@) <= u16::MAX {
            Some(utf8_width(s@) as u16)
        } else {
            None::<u16>
        },
{
    let n = s.unicode_len();
    let mut acc: u16 = 0;
    let mut i: usize = 0;
    assert(s@.take(0) =~= Seq::<char>::empty());
    while i < n
        invariant
            i <= n == s@.len(),
            acc as nat == utf8_width(s@.take(i as int)),
        decreases n - i,
    {
        let c = s.get_char(i);
        let w: u16 = if (c as u32) < 0x80 {
            1
        } else if (c as u32) < 0x800 {
            2
        } else if (c as u32) < 0x10000 {
            3
        } else {
            4
        };
        assert(s@.take(i + 1).drop_last() =~= s@.take(i as int));
        if acc > u16::MAX - w {
            proof {
                lemma_utf8_width_grows(s@, i + 1);
            }
            return None;
        }
        acc = acc + w;
        i = i + 1;
    }
    assert(s@.take(n as int) =~= s@);
    Some(acc)
}

} // verus!
