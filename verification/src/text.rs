//! Short texts: numbers, size labels, timers, blank input.
use vstd::prelude::*;
use vstd::string::*;

verus! {

/// The character of a decimal digit.
pub open spec fn digit_char(d: int) -> char {
    (48 + d) as char
}

/// A number in decimal, without leading zeros.
pub open spec fn digits(n: nat) -> Seq<char>
    decreases n,
{
    if n < 10 {
        seq![digit_char(n as int)]
    } else {
        digits(n / 10).push(digit_char((n % 10) as int))
    }
}

/// The text of one decimal digit.
fn digit(d: u64) -> (s: &'static str)
    requires
        d < 10,
    ensures
        s@ == seq![digit_char(d as int)],
{
    proof {
        reveal_strlit("0");
        reveal_strlit("1");
        reveal_strlit("2");
        reveal_strlit("3");
        reveal_strlit("4");
        reveal_strlit("5");
        reveal_strlit("6");
        reveal_strlit("7");
        reveal_strlit("8");
        reveal_strlit("9");
    }
    let s = match d {
        0 => "0",
        1 => "1",
        2 => "2",
        3 => "3",
        4 => "4",
        5 => "5",
        6 => "6",
        7 => "7",
        8 => "8",
        _ => "9",
    };
    assert(s@ =~= seq![digit_char(d as int)]);
    s
}

/// The number in decimal.
pub fn decimal(n: u64) -> (s: String)
    ensures
        s@ == digits(n as nat),
    decreases n,
{
    if n < 10 {
        let s = String::from_str(digit(n));
        s
    } else {
        let mut s = decimal(n / 10);
        s.append(digit(n % 10));
        assert(s@ =~= digits((n / 10) as nat).push(digit_char((n % 10) as int)));
        s
    }
}

/// The size label of a selection: width, multiplication sign, height.
pub open spec fn size_text(w: nat, h: nat) -> Seq<char> {
    digits(w) + "\u{00D7}"@ + digits(h)
}

/// The label `w`x`h`, with a multiplication sign.
pub fn size_label(w: u64, h: u64) -> (s: String)
    ensures
        s@ == size_text(w as nat, h as nat),
{
    let mut s = decimal(w);
    s.append("\u{00D7}");
    s.append(decimal(h).as_str());
    s
}

/// The running time of a recording: minutes, colon, two digits of seconds.
pub open spec fn timer_text(secs: nat) -> Seq<char> {
    digits(secs / 60) + ":"@ + seq![
        digit_char((secs % 60) as int / 10),
        digit_char((secs % 60) as int % 10),
    ]
}

/// The timer label for the given number of seconds.
pub fn timer_label(secs: u64) -> (s: String)
    ensures
        s@ == timer_text(secs as nat),
{
    let mut s = decimal(secs / 60);
    s.append(":");
    s.append(digit((secs % 60) / 10));
    s.append(digit((secs % 60) % 10));
    assert(s@ =~= timer_text(secs as nat));
    s
}

/// Whether the character has the Unicode property White_Space.
pub open spec fn white_space(c: char) -> bool {
    let n = c as u32;
    ||| 0x9 <= n <= 0xd
    ||| n == 0x20
    ||| n == 0x85
    ||| n == 0xa0
    ||| n == 0x1680
    ||| 0x2000 <= n <= 0x200a
    ||| n == 0x2028
    ||| n == 0x2029
    ||| n == 0x202f
    ||| n == 0x205f
    ||| n == 0x3000
}

/// Nothing but white space.
pub open spec fn all_white(s: Seq<char>) -> bool {
    forall|i: int| 0 <= i < s.len() ==> white_space(#[trigger] s[i])
}

fn is_white_space(c: char) -> (b: bool)
    ensures
        b == white_space(c),
{
    let n: u32 = c as u32;
    (0x9 <= n && n <= 0xd) || n == 0x20 || n == 0x85 || n == 0xa0 || n == 0x1680 || (0x2000 <= n
        && n <= 0x200a) || n == 0x2028 || n == 0x2029 || n == 0x202f || n == 0x205f || n == 0x3000
}

/// Whether the text is empty once leading and trailing white space is gone.
pub fn is_blank(s: &str) -> (b: bool)
    ensures
        b == all_white(s@),
{
    for c in it: s.chars()
        invariant
            it.seq() == s@,
            forall|i: int| 0 <= i < it.index() ==> white_space(#[trigger] s@[i]),
    {
        if !is_white_space(c) {
            assert(!white_space(s@[it.index() as int]));
            return false;
        }
    }
    true
}

/// The number that a text of decimal digits stands for.
pub open spec fn value(s: Seq<char>) -> int
    decreases s.len(),
{
    if s.len() == 0 {
        0
    } else {
        10 * value(s.drop_last()) + (s.last() as int - '0' as int)
    }
}

/// A number in decimal stands for that number, is made of digits alone, and has no leading
/// zero unless it is zero.
pub proof fn law_decimal_reads_back(n: nat, k: int)
    ensures
        value(digits(n)) == n,
        digits(n).len() > 0,
        0 <= k < digits(n).len() ==> '0' <= digits(n)[k] <= '9',
        n > 0 ==> digits(n)[0] != '0',
        n < 10 ==> digits(n).len() == 1,
    decreases n,
{
    reveal_with_fuel(value, 2);
    if n < 10 {
        assert(digits(n).drop_last() =~= Seq::<char>::empty());
    } else {
        law_decimal_reads_back(n / 10, k);
        law_decimal_reads_back(n / 10, 0);
        assert(digits(n).drop_last() =~= digits(n / 10));
    }
}

/// The size label reads back as width and height, with a multiplication sign between them.
pub proof fn law_size_label_reads_back(w: nat, h: nat)
    ensures
        ({
            let (s, d) = (size_text(w, h), digits(w).len() as int);
            &&& 0 < d < s.len() - 1
            &&& value(s.take(d)) == w
            &&& s[d] == '\u{00D7}'
            &&& value(s.skip(d + 1)) == h
        }),
{
    reveal_strlit("\u{00D7}");
    let (s, d) = (size_text(w, h), digits(w).len() as int);
    law_decimal_reads_back(w, 0);
    law_decimal_reads_back(h, 0);
    assert(s.take(d) =~= digits(w));
    assert(s.skip(d + 1) =~= digits(h));
}

/// The timer reads back as minutes and seconds that make up the time: seconds have two
/// digits and are fewer than sixty.
pub proof fn law_timer_reads_back(secs: nat)
    ensures
        ({
            let s = timer_text(secs);
            let d = s.len() - 3;
            &&& d > 0
            &&& s[d] == ':'
            &&& 60 * value(s.take(d)) + value(s.skip(d + 1)) == secs
            &&& 0 <= value(s.skip(d + 1)) < 60
            &&& '0' <= s[d + 1] <= '9' && '0' <= s[d + 2] <= '9'
            &&& secs >= 60 ==> s[0] != '0'
        }),
{
    reveal_strlit(":");
    reveal_with_fuel(value, 3);
    let s = timer_text(secs);
    let d = s.len() - 3;
    law_decimal_reads_back(secs / 60, 0);
    assert(s.take(d) =~= digits(secs / 60));
    let (a, b) = (digit_char((secs % 60) as int / 10), digit_char((secs % 60) as int % 10));
    assert(s.skip(d + 1) =~= seq![a, b]);
    assert(seq![a, b].drop_last() =~= seq![a]);
    assert(seq![a].drop_last() =~= Seq::<char>::empty());
}

/// Tabs, line ends and spaces are blank, in ASCII and beyond; no other ASCII character is,
/// and no character beyond the ideographic space.
pub proof fn law_blank_characters(c: char)
    ensures
        c == ' ' || c == '\t' || c == '\n' || c == '\r' || c == '\u{b}' || c == '\u{c}'
            ==> white_space(c),
        c == '\u{85}' || c == '\u{a0}' || c == '\u{1680}' || c == '\u{2028}' || c == '\u{2029}'
            || c == '\u{202f}' || c == '\u{205f}' || c == '\u{3000}' ==> white_space(c),
        '\u{2000}' <= c <= '\u{200a}' ==> white_space(c),
        '!' <= c <= '\u{84}' ==> !white_space(c),
        c < '\t' || '\u{e}' <= c <= '\u{1f}' ==> !white_space(c),
        '\u{86}' <= c <= '\u{9f}' || '\u{a1}' <= c <= '\u{167f}' || '\u{1681}' <= c
            <= '\u{1fff}' ==> !white_space(c),
        '\u{200b}' <= c <= '\u{2027}' || '\u{202a}' <= c <= '\u{202e}' || '\u{2030}' <= c
            <= '\u{205e}' || '\u{2060}' <= c <= '\u{2fff}' ==> !white_space(c),
        c > '\u{3000}' ==> !white_space(c),
{
}

/// A text is blank if each of its parts is; an empty one is.
pub proof fn law_blank_parts(a: Seq<char>, b: Seq<char>, c: char)
    ensures
        all_white(a + b) <==> all_white(a) && all_white(b),
        all_white(Seq::empty()),
        all_white(seq![c]) <==> white_space(c),
{
    if all_white(a + b) {
        assert forall|i: int| 0 <= i < a.len() implies white_space(#[trigger] a[i]) by {
            assert(white_space((a + b)[i]));
        }
        assert forall|i: int| 0 <= i < b.len() implies white_space(#[trigger] b[i]) by {
            assert(white_space((a + b)[a.len() + i]));
        }
    }
    if all_white(seq![c]) {
        assert(white_space(seq![c][0]));
    }
}

} // verus!
