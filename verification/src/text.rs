//! Small verified text utilities: digit rendering, decimal formatting and
//! string equality, used by the formatting and classification logic.

use vstd::prelude::*;

verus! {

/// The character that renders one digit value below sixteen, upper case for
/// the six letter digits.
pub open spec fn digit_char(d: nat) -> char {
    if d == 0 {
        '0'
    } else if d == 1 {
        '1'
    } else if d == 2 {
        '2'
    } else if d == 3 {
        '3'
    } else if d == 4 {
        '4'
    } else if d == 5 {
        '5'
    } else if d == 6 {
        '6'
    } else if d == 7 {
        '7'
    } else if d == 8 {
        '8'
    } else if d == 9 {
        '9'
    } else if d == 10 {
        'A'
    } else if d == 11 {
        'B'
    } else if d == 12 {
        'C'
    } else if d == 13 {
        'D'
    } else if d == 14 {
        'E'
    } else {
        'F'
    }
}

/// The decimal rendering of a natural number, most significant digit first.
pub open spec fn dec_of(n: nat) -> Seq<char>
    decreases n,
{
    if n < 10 {
        seq![digit_char(n)]
    } else {
        dec_of(n / 10).push(digit_char(n % 10))
    }
}

/// One digit value below sixteen as a static string.
fn digit_str(d: u32) -> (r: &'static str)
    requires
        d < 16,
    ensures
        r@ == seq![digit_char(d as nat)],
{
    let r: &'static str = match d {
        0 => "0",
        1 => "1",
        2 => "2",
        3 => "3",
        4 => "4",
        5 => "5",
        6 => "6",
        7 => "7",
        8 => "8",
        9 => "9",
        10 => "A",
        11 => "B",
        12 => "C",
        13 => "D",
        14 => "E",
        _ => "F",
    };
    proof {
        reveal_strlit("0");
        reveal_strlit("1");
        reveal_strlit("2");
        reveal_strlit("3");
        reveal_strlit("4");
        reveal_strlit("5");
        reveal_strlit("6");
        reveal_strlit("7");
        reveal_strlit("8");
        reveal_strlit("9");
        reveal_strlit("A");
        reveal_strlit("B");
        reveal_strlit("C");
        reveal_strlit("D");
        reveal_strlit("E");
        reveal_strlit("F");
        assert(r@ =~= seq![digit_char(d as nat)]);
    }
    r
}

/// Renders a number in decimal, most significant digit first.
pub fn dec_str(n: u32) -> (r: String)
    ensures
        r@ == dec_of(n as nat),
    decreases n,
{
    if n < 10 {
        String::from_str(digit_str(n))
    } else {
        let mut s = dec_str(n / 10);
        s.append(digit_str(n % 10));
        proof {
            assert(s@ =~= dec_of(n as nat));
        }
        s
    }
}

/// The four-digit upper-case hexadecimal rendering of a 16-bit value,
/// zero-padded, most significant digit first.
pub open spec fn hex4_of(v: u16) -> Seq<char> {
    seq![
        digit_char((v as nat / 4096) % 16),
        digit_char((v as nat / 256) % 16),
        digit_char((v as nat / 16) % 16),
        digit_char(v as nat % 16),
    ]
}

/// Renders a 16-bit value as four upper-case hexadecimal digits.
pub fn hex4(v: u16) -> (r: String)
    ensures
        r@ == hex4_of(v),
{
    let w = v as u32;
    let mut s = String::from_str(digit_str((w / 4096) % 16));
    s.append(digit_str((w / 256) % 16));
    s.append(digit_str((w / 16) % 16));
    s.append(digit_str(w % 16));
    proof {
        assert(s@ =~= hex4_of(v));
    }
    s
}

/// Whether a character counts as surrounding whitespace when an attribute
/// value is trimmed: space, tab, line feed or carriage return.
pub open spec fn is_space_char(c: char) -> bool {
    c == ' ' || c == '\t' || c == '\n' || c == '\r'
}

/// The number of leading whitespace characters of a text.
pub open spec fn trim_start_of(s: Seq<char>) -> int
    decreases s.len(),
{
    if s.len() == 0 {
        0
    } else if is_space_char(s[0]) {
        1 + trim_start_of(s.drop_first())
    } else {
        0
    }
}

/// The length of a text once its trailing whitespace is dropped.
pub open spec fn trim_end_of(s: Seq<char>) -> int
    decreases s.len(),
{
    if s.len() == 0 {
        0
    } else if is_space_char(s.last()) {
        trim_end_of(s.drop_last())
    } else {
        s.len() as int
    }
}

/// A text with its surrounding whitespace dropped.
pub open spec fn trim_of(s: Seq<char>) -> Seq<char> {
    if trim_start_of(s) <= trim_end_of(s) {
        s.subrange(trim_start_of(s), trim_end_of(s))
    } else {
        Seq::<char>::empty()
    }
}

proof fn lemma_trim_start_char(s: Seq<char>, i: int)
    requires
        0 <= i <= s.len(),
        forall|j: int| 0 <= j < i ==> is_space_char(s[j]),
        i == s.len() || !is_space_char(s[i]),
    ensures
        trim_start_of(s) == i,
    decreases s.len(),
{
    if s.len() == 0 {
    } else if is_space_char(s[0]) {
        lemma_trim_start_char(s.drop_first(), i - 1);
    }
}

proof fn lemma_trim_end_char(s: Seq<char>, i: int)
    requires
        0 <= i <= s.len(),
        forall|j: int| i <= j < s.len() ==> is_space_char(s[j]),
        i == 0 || !is_space_char(s[i - 1]),
    ensures
        trim_end_of(s) == i,
    decreases s.len(),
{
    if s.len() == 0 {
    } else if is_space_char(s.last()) {
        lemma_trim_end_char(s.drop_last(), i);
    }
}

/// Whether a character counts as surrounding whitespace, executable form.
fn is_space(c: char) -> (r: bool)
    ensures
        r == is_space_char(c),
{
    c == ' ' || c == '\t' || c == '\n' || c == '\r'
}

/// Drops surrounding whitespace from a text, as attribute values read from
/// the device tree are trimmed before use.
pub fn trim(s: &str) -> (r: String)
    ensures
        r@ == trim_of(s@),
{
    let n = s.unicode_len();
    let mut start: usize = 0;
    while start < n
        invariant
            0 <= start <= n,
            n == s@.len(),
            forall|j: int| 0 <= j < start ==> is_space_char(s@[j]),
        ensures
            0 <= start <= n,
            forall|j: int| 0 <= j < start ==> is_space_char(s@[j]),
            start == n || !is_space_char(s@[start as int]),
        decreases n - start,
    {
        if !is_space(s.get_char(start)) {
            break;
        }
        start += 1;
    }
    proof {
        lemma_trim_start_char(s@, start as int);
    }
    if start == n {
        proof {
            lemma_trim_end_char(s@, 0);
            assert(trim_of(s@) =~= Seq::<char>::empty());
        }
        return String::new();
    }
    let mut end: usize = n;
    while end > start
        invariant
            start <= end <= n,
            n == s@.len(),
            forall|j: int| end <= j < n ==> is_space_char(s@[j]),
        ensures
            start <= end <= n,
            forall|j: int| end <= j < n ==> is_space_char(s@[j]),
            end == start || !is_space_char(s@[end - 1]),
        decreases end,
    {
        if !is_space(s.get_char(end - 1)) {
            break;
        }
        end -= 1;
    }
    proof {
        assert(end > start) by {
            if end == start {
                assert(is_space_char(s@[start as int]));
            }
        }
        lemma_trim_end_char(s@, end as int);
    }
    s.substring_char(start, end).to_owned()
}

/// The value of one hexadecimal digit character, upper or lower case;
/// sixteen marks a character that is no hexadecimal digit.
pub open spec fn hex_digit_val(c: char) -> nat {
    if c == '0' {
        0
    } else if c == '1' {
        1
    } else if c == '2' {
        2
    } else if c == '3' {
        3
    } else if c == '4' {
        4
    } else if c == '5' {
        5
    } else if c == '6' {
        6
    } else if c == '7' {
        7
    } else if c == '8' {
        8
    } else if c == '9' {
        9
    } else if c == 'a' || c == 'A' {
        10
    } else if c == 'b' || c == 'B' {
        11
    } else if c == 'c' || c == 'C' {
        12
    } else if c == 'd' || c == 'D' {
        13
    } else if c == 'e' || c == 'E' {
        14
    } else if c == 'f' || c == 'F' {
        15
    } else {
        16
    }
}

/// Whether a character is a hexadecimal digit.
pub open spec fn is_hex_digit_char(c: char) -> bool {
    hex_digit_val(c) < 16
}

/// The value of a text read as a hexadecimal number, most significant digit
/// first.
pub open spec fn hex_val(s: Seq<char>) -> nat
    decreases s.len(),
{
    if s.len() == 0 {
        0
    } else {
        hex_val(s.drop_last()) * 16 + hex_digit_val(s.last())
    }
}

/// Whether a text is a well-formed hexadecimal number: non-empty and made
/// of hexadecimal digits alone.
pub open spec fn is_hex_str(s: Seq<char>) -> bool {
    s.len() > 0 && (forall|i: int| 0 <= i < s.len() ==> is_hex_digit_char(s[i]))
}

/// The 16-bit value a hexadecimal attribute text denotes, and zero when the
/// text is no well-formed hexadecimal number or its value does not fit.
pub open spec fn hex_u16_of(s: Seq<char>) -> u16 {
    if is_hex_str(s) && hex_val(s) <= 0xFFFF {
        hex_val(s) as u16
    } else {
        0
    }
}

proof fn lemma_hex_val_prefix(s: Seq<char>, i: int)
    requires
        0 <= i <= s.len(),
    ensures
        hex_val(s.take(i)) <= hex_val(s),
    decreases s.len() - i,
{
    if i == s.len() {
        assert(s.take(i) =~= s);
    } else {
        assert(s.take(i + 1).drop_last() =~= s.take(i));
        assert(s.take(i + 1).last() == s[i]);
        lemma_hex_val_prefix(s, i + 1);
    }
}

/// The value of one hexadecimal digit character, executable form; sixteen
/// marks a character that is no hexadecimal digit.
fn hex_digit(c: char) -> (r: u32)
    ensures
        r == hex_digit_val(c),
{
    if c == '0' {
        0
    } else if c == '1' {
        1
    } else if c == '2' {
        2
    } else if c == '3' {
        3
    } else if c == '4' {
        4
    } else if c == '5' {
        5
    } else if c == '6' {
        6
    } else if c == '7' {
        7
    } else if c == '8' {
        8
    } else if c == '9' {
        9
    } else if c == 'a' || c == 'A' {
        10
    } else if c == 'b' || c == 'B' {
        11
    } else if c == 'c' || c == 'C' {
        12
    } else if c == 'd' || c == 'D' {
        13
    } else if c == 'e' || c == 'E' {
        14
    } else if c == 'f' || c == 'F' {
        15
    } else {
        16
    }
}

/// Reads a 16-bit value from a hexadecimal attribute text, yielding zero
/// when the text is no well-formed hexadecimal number or its value does not
/// fit in sixteen bits.
pub fn parse_hex_u16(s: &str) -> (r: u16)
    ensures
        r == hex_u16_of(s@),
{
    let n = s.unicode_len();
    if n == 0 {
        return 0;
    }
    let mut acc: u32 = 0;
    let mut i: usize = 0;
    while i < n
        invariant
            0 <= i <= n,
            n == s@.len(),
            acc == hex_val(s@.take(i as int)),
            acc <= 0xFFFF,
            forall|j: int| 0 <= j < i ==> is_hex_digit_char(s@[j]),
        decreases n - i,
    {
        let d = hex_digit(s.get_char(i));
        if d >= 16 {
            return 0;
        }
        let next = acc * 16 + d;
        proof {
            assert(s@.take(i as int + 1).drop_last() =~= s@.take(i as int));
            assert(s@.take(i as int + 1).last() == s@[i as int]);
            assert(hex_val(s@.take(i as int + 1)) == next);
        }
        if next > 0xFFFF {
            proof {
                lemma_hex_val_prefix(s@, i as int + 1);
            }
            return 0;
        }
        acc = next;
        i += 1;
    }
    proof {
        assert(s@.take(n as int) =~= s@);
    }
    acc as u16
}

/// The characters of a path after its last separator; empty when the path
/// is empty or ends in a separator.
pub open spec fn after_last_slash(p: Seq<char>) -> Seq<char>
    decreases p.len(),
{
    if p.len() == 0 {
        Seq::<char>::empty()
    } else if p.last() == '/' {
        Seq::<char>::empty()
    } else {
        after_last_slash(p.drop_last()).push(p.last())
    }
}

/// The basename a path names, absent when the path names none: the
/// non-empty final component after the last separator.
pub open spec fn basename_of_spec(p: Seq<char>) -> Option<Seq<char>> {
    if after_last_slash(p).len() == 0 {
        None
    } else {
        Some(after_last_slash(p))
    }
}

/// The directory a path lies in: the characters before its last separator,
/// absent when the path holds no separator.
pub open spec fn parent_of(p: Seq<char>) -> Option<Seq<char>>
    decreases p.len(),
{
    if p.len() == 0 {
        None
    } else if p.last() == '/' {
        Some(p.drop_last())
    } else {
        parent_of(p.drop_last())
    }
}

proof fn lemma_after_last_slash(p: Seq<char>, cut: int)
    requires
        0 <= cut <= p.len(),
        forall|j: int| cut <= j < p.len() ==> p[j] != '/',
        cut == 0 || p[cut - 1] == '/',
    ensures
        after_last_slash(p) == p.subrange(cut, p.len() as int),
    decreases p.len(),
{
    if cut == p.len() {
        assert(p.subrange(cut, p.len() as int) =~= Seq::<char>::empty());
    } else {
        lemma_after_last_slash(p.drop_last(), cut);
        assert(p.drop_last() =~= p.subrange(0, p.len() - 1));
        assert(p.drop_last().subrange(cut, p.len() - 1).push(p.last()) =~= p.subrange(
            cut,
            p.len() as int,
        ));
    }
}

proof fn lemma_parent_of(p: Seq<char>, cut: int)
    requires
        0 <= cut <= p.len(),
        forall|j: int| cut <= j < p.len() ==> p[j] != '/',
        cut == 0 || p[cut - 1] == '/',
    ensures
        parent_of(p) == (if cut == 0 {
            Option::<Seq<char>>::None
        } else {
            Some(p.subrange(0, cut - 1))
        }),
    decreases p.len(),
{
    if p.len() == 0 {
    } else if p.last() == '/' {
        assert(cut == p.len());
        assert(p.drop_last() =~= p.subrange(0, cut - 1));
    } else {
        lemma_parent_of(p.drop_last(), cut);
        if cut != 0 {
            assert(p.drop_last().subrange(0, cut - 1) =~= p.subrange(0, cut - 1));
        }
    }
}

/// The position just after the last separator of a path, and zero when the
/// path holds no separator.
fn last_slash_cut(path: &str) -> (cut: usize)
    ensures
        cut <= path@.len(),
        forall|j: int| cut <= j < path@.len() ==> path@[j] != '/',
        cut == 0 || path@[cut - 1] == '/',
{
    let n = path.unicode_len();
    let mut cut: usize = n;
    while cut > 0
        invariant
            0 <= cut <= n,
            n == path@.len(),
            forall|j: int| cut <= j < n ==> path@[j] != '/',
        ensures
            0 <= cut <= n,
            forall|j: int| cut <= j < n ==> path@[j] != '/',
            cut == 0 || path@[cut - 1] == '/',
        decreases cut,
    {
        if path.get_char(cut - 1) == '/' {
            break;
        }
        cut -= 1;
    }
    cut
}

/// Extracts the basename of a device-node path; a path that names no
/// basename yields nothing.
pub fn basename_of(path: &str) -> (r: Option<String>)
    ensures
        r.deep_view() == basename_of_spec(path@),
{
    let cut = last_slash_cut(path);
    let n = path.unicode_len();
    proof {
        lemma_after_last_slash(path@, cut as int);
    }
    if cut == n {
        return None;
    }
    Some(path.substring_char(cut, n).to_owned())
}

/// The directory a path lies in, absent when the path holds no separator.
pub fn parent_path(path: &str) -> (r: Option<String>)
    ensures
        r.deep_view() == parent_of(path@),
{
    let cut = last_slash_cut(path);
    proof {
        lemma_parent_of(path@, cut as int);
    }
    if cut == 0 {
        return None;
    }
    Some(path.substring_char(0, cut - 1).to_owned())
}

/// Compares two strings character by character.
pub fn str_eq(a: &str, b: &str) -> (r: bool)
    ensures
        r == (a@ == b@),
{
    let n = a.unicode_len();
    if n != b.unicode_len() {
        return false;
    }
    let mut i: usize = 0;
    while i < n
        invariant
            0 <= i <= n,
            n == a@.len(),
            n == b@.len(),
            forall|j: int| 0 <= j < i ==> a@[j] == b@[j],
        decreases n - i,
    {
        if a.get_char(i) != b.get_char(i) {
            return false;
        }
        i += 1;
    }
    proof {
        assert(a@ =~= b@);
    }
    true
}

} // verus!
