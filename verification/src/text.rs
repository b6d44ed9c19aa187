//! Text helpers: UTF-8 decoding, decimal numbers, affixes and trimming.

use vstd::prelude::*;
use vstd::string::*;
use vstd::utf8::*;

verus! {

/// The character of a decimal digit.
pub open spec fn digit_char(d: nat) -> char {
    (48 + d) as char
}

/// Whether a character is one of `0` to `9`.
pub open spec fn is_digit(c: char) -> bool {
    48 <= c as u32 <= 57
}

/// The decimal digits of a number, without leading zeros.
pub open spec fn decimal(n: nat) -> Seq<char>
    decreases n,
{
    if n < 10 {
        seq![digit_char(n)]
    } else {
        decimal(n / 10).push(digit_char(n % 10))
    }
}

/// The number that a run of decimal digits writes.
pub open spec fn decimal_value(digits: Seq<char>) -> nat
    decreases digits.len(),
{
    if digits.len() == 0 {
        0
    } else {
        10 * decimal_value(digits.drop_last()) + (digits.last() as u32 - 48) as nat
    }
}

/// Whether every character is a decimal digit.
pub open spec fn all_digits(s: Seq<char>) -> bool {
    forall|i: int| 0 <= i < s.len() ==> is_digit(#[trigger] s[i])
}

/// What follows an optional leading `+`.
pub open spec fn unsigned_digits(s: Seq<char>) -> Seq<char> {
    if s.len() > 0 && s[0] == '+' {
        s.skip(1)
    } else {
        s
    }
}

/// The `u64` that a text writes: an optional `+`, then at least one decimal
/// digit and nothing else, with a value that fits.
pub open spec fn parsed_u64(s: Seq<char>) -> Option<u64> {
    let digits = unsigned_digits(s);
    if digits.len() > 0 && all_digits(digits) && decimal_value(digits) <= u64::MAX {
        Some(decimal_value(digits) as u64)
    } else {
        None
    }
}

/// Law: reading back the decimal digits of a number gives the number.
pub proof fn decimal_round_trip(n: u64)
    ensures
        parsed_u64(decimal(n as nat)) == Some(n),
{
    lemma_decimal_digits(n as nat);
    assert(decimal(n as nat)[0] != '+');
}

/// `decimal` writes at least one digit, digits only, and its own value.
pub(crate) proof fn lemma_decimal_digits(n: nat)
    ensures
        decimal(n).len() > 0,
        all_digits(decimal(n)),
        decimal_value(decimal(n)) == n,
    decreases n,
{
    if n < 10 {
        reveal_with_fuel(decimal_value, 2);
        assert(decimal(n).drop_last() =~= Seq::<char>::empty());
        assert(decimal(n).last() as u32 == 48 + n);
    } else {
        lemma_decimal_digits(n / 10);
        assert(decimal(n).drop_last() =~= decimal(n / 10));
        assert(decimal(n).last() as u32 == 48 + n % 10);
    }
}

/// Prefixes of a digit run never write a larger number.
proof fn lemma_decimal_value_monotonic(s: Seq<char>, i: int)
    requires
        all_digits(s),
        0 <= i <= s.len(),
    ensures
        decimal_value(s.take(i)) <= decimal_value(s),
    decreases s.len() - i,
{
    if i < s.len() {
        lemma_decimal_value_monotonic(s, i + 1);
        assert(s.take(i + 1).drop_last() =~= s.take(i));
    } else {
        assert(s.take(i) =~= s);
    }
}

/// The characters of a text.
pub fn chars_of(s: &str) -> (r: Vec<char>)
    ensures
        r@ == s@,
{
    let mut out: Vec<char> = Vec::new();
    for c in it: s.chars()
        invariant
            out@ == it.seq().take(it.index()),
            it.seq() == s@,
    {
        out.push(c);
    }
    out
}

/// The text of one decimal digit.
fn digit_text(d: u64) -> (r: &'static str)
    requires
        d < 10,
    ensures
        r@ == seq![digit_char(d as nat)],
{
    proof {
        reveal_strlit("0");
        reveal_strlit("1");
        reveal_strlit("2");
        reveal_strlit("3");
        reveal_strlit("4");
        reveal_strlit("5");
        reveal_strlit("6");
        reveal_strlit("7");
        reveal_strlit("8");
        reveal_strlit("9");
    }
    if d == 0 {
        "0"
    } else if d == 1 {
        "1"
    } else if d == 2 {
        "2"
    } else if d == 3 {
        "3"
    } else if d == 4 {
        "4"
    } else if d == 5 {
        "5"
    } else if d == 6 {
        "6"
    } else if d == 7 {
        "7"
    } else if d == 8 {
        "8"
    } else {
        "9"
    }
}

/// A number's decimal text.
pub fn u64_text(n: u64) -> (r: String)
    ensures
        r@ == decimal(n as nat),
    decreases n,
{
    if n < 10 {
        digit_text(n).to_owned()
    } else {
        let mut out: String = u64_text(n / 10);
        out.append(digit_text(n % 10));
        out
    }
}

/// Reads a `u64` from its decimal text.
pub fn parse_u64(s: &str) -> (r: Option<u64>)
    ensures
        r == parsed_u64(s@),
{
    let cs: Vec<char> = chars_of(s);
    let start: usize = if cs.len() > 0 && cs[0] == '+' {
        1
    } else {
        0
    };
    let ghost digits = unsigned_digits(s@);
    assert(digits =~= cs@.skip(start as int));
    if cs.len() == start {
        return None;
    }
    let mut value: u64 = 0;
    let mut i: usize = start;
    while i < cs.len()
        invariant
            start <= i <= cs.len(),
            start <= 1,
            digits == cs@.skip(start as int),
            digits == unsigned_digits(s@),
            digits.len() > 0,
            all_digits(digits.take(i - start)),
            value == decimal_value(digits.take(i - start)),
        decreases cs.len() - i,
    {
        let c: char = cs[i];
        assert(digits[i - start] == c);
        let code: u32 = c as u32;
        if code < 48 || code > 57 {
            assert(!is_digit(digits[i - start]));
            return None;
        }
        let d: u64 = (code - 48) as u64;
        assert(digits.take(i + 1 - start).drop_last() =~= digits.take(i - start));
        assert(decimal_value(digits.take(i + 1 - start)) == 10 * value + d);
        proof {
            if all_digits(digits) {
                lemma_decimal_value_monotonic(digits, i + 1 - start);
            }
        }
        if value > (u64::MAX - d) / 10 {
            return None;
        }
        value = 10 * value + d;
        i += 1;
    }
    assert(digits.take(i - start) =~= digits);
    Some(value)
}

/// Decodes UTF-8 with `std::str::from_utf8`: the text that the bytes encode,
/// or `None` exactly when they are no valid UTF-8.
#[verifier::external_body]
pub(crate) fn utf8_text(bytes: &[u8]) -> (r: Option<&str>)
    ensures
        r is Some <==> valid_utf8(bytes@),
        r matches Some(s) ==> s@ == decode_utf8(bytes@),
{
    std::str::from_utf8(bytes).ok()
}

/// A text in quotes, with what does not print escaped, as `format!` writes it
/// with `{:?}`.
pub uninterp spec fn debug_text(s: Seq<char>) -> Seq<char>;

/// Quotes a text with `format!` and `{:?}`, the `Debug` of `str`. Which
/// characters it escapes is left to std.
#[verifier::external_body]
pub(crate) fn quoted(s: &str) -> (r: String)
    ensures
        r@ == debug_text(s@),
{
    format!("{:?}", s)
}

/// Whether two texts are equal.
pub fn same_text(a: &str, b: &str) -> (r: bool)
    ensures
        r == (a@ == b@),
{
    a.to_owned() == b.to_owned()
}

/// Whether a text ends with another.
pub fn ends_with(s: &str, suffix: &str) -> (r: bool)
    ensures
        r == suffix@.is_suffix_of(s@),
{
    let n: usize = s.unicode_len();
    let m: usize = suffix.unicode_len();
    m <= n && same_text(s.substring_char(n - m, n), suffix)
}

/// Whether a text ends with a character.
pub fn ends_with_char(s: &str, c: char) -> (r: bool)
    ensures
        r == (s@.len() > 0 && s@.last() == c),
{
    let n: usize = s.unicode_len();
    n > 0 && s.get_char(n - 1) == c
}

/// The text of an optional string.
pub open spec fn text_of(s: Option<String>) -> Option<Seq<char>> {
    match s {
        Some(s) => Some(s@),
        None => None,
    }
}

/// Two texts, one after the other.
pub fn joined(a: &str, b: &str) -> (r: String)
    ensures
        r@ == a@ + b@,
{
    let mut out: String = a.to_owned();
    out.append(b);
    out
}

/// Where a character first occurs, or the length when it does not.
pub open spec fn position(s: Seq<char>, c: char) -> int
    decreases s.len(),
{
    if s.len() == 0 || s[0] == c {
        0
    } else {
        1 + position(s.skip(1), c)
    }
}

/// `position` points at the first occurrence.
proof fn lemma_position(s: Seq<char>, c: char, i: int)
    requires
        0 <= i <= s.len(),
        forall|j: int| 0 <= j < i ==> s[j] != c,
        i < s.len() ==> s[i] == c,
    ensures
        position(s, c) == i,
    decreases s.len(),
{
    if i > 0 {
        assert(s[0] != c);
        assert forall|j: int| 0 <= j < i - 1 implies s.skip(1)[j] != c by {
            assert(s[j + 1] != c);
        }
        lemma_position(s.skip(1), c, i - 1);
    }
}

/// The pieces between the occurrences of a separator.
pub open spec fn split(s: Seq<char>, separator: char) -> Seq<Seq<char>>
    decreases s.len(),
{
    let i = position(s, separator);
    if 0 <= i < s.len() {
        seq![s.take(i)] + split(s.skip(i + 1), separator)
    } else {
        seq![s]
    }
}

/// The first place of a character between two places, or the later place.
fn find_char(cs: &Vec<char>, from: usize, to: usize, c: char) -> (r: usize)
    requires
        from <= to <= cs.len(),
    ensures
        from <= r <= to,
        r - from == position(cs@.subrange(from as int, to as int), c),
        r < to ==> cs@[r as int] == c,
{
    let mut i: usize = from;
    while i < to && cs[i] != c
        invariant
            from <= i <= to <= cs.len(),
            forall|j: int| from <= j < i ==> cs@[j] != c,
        decreases to - i,
    {
        i += 1;
    }
    proof {
        lemma_position(cs@.subrange(from as int, to as int), c, i - from);
    }
    i
}

/// What stands behind the last occurrence of a character: the whole text when
/// there is none.
pub open spec fn last_piece(s: Seq<char>, c: char) -> Seq<char>
    decreases s.len(),
{
    if s.len() == 0 || s.last() == c {
        Seq::empty()
    } else {
        last_piece(s.drop_last(), c).push(s.last())
    }
}

/// Law: a text ends with its last piece, which holds no separator and stands
/// behind the last one. A text without separators is its own last piece.
#[verifier::rlimit(40)]
pub proof fn last_piece_ends_the_text(s: Seq<char>, c: char)
    ensures
        last_piece(s, c).is_suffix_of(s),
        !last_piece(s, c).contains(c),
        !s.contains(c) ==> last_piece(s, c) == s,
        s.contains(c) ==> s.len() > last_piece(s, c).len() && s[s.len() - last_piece(s, c).len()
            - 1] == c,
    decreases s.len(),
{
    let piece = last_piece(s, c);
    if s.len() > 0 && s.last() != c {
        let front = s.drop_last();
        last_piece_ends_the_text(front, c);
        assert(piece =~= s.subrange(s.len() - piece.len(), s.len() as int)) by {
            let front_piece = last_piece(front, c);
            assert forall|i: int| 0 <= i < piece.len() implies piece[i] == s[s.len() - piece.len()
                + i] by {
                if i < front_piece.len() {
                    assert(front_piece[i] == front.subrange(
                        front.len() - front_piece.len(),
                        front.len() as int,
                    )[i]);
                }
            }
        }
        assert forall|i: int| 0 <= i < piece.len() implies piece[i] != c by {
            if i < piece.len() - 1 {
                assert(last_piece(front, c)[i] == piece[i]);
                assert(last_piece(front, c).contains(piece[i]));
            }
        }
        if !s.contains(c) {
            assert forall|i: int| 0 <= i < front.len() implies front[i] != c by {
                assert(s.contains(s[i]));
            }
            assert(!front.contains(c));
            assert(piece =~= s);
        } else {
            let i = choose|i: int| 0 <= i < s.len() && s[i] == c;
            assert(front[i] == c);
            assert(front.contains(c));
        }
    } else if s.len() > 0 {
        assert(s.contains(s.last()));
    }
}

/// The part of a text behind the last occurrence of a character.
pub fn after_last(s: &str, c: char) -> (r: String)
    ensures
        r@ == last_piece(s@, c),
{
    let cs: Vec<char> = chars_of(s);
    let n: usize = cs.len();
    let mut start: usize = n;
    assert(cs@.subrange(n as int, n as int) =~= Seq::<char>::empty());
    assert(cs@.take(n as int) =~= cs@);
    assert(last_piece(s@, c) =~= last_piece(s@, c) + Seq::<char>::empty());
    while start > 0 && cs[start - 1] != c
        invariant
            start <= n,
            n == cs.len(),
            cs@ == s@,
            last_piece(s@, c) == last_piece(s@.take(start as int), c) + s@.subrange(
                start as int,
                n as int,
            ),
        decreases start,
    {
        proof {
            let front = s@.take(start as int);
            assert(front.drop_last() =~= s@.take(start - 1));
            assert(last_piece(front.drop_last(), c).push(front.last()) + s@.subrange(
                start as int,
                n as int,
            ) =~= last_piece(s@.take(start - 1), c) + s@.subrange(start - 1, n as int));
        }
        start -= 1;
    }
    assert(last_piece(s@.take(start as int), c) =~= Seq::<char>::empty());
    assert(Seq::<char>::empty() + s@.subrange(start as int, n as int) =~= s@.subrange(
        start as int,
        n as int,
    ));
    s.substring_char(start, n).to_owned()
}

/// The Unicode characters with the property `White_Space`.
pub open spec fn is_white_space(c: char) -> bool {
    let code = c as u32;
    ||| 0x9 <= code <= 0xd
    ||| code == 0x20
    ||| code == 0x85
    ||| code == 0xa0
    ||| code == 0x1680
    ||| 0x2000 <= code <= 0x200a
    ||| code == 0x2028
    ||| code == 0x2029
    ||| code == 0x202f
    ||| code == 0x205f
    ||| code == 0x3000
}

/// Tests a character for `White_Space`.
fn white_space(c: char) -> (r: bool)
    ensures
        r == is_white_space(c),
{
    let code: u32 = c as u32;
    (0x9 <= code && code <= 0xd) || code == 0x20 || code == 0x85 || code == 0xa0 || code == 0x1680
        || (0x2000 <= code && code <= 0x200a) || code == 0x2028 || code == 0x2029 || code == 0x202f
        || code == 0x205f || code == 0x3000
}

/// A text without its leading white space.
pub open spec fn trimmed_start(s: Seq<char>) -> Seq<char>
    decreases s.len(),
{
    if s.len() > 0 && is_white_space(s[0]) {
        trimmed_start(s.skip(1))
    } else {
        s
    }
}

/// A text without its trailing white space.
pub open spec fn trimmed_end(s: Seq<char>) -> Seq<char>
    decreases s.len(),
{
    if s.len() > 0 && is_white_space(s.last()) {
        trimmed_end(s.drop_last())
    } else {
        s
    }
}

/// A text without white space at either end.
pub open spec fn trimmed(s: Seq<char>) -> Seq<char> {
    trimmed_end(trimmed_start(s))
}

/// Narrows a range of characters to the part that trimming leaves.
fn trim_range(cs: &Vec<char>, from: usize, to: usize) -> (r: (usize, usize))
    requires
        from <= to <= cs.len(),
    ensures
        from <= r.0 <= r.1 <= to,
        cs@.subrange(r.0 as int, r.1 as int) == trimmed(cs@.subrange(from as int, to as int)),
{
    let ghost whole = cs@.subrange(from as int, to as int);
    let mut start: usize = from;
    while start < to && white_space(cs[start])
        invariant
            from <= start <= to <= cs.len(),
            trimmed_start(cs@.subrange(start as int, to as int)) == trimmed_start(whole),
        decreases to - start,
    {
        assert(cs@.subrange(start as int, to as int).skip(1) =~= cs@.subrange(
            start + 1,
            to as int,
        ));
        start += 1;
    }
    let mut end: usize = to;
    while end > start && white_space(cs[end - 1])
        invariant
            start <= end <= to <= cs.len(),
            trimmed_end(cs@.subrange(start as int, end as int)) == trimmed_end(
                cs@.subrange(start as int, to as int),
            ),
        decreases end - start,
    {
        assert(cs@.subrange(start as int, end as int).drop_last() =~= cs@.subrange(
            start as int,
            end - 1,
        ));
        end -= 1;
    }
    (start, end)
}

/// The trimmed value of the first `key=value` piece whose trimmed key is the
/// given one; pieces without `=` are passed over.
pub open spec fn attribute_value(pieces: Seq<Seq<char>>, key: Seq<char>) -> Option<Seq<char>>
    decreases pieces.len(),
{
    if pieces.len() == 0 {
        None
    } else {
        let piece = pieces[0];
        let i = position(piece, '=');
        if i < piece.len() && trimmed(piece.take(i)) == key {
            Some(trimmed(piece.skip(i + 1)))
        } else {
            attribute_value(pieces.drop_first(), key)
        }
    }
}

/// Looks a key up in a comma-separated list of `key=value` pairs.
pub fn find_attribute(list: &str, key: &str) -> (r: Option<String>)
    ensures
        match r {
            Some(value) => attribute_value(split(list@, ','), key@) == Some(value@),
            None => attribute_value(split(list@, ','), key@) is None,
        },
{
    let cs: Vec<char> = chars_of(list);
    let mut start: usize = 0;
    assert(cs@.skip(0) =~= list@);
    loop
        invariant
            cs@ == list@,
            start <= cs.len(),
            attribute_value(split(cs@.skip(start as int), ','), key@) == attribute_value(
                split(list@, ','),
                key@,
            ),
        decreases cs.len() - start,
    {
        let ghost rest = cs@.skip(start as int);
        assert(cs@.subrange(start as int, cs.len() as int) =~= rest);
        let end: usize = find_char(&cs, start, cs.len(), ',');
        let ghost piece = cs@.subrange(start as int, end as int);
        let ghost pieces = split(rest, ',');
        assert(pieces[0] =~= piece) by {
            assert(rest.take(end - start) =~= piece);
        }
        let eq: usize = find_char(&cs, start, end, '=');
        if eq < end {
            let k: (usize, usize) = trim_range(&cs, start, eq);
            assert(piece.take(eq - start) =~= cs@.subrange(start as int, eq as int));
            if same_text(list.substring_char(k.0, k.1), key) {
                let v: (usize, usize) = trim_range(&cs, eq + 1, end);
                assert(piece.skip(eq + 1 - start) =~= cs@.subrange(eq + 1, end as int));
                return Some(list.substring_char(v.0, v.1).to_owned());
            }
        }
        if end == cs.len() {
            assert(pieces.drop_first() =~= Seq::<Seq<char>>::empty());
            assert(attribute_value(Seq::<Seq<char>>::empty(), key@) is None);
            return None;
        }
        assert(pieces.drop_first() =~= split(cs@.skip(end + 1), ',')) by {
            assert(rest.skip(end - start + 1) =~= cs@.skip(end + 1));
        }
        start = end + 1;
    }
}

/// Law: a number below ten is written as its digit, and ten times a number with
/// a digit added to it as the number with that digit behind it. So are all
/// numbers.
pub proof fn decimal_puts_digits_behind(n: nat, d: nat)
    requires
        d < 10,
    ensures
        decimal(d) == seq![(48 + d) as char],
        n > 0 ==> decimal(10 * n + d) == decimal(n).push((48 + d) as char),
{
    assert((10 * n + d) / 10 == n && (10 * n + d) % 10 == d);
}

/// Law: a digit is read as its value, and a digit behind others as ten times
/// their number and the digit; where that does not fit, or what stands in front
/// was too large already, nothing is read.
pub proof fn digits_are_read_one_by_one(s: Seq<char>, c: char)
    requires
        '0' <= c <= '9',
        forall|i: int| 0 <= i < s.len() ==> '0' <= #[trigger] s[i] <= '9',
    ensures
        ({
            let d = c as u32 - '0' as u32;
            parsed_u64(s.push(c)) == if s.len() == 0 {
                Some(d as u64)
            } else {
                match parsed_u64(s) {
                    Some(n) => if 10 * n + d <= u64::MAX {
                        Some((10 * n + d) as u64)
                    } else {
                        None
                    },
                    None => None,
                }
            }
        }),
{
    let all = s.push(c);
    assert(all.drop_last() =~= s);
    assert(all_digits(s)) by {
        assert forall|i: int| 0 <= i < s.len() implies is_digit(#[trigger] s[i]) by {
            assert('0' <= s[i] <= '9');
        }
    }
    assert(all_digits(all)) by {
        assert forall|i: int| 0 <= i < all.len() implies is_digit(#[trigger] all[i]) by {
            if i < s.len() {
                assert(all[i] == s[i]);
            }
        }
    }
    assert(all[0] != '+' && (s.len() > 0 ==> s[0] != '+')) by {
        if s.len() > 0 {
            assert(all[0] == s[0]);
            assert('0' <= s[0] <= '9');
        }
    }
    if s.len() == 0 {
        assert(decimal_value(s) == 0);
    }
}

/// Law: a `+` in front of a number makes no difference, unless one stands there
/// already.
pub proof fn plus_makes_no_difference(s: Seq<char>)
    requires
        s.len() == 0 || s[0] != '+',
    ensures
        parsed_u64(seq!['+'] + s) == parsed_u64(s),
{
    assert((seq!['+'] + s).skip(1) =~= s);
}

/// Law: nothing else is a number: what is read holds digits alone, at least one
/// of them, behind an optional `+`.
pub proof fn only_digits_are_read(s: Seq<char>)
    requires
        parsed_u64(s) is Some,
    ensures
        s.len() > 0,
        s[0] == '+' ==> s.len() > 1,
        s[0] == '+' || '0' <= s[0] <= '9',
        forall|i: int| 1 <= i < s.len() ==> '0' <= #[trigger] s[i] <= '9',
{
    let digits = unsigned_digits(s);
    if s[0] == '+' {
        assert forall|i: int| 1 <= i < s.len() implies '0' <= #[trigger] s[i] <= '9' by {
            assert(s[i] == digits[i - 1]);
            assert(is_digit(digits[i - 1]));
            lemma_digit(s[i]);
        }
    } else {
        assert(digits == s);
        assert forall|i: int| 0 <= i < s.len() implies '0' <= #[trigger] s[i] <= '9' by {
            assert(is_digit(s[i]));
            lemma_digit(s[i]);
        }
    }
}

/// A digit stands between zero and nine.
pub(crate) proof fn lemma_digit(c: char)
    requires
        is_digit(c),
    ensures
        '0' <= c <= '9',
{
}

/// Law: white space is these characters and no others; of the ASCII ones the
/// space and the five controls from the tab to the carriage return.
pub proof fn white_space_is_known(c: char)
    ensures
        is_white_space(c) <==> seq![
            0x9u32,
            0xa,
            0xb,
            0xc,
            0xd,
            0x20,
            0x85,
            0xa0,
            0x1680,
            0x2000,
            0x2001,
            0x2002,
            0x2003,
            0x2004,
            0x2005,
            0x2006,
            0x2007,
            0x2008,
            0x2009,
            0x200a,
            0x2028,
            0x2029,
            0x202f,
            0x205f,
            0x3000,
        ].contains(c as u32),
        (c as u32) < 128 ==> (is_white_space(c) <==> c == ' ' || '\t' <= c <= '\r'),
{
    let all = seq![
        0x9u32,
        0xa,
        0xb,
        0xc,
        0xd,
        0x20,
        0x85,
        0xa0,
        0x1680,
        0x2000,
        0x2001,
        0x2002,
        0x2003,
        0x2004,
        0x2005,
        0x2006,
        0x2007,
        0x2008,
        0x2009,
        0x200a,
        0x2028,
        0x2029,
        0x202f,
        0x205f,
        0x3000,
    ];
    let code = c as u32;
    if 0x9 <= code <= 0xd {
        assert(all[code - 0x9] == code);
    } else if 0x2000 <= code <= 0x200a {
        assert(all[code - 0x2000 + 9] == code);
    }
    assert(all[5] == 0x20 && all[6] == 0x85 && all[7] == 0xa0 && all[8] == 0x1680);
    assert(all[20] == 0x2028 && all[21] == 0x2029 && all[22] == 0x202f && all[23] == 0x205f
        && all[24] == 0x3000);
}

/// Whether a text is made of white space alone.
pub open spec fn is_blank(s: Seq<char>) -> bool {
    forall|i: int| 0 <= i < s.len() ==> is_white_space(#[trigger] s[i])
}

/// Whether a text has no white space at either end.
pub open spec fn is_bare(s: Seq<char>) -> bool {
    s.len() > 0 ==> !is_white_space(s[0]) && !is_white_space(s.last())
}

/// Law: trimming takes the white space from around a text, all of it and
/// nothing else.
pub proof fn trimming_leaves_the_core(before: Seq<char>, core: Seq<char>, after: Seq<char>)
    requires
        is_blank(before),
        is_bare(core),
        is_blank(after),
    ensures
        trimmed(before + core + after) == core,
    decreases before.len() + after.len(),
{
    let s = before + core + after;
    if before.len() > 0 {
        let rest = before.skip(1);
        assert forall|i: int| 0 <= i < rest.len() implies is_white_space(#[trigger] rest[i]) by {
            assert(rest[i] == before[i + 1]);
        }
        trimming_leaves_the_core(rest, core, after);
        assert(s.skip(1) =~= rest + core + after);
        assert(s[0] == before[0]);
    } else if core.len() == 0 {
        if after.len() > 0 {
            let rest = after.skip(1);
            assert forall|i: int| 0 <= i < rest.len() implies is_white_space(
                #[trigger] rest[i],
            ) by {
                assert(rest[i] == after[i + 1]);
            }
            trimming_leaves_the_core(before, core, rest);
            assert(s.skip(1) =~= before + core + rest);
            assert(s[0] == after[0]);
        } else {
            assert(s =~= core);
        }
    } else {
        assert(s[0] == core[0]);
        assert(trimmed_start(s) == s);
        lemma_trimmed_end(core, after);
        assert(s =~= core + after);
    }
}

/// Trimming the end of a text takes the white space behind it.
proof fn lemma_trimmed_end(core: Seq<char>, after: Seq<char>)
    requires
        core.len() > 0,
        !is_white_space(core.last()),
        is_blank(after),
    ensures
        trimmed_end(core + after) == core,
    decreases after.len(),
{
    let s = core + after;
    if after.len() > 0 {
        let rest = after.drop_last();
        assert forall|i: int| 0 <= i < rest.len() implies is_white_space(#[trigger] rest[i]) by {
            assert(rest[i] == after[i]);
        }
        lemma_trimmed_end(core, rest);
        assert(s.drop_last() =~= core + rest);
        assert(s.last() == after.last());
        assert(is_white_space(after[after.len() - 1]));
    } else {
        assert(s =~= core);
    }
}

/// Every text has a bare core with white space around it.
proof fn lemma_core(s: Seq<char>) -> (parts: (Seq<char>, Seq<char>))
    ensures
        is_blank(parts.0),
        is_blank(parts.1),
        is_bare(trimmed(s)),
        s == parts.0 + trimmed(s) + parts.1,
    decreases s.len(),
{
    if s.len() == 0 {
        assert(s =~= s + trimmed(s) + s);
        (s, s)
    } else if is_white_space(s[0]) {
        let rest = lemma_core(s.skip(1));
        let before = seq![s[0]] + rest.0;
        assert forall|i: int| 0 <= i < before.len() implies is_white_space(
            #[trigger] before[i],
        ) by {
            if i > 0 {
                assert(before[i] == rest.0[i - 1]);
            }
        }
        assert(s =~= seq![s[0]] + s.skip(1));
        assert(s =~= before + trimmed(s) + rest.1);
        (before, rest.1)
    } else {
        let after = lemma_end(s);
        let before = Seq::<char>::empty();
        assert(trimmed_start(s) == s);
        assert(s =~= before + trimmed(s) + after);
        (before, after)
    }
}

/// The white space that trimming the end of a text takes.
proof fn lemma_end(s: Seq<char>) -> (after: Seq<char>)
    requires
        s.len() > 0,
        !is_white_space(s[0]),
    ensures
        is_blank(after),
        is_bare(trimmed_end(s)),
        s == trimmed_end(s) + after,
    decreases s.len(),
{
    if is_white_space(s.last()) {
        let rest = lemma_end(s.drop_last());
        let after = rest.push(s.last());
        assert forall|i: int| 0 <= i < after.len() implies is_white_space(#[trigger] after[i]) by {
            if i < rest.len() {
                assert(after[i] == rest[i]);
            }
        }
        assert(s =~= s.drop_last().push(s.last()));
        assert(s =~= trimmed_end(s) + after);
        after
    } else {
        assert(s =~= trimmed_end(s) + Seq::<char>::empty());
        Seq::empty()
    }
}

/// Whether a text says what a key is: the key with white space around it, a
/// `=`, and then the value.
pub open spec fn assigns(piece: Seq<char>, key: Seq<char>, value: Seq<char>) -> bool {
    exists|before: Seq<char>, after: Seq<char>|
        is_blank(before) && is_blank(after) && piece == #[trigger] (before + key + after)
            + seq!['='] + value
}

/// Law: the first pair of a list that says what the key is gives its value,
/// without the white space around it, whatever follows behind a comma.
pub proof fn first_assignment_is_found(
    piece: Seq<char>,
    rest: Seq<char>,
    key: Seq<char>,
    before: Seq<char>,
    value: Seq<char>,
    after: Seq<char>,
)
    requires
        is_bare(key),
        !key.contains('=') && !piece.contains(','),
        is_blank(before) && is_bare(value) && is_blank(after),
        assigns(piece, key, before + value + after),
    ensures
        attribute_value(split(piece, ','), key) == Some(value),
        attribute_value(split(piece + seq![','] + rest, ','), key) == Some(value),
{
    let (b, a): (Seq<char>, Seq<char>) = choose|b: Seq<char>, a: Seq<char>|
        is_blank(b) && is_blank(a) && piece == #[trigger] (b + key + a) + seq!['='] + (before
            + value + after);
    let left = b + key + a;
    assert forall|j: int| 0 <= j < left.len() implies left[j] != '=' by {
        if j < b.len() {
            assert(left[j] == b[j]);
        } else if j < b.len() + key.len() {
            assert(left[j] == key[j - b.len()]);
            assert(key.contains(left[j]));
        } else {
            assert(left[j] == a[j - b.len() - key.len()]);
        }
    }
    assert forall|j: int| 0 <= j < left.len() implies piece[j] != '=' by {
        assert(piece[j] == left[j]);
    }
    lemma_position(piece, '=', left.len() as int);
    assert(piece.take(left.len() as int) =~= left);
    assert(piece.skip(left.len() as int + 1) =~= before + value + after);
    trimming_leaves_the_core(b, key, a);
    trimming_leaves_the_core(before, value, after);
    lemma_first_piece(piece, rest);
}

/// Law: a pair that does not say what the key is, is passed over.
pub proof fn other_assignments_are_passed_over(piece: Seq<char>, rest: Seq<char>, key: Seq<char>)
    requires
        !piece.contains(','),
        forall|value: Seq<char>| !#[trigger] assigns(piece, key, value),
    ensures
        attribute_value(split(piece, ','), key) is None,
        attribute_value(split(piece + seq![','] + rest, ','), key) == attribute_value(
            split(rest, ','),
            key,
        ),
{
    let i = position(piece, '=');
    lemma_position_found(piece, '=');
    if i < piece.len() && trimmed(piece.take(i)) == key {
        let parts = lemma_core(piece.take(i));
        let value = piece.skip(i + 1);
        assert(piece =~= (parts.0 + key + parts.1) + seq!['='] + value);
        assert(assigns(piece, key, value));
    }
    lemma_first_piece(piece, rest);
    let pieces = split(piece + seq![','] + rest, ',');
    assert(pieces.drop_first() =~= split(rest, ','));
    assert(split(piece, ',').drop_first() =~= Seq::<Seq<char>>::empty());
    assert(attribute_value(Seq::<Seq<char>>::empty(), key) is None);
}

/// `position` is in range, and points at the character or behind the text.
proof fn lemma_position_found(s: Seq<char>, c: char)
    ensures
        0 <= position(s, c) <= s.len(),
        position(s, c) < s.len() ==> s[position(s, c)] == c,
    decreases s.len(),
{
    if s.len() > 0 && s[0] != c {
        lemma_position_found(s.skip(1), c);
    }
}

/// The first piece of a list ends at the first comma.
proof fn lemma_first_piece(piece: Seq<char>, rest: Seq<char>)
    requires
        !piece.contains(','),
    ensures
        split(piece, ',') == seq![piece],
        split(piece + seq![','] + rest, ',') == seq![piece] + split(rest, ','),
{
    let list = piece + seq![','] + rest;
    let n = piece.len() as int;
    assert forall|j: int| 0 <= j < n implies piece[j] != ',' && list[j] != ',' by {
        assert(piece.contains(piece[j]));
        assert(list[j] == piece[j]);
    }
    lemma_position(piece, ',', n);
    lemma_position(list, ',', n);
    assert(list.take(n) =~= piece);
    assert(list.skip(n + 1) =~= rest);
}

}
