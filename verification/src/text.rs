//! Character-level text utilities: decimal rendering and parsing, line
//! splitting, padding and substring search, each stated over `Seq<char>`.

use vstd::prelude::*;

verus! {

/// The views of a sequence of strings.
pub open spec fn views(v: Seq<String>) -> Seq<Seq<char>> {
    v.map_values(|s: String| s@)
}

/// The character of a decimal digit.
pub open spec fn digit_char(d: nat) -> char {
    ((d + 48) as u32) as char
}

/// The decimal digits of `n`, most significant first, without sign or padding.
pub open spec fn spec_decimal(n: nat) -> Seq<char>
    decreases n,
{
    if n < 10 {
        seq![digit_char(n)]
    } else {
        spec_decimal(n / 10).push(digit_char(n % 10))
    }
}

/// `c` is an ASCII decimal digit.
pub open spec fn is_digit(c: char) -> bool {
    48 <= (c as u32) <= 57
}

pub open spec fn all_digits(s: Seq<char>) -> bool {
    forall|i: int| 0 <= i < s.len() ==> #[trigger] is_digit(s[i])
}

pub open spec fn digit_value(c: char) -> nat {
    ((c as u32) - 48) as nat
}

/// The number that a string of decimal digits denotes.
pub open spec fn digits_value(s: Seq<char>) -> nat
    decreases s.len(),
{
    if s.len() == 0 {
        0
    } else {
        digits_value(s.drop_last()) * 10 + digit_value(s.last())
    }
}

/// The digits of an unsigned number, after an optional leading `+`.
pub open spec fn unsigned_digits(s: Seq<char>) -> Seq<char> {
    if s.len() > 0 && s[0] == '+' {
        s.drop_first()
    } else {
        s
    }
}

/// What std's `u32::from_str` accepts: an optional `+`, then one or more
/// ASCII digits whose value fits in a `u32`.
pub open spec fn spec_parse_u32(s: Seq<char>) -> Option<u32> {
    let d = unsigned_digits(s);
    if d.len() > 0 && all_digits(d) && digits_value(d) <= u32::MAX {
        Some(digits_value(d) as u32)
    } else {
        None
    }
}

/// `s` padded on the right with spaces to at least `width` characters (the
/// `{:<width}` format).
pub open spec fn spec_pad_right(s: Seq<char>, width: nat) -> Seq<char> {
    if s.len() >= width {
        s
    } else {
        s + Seq::new((width - s.len()) as nat, |_i: int| ' ')
    }
}

/// `needle` occurs in `hay` starting at index `i`.
pub open spec fn occurs_at(hay: Seq<char>, needle: Seq<char>, i: int) -> bool {
    0 <= i && i + needle.len() <= hay.len() && hay.subrange(i, i + needle.len()) == needle
}

pub open spec fn spec_contains(hay: Seq<char>, needle: Seq<char>) -> bool {
    exists|i: int| occurs_at(hay, needle, i)
}

/// The index of the first `'\n'` in `s`, or its length when there is none.
pub open spec fn newline_index(s: Seq<char>) -> int
    decreases s.len(),
{
    if s.len() == 0 {
        0
    } else if s[0] == '\n' {
        0
    } else {
        1 + newline_index(s.drop_first())
    }
}

/// A line without the `'\r'` that ended it.
pub open spec fn strip_cr(l: Seq<char>) -> Seq<char> {
    if l.len() > 0 && l.last() == '\r' {
        l.drop_last()
    } else {
        l
    }
}

/// The lines of `s`, as std's `str::lines` yields them: split at `'\n'`, a
/// `'\r'` before the `'\n'` removed, no empty line after a final `'\n'`.
pub open spec fn spec_lines(s: Seq<char>) -> Seq<Seq<char>>
    decreases s.len(),
{
    if s.len() == 0 {
        seq![]
    } else {
        let i = newline_index(s);
        proof {
            lemma_newline_index(s);
        }
        if i < s.len() {
            seq![strip_cr(s.take(i))] + spec_lines(s.skip(i + 1))
        } else {
            seq![s]
        }
    }
}

pub proof fn lemma_newline_index(s: Seq<char>)
    ensures
        0 <= newline_index(s) <= s.len(),
        newline_index(s) < s.len() ==> s[newline_index(s)] == '\n',
        forall|k: int| 0 <= k < newline_index(s) ==> s[k] != '\n',
    decreases s.len(),
{
    if s.len() > 0 && s[0] != '\n' {
        lemma_newline_index(s.drop_first());
        assert forall|k: int| 0 <= k < newline_index(s) implies s[k] != '\n' by {
            if k > 0 {
                assert(s[k] == s.drop_first()[k - 1]);
            }
        }
    }
}

proof fn lemma_newline_index_is(s: Seq<char>, m: int)
    requires
        0 <= m <= s.len(),
        m < s.len() ==> s[m] == '\n',
        forall|k: int| 0 <= k < m ==> s[k] != '\n',
    ensures
        newline_index(s) == m,
    decreases s.len(),
{
    if s.len() > 0 && m > 0 {
        assert(s[0] != '\n');
        assert forall|k: int| 0 <= k < m - 1 implies s.drop_first()[k] != '\n' by {
            assert(s.drop_first()[k] == s[k + 1]);
        }
        lemma_newline_index_is(s.drop_first(), m - 1);
    }
}

/// Appends one character to a `String` (std's `String::push`).
#[verifier::external_body]
pub(crate) fn push_char(s: &mut String, c: char)
    ensures
        final(s)@ == old(s)@.push(c),
{
    s.push(c);
}

fn digit(d: u64) -> (c: char)
    requires
        d < 10,
    ensures
        c == digit_char(d as nat),
{
    let b: u8 = 48u8 + d as u8;
    b as char
}

/// Appends the decimal rendering of `n` to `s`.
pub fn append_decimal(s: &mut String, n: u64)
    ensures
        final(s)@ == old(s)@ + spec_decimal(n as nat),
    decreases n,
{
    if n >= 10 {
        append_decimal(s, n / 10);
    }
    let c = digit(n % 10);
    push_char(s, c);
    proof {
        if n >= 10 {
            assert(spec_decimal(n as nat) == spec_decimal((n / 10) as nat).push(
                digit_char((n % 10) as nat),
            ));
        }
    }
}

/// The decimal rendering of `n` (the `{}` format of an unsigned integer).
pub fn decimal(n: u64) -> (r: String)
    ensures
        r@ == spec_decimal(n as nat),
{
    let mut s = String::new();
    append_decimal(&mut s, n);
    assert(s@ =~= spec_decimal(n as nat));
    s
}

/// The characters of `s`.
pub fn chars_of(s: &str) -> (v: Vec<char>)
    ensures
        v@ == s@,
{
    let n = s.unicode_len();
    let mut v: Vec<char> = Vec::new();
    for i in 0..n
        invariant
            n == s@.len(),
            v@ == s@.take(i as int),
    {
        let c = s.get_char(i);
        v.push(c);
        assert(v@ =~= s@.take(i + 1));
    }
    assert(v@ =~= s@);
    v
}

/// A `String` of the characters `v[from..to]`.
pub fn string_of_range(v: &Vec<char>, from: usize, to: usize) -> (r: String)
    requires
        from <= to <= v.len(),
    ensures
        r@ == v@.subrange(from as int, to as int),
{
    let mut s = String::new();
    let mut i = from;
    while i < to
        invariant
            from <= i <= to <= v.len(),
            s@ == v@.subrange(from as int, i as int),
        decreases to - i,
    {
        push_char(&mut s, v[i]);
        assert(s@ =~= v@.subrange(from as int, i + 1));
        i = i + 1;
    }
    s
}

proof fn lemma_digits_value_step(d: Seq<char>, k: int)
    requires
        0 <= k < d.len(),
    ensures
        digits_value(d.take(k + 1)) == digits_value(d.take(k)) * 10 + digit_value(d[k]),
{
    assert(d.take(k + 1).drop_last() =~= d.take(k));
}

proof fn lemma_digits_value_grows(a: nat, b: nat)
    requires
        a >= 0x1_0000_0000,
        b < 10,
    ensures
        a * 10 + b >= 0x1_0000_0000,
{
}

/// Parses a decimal `u32` as std's `str::parse::<u32>` does; `None` where it
/// returns an error.
pub fn parse_u32(s: &str) -> (r: Option<u32>)
    ensures
        r == spec_parse_u32(s@),
{
    let v = chars_of(s);
    assert(v@.subrange(0, v@.len() as int) =~= s@);
    parse_u32_chars(&v, 0, v.len())
}

/// Parses the characters `v[from..to]` as a decimal `u32`.
pub fn parse_u32_chars(v: &Vec<char>, from: usize, to: usize) -> (r: Option<u32>)
    requires
        from <= to <= v.len(),
    ensures
        r == spec_parse_u32(v@.subrange(from as int, to as int)),
{
    let ghost s = v@.subrange(from as int, to as int);
    let mut i = from;
    if i < to && v[i] == '+' {
        i = i + 1;
    }
    let ghost d = v@.subrange(i as int, to as int);
    assert(d =~= unsigned_digits(s));
    if i == to {
        return None;
    }
    let start = i;
    let mut acc: u64 = 0;
    while i < to
        invariant
            from <= start <= i <= to <= v.len(),
            s == v@.subrange(from as int, to as int),
            d == unsigned_digits(s),
            d == v@.subrange(start as int, to as int),
            all_digits(d.take(i - start)),
            acc as int == if digits_value(d.take(i - start)) < 0x1_0000_0000 {
                digits_value(d.take(i - start)) as int
            } else {
                0x1_0000_0000
            },
        decreases to - i,
    {
        let c = v[i];
        let code = c as u32;
        if code < 48 || code > 57 {
            assert(d[i - start] == c);
            assert(!is_digit(d[i - start]));
            return None;
        }
        proof {
            lemma_digits_value_step(d, i - start);
            assert(d.take(i - start + 1).last() == c);
            assert forall|k: int| 0 <= k < d.take(i - start + 1).len() implies #[trigger] is_digit(
                d.take(i - start + 1)[k],
            ) by {
                if k < i - start {
                    assert(d.take(i - start + 1)[k] == d.take(i - start)[k]);
                }
            }
            let prev = digits_value(d.take(i - start));
            if prev >= 0x1_0000_0000 {
                lemma_digits_value_grows(prev, digit_value(c));
            }
        }
        acc = acc * 10 + (code as u64 - 48);
        if acc > 0x1_0000_0000 {
            acc = 0x1_0000_0000;
        }
        i = i + 1;
    }
    assert(d.take(d.len() as int) =~= d);
    if acc <= 0xffff_ffff {
        Some(acc as u32)
    } else {
        None
    }
}

pub proof fn lemma_decimal_digits(n: nat)
    ensures
        spec_decimal(n).len() > 0,
        all_digits(spec_decimal(n)),
        digits_value(spec_decimal(n)) == n,
    decreases n,
{
    if n < 10 {
        let s = spec_decimal(n);
        assert(s.drop_last() =~= Seq::<char>::empty());
        assert(digits_value(s.drop_last()) == 0);
        assert(s.last() == digit_char(n));
    } else {
        lemma_decimal_digits(n / 10);
        let s = spec_decimal(n);
        assert(s.drop_last() =~= spec_decimal(n / 10));
        assert(s.last() == digit_char(n % 10));
        assert forall|i: int| 0 <= i < s.len() implies #[trigger] is_digit(s[i]) by {
            if i < s.len() - 1 {
                assert(s[i] == spec_decimal(n / 10)[i]);
            }
        }
    }
}

/// Reading back the decimal rendering of a `u32` gives that number.
pub proof fn lemma_parse_decimal_roundtrip(n: u32)
    ensures
        spec_parse_u32(spec_decimal(n as nat)) == Some(n),
{
    lemma_decimal_digits(n as nat);
    let s = spec_decimal(n as nat);
    assert(is_digit(s[0]));
    assert(unsigned_digits(s) == s);
}

/// Padding keeps the text, adds only spaces, and reaches exactly the width
/// unless the text is longer already.
pub proof fn lemma_pad_right_shape(s: Seq<char>, width: nat)
    ensures
        spec_pad_right(s, width).len() == if s.len() >= width { s.len() } else { width },
        spec_pad_right(s, width).take(s.len() as int) == s,
        forall|i: int|
            s.len() <= i < spec_pad_right(s, width).len() ==> spec_pad_right(s, width)[i] == ' ',
{
    assert(spec_pad_right(s, width).take(s.len() as int) =~= s);
}

/// A parsed number comes from a non-empty string of ASCII digits, after an
/// optional `+`; its decimal rendering reads back as the same number.
pub proof fn lemma_parse_u32_accepts_only_digits(s: Seq<char>)
    ensures
        spec_parse_u32(s) is Some ==> s.len() > 0 && (forall|i: int|
            0 <= i < s.len() ==> is_digit(s[i]) || (i == 0 && s[i] == '+')) && (s[0] == '+'
            ==> s.len() > 1),
        spec_parse_u32(s) matches Some(n) ==> spec_parse_u32(spec_decimal(n as nat)) == Some(n),
{
    if spec_parse_u32(s) is Some {
        let d = unsigned_digits(s);
        assert forall|i: int| 0 <= i < s.len() implies is_digit(s[i]) || (i == 0 && s[i] == '+') by {
            if s[0] == '+' {
                if i > 0 {
                    assert(s[i] == d[i - 1]);
                }
            } else {
                assert(s[i] == d[i]);
            }
        }
        let n = spec_parse_u32(s).unwrap();
        lemma_parse_decimal_roundtrip(n);
    }
}

/// `s` padded on the right with spaces to `width` characters.
pub fn pad_right(s: &str, width: usize) -> (r: String)
    ensures
        r@ == spec_pad_right(s@, width as nat),
{
    let n = s.unicode_len();
    let mut r = String::from_str(s);
    if n >= width {
        return r;
    }
    let mut k = n;
    assert(r@ =~= s@ + Seq::new(0nat, |_i: int| ' '));
    while k < width
        invariant
            n == s@.len(),
            n <= k <= width,
            r@ == s@ + Seq::new((k - n) as nat, |_i: int| ' '),
        decreases width - k,
    {
        push_char(&mut r, ' ');
        assert(r@ =~= s@ + Seq::new((k + 1 - n) as nat, |_i: int| ' '));
        k = k + 1;
    }
    r
}

/// Whether `needle` occurs in `hay` (std's `str::contains` with a string
/// pattern).
pub fn contains(hay: &str, needle: &str) -> (r: bool)
    ensures
        r == spec_contains(hay@, needle@),
{
    let h = chars_of(hay);
    let n = chars_of(needle);
    if n.len() > h.len() {
        assert forall|i: int| !occurs_at(hay@, needle@, i) by {}
        return false;
    }
    let last = h.len() - n.len();
    let mut i: usize = 0;
    while i <= last
        invariant
            h@ == hay@,
            n@ == needle@,
            last == h.len() - n.len(),
            n.len() <= h.len(),
            forall|k: int| 0 <= k < i ==> !occurs_at(hay@, needle@, k),
        decreases last + 1 - i,
    {
        let mut j: usize = 0;
        let mut same = true;
        while j < n.len()
            invariant
                h@ == hay@,
                n@ == needle@,
                i <= last,
                last == h.len() - n.len(),
                j <= n.len(),
                same == (forall|t: int| 0 <= t < j ==> h@[i + t] == n@[t]),
            decreases n.len() - j,
        {
            if h[i + j] != n[j] {
                same = false;
            }
            j = j + 1;
        }
        if same {
            assert(hay@.subrange(i as int, i + needle@.len()) =~= needle@);
            assert(occurs_at(hay@, needle@, i as int));
            return true;
        }
        proof {
            let t = choose|t: int| 0 <= t < j && h@[i + t] != n@[t];
            if occurs_at(hay@, needle@, i as int) {
                assert(hay@.subrange(i as int, i + needle@.len())[t] == hay@[i + t]);
            }
        }
        if i == last {
            assert forall|k: int| !occurs_at(hay@, needle@, k) by {}
            return false;
        }
        i = i + 1;
    }
    false
}

/// The next line of `v` from index `start`, with the index where the line
/// after it begins; `None` when no characters are left (one step of std's
/// `str::lines`).
pub fn take_line(v: &Vec<char>, start: usize) -> (r: Option<(String, usize)>)
    requires
        start <= v.len(),
    ensures
        r is None <==> start == v.len(),
        r matches Some((line, next)) ==> {
            &&& next <= v.len()
            &&& line@ == spec_lines(v@.skip(start as int))[0]
            &&& spec_lines(v@.skip(next as int)) == spec_lines(v@.skip(start as int)).drop_first()
        },
{
    if start == v.len() {
        return None;
    }
    let ghost rest = v@.skip(start as int);
    let mut j = start;
    while j < v.len() && v[j] != '\n'
        invariant
            start <= j <= v.len(),
            rest == v@.skip(start as int),
            forall|k: int| 0 <= k < j - start ==> rest[k] != '\n',
        decreases v.len() - j,
    {
        assert(rest[j - start] == v@[j as int]);
        j = j + 1;
    }
    proof {
        if j < v.len() {
            assert(rest[j - start] == v@[j as int]);
        }
        lemma_newline_index_is(rest, j - start);
    }
    if j < v.len() {
        let mut end = j;
        if end > start && v[end - 1] == '\r' {
            end = end - 1;
        }
        let line = string_of_range(v, start, end);
        proof {
            let t = rest.take(j - start);
            assert(t =~= v@.subrange(start as int, j as int));
            if j > start && v@[j - 1] == '\r' {
                assert(t.last() == v@[j - 1]);
                assert(strip_cr(t) =~= v@.subrange(start as int, end as int));
            } else {
                assert(strip_cr(t) == t);
            }
            assert(rest.skip(j - start + 1) =~= v@.skip(j + 1));
            assert(spec_lines(rest) == seq![strip_cr(t)] + spec_lines(rest.skip(j - start + 1)));
            assert((seq![strip_cr(t)] + spec_lines(v@.skip(j + 1))).drop_first() =~= spec_lines(
                v@.skip(j + 1),
            ));
        }
        Some((line, j + 1))
    } else {
        let line = string_of_range(v, start, v.len());
        proof {
            assert(rest =~= v@.subrange(start as int, v.len() as int));
            assert(spec_lines(rest) == seq![rest]);
            assert(v@.skip(v.len() as int) =~= Seq::<char>::empty());
            assert(spec_lines(v@.skip(v.len() as int)) =~= seq![rest].drop_first());
        }
        Some((line, v.len()))
    }
}

} // verus!
