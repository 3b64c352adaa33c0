//! Text as sequences of characters: the searches, cuts and numbers that the
//! rest of the library is built from.

use vstd::prelude::*;

verus! {

/// The characters of a string slice.
pub fn chars_of(s: &str) -> (v: Vec<char>)
    ensures
        v@ == s@,
{
    let mut v: Vec<char> = Vec::new();
    for c in it: s.chars()
        invariant
            it.seq() == s@,
            v@ == s@.take(it.index() as int),
    {
        v.push(c);
    }
    v
}

/// Whether two texts hold the same characters.
pub fn same_text(a: &str, b: &str) -> (r: bool)
    ensures
        r == (a@ == b@),
{
    let x = chars_of(a);
    let y = chars_of(b);
    if x.len() != y.len() {
        return false;
    }
    for i in 0..x.len()
        invariant
            x@ == a@,
            y@ == b@,
            x@.len() == y@.len(),
            forall|j: int| 0 <= j < i ==> x@[j] == y@[j],
    {
        if x[i] != y[i] {
            assert(a@[i as int] != b@[i as int]);
            return false;
        }
    }
    assert(a@ =~= b@);
    true
}

/// Whether `s` ends with `t`.
pub fn ends_with(s: &str, t: &str) -> (r: bool)
    ensures
        r == t@.is_suffix_of(s@),
{
    let n: usize = s.unicode_len();
    let m: usize = t.unicode_len();
    m <= n && same_text(s.substring_char(n - m, n), t)
}

/// `b` written behind `a`.
pub fn joined(a: &str, b: &str) -> (r: String)
    ensures
        r@ == a@ + b@,
{
    a.to_owned().concat(b)
}

/// `a`, `b` and `c` written one behind the other.
pub fn joined3(a: &str, b: &str, c: &str) -> (r: String)
    ensures
        r@ == a@ + b@ + c@,
{
    a.to_owned().concat(b).concat(c)
}

/// Whether `t` stands somewhere in `s`.
pub open spec fn has_infix(s: Seq<char>, t: Seq<char>) -> bool {
    exists|i: int| #![trigger s.subrange(i, i + t.len())]
        0 <= i <= s.len() - t.len() && s.subrange(i, i + t.len()) == t
}

/// Whether the characters of `y` stand in `x` from position `at` on.
fn stands_at(x: &Vec<char>, y: &Vec<char>, at: usize) -> (r: bool)
    requires
        at + y.len() <= x.len(),
    ensures
        r == (x@.subrange(at as int, at + y@.len()) == y@),
{
    for j in 0..y.len()
        invariant
            at + y.len() <= x.len(),
            forall|k: int| 0 <= k < j ==> x@[at + k] == y@[k],
    {
        if x[at + j] != y[j] {
            assert(x@.subrange(at as int, at + y@.len())[j as int] != y@[j as int]);
            return false;
        }
    }
    assert(x@.subrange(at as int, at + y@.len()) =~= y@);
    true
}

/// Whether `t` stands somewhere in `s`.
pub fn contains(s: &str, t: &str) -> (r: bool)
    ensures
        r == has_infix(s@, t@),
{
    let x = chars_of(s);
    let y = chars_of(t);
    if y.len() > x.len() {
        return false;
    }
    let last: usize = x.len() - y.len();
    let mut i: usize = 0;
    loop
        invariant
            x@ == s@,
            y@ == t@,
            last == x.len() - y.len(),
            i <= last,
            forall|k: int| #![trigger s@.subrange(k, k + t@.len())]
                0 <= k < i ==> s@.subrange(k, k + t@.len()) != t@,
        decreases last - i,
    {
        if stands_at(&x, &y, i) {
            return true;
        }
        if i == last {
            return false;
        }
        i += 1;
    }
}

/// What stands behind the last `c` of `s`; all of `s` where no `c` occurs.
pub open spec fn after_last(s: Seq<char>, c: char) -> Seq<char>
    decreases s.len(),
{
    if s.len() == 0 || s.last() == c {
        Seq::empty()
    } else {
        after_last(s.drop_last(), c).push(s.last())
    }
}

/// The part of a text behind its last `c` is the one suffix of it that holds no
/// `c` and has a `c`, or nothing, in front.
pub proof fn after_last_is_the_last_piece(s: Seq<char>, c: char)
    ensures
        !after_last(s, c).contains(c),
        s.contains(c) ==> (seq![c] + after_last(s, c)).is_suffix_of(s),
        !s.contains(c) ==> after_last(s, c) == s,
    decreases s.len(),
{
    if s.len() > 0 {
        let front = s.drop_last();
        assert(s =~= front.push(s.last()));
        if s.last() == c {
            assert((seq![c] + after_last(s, c)) =~= s.subrange(s.len() - 1, s.len() as int));
            assert(s.contains(c));
        } else {
            after_last_is_the_last_piece(front, c);
            let tail = after_last(front, c);
            assert(after_last(s, c) == tail.push(s.last()));
            assert(!after_last(s, c).contains(c)) by {
                assert forall|i: int| 0 <= i < tail.push(s.last()).len() implies tail.push(
                    s.last(),
                )[i] != c by {
                    if i < tail.len() {
                        assert(tail.contains(tail[i]));
                    }
                }
            }
            if s.contains(c) {
                let i = choose|i: int| 0 <= i < s.len() && s[i] == c;
                assert(front[i] == c);
                assert(front.contains(c));
                let piece = seq![c] + tail;
                assert(seq![c] + tail.push(s.last()) =~= piece.push(s.last()));
                assert(piece =~= front.subrange(front.len() - piece.len(), front.len() as int));
                assert(piece.push(s.last()) =~= s.subrange(
                    s.len() - piece.len() - 1,
                    s.len() as int,
                ));
            } else {
                assert(!front.contains(c)) by {
                    if front.contains(c) {
                        let i = choose|i: int| 0 <= i < front.len() && front[i] == c;
                        assert(s[i] == c);
                    }
                }
            }
        }
    }
}

/// [`after_last`] of a text that is cut at position `i`, where no `c` stands
/// from `i` on.
proof fn after_last_from(s: Seq<char>, c: char, i: int)
    requires
        0 <= i <= s.len(),
        forall|k: int| i <= k < s.len() ==> s[k] != c,
        i == 0 || s[i - 1] == c,
    ensures
        after_last(s, c) == s.subrange(i, s.len() as int),
    decreases s.len(),
{
    if i < s.len() {
        after_last_from(s.drop_last(), c, i);
        assert(s.subrange(i, s.len() as int) =~= s.drop_last().subrange(i, s.len() - 1).push(
            s.last(),
        ));
    } else {
        assert(s.subrange(i, s.len() as int) =~= Seq::<char>::empty());
    }
}

/// What stands behind the last `c` of `s`; all of `s` where no `c` occurs.
pub fn behind_last(s: &str, c: char) -> (r: String)
    ensures
        r@ == after_last(s@, c),
{
    let x = chars_of(s);
    let mut i: usize = x.len();
    while i > 0 && x[i - 1] != c
        invariant
            x@ == s@,
            i <= x@.len(),
            forall|k: int| i <= k < s@.len() ==> s@[k] != c,
        decreases i,
    {
        i -= 1;
    }
    proof {
        after_last_from(s@, c, i as int);
    }
    s.substring_char(i, x.len()).to_owned()
}

/// The characters with the Unicode property White_Space.
pub open spec fn is_white_space(c: char) -> bool {
    let n = c as int;
    ||| 0x9 <= n <= 0xD
    ||| n == 0x20
    ||| n == 0x85
    ||| n == 0xA0
    ||| n == 0x1680
    ||| 0x2000 <= n <= 0x200A
    ||| n == 0x2028
    ||| n == 0x2029
    ||| n == 0x202F
    ||| n == 0x205F
    ||| n == 0x3000
}

/// Whether a character has the Unicode property White_Space.
fn char_is_white_space(c: char) -> (r: bool)
    ensures
        r == is_white_space(c),
{
    let n: u32 = c as u32;
    (0x9 <= n && n <= 0xD) || n == 0x20 || n == 0x85 || n == 0xA0 || n == 0x1680 || (0x2000 <= n
        && n <= 0x200A) || n == 0x2028 || n == 0x2029 || n == 0x202F || n == 0x205F || n == 0x3000
}

/// `s` without the white space at its front.
pub open spec fn trim_front(s: Seq<char>) -> Seq<char>
    decreases s.len(),
{
    if s.len() > 0 && is_white_space(s.first()) {
        trim_front(s.drop_first())
    } else {
        s
    }
}

/// `s` without the white space at its back.
pub open spec fn trim_back(s: Seq<char>) -> Seq<char>
    decreases s.len(),
{
    if s.len() > 0 && is_white_space(s.last()) {
        trim_back(s.drop_last())
    } else {
        s
    }
}

/// A trimmed text has no white space at its ends, and what was cut off was white
/// space.
pub proof fn trim_cuts_white_space_only(s: Seq<char>)
    ensures
        ({
            let t = trim_back(trim_front(s));
            &&& t.len() > 0 ==> !is_white_space(t.first()) && !is_white_space(t.last())
            &&& exists|i: int, j: int|
                0 <= i <= j <= s.len() && t == #[trigger] s.subrange(i, j) && (forall|k: int|
                    0 <= k < s.len() && !(i <= k < j) ==> is_white_space(#[trigger] s[k]))
        }),
{
    let i = trim_front_cuts(s);
    let f = trim_front(s);
    let n = trim_back_cuts(f);
    assert(trim_back(f) =~= s.subrange(i, i + n));
    assert forall|k: int| 0 <= k < s.len() && !(i <= k < i + n) implies is_white_space(
        #[trigger] s[k],
    ) by {
        if k >= i + n {
            assert(f[k - i] == s[k]);
        }
    }
}

/// How much [`trim_front`] cuts off.
proof fn trim_front_cuts(s: Seq<char>) -> (i: int)
    ensures
        0 <= i <= s.len(),
        trim_front(s) == s.subrange(i, s.len() as int),
        forall|k: int| 0 <= k < i ==> is_white_space(#[trigger] s[k]),
        i < s.len() ==> !is_white_space(s[i]),
    decreases s.len(),
{
    if s.len() > 0 && is_white_space(s.first()) {
        let i = trim_front_cuts(s.drop_first());
        assert(s.drop_first().subrange(i, s.len() - 1) =~= s.subrange(i + 1, s.len() as int));
        assert forall|k: int| 0 <= k < i + 1 implies is_white_space(#[trigger] s[k]) by {
            if k > 0 {
                assert(s.drop_first()[k - 1] == s[k]);
            }
        }
        i + 1
    } else {
        assert(s =~= s.subrange(0, s.len() as int));
        0
    }
}

/// How much [`trim_back`] leaves.
proof fn trim_back_cuts(s: Seq<char>) -> (n: int)
    ensures
        0 <= n <= s.len(),
        trim_back(s) == s.subrange(0, n),
        forall|k: int| n <= k < s.len() ==> is_white_space(#[trigger] s[k]),
        n > 0 ==> !is_white_space(s[n - 1]),
    decreases s.len(),
{
    if s.len() > 0 && is_white_space(s.last()) {
        let n = trim_back_cuts(s.drop_last());
        assert(s.drop_last().subrange(0, n) =~= s.subrange(0, n));
        assert forall|k: int| n <= k < s.len() implies is_white_space(#[trigger] s[k]) by {
            if k < s.len() - 1 {
                assert(s.drop_last()[k] == s[k]);
            }
        }
        n
    } else {
        assert(s =~= s.subrange(0, s.len() as int));
        s.len() as int
    }
}

/// `s` without the white space at its ends.
pub fn trim(s: &str) -> (r: String)
    ensures
        r@ == trim_back(trim_front(s@)),
{
    let x = chars_of(s);
    let mut i: usize = 0;
    assert(s@.subrange(0, s@.len() as int) =~= s@);
    while i < x.len() && char_is_white_space(x[i])
        invariant
            x@ == s@,
            i <= x@.len(),
            trim_front(s@) == trim_front(s@.subrange(i as int, s@.len() as int)),
        decreases x@.len() - i,
    {
        assert(s@.subrange(i as int, s@.len() as int).drop_first() =~= s@.subrange(
            i + 1,
            s@.len() as int,
        ));
        i += 1;
    }
    let ghost front = s@.subrange(i as int, s@.len() as int);
    assert(trim_front(s@) == front);
    let mut j: usize = x.len();
    assert(front == s@.subrange(i as int, j as int));
    while j > i && char_is_white_space(x[j - 1])
        invariant
            x@ == s@,
            i <= j <= x@.len(),
            trim_back(front) == trim_back(s@.subrange(i as int, j as int)),
        decreases j,
    {
        assert(s@.subrange(i as int, j as int).drop_last() =~= s@.subrange(i as int, j - 1));
        j -= 1;
    }
    s.substring_char(i, j).to_owned()
}

/// The last line of a text, without its line ending: lines end with a line feed
/// or with a carriage return and a line feed, and the ending of the last one may
/// be missing. The empty text has no line.
pub open spec fn last_line(s: Seq<char>) -> Option<Seq<char>> {
    if s.len() == 0 {
        None
    } else if s.last() != '\n' {
        Some(after_last(s, '\n'))
    } else {
        let body = s.drop_last();
        if body.len() > 0 && body.last() == '\r' {
            Some(after_last(body.drop_last(), '\n'))
        } else {
            Some(after_last(body, '\n'))
        }
    }
}

/// The last line of a text, without its line ending.
pub fn final_line(s: &str) -> (r: Option<String>)
    ensures
        r is Some <==> last_line(s@) is Some,
        r matches Some(line) ==> Some(line@) == last_line(s@),
{
    let x = chars_of(s);
    let n: usize = x.len();
    if n == 0 {
        return None;
    }
    if x[n - 1] != '\n' {
        return Some(behind_last(s, '\n'));
    }
    assert(s@.subrange(0, n - 1) =~= s@.drop_last());
    if n > 1 && x[n - 2] == '\r' {
        assert(s@.subrange(0, n - 2) =~= s@.drop_last().drop_last());
        Some(behind_last(s.substring_char(0, n - 2), '\n'))
    } else {
        Some(behind_last(s.substring_char(0, n - 1), '\n'))
    }
}

/// The digit for `d`.
pub open spec fn digit(d: int) -> char {
    seq!['0', '1', '2', '3', '4', '5', '6', '7', '8', '9'][d]
}

/// A number in decimal, without leading zeros.
pub open spec fn decimal(n: nat) -> Seq<char>
    decreases n,
{
    if n < 10 {
        seq![digit(n as int)]
    } else {
        decimal(n / 10).push(digit((n % 10) as int))
    }
}

/// A number in decimal, with zeros in front up to `width` characters.
pub open spec fn padded(n: nat, width: nat) -> Seq<char> {
    let digits = decimal(n);
    if digits.len() < width {
        Seq::new((width - digits.len()) as nat, |i: int| '0') + digits
    } else {
        digits
    }
}

/// The digit for `d`, as a text.
fn digit_text(d: u32) -> (r: &'static str)
    requires
        d < 10,
    ensures
        r@ == seq![digit(d as int)],
{
    proof {
        reveal_strlit("0");
        reveal_strlit("1");
        reveal_strlit("2");
        reveal_strlit("3");
        reveal_strlit("4");
        reveal_strlit("5");
        reveal_strlit("6");
        reveal_strlit("7");
        reveal_strlit("8");
        reveal_strlit("9");
    }
    match d {
        0 => "0",
        1 => "1",
        2 => "2",
        3 => "3",
        4 => "4",
        5 => "5",
        6 => "6",
        7 => "7",
        8 => "8",
        _ => "9",
    }
}

/// A number in decimal.
pub fn decimal_text(n: u32) -> (r: String)
    ensures
        r@ == decimal(n as nat),
    decreases n,
{
    if n < 10 {
        digit_text(n).to_owned()
    } else {
        let r = decimal_text(n / 10).concat(digit_text(n % 10));
        assert(r@ =~= decimal(n as nat));
        r
    }
}

/// A text stands in another one exactly if something before it and something
/// behind it make up the other one.
pub proof fn infix_stands_between(s: Seq<char>, t: Seq<char>)
    ensures
        has_infix(s, t) <==> exists|before: Seq<char>, after: Seq<char>| s == #[trigger] (before + t
            + after),
{
    if has_infix(s, t) {
        let i = choose|i: int| #![trigger s.subrange(i, i + t.len())]
            0 <= i <= s.len() - t.len() && s.subrange(i, i + t.len()) == t;
        let before = s.take(i);
        let after = s.skip(i + t.len());
        assert forall|k: int| 0 <= k < s.len() implies s[k] == (before + t + after)[k] by {
            if i <= k < i + t.len() {
                assert(s.subrange(i, i + t.len())[k - i] == s[k]);
            }
        }
        assert(s =~= before + t + after);
    }
    assert forall|before: Seq<char>, after: Seq<char>| s == #[trigger] (before + t
        + after) implies has_infix(s, t) by {
        let i = before.len() as int;
        assert(s.subrange(i, i + t.len()) =~= t);
    }
}

/// Whatever stands in front, the part behind the last `c` is what was written
/// behind it.
pub proof fn after_last_reads_back(front: Seq<char>, c: char, tail: Seq<char>)
    requires
        !tail.contains(c),
    ensures
        after_last(front + seq![c] + tail, c) == tail,
        after_last(tail, c) == tail,
{
    let s = front + seq![c] + tail;
    let i = front.len() + 1;
    assert forall|k: int| i <= k < s.len() implies s[k] != c by {
        assert(tail.contains(tail[k - i]));
    }
    assert(s[i - 1] == c);
    after_last_from(s, c, i as int);
    assert(s.subrange(i as int, s.len() as int) =~= tail);
    assert forall|k: int| 0 <= k < tail.len() implies tail[k] != c by {
        assert(tail.contains(tail[k]));
    }
    after_last_from(tail, c, 0);
    assert(tail.subrange(0, tail.len() as int) =~= tail);
}

/// Among the ASCII characters the space and those from tab to carriage return are
/// white space; no other one is.
pub proof fn ascii_white_space(c: char)
    requires
        (c as int) < 128,
    ensures
        is_white_space(c) <==> (c == ' ' || c == '\t' || c == '\n' || c == '\r' || c as int == 11
            || c as int == 12),
{
}

/// Beyond ASCII, white space are the next-line and no-break space characters, the
/// spaces of general punctuation from the en quad to the hair space, the line and
/// paragraph separators, and four single spaces more.
pub proof fn white_space_beyond_ascii(c: char)
    requires
        (c as int) >= 128,
    ensures
        is_white_space(c) <==> (c == '\u{85}' || c == '\u{a0}' || c == '\u{1680}' || '\u{2000}' <= c
            <= '\u{200a}' || c == '\u{2028}' || c == '\u{2029}' || c == '\u{202f}' || c == '\u{205f}'
            || c == '\u{3000}'),
{
}

/// White space around a text is cut off, and nothing of a text that has none at
/// its ends.
pub proof fn trim_reads_back(before: Seq<char>, t: Seq<char>, after: Seq<char>)
    requires
        forall|k: int| 0 <= k < before.len() ==> is_white_space(#[trigger] before[k]),
        forall|k: int| 0 <= k < after.len() ==> is_white_space(#[trigger] after[k]),
        t.len() > 0,
        !is_white_space(t.first()) && !is_white_space(t.last()),
    ensures
        trim_back(trim_front(before + t + after)) == t,
    decreases before.len() + after.len(),
{
    let s = before + t + after;
    if before.len() > 0 {
        let rest = before.drop_first();
        assert forall|k: int| 0 <= k < rest.len() implies is_white_space(#[trigger] rest[k]) by {
            assert(rest[k] == before[k + 1]);
        }
        trim_reads_back(rest, t, after);
        assert(s.first() == before[0]);
        assert(s.drop_first() =~= rest + t + after);
    } else {
        assert(s.first() == t.first());
        assert(trim_front(s) == s);
        if after.len() > 0 {
            let rest = after.drop_last();
            assert forall|k: int| 0 <= k < rest.len() implies is_white_space(
                #[trigger] rest[k],
            ) by {
                assert(rest[k] == after[k]);
            }
            trim_reads_back(before, t, rest);
            let u = before + t + rest;
            assert(u.first() == t.first());
            assert(trim_front(u) == u);
            assert(s.last() == after[after.len() - 1]);
            assert(s.drop_last() =~= u);
        } else {
            assert(s =~= t);
            assert(trim_back(s) == s);
        }
    }
}

/// The last line of a text is what was written last, with or without an ending. A
/// carriage return belongs to the ending just in front of a line feed, and only one
/// does.
pub proof fn last_line_reads_back(front: Seq<char>, line: Seq<char>)
    requires
        !line.contains('\n'),
    ensures
        line.len() > 0 ==> last_line(line) == Some(line),
        line.len() > 0 ==> last_line(front + seq!['\n'] + line) == Some(line),
        line.len() == 0 || line.last() != '\r' ==> last_line(line + seq!['\n']) == Some(line),
        line.len() == 0 || line.last() != '\r' ==> last_line(
            front + seq!['\n'] + line + seq!['\n'],
        ) == Some(line),
        last_line(line + seq!['\r', '\n']) == Some(line),
        last_line(front + seq!['\n'] + line + seq!['\r', '\n']) == Some(line),
        last_line(Seq::empty()) is None,
{
    after_last_reads_back(front, '\n', line);
    let s = front + seq!['\n'] + line;
    if line.len() > 0 {
        assert(line.contains(line.last()));
        assert(s.last() == line.last());
    }
    assert((s + seq!['\n']).drop_last() =~= s);
    assert((line + seq!['\n']).drop_last() =~= line);
    assert(s.last() == '\n' || s.last() == line.last());
    assert((s + seq!['\r', '\n']).drop_last() =~= s + seq!['\r']);
    assert((s + seq!['\r']).drop_last() =~= s);
    assert((line + seq!['\r', '\n']).drop_last() =~= line + seq!['\r']);
    assert((line + seq!['\r']).drop_last() =~= line);
}

/// Decimal notation: a number below ten is its digit, and ten times a number and a
/// digit more is the number with that digit written behind it.
pub proof fn decimal_is_written_digit_by_digit(q: nat, d: nat)
    requires
        d < 10,
    ensures
        decimal(d).len() == 1,
        decimal(d)[0] as int == '0' as int + d,
        q > 0 ==> decimal(10 * q + d).len() == decimal(q).len() + 1,
        q > 0 ==> decimal(10 * q + d).drop_last() == decimal(q),
        q > 0 ==> decimal(10 * q + d).last() as int == '0' as int + d,
{
    if q > 0 {
        let n: nat = 10 * q + d;
        assert(n / 10 == q && n % 10 == d) by (nonlinear_arith)
            requires
                n == 10 * q + d,
                d < 10,
        ;
        assert(decimal(n) == decimal(q).push(digit(d as int)));
        assert(decimal(n).drop_last() =~= decimal(q));
    }
}

/// A padded number ends with its decimal notation, has nothing but zeros before
/// it, and has as many characters as asked for where these suffice.
pub proof fn padding_is_zeros_in_front(n: nat, width: nat)
    ensures
        padded(n, width).len() >= width,
        decimal(n).is_suffix_of(padded(n, width)),
        decimal(n).len() >= width ==> padded(n, width) == decimal(n),
        decimal(n).len() <= width ==> padded(n, width).len() == width,
        forall|k: int|
            0 <= k < padded(n, width).len() - decimal(n).len() ==> #[trigger] padded(n, width)[k]
                == '0',
{
    let p = padded(n, width);
    let k = p.len() - decimal(n).len();
    assert(p.subrange(k as int, p.len() as int) =~= decimal(n));
}

} // verus!
