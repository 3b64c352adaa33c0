//! Version numbers as they are written: numbers with dots between them.

use crate::text::{chars_of, decimal, decimal_is_written_digit_by_digit};
use vstd::prelude::*;

verus! {

/// The pieces of `s` between the occurrences of `c`.
pub open spec fn split(s: Seq<char>, c: char) -> Seq<Seq<char>>
    decreases s.len(),
{
    if s.len() == 0 {
        seq![Seq::empty()]
    } else {
        let before = split(s.drop_last(), c);
        if s.last() == c {
            before.push(Seq::empty())
        } else {
            before.drop_last().push(before.last().push(s.last()))
        }
    }
}

/// The pieces, one behind the other with `c` between them.
pub open spec fn rejoin(pieces: Seq<Seq<char>>, c: char) -> Seq<char>
    decreases pieces.len(),
{
    if pieces.len() == 0 {
        Seq::empty()
    } else if pieces.len() == 1 {
        pieces[0]
    } else {
        rejoin(pieces.drop_last(), c).push(c) + pieces.last()
    }
}

/// Splitting takes nothing away: the pieces hold no `c`, and with `c` between
/// them they are the text again.
pub proof fn split_loses_nothing(s: Seq<char>, c: char)
    ensures
        split(s, c).len() > 0,
        rejoin(split(s, c), c) == s,
        forall|i: int| 0 <= i < split(s, c).len() ==> !(#[trigger] split(s, c)[i]).contains(c),
    decreases s.len(),
{
    if s.len() > 0 {
        let front = s.drop_last();
        let before = split(front, c);
        split_loses_nothing(front, c);
        let after = split(s, c);
        assert(s =~= front.push(s.last()));
        if s.last() == c {
            assert(after.drop_last() =~= before);
            assert(rejoin(after, c) =~= s);
        } else {
            assert(after.drop_last() =~= before.drop_last());
            assert(after.len() == before.len());
            if before.len() > 1 {
                assert(rejoin(after, c) =~= rejoin(before, c).push(s.last()));
            } else {
                assert(rejoin(after, c) =~= rejoin(before, c).push(s.last()));
            }
            assert forall|i: int| 0 <= i < after.len() implies !(#[trigger] after[i]).contains(
                c,
            ) by {
                if i == after.len() - 1 {
                    let piece = before.last();
                    assert(!piece.contains(c));
                    assert forall|k: int| 0 <= k < after[i].len() implies after[i][k] != c by {
                        if k < piece.len() {
                            assert(piece.contains(piece[k]));
                        }
                    }
                } else {
                    assert(after[i] == before[i]);
                }
            }
        }
    }
}

/// Whether `c` is one of the ten digits.
pub open spec fn is_digit(c: char) -> bool {
    '0' <= c <= '9'
}

/// The number that digits stand for.
pub open spec fn value(digits: Seq<char>) -> nat
    decreases digits.len(),
{
    if digits.len() == 0 {
        0
    } else {
        value(digits.drop_last()) * 10 + (digits.last() as nat - '0' as nat) as nat
    }
}

/// Whether a text is made of digits alone, at least one.
pub open spec fn all_digits(s: Seq<char>) -> bool {
    &&& s.len() > 0
    &&& forall|i: int| 0 <= i < s.len() ==> is_digit(#[trigger] s[i])
}

/// A text without the plus sign in front that it may have.
pub open spec fn without_plus(s: Seq<char>) -> Seq<char> {
    if s.len() > 0 && s[0] == '+' {
        s.drop_first()
    } else {
        s
    }
}

/// The number that a text stands for: digits, perhaps with a plus sign in front.
/// Other texts, and numbers that do not fit in 32 bits, stand for none.
pub open spec fn number_of(s: Seq<char>) -> Option<u32> {
    let digits = without_plus(s);
    if all_digits(digits) && value(digits) <= u32::MAX {
        Some(value(digits) as u32)
    } else {
        None
    }
}

/// More digits never make a number smaller.
proof fn value_grows(digits: Seq<char>, n: int)
    requires
        0 <= n <= digits.len(),
        forall|i: int| 0 <= i < digits.len() ==> is_digit(#[trigger] digits[i]),
    ensures
        value(digits.take(n)) <= value(digits),
    decreases digits.len(),
{
    if n < digits.len() {
        let front = digits.drop_last();
        value_grows(front, n);
        assert(digits.take(n) =~= front.take(n));
    } else {
        assert(digits.take(n) =~= digits);
    }
}

/// The number that a text stands for.
pub fn parse_number(s: &Vec<char>) -> (r: Option<u32>)
    ensures
        r == number_of(s@),
{
    let start: usize = if s.len() > 0 && s[0] == '+' {
        1
    } else {
        0
    };
    let ghost digits = without_plus(s@);
    assert(digits =~= s@.skip(start as int));
    if start == s.len() {
        return None;
    }
    let mut total: u32 = 0;
    let mut i: usize = start;
    while i < s.len()
        invariant
            start <= i <= s.len(),
            digits == s@.skip(start as int),
            digits == without_plus(s@),
            forall|k: int| 0 <= k < i - start ==> is_digit(#[trigger] digits[k]),
            total == value(digits.take(i - start)),
        decreases s.len() - i,
    {
        let c = s[i];
        let ghost n = i - start;
        assert(digits[n] == c);
        if !('0' <= c && c <= '9') {
            return None;
        }
        let d: u32 = c as u32 - '0' as u32;
        assert(digits.take(n + 1).drop_last() =~= digits.take(n));
        assert(value(digits.take(n + 1)) == total * 10 + d);
        if total > (u32::MAX - d) / 10 {
            proof {
                if all_digits(digits) {
                    value_grows(digits, n + 1);
                }
            }
            return None;
        }
        total = total * 10 + d;
        i += 1;
    }
    assert(digits.take(s.len() - start) =~= digits);
    Some(total)
}

/// The numbers among the pieces; the other pieces are passed over.
pub open spec fn numbers_among(pieces: Seq<Seq<char>>) -> Seq<u32>
    decreases pieces.len(),
{
    if pieces.len() == 0 {
        Seq::empty()
    } else {
        let before = numbers_among(pieces.drop_last());
        match number_of(pieces.last()) {
            Some(n) => before.push(n),
            None => before,
        }
    }
}

/// The version that a text stands for: the numbers between its dots.
pub open spec fn version_of(s: Seq<char>) -> Seq<u32> {
    numbers_among(split(s, '.'))
}

/// The version that a text stands for.
pub fn parse_version(s: &str) -> (r: Vec<u32>)
    ensures
        r@ == version_of(s@),
{
    let x = chars_of(s);
    let mut numbers: Vec<u32> = Vec::new();
    let mut piece: Vec<char> = Vec::new();
    let ghost mut done: Seq<Seq<char>> = Seq::empty();
    assert(x@.take(0) =~= Seq::<char>::empty());
    assert(split(x@.take(0), '.') =~= done.push(piece@));
    for i in 0..x.len()
        invariant
            x@ == s@,
            split(x@.take(i as int), '.') == done.push(piece@),
            numbers@ == numbers_among(done),
    {
        let c = x[i];
        let ghost cut = x@.take(i + 1);
        assert(cut.drop_last() =~= x@.take(i as int));
        assert(done.push(piece@).drop_last() =~= done);
        if c == '.' {
            match parse_number(&piece) {
                Some(n) => {
                    numbers.push(n);
                },
                None => {},
            }
            proof {
                done = done.push(piece@);
            }
            piece = Vec::new();
            assert(piece@ =~= Seq::<char>::empty());
        } else {
            piece.push(c);
        }
    }
    assert(x@.take(x.len() as int) =~= s@);
    assert(done.push(piece@).drop_last() =~= done);
    match parse_number(&piece) {
        Some(n) => {
            numbers.push(n);
        },
        None => {},
    }
    numbers
}

/// Whether version `a` is later than version `b`: where they first differ `a` has
/// the greater number, or `b` ends there.
pub open spec fn later(a: Seq<u32>, b: Seq<u32>) -> bool
    decreases a.len(),
{
    if a.len() == 0 {
        false
    } else if b.len() == 0 {
        true
    } else if a[0] != b[0] {
        a[0] > b[0]
    } else {
        later(a.drop_first(), b.drop_first())
    }
}

/// No version is later than itself; of two different ones exactly one is later;
/// and what is later than a later version is later.
pub proof fn later_is_a_strict_order(a: Seq<u32>, b: Seq<u32>, c: Seq<u32>)
    ensures
        !later(a, a),
        a != b ==> (later(a, b) <==> !later(b, a)),
        later(a, b) && later(b, c) ==> later(a, c),
    decreases a.len() + b.len() + c.len(),
{
    if a.len() > 0 && b.len() > 0 && c.len() > 0 {
        later_is_a_strict_order(a.drop_first(), b.drop_first(), c.drop_first());
    }
    if a.len() > 0 && b.len() > 0 {
        later_is_a_strict_order(a.drop_first(), b.drop_first(), Seq::empty());
        if a[0] == b[0] && a.drop_first() == b.drop_first() {
            assert(a =~= seq![a[0]] + a.drop_first());
            assert(b =~= seq![b[0]] + b.drop_first());
        }
    } else if a.len() > 0 {
        later_is_a_strict_order(a.drop_first(), Seq::empty(), Seq::empty());
    } else if b.len() == 0 {
        assert(a =~= b);
    }
}

/// [`later`] from position `i` on, where the versions agree up to it.
proof fn later_from(a: Seq<u32>, b: Seq<u32>, i: int)
    requires
        0 <= i <= a.len(),
        i <= b.len(),
        forall|k: int| 0 <= k < i ==> a[k] == b[k],
    ensures
        later(a, b) == later(a.skip(i), b.skip(i)),
    decreases i,
{
    if i > 0 {
        later_from(a.drop_first(), b.drop_first(), i - 1);
        assert(a.drop_first().skip(i - 1) =~= a.skip(i));
        assert(b.drop_first().skip(i - 1) =~= b.skip(i));
    } else {
        assert(a.skip(0) =~= a);
        assert(b.skip(0) =~= b);
    }
}

/// Whether version `a` is later than version `b`.
pub fn is_later(a: &Vec<u32>, b: &Vec<u32>) -> (r: bool)
    ensures
        r == later(a@, b@),
{
    let mut i: usize = 0;
    while i < a.len() && i < b.len() && a[i] == b[i]
        invariant
            i <= a.len(),
            i <= b.len(),
            forall|k: int| 0 <= k < i ==> a@[k] == b@[k],
        decreases a.len() - i,
    {
        i += 1;
    }
    proof {
        later_from(a@, b@, i as int);
    }
    i < a.len() && (i == b.len() || a[i] > b[i])
}

/// One character stands for a number exactly if it is a digit, and so it does with
/// a plus sign in front. No characters, and a plus sign alone, stand for none.
pub proof fn one_digit_is_a_number(c: char)
    ensures
        '0' <= c <= '9' ==> number_of(seq![c]) == Some((c as int - '0' as int) as u32),
        '0' <= c <= '9' ==> number_of(seq!['+', c]) == Some((c as int - '0' as int) as u32),
        !('0' <= c <= '9') ==> number_of(seq![c]) is None,
        !('0' <= c <= '9') ==> number_of(seq!['+', c]) is None,
        number_of(Seq::empty()) is None,
        number_of(seq!['+']) is None,
{
    reveal_with_fuel(value, 2);
    assert(seq!['+', c].drop_first() =~= seq![c]);
    assert(seq!['+'].drop_first() =~= Seq::<char>::empty());
    assert(seq![c].drop_last() =~= Seq::<char>::empty());
    assert(!all_digits(Seq::<char>::empty()));
    if c == '+' {
        assert(!is_digit(seq![c][0]));
        assert(without_plus(seq![c]) =~= Seq::<char>::empty());
    } else {
        assert(without_plus(seq![c]) == seq![c]);
    }
    assert(without_plus(seq!['+', c]) == seq![c]);
    if !('0' <= c <= '9') {
        assert(!is_digit(seq![c][0]));
        assert(!all_digits(seq![c]));
    } else {
        assert(all_digits(seq![c]));
    }
}

/// One more digit makes ten times the number and the digit, as long as this fits
/// in 32 bits; any other character makes what stood there no number.
pub proof fn one_more_digit(s: Seq<char>, c: char)
    requires
        s.len() > 0,
        s != seq!['+'],
    ensures
        number_of(s.push(c)) == (match number_of(s) {
            Some(n) => if '0' <= c <= '9' && n * 10 + (c as int - '0' as int) <= u32::MAX {
                Some((n * 10 + (c as int - '0' as int)) as u32)
            } else {
                None
            },
            None => None,
        }),
{
    let t = s.push(c);
    let a = without_plus(s);
    let b = without_plus(t);
    if s[0] == '+' {
        assert(s.len() > 1) by {
            if s.len() == 1 {
                assert(s =~= seq!['+']);
            }
        }
    }
    assert(b =~= a.push(c));
    assert(a.len() > 0);
    assert(b.drop_last() =~= a);
    if all_digits(a) && is_digit(c) {
        assert(all_digits(b)) by {
            assert forall|i: int| 0 <= i < b.len() implies is_digit(#[trigger] b[i]) by {
                if i < a.len() {
                    assert(b[i] == a[i]);
                }
            }
        }
        assert(value(b) == value(a) * 10 + (c as nat - '0' as nat));
    } else if all_digits(b) {
        assert forall|i: int| 0 <= i < a.len() implies is_digit(#[trigger] a[i]) by {
            assert(b[i] == a[i]);
        }
        assert(b[a.len() as int] == c);
    }
}

/// The pieces of a text that goes on behind a separator are those of its front and
/// then those of what goes on.
proof fn split_of_two(front: Seq<char>, c: char, tail: Seq<char>)
    requires
        !tail.contains(c),
    ensures
        split(front + seq![c] + tail, c) == split(front, c).push(tail),
        split(tail, c) == seq![tail],
    decreases tail.len(),
{
    let s = front + seq![c] + tail;
    if tail.len() == 0 {
        assert(s.drop_last() =~= front);
        assert(tail =~= Seq::<char>::empty());
        assert(split(tail, c) =~= seq![tail]);
    } else {
        let rest = tail.drop_last();
        assert(!rest.contains(c)) by {
            if rest.contains(c) {
                let i = choose|i: int| 0 <= i < rest.len() && rest[i] == c;
                assert(tail[i] == c);
            }
        }
        split_of_two(front, c, rest);
        assert(tail.contains(tail.last()));
        assert(s.drop_last() =~= front + seq![c] + rest);
        assert(rest.push(tail.last()) =~= tail);
        assert(split(s, c) =~= split(front, c).push(tail));
        assert(split(tail, c) =~= seq![tail]);
    }
}

/// The version that a text stands for is read piece by piece: behind a dot the
/// number that stands there is added at the end, and a piece that is no number
/// adds nothing.
pub proof fn version_is_read_piece_by_piece(front: Seq<char>, piece: Seq<char>)
    requires
        !piece.contains('.'),
    ensures
        number_of(piece) matches Some(n) ==> version_of(piece) == seq![n] && version_of(
            front + seq!['.'] + piece,
        ) == version_of(front).push(n),
        number_of(piece) is None ==> version_of(piece).len() == 0 && version_of(
            front + seq!['.'] + piece,
        ) == version_of(front),
{
    split_of_two(front, '.', piece);
    let pieces = split(front, '.');
    assert(pieces.push(piece).drop_last() =~= pieces);
    assert(seq![piece].drop_last() =~= Seq::<Seq<char>>::empty());
    reveal_with_fuel(numbers_among, 2);
    assert(number_of(piece) matches Some(n) ==> version_of(piece) =~= seq![n]);
}

/// A number in decimal is read back, and holds no dot.
pub proof fn decimal_is_read_back(n: u32)
    ensures
        number_of(decimal(n as nat)) == Some(n),
        !decimal(n as nat).contains('.'),
        decimal(n as nat).len() > 0,
        decimal(n as nat)[0] != 'v' && decimal(n as nat)[0] != '+',
    decreases n,
{
    let s = decimal(n as nat);
    if n < 10 {
        decimal_is_written_digit_by_digit(0, n as nat);
        assert(s =~= seq![s[0]]);
        one_digit_is_a_number(s[0]);
    } else {
        let q = n / 10;
        let d = n % 10;
        decimal_is_read_back(q);
        decimal_is_written_digit_by_digit(q as nat, d as nat);
        let front = decimal(q as nat);
        assert(s =~= front.push(s.last()));
        assert(front != seq!['+']);
        one_more_digit(front, s.last());
        assert forall|i: int| 0 <= i < s.len() implies s[i] != '.' by {
            if i < front.len() {
                assert(front.contains(front[i]));
            }
        }
    }
}

/// Three numbers with dots between them are read as these three numbers.
pub proof fn three_numbers_are_read_back(x: u32, y: u32, z: u32)
    ensures
        version_of(
            decimal(x as nat) + seq!['.'] + decimal(y as nat) + seq!['.'] + decimal(z as nat),
        ) == seq![x, y, z],
{
    decimal_is_read_back(x);
    decimal_is_read_back(y);
    decimal_is_read_back(z);
    version_is_read_piece_by_piece(Seq::empty(), decimal(x as nat));
    let two = decimal(x as nat) + seq!['.'] + decimal(y as nat);
    version_is_read_piece_by_piece(decimal(x as nat), decimal(y as nat));
    version_is_read_piece_by_piece(two, decimal(z as nat));
    assert(version_of(two + seq!['.'] + decimal(z as nat)) =~= seq![x, y, z]);
}

/// A version is later than another one exactly if, at the first place where they
/// differ, it has the greater number or is the only one that goes on.
pub proof fn first_difference_decides(a: Seq<u32>, b: Seq<u32>)
    ensures
        later(a, b) <==> exists|k: int|
            0 <= k < a.len() && k <= b.len() && #[trigger] a.take(k) == b.take(k) && (k == b.len()
                || a[k] > b[k]),
    decreases a.len(),
{
    assert forall|k: int|
        0 <= k < a.len() && k <= b.len() && #[trigger] a.take(k) == b.take(k) && (k == b.len()
            || a[k] > b[k]) implies later(a, b) by {
        assert forall|j: int| 0 <= j < k implies a[j] == b[j] by {
            assert(a.take(k)[j] == b.take(k)[j]);
        }
        later_from(a, b, k);
        assert(a.skip(k)[0] == a[k]);
        if k < b.len() {
            assert(b.skip(k)[0] == b[k]);
        }
    }
    if later(a, b) {
        if b.len() == 0 || a[0] != b[0] {
            assert(a.take(0) =~= b.take(0));
        } else {
            let x = a.drop_first();
            let y = b.drop_first();
            first_difference_decides(x, y);
            let k = choose|k: int|
                0 <= k < x.len() && k <= y.len() && #[trigger] x.take(k) == y.take(k) && (k
                    == y.len() || x[k] > y[k]);
            assert forall|j: int| 0 <= j < k + 1 implies #[trigger] a.take(k + 1)[j] == b.take(
                k + 1,
            )[j] by {
                if j > 0 {
                    assert(x.take(k)[j - 1] == y.take(k)[j - 1]);
                }
            }
            assert(a.take(k + 1) =~= b.take(k + 1));
        }
    }
}

} // verus!
