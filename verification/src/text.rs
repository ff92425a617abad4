//! Strings: byte order, decimal numbers and ASCII upper case.
use vstd::prelude::*;
use vstd::string::*;
use vstd::utf8::*;

verus! {

/// Lexicographic order on bytes: a proper prefix comes first, otherwise the
/// first differing byte decides.
pub open spec fn bytes_before(a: Seq<u8>, b: Seq<u8>) -> bool
    decreases a.len(),
{
    if b.len() == 0 {
        false
    } else if a.len() == 0 {
        true
    } else if a[0] != b[0] {
        a[0] < b[0]
    } else {
        bytes_before(a.drop_first(), b.drop_first())
    }
}

/// The order in which `str` compares: lexicographic on the UTF-8 bytes.
pub open spec fn name_before(a: Seq<char>, b: Seq<char>) -> bool {
    bytes_before(encode_utf8(a), encode_utf8(b))
}

proof fn lemma_bytes_before_irreflexive(a: Seq<u8>)
    ensures
        !bytes_before(a, a),
    decreases a.len(),
{
    if a.len() > 0 {
        lemma_bytes_before_irreflexive(a.drop_first());
    }
}

proof fn lemma_bytes_before_transitive(a: Seq<u8>, b: Seq<u8>, c: Seq<u8>)
    requires
        bytes_before(a, b),
        bytes_before(b, c),
    ensures
        bytes_before(a, c),
    decreases a.len(),
{
    if a.len() > 0 && a[0] == b[0] && b[0] == c[0] {
        lemma_bytes_before_transitive(a.drop_first(), b.drop_first(), c.drop_first());
    }
}

proof fn lemma_bytes_before_total(a: Seq<u8>, b: Seq<u8>)
    ensures
        a == b || bytes_before(a, b) || bytes_before(b, a),
    decreases a.len(),
{
    if a.len() > 0 && b.len() > 0 && a[0] == b[0] {
        lemma_bytes_before_total(a.drop_first(), b.drop_first());
        if a.drop_first() == b.drop_first() {
            assert(a =~= seq![a[0]] + a.drop_first());
            assert(b =~= seq![b[0]] + b.drop_first());
        }
    } else if a.len() == 0 && b.len() == 0 {
        assert(a =~= b);
    }
}

/// No name comes before itself.
pub proof fn name_before_is_irreflexive(a: Seq<char>)
    ensures
        !name_before(a, a),
{
    lemma_bytes_before_irreflexive(encode_utf8(a));
}

/// The order on names is transitive.
pub proof fn name_before_is_transitive(a: Seq<char>, b: Seq<char>, c: Seq<char>)
    requires
        name_before(a, b),
        name_before(b, c),
    ensures
        name_before(a, c),
{
    lemma_bytes_before_transitive(encode_utf8(a), encode_utf8(b), encode_utf8(c));
}

/// Of two different names, one comes before the other.
pub proof fn name_before_is_total(a: Seq<char>, b: Seq<char>)
    ensures
        a == b || name_before(a, b) || name_before(b, a),
{
    lemma_bytes_before_total(encode_utf8(a), encode_utf8(b));
    if encode_utf8(a) == encode_utf8(b) {
        encode_utf8_decode_utf8(a);
        encode_utf8_decode_utf8(b);
    }
}

/// Of two names whose bytes agree up to a position and differ there, the one with
/// the lower byte comes first.
pub proof fn first_difference_decides(a: Seq<char>, b: Seq<char>, at: int)
    requires
        0 <= at < encode_utf8(a).len(),
        at < encode_utf8(b).len(),
        encode_utf8(a).take(at) == encode_utf8(b).take(at),
        encode_utf8(a)[at] < encode_utf8(b)[at],
    ensures
        name_before(a, b),
        !name_before(b, a),
{
    lemma_difference(encode_utf8(a), encode_utf8(b), at);
}

/// A name whose bytes begin another name comes before it.
pub proof fn beginnings_come_first(a: Seq<char>, b: Seq<char>)
    requires
        encode_utf8(a).len() < encode_utf8(b).len(),
        encode_utf8(b).take(encode_utf8(a).len() as int) == encode_utf8(a),
    ensures
        name_before(a, b),
        !name_before(b, a),
{
    let x = encode_utf8(a);
    let y = encode_utf8(b);
    lemma_beginning(x, y);
}

proof fn lemma_difference(x: Seq<u8>, y: Seq<u8>, at: int)
    requires
        0 <= at < x.len(),
        at < y.len(),
        x.take(at) == y.take(at),
        x[at] < y[at],
    ensures
        bytes_before(x, y),
        !bytes_before(y, x),
    decreases at,
{
    if at > 0 {
        assert(x[0] == x.take(at)[0] && y[0] == y.take(at)[0]);
        assert(x.drop_first().take(at - 1) =~= x.take(at).drop_first());
        assert(y.drop_first().take(at - 1) =~= y.take(at).drop_first());
        lemma_difference(x.drop_first(), y.drop_first(), at - 1);
    }
}

proof fn lemma_beginning(x: Seq<u8>, y: Seq<u8>)
    requires
        x.len() < y.len(),
        y.take(x.len() as int) == x,
    ensures
        bytes_before(x, y),
        !bytes_before(y, x),
    decreases x.len(),
{
    if x.len() > 0 {
        assert(y.take(x.len() as int)[0] == x[0]);
        assert(y.drop_first().take(x.len() - 1) =~= y.take(x.len() as int).drop_first());
        lemma_beginning(x.drop_first(), y.drop_first());
    }
}

/// Whether `a` comes before `b` in the byte order of strings.
pub fn comes_before(a: &str, b: &str) -> (before: bool)
    ensures
        before == name_before(a@, b@),
{
    let x = a.as_bytes();
    let y = b.as_bytes();
    let mut i: usize = 0;
    proof {
        assert(x@.skip(0) =~= x@);
        assert(y@.skip(0) =~= y@);
    }
    while i < x.len() && i < y.len() && x[i] == y[i]
        invariant
            i <= x@.len(),
            i <= y@.len(),
            bytes_before(x@, y@) == bytes_before(x@.skip(i as int), y@.skip(i as int)),
        decreases x@.len() - i,
    {
        proof {
            assert(x@.skip(i as int).drop_first() =~= x@.skip(i + 1));
            assert(y@.skip(i as int).drop_first() =~= y@.skip(i + 1));
        }
        i += 1;
    }
    i < y.len() && (i == x.len() || x[i] < y[i])
}

/// `String::push` of the standard library appends the character it is given.
pub assume_specification[ String::push ](s: &mut String, c: char)
    ensures
        final(s)@ == old(s)@.push(c),
;

/// The decimal digits of `n`, without leading zeros.
pub open spec fn decimal_digits(n: nat) -> Seq<char>
    decreases n,
{
    if n < 10 {
        seq![digit(n)]
    } else {
        decimal_digits(n / 10).push(digit(n % 10))
    }
}

/// The character of a digit below ten.
pub open spec fn digit(d: nat) -> char {
    ('0' as u32 + d) as char
}

/// Writes `n` in decimal.
pub fn decimal(n: usize) -> (text: String)
    ensures
        text@ == decimal_digits(n as nat),
    decreases n,
{
    let mut text = if n < 10 {
        String::new()
    } else {
        decimal(n / 10)
    };
    text.push((48 + (n % 10) as u8) as char);
    text
}

/// The number that decimal digits stand for.
pub open spec fn digits_value(digits: Seq<char>) -> int
    decreases digits.len(),
{
    if digits.len() == 0 {
        0
    } else {
        10 * digits_value(digits.drop_last()) + (digits.last() as int - '0' as int)
    }
}

/// A number that is written in decimal reads back as the same number. It is
/// written in digits alone, and no digit could be left out at the front.
pub proof fn decimal_reads_back(n: nat)
    ensures
        digits_value(decimal_digits(n)) == n,
        decimal_digits(n).len() > 0,
        forall|i: int|
            0 <= i < decimal_digits(n).len() ==> '0' <= #[trigger] decimal_digits(n)[i]
                && decimal_digits(n)[i] <= '9',
        decimal_digits(n).len() > 1 ==> decimal_digits(n)[0] != '0',
    decreases n,
{
    if n < 10 {
        assert(seq![digit(n)].drop_last() =~= seq![]);
        assert(digits_value(Seq::<char>::empty()) == 0);
    } else {
        decimal_reads_back(n / 10);
        let front = decimal_digits(n / 10);
        assert(front.push(digit(n % 10)).drop_last() =~= front);
        if front.len() == 1 && front[0] == '0' {
            assert(digits_value(front.drop_last()) == 0);
            assert(digits_value(front) == 0);
        }
    }
}

/// Turning a character into upper case moves the ASCII lower case letters to
/// the same place among the upper case ones, and leaves any other character.
pub proof fn upper_case_moves_letters(c: char)
    ensures
        'a' <= c && c <= 'z' ==> ascii_upper(c) as int - 'A' as int == c as int - 'a' as int,
        !('a' <= c && c <= 'z') ==> ascii_upper(c) == c,
{
}

/// The character with an ASCII lower case letter turned into its upper case
/// letter, any other one unchanged.
pub open spec fn ascii_upper(c: char) -> char {
    if 'a' <= c && c <= 'z' {
        (c as u32 - 32) as char
    } else {
        c
    }
}

/// A copy of `text` with its ASCII letters in upper case.
pub fn ascii_uppercase(text: &str) -> (upper: String)
    ensures
        upper@ == text@.map_values(|c: char| ascii_upper(c)),
        upper@.len() == text@.len(),
        forall|i: int|
            0 <= i < text@.len() ==> {
                let moved: bool = 'a' <= text@[i] && text@[i] <= 'z';
                #[trigger] upper@[i] as int == text@[i] as int - if moved {
                    32int
                } else {
                    0int
                }
            },
{
    let mut upper = String::new();
    for c in it: text.chars()
        invariant
            it.seq() == text@,
            upper@ =~= text@.take(it.index()).map_values(|c: char| ascii_upper(c)),
    {
        if 'a' <= c && c <= 'z' {
            upper.push((c as u8 - 32) as char);
        } else {
            upper.push(c);
        }
    }
    assert(text@.take(text@.len() as int) =~= text@);
    upper
}

} // verus!
