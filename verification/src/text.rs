//! Text building blocks shared by the mappings: decimal rendering of
//! offsets, concatenation and joining of diagnostic strings.
use vstd::prelude::*;

verus! {

/// The character that stands for a single decimal digit.
pub open spec fn digit_char(d: nat) -> char
    recommends
        d < 10,
{
    if d == 0 {
        '0'
    } else if d == 1 {
        '1'
    } else if d == 2 {
        '2'
    } else if d == 3 {
        '3'
    } else if d == 4 {
        '4'
    } else if d == 5 {
        '5'
    } else if d == 6 {
        '6'
    } else if d == 7 {
        '7'
    } else if d == 8 {
        '8'
    } else {
        '9'
    }
}

/// The value of a decimal digit character, the inverse of [`digit_char`].
pub open spec fn digit_value(c: char) -> nat {
    if c == '1' {
        1
    } else if c == '2' {
        2
    } else if c == '3' {
        3
    } else if c == '4' {
        4
    } else if c == '5' {
        5
    } else if c == '6' {
        6
    } else if c == '7' {
        7
    } else if c == '8' {
        8
    } else if c == '9' {
        9
    } else {
        0
    }
}

/// Whether `c` is one of the ten decimal digits.
pub open spec fn is_digit(c: char) -> bool {
    '0' <= c <= '9'
}

/// The decimal notation of `n`, most significant digit first, without
/// leading zeros.
pub open spec fn decimal(n: nat) -> Seq<char>
    decreases n,
{
    if n < 10 {
        seq![digit_char(n)]
    } else {
        decimal(n / 10).push(digit_char(n % 10))
    }
}

/// The number that a sequence of decimal digits denotes.
pub open spec fn decimal_value(digits: Seq<char>) -> nat
    decreases digits.len(),
{
    if digits.len() == 0 {
        0
    } else {
        decimal_value(digits.drop_last()) * 10 + digit_value(digits.last())
    }
}

/// Decimal notation is made of digits only, is never empty, begins with a
/// zero only for zero itself, and denotes the number it was made from.
pub proof fn lemma_decimal_round_trip(n: nat)
    ensures
        decimal(n).len() >= 1,
        forall|i: int| 0 <= i < decimal(n).len() ==> is_digit(#[trigger] decimal(n)[i]),
        decimal(n)[0] == '0' <==> n == 0,
        decimal_value(decimal(n)) == n,
    decreases n,
{
    if n < 10 {
        assert(decimal(n).drop_last() =~= Seq::<char>::empty());
        assert(decimal_value(decimal(n).drop_last()) == 0);
    } else {
        lemma_decimal_round_trip(n / 10);
        let head = decimal(n / 10);
        assert(decimal(n).drop_last() =~= head);
        assert(decimal(n)[0] == head[0]);
    }
}

/// The one-character text of a decimal digit.
fn digit_str(d: usize) -> (r: &'static str)
    requires
        d < 10,
    ensures
        r@ == seq![digit_char(d as nat)],
{
    proof {
        reveal_strlit("0");
        reveal_strlit("1");
        reveal_strlit("2");
        reveal_strlit("3");
        reveal_strlit("4");
        reveal_strlit("5");
        reveal_strlit("6");
        reveal_strlit("7");
        reveal_strlit("8");
        reveal_strlit("9");
    }
    let r = match d {
        0 => "0",
        1 => "1",
        2 => "2",
        3 => "3",
        4 => "4",
        5 => "5",
        6 => "6",
        7 => "7",
        8 => "8",
        _ => "9",
    };
    assert(r@ =~= seq![digit_char(d as nat)]);
    r
}

/// Renders `n` in decimal notation.
pub fn decimal_string(n: usize) -> (r: String)
    ensures
        r@ == decimal(n as nat),
    decreases n,
{
    if n < 10 {
        String::from_str(digit_str(n))
    } else {
        let mut r = decimal_string(n / 10);
        r.append(digit_str(n % 10));
        assert(r@ =~= decimal(n as nat));
        r
    }
}

/// The texts of a list of strings, in order.
pub open spec fn texts(list: Seq<String>) -> Seq<Seq<char>> {
    Seq::new(list.len(), |i: int| list[i]@)
}

/// Whether `part` occurs in `text` as a run of consecutive characters.
pub open spec fn contains(text: Seq<char>, part: Seq<char>) -> bool {
    exists|at: int|
        0 <= at && at + part.len() <= text.len() && #[trigger] text.subrange(
            at,
            at + part.len(),
        ) == part
}

/// A text occurs in whatever is written around it.
pub proof fn lemma_contains_between(before: Seq<char>, part: Seq<char>, after: Seq<char>)
    ensures
        contains(before + part + after, part),
{
    let whole = before + part + after;
    let at = before.len() as int;
    assert(whole.subrange(at, at + part.len()) =~= part);
}

/// What contains a text also contains every text that the latter contains.
pub proof fn lemma_contains_transitive(text: Seq<char>, middle: Seq<char>, part: Seq<char>)
    requires
        contains(text, middle),
        contains(middle, part),
    ensures
        contains(text, part),
{
    let outer = choose|at: int|
        0 <= at && at + middle.len() <= text.len() && #[trigger] text.subrange(
            at,
            at + middle.len(),
        ) == middle;
    let inner = choose|at: int|
        0 <= at && at + part.len() <= middle.len() && #[trigger] middle.subrange(
            at,
            at + part.len(),
        ) == part;
    let at = outer + inner;
    assert(text.subrange(at, at + part.len()) =~= part);
}

/// The texts `parts`, in order, with `separator` between each two.
pub open spec fn joined(parts: Seq<Seq<char>>, separator: Seq<char>) -> Seq<char>
    decreases parts.len(),
{
    if parts.len() == 0 {
        Seq::empty()
    } else if parts.len() == 1 {
        parts[0]
    } else {
        joined(parts.drop_last(), separator) + separator + parts.last()
    }
}

/// Every part of a joined text occurs in it.
pub proof fn lemma_joined_contains(parts: Seq<Seq<char>>, separator: Seq<char>, i: int)
    requires
        0 <= i < parts.len(),
    ensures
        contains(joined(parts, separator), parts[i]),
    decreases parts.len(),
{
    let whole = joined(parts, separator);
    if parts.len() == 1 {
        lemma_contains_between(Seq::empty(), parts[0], Seq::empty());
        assert(Seq::<char>::empty() + parts[0] + Seq::<char>::empty() =~= whole);
    } else if i == parts.len() - 1 {
        lemma_contains_between(
            joined(parts.drop_last(), separator) + separator,
            parts.last(),
            Seq::empty(),
        );
        assert(joined(parts.drop_last(), separator) + separator + parts.last() + Seq::<
            char,
        >::empty() =~= whole);
    } else {
        let head = joined(parts.drop_last(), separator);
        lemma_joined_contains(parts.drop_last(), separator, i);
        lemma_contains_between(Seq::empty(), head, separator + parts.last());
        assert(Seq::<char>::empty() + head + (separator + parts.last()) =~= whole);
        lemma_contains_transitive(whole, head, parts[i]);
    }
}

/// Writes `parts` one after the other with `separator` between each two.
pub fn join(parts: &Vec<String>, separator: &str) -> (r: String)
    ensures
        r@ == joined(texts(parts@), separator@),
{
    let mut r = String::new();
    let mut i: usize = 0;
    while i < parts.len()
        invariant
            i <= parts.len(),
            r@ == joined(texts(parts@).take(i as int), separator@),
        decreases parts.len() - i,
    {
        if i > 0 {
            r.append(separator);
        }
        r.append(parts[i].as_str());
        proof {
            let done = texts(parts@).take(i + 1);
            assert(done.drop_last() =~= texts(parts@).take(i as int));
            assert(done.last() == parts[i as int]@);
            assert(r@ =~= joined(done, separator@));
        }
        i += 1;
    }
    assert(texts(parts@).take(i as int) =~= texts(parts@));
    r
}

/// `inner` between `open` and `close`, behind `name`: the shape in which a
/// value is rendered with the name of its variant or of its kind in front.
pub open spec fn enclosed(
    name: Seq<char>,
    open: Seq<char>,
    inner: Seq<char>,
    close: Seq<char>,
) -> Seq<char> {
    name + open + inner + close
}

/// What is enclosed occurs in the whole.
pub proof fn lemma_enclosed_contains(
    name: Seq<char>,
    open: Seq<char>,
    inner: Seq<char>,
    close: Seq<char>,
)
    ensures
        contains(enclosed(name, open, inner, close), inner),
{
    lemma_contains_between(name + open, inner, close);
}

/// Writes `inner` between `open` and `close`, behind `name`.
pub fn enclose(name: &str, open: &str, inner: &str, close: &str) -> (r: String)
    ensures
        r@ == enclosed(name@, open@, inner@, close@),
{
    let mut r = String::from_str(name);
    r.append(open);
    r.append(inner);
    r.append(close);
    r
}

/// The text that `Debug` formatting gives for a string: the string between
/// double quotes, with the characters escaped that a Rust literal escapes.
pub uninterp spec fn debug_quoted(text: Seq<char>) -> Seq<char>;

/// Formats `text` with `std`'s `Debug` for `str`. The result depends on the
/// characters of `text` alone; what it is, is left to `std`.
#[verifier::external_body]
pub(crate) fn debug_quote(text: &str) -> (r: String)
    ensures
        r@ == debug_quoted(text@),
{
    format!("{text:?}")
}

} // verus!
