//! Decimal rendering of integers and the small string operations that
//! the bot's messages are built from.

use vstd::prelude::*;

verus! {

/// The character that shows the decimal digit `d` (`d < 10`).
pub open spec fn digit_char(d: nat) -> char {
    if d == 0 {
        '0'
    } else if d == 1 {
        '1'
    } else if d == 2 {
        '2'
    } else if d == 3 {
        '3'
    } else if d == 4 {
        '4'
    } else if d == 5 {
        '5'
    } else if d == 6 {
        '6'
    } else if d == 7 {
        '7'
    } else if d == 8 {
        '8'
    } else {
        '9'
    }
}

/// Whether `c` is one of the ten ASCII decimal digits.
pub open spec fn is_digit(c: char) -> bool {
    '0' <= c && c <= '9'
}

/// The value of a decimal digit character.
pub open spec fn digit_value(c: char) -> nat {
    (c as int - '0' as int) as nat
}

/// The decimal digits of `n`, most significant first, without leading zeros.
pub open spec fn decimal(n: nat) -> Seq<char>
    decreases n,
{
    if n < 10 {
        seq![digit_char(n)]
    } else {
        decimal(n / 10).push(digit_char(n % 10))
    }
}

/// The decimal form of a signed integer: a minus sign before the digits of a
/// negative number.
pub open spec fn signed_decimal(i: int) -> Seq<char> {
    if i < 0 {
        seq!['-'] + decimal((-i) as nat)
    } else {
        decimal(i as nat)
    }
}

/// The number that a sequence of decimal digits stands for.
pub open spec fn digits_value(s: Seq<char>) -> nat
    decreases s.len(),
{
    if s.len() == 0 {
        0
    } else {
        digits_value(s.drop_last()) * 10 + digit_value(s.last())
    }
}

proof fn lemma_digit_char(d: nat)
    requires
        d < 10,
    ensures
        is_digit(digit_char(d)),
        digit_value(digit_char(d)) == d,
{
}

/// Decimal rendering is read back as the number it renders, uses only
/// digits, and starts with a zero only for zero itself.
pub proof fn lemma_decimal_reads_back(n: nat)
    ensures
        digits_value(decimal(n)) == n,
        decimal(n).len() >= 1,
        forall|i: int| 0 <= i < decimal(n).len() ==> is_digit(#[trigger] decimal(n)[i]),
        decimal(n)[0] == '0' ==> n == 0,
    decreases n,
{
    if n < 10 {
        lemma_digit_char(n);
        assert(decimal(n).drop_last() =~= Seq::<char>::empty());
        assert(digits_value(Seq::<char>::empty()) == 0);
    } else {
        lemma_decimal_reads_back(n / 10);
        lemma_digit_char(n % 10);
        let s = decimal(n);
        assert(s.drop_last() =~= decimal(n / 10));
        assert(s.last() == digit_char(n % 10));
        assert(n == (n / 10) * 10 + n % 10);
        assert forall|i: int| 0 <= i < s.len() implies is_digit(#[trigger] s[i]) by {
            if i < s.len() - 1 {
                assert(s[i] == decimal(n / 10)[i]);
            }
        }
    }
}

/// Two numbers with the same decimal rendering are equal.
pub proof fn lemma_decimal_injective(a: nat, b: nat)
    requires
        decimal(a) == decimal(b),
    ensures
        a == b,
{
    lemma_decimal_reads_back(a);
    lemma_decimal_reads_back(b);
}

/// Two signed integers with the same decimal rendering are equal.
pub proof fn lemma_signed_decimal_injective(a: int, b: int)
    requires
        signed_decimal(a) == signed_decimal(b),
    ensures
        a == b,
{
    lemma_decimal_reads_back(if a < 0 { (-a) as nat } else { a as nat });
    lemma_decimal_reads_back(if b < 0 { (-b) as nat } else { b as nat });
    if a < 0 && b < 0 {
        assert(signed_decimal(a).drop_first() =~= decimal((-a) as nat));
        assert(signed_decimal(b).drop_first() =~= decimal((-b) as nat));
        lemma_decimal_injective((-a) as nat, (-b) as nat);
    } else if a < 0 {
        assert(signed_decimal(a)[0] == '-');
        assert(is_digit(decimal(b as nat)[0]));
    } else if b < 0 {
        assert(signed_decimal(b)[0] == '-');
        assert(is_digit(decimal(a as nat)[0]));
    } else {
        lemma_decimal_injective(a as nat, b as nat);
    }
}

fn digit_str(d: u64) -> (s: &'static str)
    requires
        d < 10,
    ensures
        s@ == seq![digit_char(d as nat)],
{
    proof {
        reveal_strlit("0");
        reveal_strlit("1");
        reveal_strlit("2");
        reveal_strlit("3");
        reveal_strlit("4");
        reveal_strlit("5");
        reveal_strlit("6");
        reveal_strlit("7");
        reveal_strlit("8");
        reveal_strlit("9");
    }
    if d == 0 {
        "0"
    } else if d == 1 {
        "1"
    } else if d == 2 {
        "2"
    } else if d == 3 {
        "3"
    } else if d == 4 {
        "4"
    } else if d == 5 {
        "5"
    } else if d == 6 {
        "6"
    } else if d == 7 {
        "7"
    } else if d == 8 {
        "8"
    } else {
        "9"
    }
}

/// The decimal form of an unsigned integer.
pub fn decimal_string(n: u64) -> (s: String)
    ensures
        s@ == decimal(n as nat),
    decreases n,
{
    if n < 10 {
        String::from_str(digit_str(n))
    } else {
        let mut s = decimal_string(n / 10);
        s.append(digit_str(n % 10));
        s
    }
}

/// The decimal form of a signed integer.
pub fn signed_decimal_string(n: i64) -> (s: String)
    ensures
        s@ == signed_decimal(n as int),
{
    if n < 0 {
        let magnitude: u64 = (-(n as i128)) as u64;
        let mut s = String::from_str("-");
        proof {
            reveal_strlit("-");
        }
        s.append(decimal_string(magnitude).as_str());
        s
    } else {
        decimal_string(n as u64)
    }
}

/// The text that mentions (pings) the Discord user with the given id.
pub open spec fn mention(id: nat) -> Seq<char> {
    "<@"@ + decimal(id) + ">"@
}

/// `s` padded on the left with zeros to at least `width` characters.
pub open spec fn zero_pad(s: Seq<char>, width: nat) -> Seq<char> {
    if s.len() >= width {
        s
    } else {
        Seq::new((width - s.len()) as nat, |_i: int| '0') + s
    }
}

/// The items written one after another, with `sep` between each two.
pub open spec fn joined(items: Seq<Seq<char>>, sep: Seq<char>) -> Seq<char>
    decreases items.len(),
{
    if items.len() == 0 {
        Seq::empty()
    } else if items.len() == 1 {
        items[0]
    } else {
        joined(items.drop_last(), sep) + sep + items.last()
    }
}

/// The items one per line: joined by line breaks.
pub open spec fn lines_text(items: Seq<Seq<char>>) -> Seq<char> {
    joined(items, "\n"@)
}

/// The character sequences that a list of strings holds.
pub open spec fn texts(items: Seq<String>) -> Seq<Seq<char>> {
    items.map_values(|x: String| x@)
}

/// Whether `t` occurs in `s` as a contiguous piece.
pub open spec fn has_substring(s: Seq<char>, t: Seq<char>) -> bool {
    exists|i: int| 0 <= i && i + t.len() <= s.len() && #[trigger] s.subrange(i, i + t.len()) == t
}

/// The text that mentions the Discord user with the given id.
pub fn mention_string(id: u64) -> (s: String)
    ensures
        s@ == mention(id as nat),
{
    let mut s = String::from_str("<@");
    s.append(decimal_string(id).as_str());
    s.append(">");
    s
}

/// Whether two texts are equal, character for character.
pub fn same_text(a: &str, b: &str) -> (r: bool)
    ensures
        r == (a@ == b@),
{
    String::from_str(a) == String::from_str(b)
}

/// The strings of `items` joined by line breaks.
pub fn join_lines(items: &Vec<String>) -> (s: String)
    ensures
        s@ == lines_text(texts(items@)),
{
    let ghost views = texts(items@);
    let mut s = String::new();
    let n = items.len();
    for i in 0..n
        invariant
            n == items@.len(),
            views == texts(items@),
            s@ == lines_text(views.take(i as int)),
    {
        assert(views.take(i + 1).drop_last() =~= views.take(i as int));
        assert(views.take(i + 1).last() == items@[i as int]@);
        if i > 0 {
            s.append("\n");
        } else {
            assert(views.take(1) =~= seq![items@[0]@]);
        }
        s.append(items[i].as_str());
    }
    assert(views.take(n as int) =~= views);
    s
}

/// The characters of a text, one by one.
pub fn chars_of(s: &str) -> (v: Vec<char>)
    ensures
        v@ == s@,
{
    let n = s.unicode_len();
    let mut v: Vec<char> = Vec::new();
    for i in 0..n
        invariant
            n == s@.len(),
            v@ == s@.subrange(0, i as int),
    {
        v.push(s.get_char(i));
        assert(v@ =~= s@.subrange(0, i + 1));
    }
    assert(v@ =~= s@);
    v
}

/// Whether `needle` occurs in `haystack`.
pub fn contains_text(haystack: &str, needle: &str) -> (r: bool)
    ensures
        r == has_substring(haystack@, needle@),
{
    let h = chars_of(haystack);
    let t = chars_of(needle);
    let hn = h.len();
    let tn = t.len();
    if tn > hn {
        proof {
            assert forall|i: int| 0 <= i && i + tn <= hn implies #[trigger] haystack@.subrange(
                i,
                i + needle@.len(),
            ) != needle@ by {}
        }
        return false;
    }
    let last = hn - tn;
    let mut i: usize = 0;
    while i <= last
        invariant
            h@ == haystack@,
            t@ == needle@,
            hn == h@.len(),
            tn == t@.len(),
            tn <= hn,
            last == hn - tn,
            i <= last + 1,
            forall|k: int| 0 <= k < i ==> #[trigger] haystack@.subrange(k, k + tn) != needle@,
        decreases last + 1 - i,
    {
        let mut j: usize = 0;
        let mut same = true;
        while j < tn
            invariant
                h@ == haystack@,
                t@ == needle@,
                hn == h@.len(),
                tn == t@.len(),
                i <= last,
                last == hn - tn,
                j <= tn,
                same == (forall|q: int| 0 <= q < j ==> h@[i + q] == t@[q]),
            decreases tn - j,
        {
            if h[i + j] != t[j] {
                same = false;
            }
            j = j + 1;
        }
        if same {
            assert(haystack@.subrange(i as int, i + tn) =~= needle@);
            return true;
        } else {
            let ghost q = choose|q: int| 0 <= q < tn && h@[i + q] != t@[q];
            assert(haystack@.subrange(i as int, i + tn)[q] != needle@[q]);
        }
        i = i + 1;
    }
    false
}


/// A text occurs in any text that holds it between two others.
pub proof fn law_substring_in_concat(a: Seq<char>, t: Seq<char>, b: Seq<char>)
    ensures
        has_substring(a + t + b, t),
{
    let s = a + t + b;
    assert(s.subrange(a.len() as int, (a.len() + t.len()) as int) =~= t);
}

/// A text never occurs in a shorter one, and whatever occurs is made of
/// characters of the text it occurs in.
pub proof fn law_substring_fits(s: Seq<char>, t: Seq<char>)
    ensures
        t.len() > s.len() ==> !has_substring(s, t),
        has_substring(s, t) ==> forall|k: int| 0 <= k < t.len() ==> s.contains(#[trigger] t[k]),
{
    if has_substring(s, t) {
        let i = choose|i: int| 0 <= i && i + t.len() <= s.len() && #[trigger] s.subrange(i, i + t.len()) == t;
        assert forall|k: int| 0 <= k < t.len() implies s.contains(#[trigger] t[k]) by {
            assert(s.subrange(i, i + t.len())[k] == s[i + k]);
        }
    }
}


/// A mention is `<@`, the decimal id, and `>`.
pub proof fn law_mention_form(id: nat)
    ensures
        mention(id) == seq!['<', '@'] + decimal(id) + seq!['>'],
{
    reveal_strlit("<@");
    reveal_strlit(">");
    assert("<@"@ =~= seq!['<', '@']);
    assert(">"@ =~= seq!['>']);
}

/// Lines are joined by single line breaks: nothing for no items, the item
/// alone for one, and each further item after a line break.
pub proof fn law_lines_joined_by_breaks(items: Seq<Seq<char>>, a: Seq<char>, b: Seq<char>)
    ensures
        lines_text(Seq::empty()) == Seq::<char>::empty(),
        lines_text(seq![a]) == a,
        lines_text(seq![a, b]) == a + seq!['\n'] + b,
        items.len() > 0 ==> lines_text(items.push(b)) == lines_text(items) + seq!['\n'] + b,
{
    reveal_strlit("\n");
    assert("\n"@ =~= seq!['\n']);
    assert(seq![a, b].drop_last() =~= seq![a]);
    assert(joined(seq![a], "\n"@) == a);
    assert(seq![a, b].last() == b);
    assert(joined(seq![a, b], "\n"@) == joined(seq![a], "\n"@) + "\n"@ + b);
    assert(items.push(b).drop_last() =~= items);
}

} // verus!
