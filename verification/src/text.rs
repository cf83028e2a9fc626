//! Text building blocks: decimal rendering of integers, digit grouping,
//! and the few `String` edits that the screens need.

use vstd::prelude::*;

verus! {

/// Appends one character to a string (`String::push`).
/// Trusted: std documents that `push` appends the character at the end.
#[verifier::external_body]
pub fn string_push(s: &mut String, c: char)
    ensures
        final(s)@ == old(s)@.push(c),
{
    s.push(c);
}

/// Removes the last character of a string (`String::pop`).
/// Trusted: std documents that `pop` removes and returns the last character,
/// or returns `None` and leaves the string alone when it is empty.
#[verifier::external_body]
pub fn string_pop(s: &mut String) -> (c: Option<char>)
    ensures
        old(s)@.len() == 0 ==> c is None && final(s)@ == old(s)@,
        old(s)@.len() > 0 ==> c == Some(old(s)@.last()) && final(s)@ == old(s)@.drop_last(),
{
    s.pop()
}

/// A string made of the given literal.
pub fn from_literal(s: &str) -> (r: String)
    ensures
        r@ == s@,
{
    s.to_owned()
}

/// Appends a whole piece of text to a string.
pub fn push_text(s: &mut String, t: &str)
    ensures
        final(s)@ == old(s)@ + t@,
{
    s.append(t);
}

/// Two pieces of text, one after the other.
pub fn join2(a: &str, b: &str) -> (r: String)
    ensures
        r@ == a@ + b@,
{
    let mut r = from_literal(a);
    push_text(&mut r, b);
    r
}

/// Three pieces of text, one after the other.
pub fn join3(a: &str, b: &str, c: &str) -> (r: String)
    ensures
        r@ == a@ + b@ + c@,
{
    let mut r = from_literal(a);
    push_text(&mut r, b);
    push_text(&mut r, c);
    r
}

/// The texts of a list of strings.
pub open spec fn views(v: Seq<String>) -> Seq<Seq<char>> {
    v.map_values(|x: String| x@)
}

/// Owned copies of the given pieces of text, in order.
pub fn strings(items: &[&str]) -> (r: Vec<String>)
    ensures
        views(r@) == items@.map_values(|x: &str| x@),
{
    let mut r: Vec<String> = Vec::new();
    let mut i: usize = 0;
    while i < items.len()
        invariant
            i <= items@.len(),
            views(r@) == items@.subrange(0, i as int).map_values(|x: &str| x@),
        decreases items@.len() - i,
    {
        let ghost before = r@;
        r.push(from_literal(items[i]));
        proof {
            assert(views(r@) =~= views(before).push(items@[i as int]@));
            assert(items@.subrange(0, i + 1).map_values(|x: &str| x@) =~= items@.subrange(0, i as int).map_values(|x: &str| x@).push(items@[i as int]@));
        }
        i = i + 1;
    }
    proof {
        assert(items@.subrange(0, items@.len() as int) =~= items@);
    }
    r
}

/// The number of characters (not bytes) of a piece of text.
pub fn char_count(s: &str) -> (n: usize)
    ensures
        n == s@.len(),
{
    s.unicode_len()
}

/// Whether two pieces of text are the same, character for character.
pub fn text_eq(a: &str, b: &str) -> (r: bool)
    ensures
        r == (a@ == b@),
{
    let n = char_count(a);
    if n != char_count(b) {
        return false;
    }
    let mut i: usize = 0;
    while i < n
        invariant
            n == a@.len(),
            n == b@.len(),
            i <= n,
            forall|k: int| 0 <= k < i ==> a@[k] == b@[k],
        decreases n - i,
    {
        if a.get_char(i) != b.get_char(i) {
            return false;
        }
        i = i + 1;
    }
    proof {
        assert(a@ =~= b@);
    }
    true
}

/// The character of a decimal digit.
pub open spec fn digit_char(d: nat) -> char {
    if d == 0 { '0' }
    else if d == 1 { '1' }
    else if d == 2 { '2' }
    else if d == 3 { '3' }
    else if d == 4 { '4' }
    else if d == 5 { '5' }
    else if d == 6 { '6' }
    else if d == 7 { '7' }
    else if d == 8 { '8' }
    else { '9' }
}

/// The decimal digits of a natural number, most significant first, without
/// leading zeros ("0" for zero).
pub open spec fn decimal(n: nat) -> Seq<char>
    decreases n,
{
    if n < 10 {
        seq![digit_char(n)]
    } else {
        decimal(n / 10).push(digit_char(n % 10))
    }
}

/// The decimal rendering of an integer: a minus sign before negative values.
pub open spec fn signed_decimal(n: int) -> Seq<char> {
    if n < 0 {
        seq!['-'] + decimal((-n) as nat)
    } else {
        decimal(n as nat)
    }
}

fn digit_to_char(d: u64) -> (c: char)
    requires
        d < 10,
    ensures
        c == digit_char(d as nat),
{
    if d == 0 { '0' }
    else if d == 1 { '1' }
    else if d == 2 { '2' }
    else if d == 3 { '3' }
    else if d == 4 { '4' }
    else if d == 5 { '5' }
    else if d == 6 { '6' }
    else if d == 7 { '7' }
    else if d == 8 { '8' }
    else { '9' }
}

/// The decimal digits of `n` (as `n.to_string()` renders it).
pub fn format_u64(n: u64) -> (r: String)
    ensures
        r@ == decimal(n as nat),
    decreases n,
{
    if n < 10 {
        let mut r = String::new();
        string_push(&mut r, digit_to_char(n));
        proof {
            assert(r@ =~= seq![digit_char(n as nat)]);
        }
        r
    } else {
        let mut r = format_u64(n / 10);
        string_push(&mut r, digit_to_char(n % 10));
        r
    }
}

/// The decimal rendering of `n`, with a minus sign when it is negative.
pub fn format_i64(n: i64) -> (r: String)
    ensures
        r@ == signed_decimal(n as int),
{
    if n < 0 {
        let magnitude: u64 = if n == i64::MIN {
            9223372036854775808u64
        } else {
            (-n) as u64
        };
        let digits = format_u64(magnitude);
        let mut r = from_literal("-");
        push_text(&mut r, digits.as_str());
        proof {
            reveal_strlit("-");
            assert(r@ =~= seq!['-'] + decimal((-(n as int)) as nat));
        }
        r
    } else {
        format_u64(n as u64)
    }
}

/// An amount with its currency: the signed decimal, a space, the currency.
pub open spec fn amount_text(amount: int, currency: Seq<char>) -> Seq<char> {
    signed_decimal(amount) + " "@ + currency
}

/// Writes an amount with its currency, as "1500 JPY".
pub fn format_amount(amount: i64, currency: &str) -> (r: String)
    ensures
        r@ == amount_text(amount as int, currency@),
{
    let mut r = format_i64(amount);
    push_text(&mut r, " ");
    push_text(&mut r, currency);
    r
}

/// The magnitude of an integer.
pub open spec fn magnitude(n: int) -> nat {
    if n < 0 { (-n) as nat } else { n as nat }
}

/// A number kept in hundredths, written with two decimals: 1234 is
/// "12.34", -5 is "-0.05".
pub open spec fn fixed2(n: int) -> Seq<char> {
    let m = magnitude(n);
    (if n < 0 { "-"@ } else { ""@ }) + decimal(m / 100) + "."@ + seq![
        digit_char((m % 100) / 10),
        digit_char(m % 10),
    ]
}

/// A number kept in tenths, written with one decimal: 306 is "30.6",
/// -5 is "-0.5".
pub open spec fn fixed1(n: int) -> Seq<char> {
    let m = magnitude(n);
    (if n < 0 { "-"@ } else { ""@ }) + decimal(m / 10) + "."@ + seq![digit_char(m % 10)]
}

fn magnitude_u64(n: i64) -> (m: u64)
    ensures
        m == magnitude(n as int),
{
    if n < 0 {
        if n == i64::MIN {
            9223372036854775808u64
        } else {
            (-n) as u64
        }
    } else {
        n as u64
    }
}

/// `fixed2` in code.
pub fn format_fixed2(n: i64) -> (r: String)
    ensures
        r@ == fixed2(n as int),
{
    let m = magnitude_u64(n);
    let mut r = if n < 0 { from_literal("-") } else { String::new() };
    let whole = format_u64(m / 100);
    push_text(&mut r, whole.as_str());
    push_text(&mut r, ".");
    string_push(&mut r, digit_to_char((m % 100) / 10));
    string_push(&mut r, digit_to_char(m % 10));
    proof {
        reveal_strlit("-");
        reveal_strlit("");
        reveal_strlit(".");
        assert(r@ =~= fixed2(n as int));
    }
    r
}

/// `fixed1` in code.
pub fn format_fixed1(n: i64) -> (r: String)
    ensures
        r@ == fixed1(n as int),
{
    let m = magnitude_u64(n);
    let mut r = if n < 0 { from_literal("-") } else { String::new() };
    let whole = format_u64(m / 10);
    push_text(&mut r, whole.as_str());
    push_text(&mut r, ".");
    string_push(&mut r, digit_to_char(m % 10));
    proof {
        reveal_strlit("-");
        reveal_strlit("");
        reveal_strlit(".");
        assert(r@ =~= fixed1(n as int));
    }
    r
}

/// Digit grouping of the first `k` characters of `s`: a comma goes before
/// each character (but the first) whose distance from the end of the whole
/// text is a multiple of three.
pub open spec fn grouped_prefix(s: Seq<char>, k: int) -> Seq<char>
    decreases k,
{
    if k <= 0 {
        Seq::empty()
    } else {
        let before = grouped_prefix(s, k - 1);
        let i = k - 1;
        if i > 0 && (s.len() - i) % 3 == 0 {
            before.push(',').push(s[i])
        } else {
            before.push(s[i])
        }
    }
}

/// The text with a thousands separator every three characters from the right.
pub open spec fn grouped(s: Seq<char>) -> Seq<char> {
    grouped_prefix(s, s.len() as int)
}

/// The text with every comma taken out.
pub open spec fn without_commas(s: Seq<char>) -> Seq<char>
    decreases s.len(),
{
    if s.len() == 0 {
        s
    } else if s.last() == ',' {
        without_commas(s.drop_last())
    } else {
        without_commas(s.drop_last()).push(s.last())
    }
}

/// Inserts a comma between each group of three characters, counted from the
/// right: "1234567" becomes "1,234,567".
pub fn group_digits(s: &str) -> (r: String)
    ensures
        r@ == grouped(s@),
{
    let n = char_count(s);
    let mut r = String::new();
    let mut i: usize = 0;
    while i < n
        invariant
            n == s@.len(),
            i <= n,
            r@ == grouped_prefix(s@, i as int),
        decreases n - i,
    {
        let c = s.get_char(i);
        if i > 0 && (n - i) % 3 == 0 {
            string_push(&mut r, ',');
        }
        string_push(&mut r, c);
        i = i + 1;
    }
    r
}

proof fn lemma_without_commas_push(s: Seq<char>, c: char)
    ensures
        without_commas(s.push(c)) == if c == ',' { without_commas(s) } else { without_commas(s).push(c) },
{
    assert(s.push(c).drop_last() =~= s);
}

proof fn lemma_grouped_prefix_without_commas(s: Seq<char>, k: int)
    requires
        0 <= k <= s.len(),
    ensures
        without_commas(grouped_prefix(s, k)) == without_commas(s.subrange(0, k)),
    decreases k,
{
    if k > 0 {
        lemma_grouped_prefix_without_commas(s, k - 1);
        let before = grouped_prefix(s, k - 1);
        let i = k - 1;
        assert(s.subrange(0, k) =~= s.subrange(0, k - 1).push(s[i]));
        lemma_without_commas_push(s.subrange(0, k - 1), s[i]);
        if i > 0 && (s.len() - i) % 3 == 0 {
            lemma_without_commas_push(before, ',');
            lemma_without_commas_push(before.push(','), s[i]);
        } else {
            lemma_without_commas_push(before, s[i]);
        }
    } else {
        assert(s.subrange(0, 0) =~= Seq::<char>::empty());
    }
}

proof fn lemma_grouped_prefix_short(s: Seq<char>, k: int)
    requires
        s.len() <= 3,
        0 <= k <= s.len(),
    ensures
        grouped_prefix(s, k) == s.subrange(0, k),
    decreases k,
{
    if k > 0 {
        lemma_grouped_prefix_short(s, k - 1);
        assert(s.subrange(0, k) =~= s.subrange(0, k - 1).push(s[k - 1]));
    } else {
        assert(s.subrange(0, 0) =~= Seq::<char>::empty());
    }
}

proof fn lemma_grouped_prefix_head(s: Seq<char>, k: int)
    requires
        s.len() > 3,
        0 <= k <= s.len() - 3,
    ensures
        grouped_prefix(s, k) == grouped_prefix(s.take(s.len() - 3), k),
    decreases k,
{
    if k > 0 {
        lemma_grouped_prefix_head(s, k - 1);
        let t = s.take(s.len() - 3);
        let i = k - 1;
        assert(t[i] == s[i]);
        assert((s.len() - i) % 3 == (t.len() - i) % 3) by {
            assert(s.len() - i == (t.len() - i) + 3);
        }
    }
}

proof fn lemma_grouped_prefix_tail(s: Seq<char>, j: int)
    requires
        s.len() > 3,
        1 <= j <= 3,
    ensures
        grouped_prefix(s, s.len() - 3 + j) == grouped_prefix(s, s.len() - 3) + seq![','] + s.subrange(
            s.len() - 3,
            s.len() - 3 + j,
        ),
    decreases j,
{
    let m = s.len() - 3;
    if j == 1 {
        assert((s.len() - m) % 3 == 0);
        assert(s.subrange(m, m + 1) =~= seq![s[m]]);
        assert(grouped_prefix(s, m).push(',').push(s[m]) =~= grouped_prefix(s, m) + seq![','] + seq![s[m]]);
    } else {
        lemma_grouped_prefix_tail(s, j - 1);
        let i = m + j - 1;
        assert((s.len() - i) % 3 != 0);
        assert(s.subrange(m, m + j) =~= s.subrange(m, m + j - 1).push(s[i]));
        assert((grouped_prefix(s, m) + seq![','] + s.subrange(m, m + j - 1)).push(s[i]) =~= grouped_prefix(s, m)
            + seq![','] + s.subrange(m, m + j));
    }
}

/// Thousands are grouped all the way up: a text of at most three
/// characters is left as it is, and a longer one is its leading part
/// (all but the last three characters), itself grouped, then a comma, then
/// the last three characters. So every group after the first has exactly
/// three characters and the first has one to three.
pub proof fn law_groups_of_three(s: Seq<char>)
    ensures
        s.len() <= 3 ==> grouped(s) == s,
        s.len() > 3 ==> grouped(s) == grouped(s.take(s.len() - 3)) + seq![','] + s.skip(s.len() - 3),
{
    if s.len() <= 3 {
        lemma_grouped_prefix_short(s, s.len() as int);
        assert(s.subrange(0, s.len() as int) =~= s);
    } else {
        let m = s.len() - 3;
        lemma_grouped_prefix_tail(s, 3);
        lemma_grouped_prefix_head(s, m);
        assert(s.take(m).len() == m);
        assert(s.subrange(m, s.len() as int) =~= s.skip(m));
    }
}

/// Grouping only inserts separators: taking the commas out again gives the
/// text with its own commas taken out (the digits, for a number).
pub proof fn law_grouping_keeps_digits(s: Seq<char>)
    ensures
        without_commas(grouped(s)) == without_commas(s),
{
    lemma_grouped_prefix_without_commas(s, s.len() as int);
    assert(s.subrange(0, s.len() as int) =~= s);
}

} // verus!
