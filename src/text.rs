use vstd::prelude::*;

verus! {

/// The characters of `s`, in order.
pub(crate) fn chars_of(s: &str) -> (r: Vec<char>)
    ensures
        r@ == s@,
{
    let mut r: Vec<char> = Vec::new();
    for c in it: s.chars()
        invariant
            r@ == it.seq().take(it.index() as int),
            it.seq() == s@,
    {
        r.push(c);
    }
    r
}

/// Relies on `FromIterator<char> for String`: the string holds the given
/// characters in order.
#[verifier::external_body]
pub(crate) fn string_from_chars(v: &Vec<char>) -> (r: String)
    ensures
        r@ == v@,
{
    v.iter().collect()
}

/// Appends the characters of `s` to `out`.
pub(crate) fn push_all(out: &mut Vec<char>, s: &Vec<char>)
    ensures
        final(out)@ == old(out)@ + s@,
{
    let ghost out0 = out@;
    let mut i: usize = 0;
    while i < s.len()
        invariant
            i <= s.len(),
            out@ == out0 + s@.take(i as int),
        decreases s.len() - i,
    {
        out.push(s[i]);
        i = i + 1;
        assert(out0 + s@.take(i as int) =~= out0 + s@.take(i - 1) + seq![s@[i - 1]]);
    }
    assert(s@.take(s.len() as int) =~= s@);
}

/// Whether the characters of `s` are exactly `c`.
pub(crate) fn str_eq_chars(s: &str, c: &Vec<char>) -> (r: bool)
    ensures
        r == (s@ == c@),
{
    let v = chars_of(s);
    chars_eq(&v, c)
}

/// Whether two character sequences are equal.
pub(crate) fn chars_eq(a: &Vec<char>, b: &Vec<char>) -> (r: bool)
    ensures
        r == (a@ == b@),
{
    if a.len() != b.len() {
        return false;
    }
    let mut i: usize = 0;
    while i < a.len()
        invariant
            a.len() == b.len(),
            i <= a.len(),
            forall|j: int| 0 <= j < i ==> a@[j] == b@[j],
        decreases a.len() - i,
    {
        if a[i] != b[i] {
            return false;
        }
        i = i + 1;
    }
    assert(a@ =~= b@);
    true
}

/// Whether two strings hold the same characters.
pub(crate) fn str_eq(a: &str, b: &str) -> (r: bool)
    ensures
        r == (a@ == b@),
{
    let v = chars_of(b);
    str_eq_chars(a, &v)
}

/// The decimal digit for `d`.
pub open spec fn digit(d: nat) -> char {
    if d == 0 { '0' }
    else if d == 1 { '1' }
    else if d == 2 { '2' }
    else if d == 3 { '3' }
    else if d == 4 { '4' }
    else if d == 5 { '5' }
    else if d == 6 { '6' }
    else if d == 7 { '7' }
    else if d == 8 { '8' }
    else { '9' }
}

/// The decimal notation of `n`, without leading zeros (`"0"` for zero).
pub open spec fn decimal(n: nat) -> Seq<char>
    decreases n,
{
    if n < 10 {
        seq![digit(n)]
    } else {
        decimal(n / 10).push(digit(n % 10))
    }
}

fn digit_char(d: u64) -> (c: char)
    requires
        d < 10,
    ensures
        c == digit(d as nat),
{
    if d == 0 { '0' }
    else if d == 1 { '1' }
    else if d == 2 { '2' }
    else if d == 3 { '3' }
    else if d == 4 { '4' }
    else if d == 5 { '5' }
    else if d == 6 { '6' }
    else if d == 7 { '7' }
    else if d == 8 { '8' }
    else { '9' }
}

/// Appends the decimal notation of `n` to `out`.
pub(crate) fn push_decimal(out: &mut Vec<char>, n: u64)
    ensures
        final(out)@ == old(out)@ + decimal(n as nat),
    decreases n,
{
    if n < 10 {
        out.push(digit_char(n));
    } else {
        push_decimal(out, n / 10);
        out.push(digit_char(n % 10));
    }
}

/// The placeholder of a query template that stands for the query text.
pub open spec fn placeholder() -> Seq<char> {
    seq!['$', 'a', 'd', 'd', 'r']
}

/// `template` with every occurrence of the placeholder, from left to right and
/// without overlap, replaced by `text`.
pub open spec fn substitute(template: Seq<char>, text: Seq<char>) -> Seq<char>
    decreases template.len(),
{
    if template.len() == 0 {
        seq![]
    } else if template.len() >= 5 && template.take(5) == placeholder() {
        text + substitute(template.skip(5), text)
    } else {
        seq![template[0]] + substitute(template.skip(1), text)
    }
}

fn placeholder_at(t: &Vec<char>, i: usize) -> (r: bool)
    requires
        i <= t.len(),
    ensures
        r == (t@.skip(i as int).len() >= 5 && t@.skip(i as int).take(5) == placeholder()),
{
    if t.len() - i < 5 {
        return false;
    }
    let r = t[i] == '$' && t[i + 1] == 'a' && t[i + 2] == 'd' && t[i + 3] == 'd' && t[i + 4] == 'r';
    assert(r ==> t@.skip(i as int).take(5) =~= placeholder());
    assert(t@.skip(i as int).take(5) == placeholder() ==> r) by {
        if t@.skip(i as int).take(5) == placeholder() {
            assert(t@.skip(i as int).take(5)[0] == '$');
            assert(t@.skip(i as int).take(5)[1] == 'a');
            assert(t@.skip(i as int).take(5)[2] == 'd');
            assert(t@.skip(i as int).take(5)[3] == 'd');
            assert(t@.skip(i as int).take(5)[4] == 'r');
        }
    }
    r
}

/// The template with each placeholder replaced by `text`.
pub(crate) fn substitute_chars(template: &Vec<char>, text: &Vec<char>) -> (r: Vec<char>)
    ensures
        r@ == substitute(template@, text@),
{
    let mut out: Vec<char> = Vec::new();
    let mut i: usize = 0;
    assert(template@.skip(0) =~= template@);
    assert(out@ + substitute(template@, text@) =~= substitute(template@, text@));
    while i < template.len()
        invariant
            i <= template.len(),
            out@ + substitute(template@.skip(i as int), text@) == substitute(template@, text@),
        decreases template.len() - i,
    {
        let ghost rest = template@.skip(i as int);
        if placeholder_at(template, i) {
            push_all(&mut out, text);
            assert(rest.skip(5) =~= template@.skip(i + 5));
            i = i + 5;
        } else {
            out.push(template[i]);
            assert(rest.skip(1) =~= template@.skip(i + 1));
            i = i + 1;
        }
    }
    assert(template@.skip(i as int) =~= seq![]);
    out
}

} // verus!
