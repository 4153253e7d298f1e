use vstd::prelude::*;

use crate::text::{chars_of, string_from_chars};

verus! {

/// The labels of the response lines that name another server, in the order
/// in which they are tried at a position.
pub open spec fn referral_labels() -> Seq<Seq<char>> {
    seq![
        "ReferralServer"@,
        "Registrar Whois"@,
        "Whois Server"@,
        "WHOIS Server"@,
        "Registrar WHOIS Server"@,
    ]
}

/// Whether `w` stands in `s` from position `i`.
pub open spec fn starts_at(s: Seq<char>, i: int, w: Seq<char>) -> bool {
    0 <= i && i + w.len() <= s.len() && s.subrange(i, i + w.len()) == w
}

/// Whether `s` holds the label `l` followed by a colon from position `p`.
pub open spec fn header_at(s: Seq<char>, p: int, l: Seq<char>) -> bool {
    starts_at(s, p, l) && p + l.len() < s.len() && s[p + l.len()] == ':'
}

/// The position after the colon of the first label, from the `k`-th on, that
/// stands with a colon at `p`.
pub open spec fn label_end(s: Seq<char>, p: int, k: int) -> Option<int>
    decreases referral_labels().len() - k,
{
    if k < 0 || k >= referral_labels().len() {
        None
    } else if header_at(s, p, referral_labels()[k]) {
        Some(p + referral_labels()[k].len() + 1)
    } else {
        label_end(s, p, k + 1)
    }
}

/// The position after the colon of the leftmost referral label at or after
/// `p`.
pub open spec fn header_end(s: Seq<char>, p: int) -> Option<int>
    decreases s.len() - p,
{
    if p < 0 || p >= s.len() {
        None
    } else if label_end(s, p, 0) is Some {
        label_end(s, p, 0)
    } else {
        header_end(s, p + 1)
    }
}

/// Unicode white space other than the line feed.
pub open spec fn is_line_space(c: char) -> bool {
    let n = c as u32;
    (0x09 <= n <= 0x0d && n != 0x0a) || n == 0x20 || n == 0x85 || n == 0xa0 || n == 0x1680 || (
    0x2000 <= n <= 0x200a) || n == 0x2028 || n == 0x2029 || n == 0x202f || n == 0x205f || n
        == 0x3000
}

/// The first position at or after `i` that holds no line space.
pub open spec fn skip_line_space(s: Seq<char>, i: int) -> int
    decreases s.len() - i,
{
    if 0 <= i < s.len() && is_line_space(s[i]) {
        skip_line_space(s, i + 1)
    } else {
        i
    }
}

/// `i`, moved past a `rwhois://` or `whois://` prefix that stands there.
pub open spec fn skip_scheme(s: Seq<char>, i: int) -> int {
    if starts_at(s, i, "rwhois://"@) {
        i + "rwhois://"@.len()
    } else if starts_at(s, i, "whois://"@) {
        i + "whois://"@.len()
    } else {
        i
    }
}

/// The first position at or after `i` that holds a line feed, or the end.
pub open spec fn line_end(s: Seq<char>, i: int) -> int
    decreases s.len() - i,
{
    if 0 <= i < s.len() && s[i] != '\n' {
        line_end(s, i + 1)
    } else {
        i
    }
}

/// Where the value that starts at `b` ends: at the end of its line, before a
/// carriage return that closes the line.
pub open spec fn value_end(s: Seq<char>, b: int) -> int {
    let e = line_end(s, b);
    if e > b && s[e - 1] == '\r' {
        e - 1
    } else {
        e
    }
}

/// The host that a response refers to: on the line of the leftmost referral
/// label with its colon, what follows the colon, line space and an optional
/// `whois://` or `rwhois://`, up to the line ending (a line feed, a carriage
/// return and line feed, or the end of the text; a carriage return directly
/// before the end of the text counts as a line ending too).
pub open spec fn referral_target(s: Seq<char>) -> Option<Seq<char>> {
    match header_end(s, 0) {
        None => None,
        Some(e) => {
            let b = skip_scheme(s, skip_line_space(s, e));
            Some(s.subrange(b, value_end(s, b)))
        },
    }
}

fn line_space(c: char) -> (r: bool)
    ensures
        r == is_line_space(c),
{
    let n = c as u32;
    (0x09 <= n && n <= 0x0d && n != 0x0a) || n == 0x20 || n == 0x85 || n == 0xa0 || n == 0x1680
        || (0x2000 <= n && n <= 0x200a) || n == 0x2028 || n == 0x2029 || n == 0x202f || n == 0x205f
        || n == 0x3000
}

fn chars_at(s: &Vec<char>, i: usize, w: &Vec<char>) -> (r: bool)
    ensures
        r == starts_at(s@, i as int, w@),
{
    if i > s.len() || w.len() > s.len() - i {
        return false;
    }
    let mut j: usize = 0;
    while j < w.len()
        invariant
            j <= w.len(),
            i + w.len() <= s.len(),
            forall|t: int| 0 <= t < j ==> s@[i + t] == w@[t],
        decreases w.len() - j,
    {
        if s[i + j] != w[j] {
            assert(s@.subrange(i as int, i + w.len())[j as int] != w@[j as int]);
            return false;
        }
        j = j + 1;
    }
    assert(s@.subrange(i as int, i + w.len()) =~= w@);
    true
}

fn label_end_at(s: &Vec<char>, p: usize, labels: &Vec<Vec<char>>) -> (r: Option<usize>)
    requires
        labels.len() == referral_labels().len(),
        forall|k: int| 0 <= k < labels.len() ==> #[trigger] labels@[k]@ == referral_labels()[k],
        p < s.len(),
    ensures
        match r {
            Some(e) => label_end(s@, p as int, 0) == Some(e as int),
            None => label_end(s@, p as int, 0) is None,
        },
        r matches Some(e) ==> e <= s.len(),
{
    let mut k: usize = 0;
    while k < labels.len()
        invariant
            k <= labels.len(),
            labels.len() == referral_labels().len(),
            forall|k: int| 0 <= k < labels.len() ==> #[trigger] labels@[k]@ == referral_labels()[k],
            p < s.len(),
            label_end(s@, p as int, 0) == label_end(s@, p as int, k as int),
        decreases labels.len() - k,
    {
        let l = &labels[k];
        assert(l@ == referral_labels()[k as int]);
        if chars_at(s, p, l) && p + l.len() < s.len() && s[p + l.len()] == ':' {
            return Some(p + l.len() + 1);
        }
        k = k + 1;
    }
    None
}

/// The host that `response` refers to, if any of its lines is a referral.
pub fn find_referral(response: &str) -> (r: Option<String>)
    ensures
        r is Some == referral_target(response@) is Some,
        r matches Some(h) ==> h@ == referral_target(response@)->0,
{
    let s = chars_of(response);
    let labels: Vec<Vec<char>> = vec![
        chars_of("ReferralServer"),
        chars_of("Registrar Whois"),
        chars_of("Whois Server"),
        chars_of("WHOIS Server"),
        chars_of("Registrar WHOIS Server"),
    ];
    assert(labels.len() == referral_labels().len());
    let mut p: usize = 0;
    let mut end: Option<usize> = None;
    while p < s.len()
        invariant_except_break
            end is None,
        invariant
            p <= s.len(),
            labels.len() == referral_labels().len(),
            forall|k: int| 0 <= k < labels.len() ==> #[trigger] labels@[k]@ == referral_labels()[k],
            header_end(s@, 0) == header_end(s@, p as int),
        ensures
            end is None ==> header_end(s@, 0) is None,
            end matches Some(e) ==> header_end(s@, 0) == Some(e as int) && e <= s.len(),
        decreases s.len() - p,
    {
        match label_end_at(&s, p, &labels) {
            Some(e) => {
                end = Some(e);
                break;
            },
            None => {
                p = p + 1;
            },
        }
    }
    match end {
        None => None,
        Some(e) => {
            let mut b: usize = e;
            while b < s.len() && line_space(s[b])
                invariant
                    e <= b <= s.len(),
                    skip_line_space(s@, e as int) == skip_line_space(s@, b as int),
                decreases s.len() - b,
            {
                b = b + 1;
            }
            let rwhois = chars_of("rwhois://");
            let whois = chars_of("whois://");
            if chars_at(&s, b, &rwhois) {
                b = b + rwhois.len();
            } else if chars_at(&s, b, &whois) {
                b = b + whois.len();
            }
            let start = b;
            let mut out: Vec<char> = Vec::new();
            while b < s.len() && s[b] != '\n'
                invariant
                    start <= b <= s.len(),
                    line_end(s@, start as int) == line_end(s@, b as int),
                    out@ == s@.subrange(start as int, b as int),
                decreases s.len() - b,
            {
                out.push(s[b]);
                b = b + 1;
                assert(out@ =~= s@.subrange(start as int, b as int));
            }
            if out.len() > 0 && out[out.len() - 1] == '\r' {
                out.pop();
                assert(out@ =~= s@.subrange(start as int, b - 1));
            }
            Some(string_from_chars(&out))
        },
    }
}

} // verus!
