use vstd::prelude::*;
use vstd::string::*;

verus! {

/// Name of the header that carries a session token.
pub const SECURITY_TOKEN_HEADER: &'static str = "x-amz-security-token";

/// `"{name}:{value}\n"`.
pub open spec fn header_line(name: Seq<char>, value: Seq<char>) -> Seq<char> {
    name + ":"@ + value + "\n"@
}

/// The optional signed headers, as (name, value if present).
pub open spec fn optional_view(list: Seq<(&str, Option<&str>)>) -> Seq<(Seq<char>, Option<Seq<char>>)> {
    list.map_values(
        |p: (&str, Option<&str>)|
            (
                p.0@,
                match p.1 {
                    Some(v) => Some(v@),
                    None => None,
                },
            ),
    )
}

/// A list of (name, value) pairs as sequences of characters.
pub open spec fn pairs_view(list: Seq<(String, String)>) -> Seq<(Seq<char>, Seq<char>)> {
    list.map_values(|p: (String, String)| (p.0@, p.1@))
}

/// The headers of the list that have a value, in the list's order.
pub open spec fn present_of(list: Seq<(Seq<char>, Option<Seq<char>>)>) -> Seq<(Seq<char>, Seq<char>)>
    decreases list.len(),
{
    if list.len() == 0 {
        Seq::empty()
    } else {
        present_of(list.drop_last()) + match list.last().1 {
            Some(v) => seq![(list.last().0, v)],
            None => Seq::empty(),
        }
    }
}

/// The canonical-header block: one line per present header, in the list's order.
pub open spec fn canonical_of(list: Seq<(Seq<char>, Option<Seq<char>>)>) -> Seq<char>
    decreases list.len(),
{
    if list.len() == 0 {
        Seq::empty()
    } else {
        canonical_of(list.drop_last()) + match list.last().1 {
            Some(v) => header_line(list.last().0, v),
            None => Seq::empty(),
        }
    }
}

/// The optional signed headers of a request, in their fixed (sorted) order.
pub open spec fn signed_headers_of(token: Option<Seq<char>>) -> Seq<(Seq<char>, Option<Seq<char>>)> {
    seq![("x-amz-security-token"@, token)]
}

/// Walks the ordered list of optional signed headers: each one with a value
/// becomes a request header and a canonical line.
pub fn canonical_headers(list: &Vec<(&str, Option<&str>)>) -> (r: (Vec<(String, String)>, String))
    ensures
        pairs_view(r.0@) == present_of(optional_view(list@)),
        r.1@ == canonical_of(optional_view(list@)),
{
    let ghost all = optional_view(list@);
    let mut headers: Vec<(String, String)> = Vec::new();
    let mut canonical = String::new();
    let mut i: usize = 0;
    while i < list.len()
        invariant
            i <= list@.len(),
            all == optional_view(list@),
            pairs_view(headers@) == present_of(all.subrange(0, i as int)),
            canonical@ == canonical_of(all.subrange(0, i as int)),
        decreases list@.len() - i,
    {
        let (name, value) = list[i];
        proof {
            assert(all.subrange(0, i + 1).drop_last() =~= all.subrange(0, i as int));
        }
        match value {
            Some(v) => {
                canonical.append(name);
                canonical.append(":");
                canonical.append(v);
                canonical.append("\n");
                let ghost before = headers@;
                headers.push((String::from_str(name), String::from_str(v)));
                assert(pairs_view(headers@) =~= pairs_view(before) + seq![(name@, v@)]);
            },
            None => {
                assert(pairs_view(headers@) =~= pairs_view(headers@) + Seq::empty());
            },
        }
        i = i + 1;
        assert(canonical@ =~= canonical_of(all.subrange(0, i as int)));
    }
    assert(all.subrange(0, i as int) =~= all);
    (headers, canonical)
}

/// The decimal digit `d` as text.
pub open spec fn digit_of(d: nat) -> Seq<char> {
    if d == 0 {
        "0"@
    } else if d == 1 {
        "1"@
    } else if d == 2 {
        "2"@
    } else if d == 3 {
        "3"@
    } else if d == 4 {
        "4"@
    } else if d == 5 {
        "5"@
    } else if d == 6 {
        "6"@
    } else if d == 7 {
        "7"@
    } else if d == 8 {
        "8"@
    } else {
        "9"@
    }
}

/// The decimal text of a number, without sign or leading zeros.
pub open spec fn decimal_of(n: nat) -> Seq<char>
    decreases n,
{
    if n < 10 {
        digit_of(n)
    } else {
        decimal_of(n / 10) + digit_of(n % 10)
    }
}

fn digit(d: usize) -> (r: &'static str)
    requires
        d < 10,
    ensures
        r@ == digit_of(d as nat),
{
    match d {
        0 => "0",
        1 => "1",
        2 => "2",
        3 => "3",
        4 => "4",
        5 => "5",
        6 => "6",
        7 => "7",
        8 => "8",
        _ => "9",
    }
}

/// Writes a number in decimal, as a `Content-Length` value.
pub fn decimal(n: usize) -> (r: String)
    ensures
        r@ == decimal_of(n as nat),
{
    let mut m: usize = n;
    let mut tail = String::new();
    while m >= 10
        invariant
            decimal_of(n as nat) == decimal_of(m as nat) + tail@,
        decreases m,
    {
        let d = digit(m % 10);
        let next = String::from_str(d).concat(tail.as_str());
        assert(decimal_of(m as nat) == decimal_of((m / 10) as nat) + digit_of((m % 10) as nat));
        assert(decimal_of(m as nat) + tail@ =~= decimal_of((m / 10) as nat) + next@);
        tail = next;
        m = m / 10;
    }
    String::from_str(digit(m)).concat(tail.as_str())
}

/// Characters `'0'` to `'9'` only.
pub open spec fn all_digits(s: Seq<char>) -> bool {
    forall|i: int| 0 <= i < s.len() ==> '0' <= #[trigger] s[i] && s[i] <= '9'
}

/// The value of a string of decimal digits.
pub open spec fn digits_value(s: Seq<char>) -> nat
    decreases s.len(),
{
    if s.len() == 0 {
        0
    } else {
        digits_value(s.drop_last()) * 10 + ((s.last() as u32 - '0' as u32) as nat)
    }
}

/// What `str::parse::<usize>` yields: an optional `+` then one or more digits
/// whose value fits in `usize`; nothing otherwise.
pub open spec fn usize_parse_of(s: Seq<char>) -> Option<usize> {
    let d = if s.len() > 0 && s[0] == '+' {
        s.drop_first()
    } else {
        s
    };
    if d.len() > 0 && all_digits(d) && digits_value(d) <= usize::MAX {
        Some(digits_value(d) as usize)
    } else {
        None
    }
}

/// Relies on `<usize as FromStr>::from_str`, documented as accepting an
/// optional `+` sign followed by decimal digits, and failing on an empty
/// string, any other character, or a value that overflows.
#[verifier::external_body]
fn parse_usize(s: &str) -> (r: Option<usize>)
    ensures
        r == usize_parse_of(s@),
{
    s.parse::<usize>().ok()
}

/// Reads a `Content-Length` header value: the announced length when the
/// value is a number that fits, nothing otherwise.
pub fn parse_content_length(value: &str) -> (r: Option<usize>)
    ensures
        r == usize_parse_of(value@),
{
    parse_usize(value)
}

} // verus!
