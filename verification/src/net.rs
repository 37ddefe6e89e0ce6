//! IP addresses of speakers, with their textual form.

use vstd::prelude::*;
use crate::text::{
    all_digits, chars_of, decimal_digits, digits_value, find_chars, find_spec, lemma_find_bounds,
    lemma_split_nonempty, parse_digits, slice_chars, split_chars, split_spec, string_of,
    u64_to_chars, views_of,
};

verus! {

/// An IPv4 or IPv6 address.
#[derive(Debug, Clone, Copy, PartialEq, Eq, Structural, Hash)]
pub enum IpAddr {
    /// An IPv4 address, octets most significant first.
    V4(u8, u8, u8, u8),
    /// An IPv6 address, eight 16-bit groups most significant first.
    V6(u16, u16, u16, u16, u16, u16, u16, u16),
}

/// One dotted-decimal component of an IPv4 address, as the standard library
/// accepts it: one to three digits, no leading zero unless it is "0", value at
/// most 255.
pub open spec fn octet_spec(part: Seq<char>) -> Option<nat> {
    if part.len() == 0 || part.len() > 3 || !all_digits(part) || (part.len() > 1 && part[0]
        == '0') || digits_value(part) > 255 {
        None
    } else {
        Some(digits_value(part))
    }
}

/// The IPv4 address that dotted-decimal text denotes, if any.
pub open spec fn parse_ipv4_spec(s: Seq<char>) -> Option<IpAddr> {
    let parts = split_spec(s, '.');
    if parts.len() != 4 {
        None
    } else {
        match (octet_spec(parts[0]), octet_spec(parts[1]), octet_spec(parts[2]), octet_spec(parts[3])) {
            (Some(a), Some(b), Some(c), Some(d)) => Some(IpAddr::V4(a as u8, b as u8, c as u8, d as u8)),
            _ => None,
        }
    }
}

/// Reads one IPv4 octet.
fn parse_octet(part: &[char]) -> (r: Option<u8>)
    ensures
        r matches Some(v) ==> octet_spec(part@) == Some(v as nat),
        r is None ==> octet_spec(part@) is None,
{
    if part.len() == 0 || part.len() > 3 || (part.len() > 1 && part[0] == '0') {
        return None;
    }
    match parse_digits(part, 255) {
        Some(v) => Some(v as u8),
        None => None,
    }
}

/// Parses dotted-decimal IPv4 text ("192.168.1.100").
pub fn parse_ipv4(s: &[char]) -> (r: Option<IpAddr>)
    ensures
        r == parse_ipv4_spec(s@),
{
    let parts = split_chars(s, '.');
    if parts.len() != 4 {
        return None;
    }
    proof {
        assert(views_of(parts@)[0] == parts@[0]@);
        assert(views_of(parts@)[1] == parts@[1]@);
        assert(views_of(parts@)[2] == parts@[2]@);
        assert(views_of(parts@)[3] == parts@[3]@);
    }
    let a = parse_octet(&parts[0]);
    let b = parse_octet(&parts[1]);
    let c = parse_octet(&parts[2]);
    let d = parse_octet(&parts[3]);
    match (a, b, c, d) {
        (Some(a), Some(b), Some(c), Some(d)) => Some(IpAddr::V4(a, b, c, d)),
        _ => None,
    }
}

// ---------------------------------------------------------------------------
// IPv6 text
// ---------------------------------------------------------------------------

/// Whether `c` is a hexadecimal digit, in either case.
pub open spec fn is_hex_digit(c: char) -> bool {
    ('0' <= c && c <= '9') || ('a' <= c && c <= 'f') || ('A' <= c && c <= 'F')
}

/// The value of a hexadecimal digit.
pub open spec fn hex_digit_value(c: char) -> nat {
    if '0' <= c && c <= '9' {
        ((c as u32) - 48) as nat
    } else if 'a' <= c && c <= 'f' {
        ((c as u32) - 87) as nat
    } else {
        ((c as u32) - 55) as nat
    }
}

/// The value of a string of hexadecimal digits.
pub open spec fn hex_value(s: Seq<char>) -> nat
    decreases s.len(),
{
    if s.len() == 0 {
        0
    } else {
        hex_value(s.drop_last()) * 16 + hex_digit_value(s.last())
    }
}

/// Whether every character of `s` is a hexadecimal digit.
pub open spec fn all_hex(s: Seq<char>) -> bool {
    forall|i: int| 0 <= i < s.len() ==> is_hex_digit(#[trigger] s[i])
}

/// One 16-bit group of IPv6 text: one to four hexadecimal digits.
pub open spec fn hex_group_spec(part: Seq<char>) -> Option<u16> {
    if 1 <= part.len() && part.len() <= 4 && all_hex(part) {
        Some(hex_value(part) as u16)
    } else {
        None
    }
}

/// Sixteen to the power `n`.
pub open spec fn pow16(n: nat) -> nat
    decreases n,
{
    if n == 0 {
        1
    } else {
        16 * pow16((n - 1) as nat)
    }
}

/// Whether every part is a 16-bit group.
pub open spec fn all_groups(parts: Seq<Seq<char>>) -> bool {
    forall|i: int| 0 <= i < parts.len() ==> (#[trigger] hex_group_spec(parts[i])) is Some
}

/// The values of parts that are all 16-bit groups.
pub open spec fn group_values(parts: Seq<Seq<char>>) -> Seq<u16> {
    parts.map_values(
        |p: Seq<char>|
            match hex_group_spec(p) {
                Some(g) => g,
                None => 0u16,
            },
    )
}

/// The two 16-bit groups an embedded IPv4 address stands for.
pub open spec fn v4_groups(a: u8, b: u8, c: u8, d: u8) -> Seq<u16> {
    seq![(a as nat * 256 + b as nat) as u16, (c as nat * 256 + d as nat) as u16]
}

/// The groups a ':'-separated run of IPv6 text denotes: each part a 16-bit
/// group, except that the last may be an embedded dotted-decimal IPv4
/// address (two groups) when `v4_last`. The empty run denotes no groups.
pub open spec fn text_groups(t: Seq<char>, v4_last: bool) -> Option<Seq<u16>> {
    if t.len() == 0 {
        Some(Seq::<u16>::empty())
    } else {
        let parts = split_spec(t, ':');
        let init = parts.drop_last();
        if !all_groups(init) {
            None
        } else {
            match (if v4_last {
                parse_ipv4_spec(parts.last())
            } else {
                None
            }) {
                Some(IpAddr::V4(a, b, c, d)) => Some(group_values(init) + v4_groups(a, b, c, d)),
                _ => match hex_group_spec(parts.last()) {
                    Some(g) => Some(group_values(init).push(g)),
                    None => None,
                },
            }
        }
    }
}

/// `n` zero groups.
pub open spec fn zero_groups(n: nat) -> Seq<u16> {
    Seq::new(n, |i: int| 0u16)
}

/// The IPv6 address of eight groups.
pub open spec fn v6_of(g: Seq<u16>) -> IpAddr {
    IpAddr::V6(g[0], g[1], g[2], g[3], g[4], g[5], g[6], g[7])
}

/// The IPv6 address a text denotes, if any (RFC 4291 text form): eight
/// ':'-separated groups, the last two of which may be written as an embedded
/// IPv4 address; or, around the first "::", groups before it (no embedded
/// IPv4) and groups after it (the last may be embedded IPv4), at most seven
/// in all, the "::" standing for the zero groups between.
pub open spec fn parse_ipv6_spec(s: Seq<char>) -> Option<IpAddr> {
    match find_spec(s, seq![':', ':']) {
        None => match text_groups(s, true) {
            Some(g) => if g.len() == 8 {
                Some(v6_of(g))
            } else {
                None
            },
            None => None,
        },
        Some(p) => match (text_groups(s.take(p), false), text_groups(s.skip(p + 2), true)) {
            (Some(h), Some(t)) => if h.len() + t.len() <= 7 {
                Some(v6_of(h + zero_groups((8 - h.len() - t.len()) as nat) + t))
            } else {
                None
            },
            _ => None,
        },
    }
}

/// Reads one 16-bit group of IPv6 text.
fn parse_hex_group(part: &[char]) -> (r: Option<u16>)
    ensures
        r == hex_group_spec(part@),
{
    if part.len() == 0 || part.len() > 4 {
        return None;
    }
    let mut v: u32 = 0;
    let mut i: usize = 0;
    assert(pow16(0) == 1);
    while i < part.len()
        invariant
            1 <= part.len() <= 4,
            i <= part.len(),
            all_hex(part@.take(i as int)),
            v == hex_value(part@.take(i as int)),
            v < pow16(i as nat),
        decreases part.len() - i,
    {
        assert(pow16(1) == 16 && pow16(2) == 256 && pow16(3) == 4096 && pow16(4) == 65536) by {
            reveal_with_fuel(pow16, 5);
        }
        let c = part[i];
        let d: u32 = if '0' <= c && c <= '9' {
            (c as u32) - 48
        } else if 'a' <= c && c <= 'f' {
            (c as u32) - 87
        } else if 'A' <= c && c <= 'F' {
            (c as u32) - 55
        } else {
            assert(!is_hex_digit(part@[i as int]));
            return None;
        };
        assert(is_hex_digit(c) && d == hex_digit_value(c));
        proof {
            assert(part@.take(i + 1).drop_last() =~= part@.take(i as int));
            assert(part@.take(i + 1).last() == c);
        }
        v = v * 16 + d;
        i = i + 1;
        assert forall|j: int| 0 <= j < i implies is_hex_digit(#[trigger] part@.take(i as int)[j]) by {
            if j < i - 1 {
                assert(part@.take(i as int)[j] == part@.take(i - 1)[j]);
            }
        }
    }
    assert(part@.take(part.len() as int) =~= part@);
    Some(v as u16)
}

/// Reads a ':'-separated run of IPv6 text (see [`text_groups`]).
fn parse_text_groups(t: &[char], v4_last: bool) -> (r: Option<Vec<u16>>)
    ensures
        match r {
            Some(v) => text_groups(t@, v4_last) == Some(v@),
            None => text_groups(t@, v4_last) is None,
        },
{
    if t.len() == 0 {
        let out: Vec<u16> = Vec::new();
        assert(out@ =~= Seq::<u16>::empty());
        return Some(out);
    }
    let parts = split_chars(t, ':');
    proof {
        lemma_split_nonempty(t@, ':');
    }
    let ghost ps = views_of(parts@);
    let n = parts.len();
    let mut out: Vec<u16> = Vec::new();
    let mut i: usize = 0;
    assert(ps.take(0) =~= Seq::<Seq<char>>::empty());
    assert(out@ =~= group_values(ps.take(0)));
    while i + 1 < n
        invariant
            n == parts.len(),
            n >= 1,
            i + 1 <= n,
            ps == views_of(parts@),
            ps == split_spec(t@, ':'),
            all_groups(ps.take(i as int)),
            out@ == group_values(ps.take(i as int)),
        decreases n - i,
    {
        assert(ps[i as int] == parts@[i as int]@);
        match parse_hex_group(&parts[i]) {
            Some(g) => {
                let ghost before = out@;
                out.push(g);
                proof {
                    assert(ps.take(i + 1) =~= ps.take(i as int).push(ps[i as int]));
                    assert forall|j: int| 0 <= j < i + 1 implies (#[trigger] hex_group_spec(
                        ps.take(i + 1)[j],
                    )) is Some by {
                        if j < i {
                            assert(ps.take(i + 1)[j] == ps.take(i as int)[j]);
                        }
                    }
                    assert(out@ =~= group_values(ps.take(i + 1)));
                }
            },
            None => {
                proof {
                    assert(ps.drop_last()[i as int] == ps[i as int]);
                    assert(!all_groups(ps.drop_last()));
                }
                return None;
            },
        }
        i = i + 1;
    }
    assert(ps.take(i as int) =~= ps.drop_last());
    assert(ps.last() == parts@[i as int]@);
    if v4_last {
        match parse_ipv4(&parts[i]) {
            Some(IpAddr::V4(a, b, c, d)) => {
                let ghost before = out@;
                out.push((a as u16) * 256 + (b as u16));
                out.push((c as u16) * 256 + (d as u16));
                assert(out@ =~= before + v4_groups(a, b, c, d));
                return Some(out);
            },
            _ => {},
        }
    }
    match parse_hex_group(&parts[i]) {
        Some(g) => {
            out.push(g);
            Some(out)
        },
        None => None,
    }
}

/// Parses IPv6 text (see [`parse_ipv6_spec`]).
pub fn parse_ipv6(s: &[char]) -> (r: Option<IpAddr>)
    ensures
        r == parse_ipv6_spec(s@),
{
    let sep: Vec<char> = vec![':', ':'];
    assert(sep@ =~= seq![':', ':']);
    proof {
        lemma_find_bounds(s@, sep@);
    }
    match find_chars(s, &sep) {
        None => match parse_text_groups(s, true) {
            Some(g) => if g.len() == 8 {
                Some(IpAddr::V6(g[0], g[1], g[2], g[3], g[4], g[5], g[6], g[7]))
            } else {
                None
            },
            None => None,
        },
        Some(p) => {
            assert(find_spec(s@, sep@) == Some(p as int));
            let n = s.len();
            assert(p + 2 <= n);
            let head = slice_chars(s, 0, p);
            let tail = slice_chars(s, p + 2, n);
            assert(head@ =~= s@.take(p as int));
            assert(tail@ =~= s@.skip(p + 2));
            match (parse_text_groups(&head, false), parse_text_groups(&tail, true)) {
                (Some(h), Some(t)) => {
                    if h.len() <= 7 && t.len() <= 7 - h.len() {
                        let mut g = h;
                        let fill = 8 - g.len() - t.len();
                        let ghost hv = g@;
                        let mut k: usize = 0;
                        while k < fill
                            invariant
                                k <= fill,
                                g@ == hv + zero_groups(k as nat),
                            decreases fill - k,
                        {
                            g.push(0);
                            k = k + 1;
                            assert(g@ =~= hv + zero_groups(k as nat));
                        }
                        let mut j: usize = 0;
                        let ghost mid = g@;
                        while j < t.len()
                            invariant
                                j <= t.len(),
                                g@ == mid + t@.take(j as int),
                            decreases t.len() - j,
                        {
                            g.push(t[j]);
                            j = j + 1;
                            assert(g@ =~= mid + t@.take(j as int));
                        }
                        assert(t@.take(t@.len() as int) =~= t@);
                        Some(IpAddr::V6(g[0], g[1], g[2], g[3], g[4], g[5], g[6], g[7]))
                    } else {
                        None
                    }
                },
                _ => None,
            }
        },
    }
}

/// Parses the text of an IPv4 or IPv6 address, as the standard library's
/// `IpAddr` parsing accepts it.
pub fn parse_ip_addr(s: &str) -> (r: Option<IpAddr>)
    ensures
        r == parse_ip_spec(s@),
{
    let v = chars_of(s);
    match parse_ipv4(&v) {
        Some(a) => Some(a),
        None => parse_ipv6(&v),
    }
}

/// The address a text denotes: dotted-decimal IPv4, else IPv6 text.
pub open spec fn parse_ip_spec(s: Seq<char>) -> Option<IpAddr> {
    match parse_ipv4_spec(s) {
        Some(a) => Some(a),
        None => parse_ipv6_spec(s),
    }
}

/// The dotted-decimal text of an IPv4 address.
pub open spec fn ipv4_text(a: u8, b: u8, c: u8, d: u8) -> Seq<char> {
    decimal_digits(a as nat) + seq!['.'] + decimal_digits(b as nat) + seq!['.'] + decimal_digits(
        c as nat,
    ) + seq!['.'] + decimal_digits(d as nat)
}

/// Appends all of `b` to `a`.
fn append_all(a: &mut Vec<char>, b: &Vec<char>)
    ensures
        final(a)@ == old(a)@ + b@,
{
    let mut i: usize = 0;
    while i < b.len()
        invariant
            i <= b.len(),
            a@ == old(a)@ + b@.take(i as int),
        decreases b.len() - i,
    {
        a.push(b[i]);
        i = i + 1;
        assert(a@ =~= old(a)@ + b@.take(i as int));
    }
    assert(b@.take(b@.len() as int) =~= b@);
}

impl View for IpAddr {
    type V = IpAddr;

    open spec fn view(&self) -> IpAddr {
        *self
    }
}

impl crate::viewed::ViewEq for IpAddr {
    fn view_eq(&self, other: &Self) -> (r: bool) {
        *self == *other
    }

    fn view_clone(&self) -> (r: Self) {
        *self
    }
}

impl IpAddr {
    /// The text of the address: dotted decimal for IPv4, the RFC 5952
    /// form (see [`ipv6_text`]) for IPv6.
    pub open spec fn text(self) -> Seq<char> {
        match self {
            IpAddr::V4(a, b, c, d) => ipv4_text(a, b, c, d),
            IpAddr::V6(a, b, c, d, e, f, g, h) => ipv6_text(seq![a, b, c, d, e, f, g, h]),
        }
    }

    /// The text of the address ("192.168.1.100", "fe80::1").
    pub fn to_text(&self) -> (r: String)
        ensures
            r@ == self.text(),
    {
        match self {
            IpAddr::V4(a, b, c, d) => string_of(&v4_chars(*a, *b, *c, *d)),
            IpAddr::V6(a, b, c, d, e, f, g, h) => {
                let segs: Vec<u16> = vec![*a, *b, *c, *d, *e, *f, *g, *h];
                assert(segs@ =~= seq![*a, *b, *c, *d, *e, *f, *g, *h]);
                string_of(&v6_chars(&segs))
            },
        }
    }
}

/// The dotted-decimal characters of an IPv4 address.
fn v4_chars(a: u8, b: u8, c: u8, d: u8) -> (r: Vec<char>)
    ensures
        r@ == ipv4_text(a, b, c, d),
{
    let mut out = u64_to_chars(a as u64);
    let mut dot: Vec<char> = Vec::new();
    dot.push('.');
    append_all(&mut out, &dot);
    append_all(&mut out, &u64_to_chars(b as u64));
    append_all(&mut out, &dot);
    append_all(&mut out, &u64_to_chars(c as u64));
    append_all(&mut out, &dot);
    append_all(&mut out, &u64_to_chars(d as u64));
    assert(dot@ =~= seq!['.']);
    out
}

/// A lower-case hexadecimal digit.
pub open spec fn hex_char(d: nat) -> char {
    if d < 10 {
        ((d + 48) as u32) as char
    } else {
        ((d + 87) as u32) as char
    }
}

/// The lower-case hexadecimal text of a number, without leading zeros.
pub open spec fn hex_text(n: nat) -> Seq<char>
    decreases n,
{
    if n < 16 {
        seq![hex_char(n)]
    } else {
        hex_text(n / 16).push(hex_char(n % 16))
    }
}

/// Groups written in hexadecimal, separated by ':'.
pub open spec fn groups_text(g: Seq<u16>) -> Seq<char>
    decreases g.len(),
{
    if g.len() == 0 {
        Seq::<char>::empty()
    } else if g.len() == 1 {
        hex_text(g[0] as nat)
    } else {
        groups_text(g.drop_last()) + seq![':'] + hex_text(g.last() as nat)
    }
}

/// Scanning the first `n` groups left to right: the start and length of
/// the first longest run of zero groups, and the length of the run of zero
/// groups that ends at `n`.
pub open spec fn zero_scan(g: Seq<u16>, n: nat) -> (nat, nat, nat)
    decreases n,
{
    if n == 0 || n > g.len() {
        (0, 0, 0)
    } else {
        let prev = zero_scan(g, (n - 1) as nat);
        if g[n - 1] == 0 {
            let c = prev.2 + 1;
            if c > prev.1 {
                ((n - c) as nat, c, c)
            } else {
                (prev.0, prev.1, c)
            }
        } else {
            (prev.0, prev.1, 0)
        }
    }
}

/// Whether eight groups are an IPv4-mapped address (`::ffff:a.b.c.d`).
pub open spec fn is_v4_mapped(g: Seq<u16>) -> bool {
    g.len() == 8 && g[0] == 0 && g[1] == 0 && g[2] == 0 && g[3] == 0 && g[4] == 0 && g[5] == 0xffff
}

/// The text of an IPv6 address as RFC 5952 writes it: an IPv4-mapped
/// address as `::ffff:` and dotted decimal; otherwise lower-case groups
/// without leading zeros, the first longest run of two or more zero groups
/// written as "::".
pub open spec fn ipv6_text(g: Seq<u16>) -> Seq<char> {
    if is_v4_mapped(g) {
        seq![':', ':', 'f', 'f', 'f', 'f', ':'] + ipv4_text(
            (g[6] / 256) as u8,
            (g[6] % 256) as u8,
            (g[7] / 256) as u8,
            (g[7] % 256) as u8,
        )
    } else {
        let z = zero_scan(g, 8);
        if z.1 > 1 {
            groups_text(g.take(z.0 as int)) + seq![':', ':'] + groups_text(g.skip((z.0 + z.1) as int))
        } else {
            groups_text(g)
        }
    }
}

/// The hexadecimal characters of a group.
fn hex_chars(n: u16) -> (r: Vec<char>)
    ensures
        r@ == hex_text(n as nat),
    decreases n,
{
    if n < 16 {
        let c = if n < 10 {
            ((n as u32) + 48) as u8 as char
        } else {
            ((n as u32) + 87) as u8 as char
        };
        let mut v: Vec<char> = Vec::new();
        v.push(c);
        assert(v@ =~= hex_text(n as nat));
        v
    } else {
        let mut v = hex_chars(n / 16);
        let d = n % 16;
        let c = if d < 10 {
            ((d as u32) + 48) as u8 as char
        } else {
            ((d as u32) + 87) as u8 as char
        };
        v.push(c);
        v
    }
}

/// The text of the groups `g[lo..hi]`.
fn groups_chars(g: &Vec<u16>, lo: usize, hi: usize) -> (r: Vec<char>)
    requires
        lo <= hi <= g.len(),
    ensures
        r@ == groups_text(g@.subrange(lo as int, hi as int)),
{
    let mut out: Vec<char> = Vec::new();
    let mut i: usize = lo;
    assert(g@.subrange(lo as int, lo as int) =~= Seq::<u16>::empty());
    while i < hi
        invariant
            lo <= i <= hi <= g.len(),
            out@ == groups_text(g@.subrange(lo as int, i as int)),
        decreases hi - i,
    {
        let ghost sub = g@.subrange(lo as int, i + 1);
        assert(sub.drop_last() =~= g@.subrange(lo as int, i as int));
        assert(sub.last() == g@[i as int]);
        if i > lo {
            out.push(':');
        } else {
            assert(sub.len() == 1 && sub[0] == g@[i as int]);
        }
        let h = hex_chars(g[i]);
        append_all(&mut out, &h);
        i = i + 1;
    }
    out
}

/// The characters of an IPv6 address's text (see [`ipv6_text`]).
fn v6_chars(g: &Vec<u16>) -> (r: Vec<char>)
    requires
        g.len() == 8,
    ensures
        r@ == ipv6_text(g@),
{
    if g[0] == 0 && g[1] == 0 && g[2] == 0 && g[3] == 0 && g[4] == 0 && g[5] == 0xffff {
        let mut out: Vec<char> = vec![':', ':', 'f', 'f', 'f', 'f', ':'];
        let v4 = v4_chars((g[6] / 256) as u8, (g[6] % 256) as u8, (g[7] / 256) as u8, (g[7] % 256) as u8);
        let ghost head = out@;
        append_all(&mut out, &v4);
        assert(head =~= seq![':', ':', 'f', 'f', 'f', 'f', ':']);
        return out;
    }
    let mut best_start: usize = 0;
    let mut best_len: usize = 0;
    let mut cur: usize = 0;
    let mut i: usize = 0;
    while i < 8
        invariant
            g.len() == 8,
            i <= 8,
            (best_start as nat, best_len as nat, cur as nat) == zero_scan(g@, i as nat),
            best_start + best_len <= i,
            best_len <= i,
            cur <= i,
        decreases 8 - i,
    {
        if g[i] == 0 {
            cur = cur + 1;
            if cur > best_len {
                best_start = i + 1 - cur;
                best_len = cur;
            }
        } else {
            cur = 0;
        }
        i = i + 1;
    }
    if best_len > 1 {
        let mut out = groups_chars(g, 0, best_start);
        out.push(':');
        out.push(':');
        let rest = groups_chars(g, best_start + best_len, 8);
        let ghost head = out@;
        append_all(&mut out, &rest);
        assert(g@.subrange(0, best_start as int) =~= g@.take(best_start as int));
        assert(g@.subrange((best_start + best_len) as int, 8) =~= g@.skip((best_start + best_len) as int));
        out
    } else {
        let out = groups_chars(g, 0, 8);
        assert(g@.subrange(0, 8) =~= g@);
        out
    }
}

} // verus!
