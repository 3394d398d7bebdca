//! IP addresses and their text forms.

use vstd::prelude::*;
use crate::text::{decimal, hexadecimal, push_decimal, push_hexadecimal};

verus! {

/// An IPv4 address, by its four octets.
#[derive(Clone, Copy, PartialEq, Eq, Debug)]
pub struct Ipv4Addr {
    pub octets: [u8; 4],
}

/// An IPv6 address, by its eight 16-bit segments.
#[derive(Clone, Copy, PartialEq, Eq, Debug)]
pub struct Ipv6Addr {
    pub segments: [u16; 8],
}

/// An IPv4 or IPv6 address.
#[derive(Clone, Copy, PartialEq, Eq, Debug)]
pub enum IpAddr {
    V4(Ipv4Addr),
    V6(Ipv6Addr),
}

/// Dotted-decimal text of four octets: `a.b.c.d`.
pub open spec fn ipv4_text(o: Seq<u8>) -> Seq<char> {
    decimal(o[0] as nat) + seq!['.'] + decimal(o[1] as nat) + seq!['.'] + decimal(o[2] as nat)
        + seq!['.'] + decimal(o[3] as nat)
}

/// Segments joined by `:`, each in lower-case hexadecimal without leading zeros.
pub open spec fn hex_groups(s: Seq<u16>) -> Seq<char>
    decreases s.len(),
{
    if s.len() == 0 {
        seq![]
    } else if s.len() == 1 {
        hexadecimal(s[0] as nat)
    } else {
        hex_groups(s.drop_last()) + seq![':'] + hexadecimal(s.last() as nat)
    }
}

/// Whether the address is IPv4-mapped (`::ffff:a.b.c.d`).
pub open spec fn is_ipv4_mapped(s: Seq<u16>) -> bool {
    &&& s[0] == 0
    &&& s[1] == 0
    &&& s[2] == 0
    &&& s[3] == 0
    &&& s[4] == 0
    &&& s[5] == 0xffff
}

/// The length of the run of zero segments that ends just before index `i`.
pub open spec fn zero_run_ending(s: Seq<u16>, i: int) -> nat
    decreases i,
{
    if i <= 0 {
        0
    } else if s[i - 1] == 0 {
        zero_run_ending(s, i - 1) + 1
    } else {
        0
    }
}

/// The first longest run of zero segments among the first `i` segments, as `(start, len)`.
pub open spec fn longest_zero_run(s: Seq<u16>, i: int) -> (int, nat)
    decreases i,
{
    if i <= 0 {
        (0, 0)
    } else {
        let prev = longest_zero_run(s, i - 1);
        let cur = zero_run_ending(s, i);
        if cur > prev.1 {
            (i - cur, cur)
        } else {
            prev
        }
    }
}

/// The text of an IPv6 address in the canonical form of RFC 5952: lower-case hexadecimal groups,
/// the first longest run of two or more zero groups written as `::`, and IPv4-mapped addresses
/// written as `::ffff:` followed by the dotted IPv4 address.
pub open spec fn ipv6_text(s: Seq<u16>) -> Seq<char> {
    if is_ipv4_mapped(s) {
        seq![':', ':', 'f', 'f', 'f', 'f', ':'] + ipv4_text(
            seq![(s[6] / 256) as u8, (s[6] % 256) as u8, (s[7] / 256) as u8, (s[7] % 256) as u8],
        )
    } else {
        let run = longest_zero_run(s, 8);
        if run.1 > 1 {
            hex_groups(s.subrange(0, run.0)) + seq![':', ':'] + hex_groups(
                s.subrange(run.0 + run.1, 8),
            )
        } else {
            hex_groups(s)
        }
    }
}

/// The text of an IP address.
pub open spec fn ip_text(ip: IpAddr) -> Seq<char> {
    match ip {
        IpAddr::V4(a) => ipv4_text(a.octets@),
        IpAddr::V6(a) => ipv6_text(a.segments@),
    }
}

fn push_dot(s: &mut String)
    ensures
        final(s)@ == old(s)@ + seq!['.'],
{
    proof { reveal_strlit("."); }
    s.append(".");
}

fn push_colon(s: &mut String)
    ensures
        final(s)@ == old(s)@ + seq![':'],
{
    proof { reveal_strlit(":"); }
    s.append(":");
}

/// Append the dotted-decimal text of four octets to `s`.
fn push_ipv4(s: &mut String, a: u8, b: u8, c: u8, d: u8)
    ensures
        final(s)@ == old(s)@ + ipv4_text(seq![a, b, c, d]),
{
    let ghost s0 = s@;
    push_decimal(s, a as u32);
    push_dot(s);
    push_decimal(s, b as u32);
    push_dot(s);
    push_decimal(s, c as u32);
    push_dot(s);
    push_decimal(s, d as u32);
    let ghost o = seq![a, b, c, d];
    assert(o[0] == a && o[1] == b && o[2] == c && o[3] == d);
    assert(s@ =~= s0 + ipv4_text(o));
}

impl Ipv4Addr {
    /// The dotted-decimal text of the address, as its `Display` writes it.
    pub fn to_text(&self) -> (r: String)
        ensures
            r@ == ipv4_text(self.octets@),
    {
        let mut s = String::new();
        push_ipv4(&mut s, self.octets[0], self.octets[1], self.octets[2], self.octets[3]);
        assert(self.octets@ =~= seq![self.octets[0], self.octets[1], self.octets[2], self.octets[3]]);
        s
    }
}

/// Append the hexadecimal groups of `seg[from..to]`, joined by `:`, to `s`.
fn push_hex_groups(s: &mut String, seg: &[u16; 8], from: usize, to: usize)
    requires
        from <= to <= 8,
    ensures
        final(s)@ == old(s)@ + hex_groups(seg@.subrange(from as int, to as int)),
{
    let ghost s0 = s@;
    let mut i = from;
    while i < to
        invariant
            from <= i <= to <= 8,
            s@ == s0 + hex_groups(seg@.subrange(from as int, i as int)),
        decreases to - i,
    {
        let ghost before = s@;
        if i > from {
            push_colon(s);
        }
        push_hexadecimal(s, seg[i] as u32);
        proof {
            let next = seg@.subrange(from as int, i + 1);
            assert(next.drop_last() =~= seg@.subrange(from as int, i as int));
            assert(next.last() == seg@[i as int]);
            if i == from {
                assert(next.len() == 1);
            }
        }
        i = i + 1;
    }
}

/// Index of the first longest zero run, computed as `longest_zero_run` describes.
fn find_zero_run(seg: &[u16; 8]) -> (r: (usize, usize))
    ensures
        r.0 as int == longest_zero_run(seg@, 8).0,
        r.1 as nat == longest_zero_run(seg@, 8).1,
{
    let mut best_start: usize = 0;
    let mut best_len: usize = 0;
    let mut cur: usize = 0;
    let mut i: usize = 0;
    while i < 8
        invariant
            i <= 8,
            cur as nat == zero_run_ending(seg@, i as int),
            best_start as int == longest_zero_run(seg@, i as int).0,
            best_len as nat == longest_zero_run(seg@, i as int).1,
            cur <= i,
            best_len <= i,
        decreases 8 - i,
    {
        if seg[i] == 0 {
            cur = cur + 1;
        } else {
            cur = 0;
        }
        if cur > best_len {
            best_len = cur;
            best_start = i + 1 - cur;
        }
        i = i + 1;
    }
    (best_start, best_len)
}

proof fn lemma_run_bounds(s: Seq<u16>, i: int)
    requires
        0 <= i,
    ensures
        zero_run_ending(s, i) <= i,
        0 <= longest_zero_run(s, i).0,
        longest_zero_run(s, i).0 + longest_zero_run(s, i).1 <= i,
    decreases i,
{
    if i > 0 {
        lemma_run_bounds(s, i - 1);
    }
}

impl Ipv6Addr {
    /// The RFC 5952 text of the address, as its `Display` writes it.
    pub fn to_text(&self) -> (r: String)
        ensures
            r@ == ipv6_text(self.segments@),
    {
        let seg = &self.segments;
        let mut s = String::new();
        if seg[0] == 0 && seg[1] == 0 && seg[2] == 0 && seg[3] == 0 && seg[4] == 0 && seg[5]
            == 0xffff {
            proof { reveal_strlit("::ffff:"); }
            s.append("::ffff:");
            let a = (seg[6] / 256) as u8;
            let b = (seg[6] % 256) as u8;
            let c = (seg[7] / 256) as u8;
            let d = (seg[7] % 256) as u8;
            push_ipv4(&mut s, a, b, c, d);
            assert(s@ =~= ipv6_text(self.segments@));
            s
        } else {
            let (start, len) = find_zero_run(seg);
            proof { lemma_run_bounds(seg@, 8); }
            if len > 1 {
                push_hex_groups(&mut s, seg, 0, start);
                proof { reveal_strlit("::"); }
                s.append("::");
                push_hex_groups(&mut s, seg, start + len, 8);
            } else {
                push_hex_groups(&mut s, seg, 0, 8);
                assert(seg@.subrange(0, 8) =~= seg@);
            }
            assert(s@ =~= ipv6_text(self.segments@));
            s
        }
    }
}

impl IpAddr {
    /// The text of the address, as its `Display` writes it.
    pub fn to_text(&self) -> (r: String)
        ensures
            r@ == ip_text(*self),
    {
        match self {
            IpAddr::V4(a) => a.to_text(),
            IpAddr::V6(a) => a.to_text(),
        }
    }
}

} // verus!
