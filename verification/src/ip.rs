//! Internet addresses in their text form.
//!
//! An IPv4 address is four numbers up to 255 without leading zeros, with dots between them. An
//! IPv6 address is eight groups of up to four hexadecimal digits with colons between them; one
//! run of zero groups may be left out, which leaves two colons in its place, and the last two
//! groups may be written as an IPv4 address.
use vstd::prelude::*;
use crate::text::chars_of;

verus! {

// ---------------------------------------------------------------- numbers

/// The value of a digit of a number system with up to 16 digits.
pub open spec fn digit_of(c: char, radix: int) -> Option<int> {
    let v = if '0' <= c && c <= '9' {
        c as int - 48
    } else if 'a' <= c && c <= 'f' {
        c as int - 87
    } else if 'A' <= c && c <= 'F' {
        c as int - 55
    } else {
        99
    };
    if v < radix {
        Some(v)
    } else {
        None
    }
}

/// Where the run of digits that begins at `i` ends.
pub open spec fn run_end(s: Seq<char>, i: int, radix: int) -> int
    decreases s.len() - i,
{
    if 0 <= i < s.len() && digit_of(s[i], radix) is Some {
        run_end(s, i + 1, radix)
    } else {
        i
    }
}

/// The number that the digits from `i` to `e` stand for.
pub open spec fn run_value(s: Seq<char>, i: int, e: int, radix: int) -> int
    decreases e - i,
{
    if e <= i {
        0
    } else {
        run_value(s, i, e - 1, radix) * radix + digit_of(s[e - 1], radix)->0
    }
}

/// The number at `i` and where it ends: a run of digits, not longer than `max_digits` where
/// that is given, of a value up to `bound`.
pub open spec fn number_at(
    s: Seq<char>,
    i: int,
    radix: int,
    max_digits: Option<int>,
    zero_prefix: bool,
    bound: int,
) -> Option<(int, int)> {
    let e = run_end(s, i, radix);
    if e == i || (max_digits matches Some(m) && e - i > m) || (!zero_prefix && s[i] == '0' && e - i
        > 1) || run_value(s, i, e, radix) > bound {
        None
    } else {
        Some((run_value(s, i, e, radix), e))
    }
}

fn digit(c: char, radix: u32) -> (r: Option<u64>)
    requires
        radix == 10 || radix == 16,
    ensures
        r is Some <==> digit_of(c, radix as int) is Some,
        r matches Some(d) ==> digit_of(c, radix as int) == Some(d as int) && d < radix,
{
    let v: u32 = if '0' <= c && c <= '9' {
        c as u32 - 48
    } else if 'a' <= c && c <= 'f' {
        c as u32 - 87
    } else if 'A' <= c && c <= 'F' {
        c as u32 - 55
    } else {
        99
    };
    if v < radix {
        Some(v as u64)
    } else {
        None
    }
}

proof fn lemma_run_end(s: Seq<char>, i: int, radix: int)
    requires
        0 <= i <= s.len(),
    ensures
        i <= run_end(s, i, radix) <= s.len(),
    decreases s.len() - i,
{
    if i < s.len() && digit_of(s[i], radix) is Some {
        lemma_run_end(s, i + 1, radix);
    }
}

fn read_number(
    v: &Vec<char>,
    i: usize,
    radix: u32,
    max_digits: Option<usize>,
    zero_prefix: bool,
    bound: u64,
) -> (r: Option<(u64, usize)>)
    requires
        i <= v@.len(),
        radix == 10 || radix == 16,
        bound <= 0xffff_ffff,
    ensures
        ({
            let m = match max_digits {
                Some(m) => Some(m as int),
                None => None,
            };
            let n = number_at(v@, i as int, radix as int, m, zero_prefix, bound as int);
            &&& r is Some <==> n is Some
            &&& r matches Some(p) ==> n == Some((p.0 as int, p.1 as int)) && p.1 <= v@.len()
                && p.0 <= bound
        }),
{
    let ghost rx = radix as int;
    let mut e: usize = i;
    let mut value: u64 = 0;
    let mut too_large: bool = false;
    proof {
        lemma_run_end(v@, i as int, rx);
    }
    while e < v.len() && digit(v[e], radix).is_some()
        invariant
            i <= e <= v@.len(),
            radix == 10 || radix == 16,
            rx == radix,
            bound <= 0xffff_ffff,
            run_end(v@, i as int, rx) == run_end(v@, e as int, rx),
            too_large ==> run_value(v@, i as int, e as int, rx) > bound,
            !too_large ==> value == run_value(v@, i as int, e as int, rx),
            value <= bound,
        decreases v@.len() - e,
    {
        let d: u64 = digit(v[e], radix).unwrap();
        let ghost before = run_value(v@, i as int, e as int, rx);
        assert(run_value(v@, i as int, e + 1, rx) == before * rx + d);
        if too_large {
            assert(before * rx >= before) by (nonlinear_arith)
                requires
                    before > 0,
                    rx >= 1,
            ;
        } else {
            assert(value * radix <= 0xffff_ffff * 16) by (nonlinear_arith)
                requires
                    value <= 0xffff_ffff,
                    radix <= 16,
            ;
            let next: u64 = value * radix as u64 + d;
            assert(next == before * rx + d);
            if next > bound {
                too_large = true;
            } else {
                value = next;
            }
        }
        e += 1;
    }
    if e == i {
        return None;
    }
    if let Some(m) = max_digits {
        if e - i > m {
            return None;
        }
    }
    if !zero_prefix && v[i] == '0' && e - i > 1 {
        return None;
    }
    if too_large {
        None
    } else {
        Some((value, e))
    }
}

// ---------------------------------------------------------------- addresses

/// An Internet address: four bytes, or eight groups of two bytes.
pub enum IpModel {
    V4(Seq<u8>),
    V6(Seq<u16>),
}

/// An Internet address.
#[derive(Debug)]
pub enum IpAddress {
    V4(Vec<u8>),
    V6(Vec<u16>),
}

impl View for IpAddress {
    type V = IpModel;

    open spec fn view(&self) -> IpModel {
        match self {
            IpAddress::V4(o) => IpModel::V4(o@),
            IpAddress::V6(g) => IpModel::V6(g@),
        }
    }
}

impl IpModel {
    /// Whether the address stands for a group of receivers: 224.0.0.0 to 239.255.255.255, or
    /// an IPv6 address that begins with the byte `ff`.
    pub open spec fn multicast(self) -> bool {
        match self {
            IpModel::V4(o) => o.len() == 4 && 224 <= o[0] <= 239,
            IpModel::V6(g) => g.len() == 8 && g[0] >= 0xff00,
        }
    }
}

/// The IPv4 address at `i` and where it ends: `got` holds the numbers in front of `i`.
pub open spec fn v4_from(s: Seq<char>, i: int, got: Seq<u8>) -> Option<(Seq<u8>, int)>
    decreases 4 - got.len(),
{
    if got.len() >= 4 {
        Some((got, i))
    } else if got.len() > 0 && !(i < s.len() && s[i] == '.') {
        None
    } else {
        let j = if got.len() > 0 {
            i + 1
        } else {
            i
        };
        match number_at(s, j, 10, Some(3), false, 255) {
            Some((n, e)) => v4_from(s, e, got.push(n as u8)),
            None => None,
        }
    }
}

pub open spec fn v4_at(s: Seq<char>, i: int) -> Option<(Seq<u8>, int)> {
    v4_from(s, i, Seq::empty())
}

/// Groups of an IPv6 address, up to `limit` of them, from `i` on: the groups, where they end,
/// and whether the last two came from an IPv4 address.
pub open spec fn groups_from(s: Seq<char>, i: int, got: Seq<u16>, limit: int) -> (
    Seq<u16>,
    int,
    bool,
)
    decreases limit - got.len(),
{
    if got.len() >= limit || (got.len() > 0 && !(i < s.len() && s[i] == ':')) {
        (got, i, false)
    } else {
        let j = if got.len() > 0 {
            i + 1
        } else {
            i
        };
        if got.len() < limit - 1 && v4_at(s, j) is Some {
            let (o, e) = v4_at(s, j)->0;
            (
                got.push((o[0] * 256 + o[1]) as u16).push((o[2] * 256 + o[3]) as u16),
                e,
                true,
            )
        } else {
            match number_at(s, j, 16, Some(4), true, 0xffff) {
                Some((n, e)) => groups_from(s, e, got.push(n as u16), limit),
                None => (got, i, false),
            }
        }
    }
}

pub open spec fn zero_groups(n: int) -> Seq<u16> {
    Seq::new(n as nat, |i: int| 0u16)
}

/// The IPv6 address at `i` and where it ends.
pub open spec fn v6_at(s: Seq<char>, i: int) -> Option<(Seq<u16>, int)> {
    let (head, e, with_v4) = groups_from(s, i, Seq::empty(), 8);
    if head.len() == 8 {
        Some((head, e))
    } else if with_v4 || !(e + 1 < s.len() && s[e] == ':' && s[e + 1] == ':') {
        None
    } else {
        let (tail, f, _) = groups_from(s, e + 2, Seq::empty(), 7 - head.len());
        Some((head + zero_groups(8 - head.len() - tail.len()) + tail, f))
    }
}

/// The IPv4 address that a text stands for.
pub open spec fn ipv4_of(s: Seq<char>) -> Option<Seq<u8>> {
    match v4_at(s, 0) {
        Some((o, e)) => if e == s.len() {
            Some(o)
        } else {
            None
        },
        None => None,
    }
}

/// The address that a text stands for.
pub open spec fn ip_of(s: Seq<char>) -> Option<IpModel> {
    match v4_at(s, 0) {
        Some((o, e)) => if e == s.len() {
            Some(IpModel::V4(o))
        } else {
            None
        },
        None => match v6_at(s, 0) {
            Some((g, e)) => if e == s.len() {
                Some(IpModel::V6(g))
            } else {
                None
            },
            None => None,
        },
    }
}

/// Whether a colon and a port number stand at `i` and nothing behind them.
pub open spec fn port_ends(s: Seq<char>, i: int) -> bool {
    i < s.len() && s[i] == ':' && (number_at(s, i + 1, 10, None, true, 65535) matches Some((_, e))
        && e == s.len())
}

/// Behind an IPv6 address, where its scope ends: a percent sign and a number, if they stand
/// there.
pub open spec fn scope_end(s: Seq<char>, i: int) -> int {
    if i < s.len() && s[i] == '%' {
        match number_at(s, i + 1, 10, None, true, 0xffff_ffff) {
            Some((_, e)) => e,
            None => i,
        }
    } else {
        i
    }
}

/// Whether a text is an address with a port; an IPv6 address stands in square brackets.
pub open spec fn is_socket_address(s: Seq<char>) -> bool {
    match v4_at(s, 0) {
        Some((_, e)) if port_ends(s, e) => true,
        _ => if s.len() > 0 && s[0] == '[' {
            match v6_at(s, 1) {
                Some((_, e)) => {
                    let f = scope_end(s, e);
                    f < s.len() && s[f] == ']' && port_ends(s, f + 1)
                },
                None => false,
            }
        } else {
            false
        },
    }
}

// ---------------------------------------------------------------- reading addresses

fn read_v4(v: &Vec<char>, i: usize) -> (r: Option<(Vec<u8>, usize)>)
    requires
        i <= v@.len(),
    ensures
        r is Some <==> v4_at(v@, i as int) is Some,
        r matches Some(p) ==> v4_at(v@, i as int) == Some((p.0@, p.1 as int)) && p.1 <= v@.len()
            && p.0@.len() == 4,
{
    let mut got: Vec<u8> = Vec::new();
    let mut pos: usize = i;
    assert(got@ =~= Seq::<u8>::empty());
    while got.len() < 4
        invariant
            got@.len() <= 4,
            pos <= v@.len(),
            v4_at(v@, i as int) == v4_from(v@, pos as int, got@),
        decreases 4 - got@.len(),
    {
        if got.len() > 0 {
            if pos >= v.len() || v[pos] != '.' {
                return None;
            }
        }
        let j: usize = if got.len() > 0 {
            pos + 1
        } else {
            pos
        };
        match read_number(v, j, 10, Some(3), false, 255) {
            Some((n, e)) => {
                got.push(n as u8);
                pos = e;
            },
            None => {
                return None;
            },
        }
    }
    Some((got, pos))
}

fn read_groups(v: &Vec<char>, i: usize, limit: usize) -> (r: (Vec<u16>, usize, bool))
    requires
        i <= v@.len(),
        limit <= 8,
    ensures
        groups_from(v@, i as int, Seq::empty(), limit as int) == (r.0@, r.1 as int, r.2),
        r.1 <= v@.len(),
        r.0@.len() <= limit,
{
    let mut got: Vec<u16> = Vec::new();
    let mut pos: usize = i;
    assert(got@ =~= Seq::<u16>::empty());
    while got.len() < limit
        invariant
            got@.len() <= limit,
            limit <= 8,
            pos <= v@.len(),
            groups_from(v@, i as int, Seq::empty(), limit as int) == groups_from(
                v@,
                pos as int,
                got@,
                limit as int,
            ),
        decreases limit - got@.len(),
    {
        if got.len() > 0 {
            if pos >= v.len() || v[pos] != ':' {
                return (got, pos, false);
            }
        }
        let j: usize = if got.len() > 0 {
            pos + 1
        } else {
            pos
        };
        if got.len() < limit - 1 {
            if let Some((o, e)) = read_v4(v, j) {
                got.push(o[0] as u16 * 256 + o[1] as u16);
                got.push(o[2] as u16 * 256 + o[3] as u16);
                return (got, e, true);
            }
        }
        match read_number(v, j, 16, Some(4), true, 0xffff) {
            Some((n, e)) => {
                got.push(n as u16);
                pos = e;
            },
            None => {
                return (got, pos, false);
            },
        }
    }
    (got, pos, false)
}

fn read_v6(v: &Vec<char>, i: usize) -> (r: Option<(Vec<u16>, usize)>)
    requires
        i <= v@.len(),
    ensures
        r is Some <==> v6_at(v@, i as int) is Some,
        r matches Some(p) ==> v6_at(v@, i as int) == Some((p.0@, p.1 as int)) && p.1 <= v@.len()
            && p.0@.len() == 8,
{
    let (head, e, with_v4) = read_groups(v, i, 8);
    if head.len() == 8 {
        return Some((head, e));
    }
    if with_v4 || v.len() - e < 2 || v[e] != ':' || v[e + 1] != ':' {
        return None;
    }
    let (tail, f, _) = read_groups(v, e + 2, 7 - head.len());
    let ghost h = head@;
    let ghost zeros = zero_groups(8 - h.len() - tail@.len());
    let mut all: Vec<u16> = head;
    while all.len() < 8 - tail.len()
        invariant
            h.len() <= all@.len() <= 8 - tail@.len(),
            tail@.len() <= 7 - h.len(),
            all@ == h + zero_groups(all@.len() - h.len()),
        decreases 8 - all@.len(),
    {
        all.push(0);
        assert(all@ =~= h + zero_groups(all@.len() - h.len()));
    }
    let mut k: usize = 0;
    while k < tail.len()
        invariant
            k <= tail@.len(),
            tail@.len() <= 7,
            all@ == h + zeros + tail@.take(k as int),
        decreases tail@.len() - k,
    {
        all.push(tail[k]);
        k += 1;
        assert(all@ =~= h + zeros + tail@.take(k as int));
    }
    assert(tail@.take(tail@.len() as int) =~= tail@);
    Some((all, f))
}

/// Read an Internet address.
pub fn parse_ip(text: &str) -> (r: Option<IpAddress>)
    ensures
        r is Some <==> ip_of(text@) is Some,
        r matches Some(a) ==> ip_of(text@) == Some(a@),
{
    let v = chars_of(text);
    match read_v4(&v, 0) {
        Some((o, e)) => if e == v.len() {
            Some(IpAddress::V4(o))
        } else {
            None
        },
        None => match read_v6(&v, 0) {
            Some((g, e)) => if e == v.len() {
                Some(IpAddress::V6(g))
            } else {
                None
            },
            None => None,
        },
    }
}

/// Whether a text is an IPv4 address.
pub fn is_ipv4(text: &str) -> (r: bool)
    ensures
        r == (ipv4_of(text@) is Some),
{
    let v = chars_of(text);
    match read_v4(&v, 0) {
        Some((_, e)) => e == v.len(),
        None => false,
    }
}

fn ends_with_port(v: &Vec<char>, i: usize) -> (r: bool)
    requires
        i <= v@.len(),
    ensures
        r == port_ends(v@, i as int),
{
    if i < v.len() && v[i] == ':' {
        match read_number(v, i + 1, 10, None, true, 65535) {
            Some((_, e)) => e == v.len(),
            None => false,
        }
    } else {
        false
    }
}

/// Whether a text is an address with a port.
pub fn parse_socket_address(text: &str) -> (r: bool)
    ensures
        r == is_socket_address(text@),
{
    let v = chars_of(text);
    if let Some((_, e)) = read_v4(&v, 0) {
        if ends_with_port(&v, e) {
            return true;
        }
    }
    if v.len() > 0 && v[0] == '[' {
        match read_v6(&v, 1) {
            Some((_, e)) => {
                let mut f: usize = e;
                if e < v.len() && v[e] == '%' {
                    if let Some((_, g)) = read_number(&v, e + 1, 10, None, true, 0xffff_ffff) {
                        f = g;
                    }
                }
                f < v.len() && v[f] == ']' && ends_with_port(&v, f + 1)
            },
            None => false,
        }
    } else {
        false
    }
}

impl IpAddress {
    /// Whether the address stands for a group of receivers.
    pub fn is_multicast(&self) -> (r: bool)
        ensures
            r == self@.multicast(),
    {
        match self {
            IpAddress::V4(o) => o.len() == 4 && o[0] >= 224 && o[0] <= 239,
            IpAddress::V6(g) => g.len() == 8 && g[0] >= 0xff00,
        }
    }

    /// Whether two addresses are the same.
    pub fn same(&self, other: &IpAddress) -> (r: bool)
        ensures
            r == (self@ == other@),
    {
        match (self, other) {
            (IpAddress::V4(a), IpAddress::V4(b)) => {
                if a.len() != b.len() {
                    return false;
                }
                let mut i: usize = 0;
                while i < a.len()
                    invariant
                        a@.len() == b@.len(),
                        i <= a@.len(),
                        self@ == IpModel::V4(a@),
                        other@ == IpModel::V4(b@),
                        forall|j: int| 0 <= j < i ==> a@[j] == b@[j],
                    decreases a@.len() - i,
                {
                    if a[i] != b[i] {
                        assert(a@[i as int] != b@[i as int]);
                        return false;
                    }
                    i += 1;
                }
                assert(a@ =~= b@);
                true
            },
            (IpAddress::V6(a), IpAddress::V6(b)) => {
                if a.len() != b.len() {
                    return false;
                }
                let mut i: usize = 0;
                while i < a.len()
                    invariant
                        a@.len() == b@.len(),
                        i <= a@.len(),
                        self@ == IpModel::V6(a@),
                        other@ == IpModel::V6(b@),
                        forall|j: int| 0 <= j < i ==> a@[j] == b@[j],
                    decreases a@.len() - i,
                {
                    if a[i] != b[i] {
                        assert(a@[i as int] != b@[i as int]);
                        return false;
                    }
                    i += 1;
                }
                assert(a@ =~= b@);
                true
            },
            _ => false,
        }
    }
}

/// Whether a text is the address of a group of receivers.
pub open spec fn is_multicast_text(s: Seq<char>) -> bool {
    ip_of(s) matches Some(a) && a.multicast()
}

/// Whether a text is the address of a group of receivers.
pub fn names_multicast(text: &str) -> (r: bool)
    ensures
        r == is_multicast_text(text@),
{
    match parse_ip(text) {
        Some(a) => a.is_multicast(),
        None => false,
    }
}

} // verus!
