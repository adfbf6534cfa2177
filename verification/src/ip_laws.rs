//! Laws of the text form of Internet addresses.
use vstd::prelude::*;
use crate::ip::{
    digit_of, groups_from, ip_of, ipv4_of, is_multicast_text, is_socket_address, number_at,
    port_ends, run_end, run_value, v4_at, v4_from, zero_groups, IpModel,
};
use crate::text::{address_text, decimal, digit_char, is_digit};
use crate::text_laws::lemma_decimal;

verus! {

/// Four numbers with dots between them.
pub open spec fn ipv4_text(a: u8, b: u8, c: u8, d: u8) -> Seq<char> {
    decimal(a as nat) + seq!['.'] + decimal(b as nat) + seq!['.'] + decimal(c as nat) + seq!['.']
        + decimal(d as nat)
}

proof fn lemma_decimal_of_byte(n: int)
    requires
        0 <= n <= 255,
    ensures
        decimal(n as nat) =~= (if n < 10 {
            seq![digit_char(n)]
        } else if n < 100 {
            seq![digit_char(n / 10), digit_char(n % 10)]
        } else {
            seq![digit_char(n / 100), digit_char((n / 10) % 10), digit_char(n % 10)]
        }),
{
    reveal_with_fuel(decimal, 4);
}

proof fn lemma_run_end_at(s: Seq<char>, i: int, e: int, radix: int)
    requires
        0 <= i <= e <= s.len(),
        forall|j: int| i <= j < e ==> digit_of(#[trigger] s[j], radix) is Some,
        e == s.len() || digit_of(s[e], radix) is None,
    ensures
        run_end(s, i, radix) == e,
    decreases e - i,
{
    if i < e {
        assert(digit_of(s[i], radix) is Some);
        lemma_run_end_at(s, i + 1, e, radix);
    }
}

proof fn lemma_run_end_digits(s: Seq<char>, i: int)
    requires
        0 <= i <= s.len(),
    ensures
        i <= run_end(s, i, 10) <= s.len(),
        forall|j: int| i <= j < run_end(s, i, 10) ==> digit_of(#[trigger] s[j], 10) is Some,
    decreases s.len() - i,
{
    if i < s.len() && digit_of(s[i], 10) is Some {
        lemma_run_end_digits(s, i + 1);
    }
}

proof fn lemma_short_run_value(s: Seq<char>, i: int)
    ensures
        run_value(s, i, i + 1, 10) == digit_of(s[i], 10)->0,
        run_value(s, i, i + 2, 10) == digit_of(s[i], 10)->0 * 10 + digit_of(s[i + 1], 10)->0,
        run_value(s, i, i + 3, 10) == digit_of(s[i], 10)->0 * 100 + digit_of(s[i + 1], 10)->0 * 10
            + digit_of(s[i + 2], 10)->0,
{
    reveal_with_fuel(run_value, 4);
}

/// A byte is read from its decimal form, where no digit follows.
proof fn lemma_byte_is_read(s: Seq<char>, i: int, n: int)
    requires
        0 <= n <= 255,
        0 <= i,
        i + decimal(n as nat).len() <= s.len(),
        s.subrange(i, i + decimal(n as nat).len()) == decimal(n as nat),
        i + decimal(n as nat).len() == s.len() || digit_of(s[i + decimal(n as nat).len()], 10)
            is None,
    ensures
        number_at(s, i, 10, Some(3), false, 255) == Some((n, i + decimal(n as nat).len())),
{
    lemma_decimal_of_byte(n);
    let d = decimal(n as nat);
    let e = i + d.len();
    assert forall|j: int| i <= j < e implies digit_of(#[trigger] s[j], 10) is Some by {
        assert(s[j] == s.subrange(i, e)[j - i]);
    }
    lemma_run_end_at(s, i, e, 10);
    lemma_short_run_value(s, i);
    assert(s[i] == s.subrange(i, e)[0]);
    if n >= 10 {
        assert(s[i + 1] == s.subrange(i, e)[1]);
    }
    if n >= 100 {
        assert(s[i + 2] == s.subrange(i, e)[2]);
    }
}

/// What is read as a byte is its decimal form.
proof fn lemma_read_byte_is_decimal(s: Seq<char>, i: int)
    requires
        0 <= i <= s.len(),
    ensures
        number_at(s, i, 10, Some(3), false, 255) matches Some((n, e)) ==> 0 <= n <= 255 && i < e
            <= s.len() && s.subrange(i, e) == decimal(n as nat),
{
    lemma_run_end_digits(s, i);
    lemma_short_run_value(s, i);
    if let Some((n, e)) = number_at(s, i, 10, Some(3), false, 255) {
        assert(digit_of(s[i], 10) is Some);
        if e > i + 1 {
            assert(digit_of(s[i + 1], 10) is Some);
        }
        if e > i + 2 {
            assert(digit_of(s[i + 2], 10) is Some);
        }
        lemma_decimal_of_byte(n);
        assert(s.subrange(i, e) =~= decimal(n as nat));
    }
}

/// An IPv4 address is read in front of a text that does not begin with a digit.
#[verifier::spinoff_prover]
#[verifier::rlimit(40)]
proof fn lemma_ipv4_prefix(s: Seq<char>, a: u8, b: u8, c: u8, d: u8, rest: Seq<char>)
    requires
        s == ipv4_text(a, b, c, d) + rest,
        rest.len() > 0 ==> digit_of(rest[0], 10) is None,
    ensures
        v4_at(s, 0) == Some((seq![a, b, c, d], ipv4_text(a, b, c, d).len() as int)),
{
    let da = decimal(a as nat);
    let db = decimal(b as nat);
    let dc = decimal(c as nat);
    let dd = decimal(d as nat);
    let pb = (da.len() + 1) as int;
    let pc = pb + db.len() + 1;
    let pd = pc + dc.len() + 1;
    let end = pd + dd.len();
    assert(s.subrange(0, da.len() as int) =~= da);
    assert(s.subrange(pb, pb + db.len()) =~= db);
    assert(s.subrange(pc, pc + dc.len()) =~= dc);
    assert(s.subrange(pd, end) =~= dd);
    assert(s.len() == end + rest.len());
    assert(s[da.len() as int] == '.');
    assert(s[pb + db.len()] == '.');
    assert(s[pc + dc.len()] == '.');
    if rest.len() > 0 {
        assert(s[end] == rest[0]);
    }
    lemma_byte_is_read(s, 0, a as int);
    lemma_byte_is_read(s, pb, b as int);
    lemma_byte_is_read(s, pc, c as int);
    lemma_byte_is_read(s, pd, d as int);
    reveal_with_fuel(v4_from, 5);
    let e = Seq::<u8>::empty();
    assert(e.push(a).push(b).push(c).push(d) =~= seq![a, b, c, d]);
}

/// Four numbers with dots between them are read as the address with these bytes.
pub proof fn law_ipv4_text_is_read(a: u8, b: u8, c: u8, d: u8)
    ensures
        ip_of(ipv4_text(a, b, c, d)) == Some(IpModel::V4(seq![a, b, c, d])),
        ipv4_of(ipv4_text(a, b, c, d)) == Some(seq![a, b, c, d]),
{
    let s = ipv4_text(a, b, c, d);
    assert(s =~= s + Seq::<char>::empty());
    lemma_ipv4_prefix(s, a, b, c, d, Seq::empty());
}

proof fn lemma_run_value_of_decimal(s: Seq<char>, i: int, n: nat)
    requires
        0 <= i,
        i + decimal(n).len() <= s.len(),
        s.subrange(i, i + decimal(n).len()) == decimal(n),
    ensures
        run_value(s, i, i + decimal(n).len(), 10) == n,
    decreases n,
{
    let e = i + decimal(n).len();
    assert(s[e - 1] == s.subrange(i, e)[e - 1 - i]);
    if n < 10 {
        lemma_short_run_value(s, i);
    } else {
        assert(decimal(n).len() == decimal(n / 10).len() + 1);
        assert(s.subrange(i, e - 1) =~= decimal(n / 10));
        lemma_run_value_of_decimal(s, i, n / 10);
    }
}

/// Every IPv4 address with a port, as it is written, is an address with a port.
pub proof fn law_ipv4_with_port_is_socket_address(a: u8, b: u8, c: u8, d: u8, port: u16)
    ensures
        is_socket_address(address_text(ipv4_text(a, b, c, d), port)),
{
    let host = ipv4_text(a, b, c, d);
    let s = address_text(host, port);
    let p = decimal(port as nat);
    let rest = seq![':'] + p;
    assert(s =~= host + rest);
    lemma_ipv4_prefix(s, a, b, c, d, rest);
    let i = host.len() + 1;
    lemma_decimal(port as nat);
    assert(s.subrange(i as int, s.len() as int) =~= p);
    lemma_run_value_of_decimal(s, i as int, port as nat);
    assert forall|j: int| i <= j < s.len() implies digit_of(#[trigger] s[j], 10) is Some by {
        assert(s[j] == p[j - i]);
        assert(is_digit(p[j - i]));
    }
    lemma_run_end_at(s, i as int, s.len() as int, 10);
    assert(port_ends(s, host.len() as int));
}

/// A text that is read as an IPv4 address is the four bytes in decimal with dots between them:
/// there is no second way to write an IPv4 address.
pub proof fn law_ipv4_is_written_one_way(s: Seq<char>)
    ensures
        ipv4_of(s) matches Some(o) ==> o.len() == 4 && s == ipv4_text(o[0], o[1], o[2], o[3]),
{
    reveal_with_fuel(v4_from, 5);
    if let Some(o) = ipv4_of(s) {
        let e0 = Seq::<u8>::empty();
        lemma_read_byte_is_decimal(s, 0);
        let (a, p1) = number_at(s, 0, 10, Some(3), false, 255)->0;
        lemma_read_byte_is_decimal(s, p1 + 1);
        let (b, p2) = number_at(s, p1 + 1, 10, Some(3), false, 255)->0;
        lemma_read_byte_is_decimal(s, p2 + 1);
        let (c, p3) = number_at(s, p2 + 1, 10, Some(3), false, 255)->0;
        lemma_read_byte_is_decimal(s, p3 + 1);
        let (d, p4) = number_at(s, p3 + 1, 10, Some(3), false, 255)->0;
        assert(o == e0.push(a as u8).push(b as u8).push(c as u8).push(d as u8));
        assert(p4 == s.len());
        assert(s =~= s.subrange(0, p1) + seq!['.'] + s.subrange(p1 + 1, p2) + seq!['.']
            + s.subrange(p2 + 1, p3) + seq!['.'] + s.subrange(p3 + 1, p4));
    }
}

/// An IPv4 address stands for a group of receivers if and only if its first byte is 224 to 239.
pub proof fn law_ipv4_multicast_range(a: u8, b: u8, c: u8, d: u8)
    ensures
        is_multicast_text(ipv4_text(a, b, c, d)) == (224 <= a <= 239),
{
    law_ipv4_text_is_read(a, b, c, d);
}

/// Both wildcard texts are addresses, of zeros alone.
pub proof fn law_wildcards_are_addresses()
    ensures
        ip_of("0.0.0.0"@) == Some(IpModel::V4(seq![0u8, 0, 0, 0])),
        ip_of("::"@) == Some(IpModel::V6(zero_groups(8))),
{
    reveal_strlit("0.0.0.0");
    reveal_strlit("::");
    law_ipv4_text_is_read(0, 0, 0, 0);
    lemma_decimal_of_byte(0);
    assert(ipv4_text(0, 0, 0, 0) =~= "0.0.0.0"@);
    let s = "::"@;
    assert(number_at(s, 0, 10, Some(3), false, 255) is None);
    assert(v4_at(s, 0) is None);
    assert(number_at(s, 0, 16, Some(4), true, 0xffff) is None);
    assert(groups_from(s, 0, Seq::empty(), 8) == (Seq::<u16>::empty(), 0int, false));
    assert(number_at(s, 2, 10, Some(3), false, 255) is None);
    assert(v4_at(s, 2) is None);
    assert(number_at(s, 2, 16, Some(4), true, 0xffff) is None);
    assert(groups_from(s, 2, Seq::empty(), 7) == (Seq::<u16>::empty(), 2int, false));
    let e = Seq::<u16>::empty();
    assert(e + zero_groups(8) + e =~= zero_groups(8));
}

// ---------------------------------------------------------------- IPv6

/// The hexadecimal digit for a value below 16.
pub open spec fn hex_char(v: int) -> char {
    if v < 10 {
        (48 + v) as char
    } else {
        (87 + v) as char
    }
}

/// A group in four hexadecimal digits.
pub open spec fn group_text(g: u16) -> Seq<char> {
    seq![
        hex_char(g as int / 4096),
        hex_char(g as int / 256 % 16),
        hex_char(g as int / 16 % 16),
        hex_char(g as int % 16),
    ]
}

/// Groups with colons between them.
pub open spec fn groups_text(g: Seq<u16>) -> Seq<char>
    decreases g.len(),
{
    if g.len() == 0 {
        Seq::empty()
    } else if g.len() == 1 {
        group_text(g[0])
    } else {
        groups_text(g.drop_last()) + seq![':'] + group_text(g.last())
    }
}

/// How long groups are in text form.
pub open spec fn groups_len(n: int) -> int {
    if n == 0 {
        0
    } else {
        5 * n - 1
    }
}

spec fn colon_before(t: Seq<char>, i: int) -> bool {
    t[5 * i - 1] == ':'
}

proof fn lemma_groups_shape(g: Seq<u16>)
    ensures
        groups_text(g).len() == groups_len(g.len() as int),
        forall|i: int|
            0 <= i < g.len() ==> groups_text(g).subrange(5 * i, 5 * i + 4) == group_text(
                #[trigger] g[i],
            ),
        forall|i: int| 0 < i < g.len() ==> #[trigger] colon_before(groups_text(g), i),
    decreases g.len(),
{
    let t = groups_text(g);
    if g.len() == 1 {
        assert(t.subrange(0, 4) =~= group_text(g[0]));
    } else if g.len() > 1 {
        let rest = g.drop_last();
        let n = g.len() - 1;
        lemma_groups_shape(rest);
        let r = groups_text(rest);
        assert forall|i: int| 0 <= i < g.len() implies t.subrange(5 * i, 5 * i + 4) == group_text(
            #[trigger] g[i],
        ) by {
            if i < n {
                assert(rest[i] == g[i]);
                assert(t.subrange(5 * i, 5 * i + 4) =~= r.subrange(5 * i, 5 * i + 4));
            } else {
                assert(t.subrange(5 * n, 5 * n + 4) =~= group_text(g[n]));
            }
        }
        assert forall|i: int| 0 < i < g.len() implies #[trigger] colon_before(t, i) by {
            if i < n {
                assert(colon_before(r, i));
                assert(t[5 * i - 1] == r[5 * i - 1]);
            }
        }
    }
}

/// A group is read where no digit follows, and not as the first number of an IPv4 address.
proof fn lemma_group_is_read(s: Seq<char>, j: int, g: u16)
    requires
        0 <= j,
        j + 4 <= s.len(),
        s.subrange(j, j + 4) == group_text(g),
        j + 4 == s.len() || s[j + 4] == ':' || s[j + 4] == ']',
    ensures
        number_at(s, j, 16, Some(4), true, 0xffff) == Some((g as int, j + 4)),
        v4_at(s, j) is None,
{
    let t = s.subrange(j, j + 4);
    let v = g as int;
    assert(s[j] == t[0] && s[j + 1] == t[1] && s[j + 2] == t[2] && s[j + 3] == t[3]);
    assert(v / 4096 < 16);
    assert forall|k: int| j <= k < j + 4 implies digit_of(#[trigger] s[k], 16) is Some && s[k]
        != '.' by {
        assert(s[k] == t[k - j]);
    }
    lemma_run_end_at(s, j, j + 4, 16);
    reveal_with_fuel(run_value, 5);
    assert(digit_of(s[j], 16) == Some(v / 4096));
    assert(digit_of(s[j + 1], 16) == Some(v / 256 % 16));
    assert(digit_of(s[j + 2], 16) == Some(v / 16 % 16));
    assert(digit_of(s[j + 3], 16) == Some(v % 16));
    assert(run_value(s, j, j + 4, 16) == ((v / 4096 * 16 + v / 256 % 16) * 16 + v / 16 % 16) * 16
        + v % 16);
    lemma_run_end_digits(s, j);
    reveal_with_fuel(v4_from, 3);
    if let Some((n, e)) = number_at(s, j, 10, Some(3), false, 255) {
        assert(j < e <= j + 3);
        assert(s[e] != '.');
    }
}

proof fn lemma_no_number_at_colon(s: Seq<char>, j: int)
    requires
        0 <= j <= s.len(),
        j == s.len() || s[j] == ':' || s[j] == ']',
    ensures
        number_at(s, j, 16, Some(4), true, 0xffff) is None,
        v4_at(s, j) is None,
{
    assert(run_end(s, j, 16) == j);
    assert(run_end(s, j, 10) == j);
}

/// Groups are read one after the other, up to the end, a bracket or two colons.
proof fn lemma_groups_are_read(s: Seq<char>, at: int, g: Seq<u16>, n: int, limit: int)
    requires
        0 <= at,
        0 <= n <= g.len() <= limit <= 8,
        at + groups_len(g.len() as int) <= s.len(),
        s.subrange(at, at + groups_len(g.len() as int)) == groups_text(g),
        ({
            let e = at + groups_len(g.len() as int);
            e == s.len() || s[e] == ']' || e + 1 < s.len() && s[e] == ':' && s[e + 1] == ':'
        }),
    ensures
        groups_from(
            s,
            if n == 0 {
                at
            } else {
                at + 5 * n - 1
            },
            g.take(n),
            limit,
        ) == (g, at + groups_len(g.len() as int), false),
    decreases g.len() - n,
{
    lemma_groups_shape(g);
    let e = at + groups_len(g.len() as int);
    let t = s.subrange(at, e);
    if n == g.len() {
        assert(g.take(n) =~= g);
        if n == 0 {
            lemma_no_number_at_colon(s, e);
        } else if e < s.len() && s[e] == ':' {
            lemma_no_number_at_colon(s, e + 1);
        }
    } else {
        let j = at + 5 * n;
        assert(t.subrange(5 * n, 5 * n + 4) == group_text(g[n]));
        assert(s.subrange(j, j + 4) =~= t.subrange(5 * n, 5 * n + 4));
        if n > 0 {
            assert(colon_before(groups_text(g), n));
            assert(s[j - 1] == t[5 * n - 1]);
        }
        if n + 1 < g.len() {
            assert(colon_before(groups_text(g), n + 1));
            assert(s[j + 4] == t[5 * n + 4]);
        } else {
            assert(j + 4 == e);
        }
        lemma_group_is_read(s, j, g[n]);
        assert(g.take(n).push(g[n]) =~= g.take(n + 1));
        lemma_groups_are_read(s, at, g, n + 1, limit);
    }
}

/// Eight groups of hexadecimal digits with colons between them are read as the address with
/// these groups.
pub proof fn law_ipv6_text_is_read(g: Seq<u16>)
    requires
        g.len() == 8,
    ensures
        ip_of(groups_text(g)) == Some(IpModel::V6(g)),
        ipv4_of(groups_text(g)) is None,
        is_multicast_text(groups_text(g)) == (g[0] >= 0xff00),
{
    let s = groups_text(g);
    lemma_groups_shape(g);
    assert(s.subrange(0, s.len() as int) =~= s);
    assert(g.take(0) =~= Seq::<u16>::empty());
    lemma_groups_are_read(s, 0, g, 0, 8);
    assert(s.subrange(0, 4) == group_text(g[0]));
    assert(colon_before(s, 1));
    lemma_group_is_read(s, 0, g[0]);
}

/// Two colons stand for as many groups of zeros as are missing.
pub proof fn law_ipv6_zeros_may_be_left_out(head: Seq<u16>, tail: Seq<u16>)
    requires
        head.len() + tail.len() <= 7,
    ensures
        ip_of(groups_text(head) + seq![':', ':'] + groups_text(tail)) == Some(
            IpModel::V6(head + zero_groups(8 - head.len() - tail.len()) + tail),
        ),
{
    let h = groups_text(head);
    let t = groups_text(tail);
    let s = h + seq![':', ':'] + t;
    lemma_groups_shape(head);
    lemma_groups_shape(tail);
    let e = groups_len(head.len() as int);
    assert(s.subrange(0, e) =~= h);
    assert(s.subrange(e + 2, e + 2 + t.len()) =~= t);
    assert(head.take(0) =~= Seq::<u16>::empty());
    assert(tail.take(0) =~= Seq::<u16>::empty());
    lemma_groups_are_read(s, 0, head, 0, 8);
    lemma_groups_are_read(s, e + 2, tail, 0, 7 - head.len());
    if head.len() == 0 {
        lemma_no_number_at_colon(s, 0);
    } else {
        assert(h.subrange(0, 4) == group_text(head[0]));
        assert(s.subrange(0, 4) =~= h.subrange(0, 4));
        if head.len() > 1 {
            assert(colon_before(h, 1));
        }
        lemma_group_is_read(s, 0, head[0]);
    }
}

/// Every IPv6 address in brackets with a port is an address with a port.
pub proof fn law_ipv6_with_port_is_socket_address(g: Seq<u16>, port: u16)
    requires
        g.len() == 8,
    ensures
        is_socket_address(seq!['['] + groups_text(g) + seq![']', ':'] + decimal(port as nat)),
{
    let t = groups_text(g);
    let p = decimal(port as nat);
    let s = seq!['['] + t + seq![']', ':'] + p;
    lemma_groups_shape(g);
    lemma_decimal(port as nat);
    let e = (1 + t.len()) as int;
    assert(s.subrange(1, e) =~= t);
    assert(g.take(0) =~= Seq::<u16>::empty());
    assert(s[e] == ']');
    lemma_groups_are_read(s, 1, g, 0, 8);
    assert(s[0] == '[');
    assert(run_end(s, 0, 10) == 0);
    assert(v4_at(s, 0) is None);
    let i = e + 2;
    assert(s.subrange(i, s.len() as int) =~= p);
    lemma_run_value_of_decimal(s, i, port as nat);
    assert forall|j: int| i <= j < s.len() implies digit_of(#[trigger] s[j], 10) is Some by {
        assert(s[j] == p[j - i]);
        assert(is_digit(p[j - i]));
    }
    lemma_run_end_at(s, i, s.len() as int, 10);
    assert(port_ends(s, e + 1));
}

} // verus!
