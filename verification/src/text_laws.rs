//! Laws of numbers and addresses in text form.
use vstd::prelude::*;
use crate::port_rules::auto_address;
use crate::text::{
    address_text, all_digits, decimal, digits_value, host_part, is_digit, next_colon, parsed_port,
    port_of_address, port_part,
};

verus! {

/// The decimal form of a number is made of digits that stand for it.
pub proof fn lemma_decimal(n: nat)
    ensures
        decimal(n).len() > 0,
        all_digits(decimal(n)),
        digits_value(decimal(n)) == n,
    decreases n,
{
    if n < 10 {
        assert(decimal(n).drop_last() =~= Seq::<char>::empty());
        reveal_with_fuel(digits_value, 2);
    } else {
        lemma_decimal(n / 10);
        assert(decimal(n).drop_last() =~= decimal(n / 10));
        assert forall|i: int| 0 <= i < decimal(n).len() implies is_digit(
            #[trigger] decimal(n)[i],
        ) by {
            if i < decimal(n / 10).len() {
                assert(decimal(n)[i] == decimal(n / 10)[i]);
            }
        }
    }
}

/// Reading the decimal form of a port gives the port back.
pub proof fn law_port_text_round_trip(p: u16)
    ensures
        parsed_port(decimal(p as nat)) == Some(p),
{
    lemma_decimal(p as nat);
    assert(is_digit(decimal(p as nat)[0]));
}

/// Different numbers have different decimal forms.
pub proof fn law_decimal_is_injective(m: nat, n: nat)
    requires
        decimal(m) == decimal(n),
    ensures
        m == n,
{
    lemma_decimal(m);
    lemma_decimal(n);
}

proof fn lemma_next_colon(s: Seq<char>, i: int, c: int)
    requires
        0 <= i <= c <= s.len(),
        forall|j: int| i <= j < c ==> #[trigger] s[j] != ':',
        c == s.len() || s[c] == ':',
    ensures
        next_colon(s, i) == c,
    decreases c - i,
{
    if i < c {
        lemma_next_colon(s, i + 1, c);
    }
}

/// A host without a colon and a port are both read back from `host:port`.
pub proof fn law_address_round_trip(host: Seq<char>, port: u16)
    requires
        forall|i: int| 0 <= i < host.len() ==> #[trigger] host[i] != ':',
    ensures
        host_part(address_text(host, port)) == host,
        port_of_address(address_text(host, port)) == Some(port),
{
    let s = address_text(host, port);
    let d = decimal(port as nat);
    lemma_decimal(port as nat);
    let c = host.len() as int;
    assert(s[c] == ':');
    assert forall|j: int| 0 <= j < c implies #[trigger] s[j] != ':' by {
        assert(s[j] == host[j]);
    }
    lemma_next_colon(s, 0, c);
    assert forall|j: int| c + 1 <= j < s.len() implies #[trigger] s[j] != ':' by {
        assert(s[j] == d[j - c - 1]);
        assert(is_digit(d[j - c - 1]));
    }
    lemma_next_colon(s, c + 1, s.len() as int);
    assert(s.take(c) =~= host);
    assert(s.subrange(c + 1, s.len() as int) =~= d);
    assert(port_part(s) == Some(d));
    law_port_text_round_trip(port);
}

/// An address with a port other than zero does not leave its port open.
pub proof fn law_address_names_its_port(host: Seq<char>, port: u16)
    requires
        port != 0,
    ensures
        !auto_address(address_text(host, port)),
{
    let s = address_text(host, port);
    let d = decimal(port as nat);
    lemma_decimal(port as nat);
    assert(s.last() == d.last());
    assert(s[host.len() as int] == ':');
    reveal_strlit("auto");
    assert("auto"@ =~= seq!['a', 'u', 't', 'o']);
    if d.len() == 1 {
        reveal_with_fuel(digits_value, 2);
        assert(d.drop_last() =~= Seq::<char>::empty());
        assert(d.last() != '0');
    } else {
        assert(s[s.len() - 2] == d[d.len() - 2]);
        assert(is_digit(d[d.len() - 2]));
    }
}

} // verus!
