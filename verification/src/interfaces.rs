//! Network interfaces of the machine and the addresses that streams can bind to.
use vstd::prelude::*;
use crate::ip::{ip_of, ipv4_of, is_ipv4, parse_ip, IpModel};
use crate::machine::is_answer;
use crate::text::{join2, text_before, text_eq, text_lt};

verus! {

/// A network interface and one address of it.
#[derive(Debug)]
pub struct InterfaceInfo {
    pub name: String,
    pub ip: String,
    pub is_loopback: bool,
    pub is_up: bool,
    pub interface_type: String,
}

#[derive(Debug)]
pub struct InterfacesResponse {
    pub interfaces: Vec<InterfaceInfo>,
}

/// Which interfaces a client wants listed.
#[derive(Debug, Clone, Copy)]
pub struct InterfaceQueryParams {
    pub only_up: Option<bool>,
    pub exclude_loopback: Option<bool>,
    pub ipv4_only: Option<bool>,
}

/// An address that the machine lists.
#[derive(Debug)]
pub struct ListedAddress {
    pub name: String,
    pub ip: String,
    pub is_loopback: bool,
}

/// What the machine answers when asked for its addresses.
pub type Listing = Result<Vec<ListedAddress>, String>;

/// Whether every text that an answer lists is an address.
pub open spec fn lists_addresses(listing: Listing) -> bool {
    listing matches Ok(list) ==> forall|i: int|
        0 <= i < list@.len() ==> ip_of((#[trigger] list@[i]).ip@) is Some
}

/// `if_addrs::get_if_addrs` lists the addresses of the machine's interfaces, each with the
/// name of its interface and whether it is a loopback address, or fails with a message. Each
/// address is an `IpAddr`, and its text, which std writes, is one that reads as an address.
/// Which addresses there are is not said: that depends on the machine.
#[verifier::external_body]
fn list_addresses() -> (r: Listing)
    ensures
        lists_addresses(r),
        is_answer(r),
{
    match if_addrs::get_if_addrs() {
        Ok(list) => Ok(
            list.into_iter().map(
                |i|
                    ListedAddress {
                        is_loopback: i.is_loopback(),
                        ip: i.ip().to_string(),
                        name: i.name,
                    },
            ).collect(),
        ),
        Err(e) => Err(e.to_string()),
    }
}

/// What is told of a listed address. Listed interfaces count as up.
pub open spec fn describes(i: InterfaceInfo, l: ListedAddress) -> bool {
    &&& i.name == l.name
    &&& i.ip == l.ip
    &&& i.is_loopback == l.is_loopback
    &&& i.is_up
    &&& i.interface_type@ == (if l.is_loopback {
        "loopback"@
    } else {
        "ethernet"@
    })
}

/// The interfaces for an answer of the machine.
pub open spec fn describes_listing(
    r: Result<Vec<InterfaceInfo>, String>,
    listing: Listing,
) -> bool {
    match listing {
        Ok(list) => r matches Ok(infos) && infos@.len() == list@.len() && forall|i: int|
            0 <= i < infos@.len() ==> describes(#[trigger] infos@[i], list@[i]),
        Err(e) => r matches Err(m) && m@ == "Failed to enumerate network interfaces: "@ + e@,
    }
}

/// The interfaces for an answer of the machine.
pub fn interfaces_of_listing(listing: Listing) -> (r: Result<Vec<InterfaceInfo>, String>)
    ensures
        describes_listing(r, listing),
{
    match listing {
        Ok(list) => {
            let ghost all = list@;
            let mut rest: Vec<ListedAddress> = list;
            let mut infos: Vec<InterfaceInfo> = Vec::new();
            while rest.len() > 0
                invariant
                    rest@.len() + infos@.len() == all.len(),
                    rest@ == all.skip(infos@.len() as int),
                    forall|i: int|
                        0 <= i < infos@.len() ==> describes(#[trigger] infos@[i], all[i]),
                decreases rest@.len(),
            {
                let l = rest.remove(0);
                let interface_type = if l.is_loopback {
                    "loopback".to_owned()
                } else {
                    "ethernet".to_owned()
                };
                infos.push(
                    InterfaceInfo {
                        name: l.name,
                        ip: l.ip,
                        is_loopback: l.is_loopback,
                        is_up: true,
                        interface_type,
                    },
                );
                assert(rest@ =~= all.skip(infos@.len() as int));
            }
            Ok(infos)
        },
        Err(e) => Err(join2("Failed to enumerate network interfaces: ", e.as_str())),
    }
}

/// All network interfaces of the machine.
pub fn get_system_interfaces() -> (r: Result<Vec<InterfaceInfo>, String>)
    ensures
        exists|listing: Listing|
            is_answer(listing) && lists_addresses(listing) && #[trigger] describes_listing(
                r,
                listing,
            ),
{
    let listing = list_addresses();
    let ghost given = listing;
    let r = interfaces_of_listing(listing);
    assert(describes_listing(r, given));
    r
}

// ---------------------------------------------------------------- bind addresses

/// The texts that stand for every interface.
pub open spec fn is_wildcard(addr: Seq<char>) -> bool {
    addr == "0.0.0.0"@ || addr == "::"@
}

/// Whether an address is one of an interface in the list.
pub open spec fn on_interface(addr: IpModel, infos: Seq<InterfaceInfo>) -> bool {
    exists|i: int| 0 <= i < infos.len() && ip_of((#[trigger] infos[i]).ip@) == Some(addr)
}

/// Whether a stream can bind to an address: a wildcard, or an address of an interface.
pub open spec fn bindable(
    addr: Seq<char>,
    interfaces: Result<Vec<InterfaceInfo>, String>,
) -> bool {
    is_wildcard(addr) || (ip_of(addr) matches Some(a) && interfaces matches Ok(infos)
        && on_interface(a, infos@))
}

/// Whether a stream can bind to an address, given the interfaces.
pub fn is_bindable(
    bind_addr: &str,
    interfaces: &Result<Vec<InterfaceInfo>, String>,
) -> (r: bool)
    ensures
        r == bindable(bind_addr@, *interfaces),
{
    if text_eq(bind_addr, "0.0.0.0") || text_eq(bind_addr, "::") {
        return true;
    }
    let target = match parse_ip(bind_addr) {
        Some(a) => a,
        None => {
            return false;
        },
    };
    match interfaces {
        Ok(infos) => {
            let mut i: usize = 0;
            while i < infos.len()
                invariant
                    i <= infos@.len(),
                    !is_wildcard(bind_addr@),
                    ip_of(bind_addr@) == Some(target@),
                    *interfaces == Ok::<Vec<InterfaceInfo>, String>(*infos),
                    forall|j: int|
                        0 <= j < i ==> ip_of((#[trigger] infos@[j]).ip@) != Some(target@),
                decreases infos@.len() - i,
            {
                if let Some(a) = parse_ip(infos[i].ip.as_str()) {
                    if a.same(&target) {
                        assert(ip_of(infos@[i as int].ip@) == Some(target@));
                        return true;
                    }
                }
                i += 1;
            }
            false
        },
        Err(_) => false,
    }
}

/// Whether a stream can bind to an address on this machine.
pub fn is_valid_bind_address(bind_addr: &str) -> (r: bool)
    ensures
        is_wildcard(bind_addr@) ==> r,
        !is_wildcard(bind_addr@) && ip_of(bind_addr@) is None ==> !r,
        exists|listing: Listing, interfaces: Result<Vec<InterfaceInfo>, String>|
            #![trigger describes_listing(interfaces, listing)]
            is_answer(listing) && lists_addresses(listing) && describes_listing(
                interfaces,
                listing,
            ) && r == bindable(bind_addr@, interfaces),
{
    let interfaces = get_system_interfaces();
    let r = is_bindable(bind_addr, &interfaces);
    assert(r == bindable(bind_addr@, interfaces));
    r
}

/// Whether an interface stays in a list with these wishes.
pub open spec fn wanted(
    i: InterfaceInfo,
    only_up: Option<bool>,
    exclude_loopback: Option<bool>,
    ipv4_only: Option<bool>,
) -> bool {
    &&& exclude_loopback == Some(true) ==> !i.is_loopback
    &&& ipv4_only == Some(true) ==> ipv4_of(i.ip@) is Some
    &&& only_up == Some(true) ==> i.is_up
}

fn asks(wish: Option<bool>) -> (r: bool)
    ensures
        r == (wish == Some(true)),
{
    match wish {
        Some(b) => b,
        None => false,
    }
}

/// The interfaces that a client wants, in the order in which they come.
pub fn filter_interfaces(
    interfaces: Vec<InterfaceInfo>,
    only_up: Option<bool>,
    exclude_loopback: Option<bool>,
    ipv4_only: Option<bool>,
) -> (r: Vec<InterfaceInfo>)
    ensures
        r@ == interfaces@.filter(
            |i: InterfaceInfo| wanted(i, only_up, exclude_loopback, ipv4_only),
        ),
{
    let ghost keep = |i: InterfaceInfo| wanted(i, only_up, exclude_loopback, ipv4_only);
    let ghost all = interfaces@;
    let mut rest: Vec<InterfaceInfo> = interfaces;
    let mut kept: Vec<InterfaceInfo> = Vec::new();
    let ghost mut n: int = 0;
    proof {
        reveal(Seq::filter);
        assert(all.take(0).filter(keep) =~= Seq::<InterfaceInfo>::empty());
    }
    while rest.len() > 0
        invariant
            keep == (|i: InterfaceInfo| wanted(i, only_up, exclude_loopback, ipv4_only)),
            0 <= n <= all.len(),
            rest@ == all.skip(n),
            kept@ == all.take(n).filter(keep),
        decreases rest@.len(),
    {
        let i = rest.remove(0);
        proof {
            reveal(Seq::filter);
            assert(i == all[n]);
            assert(all.take(n + 1).drop_last() =~= all.take(n));
            assert(all.take(n + 1).last() == i);
            n = n + 1;
            assert(rest@ =~= all.skip(n));
        }
        if !(asks(exclude_loopback) && i.is_loopback) && !(asks(ipv4_only) && !is_ipv4(
            i.ip.as_str(),
        )) && !(asks(only_up) && !i.is_up) {
            kept.push(i);
        }
    }
    assert(all.take(all.len() as int) =~= all);
    kept
}

/// The interfaces of the machine that a client wants.
pub fn get_filtered_interfaces(
    only_up: Option<bool>,
    exclude_loopback: Option<bool>,
    ipv4_only: Option<bool>,
) -> (r: Result<Vec<InterfaceInfo>, String>)
    ensures
        exists|listing: Listing, all: Result<Vec<InterfaceInfo>, String>|
            #![trigger describes_listing(all, listing)]
            is_answer(listing) && lists_addresses(listing) && describes_listing(all, listing) && (
            match all {
                Ok(infos) => r matches Ok(kept) && kept@ == infos@.filter(
                    |i: InterfaceInfo| wanted(i, only_up, exclude_loopback, ipv4_only),
                ),
                Err(e) => r == Err::<Vec<InterfaceInfo>, String>(e),
            }),
{
    match get_system_interfaces() {
        Ok(infos) => {
            let ghost all = Ok::<Vec<InterfaceInfo>, String>(infos);
            let ghost listing = choose|l: Listing|
                is_answer(l) && lists_addresses(l) && #[trigger] describes_listing(all, l);
            assert(describes_listing(all, listing));
            Ok(filter_interfaces(infos, only_up, exclude_loopback, ipv4_only))
        },
        Err(e) => {
            let ghost all = Err::<Vec<InterfaceInfo>, String>(e);
            let ghost listing = choose|l: Listing|
                is_answer(l) && lists_addresses(l) && #[trigger] describes_listing(all, l);
            assert(describes_listing(all, listing));
            Err(e)
        },
    }
}

// ---------------------------------------------------------------- the list of bind addresses

/// The texts in a list.
pub open spec fn texts(v: Seq<String>) -> Seq<Seq<char>> {
    v.map_values(|s: String| s@)
}

/// A list of texts in order, without one that occurs twice.
pub open spec fn strictly_sorted(v: Seq<Seq<char>>) -> bool {
    forall|i: int, j: int| 0 <= i < j < v.len() ==> text_lt(#[trigger] v[i], #[trigger] v[j])
}

/// The texts to offer: both wildcards and the address of each interface.
pub open spec fn offered(infos: Seq<InterfaceInfo>, addr: Seq<char>) -> bool {
    is_wildcard(addr) || exists|i: int| 0 <= i < infos.len() && (#[trigger] infos[i]).ip@ == addr
}

/// Put a text into an ordered list, where it is not there yet.
fn insert_text(v: &mut Vec<String>, s: String)
    requires
        strictly_sorted(texts(old(v)@)),
    ensures
        strictly_sorted(texts(final(v)@)),
        forall|t: Seq<char>| #[trigger]
            texts(final(v)@).contains(t) <==> texts(old(v)@).contains(t) || t == s@,
{
    let ghost before = texts(v@);
    let mut i: usize = 0;
    while i < v.len() && text_before(v[i].as_str(), s.as_str())
        invariant
            i <= v@.len(),
            before == texts(v@),
            forall|j: int| 0 <= j < i ==> text_lt(#[trigger] before[j], s@),
        decreases v@.len() - i,
    {
        assert(before[i as int] == v@[i as int]@);
        i += 1;
    }
    if i < v.len() {
        assert(before[i as int] == v@[i as int]@);
        if text_eq(v[i].as_str(), s.as_str()) {
            assert(before.contains(s@));
            return;
        }
        proof {
            crate::text::lemma_text_lt_total(before[i as int], s@);
        }
    }
    let ghost k = i as int;
    let ghost x = s@;
    v.insert(i, s);
    proof {
        let after = texts(v@);
        assert(after =~= before.insert(k, x));
        assert forall|a: int, b: int| 0 <= a < b < after.len() implies text_lt(
            #[trigger] after[a],
            #[trigger] after[b],
        ) by {
            if a < k && b == k {
                assert(after[a] == before[a]);
            } else if a < k && b > k {
                assert(after[a] == before[a]);
                assert(after[b] == before[b - 1]);
            } else if a == k {
                assert(after[b] == before[b - 1]);
                if b - 1 > k {
                    assert(text_lt(before[k], before[b - 1]));
                    crate::text::lemma_text_lt_transitive(x, before[k], before[b - 1]);
                }
            } else if a > k {
                assert(after[a] == before[a - 1]);
                assert(after[b] == before[b - 1]);
            } else {
                assert(after[a] == before[a]);
                assert(after[b] == before[b]);
            }
        }
        assert forall|t: Seq<char>| #[trigger] after.contains(t) implies before.contains(t) || t
            == x by {
            let a = choose|a: int| 0 <= a < after.len() && after[a] == t;
            if a < k {
                assert(before[a] == t);
            } else if a > k {
                assert(before[a - 1] == t);
            }
        }
        assert forall|t: Seq<char>| before.contains(t) || t == x implies #[trigger] after.contains(
            t,
        ) by {
            if before.contains(t) {
                let a = choose|a: int| 0 <= a < before.len() && before[a] == t;
                if a < k {
                    assert(after[a] == t);
                } else {
                    assert(after[a + 1] == t);
                }
            } else {
                assert(after[k] == t);
            }
        }
    }
}

/// The addresses to offer for binding, in order and each once.
pub fn bind_addresses_of(interfaces: &Vec<InterfaceInfo>) -> (r: Vec<String>)
    ensures
        strictly_sorted(texts(r@)),
        forall|t: Seq<char>| #[trigger] texts(r@).contains(t) <==> offered(interfaces@, t),
{
    let mut r: Vec<String> = Vec::new();
    assert(forall|t: Seq<char>| !texts(r@).contains(t));
    insert_text(&mut r, "0.0.0.0".to_owned());
    insert_text(&mut r, "::".to_owned());
    let mut i: usize = 0;
    while i < interfaces.len()
        invariant
            i <= interfaces@.len(),
            strictly_sorted(texts(r@)),
            forall|t: Seq<char>| #[trigger]
                texts(r@).contains(t) <==> is_wildcard(t) || exists|j: int|
                    0 <= j < i && (#[trigger] interfaces@[j]).ip@ == t,
        decreases interfaces@.len() - i,
    {
        insert_text(&mut r, interfaces[i].ip.clone());
        i += 1;
        assert forall|t: Seq<char>| #[trigger] texts(r@).contains(t) implies is_wildcard(t)
            || exists|j: int| 0 <= j < i && (#[trigger] interfaces@[j]).ip@ == t by {
            if t == interfaces@[i - 1].ip@ {
                assert(interfaces@[i - 1].ip@ == t);
            }
        }
    }
    r
}

/// The addresses of this machine to offer for binding. A stream can bind to each of them.
pub fn get_available_bind_addresses() -> (r: Result<Vec<String>, String>)
    ensures
        exists|listing: Listing, all: Result<Vec<InterfaceInfo>, String>|
            #![trigger describes_listing(all, listing)]
            is_answer(listing) && lists_addresses(listing) && describes_listing(all, listing) && (
            match all {
                Ok(infos) => {
                    &&& r matches Ok(addrs) && strictly_sorted(texts(addrs@))
                    &&& forall|t: Seq<char>| #[trigger]
                        texts(r->Ok_0@).contains(t) <==> offered(infos@, t)
                    &&& forall|t: Seq<char>| #[trigger]
                        texts(r->Ok_0@).contains(t) ==> bindable(t, all)
                },
                Err(e) => r == Err::<Vec<String>, String>(e),
            }),
{
    match get_system_interfaces() {
        Ok(infos) => {
            let ghost all = Ok::<Vec<InterfaceInfo>, String>(infos);
            let ghost listing = choose|l: Listing|
                is_answer(l) && lists_addresses(l) && #[trigger] describes_listing(all, l);
            assert(describes_listing(all, listing));
            let addrs = bind_addresses_of(&infos);
            assert forall|t: Seq<char>| #[trigger] texts(addrs@).contains(t) implies bindable(
                t,
                all,
            ) by {
                law_offered_addresses_are_bindable(infos, listing, t);
            }
            Ok(addrs)
        },
        Err(e) => {
            let ghost all = Err::<Vec<InterfaceInfo>, String>(e);
            let ghost listing = choose|l: Listing|
                is_answer(l) && lists_addresses(l) && #[trigger] describes_listing(all, l);
            assert(describes_listing(all, listing));
            Err(e)
        },
    }
}

// ---------------------------------------------------------------- laws

/// Every address that is offered can be bound to.
pub proof fn law_offered_addresses_are_bindable(
    infos: Vec<InterfaceInfo>,
    listing: Listing,
    addr: Seq<char>,
)
    requires
        lists_addresses(listing),
        describes_listing(Ok(infos), listing),
        offered(infos@, addr),
    ensures
        bindable(addr, Ok(infos)),
{
    if !is_wildcard(addr) {
        let i = choose|i: int| 0 <= i < infos@.len() && (#[trigger] infos@[i]).ip@ == addr;
        assert(describes(infos@[i], listing->Ok_0@[i]));
        assert(ip_of(infos@[i].ip@) == Some(ip_of(addr)->0));
    }
}

/// A text that is no address can never be bound to, whatever interfaces there are.
pub proof fn law_only_addresses_are_bindable(
    addr: Seq<char>,
    interfaces: Result<Vec<InterfaceInfo>, String>,
)
    requires
        bindable(addr, interfaces),
    ensures
        ip_of(addr) is Some,
{
    crate::ip_laws::law_wildcards_are_addresses();
}

} // verus!
