use stream_gateway::interfaces::{
    bind_addresses_of, filter_interfaces, get_available_bind_addresses, get_filtered_interfaces,
    get_system_interfaces, interfaces_of_listing, is_bindable, is_valid_bind_address, InterfaceInfo,
    ListedAddress,
};
use stream_gateway::ip::{is_ipv4, names_multicast, parse_ip, parse_socket_address, IpAddress};
use stream_gateway::naming::MulticastOutputConfig;
use stream_gateway::sockets::{plan_input_socket, plan_output_socket, plan_spts_socket, GroupJoin};
use stream_gateway::validation::{validate_bind_address, validate_bind_address_on, validate_multicast_group};

fn text(s: &str) -> Option<String> {
    Some(s.to_string())
}

fn interface(name: &str, ip: &str, is_loopback: bool, is_up: bool) -> InterfaceInfo {
    let kind = if is_loopback { "loopback" } else { "ethernet" };
    InterfaceInfo {
        name: name.to_string(),
        ip: ip.to_string(),
        is_loopback,
        is_up,
        interface_type: kind.to_string(),
    }
}

fn machine() -> Vec<InterfaceInfo> {
    vec![
        interface("lo", "127.0.0.1", true, true),
        interface("lo", "::1", true, true),
        interface("eth0", "192.168.1.5", false, true),
        interface("eth0", "fe80::1", false, true),
        interface("eth1", "10.0.0.1", false, false),
    ]
}

#[test]
fn test_wildcard_addresses_are_valid() {
    assert!(is_valid_bind_address("0.0.0.0"));
    assert!(is_valid_bind_address("::"));
}

#[test]
fn test_invalid_address_format() {
    assert!(!is_valid_bind_address("invalid"));
    assert!(!is_valid_bind_address("999.999.999.999"));
}

#[test]
fn test_get_system_interfaces() {
    let interfaces = get_system_interfaces();
    assert!(interfaces.is_ok());

    let interfaces = interfaces.unwrap();
    let listed = if_addrs::get_if_addrs().unwrap();
    assert_eq!(interfaces.len(), listed.len());
    for (i, l) in interfaces.iter().zip(&listed) {
        assert_eq!((&i.name, &i.ip, i.is_loopback), (&l.name, &l.ip().to_string(), l.is_loopback()));
    }
    // A network namespace may be without any interface; every other machine has a loopback.
    if !listed.is_empty() {
        assert!(!interfaces.is_empty());
        assert!(interfaces.iter().any(|i| i.is_loopback));
    }
}

#[test]
fn test_localhost_is_valid() {
    assert!(is_bindable("127.0.0.1", &Ok(machine())));
    // A network namespace may be without any interface; every other machine has this address.
    if if_addrs::get_if_addrs().unwrap().is_empty() {
        assert!(!is_valid_bind_address("127.0.0.1"));
    } else {
        assert!(is_valid_bind_address("127.0.0.1"));
    }
}

#[test]
fn offered_addresses_can_be_bound() {
    let all = Ok(machine());
    let offered = bind_addresses_of(all.as_ref().unwrap());
    assert_eq!(offered.len(), 7);
    assert!(offered.iter().all(|a| is_bindable(a, &all)));
    assert!(get_available_bind_addresses().unwrap().iter().all(|a| is_valid_bind_address(a)));
}

#[test]
fn ipv4_addresses_are_read() {
    let v4 = |t: &str| match parse_ip(t) {
        Some(IpAddress::V4(o)) => {
            assert!(is_ipv4(t));
            Some(o)
        }
        _ => None,
    };
    assert_eq!(v4("0.0.0.0"), Some(vec![0, 0, 0, 0]));
    assert_eq!(v4("255.255.255.255"), Some(vec![255; 4]));
    assert_eq!(v4("192.168.10.1"), Some(vec![192, 168, 10, 1]));
    let others = [
        "", ".", "1.2.3", "1.2.3.4.5", "01.2.3.4", "1.2.3.00", "256.1.1.1", "1.2.3.4 ", " 1.2.3.4",
        "1..2.3", "a.b.c.d", "+1.2.3.4", "\u{ff11}.2.3.4", "1.2.3.4:5", "0001.2.3.4",
    ];
    for t in others {
        assert!(parse_ip(t).is_none() && !is_ipv4(t), "{t}");
    }
}

#[test]
fn ipv6_addresses_are_read() {
    let v6 = |t: &str| match parse_ip(t) {
        Some(IpAddress::V6(g)) => {
            assert!(!is_ipv4(t));
            Some(g)
        }
        _ => None,
    };
    assert_eq!(v6("::"), Some(vec![0; 8]));
    assert_eq!(v6("::1"), Some(vec![0, 0, 0, 0, 0, 0, 0, 1]));
    assert_eq!(v6("1::"), Some(vec![1, 0, 0, 0, 0, 0, 0, 0]));
    assert_eq!(v6("1:2:3:4:5:6:7:8"), Some(vec![1, 2, 3, 4, 5, 6, 7, 8]));
    assert_eq!(v6("2001:DB8::A"), Some(vec![0x2001, 0xdb8, 0, 0, 0, 0, 0, 10]));
    assert_eq!(v6("::ffff:1.2.3.4"), Some(vec![0, 0, 0, 0, 0, 0xffff, 0x102, 0x304]));
    assert_eq!(v6("1:2:3:4:5:6:1.2.3.4"), Some(vec![1, 2, 3, 4, 5, 6, 0x102, 0x304]));
    assert_eq!(v6("1:2:3:4:5:6:7::"), Some(vec![1, 2, 3, 4, 5, 6, 7, 0]));
    assert_eq!(v6("::2:3:4:5:6:7:8"), Some(vec![0, 2, 3, 4, 5, 6, 7, 8]));
    assert_eq!(v6("0000:0::00"), Some(vec![0; 8]));
    let others = [
        ":", ":::", "1:2:3:4:5:6:7", "1:2:3:4:5:6:7:8:9", "1:2:3:4:5:6:7:1.2.3.4", "1::2::3",
        "12345::", "fe80::1%eth0", "[::1]", "::1:", ":1", "1::2:3:4:5:6:7:8", "1.2.3.4::", "::g",
        "1:2:3:4:5:6:7:8::",
    ];
    for t in others {
        assert!(parse_ip(t).is_none(), "{t}");
    }
}

#[test]
fn socket_addresses_are_read() {
    let good = [
        "1.2.3.4:80", "1.2.3.4:65535", "1.2.3.4:00080", "0.0.0.0:0", "[::1]:80", "[::]:0",
        "[::1%2]:80",
    ];
    for t in good {
        assert!(parse_socket_address(t), "{t}");
    }
    let others = [
        "", ":80", "host:80", "1.2.3.4", "1.2.3.4:", "1.2.3.4:65536", "1.2.3.4:+8", "1.2.3.4:0 ",
        "::1:80", "[::1]", "[::1]:", "[::1]:80x", "[::1%]:80", "[::1%4294967296]:1", "[1.2.3.4]:80",
    ];
    for t in others {
        assert!(!parse_socket_address(t), "{t}");
    }
}

#[test]
fn every_ipv4_text_is_read_back() {
    for bytes in [[0u8, 0, 0, 0], [10, 20, 30, 40], [255, 99, 100, 9], [224, 0, 0, 1]] {
        let t = format!("{}.{}.{}.{}", bytes[0], bytes[1], bytes[2], bytes[3]);
        match parse_ip(&t) {
            Some(IpAddress::V4(o)) => assert_eq!(o, bytes.to_vec()),
            _ => panic!("{t}"),
        }
        assert!(parse_socket_address(&format!("{t}:5000")));
    }
}

#[test]
fn multicast_range() {
    assert!(!names_multicast("223.255.255.255"));
    assert!(names_multicast("224.0.0.0"));
    assert!(names_multicast("239.255.255.255"));
    assert!(!names_multicast("240.0.0.0"));
    assert!(names_multicast("ff02::1") && !names_multicast("fe80::1"));
    assert!(!names_multicast("group"));
}

#[test]
fn addresses_are_compared_by_value() {
    let long = parse_ip("0:0:0:0:0:0:0:1").unwrap();
    let short = parse_ip("::1").unwrap();
    assert!(long.same(&short));
    assert!(!short.same(&parse_ip("127.0.0.1").unwrap()));
    assert!(!short.same(&parse_ip("::2").unwrap()));
}

#[test]
fn listing_becomes_interfaces() {
    let listed = |name: &str, ip: &str, is_loopback: bool| ListedAddress {
        name: name.to_string(),
        ip: ip.to_string(),
        is_loopback,
    };
    let list = Ok(vec![listed("lo", "127.0.0.1", true), listed("eth0", "10.1.1.1", false)]);
    let infos = interfaces_of_listing(list).unwrap();
    assert_eq!(infos.len(), 2);
    assert_eq!((infos[0].name.as_str(), infos[0].interface_type.as_str()), ("lo", "loopback"));
    assert_eq!((infos[1].ip.as_str(), infos[1].interface_type.as_str()), ("10.1.1.1", "ethernet"));
    assert!(infos.iter().all(|i| i.is_up));
    let e = interfaces_of_listing(Err("no".to_string())).unwrap_err();
    assert_eq!(e, "Failed to enumerate network interfaces: no");
}

#[test]
fn interfaces_are_filtered() {
    let names = |only_up, exclude_loopback, ipv4_only| -> Vec<String> {
        let kept = filter_interfaces(machine(), only_up, exclude_loopback, ipv4_only);
        kept.into_iter().map(|i| i.ip).collect()
    };
    assert_eq!(names(None, None, None).len(), 5);
    assert_eq!(names(Some(false), Some(false), Some(false)).len(), 5);
    assert_eq!(names(Some(true), None, None), ["127.0.0.1", "::1", "192.168.1.5", "fe80::1"]);
    assert_eq!(names(None, Some(true), None), ["192.168.1.5", "fe80::1", "10.0.0.1"]);
    assert_eq!(names(None, None, Some(true)), ["127.0.0.1", "192.168.1.5", "10.0.0.1"]);
    assert_eq!(names(Some(true), Some(true), Some(true)), ["192.168.1.5"]);
}

#[test]
fn bind_addresses_are_sorted_and_unique() {
    let mut infos = machine();
    infos.push(interface("eth2", "10.0.0.1", false, true));
    let list = bind_addresses_of(&infos);
    let expected =
        ["0.0.0.0", "10.0.0.1", "127.0.0.1", "192.168.1.5", "::", "::1", "fe80::1"];
    assert_eq!(list, expected);
    assert_eq!(bind_addresses_of(&vec![]), ["0.0.0.0", "::"]);
}

#[test]
fn offered_addresses_are_bindable() {
    for a in bind_addresses_of(&machine()) {
        assert!(is_bindable(&a, &Ok(machine())), "{a}");
    }
    assert!(is_bindable("0:0::1", &Ok(machine())));
    assert!(!is_bindable("192.168.1.6", &Ok(machine())));
    assert!(!is_bindable("127.0.0.1", &Err("none".to_string())));
    assert!(is_bindable("0.0.0.0", &Err("none".to_string())));
}

#[test]
fn this_machine_offers_bindable_addresses() {
    let list = get_available_bind_addresses().unwrap();
    assert!(list.iter().any(|a| a == "0.0.0.0") && list.iter().any(|a| a == "::"));
    assert!(list.windows(2).all(|w| w[0] < w[1]));
    for a in list {
        assert!(is_valid_bind_address(&a), "{a}");
    }
    let kept = get_filtered_interfaces(None, Some(true), Some(true)).unwrap();
    assert!(kept.iter().all(|i| !i.is_loopback && is_ipv4(&i.ip)));
}

#[test]
fn multicast_groups_are_checked() {
    assert!(validate_multicast_group("239.1.2.3").is_ok());
    assert!(validate_multicast_group("ff05::1").is_ok());
    assert_eq!(
        validate_multicast_group("group").unwrap_err(),
        "Invalid IP address format: 'group'"
    );
    assert_eq!(
        validate_multicast_group("10.0.0.1").unwrap_err(),
        "Address '10.0.0.1' is not a valid IPv4 multicast address (must be in range 224.0.0.0 - 239.255.255.255)"
    );
    assert_eq!(
        validate_multicast_group("fe80::1").unwrap_err(),
        "Address 'fe80::1' is not a valid IPv6 multicast address"
    );
}

#[test]
fn bind_addresses_are_checked() {
    let on = |a: &str| validate_bind_address_on(a, &Ok(machine()));
    assert!(on("0.0.0.0").is_ok() && on("::").is_ok() && on("10.0.0.1").is_ok());
    assert_eq!(on("eth0").unwrap_err(), "Invalid bind IP address format: 'eth0'");
    assert_eq!(
        on("10.0.0.2").unwrap_err(),
        "Bind address '10.0.0.2' not found in system interfaces. Use GET /interfaces to see available addresses."
    );
    assert!(validate_bind_address("0.0.0.0").is_ok());
    assert!(validate_bind_address("x").is_err());
}

#[test]
fn input_sockets_join_groups() {
    let plan = plan_input_socket("0.0.0.0", 5000, &None, &text("1.2.3.4")).unwrap();
    assert_eq!(plan.bind, "0.0.0.0:5000");
    assert!(matches!(plan.join, GroupJoin::NoGroup));

    let plan = plan_input_socket("10.0.0.1", 5000, &text("239.0.0.1"), &None).unwrap();
    match plan.join {
        GroupJoin::AnySource { group, interface } => {
            assert_eq!((group.as_str(), interface.as_str()), ("239.0.0.1", "10.0.0.1"));
        }
        _ => panic!(),
    }

    let plan = plan_input_socket("[::]", 5000, &text("239.0.0.1"), &text("10.9.9.9")).unwrap();
    assert_eq!(plan.bind, "[::]:5000");
    match plan.join {
        GroupJoin::SourceSpecific { group, source, interface } => {
            assert_eq!((group.as_str(), source.as_str()), ("239.0.0.1", "10.9.9.9"));
            assert_eq!(interface, "0.0.0.0");
        }
        _ => panic!(),
    }

    let plan = plan_input_socket("[::]", 5000, &text("ff05::1"), &text("x")).unwrap();
    assert!(matches!(plan.join, GroupJoin::Ipv6 { group } if group == "ff05::1"));
}

#[test]
fn input_sockets_refuse_bad_addresses() {
    let fails = |bind: &str, group: Option<String>, source: Option<String>| {
        plan_input_socket(bind, 5000, &group, &source).unwrap_err()
    };
    assert_eq!(fails("host", None, None), "invalid socket address syntax");
    assert_eq!(fails("::", None, None), "invalid socket address syntax");
    assert_eq!(
        fails("0.0.0.0", text("g"), None),
        "Invalid multicast group address 'g': invalid IP address syntax"
    );
    assert_eq!(
        fails("0.0.0.0", text("10.0.0.1"), None),
        "Address '10.0.0.1' is not a valid IPv4 multicast address"
    );
    assert_eq!(
        fails("0.0.0.0", text("239.0.0.1"), text("::1")),
        "Invalid source address '::1': invalid IPv4 address syntax"
    );
}

#[test]
fn accepted_groups_can_be_joined() {
    for g in ["224.0.0.1", "239.255.0.1", "ff02::2"] {
        assert!(validate_multicast_group(g).is_ok());
        assert!(plan_input_socket("0.0.0.0", 1234, &text(g), &text("10.1.1.1")).is_ok());
    }
}

#[test]
fn output_sockets_send_to_groups() {
    let plan = plan_output_socket(&None, &None).unwrap();
    assert_eq!(plan.bind.as_deref(), Some("0.0.0.0:0"));
    assert_eq!((plan.multicast_ttl, plan.multicast_interface), (None, None));

    let multicast = Some(MulticastOutputConfig { ttl: 7, interface: text("10.0.0.1") });
    let plan = plan_output_socket(&text("10.0.0.1"), &multicast).unwrap();
    assert_eq!(plan.bind.as_deref(), Some("10.0.0.1:0"));
    assert_eq!(plan.multicast_ttl, Some(7));
    assert_eq!(plan.multicast_interface.as_deref(), Some("10.0.0.1"));

    let multicast = Some(MulticastOutputConfig { ttl: 1, interface: text("eth0") });
    assert_eq!(plan_output_socket(&None, &multicast).unwrap().multicast_interface, None);
    assert_eq!(
        plan_output_socket(&text("host"), &None).unwrap_err(),
        "invalid socket address syntax"
    );
}

#[test]
fn filtered_sockets_skip_bad_hosts() {
    let multicast = Some(MulticastOutputConfig { ttl: 3, interface: None });
    let plan = plan_spts_socket(&text("host"), &multicast);
    assert_eq!((plan.bind, plan.multicast_ttl), (None, Some(3)));
    let plan = plan_spts_socket(&text("10.0.0.1"), &None);
    assert_eq!((plan.bind.as_deref(), plan.multicast_ttl), (Some("10.0.0.1"), None));
}
