//! Finding a port that is free.
use std::collections::HashSet;
use vstd::prelude::*;
use crate::config::Config;
use crate::requests::CreateInputRequest;
use crate::text::{decimal, decimal_text, join4};

verus! {

// ---------------------------------------------------------------- ports in the database

/// The unsigned number under a key of the object that a JSON text holds, if the text is JSON,
/// holds an object with this key, and the value is such a number.
pub uninterp spec fn json_number(text: Seq<char>, key: Seq<char>) -> Option<u64>;

/// `serde_json::from_str` reads a text as JSON, `serde_json::Value::get` finds the value under
/// a key of an object, and `serde_json::Value::as_u64` gives it as a number. What comes out
/// depends on the text and the key alone.
#[verifier::external_body]
fn read_json_number(text: &str, key: &str) -> (r: Option<u64>)
    ensures
        r == json_number(text@, key@),
{
    match serde_json::from_str::<serde_json::Value>(text) {
        Ok(value) => value.get(key).and_then(serde_json::Value::as_u64),
        Err(_) => None,
    }
}

/// The ports that the stored configuration of an input names.
#[derive(Debug, Clone, Copy, PartialEq, Eq)]
pub struct ConfigPorts {
    pub listen_port: Option<u64>,
    pub bind_port: Option<u64>,
}

/// The ports that the stored configuration of an input names.
pub open spec fn config_ports(text: Seq<char>) -> ConfigPorts {
    ConfigPorts {
        listen_port: json_number(text, "listen_port"@),
        bind_port: json_number(text, "bind_port"@),
    }
}

/// Read the ports that the stored configuration of an input names.
pub fn read_config_ports(text: &str) -> (r: ConfigPorts)
    ensures
        r == config_ports(text@),
{
    ConfigPorts {
        listen_port: read_json_number(text, "listen_port"),
        bind_port: read_json_number(text, "bind_port"),
    }
}

/// Whether a port is one of those that outputs listen on or that configurations of inputs name.
/// A number that is no port counts as the port of its last 16 bits.
pub open spec fn in_use(
    listen_ports: Seq<Option<i32>>,
    configs: Seq<ConfigPorts>,
    port: u16,
) -> bool {
    ||| exists|i: int|
        0 <= i < listen_ports.len() && (#[trigger] listen_ports[i] matches Some(p) && p as u16
            == port)
    ||| exists|i: int|
        0 <= i < configs.len() && ((#[trigger] configs[i]).listen_port matches Some(p) && p as u16
            == port)
    ||| exists|i: int|
        0 <= i < configs.len() && ((#[trigger] configs[i]).bind_port matches Some(p) && p as u16
            == port)
}

/// The ports that are in use.
pub fn used_ports(listen_ports: &Vec<Option<i32>>, configs: &Vec<ConfigPorts>) -> (r: HashSet<u16>)
    ensures
        forall|port: u16| #[trigger]
            r@.contains(port) <==> in_use(listen_ports@, configs@, port),
{
    broadcast use vstd::std_specs::hash::group_hash_axioms;

    let mut r: HashSet<u16> = HashSet::new();
    let mut i: usize = 0;
    let none: Vec<ConfigPorts> = Vec::new();
    while i < listen_ports.len()
        invariant
            i <= listen_ports@.len(),
            none@.len() == 0,
            forall|port: u16| #[trigger]
                r@.contains(port) <==> in_use(listen_ports@.take(i as int), none@, port),
        decreases listen_ports@.len() - i,
    {
        let ghost before = r@;
        let ghost shorter = listen_ports@.take(i as int);
        let ghost longer = listen_ports@.take(i + 1);
        if let Some(p) = listen_ports[i] {
            r.insert(p as u16);
        }
        proof {
            assert forall|port: u16| #[trigger] r@.contains(port) implies in_use(
                longer,
                none@,
                port,
            ) by {
                if before.contains(port) {
                    let j = choose|j: int|
                        0 <= j < shorter.len() && (#[trigger] shorter[j] matches Some(p) && p as u16
                            == port);
                    assert(longer[j] == shorter[j]);
                } else {
                    assert(longer[i as int] == listen_ports@[i as int]);
                }
            }
            assert forall|port: u16| in_use(longer, none@, port) implies #[trigger] r@.contains(
                port,
            ) by {
                let j = choose|j: int|
                    0 <= j < longer.len() && (#[trigger] longer[j] matches Some(p) && p as u16
                        == port);
                if j < i {
                    assert(shorter[j] == longer[j]);
                    assert(in_use(shorter, none@, port));
                }
            }
        }
        i += 1;
    }
    assert(listen_ports@.take(listen_ports@.len() as int) =~= listen_ports@);
    let mut k: usize = 0;
    assert(configs@.take(0) =~= none@);
    while k < configs.len()
        invariant
            k <= configs@.len(),
            forall|port: u16| #[trigger]
                r@.contains(port) <==> in_use(listen_ports@, configs@.take(k as int), port),
        decreases configs@.len() - k,
    {
        let ghost before = r@;
        let ghost shorter = configs@.take(k as int);
        let ghost longer = configs@.take(k + 1);
        if let Some(p) = configs[k].listen_port {
            r.insert(p as u16);
        }
        if let Some(p) = configs[k].bind_port {
            r.insert(p as u16);
        }
        proof {
            assert(longer[k as int] == configs@[k as int]);
            assert forall|j: int| 0 <= j < k implies longer[j] == #[trigger] shorter[j] by {}
            assert forall|port: u16| #[trigger] r@.contains(port) implies in_use(
                listen_ports@,
                longer,
                port,
            ) by {
                if before.contains(port) {
                    assert(in_use(listen_ports@, shorter, port));
                    lemma_in_use_grows(listen_ports@, shorter, longer, port);
                }
            }
            assert forall|port: u16| in_use(
                listen_ports@,
                longer,
                port,
            ) implies #[trigger] r@.contains(port) by {
                if !before.contains(port) {
                    assert(!in_use(listen_ports@, shorter, port));
                    assert forall|j: int| 0 <= j < k implies !(
                    (#[trigger] longer[j]).listen_port matches Some(p) && p as u16 == port) && !(
                    longer[j].bind_port matches Some(p) && p as u16 == port) by {
                        assert(shorter[j] == longer[j]);
                    }
                }
            }
        }
        k += 1;
    }
    assert(configs@.take(configs@.len() as int) =~= configs@);
    r
}

proof fn lemma_in_use_grows(
    listen_ports: Seq<Option<i32>>,
    shorter: Seq<ConfigPorts>,
    longer: Seq<ConfigPorts>,
    port: u16,
)
    requires
        shorter.len() <= longer.len(),
        forall|j: int| 0 <= j < shorter.len() ==> longer[j] == #[trigger] shorter[j],
        in_use(listen_ports, shorter, port),
    ensures
        in_use(listen_ports, longer, port),
{
    if exists|i: int|
        0 <= i < shorter.len() && ((#[trigger] shorter[i]).listen_port matches Some(p) && p as u16
            == port) {
        let i = choose|i: int|
            0 <= i < shorter.len() && ((#[trigger] shorter[i]).listen_port matches Some(p)
                && p as u16 == port);
        assert(longer[i] == shorter[i]);
    } else if exists|i: int|
        0 <= i < shorter.len() && ((#[trigger] shorter[i]).bind_port matches Some(p) && p as u16
            == port) {
        let i = choose|i: int|
            0 <= i < shorter.len() && ((#[trigger] shorter[i]).bind_port matches Some(p) && p as u16
                == port);
        assert(longer[i] == shorter[i]);
    }
}

/// The ports that are in use, given what outputs listen on and the stored configurations of
/// inputs.
pub fn ports_in_database(listen_ports: &Vec<Option<i32>>, configs: &Vec<String>) -> (r: HashSet<
    u16,
>)
    ensures
        forall|port: u16| #[trigger]
            r@.contains(port) <==> in_use(
                listen_ports@,
                configs@.map_values(|c: String| config_ports(c@)),
                port,
            ),
{
    let mut ports: Vec<ConfigPorts> = Vec::new();
    let mut i: usize = 0;
    while i < configs.len()
        invariant
            i <= configs@.len(),
            ports@ == configs@.take(i as int).map_values(|c: String| config_ports(c@)),
        decreases configs@.len() - i,
    {
        ports.push(read_config_ports(configs[i].as_str()));
        i += 1;
        assert(ports@ =~= configs@.take(i as int).map_values(|c: String| config_ports(c@)));
    }
    assert(configs@.take(configs@.len() as int) =~= configs@);
    used_ports(listen_ports, &ports)
}

// ---------------------------------------------------------------- the search

/// Whether a port can be tried: it lies in the range, is not in use and was not refused.
pub open spec fn can_try(config: Config, used: Set<u16>, refused: Set<u16>, port: u16) -> bool {
    &&& config.auto_port_range_start <= port < config.auto_port_range_end
    &&& !used.contains(port)
    &&& !refused.contains(port)
}

/// The port to try next: the first of the range that is not in use and was not refused, because
/// of a conflict or because it could not be bound.
pub fn find_available_port(
    config: &Config,
    used: &HashSet<u16>,
    refused: &HashSet<u16>,
) -> (r: Result<u16, String>)
    ensures
        match r {
            Ok(port) => can_try(*config, used@, refused@, port) && forall|p: u16|
                p < port ==> !#[trigger] can_try(*config, used@, refused@, p),
            Err(e) => (forall|p: u16| !#[trigger] can_try(*config, used@, refused@, p)) && e@
                == "No available ports in range "@ + decimal(config.auto_port_range_start as nat)
                + ".."@ + decimal(config.auto_port_range_end as nat),
        },
{
    broadcast use vstd::std_specs::hash::group_hash_axioms;

    let range = config.port_range();
    let mut port: u16 = range.start;
    while port < range.end
        invariant
            range.start == config.auto_port_range_start,
            range.end == config.auto_port_range_end,
            range.start <= port,
            forall|p: u16| p < port ==> !#[trigger] can_try(*config, used@, refused@, p),
        decreases range.end - port,
    {
        if !used.contains(&port) && !refused.contains(&port) {
            return Ok(port);
        }
        port += 1;
    }
    let start = decimal_text(config.auto_port_range_start as u64);
    let end = decimal_text(config.auto_port_range_end as u64);
    Err(join4("No available ports in range ", start.as_str(), "..", end.as_str()))
}

/// The outputs to leave out when the database is asked whether a port is taken: one question
/// for each, and one that leaves out none where the list is empty or missing.
pub fn conflict_questions(exclude_ids: &Option<Vec<i64>>) -> (r: Vec<Option<i64>>)
    ensures
        match exclude_ids {
            Some(ids) if ids@.len() > 0 => r@ == ids@.map_values(|id: i64| Some(id)),
            _ => r@ == seq![None::<i64>],
        },
{
    let mut r: Vec<Option<i64>> = Vec::new();
    match exclude_ids {
        Some(ids) => {
            let mut i: usize = 0;
            while i < ids.len()
                invariant
                    i <= ids@.len(),
                    r@ == ids@.take(i as int).map_values(|id: i64| Some(id)),
                decreases ids@.len() - i,
            {
                r.push(Some(ids[i]));
                i += 1;
                assert(r@ =~= ids@.take(i as int).map_values(|id: i64| Some(id)));
            }
            assert(ids@.take(ids@.len() as int) =~= ids@);
            if ids.len() == 0 {
                r.push(None);
                assert(r@ =~= seq![None::<i64>]);
            }
        },
        None => {
            r.push(None);
            assert(r@ =~= seq![None::<i64>]);
        },
    }
    r
}

// ---------------------------------------------------------------- ports of inputs

/// An input in the database: its number, and its configuration where it can be read.
#[derive(Debug)]
pub struct InputPort {
    pub id: i64,
    pub config: Option<CreateInputRequest>,
}

/// Whether another input binds to a port.
pub open spec fn binds(i: InputPort, port: u16, exclude: Option<i64>) -> bool {
    &&& exclude != Some(i.id)
    &&& port != 0
    &&& i.config matches Some(c) && c.bind_port_or_zero() == port
}

/// Whether a port is taken by another input, or, as the database tells, by an output.
pub fn check_input_port_conflict(
    inputs: &Vec<InputPort>,
    port: u16,
    exclude_input_id: Option<i64>,
    output_conflict: bool,
) -> (r: bool)
    ensures
        r == (output_conflict || exists|i: int|
            0 <= i < inputs@.len() && binds(#[trigger] inputs@[i], port, exclude_input_id)),
{
    let mut i: usize = 0;
    while i < inputs.len()
        invariant
            i <= inputs@.len(),
            forall|j: int|
                0 <= j < i ==> !binds(#[trigger] inputs@[j], port, exclude_input_id),
        decreases inputs@.len() - i,
    {
        let excluded: bool = match exclude_input_id {
            Some(id) => id == inputs[i].id,
            None => false,
        };
        if !excluded {
            if let Some(c) = &inputs[i].config {
                let p: u16 = c.get_bind_port();
                if p == port && p != 0 {
                    assert(binds(inputs@[i as int], port, exclude_input_id));
                    return true;
                }
            }
        }
        i += 1;
    }
    output_conflict
}

// ---------------------------------------------------------------- laws

/// Refusing the port that was found takes that port, and no other, out of those that can be
/// tried: no port is tried twice.
pub proof fn law_search_makes_progress(
    config: Config,
    used: Set<u16>,
    refused: Set<u16>,
    port: u16,
    other: u16,
)
    requires
        can_try(config, used, refused, port),
    ensures
        !can_try(config, used, refused.insert(port), port),
        other != port ==> can_try(config, used, refused.insert(port), other) == can_try(
            config,
            used,
            refused,
            other,
        ),
{
}

} // verus!
