//! Discovery by mDNS: the service this device registers, and what it makes of a
//! service another device registered.
use vstd::prelude::*;

use crate::ids::{parse_uuid, uuid_hyphenated, uuid_parse, uuid_text};
use crate::net::IpAddress;
use crate::protocol::messages::PROTOCOL_VERSION;
use crate::text::{decimal_string, decimal_text};

verus! {

/// The mDNS service type of this application.
pub const SERVICE_TYPE: &'static str = "_lanfile._tcp.local.";

/// The port the registered service announces.
pub const MDNS_PORT: u16 = 7878;

/// A device found by mDNS.
#[derive(Debug, Clone, PartialEq, Eq)]
pub struct MdnsPeer {
    pub device_id: u128,
    pub device_name: String,
    pub addr: IpAddress,
    pub port: u16,
}

/// A change mDNS browsing reports.
#[derive(Debug)]
pub enum MdnsEvent {
    /// A device's service was resolved.
    Found(MdnsPeer),
    /// The service of the given full name went away.
    Removed(String),
}

/// The service this device registers, by its full name.
#[derive(Debug)]
pub struct MdnsDiscovery {
    pub service_name: String,
}

/// The instance name of a device's service: `landrop-` and the device's id.
pub open spec fn instance_of(device_id: u128) -> Seq<char> {
    "landrop-"@ + uuid_hyphenated(device_id)
}

/// The device a resolved service describes: the device named by its `device_id`
/// property (which must parse as an id other than this device's), called by its
/// `name` property or else by its host name, at its first address (which it must
/// have) and its port.
pub open spec fn resolved_peer(
    my_id: u128,
    id_prop: Option<Seq<char>>,
    name_prop: Option<Seq<char>>,
    hostname: Seq<char>,
    first_addr: Option<IpAddress>,
    port: u16,
) -> Option<(u128, Seq<char>, IpAddress, u16)> {
    let id_text = match id_prop {
        Some(t) => t,
        None => Seq::empty(),
    };
    match uuid_parse(id_text) {
        Some(id) => if id == my_id {
            None
        } else {
            match first_addr {
                Some(a) => Some(
                    (
                        id,
                        match name_prop {
                            Some(n) => n,
                            None => hostname,
                        },
                        a,
                        port,
                    ),
                ),
                None => None,
            }
        },
        None => None,
    }
}

/// The text of a service property, empty when the service does not carry it.
pub open spec fn prop_text(prop: Option<String>) -> Seq<char> {
    match prop {
        Some(t) => t@,
        None => Seq::empty(),
    }
}

/// What a resolved service yields, in terms of its inputs: a device only when the
/// service has an address and its `device_id` property names an id other than this
/// device's; that device is the id named, at the service's first address and port,
/// called by its `name` property or else by its host name.
pub proof fn lemma_resolved_peer_at_first_address(
    my_id: u128,
    id_prop: Option<Seq<char>>,
    name_prop: Option<Seq<char>>,
    hostname: Seq<char>,
    first_addr: Option<IpAddress>,
    port: u16,
)
    ensures
        ({
            let id_text = match id_prop {
                Some(t) => t,
                None => Seq::<char>::empty(),
            };
            let r = resolved_peer(my_id, id_prop, name_prop, hostname, first_addr, port);
            &&& r is Some <==> (first_addr is Some && uuid_parse(id_text) is Some && uuid_parse(id_text)
                != Some(my_id))
            &&& r matches Some((id, name, addr, p)) ==> {
                &&& Some(addr) == first_addr
                &&& p == port
                &&& uuid_parse(id_text) == Some(id)
                &&& id != my_id
                &&& name == match name_prop {
                    Some(n) => n,
                    None => hostname,
                }
            }
        }),
{
}

impl MdnsDiscovery {
    /// The instance name of this device's service.
    pub fn instance_name(device_id: u128) -> (s: String)
        ensures
            s@ == instance_of(device_id),
    {
        let mut s = String::from_str("landrop-");
        let id = uuid_text(device_id);
        s.append(id.as_str());
        proof {
            reveal_strlit("landrop-");
        }
        s
    }

    /// The full name of a service instance: the instance name, a dot, and the
    /// service type.
    pub fn full_name(instance: &str) -> (s: String)
        ensures
            s@ == instance@ + "."@ + SERVICE_TYPE@,
    {
        let mut s = String::from_str(instance);
        s.append(".");
        s.append(SERVICE_TYPE);
        s
    }

    /// The mDNS host name of a machine called `hostname`.
    pub fn host_name(hostname: &str) -> (s: String)
        ensures
            s@ == hostname@ + ".local."@,
    {
        let mut s = String::from_str(hostname);
        s.append(".local.");
        s
    }

    /// The properties this device's service carries: its id, its name, and the
    /// protocol version it speaks (in decimal).
    pub fn properties(device_id: u128, device_name: &str) -> (props: Vec<(String, String)>)
        ensures
            props@.len() == 3,
            props@[0].0@ == "device_id"@ && props@[0].1@ == uuid_hyphenated(device_id),
            props@[1].0@ == "name"@ && props@[1].1@ == device_name@,
            props@[2].0@ == "version"@ && props@[2].1@ == decimal_text(PROTOCOL_VERSION as nat),
    {
        let mut props: Vec<(String, String)> = Vec::new();
        props.push((String::from_str("device_id"), uuid_text(device_id)));
        props.push((String::from_str("name"), String::from_str(device_name)));
        props.push((String::from_str("version"), decimal_string(PROTOCOL_VERSION as u64)));
        props
    }

    /// The service this device registers.
    pub fn new(device_id: u128) -> (d: MdnsDiscovery)
        ensures
            d.service_name@ == instance_of(device_id) + "."@ + SERVICE_TYPE@,
    {
        let instance = Self::instance_name(device_id);
        MdnsDiscovery { service_name: Self::full_name(instance.as_str()) }
    }

    /// What a resolved service tells of a device, given its `device_id` and `name`
    /// properties, its host name, its first address and its port; `None` when it
    /// names no other device or has no address.
    pub fn peer_from_resolved(
        my_id: u128,
        id_prop: Option<String>,
        name_prop: Option<String>,
        hostname: String,
        first_addr: Option<IpAddress>,
        port: u16,
    ) -> (p: Option<MdnsPeer>)
        ensures
            match resolved_peer(
                my_id,
                match id_prop {
                    Some(t) => Some(t@),
                    None => None,
                },
                match name_prop {
                    Some(n) => Some(n@),
                    None => None,
                },
                hostname@,
                first_addr,
                port,
            ) {
                Some((id, name, addr, port)) => p matches Some(q) && q.device_id == id
                    && q.device_name@ == name && q.addr == addr && q.port == port,
                None => p is None,
            },
            p matches Some(q) ==> {
                &&& Some(q.addr) == first_addr
                &&& q.port == port
                &&& uuid_parse(prop_text(id_prop)) == Some(q.device_id)
                &&& q.device_id != my_id
                &&& q.device_name@ == match name_prop {
                    Some(n) => n@,
                    None => hostname@,
                }
            },
            p is None <==> (first_addr is None || uuid_parse(prop_text(id_prop)) is None || uuid_parse(
                prop_text(id_prop),
            ) == Some(my_id)),
    {
        let ghost id_text = match &id_prop {
            Some(t) => t@,
            None => Seq::<char>::empty(),
        };
        let parsed = match &id_prop {
            Some(t) => parse_uuid(t.as_str()),
            None => {
                proof {
                    reveal_strlit("");
                    assert(""@ =~= Seq::<char>::empty());
                }
                parse_uuid("")
            },
        };
        assert(parsed == uuid_parse(id_text));
        let id = match parsed {
            Some(id) => {
                if id == my_id {
                    return None;
                }
                id
            },
            None => {
                return None;
            },
        };
        let name = match name_prop {
            Some(n) => n,
            None => hostname,
        };
        match first_addr {
            Some(a) => Some(MdnsPeer { device_id: id, device_name: name, addr: a, port }),
            None => None,
        }
    }

    /// The event for a service of full name `fullname` that went away.
    pub fn removed_event(fullname: String) -> (e: MdnsEvent)
        ensures
            e matches MdnsEvent::Removed(n) && n == fullname,
    {
        MdnsEvent::Removed(fullname)
    }
}

} // verus!
