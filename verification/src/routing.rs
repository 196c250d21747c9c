//! The routing table of the server: from the name that a session presents to
//! the backend address that the session is forwarded to.
//!
//! Keys are compared as they are written, character by character: `Foo` and
//! `foo` are two keys, and so are `::1` and `[::1]`.

use crate::addr::SocketAddress;
use vstd::hash_map::StringHashMap;
use vstd::prelude::*;

verus! {

/// The reserved key under which the configuration names the default backend.
pub open spec fn default_key() -> Seq<char> {
    "default"@
}

/// The backend of last resort: port 22 on the IPv4 loopback address.
pub open spec fn fallback_backend() -> SocketAddress {
    SocketAddress::V4 { bits: 0x7f00_0001, port: 22 }
}

/// The default backend of a server: the configured entry under the reserved
/// key if there is one, else the address given on the command line, else
/// the backend of last resort.
pub open spec fn effective_default(
    proxy: Map<Seq<char>, SocketAddress>,
    proxy_to: Option<SocketAddress>,
) -> SocketAddress {
    if proxy.contains_key(default_key()) {
        proxy[default_key()]
    } else {
        match proxy_to {
            Some(addr) => addr,
            None => fallback_backend(),
        }
    }
}

/// The key under which a session is routed: the name that the peer declared,
/// or without one the peer's address as text.
pub open spec fn spec_routing_key(peer_name: Option<Seq<char>>, remote: Seq<char>) -> Seq<char> {
    match peer_name {
        Some(name) => name,
        None => remote,
    }
}

/// The routing configuration of a server: backend addresses by key.
pub struct ServerConf {
    proxy: StringHashMap<SocketAddress>,
}

impl View for ServerConf {
    type V = Map<Seq<char>, SocketAddress>;

    closed spec fn view(&self) -> Map<Seq<char>, SocketAddress> {
        self.proxy@
    }
}

impl ServerConf {
    /// A configuration without entries.
    pub fn new() -> (r: Self)
        ensures
            r@ == Map::<Seq<char>, SocketAddress>::empty(),
    {
        ServerConf { proxy: StringHashMap::new() }
    }

    /// Sets the backend of a key. An earlier entry under the same key is
    /// replaced.
    pub fn insert(&mut self, key: String, backend: SocketAddress)
        ensures
            final(self)@ == old(self)@.insert(key@, backend),
    {
        self.proxy.insert(key, backend);
    }

    /// The backend that is configured under the key, if any.
    pub fn get(&self, key: &str) -> (r: Option<SocketAddress>)
        ensures
            r == if self@.contains_key(key@) {
                Some(self@[key@])
            } else {
                None
            },
    {
        match self.proxy.get(key) {
            Some(backend) => Some(*backend),
            None => None,
        }
    }
}

/// A routing table as a mathematical value.
pub ghost struct TableView {
    pub entries: Map<Seq<char>, SocketAddress>,
    pub default: SocketAddress,
}

impl TableView {
    /// The backend of a key: its entry if it has one, else the default.
    pub open spec fn lookup(self, key: Seq<char>) -> SocketAddress {
        if self.entries.contains_key(key) {
            self.entries[key]
        } else {
            self.default
        }
    }

    /// The table that a server builds at startup.
    pub open spec fn build(
        proxy: Map<Seq<char>, SocketAddress>,
        proxy_to: Option<SocketAddress>,
    ) -> TableView {
        TableView { entries: proxy, default: effective_default(proxy, proxy_to) }
    }
}

/// The routing table of a server. It is built once and never changes.
pub struct RoutingTable {
    entries: StringHashMap<SocketAddress>,
    default: SocketAddress,
}

impl View for RoutingTable {
    type V = TableView;

    closed spec fn view(&self) -> TableView {
        TableView { entries: self.entries@, default: self.default }
    }
}

impl RoutingTable {
    /// The table of a server with the given configuration and, if any, the
    /// default backend that was given on the command line.
    pub fn new(conf: ServerConf, proxy_to: Option<SocketAddress>) -> (r: RoutingTable)
        ensures
            r@ == TableView::build(conf@, proxy_to),
    {
        let default = match conf.get("default") {
            Some(backend) => backend,
            None => match proxy_to {
                Some(backend) => backend,
                None => SocketAddress::v4(127, 0, 0, 1, 22),
            },
        };
        RoutingTable { entries: conf.proxy, default }
    }

    /// The default backend.
    pub fn default_backend(&self) -> (r: SocketAddress)
        ensures
            r == self@.default,
    {
        self.default
    }

    /// The backend of a key: the entry whose key is exactly `key` if there
    /// is one, else the default backend.
    pub fn lookup(&self, key: &str) -> (r: SocketAddress)
        ensures
            r == self@.lookup(key@),
    {
        match self.entries.get(key) {
            Some(backend) => *backend,
            None => self.default,
        }
    }

    /// The backend of a session, from the name that its peer declared, if
    /// any, and the peer's address as text.
    pub fn route(&self, peer_name: Option<&str>, remote: &str) -> (r: SocketAddress)
        ensures
            r == self@.lookup(
                spec_routing_key(
                    match peer_name {
                        Some(name) => Some(name@),
                        None => None,
                    },
                    remote@,
                ),
            ),
    {
        self.lookup(routing_key(peer_name, remote))
    }
}

/// The key under which a session is routed: the name that the peer declared,
/// or without one the peer's address as text.
pub fn routing_key<'a>(peer_name: Option<&'a str>, remote: &'a str) -> (r: &'a str)
    ensures
        r@ == spec_routing_key(
            match peer_name {
                Some(name) => Some(name@),
                None => None,
            },
            remote@,
        ),
{
    match peer_name {
        Some(name) => name,
        None => remote,
    }
}

/// A lookup returns the entry of the key where the table has one, and the
/// default backend where it has none: one address for every key.
pub proof fn lemma_lookup_is_exact_match_or_default(table: TableView, key: Seq<char>)
    ensures
        table.entries.contains_key(key) ==> table.lookup(key) == table.entries[key],
        !table.entries.contains_key(key) ==> table.lookup(key) == table.default,
{
}

/// In the table that a server builds, the reserved key leads to the default
/// backend, whether or not the configuration has an entry for it; and a key
/// without an entry leads where the reserved key leads.
pub proof fn lemma_reserved_key_is_default(
    proxy: Map<Seq<char>, SocketAddress>,
    proxy_to: Option<SocketAddress>,
    key: Seq<char>,
)
    ensures
        TableView::build(proxy, proxy_to).lookup(default_key()) == effective_default(
            proxy,
            proxy_to,
        ),
        !proxy.contains_key(key) ==> TableView::build(proxy, proxy_to).lookup(key)
            == TableView::build(proxy, proxy_to).lookup(default_key()),
{
}

/// Without configuration and without an address on the command line, every
/// session goes to the backend of last resort.
pub proof fn lemma_unconfigured_server_routes_to_fallback(key: Seq<char>)
    ensures
        TableView::build(Map::empty(), None).lookup(key) == fallback_backend(),
{
}

} // verus!
