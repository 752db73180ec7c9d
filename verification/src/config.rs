//! The configuration translator: from the flat record that a user edits to
//! the structured configuration that an engine instance is started with.
//!
//! Translation is a function of the record alone. It checks the fields in a
//! fixed order and stops at the first one that does not read.

use crate::ipv4::{ipv4_of, parse_ipv4, Ipv4Address};
use crate::notation::{
    answer, ip_cidr_text, ipv4_cidr_text, read_ip_cidr, read_ipv4_cidr, read_uri, read_uuid,
    uri_text, uuid_text,
};
use crate::text::{format_i32, signed_decimal};
use vstd::prelude::*;

verus! {

/// How an instance finds its peers.
#[derive(Clone, Copy, PartialEq, Eq, Structural, Debug)]
pub enum NetworkingMethod {
    PublicServer,
    Manual,
    Standalone,
}

impl Default for NetworkingMethod {
    fn default() -> (m: NetworkingMethod)
        ensures
            m == NetworkingMethod::PublicServer,
    {
        NetworkingMethod::PublicServer
    }
}

/// The flat, user-editable record. Only the fields of the selected
/// networking method are read; the others are ignored, not checked.
#[derive(Debug)]
pub struct NetworkConfig {
    pub instance_id: String,
    pub dhcp: bool,
    pub virtual_ipv4: String,
    pub hostname: Option<String>,
    pub network_name: String,
    pub network_secret: String,
    pub networking_method: NetworkingMethod,
    pub public_server_url: String,
    pub peer_urls: Vec<String>,
    pub proxy_cidrs: Vec<String>,
    pub enable_vpn_portal: bool,
    pub vpn_portal_listen_port: i32,
    pub vpn_portal_client_network_addr: String,
    pub vpn_portal_client_network_len: i32,
    pub advanced_settings: bool,
    pub listener_urls: Vec<String>,
    pub rpc_port: i32,
    pub latency_first: bool,
}

impl Default for NetworkConfig {
    fn default() -> (cfg: NetworkConfig)
        ensures
            cfg.instance_id@.len() == 0,
            !cfg.dhcp,
            cfg.virtual_ipv4@.len() == 0,
            cfg.hostname is None,
            cfg.network_name@.len() == 0,
            cfg.network_secret@.len() == 0,
            cfg.networking_method == NetworkingMethod::PublicServer,
            cfg.public_server_url@.len() == 0,
            cfg.peer_urls@.len() == 0,
            cfg.proxy_cidrs@.len() == 0,
            !cfg.enable_vpn_portal,
            cfg.vpn_portal_listen_port == 0,
            cfg.vpn_portal_client_network_addr@.len() == 0,
            cfg.vpn_portal_client_network_len == 0,
            !cfg.advanced_settings,
            cfg.listener_urls@.len() == 0,
            cfg.rpc_port == 0,
            !cfg.latency_first,
    {
        NetworkConfig {
            instance_id: String::new(),
            dhcp: false,
            virtual_ipv4: String::new(),
            hostname: None,
            network_name: String::new(),
            network_secret: String::new(),
            networking_method: NetworkingMethod::PublicServer,
            public_server_url: String::new(),
            peer_urls: Vec::new(),
            proxy_cidrs: Vec::new(),
            enable_vpn_portal: false,
            vpn_portal_listen_port: 0,
            vpn_portal_client_network_addr: String::new(),
            vpn_portal_client_network_len: 0,
            advanced_settings: false,
            listener_urls: Vec::new(),
            rpc_port: 0,
            latency_first: false,
        }
    }
}

/// Which check a configuration failed.
#[derive(Clone, Copy, PartialEq, Eq, Structural, Debug)]
pub enum ConfigErrorKind {
    InvalidIdentifier,
    InvalidVirtualIpv4,
    InvalidPublicServerUrl,
    InvalidPeerUrl,
    InvalidListenerUrl,
    InvalidProxyCidr,
    InvalidRpcPort,
    InvalidVpnPortalClientCidr,
    InvalidVpnPortalListenPort,
}

/// A failed check, with the text that did not read.
#[derive(Debug)]
pub struct ConfigError {
    pub kind: ConfigErrorKind,
    pub value: String,
}

/// A `ConfigError` by the characters of its text.
pub struct ConfigFailure {
    pub kind: ConfigErrorKind,
    pub value: Seq<char>,
}

impl View for ConfigError {
    type V = ConfigFailure;

    open spec fn view(&self) -> ConfigFailure {
        ConfigFailure { kind: self.kind, value: self.value@ }
    }
}

/// The gateway that opens the network to tunnel clients.
#[derive(Debug)]
pub struct VpnPortalConfig {
    pub client_cidr: String,
    pub wireguard_listen_port: u16,
}

/// A `VpnPortalConfig` by the characters of its texts.
pub struct VpnPortalView {
    pub client_cidr: Seq<char>,
    pub wireguard_listen_port: u16,
}

impl View for VpnPortalConfig {
    type V = VpnPortalView;

    open spec fn view(&self) -> VpnPortalView {
        VpnPortalView {
            client_cidr: self.client_cidr@,
            wireguard_listen_port: self.wireguard_listen_port,
        }
    }
}

/// The configuration that an engine instance is started with. Every text in
/// it has been read once and is held as its reader wrote it back. The RPC
/// portal and the VPN portal listen on all interfaces, at the ports given.
#[derive(Debug)]
pub struct StructuredConfig {
    pub instance_id: String,
    pub hostname: Option<String>,
    pub dhcp: bool,
    pub instance_name: String,
    pub network_name: String,
    pub network_secret: String,
    pub ipv4: Option<Ipv4Address>,
    pub peers: Vec<String>,
    pub listeners: Vec<String>,
    pub proxy_cidrs: Vec<String>,
    pub rpc_portal_port: u16,
    pub vpn_portal: Option<VpnPortalConfig>,
    pub latency_first: bool,
}

/// A `StructuredConfig` by the characters of its texts.
pub struct StructuredConfigView {
    pub instance_id: Seq<char>,
    pub hostname: Option<Seq<char>>,
    pub dhcp: bool,
    pub instance_name: Seq<char>,
    pub network_name: Seq<char>,
    pub network_secret: Seq<char>,
    pub ipv4: Option<Ipv4Address>,
    pub peers: Seq<Seq<char>>,
    pub listeners: Seq<Seq<char>>,
    pub proxy_cidrs: Seq<Seq<char>>,
    pub rpc_portal_port: u16,
    pub vpn_portal: Option<VpnPortalView>,
    pub latency_first: bool,
}

/// The characters of each text of a list.
pub open spec fn texts(list: Seq<String>) -> Seq<Seq<char>> {
    Seq::new(list.len(), |i: int| list[i]@)
}

/// The portal of a configuration, if it has one, by its view.
pub open spec fn portal_view(portal: Option<VpnPortalConfig>) -> Option<VpnPortalView> {
    match portal {
        Some(p) => Some(p@),
        None => None,
    }
}

impl View for StructuredConfig {
    type V = StructuredConfigView;

    open spec fn view(&self) -> StructuredConfigView {
        StructuredConfigView {
            instance_id: self.instance_id@,
            hostname: answer(self.hostname),
            dhcp: self.dhcp,
            instance_name: self.instance_name@,
            network_name: self.network_name@,
            network_secret: self.network_secret@,
            ipv4: self.ipv4,
            peers: texts(self.peers@),
            listeners: texts(self.listeners@),
            proxy_cidrs: texts(self.proxy_cidrs@),
            rpc_portal_port: self.rpc_portal_port,
            vpn_portal: portal_view(self.vpn_portal),
            latency_first: self.latency_first,
        }
    }
}

/// The notation in which the entries of a list are written.
#[derive(Clone, Copy, PartialEq, Eq, Structural, Debug)]
pub enum Notation {
    Uri,
    IpCidr,
}

/// What the notation's reader makes of one entry.
pub open spec fn entry_text(notation: Notation, entry: Seq<char>) -> Option<Seq<char>> {
    match notation {
        Notation::Uri => uri_text(entry),
        Notation::IpCidr => ip_cidr_text(entry),
    }
}

/// `head` put before a list that was read, or the failure of that reading.
pub open spec fn after(head: Seq<Seq<char>>, rest: Result<Seq<Seq<char>>, Seq<char>>) -> Result<
    Seq<Seq<char>>,
    Seq<char>,
> {
    match rest {
        Ok(tail) => Ok(head + tail),
        Err(entry) => Err(entry),
    }
}

/// A list read entry by entry from the left: the entries as their reader
/// wrote them back, or the first entry that did not read. With `skip_empty`
/// an empty entry is passed over; without it, it is read like any other.
pub open spec fn entries_read(notation: Notation, skip_empty: bool, list: Seq<Seq<char>>) -> Result<
    Seq<Seq<char>>,
    Seq<char>,
>
    decreases list.len(),
{
    if list.len() == 0 {
        Ok(Seq::empty())
    } else if skip_empty && list[0].len() == 0 {
        entries_read(notation, skip_empty, list.drop_first())
    } else {
        match entry_text(notation, list[0]) {
            Some(text) => after(seq![text], entries_read(notation, skip_empty, list.drop_first())),
            None => Err(list[0]),
        }
    }
}

/// A list that was read or the entry that failed, by their characters.
pub open spec fn list_view(r: Result<Vec<String>, String>) -> Result<Seq<Seq<char>>, Seq<char>> {
    match r {
        Ok(list) => Ok(texts(list@)),
        Err(entry) => Err(entry@),
    }
}

fn read_entry(notation: Notation, entry: &str) -> (r: Option<String>)
    ensures
        answer(r) == entry_text(notation, entry@),
{
    match notation {
        Notation::Uri => read_uri(entry),
        Notation::IpCidr => read_ip_cidr(entry),
    }
}

/// Reads a list of texts in one notation, from the left, and stops at the
/// first entry that does not read.
pub fn read_entries(notation: Notation, skip_empty: bool, list: &Vec<String>) -> (r: Result<
    Vec<String>,
    String,
>)
    ensures
        list_view(r) == entries_read(notation, skip_empty, texts(list@)),
{
    let ghost all = texts(list@);
    let mut out: Vec<String> = Vec::new();
    let mut i: usize = 0;
    proof {
        assert(all.skip(0) =~= all);
        assert(texts(out@) + Seq::<Seq<char>>::empty() =~= texts(out@));
    }
    while i < list.len()
        invariant
            i <= list.len(),
            all == texts(list@),
            entries_read(notation, skip_empty, all) == after(
                texts(out@),
                entries_read(notation, skip_empty, all.skip(i as int)),
            ),
        decreases list.len() - i,
    {
        let entry = &list[i];
        let ghost rest = all.skip(i as int);
        proof {
            assert(rest.len() > 0);
            assert(rest[0] == entry@);
            assert(rest.drop_first() =~= all.skip(i + 1));
        }
        if skip_empty && entry.as_str().is_empty() {
        } else {
            match read_entry(notation, entry.as_str()) {
                Some(text) => {
                    let ghost before = texts(out@);
                    let ghost tail = entries_read(notation, skip_empty, all.skip(i + 1));
                    out.push(text);
                    proof {
                        assert(texts(out@) =~= before + seq![text@]);
                        if let Ok(t) = tail {
                            assert(before + (seq![text@] + t) =~= texts(out@) + t);
                        }
                    }
                },
                None => {
                    return Err(entry.clone());
                },
            }
        }
        i = i + 1;
    }
    proof {
        assert(texts(out@) + Seq::<Seq<char>>::empty() =~= texts(out@));
    }
    Ok(out)
}

/// The failure of the check `kind` on the text `value`.
pub open spec fn failure(kind: ConfigErrorKind, value: Seq<char>) -> ConfigFailure {
    ConfigFailure { kind, value }
}

/// The virtual address: read only where DHCP is off and a text is given.
pub open spec fn address_checked(cfg: NetworkConfig) -> Result<Option<Ipv4Address>, ConfigFailure> {
    if !cfg.dhcp && cfg.virtual_ipv4@.len() > 0 {
        match ipv4_of(cfg.virtual_ipv4@) {
            Some(ip) => Ok(Some(ip)),
            None => Err(failure(ConfigErrorKind::InvalidVirtualIpv4, cfg.virtual_ipv4@)),
        }
    } else {
        Ok(None)
    }
}

/// The peers, as the networking method gives them: the one public server,
/// the non-empty entries of the manual list, or none.
pub open spec fn peers_checked(cfg: NetworkConfig) -> Result<Seq<Seq<char>>, ConfigFailure> {
    match cfg.networking_method {
        NetworkingMethod::PublicServer => match uri_text(cfg.public_server_url@) {
            Some(uri) => Ok(seq![uri]),
            None => Err(failure(ConfigErrorKind::InvalidPublicServerUrl, cfg.public_server_url@)),
        },
        NetworkingMethod::Manual => match entries_read(Notation::Uri, true, texts(cfg.peer_urls@)) {
            Ok(list) => Ok(list),
            Err(entry) => Err(failure(ConfigErrorKind::InvalidPeerUrl, entry)),
        },
        NetworkingMethod::Standalone => Ok(Seq::empty()),
    }
}

/// The listeners: the non-empty entries of the list.
pub open spec fn listeners_checked(cfg: NetworkConfig) -> Result<Seq<Seq<char>>, ConfigFailure> {
    match entries_read(Notation::Uri, true, texts(cfg.listener_urls@)) {
        Ok(list) => Ok(list),
        Err(entry) => Err(failure(ConfigErrorKind::InvalidListenerUrl, entry)),
    }
}

/// The proxied networks: every entry of the list, an empty one too.
pub open spec fn proxies_checked(cfg: NetworkConfig) -> Result<Seq<Seq<char>>, ConfigFailure> {
    match entries_read(Notation::IpCidr, false, texts(cfg.proxy_cidrs@)) {
        Ok(list) => Ok(list),
        Err(entry) => Err(failure(ConfigErrorKind::InvalidProxyCidr, entry)),
    }
}

/// A port to listen on at all interfaces: any number from 0 to 65535. A
/// number outside that range fails the check `kind`, with the number in
/// decimal as the failing text.
pub open spec fn port_checked(port: i32, kind: ConfigErrorKind) -> Result<u16, ConfigFailure> {
    if 0 <= port <= 65535 {
        Ok(port as u16)
    } else {
        Err(failure(kind, signed_decimal(port as int)))
    }
}

/// The client network of the VPN portal as it is handed to its reader: the
/// address, a slash, and the prefix length in decimal.
pub open spec fn client_cidr_notation(cfg: NetworkConfig) -> Seq<char> {
    cfg.vpn_portal_client_network_addr@ + seq!['/'] + signed_decimal(
        cfg.vpn_portal_client_network_len as int,
    )
}

/// The VPN portal: left out where it is not enabled; else its client
/// network is read first, its listen port second.
pub open spec fn portal_checked(cfg: NetworkConfig) -> Result<Option<VpnPortalView>, ConfigFailure> {
    if cfg.enable_vpn_portal {
        match ipv4_cidr_text(client_cidr_notation(cfg)) {
            None => Err(
                failure(ConfigErrorKind::InvalidVpnPortalClientCidr, client_cidr_notation(cfg)),
            ),
            Some(client_cidr) => match port_checked(
                cfg.vpn_portal_listen_port,
                ConfigErrorKind::InvalidVpnPortalListenPort,
            ) {
                Ok(wireguard_listen_port) => Ok(
                    Some(VpnPortalView { client_cidr, wireguard_listen_port }),
                ),
                Err(e) => Err(e),
            },
        }
    } else {
        Ok(None)
    }
}

/// The translation of `cfg`: the structured configuration, or the first
/// check that fails, in this order: identifier, virtual address, peers,
/// listeners, proxied networks, RPC port, VPN portal.
pub open spec fn translated(cfg: NetworkConfig) -> Result<StructuredConfigView, ConfigFailure> {
    match uuid_text(cfg.instance_id@) {
        None => Err(failure(ConfigErrorKind::InvalidIdentifier, cfg.instance_id@)),
        Some(instance_id) => match address_checked(cfg) {
            Err(e) => Err(e),
            Ok(ipv4) => match peers_checked(cfg) {
                Err(e) => Err(e),
                Ok(peers) => match listeners_checked(cfg) {
                    Err(e) => Err(e),
                    Ok(listeners) => match proxies_checked(cfg) {
                        Err(e) => Err(e),
                        Ok(proxy_cidrs) => match port_checked(
                            cfg.rpc_port,
                            ConfigErrorKind::InvalidRpcPort,
                        ) {
                            Err(e) => Err(e),
                            Ok(rpc_portal_port) => match portal_checked(cfg) {
                                Err(e) => Err(e),
                                Ok(vpn_portal) => Ok(
                                    StructuredConfigView {
                                        instance_id,
                                        hostname: answer(cfg.hostname),
                                        dhcp: cfg.dhcp,
                                        instance_name: cfg.network_name@,
                                        network_name: cfg.network_name@,
                                        network_secret: cfg.network_secret@,
                                        ipv4,
                                        peers,
                                        listeners,
                                        proxy_cidrs,
                                        rpc_portal_port,
                                        vpn_portal,
                                        latency_first: cfg.latency_first,
                                    },
                                ),
                            },
                        },
                    },
                },
            },
        },
    }
}

/// What a translation returned, by the characters of its texts.
pub open spec fn outcome(r: Result<StructuredConfig, ConfigError>) -> Result<
    StructuredConfigView,
    ConfigFailure,
> {
    match r {
        Ok(cfg) => Ok(cfg@),
        Err(e) => Err(e@),
    }
}

/// A result of one check, by the characters of its error's text.
pub open spec fn checked<T>(r: Result<T, ConfigError>) -> Result<T, ConfigFailure> {
    match r {
        Ok(v) => Ok(v),
        Err(e) => Err(e@),
    }
}

/// A list that one check returned, by the characters of its texts.
pub open spec fn checked_list(r: Result<Vec<String>, ConfigError>) -> Result<
    Seq<Seq<char>>,
    ConfigFailure,
> {
    match r {
        Ok(list) => Ok(texts(list@)),
        Err(e) => Err(e@),
    }
}

/// A portal that one check returned, by the characters of its texts.
pub open spec fn checked_portal(r: Result<Option<VpnPortalConfig>, ConfigError>) -> Result<
    Option<VpnPortalView>,
    ConfigFailure,
> {
    match r {
        Ok(portal) => Ok(portal_view(portal)),
        Err(e) => Err(e@),
    }
}

fn copy_of(text: &Option<String>) -> (r: Option<String>)
    ensures
        answer(r) == answer(*text),
{
    match text {
        Some(t) => Some(t.clone()),
        None => None,
    }
}

/// Checks that `port` can be listened on, for the check `kind`.
pub fn check_port(port: i32, kind: ConfigErrorKind) -> (r: Result<u16, ConfigError>)
    ensures
        checked(r) == port_checked(port, kind),
{
    if 0 <= port && port <= 65535 {
        Ok(port as u16)
    } else {
        Err(ConfigError { kind, value: format_i32(port) })
    }
}

impl NetworkConfig {
    fn check_address(&self) -> (r: Result<Option<Ipv4Address>, ConfigError>)
        ensures
            checked(r) == address_checked(*self),
    {
        if !self.dhcp && !self.virtual_ipv4.as_str().is_empty() {
            match parse_ipv4(self.virtual_ipv4.as_str()) {
                Some(ip) => Ok(Some(ip)),
                None => Err(
                    ConfigError {
                        kind: ConfigErrorKind::InvalidVirtualIpv4,
                        value: self.virtual_ipv4.clone(),
                    },
                ),
            }
        } else {
            Ok(None)
        }
    }

    fn check_peers(&self) -> (r: Result<Vec<String>, ConfigError>)
        ensures
            checked_list(r) == peers_checked(*self),
    {
        match self.networking_method {
            NetworkingMethod::PublicServer => match read_uri(self.public_server_url.as_str()) {
                Some(uri) => {
                    let mut peers: Vec<String> = Vec::new();
                    peers.push(uri);
                    assert(texts(peers@) =~= seq![uri@]);
                    Ok(peers)
                },
                None => Err(
                    ConfigError {
                        kind: ConfigErrorKind::InvalidPublicServerUrl,
                        value: self.public_server_url.clone(),
                    },
                ),
            },
            NetworkingMethod::Manual => match read_entries(Notation::Uri, true, &self.peer_urls) {
                Ok(peers) => Ok(peers),
                Err(entry) => Err(
                    ConfigError { kind: ConfigErrorKind::InvalidPeerUrl, value: entry },
                ),
            },
            NetworkingMethod::Standalone => {
                let peers: Vec<String> = Vec::new();
                assert(texts(peers@) =~= Seq::<Seq<char>>::empty());
                Ok(peers)
            },
        }
    }

    fn check_listeners(&self) -> (r: Result<Vec<String>, ConfigError>)
        ensures
            checked_list(r) == listeners_checked(*self),
    {
        match read_entries(Notation::Uri, true, &self.listener_urls) {
            Ok(listeners) => Ok(listeners),
            Err(entry) => Err(
                ConfigError { kind: ConfigErrorKind::InvalidListenerUrl, value: entry },
            ),
        }
    }

    fn check_proxies(&self) -> (r: Result<Vec<String>, ConfigError>)
        ensures
            checked_list(r) == proxies_checked(*self),
    {
        match read_entries(Notation::IpCidr, false, &self.proxy_cidrs) {
            Ok(networks) => Ok(networks),
            Err(entry) => Err(ConfigError { kind: ConfigErrorKind::InvalidProxyCidr, value: entry }),
        }
    }

    fn check_portal(&self) -> (r: Result<Option<VpnPortalConfig>, ConfigError>)
        ensures
            checked_portal(r) == portal_checked(*self),
    {
        if !self.enable_vpn_portal {
            return Ok(None);
        }
        let mut notation = self.vpn_portal_client_network_addr.clone();
        notation.push('/');
        let length = format_i32(self.vpn_portal_client_network_len);
        notation.append(length.as_str());
        assert(notation@ =~= client_cidr_notation(*self));
        match read_ipv4_cidr(notation.as_str()) {
            None => Err(
                ConfigError { kind: ConfigErrorKind::InvalidVpnPortalClientCidr, value: notation },
            ),
            Some(client_cidr) => match check_port(
                self.vpn_portal_listen_port,
                ConfigErrorKind::InvalidVpnPortalListenPort,
            ) {
                Ok(wireguard_listen_port) => Ok(
                    Some(VpnPortalConfig { client_cidr, wireguard_listen_port }),
                ),
                Err(e) => Err(e),
            },
        }
    }

    /// Translates the record into the configuration of an engine instance.
    /// The result is `translated` of the record: the same record always
    /// gives the same configuration or the same error, and an error names
    /// the first check that failed together with the text that failed it.
    pub fn gen_config(&self) -> (r: Result<StructuredConfig, ConfigError>)
        ensures
            outcome(r) == translated(*self),
    {
        let instance_id = match read_uuid(self.instance_id.as_str()) {
            Some(id) => id,
            None => {
                return Err(
                    ConfigError {
                        kind: ConfigErrorKind::InvalidIdentifier,
                        value: self.instance_id.clone(),
                    },
                );
            },
        };
        let ipv4 = match self.check_address() {
            Ok(ipv4) => ipv4,
            Err(e) => {
                return Err(e);
            },
        };
        let peers = match self.check_peers() {
            Ok(peers) => peers,
            Err(e) => {
                return Err(e);
            },
        };
        let listeners = match self.check_listeners() {
            Ok(listeners) => listeners,
            Err(e) => {
                return Err(e);
            },
        };
        let proxy_cidrs = match self.check_proxies() {
            Ok(networks) => networks,
            Err(e) => {
                return Err(e);
            },
        };
        let rpc_portal_port = match check_port(self.rpc_port, ConfigErrorKind::InvalidRpcPort) {
            Ok(port) => port,
            Err(e) => {
                return Err(e);
            },
        };
        let vpn_portal = match self.check_portal() {
            Ok(portal) => portal,
            Err(e) => {
                return Err(e);
            },
        };
        Ok(
            StructuredConfig {
                instance_id,
                hostname: copy_of(&self.hostname),
                dhcp: self.dhcp,
                instance_name: self.network_name.clone(),
                network_name: self.network_name.clone(),
                network_secret: self.network_secret.clone(),
                ipv4,
                peers,
                listeners,
                proxy_cidrs,
                rpc_portal_port,
                vpn_portal,
                latency_first: self.latency_first,
            },
        )
    }
}

/// The name of the field that the check `kind` reads.
pub open spec fn field_of(kind: ConfigErrorKind) -> Seq<char> {
    match kind {
        ConfigErrorKind::InvalidIdentifier => "instance_id"@,
        ConfigErrorKind::InvalidVirtualIpv4 => "virtual_ipv4"@,
        ConfigErrorKind::InvalidPublicServerUrl => "public_server_url"@,
        ConfigErrorKind::InvalidPeerUrl => "peer_urls"@,
        ConfigErrorKind::InvalidListenerUrl => "listener_urls"@,
        ConfigErrorKind::InvalidProxyCidr => "proxy_cidrs"@,
        ConfigErrorKind::InvalidRpcPort => "rpc_port"@,
        ConfigErrorKind::InvalidVpnPortalClientCidr => "vpn_portal_client_network_addr"@,
        ConfigErrorKind::InvalidVpnPortalListenPort => "vpn_portal_listen_port"@,
    }
}

/// How the message of a failed check begins.
pub open spec fn message_head(kind: ConfigErrorKind) -> Seq<char> {
    match kind {
        ConfigErrorKind::InvalidIdentifier => "failed to parse instance id: "@,
        ConfigErrorKind::InvalidVirtualIpv4 => "failed to parse ipv4 address: "@,
        ConfigErrorKind::InvalidPublicServerUrl => "failed to parse public server uri: "@,
        ConfigErrorKind::InvalidPeerUrl => "failed to parse peer uri: "@,
        ConfigErrorKind::InvalidListenerUrl => "failed to parse listener uri: "@,
        ConfigErrorKind::InvalidProxyCidr => "failed to parse proxy network: "@,
        ConfigErrorKind::InvalidRpcPort => "failed to parse rpc portal port: "@,
        ConfigErrorKind::InvalidVpnPortalClientCidr => "failed to parse vpn portal client cidr: "@,
        ConfigErrorKind::InvalidVpnPortalListenPort => "failed to parse vpn portal wireguard listen port. "@,
    }
}

impl ConfigError {
    /// The name of the field whose text did not read.
    pub fn field_name(&self) -> (name: &'static str)
        ensures
            name@ == field_of(self.kind),
    {
        match self.kind {
            ConfigErrorKind::InvalidIdentifier => "instance_id",
            ConfigErrorKind::InvalidVirtualIpv4 => "virtual_ipv4",
            ConfigErrorKind::InvalidPublicServerUrl => "public_server_url",
            ConfigErrorKind::InvalidPeerUrl => "peer_urls",
            ConfigErrorKind::InvalidListenerUrl => "listener_urls",
            ConfigErrorKind::InvalidProxyCidr => "proxy_cidrs",
            ConfigErrorKind::InvalidRpcPort => "rpc_port",
            ConfigErrorKind::InvalidVpnPortalClientCidr => "vpn_portal_client_network_addr",
            ConfigErrorKind::InvalidVpnPortalListenPort => "vpn_portal_listen_port",
        }
    }

    /// The message for the caller: what was being read, then the text that
    /// did not read.
    pub fn message(&self) -> (m: String)
        ensures
            m@ == message_head(self.kind) + self.value@,
    {
        let head: &'static str = match self.kind {
            ConfigErrorKind::InvalidIdentifier => "failed to parse instance id: ",
            ConfigErrorKind::InvalidVirtualIpv4 => "failed to parse ipv4 address: ",
            ConfigErrorKind::InvalidPublicServerUrl => "failed to parse public server uri: ",
            ConfigErrorKind::InvalidPeerUrl => "failed to parse peer uri: ",
            ConfigErrorKind::InvalidListenerUrl => "failed to parse listener uri: ",
            ConfigErrorKind::InvalidProxyCidr => "failed to parse proxy network: ",
            ConfigErrorKind::InvalidRpcPort => "failed to parse rpc portal port: ",
            ConfigErrorKind::InvalidVpnPortalClientCidr => "failed to parse vpn portal client cidr: ",
            ConfigErrorKind::InvalidVpnPortalListenPort => "failed to parse vpn portal wireguard listen port. ",
        };
        let mut m = String::from_str(head);
        m.append(self.value.as_str());
        m
    }
}

/// Empty entries do not count where they are skipped: a list reads the same
/// with an empty entry at any place as without it.
pub proof fn lemma_empty_entry_skipped(
    notation: Notation,
    front: Seq<Seq<char>>,
    empty: Seq<char>,
    back: Seq<Seq<char>>,
)
    requires
        empty.len() == 0,
    ensures
        entries_read(notation, true, front + seq![empty] + back) == entries_read(
            notation,
            true,
            front + back,
        ),
    decreases front.len(),
{
    let with = front + seq![empty] + back;
    let without = front + back;
    if front.len() == 0 {
        assert(with.drop_first() =~= without);
    } else {
        let rest = front.drop_first();
        assert(with.drop_first() =~= rest + seq![empty] + back);
        assert(without.drop_first() =~= rest + back);
        assert(with[0] == without[0]);
        lemma_empty_entry_skipped(notation, rest, empty, back);
    }
}

/// A list of one entry that is not empty reads as that entry does.
pub proof fn lemma_single_entry_read(notation: Notation, skip_empty: bool, entry: Seq<char>)
    requires
        entry.len() > 0,
    ensures
        entries_read(notation, skip_empty, seq![entry]) == (match entry_text(notation, entry) {
            Some(text) => Ok::<Seq<Seq<char>>, Seq<char>>(seq![text]),
            None => Err::<Seq<Seq<char>>, Seq<char>>(entry),
        }),
{
    let list = seq![entry];
    assert(list.drop_first() =~= Seq::<Seq<char>>::empty());
    reveal_with_fuel(entries_read, 2);
    if let Some(text) = entry_text(notation, entry) {
        assert(seq![text] + Seq::<Seq<char>>::empty() =~= seq![text]);
    }
}

/// Empty entries around one entry that reads leave that entry alone: a
/// list of three with the first and the last empty reads as the one in the
/// middle, written back by its reader.
pub proof fn lemma_one_entry_between_empty(
    notation: Notation,
    before: Seq<char>,
    entry: Seq<char>,
    behind: Seq<char>,
)
    requires
        before.len() == 0,
        behind.len() == 0,
        entry.len() > 0,
        entry_text(notation, entry) is Some,
    ensures
        entries_read(notation, true, seq![before, entry, behind]) == Ok::<Seq<Seq<char>>, Seq<char>>(
            seq![entry_text(notation, entry)->Some_0],
        ),
{
    let none = Seq::<Seq<char>>::empty();
    assert(seq![before, entry, behind] =~= none + seq![before] + seq![entry, behind]);
    lemma_empty_entry_skipped(notation, none, before, seq![entry, behind]);
    assert(none + seq![entry, behind] =~= seq![entry] + seq![behind] + none);
    lemma_empty_entry_skipped(notation, seq![entry], behind, none);
    assert(seq![entry] + none =~= seq![entry]);
    lemma_single_entry_read(notation, true, entry);
}

/// A standalone record with DHCP on, no listeners, no proxied networks, no
/// VPN portal and a port to listen on translates whenever its identifier
/// reads, to a configuration without peers and without a VPN portal.
pub proof fn lemma_standalone_translates(cfg: NetworkConfig)
    requires
        cfg.networking_method == NetworkingMethod::Standalone,
        cfg.dhcp,
        cfg.listener_urls@.len() == 0,
        cfg.proxy_cidrs@.len() == 0,
        !cfg.enable_vpn_portal,
        0 <= cfg.rpc_port <= 65535,
        uuid_text(cfg.instance_id@) is Some,
    ensures
        translated(cfg) is Ok,
        translated(cfg)->Ok_0.peers.len() == 0,
        translated(cfg)->Ok_0.vpn_portal is None,
        translated(cfg)->Ok_0.instance_id == uuid_text(cfg.instance_id@)->Some_0,
        translated(cfg)->Ok_0.network_name == cfg.network_name@,
{
    assert(texts(cfg.listener_urls@) =~= Seq::<Seq<char>>::empty());
    assert(texts(cfg.proxy_cidrs@) =~= Seq::<Seq<char>>::empty());
}

/// A record that names a public server is rejected for the server's URI
/// whenever that URI does not read and the checks before it pass.
pub proof fn lemma_public_server_rejected(cfg: NetworkConfig)
    requires
        cfg.networking_method == NetworkingMethod::PublicServer,
        uuid_text(cfg.instance_id@) is Some,
        address_checked(cfg) is Ok,
        uri_text(cfg.public_server_url@) is None,
    ensures
        translated(cfg) == Err::<StructuredConfigView, ConfigFailure>(
            failure(ConfigErrorKind::InvalidPublicServerUrl, cfg.public_server_url@),
        ),
        field_of(translated(cfg)->Err_0.kind) == "public_server_url"@,
{
}

/// What the translation command returned, by the characters of its texts:
/// the configuration, or the message of the check that failed.
pub open spec fn command_outcome(r: Result<StructuredConfig, String>) -> Result<
    StructuredConfigView,
    Seq<char>,
> {
    match r {
        Ok(cfg) => Ok(cfg@),
        Err(message) => Err(message@),
    }
}

/// What the translation command answers for a record.
pub open spec fn command_answer(cfg: NetworkConfig) -> Result<StructuredConfigView, Seq<char>> {
    match translated(cfg) {
        Ok(config) => Ok(config),
        Err(e) => Err(message_head(e.kind) + e.value),
    }
}

/// The translation command: the configuration that the record translates
/// to, for the host to serialise, or the message of the first check that
/// failed.
pub fn parse_network_config(cfg: &NetworkConfig) -> (r: Result<StructuredConfig, String>)
    ensures
        command_outcome(r) == command_answer(*cfg),
{
    match cfg.gen_config() {
        Ok(config) => Ok(config),
        Err(e) => Err(e.message()),
    }
}

} // verus!
