//! Networking values: peer identities and roles, transport addresses,
//! messages, block requests and announcements, and network settings.

use vstd::prelude::*;
use crate::bytes::{push_all, push_le, le_bytes, bytes32_is_zero, zeros32};
use crate::kernel::{Address, Hash32};
use crate::digest::{sha256, sha256_spec};
use crate::table::{Table, TableKey};

verus! {

/// The role a peer plays.
#[derive(Clone, Copy, Debug, PartialEq, Eq, Structural)]
pub enum PeerRole {
    Validator,
    FullNode,
    LightNode,
    Unknown,
}

/// The state of a connection to a peer.
#[derive(Clone, Copy, Debug, PartialEq, Eq, Structural)]
pub enum ConnectionState {
    Disconnected,
    Connecting,
    Handshake,
    Connected,
    Banned,
}

/// A peer's 32-byte identity.
#[derive(Clone, Copy, Debug, Hash)]
pub struct PeerId(pub [u8; 32]);

impl PartialEq for PeerId {
    fn eq(&self, other: &Self) -> (r: bool) {
        crate::bytes::bytes32_eq(&self.0, &other.0)
    }
}

impl Eq for PeerId {}

impl vstd::std_specs::cmp::PartialEqSpecImpl for PeerId {
    open spec fn obeys_eq_spec() -> bool {
        true
    }

    open spec fn eq_spec(&self, other: &PeerId) -> bool {
        self.0@ == other.0@
    }
}

impl TableKey for PeerId {
    type KV = Seq<u8>;

    open spec fn kview(&self) -> Seq<u8> {
        self.0@
    }

    fn key_eq(&self, other: &Self) -> (r: bool) {
        crate::bytes::bytes32_eq(&self.0, &other.0)
    }
}

impl From<[u8; 32]> for PeerId {
    fn from(bytes: [u8; 32]) -> (r: Self) {
        PeerId(bytes)
    }
}

impl vstd::std_specs::convert::FromSpecImpl<[u8; 32]> for PeerId {
    open spec fn obeys_from_spec() -> bool {
        true
    }

    open spec fn from_spec(bytes: [u8; 32]) -> Self {
        PeerId(bytes)
    }
}

impl PeerId {
    pub fn from_bytes(bytes: [u8; 32]) -> (r: Self)
        ensures
            r.0 == bytes,
    {
        PeerId(bytes)
    }

    pub fn as_bytes(&self) -> (r: &[u8; 32])
        ensures
            *r == self.0,
    {
        &self.0
    }

    /// Whether every byte is zero.
    pub fn is_zero(&self) -> (r: bool)
        ensures
            r == (self.0@ == zeros32()),
    {
        let r = bytes32_is_zero(&self.0);
        proof {
            if r {
                assert(self.0@ =~= zeros32());
            }
        }
        r
    }
}

/// A transport protocol.
#[derive(Clone, Copy, Debug, PartialEq, Eq, Structural)]
pub enum TransportProtocol {
    Tcp,
    Udp,
    Quic,
    WebSocket,
}

/// The short name of a transport protocol.
pub open spec fn protocol_name(p: TransportProtocol) -> Seq<char> {
    match p {
        TransportProtocol::Tcp => seq!['t', 'c', 'p'],
        TransportProtocol::Udp => seq!['u', 'd', 'p'],
        TransportProtocol::Quic => seq!['q', 'u', 'i', 'c'],
        TransportProtocol::WebSocket => seq!['w', 's'],
    }
}

impl TransportProtocol {
    pub fn as_str(&self) -> (r: &str)
        ensures
            r@ == protocol_name(*self),
    {
        proof {
            reveal_strlit("tcp");
            reveal_strlit("udp");
            reveal_strlit("quic");
            reveal_strlit("ws");
        }
        match self {
            TransportProtocol::Tcp => "tcp",
            TransportProtocol::Udp => "udp",
            TransportProtocol::Quic => "quic",
            TransportProtocol::WebSocket => "ws",
        }
    }
}

/// The decimal digits of a number, most significant first, without leading
/// zeros ("0" for zero).
pub open spec fn decimal(n: nat) -> Seq<char>
    decreases n,
{
    if n < 10 {
        seq![(n + 48) as char]
    } else {
        decimal(n / 10).push(((n % 10) + 48) as char)
    }
}

/// Formats an endpoint as host, port and protocol name separated by colons,
/// with `format!`. Trusted: the text is the host, a colon, the port in
/// decimal as `Display` for integers writes it, a colon and the protocol
/// name.
#[verifier::external_body]
fn format_endpoint(host: &str, port: u16, protocol: &str) -> (r: String)
    ensures
        r@ == host@ + seq![':'] + decimal(port as nat) + seq![':'] + protocol@,
{
    format!("{}:{}:{}", host, port, protocol)
}

/// A network endpoint.
#[derive(Clone, Debug)]
pub struct NetworkAddress {
    pub protocol: TransportProtocol,
    pub host: String,
    pub port: u16,
}

impl NetworkAddress {
    /// A TCP endpoint.
    pub fn new_ip(host: String, port: u16) -> (r: Self)
        ensures
            r.protocol == TransportProtocol::Tcp && r.host == host && r.port == port,
    {
        NetworkAddress { protocol: TransportProtocol::Tcp, host, port }
    }

    /// The endpoint as `host:port:protocol`.
    pub fn to_string(&self) -> (r: String)
        ensures
            r@ == self.host@ + seq![':'] + decimal(self.port as nat) + seq![':'] + protocol_name(self.protocol),
    {
        format_endpoint(self.host.as_str(), self.port, self.protocol.as_str())
    }
}

/// The kinds of network messages.
#[derive(Clone, Copy, Debug, PartialEq, Eq, Structural)]
pub enum NetworkMessageType {
    Handshake,
    BlockRequest,
    BlockResponse,
    BlockAnnounce,
    TransactionAnnounce,
    TransactionHashes,
    ConsensusMessage,
    VoteMessage,
    FinalitySignature,
    StateRequest,
    StateResponse,
    SnapshotRequest,
    SnapshotResponse,
    Ping,
    Pong,
    GetPeers,
    Peers,
    Unknown,
}

/// A message between peers.
#[derive(Clone, Debug)]
pub struct NetworkMessage {
    pub message_type: NetworkMessageType,
    pub sender: PeerId,
    pub receiver: Option<PeerId>,
    pub payload: Vec<u8>,
    pub timestamp: u64,
    pub request_id: Option<u64>,
}

impl NetworkMessage {
    /// Announces a block: the payload is the block number in 8
    /// little-endian bytes followed by the block hash.
    pub fn new_block_announce(block_hash: Hash32, block_number: u64, sender: PeerId) -> (r: Self)
        ensures
            r.message_type == NetworkMessageType::BlockAnnounce,
            r.sender == sender,
            r.receiver is None,
            r.payload@ == le_bytes(block_number as nat, 8) + block_hash.0@,
            r.timestamp == 0,
            r.request_id is None,
    {
        let mut payload: Vec<u8> = Vec::new();
        push_le(&mut payload, block_number as u128, 8);
        push_all(&mut payload, block_hash.0.as_slice());
        proof {
            assert(payload@ =~= le_bytes(block_number as nat, 8) + block_hash.0@);
        }
        NetworkMessage {
            message_type: NetworkMessageType::BlockAnnounce,
            sender,
            receiver: None,
            payload,
            timestamp: 0,
            request_id: None,
        }
    }

    /// A vote message carrying the vote's serialized form (the caller
    /// serializes it).
    pub fn new_vote_message(payload: Vec<u8>, sender: PeerId) -> (r: Self)
        ensures
            r == (NetworkMessage {
                message_type: NetworkMessageType::VoteMessage,
                sender,
                receiver: None,
                payload,
                timestamp: 0,
                request_id: None,
            }),
    {
        NetworkMessage {
            message_type: NetworkMessageType::VoteMessage,
            sender,
            receiver: None,
            payload,
            timestamp: 0,
            request_id: None,
        }
    }

    /// A finality signature message carrying the signature's serialized
    /// form.
    pub fn new_finality_signature(payload: Vec<u8>, sender: PeerId) -> (r: Self)
        ensures
            r == (NetworkMessage {
                message_type: NetworkMessageType::FinalitySignature,
                sender,
                receiver: None,
                payload,
                timestamp: 0,
                request_id: None,
            }),
    {
        NetworkMessage {
            message_type: NetworkMessageType::FinalitySignature,
            sender,
            receiver: None,
            payload,
            timestamp: 0,
            request_id: None,
        }
    }

    /// A consensus message carrying a proposal's serialized form.
    pub fn new_proposal(payload: Vec<u8>, sender: PeerId) -> (r: Self)
        ensures
            r == (NetworkMessage {
                message_type: NetworkMessageType::ConsensusMessage,
                sender,
                receiver: None,
                payload,
                timestamp: 0,
                request_id: None,
            }),
    {
        NetworkMessage {
            message_type: NetworkMessageType::ConsensusMessage,
            sender,
            receiver: None,
            payload,
            timestamp: 0,
            request_id: None,
        }
    }
}

/// The order in which requested blocks are sent.
#[derive(Clone, Copy, Debug, PartialEq, Eq, Structural)]
pub enum BlockRequestDirection {
    Ascending,
    Descending,
}

/// A request for blocks by hash or by number.
#[derive(Clone, Debug)]
pub struct BlockRequest {
    pub block_hashes: Vec<Hash32>,
    pub block_numbers: Vec<u64>,
    pub direction: BlockRequestDirection,
    pub max_blocks: u32,
}

impl BlockRequest {
    /// A descending request for the blocks with the given hashes.
    pub fn new_by_hash(hashes: Vec<Hash32>) -> (r: Self)
        ensures
            r.block_hashes == hashes,
            r.block_numbers@.len() == 0,
            r.direction == BlockRequestDirection::Descending,
            r.max_blocks == 64,
    {
        BlockRequest {
            block_hashes: hashes,
            block_numbers: Vec::new(),
            direction: BlockRequestDirection::Descending,
            max_blocks: 64,
        }
    }

    /// An ascending request for the blocks with the given numbers.
    pub fn new_by_number(block_numbers: Vec<u64>) -> (r: Self)
        ensures
            r.block_hashes@.len() == 0,
            r.block_numbers == block_numbers,
            r.direction == BlockRequestDirection::Ascending,
            r.max_blocks == 64,
    {
        BlockRequest {
            block_hashes: Vec::new(),
            block_numbers,
            direction: BlockRequestDirection::Ascending,
            max_blocks: 64,
        }
    }
}

/// A block as sent between peers.
#[derive(Clone, Debug)]
pub struct BlockData {
    pub hash: Hash32,
    pub number: u64,
    pub header: Vec<u8>,
    pub body: Vec<Vec<u8>>,
    pub receipts: Vec<Vec<u8>>,
}

/// The blocks answering a request.
#[derive(Clone, Debug)]
pub struct BlockResponse {
    pub blocks: Vec<BlockData>,
}

/// The announcement of a transaction.
#[derive(Clone, Copy, Debug)]
pub struct TransactionAnnounce {
    pub tx_hash: Hash32,
    pub sender: Address,
}

/// The announcement of a block.
#[derive(Clone, Debug)]
pub struct BlockAnnounce {
    pub header: Vec<u8>,
    pub block_hash: Hash32,
    pub number: u64,
    pub is_new_best: bool,
}

impl BlockAnnounce {
    pub fn new(header: Vec<u8>, block_hash: Hash32, number: u64, is_new_best: bool) -> (r: Self)
        ensures
            r.header == header && r.block_hash == block_hash && r.number == number && r.is_new_best == is_new_best,
    {
        BlockAnnounce { header, block_hash, number, is_new_best }
    }
}

/// Network settings.
#[derive(Clone, Debug)]
pub struct NetworkConfig {
    pub listen_addresses: Vec<NetworkAddress>,
    pub max_peers: u32,
    pub max_incoming_peers: u32,
    pub min_peers_for_sync: u32,
    pub ping_interval_ms: u64,
    pub connection_timeout_ms: u64,
    pub handshake_timeout_ms: u64,
    pub enable_tls: bool,
}

impl Default for NetworkConfig {
    fn default() -> (r: Self)
        ensures
            r.listen_addresses@.len() == 0,
            r.max_peers == 50 && r.max_incoming_peers == 10 && r.min_peers_for_sync == 3,
            r.ping_interval_ms == 30000 && r.connection_timeout_ms == 10000 && r.handshake_timeout_ms == 5000,
            !r.enable_tls,
    {
        NetworkConfig {
            listen_addresses: Vec::new(),
            max_peers: 50,
            max_incoming_peers: 10,
            min_peers_for_sync: 3,
            ping_interval_ms: 30000,
            connection_timeout_ms: 10000,
            handshake_timeout_ms: 5000,
            enable_tls: false,
        }
    }
}

/// What is known of a peer. Its quality score, a floating-point figure, is
/// kept by the application beside this record.
#[derive(Clone, Debug)]
pub struct PeerInfo {
    pub peer_id: PeerId,
    pub address: NetworkAddress,
    pub role: PeerRole,
    pub state: ConnectionState,
    pub protocol_version: u32,
    pub chain_id: u32,
    pub best_block: Option<(u64, Hash32)>,
    pub latency_ms: u64,
    pub last_message_time: u64,
    pub messages_sent: u64,
    pub messages_received: u64,
}

impl PeerInfo {
    /// A disconnected peer of unknown role, protocol version 1.
    pub fn new(peer_id: PeerId, address: NetworkAddress) -> (r: Self)
        ensures
            r.peer_id == peer_id && r.address == address,
            r.role == PeerRole::Unknown && r.state == ConnectionState::Disconnected,
            r.protocol_version == 1 && r.chain_id == 0 && r.best_block is None,
            r.latency_ms == 0 && r.last_message_time == 0 && r.messages_sent == 0 && r.messages_received == 0,
    {
        PeerInfo {
            peer_id,
            address,
            role: PeerRole::Unknown,
            state: ConnectionState::Disconnected,
            protocol_version: 1,
            chain_id: 0,
            best_block: None,
            latency_ms: 0,
            last_message_time: 0,
            messages_sent: 0,
            messages_received: 0,
        }
    }

    pub fn is_validator(&self) -> (r: bool)
        ensures
            r == (self.role == PeerRole::Validator),
    {
        self.role == PeerRole::Validator
    }

    /// Records the measured latency.
    pub fn update_latency(&mut self, latency_ms: u64)
        ensures
            *final(self) == (PeerInfo { latency_ms, ..*old(self) }),
    {
        self.latency_ms = latency_ms;
    }

    pub fn increment_sent(&mut self)
        requires
            old(self).messages_sent < u64::MAX,
        ensures
            *final(self) == (PeerInfo { messages_sent: (old(self).messages_sent + 1) as u64, ..*old(self) }),
    {
        self.messages_sent = self.messages_sent + 1;
    }

    pub fn increment_received(&mut self)
        requires
            old(self).messages_received < u64::MAX,
        ensures
            *final(self) == (PeerInfo { messages_received: (old(self).messages_received + 1) as u64, ..*old(self) }),
    {
        self.messages_received = self.messages_received + 1;
    }
}

/// The peers known by id, and the banned ones with their ban length.
pub ghost struct PeerSetView {
    pub peers: Map<Seq<u8>, PeerInfo>,
    pub banned: Map<Seq<u8>, u64>,
}

pub struct PeerSet {
    peers: Table<PeerId, PeerInfo>,
    banned_peers: Table<PeerId, u64>,
}

impl View for PeerSet {
    type V = PeerSetView;

    closed spec fn view(&self) -> PeerSetView {
        PeerSetView { peers: self.peers@, banned: self.banned_peers@ }
    }
}

/// The peers of `s` (in order) whose role is `role`.
pub open spec fn peers_with_role(s: Seq<(PeerId, PeerInfo)>, role: PeerRole) -> Seq<PeerInfo>
    decreases s.len(),
{
    if s.len() == 0 {
        Seq::empty()
    } else {
        peers_with_role(s.drop_last(), role) + if s.last().1.role == role {
            seq![s.last().1]
        } else {
            Seq::empty()
        }
    }
}

impl PeerSet {
    pub closed spec fn wf(&self) -> bool {
        self.peers.wf() && self.banned_peers.wf()
    }

    /// The peers in the order they were first added.
    pub closed spec fn peer_seq(&self) -> Seq<(PeerId, PeerInfo)> {
        self.peers.seq()
    }

    pub proof fn lemma_peer_seq(&self)
        requires
            self.wf(),
        ensures
            self@.peers.dom().len() == self.peer_seq().len(),
            forall|i: int| 0 <= i < self.peer_seq().len() ==> #[trigger] self@.peers.dom().contains(self.peer_seq()[i].0.0@),
    {
        self.peers.lemma_view();
    }

    pub fn new() -> (r: Self)
        ensures
            r.wf(),
            r@.peers == Map::<Seq<u8>, PeerInfo>::empty(),
            r@.banned == Map::<Seq<u8>, u64>::empty(),
    {
        PeerSet { peers: Table::new(), banned_peers: Table::new() }
    }

    /// Adds (or replaces) the peer under its id.
    pub fn add_peer(&mut self, peer: PeerInfo)
        requires
            old(self).wf(),
        ensures
            final(self).wf(),
            final(self)@ == (PeerSetView { peers: old(self)@.peers.insert(peer.peer_id.0@, peer), ..old(self)@ }),
    {
        let id = peer.peer_id;
        self.peers.insert(id, peer);
    }

    pub fn remove_peer(&mut self, peer_id: &PeerId) -> (r: Option<PeerInfo>)
        requires
            old(self).wf(),
        ensures
            final(self).wf(),
            final(self)@ == (PeerSetView { peers: old(self)@.peers.remove(peer_id.0@), ..old(self)@ }),
            r is Some <==> old(self)@.peers.dom().contains(peer_id.0@),
            r matches Some(p) ==> p == old(self)@.peers[peer_id.0@],
    {
        self.peers.remove(peer_id)
    }

    pub fn get_peer(&self, peer_id: &PeerId) -> (r: Option<&PeerInfo>)
        requires
            self.wf(),
        ensures
            r is Some <==> self@.peers.dom().contains(peer_id.0@),
            r matches Some(p) ==> *p == self@.peers[peer_id.0@],
    {
        self.peers.get(peer_id)
    }

    pub fn get_peer_mut(&mut self, peer_id: &PeerId) -> (r: Option<&mut PeerInfo>)
        requires
            old(self).wf(),
        ensures
            final(self).wf(),
            r is Some <==> old(self)@.peers.dom().contains(peer_id.0@),
            r is None ==> final(self)@ == old(self)@,
            r matches Some(p) ==> *p == old(self)@.peers[peer_id.0@] && final(self)@ == (PeerSetView {
                peers: old(self)@.peers.insert(peer_id.0@, *final(p)),
                ..old(self)@
            }),
    {
        match self.peers.get_mut(peer_id) {
            Some(p) => Some(p),
            None => None,
        }
    }

    /// Stores `peer_info` under its id.
    pub fn update_peer(&mut self, peer_info: PeerInfo)
        requires
            old(self).wf(),
        ensures
            final(self).wf(),
            final(self)@ == (PeerSetView {
                peers: old(self)@.peers.insert(peer_info.peer_id.0@, peer_info),
                ..old(self)@
            }),
    {
        let id = peer_info.peer_id;
        self.peers.insert(id, peer_info);
    }

    /// Bans a peer for `duration_blocks`; a known peer is marked banned.
    pub fn ban_peer(&mut self, peer_id: PeerId, duration_blocks: u64)
        requires
            old(self).wf(),
        ensures
            final(self).wf(),
            final(self)@.banned == old(self)@.banned.insert(peer_id.0@, duration_blocks),
            final(self)@.peers == if old(self)@.peers.dom().contains(peer_id.0@) {
                old(self)@.peers.insert(
                    peer_id.0@,
                    PeerInfo { state: ConnectionState::Banned, ..old(self)@.peers[peer_id.0@] },
                )
            } else {
                old(self)@.peers
            },
    {
        self.banned_peers.insert(peer_id, duration_blocks);
        if self.peers.contains_key(&peer_id) {
            match self.peers.get_mut(&peer_id) {
                Some(peer) => {
                    peer.state = ConnectionState::Banned;
                },
                None => {},
            }
        }
    }

    /// Lifts a ban; a known peer is marked connected. Says whether the peer
    /// was banned.
    pub fn unban_peer(&mut self, peer_id: &PeerId) -> (r: bool)
        requires
            old(self).wf(),
        ensures
            final(self).wf(),
            r == old(self)@.banned.dom().contains(peer_id.0@),
            !r ==> final(self)@ == old(self)@,
            r ==> final(self)@.banned == old(self)@.banned.remove(peer_id.0@) && final(self)@.peers == if old(self)@.peers.dom().contains(peer_id.0@) {
                old(self)@.peers.insert(
                    peer_id.0@,
                    PeerInfo { state: ConnectionState::Connected, ..old(self)@.peers[peer_id.0@] },
                )
            } else {
                old(self)@.peers
            },
    {
        if !self.banned_peers.contains_key(peer_id) {
            return false;
        }
        self.banned_peers.remove(peer_id);
        if self.peers.contains_key(peer_id) {
            match self.peers.get_mut(peer_id) {
                Some(peer) => {
                    peer.state = ConnectionState::Connected;
                },
                None => {},
            }
        }
        true
    }

    pub fn is_banned(&self, peer_id: &PeerId) -> (r: bool)
        requires
            self.wf(),
        ensures
            r == self@.banned.dom().contains(peer_id.0@),
    {
        self.banned_peers.contains_key(peer_id)
    }

    fn with_role(&self, role: PeerRole) -> (r: Vec<&PeerInfo>)
        requires
            self.wf(),
        ensures
            r@.map_values(|p: &PeerInfo| *p) == peers_with_role(self.peer_seq(), role),
    {
        let n = self.peers.len();
        let ghost src = self.peers.seq();
        let mut out: Vec<&PeerInfo> = Vec::new();
        let mut i: usize = 0;
        while i < n
            invariant
                src == self.peers.seq(),
                n == src.len(),
                i <= n,
                out@.map_values(|p: &PeerInfo| *p) == peers_with_role(src.take(i as int), role),
            decreases n - i,
        {
            proof {
                assert(src.take(i + 1).drop_last() =~= src.take(i as int));
            }
            let p = self.peers.value_at(i);
            if p.role == role {
                out.push(p);
            }
            assert(out@.map_values(|p: &PeerInfo| *p) =~= peers_with_role(src.take(i + 1), role));
            i = i + 1;
        }
        assert(src.take(n as int) =~= src);
        out
    }

    /// The validator peers, in the order they were added.
    pub fn validators(&self) -> (r: Vec<&PeerInfo>)
        requires
            self.wf(),
        ensures
            r@.map_values(|p: &PeerInfo| *p) == peers_with_role(self.peer_seq(), PeerRole::Validator),
    {
        self.with_role(PeerRole::Validator)
    }

    /// The full-node peers, in the order they were added.
    pub fn full_nodes(&self) -> (r: Vec<&PeerInfo>)
        requires
            self.wf(),
        ensures
            r@.map_values(|p: &PeerInfo| *p) == peers_with_role(self.peer_seq(), PeerRole::FullNode),
    {
        self.with_role(PeerRole::FullNode)
    }

    pub fn len(&self) -> (r: usize)
        requires
            self.wf(),
        ensures
            r == self@.peers.dom().len(),
    {
        self.peers.len()
    }

    pub fn is_empty(&self) -> (r: bool)
        requires
            self.wf(),
        ensures
            r == (self@.peers.dom().len() == 0),
    {
        self.peers.is_empty()
    }
}

impl Default for PeerSet {
    fn default() -> (r: Self)
        ensures
            r.wf(),
            r@.peers == Map::<Seq<u8>, PeerInfo>::empty(),
            r@.banned == Map::<Seq<u8>, u64>::empty(),
    {
        PeerSet::new()
    }
}

/// The digest a message is known by: its payload, sender and timestamp (8
/// little-endian bytes).
pub open spec fn message_hash(m: NetworkMessage) -> Seq<u8> {
    sha256_spec(m.payload@ + m.sender.0@ + le_bytes(m.timestamp as nat, 8))
}

/// Whether `k` is the excluded peer.
pub open spec fn is_excluded(exclude: Option<PeerId>, k: PeerId) -> bool {
    match exclude {
        Some(e) => e.0@ == k.0@,
        None => false,
    }
}

/// The connected peers of `s` (in order) other than the excluded one.
pub open spec fn connected_targets(s: Seq<(PeerId, PeerInfo)>, exclude: Option<PeerId>) -> Seq<PeerId>
    decreases s.len(),
{
    if s.len() == 0 {
        Seq::empty()
    } else {
        connected_targets(s.drop_last(), exclude) + if s.last().1.state == ConnectionState::Connected
            && !is_excluded(exclude, s.last().0) {
            seq![s.last().0]
        } else {
            Seq::empty()
        }
    }
}

/// What the gossip layer holds: the peers, the digests of messages seen
/// with their timestamps, each peer's seen digests, and the cache limits.
pub ghost struct GossipView {
    pub peer_set: PeerSetView,
    pub cache: Map<Seq<u8>, u64>,
    pub seen: Map<Seq<u8>, Set<Seq<u8>>>,
    pub max_cache_size: usize,
    pub message_ttl_ms: u64,
}

/// Gossip: each message is relayed once to the connected peers.
pub struct GossipProtocol {
    pub peer_set: PeerSet,
    message_cache: Table<Hash32, u64>,
    seen_messages: Table<PeerId, Table<Hash32, ()>>,
    max_cache_size: usize,
    message_ttl_ms: u64,
}

impl View for GossipProtocol {
    type V = GossipView;

    closed spec fn view(&self) -> GossipView {
        GossipView {
            peer_set: self.peer_set@,
            cache: self.message_cache@,
            seen: self.seen_messages@.map_values(|t: Table<Hash32, ()>| t@.dom()),
            max_cache_size: self.max_cache_size,
            message_ttl_ms: self.message_ttl_ms,
        }
    }
}

/// The digests seen from `peer` (none when it has no entry).
pub open spec fn seen_from(seen: Map<Seq<u8>, Set<Seq<u8>>>, peer: Seq<u8>) -> Set<Seq<u8>> {
    if seen.dom().contains(peer) {
        seen[peer]
    } else {
        Set::empty()
    }
}

impl GossipProtocol {
    pub closed spec fn wf(&self) -> bool {
        &&& self.peer_set.wf()
        &&& self.message_cache.wf()
        &&& self.seen_messages.wf()
        &&& forall|k: Seq<u8>| #[trigger] self.seen_messages@.dom().contains(k) ==> self.seen_messages@[k].wf()
    }

    /// The peers in the order they were first added.
    pub closed spec fn peer_seq(&self) -> Seq<(PeerId, PeerInfo)> {
        self.peer_set.peer_seq()
    }

    pub fn new() -> (r: Self)
        ensures
            r.wf(),
            r@.peer_set.peers == Map::<Seq<u8>, PeerInfo>::empty(),
            r@.peer_set.banned == Map::<Seq<u8>, u64>::empty(),
            r@.cache == Map::<Seq<u8>, u64>::empty(),
            r@.seen == Map::<Seq<u8>, Set<Seq<u8>>>::empty(),
            r@.max_cache_size == 10000 && r@.message_ttl_ms == 300000,
    {
        let r = GossipProtocol {
            peer_set: PeerSet::new(),
            message_cache: Table::new(),
            seen_messages: Table::new(),
            max_cache_size: 10000,
            message_ttl_ms: 300000,
        };
        assert(r@.seen =~= Map::<Seq<u8>, Set<Seq<u8>>>::empty());
        r
    }

    fn hash_message(message: &NetworkMessage) -> (r: Hash32)
        ensures
            r.0@ == message_hash(*message),
    {
        let mut data: Vec<u8> = Vec::new();
        push_all(&mut data, message.payload.as_slice());
        push_all(&mut data, message.sender.0.as_slice());
        push_le(&mut data, message.timestamp as u128, 8);
        Hash32(sha256(data.as_slice()))
    }

    /// Drops cached digests older than the time to live, measured from time
    /// 0: none is old enough to go, so the protocol is left as it is.
    fn prune_cache(&mut self)
        requires
            old(self).wf(),
        ensures
            final(self).wf(),
            *final(self) == *old(self),
    {
        let n = self.message_cache.len();
        let mut to_remove: Vec<Hash32> = Vec::new();
        let mut i: usize = 0;
        while i < n
            invariant
                self.wf(),
                n == self.message_cache.seq().len(),
                i <= n,
                to_remove@.len() == 0,
                *self == *old(self),
            decreases n - i,
        {
            let now: u64 = 0;
            let ts = *self.message_cache.value_at(i);
            if now.saturating_sub(ts) > self.message_ttl_ms {
                to_remove.push(*self.message_cache.key_at(i));
            }
            i = i + 1;
        }
        let mut j: usize = 0;
        while j < to_remove.len()
            invariant
                self.wf(),
                to_remove@.len() == 0,
                *self == *old(self),
            decreases to_remove@.len() - j,
        {
            self.message_cache.remove(&to_remove[j]);
            j = j + 1;
        }
    }

    /// Relays a message not seen before: records its digest and returns the
    /// connected peers, in the order they were added, but the excluded one.
    /// A message seen before goes nowhere.
    pub fn broadcast(&mut self, message: &NetworkMessage, exclude: Option<&PeerId>) -> (r: Vec<PeerId>)
        requires
            old(self).wf(),
        ensures
            final(self).wf(),
            old(self)@.cache.dom().contains(message_hash(*message)) ==> r@.len() == 0 && *final(self) == *old(self),
            !old(self)@.cache.dom().contains(message_hash(*message)) ==> {
                &&& final(self)@ == (GossipView {
                    cache: old(self)@.cache.insert(message_hash(*message), message.timestamp),
                    ..old(self)@
                })
                &&& r@ == connected_targets(
                    old(self).peer_seq(),
                    match exclude {
                        Some(e) => Some(*e),
                        None => None,
                    },
                )
            },
    {
        let message_hash = Self::hash_message(message);
        if self.message_cache.contains_key(&message_hash) {
            return Vec::new();
        }
        self.message_cache.insert(message_hash, message.timestamp);
        if self.message_cache.len() > self.max_cache_size {
            self.prune_cache();
        }
        let ghost ex = match exclude {
            Some(e) => Some(*e),
            None => None,
        };
        let ghost src = self.peer_set.peer_seq();
        let n = self.peer_set.len();
        proof {
            self.peer_set.lemma_peer_seq();
        }
        let ghost after = self@;
        let mut targets: Vec<PeerId> = Vec::new();
        let mut i: usize = 0;
        while i < n
            invariant
                self.wf(),
                self@ == after,
                ex == match exclude {
                    Some(e) => Some(*e),
                    None => None,
                },
                src == self.peer_set.peer_seq(),
                n == src.len(),
                i <= n,
                targets@ == connected_targets(src.take(i as int), ex),
            decreases n - i,
        {
            proof {
                assert(src.take(i + 1).drop_last() =~= src.take(i as int));
                assert(src.take(i + 1).last() == src[i as int]);
            }
            let (peer_id, state) = self.peer_set.entry_at(i);
            let skip = match exclude {
                Some(e) => crate::bytes::bytes32_eq(&peer_id.0, &e.0),
                None => false,
            };
            if state == ConnectionState::Connected && !skip {
                targets.push(peer_id);
            }
            assert(targets@ =~= connected_targets(src.take(i + 1), ex));
            i = i + 1;
        }
        assert(src.take(n as int) =~= src);
        targets
    }

    /// Counts a message sent to a connected peer; says whether it was.
    pub fn send_to(&mut self, message: &NetworkMessage, receiver: &PeerId) -> (r: bool)
        requires
            old(self).wf(),
            old(self)@.peer_set.peers.dom().contains(receiver.0@) ==> old(self)@.peer_set.peers[receiver.0@].messages_sent
                < u64::MAX,
        ensures
            final(self).wf(),
            r == (old(self)@.peer_set.peers.dom().contains(receiver.0@) && old(self)@.peer_set.peers[receiver.0@].state
                == ConnectionState::Connected),
            !r ==> final(self)@ == old(self)@,
            r ==> final(self)@ == (GossipView {
                peer_set: PeerSetView {
                    peers: old(self)@.peer_set.peers.insert(
                        receiver.0@,
                        PeerInfo {
                            messages_sent: (old(self)@.peer_set.peers[receiver.0@].messages_sent + 1) as u64,
                            ..old(self)@.peer_set.peers[receiver.0@]
                        },
                    ),
                    ..old(self)@.peer_set
                },
                ..old(self)@
            }),
    {
        match self.peer_set.get_peer(receiver) {
            Some(p) => {
                if p.state != ConnectionState::Connected {
                    return false;
                }
            },
            None => {
                return false;
            },
        }
        match self.peer_set.get_peer_mut(receiver) {
            Some(peer) => {
                peer.increment_sent();
            },
            None => {},
        }
        true
    }

    /// Takes in a message not seen before: notes its digest as seen from its
    /// sender, counts it for the sender, and caches the digest. A message
    /// seen before is refused.
    pub fn receive_message(&mut self, message: &NetworkMessage) -> (r: bool)
        requires
            old(self).wf(),
            old(self)@.peer_set.peers.dom().contains(message.sender.0@) ==> old(self)@.peer_set.peers[message.sender.0@].messages_received < u64::MAX,
        ensures
            final(self).wf(),
            r == !old(self)@.cache.dom().contains(message_hash(*message)),
            !r ==> final(self)@ == old(self)@,
            r ==> {
                let h = message_hash(*message);
                let s = message.sender.0@;
                &&& final(self)@.cache == old(self)@.cache.insert(h, message.timestamp)
                &&& final(self)@.seen == old(self)@.seen.insert(s, seen_from(old(self)@.seen, s).insert(h))
                &&& final(self)@.peer_set.banned == old(self)@.peer_set.banned
                &&& final(self)@.peer_set.peers == if old(self)@.peer_set.peers.dom().contains(s) {
                    old(self)@.peer_set.peers.insert(
                        s,
                        PeerInfo {
                            messages_received: (old(self)@.peer_set.peers[s].messages_received + 1) as u64,
                            ..old(self)@.peer_set.peers[s]
                        },
                    )
                } else {
                    old(self)@.peer_set.peers
                }
                &&& final(self)@.max_cache_size == old(self)@.max_cache_size
                &&& final(self)@.message_ttl_ms == old(self)@.message_ttl_ms
            },
    {
        let message_hash = Self::hash_message(message);
        if self.message_cache.contains_key(&message_hash) {
            return false;
        }
        let ghost seen0 = self@.seen;
        match self.seen_messages.get_mut(&message.sender) {
            Some(set) => {
                set.insert(message_hash, ());
            },
            None => {
                let mut set: Table<Hash32, ()> = Table::new();
                set.insert(message_hash, ());
                self.seen_messages.insert(message.sender, set);
            },
        }
        proof {
            let s = message.sender.0@;
            let h = message_hash.0@;
            assert(seen_from(seen0, s).insert(h) =~= self.seen_messages@[s]@.dom());
            assert(self@.seen =~= seen0.insert(s, seen_from(seen0, s).insert(h)));
        }
        if self.peer_set.get_peer(&message.sender).is_some() {
            match self.peer_set.get_peer_mut(&message.sender) {
                Some(peer) => {
                    peer.increment_received();
                },
                None => {},
            }
        }
        self.message_cache.insert(message_hash, message.timestamp);
        true
    }

    /// Whether `message_hash` was seen from `peer_id`.
    pub fn has_seen(&self, peer_id: &PeerId, message_hash: &Hash32) -> (r: bool)
        requires
            self.wf(),
        ensures
            r == (self@.seen.dom().contains(peer_id.0@) && self@.seen[peer_id.0@].contains(message_hash.0@)),
    {
        match self.seen_messages.get(peer_id) {
            Some(set) => set.contains_key(message_hash),
            None => false,
        }
    }

    pub fn add_peer(&mut self, peer_info: PeerInfo)
        requires
            old(self).wf(),
        ensures
            final(self).wf(),
            final(self)@ == (GossipView {
                peer_set: PeerSetView {
                    peers: old(self)@.peer_set.peers.insert(peer_info.peer_id.0@, peer_info),
                    ..old(self)@.peer_set
                },
                ..old(self)@
            }),
    {
        self.peer_set.add_peer(peer_info);
    }

    /// Forgets a peer and what was seen from it.
    pub fn remove_peer(&mut self, peer_id: &PeerId)
        requires
            old(self).wf(),
        ensures
            final(self).wf(),
            final(self)@ == (GossipView {
                peer_set: PeerSetView { peers: old(self)@.peer_set.peers.remove(peer_id.0@), ..old(self)@.peer_set },
                seen: old(self)@.seen.remove(peer_id.0@),
                ..old(self)@
            }),
    {
        self.peer_set.remove_peer(peer_id);
        self.seen_messages.remove(peer_id);
        assert(self@.seen =~= old(self)@.seen.remove(peer_id.0@));
    }
}

impl PeerSet {
    /// The id and state of the peer at position `i`.
    fn entry_at(&self, i: usize) -> (r: (PeerId, ConnectionState))
        requires
            i < self.peer_seq().len(),
        ensures
            r.0 == self.peer_seq()[i as int].0,
            r.1 == self.peer_seq()[i as int].1.state,
    {
        (*self.peers.key_at(i), self.peers.value_at(i).state)
    }
}

impl Default for GossipProtocol {
    fn default() -> (r: Self)
        ensures
            r.wf(),
            r@.peer_set.peers == Map::<Seq<u8>, PeerInfo>::empty(),
            r@.cache == Map::<Seq<u8>, u64>::empty(),
    {
        GossipProtocol::new()
    }
}

} // verus!

verus! {

/// A message is relayed once: after it is broadcast or received, its digest
/// is cached, so a later broadcast of it reaches no peer and a later
/// receipt of it is refused.
pub proof fn lemma_message_relayed_once(g: GossipView, m: NetworkMessage)
    ensures
        (GossipView { cache: g.cache.insert(message_hash(m), m.timestamp), ..g }).cache.dom().contains(
            message_hash(m),
        ),
{
}

} // verus!
