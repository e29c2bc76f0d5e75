//! The closed set of store paths, their mathematical model, and the canonical
//! text of each path.

use vstd::prelude::*;
use vstd::slice::slice_to_vec;
use vstd::string::StringExecFns;
use vstd::utf8::encode_utf8;
use crate::decimal::{decimal, push_decimal};
use crate::identifiers::{
    valid_channel_id, valid_client_id, valid_connection_id, valid_port_id, ChannelId, ClientId,
    ConnectionId, PortId, Sequence,
};
use crate::text::{join_with, strs_view};

verus! {

/// Counter for the next client identifier: `nextClientSequence`.
#[derive(Clone, Copy, Debug, PartialEq, Eq, PartialOrd, Ord, Hash)]
pub struct NextClientSequencePath;

/// Counter for the next connection identifier: `nextConnectionSequence`.
#[derive(Clone, Copy, Debug, PartialEq, Eq, PartialOrd, Ord, Hash)]
pub struct NextConnectionSequencePath;

/// Counter for the next channel identifier: `nextChannelSequence`.
#[derive(Clone, Copy, Debug, PartialEq, Eq, PartialOrd, Ord, Hash)]
pub struct NextChannelSequencePath;

/// Latest state of a client: `clients/{client_id}/clientState`.
#[derive(Clone, Debug, PartialEq, Eq, PartialOrd, Ord, Hash)]
pub struct ClientStatePath(pub ClientId);

impl ClientStatePath {
    pub fn new(client_id: &ClientId) -> (r: ClientStatePath)
        ensures
            r.0@ == client_id@,
    {
        ClientStatePath(client_id.clone())
    }
}

/// A consensus state of a client at a height:
/// `clients/{client_id}/consensusStates/{revision_number}-{revision_height}`.
#[derive(Clone, Debug, PartialEq, Eq, PartialOrd, Ord, Hash)]
pub struct ClientConsensusStatePath {
    pub client_id: ClientId,
    pub revision_number: u64,
    pub revision_height: u64,
}

impl ClientConsensusStatePath {
    pub fn new(client_id: ClientId, revision_number: u64, revision_height: u64) -> (r: ClientConsensusStatePath)
        ensures
            r.client_id@ == client_id@,
            r.revision_number == revision_number,
            r.revision_height == revision_height,
    {
        ClientConsensusStatePath { client_id, revision_number, revision_height }
    }
}

/// When a consensus state was recorded: the consensus state path followed by `/processedTime`.
#[derive(Clone, Debug, PartialEq, Eq, PartialOrd, Ord, Hash)]
pub struct ClientUpdateTimePath {
    pub client_id: ClientId,
    pub revision_number: u64,
    pub revision_height: u64,
}

impl ClientUpdateTimePath {
    pub fn new(client_id: ClientId, revision_number: u64, revision_height: u64) -> (r: ClientUpdateTimePath)
        ensures
            r.client_id@ == client_id@,
            r.revision_number == revision_number,
            r.revision_height == revision_height,
    {
        ClientUpdateTimePath { client_id, revision_number, revision_height }
    }
}

/// At which host height a consensus state was recorded: the consensus state
/// path followed by `/processedHeight`.
#[derive(Clone, Debug, PartialEq, Eq, PartialOrd, Ord, Hash)]
pub struct ClientUpdateHeightPath {
    pub client_id: ClientId,
    pub revision_number: u64,
    pub revision_height: u64,
}

impl ClientUpdateHeightPath {
    pub fn new(client_id: ClientId, revision_number: u64, revision_height: u64) -> (r: ClientUpdateHeightPath)
        ensures
            r.client_id@ == client_id@,
            r.revision_number == revision_number,
            r.revision_height == revision_height,
    {
        ClientUpdateHeightPath { client_id, revision_number, revision_height }
    }
}

/// Connections opened on a client: `clients/{client_id}/connections`.
#[derive(Clone, Debug, PartialEq, Eq, PartialOrd, Ord, Hash)]
pub struct ClientConnectionPath(pub ClientId);

impl ClientConnectionPath {
    pub fn new(client_id: &ClientId) -> (r: ClientConnectionPath)
        ensures
            r.0@ == client_id@,
    {
        ClientConnectionPath(client_id.clone())
    }
}

/// A connection end: `connections/{connection_id}`.
#[derive(Clone, Debug, PartialEq, Eq, PartialOrd, Ord, Hash)]
pub struct ConnectionPath(pub ConnectionId);

impl ConnectionPath {
    pub fn new(connection_id: &ConnectionId) -> (r: ConnectionPath)
        ensures
            r.0@ == connection_id@,
    {
        ConnectionPath(connection_id.clone())
    }
}

/// A port binding: `ports/{port_id}`.
#[derive(Clone, Debug, PartialEq, Eq, PartialOrd, Ord, Hash)]
pub struct PortPath(pub PortId);

/// A channel end: `channelEnds/ports/{port_id}/channels/{channel_id}`.
#[derive(Clone, Debug, PartialEq, Eq, PartialOrd, Ord, Hash)]
pub struct ChannelEndPath(pub PortId, pub ChannelId);

impl ChannelEndPath {
    pub fn new(port_id: &PortId, channel_id: &ChannelId) -> (r: ChannelEndPath)
        ensures
            r.0@ == port_id@,
            r.1@ == channel_id@,
    {
        ChannelEndPath(port_id.clone(), channel_id.clone())
    }
}

/// Next send sequence: `nextSequenceSend/ports/{port_id}/channels/{channel_id}`.
#[derive(Clone, Debug, PartialEq, Eq, PartialOrd, Ord, Hash)]
pub struct SeqSendPath(pub PortId, pub ChannelId);

impl SeqSendPath {
    pub fn new(port_id: &PortId, channel_id: &ChannelId) -> (r: SeqSendPath)
        ensures
            r.0@ == port_id@,
            r.1@ == channel_id@,
    {
        SeqSendPath(port_id.clone(), channel_id.clone())
    }
}

/// Next receive sequence: `nextSequenceRecv/ports/{port_id}/channels/{channel_id}`.
#[derive(Clone, Debug, PartialEq, Eq, PartialOrd, Ord, Hash)]
pub struct SeqRecvPath(pub PortId, pub ChannelId);

impl SeqRecvPath {
    pub fn new(port_id: &PortId, channel_id: &ChannelId) -> (r: SeqRecvPath)
        ensures
            r.0@ == port_id@,
            r.1@ == channel_id@,
    {
        SeqRecvPath(port_id.clone(), channel_id.clone())
    }
}

/// Next acknowledgement sequence: `nextSequenceAck/ports/{port_id}/channels/{channel_id}`.
#[derive(Clone, Debug, PartialEq, Eq, PartialOrd, Ord, Hash)]
pub struct SeqAckPath(pub PortId, pub ChannelId);

impl SeqAckPath {
    pub fn new(port_id: &PortId, channel_id: &ChannelId) -> (r: SeqAckPath)
        ensures
            r.0@ == port_id@,
            r.1@ == channel_id@,
    {
        SeqAckPath(port_id.clone(), channel_id.clone())
    }
}

/// A packet commitment:
/// `commitments/ports/{port_id}/channels/{channel_id}/sequences/{sequence}`.
#[derive(Clone, Debug, PartialEq, Eq, PartialOrd, Ord, Hash)]
pub struct CommitmentPath {
    pub port_id: PortId,
    pub channel_id: ChannelId,
    pub sequence: Sequence,
}

impl CommitmentPath {
    pub fn new(port_id: &PortId, channel_id: &ChannelId, sequence: Sequence) -> (r: CommitmentPath)
        ensures
            r.port_id@ == port_id@,
            r.channel_id@ == channel_id@,
            r.sequence@ == sequence@,
    {
        CommitmentPath { port_id: port_id.clone(), channel_id: channel_id.clone(), sequence }
    }
}

/// A packet acknowledgement:
/// `acks/ports/{port_id}/channels/{channel_id}/sequences/{sequence}`.
#[derive(Clone, Debug, PartialEq, Eq, PartialOrd, Ord, Hash)]
pub struct AckPath {
    pub port_id: PortId,
    pub channel_id: ChannelId,
    pub sequence: Sequence,
}

impl AckPath {
    pub fn new(port_id: &PortId, channel_id: &ChannelId, sequence: Sequence) -> (r: AckPath)
        ensures
            r.port_id@ == port_id@,
            r.channel_id@ == channel_id@,
            r.sequence@ == sequence@,
    {
        AckPath { port_id: port_id.clone(), channel_id: channel_id.clone(), sequence }
    }
}

/// A packet receipt:
/// `receipts/ports/{port_id}/channels/{channel_id}/sequences/{sequence}`.
#[derive(Clone, Debug, PartialEq, Eq, PartialOrd, Ord, Hash)]
pub struct ReceiptPath {
    pub port_id: PortId,
    pub channel_id: ChannelId,
    pub sequence: Sequence,
}

impl ReceiptPath {
    pub fn new(port_id: &PortId, channel_id: &ChannelId, sequence: Sequence) -> (r: ReceiptPath)
        ensures
            r.port_id@ == port_id@,
            r.channel_id@ == channel_id@,
            r.sequence@ == sequence@,
    {
        ReceiptPath { port_id: port_id.clone(), channel_id: channel_id.clone(), sequence }
    }
}

/// Paths that are specific for client upgrades.
#[derive(Clone, Copy, Debug, PartialEq, Eq, PartialOrd, Ord, Hash)]
pub enum UpgradeClientPath {
    /// `upgradedIBCState/{height}/upgradedClient`
    UpgradedClientState(u64),
    /// `upgradedIBCState/{height}/upgradedConsState`
    UpgradedClientConsensusState(u64),
}

/// Every path of the provable store.
#[derive(Clone, Debug, PartialEq, Eq, PartialOrd, Ord, Hash)]
pub enum Path {
    NextClientSequence(NextClientSequencePath),
    NextConnectionSequence(NextConnectionSequencePath),
    NextChannelSequence(NextChannelSequencePath),
    ClientState(ClientStatePath),
    ClientConsensusState(ClientConsensusStatePath),
    ClientUpdateTime(ClientUpdateTimePath),
    ClientUpdateHeight(ClientUpdateHeightPath),
    ClientConnection(ClientConnectionPath),
    Connection(ConnectionPath),
    Ports(PortPath),
    ChannelEnd(ChannelEndPath),
    SeqSend(SeqSendPath),
    SeqRecv(SeqRecvPath),
    SeqAck(SeqAckPath),
    Commitment(CommitmentPath),
    Ack(AckPath),
    Receipt(ReceiptPath),
    UpgradeClient(UpgradeClientPath),
}

/// The mathematical model of a path: its variant, with each identifier as its
/// text and each number as its value.
pub enum PathView {
    NextClientSequence,
    NextConnectionSequence,
    NextChannelSequence,
    ClientState { client: Seq<char> },
    ClientConsensusState { client: Seq<char>, number: u64, height: u64 },
    ClientUpdateTime { client: Seq<char>, number: u64, height: u64 },
    ClientUpdateHeight { client: Seq<char>, number: u64, height: u64 },
    ClientConnection { client: Seq<char> },
    Connection { connection: Seq<char> },
    Ports { port: Seq<char> },
    ChannelEnd { port: Seq<char>, channel: Seq<char> },
    SeqSend { port: Seq<char>, channel: Seq<char> },
    SeqRecv { port: Seq<char>, channel: Seq<char> },
    SeqAck { port: Seq<char>, channel: Seq<char> },
    Commitment { port: Seq<char>, channel: Seq<char>, sequence: u64 },
    Ack { port: Seq<char>, channel: Seq<char>, sequence: u64 },
    Receipt { port: Seq<char>, channel: Seq<char>, sequence: u64 },
    UpgradedClientState { height: u64 },
    UpgradedClientConsensusState { height: u64 },
}

impl View for Path {
    type V = PathView;

    open spec fn view(&self) -> PathView {
        match self {
            Path::NextClientSequence(_) => PathView::NextClientSequence,
            Path::NextConnectionSequence(_) => PathView::NextConnectionSequence,
            Path::NextChannelSequence(_) => PathView::NextChannelSequence,
            Path::ClientState(p) => PathView::ClientState { client: p.0@ },
            Path::ClientConsensusState(p) => PathView::ClientConsensusState {
                client: p.client_id@,
                number: p.revision_number,
                height: p.revision_height,
            },
            Path::ClientUpdateTime(p) => PathView::ClientUpdateTime {
                client: p.client_id@,
                number: p.revision_number,
                height: p.revision_height,
            },
            Path::ClientUpdateHeight(p) => PathView::ClientUpdateHeight {
                client: p.client_id@,
                number: p.revision_number,
                height: p.revision_height,
            },
            Path::ClientConnection(p) => PathView::ClientConnection { client: p.0@ },
            Path::Connection(p) => PathView::Connection { connection: p.0@ },
            Path::Ports(p) => PathView::Ports { port: p.0@ },
            Path::ChannelEnd(p) => PathView::ChannelEnd { port: p.0@, channel: p.1@ },
            Path::SeqSend(p) => PathView::SeqSend { port: p.0@, channel: p.1@ },
            Path::SeqRecv(p) => PathView::SeqRecv { port: p.0@, channel: p.1@ },
            Path::SeqAck(p) => PathView::SeqAck { port: p.0@, channel: p.1@ },
            Path::Commitment(p) => PathView::Commitment {
                port: p.port_id@,
                channel: p.channel_id@,
                sequence: p.sequence@,
            },
            Path::Ack(p) => PathView::Ack {
                port: p.port_id@,
                channel: p.channel_id@,
                sequence: p.sequence@,
            },
            Path::Receipt(p) => PathView::Receipt {
                port: p.port_id@,
                channel: p.channel_id@,
                sequence: p.sequence@,
            },
            Path::UpgradeClient(UpgradeClientPath::UpgradedClientState(h)) => {
                PathView::UpgradedClientState { height: *h }
            },
            Path::UpgradeClient(UpgradeClientPath::UpgradedClientConsensusState(h)) => {
                PathView::UpgradedClientConsensusState { height: *h }
            },
        }
    }
}

impl PathView {
    /// Every identifier in the path is valid for its kind.
    pub open spec fn wf(self) -> bool {
        match self {
            PathView::ClientState { client } => valid_client_id(client),
            PathView::ClientConsensusState { client, .. } => valid_client_id(client),
            PathView::ClientUpdateTime { client, .. } => valid_client_id(client),
            PathView::ClientUpdateHeight { client, .. } => valid_client_id(client),
            PathView::ClientConnection { client } => valid_client_id(client),
            PathView::Connection { connection } => valid_connection_id(connection),
            PathView::Ports { port } => valid_port_id(port),
            PathView::ChannelEnd { port, channel } => valid_port_id(port) && valid_channel_id(
                channel,
            ),
            PathView::SeqSend { port, channel } => valid_port_id(port) && valid_channel_id(channel),
            PathView::SeqRecv { port, channel } => valid_port_id(port) && valid_channel_id(channel),
            PathView::SeqAck { port, channel } => valid_port_id(port) && valid_channel_id(channel),
            PathView::Commitment { port, channel, .. } => valid_port_id(port) && valid_channel_id(
                channel,
            ),
            PathView::Ack { port, channel, .. } => valid_port_id(port) && valid_channel_id(channel),
            PathView::Receipt { port, channel, .. } => valid_port_id(port) && valid_channel_id(
                channel,
            ),
            _ => true,
        }
    }

    /// Only port bindings and client connection lists are kept out of proofs.
    pub open spec fn provable(self) -> bool {
        !(self is Ports || self is ClientConnection)
    }
}

/// The height segment `{revision_number}-{revision_height}`.
pub open spec fn height_text(number: u64, height: u64) -> Seq<char> {
    join_with(seq![decimal(number as nat), decimal(height as nat)], '-')
}

/// The `/`-separated segments of the canonical text of a path.
pub open spec fn segments(p: PathView) -> Seq<Seq<char>> {
    match p {
        PathView::NextClientSequence => seq!["nextClientSequence"@],
        PathView::NextConnectionSequence => seq!["nextConnectionSequence"@],
        PathView::NextChannelSequence => seq!["nextChannelSequence"@],
        PathView::ClientState { client } => seq!["clients"@, client, "clientState"@],
        PathView::ClientConsensusState { client, number, height } => seq![
            "clients"@,
            client,
            "consensusStates"@,
            height_text(number, height),
        ],
        PathView::ClientUpdateTime { client, number, height } => seq![
            "clients"@,
            client,
            "consensusStates"@,
            height_text(number, height),
            "processedTime"@,
        ],
        PathView::ClientUpdateHeight { client, number, height } => seq![
            "clients"@,
            client,
            "consensusStates"@,
            height_text(number, height),
            "processedHeight"@,
        ],
        PathView::ClientConnection { client } => seq!["clients"@, client, "connections"@],
        PathView::Connection { connection } => seq!["connections"@, connection],
        PathView::Ports { port } => seq!["ports"@, port],
        PathView::ChannelEnd { port, channel } => seq![
            "channelEnds"@,
            "ports"@,
            port,
            "channels"@,
            channel,
        ],
        PathView::SeqSend { port, channel } => seq![
            "nextSequenceSend"@,
            "ports"@,
            port,
            "channels"@,
            channel,
        ],
        PathView::SeqRecv { port, channel } => seq![
            "nextSequenceRecv"@,
            "ports"@,
            port,
            "channels"@,
            channel,
        ],
        PathView::SeqAck { port, channel } => seq![
            "nextSequenceAck"@,
            "ports"@,
            port,
            "channels"@,
            channel,
        ],
        PathView::Commitment { port, channel, sequence } => seq![
            "commitments"@,
            "ports"@,
            port,
            "channels"@,
            channel,
            "sequences"@,
            decimal(sequence as nat),
        ],
        PathView::Ack { port, channel, sequence } => seq![
            "acks"@,
            "ports"@,
            port,
            "channels"@,
            channel,
            "sequences"@,
            decimal(sequence as nat),
        ],
        PathView::Receipt { port, channel, sequence } => seq![
            "receipts"@,
            "ports"@,
            port,
            "channels"@,
            channel,
            "sequences"@,
            decimal(sequence as nat),
        ],
        PathView::UpgradedClientState { height } => seq![
            "upgradedIBCState"@,
            decimal(height as nat),
            "upgradedClient"@,
        ],
        PathView::UpgradedClientConsensusState { height } => seq![
            "upgradedIBCState"@,
            decimal(height as nat),
            "upgradedConsState"@,
        ],
    }
}

/// The canonical text of a path.
pub open spec fn encoded(p: PathView) -> Seq<char> {
    join_with(segments(p), '/')
}

/// Glues the pieces together with `/` between neighbours.
fn join_slash(parts: &Vec<&str>) -> (r: String)
    ensures
        r@ == join_with(strs_view(parts@), '/'),
{
    let mut out = String::new();
    let mut i: usize = 0;
    assert(strs_view(parts@).take(0) =~= Seq::<Seq<char>>::empty());
    while i < parts.len()
        invariant
            0 <= i <= parts@.len(),
            out@ == join_with(strs_view(parts@).take(i as int), '/'),
        decreases parts@.len() - i,
    {
        let ghost pre = strs_view(parts@).take(i as int);
        let ghost post = strs_view(parts@).take(i + 1);
        assert(post.drop_last() =~= pre);
        if i > 0 {
            proof {
                reveal_strlit("/");
            }
            out.append("/");
        }
        out.append(parts[i]);
        proof {
            if i > 0 {
                assert(out@ =~= join_with(pre, '/').push('/') + parts@[i as int]@);
            } else {
                assert(out@ =~= parts@[0]@);
            }
        }
        i = i + 1;
    }
    assert(strs_view(parts@).take(parts@.len() as int) =~= strs_view(parts@));
    out
}

/// The decimal text of `n` as a fresh string.
fn decimal_string(n: u64) -> (r: String)
    ensures
        r@ == decimal(n as nat),
{
    let mut out = String::new();
    push_decimal(&mut out, n);
    assert(out@ =~= decimal(n as nat));
    out
}

/// The height segment as a fresh string.
fn height_string(number: u64, height: u64) -> (r: String)
    ensures
        r@ == height_text(number, height),
{
    let a = decimal_string(number);
    let b = decimal_string(height);
    join_with_dash(&a, &b)
}

fn join_with_dash(a: &String, b: &String) -> (r: String)
    ensures
        r@ == join_with(seq![a@, b@], '-'),
{
    proof {
        reveal_strlit("-");
    }
    let mut out = String::new();
    out.append(a.as_str());
    out.append("-");
    out.append(b.as_str());
    assert(seq![a@, b@].drop_last() =~= seq![a@]);
    assert(join_with(seq![a@], '-') == a@);
    assert(out@ =~= join_with(seq![a@, b@], '-'));
    out
}

impl Path {
    /// Whether the entry under this path can be proved to another chain:
    /// all but port bindings and client connection lists.
    pub fn is_provable(&self) -> (r: bool)
        ensures
            r == self@.provable(),
    {
        match self {
            Path::ClientConnection(_) => false,
            Path::Ports(_) => false,
            _ => true,
        }
    }

    /// The canonical text of the path.
    pub fn to_string(&self) -> (r: String)
        ensures
            r@ == encoded(self@),
    {
        let parts: Vec<&str>;
        let number: String;
        match self {
            Path::NextClientSequence(_) => {
                parts = vec!["nextClientSequence"];
            },
            Path::NextConnectionSequence(_) => {
                parts = vec!["nextConnectionSequence"];
            },
            Path::NextChannelSequence(_) => {
                parts = vec!["nextChannelSequence"];
            },
            Path::ClientState(p) => {
                parts = vec!["clients", p.0.as_str(), "clientState"];
            },
            Path::ClientConsensusState(p) => {
                number = height_string(p.revision_number, p.revision_height);
                parts = vec!["clients", p.client_id.as_str(), "consensusStates", number.as_str()];
            },
            Path::ClientUpdateTime(p) => {
                number = height_string(p.revision_number, p.revision_height);
                parts = vec![
                    "clients",
                    p.client_id.as_str(),
                    "consensusStates",
                    number.as_str(),
                    "processedTime",
                ];
            },
            Path::ClientUpdateHeight(p) => {
                number = height_string(p.revision_number, p.revision_height);
                parts = vec![
                    "clients",
                    p.client_id.as_str(),
                    "consensusStates",
                    number.as_str(),
                    "processedHeight",
                ];
            },
            Path::ClientConnection(p) => {
                parts = vec!["clients", p.0.as_str(), "connections"];
            },
            Path::Connection(p) => {
                parts = vec!["connections", p.0.as_str()];
            },
            Path::Ports(p) => {
                parts = vec!["ports", p.0.as_str()];
            },
            Path::ChannelEnd(p) => {
                parts = vec!["channelEnds", "ports", p.0.as_str(), "channels", p.1.as_str()];
            },
            Path::SeqSend(p) => {
                parts = vec!["nextSequenceSend", "ports", p.0.as_str(), "channels", p.1.as_str()];
            },
            Path::SeqRecv(p) => {
                parts = vec!["nextSequenceRecv", "ports", p.0.as_str(), "channels", p.1.as_str()];
            },
            Path::SeqAck(p) => {
                parts = vec!["nextSequenceAck", "ports", p.0.as_str(), "channels", p.1.as_str()];
            },
            Path::Commitment(p) => {
                number = decimal_string(p.sequence.value());
                parts = vec![
                    "commitments",
                    "ports",
                    p.port_id.as_str(),
                    "channels",
                    p.channel_id.as_str(),
                    "sequences",
                    number.as_str(),
                ];
            },
            Path::Ack(p) => {
                number = decimal_string(p.sequence.value());
                parts = vec![
                    "acks",
                    "ports",
                    p.port_id.as_str(),
                    "channels",
                    p.channel_id.as_str(),
                    "sequences",
                    number.as_str(),
                ];
            },
            Path::Receipt(p) => {
                number = decimal_string(p.sequence.value());
                parts = vec![
                    "receipts",
                    "ports",
                    p.port_id.as_str(),
                    "channels",
                    p.channel_id.as_str(),
                    "sequences",
                    number.as_str(),
                ];
            },
            Path::UpgradeClient(UpgradeClientPath::UpgradedClientState(h)) => {
                number = decimal_string(*h);
                parts = vec!["upgradedIBCState", number.as_str(), "upgradedClient"];
            },
            Path::UpgradeClient(UpgradeClientPath::UpgradedClientConsensusState(h)) => {
                number = decimal_string(*h);
                parts = vec!["upgradedIBCState", number.as_str(), "upgradedConsState"];
            },
        }
        assert(strs_view(parts@) =~= segments(self@));
        join_slash(&parts)
    }

    /// The UTF-8 bytes of the canonical text.
    pub fn into_bytes(self) -> (r: Vec<u8>)
        ensures
            r@ == encode_utf8(encoded(self@)),
    {
        let s = self.to_string();
        slice_to_vec(s.as_str().as_bytes())
    }
}

/// The canonical text of a path.
pub fn encode(p: &Path) -> (r: String)
    ensures
        r@ == encoded(p@),
{
    p.to_string()
}

} // verus!
