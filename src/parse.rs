//! Decoding: the grammar of canonical path text as one recognizer per path
//! family, tried in a fixed order over the `/`-separated segments.

use vstd::prelude::*;
use vstd::slice::slice_subrange;
use vstd::string::StringExecFns;
use crate::decimal::{parse_u64, parse_u64_spec};
use crate::identifiers::{
    valid_channel_id, valid_client_id, valid_connection_id, valid_port_id, ChannelId, ClientId,
    ConnectionId, PortId, Sequence,
};
use crate::path::{
    AckPath, ChannelEndPath, ClientConnectionPath, ClientConsensusStatePath, ClientStatePath,
    ClientUpdateHeightPath, ClientUpdateTimePath, CommitmentPath, ConnectionPath,
    NextChannelSequencePath, NextClientSequencePath, NextConnectionSequencePath, Path, PathView,
    PortPath, ReceiptPath, SeqAckPath, SeqRecvPath, SeqSendPath, UpgradeClientPath,
};
use crate::text::{split_by, split_on, str_eq, strs_view};

verus! {

/// Sub-paths that are no path of their own, but are pieces of longer ones.
#[derive(Clone, Debug, PartialEq, Eq, PartialOrd, Ord, Hash)]
pub enum SubPath {
    /// `channels/{channel_id}`
    Channels(ChannelId),
    /// `sequences/{sequence}`
    Sequences(Sequence),
}

/// Text that is no canonical path.
#[derive(Clone, Debug, PartialEq, Eq)]
pub enum PathError {
    /// The text, as given, could not be parsed into a path.
    ParseFailure { path: String },
}

impl PathError {
    /// The text that was refused.
    pub fn path(&self) -> (r: &str)
        ensures
            r@ == self->path@,
    {
        match self {
            PathError::ParseFailure { path } => path.as_str(),
        }
    }

    /// A message naming the refused text.
    pub fn to_string(&self) -> (r: String)
        ensures
            r@ == "`"@ + self->path@ + "` could not be parsed into a Path"@,
    {
        let mut out = String::from_str("`");
        out.append(self.path());
        out.append("` could not be parsed into a Path");
        out
    }
}

pub open spec fn opt_view(r: Option<Path>) -> Option<PathView> {
    match r {
        Some(p) => Some(p@),
        None => None,
    }
}

/// `nextClientSequence`, `nextConnectionSequence`, `nextChannelSequence`.
pub open spec fn next_sequence_spec(c: Seq<Seq<char>>) -> Option<PathView> {
    if c.len() != 1 {
        None
    } else if c[0] == "nextClientSequence"@ {
        Some(PathView::NextClientSequence)
    } else if c[0] == "nextConnectionSequence"@ {
        Some(PathView::NextConnectionSequence)
    } else if c[0] == "nextChannelSequence"@ {
        Some(PathView::NextChannelSequence)
    } else {
        None
    }
}

/// A height segment: exactly two `-`-separated `u64` numbers.
pub open spec fn height_spec(s: Seq<char>) -> Option<(u64, u64)> {
    let parts = split_on(s, '-');
    if parts.len() == 2 && parse_u64_spec(parts[0]) is Some && parse_u64_spec(parts[1]) is Some {
        Some((parse_u64_spec(parts[0])->0, parse_u64_spec(parts[1])->0))
    } else {
        None
    }
}

/// The client family: `clients/{client_id}/...` with three to five segments.
pub open spec fn client_paths_spec(c: Seq<Seq<char>>) -> Option<PathView> {
    if c.len() < 3 || c.len() > 5 || c[0] != "clients"@ || !valid_client_id(c[1]) {
        None
    } else if c.len() == 3 {
        if c[2] == "clientState"@ {
            Some(PathView::ClientState { client: c[1] })
        } else if c[2] == "connections"@ {
            Some(PathView::ClientConnection { client: c[1] })
        } else {
            None
        }
    } else if c[2] != "consensusStates"@ || height_spec(c[3]) is None {
        None
    } else {
        let (number, height) = height_spec(c[3])->0;
        if c.len() == 4 {
            Some(PathView::ClientConsensusState { client: c[1], number, height })
        } else if c[4] == "processedTime"@ {
            Some(PathView::ClientUpdateTime { client: c[1], number, height })
        } else if c[4] == "processedHeight"@ {
            Some(PathView::ClientUpdateHeight { client: c[1], number, height })
        } else {
            None
        }
    }
}

/// `connections/{connection_id}`.
pub open spec fn connections_spec(c: Seq<Seq<char>>) -> Option<PathView> {
    if c.len() == 2 && c[0] == "connections"@ && valid_connection_id(c[1]) {
        Some(PathView::Connection { connection: c[1] })
    } else {
        None
    }
}

/// `ports/{port_id}`.
pub open spec fn ports_spec(c: Seq<Seq<char>>) -> Option<PathView> {
    if c.len() == 2 && c[0] == "ports"@ && valid_port_id(c[1]) {
        Some(PathView::Ports { port: c[1] })
    } else {
        None
    }
}

/// `channels/{channel_id}`, giving the channel identifier.
pub open spec fn channels_spec(c: Seq<Seq<char>>) -> Option<Seq<char>> {
    if c.len() == 2 && c[0] == "channels"@ && valid_channel_id(c[1]) {
        Some(c[1])
    } else {
        None
    }
}

/// `sequences/{sequence}`, giving the sequence number.
pub open spec fn sequences_spec(c: Seq<Seq<char>>) -> Option<u64> {
    if c.len() == 2 && c[0] == "sequences"@ {
        parse_u64_spec(c[1])
    } else {
        None
    }
}

/// Segments one to four are `ports/{port_id}/channels/{channel_id}`.
pub open spec fn port_channel(c: Seq<Seq<char>>) -> bool {
    &&& c.len() >= 5
    &&& c[1] == "ports"@
    &&& valid_port_id(c[2])
    &&& c[3] == "channels"@
    &&& valid_channel_id(c[4])
}

/// `channelEnds/ports/{port_id}/channels/{channel_id}`.
pub open spec fn channel_ends_spec(c: Seq<Seq<char>>) -> Option<PathView> {
    if c.len() == 5 && c[0] == "channelEnds"@ && port_channel(c) {
        Some(PathView::ChannelEnd { port: c[2], channel: c[4] })
    } else {
        None
    }
}

/// `nextSequence{Send,Recv,Ack}/ports/{port_id}/channels/{channel_id}`.
pub open spec fn seqs_spec(c: Seq<Seq<char>>) -> Option<PathView> {
    if c.len() != 5 || !port_channel(c) {
        None
    } else if c[0] == "nextSequenceSend"@ {
        Some(PathView::SeqSend { port: c[2], channel: c[4] })
    } else if c[0] == "nextSequenceRecv"@ {
        Some(PathView::SeqRecv { port: c[2], channel: c[4] })
    } else if c[0] == "nextSequenceAck"@ {
        Some(PathView::SeqAck { port: c[2], channel: c[4] })
    } else {
        None
    }
}

/// `{head}/ports/{port_id}/channels/{channel_id}/sequences/{sequence}`.
pub open spec fn packet_path(c: Seq<Seq<char>>, head: Seq<char>) -> bool {
    &&& c.len() == 7
    &&& c[0] == head
    &&& port_channel(c)
    &&& c[5] == "sequences"@
    &&& parse_u64_spec(c[6]) is Some
}

pub open spec fn commitments_spec(c: Seq<Seq<char>>) -> Option<PathView> {
    if packet_path(c, "commitments"@) {
        Some(PathView::Commitment { port: c[2], channel: c[4], sequence: parse_u64_spec(c[6])->0 })
    } else {
        None
    }
}

pub open spec fn acks_spec(c: Seq<Seq<char>>) -> Option<PathView> {
    if packet_path(c, "acks"@) {
        Some(PathView::Ack { port: c[2], channel: c[4], sequence: parse_u64_spec(c[6])->0 })
    } else {
        None
    }
}

pub open spec fn receipts_spec(c: Seq<Seq<char>>) -> Option<PathView> {
    if packet_path(c, "receipts"@) {
        Some(PathView::Receipt { port: c[2], channel: c[4], sequence: parse_u64_spec(c[6])->0 })
    } else {
        None
    }
}

/// `upgradedIBCState/{height}/upgradedClient` and `.../upgradedConsState`.
pub open spec fn upgrades_spec(c: Seq<Seq<char>>) -> Option<PathView> {
    if c.len() != 3 || c[0] != "upgradedIBCState"@ || parse_u64_spec(c[1]) is None {
        None
    } else if c[2] == "upgradedClient"@ {
        Some(PathView::UpgradedClientState { height: parse_u64_spec(c[1])->0 })
    } else if c[2] == "upgradedConsState"@ {
        Some(PathView::UpgradedClientConsensusState { height: parse_u64_spec(c[1])->0 })
    } else {
        None
    }
}

pub open spec fn first_of(a: Option<PathView>, b: Option<PathView>) -> Option<PathView> {
    if a is Some {
        a
    } else {
        b
    }
}

/// The path that a list of segments denotes: the first recognizer that matches.
pub open spec fn recognize(c: Seq<Seq<char>>) -> Option<PathView> {
    first_of(
        next_sequence_spec(c),
        first_of(
            client_paths_spec(c),
            first_of(
                connections_spec(c),
                first_of(
                    ports_spec(c),
                    first_of(
                        channel_ends_spec(c),
                        first_of(
                            seqs_spec(c),
                            first_of(
                                commitments_spec(c),
                                first_of(acks_spec(c), first_of(receipts_spec(c), upgrades_spec(c))),
                            ),
                        ),
                    ),
                ),
            ),
        ),
    )
}

/// The path that a text denotes, if any.
pub open spec fn decoded(s: Seq<char>) -> Option<PathView> {
    recognize(split_on(s, '/'))
}

/// The longest path has this many segments.
pub const MAX_SEGMENTS: usize = 7;

pub fn parse_next_sequence(components: &[&str]) -> (r: Option<Path>)
    ensures
        opt_view(r) == next_sequence_spec(strs_view(components@)),
{
    if components.len() != 1 {
        return None;
    }
    let first = components[0];
    if str_eq(first, "nextClientSequence") {
        Some(Path::NextClientSequence(NextClientSequencePath))
    } else if str_eq(first, "nextConnectionSequence") {
        Some(Path::NextConnectionSequence(NextConnectionSequencePath))
    } else if str_eq(first, "nextChannelSequence") {
        Some(Path::NextChannelSequence(NextChannelSequencePath))
    } else {
        None
    }
}

/// Parses a height segment `{revision_number}-{revision_height}`.
pub fn parse_height(s: &str) -> (r: Option<(u64, u64)>)
    ensures
        r == height_spec(s@),
{
    match split_by(s, '-', 2) {
        None => None,
        Some(parts) => {
            if parts.len() != 2 {
                return None;
            }
            let number = match parse_u64(parts[0]) {
                Some(n) => n,
                None => return None,
            };
            let height = match parse_u64(parts[1]) {
                Some(h) => h,
                None => return None,
            };
            Some((number, height))
        },
    }
}

pub fn parse_client_paths(components: &[&str]) -> (r: Option<Path>)
    ensures
        opt_view(r) == client_paths_spec(strs_view(components@)),
{
    let n = components.len();
    if n < 3 || n > 5 || !str_eq(components[0], "clients") {
        return None;
    }
    let client_id = match ClientId::parse(components[1]) {
        Ok(id) => id,
        Err(_) => return None,
    };
    if n == 3 {
        if str_eq(components[2], "clientState") {
            Some(Path::ClientState(ClientStatePath(client_id)))
        } else if str_eq(components[2], "connections") {
            Some(Path::ClientConnection(ClientConnectionPath(client_id)))
        } else {
            None
        }
    } else {
        if !str_eq(components[2], "consensusStates") {
            return None;
        }
        let (revision_number, revision_height) = match parse_height(components[3]) {
            Some(h) => h,
            None => return None,
        };
        if n == 4 {
            Some(
                Path::ClientConsensusState(
                    ClientConsensusStatePath { client_id, revision_number, revision_height },
                ),
            )
        } else if str_eq(components[4], "processedTime") {
            Some(
                Path::ClientUpdateTime(
                    ClientUpdateTimePath { client_id, revision_number, revision_height },
                ),
            )
        } else if str_eq(components[4], "processedHeight") {
            Some(
                Path::ClientUpdateHeight(
                    ClientUpdateHeightPath { client_id, revision_number, revision_height },
                ),
            )
        } else {
            None
        }
    }
}

pub fn parse_connections(components: &[&str]) -> (r: Option<Path>)
    ensures
        opt_view(r) == connections_spec(strs_view(components@)),
{
    if components.len() != 2 || !str_eq(components[0], "connections") {
        return None;
    }
    match ConnectionId::parse(components[1]) {
        Ok(id) => Some(Path::Connection(ConnectionPath(id))),
        Err(_) => None,
    }
}

pub fn parse_ports(components: &[&str]) -> (r: Option<Path>)
    ensures
        opt_view(r) == ports_spec(strs_view(components@)),
{
    if components.len() != 2 || !str_eq(components[0], "ports") {
        return None;
    }
    match PortId::parse(components[1]) {
        Ok(id) => Some(Path::Ports(PortPath(id))),
        Err(_) => None,
    }
}

pub fn parse_channels(components: &[&str]) -> (r: Option<SubPath>)
    ensures
        match r {
            Some(SubPath::Channels(id)) => channels_spec(strs_view(components@)) == Some(id@),
            Some(SubPath::Sequences(_)) => false,
            None => channels_spec(strs_view(components@)) is None,
        },
{
    if components.len() != 2 || !str_eq(components[0], "channels") {
        return None;
    }
    match ChannelId::parse(components[1]) {
        Ok(id) => Some(SubPath::Channels(id)),
        Err(_) => None,
    }
}

pub fn parse_sequences(components: &[&str]) -> (r: Option<SubPath>)
    ensures
        match r {
            Some(SubPath::Sequences(q)) => sequences_spec(strs_view(components@)) == Some(q@),
            Some(SubPath::Channels(_)) => false,
            None => sequences_spec(strs_view(components@)) is None,
        },
{
    if components.len() != 2 || !str_eq(components[0], "sequences") {
        return None;
    }
    match Sequence::parse(components[1]) {
        Ok(q) => Some(SubPath::Sequences(q)),
        Err(_) => None,
    }
}

/// Reads `ports/{port_id}/channels/{channel_id}` from segments one to four.
fn parse_port_channel(components: &[&str]) -> (r: Option<(PortId, ChannelId)>)
    requires
        components@.len() >= 5,
    ensures
        match r {
            Some((p, ch)) => port_channel(strs_view(components@)) && p@ == strs_view(
                components@,
            )[2] && ch@ == strs_view(components@)[4],
            None => !port_channel(strs_view(components@)),
        },
{
    let ghost c = strs_view(components@);
    let ports = slice_subrange(components, 1, 3);
    let channels = slice_subrange(components, 3, 5);
    assert(strs_view(ports@) =~= seq![c[1], c[2]]);
    assert(strs_view(channels@) =~= seq![c[3], c[4]]);
    let port_id = match parse_ports(ports) {
        Some(Path::Ports(PortPath(id))) => id,
        _ => return None,
    };
    let channel_id = match parse_channels(channels) {
        Some(SubPath::Channels(id)) => id,
        _ => return None,
    };
    Some((port_id, channel_id))
}

pub fn parse_channel_ends(components: &[&str]) -> (r: Option<Path>)
    ensures
        opt_view(r) == channel_ends_spec(strs_view(components@)),
{
    if components.len() != 5 || !str_eq(components[0], "channelEnds") {
        return None;
    }
    match parse_port_channel(components) {
        Some((port_id, channel_id)) => Some(Path::ChannelEnd(ChannelEndPath(port_id, channel_id))),
        None => None,
    }
}

pub fn parse_seqs(components: &[&str]) -> (r: Option<Path>)
    ensures
        opt_view(r) == seqs_spec(strs_view(components@)),
{
    if components.len() != 5 {
        return None;
    }
    let (port_id, channel_id) = match parse_port_channel(components) {
        Some(pc) => pc,
        None => return None,
    };
    let first = components[0];
    if str_eq(first, "nextSequenceSend") {
        Some(Path::SeqSend(SeqSendPath(port_id, channel_id)))
    } else if str_eq(first, "nextSequenceRecv") {
        Some(Path::SeqRecv(SeqRecvPath(port_id, channel_id)))
    } else if str_eq(first, "nextSequenceAck") {
        Some(Path::SeqAck(SeqAckPath(port_id, channel_id)))
    } else {
        None
    }
}

/// Reads `{head}/ports/{port_id}/channels/{channel_id}/sequences/{sequence}`.
fn parse_packet_path(components: &[&str], head: &str) -> (r: Option<(PortId, ChannelId, Sequence)>)
    ensures
        match r {
            Some((p, ch, q)) => {
                let c = strs_view(components@);
                &&& packet_path(c, head@)
                &&& p@ == c[2]
                &&& ch@ == c[4]
                &&& Some(q@) == parse_u64_spec(c[6])
            },
            None => !packet_path(strs_view(components@), head@),
        },
{
    if components.len() != 7 || !str_eq(components[0], head) {
        return None;
    }
    let ghost c = strs_view(components@);
    let (port_id, channel_id) = match parse_port_channel(components) {
        Some(pc) => pc,
        None => return None,
    };
    let sequences = slice_subrange(components, 5, 7);
    assert(strs_view(sequences@) =~= seq![c[5], c[6]]);
    match parse_sequences(sequences) {
        Some(SubPath::Sequences(q)) => Some((port_id, channel_id, q)),
        _ => None,
    }
}

pub fn parse_commitments(components: &[&str]) -> (r: Option<Path>)
    ensures
        opt_view(r) == commitments_spec(strs_view(components@)),
{
    match parse_packet_path(components, "commitments") {
        Some((port_id, channel_id, sequence)) => Some(
            Path::Commitment(CommitmentPath { port_id, channel_id, sequence }),
        ),
        None => None,
    }
}

pub fn parse_acks(components: &[&str]) -> (r: Option<Path>)
    ensures
        opt_view(r) == acks_spec(strs_view(components@)),
{
    match parse_packet_path(components, "acks") {
        Some((port_id, channel_id, sequence)) => Some(
            Path::Ack(AckPath { port_id, channel_id, sequence }),
        ),
        None => None,
    }
}

pub fn parse_receipts(components: &[&str]) -> (r: Option<Path>)
    ensures
        opt_view(r) == receipts_spec(strs_view(components@)),
{
    match parse_packet_path(components, "receipts") {
        Some((port_id, channel_id, sequence)) => Some(
            Path::Receipt(ReceiptPath { port_id, channel_id, sequence }),
        ),
        None => None,
    }
}

pub fn parse_upgrades(components: &[&str]) -> (r: Option<Path>)
    ensures
        opt_view(r) == upgrades_spec(strs_view(components@)),
{
    if components.len() != 3 || !str_eq(components[0], "upgradedIBCState") {
        return None;
    }
    let height = match parse_u64(components[1]) {
        Some(h) => h,
        None => return None,
    };
    let last = components[2];
    if str_eq(last, "upgradedClient") {
        Some(Path::UpgradeClient(UpgradeClientPath::UpgradedClientState(height)))
    } else if str_eq(last, "upgradedConsState") {
        Some(Path::UpgradeClient(UpgradeClientPath::UpgradedClientConsensusState(height)))
    } else {
        None
    }
}

/// Tries the recognizers in order on the segments of a path.
fn recognize_segments(c: &[&str]) -> (r: Option<Path>)
    ensures
        opt_view(r) == recognize(strs_view(c@)),
{
    let r = parse_next_sequence(c);
    if r.is_some() {
        return r;
    }
    let r = parse_client_paths(c);
    if r.is_some() {
        return r;
    }
    let r = parse_connections(c);
    if r.is_some() {
        return r;
    }
    let r = parse_ports(c);
    if r.is_some() {
        return r;
    }
    let r = parse_channel_ends(c);
    if r.is_some() {
        return r;
    }
    let r = parse_seqs(c);
    if r.is_some() {
        return r;
    }
    let r = parse_commitments(c);
    if r.is_some() {
        return r;
    }
    let r = parse_acks(c);
    if r.is_some() {
        return r;
    }
    let r = parse_receipts(c);
    if r.is_some() {
        return r;
    }
    parse_upgrades(c)
}

/// The path that `s` denotes, or the failure that carries `s`.
pub fn decode(s: &str) -> (r: Result<Path, PathError>)
    ensures
        match r {
            Ok(p) => decoded(s@) == Some(p@) && p@.wf(),
            Err(e) => decoded(s@) is None && e->path@ == s@,
        },
{
    let found = match split_by(s, '/', MAX_SEGMENTS) {
        Some(parts) => recognize_segments(parts.as_slice()),
        None => None,
    };
    match found {
        Some(p) => Ok(p),
        None => Err(PathError::ParseFailure { path: String::from_str(s) }),
    }
}

impl core::str::FromStr for Path {
    type Err = PathError;

    fn from_str(s: &str) -> (r: Result<Path, PathError>)
        ensures
            match r {
                Ok(p) => decoded(s@) == Some(p@) && p@.wf(),
                Err(e) => decoded(s@) is None && e->path@ == s@,
            },
    {
        decode(s)
    }
}

} // verus!
