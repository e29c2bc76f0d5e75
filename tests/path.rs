use std::str::FromStr;

use ibc_core_host_types::identifiers::{ChannelId, ClientId, ConnectionId, PortId, Sequence};
use ibc_core_host_types::parse::{
    parse_acks, parse_channel_ends, parse_channels, parse_client_paths, parse_commitments,
    parse_connections, parse_ports, parse_receipts, parse_seqs, parse_sequences, parse_upgrades,
    SubPath,
};
use ibc_core_host_types::path::{
    AckPath, ChannelEndPath, ClientConnectionPath, ClientConsensusStatePath, ClientStatePath,
    ClientUpdateHeightPath, ClientUpdateTimePath, CommitmentPath, ConnectionPath,
    NextChannelSequencePath, NextClientSequencePath, NextConnectionSequencePath, Path, PortPath,
    ReceiptPath, SeqAckPath, SeqRecvPath, SeqSendPath, UpgradeClientPath,
};

fn check_successful_parsing(path_str: &str, path: Path) {
    // can be parsed into Path
    assert_eq!(Path::from_str(path_str).expect("no error"), path);
    // can be converted back to string
    assert_eq!(path_str, path.to_string());
}

fn check_failure_parsing(path_str: &str) {
    // cannot be parsed into Path
    assert!(Path::from_str(path_str).is_err());
}

#[test]
fn test_successful_parsing_next_client_sequence() {
    check_successful_parsing(
        "nextClientSequence",
        Path::NextClientSequence(NextClientSequencePath),
    );
}

#[test]
fn test_successful_parsing_next_connection_sequence() {
    check_successful_parsing(
        "nextConnectionSequence",
        Path::NextConnectionSequence(NextConnectionSequencePath),
    );
}

#[test]
fn test_successful_parsing_next_channel_sequence() {
    check_successful_parsing(
        "nextChannelSequence",
        Path::NextChannelSequence(NextChannelSequencePath),
    );
}

#[test]
fn test_successful_parsing_client_state() {
    check_successful_parsing(
        "clients/07-tendermint-0/clientState",
        Path::ClientState(ClientStatePath(ClientId::default())),
    );
}

#[test]
fn test_successful_parsing_client_consensus_state() {
    check_successful_parsing(
        "clients/07-tendermint-0/consensusStates/15-31",
        Path::ClientConsensusState(ClientConsensusStatePath {
            client_id: ClientId::default(),
            revision_number: 15,
            revision_height: 31,
        }),
    );
}

#[test]
fn test_successful_parsing_client_update_time() {
    check_successful_parsing(
        "clients/07-tendermint-0/consensusStates/15-31/processedTime",
        Path::ClientUpdateTime(ClientUpdateTimePath {
            client_id: ClientId::default(),
            revision_number: 15,
            revision_height: 31,
        }),
    );
}

#[test]
fn test_successful_parsing_client_update_height() {
    check_successful_parsing(
        "clients/07-tendermint-0/consensusStates/15-31/processedHeight",
        Path::ClientUpdateHeight(ClientUpdateHeightPath {
            client_id: ClientId::default(),
            revision_number: 15,
            revision_height: 31,
        }),
    );
}

#[test]
fn test_successful_parsing_client_connection() {
    check_successful_parsing(
        "clients/07-tendermint-0/connections",
        Path::ClientConnection(ClientConnectionPath(ClientId::default())),
    );
}

#[test]
fn test_successful_parsing_connection() {
    check_successful_parsing(
        "connections/connection-0",
        Path::Connection(ConnectionPath(ConnectionId::new(0))),
    );
}

#[test]
fn test_successful_parsing_ports() {
    check_successful_parsing(
        "ports/transfer",
        Path::Ports(PortPath(PortId::transfer())),
    );
}

#[test]
fn test_successful_parsing_channel_end() {
    check_successful_parsing(
        "channelEnds/ports/transfer/channels/channel-0",
        Path::ChannelEnd(ChannelEndPath(PortId::transfer(), ChannelId::default())),
    );
}

#[test]
fn test_successful_parsing_seq_send() {
    check_successful_parsing(
        "nextSequenceSend/ports/transfer/channels/channel-0",
        Path::SeqSend(SeqSendPath(PortId::transfer(), ChannelId::default())),
    );
}

#[test]
fn test_successful_parsing_seq_recv() {
    check_successful_parsing(
        "nextSequenceRecv/ports/transfer/channels/channel-0",
        Path::SeqRecv(SeqRecvPath(PortId::transfer(), ChannelId::default())),
    );
}

#[test]
fn test_successful_parsing_seq_ack() {
    check_successful_parsing(
        "nextSequenceAck/ports/transfer/channels/channel-0",
        Path::SeqAck(SeqAckPath(PortId::transfer(), ChannelId::default())),
    );
}

#[test]
fn test_successful_parsing_commitment() {
    check_successful_parsing(
        "commitments/ports/transfer/channels/channel-0/sequences/0",
        Path::Commitment(CommitmentPath {
            port_id: PortId::transfer(),
            channel_id: ChannelId::default(),
            sequence: Sequence::default(),
        }),
    );
}

#[test]
fn test_successful_parsing_ack() {
    check_successful_parsing(
        "acks/ports/transfer/channels/channel-0/sequences/0",
        Path::Ack(AckPath {
            port_id: PortId::transfer(),
            channel_id: ChannelId::default(),
            sequence: Sequence::default(),
        }),
    );
}

#[test]
fn test_successful_parsing_receipt() {
    check_successful_parsing(
        "receipts/ports/transfer/channels/channel-0/sequences/0",
        Path::Receipt(ReceiptPath {
            port_id: PortId::transfer(),
            channel_id: ChannelId::default(),
            sequence: Sequence::default(),
        }),
    );
}

#[test]
fn test_successful_parsing_upgraded_client_state() {
    check_successful_parsing(
        "upgradedIBCState/0/upgradedClient",
        Path::UpgradeClient(UpgradeClientPath::UpgradedClientState(0)),
    );
}

#[test]
fn test_successful_parsing_upgraded_client_consensus_state() {
    check_successful_parsing(
        "upgradedIBCState/0/upgradedConsState",
        Path::UpgradeClient(UpgradeClientPath::UpgradedClientConsensusState(0)),
    );
}

#[test]
fn test_failure_parsing_client_type() {
    check_failure_parsing("clients/clientType");
}

#[test]
fn test_failure_parsing_channels() {
    check_failure_parsing("channels/channel-0");
}

#[test]
fn test_failure_parsing_sequences() {
    check_failure_parsing("sequences/0");
}

#[test]
fn test_parse_client_paths_fn() {
    let path = "clients/07-tendermint-0/clientState";
    let components: Vec<&str> = path.split('/').collect();

    assert_eq!(
        parse_client_paths(&components),
        Some(Path::ClientState(ClientStatePath(ClientId::default())))
    );

    let path = "clients/07-tendermint-0/consensusStates/15-31";
    let components: Vec<&str> = path.split('/').collect();

    assert_eq!(
        parse_client_paths(&components),
        Some(Path::ClientConsensusState(ClientConsensusStatePath {
            client_id: ClientId::default(),
            revision_number: 15,
            revision_height: 31,
        }))
    );
}

#[test]
fn test_parse_client_update_paths_fn() {
    let path = "clients/07-tendermint-0/consensusStates/15-31/processedTime";
    let components: Vec<&str> = path.split('/').collect();

    assert_eq!(
        parse_client_paths(&components),
        Some(Path::ClientUpdateTime(ClientUpdateTimePath {
            client_id: ClientId::default(),
            revision_number: 15,
            revision_height: 31,
        }))
    );

    let path = "clients/07-tendermint-0/consensusStates/15-31/processedHeight";
    let components: Vec<&str> = path.split('/').collect();

    assert_eq!(
        parse_client_paths(&components),
        Some(Path::ClientUpdateHeight(ClientUpdateHeightPath {
            client_id: ClientId::default(),
            revision_number: 15,
            revision_height: 31,
        }))
    );
}

#[test]
fn test_parse_connections_fn() {
    let path = "connections/connection-0";
    let components: Vec<&str> = path.split('/').collect();

    assert_eq!(
        parse_connections(&components),
        Some(Path::Connection(ConnectionPath(ConnectionId::new(0)))),
    );
}

#[test]
fn test_parse_ports_fn() {
    let path = "ports/transfer";
    let components: Vec<&str> = path.split('/').collect();

    assert_eq!(
        parse_ports(&components),
        Some(Path::Ports(PortPath(PortId::transfer()))),
    );
}

#[test]
fn test_parse_channels_fn() {
    let path = "channels/channel-0";
    let components: Vec<&str> = path.split('/').collect();

    assert_eq!(
        parse_channels(&components),
        Some(SubPath::Channels(ChannelId::default())),
    );
}

#[test]
fn test_parse_sequences_fn() {
    let path = "sequences/0";
    let components: Vec<&str> = path.split('/').collect();

    assert_eq!(
        parse_sequences(&components),
        Some(SubPath::Sequences(Sequence::default()))
    );
}

#[test]
fn test_parse_channel_ends_fn() {
    let path = "channelEnds/ports/transfer/channels/channel-0";
    let components: Vec<&str> = path.split('/').collect();

    assert_eq!(
        parse_channel_ends(&components),
        Some(Path::ChannelEnd(ChannelEndPath(
            PortId::transfer(),
            ChannelId::default()
        ))),
    );
}

#[test]
fn test_parse_seqs_fn() {
    let path = "nextSequenceSend/ports/transfer/channels/channel-0";
    let components: Vec<&str> = path.split('/').collect();

    assert_eq!(
        parse_seqs(&components),
        Some(Path::SeqSend(SeqSendPath(
            PortId::transfer(),
            ChannelId::default()
        ))),
    );

    let path = "nextSequenceRecv/ports/transfer/channels/channel-0";
    let components: Vec<&str> = path.split('/').collect();

    assert_eq!(
        parse_seqs(&components),
        Some(Path::SeqRecv(SeqRecvPath(
            PortId::transfer(),
            ChannelId::default()
        ))),
    );

    let path = "nextSequenceAck/ports/transfer/channels/channel-0";
    let components: Vec<&str> = path.split('/').collect();

    assert_eq!(
        parse_seqs(&components),
        Some(Path::SeqAck(SeqAckPath(
            PortId::transfer(),
            ChannelId::default()
        ))),
    );
}

#[test]
fn test_parse_commitments_fn() {
    let path = "commitments/ports/transfer/channels/channel-0/sequences/0";
    let components: Vec<&str> = path.split('/').collect();

    assert_eq!(
        parse_commitments(&components),
        Some(Path::Commitment(CommitmentPath {
            port_id: PortId::transfer(),
            channel_id: ChannelId::default(),
            sequence: Sequence::default(),
        })),
    );
}

#[test]
fn test_parse_acks_fn() {
    let path = "acks/ports/transfer/channels/channel-0/sequences/0";
    let components: Vec<&str> = path.split('/').collect();

    assert_eq!(
        parse_acks(&components),
        Some(Path::Ack(AckPath {
            port_id: PortId::transfer(),
            channel_id: ChannelId::default(),
            sequence: Sequence::default(),
        })),
    );
}

#[test]
fn test_parse_receipts_fn() {
    let path = "receipts/ports/transfer/channels/channel-0/sequences/0";
    let components: Vec<&str> = path.split('/').collect();

    assert_eq!(
        parse_receipts(&components),
        Some(Path::Receipt(ReceiptPath {
            port_id: PortId::transfer(),
            channel_id: ChannelId::default(),
            sequence: Sequence::default(),
        })),
    );
}

#[test]
fn test_parse_upgrades_fn() {
    let path = "upgradedIBCState/0/upgradedClient";
    let components: Vec<&str> = path.split('/').collect();

    assert_eq!(
        parse_upgrades(&components),
        Some(Path::UpgradeClient(UpgradeClientPath::UpgradedClientState(
            0
        ))),
    );

    let path = "upgradedIBCState/0/upgradedConsState";
    let components: Vec<&str> = path.split('/').collect();

    assert_eq!(
        parse_upgrades(&components),
        Some(Path::UpgradeClient(
            UpgradeClientPath::UpgradedClientConsensusState(0)
        )),
    )
}
