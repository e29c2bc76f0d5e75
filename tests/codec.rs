use std::str::FromStr;

use ibc_core_host_types::identifiers::{
    ChannelId, ClientId, ConnectionId, IdentifierError, PortId, Sequence,
};
use ibc_core_host_types::parse::{decode, parse_height, PathError};
use ibc_core_host_types::path::{
    encode, AckPath, ChannelEndPath, ClientConnectionPath, ClientConsensusStatePath,
    ClientStatePath, ClientUpdateHeightPath, ClientUpdateTimePath, CommitmentPath, ConnectionPath,
    NextChannelSequencePath, NextClientSequencePath, NextConnectionSequencePath, Path, PortPath,
    ReceiptPath, SeqAckPath, SeqRecvPath, SeqSendPath, UpgradeClientPath,
};

fn client() -> ClientId {
    ClientId::parse("07-tendermint-42").expect("valid client id")
}

fn port() -> PortId {
    PortId::parse("my-port").expect("valid port id")
}

fn channel() -> ChannelId {
    ChannelId::new(7)
}

fn sequence(text: &str) -> Sequence {
    Sequence::parse(text).expect("valid sequence")
}

fn all_paths() -> Vec<Path> {
    let max = u64::MAX;
    vec![
        Path::NextClientSequence(NextClientSequencePath),
        Path::NextConnectionSequence(NextConnectionSequencePath),
        Path::NextChannelSequence(NextChannelSequencePath),
        Path::ClientState(ClientStatePath::new(&client())),
        Path::ClientConsensusState(ClientConsensusStatePath::new(client(), max, 0)),
        Path::ClientUpdateTime(ClientUpdateTimePath::new(client(), 3, max)),
        Path::ClientUpdateHeight(ClientUpdateHeightPath::new(client(), 3, 4)),
        Path::ClientConnection(ClientConnectionPath::new(&client())),
        Path::Connection(ConnectionPath::new(&ConnectionId::new(max))),
        Path::Ports(PortPath(port())),
        Path::ChannelEnd(ChannelEndPath::new(&port(), &channel())),
        Path::SeqSend(SeqSendPath::new(&port(), &channel())),
        Path::SeqRecv(SeqRecvPath::new(&port(), &channel())),
        Path::SeqAck(SeqAckPath::new(&port(), &channel())),
        Path::Commitment(CommitmentPath::new(&port(), &channel(), sequence("18446744073709551615"))),
        Path::Ack(AckPath::new(&port(), &channel(), sequence("1"))),
        Path::Receipt(ReceiptPath::new(&port(), &channel(), sequence("12"))),
        Path::UpgradeClient(UpgradeClientPath::UpgradedClientState(max)),
        Path::UpgradeClient(UpgradeClientPath::UpgradedClientConsensusState(10)),
    ]
}

#[test]
fn round_trip_of_every_variant() {
    for p in all_paths() {
        let text = encode(&p);
        assert_eq!(decode(&text), Ok(p.clone()));
        assert_eq!(Path::from_str(&text), Ok(p));
    }
}

#[test]
fn every_variant_has_its_own_text() {
    let texts: Vec<String> = all_paths().iter().map(encode).collect();
    for i in 0..texts.len() {
        for j in 0..texts.len() {
            if i != j {
                assert_ne!(texts[i], texts[j]);
            }
        }
    }
}

#[test]
fn encoding_of_large_numbers() {
    let p = Path::ClientConsensusState(ClientConsensusStatePath::new(ClientId::default(), u64::MAX, 0));
    assert_eq!(
        p.to_string(),
        "clients/07-tendermint-0/consensusStates/18446744073709551615-0"
    );
    let c = Path::Commitment(CommitmentPath::new(&PortId::transfer(), &ChannelId::new(12), sequence("305")));
    assert_eq!(c.to_string(), "commitments/ports/transfer/channels/channel-12/sequences/305");
    assert_eq!(
        Path::Connection(ConnectionPath::new(&ConnectionId::new(42))).to_string(),
        "connections/connection-42"
    );
}

#[test]
fn into_bytes_is_the_utf8_text() {
    let p = Path::Ports(PortPath(PortId::transfer()));
    assert_eq!(p.into_bytes(), b"ports/transfer".to_vec());
}

#[test]
fn height_needs_exactly_one_dash() {
    assert!(decode("clients/07-tendermint-0/consensusStates/15-31-7").is_err());
    assert!(decode("clients/07-tendermint-0/consensusStates/15").is_err());
    assert!(decode("clients/07-tendermint-0/consensusStates/15-").is_err());
    assert!(decode("clients/07-tendermint-0/consensusStates/-31").is_err());
    assert!(decode("clients/07-tendermint-0/consensusStates/a-31").is_err());
    assert_eq!(parse_height("15-31"), Some((15, 31)));
    assert_eq!(parse_height("15-31-7"), None);
    assert_eq!(parse_height("15"), None);
}

#[test]
fn height_numbers_follow_u64_text() {
    let p = decode("clients/07-tendermint-0/consensusStates/+15-031").expect("parses");
    assert_eq!(
        p,
        Path::ClientConsensusState(ClientConsensusStatePath::new(ClientId::default(), 15, 31))
    );
    assert_eq!(p.to_string(), "clients/07-tendermint-0/consensusStates/15-31");
    assert!(decode("clients/07-tendermint-0/consensusStates/18446744073709551616-1").is_err());
    assert!(decode("clients/07-tendermint-0/consensusStates/+-1").is_err());
}

#[test]
fn client_update_needs_known_suffix() {
    assert!(decode("clients/07-tendermint-0/consensusStates/15-31/processed").is_err());
    assert!(decode("clients/07-tendermint-0/clientStates").is_err());
    assert!(decode("clients").is_err());
    assert!(decode("clients/07-tendermint-0").is_err());
}

#[test]
fn provability_of_decoded_paths() {
    assert!(!decode("ports/transfer").unwrap().is_provable());
    assert!(decode("connections/connection-0").unwrap().is_provable());
    assert!(!decode("clients/07-tendermint-0/connections").unwrap().is_provable());
    assert!(decode("clients/07-tendermint-0/clientState").unwrap().is_provable());
    assert!(decode("upgradedIBCState/3/upgradedClient").unwrap().is_provable());
}

#[test]
fn upgrade_paths() {
    assert_eq!(
        decode("upgradedIBCState/0/upgradedClient"),
        Ok(Path::UpgradeClient(UpgradeClientPath::UpgradedClientState(0)))
    );
    assert_eq!(
        decode("upgradedIBCState/0/upgradedConsState"),
        Ok(Path::UpgradeClient(UpgradeClientPath::UpgradedClientConsensusState(0)))
    );
    assert!(decode("upgradedIBCState/0/upgradedOther").is_err());
    assert!(decode("upgradedIBCState/0/").is_err());
    assert!(decode("upgradedIBCState/x/upgradedClient").is_err());
    assert!(decode("upgradedIBCState/18446744073709551616/upgradedClient").is_err());
}

#[test]
fn failure_carries_the_input() {
    let err = decode("nowhere/at/all").unwrap_err();
    assert_eq!(err, PathError::ParseFailure { path: "nowhere/at/all".to_string() });
    assert_eq!(err.path(), "nowhere/at/all");
    assert_eq!(err.to_string(), "`nowhere/at/all` could not be parsed into a Path");
    assert!(decode("").is_err());
    assert!(decode("/").is_err());
    assert!(decode("a/b/c/d/e/f/g/h/i").is_err());
    assert!(decode("commitments/ports/transfer/channels/channel-0/sequences/0/extra").is_err());
}

#[test]
fn sequence_families_are_told_apart() {
    assert!(decode("nextSequenceFoo/ports/transfer/channels/channel-0").is_err());
    assert!(decode("nextSequenceSend/port/transfer/channels/channel-0").is_err());
    assert!(decode("nextSequenceSend/ports/transfer/channel/channel-0").is_err());
    assert!(decode("channelEnds/ports/transfer/channels/chan").is_err());
    assert!(decode("acks/ports/transfer/channels/channel-0/sequence/0").is_err());
    assert!(decode("receipts/ports/transfer/channels/channel-0/sequences/x").is_err());
}

#[test]
fn identifier_rules() {
    assert!(matches!(ClientId::parse("short"), Err(IdentifierError::InvalidLength { min: 9, max: 64, .. })));
    assert!(matches!(ClientId::parse("bad/client-id"), Err(IdentifierError::InvalidCharacter { .. })));
    assert!(matches!(ClientId::parse("bad client"), Err(IdentifierError::InvalidCharacter { .. })));
    assert!(ClientId::parse("client.id_+#[]<>").is_ok());
    assert!(PortId::parse("t").is_err());
    assert!(PortId::parse("tr").is_ok());
    assert!(ConnectionId::parse("connection").is_ok());
    assert!(ConnectionId::parse("connectio").is_err());
    assert!(ChannelId::parse("channel").is_err());
    assert_eq!(ChannelId::default().as_str(), "channel-0");
    assert_eq!(ConnectionId::new(42).as_str(), "connection-42");
    assert_eq!(ClientId::default().as_str(), "07-tendermint-0");
    let long = "a".repeat(65);
    assert!(ClientId::parse(&long).is_err());
    assert!(ClientId::parse(&long[..64]).is_ok());
    assert!(decode(&format!("clients/{}/clientState", long)).is_err());
    assert!(decode("ports/tr\u{e9}s").is_err());
}

#[test]
fn sequence_rules() {
    assert_eq!(sequence("0").value(), 0);
    assert_eq!(sequence("+7").value(), 7);
    assert_eq!(sequence("18446744073709551615").value(), u64::MAX);
    assert!(matches!(Sequence::parse("18446744073709551616"), Err(IdentifierError::InvalidNumber { .. })));
    assert!(Sequence::parse("").is_err());
    assert!(Sequence::parse("+").is_err());
    assert!(Sequence::parse("-1").is_err());
    assert!(Sequence::parse("1a").is_err());
    assert_eq!(Sequence::default().value(), 0);
}
