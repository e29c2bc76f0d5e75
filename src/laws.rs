//! What holds of the codec as a whole: decoding inverts encoding, no two
//! paths share a text, and the grammar refuses what it does not name.

use vstd::prelude::*;
use crate::decimal::{all_digits, decimal, is_digit, lemma_decimal, lemma_parse_decimal, parse_u64_spec};
use crate::identifiers::{id_chars_only, is_id_char};
use crate::parse::{decoded, height_spec, recognize};
use crate::path::{encoded, height_text, segments, PathView};
use crate::text::{free_of, join_with, lemma_split_join};

verus! {

proof fn lemma_id_free_of_slash(s: Seq<char>)
    requires
        id_chars_only(s),
    ensures
        free_of(s, '/'),
{
    assert forall|i: int| 0 <= i < s.len() implies s[i] != '/' by {
        assert(is_id_char(s[i]));
    }
}

proof fn lemma_digits_free_of(s: Seq<char>, c: char)
    requires
        all_digits(s),
        !is_digit(c),
    ensures
        free_of(s, c),
{
    assert forall|i: int| 0 <= i < s.len() implies s[i] != c by {
        assert(is_digit(s[i]));
    }
}

proof fn lemma_decimal_free_of(n: u64, c: char)
    requires
        !is_digit(c),
    ensures
        free_of(decimal(n as nat), c),
        parse_u64_spec(decimal(n as nat)) == Some(n),
{
    lemma_decimal(n as nat);
    lemma_digits_free_of(decimal(n as nat), c);
    lemma_parse_decimal(n);
}

/// The height segment reads back as the two numbers it was written from, and
/// holds no `/`.
proof fn lemma_height(number: u64, height: u64)
    ensures
        height_spec(height_text(number, height)) == Some((number, height)),
        free_of(height_text(number, height), '/'),
{
    let a = decimal(number as nat);
    let b = decimal(height as nat);
    lemma_decimal_free_of(number, '-');
    lemma_decimal_free_of(height, '-');
    lemma_decimal_free_of(number, '/');
    lemma_decimal_free_of(height, '/');
    let parts = seq![a, b];
    assert forall|i: int| 0 <= i < parts.len() implies free_of(#[trigger] parts[i], '-') by {}
    lemma_split_join(parts, '-');
    assert(parts.drop_last() =~= seq![a]);
    assert(join_with(seq![a], '-') == a);
    let t = height_text(number, height);
    assert(t == a.push('-') + b);
    assert forall|i: int| 0 <= i < t.len() implies t[i] != '/' by {
        if i < a.len() {
            assert(t[i] == a[i]);
        } else if i > a.len() {
            assert(t[i] == b[i - a.len() - 1]);
        }
    }
}

/// The fixed segments of the grammar hold no `/`.
proof fn lemma_literals_free_of_slash()
    ensures
        free_of("nextClientSequence"@, '/'),
        free_of("nextConnectionSequence"@, '/'),
        free_of("nextChannelSequence"@, '/'),
        free_of("clients"@, '/'),
        free_of("clientState"@, '/'),
        free_of("consensusStates"@, '/'),
        free_of("processedTime"@, '/'),
        free_of("processedHeight"@, '/'),
        free_of("connections"@, '/'),
        free_of("ports"@, '/'),
        free_of("channelEnds"@, '/'),
        free_of("channels"@, '/'),
        free_of("nextSequenceSend"@, '/'),
        free_of("nextSequenceRecv"@, '/'),
        free_of("nextSequenceAck"@, '/'),
        free_of("commitments"@, '/'),
        free_of("acks"@, '/'),
        free_of("receipts"@, '/'),
        free_of("sequences"@, '/'),
        free_of("upgradedIBCState"@, '/'),
        free_of("upgradedClient"@, '/'),
        free_of("upgradedConsState"@, '/'),
{
    assert(free_of("nextClientSequence"@, '/')) by {
        reveal_strlit("nextClientSequence");
    }
    assert(free_of("nextConnectionSequence"@, '/')) by {
        reveal_strlit("nextConnectionSequence");
    }
    assert(free_of("nextChannelSequence"@, '/')) by {
        reveal_strlit("nextChannelSequence");
    }
    assert(free_of("clients"@, '/')) by {
        reveal_strlit("clients");
    }
    assert(free_of("clientState"@, '/')) by {
        reveal_strlit("clientState");
    }
    assert(free_of("consensusStates"@, '/')) by {
        reveal_strlit("consensusStates");
    }
    assert(free_of("processedTime"@, '/')) by {
        reveal_strlit("processedTime");
    }
    assert(free_of("processedHeight"@, '/')) by {
        reveal_strlit("processedHeight");
    }
    assert(free_of("connections"@, '/')) by {
        reveal_strlit("connections");
    }
    assert(free_of("ports"@, '/')) by {
        reveal_strlit("ports");
    }
    assert(free_of("channelEnds"@, '/')) by {
        reveal_strlit("channelEnds");
    }
    assert(free_of("channels"@, '/')) by {
        reveal_strlit("channels");
    }
    assert(free_of("nextSequenceSend"@, '/')) by {
        reveal_strlit("nextSequenceSend");
    }
    assert(free_of("nextSequenceRecv"@, '/')) by {
        reveal_strlit("nextSequenceRecv");
    }
    assert(free_of("nextSequenceAck"@, '/')) by {
        reveal_strlit("nextSequenceAck");
    }
    assert(free_of("commitments"@, '/')) by {
        reveal_strlit("commitments");
    }
    assert(free_of("acks"@, '/')) by {
        reveal_strlit("acks");
    }
    assert(free_of("receipts"@, '/')) by {
        reveal_strlit("receipts");
    }
    assert(free_of("sequences"@, '/')) by {
        reveal_strlit("sequences");
    }
    assert(free_of("upgradedIBCState"@, '/')) by {
        reveal_strlit("upgradedIBCState");
    }
    assert(free_of("upgradedClient"@, '/')) by {
        reveal_strlit("upgradedClient");
    }
    assert(free_of("upgradedConsState"@, '/')) by {
        reveal_strlit("upgradedConsState");
    }
}

/// No segment of a well-formed path holds a `/`.
proof fn lemma_segments_free_of_slash(p: PathView)
    requires
        p.wf(),
    ensures
        segments(p).len() >= 1,
        forall|i: int| 0 <= i < segments(p).len() ==> free_of(#[trigger] segments(p)[i], '/'),
{
    lemma_literals_free_of_slash();
    match p {
        PathView::ClientState { client } => lemma_id_free_of_slash(client),
        PathView::ClientConsensusState { client, number, height } => {
            lemma_id_free_of_slash(client);
            lemma_height(number, height);
        },
        PathView::ClientUpdateTime { client, number, height } => {
            lemma_id_free_of_slash(client);
            lemma_height(number, height);
        },
        PathView::ClientUpdateHeight { client, number, height } => {
            lemma_id_free_of_slash(client);
            lemma_height(number, height);
        },
        PathView::ClientConnection { client } => lemma_id_free_of_slash(client),
        PathView::Connection { connection } => lemma_id_free_of_slash(connection),
        PathView::Ports { port } => lemma_id_free_of_slash(port),
        PathView::ChannelEnd { port, channel } => {
            lemma_id_free_of_slash(port);
            lemma_id_free_of_slash(channel);
        },
        PathView::SeqSend { port, channel } => {
            lemma_id_free_of_slash(port);
            lemma_id_free_of_slash(channel);
        },
        PathView::SeqRecv { port, channel } => {
            lemma_id_free_of_slash(port);
            lemma_id_free_of_slash(channel);
        },
        PathView::SeqAck { port, channel } => {
            lemma_id_free_of_slash(port);
            lemma_id_free_of_slash(channel);
        },
        PathView::Commitment { port, channel, sequence } => {
            lemma_id_free_of_slash(port);
            lemma_id_free_of_slash(channel);
            lemma_decimal_free_of(sequence, '/');
        },
        PathView::Ack { port, channel, sequence } => {
            lemma_id_free_of_slash(port);
            lemma_id_free_of_slash(channel);
            lemma_decimal_free_of(sequence, '/');
        },
        PathView::Receipt { port, channel, sequence } => {
            lemma_id_free_of_slash(port);
            lemma_id_free_of_slash(channel);
            lemma_decimal_free_of(sequence, '/');
        },
        PathView::UpgradedClientState { height } => {
            lemma_decimal_free_of(height, '/');
        },
        PathView::UpgradedClientConsensusState { height } => {
            lemma_decimal_free_of(height, '/');
        },
        _ => {},
    }
}

/// The recognizers, tried in order, give back the path whose segments they see.
proof fn lemma_recognize_segments(p: PathView)
    requires
        p.wf(),
    ensures
        recognize(segments(p)) == Some(p),
{
    reveal_strlit("nextClientSequence");
    reveal_strlit("nextConnectionSequence");
    reveal_strlit("nextChannelSequence");
    reveal_strlit("clients");
    reveal_strlit("clientState");
    reveal_strlit("consensusStates");
    reveal_strlit("processedTime");
    reveal_strlit("processedHeight");
    reveal_strlit("connections");
    reveal_strlit("ports");
    reveal_strlit("channelEnds");
    reveal_strlit("nextSequenceSend");
    reveal_strlit("nextSequenceRecv");
    reveal_strlit("nextSequenceAck");
    reveal_strlit("commitments");
    reveal_strlit("acks");
    reveal_strlit("receipts");
    reveal_strlit("upgradedIBCState");
    reveal_strlit("upgradedClient");
    reveal_strlit("upgradedConsState");
    match p {
        PathView::ClientConsensusState { number, height, .. } => lemma_height(number, height),
        PathView::ClientUpdateTime { number, height, .. } => lemma_height(number, height),
        PathView::ClientUpdateHeight { number, height, .. } => {
            lemma_height(number, height);
            assert("processedTime"@[9] != "processedHeight"@[9]);
        },
        PathView::ClientConnection { .. } => {
            assert("clientState"@[1] != "connections"@[1]);
        },
        PathView::SeqRecv { .. } => {
            assert("nextSequenceSend"@[12] != "nextSequenceRecv"@[12]);
            assert("channelEnds"@[0] != "nextSequenceRecv"@[0]);
        },
        PathView::Commitment { sequence, .. } => lemma_decimal_free_of(sequence, '/'),
        PathView::Ack { sequence, .. } => {
            lemma_decimal_free_of(sequence, '/');
            assert("commitments"@[0] != "acks"@[0]);
        },
        PathView::Receipt { sequence, .. } => {
            lemma_decimal_free_of(sequence, '/');
            assert("commitments"@[0] != "receipts"@[0]);
            assert("acks"@[0] != "receipts"@[0]);
        },
        PathView::UpgradedClientState { height } => {
            lemma_decimal_free_of(height, '/');
            assert("clients"@[0] != "upgradedIBCState"@[0]);
        },
        PathView::UpgradedClientConsensusState { height } => {
            lemma_decimal_free_of(height, '/');
            assert("clients"@[0] != "upgradedIBCState"@[0]);
            assert("upgradedClient"@[9] != "upgradedConsState"@[9]);
        },
        PathView::NextConnectionSequence => {
            assert("nextClientSequence"@[5] != "nextConnectionSequence"@[5]);
        },
        PathView::NextChannelSequence => {
            assert("nextClientSequence"@[5] != "nextChannelSequence"@[5]);
            assert("nextConnectionSequence"@[5] != "nextChannelSequence"@[5]);
        },
        PathView::Ports { .. } => {
            assert("connections"@[0] != "ports"@[0]);
        },
        PathView::SeqSend { .. } => {
            assert("channelEnds"@[0] != "nextSequenceSend"@[0]);
        },
        PathView::SeqAck { .. } => {
            assert("channelEnds"@[0] != "nextSequenceAck"@[0]);
            assert("nextSequenceSend"@[12] != "nextSequenceAck"@[12]);
            assert("nextSequenceRecv"@[12] != "nextSequenceAck"@[12]);
        },
        _ => {},
    }
}

/// Decoding the canonical text of any well-formed path gives that path back.
pub proof fn lemma_round_trip(p: PathView)
    requires
        p.wf(),
    ensures
        decoded(encoded(p)) == Some(p),
{
    lemma_segments_free_of_slash(p);
    lemma_split_join(segments(p), '/');
    lemma_recognize_segments(p);
}

/// Two well-formed paths with the same canonical text are the same path.
pub proof fn lemma_encoding_injective(p: PathView, q: PathView)
    requires
        p.wf(),
        q.wf(),
        encoded(p) == encoded(q),
    ensures
        p == q,
{
    lemma_round_trip(p);
    lemma_round_trip(q);
}

/// Under `upgradedIBCState/{height}/`, only `upgradedClient` and
/// `upgradedConsState` are paths: any other last segment is refused.
pub proof fn lemma_upgrade_other_key_refused(height: Seq<char>, key: Seq<char>)
    requires
        free_of(height, '/'),
        free_of(key, '/'),
        key != "upgradedClient"@,
        key != "upgradedConsState"@,
    ensures
        decoded(join_with(seq!["upgradedIBCState"@, height, key], '/')) is None,
{
    reveal_strlit("upgradedIBCState");
    reveal_strlit("clients");
    let c = seq!["upgradedIBCState"@, height, key];
    assert forall|i: int| 0 <= i < c.len() implies free_of(#[trigger] c[i], '/') by {
        if i == 0 {
            assert(c[0] == "upgradedIBCState"@);
        }
    }
    lemma_split_join(c, '/');
    assert(c[0] != "clients"@);
}

} // verus!
