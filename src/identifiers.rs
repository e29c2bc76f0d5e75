//! The leaf identifiers that paths are made of: client, connection, port and
//! channel identifiers, and packet sequence numbers.
//!
//! An identifier is a non-empty run of ASCII letters, digits and the
//! characters `._+-#[]<>`, with a length window of its own kind. A sequence
//! number is a `u64` written in decimal.

use vstd::prelude::*;
use vstd::std_specs::iter::IteratorSpec;
use vstd::string::StringExecFns;
use crate::decimal::{decimal, lemma_decimal, lemma_decimal_u64_len, is_digit, parse_u64, parse_u64_spec, push_decimal};

verus! {

/// The characters an identifier may hold; `/` is not one of them.
pub open spec fn is_id_char(c: char) -> bool {
    ||| ('a' <= c && c <= 'z')
    ||| ('A' <= c && c <= 'Z')
    ||| ('0' <= c && c <= '9')
    ||| c == '.'
    ||| c == '_'
    ||| c == '+'
    ||| c == '-'
    ||| c == '#'
    ||| c == '['
    ||| c == ']'
    ||| c == '<'
    ||| c == '>'
}

pub open spec fn id_chars_only(s: Seq<char>) -> bool {
    forall|i: int| 0 <= i < s.len() ==> is_id_char(#[trigger] s[i])
}

/// `s` is an identifier whose length lies in `min..=max`.
pub open spec fn valid_identifier(s: Seq<char>, min: nat, max: nat) -> bool {
    id_chars_only(s) && min <= s.len() <= max
}

pub const CLIENT_ID_MIN: usize = 9;
pub const CLIENT_ID_MAX: usize = 64;
pub const CONNECTION_ID_MIN: usize = 10;
pub const CONNECTION_ID_MAX: usize = 64;
pub const PORT_ID_MIN: usize = 2;
pub const PORT_ID_MAX: usize = 128;
pub const CHANNEL_ID_MIN: usize = 8;
pub const CHANNEL_ID_MAX: usize = 64;

pub open spec fn valid_client_id(s: Seq<char>) -> bool {
    valid_identifier(s, CLIENT_ID_MIN as nat, CLIENT_ID_MAX as nat)
}

pub open spec fn valid_connection_id(s: Seq<char>) -> bool {
    valid_identifier(s, CONNECTION_ID_MIN as nat, CONNECTION_ID_MAX as nat)
}

pub open spec fn valid_port_id(s: Seq<char>) -> bool {
    valid_identifier(s, PORT_ID_MIN as nat, PORT_ID_MAX as nat)
}

pub open spec fn valid_channel_id(s: Seq<char>) -> bool {
    valid_identifier(s, CHANNEL_ID_MIN as nat, CHANNEL_ID_MAX as nat)
}

/// Why a piece of text is not an identifier of the kind asked for.
#[derive(Clone, Debug, PartialEq, Eq)]
pub enum IdentifierError {
    /// A character outside the identifier alphabet.
    InvalidCharacter { id: String },
    /// Only allowed characters, but a length outside `min..=max`.
    InvalidLength { id: String, min: usize, max: usize },
    /// Not the decimal text of a `u64`.
    InvalidNumber { value: String },
}

/// `e` is the error that checking `s` against `min..=max` gives: a bad
/// character takes precedence over a bad length.
pub open spec fn identifier_error(e: IdentifierError, s: Seq<char>, min: usize, max: usize) -> bool {
    match e {
        IdentifierError::InvalidCharacter { id } => id@ == s && !id_chars_only(s),
        IdentifierError::InvalidLength { id, min: lo, max: hi } => {
            &&& id@ == s
            &&& id_chars_only(s)
            &&& !(min <= s.len() <= max)
            &&& lo == min
            &&& hi == max
        },
        IdentifierError::InvalidNumber { .. } => false,
    }
}

/// Exactly the characters of `is_id_char`.
pub fn is_id_char_exec(c: char) -> (r: bool)
    ensures
        r == is_id_char(c),
{
    ('a' <= c && c <= 'z') || ('A' <= c && c <= 'Z') || ('0' <= c && c <= '9') || c == '.' || c
        == '_' || c == '+' || c == '-' || c == '#' || c == '[' || c == ']' || c == '<' || c == '>'
}

/// Checks `s` against the identifier alphabet first and the length window after.
pub fn validate_identifier(s: &str, min: usize, max: usize) -> (r: Result<(), IdentifierError>)
    ensures
        match r {
            Ok(()) => valid_identifier(s@, min as nat, max as nat),
            Err(e) => identifier_error(e, s@, min, max),
        },
{
    let len = s.unicode_len();
    let mut it = s.chars();
    let ghost j: int = 0;
    loop
        invariant
            len == s@.len(),
            0 <= j <= s@.len(),
            it.remaining() == s@.skip(j),
            forall|i: int| 0 <= i < j ==> is_id_char(#[trigger] s@[i]),
        ensures
            id_chars_only(s@),
        decreases s@.len() - j,
    {
        match it.next() {
            None => {
                assert(j == s@.len());
                break ;
            },
            Some(c) => {
                assert(s@.skip(j)[0] == s@[j]);
                if !is_id_char_exec(c) {
                    return Err(IdentifierError::InvalidCharacter { id: String::from_str(s) });
                }
                assert(it.remaining() =~= s@.skip(j + 1));
                proof {
                    j = j + 1;
                }
            },
        }
    }
    if len < min || len > max {
        return Err(IdentifierError::InvalidLength { id: String::from_str(s), min, max });
    }
    Ok(())
}

/// Identifies a light client on this chain, e.g. `07-tendermint-0`.
#[derive(Debug, PartialEq, Eq, PartialOrd, Ord, Hash)]
pub struct ClientId {
    id: String,
}

impl View for ClientId {
    type V = Seq<char>;

    closed spec fn view(&self) -> Seq<char> {
        self.id@
    }
}

impl ClientId {
    /// Accepts `s` when it is a client identifier.
    pub fn parse(s: &str) -> (r: Result<ClientId, IdentifierError>)
        ensures
            match r {
                Ok(c) => valid_client_id(s@) && c@ == s@,
                Err(e) => !valid_client_id(s@) && identifier_error(e, s@, CLIENT_ID_MIN, CLIENT_ID_MAX),
            },
    {
        match validate_identifier(s, CLIENT_ID_MIN, CLIENT_ID_MAX) {
            Ok(()) => Ok(ClientId { id: String::from_str(s) }),
            Err(e) => Err(e),
        }
    }

    pub fn as_str(&self) -> (r: &str)
        ensures
            r@ == self@,
    {
        self.id.as_str()
    }
}

impl Clone for ClientId {
    fn clone(&self) -> (r: ClientId)
        ensures
            r@ == self@,
    {
        ClientId { id: self.id.clone() }
    }
}

impl Default for ClientId {
    /// The first Tendermint client, `07-tendermint-0`.
    fn default() -> (r: ClientId)
        ensures
            r@ == "07-tendermint-0"@,
            valid_client_id(r@),
    {
        proof {
            reveal_strlit("07-tendermint-0");
        }
        ClientId { id: String::from_str("07-tendermint-0") }
    }
}

/// Identifies a connection, e.g. `connection-0`.
#[derive(Debug, PartialEq, Eq, PartialOrd, Ord, Hash)]
pub struct ConnectionId {
    id: String,
}

impl View for ConnectionId {
    type V = Seq<char>;

    closed spec fn view(&self) -> Seq<char> {
        self.id@
    }
}

/// The text `prefix` followed by the decimal text of a counter holds only
/// identifier characters, given that `prefix` does.
proof fn lemma_counter_id_chars(prefix: Seq<char>, counter: u64)
    requires
        id_chars_only(prefix),
    ensures
        id_chars_only(prefix + decimal(counter as nat)),
        1 <= decimal(counter as nat).len() <= 20,
{
    lemma_decimal(counter as nat);
    lemma_decimal_u64_len(counter);
    let s = prefix + decimal(counter as nat);
    assert forall|i: int| 0 <= i < s.len() implies is_id_char(#[trigger] s[i]) by {
        if i >= prefix.len() {
            assert(s[i] == decimal(counter as nat)[i - prefix.len()]);
            assert(is_digit(decimal(counter as nat)[i - prefix.len()]));
        }
    }
}

impl Clone for ConnectionId {
    fn clone(&self) -> (r: ConnectionId)
        ensures
            r@ == self@,
    {
        ConnectionId { id: self.id.clone() }
    }
}

impl ConnectionId {
    /// The connection identifier numbered `counter`: `connection-{counter}`.
    pub fn new(counter: u64) -> (r: ConnectionId)
        ensures
            r@ == "connection-"@ + decimal(counter as nat),
            valid_connection_id(r@),
    {
        proof {
            reveal_strlit("connection-");
            lemma_counter_id_chars("connection-"@, counter);
        }
        let mut id = String::from_str("connection-");
        push_decimal(&mut id, counter);
        ConnectionId { id }
    }

    /// Accepts `s` when it is a connection identifier.
    pub fn parse(s: &str) -> (r: Result<ConnectionId, IdentifierError>)
        ensures
            match r {
                Ok(c) => valid_connection_id(s@) && c@ == s@,
                Err(e) => !valid_connection_id(s@) && identifier_error(e, s@, CONNECTION_ID_MIN, CONNECTION_ID_MAX),
            },
    {
        match validate_identifier(s, CONNECTION_ID_MIN, CONNECTION_ID_MAX) {
            Ok(()) => Ok(ConnectionId { id: String::from_str(s) }),
            Err(e) => Err(e),
        }
    }

    pub fn as_str(&self) -> (r: &str)
        ensures
            r@ == self@,
    {
        self.id.as_str()
    }
}

/// Identifies a port that a module is bound to, e.g. `transfer`.
#[derive(Debug, PartialEq, Eq, PartialOrd, Ord, Hash)]
pub struct PortId {
    id: String,
}

impl View for PortId {
    type V = Seq<char>;

    closed spec fn view(&self) -> Seq<char> {
        self.id@
    }
}

impl Clone for PortId {
    fn clone(&self) -> (r: PortId)
        ensures
            r@ == self@,
    {
        PortId { id: self.id.clone() }
    }
}

impl PortId {
    /// The port of the token transfer module.
    pub fn transfer() -> (r: PortId)
        ensures
            r@ == "transfer"@,
            valid_port_id(r@),
    {
        proof {
            reveal_strlit("transfer");
        }
        PortId { id: String::from_str("transfer") }
    }

    /// Accepts `s` when it is a port identifier.
    pub fn parse(s: &str) -> (r: Result<PortId, IdentifierError>)
        ensures
            match r {
                Ok(p) => valid_port_id(s@) && p@ == s@,
                Err(e) => !valid_port_id(s@) && identifier_error(e, s@, PORT_ID_MIN, PORT_ID_MAX),
            },
    {
        match validate_identifier(s, PORT_ID_MIN, PORT_ID_MAX) {
            Ok(()) => Ok(PortId { id: String::from_str(s) }),
            Err(e) => Err(e),
        }
    }

    pub fn as_str(&self) -> (r: &str)
        ensures
            r@ == self@,
    {
        self.id.as_str()
    }
}

/// Identifies a channel end on a port, e.g. `channel-0`.
#[derive(Debug, PartialEq, Eq, PartialOrd, Ord, Hash)]
pub struct ChannelId {
    id: String,
}

impl View for ChannelId {
    type V = Seq<char>;

    closed spec fn view(&self) -> Seq<char> {
        self.id@
    }
}

impl Clone for ChannelId {
    fn clone(&self) -> (r: ChannelId)
        ensures
            r@ == self@,
    {
        ChannelId { id: self.id.clone() }
    }
}

impl ChannelId {
    /// The channel identifier numbered `counter`: `channel-{counter}`.
    pub fn new(counter: u64) -> (r: ChannelId)
        ensures
            r@ == "channel-"@ + decimal(counter as nat),
            valid_channel_id(r@),
    {
        proof {
            reveal_strlit("channel-");
            lemma_counter_id_chars("channel-"@, counter);
        }
        let mut id = String::from_str("channel-");
        push_decimal(&mut id, counter);
        ChannelId { id }
    }

    /// Accepts `s` when it is a channel identifier.
    pub fn parse(s: &str) -> (r: Result<ChannelId, IdentifierError>)
        ensures
            match r {
                Ok(c) => valid_channel_id(s@) && c@ == s@,
                Err(e) => !valid_channel_id(s@) && identifier_error(e, s@, CHANNEL_ID_MIN, CHANNEL_ID_MAX),
            },
    {
        match validate_identifier(s, CHANNEL_ID_MIN, CHANNEL_ID_MAX) {
            Ok(()) => Ok(ChannelId { id: String::from_str(s) }),
            Err(e) => Err(e),
        }
    }

    pub fn as_str(&self) -> (r: &str)
        ensures
            r@ == self@,
    {
        self.id.as_str()
    }
}

impl Default for ChannelId {
    /// The first channel, `channel-0`.
    fn default() -> (r: ChannelId)
        ensures
            r@ == "channel-"@ + decimal(0),
            valid_channel_id(r@),
    {
        ChannelId::new(0)
    }
}

/// The sequence number of a packet on a channel.
#[derive(Clone, Copy, Debug, PartialEq, Eq, PartialOrd, Ord, Hash)]
pub struct Sequence {
    value: u64,
}

impl View for Sequence {
    type V = u64;

    closed spec fn view(&self) -> u64 {
        self.value
    }
}

impl Sequence {
    /// Accepts the decimal text of a `u64`, as `u64::from_str` does.
    pub fn parse(s: &str) -> (r: Result<Sequence, IdentifierError>)
        ensures
            match r {
                Ok(q) => parse_u64_spec(s@) == Some(q@),
                Err(e) => parse_u64_spec(s@) is None && e == (IdentifierError::InvalidNumber {
                    value: e->value,
                }) && e->value@ == s@,
            },
    {
        match parse_u64(s) {
            Some(value) => Ok(Sequence { value }),
            None => Err(IdentifierError::InvalidNumber { value: String::from_str(s) }),
        }
    }

    pub fn value(&self) -> (r: u64)
        ensures
            r == self@,
    {
        self.value
    }

    /// Appends the decimal text of the sequence number to `out`.
    pub fn push_to(&self, out: &mut String)
        ensures
            final(out)@ == old(out)@ + decimal(self@ as nat),
    {
        push_decimal(out, self.value);
    }
}

impl Default for Sequence {
    /// Sequence number zero.
    fn default() -> (r: Sequence)
        ensures
            r@ == 0,
    {
        Sequence { value: 0 }
    }
}

} // verus!
