//! Messages between two peers and their byte framing.
//!
//! A message is laid out as follows:
//! * the first byte gives the type of the message;
//! * the data values specific to that type follow, in an order fixed by the
//!   type, separated by one byte of value 255;
//! * string values are base64 encoded;
//! * a new line byte (`\n`) ends the message.

use vstd::prelude::*;
use vstd::utf8::{decode_utf8, encode_utf8, valid_utf8};

use crate::errors::MultiplayerError;

verus! {

/// Separator byte between data values.
pub const SEP: u8 = 255;

/// End of a message.
pub const NL: u8 = 10;

/// Type byte of `Msg::PlayerIntro`.
pub const PLAYER_INTRO: u8 = 1;

/// The bytes of the standard, padded base64 text that encodes `bytes`.
pub uninterp spec fn base64_of(bytes: Seq<u8>) -> Seq<u8>;

/// The bytes that the standard, padded base64 text `text` encodes, if it is
/// such a text.
pub uninterp spec fn base64_decoded(text: Seq<u8>) -> Option<Seq<u8>>;

#[verifier::external_type_specification]
#[verifier::external_body]
pub struct ExDecodeError(base64::DecodeError);

/// Relies on `base64::encode`, which encodes with the standard alphabet and
/// padding; it panics when the encoded length overflows `usize`.
#[verifier::external_body]
fn encode_base64(bytes: &[u8]) -> (r: Vec<u8>)
    requires
        bytes@.len() <= usize::MAX / 2,
    ensures
        r@ == base64_of(bytes@),
{
    base64::encode(bytes).into_bytes()
}

/// Relies on `base64::decode`, which decodes with the standard alphabet and
/// padding; it computes `4 * len` for its buffer, which must not overflow.
#[verifier::external_body]
fn decode_base64(text: &[u8]) -> (r: Result<Vec<u8>, base64::DecodeError>)
    requires
        text@.len() <= usize::MAX / 4,
    ensures
        r matches Ok(v) ==> base64_decoded(text@) == Some(v@),
        r is Err ==> base64_decoded(text@) is None,
{
    base64::decode(text)
}

/// Relies on `String::from_utf8`: the text when `bytes` is well-formed UTF-8,
/// an error otherwise.
#[verifier::external_body]
fn string_from_utf8(bytes: Vec<u8>) -> (r: Option<String>)
    ensures
        r is Some <==> valid_utf8(bytes@),
        r matches Some(s) ==> s@ == decode_utf8(bytes@),
{
    String::from_utf8(bytes).ok()
}

/// A message between peers.
#[derive(Clone, Debug, PartialEq, Eq)]
pub enum Msg {
    /// A player announces its name.
    PlayerIntro { name: String },
}

impl Msg {
    /// The type byte of this message.
    pub fn type_byte(&self) -> (r: u8)
        ensures
            r == PLAYER_INTRO,
    {
        match self {
            Msg::PlayerIntro { .. } => PLAYER_INTRO,
        }
    }
}

/// The first position at or after `from` where `s` holds `b`.
pub open spec fn find_from(s: Seq<u8>, from: int, b: u8) -> Option<int>
    decreases s.len() - from,
    when from >= 0
{
    if from >= s.len() {
        None
    } else if s[from] == b {
        Some(from)
    } else {
        find_from(s, from + 1, b)
    }
}

/// The bytes of a data value starting at `body`: up to the first separator,
/// or all of `body` when it has none.
pub open spec fn first_value(body: Seq<u8>) -> Seq<u8> {
    match find_from(body, 0, SEP) {
        Some(i) => body.take(i),
        None => body,
    }
}

/// The encoding of `msg`.
pub open spec fn encoded(msg: Msg) -> Seq<u8> {
    match msg {
        Msg::PlayerIntro { name } => seq![PLAYER_INTRO] + base64_of(encode_utf8(name@)) + seq![NL],
    }
}

/// The name a player introduced itself with, read from the base64 decoding
/// of its value, or the error for it.
pub open spec fn intro_name(decoded: Option<Seq<u8>>) -> Result<Seq<char>, MultiplayerError> {
    match decoded {
        None => Err(MultiplayerError::InvalidEncoding),
        Some(bytes) => if valid_utf8(bytes) {
            Ok(decode_utf8(bytes))
        } else {
            Err(MultiplayerError::InvalidText)
        },
    }
}

/// The text a message `frame`, new line included, carries, or the error for
/// it.
pub open spec fn parse_frame(frame: Seq<u8>) -> Result<Seq<char>, MultiplayerError> {
    if frame[0] != PLAYER_INTRO {
        Err(MultiplayerError::UnknownMsgType { msg_type: frame[0] })
    } else {
        intro_name(base64_decoded(first_value(frame.subrange(1, frame.len() - 1))))
    }
}

/// The first position at or after `from` where `s` holds `b`.
pub fn find_byte(s: &[u8], from: usize, b: u8) -> (r: Option<usize>)
    ensures
        r matches Some(i) ==> find_from(s@, from as int, b) == Some(i as int),
        r is None ==> find_from(s@, from as int, b) is None,
        r matches Some(i) ==> from <= i < s@.len() && s@[i as int] == b,
{
    let mut i: usize = from;
    while i < s.len()
        invariant
            from <= i,
            find_from(s@, from as int, b) == find_from(s@, i as int, b),
        decreases s@.len() - i,
    {
        if s[i] == b {
            return Some(i);
        }
        i += 1;
    }
    None
}

/// Builds a `PlayerIntro` from the base64 decoding of the name value.
pub fn intro_from_decoded(decoded: Option<Vec<u8>>) -> (r: Result<Msg, MultiplayerError>)
    ensures
        match intro_name(
            match decoded {
                Some(v) => Some(v@),
                None => None,
            },
        ) {
            Ok(name) => r matches Ok(Msg::PlayerIntro { name: n }) && n@ == name,
            Err(e) => r == Err::<Msg, MultiplayerError>(e),
        },
{
    match decoded {
        None => Err(MultiplayerError::InvalidEncoding),
        Some(bytes) => match string_from_utf8(bytes) {
            Some(name) => Ok(Msg::PlayerIntro { name }),
            None => Err(MultiplayerError::InvalidText),
        },
    }
}

/// Encodes and decodes `Msg`s.
pub struct MsgCodec {
    /// How far has the incomplete encoded buffer been scanned.
    scanned_to: usize,
}

impl View for MsgCodec {
    /// How far the buffer has been scanned for the end of a message.
    type V = nat;

    closed spec fn view(&self) -> nat {
        self.scanned_to as nat
    }
}

impl MsgCodec {
    /// A codec that has scanned nothing yet.
    pub fn new() -> (r: Self)
        ensures
            r@ == 0,
    {
        Self { scanned_to: 0 }
    }

    /// How far the buffer has been scanned for the end of a message.
    pub fn scanned_to(&self) -> (r: usize)
        ensures
            r == self@,
    {
        self.scanned_to
    }

    /// Appends the encoding of `msg` to `buf`.
    pub fn encode(&mut self, msg: Msg, buf: &mut Vec<u8>) -> (r: Result<(), MultiplayerError>)
        requires
            match msg {
                Msg::PlayerIntro { name } => encode_utf8(name@).len() <= usize::MAX / 2,
            },
        ensures
            r is Ok,
            final(buf)@ == old(buf)@ + encoded(msg),
            final(self)@ == old(self)@,
    {
        let type_byte = msg.type_byte();
        match msg {
            Msg::PlayerIntro { name } => {
                let mut encoded_name = encode_base64(name.as_str().as_bytes());
                buf.push(type_byte);
                buf.append(&mut encoded_name);
                buf.push(NL);
            },
        }
        Ok(())
    }

    /// Takes the first complete message off the front of `buf`.
    ///
    /// The search for the end of a message starts where the previous call
    /// stopped. Without a complete message, `buf` is kept and `Ok(None)` comes
    /// back. Otherwise the message, new line included, is removed from `buf`
    /// whether or not it can be read; a message that cannot be read leaves the
    /// scan position as it was.
    pub fn decode(&mut self, buf: &mut Vec<u8>) -> (r: Result<Option<Msg>, MultiplayerError>)
        requires
            old(self)@ <= old(buf)@.len(),
            old(buf)@.len() <= usize::MAX / 4,
        ensures
            match find_from(old(buf)@, old(self)@ as int, NL) {
                None => {
                    &&& r == Ok::<Option<Msg>, MultiplayerError>(None)
                    &&& final(buf)@ == old(buf)@
                    &&& final(self)@ == old(buf)@.len()
                },
                Some(nl) => {
                    &&& final(buf)@ == old(buf)@.skip(nl + 1)
                    &&& match parse_frame(old(buf)@.take(nl + 1)) {
                        Ok(name) => {
                            &&& r matches Ok(Some(Msg::PlayerIntro { name: n }))
                            &&& n@ == name
                            &&& final(self)@ == 0
                        },
                        Err(e) => {
                            &&& r == Err::<Option<Msg>, MultiplayerError>(e)
                            &&& final(self)@ == old(self)@
                        },
                    }
                },
            },
    {
        match find_byte(buf.as_slice(), self.scanned_to, NL) {
            None => {
                self.scanned_to = buf.len();
                Ok(None)
            },
            Some(nl_index) => {
                let mut msg_buf = buf.split_off(nl_index + 1);
                core::mem::swap(buf, &mut msg_buf);
                assert(msg_buf@ == old(buf)@.take(nl_index + 1));
                assert(buf@ =~= old(buf)@.skip(nl_index + 1));
                let msg = if msg_buf[0] == PLAYER_INTRO {
                    assert(msg_buf@[nl_index as int] == NL);
                    // exclude the type byte and the new line
                    let (front, _) = msg_buf.as_slice().split_at(nl_index);
                    let (_, data) = front.split_at(1);
                    let value_end = match find_byte(data, 0, SEP) {
                        Some(i) => i,
                        None => data.len(),
                    };
                    let (encoded_name, _) = data.split_at(value_end);
                    assert(data@ =~= msg_buf@.subrange(1, msg_buf@.len() - 1));
                    assert(encoded_name@ =~= first_value(data@));
                    let decoded = match decode_base64(encoded_name) {
                        Ok(bytes) => Some(bytes),
                        Err(_) => None,
                    };
                    match intro_from_decoded(decoded) {
                        Ok(m) => m,
                        Err(e) => {
                            return Err(e);
                        },
                    }
                } else {
                    return Err(MultiplayerError::UnknownMsgType { msg_type: msg_buf[0] });
                };
                self.scanned_to = 0;
                Ok(Some(msg))
            },
        }
    }
}

} // verus!
