//! What a response frame says about the card in the reader's field.

use crate::bytes::{
    be_value, le_value, lemma_be_value_2, lemma_be_value_5, lemma_be_value_bound,
    lemma_byte_range_values, lemma_le_value_4, lemma_le_value_bound, read_be, read_le,
};
use crate::frame::ResponseFrame;
use crate::text::{
    decimal, flag, hex, lemma_digits_exact_len, push_decimal, push_flag, push_hex,
};
use vstd::arithmetic::power::pow;
use vstd::prelude::*;
use vstd::string::StringExecFns;

verus! {

/// The length that a response frame declares for its payload: the four bytes
/// after the message type, least significant first.
pub open spec fn declared_length(frame: Seq<u8>) -> nat {
    le_value(frame.subrange(1, 5))
}

/// The card identifier that a response frame carries. Only a frame that
/// declares a length of seven carries one: bytes 10 to 14, most significant
/// first. Every other frame yields zero.
pub open spec fn card_id(frame: Seq<u8>) -> nat {
    if declared_length(frame) == 7 {
        be_value(frame.subrange(10, 15))
    } else {
        0
    }
}

/// The APDU status word of a response frame, high byte first. With a declared
/// length of seven it stands in the last two bytes of the frame. With any
/// other declared length `n` from 2 to 17 it stands at offsets `n - 2` and
/// `n - 1` of the frame. A frame that declares less than two bytes, or more
/// than the frame holds, has no status word: the result is zero.
pub open spec fn status_word(frame: Seq<u8>) -> nat {
    let n: nat = declared_length(frame);
    if n == 7 {
        be_value(frame.subrange(15, 17))
    } else if 2 <= n <= 17 {
        be_value(frame.subrange(n - 2, n as int))
    } else {
        0
    }
}

/// A card-read result: the header fields of one response frame and what its
/// payload yielded.
#[derive(Clone, Copy, Debug, PartialEq, Eq, Structural)]
pub struct ReaderData {
    /// Message type of the response.
    pub message_type: u8,
    /// Length that the frame declares for its payload.
    pub length: u32,
    /// Slot that the response concerns.
    pub slot: u8,
    /// Sequence number of the command that is answered.
    pub seq: u8,
    /// Slot status register.
    pub status: u8,
    /// Slot error register.
    pub error: u8,
    /// Chain parameter.
    pub chain_parameter: u8,
    /// Whether the frame carried a card identifier.
    pub valid: bool,
    /// Card identifier, at most 40 bits; zero unless `valid`.
    pub id: u64,
    /// APDU status word.
    pub adpu_status: u16,
}

/// The card-read result that a response frame of 17 bytes decodes to.
pub open spec fn decoded(frame: Seq<u8>) -> ReaderData {
    ReaderData {
        message_type: frame[0],
        length: declared_length(frame) as u32,
        slot: frame[5],
        seq: frame[6],
        status: frame[7],
        error: frame[8],
        chain_parameter: frame[9],
        valid: declared_length(frame) == 7,
        id: card_id(frame) as u64,
        adpu_status: status_word(frame) as u16,
    }
}

/// The fields of a decoded frame hold the frame's numbers unclipped, and the
/// result is well formed.
pub proof fn lemma_decoded_fields(frame: Seq<u8>)
    requires
        frame.len() == 17,
    ensures
        decoded(frame).length as nat == declared_length(frame),
        decoded(frame).id as nat == card_id(frame),
        decoded(frame).adpu_status as nat == status_word(frame),
        decoded(frame).wf(),
{
    lemma_byte_range_values();
    lemma_le_value_bound(frame.subrange(1, 5));
    lemma_be_value_bound(frame.subrange(10, 15));
    lemma_be_value_bound(frame.subrange(15, 17));
    let n: nat = declared_length(frame);
    if 2 <= n <= 17 {
        lemma_be_value_bound(frame.subrange(n - 2, n as int));
    }
}

/// A frame that declares a length of seven decodes to a valid result whose
/// identifier is bytes 10 to 14 read most significant first and whose status
/// word is bytes 15 and 16.
pub proof fn lemma_card_frame(frame: Seq<u8>)
    requires
        frame.len() == 17,
        declared_length(frame) == 7,
    ensures
        decoded(frame).valid,
        decoded(frame).length == 7,
        decoded(frame).id == 0x1_0000_0000 * frame[10] + 0x100_0000 * frame[11] + 0x1_0000
            * frame[12] + 0x100 * frame[13] + frame[14],
        decoded(frame).adpu_status == 0x100 * frame[15] + frame[16],
{
    lemma_decoded_fields(frame);
    lemma_be_value_5(frame.subrange(10, 15));
    lemma_be_value_2(frame.subrange(15, 17));
}

/// A frame that declares a length from 2 to 17 other than seven decodes to an
/// invalid result without identifier, whose status word is the two bytes at
/// offsets `length - 2` and `length - 1` of the frame.
pub proof fn lemma_status_frame(frame: Seq<u8>)
    requires
        frame.len() == 17,
        2 <= declared_length(frame) <= 17,
        declared_length(frame) != 7,
    ensures
        !decoded(frame).valid,
        decoded(frame).id == 0,
        decoded(frame).adpu_status == 0x100 * frame[declared_length(frame) - 2]
            + frame[declared_length(frame) - 1],
{
    lemma_decoded_fields(frame);
    let n: nat = declared_length(frame);
    lemma_be_value_2(frame.subrange(n - 2, n as int));
}

/// A frame that declares a length below two decodes to an invalid result with
/// neither identifier nor status word.
pub proof fn lemma_short_frame(frame: Seq<u8>)
    requires
        frame.len() == 17,
        declared_length(frame) < 2,
    ensures
        !decoded(frame).valid,
        decoded(frame).id == 0,
        decoded(frame).adpu_status == 0,
{
}

/// A frame that declares more bytes than it holds decodes to an invalid
/// result with neither identifier nor status word.
pub proof fn lemma_overlong_frame(frame: Seq<u8>)
    requires
        frame.len() == 17,
        declared_length(frame) > 17,
    ensures
        !decoded(frame).valid,
        decoded(frame).id == 0,
        decoded(frame).adpu_status == 0,
{
}

/// Decoding depends on nothing but the bytes of the frame: frames that hold
/// the same bytes decode to the same result.
pub proof fn lemma_decoding_is_deterministic(first: ResponseFrame, second: ResponseFrame)
    requires
        first@ == second@,
    ensures
        decoded(first@) == decoded(second@),
{
}

/// In the rendering of a well-formed result the identifier takes exactly ten
/// hexadecimal digits, the status word exactly four, and each register of the
/// header exactly two.
pub proof fn lemma_rendering_widths(data: ReaderData)
    requires
        data.wf(),
    ensures
        hex(data.id as nat, 10).len() == 10,
        hex(data.adpu_status as nat, 4).len() == 4,
        hex(data.message_type as nat, 2).len() == 2,
        hex(data.status as nat, 2).len() == 2,
        hex(data.error as nat, 2).len() == 2,
        hex(data.chain_parameter as nat, 2).len() == 2,
{
    reveal_with_fuel(pow, 11);
    assert(pow(16, 2) == 0x100);
    assert(pow(16, 4) == 0x1_0000);
    assert(pow(16, 10) == 0x100_0000_0000);
    lemma_digits_exact_len(data.id as nat, 16, 10);
    lemma_digits_exact_len(data.adpu_status as nat, 16, 4);
    lemma_digits_exact_len(data.message_type as nat, 16, 2);
    lemma_digits_exact_len(data.status as nat, 16, 2);
    lemma_digits_exact_len(data.error as nat, 16, 2);
    lemma_digits_exact_len(data.chain_parameter as nat, 16, 2);
}

/// The declared length written out over the bytes of the frame.
pub proof fn lemma_declared_length(frame: Seq<u8>)
    requires
        frame.len() == 17,
    ensures
        declared_length(frame) == frame[1] + 0x100 * frame[2] + 0x1_0000 * frame[3] + 0x100_0000
            * frame[4],
{
    lemma_le_value_4(frame.subrange(1, 5));
}

impl ReaderData {
    /// What holds of every result that was decoded from a frame: it is valid
    /// exactly when the frame declared a length of seven, only a valid result
    /// has an identifier, the identifier fits 40 bits, and a declared length
    /// that leaves no room for a status word comes with none.
    pub open spec fn wf(&self) -> bool {
        &&& self.valid <==> self.length == 7
        &&& !self.valid ==> self.id == 0
        &&& self.id < 0x100_0000_0000
        &&& (self.length < 2 || self.length > 17) ==> self.adpu_status == 0
    }

    /// The text that `to_string` produces: a heading and one line for each
    /// field.
    pub open spec fn rendering(&self) -> Seq<char> {
        "Reader Data\n  Message Type: 0x"@ + hex(self.message_type as nat, 2)
            + "\n  Data Length: 0x"@ + hex(self.length as nat, 2)
            + "\n  Slot Affected: "@ + decimal(self.slot as nat)
            + "\n  Sequence Number: "@ + decimal(self.seq as nat)
            + "\n  Status: 0x"@ + hex(self.status as nat, 2)
            + "\n  Error: 0x"@ + hex(self.error as nat, 2)
            + "\n  Chain Parameter: 0x"@ + hex(self.chain_parameter as nat, 2)
            + "\n  Data:\n    isDataValid: "@ + flag(self.valid)
            + "\n    ID (decimal): "@ + decimal(self.id as nat)
            + "\n    ID (hex): 0x"@ + hex(self.id as nat, 10)
            + "\n    ADPU Status Code: 0x"@ + hex(self.adpu_status as nat, 4)
    }

    /// Decodes a response frame. Every frame decodes: one that yields no card
    /// data gives a result that is not `valid` and whose identifier is zero.
    pub fn new(data: &[u8; 17]) -> (result: ReaderData)
        ensures
            result == decoded(data@),
            result.wf(),
    {
        let length: u64 = read_le(data, 1, 4);
        let mut valid: bool = false;
        let mut id: u64 = 0;
        let mut status: u64 = 0;
        if length == 7 {
            valid = true;
            id = read_be(data, 10, 5);
            status = read_be(data, 15, 2);
        } else if 2 <= length && length <= 17 {
            let end: usize = length as usize;
            status = read_be(data, end - 2, 2);
        }
        proof {
            lemma_decoded_fields(data@);
            lemma_byte_range_values();
            lemma_le_value_bound(data@.subrange(1, 5));
            lemma_be_value_bound(data@.subrange(15, 17));
            if 2 <= length <= 17 {
                lemma_be_value_bound(data@.subrange(length - 2, length as int));
            }
        }
        ReaderData {
            message_type: data[0],
            length: length as u32,
            slot: data[5],
            seq: data[6],
            status: data[7],
            error: data[8],
            chain_parameter: data[9],
            valid,
            id,
            adpu_status: status as u16,
        }
    }

    /// Renders the result for a human reader, one field per line. Register
    /// values and the declared length are written in hexadecimal with at
    /// least two digits, the identifier both in decimal and in ten
    /// hexadecimal digits, the status word in four hexadecimal digits.
    pub fn to_string(&self) -> (text: String)
        ensures
            text@ == self.rendering(),
    {
        let mut text = String::from_str("Reader Data\n  Message Type: 0x");
        push_hex(&mut text, self.message_type as u64, 2);
        text.append("\n  Data Length: 0x");
        push_hex(&mut text, self.length as u64, 2);
        text.append("\n  Slot Affected: ");
        push_decimal(&mut text, self.slot as u64);
        text.append("\n  Sequence Number: ");
        push_decimal(&mut text, self.seq as u64);
        text.append("\n  Status: 0x");
        push_hex(&mut text, self.status as u64, 2);
        text.append("\n  Error: 0x");
        push_hex(&mut text, self.error as u64, 2);
        text.append("\n  Chain Parameter: 0x");
        push_hex(&mut text, self.chain_parameter as u64, 2);
        text.append("\n  Data:\n    isDataValid: ");
        push_flag(&mut text, self.valid);
        text.append("\n    ID (decimal): ");
        push_decimal(&mut text, self.id);
        text.append("\n    ID (hex): 0x");
        push_hex(&mut text, self.id, 10);
        text.append("\n    ADPU Status Code: 0x");
        push_hex(&mut text, self.adpu_status as u64, 4);
        text
    }
}

} // verus!
