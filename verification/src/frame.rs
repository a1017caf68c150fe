//! The fixed frames exchanged with the reader and where they travel.

use vstd::prelude::*;

verus! {

/// USB vendor identifier of the OMNIKEY 5025CL.
pub const OMNIKEY_VENDOR_ID: u16 = 0x076B;

/// USB product identifier of the OMNIKEY 5025CL.
pub const OMNIKEY_PRODUCT_ID: u16 = 0x502A;

/// Address of the bulk endpoint that carries commands to the reader.
pub const BULK_OUT_ENDPOINT: u8 = 0x01;

/// Address of the bulk endpoint that carries responses from the reader.
pub const BULK_IN_ENDPOINT: u8 = 0x82;

/// Time allowed for each single bulk transfer, in milliseconds.
pub const TRANSFER_TIMEOUT_MS: u64 = 100;

/// Length in bytes of the frame that selects the legacy mode.
pub const LEGACY_MODE_FRAME_LEN: usize = 13;

/// Length in bytes of the frame that asks for the card's data.
pub const GET_DATA_FRAME_LEN: usize = 15;

/// Length in bytes of every response frame.
pub const RESPONSE_LEN: usize = 17;

/// A response frame as it arrives from the bulk IN endpoint.
pub type ResponseFrame = [u8; 17];

/// A command frame. The reader knows two commands and neither takes a
/// parameter, so the kind of a frame fixes every byte of it; the view of a
/// frame is that byte sequence.
#[derive(Clone, Copy, Debug, PartialEq, Eq, Structural)]
pub enum CommandFrame {
    /// Vendor command that switches the reader to the legacy CCID mode.
    SetLegacyMode,
    /// Transfer block that wraps the "Get Data" APDU.
    GetCardData,
}

impl View for CommandFrame {
    type V = Seq<u8>;

    open spec fn view(&self) -> Seq<u8> {
        match self {
            CommandFrame::SetLegacyMode => seq![
                0xFFu8,
                0x70u8,
                0x07u8,
                0x6Bu8,
                0x07u8,
                0xA2u8,
                0x05u8,
                0xA1u8,
                0x03u8,
                0x8Bu8,
                0x01u8,
                0x00u8,
                0x00u8,
            ],
            CommandFrame::GetCardData => seq![
                0x6Fu8,
                0x05u8,
                0x00u8,
                0x00u8,
                0x00u8,
                0x00u8,
                0x00u8,
                0x01u8,
                0x00u8,
                0x00u8,
                0xFFu8,
                0xCAu8,
                0x00u8,
                0x00u8,
                0x00u8,
            ],
        }
    }
}

/// The frame that selects the legacy mode, as a fixed-size buffer.
pub fn legacy_mode_frame() -> (frame: [u8; 13])
    ensures
        frame@ == CommandFrame::SetLegacyMode@,
{
    let frame: [u8; 13] = [
        0xFF,
        0x70,
        0x07,
        0x6B,
        0x07,
        0xA2,
        0x05,
        0xA1,
        0x03,
        0x8B,
        0x01,
        0x00,
        0x00,
    ];
    assert(frame@ =~= CommandFrame::SetLegacyMode@);
    frame
}

/// The frame that asks for the card's data, as a fixed-size buffer.
pub fn get_data_frame() -> (frame: [u8; 15])
    ensures
        frame@ == CommandFrame::GetCardData@,
{
    let frame: [u8; 15] = [
        0x6F,
        0x05,
        0x00,
        0x00,
        0x00,
        0x00,
        0x00,
        0x01,
        0x00,
        0x00,
        0xFF,
        0xCA,
        0x00,
        0x00,
        0x00,
    ];
    assert(frame@ =~= CommandFrame::GetCardData@);
    frame
}

/// A response buffer before anything was received into it: all zero.
pub fn blank_response() -> (frame: ResponseFrame)
    ensures
        forall|i: int| 0 <= i < 17 ==> frame@[i] == 0u8,
{
    [0u8; 17]
}

impl CommandFrame {
    /// Number of bytes in the frame.
    pub fn len(&self) -> (n: usize)
        ensures
            n == self@.len(),
            n == match self {
                CommandFrame::SetLegacyMode => LEGACY_MODE_FRAME_LEN,
                CommandFrame::GetCardData => GET_DATA_FRAME_LEN,
            },
    {
        match self {
            CommandFrame::SetLegacyMode => LEGACY_MODE_FRAME_LEN,
            CommandFrame::GetCardData => GET_DATA_FRAME_LEN,
        }
    }

    /// The bytes of the frame in the order in which they are sent.
    pub fn to_vec(&self) -> (bytes: Vec<u8>)
        ensures
            bytes@ == self@,
    {
        let mut bytes: Vec<u8> = Vec::new();
        match self {
            CommandFrame::SetLegacyMode => {
                let frame = legacy_mode_frame();
                let mut i: usize = 0;
                while i < 13
                    invariant
                        i <= 13,
                        frame@ == CommandFrame::SetLegacyMode@,
                        bytes@ == frame@.subrange(0, i as int),
                    decreases 13 - i,
                {
                    bytes.push(frame[i]);
                    assert(bytes@ =~= frame@.subrange(0, i + 1));
                    i = i + 1;
                }
                assert(bytes@ =~= frame@);
            },
            CommandFrame::GetCardData => {
                let frame = get_data_frame();
                let mut i: usize = 0;
                while i < 15
                    invariant
                        i <= 15,
                        frame@ == CommandFrame::GetCardData@,
                        bytes@ == frame@.subrange(0, i as int),
                    decreases 15 - i,
                {
                    bytes.push(frame[i]);
                    assert(bytes@ =~= frame@.subrange(0, i + 1));
                    i = i + 1;
                }
                assert(bytes@ =~= frame@);
            },
        }
        bytes
    }
}

} // verus!
