//! Frames: what a task hands to the controller and what it gets back.
//!
//! A frame travels through the controller's message memory as an element:
//! two header words, least significant byte first, then the payload, padded
//! with zero bytes to a whole number of words.
//!
//! | word | bits    | field                                            |
//! |------|---------|--------------------------------------------------|
//! | 0    | 30      | set for an extended (29-bit) identifier          |
//! | 0    | 28..=0  | identifier; a standard one sits in bits 28..=18  |
//! | 1    | 31..=24 | marker of a frame to transmit                    |
//! | 1    | 23      | set where a frame to transmit carries a marker   |
//! | 1    | 21      | set for a flexible-data-rate frame               |
//! | 1    | 20      | set where the data phase switches bit rate       |
//! | 1    | 19..=16 | data length code                                 |
//!
//! Every other bit is written as zero and ignored on reading.

use vstd::prelude::*;
use vstd::bytes::{
    lemma_auto_spec_u32_to_from_le_bytes,
    spec_u32_from_le_bytes,
    spec_u32_to_le_bytes,
    u32_from_le_bytes,
    u32_to_le_bytes,
};
use vstd::slice::{slice_subrange, slice_to_vec};

verus! {

/// Largest 11-bit identifier.
pub const MAX_STANDARD_ID: u32 = 0x7FF;

/// Largest 29-bit identifier.
pub const MAX_EXTENDED_ID: u32 = 0x1FFF_FFFF;

/// Bytes that the two header words of an element take.
pub const ELEMENT_HEADER_BYTES: usize = 8;

/// Width of the arbitration identifier.
#[derive(Clone, Copy, Debug, PartialEq, Eq, Structural)]
pub enum FrameFormat {
    /// 11-bit identifier.
    Standard,
    /// 29-bit identifier.
    Extended,
}

/// Why a frame was refused.
#[derive(Clone, Copy, Debug, PartialEq, Eq, Structural)]
pub enum FrameError {
    /// The payload is not as long as the header says, or no data length code
    /// stands for that length.
    LengthMismatch,
    /// The identifier does not fit the declared format.
    InvalidId,
}

/// Header of a frame to transmit.
#[derive(Clone, Copy, Debug, PartialEq, Eq, Structural)]
pub struct TxFrameHeader {
    /// Payload bytes: 0 to 8, or 12, 16, 20, 24, 32, 48 or 64 in a
    /// flexible-data-rate frame.
    pub length: u8,
    /// Width of the identifier.
    pub format: FrameFormat,
    /// Arbitration identifier; the lower value wins the bus.
    pub id: u32,
    /// Whether the data phase runs at the data bit rate.
    pub bit_rate_switching: bool,
    /// Tag that the controller hands back when the frame has left.
    pub marker: Option<u8>,
}

/// Header of a received frame.
#[derive(Clone, Copy, Debug, PartialEq, Eq, Structural)]
pub struct RxFrameHeader {
    /// Payload bytes.
    pub length: u8,
    /// Width of the identifier.
    pub format: FrameFormat,
    /// Arbitration identifier.
    pub id: u32,
    /// Whether the data phase ran at the data bit rate.
    pub bit_rate_switching: bool,
}

/// The data length code that stands for `length` payload bytes, if any does.
pub open spec fn length_code(length: u8) -> Option<u8> {
    if length <= 8 {
        Some(length)
    } else if length == 12 {
        Some(9u8)
    } else if length == 16 {
        Some(10u8)
    } else if length == 20 {
        Some(11u8)
    } else if length == 24 {
        Some(12u8)
    } else if length == 32 {
        Some(13u8)
    } else if length == 48 {
        Some(14u8)
    } else if length == 64 {
        Some(15u8)
    } else {
        None
    }
}

/// Payload bytes that a data length code stands for. A classic frame never
/// carries more than eight, whatever its code.
pub open spec fn code_length(code: u8, flexible: bool) -> u8 {
    if code <= 8 {
        code
    } else if !flexible {
        8
    } else if code == 9 {
        12
    } else if code == 10 {
        16
    } else if code == 11 {
        20
    } else if code == 12 {
        24
    } else if code == 13 {
        32
    } else if code == 14 {
        48
    } else {
        64
    }
}

/// `id` fits the identifier width of `format`.
pub open spec fn id_in_range(format: FrameFormat, id: u32) -> bool {
    match format {
        FrameFormat::Standard => id <= MAX_STANDARD_ID,
        FrameFormat::Extended => id <= MAX_EXTENDED_ID,
    }
}

/// Zero bytes after a payload of `length` bytes that fill its last word.
pub open spec fn padding(length: int) -> int {
    (4 - length % 4) % 4
}

impl TxFrameHeader {
    /// The frame goes out in the flexible-data-rate format: it switches bit
    /// rate or is longer than a classic frame can be.
    pub open spec fn flexible(self) -> bool {
        self.bit_rate_switching || self.length > 8
    }

    /// Whether the frame goes out in the flexible-data-rate format.
    pub fn is_flexible(&self) -> (yes: bool)
        ensures
            yes == self.flexible(),
    {
        self.bit_rate_switching || self.length > 8
    }

    /// First header word of the frame's element.
    pub open spec fn word0(self) -> u32 {
        match self.format {
            FrameFormat::Standard => self.id << 18,
            FrameFormat::Extended => self.id | 0x4000_0000,
        }
    }

    /// Second header word of the frame's element.
    pub open spec fn word1(self) -> u32 {
        let marker: u32 = match self.marker {
            Some(m) => ((m as u32) << 24) | 0x0080_0000,
            None => 0,
        };
        let flexible: u32 = if self.flexible() {
            0x0020_0000
        } else {
            0
        };
        let switching: u32 = if self.bit_rate_switching {
            0x0010_0000
        } else {
            0
        };
        let code: u32 = match length_code(self.length) {
            Some(c) => c as u32,
            None => 0,
        };
        marker | flexible | switching | (code << 16)
    }
}

/// What a frame to transmit holds.
pub struct TxFrameModel {
    pub header: TxFrameHeader,
    pub payload: Seq<u8>,
}

impl TxFrameModel {
    /// Why this is no frame: `LengthMismatch` where no data length code
    /// stands for the header's length or the payload is not that long;
    /// else `InvalidId` where the identifier does not fit its format;
    /// `None` where it is a frame.
    pub open spec fn refusal(self) -> Option<FrameError> {
        if length_code(self.header.length) is None || self.payload.len() != self.header.length {
            Some(FrameError::LengthMismatch)
        } else if !id_in_range(self.header.format, self.header.id) {
            Some(FrameError::InvalidId)
        } else {
            None
        }
    }

    /// The length has a data length code, the payload is that long, and the
    /// identifier fits its format.
    pub open spec fn valid(self) -> bool {
        self.refusal() is None
    }

    /// The frame's element in message memory.
    pub open spec fn element(self) -> Seq<u8> {
        spec_u32_to_le_bytes(self.header.word0()) + spec_u32_to_le_bytes(self.header.word1())
            + self.payload + Seq::new(padding(self.payload.len() as int) as nat, |i: int| 0u8)
    }

    /// What the receiver reads from the frame's element.
    pub open spec fn received(self) -> RxFrameModel {
        RxFrameModel {
            header: RxFrameHeader {
                length: self.header.length,
                format: self.header.format,
                id: self.header.id,
                bit_rate_switching: self.header.bit_rate_switching,
            },
            payload: self.payload,
        }
    }
}

/// What a received frame holds.
pub struct RxFrameModel {
    pub header: RxFrameHeader,
    pub payload: Seq<u8>,
}

/// Reads an element: the header words, then as many payload bytes as the
/// data length code stands for.
///
/// `LengthMismatch` where the element is shorter than its header or than the
/// payload the header promises; else `InvalidId` where a standard identifier
/// has bits set below its eleven.
pub open spec fn decode_spec(element: Seq<u8>) -> Result<RxFrameModel, FrameError> {
    if element.len() < ELEMENT_HEADER_BYTES {
        Err(FrameError::LengthMismatch)
    } else {
        let word0 = spec_u32_from_le_bytes(element.subrange(0, 4));
        let word1 = spec_u32_from_le_bytes(element.subrange(4, 8));
        let extended = (word0 >> 30) & 1 == 1;
        let flexible = (word1 >> 21) & 1 == 1;
        let switching = flexible && (word1 >> 20) & 1 == 1;
        let length = code_length(((word1 >> 16) & 0xF) as u8, flexible);
        if element.len() < ELEMENT_HEADER_BYTES + length {
            Err(FrameError::LengthMismatch)
        } else if !extended && word0 & 0x3_FFFF != 0 {
            Err(FrameError::InvalidId)
        } else {
            Ok(
                RxFrameModel {
                    header: RxFrameHeader {
                        length,
                        format: if extended {
                            FrameFormat::Extended
                        } else {
                            FrameFormat::Standard
                        },
                        id: if extended {
                            word0 & 0x1FFF_FFFF
                        } else {
                            (word0 >> 18) & 0x7FF
                        },
                        bit_rate_switching: switching,
                    },
                    payload: element.subrange(
                        ELEMENT_HEADER_BYTES as int,
                        ELEMENT_HEADER_BYTES + length,
                    ),
                },
            )
        }
    }
}

/// The data length code for `length` payload bytes.
pub fn data_length_code(length: u8) -> (code: Option<u8>)
    ensures
        code == length_code(length),
{
    if length <= 8 {
        Some(length)
    } else if length == 12 {
        Some(9)
    } else if length == 16 {
        Some(10)
    } else if length == 20 {
        Some(11)
    } else if length == 24 {
        Some(12)
    } else if length == 32 {
        Some(13)
    } else if length == 48 {
        Some(14)
    } else if length == 64 {
        Some(15)
    } else {
        None
    }
}

/// The payload bytes that `code` stands for, in a flexible-data-rate frame
/// or in a classic one.
pub fn data_length(code: u8, flexible_data_rate: bool) -> (length: u8)
    ensures
        length == code_length(code, flexible_data_rate),
{
    if code <= 8 {
        code
    } else if !flexible_data_rate {
        8
    } else if code == 9 {
        12
    } else if code == 10 {
        16
    } else if code == 11 {
        20
    } else if code == 12 {
        24
    } else if code == 13 {
        32
    } else if code == 14 {
        48
    } else {
        64
    }
}

/// A frame to transmit: a header and the payload it announces.
#[derive(Debug, PartialEq, Eq)]
pub struct TxFrame {
    header: TxFrameHeader,
    payload: Vec<u8>,
}

impl View for TxFrame {
    type V = TxFrameModel;

    closed spec fn view(&self) -> TxFrameModel {
        TxFrameModel { header: self.header, payload: self.payload@ }
    }
}

impl Clone for TxFrame {
    fn clone(&self) -> (copy: Self)
        ensures
            copy@ == self@,
    {
        proof {
            use_type_invariant(self);
        }
        TxFrame { header: self.header, payload: slice_to_vec(self.payload.as_slice()) }
    }
}

impl TxFrame {
    #[verifier::type_invariant]
    spec fn well_formed(self) -> bool {
        self@.valid()
    }

    /// Builds a frame, or says why it cannot be one (see
    /// `TxFrameModel::refusal`).
    pub fn new(header: TxFrameHeader, payload: &[u8]) -> (r: Result<TxFrame, FrameError>)
        ensures
            match r {
                Ok(frame) => {
                    &&& frame@ == (TxFrameModel { header, payload: payload@ })
                    &&& frame@.refusal() is None
                },
                Err(e) => (TxFrameModel { header, payload: payload@ }).refusal() == Some(e),
            },
    {
        if data_length_code(header.length).is_none() || payload.len() != header.length as usize {
            return Err(FrameError::LengthMismatch);
        }
        let fits = match header.format {
            FrameFormat::Standard => header.id <= MAX_STANDARD_ID,
            FrameFormat::Extended => header.id <= MAX_EXTENDED_ID,
        };
        if !fits {
            return Err(FrameError::InvalidId);
        }
        Ok(TxFrame { header, payload: slice_to_vec(payload) })
    }

    /// The frame's header.
    pub fn header(&self) -> (header: TxFrameHeader)
        ensures
            header == self@.header,
            self@.valid(),
    {
        proof {
            use_type_invariant(self);
        }
        self.header
    }

    /// The frame's payload.
    pub fn payload(&self) -> (payload: &[u8])
        ensures
            payload@ == self@.payload,
            self@.valid(),
    {
        proof {
            use_type_invariant(self);
        }
        self.payload.as_slice()
    }

    /// The frame's element, as it is written to message memory.
    pub fn encode(&self) -> (element: Vec<u8>)
        ensures
            element@ == self@.element(),
            self@.valid(),
    {
        proof {
            use_type_invariant(self);
        }
        let word0: u32 = match self.header.format {
            FrameFormat::Standard => self.header.id << 18,
            FrameFormat::Extended => self.header.id | 0x4000_0000,
        };
        let marker: u32 = match self.header.marker {
            Some(m) => ((m as u32) << 24) | 0x0080_0000,
            None => 0,
        };
        let flexible: u32 = if self.header.bit_rate_switching || self.header.length > 8 {
            0x0020_0000
        } else {
            0
        };
        let switching: u32 = if self.header.bit_rate_switching {
            0x0010_0000
        } else {
            0
        };
        let code: u32 = match data_length_code(self.header.length) {
            Some(c) => c as u32,
            None => 0,
        };
        let word1: u32 = marker | flexible | switching | (code << 16);
        let mut element: Vec<u8> = u32_to_le_bytes(word0);
        let mut second: Vec<u8> = u32_to_le_bytes(word1);
        element.append(&mut second);
        let mut data: Vec<u8> = slice_to_vec(self.payload.as_slice());
        element.append(&mut data);
        let ghost unpadded = element@;
        let mut filled: usize = self.payload.len();
        while filled % 4 != 0
            invariant
                self.payload@.len() <= filled <= self.payload@.len() + padding(
                    self.payload@.len() as int,
                ),
                self.payload@.len() <= 64,
                (filled - self.payload@.len()) + padding(filled as int) == padding(
                    self.payload@.len() as int,
                ),
                element@ == unpadded + Seq::new(
                    (filled - self.payload@.len()) as nat,
                    |i: int| 0u8,
                ),
            decreases padding(filled as int),
        {
            element.push(0);
            filled = filled + 1;
        }
        element
    }
}

/// A received frame: the decoded header and a view of the payload inside the
/// element it was read from.
#[derive(Clone, Copy, Debug, PartialEq, Eq)]
pub struct RxFrame<'a> {
    header: RxFrameHeader,
    payload: &'a [u8],
}

impl<'a> View for RxFrame<'a> {
    type V = RxFrameModel;

    closed spec fn view(&self) -> RxFrameModel {
        RxFrameModel { header: self.header, payload: self.payload@ }
    }
}

impl<'a> RxFrame<'a> {
    /// The frame's header.
    pub fn header(&self) -> (header: RxFrameHeader)
        ensures
            header == self@.header,
    {
        self.header
    }

    /// The frame's payload, borrowed from the element.
    pub fn payload(&self) -> (payload: &'a [u8])
        ensures
            payload@ == self@.payload,
    {
        self.payload
    }
}

/// Reads the frame that `element` holds, as `decode_spec` says, without
/// copying the payload.
pub fn decode<'a>(element: &'a [u8]) -> (r: Result<RxFrame<'a>, FrameError>)
    ensures
        r matches Ok(frame) ==> decode_spec(element@) == Ok::<RxFrameModel, FrameError>(frame@),
        r matches Err(e) ==> decode_spec(element@) == Err::<RxFrameModel, FrameError>(e),
{
    if element.len() < ELEMENT_HEADER_BYTES {
        return Err(FrameError::LengthMismatch);
    }
    let word0: u32 = u32_from_le_bytes(slice_subrange(element, 0, 4));
    let word1: u32 = u32_from_le_bytes(slice_subrange(element, 4, 8));
    let extended: bool = (word0 >> 30) & 1 == 1;
    let flexible: bool = (word1 >> 21) & 1 == 1;
    let switching: bool = flexible && (word1 >> 20) & 1 == 1;
    assert((word1 >> 16) & 0xF <= 15) by (bit_vector);
    let length: u8 = data_length(((word1 >> 16) & 0xF) as u8, flexible);
    if element.len() < ELEMENT_HEADER_BYTES + length as usize {
        return Err(FrameError::LengthMismatch);
    }
    if !extended && word0 & 0x3_FFFF != 0 {
        return Err(FrameError::InvalidId);
    }
    let format = if extended {
        FrameFormat::Extended
    } else {
        FrameFormat::Standard
    };
    let id: u32 = if extended {
        word0 & 0x1FFF_FFFF
    } else {
        (word0 >> 18) & 0x7FF
    };
    let payload = slice_subrange(
        element,
        ELEMENT_HEADER_BYTES,
        ELEMENT_HEADER_BYTES + length as usize,
    );
    Ok(
        RxFrame {
            header: RxFrameHeader { length, format, id, bit_rate_switching: switching },
            payload,
        },
    )
}

/// A data length code stands for the length it was given for, provided a
/// frame longer than eight bytes is read as a flexible-data-rate frame.
pub proof fn lemma_length_code_round_trip(length: u8, flexible: bool)
    requires
        length_code(length) is Some,
        length > 8 ==> flexible,
    ensures
        length_code(length)->Some_0 <= 15,
        code_length(length_code(length)->Some_0, flexible) == length,
{
}

proof fn lemma_word0_fields(header: TxFrameHeader)
    requires
        id_in_range(header.format, header.id),
    ensures
        ((header.word0() >> 30) & 1 == 1) == (header.format == FrameFormat::Extended),
        header.format == FrameFormat::Standard ==> header.word0() & 0x3_FFFF == 0 && (
        header.word0() >> 18) & 0x7FF == header.id,
        header.format == FrameFormat::Extended ==> header.word0() & 0x1FFF_FFFF == header.id,
{
    let id = header.id;
    match header.format {
        FrameFormat::Standard => {
            assert(id <= 0x7FF ==> ((id << 18) >> 30) & 1 == 0 && (id << 18) & 0x3_FFFF == 0 && ((id
                << 18) >> 18) & 0x7FF == id) by (bit_vector);
        },
        FrameFormat::Extended => {
            assert(id <= 0x1FFF_FFFF ==> ((id | 0x4000_0000) >> 30) & 1 == 1 && (id | 0x4000_0000)
                & 0x1FFF_FFFF == id) by (bit_vector);
        },
    }
}

proof fn lemma_word1_fields(header: TxFrameHeader)
    requires
        length_code(header.length) is Some,
    ensures
        ((header.word1() >> 21) & 1 == 1) == header.flexible(),
        ((header.word1() >> 20) & 1 == 1) == header.bit_rate_switching,
        (header.word1() >> 16) & 0xF == length_code(header.length)->Some_0,
{
    let marker: u32 = match header.marker {
        Some(m) => ((m as u32) << 24) | 0x0080_0000,
        None => 0,
    };
    let flexible: u32 = if header.flexible() {
        0x0020_0000
    } else {
        0
    };
    let switching: u32 = if header.bit_rate_switching {
        0x0010_0000
    } else {
        0
    };
    let code: u32 = length_code(header.length)->Some_0 as u32;
    let word = marker | flexible | switching | (code << 16);
    assert(word == header.word1());
    match header.marker {
        Some(m) => {
            let m32 = m as u32;
            assert(m32 <= 255 ==> (((m32 << 24) | 0x0080_0000) & 0x007F_0000 == 0))
                by (bit_vector);
        },
        None => {
            assert(0u32 & 0x007F_0000 == 0) by (bit_vector);
        },
    }
    assert((marker & 0x007F_0000 == 0 && (flexible == 0x0020_0000 || flexible == 0) && (switching
        == 0x0010_0000 || switching == 0) && code <= 15 && word == marker | flexible | switching
        | (code << 16)) ==> (((word >> 21) & 1 == 1) == (flexible == 0x0020_0000) && ((word >> 20)
        & 1 == 1) == (switching == 0x0010_0000) && (word >> 16) & 0xF == code)) by (bit_vector);
}

/// What is read from a valid frame's element is the frame: the same
/// identifier, format, length, bit-rate switch and payload.
pub proof fn lemma_decode_inverts_encode(frame: TxFrameModel)
    requires
        frame.valid(),
    ensures
        decode_spec(frame.element()) == Ok::<RxFrameModel, FrameError>(frame.received()),
{
    let header = frame.header;
    let element = frame.element();
    let first = spec_u32_to_le_bytes(header.word0());
    let second = spec_u32_to_le_bytes(header.word1());
    lemma_auto_spec_u32_to_from_le_bytes();
    assert(first.len() == 4 && second.len() == 4);
    assert(element.subrange(0, 4) =~= first);
    assert(element.subrange(4, 8) =~= second);
    lemma_word0_fields(header);
    lemma_word1_fields(header);
    lemma_length_code_round_trip(header.length, header.flexible());
    let code = length_code(header.length)->Some_0;
    assert((header.word1() >> 16) & 0xF == code);
    assert(element.subrange(8, 8 + header.length) =~= frame.payload);
    let decoded = decode_spec(element);
    assert(decoded is Ok);
    assert(decoded->Ok_0.header == frame.received().header);
    assert(decoded->Ok_0.payload =~= frame.received().payload);
}

} // verus!
