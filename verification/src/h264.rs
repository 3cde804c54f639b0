//! H.264 network abstraction layer units, as RFC 3984 and Annex B of the standard frame them.
use vstd::prelude::*;

use crate::annexb::{
    lemma_next_unit, spec_next_unit, AnnexBSplitter, AnnexBStartCode, AnnexBUnit,
    UnitBounds,
};

verus! {

/// The kind of a NAL unit, its five-bit type field.
#[derive(Debug, Clone, Copy, PartialEq, Eq, Structural)]
pub enum NALUnitType {
    Unspecified,
    CodedSliceNonIDR,
    CodedSliceDataPartitionA,
    CodedSliceDataPartitionB,
    CodedSliceDataPartitionC,
    CodedSliceIDR,
    Sei,
    Sps,
    Pps,
    AccessUnitDelimiter,
    EndOfSequence,
    EndOfStream,
    FillerData,
    SPSEx,
    PrefixNALUnit,
    SubsetSPS,
    DepthParameterSet,
    Reserved17,
    Reserved18,
    CodedSliceAux,
    CodedSliceExt,
    CodedSliceExtDepth,
    Reserved22,
    Reserved23,
    Unspecified24,
    Unspecified25,
    Unspecified26,
    Unspecified27,
    Unspecified28,
    Unspecified29,
    Unspecified30,
    Unspecified31,
}

/// The number of a NAL unit type.
pub open spec fn spec_nal_type_number(t: NALUnitType) -> u8 {
    match t {
        NALUnitType::Unspecified => 0,
        NALUnitType::CodedSliceNonIDR => 1,
        NALUnitType::CodedSliceDataPartitionA => 2,
        NALUnitType::CodedSliceDataPartitionB => 3,
        NALUnitType::CodedSliceDataPartitionC => 4,
        NALUnitType::CodedSliceIDR => 5,
        NALUnitType::Sei => 6,
        NALUnitType::Sps => 7,
        NALUnitType::Pps => 8,
        NALUnitType::AccessUnitDelimiter => 9,
        NALUnitType::EndOfSequence => 10,
        NALUnitType::EndOfStream => 11,
        NALUnitType::FillerData => 12,
        NALUnitType::SPSEx => 13,
        NALUnitType::PrefixNALUnit => 14,
        NALUnitType::SubsetSPS => 15,
        NALUnitType::DepthParameterSet => 16,
        NALUnitType::Reserved17 => 17,
        NALUnitType::Reserved18 => 18,
        NALUnitType::CodedSliceAux => 19,
        NALUnitType::CodedSliceExt => 20,
        NALUnitType::CodedSliceExtDepth => 21,
        NALUnitType::Reserved22 => 22,
        NALUnitType::Reserved23 => 23,
        NALUnitType::Unspecified24 => 24,
        NALUnitType::Unspecified25 => 25,
        NALUnitType::Unspecified26 => 26,
        NALUnitType::Unspecified27 => 27,
        NALUnitType::Unspecified28 => 28,
        NALUnitType::Unspecified29 => 29,
        NALUnitType::Unspecified30 => 30,
        NALUnitType::Unspecified31 => 31,
    }
}

impl NALUnitType {
    /// The type with number `n`; every number below 32 names one.
    pub fn from_u8(n: u8) -> (res: Option<NALUnitType>)
        ensures
            n < 32 <==> res is Some,
            res matches Some(t) ==> spec_nal_type_number(t) == n,
    {
        match n {
            0 => Some(NALUnitType::Unspecified),
            1 => Some(NALUnitType::CodedSliceNonIDR),
            2 => Some(NALUnitType::CodedSliceDataPartitionA),
            3 => Some(NALUnitType::CodedSliceDataPartitionB),
            4 => Some(NALUnitType::CodedSliceDataPartitionC),
            5 => Some(NALUnitType::CodedSliceIDR),
            6 => Some(NALUnitType::Sei),
            7 => Some(NALUnitType::Sps),
            8 => Some(NALUnitType::Pps),
            9 => Some(NALUnitType::AccessUnitDelimiter),
            10 => Some(NALUnitType::EndOfSequence),
            11 => Some(NALUnitType::EndOfStream),
            12 => Some(NALUnitType::FillerData),
            13 => Some(NALUnitType::SPSEx),
            14 => Some(NALUnitType::PrefixNALUnit),
            15 => Some(NALUnitType::SubsetSPS),
            16 => Some(NALUnitType::DepthParameterSet),
            17 => Some(NALUnitType::Reserved17),
            18 => Some(NALUnitType::Reserved18),
            19 => Some(NALUnitType::CodedSliceAux),
            20 => Some(NALUnitType::CodedSliceExt),
            21 => Some(NALUnitType::CodedSliceExtDepth),
            22 => Some(NALUnitType::Reserved22),
            23 => Some(NALUnitType::Reserved23),
            24 => Some(NALUnitType::Unspecified24),
            25 => Some(NALUnitType::Unspecified25),
            26 => Some(NALUnitType::Unspecified26),
            27 => Some(NALUnitType::Unspecified27),
            28 => Some(NALUnitType::Unspecified28),
            29 => Some(NALUnitType::Unspecified29),
            30 => Some(NALUnitType::Unspecified30),
            31 => Some(NALUnitType::Unspecified31),
            _ => None,
        }
    }
}

/// The one-byte header of a NAL unit.
#[derive(Debug, Clone, Copy, PartialEq, Eq, Structural)]
pub struct NALHeader {
    pub forbidden_zero_bit: bool,
    pub nal_ref_idc: u8,
    pub nal_unit_type: NALUnitType,
}

impl NALHeader {
    /// Splits the header byte: the forbidden bit is the top bit, the reference importance the
    /// next two, the type the low five.
    pub fn parse(header: [u8; 1]) -> (res: Self)
        ensures
            res.forbidden_zero_bit == (header[0] >= 128),
            res.nal_ref_idc == (header[0] / 32) % 4,
            spec_nal_type_number(res.nal_unit_type) == header[0] % 32,
    {
        let b = header[0];
        let forbidden_zero_bit = ((b & 0x80) >> 7u8) == 1;
        let nal_ref_idc = (b & 0x60) >> 5u8;
        let t = b & 0x1f;
        assert(((b & 0x80) >> 7u8 == 1) == (b >= 128)) by (bit_vector);
        assert((b & 0x60) >> 5u8 == (b / 32) % 4) by (bit_vector);
        assert(b & 0x1f == b % 32) by (bit_vector);
        let nal_unit_type = match NALUnitType::from_u8(t) {
            Some(ty) => ty,
            None => {
                assert(false);
                NALUnitType::Unspecified
            },
        };
        NALHeader { forbidden_zero_bit, nal_ref_idc, nal_unit_type }
    }
}

/// `h` is the header that the byte `byte` holds.
pub open spec fn header_of(h: NALHeader, byte: u8) -> bool {
    &&& h.forbidden_zero_bit == (byte >= 128)
    &&& h.nal_ref_idc == (byte / 32) % 4
    &&& spec_nal_type_number(h.nal_unit_type) == byte % 32
}

/// The next unit from position `p` on that is not supplemental enhancement information.
pub open spec fn spec_next_nal(b: Seq<u8>, p: int) -> Option<UnitBounds>
    decreases b.len() - p,
{
    match spec_next_unit(b, p) {
        None => None,
        Some(u) => if 0 <= u.payload < b.len() && b[u.payload] % 32 == 6 {
            if p < u.end <= b.len() {
                spec_next_nal(b, u.end)
            } else {
                None
            }
        } else {
            Some(u)
        },
    }
}

/// Where the next unit that is no supplemental enhancement information lies: after `p`, its
/// payload not empty, its end in the stream.
pub proof fn lemma_next_nal(b: Seq<u8>, p: int)
    requires
        0 <= p <= b.len(),
    ensures
        spec_next_nal(b, p) matches Some(u) ==> {
            &&& p <= u.start
            &&& u.start + 3 <= u.payload <= u.start + 4
            &&& u.payload < u.end <= b.len()
        },
    decreases b.len() - p,
{
    lemma_next_unit(b, p);
    match spec_next_unit(b, p) {
        None => {},
        Some(u) => {
            if 0 <= u.payload < b.len() && b[u.payload] % 32 == 6 && p < u.end <= b.len() {
                lemma_next_nal(b, u.end);
            }
        },
    }
}

/// The reader leaves out exactly the supplemental enhancement information: when the next unit
/// the splitter finds has a header type other than 6, that unit is the reader's next; when
/// its type is 6, the reader goes on after it; when there is no unit, the reader has none.
pub proof fn law_only_sei_left_out(b: Seq<u8>, p: int)
    requires
        0 <= p <= b.len(),
    ensures
        spec_next_unit(b, p) is None ==> spec_next_nal(b, p) is None,
        spec_next_unit(b, p) matches Some(u) ==> {
            &&& 0 <= u.payload < b.len()
            &&& b[u.payload] % 32 != 6 ==> spec_next_nal(b, p) == Some(u)
            &&& b[u.payload] % 32 == 6 ==> spec_next_nal(b, p) == spec_next_nal(b, u.end)
        },
{
    lemma_next_unit(b, p);
}

/// A NAL unit as the reader hands it out: its bytes from the start code on, and where in them
/// the start code, the header byte and the payload after it lie.
#[derive(Debug)]
pub struct NAL {
    pub payload_range: (usize, usize),
    pub header: NALHeader,
    pub header_range: (usize, usize),
    pub start_code: AnnexBStartCode,
    pub start_code_range: (usize, usize),
    pub full: Vec<u8>,
}

/// `n` is the unit of the stream `b` that `bounds` delimit.
pub open spec fn nal_matches(n: NAL, b: Seq<u8>, bounds: UnitBounds) -> bool {
    let h = bounds.payload - bounds.start;
    &&& n.full@ == b.subrange(bounds.start, bounds.end)
    &&& n.start_code == (if h == 4 {
        AnnexBStartCode::FourBytes
    } else {
        AnnexBStartCode::ThreeBytes
    })
    &&& n.start_code_range == (0usize, h as usize)
    &&& n.header_range == (h as usize, (h + 1) as usize)
    &&& n.payload_range == ((h + 1) as usize, (bounds.end - bounds.start) as usize)
    &&& header_of(n.header, b[bounds.payload])
}

/// Reads the NAL units of an H.264 byte stream, leaving out supplemental enhancement
/// information.
pub struct H264Reader {
    annex_b: AnnexBSplitter,
}

impl H264Reader {
    /// The stream.
    pub closed spec fn stream(&self) -> Seq<u8> {
        self.annex_b.stream()
    }

    /// Where the next unit is looked for.
    pub closed spec fn pos(&self) -> int {
        self.annex_b.pos()
    }

    /// The reader's position lies in its stream.
    pub open spec fn wf(&self) -> bool {
        0 <= self.pos() <= self.stream().len() <= usize::MAX
    }

    /// Starts over on `data`.
    pub fn reset(&mut self, data: Vec<u8>)
        ensures
            final(self).wf(),
            final(self).stream() == data@,
            final(self).pos() == 0,
    {
        self.annex_b.reset(data);
    }

    /// A reader at the start of `data`.
    pub fn new(data: Vec<u8>) -> (res: Self)
        ensures
            res.wf(),
            res.stream() == data@,
            res.pos() == 0,
    {
        H264Reader { annex_b: AnnexBSplitter::new(data) }
    }

    /// The next unit that is not supplemental enhancement information, or `None` at the end of
    /// the stream.
    pub fn next_nal(&mut self) -> (res: Option<NAL>)
        requires
            old(self).wf(),
        ensures
            final(self).wf(),
            final(self).stream() == old(self).stream(),
            match spec_next_nal(old(self).stream(), old(self).pos()) {
                None => res is None,
                Some(bounds) => res matches Some(n) && nal_matches(n, old(self).stream(), bounds)
                    && final(self).pos() == bounds.end,
            },
    {
        let ghost b = self.annex_b.stream();
        let ghost p0 = self.annex_b.pos();
        loop
            invariant
                self.annex_b.wf(),
                b == old(self).stream(),
                p0 == old(self).pos(),
                self.annex_b.stream() == b,
                0 <= self.annex_b.pos() <= b.len(),
                spec_next_nal(b, self.annex_b.pos()) == spec_next_nal(b, p0),
            decreases b.len() - self.annex_b.pos(),
        {
            let ghost p = self.annex_b.pos();
            proof { lemma_next_unit(b, p); }
            match self.annex_b.next() {
                None => {
                    return None;
                },
                Some(unit) => {
                    let ghost u = spec_next_unit(b, p)->0;
                    let head = unit.payload_range.0;
                    let byte = unit.full[head];
                    assert(byte == b[u.payload]);
                    let header = NALHeader::parse([byte]);
                    if byte % 32 == 6 {
                        continue;
                    }
                    let AnnexBUnit { start_code, start_code_range, payload_range, full } = unit;
                    return Some(
                        NAL {
                            payload_range: (head + 1, payload_range.1),
                            header,
                            header_range: (head, head + 1),
                            start_code,
                            start_code_range,
                            full,
                        },
                    );
                },
            }
        }
    }
}

} // verus!
