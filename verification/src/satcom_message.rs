use vstd::prelude::*;
use vstd::arithmetic::power2::{pow2, lemma2_to64};
use crate::bitpacker::{
    BitPacker, word_bits, sixbit_normalize, sixbit_fits, seq_field, lemma_word_field,
};
use crate::common::errors::{BitPackerError, SatComMessageError, SatComMessageResult, VoyageOrderError};
use crate::common::types::{
    SatComMessageType, sat_com_message_type_from_u8, sat_com_message_type_to_u8,
    lemma_sat_com_message_type_code_roundtrip,
};
use crate::voyage_order::{
    VoyageOrder, VoyageOrderBody, VoyageOrderBodyView, VoyageOrderHeader, VoyageOrderView, body_bits,
    body_of, header_bits, header_of, lemma_body_roundtrip, lemma_header_roundtrip,
};

verus! {

/// A message between the harbourmaster and a boat about a voyage order.
#[derive(Debug)]
pub struct SatComMessage {
    pub source: u32,
    pub target: u32,
    pub order_header: VoyageOrderHeader,
    pub message_type: SatComMessageType,
    pub order_body_review: Option<VoyageOrderBody>,
}

/// The contents of a satellite message.
pub struct SatComMessageView {
    pub source: u32,
    pub target: u32,
    pub order_header: VoyageOrderHeader,
    pub message_type: SatComMessageType,
    pub order_body_review: Option<VoyageOrderBodyView>,
}

pub open spec fn opt_body_view(b: Option<VoyageOrderBody>) -> Option<VoyageOrderBodyView> {
    match b {
        Some(body) => Some(body@),
        None => None,
    }
}

impl View for SatComMessage {
    type V = SatComMessageView;

    open spec fn view(&self) -> SatComMessageView {
        SatComMessageView {
            source: self.source,
            target: self.target,
            order_header: self.order_header,
            message_type: self.message_type,
            order_body_review: opt_body_view(self.order_body_review),
        }
    }
}

fn clone_body(b: &Option<VoyageOrderBody>) -> (r: Option<VoyageOrderBody>)
    ensures
        opt_body_view(r) == opt_body_view(*b),
{
    match b {
        Some(body) => Some(body.clone()),
        None => None,
    }
}

impl Clone for SatComMessage {
    fn clone(&self) -> (r: Self)
        ensures
            r@ == self@,
    {
        SatComMessage {
            source: self.source,
            target: self.target,
            order_header: self.order_header,
            message_type: self.message_type,
            order_body_review: clone_body(&self.order_body_review),
        }
    }
}

/// The message read from bits `s`: source (bits 0 to 31), target (32 to
/// 63), header (64 to 103), type (104 to 111), and a body from bit 112 on
/// when there are more bits.
pub open spec fn satcom_of(s: Seq<bool>) -> SatComMessageView {
    SatComMessageView {
        source: seq_field(s, 0, 31) as u32,
        target: seq_field(s, 32, 63) as u32,
        order_header: header_of(s.subrange(64, 104)),
        message_type: sat_com_message_type_from_u8(seq_field(s, 104, 111) as u8),
        order_body_review: if s.len() > 112 {
            Some(body_of(s.subrange(112, s.len() as int)))
        } else {
            None
        },
    }
}

/// The bits of a message: source and target on 32 bits each, the header, the
/// type on 8 bits, then the body when there is one.
pub open spec fn satcom_bits(m: SatComMessageView) -> Seq<bool> {
    word_bits(m.source as u64, 32) + word_bits(m.target as u64, 32) + header_bits(m.order_header)
        + word_bits(sat_com_message_type_to_u8(m.message_type) as u64, 8) + match m.order_body_review {
        Some(b) => body_bits(b),
        None => Seq::empty(),
    }
}

fn read_u32(bp: &BitPacker, start: usize, end: usize) -> (r: SatComMessageResult<u32>)
    requires
        bp.wf(),
        start <= end,
        end - start < 32,
    ensures
        !bp.in_bounds(start as int, end as int) ==> r == Err::<u32, SatComMessageError>(
            SatComMessageError::BitPacker(BitPackerError::IndexOutOfBounds),
        ),
        bp.in_bounds(start as int, end as int) ==> r == Ok::<u32, SatComMessageError>(
            bp.field_value(start as int, end as int) as u32,
        ),
{
    match bp.extract_int(Some(start), Some(end)) {
        Ok(v) => {
            proof {
                bp.lemma_field_value_bound(start as int, end as int, 32);
                lemma2_to64();
            }
            Ok(v as u32)
        },
        Err(e) => Err(SatComMessageError::BitPacker(e)),
    }
}

impl SatComMessage {
    pub fn new(
        source: u32,
        target: u32,
        order_header: VoyageOrderHeader,
        message_type: SatComMessageType,
        order_body_review: Option<VoyageOrderBody>,
    ) -> (r: Self)
        ensures
            r@ == (SatComMessageView {
                source,
                target,
                order_header,
                message_type,
                order_body_review: opt_body_view(order_body_review),
            }),
    {
        Self {
            source: source,
            target: target,
            order_header: order_header,
            message_type: message_type,
            order_body_review,
        }
    }

    pub fn source(&self) -> (r: &u32)
        ensures
            *r == self.source,
    {
        &self.source
    }

    pub fn target(&self) -> (r: &u32)
        ensures
            *r == self.target,
    {
        &self.target
    }

    pub fn order_header(&self) -> (r: VoyageOrderHeader)
        ensures
            r == self.order_header,
    {
        self.order_header
    }

    pub fn message_type(&self) -> (r: &SatComMessageType)
        ensures
            *r == self.message_type,
    {
        &self.message_type
    }

    pub fn order_body_review(&self) -> (r: Option<VoyageOrderBody>)
        ensures
            opt_body_view(r) == opt_body_view(self.order_body_review),
    {
        clone_body(&self.order_body_review)
    }

    /// The order that the message carries, when it carries a body.
    pub fn order(&self) -> (r: Option<VoyageOrder>)
        ensures
            self.order_body_review is None ==> r is None,
            self.order_body_review matches Some(b) ==> (r matches Some(o) && o@ == (
            VoyageOrderView { header: self.order_header, body: b@ })),
    {
        match &self.order_body_review {
            Some(body) => Some(VoyageOrder::from_components(&self.order_header, body)),
            None => None,
        }
    }

    /// Whether a message can be read without an out-of-range field: the
    /// header's version (bits 80 to 103) and, past the body, the speed
    /// profile (bits 304 on) must each hold a byte.
    pub fn readable(msg: &BitPacker) -> (r: bool)
        requires
            msg.wf(),
        ensures
            r == ((msg.nbits() >= 104 ==> msg.fits(80, 103, 8)) && (msg.nbits() > 304 ==> msg.fits(
                304,
                msg.nbits() - 1,
                8,
            ))),
    {
        let n = *msg.bits_len();
        if n >= 104 && !msg.fits_width(80, 103, 8) {
            return false;
        }
        if n > 304 && !msg.fits_width(304, n - 1, 8) {
            return false;
        }
        true
    }

    /// Reads a message; see [`satcom_of`] for the layout. A header version
    /// must fit in a byte where it is read, and so must the body's speed profile.
    pub fn parse(msg: BitPacker) -> (r: SatComMessageResult<Self>)
        requires
            msg.wf(),
            msg.nbits() >= 104 ==> msg.fits(80, 103, 8),
            msg.nbits() > 304 ==> msg.fits(304, msg.nbits() - 1, 8),
        ensures
            112 < msg.nbits() <= 304 ==> r == Err::<Self, SatComMessageError>(
                SatComMessageError::VoyageOrder(
                    VoyageOrderError::BitPacker(BitPackerError::IndexOutOfBounds),
                ),
            ),
            msg.nbits() < 112 ==> r == Err::<Self, SatComMessageError>(
                SatComMessageError::BitPacker(BitPackerError::IndexOutOfBounds),
            ),
            (msg.nbits() == 112 || msg.nbits() > 304) ==> (r matches Ok(m) && m@ == satcom_of(
                msg@,
            )),
    {
        let mut order_body_review: Option<VoyageOrderBody> = None;
        if *msg.bits_len() > 112 {
            let body_bits = match msg.slice(Some(112), None) {
                Ok(p) => p,
                Err(e) => return Err(SatComMessageError::BitPacker(e)),
            };
            assert(body_bits.nbits() > 192 ==> body_bits.fits(192, body_bits.nbits() - 1, 8)) by {
                if body_bits.nbits() > 192 {
                    assert forall|i: int|
                        192 + 8 <= i <= body_bits.nbits() - 1 implies !#[trigger] body_bits@[i] by {
                        assert(body_bits@[i] == msg@[i + 112]);
                    }
                }
            }
            match VoyageOrderBody::from_bitpacker(&body_bits) {
                Ok(b) => {
                    order_body_review = Some(b);
                },
                Err(e) => return Err(SatComMessageError::VoyageOrder(e)),
            }
        }
        let source = match read_u32(&msg, 0, 31) {
            Ok(v) => v,
            Err(e) => return Err(e),
        };
        let target = match read_u32(&msg, 32, 63) {
            Ok(v) => v,
            Err(e) => return Err(e),
        };
        let header_bits = match msg.slice(Some(64), Some(103)) {
            Ok(p) => p,
            Err(e) => return Err(SatComMessageError::BitPacker(e)),
        };
        assert(header_bits.fits(16, header_bits.nbits() - 1, 8)) by {
            assert forall|i: int| 16 + 8 <= i <= header_bits.nbits() - 1 implies !#[trigger] header_bits@[i] by {
                assert(header_bits@[i] == msg@[i + 64]);
            }
        }
        let order_header = match VoyageOrderHeader::from_bitpacker(&header_bits) {
            Ok(h) => h,
            Err(e) => return Err(SatComMessageError::VoyageOrder(e)),
        };
        let type_code: u64 = match msg.extract_int(Some(104), Some(111)) {
            Ok(v) => v,
            Err(e) => return Err(SatComMessageError::BitPacker(e)),
        };
        proof {
            msg.lemma_field_value_bound(104, 111, 8);
            lemma2_to64();
        }
        let message_type = SatComMessageType::from(type_code as u8);
        Ok(Self { source, target, order_header, message_type, order_body_review })
    }

    /// The body (when there is one) above the type, the header, the target and the source.
    pub fn to_bitpacker(&self) -> (r: BitPacker)
        ensures
            r.canonical(),
            r@ == satcom_bits(self@),
    {
        let order_body_review_bitpacker: BitPacker = match &self.order_body_review {
            Some(b) => b.to_bitpacker(),
            None => BitPacker::from_int(0, Some(0)),
        };
        let u8_message_type: u8 = self.message_type.into();
        let r = order_body_review_bitpacker.add(BitPacker::from_int(u8_message_type as u64, Some(8))).add(
            self.order_header.to_bitpacker(),
        ).add(BitPacker::from_int(self.target as u64, Some(32))).add(
            BitPacker::from_int(self.source as u64, Some(32)),
        );
        assert(r@ =~= satcom_bits(self@));
        r
    }
}

/// The body as it reads back after writing.
pub open spec fn normalized_body(b: Option<VoyageOrderBodyView>) -> Option<VoyageOrderBodyView> {
    match b {
        Some(body) => Some(VoyageOrderBodyView { destination: sixbit_normalize(body.destination), ..body }),
        None => None,
    }
}

/// Writing a message and reading it back gives the same message (the body's
/// destination in the AIS alphabet), when its order is at version 0 and the
/// destination has at most 20 characters, none of code 64. Such bits also
/// meet what reading asks of them.
pub proof fn lemma_satcom_roundtrip(m: SatComMessageView)
    requires
        m.order_header.version == 0,
        m.order_body_review matches Some(b) ==> b.destination.len() <= 20 && sixbit_fits(
            b.destination,
        ),
    ensures
        satcom_of(satcom_bits(m)) == (SatComMessageView {
            order_body_review: normalized_body(m.order_body_review),
            ..m
        }),
        satcom_bits(m).len() == 112 || satcom_bits(m).len() == 312,
        forall|i: int| 88 <= i < 104 ==> !#[trigger] satcom_bits(m)[i],
{
    let s = satcom_bits(m);
    lemma2_to64();
    assert(s.subrange(0, 32) =~= word_bits(m.source as u64, 32));
    lemma_word_field(s, 0, m.source as u64, 32);
    assert(s.subrange(32, 64) =~= word_bits(m.target as u64, 32));
    lemma_word_field(s, 32, m.target as u64, 32);
    assert(s.subrange(64, 104) =~= header_bits(m.order_header));
    lemma_header_roundtrip(m.order_header);
    let code = sat_com_message_type_to_u8(m.message_type);
    assert(s.subrange(104, 112) =~= word_bits(code as u64, 8));
    lemma_word_field(s, 104, code as u64, 8);
    lemma_sat_com_message_type_code_roundtrip(m.message_type);
    match m.order_body_review {
        Some(b) => {
            assert(s.subrange(112, s.len() as int) =~= body_bits(b));
            lemma_body_roundtrip(b);
        },
        None => {},
    }
    assert forall|i: int| 88 <= i < 104 implies !#[trigger] s[i] by {
        assert(s[i] == header_bits(m.order_header)[i - 64]);
        crate::bitpacker::lemma_word_bits_high_clear(m.order_header.id as u64, 16, i - 64);
        if i >= 96 {
            crate::bitpacker::lemma_word_bits_high_clear(0u64, 0, i - 96);
        }
    }
}

} // verus!
