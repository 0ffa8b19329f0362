use vstd::prelude::*;
use vstd::arithmetic::power2::{pow2, lemma2_to64};
use crate::bitpacker::{
    BitPacker, bits_value, word_bits, sixbit_packed_bit, packed_str, sixbit_text, sixbit_normalize, sixbit_fits,
    lemma_sixbit_roundtrip, lemma_word_bits_value, seq_field, lemma_word_field,
};
use crate::common::errors::{BitPackerError, VoyageOrderError, VoyageOrderResult};

verus! {

/// Identifies a voyage order and its version.
#[derive(Debug, Clone, Copy, PartialEq, Eq, Structural)]
pub struct VoyageOrderHeader {
    pub id: u16,
    pub version: u8,
}

/// What a voyage order asks for.
#[derive(Debug)]
pub struct VoyageOrderBody {
    pub destination: String,
    pub destination_position: (u16, u16),
    pub eta_month: u8,
    pub eta_day: u8,
    pub eta_hour: u8,
    pub eta_minute: u8,
    pub cargo_type: u8,
    /// 0: economic, 1: on time, 2: as fast as possible.
    pub speed_profile: u8,
}

/// The contents of a voyage order body, the destination as characters.
pub struct VoyageOrderBodyView {
    pub destination: Seq<char>,
    pub destination_position: (u16, u16),
    pub eta_month: u8,
    pub eta_day: u8,
    pub eta_hour: u8,
    pub eta_minute: u8,
    pub cargo_type: u8,
    pub speed_profile: u8,
}

impl View for VoyageOrderBody {
    type V = VoyageOrderBodyView;

    open spec fn view(&self) -> VoyageOrderBodyView {
        VoyageOrderBodyView {
            destination: self.destination@,
            destination_position: self.destination_position,
            eta_month: self.eta_month,
            eta_day: self.eta_day,
            eta_hour: self.eta_hour,
            eta_minute: self.eta_minute,
            cargo_type: self.cargo_type,
            speed_profile: self.speed_profile,
        }
    }
}

impl Clone for VoyageOrderBody {
    fn clone(&self) -> (r: Self)
        ensures
            r@ == self@,
    {
        VoyageOrderBody {
            destination: self.destination.clone(),
            destination_position: self.destination_position,
            eta_month: self.eta_month,
            eta_day: self.eta_day,
            eta_hour: self.eta_hour,
            eta_minute: self.eta_minute,
            cargo_type: self.cargo_type,
            speed_profile: self.speed_profile,
        }
    }
}

/// A voyage order: its header and its body.
#[derive(Debug)]
pub struct VoyageOrder {
    pub header: VoyageOrderHeader,
    pub body: VoyageOrderBody,
}

/// The contents of a voyage order.
pub struct VoyageOrderView {
    pub header: VoyageOrderHeader,
    pub body: VoyageOrderBodyView,
}

impl View for VoyageOrder {
    type V = VoyageOrderView;

    open spec fn view(&self) -> VoyageOrderView {
        VoyageOrderView { header: self.header, body: self.body@ }
    }
}

impl Clone for VoyageOrder {
    fn clone(&self) -> (r: Self)
        ensures
            r@ == self@,
    {
        VoyageOrder { header: self.header, body: self.body.clone() }
    }
}

/// The header read from bits `s`: the id from bits 0 to 15, the version
/// from bit 16 to the end.
pub open spec fn header_of(s: Seq<bool>) -> VoyageOrderHeader {
    VoyageOrderHeader {
        id: seq_field(s, 0, 15) as u16,
        version: seq_field(s, 16, s.len() - 1) as u8,
    }
}

/// The bits of a header: the id on 32 bits, then the version on 8.
pub open spec fn header_bits(h: VoyageOrderHeader) -> Seq<bool> {
    word_bits(h.id as u64, 32) + word_bits(h.version as u64, 8)
}

/// The body read from bits `s`.
pub open spec fn body_of(s: Seq<bool>) -> VoyageOrderBodyView {
    VoyageOrderBodyView {
        destination: sixbit_text(s.subrange(0, 120), 20),
        destination_position: (seq_field(s, 120, 135) as u16, seq_field(s, 136, 151) as u16),
        eta_month: seq_field(s, 152, 159) as u8,
        eta_day: seq_field(s, 160, 167) as u8,
        eta_hour: seq_field(s, 168, 175) as u8,
        eta_minute: seq_field(s, 176, 183) as u8,
        cargo_type: seq_field(s, 184, 191) as u8,
        speed_profile: seq_field(s, 192, s.len() - 1) as u8,
    }
}

/// The bits of a body: the destination packed on 120 bits, the position
/// (two 16-bit numbers), then the month, day, hour, minute, cargo type and
/// speed profile on 8 bits each.
pub open spec fn body_bits(b: VoyageOrderBodyView) -> Seq<bool> {
    packed_str(b.destination, 120) + word_bits(b.destination_position.0 as u64, 16) + word_bits(
        b.destination_position.1 as u64,
        16,
    ) + word_bits(b.eta_month as u64, 8) + word_bits(b.eta_day as u64, 8) + word_bits(
        b.eta_hour as u64,
        8,
    ) + word_bits(b.eta_minute as u64, 8) + word_bits(b.cargo_type as u64, 8) + word_bits(
        b.speed_profile as u64,
        8,
    )
}

fn read_u16(bp: &BitPacker, start: usize, end: usize) -> (r: VoyageOrderResult<u16>)
    requires
        bp.wf(),
        start <= end,
        end - start < 16,
    ensures
        !bp.in_bounds(start as int, end as int) ==> r == Err::<u16, VoyageOrderError>(
            VoyageOrderError::BitPacker(BitPackerError::IndexOutOfBounds),
        ),
        bp.in_bounds(start as int, end as int) ==> r == Ok::<u16, VoyageOrderError>(
            bp.field_value(start as int, end as int) as u16,
        ),
        bp.in_bounds(start as int, end as int) ==> bp.field_value(start as int, end as int)
            < 65536,
{
    match bp.extract_int(Some(start), Some(end)) {
        Ok(v) => {
            proof {
                bp.lemma_field_value_bound(start as int, end as int, 16);
                lemma2_to64();
            }
            Ok(v as u16)
        },
        Err(e) => Err(VoyageOrderError::BitPacker(e)),
    }
}

fn read_u8(bp: &BitPacker, start: usize, end_idx: Option<usize>) -> (r: VoyageOrderResult<u8>)
    requires
        bp.wf(),
        bp.ordered(start as int, bp.end_of(end_idx)),
        bp.in_bounds(start as int, bp.end_of(end_idx)) ==> bp.fits(
            start as int,
            bp.end_of(end_idx),
            8,
        ),
    ensures
        !bp.in_bounds(start as int, bp.end_of(end_idx)) ==> r == Err::<u8, VoyageOrderError>(
            VoyageOrderError::BitPacker(BitPackerError::IndexOutOfBounds),
        ),
        bp.in_bounds(start as int, bp.end_of(end_idx)) ==> r == Ok::<u8, VoyageOrderError>(
            bp.field_value(start as int, bp.end_of(end_idx)) as u8,
        ),
        bp.in_bounds(start as int, bp.end_of(end_idx)) ==> bp.field_value(
            start as int,
            bp.end_of(end_idx),
        ) < 256,
{
    match bp.extract_int(Some(start), end_idx) {
        Ok(v) => {
            proof {
                bp.lemma_field_value_bound(start as int, bp.end_of(end_idx), 8);
                lemma2_to64();
            }
            Ok(v as u8)
        },
        Err(e) => Err(VoyageOrderError::BitPacker(e)),
    }
}

impl VoyageOrderHeader {
    /// Reads a header: the id from bits 0 to 15, the version from bit 16 to
    /// the end, which must hold a byte.
    pub fn from_bitpacker(voyage_order_header_bitpacker: &BitPacker) -> (r: VoyageOrderResult<
        Self,
    >)
        requires
            voyage_order_header_bitpacker.wf(),
            voyage_order_header_bitpacker.nbits() > 16 ==> voyage_order_header_bitpacker.fits(
                16,
                voyage_order_header_bitpacker.nbits() - 1,
                8,
            ),
        ensures
            voyage_order_header_bitpacker.nbits() <= 16 ==> r == Err::<Self, VoyageOrderError>(
                VoyageOrderError::BitPacker(BitPackerError::IndexOutOfBounds),
            ),
            voyage_order_header_bitpacker.nbits() > 16 ==> r == Ok::<Self, VoyageOrderError>(
                header_of(voyage_order_header_bitpacker@),
            ),
    {
        let bp = voyage_order_header_bitpacker;
        let id = match read_u16(bp, 0, 15) {
            Ok(v) => v,
            Err(e) => return Err(e),
        };
        let version = match read_u8(bp, 16, None) {
            Ok(v) => v,
            Err(e) => return Err(e),
        };
        Ok(Self { id: id, version: version })
    }

    pub fn from_data(id: u16, version: u8) -> (r: Self)
        ensures
            r.id == id,
            r.version == version,
    {
        Self { id: id, version: version }
    }

    /// The id on 32 bits, then the version on 8.
    pub fn to_bitpacker(&self) -> (r: BitPacker)
        ensures
            r.canonical(),
            r.nbits() == 40,
            r@ == header_bits(*self),
    {
        BitPacker::from_int(self.version as u64, Some(8)).add(
            BitPacker::from_int(self.id as u64, Some(32)),
        )
    }

    pub fn id(&self) -> (r: &u16)
        ensures
            *r == self.id,
    {
        &self.id
    }

    pub fn version(&self) -> (r: &u8)
        ensures
            *r == self.version,
    {
        &self.version
    }

    pub fn set_version(&mut self, val: u8)
        ensures
            final(self).version == val,
            final(self).id == old(self).id,
    {
        self.version = val;
    }
}

impl VoyageOrderBody {
    /// Reads a body: the destination from the first 120 bits, then the
    /// position and the other fields; the speed profile runs to the end and
    /// must hold a byte.
    pub fn from_bitpacker(voyage_order_body_bitpacker: &BitPacker) -> (r: VoyageOrderResult<Self>)
        requires
            voyage_order_body_bitpacker.wf(),
            voyage_order_body_bitpacker.nbits() > 192 ==> voyage_order_body_bitpacker.fits(
                192,
                voyage_order_body_bitpacker.nbits() - 1,
                8,
            ),
        ensures
            voyage_order_body_bitpacker.nbits() <= 192 ==> r == Err::<Self, VoyageOrderError>(
                VoyageOrderError::BitPacker(BitPackerError::IndexOutOfBounds),
            ),
            voyage_order_body_bitpacker.nbits() > 192 ==> (r matches Ok(b) && b@ == body_of(
                voyage_order_body_bitpacker@,
            )),
    {
        let bp = voyage_order_body_bitpacker;
        let destination = match bp.extract_str(None, Some(119)) {
            Ok(s) => s,
            Err(e) => return Err(VoyageOrderError::BitPacker(e)),
        };
        let pos0 = match read_u16(bp, 120, 135) {
            Ok(v) => v,
            Err(e) => return Err(e),
        };
        let pos1 = match read_u16(bp, 136, 151) {
            Ok(v) => v,
            Err(e) => return Err(e),
        };
        let eta_month = match read_u8(bp, 152, Some(159)) {
            Ok(v) => v,
            Err(e) => return Err(e),
        };
        let eta_day = match read_u8(bp, 160, Some(167)) {
            Ok(v) => v,
            Err(e) => return Err(e),
        };
        let eta_hour = match read_u8(bp, 168, Some(175)) {
            Ok(v) => v,
            Err(e) => return Err(e),
        };
        let eta_minute = match read_u8(bp, 176, Some(183)) {
            Ok(v) => v,
            Err(e) => return Err(e),
        };
        let cargo_type = match read_u8(bp, 184, Some(191)) {
            Ok(v) => v,
            Err(e) => return Err(e),
        };
        let speed_profile = match read_u8(bp, 192, None) {
            Ok(v) => v,
            Err(e) => return Err(e),
        };
        Ok(Self {
            destination,
            destination_position: (pos0, pos1),
            eta_month,
            eta_day,
            eta_hour,
            eta_minute,
            cargo_type,
            speed_profile,
        })
    }

    pub fn from_data(
        dest: &str,
        dest_pos: (u16, u16),
        eta_month: u8,
        eta_day: u8,
        eta_hour: u8,
        eta_min: u8,
        cargo_type: u8,
        speed_profile: u8,
    ) -> (r: Self)
        ensures
            r@ == (VoyageOrderBodyView {
                destination: dest@,
                destination_position: dest_pos,
                eta_month,
                eta_day,
                eta_hour,
                eta_minute: eta_min,
                cargo_type,
                speed_profile,
            }),
    {
        Self {
            destination: dest.to_owned(),
            destination_position: dest_pos,
            eta_month: eta_month,
            eta_day: eta_day,
            eta_hour: eta_hour,
            eta_minute: eta_min,
            cargo_type: cargo_type,
            speed_profile: speed_profile,
        }
    }

    /// The destination packed on 120 bits, then the position and the other fields.
    pub fn to_bitpacker(&self) -> (r: BitPacker)
        ensures
            r.canonical(),
            r.nbits() == 200,
            r@ == body_bits(self@),
    {
        let r = BitPacker::from_int(self.speed_profile as u64, Some(8)).add(
            BitPacker::from_int(self.cargo_type as u64, Some(8)),
        ).add(BitPacker::from_int(self.eta_minute as u64, Some(8))).add(
            BitPacker::from_int(self.eta_hour as u64, Some(8)),
        ).add(BitPacker::from_int(self.eta_day as u64, Some(8))).add(
            BitPacker::from_int(self.eta_month as u64, Some(8)),
        ).add(BitPacker::from_int(self.destination_position.1 as u64, Some(16))).add(
            BitPacker::from_int(self.destination_position.0 as u64, Some(16)),
        ).add(BitPacker::from_str(self.destination.as_str(), Some(120)));
        assert(r@ =~= body_bits(self@));
        r
    }

    pub fn destination(&self) -> (r: &String)
        ensures
            r@ == self.destination@,
    {
        &self.destination
    }

    pub fn destination_position(&self) -> (r: &(u16, u16))
        ensures
            *r == self.destination_position,
    {
        &self.destination_position
    }

    pub fn eta_month(&self) -> (r: &u8)
        ensures
            *r == self.eta_month,
    {
        &self.eta_month
    }

    pub fn eta_day(&self) -> (r: &u8)
        ensures
            *r == self.eta_day,
    {
        &self.eta_day
    }

    pub fn eta_hour(&self) -> (r: &u8)
        ensures
            *r == self.eta_hour,
    {
        &self.eta_hour
    }

    pub fn eta_minute(&self) -> (r: &u8)
        ensures
            *r == self.eta_minute,
    {
        &self.eta_minute
    }

    pub fn cargo_type(&self) -> (r: &u8)
        ensures
            *r == self.cargo_type,
    {
        &self.cargo_type
    }

    pub fn speed_profile(&self) -> (r: &u8)
        ensures
            *r == self.speed_profile,
    {
        &self.speed_profile
    }
}

impl VoyageOrder {
    /// Reads an order: the header from bits 0 to 23, the body from bit 24 on.
    pub fn from_bitpacker(voyage_order_bitpacker: &BitPacker) -> (r: VoyageOrderResult<Self>)
        requires
            voyage_order_bitpacker.wf(),
            voyage_order_bitpacker.nbits() > 216 ==> voyage_order_bitpacker.fits(
                216,
                voyage_order_bitpacker.nbits() - 1,
                8,
            ),
        ensures
            voyage_order_bitpacker.nbits() <= 216 ==> r == Err::<Self, VoyageOrderError>(
                VoyageOrderError::BitPacker(BitPackerError::IndexOutOfBounds),
            ),
            voyage_order_bitpacker.nbits() > 216 ==> (r matches Ok(o) && o@ == (VoyageOrderView {
                header: header_of(voyage_order_bitpacker@.subrange(0, 24)),
                body: body_of(
                    voyage_order_bitpacker@.subrange(24, voyage_order_bitpacker.nbits() as int),
                ),
            })),
    {
        let bp = voyage_order_bitpacker;
        let header_bits = match bp.slice(None, Some(23)) {
            Ok(p) => p,
            Err(e) => return Err(VoyageOrderError::BitPacker(e)),
        };
        let header = match VoyageOrderHeader::from_bitpacker(&header_bits) {
            Ok(h) => h,
            Err(e) => return Err(e),
        };
        let body_bits = match bp.slice(Some(24), None) {
            Ok(p) => p,
            Err(e) => return Err(VoyageOrderError::BitPacker(e)),
        };
        assert(body_bits.nbits() > 192 ==> body_bits.fits(192, body_bits.nbits() - 1, 8)) by {
            if body_bits.nbits() > 192 {
                assert forall|i: int|
                    192 + 8 <= i <= body_bits.nbits() - 1 implies !#[trigger] body_bits@[i] by {
                    assert(body_bits@[i] == bp@[i + 24]);
                }
            }
        }
        let body = match VoyageOrderBody::from_bitpacker(&body_bits) {
            Ok(b) => b,
            Err(e) => return Err(e),
        };
        Ok(Self { header, body })
    }

    pub fn from_components(header: &VoyageOrderHeader, body: &VoyageOrderBody) -> (r: Self)
        ensures
            r@ == (VoyageOrderView { header: *header, body: body@ }),
    {
        Self { header: *header, body: body.clone() }
    }

    pub fn header(&self) -> (r: &VoyageOrderHeader)
        ensures
            *r == self.header,
    {
        &self.header
    }

    pub fn body(&self) -> (r: &VoyageOrderBody)
        ensures
            r@ == self.body@,
    {
        &self.body
    }

    /// The header below the body.
    pub fn to_bitpacker(&self) -> (r: BitPacker)
        ensures
            r.canonical(),
            r.nbits() == 240,
            r@ == header_bits(self.header) + body_bits(self.body@),
    {
        self.body.to_bitpacker().add(self.header.to_bitpacker())
    }

    /// Same order, later version.
    pub fn is_rev_of(&self, order2: &VoyageOrder) -> (r: bool)
        ensures
            r == (self.header.id == order2.header.id && self.header.version
                > order2.header.version),
    {
        self.header.id == order2.header.id && self.header.version > order2.header.version
    }

    pub fn set_ver(&mut self, ver: u8)
        ensures
            final(self)@ == (VoyageOrderView {
                header: VoyageOrderHeader { id: old(self).header.id, version: ver },
                body: old(self).body@,
            }),
    {
        self.header.set_version(ver);
    }
}


/// Writing a body and reading it back gives the same body, its destination
/// turned into the AIS alphabet, when the destination has at most 20
/// characters and none of code 64.
pub proof fn lemma_body_roundtrip(b: VoyageOrderBodyView)
    requires
        b.destination.len() <= 20,
        sixbit_fits(b.destination),
    ensures
        body_of(body_bits(b)) == (VoyageOrderBodyView {
            destination: sixbit_normalize(b.destination),
            ..b
        }),
{
    let s = body_bits(b);
    lemma2_to64();
    assert(s.len() == 200);
    assert(s.subrange(0, 120) =~= packed_str(b.destination, 120));
    lemma_sixbit_roundtrip(b.destination, 120);
    assert(s.subrange(120, 136) =~= word_bits(b.destination_position.0 as u64, 16));
    lemma_word_field(s, 120, b.destination_position.0 as u64, 16);
    assert(s.subrange(136, 152) =~= word_bits(b.destination_position.1 as u64, 16));
    lemma_word_field(s, 136, b.destination_position.1 as u64, 16);
    assert(s.subrange(152, 160) =~= word_bits(b.eta_month as u64, 8));
    lemma_word_field(s, 152, b.eta_month as u64, 8);
    assert(s.subrange(160, 168) =~= word_bits(b.eta_day as u64, 8));
    lemma_word_field(s, 160, b.eta_day as u64, 8);
    assert(s.subrange(168, 176) =~= word_bits(b.eta_hour as u64, 8));
    lemma_word_field(s, 168, b.eta_hour as u64, 8);
    assert(s.subrange(176, 184) =~= word_bits(b.eta_minute as u64, 8));
    lemma_word_field(s, 176, b.eta_minute as u64, 8);
    assert(s.subrange(184, 192) =~= word_bits(b.cargo_type as u64, 8));
    lemma_word_field(s, 184, b.cargo_type as u64, 8);
    assert(s.subrange(192, 200) =~= word_bits(b.speed_profile as u64, 8));
    lemma_word_field(s, 192, b.speed_profile as u64, 8);
}

/// Writing a header of version 0 and reading it back gives the same header.
/// (A header of another version is written with its version 16 bits above
/// where it is read, and reading it into a byte fails.)
pub proof fn lemma_header_roundtrip(h: VoyageOrderHeader)
    requires
        h.version == 0,
    ensures
        header_of(header_bits(h)) == h,
{
    let s = header_bits(h);
    lemma2_to64();
    assert(s.subrange(0, 16) =~= word_bits(h.id as u64, 16)) by {
        assert forall|k: int| 0 <= k < 16 implies s.subrange(0, 16)[k] == word_bits(
            h.id as u64,
            16,
        )[k] by {
            assert(s[k] == word_bits(h.id as u64, 32)[k]);
        }
    }
    lemma_word_field(s, 0, h.id as u64, 16);
    crate::bitpacker::lemma_word_bits_value(0u64, 24);
    assert forall|k: int| 0 <= k < 24 implies s.subrange(16, 40)[k] == word_bits(0u64, 24)[k] by {
        crate::bitpacker::lemma_word_bits_high_clear(h.id as u64, 16, 16 + k);
        crate::bitpacker::lemma_word_bits_high_clear(0u64, 0, k);
        if k >= 16 {
            crate::bitpacker::lemma_word_bits_high_clear(0u64, 0, k - 16);
        }
    }
    assert(s.subrange(16, 40) =~= word_bits(0u64, 24));
    vstd::arithmetic::power2::lemma_pow2_pos(24);
}

} // verus!
