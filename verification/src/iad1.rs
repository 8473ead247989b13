//! The sensor geometry record (`IAD1`) of a raw container: image size, crop
//! offsets and sensor borders, stored as big-endian 16-bit fields.

use vstd::prelude::*;
use vstd::slice::slice_subrange;
use byteorder::{BigEndian, ByteOrder};

verus! {

/// Four-character code of a container record.
#[derive(Debug, Clone, Copy, PartialEq, Eq)]
pub struct FourCC {
    pub value: [u8; 4],
}

/// Where a record lies in its container.
#[derive(Debug, Clone, Copy, PartialEq, Eq)]
pub struct BoxHeader {
    pub size: u64,
    pub typ: FourCC,
    pub offset: u64,
    pub header_len: u64,
}

impl BoxHeader {
    /// Container offset of the first byte behind the record.
    pub open spec fn spec_end_offset(&self) -> int {
        self.offset + self.size
    }

    /// Container offset of the first byte behind the record.
    pub fn end_offset(&self) -> (end: u64)
        requires
            self.spec_end_offset() <= u64::MAX,
        ensures
            end == self.spec_end_offset(),
    {
        self.offset + self.size
    }
}

#[derive(Debug, Clone, PartialEq, Eq)]
pub struct Iad1Box {
    pub header: BoxHeader,
    pub version: u8,
    pub flags: u32,
    pub img_width: u16,
    pub img_height: u16,
    pub unknown1: u16,
    pub image_type: u16,
    pub unknown2: u16,
    pub unknown3: u16,
    pub iad1_type: Iad1Type,
}

#[derive(Debug, Clone, PartialEq, Eq)]
pub enum Iad1Type {
    Small(Iad1Small),
    Big(Iad1Big),
}

#[derive(Debug, Clone, PartialEq, Eq, Default)]
pub struct Iad1Small {
    pub crop_left_offset: u16,
    pub crop_top_offset: u16,
    pub crop_right_offset: u16,
    pub crop_bottom_offset: u16,
    pub sensor_x_start: u16,
    pub sensor_y_start: u16,
    pub sensor_x_end: u16,
    pub sensor_y_end: u16,
}

#[derive(Debug, Clone, PartialEq, Eq, Default)]
pub struct Iad1Big {
    pub crop_left_offset: u16,
    pub crop_top_offset: u16,
    pub crop_right_offset: u16,
    pub crop_bottom_offset: u16,
    pub lob_left_offset: u16,
    pub lob_top_offset: u16,
    pub lob_right_offset: u16,
    pub lob_bottom_offset: u16,
    pub tob_left_offset: u16,
    pub tob_top_offset: u16,
    pub tob_right_offset: u16,
    pub tob_bottom_offset: u16,
    pub active_area_left_offset: u16,
    pub active_area_top_offset: u16,
    pub active_area_right_offset: u16,
    pub active_area_bottom_offset: u16,
}

/// Why a record could not be decoded.
#[derive(Debug, Clone, Copy, PartialEq, Eq)]
pub enum Iad1Error {
    /// The bytes end before the last field of the record.
    Truncated,
    /// The image type is neither 0 (small) nor 2 (big).
    InvalidType(u16),
}

/// Length of the fields that every record starts with.
pub const IAD1_PREFIX_LEN: usize = 16;

/// Length of a small record's body.
pub const IAD1_SMALL_LEN: usize = 32;

/// Length of a big record's body.
pub const IAD1_BIG_LEN: usize = 48;

/// The big-endian 16-bit number at `at`.
pub open spec fn be16(s: Seq<u8>, at: int) -> u16 {
    (s[at] as int * 256 + s[at + 1] as int) as u16
}

/// The big-endian 24-bit number at `at`.
pub open spec fn be24(s: Seq<u8>, at: int) -> u32 {
    (s[at] as int * 65536 + s[at + 1] as int * 256 + s[at + 2] as int) as u32
}

/// The small variant's fields, read from `at` on.
pub open spec fn small_at(s: Seq<u8>, at: int) -> Iad1Small {
    Iad1Small {
        crop_left_offset: be16(s, at),
        crop_top_offset: be16(s, at + 2),
        crop_right_offset: be16(s, at + 4),
        crop_bottom_offset: be16(s, at + 6),
        sensor_x_start: be16(s, at + 8),
        sensor_y_start: be16(s, at + 10),
        sensor_x_end: be16(s, at + 12),
        sensor_y_end: be16(s, at + 14),
    }
}

/// The big variant's fields, read from `at` on.
pub open spec fn big_at(s: Seq<u8>, at: int) -> Iad1Big {
    Iad1Big {
        crop_left_offset: be16(s, at),
        crop_top_offset: be16(s, at + 2),
        crop_right_offset: be16(s, at + 4),
        crop_bottom_offset: be16(s, at + 6),
        lob_left_offset: be16(s, at + 8),
        lob_top_offset: be16(s, at + 10),
        lob_right_offset: be16(s, at + 12),
        lob_bottom_offset: be16(s, at + 14),
        tob_left_offset: be16(s, at + 16),
        tob_top_offset: be16(s, at + 18),
        tob_right_offset: be16(s, at + 20),
        tob_bottom_offset: be16(s, at + 22),
        active_area_left_offset: be16(s, at + 24),
        active_area_top_offset: be16(s, at + 26),
        active_area_right_offset: be16(s, at + 28),
        active_area_bottom_offset: be16(s, at + 30),
    }
}

/// The record with the given variant and the common fields of `body`.
pub open spec fn box_with(body: Seq<u8>, header: BoxHeader, iad1_type: Iad1Type) -> Iad1Box {
    Iad1Box {
        header,
        version: body[0],
        flags: be24(body, 1),
        img_width: be16(body, 4),
        img_height: be16(body, 6),
        unknown1: be16(body, 8),
        image_type: be16(body, 10),
        unknown2: be16(body, 12),
        unknown3: be16(body, 14),
        iad1_type,
    }
}

/// What `body`, the bytes behind a record's header, decodes to.
///
/// A version byte and three flag bytes come first, then six 16-bit fields,
/// the fourth of which selects the variant that follows: 0 the small one of
/// eight fields, 2 the big one of sixteen. Bytes behind the last field are
/// ignored.
pub open spec fn decoded(body: Seq<u8>, header: BoxHeader) -> Result<Iad1Box, Iad1Error> {
    if body.len() < IAD1_PREFIX_LEN {
        Err(Iad1Error::Truncated)
    } else if be16(body, 10) == 0 {
        if body.len() < IAD1_SMALL_LEN {
            Err(Iad1Error::Truncated)
        } else {
            Ok(box_with(body, header, Iad1Type::Small(small_at(body, 16))))
        }
    } else if be16(body, 10) == 2 {
        if body.len() < IAD1_BIG_LEN {
            Err(Iad1Error::Truncated)
        } else {
            Ok(box_with(body, header, Iad1Type::Big(big_at(body, 16))))
        }
    } else {
        Err(Iad1Error::InvalidType(be16(body, 10)))
    }
}

/// `byteorder::BigEndian::read_u16`: the first two bytes of `buf` as one
/// number, the first byte being the high one. It panics on fewer than two
/// bytes, which the precondition excludes.
#[verifier::external_body]
fn be_u16(buf: &[u8]) -> (r: u16)
    requires
        buf.len() >= 2,
    ensures
        r == be16(buf@, 0),
{
    BigEndian::read_u16(buf)
}

/// `byteorder::BigEndian::read_u24`: the first three bytes of `buf` as one
/// number, the first byte being the highest. It panics on fewer than three
/// bytes, which the precondition excludes.
#[verifier::external_body]
fn be_u24(buf: &[u8]) -> (r: u32)
    requires
        buf.len() >= 3,
    ensures
        r == be24(buf@, 0),
{
    BigEndian::read_u24(buf)
}

/// The 16-bit field of `body` at `at`.
fn field_u16(body: &[u8], at: usize) -> (r: u16)
    requires
        at + 2 <= body.len(),
    ensures
        r == be16(body@, at as int),
{
    be_u16(slice_subrange(body, at, at + 2))
}

fn read_small(body: &[u8], at: usize) -> (r: Iad1Small)
    requires
        at + 16 <= body.len(),
    ensures
        r == small_at(body@, at as int),
{
    Iad1Small {
        crop_left_offset: field_u16(body, at),
        crop_top_offset: field_u16(body, at + 2),
        crop_right_offset: field_u16(body, at + 4),
        crop_bottom_offset: field_u16(body, at + 6),
        sensor_x_start: field_u16(body, at + 8),
        sensor_y_start: field_u16(body, at + 10),
        sensor_x_end: field_u16(body, at + 12),
        sensor_y_end: field_u16(body, at + 14),
    }
}

fn read_big(body: &[u8], at: usize) -> (r: Iad1Big)
    requires
        at + 32 <= body.len(),
    ensures
        r == big_at(body@, at as int),
{
    Iad1Big {
        crop_left_offset: field_u16(body, at),
        crop_top_offset: field_u16(body, at + 2),
        crop_right_offset: field_u16(body, at + 4),
        crop_bottom_offset: field_u16(body, at + 6),
        lob_left_offset: field_u16(body, at + 8),
        lob_top_offset: field_u16(body, at + 10),
        lob_right_offset: field_u16(body, at + 12),
        lob_bottom_offset: field_u16(body, at + 14),
        tob_left_offset: field_u16(body, at + 16),
        tob_top_offset: field_u16(body, at + 18),
        tob_right_offset: field_u16(body, at + 20),
        tob_bottom_offset: field_u16(body, at + 22),
        active_area_left_offset: field_u16(body, at + 24),
        active_area_top_offset: field_u16(body, at + 26),
        active_area_right_offset: field_u16(body, at + 28),
        active_area_bottom_offset: field_u16(body, at + 30),
    }
}

impl Iad1Box {
    /// The record's four-character code, `IAD1`.
    pub fn typ() -> (t: FourCC)
        ensures
            t.value@ == seq![73u8, 65u8, 68u8, 49u8],
    {
        let t = FourCC { value: [73u8, 65u8, 68u8, 49u8] };
        assert(t.value@ =~= seq![73u8, 65u8, 68u8, 49u8]);
        t
    }

    /// Decodes the bytes behind a record's header.
    pub fn read_box(body: &[u8], header: BoxHeader) -> (r: Result<Iad1Box, Iad1Error>)
        ensures
            r == decoded(body@, header),
    {
        if body.len() < IAD1_PREFIX_LEN {
            return Err(Iad1Error::Truncated);
        }
        let version: u8 = body[0];
        let flags: u32 = be_u24(slice_subrange(body, 1, 4));
        let img_width: u16 = field_u16(body, 4);
        let img_height: u16 = field_u16(body, 6);
        let unknown1: u16 = field_u16(body, 8);
        let image_type: u16 = field_u16(body, 10);
        let unknown2: u16 = field_u16(body, 12);
        let unknown3: u16 = field_u16(body, 14);
        let iad1_type = if image_type == 0 {
            if body.len() < IAD1_SMALL_LEN {
                return Err(Iad1Error::Truncated);
            }
            Iad1Type::Small(read_small(body, IAD1_PREFIX_LEN))
        } else if image_type == 2 {
            if body.len() < IAD1_BIG_LEN {
                return Err(Iad1Error::Truncated);
            }
            Iad1Type::Big(read_big(body, IAD1_PREFIX_LEN))
        } else {
            return Err(Iad1Error::InvalidType(image_type));
        };
        Ok(
            Iad1Box {
                header,
                version,
                flags,
                img_width,
                img_height,
                unknown1,
                image_type,
                unknown2,
                unknown3,
                iad1_type,
            },
        )
    }
}

} // verus!
