//! Sub-byte regions of a register and the masked read-modify-write on them.

use vstd::prelude::*;

verus! {

/// A run of `width` bits that starts at bit `offset` of a register byte,
/// bit 0 being the least significant.
///
/// A field is well formed where it lies within one byte: `1 <= width` and
/// `offset + width <= 8`. [`BitField::new`] makes only such fields.
#[derive(Clone, Copy, Debug, PartialEq, Eq, Structural)]
pub struct BitField {
    /// The position of the lowest bit of the field.
    pub offset: u8,
    /// The number of bits in the field.
    pub width: u8,
}

/// The byte whose `width` lowest bits are set, for a width of 1 to 8.
pub open spec fn low_bits(width: u8) -> u8 {
    0xFFu8 >> ((8 - width) as u8)
}

/// The values of `low_bits` for every width a field can have.
pub proof fn lemma_low_bits()
    by (bit_vector)
    ensures
        low_bits(1) == 0x01,
        low_bits(2) == 0x03,
        low_bits(3) == 0x07,
        low_bits(4) == 0x0F,
        low_bits(5) == 0x1F,
        low_bits(6) == 0x3F,
        low_bits(7) == 0x7F,
        low_bits(8) == 0xFF,
{
}

impl BitField {
    /// Whether `offset` and `width` describe a region inside one byte.
    pub open spec fn fits(offset: u8, width: u8) -> bool {
        1 <= width && offset + width <= 8
    }

    /// Whether the field lies within one byte.
    pub open spec fn wf(self) -> bool {
        Self::fits(self.offset, self.width)
    }

    /// The bits of a byte that belong to the field.
    pub open spec fn spec_mask(self) -> u8 {
        low_bits(self.width) << self.offset
    }

    /// The value of the field within `byte`, moved down to bit 0.
    pub open spec fn spec_extract(self, byte: u8) -> u8 {
        (byte >> self.offset) & low_bits(self.width)
    }

    /// `byte` with the field replaced by the low bits of `value`.
    pub open spec fn spec_insert(self, byte: u8, value: u8) -> u8 {
        (byte & !self.spec_mask()) | ((value << self.offset) & self.spec_mask())
    }

    /// The field of `width` bits at `offset`, or `None` where that does not
    /// lie within one byte.
    pub fn new(offset: u8, width: u8) -> (field: Option<BitField>)
        ensures
            field is Some <==> Self::fits(offset, width),
            field matches Some(f) ==> f.wf() && f.offset == offset && f.width == width,
    {
        if 1 <= width && width <= 8 && offset <= 8 - width {
            Some(BitField { offset, width })
        } else {
            None
        }
    }

    /// The bits of a byte that belong to the field.
    #[verifier::when_used_as_spec(spec_mask)]
    pub fn mask(self) -> (mask: u8)
        requires
            self.wf(),
        ensures
            mask == self.spec_mask(),
    {
        (0xFFu8 >> (8 - self.width)) << self.offset
    }

    /// The value of the field within `byte`, moved down to bit 0.
    #[verifier::when_used_as_spec(spec_extract)]
    pub fn extract(self, byte: u8) -> (value: u8)
        requires
            self.wf(),
        ensures
            value == self.spec_extract(byte),
            value <= low_bits(self.width),
    {
        proof {
            lemma_extract_fits(self.offset, self.width, byte);
        }
        (byte >> self.offset) & (0xFFu8 >> (8 - self.width))
    }

    /// `byte` with the field replaced by the low bits of `value`: the bits of
    /// the field are cleared, then `value`, shifted to the field's offset and
    /// cut to its width, is set in their place.
    #[verifier::when_used_as_spec(spec_insert)]
    pub fn insert(self, byte: u8, value: u8) -> (updated: u8)
        requires
            self.wf(),
        ensures
            updated == self.spec_insert(byte, value),
            updated & !self.spec_mask() == byte & !self.spec_mask(),
            self.spec_extract(updated) == value & low_bits(self.width),
    {
        proof {
            lemma_insert(self.offset, self.width, byte, value);
        }
        let mask = self.mask();
        (byte & !mask) | ((value << self.offset) & mask)
    }

    /// Whether the field and `other` have no bit in common.
    pub open spec fn disjoint(self, other: BitField) -> bool {
        self.offset + self.width <= other.offset || other.offset + other.width <= self.offset
    }

    /// Writing a field changes no bit outside it, and reading the field back
    /// gives what was written, cut to the field's width.
    pub proof fn lemma_insert_touches_only_the_field(self, byte: u8, value: u8)
        requires
            self.wf(),
        ensures
            self.spec_insert(byte, value) & !self.spec_mask() == byte & !self.spec_mask(),
            self.spec_extract(self.spec_insert(byte, value)) == value & low_bits(self.width),
            value <= low_bits(self.width) ==> self.spec_extract(self.spec_insert(byte, value))
                == value,
    {
        lemma_insert(self.offset, self.width, byte, value);
    }

    /// Writing a field leaves every field that shares no bit with it as it was.
    pub proof fn lemma_insert_keeps_other_fields(self, other: BitField, byte: u8, value: u8)
        requires
            self.wf(),
            other.wf(),
            self.disjoint(other),
        ensures
            other.spec_extract(self.spec_insert(byte, value)) == other.spec_extract(byte),
    {
        lemma_insert_disjoint(self.offset, self.width, other.offset, other.width, byte, value);
    }

    /// Writing back the value a field already has changes nothing.
    pub proof fn lemma_insert_of_extract_is_identity(self, byte: u8)
        requires
            self.wf(),
        ensures
            self.spec_insert(byte, self.spec_extract(byte)) == byte,
    {
        lemma_reinsert(self.offset, self.width, byte);
    }
}

proof fn lemma_extract_fits(offset: u8, width: u8, byte: u8)
    by (bit_vector)
    requires
        1 <= width,
        width <= 8,
        offset <= 8 - width,
    ensures
        (byte >> offset) & (0xFFu8 >> ((8 - width) as u8)) <= (0xFFu8 >> ((8 - width) as u8)),
{
}

proof fn lemma_insert(offset: u8, width: u8, byte: u8, value: u8)
    by (bit_vector)
    requires
        1 <= width,
        width <= 8,
        offset <= 8 - width,
    ensures
        ({
            let low = 0xFFu8 >> ((8 - width) as u8);
            let mask = low << offset;
            let updated = (byte & !mask) | ((value << offset) & mask);
            &&& updated & !mask == byte & !mask
            &&& (updated >> offset) & low == value & low
            &&& value <= low ==> (updated >> offset) & low == value
        }),
{
}

proof fn lemma_insert_disjoint(
    offset: u8,
    width: u8,
    other_offset: u8,
    other_width: u8,
    byte: u8,
    value: u8,
)
    by (bit_vector)
    requires
        1 <= width,
        width <= 8,
        offset <= 8 - width,
        1 <= other_width,
        other_width <= 8,
        other_offset <= 8 - other_width,
        offset + width <= other_offset || other_offset + other_width <= offset,
    ensures
        ({
            let low = 0xFFu8 >> ((8 - width) as u8);
            let mask = low << offset;
            let updated = (byte & !mask) | ((value << offset) & mask);
            let other_low = 0xFFu8 >> ((8 - other_width) as u8);
            (updated >> other_offset) & other_low == (byte >> other_offset) & other_low
        }),
{
}

proof fn lemma_reinsert(offset: u8, width: u8, byte: u8)
    by (bit_vector)
    requires
        1 <= width,
        width <= 8,
        offset <= 8 - width,
    ensures
        ({
            let low = 0xFFu8 >> ((8 - width) as u8);
            let mask = low << offset;
            (byte & !mask) | ((((byte >> offset) & low) << offset) & mask) == byte
        }),
{
}

} // verus!
