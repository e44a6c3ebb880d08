//! Pure operations on 32-bit register words: the ALU step of every
//! read-modify-write.
use vstd::prelude::*;

verus! {

/// Whether bit `k` of `w` is set.
pub open spec fn bit_of(w: u32, k: u32) -> bool {
    (w >> k) & 1u32 == 1u32
}

/// The mask of a field `width` bits wide whose lowest bit is `shift`.
pub open spec fn field_mask_spec(shift: u32, width: u32) -> u32 {
    (((1u64 << width) - 1u64) as u32) << shift
}

/// The value of the field `width` bits wide at `shift` in `w`.
pub open spec fn field_of(w: u32, shift: u32, width: u32) -> u32 {
    (w & field_mask_spec(shift, width)) >> shift
}

/// `w` with the field at `shift`, `width` bits wide, replaced by `value`.
pub open spec fn with_field_spec(w: u32, shift: u32, width: u32, value: u32) -> u32 {
    (w & !field_mask_spec(shift, width)) | ((value << shift) & field_mask_spec(shift, width))
}

/// A field fits in a register word.
pub open spec fn valid_field(shift: u32, width: u32) -> bool {
    1 <= width && width <= 32 && shift + width <= 32
}

/// `w` with bit `k` set.
pub fn with_bit_set(w: u32, k: u32) -> (r: u32)
    requires
        k < 32,
    ensures
        bit_of(r, k),
        forall|j: u32| j < 32 && j != k ==> bit_of(r, j) == bit_of(w, j),
        r == w | (1u32 << k),
{
    let r = w | (1u32 << k);
    assert(bit_of(r, k)) by (bit_vector)
        requires
            r == w | (1u32 << k),
            k < 32,
    ;
    assert forall|j: u32| j < 32 && j != k implies bit_of(r, j) == bit_of(w, j) by {
        assert(bit_of(r, j) == bit_of(w, j)) by (bit_vector)
            requires
                r == w | (1u32 << k),
                k < 32,
                j < 32,
                j != k,
        ;
    }
    r
}

/// The mask of a field `width` bits wide whose lowest bit is `shift`.
pub fn field_mask(shift: u32, width: u32) -> (r: u32)
    requires
        valid_field(shift, width),
    ensures
        r == field_mask_spec(shift, width),
        forall|j: u32| j < 32 ==> (bit_of(r, j) <==> shift <= j && j < shift + width),
{
    assert(1u64 <= (1u64 << width) && (1u64 << width) - 1u64 <= 0xffff_ffffu64) by (bit_vector)
        requires
            1 <= width && width <= 32,
    ;
    let ones: u64 = (1u64 << width) - 1u64;
    let r = (ones as u32) << shift;
    assert forall|j: u32| j < 32 implies (bit_of(r, j) <==> shift <= j && j < shift + width) by {
        assert(bit_of(r, j) <==> shift <= j && j < shift + width) by (bit_vector)
            requires
                1 <= width && width <= 32,
                shift + width <= 32,
                ones == (1u64 << width) - 1u64,
                r == (ones as u32) << shift,
                j < 32,
        ;
    }
    r
}

/// `w` with the field at `shift`, `width` bits wide, replaced by `value`:
/// the field's bits are cleared and `value` is or-ed in; every other bit
/// keeps its value.
pub fn with_field(w: u32, shift: u32, width: u32, value: u32) -> (r: u32)
    requires
        valid_field(shift, width),
        (value as u64) < (1u64 << width),
    ensures
        field_of(r, shift, width) == value,
        forall|j: u32| j < 32 && !(shift <= j && j < shift + width) ==> bit_of(r, j) == bit_of(w, j),
        forall|j: u32| shift <= j && j < shift + width ==> bit_of(r, j) == bit_of(value, (j - shift) as u32),
        r == with_field_spec(w, shift, width, value),
{
    let mask = field_mask(shift, width);
    let r = (w & !mask) | ((value << shift) & mask);
    assert(field_of(r, shift, width) == value) by (bit_vector)
        requires
            1 <= width && width <= 32,
            shift + width <= 32,
            (value as u64) < (1u64 << width),
            mask == field_mask_spec(shift, width),
            r == (w & !mask) | ((value << shift) & mask),
    ;
    assert forall|j: u32| j < 32 && !(shift <= j && j < shift + width) implies bit_of(r, j) == bit_of(w, j) by {
        assert(bit_of(r, j) == bit_of(w, j)) by (bit_vector)
            requires
                1 <= width && width <= 32,
                shift + width <= 32,
                mask == field_mask_spec(shift, width),
                r == (w & !mask) | ((value << shift) & mask),
                j < 32,
                !(shift <= j && j < shift + width),
        ;
    }
    assert forall|j: u32| shift <= j && j < shift + width implies bit_of(r, j) == bit_of(value, (j - shift) as u32) by {
        assert(bit_of(r, j) == bit_of(value, (j - shift) as u32)) by (bit_vector)
            requires
                1 <= width && width <= 32,
                shift + width <= 32,
                mask == field_mask_spec(shift, width),
                r == (w & !mask) | ((value << shift) & mask),
                shift <= j && j < shift + width,
        ;
    }
    r
}

} // verus!
