use vstd::prelude::*;

verus! {

/// `v` forced into the range of a 16-bit signed integer: values above the
/// maximum saturate to it, values below the minimum saturate to it, and
/// everything in between passes unchanged.
pub open spec fn clamped_i16(v: int) -> int {
    if v > i16::MAX as int {
        i16::MAX as int
    } else if v < i16::MIN as int {
        i16::MIN as int
    } else {
        v
    }
}

/// The saturation step of sample normalization. A scaled 32-bit float
/// sample can land one unit above the largest 16-bit value (the boundary
/// sample 1.0 does); whatever the scaling produced, the result here is a
/// well-formed 16-bit sample and no overflow can occur.
pub fn clamp_to_i16(v: i64) -> (r: i16)
    ensures
        r as int == clamped_i16(v as int),
        i16::MIN <= r <= i16::MAX,
{
    if v > i16::MAX as i64 {
        i16::MAX
    } else if v < i16::MIN as i64 {
        i16::MIN
    } else {
        v as i16
    }
}

} // verus!
