//! I/O scheduling priorities as the kernel encodes them: a class in the
//! bits from 13 up and class data in the low 13 bits.
use vstd::prelude::*;

verus! {

pub const IOPRIO_CLASS_SHIFT: u8 = 13;

pub const IOPRIO_PRIO_MASK: i32 = 8191;

pub const IOPRIO_CLASS_NONE: i32 = 0;

pub const IOPRIO_CLASS_RT: i32 = 1;

pub const IOPRIO_CLASS_BE: i32 = 2;

pub const IOPRIO_CLASS_IDLE: i32 = 3;

/// The class of an encoded priority: its bits from 13 up, that is its value
/// divided by 2^13 when it is not negative.
pub fn ioprio_prio_class(mask: i32) -> (r: i32)
    ensures
        r == mask >> 13i32,
        mask >= 0 ==> r == mask / 8192,
{
    proof {
        if mask >= 0 {
            assert(mask >> 13i32 == mask / 8192i32) by (bit_vector)
                requires
                    mask >= 0,
            ;
        }
    }
    mask >> 13
}

/// The class data of an encoded priority: its low 13 bits, that is its
/// value modulo 2^13 when it is not negative.
pub fn ioprio_prio_data(mask: i32) -> (r: i32)
    ensures
        r == mask & 8191i32,
        mask >= 0 ==> r == mask % 8192,
{
    proof {
        if mask >= 0 {
            assert(mask & 8191i32 == mask % 8192i32) by (bit_vector)
                requires
                    mask >= 0,
            ;
        }
    }
    mask & IOPRIO_PRIO_MASK
}

/// The priority of class `class_` with data `data`: the class shifted up 13
/// bits, or-ed with the data; `class_ * 2^13 + data` when both fit.
pub fn ioprio_prio_value(class_: i32, data: i32) -> (r: i32)
    ensures
        r == (class_ << 13i32) | data,
        0 <= class_ < 262144 && 0 <= data < 8192 ==> r == class_ * 8192 + data,
{
    proof {
        if 0 <= class_ < 262144 && 0 <= data < 8192 {
            assert((class_ << 13i32) | data == class_ * 8192i32 + data) by (bit_vector)
                requires
                    0 <= class_ < 262144,
                    0 <= data < 8192,
            ;
        }
    }
    (class_ << 13) | data
}

/// The priority names a class.
pub fn ioprio_valid(mask: i32) -> (r: bool)
    ensures
        r == ((mask >> 13i32) != IOPRIO_CLASS_NONE),
{
    ioprio_prio_class(mask) != IOPRIO_CLASS_NONE
}

/// Encoding a class and data that fit, then decoding, gives them back.
pub proof fn lemma_prio_round_trip(class_: i32, data: i32)
    requires
        0 <= class_ < 262144,
        0 <= data < 8192,
    ensures
        ((class_ << 13i32) | data) >> 13i32 == class_,
        ((class_ << 13i32) | data) & 8191i32 == data,
{
    assert(((class_ << 13i32) | data) >> 13i32 == class_) by (bit_vector)
        requires
            0 <= class_ < 262144,
            0 <= data < 8192,
    ;
    assert(((class_ << 13i32) | data) & 8191i32 == data) by (bit_vector)
        requires
            0 <= class_ < 262144,
            0 <= data < 8192,
    ;
}

} // verus!
