//! What a scalar has to offer beyond its operators: its two identities.

use vstd::prelude::*;

verus! {

/// A scalar with a multiplicative identity.
pub trait One: Sized {
    /// The multiplicative identity.
    spec fn one_spec() -> Self;

    fn one() -> (v: Self)
        ensures
            v == Self::one_spec(),
    ;
}

/// A scalar with an additive identity.
pub trait Zero: Sized {
    /// The additive identity.
    spec fn zero_spec() -> Self;

    fn zero() -> (v: Self)
        ensures
            v == Self::zero_spec(),
    ;
}

impl Zero for u8 {
    open spec fn zero_spec() -> u8 {
        0
    }

    fn zero() -> u8 {
        0
    }
}

impl One for u8 {
    open spec fn one_spec() -> u8 {
        1
    }

    fn one() -> u8 {
        1
    }
}

impl Zero for u16 {
    open spec fn zero_spec() -> u16 {
        0
    }

    fn zero() -> u16 {
        0
    }
}

impl One for u16 {
    open spec fn one_spec() -> u16 {
        1
    }

    fn one() -> u16 {
        1
    }
}

impl Zero for u32 {
    open spec fn zero_spec() -> u32 {
        0
    }

    fn zero() -> u32 {
        0
    }
}

impl One for u32 {
    open spec fn one_spec() -> u32 {
        1
    }

    fn one() -> u32 {
        1
    }
}

impl Zero for u64 {
    open spec fn zero_spec() -> u64 {
        0
    }

    fn zero() -> u64 {
        0
    }
}

impl One for u64 {
    open spec fn one_spec() -> u64 {
        1
    }

    fn one() -> u64 {
        1
    }
}

impl Zero for u128 {
    open spec fn zero_spec() -> u128 {
        0
    }

    fn zero() -> u128 {
        0
    }
}

impl One for u128 {
    open spec fn one_spec() -> u128 {
        1
    }

    fn one() -> u128 {
        1
    }
}

impl Zero for usize {
    open spec fn zero_spec() -> usize {
        0
    }

    fn zero() -> usize {
        0
    }
}

impl One for usize {
    open spec fn one_spec() -> usize {
        1
    }

    fn one() -> usize {
        1
    }
}

impl Zero for i8 {
    open spec fn zero_spec() -> i8 {
        0
    }

    fn zero() -> i8 {
        0
    }
}

impl One for i8 {
    open spec fn one_spec() -> i8 {
        1
    }

    fn one() -> i8 {
        1
    }
}

impl Zero for i16 {
    open spec fn zero_spec() -> i16 {
        0
    }

    fn zero() -> i16 {
        0
    }
}

impl One for i16 {
    open spec fn one_spec() -> i16 {
        1
    }

    fn one() -> i16 {
        1
    }
}

impl Zero for i32 {
    open spec fn zero_spec() -> i32 {
        0
    }

    fn zero() -> i32 {
        0
    }
}

impl One for i32 {
    open spec fn one_spec() -> i32 {
        1
    }

    fn one() -> i32 {
        1
    }
}

impl Zero for i64 {
    open spec fn zero_spec() -> i64 {
        0
    }

    fn zero() -> i64 {
        0
    }
}

impl One for i64 {
    open spec fn one_spec() -> i64 {
        1
    }

    fn one() -> i64 {
        1
    }
}

impl Zero for i128 {
    open spec fn zero_spec() -> i128 {
        0
    }

    fn zero() -> i128 {
        0
    }
}

impl One for i128 {
    open spec fn one_spec() -> i128 {
        1
    }

    fn one() -> i128 {
        1
    }
}

impl Zero for isize {
    open spec fn zero_spec() -> isize {
        0
    }

    fn zero() -> isize {
        0
    }
}

impl One for isize {
    open spec fn one_spec() -> isize {
        1
    }

    fn one() -> isize {
        1
    }
}

} // verus!
