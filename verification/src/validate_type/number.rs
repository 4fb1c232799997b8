use crate::validate_type::error::OutOfBoundsError;
use vstd::prelude::*;

verus! {

/// A `u8` that lies between `MIN` and `MAX`, both included.
#[derive(Debug, Clone, Copy, PartialEq, Eq, PartialOrd, Ord, Hash)]
pub struct BoundedU8<const MIN: u8, const MAX: u8> {
    value: u8,
}

impl<const MIN: u8, const MAX: u8> View for BoundedU8<MIN, MAX> {
    type V = u8;

    closed spec fn view(&self) -> u8 {
        self.value
    }
}

impl<const MIN: u8, const MAX: u8> BoundedU8<MIN, MAX> {
    /// The value is inside the range.
    pub open spec fn wf(&self) -> bool {
        MIN <= self@ <= MAX
    }

    /// Accepts `num` when `MIN <= num <= MAX`; otherwise says on which side
    /// of the range it fell.
    pub fn new(num: u8) -> (res: Result<Self, OutOfBoundsError<u8>>)
        ensures
            match res {
                Ok(bounded) => MIN <= num <= MAX && bounded@ == num && bounded.wf(),
                Err(OutOfBoundsError::Low(min, max, value)) => num < MIN && min == MIN && max
                    == MAX && value == num,
                Err(OutOfBoundsError::High(min, max, value)) => MIN <= num && num > MAX && min
                    == MIN && max == MAX && value == num,
            },
    {
        if MIN > num {
            Err(OutOfBoundsError::Low(MIN, MAX, num))
        } else if num > MAX {
            Err(OutOfBoundsError::High(MIN, MAX, num))
        } else {
            Ok(Self::new_unchecked(num))
        }
    }

    /// Wraps a number that the caller has already checked.
    pub fn new_unchecked(num: u8) -> (res: Self)
        requires
            MIN <= num <= MAX,
        ensures
            res@ == num,
            res.wf(),
    {
        Self { value: num }
    }

    /// The number itself.
    pub fn get(self) -> (res: u8)
        ensures
            res == self@,
    {
        self.value
    }
}

/// A `u16` that lies between `MIN` and `MAX`, both included.
#[derive(Debug, Clone, Copy, PartialEq, Eq, PartialOrd, Ord, Hash)]
pub struct BoundedU16<const MIN: u16, const MAX: u16> {
    value: u16,
}

impl<const MIN: u16, const MAX: u16> View for BoundedU16<MIN, MAX> {
    type V = u16;

    closed spec fn view(&self) -> u16 {
        self.value
    }
}

impl<const MIN: u16, const MAX: u16> BoundedU16<MIN, MAX> {
    /// The value is inside the range.
    pub open spec fn wf(&self) -> bool {
        MIN <= self@ <= MAX
    }

    /// Accepts `num` when `MIN <= num <= MAX`; otherwise says on which side
    /// of the range it fell.
    pub fn new(num: u16) -> (res: Result<Self, OutOfBoundsError<u16>>)
        ensures
            match res {
                Ok(bounded) => MIN <= num <= MAX && bounded@ == num && bounded.wf(),
                Err(OutOfBoundsError::Low(min, max, value)) => num < MIN && min == MIN && max
                    == MAX && value == num,
                Err(OutOfBoundsError::High(min, max, value)) => MIN <= num && num > MAX && min
                    == MIN && max == MAX && value == num,
            },
    {
        if MIN > num {
            Err(OutOfBoundsError::Low(MIN, MAX, num))
        } else if num > MAX {
            Err(OutOfBoundsError::High(MIN, MAX, num))
        } else {
            Ok(Self::new_unchecked(num))
        }
    }

    /// Wraps a number that the caller has already checked.
    pub fn new_unchecked(num: u16) -> (res: Self)
        requires
            MIN <= num <= MAX,
        ensures
            res@ == num,
            res.wf(),
    {
        Self { value: num }
    }

    /// The number itself.
    pub fn get(self) -> (res: u16)
        ensures
            res == self@,
    {
        self.value
    }
}

/// A `u32` that lies between `MIN` and `MAX`, both included.
#[derive(Debug, Clone, Copy, PartialEq, Eq, PartialOrd, Ord, Hash)]
pub struct BoundedU32<const MIN: u32, const MAX: u32> {
    value: u32,
}

impl<const MIN: u32, const MAX: u32> View for BoundedU32<MIN, MAX> {
    type V = u32;

    closed spec fn view(&self) -> u32 {
        self.value
    }
}

impl<const MIN: u32, const MAX: u32> BoundedU32<MIN, MAX> {
    /// The value is inside the range.
    pub open spec fn wf(&self) -> bool {
        MIN <= self@ <= MAX
    }

    /// Accepts `num` when `MIN <= num <= MAX`; otherwise says on which side
    /// of the range it fell.
    pub fn new(num: u32) -> (res: Result<Self, OutOfBoundsError<u32>>)
        ensures
            match res {
                Ok(bounded) => MIN <= num <= MAX && bounded@ == num && bounded.wf(),
                Err(OutOfBoundsError::Low(min, max, value)) => num < MIN && min == MIN && max
                    == MAX && value == num,
                Err(OutOfBoundsError::High(min, max, value)) => MIN <= num && num > MAX && min
                    == MIN && max == MAX && value == num,
            },
    {
        if MIN > num {
            Err(OutOfBoundsError::Low(MIN, MAX, num))
        } else if num > MAX {
            Err(OutOfBoundsError::High(MIN, MAX, num))
        } else {
            Ok(Self::new_unchecked(num))
        }
    }

    /// Wraps a number that the caller has already checked.
    pub fn new_unchecked(num: u32) -> (res: Self)
        requires
            MIN <= num <= MAX,
        ensures
            res@ == num,
            res.wf(),
    {
        Self { value: num }
    }

    /// The number itself.
    pub fn get(self) -> (res: u32)
        ensures
            res == self@,
    {
        self.value
    }
}

/// A `u64` that lies between `MIN` and `MAX`, both included.
#[derive(Debug, Clone, Copy, PartialEq, Eq, PartialOrd, Ord, Hash)]
pub struct BoundedU64<const MIN: u64, const MAX: u64> {
    value: u64,
}

impl<const MIN: u64, const MAX: u64> View for BoundedU64<MIN, MAX> {
    type V = u64;

    closed spec fn view(&self) -> u64 {
        self.value
    }
}

impl<const MIN: u64, const MAX: u64> BoundedU64<MIN, MAX> {
    /// The value is inside the range.
    pub open spec fn wf(&self) -> bool {
        MIN <= self@ <= MAX
    }

    /// Accepts `num` when `MIN <= num <= MAX`; otherwise says on which side
    /// of the range it fell.
    pub fn new(num: u64) -> (res: Result<Self, OutOfBoundsError<u64>>)
        ensures
            match res {
                Ok(bounded) => MIN <= num <= MAX && bounded@ == num && bounded.wf(),
                Err(OutOfBoundsError::Low(min, max, value)) => num < MIN && min == MIN && max
                    == MAX && value == num,
                Err(OutOfBoundsError::High(min, max, value)) => MIN <= num && num > MAX && min
                    == MIN && max == MAX && value == num,
            },
    {
        if MIN > num {
            Err(OutOfBoundsError::Low(MIN, MAX, num))
        } else if num > MAX {
            Err(OutOfBoundsError::High(MIN, MAX, num))
        } else {
            Ok(Self::new_unchecked(num))
        }
    }

    /// Wraps a number that the caller has already checked.
    pub fn new_unchecked(num: u64) -> (res: Self)
        requires
            MIN <= num <= MAX,
        ensures
            res@ == num,
            res.wf(),
    {
        Self { value: num }
    }

    /// The number itself.
    pub fn get(self) -> (res: u64)
        ensures
            res == self@,
    {
        self.value
    }
}

/// A `u128` that lies between `MIN` and `MAX`, both included.
#[derive(Debug, Clone, Copy, PartialEq, Eq, PartialOrd, Ord, Hash)]
pub struct BoundedU128<const MIN: u128, const MAX: u128> {
    value: u128,
}

impl<const MIN: u128, const MAX: u128> View for BoundedU128<MIN, MAX> {
    type V = u128;

    closed spec fn view(&self) -> u128 {
        self.value
    }
}

impl<const MIN: u128, const MAX: u128> BoundedU128<MIN, MAX> {
    /// The value is inside the range.
    pub open spec fn wf(&self) -> bool {
        MIN <= self@ <= MAX
    }

    /// Accepts `num` when `MIN <= num <= MAX`; otherwise says on which side
    /// of the range it fell.
    pub fn new(num: u128) -> (res: Result<Self, OutOfBoundsError<u128>>)
        ensures
            match res {
                Ok(bounded) => MIN <= num <= MAX && bounded@ == num && bounded.wf(),
                Err(OutOfBoundsError::Low(min, max, value)) => num < MIN && min == MIN && max
                    == MAX && value == num,
                Err(OutOfBoundsError::High(min, max, value)) => MIN <= num && num > MAX && min
                    == MIN && max == MAX && value == num,
            },
    {
        if MIN > num {
            Err(OutOfBoundsError::Low(MIN, MAX, num))
        } else if num > MAX {
            Err(OutOfBoundsError::High(MIN, MAX, num))
        } else {
            Ok(Self::new_unchecked(num))
        }
    }

    /// Wraps a number that the caller has already checked.
    pub fn new_unchecked(num: u128) -> (res: Self)
        requires
            MIN <= num <= MAX,
        ensures
            res@ == num,
            res.wf(),
    {
        Self { value: num }
    }

    /// The number itself.
    pub fn get(self) -> (res: u128)
        ensures
            res == self@,
    {
        self.value
    }
}

/// A `usize` that lies between `MIN` and `MAX`, both included.
#[derive(Debug, Clone, Copy, PartialEq, Eq, PartialOrd, Ord, Hash)]
pub struct BoundedUsize<const MIN: usize, const MAX: usize> {
    value: usize,
}

impl<const MIN: usize, const MAX: usize> View for BoundedUsize<MIN, MAX> {
    type V = usize;

    closed spec fn view(&self) -> usize {
        self.value
    }
}

impl<const MIN: usize, const MAX: usize> BoundedUsize<MIN, MAX> {
    /// The value is inside the range.
    pub open spec fn wf(&self) -> bool {
        MIN <= self@ <= MAX
    }

    /// Accepts `num` when `MIN <= num <= MAX`; otherwise says on which side
    /// of the range it fell.
    pub fn new(num: usize) -> (res: Result<Self, OutOfBoundsError<usize>>)
        ensures
            match res {
                Ok(bounded) => MIN <= num <= MAX && bounded@ == num && bounded.wf(),
                Err(OutOfBoundsError::Low(min, max, value)) => num < MIN && min == MIN && max
                    == MAX && value == num,
                Err(OutOfBoundsError::High(min, max, value)) => MIN <= num && num > MAX && min
                    == MIN && max == MAX && value == num,
            },
    {
        if MIN > num {
            Err(OutOfBoundsError::Low(MIN, MAX, num))
        } else if num > MAX {
            Err(OutOfBoundsError::High(MIN, MAX, num))
        } else {
            Ok(Self::new_unchecked(num))
        }
    }

    /// Wraps a number that the caller has already checked.
    pub fn new_unchecked(num: usize) -> (res: Self)
        requires
            MIN <= num <= MAX,
        ensures
            res@ == num,
            res.wf(),
    {
        Self { value: num }
    }

    /// The number itself.
    pub fn get(self) -> (res: usize)
        ensures
            res == self@,
    {
        self.value
    }
}

} // verus!
