use vstd::prelude::*;

verus! {

/// A scalar domain that sparse containers can hold.
///
/// Every domain has a zero, which is what reading an empty position yields, a
/// truth predicate, by which a value mask is read, and the arithmetic that the
/// built-in operators are made of. Integer arithmetic wraps around.
pub trait ValueType: Copy + Sized {
    /// The domain's one for `true`, its zero for `false`.
    spec fn from_boolean_spec(flag: bool) -> Self;

    /// Whether a value counts as true when it is read as a mask entry.
    spec fn as_boolean_spec(self) -> bool;

    /// The sum of two values. On the integers it wraps around; on `bool` it is `or`.
    spec fn plus_spec(self, other: Self) -> Self;

    /// The difference of two values. On the integers it wraps around; on `bool` it is
    /// `exclusive or`.
    spec fn minus_spec(self, other: Self) -> Self;

    /// The product of two values. On the integers it wraps around; on `bool` it is
    /// `and`.
    spec fn times_spec(self, other: Self) -> Self;

    /// The order of the domain. On `bool`, `false` is less than `true`.
    spec fn less_than_spec(self, other: Self) -> bool;

    /// The value that none of the domain is less than.
    spec fn maximum_value_spec() -> Self;

    /// The value that is less than none of the domain.
    spec fn minimum_value_spec() -> Self;

    fn from_boolean(flag: bool) -> (value: Self)
        ensures
            value == Self::from_boolean_spec(flag),
    ;

    fn as_boolean(&self) -> (flag: bool)
        ensures
            flag == self.as_boolean_spec(),
    ;

    fn plus(&self, other: &Self) -> (value: Self)
        ensures
            value == self.plus_spec(*other),
    ;

    fn minus(&self, other: &Self) -> (value: Self)
        ensures
            value == self.minus_spec(*other),
    ;

    fn times(&self, other: &Self) -> (value: Self)
        ensures
            value == self.times_spec(*other),
    ;

    fn less_than(&self, other: &Self) -> (flag: bool)
        ensures
            flag == self.less_than_spec(*other),
    ;

    fn equals(&self, other: &Self) -> (flag: bool)
        ensures
            flag == (*self == *other),
    ;

    fn maximum_value() -> (value: Self)
        ensures
            value == Self::maximum_value_spec(),
    ;

    fn minimum_value() -> (value: Self)
        ensures
            value == Self::minimum_value_spec(),
    ;
}

/// The domains with numbers in them: all but `bool`. The monoids and semirings of
/// numbers are made for these only.
pub trait Numeric: ValueType {
}

impl ValueType for i8 {
    open spec fn from_boolean_spec(flag: bool) -> i8 {
        if flag { 1i8 } else { 0i8 }
    }

    open spec fn as_boolean_spec(self) -> bool {
        self != 0
    }

    open spec fn plus_spec(self, other: i8) -> i8 {
        vstd::wrapping::i8_specs::wrapping_add(self, other)
    }

    open spec fn minus_spec(self, other: i8) -> i8 {
        vstd::wrapping::i8_specs::wrapping_sub(self, other)
    }

    open spec fn times_spec(self, other: i8) -> i8 {
        vstd::wrapping::i8_specs::wrapping_mul(self, other)
    }

    open spec fn less_than_spec(self, other: i8) -> bool {
        self < other
    }

    open spec fn maximum_value_spec() -> i8 {
        i8::MAX
    }

    open spec fn minimum_value_spec() -> i8 {
        i8::MIN
    }

    fn from_boolean(flag: bool) -> (value: i8) {
        if flag { 1 } else { 0 }
    }

    fn as_boolean(&self) -> (flag: bool) {
        *self != 0
    }

    fn plus(&self, other: &i8) -> (value: i8) {
        self.wrapping_add(*other)
    }

    fn minus(&self, other: &i8) -> (value: i8) {
        self.wrapping_sub(*other)
    }

    fn times(&self, other: &i8) -> (value: i8) {
        self.wrapping_mul(*other)
    }

    fn less_than(&self, other: &i8) -> (flag: bool) {
        *self < *other
    }

    fn equals(&self, other: &i8) -> (flag: bool) {
        *self == *other
    }

    fn maximum_value() -> (value: i8) {
        i8::MAX
    }

    fn minimum_value() -> (value: i8) {
        i8::MIN
    }
}

impl Numeric for i8 {
}

impl ValueType for i16 {
    open spec fn from_boolean_spec(flag: bool) -> i16 {
        if flag { 1i16 } else { 0i16 }
    }

    open spec fn as_boolean_spec(self) -> bool {
        self != 0
    }

    open spec fn plus_spec(self, other: i16) -> i16 {
        vstd::wrapping::i16_specs::wrapping_add(self, other)
    }

    open spec fn minus_spec(self, other: i16) -> i16 {
        vstd::wrapping::i16_specs::wrapping_sub(self, other)
    }

    open spec fn times_spec(self, other: i16) -> i16 {
        vstd::wrapping::i16_specs::wrapping_mul(self, other)
    }

    open spec fn less_than_spec(self, other: i16) -> bool {
        self < other
    }

    open spec fn maximum_value_spec() -> i16 {
        i16::MAX
    }

    open spec fn minimum_value_spec() -> i16 {
        i16::MIN
    }

    fn from_boolean(flag: bool) -> (value: i16) {
        if flag { 1 } else { 0 }
    }

    fn as_boolean(&self) -> (flag: bool) {
        *self != 0
    }

    fn plus(&self, other: &i16) -> (value: i16) {
        self.wrapping_add(*other)
    }

    fn minus(&self, other: &i16) -> (value: i16) {
        self.wrapping_sub(*other)
    }

    fn times(&self, other: &i16) -> (value: i16) {
        self.wrapping_mul(*other)
    }

    fn less_than(&self, other: &i16) -> (flag: bool) {
        *self < *other
    }

    fn equals(&self, other: &i16) -> (flag: bool) {
        *self == *other
    }

    fn maximum_value() -> (value: i16) {
        i16::MAX
    }

    fn minimum_value() -> (value: i16) {
        i16::MIN
    }
}

impl Numeric for i16 {
}

impl ValueType for i32 {
    open spec fn from_boolean_spec(flag: bool) -> i32 {
        if flag { 1i32 } else { 0i32 }
    }

    open spec fn as_boolean_spec(self) -> bool {
        self != 0
    }

    open spec fn plus_spec(self, other: i32) -> i32 {
        vstd::wrapping::i32_specs::wrapping_add(self, other)
    }

    open spec fn minus_spec(self, other: i32) -> i32 {
        vstd::wrapping::i32_specs::wrapping_sub(self, other)
    }

    open spec fn times_spec(self, other: i32) -> i32 {
        vstd::wrapping::i32_specs::wrapping_mul(self, other)
    }

    open spec fn less_than_spec(self, other: i32) -> bool {
        self < other
    }

    open spec fn maximum_value_spec() -> i32 {
        i32::MAX
    }

    open spec fn minimum_value_spec() -> i32 {
        i32::MIN
    }

    fn from_boolean(flag: bool) -> (value: i32) {
        if flag { 1 } else { 0 }
    }

    fn as_boolean(&self) -> (flag: bool) {
        *self != 0
    }

    fn plus(&self, other: &i32) -> (value: i32) {
        self.wrapping_add(*other)
    }

    fn minus(&self, other: &i32) -> (value: i32) {
        self.wrapping_sub(*other)
    }

    fn times(&self, other: &i32) -> (value: i32) {
        self.wrapping_mul(*other)
    }

    fn less_than(&self, other: &i32) -> (flag: bool) {
        *self < *other
    }

    fn equals(&self, other: &i32) -> (flag: bool) {
        *self == *other
    }

    fn maximum_value() -> (value: i32) {
        i32::MAX
    }

    fn minimum_value() -> (value: i32) {
        i32::MIN
    }
}

impl Numeric for i32 {
}

impl ValueType for i64 {
    open spec fn from_boolean_spec(flag: bool) -> i64 {
        if flag { 1i64 } else { 0i64 }
    }

    open spec fn as_boolean_spec(self) -> bool {
        self != 0
    }

    open spec fn plus_spec(self, other: i64) -> i64 {
        vstd::wrapping::i64_specs::wrapping_add(self, other)
    }

    open spec fn minus_spec(self, other: i64) -> i64 {
        vstd::wrapping::i64_specs::wrapping_sub(self, other)
    }

    open spec fn times_spec(self, other: i64) -> i64 {
        vstd::wrapping::i64_specs::wrapping_mul(self, other)
    }

    open spec fn less_than_spec(self, other: i64) -> bool {
        self < other
    }

    open spec fn maximum_value_spec() -> i64 {
        i64::MAX
    }

    open spec fn minimum_value_spec() -> i64 {
        i64::MIN
    }

    fn from_boolean(flag: bool) -> (value: i64) {
        if flag { 1 } else { 0 }
    }

    fn as_boolean(&self) -> (flag: bool) {
        *self != 0
    }

    fn plus(&self, other: &i64) -> (value: i64) {
        self.wrapping_add(*other)
    }

    fn minus(&self, other: &i64) -> (value: i64) {
        self.wrapping_sub(*other)
    }

    fn times(&self, other: &i64) -> (value: i64) {
        self.wrapping_mul(*other)
    }

    fn less_than(&self, other: &i64) -> (flag: bool) {
        *self < *other
    }

    fn equals(&self, other: &i64) -> (flag: bool) {
        *self == *other
    }

    fn maximum_value() -> (value: i64) {
        i64::MAX
    }

    fn minimum_value() -> (value: i64) {
        i64::MIN
    }
}

impl Numeric for i64 {
}

impl ValueType for u8 {
    open spec fn from_boolean_spec(flag: bool) -> u8 {
        if flag { 1u8 } else { 0u8 }
    }

    open spec fn as_boolean_spec(self) -> bool {
        self != 0
    }

    open spec fn plus_spec(self, other: u8) -> u8 {
        vstd::wrapping::u8_specs::wrapping_add(self, other)
    }

    open spec fn minus_spec(self, other: u8) -> u8 {
        vstd::wrapping::u8_specs::wrapping_sub(self, other)
    }

    open spec fn times_spec(self, other: u8) -> u8 {
        vstd::wrapping::u8_specs::wrapping_mul(self, other)
    }

    open spec fn less_than_spec(self, other: u8) -> bool {
        self < other
    }

    open spec fn maximum_value_spec() -> u8 {
        u8::MAX
    }

    open spec fn minimum_value_spec() -> u8 {
        u8::MIN
    }

    fn from_boolean(flag: bool) -> (value: u8) {
        if flag { 1 } else { 0 }
    }

    fn as_boolean(&self) -> (flag: bool) {
        *self != 0
    }

    fn plus(&self, other: &u8) -> (value: u8) {
        self.wrapping_add(*other)
    }

    fn minus(&self, other: &u8) -> (value: u8) {
        self.wrapping_sub(*other)
    }

    fn times(&self, other: &u8) -> (value: u8) {
        self.wrapping_mul(*other)
    }

    fn less_than(&self, other: &u8) -> (flag: bool) {
        *self < *other
    }

    fn equals(&self, other: &u8) -> (flag: bool) {
        *self == *other
    }

    fn maximum_value() -> (value: u8) {
        u8::MAX
    }

    fn minimum_value() -> (value: u8) {
        u8::MIN
    }
}

impl Numeric for u8 {
}

impl ValueType for u16 {
    open spec fn from_boolean_spec(flag: bool) -> u16 {
        if flag { 1u16 } else { 0u16 }
    }

    open spec fn as_boolean_spec(self) -> bool {
        self != 0
    }

    open spec fn plus_spec(self, other: u16) -> u16 {
        vstd::wrapping::u16_specs::wrapping_add(self, other)
    }

    open spec fn minus_spec(self, other: u16) -> u16 {
        vstd::wrapping::u16_specs::wrapping_sub(self, other)
    }

    open spec fn times_spec(self, other: u16) -> u16 {
        vstd::wrapping::u16_specs::wrapping_mul(self, other)
    }

    open spec fn less_than_spec(self, other: u16) -> bool {
        self < other
    }

    open spec fn maximum_value_spec() -> u16 {
        u16::MAX
    }

    open spec fn minimum_value_spec() -> u16 {
        u16::MIN
    }

    fn from_boolean(flag: bool) -> (value: u16) {
        if flag { 1 } else { 0 }
    }

    fn as_boolean(&self) -> (flag: bool) {
        *self != 0
    }

    fn plus(&self, other: &u16) -> (value: u16) {
        self.wrapping_add(*other)
    }

    fn minus(&self, other: &u16) -> (value: u16) {
        self.wrapping_sub(*other)
    }

    fn times(&self, other: &u16) -> (value: u16) {
        self.wrapping_mul(*other)
    }

    fn less_than(&self, other: &u16) -> (flag: bool) {
        *self < *other
    }

    fn equals(&self, other: &u16) -> (flag: bool) {
        *self == *other
    }

    fn maximum_value() -> (value: u16) {
        u16::MAX
    }

    fn minimum_value() -> (value: u16) {
        u16::MIN
    }
}

impl Numeric for u16 {
}

impl ValueType for u32 {
    open spec fn from_boolean_spec(flag: bool) -> u32 {
        if flag { 1u32 } else { 0u32 }
    }

    open spec fn as_boolean_spec(self) -> bool {
        self != 0
    }

    open spec fn plus_spec(self, other: u32) -> u32 {
        vstd::wrapping::u32_specs::wrapping_add(self, other)
    }

    open spec fn minus_spec(self, other: u32) -> u32 {
        vstd::wrapping::u32_specs::wrapping_sub(self, other)
    }

    open spec fn times_spec(self, other: u32) -> u32 {
        vstd::wrapping::u32_specs::wrapping_mul(self, other)
    }

    open spec fn less_than_spec(self, other: u32) -> bool {
        self < other
    }

    open spec fn maximum_value_spec() -> u32 {
        u32::MAX
    }

    open spec fn minimum_value_spec() -> u32 {
        u32::MIN
    }

    fn from_boolean(flag: bool) -> (value: u32) {
        if flag { 1 } else { 0 }
    }

    fn as_boolean(&self) -> (flag: bool) {
        *self != 0
    }

    fn plus(&self, other: &u32) -> (value: u32) {
        self.wrapping_add(*other)
    }

    fn minus(&self, other: &u32) -> (value: u32) {
        self.wrapping_sub(*other)
    }

    fn times(&self, other: &u32) -> (value: u32) {
        self.wrapping_mul(*other)
    }

    fn less_than(&self, other: &u32) -> (flag: bool) {
        *self < *other
    }

    fn equals(&self, other: &u32) -> (flag: bool) {
        *self == *other
    }

    fn maximum_value() -> (value: u32) {
        u32::MAX
    }

    fn minimum_value() -> (value: u32) {
        u32::MIN
    }
}

impl Numeric for u32 {
}

impl ValueType for u64 {
    open spec fn from_boolean_spec(flag: bool) -> u64 {
        if flag { 1u64 } else { 0u64 }
    }

    open spec fn as_boolean_spec(self) -> bool {
        self != 0
    }

    open spec fn plus_spec(self, other: u64) -> u64 {
        vstd::wrapping::u64_specs::wrapping_add(self, other)
    }

    open spec fn minus_spec(self, other: u64) -> u64 {
        vstd::wrapping::u64_specs::wrapping_sub(self, other)
    }

    open spec fn times_spec(self, other: u64) -> u64 {
        vstd::wrapping::u64_specs::wrapping_mul(self, other)
    }

    open spec fn less_than_spec(self, other: u64) -> bool {
        self < other
    }

    open spec fn maximum_value_spec() -> u64 {
        u64::MAX
    }

    open spec fn minimum_value_spec() -> u64 {
        u64::MIN
    }

    fn from_boolean(flag: bool) -> (value: u64) {
        if flag { 1 } else { 0 }
    }

    fn as_boolean(&self) -> (flag: bool) {
        *self != 0
    }

    fn plus(&self, other: &u64) -> (value: u64) {
        self.wrapping_add(*other)
    }

    fn minus(&self, other: &u64) -> (value: u64) {
        self.wrapping_sub(*other)
    }

    fn times(&self, other: &u64) -> (value: u64) {
        self.wrapping_mul(*other)
    }

    fn less_than(&self, other: &u64) -> (flag: bool) {
        *self < *other
    }

    fn equals(&self, other: &u64) -> (flag: bool) {
        *self == *other
    }

    fn maximum_value() -> (value: u64) {
        u64::MAX
    }

    fn minimum_value() -> (value: u64) {
        u64::MIN
    }
}

impl Numeric for u64 {
}

impl ValueType for bool {
    open spec fn from_boolean_spec(flag: bool) -> bool {
        flag
    }

    open spec fn as_boolean_spec(self) -> bool {
        self
    }

    open spec fn plus_spec(self, other: bool) -> bool {
        self || other
    }

    open spec fn minus_spec(self, other: bool) -> bool {
        self != other
    }

    open spec fn times_spec(self, other: bool) -> bool {
        self && other
    }

    open spec fn less_than_spec(self, other: bool) -> bool {
        !self && other
    }

    open spec fn maximum_value_spec() -> bool {
        true
    }

    open spec fn minimum_value_spec() -> bool {
        false
    }

    fn from_boolean(flag: bool) -> (value: bool) {
        flag
    }

    fn as_boolean(&self) -> (flag: bool) {
        *self
    }

    fn plus(&self, other: &bool) -> (value: bool) {
        *self || *other
    }

    fn minus(&self, other: &bool) -> (value: bool) {
        *self != *other
    }

    fn times(&self, other: &bool) -> (value: bool) {
        *self && *other
    }

    fn less_than(&self, other: &bool) -> (flag: bool) {
        !*self && *other
    }

    fn equals(&self, other: &bool) -> (flag: bool) {
        *self == *other
    }

    fn maximum_value() -> (value: bool) {
        true
    }

    fn minimum_value() -> (value: bool) {
        false
    }
}

/// What reading a position of a set of entries yields: the stored value, or the
/// domain's zero where nothing is stored.
pub open spec fn value_or_zero<K, T: ValueType>(entries: Map<K, T>, position: K) -> T {
    if entries.contains_key(position) {
        entries[position]
    } else {
        T::from_boolean_spec(false)
    }
}

/// The domain's zero.
pub fn zero<T: ValueType>() -> (value: T)
    ensures
        value == T::from_boolean_spec(false),
{
    T::from_boolean(false)
}

} // verus!
