use vstd::prelude::*;

verus! {

/// Whether `v` can be held by the domain type `S`.
pub open spec fn in_domain<S: IntervalDomain>(v: int) -> bool {
    S::min_value() <= v <= S::max_value()
}

/// A numeric type that can bound an `Interval`.
///
/// Each implementation stands for the integers from `min_value()` to
/// `max_value()` and supplies overflow-checked addition and subtraction.
/// Intervals over such a domain are closed: they hold every integer from
/// their start up to and including `start + diameter - 1`.
pub trait IntervalDomain: Copy + Sized {
    /// The integer that this value stands for.
    spec fn value(self) -> int;

    /// The least integer that the type can hold.
    spec fn min_value() -> int;

    /// The greatest integer that the type can hold.
    spec fn max_value() -> int;

    /// Every value lies within the type's range.
    proof fn lemma_value_in_range(self)
        ensures
            Self::min_value() <= self.value() <= Self::max_value(),
    ;

    /// The range holds zero and one.
    proof fn lemma_range_holds_zero_and_one()
        ensures
            Self::min_value() <= 0,
            1 <= Self::max_value(),
    ;

    fn zero() -> (r: Self)
        ensures
            r.value() == 0,
    ;

    fn one() -> (r: Self)
        ensures
            r.value() == 1,
    ;

    fn less_than(&self, other: &Self) -> (r: bool)
        ensures
            r == (self.value() < other.value()),
    ;

    /// `self + other`, or `None` where the sum leaves the type's range.
    fn add_checked(&self, other: &Self) -> (r: Option<Self>)
        ensures
            match r {
                Some(s) => s.value() == self.value() + other.value(),
                None => !(Self::min_value() <= self.value() + other.value() <= Self::max_value()),
            },
    ;

    /// `self - other`, or `None` where the difference leaves the type's range.
    fn sub_checked(&self, other: &Self) -> (r: Option<Self>)
        ensures
            match r {
                Some(s) => s.value() == self.value() - other.value(),
                None => !(Self::min_value() <= self.value() - other.value() <= Self::max_value()),
            },
    ;
}

impl IntervalDomain for u8 {
    open spec fn value(self) -> int {
        self as int
    }

    open spec fn min_value() -> int {
        0
    }

    open spec fn max_value() -> int {
        u8::MAX as int
    }

    proof fn lemma_value_in_range(self) {
    }

    proof fn lemma_range_holds_zero_and_one() {
    }

    fn zero() -> (r: u8) {
        0
    }

    fn one() -> (r: u8) {
        1
    }

    fn less_than(&self, other: &u8) -> (r: bool) {
        *self < *other
    }

    fn add_checked(&self, other: &u8) -> (r: Option<u8>) {
        self.checked_add(*other)
    }

    fn sub_checked(&self, other: &u8) -> (r: Option<u8>) {
        self.checked_sub(*other)
    }
}

impl IntervalDomain for i8 {
    open spec fn value(self) -> int {
        self as int
    }

    open spec fn min_value() -> int {
        i8::MIN as int
    }

    open spec fn max_value() -> int {
        i8::MAX as int
    }

    proof fn lemma_value_in_range(self) {
    }

    proof fn lemma_range_holds_zero_and_one() {
    }

    fn zero() -> (r: i8) {
        0
    }

    fn one() -> (r: i8) {
        1
    }

    fn less_than(&self, other: &i8) -> (r: bool) {
        *self < *other
    }

    fn add_checked(&self, other: &i8) -> (r: Option<i8>) {
        self.checked_add(*other)
    }

    fn sub_checked(&self, other: &i8) -> (r: Option<i8>) {
        self.checked_sub(*other)
    }
}

impl IntervalDomain for i16 {
    open spec fn value(self) -> int {
        self as int
    }

    open spec fn min_value() -> int {
        i16::MIN as int
    }

    open spec fn max_value() -> int {
        i16::MAX as int
    }

    proof fn lemma_value_in_range(self) {
    }

    proof fn lemma_range_holds_zero_and_one() {
    }

    fn zero() -> (r: i16) {
        0
    }

    fn one() -> (r: i16) {
        1
    }

    fn less_than(&self, other: &i16) -> (r: bool) {
        *self < *other
    }

    fn add_checked(&self, other: &i16) -> (r: Option<i16>) {
        self.checked_add(*other)
    }

    fn sub_checked(&self, other: &i16) -> (r: Option<i16>) {
        self.checked_sub(*other)
    }
}

impl IntervalDomain for i32 {
    open spec fn value(self) -> int {
        self as int
    }

    open spec fn min_value() -> int {
        i32::MIN as int
    }

    open spec fn max_value() -> int {
        i32::MAX as int
    }

    proof fn lemma_value_in_range(self) {
    }

    proof fn lemma_range_holds_zero_and_one() {
    }

    fn zero() -> (r: i32) {
        0
    }

    fn one() -> (r: i32) {
        1
    }

    fn less_than(&self, other: &i32) -> (r: bool) {
        *self < *other
    }

    fn add_checked(&self, other: &i32) -> (r: Option<i32>) {
        self.checked_add(*other)
    }

    fn sub_checked(&self, other: &i32) -> (r: Option<i32>) {
        self.checked_sub(*other)
    }
}

impl IntervalDomain for i64 {
    open spec fn value(self) -> int {
        self as int
    }

    open spec fn min_value() -> int {
        i64::MIN as int
    }

    open spec fn max_value() -> int {
        i64::MAX as int
    }

    proof fn lemma_value_in_range(self) {
    }

    proof fn lemma_range_holds_zero_and_one() {
    }

    fn zero() -> (r: i64) {
        0
    }

    fn one() -> (r: i64) {
        1
    }

    fn less_than(&self, other: &i64) -> (r: bool) {
        *self < *other
    }

    fn add_checked(&self, other: &i64) -> (r: Option<i64>) {
        self.checked_add(*other)
    }

    fn sub_checked(&self, other: &i64) -> (r: Option<i64>) {
        self.checked_sub(*other)
    }
}

impl IntervalDomain for i128 {
    open spec fn value(self) -> int {
        self as int
    }

    open spec fn min_value() -> int {
        i128::MIN as int
    }

    open spec fn max_value() -> int {
        i128::MAX as int
    }

    proof fn lemma_value_in_range(self) {
    }

    proof fn lemma_range_holds_zero_and_one() {
    }

    fn zero() -> (r: i128) {
        0
    }

    fn one() -> (r: i128) {
        1
    }

    fn less_than(&self, other: &i128) -> (r: bool) {
        *self < *other
    }

    fn add_checked(&self, other: &i128) -> (r: Option<i128>) {
        self.checked_add(*other)
    }

    fn sub_checked(&self, other: &i128) -> (r: Option<i128>) {
        self.checked_sub(*other)
    }
}

impl IntervalDomain for u16 {
    open spec fn value(self) -> int {
        self as int
    }

    open spec fn min_value() -> int {
        0
    }

    open spec fn max_value() -> int {
        u16::MAX as int
    }

    proof fn lemma_value_in_range(self) {
    }

    proof fn lemma_range_holds_zero_and_one() {
    }

    fn zero() -> (r: u16) {
        0
    }

    fn one() -> (r: u16) {
        1
    }

    fn less_than(&self, other: &u16) -> (r: bool) {
        *self < *other
    }

    fn add_checked(&self, other: &u16) -> (r: Option<u16>) {
        self.checked_add(*other)
    }

    fn sub_checked(&self, other: &u16) -> (r: Option<u16>) {
        self.checked_sub(*other)
    }
}

impl IntervalDomain for u32 {
    open spec fn value(self) -> int {
        self as int
    }

    open spec fn min_value() -> int {
        0
    }

    open spec fn max_value() -> int {
        u32::MAX as int
    }

    proof fn lemma_value_in_range(self) {
    }

    proof fn lemma_range_holds_zero_and_one() {
    }

    fn zero() -> (r: u32) {
        0
    }

    fn one() -> (r: u32) {
        1
    }

    fn less_than(&self, other: &u32) -> (r: bool) {
        *self < *other
    }

    fn add_checked(&self, other: &u32) -> (r: Option<u32>) {
        self.checked_add(*other)
    }

    fn sub_checked(&self, other: &u32) -> (r: Option<u32>) {
        self.checked_sub(*other)
    }
}

impl IntervalDomain for u64 {
    open spec fn value(self) -> int {
        self as int
    }

    open spec fn min_value() -> int {
        0
    }

    open spec fn max_value() -> int {
        u64::MAX as int
    }

    proof fn lemma_value_in_range(self) {
    }

    proof fn lemma_range_holds_zero_and_one() {
    }

    fn zero() -> (r: u64) {
        0
    }

    fn one() -> (r: u64) {
        1
    }

    fn less_than(&self, other: &u64) -> (r: bool) {
        *self < *other
    }

    fn add_checked(&self, other: &u64) -> (r: Option<u64>) {
        self.checked_add(*other)
    }

    fn sub_checked(&self, other: &u64) -> (r: Option<u64>) {
        self.checked_sub(*other)
    }
}

impl IntervalDomain for u128 {
    open spec fn value(self) -> int {
        self as int
    }

    open spec fn min_value() -> int {
        0
    }

    open spec fn max_value() -> int {
        u128::MAX as int
    }

    proof fn lemma_value_in_range(self) {
    }

    proof fn lemma_range_holds_zero_and_one() {
    }

    fn zero() -> (r: u128) {
        0
    }

    fn one() -> (r: u128) {
        1
    }

    fn less_than(&self, other: &u128) -> (r: bool) {
        *self < *other
    }

    fn add_checked(&self, other: &u128) -> (r: Option<u128>) {
        self.checked_add(*other)
    }

    fn sub_checked(&self, other: &u128) -> (r: Option<u128>) {
        self.checked_sub(*other)
    }
}

} // verus!
