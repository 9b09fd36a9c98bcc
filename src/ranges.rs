use crate::error::NokhwaError;
use vstd::prelude::*;

verus! {

/// A range type that can check a candidate value.
pub trait ValidatableRange {
    /// Input type to validate.
    type Validation;

    /// Whether the range admits `value`.
    spec fn admits(&self, value: Self::Validation) -> bool;

    /// Validates the value.
    fn validate(&self, value: &Self::Validation) -> (r: bool)
        ensures
            r == self.admits(*value),
    ;
}

/// A number that a [`Range`] can bound: it reads as a mathematical integer.
pub trait RangeItem: Copy {
    /// The integer this item stands for.
    spec fn as_int(self) -> int;

    /// The same integer, widened.
    fn widen(&self) -> (r: i128)
        ensures
            r as int == self.as_int(),
            -0x1_0000_0000_0000_0000 <= r < 0x1_0000_0000_0000_0000,
    ;
}

/// Absolute value of an integer.
pub open spec fn abs(x: int) -> int {
    if x < 0 {
        -x
    } else {
        x
    }
}

/// Whether `v` lies on the admitted side of both bounds.
pub open spec fn within_bounds(
    minimum: int,
    lower_inclusive: bool,
    maximum: int,
    upper_inclusive: bool,
    v: int,
) -> bool {
    &&& if lower_inclusive {
        minimum <= v
    } else {
        minimum < v
    }
    &&& if upper_inclusive {
        v <= maximum
    } else {
        v < maximum
    }
}

/// Whether `v` is a whole number of steps away from `minimum`.
/// A step of zero places no constraint.
pub open spec fn on_step(minimum: int, step: Option<int>, v: int) -> bool {
    match step {
        Some(s) => s == 0 || (v - minimum) % abs(s) == 0,
        None => true,
    }
}

/// Whether a range with these bounds, flags and step admits `v`.
pub open spec fn admits_int(
    minimum: int,
    lower_inclusive: bool,
    maximum: int,
    upper_inclusive: bool,
    step: Option<int>,
    v: int,
) -> bool {
    within_bounds(minimum, lower_inclusive, maximum, upper_inclusive, v) && on_step(minimum, step, v)
}

/// The step of a range as a mathematical integer.
pub open spec fn step_int<T: RangeItem>(step: Option<T>) -> Option<int> {
    match step {
        Some(s) => Some(s.as_int()),
        None => None,
    }
}

/// Checks `admits_int` on widened values.
pub fn check_int(
    minimum: i128,
    lower_inclusive: bool,
    maximum: i128,
    upper_inclusive: bool,
    step: Option<i128>,
    value: i128,
) -> (r: bool)
    requires
        -0x1_0000_0000_0000_0000 <= minimum < 0x1_0000_0000_0000_0000,
        -0x1_0000_0000_0000_0000 <= value < 0x1_0000_0000_0000_0000,
        step matches Some(s) ==> -0x1_0000_0000_0000_0000 <= s < 0x1_0000_0000_0000_0000,
    ensures
        r == admits_int(
            minimum as int,
            lower_inclusive,
            maximum as int,
            upper_inclusive,
            match step {
                Some(s) => Some(s as int),
                None => None,
            },
            value as int,
        ),
{
    let lower_ok = if lower_inclusive {
        minimum <= value
    } else {
        minimum < value
    };
    let upper_ok = if upper_inclusive {
        value <= maximum
    } else {
        value < maximum
    };
    if !(lower_ok && upper_ok) {
        return false;
    }
    match step {
        Some(s) => {
            if s == 0 {
                true
            } else {
                let distance: u128 = (value - minimum) as u128;
                let size: u128 = if s < 0 {
                    (-s) as u128
                } else {
                    s as u128
                };
                distance % size == 0
            }
        },
        None => true,
    }
}

/// Creates a range of values.
///
/// Inclusive by default.
#[derive(Copy, Clone, Debug, Hash, Eq, PartialEq, Ord, PartialOrd)]
pub struct Range<T> {
    pub minimum: T,
    pub lower_inclusive: bool,
    pub maximum: T,
    pub upper_inclusive: bool,
    pub step: Option<T>,
}

impl<T: Copy> Range<T> {
    /// Create an upper and lower inclusive [`Range`]
    pub fn new(min: T, max: T, step: Option<T>) -> (r: Self)
        ensures
            r == (Range { minimum: min, lower_inclusive: true, maximum: max, upper_inclusive: true, step }),
    {
        Range { minimum: min, lower_inclusive: true, maximum: max, upper_inclusive: true, step }
    }

    pub fn with_inclusive(
        min: T,
        lower_inclusive: bool,
        max: T,
        upper_inclusive: bool,
        step: Option<T>,
    ) -> (r: Self)
        ensures
            r == (Range { minimum: min, lower_inclusive, maximum: max, upper_inclusive, step }),
    {
        Range { minimum: min, lower_inclusive, maximum: max, upper_inclusive, step }
    }

    pub fn set_minimum(&mut self, minimum: T)
        ensures
            *final(self) == (Range { minimum, ..*old(self) }),
    {
        self.minimum = minimum;
    }

    pub fn set_lower_inclusive(&mut self, lower_inclusive: bool)
        ensures
            *final(self) == (Range { lower_inclusive, ..*old(self) }),
    {
        self.lower_inclusive = lower_inclusive;
    }

    pub fn set_maximum(&mut self, maximum: T)
        ensures
            *final(self) == (Range { maximum, ..*old(self) }),
    {
        self.maximum = maximum;
    }

    pub fn set_upper_inclusive(&mut self, upper_inclusive: bool)
        ensures
            *final(self) == (Range { upper_inclusive, ..*old(self) }),
    {
        self.upper_inclusive = upper_inclusive;
    }

    pub fn set_step(&mut self, step: T)
        ensures
            *final(self) == (Range { step: Some(step), ..*old(self) }),
    {
        self.step = Some(step);
    }

    pub fn minimum(&self) -> (r: T)
        ensures
            r == self.minimum,
    {
        self.minimum
    }

    pub fn lower_inclusive(&self) -> (r: bool)
        ensures
            r == self.lower_inclusive,
    {
        self.lower_inclusive
    }

    pub fn maximum(&self) -> (r: T)
        ensures
            r == self.maximum,
    {
        self.maximum
    }

    pub fn upper_inclusive(&self) -> (r: bool)
        ensures
            r == self.upper_inclusive,
    {
        self.upper_inclusive
    }

    pub fn step(&self) -> (r: Option<T>)
        ensures
            r == self.step,
    {
        self.step
    }
}

/// The default range holds the type's default value alone, both bounds inclusive.
impl<T: Copy + Default> Default for Range<T> {
    fn default() -> (r: Self)
        ensures
            r.minimum == r.maximum,
            r.lower_inclusive,
            r.upper_inclusive,
            r.step is None,
    {
        let value = T::default();
        Range { minimum: value, lower_inclusive: true, maximum: value, upper_inclusive: true, step: None }
    }
}

impl<T: RangeItem> ValidatableRange for Range<T> {
    type Validation = T;

    open spec fn admits(&self, value: T) -> bool {
        admits_int(
            self.minimum.as_int(),
            self.lower_inclusive,
            self.maximum.as_int(),
            self.upper_inclusive,
            step_int(self.step),
            value.as_int(),
        )
    }

    fn validate(&self, value: &T) -> (r: bool) {
        let step = match self.step {
            Some(s) => Some(s.widen()),
            None => None,
        };
        check_int(
            self.minimum.widen(),
            self.lower_inclusive,
            self.maximum.widen(),
            self.upper_inclusive,
            step,
            value.widen(),
        )
    }
}

impl RangeItem for i64 {
    open spec fn as_int(self) -> int {
        self as int
    }

    fn widen(&self) -> (r: i128) {
        *self as i128
    }
}

impl RangeItem for u64 {
    open spec fn as_int(self) -> int {
        self as int
    }

    fn widen(&self) -> (r: i128) {
        *self as i128
    }
}

impl RangeItem for u32 {
    open spec fn as_int(self) -> int {
        self as int
    }

    fn widen(&self) -> (r: i128) {
        *self as i128
    }
}

impl RangeItem for i8 {
    open spec fn as_int(self) -> int {
        self as int
    }

    fn widen(&self) -> (r: i128) {
        *self as i128
    }
}

impl RangeItem for u8 {
    open spec fn as_int(self) -> int {
        self as int
    }

    fn widen(&self) -> (r: i128) {
        *self as i128
    }
}

impl RangeItem for i16 {
    open spec fn as_int(self) -> int {
        self as int
    }

    fn widen(&self) -> (r: i128) {
        *self as i128
    }
}

impl RangeItem for u16 {
    open spec fn as_int(self) -> int {
        self as int
    }

    fn widen(&self) -> (r: i128) {
        *self as i128
    }
}

impl RangeItem for i32 {
    open spec fn as_int(self) -> int {
        self as int
    }

    fn widen(&self) -> (r: i128) {
        *self as i128
    }
}

/// A validated value is within the range, honouring each inclusive flag, and when a
/// non-zero step is set it is a whole number of steps from the minimum.
pub proof fn lemma_range_validate<T: RangeItem>(range: Range<T>, v: T)
    requires
        range.step matches Some(s) ==> s.as_int() != 0,
    ensures
        range.admits(v) <==> {
            &&& if range.lower_inclusive {
                range.minimum.as_int() <= v.as_int()
            } else {
                range.minimum.as_int() < v.as_int()
            }
            &&& if range.upper_inclusive {
                v.as_int() <= range.maximum.as_int()
            } else {
                v.as_int() < range.maximum.as_int()
            }
            &&& range.step matches Some(s) ==> (v.as_int() - range.minimum.as_int()) % s.as_int() == 0
        },
{
    if let Some(s) = range.step {
        let d = v.as_int() - range.minimum.as_int();
        let m = s.as_int();
        if m < 0 {
            assert((d % (-m) == 0) <==> (d % m == 0)) by (nonlinear_arith)
                requires
                    m < 0,
            {
            }
        }
    }
}

/// Whether some element of `s` equals `v`.
pub open spec fn contains_item<T: RangeItem>(s: Seq<T>, v: T) -> bool {
    exists|i: int| 0 <= i < s.len() && (#[trigger] s[i]).as_int() == v.as_int()
}

/// Whether `s` has an element equal to `v`.
pub fn has_item<T: RangeItem>(s: &Vec<T>, v: &T) -> (r: bool)
    ensures
        r == contains_item(s@, *v),
{
    let target = v.widen();
    let mut i: usize = 0;
    while i < s.len()
        invariant
            i <= s.len(),
            target as int == v.as_int(),
            forall|k: int| 0 <= k < i ==> (#[trigger] s@[k]).as_int() != v.as_int(),
        decreases s.len() - i,
    {
        if s[i].widen() == target {
            assert(s@[i as int].as_int() == v.as_int());
            return true;
        }
        i = i + 1;
    }
    false
}

/// Whether every element of `sub` is in `s`.
pub open spec fn all_contained<T: RangeItem>(sub: Seq<T>, s: Seq<T>) -> bool {
    forall|i: int| 0 <= i < sub.len() ==> contains_item(s, #[trigger] sub[i])
}

/// Whether every element of `sub` is in `s`.
pub fn has_all<T: RangeItem>(sub: &Vec<T>, s: &Vec<T>) -> (r: bool)
    ensures
        r == all_contained(sub@, s@),
{
    let mut i: usize = 0;
    while i < sub.len()
        invariant
            i <= sub.len(),
            forall|k: int| 0 <= k < i ==> contains_item(s@, #[trigger] sub@[k]),
        decreases sub.len() - i,
    {
        if !has_item(s, &sub[i]) {
            return false;
        }
        i = i + 1;
    }
    true
}

/// A choice among an explicit list of values.
#[derive(Clone, Debug)]
pub struct Options<T> {
    pub options: Vec<T>,
}

impl<T: RangeItem> Options<T> {
    pub fn new(options: Vec<T>) -> (r: Self)
        ensures
            r.options@ == options@,
    {
        Options { options }
    }
}

impl<T: RangeItem> ValidatableRange for Options<T> {
    type Validation = T;

    open spec fn admits(&self, value: T) -> bool {
        contains_item(self.options@, value)
    }

    fn validate(&self, value: &T) -> (r: bool) {
        has_item(&self.options, value)
    }
}

/// Arrays drawn from a set of values that may be appended, with a default array
/// whose every element is among them.
#[derive(Clone, Debug)]
pub struct ArrayRange<T> {
    appendable: Vec<T>,
    default: Vec<T>,
}

impl<T: RangeItem> ArrayRange<T> {
    pub closed spec fn spec_appendable(&self) -> Seq<T> {
        self.appendable@
    }

    pub closed spec fn spec_default(&self) -> Seq<T> {
        self.default@
    }

    /// Fails when an element of the default is not appendable.
    pub fn new(appendable: Vec<T>, default: Vec<T>) -> (r: Result<Self, NokhwaError>)
        ensures
            r is Ok <==> all_contained(default@, appendable@),
            r matches Ok(a) ==> a.spec_appendable() == appendable@ && a.spec_default() == default@,
            r matches Ok(a) ==> all_contained(a.spec_default(), a.spec_appendable()),
            r matches Err(e) ==> e is StructureError,
    {
        if !has_all(&default, &appendable) {
            return Err(NokhwaError::StructureError {
                structure: "ArrayRange".to_string(),
                error: "Default value not in appendable".to_string(),
            });
        }
        Ok(ArrayRange { appendable, default })
    }

    pub fn appendable(&self) -> (r: &Vec<T>)
        ensures
            r@ == self.spec_appendable(),
    {
        &self.appendable
    }

    pub fn default_values(&self) -> (r: &Vec<T>)
        ensures
            r@ == self.spec_default(),
    {
        &self.default
    }
}

impl<T: RangeItem> ValidatableRange for ArrayRange<T> {
    type Validation = Vec<T>;

    open spec fn admits(&self, value: Vec<T>) -> bool {
        all_contained(value@, self.spec_appendable())
    }

    fn validate(&self, value: &Vec<T>) -> (r: bool) {
        has_all(value, &self.appendable)
    }
}

/// A range that admits every value.
#[derive(Debug)]
pub struct Simple<T> {
    marker: std::marker::PhantomData<T>,
}

impl<T> Simple<T> {
    pub fn new() -> (r: Self) {
        Simple { marker: std::marker::PhantomData }
    }
}

impl<T> ValidatableRange for Simple<T> {
    type Validation = T;

    open spec fn admits(&self, value: T) -> bool {
        true
    }

    fn validate(&self, value: &T) -> (r: bool) {
        true
    }
}

/// The bracket that shows whether a bound is inclusive.
pub fn bool_to_inclusive_char(inclusive: bool, upper: bool) -> (r: char)
    ensures
        r == if inclusive {
            if upper {
                ']'
            } else {
                '['
            }
        } else {
            if upper {
                ')'
            } else {
                '('
            }
        },
{
    if inclusive {
        if upper {
            ']'
        } else {
            '['
        }
    } else {
        if upper {
            ')'
        } else {
            '('
        }
    }
}

} // verus!
