use crate::error::{debug_text, NokhwaError};
use crate::ranges::{Range, ValidatableRange, within_bounds};
use vstd::prelude::*;

verus! {

/// An identifier of a control that is not in the common set.
pub type PlatformSpecificControlId = u64;

/// The semantic identity of a device control.
#[derive(Copy, Clone, Debug, Hash, Ord, PartialOrd, Eq, PartialEq, Structural)]
pub enum ControlId {
    FocusMode,
    FocusAutoType,
    FocusAutoRange,
    FocusAbsolute,
    FocusRelative,
    FocusStatus,
    ExposureMode,
    ExposureBias,
    ExposureMetering,
    ExposureAbsolute,
    ExposureRelative,
    IsoMode,
    IsoSensitivity,
    ApertureAbsolute,
    ApertureRelative,
    WhiteBalanceMode,
    WhiteBalanceTemperature,
    ZoomContinuous,
    ZoomRelative,
    ZoomAbsolute,
    LightingMode,
    LightingStart,
    LightingStop,
    LightingStatus,
    Orientation,
    PlatformSpecific(PlatformSpecificControlId),
}

/// Flags a device reports on a control.
#[derive(Copy, Clone, Debug, Hash, Ord, PartialOrd, Eq, PartialEq, Structural)]
pub enum ControlFlags {
    Disabled,
    Busy,
    ReadOnly,
    CascadingUpdates,
    Inactive,
    Slider,
    WriteOnly,
    Volatile,
    ContinuousChange,
    ExecuteOnWrite,
}

/// Where a camera points or is mounted.
#[derive(Copy, Clone, Debug, Hash, Ord, PartialOrd, Eq, PartialEq, Structural)]
pub enum Orientation {
    User,
    Environment,
    Up,
    Down,
    Left,
    Right,
    Center,
    Near,
    Far,
    Other,
    Custom(i64),
}

/// A 64-bit floating-point number carried as its IEEE 754 bit pattern.
///
/// Numbers compare by their value under a total order: every NaN equals every other
/// NaN and lies above positive infinity, and negative zero equals positive zero.
#[derive(Copy, Clone, Debug, Hash, PartialEq, Eq, Structural)]
pub struct FloatBits {
    pub bits: u64,
}

/// Mask of every bit but the sign.
pub const MAGNITUDE_MASK: u64 = 0x7FFF_FFFF_FFFF_FFFF;

/// Bit pattern of positive infinity; a larger magnitude is a NaN.
pub const INFINITY_BITS: u64 = 0x7FF0_0000_0000_0000;

impl FloatBits {
    /// The magnitude bits.
    pub open spec fn magnitude(self) -> int {
        (self.bits & MAGNITUDE_MASK) as int
    }

    pub open spec fn is_nan(self) -> bool {
        self.magnitude() > INFINITY_BITS as int
    }

    pub open spec fn is_negative(self) -> bool {
        (self.bits >> 63u64) == 1u64
    }

    /// Position of the number in the total order. The bit patterns of non-NaN
    /// numbers are ordered by magnitude and flipped by the sign.
    pub open spec fn order_key(self) -> int {
        if self.is_nan() {
            INFINITY_BITS as int + 1
        } else if self.is_negative() {
            -self.magnitude()
        } else {
            self.magnitude()
        }
    }

    /// Computes `order_key`.
    pub fn key(&self) -> (r: i128)
        ensures
            r as int == self.order_key(),
    {
        let magnitude = self.bits & MAGNITUDE_MASK;
        if magnitude > INFINITY_BITS {
            INFINITY_BITS as i128 + 1
        } else if (self.bits >> 63u64) == 1u64 {
            -(magnitude as i128)
        } else {
            magnitude as i128
        }
    }
}

/// A range of floating-point numbers checks the bounds under the total order of
/// [`FloatBits`]. Its step is not checked: stepping real numbers calls for
/// floating-point arithmetic, which this library does not do.
impl ValidatableRange for Range<FloatBits> {
    type Validation = FloatBits;

    open spec fn admits(&self, value: FloatBits) -> bool {
        within_bounds(
            self.minimum.order_key(),
            self.lower_inclusive,
            self.maximum.order_key(),
            self.upper_inclusive,
            value.order_key(),
        )
    }

    fn validate(&self, value: &FloatBits) -> (r: bool) {
        let v = value.key();
        let lo = self.minimum.key();
        let hi = self.maximum.key();
        let lower_ok = if self.lower_inclusive {
            lo <= v
        } else {
            lo < v
        };
        let upper_ok = if self.upper_inclusive {
            v <= hi
        } else {
            v < hi
        };
        lower_ok && upper_ok
    }
}

/// A value of a control.
#[derive(Debug)]
pub enum ControlValue {
    Null,
    Integer(i64),
    BitMask(i64),
    Float(FloatBits),
    String(String),
    Boolean(bool),
    Array(Vec<ControlValue>),
    Binary(Vec<u8>),
    /// The key of the chosen entry of a menu.
    EnumPick(Box<ControlValue>),
    Area { width: i64, height: i64 },
    Orientation(Orientation),
}

/// Which variant a value is, as a number.
pub open spec fn kind_of(v: ControlValue) -> int {
    match v {
        ControlValue::Null => 0,
        ControlValue::Integer(_) => 1,
        ControlValue::BitMask(_) => 2,
        ControlValue::Float(_) => 3,
        ControlValue::String(_) => 4,
        ControlValue::Boolean(_) => 5,
        ControlValue::Array(_) => 6,
        ControlValue::Binary(_) => 7,
        ControlValue::EnumPick(_) => 8,
        ControlValue::Area { .. } => 9,
        ControlValue::Orientation(_) => 10,
    }
}

/// Whether two values are equal: strings and byte strings by their contents, floats
/// under the total order of [`FloatBits`], arrays element by element.
pub open spec fn same_value(a: ControlValue, b: ControlValue) -> bool
    decreases a,
{
    match a {
        ControlValue::Null => b is Null,
        ControlValue::Integer(x) => b matches ControlValue::Integer(y) && x == y,
        ControlValue::BitMask(x) => b matches ControlValue::BitMask(y) && x == y,
        ControlValue::Float(x) => b matches ControlValue::Float(y) && x.order_key() == y.order_key(),
        ControlValue::String(x) => b matches ControlValue::String(y) && x@ == y@,
        ControlValue::Boolean(x) => b matches ControlValue::Boolean(y) && x == y,
        ControlValue::Array(xs) => match b {
            ControlValue::Array(ys) => same_values(xs@, ys@),
            _ => false,
        },
        ControlValue::Binary(x) => b matches ControlValue::Binary(y) && x@ == y@,
        ControlValue::EnumPick(x) => match b {
            ControlValue::EnumPick(y) => same_value(*x, *y),
            _ => false,
        },
        ControlValue::Area { width, height } => b matches ControlValue::Area { width: w, height: h }
            && width == w && height == h,
        ControlValue::Orientation(x) => b matches ControlValue::Orientation(y) && x == y,
    }
}

/// Whether two sequences of values have the same length and equal elements.
pub open spec fn same_values(xs: Seq<ControlValue>, ys: Seq<ControlValue>) -> bool
    decreases xs,
{
    if xs.len() == 0 {
        ys.len() == 0
    } else {
        &&& ys.len() == xs.len()
        &&& same_value(xs.last(), ys.last())
        &&& same_values(xs.drop_last(), ys.drop_last())
    }
}

impl ControlValue {
    /// Whether the value is neither an array nor a menu pick.
    pub fn is_primitive(&self) -> (r: bool)
        ensures
            r == !(self is Array || self is EnumPick),
    {
        match self {
            ControlValue::Array(_) | ControlValue::EnumPick(_) => false,
            _ => true,
        }
    }

    /// Whether both values are of the same variant.
    pub fn same_type(&self, other: &ControlValue) -> (r: bool)
        ensures
            r == (kind_of(*self) == kind_of(*other)),
    {
        match (self, other) {
            (ControlValue::Null, ControlValue::Null) => true,
            (ControlValue::Integer(_), ControlValue::Integer(_)) => true,
            (ControlValue::BitMask(_), ControlValue::BitMask(_)) => true,
            (ControlValue::Float(_), ControlValue::Float(_)) => true,
            (ControlValue::String(_), ControlValue::String(_)) => true,
            (ControlValue::Boolean(_), ControlValue::Boolean(_)) => true,
            (ControlValue::Array(_), ControlValue::Array(_)) => true,
            (ControlValue::Binary(_), ControlValue::Binary(_)) => true,
            (ControlValue::EnumPick(_), ControlValue::EnumPick(_)) => true,
            (ControlValue::Area { .. }, ControlValue::Area { .. }) => true,
            (ControlValue::Orientation(_), ControlValue::Orientation(_)) => true,
            _ => false,
        }
    }

    /// Whether both values are equal, in the sense of `same_value`.
    pub fn equals(&self, other: &ControlValue) -> (r: bool)
        ensures
            r == same_value(*self, *other),
        decreases self,
    {
        match (self, other) {
            (ControlValue::Null, ControlValue::Null) => true,
            (ControlValue::Integer(x), ControlValue::Integer(y)) => *x == *y,
            (ControlValue::BitMask(x), ControlValue::BitMask(y)) => *x == *y,
            (ControlValue::Float(x), ControlValue::Float(y)) => x.key() == y.key(),
            (ControlValue::String(x), ControlValue::String(y)) => *x == *y,
            (ControlValue::Boolean(x), ControlValue::Boolean(y)) => *x == *y,
            (ControlValue::Array(xs), ControlValue::Array(ys)) => {
                if xs.len() != ys.len() {
                    proof {
                        reveal_with_fuel(same_values, 1);
                        assert(!same_values(xs@, ys@));
                    }
                    return false;
                }
                let mut i: usize = 0;
                while i < xs.len()
                    invariant
                        xs.len() == ys.len(),
                        i <= xs.len(),
                        *self == ControlValue::Array(*xs),
                        *other == ControlValue::Array(*ys),
                        same_values(xs@.take(i as int), ys@.take(i as int)),
                    decreases xs.len() - i,
                {
                    proof {
                        assert(decreases_to!(*self => self->Array_0));
                        assert(decreases_to!(*xs => xs[i as int]));
                    }
                    if !xs[i].equals(&ys[i]) {
                        proof {
                            if same_values(xs@, ys@) {
                                lemma_same_values_index(xs@, ys@, i as int);
                            }
                        }
                        return false;
                    }
                    proof {
                        let (a, b) = (xs@.take(i + 1), ys@.take(i + 1));
                        assert(a.drop_last() =~= xs@.take(i as int));
                        assert(b.drop_last() =~= ys@.take(i as int));
                    }
                    i = i + 1;
                }
                proof {
                    assert(xs@.take(i as int) =~= xs@);
                    assert(ys@.take(i as int) =~= ys@);
                }
                true
            },
            (ControlValue::Binary(x), ControlValue::Binary(y)) => bytes_equal(x, y),
            (ControlValue::EnumPick(x), ControlValue::EnumPick(y)) => (**x).equals(&**y),
            (
                ControlValue::Area { width: w1, height: h1 },
                ControlValue::Area { width: w2, height: h2 },
            ) => *w1 == *w2 && *h1 == *h2,
            (ControlValue::Orientation(x), ControlValue::Orientation(y)) => *x == *y,
            _ => false,
        }
    }
}

/// Equal sequences of values are equal at each index.
pub proof fn lemma_same_values_index(xs: Seq<ControlValue>, ys: Seq<ControlValue>, i: int)
    requires
        same_values(xs, ys),
        0 <= i < xs.len(),
    ensures
        same_value(xs[i], ys[i]),
    decreases xs.len(),
{
    if i < xs.len() - 1 {
        lemma_same_values_index(xs.drop_last(), ys.drop_last(), i);
    }
}

/// Whether two byte strings have the same contents.
pub fn bytes_equal(a: &Vec<u8>, b: &Vec<u8>) -> (r: bool)
    ensures
        r == (a@ == b@),
{
    if a.len() != b.len() {
        return false;
    }
    let mut i: usize = 0;
    while i < a.len()
        invariant
            a.len() == b.len(),
            i <= a.len(),
            forall|j: int| 0 <= j < i ==> a[j] == b[j],
        decreases a.len() - i,
    {
        if a[i] != b[i] {
            return false;
        }
        i = i + 1;
    }
    assert(a@ =~= b@);
    true
}

/// Whether a menu has an entry whose key equals `key`.
pub open spec fn menu_has_key(choices: Seq<(ControlValue, ControlValue)>, key: ControlValue) -> bool {
    exists|j: int| 0 <= j < choices.len() && #[trigger] same_value(choices[j].0, key)
}

/// The schema of the values a control admits.
#[derive(Debug)]
pub enum ControlValueDescriptor {
    Null,
    Integer(Range<i64>),
    BitMask,
    Float(Range<FloatBits>),
    String,
    Boolean,
    /// An array whose every element the inner descriptor admits.
    Array(Box<ControlValueDescriptor>),
    /// A menu of choices: pairs of a key and what the key stands for.
    Menu(Vec<(ControlValue, ControlValue)>),
    /// A byte string whose length the range admits.
    Binary(Range<u64>),
    /// An area whose width and height the two ranges admit.
    Area { width_limits: Range<i64>, height_limits: Range<i64> },
    /// An orientation among those listed; an empty list admits any.
    Orientation(Vec<Orientation>),
}

impl ControlValueDescriptor {
    /// The variant of value (see `kind_of`) this descriptor is about.
    pub open spec fn expected_kind(self) -> int {
        match self {
            ControlValueDescriptor::Null => 0,
            ControlValueDescriptor::Integer(_) => 1,
            ControlValueDescriptor::BitMask => 2,
            ControlValueDescriptor::Float(_) => 3,
            ControlValueDescriptor::String => 4,
            ControlValueDescriptor::Boolean => 5,
            ControlValueDescriptor::Array(_) => 6,
            ControlValueDescriptor::Binary(_) => 7,
            ControlValueDescriptor::Menu(_) => 8,
            ControlValueDescriptor::Area { .. } => 9,
            ControlValueDescriptor::Orientation(_) => 10,
        }
    }

    /// Whether the descriptor admits `value`.
    pub open spec fn admits(self, value: ControlValue) -> bool
        decreases self, 0nat,
    {
        match self {
            ControlValueDescriptor::Null => value is Null,
            ControlValueDescriptor::Integer(r) => value matches ControlValue::Integer(i) && r.admits(i),
            ControlValueDescriptor::BitMask => value is BitMask,
            ControlValueDescriptor::Float(r) => value matches ControlValue::Float(f) && r.admits(f),
            ControlValueDescriptor::String => value is String,
            ControlValueDescriptor::Boolean => value is Boolean,
            ControlValueDescriptor::Array(inner) => match value {
                ControlValue::Array(xs) => (*inner).admits_all(xs@),
                _ => false,
            },
            ControlValueDescriptor::Binary(r) => value matches ControlValue::Binary(b) && r.admits(
                b@.len() as u64,
            ),
            ControlValueDescriptor::Menu(choices) => match value {
                ControlValue::EnumPick(c) => menu_has_key(choices@, *c),
                _ => false,
            },
            ControlValueDescriptor::Area { width_limits, height_limits } => value matches ControlValue::Area { width, height }
                && width_limits.admits(width) && height_limits.admits(height),
            ControlValueDescriptor::Orientation(allowed) => value matches ControlValue::Orientation(o) && (
            allowed@.len() == 0 || allowed@.contains(o)),
        }
    }

    /// Whether the descriptor admits every value of `xs`.
    pub open spec fn admits_all(self, xs: Seq<ControlValue>) -> bool
        decreases self, xs.len() + 1,
    {
        if xs.len() == 0 {
            true
        } else {
            self.admits_all(xs.drop_last()) && self.admits(xs.last())
        }
    }

    /// Checks a value against the descriptor: its variant must match the descriptor's
    /// kind, and bounded kinds must admit it.
    pub fn validate(&self, value: &ControlValue) -> (r: bool)
        ensures
            r == self.admits(*value),
        decreases self,
    {
        match (self, value) {
            (ControlValueDescriptor::Null, ControlValue::Null) => true,
            (ControlValueDescriptor::Integer(r), ControlValue::Integer(i)) => r.validate(i),
            (ControlValueDescriptor::BitMask, ControlValue::BitMask(_)) => true,
            (ControlValueDescriptor::Float(r), ControlValue::Float(f)) => r.validate(f),
            (ControlValueDescriptor::String, ControlValue::String(_)) => true,
            (ControlValueDescriptor::Boolean, ControlValue::Boolean(_)) => true,
            (ControlValueDescriptor::Array(inner), ControlValue::Array(xs)) => {
                let mut i: usize = 0;
                while i < xs.len()
                    invariant
                        i <= xs.len(),
                        *self == ControlValueDescriptor::Array(*inner),
                        *value == ControlValue::Array(*xs),
                        (**inner).admits_all(xs@.take(i as int)),
                    decreases xs.len() - i,
                {
                    proof {
                        assert(decreases_to!(*self => self->Array_0));
                    }
                    if !(**inner).validate(&xs[i]) {
                        proof {
                            lemma_admits_all_index(**inner, xs@, i as int);
                        }
                        return false;
                    }
                    proof {
                        assert(xs@.take(i + 1).drop_last() =~= xs@.take(i as int));
                    }
                    i = i + 1;
                }
                proof {
                    assert(xs@.take(i as int) =~= xs@);
                }
                true
            },
            (ControlValueDescriptor::Binary(r), ControlValue::Binary(b)) => r.validate(
                &(b.len() as u64),
            ),
            (ControlValueDescriptor::Menu(choices), ControlValue::EnumPick(c)) => {
                let mut j: usize = 0;
                while j < choices.len()
                    invariant
                        j <= choices.len(),
                        *self == ControlValueDescriptor::Menu(*choices),
                        *value == ControlValue::EnumPick(*c),
                        forall|k: int| 0 <= k < j ==> !#[trigger] same_value(choices[k].0, **c),
                    decreases choices.len() - j,
                {
                    if choices[j].0.equals(&**c) {
                        assert(same_value(choices@[j as int].0, **c));
                        return true;
                    }
                    j = j + 1;
                }
                false
            },
            (
                ControlValueDescriptor::Area { width_limits, height_limits },
                ControlValue::Area { width, height },
            ) => width_limits.validate(width) && height_limits.validate(height),
            (ControlValueDescriptor::Orientation(allowed), ControlValue::Orientation(o)) => {
                if allowed.len() == 0 {
                    return true;
                }
                let mut j: usize = 0;
                while j < allowed.len()
                    invariant
                        j <= allowed.len(),
                        allowed.len() > 0,
                        *self == ControlValueDescriptor::Orientation(*allowed),
                        *value == ControlValue::Orientation(*o),
                        forall|k: int| 0 <= k < j ==> allowed@[k] != *o,
                    decreases allowed.len() - j,
                {
                    if allowed[j] == *o {
                        return true;
                    }
                    j = j + 1;
                }
                false
            },
            _ => false,
        }
    }
}

/// If a descriptor admits every value of a sequence, it admits each of them.
pub proof fn lemma_admits_all_index(d: ControlValueDescriptor, xs: Seq<ControlValue>, i: int)
    requires
        0 <= i < xs.len(),
    ensures
        d.admits_all(xs) ==> d.admits(xs[i]),
    decreases xs.len(),
{
    if i < xs.len() - 1 {
        lemma_admits_all_index(d, xs.drop_last(), i);
    }
}

/// A descriptor admits only values of the kind it describes.
pub proof fn lemma_validate_rejects_other_kinds(d: ControlValueDescriptor, v: ControlValue)
    requires
        d.expected_kind() != kind_of(v),
    ensures
        !d.admits(v),
{
}

/// A control's schema, flags and default value.
#[derive(Debug)]
pub struct ControlDescription {
    flags: Vec<ControlFlags>,
    descriptor: ControlValueDescriptor,
    default_value: Option<ControlValue>,
}

/// Whether the default, if any, is admitted by the descriptor.
pub open spec fn default_admitted(
    descriptor: ControlValueDescriptor,
    default_value: Option<ControlValue>,
) -> bool {
    match default_value {
        Some(d) => descriptor.admits(d),
        None => true,
    }
}

impl ControlDescription {
    /// The set of flags.
    pub closed spec fn flag_set(&self) -> Set<ControlFlags> {
        self.flags@.to_set()
    }

    /// The descriptor.
    pub closed spec fn spec_descriptor(&self) -> ControlValueDescriptor {
        self.descriptor
    }

    /// The default value.
    pub closed spec fn spec_default(&self) -> Option<ControlValue> {
        self.default_value
    }

    /// A description is well formed when its default, if any, is admitted by its descriptor.
    pub open spec fn wf(&self) -> bool {
        default_admitted(self.spec_descriptor(), self.spec_default())
    }

    /// Builds a description; fails when a default is given that the descriptor rejects.
    pub fn new(
        control_flags: Vec<ControlFlags>,
        control_value_descriptor: ControlValueDescriptor,
        default_value: Option<ControlValue>,
    ) -> (r: Option<Self>)
        ensures
            r is Some <==> default_admitted(control_value_descriptor, default_value),
            r matches Some(d) ==> {
                &&& d.wf()
                &&& d.flag_set() == control_flags@.to_set()
                &&& d.spec_descriptor() == control_value_descriptor
                &&& d.spec_default() == default_value
            },
    {
        if let Some(default) = &default_value {
            if !control_value_descriptor.validate(default) {
                return None;
            }
        }
        Some(ControlDescription {
            flags: control_flags,
            descriptor: control_value_descriptor,
            default_value,
        })
    }

    /// Builds a description without checking the default; the caller proves it admitted.
    pub fn new_unchecked(
        control_flags: Vec<ControlFlags>,
        control_value_descriptor: ControlValueDescriptor,
        default_value: Option<ControlValue>,
    ) -> (r: Self)
        requires
            default_admitted(control_value_descriptor, default_value),
        ensures
            r.wf(),
            r.flag_set() == control_flags@.to_set(),
            r.spec_descriptor() == control_value_descriptor,
            r.spec_default() == default_value,
    {
        ControlDescription {
            flags: control_flags,
            descriptor: control_value_descriptor,
            default_value,
        }
    }

    /// The flags, each listed once.
    pub fn flags(&self) -> (r: &Vec<ControlFlags>)
        ensures
            r@.to_set() == self.flag_set(),
    {
        &self.flags
    }

    pub fn descriptor(&self) -> (r: &ControlValueDescriptor)
        ensures
            *r == self.spec_descriptor(),
    {
        &self.descriptor
    }

    pub fn default_value(&self) -> (r: &Option<ControlValue>)
        ensures
            *r == self.spec_default(),
    {
        &self.default_value
    }

    /// Whether the flag is set.
    pub fn has_flag(&self, flag: ControlFlags) -> (r: bool)
        ensures
            r == self.flag_set().contains(flag),
    {
        let mut i: usize = 0;
        while i < self.flags.len()
            invariant
                i <= self.flags.len(),
                forall|k: int| 0 <= k < i ==> self.flags@[k] != flag,
            decreases self.flags.len() - i,
        {
            if self.flags[i] == flag {
                assert(self.flags@.contains(flag));
                return true;
            }
            i = i + 1;
        }
        false
    }

    pub fn add_flag(&mut self, flag: ControlFlags)
        ensures
            final(self).flag_set() == old(self).flag_set().insert(flag),
            final(self).spec_descriptor() == old(self).spec_descriptor(),
            final(self).spec_default() == old(self).spec_default(),
    {
        if !self.has_flag(flag) {
            self.flags.push(flag);
        }
        proof {
            assert(final(self).flag_set() =~= old(self).flag_set().insert(flag)) by {
                assert forall|f: ControlFlags| #[trigger] final(self).flags@.contains(f) <==> (old(
                    self,
                ).flags@.contains(f) || f == flag) by {
                    if f == flag {
                        if !old(self).flags@.contains(flag) {
                            assert(final(self).flags@.last() == flag);
                        }
                    }
                    if old(self).flags@.contains(f) {
                        let k = choose|k: int| 0 <= k < old(self).flags@.len() && old(self).flags@[k] == f;
                        assert(final(self).flags@[k] == f);
                    }
                    if final(self).flags@.contains(f) && !old(self).flags@.contains(f) {
                        let k = choose|k: int| 0 <= k < final(self).flags@.len() && final(self).flags@[k] == f;
                        if k < old(self).flags@.len() {
                            assert(old(self).flags@[k] == f);
                        }
                    }
                }
            }
        }
    }

    /// Clears the flag; returns whether it was set.
    pub fn remove_flag(&mut self, flag: ControlFlags) -> (r: bool)
        ensures
            r == old(self).flag_set().contains(flag),
            final(self).flag_set() == old(self).flag_set().remove(flag),
            final(self).spec_descriptor() == old(self).spec_descriptor(),
            final(self).spec_default() == old(self).spec_default(),
    {
        let was_set = self.has_flag(flag);
        let mut kept: Vec<ControlFlags> = Vec::new();
        let mut i: usize = 0;
        while i < self.flags.len()
            invariant
                i <= self.flags.len(),
                forall|f: ControlFlags| #[trigger] kept@.contains(f) <==> (f != flag && exists|k: int| 0 <= k < i && self.flags@[k] == f),
            decreases self.flags.len() - i,
        {
            let f = self.flags[i];
            let ghost before = kept@;
            if f != flag {
                kept.push(f);
            }
            proof {
                assert forall|g: ControlFlags| #[trigger] kept@.contains(g) <==> (g != flag && exists|k: int| 0 <= k < i + 1 && self.flags@[k] == g) by {
                    if g != flag && exists|k: int| 0 <= k < i + 1 && self.flags@[k] == g {
                        let k = choose|k: int| 0 <= k < i + 1 && self.flags@[k] == g;
                        if k == i {
                            assert(kept@.last() == g);
                        } else {
                            assert(before.contains(g));
                            let m = choose|m: int| 0 <= m < before.len() && before[m] == g;
                            assert(kept@[m] == g);
                        }
                    }
                    if kept@.contains(g) {
                        let m = choose|m: int| 0 <= m < kept@.len() && kept@[m] == g;
                        if m < before.len() {
                            assert(before[m] == g);
                            assert(before.contains(g));
                        } else {
                            assert(self.flags@[i as int] == g);
                        }
                    }
                }
            }
            i = i + 1;
        }
        self.flags = kept;
        proof {
            assert(final(self).flag_set() =~= old(self).flag_set().remove(flag));
        }
        was_set
    }

    /// Checks a value against the descriptor.
    pub fn validate(&self, value: &ControlValue) -> (r: bool)
        ensures
            r == self.spec_descriptor().admits(*value),
    {
        self.descriptor.validate(value)
    }
}

/// Whether some entry of `s` has the key `id`.
pub open spec fn has_key<V>(s: Seq<(ControlId, V)>, id: ControlId) -> bool {
    exists|i: int| 0 <= i < s.len() && (#[trigger] s[i]).0 == id
}

/// Whether no two entries of `s` share a key.
pub open spec fn keys_unique<V>(s: Seq<(ControlId, V)>) -> bool {
    forall|i: int, j: int| 0 <= i < j < s.len() ==> (#[trigger] s[i]).0 != (#[trigger] s[j]).0
}

/// The map that a list of entries stands for.
pub open spec fn pairs_map<V>(s: Seq<(ControlId, V)>) -> Map<ControlId, V> {
    Map::new(
        |id: ControlId| has_key(s, id),
        |id: ControlId| s[choose|i: int| 0 <= i < s.len() && (#[trigger] s[i]).0 == id].1,
    )
}

/// Whether every value has a description and is admitted by its descriptor.
pub open spec fn values_admitted(
    descriptions: Map<ControlId, ControlDescription>,
    values: Map<ControlId, ControlValue>,
) -> bool {
    forall|id: ControlId| #[trigger]
        values.contains_key(id) ==> descriptions.contains_key(id)
            && descriptions[id].spec_descriptor().admits(values[id])
}

/// Whether lists of descriptions and values make a consistent set of controls.
pub open spec fn controls_acceptable(
    descriptions: Seq<(ControlId, ControlDescription)>,
    values: Seq<(ControlId, ControlValue)>,
) -> bool {
    &&& keys_unique(descriptions)
    &&& keys_unique(values)
    &&& values_admitted(pairs_map(descriptions), pairs_map(values))
}

/// In a list with unique keys, the map holds each entry.
pub proof fn lemma_pairs_map_at<V>(s: Seq<(ControlId, V)>, i: int)
    requires
        keys_unique(s),
        0 <= i < s.len(),
    ensures
        pairs_map(s).contains_key(s[i].0),
        pairs_map(s)[s[i].0] == s[i].1,
{
    let id = s[i].0;
    assert(has_key(s, id));
    let j = choose|j: int| 0 <= j < s.len() && (#[trigger] s[j]).0 == id;
    if j != i {
        if j < i {
            assert(s[j].0 != s[i].0);
        } else {
            assert(s[i].0 != s[j].0);
        }
    }
}

/// Replacing the value of an entry updates the map at its key.
pub proof fn lemma_pairs_map_update<V>(s: Seq<(ControlId, V)>, k: int, v: V)
    requires
        keys_unique(s),
        0 <= k < s.len(),
    ensures
        keys_unique(s.update(k, (s[k].0, v))),
        pairs_map(s.update(k, (s[k].0, v))) == pairs_map(s).insert(s[k].0, v),
{
    let t = s.update(k, (s[k].0, v));
    assert forall|i: int, j: int| 0 <= i < j < t.len() implies (#[trigger] t[i]).0 != (#[trigger] t[j]).0 by {
        assert(s[i].0 != s[j].0);
    }
    assert forall|id: ControlId| #[trigger] has_key(t, id) == has_key(s, id) by {
        if has_key(t, id) {
            let i = choose|i: int| 0 <= i < t.len() && (#[trigger] t[i]).0 == id;
            assert(s[i].0 == id);
        }
        if has_key(s, id) {
            let i = choose|i: int| 0 <= i < s.len() && (#[trigger] s[i]).0 == id;
            assert(t[i].0 == id);
        }
    }
    assert forall|id: ControlId| #[trigger] pairs_map(t).contains_key(id) implies pairs_map(t)[id]
        == pairs_map(s).insert(s[k].0, v)[id] by {
        let i = choose|i: int| 0 <= i < t.len() && (#[trigger] t[i]).0 == id;
        lemma_pairs_map_at(t, i);
        lemma_pairs_map_at(s, i);
    }
    assert(pairs_map(t) =~= pairs_map(s).insert(s[k].0, v));
}

/// Appending an entry with a new key adds it to the map.
pub proof fn lemma_pairs_map_push<V>(s: Seq<(ControlId, V)>, id: ControlId, v: V)
    requires
        keys_unique(s),
        !has_key(s, id),
    ensures
        keys_unique(s.push((id, v))),
        pairs_map(s.push((id, v))) == pairs_map(s).insert(id, v),
{
    let t = s.push((id, v));
    assert forall|i: int, j: int| 0 <= i < j < t.len() implies (#[trigger] t[i]).0 != (#[trigger] t[j]).0 by {
        if j == s.len() {
            assert(s[i].0 != id);
        } else {
            assert(s[i].0 != s[j].0);
        }
    }
    assert forall|x: ControlId| #[trigger] has_key(t, x) == (has_key(s, x) || x == id) by {
        if has_key(t, x) {
            let i = choose|i: int| 0 <= i < t.len() && (#[trigger] t[i]).0 == x;
            if i < s.len() {
                assert(s[i].0 == x);
            }
        }
        if has_key(s, x) {
            let i = choose|i: int| 0 <= i < s.len() && (#[trigger] s[i]).0 == x;
            assert(t[i].0 == x);
        }
        if x == id {
            assert(t[s.len() as int].0 == x);
        }
    }
    assert forall|x: ControlId| #[trigger] pairs_map(t).contains_key(x) implies pairs_map(t)[x]
        == pairs_map(s).insert(id, v)[x] by {
        let i = choose|i: int| 0 <= i < t.len() && (#[trigger] t[i]).0 == x;
        lemma_pairs_map_at(t, i);
        if i < s.len() {
            lemma_pairs_map_at(s, i);
        }
    }
    assert(pairs_map(t) =~= pairs_map(s).insert(id, v));
}

/// Finds the entry with key `id`.
pub fn find_key<V>(s: &Vec<(ControlId, V)>, id: &ControlId) -> (r: Option<usize>)
    ensures
        r matches Some(i) ==> i < s.len() && s@[i as int].0 == *id,
        r is None ==> !has_key(s@, *id),
{
    let mut i: usize = 0;
    while i < s.len()
        invariant
            i <= s.len(),
            forall|k: int| 0 <= k < i ==> (#[trigger] s@[k]).0 != *id,
        decreases s.len() - i,
    {
        if s[i].0 == *id {
            return Some(i);
        }
        i = i + 1;
    }
    None
}

/// Whether no two entries share a key.
pub fn all_keys_unique<V>(s: &Vec<(ControlId, V)>) -> (r: bool)
    ensures
        r == keys_unique(s@),
{
    let mut j: usize = 0;
    while j < s.len()
        invariant
            j <= s.len(),
            forall|a: int, b: int| 0 <= a < b < j ==> (#[trigger] s@[a]).0 != (#[trigger] s@[b]).0,
        decreases s.len() - j,
    {
        let mut i: usize = 0;
        while i < j
            invariant
                i <= j < s.len(),
                forall|a: int, b: int| 0 <= a < b < j ==> (#[trigger] s@[a]).0 != (#[trigger] s@[b]).0,
                forall|a: int| 0 <= a < i ==> (#[trigger] s@[a]).0 != s@[j as int].0,
            decreases j - i,
        {
            if s[i].0 == s[j].0 {
                assert(!keys_unique(s@)) by {
                    assert(s@[i as int].0 == s@[j as int].0);
                }
                return false;
            }
            i = i + 1;
        }
        j = j + 1;
    }
    true
}

/// The controls of one device: a description per id, and the current values.
///
/// Every id with a value has a description, whose descriptor admits the value.
#[derive(Debug)]
pub struct Controls {
    descriptions: Vec<(ControlId, ControlDescription)>,
    values: Vec<(ControlId, ControlValue)>,
}

impl Controls {
    /// The descriptions, by id.
    pub closed spec fn description_map(&self) -> Map<ControlId, ControlDescription> {
        pairs_map(self.descriptions@)
    }

    /// The current values, by id.
    pub closed spec fn value_map(&self) -> Map<ControlId, ControlValue> {
        pairs_map(self.values@)
    }

    /// The invariant: every value has a description whose descriptor admits it.
    pub closed spec fn wf(&self) -> bool {
        controls_acceptable(self.descriptions@, self.values@)
    }

    /// The invariant, stated over the maps.
    pub proof fn lemma_wf_values_admitted(&self)
        requires
            self.wf(),
        ensures
            values_admitted(self.description_map(), self.value_map()),
    {
    }

    /// Builds the controls; fails when an id is listed twice, or when a value has no
    /// description or is rejected by its description's descriptor.
    pub fn new(
        device_controls: Vec<(ControlId, ControlDescription)>,
        device_values: Vec<(ControlId, ControlValue)>,
    ) -> (r: Option<Self>)
        ensures
            r is Some <==> controls_acceptable(device_controls@, device_values@),
            r matches Some(c) ==> {
                &&& c.wf()
                &&& c.description_map() == pairs_map(device_controls@)
                &&& c.value_map() == pairs_map(device_values@)
            },
    {
        if !all_keys_unique(&device_controls) || !all_keys_unique(&device_values) {
            return None;
        }
        let ghost dm = pairs_map(device_controls@);
        let ghost vm = pairs_map(device_values@);
        let mut i: usize = 0;
        while i < device_values.len()
            invariant
                i <= device_values.len(),
                keys_unique(device_controls@),
                keys_unique(device_values@),
                dm == pairs_map(device_controls@),
                vm == pairs_map(device_values@),
                forall|k: int|
                    0 <= k < i ==> dm.contains_key(#[trigger] device_values@[k].0) && dm[device_values@[k].0].spec_descriptor().admits(
                        device_values@[k].1,
                    ),
            decreases device_values.len() - i,
        {
            proof {
                lemma_pairs_map_at(device_values@, i as int);
            }
            match find_key(&device_controls, &device_values[i].0) {
                None => {
                    return None;
                },
                Some(j) => {
                    proof {
                        lemma_pairs_map_at(device_controls@, j as int);
                    }
                    if !device_controls[j].1.validate(&device_values[i].1) {
                        return None;
                    }
                },
            }
            i = i + 1;
        }
        proof {
            assert forall|id: ControlId| #[trigger] vm.contains_key(id) implies dm.contains_key(id)
                && dm[id].spec_descriptor().admits(vm[id]) by {
                let k = choose|k: int| 0 <= k < device_values@.len() && (#[trigger] device_values@[k]).0 == id;
                lemma_pairs_map_at(device_values@, k);
            }
        }
        Some(Controls { descriptions: device_controls, values: device_values })
    }

    /// Controls with no descriptions and no values.
    pub fn empty() -> (r: Self)
        ensures
            r.wf(),
            r.description_map() == Map::<ControlId, ControlDescription>::empty(),
            r.value_map() == Map::<ControlId, ControlValue>::empty(),
    {
        let r = Controls { descriptions: Vec::new(), values: Vec::new() };
        assert(r.description_map() =~= Map::<ControlId, ControlDescription>::empty());
        assert(r.value_map() =~= Map::<ControlId, ControlValue>::empty());
        r
    }

    /// Builds the controls without checking them; the caller proves them consistent.
    pub fn unchecked_new(
        device_controls: Vec<(ControlId, ControlDescription)>,
        device_values: Vec<(ControlId, ControlValue)>,
    ) -> (r: Self)
        requires
            controls_acceptable(device_controls@, device_values@),
        ensures
            r.wf(),
            r.description_map() == pairs_map(device_controls@),
            r.value_map() == pairs_map(device_values@),
    {
        Controls { descriptions: device_controls, values: device_values }
    }

    pub fn description(&self, control_id: &ControlId) -> (r: Option<&ControlDescription>)
        requires
            self.wf(),
        ensures
            r is Some <==> self.description_map().contains_key(*control_id),
            r matches Some(d) ==> *d == self.description_map()[*control_id],
    {
        match find_key(&self.descriptions, control_id) {
            Some(j) => {
                proof {
                    lemma_pairs_map_at(self.descriptions@, j as int);
                }
                Some(&self.descriptions[j].1)
            },
            None => None,
        }
    }

    pub fn value(&self, control_id: &ControlId) -> (r: Option<&ControlValue>)
        requires
            self.wf(),
        ensures
            r is Some <==> self.value_map().contains_key(*control_id),
            r matches Some(v) ==> *v == self.value_map()[*control_id],
    {
        match find_key(&self.values, control_id) {
            Some(j) => {
                proof {
                    lemma_pairs_map_at(self.values@, j as int);
                }
                Some(&self.values[j].1)
            },
            None => None,
        }
    }

    /// The descriptions, one entry per id.
    pub fn descriptions(&self) -> (r: &Vec<(ControlId, ControlDescription)>)
        requires
            self.wf(),
        ensures
            keys_unique(r@),
            pairs_map(r@) == self.description_map(),
    {
        &self.descriptions
    }

    /// The values, one entry per id.
    pub fn values(&self) -> (r: &Vec<(ControlId, ControlValue)>)
        requires
            self.wf(),
        ensures
            keys_unique(r@),
            pairs_map(r@) == self.value_map(),
    {
        &self.values
    }

    /// The ids that have a description.
    pub fn ids(&self) -> (r: Vec<ControlId>)
        requires
            self.wf(),
        ensures
            r@.no_duplicates(),
            forall|id: ControlId| r@.contains(id) <==> self.description_map().contains_key(id),
    {
        let mut ids: Vec<ControlId> = Vec::new();
        let mut i: usize = 0;
        while i < self.descriptions.len()
            invariant
                i <= self.descriptions.len(),
                ids@.len() == i,
                forall|k: int| 0 <= k < i ==> ids@[k] == (#[trigger] self.descriptions@[k]).0,
            decreases self.descriptions.len() - i,
        {
            ids.push(self.descriptions[i].0);
            i = i + 1;
        }
        proof {
            assert forall|a: int, b: int| 0 <= a < ids@.len() && 0 <= b < ids@.len() && a != b implies ids@[a] != ids@[b] by {
                if a < b {
                    assert(self.descriptions@[a].0 != self.descriptions@[b].0);
                } else {
                    assert(self.descriptions@[b].0 != self.descriptions@[a].0);
                }
            }
            assert forall|id: ControlId| ids@.contains(id) <==> self.description_map().contains_key(id) by {
                if ids@.contains(id) {
                    let k = choose|k: int| 0 <= k < ids@.len() && ids@[k] == id;
                    assert(self.descriptions@[k].0 == id);
                }
                if has_key(self.descriptions@, id) {
                    let k = choose|k: int| 0 <= k < self.descriptions@.len() && (#[trigger] self.descriptions@[k]).0 == id;
                    assert(ids@[k] == id);
                }
            }
        }
        ids
    }

    /// Sets the value of a control. Fails, and changes nothing, when the id has no
    /// description or its descriptor rejects the value.
    pub fn set_control_value(&mut self, control_id: &ControlId, value: ControlValue) -> (r: Result<(), NokhwaError>)
        requires
            old(self).wf(),
        ensures
            final(self).wf(),
            final(self).description_map() == old(self).description_map(),
            r is Ok <==> (old(self).description_map().contains_key(*control_id)
                && old(self).description_map()[*control_id].spec_descriptor().admits(value)),
            r is Ok ==> final(self).value_map() == old(self).value_map().insert(*control_id, value),
            r is Err ==> final(self).value_map() == old(self).value_map(),
            r matches Err(e) ==> e is SetPropertyError,
    {
        let j = match find_key(&self.descriptions, control_id) {
            Some(j) => j,
            None => {
                return Err(NokhwaError::SetPropertyError {
                    property: debug_text(control_id),
                    value: debug_text(&value),
                    error: "ID Not Found".to_string(),
                });
            },
        };
        proof {
            lemma_pairs_map_at(self.descriptions@, j as int);
        }
        if !self.descriptions[j].1.validate(&value) {
            return Err(NokhwaError::SetPropertyError {
                property: debug_text(control_id),
                value: debug_text(&value),
                error: "Value rejected by the control's descriptor".to_string(),
            });
        }
        let ghost before = self.values@;
        let ghost descriptions = self.description_map();
        match find_key(&self.values, control_id) {
            Some(k) => {
                proof {
                    lemma_pairs_map_update(before, k as int, value);
                }
                self.values.set(k, (*control_id, value));
                proof {
                    assert(self.values@ == before.update(k as int, (before[k as int].0, value)));
                }
            },
            None => {
                proof {
                    lemma_pairs_map_push(before, *control_id, value);
                }
                self.values.push((*control_id, value));
            },
        }
        proof {
            let vm = self.value_map();
            assert forall|id: ControlId| #[trigger] vm.contains_key(id) implies descriptions.contains_key(id)
                && descriptions[id].spec_descriptor().admits(vm[id]) by {
                if id != *control_id {
                    assert(pairs_map(before).contains_key(id));
                }
            }
        }
        Ok(())
    }
}

} // verus!
