//! One automatable parameter: its stable key, what the user sees, and its
//! value within a range.

use vstd::prelude::*;
use crate::error::PluginError;

verus! {

/// How a range maps positions between its bounds to values.
#[derive(Clone, Copy, Debug, PartialEq, Eq, Structural)]
pub enum RangeLaw {
    /// Evenly: equal steps in position are equal steps in value.
    Linear,
}

/// The values a parameter may take, as ranks (see [`crate::value`]).
#[derive(Clone, Copy, Debug, PartialEq, Eq, Structural)]
pub struct ParameterRange {
    /// The smallest value.
    pub min: i32,
    /// The largest value.
    pub max: i32,
    /// How positions between the bounds map to values.
    pub law: RangeLaw,
}

impl ParameterRange {
    /// A range is valid when it holds at least one value.
    pub open spec fn is_valid(self) -> bool {
        self.min <= self.max
    }

    /// Whether `value` lies within the bounds.
    pub open spec fn contains(self, value: i32) -> bool {
        self.min <= value <= self.max
    }

    /// `value` if the range contains it, else the bound nearest to it.
    pub open spec fn clamped(self, value: i32) -> i32 {
        if value < self.min {
            self.min
        } else if value > self.max {
            self.max
        } else {
            value
        }
    }

    /// The linear range from `min` to `max`.
    pub fn linear(min: i32, max: i32) -> (range: ParameterRange)
        ensures
            range == (ParameterRange { min, max, law: RangeLaw::Linear }),
    {
        ParameterRange { min, max, law: RangeLaw::Linear }
    }

    /// Whether `value` lies within the bounds.
    pub fn includes(&self, value: i32) -> (inside: bool)
        ensures
            inside == self.contains(value),
    {
        self.min <= value && value <= self.max
    }

    /// `value` if the range contains it, else the bound nearest to it.
    pub fn clamp(&self, value: i32) -> (nearest: i32)
        ensures
            nearest == self.clamped(value),
    {
        if value < self.min {
            self.min
        } else if value > self.max {
            self.max
        } else {
            value
        }
    }
}

/// What a [`ParameterDescriptor`] holds, as mathematical values.
pub struct DescriptorView {
    /// The stable key by which hosts address the parameter.
    pub key: Seq<char>,
    /// The name shown to the user.
    pub display_name: Seq<char>,
    /// The current value.
    pub value: i32,
    /// The values the parameter may take.
    pub range: ParameterRange,
    /// The value the parameter starts with.
    pub default: i32,
}

impl DescriptorView {
    /// A description is well formed when its key is not empty, its range is
    /// valid, and both its default and its value lie in the range.
    pub open spec fn wf(self) -> bool {
        &&& self.key.len() > 0
        &&& self.range.is_valid()
        &&& self.range.contains(self.default)
        &&& self.range.contains(self.value)
    }

    /// The description of a parameter that was just declared: its value is
    /// its default.
    pub open spec fn fresh(
        key: Seq<char>,
        display_name: Seq<char>,
        default: i32,
        range: ParameterRange,
    ) -> DescriptorView {
        DescriptorView { key, display_name, value: default, range, default }
    }

    /// The description after `value` was assigned: the value is clamped to
    /// the range and nothing else changes.
    pub open spec fn assigned(self, value: i32) -> DescriptorView {
        DescriptorView { value: self.range.clamped(value), ..self }
    }

    /// Whether `other` describes the same parameter, whatever its value.
    pub open spec fn same_declaration(self, other: DescriptorView) -> bool {
        &&& self.key == other.key
        &&& self.display_name == other.display_name
        &&& self.range == other.range
        &&& self.default == other.default
    }
}

/// One automatable parameter.
///
/// The key identifies the parameter to hosts and must never change between
/// versions of a plugin; the display name may. A descriptor is always well
/// formed: it cannot be built otherwise, and assignment clamps.
#[derive(Debug)]
pub struct ParameterDescriptor {
    key: String,
    display_name: String,
    value: i32,
    range: ParameterRange,
    default: i32,
}

impl View for ParameterDescriptor {
    type V = DescriptorView;

    closed spec fn view(&self) -> DescriptorView {
        DescriptorView {
            key: self.key@,
            display_name: self.display_name@,
            value: self.value,
            range: self.range,
            default: self.default,
        }
    }
}

impl ParameterDescriptor {
    /// Holds of every descriptor there is.
    #[verifier::type_invariant]
    pub open spec fn well_formed(self) -> bool {
        self@.wf()
    }

    /// Declares a parameter whose value starts at `default`.
    ///
    /// Fails with [`PluginError::MalformedDescriptor`] when `key` is empty,
    /// `range` is empty, or `default` lies outside `range`.
    pub fn new(key: &str, display_name: &str, default: i32, range: ParameterRange) -> (outcome:
        Result<ParameterDescriptor, PluginError>)
        ensures
            DescriptorView::fresh(key@, display_name@, default, range).wf() ==> outcome is Ok
                && outcome->Ok_0@ == DescriptorView::fresh(key@, display_name@, default, range),
            !DescriptorView::fresh(key@, display_name@, default, range).wf() ==> outcome is Err
                && outcome->Err_0 == PluginError::MalformedDescriptor,
    {
        if key.is_empty() || range.min > range.max || !range.includes(default) {
            return Err(PluginError::MalformedDescriptor);
        }
        Ok(
            ParameterDescriptor {
                key: key.to_owned(),
                display_name: display_name.to_owned(),
                value: default,
                range,
                default,
            },
        )
    }

    /// The stable key.
    pub fn key(&self) -> (key: &str)
        ensures
            key@ == self@.key,
    {
        self.key.as_str()
    }

    /// The name shown to the user.
    pub fn display_name(&self) -> (name: &str)
        ensures
            name@ == self@.display_name,
    {
        self.display_name.as_str()
    }

    /// The current value.
    pub fn value(&self) -> (value: i32)
        ensures
            value == self@.value,
    {
        self.value
    }

    /// The value the parameter started with.
    pub fn default_value(&self) -> (default: i32)
        ensures
            default == self@.default,
    {
        self.default
    }

    /// The values the parameter may take.
    pub fn range(&self) -> (range: ParameterRange)
        ensures
            range == self@.range,
    {
        self.range
    }

    /// Assigns `value`, clamped to the range. Never fails: hosts send values
    /// a little outside the range, and those land on the nearest bound.
    pub fn set_value(&mut self, value: i32)
        ensures
            final(self)@ == old(self)@.assigned(value),
            final(self)@.wf(),
    {
        proof {
            use_type_invariant(&*self);
        }
        self.value = self.range.clamp(value);
    }
}

/// A parameter that was just declared reads as its default.
pub proof fn lemma_fresh_reads_default(
    key: Seq<char>,
    display_name: Seq<char>,
    default: i32,
    range: ParameterRange,
)
    requires
        DescriptorView::fresh(key, display_name, default, range).wf(),
    ensures
        DescriptorView::fresh(key, display_name, default, range).value == default,
{
}

/// Assigning a value outside the range leaves the parameter on the nearest
/// bound; assigning one inside the range leaves it on exactly that value.
/// Either way the description stays well formed and describes the same
/// parameter.
pub proof fn lemma_assign_clamps(d: DescriptorView, value: i32)
    requires
        d.wf(),
    ensures
        value < d.range.min ==> d.assigned(value).value == d.range.min,
        value > d.range.max ==> d.assigned(value).value == d.range.max,
        d.range.contains(value) ==> d.assigned(value).value == value,
        d.assigned(value).wf(),
        d.assigned(value).same_declaration(d),
{
}

/// Assigning twice is the same as assigning the second value alone, and
/// assigning what a parameter already holds changes nothing.
pub proof fn lemma_assign_settles(d: DescriptorView, first: i32, second: i32)
    requires
        d.wf(),
    ensures
        d.assigned(first).assigned(second) == d.assigned(second),
        d.assigned(d.value) == d,
{
}

} // verus!
