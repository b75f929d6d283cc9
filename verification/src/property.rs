//! Object properties and the null-safe property accessors.
//!
//! An accessor never touches the native side on a null handle: each query
//! function answers the property code to send, or nothing at all when the
//! handle is null or the property has no implemented form. The native reply
//! is then decoded by plain functions on plain values.

use vstd::prelude::*;
use crate::handle::Handle;

verus! {

/// A property of a native simulation object. Only the codes that the decode
/// paths exercise are enumerated; the native numbering has gaps beyond them.
#[derive(Clone, Copy, Debug, PartialEq, Eq, Structural)]
pub enum Property {
    Undefined,
    Type,
    Name,
    FullName,
    Size,
    File,
    LineNo,
    TopModule,
    CellInstance,
    DefName,
    TimeUnit,
    TimePrecision,
    DefFile,
    DefLineNo,
    Scalar,
    Vector,
    Direction,
    NetType,
    Array,
    PortIndex,
    Polarity,
    DataPolarity,
    Edge,
    TchkType,
    ConstType,
    FuncType,
    UserDefn,
    Automatic,
    ConstantSelect,
    Signed,
    LocalParam,
}

impl Property {
    /// The native integer code of this property.
    pub open spec fn spec_code(self) -> i32 {
        match self {
            Property::Undefined => -1i32,
            Property::Type => 1,
            Property::Name => 2,
            Property::FullName => 3,
            Property::Size => 4,
            Property::File => 5,
            Property::LineNo => 6,
            Property::TopModule => 7,
            Property::CellInstance => 8,
            Property::DefName => 9,
            Property::TimeUnit => 11,
            Property::TimePrecision => 12,
            Property::DefFile => 15,
            Property::DefLineNo => 16,
            Property::Scalar => 17,
            Property::Vector => 18,
            Property::Direction => 20,
            Property::NetType => 22,
            Property::Array => 28,
            Property::PortIndex => 29,
            Property::Polarity => 34,
            Property::DataPolarity => 35,
            Property::Edge => 36,
            Property::TchkType => 38,
            Property::ConstType => 40,
            Property::FuncType => 44,
            Property::UserDefn => 45,
            Property::Automatic => 50,
            Property::ConstantSelect => 53,
            Property::Signed => 65,
            Property::LocalParam => 70,
        }
    }

    /// The native integer code of this property.
    pub fn code(&self) -> (r: i32)
        ensures
            r == self.spec_code(),
    {
        match self {
            Property::Undefined => -1i32,
            Property::Type => 1,
            Property::Name => 2,
            Property::FullName => 3,
            Property::Size => 4,
            Property::File => 5,
            Property::LineNo => 6,
            Property::TopModule => 7,
            Property::CellInstance => 8,
            Property::DefName => 9,
            Property::TimeUnit => 11,
            Property::TimePrecision => 12,
            Property::DefFile => 15,
            Property::DefLineNo => 16,
            Property::Scalar => 17,
            Property::Vector => 18,
            Property::Direction => 20,
            Property::NetType => 22,
            Property::Array => 28,
            Property::PortIndex => 29,
            Property::Polarity => 34,
            Property::DataPolarity => 35,
            Property::Edge => 36,
            Property::TchkType => 38,
            Property::ConstType => 40,
            Property::FuncType => 44,
            Property::UserDefn => 45,
            Property::Automatic => 50,
            Property::ConstantSelect => 53,
            Property::Signed => 65,
            Property::LocalParam => 70,
        }
    }

    /// The properties whose value is read as a native string.
    pub open spec fn has_str_form(self) -> bool {
        self == Property::Name || self == Property::FullName || self == Property::DefName
            || self == Property::File || self == Property::DefFile || self == Property::Type
    }

    /// The properties whose value is read as a native boolean.
    pub open spec fn has_bool_form(self) -> bool {
        self == Property::TopModule || self == Property::CellInstance
    }
}

/// The direction of a port.
#[derive(Clone, Copy, Debug, PartialEq, Eq, Structural)]
pub enum Direction {
    Input,
    Output,
    Inout,
    MixedIO,
    NoDirection,
}

impl Direction {
    /// The direction a native integer code stands for, if any.
    pub open spec fn spec_from_code(code: i32) -> Option<Direction> {
        if code == 1 {
            Some(Direction::Input)
        } else if code == 2 {
            Some(Direction::Output)
        } else if code == 3 {
            Some(Direction::Inout)
        } else if code == 4 {
            Some(Direction::MixedIO)
        } else if code == 5 {
            Some(Direction::NoDirection)
        } else {
            None
        }
    }

    /// Decode a native direction code; an unrecognized code is an empty
    /// result, not an error.
    pub fn from_code(code: i32) -> (r: Option<Direction>)
        ensures
            r == Direction::spec_from_code(code),
    {
        if code == 1 {
            Some(Direction::Input)
        } else if code == 2 {
            Some(Direction::Output)
        } else if code == 3 {
            Some(Direction::Inout)
        } else if code == 4 {
            Some(Direction::MixedIO)
        } else if code == 5 {
            Some(Direction::NoDirection)
        } else {
            None
        }
    }
}

/// The boolean a native property answer stands for: any non-zero value is
/// true.
pub fn bool_from_native(v: i32) -> (r: bool)
    ensures
        r == (v != 0),
{
    v != 0
}

impl Handle {
    /// What `str_property_query` answers: the property code, or nothing on a
    /// null handle or a property with no string form.
    pub open spec fn spec_str_property_query(self, property: Property) -> Option<i32> {
        if self.spec_is_null() || !property.has_str_form() {
            None
        } else {
            Some(property.spec_code())
        }
    }

    /// The code a string-property query on this handle sends to the native
    /// side, or nothing at all: a null handle issues no native call, and a
    /// property without a string form is an empty result, silently.
    pub fn str_property_query(&self, property: &Property) -> (q: Option<i32>)
        ensures
            q == self.spec_str_property_query(*property),
    {
        if self.is_null() {
            return None;
        }
        match property {
            Property::Name | Property::FullName | Property::DefName | Property::File
                | Property::DefFile | Property::Type => Some(property.code()),
            _ => None,
        }
    }

    /// What `bool_property_query` answers: the property code, or nothing on
    /// a null handle or a property with no boolean form.
    pub open spec fn spec_bool_property_query(self, property: Property) -> Option<i32> {
        if self.spec_is_null() || !property.has_bool_form() {
            None
        } else {
            Some(property.spec_code())
        }
    }

    /// The code a boolean-property query on this handle sends to the native
    /// side, or nothing at all: a null handle issues no native call, and a
    /// property without a boolean form is an empty result, silently.
    pub fn bool_property_query(&self, property: &Property) -> (q: Option<i32>)
        ensures
            q == self.spec_bool_property_query(*property),
    {
        if self.is_null() {
            return None;
        }
        match property {
            Property::TopModule | Property::CellInstance => Some(property.code()),
            _ => None,
        }
    }

    /// What `direction_query` answers: the direction property code, or
    /// nothing on a null handle.
    pub open spec fn spec_direction_query(self) -> Option<i32> {
        if self.spec_is_null() {
            None
        } else {
            Some(Property::Direction.spec_code())
        }
    }

    /// The code a direction query on this handle sends to the native side,
    /// or nothing at all: a null handle issues no native call and its
    /// direction is empty.
    pub fn direction_query(&self) -> (q: Option<i32>)
        ensures
            q == self.spec_direction_query(),
    {
        if self.is_null() {
            None
        } else {
            Some(Property::Direction.code())
        }
    }
}

} // verus!
