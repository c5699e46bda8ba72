//! The node types of a property list.

use vstd::prelude::*;

verus! {

/// The type of a node.
#[allow(non_camel_case_types)]
#[derive(Copy, Clone, Debug, PartialEq, Eq, Structural)]
pub enum plist_type {
    /// The node is a boolean.
    Boolean,
    /// The node is an integer (u64).
    UInt,
    /// The node is a real number (f64).
    Real,
    /// The node is a string.
    String,
    /// The node is an array.
    Array,
    /// The node is a dictionary (map).
    Dict,
    /// The node is a date/timestamp.
    Date,
    /// The node is raw binary data.
    Data,
    /// The node is a dictionary key.
    Key,
    /// The node is a unique ID used in archived object graph.
    Uid,
    /// No type.
    NoType,
}

pub const PLIST_BOOLEAN: plist_type = plist_type::Boolean;

pub const PLIST_UINT: plist_type = plist_type::UInt;

pub const PLIST_REAL: plist_type = plist_type::Real;

pub const PLIST_STRING: plist_type = plist_type::String;

pub const PLIST_ARRAY: plist_type = plist_type::Array;

pub const PLIST_DICT: plist_type = plist_type::Dict;

pub const PLIST_DATE: plist_type = plist_type::Date;

pub const PLIST_DATA: plist_type = plist_type::Data;

pub const PLIST_KEY: plist_type = plist_type::Key;

pub const PLIST_UID: plist_type = plist_type::Uid;

pub const PLIST_NONE: plist_type = plist_type::NoType;

impl plist_type {
    /// The name of the type.
    pub fn name(self) -> (r: &'static str)
        ensures
            r@ == self.spec_name(),
    {
        match self {
            plist_type::Boolean => "Boolean",
            plist_type::UInt => "UInt",
            plist_type::Real => "Real",
            plist_type::String => "String",
            plist_type::Array => "Array",
            plist_type::Dict => "Dict",
            plist_type::Date => "Date",
            plist_type::Data => "Data",
            plist_type::Key => "Key",
            plist_type::Uid => "Uid",
            plist_type::NoType => "None",
        }
    }

    pub open spec fn spec_name(self) -> Seq<char> {
        match self {
            plist_type::Boolean => "Boolean"@,
            plist_type::UInt => "UInt"@,
            plist_type::Real => "Real"@,
            plist_type::String => "String"@,
            plist_type::Array => "Array"@,
            plist_type::Dict => "Dict"@,
            plist_type::Date => "Date"@,
            plist_type::Data => "Data"@,
            plist_type::Key => "Key"@,
            plist_type::Uid => "Uid"@,
            plist_type::NoType => "None"@,
        }
    }
}

impl plist_type {
    /// The number that stands for the type in the C interface.
    pub open spec fn spec_code(self) -> u32 {
        match self {
            plist_type::Boolean => 0u32,
            plist_type::UInt => 1u32,
            plist_type::Real => 2u32,
            plist_type::String => 3u32,
            plist_type::Array => 4u32,
            plist_type::Dict => 5u32,
            plist_type::Date => 6u32,
            plist_type::Data => 7u32,
            plist_type::Key => 8u32,
            plist_type::Uid => 9u32,
            plist_type::NoType => 10u32,
        }
    }

    /// The number that stands for the type.
    pub fn code(self) -> (r: u32)
        ensures
            r == self.spec_code(),
    {
        match self {
            plist_type::Boolean => 0,
            plist_type::UInt => 1,
            plist_type::Real => 2,
            plist_type::String => 3,
            plist_type::Array => 4,
            plist_type::Dict => 5,
            plist_type::Date => 6,
            plist_type::Data => 7,
            plist_type::Key => 8,
            plist_type::Uid => 9,
            plist_type::NoType => 10,
        }
    }

    /// The type that a number stands for, if it stands for one.
    pub fn from_code(code: u32) -> (r: Option<plist_type>)
        ensures
            r matches Some(t) ==> t.spec_code() == code,
            r is None ==> forall|t: plist_type| t.spec_code() != code,
    {
        match code {
            0 => Some(plist_type::Boolean),
            1 => Some(plist_type::UInt),
            2 => Some(plist_type::Real),
            3 => Some(plist_type::String),
            4 => Some(plist_type::Array),
            5 => Some(plist_type::Dict),
            6 => Some(plist_type::Date),
            7 => Some(plist_type::Data),
            8 => Some(plist_type::Key),
            9 => Some(plist_type::Uid),
            10 => Some(plist_type::NoType),
            _ => None,
        }
    }
}

} // verus!
