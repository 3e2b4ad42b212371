//! The two record kinds, their payloads, the fixed enumerations their string
//! fields are drawn from, and the error taxonomy of the store.
use vstd::prelude::*;

verus! {

/// The fixed enumeration of timber categories.
#[derive(Clone, Copy, Debug, PartialEq, Eq, Structural)]
pub enum TimberType {
    Cyprus,
    Pine,
    Oak,
    Cedar,
    Spruce,
}

/// The fixed enumeration of timber dimensions.
#[derive(Clone, Copy, Debug, PartialEq, Eq, Structural)]
pub enum TimberSize {
    S2x4,
    S2x6,
    S2x8,
    S2x10,
    S3x2,
    S3x4,
    S4x2,
    S4x4,
    S4x6,
    S6x2,
    S6x4,
    S8x2,
    S8x4,
    S10x2,
    S10x4,
}

/// The text under which a timber category appears at the service boundary.
pub open spec fn timber_type_text(t: TimberType) -> Seq<char> {
    match t {
        TimberType::Cyprus => "cyprus"@,
        TimberType::Pine => "pine"@,
        TimberType::Oak => "oak"@,
        TimberType::Cedar => "cedar"@,
        TimberType::Spruce => "spruce"@,
    }
}

/// The text under which a timber dimension appears at the service boundary.
pub open spec fn timber_size_text(s: TimberSize) -> Seq<char> {
    match s {
        TimberSize::S2x4 => "2x4"@,
        TimberSize::S2x6 => "2x6"@,
        TimberSize::S2x8 => "2x8"@,
        TimberSize::S2x10 => "2x10"@,
        TimberSize::S3x2 => "3x2"@,
        TimberSize::S3x4 => "3x4"@,
        TimberSize::S4x2 => "4x2"@,
        TimberSize::S4x4 => "4x4"@,
        TimberSize::S4x6 => "4x6"@,
        TimberSize::S6x2 => "6x2"@,
        TimberSize::S6x4 => "6x4"@,
        TimberSize::S8x2 => "8x2"@,
        TimberSize::S8x4 => "8x4"@,
        TimberSize::S10x2 => "10x2"@,
        TimberSize::S10x4 => "10x4"@,
    }
}

/// Holds exactly when `s` names a member of the timber category enumeration.
pub open spec fn is_timber_type_text(s: Seq<char>) -> bool {
    exists|t: TimberType| timber_type_text(t) == s
}

/// Holds exactly when `s` names a member of the timber dimension enumeration.
pub open spec fn is_timber_size_text(s: Seq<char>) -> bool {
    exists|z: TimberSize| timber_size_text(z) == s
}

impl TimberType {
    /// Renders the category as its boundary text.
    pub fn to_text(&self) -> (r: String)
        ensures
            r@ == timber_type_text(*self),
    {
        match self {
            TimberType::Cyprus => "cyprus".to_owned(),
            TimberType::Pine => "pine".to_owned(),
            TimberType::Oak => "oak".to_owned(),
            TimberType::Cedar => "cedar".to_owned(),
            TimberType::Spruce => "spruce".to_owned(),
        }
    }
}

impl TimberSize {
    /// Renders the dimension as its boundary text.
    pub fn to_text(&self) -> (r: String)
        ensures
            r@ == timber_size_text(*self),
    {
        match self {
            TimberSize::S2x4 => "2x4".to_owned(),
            TimberSize::S2x6 => "2x6".to_owned(),
            TimberSize::S2x8 => "2x8".to_owned(),
            TimberSize::S2x10 => "2x10".to_owned(),
            TimberSize::S3x2 => "3x2".to_owned(),
            TimberSize::S3x4 => "3x4".to_owned(),
            TimberSize::S4x2 => "4x2".to_owned(),
            TimberSize::S4x4 => "4x4".to_owned(),
            TimberSize::S4x6 => "4x6".to_owned(),
            TimberSize::S6x2 => "6x2".to_owned(),
            TimberSize::S6x4 => "6x4".to_owned(),
            TimberSize::S8x2 => "8x2".to_owned(),
            TimberSize::S8x4 => "8x4".to_owned(),
            TimberSize::S10x2 => "10x2".to_owned(),
            TimberSize::S10x4 => "10x4".to_owned(),
        }
    }
}

/// Compares two strings by their character sequences.
pub fn str_eq(a: &str, b: &str) -> (r: bool)
    ensures
        r == (a@ == b@),
{
    let oa: String = a.to_owned();
    let ob: String = b.to_owned();
    oa == ob
}

/// Parses a category name; returns the enumeration member whose text is `s`,
/// or `None` when `s` names no member.
pub fn parse_timber_type(s: &str) -> (r: Option<TimberType>)
    ensures
        match r {
            Some(t) => timber_type_text(t) == s@,
            None => !is_timber_type_text(s@),
        },
{
    if str_eq(s, "cyprus") {
        Some(TimberType::Cyprus)
    } else if str_eq(s, "pine") {
        Some(TimberType::Pine)
    } else if str_eq(s, "oak") {
        Some(TimberType::Oak)
    } else if str_eq(s, "cedar") {
        Some(TimberType::Cedar)
    } else if str_eq(s, "spruce") {
        Some(TimberType::Spruce)
    } else {
        proof {
            assert forall|t: TimberType| timber_type_text(t) != s@ by {
                match t {
                    TimberType::Cyprus => assert(timber_type_text(t) == "cyprus"@),
                    TimberType::Pine => assert(timber_type_text(t) == "pine"@),
                    TimberType::Oak => assert(timber_type_text(t) == "oak"@),
                    TimberType::Cedar => assert(timber_type_text(t) == "cedar"@),
                    TimberType::Spruce => assert(timber_type_text(t) == "spruce"@),
                }
            }
        }
        None
    }
}

/// Parses a dimension name; returns the enumeration member whose text is `s`,
/// or `None` when `s` names no member.
pub fn parse_timber_size(s: &str) -> (r: Option<TimberSize>)
    ensures
        match r {
            Some(z) => timber_size_text(z) == s@,
            None => !is_timber_size_text(s@),
        },
{
    if str_eq(s, "2x4") {
        Some(TimberSize::S2x4)
    } else if str_eq(s, "2x6") {
        Some(TimberSize::S2x6)
    } else if str_eq(s, "2x8") {
        Some(TimberSize::S2x8)
    } else if str_eq(s, "2x10") {
        Some(TimberSize::S2x10)
    } else if str_eq(s, "3x2") {
        Some(TimberSize::S3x2)
    } else if str_eq(s, "3x4") {
        Some(TimberSize::S3x4)
    } else if str_eq(s, "4x2") {
        Some(TimberSize::S4x2)
    } else if str_eq(s, "4x4") {
        Some(TimberSize::S4x4)
    } else if str_eq(s, "4x6") {
        Some(TimberSize::S4x6)
    } else if str_eq(s, "6x2") {
        Some(TimberSize::S6x2)
    } else if str_eq(s, "6x4") {
        Some(TimberSize::S6x4)
    } else if str_eq(s, "8x2") {
        Some(TimberSize::S8x2)
    } else if str_eq(s, "8x4") {
        Some(TimberSize::S8x4)
    } else if str_eq(s, "10x2") {
        Some(TimberSize::S10x2)
    } else if str_eq(s, "10x4") {
        Some(TimberSize::S10x4)
    } else {
        proof {
            assert forall|z: TimberSize| timber_size_text(z) != s@ by {
                match z {
                    TimberSize::S2x4 => assert(timber_size_text(z) == "2x4"@),
                    TimberSize::S2x6 => assert(timber_size_text(z) == "2x6"@),
                    TimberSize::S2x8 => assert(timber_size_text(z) == "2x8"@),
                    TimberSize::S2x10 => assert(timber_size_text(z) == "2x10"@),
                    TimberSize::S3x2 => assert(timber_size_text(z) == "3x2"@),
                    TimberSize::S3x4 => assert(timber_size_text(z) == "3x4"@),
                    TimberSize::S4x2 => assert(timber_size_text(z) == "4x2"@),
                    TimberSize::S4x4 => assert(timber_size_text(z) == "4x4"@),
                    TimberSize::S4x6 => assert(timber_size_text(z) == "4x6"@),
                    TimberSize::S6x2 => assert(timber_size_text(z) == "6x2"@),
                    TimberSize::S6x4 => assert(timber_size_text(z) == "6x4"@),
                    TimberSize::S8x2 => assert(timber_size_text(z) == "8x2"@),
                    TimberSize::S8x4 => assert(timber_size_text(z) == "8x4"@),
                    TimberSize::S10x2 => assert(timber_size_text(z) == "10x2"@),
                    TimberSize::S10x4 => assert(timber_size_text(z) == "10x4"@),
                }
            }
        }
        None
    }
}

/// A timber inventory record. Category and dimension are members of their
/// fixed enumerations by construction; a well-formed record also has a
/// nonzero quantity.
#[derive(Clone, Copy, Debug, PartialEq, Eq, Structural)]
pub struct Timber {
    pub id: u64,
    pub timber_type: TimberType,
    pub timber_size: TimberSize,
    pub quantity: u64,
    pub created_at: u64,
    pub updated_at: Option<u64>,
}

/// A sale record. The referenced timber identifier is checked to exist when
/// the sale is created, and may dangle afterwards.
#[derive(Clone, Copy, Debug, PartialEq, Eq, Structural)]
pub struct Sales {
    pub id: u64,
    pub timber_id: u64,
    pub quantity: u64,
    pub price: u64,
    pub created_at: u64,
    pub updated_at: Option<u64>,
}

/// The invariant of a stored timber record: quantity is nonzero.
pub open spec fn wf_timber(t: Timber) -> bool {
    t.quantity > 0
}

/// The invariant of a stored sale record: quantity and price are nonzero.
pub open spec fn wf_sales(s: Sales) -> bool {
    s.quantity > 0 && s.price > 0
}

/// The request body for creating a timber record.
pub struct TimberPayload {
    pub timber_type: String,
    pub timber_size: String,
    pub quantity: u64,
}

/// The request body for creating a sale record.
pub struct SalesPayload {
    pub timber_id: u64,
    pub quantity: u64,
    pub price: u64,
}

/// The request body for updating a timber record.
pub struct TimberUpdatePayload {
    pub id: u64,
    pub timber_type: String,
    pub timber_size: String,
    pub quantity: u64,
}

/// The request body for updating a sale record.
pub struct SalesUpdatePayload {
    pub id: u64,
    pub quantity: u64,
    pub price: u64,
}

/// The recoverable errors of the store: validation failures name the rejected
/// value, not-found failures name the identifier and the record kind.
#[derive(Debug)]
pub enum Error {
    InvalidTimberType { given: String },
    InvalidTimberSize { given: String },
    ZeroQuantity,
    ZeroPrice,
    TimberNotFound { id: u64 },
    SalesNotFound { id: u64 },
}

} // verus!
