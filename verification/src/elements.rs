//! The elements of a module and the decoders that produce them.

use crate::io::BufReader;
use vstd::prelude::*;
use vstd::string::StringExecFns;

pub mod export_entry;
pub mod func;
pub mod global_entry;
pub mod import_entry;
pub mod module;
pub mod opcodes;
pub mod ops;
pub mod primitives;
pub mod sections;
pub mod segment;
pub mod types;

verus! {

/// The ways in which decoding fails.
#[derive(Debug, Clone)]
pub enum Error {
    /// Unexpected end of input.
    UnexpectedEof,
    /// Invalid magic.
    InvalidMagic,
    /// Unsupported version.
    UnsupportedVersion(u32),
    /// Inconsistence between declared and actual length.
    InconsistentLength {
        /// Expected length of the definition.
        expected: usize,
        /// Actual length of the definition.
        actual: usize,
    },
    /// Other static error.
    Other(&'static str),
    /// Other allocated error.
    HeapOther(String),
    /// Invalid/unknown value type declaration.
    UnknownValueType(i8),
    /// Invalid/unknown table element type declaration.
    UnknownTableElementType(i8),
    /// Non-utf8 string.
    NonUtf8String,
    /// Unknown external kind code.
    UnknownExternalKind(u8),
    /// Unknown internal kind code.
    UnknownInternalKind(u8),
    /// Unknown opcode encountered.
    UnknownOpcode(u8),
    /// Unknown SIMD opcode encountered.
    UnknownSimdOpcode(u32),
    /// Invalid VarUint1 value.
    InvalidVarUint1(u8),
    /// Invalid VarInt32 value.
    InvalidVarInt32,
    /// Invalid VarInt64 value.
    InvalidVarInt64,
    /// Invalid VarUint32 value.
    InvalidVarUint32,
    /// Invalid VarUint64 value.
    InvalidVarUint64,
    /// Inconsistent metadata.
    InconsistentMetadata,
    /// Invalid section id.
    InvalidSectionId(u8),
    /// Sections are out of order.
    SectionsOutOfOrder,
    /// Duplicated sections.
    DuplicatedSections(u8),
    /// Invalid memory reference (should be 0).
    InvalidMemoryReference(u8),
    /// Invalid table reference (should be 0).
    InvalidTableReference(u8),
    /// Invalid value used for flags in limits type.
    InvalidLimitsFlags(u8),
    /// Unknown function form (should be 0x60).
    UnknownFunctionForm(u8),
    /// Invalid varint7 (should be in -64..63 range).
    InvalidVarInt7(u8),
    /// Number of function body entries and signatures does not match.
    InconsistentCode,
    /// Only flags 0, 1, and 2 are accepted on segments.
    InvalidSegmentFlags(u32),
    /// Sum of counts of locals is greater than 2^32.
    TooManyLocals,
    /// Duplicated name subsections.
    DuplicatedNameSubsections(u8),
    /// Unknown name subsection type.
    UnknownNameSubsectionType(u8),
}

/// What a decoder makes of an input from a position on: the value that
/// starts there and the position just behind it, or the failure and the
/// position at which the failure leaves the reader.
///
/// A failure leaves the reader behind the last byte that was read before the
/// failure showed.  A read for which the input is too short takes no byte.
pub type Decoded<V> = Result<(V, int), (Error, int)>;

/// Decoding of a value from the bytes of an input, starting at a position.
pub trait Deserialize: Sized + View {
    /// What the format makes of `input` from position `pos` on.
    spec fn spec_deserialize(input: Seq<u8>, pos: int) -> Decoded<Self::V>;

    /// A decoded value ends at or behind the position where it starts, and
    /// within the input.
    proof fn lemma_deserialize_bounds(input: Seq<u8>, pos: int)
        ensures
            Self::spec_deserialize(input, pos) matches Ok((_, end)) ==> 0 <= pos <= end <= input.len(),
    ;

    /// Decodes the value at the reader's position and moves the reader behind
    /// it, or fails and leaves the reader where the failure showed.  The
    /// result and the new position are exactly what `spec_deserialize` makes
    /// of the input.
    fn deserialize(reader: &mut BufReader) -> (r: Result<Self, Error>)
        ensures
            final(reader).input() == old(reader).input(),
            match Self::spec_deserialize(old(reader).input(), old(reader).position() as int) {
                Ok((v, end)) => {
                    &&& r matches Ok(x)
                    &&& x@ == v
                    &&& final(reader).position() == end
                },
                Err((e, at)) => {
                    &&& r == Err::<Self, Error>(e)
                    &&& final(reader).position() == at
                },
            },
    ;
}

/// The views of the items of `s`, in order.
pub open spec fn views<T: View>(s: Seq<T>) -> Seq<T::V> {
    Seq::new(s.len(), |i: int| s[i]@)
}

/// Appending an item appends its view.
pub proof fn lemma_views_push<T: View>(s: Seq<T>, x: T)
    ensures
        views(s.push(x)) == views(s).push(x@),
{
    assert(views(s.push(x)) =~= views(s).push(x@));
}

/// The character of the decimal digit `d`.
pub open spec fn digit(d: int) -> char {
    if d == 0 {
        '0'
    } else if d == 1 {
        '1'
    } else if d == 2 {
        '2'
    } else if d == 3 {
        '3'
    } else if d == 4 {
        '4'
    } else if d == 5 {
        '5'
    } else if d == 6 {
        '6'
    } else if d == 7 {
        '7'
    } else if d == 8 {
        '8'
    } else {
        '9'
    }
}

/// The decimal digits of the natural number `n`, without leading zeros.
pub open spec fn digits(n: int) -> Seq<char>
    decreases n,
{
    if n < 10 {
        seq![digit(n)]
    } else {
        digits(n / 10).push(digit(n % 10))
    }
}

/// The number `n` in decimal, with a minus sign where it is negative.
pub open spec fn decimal(n: int) -> Seq<char> {
    if n < 0 {
        seq!['-'] + digits(-n)
    } else {
        digits(n)
    }
}

/// A text, a number in decimal, and a text.
pub open spec fn numbered(prefix: Seq<char>, n: int, suffix: Seq<char>) -> Seq<char> {
    prefix + decimal(n) + suffix
}

/// The decimal digit `d` as a string.
fn digit_str(d: u8) -> (r: &'static str)
    requires
        d < 10,
    ensures
        r@ == seq![digit(d as int)],
{
    let r = match d {
        0 => {
            proof {
                reveal_strlit("0");
            }
            "0"
        },
        1 => {
            proof {
                reveal_strlit("1");
            }
            "1"
        },
        2 => {
            proof {
                reveal_strlit("2");
            }
            "2"
        },
        3 => {
            proof {
                reveal_strlit("3");
            }
            "3"
        },
        4 => {
            proof {
                reveal_strlit("4");
            }
            "4"
        },
        5 => {
            proof {
                reveal_strlit("5");
            }
            "5"
        },
        6 => {
            proof {
                reveal_strlit("6");
            }
            "6"
        },
        7 => {
            proof {
                reveal_strlit("7");
            }
            "7"
        },
        8 => {
            proof {
                reveal_strlit("8");
            }
            "8"
        },
        _ => {
            proof {
                reveal_strlit("9");
            }
            "9"
        },
    };
    assert(r@ =~= seq![digit(d as int)]);
    r
}

/// Appends the decimal digits of `n` to `s`.
fn push_digits(s: &mut String, n: u128)
    ensures
        final(s)@ == old(s)@ + digits(n as int),
    decreases n,
{
    if n >= 10 {
        push_digits(s, n / 10);
    }
    let ghost before = s@;
    s.append(digit_str((n % 10) as u8));
    proof {
        if n >= 10 {
            assert(before + seq![digit((n % 10) as int)] =~= old(s)@ + digits(n as int));
        }
    }
}

/// `prefix`, then `n` in decimal, then `suffix`.
fn with_number(prefix: &str, n: i128, suffix: &str) -> (r: String)
    ensures
        r@ == numbered(prefix@, n as int, suffix@),
{
    let mut s = String::from_str(prefix);
    if n < 0 {
        proof {
            reveal_strlit("-");
        }
        s.append("-");
        assert(s@ =~= prefix@ + seq!['-']);
        let magnitude: u128 = if n == i128::MIN {
            0x8000_0000_0000_0000_0000_0000_0000_0000
        } else {
            (-n) as u128
        };
        push_digits(&mut s, magnitude);
        assert(s@ =~= prefix@ + decimal(n as int));
    } else {
        push_digits(&mut s, n as u128);
    }
    s.append(suffix);
    s
}

impl Error {
    /// A short description of the kind of failure, without its details.
    pub open spec fn spec_description(&self) -> Seq<char> {
        match self {
            Error::InconsistentLength { .. } => "Inconsistent length"@,
            Error::Other(msg) => msg@,
            Error::HeapOther(msg) => msg@,
            Error::UnexpectedEof => "Unexpected end of input"@,
            Error::InvalidMagic => "Invalid magic number at start of file"@,
            Error::UnsupportedVersion(_) => "Unsupported wasm version"@,
            Error::UnknownValueType(_) => "Invalid or unknown value type"@,
            Error::UnknownTableElementType(_) => "Unknown table element type"@,
            Error::NonUtf8String => "Non-UTF-8 string"@,
            Error::UnknownExternalKind(_) => "Unknown external kind"@,
            Error::UnknownInternalKind(_) => "Unknown internal kind"@,
            Error::UnknownOpcode(_) => "Unknown opcode"@,
            Error::UnknownSimdOpcode(_) => "Unknown SIMD opcode"@,
            Error::InvalidVarUint1(_) => "Not an unsigned 1-bit integer"@,
            Error::InvalidVarInt32 => "Not a signed 32-bit integer"@,
            Error::InvalidVarInt64 => "Not a signed 64-bit integer"@,
            Error::InvalidVarUint32 => "Not an unsigned 32-bit integer"@,
            Error::InvalidVarUint64 => "Not an unsigned 64-bit integer"@,
            Error::InconsistentMetadata => "Inconsistent metadata"@,
            Error::InvalidSectionId(_) => "Invalid section id"@,
            Error::SectionsOutOfOrder => "Sections out of order"@,
            Error::DuplicatedSections(_) => "Duplicated section"@,
            Error::InvalidMemoryReference(_) => "Invalid memory reference"@,
            Error::InvalidTableReference(_) => "Invalid table reference"@,
            Error::InvalidLimitsFlags(_) => "Invalid limits flags"@,
            Error::UnknownFunctionForm(_) => "Unknown function form"@,
            Error::InvalidVarInt7(_) => "Not a signed 7-bit integer"@,
            Error::InconsistentCode => "Number of function body entries and signatures does not match"@,
            Error::InvalidSegmentFlags(_) => "Invalid segment flags"@,
            Error::TooManyLocals => "Too many locals"@,
            Error::DuplicatedNameSubsections(_) => "Duplicated name subsections"@,
            Error::UnknownNameSubsectionType(_) => "Unknown name subsections type"@,
        }
    }

    /// A short description of the kind of failure, without its details.
    pub fn description(&self) -> (r: &str)
        ensures
            r@ == self.spec_description(),
    {
        match self {
            Error::InconsistentLength { .. } => "Inconsistent length",
            Error::Other(msg) => msg,
            Error::HeapOther(msg) => msg.as_str(),
            Error::UnexpectedEof => "Unexpected end of input",
            Error::InvalidMagic => "Invalid magic number at start of file",
            Error::UnsupportedVersion(_) => "Unsupported wasm version",
            Error::UnknownValueType(_) => "Invalid or unknown value type",
            Error::UnknownTableElementType(_) => "Unknown table element type",
            Error::NonUtf8String => "Non-UTF-8 string",
            Error::UnknownExternalKind(_) => "Unknown external kind",
            Error::UnknownInternalKind(_) => "Unknown internal kind",
            Error::UnknownOpcode(_) => "Unknown opcode",
            Error::UnknownSimdOpcode(_) => "Unknown SIMD opcode",
            Error::InvalidVarUint1(_) => "Not an unsigned 1-bit integer",
            Error::InvalidVarInt32 => "Not a signed 32-bit integer",
            Error::InvalidVarInt64 => "Not a signed 64-bit integer",
            Error::InvalidVarUint32 => "Not an unsigned 32-bit integer",
            Error::InvalidVarUint64 => "Not an unsigned 64-bit integer",
            Error::InconsistentMetadata => "Inconsistent metadata",
            Error::InvalidSectionId(_) => "Invalid section id",
            Error::SectionsOutOfOrder => "Sections out of order",
            Error::DuplicatedSections(_) => "Duplicated section",
            Error::InvalidMemoryReference(_) => "Invalid memory reference",
            Error::InvalidTableReference(_) => "Invalid table reference",
            Error::InvalidLimitsFlags(_) => "Invalid limits flags",
            Error::UnknownFunctionForm(_) => "Unknown function form",
            Error::InvalidVarInt7(_) => "Not a signed 7-bit integer",
            Error::InconsistentCode => "Number of function body entries and signatures does not match",
            Error::InvalidSegmentFlags(_) => "Invalid segment flags",
            Error::TooManyLocals => "Too many locals",
            Error::DuplicatedNameSubsections(_) => "Duplicated name subsections",
            Error::UnknownNameSubsectionType(_) => "Unknown name subsections type",
        }
    }

    /// The failure in words, with the offending byte, index or length where
    /// the failure carries one.
    pub open spec fn spec_to_string(&self) -> Seq<char> {
        match self {
            Error::InconsistentLength { expected, actual } => "Expected length "@ + decimal(
                *expected as int,
            ) + ", found "@ + decimal(*actual as int),
            Error::Other(msg) => msg@,
            Error::HeapOther(msg) => msg@,
            Error::UnexpectedEof => "Unexpected end of input"@,
            Error::InvalidMagic => "Invalid magic number at start of file"@,
            Error::UnsupportedVersion(v) => numbered("Unsupported wasm version "@, *v as int, ""@),
            Error::UnknownValueType(v) => numbered("Invalid or unknown value type "@, *v as int, ""@),
            Error::UnknownTableElementType(v) => numbered("Unknown table element type "@, *v as int, ""@),
            Error::NonUtf8String => "Non-UTF-8 string"@,
            Error::UnknownExternalKind(v) => numbered("Unknown external kind "@, *v as int, ""@),
            Error::UnknownInternalKind(v) => numbered("Unknown internal kind "@, *v as int, ""@),
            Error::UnknownOpcode(v) => numbered("Unknown opcode "@, *v as int, ""@),
            Error::UnknownSimdOpcode(v) => numbered("Unknown SIMD opcode "@, *v as int, ""@),
            Error::InvalidVarUint1(v) => numbered("Not an unsigned 1-bit integer: "@, *v as int, ""@),
            Error::InvalidVarInt32 => "Not a signed 32-bit integer"@,
            Error::InvalidVarInt64 => "Not a signed 64-bit integer"@,
            Error::InvalidVarUint32 => "Not an unsigned 32-bit integer"@,
            Error::InvalidVarUint64 => "Not an unsigned 64-bit integer"@,
            Error::InconsistentMetadata => "Inconsistent metadata"@,
            Error::InvalidSectionId(v) => numbered("Invalid section id: "@, *v as int, ""@),
            Error::SectionsOutOfOrder => "Sections out of order"@,
            Error::DuplicatedSections(v) => numbered("Duplicated sections ("@, *v as int, ")"@),
            Error::InvalidMemoryReference(v) => numbered("Invalid memory reference ("@, *v as int, ")"@),
            Error::InvalidTableReference(v) => numbered("Invalid table reference ("@, *v as int, ")"@),
            Error::InvalidLimitsFlags(v) => numbered("Invalid limits flags ("@, *v as int, ")"@),
            Error::UnknownFunctionForm(v) => numbered("Unknown function form ("@, *v as int, ")"@),
            Error::InvalidVarInt7(v) => numbered("Not a signed 7-bit integer: "@, *v as int, ""@),
            Error::InconsistentCode => "Number of function body entries and signatures does not match"@,
            Error::InvalidSegmentFlags(v) => numbered("Invalid segment flags: "@, *v as int, ""@),
            Error::TooManyLocals => "Too many locals"@,
            Error::DuplicatedNameSubsections(v) => numbered("Duplicated name subsections: "@, *v as int, ""@),
            Error::UnknownNameSubsectionType(v) => numbered("Unknown subsection type: "@, *v as int, ""@),
        }
    }

    /// The failure in words, with the offending byte, index or length where
    /// the failure carries one.
    pub fn to_string(&self) -> (r: String)
        ensures
            r@ == self.spec_to_string(),
    {
        match self {
            Error::InconsistentLength { expected, actual } => {
                let mut s = with_number("Expected length ", *expected as i128, ", found ");
                let tail = with_number("", *actual as i128, "");
                proof {
                    reveal_strlit("");
                    assert(tail@ =~= decimal(*actual as int));
                }
                s.append(tail.as_str());
                s
            },
            Error::Other(msg) => String::from_str(msg),
            Error::HeapOther(msg) => msg.clone(),
            Error::UnexpectedEof => String::from_str("Unexpected end of input"),
            Error::InvalidMagic => String::from_str("Invalid magic number at start of file"),
            Error::UnsupportedVersion(v) => with_number("Unsupported wasm version ", *v as i128, ""),
            Error::UnknownValueType(v) => with_number("Invalid or unknown value type ", *v as i128, ""),
            Error::UnknownTableElementType(v) => with_number("Unknown table element type ", *v as i128, ""),
            Error::NonUtf8String => String::from_str("Non-UTF-8 string"),
            Error::UnknownExternalKind(v) => with_number("Unknown external kind ", *v as i128, ""),
            Error::UnknownInternalKind(v) => with_number("Unknown internal kind ", *v as i128, ""),
            Error::UnknownOpcode(v) => with_number("Unknown opcode ", *v as i128, ""),
            Error::UnknownSimdOpcode(v) => with_number("Unknown SIMD opcode ", *v as i128, ""),
            Error::InvalidVarUint1(v) => with_number("Not an unsigned 1-bit integer: ", *v as i128, ""),
            Error::InvalidVarInt32 => String::from_str("Not a signed 32-bit integer"),
            Error::InvalidVarInt64 => String::from_str("Not a signed 64-bit integer"),
            Error::InvalidVarUint32 => String::from_str("Not an unsigned 32-bit integer"),
            Error::InvalidVarUint64 => String::from_str("Not an unsigned 64-bit integer"),
            Error::InconsistentMetadata => String::from_str("Inconsistent metadata"),
            Error::InvalidSectionId(v) => with_number("Invalid section id: ", *v as i128, ""),
            Error::SectionsOutOfOrder => String::from_str("Sections out of order"),
            Error::DuplicatedSections(v) => with_number("Duplicated sections (", *v as i128, ")"),
            Error::InvalidMemoryReference(v) => with_number("Invalid memory reference (", *v as i128, ")"),
            Error::InvalidTableReference(v) => with_number("Invalid table reference (", *v as i128, ")"),
            Error::InvalidLimitsFlags(v) => with_number("Invalid limits flags (", *v as i128, ")"),
            Error::UnknownFunctionForm(v) => with_number("Unknown function form (", *v as i128, ")"),
            Error::InvalidVarInt7(v) => with_number("Not a signed 7-bit integer: ", *v as i128, ""),
            Error::InconsistentCode => String::from_str("Number of function body entries and signatures does not match"),
            Error::InvalidSegmentFlags(v) => with_number("Invalid segment flags: ", *v as i128, ""),
            Error::TooManyLocals => String::from_str("Too many locals"),
            Error::DuplicatedNameSubsections(v) => with_number("Duplicated name subsections: ", *v as i128, ""),
            Error::UnknownNameSubsectionType(v) => with_number("Unknown subsection type: ", *v as i128, ""),
        }
    }
}

} // verus!
