use wasm_decoder::elements::Error;

#[test]
fn messages_without_details() {
    assert_eq!(Error::UnexpectedEof.to_string(), "Unexpected end of input");
    assert_eq!(Error::InvalidMagic.to_string(), "Invalid magic number at start of file");
    assert_eq!(Error::NonUtf8String.to_string(), "Non-UTF-8 string");
    assert_eq!(Error::InvalidVarInt32.to_string(), "Not a signed 32-bit integer");
    assert_eq!(Error::InvalidVarUint32.to_string(), "Not an unsigned 32-bit integer");
    assert_eq!(Error::InvalidVarInt64.to_string(), "Not a signed 64-bit integer");
    assert_eq!(Error::InvalidVarUint64.to_string(), "Not an unsigned 64-bit integer");
    assert_eq!(Error::InconsistentMetadata.to_string(), "Inconsistent metadata");
    assert_eq!(Error::SectionsOutOfOrder.to_string(), "Sections out of order");
    assert_eq!(
        Error::InconsistentCode.to_string(),
        "Number of function body entries and signatures does not match"
    );
    assert_eq!(Error::TooManyLocals.to_string(), "Too many locals");
}

#[test]
fn messages_with_a_number() {
    assert_eq!(Error::UnsupportedVersion(2).to_string(), "Unsupported wasm version 2");
    assert_eq!(
        Error::UnsupportedVersion(u32::MAX).to_string(),
        "Unsupported wasm version 4294967295"
    );
    assert_eq!(Error::UnknownValueType(-5).to_string(), "Invalid or unknown value type -5");
    assert_eq!(Error::UnknownValueType(0).to_string(), "Invalid or unknown value type 0");
    assert_eq!(Error::UnknownValueType(-128).to_string(), "Invalid or unknown value type -128");
    assert_eq!(
        Error::UnknownTableElementType(127).to_string(),
        "Unknown table element type 127"
    );
    assert_eq!(Error::UnknownExternalKind(4).to_string(), "Unknown external kind 4");
    assert_eq!(Error::UnknownInternalKind(10).to_string(), "Unknown internal kind 10");
    assert_eq!(Error::UnknownOpcode(192).to_string(), "Unknown opcode 192");
    assert_eq!(Error::UnknownSimdOpcode(1000).to_string(), "Unknown SIMD opcode 1000");
    assert_eq!(Error::InvalidVarUint1(2).to_string(), "Not an unsigned 1-bit integer: 2");
    assert_eq!(Error::InvalidVarInt7(255).to_string(), "Not a signed 7-bit integer: 255");
    assert_eq!(Error::InvalidSectionId(99).to_string(), "Invalid section id: 99");
    assert_eq!(Error::DuplicatedSections(1).to_string(), "Duplicated sections (1)");
    assert_eq!(Error::InvalidMemoryReference(1).to_string(), "Invalid memory reference (1)");
    assert_eq!(Error::InvalidTableReference(1).to_string(), "Invalid table reference (1)");
    assert_eq!(Error::InvalidLimitsFlags(2).to_string(), "Invalid limits flags (2)");
    assert_eq!(Error::UnknownFunctionForm(97).to_string(), "Unknown function form (97)");
    assert_eq!(Error::InvalidSegmentFlags(3).to_string(), "Invalid segment flags: 3");
    assert_eq!(
        Error::DuplicatedNameSubsections(7).to_string(),
        "Duplicated name subsections: 7"
    );
    assert_eq!(Error::UnknownNameSubsectionType(8).to_string(), "Unknown subsection type: 8");
}

#[test]
fn message_of_an_inconsistent_length() {
    assert_eq!(
        Error::InconsistentLength { expected: 5, actual: 4 }.to_string(),
        "Expected length 5, found 4"
    );
    assert_eq!(
        Error::InconsistentLength { expected: 1234567890, actual: 0 }.to_string(),
        "Expected length 1234567890, found 0"
    );
    assert_eq!(
        Error::InconsistentLength { expected: usize::MAX, actual: 1 }.to_string(),
        format!("Expected length {}, found 1", usize::MAX)
    );
}

#[test]
fn free_form_messages() {
    assert_eq!(Error::Other("too many instructions").to_string(), "too many instructions");
    assert_eq!(Error::HeapOther("I/O Error: x".to_string()).to_string(), "I/O Error: x");
    assert_eq!(Error::Other("too many instructions").description(), "too many instructions");
    assert_eq!(Error::HeapOther("I/O Error: x".to_string()).description(), "I/O Error: x");
}

#[test]
fn descriptions() {
    assert_eq!(Error::UnexpectedEof.description(), "Unexpected end of input");
    assert_eq!(Error::InvalidMagic.description(), "Invalid magic number at start of file");
    assert_eq!(Error::UnsupportedVersion(2).description(), "Unsupported wasm version");
    assert_eq!(
        Error::InconsistentLength { expected: 1, actual: 2 }.description(),
        "Inconsistent length"
    );
    assert_eq!(Error::UnknownValueType(-5).description(), "Invalid or unknown value type");
    assert_eq!(Error::UnknownTableElementType(1).description(), "Unknown table element type");
    assert_eq!(Error::NonUtf8String.description(), "Non-UTF-8 string");
    assert_eq!(Error::UnknownExternalKind(4).description(), "Unknown external kind");
    assert_eq!(Error::UnknownInternalKind(4).description(), "Unknown internal kind");
    assert_eq!(Error::UnknownOpcode(1).description(), "Unknown opcode");
    assert_eq!(Error::UnknownSimdOpcode(1).description(), "Unknown SIMD opcode");
    assert_eq!(Error::InvalidVarUint1(2).description(), "Not an unsigned 1-bit integer");
    assert_eq!(Error::InvalidVarInt32.description(), "Not a signed 32-bit integer");
    assert_eq!(Error::InvalidVarInt7(1).description(), "Not a signed 7-bit integer");
    assert_eq!(Error::InvalidVarUint32.description(), "Not an unsigned 32-bit integer");
    assert_eq!(Error::InvalidVarInt64.description(), "Not a signed 64-bit integer");
    assert_eq!(Error::InvalidVarUint64.description(), "Not an unsigned 64-bit integer");
    assert_eq!(Error::InconsistentMetadata.description(), "Inconsistent metadata");
    assert_eq!(Error::InvalidSectionId(1).description(), "Invalid section id");
    assert_eq!(Error::SectionsOutOfOrder.description(), "Sections out of order");
    assert_eq!(Error::DuplicatedSections(1).description(), "Duplicated section");
    assert_eq!(Error::InvalidMemoryReference(1).description(), "Invalid memory reference");
    assert_eq!(Error::InvalidTableReference(1).description(), "Invalid table reference");
    assert_eq!(Error::InvalidLimitsFlags(1).description(), "Invalid limits flags");
    assert_eq!(Error::UnknownFunctionForm(1).description(), "Unknown function form");
    assert_eq!(
        Error::InconsistentCode.description(),
        "Number of function body entries and signatures does not match"
    );
    assert_eq!(Error::InvalidSegmentFlags(1).description(), "Invalid segment flags");
    assert_eq!(Error::TooManyLocals.description(), "Too many locals");
    assert_eq!(Error::DuplicatedNameSubsections(1).description(), "Duplicated name subsections");
    assert_eq!(
        Error::UnknownNameSubsectionType(1).description(),
        "Unknown name subsections type"
    );
}
