//! Section framing: the reader over a declared number of bytes, and one
//! decoder for each kind of section.

use super::export_entry::{ExportEntry, ExportEntryView};
use super::func::{Func, FuncBody, FuncBodyView};
use super::global_entry::{GlobalEntry, GlobalEntryView};
use super::import_entry::{ImportEntry, ImportEntryView, ResizableLimits, TableType};
use super::primitives::{lemma_var_uint32_canonical, CountedList, VarUint32, VarUint7};
use super::segment::{DataSegment, DataSegmentView, ElementSegment, ElementSegmentView};
use super::types::{FunctionType, FunctionTypeView};
use super::{views, Decoded, Deserialize, Error};
use crate::io::BufReader;
use vstd::prelude::*;

verus! {

/// Where the payload that is announced at `pos` lies: a `VarUint32` length,
/// then that many bytes.  The result is the position of the first byte of the
/// payload and the position behind its last.  A payload that the input
/// does not hold whole is a failure behind the length.
pub open spec fn spec_payload_range(input: Seq<u8>, pos: int) -> Result<
    (int, int),
    (Error, int),
> {
    match VarUint32::spec_deserialize(input, pos) {
        Ok((len, start)) => if start + len <= input.len() {
            Ok((start, start + len))
        } else {
            Err((Error::UnexpectedEof, start))
        },
        Err(e) => Err(e),
    }
}

/// A payload starts behind the position where it is announced and ends
/// within the input.
pub proof fn lemma_payload_range_bounds(input: Seq<u8>, pos: int)
    ensures
        spec_payload_range(input, pos) matches Ok((start, end)) ==> 0 <= pos < start <= end
            <= input.len() && end - start <= u32::MAX,
{
    VarUint32::lemma_deserialize_bounds(input, pos);
    lemma_var_uint32_canonical(input, pos);
}

/// What the format makes of a payload announced at `pos` that holds one `T`
/// and nothing else: the `T`, and the position behind the payload.  A `T`
/// that ends before the payload does is a failure.  A failure within the
/// payload shows behind the payload, which is read as a whole before it is
/// decoded.
pub open spec fn spec_framed<T: Deserialize>(input: Seq<u8>, pos: int) -> Decoded<T::V> {
    match spec_payload_range(input, pos) {
        Ok((start, end)) => match T::spec_deserialize(input.subrange(start, end), 0) {
            Ok((v, used)) => if used == end - start {
                Ok((v, end))
            } else {
                Err(
                    (
                        Error::InconsistentLength {
                            expected: (end - start) as usize,
                            actual: used as usize,
                        },
                        end,
                    ),
                )
            },
            Err((e, _)) => Err((e, end)),
        },
        Err(e) => Err(e),
    }
}

/// A reader over the payload of a section: exactly as many bytes as the
/// section declares, with a position of its own.
pub struct SectionReader {
    cursor: BufReader,
    declared_length: usize,
}

impl SectionReader {
    /// The bytes of the payload.
    pub closed spec fn input(&self) -> Seq<u8> {
        self.cursor.input()
    }

    /// The number of bytes of the payload read so far.
    pub closed spec fn position(&self) -> int {
        self.cursor.position() as int
    }

    /// The length that the section declares.
    pub closed spec fn declared_length(&self) -> usize {
        self.declared_length
    }

    /// Reads the length that `r` holds next and then the payload of that
    /// length, and opens a reader at the start of the payload.
    pub fn new(r: &mut BufReader) -> (res: Result<SectionReader, Error>)
        ensures
            final(r).input() == old(r).input(),
            match spec_payload_range(old(r).input(), old(r).position() as int) {
                Ok((start, end)) => {
                    &&& res matches Ok(rd)
                    &&& rd.input() == old(r).input().subrange(start, end)
                    &&& rd.position() == 0
                    &&& rd.declared_length() == end - start
                    &&& final(r).position() == end
                },
                Err((e, at)) => {
                    &&& res matches Err(e2)
                    &&& e2 == e
                    &&& final(r).position() == at
                },
            },
    {
        let len = VarUint32::deserialize(r)?.0;
        let declared_length = len as usize;
        let v = r.read_exact(declared_length)?;
        Ok(SectionReader { cursor: BufReader::new(v), declared_length })
    }

    /// Decodes the value at the position of this reader.
    pub fn read<T: Deserialize>(&mut self) -> (r: Result<T, Error>)
        ensures
            final(self).input() == old(self).input(),
            final(self).declared_length() == old(self).declared_length(),
            match T::spec_deserialize(old(self).input(), old(self).position()) {
                Ok((v, end)) => {
                    &&& r matches Ok(x)
                    &&& x@ == v
                    &&& final(self).position() == end
                },
                Err((e, at)) => {
                    &&& r == Err::<T, Error>(e)
                    &&& final(self).position() == at
                },
            },
    {
        T::deserialize(&mut self.cursor)
    }

    /// Ends the reading of the payload, which must have been read to its
    /// last byte.
    pub fn close(self) -> (r: Result<(), Error>)
        ensures
            match r {
                Ok(_) => self.position() == self.declared_length(),
                Err(e) => {
                    &&& self.position() != self.declared_length()
                    &&& e == (Error::InconsistentLength {
                        expected: self.declared_length(),
                        actual: self.position() as usize,
                    })
                },
            },
    {
        let position = self.cursor.position();
        let buf_length = self.declared_length;
        if position != buf_length {
            return Err(Error::InconsistentLength { expected: buf_length, actual: position });
        }
        Ok(())
    }

    /// The bytes of the payload, read and unread.
    pub fn payload(self) -> (r: Vec<u8>)
        ensures
            r@ == self.input(),
    {
        self.cursor.into_inner()
    }
}

/// A section that this decoder gives a name but no structure: its name and
/// the bytes that follow the name.
#[derive(Debug, Clone, PartialEq)]
pub struct CustomSection {
    pub name: String,
    pub payload: Vec<u8>,
}

/// A custom section as a mathematical value.
pub struct CustomSectionView {
    pub name: Seq<char>,
    pub payload: Seq<u8>,
}

impl View for CustomSection {
    type V = CustomSectionView;

    open spec fn view(&self) -> CustomSectionView {
        CustomSectionView { name: self.name@, payload: self.payload@ }
    }
}

impl Deserialize for CustomSection {
    /// A payload that starts with a name; what is left of the payload
    /// behind the name is kept as it is.
    open spec fn spec_deserialize(input: Seq<u8>, pos: int) -> Decoded<CustomSectionView> {
        match spec_payload_range(input, pos) {
            Ok((start, end)) => match String::spec_deserialize(input.subrange(start, end), 0) {
                Ok((name, used)) => Ok(
                    (
                        CustomSectionView {
                            name,
                            payload: input.subrange(start, end).subrange(used, end - start),
                        },
                        end,
                    ),
                ),
                Err((e, _)) => Err((e, end)),
            },
            Err(e) => Err(e),
        }
    }

    proof fn lemma_deserialize_bounds(input: Seq<u8>, pos: int) {
        lemma_payload_range_bounds(input, pos);
    }

    fn deserialize(reader: &mut BufReader) -> (r: Result<CustomSection, Error>) {
        let section_length = VarUint32::deserialize(reader)?.0;
        let buf = reader.read_exact(section_length as usize)?;
        let mut cursor = BufReader::new(buf);
        let name = String::deserialize(&mut cursor)?;
        let rest = cursor.len() - cursor.position();
        let payload = cursor.read_exact(rest)?;
        Ok(CustomSection { name, payload })
    }
}

/// Section with the signatures of the module.
#[derive(Debug, Clone, PartialEq)]
pub struct TypeSection(pub Vec<FunctionType>);

impl View for TypeSection {
    type V = Seq<FunctionTypeView>;

    open spec fn view(&self) -> Seq<FunctionTypeView> {
        views(self.0@)
    }
}

impl Deserialize for TypeSection {
    /// A payload that holds the counted signatures and nothing else.
    open spec fn spec_deserialize(input: Seq<u8>, pos: int) -> Decoded<Seq<FunctionTypeView>> {
        spec_framed::<CountedList<FunctionType>>(input, pos)
    }

    proof fn lemma_deserialize_bounds(input: Seq<u8>, pos: int) {
        lemma_payload_range_bounds(input, pos);
    }

    fn deserialize(reader: &mut BufReader) -> (r: Result<TypeSection, Error>) {
        let mut rd = SectionReader::new(reader)?;
        let types = rd.read::<CountedList<FunctionType>>()?.into_inner();
        rd.close()?;
        Ok(TypeSection(types))
    }
}

/// Section with the imports of the module.
#[derive(Debug, Clone, PartialEq)]
pub struct ImportSection(pub Vec<ImportEntry>);

impl View for ImportSection {
    type V = Seq<ImportEntryView>;

    open spec fn view(&self) -> Seq<ImportEntryView> {
        views(self.0@)
    }
}

impl Deserialize for ImportSection {
    /// A payload that holds the counted imports and nothing else.
    open spec fn spec_deserialize(input: Seq<u8>, pos: int) -> Decoded<Seq<ImportEntryView>> {
        spec_framed::<CountedList<ImportEntry>>(input, pos)
    }

    proof fn lemma_deserialize_bounds(input: Seq<u8>, pos: int) {
        lemma_payload_range_bounds(input, pos);
    }

    fn deserialize(reader: &mut BufReader) -> (r: Result<ImportSection, Error>) {
        let mut rd = SectionReader::new(reader)?;
        let v = rd.read::<CountedList<ImportEntry>>()?.into_inner();
        rd.close()?;
        Ok(ImportSection(v))
    }
}

/// Section with the functions of the module, by the indices of their signatures.
#[derive(Debug, Clone, PartialEq)]
pub struct FunctionSection(pub Vec<Func>);

impl View for FunctionSection {
    type V = Seq<Func>;

    open spec fn view(&self) -> Seq<Func> {
        views(self.0@)
    }
}

impl Deserialize for FunctionSection {
    /// A payload that holds the counted functions and nothing else.
    open spec fn spec_deserialize(input: Seq<u8>, pos: int) -> Decoded<Seq<Func>> {
        spec_framed::<CountedList<Func>>(input, pos)
    }

    proof fn lemma_deserialize_bounds(input: Seq<u8>, pos: int) {
        lemma_payload_range_bounds(input, pos);
    }

    fn deserialize(reader: &mut BufReader) -> (r: Result<FunctionSection, Error>) {
        let mut rd = SectionReader::new(reader)?;
        let v = rd.read::<CountedList<Func>>()?.into_inner();
        rd.close()?;
        Ok(FunctionSection(v))
    }
}

/// Section with the tables of the module.
#[derive(Debug, Clone, PartialEq)]
pub struct TableSection(pub Vec<TableType>);

impl View for TableSection {
    type V = Seq<TableType>;

    open spec fn view(&self) -> Seq<TableType> {
        views(self.0@)
    }
}

impl Deserialize for TableSection {
    /// A payload that holds the counted tables and nothing else.
    open spec fn spec_deserialize(input: Seq<u8>, pos: int) -> Decoded<Seq<TableType>> {
        spec_framed::<CountedList<TableType>>(input, pos)
    }

    proof fn lemma_deserialize_bounds(input: Seq<u8>, pos: int) {
        lemma_payload_range_bounds(input, pos);
    }

    fn deserialize(reader: &mut BufReader) -> (r: Result<TableSection, Error>) {
        let mut rd = SectionReader::new(reader)?;
        let v = rd.read::<CountedList<TableType>>()?.into_inner();
        rd.close()?;
        Ok(TableSection(v))
    }
}

/// Section with the memories of the module, by their limits.
#[derive(Default, Debug, Clone, PartialEq)]
pub struct MemorySection(pub Vec<ResizableLimits>);

impl View for MemorySection {
    type V = Seq<ResizableLimits>;

    open spec fn view(&self) -> Seq<ResizableLimits> {
        views(self.0@)
    }
}

impl Deserialize for MemorySection {
    /// A payload that holds the counted memories and nothing else.
    open spec fn spec_deserialize(input: Seq<u8>, pos: int) -> Decoded<Seq<ResizableLimits>> {
        spec_framed::<CountedList<ResizableLimits>>(input, pos)
    }

    proof fn lemma_deserialize_bounds(input: Seq<u8>, pos: int) {
        lemma_payload_range_bounds(input, pos);
    }

    fn deserialize(reader: &mut BufReader) -> (r: Result<MemorySection, Error>) {
        let mut rd = SectionReader::new(reader)?;
        let v = rd.read::<CountedList<ResizableLimits>>()?.into_inner();
        rd.close()?;
        Ok(MemorySection(v))
    }
}

/// Section with the globals of the module.
#[derive(Default, Debug, Clone, PartialEq)]
pub struct GlobalSection(pub Vec<GlobalEntry>);

impl View for GlobalSection {
    type V = Seq<GlobalEntryView>;

    open spec fn view(&self) -> Seq<GlobalEntryView> {
        views(self.0@)
    }
}

impl Deserialize for GlobalSection {
    /// A payload that holds the counted globals and nothing else.
    open spec fn spec_deserialize(input: Seq<u8>, pos: int) -> Decoded<Seq<GlobalEntryView>> {
        spec_framed::<CountedList<GlobalEntry>>(input, pos)
    }

    proof fn lemma_deserialize_bounds(input: Seq<u8>, pos: int) {
        lemma_payload_range_bounds(input, pos);
    }

    fn deserialize(reader: &mut BufReader) -> (r: Result<GlobalSection, Error>) {
        let mut rd = SectionReader::new(reader)?;
        let v = rd.read::<CountedList<GlobalEntry>>()?.into_inner();
        rd.close()?;
        Ok(GlobalSection(v))
    }
}

/// Section with the element segments of the module.
#[derive(Default, Debug, Clone, PartialEq)]
pub struct ElementSection(Vec<ElementSegment>);

impl ElementSection {
    /// The element segments of the section.
    pub fn entries(&self) -> (r: &[ElementSegment])
        ensures
            views(r@) == self@,
    {
        self.0.as_slice()
    }
}

impl View for ElementSection {
    type V = Seq<ElementSegmentView>;

    closed spec fn view(&self) -> Seq<ElementSegmentView> {
        views(self.0@)
    }
}

impl Deserialize for ElementSection {
    /// A payload that holds the counted element segments and nothing else.
    open spec fn spec_deserialize(input: Seq<u8>, pos: int) -> Decoded<Seq<ElementSegmentView>> {
        spec_framed::<CountedList<ElementSegment>>(input, pos)
    }

    proof fn lemma_deserialize_bounds(input: Seq<u8>, pos: int) {
        lemma_payload_range_bounds(input, pos);
    }

    fn deserialize(reader: &mut BufReader) -> (r: Result<ElementSection, Error>) {
        let mut rd = SectionReader::new(reader)?;
        let v = rd.read::<CountedList<ElementSegment>>()?.into_inner();
        rd.close()?;
        Ok(ElementSection(v))
    }
}

/// Section with the data segments of the module.
#[derive(Default, Debug, Clone, PartialEq)]
pub struct DataSection(Vec<DataSegment>);

impl DataSection {
    /// The data segments of the section.
    pub fn entries(&self) -> (r: &[DataSegment])
        ensures
            views(r@) == self@,
    {
        self.0.as_slice()
    }
}

impl View for DataSection {
    type V = Seq<DataSegmentView>;

    closed spec fn view(&self) -> Seq<DataSegmentView> {
        views(self.0@)
    }
}

impl Deserialize for DataSection {
    /// A payload that holds the counted data segments and nothing else.
    open spec fn spec_deserialize(input: Seq<u8>, pos: int) -> Decoded<Seq<DataSegmentView>> {
        spec_framed::<CountedList<DataSegment>>(input, pos)
    }

    proof fn lemma_deserialize_bounds(input: Seq<u8>, pos: int) {
        lemma_payload_range_bounds(input, pos);
    }

    fn deserialize(reader: &mut BufReader) -> (r: Result<DataSection, Error>) {
        let mut rd = SectionReader::new(reader)?;
        let v = rd.read::<CountedList<DataSegment>>()?.into_inner();
        rd.close()?;
        Ok(DataSection(v))
    }
}

/// Section with function bodies of the module.
#[derive(Default, Debug, Clone, PartialEq)]
pub struct CodeSection(Vec<FuncBody>);

impl CodeSection {
    /// The function bodies of the section.
    pub fn entries(&self) -> (r: &[FuncBody])
        ensures
            views(r@) == self@,
    {
        self.0.as_slice()
    }
}

impl View for CodeSection {
    type V = Seq<FuncBodyView>;

    closed spec fn view(&self) -> Seq<FuncBodyView> {
        views(self.0@)
    }
}

impl Deserialize for CodeSection {
    /// A payload that holds the counted function bodies and nothing else.
    open spec fn spec_deserialize(input: Seq<u8>, pos: int) -> Decoded<Seq<FuncBodyView>> {
        spec_framed::<CountedList<FuncBody>>(input, pos)
    }

    proof fn lemma_deserialize_bounds(input: Seq<u8>, pos: int) {
        lemma_payload_range_bounds(input, pos);
    }

    fn deserialize(reader: &mut BufReader) -> (r: Result<CodeSection, Error>) {
        let mut rd = SectionReader::new(reader)?;
        let v = rd.read::<CountedList<FuncBody>>()?.into_inner();
        rd.close()?;
        Ok(CodeSection(v))
    }
}

/// List of exports definition.
#[derive(Default, Debug, Clone, PartialEq)]
pub struct ExportSection(Vec<ExportEntry>);

impl ExportSection {
    /// The exports of the section.
    pub fn entries(&self) -> (r: &[ExportEntry])
        ensures
            views(r@) == self@,
    {
        self.0.as_slice()
    }
}

impl View for ExportSection {
    type V = Seq<ExportEntryView>;

    closed spec fn view(&self) -> Seq<ExportEntryView> {
        views(self.0@)
    }
}

impl Deserialize for ExportSection {
    /// A payload that holds the counted exports and nothing else.
    open spec fn spec_deserialize(input: Seq<u8>, pos: int) -> Decoded<Seq<ExportEntryView>> {
        spec_framed::<CountedList<ExportEntry>>(input, pos)
    }

    proof fn lemma_deserialize_bounds(input: Seq<u8>, pos: int) {
        lemma_payload_range_bounds(input, pos);
    }

    fn deserialize(reader: &mut BufReader) -> (r: Result<ExportSection, Error>) {
        let mut rd = SectionReader::new(reader)?;
        let v = rd.read::<CountedList<ExportEntry>>()?.into_inner();
        rd.close()?;
        Ok(ExportSection(v))
    }
}

/// A section of a module.
#[derive(Debug, Clone, PartialEq)]
pub enum Section {
    /// A section with an id that this decoder does not know, kept as bytes.
    Unparsed { id: u8, payload: Vec<u8> },
    /// A custom section.
    Custom(CustomSection),
    /// The signatures.
    Type(TypeSection),
    /// The imports.
    Import(ImportSection),
    /// The functions, by the indices of their signatures.
    Function(FunctionSection),
    /// The tables.
    Table(TableSection),
    /// The memories.
    Memory(MemorySection),
    /// The globals.
    Global(GlobalSection),
    /// The exports.
    Export(ExportSection),
    /// The index of the start function.
    Start(u32),
    /// The element segments.
    Element(ElementSection),
    /// The number of data segments.
    DataCount(u32),
    /// The bodies of the functions.
    Code(CodeSection),
    /// The data segments.
    Data(DataSection),
}

/// A section as a mathematical value.
pub enum SectionView {
    Unparsed { id: u8, payload: Seq<u8> },
    Custom(CustomSectionView),
    Type(Seq<FunctionTypeView>),
    Import(Seq<ImportEntryView>),
    Function(Seq<Func>),
    Table(Seq<TableType>),
    Memory(Seq<ResizableLimits>),
    Global(Seq<GlobalEntryView>),
    Export(Seq<ExportEntryView>),
    Start(u32),
    Element(Seq<ElementSegmentView>),
    DataCount(u32),
    Code(Seq<FuncBodyView>),
    Data(Seq<DataSegmentView>),
}

impl View for Section {
    type V = SectionView;

    open spec fn view(&self) -> SectionView {
        match self {
            Section::Unparsed { id, payload } => SectionView::Unparsed { id: *id, payload: payload@ },
            Section::Custom(s) => SectionView::Custom(s@),
            Section::Type(s) => SectionView::Type(s@),
            Section::Import(s) => SectionView::Import(s@),
            Section::Function(s) => SectionView::Function(s@),
            Section::Table(s) => SectionView::Table(s@),
            Section::Memory(s) => SectionView::Memory(s@),
            Section::Global(s) => SectionView::Global(s@),
            Section::Export(s) => SectionView::Export(s@),
            Section::Start(index) => SectionView::Start(*index),
            Section::Element(s) => SectionView::Element(s@),
            Section::DataCount(count) => SectionView::DataCount(*count),
            Section::Code(s) => SectionView::Code(s@),
            Section::Data(s) => SectionView::Data(s@),
        }
    }
}

/// The section that `make` builds from what `decoded` holds, if it holds
/// anything.
pub open spec fn section_of<V>(decoded: Decoded<V>, make: spec_fn(V) -> SectionView) -> Decoded<SectionView> {
    match decoded {
        Ok((v, end)) => Ok((make(v), end)),
        Err(e) => Err(e),
    }
}

/// What the format makes of the section with the id `id` whose length is
/// announced at `pos`.
#[verifier::opaque]
pub open spec fn spec_section_body(id: u8, input: Seq<u8>, pos: int) -> Decoded<SectionView> {
    match id {
        0 => section_of(
            CustomSection::spec_deserialize(input, pos),
            |s: CustomSectionView| SectionView::Custom(s),
        ),
        1 => section_of(
            TypeSection::spec_deserialize(input, pos),
            |s: Seq<FunctionTypeView>| SectionView::Type(s),
        ),
        2 => section_of(
            ImportSection::spec_deserialize(input, pos),
            |s: Seq<ImportEntryView>| SectionView::Import(s),
        ),
        3 => section_of(
            FunctionSection::spec_deserialize(input, pos),
            |s: Seq<Func>| SectionView::Function(s),
        ),
        4 => section_of(
            TableSection::spec_deserialize(input, pos),
            |s: Seq<TableType>| SectionView::Table(s),
        ),
        5 => section_of(
            MemorySection::spec_deserialize(input, pos),
            |s: Seq<ResizableLimits>| SectionView::Memory(s),
        ),
        6 => section_of(
            GlobalSection::spec_deserialize(input, pos),
            |s: Seq<GlobalEntryView>| SectionView::Global(s),
        ),
        7 => section_of(
            ExportSection::spec_deserialize(input, pos),
            |s: Seq<ExportEntryView>| SectionView::Export(s),
        ),
        8 => section_of(spec_framed::<VarUint32>(input, pos), |index: u32| SectionView::Start(index)),
        9 => section_of(
            ElementSection::spec_deserialize(input, pos),
            |s: Seq<ElementSegmentView>| SectionView::Element(s),
        ),
        10 => section_of(
            CodeSection::spec_deserialize(input, pos),
            |s: Seq<FuncBodyView>| SectionView::Code(s),
        ),
        11 => section_of(
            DataSection::spec_deserialize(input, pos),
            |s: Seq<DataSegmentView>| SectionView::Data(s),
        ),
        12 => section_of(
            spec_framed::<VarUint32>(input, pos),
            |count: u32| SectionView::DataCount(count),
        ),
        _ => match spec_payload_range(input, pos) {
            Ok((start, end)) => Ok(
                (SectionView::Unparsed { id, payload: input.subrange(start, end) }, end),
            ),
            Err(e) => Err(e),
        },
    }
}

impl Deserialize for Section {
    /// The id, one byte, then the length of the payload and the payload, of
    /// which the id says what it holds.  Where not even the id is left, the
    /// failure is `UnexpectedEof`.
    open spec fn spec_deserialize(input: Seq<u8>, pos: int) -> Decoded<SectionView> {
        match VarUint7::spec_deserialize(input, pos) {
            Ok((id, pa)) => spec_section_body(id, input, pa),
            Err((_, at)) => Err((Error::UnexpectedEof, at)),
        }
    }

    proof fn lemma_deserialize_bounds(input: Seq<u8>, pos: int) {
        lemma_section_bounds(input, pos);
    }

    fn deserialize(reader: &mut BufReader) -> (r: Result<Section, Error>) {
        proof {
            reveal(spec_section_body);
        }
        let id = match VarUint7::deserialize(reader) {
            Ok(v) => v.0,
            Err(_) => return Err(Error::UnexpectedEof),
        };
        let s = match id {
            0 => Section::Custom(CustomSection::deserialize(reader)?),
            1 => Section::Type(TypeSection::deserialize(reader)?),
            2 => Section::Import(ImportSection::deserialize(reader)?),
            3 => Section::Function(FunctionSection::deserialize(reader)?),
            4 => Section::Table(TableSection::deserialize(reader)?),
            5 => Section::Memory(MemorySection::deserialize(reader)?),
            6 => Section::Global(GlobalSection::deserialize(reader)?),
            7 => Section::Export(ExportSection::deserialize(reader)?),
            8 => {
                let mut section_reader = SectionReader::new(reader)?;
                let start_idx = section_reader.read::<VarUint32>()?;
                section_reader.close()?;
                Section::Start(start_idx.0)
            },
            9 => Section::Element(ElementSection::deserialize(reader)?),
            10 => Section::Code(CodeSection::deserialize(reader)?),
            11 => Section::Data(DataSection::deserialize(reader)?),
            12 => {
                let mut section_reader = SectionReader::new(reader)?;
                let count = section_reader.read::<VarUint32>()?;
                section_reader.close()?;
                Section::DataCount(count.0)
            },
            _ => {
                let r = SectionReader::new(reader)?;
                let payload = r.payload();
                Section::Unparsed { id, payload }
            },
        };
        Ok(s)
    }
}

/// A section takes at least its id and its length, and ends within the
/// input.
pub proof fn lemma_section_bounds(input: Seq<u8>, pos: int)
    ensures
        Section::spec_deserialize(input, pos) matches Ok((_, end)) ==> 0 <= pos && pos + 2 <= end
            <= input.len(),
{
    reveal(spec_section_body);
    lemma_payload_range_bounds(input, pos + 1);
}

/// A payload that must hold one `T` and nothing else is accepted exactly
/// where the `T` at its start ends where the payload ends: the number of
/// bytes that the `T` takes is the declared length.  A `T` that ends
/// earlier gives `InconsistentLength`; one that would end later finds the
/// payload exhausted and fails as `T` fails there.  Every failure within
/// the payload shows behind the payload.
pub proof fn lemma_framed_exact<T: Deserialize>(input: Seq<u8>, pos: int)
    ensures
        match spec_payload_range(input, pos) {
            Ok((start, end)) => match T::spec_deserialize(input.subrange(start, end), 0) {
                Ok((v, used)) => {
                    &&& 0 <= used <= end - start
                    &&& used == end - start ==> spec_framed::<T>(input, pos) == Ok::<
                        (T::V, int),
                        (Error, int),
                    >((v, end))
                    &&& used != end - start ==> spec_framed::<T>(input, pos) == Err::<
                        (T::V, int),
                        (Error, int),
                    >(
                        (
                            Error::InconsistentLength {
                                expected: (end - start) as usize,
                                actual: used as usize,
                            },
                            end,
                        ),
                    )
                },
                Err((e, _)) => spec_framed::<T>(input, pos) == Err::<(T::V, int), (Error, int)>(
                    (e, end),
                ),
            },
            Err(e) => spec_framed::<T>(input, pos) == Err::<(T::V, int), (Error, int)>(e),
        },
{
    lemma_payload_range_bounds(input, pos);
    if let Ok((start, end)) = spec_payload_range(input, pos) {
        T::lemma_deserialize_bounds(input.subrange(start, end), 0);
    }
}

/// Every section that the decoder accepts ends exactly where its declared
/// length says: behind the id, the length and as many bytes of payload as
/// the length counts.
pub proof fn lemma_section_length_exact(input: Seq<u8>, pos: int)
    ensures
        Section::spec_deserialize(input, pos) matches Ok((_, end)) ==> {
            &&& VarUint32::spec_deserialize(input, pos + 1) matches Ok((len, start))
            &&& end == start + len
        },
{
    reveal(spec_section_body);
}

} // verus!
