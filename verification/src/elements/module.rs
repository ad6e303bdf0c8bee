//! The module: the preamble and the sections that follow it.

use super::primitives::Uint32;
use super::sections::{lemma_section_bounds, Section, SectionView};
use super::{lemma_views_push, views, Decoded, Deserialize, Error};
use crate::io::BufReader;
use vstd::prelude::*;

verus! {

/// The four bytes that every module starts with, taken as a little-endian
/// number: a zero byte and the letters `asm`.
pub const WASM_MAGIC: u32 = 0x6d73_6100;

/// The one version of the format that this decoder knows.
pub const WASM_VERSION: u32 = 1;

/// A module: its preamble and its sections, in the order of the input.
#[derive(Debug, Clone, PartialEq)]
pub struct Module {
    pub magic: u32,
    pub version: u32,
    pub sections: Vec<Section>,
}

/// A module as a mathematical value.
pub struct ModuleView {
    pub magic: u32,
    pub version: u32,
    pub sections: Seq<SectionView>,
}

impl View for Module {
    type V = ModuleView;

    open spec fn view(&self) -> ModuleView {
        ModuleView { magic: self.magic, version: self.version, sections: views(self.sections@) }
    }
}

impl Default for Module {
    /// The module without sections.
    fn default() -> (m: Module)
        ensures
            m.magic == WASM_MAGIC,
            m.version == WASM_VERSION,
            m.sections@.len() == 0,
    {
        Module { magic: WASM_MAGIC, version: WASM_VERSION, sections: Vec::new() }
    }
}

/// Whether the four bytes of `input` from `pos` on are the magic bytes.
pub open spec fn is_magic(input: Seq<u8>, pos: int) -> bool {
    &&& input[pos] == 0x00
    &&& input[pos + 1] == 0x61
    &&& input[pos + 2] == 0x73
    &&& input[pos + 3] == 0x6d
}

/// What the format makes of the sections that follow one another from `pos`
/// to the end of the input.  The input may end only where a section would
/// start.
pub open spec fn spec_sections(input: Seq<u8>, pos: int) -> Decoded<Seq<SectionView>>
    decreases input.len() - pos,
{
    if pos >= input.len() {
        Ok((Seq::empty(), pos))
    } else {
        match Section::spec_deserialize(input, pos) {
            Ok((section, next)) => {
                proof {
                    lemma_section_bounds(input, pos);
                }
                match spec_sections(input, next) {
                    Ok((rest, end)) => Ok((seq![section] + rest, end)),
                    Err(e) => Err(e),
                }
            },
            Err(e) => Err(e),
        }
    }
}

/// The sections that are there end with the input.
pub proof fn lemma_sections_bounds(input: Seq<u8>, pos: int)
    requires
        0 <= pos <= input.len(),
    ensures
        spec_sections(input, pos) matches Ok((_, end)) ==> end == input.len(),
    decreases input.len() - pos,
{
    if pos < input.len() {
        lemma_section_bounds(input, pos);
        if let Ok((section, next)) = Section::spec_deserialize(input, pos) {
            lemma_sections_bounds(input, next);
        }
    }
}

impl Deserialize for Module {
    /// The four magic bytes, the version, which must be 1, and the sections
    /// up to the end of the input.
    open spec fn spec_deserialize(input: Seq<u8>, pos: int) -> Decoded<ModuleView> {
        if !(0 <= pos && pos + 4 <= input.len()) {
            Err((Error::UnexpectedEof, pos))
        } else if !is_magic(input, pos) {
            Err((Error::InvalidMagic, pos + 4))
        } else {
            match Uint32::spec_deserialize(input, pos + 4) {
                Ok((version, pa)) => if version != WASM_VERSION {
                    Err((Error::UnsupportedVersion(version), pa))
                } else {
                    match spec_sections(input, pa) {
                        Ok((sections, end)) => Ok(
                            (ModuleView { magic: WASM_MAGIC, version: WASM_VERSION, sections }, end),
                        ),
                        Err(e) => Err(e),
                    }
                },
                Err(e) => Err(e),
            }
        }
    }

    proof fn lemma_deserialize_bounds(input: Seq<u8>, pos: int) {
        if 0 <= pos && pos + 8 <= input.len() {
            lemma_sections_bounds(input, pos + 8);
        }
    }

    fn deserialize(reader: &mut BufReader) -> (r: Result<Module, Error>) {
        let ghost input = reader.input();
        let ghost start = reader.position() as int;
        let buf = reader.read_exact(4)?;
        if buf[0] != 0x00 || buf[1] != 0x61 || buf[2] != 0x73 || buf[3] != 0x6d {
            return Err(Error::InvalidMagic);
        }
        let version = Uint32::deserialize(reader)?.0;
        if version != WASM_VERSION {
            return Err(Error::UnsupportedVersion(version));
        }
        let mut sections: Vec<Section> = Vec::new();
        while !reader.is_at_end()
            invariant
                input == old(reader).input(),
                start == old(reader).position(),
                reader.input() == input,
                start + 8 <= reader.position() <= input.len(),
                is_magic(input, start),
                Uint32::spec_deserialize(input, start + 4) == Ok::<(u32, int), (Error, int)>(
                    (WASM_VERSION, start + 8),
                ),
                match spec_sections(input, reader.position() as int) {
                    Ok((rest, end)) => spec_sections(input, start + 8) == Ok::<(Seq<SectionView>, int), (Error, int)>((views(sections@) + rest, end)),
                    Err(e) => spec_sections(input, start + 8) == Err::<(Seq<SectionView>, int), (Error, int)>(e),
                },
            decreases input.len() - reader.position(),
        {
            let ghost before = sections@;
            proof {
                lemma_section_bounds(input, reader.position() as int);
            }
            let section = Section::deserialize(reader)?;
            proof {
                lemma_views_push(before, section);
                if let Ok((rest, end)) = spec_sections(input, reader.position() as int) {
                    assert(views(before) + (seq![section@] + rest) =~= views(before.push(section))
                        + rest);
                }
            }
            sections.push(section);
        }
        proof {
            assert(views(sections@) + Seq::<SectionView>::empty() =~= views(sections@));
        }
        let mut m = Module::default();
        m.sections = sections;
        Ok(m)
    }
}

/// An input of at least four bytes that does not start with the magic bytes
/// is refused with `InvalidMagic`, whatever follows, and of what follows
/// nothing is read: the failure shows behind those four bytes.
pub proof fn lemma_magic_gate(input: Seq<u8>, pos: int)
    requires
        0 <= pos && pos + 4 <= input.len(),
        !is_magic(input, pos),
    ensures
        Module::spec_deserialize(input, pos) == Err::<(ModuleView, int), (Error, int)>(
            (Error::InvalidMagic, pos + 4),
        ),
{
}

/// An input that starts with the magic bytes and a version other than 1 is
/// refused with `UnsupportedVersion` and that version, whatever follows; the
/// failure shows behind the version.
pub proof fn lemma_version_gate(input: Seq<u8>, pos: int)
    requires
        0 <= pos && pos + 8 <= input.len(),
        is_magic(input, pos),
        Uint32::spec_deserialize(input, pos + 4) matches Ok((version, _)) && version != WASM_VERSION,
    ensures
        Module::spec_deserialize(input, pos) matches Err((Error::UnsupportedVersion(v), at))
            && Uint32::spec_deserialize(input, pos + 4) matches Ok((version, _)) && v == version
            && at == pos + 8,
{
}

} // verus!
