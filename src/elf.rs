//! What the decoder reads of an ELF image, through the goblin ELF reader.

use vstd::prelude::*;

use crate::cubin::names_view;

verus! {

/// A section header of an ELF image: its name, when the section-name string
/// table holds one at the header's offset, and the byte range the section
/// occupies in the file, `None` for a section without file contents.
pub struct ElfSection {
    pub name: Option<String>,
    pub range: Option<(usize, usize)>,
}

/// What the decoder needs of an ELF image: its section headers in order and
/// the names of its symbol table by index.
pub struct ElfTables {
    pub sections: Vec<ElfSection>,
    pub symbols: Vec<Option<String>>,
}

/// What an [`ElfSection`] holds.
pub open spec fn section_view(s: ElfSection) -> (Option<Seq<char>>, Option<(usize, usize)>) {
    (
        match s.name {
            Some(n) => Some(n@),
            None => None,
        },
        s.range,
    )
}

/// What an [`ElfTables`] holds.
pub open spec fn tables_view(t: ElfTables) -> (
    Seq<(Option<Seq<char>>, Option<(usize, usize)>)>,
    Seq<Option<Seq<char>>>,
) {
    (t.sections@.map_values(|s: ElfSection| section_view(s)), names_view(t.symbols@))
}

/// The section headers and symbol names that the ELF reader finds in `data`,
/// `None` where it cannot read `data` as an ELF image.
pub uninterp spec fn elf_tables_of(data: Seq<u8>) -> Option<
    (Seq<(Option<Seq<char>>, Option<(usize, usize)>)>, Seq<Option<Seq<char>>>),
>;

/// Relies on goblin's `Elf::parse` to read the section headers and the symbol
/// table of `data`, on `Strtab::get_at` for the names, and on
/// `SectionHeader::file_range` for the file range of each section. What they
/// return depends on `data` alone.
#[verifier::external_body]
pub(crate) fn read_elf_tables(data: &[u8]) -> (r: Option<ElfTables>)
    ensures
        match r {
            Some(t) => elf_tables_of(data@) == Some(tables_view(t)),
            None => elf_tables_of(data@) is None,
        },
{
    let elf = goblin::elf::Elf::parse(data).ok()?;
    let sections = elf.section_headers.iter().map(|sh| ElfSection {
        name: elf.shdr_strtab.get_at(sh.sh_name).map(String::from),
        range: sh.file_range().map(|r| (r.start, r.end)),
    }).collect();
    let symbols = elf.syms.iter().map(|sym| elf.strtab.get_at(sym.st_name).map(String::from));
    Some(ElfTables { sections, symbols: symbols.collect() })
}

} // verus!
