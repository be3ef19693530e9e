//! The fatbinary container walker: entries, decompression, and the merge
//! of decoded cubins by architecture version.

use vstd::prelude::*;

use crate::bytes::{le_u16, le_u32, le_u64, read_u16, read_u32, read_u64};
use crate::cubin::{cubin_model, items_view, sections_view, NVInfoItem, NVInfoItemModel};
use crate::error::ParseError;

verus! {

/// The magic number that starts a fatbinary.
pub const FATBIN_MAGIC: u32 = 0xBA55ED50;

/// The only container version this decoder reads.
pub const FATBIN_VERSION: u16 = 1;

/// The length of the container header: magic, version, header size, payload size.
pub const FATBIN_HEADER_LEN: usize = 16;

/// The length of the fixed fields of an entry header.
pub const ENTRY_HEADER_LEN: usize = 64;

/// The only entry-header version this decoder reads.
pub const ENTRY_VERSION: u16 = 0x0101;

/// The kind of an entry that holds textual intermediate code.
pub const ENTRY_KIND_TEXT: u16 = 1;

/// The kind of an entry that holds an ELF image (a cubin).
pub const ENTRY_KIND_ELF: u16 = 2;

/// The largest uncompressed size the block decompressor accepts.
pub const MAX_UNCOMPRESSED: u64 = 0x7fff_ffff;

/// The decoded sections of one cubin: each section name with its items.
pub type Sections = Vec<(String, Vec<NVInfoItem>)>;

/// The model of [`Sections`].
pub type SectionsModel = Seq<(Seq<char>, Seq<NVInfoItemModel>)>;

/// The model of a decoded fatbinary: each architecture version, once, with
/// its sections, in the order in which the versions first appear.
pub type FatbinModel = Seq<(u32, SectionsModel)>;

/// The model of a decoded fatbinary.
pub open spec fn fatbin_view(v: Seq<(u32, Sections)>) -> FatbinModel {
    v.map_values(|e: (u32, Sections)| (e.0, sections_view(e.1@)))
}

/// The model of the result of [`parse`].
pub open spec fn fatbin_result_view(r: Result<Vec<(u32, Sections)>, ParseError>) -> Result<
    FatbinModel,
    ParseError,
> {
    match r {
        Ok(v) => Ok(fatbin_view(v@)),
        Err(e) => Err(e),
    }
}

/// The bytes that the LZ4 block decompressor produces from `src` when told
/// that the block holds `size` bytes; `None` where it fails.
pub uninterp spec fn lz4_block_of(src: Seq<u8>, size: i32) -> Option<Seq<u8>>;

/// Relies on `lz4::block::decompress` with an explicit size, which
/// decompresses one LZ4 block into a buffer of `size` bytes and returns the
/// part of it that was written, or an error for a malformed block.
#[verifier::external_body]
fn decompress_block(src: &[u8], size: i32) -> (r: Option<Vec<u8>>)
    ensures
        match r {
            Some(v) => lz4_block_of(src@, size) == Some(v@) && v@.len() <= size,
            None => lz4_block_of(src@, size) is None,
        },
{
    lz4::block::decompress(src, Some(size)).ok()
}

/// Whether `s` starts with the ELF magic bytes `7f 'E' 'L' 'F'`.
pub open spec fn has_elf_magic(s: Seq<u8>) -> bool {
    s.len() >= 4 && s[0] == 0x7f && s[1] == 0x45 && s[2] == 0x4c && s[3] == 0x46
}

/// The position in `s[..j]` of the last pair whose key is `key`, or -1.
pub open spec fn find_key<K, V>(s: Seq<(K, V)>, key: K, j: int) -> int
    decreases j,
{
    if j <= 0 {
        -1
    } else if s[j - 1].0 == key {
        j - 1
    } else {
        find_key(s, key, j - 1)
    }
}

/// `secs` with the section `entry` put in: it replaces a section of the same
/// name, or else comes last.
pub open spec fn upsert_section(
    secs: SectionsModel,
    entry: (Seq<char>, Seq<NVInfoItemModel>),
) -> SectionsModel {
    let k = find_key(secs, entry.0, secs.len() as int);
    if k < 0 {
        secs.push(entry)
    } else {
        secs.update(k, entry)
    }
}

/// `old` with each section of `new` put in, in order: on a name that is
/// already there the later section wins.
pub open spec fn merge_sections(old: SectionsModel, new: SectionsModel) -> SectionsModel
    decreases new.len(),
{
    if new.len() == 0 {
        old
    } else {
        upsert_section(merge_sections(old, new.drop_last()), new.last())
    }
}

/// `acc` with the sections `secs` of one cubin merged in under `arch`.
pub open spec fn merge_arch(acc: FatbinModel, arch: u32, secs: SectionsModel) -> FatbinModel {
    let k = find_key(acc, arch, acc.len() as int);
    if k < 0 {
        acc.push((arch, merge_sections(Seq::empty(), secs)))
    } else {
        acc.update(k, (arch, merge_sections(acc[k].1, secs)))
    }
}

/// The content of an entry whose payload starts at `data[p]`: the `padded`
/// raw bytes there, or, when `unc` is not zero, the `psize` bytes there
/// decompressed to exactly `unc` bytes.
pub open spec fn entry_content(data: Seq<u8>, p: int, padded: u32, psize: u32, unc: u64) -> Result<
    Seq<u8>,
    ParseError,
> {
    if unc == 0 {
        Ok(data.subrange(p, p + padded))
    } else if p + psize > data.len() {
        Err(ParseError::TruncatedInput)
    } else if unc > MAX_UNCOMPRESSED {
        Err(ParseError::SizeMismatch)
    } else {
        match lz4_block_of(data.subrange(p, p + psize), unc as i32) {
            None => Err(ParseError::FormatError),
            Some(out) => if out.len() != unc {
                Err(ParseError::SizeMismatch)
            } else {
                Ok(out)
            },
        }
    }
}

/// `acc` after the ELF entry with content `content` for architecture `arch`.
pub open spec fn elf_entry(acc: FatbinModel, arch: u32, content: Seq<u8>) -> Result<
    FatbinModel,
    ParseError,
> {
    if !has_elf_magic(content) {
        Err(ParseError::FormatError)
    } else {
        match cubin_model(content) {
            Ok(secs) => Ok(merge_arch(acc, arch, secs)),
            Err(e) => Err(e),
        }
    }
}

/// The walk over the entries from `data[c]` on, with `remaining` bytes of
/// entries still declared and `acc` decoded so far.
pub open spec fn walk(data: Seq<u8>, c: int, remaining: int, acc: FatbinModel) -> Result<
    FatbinModel,
    ParseError,
>
    decreases remaining,
{
    if remaining <= 0 {
        Ok(acc)
    } else if c + ENTRY_HEADER_LEN > data.len() {
        Err(ParseError::TruncatedInput)
    } else {
        let kind = le_u16(data, c);
        let version = le_u16(data, c + 2);
        let hsize = le_u32(data, c + 4);
        let padded = le_u32(data, c + 8);
        let psize = le_u32(data, c + 16);
        let arch = le_u32(data, c + 28);
        let unc = le_u64(data, c + 56);
        if version != ENTRY_VERSION {
            Err(ParseError::FormatError)
        } else if kind != ENTRY_KIND_TEXT && kind != ENTRY_KIND_ELF {
            Err(ParseError::UnsupportedEntryKind)
        } else if hsize < ENTRY_HEADER_LEN {
            Err(ParseError::FormatError)
        } else if c + hsize + padded > data.len() {
            Err(ParseError::TruncatedInput)
        } else {
            match entry_content(data, c + hsize, padded, psize, unc) {
                Err(e) => Err(e),
                Ok(content) => {
                    let next = if kind == ENTRY_KIND_ELF {
                        elf_entry(acc, arch, content)
                    } else {
                        Ok(acc)
                    };
                    match next {
                        Err(e) => Err(e),
                        Ok(acc2) => if hsize + padded > remaining {
                            Err(ParseError::SizeMismatch)
                        } else {
                            walk(data, c + hsize + padded, remaining - hsize - padded, acc2)
                        },
                    }
                },
            }
        }
    }
}

/// The result of decoding the fatbinary `data`.
pub open spec fn fatbin_model(data: Seq<u8>) -> Result<FatbinModel, ParseError> {
    if data.len() < FATBIN_HEADER_LEN {
        Err(ParseError::TruncatedInput)
    } else if le_u32(data, 0) != FATBIN_MAGIC || le_u16(data, 4) != FATBIN_VERSION {
        Err(ParseError::FormatError)
    } else {
        walk(data, le_u16(data, 6) as int, le_u64(data, 8) as int, Seq::empty())
    }
}

/// Puts the section `entry` into `secs`: it replaces the section of the same
/// name, or else comes last.
fn upsert_section_into(secs: &mut Sections, entry: (String, Vec<NVInfoItem>))
    ensures
        sections_view(final(secs)@) == upsert_section(
            sections_view(old(secs)@),
            (entry.0@, items_view(entry.1@)),
        ),
{
    let ghost m = sections_view(secs@);
    let mut j: usize = secs.len();
    while j > 0
        invariant
            j <= secs@.len(),
            m == sections_view(secs@),
            m == sections_view(old(secs)@),
            find_key(m, entry.0@, m.len() as int) == find_key(m, entry.0@, j as int),
        decreases j,
    {
        if secs[j - 1].0 == entry.0 {
            let ghost prev = secs@;
            let ghost e = (entry.0@, items_view(entry.1@));
            let _ = secs.remove(j - 1);
            secs.insert(j - 1, entry);
            assert(secs@ =~= prev.update(j - 1, entry));
            assert(sections_view(secs@) =~= m.update(j - 1, e));
            return;
        }
        j = j - 1;
    }
    let ghost e = (entry.0@, items_view(entry.1@));
    secs.push(entry);
    assert(sections_view(secs@) =~= m.push(e));
}

/// Puts each section of `new` into `secs`, in order.
fn merge_sections_into(secs: &mut Sections, new: Sections)
    ensures
        sections_view(final(secs)@) == merge_sections(sections_view(old(secs)@), sections_view(new@)),
{
    let ghost start = sections_view(secs@);
    let ghost all = sections_view(new@);
    let n = new.len();
    let mut rest = new;
    let mut i: usize = 0;
    while rest.len() > 0
        invariant
            i + rest@.len() == all.len(),
            all.len() == n,
            sections_view(rest@) == all.skip(i as int),
            sections_view(secs@) == merge_sections(start, all.take(i as int)),
        decreases rest@.len(),
    {
        let ghost before = sections_view(rest@);
        let entry = rest.remove(0);
        proof {
            assert(sections_view(rest@) =~= before.drop_first());
            assert(all.skip(i + 1) =~= all.skip(i as int).drop_first());
            assert(all.take(i + 1).drop_last() =~= all.take(i as int));
            assert(all.take(i + 1).last() == before[0]);
        }
        upsert_section_into(secs, entry);
        i = i + 1;
        assert(sections_view(rest@) == all.skip(i as int));
    }
    assert(all.take(i as int) =~= all);
}

/// Merges the sections `secs` of one cubin into `acc` under `arch`.
fn merge_arch_into(acc: &mut Vec<(u32, Sections)>, arch: u32, secs: Sections)
    ensures
        fatbin_view(final(acc)@) == merge_arch(fatbin_view(old(acc)@), arch, sections_view(secs@)),
{
    let ghost m = fatbin_view(acc@);
    let mut j: usize = acc.len();
    while j > 0
        invariant
            j <= acc@.len(),
            m == fatbin_view(acc@),
            m == fatbin_view(old(acc)@),
            find_key(m, arch, m.len() as int) == find_key(m, arch, j as int),
        decreases j,
    {
        if acc[j - 1].0 == arch {
            let ghost prev = acc@;
            let (a, mut cur) = acc.remove(j - 1);
            merge_sections_into(&mut cur, secs);
            let ghost e = (a, sections_view(cur@));
            let ghost entry = (a, cur);
            acc.insert(j - 1, (a, cur));
            assert(acc@ =~= prev.update(j - 1, entry));
            assert(fatbin_view(acc@) =~= m.update(j - 1, e));
            return;
        }
        j = j - 1;
    }
    let mut cur: Sections = Vec::new();
    assert(sections_view(cur@) =~= Seq::<(Seq<char>, Seq<NVInfoItemModel>)>::empty());
    merge_sections_into(&mut cur, secs);
    let ghost e = (arch, sections_view(cur@));
    acc.push((arch, cur));
    assert(fatbin_view(acc@) =~= m.push(e));
}

/// Reads the content of an entry whose payload starts at `data[p]`.
fn read_entry_content(data: &[u8], p: usize, padded: u32, psize: u32, unc: u64) -> (r: Result<
    Vec<u8>,
    ParseError,
>)
    requires
        p + padded <= data@.len(),
    ensures
        match r {
            Ok(v) => entry_content(data@, p as int, padded, psize, unc) == Ok::<Seq<u8>, ParseError>(v@),
            Err(e) => entry_content(data@, p as int, padded, psize, unc) == Err::<Seq<u8>, ParseError>(e),
        },
{
    let _len = data.len();
    if unc == 0 {
        return Ok(vstd::slice::slice_to_vec(&data[p..p + padded as usize]));
    }
    if data.len() - p < (psize as usize) {
        return Err(ParseError::TruncatedInput);
    }
    if unc > MAX_UNCOMPRESSED {
        return Err(ParseError::SizeMismatch);
    }
    match decompress_block(&data[p..p + psize as usize], unc as i32) {
        None => Err(ParseError::FormatError),
        Some(out) => if out.len() as u64 != unc {
            Err(ParseError::SizeMismatch)
        } else {
            Ok(out)
        },
    }
}

/// Decodes the cubin `content` of an ELF entry and merges it into `acc` under `arch`.
fn merge_elf_entry(acc: &mut Vec<(u32, Sections)>, arch: u32, content: &[u8]) -> (r: Result<
    (),
    ParseError,
>)
    ensures
        match r {
            Ok(()) => elf_entry(fatbin_view(old(acc)@), arch, content@) == Ok::<FatbinModel, ParseError>(
                fatbin_view(final(acc)@),
            ),
            Err(e) => elf_entry(fatbin_view(old(acc)@), arch, content@) == Err::<FatbinModel, ParseError>(e),
        },
{
    if content.len() < 4 || content[0] != 0x7f || content[1] != 0x45 || content[2] != 0x4c
        || content[3] != 0x46 {
        return Err(ParseError::FormatError);
    }
    match crate::cubin::parse(content) {
        Ok(secs) => {
            merge_arch_into(acc, arch, secs);
            Ok(())
        },
        Err(e) => Err(e),
    }
}

/// Whether `data` starts with the fatbinary magic number.
pub fn is_fatbin(data: &[u8]) -> (r: bool)
    ensures
        r == (data@.len() >= 4 && le_u32(data@, 0) == FATBIN_MAGIC),
{
    data.len() >= 4 && read_u32(data, 0) == FATBIN_MAGIC
}

/// The total size of the fatbinary that starts `data`: its header and the
/// payload the header declares.
pub fn get_fatbin_size(data: &[u8]) -> (r: usize)
    requires
        data@.len() >= FATBIN_HEADER_LEN,
        le_u32(data@, 0) == FATBIN_MAGIC,
        le_u16(data@, 6) + le_u64(data@, 8) <= usize::MAX,
    ensures
        r == le_u16(data@, 6) + le_u64(data@, 8),
{
    read_u16(data, 6) as usize + read_u64(data, 8) as usize
}

/// Decodes a fatbinary: walks its entries, decompresses those that are
/// compressed, decodes each ELF entry as a cubin and merges its sections
/// under the entry's architecture version. Textual entries are skipped.
pub fn parse(data: &[u8]) -> (r: Result<Vec<(u32, Sections)>, ParseError>)
    ensures
        fatbin_result_view(r) == fatbin_model(data@),
{
    if data.len() < FATBIN_HEADER_LEN {
        return Err(ParseError::TruncatedInput);
    }
    if read_u32(data, 0) != FATBIN_MAGIC || read_u16(data, 4) != FATBIN_VERSION {
        return Err(ParseError::FormatError);
    }
    let mut c: usize = read_u16(data, 6) as usize;
    let mut remaining: u64 = read_u64(data, 8);
    let mut out: Vec<(u32, Sections)> = Vec::new();
    assert(fatbin_view(out@) =~= Seq::<(u32, SectionsModel)>::empty());
    while remaining > 0
        invariant
            fatbin_model(data@) == walk(data@, c as int, remaining as int, fatbin_view(out@)),
        decreases remaining,
    {
        if c > data.len() || data.len() - c < ENTRY_HEADER_LEN {
            return Err(ParseError::TruncatedInput);
        }
        let kind = read_u16(data, c);
        let version = read_u16(data, c + 2);
        let hsize = read_u32(data, c + 4);
        let padded = read_u32(data, c + 8);
        let psize = read_u32(data, c + 16);
        let arch = read_u32(data, c + 28);
        let unc = read_u64(data, c + 56);
        if version != ENTRY_VERSION {
            return Err(ParseError::FormatError);
        }
        if kind != ENTRY_KIND_TEXT && kind != ENTRY_KIND_ELF {
            return Err(ParseError::UnsupportedEntryKind);
        }
        if (hsize as usize) < ENTRY_HEADER_LEN {
            return Err(ParseError::FormatError);
        }
        if data.len() - c < (hsize as usize) || data.len() - c - (hsize as usize) < (padded as usize) {
            return Err(ParseError::TruncatedInput);
        }
        let p = c + hsize as usize;
        let content = match read_entry_content(data, p, padded, psize, unc) {
            Ok(v) => v,
            Err(e) => {
                return Err(e);
            },
        };
        if kind == ENTRY_KIND_ELF {
            match merge_elf_entry(&mut out, arch, content.as_slice()) {
                Ok(()) => {},
                Err(e) => {
                    return Err(e);
                },
            }
        }
        let step = hsize as u64 + padded as u64;
        if step > remaining {
            return Err(ParseError::SizeMismatch);
        }
        remaining = remaining - step;
        c = p + padded as usize;
    }
    Ok(out)
}

/// The items of the section called `name` under architecture `arch` in `m`.
pub open spec fn section_of(m: FatbinModel, arch: u32, name: Seq<char>) -> Option<
    Seq<NVInfoItemModel>,
> {
    let k = find_key(m, arch, m.len() as int);
    if k < 0 {
        None
    } else {
        let secs = m[k].1;
        let j = find_key(secs, name, secs.len() as int);
        if j < 0 {
            None
        } else {
            Some(secs[j].1)
        }
    }
}

/// `find_key` gives the last position below `j` that holds `key`, or -1
/// when none does.
proof fn lemma_find_key<K, V>(s: Seq<(K, V)>, key: K, j: int)
    requires
        0 <= j <= s.len(),
    ensures
        find_key(s, key, j) < j,
        find_key(s, key, j) >= 0 ==> s[find_key(s, key, j)].0 == key,
        forall|t: int|
            find_key(s, key, j) < t < j && 0 <= t ==> #[trigger] s[t].0 != key,
    decreases j,
{
    if j > 0 && s[j - 1].0 != key {
        lemma_find_key(s, key, j - 1);
    }
}

/// A position that holds `key`, with no later one below `j` that does, is
/// what `find_key` gives.
proof fn lemma_find_key_at<K, V>(s: Seq<(K, V)>, key: K, j: int, k: int)
    requires
        0 <= k < j <= s.len(),
        s[k].0 == key,
        forall|t: int| k < t < j ==> #[trigger] s[t].0 != key,
    ensures
        find_key(s, key, j) == k,
    decreases j,
{
    if j - 1 != k {
        assert(s[j - 1].0 != key);
        lemma_find_key_at(s, key, j - 1, k);
    }
}

/// When no position below `j` holds `key`, `find_key` gives -1.
proof fn lemma_find_key_none<K, V>(s: Seq<(K, V)>, key: K, j: int)
    requires
        0 <= j <= s.len(),
        forall|t: int| 0 <= t < j ==> #[trigger] s[t].0 != key,
    ensures
        find_key(s, key, j) == -1,
    decreases j,
{
    if j > 0 {
        assert(s[j - 1].0 != key);
        lemma_find_key_none(s, key, j - 1);
    }
}

/// After `entry` is put into `secs`, its name finds `entry`, and any other
/// name finds what it found before.
proof fn lemma_upsert_section(secs: SectionsModel, entry: (Seq<char>, Seq<NVInfoItemModel>), name: Seq<char>)
    ensures
        ({
            let u = upsert_section(secs, entry);
            let j = find_key(u, entry.0, u.len() as int);
            0 <= j < u.len() && u[j] == entry
        }),
        name != entry.0 ==> ({
            let u = upsert_section(secs, entry);
            let j = find_key(u, name, u.len() as int);
            let i = find_key(secs, name, secs.len() as int);
            (j < 0 <==> i < 0) && (i >= 0 ==> u[j] == secs[i])
        }),
{
    let u = upsert_section(secs, entry);
    let k = find_key(secs, entry.0, secs.len() as int);
    lemma_find_key(secs, entry.0, secs.len() as int);
    lemma_find_key(secs, name, secs.len() as int);
    let i = find_key(secs, name, secs.len() as int);
    if k < 0 {
        lemma_find_key_at(u, entry.0, u.len() as int, secs.len() as int);
        if name != entry.0 {
            if i >= 0 {
                lemma_find_key_at(u, name, u.len() as int, i);
            } else {
                lemma_find_key_none(u, name, u.len() as int);
            }
        }
    } else {
        lemma_find_key_at(u, entry.0, u.len() as int, k);
        if name != entry.0 {
            if i >= 0 {
                lemma_find_key_at(u, name, u.len() as int, i);
            } else {
                lemma_find_key_none(u, name, u.len() as int);
            }
        }
    }
}

/// The architecture `arch` finds, after a merge under it, the entry it
/// merged into.
proof fn lemma_merge_arch_finds(acc: FatbinModel, arch: u32, secs: SectionsModel)
    ensures
        ({
            let m = merge_arch(acc, arch, secs);
            let k = find_key(acc, arch, acc.len() as int);
            let j = find_key(m, arch, m.len() as int);
            &&& 0 <= j < m.len()
            &&& m[j].0 == arch
            &&& k < 0 ==> m[j].1 == merge_sections(Seq::empty(), secs)
            &&& k >= 0 ==> m[j].1 == merge_sections(acc[k].1, secs)
            &&& m.len() >= acc.len()
            &&& forall|t: int| 0 <= t < acc.len() && t != j ==> m[t] == acc[t]
        }),
{
    let m = merge_arch(acc, arch, secs);
    let k = find_key(acc, arch, acc.len() as int);
    lemma_find_key(acc, arch, acc.len() as int);
    if k < 0 {
        lemma_find_key_at(m, arch, m.len() as int, acc.len() as int);
    } else {
        lemma_find_key_at(m, arch, m.len() as int, k);
    }
}

/// Merging one section into a list is putting it in.
proof fn lemma_merge_one(old: SectionsModel, entry: (Seq<char>, Seq<NVInfoItemModel>))
    ensures
        merge_sections(old, seq![entry]) == upsert_section(old, entry),
{
    let none = Seq::<(Seq<char>, Seq<NVInfoItemModel>)>::empty();
    assert(seq![entry].drop_last() =~= none);
    assert(merge_sections(old, none) == old);
    assert(seq![entry].last() == entry);
}

/// Two cubins merged one after the other under one architecture, each with
/// one section: the later section is found under its name, and the earlier
/// one stays intact under its own name when the two names differ. When the
/// names are the same, the later section wins.
pub proof fn lemma_merge_two_sections(
    acc: FatbinModel,
    arch: u32,
    first: (Seq<char>, Seq<NVInfoItemModel>),
    second: (Seq<char>, Seq<NVInfoItemModel>),
)
    ensures
        ({
            let m = merge_arch(merge_arch(acc, arch, seq![first]), arch, seq![second]);
            &&& section_of(m, arch, second.0) == Some(second.1)
            &&& first.0 != second.0 ==> section_of(m, arch, first.0) == Some(first.1)
        }),
{
    let m1 = merge_arch(acc, arch, seq![first]);
    let m = merge_arch(m1, arch, seq![second]);
    let k = find_key(acc, arch, acc.len() as int);
    lemma_merge_arch_finds(acc, arch, seq![first]);
    lemma_merge_arch_finds(m1, arch, seq![second]);
    let base = if k < 0 {
        Seq::<(Seq<char>, Seq<NVInfoItemModel>)>::empty()
    } else {
        acc[k].1
    };
    lemma_merge_one(base, first);
    let l1 = upsert_section(base, first);
    let j1 = find_key(m1, arch, m1.len() as int);
    assert(m1[j1].1 == l1);
    lemma_merge_one(l1, second);
    let l2 = upsert_section(l1, second);
    let j2 = find_key(m, arch, m.len() as int);
    assert(m[j2].1 == l2);
    lemma_upsert_section(l1, second, first.0);
    lemma_upsert_section(base, first, second.0);
}

/// A fatbinary whose header is complete but whose magic number is wrong is
/// refused with `FormatError`.
pub proof fn lemma_bad_magic_rejected(data: Seq<u8>)
    requires
        data.len() >= FATBIN_HEADER_LEN,
        le_u32(data, 0) != FATBIN_MAGIC,
    ensures
        fatbin_model(data) == Err::<FatbinModel, ParseError>(ParseError::FormatError),
{
}

/// Decoding the same fatbinary bytes twice gives the same result.
pub proof fn lemma_parse_deterministic(
    a: Seq<u8>,
    b: Seq<u8>,
    ra: Result<Vec<(u32, Sections)>, ParseError>,
    rb: Result<Vec<(u32, Sections)>, ParseError>,
)
    requires
        a == b,
        fatbin_result_view(ra) == fatbin_model(a),
        fatbin_result_view(rb) == fatbin_model(b),
    ensures
        fatbin_result_view(ra) == fatbin_result_view(rb),
{
}

} // verus!
