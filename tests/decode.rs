use cuda_parsers::cubin::{
    decode_section, parse as parse_cubin, NVInfoAttribute, NVInfoFormat, NVInfoItem, NVInfoSval,
    NVInfoSvalValue, NVInfoValue,
};
use cuda_parsers::fatbin::{get_fatbin_size, is_fatbin, parse as parse_fatbin};
use cuda_parsers::ParseError;

const SHT_PROGBITS: u32 = 1;
const SHT_SYMTAB: u32 = 2;
const SHT_STRTAB: u32 = 3;

struct Section {
    name: &'static str,
    kind: u32,
    data: Vec<u8>,
    link: u32,
    entsize: u64,
}

fn push16(v: &mut Vec<u8>, x: u16) {
    v.extend_from_slice(&x.to_le_bytes());
}

fn push32(v: &mut Vec<u8>, x: u32) {
    v.extend_from_slice(&x.to_le_bytes());
}

fn push64(v: &mut Vec<u8>, x: u64) {
    v.extend_from_slice(&x.to_le_bytes());
}

/// A little-endian ELF64 image holding `sections`, then a section-name table.
fn build_elf(sections: Vec<Section>) -> Vec<u8> {
    let mut shstrtab = vec![0u8];
    let mut name_offsets = Vec::new();
    for s in &sections {
        name_offsets.push(shstrtab.len() as u32);
        shstrtab.extend_from_slice(s.name.as_bytes());
        shstrtab.push(0);
    }
    let shstrtab_name = shstrtab.len() as u32;
    shstrtab.extend_from_slice(b".shstrtab\0");

    let mut body = Vec::new();
    let mut offsets = Vec::new();
    for s in &sections {
        while body.len() % 8 != 0 {
            body.push(0);
        }
        offsets.push(64 + body.len() as u64);
        body.extend_from_slice(&s.data);
    }
    let shstrtab_off = 64 + body.len() as u64;
    body.extend_from_slice(&shstrtab);
    while body.len() % 8 != 0 {
        body.push(0);
    }
    let shoff = 64 + body.len() as u64;
    let shnum = sections.len() as u16 + 2;

    let mut out = vec![0x7f, b'E', b'L', b'F', 2, 1, 1, 0, 0, 0, 0, 0, 0, 0, 0, 0];
    push16(&mut out, 2);
    push16(&mut out, 190);
    push32(&mut out, 1);
    push64(&mut out, 0);
    push64(&mut out, 0);
    push64(&mut out, shoff);
    push32(&mut out, 0);
    push16(&mut out, 64);
    push16(&mut out, 56);
    push16(&mut out, 0);
    push16(&mut out, 64);
    push16(&mut out, shnum);
    push16(&mut out, shnum - 1);
    out.extend_from_slice(&body);

    let header = |out: &mut Vec<u8>, name: u32, kind: u32, off: u64, size: u64, link: u32, entsize: u64| {
        push32(out, name);
        push32(out, kind);
        push64(out, 0);
        push64(out, 0);
        push64(out, off);
        push64(out, size);
        push32(out, link);
        push32(out, 0);
        push64(out, 1);
        push64(out, entsize);
    };
    header(&mut out, 0, 0, 0, 0, 0, 0);
    for (i, s) in sections.iter().enumerate() {
        header(&mut out, name_offsets[i], s.kind, offsets[i], s.data.len() as u64, s.link, s.entsize);
    }
    header(&mut out, shstrtab_name, SHT_STRTAB, shstrtab_off, shstrtab.len() as u64, 0, 0);
    out
}

fn info_section(name: &'static str, data: Vec<u8>) -> Section {
    Section { name, kind: SHT_PROGBITS, data, link: 0, entsize: 0 }
}

/// A symbol table whose symbol `i` is named `names[i]`, and its string table.
/// The string table is the section at index `strtab_index` of the image.
fn symbol_sections(names: &[&str], strtab_index: u32) -> (Section, Section) {
    let mut strtab = vec![0u8];
    let mut syms = Vec::new();
    for n in names {
        let off = if n.is_empty() {
            0
        } else {
            let off = strtab.len() as u32;
            strtab.extend_from_slice(n.as_bytes());
            strtab.push(0);
            off
        };
        push32(&mut syms, off);
        syms.push(0);
        syms.push(0);
        push16(&mut syms, 0);
        push64(&mut syms, 0);
        push64(&mut syms, 0);
    }
    (
        Section { name: ".symtab", kind: SHT_SYMTAB, data: syms, link: strtab_index, entsize: 24 },
        Section { name: ".strtab", kind: SHT_STRTAB, data: strtab, link: 0, entsize: 0 },
    )
}

fn test_kernel_elf() -> Vec<u8> {
    build_elf(vec![info_section(".nv.info.testKernel", vec![0x03, 0x05, 0x00, 0x01])])
}

fn max_threads_item() -> NVInfoItem {
    NVInfoItem {
        format: NVInfoFormat::EIFMT_HVAL,
        attribute: NVInfoAttribute::EIATTR_MAX_THREADS,
        value: NVInfoValue::HVal(0x100),
    }
}

/// A fatbinary entry header; `unc` is the uncompressed size, 0 for a raw payload.
fn entry(kind: u16, arch: u32, payload: &[u8], padded: u32, unc: u64) -> Vec<u8> {
    let mut e = Vec::new();
    push16(&mut e, kind);
    push16(&mut e, 0x0101);
    push32(&mut e, 64);
    push32(&mut e, padded);
    push32(&mut e, 0);
    push32(&mut e, payload.len() as u32);
    push32(&mut e, 0);
    push32(&mut e, 0);
    push32(&mut e, arch);
    push32(&mut e, 64);
    push32(&mut e, 0);
    push64(&mut e, 0);
    push64(&mut e, 0);
    push64(&mut e, unc);
    e.extend_from_slice(payload);
    while e.len() < 64 + padded as usize {
        e.push(0);
    }
    e
}

fn raw_entry(kind: u16, arch: u32, payload: &[u8]) -> Vec<u8> {
    let padded = ((payload.len() + 7) / 8 * 8) as u32;
    entry(kind, arch, payload, padded, 0)
}

fn fatbin(entries: Vec<Vec<u8>>) -> Vec<u8> {
    let body: Vec<u8> = entries.concat();
    let mut out = Vec::new();
    push32(&mut out, 0xBA55ED50);
    push16(&mut out, 1);
    push16(&mut out, 16);
    push64(&mut out, body.len() as u64);
    out.extend_from_slice(&body);
    out
}

#[test]
fn cubin_single_half_word_item() {
    let r = parse_cubin(&test_kernel_elf()).unwrap();
    assert_eq!(r, vec![(".nv.info.testKernel".to_string(), vec![max_threads_item()])]);
}

#[test]
fn cubin_skips_other_sections() {
    let elf = build_elf(vec![
        info_section(".text.testKernel", vec![0xff, 0xff, 0xff]),
        info_section(".nv.info", vec![0x03, 0x05, 0x00, 0x01]),
        info_section(".nv.info.a", vec![0x01, 0x04, 0x00, 0x00]),
        info_section(".nv.info.b", vec![]),
    ]);
    let r = parse_cubin(&elf).unwrap();
    let a = NVInfoItem {
        format: NVInfoFormat::EIFMT_NVAL,
        attribute: NVInfoAttribute::EIATTR_CTAIDZ_USED,
        value: NVInfoValue::NoValue(0),
    };
    assert_eq!(r, vec![(".nv.info.a".to_string(), vec![a]), (".nv.info.b".to_string(), vec![])]);
}

#[test]
fn cubin_rejects_non_elf() {
    assert_eq!(parse_cubin(&[1, 2, 3, 4, 5, 6, 7, 8]), Err(ParseError::FormatError));
}

#[test]
fn cubin_parse_is_deterministic() {
    let elf = test_kernel_elf();
    assert_eq!(parse_cubin(&elf), parse_cubin(&elf));
}

#[test]
fn extern_symbol_resolves_name() {
    let (symtab, strtab) = symbol_sections(&["", "a", "b", "myFunc", "c"], 3);
    let elf = build_elf(vec![
        info_section(".nv.info.k", vec![0x04, 0x0f, 0x04, 0x00, 0x03, 0x00, 0x00, 0x00]),
        symtab,
        strtab,
    ]);
    let r = parse_cubin(&elf).unwrap();
    assert_eq!(r.len(), 1);
    assert_eq!(
        r[0].1,
        vec![NVInfoItem {
            format: NVInfoFormat::EIFMT_SVAL,
            attribute: NVInfoAttribute::EIATTR_EXTERNS,
            value: NVInfoValue::SVal(NVInfoSval {
                value_size: 4,
                value: NVInfoSvalValue::ExternSValue { index: 3, value: "myFunc".to_string() },
            }),
        }]
    );
}

#[test]
fn extern_symbol_out_of_range() {
    let (symtab, strtab) = symbol_sections(&["", "a"], 3);
    let elf = build_elf(vec![
        info_section(".nv.info.k", vec![0x04, 0x0f, 0x04, 0x00, 0x03, 0x00, 0x00, 0x00]),
        symtab,
        strtab,
    ]);
    assert_eq!(parse_cubin(&elf), Err(ParseError::UnresolvedSymbol));
}

#[test]
fn extern_symbol_from_name_table() {
    let symbols = vec![None, Some("f".to_string())];
    let r = decode_section(&[0x04, 0x0f, 0x04, 0x00, 0x01, 0x00, 0x00, 0x00], &symbols).unwrap();
    assert_eq!(
        r[0].value,
        NVInfoValue::SVal(NVInfoSval {
            value_size: 4,
            value: NVInfoSvalValue::ExternSValue { index: 1, value: "f".to_string() },
        })
    );
    let r = decode_section(&[0x04, 0x0f, 0x04, 0x00, 0x00, 0x00, 0x00, 0x00], &symbols);
    assert_eq!(r, Err(ParseError::UnresolvedSymbol));
    let r = decode_section(&[0x04, 0x0f, 0x08, 0x00, 0x01, 0, 0, 0, 0, 0, 0, 0], &symbols);
    assert_eq!(r, Err(ParseError::SizeMismatch));
}

fn param_item(tmp: u32) -> NVInfoSvalValue {
    let mut b = vec![0x04, 0x17, 0x0c, 0x00, 0x02, 0x00, 0x00, 0x00, 0x01, 0x00, 0x08, 0x00];
    b.extend_from_slice(&tmp.to_le_bytes());
    let r = decode_section(&b, &vec![]).unwrap();
    assert_eq!(r.len(), 1);
    assert_eq!(r[0].attribute, NVInfoAttribute::EIATTR_KPARAM_INFO);
    match &r[0].value {
        NVInfoValue::SVal(sv) => {
            assert_eq!(sv.value_size, 12);
            sv.value.clone()
        }
        _ => panic!("expected a sized value"),
    }
}

fn param(tmp_fields: (u8, u8, u8, bool, u16)) -> NVInfoSvalValue {
    let (log_alignment, space, cbank, is_cbank, size_bytes) = tmp_fields;
    NVInfoSvalValue::KParamInfoValue {
        index: 2,
        ordinal: 1,
        offset: 8,
        log_alignment,
        space,
        cbank,
        is_cbank,
        size_bytes,
    }
}

#[test]
fn param_info_zero_word() {
    assert_eq!(param_item(0), param((0, 0, 0, true, 0)));
}

#[test]
fn param_info_bit_boundaries() {
    assert_eq!(param_item(0x0000_00ff), param((0xff, 0, 0, true, 0)));
    assert_eq!(param_item(0x0000_0100), param((0, 1, 0, true, 0)));
    assert_eq!(param_item(0x0000_0f00), param((0, 0xf, 0, true, 0)));
    assert_eq!(param_item(0x0000_1000), param((0, 0, 1, true, 0)));
    assert_eq!(param_item(0x0001_f000), param((0, 0, 0x1f, true, 0)));
    assert_eq!(param_item(0x0001_0000), param((0, 0, 0x10, true, 0)));
    assert_eq!(param_item(0x0002_0000), param((0, 0, 0, false, 0)));
    assert_eq!(param_item(0x0004_0000), param((0, 0, 0, true, 1)));
    assert_eq!(param_item(0xfffc_0000), param((0, 0, 0, true, 0x3fff)));
    assert_eq!(param_item(0x0020_1234), param((0x34, 2, 1, true, 8)));
}

#[test]
fn param_info_wrong_length() {
    let b = vec![0x04, 0x17, 0x0a, 0x00, 0, 0, 0, 0, 0, 0, 0, 0, 0, 0];
    assert_eq!(decode_section(&b, &vec![]), Err(ParseError::SizeMismatch));
}

#[test]
fn unknown_attribute_uses_word_fallback() {
    let b = vec![0x04, 0x50, 0x08, 0x00, 0x01, 0x02, 0x03, 0x04, 0xff, 0x00, 0x00, 0x00];
    let r = decode_section(&b, &vec![]).unwrap();
    assert_eq!(
        r,
        vec![NVInfoItem {
            format: NVInfoFormat::EIFMT_SVAL,
            attribute: NVInfoAttribute::EIATTR_UNKNOWN(0x50),
            value: NVInfoValue::SVal(NVInfoSval {
                value_size: 8,
                value: NVInfoSvalValue::Other { data: vec![0x0403_0201, 0xff] },
            }),
        }]
    );
}

#[test]
fn other_attribute_length_not_multiple_of_four() {
    let b = vec![0x04, 0x50, 0x06, 0x00, 1, 2, 3, 4, 5, 6];
    assert_eq!(decode_section(&b, &vec![]), Err(ParseError::SizeMismatch));
}

#[test]
fn byte_and_no_value_take_two_bytes() {
    let b = vec![0x02, 0x2b, 0x01, 0x00, 0x01, 0x11, 0x00, 0x00, 0x03, 0x2f, 0x18, 0x00];
    let r = decode_section(&b, &vec![]).unwrap();
    assert_eq!(r.len(), 3);
    assert_eq!(r[0].format, NVInfoFormat::EIFMT_BVAL);
    assert_eq!(r[0].attribute, NVInfoAttribute::EIATTR_WMMA_USED);
    assert_eq!(r[0].value, NVInfoValue::BVal(1));
    assert_eq!(r[1].value, NVInfoValue::NoValue(0));
    assert_eq!(r[1].attribute, NVInfoAttribute::EIATTR_FRAME_SIZE);
    assert_eq!(r[2].attribute, NVInfoAttribute::EIATTR_REGCOUNT);
    assert_eq!(r[2].value, NVInfoValue::HVal(0x18));
}

#[test]
fn unknown_format_rejected() {
    assert_eq!(decode_section(&[0x05, 0x05, 0x00, 0x01], &vec![]), Err(ParseError::FormatError));
    assert_eq!(decode_section(&[0x00, 0x05, 0x00, 0x01], &vec![]), Err(ParseError::FormatError));
}

#[test]
fn truncated_section_rejected() {
    assert_eq!(decode_section(&[0x03, 0x05, 0x00], &vec![]), Err(ParseError::TruncatedInput));
    let b = vec![0x04, 0x50, 0x08, 0x00, 0x01, 0x02, 0x03, 0x04];
    assert_eq!(decode_section(&b, &vec![]), Err(ParseError::TruncatedInput));
    assert_eq!(decode_section(&[], &vec![]), Ok(vec![]));
}

#[test]
fn fatbin_single_raw_entry() {
    let fb = fatbin(vec![raw_entry(2, 75, &test_kernel_elf())]);
    let r = parse_fatbin(&fb).unwrap();
    assert_eq!(
        r,
        vec![(75, vec![(".nv.info.testKernel".to_string(), vec![max_threads_item()])])]
    );
}

#[test]
fn fatbin_parse_is_deterministic() {
    let fb = fatbin(vec![raw_entry(2, 75, &test_kernel_elf())]);
    assert_eq!(parse_fatbin(&fb), parse_fatbin(&fb));
}

#[test]
fn fatbin_compressed_entry() {
    let elf = test_kernel_elf();
    let packed = lz4::block::compress(&elf, None, false).unwrap();
    let padded = ((packed.len() + 7) / 8 * 8) as u32;
    let fb = fatbin(vec![entry(2, 80, &packed, padded, elf.len() as u64)]);
    let r = parse_fatbin(&fb).unwrap();
    assert_eq!(
        r,
        vec![(80, vec![(".nv.info.testKernel".to_string(), vec![max_threads_item()])])]
    );
}

#[test]
fn fatbin_compressed_size_mismatch() {
    let elf = test_kernel_elf();
    let packed = lz4::block::compress(&elf, None, false).unwrap();
    let padded = ((packed.len() + 7) / 8 * 8) as u32;
    let fb = fatbin(vec![entry(2, 80, &packed, padded, elf.len() as u64 + 8)]);
    assert_eq!(parse_fatbin(&fb), Err(ParseError::SizeMismatch));
}

#[test]
fn fatbin_merges_distinct_sections() {
    let a = build_elf(vec![info_section(".nv.info.a", vec![0x03, 0x05, 0x00, 0x01])]);
    let b = build_elf(vec![info_section(".nv.info.b", vec![0x03, 0x05, 0x00, 0x02])]);
    let fb = fatbin(vec![raw_entry(2, 75, &a), raw_entry(1, 75, b"ptx text"), raw_entry(2, 75, &b)]);
    let r = parse_fatbin(&fb).unwrap();
    let item = |v: u16| NVInfoItem {
        format: NVInfoFormat::EIFMT_HVAL,
        attribute: NVInfoAttribute::EIATTR_MAX_THREADS,
        value: NVInfoValue::HVal(v),
    };
    assert_eq!(
        r,
        vec![(
            75,
            vec![(".nv.info.a".to_string(), vec![item(0x100)]), (".nv.info.b".to_string(), vec![item(0x200)])]
        )]
    );
}

#[test]
fn fatbin_later_section_wins() {
    let a = build_elf(vec![info_section(".nv.info.k", vec![0x03, 0x05, 0x00, 0x01])]);
    let b = build_elf(vec![info_section(".nv.info.k", vec![0x03, 0x05, 0x00, 0x02])]);
    let c = build_elf(vec![info_section(".nv.info.k", vec![0x03, 0x05, 0x00, 0x03])]);
    let fb = fatbin(vec![raw_entry(2, 75, &a), raw_entry(2, 80, &c), raw_entry(2, 75, &b)]);
    let r = parse_fatbin(&fb).unwrap();
    assert_eq!(r.len(), 2);
    assert_eq!(r[0].0, 75);
    assert_eq!(r[0].1.len(), 1);
    assert_eq!(r[0].1[0].1[0].value, NVInfoValue::HVal(0x200));
    assert_eq!(r[1].0, 80);
    assert_eq!(r[1].1[0].1[0].value, NVInfoValue::HVal(0x300));
}

#[test]
fn fatbin_bad_magic() {
    let mut fb = fatbin(vec![raw_entry(2, 75, &test_kernel_elf())]);
    fb[0] ^= 0xff;
    assert_eq!(parse_fatbin(&fb), Err(ParseError::FormatError));
    assert!(!is_fatbin(&fb));
}

#[test]
fn fatbin_bad_version() {
    let mut fb = fatbin(vec![]);
    fb[4] = 2;
    assert_eq!(parse_fatbin(&fb), Err(ParseError::FormatError));
}

#[test]
fn fatbin_unsupported_entry_kind() {
    let fb = fatbin(vec![raw_entry(3, 75, &test_kernel_elf())]);
    assert_eq!(parse_fatbin(&fb), Err(ParseError::UnsupportedEntryKind));
}

#[test]
fn fatbin_entry_not_elf() {
    let fb = fatbin(vec![raw_entry(2, 75, b"not an elf image")]);
    assert_eq!(parse_fatbin(&fb), Err(ParseError::FormatError));
}

#[test]
fn fatbin_truncated() {
    let fb = fatbin(vec![raw_entry(2, 75, &test_kernel_elf())]);
    assert_eq!(parse_fatbin(&fb[..fb.len() - 8]), Err(ParseError::TruncatedInput));
    assert_eq!(parse_fatbin(&fb[..10]), Err(ParseError::TruncatedInput));
}

#[test]
fn fatbin_declared_size_too_small() {
    let mut fb = fatbin(vec![raw_entry(2, 75, &test_kernel_elf())]);
    fb[8] = fb[8].wrapping_sub(8);
    assert_eq!(parse_fatbin(&fb), Err(ParseError::SizeMismatch));
}

#[test]
fn fatbin_empty() {
    assert_eq!(parse_fatbin(&fatbin(vec![])), Ok(vec![]));
}

#[test]
fn fatbin_header_queries() {
    let fb = fatbin(vec![raw_entry(2, 75, &test_kernel_elf())]);
    assert!(is_fatbin(&fb));
    assert_eq!(get_fatbin_size(&fb), fb.len());
    assert!(!is_fatbin(&fb[..3]));
}
