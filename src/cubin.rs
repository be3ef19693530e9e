//! The `.nv.info.*` item decoder and the walk over the sections of a cubin.

use vstd::prelude::*;

use crate::bytes::{le_u16, le_u32, le_words, read_u16, read_u32, read_words};
use crate::elf::{elf_tables_of, read_elf_tables, section_view, tables_view, ElfSection};
use crate::error::ParseError;

verus! {

/// How the value of an item is represented on disk.
#[allow(non_camel_case_types)]
#[derive(Debug, Clone, Copy, PartialEq, Eq, Structural)]
pub enum NVInfoFormat {
    /// No value: two reserved bytes follow the tags.
    EIFMT_NVAL,
    /// A byte value, stored in a two-byte field.
    EIFMT_BVAL,
    /// A half-word value.
    EIFMT_HVAL,
    /// A sized value: a two-byte length, then that many bytes.
    EIFMT_SVAL,
}

/// The format whose on-disk tag is `c`, if there is one.
pub open spec fn format_of_code(c: u8) -> Option<NVInfoFormat> {
    if c == 1 {
        Some(NVInfoFormat::EIFMT_NVAL)
    } else if c == 2 {
        Some(NVInfoFormat::EIFMT_BVAL)
    } else if c == 3 {
        Some(NVInfoFormat::EIFMT_HVAL)
    } else if c == 4 {
        Some(NVInfoFormat::EIFMT_SVAL)
    } else {
        None
    }
}

impl NVInfoFormat {
    /// The format whose on-disk tag is `c`; `None` for a tag outside the four known ones.
    pub fn from_code(c: u8) -> (r: Option<NVInfoFormat>)
        ensures
            r == format_of_code(c),
    {
        if c == 1 {
            Some(NVInfoFormat::EIFMT_NVAL)
        } else if c == 2 {
            Some(NVInfoFormat::EIFMT_BVAL)
        } else if c == 3 {
            Some(NVInfoFormat::EIFMT_HVAL)
        } else if c == 4 {
            Some(NVInfoFormat::EIFMT_SVAL)
        } else {
            None
        }
    }
}

/// The kind of kernel metadata an item carries. Codes that later toolkits
/// added beyond this catalog are kept as `EIATTR_UNKNOWN`.
#[allow(non_camel_case_types)]
#[derive(Debug, Clone, Copy, PartialEq, Eq, Structural)]
pub enum NVInfoAttribute {
    EIATTR_ERROR,
    EIATTR_PAD,
    EIATTR_IMAGE_SLOT,
    EIATTR_JUMPTABLE_RELOCS,
    EIATTR_CTAIDZ_USED,
    EIATTR_MAX_THREADS,
    EIATTR_IMAGE_OFFSET,
    EIATTR_IMAGE_SIZE,
    EIATTR_TEXTURE_NORMALIZED,
    EIATTR_SAMPLER_INIT,
    EIATTR_PARAM_CBANK,
    EIATTR_SMEM_PARAM_OFFSETS,
    EIATTR_CBANK_PARAM_OFFSETS,
    EIATTR_SYNC_STACK,
    EIATTR_TEXID_SAMPID_MAP,
    EIATTR_EXTERNS,
    EIATTR_REQNTID,
    EIATTR_FRAME_SIZE,
    EIATTR_MIN_STACK_SIZE,
    EIATTR_SAMPLER_FORCE_UNNORMALIZED,
    EIATTR_BINDLESS_IMAGE_OFFSETS,
    EIATTR_BINDLESS_TEXTURE_BANK,
    EIATTR_BINDLESS_SURFACE_BANK,
    EIATTR_KPARAM_INFO,
    EIATTR_SMEM_PARAM_SIZE,
    EIATTR_CBANK_PARAM_SIZE,
    EIATTR_QUERY_NUMATTRIB,
    EIATTR_MAXREG_COUNT,
    EIATTR_EXIT_INSTR_OFFSETS,
    EIATTR_S2RCTAID_INSTR_OFFSETS,
    EIATTR_CRS_STACK_SIZE,
    EIATTR_NEED_CNP_WRAPPER,
    EIATTR_NEED_CNP_PATCH,
    EIATTR_EXPLICIT_CACHING,
    EIATTR_ISTYPEP_USED,
    EIATTR_MAX_STACK_SIZE,
    EIATTR_SUQ_USED,
    EIATTR_LD_CACHEMOD_INSTR_OFFSETS,
    EIATTR_LOAD_CACHE_REQUEST,
    EIATTR_ATOM_SYS_INSTR_OFFSETS,
    EIATTR_COOP_GROUP_INSTR_OFFSETS,
    EIATTR_COOP_GROUP_MAX_REGIDS,
    EIATTR_SW1850030_WAR,
    EIATTR_WMMA_USED,
    EIATTR_HAS_PRE_V10_OBJECT,
    EIATTR_ATOMF16_EMUL_INSTR_OFFSETS,
    EIATTR_ATOM16_EMUL_INSTR_REG_MAP,
    EIATTR_REGCOUNT,
    EIATTR_SW2393858_WAR,
    EIATTR_INT_WARP_WIDE_INSTR_OFFSETS,
    EIATTR_SHARED_SCRATCH,
    EIATTR_STATISTICS,
    EIATTR_INDIRECT_BRANCH_TARGETS,
    EIATTR_SW2861232_WAR,
    EIATTR_SW_WAR,
    EIATTR_CUDA_API_VERSION,
    EIATTR_NUM_MBARRIERS,
    EIATTR_MBARRIER_INSTR_OFFSETS,
    EIATTR_COROUTINE_RESUME_ID_OFFSETS,
    EIATTR_SAM_REGION_STACK_SIZE,
    EIATTR_PER_REG_TARGET_PERF_STATS,
    EIATTR_CTA_PER_CLUSTER,
    EIATTR_EXPLICIT_CLUSTER,
    EIATTR_MAX_CLUSTER_RANK,
    EIATTR_INSTR_REG_MAP,
    EIATTR_UNKNOWN(u8),
}

/// The attribute whose on-disk code is `c`.
pub open spec fn attribute_of_code(c: u8) -> NVInfoAttribute {
    match c {
        0u8 => NVInfoAttribute::EIATTR_ERROR,
        1u8 => NVInfoAttribute::EIATTR_PAD,
        2u8 => NVInfoAttribute::EIATTR_IMAGE_SLOT,
        3u8 => NVInfoAttribute::EIATTR_JUMPTABLE_RELOCS,
        4u8 => NVInfoAttribute::EIATTR_CTAIDZ_USED,
        5u8 => NVInfoAttribute::EIATTR_MAX_THREADS,
        6u8 => NVInfoAttribute::EIATTR_IMAGE_OFFSET,
        7u8 => NVInfoAttribute::EIATTR_IMAGE_SIZE,
        8u8 => NVInfoAttribute::EIATTR_TEXTURE_NORMALIZED,
        9u8 => NVInfoAttribute::EIATTR_SAMPLER_INIT,
        10u8 => NVInfoAttribute::EIATTR_PARAM_CBANK,
        11u8 => NVInfoAttribute::EIATTR_SMEM_PARAM_OFFSETS,
        12u8 => NVInfoAttribute::EIATTR_CBANK_PARAM_OFFSETS,
        13u8 => NVInfoAttribute::EIATTR_SYNC_STACK,
        14u8 => NVInfoAttribute::EIATTR_TEXID_SAMPID_MAP,
        15u8 => NVInfoAttribute::EIATTR_EXTERNS,
        16u8 => NVInfoAttribute::EIATTR_REQNTID,
        17u8 => NVInfoAttribute::EIATTR_FRAME_SIZE,
        18u8 => NVInfoAttribute::EIATTR_MIN_STACK_SIZE,
        19u8 => NVInfoAttribute::EIATTR_SAMPLER_FORCE_UNNORMALIZED,
        20u8 => NVInfoAttribute::EIATTR_BINDLESS_IMAGE_OFFSETS,
        21u8 => NVInfoAttribute::EIATTR_BINDLESS_TEXTURE_BANK,
        22u8 => NVInfoAttribute::EIATTR_BINDLESS_SURFACE_BANK,
        23u8 => NVInfoAttribute::EIATTR_KPARAM_INFO,
        24u8 => NVInfoAttribute::EIATTR_SMEM_PARAM_SIZE,
        25u8 => NVInfoAttribute::EIATTR_CBANK_PARAM_SIZE,
        26u8 => NVInfoAttribute::EIATTR_QUERY_NUMATTRIB,
        27u8 => NVInfoAttribute::EIATTR_MAXREG_COUNT,
        28u8 => NVInfoAttribute::EIATTR_EXIT_INSTR_OFFSETS,
        29u8 => NVInfoAttribute::EIATTR_S2RCTAID_INSTR_OFFSETS,
        30u8 => NVInfoAttribute::EIATTR_CRS_STACK_SIZE,
        31u8 => NVInfoAttribute::EIATTR_NEED_CNP_WRAPPER,
        32u8 => NVInfoAttribute::EIATTR_NEED_CNP_PATCH,
        33u8 => NVInfoAttribute::EIATTR_EXPLICIT_CACHING,
        34u8 => NVInfoAttribute::EIATTR_ISTYPEP_USED,
        35u8 => NVInfoAttribute::EIATTR_MAX_STACK_SIZE,
        36u8 => NVInfoAttribute::EIATTR_SUQ_USED,
        37u8 => NVInfoAttribute::EIATTR_LD_CACHEMOD_INSTR_OFFSETS,
        38u8 => NVInfoAttribute::EIATTR_LOAD_CACHE_REQUEST,
        39u8 => NVInfoAttribute::EIATTR_ATOM_SYS_INSTR_OFFSETS,
        40u8 => NVInfoAttribute::EIATTR_COOP_GROUP_INSTR_OFFSETS,
        41u8 => NVInfoAttribute::EIATTR_COOP_GROUP_MAX_REGIDS,
        42u8 => NVInfoAttribute::EIATTR_SW1850030_WAR,
        43u8 => NVInfoAttribute::EIATTR_WMMA_USED,
        44u8 => NVInfoAttribute::EIATTR_HAS_PRE_V10_OBJECT,
        45u8 => NVInfoAttribute::EIATTR_ATOMF16_EMUL_INSTR_OFFSETS,
        46u8 => NVInfoAttribute::EIATTR_ATOM16_EMUL_INSTR_REG_MAP,
        47u8 => NVInfoAttribute::EIATTR_REGCOUNT,
        48u8 => NVInfoAttribute::EIATTR_SW2393858_WAR,
        49u8 => NVInfoAttribute::EIATTR_INT_WARP_WIDE_INSTR_OFFSETS,
        50u8 => NVInfoAttribute::EIATTR_SHARED_SCRATCH,
        51u8 => NVInfoAttribute::EIATTR_STATISTICS,
        52u8 => NVInfoAttribute::EIATTR_INDIRECT_BRANCH_TARGETS,
        53u8 => NVInfoAttribute::EIATTR_SW2861232_WAR,
        54u8 => NVInfoAttribute::EIATTR_SW_WAR,
        55u8 => NVInfoAttribute::EIATTR_CUDA_API_VERSION,
        56u8 => NVInfoAttribute::EIATTR_NUM_MBARRIERS,
        57u8 => NVInfoAttribute::EIATTR_MBARRIER_INSTR_OFFSETS,
        58u8 => NVInfoAttribute::EIATTR_COROUTINE_RESUME_ID_OFFSETS,
        59u8 => NVInfoAttribute::EIATTR_SAM_REGION_STACK_SIZE,
        60u8 => NVInfoAttribute::EIATTR_PER_REG_TARGET_PERF_STATS,
        61u8 => NVInfoAttribute::EIATTR_CTA_PER_CLUSTER,
        62u8 => NVInfoAttribute::EIATTR_EXPLICIT_CLUSTER,
        63u8 => NVInfoAttribute::EIATTR_MAX_CLUSTER_RANK,
        64u8 => NVInfoAttribute::EIATTR_INSTR_REG_MAP,
        _ => NVInfoAttribute::EIATTR_UNKNOWN(c),
    }
}

impl NVInfoAttribute {
    /// The on-disk code of the attribute.
    pub open spec fn spec_code(self) -> u8 {
        match self {
            NVInfoAttribute::EIATTR_ERROR => 0u8,
            NVInfoAttribute::EIATTR_PAD => 1u8,
            NVInfoAttribute::EIATTR_IMAGE_SLOT => 2u8,
            NVInfoAttribute::EIATTR_JUMPTABLE_RELOCS => 3u8,
            NVInfoAttribute::EIATTR_CTAIDZ_USED => 4u8,
            NVInfoAttribute::EIATTR_MAX_THREADS => 5u8,
            NVInfoAttribute::EIATTR_IMAGE_OFFSET => 6u8,
            NVInfoAttribute::EIATTR_IMAGE_SIZE => 7u8,
            NVInfoAttribute::EIATTR_TEXTURE_NORMALIZED => 8u8,
            NVInfoAttribute::EIATTR_SAMPLER_INIT => 9u8,
            NVInfoAttribute::EIATTR_PARAM_CBANK => 10u8,
            NVInfoAttribute::EIATTR_SMEM_PARAM_OFFSETS => 11u8,
            NVInfoAttribute::EIATTR_CBANK_PARAM_OFFSETS => 12u8,
            NVInfoAttribute::EIATTR_SYNC_STACK => 13u8,
            NVInfoAttribute::EIATTR_TEXID_SAMPID_MAP => 14u8,
            NVInfoAttribute::EIATTR_EXTERNS => 15u8,
            NVInfoAttribute::EIATTR_REQNTID => 16u8,
            NVInfoAttribute::EIATTR_FRAME_SIZE => 17u8,
            NVInfoAttribute::EIATTR_MIN_STACK_SIZE => 18u8,
            NVInfoAttribute::EIATTR_SAMPLER_FORCE_UNNORMALIZED => 19u8,
            NVInfoAttribute::EIATTR_BINDLESS_IMAGE_OFFSETS => 20u8,
            NVInfoAttribute::EIATTR_BINDLESS_TEXTURE_BANK => 21u8,
            NVInfoAttribute::EIATTR_BINDLESS_SURFACE_BANK => 22u8,
            NVInfoAttribute::EIATTR_KPARAM_INFO => 23u8,
            NVInfoAttribute::EIATTR_SMEM_PARAM_SIZE => 24u8,
            NVInfoAttribute::EIATTR_CBANK_PARAM_SIZE => 25u8,
            NVInfoAttribute::EIATTR_QUERY_NUMATTRIB => 26u8,
            NVInfoAttribute::EIATTR_MAXREG_COUNT => 27u8,
            NVInfoAttribute::EIATTR_EXIT_INSTR_OFFSETS => 28u8,
            NVInfoAttribute::EIATTR_S2RCTAID_INSTR_OFFSETS => 29u8,
            NVInfoAttribute::EIATTR_CRS_STACK_SIZE => 30u8,
            NVInfoAttribute::EIATTR_NEED_CNP_WRAPPER => 31u8,
            NVInfoAttribute::EIATTR_NEED_CNP_PATCH => 32u8,
            NVInfoAttribute::EIATTR_EXPLICIT_CACHING => 33u8,
            NVInfoAttribute::EIATTR_ISTYPEP_USED => 34u8,
            NVInfoAttribute::EIATTR_MAX_STACK_SIZE => 35u8,
            NVInfoAttribute::EIATTR_SUQ_USED => 36u8,
            NVInfoAttribute::EIATTR_LD_CACHEMOD_INSTR_OFFSETS => 37u8,
            NVInfoAttribute::EIATTR_LOAD_CACHE_REQUEST => 38u8,
            NVInfoAttribute::EIATTR_ATOM_SYS_INSTR_OFFSETS => 39u8,
            NVInfoAttribute::EIATTR_COOP_GROUP_INSTR_OFFSETS => 40u8,
            NVInfoAttribute::EIATTR_COOP_GROUP_MAX_REGIDS => 41u8,
            NVInfoAttribute::EIATTR_SW1850030_WAR => 42u8,
            NVInfoAttribute::EIATTR_WMMA_USED => 43u8,
            NVInfoAttribute::EIATTR_HAS_PRE_V10_OBJECT => 44u8,
            NVInfoAttribute::EIATTR_ATOMF16_EMUL_INSTR_OFFSETS => 45u8,
            NVInfoAttribute::EIATTR_ATOM16_EMUL_INSTR_REG_MAP => 46u8,
            NVInfoAttribute::EIATTR_REGCOUNT => 47u8,
            NVInfoAttribute::EIATTR_SW2393858_WAR => 48u8,
            NVInfoAttribute::EIATTR_INT_WARP_WIDE_INSTR_OFFSETS => 49u8,
            NVInfoAttribute::EIATTR_SHARED_SCRATCH => 50u8,
            NVInfoAttribute::EIATTR_STATISTICS => 51u8,
            NVInfoAttribute::EIATTR_INDIRECT_BRANCH_TARGETS => 52u8,
            NVInfoAttribute::EIATTR_SW2861232_WAR => 53u8,
            NVInfoAttribute::EIATTR_SW_WAR => 54u8,
            NVInfoAttribute::EIATTR_CUDA_API_VERSION => 55u8,
            NVInfoAttribute::EIATTR_NUM_MBARRIERS => 56u8,
            NVInfoAttribute::EIATTR_MBARRIER_INSTR_OFFSETS => 57u8,
            NVInfoAttribute::EIATTR_COROUTINE_RESUME_ID_OFFSETS => 58u8,
            NVInfoAttribute::EIATTR_SAM_REGION_STACK_SIZE => 59u8,
            NVInfoAttribute::EIATTR_PER_REG_TARGET_PERF_STATS => 60u8,
            NVInfoAttribute::EIATTR_CTA_PER_CLUSTER => 61u8,
            NVInfoAttribute::EIATTR_EXPLICIT_CLUSTER => 62u8,
            NVInfoAttribute::EIATTR_MAX_CLUSTER_RANK => 63u8,
            NVInfoAttribute::EIATTR_INSTR_REG_MAP => 64u8,
            NVInfoAttribute::EIATTR_UNKNOWN(c) => c,
        }
    }

    /// The attribute whose on-disk code is `c`.
    pub fn from_code(c: u8) -> (r: NVInfoAttribute)
        ensures
            r == attribute_of_code(c),
            r.spec_code() == c,
    {
        match c {
            0u8 => NVInfoAttribute::EIATTR_ERROR,
            1u8 => NVInfoAttribute::EIATTR_PAD,
            2u8 => NVInfoAttribute::EIATTR_IMAGE_SLOT,
            3u8 => NVInfoAttribute::EIATTR_JUMPTABLE_RELOCS,
            4u8 => NVInfoAttribute::EIATTR_CTAIDZ_USED,
            5u8 => NVInfoAttribute::EIATTR_MAX_THREADS,
            6u8 => NVInfoAttribute::EIATTR_IMAGE_OFFSET,
            7u8 => NVInfoAttribute::EIATTR_IMAGE_SIZE,
            8u8 => NVInfoAttribute::EIATTR_TEXTURE_NORMALIZED,
            9u8 => NVInfoAttribute::EIATTR_SAMPLER_INIT,
            10u8 => NVInfoAttribute::EIATTR_PARAM_CBANK,
            11u8 => NVInfoAttribute::EIATTR_SMEM_PARAM_OFFSETS,
            12u8 => NVInfoAttribute::EIATTR_CBANK_PARAM_OFFSETS,
            13u8 => NVInfoAttribute::EIATTR_SYNC_STACK,
            14u8 => NVInfoAttribute::EIATTR_TEXID_SAMPID_MAP,
            15u8 => NVInfoAttribute::EIATTR_EXTERNS,
            16u8 => NVInfoAttribute::EIATTR_REQNTID,
            17u8 => NVInfoAttribute::EIATTR_FRAME_SIZE,
            18u8 => NVInfoAttribute::EIATTR_MIN_STACK_SIZE,
            19u8 => NVInfoAttribute::EIATTR_SAMPLER_FORCE_UNNORMALIZED,
            20u8 => NVInfoAttribute::EIATTR_BINDLESS_IMAGE_OFFSETS,
            21u8 => NVInfoAttribute::EIATTR_BINDLESS_TEXTURE_BANK,
            22u8 => NVInfoAttribute::EIATTR_BINDLESS_SURFACE_BANK,
            23u8 => NVInfoAttribute::EIATTR_KPARAM_INFO,
            24u8 => NVInfoAttribute::EIATTR_SMEM_PARAM_SIZE,
            25u8 => NVInfoAttribute::EIATTR_CBANK_PARAM_SIZE,
            26u8 => NVInfoAttribute::EIATTR_QUERY_NUMATTRIB,
            27u8 => NVInfoAttribute::EIATTR_MAXREG_COUNT,
            28u8 => NVInfoAttribute::EIATTR_EXIT_INSTR_OFFSETS,
            29u8 => NVInfoAttribute::EIATTR_S2RCTAID_INSTR_OFFSETS,
            30u8 => NVInfoAttribute::EIATTR_CRS_STACK_SIZE,
            31u8 => NVInfoAttribute::EIATTR_NEED_CNP_WRAPPER,
            32u8 => NVInfoAttribute::EIATTR_NEED_CNP_PATCH,
            33u8 => NVInfoAttribute::EIATTR_EXPLICIT_CACHING,
            34u8 => NVInfoAttribute::EIATTR_ISTYPEP_USED,
            35u8 => NVInfoAttribute::EIATTR_MAX_STACK_SIZE,
            36u8 => NVInfoAttribute::EIATTR_SUQ_USED,
            37u8 => NVInfoAttribute::EIATTR_LD_CACHEMOD_INSTR_OFFSETS,
            38u8 => NVInfoAttribute::EIATTR_LOAD_CACHE_REQUEST,
            39u8 => NVInfoAttribute::EIATTR_ATOM_SYS_INSTR_OFFSETS,
            40u8 => NVInfoAttribute::EIATTR_COOP_GROUP_INSTR_OFFSETS,
            41u8 => NVInfoAttribute::EIATTR_COOP_GROUP_MAX_REGIDS,
            42u8 => NVInfoAttribute::EIATTR_SW1850030_WAR,
            43u8 => NVInfoAttribute::EIATTR_WMMA_USED,
            44u8 => NVInfoAttribute::EIATTR_HAS_PRE_V10_OBJECT,
            45u8 => NVInfoAttribute::EIATTR_ATOMF16_EMUL_INSTR_OFFSETS,
            46u8 => NVInfoAttribute::EIATTR_ATOM16_EMUL_INSTR_REG_MAP,
            47u8 => NVInfoAttribute::EIATTR_REGCOUNT,
            48u8 => NVInfoAttribute::EIATTR_SW2393858_WAR,
            49u8 => NVInfoAttribute::EIATTR_INT_WARP_WIDE_INSTR_OFFSETS,
            50u8 => NVInfoAttribute::EIATTR_SHARED_SCRATCH,
            51u8 => NVInfoAttribute::EIATTR_STATISTICS,
            52u8 => NVInfoAttribute::EIATTR_INDIRECT_BRANCH_TARGETS,
            53u8 => NVInfoAttribute::EIATTR_SW2861232_WAR,
            54u8 => NVInfoAttribute::EIATTR_SW_WAR,
            55u8 => NVInfoAttribute::EIATTR_CUDA_API_VERSION,
            56u8 => NVInfoAttribute::EIATTR_NUM_MBARRIERS,
            57u8 => NVInfoAttribute::EIATTR_MBARRIER_INSTR_OFFSETS,
            58u8 => NVInfoAttribute::EIATTR_COROUTINE_RESUME_ID_OFFSETS,
            59u8 => NVInfoAttribute::EIATTR_SAM_REGION_STACK_SIZE,
            60u8 => NVInfoAttribute::EIATTR_PER_REG_TARGET_PERF_STATS,
            61u8 => NVInfoAttribute::EIATTR_CTA_PER_CLUSTER,
            62u8 => NVInfoAttribute::EIATTR_EXPLICIT_CLUSTER,
            63u8 => NVInfoAttribute::EIATTR_MAX_CLUSTER_RANK,
            64u8 => NVInfoAttribute::EIATTR_INSTR_REG_MAP,
            _ => NVInfoAttribute::EIATTR_UNKNOWN(c),
        }
    }
}

/// An item of an `.nv.info.*` section.
#[derive(Debug, Clone, PartialEq)]
pub struct NVInfoItem {
    pub format: NVInfoFormat,
    pub attribute: NVInfoAttribute,
    pub value: NVInfoValue,
}

/// The value of an item; its variant follows the item's format.
#[derive(Debug, Clone, PartialEq)]
pub enum NVInfoValue {
    NoValue(u16),
    BVal(u16),
    HVal(u16),
    SVal(NVInfoSval),
}

/// A sized value: its declared length in bytes and the payload decoded by attribute.
#[derive(Debug, Clone, PartialEq)]
pub struct NVInfoSval {
    pub value_size: u16,
    pub value: NVInfoSvalValue,
}

/// The payload of a sized value.
#[derive(Debug, Clone, PartialEq)]
pub enum NVInfoSvalValue {
    /// The layout of one kernel parameter.
    KParamInfoValue {
        index: u32,
        ordinal: u16,
        offset: u16,
        log_alignment: u8,
        space: u8,
        cbank: u8,
        is_cbank: bool,
        size_bytes: u16,
    },
    /// An external symbol: its symbol-table index and its name.
    ExternSValue { index: u32, value: String },
    /// Any other attribute: the payload as little-endian 32-bit words.
    Other { data: Vec<u32> },
}

/// What an [`NVInfoSvalValue`] holds, with strings and vectors as sequences.
pub enum NVInfoSvalModel {
    KParamInfoValue {
        index: u32,
        ordinal: u16,
        offset: u16,
        log_alignment: u8,
        space: u8,
        cbank: u8,
        is_cbank: bool,
        size_bytes: u16,
    },
    ExternSValue { index: u32, value: Seq<char> },
    Other { data: Seq<u32> },
}

/// What an [`NVInfoValue`] holds.
pub enum NVInfoValueModel {
    NoValue(u16),
    BVal(u16),
    HVal(u16),
    SVal { value_size: u16, value: NVInfoSvalModel },
}

/// What an [`NVInfoItem`] holds.
pub struct NVInfoItemModel {
    pub format: NVInfoFormat,
    pub attribute: NVInfoAttribute,
    pub value: NVInfoValueModel,
}

impl View for NVInfoSvalValue {
    type V = NVInfoSvalModel;

    open spec fn view(&self) -> NVInfoSvalModel {
        match self {
            NVInfoSvalValue::KParamInfoValue {
                index,
                ordinal,
                offset,
                log_alignment,
                space,
                cbank,
                is_cbank,
                size_bytes,
            } => NVInfoSvalModel::KParamInfoValue {
                index: *index,
                ordinal: *ordinal,
                offset: *offset,
                log_alignment: *log_alignment,
                space: *space,
                cbank: *cbank,
                is_cbank: *is_cbank,
                size_bytes: *size_bytes,
            },
            NVInfoSvalValue::ExternSValue { index, value } => NVInfoSvalModel::ExternSValue {
                index: *index,
                value: value@,
            },
            NVInfoSvalValue::Other { data } => NVInfoSvalModel::Other { data: data@ },
        }
    }
}

impl View for NVInfoValue {
    type V = NVInfoValueModel;

    open spec fn view(&self) -> NVInfoValueModel {
        match self {
            NVInfoValue::NoValue(v) => NVInfoValueModel::NoValue(*v),
            NVInfoValue::BVal(v) => NVInfoValueModel::BVal(*v),
            NVInfoValue::HVal(v) => NVInfoValueModel::HVal(*v),
            NVInfoValue::SVal(sv) => NVInfoValueModel::SVal {
                value_size: sv.value_size,
                value: sv.value@,
            },
        }
    }
}

impl View for NVInfoItem {
    type V = NVInfoItemModel;

    open spec fn view(&self) -> NVInfoItemModel {
        NVInfoItemModel { format: self.format, attribute: self.attribute, value: self.value@ }
    }
}

/// The models of a sequence of items.
pub open spec fn items_view(items: Seq<NVInfoItem>) -> Seq<NVInfoItemModel> {
    items.map_values(|i: NVInfoItem| i@)
}

/// The model of the result of [`decode_section`].
pub open spec fn items_result_view(r: Result<Vec<NVInfoItem>, ParseError>) -> Result<
    Seq<NVInfoItemModel>,
    ParseError,
> {
    match r {
        Ok(items) => Ok(items_view(items@)),
        Err(e) => Err(e),
    }
}

/// The names of a symbol table, with `None` where a symbol's name cannot be read.
pub open spec fn names_view(symbols: Seq<Option<String>>) -> Seq<Option<Seq<char>>> {
    symbols.map_values(
        |o: Option<String>|
            match o {
                Some(n) => Some(n@),
                None => None,
            },
    )
}

/// The parameter record with the given fields and packed flag word `tmp`.
pub open spec fn param_info(index: u32, ordinal: u16, offset: u16, tmp: u32) -> NVInfoSvalModel {
    NVInfoSvalModel::KParamInfoValue {
        index,
        ordinal,
        offset,
        log_alignment: (tmp & 0xff) as u8,
        space: ((tmp >> 8u32) & 0xf) as u8,
        cbank: ((tmp >> 12u32) & 0x1f) as u8,
        is_cbank: ((tmp >> 16u32) & 2) == 0,
        size_bytes: (((tmp >> 16u32) & 0xffff) >> 2u32) as u16,
    }
}

/// The payload of a sized value of attribute `attr`, declared `size` bytes
/// long and starting at `s[start]`.
pub open spec fn sval_of(
    attr: NVInfoAttribute,
    s: Seq<u8>,
    start: int,
    size: u16,
    syms: Seq<Option<Seq<char>>>,
) -> Result<NVInfoSvalModel, ParseError> {
    let end = start + size;
    match attr {
        NVInfoAttribute::EIATTR_KPARAM_INFO => {
            if size != 12 {
                Err(ParseError::SizeMismatch)
            } else if end > s.len() {
                Err(ParseError::TruncatedInput)
            } else {
                Ok(
                    param_info(
                        le_u32(s, start),
                        le_u16(s, start + 4),
                        le_u16(s, start + 6),
                        le_u32(s, start + 8),
                    ),
                )
            }
        },
        NVInfoAttribute::EIATTR_EXTERNS => {
            if size != 4 {
                Err(ParseError::SizeMismatch)
            } else if end > s.len() {
                Err(ParseError::TruncatedInput)
            } else {
                let index = le_u32(s, start);
                if index < syms.len() && syms[index as int] is Some {
                    Ok(NVInfoSvalModel::ExternSValue { index, value: syms[index as int]->0 })
                } else {
                    Err(ParseError::UnresolvedSymbol)
                }
            }
        },
        _ => {
            if size % 4 != 0 {
                Err(ParseError::SizeMismatch)
            } else if end > s.len() {
                Err(ParseError::TruncatedInput)
            } else {
                Ok(NVInfoSvalModel::Other { data: le_words(s, start, (size / 4) as nat) })
            }
        },
    }
}

/// The number of bytes the item at `s[pos]` takes: four bytes of tags and
/// field, and for a sized value the payload it declares.
pub open spec fn item_len(s: Seq<u8>, pos: int) -> int {
    if format_of_code(s[pos]) == Some(NVInfoFormat::EIFMT_SVAL) {
        4 + le_u16(s, pos + 2)
    } else {
        4
    }
}

/// The item that starts at `s[pos]`, resolving extern symbols in `syms`.
pub open spec fn decode_item(s: Seq<u8>, pos: int, syms: Seq<Option<Seq<char>>>) -> Result<
    NVInfoItemModel,
    ParseError,
> {
    if pos + 4 > s.len() {
        Err(ParseError::TruncatedInput)
    } else {
        match format_of_code(s[pos]) {
            None => Err(ParseError::FormatError),
            Some(format) => {
                let attribute = attribute_of_code(s[pos + 1]);
                let field = le_u16(s, pos + 2);
                let value = match format {
                    NVInfoFormat::EIFMT_NVAL => Ok(NVInfoValueModel::NoValue(field)),
                    NVInfoFormat::EIFMT_BVAL => Ok(NVInfoValueModel::BVal(field)),
                    NVInfoFormat::EIFMT_HVAL => Ok(NVInfoValueModel::HVal(field)),
                    NVInfoFormat::EIFMT_SVAL => match sval_of(attribute, s, pos + 4, field, syms) {
                        Ok(v) => Ok(NVInfoValueModel::SVal { value_size: field, value: v }),
                        Err(e) => Err(e),
                    },
                };
                match value {
                    Ok(value) => Ok(NVInfoItemModel { format, attribute, value }),
                    Err(e) => Err(e),
                }
            },
        }
    }
}

/// The items of `s` from `s[pos]` to its end, in order; the first error met otherwise.
pub open spec fn decode_items(s: Seq<u8>, pos: int, syms: Seq<Option<Seq<char>>>) -> Result<
    Seq<NVInfoItemModel>,
    ParseError,
>
    decreases s.len() - pos,
{
    if pos >= s.len() {
        Ok(Seq::empty())
    } else {
        match decode_item(s, pos, syms) {
            Err(e) => Err(e),
            Ok(item) => match decode_items(s, pos + item_len(s, pos), syms) {
                Ok(rest) => Ok(seq![item] + rest),
                Err(e) => Err(e),
            },
        }
    }
}

/// `r` with `prefix` put before the items it holds.
pub open spec fn prefixed<T>(prefix: Seq<T>, r: Result<Seq<T>, ParseError>) -> Result<
    Seq<T>,
    ParseError,
> {
    match r {
        Ok(rest) => Ok(prefix + rest),
        Err(e) => Err(e),
    }
}

/// Decodes the payload of a sized value of attribute `attr`.
fn decode_sval(
    attr: NVInfoAttribute,
    s: &[u8],
    start: usize,
    size: u16,
    symbols: &Vec<Option<String>>,
) -> (r: Result<NVInfoSvalValue, ParseError>)
    requires
        start <= s@.len(),
    ensures
        match r {
            Ok(v) => sval_of(attr, s@, start as int, size, names_view(symbols@)) == Ok::<
                NVInfoSvalModel,
                ParseError,
            >(v@),
            Err(e) => sval_of(attr, s@, start as int, size, names_view(symbols@)) == Err::<
                NVInfoSvalModel,
                ParseError,
            >(e),
        },
{
    let avail = s.len() - start;
    match attr {
        NVInfoAttribute::EIATTR_KPARAM_INFO => {
            if size != 12 {
                Err(ParseError::SizeMismatch)
            } else if avail < 12 {
                Err(ParseError::TruncatedInput)
            } else {
                let index = read_u32(s, start);
                let ordinal = read_u16(s, start + 4);
                let offset = read_u16(s, start + 6);
                let tmp = read_u32(s, start + 8);
                Ok(
                    NVInfoSvalValue::KParamInfoValue {
                        index,
                        ordinal,
                        offset,
                        log_alignment: (tmp & 0xff) as u8,
                        space: ((tmp >> 8u32) & 0xf) as u8,
                        cbank: ((tmp >> 12u32) & 0x1f) as u8,
                        is_cbank: ((tmp >> 16u32) & 2) == 0,
                        size_bytes: (((tmp >> 16u32) & 0xffff) >> 2u32) as u16,
                    },
                )
            }
        },
        NVInfoAttribute::EIATTR_EXTERNS => {
            if size != 4 {
                Err(ParseError::SizeMismatch)
            } else if avail < 4 {
                Err(ParseError::TruncatedInput)
            } else {
                let index = read_u32(s, start);
                if (index as usize) < symbols.len() {
                    match &symbols[index as usize] {
                        Some(name) => Ok(
                            NVInfoSvalValue::ExternSValue { index, value: name.clone() },
                        ),
                        None => Err(ParseError::UnresolvedSymbol),
                    }
                } else {
                    Err(ParseError::UnresolvedSymbol)
                }
            }
        },
        _ => {
            if size % 4 != 0 {
                Err(ParseError::SizeMismatch)
            } else if avail < size as usize {
                Err(ParseError::TruncatedInput)
            } else {
                let data = read_words(s, start, (size / 4) as usize);
                Ok(NVInfoSvalValue::Other { data })
            }
        },
    }
}

/// Decodes the item that starts at `s[pos]` and returns it with the position
/// just past it.
fn decode_one(s: &[u8], pos: usize, symbols: &Vec<Option<String>>) -> (r: Result<
    (NVInfoItem, usize),
    ParseError,
>)
    requires
        pos <= s@.len(),
    ensures
        match r {
            Ok((item, next)) => {
                &&& decode_item(s@, pos as int, names_view(symbols@)) == Ok::<
                    NVInfoItemModel,
                    ParseError,
                >(item@)
                &&& next == pos + item_len(s@, pos as int)
                &&& next <= s@.len()
            },
            Err(e) => decode_item(s@, pos as int, names_view(symbols@)) == Err::<
                NVInfoItemModel,
                ParseError,
            >(e),
        },
{
    if s.len() - pos < 4 {
        return Err(ParseError::TruncatedInput);
    }
    let format = match NVInfoFormat::from_code(s[pos]) {
        Some(f) => f,
        None => {
            return Err(ParseError::FormatError);
        },
    };
    let attribute = NVInfoAttribute::from_code(s[pos + 1]);
    let field = read_u16(s, pos + 2);
    let value = match format {
        NVInfoFormat::EIFMT_NVAL => NVInfoValue::NoValue(field),
        NVInfoFormat::EIFMT_BVAL => NVInfoValue::BVal(field),
        NVInfoFormat::EIFMT_HVAL => NVInfoValue::HVal(field),
        NVInfoFormat::EIFMT_SVAL => {
            let v = decode_sval(attribute, s, pos + 4, field, symbols)?;
            NVInfoValue::SVal(NVInfoSval { value_size: field, value: v })
        },
    };
    let next = if format == NVInfoFormat::EIFMT_SVAL {
        pos + 4 + field as usize
    } else {
        pos + 4
    };
    Ok((NVInfoItem { format, attribute, value }, next))
}

/// Decodes the bytes of one `.nv.info.*` section into its items, in on-disk
/// order. `symbols` holds the names of the ELF symbol table by index, and
/// resolves the index that an extern-symbol item carries.
pub fn decode_section(s: &[u8], symbols: &Vec<Option<String>>) -> (r: Result<
    Vec<NVInfoItem>,
    ParseError,
>)
    ensures
        items_result_view(r) == decode_items(s@, 0, names_view(symbols@)),
{
    let ghost syms = names_view(symbols@);
    let mut items: Vec<NVInfoItem> = Vec::new();
    let mut pos: usize = 0;
    while pos < s.len()
        invariant
            pos <= s@.len(),
            decode_items(s@, 0, syms) == prefixed(items_view(items@), decode_items(s@, pos as int, syms)),
            syms == names_view(symbols@),
        decreases s@.len() - pos,
    {
        let ghost before = items_view(items@);
        match decode_one(s, pos, symbols) {
            Ok((item, next)) => {
                proof {
                    let rest = decode_items(s@, next as int, syms);
                    assert(items_view(items@.push(item)) =~= before.push(item@));
                    if let Ok(tail) = rest {
                        assert(before + (seq![item@] + tail) =~= before.push(item@) + tail);
                    }
                }
                items.push(item);
                pos = next;
            },
            Err(e) => {
                return Err(e);
            },
        }
    }
    assert(items_view(items@) + Seq::<NVInfoItemModel>::empty() =~= items_view(items@));
    Ok(items)
}

/// The characters `.nv.info.` that start the name of a kernel-metadata section.
pub open spec fn nvinfo_prefix() -> Seq<char> {
    seq!['.', 'n', 'v', '.', 'i', 'n', 'f', 'o', '.']
}

/// Whether a section of this name holds kernel metadata.
pub open spec fn is_nvinfo_name(n: Seq<char>) -> bool {
    n.len() >= 9 && n.take(9) == nvinfo_prefix()
}

/// Whether `name` starts with `.nv.info.`.
pub fn is_nvinfo_section(name: &String) -> (r: bool)
    ensures
        r == is_nvinfo_name(name@),
{
    let n = name.as_str();
    if n.unicode_len() < 9 {
        return false;
    }
    let r = n.get_char(0) == '.' && n.get_char(1) == 'n' && n.get_char(2) == 'v' && n.get_char(3)
        == '.' && n.get_char(4) == 'i' && n.get_char(5) == 'n' && n.get_char(6) == 'f'
        && n.get_char(7) == 'o' && n.get_char(8) == '.';
    assert(r <==> n@.take(9) =~= nvinfo_prefix());
    r
}

/// The models of a list of decoded sections.
pub open spec fn sections_view(v: Seq<(String, Vec<NVInfoItem>)>) -> Seq<
    (Seq<char>, Seq<NVInfoItemModel>),
> {
    v.map_values(|p: (String, Vec<NVInfoItem>)| (p.0@, items_view(p.1@)))
}

/// The model of the result of [`parse`].
pub open spec fn sections_result_view(r: Result<Vec<(String, Vec<NVInfoItem>)>, ParseError>) -> Result<
    Seq<(Seq<char>, Seq<NVInfoItemModel>)>,
    ParseError,
> {
    match r {
        Ok(v) => Ok(sections_view(v@)),
        Err(e) => Err(e),
    }
}

/// What one section header of the image `data` contributes: `None` for a
/// section that is not kernel metadata, else its name and items.
pub open spec fn section_entry(
    data: Seq<u8>,
    sec: (Option<Seq<char>>, Option<(usize, usize)>),
    syms: Seq<Option<Seq<char>>>,
) -> Result<Option<(Seq<char>, Seq<NVInfoItemModel>)>, ParseError> {
    match sec.0 {
        None => Err(ParseError::FormatError),
        Some(name) => if !is_nvinfo_name(name) {
            Ok(None)
        } else {
            match sec.1 {
                None => Err(ParseError::FormatError),
                Some((start, end)) => if start > end || end > data.len() {
                    Err(ParseError::TruncatedInput)
                } else {
                    match decode_items(data.subrange(start as int, end as int), 0, syms) {
                        Ok(items) => Ok(Some((name, items))),
                        Err(e) => Err(e),
                    }
                },
            }
        },
    }
}

/// The kernel-metadata sections among `secs[i..]`, in order.
pub open spec fn nvinfo_sections(
    data: Seq<u8>,
    secs: Seq<(Option<Seq<char>>, Option<(usize, usize)>)>,
    syms: Seq<Option<Seq<char>>>,
    i: int,
) -> Result<Seq<(Seq<char>, Seq<NVInfoItemModel>)>, ParseError>
    decreases secs.len() - i,
{
    if i >= secs.len() || i < 0 {
        Ok(Seq::empty())
    } else {
        match section_entry(data, secs[i], syms) {
            Err(e) => Err(e),
            Ok(entry) => match nvinfo_sections(data, secs, syms, i + 1) {
                Err(e) => Err(e),
                Ok(rest) => match entry {
                    Some(x) => Ok(seq![x] + rest),
                    None => Ok(rest),
                },
            },
        }
    }
}

/// The result of decoding the cubin `data`: each `.nv.info.*` section with
/// its items, in section-header order.
pub open spec fn cubin_model(data: Seq<u8>) -> Result<
    Seq<(Seq<char>, Seq<NVInfoItemModel>)>,
    ParseError,
> {
    match elf_tables_of(data) {
        None => Err(ParseError::FormatError),
        Some((secs, syms)) => nvinfo_sections(data, secs, syms, 0),
    }
}

/// Decodes one section header of `data`.
fn decode_entry(data: &[u8], sec: &ElfSection, symbols: &Vec<Option<String>>) -> (r: Result<
    Option<(String, Vec<NVInfoItem>)>,
    ParseError,
>)
    ensures
        match r {
            Ok(Some(p)) => section_entry(data@, section_view(*sec), names_view(symbols@))
                == Ok::<_, ParseError>(Some((p.0@, items_view(p.1@)))),
            Ok(None) => section_entry(data@, section_view(*sec), names_view(symbols@))
                == Ok::<Option<(Seq<char>, Seq<NVInfoItemModel>)>, ParseError>(None),
            Err(e) => section_entry(data@, section_view(*sec), names_view(symbols@))
                == Err::<Option<(Seq<char>, Seq<NVInfoItemModel>)>, ParseError>(e),
        },
{
    let name = match &sec.name {
        Some(n) => n,
        None => {
            return Err(ParseError::FormatError);
        },
    };
    if !is_nvinfo_section(name) {
        return Ok(None);
    }
    let (start, end) = match sec.range {
        Some(r) => r,
        None => {
            return Err(ParseError::FormatError);
        },
    };
    if start > end || end > data.len() {
        return Err(ParseError::TruncatedInput);
    }
    let items = decode_section(&data[start..end], symbols)?;
    Ok(Some((name.clone(), items)))
}

/// Decodes every `.nv.info.*` section of the cubin (ELF image) `data`, in
/// section-header order, with the items of each in on-disk order.
pub fn parse(data: &[u8]) -> (r: Result<Vec<(String, Vec<NVInfoItem>)>, ParseError>)
    ensures
        sections_result_view(r) == cubin_model(data@),
{
    let tables = match read_elf_tables(data) {
        Some(t) => t,
        None => {
            return Err(ParseError::FormatError);
        },
    };
    let ghost secs = tables_view(tables).0;
    let ghost syms = names_view(tables.symbols@);
    let mut out: Vec<(String, Vec<NVInfoItem>)> = Vec::new();
    let mut i: usize = 0;
    while i < tables.sections.len()
        invariant
            i <= tables.sections@.len(),
            elf_tables_of(data@) == Some(tables_view(tables)),
            secs == tables_view(tables).0,
            syms == names_view(tables.symbols@),
            nvinfo_sections(data@, secs, syms, 0) == prefixed(
                sections_view(out@),
                nvinfo_sections(data@, secs, syms, i as int),
            ),
        decreases tables.sections@.len() - i,
    {
        let ghost before = sections_view(out@);
        let entry = decode_entry(data, &tables.sections[i], &tables.symbols);
        match entry {
            Ok(Some(p)) => {
                proof {
                    if let Ok(tail) = nvinfo_sections(data@, secs, syms, i + 1) {
                        assert(before + (seq![(p.0@, items_view(p.1@))] + tail) =~= before.push(
                            (p.0@, items_view(p.1@)),
                        ) + tail);
                    }
                }
                out.push(p);
                proof {
                    assert(sections_view(out@) =~= before.push((p.0@, items_view(p.1@))));
                }
            },
            Ok(None) => {},
            Err(e) => {
                return Err(e);
            },
        }
        i = i + 1;
    }
    assert(sections_view(out@) + Seq::<(Seq<char>, Seq<NVInfoItemModel>)>::empty() =~= sections_view(out@));
    Ok(out)
}

/// The fields of a parameter record follow from its packed word `tmp` by
/// these bit ranges: the log-alignment is bits 0-7, the address space bits
/// 8-11, the constant bank bits 12-16, the record lies in a constant bank
/// exactly when bit 17 is clear, and the size in bytes is bits 18-31. A zero
/// word gives all-zero fields in a constant bank.
pub proof fn lemma_param_info_bits(index: u32, ordinal: u16, offset: u16, tmp: u32)
    ensures
        param_info(index, ordinal, offset, tmp) == (NVInfoSvalModel::KParamInfoValue {
            index,
            ordinal,
            offset,
            log_alignment: (tmp % 0x100) as u8,
            space: ((tmp / 0x100) % 0x10) as u8,
            cbank: ((tmp / 0x1000) % 0x20) as u8,
            is_cbank: (tmp / 0x2_0000) % 2 == 0,
            size_bytes: (tmp / 0x4_0000) as u16,
        }),
        tmp == 0 ==> param_info(index, ordinal, offset, tmp) == (NVInfoSvalModel::KParamInfoValue {
            index,
            ordinal,
            offset,
            log_alignment: 0,
            space: 0,
            cbank: 0,
            is_cbank: true,
            size_bytes: 0,
        }),
{
    assert((tmp & 0xff) == tmp % 0x100) by (bit_vector);
    assert(((tmp >> 8u32) & 0xf) == (tmp / 0x100) % 0x10) by (bit_vector);
    assert(((tmp >> 12u32) & 0x1f) == (tmp / 0x1000) % 0x20) by (bit_vector);
    assert((((tmp >> 16u32) & 2) == 0) == ((tmp / 0x2_0000) % 2 == 0)) by (bit_vector);
    assert((((tmp >> 16u32) & 0xffff) >> 2u32) == tmp / 0x4_0000) by (bit_vector);
}

/// A sized-value item whose attribute code lies outside the catalog, and
/// whose declared length is a multiple of four and fits in the section,
/// decodes without error to the payload as little-endian words.
pub proof fn lemma_unknown_attribute_decodes(s: Seq<u8>, pos: int, syms: Seq<Option<Seq<char>>>)
    requires
        0 <= pos,
        pos + 4 <= s.len(),
        s[pos] == 4,
        s[pos + 1] > 64,
        le_u16(s, pos + 2) % 4 == 0,
        pos + 4 + le_u16(s, pos + 2) <= s.len(),
    ensures
        decode_item(s, pos, syms) == Ok::<NVInfoItemModel, ParseError>(
            NVInfoItemModel {
                format: NVInfoFormat::EIFMT_SVAL,
                attribute: NVInfoAttribute::EIATTR_UNKNOWN(s[pos + 1]),
                value: NVInfoValueModel::SVal {
                    value_size: le_u16(s, pos + 2),
                    value: NVInfoSvalModel::Other {
                        data: le_words(s, pos + 4, (le_u16(s, pos + 2) / 4) as nat),
                    },
                },
            },
        ),
{
}

/// A parameter-record item whose declared length is not twelve is refused
/// with `SizeMismatch`.
pub proof fn lemma_param_info_size_checked(s: Seq<u8>, pos: int, syms: Seq<Option<Seq<char>>>)
    requires
        0 <= pos,
        pos + 4 <= s.len(),
        s[pos] == 4,
        s[pos + 1] == 0x17,
        le_u16(s, pos + 2) != 12,
    ensures
        decode_item(s, pos, syms) == Err::<NVInfoItemModel, ParseError>(ParseError::SizeMismatch),
{
}

/// Decoding the same cubin bytes twice gives the same result.
pub proof fn lemma_parse_deterministic(
    a: Seq<u8>,
    b: Seq<u8>,
    ra: Result<Vec<(String, Vec<NVInfoItem>)>, ParseError>,
    rb: Result<Vec<(String, Vec<NVInfoItem>)>, ParseError>,
)
    requires
        a == b,
        sections_result_view(ra) == cubin_model(a),
        sections_result_view(rb) == cubin_model(b),
    ensures
        sections_result_view(ra) == sections_result_view(rb),
{
}

} // verus!
