use vstd::prelude::*;

use crate::booltable::{flag_at, with_flag, BoolTable16};
use crate::operand::{Mem, Operand, SegReg};
use crate::apx::{apx_variant_code, apx_variant_from_code, APXVariant};
use crate::size::{size_code, size_from_code, Size};

verus! {

/// Flag: the 0x66 operand-size override may be emitted.
pub const CAN_H66O: u8 = 0x3;
/// Flag: the immediate is written big endian (otherwise little endian).
pub const IMM_LEBE: u8 = 0x4;
/// Flag: a segment override may be emitted.
pub const CAN_SEGM: u8 = 0x5;
/// Flag: a ModRM byte is emitted.
pub const USE_MODRM: u8 = 0x6;
/// Flag: an immediate is taken from the operand at the index stored in `addt`.
pub const IMM: u8 = 0x9;
/// Flag: ModRM.mod is forced to the value stored in `addt2`.
pub const SET_MODRM: u8 = 0xA;
/// Flag: only the forced prefix kind may be generated.
pub const STRICT_PFX: u8 = 0xB;
/// Flag: the instruction size is fixed to the size stored in `addt2`.
pub const FIXED_SIZE: u8 = 0xC;

/// Operand-order code of the (E)VEX.vvvv slot.
pub const EVEX_VVVV: u8 = 0b10;

/// Forced prefix kinds.
pub const PREFIX_NONE: u8 = 0b000;
pub const PREFIX_REX: u8 = 0b001;
pub const PREFIX_VEX: u8 = 0b010;
pub const PREFIX_EVEX: u8 = 0b011;
pub const PREFIX_APX: u8 = 0b100;

/// Where an operand is encoded.
#[allow(non_camel_case_types)]
#[derive(Clone, Copy, Debug, PartialEq, Eq, Structural)]
pub enum OpOrd {
    MODRM_RM,
    MODRM_REG,
    VEX_VVVV,
    TSRC,
}

/// The two-bit code of an operand slot.
pub open spec fn opord_code(o: OpOrd) -> u8 {
    match o {
        OpOrd::MODRM_RM => 0,
        OpOrd::MODRM_REG => 1,
        OpOrd::VEX_VVVV => 2,
        OpOrd::TSRC => 3,
    }
}

/// The operand slot whose code is the low two bits of `c`.
pub open spec fn opord_from_code(c: u8) -> OpOrd {
    let v = c & 3;
    if v == 0 {
        OpOrd::MODRM_RM
    } else if v == 1 {
        OpOrd::MODRM_REG
    } else if v == 2 {
        OpOrd::VEX_VVVV
    } else {
        OpOrd::TSRC
    }
}

impl OpOrd {
    /// The two-bit code of this slot.
    pub fn code(self) -> (c: u8)
        ensures
            c == opord_code(self),
            c < 4,
    {
        match self {
            OpOrd::MODRM_RM => 0,
            OpOrd::MODRM_REG => 1,
            OpOrd::VEX_VVVV => 2,
            OpOrd::TSRC => 3,
        }
    }

    /// The slot whose code is the low two bits of `c`.
    pub fn from_code(c: u8) -> (o: OpOrd)
        ensures
            o == opord_from_code(c),
    {
        let v = c & 3;
        if v == 0 {
            OpOrd::MODRM_RM
        } else if v == 1 {
            OpOrd::MODRM_REG
        } else if v == 2 {
            OpOrd::VEX_VVVV
        } else {
            OpOrd::TSRC
        }
    }
}

/// An optional boolean packed in a byte: bit 1 says whether it is present, bit 0 is its value.
#[derive(Clone, Copy, Debug, PartialEq, Eq)]
pub struct MegaBool {
    pub data: u8,
}

/// The optional boolean that a packed byte holds.
pub open spec fn megabool_value(data: u8) -> Option<bool> {
    if data & 2 == 2 {
        Some(data & 1 == 1)
    } else {
        None
    }
}

/// The packed byte of an optional boolean.
pub open spec fn megabool_data(op: Option<bool>) -> u8 {
    match op {
        Some(b) => if b {
            3u8
        } else {
            2u8
        },
        None => 0u8,
    }
}

impl MegaBool {
    /// Wraps a packed byte as it is.
    pub fn from_byte(b: u8) -> (m: Self)
        ensures
            m.data == b,
    {
        MegaBool { data: b }
    }

    /// Packs an optional boolean.
    pub fn set(op: Option<bool>) -> (m: Self)
        ensures
            m.data == megabool_data(op),
            megabool_value(m.data) == op,
    {
        let data: u8 = match op {
            Some(b) => if b {
                3
            } else {
                2
            },
            None => 0,
        };
        proof {
            lemma_byte_consts();
        }
        MegaBool { data }
    }

    /// The optional boolean held.
    pub fn get(&self) -> (r: Option<bool>)
        ensures
            r == megabool_value(self.data),
    {
        if self.data & 0b10 == 0b10 {
            Some(self.data & 0b01 == 0b01)
        } else {
            None
        }
    }
}

/// Up to four operand slots, two bits each, slot `i` in bits `2i..2i+2`.
#[derive(Clone, Copy, Debug, PartialEq, Eq)]
pub struct OperandOrder {
    pub ord: u8,
}

/// The packed form of the first `k` slots of `s`.
pub open spec fn pack_ord_upto(s: Seq<OpOrd>, k: int) -> u8
    decreases k,
{
    if k <= 0 {
        0
    } else {
        pack_ord_upto(s, k - 1) | (opord_code(s[k - 1]) << ((2 * (k - 1)) as u8))
    }
}

/// The packed form of a whole operand order.
pub open spec fn pack_ord(s: Seq<OpOrd>) -> u8 {
    pack_ord_upto(s, s.len() as int)
}

/// Slot `i` of a packed operand order.
pub open spec fn ord_slot(ord: u8, i: int) -> OpOrd {
    opord_from_code((ord >> ((2 * i) as u8)) & 3)
}

/// The slot read back at `i` from a packed order of `s`: `s[i]` inside `s`, MODRM_RM after it.
pub open spec fn slot_of(s: Seq<OpOrd>, i: int) -> OpOrd {
    if i < s.len() {
        s[i]
    } else {
        OpOrd::MODRM_RM
    }
}

/// Small facts about the byte constants the packed fields use.
proof fn lemma_byte_consts()
    by (bit_vector)
    ensures
        0u8 & 3 == 0,
        1u8 & 3 == 1,
        2u8 & 3 == 2,
        3u8 & 3 == 3,
        3u8 & 2 == 2,
        3u8 & 1 == 1,
        2u8 & 2 == 2,
        2u8 & 1 == 0,
        0u8 & 2 == 0,
        0u8 & 0x80 == 0,
{
}

/// Facts about one byte: its low two bits, and OR with zero.
proof fn lemma_byte_misc(o: u8)
    by (bit_vector)
    ensures
        o & 3 == (o >> 0u8) & 3,
        0u8 | o == o,
        o & 3 < 4,
        (o & 0x38) >> 3u8 < 8,
        (o & 0xE0) >> 5u8 < 8,
        o & 7 < 8,
{
}

/// Doubling a slot index below 4 by a shift.
proof fn lemma_slot_shift(i: u8)
    by (bit_vector)
    requires
        i < 4,
    ensures
        (i << 1u8) == (2 * i) as u8,
        (i << 1u8) < 8,
{
}

proof fn lemma_pack4(c0: u8, c1: u8, c2: u8, c3: u8)
    by (bit_vector)
    requires
        c0 < 4,
        c1 < 4,
        c2 < 4,
        c3 < 4,
    ensures
        ((c0 | (c1 << 2u8) | (c2 << 4u8) | (c3 << 6u8)) >> 0u8) & 3 == c0,
        ((c0 | (c1 << 2u8) | (c2 << 4u8) | (c3 << 6u8)) >> 2u8) & 3 == c1,
        ((c0 | (c1 << 2u8) | (c2 << 4u8) | (c3 << 6u8)) >> 4u8) & 3 == c2,
        ((c0 | (c1 << 2u8) | (c2 << 4u8) | (c3 << 6u8)) >> 6u8) & 3 == c3,
        0u8 == 0u8 | (0u8 << 2u8) | (0u8 << 4u8) | (0u8 << 6u8),
        0u8 | (c0 << 0u8) == c0 | (0u8 << 2u8) | (0u8 << 4u8) | (0u8 << 6u8),
        (0u8 | (c0 << 0u8)) | (c1 << 2u8) == c0 | (c1 << 2u8) | (0u8 << 4u8) | (0u8 << 6u8),
        ((0u8 | (c0 << 0u8)) | (c1 << 2u8)) | (c2 << 4u8) == c0 | (c1 << 2u8) | (c2 << 4u8) | (0u8
            << 6u8),
        (((0u8 | (c0 << 0u8)) | (c1 << 2u8)) | (c2 << 4u8)) | (c3 << 6u8) == c0 | (c1 << 2u8) | (
        c2 << 4u8) | (c3 << 6u8),
{
}

proof fn lemma_code_from_code(o: OpOrd)
    ensures
        opord_from_code(opord_code(o)) == o,
        opord_code(o) < 4,
{
    lemma_byte_consts();
}

/// Packing an order of at most four slots and reading slot `i` back gives slot `i` of the
/// order, and MODRM_RM for the slots that the order does not fill.
pub proof fn lemma_pack_ord_readback(s: Seq<OpOrd>, i: int)
    requires
        s.len() <= 4,
        0 <= i < 4,
    ensures
        ord_slot(pack_ord(s), i) == slot_of(s, i),
{
    let c0: u8 = if 0 < s.len() { opord_code(s[0]) } else { 0 };
    let c1: u8 = if 1 < s.len() { opord_code(s[1]) } else { 0 };
    let c2: u8 = if 2 < s.len() { opord_code(s[2]) } else { 0 };
    let c3: u8 = if 3 < s.len() { opord_code(s[3]) } else { 0 };
    assert(c0 < 4 && c1 < 4 && c2 < 4 && c3 < 4);
    let p1 = pack_ord_upto(s, 1);
    let p2 = pack_ord_upto(s, 2);
    let p3 = pack_ord_upto(s, 3);
    let p4 = pack_ord_upto(s, 4);
    assert(pack_ord_upto(s, 0) == 0);
    lemma_pack4(c0, c1, c2, c3);
    if s.len() >= 1 {
        assert(p1 == 0u8 | (c0 << 0u8));
    }
    if s.len() >= 2 {
        assert(p2 == p1 | (c1 << 2u8));
    }
    if s.len() >= 3 {
        assert(p3 == p2 | (c2 << 4u8));
    }
    if s.len() >= 4 {
        assert(p4 == p3 | (c3 << 6u8));
    }
    assert(pack_ord(s) == c0 | (c1 << 2u8) | (c2 << 4u8) | (c3 << 6u8));
    lemma_byte_consts();
    if i < s.len() {
        lemma_code_from_code(s[i]);
    }
}

impl OperandOrder {
    /// Packs an order of at most four slots; `None` for a longer one.
    pub fn new(op: &[OpOrd]) -> (r: Option<Self>)
        ensures
            op@.len() > 4 ==> r.is_none(),
            op@.len() <= 4 ==> r == Some(OperandOrder { ord: pack_ord(op@) }),
    {
        if op.len() > 4 {
            None
        } else {
            let mut val: u8 = 0;
            let mut idx: usize = 0;
            while idx < op.len()
                invariant
                    op@.len() <= 4,
                    idx <= op@.len(),
                    val == pack_ord_upto(op@, idx as int),
                decreases op@.len() - idx,
            {
                let c = op[idx].code();
                let sh: u8 = (idx as u8) << 1u8;
                proof {
                    lemma_slot_shift(idx as u8);
                }
                val = val | (c << sh);
                idx = idx + 1;
            }
            Some(OperandOrder { ord: val })
        }
    }

    /// Slot `idx`; `None` beyond four slots.
    pub fn get(&self, idx: u8) -> (r: Option<OpOrd>)
        requires
            idx != 4,
        ensures
            idx > 4 ==> r.is_none(),
            idx < 4 ==> r == Some(ord_slot(self.ord, idx as int)),
    {
        if idx > 4 {
            None
        } else if idx == 0 {
            proof {
                lemma_byte_misc(self.ord);
            }
            Some(OpOrd::from_code(self.ord & 0b11))
        } else {
            let sh: u8 = idx << 1u8;
            proof {
                lemma_slot_shift(idx);
            }
            let opr = (self.ord >> sh) & 0b11;
            Some(OpOrd::from_code(opr))
        }
    }

    /// Whether the first slot is ModRM.reg.
    pub fn modrm_reg_is_dst(&self) -> (r: bool)
        ensures
            r == (self.ord & 3 == 1),
    {
        self.ord & 0b0000_0011 == 1
    }

    /// All four slots.
    pub fn deserialize(&self) -> (r: [OpOrd; 4])
        ensures
            forall|i: int| 0 <= i < 4 ==> #[trigger] r@[i] == ord_slot(self.ord, i),
    {
        let a = self.get(0).unwrap();
        let b = self.get(1).unwrap();
        let c = self.get(2).unwrap();
        let d = self.get(3).unwrap();
        let r = [a, b, c, d];
        assert(r@[0] == a && r@[1] == b && r@[2] == c && r@[3] == d);
        r
    }
}

/// An optional ModRM.reg override packed in a byte: bit 7 says whether it is present, bits 3..6
/// hold it.
#[derive(Clone, Copy, Debug, PartialEq, Eq)]
pub struct ModrmTuple {
    pub data: u8,
}

/// The packed byte of an optional ModRM.reg override.
pub open spec fn modrm_tuple_data(reg: Option<u8>) -> u8 {
    match reg {
        Some(r) => 0x80u8 | (r << 3u8),
        None => 0u8,
    }
}

/// The override that a packed byte holds.
pub open spec fn modrm_tuple_reg(data: u8) -> Option<u8> {
    if data & 0x80 == 0x80 {
        Some(((data & 0x38) >> 3u8) as u8)
    } else {
        None
    }
}

/// An override below 8 is read back as it was packed.
pub proof fn lemma_modrm_tuple_roundtrip(reg: Option<u8>)
    requires
        reg matches Some(r) ==> r < 8,
    ensures
        modrm_tuple_reg(modrm_tuple_data(reg)) == reg,
{
    match reg {
        Some(r) => {
            lemma_reg_pack(r);
        },
        None => {
            lemma_byte_consts();
        },
    }
}

proof fn lemma_reg_pack(r: u8)
    by (bit_vector)
    requires
        r < 8,
    ensures
        (0x80u8 | (r << 3u8)) & 0x80 == 0x80,
        (((0x80u8 | (r << 3u8)) & 0x38) >> 3u8) == r,
{
}

impl ModrmTuple {
    /// Packs an optional override.
    pub fn new(reg: Option<u8>) -> (m: Self)
        ensures
            m.data == modrm_tuple_data(reg),
    {
        match reg {
            Some(r) => ModrmTuple { data: 0x80u8 | (r << 3u8) },
            None => ModrmTuple { data: 0 },
        }
    }

    /// The override held.
    pub fn reg(&self) -> (r: Option<u8>)
        ensures
            r == modrm_tuple_reg(self.data),
    {
        if self.data & 0b10_000000 == 0b10_000000 {
            Some((self.data & 0b00_111000) >> 3u8)
        } else {
            None
        }
    }

    /// The override held (same as [`ModrmTuple::reg`]).
    pub fn deserialize(&self) -> (r: Option<u8>)
        ensures
            r == modrm_tuple_reg(self.data),
    {
        self.reg()
    }

    /// The packed byte.
    pub fn data(&self) -> (r: u8)
        ensures
            r == self.data,
    {
        self.data
    }
}

/// The (E)VEX details of an instruction: pp as a legacy prefix byte, map_select as an escape
/// byte (or a raw map number for EVEX), W/E and the vector length.
#[derive(Clone, Copy, Debug)]
pub struct VexDetails {
    pub pp: u8,
    pub map_select: u8,
    pub vex_we: bool,
    pub vlength: MegaBool,
}

impl VexDetails {
    /// pp 0, map_select 0, W/E clear, no vector length.
    pub fn new() -> (d: Self)
        ensures
            d.pp == 0,
            d.map_select == 0,
            !d.vex_we,
            d.vlength.data == 0,
    {
        VexDetails { pp: 0, map_select: 0, vex_we: false, vlength: MegaBool::set(None) }
    }

    /// Sets the vector length.
    pub fn vlength(self, b: Option<bool>) -> (d: Self)
        ensures
            d == (VexDetails { vlength: MegaBool { data: megabool_data(b) }, ..self }),
    {
        VexDetails { vlength: MegaBool::set(b), ..self }
    }

    /// Sets W/E.
    pub fn vex_we(self, b: bool) -> (d: Self)
        ensures
            d == (VexDetails { vex_we: b, ..self }),
    {
        VexDetails { vex_we: b, ..self }
    }

    /// Sets map_select.
    pub fn map_select(self, u: u8) -> (d: Self)
        ensures
            d == (VexDetails { map_select: u, ..self }),
    {
        VexDetails { map_select: u, ..self }
    }

    /// Sets pp.
    pub fn pp(self, u: u8) -> (d: Self)
        ensures
            d == (VexDetails { pp: u, ..self }),
    {
        VexDetails { pp: u, ..self }
    }
}

impl Default for VexDetails {
    fn default() -> (d: Self)
        ensures
            d.pp == 0,
            d.map_select == 0,
            !d.vex_we,
            d.vlength.data == 0,
    {
        Self::new()
    }
}

/// The two-bit (E)VEX.pp code of a legacy prefix byte.
pub open spec fn spec_pp(v: u8) -> u8 {
    if v == 0x66 {
        0b01
    } else if v == 0xF3 {
        0b10
    } else if v == 0xF2 {
        0b11
    } else {
        0
    }
}

/// The VEX.map_select code of an opcode escape byte.
pub open spec fn spec_map_select(v: u8) -> u8 {
    if v == 0x0F {
        0b00001
    } else if v == 0x38 {
        0b00010
    } else if v == 0x3A {
        0b00011
    } else {
        0
    }
}

/// The (E)VEX.pp code of a legacy prefix byte: 0x66, 0xF3, 0xF2 map to 1, 2, 3, anything else
/// to 0.
pub fn pp(v: u8) -> (r: u8)
    ensures
        r == spec_pp(v),
        r < 4,
{
    if v == 0x66 {
        0b01
    } else if v == 0xF3 {
        0b10
    } else if v == 0xF2 {
        0b11
    } else {
        0
    }
}

/// The VEX.map_select code of an escape byte: 0x0F, 0x38, 0x3A map to 1, 2, 3, anything else
/// to 0.
pub fn map_select(v: u8) -> (r: u8)
    ensures
        r == spec_map_select(v),
        r < 4,
{
    if v == 0x0F {
        0b00001
    } else if v == 0x38 {
        0b00010
    } else if v == 0x3A {
        0b00011
    } else {
        0
    }
}

/// How an instruction is laid out in bytes: which prefix kind it forces, the prefix fields,
/// the opcode, how ModRM and the immediate are produced and in which order the operands go.
///
/// `meta_0` is `0bPPP0_0LLL`: PPP the forced prefix kind, LLL the opcode length.
/// With a (E)VEX prefix kind, `prefix` is `0bW_MMMMM_PP` (W/E, map_select, pp); with the APX
/// kind it is `0bAAAN_MMMM_MPPW_CCCC` (variant, ND, map_select, pp, W/E, condition code);
/// otherwise it is a legacy prefix byte. The low byte of `addt` holds the immediate's size
/// (high nibble) and operand index (low nibble); its high byte the (E)VEX vector length.
/// `addt2` holds the fixed size or the forced ModRM.mod.
#[derive(Clone, Copy, Debug)]
pub struct GenAPI {
    pub flags: BoolTable16,
    pub prefix: u16,
    pub addt: u16,
    pub opcode: [u8; 4],
    pub meta_0: u8,
    pub _reserved: [u8; 2],
    pub modrm_ovr: ModrmTuple,
    pub ord: OperandOrder,
    pub addt2: u8,
}

/// The forced prefix kind stored in `meta_0`.
pub open spec fn fpfx_of(meta: u8) -> u8 {
    ((meta & 0xE0) >> 5u8) as u8
}

/// `meta_0` with its forced prefix kind replaced by `v`.
pub open spec fn meta_with_fpfx(meta: u8, v: u8) -> u8 {
    (meta & !0xE0u8) | (v << 5u8)
}

/// The flags word with flag `idx` forced to `v`.
pub open spec fn flags_with(t: BoolTable16, idx: u8, v: bool) -> BoolTable16 {
    BoolTable16 { data: with_flag(t.data, idx as u16, v) }
}

/// The (E)VEX prefix word: W/E in bit 7, `ms` from bit 2, the pp code in bits 0..1.
pub open spec fn vex_prefix_word(we: bool, ms: u8, pp_code: u8) -> u16 {
    (if we {
        0x80u16
    } else {
        0u16
    }) | ((ms as u16) << 2u16) | (pp_code as u16)
}

/// The APX prefix word before a condition code is added.
pub open spec fn apx_prefix_word(variant: APXVariant, d: VexDetails, nd: bool) -> u16 {
    ((apx_variant_code(variant) as u16) << 13u16) | (if nd {
        0x1000u16
    } else {
        0u16
    }) | ((d.map_select as u16) << 7u16) | ((spec_pp(d.pp) as u16) << 5u16) | (if d.vex_we {
        0x10u16
    } else {
        0u16
    })
}

/// `addt` with its high byte replaced by a vector-length byte.
pub open spec fn addt_with_vlength(addt: u16, vl: u8) -> u16 {
    ((vl as u16) << 8u16) | (addt & 0xFF)
}

/// `addt` with its low byte replaced by an immediate's size and index.
pub open spec fn addt_with_imm(addt: u16, idx: u16, size: u16) -> u16 {
    ((size << 4u16) | (idx & 0xF)) | (addt & 0xFF00)
}

impl GenAPI {
    /// The forced prefix kind.
    pub open spec fn spec_fpfx(self) -> u8 {
        fpfx_of(self.meta_0)
    }

    /// Whether the (E)VEX prefix fields are in use.
    pub open spec fn uses_vex_fields(self) -> bool {
        self.spec_fpfx() == PREFIX_VEX || self.spec_fpfx() == PREFIX_EVEX
    }

    pub open spec fn spec_set_fpfx(self, v: u8) -> Self {
        GenAPI { meta_0: meta_with_fpfx(self.meta_0, v), ..self }
    }

    pub open spec fn spec_vex(self, d: VexDetails) -> Self {
        GenAPI {
            meta_0: meta_with_fpfx(self.meta_0, PREFIX_VEX),
            prefix: vex_prefix_word(d.vex_we, spec_map_select(d.map_select), spec_pp(d.pp)),
            addt: addt_with_vlength(self.addt, d.vlength.data),
            ..self
        }
    }

    pub open spec fn spec_evex(self, d: VexDetails) -> Self {
        GenAPI {
            meta_0: meta_with_fpfx(self.meta_0, PREFIX_EVEX),
            prefix: vex_prefix_word(d.vex_we, d.map_select, spec_pp(d.pp)),
            addt: addt_with_vlength(self.addt, d.vlength.data),
            ..self
        }
    }

    pub open spec fn spec_apx(self, variant: APXVariant, d: VexDetails, nd: bool) -> Self {
        GenAPI {
            meta_0: meta_with_fpfx(self.meta_0, PREFIX_APX),
            prefix: apx_prefix_word(variant, d, nd),
            ..self
        }
    }

    pub open spec fn spec_imm_atindex(self, idx: u16, size: u16) -> Self {
        GenAPI {
            flags: flags_with(self.flags, IMM, true),
            addt: addt_with_imm(self.addt, idx, size),
            ..self
        }
    }

    pub open spec fn spec_fixed_size(self, sz: Size) -> Self {
        GenAPI {
            flags: flags_with(self.flags, FIXED_SIZE, true),
            addt2: self.addt2 | size_code(sz),
            ..self
        }
    }

    pub open spec fn spec_get_pp(self) -> Option<u8> {
        if self.uses_vex_fields() {
            Some((self.prefix & 3) as u8)
        } else {
            None
        }
    }

    pub open spec fn spec_get_map_select(self) -> Option<u8> {
        if self.uses_vex_fields() {
            Some(((self.prefix & 0x7C) >> 2u16) as u8)
        } else {
            None
        }
    }

    pub open spec fn spec_get_vex_we(self) -> Option<bool> {
        if self.uses_vex_fields() {
            Some(self.prefix & 0x80 == 0x80)
        } else {
            None
        }
    }

    pub open spec fn spec_get_vex_vlength(self) -> Option<MegaBool> {
        if self.uses_vex_fields() {
            Some(MegaBool { data: ((self.addt & 0xFF00) >> 8u16) as u8 })
        } else {
            None
        }
    }

    pub open spec fn spec_get_size(self) -> Option<Size> {
        if self.flags.has(FIXED_SIZE as int) {
            size_from_code(self.addt2)
        } else {
            None
        }
    }

    pub open spec fn spec_apx_cccc(self) -> u8 {
        (self.prefix & 0xF) as u8
    }

    pub open spec fn spec_apx_nd(self) -> bool {
        self.prefix & 0x1000 == 0x1000
    }

    pub open spec fn spec_apx_map_select(self) -> u8 {
        ((self.prefix & 0xF80) >> 7u16) as u8
    }

    pub open spec fn spec_apx_pp(self) -> u8 {
        ((self.prefix & 0x60) >> 5u16) as u8
    }

    pub open spec fn spec_apx_vex_we(self) -> bool {
        self.prefix & 0x10 == 0x10
    }

    pub open spec fn spec_apx_version(self) -> Option<APXVariant> {
        if self.spec_fpfx() == PREFIX_EVEX {
            Some(APXVariant::EvexExtension)
        } else if self.spec_fpfx() == PREFIX_VEX {
            Some(APXVariant::VexExtension)
        } else if self.spec_fpfx() == PREFIX_APX {
            apx_variant_from_code(((self.prefix >> 13u16) & 7) as u8)
        } else {
            None
        }
    }

    /// A layout with no opcode, no prefix, no ModRM and no immediate; the 0x66 and segment
    /// overrides allowed; the operands in the order r/m, reg, vvvv, third source.
    pub fn new() -> (g: Self)
        ensures
            g.flags.data == with_flag(with_flag(0, CAN_H66O as u16, true), CAN_SEGM as u16, true),
            g.flags.has(CAN_H66O as int),
            g.flags.has(CAN_SEGM as int),
            forall|i: int| i != CAN_H66O && i != CAN_SEGM ==> !#[trigger] g.flags.has(i),
            g.prefix == 0,
            g.addt == 0,
            g.opcode@ == seq![0u8, 0u8, 0u8, 0u8],
            g.meta_0 == 0,
            g._reserved@ == seq![0u8, 0u8],
            g.modrm_ovr.data == 0,
            g.ord.ord == pack_ord(
                seq![OpOrd::MODRM_RM, OpOrd::MODRM_REG, OpOrd::VEX_VVVV, OpOrd::TSRC],
            ),
            g.addt2 == 0,
    {
        let order = [OpOrd::MODRM_RM, OpOrd::MODRM_REG, OpOrd::VEX_VVVV, OpOrd::TSRC];
        let ord = OperandOrder::new(&order).unwrap();
        assert(order@ == seq![OpOrd::MODRM_RM, OpOrd::MODRM_REG, OpOrd::VEX_VVVV, OpOrd::TSRC]);
        let opcode = [0u8; 4];
        let reserved = [0u8; 2];
        assert(opcode@ == seq![0u8, 0u8, 0u8, 0u8]);
        assert(reserved@ == seq![0u8, 0u8]);
        GenAPI {
            opcode,
            meta_0: 0,
            _reserved: reserved,
            prefix: 0,
            flags: BoolTable16::new().setc(CAN_H66O, true).setc(CAN_SEGM, true),
            ord,
            modrm_ovr: ModrmTuple::new(None),
            addt: 0,
            addt2: 0,
        }
    }

    /// Sets the forced prefix kind (three bits) in `meta_0`.
    pub fn set_fpfx(&mut self, v: u8)
        ensures
            *final(self) == old(self).spec_set_fpfx(v),
    {
        self.meta_0 = (self.meta_0 & !0b1110_0000u8) | (v << 5u8);
    }

    /// The forced prefix kind.
    pub fn get_fpfx(&self) -> (r: u8)
        ensures
            r == self.spec_fpfx(),
            r < 8,
    {
        proof {
            lemma_byte_misc(self.meta_0);
        }
        (self.meta_0 & 0b1110_0000) >> 5u8
    }

    /// Sets the legacy prefix byte.
    pub fn opcode_prefix(self, pfx: u8) -> (g: Self)
        ensures
            g == (GenAPI { prefix: pfx as u16, ..self }),
    {
        GenAPI { prefix: pfx as u16, ..self }
    }

    /// The opcode length stored in `meta_0`.
    pub fn opcode_len(&self) -> (r: usize)
        ensures
            r == (self.meta_0 & 7) as usize,
            r < 8,
    {
        proof {
            lemma_byte_misc(self.meta_0);
        }
        (self.meta_0 & 0b111) as usize
    }

    /// Copies `opc` (at most four bytes) to the front of the opcode and ORs its length into
    /// `meta_0`.
    pub fn opcode(self, opc: &[u8]) -> (g: Self)
        requires
            opc@.len() <= 4,
        ensures
            g == (GenAPI { opcode: g.opcode, meta_0: self.meta_0 | (opc@.len() as u8 & 7), ..self }),
            forall|i: int|
                0 <= i < 4 ==> #[trigger] g.opcode@[i] == if i < opc@.len() {
                    opc@[i]
                } else {
                    self.opcode@[i]
                },
    {
        let mut g = self;
        let mut idx: usize = 0;
        while idx < opc.len()
            invariant
                opc@.len() <= 4,
                idx <= opc@.len(),
                g == (GenAPI { opcode: g.opcode, ..self }),
                forall|i: int|
                    0 <= i < 4 ==> #[trigger] g.opcode@[i] == if i < idx {
                        opc@[i]
                    } else {
                        self.opcode@[i]
                    },
            decreases opc@.len() - idx,
        {
            g.opcode[idx] = opc[idx];
            idx = idx + 1;
        }
        g.meta_0 = g.meta_0 | (idx as u8 & 0b111);
        g
    }

    /// Sets whether a ModRM byte is emitted, and its ModRM.reg override.
    pub fn modrm(self, modrm: bool, reg: Option<u8>) -> (g: Self)
        ensures
            g == (GenAPI {
                flags: flags_with(self.flags, USE_MODRM, modrm),
                modrm_ovr: ModrmTuple { data: modrm_tuple_data(reg) },
                ..self
            }),
    {
        let mut g = self;
        g.flags.set(USE_MODRM, modrm);
        g.modrm_ovr = ModrmTuple::new(reg);
        g
    }

    /// Fixes the instruction size: sets FIXED_SIZE and ORs the size's code into `addt2`.
    pub fn fixed_size(self, sz: Size) -> (g: Self)
        ensures
            g == self.spec_fixed_size(sz),
    {
        let mut g = self;
        g.flags.set(FIXED_SIZE, true);
        g.addt2 = g.addt2 | sz.code();
        g
    }

    /// Forces ModRM.mod: sets SET_MODRM and stores the low two bits of `mod_` in `addt2`.
    pub fn modrm_mod(self, mod_: u8) -> (g: Self)
        ensures
            g == (GenAPI {
                flags: flags_with(self.flags, SET_MODRM, true),
                addt2: mod_ & 3,
                ..self
            }),
    {
        let mut g = self;
        g.flags.set(SET_MODRM, true);
        g.addt2 = mod_ & 0b11;
        g
    }

    /// Sets whether the 0x66 override may be emitted.
    pub fn can_h66(self, h66: bool) -> (g: Self)
        ensures
            g == (GenAPI { flags: flags_with(self.flags, CAN_H66O, h66), ..self }),
    {
        let mut g = self;
        g.flags.set(CAN_H66O, h66);
        g
    }

    /// Forces a REX prefix.
    pub fn rex(self) -> (g: Self)
        ensures
            g == self.spec_set_fpfx(PREFIX_REX),
    {
        let mut g = self;
        g.set_fpfx(PREFIX_REX);
        g
    }

    /// Forces an EVEX prefix with the given details (map_select taken as a map number).
    pub fn evex(self, vex_details: VexDetails) -> (g: Self)
        ensures
            g == self.spec_evex(vex_details),
    {
        let mut g = self;
        g.set_fpfx(PREFIX_EVEX);
        let we: u16 = if vex_details.vex_we {
            0x80
        } else {
            0
        };
        g.prefix = we | ((vex_details.map_select as u16) << 2u16) | (pp(vex_details.pp) as u16);
        g.addt = ((vex_details.vlength.data as u16) << 8u16) | (g.addt & 0x00FF);
        g
    }

    /// Forces a VEX prefix with the given details (map_select taken as an escape byte).
    pub fn vex(self, vex_details: VexDetails) -> (g: Self)
        ensures
            g == self.spec_vex(vex_details),
    {
        let mut g = self;
        g.set_fpfx(PREFIX_VEX);
        let we: u16 = if vex_details.vex_we {
            0x80
        } else {
            0
        };
        g.prefix = we | ((map_select(vex_details.map_select) as u16) << 2u16) | (pp(
            vex_details.pp,
        ) as u16);
        g.addt = ((vex_details.vlength.data as u16) << 8u16) | (g.addt & 0x00FF);
        g
    }

    /// Takes an immediate of `size` bytes from operand `idx`.
    pub fn imm_atindex(self, idx: u16, size: u16) -> (g: Self)
        ensures
            g == self.spec_imm_atindex(idx, size),
    {
        let mut g = self;
        g.flags.set(IMM, true);
        g.addt = ((size << 4u16) | (idx & 0b1111)) | (g.addt & 0xFF00);
        g
    }

    /// Sets whether the immediate is big endian.
    pub fn imm_is_be(self, be: bool) -> (g: Self)
        ensures
            g == (GenAPI { flags: flags_with(self.flags, IMM_LEBE, be), ..self }),
    {
        let mut g = self;
        g.flags.set(IMM_LEBE, be);
        g
    }

    /// Sets the operand order (at most four slots).
    pub fn ord(self, ord: &[OpOrd]) -> (g: Self)
        requires
            ord@.len() <= 4,
        ensures
            g == (GenAPI { ord: OperandOrder { ord: pack_ord(ord@) }, ..self }),
    {
        let o = OperandOrder::new(ord);
        GenAPI { ord: o.unwrap(), ..self }
    }

    /// The extra byte (fixed size or forced ModRM.mod).
    pub fn get_addt2(&self) -> (r: u8)
        ensures
            r == self.addt2,
    {
        self.addt2
    }

    /// The fixed size, if FIXED_SIZE is set and `addt2` holds the code of a size.
    pub fn get_size(&self) -> (r: Option<Size>)
        ensures
            r == self.spec_get_size(),
    {
        if self.flags.at(FIXED_SIZE) {
            Size::from_code(self.addt2)
        } else {
            None
        }
    }

    /// The opcode bytes, as many as the stored length says.
    pub fn get_opcode(&self) -> (r: Vec<u8>)
        requires
            self.meta_0 & 7 <= 4,
        ensures
            r@ == self.opcode@.subrange(0, (self.meta_0 & 7) as int),
    {
        let len = self.opcode_len();
        let mut r: Vec<u8> = Vec::new();
        let mut i: usize = 0;
        while i < len
            invariant
                len == (self.meta_0 & 7) as usize,
                len <= 4,
                i <= len,
                r@ == self.opcode@.subrange(0, i as int),
            decreases len - i,
        {
            r.push(self.opcode[i]);
            i = i + 1;
            assert(r@ =~= self.opcode@.subrange(0, i as int));
        }
        r
    }

    /// Whether the first operand is encoded in ModRM.reg.
    pub fn modrm_reg_is_dst(&self) -> (r: bool)
        ensures
            r == (self.ord.ord & 3 == 1),
    {
        self.ord.modrm_reg_is_dst()
    }

    /// The ModRM.reg override.
    pub fn get_modrm(&self) -> (r: ModrmTuple)
        ensures
            r == self.modrm_ovr,
    {
        self.modrm_ovr
    }

    /// The four operand slots.
    pub fn get_ord(&self) -> (r: [OpOrd; 4])
        ensures
            forall|i: int| 0 <= i < 4 ==> #[trigger] r@[i] == ord_slot(self.ord.ord, i),
    {
        self.ord.deserialize()
    }

    /// Restricts generation to the forced prefix kind.
    pub fn strict_pfx(self) -> (g: Self)
        ensures
            g == (GenAPI { flags: flags_with(self.flags, STRICT_PFX, true), ..self }),
    {
        let mut g = self;
        g.flags.set(STRICT_PFX, true);
        g
    }

    /// The (E)VEX.pp code, when a (E)VEX prefix is forced.
    pub fn get_pp(&self) -> (r: Option<u8>)
        ensures
            r == self.spec_get_pp(),
    {
        let f = self.get_fpfx();
        if f == PREFIX_VEX || f == PREFIX_EVEX {
            Some((self.prefix & 0b11) as u8)
        } else {
            None
        }
    }

    /// The (E)VEX.map_select field, when a (E)VEX prefix is forced.
    pub fn get_map_select(&self) -> (r: Option<u8>)
        ensures
            r == self.spec_get_map_select(),
    {
        let f = self.get_fpfx();
        if f == PREFIX_VEX || f == PREFIX_EVEX {
            Some(((self.prefix & 0b0111_1100) >> 2u16) as u8)
        } else {
            None
        }
    }

    /// The (E)VEX.W/E bit, when a (E)VEX prefix is forced.
    pub fn get_vex_we(&self) -> (r: Option<bool>)
        ensures
            r == self.spec_get_vex_we(),
    {
        let f = self.get_fpfx();
        if f == PREFIX_VEX || f == PREFIX_EVEX {
            Some(self.prefix & 0b1000_0000 == 0b1000_0000)
        } else {
            None
        }
    }

    /// The (E)VEX vector length, when a (E)VEX prefix is forced.
    pub fn get_vex_vlength(&self) -> (r: Option<MegaBool>)
        ensures
            r == self.spec_get_vex_vlength(),
    {
        let f = self.get_fpfx();
        if f == PREFIX_VEX || f == PREFIX_EVEX {
            Some(MegaBool::from_byte(((self.addt & 0xFF00) >> 8u16) as u8))
        } else {
            None
        }
    }

    /// Forces an APX prefix: clears `prefix` and stores the variant, ND, map_select (as a map
    /// number), the pp code and W/E.
    pub fn apx(self, apx_variant: APXVariant, apx_details: VexDetails, nd: bool) -> (g: Self)
        ensures
            g == self.spec_apx(apx_variant, apx_details, nd),
    {
        let mut g = self;
        g.prefix = 0;
        g.set_fpfx(PREFIX_APX);
        let ndb: u16 = if nd {
            0x1000
        } else {
            0
        };
        let we: u16 = if apx_details.vex_we {
            0x10
        } else {
            0
        };
        let w0: u16 = (apx_variant.code() as u16) << 13u16;
        let w1: u16 = w0 | ndb;
        let w2: u16 = w1 | ((apx_details.map_select as u16) << 7u16);
        let w3: u16 = w2 | ((pp(apx_details.pp) as u16) << 5u16);
        let w4: u16 = w3 | we;
        g.prefix = w4;
        g
    }

    /// ORs a condition code (four bits) into the APX prefix word.
    pub fn apx_cccc(self, cccc: u8) -> (g: Self)
        ensures
            g == (GenAPI { prefix: self.prefix | ((cccc as u16) & 0xF), ..self }),
    {
        GenAPI { prefix: self.prefix | ((cccc as u16) & 0b1111), ..self }
    }

    /// The APX condition code.
    pub fn get_apx_cccc(&self) -> (r: u8)
        ensures
            r == self.spec_apx_cccc(),
    {
        (self.prefix & 0b1111) as u8
    }

    /// The APX ND bit.
    pub fn get_apx_nd(&self) -> (r: bool)
        ensures
            r == self.spec_apx_nd(),
    {
        self.prefix & 0x1000 == 0x1000
    }

    /// The APX map_select field.
    pub fn get_apx_eevex_map_select(&self) -> (r: u8)
        ensures
            r == self.spec_apx_map_select(),
    {
        ((self.prefix & 0xF80) >> 7u16) as u8
    }

    /// The APX pp field.
    pub fn get_apx_eevex_pp(&self) -> (r: u8)
        ensures
            r == self.spec_apx_pp(),
    {
        ((self.prefix & 0x60) >> 5u16) as u8
    }

    /// The APX W/E bit.
    pub fn get_apx_eevex_vex_we(&self) -> (r: bool)
        ensures
            r == self.spec_apx_vex_we(),
    {
        self.prefix & 0x10 == 0x10
    }

    /// The APX variant: EVEX and VEX extensions for the (E)VEX prefix kinds, the stored
    /// variant for the APX kind, `None` otherwise.
    pub fn get_apx_eevex_version(&self) -> (r: Option<APXVariant>)
        ensures
            r == self.spec_apx_version(),
    {
        let f = self.get_fpfx();
        if f == PREFIX_EVEX {
            Some(APXVariant::EvexExtension)
        } else if f == PREFIX_VEX {
            Some(APXVariant::VexExtension)
        } else if f == PREFIX_APX {
            APXVariant::from_code(((self.prefix >> 13u16) & 0b111) as u8)
        } else {
            None
        }
    }
}

impl Default for GenAPI {
    fn default() -> (g: Self)
        ensures
            g.prefix == 0,
            g.addt == 0,
            g.meta_0 == 0,
            g.addt2 == 0,
            g.modrm_ovr.data == 0,
    {
        Self::new()
    }
}

/// Packing an optional boolean and reading it back gives it unchanged.
pub proof fn lemma_megabool_roundtrip(op: Option<bool>)
    ensures
        megabool_value(megabool_data(op)) == op,
{
    lemma_byte_consts();
}

/// Setting the forced prefix kind to a three-bit value and reading it back gives that value,
/// and the opcode length is kept.
pub proof fn lemma_fpfx_roundtrip(meta: u8, v: u8)
    requires
        v < 8,
    ensures
        fpfx_of(meta_with_fpfx(meta, v)) == v,
        meta_with_fpfx(meta, v) & 7 == meta & 7,
{
    lemma_meta_bits(meta, v);
}

proof fn lemma_meta_bits(meta: u8, v: u8)
    by (bit_vector)
    requires
        v < 8,
    ensures
        (((meta & !0xE0u8) | (v << 5u8)) & 0xE0) >> 5u8 == v,
        ((meta & !0xE0u8) | (v << 5u8)) & 7 == meta & 7,
{
}

/// The fields of a (E)VEX prefix word and of an `addt` with a vector-length byte read back.
proof fn lemma_vex_word(w: u16, m: u8, p: u8, a: u16, vl: u8)
    by (bit_vector)
    requires
        p < 4,
        m < 32,
        w == 0x80 || w == 0,
    ensures
        ((w | ((m as u16) << 2u16) | (p as u16)) & 3) as u8 == p,
        (((w | ((m as u16) << 2u16) | (p as u16)) & 0x7C) >> 2u16) as u8 == m,
        ((w | ((m as u16) << 2u16) | (p as u16)) & 0x80 == 0x80) == (w == 0x80),
        ((((vl as u16) << 8u16) | (a & 0xFF)) & 0xFF00) >> 8u16 == vl as u16,
        (((vl as u16) << 8u16) | (a & 0xFF)) & 0xFF == a & 0xFF,
{
}

/// After forcing a VEX prefix, the getters give back the pp code of the pp byte, the
/// map_select code of the escape byte, W/E and the vector length; the opcode length and the
/// immediate's size and index are kept.
pub proof fn lemma_vex_readback(g: GenAPI, d: VexDetails)
    ensures
        g.spec_vex(d).spec_fpfx() == PREFIX_VEX,
        g.spec_vex(d).spec_get_pp() == Some(spec_pp(d.pp)),
        g.spec_vex(d).spec_get_map_select() == Some(spec_map_select(d.map_select)),
        g.spec_vex(d).spec_get_vex_we() == Some(d.vex_we),
        g.spec_vex(d).spec_get_vex_vlength() == Some(d.vlength),
        g.spec_vex(d).meta_0 & 7 == g.meta_0 & 7,
        g.spec_vex(d).addt & 0xFF == g.addt & 0xFF,
{
    lemma_fpfx_roundtrip(g.meta_0, PREFIX_VEX);
    let p = spec_pp(d.pp);
    let m = spec_map_select(d.map_select);
    let w: u16 = if d.vex_we { 0x80u16 } else { 0u16 };
    assert(p < 4 && m < 4);
    assert(w == 0x80 || w == 0);
    let a = g.addt;
    let vl = d.vlength.data;
    lemma_vex_word(w, m, p, a, vl);
}

/// After forcing an EVEX prefix with a map number below 32, the getters give back the pp
/// code of the pp byte, the map number, W/E and the vector length; the opcode length and the
/// immediate's size and index are kept.
pub proof fn lemma_evex_readback(g: GenAPI, d: VexDetails)
    requires
        d.map_select < 32,
    ensures
        g.spec_evex(d).spec_fpfx() == PREFIX_EVEX,
        g.spec_evex(d).spec_get_pp() == Some(spec_pp(d.pp)),
        g.spec_evex(d).spec_get_map_select() == Some(d.map_select),
        g.spec_evex(d).spec_get_vex_we() == Some(d.vex_we),
        g.spec_evex(d).spec_get_vex_vlength() == Some(d.vlength),
        g.spec_evex(d).meta_0 & 7 == g.meta_0 & 7,
        g.spec_evex(d).addt & 0xFF == g.addt & 0xFF,
{
    lemma_fpfx_roundtrip(g.meta_0, PREFIX_EVEX);
    let p = spec_pp(d.pp);
    let m = d.map_select;
    let w: u16 = if d.vex_we { 0x80u16 } else { 0u16 };
    assert(p < 4);
    let a = g.addt;
    let vl = d.vlength.data;
    lemma_vex_word(w, m, p, a, vl);
}

/// After forcing an APX prefix with a map number below 32 and adding a condition code, the
/// getters give back the variant, ND, the map number, the pp code of the pp byte, W/E and the
/// low four bits of the condition code.
pub proof fn lemma_apx_readback(g: GenAPI, v: APXVariant, d: VexDetails, nd: bool, cccc: u8)
    requires
        d.map_select < 32,
    ensures
        ({
            let r = g.spec_apx(v, d, nd);
            let r2 = GenAPI { prefix: r.prefix | ((cccc as u16) & 0xF), ..r };
            &&& r2.spec_fpfx() == PREFIX_APX
            &&& r2.spec_apx_version() == Some(v)
            &&& r2.spec_apx_nd() == nd
            &&& r2.spec_apx_map_select() == d.map_select
            &&& r2.spec_apx_pp() == spec_pp(d.pp)
            &&& r2.spec_apx_vex_we() == d.vex_we
            &&& r2.spec_apx_cccc() == cccc & 0xF
        }),
{
    lemma_fpfx_roundtrip(g.meta_0, PREFIX_APX);
    let c = apx_variant_code(v) as u16;
    let n: u16 = if nd { 0x1000u16 } else { 0u16 };
    let m = d.map_select as u16;
    let p = spec_pp(d.pp) as u16;
    let w: u16 = if d.vex_we { 0x10u16 } else { 0u16 };
    let k = cccc as u16;
    assert(c < 8 && m < 32 && p < 4);
    let word = ((c << 13u16) | n | (m << 7u16) | (p << 5u16) | w) | (k & 0xF);
    assert(word == apx_prefix_word(v, d, nd) | ((cccc as u16) & 0xF));
    lemma_apx_word(c, n, m, p, w, cccc);
    assert(((word >> 13u16) & 7) as u8 == apx_variant_code(v));
}

proof fn lemma_apx_word(c: u16, n: u16, m: u16, p: u16, w: u16, cccc: u8)
    by (bit_vector)
    requires
        c < 8,
        m < 32,
        p < 4,
        n == 0x1000 || n == 0,
        w == 0x10 || w == 0,
    ensures
        ({
            let word = ((c << 13u16) | n | (m << 7u16) | (p << 5u16) | w) | ((cccc as u16) & 0xF);
            &&& ((word >> 13u16) & 7) == c
            &&& (word & 0x1000 == 0x1000) == (n == 0x1000)
            &&& ((word & 0xF80) >> 7u16) == m
            &&& ((word & 0x60) >> 5u16) == p
            &&& (word & 0x10 == 0x10) == (w == 0x10)
            &&& ((word & 0xF) as u8) == cccc & 0xF
        }),
{
}

/// After taking an immediate, its index and size are read back from the low byte of `addt`
/// (their low four bits); a size below 16 keeps the vector-length byte.
pub proof fn lemma_imm_readback(g: GenAPI, idx: u16, size: u16)
    ensures
        g.spec_imm_atindex(idx, size).flags.has(IMM as int),
        g.spec_imm_atindex(idx, size).addt & 0xF == idx & 0xF,
        (g.spec_imm_atindex(idx, size).addt & 0xF0) >> 4u16 == size & 0xF,
        size < 16 ==> g.spec_imm_atindex(idx, size).addt & 0xFF00 == g.addt & 0xFF00,
{
    crate::booltable::lemma_with_flag_all(g.flags.data, IMM as u16, true);
    lemma_imm_word(g.addt, idx, size);
}

proof fn lemma_imm_word(a: u16, idx: u16, size: u16)
    by (bit_vector)
    ensures
        (((size << 4u16) | (idx & 0xF)) | (a & 0xFF00)) & 0xF == idx & 0xF,
        ((((size << 4u16) | (idx & 0xF)) | (a & 0xFF00)) & 0xF0) >> 4u16 == size & 0xF,
        size < 16 ==> (((size << 4u16) | (idx & 0xF)) | (a & 0xFF00)) & 0xFF00 == a & 0xFF00,
{
}

/// Fixing the size of a layout whose extra byte is clear (as `GenAPI::new` leaves it) and
/// reading the size back gives that size.
pub proof fn lemma_fixed_size_readback(g: GenAPI, sz: Size)
    requires
        g.addt2 == 0,
    ensures
        g.spec_fixed_size(sz).spec_get_size() == Some(sz),
{
    crate::booltable::lemma_with_flag_all(g.flags.data, FIXED_SIZE as u16, true);
    lemma_byte_misc(size_code(sz));
    crate::size::lemma_size_code_roundtrip(sz);
}

/// Which of the destination, source and second source go to ModRM.r/m, ModRM.reg and
/// (E)VEX.vvvv, as the first three slots of a packed operand order say; all three absent for
/// an order that is not one of the seven known ones.
pub open spec fn spec_ord_oprs(
    ord: u8,
    dst: Option<Operand>,
    src: Option<Operand>,
    ssrc: Option<Operand>,
) -> (Option<Operand>, Option<Operand>, Option<Operand>) {
    match (ord_slot(ord, 0), ord_slot(ord, 1), ord_slot(ord, 2)) {
        (OpOrd::MODRM_REG, OpOrd::MODRM_RM, _) => (src, dst, ssrc),
        (OpOrd::MODRM_RM, OpOrd::MODRM_REG, _) => (dst, src, ssrc),
        (OpOrd::MODRM_REG, OpOrd::VEX_VVVV, OpOrd::MODRM_RM) => (ssrc, dst, src),
        (OpOrd::MODRM_RM, OpOrd::VEX_VVVV, OpOrd::MODRM_REG) => (dst, ssrc, src),
        (OpOrd::VEX_VVVV, OpOrd::MODRM_REG, OpOrd::MODRM_RM) => (ssrc, src, dst),
        (OpOrd::VEX_VVVV, OpOrd::MODRM_REG, _) => (None, src, dst),
        (OpOrd::VEX_VVVV, OpOrd::MODRM_RM, _) => (src, None, dst),
        _ => (None, None, None),
    }
}

impl GenAPI {
    /// The operands that go to ModRM.r/m, ModRM.reg and (E)VEX.vvvv, in that order.
    pub fn get_ord_oprs(
        &self,
        dst: Option<Operand>,
        src: Option<Operand>,
        ssrc: Option<Operand>,
    ) -> (r: [Option<Operand>; 3])
        ensures
            (r@[0], r@[1], r@[2]) == spec_ord_oprs(self.ord.ord, dst, src, ssrc),
            r@.len() == 3,
    {
        let ord = self.ord.deserialize();
        let r = match (ord[0], ord[1], ord[2]) {
            (OpOrd::MODRM_REG, OpOrd::MODRM_RM, _) => [src, dst, ssrc],
            (OpOrd::MODRM_RM, OpOrd::MODRM_REG, _) => [dst, src, ssrc],
            (OpOrd::MODRM_REG, OpOrd::VEX_VVVV, OpOrd::MODRM_RM) => [ssrc, dst, src],
            (OpOrd::MODRM_RM, OpOrd::VEX_VVVV, OpOrd::MODRM_REG) => [dst, ssrc, src],
            (OpOrd::VEX_VVVV, OpOrd::MODRM_REG, OpOrd::MODRM_RM) => [ssrc, src, dst],
            (OpOrd::VEX_VVVV, OpOrd::MODRM_REG, _) => [None, src, dst],
            (OpOrd::VEX_VVVV, OpOrd::MODRM_RM, _) => [src, None, dst],
            _ => [None, None, None],
        };
        assert(ord@[0] == ord_slot(self.ord.ord, 0) && ord@[1] == ord_slot(self.ord.ord, 1)
            && ord@[2] == ord_slot(self.ord.ord, 2));
        r
    }
}

/// The assembled bytes of an instruction: short ones, or ones with a long immediate.
#[derive(Clone, Debug)]
pub enum AssembleResult {
    NoLargeImm(Vec<u8>),
    WLargeImm(Vec<u8>),
}

/// A mnemonic that may stand as an instruction's additional prefix.
#[derive(Clone, Copy, Debug, PartialEq, Eq, Structural)]
pub enum AddtPrefix {
    Lock,
    Repne,
    Repnz,
    Rep,
    Repe,
    Repz,
    Other,
}

/// The prefix byte of an additional prefix mnemonic: 0xF0 for LOCK, 0xF2 for REPNE/REPNZ,
/// 0xF3 for REP/REPE/REPZ, none otherwise.
pub open spec fn spec_gen_addt_pfx(addt: Option<AddtPrefix>) -> Option<u8> {
    match addt {
        Some(AddtPrefix::Lock) => Some(0xF0),
        Some(AddtPrefix::Repne) | Some(AddtPrefix::Repnz) => Some(0xF2),
        Some(AddtPrefix::Rep) | Some(AddtPrefix::Repe) | Some(AddtPrefix::Repz) => Some(0xF3),
        _ => None,
    }
}

/// The prefix byte of an additional prefix mnemonic.
pub fn gen_addt_pfx(addt: Option<AddtPrefix>) -> (r: Option<u8>)
    ensures
        r == spec_gen_addt_pfx(addt),
{
    match addt {
        Some(AddtPrefix::Lock) => Some(0xF0),
        Some(AddtPrefix::Repne) | Some(AddtPrefix::Repnz) => Some(0xF2),
        Some(AddtPrefix::Rep) | Some(AddtPrefix::Repe) | Some(AddtPrefix::Repz) => Some(0xF3),
        _ => None,
    }
}

/// The facts about an instruction that the size overrides read.
#[derive(Clone, Copy, Debug)]
pub struct SizeOvrFacts {
    pub defaults_to_64bit: bool,
    pub uses_cr: bool,
    pub uses_dr: bool,
}

/// Whether the operand-size override 0x66 is needed for size `sz` in `bits`-bit mode: a
/// doubleword in 16-bit mode, a word in 32- and 64-bit mode, and a quadword in 64-bit mode
/// that neither REX.W nor the instruction itself makes 64-bit.
pub open spec fn needs_h66(f: SizeOvrFacts, sz: Size, bits: u8, rexw: bool) -> bool {
    if bits == 16 {
        sz == Size::Dword
    } else if bits == 32 {
        sz == Size::Word
    } else if bits == 64 {
        sz == Size::Word || (sz == Size::Qword && !(rexw || f.defaults_to_64bit || f.uses_cr
            || f.uses_dr))
    } else {
        false
    }
}

/// Whether the address-size override 0x67 is needed: a memory r/m operand with 32-bit
/// addressing in 16- or 64-bit mode.
pub open spec fn needs_h67(dst: Option<Operand>, bits: u8) -> bool {
    dst matches Some(Operand::Mem(m)) && m.addrsize == Size::Dword && (bits == 16 || bits == 64)
}

/// The size overrides: `[0x66 if needed, 0x67 if needed]`, or none when neither is.
pub open spec fn spec_gen_size_ovr(
    f: SizeOvrFacts,
    dst: Option<Operand>,
    sz: Size,
    bits: u8,
    rexw: bool,
) -> Option<(Option<u8>, Option<u8>)> {
    let a = if needs_h66(f, sz, bits, rexw) {
        Some(0x66u8)
    } else {
        None
    };
    let b = if needs_h67(dst, bits) {
        Some(0x67u8)
    } else {
        None
    };
    if a is Some || b is Some {
        Some((a, b))
    } else {
        None
    }
}

/// The size overrides of an instruction of size `sz` with r/m operand `dst`.
pub fn gen_size_ovr(f: &SizeOvrFacts, dst: &Option<Operand>, sz: Size, bits: u8, rexw: bool) -> (r:
    Option<[Option<u8>; 2]>)
    ensures
        r matches Some(a) ==> spec_gen_size_ovr(*f, *dst, sz, bits, rexw) == Some((a@[0], a@[1])),
        r is None <==> spec_gen_size_ovr(*f, *dst, sz, bits, rexw) is None,
{
    let mut h66: Option<u8> = None;
    let mut h67: Option<u8> = None;
    if bits == 16 {
        if sz == Size::Dword {
            h66 = Some(0x66);
        }
    } else if bits == 32 {
        if sz == Size::Word {
            h66 = Some(0x66);
        }
    } else if bits == 64 {
        if sz == Size::Word {
            h66 = Some(0x66);
        } else if sz == Size::Qword {
            if !(rexw || f.defaults_to_64bit || f.uses_cr || f.uses_dr) {
                h66 = Some(0x66);
            }
        }
    }
    if let Some(Operand::Mem(m)) = dst {
        if m.addrsize == Size::Dword && (bits == 16 || bits == 64) {
            h67 = Some(0x67);
        }
    }
    if h66.is_some() || h67.is_some() {
        let a = [h66, h67];
        assert(a@[0] == h66 && a@[1] == h67);
        Some(a)
    } else {
        None
    }
}

/// The operand-size override for a fixed size: 0x66 for a word in 32- and 64-bit mode and for
/// a doubleword in 16-bit mode, none otherwise.
pub open spec fn spec_gen_sizeovr_fixed_size(sz: Size, bits: u8) -> Option<u8> {
    if sz == Size::Word && (bits == 32 || bits == 64) {
        Some(0x66)
    } else if sz == Size::Dword && bits == 16 {
        Some(0x66)
    } else {
        None
    }
}

/// The operand-size override for a fixed size.
pub fn gen_sizeovr_fixed_size(sz: Size, bits: u8) -> (r: Option<u8>)
    ensures
        r == spec_gen_sizeovr_fixed_size(sz, bits),
{
    if sz == Size::Word && (bits == 32 || bits == 64) {
        Some(0x66)
    } else if sz == Size::Dword && bits == 16 {
        Some(0x66)
    } else {
        None
    }
}

/// The segment-override prefix byte of a segment register.
pub open spec fn spec_segm_byte(s: SegReg) -> u8 {
    match s {
        SegReg::CS => 0x2E,
        SegReg::SS => 0x36,
        SegReg::DS => 0x3E,
        SegReg::ES => 0x26,
        SegReg::FS => 0x64,
        SegReg::GS => 0x65,
    }
}

/// The segment-override prefix of a memory operand, if it has a segment.
pub fn gen_segm_pref_op(mem: &Mem) -> (r: Option<u8>)
    ensures
        r == match mem.segment {
            Some(s) => Some(spec_segm_byte(s)),
            None => None::<u8>,
        },
{
    match mem.segment {
        Some(SegReg::CS) => Some(0x2E),
        Some(SegReg::SS) => Some(0x36),
        Some(SegReg::DS) => Some(0x3E),
        Some(SegReg::ES) => Some(0x26),
        Some(SegReg::FS) => Some(0x64),
        Some(SegReg::GS) => Some(0x65),
        None => None,
    }
}

/// The segment-override prefix of an instruction's memory operand, if it has one.
pub fn gen_segm_pref(mem: &Option<Mem>) -> (r: Option<u8>)
    ensures
        r == match *mem {
            Some(m) => match m.segment {
                Some(s) => Some(spec_segm_byte(s)),
                None => None::<u8>,
            },
            None => None::<u8>,
        },
{
    if let Some(m) = mem {
        return gen_segm_pref_op(m);
    }
    None
}

/// Pads an immediate with zero bytes up to `size` bytes.
pub fn extend_imm(imm: &mut Vec<u8>, size: u8)
    ensures
        final(imm)@ == if old(imm)@.len() < size {
            old(imm)@ + Seq::new((size - old(imm)@.len()) as nat, |i: int| 0u8)
        } else {
            old(imm)@
        },
{
    let size = size as usize;
    let ghost start = imm@;
    while imm.len() < size
        invariant
            start.len() <= imm@.len() <= if start.len() < size {
                size as int
            } else {
                start.len() as int
            },
            imm@ == start + Seq::new((imm@.len() - start.len()) as nat, |i: int| 0u8),
        decreases size - imm@.len(),
    {
        imm.push(0);
        assert(imm@ =~= start + Seq::new((imm@.len() - start.len()) as nat, |i: int| 0u8));
    }
    assert(start.len() >= size ==> imm@ =~= start);
}

} // verus!
