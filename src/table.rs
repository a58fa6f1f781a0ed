use vstd::prelude::*;

use crate::assembled_instruction::{
    extract, literal_in_spec, low_mask, AssembledInstruction, AssembledInstructionLookupError, BitFlag, BitOrder,
    BitUsage, Bits, Byte, Operation, TemplateId,
};

verus! {

/// A field of `size` bits whose shift is still to be placed.
pub open spec fn field(usage: BitUsage, size: u8) -> Bits {
    Bits { usage, size, value: None, shift: None }
}

/// A literal field of `size` bits whose shift is still to be placed.
pub open spec fn lit(value: u8, size: u8) -> Bits {
    Bits { usage: BitUsage::Literal, size, value: Some(value), shift: None }
}

/// A one-bit flag field.
pub open spec fn flag_field(bits: u8) -> Bits {
    field(BitUsage::Flag(BitFlag(bits)), 1)
}

/// The sum of the widths of `fields`.
pub open spec fn width_sum(fields: Seq<Bits>) -> int
    decreases fields.len(),
{
    if fields.len() == 0 {
        0
    } else {
        width_sum(fields.drop_last()) + fields.last().size
    }
}

/// The fields of a byte with their shifts placed: the bits left of bit 8 after each field.
pub open spec fn with_shifts(fields: Seq<Bits>) -> Seq<Bits> {
    Seq::new(
        fields.len(),
        |i: int|
            Bits {
                usage: fields[i].usage,
                size: fields[i].size,
                value: fields[i].value,
                shift: Some((8 - width_sum(fields.take(i + 1))) as u8),
            },
    )
}

/// A mode/register/RM byte.
pub open spec fn mod_reg_rm() -> Seq<Bits> {
    seq![field(BitUsage::Mode, 2), field(BitUsage::Reg, 3), field(BitUsage::Rm, 3)]
}

/// A mode/group-code/RM byte.
pub open spec fn mod_lit_rm() -> Seq<Bits> {
    seq![field(BitUsage::Mode, 2), lit(0, 3), field(BitUsage::Rm, 3)]
}

/// A byte that is one eight-bit field.
pub open spec fn one(usage: BitUsage) -> Seq<Bits> {
    seq![field(usage, 8)]
}

/// Register/memory with register, either direction: `lit(6) d w | mod reg rm | disp lo | disp hi`.
pub open spec fn rm_reg_shape(opcode: u8) -> Seq<Seq<Bits>> {
    seq![
        seq![lit(opcode, 6), flag_field(4), flag_field(1)],
        mod_reg_rm(),
        one(BitUsage::Disp(BitOrder::LOW)),
        one(BitUsage::Disp(BitOrder::HIGH)),
    ]
}

/// Immediate to register/memory: `first | mod lit rm | disp lo | disp hi | data lo | data hi`.
pub open spec fn imm_rm_shape(first: Seq<Bits>) -> Seq<Seq<Bits>> {
    seq![
        first,
        mod_lit_rm(),
        one(BitUsage::Disp(BitOrder::LOW)),
        one(BitUsage::Disp(BitOrder::HIGH)),
        one(BitUsage::Data(BitOrder::LOW)),
        one(BitUsage::Data(BitOrder::HIGH)),
    ]
}

/// Accumulator forms: `lit(7) w | lo | hi`, of displacement or data bytes.
pub open spec fn acc_shape(opcode: u8, data: bool) -> Seq<Seq<Bits>> {
    if data {
        seq![
            seq![lit(opcode, 7), flag_field(1)],
            one(BitUsage::Data(BitOrder::LOW)),
            one(BitUsage::Data(BitOrder::HIGH)),
        ]
    } else {
        seq![
            seq![lit(opcode, 7), flag_field(1)],
            one(BitUsage::Disp(BitOrder::LOW)),
            one(BitUsage::Disp(BitOrder::HIGH)),
        ]
    }
}

/// The first byte of the immediate arithmetic group: `100000 s w`.
pub open spec fn arith_first() -> Seq<Bits> {
    seq![lit(0b100000, 6), flag_field(2), flag_field(1)]
}

/// The field layout of each template, before shifts are placed.
pub open spec fn raw_layout(t: TemplateId) -> Seq<Seq<Bits>> {
    match t {
        TemplateId::MovRmReg => rm_reg_shape(0b100010),
        TemplateId::MovImmReg => seq![
            seq![lit(0b1011, 4), flag_field(1), field(BitUsage::Reg, 3)],
            one(BitUsage::Data(BitOrder::LOW)),
            one(BitUsage::Data(BitOrder::HIGH)),
        ],
        TemplateId::MovImmRm => imm_rm_shape(seq![lit(0b1100011, 7), flag_field(1)]),
        TemplateId::MovMemAcc => acc_shape(0b1010000, false),
        TemplateId::MovAccMem => acc_shape(0b1010001, false),
        TemplateId::AddRmReg => rm_reg_shape(0b000000),
        TemplateId::ArithImmRm => imm_rm_shape(arith_first()),
        TemplateId::AddImmAcc => acc_shape(0b0000010, true),
        TemplateId::SubRmReg => rm_reg_shape(0b001010),
        TemplateId::SubImmAcc => acc_shape(0b0010110, true),
        TemplateId::CmpRmReg => rm_reg_shape(0b001110),
        TemplateId::CmpImmAcc => acc_shape(0b0011110, true),
        TemplateId::Jnz => seq![seq![lit(0b01110101, 8)], one(BitUsage::Disp(BitOrder::LOW))],
        TemplateId::AddImmRm => imm_rm_shape(arith_first()),
        TemplateId::SubImmRm => imm_rm_shape(arith_first()),
        TemplateId::CmpImmRm => imm_rm_shape(arith_first()),
    }
}

/// The operation of each template.
pub open spec fn template_operation(t: TemplateId) -> Operation {
    match t {
        TemplateId::MovRmReg | TemplateId::MovImmReg | TemplateId::MovImmRm
        | TemplateId::MovMemAcc | TemplateId::MovAccMem => Operation::MOV,
        TemplateId::AddRmReg | TemplateId::ArithImmRm | TemplateId::AddImmAcc
        | TemplateId::AddImmRm => Operation::ADD,
        TemplateId::SubRmReg | TemplateId::SubImmAcc | TemplateId::SubImmRm => Operation::SUB,
        TemplateId::CmpRmReg | TemplateId::CmpImmAcc | TemplateId::CmpImmRm => Operation::CMP,
        TemplateId::Jnz => Operation::JNZ,
    }
}

/// The template's bytes with every field's shift placed.
pub open spec fn template_bytes(t: TemplateId) -> Seq<Seq<Bits>> {
    raw_layout(t).map_values(|b: Seq<Bits>| with_shifts(b))
}

/// The templates that dispatch on a first byte, in lookup order.
pub open spec fn dispatch_table() -> Seq<TemplateId> {
    seq![
        TemplateId::MovRmReg,
        TemplateId::MovImmReg,
        TemplateId::MovImmRm,
        TemplateId::MovMemAcc,
        TemplateId::MovAccMem,
        TemplateId::AddRmReg,
        TemplateId::ArithImmRm,
        TemplateId::AddImmAcc,
        TemplateId::SubRmReg,
        TemplateId::SubImmAcc,
        TemplateId::CmpRmReg,
        TemplateId::CmpImmAcc,
        TemplateId::Jnz,
    ]
}

/// The first template, from position `i` of the dispatch table on, whose literal matches `byte`.
pub open spec fn first_match_from(byte: u8, i: int) -> Option<TemplateId>
    decreases dispatch_table().len() - i,
{
    if i < 0 || i >= dispatch_table().len() {
        None
    } else if literal_in_spec(template_bytes(dispatch_table()[i]), byte) == Ok::<
        bool,
        AssembledInstructionLookupError,
    >(true) {
        Some(dispatch_table()[i])
    } else {
        first_match_from(byte, i + 1)
    }
}

/// The template that a first byte selects.
pub open spec fn match_spec(byte: u8) -> Option<TemplateId> {
    first_match_from(byte, 0)
}

proof fn lemma_width_sum_take_succ(s: Seq<Bits>, i: int)
    requires
        0 <= i < s.len(),
    ensures
        width_sum(s.take(i + 1)) == width_sum(s.take(i)) + s[i].size,
{
    assert(s.take(i + 1).drop_last() =~= s.take(i));
}

proof fn lemma_width_sum_prefix(s: Seq<Bits>, i: int)
    requires
        0 <= i <= s.len(),
    ensures
        width_sum(s.take(i)) <= width_sum(s),
    decreases s.len(),
{
    if i == s.len() {
        assert(s.take(i) =~= s);
    } else {
        lemma_width_sum_prefix(s.drop_last(), i);
        assert(s.drop_last().take(i) =~= s.take(i));
    }
}

/// Places the shift of each field of one byte, left to right.
fn explode_byte(fields: &Vec<Bits>) -> (r: Byte)
    requires
        width_sum(fields@) <= 8,
    ensures
        r.bits@ == with_shifts(fields@),
{
    let mut bits: Vec<Bits> = Vec::new();
    let mut shift: u8 = 8;
    let mut i: usize = 0;
    while i < fields.len()
        invariant
            0 <= i <= fields.len(),
            width_sum(fields@) <= 8,
            shift == 8 - width_sum(fields@.take(i as int)),
            bits@.len() == i,
            forall|j: int| 0 <= j < i ==> bits@[j] == with_shifts(fields@)[j],
        decreases fields.len() - i,
    {
        let f = fields[i];
        proof {
            lemma_width_sum_take_succ(fields@, i as int);
            lemma_width_sum_prefix(fields@, i as int + 1);
        }
        shift = shift - f.size;
        bits.push(Bits { usage: f.usage, size: f.size, value: f.value, shift: Some(shift) });
        i += 1;
    }
    assert(bits@ =~= with_shifts(fields@));
    Byte { bits }
}


/// The field layout that nested vectors hold.
pub open spec fn layout_view(v: Seq<Vec<Bits>>) -> Seq<Seq<Bits>> {
    v.map_values(|b: Vec<Bits>| b@)
}

fn plain(usage: BitUsage, size: u8) -> (r: Bits)
    ensures
        r == field(usage, size),
{
    Bits { usage, size, value: None, shift: None }
}

fn lit_bits(value: u8, size: u8) -> (r: Bits)
    ensures
        r == lit(value, size),
{
    Bits { usage: BitUsage::Literal, size, value: Some(value), shift: None }
}

fn flag_bits(bits: u8) -> (r: Bits)
    ensures
        r == flag_field(bits),
{
    plain(BitUsage::Flag(BitFlag(bits)), 1)
}

fn one_byte(usage: BitUsage) -> (r: Vec<Bits>)
    ensures
        r@ == one(usage),
{
    let r = vec![plain(usage, 8)];
    assert(r@ =~= one(usage));
    r
}

fn rm_reg_layout(opcode: u8) -> (r: Vec<Vec<Bits>>)
    ensures
        layout_view(r@) == rm_reg_shape(opcode),
{
    let first = vec![lit_bits(opcode, 6), flag_bits(4), flag_bits(1)];
    let second = vec![plain(BitUsage::Mode, 2), plain(BitUsage::Reg, 3), plain(BitUsage::Rm, 3)];
    let r = vec![
        first,
        second,
        one_byte(BitUsage::Disp(BitOrder::LOW)),
        one_byte(BitUsage::Disp(BitOrder::HIGH)),
    ];
    assert(layout_view(r@) =~= rm_reg_shape(opcode));
    r
}

fn imm_rm_layout(first: Vec<Bits>) -> (r: Vec<Vec<Bits>>)
    ensures
        layout_view(r@) == imm_rm_shape(first@),
{
    let second = vec![plain(BitUsage::Mode, 2), lit_bits(0, 3), plain(BitUsage::Rm, 3)];
    let r = vec![
        first,
        second,
        one_byte(BitUsage::Disp(BitOrder::LOW)),
        one_byte(BitUsage::Disp(BitOrder::HIGH)),
        one_byte(BitUsage::Data(BitOrder::LOW)),
        one_byte(BitUsage::Data(BitOrder::HIGH)),
    ];
    assert(layout_view(r@) =~= imm_rm_shape(first@));
    r
}

fn acc_layout(opcode: u8, data: bool) -> (r: Vec<Vec<Bits>>)
    ensures
        layout_view(r@) == acc_shape(opcode, data),
{
    let first = vec![lit_bits(opcode, 7), flag_bits(1)];
    let r = if data {
        vec![
            first,
            one_byte(BitUsage::Data(BitOrder::LOW)),
            one_byte(BitUsage::Data(BitOrder::HIGH)),
        ]
    } else {
        vec![
            first,
            one_byte(BitUsage::Disp(BitOrder::LOW)),
            one_byte(BitUsage::Disp(BitOrder::HIGH)),
        ]
    };
    assert(layout_view(r@) =~= acc_shape(opcode, data));
    r
}

fn arith_first_bits() -> (r: Vec<Bits>)
    ensures
        r@ == arith_first(),
{
    let r = vec![lit_bits(0b100000, 6), flag_bits(2), flag_bits(1)];
    assert(r@ =~= arith_first());
    r
}

fn raw_layout_of(t: TemplateId) -> (r: Vec<Vec<Bits>>)
    ensures
        layout_view(r@) == raw_layout(t),
{
    match t {
        TemplateId::MovRmReg => rm_reg_layout(0b100010),
        TemplateId::MovImmReg => {
            let first = vec![lit_bits(0b1011, 4), flag_bits(1), plain(BitUsage::Reg, 3)];
            let r = vec![
                first,
                one_byte(BitUsage::Data(BitOrder::LOW)),
                one_byte(BitUsage::Data(BitOrder::HIGH)),
            ];
            assert(layout_view(r@) =~= raw_layout(t));
            r
        },
        TemplateId::MovImmRm => {
            let first = vec![lit_bits(0b1100011, 7), flag_bits(1)];
            proof {
                assert(first@ =~= seq![lit(0b1100011, 7), flag_field(1)]);
            }
            imm_rm_layout(first)
        },
        TemplateId::MovMemAcc => acc_layout(0b1010000, false),
        TemplateId::MovAccMem => acc_layout(0b1010001, false),
        TemplateId::AddRmReg => rm_reg_layout(0b000000),
        TemplateId::ArithImmRm => imm_rm_layout(arith_first_bits()),
        TemplateId::AddImmAcc => acc_layout(0b0000010, true),
        TemplateId::SubRmReg => rm_reg_layout(0b001010),
        TemplateId::SubImmAcc => acc_layout(0b0010110, true),
        TemplateId::CmpRmReg => rm_reg_layout(0b001110),
        TemplateId::CmpImmAcc => acc_layout(0b0011110, true),
        TemplateId::Jnz => {
            let first = vec![lit_bits(0b01110101, 8)];
            assert(first@ =~= seq![lit(0b01110101, 8)]);
            let r = vec![first, one_byte(BitUsage::Disp(BitOrder::LOW))];
            assert(layout_view(r@) =~= raw_layout(t));
            r
        },
        TemplateId::AddImmRm => imm_rm_layout(arith_first_bits()),
        TemplateId::SubImmRm => imm_rm_layout(arith_first_bits()),
        TemplateId::CmpImmRm => imm_rm_layout(arith_first_bits()),
    }
}

proof fn lemma_width_sum_1(a: Bits)
    ensures
        width_sum(seq![a]) == a.size,
{
    assert(seq![a].drop_last() =~= Seq::<Bits>::empty());
    assert(width_sum(Seq::<Bits>::empty()) == 0);
}

proof fn lemma_width_sum_2(a: Bits, b: Bits)
    ensures
        width_sum(seq![a, b]) == a.size + b.size,
{
    assert(seq![a, b].drop_last() =~= seq![a]);
    lemma_width_sum_1(a);
}

proof fn lemma_width_sum_3(a: Bits, b: Bits, c: Bits)
    ensures
        width_sum(seq![a, b, c]) == a.size + b.size + c.size,
{
    assert(seq![a, b, c].drop_last() =~= seq![a, b]);
    lemma_width_sum_2(a, b);
}

/// Every populated byte of every template has field widths that add up to eight bits.
pub proof fn lemma_byte_widths(t: TemplateId)
    ensures
        forall|k: int| 0 <= k < raw_layout(t).len() ==> #[trigger] width_sum(raw_layout(t)[k]) == 8,
{
    lemma_width_sum_1(field(BitUsage::Disp(BitOrder::LOW), 8));
    lemma_width_sum_1(field(BitUsage::Disp(BitOrder::HIGH), 8));
    lemma_width_sum_1(field(BitUsage::Data(BitOrder::LOW), 8));
    lemma_width_sum_1(field(BitUsage::Data(BitOrder::HIGH), 8));
    lemma_width_sum_1(lit(0b01110101, 8));
    lemma_width_sum_3(field(BitUsage::Mode, 2), field(BitUsage::Reg, 3), field(BitUsage::Rm, 3));
    lemma_width_sum_3(field(BitUsage::Mode, 2), lit(0, 3), field(BitUsage::Rm, 3));
    lemma_width_sum_3(lit(0b100000, 6), flag_field(2), flag_field(1));
    lemma_width_sum_2(lit(0b1100011, 7), flag_field(1));
    lemma_width_sum_3(lit(0b1011, 4), flag_field(1), field(BitUsage::Reg, 3));
    match t {
        TemplateId::MovRmReg | TemplateId::AddRmReg | TemplateId::SubRmReg
        | TemplateId::CmpRmReg => {
            let op: u8 = match t {
                TemplateId::MovRmReg => 0b100010,
                TemplateId::AddRmReg => 0,
                TemplateId::SubRmReg => 0b001010,
                _ => 0b001110,
            };
            lemma_width_sum_3(lit(op, 6), flag_field(4), flag_field(1));
        },
        TemplateId::MovMemAcc | TemplateId::MovAccMem | TemplateId::AddImmAcc
        | TemplateId::SubImmAcc | TemplateId::CmpImmAcc => {
            let op: u8 = match t {
                TemplateId::MovMemAcc => 0b1010000,
                TemplateId::MovAccMem => 0b1010001,
                TemplateId::AddImmAcc => 0b0000010,
                TemplateId::SubImmAcc => 0b0010110,
                _ => 0b0011110,
            };
            lemma_width_sum_2(lit(op, 7), flag_field(1));
        },
        _ => {},
    }
}

/// The template of `t`, with the shift of every field placed.
pub fn assembled_instruction(t: TemplateId) -> (r: AssembledInstruction)
    ensures
        r.operation == template_operation(t),
        r.bytes_view() == template_bytes(t),
{
    let raw = raw_layout_of(t);
    let mut bytes: Vec<Byte> = Vec::new();
    let mut k: usize = 0;
    while k < raw.len()
        invariant
            0 <= k <= raw.len(),
            layout_view(raw@) == raw_layout(t),
            bytes@.len() == k,
            forall|j: int| 0 <= j < k ==> (#[trigger] bytes@[j]).bits@ == template_bytes(t)[j],
        decreases raw.len() - k,
    {
        proof {
            lemma_byte_widths(t);
        }
        assert(layout_view(raw@).len() == raw@.len());
        assert(raw_layout(t)[k as int] == raw@[k as int]@);
        assert(width_sum(raw_layout(t)[k as int]) == 8);
        let byte = explode_byte(&raw[k]);
        bytes.push(byte);
        k += 1;
    }
    let operation = match t {
        TemplateId::MovRmReg | TemplateId::MovImmReg | TemplateId::MovImmRm
        | TemplateId::MovMemAcc | TemplateId::MovAccMem => Operation::MOV,
        TemplateId::AddRmReg | TemplateId::ArithImmRm | TemplateId::AddImmAcc
        | TemplateId::AddImmRm => Operation::ADD,
        TemplateId::SubRmReg | TemplateId::SubImmAcc | TemplateId::SubImmRm => Operation::SUB,
        TemplateId::CmpRmReg | TemplateId::CmpImmAcc | TemplateId::CmpImmRm => Operation::CMP,
        TemplateId::Jnz => Operation::JNZ,
    };
    let r = AssembledInstruction { operation, bytes };
    assert(r.bytes_view() =~= template_bytes(t));
    r
}

fn dispatch_ids() -> (r: Vec<TemplateId>)
    ensures
        r@ == dispatch_table(),
{
    let r = vec![
        TemplateId::MovRmReg,
        TemplateId::MovImmReg,
        TemplateId::MovImmRm,
        TemplateId::MovMemAcc,
        TemplateId::MovAccMem,
        TemplateId::AddRmReg,
        TemplateId::ArithImmRm,
        TemplateId::AddImmAcc,
        TemplateId::SubRmReg,
        TemplateId::SubImmAcc,
        TemplateId::CmpRmReg,
        TemplateId::CmpImmAcc,
        TemplateId::Jnz,
    ];
    assert(r@ =~= dispatch_table());
    r
}

/// The first template of the dispatch table whose leading literal matches `byte`.
pub fn match_first_byte(byte: u8) -> (r: Option<TemplateId>)
    ensures
        r == match_spec(byte),
{
    let ids = dispatch_ids();
    let mut i: usize = 0;
    while i < ids.len()
        invariant
            0 <= i <= ids.len(),
            ids@ == dispatch_table(),
            match_spec(byte) == first_match_from(byte, i as int),
        decreases ids.len() - i,
    {
        let t = ids[i];
        let template = assembled_instruction(t);
        match template.literal_in(byte) {
            Ok(true) => {
                return Some(t);
            },
            _ => {},
        }
        i += 1;
    }
    None
}

/// The template selected by a first byte, or `InstructionUndefinedError` when none matches.
pub fn get_assembled_instruction(byte: u8) -> (r: Result<
    AssembledInstruction,
    AssembledInstructionLookupError,
>)
    ensures
        match_spec(byte) is None <==> r == Err::<
            AssembledInstruction,
            AssembledInstructionLookupError,
        >(AssembledInstructionLookupError::InstructionUndefinedError),
        match_spec(byte) is Some ==> r is Ok && r->Ok_0.operation == template_operation(
            match_spec(byte)->Some_0,
        ) && r->Ok_0.bytes_view() == template_bytes(match_spec(byte)->Some_0),
{
    match match_first_byte(byte) {
        Some(t) => Ok(assembled_instruction(t)),
        None => Err(AssembledInstructionLookupError::InstructionUndefinedError),
    }
}

/// A byte built from one value per field, each value shifted to its field's place.
pub open spec fn compose(fields: Seq<Bits>, values: Seq<u8>) -> u8
    decreases fields.len(),
{
    if fields.len() == 0 {
        0
    } else {
        compose(fields.drop_last(), values) | (values[fields.len() - 1] << match fields.last().shift {
            Some(sh) => sh,
            None => 0u8,
        })
    }
}

/// One value per field, each fitting the field's width.
pub open spec fn values_fit(fields: Seq<Bits>, values: Seq<u8>) -> bool {
    values.len() == fields.len() && forall|i: int|
        0 <= i < fields.len() ==> values[i] <= low_mask(#[trigger] fields[i].size)
}

/// Every field of `fields` reads back its own value from the byte built from `values`.
pub open spec fn reads_back(fields: Seq<Bits>, values: Seq<u8>) -> bool {
    forall|i: int|
        0 <= i < fields.len() ==> extract(
            compose(fields, values),
            (#[trigger] fields[i]).shift->Some_0,
            fields[i].size,
        ) == values[i]
}

/// The field widths of a byte of the table: 6+1+1, 2+3+3, 4+1+3, 7+1 or 8.
pub open spec fn shape_ok(raw: Seq<Bits>) -> bool {
    (raw.len() == 3 && ((raw[0].size == 6 && raw[1].size == 1 && raw[2].size == 1) || (
    raw[0].size == 2 && raw[1].size == 3 && raw[2].size == 3) || (raw[0].size == 4
        && raw[1].size == 1 && raw[2].size == 3))) || (raw.len() == 2 && raw[0].size == 7
        && raw[1].size == 1) || (raw.len() == 1 && raw[0].size == 8)
}

proof fn lemma_shapes(t: TemplateId)
    ensures
        forall|k: int| 0 <= k < raw_layout(t).len() ==> shape_ok(#[trigger] raw_layout(t)[k]),
{
    let raw = raw_layout(t);
    assert forall|k: int| 0 <= k < raw.len() implies shape_ok(#[trigger] raw[k]) by {
        if k == 0 {
        } else if k == 1 {
        } else if k == 2 {
        } else if k == 3 {
        } else if k == 4 {
        } else {
        }
    }
}

proof fn lemma_bits_611(v0: u8, v1: u8, v2: u8, b: u8)
    by (bit_vector)
    requires
        v0 <= 63,
        v1 <= 1,
        v2 <= 1,
        b == ((0u8 | (v0 << 2u8)) | (v1 << 1u8)) | (v2 << 0u8),
    ensures
        extract(b, 2, 6) == v0,
        extract(b, 1, 1) == v1,
        extract(b, 0, 1) == v2,
{
}

proof fn lemma_bits_233(v0: u8, v1: u8, v2: u8, b: u8)
    by (bit_vector)
    requires
        v0 <= 3,
        v1 <= 7,
        v2 <= 7,
        b == ((0u8 | (v0 << 6u8)) | (v1 << 3u8)) | (v2 << 0u8),
    ensures
        extract(b, 6, 2) == v0,
        extract(b, 3, 3) == v1,
        extract(b, 0, 3) == v2,
{
}

proof fn lemma_bits_413(v0: u8, v1: u8, v2: u8, b: u8)
    by (bit_vector)
    requires
        v0 <= 15,
        v1 <= 1,
        v2 <= 7,
        b == ((0u8 | (v0 << 4u8)) | (v1 << 3u8)) | (v2 << 0u8),
    ensures
        extract(b, 4, 4) == v0,
        extract(b, 3, 1) == v1,
        extract(b, 0, 3) == v2,
{
}

proof fn lemma_bits_71(v0: u8, v1: u8, b: u8)
    by (bit_vector)
    requires
        v0 <= 127,
        v1 <= 1,
        b == (0u8 | (v0 << 1u8)) | (v1 << 0u8),
    ensures
        extract(b, 1, 7) == v0,
        extract(b, 0, 1) == v1,
{
}

proof fn lemma_bits_8(v0: u8, b: u8)
    by (bit_vector)
    requires
        b == 0u8 | (v0 << 0u8),
    ensures
        extract(b, 0, 8) == v0,
{
}

proof fn lemma_empty_sums(f: Seq<Bits>, values: Seq<u8>)
    requires
        f.len() == 0,
    ensures
        width_sum(f) == 0,
        compose(f, values) == 0,
{
}

/// Each byte of the table, once its shifts are placed, covers exactly eight bits, and a
/// byte built from values that fit the fields gives each field its own value back.
pub proof fn lemma_template_layout(t: TemplateId, k: int, values: Seq<u8>)
    requires
        0 <= k < template_bytes(t).len(),
        values_fit(template_bytes(t)[k], values),
    ensures
        width_sum(template_bytes(t)[k]) == 8,
        reads_back(template_bytes(t)[k], values),
{
    lemma_shapes(t);
    let raw = raw_layout(t)[k];
    assert(shape_ok(raw));
    let f = with_shifts(raw);
    assert(template_bytes(t)[k] == f);
    assert(raw.take(0) =~= Seq::<Bits>::empty());
    lemma_empty_sums(raw.take(0), values);
    assert forall|i: int| 0 <= i < raw.len() implies width_sum(#[trigger] raw.take(i + 1))
        == width_sum(raw.take(i)) + raw[i].size by {
        lemma_width_sum_take_succ(raw, i);
    }
    let n = f.len();
    if n == 1 {
        assert(width_sum(raw.take(1)) == raw[0].size);
        let f0 = f.drop_last();
        lemma_empty_sums(f0, values);
        assert(compose(f, values) == 0u8 | (values[0] << 0u8));
        assert(width_sum(f) == 8);
        lemma_bits_8(values[0], compose(f, values));
    } else if n == 2 {
        assert(width_sum(raw.take(1)) == 7);
        assert(width_sum(raw.take(2)) == 8);
        let f1 = f.drop_last();
        let f0 = f1.drop_last();
        lemma_empty_sums(f0, values);
        assert(f1.last() == f[0]);
        assert(compose(f1, values) == 0u8 | (values[0] << 1u8));
        assert(compose(f, values) == (0u8 | (values[0] << 1u8)) | (values[1] << 0u8));
        assert(width_sum(f1) == 7);
        assert(values[1] <= low_mask(f[1].size));
        lemma_bits_71(values[0], values[1], compose(f, values));
    } else {
        let a = raw[0].size;
        let b = raw[1].size;
        assert(width_sum(raw.take(1)) == a);
        assert(width_sum(raw.take(2)) == a + b);
        assert(width_sum(raw.take(3)) == 8);
        let f2 = f.drop_last();
        let f1 = f2.drop_last();
        let f0 = f1.drop_last();
        lemma_empty_sums(f0, values);
        assert(f1.last() == f[0]);
        assert(f2.last() == f[1]);
        let s0 = (8 - a) as u8;
        let s1 = (8 - a - b) as u8;
        assert(compose(f1, values) == 0u8 | (values[0] << s0));
        assert(compose(f2, values) == (0u8 | (values[0] << s0)) | (values[1] << s1));
        assert(compose(f, values) == ((0u8 | (values[0] << s0)) | (values[1] << s1)) | (values[2]
            << 0u8));
        assert(width_sum(f1) == a);
        assert(width_sum(f2) == a + b);
        assert(values[0] <= low_mask(f[0].size));
        assert(values[1] <= low_mask(f[1].size));
        assert(values[2] <= low_mask(f[2].size));
        if a == 6 {
            lemma_bits_611(values[0], values[1], values[2], compose(f, values));
        } else if a == 2 {
            lemma_bits_233(values[0], values[1], values[2], compose(f, values));
        } else {
            lemma_bits_413(values[0], values[1], values[2], compose(f, values));
        }
    }
}

/// The leading literal of a template: its value, and the shift that right-aligns it.
pub open spec fn leading_pattern(t: TemplateId) -> (u8, u8) {
    match t {
        TemplateId::MovRmReg => (34u8, 2u8),
        TemplateId::MovImmReg => (11u8, 4u8),
        TemplateId::MovImmRm => (99u8, 1u8),
        TemplateId::MovMemAcc => (80u8, 1u8),
        TemplateId::MovAccMem => (81u8, 1u8),
        TemplateId::AddRmReg => (0u8, 2u8),
        TemplateId::ArithImmRm => (32u8, 2u8),
        TemplateId::AddImmAcc => (2u8, 1u8),
        TemplateId::SubRmReg => (10u8, 2u8),
        TemplateId::SubImmAcc => (22u8, 1u8),
        TemplateId::CmpRmReg => (14u8, 2u8),
        TemplateId::CmpImmAcc => (30u8, 1u8),
        TemplateId::Jnz => (117u8, 0u8),
        TemplateId::AddImmRm | TemplateId::SubImmRm | TemplateId::CmpImmRm => (32u8, 2u8),
    }
}

/// Whether the leading bits of `byte` are the template's leading literal.
pub open spec fn literal_matches(t: TemplateId, byte: u8) -> bool {
    byte >> leading_pattern(t).1 == leading_pattern(t).0
}

/// No byte starts with the literals of two templates of the dispatch table.
pub open spec fn patterns_disjoint(byte: u8) -> bool {
        !(byte >> 2u8 == 34u8 && byte >> 4u8 == 11u8)
            && !(byte >> 2u8 == 34u8 && byte >> 1u8 == 99u8)
            && !(byte >> 2u8 == 34u8 && byte >> 1u8 == 80u8)
            && !(byte >> 2u8 == 34u8 && byte >> 1u8 == 81u8)
            && !(byte >> 2u8 == 34u8 && byte >> 2u8 == 0u8)
            && !(byte >> 2u8 == 34u8 && byte >> 2u8 == 32u8)
            && !(byte >> 2u8 == 34u8 && byte >> 1u8 == 2u8)
            && !(byte >> 2u8 == 34u8 && byte >> 2u8 == 10u8)
            && !(byte >> 2u8 == 34u8 && byte >> 1u8 == 22u8)
            && !(byte >> 2u8 == 34u8 && byte >> 2u8 == 14u8)
            && !(byte >> 2u8 == 34u8 && byte >> 1u8 == 30u8)
            && !(byte >> 2u8 == 34u8 && byte >> 0u8 == 117u8)
            && !(byte >> 4u8 == 11u8 && byte >> 1u8 == 99u8)
            && !(byte >> 4u8 == 11u8 && byte >> 1u8 == 80u8)
            && !(byte >> 4u8 == 11u8 && byte >> 1u8 == 81u8)
            && !(byte >> 4u8 == 11u8 && byte >> 2u8 == 0u8)
            && !(byte >> 4u8 == 11u8 && byte >> 2u8 == 32u8)
            && !(byte >> 4u8 == 11u8 && byte >> 1u8 == 2u8)
            && !(byte >> 4u8 == 11u8 && byte >> 2u8 == 10u8)
            && !(byte >> 4u8 == 11u8 && byte >> 1u8 == 22u8)
            && !(byte >> 4u8 == 11u8 && byte >> 2u8 == 14u8)
            && !(byte >> 4u8 == 11u8 && byte >> 1u8 == 30u8)
            && !(byte >> 4u8 == 11u8 && byte >> 0u8 == 117u8)
            && !(byte >> 1u8 == 99u8 && byte >> 1u8 == 80u8)
            && !(byte >> 1u8 == 99u8 && byte >> 1u8 == 81u8)
            && !(byte >> 1u8 == 99u8 && byte >> 2u8 == 0u8)
            && !(byte >> 1u8 == 99u8 && byte >> 2u8 == 32u8)
            && !(byte >> 1u8 == 99u8 && byte >> 1u8 == 2u8)
            && !(byte >> 1u8 == 99u8 && byte >> 2u8 == 10u8)
            && !(byte >> 1u8 == 99u8 && byte >> 1u8 == 22u8)
            && !(byte >> 1u8 == 99u8 && byte >> 2u8 == 14u8)
            && !(byte >> 1u8 == 99u8 && byte >> 1u8 == 30u8)
            && !(byte >> 1u8 == 99u8 && byte >> 0u8 == 117u8)
            && !(byte >> 1u8 == 80u8 && byte >> 1u8 == 81u8)
            && !(byte >> 1u8 == 80u8 && byte >> 2u8 == 0u8)
            && !(byte >> 1u8 == 80u8 && byte >> 2u8 == 32u8)
            && !(byte >> 1u8 == 80u8 && byte >> 1u8 == 2u8)
            && !(byte >> 1u8 == 80u8 && byte >> 2u8 == 10u8)
            && !(byte >> 1u8 == 80u8 && byte >> 1u8 == 22u8)
            && !(byte >> 1u8 == 80u8 && byte >> 2u8 == 14u8)
            && !(byte >> 1u8 == 80u8 && byte >> 1u8 == 30u8)
            && !(byte >> 1u8 == 80u8 && byte >> 0u8 == 117u8)
            && !(byte >> 1u8 == 81u8 && byte >> 2u8 == 0u8)
            && !(byte >> 1u8 == 81u8 && byte >> 2u8 == 32u8)
            && !(byte >> 1u8 == 81u8 && byte >> 1u8 == 2u8)
            && !(byte >> 1u8 == 81u8 && byte >> 2u8 == 10u8)
            && !(byte >> 1u8 == 81u8 && byte >> 1u8 == 22u8)
            && !(byte >> 1u8 == 81u8 && byte >> 2u8 == 14u8)
            && !(byte >> 1u8 == 81u8 && byte >> 1u8 == 30u8)
            && !(byte >> 1u8 == 81u8 && byte >> 0u8 == 117u8)
            && !(byte >> 2u8 == 0u8 && byte >> 2u8 == 32u8)
            && !(byte >> 2u8 == 0u8 && byte >> 1u8 == 2u8)
            && !(byte >> 2u8 == 0u8 && byte >> 2u8 == 10u8)
            && !(byte >> 2u8 == 0u8 && byte >> 1u8 == 22u8)
            && !(byte >> 2u8 == 0u8 && byte >> 2u8 == 14u8)
            && !(byte >> 2u8 == 0u8 && byte >> 1u8 == 30u8)
            && !(byte >> 2u8 == 0u8 && byte >> 0u8 == 117u8)
            && !(byte >> 2u8 == 32u8 && byte >> 1u8 == 2u8)
            && !(byte >> 2u8 == 32u8 && byte >> 2u8 == 10u8)
            && !(byte >> 2u8 == 32u8 && byte >> 1u8 == 22u8)
            && !(byte >> 2u8 == 32u8 && byte >> 2u8 == 14u8)
            && !(byte >> 2u8 == 32u8 && byte >> 1u8 == 30u8)
            && !(byte >> 2u8 == 32u8 && byte >> 0u8 == 117u8)
            && !(byte >> 1u8 == 2u8 && byte >> 2u8 == 10u8)
            && !(byte >> 1u8 == 2u8 && byte >> 1u8 == 22u8)
            && !(byte >> 1u8 == 2u8 && byte >> 2u8 == 14u8)
            && !(byte >> 1u8 == 2u8 && byte >> 1u8 == 30u8)
            && !(byte >> 1u8 == 2u8 && byte >> 0u8 == 117u8)
            && !(byte >> 2u8 == 10u8 && byte >> 1u8 == 22u8)
            && !(byte >> 2u8 == 10u8 && byte >> 2u8 == 14u8)
            && !(byte >> 2u8 == 10u8 && byte >> 1u8 == 30u8)
            && !(byte >> 2u8 == 10u8 && byte >> 0u8 == 117u8)
            && !(byte >> 1u8 == 22u8 && byte >> 2u8 == 14u8)
            && !(byte >> 1u8 == 22u8 && byte >> 1u8 == 30u8)
            && !(byte >> 1u8 == 22u8 && byte >> 0u8 == 117u8)
            && !(byte >> 2u8 == 14u8 && byte >> 1u8 == 30u8)
            && !(byte >> 2u8 == 14u8 && byte >> 0u8 == 117u8)
            && !(byte >> 1u8 == 30u8 && byte >> 0u8 == 117u8)
}

proof fn lemma_patterns_disjoint(byte: u8)
    ensures
        patterns_disjoint(byte),
{
    assert(patterns_disjoint(byte)) by (bit_vector);
}

/// The literal in front of every template is its leading pattern, and a byte selects a
/// template exactly when its leading bits are that pattern.
pub proof fn lemma_leading_literal(t: TemplateId, byte: u8)
    ensures
        literal_in_spec(template_bytes(t), byte) == Ok::<bool, AssembledInstructionLookupError>(
            literal_matches(t, byte),
        ),
{
    let raw = raw_layout(t)[0];
    assert(raw.take(0) =~= Seq::<Bits>::empty());
    assert(width_sum(raw.take(0)) == 0);
    lemma_width_sum_take_succ(raw, 0);
}

/// The literal patterns of the dispatch table are pairwise disjoint: no byte matches two
/// of its templates, so the order of the table never decides a lookup.
pub proof fn lemma_literals_disjoint(byte: u8, s: TemplateId, t: TemplateId)
    requires
        dispatch_table().contains(s),
        dispatch_table().contains(t),
        literal_in_spec(template_bytes(s), byte) == Ok::<bool, AssembledInstructionLookupError>(true),
        literal_in_spec(template_bytes(t), byte) == Ok::<bool, AssembledInstructionLookupError>(true),
    ensures
        s == t,
{
    lemma_leading_literal(s, byte);
    lemma_leading_literal(t, byte);
    lemma_patterns_disjoint(byte);
    let i = choose|i: int| 0 <= i < dispatch_table().len() && dispatch_table()[i] == s;
    let j = choose|j: int| 0 <= j < dispatch_table().len() && dispatch_table()[j] == t;
    assert(s != TemplateId::AddImmRm && s != TemplateId::SubImmRm && s != TemplateId::CmpImmRm);
    assert(t != TemplateId::AddImmRm && t != TemplateId::SubImmRm && t != TemplateId::CmpImmRm);
}

/// The shifts placed in a byte of three fields: the bits left of bit 8 after each field.
pub proof fn lemma_shifts3(raw: Seq<Bits>)
    requires
        raw.len() == 3,
    ensures
        with_shifts(raw) == seq![
            Bits {
                usage: raw[0].usage,
                size: raw[0].size,
                value: raw[0].value,
                shift: Some((8 - raw[0].size) as u8),
            },
            Bits {
                usage: raw[1].usage,
                size: raw[1].size,
                value: raw[1].value,
                shift: Some((8 - raw[0].size - raw[1].size) as u8),
            },
            Bits {
                usage: raw[2].usage,
                size: raw[2].size,
                value: raw[2].value,
                shift: Some((8 - raw[0].size - raw[1].size - raw[2].size) as u8),
            },
        ],
{
    assert(raw.take(0) =~= Seq::<Bits>::empty());
    assert(width_sum(raw.take(0)) == 0);
    lemma_width_sum_take_succ(raw, 0);
    lemma_width_sum_take_succ(raw, 1);
    lemma_width_sum_take_succ(raw, 2);
    assert(with_shifts(raw) =~= seq![
        Bits {
            usage: raw[0].usage,
            size: raw[0].size,
            value: raw[0].value,
            shift: Some((8 - raw[0].size) as u8),
        },
        Bits {
            usage: raw[1].usage,
            size: raw[1].size,
            value: raw[1].value,
            shift: Some((8 - raw[0].size - raw[1].size) as u8),
        },
        Bits {
            usage: raw[2].usage,
            size: raw[2].size,
            value: raw[2].value,
            shift: Some((8 - raw[0].size - raw[1].size - raw[2].size) as u8),
        },
    ]);
}

/// A template that a first byte selects has a leading literal matching that byte.
pub proof fn lemma_match_is_literal(byte: u8, i: int)
    requires
        first_match_from(byte, i) is Some,
    ensures
        literal_in_spec(template_bytes(first_match_from(byte, i)->Some_0), byte) == Ok::<
            bool,
            AssembledInstructionLookupError,
        >(true),
        dispatch_table().contains(first_match_from(byte, i)->Some_0),
    decreases dispatch_table().len() - i,
{
    if literal_in_spec(template_bytes(dispatch_table()[i]), byte) != Ok::<
        bool,
        AssembledInstructionLookupError,
    >(true) {
        lemma_match_is_literal(byte, i + 1);
    }
}

} // verus!
