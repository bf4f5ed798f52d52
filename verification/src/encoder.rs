//! The protocol encoder: a five-instruction hardware state-machine program.
//!
//! The program pulls one bit at a time from the shift register and shapes
//! it as an NRZ pulse on a single side-set pin: every bit period is
//! `t1 + t2 + t3` cycles long, the line is high for `t1 + t2` cycles when
//! the bit is one and for `t1` cycles when it is zero. The program loops
//! forever between its wrap points and stalls, line low, while the shift
//! register has no data.
//!
//! Instructions are modeled as data and encoded into the 16-bit
//! instruction-memory format of the RP2040 PIO block: three opcode bits,
//! five delay/side-set bits (here one side-set bit and four delay bits),
//! a three-bit primary operand and a five-bit secondary operand.

use vstd::prelude::*;
use crate::timing::BitTiming;

verus! {

/// Branch conditions used by the encoder program.
#[derive(Clone, Copy, PartialEq, Eq, Structural, Debug)]
pub enum JmpCondition {
    /// Branch unconditionally.
    Always,
    /// Branch when scratch register X is zero.
    XIsZero,
}

/// The instructions the encoder program is built from, a subset of the
/// PIO instruction set.
#[derive(Clone, Copy, PartialEq, Eq, Structural, Debug)]
pub enum Instruction {
    /// `SET PINDIRS, data`: drive the pin-direction lines.
    SetPindirs { data: u8 },
    /// `OUT X, bit_count`: shift bits from the output shift register into X.
    OutX { bit_count: u8 },
    /// `JMP condition, address`.
    Jmp { condition: JmpCondition, address: u8 },
    /// `MOV Y, Y`: no operation.
    Nop,
}

/// One program slot: an instruction, its extra delay cycles, and the level
/// driven on the side-set pin while it runs.
#[derive(Clone, Copy, PartialEq, Eq, Structural, Debug)]
pub struct Operation {
    pub instruction: Instruction,
    pub delay: u8,
    pub side: u8,
}

/// Three-bit major opcode, instruction bits 15:13.
pub open spec fn opcode(i: Instruction) -> u16 {
    match i {
        Instruction::SetPindirs { .. } => 7,
        Instruction::OutX { .. } => 3,
        Instruction::Jmp { .. } => 0,
        Instruction::Nop => 5,
    }
}

/// Encoding of a branch condition in the primary operand field.
pub open spec fn condition_code(c: JmpCondition) -> u16 {
    match c {
        JmpCondition::Always => 0,
        JmpCondition::XIsZero => 1,
    }
}

/// Primary operand, instruction bits 7:5: the destination (PINDIRS for
/// SET, X for OUT, Y for the MOV behind NOP) or the branch condition.
pub open spec fn operand_hi(i: Instruction) -> u16 {
    match i {
        Instruction::SetPindirs { .. } => 4,
        Instruction::OutX { .. } => 1,
        Instruction::Jmp { condition, .. } => condition_code(condition),
        Instruction::Nop => 2,
    }
}

/// Secondary operand, instruction bits 4:0: immediate data, bit count or
/// branch address; for the MOV behind NOP, operation 0 and source Y.
pub open spec fn operand_lo(i: Instruction) -> u16 {
    match i {
        Instruction::SetPindirs { data } => data as u16,
        Instruction::OutX { bit_count } => bit_count as u16,
        Instruction::Jmp { address, .. } => address as u16,
        Instruction::Nop => 2,
    }
}

/// The operands fit their fields, and with one mandatory side-set bit the
/// delay is left four bits.
pub open spec fn operation_wf(op: Operation) -> bool {
    &&& operand_lo(op.instruction) <= 31
    &&& op.delay <= 15
    &&& op.side <= 1
}

/// The 16-bit instruction-memory encoding of one operation, with one
/// mandatory side-set bit above four delay bits.
pub open spec fn encoded_op(op: Operation) -> u16 {
    (opcode(op.instruction) << 13) | ((((op.delay as u16) | ((op.side as u16) << 4))) << 8)
        | (operand_hi(op.instruction) << 5) | operand_lo(op.instruction)
}

/// Encode one operation into its 16-bit instruction word.
pub fn encode_operation(op: &Operation) -> (w: u16)
    requires
        operation_wf(*op),
    ensures
        w == encoded_op(*op),
{
    let code: u16 = match op.instruction {
        Instruction::SetPindirs { .. } => 7,
        Instruction::OutX { .. } => 3,
        Instruction::Jmp { .. } => 0,
        Instruction::Nop => 5,
    };
    let hi: u16 = match op.instruction {
        Instruction::SetPindirs { .. } => 4,
        Instruction::OutX { .. } => 1,
        Instruction::Jmp { condition, .. } => match condition {
            JmpCondition::Always => 0,
            JmpCondition::XIsZero => 1,
        },
        Instruction::Nop => 2,
    };
    let lo: u16 = match op.instruction {
        Instruction::SetPindirs { data } => data as u16,
        Instruction::OutX { bit_count } => bit_count as u16,
        Instruction::Jmp { address, .. } => address as u16,
        Instruction::Nop => 2,
    };
    (code << 13) | (((op.delay as u16) | ((op.side as u16) << 4)) << 8) | (hi << 5) | lo
}

/// Instruction index the program wraps back to: the top of the per-bit loop.
pub const WRAP_TARGET: u8 = 1;

/// Instruction index after which the program wraps: the last loop slot.
pub const WRAP_SOURCE: u8 = 4;

/// Index of the branch taken when the pending data bit is zero.
pub const DO_ZERO: u8 = 4;

/// The encoder program for bit timing `t`, as operations:
/// pin-direction setup once, then per bit the stop phase (low) while the
/// next bit is pulled, the start phase (high), and the data phase, high
/// via the fall-through branch for a one or low via the NOP at `DO_ZERO`
/// for a zero.
pub open spec fn program_ops(t: BitTiming) -> Seq<Operation> {
    seq![
        Operation {
            instruction: Instruction::SetPindirs { data: 1 },
            delay: 0,
            side: 0,
        },
        Operation {
            instruction: Instruction::OutX { bit_count: 1 },
            delay: (t.t3 - 1) as u8,
            side: 0,
        },
        Operation {
            instruction: Instruction::Jmp {
                condition: JmpCondition::XIsZero,
                address: DO_ZERO,
            },
            delay: (t.t1 - 1) as u8,
            side: 1,
        },
        Operation {
            instruction: Instruction::Jmp {
                condition: JmpCondition::Always,
                address: WRAP_TARGET,
            },
            delay: (t.t2 - 1) as u8,
            side: 1,
        },
        Operation { instruction: Instruction::Nop, delay: (t.t2 - 1) as u8, side: 0 },
    ]
}

/// An assembled encoder program: the encoded instruction words, the wrap
/// points of its infinite loop, and its side-set configuration.
pub struct EncoderProgram {
    pub code: Vec<u16>,
    pub wrap_source: u8,
    pub wrap_target: u8,
    pub side_set_bits: u8,
    pub side_set_optional: bool,
    pub side_set_pindirs: bool,
}

/// What an assembled program for timing `t` looks like: five words, each
/// the encoding of the corresponding operation, wrapping from slot 4 back
/// to slot 1, with one mandatory side-set data bit.
pub open spec fn program_matches(p: EncoderProgram, t: BitTiming) -> bool {
    &&& p.code@.len() == 5
    &&& (forall|i: int| 0 <= i < 5 ==> p.code@[i] == encoded_op(#[trigger] program_ops(t)[i]))
    &&& p.wrap_source == WRAP_SOURCE
    &&& p.wrap_target == WRAP_TARGET
    &&& p.side_set_bits == 1
    &&& !p.side_set_optional
    &&& !p.side_set_pindirs
}

/// Assemble the WS2812 encoder program for bit timing `t`.
pub fn ws2812_program(t: &BitTiming) -> (p: EncoderProgram)
    requires
        t.wf(),
    ensures
        program_matches(p, *t),
{
    let mut code: Vec<u16> = Vec::new();
    let op0 = Operation { instruction: Instruction::SetPindirs { data: 1 }, delay: 0, side: 0 };
    let op1 = Operation {
        instruction: Instruction::OutX { bit_count: 1 },
        delay: t.t3 - 1,
        side: 0,
    };
    let op2 = Operation {
        instruction: Instruction::Jmp { condition: JmpCondition::XIsZero, address: DO_ZERO },
        delay: t.t1 - 1,
        side: 1,
    };
    let op3 = Operation {
        instruction: Instruction::Jmp { condition: JmpCondition::Always, address: WRAP_TARGET },
        delay: t.t2 - 1,
        side: 1,
    };
    let op4 = Operation { instruction: Instruction::Nop, delay: t.t2 - 1, side: 0 };
    code.push(encode_operation(&op0));
    code.push(encode_operation(&op1));
    code.push(encode_operation(&op2));
    code.push(encode_operation(&op3));
    code.push(encode_operation(&op4));
    assert(code@ =~= seq![
        encoded_op(program_ops(*t)[0]),
        encoded_op(program_ops(*t)[1]),
        encoded_op(program_ops(*t)[2]),
        encoded_op(program_ops(*t)[3]),
        encoded_op(program_ops(*t)[4]),
    ]);
    EncoderProgram {
        code,
        wrap_source: WRAP_SOURCE,
        wrap_target: WRAP_TARGET,
        side_set_bits: 1,
        side_set_optional: false,
        side_set_pindirs: false,
    }
}

/// Cycles one operation occupies: one to issue plus its delay.
pub open spec fn op_cycles(op: Operation) -> int {
    op.delay + 1
}

/// The loop slots executed for one bit of value `bit`: the stop-phase OUT,
/// the start-phase branch, then the data-phase slot the branch selects.
pub open spec fn executed_ops(t: BitTiming, bit: bool) -> Seq<Operation> {
    if bit {
        seq![program_ops(t)[1], program_ops(t)[2], program_ops(t)[3]]
    } else {
        seq![program_ops(t)[1], program_ops(t)[2], program_ops(t)[4]]
    }
}

/// Total cycles of a run of operations.
pub open spec fn total_cycles(ops: Seq<Operation>) -> int
    decreases ops.len(),
{
    if ops.len() == 0 {
        0
    } else {
        op_cycles(ops[0]) + total_cycles(ops.drop_first())
    }
}

/// Cycles of a run of operations during which the side-set pin is high.
pub open spec fn high_cycles(ops: Seq<Operation>) -> int
    decreases ops.len(),
{
    if ops.len() == 0 {
        0
    } else {
        (if ops[0].side == 1 { op_cycles(ops[0]) } else { 0 }) + high_cycles(ops.drop_first())
    }
}

/// The five instruction words of the WS2812 program at its reference
/// timing of 2 + 5 + 3 cycles, fully evaluated.
pub proof fn lemma_ws2812_reference_words()
    ensures
        encoded_op(program_ops(BitTiming { t1: 2, t2: 5, t3: 3 })[0]) == 0xe081,
        encoded_op(program_ops(BitTiming { t1: 2, t2: 5, t3: 3 })[1]) == 0x6221,
        encoded_op(program_ops(BitTiming { t1: 2, t2: 5, t3: 3 })[2]) == 0x1124,
        encoded_op(program_ops(BitTiming { t1: 2, t2: 5, t3: 3 })[3]) == 0x1401,
        encoded_op(program_ops(BitTiming { t1: 2, t2: 5, t3: 3 })[4]) == 0xa442,
{
    assert((7u16 << 13) | (((0u16) | (0u16 << 4)) << 8) | (4u16 << 5) | 1u16 == 0xe081u16)
        by (bit_vector);
    assert((3u16 << 13) | (((2u16) | (0u16 << 4)) << 8) | (1u16 << 5) | 1u16 == 0x6221u16)
        by (bit_vector);
    assert((0u16 << 13) | (((1u16) | (1u16 << 4)) << 8) | (1u16 << 5) | 4u16 == 0x1124u16)
        by (bit_vector);
    assert((0u16 << 13) | (((4u16) | (1u16 << 4)) << 8) | (0u16 << 5) | 1u16 == 0x1401u16)
        by (bit_vector);
    assert((5u16 << 13) | (((4u16) | (0u16 << 4)) << 8) | (2u16 << 5) | 2u16 == 0xa442u16)
        by (bit_vector);
}

/// NRZ bit shaping: every bit occupies exactly `t1 + t2 + t3` cycles, and
/// the pin is high for `t1 + t2` of them when the bit is one and for `t1`
/// when it is zero; the rest of the period is low.
pub proof fn lemma_nrz_waveform(t: BitTiming, bit: bool)
    requires
        t.wf(),
    ensures
        total_cycles(executed_ops(t, bit)) == t.cycles_per_bit_spec(),
        high_cycles(executed_ops(t, bit)) == if bit {
            t.t1 + t.t2
        } else {
            t.t1 as int
        },
{
    let s = executed_ops(t, bit);
    let rest1 = s.drop_first();
    let rest2 = rest1.drop_first();
    let rest3 = rest2.drop_first();
    assert(s.len() == 3);
    assert(rest1[0] == s[1]);
    assert(rest2[0] == s[2]);
    assert(rest3.len() == 0);
    assert(total_cycles(rest3) == 0);
    assert(high_cycles(rest3) == 0);
    assert(total_cycles(rest2) == op_cycles(rest2[0]) + total_cycles(rest3));
    assert(total_cycles(rest1) == op_cycles(rest1[0]) + total_cycles(rest2));
    assert(total_cycles(s) == op_cycles(s[0]) + total_cycles(rest1));
    assert(high_cycles(rest2) == (if rest2[0].side == 1 {
        op_cycles(rest2[0])
    } else {
        0
    }) + high_cycles(rest3));
    assert(high_cycles(rest1) == (if rest1[0].side == 1 {
        op_cycles(rest1[0])
    } else {
        0
    }) + high_cycles(rest2));
    assert(high_cycles(s) == (if s[0].side == 1 {
        op_cycles(s[0])
    } else {
        0
    }) + high_cycles(rest1));
    assert(s[0] == program_ops(t)[1]);
    assert(s[1] == program_ops(t)[2]);
    assert(s[2] == if bit {
        program_ops(t)[3]
    } else {
        program_ops(t)[4]
    });
}

} // verus!
