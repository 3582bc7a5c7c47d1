//! The table of unprefixed opcodes.
use vstd::prelude::*;
use crate::registers::{FlagBits, Registers8Bit, Registers16Bit};
use crate::microcode::{MCycleOp, MicroOp, AluOp, IduOp, CheckCondition, VectorAddress, SetFlagZ, SetFlagN, SetFlagH, SetFlagC};
use crate::instructions::Instruction;

verus! {

/// Whether the instruction set defines an unprefixed opcode: all but eleven do.
pub open spec fn opcode_defined(opcode: u8) -> bool {
    !(opcode == 0xD3 || opcode == 0xDB || opcode == 0xDD || opcode == 0xE3 || opcode == 0xE4
        || opcode == 0xEB || opcode == 0xEC || opcode == 0xED || opcode == 0xF4 || opcode == 0xFC
        || opcode == 0xFD)
}

/// The register an opcode of the 0x40 ..= 0xBF blocks names in three bits (`[HL]`, index
/// 6, has none).
pub open spec fn register_of_index(index: int) -> Registers8Bit {
    if index == 0 {
        Registers8Bit::B
    } else if index == 1 {
        Registers8Bit::C
    } else if index == 2 {
        Registers8Bit::D
    } else if index == 3 {
        Registers8Bit::E
    } else if index == 4 {
        Registers8Bit::H
    } else if index == 5 {
        Registers8Bit::L
    } else {
        Registers8Bit::A
    }
}

/// The ALU operation of an opcode of the 0x80 ..= 0xBF block, on A and a register.
pub open spec fn block_alu_op(opcode: u8, src: Registers8Bit) -> AluOp {
    let row = (opcode / 8) % 8;
    if row == 0 {
        AluOp::Add(Registers8Bit::A, src)
    } else if row == 1 {
        AluOp::Adc(Registers8Bit::A, src)
    } else if row == 2 {
        AluOp::Sub(Registers8Bit::A, src)
    } else if row == 3 {
        AluOp::Sbc(Registers8Bit::A, src)
    } else if row == 4 {
        AluOp::And(Registers8Bit::A, src)
    } else if row == 5 {
        AluOp::Xor(Registers8Bit::A, src)
    } else if row == 6 {
        AluOp::Or(Registers8Bit::A, src)
    } else {
        AluOp::Cp(Registers8Bit::A, src)
    }
}

/// The micro-operations of the register blocks, decoded from the opcode's bits: 0x40 ..= 0x7F
/// load a register (bits 3..=5) from a register (bits 0..=2), through Z for `[HL]`, with HALT
/// at 0x76; 0x80 ..= 0xBF run an ALU operation (bits 3..=5) on A and a register, the `[HL]`
/// forms on a byte read into Z in the M-cycle before.
pub open spec fn register_block_micro_ops(opcode: u8) -> Seq<MCycleOp> {
    let dst = (opcode / 8) % 8;
    let src = opcode % 8;
    if opcode < 0x80 {
        if opcode == 0x76 {
            seq![MCycleOp::End(MicroOp::Idle)]
        } else if dst == 6 {
            seq![
                MCycleOp::Main(MicroOp::Write8(Registers16Bit::HL, register_of_index(src as int))),
                MCycleOp::End(MicroOp::Idle),
            ]
        } else if src == 6 {
            seq![
                MCycleOp::Main(MicroOp::Read8(Registers8Bit::Z, Registers16Bit::HL)),
                MCycleOp::End(MicroOp::Ld8(register_of_index(dst as int), Registers8Bit::Z)),
            ]
        } else {
            seq![MCycleOp::End(MicroOp::Ld8(register_of_index(dst as int), register_of_index(src as int)))]
        }
    } else if src == 6 {
        seq![
            MCycleOp::Main(MicroOp::Read8(Registers8Bit::Z, Registers16Bit::HL)),
            MCycleOp::End(MicroOp::Alu(block_alu_op(opcode, Registers8Bit::Z))),
        ]
    } else {
        seq![MCycleOp::End(MicroOp::Alu(block_alu_op(opcode, register_of_index(src as int))))]
    }
}

/// Whether an opcode is INC r (`r << 3 | 4`) or DEC r (`r << 3 | 5`) on a register (`r`
/// other than 6, which names `[HL]`).
pub open spec fn is_inc_dec_register(opcode: u8) -> bool {
    opcode < 0x40 && (opcode % 8 == 4 || opcode % 8 == 5) && (opcode / 8) % 8 != 6
}

/// The micro-operations of INC r and DEC r: one M-cycle of the ALU operation on the register.
pub open spec fn inc_dec_micro_ops(opcode: u8) -> Seq<MCycleOp> {
    let r = register_of_index(((opcode / 8) % 8) as int);
    if opcode % 8 == 4 {
        seq![MCycleOp::End(MicroOp::Alu(AluOp::Inc(r)))]
    } else {
        seq![MCycleOp::End(MicroOp::Alu(AluOp::Dec(r)))]
    }
}

/// The 16-bit register a two-bit field names in the 0x00 ..= 0x3F block: BC, DE, HL, SP.
pub open spec fn pair_of_index(p: int) -> Registers16Bit {
    if p == 0 {
        Registers16Bit::BC
    } else if p == 1 {
        Registers16Bit::DE
    } else if p == 2 {
        Registers16Bit::HL
    } else {
        Registers16Bit::SP
    }
}

/// The register pair a two-bit field of PUSH and POP names: BC, DE, HL, AF, with its high and
/// low register.
pub open spec fn stack_pair_of_index(p: int) -> (Registers16Bit, Registers8Bit, Registers8Bit) {
    if p == 0 {
        (Registers16Bit::BC, Registers8Bit::B, Registers8Bit::C)
    } else if p == 1 {
        (Registers16Bit::DE, Registers8Bit::D, Registers8Bit::E)
    } else if p == 2 {
        (Registers16Bit::HL, Registers8Bit::H, Registers8Bit::L)
    } else {
        (Registers16Bit::AF, Registers8Bit::A, Registers8Bit::F)
    }
}

/// The condition a two-bit field of JR, JP, CALL and RET names: NZ, Z, NC, C.
pub open spec fn condition_of_index(c: int) -> CheckCondition {
    if c == 0 {
        CheckCondition::NZ
    } else if c == 1 {
        CheckCondition::Z
    } else if c == 2 {
        CheckCondition::NC
    } else {
        CheckCondition::C
    }
}

/// The micro-operations of the regular columns of the 0x00 ..= 0x3F and 0xC0 ..= 0xFF blocks,
/// decoded from the opcode's bits (`x` = bits 6..=7, `y` = bits 3..=5, `z` = bits 0..=2,
/// `p` = bits 4..=5, `q` = bit 3): LD rr, imm16; ADD HL, rr; INC rr; DEC rr; LD r, imm8;
/// LD [HL], imm8; INC and DEC [HL]; the loads between A and [BC], [DE], [HL+] and [HL-]; the
/// accumulator rotations, DAA, CPL, SCF and CCF; JR cc; RET cc; POP; JP cc; CALL cc; PUSH; and
/// the ALU operations on an immediate byte. `None` for the other opcodes.
pub open spec fn decoded_micro_ops(opcode: u8) -> Option<Seq<MCycleOp>> {
    let x = opcode / 64;
    let y = (opcode / 8) % 8;
    let z = opcode % 8;
    let p = (y / 2) as int;
    let q = y % 2;
    if x == 0 {
        if z == 1 && q == 0 {
            Some(seq![
                MCycleOp::Main(MicroOp::Fetch8(Registers8Bit::Z)),
                MCycleOp::Main(MicroOp::Fetch8(Registers8Bit::W)),
                MCycleOp::End(MicroOp::Ld16(pair_of_index(p), Registers16Bit::WZ)),
            ])
        } else if z == 1 {
            Some(seq![
                MCycleOp::Main(MicroOp::Alu(AluOp::AddLsb(Registers16Bit::HL, pair_of_index(p)))),
                MCycleOp::End(MicroOp::Alu(AluOp::AddMsb(Registers16Bit::HL, pair_of_index(p)))),
            ])
        } else if z == 3 && q == 0 {
            Some(seq![MCycleOp::Main(MicroOp::Inc16(pair_of_index(p))), MCycleOp::End(MicroOp::Idle)])
        } else if z == 3 {
            Some(seq![MCycleOp::Main(MicroOp::Dec16(pair_of_index(p))), MCycleOp::End(MicroOp::Idle)])
        } else if z == 6 && y != 6 {
            Some(seq![
                MCycleOp::Main(MicroOp::Fetch8(Registers8Bit::Z)),
                MCycleOp::End(MicroOp::Ld8(register_of_index(y as int), Registers8Bit::Z)),
            ])
        } else if z == 6 {
            Some(seq![
                MCycleOp::Main(MicroOp::Fetch8(Registers8Bit::Z)),
                MCycleOp::Main(MicroOp::Write8(Registers16Bit::HL, Registers8Bit::Z)),
                MCycleOp::End(MicroOp::Idle),
            ])
        } else if (z == 4 || z == 5) && y == 6 {
            let op = if z == 4 { AluOp::Inc(Registers8Bit::Z) } else { AluOp::Dec(Registers8Bit::Z) };
            Some(seq![
                MCycleOp::Main(MicroOp::Read8(Registers8Bit::Z, Registers16Bit::HL)),
                MCycleOp::Main(MicroOp::AluAndWrite8(op, Registers16Bit::HL, Registers8Bit::Z)),
                MCycleOp::End(MicroOp::Idle),
            ])
        } else if z == 2 {
            let address = if p == 0 {
                Registers16Bit::BC
            } else if p == 1 {
                Registers16Bit::DE
            } else {
                Registers16Bit::HL
            };
            let step = if q == 0 {
                if p <= 1 {
                    MicroOp::Write8(address, Registers8Bit::A)
                } else if p == 2 {
                    MicroOp::Write8Inc(address, Registers8Bit::A)
                } else {
                    MicroOp::Write8Dec(address, Registers8Bit::A)
                }
            } else {
                if p <= 1 {
                    MicroOp::Read8(Registers8Bit::Z, address)
                } else if p == 2 {
                    MicroOp::Read8Inc(Registers8Bit::Z, address)
                } else {
                    MicroOp::Read8Dec(Registers8Bit::Z, address)
                }
            };
            let last = if q == 0 { MicroOp::Idle } else { MicroOp::Ld8(Registers8Bit::A, Registers8Bit::Z) };
            Some(seq![MCycleOp::Main(step), MCycleOp::End(last)])
        } else if z == 7 {
            let op = if y == 0 {
                AluOp::Rlca
            } else if y == 1 {
                AluOp::Rrca
            } else if y == 2 {
                AluOp::Rla
            } else if y == 3 {
                AluOp::Rra
            } else if y == 4 {
                AluOp::Daa
            } else if y == 5 {
                AluOp::Cpl(Registers8Bit::A)
            } else if y == 6 {
                AluOp::SetFlags(SetFlagZ::Same, SetFlagN::Off, SetFlagH::Off, SetFlagC::On)
            } else {
                AluOp::Ccf
            };
            Some(seq![MCycleOp::End(MicroOp::Alu(op))])
        } else if z == 0 && y >= 4 {
            Some(seq![
                MCycleOp::Cc(MicroOp::Fetch8(Registers8Bit::Z), condition_of_index(y - 4), 2),
                MCycleOp::End(MicroOp::Idle),
                MCycleOp::Main(MicroOp::SumSignedByte16(Registers16Bit::PC, Registers16Bit::WZ, false)),
                MCycleOp::End(MicroOp::Idu(IduOp::Pass(Registers16Bit::PC, Registers16Bit::WZ))),
            ])
        } else {
            None
        }
    } else if x == 3 {
        if z == 0 && y < 4 {
            Some(seq![
                MCycleOp::Cc(MicroOp::Idle, condition_of_index(y as int), 2),
                MCycleOp::End(MicroOp::Idle),
                MCycleOp::Main(MicroOp::Read16lsbInc(Registers16Bit::WZ, Registers16Bit::SP)),
                MCycleOp::Main(MicroOp::Read16msbInc(Registers16Bit::WZ, Registers16Bit::SP)),
                MCycleOp::Main(MicroOp::Ld16(Registers16Bit::PC, Registers16Bit::WZ)),
                MCycleOp::End(MicroOp::Idle),
            ])
        } else if z == 1 && q == 0 {
            Some(seq![
                MCycleOp::Main(MicroOp::Read8Inc(Registers8Bit::Z, Registers16Bit::SP)),
                MCycleOp::Main(MicroOp::Read8Inc(Registers8Bit::W, Registers16Bit::SP)),
                MCycleOp::End(MicroOp::Ld16(stack_pair_of_index(p).0, Registers16Bit::WZ)),
            ])
        } else if z == 2 && y < 4 {
            Some(seq![
                MCycleOp::Main(MicroOp::Fetch8(Registers8Bit::Z)),
                MCycleOp::Cc(MicroOp::Fetch8(Registers8Bit::W), condition_of_index(y as int), 3),
                MCycleOp::End(MicroOp::Idle),
                MCycleOp::Main(MicroOp::Ld16(Registers16Bit::PC, Registers16Bit::WZ)),
                MCycleOp::End(MicroOp::Idle),
            ])
        } else if z == 4 && y < 4 {
            Some(seq![
                MCycleOp::Main(MicroOp::Fetch8(Registers8Bit::Z)),
                MCycleOp::Cc(MicroOp::Fetch8(Registers8Bit::W), condition_of_index(y as int), 3),
                MCycleOp::End(MicroOp::Idle),
                MCycleOp::Main(MicroOp::Dec16(Registers16Bit::SP)),
                MCycleOp::Main(MicroOp::Write16msbDec(Registers16Bit::SP, Registers16Bit::PC)),
                MCycleOp::Main(MicroOp::Write16lsb(Registers16Bit::SP, Registers16Bit::PC)),
                MCycleOp::End(MicroOp::Ld16(Registers16Bit::PC, Registers16Bit::WZ)),
            ])
        } else if z == 5 && q == 0 {
            Some(seq![
                MCycleOp::Main(MicroOp::Dec16(Registers16Bit::SP)),
                MCycleOp::Main(MicroOp::Write8Dec(Registers16Bit::SP, stack_pair_of_index(p).1)),
                MCycleOp::Main(MicroOp::Write8(Registers16Bit::SP, stack_pair_of_index(p).2)),
                MCycleOp::End(MicroOp::Idle),
            ])
        } else if z == 6 {
            Some(seq![
                MCycleOp::Main(MicroOp::Fetch8(Registers8Bit::Z)),
                MCycleOp::End(MicroOp::Alu(block_alu_op(opcode, Registers8Bit::Z))),
            ])
        } else {
            None
        }
    } else {
        None
    }
}

/// RST n (`0xC7 | n << 3`): PC pushed on the stack, then a jump to the vector at address
/// `n * 8`, the byte the opcode's bits 3..=5 give.
pub open spec fn restarts_at_its_vector(ops: Seq<MCycleOp>, opcode: u8) -> bool {
    &&& ops.len() == 4
    &&& ops.subrange(0, 3) =~= seq![
        MCycleOp::Main(MicroOp::Dec16(Registers16Bit::SP)),
        MCycleOp::Main(MicroOp::Write16msbDec(Registers16Bit::SP, Registers16Bit::PC)),
        MCycleOp::Main(MicroOp::Write16lsb(Registers16Bit::SP, Registers16Bit::PC)),
    ]
    &&& ops[3] matches MCycleOp::End(MicroOp::JumpVector(v)) && crate::microcode::vector_address(v) == opcode - 0xC7
}

/// Every step that ends an instruction is its last step, or the step right after a
/// condition test (where a condition that fails ends the instruction early), and the last step
/// ends it.
pub open spec fn ends_only_where_due(ops: Seq<MCycleOp>) -> bool {
    &&& ops.len() > 0
    &&& ops.last() is End
    &&& forall|k: int| 0 <= k < ops.len() - 1 && (#[trigger] ops[k]) is End ==> k > 0 && ops[k - 1] is Cc
}

/// The bytes an instruction reads after its opcode: one per `Fetch8` step.
pub open spec fn fetch_count(ops: Seq<MCycleOp>) -> int
    decreases ops.len(),
{
    if ops.len() == 0 {
        0
    } else {
        fetch_count(ops.drop_last()) + if crate::microcode::m_cycle_micro_op(ops.last()) matches Some(MicroOp::Fetch8(_)) {
            1int
        } else {
            0int
        }
    }
}

/// The steps a condition that holds jumps over.
pub open spec fn skipped_on_jump(ops: Seq<MCycleOp>) -> int
    decreases ops.len(),
{
    if ops.len() == 0 {
        0
    } else {
        skipped_on_jump(ops.drop_last()) + match ops.last() {
            MCycleOp::Cc(_, _, target) => target - ops.len(),
            _ => 0int,
        }
    }
}

/// An opcode's length and timing agree with its steps: the length is the opcode byte plus
/// one byte per fetch (STOP, whose operand byte is not read, and the prefix byte aside), and
/// the M-cycles are the steps run when every condition holds (the prefix aside).
pub open spec fn timing_agrees(opcode: u8) -> bool {
    match opcode_spec(opcode) {
        Some(e) => {
            &&& (opcode == 0x10 || opcode == 0xCB || e.size == 1 + fetch_count(e.micro_ops))
            &&& (opcode == 0xCB || e.cycles == e.micro_ops.len() - skipped_on_jump(e.micro_ops))
        },
        None => true,
    }
}

/// Law: every unprefixed instruction is as long as its opcode byte plus the bytes it fetches
/// (STOP, two bytes long, reads no operand), and takes as many M-cycles as it runs steps when
/// its condition holds.
#[verifier::rlimit(100)]
#[verifier::spinoff_prover]
pub proof fn lemma_size_and_cycles_follow_steps(opcode: u8)
    ensures
        timing_agrees(opcode),
{
    reveal_with_fuel(fetch_count, 8);
    reveal_with_fuel(skipped_on_jump, 8);
}

/// What the table holds for an opcode: mnemonic, M-cycles, length in bytes, the flags the
/// instruction may change and one step per M-cycle.
pub struct OpcodeSpec {
    pub name: &'static str,
    pub cycles: u8,
    pub size: u8,
    pub flags: Seq<FlagBits>,
    pub micro_ops: Seq<MCycleOp>,
}

/// The table entry of an unprefixed opcode, `None` for the eleven undefined ones.
pub open spec fn opcode_spec(opcode: u8) -> Option<OpcodeSpec> {
    if opcode <= 0x3F {
        opcode_spec_00_3f(opcode)
    } else if opcode <= 0x7F {
        opcode_spec_40_7f(opcode)
    } else if opcode <= 0xBF {
        opcode_spec_80_bf(opcode)
    } else {
        opcode_spec_c0_ff(opcode)
    }
}

/// An instruction holds an entry of the table for its own opcode.
pub open spec fn holds_entry(i: Instruction, opcode: u8, entry: Option<OpcodeSpec>) -> bool {
    &&& entry matches Some(e)
    &&& i.opcode == opcode
    &&& i.name == e.name
    &&& i.cycles == e.cycles
    &&& i.size == e.size
    &&& i.flags@ =~= e.flags
    &&& i.micro_ops@ =~= e.micro_ops
}

/// An instruction is the table entry of an unprefixed opcode.
pub open spec fn instruction_matches(i: Instruction, opcode: u8) -> bool {
    holds_entry(i, opcode, opcode_spec(opcode))
}

/// The instruction of an unprefixed opcode, `None` for the opcodes the set leaves undefined.
/// The register blocks decode uniformly from the opcode's bits, INC r and DEC r work on their
/// own register, and an instruction ends only after its last M-cycle, or after a failed
/// condition (0xCB, the prefix, hands over to the prefixed table instead).
pub fn create_opcodes(opcode: u8) -> (r: Option<Instruction>)
    ensures
        r is Some <==> opcode_defined(opcode),
        r matches Some(i) ==> i.wf() && instruction_matches(i, opcode),
        0x40 <= opcode <= 0xBF ==> (r matches Some(i) && i.micro_ops@ == register_block_micro_ops(opcode)),
        r matches Some(i) ==> (is_inc_dec_register(opcode) ==> i.micro_ops@ == inc_dec_micro_ops(opcode)),
        r matches Some(i) ==> (opcode != 0xCB ==> ends_only_where_due(i.micro_ops@)),
        r matches Some(i) ==> (decoded_micro_ops(opcode) matches Some(ops) ==> i.micro_ops@ == ops),
        opcode >= 0xC0 && opcode % 8 == 7 ==> (r matches Some(i) && restarts_at_its_vector(i.micro_ops@, opcode)),
{
    if opcode <= 0x3F {
        opcodes_00_3f(opcode)
    } else if opcode <= 0x7F {
        opcodes_40_7f(opcode)
    } else if opcode <= 0xBF {
        opcodes_80_bf(opcode)
    } else {
        opcodes_c0_ff(opcode)
    }
}

#[verifier::rlimit(80)]
fn opcodes_00_3f(opcode: u8) -> (r: Option<Instruction>)
    requires
        0x00 <= opcode <= 0x3F,
    ensures
        r is Some <==> opcode_defined(opcode),
        r matches Some(i) ==> i.wf() && holds_entry(i, opcode, opcode_spec_00_3f(opcode)),
        r matches Some(i) ==> (decoded_micro_ops(opcode) matches Some(ops) ==> i.micro_ops@ =~= ops),
        r matches Some(i) ==> (opcode != 0xCB ==> ends_only_where_due(i.micro_ops@)),
        r matches Some(i) ==> (is_inc_dec_register(opcode) ==> i.micro_ops@ =~= inc_dec_micro_ops(opcode)),
{
    match opcode {
        0x00 => Some(Instruction {
            opcode: 0x00,
            name: "NOP",
            cycles: 1,
            size: 1,
            flags: vec![],
            micro_ops: vec![
                MCycleOp::End(MicroOp::Idle),
            ],
        }),
        0x01 => Some(Instruction {
            opcode: 0x01,
            name: "LD BC, imm16",
            cycles: 3,
            size: 3,
            flags: vec![],
            micro_ops: vec![
                MCycleOp::Main(MicroOp::Fetch8(Registers8Bit::Z)),
                MCycleOp::Main(MicroOp::Fetch8(Registers8Bit::W)),
                MCycleOp::End(MicroOp::Ld16(Registers16Bit::BC, Registers16Bit::WZ)),
            ],
        }),
        0x02 => Some(Instruction {
            opcode: 0x02,
            name: "LD [BC], A",
            cycles: 2,
            size: 1,
            flags: vec![],
            micro_ops: vec![
                MCycleOp::Main(MicroOp::Write8(Registers16Bit::BC, Registers8Bit::A)),
                MCycleOp::End(MicroOp::Idle),
            ],
        }),
        0x03 => Some(Instruction {
            opcode: 0x03,
            name: "INC BC",
            cycles: 2,
            size: 1,
            flags: vec![],
            micro_ops: vec![
                MCycleOp::Main(MicroOp::Inc16(Registers16Bit::BC)),
                MCycleOp::End(MicroOp::Idle),
            ],
        }),
        0x04 => Some(Instruction {
            opcode: 0x04,
            name: "INC B",
            cycles: 1,
            size: 1,
            flags: vec![FlagBits::Z, FlagBits::N, FlagBits::H],
            micro_ops: vec![
                MCycleOp::End(MicroOp::Alu(AluOp::Inc(Registers8Bit::B))),
            ],
        }),
        0x05 => Some(Instruction {
            opcode: 0x05,
            name: "DEC B",
            cycles: 1,
            size: 1,
            flags: vec![FlagBits::Z, FlagBits::N, FlagBits::H],
            micro_ops: vec![
                MCycleOp::End(MicroOp::Alu(AluOp::Dec(Registers8Bit::B))),
            ],
        }),
        0x06 => Some(Instruction {
            opcode: 0x06,
            name: "LD B, imm8",
            cycles: 2,
            size: 2,
            flags: vec![],
            micro_ops: vec![
                MCycleOp::Main(MicroOp::Fetch8(Registers8Bit::Z)),
                MCycleOp::End(MicroOp::Ld8(Registers8Bit::B, Registers8Bit::Z)),
            ],
        }),
        0x07 => Some(Instruction {
            opcode: 0x07,
            name: "RLCA",
            cycles: 1,
            size: 1,
            flags: vec![FlagBits::Z, FlagBits::N, FlagBits::H, FlagBits::C],
            micro_ops: vec![
                MCycleOp::End(MicroOp::Alu(AluOp::Rlca)),
            ],
        }),
        0x08 => Some(Instruction {
            opcode: 0x08,
            name: "LD [a16], SP",
            cycles: 5,
            size: 3,
            flags: vec![],
            micro_ops: vec![
                MCycleOp::Main(MicroOp::Fetch8(Registers8Bit::Z)),
                MCycleOp::Main(MicroOp::Fetch8(Registers8Bit::W)),
                MCycleOp::Main(MicroOp::Write16lsbInc(Registers16Bit::WZ, Registers16Bit::SP)),
                MCycleOp::Main(MicroOp::Write16msb(Registers16Bit::WZ, Registers16Bit::SP)),
                MCycleOp::End(MicroOp::Idle),
            ],
        }),
        0x09 => Some(Instruction {
            opcode: 0x09,
            name: "ADD HL, BC",
            cycles: 2,
            size: 1,
            flags: vec![FlagBits::N, FlagBits::H, FlagBits::C],
            micro_ops: vec![
                MCycleOp::Main(MicroOp::Alu(AluOp::AddLsb(Registers16Bit::HL, Registers16Bit::BC))),
                MCycleOp::End(MicroOp::Alu(AluOp::AddMsb(Registers16Bit::HL, Registers16Bit::BC))),
            ],
        }),
        0x0A => Some(Instruction {
            opcode: 0x0A,
            name: "LD A, [BC]",
            cycles: 2,
            size: 1,
            flags: vec![],
            micro_ops: vec![
                MCycleOp::Main(MicroOp::Read8(Registers8Bit::Z, Registers16Bit::BC)),
                MCycleOp::End(MicroOp::Ld8(Registers8Bit::A, Registers8Bit::Z)),
            ],
        }),
        0x0B => Some(Instruction {
            opcode: 0x0B,
            name: "DEC BC",
            cycles: 2,
            size: 1,
            flags: vec![],
            micro_ops: vec![
                MCycleOp::Main(MicroOp::Dec16(Registers16Bit::BC)),
                MCycleOp::End(MicroOp::Idle),
            ],
        }),
        0x0C => Some(Instruction {
            opcode: 0x0C,
            name: "INC C",
            cycles: 1,
            size: 1,
            flags: vec![FlagBits::Z, FlagBits::N, FlagBits::H],
            micro_ops: vec![
                MCycleOp::End(MicroOp::Alu(AluOp::Inc(Registers8Bit::C))),
            ],
        }),
        0x0D => Some(Instruction {
            opcode: 0x0D,
            name: "DEC C",
            cycles: 1,
            size: 1,
            flags: vec![FlagBits::Z, FlagBits::N, FlagBits::H],
            micro_ops: vec![
                MCycleOp::End(MicroOp::Alu(AluOp::Dec(Registers8Bit::C))),
            ],
        }),
        0x0E => Some(Instruction {
            opcode: 0x0E,
            name: "LD C, imm8",
            cycles: 2,
            size: 2,
            flags: vec![],
            micro_ops: vec![
                MCycleOp::Main(MicroOp::Fetch8(Registers8Bit::Z)),
                MCycleOp::End(MicroOp::Ld8(Registers8Bit::C, Registers8Bit::Z)),
            ],
        }),
        0x0F => Some(Instruction {
            opcode: 0x0F,
            name: "RRCA",
            cycles: 1,
            size: 1,
            flags: vec![FlagBits::Z, FlagBits::N, FlagBits::H, FlagBits::C],
            micro_ops: vec![
                MCycleOp::End(MicroOp::Alu(AluOp::Rrca)),
            ],
        }),
        0x10 => Some(Instruction {
            opcode: 0x10,
            name: "STOP imm8",
            cycles: 1,
            size: 2,
            flags: vec![],
            micro_ops: vec![
                MCycleOp::End(MicroOp::Idle),
            ],
        }),
        0x11 => Some(Instruction {
            opcode: 0x11,
            name: "LD DE, imm16",
            cycles: 3,
            size: 3,
            flags: vec![],
            micro_ops: vec![
                MCycleOp::Main(MicroOp::Fetch8(Registers8Bit::Z)),
                MCycleOp::Main(MicroOp::Fetch8(Registers8Bit::W)),
                MCycleOp::End(MicroOp::Ld16(Registers16Bit::DE, Registers16Bit::WZ)),
            ],
        }),
        0x12 => Some(Instruction {
            opcode: 0x12,
            name: "LD [DE], A",
            cycles: 2,
            size: 1,
            flags: vec![],
            micro_ops: vec![
                MCycleOp::Main(MicroOp::Write8(Registers16Bit::DE, Registers8Bit::A)),
                MCycleOp::End(MicroOp::Idle),
            ],
        }),
        0x13 => Some(Instruction {
            opcode: 0x13,
            name: "INC DE",
            cycles: 2,
            size: 1,
            flags: vec![],
            micro_ops: vec![
                MCycleOp::Main(MicroOp::Inc16(Registers16Bit::DE)),
                MCycleOp::End(MicroOp::Idle),
            ],
        }),
        0x14 => Some(Instruction {
            opcode: 0x14,
            name: "INC D",
            cycles: 1,
            size: 1,
            flags: vec![FlagBits::Z, FlagBits::N, FlagBits::H],
            micro_ops: vec![
                MCycleOp::End(MicroOp::Alu(AluOp::Inc(Registers8Bit::D))),
            ],
        }),
        0x15 => Some(Instruction {
            opcode: 0x15,
            name: "DEC D",
            cycles: 1,
            size: 1,
            flags: vec![FlagBits::Z, FlagBits::N, FlagBits::H],
            micro_ops: vec![
                MCycleOp::End(MicroOp::Alu(AluOp::Dec(Registers8Bit::D))),
            ],
        }),
        0x16 => Some(Instruction {
            opcode: 0x16,
            name: "LD D, imm8",
            cycles: 2,
            size: 2,
            flags: vec![],
            micro_ops: vec![
                MCycleOp::Main(MicroOp::Fetch8(Registers8Bit::Z)),
                MCycleOp::End(MicroOp::Ld8(Registers8Bit::D, Registers8Bit::Z)),
            ],
        }),
        0x17 => Some(Instruction {
            opcode: 0x17,
            name: "RLA",
            cycles: 1,
            size: 1,
            flags: vec![FlagBits::Z, FlagBits::N, FlagBits::H, FlagBits::C],
            micro_ops: vec![
                MCycleOp::End(MicroOp::Alu(AluOp::Rla)),
            ],
        }),
        0x18 => Some(Instruction {
            opcode: 0x18,
            name: "JR e8",
            cycles: 3,
            size: 2,
            flags: vec![],
            micro_ops: vec![
                MCycleOp::Main(MicroOp::Fetch8(Registers8Bit::Z)),
                MCycleOp::Main(MicroOp::SumSignedByte16(Registers16Bit::PC, Registers16Bit::WZ, false)),
                MCycleOp::End(MicroOp::Idu(IduOp::Pass(Registers16Bit::PC, Registers16Bit::WZ))),
            ],
        }),
        0x19 => Some(Instruction {
            opcode: 0x19,
            name: "ADD HL, DE",
            cycles: 2,
            size: 1,
            flags: vec![FlagBits::N, FlagBits::H, FlagBits::C],
            micro_ops: vec![
                MCycleOp::Main(MicroOp::Alu(AluOp::AddLsb(Registers16Bit::HL, Registers16Bit::DE))),
                MCycleOp::End(MicroOp::Alu(AluOp::AddMsb(Registers16Bit::HL, Registers16Bit::DE))),
            ],
        }),
        0x1A => Some(Instruction {
            opcode: 0x1A,
            name: "LD A, [DE]",
            cycles: 2,
            size: 1,
            flags: vec![],
            micro_ops: vec![
                MCycleOp::Main(MicroOp::Read8(Registers8Bit::Z, Registers16Bit::DE)),
                MCycleOp::End(MicroOp::Ld8(Registers8Bit::A, Registers8Bit::Z)),
            ],
        }),
        0x1B => Some(Instruction {
            opcode: 0x1B,
            name: "DEC DE",
            cycles: 2,
            size: 1,
            flags: vec![],
            micro_ops: vec![
                MCycleOp::Main(MicroOp::Dec16(Registers16Bit::DE)),
                MCycleOp::End(MicroOp::Idle),
            ],
        }),
        0x1C => Some(Instruction {
            opcode: 0x1C,
            name: "INC E",
            cycles: 1,
            size: 1,
            flags: vec![FlagBits::Z, FlagBits::N, FlagBits::H],
            micro_ops: vec![
                MCycleOp::End(MicroOp::Alu(AluOp::Inc(Registers8Bit::E))),
            ],
        }),
        0x1D => Some(Instruction {
            opcode: 0x1D,
            name: "DEC E",
            cycles: 1,
            size: 1,
            flags: vec![FlagBits::Z, FlagBits::N, FlagBits::H],
            micro_ops: vec![
                MCycleOp::End(MicroOp::Alu(AluOp::Dec(Registers8Bit::E))),
            ],
        }),
        0x1E => Some(Instruction {
            opcode: 0x1E,
            name: "LD E, imm8",
            cycles: 2,
            size: 2,
            flags: vec![],
            micro_ops: vec![
                MCycleOp::Main(MicroOp::Fetch8(Registers8Bit::Z)),
                MCycleOp::End(MicroOp::Ld8(Registers8Bit::E, Registers8Bit::Z)),
            ],
        }),
        0x1F => Some(Instruction {
            opcode: 0x1F,
            name: "RRA",
            cycles: 1,
            size: 1,
            flags: vec![FlagBits::Z, FlagBits::N, FlagBits::H, FlagBits::C],
            micro_ops: vec![
                MCycleOp::End(MicroOp::Alu(AluOp::Rra)),
            ],
        }),
        0x20 => Some(Instruction {
            opcode: 0x20,
            name: "JR NZ, e8",
            cycles: 3,
            size: 2,
            flags: vec![],
            micro_ops: vec![
                MCycleOp::Cc(MicroOp::Fetch8(Registers8Bit::Z), CheckCondition::NZ, 2),
                MCycleOp::End(MicroOp::Idle),
                MCycleOp::Main(MicroOp::SumSignedByte16(Registers16Bit::PC, Registers16Bit::WZ, false)),
                MCycleOp::End(MicroOp::Idu(IduOp::Pass(Registers16Bit::PC, Registers16Bit::WZ))),
            ],
        }),
        0x21 => Some(Instruction {
            opcode: 0x21,
            name: "LD HL, imm16",
            cycles: 3,
            size: 3,
            flags: vec![],
            micro_ops: vec![
                MCycleOp::Main(MicroOp::Fetch8(Registers8Bit::Z)),
                MCycleOp::Main(MicroOp::Fetch8(Registers8Bit::W)),
                MCycleOp::End(MicroOp::Ld16(Registers16Bit::HL, Registers16Bit::WZ)),
            ],
        }),
        0x22 => Some(Instruction {
            opcode: 0x22,
            name: "LD [HL+], A",
            cycles: 2,
            size: 1,
            flags: vec![],
            micro_ops: vec![
                MCycleOp::Main(MicroOp::Write8Inc(Registers16Bit::HL, Registers8Bit::A)),
                MCycleOp::End(MicroOp::Idle),
            ],
        }),
        0x23 => Some(Instruction {
            opcode: 0x23,
            name: "INC HL",
            cycles: 2,
            size: 1,
            flags: vec![],
            micro_ops: vec![
                MCycleOp::Main(MicroOp::Inc16(Registers16Bit::HL)),
                MCycleOp::End(MicroOp::Idle),
            ],
        }),
        0x24 => Some(Instruction {
            opcode: 0x24,
            name: "INC H",
            cycles: 1,
            size: 1,
            flags: vec![FlagBits::Z, FlagBits::N, FlagBits::H],
            micro_ops: vec![
                MCycleOp::End(MicroOp::Alu(AluOp::Inc(Registers8Bit::H))),
            ],
        }),
        0x25 => Some(Instruction {
            opcode: 0x25,
            name: "DEC H",
            cycles: 1,
            size: 1,
            flags: vec![FlagBits::Z, FlagBits::N, FlagBits::H],
            micro_ops: vec![
                MCycleOp::End(MicroOp::Alu(AluOp::Dec(Registers8Bit::H))),
            ],
        }),
        0x26 => Some(Instruction {
            opcode: 0x26,
            name: "LD H, imm8",
            cycles: 2,
            size: 2,
            flags: vec![],
            micro_ops: vec![
                MCycleOp::Main(MicroOp::Fetch8(Registers8Bit::Z)),
                MCycleOp::End(MicroOp::Ld8(Registers8Bit::H, Registers8Bit::Z)),
            ],
        }),
        0x27 => Some(Instruction {
            opcode: 0x27,
            name: "DAA",
            cycles: 1,
            size: 1,
            flags: vec![FlagBits::Z, FlagBits::H, FlagBits::C],
            micro_ops: vec![
                MCycleOp::End(MicroOp::Alu(AluOp::Daa)),
            ],
        }),
        0x28 => Some(Instruction {
            opcode: 0x28,
            name: "JR Z, e8",
            cycles: 3,
            size: 2,
            flags: vec![],
            micro_ops: vec![
                MCycleOp::Cc(MicroOp::Fetch8(Registers8Bit::Z), CheckCondition::Z, 2),
                MCycleOp::End(MicroOp::Idle),
                MCycleOp::Main(MicroOp::SumSignedByte16(Registers16Bit::PC, Registers16Bit::WZ, false)),
                MCycleOp::End(MicroOp::Idu(IduOp::Pass(Registers16Bit::PC, Registers16Bit::WZ))),
            ],
        }),
        0x29 => Some(Instruction {
            opcode: 0x29,
            name: "ADD HL, HL",
            cycles: 2,
            size: 1,
            flags: vec![FlagBits::N, FlagBits::H, FlagBits::C],
            micro_ops: vec![
                MCycleOp::Main(MicroOp::Alu(AluOp::AddLsb(Registers16Bit::HL, Registers16Bit::HL))),
                MCycleOp::End(MicroOp::Alu(AluOp::AddMsb(Registers16Bit::HL, Registers16Bit::HL))),
            ],
        }),
        0x2A => Some(Instruction {
            opcode: 0x2A,
            name: "LD A, [HL+]",
            cycles: 2,
            size: 1,
            flags: vec![],
            micro_ops: vec![
                MCycleOp::Main(MicroOp::Read8Inc(Registers8Bit::Z, Registers16Bit::HL)),
                MCycleOp::End(MicroOp::Ld8(Registers8Bit::A, Registers8Bit::Z)),
            ],
        }),
        0x2B => Some(Instruction {
            opcode: 0x2B,
            name: "DEC HL",
            cycles: 2,
            size: 1,
            flags: vec![],
            micro_ops: vec![
                MCycleOp::Main(MicroOp::Dec16(Registers16Bit::HL)),
                MCycleOp::End(MicroOp::Idle),
            ],
        }),
        0x2C => Some(Instruction {
            opcode: 0x2C,
            name: "INC L",
            cycles: 1,
            size: 1,
            flags: vec![FlagBits::Z, FlagBits::N, FlagBits::H],
            micro_ops: vec![
                MCycleOp::End(MicroOp::Alu(AluOp::Inc(Registers8Bit::L))),
            ],
        }),
        0x2D => Some(Instruction {
            opcode: 0x2D,
            name: "DEC L",
            cycles: 1,
            size: 1,
            flags: vec![FlagBits::Z, FlagBits::N, FlagBits::H],
            micro_ops: vec![
                MCycleOp::End(MicroOp::Alu(AluOp::Dec(Registers8Bit::L))),
            ],
        }),
        0x2E => Some(Instruction {
            opcode: 0x2E,
            name: "LD L, imm8",
            cycles: 2,
            size: 2,
            flags: vec![],
            micro_ops: vec![
                MCycleOp::Main(MicroOp::Fetch8(Registers8Bit::Z)),
                MCycleOp::End(MicroOp::Ld8(Registers8Bit::L, Registers8Bit::Z)),
            ],
        }),
        0x2F => Some(Instruction {
            opcode: 0x2F,
            name: "CPL",
            cycles: 1,
            size: 1,
            flags: vec![],
            micro_ops: vec![
                MCycleOp::End(MicroOp::Alu(AluOp::Cpl(Registers8Bit::A))),
            ],
        }),
        0x30 => Some(Instruction {
            opcode: 0x30,
            name: "JR NC, e8",
            cycles: 3,
            size: 2,
            flags: vec![],
            micro_ops: vec![
                MCycleOp::Cc(MicroOp::Fetch8(Registers8Bit::Z), CheckCondition::NC, 2),
                MCycleOp::End(MicroOp::Idle),
                MCycleOp::Main(MicroOp::SumSignedByte16(Registers16Bit::PC, Registers16Bit::WZ, false)),
                MCycleOp::End(MicroOp::Idu(IduOp::Pass(Registers16Bit::PC, Registers16Bit::WZ))),
            ],
        }),
        0x31 => Some(Instruction {
            opcode: 0x31,
            name: "LD SP, imm16",
            cycles: 3,
            size: 3,
            flags: vec![],
            micro_ops: vec![
                MCycleOp::Main(MicroOp::Fetch8(Registers8Bit::Z)),
                MCycleOp::Main(MicroOp::Fetch8(Registers8Bit::W)),
                MCycleOp::End(MicroOp::Ld16(Registers16Bit::SP, Registers16Bit::WZ)),
            ],
        }),
        0x32 => Some(Instruction {
            opcode: 0x32,
            name: "LD [HL-], A",
            cycles: 2,
            size: 1,
            flags: vec![],
            micro_ops: vec![
                MCycleOp::Main(MicroOp::Write8Dec(Registers16Bit::HL, Registers8Bit::A)),
                MCycleOp::End(MicroOp::Idle),
            ],
        }),
        0x33 => Some(Instruction {
            opcode: 0x33,
            name: "INC SP",
            cycles: 2,
            size: 1,
            flags: vec![],
            micro_ops: vec![
                MCycleOp::Main(MicroOp::Inc16(Registers16Bit::SP)),
                MCycleOp::End(MicroOp::Idle),
            ],
        }),
        0x34 => Some(Instruction {
            opcode: 0x34,
            name: "INC [HL]",
            cycles: 3,
            size: 1,
            flags: vec![FlagBits::Z, FlagBits::N, FlagBits::H],
            micro_ops: vec![
                MCycleOp::Main(MicroOp::Read8(Registers8Bit::Z, Registers16Bit::HL)),
                MCycleOp::Main(MicroOp::AluAndWrite8(AluOp::Inc(Registers8Bit::Z), Registers16Bit::HL, Registers8Bit::Z)),
                MCycleOp::End(MicroOp::Idle),
            ],
        }),
        0x35 => Some(Instruction {
            opcode: 0x35,
            name: "DEC [HL]",
            cycles: 3,
            size: 1,
            flags: vec![FlagBits::Z, FlagBits::N, FlagBits::H],
            micro_ops: vec![
                MCycleOp::Main(MicroOp::Read8(Registers8Bit::Z, Registers16Bit::HL)),
                MCycleOp::Main(MicroOp::AluAndWrite8(AluOp::Dec(Registers8Bit::Z), Registers16Bit::HL, Registers8Bit::Z)),
                MCycleOp::End(MicroOp::Idle),
            ],
        }),
        0x36 => Some(Instruction {
            opcode: 0x36,
            name: "LD [HL], imm8",
            cycles: 3,
            size: 2,
            flags: vec![],
            micro_ops: vec![
                MCycleOp::Main(MicroOp::Fetch8(Registers8Bit::Z)),
                MCycleOp::Main(MicroOp::Write8(Registers16Bit::HL, Registers8Bit::Z)),
                MCycleOp::End(MicroOp::Idle),
            ],
        }),
        0x37 => Some(Instruction {
            opcode: 0x37,
            name: "SCF",
            cycles: 1,
            size: 1,
            flags: vec![FlagBits::N, FlagBits::H, FlagBits::C],
            micro_ops: vec![
                MCycleOp::End(MicroOp::Alu(AluOp::SetFlags(SetFlagZ::Same, SetFlagN::Off, SetFlagH::Off, SetFlagC::On))),
            ],
        }),
        0x38 => Some(Instruction {
            opcode: 0x38,
            name: "JR C, e8",
            cycles: 3,
            size: 2,
            flags: vec![],
            micro_ops: vec![
                MCycleOp::Cc(MicroOp::Fetch8(Registers8Bit::Z), CheckCondition::C, 2),
                MCycleOp::End(MicroOp::Idle),
                MCycleOp::Main(MicroOp::SumSignedByte16(Registers16Bit::PC, Registers16Bit::WZ, false)),
                MCycleOp::End(MicroOp::Idu(IduOp::Pass(Registers16Bit::PC, Registers16Bit::WZ))),
            ],
        }),
        0x39 => Some(Instruction {
            opcode: 0x39,
            name: "ADD HL, SP",
            cycles: 2,
            size: 1,
            flags: vec![FlagBits::N, FlagBits::H, FlagBits::C],
            micro_ops: vec![
                MCycleOp::Main(MicroOp::Alu(AluOp::AddLsb(Registers16Bit::HL, Registers16Bit::SP))),
                MCycleOp::End(MicroOp::Alu(AluOp::AddMsb(Registers16Bit::HL, Registers16Bit::SP))),
            ],
        }),
        0x3A => Some(Instruction {
            opcode: 0x3A,
            name: "LD A, [HL-]",
            cycles: 2,
            size: 1,
            flags: vec![],
            micro_ops: vec![
                MCycleOp::Main(MicroOp::Read8Dec(Registers8Bit::Z, Registers16Bit::HL)),
                MCycleOp::End(MicroOp::Ld8(Registers8Bit::A, Registers8Bit::Z)),
            ],
        }),
        0x3B => Some(Instruction {
            opcode: 0x3B,
            name: "DEC SP",
            cycles: 2,
            size: 1,
            flags: vec![],
            micro_ops: vec![
                MCycleOp::Main(MicroOp::Dec16(Registers16Bit::SP)),
                MCycleOp::End(MicroOp::Idle),
            ],
        }),
        0x3C => Some(Instruction {
            opcode: 0x3C,
            name: "INC A",
            cycles: 1,
            size: 1,
            flags: vec![FlagBits::Z, FlagBits::N, FlagBits::H],
            micro_ops: vec![
                MCycleOp::End(MicroOp::Alu(AluOp::Inc(Registers8Bit::A))),
            ],
        }),
        0x3D => Some(Instruction {
            opcode: 0x3D,
            name: "DEC A",
            cycles: 1,
            size: 1,
            flags: vec![FlagBits::Z, FlagBits::N, FlagBits::H],
            micro_ops: vec![
                MCycleOp::End(MicroOp::Alu(AluOp::Dec(Registers8Bit::A))),
            ],
        }),
        0x3E => Some(Instruction {
            opcode: 0x3E,
            name: "LD A, imm8",
            cycles: 2,
            size: 2,
            flags: vec![],
            micro_ops: vec![
                MCycleOp::Main(MicroOp::Fetch8(Registers8Bit::Z)),
                MCycleOp::End(MicroOp::Ld8(Registers8Bit::A, Registers8Bit::Z)),
            ],
        }),
        0x3F => Some(Instruction {
            opcode: 0x3F,
            name: "CCF",
            cycles: 1,
            size: 1,
            flags: vec![FlagBits::N, FlagBits::H, FlagBits::C],
            micro_ops: vec![
                MCycleOp::End(MicroOp::Alu(AluOp::Ccf)),
            ],
        }),
        _ => None,
    }
}

#[verifier::rlimit(80)]
fn opcodes_40_7f(opcode: u8) -> (r: Option<Instruction>)
    requires
        0x40 <= opcode <= 0x7F,
    ensures
        r is Some <==> opcode_defined(opcode),
        r matches Some(i) ==> i.wf() && holds_entry(i, opcode, opcode_spec_40_7f(opcode)),
        r matches Some(i) ==> (opcode != 0xCB ==> ends_only_where_due(i.micro_ops@)),
        r matches Some(i) && i.micro_ops@ =~= register_block_micro_ops(opcode),
{
    match opcode {
        0x40 => Some(Instruction {
            opcode: 0x40,
            name: "LD B, B",
            cycles: 1,
            size: 1,
            flags: vec![],
            micro_ops: vec![
                MCycleOp::End(MicroOp::Ld8(Registers8Bit::B, Registers8Bit::B)),
            ],
        }),
        0x41 => Some(Instruction {
            opcode: 0x41,
            name: "LD B, C",
            cycles: 1,
            size: 1,
            flags: vec![],
            micro_ops: vec![
                MCycleOp::End(MicroOp::Ld8(Registers8Bit::B, Registers8Bit::C)),
            ],
        }),
        0x42 => Some(Instruction {
            opcode: 0x42,
            name: "LD B, D",
            cycles: 1,
            size: 1,
            flags: vec![],
            micro_ops: vec![
                MCycleOp::End(MicroOp::Ld8(Registers8Bit::B, Registers8Bit::D)),
            ],
        }),
        0x43 => Some(Instruction {
            opcode: 0x43,
            name: "LD B, E",
            cycles: 1,
            size: 1,
            flags: vec![],
            micro_ops: vec![
                MCycleOp::End(MicroOp::Ld8(Registers8Bit::B, Registers8Bit::E)),
            ],
        }),
        0x44 => Some(Instruction {
            opcode: 0x44,
            name: "LD B, H",
            cycles: 1,
            size: 1,
            flags: vec![],
            micro_ops: vec![
                MCycleOp::End(MicroOp::Ld8(Registers8Bit::B, Registers8Bit::H)),
            ],
        }),
        0x45 => Some(Instruction {
            opcode: 0x45,
            name: "LD B, L",
            cycles: 1,
            size: 1,
            flags: vec![],
            micro_ops: vec![
                MCycleOp::End(MicroOp::Ld8(Registers8Bit::B, Registers8Bit::L)),
            ],
        }),
        0x46 => Some(Instruction {
            opcode: 0x46,
            name: "LD B, [HL]",
            cycles: 2,
            size: 1,
            flags: vec![],
            micro_ops: vec![
                MCycleOp::Main(MicroOp::Read8(Registers8Bit::Z, Registers16Bit::HL)),
                MCycleOp::End(MicroOp::Ld8(Registers8Bit::B, Registers8Bit::Z)),
            ],
        }),
        0x47 => Some(Instruction {
            opcode: 0x47,
            name: "LD B, A",
            cycles: 1,
            size: 1,
            flags: vec![],
            micro_ops: vec![
                MCycleOp::End(MicroOp::Ld8(Registers8Bit::B, Registers8Bit::A)),
            ],
        }),
        0x48 => Some(Instruction {
            opcode: 0x48,
            name: "LD C, B",
            cycles: 1,
            size: 1,
            flags: vec![],
            micro_ops: vec![
                MCycleOp::End(MicroOp::Ld8(Registers8Bit::C, Registers8Bit::B)),
            ],
        }),
        0x49 => Some(Instruction {
            opcode: 0x49,
            name: "LD C, C",
            cycles: 1,
            size: 1,
            flags: vec![],
            micro_ops: vec![
                MCycleOp::End(MicroOp::Ld8(Registers8Bit::C, Registers8Bit::C)),
            ],
        }),
        0x4A => Some(Instruction {
            opcode: 0x4A,
            name: "LD C, D",
            cycles: 1,
            size: 1,
            flags: vec![],
            micro_ops: vec![
                MCycleOp::End(MicroOp::Ld8(Registers8Bit::C, Registers8Bit::D)),
            ],
        }),
        0x4B => Some(Instruction {
            opcode: 0x4B,
            name: "LD C, E",
            cycles: 1,
            size: 1,
            flags: vec![],
            micro_ops: vec![
                MCycleOp::End(MicroOp::Ld8(Registers8Bit::C, Registers8Bit::E)),
            ],
        }),
        0x4C => Some(Instruction {
            opcode: 0x4C,
            name: "LD C, H",
            cycles: 1,
            size: 1,
            flags: vec![],
            micro_ops: vec![
                MCycleOp::End(MicroOp::Ld8(Registers8Bit::C, Registers8Bit::H)),
            ],
        }),
        0x4D => Some(Instruction {
            opcode: 0x4D,
            name: "LD C, L",
            cycles: 1,
            size: 1,
            flags: vec![],
            micro_ops: vec![
                MCycleOp::End(MicroOp::Ld8(Registers8Bit::C, Registers8Bit::L)),
            ],
        }),
        0x4E => Some(Instruction {
            opcode: 0x4E,
            name: "LD C, [HL]",
            cycles: 2,
            size: 1,
            flags: vec![],
            micro_ops: vec![
                MCycleOp::Main(MicroOp::Read8(Registers8Bit::Z, Registers16Bit::HL)),
                MCycleOp::End(MicroOp::Ld8(Registers8Bit::C, Registers8Bit::Z)),
            ],
        }),
        0x4F => Some(Instruction {
            opcode: 0x4F,
            name: "LD C, A",
            cycles: 1,
            size: 1,
            flags: vec![],
            micro_ops: vec![
                MCycleOp::End(MicroOp::Ld8(Registers8Bit::C, Registers8Bit::A)),
            ],
        }),
        0x50 => Some(Instruction {
            opcode: 0x50,
            name: "LD D, B",
            cycles: 1,
            size: 1,
            flags: vec![],
            micro_ops: vec![
                MCycleOp::End(MicroOp::Ld8(Registers8Bit::D, Registers8Bit::B)),
            ],
        }),
        0x51 => Some(Instruction {
            opcode: 0x51,
            name: "LD D, C",
            cycles: 1,
            size: 1,
            flags: vec![],
            micro_ops: vec![
                MCycleOp::End(MicroOp::Ld8(Registers8Bit::D, Registers8Bit::C)),
            ],
        }),
        0x52 => Some(Instruction {
            opcode: 0x52,
            name: "LD D, D",
            cycles: 1,
            size: 1,
            flags: vec![],
            micro_ops: vec![
                MCycleOp::End(MicroOp::Ld8(Registers8Bit::D, Registers8Bit::D)),
            ],
        }),
        0x53 => Some(Instruction {
            opcode: 0x53,
            name: "LD D, E",
            cycles: 1,
            size: 1,
            flags: vec![],
            micro_ops: vec![
                MCycleOp::End(MicroOp::Ld8(Registers8Bit::D, Registers8Bit::E)),
            ],
        }),
        0x54 => Some(Instruction {
            opcode: 0x54,
            name: "LD D, H",
            cycles: 1,
            size: 1,
            flags: vec![],
            micro_ops: vec![
                MCycleOp::End(MicroOp::Ld8(Registers8Bit::D, Registers8Bit::H)),
            ],
        }),
        0x55 => Some(Instruction {
            opcode: 0x55,
            name: "LD D, L",
            cycles: 1,
            size: 1,
            flags: vec![],
            micro_ops: vec![
                MCycleOp::End(MicroOp::Ld8(Registers8Bit::D, Registers8Bit::L)),
            ],
        }),
        0x56 => Some(Instruction {
            opcode: 0x56,
            name: "LD D, [HL]",
            cycles: 2,
            size: 1,
            flags: vec![],
            micro_ops: vec![
                MCycleOp::Main(MicroOp::Read8(Registers8Bit::Z, Registers16Bit::HL)),
                MCycleOp::End(MicroOp::Ld8(Registers8Bit::D, Registers8Bit::Z)),
            ],
        }),
        0x57 => Some(Instruction {
            opcode: 0x57,
            name: "LD D, A",
            cycles: 1,
            size: 1,
            flags: vec![],
            micro_ops: vec![
                MCycleOp::End(MicroOp::Ld8(Registers8Bit::D, Registers8Bit::A)),
            ],
        }),
        0x58 => Some(Instruction {
            opcode: 0x58,
            name: "LD E, B",
            cycles: 1,
            size: 1,
            flags: vec![],
            micro_ops: vec![
                MCycleOp::End(MicroOp::Ld8(Registers8Bit::E, Registers8Bit::B)),
            ],
        }),
        0x59 => Some(Instruction {
            opcode: 0x59,
            name: "LD E, C",
            cycles: 1,
            size: 1,
            flags: vec![],
            micro_ops: vec![
                MCycleOp::End(MicroOp::Ld8(Registers8Bit::E, Registers8Bit::C)),
            ],
        }),
        0x5A => Some(Instruction {
            opcode: 0x5A,
            name: "LD E, D",
            cycles: 1,
            size: 1,
            flags: vec![],
            micro_ops: vec![
                MCycleOp::End(MicroOp::Ld8(Registers8Bit::E, Registers8Bit::D)),
            ],
        }),
        0x5B => Some(Instruction {
            opcode: 0x5B,
            name: "LD E, E",
            cycles: 1,
            size: 1,
            flags: vec![],
            micro_ops: vec![
                MCycleOp::End(MicroOp::Ld8(Registers8Bit::E, Registers8Bit::E)),
            ],
        }),
        0x5C => Some(Instruction {
            opcode: 0x5C,
            name: "LD E, H",
            cycles: 1,
            size: 1,
            flags: vec![],
            micro_ops: vec![
                MCycleOp::End(MicroOp::Ld8(Registers8Bit::E, Registers8Bit::H)),
            ],
        }),
        0x5D => Some(Instruction {
            opcode: 0x5D,
            name: "LD E, L",
            cycles: 1,
            size: 1,
            flags: vec![],
            micro_ops: vec![
                MCycleOp::End(MicroOp::Ld8(Registers8Bit::E, Registers8Bit::L)),
            ],
        }),
        0x5E => Some(Instruction {
            opcode: 0x5E,
            name: "LD E, [HL]",
            cycles: 2,
            size: 1,
            flags: vec![],
            micro_ops: vec![
                MCycleOp::Main(MicroOp::Read8(Registers8Bit::Z, Registers16Bit::HL)),
                MCycleOp::End(MicroOp::Ld8(Registers8Bit::E, Registers8Bit::Z)),
            ],
        }),
        0x5F => Some(Instruction {
            opcode: 0x5F,
            name: "LD E, A",
            cycles: 1,
            size: 1,
            flags: vec![],
            micro_ops: vec![
                MCycleOp::End(MicroOp::Ld8(Registers8Bit::E, Registers8Bit::A)),
            ],
        }),
        0x60 => Some(Instruction {
            opcode: 0x60,
            name: "LD H, B",
            cycles: 1,
            size: 1,
            flags: vec![],
            micro_ops: vec![
                MCycleOp::End(MicroOp::Ld8(Registers8Bit::H, Registers8Bit::B)),
            ],
        }),
        0x61 => Some(Instruction {
            opcode: 0x61,
            name: "LD H, C",
            cycles: 1,
            size: 1,
            flags: vec![],
            micro_ops: vec![
                MCycleOp::End(MicroOp::Ld8(Registers8Bit::H, Registers8Bit::C)),
            ],
        }),
        0x62 => Some(Instruction {
            opcode: 0x62,
            name: "LD H, D",
            cycles: 1,
            size: 1,
            flags: vec![],
            micro_ops: vec![
                MCycleOp::End(MicroOp::Ld8(Registers8Bit::H, Registers8Bit::D)),
            ],
        }),
        0x63 => Some(Instruction {
            opcode: 0x63,
            name: "LD H, E",
            cycles: 1,
            size: 1,
            flags: vec![],
            micro_ops: vec![
                MCycleOp::End(MicroOp::Ld8(Registers8Bit::H, Registers8Bit::E)),
            ],
        }),
        0x64 => Some(Instruction {
            opcode: 0x64,
            name: "LD H, H",
            cycles: 1,
            size: 1,
            flags: vec![],
            micro_ops: vec![
                MCycleOp::End(MicroOp::Ld8(Registers8Bit::H, Registers8Bit::H)),
            ],
        }),
        0x65 => Some(Instruction {
            opcode: 0x65,
            name: "LD H, L",
            cycles: 1,
            size: 1,
            flags: vec![],
            micro_ops: vec![
                MCycleOp::End(MicroOp::Ld8(Registers8Bit::H, Registers8Bit::L)),
            ],
        }),
        0x66 => Some(Instruction {
            opcode: 0x66,
            name: "LD H, [HL]",
            cycles: 2,
            size: 1,
            flags: vec![],
            micro_ops: vec![
                MCycleOp::Main(MicroOp::Read8(Registers8Bit::Z, Registers16Bit::HL)),
                MCycleOp::End(MicroOp::Ld8(Registers8Bit::H, Registers8Bit::Z)),
            ],
        }),
        0x67 => Some(Instruction {
            opcode: 0x67,
            name: "LD H, A",
            cycles: 1,
            size: 1,
            flags: vec![],
            micro_ops: vec![
                MCycleOp::End(MicroOp::Ld8(Registers8Bit::H, Registers8Bit::A)),
            ],
        }),
        0x68 => Some(Instruction {
            opcode: 0x68,
            name: "LD L, B",
            cycles: 1,
            size: 1,
            flags: vec![],
            micro_ops: vec![
                MCycleOp::End(MicroOp::Ld8(Registers8Bit::L, Registers8Bit::B)),
            ],
        }),
        0x69 => Some(Instruction {
            opcode: 0x69,
            name: "LD L, C",
            cycles: 1,
            size: 1,
            flags: vec![],
            micro_ops: vec![
                MCycleOp::End(MicroOp::Ld8(Registers8Bit::L, Registers8Bit::C)),
            ],
        }),
        0x6A => Some(Instruction {
            opcode: 0x6A,
            name: "LD L, D",
            cycles: 1,
            size: 1,
            flags: vec![],
            micro_ops: vec![
                MCycleOp::End(MicroOp::Ld8(Registers8Bit::L, Registers8Bit::D)),
            ],
        }),
        0x6B => Some(Instruction {
            opcode: 0x6B,
            name: "LD L, E",
            cycles: 1,
            size: 1,
            flags: vec![],
            micro_ops: vec![
                MCycleOp::End(MicroOp::Ld8(Registers8Bit::L, Registers8Bit::E)),
            ],
        }),
        0x6C => Some(Instruction {
            opcode: 0x6C,
            name: "LD L, H",
            cycles: 1,
            size: 1,
            flags: vec![],
            micro_ops: vec![
                MCycleOp::End(MicroOp::Ld8(Registers8Bit::L, Registers8Bit::H)),
            ],
        }),
        0x6D => Some(Instruction {
            opcode: 0x6D,
            name: "LD L, L",
            cycles: 1,
            size: 1,
            flags: vec![],
            micro_ops: vec![
                MCycleOp::End(MicroOp::Ld8(Registers8Bit::L, Registers8Bit::L)),
            ],
        }),
        0x6E => Some(Instruction {
            opcode: 0x6E,
            name: "LD L, [HL]",
            cycles: 2,
            size: 1,
            flags: vec![],
            micro_ops: vec![
                MCycleOp::Main(MicroOp::Read8(Registers8Bit::Z, Registers16Bit::HL)),
                MCycleOp::End(MicroOp::Ld8(Registers8Bit::L, Registers8Bit::Z)),
            ],
        }),
        0x6F => Some(Instruction {
            opcode: 0x6F,
            name: "LD L, A",
            cycles: 1,
            size: 1,
            flags: vec![],
            micro_ops: vec![
                MCycleOp::End(MicroOp::Ld8(Registers8Bit::L, Registers8Bit::A)),
            ],
        }),
        0x70 => Some(Instruction {
            opcode: 0x70,
            name: "LD [HL], B",
            cycles: 2,
            size: 1,
            flags: vec![],
            micro_ops: vec![
                MCycleOp::Main(MicroOp::Write8(Registers16Bit::HL, Registers8Bit::B)),
                MCycleOp::End(MicroOp::Idle),
            ],
        }),
        0x71 => Some(Instruction {
            opcode: 0x71,
            name: "LD [HL], C",
            cycles: 2,
            size: 1,
            flags: vec![],
            micro_ops: vec![
                MCycleOp::Main(MicroOp::Write8(Registers16Bit::HL, Registers8Bit::C)),
                MCycleOp::End(MicroOp::Idle),
            ],
        }),
        0x72 => Some(Instruction {
            opcode: 0x72,
            name: "LD [HL], D",
            cycles: 2,
            size: 1,
            flags: vec![],
            micro_ops: vec![
                MCycleOp::Main(MicroOp::Write8(Registers16Bit::HL, Registers8Bit::D)),
                MCycleOp::End(MicroOp::Idle),
            ],
        }),
        0x73 => Some(Instruction {
            opcode: 0x73,
            name: "LD [HL], E",
            cycles: 2,
            size: 1,
            flags: vec![],
            micro_ops: vec![
                MCycleOp::Main(MicroOp::Write8(Registers16Bit::HL, Registers8Bit::E)),
                MCycleOp::End(MicroOp::Idle),
            ],
        }),
        0x74 => Some(Instruction {
            opcode: 0x74,
            name: "LD [HL], H",
            cycles: 2,
            size: 1,
            flags: vec![],
            micro_ops: vec![
                MCycleOp::Main(MicroOp::Write8(Registers16Bit::HL, Registers8Bit::H)),
                MCycleOp::End(MicroOp::Idle),
            ],
        }),
        0x75 => Some(Instruction {
            opcode: 0x75,
            name: "LD [HL], L",
            cycles: 2,
            size: 1,
            flags: vec![],
            micro_ops: vec![
                MCycleOp::Main(MicroOp::Write8(Registers16Bit::HL, Registers8Bit::L)),
                MCycleOp::End(MicroOp::Idle),
            ],
        }),
        0x76 => Some(Instruction {
            opcode: 0x76,
            name: "HALT",
            cycles: 1,
            size: 1,
            flags: vec![],
            micro_ops: vec![
                MCycleOp::End(MicroOp::Idle),
            ],
        }),
        0x77 => Some(Instruction {
            opcode: 0x77,
            name: "LD [HL], A",
            cycles: 2,
            size: 1,
            flags: vec![],
            micro_ops: vec![
                MCycleOp::Main(MicroOp::Write8(Registers16Bit::HL, Registers8Bit::A)),
                MCycleOp::End(MicroOp::Idle),
            ],
        }),
        0x78 => Some(Instruction {
            opcode: 0x78,
            name: "LD A, B",
            cycles: 1,
            size: 1,
            flags: vec![],
            micro_ops: vec![
                MCycleOp::End(MicroOp::Ld8(Registers8Bit::A, Registers8Bit::B)),
            ],
        }),
        0x79 => Some(Instruction {
            opcode: 0x79,
            name: "LD A, C",
            cycles: 1,
            size: 1,
            flags: vec![],
            micro_ops: vec![
                MCycleOp::End(MicroOp::Ld8(Registers8Bit::A, Registers8Bit::C)),
            ],
        }),
        0x7A => Some(Instruction {
            opcode: 0x7A,
            name: "LD A, D",
            cycles: 1,
            size: 1,
            flags: vec![],
            micro_ops: vec![
                MCycleOp::End(MicroOp::Ld8(Registers8Bit::A, Registers8Bit::D)),
            ],
        }),
        0x7B => Some(Instruction {
            opcode: 0x7B,
            name: "LD A, E",
            cycles: 1,
            size: 1,
            flags: vec![],
            micro_ops: vec![
                MCycleOp::End(MicroOp::Ld8(Registers8Bit::A, Registers8Bit::E)),
            ],
        }),
        0x7C => Some(Instruction {
            opcode: 0x7C,
            name: "LD A, H",
            cycles: 1,
            size: 1,
            flags: vec![],
            micro_ops: vec![
                MCycleOp::End(MicroOp::Ld8(Registers8Bit::A, Registers8Bit::H)),
            ],
        }),
        0x7D => Some(Instruction {
            opcode: 0x7D,
            name: "LD A, L",
            cycles: 1,
            size: 1,
            flags: vec![],
            micro_ops: vec![
                MCycleOp::End(MicroOp::Ld8(Registers8Bit::A, Registers8Bit::L)),
            ],
        }),
        0x7E => Some(Instruction {
            opcode: 0x7E,
            name: "LD A, [HL]",
            cycles: 2,
            size: 1,
            flags: vec![],
            micro_ops: vec![
                MCycleOp::Main(MicroOp::Read8(Registers8Bit::Z, Registers16Bit::HL)),
                MCycleOp::End(MicroOp::Ld8(Registers8Bit::A, Registers8Bit::Z)),
            ],
        }),
        0x7F => Some(Instruction {
            opcode: 0x7F,
            name: "LD A, A",
            cycles: 1,
            size: 1,
            flags: vec![],
            micro_ops: vec![
                MCycleOp::End(MicroOp::Ld8(Registers8Bit::A, Registers8Bit::A)),
            ],
        }),
        _ => None,
    }
}

#[verifier::rlimit(80)]
fn opcodes_80_bf(opcode: u8) -> (r: Option<Instruction>)
    requires
        0x80 <= opcode <= 0xBF,
    ensures
        r is Some <==> opcode_defined(opcode),
        r matches Some(i) ==> i.wf() && holds_entry(i, opcode, opcode_spec_80_bf(opcode)),
        r matches Some(i) ==> (opcode != 0xCB ==> ends_only_where_due(i.micro_ops@)),
        r matches Some(i) && i.micro_ops@ =~= register_block_micro_ops(opcode),
{
    match opcode {
        0x80 => Some(Instruction {
            opcode: 0x80,
            name: "ADD A, B",
            cycles: 1,
            size: 1,
            flags: vec![FlagBits::Z, FlagBits::N, FlagBits::H, FlagBits::C],
            micro_ops: vec![
                MCycleOp::End(MicroOp::Alu(AluOp::Add(Registers8Bit::A, Registers8Bit::B))),
            ],
        }),
        0x81 => Some(Instruction {
            opcode: 0x81,
            name: "ADD A, C",
            cycles: 1,
            size: 1,
            flags: vec![FlagBits::Z, FlagBits::N, FlagBits::H, FlagBits::C],
            micro_ops: vec![
                MCycleOp::End(MicroOp::Alu(AluOp::Add(Registers8Bit::A, Registers8Bit::C))),
            ],
        }),
        0x82 => Some(Instruction {
            opcode: 0x82,
            name: "ADD A, D",
            cycles: 1,
            size: 1,
            flags: vec![FlagBits::Z, FlagBits::N, FlagBits::H, FlagBits::C],
            micro_ops: vec![
                MCycleOp::End(MicroOp::Alu(AluOp::Add(Registers8Bit::A, Registers8Bit::D))),
            ],
        }),
        0x83 => Some(Instruction {
            opcode: 0x83,
            name: "ADD A, E",
            cycles: 1,
            size: 1,
            flags: vec![FlagBits::Z, FlagBits::N, FlagBits::H, FlagBits::C],
            micro_ops: vec![
                MCycleOp::End(MicroOp::Alu(AluOp::Add(Registers8Bit::A, Registers8Bit::E))),
            ],
        }),
        0x84 => Some(Instruction {
            opcode: 0x84,
            name: "ADD A, H",
            cycles: 1,
            size: 1,
            flags: vec![FlagBits::Z, FlagBits::N, FlagBits::H, FlagBits::C],
            micro_ops: vec![
                MCycleOp::End(MicroOp::Alu(AluOp::Add(Registers8Bit::A, Registers8Bit::H))),
            ],
        }),
        0x85 => Some(Instruction {
            opcode: 0x85,
            name: "ADD A, L",
            cycles: 1,
            size: 1,
            flags: vec![FlagBits::Z, FlagBits::N, FlagBits::H, FlagBits::C],
            micro_ops: vec![
                MCycleOp::End(MicroOp::Alu(AluOp::Add(Registers8Bit::A, Registers8Bit::L))),
            ],
        }),
        0x86 => Some(Instruction {
            opcode: 0x86,
            name: "ADD A, [HL]",
            cycles: 2,
            size: 1,
            flags: vec![FlagBits::Z, FlagBits::N, FlagBits::H, FlagBits::C],
            micro_ops: vec![
                MCycleOp::Main(MicroOp::Read8(Registers8Bit::Z, Registers16Bit::HL)),
                MCycleOp::End(MicroOp::Alu(AluOp::Add(Registers8Bit::A, Registers8Bit::Z))),
            ],
        }),
        0x87 => Some(Instruction {
            opcode: 0x87,
            name: "ADD A, A",
            cycles: 1,
            size: 1,
            flags: vec![FlagBits::Z, FlagBits::N, FlagBits::H, FlagBits::C],
            micro_ops: vec![
                MCycleOp::End(MicroOp::Alu(AluOp::Add(Registers8Bit::A, Registers8Bit::A))),
            ],
        }),
        0x88 => Some(Instruction {
            opcode: 0x88,
            name: "ADC A, B",
            cycles: 1,
            size: 1,
            flags: vec![FlagBits::Z, FlagBits::N, FlagBits::H, FlagBits::C],
            micro_ops: vec![
                MCycleOp::End(MicroOp::Alu(AluOp::Adc(Registers8Bit::A, Registers8Bit::B))),
            ],
        }),
        0x89 => Some(Instruction {
            opcode: 0x89,
            name: "ADC A, C",
            cycles: 1,
            size: 1,
            flags: vec![FlagBits::Z, FlagBits::N, FlagBits::H, FlagBits::C],
            micro_ops: vec![
                MCycleOp::End(MicroOp::Alu(AluOp::Adc(Registers8Bit::A, Registers8Bit::C))),
            ],
        }),
        0x8A => Some(Instruction {
            opcode: 0x8A,
            name: "ADC A, D",
            cycles: 1,
            size: 1,
            flags: vec![FlagBits::Z, FlagBits::N, FlagBits::H, FlagBits::C],
            micro_ops: vec![
                MCycleOp::End(MicroOp::Alu(AluOp::Adc(Registers8Bit::A, Registers8Bit::D))),
            ],
        }),
        0x8B => Some(Instruction {
            opcode: 0x8B,
            name: "ADC A, E",
            cycles: 1,
            size: 1,
            flags: vec![FlagBits::Z, FlagBits::N, FlagBits::H, FlagBits::C],
            micro_ops: vec![
                MCycleOp::End(MicroOp::Alu(AluOp::Adc(Registers8Bit::A, Registers8Bit::E))),
            ],
        }),
        0x8C => Some(Instruction {
            opcode: 0x8C,
            name: "ADC A, H",
            cycles: 1,
            size: 1,
            flags: vec![FlagBits::Z, FlagBits::N, FlagBits::H, FlagBits::C],
            micro_ops: vec![
                MCycleOp::End(MicroOp::Alu(AluOp::Adc(Registers8Bit::A, Registers8Bit::H))),
            ],
        }),
        0x8D => Some(Instruction {
            opcode: 0x8D,
            name: "ADC A, L",
            cycles: 1,
            size: 1,
            flags: vec![FlagBits::Z, FlagBits::N, FlagBits::H, FlagBits::C],
            micro_ops: vec![
                MCycleOp::End(MicroOp::Alu(AluOp::Adc(Registers8Bit::A, Registers8Bit::L))),
            ],
        }),
        0x8E => Some(Instruction {
            opcode: 0x8E,
            name: "ADC A, [HL]",
            cycles: 2,
            size: 1,
            flags: vec![FlagBits::Z, FlagBits::N, FlagBits::H, FlagBits::C],
            micro_ops: vec![
                MCycleOp::Main(MicroOp::Read8(Registers8Bit::Z, Registers16Bit::HL)),
                MCycleOp::End(MicroOp::Alu(AluOp::Adc(Registers8Bit::A, Registers8Bit::Z))),
            ],
        }),
        0x8F => Some(Instruction {
            opcode: 0x8F,
            name: "ADC A, A",
            cycles: 1,
            size: 1,
            flags: vec![FlagBits::Z, FlagBits::N, FlagBits::H, FlagBits::C],
            micro_ops: vec![
                MCycleOp::End(MicroOp::Alu(AluOp::Adc(Registers8Bit::A, Registers8Bit::A))),
            ],
        }),
        0x90 => Some(Instruction {
            opcode: 0x90,
            name: "SUB A, B",
            cycles: 1,
            size: 1,
            flags: vec![FlagBits::Z, FlagBits::N, FlagBits::H, FlagBits::C],
            micro_ops: vec![
                MCycleOp::End(MicroOp::Alu(AluOp::Sub(Registers8Bit::A, Registers8Bit::B))),
            ],
        }),
        0x91 => Some(Instruction {
            opcode: 0x91,
            name: "SUB A, C",
            cycles: 1,
            size: 1,
            flags: vec![FlagBits::Z, FlagBits::N, FlagBits::H, FlagBits::C],
            micro_ops: vec![
                MCycleOp::End(MicroOp::Alu(AluOp::Sub(Registers8Bit::A, Registers8Bit::C))),
            ],
        }),
        0x92 => Some(Instruction {
            opcode: 0x92,
            name: "SUB A, D",
            cycles: 1,
            size: 1,
            flags: vec![FlagBits::Z, FlagBits::N, FlagBits::H, FlagBits::C],
            micro_ops: vec![
                MCycleOp::End(MicroOp::Alu(AluOp::Sub(Registers8Bit::A, Registers8Bit::D))),
            ],
        }),
        0x93 => Some(Instruction {
            opcode: 0x93,
            name: "SUB A, E",
            cycles: 1,
            size: 1,
            flags: vec![FlagBits::Z, FlagBits::N, FlagBits::H, FlagBits::C],
            micro_ops: vec![
                MCycleOp::End(MicroOp::Alu(AluOp::Sub(Registers8Bit::A, Registers8Bit::E))),
            ],
        }),
        0x94 => Some(Instruction {
            opcode: 0x94,
            name: "SUB A, H",
            cycles: 1,
            size: 1,
            flags: vec![FlagBits::Z, FlagBits::N, FlagBits::H, FlagBits::C],
            micro_ops: vec![
                MCycleOp::End(MicroOp::Alu(AluOp::Sub(Registers8Bit::A, Registers8Bit::H))),
            ],
        }),
        0x95 => Some(Instruction {
            opcode: 0x95,
            name: "SUB A, L",
            cycles: 1,
            size: 1,
            flags: vec![FlagBits::Z, FlagBits::N, FlagBits::H, FlagBits::C],
            micro_ops: vec![
                MCycleOp::End(MicroOp::Alu(AluOp::Sub(Registers8Bit::A, Registers8Bit::L))),
            ],
        }),
        0x96 => Some(Instruction {
            opcode: 0x96,
            name: "SUB A, [HL]",
            cycles: 2,
            size: 1,
            flags: vec![FlagBits::Z, FlagBits::N, FlagBits::H, FlagBits::C],
            micro_ops: vec![
                MCycleOp::Main(MicroOp::Read8(Registers8Bit::Z, Registers16Bit::HL)),
                MCycleOp::End(MicroOp::Alu(AluOp::Sub(Registers8Bit::A, Registers8Bit::Z))),
            ],
        }),
        0x97 => Some(Instruction {
            opcode: 0x97,
            name: "SUB A, A",
            cycles: 1,
            size: 1,
            flags: vec![FlagBits::Z, FlagBits::N, FlagBits::H, FlagBits::C],
            micro_ops: vec![
                MCycleOp::End(MicroOp::Alu(AluOp::Sub(Registers8Bit::A, Registers8Bit::A))),
            ],
        }),
        0x98 => Some(Instruction {
            opcode: 0x98,
            name: "SBC A, B",
            cycles: 1,
            size: 1,
            flags: vec![FlagBits::Z, FlagBits::N, FlagBits::H, FlagBits::C],
            micro_ops: vec![
                MCycleOp::End(MicroOp::Alu(AluOp::Sbc(Registers8Bit::A, Registers8Bit::B))),
            ],
        }),
        0x99 => Some(Instruction {
            opcode: 0x99,
            name: "SBC A, C",
            cycles: 1,
            size: 1,
            flags: vec![FlagBits::Z, FlagBits::N, FlagBits::H, FlagBits::C],
            micro_ops: vec![
                MCycleOp::End(MicroOp::Alu(AluOp::Sbc(Registers8Bit::A, Registers8Bit::C))),
            ],
        }),
        0x9A => Some(Instruction {
            opcode: 0x9A,
            name: "SBC A, D",
            cycles: 1,
            size: 1,
            flags: vec![FlagBits::Z, FlagBits::N, FlagBits::H, FlagBits::C],
            micro_ops: vec![
                MCycleOp::End(MicroOp::Alu(AluOp::Sbc(Registers8Bit::A, Registers8Bit::D))),
            ],
        }),
        0x9B => Some(Instruction {
            opcode: 0x9B,
            name: "SBC A, E",
            cycles: 1,
            size: 1,
            flags: vec![FlagBits::Z, FlagBits::N, FlagBits::H, FlagBits::C],
            micro_ops: vec![
                MCycleOp::End(MicroOp::Alu(AluOp::Sbc(Registers8Bit::A, Registers8Bit::E))),
            ],
        }),
        0x9C => Some(Instruction {
            opcode: 0x9C,
            name: "SBC A, H",
            cycles: 1,
            size: 1,
            flags: vec![FlagBits::Z, FlagBits::N, FlagBits::H, FlagBits::C],
            micro_ops: vec![
                MCycleOp::End(MicroOp::Alu(AluOp::Sbc(Registers8Bit::A, Registers8Bit::H))),
            ],
        }),
        0x9D => Some(Instruction {
            opcode: 0x9D,
            name: "SBC A, L",
            cycles: 1,
            size: 1,
            flags: vec![FlagBits::Z, FlagBits::N, FlagBits::H, FlagBits::C],
            micro_ops: vec![
                MCycleOp::End(MicroOp::Alu(AluOp::Sbc(Registers8Bit::A, Registers8Bit::L))),
            ],
        }),
        0x9E => Some(Instruction {
            opcode: 0x9E,
            name: "SBC A, [HL]",
            cycles: 2,
            size: 1,
            flags: vec![FlagBits::Z, FlagBits::N, FlagBits::H, FlagBits::C],
            micro_ops: vec![
                MCycleOp::Main(MicroOp::Read8(Registers8Bit::Z, Registers16Bit::HL)),
                MCycleOp::End(MicroOp::Alu(AluOp::Sbc(Registers8Bit::A, Registers8Bit::Z))),
            ],
        }),
        0x9F => Some(Instruction {
            opcode: 0x9F,
            name: "SBC A, A",
            cycles: 1,
            size: 1,
            flags: vec![FlagBits::Z, FlagBits::N, FlagBits::H, FlagBits::C],
            micro_ops: vec![
                MCycleOp::End(MicroOp::Alu(AluOp::Sbc(Registers8Bit::A, Registers8Bit::A))),
            ],
        }),
        0xA0 => Some(Instruction {
            opcode: 0xA0,
            name: "AND A, B",
            cycles: 1,
            size: 1,
            flags: vec![FlagBits::Z, FlagBits::N, FlagBits::H, FlagBits::C],
            micro_ops: vec![
                MCycleOp::End(MicroOp::Alu(AluOp::And(Registers8Bit::A, Registers8Bit::B))),
            ],
        }),
        0xA1 => Some(Instruction {
            opcode: 0xA1,
            name: "AND A, C",
            cycles: 1,
            size: 1,
            flags: vec![FlagBits::Z, FlagBits::N, FlagBits::H, FlagBits::C],
            micro_ops: vec![
                MCycleOp::End(MicroOp::Alu(AluOp::And(Registers8Bit::A, Registers8Bit::C))),
            ],
        }),
        0xA2 => Some(Instruction {
            opcode: 0xA2,
            name: "AND A, D",
            cycles: 1,
            size: 1,
            flags: vec![FlagBits::Z, FlagBits::N, FlagBits::H, FlagBits::C],
            micro_ops: vec![
                MCycleOp::End(MicroOp::Alu(AluOp::And(Registers8Bit::A, Registers8Bit::D))),
            ],
        }),
        0xA3 => Some(Instruction {
            opcode: 0xA3,
            name: "AND A, E",
            cycles: 1,
            size: 1,
            flags: vec![FlagBits::Z, FlagBits::N, FlagBits::H, FlagBits::C],
            micro_ops: vec![
                MCycleOp::End(MicroOp::Alu(AluOp::And(Registers8Bit::A, Registers8Bit::E))),
            ],
        }),
        0xA4 => Some(Instruction {
            opcode: 0xA4,
            name: "AND A, H",
            cycles: 1,
            size: 1,
            flags: vec![FlagBits::Z, FlagBits::N, FlagBits::H, FlagBits::C],
            micro_ops: vec![
                MCycleOp::End(MicroOp::Alu(AluOp::And(Registers8Bit::A, Registers8Bit::H))),
            ],
        }),
        0xA5 => Some(Instruction {
            opcode: 0xA5,
            name: "AND A, L",
            cycles: 1,
            size: 1,
            flags: vec![FlagBits::Z, FlagBits::N, FlagBits::H, FlagBits::C],
            micro_ops: vec![
                MCycleOp::End(MicroOp::Alu(AluOp::And(Registers8Bit::A, Registers8Bit::L))),
            ],
        }),
        0xA6 => Some(Instruction {
            opcode: 0xA6,
            name: "AND A, [HL]",
            cycles: 2,
            size: 1,
            flags: vec![FlagBits::Z, FlagBits::N, FlagBits::H, FlagBits::C],
            micro_ops: vec![
                MCycleOp::Main(MicroOp::Read8(Registers8Bit::Z, Registers16Bit::HL)),
                MCycleOp::End(MicroOp::Alu(AluOp::And(Registers8Bit::A, Registers8Bit::Z))),
            ],
        }),
        0xA7 => Some(Instruction {
            opcode: 0xA7,
            name: "AND A, A",
            cycles: 1,
            size: 1,
            flags: vec![FlagBits::Z, FlagBits::N, FlagBits::H, FlagBits::C],
            micro_ops: vec![
                MCycleOp::End(MicroOp::Alu(AluOp::And(Registers8Bit::A, Registers8Bit::A))),
            ],
        }),
        0xA8 => Some(Instruction {
            opcode: 0xA8,
            name: "XOR A, B",
            cycles: 1,
            size: 1,
            flags: vec![FlagBits::Z, FlagBits::N, FlagBits::H, FlagBits::C],
            micro_ops: vec![
                MCycleOp::End(MicroOp::Alu(AluOp::Xor(Registers8Bit::A, Registers8Bit::B))),
            ],
        }),
        0xA9 => Some(Instruction {
            opcode: 0xA9,
            name: "XOR A, C",
            cycles: 1,
            size: 1,
            flags: vec![FlagBits::Z, FlagBits::N, FlagBits::H, FlagBits::C],
            micro_ops: vec![
                MCycleOp::End(MicroOp::Alu(AluOp::Xor(Registers8Bit::A, Registers8Bit::C))),
            ],
        }),
        0xAA => Some(Instruction {
            opcode: 0xAA,
            name: "XOR A, D",
            cycles: 1,
            size: 1,
            flags: vec![FlagBits::Z, FlagBits::N, FlagBits::H, FlagBits::C],
            micro_ops: vec![
                MCycleOp::End(MicroOp::Alu(AluOp::Xor(Registers8Bit::A, Registers8Bit::D))),
            ],
        }),
        0xAB => Some(Instruction {
            opcode: 0xAB,
            name: "XOR A, E",
            cycles: 1,
            size: 1,
            flags: vec![FlagBits::Z, FlagBits::N, FlagBits::H, FlagBits::C],
            micro_ops: vec![
                MCycleOp::End(MicroOp::Alu(AluOp::Xor(Registers8Bit::A, Registers8Bit::E))),
            ],
        }),
        0xAC => Some(Instruction {
            opcode: 0xAC,
            name: "XOR A, H",
            cycles: 1,
            size: 1,
            flags: vec![FlagBits::Z, FlagBits::N, FlagBits::H, FlagBits::C],
            micro_ops: vec![
                MCycleOp::End(MicroOp::Alu(AluOp::Xor(Registers8Bit::A, Registers8Bit::H))),
            ],
        }),
        0xAD => Some(Instruction {
            opcode: 0xAD,
            name: "XOR A, L",
            cycles: 1,
            size: 1,
            flags: vec![FlagBits::Z, FlagBits::N, FlagBits::H, FlagBits::C],
            micro_ops: vec![
                MCycleOp::End(MicroOp::Alu(AluOp::Xor(Registers8Bit::A, Registers8Bit::L))),
            ],
        }),
        0xAE => Some(Instruction {
            opcode: 0xAE,
            name: "XOR A, [HL]",
            cycles: 2,
            size: 1,
            flags: vec![FlagBits::Z, FlagBits::N, FlagBits::H, FlagBits::C],
            micro_ops: vec![
                MCycleOp::Main(MicroOp::Read8(Registers8Bit::Z, Registers16Bit::HL)),
                MCycleOp::End(MicroOp::Alu(AluOp::Xor(Registers8Bit::A, Registers8Bit::Z))),
            ],
        }),
        0xAF => Some(Instruction {
            opcode: 0xAF,
            name: "XOR A, A",
            cycles: 1,
            size: 1,
            flags: vec![FlagBits::Z, FlagBits::N, FlagBits::H, FlagBits::C],
            micro_ops: vec![
                MCycleOp::End(MicroOp::Alu(AluOp::Xor(Registers8Bit::A, Registers8Bit::A))),
            ],
        }),
        0xB0 => Some(Instruction {
            opcode: 0xB0,
            name: "OR A, B",
            cycles: 1,
            size: 1,
            flags: vec![FlagBits::Z, FlagBits::N, FlagBits::H, FlagBits::C],
            micro_ops: vec![
                MCycleOp::End(MicroOp::Alu(AluOp::Or(Registers8Bit::A, Registers8Bit::B))),
            ],
        }),
        0xB1 => Some(Instruction {
            opcode: 0xB1,
            name: "OR A, C",
            cycles: 1,
            size: 1,
            flags: vec![FlagBits::Z, FlagBits::N, FlagBits::H, FlagBits::C],
            micro_ops: vec![
                MCycleOp::End(MicroOp::Alu(AluOp::Or(Registers8Bit::A, Registers8Bit::C))),
            ],
        }),
        0xB2 => Some(Instruction {
            opcode: 0xB2,
            name: "OR A, D",
            cycles: 1,
            size: 1,
            flags: vec![FlagBits::Z, FlagBits::N, FlagBits::H, FlagBits::C],
            micro_ops: vec![
                MCycleOp::End(MicroOp::Alu(AluOp::Or(Registers8Bit::A, Registers8Bit::D))),
            ],
        }),
        0xB3 => Some(Instruction {
            opcode: 0xB3,
            name: "OR A, E",
            cycles: 1,
            size: 1,
            flags: vec![FlagBits::Z, FlagBits::N, FlagBits::H, FlagBits::C],
            micro_ops: vec![
                MCycleOp::End(MicroOp::Alu(AluOp::Or(Registers8Bit::A, Registers8Bit::E))),
            ],
        }),
        0xB4 => Some(Instruction {
            opcode: 0xB4,
            name: "OR A, H",
            cycles: 1,
            size: 1,
            flags: vec![FlagBits::Z, FlagBits::N, FlagBits::H, FlagBits::C],
            micro_ops: vec![
                MCycleOp::End(MicroOp::Alu(AluOp::Or(Registers8Bit::A, Registers8Bit::H))),
            ],
        }),
        0xB5 => Some(Instruction {
            opcode: 0xB5,
            name: "OR A, L",
            cycles: 1,
            size: 1,
            flags: vec![FlagBits::Z, FlagBits::N, FlagBits::H, FlagBits::C],
            micro_ops: vec![
                MCycleOp::End(MicroOp::Alu(AluOp::Or(Registers8Bit::A, Registers8Bit::L))),
            ],
        }),
        0xB6 => Some(Instruction {
            opcode: 0xB6,
            name: "OR A, [HL]",
            cycles: 2,
            size: 1,
            flags: vec![FlagBits::Z, FlagBits::N, FlagBits::H, FlagBits::C],
            micro_ops: vec![
                MCycleOp::Main(MicroOp::Read8(Registers8Bit::Z, Registers16Bit::HL)),
                MCycleOp::End(MicroOp::Alu(AluOp::Or(Registers8Bit::A, Registers8Bit::Z))),
            ],
        }),
        0xB7 => Some(Instruction {
            opcode: 0xB7,
            name: "OR A, A",
            cycles: 1,
            size: 1,
            flags: vec![FlagBits::Z, FlagBits::N, FlagBits::H, FlagBits::C],
            micro_ops: vec![
                MCycleOp::End(MicroOp::Alu(AluOp::Or(Registers8Bit::A, Registers8Bit::A))),
            ],
        }),
        0xB8 => Some(Instruction {
            opcode: 0xB8,
            name: "CP A, B",
            cycles: 1,
            size: 1,
            flags: vec![FlagBits::Z, FlagBits::N, FlagBits::H, FlagBits::C],
            micro_ops: vec![
                MCycleOp::End(MicroOp::Alu(AluOp::Cp(Registers8Bit::A, Registers8Bit::B))),
            ],
        }),
        0xB9 => Some(Instruction {
            opcode: 0xB9,
            name: "CP A, C",
            cycles: 1,
            size: 1,
            flags: vec![FlagBits::Z, FlagBits::N, FlagBits::H, FlagBits::C],
            micro_ops: vec![
                MCycleOp::End(MicroOp::Alu(AluOp::Cp(Registers8Bit::A, Registers8Bit::C))),
            ],
        }),
        0xBA => Some(Instruction {
            opcode: 0xBA,
            name: "CP A, D",
            cycles: 1,
            size: 1,
            flags: vec![FlagBits::Z, FlagBits::N, FlagBits::H, FlagBits::C],
            micro_ops: vec![
                MCycleOp::End(MicroOp::Alu(AluOp::Cp(Registers8Bit::A, Registers8Bit::D))),
            ],
        }),
        0xBB => Some(Instruction {
            opcode: 0xBB,
            name: "CP A, E",
            cycles: 1,
            size: 1,
            flags: vec![FlagBits::Z, FlagBits::N, FlagBits::H, FlagBits::C],
            micro_ops: vec![
                MCycleOp::End(MicroOp::Alu(AluOp::Cp(Registers8Bit::A, Registers8Bit::E))),
            ],
        }),
        0xBC => Some(Instruction {
            opcode: 0xBC,
            name: "CP A, H",
            cycles: 1,
            size: 1,
            flags: vec![FlagBits::Z, FlagBits::N, FlagBits::H, FlagBits::C],
            micro_ops: vec![
                MCycleOp::End(MicroOp::Alu(AluOp::Cp(Registers8Bit::A, Registers8Bit::H))),
            ],
        }),
        0xBD => Some(Instruction {
            opcode: 0xBD,
            name: "CP A, L",
            cycles: 1,
            size: 1,
            flags: vec![FlagBits::Z, FlagBits::N, FlagBits::H, FlagBits::C],
            micro_ops: vec![
                MCycleOp::End(MicroOp::Alu(AluOp::Cp(Registers8Bit::A, Registers8Bit::L))),
            ],
        }),
        0xBE => Some(Instruction {
            opcode: 0xBE,
            name: "CP A, [HL]",
            cycles: 2,
            size: 1,
            flags: vec![FlagBits::Z, FlagBits::N, FlagBits::H, FlagBits::C],
            micro_ops: vec![
                MCycleOp::Main(MicroOp::Read8(Registers8Bit::Z, Registers16Bit::HL)),
                MCycleOp::End(MicroOp::Alu(AluOp::Cp(Registers8Bit::A, Registers8Bit::Z))),
            ],
        }),
        0xBF => Some(Instruction {
            opcode: 0xBF,
            name: "CP A, A",
            cycles: 1,
            size: 1,
            flags: vec![FlagBits::Z, FlagBits::N, FlagBits::H, FlagBits::C],
            micro_ops: vec![
                MCycleOp::End(MicroOp::Alu(AluOp::Cp(Registers8Bit::A, Registers8Bit::A))),
            ],
        }),
        _ => None,
    }
}

#[verifier::rlimit(80)]
fn opcodes_c0_ff(opcode: u8) -> (r: Option<Instruction>)
    requires
        0xC0 <= opcode <= 0xFF,
    ensures
        r is Some <==> opcode_defined(opcode),
        r matches Some(i) ==> i.wf() && holds_entry(i, opcode, opcode_spec_c0_ff(opcode)),
        r matches Some(i) ==> (decoded_micro_ops(opcode) matches Some(ops) ==> i.micro_ops@ =~= ops),
        opcode % 8 == 7 ==> (r matches Some(i) && restarts_at_its_vector(i.micro_ops@, opcode)),
        r matches Some(i) ==> (opcode != 0xCB ==> ends_only_where_due(i.micro_ops@)),
{
    match opcode {
        0xC0 => Some(Instruction {
            opcode: 0xC0,
            name: "RET NZ",
            cycles: 5,
            size: 1,
            flags: vec![],
            micro_ops: vec![
                MCycleOp::Cc(MicroOp::Idle, CheckCondition::NZ, 2),
                MCycleOp::End(MicroOp::Idle),
                MCycleOp::Main(MicroOp::Read16lsbInc(Registers16Bit::WZ, Registers16Bit::SP)),
                MCycleOp::Main(MicroOp::Read16msbInc(Registers16Bit::WZ, Registers16Bit::SP)),
                MCycleOp::Main(MicroOp::Ld16(Registers16Bit::PC, Registers16Bit::WZ)),
                MCycleOp::End(MicroOp::Idle),
            ],
        }),
        0xC1 => Some(Instruction {
            opcode: 0xC1,
            name: "POP BC",
            cycles: 3,
            size: 1,
            flags: vec![],
            micro_ops: vec![
                MCycleOp::Main(MicroOp::Read8Inc(Registers8Bit::Z, Registers16Bit::SP)),
                MCycleOp::Main(MicroOp::Read8Inc(Registers8Bit::W, Registers16Bit::SP)),
                MCycleOp::End(MicroOp::Ld16(Registers16Bit::BC, Registers16Bit::WZ)),
            ],
        }),
        0xC2 => Some(Instruction {
            opcode: 0xC2,
            name: "JP NZ, imm16",
            cycles: 4,
            size: 3,
            flags: vec![],
            micro_ops: vec![
                MCycleOp::Main(MicroOp::Fetch8(Registers8Bit::Z)),
                MCycleOp::Cc(MicroOp::Fetch8(Registers8Bit::W), CheckCondition::NZ, 3),
                MCycleOp::End(MicroOp::Idle),
                MCycleOp::Main(MicroOp::Ld16(Registers16Bit::PC, Registers16Bit::WZ)),
                MCycleOp::End(MicroOp::Idle),
            ],
        }),
        0xC3 => Some(Instruction {
            opcode: 0xC3,
            name: "JP imm16",
            cycles: 4,
            size: 3,
            flags: vec![],
            micro_ops: vec![
                MCycleOp::Main(MicroOp::Fetch8(Registers8Bit::Z)),
                MCycleOp::Main(MicroOp::Fetch8(Registers8Bit::W)),
                MCycleOp::Main(MicroOp::Ld16(Registers16Bit::PC, Registers16Bit::WZ)),
                MCycleOp::End(MicroOp::Idle),
            ],
        }),
        0xC4 => Some(Instruction {
            opcode: 0xC4,
            name: "CALL NZ, imm16",
            cycles: 6,
            size: 3,
            flags: vec![],
            micro_ops: vec![
                MCycleOp::Main(MicroOp::Fetch8(Registers8Bit::Z)),
                MCycleOp::Cc(MicroOp::Fetch8(Registers8Bit::W), CheckCondition::NZ, 3),
                MCycleOp::End(MicroOp::Idle),
                MCycleOp::Main(MicroOp::Dec16(Registers16Bit::SP)),
                MCycleOp::Main(MicroOp::Write16msbDec(Registers16Bit::SP, Registers16Bit::PC)),
                MCycleOp::Main(MicroOp::Write16lsb(Registers16Bit::SP, Registers16Bit::PC)),
                MCycleOp::End(MicroOp::Ld16(Registers16Bit::PC, Registers16Bit::WZ)),
            ],
        }),
        0xC5 => Some(Instruction {
            opcode: 0xC5,
            name: "PUSH BC",
            cycles: 4,
            size: 1,
            flags: vec![],
            micro_ops: vec![
                MCycleOp::Main(MicroOp::Dec16(Registers16Bit::SP)),
                MCycleOp::Main(MicroOp::Write8Dec(Registers16Bit::SP, Registers8Bit::B)),
                MCycleOp::Main(MicroOp::Write8(Registers16Bit::SP, Registers8Bit::C)),
                MCycleOp::End(MicroOp::Idle),
            ],
        }),
        0xC6 => Some(Instruction {
            opcode: 0xC6,
            name: "ADD A, imm8",
            cycles: 2,
            size: 2,
            flags: vec![FlagBits::Z, FlagBits::N, FlagBits::H, FlagBits::C],
            micro_ops: vec![
                MCycleOp::Main(MicroOp::Fetch8(Registers8Bit::Z)),
                MCycleOp::End(MicroOp::Alu(AluOp::Add(Registers8Bit::A, Registers8Bit::Z))),
            ],
        }),
        0xC7 => Some(Instruction {
            opcode: 0xC7,
            name: "RST $00",
            cycles: 4,
            size: 1,
            flags: vec![],
            micro_ops: vec![
                MCycleOp::Main(MicroOp::Dec16(Registers16Bit::SP)),
                MCycleOp::Main(MicroOp::Write16msbDec(Registers16Bit::SP, Registers16Bit::PC)),
                MCycleOp::Main(MicroOp::Write16lsb(Registers16Bit::SP, Registers16Bit::PC)),
                MCycleOp::End(MicroOp::JumpVector(VectorAddress::V0)),
            ],
        }),
        0xC8 => Some(Instruction {
            opcode: 0xC8,
            name: "RET Z",
            cycles: 5,
            size: 1,
            flags: vec![],
            micro_ops: vec![
                MCycleOp::Cc(MicroOp::Idle, CheckCondition::Z, 2),
                MCycleOp::End(MicroOp::Idle),
                MCycleOp::Main(MicroOp::Read16lsbInc(Registers16Bit::WZ, Registers16Bit::SP)),
                MCycleOp::Main(MicroOp::Read16msbInc(Registers16Bit::WZ, Registers16Bit::SP)),
                MCycleOp::Main(MicroOp::Ld16(Registers16Bit::PC, Registers16Bit::WZ)),
                MCycleOp::End(MicroOp::Idle),
            ],
        }),
        0xC9 => Some(Instruction {
            opcode: 0xC9,
            name: "RET",
            cycles: 4,
            size: 1,
            flags: vec![],
            micro_ops: vec![
                MCycleOp::Main(MicroOp::Read16lsbInc(Registers16Bit::WZ, Registers16Bit::SP)),
                MCycleOp::Main(MicroOp::Read16msbInc(Registers16Bit::WZ, Registers16Bit::SP)),
                MCycleOp::Main(MicroOp::Ld16(Registers16Bit::PC, Registers16Bit::WZ)),
                MCycleOp::End(MicroOp::Idle),
            ],
        }),
        0xCA => Some(Instruction {
            opcode: 0xCA,
            name: "JP Z, imm16",
            cycles: 4,
            size: 3,
            flags: vec![],
            micro_ops: vec![
                MCycleOp::Main(MicroOp::Fetch8(Registers8Bit::Z)),
                MCycleOp::Cc(MicroOp::Fetch8(Registers8Bit::W), CheckCondition::Z, 3),
                MCycleOp::End(MicroOp::Idle),
                MCycleOp::Main(MicroOp::Ld16(Registers16Bit::PC, Registers16Bit::WZ)),
                MCycleOp::End(MicroOp::Idle),
            ],
        }),
        0xCB => Some(Instruction {
            opcode: 0xCB,
            name: "CB SUBSET",
            cycles: 0,
            size: 0,
            flags: vec![],
            micro_ops: vec![
                MCycleOp::Main(MicroOp::PrefixCB),
            ],
        }),
        0xCC => Some(Instruction {
            opcode: 0xCC,
            name: "CALL Z, imm16",
            cycles: 6,
            size: 3,
            flags: vec![],
            micro_ops: vec![
                MCycleOp::Main(MicroOp::Fetch8(Registers8Bit::Z)),
                MCycleOp::Cc(MicroOp::Fetch8(Registers8Bit::W), CheckCondition::Z, 3),
                MCycleOp::End(MicroOp::Idle),
                MCycleOp::Main(MicroOp::Dec16(Registers16Bit::SP)),
                MCycleOp::Main(MicroOp::Write16msbDec(Registers16Bit::SP, Registers16Bit::PC)),
                MCycleOp::Main(MicroOp::Write16lsb(Registers16Bit::SP, Registers16Bit::PC)),
                MCycleOp::End(MicroOp::Ld16(Registers16Bit::PC, Registers16Bit::WZ)),
            ],
        }),
        0xCD => Some(Instruction {
            opcode: 0xCD,
            name: "CALL imm16",
            cycles: 6,
            size: 3,
            flags: vec![],
            micro_ops: vec![
                MCycleOp::Main(MicroOp::Fetch8(Registers8Bit::Z)),
                MCycleOp::Main(MicroOp::Fetch8(Registers8Bit::W)),
                MCycleOp::Main(MicroOp::Dec16(Registers16Bit::SP)),
                MCycleOp::Main(MicroOp::Write16msbDec(Registers16Bit::SP, Registers16Bit::PC)),
                MCycleOp::Main(MicroOp::Write16lsb(Registers16Bit::SP, Registers16Bit::PC)),
                MCycleOp::End(MicroOp::Ld16(Registers16Bit::PC, Registers16Bit::WZ)),
            ],
        }),
        0xCE => Some(Instruction {
            opcode: 0xCE,
            name: "ADC A, imm8",
            cycles: 2,
            size: 2,
            flags: vec![FlagBits::Z, FlagBits::N, FlagBits::H, FlagBits::C],
            micro_ops: vec![
                MCycleOp::Main(MicroOp::Fetch8(Registers8Bit::Z)),
                MCycleOp::End(MicroOp::Alu(AluOp::Adc(Registers8Bit::A, Registers8Bit::Z))),
            ],
        }),
        0xCF => Some(Instruction {
            opcode: 0xCF,
            name: "RST $08",
            cycles: 4,
            size: 1,
            flags: vec![],
            micro_ops: vec![
                MCycleOp::Main(MicroOp::Dec16(Registers16Bit::SP)),
                MCycleOp::Main(MicroOp::Write16msbDec(Registers16Bit::SP, Registers16Bit::PC)),
                MCycleOp::Main(MicroOp::Write16lsb(Registers16Bit::SP, Registers16Bit::PC)),
                MCycleOp::End(MicroOp::JumpVector(VectorAddress::V1)),
            ],
        }),
        0xD0 => Some(Instruction {
            opcode: 0xD0,
            name: "RET NC",
            cycles: 5,
            size: 1,
            flags: vec![],
            micro_ops: vec![
                MCycleOp::Cc(MicroOp::Idle, CheckCondition::NC, 2),
                MCycleOp::End(MicroOp::Idle),
                MCycleOp::Main(MicroOp::Read16lsbInc(Registers16Bit::WZ, Registers16Bit::SP)),
                MCycleOp::Main(MicroOp::Read16msbInc(Registers16Bit::WZ, Registers16Bit::SP)),
                MCycleOp::Main(MicroOp::Ld16(Registers16Bit::PC, Registers16Bit::WZ)),
                MCycleOp::End(MicroOp::Idle),
            ],
        }),
        0xD1 => Some(Instruction {
            opcode: 0xD1,
            name: "POP DE",
            cycles: 3,
            size: 1,
            flags: vec![],
            micro_ops: vec![
                MCycleOp::Main(MicroOp::Read8Inc(Registers8Bit::Z, Registers16Bit::SP)),
                MCycleOp::Main(MicroOp::Read8Inc(Registers8Bit::W, Registers16Bit::SP)),
                MCycleOp::End(MicroOp::Ld16(Registers16Bit::DE, Registers16Bit::WZ)),
            ],
        }),
        0xD2 => Some(Instruction {
            opcode: 0xD2,
            name: "JP NC, imm16",
            cycles: 4,
            size: 3,
            flags: vec![],
            micro_ops: vec![
                MCycleOp::Main(MicroOp::Fetch8(Registers8Bit::Z)),
                MCycleOp::Cc(MicroOp::Fetch8(Registers8Bit::W), CheckCondition::NC, 3),
                MCycleOp::End(MicroOp::Idle),
                MCycleOp::Main(MicroOp::Ld16(Registers16Bit::PC, Registers16Bit::WZ)),
                MCycleOp::End(MicroOp::Idle),
            ],
        }),
        0xD4 => Some(Instruction {
            opcode: 0xD4,
            name: "CALL NC, imm16",
            cycles: 6,
            size: 3,
            flags: vec![],
            micro_ops: vec![
                MCycleOp::Main(MicroOp::Fetch8(Registers8Bit::Z)),
                MCycleOp::Cc(MicroOp::Fetch8(Registers8Bit::W), CheckCondition::NC, 3),
                MCycleOp::End(MicroOp::Idle),
                MCycleOp::Main(MicroOp::Dec16(Registers16Bit::SP)),
                MCycleOp::Main(MicroOp::Write16msbDec(Registers16Bit::SP, Registers16Bit::PC)),
                MCycleOp::Main(MicroOp::Write16lsb(Registers16Bit::SP, Registers16Bit::PC)),
                MCycleOp::End(MicroOp::Ld16(Registers16Bit::PC, Registers16Bit::WZ)),
            ],
        }),
        0xD5 => Some(Instruction {
            opcode: 0xD5,
            name: "PUSH DE",
            cycles: 4,
            size: 1,
            flags: vec![],
            micro_ops: vec![
                MCycleOp::Main(MicroOp::Dec16(Registers16Bit::SP)),
                MCycleOp::Main(MicroOp::Write8Dec(Registers16Bit::SP, Registers8Bit::D)),
                MCycleOp::Main(MicroOp::Write8(Registers16Bit::SP, Registers8Bit::E)),
                MCycleOp::End(MicroOp::Idle),
            ],
        }),
        0xD6 => Some(Instruction {
            opcode: 0xD6,
            name: "SUB A, imm8",
            cycles: 2,
            size: 2,
            flags: vec![FlagBits::Z, FlagBits::N, FlagBits::H, FlagBits::C],
            micro_ops: vec![
                MCycleOp::Main(MicroOp::Fetch8(Registers8Bit::Z)),
                MCycleOp::End(MicroOp::Alu(AluOp::Sub(Registers8Bit::A, Registers8Bit::Z))),
            ],
        }),
        0xD7 => Some(Instruction {
            opcode: 0xD7,
            name: "RST $10",
            cycles: 4,
            size: 1,
            flags: vec![],
            micro_ops: vec![
                MCycleOp::Main(MicroOp::Dec16(Registers16Bit::SP)),
                MCycleOp::Main(MicroOp::Write16msbDec(Registers16Bit::SP, Registers16Bit::PC)),
                MCycleOp::Main(MicroOp::Write16lsb(Registers16Bit::SP, Registers16Bit::PC)),
                MCycleOp::End(MicroOp::JumpVector(VectorAddress::V2)),
            ],
        }),
        0xD8 => Some(Instruction {
            opcode: 0xD8,
            name: "RET C",
            cycles: 5,
            size: 1,
            flags: vec![],
            micro_ops: vec![
                MCycleOp::Cc(MicroOp::Idle, CheckCondition::C, 2),
                MCycleOp::End(MicroOp::Idle),
                MCycleOp::Main(MicroOp::Read16lsbInc(Registers16Bit::WZ, Registers16Bit::SP)),
                MCycleOp::Main(MicroOp::Read16msbInc(Registers16Bit::WZ, Registers16Bit::SP)),
                MCycleOp::Main(MicroOp::Ld16(Registers16Bit::PC, Registers16Bit::WZ)),
                MCycleOp::End(MicroOp::Idle),
            ],
        }),
        0xD9 => Some(Instruction {
            opcode: 0xD9,
            name: "RETI",
            cycles: 4,
            size: 1,
            flags: vec![],
            micro_ops: vec![
                MCycleOp::Main(MicroOp::Read16lsbInc(Registers16Bit::WZ, Registers16Bit::SP)),
                MCycleOp::Main(MicroOp::Read16msbInc(Registers16Bit::WZ, Registers16Bit::SP)),
                MCycleOp::Main(MicroOp::Ld16(Registers16Bit::PC, Registers16Bit::WZ)),
                MCycleOp::End(MicroOp::ImeEnabled(true)),
            ],
        }),
        0xDA => Some(Instruction {
            opcode: 0xDA,
            name: "JP C, imm16",
            cycles: 4,
            size: 3,
            flags: vec![],
            micro_ops: vec![
                MCycleOp::Main(MicroOp::Fetch8(Registers8Bit::Z)),
                MCycleOp::Cc(MicroOp::Fetch8(Registers8Bit::W), CheckCondition::C, 3),
                MCycleOp::End(MicroOp::Idle),
                MCycleOp::Main(MicroOp::Ld16(Registers16Bit::PC, Registers16Bit::WZ)),
                MCycleOp::End(MicroOp::Idle),
            ],
        }),
        0xDC => Some(Instruction {
            opcode: 0xDC,
            name: "CALL C, imm16",
            cycles: 6,
            size: 3,
            flags: vec![],
            micro_ops: vec![
                MCycleOp::Main(MicroOp::Fetch8(Registers8Bit::Z)),
                MCycleOp::Cc(MicroOp::Fetch8(Registers8Bit::W), CheckCondition::C, 3),
                MCycleOp::End(MicroOp::Idle),
                MCycleOp::Main(MicroOp::Dec16(Registers16Bit::SP)),
                MCycleOp::Main(MicroOp::Write16msbDec(Registers16Bit::SP, Registers16Bit::PC)),
                MCycleOp::Main(MicroOp::Write16lsb(Registers16Bit::SP, Registers16Bit::PC)),
                MCycleOp::End(MicroOp::Ld16(Registers16Bit::PC, Registers16Bit::WZ)),
            ],
        }),
        0xDE => Some(Instruction {
            opcode: 0xDE,
            name: "SBC A, imm8",
            cycles: 2,
            size: 2,
            flags: vec![FlagBits::Z, FlagBits::N, FlagBits::H, FlagBits::C],
            micro_ops: vec![
                MCycleOp::Main(MicroOp::Fetch8(Registers8Bit::Z)),
                MCycleOp::End(MicroOp::Alu(AluOp::Sbc(Registers8Bit::A, Registers8Bit::Z))),
            ],
        }),
        0xDF => Some(Instruction {
            opcode: 0xDF,
            name: "RST $18",
            cycles: 4,
            size: 1,
            flags: vec![],
            micro_ops: vec![
                MCycleOp::Main(MicroOp::Dec16(Registers16Bit::SP)),
                MCycleOp::Main(MicroOp::Write16msbDec(Registers16Bit::SP, Registers16Bit::PC)),
                MCycleOp::Main(MicroOp::Write16lsb(Registers16Bit::SP, Registers16Bit::PC)),
                MCycleOp::End(MicroOp::JumpVector(VectorAddress::V3)),
            ],
        }),
        0xE0 => Some(Instruction {
            opcode: 0xE0,
            name: "LDH [imm8], A",
            cycles: 3,
            size: 2,
            flags: vec![],
            micro_ops: vec![
                MCycleOp::Main(MicroOp::Fetch8(Registers8Bit::Z)),
                MCycleOp::Main(MicroOp::Write8H(Registers8Bit::Z, Registers8Bit::A)),
                MCycleOp::End(MicroOp::Idle),
            ],
        }),
        0xE1 => Some(Instruction {
            opcode: 0xE1,
            name: "POP HL",
            cycles: 3,
            size: 1,
            flags: vec![],
            micro_ops: vec![
                MCycleOp::Main(MicroOp::Read8Inc(Registers8Bit::Z, Registers16Bit::SP)),
                MCycleOp::Main(MicroOp::Read8Inc(Registers8Bit::W, Registers16Bit::SP)),
                MCycleOp::End(MicroOp::Ld16(Registers16Bit::HL, Registers16Bit::WZ)),
            ],
        }),
        0xE2 => Some(Instruction {
            opcode: 0xE2,
            name: "LDH [C], A",
            cycles: 2,
            size: 1,
            flags: vec![],
            micro_ops: vec![
                MCycleOp::Main(MicroOp::Write8H(Registers8Bit::C, Registers8Bit::A)),
                MCycleOp::End(MicroOp::Idle),
            ],
        }),
        0xE5 => Some(Instruction {
            opcode: 0xE5,
            name: "PUSH HL",
            cycles: 4,
            size: 1,
            flags: vec![],
            micro_ops: vec![
                MCycleOp::Main(MicroOp::Dec16(Registers16Bit::SP)),
                MCycleOp::Main(MicroOp::Write8Dec(Registers16Bit::SP, Registers8Bit::H)),
                MCycleOp::Main(MicroOp::Write8(Registers16Bit::SP, Registers8Bit::L)),
                MCycleOp::End(MicroOp::Idle),
            ],
        }),
        0xE6 => Some(Instruction {
            opcode: 0xE6,
            name: "AND A, imm8",
            cycles: 2,
            size: 2,
            flags: vec![FlagBits::Z, FlagBits::N, FlagBits::H, FlagBits::C],
            micro_ops: vec![
                MCycleOp::Main(MicroOp::Fetch8(Registers8Bit::Z)),
                MCycleOp::End(MicroOp::Alu(AluOp::And(Registers8Bit::A, Registers8Bit::Z))),
            ],
        }),
        0xE7 => Some(Instruction {
            opcode: 0xE7,
            name: "RST $20",
            cycles: 4,
            size: 1,
            flags: vec![],
            micro_ops: vec![
                MCycleOp::Main(MicroOp::Dec16(Registers16Bit::SP)),
                MCycleOp::Main(MicroOp::Write16msbDec(Registers16Bit::SP, Registers16Bit::PC)),
                MCycleOp::Main(MicroOp::Write16lsb(Registers16Bit::SP, Registers16Bit::PC)),
                MCycleOp::End(MicroOp::JumpVector(VectorAddress::V4)),
            ],
        }),
        0xE8 => Some(Instruction {
            opcode: 0xE8,
            name: "ADD SP, e8",
            cycles: 4,
            size: 2,
            flags: vec![FlagBits::N, FlagBits::H, FlagBits::C],
            micro_ops: vec![
                MCycleOp::Main(MicroOp::Fetch8(Registers8Bit::Z)),
                MCycleOp::Main(MicroOp::SumSignedByte16(Registers16Bit::SP, Registers16Bit::WZ, true)),
                MCycleOp::Main(MicroOp::Idle),
                MCycleOp::End(MicroOp::Idu(IduOp::Pass(Registers16Bit::SP, Registers16Bit::WZ))),
            ],
        }),
        0xE9 => Some(Instruction {
            opcode: 0xE9,
            name: "JP HL",
            cycles: 1,
            size: 1,
            flags: vec![],
            micro_ops: vec![
                MCycleOp::End(MicroOp::Idu(IduOp::Pass(Registers16Bit::PC, Registers16Bit::HL))),
            ],
        }),
        0xEA => Some(Instruction {
            opcode: 0xEA,
            name: "LD [imm16], A",
            cycles: 4,
            size: 3,
            flags: vec![],
            micro_ops: vec![
                MCycleOp::Main(MicroOp::Fetch8(Registers8Bit::Z)),
                MCycleOp::Main(MicroOp::Fetch8(Registers8Bit::W)),
                MCycleOp::Main(MicroOp::Write8(Registers16Bit::WZ, Registers8Bit::A)),
                MCycleOp::End(MicroOp::Idle),
            ],
        }),
        0xEE => Some(Instruction {
            opcode: 0xEE,
            name: "XOR A, imm8",
            cycles: 2,
            size: 2,
            flags: vec![FlagBits::Z, FlagBits::N, FlagBits::H, FlagBits::C],
            micro_ops: vec![
                MCycleOp::Main(MicroOp::Fetch8(Registers8Bit::Z)),
                MCycleOp::End(MicroOp::Alu(AluOp::Xor(Registers8Bit::A, Registers8Bit::Z))),
            ],
        }),
        0xEF => Some(Instruction {
            opcode: 0xEF,
            name: "RST $28",
            cycles: 4,
            size: 1,
            flags: vec![],
            micro_ops: vec![
                MCycleOp::Main(MicroOp::Dec16(Registers16Bit::SP)),
                MCycleOp::Main(MicroOp::Write16msbDec(Registers16Bit::SP, Registers16Bit::PC)),
                MCycleOp::Main(MicroOp::Write16lsb(Registers16Bit::SP, Registers16Bit::PC)),
                MCycleOp::End(MicroOp::JumpVector(VectorAddress::V5)),
            ],
        }),
        0xF0 => Some(Instruction {
            opcode: 0xF0,
            name: "LDH A, [imm8]",
            cycles: 3,
            size: 2,
            flags: vec![],
            micro_ops: vec![
                MCycleOp::Main(MicroOp::Fetch8(Registers8Bit::Z)),
                MCycleOp::Main(MicroOp::Read8H(Registers8Bit::A, Registers8Bit::Z)),
                MCycleOp::End(MicroOp::Idle),
            ],
        }),
        0xF1 => Some(Instruction {
            opcode: 0xF1,
            name: "POP AF",
            cycles: 3,
            size: 1,
            flags: vec![FlagBits::Z, FlagBits::N, FlagBits::H, FlagBits::C],
            micro_ops: vec![
                MCycleOp::Main(MicroOp::Read8Inc(Registers8Bit::Z, Registers16Bit::SP)),
                MCycleOp::Main(MicroOp::Read8Inc(Registers8Bit::W, Registers16Bit::SP)),
                MCycleOp::End(MicroOp::Ld16(Registers16Bit::AF, Registers16Bit::WZ)),
            ],
        }),
        0xF2 => Some(Instruction {
            opcode: 0xF2,
            name: "LDH A, [C]",
            cycles: 2,
            size: 1,
            flags: vec![],
            micro_ops: vec![
                MCycleOp::Main(MicroOp::Read8H(Registers8Bit::A, Registers8Bit::C)),
                MCycleOp::End(MicroOp::Idle),
            ],
        }),
        0xF3 => Some(Instruction {
            opcode: 0xF3,
            name: "DI",
            cycles: 1,
            size: 1,
            flags: vec![],
            micro_ops: vec![
                MCycleOp::End(MicroOp::ImeEnabled(false)),
            ],
        }),
        0xF5 => Some(Instruction {
            opcode: 0xF5,
            name: "PUSH AF",
            cycles: 4,
            size: 1,
            flags: vec![],
            micro_ops: vec![
                MCycleOp::Main(MicroOp::Dec16(Registers16Bit::SP)),
                MCycleOp::Main(MicroOp::Write8Dec(Registers16Bit::SP, Registers8Bit::A)),
                MCycleOp::Main(MicroOp::Write8(Registers16Bit::SP, Registers8Bit::F)),
                MCycleOp::End(MicroOp::Idle),
            ],
        }),
        0xF6 => Some(Instruction {
            opcode: 0xF6,
            name: "OR A, imm8",
            cycles: 2,
            size: 2,
            flags: vec![FlagBits::Z, FlagBits::N, FlagBits::H, FlagBits::C],
            micro_ops: vec![
                MCycleOp::Main(MicroOp::Fetch8(Registers8Bit::Z)),
                MCycleOp::End(MicroOp::Alu(AluOp::Or(Registers8Bit::A, Registers8Bit::Z))),
            ],
        }),
        0xF7 => Some(Instruction {
            opcode: 0xF7,
            name: "RST $30",
            cycles: 4,
            size: 1,
            flags: vec![],
            micro_ops: vec![
                MCycleOp::Main(MicroOp::Dec16(Registers16Bit::SP)),
                MCycleOp::Main(MicroOp::Write16msbDec(Registers16Bit::SP, Registers16Bit::PC)),
                MCycleOp::Main(MicroOp::Write16lsb(Registers16Bit::SP, Registers16Bit::PC)),
                MCycleOp::End(MicroOp::JumpVector(VectorAddress::V6)),
            ],
        }),
        0xF8 => Some(Instruction {
            opcode: 0xF8,
            name: "LD HL, SP + e8",
            cycles: 3,
            size: 2,
            flags: vec![FlagBits::Z, FlagBits::N, FlagBits::H, FlagBits::C],
            micro_ops: vec![
                MCycleOp::Main(MicroOp::Fetch8(Registers8Bit::Z)),
                MCycleOp::Main(MicroOp::SumSignedByte16(Registers16Bit::SP, Registers16Bit::WZ, true)),
                MCycleOp::End(MicroOp::Idu(IduOp::Pass(Registers16Bit::HL, Registers16Bit::WZ))),
            ],
        }),
        0xF9 => Some(Instruction {
            opcode: 0xF9,
            name: "LD SP, HL",
            cycles: 2,
            size: 1,
            flags: vec![],
            micro_ops: vec![
                MCycleOp::Main(MicroOp::Ld16(Registers16Bit::SP, Registers16Bit::HL)),
                MCycleOp::End(MicroOp::Idle),
            ],
        }),
        0xFA => Some(Instruction {
            opcode: 0xFA,
            name: "LD A, [imm16]",
            cycles: 4,
            size: 3,
            flags: vec![],
            micro_ops: vec![
                MCycleOp::Main(MicroOp::Fetch8(Registers8Bit::Z)),
                MCycleOp::Main(MicroOp::Fetch8(Registers8Bit::W)),
                MCycleOp::Main(MicroOp::Read8(Registers8Bit::Z, Registers16Bit::WZ)),
                MCycleOp::End(MicroOp::Ld8(Registers8Bit::A, Registers8Bit::Z)),
            ],
        }),
        0xFB => Some(Instruction {
            opcode: 0xFB,
            name: "EI",
            cycles: 1,
            size: 1,
            flags: vec![],
            micro_ops: vec![
                MCycleOp::End(MicroOp::ImeEnabled(true)),
            ],
        }),
        0xFE => Some(Instruction {
            opcode: 0xFE,
            name: "CP A, imm8",
            cycles: 2,
            size: 2,
            flags: vec![FlagBits::Z, FlagBits::N, FlagBits::H, FlagBits::C],
            micro_ops: vec![
                MCycleOp::Main(MicroOp::Fetch8(Registers8Bit::Z)),
                MCycleOp::End(MicroOp::Alu(AluOp::Cp(Registers8Bit::A, Registers8Bit::Z))),
            ],
        }),
        0xFF => Some(Instruction {
            opcode: 0xFF,
            name: "RST $38",
            cycles: 4,
            size: 1,
            flags: vec![],
            micro_ops: vec![
                MCycleOp::Main(MicroOp::Dec16(Registers16Bit::SP)),
                MCycleOp::Main(MicroOp::Write16msbDec(Registers16Bit::SP, Registers16Bit::PC)),
                MCycleOp::Main(MicroOp::Write16lsb(Registers16Bit::SP, Registers16Bit::PC)),
                MCycleOp::End(MicroOp::JumpVector(VectorAddress::V7)),
            ],
        }),
        _ => None,
    }
}

/// The table entries of opcodes 0x00 ..= 0x3F.
pub open spec fn opcode_spec_00_3f(opcode: u8) -> Option<OpcodeSpec> {
    match opcode {
        0x00 => Some(OpcodeSpec {
            name: "NOP",
            cycles: 1,
            size: 1,
            flags: seq![],
            micro_ops: seq![
                MCycleOp::End(MicroOp::Idle),
            ],
        }),
        0x01 => Some(OpcodeSpec {
            name: "LD BC, imm16",
            cycles: 3,
            size: 3,
            flags: seq![],
            micro_ops: seq![
                MCycleOp::Main(MicroOp::Fetch8(Registers8Bit::Z)),
                MCycleOp::Main(MicroOp::Fetch8(Registers8Bit::W)),
                MCycleOp::End(MicroOp::Ld16(Registers16Bit::BC, Registers16Bit::WZ)),
            ],
        }),
        0x02 => Some(OpcodeSpec {
            name: "LD [BC], A",
            cycles: 2,
            size: 1,
            flags: seq![],
            micro_ops: seq![
                MCycleOp::Main(MicroOp::Write8(Registers16Bit::BC, Registers8Bit::A)),
                MCycleOp::End(MicroOp::Idle),
            ],
        }),
        0x03 => Some(OpcodeSpec {
            name: "INC BC",
            cycles: 2,
            size: 1,
            flags: seq![],
            micro_ops: seq![
                MCycleOp::Main(MicroOp::Inc16(Registers16Bit::BC)),
                MCycleOp::End(MicroOp::Idle),
            ],
        }),
        0x04 => Some(OpcodeSpec {
            name: "INC B",
            cycles: 1,
            size: 1,
            flags: seq![FlagBits::Z, FlagBits::N, FlagBits::H],
            micro_ops: seq![
                MCycleOp::End(MicroOp::Alu(AluOp::Inc(Registers8Bit::B))),
            ],
        }),
        0x05 => Some(OpcodeSpec {
            name: "DEC B",
            cycles: 1,
            size: 1,
            flags: seq![FlagBits::Z, FlagBits::N, FlagBits::H],
            micro_ops: seq![
                MCycleOp::End(MicroOp::Alu(AluOp::Dec(Registers8Bit::B))),
            ],
        }),
        0x06 => Some(OpcodeSpec {
            name: "LD B, imm8",
            cycles: 2,
            size: 2,
            flags: seq![],
            micro_ops: seq![
                MCycleOp::Main(MicroOp::Fetch8(Registers8Bit::Z)),
                MCycleOp::End(MicroOp::Ld8(Registers8Bit::B, Registers8Bit::Z)),
            ],
        }),
        0x07 => Some(OpcodeSpec {
            name: "RLCA",
            cycles: 1,
            size: 1,
            flags: seq![FlagBits::Z, FlagBits::N, FlagBits::H, FlagBits::C],
            micro_ops: seq![
                MCycleOp::End(MicroOp::Alu(AluOp::Rlca)),
            ],
        }),
        0x08 => Some(OpcodeSpec {
            name: "LD [a16], SP",
            cycles: 5,
            size: 3,
            flags: seq![],
            micro_ops: seq![
                MCycleOp::Main(MicroOp::Fetch8(Registers8Bit::Z)),
                MCycleOp::Main(MicroOp::Fetch8(Registers8Bit::W)),
                MCycleOp::Main(MicroOp::Write16lsbInc(Registers16Bit::WZ, Registers16Bit::SP)),
                MCycleOp::Main(MicroOp::Write16msb(Registers16Bit::WZ, Registers16Bit::SP)),
                MCycleOp::End(MicroOp::Idle),
            ],
        }),
        0x09 => Some(OpcodeSpec {
            name: "ADD HL, BC",
            cycles: 2,
            size: 1,
            flags: seq![FlagBits::N, FlagBits::H, FlagBits::C],
            micro_ops: seq![
                MCycleOp::Main(MicroOp::Alu(AluOp::AddLsb(Registers16Bit::HL, Registers16Bit::BC))),
                MCycleOp::End(MicroOp::Alu(AluOp::AddMsb(Registers16Bit::HL, Registers16Bit::BC))),
            ],
        }),
        0x0A => Some(OpcodeSpec {
            name: "LD A, [BC]",
            cycles: 2,
            size: 1,
            flags: seq![],
            micro_ops: seq![
                MCycleOp::Main(MicroOp::Read8(Registers8Bit::Z, Registers16Bit::BC)),
                MCycleOp::End(MicroOp::Ld8(Registers8Bit::A, Registers8Bit::Z)),
            ],
        }),
        0x0B => Some(OpcodeSpec {
            name: "DEC BC",
            cycles: 2,
            size: 1,
            flags: seq![],
            micro_ops: seq![
                MCycleOp::Main(MicroOp::Dec16(Registers16Bit::BC)),
                MCycleOp::End(MicroOp::Idle),
            ],
        }),
        0x0C => Some(OpcodeSpec {
            name: "INC C",
            cycles: 1,
            size: 1,
            flags: seq![FlagBits::Z, FlagBits::N, FlagBits::H],
            micro_ops: seq![
                MCycleOp::End(MicroOp::Alu(AluOp::Inc(Registers8Bit::C))),
            ],
        }),
        0x0D => Some(OpcodeSpec {
            name: "DEC C",
            cycles: 1,
            size: 1,
            flags: seq![FlagBits::Z, FlagBits::N, FlagBits::H],
            micro_ops: seq![
                MCycleOp::End(MicroOp::Alu(AluOp::Dec(Registers8Bit::C))),
            ],
        }),
        0x0E => Some(OpcodeSpec {
            name: "LD C, imm8",
            cycles: 2,
            size: 2,
            flags: seq![],
            micro_ops: seq![
                MCycleOp::Main(MicroOp::Fetch8(Registers8Bit::Z)),
                MCycleOp::End(MicroOp::Ld8(Registers8Bit::C, Registers8Bit::Z)),
            ],
        }),
        0x0F => Some(OpcodeSpec {
            name: "RRCA",
            cycles: 1,
            size: 1,
            flags: seq![FlagBits::Z, FlagBits::N, FlagBits::H, FlagBits::C],
            micro_ops: seq![
                MCycleOp::End(MicroOp::Alu(AluOp::Rrca)),
            ],
        }),
        0x10 => Some(OpcodeSpec {
            name: "STOP imm8",
            cycles: 1,
            size: 2,
            flags: seq![],
            micro_ops: seq![
                MCycleOp::End(MicroOp::Idle),
            ],
        }),
        0x11 => Some(OpcodeSpec {
            name: "LD DE, imm16",
            cycles: 3,
            size: 3,
            flags: seq![],
            micro_ops: seq![
                MCycleOp::Main(MicroOp::Fetch8(Registers8Bit::Z)),
                MCycleOp::Main(MicroOp::Fetch8(Registers8Bit::W)),
                MCycleOp::End(MicroOp::Ld16(Registers16Bit::DE, Registers16Bit::WZ)),
            ],
        }),
        0x12 => Some(OpcodeSpec {
            name: "LD [DE], A",
            cycles: 2,
            size: 1,
            flags: seq![],
            micro_ops: seq![
                MCycleOp::Main(MicroOp::Write8(Registers16Bit::DE, Registers8Bit::A)),
                MCycleOp::End(MicroOp::Idle),
            ],
        }),
        0x13 => Some(OpcodeSpec {
            name: "INC DE",
            cycles: 2,
            size: 1,
            flags: seq![],
            micro_ops: seq![
                MCycleOp::Main(MicroOp::Inc16(Registers16Bit::DE)),
                MCycleOp::End(MicroOp::Idle),
            ],
        }),
        0x14 => Some(OpcodeSpec {
            name: "INC D",
            cycles: 1,
            size: 1,
            flags: seq![FlagBits::Z, FlagBits::N, FlagBits::H],
            micro_ops: seq![
                MCycleOp::End(MicroOp::Alu(AluOp::Inc(Registers8Bit::D))),
            ],
        }),
        0x15 => Some(OpcodeSpec {
            name: "DEC D",
            cycles: 1,
            size: 1,
            flags: seq![FlagBits::Z, FlagBits::N, FlagBits::H],
            micro_ops: seq![
                MCycleOp::End(MicroOp::Alu(AluOp::Dec(Registers8Bit::D))),
            ],
        }),
        0x16 => Some(OpcodeSpec {
            name: "LD D, imm8",
            cycles: 2,
            size: 2,
            flags: seq![],
            micro_ops: seq![
                MCycleOp::Main(MicroOp::Fetch8(Registers8Bit::Z)),
                MCycleOp::End(MicroOp::Ld8(Registers8Bit::D, Registers8Bit::Z)),
            ],
        }),
        0x17 => Some(OpcodeSpec {
            name: "RLA",
            cycles: 1,
            size: 1,
            flags: seq![FlagBits::Z, FlagBits::N, FlagBits::H, FlagBits::C],
            micro_ops: seq![
                MCycleOp::End(MicroOp::Alu(AluOp::Rla)),
            ],
        }),
        0x18 => Some(OpcodeSpec {
            name: "JR e8",
            cycles: 3,
            size: 2,
            flags: seq![],
            micro_ops: seq![
                MCycleOp::Main(MicroOp::Fetch8(Registers8Bit::Z)),
                MCycleOp::Main(MicroOp::SumSignedByte16(Registers16Bit::PC, Registers16Bit::WZ, false)),
                MCycleOp::End(MicroOp::Idu(IduOp::Pass(Registers16Bit::PC, Registers16Bit::WZ))),
            ],
        }),
        0x19 => Some(OpcodeSpec {
            name: "ADD HL, DE",
            cycles: 2,
            size: 1,
            flags: seq![FlagBits::N, FlagBits::H, FlagBits::C],
            micro_ops: seq![
                MCycleOp::Main(MicroOp::Alu(AluOp::AddLsb(Registers16Bit::HL, Registers16Bit::DE))),
                MCycleOp::End(MicroOp::Alu(AluOp::AddMsb(Registers16Bit::HL, Registers16Bit::DE))),
            ],
        }),
        0x1A => Some(OpcodeSpec {
            name: "LD A, [DE]",
            cycles: 2,
            size: 1,
            flags: seq![],
            micro_ops: seq![
                MCycleOp::Main(MicroOp::Read8(Registers8Bit::Z, Registers16Bit::DE)),
                MCycleOp::End(MicroOp::Ld8(Registers8Bit::A, Registers8Bit::Z)),
            ],
        }),
        0x1B => Some(OpcodeSpec {
            name: "DEC DE",
            cycles: 2,
            size: 1,
            flags: seq![],
            micro_ops: seq![
                MCycleOp::Main(MicroOp::Dec16(Registers16Bit::DE)),
                MCycleOp::End(MicroOp::Idle),
            ],
        }),
        0x1C => Some(OpcodeSpec {
            name: "INC E",
            cycles: 1,
            size: 1,
            flags: seq![FlagBits::Z, FlagBits::N, FlagBits::H],
            micro_ops: seq![
                MCycleOp::End(MicroOp::Alu(AluOp::Inc(Registers8Bit::E))),
            ],
        }),
        0x1D => Some(OpcodeSpec {
            name: "DEC E",
            cycles: 1,
            size: 1,
            flags: seq![FlagBits::Z, FlagBits::N, FlagBits::H],
            micro_ops: seq![
                MCycleOp::End(MicroOp::Alu(AluOp::Dec(Registers8Bit::E))),
            ],
        }),
        0x1E => Some(OpcodeSpec {
            name: "LD E, imm8",
            cycles: 2,
            size: 2,
            flags: seq![],
            micro_ops: seq![
                MCycleOp::Main(MicroOp::Fetch8(Registers8Bit::Z)),
                MCycleOp::End(MicroOp::Ld8(Registers8Bit::E, Registers8Bit::Z)),
            ],
        }),
        0x1F => Some(OpcodeSpec {
            name: "RRA",
            cycles: 1,
            size: 1,
            flags: seq![FlagBits::Z, FlagBits::N, FlagBits::H, FlagBits::C],
            micro_ops: seq![
                MCycleOp::End(MicroOp::Alu(AluOp::Rra)),
            ],
        }),
        0x20 => Some(OpcodeSpec {
            name: "JR NZ, e8",
            cycles: 3,
            size: 2,
            flags: seq![],
            micro_ops: seq![
                MCycleOp::Cc(MicroOp::Fetch8(Registers8Bit::Z), CheckCondition::NZ, 2),
                MCycleOp::End(MicroOp::Idle),
                MCycleOp::Main(MicroOp::SumSignedByte16(Registers16Bit::PC, Registers16Bit::WZ, false)),
                MCycleOp::End(MicroOp::Idu(IduOp::Pass(Registers16Bit::PC, Registers16Bit::WZ))),
            ],
        }),
        0x21 => Some(OpcodeSpec {
            name: "LD HL, imm16",
            cycles: 3,
            size: 3,
            flags: seq![],
            micro_ops: seq![
                MCycleOp::Main(MicroOp::Fetch8(Registers8Bit::Z)),
                MCycleOp::Main(MicroOp::Fetch8(Registers8Bit::W)),
                MCycleOp::End(MicroOp::Ld16(Registers16Bit::HL, Registers16Bit::WZ)),
            ],
        }),
        0x22 => Some(OpcodeSpec {
            name: "LD [HL+], A",
            cycles: 2,
            size: 1,
            flags: seq![],
            micro_ops: seq![
                MCycleOp::Main(MicroOp::Write8Inc(Registers16Bit::HL, Registers8Bit::A)),
                MCycleOp::End(MicroOp::Idle),
            ],
        }),
        0x23 => Some(OpcodeSpec {
            name: "INC HL",
            cycles: 2,
            size: 1,
            flags: seq![],
            micro_ops: seq![
                MCycleOp::Main(MicroOp::Inc16(Registers16Bit::HL)),
                MCycleOp::End(MicroOp::Idle),
            ],
        }),
        0x24 => Some(OpcodeSpec {
            name: "INC H",
            cycles: 1,
            size: 1,
            flags: seq![FlagBits::Z, FlagBits::N, FlagBits::H],
            micro_ops: seq![
                MCycleOp::End(MicroOp::Alu(AluOp::Inc(Registers8Bit::H))),
            ],
        }),
        0x25 => Some(OpcodeSpec {
            name: "DEC H",
            cycles: 1,
            size: 1,
            flags: seq![FlagBits::Z, FlagBits::N, FlagBits::H],
            micro_ops: seq![
                MCycleOp::End(MicroOp::Alu(AluOp::Dec(Registers8Bit::H))),
            ],
        }),
        0x26 => Some(OpcodeSpec {
            name: "LD H, imm8",
            cycles: 2,
            size: 2,
            flags: seq![],
            micro_ops: seq![
                MCycleOp::Main(MicroOp::Fetch8(Registers8Bit::Z)),
                MCycleOp::End(MicroOp::Ld8(Registers8Bit::H, Registers8Bit::Z)),
            ],
        }),
        0x27 => Some(OpcodeSpec {
            name: "DAA",
            cycles: 1,
            size: 1,
            flags: seq![FlagBits::Z, FlagBits::H, FlagBits::C],
            micro_ops: seq![
                MCycleOp::End(MicroOp::Alu(AluOp::Daa)),
            ],
        }),
        0x28 => Some(OpcodeSpec {
            name: "JR Z, e8",
            cycles: 3,
            size: 2,
            flags: seq![],
            micro_ops: seq![
                MCycleOp::Cc(MicroOp::Fetch8(Registers8Bit::Z), CheckCondition::Z, 2),
                MCycleOp::End(MicroOp::Idle),
                MCycleOp::Main(MicroOp::SumSignedByte16(Registers16Bit::PC, Registers16Bit::WZ, false)),
                MCycleOp::End(MicroOp::Idu(IduOp::Pass(Registers16Bit::PC, Registers16Bit::WZ))),
            ],
        }),
        0x29 => Some(OpcodeSpec {
            name: "ADD HL, HL",
            cycles: 2,
            size: 1,
            flags: seq![FlagBits::N, FlagBits::H, FlagBits::C],
            micro_ops: seq![
                MCycleOp::Main(MicroOp::Alu(AluOp::AddLsb(Registers16Bit::HL, Registers16Bit::HL))),
                MCycleOp::End(MicroOp::Alu(AluOp::AddMsb(Registers16Bit::HL, Registers16Bit::HL))),
            ],
        }),
        0x2A => Some(OpcodeSpec {
            name: "LD A, [HL+]",
            cycles: 2,
            size: 1,
            flags: seq![],
            micro_ops: seq![
                MCycleOp::Main(MicroOp::Read8Inc(Registers8Bit::Z, Registers16Bit::HL)),
                MCycleOp::End(MicroOp::Ld8(Registers8Bit::A, Registers8Bit::Z)),
            ],
        }),
        0x2B => Some(OpcodeSpec {
            name: "DEC HL",
            cycles: 2,
            size: 1,
            flags: seq![],
            micro_ops: seq![
                MCycleOp::Main(MicroOp::Dec16(Registers16Bit::HL)),
                MCycleOp::End(MicroOp::Idle),
            ],
        }),
        0x2C => Some(OpcodeSpec {
            name: "INC L",
            cycles: 1,
            size: 1,
            flags: seq![FlagBits::Z, FlagBits::N, FlagBits::H],
            micro_ops: seq![
                MCycleOp::End(MicroOp::Alu(AluOp::Inc(Registers8Bit::L))),
            ],
        }),
        0x2D => Some(OpcodeSpec {
            name: "DEC L",
            cycles: 1,
            size: 1,
            flags: seq![FlagBits::Z, FlagBits::N, FlagBits::H],
            micro_ops: seq![
                MCycleOp::End(MicroOp::Alu(AluOp::Dec(Registers8Bit::L))),
            ],
        }),
        0x2E => Some(OpcodeSpec {
            name: "LD L, imm8",
            cycles: 2,
            size: 2,
            flags: seq![],
            micro_ops: seq![
                MCycleOp::Main(MicroOp::Fetch8(Registers8Bit::Z)),
                MCycleOp::End(MicroOp::Ld8(Registers8Bit::L, Registers8Bit::Z)),
            ],
        }),
        0x2F => Some(OpcodeSpec {
            name: "CPL",
            cycles: 1,
            size: 1,
            flags: seq![],
            micro_ops: seq![
                MCycleOp::End(MicroOp::Alu(AluOp::Cpl(Registers8Bit::A))),
            ],
        }),
        0x30 => Some(OpcodeSpec {
            name: "JR NC, e8",
            cycles: 3,
            size: 2,
            flags: seq![],
            micro_ops: seq![
                MCycleOp::Cc(MicroOp::Fetch8(Registers8Bit::Z), CheckCondition::NC, 2),
                MCycleOp::End(MicroOp::Idle),
                MCycleOp::Main(MicroOp::SumSignedByte16(Registers16Bit::PC, Registers16Bit::WZ, false)),
                MCycleOp::End(MicroOp::Idu(IduOp::Pass(Registers16Bit::PC, Registers16Bit::WZ))),
            ],
        }),
        0x31 => Some(OpcodeSpec {
            name: "LD SP, imm16",
            cycles: 3,
            size: 3,
            flags: seq![],
            micro_ops: seq![
                MCycleOp::Main(MicroOp::Fetch8(Registers8Bit::Z)),
                MCycleOp::Main(MicroOp::Fetch8(Registers8Bit::W)),
                MCycleOp::End(MicroOp::Ld16(Registers16Bit::SP, Registers16Bit::WZ)),
            ],
        }),
        0x32 => Some(OpcodeSpec {
            name: "LD [HL-], A",
            cycles: 2,
            size: 1,
            flags: seq![],
            micro_ops: seq![
                MCycleOp::Main(MicroOp::Write8Dec(Registers16Bit::HL, Registers8Bit::A)),
                MCycleOp::End(MicroOp::Idle),
            ],
        }),
        0x33 => Some(OpcodeSpec {
            name: "INC SP",
            cycles: 2,
            size: 1,
            flags: seq![],
            micro_ops: seq![
                MCycleOp::Main(MicroOp::Inc16(Registers16Bit::SP)),
                MCycleOp::End(MicroOp::Idle),
            ],
        }),
        0x34 => Some(OpcodeSpec {
            name: "INC [HL]",
            cycles: 3,
            size: 1,
            flags: seq![FlagBits::Z, FlagBits::N, FlagBits::H],
            micro_ops: seq![
                MCycleOp::Main(MicroOp::Read8(Registers8Bit::Z, Registers16Bit::HL)),
                MCycleOp::Main(MicroOp::AluAndWrite8(AluOp::Inc(Registers8Bit::Z), Registers16Bit::HL, Registers8Bit::Z)),
                MCycleOp::End(MicroOp::Idle),
            ],
        }),
        0x35 => Some(OpcodeSpec {
            name: "DEC [HL]",
            cycles: 3,
            size: 1,
            flags: seq![FlagBits::Z, FlagBits::N, FlagBits::H],
            micro_ops: seq![
                MCycleOp::Main(MicroOp::Read8(Registers8Bit::Z, Registers16Bit::HL)),
                MCycleOp::Main(MicroOp::AluAndWrite8(AluOp::Dec(Registers8Bit::Z), Registers16Bit::HL, Registers8Bit::Z)),
                MCycleOp::End(MicroOp::Idle),
            ],
        }),
        0x36 => Some(OpcodeSpec {
            name: "LD [HL], imm8",
            cycles: 3,
            size: 2,
            flags: seq![],
            micro_ops: seq![
                MCycleOp::Main(MicroOp::Fetch8(Registers8Bit::Z)),
                MCycleOp::Main(MicroOp::Write8(Registers16Bit::HL, Registers8Bit::Z)),
                MCycleOp::End(MicroOp::Idle),
            ],
        }),
        0x37 => Some(OpcodeSpec {
            name: "SCF",
            cycles: 1,
            size: 1,
            flags: seq![FlagBits::N, FlagBits::H, FlagBits::C],
            micro_ops: seq![
                MCycleOp::End(MicroOp::Alu(AluOp::SetFlags(SetFlagZ::Same, SetFlagN::Off, SetFlagH::Off, SetFlagC::On))),
            ],
        }),
        0x38 => Some(OpcodeSpec {
            name: "JR C, e8",
            cycles: 3,
            size: 2,
            flags: seq![],
            micro_ops: seq![
                MCycleOp::Cc(MicroOp::Fetch8(Registers8Bit::Z), CheckCondition::C, 2),
                MCycleOp::End(MicroOp::Idle),
                MCycleOp::Main(MicroOp::SumSignedByte16(Registers16Bit::PC, Registers16Bit::WZ, false)),
                MCycleOp::End(MicroOp::Idu(IduOp::Pass(Registers16Bit::PC, Registers16Bit::WZ))),
            ],
        }),
        0x39 => Some(OpcodeSpec {
            name: "ADD HL, SP",
            cycles: 2,
            size: 1,
            flags: seq![FlagBits::N, FlagBits::H, FlagBits::C],
            micro_ops: seq![
                MCycleOp::Main(MicroOp::Alu(AluOp::AddLsb(Registers16Bit::HL, Registers16Bit::SP))),
                MCycleOp::End(MicroOp::Alu(AluOp::AddMsb(Registers16Bit::HL, Registers16Bit::SP))),
            ],
        }),
        0x3A => Some(OpcodeSpec {
            name: "LD A, [HL-]",
            cycles: 2,
            size: 1,
            flags: seq![],
            micro_ops: seq![
                MCycleOp::Main(MicroOp::Read8Dec(Registers8Bit::Z, Registers16Bit::HL)),
                MCycleOp::End(MicroOp::Ld8(Registers8Bit::A, Registers8Bit::Z)),
            ],
        }),
        0x3B => Some(OpcodeSpec {
            name: "DEC SP",
            cycles: 2,
            size: 1,
            flags: seq![],
            micro_ops: seq![
                MCycleOp::Main(MicroOp::Dec16(Registers16Bit::SP)),
                MCycleOp::End(MicroOp::Idle),
            ],
        }),
        0x3C => Some(OpcodeSpec {
            name: "INC A",
            cycles: 1,
            size: 1,
            flags: seq![FlagBits::Z, FlagBits::N, FlagBits::H],
            micro_ops: seq![
                MCycleOp::End(MicroOp::Alu(AluOp::Inc(Registers8Bit::A))),
            ],
        }),
        0x3D => Some(OpcodeSpec {
            name: "DEC A",
            cycles: 1,
            size: 1,
            flags: seq![FlagBits::Z, FlagBits::N, FlagBits::H],
            micro_ops: seq![
                MCycleOp::End(MicroOp::Alu(AluOp::Dec(Registers8Bit::A))),
            ],
        }),
        0x3E => Some(OpcodeSpec {
            name: "LD A, imm8",
            cycles: 2,
            size: 2,
            flags: seq![],
            micro_ops: seq![
                MCycleOp::Main(MicroOp::Fetch8(Registers8Bit::Z)),
                MCycleOp::End(MicroOp::Ld8(Registers8Bit::A, Registers8Bit::Z)),
            ],
        }),
        0x3F => Some(OpcodeSpec {
            name: "CCF",
            cycles: 1,
            size: 1,
            flags: seq![FlagBits::N, FlagBits::H, FlagBits::C],
            micro_ops: seq![
                MCycleOp::End(MicroOp::Alu(AluOp::Ccf)),
            ],
        }),
        _ => None,
    }
}

/// The table entries of opcodes 0x40 ..= 0x7F.
pub open spec fn opcode_spec_40_7f(opcode: u8) -> Option<OpcodeSpec> {
    match opcode {
        0x40 => Some(OpcodeSpec {
            name: "LD B, B",
            cycles: 1,
            size: 1,
            flags: seq![],
            micro_ops: seq![
                MCycleOp::End(MicroOp::Ld8(Registers8Bit::B, Registers8Bit::B)),
            ],
        }),
        0x41 => Some(OpcodeSpec {
            name: "LD B, C",
            cycles: 1,
            size: 1,
            flags: seq![],
            micro_ops: seq![
                MCycleOp::End(MicroOp::Ld8(Registers8Bit::B, Registers8Bit::C)),
            ],
        }),
        0x42 => Some(OpcodeSpec {
            name: "LD B, D",
            cycles: 1,
            size: 1,
            flags: seq![],
            micro_ops: seq![
                MCycleOp::End(MicroOp::Ld8(Registers8Bit::B, Registers8Bit::D)),
            ],
        }),
        0x43 => Some(OpcodeSpec {
            name: "LD B, E",
            cycles: 1,
            size: 1,
            flags: seq![],
            micro_ops: seq![
                MCycleOp::End(MicroOp::Ld8(Registers8Bit::B, Registers8Bit::E)),
            ],
        }),
        0x44 => Some(OpcodeSpec {
            name: "LD B, H",
            cycles: 1,
            size: 1,
            flags: seq![],
            micro_ops: seq![
                MCycleOp::End(MicroOp::Ld8(Registers8Bit::B, Registers8Bit::H)),
            ],
        }),
        0x45 => Some(OpcodeSpec {
            name: "LD B, L",
            cycles: 1,
            size: 1,
            flags: seq![],
            micro_ops: seq![
                MCycleOp::End(MicroOp::Ld8(Registers8Bit::B, Registers8Bit::L)),
            ],
        }),
        0x46 => Some(OpcodeSpec {
            name: "LD B, [HL]",
            cycles: 2,
            size: 1,
            flags: seq![],
            micro_ops: seq![
                MCycleOp::Main(MicroOp::Read8(Registers8Bit::Z, Registers16Bit::HL)),
                MCycleOp::End(MicroOp::Ld8(Registers8Bit::B, Registers8Bit::Z)),
            ],
        }),
        0x47 => Some(OpcodeSpec {
            name: "LD B, A",
            cycles: 1,
            size: 1,
            flags: seq![],
            micro_ops: seq![
                MCycleOp::End(MicroOp::Ld8(Registers8Bit::B, Registers8Bit::A)),
            ],
        }),
        0x48 => Some(OpcodeSpec {
            name: "LD C, B",
            cycles: 1,
            size: 1,
            flags: seq![],
            micro_ops: seq![
                MCycleOp::End(MicroOp::Ld8(Registers8Bit::C, Registers8Bit::B)),
            ],
        }),
        0x49 => Some(OpcodeSpec {
            name: "LD C, C",
            cycles: 1,
            size: 1,
            flags: seq![],
            micro_ops: seq![
                MCycleOp::End(MicroOp::Ld8(Registers8Bit::C, Registers8Bit::C)),
            ],
        }),
        0x4A => Some(OpcodeSpec {
            name: "LD C, D",
            cycles: 1,
            size: 1,
            flags: seq![],
            micro_ops: seq![
                MCycleOp::End(MicroOp::Ld8(Registers8Bit::C, Registers8Bit::D)),
            ],
        }),
        0x4B => Some(OpcodeSpec {
            name: "LD C, E",
            cycles: 1,
            size: 1,
            flags: seq![],
            micro_ops: seq![
                MCycleOp::End(MicroOp::Ld8(Registers8Bit::C, Registers8Bit::E)),
            ],
        }),
        0x4C => Some(OpcodeSpec {
            name: "LD C, H",
            cycles: 1,
            size: 1,
            flags: seq![],
            micro_ops: seq![
                MCycleOp::End(MicroOp::Ld8(Registers8Bit::C, Registers8Bit::H)),
            ],
        }),
        0x4D => Some(OpcodeSpec {
            name: "LD C, L",
            cycles: 1,
            size: 1,
            flags: seq![],
            micro_ops: seq![
                MCycleOp::End(MicroOp::Ld8(Registers8Bit::C, Registers8Bit::L)),
            ],
        }),
        0x4E => Some(OpcodeSpec {
            name: "LD C, [HL]",
            cycles: 2,
            size: 1,
            flags: seq![],
            micro_ops: seq![
                MCycleOp::Main(MicroOp::Read8(Registers8Bit::Z, Registers16Bit::HL)),
                MCycleOp::End(MicroOp::Ld8(Registers8Bit::C, Registers8Bit::Z)),
            ],
        }),
        0x4F => Some(OpcodeSpec {
            name: "LD C, A",
            cycles: 1,
            size: 1,
            flags: seq![],
            micro_ops: seq![
                MCycleOp::End(MicroOp::Ld8(Registers8Bit::C, Registers8Bit::A)),
            ],
        }),
        0x50 => Some(OpcodeSpec {
            name: "LD D, B",
            cycles: 1,
            size: 1,
            flags: seq![],
            micro_ops: seq![
                MCycleOp::End(MicroOp::Ld8(Registers8Bit::D, Registers8Bit::B)),
            ],
        }),
        0x51 => Some(OpcodeSpec {
            name: "LD D, C",
            cycles: 1,
            size: 1,
            flags: seq![],
            micro_ops: seq![
                MCycleOp::End(MicroOp::Ld8(Registers8Bit::D, Registers8Bit::C)),
            ],
        }),
        0x52 => Some(OpcodeSpec {
            name: "LD D, D",
            cycles: 1,
            size: 1,
            flags: seq![],
            micro_ops: seq![
                MCycleOp::End(MicroOp::Ld8(Registers8Bit::D, Registers8Bit::D)),
            ],
        }),
        0x53 => Some(OpcodeSpec {
            name: "LD D, E",
            cycles: 1,
            size: 1,
            flags: seq![],
            micro_ops: seq![
                MCycleOp::End(MicroOp::Ld8(Registers8Bit::D, Registers8Bit::E)),
            ],
        }),
        0x54 => Some(OpcodeSpec {
            name: "LD D, H",
            cycles: 1,
            size: 1,
            flags: seq![],
            micro_ops: seq![
                MCycleOp::End(MicroOp::Ld8(Registers8Bit::D, Registers8Bit::H)),
            ],
        }),
        0x55 => Some(OpcodeSpec {
            name: "LD D, L",
            cycles: 1,
            size: 1,
            flags: seq![],
            micro_ops: seq![
                MCycleOp::End(MicroOp::Ld8(Registers8Bit::D, Registers8Bit::L)),
            ],
        }),
        0x56 => Some(OpcodeSpec {
            name: "LD D, [HL]",
            cycles: 2,
            size: 1,
            flags: seq![],
            micro_ops: seq![
                MCycleOp::Main(MicroOp::Read8(Registers8Bit::Z, Registers16Bit::HL)),
                MCycleOp::End(MicroOp::Ld8(Registers8Bit::D, Registers8Bit::Z)),
            ],
        }),
        0x57 => Some(OpcodeSpec {
            name: "LD D, A",
            cycles: 1,
            size: 1,
            flags: seq![],
            micro_ops: seq![
                MCycleOp::End(MicroOp::Ld8(Registers8Bit::D, Registers8Bit::A)),
            ],
        }),
        0x58 => Some(OpcodeSpec {
            name: "LD E, B",
            cycles: 1,
            size: 1,
            flags: seq![],
            micro_ops: seq![
                MCycleOp::End(MicroOp::Ld8(Registers8Bit::E, Registers8Bit::B)),
            ],
        }),
        0x59 => Some(OpcodeSpec {
            name: "LD E, C",
            cycles: 1,
            size: 1,
            flags: seq![],
            micro_ops: seq![
                MCycleOp::End(MicroOp::Ld8(Registers8Bit::E, Registers8Bit::C)),
            ],
        }),
        0x5A => Some(OpcodeSpec {
            name: "LD E, D",
            cycles: 1,
            size: 1,
            flags: seq![],
            micro_ops: seq![
                MCycleOp::End(MicroOp::Ld8(Registers8Bit::E, Registers8Bit::D)),
            ],
        }),
        0x5B => Some(OpcodeSpec {
            name: "LD E, E",
            cycles: 1,
            size: 1,
            flags: seq![],
            micro_ops: seq![
                MCycleOp::End(MicroOp::Ld8(Registers8Bit::E, Registers8Bit::E)),
            ],
        }),
        0x5C => Some(OpcodeSpec {
            name: "LD E, H",
            cycles: 1,
            size: 1,
            flags: seq![],
            micro_ops: seq![
                MCycleOp::End(MicroOp::Ld8(Registers8Bit::E, Registers8Bit::H)),
            ],
        }),
        0x5D => Some(OpcodeSpec {
            name: "LD E, L",
            cycles: 1,
            size: 1,
            flags: seq![],
            micro_ops: seq![
                MCycleOp::End(MicroOp::Ld8(Registers8Bit::E, Registers8Bit::L)),
            ],
        }),
        0x5E => Some(OpcodeSpec {
            name: "LD E, [HL]",
            cycles: 2,
            size: 1,
            flags: seq![],
            micro_ops: seq![
                MCycleOp::Main(MicroOp::Read8(Registers8Bit::Z, Registers16Bit::HL)),
                MCycleOp::End(MicroOp::Ld8(Registers8Bit::E, Registers8Bit::Z)),
            ],
        }),
        0x5F => Some(OpcodeSpec {
            name: "LD E, A",
            cycles: 1,
            size: 1,
            flags: seq![],
            micro_ops: seq![
                MCycleOp::End(MicroOp::Ld8(Registers8Bit::E, Registers8Bit::A)),
            ],
        }),
        0x60 => Some(OpcodeSpec {
            name: "LD H, B",
            cycles: 1,
            size: 1,
            flags: seq![],
            micro_ops: seq![
                MCycleOp::End(MicroOp::Ld8(Registers8Bit::H, Registers8Bit::B)),
            ],
        }),
        0x61 => Some(OpcodeSpec {
            name: "LD H, C",
            cycles: 1,
            size: 1,
            flags: seq![],
            micro_ops: seq![
                MCycleOp::End(MicroOp::Ld8(Registers8Bit::H, Registers8Bit::C)),
            ],
        }),
        0x62 => Some(OpcodeSpec {
            name: "LD H, D",
            cycles: 1,
            size: 1,
            flags: seq![],
            micro_ops: seq![
                MCycleOp::End(MicroOp::Ld8(Registers8Bit::H, Registers8Bit::D)),
            ],
        }),
        0x63 => Some(OpcodeSpec {
            name: "LD H, E",
            cycles: 1,
            size: 1,
            flags: seq![],
            micro_ops: seq![
                MCycleOp::End(MicroOp::Ld8(Registers8Bit::H, Registers8Bit::E)),
            ],
        }),
        0x64 => Some(OpcodeSpec {
            name: "LD H, H",
            cycles: 1,
            size: 1,
            flags: seq![],
            micro_ops: seq![
                MCycleOp::End(MicroOp::Ld8(Registers8Bit::H, Registers8Bit::H)),
            ],
        }),
        0x65 => Some(OpcodeSpec {
            name: "LD H, L",
            cycles: 1,
            size: 1,
            flags: seq![],
            micro_ops: seq![
                MCycleOp::End(MicroOp::Ld8(Registers8Bit::H, Registers8Bit::L)),
            ],
        }),
        0x66 => Some(OpcodeSpec {
            name: "LD H, [HL]",
            cycles: 2,
            size: 1,
            flags: seq![],
            micro_ops: seq![
                MCycleOp::Main(MicroOp::Read8(Registers8Bit::Z, Registers16Bit::HL)),
                MCycleOp::End(MicroOp::Ld8(Registers8Bit::H, Registers8Bit::Z)),
            ],
        }),
        0x67 => Some(OpcodeSpec {
            name: "LD H, A",
            cycles: 1,
            size: 1,
            flags: seq![],
            micro_ops: seq![
                MCycleOp::End(MicroOp::Ld8(Registers8Bit::H, Registers8Bit::A)),
            ],
        }),
        0x68 => Some(OpcodeSpec {
            name: "LD L, B",
            cycles: 1,
            size: 1,
            flags: seq![],
            micro_ops: seq![
                MCycleOp::End(MicroOp::Ld8(Registers8Bit::L, Registers8Bit::B)),
            ],
        }),
        0x69 => Some(OpcodeSpec {
            name: "LD L, C",
            cycles: 1,
            size: 1,
            flags: seq![],
            micro_ops: seq![
                MCycleOp::End(MicroOp::Ld8(Registers8Bit::L, Registers8Bit::C)),
            ],
        }),
        0x6A => Some(OpcodeSpec {
            name: "LD L, D",
            cycles: 1,
            size: 1,
            flags: seq![],
            micro_ops: seq![
                MCycleOp::End(MicroOp::Ld8(Registers8Bit::L, Registers8Bit::D)),
            ],
        }),
        0x6B => Some(OpcodeSpec {
            name: "LD L, E",
            cycles: 1,
            size: 1,
            flags: seq![],
            micro_ops: seq![
                MCycleOp::End(MicroOp::Ld8(Registers8Bit::L, Registers8Bit::E)),
            ],
        }),
        0x6C => Some(OpcodeSpec {
            name: "LD L, H",
            cycles: 1,
            size: 1,
            flags: seq![],
            micro_ops: seq![
                MCycleOp::End(MicroOp::Ld8(Registers8Bit::L, Registers8Bit::H)),
            ],
        }),
        0x6D => Some(OpcodeSpec {
            name: "LD L, L",
            cycles: 1,
            size: 1,
            flags: seq![],
            micro_ops: seq![
                MCycleOp::End(MicroOp::Ld8(Registers8Bit::L, Registers8Bit::L)),
            ],
        }),
        0x6E => Some(OpcodeSpec {
            name: "LD L, [HL]",
            cycles: 2,
            size: 1,
            flags: seq![],
            micro_ops: seq![
                MCycleOp::Main(MicroOp::Read8(Registers8Bit::Z, Registers16Bit::HL)),
                MCycleOp::End(MicroOp::Ld8(Registers8Bit::L, Registers8Bit::Z)),
            ],
        }),
        0x6F => Some(OpcodeSpec {
            name: "LD L, A",
            cycles: 1,
            size: 1,
            flags: seq![],
            micro_ops: seq![
                MCycleOp::End(MicroOp::Ld8(Registers8Bit::L, Registers8Bit::A)),
            ],
        }),
        0x70 => Some(OpcodeSpec {
            name: "LD [HL], B",
            cycles: 2,
            size: 1,
            flags: seq![],
            micro_ops: seq![
                MCycleOp::Main(MicroOp::Write8(Registers16Bit::HL, Registers8Bit::B)),
                MCycleOp::End(MicroOp::Idle),
            ],
        }),
        0x71 => Some(OpcodeSpec {
            name: "LD [HL], C",
            cycles: 2,
            size: 1,
            flags: seq![],
            micro_ops: seq![
                MCycleOp::Main(MicroOp::Write8(Registers16Bit::HL, Registers8Bit::C)),
                MCycleOp::End(MicroOp::Idle),
            ],
        }),
        0x72 => Some(OpcodeSpec {
            name: "LD [HL], D",
            cycles: 2,
            size: 1,
            flags: seq![],
            micro_ops: seq![
                MCycleOp::Main(MicroOp::Write8(Registers16Bit::HL, Registers8Bit::D)),
                MCycleOp::End(MicroOp::Idle),
            ],
        }),
        0x73 => Some(OpcodeSpec {
            name: "LD [HL], E",
            cycles: 2,
            size: 1,
            flags: seq![],
            micro_ops: seq![
                MCycleOp::Main(MicroOp::Write8(Registers16Bit::HL, Registers8Bit::E)),
                MCycleOp::End(MicroOp::Idle),
            ],
        }),
        0x74 => Some(OpcodeSpec {
            name: "LD [HL], H",
            cycles: 2,
            size: 1,
            flags: seq![],
            micro_ops: seq![
                MCycleOp::Main(MicroOp::Write8(Registers16Bit::HL, Registers8Bit::H)),
                MCycleOp::End(MicroOp::Idle),
            ],
        }),
        0x75 => Some(OpcodeSpec {
            name: "LD [HL], L",
            cycles: 2,
            size: 1,
            flags: seq![],
            micro_ops: seq![
                MCycleOp::Main(MicroOp::Write8(Registers16Bit::HL, Registers8Bit::L)),
                MCycleOp::End(MicroOp::Idle),
            ],
        }),
        0x76 => Some(OpcodeSpec {
            name: "HALT",
            cycles: 1,
            size: 1,
            flags: seq![],
            micro_ops: seq![
                MCycleOp::End(MicroOp::Idle),
            ],
        }),
        0x77 => Some(OpcodeSpec {
            name: "LD [HL], A",
            cycles: 2,
            size: 1,
            flags: seq![],
            micro_ops: seq![
                MCycleOp::Main(MicroOp::Write8(Registers16Bit::HL, Registers8Bit::A)),
                MCycleOp::End(MicroOp::Idle),
            ],
        }),
        0x78 => Some(OpcodeSpec {
            name: "LD A, B",
            cycles: 1,
            size: 1,
            flags: seq![],
            micro_ops: seq![
                MCycleOp::End(MicroOp::Ld8(Registers8Bit::A, Registers8Bit::B)),
            ],
        }),
        0x79 => Some(OpcodeSpec {
            name: "LD A, C",
            cycles: 1,
            size: 1,
            flags: seq![],
            micro_ops: seq![
                MCycleOp::End(MicroOp::Ld8(Registers8Bit::A, Registers8Bit::C)),
            ],
        }),
        0x7A => Some(OpcodeSpec {
            name: "LD A, D",
            cycles: 1,
            size: 1,
            flags: seq![],
            micro_ops: seq![
                MCycleOp::End(MicroOp::Ld8(Registers8Bit::A, Registers8Bit::D)),
            ],
        }),
        0x7B => Some(OpcodeSpec {
            name: "LD A, E",
            cycles: 1,
            size: 1,
            flags: seq![],
            micro_ops: seq![
                MCycleOp::End(MicroOp::Ld8(Registers8Bit::A, Registers8Bit::E)),
            ],
        }),
        0x7C => Some(OpcodeSpec {
            name: "LD A, H",
            cycles: 1,
            size: 1,
            flags: seq![],
            micro_ops: seq![
                MCycleOp::End(MicroOp::Ld8(Registers8Bit::A, Registers8Bit::H)),
            ],
        }),
        0x7D => Some(OpcodeSpec {
            name: "LD A, L",
            cycles: 1,
            size: 1,
            flags: seq![],
            micro_ops: seq![
                MCycleOp::End(MicroOp::Ld8(Registers8Bit::A, Registers8Bit::L)),
            ],
        }),
        0x7E => Some(OpcodeSpec {
            name: "LD A, [HL]",
            cycles: 2,
            size: 1,
            flags: seq![],
            micro_ops: seq![
                MCycleOp::Main(MicroOp::Read8(Registers8Bit::Z, Registers16Bit::HL)),
                MCycleOp::End(MicroOp::Ld8(Registers8Bit::A, Registers8Bit::Z)),
            ],
        }),
        0x7F => Some(OpcodeSpec {
            name: "LD A, A",
            cycles: 1,
            size: 1,
            flags: seq![],
            micro_ops: seq![
                MCycleOp::End(MicroOp::Ld8(Registers8Bit::A, Registers8Bit::A)),
            ],
        }),
        _ => None,
    }
}

/// The table entries of opcodes 0x80 ..= 0xBF.
pub open spec fn opcode_spec_80_bf(opcode: u8) -> Option<OpcodeSpec> {
    match opcode {
        0x80 => Some(OpcodeSpec {
            name: "ADD A, B",
            cycles: 1,
            size: 1,
            flags: seq![FlagBits::Z, FlagBits::N, FlagBits::H, FlagBits::C],
            micro_ops: seq![
                MCycleOp::End(MicroOp::Alu(AluOp::Add(Registers8Bit::A, Registers8Bit::B))),
            ],
        }),
        0x81 => Some(OpcodeSpec {
            name: "ADD A, C",
            cycles: 1,
            size: 1,
            flags: seq![FlagBits::Z, FlagBits::N, FlagBits::H, FlagBits::C],
            micro_ops: seq![
                MCycleOp::End(MicroOp::Alu(AluOp::Add(Registers8Bit::A, Registers8Bit::C))),
            ],
        }),
        0x82 => Some(OpcodeSpec {
            name: "ADD A, D",
            cycles: 1,
            size: 1,
            flags: seq![FlagBits::Z, FlagBits::N, FlagBits::H, FlagBits::C],
            micro_ops: seq![
                MCycleOp::End(MicroOp::Alu(AluOp::Add(Registers8Bit::A, Registers8Bit::D))),
            ],
        }),
        0x83 => Some(OpcodeSpec {
            name: "ADD A, E",
            cycles: 1,
            size: 1,
            flags: seq![FlagBits::Z, FlagBits::N, FlagBits::H, FlagBits::C],
            micro_ops: seq![
                MCycleOp::End(MicroOp::Alu(AluOp::Add(Registers8Bit::A, Registers8Bit::E))),
            ],
        }),
        0x84 => Some(OpcodeSpec {
            name: "ADD A, H",
            cycles: 1,
            size: 1,
            flags: seq![FlagBits::Z, FlagBits::N, FlagBits::H, FlagBits::C],
            micro_ops: seq![
                MCycleOp::End(MicroOp::Alu(AluOp::Add(Registers8Bit::A, Registers8Bit::H))),
            ],
        }),
        0x85 => Some(OpcodeSpec {
            name: "ADD A, L",
            cycles: 1,
            size: 1,
            flags: seq![FlagBits::Z, FlagBits::N, FlagBits::H, FlagBits::C],
            micro_ops: seq![
                MCycleOp::End(MicroOp::Alu(AluOp::Add(Registers8Bit::A, Registers8Bit::L))),
            ],
        }),
        0x86 => Some(OpcodeSpec {
            name: "ADD A, [HL]",
            cycles: 2,
            size: 1,
            flags: seq![FlagBits::Z, FlagBits::N, FlagBits::H, FlagBits::C],
            micro_ops: seq![
                MCycleOp::Main(MicroOp::Read8(Registers8Bit::Z, Registers16Bit::HL)),
                MCycleOp::End(MicroOp::Alu(AluOp::Add(Registers8Bit::A, Registers8Bit::Z))),
            ],
        }),
        0x87 => Some(OpcodeSpec {
            name: "ADD A, A",
            cycles: 1,
            size: 1,
            flags: seq![FlagBits::Z, FlagBits::N, FlagBits::H, FlagBits::C],
            micro_ops: seq![
                MCycleOp::End(MicroOp::Alu(AluOp::Add(Registers8Bit::A, Registers8Bit::A))),
            ],
        }),
        0x88 => Some(OpcodeSpec {
            name: "ADC A, B",
            cycles: 1,
            size: 1,
            flags: seq![FlagBits::Z, FlagBits::N, FlagBits::H, FlagBits::C],
            micro_ops: seq![
                MCycleOp::End(MicroOp::Alu(AluOp::Adc(Registers8Bit::A, Registers8Bit::B))),
            ],
        }),
        0x89 => Some(OpcodeSpec {
            name: "ADC A, C",
            cycles: 1,
            size: 1,
            flags: seq![FlagBits::Z, FlagBits::N, FlagBits::H, FlagBits::C],
            micro_ops: seq![
                MCycleOp::End(MicroOp::Alu(AluOp::Adc(Registers8Bit::A, Registers8Bit::C))),
            ],
        }),
        0x8A => Some(OpcodeSpec {
            name: "ADC A, D",
            cycles: 1,
            size: 1,
            flags: seq![FlagBits::Z, FlagBits::N, FlagBits::H, FlagBits::C],
            micro_ops: seq![
                MCycleOp::End(MicroOp::Alu(AluOp::Adc(Registers8Bit::A, Registers8Bit::D))),
            ],
        }),
        0x8B => Some(OpcodeSpec {
            name: "ADC A, E",
            cycles: 1,
            size: 1,
            flags: seq![FlagBits::Z, FlagBits::N, FlagBits::H, FlagBits::C],
            micro_ops: seq![
                MCycleOp::End(MicroOp::Alu(AluOp::Adc(Registers8Bit::A, Registers8Bit::E))),
            ],
        }),
        0x8C => Some(OpcodeSpec {
            name: "ADC A, H",
            cycles: 1,
            size: 1,
            flags: seq![FlagBits::Z, FlagBits::N, FlagBits::H, FlagBits::C],
            micro_ops: seq![
                MCycleOp::End(MicroOp::Alu(AluOp::Adc(Registers8Bit::A, Registers8Bit::H))),
            ],
        }),
        0x8D => Some(OpcodeSpec {
            name: "ADC A, L",
            cycles: 1,
            size: 1,
            flags: seq![FlagBits::Z, FlagBits::N, FlagBits::H, FlagBits::C],
            micro_ops: seq![
                MCycleOp::End(MicroOp::Alu(AluOp::Adc(Registers8Bit::A, Registers8Bit::L))),
            ],
        }),
        0x8E => Some(OpcodeSpec {
            name: "ADC A, [HL]",
            cycles: 2,
            size: 1,
            flags: seq![FlagBits::Z, FlagBits::N, FlagBits::H, FlagBits::C],
            micro_ops: seq![
                MCycleOp::Main(MicroOp::Read8(Registers8Bit::Z, Registers16Bit::HL)),
                MCycleOp::End(MicroOp::Alu(AluOp::Adc(Registers8Bit::A, Registers8Bit::Z))),
            ],
        }),
        0x8F => Some(OpcodeSpec {
            name: "ADC A, A",
            cycles: 1,
            size: 1,
            flags: seq![FlagBits::Z, FlagBits::N, FlagBits::H, FlagBits::C],
            micro_ops: seq![
                MCycleOp::End(MicroOp::Alu(AluOp::Adc(Registers8Bit::A, Registers8Bit::A))),
            ],
        }),
        0x90 => Some(OpcodeSpec {
            name: "SUB A, B",
            cycles: 1,
            size: 1,
            flags: seq![FlagBits::Z, FlagBits::N, FlagBits::H, FlagBits::C],
            micro_ops: seq![
                MCycleOp::End(MicroOp::Alu(AluOp::Sub(Registers8Bit::A, Registers8Bit::B))),
            ],
        }),
        0x91 => Some(OpcodeSpec {
            name: "SUB A, C",
            cycles: 1,
            size: 1,
            flags: seq![FlagBits::Z, FlagBits::N, FlagBits::H, FlagBits::C],
            micro_ops: seq![
                MCycleOp::End(MicroOp::Alu(AluOp::Sub(Registers8Bit::A, Registers8Bit::C))),
            ],
        }),
        0x92 => Some(OpcodeSpec {
            name: "SUB A, D",
            cycles: 1,
            size: 1,
            flags: seq![FlagBits::Z, FlagBits::N, FlagBits::H, FlagBits::C],
            micro_ops: seq![
                MCycleOp::End(MicroOp::Alu(AluOp::Sub(Registers8Bit::A, Registers8Bit::D))),
            ],
        }),
        0x93 => Some(OpcodeSpec {
            name: "SUB A, E",
            cycles: 1,
            size: 1,
            flags: seq![FlagBits::Z, FlagBits::N, FlagBits::H, FlagBits::C],
            micro_ops: seq![
                MCycleOp::End(MicroOp::Alu(AluOp::Sub(Registers8Bit::A, Registers8Bit::E))),
            ],
        }),
        0x94 => Some(OpcodeSpec {
            name: "SUB A, H",
            cycles: 1,
            size: 1,
            flags: seq![FlagBits::Z, FlagBits::N, FlagBits::H, FlagBits::C],
            micro_ops: seq![
                MCycleOp::End(MicroOp::Alu(AluOp::Sub(Registers8Bit::A, Registers8Bit::H))),
            ],
        }),
        0x95 => Some(OpcodeSpec {
            name: "SUB A, L",
            cycles: 1,
            size: 1,
            flags: seq![FlagBits::Z, FlagBits::N, FlagBits::H, FlagBits::C],
            micro_ops: seq![
                MCycleOp::End(MicroOp::Alu(AluOp::Sub(Registers8Bit::A, Registers8Bit::L))),
            ],
        }),
        0x96 => Some(OpcodeSpec {
            name: "SUB A, [HL]",
            cycles: 2,
            size: 1,
            flags: seq![FlagBits::Z, FlagBits::N, FlagBits::H, FlagBits::C],
            micro_ops: seq![
                MCycleOp::Main(MicroOp::Read8(Registers8Bit::Z, Registers16Bit::HL)),
                MCycleOp::End(MicroOp::Alu(AluOp::Sub(Registers8Bit::A, Registers8Bit::Z))),
            ],
        }),
        0x97 => Some(OpcodeSpec {
            name: "SUB A, A",
            cycles: 1,
            size: 1,
            flags: seq![FlagBits::Z, FlagBits::N, FlagBits::H, FlagBits::C],
            micro_ops: seq![
                MCycleOp::End(MicroOp::Alu(AluOp::Sub(Registers8Bit::A, Registers8Bit::A))),
            ],
        }),
        0x98 => Some(OpcodeSpec {
            name: "SBC A, B",
            cycles: 1,
            size: 1,
            flags: seq![FlagBits::Z, FlagBits::N, FlagBits::H, FlagBits::C],
            micro_ops: seq![
                MCycleOp::End(MicroOp::Alu(AluOp::Sbc(Registers8Bit::A, Registers8Bit::B))),
            ],
        }),
        0x99 => Some(OpcodeSpec {
            name: "SBC A, C",
            cycles: 1,
            size: 1,
            flags: seq![FlagBits::Z, FlagBits::N, FlagBits::H, FlagBits::C],
            micro_ops: seq![
                MCycleOp::End(MicroOp::Alu(AluOp::Sbc(Registers8Bit::A, Registers8Bit::C))),
            ],
        }),
        0x9A => Some(OpcodeSpec {
            name: "SBC A, D",
            cycles: 1,
            size: 1,
            flags: seq![FlagBits::Z, FlagBits::N, FlagBits::H, FlagBits::C],
            micro_ops: seq![
                MCycleOp::End(MicroOp::Alu(AluOp::Sbc(Registers8Bit::A, Registers8Bit::D))),
            ],
        }),
        0x9B => Some(OpcodeSpec {
            name: "SBC A, E",
            cycles: 1,
            size: 1,
            flags: seq![FlagBits::Z, FlagBits::N, FlagBits::H, FlagBits::C],
            micro_ops: seq![
                MCycleOp::End(MicroOp::Alu(AluOp::Sbc(Registers8Bit::A, Registers8Bit::E))),
            ],
        }),
        0x9C => Some(OpcodeSpec {
            name: "SBC A, H",
            cycles: 1,
            size: 1,
            flags: seq![FlagBits::Z, FlagBits::N, FlagBits::H, FlagBits::C],
            micro_ops: seq![
                MCycleOp::End(MicroOp::Alu(AluOp::Sbc(Registers8Bit::A, Registers8Bit::H))),
            ],
        }),
        0x9D => Some(OpcodeSpec {
            name: "SBC A, L",
            cycles: 1,
            size: 1,
            flags: seq![FlagBits::Z, FlagBits::N, FlagBits::H, FlagBits::C],
            micro_ops: seq![
                MCycleOp::End(MicroOp::Alu(AluOp::Sbc(Registers8Bit::A, Registers8Bit::L))),
            ],
        }),
        0x9E => Some(OpcodeSpec {
            name: "SBC A, [HL]",
            cycles: 2,
            size: 1,
            flags: seq![FlagBits::Z, FlagBits::N, FlagBits::H, FlagBits::C],
            micro_ops: seq![
                MCycleOp::Main(MicroOp::Read8(Registers8Bit::Z, Registers16Bit::HL)),
                MCycleOp::End(MicroOp::Alu(AluOp::Sbc(Registers8Bit::A, Registers8Bit::Z))),
            ],
        }),
        0x9F => Some(OpcodeSpec {
            name: "SBC A, A",
            cycles: 1,
            size: 1,
            flags: seq![FlagBits::Z, FlagBits::N, FlagBits::H, FlagBits::C],
            micro_ops: seq![
                MCycleOp::End(MicroOp::Alu(AluOp::Sbc(Registers8Bit::A, Registers8Bit::A))),
            ],
        }),
        0xA0 => Some(OpcodeSpec {
            name: "AND A, B",
            cycles: 1,
            size: 1,
            flags: seq![FlagBits::Z, FlagBits::N, FlagBits::H, FlagBits::C],
            micro_ops: seq![
                MCycleOp::End(MicroOp::Alu(AluOp::And(Registers8Bit::A, Registers8Bit::B))),
            ],
        }),
        0xA1 => Some(OpcodeSpec {
            name: "AND A, C",
            cycles: 1,
            size: 1,
            flags: seq![FlagBits::Z, FlagBits::N, FlagBits::H, FlagBits::C],
            micro_ops: seq![
                MCycleOp::End(MicroOp::Alu(AluOp::And(Registers8Bit::A, Registers8Bit::C))),
            ],
        }),
        0xA2 => Some(OpcodeSpec {
            name: "AND A, D",
            cycles: 1,
            size: 1,
            flags: seq![FlagBits::Z, FlagBits::N, FlagBits::H, FlagBits::C],
            micro_ops: seq![
                MCycleOp::End(MicroOp::Alu(AluOp::And(Registers8Bit::A, Registers8Bit::D))),
            ],
        }),
        0xA3 => Some(OpcodeSpec {
            name: "AND A, E",
            cycles: 1,
            size: 1,
            flags: seq![FlagBits::Z, FlagBits::N, FlagBits::H, FlagBits::C],
            micro_ops: seq![
                MCycleOp::End(MicroOp::Alu(AluOp::And(Registers8Bit::A, Registers8Bit::E))),
            ],
        }),
        0xA4 => Some(OpcodeSpec {
            name: "AND A, H",
            cycles: 1,
            size: 1,
            flags: seq![FlagBits::Z, FlagBits::N, FlagBits::H, FlagBits::C],
            micro_ops: seq![
                MCycleOp::End(MicroOp::Alu(AluOp::And(Registers8Bit::A, Registers8Bit::H))),
            ],
        }),
        0xA5 => Some(OpcodeSpec {
            name: "AND A, L",
            cycles: 1,
            size: 1,
            flags: seq![FlagBits::Z, FlagBits::N, FlagBits::H, FlagBits::C],
            micro_ops: seq![
                MCycleOp::End(MicroOp::Alu(AluOp::And(Registers8Bit::A, Registers8Bit::L))),
            ],
        }),
        0xA6 => Some(OpcodeSpec {
            name: "AND A, [HL]",
            cycles: 2,
            size: 1,
            flags: seq![FlagBits::Z, FlagBits::N, FlagBits::H, FlagBits::C],
            micro_ops: seq![
                MCycleOp::Main(MicroOp::Read8(Registers8Bit::Z, Registers16Bit::HL)),
                MCycleOp::End(MicroOp::Alu(AluOp::And(Registers8Bit::A, Registers8Bit::Z))),
            ],
        }),
        0xA7 => Some(OpcodeSpec {
            name: "AND A, A",
            cycles: 1,
            size: 1,
            flags: seq![FlagBits::Z, FlagBits::N, FlagBits::H, FlagBits::C],
            micro_ops: seq![
                MCycleOp::End(MicroOp::Alu(AluOp::And(Registers8Bit::A, Registers8Bit::A))),
            ],
        }),
        0xA8 => Some(OpcodeSpec {
            name: "XOR A, B",
            cycles: 1,
            size: 1,
            flags: seq![FlagBits::Z, FlagBits::N, FlagBits::H, FlagBits::C],
            micro_ops: seq![
                MCycleOp::End(MicroOp::Alu(AluOp::Xor(Registers8Bit::A, Registers8Bit::B))),
            ],
        }),
        0xA9 => Some(OpcodeSpec {
            name: "XOR A, C",
            cycles: 1,
            size: 1,
            flags: seq![FlagBits::Z, FlagBits::N, FlagBits::H, FlagBits::C],
            micro_ops: seq![
                MCycleOp::End(MicroOp::Alu(AluOp::Xor(Registers8Bit::A, Registers8Bit::C))),
            ],
        }),
        0xAA => Some(OpcodeSpec {
            name: "XOR A, D",
            cycles: 1,
            size: 1,
            flags: seq![FlagBits::Z, FlagBits::N, FlagBits::H, FlagBits::C],
            micro_ops: seq![
                MCycleOp::End(MicroOp::Alu(AluOp::Xor(Registers8Bit::A, Registers8Bit::D))),
            ],
        }),
        0xAB => Some(OpcodeSpec {
            name: "XOR A, E",
            cycles: 1,
            size: 1,
            flags: seq![FlagBits::Z, FlagBits::N, FlagBits::H, FlagBits::C],
            micro_ops: seq![
                MCycleOp::End(MicroOp::Alu(AluOp::Xor(Registers8Bit::A, Registers8Bit::E))),
            ],
        }),
        0xAC => Some(OpcodeSpec {
            name: "XOR A, H",
            cycles: 1,
            size: 1,
            flags: seq![FlagBits::Z, FlagBits::N, FlagBits::H, FlagBits::C],
            micro_ops: seq![
                MCycleOp::End(MicroOp::Alu(AluOp::Xor(Registers8Bit::A, Registers8Bit::H))),
            ],
        }),
        0xAD => Some(OpcodeSpec {
            name: "XOR A, L",
            cycles: 1,
            size: 1,
            flags: seq![FlagBits::Z, FlagBits::N, FlagBits::H, FlagBits::C],
            micro_ops: seq![
                MCycleOp::End(MicroOp::Alu(AluOp::Xor(Registers8Bit::A, Registers8Bit::L))),
            ],
        }),
        0xAE => Some(OpcodeSpec {
            name: "XOR A, [HL]",
            cycles: 2,
            size: 1,
            flags: seq![FlagBits::Z, FlagBits::N, FlagBits::H, FlagBits::C],
            micro_ops: seq![
                MCycleOp::Main(MicroOp::Read8(Registers8Bit::Z, Registers16Bit::HL)),
                MCycleOp::End(MicroOp::Alu(AluOp::Xor(Registers8Bit::A, Registers8Bit::Z))),
            ],
        }),
        0xAF => Some(OpcodeSpec {
            name: "XOR A, A",
            cycles: 1,
            size: 1,
            flags: seq![FlagBits::Z, FlagBits::N, FlagBits::H, FlagBits::C],
            micro_ops: seq![
                MCycleOp::End(MicroOp::Alu(AluOp::Xor(Registers8Bit::A, Registers8Bit::A))),
            ],
        }),
        0xB0 => Some(OpcodeSpec {
            name: "OR A, B",
            cycles: 1,
            size: 1,
            flags: seq![FlagBits::Z, FlagBits::N, FlagBits::H, FlagBits::C],
            micro_ops: seq![
                MCycleOp::End(MicroOp::Alu(AluOp::Or(Registers8Bit::A, Registers8Bit::B))),
            ],
        }),
        0xB1 => Some(OpcodeSpec {
            name: "OR A, C",
            cycles: 1,
            size: 1,
            flags: seq![FlagBits::Z, FlagBits::N, FlagBits::H, FlagBits::C],
            micro_ops: seq![
                MCycleOp::End(MicroOp::Alu(AluOp::Or(Registers8Bit::A, Registers8Bit::C))),
            ],
        }),
        0xB2 => Some(OpcodeSpec {
            name: "OR A, D",
            cycles: 1,
            size: 1,
            flags: seq![FlagBits::Z, FlagBits::N, FlagBits::H, FlagBits::C],
            micro_ops: seq![
                MCycleOp::End(MicroOp::Alu(AluOp::Or(Registers8Bit::A, Registers8Bit::D))),
            ],
        }),
        0xB3 => Some(OpcodeSpec {
            name: "OR A, E",
            cycles: 1,
            size: 1,
            flags: seq![FlagBits::Z, FlagBits::N, FlagBits::H, FlagBits::C],
            micro_ops: seq![
                MCycleOp::End(MicroOp::Alu(AluOp::Or(Registers8Bit::A, Registers8Bit::E))),
            ],
        }),
        0xB4 => Some(OpcodeSpec {
            name: "OR A, H",
            cycles: 1,
            size: 1,
            flags: seq![FlagBits::Z, FlagBits::N, FlagBits::H, FlagBits::C],
            micro_ops: seq![
                MCycleOp::End(MicroOp::Alu(AluOp::Or(Registers8Bit::A, Registers8Bit::H))),
            ],
        }),
        0xB5 => Some(OpcodeSpec {
            name: "OR A, L",
            cycles: 1,
            size: 1,
            flags: seq![FlagBits::Z, FlagBits::N, FlagBits::H, FlagBits::C],
            micro_ops: seq![
                MCycleOp::End(MicroOp::Alu(AluOp::Or(Registers8Bit::A, Registers8Bit::L))),
            ],
        }),
        0xB6 => Some(OpcodeSpec {
            name: "OR A, [HL]",
            cycles: 2,
            size: 1,
            flags: seq![FlagBits::Z, FlagBits::N, FlagBits::H, FlagBits::C],
            micro_ops: seq![
                MCycleOp::Main(MicroOp::Read8(Registers8Bit::Z, Registers16Bit::HL)),
                MCycleOp::End(MicroOp::Alu(AluOp::Or(Registers8Bit::A, Registers8Bit::Z))),
            ],
        }),
        0xB7 => Some(OpcodeSpec {
            name: "OR A, A",
            cycles: 1,
            size: 1,
            flags: seq![FlagBits::Z, FlagBits::N, FlagBits::H, FlagBits::C],
            micro_ops: seq![
                MCycleOp::End(MicroOp::Alu(AluOp::Or(Registers8Bit::A, Registers8Bit::A))),
            ],
        }),
        0xB8 => Some(OpcodeSpec {
            name: "CP A, B",
            cycles: 1,
            size: 1,
            flags: seq![FlagBits::Z, FlagBits::N, FlagBits::H, FlagBits::C],
            micro_ops: seq![
                MCycleOp::End(MicroOp::Alu(AluOp::Cp(Registers8Bit::A, Registers8Bit::B))),
            ],
        }),
        0xB9 => Some(OpcodeSpec {
            name: "CP A, C",
            cycles: 1,
            size: 1,
            flags: seq![FlagBits::Z, FlagBits::N, FlagBits::H, FlagBits::C],
            micro_ops: seq![
                MCycleOp::End(MicroOp::Alu(AluOp::Cp(Registers8Bit::A, Registers8Bit::C))),
            ],
        }),
        0xBA => Some(OpcodeSpec {
            name: "CP A, D",
            cycles: 1,
            size: 1,
            flags: seq![FlagBits::Z, FlagBits::N, FlagBits::H, FlagBits::C],
            micro_ops: seq![
                MCycleOp::End(MicroOp::Alu(AluOp::Cp(Registers8Bit::A, Registers8Bit::D))),
            ],
        }),
        0xBB => Some(OpcodeSpec {
            name: "CP A, E",
            cycles: 1,
            size: 1,
            flags: seq![FlagBits::Z, FlagBits::N, FlagBits::H, FlagBits::C],
            micro_ops: seq![
                MCycleOp::End(MicroOp::Alu(AluOp::Cp(Registers8Bit::A, Registers8Bit::E))),
            ],
        }),
        0xBC => Some(OpcodeSpec {
            name: "CP A, H",
            cycles: 1,
            size: 1,
            flags: seq![FlagBits::Z, FlagBits::N, FlagBits::H, FlagBits::C],
            micro_ops: seq![
                MCycleOp::End(MicroOp::Alu(AluOp::Cp(Registers8Bit::A, Registers8Bit::H))),
            ],
        }),
        0xBD => Some(OpcodeSpec {
            name: "CP A, L",
            cycles: 1,
            size: 1,
            flags: seq![FlagBits::Z, FlagBits::N, FlagBits::H, FlagBits::C],
            micro_ops: seq![
                MCycleOp::End(MicroOp::Alu(AluOp::Cp(Registers8Bit::A, Registers8Bit::L))),
            ],
        }),
        0xBE => Some(OpcodeSpec {
            name: "CP A, [HL]",
            cycles: 2,
            size: 1,
            flags: seq![FlagBits::Z, FlagBits::N, FlagBits::H, FlagBits::C],
            micro_ops: seq![
                MCycleOp::Main(MicroOp::Read8(Registers8Bit::Z, Registers16Bit::HL)),
                MCycleOp::End(MicroOp::Alu(AluOp::Cp(Registers8Bit::A, Registers8Bit::Z))),
            ],
        }),
        0xBF => Some(OpcodeSpec {
            name: "CP A, A",
            cycles: 1,
            size: 1,
            flags: seq![FlagBits::Z, FlagBits::N, FlagBits::H, FlagBits::C],
            micro_ops: seq![
                MCycleOp::End(MicroOp::Alu(AluOp::Cp(Registers8Bit::A, Registers8Bit::A))),
            ],
        }),
        _ => None,
    }
}

/// The table entries of opcodes 0xC0 ..= 0xFF.
pub open spec fn opcode_spec_c0_ff(opcode: u8) -> Option<OpcodeSpec> {
    match opcode {
        0xC0 => Some(OpcodeSpec {
            name: "RET NZ",
            cycles: 5,
            size: 1,
            flags: seq![],
            micro_ops: seq![
                MCycleOp::Cc(MicroOp::Idle, CheckCondition::NZ, 2),
                MCycleOp::End(MicroOp::Idle),
                MCycleOp::Main(MicroOp::Read16lsbInc(Registers16Bit::WZ, Registers16Bit::SP)),
                MCycleOp::Main(MicroOp::Read16msbInc(Registers16Bit::WZ, Registers16Bit::SP)),
                MCycleOp::Main(MicroOp::Ld16(Registers16Bit::PC, Registers16Bit::WZ)),
                MCycleOp::End(MicroOp::Idle),
            ],
        }),
        0xC1 => Some(OpcodeSpec {
            name: "POP BC",
            cycles: 3,
            size: 1,
            flags: seq![],
            micro_ops: seq![
                MCycleOp::Main(MicroOp::Read8Inc(Registers8Bit::Z, Registers16Bit::SP)),
                MCycleOp::Main(MicroOp::Read8Inc(Registers8Bit::W, Registers16Bit::SP)),
                MCycleOp::End(MicroOp::Ld16(Registers16Bit::BC, Registers16Bit::WZ)),
            ],
        }),
        0xC2 => Some(OpcodeSpec {
            name: "JP NZ, imm16",
            cycles: 4,
            size: 3,
            flags: seq![],
            micro_ops: seq![
                MCycleOp::Main(MicroOp::Fetch8(Registers8Bit::Z)),
                MCycleOp::Cc(MicroOp::Fetch8(Registers8Bit::W), CheckCondition::NZ, 3),
                MCycleOp::End(MicroOp::Idle),
                MCycleOp::Main(MicroOp::Ld16(Registers16Bit::PC, Registers16Bit::WZ)),
                MCycleOp::End(MicroOp::Idle),
            ],
        }),
        0xC3 => Some(OpcodeSpec {
            name: "JP imm16",
            cycles: 4,
            size: 3,
            flags: seq![],
            micro_ops: seq![
                MCycleOp::Main(MicroOp::Fetch8(Registers8Bit::Z)),
                MCycleOp::Main(MicroOp::Fetch8(Registers8Bit::W)),
                MCycleOp::Main(MicroOp::Ld16(Registers16Bit::PC, Registers16Bit::WZ)),
                MCycleOp::End(MicroOp::Idle),
            ],
        }),
        0xC4 => Some(OpcodeSpec {
            name: "CALL NZ, imm16",
            cycles: 6,
            size: 3,
            flags: seq![],
            micro_ops: seq![
                MCycleOp::Main(MicroOp::Fetch8(Registers8Bit::Z)),
                MCycleOp::Cc(MicroOp::Fetch8(Registers8Bit::W), CheckCondition::NZ, 3),
                MCycleOp::End(MicroOp::Idle),
                MCycleOp::Main(MicroOp::Dec16(Registers16Bit::SP)),
                MCycleOp::Main(MicroOp::Write16msbDec(Registers16Bit::SP, Registers16Bit::PC)),
                MCycleOp::Main(MicroOp::Write16lsb(Registers16Bit::SP, Registers16Bit::PC)),
                MCycleOp::End(MicroOp::Ld16(Registers16Bit::PC, Registers16Bit::WZ)),
            ],
        }),
        0xC5 => Some(OpcodeSpec {
            name: "PUSH BC",
            cycles: 4,
            size: 1,
            flags: seq![],
            micro_ops: seq![
                MCycleOp::Main(MicroOp::Dec16(Registers16Bit::SP)),
                MCycleOp::Main(MicroOp::Write8Dec(Registers16Bit::SP, Registers8Bit::B)),
                MCycleOp::Main(MicroOp::Write8(Registers16Bit::SP, Registers8Bit::C)),
                MCycleOp::End(MicroOp::Idle),
            ],
        }),
        0xC6 => Some(OpcodeSpec {
            name: "ADD A, imm8",
            cycles: 2,
            size: 2,
            flags: seq![FlagBits::Z, FlagBits::N, FlagBits::H, FlagBits::C],
            micro_ops: seq![
                MCycleOp::Main(MicroOp::Fetch8(Registers8Bit::Z)),
                MCycleOp::End(MicroOp::Alu(AluOp::Add(Registers8Bit::A, Registers8Bit::Z))),
            ],
        }),
        0xC7 => Some(OpcodeSpec {
            name: "RST $00",
            cycles: 4,
            size: 1,
            flags: seq![],
            micro_ops: seq![
                MCycleOp::Main(MicroOp::Dec16(Registers16Bit::SP)),
                MCycleOp::Main(MicroOp::Write16msbDec(Registers16Bit::SP, Registers16Bit::PC)),
                MCycleOp::Main(MicroOp::Write16lsb(Registers16Bit::SP, Registers16Bit::PC)),
                MCycleOp::End(MicroOp::JumpVector(VectorAddress::V0)),
            ],
        }),
        0xC8 => Some(OpcodeSpec {
            name: "RET Z",
            cycles: 5,
            size: 1,
            flags: seq![],
            micro_ops: seq![
                MCycleOp::Cc(MicroOp::Idle, CheckCondition::Z, 2),
                MCycleOp::End(MicroOp::Idle),
                MCycleOp::Main(MicroOp::Read16lsbInc(Registers16Bit::WZ, Registers16Bit::SP)),
                MCycleOp::Main(MicroOp::Read16msbInc(Registers16Bit::WZ, Registers16Bit::SP)),
                MCycleOp::Main(MicroOp::Ld16(Registers16Bit::PC, Registers16Bit::WZ)),
                MCycleOp::End(MicroOp::Idle),
            ],
        }),
        0xC9 => Some(OpcodeSpec {
            name: "RET",
            cycles: 4,
            size: 1,
            flags: seq![],
            micro_ops: seq![
                MCycleOp::Main(MicroOp::Read16lsbInc(Registers16Bit::WZ, Registers16Bit::SP)),
                MCycleOp::Main(MicroOp::Read16msbInc(Registers16Bit::WZ, Registers16Bit::SP)),
                MCycleOp::Main(MicroOp::Ld16(Registers16Bit::PC, Registers16Bit::WZ)),
                MCycleOp::End(MicroOp::Idle),
            ],
        }),
        0xCA => Some(OpcodeSpec {
            name: "JP Z, imm16",
            cycles: 4,
            size: 3,
            flags: seq![],
            micro_ops: seq![
                MCycleOp::Main(MicroOp::Fetch8(Registers8Bit::Z)),
                MCycleOp::Cc(MicroOp::Fetch8(Registers8Bit::W), CheckCondition::Z, 3),
                MCycleOp::End(MicroOp::Idle),
                MCycleOp::Main(MicroOp::Ld16(Registers16Bit::PC, Registers16Bit::WZ)),
                MCycleOp::End(MicroOp::Idle),
            ],
        }),
        0xCB => Some(OpcodeSpec {
            name: "CB SUBSET",
            cycles: 0,
            size: 0,
            flags: seq![],
            micro_ops: seq![
                MCycleOp::Main(MicroOp::PrefixCB),
            ],
        }),
        0xCC => Some(OpcodeSpec {
            name: "CALL Z, imm16",
            cycles: 6,
            size: 3,
            flags: seq![],
            micro_ops: seq![
                MCycleOp::Main(MicroOp::Fetch8(Registers8Bit::Z)),
                MCycleOp::Cc(MicroOp::Fetch8(Registers8Bit::W), CheckCondition::Z, 3),
                MCycleOp::End(MicroOp::Idle),
                MCycleOp::Main(MicroOp::Dec16(Registers16Bit::SP)),
                MCycleOp::Main(MicroOp::Write16msbDec(Registers16Bit::SP, Registers16Bit::PC)),
                MCycleOp::Main(MicroOp::Write16lsb(Registers16Bit::SP, Registers16Bit::PC)),
                MCycleOp::End(MicroOp::Ld16(Registers16Bit::PC, Registers16Bit::WZ)),
            ],
        }),
        0xCD => Some(OpcodeSpec {
            name: "CALL imm16",
            cycles: 6,
            size: 3,
            flags: seq![],
            micro_ops: seq![
                MCycleOp::Main(MicroOp::Fetch8(Registers8Bit::Z)),
                MCycleOp::Main(MicroOp::Fetch8(Registers8Bit::W)),
                MCycleOp::Main(MicroOp::Dec16(Registers16Bit::SP)),
                MCycleOp::Main(MicroOp::Write16msbDec(Registers16Bit::SP, Registers16Bit::PC)),
                MCycleOp::Main(MicroOp::Write16lsb(Registers16Bit::SP, Registers16Bit::PC)),
                MCycleOp::End(MicroOp::Ld16(Registers16Bit::PC, Registers16Bit::WZ)),
            ],
        }),
        0xCE => Some(OpcodeSpec {
            name: "ADC A, imm8",
            cycles: 2,
            size: 2,
            flags: seq![FlagBits::Z, FlagBits::N, FlagBits::H, FlagBits::C],
            micro_ops: seq![
                MCycleOp::Main(MicroOp::Fetch8(Registers8Bit::Z)),
                MCycleOp::End(MicroOp::Alu(AluOp::Adc(Registers8Bit::A, Registers8Bit::Z))),
            ],
        }),
        0xCF => Some(OpcodeSpec {
            name: "RST $08",
            cycles: 4,
            size: 1,
            flags: seq![],
            micro_ops: seq![
                MCycleOp::Main(MicroOp::Dec16(Registers16Bit::SP)),
                MCycleOp::Main(MicroOp::Write16msbDec(Registers16Bit::SP, Registers16Bit::PC)),
                MCycleOp::Main(MicroOp::Write16lsb(Registers16Bit::SP, Registers16Bit::PC)),
                MCycleOp::End(MicroOp::JumpVector(VectorAddress::V1)),
            ],
        }),
        0xD0 => Some(OpcodeSpec {
            name: "RET NC",
            cycles: 5,
            size: 1,
            flags: seq![],
            micro_ops: seq![
                MCycleOp::Cc(MicroOp::Idle, CheckCondition::NC, 2),
                MCycleOp::End(MicroOp::Idle),
                MCycleOp::Main(MicroOp::Read16lsbInc(Registers16Bit::WZ, Registers16Bit::SP)),
                MCycleOp::Main(MicroOp::Read16msbInc(Registers16Bit::WZ, Registers16Bit::SP)),
                MCycleOp::Main(MicroOp::Ld16(Registers16Bit::PC, Registers16Bit::WZ)),
                MCycleOp::End(MicroOp::Idle),
            ],
        }),
        0xD1 => Some(OpcodeSpec {
            name: "POP DE",
            cycles: 3,
            size: 1,
            flags: seq![],
            micro_ops: seq![
                MCycleOp::Main(MicroOp::Read8Inc(Registers8Bit::Z, Registers16Bit::SP)),
                MCycleOp::Main(MicroOp::Read8Inc(Registers8Bit::W, Registers16Bit::SP)),
                MCycleOp::End(MicroOp::Ld16(Registers16Bit::DE, Registers16Bit::WZ)),
            ],
        }),
        0xD2 => Some(OpcodeSpec {
            name: "JP NC, imm16",
            cycles: 4,
            size: 3,
            flags: seq![],
            micro_ops: seq![
                MCycleOp::Main(MicroOp::Fetch8(Registers8Bit::Z)),
                MCycleOp::Cc(MicroOp::Fetch8(Registers8Bit::W), CheckCondition::NC, 3),
                MCycleOp::End(MicroOp::Idle),
                MCycleOp::Main(MicroOp::Ld16(Registers16Bit::PC, Registers16Bit::WZ)),
                MCycleOp::End(MicroOp::Idle),
            ],
        }),
        0xD4 => Some(OpcodeSpec {
            name: "CALL NC, imm16",
            cycles: 6,
            size: 3,
            flags: seq![],
            micro_ops: seq![
                MCycleOp::Main(MicroOp::Fetch8(Registers8Bit::Z)),
                MCycleOp::Cc(MicroOp::Fetch8(Registers8Bit::W), CheckCondition::NC, 3),
                MCycleOp::End(MicroOp::Idle),
                MCycleOp::Main(MicroOp::Dec16(Registers16Bit::SP)),
                MCycleOp::Main(MicroOp::Write16msbDec(Registers16Bit::SP, Registers16Bit::PC)),
                MCycleOp::Main(MicroOp::Write16lsb(Registers16Bit::SP, Registers16Bit::PC)),
                MCycleOp::End(MicroOp::Ld16(Registers16Bit::PC, Registers16Bit::WZ)),
            ],
        }),
        0xD5 => Some(OpcodeSpec {
            name: "PUSH DE",
            cycles: 4,
            size: 1,
            flags: seq![],
            micro_ops: seq![
                MCycleOp::Main(MicroOp::Dec16(Registers16Bit::SP)),
                MCycleOp::Main(MicroOp::Write8Dec(Registers16Bit::SP, Registers8Bit::D)),
                MCycleOp::Main(MicroOp::Write8(Registers16Bit::SP, Registers8Bit::E)),
                MCycleOp::End(MicroOp::Idle),
            ],
        }),
        0xD6 => Some(OpcodeSpec {
            name: "SUB A, imm8",
            cycles: 2,
            size: 2,
            flags: seq![FlagBits::Z, FlagBits::N, FlagBits::H, FlagBits::C],
            micro_ops: seq![
                MCycleOp::Main(MicroOp::Fetch8(Registers8Bit::Z)),
                MCycleOp::End(MicroOp::Alu(AluOp::Sub(Registers8Bit::A, Registers8Bit::Z))),
            ],
        }),
        0xD7 => Some(OpcodeSpec {
            name: "RST $10",
            cycles: 4,
            size: 1,
            flags: seq![],
            micro_ops: seq![
                MCycleOp::Main(MicroOp::Dec16(Registers16Bit::SP)),
                MCycleOp::Main(MicroOp::Write16msbDec(Registers16Bit::SP, Registers16Bit::PC)),
                MCycleOp::Main(MicroOp::Write16lsb(Registers16Bit::SP, Registers16Bit::PC)),
                MCycleOp::End(MicroOp::JumpVector(VectorAddress::V2)),
            ],
        }),
        0xD8 => Some(OpcodeSpec {
            name: "RET C",
            cycles: 5,
            size: 1,
            flags: seq![],
            micro_ops: seq![
                MCycleOp::Cc(MicroOp::Idle, CheckCondition::C, 2),
                MCycleOp::End(MicroOp::Idle),
                MCycleOp::Main(MicroOp::Read16lsbInc(Registers16Bit::WZ, Registers16Bit::SP)),
                MCycleOp::Main(MicroOp::Read16msbInc(Registers16Bit::WZ, Registers16Bit::SP)),
                MCycleOp::Main(MicroOp::Ld16(Registers16Bit::PC, Registers16Bit::WZ)),
                MCycleOp::End(MicroOp::Idle),
            ],
        }),
        0xD9 => Some(OpcodeSpec {
            name: "RETI",
            cycles: 4,
            size: 1,
            flags: seq![],
            micro_ops: seq![
                MCycleOp::Main(MicroOp::Read16lsbInc(Registers16Bit::WZ, Registers16Bit::SP)),
                MCycleOp::Main(MicroOp::Read16msbInc(Registers16Bit::WZ, Registers16Bit::SP)),
                MCycleOp::Main(MicroOp::Ld16(Registers16Bit::PC, Registers16Bit::WZ)),
                MCycleOp::End(MicroOp::ImeEnabled(true)),
            ],
        }),
        0xDA => Some(OpcodeSpec {
            name: "JP C, imm16",
            cycles: 4,
            size: 3,
            flags: seq![],
            micro_ops: seq![
                MCycleOp::Main(MicroOp::Fetch8(Registers8Bit::Z)),
                MCycleOp::Cc(MicroOp::Fetch8(Registers8Bit::W), CheckCondition::C, 3),
                MCycleOp::End(MicroOp::Idle),
                MCycleOp::Main(MicroOp::Ld16(Registers16Bit::PC, Registers16Bit::WZ)),
                MCycleOp::End(MicroOp::Idle),
            ],
        }),
        0xDC => Some(OpcodeSpec {
            name: "CALL C, imm16",
            cycles: 6,
            size: 3,
            flags: seq![],
            micro_ops: seq![
                MCycleOp::Main(MicroOp::Fetch8(Registers8Bit::Z)),
                MCycleOp::Cc(MicroOp::Fetch8(Registers8Bit::W), CheckCondition::C, 3),
                MCycleOp::End(MicroOp::Idle),
                MCycleOp::Main(MicroOp::Dec16(Registers16Bit::SP)),
                MCycleOp::Main(MicroOp::Write16msbDec(Registers16Bit::SP, Registers16Bit::PC)),
                MCycleOp::Main(MicroOp::Write16lsb(Registers16Bit::SP, Registers16Bit::PC)),
                MCycleOp::End(MicroOp::Ld16(Registers16Bit::PC, Registers16Bit::WZ)),
            ],
        }),
        0xDE => Some(OpcodeSpec {
            name: "SBC A, imm8",
            cycles: 2,
            size: 2,
            flags: seq![FlagBits::Z, FlagBits::N, FlagBits::H, FlagBits::C],
            micro_ops: seq![
                MCycleOp::Main(MicroOp::Fetch8(Registers8Bit::Z)),
                MCycleOp::End(MicroOp::Alu(AluOp::Sbc(Registers8Bit::A, Registers8Bit::Z))),
            ],
        }),
        0xDF => Some(OpcodeSpec {
            name: "RST $18",
            cycles: 4,
            size: 1,
            flags: seq![],
            micro_ops: seq![
                MCycleOp::Main(MicroOp::Dec16(Registers16Bit::SP)),
                MCycleOp::Main(MicroOp::Write16msbDec(Registers16Bit::SP, Registers16Bit::PC)),
                MCycleOp::Main(MicroOp::Write16lsb(Registers16Bit::SP, Registers16Bit::PC)),
                MCycleOp::End(MicroOp::JumpVector(VectorAddress::V3)),
            ],
        }),
        0xE0 => Some(OpcodeSpec {
            name: "LDH [imm8], A",
            cycles: 3,
            size: 2,
            flags: seq![],
            micro_ops: seq![
                MCycleOp::Main(MicroOp::Fetch8(Registers8Bit::Z)),
                MCycleOp::Main(MicroOp::Write8H(Registers8Bit::Z, Registers8Bit::A)),
                MCycleOp::End(MicroOp::Idle),
            ],
        }),
        0xE1 => Some(OpcodeSpec {
            name: "POP HL",
            cycles: 3,
            size: 1,
            flags: seq![],
            micro_ops: seq![
                MCycleOp::Main(MicroOp::Read8Inc(Registers8Bit::Z, Registers16Bit::SP)),
                MCycleOp::Main(MicroOp::Read8Inc(Registers8Bit::W, Registers16Bit::SP)),
                MCycleOp::End(MicroOp::Ld16(Registers16Bit::HL, Registers16Bit::WZ)),
            ],
        }),
        0xE2 => Some(OpcodeSpec {
            name: "LDH [C], A",
            cycles: 2,
            size: 1,
            flags: seq![],
            micro_ops: seq![
                MCycleOp::Main(MicroOp::Write8H(Registers8Bit::C, Registers8Bit::A)),
                MCycleOp::End(MicroOp::Idle),
            ],
        }),
        0xE5 => Some(OpcodeSpec {
            name: "PUSH HL",
            cycles: 4,
            size: 1,
            flags: seq![],
            micro_ops: seq![
                MCycleOp::Main(MicroOp::Dec16(Registers16Bit::SP)),
                MCycleOp::Main(MicroOp::Write8Dec(Registers16Bit::SP, Registers8Bit::H)),
                MCycleOp::Main(MicroOp::Write8(Registers16Bit::SP, Registers8Bit::L)),
                MCycleOp::End(MicroOp::Idle),
            ],
        }),
        0xE6 => Some(OpcodeSpec {
            name: "AND A, imm8",
            cycles: 2,
            size: 2,
            flags: seq![FlagBits::Z, FlagBits::N, FlagBits::H, FlagBits::C],
            micro_ops: seq![
                MCycleOp::Main(MicroOp::Fetch8(Registers8Bit::Z)),
                MCycleOp::End(MicroOp::Alu(AluOp::And(Registers8Bit::A, Registers8Bit::Z))),
            ],
        }),
        0xE7 => Some(OpcodeSpec {
            name: "RST $20",
            cycles: 4,
            size: 1,
            flags: seq![],
            micro_ops: seq![
                MCycleOp::Main(MicroOp::Dec16(Registers16Bit::SP)),
                MCycleOp::Main(MicroOp::Write16msbDec(Registers16Bit::SP, Registers16Bit::PC)),
                MCycleOp::Main(MicroOp::Write16lsb(Registers16Bit::SP, Registers16Bit::PC)),
                MCycleOp::End(MicroOp::JumpVector(VectorAddress::V4)),
            ],
        }),
        0xE8 => Some(OpcodeSpec {
            name: "ADD SP, e8",
            cycles: 4,
            size: 2,
            flags: seq![FlagBits::N, FlagBits::H, FlagBits::C],
            micro_ops: seq![
                MCycleOp::Main(MicroOp::Fetch8(Registers8Bit::Z)),
                MCycleOp::Main(MicroOp::SumSignedByte16(Registers16Bit::SP, Registers16Bit::WZ, true)),
                MCycleOp::Main(MicroOp::Idle),
                MCycleOp::End(MicroOp::Idu(IduOp::Pass(Registers16Bit::SP, Registers16Bit::WZ))),
            ],
        }),
        0xE9 => Some(OpcodeSpec {
            name: "JP HL",
            cycles: 1,
            size: 1,
            flags: seq![],
            micro_ops: seq![
                MCycleOp::End(MicroOp::Idu(IduOp::Pass(Registers16Bit::PC, Registers16Bit::HL))),
            ],
        }),
        0xEA => Some(OpcodeSpec {
            name: "LD [imm16], A",
            cycles: 4,
            size: 3,
            flags: seq![],
            micro_ops: seq![
                MCycleOp::Main(MicroOp::Fetch8(Registers8Bit::Z)),
                MCycleOp::Main(MicroOp::Fetch8(Registers8Bit::W)),
                MCycleOp::Main(MicroOp::Write8(Registers16Bit::WZ, Registers8Bit::A)),
                MCycleOp::End(MicroOp::Idle),
            ],
        }),
        0xEE => Some(OpcodeSpec {
            name: "XOR A, imm8",
            cycles: 2,
            size: 2,
            flags: seq![FlagBits::Z, FlagBits::N, FlagBits::H, FlagBits::C],
            micro_ops: seq![
                MCycleOp::Main(MicroOp::Fetch8(Registers8Bit::Z)),
                MCycleOp::End(MicroOp::Alu(AluOp::Xor(Registers8Bit::A, Registers8Bit::Z))),
            ],
        }),
        0xEF => Some(OpcodeSpec {
            name: "RST $28",
            cycles: 4,
            size: 1,
            flags: seq![],
            micro_ops: seq![
                MCycleOp::Main(MicroOp::Dec16(Registers16Bit::SP)),
                MCycleOp::Main(MicroOp::Write16msbDec(Registers16Bit::SP, Registers16Bit::PC)),
                MCycleOp::Main(MicroOp::Write16lsb(Registers16Bit::SP, Registers16Bit::PC)),
                MCycleOp::End(MicroOp::JumpVector(VectorAddress::V5)),
            ],
        }),
        0xF0 => Some(OpcodeSpec {
            name: "LDH A, [imm8]",
            cycles: 3,
            size: 2,
            flags: seq![],
            micro_ops: seq![
                MCycleOp::Main(MicroOp::Fetch8(Registers8Bit::Z)),
                MCycleOp::Main(MicroOp::Read8H(Registers8Bit::A, Registers8Bit::Z)),
                MCycleOp::End(MicroOp::Idle),
            ],
        }),
        0xF1 => Some(OpcodeSpec {
            name: "POP AF",
            cycles: 3,
            size: 1,
            flags: seq![FlagBits::Z, FlagBits::N, FlagBits::H, FlagBits::C],
            micro_ops: seq![
                MCycleOp::Main(MicroOp::Read8Inc(Registers8Bit::Z, Registers16Bit::SP)),
                MCycleOp::Main(MicroOp::Read8Inc(Registers8Bit::W, Registers16Bit::SP)),
                MCycleOp::End(MicroOp::Ld16(Registers16Bit::AF, Registers16Bit::WZ)),
            ],
        }),
        0xF2 => Some(OpcodeSpec {
            name: "LDH A, [C]",
            cycles: 2,
            size: 1,
            flags: seq![],
            micro_ops: seq![
                MCycleOp::Main(MicroOp::Read8H(Registers8Bit::A, Registers8Bit::C)),
                MCycleOp::End(MicroOp::Idle),
            ],
        }),
        0xF3 => Some(OpcodeSpec {
            name: "DI",
            cycles: 1,
            size: 1,
            flags: seq![],
            micro_ops: seq![
                MCycleOp::End(MicroOp::ImeEnabled(false)),
            ],
        }),
        0xF5 => Some(OpcodeSpec {
            name: "PUSH AF",
            cycles: 4,
            size: 1,
            flags: seq![],
            micro_ops: seq![
                MCycleOp::Main(MicroOp::Dec16(Registers16Bit::SP)),
                MCycleOp::Main(MicroOp::Write8Dec(Registers16Bit::SP, Registers8Bit::A)),
                MCycleOp::Main(MicroOp::Write8(Registers16Bit::SP, Registers8Bit::F)),
                MCycleOp::End(MicroOp::Idle),
            ],
        }),
        0xF6 => Some(OpcodeSpec {
            name: "OR A, imm8",
            cycles: 2,
            size: 2,
            flags: seq![FlagBits::Z, FlagBits::N, FlagBits::H, FlagBits::C],
            micro_ops: seq![
                MCycleOp::Main(MicroOp::Fetch8(Registers8Bit::Z)),
                MCycleOp::End(MicroOp::Alu(AluOp::Or(Registers8Bit::A, Registers8Bit::Z))),
            ],
        }),
        0xF7 => Some(OpcodeSpec {
            name: "RST $30",
            cycles: 4,
            size: 1,
            flags: seq![],
            micro_ops: seq![
                MCycleOp::Main(MicroOp::Dec16(Registers16Bit::SP)),
                MCycleOp::Main(MicroOp::Write16msbDec(Registers16Bit::SP, Registers16Bit::PC)),
                MCycleOp::Main(MicroOp::Write16lsb(Registers16Bit::SP, Registers16Bit::PC)),
                MCycleOp::End(MicroOp::JumpVector(VectorAddress::V6)),
            ],
        }),
        0xF8 => Some(OpcodeSpec {
            name: "LD HL, SP + e8",
            cycles: 3,
            size: 2,
            flags: seq![FlagBits::Z, FlagBits::N, FlagBits::H, FlagBits::C],
            micro_ops: seq![
                MCycleOp::Main(MicroOp::Fetch8(Registers8Bit::Z)),
                MCycleOp::Main(MicroOp::SumSignedByte16(Registers16Bit::SP, Registers16Bit::WZ, true)),
                MCycleOp::End(MicroOp::Idu(IduOp::Pass(Registers16Bit::HL, Registers16Bit::WZ))),
            ],
        }),
        0xF9 => Some(OpcodeSpec {
            name: "LD SP, HL",
            cycles: 2,
            size: 1,
            flags: seq![],
            micro_ops: seq![
                MCycleOp::Main(MicroOp::Ld16(Registers16Bit::SP, Registers16Bit::HL)),
                MCycleOp::End(MicroOp::Idle),
            ],
        }),
        0xFA => Some(OpcodeSpec {
            name: "LD A, [imm16]",
            cycles: 4,
            size: 3,
            flags: seq![],
            micro_ops: seq![
                MCycleOp::Main(MicroOp::Fetch8(Registers8Bit::Z)),
                MCycleOp::Main(MicroOp::Fetch8(Registers8Bit::W)),
                MCycleOp::Main(MicroOp::Read8(Registers8Bit::Z, Registers16Bit::WZ)),
                MCycleOp::End(MicroOp::Ld8(Registers8Bit::A, Registers8Bit::Z)),
            ],
        }),
        0xFB => Some(OpcodeSpec {
            name: "EI",
            cycles: 1,
            size: 1,
            flags: seq![],
            micro_ops: seq![
                MCycleOp::End(MicroOp::ImeEnabled(true)),
            ],
        }),
        0xFE => Some(OpcodeSpec {
            name: "CP A, imm8",
            cycles: 2,
            size: 2,
            flags: seq![FlagBits::Z, FlagBits::N, FlagBits::H, FlagBits::C],
            micro_ops: seq![
                MCycleOp::Main(MicroOp::Fetch8(Registers8Bit::Z)),
                MCycleOp::End(MicroOp::Alu(AluOp::Cp(Registers8Bit::A, Registers8Bit::Z))),
            ],
        }),
        0xFF => Some(OpcodeSpec {
            name: "RST $38",
            cycles: 4,
            size: 1,
            flags: seq![],
            micro_ops: seq![
                MCycleOp::Main(MicroOp::Dec16(Registers16Bit::SP)),
                MCycleOp::Main(MicroOp::Write16msbDec(Registers16Bit::SP, Registers16Bit::PC)),
                MCycleOp::Main(MicroOp::Write16lsb(Registers16Bit::SP, Registers16Bit::PC)),
                MCycleOp::End(MicroOp::JumpVector(VectorAddress::V7)),
            ],
        }),
        _ => None,
    }
}

} // verus!
