//! The CPU core: address-mode resolution, the arithmetic helpers, the
//! instruction dispatcher with its cycle accounting, interrupt entry, and
//! the frame driver.
use vstd::prelude::*;

use crate::bus::spec_is_plain;
use crate::bus::spec_read_ok;
use crate::bus::spec_read_plain;
use crate::bus::spec_write_ok;
use crate::emu::spec_byte_to_flags;
use crate::emu::spec_flags_to_byte;
use crate::emu::CpuFlags;
use crate::emu::EmuState;
use crate::errors::EmuError;
use crate::opcodes::decode;
use crate::opcodes::spec_decode;
use crate::opcodes::AddressMode;
use crate::opcodes::Mnemonic;
use crate::opcodes::Opcode;

verus! {

/// How many instructions one frame may take before the driver gives up:
/// a real frame needs a few thousand, so only a ROM that never enables
/// NMI reaches this.
pub const FRAME_INSTRUCTION_LIMIT: u64 = 1000000;

/// The cycles an address mode itself charges, on top of the universal
/// two per instruction and before any page-cross adjustment.
pub open spec fn spec_mode_cycles(m: AddressMode) -> int {
    match m {
        AddressMode::ABS => 2,
        AddressMode::ABX => 2,
        AddressMode::ABY => 2,
        AddressMode::IDX => 4,
        AddressMode::IDY => 3,
        AddressMode::IMM => 0,
        AddressMode::IMP => 0,
        AddressMode::IND => 2,
        AddressMode::REL => 0,
        AddressMode::ZPG => 1,
        AddressMode::ZPX => 2,
        AddressMode::ZPY => 2,
    }
}

/// How many operand bytes an address mode consumes from the program.
pub open spec fn spec_operand_len(m: AddressMode) -> int {
    match m {
        AddressMode::ABS => 2,
        AddressMode::ABX => 2,
        AddressMode::ABY => 2,
        AddressMode::IND => 2,
        AddressMode::IMP => 0,
        _ => 1,
    }
}

/// The modes whose effective address can cross a page and charge one
/// extra cycle.
pub open spec fn spec_can_page_cross(m: AddressMode) -> bool {
    m is ABX || m is ABY || m is IDY
}

/// The per-mnemonic base cycles charged on top of the universal two and
/// the address-mode cycles.
pub open spec fn spec_base_cycles(m: Mnemonic) -> int {
    match m {
        Mnemonic::JMP => 1,
        Mnemonic::JSR => 2,
        Mnemonic::PHA => 1,
        Mnemonic::PLA => 2,
        Mnemonic::RTI => 4,
        Mnemonic::RTS => 4,
        _ => 0,
    }
}

/// The eight conditional branches.
pub open spec fn spec_is_branch(m: Mnemonic) -> bool {
    ||| m is BCC
    ||| m is BCS
    ||| m is BEQ
    ||| m is BMI
    ||| m is BNE
    ||| m is BPL
    ||| m is BVC
    ||| m is BVS
}

/// The mnemonics whose only memory access is a write, so that an OAM DMA
/// (with its 513 or 514 extra cycles) can fire while they execute.
pub open spec fn spec_can_store(m: Mnemonic) -> bool {
    m is STA || m is STX || m is STY
}

/// Law: after an instruction, the cycle count has grown by exactly the
/// universal base of two, plus the documented address-mode cycles, plus
/// the documented per-mnemonic base, plus a page-cross adjustment only
/// for the modes that have one, plus up to two branch cycles only for
/// branches, plus the OAM DMA charge only for stores.
pub open spec fn spec_cycles_accounted(op: Opcode, before: int, after: int) -> bool {
    let extra = after - (before + 2 + spec_mode_cycles(op.address_mode) + spec_base_cycles(
        op.mnemonic,
    ));
    let page_max: int = if spec_can_page_cross(op.address_mode) {
        1
    } else {
        0
    };
    let branch_max: int = if spec_is_branch(op.mnemonic) {
        2
    } else {
        0
    };
    if spec_can_store(op.mnemonic) {
        (0 <= extra <= page_max) || (513 <= extra <= 514 + page_max)
    } else {
        0 <= extra <= page_max + branch_max
    }
}

/// The cycles one dispatched operation may add beyond the operand
/// resolution: its per-mnemonic base, plus up to two branch cycles for
/// branches, plus the OAM DMA charge for stores.
pub open spec fn spec_operation_cycles_ok(m: Mnemonic, delta: int) -> bool {
    let extra = delta - spec_base_cycles(m);
    if spec_can_store(m) {
        extra == 0 || 513 <= extra <= 514
    } else if spec_is_branch(m) {
        0 <= extra <= 2
    } else {
        extra == 0
    }
}

/// The operations whose only memory access (if any) is the operand read.
pub open spec fn spec_read_only_op(m: Mnemonic) -> bool {
    ||| m is XXX
    ||| m is NOP
    ||| m is ADC
    ||| m is SBC
    ||| m is AND
    ||| m is EOR
    ||| m is ORA
    ||| m is BIT
    ||| m is CMP
    ||| m is CPX
    ||| m is CPY
    ||| m is LDA
    ||| m is LDX
    ||| m is LDY
}

/// The operations that write their operand address: the stores and the
/// read-modify-write instructions.
pub open spec fn spec_writing_op(m: Mnemonic) -> bool {
    ||| m is DEC
    ||| m is INC
    ||| m is ASL
    ||| m is LSR
    ||| m is ROL
    ||| m is ROR
    ||| m is STA
    ||| m is STX
    ||| m is STY
}

/// The read-only operations that do plain loads, logic, or the bit
/// test.
pub open spec fn spec_load_logic_op(m: Mnemonic) -> bool {
    ||| m is XXX
    ||| m is NOP
    ||| m is LDA
    ||| m is LDX
    ||| m is LDY
    ||| m is AND
    ||| m is ORA
    ||| m is EOR
    ||| m is BIT
}

/// The four stack push and pull operations.
pub open spec fn spec_stack_op(m: Mnemonic) -> bool {
    ||| m is PHA
    ||| m is PHP
    ||| m is PLA
    ||| m is PLP
}

/// The operations that touch only registers and flags.
pub open spec fn spec_register_op(m: Mnemonic) -> bool {
    ||| m is CLC
    ||| m is CLD
    ||| m is CLI
    ||| m is CLV
    ||| m is SEC
    ||| m is SED
    ||| m is SEI
    ||| m is TAX
    ||| m is TAY
    ||| m is TSX
    ||| m is TXA
    ||| m is TYA
    ||| m is TXS
    ||| m is DEX
    ||| m is DEY
    ||| m is INX
    ||| m is INY
}

/// The zero and negative flags an 8-bit result leaves behind.
pub open spec fn spec_zn_flags(f: CpuFlags, value: u8) -> CpuFlags {
    CpuFlags { zero: value == 0, negative: value >= 128, ..f }
}

/// Whether a branch mnemonic is taken under the given flags.
pub open spec fn spec_branch_taken(m: Mnemonic, f: CpuFlags) -> bool {
    match m {
        Mnemonic::BCC => !f.carry,
        Mnemonic::BCS => f.carry,
        Mnemonic::BEQ => f.zero,
        Mnemonic::BMI => f.negative,
        Mnemonic::BNE => !f.zero,
        Mnemonic::BPL => !f.negative,
        Mnemonic::BVC => !f.overflow,
        Mnemonic::BVS => f.overflow,
        _ => false,
    }
}

/// The sign-extended value of a relative branch offset byte.
pub open spec fn spec_sign_extend(b: u8) -> int {
    if b < 128 {
        b as int
    } else {
        b - 256
    }
}

/// Whether every byte the addressing mode consumes or dereferences sits
/// in side-effect-free memory (RAM or ROM), so that resolving the
/// operand is a pure function of the machine state.
pub open spec fn spec_resolves_plainly(s: EmuState, m: AddressMode) -> bool {
    let pc = s.program_counter as int;
    match m {
        AddressMode::IMP | AddressMode::IMM => true,
        AddressMode::ZPG | AddressMode::ZPX | AddressMode::ZPY | AddressMode::REL
            | AddressMode::IDX | AddressMode::IDY => spec_is_plain(pc),
        AddressMode::ABS | AddressMode::ABX | AddressMode::ABY => spec_is_plain(pc)
            && spec_is_plain((pc + 1) % 0x10000),
        AddressMode::IND => {
            let b0 = spec_read_plain(s, pc);
            let b1 = spec_read_plain(s, (pc + 1) % 0x10000);
            let pointer = b0 + b1 * 256;
            let high_source = (pointer / 256) * 256 + (pointer % 256 + 1) % 256;
            &&& spec_is_plain(pc)
            &&& spec_is_plain((pc + 1) % 0x10000)
            &&& spec_is_plain(pointer)
            &&& spec_is_plain(high_source)
        },
    }
}

/// The two-byte little-endian base an absolute-mode instruction fetches.
pub open spec fn spec_abs_base(s: EmuState) -> int {
    let pc = s.program_counter as int;
    spec_read_plain(s, pc) + spec_read_plain(s, (pc + 1) % 0x10000) * 256
}

/// The zero-page byte pair an indirect-indexed instruction dereferences.
pub open spec fn spec_idy_base(s: EmuState) -> int {
    let pc = s.program_counter as int;
    let b0 = spec_read_plain(s, pc);
    s.ram@[b0 as int] + s.ram@[(b0 + 1) % 256] * 256
}

/// The effective operand address a plain resolution produces.
pub open spec fn spec_operand_target(s: EmuState, m: AddressMode) -> int {
    let pc = s.program_counter as int;
    let b0 = spec_read_plain(s, pc);
    match m {
        AddressMode::IMP => 0,
        AddressMode::IMM => pc,
        AddressMode::ZPG => b0 as int,
        AddressMode::ZPX => (b0 + s.reg_x) % 256,
        AddressMode::ZPY => (b0 + s.reg_y) % 256,
        AddressMode::REL => (((pc + 1) % 0x10000) + spec_sign_extend(b0)) % 0x10000,
        AddressMode::ABS => (spec_abs_base(s) + 0) % 0x10000,
        AddressMode::ABX => (spec_abs_base(s) + s.reg_x) % 0x10000,
        AddressMode::ABY => (spec_abs_base(s) + s.reg_y) % 0x10000,
        AddressMode::IDX => {
            let zp = (b0 + s.reg_x) % 256;
            s.ram@[zp] + s.ram@[(zp + 1) % 256] * 256
        },
        AddressMode::IDY => (spec_idy_base(s) + s.reg_y) % 0x10000,
        AddressMode::IND => {
            let b1 = spec_read_plain(s, (pc + 1) % 0x10000);
            let pointer = b0 + b1 * 256;
            let high_source = (pointer / 256) * 256 + (pointer % 256 + 1) % 256;
            spec_read_plain(s, pointer) + spec_read_plain(s, high_source) * 256
        },
    }
}

/// The cycles a plain resolution charges: the mode cycles, plus the
/// page-cross cycle exactly when the indexed sum leaves the base's page.
pub open spec fn spec_addressing_cycles(s: EmuState, m: AddressMode) -> int {
    match m {
        AddressMode::ABX | AddressMode::ABY => 2 + (if spec_abs_base(s) / 256
            != spec_operand_target(s, m) / 256 {
            1int
        } else {
            0int
        }),
        AddressMode::IDY => 3 + (if spec_idy_base(s) / 256 != spec_operand_target(s, m) / 256 {
            1int
        } else {
            0int
        }),
        _ => spec_mode_cycles(m),
    }
}

/// The machine after the opcode fetch: only the program counter moved.
pub open spec fn spec_after_fetch(s: EmuState) -> EmuState {
    EmuState { program_counter: (((s.program_counter + 1) % 0x10000) as u16), ..s }
}

/// The machine after the universal two-cycle charge and a plain operand
/// resolution: the operand bytes are consumed and the documented cycles
/// charged; nothing else has moved.
pub open spec fn spec_after_resolution(s: EmuState, m: AddressMode) -> EmuState {
    EmuState {
        program_counter: (((s.program_counter + spec_operand_len(m)) % 0x10000) as u16),
        cycle_count: ((s.cycle_count + 2 + spec_addressing_cycles(s, m)) as u64),
        ..s
    }
}

/// The transitions of the loads, the logical operations, the bit test,
/// and the do-nothing invalid and NOP forms, for operands in RAM or ROM.
#[verifier::opaque]
pub open spec fn spec_effect_load_logic(pre: EmuState, post: EmuState, op: Opcode, addr: int) -> bool {
    let m = op.mnemonic;
    let v = spec_read_plain(pre, addr);
    &&& ((m is XXX || m is NOP) ==> post == pre)
    &&& (m is LDA && spec_is_plain(addr) ==> post == (EmuState {
        reg_a: v,
        cpu_flags: spec_zn_flags(pre.cpu_flags, v),
        ..pre
    }))
    &&& (m is LDX && spec_is_plain(addr) ==> post == (EmuState {
        reg_x: v,
        cpu_flags: spec_zn_flags(pre.cpu_flags, v),
        ..pre
    }))
    &&& (m is LDY && spec_is_plain(addr) ==> post == (EmuState {
        reg_y: v,
        cpu_flags: spec_zn_flags(pre.cpu_flags, v),
        ..pre
    }))
    &&& (m is AND && spec_is_plain(addr) ==> post == (EmuState {
        reg_a: (pre.reg_a & v),
        cpu_flags: spec_zn_flags(pre.cpu_flags, pre.reg_a & v),
        ..pre
    }))
    &&& (m is ORA && spec_is_plain(addr) ==> post == (EmuState {
        reg_a: (pre.reg_a | v),
        cpu_flags: spec_zn_flags(pre.cpu_flags, pre.reg_a | v),
        ..pre
    }))
    &&& (m is EOR && spec_is_plain(addr) ==> post == (EmuState {
        reg_a: (pre.reg_a ^ v),
        cpu_flags: spec_zn_flags(pre.cpu_flags, pre.reg_a ^ v),
        ..pre
    }))
    &&& (m is BIT && spec_is_plain(addr) ==> post == (EmuState {
        cpu_flags: (CpuFlags {
            zero: (pre.reg_a & v) == 0,
            overflow: (v & 0x40) != 0,
            negative: (v & 0x80) != 0,
            ..pre.cpu_flags
        }),
        ..pre
    }))
}

/// The transitions of add and subtract with carry and the three
/// compares, for operands in RAM or ROM.
#[verifier::opaque]
pub open spec fn spec_effect_arithmetic(pre: EmuState, post: EmuState, op: Opcode, addr: int) -> bool {
    let m = op.mnemonic;
    let v = spec_read_plain(pre, addr);
    &&& (m is ADC && spec_is_plain(addr) ==> {
        &&& post == (EmuState { reg_a: post.reg_a, cpu_flags: post.cpu_flags, ..pre })
        &&& post.reg_a == (pre.reg_a + v + (if pre.cpu_flags.carry {
            1int
        } else {
            0int
        })) % 256
        &&& post.cpu_flags == (CpuFlags {
            carry: pre.reg_a + v + (if pre.cpu_flags.carry {
                1int
            } else {
                0int
            }) >= 256,
            overflow: ((pre.reg_a ^ post.reg_a) & (v ^ post.reg_a) & 0x80) != 0,
            zero: post.reg_a == 0,
            negative: post.reg_a >= 128,
            ..pre.cpu_flags
        })
    })
    &&& (m is SBC && spec_is_plain(addr) ==> {
        &&& post == (EmuState { reg_a: post.reg_a, cpu_flags: post.cpu_flags, ..pre })
        &&& post.reg_a == (pre.reg_a - v - (if pre.cpu_flags.carry {
            0int
        } else {
            1int
        })) % 256
        &&& post.cpu_flags == (CpuFlags {
            carry: pre.reg_a >= v + (if pre.cpu_flags.carry {
                0int
            } else {
                1int
            }),
            overflow: ((pre.reg_a ^ post.reg_a) & ((!v) ^ post.reg_a) & 0x80) != 0,
            zero: post.reg_a == 0,
            negative: post.reg_a >= 128,
            ..pre.cpu_flags
        })
    })
    &&& (m is CMP && spec_is_plain(addr) ==> post == (EmuState {
        cpu_flags: (CpuFlags {
            carry: pre.reg_a >= v,
            zero: pre.reg_a == v,
            negative: (pre.reg_a - v) % 256 >= 128,
            ..pre.cpu_flags
        }),
        ..pre
    }))
    &&& (m is CPX && spec_is_plain(addr) ==> post == (EmuState {
        cpu_flags: (CpuFlags {
            carry: pre.reg_x >= v,
            zero: pre.reg_x == v,
            negative: (pre.reg_x - v) % 256 >= 128,
            ..pre.cpu_flags
        }),
        ..pre
    }))
    &&& (m is CPY && spec_is_plain(addr) ==> post == (EmuState {
        cpu_flags: (CpuFlags {
            carry: pre.reg_y >= v,
            zero: pre.reg_y == v,
            negative: (pre.reg_y - v) % 256 >= 128,
            ..pre.cpu_flags
        }),
        ..pre
    }))
}

/// The transitions of the three stores, for RAM targets.
#[verifier::opaque]
pub open spec fn spec_effect_store(pre: EmuState, post: EmuState, op: Opcode, addr: int) -> bool {
    let m = op.mnemonic;
    &&& (m is STA && addr < 0x2000 ==> post == (EmuState { ram: post.ram, ..pre }) && post.ram@
        == pre.ram@.update(addr % 2048, pre.reg_a))
    &&& (m is STX && addr < 0x2000 ==> post == (EmuState { ram: post.ram, ..pre }) && post.ram@
        == pre.ram@.update(addr % 2048, pre.reg_x))
    &&& (m is STY && addr < 0x2000 ==> post == (EmuState { ram: post.ram, ..pre }) && post.ram@
        == pre.ram@.update(addr % 2048, pre.reg_y))
}

/// The transitions of the flag changes, register transfers, and
/// register increments and decrements.
#[verifier::opaque]
pub open spec fn spec_effect_register(pre: EmuState, post: EmuState, op: Opcode, addr: int) -> bool {
    let m = op.mnemonic;
    &&& (m is CLC ==> post == (EmuState {
        cpu_flags: (CpuFlags { carry: false, ..pre.cpu_flags }),
        ..pre
    }))
    &&& (m is CLD ==> post == (EmuState {
        cpu_flags: (CpuFlags { decimal: false, ..pre.cpu_flags }),
        ..pre
    }))
    &&& (m is CLI ==> post == (EmuState {
        cpu_flags: (CpuFlags { interrupt_disable: false, ..pre.cpu_flags }),
        ..pre
    }))
    &&& (m is CLV ==> post == (EmuState {
        cpu_flags: (CpuFlags { overflow: false, ..pre.cpu_flags }),
        ..pre
    }))
    &&& (m is SEC ==> post == (EmuState {
        cpu_flags: (CpuFlags { carry: true, ..pre.cpu_flags }),
        ..pre
    }))
    &&& (m is SED ==> post == (EmuState {
        cpu_flags: (CpuFlags { decimal: true, ..pre.cpu_flags }),
        ..pre
    }))
    &&& (m is SEI ==> post == (EmuState {
        cpu_flags: (CpuFlags { interrupt_disable: true, ..pre.cpu_flags }),
        ..pre
    }))
    &&& (m is TAX ==> post == (EmuState {
        reg_x: pre.reg_a,
        cpu_flags: spec_zn_flags(pre.cpu_flags, pre.reg_a),
        ..pre
    }))
    &&& (m is TAY ==> post == (EmuState {
        reg_y: pre.reg_a,
        cpu_flags: spec_zn_flags(pre.cpu_flags, pre.reg_a),
        ..pre
    }))
    &&& (m is TSX ==> post == (EmuState {
        reg_x: pre.stack_pointer,
        cpu_flags: spec_zn_flags(pre.cpu_flags, pre.stack_pointer),
        ..pre
    }))
    &&& (m is TXA ==> post == (EmuState {
        reg_a: pre.reg_x,
        cpu_flags: spec_zn_flags(pre.cpu_flags, pre.reg_x),
        ..pre
    }))
    &&& (m is TYA ==> post == (EmuState {
        reg_a: pre.reg_y,
        cpu_flags: spec_zn_flags(pre.cpu_flags, pre.reg_y),
        ..pre
    }))
    &&& (m is TXS ==> post == (EmuState { stack_pointer: pre.reg_x, ..pre }))
    &&& (m is DEX ==> post == (EmuState {
        reg_x: (((pre.reg_x + 255) % 256) as u8),
        cpu_flags: spec_zn_flags(pre.cpu_flags, (((pre.reg_x + 255) % 256) as u8)),
        ..pre
    }))
    &&& (m is DEY ==> post == (EmuState {
        reg_y: (((pre.reg_y + 255) % 256) as u8),
        cpu_flags: spec_zn_flags(pre.cpu_flags, (((pre.reg_y + 255) % 256) as u8)),
        ..pre
    }))
    &&& (m is INX ==> post == (EmuState {
        reg_x: (((pre.reg_x + 1) % 256) as u8),
        cpu_flags: spec_zn_flags(pre.cpu_flags, (((pre.reg_x + 1) % 256) as u8)),
        ..pre
    }))
    &&& (m is INY ==> post == (EmuState {
        reg_y: (((pre.reg_y + 1) % 256) as u8),
        cpu_flags: spec_zn_flags(pre.cpu_flags, (((pre.reg_y + 1) % 256) as u8)),
        ..pre
    }))
}

/// The transitions of the stack pushes and pulls.
#[verifier::opaque]
pub open spec fn spec_effect_stack(pre: EmuState, post: EmuState, op: Opcode, addr: int) -> bool {
    let m = op.mnemonic;
    &&& (m is PHA ==> post == (EmuState {
        ram: post.ram,
        stack_pointer: (((pre.stack_pointer + 255) % 256) as u8),
        cycle_count: post.cycle_count,
        ..pre
    }) && post.ram@ == pre.ram@.update(256 + pre.stack_pointer, pre.reg_a) && post.cycle_count
        == pre.cycle_count + 1)
    &&& (m is PHP ==> post == (EmuState {
        ram: post.ram,
        stack_pointer: (((pre.stack_pointer + 255) % 256) as u8),
        ..pre
    }) && post.ram@ == pre.ram@.update(
        256 + pre.stack_pointer,
        spec_flags_to_byte(pre.cpu_flags) | 0x10,
    ))
    &&& (m is PLA ==> post == (EmuState {
        reg_a: pre.ram@[256 + (pre.stack_pointer + 1) % 256],
        stack_pointer: (((pre.stack_pointer + 1) % 256) as u8),
        cpu_flags: spec_zn_flags(pre.cpu_flags, pre.ram@[256 + (pre.stack_pointer + 1) % 256]),
        cycle_count: post.cycle_count,
        ..pre
    }) && post.cycle_count == pre.cycle_count + 2)
    &&& (m is PLP ==> post == (EmuState {
        stack_pointer: (((pre.stack_pointer + 1) % 256) as u8),
        cpu_flags: spec_byte_to_flags(pre.ram@[256 + (pre.stack_pointer + 1) % 256]),
        ..pre
    }))
}

/// The transitions of the branches, jumps, subroutine and interrupt
/// entry and return.
#[verifier::opaque]
pub open spec fn spec_effect_jump(pre: EmuState, post: EmuState, op: Opcode, addr: int) -> bool {
    let m = op.mnemonic;
    &&& (m is JMP ==> post == (EmuState {
        program_counter: (addr as u16),
        cycle_count: post.cycle_count,
        ppu_status: post.ppu_status,
        ppu_ctrl: post.ppu_ctrl,
        ppu_nmi_flag: post.ppu_nmi_flag,
        ppu_odd_frame: post.ppu_odd_frame,
        ppu_x: post.ppu_x,
        ppu_y: post.ppu_y,
        sprites_this_scanline: post.sprites_this_scanline,
        frame_buffer: post.frame_buffer,
        last_ppu_cycle: post.last_ppu_cycle,
        ..pre
    }) && post.cycle_count == pre.cycle_count + 1)
    &&& (m is JSR ==> post == (EmuState {
        ram: post.ram,
        stack_pointer: (((pre.stack_pointer + 254) % 256) as u8),
        program_counter: (addr as u16),
        cycle_count: post.cycle_count,
        ..pre
    }) && post.ram@ == pre.ram@.update(
        256 + pre.stack_pointer,
        ((((pre.program_counter + 0xFFFF) % 0x10000) / 256) as u8),
    ).update(
        256 + (pre.stack_pointer + 255) % 256,
        ((((pre.program_counter + 0xFFFF) % 0x10000) % 256) as u8),
    ) && post.cycle_count == pre.cycle_count + 2)
    &&& (m is RTS ==> post == (EmuState {
        stack_pointer: (((pre.stack_pointer + 2) % 256) as u8),
        program_counter: post.program_counter,
        cycle_count: post.cycle_count,
        ..pre
    }) && post.program_counter == (pre.ram@[256 + (pre.stack_pointer + 2) % 256] * 256
        + pre.ram@[256 + (pre.stack_pointer + 1) % 256] + 1) % 0x10000 && post.cycle_count
        == pre.cycle_count + 4)
    &&& (m is RTI ==> post == (EmuState {
        stack_pointer: (((pre.stack_pointer + 3) % 256) as u8),
        program_counter: post.program_counter,
        cpu_flags: spec_byte_to_flags(pre.ram@[256 + (pre.stack_pointer + 1) % 256]),
        cycle_count: post.cycle_count,
        ..pre
    }) && post.program_counter == (pre.ram@[256 + (pre.stack_pointer + 3) % 256] * 256
        + pre.ram@[256 + (pre.stack_pointer + 2) % 256]) as u16 && post.cycle_count
        == pre.cycle_count + 4)
    &&& (m is BRK ==> post == (EmuState {
        ram: post.ram,
        stack_pointer: (((pre.stack_pointer + 253) % 256) as u8),
        program_counter: post.program_counter,
        ..pre
    }) && post.program_counter == (spec_read_plain(pre, 0xFFFF) * 256 + spec_read_plain(
        pre,
        0xFFFE,
    )) as u16 && post.ram@ == pre.ram@.update(
        256 + pre.stack_pointer,
        ((pre.program_counter / 256) as u8),
    ).update(
        256 + (pre.stack_pointer + 255) % 256,
        ((pre.program_counter % 256) as u8),
    ).update(
        256 + (pre.stack_pointer + 254) % 256,
        spec_flags_to_byte(pre.cpu_flags) | 0x10,
    ))
    &&& (spec_is_branch(m) ==> post == (EmuState {
        program_counter: post.program_counter,
        cycle_count: post.cycle_count,
        ..pre
    }) && post.program_counter == (if spec_branch_taken(m, pre.cpu_flags) {
        (addr as u16)
    } else {
        pre.program_counter
    }) && post.cycle_count == pre.cycle_count + (if spec_branch_taken(m, pre.cpu_flags) {
        1 + (if pre.program_counter / 256 != (addr as u16) / 256 {
            1int
        } else {
            0int
        })
    } else {
        0int
    }))
}

/// The documented state transition of one dispatched instruction, from
/// the machine `pre` just after operand resolution to the machine `post`
/// after the dispatch, with `addr` the resolved operand address.  Memory
/// operands are pinned when they sit in RAM or ROM; for the six
/// read-modify-write memory forms this predicate pins nothing, and the
/// dispatch layer adds only their cycle charge and their success on RAM
/// targets.
pub open spec fn spec_instruction_effect(pre: EmuState, post: EmuState, op: Opcode, addr: int) -> bool {
    let m = op.mnemonic;
    &&& (spec_load_logic_op(m) ==> spec_effect_load_logic(pre, post, op, addr))
    &&& (spec_read_only_op(m) && !spec_load_logic_op(m) ==> spec_effect_arithmetic(
        pre,
        post,
        op,
        addr,
    ))
    &&& (spec_can_store(m) ==> spec_effect_store(pre, post, op, addr))
    &&& (spec_register_op(m) ==> spec_effect_register(pre, post, op, addr))
    &&& (spec_stack_op(m) ==> spec_effect_stack(pre, post, op, addr))
    &&& (!spec_read_only_op(m) && !spec_writing_op(m) && !spec_register_op(m) && !spec_stack_op(m)
        ==> spec_effect_jump(pre, post, op, addr))
}

/// Whether the memory access an operation makes (if any) is decoded by
/// the bus: the operand read for read-only operations, the register
/// store for the stores, a RAM target for the read-modify-writes.
/// Register, stack, and flow operations touch only registers, the
/// stack page, or the interrupt vectors.
pub open spec fn spec_operand_access_ok(s: EmuState, op: Opcode, addr: int) -> bool {
    let m = op.mnemonic;
    if m is XXX || m is NOP {
        true
    } else if spec_read_only_op(m) {
        spec_read_ok(s, addr)
    } else if spec_can_store(m) {
        spec_write_ok(
            s,
            addr,
            if m is STA {
                s.reg_a
            } else if m is STX {
                s.reg_x
            } else {
                s.reg_y
            },
        )
    } else if spec_writing_op(m) {
        addr < 0x2000
    } else {
        true
    }
}

/// Add with carry: the 8-bit sum, the carry out of bit 7, and the
/// signed-overflow flag from the sign-comparison formula.
pub fn adc_result(a: u8, operand: u8, carry_in: bool) -> (r: (u8, bool, bool))
    ensures
        r.0 == (a + operand + (if carry_in { 1int } else { 0int })) % 256,
        r.1 == (a + operand + (if carry_in { 1int } else { 0int }) >= 256),
        r.2 == ((a ^ r.0) & (operand ^ r.0) & 0x80 != 0),
{
    let c: u16 = if carry_in { 1 } else { 0 };
    let total: u16 = a as u16 + operand as u16 + c;
    let value = (total % 256) as u8;
    let carry_out = total >= 256;
    let overflow = (a ^ value) & (operand ^ value) & 0x80 != 0;
    (value, carry_out, overflow)
}

/// Subtract with carry: the 8-bit difference, carry = NOT borrow, and
/// the signed-overflow flag (the add formula with the operand inverted).
pub fn sbc_result(a: u8, operand: u8, carry_in: bool) -> (r: (u8, bool, bool))
    ensures
        r.0 == (a - operand - (if carry_in { 0int } else { 1int })) % 256,
        r.1 == (a >= operand + (if carry_in { 0int } else { 1int })),
        r.2 == ((a ^ r.0) & ((!operand) ^ r.0) & 0x80 != 0),
{
    let b: u16 = if carry_in { 0 } else { 1 };
    let total: u16 = 256 + a as u16 - operand as u16 - b;
    let value = (total % 256) as u8;
    proof {
        vstd::arithmetic::div_mod::lemma_mod_add_multiples_vanish(
            a - operand - (if carry_in { 0int } else { 1int }),
            256,
        );
    }
    let carry_out = a as u16 >= operand as u16 + b;
    let overflow = (a ^ value) & ((!operand) ^ value) & 0x80 != 0;
    (value, carry_out, overflow)
}

impl EmuState {
    /// Enter an interrupt: push the return address high byte then low
    /// byte, push the given flags byte, and jump to the handler.
    fn jump_to_interrupt(&mut self, address: u16, flags_byte: u8)
        requires
            old(self).wf(),
        ensures
            final(self).wf(),
            *final(self) == (EmuState {
                ram: final(self).ram,
                stack_pointer: final(self).stack_pointer,
                program_counter: final(self).program_counter,
                ..*old(self)
            }),
            final(self).program_counter == address,
            final(self).stack_pointer == (old(self).stack_pointer + 253) % 256,
            final(self).ram@ == old(self).ram@.update(
                256 + old(self).stack_pointer,
                (old(self).program_counter / 256) as u8,
            ).update(
                256 + (old(self).stack_pointer + 255) % 256,
                (old(self).program_counter % 256) as u8,
            ).update(256 + (old(self).stack_pointer + 254) % 256, flags_byte),
    {
        self.push_to_stack((self.program_counter / 256) as u8);
        self.push_to_stack((self.program_counter % 256) as u8);
        self.push_to_stack(flags_byte);
        self.program_counter = address;
    }

    /// Resolve the operand of one instruction: consume the operand bytes
    /// the mode calls for, charge its cycles (plus one on a page cross
    /// for the modes that have one), and return the effective address.
    #[verifier::rlimit(100)]
    pub fn get_operand_address(&mut self, address_mode: AddressMode) -> (r: Result<u16, EmuError>)
        requires
            old(self).wf(),
            old(self).cycle_count <= u64::MAX - 16,
        ensures
            spec_resolves_plainly(*old(self), address_mode) ==> {
                &&& r == Ok::<u16, EmuError>(
                    spec_operand_target(*old(self), address_mode) as u16,
                )
                &&& *final(self) == (EmuState {
                    program_counter: final(self).program_counter,
                    cycle_count: final(self).cycle_count,
                    ..*old(self)
                })
                &&& final(self).cycle_count == old(self).cycle_count + spec_addressing_cycles(
                    *old(self),
                    address_mode,
                )
            },
            r is Err ==> r == Err::<u16, EmuError>(EmuError::InvalidAddress),
            final(self).wf(),
            final(self).rom_state == old(self).rom_state,
            final(self).ram == old(self).ram,
            final(self).stack_pointer == old(self).stack_pointer,
            final(self).reg_a == old(self).reg_a,
            final(self).reg_x == old(self).reg_x,
            final(self).reg_y == old(self).reg_y,
            final(self).cpu_flags == old(self).cpu_flags,
            old(self).ppu_nmi_flag ==> final(self).ppu_nmi_flag,
            old(self).cycle_count + spec_mode_cycles(address_mode) <= final(self).cycle_count
                <= old(self).cycle_count + spec_mode_cycles(address_mode) + (
            if spec_can_page_cross(address_mode) {
                1int
            } else {
                0int
            }),
            r is Ok ==> final(self).program_counter == (old(self).program_counter
                + spec_operand_len(address_mode)) % 0x10000,
            address_mode is IMP ==> r == Ok::<u16, EmuError>(0) && *final(self) == *old(self),
            address_mode is IMM ==> r == Ok::<u16, EmuError>(old(self).program_counter) && *final(self) == (EmuState { program_counter: final(self).program_counter, ..*old(self) }),
            ({
                let pc = old(self).program_counter as int;
                let b0 = spec_read_plain(*old(self), pc);
                let b1 = spec_read_plain(*old(self), (pc + 1) % 0x10000);
                &&& (address_mode is ZPG && spec_is_plain(pc) ==> r == Ok::<u16, EmuError>(
                    b0 as u16,
                ))
                &&& (address_mode is ZPX && spec_is_plain(pc) ==> r == Ok::<u16, EmuError>(
                    (((b0 + old(self).reg_x) % 256) as u16),
                ))
                &&& (address_mode is ZPY && spec_is_plain(pc) ==> r == Ok::<u16, EmuError>(
                    (((b0 + old(self).reg_y) % 256) as u16),
                ))
                &&& (address_mode is REL && spec_is_plain(pc) ==> r == Ok::<u16, EmuError>(
                    ((((pc + 1) % 0x10000) + spec_sign_extend(b0)) % 0x10000) as u16,
                ))
                &&& ((address_mode is ABS || address_mode is ABX || address_mode is ABY)
                    && spec_is_plain(pc) && spec_is_plain((pc + 1) % 0x10000) ==> {
                    let base = b0 + b1 * 256;
                    let off: int = if address_mode is ABX {
                        old(self).reg_x as int
                    } else if address_mode is ABY {
                        old(self).reg_y as int
                    } else {
                        0
                    };
                    let effective = (base + off) % 0x10000;
                    &&& r == Ok::<u16, EmuError>(effective as u16)
                    &&& final(self).cycle_count == old(self).cycle_count + 2 + (
                    if base / 256 != effective / 256 {
                        1int
                    } else {
                        0int
                    })
                })
                &&& (address_mode is IDX && spec_is_plain(pc) ==> {
                    let zp = (b0 + old(self).reg_x) % 256;
                    r == Ok::<u16, EmuError>(
                        (old(self).ram@[zp] + old(self).ram@[(zp + 1) % 256] * 256) as u16,
                    )
                })
                &&& (address_mode is IDY && spec_is_plain(pc) ==> {
                    let base = old(self).ram@[b0 as int] + old(self).ram@[(b0 + 1) % 256] * 256;
                    let effective = (base + old(self).reg_y) % 0x10000;
                    &&& r == Ok::<u16, EmuError>(effective as u16)
                    &&& final(self).cycle_count == old(self).cycle_count + 3 + (
                    if base / 256 != effective / 256 {
                        1int
                    } else {
                        0int
                    })
                })
                &&& (address_mode is IND && spec_is_plain(pc) && spec_is_plain((pc + 1) % 0x10000)
                    ==> {
                    let pointer = b0 + b1 * 256;
                    let high_source = (pointer / 256) * 256 + (pointer % 256 + 1) % 256;
                    (spec_is_plain(pointer) && spec_is_plain(high_source)) ==> r == Ok::<
                        u16,
                        EmuError,
                    >(
                        (spec_read_plain(*old(self), pointer) + spec_read_plain(
                            *old(self),
                            high_source,
                        ) * 256) as u16,
                    )
                })
            }),
    {
        match address_mode {
            AddressMode::ABS => self.resolve_absolute_indexed(0),
            AddressMode::ABX => {
                let offset = self.reg_x;
                self.resolve_absolute_indexed(offset)
            },
            AddressMode::ABY => {
                let offset = self.reg_y;
                self.resolve_absolute_indexed(offset)
            },
            AddressMode::IDX => self.resolve_indexed_indirect(),
            AddressMode::IDY => self.resolve_indirect_indexed(),
            AddressMode::IMM => {
                let address = self.program_counter;
                self.program_counter = self.program_counter.wrapping_add(1);
                Ok(address)
            },
            AddressMode::IMP => Ok(0),  // not used
            AddressMode::IND => self.resolve_indirect(),
            AddressMode::REL => self.resolve_relative(),
            AddressMode::ZPG => {
                self.cycle_count = self.cycle_count + 1;
                match self.read_next_program_byte() {
                    Ok(v) => Ok(v as u16),
                    Err(e) => Err(e),
                }
            },
            AddressMode::ZPX | AddressMode::ZPY => {
                self.cycle_count = self.cycle_count + 2;
                let base_address = match self.read_next_program_byte() {
                    Ok(v) => v,
                    Err(e) => {
                        return Err(e);
                    },
                };
                let offset = match address_mode {
                    AddressMode::ZPX => self.reg_x,
                    _ => self.reg_y,
                };
                Ok(base_address.wrapping_add(offset) as u16)
            },
        }
    }

    /// Absolute addressing, optionally indexed: fetch a two-byte base,
    /// add the index, and charge one extra cycle when the sum leaves the
    /// base's page.
    #[verifier::rlimit(100)]
    fn resolve_absolute_indexed(&mut self, offset: u8) -> (r: Result<u16, EmuError>)
        requires
            old(self).wf(),
            old(self).cycle_count <= u64::MAX - 16,
        ensures
            ({
                let pc = old(self).program_counter as int;
                spec_is_plain(pc) && spec_is_plain((pc + 1) % 0x10000)
            }) ==> *final(self) == (EmuState {
                program_counter: final(self).program_counter,
                cycle_count: final(self).cycle_count,
                ..*old(self)
            }),
            r is Err ==> r == Err::<u16, EmuError>(EmuError::InvalidAddress),
            final(self).wf(),
            final(self).rom_state == old(self).rom_state,
            final(self).ram == old(self).ram,
            final(self).stack_pointer == old(self).stack_pointer,
            final(self).reg_a == old(self).reg_a,
            final(self).reg_x == old(self).reg_x,
            final(self).reg_y == old(self).reg_y,
            final(self).cpu_flags == old(self).cpu_flags,
            old(self).ppu_nmi_flag ==> final(self).ppu_nmi_flag,
            old(self).cycle_count + 2 <= final(self).cycle_count <= old(self).cycle_count + 3,
            offset == 0 ==> final(self).cycle_count == old(self).cycle_count + 2,
            r is Ok ==> final(self).program_counter == (old(self).program_counter + 2) % 0x10000,
            ({
                let pc = old(self).program_counter as int;
                let b0 = spec_read_plain(*old(self), pc);
                let b1 = spec_read_plain(*old(self), (pc + 1) % 0x10000);
                (spec_is_plain(pc) && spec_is_plain((pc + 1) % 0x10000)) ==> {
                    let base = b0 + b1 * 256;
                    let effective = (base + offset) % 0x10000;
                    &&& r == Ok::<u16, EmuError>(effective as u16)
                    &&& final(self).cycle_count == old(self).cycle_count + 2 + (
                    if base / 256 != effective / 256 {
                        1int
                    } else {
                        0int
                    })
                }
            }),
    {
        self.cycle_count = self.cycle_count + 2;
        let lo_byte = match self.read_next_program_byte() {
            Ok(v) => v,
            Err(e) => {
                return Err(e);
            },
        };
        let hi_byte = match self.read_next_program_byte() {
            Ok(v) => v,
            Err(e) => {
                return Err(e);
            },
        };
        let base_address = (hi_byte as u16) * 256 + (lo_byte as u16);
        let address = base_address.wrapping_add(offset as u16);
        if base_address / 256 != address / 256 {
            self.cycle_count = self.cycle_count + 1;  // page boundary crossed
        }
        Ok(address)
    }

    /// Indexed indirect ((zp,X)): the X-offset zero-page byte pair holds
    /// the effective address.
    #[verifier::rlimit(100)]
    fn resolve_indexed_indirect(&mut self) -> (r: Result<u16, EmuError>)
        requires
            old(self).wf(),
            old(self).cycle_count <= u64::MAX - 16,
        ensures
            spec_is_plain(old(self).program_counter as int) ==> *final(self) == (EmuState {
                program_counter: final(self).program_counter,
                cycle_count: final(self).cycle_count,
                ..*old(self)
            }),
            r is Err ==> r == Err::<u16, EmuError>(EmuError::InvalidAddress),
            final(self).wf(),
            final(self).rom_state == old(self).rom_state,
            final(self).ram == old(self).ram,
            final(self).stack_pointer == old(self).stack_pointer,
            final(self).reg_a == old(self).reg_a,
            final(self).reg_x == old(self).reg_x,
            final(self).reg_y == old(self).reg_y,
            final(self).cpu_flags == old(self).cpu_flags,
            old(self).ppu_nmi_flag ==> final(self).ppu_nmi_flag,
            final(self).cycle_count == old(self).cycle_count + 4,
            r is Ok ==> final(self).program_counter == (old(self).program_counter + 1) % 0x10000,
            ({
                let pc = old(self).program_counter as int;
                let b0 = spec_read_plain(*old(self), pc);
                let zp = (b0 + old(self).reg_x) % 256;
                spec_is_plain(pc) ==> r == Ok::<u16, EmuError>(
                    (old(self).ram@[zp] + old(self).ram@[(zp + 1) % 256] * 256) as u16,
                )
            }),
    {
        self.cycle_count = self.cycle_count + 4;
        let zp_address = match self.read_next_program_byte() {
            Ok(v) => v,
            Err(e) => {
                return Err(e);
            },
        }.wrapping_add(self.reg_x);
        // The zero page is always internal RAM.
        let lo_byte = self.ram[zp_address as usize];
        let hi_byte = self.ram[(zp_address as usize + 1) % 256];
        Ok((hi_byte as u16) * 256 + (lo_byte as u16))
    }

    /// Indirect indexed ((zp),Y): a zero-page byte pair holds the base,
    /// Y is added, and a page cross charges one extra cycle.
    #[verifier::rlimit(100)]
    fn resolve_indirect_indexed(&mut self) -> (r: Result<u16, EmuError>)
        requires
            old(self).wf(),
            old(self).cycle_count <= u64::MAX - 16,
        ensures
            spec_is_plain(old(self).program_counter as int) ==> *final(self) == (EmuState {
                program_counter: final(self).program_counter,
                cycle_count: final(self).cycle_count,
                ..*old(self)
            }),
            r is Err ==> r == Err::<u16, EmuError>(EmuError::InvalidAddress),
            final(self).wf(),
            final(self).rom_state == old(self).rom_state,
            final(self).ram == old(self).ram,
            final(self).stack_pointer == old(self).stack_pointer,
            final(self).reg_a == old(self).reg_a,
            final(self).reg_x == old(self).reg_x,
            final(self).reg_y == old(self).reg_y,
            final(self).cpu_flags == old(self).cpu_flags,
            old(self).ppu_nmi_flag ==> final(self).ppu_nmi_flag,
            old(self).cycle_count + 3 <= final(self).cycle_count <= old(self).cycle_count + 4,
            r is Ok ==> final(self).program_counter == (old(self).program_counter + 1) % 0x10000,
            ({
                let pc = old(self).program_counter as int;
                let b0 = spec_read_plain(*old(self), pc);
                let base = old(self).ram@[b0 as int] + old(self).ram@[(b0 + 1) % 256] * 256;
                let effective = (base + old(self).reg_y) % 0x10000;
                spec_is_plain(pc) ==> {
                    &&& r == Ok::<u16, EmuError>(effective as u16)
                    &&& final(self).cycle_count == old(self).cycle_count + 3 + (
                    if base / 256 != effective / 256 {
                        1int
                    } else {
                        0int
                    })
                }
            }),
    {
        self.cycle_count = self.cycle_count + 3;
        let zp_address = match self.read_next_program_byte() {
            Ok(v) => v,
            Err(e) => {
                return Err(e);
            },
        };
        let lo_byte = self.ram[zp_address as usize];
        let hi_byte = self.ram[(zp_address as usize + 1) % 256];
        let base_address = (hi_byte as u16) * 256 + (lo_byte as u16);
        let address = base_address.wrapping_add(self.reg_y as u16);
        if base_address / 256 != address / 256 {
            self.cycle_count = self.cycle_count + 1;  // page boundary crossed
        }
        Ok(address)
    }

    /// Indirect addressing (JMP only), reproducing the 6502 page-wrap
    /// defect: when the pointer sits at the end of a page, its high byte
    /// is fetched from the start of that same page, not the next one.
    #[verifier::rlimit(100)]
    fn resolve_indirect(&mut self) -> (r: Result<u16, EmuError>)
        requires
            old(self).wf(),
            old(self).cycle_count <= u64::MAX - 16,
        ensures
            ({
                let pc = old(self).program_counter as int;
                let b0 = spec_read_plain(*old(self), pc);
                let b1 = spec_read_plain(*old(self), (pc + 1) % 0x10000);
                let pointer = b0 + b1 * 256;
                let high_source = (pointer / 256) * 256 + (pointer % 256 + 1) % 256;
                spec_is_plain(pc) && spec_is_plain((pc + 1) % 0x10000) && spec_is_plain(pointer)
                    && spec_is_plain(high_source)
            }) ==> *final(self) == (EmuState {
                program_counter: final(self).program_counter,
                cycle_count: final(self).cycle_count,
                ..*old(self)
            }),
            r is Err ==> r == Err::<u16, EmuError>(EmuError::InvalidAddress),
            final(self).wf(),
            final(self).rom_state == old(self).rom_state,
            final(self).ram == old(self).ram,
            final(self).stack_pointer == old(self).stack_pointer,
            final(self).reg_a == old(self).reg_a,
            final(self).reg_x == old(self).reg_x,
            final(self).reg_y == old(self).reg_y,
            final(self).cpu_flags == old(self).cpu_flags,
            old(self).ppu_nmi_flag ==> final(self).ppu_nmi_flag,
            final(self).cycle_count == old(self).cycle_count + 2,
            r is Ok ==> final(self).program_counter == (old(self).program_counter + 2) % 0x10000,
            ({
                let pc = old(self).program_counter as int;
                let b0 = spec_read_plain(*old(self), pc);
                let b1 = spec_read_plain(*old(self), (pc + 1) % 0x10000);
                let pointer = b0 + b1 * 256;
                let high_source = (pointer / 256) * 256 + (pointer % 256 + 1) % 256;
                (spec_is_plain(pc) && spec_is_plain((pc + 1) % 0x10000) && spec_is_plain(pointer)
                    && spec_is_plain(high_source)) ==> r == Ok::<u16, EmuError>(
                    (spec_read_plain(*old(self), pointer) + spec_read_plain(
                        *old(self),
                        high_source,
                    ) * 256) as u16,
                )
            }),
    {
        self.cycle_count = self.cycle_count + 2;
        let lo_byte = match self.read_next_program_byte() {
            Ok(v) => v,
            Err(e) => {
                return Err(e);
            },
        };
        let hi_byte = match self.read_next_program_byte() {
            Ok(v) => v,
            Err(e) => {
                return Err(e);
            },
        };
        let base_address = (hi_byte as u16) * 256 + (lo_byte as u16);
        let lo_byte_2 = match self.read_byte(base_address) {
            Ok(v) => v,
            Err(e) => {
                return Err(e);
            },
        };
        // The high byte wraps within the same 256-byte page.
        let hi_index = (base_address / 256) * 256 + (base_address % 256 + 1) % 256;
        let hi_byte_2 = match self.read_byte(hi_index) {
            Ok(v) => v,
            Err(e) => {
                return Err(e);
            },
        };
        Ok((hi_byte_2 as u16) * 256 + (lo_byte_2 as u16))
    }

    /// Relative addressing for branches: the target is the program
    /// counter after the offset byte, plus the sign-extended offset,
    /// wrapping around the 16-bit address space.
    #[verifier::rlimit(100)]
    fn resolve_relative(&mut self) -> (r: Result<u16, EmuError>)
        requires
            old(self).wf(),
            old(self).cycle_count <= u64::MAX - 16,
        ensures
            spec_is_plain(old(self).program_counter as int) ==> *final(self) == (EmuState {
                program_counter: final(self).program_counter,
                cycle_count: final(self).cycle_count,
                ..*old(self)
            }),
            r is Err ==> r == Err::<u16, EmuError>(EmuError::InvalidAddress),
            final(self).wf(),
            final(self).rom_state == old(self).rom_state,
            final(self).ram == old(self).ram,
            final(self).stack_pointer == old(self).stack_pointer,
            final(self).reg_a == old(self).reg_a,
            final(self).reg_x == old(self).reg_x,
            final(self).reg_y == old(self).reg_y,
            final(self).cpu_flags == old(self).cpu_flags,
            old(self).ppu_nmi_flag ==> final(self).ppu_nmi_flag,
            final(self).cycle_count == old(self).cycle_count,
            r is Ok ==> final(self).program_counter == (old(self).program_counter + 1) % 0x10000,
            ({
                let pc = old(self).program_counter as int;
                let b0 = spec_read_plain(*old(self), pc);
                spec_is_plain(pc) ==> r == Ok::<u16, EmuError>(
                    ((((pc + 1) % 0x10000) + spec_sign_extend(b0)) % 0x10000) as u16,
                )
            }),
    {
        let offset = match self.read_next_program_byte() {
            Ok(v) => v,
            Err(e) => {
                return Err(e);
            },
        };
        let delta: i32 = if offset < 128 {
            offset as i32
        } else {
            offset as i32 - 256
        };
        let target: i32 = self.program_counter as i32 + delta;
        let wrapped: u16 = if target < 0 {
            (target + 0x10000) as u16
        } else if target > 0xFFFF {
            (target - 0x10000) as u16
        } else {
            target as u16
        };
        proof {
            let t = target as int;
            if t < 0 {
                vstd::arithmetic::div_mod::lemma_mod_add_multiples_vanish(t, 0x10000);
                vstd::arithmetic::div_mod::lemma_small_mod((t + 0x10000) as nat, 0x10000);
            } else if t > 0xFFFF {
                vstd::arithmetic::div_mod::lemma_mod_add_multiples_vanish(t - 0x10000, 0x10000);
                vstd::arithmetic::div_mod::lemma_small_mod((t - 0x10000) as nat, 0x10000);
            } else {
                vstd::arithmetic::div_mod::lemma_small_mod(t as nat, 0x10000);
            }
        }
        Ok(wrapped)
    }
}


impl EmuState {
    /// Execute one already-decoded instruction: resolve its operand,
    /// dispatch on the mnemonic with the standard 6502 semantics, and
    /// charge exactly the documented cycles (the accounting law
    /// `spec_cycles_accounted`).  Invalid opcodes execute as no-ops.
    pub fn execute_decoded(&mut self, op: Opcode) -> (r: Result<(), EmuError>)
        requires
            old(self).wf(),
            old(self).cycle_count <= u64::MAX - 2048,
        ensures
            (spec_resolves_plainly(*old(self), op.address_mode) && spec_operand_access_ok(
                spec_after_resolution(*old(self), op.address_mode),
                op,
                spec_operand_target(*old(self), op.address_mode),
            )) ==> r is Ok,
            (r is Ok && spec_resolves_plainly(*old(self), op.address_mode))
                ==> spec_instruction_effect(
                spec_after_resolution(*old(self), op.address_mode),
                *final(self),
                op,
                spec_operand_target(*old(self), op.address_mode),
            ),
            r is Err ==> r == Err::<(), EmuError>(EmuError::InvalidAddress) || r == Err::<
                (),
                EmuError,
            >(EmuError::UnsupportedFeature),
            r is Ok ==> final(self).cycle_count >= old(self).cycle_count + 2,
            final(self).cycle_count >= old(self).cycle_count,
            final(self).wf(),
            final(self).rom_state == old(self).rom_state,
            old(self).ppu_nmi_flag ==> final(self).ppu_nmi_flag,
            r is Ok ==> spec_cycles_accounted(
                op,
                old(self).cycle_count as int,
                final(self).cycle_count as int,
            ),
    {
        self.cycle_count = self.cycle_count + 2;

        let operand_address = match self.get_operand_address(op.address_mode) {
            Ok(a) => a,
            Err(e) => {
                return Err(e);
            },
        };

        self.execute_operation(op, operand_address)
    }

    /// Dispatch one resolved instruction on its mnemonic, with the
    /// standard 6502 semantics; beyond the operand resolution it adds
    /// only the per-mnemonic base cycles, branch cycles, or a DMA charge.
    fn execute_operation(&mut self, op: Opcode, operand_address: u16) -> (r: Result<(), EmuError>)
        requires
            old(self).wf(),
            old(self).cycle_count <= u64::MAX - 1024,
        ensures
            spec_operand_access_ok(*old(self), op, operand_address as int) ==> r is Ok,
            r is Ok ==> spec_instruction_effect(
                *old(self),
                *final(self),
                op,
                operand_address as int,
            ),
            r is Err ==> r == Err::<(), EmuError>(EmuError::InvalidAddress) || r == Err::<
                (),
                EmuError,
            >(EmuError::UnsupportedFeature),
            final(self).cycle_count >= old(self).cycle_count,
            final(self).wf(),
            final(self).rom_state == old(self).rom_state,
            old(self).ppu_nmi_flag ==> final(self).ppu_nmi_flag,
            r is Ok ==> spec_operation_cycles_ok(
                op.mnemonic,
                final(self).cycle_count - old(self).cycle_count,
            ),
    {
        if match op.mnemonic {
            Mnemonic::XXX | Mnemonic::NOP | Mnemonic::ADC | Mnemonic::SBC | Mnemonic::AND
                | Mnemonic::EOR | Mnemonic::ORA | Mnemonic::BIT | Mnemonic::CMP | Mnemonic::CPX
                | Mnemonic::CPY | Mnemonic::LDA | Mnemonic::LDX | Mnemonic::LDY => true,
            _ => false,
        } {
            if match op.mnemonic {
                Mnemonic::ADC | Mnemonic::SBC | Mnemonic::CMP | Mnemonic::CPX | Mnemonic::CPY
                    => true,
                _ => false,
            } {
                self.execute_arithmetic_operation(op, operand_address)
            } else {
                self.execute_load_operation(op, operand_address)
            }
        } else if match op.mnemonic {
            Mnemonic::DEC | Mnemonic::INC | Mnemonic::ASL | Mnemonic::LSR | Mnemonic::ROL
                | Mnemonic::ROR | Mnemonic::STA | Mnemonic::STX | Mnemonic::STY => true,
            _ => false,
        } {
            self.execute_write_operation(op, operand_address)
        } else if match op.mnemonic {
            Mnemonic::CLC | Mnemonic::CLD | Mnemonic::CLI | Mnemonic::CLV | Mnemonic::SEC
                | Mnemonic::SED | Mnemonic::SEI | Mnemonic::TAX | Mnemonic::TAY | Mnemonic::TSX
                | Mnemonic::TXA | Mnemonic::TYA | Mnemonic::TXS | Mnemonic::DEX | Mnemonic::DEY
                | Mnemonic::INX | Mnemonic::INY => true,
            _ => false,
        } {
            self.execute_register_operation(op, operand_address)
        } else if match op.mnemonic {
            Mnemonic::PHA | Mnemonic::PHP | Mnemonic::PLA | Mnemonic::PLP => true,
            _ => false,
        } {
            self.execute_stack_operation(op, operand_address)
        } else {
            self.execute_jump_operation(op, operand_address)
        }
    }

    /// Loads, logical operations, and the bit test; invalid opcodes and
    /// NOP also land here and do nothing.
    #[verifier::rlimit(100)]
    fn execute_load_operation(&mut self, op: Opcode, operand_address: u16) -> (r: Result<(), EmuError>)
        requires
            old(self).wf(),
            old(self).cycle_count <= u64::MAX - 1024,
            spec_load_logic_op(op.mnemonic),
        ensures
            r is Err ==> r == Err::<(), EmuError>(EmuError::InvalidAddress) || r == Err::<
                (),
                EmuError,
            >(EmuError::UnsupportedFeature),
            final(self).cycle_count >= old(self).cycle_count,
            final(self).wf(),
            final(self).rom_state == old(self).rom_state,
            old(self).ppu_nmi_flag ==> final(self).ppu_nmi_flag,
            r is Ok ==> spec_operation_cycles_ok(
                op.mnemonic,
                final(self).cycle_count - old(self).cycle_count,
            ),
            (op.mnemonic is XXX || op.mnemonic is NOP) ==> r is Ok,
            !(op.mnemonic is XXX || op.mnemonic is NOP) ==> (r is Ok <==> spec_read_ok(
                *old(self),
                operand_address as int,
            )),
            r is Ok ==> spec_effect_load_logic(*old(self), *final(self), op, operand_address as int),
    {
        proof {
            reveal(spec_effect_load_logic);
        }
        match op.mnemonic {
            Mnemonic::XXX | Mnemonic::NOP => Ok(()),  // no work, no effect
            Mnemonic::LDA => self.op_lda(operand_address),
            Mnemonic::LDX => self.op_ldx(operand_address),
            Mnemonic::LDY => self.op_ldy(operand_address),
            Mnemonic::AND => self.op_and(operand_address),
            Mnemonic::ORA => self.op_ora(operand_address),
            Mnemonic::EOR => self.op_eor(operand_address),
            _ => self.op_bit(operand_address),
        }
    }

    /// Add and subtract with carry, and the three compares.
    #[verifier::rlimit(100)]
    fn execute_arithmetic_operation(&mut self, op: Opcode, operand_address: u16) -> (r: Result<(), EmuError>)
        requires
            old(self).wf(),
            old(self).cycle_count <= u64::MAX - 1024,
            spec_read_only_op(op.mnemonic) && !spec_load_logic_op(op.mnemonic),
        ensures
            r is Err ==> r == Err::<(), EmuError>(EmuError::InvalidAddress) || r == Err::<
                (),
                EmuError,
            >(EmuError::UnsupportedFeature),
            final(self).cycle_count >= old(self).cycle_count,
            final(self).wf(),
            final(self).rom_state == old(self).rom_state,
            old(self).ppu_nmi_flag ==> final(self).ppu_nmi_flag,
            r is Ok ==> spec_operation_cycles_ok(
                op.mnemonic,
                final(self).cycle_count - old(self).cycle_count,
            ),
            r is Ok <==> spec_read_ok(*old(self), operand_address as int),
            r is Ok ==> spec_effect_arithmetic(*old(self), *final(self), op, operand_address as int),
    {
        proof {
            reveal(spec_effect_arithmetic);
        }
        match op.mnemonic {
            Mnemonic::ADC => {
                return self.op_adc(operand_address);
            },
            Mnemonic::SBC => {
                return self.op_sbc(operand_address);
            },
            _ => {
                // CMP, CPX, CPY: compare without modifying the register.
                let register = match op.mnemonic {
                    Mnemonic::CMP => self.reg_a,
                    Mnemonic::CPX => self.reg_x,
                    _ => self.reg_y,
                };
                return self.op_compare(register, operand_address);
            },
        }
    }

    /// The operations that store to their operand address: stores,
    /// increments, decrements, shifts and rotates.
    #[verifier::rlimit(100)]
    fn execute_write_operation(&mut self, op: Opcode, operand_address: u16) -> (r: Result<(), EmuError>)
        requires
            old(self).wf(),
            old(self).cycle_count <= u64::MAX - 1024,
            spec_writing_op(op.mnemonic),
        ensures
            (!spec_can_store(op.mnemonic) && operand_address < 0x2000) ==> r is Ok,
            r is Err ==> r == Err::<(), EmuError>(EmuError::InvalidAddress) || r == Err::<
                (),
                EmuError,
            >(EmuError::UnsupportedFeature),
            final(self).cycle_count >= old(self).cycle_count,
            final(self).wf(),
            final(self).rom_state == old(self).rom_state,
            old(self).ppu_nmi_flag ==> final(self).ppu_nmi_flag,
            r is Ok ==> spec_operation_cycles_ok(
                op.mnemonic,
                final(self).cycle_count - old(self).cycle_count,
            ),
            op.mnemonic is STA ==> (r is Ok <==> spec_write_ok(
                *old(self),
                operand_address as int,
                old(self).reg_a,
            )),
            op.mnemonic is STX ==> (r is Ok <==> spec_write_ok(
                *old(self),
                operand_address as int,
                old(self).reg_x,
            )),
            op.mnemonic is STY ==> (r is Ok <==> spec_write_ok(
                *old(self),
                operand_address as int,
                old(self).reg_y,
            )),
            r is Ok ==> spec_effect_store(*old(self), *final(self), op, operand_address as int),
    {
        proof {
            reveal(spec_effect_store);
        }
        match op.mnemonic {
            Mnemonic::DEC => {
                let value = match self.read_byte(operand_address) {
                    Ok(v) => v,
                    Err(e) => {
                        return Err(e);
                    },
                }.wrapping_sub(1);
                match self.write_byte(operand_address, value) {
                    Ok(u) => u,
                    Err(e) => {
                        return Err(e);
                    },
                };
                self.set_zero_negative_flags(value);
            },
            Mnemonic::INC => {
                let value = match self.read_byte(operand_address) {
                    Ok(v) => v,
                    Err(e) => {
                        return Err(e);
                    },
                }.wrapping_add(1);
                match self.write_byte(operand_address, value) {
                    Ok(u) => u,
                    Err(e) => {
                        return Err(e);
                    },
                };
                self.set_zero_negative_flags(value);
            },
            Mnemonic::ASL | Mnemonic::LSR | Mnemonic::ROL | Mnemonic::ROR => {
                let old_value = match op.address_mode {
                    AddressMode::IMP => self.reg_a,
                    _ => match self.read_byte(operand_address) {
                        Ok(v) => v,
                        Err(e) => {
                            return Err(e);
                        },
                    },
                };
                let carry_bit: u8 = if self.cpu_flags.carry {
                    1
                } else {
                    0
                };
                let new_value = match op.mnemonic {
                    Mnemonic::ASL => old_value << 1u8,
                    Mnemonic::LSR => old_value >> 1u8,
                    Mnemonic::ROL => (old_value << 1u8) | carry_bit,
                    _ => (old_value >> 1u8) | (carry_bit << 7u8),
                };
                self.set_zero_negative_flags(new_value);
                self.cpu_flags.carry = match op.mnemonic {
                    Mnemonic::ASL | Mnemonic::ROL => old_value >= 128,
                    _ => old_value & 1 != 0,
                };
                match op.address_mode {
                    AddressMode::IMP => self.reg_a = new_value,
                    _ => {
                        match self.write_byte(operand_address, new_value) {
                            Ok(u) => u,
                            Err(e) => {
                                return Err(e);
                            },
                        };
                    },
                }
            },
            Mnemonic::STA => {
                let value = self.reg_a;
                match self.op_store(value, operand_address) {
                    Ok(u) => u,
                    Err(e) => {
                        return Err(e);
                    },
                };
            },
            Mnemonic::STX => {
                let value = self.reg_x;
                match self.op_store(value, operand_address) {
                    Ok(u) => u,
                    Err(e) => {
                        return Err(e);
                    },
                };
            },
            Mnemonic::STY => {
                let value = self.reg_y;
                match self.op_store(value, operand_address) {
                    Ok(u) => u,
                    Err(e) => {
                        return Err(e);
                    },
                };
            },
            _ => {},
        }
        Ok(())
    }

    /// Flag changes, register transfers, and register increments and
    /// decrements.
    #[verifier::rlimit(100)]
    fn execute_register_operation(&mut self, op: Opcode, operand_address: u16) -> (r: Result<(), EmuError>)
        requires
            old(self).wf(),
            old(self).cycle_count <= u64::MAX - 1024,
            spec_register_op(op.mnemonic),
        ensures
            final(self).rom_state == old(self).rom_state,
            old(self).ppu_nmi_flag ==> final(self).ppu_nmi_flag,
            r is Err ==> r == Err::<(), EmuError>(EmuError::InvalidAddress) || r == Err::<
                (),
                EmuError,
            >(EmuError::UnsupportedFeature),
            final(self).cycle_count >= old(self).cycle_count,
            final(self).wf(),
            r is Ok,
            final(self).cycle_count == old(self).cycle_count,
            r is Ok ==> spec_effect_register(*old(self), *final(self), op, operand_address as int),
    {
        proof {
            reveal(spec_effect_register);
        }
        match op.mnemonic {
            Mnemonic::CLC => {
                self.cpu_flags.carry = false;
                return Ok(());
            },
            Mnemonic::CLD => {
                self.cpu_flags.decimal = false;
                return Ok(());
            },
            Mnemonic::CLI => {
                self.cpu_flags.interrupt_disable = false;
                return Ok(());
            },
            Mnemonic::CLV => {
                self.cpu_flags.overflow = false;
                return Ok(());
            },
            Mnemonic::DEX => {
                self.reg_x = self.reg_x.wrapping_sub(1);
                let value = self.reg_x;
                self.set_zero_negative_flags(value);
                return Ok(());
            },
            Mnemonic::DEY => {
                self.reg_y = self.reg_y.wrapping_sub(1);
                let value = self.reg_y;
                self.set_zero_negative_flags(value);
                return Ok(());
            },
            Mnemonic::INX => {
                self.reg_x = self.reg_x.wrapping_add(1);
                let value = self.reg_x;
                self.set_zero_negative_flags(value);
                return Ok(());
            },
            Mnemonic::INY => {
                self.reg_y = self.reg_y.wrapping_add(1);
                let value = self.reg_y;
                self.set_zero_negative_flags(value);
                return Ok(());
            },
            Mnemonic::SEC => {
                self.cpu_flags.carry = true;
                return Ok(());
            },
            Mnemonic::SED => {
                self.cpu_flags.decimal = true;
                return Ok(());
            },
            Mnemonic::SEI => {
                self.cpu_flags.interrupt_disable = true;
                return Ok(());
            },
            Mnemonic::TAX => {
                self.reg_x = self.reg_a;
                let value = self.reg_x;
                self.set_zero_negative_flags(value);
                return Ok(());
            },
            Mnemonic::TAY => {
                self.reg_y = self.reg_a;
                let value = self.reg_y;
                self.set_zero_negative_flags(value);
                return Ok(());
            },
            Mnemonic::TSX => {
                self.reg_x = self.stack_pointer;
                let value = self.reg_x;
                self.set_zero_negative_flags(value);
                return Ok(());
            },
            Mnemonic::TXA => {
                self.reg_a = self.reg_x;
                let value = self.reg_a;
                self.set_zero_negative_flags(value);
                return Ok(());
            },
            Mnemonic::TXS => {
                self.stack_pointer = self.reg_x;
                return Ok(());
            },
            Mnemonic::TYA => {
                self.reg_a = self.reg_y;
                let value = self.reg_a;
                self.set_zero_negative_flags(value);
                return Ok(());
            },
            _ => {},
        }
        Ok(())
    }

    /// The stack pushes and pulls: the accumulator and the packed flags.
    #[verifier::rlimit(100)]
    fn execute_stack_operation(&mut self, op: Opcode, operand_address: u16) -> (r: Result<(), EmuError>)
        requires
            old(self).wf(),
            old(self).cycle_count <= u64::MAX - 1024,
            spec_stack_op(op.mnemonic),
        ensures
            r is Err ==> r == Err::<(), EmuError>(EmuError::InvalidAddress) || r == Err::<
                (),
                EmuError,
            >(EmuError::UnsupportedFeature),
            final(self).cycle_count >= old(self).cycle_count,
            final(self).wf(),
            final(self).rom_state == old(self).rom_state,
            old(self).ppu_nmi_flag ==> final(self).ppu_nmi_flag,
            r is Ok,
            spec_operation_cycles_ok(
                op.mnemonic,
                final(self).cycle_count - old(self).cycle_count,
            ),
            r is Ok ==> spec_effect_stack(*old(self), *final(self), op, operand_address as int),
    {
        proof {
            reveal(spec_effect_stack);
        }
        match op.mnemonic {
            Mnemonic::PHA => {
                let value = self.reg_a;
                self.push_to_stack(value);
                self.cycle_count = self.cycle_count + 1;
            },
            Mnemonic::PHP => {
                // PHP pushes the flags with both bit 5 and the "B" bit set.
                let flags = self.get_flags_as_u8() | 0x10;
                self.push_to_stack(flags);
            },
            Mnemonic::PLA => {
                self.reg_a = self.pull_from_stack();
                let value = self.reg_a;
                self.set_zero_negative_flags(value);
                self.cycle_count = self.cycle_count + 2;
            },
            Mnemonic::PLP => {
                let flags = self.pull_from_stack();
                self.set_flags_as_u8(flags);
            },
            _ => {},
        }
        Ok(())
    }

    /// Branches, jumps, subroutine and interrupt entry and return.
    #[verifier::rlimit(100)]
    fn execute_jump_operation(&mut self, op: Opcode, operand_address: u16) -> (r: Result<(), EmuError>)
        requires
            old(self).wf(),
            old(self).cycle_count <= u64::MAX - 1024,
            !spec_read_only_op(op.mnemonic) && !spec_writing_op(op.mnemonic)
                && !spec_register_op(op.mnemonic) && !spec_stack_op(op.mnemonic),
        ensures
            r is Err ==> r == Err::<(), EmuError>(EmuError::InvalidAddress) || r == Err::<
                (),
                EmuError,
            >(EmuError::UnsupportedFeature),
            final(self).cycle_count >= old(self).cycle_count,
            final(self).wf(),
            final(self).rom_state == old(self).rom_state,
            old(self).ppu_nmi_flag ==> final(self).ppu_nmi_flag,
            r is Ok,
            spec_operation_cycles_ok(
                op.mnemonic,
                final(self).cycle_count - old(self).cycle_count,
            ),
            r is Ok ==> spec_effect_jump(*old(self), *final(self), op, operand_address as int),
    {
        proof {
            reveal(spec_effect_jump);
        }
        match op.mnemonic {
            Mnemonic::BCC | Mnemonic::BCS | Mnemonic::BEQ | Mnemonic::BMI | Mnemonic::BNE
                | Mnemonic::BPL | Mnemonic::BVC | Mnemonic::BVS => {
                let condition = match op.mnemonic {
                    Mnemonic::BCC => !self.cpu_flags.carry,
                    Mnemonic::BCS => self.cpu_flags.carry,
                    Mnemonic::BEQ => self.cpu_flags.zero,
                    Mnemonic::BMI => self.cpu_flags.negative,
                    Mnemonic::BNE => !self.cpu_flags.zero,
                    Mnemonic::BPL => !self.cpu_flags.negative,
                    Mnemonic::BVC => !self.cpu_flags.overflow,
                    _ => self.cpu_flags.overflow,
                };
                if condition {
                    self.cycle_count = self.cycle_count + 1;
                    if self.program_counter / 256 != operand_address / 256 {
                        self.cycle_count = self.cycle_count + 1;  // crossed page boundary
                    }
                    self.program_counter = operand_address;
                }
                return Ok(());
            },
            Mnemonic::BRK => {
                let interrupt_lo = match self.read_byte(0xFFFE) {
                    Ok(v) => v,
                    Err(e) => {
                        return Err(e);
                    },
                };
                let interrupt_hi = match self.read_byte(0xFFFF) {
                    Ok(v) => v,
                    Err(e) => {
                        return Err(e);
                    },
                };
                let interrupt_address = (interrupt_hi as u16) * 256 + (interrupt_lo as u16);
                // BRK pushes the flags with both bit 5 and the "B" bit set.
                let flags = self.get_flags_as_u8() | 0x10;
                self.jump_to_interrupt(interrupt_address, flags);
                return Ok(());
            },
            Mnemonic::JMP => {
                self.cycle_count = self.cycle_count + 1;
                self.program_counter = operand_address;
                self.update_ppu();
                return Ok(());
            },
            Mnemonic::JSR => {
                let return_address = self.program_counter.wrapping_sub(1);
                self.push_to_stack((return_address / 256) as u8);
                self.push_to_stack((return_address % 256) as u8);
                self.program_counter = operand_address;
                self.cycle_count = self.cycle_count + 2;
                return Ok(());
            },
            Mnemonic::RTI => {
                // Pull the flags (bits 4 and 5 are discarded), then the
                // return address low byte first.
                let flags = self.pull_from_stack();
                self.set_flags_as_u8(flags);
                let return_lo = self.pull_from_stack();
                let return_hi = self.pull_from_stack();
                self.program_counter = (return_hi as u16) * 256 + (return_lo as u16);
                self.cycle_count = self.cycle_count + 4;
                return Ok(());
            },
            Mnemonic::RTS => {
                let return_lo = self.pull_from_stack();
                let return_hi = self.pull_from_stack();
                let return_address = (return_hi as u16) * 256 + (return_lo as u16);
                self.program_counter = return_address.wrapping_add(1);
                self.cycle_count = self.cycle_count + 4;
                return Ok(());
            },
            _ => {},
        }
        Ok(())
    }

    /// Run one instruction: fetch the instruction byte at the program
    /// counter, decode it, and execute it.  The cycle accounting law
    /// holds for whatever opcode the fetched byte decodes to; when the
    /// program counter sits in RAM or ROM, that byte is pinned down
    /// exactly.
    pub fn run_one_instruction(&mut self) -> (r: Result<(), EmuError>)
        requires
            old(self).wf(),
            old(self).cycle_count <= u64::MAX - 2048,
        ensures
            ({
                let op = spec_decode(
                    spec_read_plain(*old(self), old(self).program_counter as int),
                );
                let fetched = spec_after_fetch(*old(self));
                &&& ((spec_is_plain(old(self).program_counter as int) && spec_resolves_plainly(
                    fetched,
                    op.address_mode,
                ) && spec_operand_access_ok(
                    spec_after_resolution(fetched, op.address_mode),
                    op,
                    spec_operand_target(fetched, op.address_mode),
                )) ==> r is Ok)
                &&& ((r is Ok && spec_is_plain(old(self).program_counter as int)
                    && spec_resolves_plainly(fetched, op.address_mode))
                    ==> spec_instruction_effect(
                    spec_after_resolution(fetched, op.address_mode),
                    *final(self),
                    op,
                    spec_operand_target(fetched, op.address_mode),
                ))
            }),
            r is Err ==> r == Err::<(), EmuError>(EmuError::InvalidAddress) || r == Err::<
                (),
                EmuError,
            >(EmuError::UnsupportedFeature),
            r is Ok ==> final(self).cycle_count >= old(self).cycle_count + 2,
            final(self).cycle_count >= old(self).cycle_count,
            final(self).wf(),
            final(self).rom_state == old(self).rom_state,
            old(self).ppu_nmi_flag ==> final(self).ppu_nmi_flag,
            (r is Ok && spec_is_plain(old(self).program_counter as int))
                ==> spec_cycles_accounted(
                spec_decode(spec_read_plain(*old(self), old(self).program_counter as int)),
                old(self).cycle_count as int,
                final(self).cycle_count as int,
            ),
    {
        let instruction = match self.read_next_program_byte() {
            Ok(v) => v,
            Err(e) => {
                return Err(e);
            },
        };
        let opcode = decode(instruction);
        self.execute_decoded(opcode)
    }

    /// Service a pending NMI, if any: consume the edge-triggered request,
    /// push the return address high byte then low byte, push the flags
    /// with bit 5 set and the "B" bit clear, and jump to the handler whose
    /// address sits at 0xFFFA/0xFFFB.  Without a pending request, nothing
    /// changes.
    pub fn service_pending_nmi(&mut self)
        requires
            old(self).wf(),
        ensures
            final(self).wf(),
            !old(self).ppu_nmi_flag ==> *final(self) == *old(self),
            old(self).ppu_nmi_flag ==> {
                &&& *final(self) == (EmuState {
                    ppu_nmi_flag: false,
                    ram: final(self).ram,
                    stack_pointer: (((old(self).stack_pointer + 253) % 256) as u8),
                    program_counter: final(self).program_counter,
                    ..*old(self)
                })
                &&& final(self).program_counter == (spec_read_plain(*old(self), 0xFFFB) * 256
                    + spec_read_plain(*old(self), 0xFFFA)) as u16
                &&& final(self).ram@ == old(self).ram@.update(
                    256 + old(self).stack_pointer,
                    (old(self).program_counter / 256) as u8,
                ).update(
                    256 + (old(self).stack_pointer + 255) % 256,
                    (old(self).program_counter % 256) as u8,
                ).update(
                    256 + (old(self).stack_pointer + 254) % 256,
                    spec_flags_to_byte(old(self).cpu_flags),
                )
            },
    {
        if self.ppu_nmi_flag {
            self.ppu_nmi_flag = false;
            let interrupt_lo = match self.read_byte(0xFFFA) {
                Ok(v) => v,
                Err(_) => 0,
            };
            let interrupt_hi = match self.read_byte(0xFFFB) {
                Ok(v) => v,
                Err(_) => 0,
            };
            let interrupt_address = (interrupt_hi as u16) * 256 + (interrupt_lo as u16);
            let flags = self.get_flags_as_u8();
            self.jump_to_interrupt(interrupt_address, flags);
        }
    }

    /// Run one NMI-delimited frame: service a pending NMI, then execute
    /// instructions until the PPU raises the next one.  A ROM that never
    /// enables NMI would run forever, so the driver gives up with
    /// `FrameLimit` after a budget far beyond any real frame; it also
    /// gives up if the cycle counter has no headroom left.
    pub fn run_to_next_nmi(&mut self) -> (r: Result<(), EmuError>)
        requires
            old(self).wf(),
        ensures
            r is Err ==> r == Err::<(), EmuError>(EmuError::FrameLimit) || r == Err::<
                (),
                EmuError,
            >(EmuError::InvalidAddress) || r == Err::<(), EmuError>(EmuError::UnsupportedFeature),
            final(self).wf(),
            final(self).rom_state == old(self).rom_state,
            final(self).cycle_count >= old(self).cycle_count,
            r is Ok ==> final(self).ppu_nmi_flag && final(self).cycle_count >= old(self).cycle_count
                + 2,
            r == Err::<(), EmuError>(EmuError::FrameLimit) ==> (final(self).cycle_count > u64::MAX
                - 2048 || final(self).cycle_count >= old(self).cycle_count + 2
                * FRAME_INSTRUCTION_LIMIT),
    {
        self.service_pending_nmi();

        let ghost entry_rom = self.rom_state;
        let mut steps: u64 = 0;
        while steps < FRAME_INSTRUCTION_LIMIT
            invariant
                self.wf(),
                self.rom_state == entry_rom,
                entry_rom == old(self).rom_state,
                steps <= FRAME_INSTRUCTION_LIMIT,
                self.cycle_count >= old(self).cycle_count + 2 * steps,
            decreases FRAME_INSTRUCTION_LIMIT - steps,
        {
            if self.cycle_count > u64::MAX - 2048 {
                return Err(EmuError::FrameLimit);
            }
            match self.run_one_instruction() {
                Ok(u) => u,
                Err(e) => {
                    return Err(e);
                },
            };
            if self.ppu_nmi_flag {
                return Ok(());
            }
            steps = steps + 1;
        }
        Err(EmuError::FrameLimit)
    }
}


impl EmuState {
    /// Load the accumulator and set the zero and negative flags.
    #[verifier::rlimit(100)]
    fn op_lda(&mut self, operand_address: u16) -> (r: Result<(), EmuError>)
        requires
            old(self).wf(),
        ensures
            final(self).wf(),
            final(self).rom_state == old(self).rom_state,
            final(self).cycle_count == old(self).cycle_count,
            old(self).ppu_nmi_flag ==> final(self).ppu_nmi_flag,
            r is Ok <==> spec_read_ok(*old(self), operand_address as int),
            r is Err ==> r == Err::<(), EmuError>(EmuError::InvalidAddress),
            spec_is_plain(operand_address as int) ==> *final(self) == (EmuState {
                reg_a: spec_read_plain(*old(self), operand_address as int),
                cpu_flags: spec_zn_flags(old(self).cpu_flags, spec_read_plain(*old(self), operand_address as int)),
                ..*old(self)
            }),
    {
        let other = match self.read_byte(operand_address) {
            Ok(v) => v,
            Err(e) => {
                return Err(e);
            },
        };
        self.reg_a = other;
        let value = self.reg_a;
        self.set_zero_negative_flags(value);
        Ok(())
    }

    /// Load the X register and set the zero and negative flags.
    #[verifier::rlimit(100)]
    fn op_ldx(&mut self, operand_address: u16) -> (r: Result<(), EmuError>)
        requires
            old(self).wf(),
        ensures
            final(self).wf(),
            final(self).rom_state == old(self).rom_state,
            final(self).cycle_count == old(self).cycle_count,
            old(self).ppu_nmi_flag ==> final(self).ppu_nmi_flag,
            r is Ok <==> spec_read_ok(*old(self), operand_address as int),
            r is Err ==> r == Err::<(), EmuError>(EmuError::InvalidAddress),
            spec_is_plain(operand_address as int) ==> *final(self) == (EmuState {
                reg_x: spec_read_plain(*old(self), operand_address as int),
                cpu_flags: spec_zn_flags(old(self).cpu_flags, spec_read_plain(*old(self), operand_address as int)),
                ..*old(self)
            }),
    {
        let other = match self.read_byte(operand_address) {
            Ok(v) => v,
            Err(e) => {
                return Err(e);
            },
        };
        self.reg_x = other;
        let value = self.reg_x;
        self.set_zero_negative_flags(value);
        Ok(())
    }

    /// Load the Y register and set the zero and negative flags.
    #[verifier::rlimit(100)]
    fn op_ldy(&mut self, operand_address: u16) -> (r: Result<(), EmuError>)
        requires
            old(self).wf(),
        ensures
            final(self).wf(),
            final(self).rom_state == old(self).rom_state,
            final(self).cycle_count == old(self).cycle_count,
            old(self).ppu_nmi_flag ==> final(self).ppu_nmi_flag,
            r is Ok <==> spec_read_ok(*old(self), operand_address as int),
            r is Err ==> r == Err::<(), EmuError>(EmuError::InvalidAddress),
            spec_is_plain(operand_address as int) ==> *final(self) == (EmuState {
                reg_y: spec_read_plain(*old(self), operand_address as int),
                cpu_flags: spec_zn_flags(old(self).cpu_flags, spec_read_plain(*old(self), operand_address as int)),
                ..*old(self)
            }),
    {
        let other = match self.read_byte(operand_address) {
            Ok(v) => v,
            Err(e) => {
                return Err(e);
            },
        };
        self.reg_y = other;
        let value = self.reg_y;
        self.set_zero_negative_flags(value);
        Ok(())
    }

    /// Bitwise AND the operand into the accumulator and set the zero and negative flags.
    #[verifier::rlimit(100)]
    fn op_and(&mut self, operand_address: u16) -> (r: Result<(), EmuError>)
        requires
            old(self).wf(),
        ensures
            final(self).wf(),
            final(self).rom_state == old(self).rom_state,
            final(self).cycle_count == old(self).cycle_count,
            old(self).ppu_nmi_flag ==> final(self).ppu_nmi_flag,
            r is Ok <==> spec_read_ok(*old(self), operand_address as int),
            r is Err ==> r == Err::<(), EmuError>(EmuError::InvalidAddress),
            spec_is_plain(operand_address as int) ==> *final(self) == (EmuState {
                reg_a: (old(self).reg_a & spec_read_plain(*old(self), operand_address as int)),
                cpu_flags: spec_zn_flags(old(self).cpu_flags, old(self).reg_a & spec_read_plain(*old(self), operand_address as int)),
                ..*old(self)
            }),
    {
        let other = match self.read_byte(operand_address) {
            Ok(v) => v,
            Err(e) => {
                return Err(e);
            },
        };
        self.reg_a = self.reg_a & other;
        let value = self.reg_a;
        self.set_zero_negative_flags(value);
        Ok(())
    }

    /// Bitwise OR the operand into the accumulator and set the zero and negative flags.
    #[verifier::rlimit(100)]
    fn op_ora(&mut self, operand_address: u16) -> (r: Result<(), EmuError>)
        requires
            old(self).wf(),
        ensures
            final(self).wf(),
            final(self).rom_state == old(self).rom_state,
            final(self).cycle_count == old(self).cycle_count,
            old(self).ppu_nmi_flag ==> final(self).ppu_nmi_flag,
            r is Ok <==> spec_read_ok(*old(self), operand_address as int),
            r is Err ==> r == Err::<(), EmuError>(EmuError::InvalidAddress),
            spec_is_plain(operand_address as int) ==> *final(self) == (EmuState {
                reg_a: (old(self).reg_a | spec_read_plain(*old(self), operand_address as int)),
                cpu_flags: spec_zn_flags(old(self).cpu_flags, old(self).reg_a | spec_read_plain(*old(self), operand_address as int)),
                ..*old(self)
            }),
    {
        let other = match self.read_byte(operand_address) {
            Ok(v) => v,
            Err(e) => {
                return Err(e);
            },
        };
        self.reg_a = self.reg_a | other;
        let value = self.reg_a;
        self.set_zero_negative_flags(value);
        Ok(())
    }

    /// Bitwise exclusive-OR the operand into the accumulator and set the zero and negative flags.
    #[verifier::rlimit(100)]
    fn op_eor(&mut self, operand_address: u16) -> (r: Result<(), EmuError>)
        requires
            old(self).wf(),
        ensures
            final(self).wf(),
            final(self).rom_state == old(self).rom_state,
            final(self).cycle_count == old(self).cycle_count,
            old(self).ppu_nmi_flag ==> final(self).ppu_nmi_flag,
            r is Ok <==> spec_read_ok(*old(self), operand_address as int),
            r is Err ==> r == Err::<(), EmuError>(EmuError::InvalidAddress),
            spec_is_plain(operand_address as int) ==> *final(self) == (EmuState {
                reg_a: (old(self).reg_a ^ spec_read_plain(*old(self), operand_address as int)),
                cpu_flags: spec_zn_flags(old(self).cpu_flags, old(self).reg_a ^ spec_read_plain(*old(self), operand_address as int)),
                ..*old(self)
            }),
    {
        let other = match self.read_byte(operand_address) {
            Ok(v) => v,
            Err(e) => {
                return Err(e);
            },
        };
        self.reg_a = self.reg_a ^ other;
        let value = self.reg_a;
        self.set_zero_negative_flags(value);
        Ok(())
    }

    /// Bit test: Z from A AND the operand, V and N copied from operand bits 6 and 7.
    #[verifier::rlimit(100)]
    fn op_bit(&mut self, operand_address: u16) -> (r: Result<(), EmuError>)
        requires
            old(self).wf(),
        ensures
            final(self).wf(),
            final(self).rom_state == old(self).rom_state,
            final(self).cycle_count == old(self).cycle_count,
            old(self).ppu_nmi_flag ==> final(self).ppu_nmi_flag,
            r is Ok <==> spec_read_ok(*old(self), operand_address as int),
            r is Err ==> r == Err::<(), EmuError>(EmuError::InvalidAddress),
            spec_is_plain(operand_address as int) ==> *final(self) == (EmuState {
                cpu_flags: (CpuFlags {
                    zero: (old(self).reg_a & spec_read_plain(*old(self), operand_address as int)) == 0,
                    overflow: (spec_read_plain(*old(self), operand_address as int) & 0x40) != 0,
                    negative: (spec_read_plain(*old(self), operand_address as int) & 0x80) != 0,
                    ..old(self).cpu_flags
                }),
                ..*old(self)
            }),
    {
        let other = match self.read_byte(operand_address) {
            Ok(v) => v,
            Err(e) => {
                return Err(e);
            },
        };
        self.cpu_flags.zero = self.reg_a & other == 0;
        self.cpu_flags.overflow = other & 0x40 != 0;
        self.cpu_flags.negative = other & 0x80 != 0;
        Ok(())
    }

    /// Add the operand and the carry into the accumulator, with the documented carry and signed-overflow flags.
    #[verifier::rlimit(100)]
    fn op_adc(&mut self, operand_address: u16) -> (r: Result<(), EmuError>)
        requires
            old(self).wf(),
        ensures
            final(self).wf(),
            final(self).rom_state == old(self).rom_state,
            final(self).cycle_count == old(self).cycle_count,
            old(self).ppu_nmi_flag ==> final(self).ppu_nmi_flag,
            r is Ok <==> spec_read_ok(*old(self), operand_address as int),
            r is Err ==> r == Err::<(), EmuError>(EmuError::InvalidAddress),
            spec_is_plain(operand_address as int) ==> *final(self) == (EmuState {
                reg_a: final(self).reg_a,
                cpu_flags: final(self).cpu_flags,
                ..*old(self)
            }),
            spec_is_plain(operand_address as int) ==> {
                &&& final(self).reg_a == (old(self).reg_a + spec_read_plain(*old(self), operand_address as int) + (if old(self).cpu_flags.carry { 1int } else { 0int })) % 256
                &&& final(self).cpu_flags == (CpuFlags {
                    carry: old(self).reg_a + spec_read_plain(*old(self), operand_address as int) + (if old(self).cpu_flags.carry { 1int } else { 0int }) >= 256,
                    overflow: ((old(self).reg_a ^ final(self).reg_a) & (spec_read_plain(*old(self), operand_address as int) ^ final(self).reg_a) & 0x80) != 0,
                    zero: final(self).reg_a == 0,
                    negative: final(self).reg_a >= 128,
                    ..old(self).cpu_flags
                })
            },
    {
        let other = match self.read_byte(operand_address) {
            Ok(v) => v,
            Err(e) => {
                return Err(e);
            },
        };
        let alu = adc_result(self.reg_a, other, self.cpu_flags.carry);
        self.set_zero_negative_flags(alu.0);
        self.cpu_flags.overflow = alu.2;
        self.cpu_flags.carry = alu.1;
        self.reg_a = alu.0;
        Ok(())
    }

    /// Subtract the operand and the borrow from the accumulator, with carry = NOT borrow and the documented signed overflow.
    #[verifier::rlimit(100)]
    fn op_sbc(&mut self, operand_address: u16) -> (r: Result<(), EmuError>)
        requires
            old(self).wf(),
        ensures
            final(self).wf(),
            final(self).rom_state == old(self).rom_state,
            final(self).cycle_count == old(self).cycle_count,
            old(self).ppu_nmi_flag ==> final(self).ppu_nmi_flag,
            r is Ok <==> spec_read_ok(*old(self), operand_address as int),
            r is Err ==> r == Err::<(), EmuError>(EmuError::InvalidAddress),
            spec_is_plain(operand_address as int) ==> *final(self) == (EmuState {
                reg_a: final(self).reg_a,
                cpu_flags: final(self).cpu_flags,
                ..*old(self)
            }),
            spec_is_plain(operand_address as int) ==> {
                &&& final(self).reg_a == (old(self).reg_a - spec_read_plain(*old(self), operand_address as int) - (if old(self).cpu_flags.carry { 0int } else { 1int })) % 256
                &&& final(self).cpu_flags == (CpuFlags {
                    carry: old(self).reg_a >= spec_read_plain(*old(self), operand_address as int) + (if old(self).cpu_flags.carry { 0int } else { 1int }),
                    overflow: ((old(self).reg_a ^ final(self).reg_a) & ((!spec_read_plain(*old(self), operand_address as int)) ^ final(self).reg_a) & 0x80) != 0,
                    zero: final(self).reg_a == 0,
                    negative: final(self).reg_a >= 128,
                    ..old(self).cpu_flags
                })
            },
    {
        let other = match self.read_byte(operand_address) {
            Ok(v) => v,
            Err(e) => {
                return Err(e);
            },
        };
        let alu = sbc_result(self.reg_a, other, self.cpu_flags.carry);
        self.set_zero_negative_flags(alu.0);
        self.cpu_flags.overflow = alu.2;
        self.cpu_flags.carry = alu.1;
        self.reg_a = alu.0;
        Ok(())
    }

    /// Compare a register with the operand: C = register >= operand,
    /// Z = equality, N = bit 7 of the wrapped difference.  The register
    /// itself is not modified.
    #[verifier::rlimit(100)]
    fn op_compare(&mut self, register: u8, operand_address: u16) -> (r: Result<(), EmuError>)
        requires
            old(self).wf(),
        ensures
            final(self).wf(),
            final(self).rom_state == old(self).rom_state,
            final(self).cycle_count == old(self).cycle_count,
            old(self).ppu_nmi_flag ==> final(self).ppu_nmi_flag,
            r is Ok <==> spec_read_ok(*old(self), operand_address as int),
            r is Err ==> r == Err::<(), EmuError>(EmuError::InvalidAddress),
            spec_is_plain(operand_address as int) ==> *final(self) == (EmuState {
                cpu_flags: (CpuFlags {
                    carry: register >= spec_read_plain(*old(self), operand_address as int),
                    zero: register == spec_read_plain(*old(self), operand_address as int),
                    negative: (register - spec_read_plain(*old(self), operand_address as int)) % 256 >= 128,
                    ..old(self).cpu_flags
                }),
                ..*old(self)
            }),
    {
        let value = match self.read_byte(operand_address) {
            Ok(v) => v,
            Err(e) => {
                return Err(e);
            },
        };
        self.cpu_flags.carry = register >= value;
        self.cpu_flags.zero = register == value;
        self.cpu_flags.negative = register.wrapping_sub(value) >= 128;
        Ok(())
    }

    /// Store a register byte at the operand address through the bus.
    #[verifier::rlimit(100)]
    fn op_store(&mut self, value: u8, operand_address: u16) -> (r: Result<(), EmuError>)
        requires
            old(self).wf(),
            old(self).cycle_count <= u64::MAX - 1024,
        ensures
            final(self).wf(),
            final(self).rom_state == old(self).rom_state,
            final(self).cycle_count >= old(self).cycle_count,
            old(self).ppu_nmi_flag ==> final(self).ppu_nmi_flag,
            r is Ok <==> spec_write_ok(*old(self), operand_address as int, value),
            r is Err ==> r == Err::<(), EmuError>(EmuError::InvalidAddress) || r == Err::<
                (),
                EmuError,
            >(EmuError::UnsupportedFeature),
            operand_address != 0x4014 ==> final(self).cycle_count == old(self).cycle_count,
            operand_address == 0x4014 && r is Ok ==> final(self).cycle_count == old(
                self,
            ).cycle_count + 513 + (old(self).cycle_count % 2),
            operand_address < 0x2000 ==> r is Ok && *final(self) == (EmuState {
                ram: final(self).ram,
                ..*old(self)
            }) && final(self).ram@ == old(self).ram@.update(operand_address as int % 2048, value),
    {
        match self.write_byte(operand_address, value) {
            Ok(u) => u,
            Err(e) => {
                return Err(e);
            },
        };
        Ok(())
    }
}

} // verus!
