//! The execution engine: owns the register file, the memory bus, the program
//! counter, the stack pointer and the halt flag, and runs fetch-decode-execute
//! one instruction per `step`. The whole transition is specified by
//! `spec_exec`, a pure function from machine state and instruction to the
//! next machine state; 8-bit values wrap modulo 256 and 16-bit values modulo
//! 65536, so no implemented instruction can fault.

use crate::bus::MEMORY_SIZE;
use crate::bus::MemoryBus;
use crate::instructions::ADDHLTarget;
use crate::instructions::ArithmeticTarget;
use crate::instructions::IncDecTarget;
use crate::instructions::Instruction;
use crate::instructions::JumpTest;
use crate::instructions::LoadByteSource;
use crate::instructions::LoadByteTarget;
use crate::instructions::LoadType;
use crate::instructions::StackTarget;
use crate::instructions::spec_decode;
use crate::registers::FlagsRegister;
use crate::registers::Registers;
use crate::registers::spec_flags_from_byte;
use crate::registers::spec_flags_to_byte;
use crate::registers::spec_high;
use crate::registers::spec_low;
use crate::registers::spec_pair;
use vstd::prelude::*;
use vstd::wrapping::u16_specs;
use vstd::wrapping::u8_specs;

verus! {

/// A fatal condition: the emulated machine cannot meaningfully continue past
/// either kind, so the driver is expected to abort on one.
#[derive(Copy, Clone, Debug, PartialEq, Eq)]
pub enum Fatal {
    /// Decode found no mapping for the fetched byte.
    UnknownOpcode { byte: u8, prefixed: bool },
    /// Decode succeeded but execution has no defined behavior yet.
    UnimplementedInstruction { instruction: Instruction },
}

/// The machine state as the contracts see it: the seven registers, the
/// flags, the program counter, the stack pointer, the halt flag, and the
/// whole 64KB address space as one byte sequence (the video-RAM window
/// included, at its mapped addresses).
#[verifier::ext_equal]
pub struct CpuState {
    pub a: u8,
    pub b: u8,
    pub c: u8,
    pub d: u8,
    pub e: u8,
    pub h: u8,
    pub l: u8,
    pub f: FlagsRegister,
    pub pc: u16,
    pub sp: u16,
    pub halted: bool,
    pub mem: Seq<u8>,
}

impl CpuState {
    pub open spec fn bc(self) -> u16 {
        spec_pair(self.b, self.c)
    }

    pub open spec fn de(self) -> u16 {
        spec_pair(self.d, self.e)
    }

    pub open spec fn hl(self) -> u16 {
        spec_pair(self.h, self.l)
    }

    pub open spec fn af(self) -> u16 {
        spec_pair(self.a, spec_flags_to_byte(self.f))
    }

    /// The little-endian 16-bit word whose low byte sits at `pc + 1`.
    pub open spec fn word_arg(self) -> u16 {
        spec_pair(
            self.mem[u16_specs::wrapping_add(self.pc, 2) as int],
            self.mem[u16_specs::wrapping_add(self.pc, 1) as int],
        )
    }

    /// The state after pushing `value`: the stack pointer drops by two and
    /// the word's two bytes land below the old stack top, high byte first.
    pub open spec fn pushed(self, value: u16) -> CpuState {
        let sp1 = u16_specs::wrapping_sub(self.sp, 1);
        let sp2 = u16_specs::wrapping_sub(sp1, 1);
        CpuState {
            sp: sp2,
            mem: self.mem.update(sp1 as int, spec_high(value)).update(sp2 as int, spec_low(value)),
            ..self
        }
    }

    /// The word a pop reads: low byte at the stack pointer, high byte above.
    pub open spec fn popped_value(self) -> u16 {
        spec_pair(self.mem[u16_specs::wrapping_add(self.sp, 1) as int], self.mem[self.sp as int])
    }
}

/// Whether a jump condition holds under the given flags.
pub open spec fn test_passes(t: JumpTest, f: FlagsRegister) -> bool {
    match t {
        JumpTest::NotZero => !f.zero,
        JumpTest::Zero => f.zero,
        JumpTest::NotCarry => !f.carry,
        JumpTest::Carry => f.carry,
        JumpTest::Always => true,
    }
}

/// Flags after an 8-bit addition `a + v`: zero of the wrapped sum, subtract
/// cleared, half-carry from the low nibbles, carry on 8-bit overflow.
pub open spec fn add_flags(a: u8, v: u8) -> FlagsRegister {
    FlagsRegister {
        zero: u8_specs::wrapping_add(a, v) == 0,
        subtract: false,
        half_carry: a % 16 + v % 16 > 15,
        carry: a + v > 255,
    }
}

/// Flags after a 16-bit `HL + v`: zero of the wrapped sum, subtract cleared,
/// a byte-level (not nibble-level) half-carry check, carry on 16-bit
/// overflow.
pub open spec fn addhl_flags(hl: u16, v: u16) -> FlagsRegister {
    FlagsRegister {
        zero: u16_specs::wrapping_add(hl, v) == 0,
        subtract: false,
        half_carry: hl % 256 + v % 256 > 255,
        carry: hl + v > 65535,
    }
}

/// Flags after an 8-bit decrement of `v`: zero of the wrapped result,
/// subtract set, half-carry when the low nibble borrows, carry unchanged.
pub open spec fn dec_flags(v: u8, carry: bool) -> FlagsRegister {
    FlagsRegister {
        zero: u8_specs::wrapping_sub(v, 1) == 0,
        subtract: true,
        half_carry: v % 16 == 0,
        carry,
    }
}

/// The register an arithmetic operand names.
pub open spec fn arith_value(s: CpuState, t: ArithmeticTarget) -> u8 {
    match t {
        ArithmeticTarget::A => s.a,
        ArithmeticTarget::B => s.b,
        ArithmeticTarget::C => s.c,
        ArithmeticTarget::D => s.d,
        ArithmeticTarget::E => s.e,
        ArithmeticTarget::H => s.h,
        ArithmeticTarget::L => s.l,
    }
}

/// The byte a load source denotes: a register, the immediate byte at
/// `pc + 1`, or the byte at address HL.
pub open spec fn ld_source_value(s: CpuState, src: LoadByteSource) -> u8 {
    match src {
        LoadByteSource::A => s.a,
        LoadByteSource::B => s.b,
        LoadByteSource::C => s.c,
        LoadByteSource::D => s.d,
        LoadByteSource::E => s.e,
        LoadByteSource::H => s.h,
        LoadByteSource::L => s.l,
        LoadByteSource::D8 => s.mem[u16_specs::wrapping_add(s.pc, 1) as int],
        LoadByteSource::HLI => s.mem[s.hl() as int],
    }
}

/// The state after storing `v` into a load target: a register, or the byte
/// at address HL.
pub open spec fn ld_store(s: CpuState, t: LoadByteTarget, v: u8) -> CpuState {
    match t {
        LoadByteTarget::A => CpuState { a: v, ..s },
        LoadByteTarget::B => CpuState { b: v, ..s },
        LoadByteTarget::C => CpuState { c: v, ..s },
        LoadByteTarget::D => CpuState { d: v, ..s },
        LoadByteTarget::E => CpuState { e: v, ..s },
        LoadByteTarget::H => CpuState { h: v, ..s },
        LoadByteTarget::L => CpuState { l: v, ..s },
        LoadByteTarget::HLI => CpuState { mem: s.mem.update(s.hl() as int, v), ..s },
    }
}

/// Which decoded instructions the engine can execute. The word-load,
/// indirect-load and rotate forms are recognized by the decoder but are an
/// explicit scope boundary: executing one is a fatal condition.
pub open spec fn implemented(i: Instruction) -> bool {
    match i {
        Instruction::LD(lt) => match lt {
            LoadType::Byte(_, _) => true,
            _ => false,
        },
        Instruction::RLCA => false,
        Instruction::RRCA => false,
        Instruction::RLA => false,
        Instruction::RRA => false,
        _ => true,
    }
}

/// The full effect of executing one implemented instruction, program-counter
/// commit included. For an unimplemented instruction this returns the state
/// unchanged; `implemented` guards every use.
pub open spec fn spec_exec(s: CpuState, i: Instruction) -> CpuState {
    match i {
        Instruction::ADD(t) => {
            let v = arith_value(s, t);
            CpuState {
                a: u8_specs::wrapping_add(s.a, v),
                f: add_flags(s.a, v),
                pc: u16_specs::wrapping_add(s.pc, 1),
                ..s
            }
        },
        Instruction::ADDHL(t) => {
            let v = match t {
                ADDHLTarget::BC => s.bc(),
                ADDHLTarget::DE => s.de(),
                ADDHLTarget::HL => s.hl(),
                ADDHLTarget::SP => s.sp,
            };
            let nhl = u16_specs::wrapping_add(s.hl(), v);
            CpuState {
                h: spec_high(nhl),
                l: spec_low(nhl),
                f: addhl_flags(s.hl(), v),
                pc: u16_specs::wrapping_add(s.pc, 2),
                ..s
            }
        },
        Instruction::JP(t) => CpuState {
            pc: if test_passes(t, s.f) {
                s.word_arg()
            } else {
                u16_specs::wrapping_add(s.pc, 3)
            },
            ..s
        },
        Instruction::CALL(t) => if test_passes(t, s.f) {
            // The return address is pushed first; the jump target is then
            // read from the possibly-updated memory.
            let p = s.pushed(u16_specs::wrapping_add(s.pc, 3));
            CpuState { pc: p.word_arg(), ..p }
        } else {
            CpuState { pc: u16_specs::wrapping_add(s.pc, 3), ..s }
        },
        Instruction::RET(t) => if test_passes(t, s.f) {
            CpuState { pc: s.popped_value(), sp: u16_specs::wrapping_add(s.sp, 2), ..s }
        } else {
            CpuState { pc: u16_specs::wrapping_add(s.pc, 1), ..s }
        },
        Instruction::LD(lt) => match lt {
            LoadType::Byte(target, source) => {
                let v = ld_source_value(s, source);
                let stored = ld_store(s, target, v);
                let len: u16 = match source {
                    LoadByteSource::D8 => 2,
                    _ => 1,
                };
                CpuState { pc: u16_specs::wrapping_add(s.pc, len), ..stored }
            },
            _ => s,
        },
        Instruction::POP(t) => {
            let v = s.popped_value();
            let s1 = CpuState {
                sp: u16_specs::wrapping_add(s.sp, 2),
                pc: u16_specs::wrapping_add(s.pc, 1),
                ..s
            };
            match t {
                StackTarget::BC => CpuState { b: spec_high(v), c: spec_low(v), ..s1 },
                StackTarget::DE => CpuState { d: spec_high(v), e: spec_low(v), ..s1 },
                StackTarget::HL => CpuState { h: spec_high(v), l: spec_low(v), ..s1 },
                StackTarget::AF => CpuState {
                    a: spec_high(v),
                    f: spec_flags_from_byte(spec_low(v)),
                    ..s1
                },
            }
        },
        Instruction::PUSH(t) => {
            let v = match t {
                StackTarget::BC => s.bc(),
                StackTarget::DE => s.de(),
                StackTarget::HL => s.hl(),
                StackTarget::AF => s.af(),
            };
            CpuState { pc: u16_specs::wrapping_add(s.pc, 1), ..s.pushed(v) }
        },
        Instruction::NOP => CpuState { pc: u16_specs::wrapping_add(s.pc, 1), ..s },
        Instruction::INC(t) => match t {
            IncDecTarget::A => CpuState {
                a: u8_specs::wrapping_add(s.a, 1),
                f: add_flags(s.a, 1),
                pc: u16_specs::wrapping_add(s.pc, 1),
                ..s
            },
            IncDecTarget::B => CpuState {
                b: u8_specs::wrapping_add(s.b, 1),
                f: add_flags(s.b, 1),
                pc: u16_specs::wrapping_add(s.pc, 1),
                ..s
            },
            IncDecTarget::C => CpuState {
                c: u8_specs::wrapping_add(s.c, 1),
                f: add_flags(s.c, 1),
                pc: u16_specs::wrapping_add(s.pc, 1),
                ..s
            },
            IncDecTarget::D => CpuState {
                d: u8_specs::wrapping_add(s.d, 1),
                f: add_flags(s.d, 1),
                pc: u16_specs::wrapping_add(s.pc, 1),
                ..s
            },
            IncDecTarget::E => CpuState {
                e: u8_specs::wrapping_add(s.e, 1),
                f: add_flags(s.e, 1),
                pc: u16_specs::wrapping_add(s.pc, 1),
                ..s
            },
            IncDecTarget::H => CpuState {
                h: u8_specs::wrapping_add(s.h, 1),
                f: add_flags(s.h, 1),
                pc: u16_specs::wrapping_add(s.pc, 1),
                ..s
            },
            IncDecTarget::L => CpuState {
                l: u8_specs::wrapping_add(s.l, 1),
                f: add_flags(s.l, 1),
                pc: u16_specs::wrapping_add(s.pc, 1),
                ..s
            },
            IncDecTarget::BC => {
                let nv = u16_specs::wrapping_add(s.bc(), 1);
                CpuState {
                    b: spec_high(nv),
                    c: spec_low(nv),
                    pc: u16_specs::wrapping_add(s.pc, 2),
                    ..s
                }
            },
            IncDecTarget::DE => {
                let nv = u16_specs::wrapping_add(s.de(), 1);
                CpuState {
                    d: spec_high(nv),
                    e: spec_low(nv),
                    pc: u16_specs::wrapping_add(s.pc, 2),
                    ..s
                }
            },
            IncDecTarget::SP => CpuState {
                sp: u16_specs::wrapping_add(s.sp, 1),
                pc: u16_specs::wrapping_add(s.pc, 2),
                ..s
            },
            IncDecTarget::HL => {
                let v = s.mem[s.hl() as int];
                CpuState {
                    mem: s.mem.update(s.hl() as int, u8_specs::wrapping_add(v, 1)),
                    f: add_flags(v, 1),
                    pc: u16_specs::wrapping_add(s.pc, 3),
                    ..s
                }
            },
        },
        Instruction::DEC(t) => match t {
            IncDecTarget::A => CpuState {
                a: u8_specs::wrapping_sub(s.a, 1),
                f: dec_flags(s.a, s.f.carry),
                pc: u16_specs::wrapping_add(s.pc, 1),
                ..s
            },
            IncDecTarget::B => CpuState {
                b: u8_specs::wrapping_sub(s.b, 1),
                f: dec_flags(s.b, s.f.carry),
                pc: u16_specs::wrapping_add(s.pc, 1),
                ..s
            },
            IncDecTarget::C => CpuState {
                c: u8_specs::wrapping_sub(s.c, 1),
                f: dec_flags(s.c, s.f.carry),
                pc: u16_specs::wrapping_add(s.pc, 1),
                ..s
            },
            IncDecTarget::D => CpuState {
                d: u8_specs::wrapping_sub(s.d, 1),
                f: dec_flags(s.d, s.f.carry),
                pc: u16_specs::wrapping_add(s.pc, 1),
                ..s
            },
            IncDecTarget::E => CpuState {
                e: u8_specs::wrapping_sub(s.e, 1),
                f: dec_flags(s.e, s.f.carry),
                pc: u16_specs::wrapping_add(s.pc, 1),
                ..s
            },
            IncDecTarget::H => CpuState {
                h: u8_specs::wrapping_sub(s.h, 1),
                f: dec_flags(s.h, s.f.carry),
                pc: u16_specs::wrapping_add(s.pc, 1),
                ..s
            },
            IncDecTarget::L => CpuState {
                l: u8_specs::wrapping_sub(s.l, 1),
                f: dec_flags(s.l, s.f.carry),
                pc: u16_specs::wrapping_add(s.pc, 1),
                ..s
            },
            IncDecTarget::BC => {
                let nv = u16_specs::wrapping_sub(s.bc(), 1);
                CpuState {
                    b: spec_high(nv),
                    c: spec_low(nv),
                    pc: u16_specs::wrapping_add(s.pc, 2),
                    ..s
                }
            },
            IncDecTarget::DE => {
                let nv = u16_specs::wrapping_sub(s.de(), 1);
                CpuState {
                    d: spec_high(nv),
                    e: spec_low(nv),
                    pc: u16_specs::wrapping_add(s.pc, 2),
                    ..s
                }
            },
            IncDecTarget::SP => CpuState {
                sp: u16_specs::wrapping_sub(s.sp, 1),
                pc: u16_specs::wrapping_add(s.pc, 2),
                ..s
            },
            IncDecTarget::HL => {
                let v = s.mem[s.hl() as int];
                CpuState {
                    mem: s.mem.update(s.hl() as int, u8_specs::wrapping_sub(v, 1)),
                    f: dec_flags(v, s.f.carry),
                    pc: u16_specs::wrapping_add(s.pc, 3),
                    ..s
                }
            },
        },
        Instruction::RLCA => s,
        Instruction::RRCA => s,
        Instruction::RLA => s,
        Instruction::RRA => s,
    }
}

/// Push and pop are exact inverses for any 16-bit value: popping right
/// after a push reads back the pushed word and returns the stack pointer to
/// where it was.
pub proof fn lemma_push_pop_round_trip(s: CpuState, v: u16)
    requires
        s.mem.len() == MEMORY_SIZE,
    ensures
        s.pushed(v).popped_value() == v,
        u16_specs::wrapping_add(s.pushed(v).sp, 2) == s.sp,
{
    let sp1 = u16_specs::wrapping_sub(s.sp, 1);
    let sp2 = u16_specs::wrapping_sub(sp1, 1);
    assert(u16_specs::wrapping_add(sp2, 1) == sp1);
    assert(sp1 != sp2);
    assert(s.pushed(v).mem[sp1 as int] == spec_high(v));
    assert(s.pushed(v).mem[sp2 as int] == spec_low(v));
    crate::registers::lemma_pair_round_trip(v);
}

/// Whether the byte at the program counter is the reserved prefix 0xCB.
pub open spec fn spec_prefixed(s: CpuState) -> bool {
    s.mem[s.pc as int] == 0xCB
}

/// The opcode byte a step decodes: the byte at the program counter, or the
/// one after it when the first is the prefix.
pub open spec fn spec_opcode(s: CpuState) -> u8 {
    if spec_prefixed(s) {
        s.mem[u16_specs::wrapping_add(s.pc, 1) as int]
    } else {
        s.mem[s.pc as int]
    }
}

/// The state a freshly constructed machine is in: everything zeroed.
pub open spec fn initial_state() -> CpuState {
    CpuState {
        a: 0,
        b: 0,
        c: 0,
        d: 0,
        e: 0,
        h: 0,
        l: 0,
        f: FlagsRegister { zero: false, subtract: false, half_carry: false, carry: false },
        pc: 0,
        sp: 0,
        halted: false,
        mem: Seq::new(MEMORY_SIZE as nat, |i: int| 0u8),
    }
}

pub struct Cpu {
    pub registers: Registers,
    pub pc: u16,
    pub sp: u16,
    pub bus: MemoryBus,
    pub is_halted: bool,
}

impl View for Cpu {
    type V = CpuState;

    open spec fn view(&self) -> CpuState {
        CpuState {
            a: self.registers.a,
            b: self.registers.b,
            c: self.registers.c,
            d: self.registers.d,
            e: self.registers.e,
            h: self.registers.h,
            l: self.registers.l,
            f: self.registers.f,
            pc: self.pc,
            sp: self.sp,
            halted: self.is_halted,
            mem: self.bus@,
        }
    }
}

impl Cpu {
    pub open spec fn wf(&self) -> bool {
        self.bus.wf()
    }

    /// A machine with zeroed registers, pointers and memory. The two images
    /// are accepted but not yet mapped into the address space; that mapping
    /// is an open gap.
    pub fn new(boot_rom: Option<Vec<u8>>, game_rom: Vec<u8>) -> (r: Cpu)
        ensures
            r.wf(),
            r@ == initial_state(),
    {
        let _ = boot_rom;
        let _ = game_rom;
        let cpu = Cpu {
            registers: Registers::new(),
            pc: 0,
            sp: 0,
            bus: MemoryBus::new(),
            is_halted: false,
        };
        proof {
            assert(cpu@.mem =~= initial_state().mem);
        }
        cpu
    }

    /// Compute the 8-bit sum of A and `value` and set all four flags from
    /// it; the caller stores the returned sum.
    fn add(&mut self, value: u8) -> (r: u8)
        requires
            old(self).wf(),
        ensures
            final(self).wf(),
            *final(self) == (Cpu {
                registers: Registers {
                    f: add_flags(old(self).registers.a, value),
                    ..old(self).registers
                },
                ..*old(self)
            }),
            r == u8_specs::wrapping_add(old(self).registers.a, value),
    {
        let new_value = self.registers.a.wrapping_add(value);
        self.registers.f.zero = new_value == 0;
        self.registers.f.subtract = false;
        self.registers.f.carry = (self.registers.a as u16) + (value as u16) > 255;
        self.registers.f.half_carry = self.registers.a % 16 + value % 16 > 15;
        new_value
    }

    /// Add `value` into the HL pair, setting all four flags; the half-carry
    /// check is deliberately byte-level, not the conventional nibble-level
    /// one (see `addhl_flags`).
    fn add_hl(&mut self, value: u16)
        requires
            old(self).wf(),
        ensures
            final(self).wf(),
            *final(self) == (Cpu {
                registers: Registers {
                    h: spec_high(
                        u16_specs::wrapping_add(
                            spec_pair(old(self).registers.h, old(self).registers.l),
                            value,
                        ),
                    ),
                    l: spec_low(
                        u16_specs::wrapping_add(
                            spec_pair(old(self).registers.h, old(self).registers.l),
                            value,
                        ),
                    ),
                    f: addhl_flags(spec_pair(old(self).registers.h, old(self).registers.l), value),
                    ..old(self).registers
                },
                ..*old(self)
            }),
    {
        let hl = self.registers.get_hl();
        let new_value = hl.wrapping_add(value);
        self.registers.f.zero = new_value == 0;
        self.registers.f.subtract = false;
        self.registers.f.carry = (hl as u32) + (value as u32) > 0xFFFF;
        self.registers.f.half_carry = hl % 256 + value % 256 > 255;
        self.registers.set_hl(new_value);
    }

    /// Compute the 8-bit increment of `value` and set all four flags from
    /// it; the caller stores the returned result.
    fn inc8(&mut self, value: u8) -> (r: u8)
        requires
            old(self).wf(),
        ensures
            final(self).wf(),
            *final(self) == (Cpu {
                registers: Registers { f: add_flags(value, 1), ..old(self).registers },
                ..*old(self)
            }),
            r == u8_specs::wrapping_add(value, 1),
    {
        let new_value = value.wrapping_add(1);
        self.registers.f.zero = new_value == 0;
        self.registers.f.subtract = false;
        self.registers.f.carry = value == 255;
        self.registers.f.half_carry = value % 16 == 15;
        new_value
    }

    /// Compute the 8-bit decrement of `value` and set the flags from it,
    /// carry excepted; the caller stores the returned result.
    fn dec8(&mut self, value: u8) -> (r: u8)
        requires
            old(self).wf(),
        ensures
            final(self).wf(),
            *final(self) == (Cpu {
                registers: Registers {
                    f: dec_flags(value, old(self).registers.f.carry),
                    ..old(self).registers
                },
                ..*old(self)
            }),
            r == u8_specs::wrapping_sub(value, 1),
    {
        let new_value = value.wrapping_sub(1);
        self.registers.f.zero = new_value == 0;
        self.registers.f.subtract = true;
        self.registers.f.half_carry = value % 16 == 0;
        new_value
    }

    /// The next program counter for a jump: the word argument when the
    /// condition holds, the instruction's end otherwise.
    fn jump(&self, should_jump: bool) -> (r: u16)
        requires
            self.wf(),
        ensures
            r == if should_jump {
                self@.word_arg()
            } else {
                u16_specs::wrapping_add(self@.pc, 3)
            },
    {
        if should_jump {
            let least_significant_byte = self.bus.read_byte(self.pc.wrapping_add(1)) as u16;
            let most_significant_byte = self.bus.read_byte(self.pc.wrapping_add(2)) as u16;
            most_significant_byte * 256 + least_significant_byte
        } else {
            self.pc.wrapping_add(3)
        }
    }

    /// Push a word: decrement the stack pointer and write the high byte,
    /// decrement again and write the low byte.
    fn push(&mut self, value: u16)
        requires
            old(self).wf(),
        ensures
            final(self).wf(),
            final(self)@ == old(self)@.pushed(value),
    {
        self.sp = self.sp.wrapping_sub(1);
        self.bus.write_byte(self.sp, (value / 256) as u8);
        self.sp = self.sp.wrapping_sub(1);
        self.bus.write_byte(self.sp, (value % 256) as u8);
        proof {
            assert(self@ =~= old(self)@.pushed(value));
        }
    }

    /// Pop a word: read the low byte at the stack pointer and the high byte
    /// above it, incrementing past both.
    fn pop(&mut self) -> (r: u16)
        requires
            old(self).wf(),
        ensures
            final(self).wf(),
            final(self)@ == (CpuState {
                sp: u16_specs::wrapping_add(old(self)@.sp, 2),
                ..old(self)@
            }),
            r == old(self)@.popped_value(),
    {
        let least_significant_byte = self.bus.read_byte(self.sp) as u16;
        self.sp = self.sp.wrapping_add(1);
        let most_significant_byte = self.bus.read_byte(self.sp) as u16;
        self.sp = self.sp.wrapping_add(1);
        most_significant_byte * 256 + least_significant_byte
    }

    /// Conditionally call: push the address of the next instruction, then
    /// jump to the word argument (read after the push, from the possibly
    /// updated memory).
    fn call(&mut self, should_jump: bool) -> (r: u16)
        requires
            old(self).wf(),
        ensures
            final(self).wf(),
            should_jump ==> final(self)@ == old(self)@.pushed(
                u16_specs::wrapping_add(old(self)@.pc, 3),
            ) && r == old(self)@.pushed(u16_specs::wrapping_add(old(self)@.pc, 3)).word_arg(),
            !should_jump ==> final(self)@ == old(self)@ && r == u16_specs::wrapping_add(
                old(self)@.pc,
                3,
            ),
    {
        let next_pc = self.pc.wrapping_add(3);
        if should_jump {
            self.push(next_pc);
            self.read_next_word()
        } else {
            next_pc
        }
    }

    /// Conditionally return: pop the saved program counter, or fall through
    /// to the next instruction.
    fn return_(&mut self, should_jump: bool) -> (r: u16)
        requires
            old(self).wf(),
        ensures
            final(self).wf(),
            should_jump ==> final(self)@ == (CpuState {
                sp: u16_specs::wrapping_add(old(self)@.sp, 2),
                ..old(self)@
            }) && r == old(self)@.popped_value(),
            !should_jump ==> final(self)@ == old(self)@ && r == u16_specs::wrapping_add(
                old(self)@.pc,
                1,
            ),
    {
        if should_jump {
            self.pop()
        } else {
            self.pc.wrapping_add(1)
        }
    }

    /// The immediate byte at `pc + 1`.
    fn read_next_byte(&self) -> (r: u8)
        requires
            self.wf(),
        ensures
            r == self@.mem[u16_specs::wrapping_add(self@.pc, 1) as int],
    {
        self.bus.read_byte(self.pc.wrapping_add(1))
    }

    /// The little-endian word at `pc + 1`.
    fn read_next_word(&self) -> (r: u16)
        requires
            self.wf(),
        ensures
            r == self@.word_arg(),
    {
        (self.bus.read_byte(self.pc.wrapping_add(2)) as u16) * 256 + (self.bus.read_byte(
            self.pc.wrapping_add(1),
        ) as u16)
    }

    /// Execute one decoded instruction: apply its whole effect except the
    /// program-counter commit, and return the next program-counter value.
    /// While halted this is a no-op that returns the unchanged program
    /// counter; an unimplemented instruction is a fatal condition that
    /// leaves the state untouched.
    #[verifier::rlimit(100)]
    pub fn execute(&mut self, instruction: Instruction) -> (r: Result<u16, Fatal>)
        requires
            old(self).wf(),
        ensures
            final(self).wf(),
            old(self).is_halted ==> r == Ok::<u16, Fatal>(old(self).pc) && final(self)@ == old(
                self,
            )@,
            !old(self).is_halted && implemented(instruction) ==> r == Ok::<u16, Fatal>(
                spec_exec(old(self)@, instruction).pc,
            ) && final(self)@ == (CpuState {
                pc: old(self)@.pc,
                ..spec_exec(old(self)@, instruction)
            }),
            !old(self).is_halted && !implemented(instruction) ==> r == Err::<u16, Fatal>(
                Fatal::UnimplementedInstruction { instruction },
            ) && final(self)@ == old(self)@,
    {
        if self.is_halted {
            return Ok(self.pc);
        }
        match instruction {
            Instruction::ADD(target) => {
                let value = match target {
                    ArithmeticTarget::A => self.registers.a,
                    ArithmeticTarget::B => self.registers.b,
                    ArithmeticTarget::C => self.registers.c,
                    ArithmeticTarget::D => self.registers.d,
                    ArithmeticTarget::E => self.registers.e,
                    ArithmeticTarget::H => self.registers.h,
                    ArithmeticTarget::L => self.registers.l,
                };
                let new_value = self.add(value);
                self.registers.a = new_value;
                Ok(self.pc.wrapping_add(1))
            },
            Instruction::ADDHL(target) => {
                let value = match target {
                    ADDHLTarget::BC => self.registers.get_bc(),
                    ADDHLTarget::DE => self.registers.get_de(),
                    ADDHLTarget::HL => self.registers.get_hl(),
                    ADDHLTarget::SP => self.sp,
                };
                self.add_hl(value);
                Ok(self.pc.wrapping_add(2))
            },
            Instruction::JP(test) => {
                let jump_condition = match test {
                    JumpTest::NotZero => !self.registers.f.zero,
                    JumpTest::NotCarry => !self.registers.f.carry,
                    JumpTest::Zero => self.registers.f.zero,
                    JumpTest::Carry => self.registers.f.carry,
                    JumpTest::Always => true,
                };
                Ok(self.jump(jump_condition))
            },
            Instruction::CALL(test) => {
                let jump_condition = match test {
                    JumpTest::NotZero => !self.registers.f.zero,
                    JumpTest::NotCarry => !self.registers.f.carry,
                    JumpTest::Zero => self.registers.f.zero,
                    JumpTest::Carry => self.registers.f.carry,
                    JumpTest::Always => true,
                };
                Ok(self.call(jump_condition))
            },
            Instruction::RET(test) => {
                let jump_condition = match test {
                    JumpTest::NotZero => !self.registers.f.zero,
                    JumpTest::NotCarry => !self.registers.f.carry,
                    JumpTest::Zero => self.registers.f.zero,
                    JumpTest::Carry => self.registers.f.carry,
                    JumpTest::Always => true,
                };
                Ok(self.return_(jump_condition))
            },
            Instruction::LD(load_type) => match load_type {
                LoadType::Byte(target, source) => {
                    let source_value = match source {
                        LoadByteSource::A => self.registers.a,
                        LoadByteSource::B => self.registers.b,
                        LoadByteSource::C => self.registers.c,
                        LoadByteSource::D => self.registers.d,
                        LoadByteSource::E => self.registers.e,
                        LoadByteSource::H => self.registers.h,
                        LoadByteSource::L => self.registers.l,
                        LoadByteSource::D8 => self.read_next_byte(),
                        LoadByteSource::HLI => self.bus.read_byte(self.registers.get_hl()),
                    };
                    match target {
                        LoadByteTarget::A => self.registers.a = source_value,
                        LoadByteTarget::B => self.registers.b = source_value,
                        LoadByteTarget::C => self.registers.c = source_value,
                        LoadByteTarget::D => self.registers.d = source_value,
                        LoadByteTarget::E => self.registers.e = source_value,
                        LoadByteTarget::H => self.registers.h = source_value,
                        LoadByteTarget::L => self.registers.l = source_value,
                        LoadByteTarget::HLI => self.bus.write_byte(
                            self.registers.get_hl(),
                            source_value,
                        ),
                    };
                    match source {
                        LoadByteSource::D8 => Ok(self.pc.wrapping_add(2)),
                        _ => Ok(self.pc.wrapping_add(1)),
                    }
                },
                _ => Err(Fatal::UnimplementedInstruction { instruction }),
            },
            Instruction::POP(target) => {
                let result = self.pop();
                match target {
                    StackTarget::BC => self.registers.set_bc(result),
                    StackTarget::DE => self.registers.set_de(result),
                    StackTarget::HL => self.registers.set_hl(result),
                    StackTarget::AF => self.registers.set_af(result),
                };
                Ok(self.pc.wrapping_add(1))
            },
            Instruction::PUSH(target) => {
                let value = match target {
                    StackTarget::BC => self.registers.get_bc(),
                    StackTarget::DE => self.registers.get_de(),
                    StackTarget::HL => self.registers.get_hl(),
                    StackTarget::AF => self.registers.get_af(),
                };
                self.push(value);
                Ok(self.pc.wrapping_add(1))
            },
            Instruction::NOP => Ok(self.pc.wrapping_add(1)),
            Instruction::INC(target) => match target {
                IncDecTarget::A => {
                    let value = self.registers.a;
                    let new_value = self.inc8(value);
                    self.registers.a = new_value;
                    Ok(self.pc.wrapping_add(1))
                },
                IncDecTarget::B => {
                    let value = self.registers.b;
                    let new_value = self.inc8(value);
                    self.registers.b = new_value;
                    Ok(self.pc.wrapping_add(1))
                },
                IncDecTarget::C => {
                    let value = self.registers.c;
                    let new_value = self.inc8(value);
                    self.registers.c = new_value;
                    Ok(self.pc.wrapping_add(1))
                },
                IncDecTarget::D => {
                    let value = self.registers.d;
                    let new_value = self.inc8(value);
                    self.registers.d = new_value;
                    Ok(self.pc.wrapping_add(1))
                },
                IncDecTarget::E => {
                    let value = self.registers.e;
                    let new_value = self.inc8(value);
                    self.registers.e = new_value;
                    Ok(self.pc.wrapping_add(1))
                },
                IncDecTarget::H => {
                    let value = self.registers.h;
                    let new_value = self.inc8(value);
                    self.registers.h = new_value;
                    Ok(self.pc.wrapping_add(1))
                },
                IncDecTarget::L => {
                    let value = self.registers.l;
                    let new_value = self.inc8(value);
                    self.registers.l = new_value;
                    Ok(self.pc.wrapping_add(1))
                },
                IncDecTarget::BC => {
                    let value = self.registers.get_bc();
                    self.registers.set_bc(value.wrapping_add(1));
                    Ok(self.pc.wrapping_add(2))
                },
                IncDecTarget::DE => {
                    let value = self.registers.get_de();
                    self.registers.set_de(value.wrapping_add(1));
                    Ok(self.pc.wrapping_add(2))
                },
                IncDecTarget::SP => {
                    self.sp = self.sp.wrapping_add(1);
                    Ok(self.pc.wrapping_add(2))
                },
                IncDecTarget::HL => {
                    let address = self.registers.get_hl();
                    let value = self.bus.read_byte(address);
                    let new_value = self.inc8(value);
                    self.bus.write_byte(address, new_value);
                    Ok(self.pc.wrapping_add(3))
                },
            },
            Instruction::DEC(target) => match target {
                IncDecTarget::A => {
                    let value = self.registers.a;
                    let new_value = self.dec8(value);
                    self.registers.a = new_value;
                    Ok(self.pc.wrapping_add(1))
                },
                IncDecTarget::B => {
                    let value = self.registers.b;
                    let new_value = self.dec8(value);
                    self.registers.b = new_value;
                    Ok(self.pc.wrapping_add(1))
                },
                IncDecTarget::C => {
                    let value = self.registers.c;
                    let new_value = self.dec8(value);
                    self.registers.c = new_value;
                    Ok(self.pc.wrapping_add(1))
                },
                IncDecTarget::D => {
                    let value = self.registers.d;
                    let new_value = self.dec8(value);
                    self.registers.d = new_value;
                    Ok(self.pc.wrapping_add(1))
                },
                IncDecTarget::E => {
                    let value = self.registers.e;
                    let new_value = self.dec8(value);
                    self.registers.e = new_value;
                    Ok(self.pc.wrapping_add(1))
                },
                IncDecTarget::H => {
                    let value = self.registers.h;
                    let new_value = self.dec8(value);
                    self.registers.h = new_value;
                    Ok(self.pc.wrapping_add(1))
                },
                IncDecTarget::L => {
                    let value = self.registers.l;
                    let new_value = self.dec8(value);
                    self.registers.l = new_value;
                    Ok(self.pc.wrapping_add(1))
                },
                IncDecTarget::BC => {
                    let value = self.registers.get_bc();
                    self.registers.set_bc(value.wrapping_sub(1));
                    Ok(self.pc.wrapping_add(2))
                },
                IncDecTarget::DE => {
                    let value = self.registers.get_de();
                    self.registers.set_de(value.wrapping_sub(1));
                    Ok(self.pc.wrapping_add(2))
                },
                IncDecTarget::SP => {
                    self.sp = self.sp.wrapping_sub(1);
                    Ok(self.pc.wrapping_add(2))
                },
                IncDecTarget::HL => {
                    let address = self.registers.get_hl();
                    let value = self.bus.read_byte(address);
                    let new_value = self.dec8(value);
                    self.bus.write_byte(address, new_value);
                    Ok(self.pc.wrapping_add(3))
                },
            },
            Instruction::RLCA => Err(Fatal::UnimplementedInstruction { instruction }),
            Instruction::RRCA => Err(Fatal::UnimplementedInstruction { instruction }),
            Instruction::RLA => Err(Fatal::UnimplementedInstruction { instruction }),
            Instruction::RRA => Err(Fatal::UnimplementedInstruction { instruction }),
        }
    }

    /// One tick of the machine: fetch the opcode at the program counter
    /// (reading the byte after the reserved prefix 0xCB instead when it
    /// leads), decode it, execute the instruction and commit the returned
    /// program counter. While halted this is a no-op. A decode miss or an
    /// unimplemented instruction is fatal and leaves the whole state, the
    /// program counter included, unchanged.
    pub fn step(&mut self) -> (r: Result<(), Fatal>)
        requires
            old(self).wf(),
        ensures
            final(self).wf(),
            old(self).is_halted ==> r == Ok::<(), Fatal>(()) && final(self)@ == old(self)@,
            !old(self).is_halted ==> match spec_decode(
                spec_opcode(old(self)@),
                spec_prefixed(old(self)@),
            ) {
                Some(i) => if implemented(i) {
                    r == Ok::<(), Fatal>(()) && final(self)@ == spec_exec(old(self)@, i)
                } else {
                    r == Err::<(), Fatal>(Fatal::UnimplementedInstruction { instruction: i })
                        && final(self)@ == old(self)@
                },
                None => r == Err::<(), Fatal>(
                    Fatal::UnknownOpcode {
                        byte: spec_opcode(old(self)@),
                        prefixed: spec_prefixed(old(self)@),
                    },
                ) && final(self)@ == old(self)@,
            },
    {
        if self.is_halted {
            return Ok(());
        }
        let mut instruction_byte = self.bus.read_byte(self.pc);
        let prefixed = instruction_byte == 0xCB;
        if prefixed {
            instruction_byte = self.bus.read_byte(self.pc.wrapping_add(1));
        }
        match Instruction::from_byte(instruction_byte, prefixed) {
            Some(instruction) => match self.execute(instruction) {
                Ok(next_pc) => {
                    self.pc = next_pc;
                    Ok(())
                },
                Err(e) => Err(e),
            },
            None => Err(Fatal::UnknownOpcode { byte: instruction_byte, prefixed }),
        }
    }
}

} // verus!
