//! The virtual machine: 4096 bytes of memory with the built-in font at the
//! bottom, sixteen 8-bit registers, a 16-frame call stack, the index
//! register, two countdown timers, the framebuffer and the keypad. The
//! execution engine applies one decoded instruction per step; `spec_execute`
//! is the reference transition function it is proved against.

use vstd::prelude::*;

use crate::graphics::{blank_screen, spec_draw_collision, spec_draw_screen, Graphics};
use crate::input::Input;
use crate::instruction::{decode, instr_wf, spec_decode, Instruction};
use crate::timer::Timer;
use crate::util::{Byte, Nibble, Word};

verus! {

/// The abstract machine state: the mathematical value of a `VirtualMachine`.
#[verifier::ext_equal]
pub ghost struct VmState {
    pub mem: Seq<u8>,
    pub regs: Seq<u8>,
    pub index: Word,
    pub pc: Word,
    pub stack: Seq<u16>,
    pub sp: u16,
    pub delay: Timer,
    pub sound: Timer,
    pub screen: Seq<bool>,
    pub keys: Seq<bool>,
    pub waiting_for_key: bool,
    pub key_register: u8,
    pub clock: u64,
}

/// A fatal fault: a bounds violation that the engine refuses to execute,
/// reported instead of silently wrapping or corrupting state.
#[derive(Debug, Clone, Copy, PartialEq, Eq, Structural)]
pub enum Fault {
    /// The program counter does not point at two readable memory bytes.
    PcOutOfRange,
    /// RET with an empty call stack.
    StackUnderflow,
    /// CALL with all sixteen stack slots in use.
    StackOverflow,
    /// A sprite, BCD or register-block access past the end of memory.
    MemoryOutOfRange,
    /// A key index above 0xF handed to a skip-on-key instruction.
    KeyOutOfRange,
    /// ADD I,Vx past the top of the index register.
    IndexOverflow,
}

/// The structural invariant of the machine state: all the fixed sizes, the
/// stack pointer within its sixteen slots, and a valid key-wait register.
pub open spec fn vm_wf(s: VmState) -> bool {
    &&& s.mem.len() == 4096
    &&& s.regs.len() == 16
    &&& s.stack.len() == 16
    &&& s.sp <= 16
    &&& s.screen.len() == 2048
    &&& s.keys.len() == 16
    &&& s.key_register < 16
}

/// The built-in font: sixteen five-byte glyphs, one per hex digit, stored
/// from address 0. Glyph `d` occupies addresses `5 * d ..= 5 * d + 4`.
pub open spec fn font_seq() -> Seq<u8> {
    seq![
        0xF0u8, 0x90, 0x90, 0x90, 0xF0, // 0
        0x20, 0x60, 0x20, 0x20, 0x70, // 1
        0xF0, 0x10, 0xF0, 0x80, 0xF0, // 2
        0xF0, 0x10, 0xF0, 0x10, 0xF0, // 3
        0x90, 0x90, 0xF0, 0x10, 0x10, // 4
        0xF0, 0x80, 0xF0, 0x10, 0xF0, // 5
        0xF0, 0x80, 0xF0, 0x90, 0xF0, // 6
        0xF0, 0x10, 0x20, 0x40, 0x40, // 7
        0xF0, 0x90, 0xF0, 0x90, 0xF0, // 8
        0xF0, 0x90, 0xF0, 0x10, 0xF0, // 9
        0xF0, 0x90, 0xF0, 0x90, 0x90, // A
        0xE0, 0x90, 0xE0, 0x90, 0xE0, // B
        0xF0, 0x80, 0x80, 0x80, 0xF0, // C
        0xE0, 0x90, 0x90, 0x90, 0xE0, // D
        0xF0, 0x80, 0xF0, 0x80, 0xF0, // E
        0xF0, 0x80, 0xF0, 0x80, 0x80, // F
    ]
}

/// The machine as it powers on: memory zero except the font, registers and
/// stack zero, the program counter at the ROM start, timers at zero running
/// at 60 Hz, a dark screen, no key pressed, no key-wait pending.
pub open spec fn spec_initial_vm() -> VmState {
    VmState {
        mem: Seq::new(4096, |i: int| if i < 80 { font_seq()[i] } else { 0 }),
        regs: Seq::new(16, |i: int| 0),
        index: 0,
        pc: 0x200,
        stack: Seq::new(16, |i: int| 0),
        sp: 0,
        delay: Timer { value: 0, interval_millis: 16, last_millis: 0 },
        sound: Timer { value: 0, interval_millis: 16, last_millis: 0 },
        screen: blank_screen(),
        keys: Seq::new(16, |i: int| false),
        waiting_for_key: false,
        key_register: 0,
        clock: 0,
    }
}

/// Memory after copying a ROM image in at the ROM start, truncated if it
/// would run past the end of memory.
pub open spec fn spec_load_rom(mem: Seq<u8>, rom: Seq<u8>) -> Seq<u8> {
    Seq::new(mem.len(), |i: int|
        if 0x200 <= i < 0x200 + rom.len() && i < 4096 {
            rom[i - 0x200]
        } else {
            mem[i]
        })
}

/// The big-endian instruction word at the program counter.
pub open spec fn spec_fetch(s: VmState) -> Word
    recommends
        s.pc + 1 < s.mem.len(),
{
    (s.mem[s.pc as int] * 256 + s.mem[s.pc as int + 1]) as Word
}

/// `s` with the program counter stepped past the current instruction.
pub open spec fn advance_pc(s: VmState) -> VmState {
    VmState { pc: (s.pc + 2) as Word, ..s }
}

/// `s` stepped past the current instruction, skipping the next one when
/// `cond` holds.
pub open spec fn skip_pc(s: VmState, cond: bool) -> VmState {
    VmState { pc: (s.pc + if cond { 4int } else { 2int }) as Word, ..s }
}

/// `s` with register `vx` set to `v`.
pub open spec fn with_reg(s: VmState, vx: Nibble, v: u8) -> VmState {
    VmState { regs: s.regs.update(vx as int, v), ..s }
}

/// `s` with the flag register VF set. Instructions that set VF do so as
/// their last state change, so this is applied after `with_reg`.
pub open spec fn with_flag(s: VmState, flag: u8) -> VmState {
    VmState { regs: s.regs.update(15, flag), ..s }
}

/// The fault, if any, that stops `instr` from executing in state `s`:
/// exactly the accesses that would leave memory, the stack or the keypad,
/// and nothing else.
pub open spec fn spec_fault(s: VmState, instr: Instruction) -> Option<Fault> {
    match instr {
        Instruction::Ret => if s.sp == 0 {
            Some(Fault::StackUnderflow)
        } else {
            None
        },
        Instruction::Call { address } => if s.sp >= 16 {
            Some(Fault::StackOverflow)
        } else {
            None
        },
        Instruction::DrwVxVy { vx, vy, n } => if s.index + n > 4096 {
            Some(Fault::MemoryOutOfRange)
        } else {
            None
        },
        Instruction::SkipPressedVx { vx } => if s.regs[vx as int] >= 16 {
            Some(Fault::KeyOutOfRange)
        } else {
            None
        },
        Instruction::SkipNotPressedVx { vx } => if s.regs[vx as int] >= 16 {
            Some(Fault::KeyOutOfRange)
        } else {
            None
        },
        Instruction::AddIVx { vx } => if s.index + s.regs[vx as int] > 0xFFFF {
            Some(Fault::IndexOverflow)
        } else {
            None
        },
        Instruction::LoadBVx { vx } => if s.index + 2 >= 4096 {
            Some(Fault::MemoryOutOfRange)
        } else {
            None
        },
        Instruction::StoreVxArray { vx } => if s.index + vx >= 4096 {
            Some(Fault::MemoryOutOfRange)
        } else {
            None
        },
        Instruction::ReadVxArray { vx } => if s.index + vx >= 4096 {
            Some(Fault::MemoryOutOfRange)
        } else {
            None
        },
        _ => None,
    }
}

/// Whether `instr` executes without fault in state `s`.
pub open spec fn can_execute(s: VmState, instr: Instruction) -> bool {
    &&& vm_wf(s)
    &&& instr_wf(instr)
    &&& s.pc + 4 <= 0xFFFF
    &&& spec_fault(s, instr) is None
}

/// The reference semantics of one instruction: the machine state after
/// executing `instr` in state `pre`. `rnd` is the byte the generator
/// produced; only RND reads it.
pub open spec fn spec_execute(pre: VmState, instr: Instruction, rnd: Byte) -> VmState
    recommends
        can_execute(pre, instr),
{
    match instr {
        Instruction::Sys => advance_pc(pre),
        Instruction::Cls => advance_pc(VmState { screen: blank_screen(), ..pre }),
        Instruction::Ret => VmState {
            sp: (pre.sp - 1) as u16,
            pc: pre.stack[pre.sp - 1],
            ..pre
        },
        Instruction::Jp { address } => VmState { pc: address, ..pre },
        Instruction::Call { address } => VmState {
            stack: pre.stack.update(pre.sp as int, (pre.pc + 2) as u16),
            sp: (pre.sp + 1) as u16,
            pc: address,
            ..pre
        },
        Instruction::SeVxByte { vx, byte } => skip_pc(pre, pre.regs[vx as int] == byte),
        Instruction::SnVxByte { vx, byte } => skip_pc(pre, pre.regs[vx as int] != byte),
        Instruction::SeVxVy { vx, vy } => skip_pc(pre, pre.regs[vx as int] == pre.regs[vy as int]),
        Instruction::LdVxByte { vx, byte } => advance_pc(with_reg(pre, vx, byte)),
        Instruction::AddVxByte { vx, byte } => advance_pc(
            with_reg(pre, vx, ((pre.regs[vx as int] + byte) % 256) as u8),
        ),
        Instruction::LdVxVy { vx, vy } => advance_pc(with_reg(pre, vx, pre.regs[vy as int])),
        Instruction::OrVxVy { vx, vy } => advance_pc(
            with_reg(pre, vx, pre.regs[vx as int] | pre.regs[vy as int]),
        ),
        Instruction::AndVxVy { vx, vy } => advance_pc(
            with_reg(pre, vx, pre.regs[vx as int] & pre.regs[vy as int]),
        ),
        Instruction::XorVxVy { vx, vy } => advance_pc(
            with_reg(pre, vx, pre.regs[vx as int] ^ pre.regs[vy as int]),
        ),
        Instruction::AddVxVy { vx, vy } => {
            let sum = pre.regs[vx as int] + pre.regs[vy as int];
            let flag: u8 = if sum > 255 { 1u8 } else { 0u8 };
            advance_pc(with_flag(with_reg(pre, vx, (sum % 256) as u8), flag))
        },
        Instruction::SubVxVy { vx, vy } => {
            let s1 = pre.regs[vx as int];
            let s2 = pre.regs[vy as int];
            let flag: u8 = if s1 > s2 { 1u8 } else { 0u8 };
            advance_pc(with_flag(with_reg(pre, vx, ((s1 - s2 + 256) % 256) as u8), flag))
        },
        Instruction::ShrVxVy { vx, vy } => {
            let v = pre.regs[vx as int];
            advance_pc(with_flag(with_reg(pre, vx, v >> 1), v & 1))
        },
        Instruction::SubnVxVy { vx, vy } => {
            let s1 = pre.regs[vy as int];
            let s2 = pre.regs[vx as int];
            let flag: u8 = if s1 > s2 { 1u8 } else { 0u8 };
            advance_pc(with_flag(with_reg(pre, vx, ((s1 - s2 + 256) % 256) as u8), flag))
        },
        Instruction::ShlVxVy { vx, vy } => {
            let v = pre.regs[vx as int];
            let flag: u8 = if v & 0x80 != 0 { 1u8 } else { 0u8 };
            advance_pc(with_flag(with_reg(pre, vx, v << 1), flag))
        },
        Instruction::SneVxVy { vx, vy } => skip_pc(pre, pre.regs[vx as int] != pre.regs[vy as int]),
        Instruction::LdIFromAddr { address } => advance_pc(VmState { index: address, ..pre }),
        Instruction::JpV0PlusAddr { address } => VmState {
            pc: (pre.regs[0] + address) as Word,
            ..pre
        },
        Instruction::RndVxByte { vx, byte } => advance_pc(with_reg(pre, vx, rnd & byte)),
        Instruction::DrwVxVy { vx, vy, n } => {
            let rows = pre.mem.subrange(pre.index as int, pre.index + n);
            let x = pre.regs[vx as int];
            let y = pre.regs[vy as int];
            let flag: u8 = if spec_draw_collision(pre.screen, x, y, rows) { 1u8 } else { 0u8 };
            advance_pc(with_flag(
                VmState { screen: spec_draw_screen(pre.screen, x, y, rows), ..pre },
                flag,
            ))
        },
        Instruction::SkipPressedVx { vx } => skip_pc(pre, pre.keys[pre.regs[vx as int] as int]),
        Instruction::SkipNotPressedVx { vx } => skip_pc(pre, !pre.keys[pre.regs[vx as int] as int]),
        Instruction::LoadDelayTimerVx { vx } => advance_pc(with_reg(pre, vx, pre.delay.value)),
        Instruction::LoadKeyVx { vx } => advance_pc(
            VmState { waiting_for_key: true, key_register: vx, ..pre },
        ),
        Instruction::SetDelayTimerVx { vx } => advance_pc(
            VmState {
                delay: Timer {
                    value: pre.regs[vx as int],
                    interval_millis: pre.delay.interval_millis,
                    last_millis: pre.clock,
                },
                ..pre
            },
        ),
        Instruction::SetSoundTimerVx { vx } => advance_pc(
            VmState {
                sound: Timer {
                    value: pre.regs[vx as int],
                    interval_millis: pre.sound.interval_millis,
                    last_millis: pre.clock,
                },
                ..pre
            },
        ),
        Instruction::AddIVx { vx } => advance_pc(
            VmState { index: (pre.index + pre.regs[vx as int]) as Word, ..pre },
        ),
        Instruction::LoadFVx { vx } => advance_pc(
            VmState { index: (pre.regs[vx as int] * 5) as Word, ..pre },
        ),
        Instruction::LoadBVx { vx } => {
            let v = pre.regs[vx as int];
            advance_pc(
                VmState {
                    mem: pre.mem.update(pre.index as int, v / 100).update(
                        pre.index + 1,
                        (v % 100) / 10,
                    ).update(pre.index + 2, v % 10),
                    ..pre
                },
            )
        },
        Instruction::StoreVxArray { vx } => advance_pc(
            VmState {
                mem: Seq::new(pre.mem.len(), |i: int|
                    if pre.index <= i <= pre.index + vx {
                        pre.regs[i - pre.index]
                    } else {
                        pre.mem[i]
                    }),
                ..pre
            },
        ),
        Instruction::ReadVxArray { vx } => advance_pc(
            VmState {
                regs: Seq::new(pre.regs.len(), |i: int|
                    if i <= vx {
                        pre.mem[pre.index + i]
                    } else {
                        pre.regs[i]
                    }),
                ..pre
            },
        ),
    }
}

/// The lowest-numbered pressed key at or above index `k`.
pub open spec fn first_pressed_from(keys: Seq<bool>, k: int) -> Option<int>
    decreases 16 - k,
{
    if k < 0 || k >= 16 {
        None
    } else if keys[k] {
        Some(k)
    } else {
        first_pressed_from(keys, k + 1)
    }
}

/// The lowest-numbered pressed key, if any: the key that resolves a pending
/// key-wait.
pub open spec fn spec_first_pressed(keys: Seq<bool>) -> Option<int> {
    first_pressed_from(keys, 0)
}

proof fn lemma_first_pressed_from_found(keys: Seq<bool>, m: int, k: int)
    requires
        keys.len() == 16,
        0 <= m <= k < 16,
        keys[k],
        forall|j: int| m <= j < k ==> !keys[j],
    ensures
        first_pressed_from(keys, m) == Some(k),
    decreases k - m,
{
    if m < k {
        lemma_first_pressed_from_found(keys, m + 1, k);
    }
}

proof fn lemma_first_pressed_from_none(keys: Seq<bool>, m: int)
    requires
        keys.len() == 16,
        0 <= m <= 16,
        forall|j: int| m <= j < 16 ==> !keys[j],
    ensures
        first_pressed_from(keys, m) is None,
    decreases 16 - m,
{
    if m < 16 {
        lemma_first_pressed_from_none(keys, m + 1);
    }
}

/// Both timers advanced to `now`.
pub open spec fn spec_tick_timers(s: VmState, now: u64) -> VmState {
    VmState { delay: s.delay.spec_tick(now), sound: s.sound.spec_tick(now), ..s }
}

/// The state a faulting cycle stops in: the clock is taken, the timers have
/// ticked, and the offending instruction has not touched anything.
pub open spec fn spec_cycle_fault_state(pre: VmState, now: u64) -> VmState {
    spec_tick_timers(VmState { clock: now, ..pre }, now)
}

/// The fault, if any, that one cycle at time `now` runs into.
pub open spec fn spec_cycle_fault(pre: VmState, now: u64) -> Option<Fault> {
    if pre.waiting_for_key {
        None
    } else {
        let t = spec_cycle_fault_state(pre, now);
        if t.pc + 1 >= 4096 {
            Some(Fault::PcOutOfRange)
        } else {
            match spec_decode(spec_fetch(t)) {
                Ok(instr) => spec_fault(t, instr),
                Err(_) => None,
            }
        }
    }
}

/// The reference semantics of one fault-free cycle at time `now`: resolve a
/// pending key-wait if one is latched; otherwise tick both timers, fetch,
/// decode and execute, treating an undecodable word as a two-byte no-op so
/// execution continues past it.
pub open spec fn spec_cycle(pre: VmState, now: u64, rnd: Byte) -> VmState
    recommends
        spec_cycle_fault(pre, now) is None,
{
    let s = VmState { clock: now, ..pre };
    if s.waiting_for_key {
        match spec_first_pressed(s.keys) {
            Some(k) => VmState {
                regs: s.regs.update(s.key_register as int, k as u8),
                waiting_for_key: false,
                ..s
            },
            None => s,
        }
    } else {
        let t = spec_tick_timers(s, now);
        match spec_decode(spec_fetch(t)) {
            Ok(instr) => spec_execute(t, instr, rnd),
            Err(_) => advance_pc(t),
        }
    }
}

/// Executing CALL to any address from program counter P, then RET, brings
/// the program counter to P + 2 (the instruction after the CALL) and leaves
/// the stack depth exactly where it started.
pub proof fn lemma_call_ret_round_trip(s: VmState, address: Word)
    requires
        vm_wf(s),
        s.sp < 16,
        s.pc + 2 <= 0xFFFF,
    ensures
        ({
            let after_call = spec_execute(s, Instruction::Call { address }, 0);
            let after_ret = spec_execute(after_call, Instruction::Ret, 0);
            &&& after_ret.pc == s.pc + 2
            &&& after_ret.sp == s.sp
        }),
{
}

/// Storing V0..=Vx with LD [I],Vx, then changing the registers in any way
/// that leaves memory and the index register alone (zeroing them, say),
/// then loading with LD Vx,[I], restores registers V0..=Vx to their
/// original values exactly.
pub proof fn lemma_store_read_round_trip(s: VmState, vx: Nibble, mid: VmState)
    requires
        vm_wf(s),
        vm_wf(mid),
        vx < 16,
        s.index + vx < 4096,
        mid.mem == spec_execute(s, Instruction::StoreVxArray { vx }, 0).mem,
        mid.index == s.index,
    ensures
        forall|n: int|
            0 <= n <= vx ==> spec_execute(mid, Instruction::ReadVxArray { vx }, 0).regs[n]
                == s.regs[n],
{
}

/// The rand crate's thread-local generator, the VM's one pseudo-random
/// source for its whole lifetime. Declared opaquely so a `VirtualMachine`
/// can hold one.
#[verifier::external_type_specification]
#[verifier::external_body]
pub struct ExThreadRng(rand::rngs::ThreadRng);

/// Relies on `rand::rng`: yields a handle to the thread-local generator.
#[verifier::external_body]
fn fresh_rng() -> rand::rngs::ThreadRng {
    rand::rng()
}

/// Relies on `rand::RngExt::random`: draws one byte, uniform over 0..=255.
/// Nothing can be promised of a random value, so no result is stated; every
/// caller must cope with any byte.
#[verifier::external_body]
fn random_byte(rng: &mut rand::rngs::ThreadRng) -> u8 {
    rand::RngExt::random::<u8>(rng)
}

/// The font as bytes in memory order.
fn font_set() -> (r: Vec<u8>)
    ensures
        r@ == font_seq(),
{
    let mut v: Vec<u8> = Vec::new();
    v.push(0xF0);
    v.push(0x90);
    v.push(0x90);
    v.push(0x90);
    v.push(0xF0);
    v.push(0x20);
    v.push(0x60);
    v.push(0x20);
    v.push(0x20);
    v.push(0x70);
    v.push(0xF0);
    v.push(0x10);
    v.push(0xF0);
    v.push(0x80);
    v.push(0xF0);
    v.push(0xF0);
    v.push(0x10);
    v.push(0xF0);
    v.push(0x10);
    v.push(0xF0);
    v.push(0x90);
    v.push(0x90);
    v.push(0xF0);
    v.push(0x10);
    v.push(0x10);
    v.push(0xF0);
    v.push(0x80);
    v.push(0xF0);
    v.push(0x10);
    v.push(0xF0);
    v.push(0xF0);
    v.push(0x80);
    v.push(0xF0);
    v.push(0x90);
    v.push(0xF0);
    v.push(0xF0);
    v.push(0x10);
    v.push(0x20);
    v.push(0x40);
    v.push(0x40);
    v.push(0xF0);
    v.push(0x90);
    v.push(0xF0);
    v.push(0x90);
    v.push(0xF0);
    v.push(0xF0);
    v.push(0x90);
    v.push(0xF0);
    v.push(0x10);
    v.push(0xF0);
    v.push(0xF0);
    v.push(0x90);
    v.push(0xF0);
    v.push(0x90);
    v.push(0x90);
    v.push(0xE0);
    v.push(0x90);
    v.push(0xE0);
    v.push(0x90);
    v.push(0xE0);
    v.push(0xF0);
    v.push(0x80);
    v.push(0x80);
    v.push(0x80);
    v.push(0xF0);
    v.push(0xE0);
    v.push(0x90);
    v.push(0x90);
    v.push(0x90);
    v.push(0xE0);
    v.push(0xF0);
    v.push(0x80);
    v.push(0xF0);
    v.push(0x80);
    v.push(0xF0);
    v.push(0xF0);
    v.push(0x80);
    v.push(0xF0);
    v.push(0x80);
    v.push(0x80);
    proof {
        assert(v@ =~= font_seq());
    }
    v
}

/// The virtual machine. Its abstract value is a `VmState`; every public
/// operation is specified as a function of that value.
pub struct VirtualMachine {
    memory: Vec<u8>,
    registers: Vec<u8>,
    index: Word,
    pc: Word,
    delay_timer: Timer,
    sound_timer: Timer,
    stack: Vec<u16>,
    stack_pointer: u16,
    rng: rand::rngs::ThreadRng,
    graphics: Graphics,
    input: Input,
    waiting_for_key: bool,
    key_register: u8,
    clock_millis: u64,
}

impl View for VirtualMachine {
    type V = VmState;

    closed spec fn view(&self) -> VmState {
        VmState {
            mem: self.memory@,
            regs: self.registers@,
            index: self.index,
            pc: self.pc,
            stack: self.stack@,
            sp: self.stack_pointer,
            delay: self.delay_timer,
            sound: self.sound_timer,
            screen: self.graphics@,
            keys: self.input@,
            waiting_for_key: self.waiting_for_key,
            key_register: self.key_register,
            clock: self.clock_millis,
        }
    }
}

impl VirtualMachine {
    /// A machine as it powers on.
    pub fn new() -> (r: VirtualMachine)
        ensures
            r@ == spec_initial_vm(),
            vm_wf(r@),
    {
        let mut memory = font_set();
        while memory.len() < 4096
            invariant
                80 <= memory@.len() <= 4096,
                memory@.subrange(0, 80) == font_seq(),
                forall|i: int| 80 <= i < memory@.len() ==> memory@[i] == 0,
            decreases 4096 - memory@.len(),
        {
            memory.push(0);
        }
        let mut registers: Vec<u8> = Vec::new();
        while registers.len() < 16
            invariant
                registers@.len() <= 16,
                forall|i: int| 0 <= i < registers@.len() ==> registers@[i] == 0,
            decreases 16 - registers@.len(),
        {
            registers.push(0);
        }
        let mut stack: Vec<u16> = Vec::new();
        while stack.len() < 16
            invariant
                stack@.len() <= 16,
                forall|i: int| 0 <= i < stack@.len() ==> stack@[i] == 0,
            decreases 16 - stack@.len(),
        {
            stack.push(0);
        }
        let r = VirtualMachine {
            memory,
            registers,
            index: 0,
            pc: 0x200,
            delay_timer: Timer::new(60, 0),
            sound_timer: Timer::new(60, 0),
            stack,
            stack_pointer: 0,
            rng: fresh_rng(),
            graphics: Graphics::new(),
            input: Input::new(),
            waiting_for_key: false,
            key_register: 0,
            clock_millis: 0,
        };
        proof {
            assert(r@.mem =~= spec_initial_vm().mem);
            assert(r@.regs =~= spec_initial_vm().regs);
            assert(r@.stack =~= spec_initial_vm().stack);
            assert(r@.keys =~= spec_initial_vm().keys);
            assert(r@ =~= spec_initial_vm());
        }
        r
    }

    /// Copy a ROM image into memory at the ROM start, truncating what would
    /// run past the end of memory.
    pub fn load_rom(&mut self, rom: &[u8])
        requires
            vm_wf(old(self)@),
        ensures
            vm_wf(final(self)@),
            final(self)@ == (VmState { mem: spec_load_rom(old(self)@.mem, rom@), ..old(self)@ }),
    {
        let mut i: usize = 0;
        while i < rom.len() && i < 3584
            invariant
                self.memory@.len() == 4096,
                i <= rom@.len(),
                forall|j: int| 0 <= j < 4096 && !(0x200 <= j < 0x200 + i)
                    ==> self.memory@[j] == old(self)@.mem[j],
                forall|j: int| 0x200 <= j < 0x200 + i ==> self.memory@[j] == rom@[j - 0x200],
                self.registers == old(self).registers,
                self.index == old(self).index,
                self.pc == old(self).pc,
                self.delay_timer == old(self).delay_timer,
                self.sound_timer == old(self).sound_timer,
                self.stack == old(self).stack,
                self.stack_pointer == old(self).stack_pointer,
                self.graphics@ == old(self)@.screen,
                self.input@ == old(self)@.keys,
                self.waiting_for_key == old(self).waiting_for_key,
                self.key_register == old(self).key_register,
                self.clock_millis == old(self).clock_millis,
            decreases rom@.len() - i,
        {
            self.memory[0x200 + i] = rom[i];
            i = i + 1;
        }
        proof {
            assert(self@.mem =~= spec_load_rom(old(self)@.mem, rom@));
            assert(self@ =~= (VmState { mem: spec_load_rom(old(self)@.mem, rom@), ..old(self)@ }));
        }
    }

    /// Report a key press or release to the keypad.
    pub fn set_key(&mut self, key: usize, pressed: bool)
        requires
            vm_wf(old(self)@),
            key < 16,
        ensures
            vm_wf(final(self)@),
            final(self)@ == (VmState {
                keys: old(self)@.keys.update(key as int, pressed),
                ..old(self)@
            }),
    {
        self.input.set_key(key, pressed);
    }

    /// Read the pixel at (`x`, `y`) of the framebuffer.
    pub fn pixel(&self, x: usize, y: usize) -> (r: bool)
        requires
            vm_wf(self@),
            x < 64,
            y < 32,
        ensures
            r == self@.screen[y * 64 + x],
    {
        self.graphics.pixel(x, y)
    }

    /// The big-endian instruction word at the program counter.
    pub fn fetch(&self) -> (r: Word)
        requires
            vm_wf(self@),
            self@.pc + 1 < 4096,
        ensures
            r == spec_fetch(self@),
    {
        let hi = self.memory[self.pc as usize];
        let lo = self.memory[self.pc as usize + 1];
        hi as u16 * 256 + lo as u16
    }

    /// Register `vx`.
    pub fn register(&self, vx: u8) -> (r: u8)
        requires
            vm_wf(self@),
            vx < 16,
        ensures
            r == self@.regs[vx as int],
    {
        self.registers[vx as usize]
    }

    /// The memory byte at `addr`.
    pub fn memory_at(&self, addr: usize) -> (r: u8)
        requires
            vm_wf(self@),
            addr < 4096,
        ensures
            r == self@.mem[addr as int],
    {
        self.memory[addr]
    }

    /// The program counter.
    pub fn pc(&self) -> (r: Word)
        ensures
            r == self@.pc,
    {
        self.pc
    }

    /// The index register.
    pub fn index_register(&self) -> (r: Word)
        ensures
            r == self@.index,
    {
        self.index
    }

    /// The number of call-stack slots in use.
    pub fn stack_depth(&self) -> (r: u16)
        ensures
            r == self@.sp,
    {
        self.stack_pointer
    }

    /// The delay timer.
    pub fn delay_timer(&self) -> (r: Timer)
        ensures
            r == self@.delay,
    {
        self.delay_timer
    }

    /// The sound timer.
    pub fn sound_timer(&self) -> (r: Timer)
        ensures
            r == self@.sound,
    {
        self.sound_timer
    }

    /// Whether a key-wait is latched: the machine executes nothing until a
    /// key is seen pressed.
    pub fn is_waiting_for_key(&self) -> (r: bool)
        ensures
            r == self@.waiting_for_key,
    {
        self.waiting_for_key
    }

    /// Step the program counter past the current two-byte instruction.
    fn inc_pc(&mut self)
        requires
            old(self)@.pc + 2 <= 0xFFFF,
        ensures
            final(self)@ == advance_pc(old(self)@),
    {
        self.pc = self.pc + 2;
        proof {
            assert(self@ =~= advance_pc(old(self)@));
        }
    }

    /// The fault, if any, that stops `instruction` from executing now.
    fn check_fault(&self, instruction: Instruction) -> (r: Option<Fault>)
        requires
            vm_wf(self@),
            instr_wf(instruction),
        ensures
            r == spec_fault(self@, instruction),
    {
        match instruction {
            Instruction::Ret => if self.stack_pointer == 0 {
                Some(Fault::StackUnderflow)
            } else {
                None
            },
            Instruction::Call { .. } => if self.stack_pointer >= 16 {
                Some(Fault::StackOverflow)
            } else {
                None
            },
            Instruction::DrwVxVy { n, .. } => if self.index as usize + n as usize > 4096 {
                Some(Fault::MemoryOutOfRange)
            } else {
                None
            },
            Instruction::SkipPressedVx { vx } => if self.registers[vx as usize] >= 16 {
                Some(Fault::KeyOutOfRange)
            } else {
                None
            },
            Instruction::SkipNotPressedVx { vx } => if self.registers[vx as usize] >= 16 {
                Some(Fault::KeyOutOfRange)
            } else {
                None
            },
            Instruction::AddIVx { vx } => if self.index as u32 + self.registers[vx as usize] as u32
                > 0xFFFF {
                Some(Fault::IndexOverflow)
            } else {
                None
            },
            Instruction::LoadBVx { .. } => if self.index as usize + 2 >= 4096 {
                Some(Fault::MemoryOutOfRange)
            } else {
                None
            },
            Instruction::StoreVxArray { vx } => if self.index as usize + vx as usize >= 4096 {
                Some(Fault::MemoryOutOfRange)
            } else {
                None
            },
            Instruction::ReadVxArray { vx } => if self.index as usize + vx as usize >= 4096 {
                Some(Fault::MemoryOutOfRange)
            } else {
                None
            },
            _ => None,
        }
    }

    /// Apply one decoded instruction to the machine state: the state becomes
    /// exactly `spec_execute` of the old state, for the byte the generator
    /// drew (only RND draws one; every other instruction is deterministic).
    pub fn execute(&mut self, instruction: Instruction)
        requires
            can_execute(old(self)@, instruction),
        ensures
            vm_wf(final(self)@),
            exists|rnd: Byte| final(self)@ == spec_execute(old(self)@, instruction, rnd),
            !(instruction is RndVxByte) ==> final(self)@ == spec_execute(
                old(self)@,
                instruction,
                0,
            ),
    {
        match instruction {
            Instruction::Sys => {
                self.pc = self.pc + 2;
            }
            Instruction::Cls => {
                self.graphics.clear();
                self.pc = self.pc + 2;
            }
            Instruction::Ret => {
                self.stack_pointer = self.stack_pointer - 1;
                self.pc = self.stack[self.stack_pointer as usize];
            }
            Instruction::Jp { address } => {
                self.pc = address;
            }
            Instruction::Call { address } => {
                self.stack[self.stack_pointer as usize] = self.pc + 2;
                self.stack_pointer = self.stack_pointer + 1;
                self.pc = address;
            }
            Instruction::SeVxByte { vx, byte } => {
                if self.registers[vx as usize] == byte {
                    self.pc = self.pc + 4;
                } else {
                    self.pc = self.pc + 2;
                }
            }
            Instruction::SnVxByte { vx, byte } => {
                if self.registers[vx as usize] != byte {
                    self.pc = self.pc + 4;
                } else {
                    self.pc = self.pc + 2;
                }
            }
            Instruction::SeVxVy { vx, vy } => {
                if self.registers[vx as usize] == self.registers[vy as usize] {
                    self.pc = self.pc + 4;
                } else {
                    self.pc = self.pc + 2;
                }
            }
            Instruction::LdVxByte { vx, byte } => {
                self.registers[vx as usize] = byte;
                self.pc = self.pc + 2;
            }
            Instruction::AddVxByte { vx, byte } => {
                let addend = self.registers[vx as usize];
                let result: u16 = addend as u16 + byte as u16;
                self.registers[vx as usize] = (result % 256) as u8;
                self.pc = self.pc + 2;
            }
            Instruction::LdVxVy { vx, vy } => {
                self.registers[vx as usize] = self.registers[vy as usize];
                self.pc = self.pc + 2;
            }
            Instruction::OrVxVy { vx, vy } => {
                let a = self.registers[vx as usize];
                let b = self.registers[vy as usize];
                self.registers[vx as usize] = a | b;
                self.pc = self.pc + 2;
            }
            Instruction::AndVxVy { vx, vy } => {
                let a = self.registers[vx as usize];
                let b = self.registers[vy as usize];
                self.registers[vx as usize] = a & b;
                self.pc = self.pc + 2;
            }
            Instruction::XorVxVy { vx, vy } => {
                let a = self.registers[vx as usize];
                let b = self.registers[vy as usize];
                self.registers[vx as usize] = a ^ b;
                self.pc = self.pc + 2;
            }
            Instruction::AddVxVy { vx, vy } => {
                let a = self.registers[vx as usize];
                let b = self.registers[vy as usize];
                let result: u16 = a as u16 + b as u16;
                self.registers[vx as usize] = (result % 256) as u8;
                self.registers[15] = if result > 255 {
                    1
                } else {
                    0
                };
                self.pc = self.pc + 2;
            }
            Instruction::SubVxVy { vx, vy } => {
                let s1 = self.registers[vx as usize];
                let s2 = self.registers[vy as usize];
                let diff: u16 = (s1 as u16 + 256 - s2 as u16) % 256;
                self.registers[vx as usize] = diff as u8;
                self.registers[15] = if s1 > s2 {
                    1
                } else {
                    0
                };
                self.pc = self.pc + 2;
            }
            Instruction::ShrVxVy { vx, .. } => {
                let v = self.registers[vx as usize];
                self.registers[vx as usize] = v >> 1;
                self.registers[15] = v & 1;
                self.pc = self.pc + 2;
            }
            Instruction::SubnVxVy { vx, vy } => {
                let s1 = self.registers[vy as usize];
                let s2 = self.registers[vx as usize];
                let diff: u16 = (s1 as u16 + 256 - s2 as u16) % 256;
                self.registers[vx as usize] = diff as u8;
                self.registers[15] = if s1 > s2 {
                    1
                } else {
                    0
                };
                self.pc = self.pc + 2;
            }
            Instruction::ShlVxVy { vx, .. } => {
                let v = self.registers[vx as usize];
                self.registers[vx as usize] = v << 1;
                self.registers[15] = if v & 0x80 != 0 {
                    1
                } else {
                    0
                };
                self.pc = self.pc + 2;
            }
            Instruction::SneVxVy { vx, vy } => {
                if self.registers[vx as usize] != self.registers[vy as usize] {
                    self.pc = self.pc + 4;
                } else {
                    self.pc = self.pc + 2;
                }
            }
            Instruction::LdIFromAddr { address } => {
                self.index = address;
                self.pc = self.pc + 2;
            }
            Instruction::JpV0PlusAddr { address } => {
                self.pc = self.registers[0] as u16 + address;
            }
            Instruction::RndVxByte { vx, byte } => {
                let r = random_byte(&mut self.rng);
                self.registers[vx as usize] = r & byte;
                self.pc = self.pc + 2;
                proof {
                    assert(self@ =~= spec_execute(old(self)@, instruction, r));
                }
            }
            Instruction::DrwVxVy { vx, vy, n } => {
                let x = self.registers[vx as usize];
                let y = self.registers[vy as usize];
                let start = self.index as usize;
                let rows = vstd::slice::slice_subrange(
                    self.memory.as_slice(),
                    start,
                    start + n as usize,
                );
                let collision = self.graphics.draw_sprite(x, y, rows);
                self.registers[15] = if collision {
                    1
                } else {
                    0
                };
                self.pc = self.pc + 2;
            }
            Instruction::SkipPressedVx { vx } => {
                let key = self.registers[vx as usize];
                if self.input.is_pressed(key as usize) {
                    self.pc = self.pc + 4;
                } else {
                    self.pc = self.pc + 2;
                }
            }
            Instruction::SkipNotPressedVx { vx } => {
                let key = self.registers[vx as usize];
                if !self.input.is_pressed(key as usize) {
                    self.pc = self.pc + 4;
                } else {
                    self.pc = self.pc + 2;
                }
            }
            Instruction::LoadDelayTimerVx { vx } => {
                let v = self.delay_timer.get_value();
                self.registers[vx as usize] = v;
                self.pc = self.pc + 2;
            }
            Instruction::LoadKeyVx { vx } => {
                self.waiting_for_key = true;
                self.key_register = vx;
                self.pc = self.pc + 2;
            }
            Instruction::SetDelayTimerVx { vx } => {
                let v = self.registers[vx as usize];
                let now = self.clock_millis;
                self.delay_timer.set_value(v, now);
                self.pc = self.pc + 2;
            }
            Instruction::SetSoundTimerVx { vx } => {
                let v = self.registers[vx as usize];
                let now = self.clock_millis;
                self.sound_timer.set_value(v, now);
                self.pc = self.pc + 2;
            }
            Instruction::AddIVx { vx } => {
                self.index = self.index + self.registers[vx as usize] as u16;
                self.pc = self.pc + 2;
            }
            Instruction::LoadFVx { vx } => {
                self.index = self.registers[vx as usize] as u16 * 5;
                self.pc = self.pc + 2;
            }
            Instruction::LoadBVx { vx } => {
                let v = self.registers[vx as usize];
                let base = self.index as usize;
                self.memory[base] = v / 100;
                self.memory[base + 1] = (v % 100) / 10;
                self.memory[base + 2] = v % 10;
                self.pc = self.pc + 2;
            }
            Instruction::StoreVxArray { vx } => {
                store_block(&mut self.memory, &self.registers, self.index as usize, vx);
                self.pc = self.pc + 2;
            }
            Instruction::ReadVxArray { vx } => {
                read_block(&mut self.registers, &self.memory, self.index as usize, vx);
                self.pc = self.pc + 2;
            }
        }
        proof {
            if !(instruction is RndVxByte) {
                assert(self@ =~= spec_execute(old(self)@, instruction, 0));
            }
            assert(vm_wf(self@));
        }
    }

    /// One cycle of the machine at time `now_millis`: resolve a latched
    /// key-wait if there is one; otherwise tick both timers, then fetch,
    /// decode and execute one instruction. An undecodable word advances the
    /// program counter and continues; a bounds fault is reported and leaves
    /// the instruction unexecuted.
    pub fn cycle(&mut self, now_millis: u64) -> (r: Result<(), Fault>)
        requires
            vm_wf(old(self)@),
        ensures
            vm_wf(final(self)@),
            (r is Err) == (spec_cycle_fault(old(self)@, now_millis) is Some),
            r matches Err(f) ==> Some(f) == spec_cycle_fault(old(self)@, now_millis)
                && final(self)@ == spec_cycle_fault_state(old(self)@, now_millis),
            r is Ok ==> exists|rnd: Byte|
                final(self)@ == spec_cycle(old(self)@, now_millis, rnd),
    {
        self.clock_millis = now_millis;
        if self.waiting_for_key {
            match self.input.get_first_pressed_key() {
                Some(k) => {
                    self.registers[self.key_register as usize] = k as u8;
                    self.waiting_for_key = false;
                    proof {
                        lemma_first_pressed_from_found(old(self)@.keys, 0, k as int);
                        assert(self@ =~= spec_cycle(old(self)@, now_millis, 0));
                    }
                }
                None => {
                    proof {
                        lemma_first_pressed_from_none(old(self)@.keys, 0);
                        assert(self@ =~= spec_cycle(old(self)@, now_millis, 0));
                    }
                }
            }
            Ok(())
        } else {
            self.delay_timer.tick(now_millis);
            self.sound_timer.tick(now_millis);
            proof {
                assert(self@ =~= spec_cycle_fault_state(old(self)@, now_millis));
            }
            if self.pc >= 4095 {
                return Err(Fault::PcOutOfRange);
            }
            let ghost t = self@;
            let word = self.fetch();
            match decode(word) {
                Ok(instruction) => {
                    match self.check_fault(instruction) {
                        Some(f) => Err(f),
                        None => {
                            self.execute(instruction);
                            proof {
                                let r0 = choose|rnd: Byte|
                                    self@ == spec_execute(t, instruction, rnd);
                                assert(self@ == spec_cycle(old(self)@, now_millis, r0));
                            }
                            Ok(())
                        }
                    }
                }
                Err(_) => {
                    self.inc_pc();
                    proof {
                        assert(self@ == spec_cycle(old(self)@, now_millis, 0));
                    }
                    Ok(())
                }
            }
        }
    }
}

/// Copy registers V0..=Vx into memory starting at `base`, touching nothing
/// else.
fn store_block(mem: &mut Vec<u8>, regs: &Vec<u8>, base: usize, vx: u8)
    requires
        old(mem)@.len() == 4096,
        regs@.len() == 16,
        vx < 16,
        base + vx < 4096,
    ensures
        final(mem)@ == Seq::new(4096, |i: int|
            if base <= i <= base + vx {
                regs@[i - base]
            } else {
                old(mem)@[i]
            }),
{
    let mut k: usize = 0;
    while k <= vx as usize
        invariant
            mem@.len() == 4096,
            k <= vx + 1,
            base + vx < 4096,
            vx < 16,
            regs@.len() == 16,
            forall|i: int|
                0 <= i < 4096 && !(base <= i < base + k) ==> mem@[i] == old(mem)@[i],
            forall|i: int| base <= i < base + k ==> mem@[i] == regs@[i - base],
        decreases vx + 1 - k,
    {
        mem[base + k] = regs[k];
        k = k + 1;
    }
    proof {
        assert(mem@ =~= Seq::new(4096, |i: int|
            if base <= i <= base + vx {
                regs@[i - base]
            } else {
                old(mem)@[i]
            }));
    }
}

/// Load registers V0..=Vx from memory starting at `base`, leaving the
/// higher registers alone.
fn read_block(regs: &mut Vec<u8>, mem: &Vec<u8>, base: usize, vx: u8)
    requires
        old(regs)@.len() == 16,
        mem@.len() == 4096,
        vx < 16,
        base + vx < 4096,
    ensures
        final(regs)@ == Seq::new(16, |i: int|
            if i <= vx {
                mem@[base + i]
            } else {
                old(regs)@[i]
            }),
{
    let mut k: usize = 0;
    while k <= vx as usize
        invariant
            regs@.len() == 16,
            k <= vx + 1,
            base + vx < 4096,
            vx < 16,
            mem@.len() == 4096,
            forall|i: int| k <= i < 16 ==> regs@[i] == old(regs)@[i],
            forall|i: int| 0 <= i < k ==> regs@[i] == mem@[base + i],
        decreases vx + 1 - k,
    {
        regs[k] = mem[base + k];
        k = k + 1;
    }
    proof {
        assert(regs@ =~= Seq::new(16, |i: int|
            if i <= vx {
                mem@[base + i]
            } else {
                old(regs)@[i]
            }));
    }
}

} // verus!
