//! The instruction decoder: a pure, total translation of a 16-bit opcode
//! word into a tagged instruction value, dispatching on the top nibble and,
//! for families 0x0, 0x8, 0xE and 0xF, on a low-byte or low-nibble sub-key.

use vstd::prelude::*;

use crate::util::{
    low_12, low_byte, low_nibble, register_x, register_y, spec_low_12, spec_low_byte,
    spec_low_nibble, spec_register_x, spec_register_y, Byte, Nibble, Word,
};

verus! {

/// One decoded CHIP-8 instruction.
#[derive(Debug, Clone, Copy, PartialEq, Eq, Structural)]
pub enum Instruction {
    Sys,
    Cls,
    Ret,
    Jp { address: Word },
    Call { address: Word },
    SeVxByte { vx: Nibble, byte: Byte },
    SnVxByte { vx: Nibble, byte: Byte },
    SeVxVy { vx: Nibble, vy: Nibble },
    LdVxByte { vx: Nibble, byte: Byte },
    AddVxByte { vx: Nibble, byte: Byte },
    LdVxVy { vx: Nibble, vy: Nibble },
    OrVxVy { vx: Nibble, vy: Nibble },
    AndVxVy { vx: Nibble, vy: Nibble },
    XorVxVy { vx: Nibble, vy: Nibble },
    AddVxVy { vx: Nibble, vy: Nibble },
    SubVxVy { vx: Nibble, vy: Nibble },
    ShrVxVy { vx: Nibble, vy: Nibble },
    SubnVxVy { vx: Nibble, vy: Nibble },
    ShlVxVy { vx: Nibble, vy: Nibble },
    SneVxVy { vx: Nibble, vy: Nibble },
    LdIFromAddr { address: Word },
    JpV0PlusAddr { address: Word },
    RndVxByte { vx: Nibble, byte: Byte },
    DrwVxVy { vx: Nibble, vy: Nibble, n: Nibble },
    SkipPressedVx { vx: Nibble },
    SkipNotPressedVx { vx: Nibble },
    LoadDelayTimerVx { vx: Nibble },
    LoadKeyVx { vx: Nibble },
    SetDelayTimerVx { vx: Nibble },
    SetSoundTimerVx { vx: Nibble },
    AddIVx { vx: Nibble },
    LoadFVx { vx: Nibble },
    LoadBVx { vx: Nibble },
    StoreVxArray { vx: Nibble },
    ReadVxArray { vx: Nibble },
}

/// A decode failure: the word's family is known but its sub-dispatch key is
/// undefined, or the family itself is undefined.
#[derive(Debug, Clone, Copy, PartialEq, Eq, Structural)]
pub enum InstructionError {
    BadInstruction,
}

/// Every nibble-sized field of the instruction is below 16 and every address
/// is a 12-bit value. `decode` only produces such instructions.
pub open spec fn instr_wf(instr: Instruction) -> bool {
    match instr {
        Instruction::Sys => true,
        Instruction::Cls => true,
        Instruction::Ret => true,
        Instruction::Jp { address } => address < 0x1000,
        Instruction::Call { address } => address < 0x1000,
        Instruction::SeVxByte { vx, byte } => vx < 16,
        Instruction::SnVxByte { vx, byte } => vx < 16,
        Instruction::SeVxVy { vx, vy } => vx < 16 && vy < 16,
        Instruction::LdVxByte { vx, byte } => vx < 16,
        Instruction::AddVxByte { vx, byte } => vx < 16,
        Instruction::LdVxVy { vx, vy } => vx < 16 && vy < 16,
        Instruction::OrVxVy { vx, vy } => vx < 16 && vy < 16,
        Instruction::AndVxVy { vx, vy } => vx < 16 && vy < 16,
        Instruction::XorVxVy { vx, vy } => vx < 16 && vy < 16,
        Instruction::AddVxVy { vx, vy } => vx < 16 && vy < 16,
        Instruction::SubVxVy { vx, vy } => vx < 16 && vy < 16,
        Instruction::ShrVxVy { vx, vy } => vx < 16 && vy < 16,
        Instruction::SubnVxVy { vx, vy } => vx < 16 && vy < 16,
        Instruction::ShlVxVy { vx, vy } => vx < 16 && vy < 16,
        Instruction::SneVxVy { vx, vy } => vx < 16 && vy < 16,
        Instruction::LdIFromAddr { address } => address < 0x1000,
        Instruction::JpV0PlusAddr { address } => address < 0x1000,
        Instruction::RndVxByte { vx, byte } => vx < 16,
        Instruction::DrwVxVy { vx, vy, n } => vx < 16 && vy < 16 && n < 16,
        Instruction::SkipPressedVx { vx } => vx < 16,
        Instruction::SkipNotPressedVx { vx } => vx < 16,
        Instruction::LoadDelayTimerVx { vx } => vx < 16,
        Instruction::LoadKeyVx { vx } => vx < 16,
        Instruction::SetDelayTimerVx { vx } => vx < 16,
        Instruction::SetSoundTimerVx { vx } => vx < 16,
        Instruction::AddIVx { vx } => vx < 16,
        Instruction::LoadFVx { vx } => vx < 16,
        Instruction::LoadBVx { vx } => vx < 16,
        Instruction::StoreVxArray { vx } => vx < 16,
        Instruction::ReadVxArray { vx } => vx < 16,
    }
}

/// The full opcode table, family by family. This is the reference meaning of
/// a 16-bit instruction word.
pub open spec fn spec_decode(word: Word) -> Result<Instruction, InstructionError> {
    let family = word & 0xf000;
    if family == 0x0000 {
        let sub = word & 0x00ff;
        if sub == 0xe0 {
            Ok(Instruction::Cls)
        } else if sub == 0xee {
            Ok(Instruction::Ret)
        } else {
            Ok(Instruction::Sys)
        }
    } else if family == 0x1000 {
        Ok(Instruction::Jp { address: spec_low_12(word) })
    } else if family == 0x2000 {
        Ok(Instruction::Call { address: spec_low_12(word) })
    } else if family == 0x3000 {
        Ok(Instruction::SeVxByte { vx: spec_register_x(word), byte: spec_low_byte(word) })
    } else if family == 0x4000 {
        Ok(Instruction::SnVxByte { vx: spec_register_x(word), byte: spec_low_byte(word) })
    } else if family == 0x5000 {
        Ok(Instruction::SeVxVy { vx: spec_register_x(word), vy: spec_register_y(word) })
    } else if family == 0x6000 {
        Ok(Instruction::LdVxByte { vx: spec_register_x(word), byte: spec_low_byte(word) })
    } else if family == 0x7000 {
        Ok(Instruction::AddVxByte { vx: spec_register_x(word), byte: spec_low_byte(word) })
    } else if family == 0x8000 {
        let sub = word & 0x000f;
        let vx = spec_register_x(word);
        let vy = spec_register_y(word);
        if sub == 0x0 {
            Ok(Instruction::LdVxVy { vx, vy })
        } else if sub == 0x1 {
            Ok(Instruction::OrVxVy { vx, vy })
        } else if sub == 0x2 {
            Ok(Instruction::AndVxVy { vx, vy })
        } else if sub == 0x3 {
            Ok(Instruction::XorVxVy { vx, vy })
        } else if sub == 0x4 {
            Ok(Instruction::AddVxVy { vx, vy })
        } else if sub == 0x5 {
            Ok(Instruction::SubVxVy { vx, vy })
        } else if sub == 0x6 {
            Ok(Instruction::ShrVxVy { vx, vy })
        } else if sub == 0x7 {
            Ok(Instruction::SubnVxVy { vx, vy })
        } else if sub == 0xe {
            Ok(Instruction::ShlVxVy { vx, vy })
        } else {
            Err(InstructionError::BadInstruction)
        }
    } else if family == 0x9000 {
        Ok(Instruction::SneVxVy { vx: spec_register_x(word), vy: spec_register_y(word) })
    } else if family == 0xa000 {
        Ok(Instruction::LdIFromAddr { address: spec_low_12(word) })
    } else if family == 0xb000 {
        Ok(Instruction::JpV0PlusAddr { address: spec_low_12(word) })
    } else if family == 0xc000 {
        Ok(Instruction::RndVxByte { vx: spec_register_x(word), byte: spec_low_byte(word) })
    } else if family == 0xd000 {
        Ok(Instruction::DrwVxVy {
            vx: spec_register_x(word),
            vy: spec_register_y(word),
            n: spec_low_nibble(word),
        })
    } else if family == 0xe000 {
        let sub = word & 0x00ff;
        if sub == 0x9e {
            Ok(Instruction::SkipPressedVx { vx: spec_register_x(word) })
        } else if sub == 0xa1 {
            Ok(Instruction::SkipNotPressedVx { vx: spec_register_x(word) })
        } else {
            Err(InstructionError::BadInstruction)
        }
    } else {
        let sub = word & 0x00ff;
        let vx = spec_register_x(word);
        if sub == 0x07 {
            Ok(Instruction::LoadDelayTimerVx { vx })
        } else if sub == 0x0a {
            Ok(Instruction::LoadKeyVx { vx })
        } else if sub == 0x15 {
            Ok(Instruction::SetDelayTimerVx { vx })
        } else if sub == 0x18 {
            Ok(Instruction::SetSoundTimerVx { vx })
        } else if sub == 0x1e {
            Ok(Instruction::AddIVx { vx })
        } else if sub == 0x29 {
            Ok(Instruction::LoadFVx { vx })
        } else if sub == 0x33 {
            Ok(Instruction::LoadBVx { vx })
        } else if sub == 0x55 {
            Ok(Instruction::StoreVxArray { vx })
        } else if sub == 0x65 {
            Ok(Instruction::ReadVxArray { vx })
        } else {
            Err(InstructionError::BadInstruction)
        }
    }
}

/// Translate one instruction word. The result is exactly the opcode table
/// `spec_decode`, and every instruction handed out is well formed.
pub fn decode(encoded_instr: Word) -> (r: Result<Instruction, InstructionError>)
    ensures
        r == spec_decode(encoded_instr),
        r matches Ok(instr) ==> instr_wf(instr),
{
    let opcode = encoded_instr & 0xf000;
    match opcode {
        0x0000 => {
            let subop = encoded_instr & 0xff;
            match subop {
                0xe0 => Ok(Instruction::Cls),
                0xee => Ok(Instruction::Ret),
                _ => Ok(Instruction::Sys),
            }
        }
        0x1000 => Ok(Instruction::Jp { address: low_12(encoded_instr) }),
        0x2000 => Ok(Instruction::Call { address: low_12(encoded_instr) }),
        0x3000 => Ok(Instruction::SeVxByte {
            vx: register_x(encoded_instr),
            byte: low_byte(encoded_instr),
        }),
        0x4000 => Ok(Instruction::SnVxByte {
            vx: register_x(encoded_instr),
            byte: low_byte(encoded_instr),
        }),
        0x5000 => Ok(Instruction::SeVxVy {
            vx: register_x(encoded_instr),
            vy: register_y(encoded_instr),
        }),
        0x6000 => Ok(Instruction::LdVxByte {
            vx: register_x(encoded_instr),
            byte: low_byte(encoded_instr),
        }),
        0x7000 => Ok(Instruction::AddVxByte {
            vx: register_x(encoded_instr),
            byte: low_byte(encoded_instr),
        }),
        0x8000 => match encoded_instr & 0x000f {
            0x0 => Ok(Instruction::LdVxVy {
                vx: register_x(encoded_instr),
                vy: register_y(encoded_instr),
            }),
            0x1 => Ok(Instruction::OrVxVy {
                vx: register_x(encoded_instr),
                vy: register_y(encoded_instr),
            }),
            0x2 => Ok(Instruction::AndVxVy {
                vx: register_x(encoded_instr),
                vy: register_y(encoded_instr),
            }),
            0x3 => Ok(Instruction::XorVxVy {
                vx: register_x(encoded_instr),
                vy: register_y(encoded_instr),
            }),
            0x4 => Ok(Instruction::AddVxVy {
                vx: register_x(encoded_instr),
                vy: register_y(encoded_instr),
            }),
            0x5 => Ok(Instruction::SubVxVy {
                vx: register_x(encoded_instr),
                vy: register_y(encoded_instr),
            }),
            0x6 => Ok(Instruction::ShrVxVy {
                vx: register_x(encoded_instr),
                vy: register_y(encoded_instr),
            }),
            0x7 => Ok(Instruction::SubnVxVy {
                vx: register_x(encoded_instr),
                vy: register_y(encoded_instr),
            }),
            0xe => Ok(Instruction::ShlVxVy {
                vx: register_x(encoded_instr),
                vy: register_y(encoded_instr),
            }),
            _ => Err(InstructionError::BadInstruction),
        },
        0x9000 => Ok(Instruction::SneVxVy {
            vx: register_x(encoded_instr),
            vy: register_y(encoded_instr),
        }),
        0xa000 => Ok(Instruction::LdIFromAddr { address: low_12(encoded_instr) }),
        0xb000 => Ok(Instruction::JpV0PlusAddr { address: low_12(encoded_instr) }),
        0xc000 => Ok(Instruction::RndVxByte {
            vx: register_x(encoded_instr),
            byte: low_byte(encoded_instr),
        }),
        0xd000 => Ok(Instruction::DrwVxVy {
            vx: register_x(encoded_instr),
            vy: register_y(encoded_instr),
            n: low_nibble(encoded_instr),
        }),
        0xe000 => match encoded_instr & 0x00ff {
            0x9e => Ok(Instruction::SkipPressedVx { vx: register_x(encoded_instr) }),
            0xa1 => Ok(Instruction::SkipNotPressedVx { vx: register_x(encoded_instr) }),
            _ => Err(InstructionError::BadInstruction),
        },
        0xf000 => match encoded_instr & 0x00ff {
            0x07 => Ok(Instruction::LoadDelayTimerVx { vx: register_x(encoded_instr) }),
            0x0a => Ok(Instruction::LoadKeyVx { vx: register_x(encoded_instr) }),
            0x15 => Ok(Instruction::SetDelayTimerVx { vx: register_x(encoded_instr) }),
            0x18 => Ok(Instruction::SetSoundTimerVx { vx: register_x(encoded_instr) }),
            0x1e => Ok(Instruction::AddIVx { vx: register_x(encoded_instr) }),
            0x29 => Ok(Instruction::LoadFVx { vx: register_x(encoded_instr) }),
            0x33 => Ok(Instruction::LoadBVx { vx: register_x(encoded_instr) }),
            0x55 => Ok(Instruction::StoreVxArray { vx: register_x(encoded_instr) }),
            0x65 => Ok(Instruction::ReadVxArray { vx: register_x(encoded_instr) }),
            _ => Err(InstructionError::BadInstruction),
        },
        _ => {
            // The sixteen literal arms above cover every value of `word & 0xf000`.
            proof {
                assert(encoded_instr & 0xf000 == 0x0000 || encoded_instr & 0xf000 == 0x1000
                    || encoded_instr & 0xf000 == 0x2000 || encoded_instr & 0xf000 == 0x3000
                    || encoded_instr & 0xf000 == 0x4000 || encoded_instr & 0xf000 == 0x5000
                    || encoded_instr & 0xf000 == 0x6000 || encoded_instr & 0xf000 == 0x7000
                    || encoded_instr & 0xf000 == 0x8000 || encoded_instr & 0xf000 == 0x9000
                    || encoded_instr & 0xf000 == 0xa000 || encoded_instr & 0xf000 == 0xb000
                    || encoded_instr & 0xf000 == 0xc000 || encoded_instr & 0xf000 == 0xd000
                    || encoded_instr & 0xf000 == 0xe000
                    || encoded_instr & 0xf000 == 0xf000) by (bit_vector);
                assert(false);
            }
            Err(InstructionError::BadInstruction)
        }
    }
}

/// Every word whose top nibble lies in 0x1..=0x7 or 0x9..=0xD belongs to a
/// family with no sub-dispatch key, so decoding it never fails.
pub proof fn lemma_decode_single_key_families_total(word: Word)
    requires
        1 <= (word >> 12) <= 7 || 9 <= (word >> 12) <= 0xd,
    ensures
        spec_decode(word) is Ok,
{
    assert((1 <= (word >> 12) && (word >> 12) <= 7 || 9 <= (word >> 12) && (word >> 12) <= 0xd)
        ==> (word & 0xf000 == 0x1000 || word & 0xf000 == 0x2000 || word & 0xf000 == 0x3000
            || word & 0xf000 == 0x4000 || word & 0xf000 == 0x5000 || word & 0xf000 == 0x6000
            || word & 0xf000 == 0x7000 || word & 0xf000 == 0x9000 || word & 0xf000 == 0xa000
            || word & 0xf000 == 0xb000 || word & 0xf000 == 0xc000
            || word & 0xf000 == 0xd000)) by (bit_vector);
}

} // verus!
