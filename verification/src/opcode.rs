//! The opcodes that the client's own rules name (WotLK 3.3.5).
use vstd::prelude::*;

verus! {

/// Login server: the answer to the logon challenge.
pub const LOGIN_CHALLENGE: u8 = 0x00;

/// Login server: the answer to the logon proof.
pub const LOGIN_PROOF: u8 = 0x01;

/// Login server: the realm list.
pub const REALM_LIST: u8 = 0x10;

/// Client request for the character list.
pub const CMSG_CHAR_ENUM: u32 = 0x037;

/// Server: a spell has gone off.
pub const SMSG_SPELL_GO: u16 = 0x132;

/// Server: the spells known at login.
pub const SMSG_INITIAL_SPELLS: u16 = 0x12A;

/// Server: every aura on a unit.
pub const SMSG_AURA_UPDATE_ALL: u16 = 0x495;

/// Server: a warden (anti-cheat) message, whose body has its own cipher.
pub const SMSG_WARDEN_DATA: u16 = 0x2E6;

/// Client: a warden (anti-cheat) answer, whose body has its own cipher.
pub const CMSG_WARDEN_DATA: u32 = 0x2E7;

} // verus!
