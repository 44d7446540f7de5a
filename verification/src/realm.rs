//! The realm (world server) feature: which processors it brings, and which
//! handlers its spell processor picks for an opcode.
use crate::opcode::{SMSG_AURA_UPDATE_ALL, SMSG_INITIAL_SPELLS, SMSG_SPELL_GO};
use vstd::prelude::*;

verus! {

/// The client's request for the character list; it has no fields.
#[derive(Debug, Default, Clone, Copy, PartialEq, Eq)]
pub struct CharacterEnumOutgoing {}

/// The processors of the realm feature, each covering one area of the game.
#[derive(Debug, Clone, Copy, PartialEq, Eq)]
pub enum RealmProcessor {
    Chat,
    Object,
    Player,
    Realm,
    Spell,
    Warden,
}

/// The realm feature.
#[derive(Debug, Default, Clone, Copy, PartialEq, Eq)]
pub struct WotlkRealm;

/// The realm feature's processors, in the order in which they run.
pub open spec fn realm_processors() -> Seq<RealmProcessor> {
    seq![
        RealmProcessor::Chat,
        RealmProcessor::Object,
        RealmProcessor::Player,
        RealmProcessor::Realm,
        RealmProcessor::Spell,
        RealmProcessor::Warden,
    ]
}

impl WotlkRealm {
    /// The processors that take over once the client is on the world server.
    pub fn get_realm_processors(&self) -> (v: Vec<RealmProcessor>)
        ensures
            v@ == realm_processors(),
    {
        let mut v = Vec::new();
        v.push(RealmProcessor::Chat);
        v.push(RealmProcessor::Object);
        v.push(RealmProcessor::Player);
        v.push(RealmProcessor::Realm);
        v.push(RealmProcessor::Spell);
        v.push(RealmProcessor::Warden);
        proof {
            assert(v@ =~= realm_processors());
        }
        v
    }
}

/// The handlers of the spell processor.
#[derive(Debug, Clone, Copy, PartialEq, Eq)]
pub enum SpellHandler {
    SpellGo,
    InitialSpells,
    AuraUpdateAll,
}

/// The spell processor.
pub struct SpellProcessor;

/// The spell handlers for an opcode: one for each spell opcode, none for
/// any other.
pub open spec fn spell_handlers(opcode: u16) -> Seq<SpellHandler> {
    if opcode == SMSG_SPELL_GO {
        seq![SpellHandler::SpellGo]
    } else if opcode == SMSG_INITIAL_SPELLS {
        seq![SpellHandler::InitialSpells]
    } else if opcode == SMSG_AURA_UPDATE_ALL {
        seq![SpellHandler::AuraUpdateAll]
    } else {
        Seq::empty()
    }
}

impl SpellProcessor {
    /// The handlers that the spell processor runs for a packet with `opcode`.
    pub fn get_handlers(opcode: u16) -> (v: Vec<SpellHandler>)
        ensures
            v@ == spell_handlers(opcode),
    {
        let mut v = Vec::new();
        if opcode == SMSG_SPELL_GO {
            v.push(SpellHandler::SpellGo);
        } else if opcode == SMSG_INITIAL_SPELLS {
            v.push(SpellHandler::InitialSpells);
        } else if opcode == SMSG_AURA_UPDATE_ALL {
            v.push(SpellHandler::AuraUpdateAll);
        }
        proof {
            assert(v@ =~= spell_handlers(opcode));
        }
        v
    }
}

/// The spell handlers that a realm processor yields for `opcode`: the spell
/// processor's own, and none from the other processors, whose handlers
/// cover other areas of the game.
pub open spec fn processor_spell_handlers(p: RealmProcessor, opcode: u16) -> Seq<SpellHandler> {
    if p == RealmProcessor::Spell {
        spell_handlers(opcode)
    } else {
        Seq::empty()
    }
}

impl RealmProcessor {
    /// The spell handlers that this processor runs for a packet with
    /// `opcode`; the spell processor is the only one that has any.
    pub fn spell_handlers_for(self, opcode: u16) -> (v: Vec<SpellHandler>)
        ensures
            v@ == processor_spell_handlers(self, opcode),
            self == RealmProcessor::Spell ==> v@ == spell_handlers(opcode),
    {
        match self {
            RealmProcessor::Spell => SpellProcessor::get_handlers(opcode),
            _ => Vec::new(),
        }
    }
}

/// The spell processor picks at most one handler, and only for its three
/// opcodes.
pub proof fn lemma_spell_handlers_at_most_one(opcode: u16)
    ensures
        spell_handlers(opcode).len() <= 1,
        spell_handlers(opcode).len() == 1 <==> (opcode == SMSG_SPELL_GO || opcode == SMSG_INITIAL_SPELLS
            || opcode == SMSG_AURA_UPDATE_ALL),
{
}

} // verus!
