use std::collections::BTreeMap;
use tentacli::dispatch::{FeatureProcessors, ReadLoop};
use tentacli::opcode::{SMSG_AURA_UPDATE_ALL, SMSG_INITIAL_SPELLS, SMSG_SPELL_GO};
use tentacli::realm::{CharacterEnumOutgoing, RealmProcessor, SpellHandler, SpellProcessor, WotlkRealm};

#[test]
fn realm_processors_in_order() {
    assert_eq!(
        WotlkRealm.get_realm_processors(),
        vec![
            RealmProcessor::Chat,
            RealmProcessor::Object,
            RealmProcessor::Player,
            RealmProcessor::Realm,
            RealmProcessor::Spell,
            RealmProcessor::Warden,
        ]
    );
}

#[test]
fn spell_handlers_by_opcode() {
    assert_eq!(SpellProcessor::get_handlers(SMSG_SPELL_GO), vec![SpellHandler::SpellGo]);
    assert_eq!(SpellProcessor::get_handlers(SMSG_INITIAL_SPELLS), vec![SpellHandler::InitialSpells]);
    assert_eq!(SpellProcessor::get_handlers(SMSG_AURA_UPDATE_ALL), vec![SpellHandler::AuraUpdateAll]);
    assert!(SpellProcessor::get_handlers(0x1EE).is_empty());
}

#[test]
fn character_enum_has_no_fields() {
    assert_eq!(CharacterEnumOutgoing::default(), CharacterEnumOutgoing {});
}

fn maps() -> Vec<BTreeMap<u16, Vec<&'static str>>> {
    let mut a = BTreeMap::new();
    a.insert(1u16, vec!["a1", "a1b"]);
    a.insert(2u16, vec!["a2"]);
    let mut b = BTreeMap::new();
    b.insert(1u16, vec!["b1"]);
    vec![a, b]
}

#[test]
fn one_time_handlers_fire_once() {
    let mut l: ReadLoop<u8, &str> = ReadLoop { processors: vec![], realm_processors: None, one_time: maps() };
    assert_eq!(l.take_one_time_handlers(1), vec!["a1", "a1b", "b1"]);
    assert!(l.take_one_time_handlers(1).is_empty());
    assert_eq!(l.take_one_time_handlers(2), vec!["a2"]);
    assert!(l.take_one_time_handlers(3).is_empty());
    assert_eq!(l.one_time.len(), 2);
    assert!(l.one_time.iter().all(|m| m.is_empty()));
}

#[test]
fn realm_processors_take_over_once() {
    let mut l: ReadLoop<u8, u8> = ReadLoop { processors: vec![1], realm_processors: Some(vec![7, 8]), one_time: vec![] };
    l.on_signal();
    assert_eq!(l.processors, vec![7, 8]);
    assert!(l.realm_processors.is_none());
    l.on_signal();
    assert!(l.processors.is_empty());
}

#[test]
fn read_task_state_from_features() {
    let none: Vec<FeatureProcessors<u8, u8>> = vec![];
    let l = ReadLoop::from_features(none).unwrap();
    assert!(l.processors.is_empty());
    assert_eq!(l.realm_processors, Some(vec![]));
    assert!(l.one_time.is_empty());
    let one = vec![FeatureProcessors::<u8, u8> { realm: vec![1], login: vec![2], one_time: vec![], initial: vec![] }];
    assert!(ReadLoop::from_features(one).is_none());
}

#[test]
fn packet_handlers_join_processors_and_one_time_maps() {
    let mut l: ReadLoop<u8, &str> = ReadLoop { processors: vec![], realm_processors: None, one_time: maps() };
    let (hs, unhandled) = l.handlers_for(2, vec!["p"]);
    assert_eq!(hs, vec!["p", "a2"]);
    assert!(!unhandled);
    let (hs, unhandled) = l.handlers_for(2, vec![]);
    assert!(hs.is_empty());
    assert!(unhandled);
    let (hs, unhandled) = l.handlers_for(1, vec![]);
    assert_eq!(hs, vec!["a1", "a1b", "b1"]);
    assert!(!unhandled);
}

#[test]
fn only_the_spell_processor_has_spell_handlers() {
    assert_eq!(RealmProcessor::Spell.spell_handlers_for(SMSG_SPELL_GO), vec![SpellHandler::SpellGo]);
    assert!(RealmProcessor::Spell.spell_handlers_for(0x1EE).is_empty());
    for p in WotlkRealm.get_realm_processors() {
        if p != RealmProcessor::Spell {
            assert!(p.spell_handlers_for(SMSG_SPELL_GO).is_empty());
        }
    }
}
