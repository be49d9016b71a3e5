use vstd::prelude::*;

use crate::traits::character_decoder::{parse_character, CharacterDecoder};
use crate::traits::read::{namespaced_value, parse_bool, parse_namespaced, parse_u8, yields, Pos, Src};
use crate::value::{assoc_insert, Object, Value, ValueView};

verus! {

/// The attack type of an enemy, by its byte.
pub open spec fn attack_type_name(b: u8) -> Seq<char> {
    if b == 0 {
        "Melee"@
    } else if b == 1 {
        "Ranged"@
    } else if b == 2 {
        "Magic"@
    } else if b == 3 {
        "Unset"@
    } else {
        "Other"@
    }
}

/// An enemy: a character, its state and attack type, then (where `encode_monster` holds
/// and a flag is set) its monster, then (where a flag is set) a damage type override.
#[verifier::opaque]
pub open spec fn parse_enemy(encode_monster: bool, src: Src, pos: Pos) -> (ValueView, Pos) {
    let (character, p) = parse_character(src, pos);
    let (state, p) = parse_u8(src, p);
    let (attack_type, p) = parse_u8(src, p);
    let m = assoc_insert(Seq::empty(), "character"@, character);
    let m = assoc_insert(m, "state"@, ValueView::UInt(state as u64));
    let m = assoc_insert(m, "random_attack_type"@, ValueView::Str(attack_type_name(attack_type)));
    let (m, p) = if encode_monster {
        let (has_monster, p) = parse_bool(src, p);
        if has_monster {
            let (monster, p) = parse_namespaced(src, p);
            (assoc_insert(m, "monster"@, namespaced_value(monster)), p)
        } else {
            (m, p)
        }
    } else {
        (m, p)
    };
    let (has_override, p) = parse_bool(src, p);
    if has_override {
        let (damage_type, p) = parse_namespaced(src, p);
        (ValueView::Object(assoc_insert(m, "override_damage_type"@, namespaced_value(damage_type))), p)
    } else {
        (ValueView::Object(m), p)
    }
}

pub trait EnemyDecoder: CharacterDecoder {
    fn decode_enemy(&mut self, encode_monster: bool) -> (res: Option<Value>)
        ensures
            yields(old(self)@, final(self)@, res, parse_enemy(encode_monster, old(self)@.src, Some(old(self)@.offset))),
    {
        reveal(parse_enemy);
        let mut map = Object::new();
        map.put("character", self.decode_character()?);
        map.put("state", Value::from_u8(self.read_uint8()?));
        let attack_type = self.read_uint8()?;
        let attack_type_name = if attack_type == 0 {
            "Melee"
        } else if attack_type == 1 {
            "Ranged"
        } else if attack_type == 2 {
            "Magic"
        } else if attack_type == 3 {
            "Unset"
        } else {
            "Other"
        };
        map.put("random_attack_type", Value::from_str(attack_type_name));
        if encode_monster && self.read_bool()? {
            map.put("monster", self.read_namespaced_object()?.into_value());
        }
        if self.read_bool()? {
            map.put("override_damage_type", self.read_namespaced_object()?.into_value());
        }
        Some(Value::from_object(map))
    }
}


/// Once a read has failed, this one fails too.
pub broadcast proof fn lemma_enemy_failure_stays(encode_monster: bool, src: Src)
    ensures
        (#[trigger] parse_enemy(encode_monster, src, None)).1 is None,
{
    reveal(parse_enemy);
}

} // verus!
