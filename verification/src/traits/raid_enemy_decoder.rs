use vstd::prelude::*;

use crate::traits::elements::NamespacedElement;
use crate::traits::enemy_decoder::{parse_enemy, EnemyDecoder};
use crate::traits::read::{parse_bool, parse_string, parse_u32, parse_u8, parse_vector, yields, DataReaders, Pos, Src};
use crate::value::{assoc_insert, Object, Value, ValueView};

verus! {

/// The combat levels of a raid monster, six `u32`s.
pub open spec fn parse_levels(src: Src, pos: Pos) -> (ValueView, Pos) {
    let (hitpoints, p) = parse_u32(src, pos);
    let (attack, p) = parse_u32(src, p);
    let (strength, p) = parse_u32(src, p);
    let (defence, p) = parse_u32(src, p);
    let (ranged, p) = parse_u32(src, p);
    let (magic, p) = parse_u32(src, p);
    let m = assoc_insert(Seq::empty(), "hitpoints"@, ValueView::UInt(hitpoints as u64));
    let m = assoc_insert(m, "attack"@, ValueView::UInt(attack as u64));
    let m = assoc_insert(m, "strength"@, ValueView::UInt(strength as u64));
    let m = assoc_insert(m, "defence"@, ValueView::UInt(defence as u64));
    let m = assoc_insert(m, "ranged"@, ValueView::UInt(ranged as u64));
    let m = assoc_insert(m, "magic"@, ValueView::UInt(magic as u64));
    (ValueView::Object(m), p)
}

/// A raid monster: its name, levels, attack type, image, passives and corruption.
pub open spec fn parse_raid_monster(src: Src, pos: Pos) -> (ValueView, Pos) {
    let (name, p) = parse_string(src, pos);
    let (levels, p) = parse_levels(src, p);
    let (attack_type, p) = parse_u8(src, p);
    let (image, p) = parse_u8(src, p);
    let (passives, p) = parse_vector(NamespacedElement, src, p);
    let (corruption, p) = parse_u32(src, p);
    let m = assoc_insert(Seq::empty(), "name"@, ValueView::Str(name));
    let m = assoc_insert(m, "levels"@, levels);
    let m = assoc_insert(m, "attack_type"@, ValueView::UInt(attack_type as u64));
    let m = assoc_insert(m, "golbin-svg"@, ValueView::UInt(image as u64));
    let m = assoc_insert(m, "passives"@, ValueView::Array(passives));
    let m = assoc_insert(m, "corruption"@, ValueView::UInt(corruption as u64));
    (ValueView::Object(m), p)
}

/// A raid enemy: an enemy without its monster, then, where a flag is set, its raid monster.
pub open spec fn parse_raid_enemy(src: Src, pos: Pos) -> (ValueView, Pos) {
    let (enemy, p) = parse_enemy(false, src, pos);
    let m = assoc_insert(Seq::empty(), "enemy"@, enemy);
    let (has_monster, p) = parse_bool(src, p);
    if has_monster {
        let (monster, p) = parse_raid_monster(src, p);
        (ValueView::Object(assoc_insert(m, "monster"@, monster)), p)
    } else {
        (ValueView::Object(m), p)
    }
}

fn decode_levels<R: DataReaders + ?Sized>(r: &mut R) -> (res: Option<Value>)
    ensures
        yields(old(r)@, final(r)@, res, parse_levels(old(r)@.src, Some(old(r)@.offset))),
{
    let mut map = Object::new();
    map.put("hitpoints", Value::from_u32(r.read_uint32()?));
    map.put("attack", Value::from_u32(r.read_uint32()?));
    map.put("strength", Value::from_u32(r.read_uint32()?));
    map.put("defence", Value::from_u32(r.read_uint32()?));
    map.put("ranged", Value::from_u32(r.read_uint32()?));
    map.put("magic", Value::from_u32(r.read_uint32()?));
    Some(Value::from_object(map))
}

fn decode_raid_monster<R: DataReaders + ?Sized>(r: &mut R) -> (res: Option<Value>)
    ensures
        yields(old(r)@, final(r)@, res, parse_raid_monster(old(r)@.src, Some(old(r)@.offset))),
{
    let mut map = Object::new();
    map.put("name", Value::Str(r.read_string()?));
    map.put("levels", decode_levels(r)?);
    map.put("attack_type", Value::from_u8(r.read_uint8()?));
    map.put("golbin-svg", Value::from_u8(r.read_uint8()?));
    map.put("passives", Value::from_values(r.read_vector(&NamespacedElement)?));
    map.put("corruption", Value::from_u32(r.read_uint32()?));
    Some(Value::from_object(map))
}

pub trait RaidEnemyDecoder: EnemyDecoder {
    fn decode_raid_enemy(&mut self) -> (res: Option<Value>)
        ensures
            yields(old(self)@, final(self)@, res, parse_raid_enemy(old(self)@.src, Some(old(self)@.offset))),
    {
        let mut map = Object::new();
        map.put("enemy", self.decode_enemy(false)?);
        if self.read_bool()? {
            map.put("monster", decode_raid_monster(self)?);
        }
        Some(Value::from_object(map))
    }
}

} // verus!
