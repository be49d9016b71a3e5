use vstd::prelude::*;

use crate::traits::character_decoder::{parse_character, CharacterDecoder};
use crate::traits::elements::{
    decode_optional_namespaced, parse_optional_namespaced, ItemQuantityElement, NamespacedElement,
};
use crate::traits::read::{
    namespaced_value, parse_bool, parse_namespaced, parse_u16, parse_u32, parse_u8, parse_vector,
    yields, DataReaders, DecodeSpec, ElementDecoder, Pos, Src,
};
use crate::traits::timer_decoder::{parse_timer, TimerDecoder};
use crate::value::{assoc_insert, Object, Value, ValueView};

verus! {

/// An equipment slot: `{slot, item?, quantity?, quick_equip_items}`; the item and its
/// quantity are present where a flag is set.
pub struct EquipmentSlotElement;

impl DecodeSpec for EquipmentSlotElement {
    open spec fn spec_decode(&self, src: Src, pos: Pos) -> (ValueView, Pos) {
        let (slot, p) = parse_namespaced(src, pos);
        let m = assoc_insert(Seq::empty(), "slot"@, namespaced_value(slot));
        let (occupied, p) = parse_bool(src, p);
        let (m, p) = if occupied {
            let (item, p) = parse_namespaced(src, p);
            let (quantity, p) = parse_u32(src, p);
            let m = assoc_insert(m, "item"@, namespaced_value(item));
            (assoc_insert(m, "quantity"@, ValueView::UInt(quantity as u64)), p)
        } else {
            (m, p)
        };
        let (quick, p) = parse_vector(NamespacedElement, src, p);
        (ValueView::Object(assoc_insert(m, "quick_equip_items"@, ValueView::Array(quick))), p)
    }
}

impl<R: DataReaders + ?Sized> ElementDecoder<R> for EquipmentSlotElement {
    fn decode(&self, r: &mut R) -> (res: Option<Value>) {
        let mut map = Object::new();
        map.put("slot", r.read_namespaced_object()?.into_value());
        if r.read_bool()? {
            map.put("item", r.read_namespaced_object()?.into_value());
            map.put("quantity", Value::from_u32(r.read_uint32()?));
        }
        map.put("quick_equip_items", Value::from_values(r.read_vector(&NamespacedElement)?));
        Some(Value::from_object(map))
    }
}

/// An equipment set: its slots, optional spell, aurora and curse, and its prayers.
pub struct EquipmentSetElement;

impl DecodeSpec for EquipmentSetElement {
    open spec fn spec_decode(&self, src: Src, pos: Pos) -> (ValueView, Pos) {
        let (equipment, p) = parse_vector(EquipmentSlotElement, src, pos);
        let m = assoc_insert(Seq::empty(), "equipment"@, ValueView::Array(equipment));
        let (m, p) = parse_optional_namespaced(m, "spell"@, src, p);
        let (m, p) = parse_optional_namespaced(m, "aurora"@, src, p);
        let (m, p) = parse_optional_namespaced(m, "curse"@, src, p);
        let (prayers, p) = parse_vector(NamespacedElement, src, p);
        (ValueView::Object(assoc_insert(m, "prayers"@, ValueView::Array(prayers))), p)
    }
}

impl<R: DataReaders + ?Sized> ElementDecoder<R> for EquipmentSetElement {
    fn decode(&self, r: &mut R) -> (res: Option<Value>) {
        let mut map = Object::new();
        map.put("equipment", Value::from_values(r.read_vector(&EquipmentSlotElement)?));
        let map = decode_optional_namespaced(r, map, "spell")?;
        let map = decode_optional_namespaced(r, map, "aurora")?;
        let mut map = decode_optional_namespaced(r, map, "curse")?;
        map.put("prayers", Value::from_values(r.read_set(&NamespacedElement)?));
        Some(Value::from_object(map))
    }
}

/// The player's food: `{selected_slot, max_slots, slots}`.
pub open spec fn parse_food(src: Src, pos: Pos) -> (ValueView, Pos) {
    let (selected_slot, p) = parse_u32(src, pos);
    let (max_slots, p) = parse_u32(src, p);
    let (slots, p) = parse_vector(ItemQuantityElement, src, p);
    let m = assoc_insert(Seq::empty(), "selected_slot"@, ValueView::UInt(selected_slot as u64));
    let m = assoc_insert(m, "max_slots"@, ValueView::UInt(max_slots as u64));
    let m = assoc_insert(m, "slots"@, ValueView::Array(slots));
    (ValueView::Object(m), p)
}

fn decode_food<R: DataReaders + ?Sized>(r: &mut R) -> (res: Option<Value>)
    ensures
        yields(old(r)@, final(r)@, res, parse_food(old(r)@.src, Some(old(r)@.offset))),
{
    let mut map = Object::new();
    map.put("selected_slot", Value::from_u32(r.read_uint32()?));
    map.put("max_slots", Value::from_u32(r.read_uint32()?));
    map.put("slots", Value::from_values(r.read_vector(&ItemQuantityElement)?));
    Some(Value::from_object(map))
}

/// The player: a character, its optional combat styles, prayer points, equipment sets,
/// food, summoning timer, soul points and unholy prayer multiplier.
#[verifier::opaque]
pub open spec fn parse_player(src: Src, pos: Pos) -> (ValueView, Pos) {
    let (character, p) = parse_character(src, pos);
    let m = assoc_insert(Seq::empty(), "character"@, character);
    let (m, p) = parse_optional_namespaced(m, "melee_style"@, src, p);
    let (m, p) = parse_optional_namespaced(m, "ranged_style"@, src, p);
    let (m, p) = parse_optional_namespaced(m, "magic_style"@, src, p);
    let (prayer_points, p) = parse_u32(src, p);
    let (selected_set, p) = parse_u16(src, p);
    let (sets, p) = parse_vector(EquipmentSetElement, src, p);
    let (food, p) = parse_food(src, p);
    let (summon_timer, p) = parse_timer(src, p);
    let (soul_points, p) = parse_u32(src, p);
    let (multiplier, p) = parse_u8(src, p);
    let m = assoc_insert(m, "prayer_points"@, ValueView::UInt(prayer_points as u64));
    let m = assoc_insert(m, "selected_equipment_set"@, ValueView::UInt(selected_set as u64));
    let m = assoc_insert(m, "equipment_sets"@, ValueView::Array(sets));
    let m = assoc_insert(m, "food"@, food);
    let m = assoc_insert(m, "summon_timer"@, summon_timer);
    let m = assoc_insert(m, "soul_points"@, ValueView::UInt(soul_points as u64));
    let m = assoc_insert(m, "unholy_prayer_multiplier"@, ValueView::UInt(multiplier as u64));
    (ValueView::Object(m), p)
}

pub trait PlayerDecoder: CharacterDecoder {
    fn decode_player(&mut self) -> (res: Option<Value>)
        ensures
            yields(old(self)@, final(self)@, res, parse_player(old(self)@.src, Some(old(self)@.offset))),
    {
        reveal(parse_player);
        let mut map = Object::new();
        map.put("character", self.decode_character()?);
        let map = decode_optional_namespaced(self, map, "melee_style")?;
        let map = decode_optional_namespaced(self, map, "ranged_style")?;
        let mut map = decode_optional_namespaced(self, map, "magic_style")?;
        map.put("prayer_points", Value::from_u32(self.read_uint32()?));
        map.put("selected_equipment_set", Value::from_u16(self.read_uint16()?));
        map.put("equipment_sets", Value::from_values(self.read_vector(&EquipmentSetElement)?));
        map.put("food", decode_food(self)?);
        map.put("summon_timer", self.decode_timer()?);
        map.put("soul_points", Value::from_u32(self.read_uint32()?));
        map.put("unholy_prayer_multiplier", Value::from_u8(self.read_uint8()?));
        Some(Value::from_object(map))
    }
}


/// Once a read has failed, this one fails too.
pub broadcast proof fn lemma_player_failure_stays(src: Src)
    ensures
        (#[trigger] parse_player(src, None)).1 is None,
{
    reveal(parse_player);
}

} // verus!
