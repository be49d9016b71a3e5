use vstd::prelude::*;

use crate::traits::bank_decoder::{lemma_bank_failure_stays, parse_bank, BankDecoder};
use crate::traits::base_manager_decoder::{
    lemma_base_manager_failure_stays, parse_base_manager, BaseManagerDecoder,
};
use crate::traits::elements::{
    decode_item_quantity, parse_item_quantity, ItemQuantityElement, NamespacedElement, U32Element,
};
use crate::traits::enemy_decoder::lemma_enemy_failure_stays;
use crate::traits::player_decoder::lemma_player_failure_stays;
use crate::traits::raid_enemy_decoder::{parse_raid_enemy, RaidEnemyDecoder};
use crate::traits::raid_player_decoder::{parse_raid_player, RaidPlayerDecoder};
use crate::traits::read::{
    namespaced_value, parse_bool, parse_f64_bits, parse_namespaced, parse_u32, parse_u8,
    parse_vector, yields, DataReaders, DecodeSpec, ElementDecoder, Pos, Src,
};
use crate::value::{assoc_insert, float_view, Object, Value, ValueView};

verus! {

/// The scope flags of a modifier value: each set flag is followed by the namespaced
/// object that scopes the modifier.
pub const SCOPE_SKILL: u32 = 1;
pub const SCOPE_DAMAGE_TYPE: u32 = 2;
pub const SCOPE_REALM: u32 = 4;
pub const SCOPE_CURRENCY: u32 = 8;
pub const SCOPE_CATEGORY: u32 = 16;
pub const SCOPE_ACTION: u32 = 32;
pub const SCOPE_SUBCATEGORY: u32 = 64;
pub const SCOPE_ITEM: u32 = 128;
pub const SCOPE_EFFECT_GROUP: u32 = 256;

/// Where `present` holds, a namespaced object stored under `key`.
#[verifier::opaque]
pub open spec fn parse_scoped(
    m: Seq<(Seq<char>, ValueView)>,
    key: Seq<char>,
    present: bool,
    src: Src,
    pos: Pos,
) -> (Seq<(Seq<char>, ValueView)>, Pos) {
    if present {
        let (o, p) = parse_namespaced(src, pos);
        (assoc_insert(m, key, namespaced_value(o)), p)
    } else {
        (m, pos)
    }
}

/// A failed read stays failed.
pub broadcast proof fn lemma_scoped_failure_stays(
    m: Seq<(Seq<char>, ValueView)>,
    key: Seq<char>,
    present: bool,
    src: Src,
)
    ensures
        (#[trigger] parse_scoped(m, key, present, src, None)).1 is None,
{
    reveal(parse_scoped);
}

fn decode_scoped<R: DataReaders + ?Sized>(r: &mut R, map: Object, key: &str, present: bool) -> (res:
    Option<Object>)
    ensures
        yields(old(r)@, final(r)@, res, parse_scoped(map@, key@, present, old(r)@.src, Some(old(r)@.offset))),
{
    reveal(parse_scoped);
    let mut map = map;
    if present {
        map.put(key, r.read_namespaced_object()?.into_value());
    }
    Some(map)
}

/// The namespaced objects that scope a modifier: one for each flag set in `scope_key`,
/// in flag order.
pub open spec fn parse_modifier_scopes(
    m: Seq<(Seq<char>, ValueView)>,
    scope_key: u32,
    src: Src,
    pos: Pos,
) -> (Seq<(Seq<char>, ValueView)>, Pos) {
    let (m, p) = parse_scoped(m, "skill"@, scope_key & SCOPE_SKILL != 0, src, pos);
    let (m, p) = parse_scoped(m, "damage_type"@, scope_key & SCOPE_DAMAGE_TYPE != 0, src, p);
    let (m, p) = parse_scoped(m, "realm"@, scope_key & SCOPE_REALM != 0, src, p);
    let (m, p) = parse_scoped(m, "currency"@, scope_key & SCOPE_CURRENCY != 0, src, p);
    let (m, p) = parse_scoped(m, "category"@, scope_key & SCOPE_CATEGORY != 0, src, p);
    let (m, p) = parse_scoped(m, "action"@, scope_key & SCOPE_ACTION != 0, src, p);
    let (m, p) = parse_scoped(m, "subcategory"@, scope_key & SCOPE_SUBCATEGORY != 0, src, p);
    let (m, p) = parse_scoped(m, "item"@, scope_key & SCOPE_ITEM != 0, src, p);
    parse_scoped(m, "effect_group"@, scope_key & SCOPE_EFFECT_GROUP != 0, src, p)
}

fn decode_modifier_scopes<R: DataReaders + ?Sized>(r: &mut R, map: Object, scope_key: u32) -> (res:
    Option<Object>)
    ensures
        yields(old(r)@, final(r)@, res, parse_modifier_scopes(map@, scope_key, old(r)@.src, Some(old(r)@.offset))),
{
    broadcast use lemma_scoped_failure_stays;

    let map = decode_scoped(r, map, "skill", scope_key & SCOPE_SKILL != 0)?;
    let map = decode_scoped(r, map, "damage_type", scope_key & SCOPE_DAMAGE_TYPE != 0)?;
    let map = decode_scoped(r, map, "realm", scope_key & SCOPE_REALM != 0)?;
    let map = decode_scoped(r, map, "currency", scope_key & SCOPE_CURRENCY != 0)?;
    let map = decode_scoped(r, map, "category", scope_key & SCOPE_CATEGORY != 0)?;
    let map = decode_scoped(r, map, "action", scope_key & SCOPE_ACTION != 0)?;
    let map = decode_scoped(r, map, "subcategory", scope_key & SCOPE_SUBCATEGORY != 0)?;
    let map = decode_scoped(r, map, "item", scope_key & SCOPE_ITEM != 0)?;
    decode_scoped(r, map, "effect_group", scope_key & SCOPE_EFFECT_GROUP != 0)
}

/// A modifier value: the modifier, its value, its scope key, and the objects that scope it.
pub open spec fn parse_modifier_values(src: Src, pos: Pos) -> (ValueView, Pos) {
    let (modifier, p) = parse_namespaced(src, pos);
    let (value, p) = parse_f64_bits(src, p);
    let (scope_key, p) = parse_u32(src, p);
    let m = assoc_insert(Seq::empty(), "modifier"@, namespaced_value(modifier));
    let m = assoc_insert(m, "value"@, float_view(value));
    let m = assoc_insert(m, "scope_key"@, ValueView::UInt(scope_key as u64));
    let (m, p) = parse_modifier_scopes(m, scope_key, src, p);
    (ValueView::Object(m), p)
}

fn decode_modifier_values<R: DataReaders + ?Sized>(r: &mut R) -> (res: Option<Value>)
    ensures
        yields(old(r)@, final(r)@, res, parse_modifier_values(old(r)@.src, Some(old(r)@.offset))),
{
    broadcast use lemma_scoped_failure_stays;

    let mut map = Object::new();
    map.put("modifier", r.read_namespaced_object()?.into_value());
    map.put("value", Value::from_float_bits(r.read_float64()?));
    let scope_key = r.read_uint32()?;
    map.put("scope_key", Value::from_u32(scope_key));
    let map = decode_modifier_scopes(r, map, scope_key)?;
    Some(Value::from_object(map))
}

/// A modifier value, as an element.
pub struct ModifierValuesElement;

impl DecodeSpec for ModifierValuesElement {
    open spec fn spec_decode(&self, src: Src, pos: Pos) -> (ValueView, Pos) {
        parse_modifier_values(src, pos)
    }
}

impl<R: DataReaders + ?Sized> ElementDecoder<R> for ModifierValuesElement {
    fn decode(&self, r: &mut R) -> (res: Option<Value>) {
        decode_modifier_values(r)
    }
}

/// An item being selected: `{item, quantity, isAlt}`.
pub open spec fn parse_selection(src: Src, pos: Pos) -> (ValueView, Pos) {
    let (item, p) = parse_namespaced(src, pos);
    let (quantity, p) = parse_u32(src, p);
    let (is_alt, p) = parse_bool(src, p);
    let m = assoc_insert(Seq::empty(), "item"@, namespaced_value(item));
    let m = assoc_insert(m, "quantity"@, ValueView::UInt(quantity as u64));
    let m = assoc_insert(m, "isAlt"@, ValueView::Bool(is_alt));
    (ValueView::Object(m), p)
}

fn get_selection<R: DataReaders + ?Sized>(r: &mut R) -> (res: Option<Value>)
    ensures
        yields(old(r)@, final(r)@, res, parse_selection(old(r)@.src, Some(old(r)@.offset))),
{
    let mut map = Object::new();
    map.put("item", r.read_namespaced_object()?.into_value());
    map.put("quantity", Value::from_u32(r.read_uint32()?));
    map.put("isAlt", Value::Bool(r.read_bool()?));
    Some(Value::from_object(map))
}

/// An item being selected, as an element.
pub struct SelectionElement;

impl DecodeSpec for SelectionElement {
    open spec fn spec_decode(&self, src: Src, pos: Pos) -> (ValueView, Pos) {
        parse_selection(src, pos)
    }
}

impl<R: DataReaders + ?Sized> ElementDecoder<R> for SelectionElement {
    fn decode(&self, r: &mut R) -> (res: Option<Value>) {
        get_selection(r)
    }
}

/// The items being selected, by category.
pub open spec fn parse_items_being_selected(src: Src, pos: Pos) -> (ValueView, Pos) {
    let (weapons, p) = parse_vector(SelectionElement, src, pos);
    let (armour, p) = parse_vector(SelectionElement, src, p);
    let (ammo, p) = parse_vector(SelectionElement, src, p);
    let (runes, p) = parse_vector(SelectionElement, src, p);
    let (food, p) = parse_vector(SelectionElement, src, p);
    let (passives, p) = parse_vector(SelectionElement, src, p);
    let m = assoc_insert(Seq::empty(), "weapons"@, ValueView::Array(weapons));
    let m = assoc_insert(m, "armour"@, ValueView::Array(armour));
    let m = assoc_insert(m, "ammo"@, ValueView::Array(ammo));
    let m = assoc_insert(m, "runes"@, ValueView::Array(runes));
    let m = assoc_insert(m, "food"@, ValueView::Array(food));
    let m = assoc_insert(m, "passives"@, ValueView::Array(passives));
    (ValueView::Object(m), p)
}

fn decode_items_being_selected<R: DataReaders + ?Sized>(r: &mut R) -> (res: Option<Value>)
    ensures
        yields(old(r)@, final(r)@, res, parse_items_being_selected(old(r)@.src, Some(old(r)@.offset))),
{
    let mut map = Object::new();
    map.put("weapons", Value::from_values(r.read_vector(&SelectionElement)?));
    map.put("armour", Value::from_values(r.read_vector(&SelectionElement)?));
    map.put("ammo", Value::from_values(r.read_vector(&SelectionElement)?));
    map.put("runes", Value::from_values(r.read_vector(&SelectionElement)?));
    map.put("food", Value::from_values(r.read_vector(&SelectionElement)?));
    map.put("passives", Value::from_values(r.read_vector(&SelectionElement)?));
    Some(Value::from_object(map))
}

/// The category of items being selected, by its byte.
pub open spec fn item_category_name(b: u8) -> Seq<char> {
    if b == 0 {
        "weapons"@
    } else if b == 1 {
        "armour"@
    } else if b == 2 {
        "ammo"@
    } else if b == 3 {
        "runes"@
    } else if b == 4 {
        "food"@
    } else if b == 5 {
        "passives"@
    } else {
        "other"@
    }
}

fn item_category_str(b: u8) -> (s: &'static str)
    ensures
        s@ == item_category_name(b),
{
    if b == 0 {
        "weapons"
    } else if b == 1 {
        "armour"
    } else if b == 2 {
        "ammo"
    } else if b == 3 {
        "runes"
    } else if b == 4 {
        "food"
    } else if b == 5 {
        "passives"
    } else {
        "other"
    }
}

/// One finished raid of the history.
pub struct HistoryElement;

impl DecodeSpec for HistoryElement {
    open spec fn spec_decode(&self, src: Src, pos: Pos) -> (ValueView, Pos) {
        let (skill_levels, p) = parse_vector(U32Element, src, pos);
        let (equipment, p) = parse_vector(NamespacedElement, src, p);
        let (ammo, p) = parse_u32(src, p);
        let (inventory, p) = parse_vector(ItemQuantityElement, src, p);
        let (food, p) = parse_item_quantity(src, p);
        let (wave, p) = parse_u32(src, p);
        let (kills, p) = parse_u32(src, p);
        let (timestamp, p) = parse_f64_bits(src, p);
        let (coins, p) = parse_u32(src, p);
        let (difficulty, p) = parse_u8(src, p);
        let m = assoc_insert(Seq::empty(), "skill_levels"@, ValueView::Array(skill_levels));
        let m = assoc_insert(m, "equipment"@, ValueView::Array(equipment));
        let m = assoc_insert(m, "ammo"@, ValueView::UInt(ammo as u64));
        let m = assoc_insert(m, "inventory"@, ValueView::Array(inventory));
        let m = assoc_insert(m, "food"@, food);
        let m = assoc_insert(m, "wave"@, ValueView::UInt(wave as u64));
        let m = assoc_insert(m, "kills"@, ValueView::UInt(kills as u64));
        let m = assoc_insert(m, "timestamp"@, float_view(timestamp));
        let m = assoc_insert(m, "raid_coins_earned"@, ValueView::UInt(coins as u64));
        let m = assoc_insert(m, "difficulty"@, ValueView::UInt(difficulty as u64));
        (ValueView::Object(m), p)
    }
}

impl<R: DataReaders + ?Sized> ElementDecoder<R> for HistoryElement {
    #[verifier::rlimit(40)]
    fn decode(&self, r: &mut R) -> (res: Option<Value>) {
        let mut map = Object::new();
        map.put("skill_levels", Value::from_values(r.read_vector(&U32Element)?));
        map.put("equipment", Value::from_values(r.read_vector(&NamespacedElement)?));
        map.put("ammo", Value::from_u32(r.read_uint32()?));
        map.put("inventory", Value::from_values(r.read_vector(&ItemQuantityElement)?));
        map.put("food", decode_item_quantity(r)?);
        map.put("wave", Value::from_u32(r.read_uint32()?));
        map.put("kills", Value::from_u32(r.read_uint32()?));
        map.put("timestamp", Value::from_float_bits(r.read_float64()?));
        map.put("raid_coins_earned", Value::from_u32(r.read_uint32()?));
        map.put("difficulty", Value::from_u8(r.read_uint8()?));
        Some(Value::from_object(map))
    }
}

/// The first part of a raid: its base manager (raid player and raid enemy), random
/// modifiers, state, difficulty and bank.
pub open spec fn parse_raid_setup(src: Src, pos: Pos) -> (Seq<(Seq<char>, ValueView)>, Pos) {
    let (player, p) = parse_raid_player(src, pos);
    let (enemy, p) = parse_raid_enemy(src, p);
    let (base_manager, p) = parse_base_manager(player, enemy, src, p);
    let (player_modifiers, p) = parse_vector(ModifierValuesElement, src, p);
    let (enemy_modifiers, p) = parse_vector(ModifierValuesElement, src, p);
    let (state, p) = parse_u8(src, p);
    let (difficulty, p) = parse_u8(src, p);
    let (bank, p) = parse_bank(src, p);
    let m = assoc_insert(Seq::empty(), "base_manager"@, base_manager);
    let m = assoc_insert(m, "random_player_modifiers"@, ValueView::Array(player_modifiers));
    let m = assoc_insert(m, "random_enemy_modifiers"@, ValueView::Array(enemy_modifiers));
    let m = assoc_insert(m, "state"@, ValueView::UInt(state as u64));
    let m = assoc_insert(m, "_set_dificulty"@, ValueView::UInt(difficulty as u64));
    let m = assoc_insert(m, "bank"@, bank);
    (m, p)
}

/// The rest of a raid, inserted into the object `m` of its first part.
pub open spec fn parse_raid_progress(m: Seq<(Seq<char>, ValueView)>, src: Src, pos: Pos) -> (
    ValueView,
    Pos,
) {
    let (wave, p) = parse_u32(src, pos);
    let (wave_progress, p) = parse_u32(src, p);
    let (kill_count, p) = parse_u32(src, p);
    let (start_timestamp, p) = parse_f64_bits(src, p);
    let (crate_items, p) = parse_vector(NamespacedElement, src, p);
    let (being_selected, p) = parse_vector(ModifierValuesElement, src, p);
    let (positive, p) = parse_bool(src, p);
    let (items_selected, p) = parse_items_being_selected(src, p);
    let (category, p) = parse_u8(src, p);
    let (pos_mods, p) = parse_u8(src, p);
    let (neg_mods, p) = parse_u8(src, p);
    let (is_paused, p) = parse_bool(src, p);
    let (history, p) = parse_vector(HistoryElement, src, p);
    let m = assoc_insert(m, "wave"@, ValueView::UInt(wave as u64));
    let m = assoc_insert(m, "wave_progress"@, ValueView::UInt(wave_progress as u64));
    let m = assoc_insert(m, "kill_count"@, ValueView::UInt(kill_count as u64));
    let m = assoc_insert(m, "start_timestamp"@, float_view(start_timestamp));
    let m = assoc_insert(m, "owned_crate_items"@, ValueView::Array(crate_items));
    let m = assoc_insert(m, "random_modifiers_being_selected"@, ValueView::Array(being_selected));
    let m = assoc_insert(m, "is_selecting_positive_modifier"@, ValueView::Bool(positive));
    let m = assoc_insert(m, "items_being_selected"@, items_selected);
    let m = assoc_insert(m, "item_category_being_selected"@, ValueView::Str(item_category_name(category)));
    let m = assoc_insert(m, "pos_mods_selected"@, ValueView::UInt(pos_mods as u64));
    let m = assoc_insert(m, "neg_mods_selected"@, ValueView::UInt(neg_mods as u64));
    let m = assoc_insert(m, "is_paused"@, ValueView::Bool(is_paused));
    let m = assoc_insert(m, "history"@, ValueView::Array(history));
    (ValueView::Object(m), p)
}

/// The Golbin raid manager.
#[verifier::opaque]
pub open spec fn parse_raid_manager(src: Src, pos: Pos) -> (ValueView, Pos) {
    let (m, p) = parse_raid_setup(src, pos);
    parse_raid_progress(m, src, p)
}

fn decode_raid_setup<R: BaseManagerDecoder + RaidEnemyDecoder + RaidPlayerDecoder + BankDecoder + ?Sized>(r: &mut R) -> (res: Option<Object>)
    ensures
        yields(old(r)@, final(r)@, res, parse_raid_setup(old(r)@.src, Some(old(r)@.offset))),
{
    broadcast use {
        lemma_bank_failure_stays,
        lemma_base_manager_failure_stays,
        lemma_player_failure_stays,
        lemma_enemy_failure_stays,
    };

    let mut map = Object::new();
    let player = r.decode_raid_player()?;
    let enemy = r.decode_raid_enemy()?;
    map.put("base_manager", r.decode_base_manager(player, enemy)?);
    map.put("random_player_modifiers", Value::from_values(r.read_vector(&ModifierValuesElement)?));
    map.put("random_enemy_modifiers", Value::from_values(r.read_vector(&ModifierValuesElement)?));
    map.put("state", Value::from_u8(r.read_uint8()?));
    map.put("_set_dificulty", Value::from_u8(r.read_uint8()?));
    map.put("bank", r.decode_bank()?);
    Some(map)
}

#[verifier::rlimit(60)]
fn decode_raid_progress<R: DataReaders + ?Sized>(r: &mut R, map: Object) -> (res: Option<Value>)
    ensures
        yields(old(r)@, final(r)@, res, parse_raid_progress(map@, old(r)@.src, Some(old(r)@.offset))),
{
    let mut map = map;
    map.put("wave", Value::from_u32(r.read_uint32()?));
    map.put("wave_progress", Value::from_u32(r.read_uint32()?));
    map.put("kill_count", Value::from_u32(r.read_uint32()?));
    map.put("start_timestamp", Value::from_float_bits(r.read_float64()?));
    map.put("owned_crate_items", Value::from_values(r.read_set(&NamespacedElement)?));
    map.put(
        "random_modifiers_being_selected",
        Value::from_values(r.read_vector(&ModifierValuesElement)?),
    );
    map.put("is_selecting_positive_modifier", Value::Bool(r.read_bool()?));
    map.put("items_being_selected", decode_items_being_selected(r)?);
    map.put("item_category_being_selected", Value::from_str(item_category_str(r.read_uint8()?)));
    map.put("pos_mods_selected", Value::from_u8(r.read_uint8()?));
    map.put("neg_mods_selected", Value::from_u8(r.read_uint8()?));
    map.put("is_paused", Value::Bool(r.read_bool()?));
    map.put("history", Value::from_values(r.read_vector(&HistoryElement)?));
    Some(Value::from_object(map))
}

pub trait RaidManagerDecoder: BaseManagerDecoder + RaidEnemyDecoder + RaidPlayerDecoder + BankDecoder {
    fn decode_raid_manager(&mut self) -> (res: Option<Value>)
        ensures
            yields(old(self)@, final(self)@, res, parse_raid_manager(old(self)@.src, Some(old(self)@.offset))),
    {
        reveal(parse_raid_manager);
        let map = decode_raid_setup(self)?;
        decode_raid_progress(self, map)
    }
}


/// Once a read has failed, this one fails too.
pub broadcast proof fn lemma_raid_manager_failure_stays(src: Src)
    ensures
        (#[trigger] parse_raid_manager(src, None)).1 is None,
{
    broadcast use {
        lemma_bank_failure_stays,
        lemma_base_manager_failure_stays,
        lemma_player_failure_stays,
        lemma_enemy_failure_stays,
    };
    reveal(parse_raid_manager);
}

} // verus!
