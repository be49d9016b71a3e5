use std::collections::HashMap;
use std::io::Write;

use base64::Engine;

use rusty_melvor::save_file::{decode_save_text, OpenSaveError};
use rusty_melvor::save_reader::{BinaryReader, MelvorSaveReader, ReadSaveError};
use rusty_melvor::traits::bank_decoder::BankDecoder;
use rusty_melvor::traits::base_manager_decoder::BaseManagerDecoder;
use rusty_melvor::traits::character_decoder::CharacterDecoder;
use rusty_melvor::traits::elements::{NamespacedElement, NamespacedNameKey, U32Element};
use rusty_melvor::traits::enemy_decoder::EnemyDecoder;
use rusty_melvor::traits::item_charges_decoder::ItemChargesDecoder;
use rusty_melvor::traits::minibar_decoder::MinibarDecoder;
use rusty_melvor::traits::native_manager_decoder::NativeManagerDecoder;
use rusty_melvor::traits::pet_manager_decoder::PetManagerDecoder;
use rusty_melvor::traits::player_decoder::PlayerDecoder;
use rusty_melvor::traits::potion_manager_decoder::PotionManagerDecoder;
use rusty_melvor::traits::raid_enemy_decoder::RaidEnemyDecoder;
use rusty_melvor::traits::raid_manager_decoder::RaidManagerDecoder;
use rusty_melvor::traits::raid_player_decoder::RaidPlayerDecoder;
use rusty_melvor::traits::read::{ByteOffset, DataReaders};
use rusty_melvor::traits::settings_decoder::SettingsDecoder;
use rusty_melvor::traits::shop_decoder::ShopDecoder;
use rusty_melvor::traits::skill_decoder::SkillDecoder;
use rusty_melvor::traits::stat_decoder::StatDecoder;
use rusty_melvor::traits::timer_decoder::TimerDecoder;
use rusty_melvor::traits::tutorial_decoder::TutorialDecoder;
use rusty_melvor::value::{Object, Value};

/// A builder of save bytes.
struct B(Vec<u8>);

impl B {
    fn new() -> B {
        B(Vec::new())
    }
    fn u8(mut self, v: u8) -> B {
        self.0.push(v);
        self
    }
    fn u16(mut self, v: u16) -> B {
        self.0.extend_from_slice(&v.to_be_bytes());
        self
    }
    fn u32(mut self, v: u32) -> B {
        self.0.extend_from_slice(&v.to_be_bytes());
        self
    }
    fn f64(mut self, v: f64) -> B {
        self.0.extend_from_slice(&v.to_be_bytes());
        self
    }
    fn bool(self, v: bool) -> B {
        self.u8(if v { 1 } else { 0 })
    }
    fn str(mut self, v: &str) -> B {
        self.0.extend_from_slice(&(v.len() as u32).to_be_bytes());
        self.0.extend_from_slice(v.as_bytes());
        self
    }
    fn raw(mut self, v: &[u8]) -> B {
        self.0.extend_from_slice(v);
        self
    }
    fn then(mut self, other: B) -> B {
        self.0.extend(other.0);
        self
    }
    fn reader(self) -> BinaryReader {
        let mut ids = HashMap::new();
        for (id, name) in NAMES {
            ids.insert(*id, name.to_string());
        }
        BinaryReader { data: self.0, byte_offset: 0, numeric_to_string_id_map: ids }
    }
}

/// The text ids the test readers know.
const NAMES: &[(u16, &str)] = &[
    (1, "melvorD:Attack"),
    (2, "melvorD:Bronze_Sword"),
    (3, "melvorF:Poison"),
    (4, "melvorD:Melvor"),
];

fn obj(pairs: Vec<(&str, Value)>) -> Value {
    let mut o = Object::new();
    for (k, v) in pairs {
        o.put(k, v);
    }
    Value::Object(o)
}

fn u(n: u64) -> Value {
    Value::UInt(n)
}

fn b(v: bool) -> Value {
    Value::Bool(v)
}

fn s(v: &str) -> Value {
    Value::Str(v.to_string())
}

fn f(v: f64) -> Value {
    Value::Float(v.to_bits())
}

fn arr(items: Vec<Value>) -> Value {
    Value::Array(items)
}

/// The value of a namespaced object with the test names.
fn ns(id: u16) -> Value {
    match NAMES.iter().find(|(i, _)| *i == id) {
        Some((_, name)) => obj(vec![("id", u(id as u64)), ("text_id", s(name))]),
        None => obj(vec![("id", u(id as u64))]),
    }
}

fn timer_bytes(left: u32, max: u32, active: bool) -> B {
    B::new().u32(left).u32(max).bool(active)
}

fn timer(left: u64, max: u64, active: bool) -> Value {
    obj(vec![("ticksleft", u(left)), ("maxticks", u(max)), ("active", b(active))])
}

/// A character with no active effects.
fn plain_character_bytes(hitpoints: u32) -> B {
    B::new()
        .u32(hitpoints)
        .u8(1)
        .u32(4)
        .u16(2)
        .bool(true)
        .bool(false)
        .then(timer_bytes(1, 2, true))
        .then(timer_bytes(3, 4, false))
        .u32(5)
        .u32(6)
        .u32(0)
        .bool(false)
        .u32(9)
}

fn plain_character(hitpoints: u64) -> Value {
    obj(vec![
        ("combat_manager.hitpoints", u(hitpoints)),
        ("nextAction", s("Attack")),
        ("attack_count", u(4)),
        ("next_attack", ns(2)),
        ("is_attacking", b(true)),
        ("first_hit", b(false)),
        ("timers_act", timer(1, 2, true)),
        ("timers_regen", timer(3, 4, false)),
        ("turns_taken", u(5)),
        ("buffered_regen", u(6)),
        ("active_effects", obj(vec![])),
        ("first_miss", b(false)),
        ("barrier", u(9)),
    ])
}

#[test]
fn timer_decoder() {
    let mut r = timer_bytes(7, 8, false).reader();
    assert_eq!(r.decode_timer(), Some(timer(7, 8, false)));
    assert_eq!(r.get_byte_offset(), 9);
}

#[test]
fn vectors_sets_and_maps() {
    let mut r = B::new()
        .u32(2)
        .u16(1)
        .u16(99)
        .u32(3)
        .u16(2)
        .u32(10)
        .u16(99)
        .u32(11)
        .u16(2)
        .u32(12)
        .reader();
    assert_eq!(r.read_vector(&NamespacedElement), Some(vec![ns(1), ns(99)]));
    // A later entry with an equal key replaces the earlier one.
    assert_eq!(
        r.read_value_map_key(&NamespacedNameKey, &U32Element).map(Value::Object),
        Some(obj(vec![("melvorD:Bronze_Sword", u(12)), ("99", u(11))]))
    );
    let mut short = B::new().u32(2).u16(1).reader();
    assert_eq!(short.read_set(&NamespacedElement), None);
}

#[test]
fn character_decoder_plain() {
    let mut r = plain_character_bytes(100).reader();
    assert_eq!(r.decode_character(), Some(plain_character(100)));
    let mut r = plain_character_bytes(100).u8(0).reader();
    r.decode_character();
    assert_eq!(r.read_uint8(), Some(0));
}

#[test]
fn character_decoder_active_effects() {
    let effects = B::new()
        .u32(2)
        // An effect whose id has no text id: 18 bytes and four vectors are passed over.
        .u16(50)
        .raw(&[0u8; 18])
        .u32(1)
        .str("x")
        .raw(&[0u8; 4])
        .u32(0)
        .u32(0)
        .u32(1)
        .str("t")
        .raw(&[0u8; 9])
        // A known effect.
        .u16(3)
        .bool(true)
        .u8(1)
        .f64(2.5)
        .f64(f64::NAN)
        .u32(1)
        .str("p")
        .u32(3)
        .u32(0)
        .u32(1)
        .str("tm")
        .then(timer_bytes(1, 1, true));
    let bytes = B::new()
        .u32(10)
        .u8(0)
        .u32(0)
        .u16(1)
        .bool(false)
        .bool(true)
        .then(timer_bytes(0, 0, false))
        .then(timer_bytes(0, 0, false))
        .u32(0)
        .u32(0)
        .then(effects)
        .bool(true)
        .u32(2);
    let mut r = bytes.reader();
    let expected = obj(vec![
        ("combat_manager.hitpoints", u(10)),
        ("nextAction", s("Nothing")),
        ("attack_count", u(0)),
        ("next_attack", ns(1)),
        ("is_attacking", b(false)),
        ("first_hit", b(true)),
        ("timers_act", timer(0, 0, false)),
        ("timers_regen", timer(0, 0, false)),
        ("turns_taken", u(0)),
        ("buffered_regen", u(0)),
        (
            "active_effects",
            obj(vec![
                ("", Value::Null),
                (
                    "melvorF:Poison",
                    obj(vec![
                        ("source_character", b(true)),
                        ("source", s("Effect")),
                        ("damageDealt", f(2.5)),
                        ("damageTaken", Value::Null),
                        ("parameters", arr(vec![obj(vec![("name", s("p")), ("value", u(3))])])),
                        ("stat_groups", arr(vec![])),
                        ("timers", arr(vec![obj(vec![("name", s("tm")), ("timer", timer(1, 1, true))])])),
                    ]),
                ),
            ]),
        ),
        ("first_miss", b(true)),
        ("barrier", u(2)),
    ]);
    assert_eq!(r.decode_character(), Some(expected));
}

#[test]
fn enemy_decoder_with_and_without_monster() {
    let bytes = plain_character_bytes(1).u8(2).u8(1).bool(true).u16(4).bool(true).u16(3);
    let mut r = bytes.reader();
    assert_eq!(
        r.decode_enemy(true),
        Some(obj(vec![
            ("character", plain_character(1)),
            ("state", u(2)),
            ("random_attack_type", s("Ranged")),
            ("monster", ns(4)),
            ("override_damage_type", ns(3)),
        ]))
    );
    // Without a monster, the flag is not read at all.
    let bytes = plain_character_bytes(1).u8(0).u8(9).bool(false);
    let mut r = bytes.reader();
    assert_eq!(
        r.decode_enemy(false),
        Some(obj(vec![("character", plain_character(1)), ("state", u(0)), ("random_attack_type", s("Other"))]))
    );
}

fn plain_player_bytes() -> B {
    plain_character_bytes(50)
        .bool(true)
        .u16(2)
        .bool(false)
        .bool(false)
        .u32(7)
        .u16(1)
        .u32(1)
        // one equipment set with one slot holding an item
        .u32(1)
        .u16(1)
        .bool(true)
        .u16(2)
        .u32(3)
        .u32(0)
        .bool(false)
        .bool(true)
        .u16(4)
        .bool(false)
        .u32(1)
        .u16(3)
        // food
        .u32(0)
        .u32(3)
        .u32(1)
        .u16(2)
        .u32(5)
        .then(timer_bytes(0, 10, false))
        .u32(8)
        .u8(2)
}

fn plain_player() -> Value {
    obj(vec![
        ("character", plain_character(50)),
        ("melee_style", ns(2)),
        ("prayer_points", u(7)),
        ("selected_equipment_set", u(1)),
        (
            "equipment_sets",
            arr(vec![obj(vec![
                (
                    "equipment",
                    arr(vec![obj(vec![
                        ("slot", ns(1)),
                        ("item", ns(2)),
                        ("quantity", u(3)),
                        ("quick_equip_items", arr(vec![])),
                    ])]),
                ),
                ("aurora", ns(4)),
                ("prayers", arr(vec![ns(3)])),
            ])]),
        ),
        (
            "food",
            obj(vec![
                ("selected_slot", u(0)),
                ("max_slots", u(3)),
                ("slots", arr(vec![obj(vec![("item", ns(2)), ("quantity", u(5))])])),
            ]),
        ),
        ("summon_timer", timer(0, 10, false)),
        ("soul_points", u(8)),
        ("unholy_prayer_multiplier", u(2)),
    ])
}

#[test]
fn player_decoder() {
    let mut r = plain_player_bytes().reader();
    assert_eq!(r.decode_player(), Some(plain_player()));
}

#[test]
fn raid_player_decoder() {
    let mut r = plain_player_bytes().u32(1).u16(1).u32(2).u16(2).u16(3).reader();
    assert_eq!(
        r.decode_raid_player(),
        Some(obj(vec![("player", plain_player()), ("alt_attacks", obj(vec![("melvorD:Attack", arr(vec![ns(2), ns(3)]))]))]))
    );
}

fn raid_enemy_bytes() -> B {
    plain_character_bytes(3)
        .u8(1)
        .u8(0)
        .bool(false)
        .bool(true)
        .str("Golbin")
        .u32(1)
        .u32(2)
        .u32(3)
        .u32(4)
        .u32(5)
        .u32(6)
        .u8(1)
        .u8(2)
        .u32(1)
        .u16(3)
        .u32(7)
}

fn raid_enemy() -> Value {
    obj(vec![
        (
            "enemy",
            obj(vec![("character", plain_character(3)), ("state", u(1)), ("random_attack_type", s("Melee"))]),
        ),
        (
            "monster",
            obj(vec![
                ("name", s("Golbin")),
                (
                    "levels",
                    obj(vec![
                        ("hitpoints", u(1)),
                        ("attack", u(2)),
                        ("strength", u(3)),
                        ("defence", u(4)),
                        ("ranged", u(5)),
                        ("magic", u(6)),
                    ]),
                ),
                ("attack_type", u(1)),
                ("golbin-svg", u(2)),
                ("passives", arr(vec![ns(3)])),
                ("corruption", u(7)),
            ]),
        ),
    ])
}

#[test]
fn raid_enemy_decoder() {
    let mut r = raid_enemy_bytes().reader();
    assert_eq!(r.decode_raid_enemy(), Some(raid_enemy()));
}

#[test]
fn base_manager_decoder() {
    let mut r = B::new().bool(true).then(timer_bytes(1, 2, true)).bool(false).u32(1).u16(4).bool(true).reader();
    assert_eq!(
        r.decode_base_manager(s("p"), s("e")),
        Some(obj(vec![
            ("player", s("p")),
            ("enemy", s("e")),
            ("fight_in_progress", b(true)),
            ("spawn_timer", timer(1, 2, true)),
            ("is_active", b(false)),
            ("passives", arr(vec![obj(vec![("passive", ns(4)), ("display", b(true))])])),
        ]))
    );
}

fn bank_bytes() -> B {
    B::new()
        .u32(1)
        .u16(2)
        .u32(2)
        .u32(1)
        .u16(2)
        .u32(100)
        .u32(0)
        .u32(1)
        .u16(77)
        .u8(3)
        .u32(0)
        .u32(1)
        .u16(1)
        .u32(1)
        .u8(5)
        .u16(4)
}

fn bank() -> Value {
    obj(vec![
        ("locked_items", arr(vec![ns(2)])),
        ("items_by_bank_tab", arr(vec![arr(vec![obj(vec![("item", ns(2)), ("quantity", u(100))])]), arr(vec![])])),
        ("default_item_tabs", obj(vec![("77", u(3))])),
        ("custom_sort_order", arr(vec![])),
        ("glowing_items", arr(vec![ns(1)])),
        ("tab_icons", obj(vec![("5", ns(4))])),
    ])
}

#[test]
fn bank_decoder() {
    let mut r = bank_bytes().reader();
    assert_eq!(r.decode_bank(), Some(bank()));
}

fn modifier_bytes(scope_key: u32) -> B {
    let mut out = B::new().u16(3).f64(-1.0).u32(scope_key);
    for bit in 0..9 {
        if scope_key & (1 << bit) != 0 {
            out = out.u16(bit as u16 + 10);
        }
    }
    out
}

#[test]
fn raid_manager_decoder() {
    let empty_bank = B::new().u32(0).u32(0).u32(0).u32(0).u32(0).u32(0);
    let selection = B::new().u32(1).u16(2).u32(4).bool(true);
    let history = B::new()
        .u32(1)
        .u32(2)
        .u32(99)
        .u32(98)
        .u32(0)
        .u32(5)
        .u32(0)
        .u16(2)
        .u32(6)
        .u32(7)
        .u32(8)
        .f64(3.0)
        .u32(9)
        .u8(1);
    let bytes = plain_player_bytes()
        .u32(0)
        .then(raid_enemy_bytes())
        .bool(false)
        .then(timer_bytes(0, 0, false))
        .bool(true)
        .u32(0)
        .u32(1)
        .then(modifier_bytes(1 | 4 | 256))
        .u32(0)
        .u8(2)
        .u8(3)
        .then(empty_bank)
        .u32(4)
        .u32(5)
        .u32(6)
        .f64(1000.0)
        .u32(0)
        .u32(0)
        .bool(true)
        .then(selection)
        .u32(0)
        .u32(0)
        .u32(0)
        .u32(0)
        .u32(0)
        .u8(3)
        .u8(1)
        .u8(0)
        .bool(false)
        .then(history);
    let mut r = bytes.reader();
    let empty_bank_value = obj(vec![
        ("locked_items", arr(vec![])),
        ("items_by_bank_tab", arr(vec![])),
        ("default_item_tabs", obj(vec![])),
        ("custom_sort_order", arr(vec![])),
        ("glowing_items", arr(vec![])),
        ("tab_icons", obj(vec![])),
    ]);
    let expected = obj(vec![
        (
            "base_manager",
            obj(vec![
                ("player", obj(vec![("player", plain_player()), ("alt_attacks", obj(vec![]))])),
                ("enemy", raid_enemy()),
                ("fight_in_progress", b(false)),
                ("spawn_timer", timer(0, 0, false)),
                ("is_active", b(true)),
                ("passives", arr(vec![])),
            ]),
        ),
        (
            "random_player_modifiers",
            arr(vec![obj(vec![
                ("modifier", ns(3)),
                ("value", f(-1.0)),
                ("scope_key", u(261)),
                ("skill", ns(10)),
                ("realm", ns(12)),
                ("effect_group", ns(18)),
            ])]),
        ),
        ("random_enemy_modifiers", arr(vec![])),
        ("state", u(2)),
        ("_set_dificulty", u(3)),
        ("bank", empty_bank_value),
        ("wave", u(4)),
        ("wave_progress", u(5)),
        ("kill_count", u(6)),
        ("start_timestamp", f(1000.0)),
        ("owned_crate_items", arr(vec![])),
        ("random_modifiers_being_selected", arr(vec![])),
        ("is_selecting_positive_modifier", b(true)),
        (
            "items_being_selected",
            obj(vec![
                ("weapons", arr(vec![obj(vec![("item", ns(2)), ("quantity", u(4)), ("isAlt", b(true))])])),
                ("armour", arr(vec![])),
                ("ammo", arr(vec![])),
                ("runes", arr(vec![])),
                ("food", arr(vec![])),
                ("passives", arr(vec![])),
            ]),
        ),
        ("item_category_being_selected", s("runes")),
        ("pos_mods_selected", u(1)),
        ("neg_mods_selected", u(0)),
        ("is_paused", b(false)),
        (
            "history",
            arr(vec![obj(vec![
                ("skill_levels", arr(vec![u(99), u(98)])),
                ("equipment", arr(vec![])),
                ("ammo", u(5)),
                ("inventory", arr(vec![])),
                ("food", obj(vec![("item", ns(2)), ("quantity", u(6))])),
                ("wave", u(7)),
                ("kills", u(8)),
                ("timestamp", f(3.0)),
                ("raid_coins_earned", u(9)),
                ("difficulty", u(1)),
            ])]),
        ),
    ]);
    assert_eq!(r.decode_raid_manager(), Some(expected));
}

#[test]
fn item_charges_minibar_pet_and_shop() {
    let mut r = B::new().u32(1).u16(2).u32(40).reader();
    assert_eq!(r.decode_item_charges(), Some(obj(vec![("charges", obj(vec![("melvorD:Bronze_Sword", u(40))]))])));
    let mut r = B::new().u32(1).u16(1).u32(1).u16(2).reader();
    assert_eq!(
        r.decode_minibar(),
        Some(obj(vec![("custom_items", obj(vec![("melvorD:Attack", arr(vec![ns(2)]))]))]))
    );
    let mut r = B::new().u32(2).u16(3).u16(4).reader();
    assert_eq!(r.decode_pet_manager(), Some(obj(vec![("unlocked", arr(vec![ns(3), ns(4)]))])));
    let mut r = B::new().u32(1).u16(12).u32(2).f64(f64::INFINITY).reader();
    assert_eq!(
        r.decode_shop(),
        Some(obj(vec![("upgrades_purchased", obj(vec![("12", u(2))])), ("buy_quantity", Value::Null)]))
    );
}

#[test]
fn potion_and_native_managers() {
    let mut r = B::new().u32(1).u16(1).u16(3).u32(9).u32(1).u16(4).reader();
    assert_eq!(
        r.decode_potion_manager(),
        Some(obj(vec![
            ("active_potions", obj(vec![("melvorD:Attack", obj(vec![("potion", ns(3)), ("charges", u(9))]))])),
            ("auto_reuse_actions", arr(vec![ns(4)])),
        ]))
    );
    let mut r = B::new().u32(1).str("n1").f64(1.0).f64(2.0).u8(3).str("web").reader();
    assert_eq!(
        r.decode_native_manager(),
        Some(obj(vec![(
            "scheduled_push_notifications",
            arr(vec![obj(vec![
                ("id", s("n1")),
                ("startDate", f(1.0)),
                ("endDate", f(2.0)),
                ("notificationType", u(3)),
                ("platform", s("web")),
            ])]),
        )]))
    );
}

#[test]
fn tutorial_decoder() {
    let mut r = B::new().bool(true).reader();
    assert_eq!(r.decode_tutorial(), Some(obj(vec![("complete", b(true))])));
    let mut r = B::new().bool(false).bool(false).reader();
    assert_eq!(r.decode_tutorial(), Some(obj(vec![("complete", b(false))])));
    let mut r = B::new().bool(false).bool(true).u16(4).bool(true).u32(2).u8(5).u8(6).reader();
    assert_eq!(
        r.decode_tutorial(),
        Some(obj(vec![
            ("complete", b(false)),
            ("current_stage", ns(4)),
            ("current_stage_claimed", b(true)),
            (
                "tasks",
                arr(vec![
                    obj(vec![("task_id", u(0)), ("progress", u(5))]),
                    obj(vec![("task_id", u(1)), ("progress", u(6))]),
                ]),
            ),
        ]))
    );
    let mut r = B::new().bool(false).bool(true).u16(4).bool(true).u32(2).u8(5).reader();
    assert_eq!(r.decode_tutorial(), None);
}

fn skill_bytes() -> B {
    B::new()
        .f64(1234.5)
        .bool(true)
        .u32(1)
        .u16(4)
        .u32(1)
        .u16(2)
        .u8(1)
        .u16(99)
        .u16(120)
        .u32(1)
        .u16(3)
        .u32(1)
        .u16(2)
        .bool(true)
        .u8(4)
        .f64(0.0)
        .u16(4)
}

fn skill() -> Value {
    obj(vec![
        ("xp", f(1234.5)),
        ("unlocked", b(true)),
        ("realms", obj(vec![("melvorD:Melvor", obj(vec![("found_relics", obj(vec![("melvorD:Bronze_Sword", u(1))]))]))])),
        ("current_level_cap", u(99)),
        ("current_abyssal_level_cap", u(120)),
        (
            "skill_trees",
            arr(vec![obj(vec![
                ("skill_tree_name", ns(3)),
                (
                    "skill_tree",
                    obj(vec![("nodes", arr(vec![obj(vec![("node", ns(2)), ("unlocked", b(true))])])), ("points", u(4))]),
                ),
            ])]),
        ),
        ("abyssal_xp", f(0.0)),
        ("realm", ns(4)),
    ])
}

#[test]
fn skill_decoder() {
    let mut r = skill_bytes().reader();
    assert_eq!(r.decode_skill(), Some(skill()));
}

#[test]
fn skills_stop_at_the_first_unknown_skill() {
    let skill_len = skill_bytes().0.len() as u32;
    let bytes = B::new()
        .u32(3)
        .u16(1)
        .u32(skill_len)
        .then(skill_bytes())
        .u16(2)
        .u32(4)
        .raw(&[9, 9, 9, 9])
        .u16(1)
        .u32(0);
    let mut r = bytes.reader();
    assert_eq!(r.decode_skills(), Some(obj(vec![("attack", skill())])));
    // The unknown skill's data was passed over, and the third skill is left unread.
    assert_eq!(r.read_uint16(), Some(1));
}

#[test]
fn stat_trackers() {
    let mut r = B::new().u32(3).u32(0).f64(1.0).u32(2).f64(2.0).u32(9).f64(3.0).reader();
    assert_eq!(
        r.decode_stat_tracker(&["A", "B", "C"]),
        Some(obj(vec![("stats", obj(vec![("A", f(1.0)), ("C", f(2.0)), ("9", f(3.0))]))]))
    );
    let mut r = B::new().u32(1).u16(2).u32(1).u32(1).f64(5.0).reader();
    assert_eq!(
        r.decode_mapped_stat_tracker(&["X", "Y"]),
        Some(obj(vec![("stats_map", obj(vec![("melvorD:Bronze_Sword", obj(vec![("stats", obj(vec![("Y", f(5.0))]))]))]))]))
    );
}

#[test]
fn stats_decoder() {
    // 34 subjects: woodcutting has one stat, items has one item, every other one is empty.
    let mut bytes = B::new().u32(1).u32(2).f64(7.0);
    for index in 1..34 {
        if index == 22 {
            bytes = bytes.u32(1).u16(2).u32(1).u32(2).f64(1.0);
        } else {
            bytes = bytes.u32(0);
        }
    }
    let mut r = bytes.reader();
    let decoded = r.decode_stats().unwrap();
    let Value::Object(map) = decoded else { panic!("stats are an object") };
    assert_eq!(map.entries.len(), 34);
    assert_eq!(map.entries[0], ("woodcutting".to_string(), obj(vec![("stats", obj(vec![("LogsCut", f(7.0))]))])));
    assert_eq!(map.entries[1], ("fishing".to_string(), obj(vec![("stats", obj(vec![]))])));
    assert_eq!(
        map.entries[22],
        (
            "items".to_string(),
            obj(vec![("stats_map", obj(vec![("melvorD:Bronze_Sword", obj(vec![("stats", obj(vec![("GpFromSale", f(1.0))]))]))]))])
        )
    );
    assert_eq!(map.entries[23], ("monster".to_string(), obj(vec![("stats_map", obj(vec![]))])));
    assert_eq!(map.entries[33].0, "harvesting".to_string());
}

#[test]
fn settings_decoder() {
    // The kind of each stored setting, in order: b a boolean, 1 a u8, 2 a u16, n a
    // namespaced object, s a set of strings.
    let kinds = "bbbbbbbbbbbbbbbbbbbbbbbbbbbbbbbbbbbbbbbbbbbbbbbbbn111bbbb11bbbbbb1bb1bbbbbbb2bbbsbbbbbbbb1bbbbbbbbbbbbbbbbbbb";
    let mut bytes = B::new();
    for (index, kind) in kinds.chars().enumerate() {
        bytes = match kind {
            'b' => bytes.bool(index % 3 == 0),
            '1' => bytes.u8(index as u8),
            '2' => bytes.u16(60),
            'n' => bytes.u16(4),
            _ => bytes.u32(2).str("melvorF").str("melvorTotH"),
        };
    }
    let total = bytes.0.len();
    let mut r = bytes.reader();
    let decoded = r.decode_settings().unwrap();
    assert_eq!(r.get_byte_offset(), total);
    let Value::Object(map) = decoded else { panic!("settings are an object") };
    assert_eq!(map.entries.len(), 109);
    assert_eq!(map.entries[0], ("continue_if_bank_full".to_string(), b(true)));
    assert_eq!(map.entries[47], ("show_tier_iv_potions".to_string(), b(false)));
    assert_eq!(map.entries[48], ("show_neutral_attack_modifiers".to_string(), b(true)));
    assert_eq!(map.entries[49], ("default_page_on_load".to_string(), ns(4)));
    assert_eq!(map.entries[50], ("format_number_setting".to_string(), u(50)));
    assert_eq!(map.entries[76], ("cartography_frame_rate_cap".to_string(), u(60)));
    assert_eq!(map.entries[80], ("hidden_mastery_namespaces".to_string(), arr(vec![s("melvorF"), s("melvorTotH")])));
    assert_eq!(map.entries[108], ("enable_swipe_sidebar".to_string(), b(true)));
    let mut short = B::new().bool(true).reader();
    assert_eq!(short.decode_settings(), None);
}

fn combat_manager_bytes() -> B {
    B::new()
        .bool(true)
        .u8(2)
        .u16(4)
        .u32(3)
        .bool(false)
        .bool(true)
        .u32(1)
        .u16(2)
        .u32(10)
        // slayer task
        .bool(true)
        .bool(true)
        .u16(3)
        .u32(20)
        .bool(false)
        .bool(false)
        .u32(0)
        .then(timer_bytes(5, 6, true))
        .u16(4)
        // events
        .bool(false)
        .u32(0)
        .u32(1)
        .u16(1)
        .u32(30)
        .u32(0)
        .u32(40)
        .u32(1)
        .u16(2)
        .u32(50)
        .u8(3)
}

fn combat_manager() -> Value {
    obj(vec![
        ("selected_area_type", u(2)),
        ("selected_area", ns(4)),
        ("area_progress", u(3)),
        ("paused", b(true)),
        ("loot", arr(vec![obj(vec![("item", ns(2)), ("quantity", u(10))])])),
        (
            "slayer_task",
            obj(vec![
                ("active", b(true)),
                ("monster", ns(3)),
                ("kills_left", u(20)),
                ("extended", b(false)),
                ("categories", arr(vec![])),
                ("task_timer", timer(5, 6, true)),
                ("realm", ns(4)),
            ]),
        ),
        ("event_passives", arr(vec![])),
        ("event_passives_being_selected", arr(vec![ns(1)])),
        ("event_dungon_length", u(30)),
        ("active_event_areas", obj(vec![])),
        ("event_progress", u(40)),
        ("dungeon_completion", obj(vec![("melvorD:Bronze_Sword", u(50))])),
        ("stronghold_tier", u(3)),
    ])
}

#[test]
fn combat_manager_decoder() {
    let mut r = combat_manager_bytes().reader();
    assert_eq!(rusty_melvor::save_reader::decode_combat_manager(&mut r), Some(combat_manager()));
}

fn empty_raid_bytes() -> B {
    let mut out = plain_player_bytes()
        .u32(0)
        .then(plain_character_bytes(3))
        .u8(0)
        .u8(3)
        .bool(false)
        .bool(false)
        .bool(false)
        .then(timer_bytes(0, 0, false))
        .bool(false)
        .u32(0)
        .u32(0)
        .u32(0)
        .u8(0)
        .u8(0)
        .u32(0)
        .u32(0)
        .u32(0)
        .u32(0)
        .u32(0)
        .u32(0)
        .u32(1)
        .u32(2)
        .u32(3)
        .f64(4.0)
        .u32(0)
        .u32(0)
        .bool(false);
    for _ in 0..6 {
        out = out.u32(0);
    }
    out.u8(9).u8(0).u8(0).bool(true).u32(0)
}

fn header_bytes() -> Vec<u8> {
    B::new()
        .u32(2)
        .str("melvorD")
        .u32(3)
        .str("Attack")
        .u16(1)
        .str("Bronze_Sword")
        .u16(2)
        .str("Melvor")
        .u16(4)
        .str("melvorF")
        .u32(1)
        .str("Poison")
        .u16(3)
        .u32(7)
        .0
}

fn raw_save_bytes(tick: f64) -> Vec<u8> {
    B::new()
        .f64(tick)
        .f64(2.0)
        .bool(true)
        .u16(17)
        .bool(false)
        .bool(false)
        .bool(true)
        .u16(1)
        .str("Hero")
        .then(bank_bytes())
        .then(plain_player_bytes())
        .then(plain_character_bytes(1))
        .u8(2)
        .u8(1)
        .bool(true)
        .u16(4)
        .bool(true)
        .u16(3)
        .bool(true)
        .then(timer_bytes(1, 2, true))
        .bool(false)
        .u32(0)
        .then(combat_manager_bytes())
        .then(empty_raid_bytes())
        .0
}

fn save_bytes(tick: f64) -> Vec<u8> {
    let header = header_bytes();
    let raw = raw_save_bytes(tick);
    B::new().raw(b"melvor").u32(header.len() as u32).raw(&header).u32(raw.len() as u32).raw(&raw).0
}

#[test]
fn read_save_decodes_a_whole_save() {
    let reader = match MelvorSaveReader::read_save(save_bytes(1.0)) {
        Ok(reader) => reader,
        Err(e) => panic!("the save should decode: {:?}", e),
    };
    assert_eq!(reader.header_version, 7);
    assert_eq!(reader.header_map.namespaces.len(), 2);
    assert_eq!(reader.header_map.namespaces[0].0, "melvorD".to_string());
    assert_eq!(reader.header_map.namespaces[0].1.entries[1], ("Bronze_Sword".to_string(), 2));
    assert_eq!(reader.header.data, header_bytes());
    assert_eq!(reader.header.byte_offset, header_bytes().len());
    assert!(reader.header.numeric_to_string_id_map.is_empty());
    assert_eq!(reader.raw_data.data, raw_save_bytes(1.0));
    assert_eq!(reader.raw_data.byte_offset, raw_save_bytes(1.0).len());
    let ids = &reader.raw_data.numeric_to_string_id_map;
    assert_eq!(ids.len(), 4);
    assert_eq!(ids.get(&3), Some(&"melvorF:Poison".to_string()));
    assert_eq!(ids.get(&1), Some(&"melvorD:Attack".to_string()));
    let map = &reader.save_map.entries;
    let keys: Vec<&str> = map.iter().map(|(k, _)| k.as_str()).collect();
    assert_eq!(
        keys,
        vec![
            "tick_timestamp",
            "save_timestamp",
            "active_action_id",
            "is_paused",
            "merchants_permit_read",
            "game_mode_id",
            "character_name",
            "bank",
            "combat_manager.base_manager",
            "combat_manager",
            "raid_manager",
        ]
    );
    assert_eq!(map[0].1, f(1.0));
    assert_eq!(map[2].1, u(17));
    assert_eq!(map[6].1, s("Hero"));
    assert_eq!(map[7].1, bank());
    assert_eq!(map[9].1, combat_manager());
    let Value::Object(base) = &map[8].1 else { panic!("an object") };
    assert_eq!(base.entries[0], ("player".to_string(), plain_player()));
    assert_eq!(
        base.entries[1].1,
        obj(vec![
            ("character", plain_character(1)),
            ("state", u(2)),
            ("random_attack_type", s("Ranged")),
            ("monster", ns(4)),
            ("override_damage_type", ns(3)),
        ])
    );
    let Value::Object(raid) = &map[10].1 else { panic!("an object") };
    assert_eq!(raid.entries.len(), 19);
    assert_eq!(raid.entries[14], ("item_category_being_selected".to_string(), s("other")));
}

#[test]
fn read_save_rejects_other_files() {
    let mut data = save_bytes(1.0);
    data[0] = b'M';
    assert_eq!(MelvorSaveReader::read_save(data).err(), Some(ReadSaveError::NotAMelvorSave));
    assert_eq!(MelvorSaveReader::read_save(b"melv".to_vec()).err(), Some(ReadSaveError::Malformed));
    assert_eq!(MelvorSaveReader::read_save(Vec::new()).err(), Some(ReadSaveError::Malformed));
}

#[test]
fn read_save_rejects_malformed_saves() {
    let mut data = save_bytes(1.0);
    data.truncate(data.len() - 1);
    assert_eq!(MelvorSaveReader::read_save(data).err(), Some(ReadSaveError::Malformed));
    assert_eq!(MelvorSaveReader::read_save(save_bytes(f64::NAN)).err(), Some(ReadSaveError::Malformed));
    assert_eq!(MelvorSaveReader::read_save(save_bytes(f64::INFINITY)).err(), Some(ReadSaveError::Malformed));
}

#[test]
fn validates_the_magic() {
    let mut r = B::new().raw(b"melvor!").reader();
    assert_eq!(r.validate_file_is_melvor_save(), Some(true));
    assert_eq!(r.get_byte_offset(), 6);
    let mut r = B::new().raw(b"Melvor").reader();
    assert_eq!(r.validate_file_is_melvor_save(), Some(false));
    let mut r = B::new().raw(&[0xff, 0xfe, 0, 0, 0, 0]).reader();
    assert_eq!(r.validate_file_is_melvor_save(), Some(false));
    let mut r = B::new().raw(b"melvo").reader();
    assert_eq!(r.validate_file_is_melvor_save(), None);
}

fn compress(data: &[u8]) -> Vec<u8> {
    let mut encoder = flate2::write::ZlibEncoder::new(Vec::new(), flate2::Compression::default());
    encoder.write_all(data).unwrap();
    encoder.finish().unwrap()
}

fn encode_base64(data: &[u8]) -> String {
    base64::prelude::BASE64_STANDARD.encode(data)
}

#[test]
fn decodes_save_text() {
    let save = save_bytes(1.0);
    let text = format!("  {}\n", encode_base64(&compress(&save)));
    let decoded = decode_save_text(&text).unwrap();
    assert_eq!(decoded, save);
    assert!(MelvorSaveReader::read_save(decoded).is_ok());
}

#[test]
fn save_text_errors() {
    assert!(matches!(decode_save_text("not base64!"), Err(OpenSaveError::Base64(_))));
    let text = encode_base64(b"not a zlib stream");
    match decode_save_text(&text) {
        Err(OpenSaveError::Zlib { compressed, .. }) => assert_eq!(compressed, b"not a zlib stream".to_vec()),
        other => panic!("expected a zlib error, got {:?}", other),
    }
}

#[test]
fn a_shared_numeric_id_takes_its_last_name() {
    let header = B::new()
        .u32(2)
        .str("melvorD")
        .u32(2)
        .str("Attack")
        .u16(5)
        .str("Strength")
        .u16(5)
        .str("melvorF")
        .u32(1)
        .str("Defence")
        .u16(6)
        .u32(1)
        .0;
    let raw = raw_save_bytes(1.0);
    let data = B::new().raw(b"melvor").u32(header.len() as u32).raw(&header).u32(raw.len() as u32).raw(&raw).0;
    let reader = MelvorSaveReader::read_save(data).unwrap();
    let ids = &reader.raw_data.numeric_to_string_id_map;
    assert_eq!(ids.len(), 2);
    assert_eq!(ids.get(&5), Some(&"melvorD:Strength".to_string()));
    assert_eq!(ids.get(&6), Some(&"melvorF:Defence".to_string()));
    assert_eq!(reader.header_version, 1);
}

#[test]
fn stats_other_than_items_and_monsters_ignore_the_id_table() {
    let mut bytes = B::new().u32(1).u32(2).f64(7.0);
    for index in 1..34 {
        if index == 22 || index == 23 {
            bytes = bytes.u32(1).u16(2).u32(1).u32(2).f64(1.0);
        } else {
            bytes = bytes.u32(0);
        }
    }
    let data = bytes.0.clone();
    let mut named = bytes.reader();
    let mut unnamed = BinaryReader::new(data);
    let Some(Value::Object(a)) = named.decode_stats() else { panic!("stats are an object") };
    let Some(Value::Object(b)) = unnamed.decode_stats() else { panic!("stats are an object") };
    assert_eq!(named.get_byte_offset(), unnamed.get_byte_offset());
    assert_eq!(a.entries.len(), b.entries.len());
    for (ea, eb) in a.entries.iter().zip(b.entries.iter()) {
        assert_eq!(ea.0, eb.0);
        if ea.0 != "items" && ea.0 != "monster" {
            assert_eq!(ea.1, eb.1);
        } else {
            assert_ne!(ea.1, eb.1);
        }
    }
}
