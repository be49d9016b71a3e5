use vstd::prelude::*;

use crate::traits::elements::StringElement;
use crate::traits::read::{
    namespaced_value, parse_bool, parse_namespaced, parse_u16, parse_u8, parse_vector, yields,
    DataReaders, Pos, Src,
};
use crate::value::{assoc_insert, Object, Value, ValueView};

verus! {

/// How a setting is stored.
#[derive(Clone, Copy)]
pub enum SettingKind {
    Bool,
    U8,
    U16,
    Namespaced,
    StringSet,
}

/// The settings of a save, in the order they are stored.
pub open spec fn settings_fields() -> Seq<(&'static str, SettingKind)> {
    seq![
        ("continue_if_bank_full", SettingKind::Bool),
        ("continue_thieving_on_stun", SettingKind::Bool),
        ("auto_restart_dungeon", SettingKind::Bool),
        ("auto_cloud_save", SettingKind::Bool),
        ("dark_mode", SettingKind::Bool),
        ("show_gp_notifications", SettingKind::Bool),
        ("enable_accessibility", SettingKind::Bool),
        ("show_enemy_skill_levels", SettingKind::Bool),
        ("show_close_confirmations", SettingKind::Bool),
        ("hide_thousands_seperator", SettingKind::Bool),
        ("show_virtual_levels", SettingKind::Bool),
        ("show_sale_confirmations", SettingKind::Bool),
        ("show_shop_confirmations", SettingKind::Bool),
        ("pause_on_unfocus", SettingKind::Bool),
        ("show_combat_minibar", SettingKind::Bool),
        ("show_combat_minibar_combat", SettingKind::Bool),
        ("show_skilling_minibar", SettingKind::Bool),
        ("use_combination_runes", SettingKind::Bool),
        ("enable_auto_slayer", SettingKind::Bool),
        ("show_item_notifications", SettingKind::Bool),
        ("use_small_level_up_notifications", SettingKind::Bool),
        ("use_default_bank_borders", SettingKind::Bool),
        ("default_to_current_equip_set", SettingKind::Bool),
        ("hide_max_level_masteries", SettingKind::Bool),
        ("show_mastery_checkpointconfirmations", SettingKind::Bool),
        ("enable_offline_push_notifications", SettingKind::Bool),
        ("enable_farming_push_notifications", SettingKind::Bool),
        ("enable_offline_combat", SettingKind::Bool),
        ("enable_mini_sidebar", SettingKind::Bool),
        ("enable_auto_equip_food", SettingKind::Bool),
        ("enable_auto_swap_food", SettingKind::Bool),
        ("enable_perfect_cooking", SettingKind::Bool),
        ("show_crop_destruction_confirmations", SettingKind::Bool),
        ("show_astrology_max_roll_confirmations", SettingKind::Bool),
        ("show_quantity_in_item_notifications", SettingKind::Bool),
        ("show_item_preservation_notifications", SettingKind::Bool),
        ("show_slayer_coin_notifications", SettingKind::Bool),
        ("show_equipment_sets_in_combat_minibar", SettingKind::Bool),
        ("show_bars_in_combat_minibar", SettingKind::Bool),
        ("show_combat_stun_notifications", SettingKind::Bool),
        ("show_combat_sleep_notifications", SettingKind::Bool),
        ("show_summoning_mark_discovery_modals", SettingKind::Bool),
        ("enable_combat_damage_splashes", SettingKind::Bool),
        ("enable_progress_bars", SettingKind::Bool),
        ("show_tier_i_potions", SettingKind::Bool),
        ("show_tier_ii_potions", SettingKind::Bool),
        ("show_tier_iii_potions", SettingKind::Bool),
        ("show_tier_iv_potions", SettingKind::Bool),
        ("show_neutral_attack_modifiers", SettingKind::Bool),
        ("default_page_on_load", SettingKind::Namespaced),
        ("format_number_setting", SettingKind::U8),
        ("bank_sort_order", SettingKind::U8),
        ("colour_blind_mode", SettingKind::U8),
        ("enableEyebleachMode", SettingKind::Bool),
        ("enableQuickConvert", SettingKind::Bool),
        ("show_locked_township_buildings", SettingKind::Bool),
        ("use_new_notifications", SettingKind::Bool),
        ("notification_horizontal_position", SettingKind::U8),
        ("notification_disappear_delay", SettingKind::U8),
        ("showItemNamesInNotifications", SettingKind::Bool),
        ("importanceSummoningMarkFound", SettingKind::Bool),
        ("importanceErrorMessages", SettingKind::Bool),
        ("enableScrollableBankTabs", SettingKind::Bool),
        ("showWikiLinks", SettingKind::Bool),
        ("disableHexGridOutsideSight", SettingKind::Bool),
        ("mapTextureQuality", SettingKind::U8),
        ("enableMapAntialiasing", SettingKind::Bool),
        ("show_skill_xp_notifications", SettingKind::Bool),
        ("background_image", SettingKind::U8),
        ("super_dark_mode", SettingKind::Bool),
        ("show_expansion_background_colours", SettingKind::Bool),
        ("show_combat_area_warnings", SettingKind::Bool),
        ("use_compact_notifications", SettingKind::Bool),
        ("use_legacy_notifications", SettingKind::Bool),
        ("use_cat", SettingKind::Bool),
        ("throttle_frame_rate_on_inactivity", SettingKind::Bool),
        ("cartography_frame_rate_cap", SettingKind::U16),
        ("toggle_birthday_event", SettingKind::Bool),
        ("toggle_discord_rpc", SettingKind::Bool),
        ("generic_artefact_all_but_one", SettingKind::Bool),
        ("hidden_mastery_namespaces", SettingKind::StringSet),
        ("enable_double_click_equip", SettingKind::Bool),
        ("enable_double_click_open", SettingKind::Bool),
        ("enable_double_click_bury", SettingKind::Bool),
        ("show_abyssal_pieces_notifications", SettingKind::Bool),
        ("show_abyssal_slayer_coin_notifications", SettingKind::Bool),
        ("enable_perma_corruption", SettingKind::Bool),
        ("show_ap_next_to_shop_sidebar", SettingKind::Bool),
        ("show_asc_next_to_slayer_sidebar", SettingKind::Bool),
        ("sidebar_levels", SettingKind::U8),
        ("show_abyssal_xp_notifications", SettingKind::Bool),
        ("show_sp_next_to_prayer_sidebar", SettingKind::Bool),
        ("enable_sticky_bank_tabs", SettingKind::Bool),
        ("use_legacy_realm_selection", SettingKind::Bool),
        ("show_opacity_for_skill_navs", SettingKind::Bool),
        ("bank_filter_show_all", SettingKind::Bool),
        ("bank_filter_show_demo", SettingKind::Bool),
        ("bank_filter_show_full", SettingKind::Bool),
        ("bank_filter_show_tot_h", SettingKind::Bool),
        ("bank_filter_show_ao_d", SettingKind::Bool),
        ("bank_filter_show_it_a", SettingKind::Bool),
        ("bank_filter_show_damage_reduction", SettingKind::Bool),
        ("bank_filter_show_abyssal_resistance", SettingKind::Bool),
        ("bank_filter_show_normal_damage", SettingKind::Bool),
        ("bank_filter_show_abyssal_damage", SettingKind::Bool),
        ("bank_filter_show_skill_xp", SettingKind::Bool),
        ("bank_filter_show_abyssal_xp", SettingKind::Bool),
        ("always_show_realm_select_agility", SettingKind::Bool),
        ("enable_swipe_sidebar", SettingKind::Bool),
    ]
}

fn settings_table() -> (fields: &'static [(&'static str, SettingKind)])
    ensures
        fields@ == settings_fields(),
{
    &[
        ("continue_if_bank_full", SettingKind::Bool),
        ("continue_thieving_on_stun", SettingKind::Bool),
        ("auto_restart_dungeon", SettingKind::Bool),
        ("auto_cloud_save", SettingKind::Bool),
        ("dark_mode", SettingKind::Bool),
        ("show_gp_notifications", SettingKind::Bool),
        ("enable_accessibility", SettingKind::Bool),
        ("show_enemy_skill_levels", SettingKind::Bool),
        ("show_close_confirmations", SettingKind::Bool),
        ("hide_thousands_seperator", SettingKind::Bool),
        ("show_virtual_levels", SettingKind::Bool),
        ("show_sale_confirmations", SettingKind::Bool),
        ("show_shop_confirmations", SettingKind::Bool),
        ("pause_on_unfocus", SettingKind::Bool),
        ("show_combat_minibar", SettingKind::Bool),
        ("show_combat_minibar_combat", SettingKind::Bool),
        ("show_skilling_minibar", SettingKind::Bool),
        ("use_combination_runes", SettingKind::Bool),
        ("enable_auto_slayer", SettingKind::Bool),
        ("show_item_notifications", SettingKind::Bool),
        ("use_small_level_up_notifications", SettingKind::Bool),
        ("use_default_bank_borders", SettingKind::Bool),
        ("default_to_current_equip_set", SettingKind::Bool),
        ("hide_max_level_masteries", SettingKind::Bool),
        ("show_mastery_checkpointconfirmations", SettingKind::Bool),
        ("enable_offline_push_notifications", SettingKind::Bool),
        ("enable_farming_push_notifications", SettingKind::Bool),
        ("enable_offline_combat", SettingKind::Bool),
        ("enable_mini_sidebar", SettingKind::Bool),
        ("enable_auto_equip_food", SettingKind::Bool),
        ("enable_auto_swap_food", SettingKind::Bool),
        ("enable_perfect_cooking", SettingKind::Bool),
        ("show_crop_destruction_confirmations", SettingKind::Bool),
        ("show_astrology_max_roll_confirmations", SettingKind::Bool),
        ("show_quantity_in_item_notifications", SettingKind::Bool),
        ("show_item_preservation_notifications", SettingKind::Bool),
        ("show_slayer_coin_notifications", SettingKind::Bool),
        ("show_equipment_sets_in_combat_minibar", SettingKind::Bool),
        ("show_bars_in_combat_minibar", SettingKind::Bool),
        ("show_combat_stun_notifications", SettingKind::Bool),
        ("show_combat_sleep_notifications", SettingKind::Bool),
        ("show_summoning_mark_discovery_modals", SettingKind::Bool),
        ("enable_combat_damage_splashes", SettingKind::Bool),
        ("enable_progress_bars", SettingKind::Bool),
        ("show_tier_i_potions", SettingKind::Bool),
        ("show_tier_ii_potions", SettingKind::Bool),
        ("show_tier_iii_potions", SettingKind::Bool),
        ("show_tier_iv_potions", SettingKind::Bool),
        ("show_neutral_attack_modifiers", SettingKind::Bool),
        ("default_page_on_load", SettingKind::Namespaced),
        ("format_number_setting", SettingKind::U8),
        ("bank_sort_order", SettingKind::U8),
        ("colour_blind_mode", SettingKind::U8),
        ("enableEyebleachMode", SettingKind::Bool),
        ("enableQuickConvert", SettingKind::Bool),
        ("show_locked_township_buildings", SettingKind::Bool),
        ("use_new_notifications", SettingKind::Bool),
        ("notification_horizontal_position", SettingKind::U8),
        ("notification_disappear_delay", SettingKind::U8),
        ("showItemNamesInNotifications", SettingKind::Bool),
        ("importanceSummoningMarkFound", SettingKind::Bool),
        ("importanceErrorMessages", SettingKind::Bool),
        ("enableScrollableBankTabs", SettingKind::Bool),
        ("showWikiLinks", SettingKind::Bool),
        ("disableHexGridOutsideSight", SettingKind::Bool),
        ("mapTextureQuality", SettingKind::U8),
        ("enableMapAntialiasing", SettingKind::Bool),
        ("show_skill_xp_notifications", SettingKind::Bool),
        ("background_image", SettingKind::U8),
        ("super_dark_mode", SettingKind::Bool),
        ("show_expansion_background_colours", SettingKind::Bool),
        ("show_combat_area_warnings", SettingKind::Bool),
        ("use_compact_notifications", SettingKind::Bool),
        ("use_legacy_notifications", SettingKind::Bool),
        ("use_cat", SettingKind::Bool),
        ("throttle_frame_rate_on_inactivity", SettingKind::Bool),
        ("cartography_frame_rate_cap", SettingKind::U16),
        ("toggle_birthday_event", SettingKind::Bool),
        ("toggle_discord_rpc", SettingKind::Bool),
        ("generic_artefact_all_but_one", SettingKind::Bool),
        ("hidden_mastery_namespaces", SettingKind::StringSet),
        ("enable_double_click_equip", SettingKind::Bool),
        ("enable_double_click_open", SettingKind::Bool),
        ("enable_double_click_bury", SettingKind::Bool),
        ("show_abyssal_pieces_notifications", SettingKind::Bool),
        ("show_abyssal_slayer_coin_notifications", SettingKind::Bool),
        ("enable_perma_corruption", SettingKind::Bool),
        ("show_ap_next_to_shop_sidebar", SettingKind::Bool),
        ("show_asc_next_to_slayer_sidebar", SettingKind::Bool),
        ("sidebar_levels", SettingKind::U8),
        ("show_abyssal_xp_notifications", SettingKind::Bool),
        ("show_sp_next_to_prayer_sidebar", SettingKind::Bool),
        ("enable_sticky_bank_tabs", SettingKind::Bool),
        ("use_legacy_realm_selection", SettingKind::Bool),
        ("show_opacity_for_skill_navs", SettingKind::Bool),
        ("bank_filter_show_all", SettingKind::Bool),
        ("bank_filter_show_demo", SettingKind::Bool),
        ("bank_filter_show_full", SettingKind::Bool),
        ("bank_filter_show_tot_h", SettingKind::Bool),
        ("bank_filter_show_ao_d", SettingKind::Bool),
        ("bank_filter_show_it_a", SettingKind::Bool),
        ("bank_filter_show_damage_reduction", SettingKind::Bool),
        ("bank_filter_show_abyssal_resistance", SettingKind::Bool),
        ("bank_filter_show_normal_damage", SettingKind::Bool),
        ("bank_filter_show_abyssal_damage", SettingKind::Bool),
        ("bank_filter_show_skill_xp", SettingKind::Bool),
        ("bank_filter_show_abyssal_xp", SettingKind::Bool),
        ("always_show_realm_select_agility", SettingKind::Bool),
        ("enable_swipe_sidebar", SettingKind::Bool),
    ]
}

/// One setting, by its kind.
pub open spec fn parse_setting(kind: SettingKind, src: Src, pos: Pos) -> (ValueView, Pos) {
    match kind {
        SettingKind::Bool => {
            let (b, p) = parse_bool(src, pos);
            (ValueView::Bool(b), p)
        },
        SettingKind::U8 => {
            let (n, p) = parse_u8(src, pos);
            (ValueView::UInt(n as u64), p)
        },
        SettingKind::U16 => {
            let (n, p) = parse_u16(src, pos);
            (ValueView::UInt(n as u64), p)
        },
        SettingKind::Namespaced => {
            let (o, p) = parse_namespaced(src, pos);
            (namespaced_value(o), p)
        },
        SettingKind::StringSet => {
            let (items, p) = parse_vector(StringElement, src, pos);
            (ValueView::Array(items), p)
        },
    }
}

/// The first `n` settings, inserted in order.
pub open spec fn parse_settings_upto(src: Src, pos: Pos, n: nat) -> (
    Seq<(Seq<char>, ValueView)>,
    Pos,
)
    decreases n,
{
    if n == 0 {
        (Seq::empty(), pos)
    } else {
        let (m, p) = parse_settings_upto(src, pos, (n - 1) as nat);
        match p {
            Some(_) => {
                let field = settings_fields()[n - 1];
                let (v, q) = parse_setting(field.1, src, p);
                (assoc_insert(m, field.0@, v), q)
            },
            None => (m, None),
        }
    }
}

/// All the settings.
pub open spec fn parse_settings(src: Src, pos: Pos) -> (ValueView, Pos) {
    let (m, p) = parse_settings_upto(src, pos, settings_fields().len());
    (ValueView::Object(m), p)
}

proof fn lemma_settings_failure_stays(src: Src, pos: Pos, i: nat, n: nat)
    requires
        i <= n,
        parse_settings_upto(src, pos, i).1 is None,
    ensures
        parse_settings_upto(src, pos, n).1 is None,
    decreases n,
{
    if n > i {
        lemma_settings_failure_stays(src, pos, i, (n - 1) as nat);
    }
}

fn decode_setting<R: DataReaders + ?Sized>(r: &mut R, kind: SettingKind) -> (res: Option<Value>)
    ensures
        yields(old(r)@, final(r)@, res, parse_setting(kind, old(r)@.src, Some(old(r)@.offset))),
{
    match kind {
        SettingKind::Bool => Some(Value::Bool(r.read_bool()?)),
        SettingKind::U8 => Some(Value::from_u8(r.read_uint8()?)),
        SettingKind::U16 => Some(Value::from_u16(r.read_uint16()?)),
        SettingKind::Namespaced => Some(r.read_namespaced_object()?.into_value()),
        SettingKind::StringSet => Some(Value::from_values(r.read_set(&StringElement)?)),
    }
}

pub trait SettingsDecoder: DataReaders {
    fn decode_settings(&mut self) -> (res: Option<Value>)
        ensures
            yields(old(self)@, final(self)@, res, parse_settings(old(self)@.src, Some(old(self)@.offset))),
    {
        let ghost src = self@.src;
        let ghost start = Some(self@.offset);
        let fields = settings_table();
        let mut map = Object::new();
        let mut i: usize = 0;
        while i < fields.len()
            invariant
                fields@ == settings_fields(),
                self@.src == src,
                src == old(self)@.src,
                start == Some(old(self)@.offset),
                0 <= i <= fields@.len(),
                parse_settings_upto(src, start, i as nat) == (map@, Some(self@.offset)),
            decreases fields@.len() - i,
        {
            let (name, kind) = fields[i];
            let value = match decode_setting(self, kind) {
                Some(v) => v,
                None => {
                    proof {
                        lemma_settings_failure_stays(src, start, (i + 1) as nat, fields@.len() as nat);
                    }
                    return None;
                },
            };
            map.put(name, value);
            i = i + 1;
        }
        Some(Value::from_object(map))
    }
}

} // verus!
