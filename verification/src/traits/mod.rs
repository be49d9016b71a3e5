pub mod bank_decoder;
pub mod base_manager_decoder;
pub mod character_decoder;
pub mod elements;
pub mod enemy_decoder;
pub mod item_charges_decoder;
pub mod minibar_decoder;
pub mod native_manager_decoder;
pub mod pet_manager_decoder;
pub mod player_decoder;
pub mod potion_manager_decoder;
pub mod raid_enemy_decoder;
pub mod raid_manager_decoder;
pub mod raid_player_decoder;
pub mod read;
pub mod settings_decoder;
pub mod shop_decoder;
pub mod skill_decoder;
pub mod stat_decoder;
pub mod timer_decoder;
pub mod tutorial_decoder;
