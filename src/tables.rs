//! Record types of the world beside entities, rooms, conditions and events.
//! Fractional quantities are fixed-point in thousandths.
use vstd::prelude::*;
use crate::entity::Identity;

verus! {

#[derive(Clone, Copy, Debug, PartialEq, Eq, Structural)]
pub enum SkillType {
    MeleeCombat,
    RangedCombat,
    MagicCasting,
    Tracking,
    Stealth,
    Blacksmithing,
    Hidemaking,
    Bowyery,
    Alchemy,
    Cooking,
    Haggling,
    Climbing,
}

#[derive(Clone, Copy, Debug, PartialEq, Eq, Structural)]
pub struct Skill {
    pub id: u64,
    pub skill_type: SkillType,
    pub level: u8,
    pub last_used: i64,
    pub times_used: i32,
    pub entity_id: u64,
}

#[derive(Clone, Copy, Debug, PartialEq, Eq, Structural)]
pub enum ItemType {
    Weapon,
    Armor,
    Container,
    Consumable,
    Tool,
    QuestItem,
    Gold,
    Junk,
}

#[derive(Clone, Copy, Debug, PartialEq, Eq, Structural)]
pub enum DamageType {
    Slashing,
    Piercing,
    Bludgeoning,
    Fire,
    Ice,
    Lightning,
    Acid,
    Poison,
}

#[derive(Clone, Copy, Debug, PartialEq, Eq, Structural)]
pub enum ArmorType {
    Cloth,
    Leather,
    Chain,
    Plate,
}

#[derive(Clone, Copy, Debug, PartialEq, Eq, Structural)]
pub enum EquipSlot {
    Head,
    Torso,
    Legs,
    Feet,
    Hands,
    MainHand,
    OffHand,
    TwoHand,
    Neck,
    Ring,
    Face,
}

/// Item details of an entity of type Item. Attack speed, internal volume
/// and weight reduction are in thousandths.
#[derive(Clone, Copy, Debug, PartialEq, Eq, Structural)]
pub struct ItemData {
    pub entity_id: u64,
    pub item_type: ItemType,
    pub quantity: u32,
    pub max_stack: u32,
    pub base_damage: u16,
    pub damage_type: DamageType,
    pub attack_speed: u32,
    pub armor_rating: u16,
    pub armor_type: ArmorType,
    pub internal_volume: u32,
    pub weight_reduction: u32,
    pub durability: u16,
    pub max_durability: u16,
    pub is_equipped: bool,
    pub equipped_slot: Option<EquipSlot>,
}

#[derive(Clone, Copy, Debug, PartialEq, Eq, Structural)]
pub enum BiomeType {
    Forest,
    Desert,
    Swamp,
    Mountain,
    Plains,
    Ocean,
    Freshwater,
    Underground,
    City,
    Dungeon,
    Cave,
    Canyon,
    Steppe,
    Grasslands,
    Shrublands,
    Aerial,
    Planar,
    Coastal,
}

#[derive(Clone, Copy, Debug, PartialEq, Eq, Structural)]
pub enum ClimateType {
    Tropical,
    Temperate,
    Boreal,
    Montane,
    Tundra,
    Arid,
    Mangrove,
    Magical,
}

/// A group of rooms sharing environment defaults and tick cadences (in
/// milliseconds); map bounds are in thousandths.
#[derive(Clone, Debug)]
pub struct Region {
    pub id: u64,
    pub name: String,
    pub description: String,
    pub biome: BiomeType,
    pub climate: ClimateType,
    pub base_temperature: i16,
    pub base_light_level: u8,
    pub default_spawn_room: u64,
    pub is_active: bool,
    pub tick_rate_fast: u32,
    pub tick_rate_medium: u32,
    pub min_x: Option<i32>,
    pub max_x: Option<i32>,
    pub min_y: Option<i32>,
    pub max_y: Option<i32>,
}

#[derive(Clone, Copy, Debug, PartialEq, Eq, Structural)]
pub enum AIType {
    Passive,
    Defensive,
    Aggressive,
    Territorial,
    Timid,
    Berserk,
}

#[derive(Clone, Copy, Debug, PartialEq, Eq, Structural)]
pub enum NPCRole {
    Shopkeeper,
    Banker,
    Questgiver,
    Guard,
    Trainer,
    Innkeeper,
    Blacksmith,
    Alchemist,
    Monster,
}

#[derive(Clone, Copy, Debug, PartialEq, Eq, Structural)]
pub enum MovementType {
    Stationary,
    Wander,
    Patrol,
    Chase,
}

/// How an NPC behaves. Patrol waypoints are room ids; movement speed is in
/// thousandths.
#[derive(Clone, Debug)]
pub struct NPCBehavior {
    pub entity_id: u64,
    pub ai_type: AIType,
    pub aggro_range: u8,
    pub wander_range: u8,
    pub home_room: u64,
    pub role: Option<NPCRole>,
    pub movement_type: MovementType,
    pub patrol_waypoints: Vec<u64>,
    pub movement_speed: u32,
    pub faction: Option<String>,
    pub assist_allies: bool,
    pub respawn_delay: u32,
    pub is_unique: bool,
    pub can_talk: bool,
    pub dialogue_tree_id: Option<u64>,
    pub loot_table_id: Option<u64>,
}

#[derive(Clone, Debug)]
pub struct Account {
    pub identity: Identity,
    pub username: String,
    pub password_hash: String,
    pub email: Option<String>,
    pub created_at: i64,
    pub last_login: i64,
    pub total_play_time: i64,
    pub is_banned: bool,
    pub is_admin: bool,
    pub is_moderator: bool,
    pub primary_character_id: Option<u64>,
}

#[derive(Clone, Copy, Debug, PartialEq, Eq, Structural)]
pub enum ClientType {
    RatatuiTUI,
    LeptosWeb,
    TelnetBridge,
    Unknown,
}

/// An active connection and the character it controls (0: none chosen).
#[derive(Clone, Debug)]
pub struct PlayerSession {
    pub identity: Identity,
    pub character_id: u64,
    pub connected_at: i64,
    pub last_heartbeat: i64,
    pub client_type: ClientType,
    pub client_version: String,
    pub is_active: bool,
}

#[derive(Clone, Copy, Debug, PartialEq, Eq, Structural, Hash)]
pub enum ActionType {
    Attack,
    Move,
    Speech,
    Command,
    Trade,
}

#[derive(Clone, Copy, Debug, PartialEq, Eq, Structural)]
pub struct RateLimit {
    pub identity: Identity,
    pub action_type: ActionType,
    pub count: u32,
    pub window_start: i64,
    pub last_action: i64,
}

#[derive(Clone, Debug)]
pub struct ServerConfig {
    pub key: String,
    pub value: String,
    pub last_updated: i64,
    pub updated_by: Option<Identity>,
}

#[derive(Clone, Copy, Debug, PartialEq, Eq, Structural)]
pub struct BankAccount {
    pub identity: Identity,
    pub balance: u64,
    pub created_at: i64,
    pub last_transaction: i64,
}

} // verus!
