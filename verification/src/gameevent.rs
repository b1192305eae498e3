//! Typed game events: each event name maps to a record struct whose
//! named fields are taken from the instance's positional values by the
//! descriptor's key names; unmatched keys stay in the `remaining` bag.
//! Unknown event names are skipped by the dispatcher, never fatal.

use crate::byteops::{bytes_eq, copy_bytes};
use crate::protowire::{EventListKey, GameEventKey};
use crate::values::{raw_of_key, RawValue, UserId};
use vstd::prelude::*;

verus! {

/// Failure to parse one game event.
#[derive(Debug, PartialEq, Eq)]
pub enum ParseGameEventError {
    /// The instance carries a different number of values than its
    /// descriptor has keys.
    MismatchedKeysFields,
}

/// The unmatched keys of one event, by key name.
pub struct KeyBag {
    pub entries: Vec<(Vec<u8>, GameEventKey)>,
}

/// Pairs each descriptor key name with its positional value.
fn build_bag(keys: &[EventListKey], vals: &Vec<GameEventKey>) -> (r: KeyBag)
    requires
        keys@.len() == vals@.len(),
{
    let mut entries: Vec<(Vec<u8>, GameEventKey)> = Vec::new();
    let mut i: usize = 0;
    while i < keys.len()
        invariant
            keys@.len() == vals@.len(),
            i <= keys@.len(),
        decreases keys@.len() - i,
    {
        let name = copy_bytes(keys[i].name.as_slice());
        let val = vals[i].clone();
        entries.push((name, val));
        i = i + 1;
    }
    KeyBag { entries }
}

/// Removes and returns the first value stored under `name`.
fn take_key(bag: &mut KeyBag, name: &[u8]) -> (r: Option<GameEventKey>) {
    let mut i: usize = 0;
    let mut found: Option<usize> = None;
    while i < bag.entries.len()
        invariant
            i <= bag.entries@.len(),
            found matches Some(k) ==> k < bag.entries@.len(),
        decreases bag.entries@.len() - i,
    {
        if found.is_none() && bytes_eq(bag.entries[i].0.as_slice(), name) {
            found = Some(i);
        }
        i = i + 1;
    }
    match found {
        Some(k) => {
            let (_, v) = bag.entries.remove(k);
            Some(v)
        },
        None => None,
    }
}

fn conv_user_id(v: Option<GameEventKey>) -> (r: Option<UserId>) {
    match v {
        Some(k) => match raw_of_key(&k) {
            Some(raw) => match raw.to_user_id() {
                Ok(u) => Some(u),
                Err(()) => None,
            },
            None => None,
        },
        None => None,
    }
}

fn conv_i32(v: Option<GameEventKey>) -> (r: Option<i32>) {
    match v {
        Some(k) => match raw_of_key(&k) {
            Some(raw) => match raw.to_i32() {
                Ok(u) => Some(u),
                Err(()) => None,
            },
            None => None,
        },
        None => None,
    }
}

fn conv_bool(v: Option<GameEventKey>) -> (r: Option<bool>) {
    match v {
        Some(k) => match raw_of_key(&k) {
            Some(raw) => match raw.to_bool() {
                Ok(u) => Some(u),
                Err(()) => None,
            },
            None => None,
        },
        None => None,
    }
}

fn conv_string(v: Option<GameEventKey>) -> (r: Option<Vec<u8>>) {
    match v {
        Some(k) => match raw_of_key(&k) {
            Some(raw) => match raw.to_string_bytes() {
                Ok(u) => Some(u),
                Err(()) => None,
            },
            None => None,
        },
        None => None,
    }
}

fn conv_raw(v: Option<GameEventKey>) -> (r: Option<RawValue>) {
    match v {
        Some(k) => raw_of_key(&k),
        None => None,
    }
}

/// The `hltv_versioninfo` event.
pub struct HltvVersionInfo {
    pub remaining: Vec<(Vec<u8>, GameEventKey)>,
}

impl HltvVersionInfo {
    fn parse(keys: &[EventListKey], vals: Vec<GameEventKey>) -> (r: GameEvent)
        requires
            keys@.len() == vals@.len(),
        ensures
            r is HltvVersionInfo,
    {
        let mut bag = build_bag(keys, &vals);
        GameEvent::HltvVersionInfo(HltvVersionInfo { remaining: bag.entries })
    }
}

/// The `item_equip` event.
pub struct ItemEquip {
    pub userid: Option<UserId>,
    pub hassilencer: Option<bool>,
    pub hastracers: Option<bool>,
    pub item: Option<Vec<u8>>,
    pub issilenced: Option<bool>,
    pub canzoom: Option<bool>,
    pub ispainted: Option<bool>,
    pub weptype: Option<i32>,
    pub defindex: Option<i32>,
    pub remaining: Vec<(Vec<u8>, GameEventKey)>,
}

impl ItemEquip {
    fn parse(keys: &[EventListKey], vals: Vec<GameEventKey>) -> (r: GameEvent)
        requires
            keys@.len() == vals@.len(),
        ensures
            r is ItemEquip,
    {
        let mut bag = build_bag(keys, &vals);
        let userid = conv_user_id(take_key(&mut bag, "userid".as_bytes()));
        let hassilencer = conv_bool(take_key(&mut bag, "hassilencer".as_bytes()));
        let hastracers = conv_bool(take_key(&mut bag, "hastracers".as_bytes()));
        let item = conv_string(take_key(&mut bag, "item".as_bytes()));
        let issilenced = conv_bool(take_key(&mut bag, "issilenced".as_bytes()));
        let canzoom = conv_bool(take_key(&mut bag, "canzoom".as_bytes()));
        let ispainted = conv_bool(take_key(&mut bag, "ispainted".as_bytes()));
        let weptype = conv_i32(take_key(&mut bag, "weptype".as_bytes()));
        let defindex = conv_i32(take_key(&mut bag, "defindex".as_bytes()));
        GameEvent::ItemEquip(ItemEquip { userid, hassilencer, hastracers, item, issilenced, canzoom, ispainted, weptype, defindex, remaining: bag.entries })
    }
}

/// The `item_pickup` event.
pub struct ItemPickup {
    pub userid: Option<UserId>,
    pub item: Option<RawValue>,
    pub silent: Option<RawValue>,
    pub defindex: Option<RawValue>,
    pub remaining: Vec<(Vec<u8>, GameEventKey)>,
}

impl ItemPickup {
    fn parse(keys: &[EventListKey], vals: Vec<GameEventKey>) -> (r: GameEvent)
        requires
            keys@.len() == vals@.len(),
        ensures
            r is ItemPickup,
    {
        let mut bag = build_bag(keys, &vals);
        let userid = conv_user_id(take_key(&mut bag, "userid".as_bytes()));
        let item = conv_raw(take_key(&mut bag, "item".as_bytes()));
        let silent = conv_raw(take_key(&mut bag, "silent".as_bytes()));
        let defindex = conv_raw(take_key(&mut bag, "defindex".as_bytes()));
        GameEvent::ItemPickup(ItemPickup { userid, item, silent, defindex, remaining: bag.entries })
    }
}

/// The `weapon_reload` event.
pub struct WeaponReload {
    pub userid: Option<UserId>,
    pub userid_pawn: Option<RawValue>,
    pub remaining: Vec<(Vec<u8>, GameEventKey)>,
}

impl WeaponReload {
    fn parse(keys: &[EventListKey], vals: Vec<GameEventKey>) -> (r: GameEvent)
        requires
            keys@.len() == vals@.len(),
        ensures
            r is WeaponReload,
    {
        let mut bag = build_bag(keys, &vals);
        let userid = conv_user_id(take_key(&mut bag, "userid".as_bytes()));
        let userid_pawn = conv_raw(take_key(&mut bag, "userid_pawn".as_bytes()));
        GameEvent::WeaponReload(WeaponReload { userid, userid_pawn, remaining: bag.entries })
    }
}

/// The `weapon_zoom` event.
pub struct WeaponZoom {
    pub userid: Option<UserId>,
    pub userid_pawn: Option<RawValue>,
    pub remaining: Vec<(Vec<u8>, GameEventKey)>,
}

impl WeaponZoom {
    fn parse(keys: &[EventListKey], vals: Vec<GameEventKey>) -> (r: GameEvent)
        requires
            keys@.len() == vals@.len(),
        ensures
            r is WeaponZoom,
    {
        let mut bag = build_bag(keys, &vals);
        let userid = conv_user_id(take_key(&mut bag, "userid".as_bytes()));
        let userid_pawn = conv_raw(take_key(&mut bag, "userid_pawn".as_bytes()));
        GameEvent::WeaponZoom(WeaponZoom { userid, userid_pawn, remaining: bag.entries })
    }
}

/// The `weapon_fire` event.
pub struct WeaponFire {
    pub userid: Option<UserId>,
    pub weapon: Option<RawValue>,
    pub silenced: Option<RawValue>,
    pub userid_pawn: Option<RawValue>,
    pub remaining: Vec<(Vec<u8>, GameEventKey)>,
}

impl WeaponFire {
    fn parse(keys: &[EventListKey], vals: Vec<GameEventKey>) -> (r: GameEvent)
        requires
            keys@.len() == vals@.len(),
        ensures
            r is WeaponFire,
    {
        let mut bag = build_bag(keys, &vals);
        let userid = conv_user_id(take_key(&mut bag, "userid".as_bytes()));
        let weapon = conv_raw(take_key(&mut bag, "weapon".as_bytes()));
        let silenced = conv_raw(take_key(&mut bag, "silenced".as_bytes()));
        let userid_pawn = conv_raw(take_key(&mut bag, "userid_pawn".as_bytes()));
        GameEvent::WeaponFire(WeaponFire { userid, weapon, silenced, userid_pawn, remaining: bag.entries })
    }
}

/// The `smokegrenade_detonate` event.
pub struct SmokeGrenadeDetonate {
    pub remaining: Vec<(Vec<u8>, GameEventKey)>,
}

impl SmokeGrenadeDetonate {
    fn parse(keys: &[EventListKey], vals: Vec<GameEventKey>) -> (r: GameEvent)
        requires
            keys@.len() == vals@.len(),
        ensures
            r is SmokeGrenadeDetonate,
    {
        let mut bag = build_bag(keys, &vals);
        GameEvent::SmokeGrenadeDetonate(SmokeGrenadeDetonate { remaining: bag.entries })
    }
}

/// The `smokegrenade_expired` event.
pub struct SmokeGrenadeExpired {
    pub remaining: Vec<(Vec<u8>, GameEventKey)>,
}

impl SmokeGrenadeExpired {
    fn parse(keys: &[EventListKey], vals: Vec<GameEventKey>) -> (r: GameEvent)
        requires
            keys@.len() == vals@.len(),
        ensures
            r is SmokeGrenadeExpired,
    {
        let mut bag = build_bag(keys, &vals);
        GameEvent::SmokeGrenadeExpired(SmokeGrenadeExpired { remaining: bag.entries })
    }
}

/// The `hegrenade_detonate` event.
pub struct HEGrenadeDetonate {
    pub remaining: Vec<(Vec<u8>, GameEventKey)>,
}

impl HEGrenadeDetonate {
    fn parse(keys: &[EventListKey], vals: Vec<GameEventKey>) -> (r: GameEvent)
        requires
            keys@.len() == vals@.len(),
        ensures
            r is HEGrenadeDetonate,
    {
        let mut bag = build_bag(keys, &vals);
        GameEvent::HEGrenadeDetonate(HEGrenadeDetonate { remaining: bag.entries })
    }
}

/// The `inferno_startburn` event.
pub struct InfernoStartBurn {
    pub remaining: Vec<(Vec<u8>, GameEventKey)>,
}

impl InfernoStartBurn {
    fn parse(keys: &[EventListKey], vals: Vec<GameEventKey>) -> (r: GameEvent)
        requires
            keys@.len() == vals@.len(),
        ensures
            r is InfernoStartBurn,
    {
        let mut bag = build_bag(keys, &vals);
        GameEvent::InfernoStartBurn(InfernoStartBurn { remaining: bag.entries })
    }
}

/// The `inferno_expire` event.
pub struct InfernoExpire {
    pub remaining: Vec<(Vec<u8>, GameEventKey)>,
}

impl InfernoExpire {
    fn parse(keys: &[EventListKey], vals: Vec<GameEventKey>) -> (r: GameEvent)
        requires
            keys@.len() == vals@.len(),
        ensures
            r is InfernoExpire,
    {
        let mut bag = build_bag(keys, &vals);
        GameEvent::InfernoExpire(InfernoExpire { remaining: bag.entries })
    }
}

/// The `flashbang_detonate` event.
pub struct FlashbangDetonate {
    pub remaining: Vec<(Vec<u8>, GameEventKey)>,
}

impl FlashbangDetonate {
    fn parse(keys: &[EventListKey], vals: Vec<GameEventKey>) -> (r: GameEvent)
        requires
            keys@.len() == vals@.len(),
        ensures
            r is FlashbangDetonate,
    {
        let mut bag = build_bag(keys, &vals);
        GameEvent::FlashbangDetonate(FlashbangDetonate { remaining: bag.entries })
    }
}

/// The `decoy_started` event.
pub struct DecoyStarted {
    pub remaining: Vec<(Vec<u8>, GameEventKey)>,
}

impl DecoyStarted {
    fn parse(keys: &[EventListKey], vals: Vec<GameEventKey>) -> (r: GameEvent)
        requires
            keys@.len() == vals@.len(),
        ensures
            r is DecoyStarted,
    {
        let mut bag = build_bag(keys, &vals);
        GameEvent::DecoyStarted(DecoyStarted { remaining: bag.entries })
    }
}

/// The `decoy_detonate` event.
pub struct DecoyDetonate {
    pub remaining: Vec<(Vec<u8>, GameEventKey)>,
}

impl DecoyDetonate {
    fn parse(keys: &[EventListKey], vals: Vec<GameEventKey>) -> (r: GameEvent)
        requires
            keys@.len() == vals@.len(),
        ensures
            r is DecoyDetonate,
    {
        let mut bag = build_bag(keys, &vals);
        GameEvent::DecoyDetonate(DecoyDetonate { remaining: bag.entries })
    }
}

/// The `player_connect` event.
pub struct PlayerConnect {
    pub address: Option<RawValue>,
    pub bot: Option<RawValue>,
    pub name: Option<RawValue>,
    pub userid: Option<i32>,
    pub networkid: Option<RawValue>,
    pub xuid: Option<RawValue>,
    pub remaining: Vec<(Vec<u8>, GameEventKey)>,
}

impl PlayerConnect {
    fn parse(keys: &[EventListKey], vals: Vec<GameEventKey>) -> (r: GameEvent)
        requires
            keys@.len() == vals@.len(),
        ensures
            r is PlayerConnect,
    {
        let mut bag = build_bag(keys, &vals);
        let address = conv_raw(take_key(&mut bag, "address".as_bytes()));
        let bot = conv_raw(take_key(&mut bag, "bot".as_bytes()));
        let name = conv_raw(take_key(&mut bag, "name".as_bytes()));
        let userid = conv_i32(take_key(&mut bag, "userid".as_bytes()));
        let networkid = conv_raw(take_key(&mut bag, "networkid".as_bytes()));
        let xuid = conv_raw(take_key(&mut bag, "xuid".as_bytes()));
        GameEvent::PlayerConnect(PlayerConnect { address, bot, name, userid, networkid, xuid, remaining: bag.entries })
    }
}

/// The `player_connect_full` event.
pub struct PlayerConnectFull {
    pub userid: Option<UserId>,
    pub remaining: Vec<(Vec<u8>, GameEventKey)>,
}

impl PlayerConnectFull {
    fn parse(keys: &[EventListKey], vals: Vec<GameEventKey>) -> (r: GameEvent)
        requires
            keys@.len() == vals@.len(),
        ensures
            r is PlayerConnectFull,
    {
        let mut bag = build_bag(keys, &vals);
        let userid = conv_user_id(take_key(&mut bag, "userid".as_bytes()));
        GameEvent::PlayerConnectFull(PlayerConnectFull { userid, remaining: bag.entries })
    }
}

/// The `player_disconnect` event.
pub struct PlayerDisconnect {
    pub userid: Option<UserId>,
    pub reason: Option<RawValue>,
    pub name: Option<RawValue>,
    pub networkid: Option<RawValue>,
    pub xuid: Option<RawValue>,
    pub remaining: Vec<(Vec<u8>, GameEventKey)>,
}

impl PlayerDisconnect {
    fn parse(keys: &[EventListKey], vals: Vec<GameEventKey>) -> (r: GameEvent)
        requires
            keys@.len() == vals@.len(),
        ensures
            r is PlayerDisconnect,
    {
        let mut bag = build_bag(keys, &vals);
        let userid = conv_user_id(take_key(&mut bag, "userid".as_bytes()));
        let reason = conv_raw(take_key(&mut bag, "reason".as_bytes()));
        let name = conv_raw(take_key(&mut bag, "name".as_bytes()));
        let networkid = conv_raw(take_key(&mut bag, "networkid".as_bytes()));
        let xuid = conv_raw(take_key(&mut bag, "xuid".as_bytes()));
        GameEvent::PlayerDisconnect(PlayerDisconnect { userid, reason, name, networkid, xuid, remaining: bag.entries })
    }
}

/// The `player_footstep` event.
pub struct PlayerFootstep {
    pub userid: Option<UserId>,
    pub userid_pawn: Option<RawValue>,
    pub remaining: Vec<(Vec<u8>, GameEventKey)>,
}

impl PlayerFootstep {
    fn parse(keys: &[EventListKey], vals: Vec<GameEventKey>) -> (r: GameEvent)
        requires
            keys@.len() == vals@.len(),
        ensures
            r is PlayerFootstep,
    {
        let mut bag = build_bag(keys, &vals);
        let userid = conv_user_id(take_key(&mut bag, "userid".as_bytes()));
        let userid_pawn = conv_raw(take_key(&mut bag, "userid_pawn".as_bytes()));
        GameEvent::PlayerFootstep(PlayerFootstep { userid, userid_pawn, remaining: bag.entries })
    }
}

/// The `player_jump` event.
pub struct PlayerJump {
    pub userid: Option<i32>,
    pub remaining: Vec<(Vec<u8>, GameEventKey)>,
}

impl PlayerJump {
    fn parse(keys: &[EventListKey], vals: Vec<GameEventKey>) -> (r: GameEvent)
        requires
            keys@.len() == vals@.len(),
        ensures
            r is PlayerJump,
    {
        let mut bag = build_bag(keys, &vals);
        let userid = conv_i32(take_key(&mut bag, "userid".as_bytes()));
        GameEvent::PlayerJump(PlayerJump { userid, remaining: bag.entries })
    }
}

/// The `player_hurt` event.
pub struct PlayerHurt {
    pub userid: Option<UserId>,
    pub attacker: Option<UserId>,
    pub health: Option<RawValue>,
    pub armor: Option<RawValue>,
    pub weapon: Option<Vec<u8>>,
    pub dmg_health: Option<RawValue>,
    pub dmg_armor: Option<RawValue>,
    pub hitgroup: Option<RawValue>,
    pub userid_pawn: Option<RawValue>,
    pub attacker_pawn: Option<RawValue>,
    pub remaining: Vec<(Vec<u8>, GameEventKey)>,
}

impl PlayerHurt {
    fn parse(keys: &[EventListKey], vals: Vec<GameEventKey>) -> (r: GameEvent)
        requires
            keys@.len() == vals@.len(),
        ensures
            r is PlayerHurt,
    {
        let mut bag = build_bag(keys, &vals);
        let userid = conv_user_id(take_key(&mut bag, "userid".as_bytes()));
        let attacker = conv_user_id(take_key(&mut bag, "attacker".as_bytes()));
        let health = conv_raw(take_key(&mut bag, "health".as_bytes()));
        let armor = conv_raw(take_key(&mut bag, "armor".as_bytes()));
        let weapon = conv_string(take_key(&mut bag, "weapon".as_bytes()));
        let dmg_health = conv_raw(take_key(&mut bag, "dmg_health".as_bytes()));
        let dmg_armor = conv_raw(take_key(&mut bag, "dmg_armor".as_bytes()));
        let hitgroup = conv_raw(take_key(&mut bag, "hitgroup".as_bytes()));
        let userid_pawn = conv_raw(take_key(&mut bag, "userid_pawn".as_bytes()));
        let attacker_pawn = conv_raw(take_key(&mut bag, "attacker_pawn".as_bytes()));
        GameEvent::PlayerHurt(PlayerHurt { userid, attacker, health, armor, weapon, dmg_health, dmg_armor, hitgroup, userid_pawn, attacker_pawn, remaining: bag.entries })
    }
}

/// The `player_death` event.
pub struct PlayerDeath {
    pub userid: Option<UserId>,
    pub attacker: Option<UserId>,
    pub assister: Option<UserId>,
    pub assistedflash: Option<bool>,
    pub weapon: Option<Vec<u8>>,
    pub weapon_itemid: Option<Vec<u8>>,
    pub weapon_fauxitemid: Option<Vec<u8>>,
    pub weapon_originalowner_xuid: Option<Vec<u8>>,
    pub headshot: Option<bool>,
    pub dominated: Option<RawValue>,
    pub revenge: Option<RawValue>,
    pub wipe: Option<RawValue>,
    pub penetrated: Option<RawValue>,
    pub noreplay: Option<bool>,
    pub noscope: Option<bool>,
    pub thrusmoke: Option<bool>,
    pub attackerblind: Option<bool>,
    pub distance: Option<RawValue>,
    pub userid_pawn: Option<RawValue>,
    pub attacker_pawn: Option<RawValue>,
    pub assister_pawn: Option<RawValue>,
    pub dmg_health: Option<RawValue>,
    pub dmg_armor: Option<RawValue>,
    pub hitgroup: Option<RawValue>,
    pub attackerinair: Option<bool>,
    pub remaining: Vec<(Vec<u8>, GameEventKey)>,
}

impl PlayerDeath {
    fn parse(keys: &[EventListKey], vals: Vec<GameEventKey>) -> (r: GameEvent)
        requires
            keys@.len() == vals@.len(),
        ensures
            r is PlayerDeath,
    {
        let mut bag = build_bag(keys, &vals);
        let userid = conv_user_id(take_key(&mut bag, "userid".as_bytes()));
        let attacker = conv_user_id(take_key(&mut bag, "attacker".as_bytes()));
        let assister = conv_user_id(take_key(&mut bag, "assister".as_bytes()));
        let assistedflash = conv_bool(take_key(&mut bag, "assistedflash".as_bytes()));
        let weapon = conv_string(take_key(&mut bag, "weapon".as_bytes()));
        let weapon_itemid = conv_string(take_key(&mut bag, "weapon_itemid".as_bytes()));
        let weapon_fauxitemid = conv_string(take_key(&mut bag, "weapon_fauxitemid".as_bytes()));
        let weapon_originalowner_xuid = conv_string(take_key(&mut bag, "weapon_originalowner_xuid".as_bytes()));
        let headshot = conv_bool(take_key(&mut bag, "headshot".as_bytes()));
        let dominated = conv_raw(take_key(&mut bag, "dominated".as_bytes()));
        let revenge = conv_raw(take_key(&mut bag, "revenge".as_bytes()));
        let wipe = conv_raw(take_key(&mut bag, "wipe".as_bytes()));
        let penetrated = conv_raw(take_key(&mut bag, "penetrated".as_bytes()));
        let noreplay = conv_bool(take_key(&mut bag, "noreplay".as_bytes()));
        let noscope = conv_bool(take_key(&mut bag, "noscope".as_bytes()));
        let thrusmoke = conv_bool(take_key(&mut bag, "thrusmoke".as_bytes()));
        let attackerblind = conv_bool(take_key(&mut bag, "attackerblind".as_bytes()));
        let distance = conv_raw(take_key(&mut bag, "distance".as_bytes()));
        let userid_pawn = conv_raw(take_key(&mut bag, "userid_pawn".as_bytes()));
        let attacker_pawn = conv_raw(take_key(&mut bag, "attacker_pawn".as_bytes()));
        let assister_pawn = conv_raw(take_key(&mut bag, "assister_pawn".as_bytes()));
        let dmg_health = conv_raw(take_key(&mut bag, "dmg_health".as_bytes()));
        let dmg_armor = conv_raw(take_key(&mut bag, "dmg_armor".as_bytes()));
        let hitgroup = conv_raw(take_key(&mut bag, "hitgroup".as_bytes()));
        let attackerinair = conv_bool(take_key(&mut bag, "attackerinair".as_bytes()));
        GameEvent::PlayerDeath(PlayerDeath { userid, attacker, assister, assistedflash, weapon, weapon_itemid, weapon_fauxitemid, weapon_originalowner_xuid, headshot, dominated, revenge, wipe, penetrated, noreplay, noscope, thrusmoke, attackerblind, distance, userid_pawn, attacker_pawn, assister_pawn, dmg_health, dmg_armor, hitgroup, attackerinair, remaining: bag.entries })
    }
}

/// The `player_spawn` event.
pub struct PlayerSpawn {
    pub userid: Option<UserId>,
    pub inrestart: Option<RawValue>,
    pub userid_pawn: Option<RawValue>,
    pub remaining: Vec<(Vec<u8>, GameEventKey)>,
}

impl PlayerSpawn {
    fn parse(keys: &[EventListKey], vals: Vec<GameEventKey>) -> (r: GameEvent)
        requires
            keys@.len() == vals@.len(),
        ensures
            r is PlayerSpawn,
    {
        let mut bag = build_bag(keys, &vals);
        let userid = conv_user_id(take_key(&mut bag, "userid".as_bytes()));
        let inrestart = conv_raw(take_key(&mut bag, "inrestart".as_bytes()));
        let userid_pawn = conv_raw(take_key(&mut bag, "userid_pawn".as_bytes()));
        GameEvent::PlayerSpawn(PlayerSpawn { userid, inrestart, userid_pawn, remaining: bag.entries })
    }
}

/// The `player_blind` event.
pub struct PlayerBlind {
    pub userid: Option<UserId>,
    pub attacker: Option<RawValue>,
    pub entityid: Option<RawValue>,
    pub blind_duration: Option<RawValue>,
    pub remaining: Vec<(Vec<u8>, GameEventKey)>,
}

impl PlayerBlind {
    fn parse(keys: &[EventListKey], vals: Vec<GameEventKey>) -> (r: GameEvent)
        requires
            keys@.len() == vals@.len(),
        ensures
            r is PlayerBlind,
    {
        let mut bag = build_bag(keys, &vals);
        let userid = conv_user_id(take_key(&mut bag, "userid".as_bytes()));
        let attacker = conv_raw(take_key(&mut bag, "attacker".as_bytes()));
        let entityid = conv_raw(take_key(&mut bag, "entityid".as_bytes()));
        let blind_duration = conv_raw(take_key(&mut bag, "blind_duration".as_bytes()));
        GameEvent::PlayerBlind(PlayerBlind { userid, attacker, entityid, blind_duration, remaining: bag.entries })
    }
}

/// The `player_team` event.
pub struct PlayerTeam {
    pub userid: Option<UserId>,
    pub team: Option<RawValue>,
    pub oldteam: Option<RawValue>,
    pub disconnect: Option<RawValue>,
    pub silent: Option<RawValue>,
    pub isbot: Option<RawValue>,
    pub userid_pawn: Option<RawValue>,
    pub remaining: Vec<(Vec<u8>, GameEventKey)>,
}

impl PlayerTeam {
    fn parse(keys: &[EventListKey], vals: Vec<GameEventKey>) -> (r: GameEvent)
        requires
            keys@.len() == vals@.len(),
        ensures
            r is PlayerTeam,
    {
        let mut bag = build_bag(keys, &vals);
        let userid = conv_user_id(take_key(&mut bag, "userid".as_bytes()));
        let team = conv_raw(take_key(&mut bag, "team".as_bytes()));
        let oldteam = conv_raw(take_key(&mut bag, "oldteam".as_bytes()));
        let disconnect = conv_raw(take_key(&mut bag, "disconnect".as_bytes()));
        let silent = conv_raw(take_key(&mut bag, "silent".as_bytes()));
        let isbot = conv_raw(take_key(&mut bag, "isbot".as_bytes()));
        let userid_pawn = conv_raw(take_key(&mut bag, "userid_pawn".as_bytes()));
        GameEvent::PlayerTeam(PlayerTeam { userid, team, oldteam, disconnect, silent, isbot, userid_pawn, remaining: bag.entries })
    }
}

/// The `bullet_damage` event.
pub struct BulletDamage {
    pub remaining: Vec<(Vec<u8>, GameEventKey)>,
}

impl BulletDamage {
    fn parse(keys: &[EventListKey], vals: Vec<GameEventKey>) -> (r: GameEvent)
        requires
            keys@.len() == vals@.len(),
        ensures
            r is BulletDamage,
    {
        let mut bag = build_bag(keys, &vals);
        GameEvent::BulletDamage(BulletDamage { remaining: bag.entries })
    }
}

/// The `other_death` event.
pub struct OtherDeath {
    pub remaining: Vec<(Vec<u8>, GameEventKey)>,
}

impl OtherDeath {
    fn parse(keys: &[EventListKey], vals: Vec<GameEventKey>) -> (r: GameEvent)
        requires
            keys@.len() == vals@.len(),
        ensures
            r is OtherDeath,
    {
        let mut bag = build_bag(keys, &vals);
        GameEvent::OtherDeath(OtherDeath { remaining: bag.entries })
    }
}

/// The `bomb_pickup` event.
pub struct BombPickup {
    pub remaining: Vec<(Vec<u8>, GameEventKey)>,
}

impl BombPickup {
    fn parse(keys: &[EventListKey], vals: Vec<GameEventKey>) -> (r: GameEvent)
        requires
            keys@.len() == vals@.len(),
        ensures
            r is BombPickup,
    {
        let mut bag = build_bag(keys, &vals);
        GameEvent::BombPickup(BombPickup { remaining: bag.entries })
    }
}

/// The `bomb_dropped` event.
pub struct BombDropped {
    pub remaining: Vec<(Vec<u8>, GameEventKey)>,
}

impl BombDropped {
    fn parse(keys: &[EventListKey], vals: Vec<GameEventKey>) -> (r: GameEvent)
        requires
            keys@.len() == vals@.len(),
        ensures
            r is BombDropped,
    {
        let mut bag = build_bag(keys, &vals);
        GameEvent::BombDropped(BombDropped { remaining: bag.entries })
    }
}

/// The `bomb_beginplant` event.
pub struct BombBeginPlant {
    pub remaining: Vec<(Vec<u8>, GameEventKey)>,
}

impl BombBeginPlant {
    fn parse(keys: &[EventListKey], vals: Vec<GameEventKey>) -> (r: GameEvent)
        requires
            keys@.len() == vals@.len(),
        ensures
            r is BombBeginPlant,
    {
        let mut bag = build_bag(keys, &vals);
        GameEvent::BombBeginPlant(BombBeginPlant { remaining: bag.entries })
    }
}

/// The `bomb_planted` event.
pub struct BombPlanted {
    pub remaining: Vec<(Vec<u8>, GameEventKey)>,
}

impl BombPlanted {
    fn parse(keys: &[EventListKey], vals: Vec<GameEventKey>) -> (r: GameEvent)
        requires
            keys@.len() == vals@.len(),
        ensures
            r is BombPlanted,
    {
        let mut bag = build_bag(keys, &vals);
        GameEvent::BombPlanted(BombPlanted { remaining: bag.entries })
    }
}

/// The `bomb_exploded` event.
pub struct BombExploded {
    pub remaining: Vec<(Vec<u8>, GameEventKey)>,
}

impl BombExploded {
    fn parse(keys: &[EventListKey], vals: Vec<GameEventKey>) -> (r: GameEvent)
        requires
            keys@.len() == vals@.len(),
        ensures
            r is BombExploded,
    {
        let mut bag = build_bag(keys, &vals);
        GameEvent::BombExploded(BombExploded { remaining: bag.entries })
    }
}

/// The `bomb_begindefuse` event.
pub struct BombBeginDefuse {
    pub remaining: Vec<(Vec<u8>, GameEventKey)>,
}

impl BombBeginDefuse {
    fn parse(keys: &[EventListKey], vals: Vec<GameEventKey>) -> (r: GameEvent)
        requires
            keys@.len() == vals@.len(),
        ensures
            r is BombBeginDefuse,
    {
        let mut bag = build_bag(keys, &vals);
        GameEvent::BombBeginDefuse(BombBeginDefuse { remaining: bag.entries })
    }
}

/// The `bomb_defused` event.
pub struct BombDefused {
    pub remaining: Vec<(Vec<u8>, GameEventKey)>,
}

impl BombDefused {
    fn parse(keys: &[EventListKey], vals: Vec<GameEventKey>) -> (r: GameEvent)
        requires
            keys@.len() == vals@.len(),
        ensures
            r is BombDefused,
    {
        let mut bag = build_bag(keys, &vals);
        GameEvent::BombDefused(BombDefused { remaining: bag.entries })
    }
}

/// The `begin_new_match` event.
pub struct BeginNewMatch {
    pub remaining: Vec<(Vec<u8>, GameEventKey)>,
}

impl BeginNewMatch {
    fn parse(keys: &[EventListKey], vals: Vec<GameEventKey>) -> (r: GameEvent)
        requires
            keys@.len() == vals@.len(),
        ensures
            r is BeginNewMatch,
    {
        let mut bag = build_bag(keys, &vals);
        GameEvent::BeginNewMatch(BeginNewMatch { remaining: bag.entries })
    }
}

/// The `round_announce_match_start` event.
pub struct RoundAnnounceMatchStart {
    pub remaining: Vec<(Vec<u8>, GameEventKey)>,
}

impl RoundAnnounceMatchStart {
    fn parse(keys: &[EventListKey], vals: Vec<GameEventKey>) -> (r: GameEvent)
        requires
            keys@.len() == vals@.len(),
        ensures
            r is RoundAnnounceMatchStart,
    {
        let mut bag = build_bag(keys, &vals);
        GameEvent::RoundAnnounceMatchStart(RoundAnnounceMatchStart { remaining: bag.entries })
    }
}

/// The `round_freeze_end` event.
pub struct RoundFreezeEnd {
    pub remaining: Vec<(Vec<u8>, GameEventKey)>,
}

impl RoundFreezeEnd {
    fn parse(keys: &[EventListKey], vals: Vec<GameEventKey>) -> (r: GameEvent)
        requires
            keys@.len() == vals@.len(),
        ensures
            r is RoundFreezeEnd,
    {
        let mut bag = build_bag(keys, &vals);
        GameEvent::RoundFreezeEnd(RoundFreezeEnd { remaining: bag.entries })
    }
}

/// The `round_prestart` event.
pub struct RoundPreStart {
    pub remaining: Vec<(Vec<u8>, GameEventKey)>,
}

impl RoundPreStart {
    fn parse(keys: &[EventListKey], vals: Vec<GameEventKey>) -> (r: GameEvent)
        requires
            keys@.len() == vals@.len(),
        ensures
            r is RoundPreStart,
    {
        let mut bag = build_bag(keys, &vals);
        GameEvent::RoundPreStart(RoundPreStart { remaining: bag.entries })
    }
}

/// The `round_poststart` event.
pub struct RoundPostStart {
    pub remaining: Vec<(Vec<u8>, GameEventKey)>,
}

impl RoundPostStart {
    fn parse(keys: &[EventListKey], vals: Vec<GameEventKey>) -> (r: GameEvent)
        requires
            keys@.len() == vals@.len(),
        ensures
            r is RoundPostStart,
    {
        let mut bag = build_bag(keys, &vals);
        GameEvent::RoundPostStart(RoundPostStart { remaining: bag.entries })
    }
}

/// The `round_officially_ended` event.
pub struct RoundOfficiallyEnded {
    pub remaining: Vec<(Vec<u8>, GameEventKey)>,
}

impl RoundOfficiallyEnded {
    fn parse(keys: &[EventListKey], vals: Vec<GameEventKey>) -> (r: GameEvent)
        requires
            keys@.len() == vals@.len(),
        ensures
            r is RoundOfficiallyEnded,
    {
        let mut bag = build_bag(keys, &vals);
        GameEvent::RoundOfficiallyEnded(RoundOfficiallyEnded { remaining: bag.entries })
    }
}

/// The `cs_round_start_beep` event.
pub struct RoundStartBeep {
    pub remaining: Vec<(Vec<u8>, GameEventKey)>,
}

impl RoundStartBeep {
    fn parse(keys: &[EventListKey], vals: Vec<GameEventKey>) -> (r: GameEvent)
        requires
            keys@.len() == vals@.len(),
        ensures
            r is RoundStartBeep,
    {
        let mut bag = build_bag(keys, &vals);
        GameEvent::RoundStartBeep(RoundStartBeep { remaining: bag.entries })
    }
}

/// The `round_announce_match_point` event.
pub struct RoundAnnounceMatchpoint {
    pub remaining: Vec<(Vec<u8>, GameEventKey)>,
}

impl RoundAnnounceMatchpoint {
    fn parse(keys: &[EventListKey], vals: Vec<GameEventKey>) -> (r: GameEvent)
        requires
            keys@.len() == vals@.len(),
        ensures
            r is RoundAnnounceMatchpoint,
    {
        let mut bag = build_bag(keys, &vals);
        GameEvent::RoundAnnounceMatchpoint(RoundAnnounceMatchpoint { remaining: bag.entries })
    }
}

/// The `cs_pre_restart` event.
pub struct RoundPreRestart {
    pub remaining: Vec<(Vec<u8>, GameEventKey)>,
}

impl RoundPreRestart {
    fn parse(keys: &[EventListKey], vals: Vec<GameEventKey>) -> (r: GameEvent)
        requires
            keys@.len() == vals@.len(),
        ensures
            r is RoundPreRestart,
    {
        let mut bag = build_bag(keys, &vals);
        GameEvent::RoundPreRestart(RoundPreRestart { remaining: bag.entries })
    }
}

/// The `round_time_warning` event.
pub struct RoundTimeWarning {
    pub remaining: Vec<(Vec<u8>, GameEventKey)>,
}

impl RoundTimeWarning {
    fn parse(keys: &[EventListKey], vals: Vec<GameEventKey>) -> (r: GameEvent)
        requires
            keys@.len() == vals@.len(),
        ensures
            r is RoundTimeWarning,
    {
        let mut bag = build_bag(keys, &vals);
        GameEvent::RoundTimeWarning(RoundTimeWarning { remaining: bag.entries })
    }
}

/// The `cs_round_final_beep` event.
pub struct RoundFinalBeep {
    pub remaining: Vec<(Vec<u8>, GameEventKey)>,
}

impl RoundFinalBeep {
    fn parse(keys: &[EventListKey], vals: Vec<GameEventKey>) -> (r: GameEvent)
        requires
            keys@.len() == vals@.len(),
        ensures
            r is RoundFinalBeep,
    {
        let mut bag = build_bag(keys, &vals);
        GameEvent::RoundFinalBeep(RoundFinalBeep { remaining: bag.entries })
    }
}

/// The `buytime_ended` event.
pub struct BuyTimeEnded {
    pub remaining: Vec<(Vec<u8>, GameEventKey)>,
}

impl BuyTimeEnded {
    fn parse(keys: &[EventListKey], vals: Vec<GameEventKey>) -> (r: GameEvent)
        requires
            keys@.len() == vals@.len(),
        ensures
            r is BuyTimeEnded,
    {
        let mut bag = build_bag(keys, &vals);
        GameEvent::BuyTimeEnded(BuyTimeEnded { remaining: bag.entries })
    }
}

/// The `round_announce_last_round_half` event.
pub struct RoundAnnounceLastRoundHalf {
    pub remaining: Vec<(Vec<u8>, GameEventKey)>,
}

impl RoundAnnounceLastRoundHalf {
    fn parse(keys: &[EventListKey], vals: Vec<GameEventKey>) -> (r: GameEvent)
        requires
            keys@.len() == vals@.len(),
        ensures
            r is RoundAnnounceLastRoundHalf,
    {
        let mut bag = build_bag(keys, &vals);
        GameEvent::RoundAnnounceLastRoundHalf(RoundAnnounceLastRoundHalf { remaining: bag.entries })
    }
}

/// The `announce_phase_end` event.
pub struct AnnouncePhaseEnd {
    pub remaining: Vec<(Vec<u8>, GameEventKey)>,
}

impl AnnouncePhaseEnd {
    fn parse(keys: &[EventListKey], vals: Vec<GameEventKey>) -> (r: GameEvent)
        requires
            keys@.len() == vals@.len(),
        ensures
            r is AnnouncePhaseEnd,
    {
        let mut bag = build_bag(keys, &vals);
        GameEvent::AnnouncePhaseEnd(AnnouncePhaseEnd { remaining: bag.entries })
    }
}

/// The `cs_win_panel_match` event.
pub struct WinPanelMatch {
    pub remaining: Vec<(Vec<u8>, GameEventKey)>,
}

impl WinPanelMatch {
    fn parse(keys: &[EventListKey], vals: Vec<GameEventKey>) -> (r: GameEvent)
        requires
            keys@.len() == vals@.len(),
        ensures
            r is WinPanelMatch,
    {
        let mut bag = build_bag(keys, &vals);
        GameEvent::WinPanelMatch(WinPanelMatch { remaining: bag.entries })
    }
}

/// One decoded, typed game event.
pub enum GameEvent {
    HltvVersionInfo(HltvVersionInfo),
    ItemEquip(ItemEquip),
    ItemPickup(ItemPickup),
    WeaponReload(WeaponReload),
    WeaponZoom(WeaponZoom),
    WeaponFire(WeaponFire),
    SmokeGrenadeDetonate(SmokeGrenadeDetonate),
    SmokeGrenadeExpired(SmokeGrenadeExpired),
    HEGrenadeDetonate(HEGrenadeDetonate),
    InfernoStartBurn(InfernoStartBurn),
    InfernoExpire(InfernoExpire),
    FlashbangDetonate(FlashbangDetonate),
    DecoyStarted(DecoyStarted),
    DecoyDetonate(DecoyDetonate),
    PlayerConnect(PlayerConnect),
    PlayerConnectFull(PlayerConnectFull),
    PlayerDisconnect(PlayerDisconnect),
    PlayerFootstep(PlayerFootstep),
    PlayerJump(PlayerJump),
    PlayerHurt(PlayerHurt),
    PlayerDeath(PlayerDeath),
    PlayerSpawn(PlayerSpawn),
    PlayerBlind(PlayerBlind),
    PlayerTeam(PlayerTeam),
    BulletDamage(BulletDamage),
    OtherDeath(OtherDeath),
    BombPickup(BombPickup),
    BombDropped(BombDropped),
    BombBeginPlant(BombBeginPlant),
    BombPlanted(BombPlanted),
    BombExploded(BombExploded),
    BombBeginDefuse(BombBeginDefuse),
    BombDefused(BombDefused),
    BeginNewMatch(BeginNewMatch),
    RoundAnnounceMatchStart(RoundAnnounceMatchStart),
    RoundFreezeEnd(RoundFreezeEnd),
    RoundPreStart(RoundPreStart),
    RoundPostStart(RoundPostStart),
    RoundOfficiallyEnded(RoundOfficiallyEnded),
    RoundStartBeep(RoundStartBeep),
    RoundAnnounceMatchpoint(RoundAnnounceMatchpoint),
    RoundPreRestart(RoundPreRestart),
    RoundTimeWarning(RoundTimeWarning),
    RoundFinalBeep(RoundFinalBeep),
    BuyTimeEnded(BuyTimeEnded),
    RoundAnnounceLastRoundHalf(RoundAnnounceLastRoundHalf),
    AnnouncePhaseEnd(AnnouncePhaseEnd),
    WinPanelMatch(WinPanelMatch),
}

/// Which event a name selects.
#[derive(Debug, Clone, Copy, PartialEq, Eq, Structural)]
pub enum EventKind {
    HltvVersionInfo,
    ItemEquip,
    ItemPickup,
    WeaponReload,
    WeaponZoom,
    WeaponFire,
    SmokeGrenadeDetonate,
    SmokeGrenadeExpired,
    HEGrenadeDetonate,
    InfernoStartBurn,
    InfernoExpire,
    FlashbangDetonate,
    DecoyStarted,
    DecoyDetonate,
    PlayerConnect,
    PlayerConnectFull,
    PlayerDisconnect,
    PlayerFootstep,
    PlayerJump,
    PlayerHurt,
    PlayerDeath,
    PlayerSpawn,
    PlayerBlind,
    PlayerTeam,
    BulletDamage,
    OtherDeath,
    BombPickup,
    BombDropped,
    BombBeginPlant,
    BombPlanted,
    BombExploded,
    BombBeginDefuse,
    BombDefused,
    BeginNewMatch,
    RoundAnnounceMatchStart,
    RoundFreezeEnd,
    RoundPreStart,
    RoundPostStart,
    RoundOfficiallyEnded,
    RoundStartBeep,
    RoundAnnounceMatchpoint,
    RoundPreRestart,
    RoundTimeWarning,
    RoundFinalBeep,
    BuyTimeEnded,
    RoundAnnounceLastRoundHalf,
    AnnouncePhaseEnd,
    WinPanelMatch,
}

/// Which event constructor a parser kind yields.
pub open spec fn event_matches_kind(kind: EventKind, ev: GameEvent) -> bool {
    match kind {
        EventKind::HltvVersionInfo => ev is HltvVersionInfo,
        EventKind::ItemEquip => ev is ItemEquip,
        EventKind::ItemPickup => ev is ItemPickup,
        EventKind::WeaponReload => ev is WeaponReload,
        EventKind::WeaponZoom => ev is WeaponZoom,
        EventKind::WeaponFire => ev is WeaponFire,
        EventKind::SmokeGrenadeDetonate => ev is SmokeGrenadeDetonate,
        EventKind::SmokeGrenadeExpired => ev is SmokeGrenadeExpired,
        EventKind::HEGrenadeDetonate => ev is HEGrenadeDetonate,
        EventKind::InfernoStartBurn => ev is InfernoStartBurn,
        EventKind::InfernoExpire => ev is InfernoExpire,
        EventKind::FlashbangDetonate => ev is FlashbangDetonate,
        EventKind::DecoyStarted => ev is DecoyStarted,
        EventKind::DecoyDetonate => ev is DecoyDetonate,
        EventKind::PlayerConnect => ev is PlayerConnect,
        EventKind::PlayerConnectFull => ev is PlayerConnectFull,
        EventKind::PlayerDisconnect => ev is PlayerDisconnect,
        EventKind::PlayerFootstep => ev is PlayerFootstep,
        EventKind::PlayerJump => ev is PlayerJump,
        EventKind::PlayerHurt => ev is PlayerHurt,
        EventKind::PlayerDeath => ev is PlayerDeath,
        EventKind::PlayerSpawn => ev is PlayerSpawn,
        EventKind::PlayerBlind => ev is PlayerBlind,
        EventKind::PlayerTeam => ev is PlayerTeam,
        EventKind::BulletDamage => ev is BulletDamage,
        EventKind::OtherDeath => ev is OtherDeath,
        EventKind::BombPickup => ev is BombPickup,
        EventKind::BombDropped => ev is BombDropped,
        EventKind::BombBeginPlant => ev is BombBeginPlant,
        EventKind::BombPlanted => ev is BombPlanted,
        EventKind::BombExploded => ev is BombExploded,
        EventKind::BombBeginDefuse => ev is BombBeginDefuse,
        EventKind::BombDefused => ev is BombDefused,
        EventKind::BeginNewMatch => ev is BeginNewMatch,
        EventKind::RoundAnnounceMatchStart => ev is RoundAnnounceMatchStart,
        EventKind::RoundFreezeEnd => ev is RoundFreezeEnd,
        EventKind::RoundPreStart => ev is RoundPreStart,
        EventKind::RoundPostStart => ev is RoundPostStart,
        EventKind::RoundOfficiallyEnded => ev is RoundOfficiallyEnded,
        EventKind::RoundStartBeep => ev is RoundStartBeep,
        EventKind::RoundAnnounceMatchpoint => ev is RoundAnnounceMatchpoint,
        EventKind::RoundPreRestart => ev is RoundPreRestart,
        EventKind::RoundTimeWarning => ev is RoundTimeWarning,
        EventKind::RoundFinalBeep => ev is RoundFinalBeep,
        EventKind::BuyTimeEnded => ev is BuyTimeEnded,
        EventKind::RoundAnnounceLastRoundHalf => ev is RoundAnnounceLastRoundHalf,
        EventKind::AnnouncePhaseEnd => ev is AnnouncePhaseEnd,
        EventKind::WinPanelMatch => ev is WinPanelMatch,
    }
}

/// A parser for one named event.
pub struct GameEventParser {
    pub kind: EventKind,
}

/// The event-name registry: which parser a descriptor name selects.
pub fn event_parser_for(name: &[u8]) -> (r: Option<GameEventParser>) {
    if bytes_eq(name, "hltv_versioninfo".as_bytes()) {
        Some(GameEventParser::new(EventKind::HltvVersionInfo))
    } else if bytes_eq(name, "item_equip".as_bytes()) {
        Some(GameEventParser::new(EventKind::ItemEquip))
    } else if bytes_eq(name, "item_pickup".as_bytes()) {
        Some(GameEventParser::new(EventKind::ItemPickup))
    } else if bytes_eq(name, "weapon_reload".as_bytes()) {
        Some(GameEventParser::new(EventKind::WeaponReload))
    } else if bytes_eq(name, "weapon_zoom".as_bytes()) {
        Some(GameEventParser::new(EventKind::WeaponZoom))
    } else if bytes_eq(name, "weapon_fire".as_bytes()) {
        Some(GameEventParser::new(EventKind::WeaponFire))
    } else if bytes_eq(name, "smokegrenade_detonate".as_bytes()) {
        Some(GameEventParser::new(EventKind::SmokeGrenadeDetonate))
    } else if bytes_eq(name, "smokegrenade_expired".as_bytes()) {
        Some(GameEventParser::new(EventKind::SmokeGrenadeExpired))
    } else if bytes_eq(name, "hegrenade_detonate".as_bytes()) {
        Some(GameEventParser::new(EventKind::HEGrenadeDetonate))
    } else if bytes_eq(name, "inferno_startburn".as_bytes()) {
        Some(GameEventParser::new(EventKind::InfernoStartBurn))
    } else if bytes_eq(name, "inferno_expire".as_bytes()) {
        Some(GameEventParser::new(EventKind::InfernoExpire))
    } else if bytes_eq(name, "flashbang_detonate".as_bytes()) {
        Some(GameEventParser::new(EventKind::FlashbangDetonate))
    } else if bytes_eq(name, "decoy_started".as_bytes()) {
        Some(GameEventParser::new(EventKind::DecoyStarted))
    } else if bytes_eq(name, "decoy_detonate".as_bytes()) {
        Some(GameEventParser::new(EventKind::DecoyDetonate))
    } else if bytes_eq(name, "player_connect".as_bytes()) {
        Some(GameEventParser::new(EventKind::PlayerConnect))
    } else if bytes_eq(name, "player_connect_full".as_bytes()) {
        Some(GameEventParser::new(EventKind::PlayerConnectFull))
    } else if bytes_eq(name, "player_disconnect".as_bytes()) {
        Some(GameEventParser::new(EventKind::PlayerDisconnect))
    } else if bytes_eq(name, "player_footstep".as_bytes()) {
        Some(GameEventParser::new(EventKind::PlayerFootstep))
    } else if bytes_eq(name, "player_jump".as_bytes()) {
        Some(GameEventParser::new(EventKind::PlayerJump))
    } else if bytes_eq(name, "player_hurt".as_bytes()) {
        Some(GameEventParser::new(EventKind::PlayerHurt))
    } else if bytes_eq(name, "player_death".as_bytes()) {
        Some(GameEventParser::new(EventKind::PlayerDeath))
    } else if bytes_eq(name, "player_spawn".as_bytes()) {
        Some(GameEventParser::new(EventKind::PlayerSpawn))
    } else if bytes_eq(name, "player_blind".as_bytes()) {
        Some(GameEventParser::new(EventKind::PlayerBlind))
    } else if bytes_eq(name, "player_team".as_bytes()) {
        Some(GameEventParser::new(EventKind::PlayerTeam))
    } else if bytes_eq(name, "bullet_damage".as_bytes()) {
        Some(GameEventParser::new(EventKind::BulletDamage))
    } else if bytes_eq(name, "other_death".as_bytes()) {
        Some(GameEventParser::new(EventKind::OtherDeath))
    } else if bytes_eq(name, "bomb_pickup".as_bytes()) {
        Some(GameEventParser::new(EventKind::BombPickup))
    } else if bytes_eq(name, "bomb_dropped".as_bytes()) {
        Some(GameEventParser::new(EventKind::BombDropped))
    } else if bytes_eq(name, "bomb_beginplant".as_bytes()) {
        Some(GameEventParser::new(EventKind::BombBeginPlant))
    } else if bytes_eq(name, "bomb_planted".as_bytes()) {
        Some(GameEventParser::new(EventKind::BombPlanted))
    } else if bytes_eq(name, "bomb_exploded".as_bytes()) {
        Some(GameEventParser::new(EventKind::BombExploded))
    } else if bytes_eq(name, "bomb_begindefuse".as_bytes()) {
        Some(GameEventParser::new(EventKind::BombBeginDefuse))
    } else if bytes_eq(name, "bomb_defused".as_bytes()) {
        Some(GameEventParser::new(EventKind::BombDefused))
    } else if bytes_eq(name, "begin_new_match".as_bytes()) {
        Some(GameEventParser::new(EventKind::BeginNewMatch))
    } else if bytes_eq(name, "round_announce_match_start".as_bytes()) {
        Some(GameEventParser::new(EventKind::RoundAnnounceMatchStart))
    } else if bytes_eq(name, "round_freeze_end".as_bytes()) {
        Some(GameEventParser::new(EventKind::RoundFreezeEnd))
    } else if bytes_eq(name, "round_prestart".as_bytes()) {
        Some(GameEventParser::new(EventKind::RoundPreStart))
    } else if bytes_eq(name, "round_poststart".as_bytes()) {
        Some(GameEventParser::new(EventKind::RoundPostStart))
    } else if bytes_eq(name, "round_officially_ended".as_bytes()) {
        Some(GameEventParser::new(EventKind::RoundOfficiallyEnded))
    } else if bytes_eq(name, "cs_round_start_beep".as_bytes()) {
        Some(GameEventParser::new(EventKind::RoundStartBeep))
    } else if bytes_eq(name, "round_announce_match_point".as_bytes()) {
        Some(GameEventParser::new(EventKind::RoundAnnounceMatchpoint))
    } else if bytes_eq(name, "cs_pre_restart".as_bytes()) {
        Some(GameEventParser::new(EventKind::RoundPreRestart))
    } else if bytes_eq(name, "round_time_warning".as_bytes()) {
        Some(GameEventParser::new(EventKind::RoundTimeWarning))
    } else if bytes_eq(name, "cs_round_final_beep".as_bytes()) {
        Some(GameEventParser::new(EventKind::RoundFinalBeep))
    } else if bytes_eq(name, "buytime_ended".as_bytes()) {
        Some(GameEventParser::new(EventKind::BuyTimeEnded))
    } else if bytes_eq(name, "round_announce_last_round_half".as_bytes()) {
        Some(GameEventParser::new(EventKind::RoundAnnounceLastRoundHalf))
    } else if bytes_eq(name, "announce_phase_end".as_bytes()) {
        Some(GameEventParser::new(EventKind::AnnouncePhaseEnd))
    } else if bytes_eq(name, "cs_win_panel_match".as_bytes()) {
        Some(GameEventParser::new(EventKind::WinPanelMatch))
    } else {
        None
    }
}

impl GameEventParser {
    pub fn new(kind: EventKind) -> (r: GameEventParser)
        ensures
            r.kind == kind,
    {
        GameEventParser { kind }
    }

    /// Parses one event instance against its descriptor keys; fails
    /// exactly when the key and value counts differ, and yields the
    /// record this parser's kind names.
    pub fn parse(&self, keys: &[EventListKey], vals: Vec<GameEventKey>) -> (r: Result<
        GameEvent,
        ParseGameEventError,
    >)
        ensures
            r is Err <==> keys@.len() != vals@.len(),
            r matches Ok(ev) ==> event_matches_kind(self.kind, ev),
    {
        if keys.len() != vals.len() {
            return Err(ParseGameEventError::MismatchedKeysFields);
        }
        match self.kind {
            EventKind::HltvVersionInfo => Ok(HltvVersionInfo::parse(keys, vals)),
            EventKind::ItemEquip => Ok(ItemEquip::parse(keys, vals)),
            EventKind::ItemPickup => Ok(ItemPickup::parse(keys, vals)),
            EventKind::WeaponReload => Ok(WeaponReload::parse(keys, vals)),
            EventKind::WeaponZoom => Ok(WeaponZoom::parse(keys, vals)),
            EventKind::WeaponFire => Ok(WeaponFire::parse(keys, vals)),
            EventKind::SmokeGrenadeDetonate => Ok(SmokeGrenadeDetonate::parse(keys, vals)),
            EventKind::SmokeGrenadeExpired => Ok(SmokeGrenadeExpired::parse(keys, vals)),
            EventKind::HEGrenadeDetonate => Ok(HEGrenadeDetonate::parse(keys, vals)),
            EventKind::InfernoStartBurn => Ok(InfernoStartBurn::parse(keys, vals)),
            EventKind::InfernoExpire => Ok(InfernoExpire::parse(keys, vals)),
            EventKind::FlashbangDetonate => Ok(FlashbangDetonate::parse(keys, vals)),
            EventKind::DecoyStarted => Ok(DecoyStarted::parse(keys, vals)),
            EventKind::DecoyDetonate => Ok(DecoyDetonate::parse(keys, vals)),
            EventKind::PlayerConnect => Ok(PlayerConnect::parse(keys, vals)),
            EventKind::PlayerConnectFull => Ok(PlayerConnectFull::parse(keys, vals)),
            EventKind::PlayerDisconnect => Ok(PlayerDisconnect::parse(keys, vals)),
            EventKind::PlayerFootstep => Ok(PlayerFootstep::parse(keys, vals)),
            EventKind::PlayerJump => Ok(PlayerJump::parse(keys, vals)),
            EventKind::PlayerHurt => Ok(PlayerHurt::parse(keys, vals)),
            EventKind::PlayerDeath => Ok(PlayerDeath::parse(keys, vals)),
            EventKind::PlayerSpawn => Ok(PlayerSpawn::parse(keys, vals)),
            EventKind::PlayerBlind => Ok(PlayerBlind::parse(keys, vals)),
            EventKind::PlayerTeam => Ok(PlayerTeam::parse(keys, vals)),
            EventKind::BulletDamage => Ok(BulletDamage::parse(keys, vals)),
            EventKind::OtherDeath => Ok(OtherDeath::parse(keys, vals)),
            EventKind::BombPickup => Ok(BombPickup::parse(keys, vals)),
            EventKind::BombDropped => Ok(BombDropped::parse(keys, vals)),
            EventKind::BombBeginPlant => Ok(BombBeginPlant::parse(keys, vals)),
            EventKind::BombPlanted => Ok(BombPlanted::parse(keys, vals)),
            EventKind::BombExploded => Ok(BombExploded::parse(keys, vals)),
            EventKind::BombBeginDefuse => Ok(BombBeginDefuse::parse(keys, vals)),
            EventKind::BombDefused => Ok(BombDefused::parse(keys, vals)),
            EventKind::BeginNewMatch => Ok(BeginNewMatch::parse(keys, vals)),
            EventKind::RoundAnnounceMatchStart => Ok(RoundAnnounceMatchStart::parse(keys, vals)),
            EventKind::RoundFreezeEnd => Ok(RoundFreezeEnd::parse(keys, vals)),
            EventKind::RoundPreStart => Ok(RoundPreStart::parse(keys, vals)),
            EventKind::RoundPostStart => Ok(RoundPostStart::parse(keys, vals)),
            EventKind::RoundOfficiallyEnded => Ok(RoundOfficiallyEnded::parse(keys, vals)),
            EventKind::RoundStartBeep => Ok(RoundStartBeep::parse(keys, vals)),
            EventKind::RoundAnnounceMatchpoint => Ok(RoundAnnounceMatchpoint::parse(keys, vals)),
            EventKind::RoundPreRestart => Ok(RoundPreRestart::parse(keys, vals)),
            EventKind::RoundTimeWarning => Ok(RoundTimeWarning::parse(keys, vals)),
            EventKind::RoundFinalBeep => Ok(RoundFinalBeep::parse(keys, vals)),
            EventKind::BuyTimeEnded => Ok(BuyTimeEnded::parse(keys, vals)),
            EventKind::RoundAnnounceLastRoundHalf => Ok(RoundAnnounceLastRoundHalf::parse(keys, vals)),
            EventKind::AnnouncePhaseEnd => Ok(AnnouncePhaseEnd::parse(keys, vals)),
            EventKind::WinPanelMatch => Ok(WinPanelMatch::parse(keys, vals)),
        }
    }
}

} // verus!
