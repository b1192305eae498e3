//! The typed entity-state views: team name, score, number, and the
//! pawn-list collection order.

use cs2demo::entities::{EntityProp, EntityState};
use cs2demo::propcontroller::PropInfo;
use cs2demo::sendtables::FieldInfo;
use cs2demo::structured::{CCSTeam, PawnID};
use cs2demo::Variant;

fn prop(name: &[u8], value: Variant) -> EntityProp {
    EntityProp {
        field_info: FieldInfo { decoder: cs2demo::Decoder::UnsignedDecoder, should_parse: true, prop_id: 1 },
        prop_info: PropInfo { id: 1, prop_name: name.to_vec() },
        value,
    }
}

fn team_state(props: Vec<EntityProp>) -> EntityState {
    EntityState { id: 4, class: b"CCSTeam".to_vec(), cls: 9, props }
}

#[test]
fn player_pawns_collects_unsigned_entries_in_order() {
    let state = team_state(vec![
        prop(b"CCSTeam.m_aPawns", Variant::U32(0x1803)),
        prop(b"CCSTeam.m_iScore", Variant::I32(7)),
        prop(b"CCSTeam.m_aPawns", Variant::Bool(true)),
        prop(b"CCSTeam.m_aPawns", Variant::U32(5)),
    ]);
    let team = CCSTeam::from_state(&state).unwrap();
    // Non-unsigned pawn entries are skipped; ids are masked to 11 bits.
    assert_eq!(team.player_pawns(), vec![PawnID(0x1803 & 0x7ff), PawnID(5)]);
}

#[test]
fn team_accessors_pick_the_first_matching_prop() {
    let state = team_state(vec![
        prop(b"CCSTeam.m_szTeamname", Variant::String(b"CT".to_vec())),
        prop(b"CCSTeam.m_iScore", Variant::I32(-3)),
        prop(b"CCSTeam.m_iTeamNum", Variant::U32(3)),
    ]);
    let team = CCSTeam::from_state(&state).unwrap();
    assert_eq!(team.team_name(), Some(b"CT".to_vec()));
    assert_eq!(team.score(), Some(-3));
    assert_eq!(team.team_number(), Some(3));
}

#[test]
fn mistyped_props_read_as_absent() {
    let state = team_state(vec![
        prop(b"CCSTeam.m_szTeamname", Variant::U32(1)),
        prop(b"CCSTeam.m_iScore", Variant::Bool(false)),
    ]);
    let team = CCSTeam::from_state(&state).unwrap();
    assert_eq!(team.team_name(), None);
    assert_eq!(team.score(), None);
    assert_eq!(team.team_number(), None);
}
