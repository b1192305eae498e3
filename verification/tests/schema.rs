//! Schema rules: the var-type grammar, decoder assignment, the
//! weapon-property collapsing, and the path-contextualised ids.

use cs2demo::fieldpath::Paths;
use cs2demo::propcontroller::PropController;
use cs2demo::sendtables::{
    find_field_type, Field, FieldInfo, Serializer, ValueField, VectorField,
};
use cs2demo::Decoder;

#[test]
fn grammar_parses_base_generic_pointer_count() {
    let mut map = Vec::new();
    let ft = find_field_type(b"uint32", &mut map, 16).unwrap();
    assert_eq!(ft.base_type, b"uint32");
    assert!(!ft.pointer);
    assert!(ft.count.is_none());
    assert!(ft.generic_type.is_none());

    let ft = find_field_type(b"CHandle< CBaseEntity >", &mut map, 16).unwrap();
    assert_eq!(ft.base_type, b"CHandle");
    let inner = ft.generic_type.as_ref().unwrap();
    assert_eq!(inner.base_type, b"CBaseEntity");

    let ft = find_field_type(b"CNetworkedQuantizedFloat*", &mut map, 16).unwrap();
    assert!(ft.pointer);

    let ft = find_field_type(b"int32[4]", &mut map, 16).unwrap();
    assert_eq!(ft.count, Some(4));
    assert!(ft.element_type.is_some());

    // The component types are pointers without writing '*'.
    let ft = find_field_type(b"CBodyComponent", &mut map, 16).unwrap();
    assert!(ft.pointer);
}

fn leaf(name: &[u8], decoder: Decoder) -> Field {
    Field::Value(ValueField::new(decoder, name))
}

#[test]
fn weapon_classes_share_one_canonical_id() {
    let mut ctrl = PropController::new();
    let ak = Serializer {
        name: b"CAK47".to_vec(),
        fields: vec![leaf(b"m_iClip1", Decoder::AmmoDecoder)],
    };
    let scar = Serializer {
        name: b"CWeaponSCAR20".to_vec(),
        fields: vec![leaf(b"m_iClip1", Decoder::AmmoDecoder)],
    };
    let ak = ctrl.find_prop_name_paths(ak);
    let scar = ctrl.find_prop_name_paths(scar);
    let id_of = |s: &Serializer| match &s.fields[0] {
        Field::Value(v) => v.prop_id,
        _ => panic!("leaf expected"),
    };
    // The first segment is dropped for weapons, so both leaves collapse
    // onto one id under the bare name.
    assert_eq!(id_of(&ak), id_of(&scar));
    assert_eq!(id_of(&ak), 1000);
    let info = ctrl.get_prop_info(1000).expect("registered");
    assert_eq!(info.prop_name, b"m_iClip1");
}

#[test]
fn ordinary_classes_keep_their_full_names() {
    let mut ctrl = PropController::new();
    let team = Serializer {
        name: b"CCSTeam".to_vec(),
        fields: vec![leaf(b"m_iScore", Decoder::SignedDecoder)],
    };
    let team = ctrl.find_prop_name_paths(team);
    match &team.fields[0] {
        Field::Value(v) => {
            assert_eq!(v.full_name, b"CCSTeam.m_iScore");
            let info = ctrl.get_prop_info(v.prop_id).expect("registered");
            assert_eq!(info.prop_name, b"CCSTeam.m_iScore");
        }
        _ => panic!("leaf expected"),
    }
}

#[test]
fn counter_advances_for_every_leaf() {
    let mut ctrl = PropController::new();
    let ser = Serializer {
        name: b"CThing".to_vec(),
        fields: vec![
            leaf(b"m_a", Decoder::UnsignedDecoder),
            leaf(b"m_b", Decoder::UnsignedDecoder),
        ],
    };
    let ser = ctrl.find_prop_name_paths(ser);
    let ids: Vec<u32> = ser
        .fields
        .iter()
        .map(|f| match f {
            Field::Value(v) => v.prop_id,
            _ => panic!("leaf expected"),
        })
        .collect();
    assert_eq!(ids, vec![1000, 1001]);
}

#[test]
fn reserved_override_ids_are_registered() {
    // The weapon-list leaf is reassigned to its reserved id after the
    // ordinary registration; an info record must exist under both.
    let mut ctrl = PropController::new();
    let pawn = Serializer {
        name: b"CCSPlayerPawn".to_vec(),
        fields: vec![Field::Serializer(cs2demo::sendtables::SerializerField {
            serializer: Serializer {
                name: b"CCSPlayer_WeaponServices".to_vec(),
                fields: vec![leaf(b"m_hMyWeapons", Decoder::UnsignedDecoder)],
            },
        })],
    };
    let pawn = ctrl.find_prop_name_paths(pawn);
    let inner = match &pawn.fields[0] {
        Field::Serializer(sf) => &sf.serializer.fields[0],
        _ => panic!("serializer expected"),
    };
    match inner {
        Field::Value(v) => {
            assert_eq!(v.prop_id, 500_000);
            assert!(ctrl.get_prop_info(500_000).is_some());
        }
        _ => panic!("leaf expected"),
    }
}

#[test]
fn purchase_ids_are_contextualised_by_path() {
    // A vector leaf carrying the purchase-count base id.
    let mut vf = ValueField::new(Decoder::UnsignedDecoder, b"m_nCount");
    vf.prop_id = 200_000_000;
    let field = Field::Vector(VectorField::new(Field::Value(vf)));
    let mut path = Paths::new_path();
    path.path = [0, 0, 5, 0, 0, 0, 0];
    path.last = 2;
    let fi: FieldInfo = field.get_propinfo(&path).expect("info");
    // path[1] != 1, so the id moves by path[2].
    assert_eq!(fi.prop_id, 200_000_005);

    let mut path = Paths::new_path();
    path.path = [0, 1, 5, 0, 0, 0, 0];
    path.last = 2;
    let fi: FieldInfo = field.get_propinfo(&path).expect("info");
    // path[1] == 1 keeps the base id.
    assert_eq!(fi.prop_id, 200_000_000);
}

#[test]
fn weapon_list_id_is_offset_by_slot() {
    let mut vf = ValueField::new(Decoder::UnsignedDecoder, b"m_hMyWeapons");
    vf.prop_id = 500_000;
    let field = Field::Vector(VectorField::new(Field::Value(vf)));
    let mut path = Paths::new_path();
    path.path = [0, 0, 3, 0, 0, 0, 0];
    path.last = 2;
    let fi = field.get_propinfo(&path).expect("info");
    assert_eq!(fi.prop_id, 500_000 + 3 + 1);

    // At depth one the base id stays.
    let mut path = Paths::new_path();
    path.path = [0, 0, 0, 0, 0, 0, 0];
    path.last = 1;
    let fi = field.get_propinfo(&path).expect("info");
    assert_eq!(fi.prop_id, 500_000);
}
