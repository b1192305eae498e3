//! The prop controller: walks each finished serializer tree, assigns a
//! stable property id to every value leaf, collapses equivalently-named
//! weapon and grenade properties under one canonical id, and records
//! the path-to-name and id-to-name tables.

use crate::byteops::{
    bytes_concat, bytes_contains, bytes_eq, copy_bytes, find_first_dot, spec_contains,
    spec_first_dot,
};
use crate::sendtables::{Field, Serializer, ValueField};
use vstd::prelude::*;
use vstd::string::StringSliceAdditionalSpecFns;

verus! {

pub const NORMAL_PROP_BASEID: u32 = 1000;

pub const MY_WEAPONS_OFFSET: u32 = 500000;

pub const WEAPON_SKIN_ID: u32 = 10000000;

pub const ITEM_PURCHASE_COUNT: u32 = 200000000;

pub const ITEM_PURCHASE_DEF_IDX: u32 = 300000000;

pub const ITEM_PURCHASE_COST: u32 = 400000000;

pub const ITEM_PURCHASE_HANDLE: u32 = 500000000;

pub const ITEM_PURCHASE_NEW_DEF_IDX: u32 = 600000000;

pub const FLATTENED_VEC_MAX_LEN: u32 = 100000;

/// Cap on the serializer-tree nesting the walk follows.
pub const MAX_TRAVERSE_DEPTH: u32 = 64;

/// A property's stable id and canonical name.
#[derive(Debug, Clone)]
pub struct PropInfo {
    pub id: u32,
    pub prop_name: Vec<u8>,
}

/// Reserved for future special property ids.
#[derive(Debug, Clone)]
pub struct SpecialIDs {}

impl SpecialIDs {
    pub fn new() -> (r: SpecialIDs) {
        SpecialIDs {  }
    }
}

/// The controller: a monotonically advancing id counter and the three
/// name tables.
#[derive(Debug)]
pub struct PropController {
    pub id: u32,
    pub special_ids: SpecialIDs,
    pub name_to_id: Vec<(Vec<u8>, u32)>,
    pub id_to_name: Vec<(u32, Vec<u8>)>,
    pub path_to_name: Vec<([i32; 7], Vec<u8>)>,
    pub prop_infos: Vec<(u32, PropInfo)>,
}

/// True when the id table holds an entry for `id`.
/// The weapon-class first-segment test of the canonical-name rule.
pub open spec fn spec_weapon_segment(seg: Seq<u8>) -> bool {
    ||| ((spec_contains(seg, "Weapon".spec_bytes()) || spec_contains(seg, "AK".spec_bytes()))
        && !spec_contains(seg, "Player".spec_bytes()))
    ||| spec_contains(seg, "Knife".spec_bytes())
    ||| spec_contains(seg, "CDEagle".spec_bytes())
    ||| spec_contains(seg, "C4".spec_bytes())
    ||| spec_contains(seg, "Molo".spec_bytes())
    ||| spec_contains(seg, "Inc".spec_bytes())
    ||| spec_contains(seg, "Infer".spec_bytes())
}

/// The projectile-class first-segment test of the canonical-name rule.
pub open spec fn spec_projectile_segment(seg: Seq<u8>) -> bool {
    (spec_contains(seg, "Projectile".spec_bytes()) || spec_contains(seg, "Grenade".spec_bytes())
        || spec_contains(seg, "Flash".spec_bytes())) && !spec_contains(
        seg,
        "Player".spec_bytes(),
    )
}

/// The canonical property name: a full name whose first dot-separated
/// segment names a weapon, grenade or projectile class drops that
/// segment; every other name is kept whole.
pub open spec fn spec_canonical_name(full: Seq<u8>) -> Seq<u8> {
    let dot = spec_first_dot(full, 0);
    let seg = full.subrange(0, dot);
    if (spec_weapon_segment(seg) || spec_projectile_segment(seg)) && dot < full.len() {
        full.subrange(dot + 1, full.len() as int)
    } else {
        full
    }
}

pub open spec fn has_prop_info(infos: Seq<(u32, PropInfo)>, id: u32) -> bool {
    exists|j: int| 0 <= j < infos.len() && (#[trigger] infos[j]).0 == id
}

/// Controller well-formedness: every canonical name registered in the
/// name table has an info record under its id.
pub open spec fn ctrl_wf(c: &PropController) -> bool {
    forall|j: int|
        0 <= j < c.name_to_id@.len() ==> has_prop_info(
            c.prop_infos@,
            (#[trigger] c.name_to_id@[j]).1,
        )
}

/// Every id in the info table occurs once.
pub open spec fn unique_ids(infos: Seq<(u32, PropInfo)>) -> bool {
    forall|i: int, j: int|
        0 <= i < j < infos.len() ==> (#[trigger] infos[i]).0 != (#[trigger] infos[j]).0
}

/// Every value leaf the id-assignment walk visits in `f`, within
/// `d` levels of nesting, carries `should_parse` and an info record
/// registered under its assigned id: plain leaves, array and vector
/// element leaves, and the leaves of embedded, pointed-to and
/// vector-carried serializers.
pub open spec fn walked_leaves_ok(f: Field, infos: Seq<(u32, PropInfo)>, d: int) -> bool
    decreases d, 0int,
{
    d >= 1 ==> match f {
        Field::Value(v) => v.should_parse && has_prop_info(infos, v.prop_id),
        Field::Array(a) => match *a.field_enum {
            Field::Value(v) => v.should_parse && has_prop_info(infos, v.prop_id),
            _ => true,
        },
        Field::Vector(vf) => match *vf.field_enum {
            Field::Value(v) => v.should_parse && has_prop_info(infos, v.prop_id),
            Field::Serializer(sf) => fields_walked_ok(sf.serializer.fields@, infos, d - 1),
            _ => true,
        },
        Field::Serializer(sf) => fields_walked_ok(sf.serializer.fields@, infos, d - 1),
        Field::Pointer(pf) => fields_walked_ok(pf.serializer.fields@, infos, d - 1),
        Field::Unset => true,
    }
}

/// Every field of the list satisfies the walked-leaf guarantee one
/// level down.
pub open spec fn fields_walked_ok(fields: Seq<Field>, infos: Seq<(u32, PropInfo)>, d: int) -> bool
    decreases d, 1int,
{
    d >= 1 ==> forall|i: int|
        0 <= i < fields.len() ==> walked_leaves_ok(#[trigger] fields[i], infos, d - 1)
}

/// Registered leaves stay registered as the info table grows.
pub proof fn lemma_walked_leaves_ok_mono(
    f: Field,
    infos1: Seq<(u32, PropInfo)>,
    infos2: Seq<(u32, PropInfo)>,
    d: int,
)
    requires
        walked_leaves_ok(f, infos1, d),
        forall|id: u32| has_prop_info(infos1, id) ==> has_prop_info(infos2, id),
    ensures
        walked_leaves_ok(f, infos2, d),
    decreases d, 0int,
{
    if d >= 1 {
        match f {
            Field::Vector(vf) => {
                match *vf.field_enum {
                    Field::Serializer(sf) => {
                        lemma_fields_walked_ok_mono(sf.serializer.fields@, infos1, infos2, d - 1);
                    },
                    _ => {},
                }
            },
            Field::Serializer(sf) => {
                lemma_fields_walked_ok_mono(sf.serializer.fields@, infos1, infos2, d - 1);
            },
            Field::Pointer(pf) => {
                lemma_fields_walked_ok_mono(pf.serializer.fields@, infos1, infos2, d - 1);
            },
            _ => {},
        }
    }
}

pub proof fn lemma_fields_walked_ok_mono(
    fields: Seq<Field>,
    infos1: Seq<(u32, PropInfo)>,
    infos2: Seq<(u32, PropInfo)>,
    d: int,
)
    requires
        fields_walked_ok(fields, infos1, d),
        forall|id: u32| has_prop_info(infos1, id) ==> has_prop_info(infos2, id),
    ensures
        fields_walked_ok(fields, infos2, d),
    decreases d, 1int,
{
    if d >= 1 {
        assert forall|i: int| 0 <= i < fields.len() implies walked_leaves_ok(
            #[trigger] fields[i],
            infos2,
            d - 1,
        ) by {
            lemma_walked_leaves_ok_mono(fields[i], infos1, infos2, d - 1);
        }
    }
}

/// Every canonical name in the name table occurs once.
pub open spec fn unique_names(names: Seq<(Vec<u8>, u32)>) -> bool {
    forall|i: int, j: int|
        0 <= i < j < names.len() ==> (#[trigger] names[i]).0@ != (#[trigger] names[j]).0@
}

impl PropController {
    pub fn new() -> (r: PropController)
        ensures
            r.id == NORMAL_PROP_BASEID,
            r.prop_infos@.len() == 0,
            ctrl_wf(&r),
            unique_ids(r.prop_infos@),
            unique_names(r.name_to_id@),
    {
        PropController {
            id: NORMAL_PROP_BASEID,
            special_ids: SpecialIDs::new(),
            name_to_id: Vec::new(),
            id_to_name: Vec::new(),
            path_to_name: Vec::new(),
            prop_infos: Vec::new(),
        }
    }

    /// The id registered under a canonical name, if any.
    fn lookup_name(&self, name: &[u8]) -> (r: Option<u32>)
        ensures
            r matches Some(id) ==> exists|j: int|
                0 <= j < self.name_to_id@.len() && (#[trigger] self.name_to_id@[j]).0@ == name@
                    && self.name_to_id@[j].1 == id,
            r is None ==> forall|j: int|
                0 <= j < self.name_to_id@.len() ==> (#[trigger] self.name_to_id@[j]).0@ != name@,
    {
        let mut i: usize = 0;
        while i < self.name_to_id.len()
            invariant
                i <= self.name_to_id@.len(),
                forall|j: int|
                    0 <= j < i ==> (#[trigger] self.name_to_id@[j]).0@ != name@,
            decreases self.name_to_id@.len() - i,
        {
            if bytes_eq(self.name_to_id[i].0.as_slice(), name) {
                return Some(self.name_to_id[i].1);
            }
            i = i + 1;
        }
        None
    }

    /// The registered info for an id, if any.
    pub fn get_prop_info(&self, id: u32) -> (r: Option<&PropInfo>)
        ensures
            r is Some ==> has_prop_info(self.prop_infos@, id),
            r is None ==> !has_prop_info(self.prop_infos@, id),
    {
        let mut i: usize = 0;
        while i < self.prop_infos.len()
            invariant
                i <= self.prop_infos@.len(),
                forall|j: int| 0 <= j < i ==> (#[trigger] self.prop_infos@[j]).0 != id,
            decreases self.prop_infos@.len() - i,
        {
            if self.prop_infos[i].0 == id {
                return Some(&self.prop_infos[i].1);
            }
            i = i + 1;
        }
        None
    }

    /// Records the path-to-name binding.
    fn record_path(&mut self, path: &Vec<i32>, name: &[u8])
        ensures
            final (self).prop_infos@ == old(self).prop_infos@,
            final (self).id == old(self).id,
            final (self).name_to_id@ == old(self).name_to_id@,
            final (self).id_to_name@ == old(self).id_to_name@,
            ctrl_wf(old(self)) ==> ctrl_wf(final (self)),
    {
        let mut a: [i32; 7] = [0, 0, 0, 0, 0, 0, 0];
        let mut i: usize = 0;
        while i < path.len() && i < 7
            invariant
                i <= 7,
            decreases 7 - i,
        {
            a[i] = path[i];
            i = i + 1;
        }
        self.path_to_name.push((a, copy_bytes(name)));
    }

    /// Registers `name` under an id: reuses the existing id for a known
    /// name, else claims the current counter.  Returns whether a fresh
    /// name was claimed.
    fn set_id(&mut self, weap_prop: &[u8], f: &mut ValueField) -> (fresh: bool)
        ensures
            final (self).prop_infos@ == old(self).prop_infos@,
            final (self).id == old(self).id,
            !fresh ==> {
                &&& final (self).name_to_id@ == old(self).name_to_id@
                &&& exists|j: int|
                    0 <= j < old(self).name_to_id@.len() && (
                    #[trigger] old(self).name_to_id@[j]).0@ == weap_prop@ && old(
                        self,
                    ).name_to_id@[j].1 == final (f).prop_id
            },
            fresh ==> {
                &&& final (f).prop_id == old(self).id
                &&& final (self).name_to_id@.len() == old(self).name_to_id@.len() + 1
                &&& forall|j: int|
                    0 <= j < old(self).name_to_id@.len() ==> final (self).name_to_id@[j] == old(
                        self,
                    ).name_to_id@[j]
                &&& final (self).name_to_id@[old(self).name_to_id@.len() as int].1 == old(
                    self,
                ).id
            },
            unique_names(old(self).name_to_id@) ==> unique_names(final (self).name_to_id@),
            final (self).id_to_name@.len() == old(self).id_to_name@.len() + 1,
            final (self).id_to_name@.last().0 == final (f).prop_id,
            final (self).id_to_name@.last().1@ == weap_prop@,
            final (f).name@ == old(f).name@,
            final (f).decoder == old(f).decoder,
            final (f).should_parse == old(f).should_parse,
            final (f).full_name@ == old(f).full_name@,
    {
        match self.lookup_name(weap_prop) {
            Some(id) => {
                f.prop_id = id;
                self.id_to_name.push((id, copy_bytes(weap_prop)));
                false
            },
            None => {
                let ghost before = self.name_to_id@;
                self.name_to_id.push((copy_bytes(weap_prop), self.id));
                self.id_to_name.push((self.id, copy_bytes(weap_prop)));
                f.prop_id = self.id;
                proof {
                    assert forall|i: int, j: int|
                        0 <= i < j < self.name_to_id@.len() && unique_names(before) implies (
                    #[trigger] self.name_to_id@[i]).0@ != (#[trigger] self.name_to_id@[j]).0@ by {
                        if j < before.len() {
                        } else {
                            assert(self.name_to_id@[j].0@ == weap_prop@);
                            assert(before[i].0@ != weap_prop@);
                        }
                    }
                }
                true
            },
        }
    }

    /// Adds the info record for a property id not yet in the table; a
    /// registered id keeps its record.
    fn insert_propinfo(&mut self, prop_name: &[u8], f: &ValueField)
        ensures
            has_prop_info(final (self).prop_infos@, f.prop_id),
            forall|id: u32|
                has_prop_info(old(self).prop_infos@, id) ==> has_prop_info(
                    final (self).prop_infos@,
                    id,
                ),
            final (self).id == old(self).id,
            final (self).name_to_id@ == old(self).name_to_id@,
            final (self).id_to_name@ == old(self).id_to_name@,
            unique_ids(old(self).prop_infos@) ==> unique_ids(final (self).prop_infos@),
    {
        if self.get_prop_info(f.prop_id).is_some() {
            return ;
        }
        proof {
            assert(!has_prop_info(self.prop_infos@, f.prop_id));
        }
        let info = PropInfo { id: f.prop_id, prop_name: copy_bytes(prop_name) };
        let ghost before = self.prop_infos@;
        self.prop_infos.push((f.prop_id, info));
        proof {
            assert(self.prop_infos@[before.len() as int].0 == f.prop_id);
            assert forall|id: u32| has_prop_info(before, id) implies has_prop_info(
                self.prop_infos@,
                id,
            ) by {
                let j = choose|j: int| 0 <= j < before.len() && (#[trigger] before[j]).0 == id;
                assert(self.prop_infos@[j].0 == id);
            }
            assert forall|i: int, j: int|
                0 <= i < j < self.prop_infos@.len() && unique_ids(before) implies (
            #[trigger] self.prop_infos@[i]).0 != (#[trigger] self.prop_infos@[j]).0 by {
                if j < before.len() {
                } else {
                    assert(self.prop_infos@[j].0 == f.prop_id);
                    if self.prop_infos@[i].0 == f.prop_id {
                        assert(has_prop_info(before, f.prop_id));
                    }
                }
            }
        }
    }

    /// Handles one value leaf: forms the full and canonical names,
    /// assigns the id, records the tables, and applies the reserved-id
    /// overrides for the special full names.  Every leaf ends with an
    /// info record registered under its assigned id, the reserved ids
    /// included.
    fn handle_prop(&mut self, full_name: &[u8], f: &mut ValueField, path: Vec<i32>)
        ensures
            forall|id: u32|
                has_prop_info(old(self).prop_infos@, id) ==> has_prop_info(
                    final (self).prop_infos@,
                    id,
                ),
            ctrl_wf(old(self)) ==> ctrl_wf(final (self)),
            has_prop_info(final (self).prop_infos@, final (f).prop_id),
            final (f).should_parse,
            unique_ids(old(self).prop_infos@) ==> unique_ids(final (self).prop_infos@),
            unique_names(old(self).name_to_id@) ==> unique_names(final (self).name_to_id@),
            final (f).name@ == old(f).name@,
            final (f).decoder == old(f).decoder,
            final (f).full_name@ == full_name@,
            final (self).id_to_name@.len() == old(self).id_to_name@.len() + 1,
            final (self).id_to_name@.last().1@ == spec_canonical_name(full_name@),
    {
        f.full_name = copy_bytes(full_name);
        let dot = find_first_dot(full_name);
        let first_seg = vstd::slice::slice_subrange(full_name, 0, dot);
        let is_weapon_prop = ((bytes_contains(first_seg, "Weapon".as_bytes()) || bytes_contains(
            first_seg,
            "AK".as_bytes(),
        )) && !bytes_contains(first_seg, "Player".as_bytes())) || bytes_contains(first_seg, "Knife".as_bytes())
            || bytes_contains(first_seg, "CDEagle".as_bytes()) || bytes_contains(first_seg, "C4".as_bytes())
            || bytes_contains(first_seg, "Molo".as_bytes()) || bytes_contains(first_seg, "Inc".as_bytes())
            || bytes_contains(first_seg, "Infer".as_bytes());
        let is_projectile_prop = (bytes_contains(first_seg, "Projectile".as_bytes()) || bytes_contains(
            first_seg,
            "Grenade".as_bytes(),
        ) || bytes_contains(first_seg, "Flash".as_bytes())) && !bytes_contains(first_seg, "Player".as_bytes());
        let is_grenade_or_weapon = is_weapon_prop || is_projectile_prop;
        // Canonical name: weapons and grenades drop their first segment.
        let prop_name: Vec<u8> = if is_grenade_or_weapon && dot < full_name.len() {
            copy_bytes(vstd::slice::slice_subrange(full_name, dot + 1, full_name.len()))
        } else {
            copy_bytes(full_name)
        };
        proof {
            assert(first_seg@ == full_name@.subrange(0, spec_first_dot(full_name@, 0)));
            assert(prop_name@ == spec_canonical_name(full_name@));
        }
        self.record_path(&path, prop_name.as_slice());
        let fresh = self.set_id(prop_name.as_slice(), f);
        if fresh {
            self.insert_propinfo(prop_name.as_slice(), f);
        }
        f.should_parse = true;
        if bytes_eq(full_name, "CCSPlayerPawn.CCSPlayer_WeaponServices.m_hMyWeapons".as_bytes()) {
            f.prop_id = MY_WEAPONS_OFFSET;
        }
        if bytes_eq(
            full_name,
            "CCSPlayerPawn.CCSPlayer_ActionTrackingServices.WeaponPurchaseCount_t.m_nCount".as_bytes(),
        ) {
            f.prop_id = ITEM_PURCHASE_COUNT;
        }
        if bytes_eq(
            full_name,
            "CCSPlayerPawn.CCSPlayer_BuyServices.SellbackPurchaseEntry_t.m_unDefIdx".as_bytes(),
        ) {
            f.prop_id = ITEM_PURCHASE_DEF_IDX;
        }
        if bytes_eq(
            full_name,
            "CCSPlayerPawn.CCSPlayer_BuyServices.SellbackPurchaseEntry_t.m_nCost".as_bytes(),
        ) {
            f.prop_id = ITEM_PURCHASE_COST;
        }
        if bytes_eq(
            full_name,
            "CCSPlayerPawn.CCSPlayer_ActionTrackingServices.WeaponPurchaseCount_t.m_nItemDefIndex".as_bytes(),
        ) {
            f.prop_id = ITEM_PURCHASE_NEW_DEF_IDX;
        }
        if bytes_eq(
            full_name,
            "CCSPlayerPawn.CCSPlayer_BuyServices.SellbackPurchaseEntry_t.m_hItem".as_bytes(),
        ) {
            f.prop_id = ITEM_PURCHASE_HANDLE;
        }
        if bytes_contains(prop_name.as_slice(), "CEconItemAttribute.m_iRawValue32".as_bytes()) {
            f.prop_id = WEAPON_SKIN_ID;
        }
        // A leaf moved onto a reserved id still gets an info record
        // there, so every leaf's assigned id is registered.
        self.insert_propinfo(prop_name.as_slice(), f);
        if self.id < u32::MAX {
            self.id = self.id + 1;
        }
    }

    /// Walks a finished serializer, assigning ids to every reachable
    /// value leaf, and returns the annotated serializer.
    pub fn find_prop_name_paths(&mut self, serializer: Serializer) -> (r: Serializer)
        ensures
            forall|id: u32|
                has_prop_info(old(self).prop_infos@, id) ==> has_prop_info(
                    final (self).prop_infos@,
                    id,
                ),
            ctrl_wf(old(self)) ==> ctrl_wf(final (self)),
            unique_ids(old(self).prop_infos@) ==> unique_ids(final (self).prop_infos@),
            unique_names(old(self).name_to_id@) ==> unique_names(final (self).name_to_id@),
            fields_walked_ok(
                r.fields@,
                final (self).prop_infos@,
                MAX_TRAVERSE_DEPTH as int,
            ),
            r.name@ == serializer.name@,
            r.fields@.len() == serializer.fields@.len(),
            forall|k: int|
                0 <= k < serializer.fields@.len() ==> crate::sendtables::field_mirrors(
                    #[trigger] r.fields@[k],
                    serializer.fields@[k],
                ),
    {
        let name = copy_bytes(serializer.name.as_slice());
        let fields = self.traverse_fields(
            serializer.fields,
            name,
            Vec::new(),
            MAX_TRAVERSE_DEPTH,
        );
        Serializer { name: serializer.name, fields }
    }

    /// Walks one field list; `path_og` is the index path so far.
    fn traverse_fields(
        &mut self,
        fields: Vec<Field>,
        ser_name: Vec<u8>,
        path_og: Vec<i32>,
        depth: u32,
    ) -> (r: Vec<Field>)
        ensures
            forall|id: u32|
                has_prop_info(old(self).prop_infos@, id) ==> has_prop_info(
                    final (self).prop_infos@,
                    id,
                ),
            ctrl_wf(old(self)) ==> ctrl_wf(final (self)),
            unique_ids(old(self).prop_infos@) ==> unique_ids(final (self).prop_infos@),
            unique_names(old(self).name_to_id@) ==> unique_names(final (self).name_to_id@),
            fields_walked_ok(r@, final (self).prop_infos@, depth as int),
            r@.len() == fields@.len(),
            forall|k: int|
                0 <= k < fields@.len() ==> crate::sendtables::field_mirrors(
                    #[trigger] r@[k],
                    fields@[k],
                ),
        decreases depth, 1int, fields@.len(),
    {
        if depth == 0 {
            return fields;
        }
        let mut out: Vec<Field> = Vec::new();
        let mut fields = fields;
        let mut idx: usize = 0;
        let n = fields.len();
        while idx < n
            invariant
                n == fields@.len(),
                idx <= n,
                out@.len() == idx,
                forall|k: int|
                    0 <= k < idx ==> crate::sendtables::field_mirrors(
                        #[trigger] out@[k],
                        fields@[k],
                    ),
                depth >= 1,
                forall|id: u32|
                    has_prop_info(old(self).prop_infos@, id) ==> has_prop_info(
                        self.prop_infos@,
                        id,
                    ),
                ctrl_wf(old(self)) ==> ctrl_wf(&self),
                unique_ids(old(self).prop_infos@) ==> unique_ids(self.prop_infos@),
                unique_names(old(self).name_to_id@) ==> unique_names(self.name_to_id@),
                depth >= 1,
                forall|k: int|
                    0 <= k < out@.len() ==> walked_leaves_ok(
                        #[trigger] out@[k],
                        self.prop_infos@,
                        depth - 1,
                    ),
            decreases n - idx,
        {
            let mut path = clone_path(&path_og);
            if idx <= i32::MAX as usize {
                path.push(idx as i32);
            }
            let f = crate::sendtables::clone_field(&fields[idx], crate::sendtables::MAX_SCHEMA_DEPTH);
            let ghost infos_prev = self.prop_infos@;
            let handled: Field = self.traverse_one(f, &ser_name, path, depth - 1);
            proof {
                assert forall|k: int| 0 <= k < out@.len() implies walked_leaves_ok(
                    #[trigger] out@[k],
                    self.prop_infos@,
                    depth - 1,
                ) by {
                    lemma_walked_leaves_ok_mono(out@[k], infos_prev, self.prop_infos@, depth - 1);
                }
            }
            out.push(handled);
            idx = idx + 1;
        }
        out
    }

    /// Walks one field node.
    fn traverse_one(&mut self, f: Field, ser_name: &Vec<u8>, path: Vec<i32>, depth: u32) -> (r:
        Field)
        ensures
            forall|id: u32|
                has_prop_info(old(self).prop_infos@, id) ==> has_prop_info(
                    final (self).prop_infos@,
                    id,
                ),
            ctrl_wf(old(self)) ==> ctrl_wf(final (self)),
            unique_ids(old(self).prop_infos@) ==> unique_ids(final (self).prop_infos@),
            unique_names(old(self).name_to_id@) ==> unique_names(final (self).name_to_id@),
            walked_leaves_ok(r, final (self).prop_infos@, depth as int),
            crate::sendtables::field_mirrors(r, f),
        decreases depth, 0int, 0int,
    {
        if depth == 0 {
            return f;
        }
        match f {
            Field::Value(mut x) => {
                let full_name = join_dot(ser_name.as_slice(), x.name.as_slice());
                self.handle_prop(full_name.as_slice(), &mut x, path);
                Field::Value(x)
            },
            Field::Serializer(ser) => {
                let inner_name = join_dot(ser_name.as_slice(), ser.serializer.name.as_slice());
                let new_fields = self.traverse_fields(
                    ser.serializer.fields,
                    inner_name,
                    path,
                    depth - 1,
                );
                Field::Serializer(
                    crate::sendtables::SerializerField {
                        serializer: Serializer { name: ser.serializer.name, fields: new_fields },
                    },
                )
            },
            Field::Pointer(ser) => {
                let inner_name = join_dot(ser_name.as_slice(), ser.serializer.name.as_slice());
                let new_fields = self.traverse_fields(
                    ser.serializer.fields,
                    inner_name,
                    path,
                    depth - 1,
                );
                Field::Pointer(
                    crate::sendtables::PointerField {
                        decoder: ser.decoder,
                        serializer: Serializer { name: ser.serializer.name, fields: new_fields },
                    },
                )
            },
            Field::Array(arr) => {
                match *arr.field_enum {
                    Field::Value(mut v) => {
                        let full_name = join_dot(ser_name.as_slice(), v.name.as_slice());
                        self.handle_prop(full_name.as_slice(), &mut v, path);
                        Field::Array(
                            crate::sendtables::ArrayField {
                                field_enum: Box::new(Field::Value(v)),
                                length: arr.length,
                            },
                        )
                    },
                    other => Field::Array(
                        crate::sendtables::ArrayField {
                            field_enum: Box::new(other),
                            length: arr.length,
                        },
                    ),
                }
            },
            Field::Vector(vec_field) => {
                let decoder = vec_field.decoder;
                match *vec_field.field_enum {
                    Field::Serializer(s) => {
                        // Leaves directly under the vector's serializer
                        // get ids with one extra path entry; the whole
                        // serializer is then walked from the vector's
                        // parent path.
                        let mut new_fields: Vec<Field> = Vec::new();
                        let mut inner_idx: usize = 0;
                        let inner = s.serializer.fields;
                        let m = inner.len();
                        while inner_idx < m
                            invariant
                                m == inner@.len(),
                                inner_idx <= m,
                                forall|id: u32|
                                    has_prop_info(old(self).prop_infos@, id) ==> has_prop_info(
                                        self.prop_infos@,
                                        id,
                                    ),
                                ctrl_wf(old(self)) ==> ctrl_wf(&self),
                                unique_ids(old(self).prop_infos@) ==> unique_ids(
                                    self.prop_infos@,
                                ),
                                unique_names(old(self).name_to_id@) ==> unique_names(
                                    self.name_to_id@,
                                ),
                            decreases m - inner_idx,
                        {
                            let g = crate::sendtables::clone_field(&inner[inner_idx], crate::sendtables::MAX_SCHEMA_DEPTH);
                            match g {
                                Field::Value(mut v) => {
                                    let mut myp = clone_path(&path);
                                    if inner_idx <= i32::MAX as usize {
                                        myp.push(inner_idx as i32);
                                    }
                                    let full_name = join_dot(
                                        ser_name.as_slice(),
                                        v.name.as_slice(),
                                    );
                                    self.handle_prop(full_name.as_slice(), &mut v, myp);
                                    new_fields.push(Field::Value(v));
                                },
                                other => {
                                    new_fields.push(other);
                                },
                            }
                            inner_idx = inner_idx + 1;
                        }
                        let inner_name = join_dot(ser_name.as_slice(), s.serializer.name.as_slice());
                        // The embedded serializer is walked from the
                        // vector's parent path, as the ids below it are
                        // addressed without the vector's own index.
                        let mut parent = clone_path(&path);
                        if parent.len() > 0 {
                            parent.pop();
                        }
                        let walked = self.traverse_fields(
                            new_fields,
                            inner_name,
                            parent,
                            depth - 1,
                        );
                        Field::Vector(
                            crate::sendtables::VectorField {
                                field_enum: Box::new(
                                    Field::Serializer(
                                        crate::sendtables::SerializerField {
                                            serializer: Serializer {
                                                name: s.serializer.name,
                                                fields: walked,
                                            },
                                        },
                                    ),
                                ),
                                decoder,
                            },
                        )
                    },
                    Field::Value(mut x) => {
                        let full_name = join_dot(ser_name.as_slice(), x.name.as_slice());
                        self.handle_prop(full_name.as_slice(), &mut x, path);
                        Field::Vector(
                            crate::sendtables::VectorField {
                                field_enum: Box::new(Field::Value(x)),
                                decoder,
                            },
                        )
                    },
                    other => Field::Vector(
                        crate::sendtables::VectorField { field_enum: Box::new(other), decoder },
                    ),
                }
            },
            Field::Unset => Field::Unset,
        }
    }
}

/// `a + "." + b` as bytes.
fn join_dot(a: &[u8], b: &[u8]) -> (r: Vec<u8>) {
    let t = bytes_concat(a, ".".as_bytes());
    bytes_concat(t.as_slice(), b)
}

/// An owned copy of an index path.
fn clone_path(p: &Vec<i32>) -> (r: Vec<i32>)
    ensures
        r@ == p@,
{
    let mut out: Vec<i32> = Vec::new();
    let mut i: usize = 0;
    while i < p.len()
        invariant
            i <= p@.len(),
            out@ == p@.take(i as int),
        decreases p@.len() - i,
    {
        out.push(p[i]);
        proof {
            assert(out@ =~= p@.take(i + 1));
        }
        i = i + 1;
    }
    proof {
        assert(p@.take(p@.len() as int) =~= p@);
    }
    out
}

} // verus!
