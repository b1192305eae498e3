//! The entity context: id-to-entity and class-id-to-class tables, and
//! decoding of one entity's delta update over its class serializer.

use crate::bitreader::Bitreader;
use crate::byteops::{bytes_eq, copy_bytes};
use crate::fieldpath::Paths;
use crate::parser::FirstPassError;
use crate::propcontroller::PropController;
use crate::qfloat::QfMapper;
use crate::sendtables::{FieldInfo, Serializer};
use crate::variant::Variant;
use vstd::prelude::*;

verus! {

/// A created entity: its class id.
#[derive(Debug, Clone, Copy, PartialEq, Eq, Structural)]
pub struct Entity {
    pub cls: u32,
}

/// A class established by the class-info frame.
#[derive(Debug)]
pub struct Class {
    pub name: Vec<u8>,
    pub serializer: Serializer,
}

/// One decoded property of an entity state.
#[derive(Debug, Clone)]
pub struct EntityProp {
    pub field_info: FieldInfo,
    pub prop_info: crate::propcontroller::PropInfo,
    pub value: Variant,
}

/// A snapshot of one entity's decoded properties.
#[derive(Debug, Clone)]
pub struct EntityState {
    pub id: i32,
    pub class: Vec<u8>,
    pub cls: u32,
    pub props: Vec<EntityProp>,
}

impl EntityState {
    /// The first decoded property carrying the given canonical name.
    pub fn get_prop(&self, name: &[u8]) -> (r: Option<&EntityProp>)
        ensures
            match r {
                Some(p) => exists|j: int|
                    ({
                        &&& 0 <= j < self.props@.len()
                        &&& *p == #[trigger] self.props@[j]
                        &&& self.props@[j].prop_info.prop_name@ == name@
                        &&& forall|k: int|
                            0 <= k < j ==> (#[trigger] self.props@[k]).prop_info.prop_name@
                                != name@
                    }),
                None => forall|j: int|
                    0 <= j < self.props@.len() ==> (#[trigger] self.props@[j]).prop_info.prop_name@
                        != name@,
            },
    {
        let mut i: usize = 0;
        while i < self.props.len()
            invariant
                i <= self.props@.len(),
                forall|k: int|
                    0 <= k < i ==> (#[trigger] self.props@[k]).prop_info.prop_name@ != name@,
            decreases self.props@.len() - i,
        {
            if bytes_eq(self.props[i].prop_info.prop_name.as_slice(), name) {
                return Some(&self.props[i]);
            }
            i = i + 1;
        }
        None
    }
}

/// Which entities are decoded into states.  Decoding always consumes
/// the update's bits; the filter only decides what is emitted.
#[derive(Debug, Clone, Copy, PartialEq, Eq, Structural)]
pub struct EntityFilter {
    pub enabled: bool,
}

impl EntityFilter {
    /// Keep every entity state.
    pub fn all() -> (r: EntityFilter)
        ensures
            r.enabled,
    {
        EntityFilter { enabled: true }
    }

    /// Skip entity decoding entirely.
    pub fn disabled() -> (r: EntityFilter)
        ensures
            !r.enabled,
    {
        EntityFilter { enabled: false }
    }

    /// Whether a class's states pass the filter.
    pub fn passes(&self, _class_name: &[u8]) -> (r: bool)
        ensures
            r == self.enabled,
    {
        self.enabled
    }
}

/// The id-to-entity and class-id-to-class tables, with the filter.
#[derive(Debug)]
pub struct EntityContext {
    pub entities: Vec<(i32, Entity)>,
    pub cls_to_class: Vec<(u32, Class)>,
    pub filter: EntityFilter,
}

/// True when `entities` holds an entry for `id`.
pub open spec fn has_entity(entities: Seq<(i32, Entity)>, id: i32) -> bool {
    exists|j: int| 0 <= j < entities.len() && (#[trigger] entities[j]).0 == id
}

/// True when some class entry carries the class id.
pub open spec fn has_class(m: Seq<(u32, Class)>, cls: u32) -> bool {
    exists|j: int| 0 <= j < m.len() && (#[trigger] m[j]).0 == cls
}

/// Every entity id occurs once.
pub open spec fn unique_entities(entities: Seq<(i32, Entity)>) -> bool {
    forall|i: int, j: int|
        0 <= i < j < entities.len() ==> (#[trigger] entities[i]).0 != (#[trigger] entities[j]).0
}

impl EntityContext {
    pub fn new(filter: EntityFilter) -> (r: EntityContext)
        ensures
            r.entities@.len() == 0,
            r.cls_to_class@.len() == 0,
            r.filter == filter,
            unique_entities(r.entities@),
    {
        EntityContext { entities: Vec::new(), cls_to_class: Vec::new(), filter }
    }

    /// The created entity with the given id, if any: the one a stored
    /// entry binds to the id, and nothing when no entry does.
    fn lookup_entity(&self, id: i32) -> (r: Option<Entity>)
        ensures
            r is Some ==> has_entity(self.entities@, id),
            r matches Some(e) ==> exists|j: int|
                0 <= j < self.entities@.len() && (#[trigger] self.entities@[j]) == (id, e),
            r is None ==> !has_entity(self.entities@, id),
    {
        let mut i: usize = 0;
        while i < self.entities.len()
            invariant
                i <= self.entities@.len(),
                forall|j: int| 0 <= j < i ==> (#[trigger] self.entities@[j]).0 != id,
            decreases self.entities@.len() - i,
        {
            if self.entities[i].0 == id {
                proof {
                    assert(self.entities@[i as int] == (id, self.entities@[i as int].1));
                }
                return Some(self.entities[i].1);
            }
            i = i + 1;
        }
        None
    }

    /// The class established for a class id, if any: the one a stored
    /// entry binds to the id, and nothing when no entry does.
    fn lookup_class(&self, cls: u32) -> (r: Option<&Class>)
        ensures
            r matches Some(c) ==> exists|j: int|
                0 <= j < self.cls_to_class@.len() && (#[trigger] self.cls_to_class@[j]) == (
                    cls,
                    *c,
                ),
            r is None ==> !has_class(self.cls_to_class@, cls),
    {
        let mut i: usize = 0;
        while i < self.cls_to_class.len()
            invariant
                i <= self.cls_to_class@.len(),
                forall|j: int| 0 <= j < i ==> (#[trigger] self.cls_to_class@[j]).0 != cls,
            decreases self.cls_to_class@.len() - i,
        {
            if self.cls_to_class[i].0 == cls {
                proof {
                    assert(self.cls_to_class@[i as int] == (cls, self.cls_to_class@[i as int].1));
                }
                return Some(&self.cls_to_class[i].1);
            }
            i = i + 1;
        }
        None
    }

    /// Removes an entity on a delete tag: the id's entries go, every
    /// other entry is kept in order.
    pub fn remove_entity(&mut self, id: i32)
        ensures
            !has_entity(final (self).entities@, id),
            forall|j: int|
                0 <= j < old(self).entities@.len() && (#[trigger] old(self).entities@[j]).0 != id
                    ==> final (self).entities@.contains(old(self).entities@[j]),
            final (self).cls_to_class@ == old(self).cls_to_class@,
            final (self).filter == old(self).filter,
    {
        let mut out: Vec<(i32, Entity)> = Vec::new();
        let mut i: usize = 0;
        let ghost before = self.entities@;
        while i < self.entities.len()
            invariant
                i <= self.entities@.len(),
                self.entities@ == before,
                !has_entity(out@, id),
                forall|j: int|
                    0 <= j < i && (#[trigger] before[j]).0 != id ==> out@.contains(before[j]),
            decreases self.entities@.len() - i,
        {
            if self.entities[i].0 != id {
                let entry = self.entities[i];
                let ghost outb = out@;
                out.push(entry);
                proof {
                    assert(out@.last() == before[i as int]);
                    assert forall|j: int|
                        0 <= j < i + 1 && (#[trigger] before[j]).0 != id implies out@.contains(
                        before[j],
                    ) by {
                        if j < i {
                            let k = choose|k: int| 0 <= k < outb.len() && outb[k] == before[j];
                            assert(out@[k] == before[j]);
                        } else {
                            assert(out@.last() == before[j]);
                        }
                    }
                }
            }
            i = i + 1;
        }
        self.entities = out;
    }

    /// Creates an entity: reads its 8-bit class id, a 17-bit serial
    /// (discarded) and a reserved varint (never interpreted), and
    /// records the entity, replacing any previous entry for the id.
    /// Returns the class id.
    pub fn create_entity(&mut self, entity_id: i32, bitreader: &mut Bitreader) -> (r: Result<
        u32,
        FirstPassError,
    >)
        requires
            old(bitreader).wf(),
        ensures
            final (bitreader).wf(),
            final (bitreader).data@ == old(bitreader).data@,
            final (bitreader).pos >= old(bitreader).pos,
            final (self).cls_to_class@ == old(self).cls_to_class@,
            final (self).filter == old(self).filter,
            r is Err ==> old(bitreader).pos + 25 + 8 * crate::varint::spec_varint_len(
                crate::bitreader::varint_bytes(old(bitreader).data@, old(bitreader).pos + 25),
            ) > old(bitreader).total_bits(),
            r matches Ok(cls) ==> {
                &&& final (bitreader).pos == old(bitreader).pos + 25 + 8
                    * crate::varint::spec_varint_len(
                    crate::bitreader::varint_bytes(old(bitreader).data@, old(bitreader).pos + 25),
                )
                &&& cls == crate::bitreader::bits_val(
                    old(bitreader).data@,
                    old(bitreader).pos as int,
                    8,
                )
                &&& exists|j: int|
                    0 <= j < final (self).entities@.len() && #[trigger] final (self).entities@[j]
                        == (entity_id, Entity { cls })
                &&& forall|j: int|
                    0 <= j < old(self).entities@.len() && (#[trigger] old(self).entities@[j]).0
                        != entity_id ==> final (self).entities@.contains(old(self).entities@[j])
                &&& forall|j: int|
                    0 <= j < final (self).entities@.len() ==> (#[trigger] final (self).entities@[j])
                        == (entity_id, Entity { cls }) || old(self).entities@.contains(
                        final (self).entities@[j],
                    )
                &&& final (self).entities@.len() <= old(self).entities@.len() + 1
                &&& unique_entities(old(self).entities@) ==> unique_entities(
                    final (self).entities@,
                )
            },
    {
        let ghost vb = crate::bitreader::varint_bytes(old(bitreader).data@, old(bitreader).pos + 25);
        proof {
            crate::varint::lemma_varint_len_from_ge(vb, 0);
        }
        let cls_id = bitreader.read_nbits(8).map_err(|e| FirstPassError::Bitreader(e))?;
        let _serial = bitreader.read_nbits(17).map_err(|e| FirstPassError::Bitreader(e))?;
        let _unknown = bitreader.read_varint().map_err(|e| FirstPassError::Bitreader(e))?;
        let entry = (entity_id, Entity { cls: cls_id });
        let ghost before = self.entities@;
        // Replace the previous entry for a re-created id.
        let mut k: usize = 0;
        let n = self.entities.len();
        let mut replaced = false;
        let ghost mut rep_idx: int = 0;
        while k < n
            invariant
                n == self.entities@.len(),
                k <= n,
                before.len() == n,
                entry.0 == entity_id,
                self.cls_to_class@ == old(self).cls_to_class@,
                self.filter == old(self).filter,
                !replaced ==> self.entities@ == before,
                !replaced ==> forall|j: int|
                    0 <= j < k ==> (#[trigger] before[j]).0 != entity_id,
                replaced ==> 0 <= rep_idx < n && before[rep_idx].0 == entity_id
                    && self.entities@ == before.update(rep_idx, entry),
            decreases n - k,
        {
            if !replaced && self.entities[k].0 == entity_id {
                self.entities[k] = entry;
                replaced = true;
                proof {
                    rep_idx = k as int;
                    assert(self.entities@ =~= before.update(k as int, entry));
                }
            }
            k = k + 1;
        }
        if !replaced {
            self.entities.push(entry);
            proof {
                assert(self.entities@[before.len() as int] == entry);
                assert forall|j: int|
                    0 <= j < before.len() && (#[trigger] before[j]).0 != entity_id implies
                self.entities@.contains(before[j]) by {
                    assert(self.entities@[j] == before[j]);
                }
                assert forall|i: int, j: int|
                    0 <= i < j < self.entities@.len() && unique_entities(before) implies (
                #[trigger] self.entities@[i]).0 != (#[trigger] self.entities@[j]).0 by {
                    if j == before.len() {
                        assert(self.entities@[i] == before[i]);
                    }
                }
            }
        } else {
            proof {
                assert(self.entities@[rep_idx] == entry);
                assert forall|j: int|
                    0 <= j < before.len() && (#[trigger] before[j]).0 != entity_id implies
                self.entities@.contains(before[j]) by {
                    assert(j != rep_idx);
                    assert(self.entities@[j] == before[j]);
                }
                assert forall|i: int, j: int|
                    0 <= i < j < self.entities@.len() && unique_entities(before) implies (
                #[trigger] self.entities@[i]).0 != (#[trigger] self.entities@[j]).0 by {
                    assert(self.entities@[i].0 == before[i].0);
                    assert(self.entities@[j].0 == before[j].0);
                }
            }
        }
        Ok(cls_id)
    }

    /// Decodes one entity update: for each of the first `n_updates`
    /// stored paths, finds the addressed field, decodes its value, and
    /// collects the known properties.  The filter is tested only after
    /// the decode loop, so a filtered-out class consumes exactly the
    /// same bits as a kept one; only the state is withheld.
    pub fn decode_entity_update(
        &mut self,
        entity_id: i32,
        bitreader: &mut Bitreader,
        n_updates: usize,
        paths: &Paths,
        qf_mapper: &QfMapper,
        prop_controller: &PropController,
    ) -> (r: Result<Option<(usize, EntityState)>, FirstPassError>)
        requires
            old(bitreader).wf(),
            n_updates <= paths.entries@.len(),
            forall|j: int| 0 <= j < n_updates ==> (#[trigger] paths.entries@[j]).wf(),
            forall|j: int| 0 <= j < qf_mapper.map@.len() ==> (#[trigger] qf_mapper.map@[j]).wf(),
        ensures
            *final (self) == *old(self),
            final (bitreader).wf(),
            final (bitreader).data@ == old(bitreader).data@,
            final (bitreader).pos >= old(bitreader).pos,
            final (self).filter == old(self).filter,
            r matches Ok(opt) ==> ((opt is None) <==> !old(self).filter.enabled),
            r matches Ok(Some((n, _))) ==> n == n_updates && final (self).filter.enabled,
            r matches Ok(Some((n, state))) ==> forall|i: int|
                0 <= i < state.props@.len() ==> crate::propcontroller::has_prop_info(
                    prop_controller.prop_infos@,
                    (#[trigger] state.props@[i]).field_info.prop_id,
                ),
            r matches Ok(Some((n, state))) ==> ({
                &&& state.id == entity_id
                &&& exists|j: int|
                    0 <= j < old(self).entities@.len() && (#[trigger] old(self).entities@[j]).0
                        == entity_id && old(self).entities@[j].1.cls == state.cls
                &&& exists|j: int|
                    0 <= j < old(self).cls_to_class@.len() && (
                    #[trigger] old(self).cls_to_class@[j]).0 == state.cls && old(
                        self,
                    ).cls_to_class@[j].1.name@ == state.class@
                &&& state.props@.len() <= n_updates
            }),
            !has_entity(old(self).entities@, entity_id) ==> (r matches Err(e) && e
                is UnknownEntity),
            (has_entity(old(self).entities@, entity_id) && (forall|j: int|
                0 <= j < old(self).entities@.len() && (#[trigger] old(self).entities@[j]).0
                    == entity_id ==> !has_class(
                    old(self).cls_to_class@,
                    old(self).entities@[j].1.cls,
                ))) ==> (r matches Err(e) && e is UnknownClass),
    {
        let entity = match self.lookup_entity(entity_id) {
            Some(e) => e,
            None => {
                return Err(FirstPassError::UnknownEntity);
            },
        };
        let class_name: Vec<u8>;
        let mut fields: Vec<EntityProp> = Vec::new();
        {
            let class = match self.lookup_class(entity.cls) {
                Some(c) => c,
                None => {
                    return Err(FirstPassError::UnknownClass);
                },
            };
            class_name = copy_bytes(class.name.as_slice());
            let path_list = paths.paths();
            let mut i: usize = 0;
            while i < n_updates
                invariant
                    bitreader.wf(),
                    bitreader.data@ == old(bitreader).data@,
                    bitreader.pos >= old(bitreader).pos,
                    i <= n_updates,
                    n_updates <= path_list@.len(),
                    forall|j: int| 0 <= j < n_updates ==> (#[trigger] path_list@[j]).wf(),
                    forall|j: int|
                        0 <= j < qf_mapper.map@.len() ==> (#[trigger] qf_mapper.map@[j]).wf(),
                    fields@.len() <= i,
                    has_entity(old(self).entities@, entity_id),
                    exists|j: int|
                        0 <= j < old(self).entities@.len() && (#[trigger] old(
                            self,
                        ).entities@[j]).0 == entity_id && has_class(
                            old(self).cls_to_class@,
                            old(self).entities@[j].1.cls,
                        ),
                    forall|k: int|
                        0 <= k < fields@.len() ==> crate::propcontroller::has_prop_info(
                            prop_controller.prop_infos@,
                            (#[trigger] fields@[k]).field_info.prop_id,
                        ),
                decreases n_updates - i,
            {
                let path = &path_list[i];
                let field = path.find(&class.serializer)?;
                let field_info = field.get_propinfo(path);
                let decoder = field.get_decoder()?;
                let result = decoder.decode(bitreader, qf_mapper)?;
                match field_info {
                    Some(fi) => {
                        match prop_controller.get_prop_info(fi.prop_id) {
                            Some(prop_info) => {
                                fields.push(
                                    EntityProp {
                                        field_info: fi,
                                        prop_info: prop_info.clone(),
                                        value: result,
                                    },
                                );
                            },
                            None => {
                                // A leaf the controller does not know is
                                // decoded but not collected.
                            },
                        }
                    },
                    None => {},
                }
                i = i + 1;
            }
        }
        if !self.filter.passes(class_name.as_slice()) {
            return Ok(None);
        }
        Ok(
            Some(
                (
                    n_updates,
                    EntityState {
                        id: entity_id,
                        class: class_name,
                        cls: entity.cls,
                        props: fields,
                    },
                ),
            ),
        )
    }
}

} // verus!
