//! The flattened-serializer schema: parsing field var-types through the
//! little `base (< generic >)? *? ([count])?` grammar, assigning each
//! field a category and a decoder, and building the per-serializer tree
//! of `Field` nodes.

use crate::byteops::{bytes_concat, bytes_eq, copy_bytes};
use crate::decoder::{find_decoder, Decoder};
use crate::fieldpath::FieldPath;
use crate::parser::FirstPassError;
use crate::protowire::{FlatFieldT, FlattenedSerializer};
use crate::qfloat::QfMapper;
use vstd::prelude::*;
use vstd::string::StringSliceAdditionalSpecFns;

verus! {

/// The deepest nesting the field-type grammar and the serializer trees
/// are followed to; streams past it are malformed.
pub const MAX_SCHEMA_DEPTH: u32 = 64;

/// A named, ordered list of field descriptors.
#[derive(Debug)]
pub struct Serializer {
    pub name: Vec<u8>,
    pub fields: Vec<Field>,
}

/// What one decoded leaf carries: its decoder, whether the controller
/// asked for it, and its (path-contextualised) property id.
#[derive(Debug, Clone, Copy)]
pub struct FieldInfo {
    pub decoder: Decoder,
    pub should_parse: bool,
    pub prop_id: u32,
}

/// One node of a serializer tree.
#[derive(Debug)]
pub enum Field {
    Array(ArrayField),
    Vector(VectorField),
    Serializer(SerializerField),
    Pointer(PointerField),
    Value(ValueField),
    Unset,
}

#[derive(Debug)]
pub struct ArrayField {
    pub field_enum: Box<Field>,
    pub length: usize,
}

#[derive(Debug)]
pub struct VectorField {
    pub field_enum: Box<Field>,
    pub decoder: Decoder,
}

#[derive(Debug, Clone)]
pub struct ValueField {
    pub decoder: Decoder,
    pub name: Vec<u8>,
    pub should_parse: bool,
    pub prop_id: u32,
    pub full_name: Vec<u8>,
}

#[derive(Debug)]
pub struct SerializerField {
    pub serializer: Serializer,
}

#[derive(Debug)]
pub struct PointerField {
    pub decoder: Decoder,
    pub serializer: Serializer,
}

impl ArrayField {
    pub fn new(field_enum: Field, length: usize) -> (r: ArrayField)
        ensures
            r.length == length,
    {
        ArrayField { field_enum: Box::new(field_enum), length }
    }
}

impl PointerField {
    /// A pointed-to game-mode-rules serializer decodes its own prefix;
    /// any other pointer is a plain existence bit.
    pub fn new(serializer: &Serializer) -> (r: PointerField)
        ensures
            r.decoder == Decoder::GameModeRulesDecoder || r.decoder == Decoder::BooleanDecoder,
            r.decoder == Decoder::GameModeRulesDecoder <==> serializer.name@
                == "CCSGameModeRules".spec_bytes(),
            r.serializer.name@ == serializer.name@,
            r.serializer.fields@.len() == serializer.fields@.len(),
    {
        let decoder = if bytes_eq(serializer.name.as_slice(), "CCSGameModeRules".as_bytes()) {
            Decoder::GameModeRulesDecoder
        } else {
            Decoder::BooleanDecoder
        };
        PointerField { serializer: clone_serializer(serializer, MAX_SCHEMA_DEPTH), decoder }
    }
}

impl SerializerField {
    pub fn new(serializer: &Serializer) -> (r: SerializerField)
        ensures
            r.serializer.name@ == serializer.name@,
            r.serializer.fields@.len() == serializer.fields@.len(),
    {
        SerializerField { serializer: clone_serializer(serializer, MAX_SCHEMA_DEPTH) }
    }
}

impl ValueField {
    pub fn new(decoder: Decoder, name: &[u8]) -> (r: ValueField)
        ensures
            r.decoder == decoder,
            r.name@ == name@,
            r.should_parse,
            r.prop_id == 0,
    {
        ValueField {
            decoder,
            name: copy_bytes(name),
            prop_id: 0,
            should_parse: true,
            full_name: bytes_concat("CWorld.".as_bytes(), name),
        }
    }
}

impl VectorField {
    pub fn new(field_enum: Field) -> (r: VectorField)
        ensures
            r.decoder == Decoder::UnsignedDecoder,
    {
        VectorField { field_enum: Box::new(field_enum), decoder: Decoder::UnsignedDecoder }
    }
}

/// A parsed field var-type.
#[derive(Debug)]
pub struct FieldType {
    pub base_type: Vec<u8>,
    pub generic_type: Option<Box<FieldType>>,
    pub pointer: bool,
    pub count: Option<i32>,
    pub element_type: Option<Box<FieldType>>,
}

/// Category a field falls in, decided in priority order.
#[derive(Debug, Clone, Copy, PartialEq, Eq, Structural)]
pub enum FieldCategory {
    Pointer,
    Vector,
    Array,
    Value,
}

/// The raw descriptor a schema field is built from; the float bounds
/// keep their bit patterns.
#[derive(Debug)]
pub struct ConstructorField {
    pub var_name: Vec<u8>,
    pub var_type: Vec<u8>,
    pub send_node: Vec<u8>,
    pub serializer_name: Option<Vec<u8>>,
    pub encoder: Vec<u8>,
    pub encode_flags: i32,
    pub bitcount: i32,
    pub low_value: u32,
    pub high_value: u32,
    pub field_type: FieldType,
    pub decoder: Decoder,
    pub category: FieldCategory,
    pub field_enum_type: Option<Field>,
}


/// Structural copy of a field type, followed to the schema depth cap.
pub fn clone_field_type(ft: &FieldType, depth: u32) -> (r: FieldType)
    decreases depth,
{
    if depth == 0 {
        return FieldType {
            base_type: copy_bytes(ft.base_type.as_slice()),
            generic_type: None,
            pointer: ft.pointer,
            count: ft.count,
            element_type: None,
        };
    }
    FieldType {
        base_type: copy_bytes(ft.base_type.as_slice()),
        generic_type: match &ft.generic_type {
            Some(g) => Some(Box::new(clone_field_type(g, depth - 1))),
            None => None,
        },
        pointer: ft.pointer,
        count: ft.count,
        element_type: match &ft.element_type {
            Some(g) => Some(Box::new(clone_field_type(g, depth - 1))),
            None => None,
        },
    }
}

/// Structural copy of a value leaf.
pub fn clone_value_field(v: &ValueField) -> (r: ValueField)
    ensures
        r.decoder == v.decoder,
        r.name@ == v.name@,
        r.should_parse == v.should_parse,
        r.prop_id == v.prop_id,
        r.full_name@ == v.full_name@,
{
    ValueField {
        decoder: v.decoder,
        name: copy_bytes(v.name.as_slice()),
        should_parse: v.should_parse,
        prop_id: v.prop_id,
        full_name: copy_bytes(v.full_name.as_slice()),
    }
}

/// The walked or copied node keeps its variant and its head data: a
/// leaf's name and decoder, an embedded or pointed-to serializer's
/// name, an array's length, a vector's decoder.
pub open spec fn field_mirrors(r: Field, f: Field) -> bool {
    match f {
        Field::Value(v) => (r matches Field::Value(rv) && rv.name@ == v.name@ && rv.decoder
            == v.decoder),
        Field::Serializer(sf) => (r matches Field::Serializer(rs) && rs.serializer.name@
            == sf.serializer.name@),
        Field::Pointer(pf) => (r matches Field::Pointer(rp) && rp.serializer.name@
            == pf.serializer.name@ && rp.decoder == pf.decoder),
        Field::Array(a) => (r matches Field::Array(ra) && ra.length == a.length),
        Field::Vector(v) => (r matches Field::Vector(rv) && rv.decoder == v.decoder),
        Field::Unset => r is Unset,
    }
}

/// Structural copy of a tree node, followed to the schema depth cap;
/// nodes past the cap copy as unset.
pub fn clone_field(f: &Field, depth: u32) -> (r: Field)
    ensures
        depth > 0 ==> field_mirrors(r, *f),
    decreases depth,
{
    if depth == 0 {
        return Field::Unset;
    }
    match f {
        Field::Array(a) => Field::Array(
            ArrayField { field_enum: Box::new(clone_field(&a.field_enum, depth - 1)), length: a.length },
        ),
        Field::Vector(v) => Field::Vector(
            VectorField {
                field_enum: Box::new(clone_field(&v.field_enum, depth - 1)),
                decoder: v.decoder,
            },
        ),
        Field::Serializer(sf) => Field::Serializer(
            SerializerField { serializer: clone_serializer(&sf.serializer, depth - 1) },
        ),
        Field::Pointer(pf) => Field::Pointer(
            PointerField {
                decoder: pf.decoder,
                serializer: clone_serializer(&pf.serializer, depth - 1),
            },
        ),
        Field::Value(v) => Field::Value(clone_value_field(v)),
        Field::Unset => Field::Unset,
    }
}

/// Structural copy of a serializer, followed to the schema depth cap:
/// the name is kept, and so is the field count while depth remains.
pub fn clone_serializer(s: &Serializer, depth: u32) -> (r: Serializer)
    ensures
        r.name@ == s.name@,
        depth > 0 ==> r.fields@.len() == s.fields@.len(),
        depth == 0 ==> r.fields@.len() == 0,
    decreases depth,
{
    let mut fields: Vec<Field> = Vec::new();
    if depth > 0 {
        let mut i: usize = 0;
        while i < s.fields.len()
            invariant
                i <= s.fields@.len(),
                fields@.len() == i,
                depth > 0,
            decreases s.fields@.len() - i,
        {
            fields.push(clone_field(&s.fields[i], depth - 1));
            i = i + 1;
        }
    }
    Serializer { name: copy_bytes(s.name.as_slice()), fields }
}

/// Structural copy of a raw constructor field.
pub fn clone_constructor_field(f: &ConstructorField) -> (r: ConstructorField) {
    ConstructorField {
        var_name: copy_bytes(f.var_name.as_slice()),
        var_type: copy_bytes(f.var_type.as_slice()),
        send_node: copy_bytes(f.send_node.as_slice()),
        serializer_name: match &f.serializer_name {
            Some(n) => Some(copy_bytes(n.as_slice())),
            None => None,
        },
        encoder: copy_bytes(f.encoder.as_slice()),
        encode_flags: f.encode_flags,
        bitcount: f.bitcount,
        low_value: f.low_value,
        high_value: f.high_value,
        field_type: clone_field_type(&f.field_type, MAX_SCHEMA_DEPTH),
        decoder: f.decoder,
        category: f.category,
        field_enum_type: match &f.field_enum_type {
            Some(fe) => Some(clone_field(fe, MAX_SCHEMA_DEPTH)),
            None => None,
        },
    }
}

/// True when the base-type name is one of the component types that are
/// pointers without writing `*`.
fn is_pointer_basetype(name: &[u8]) -> (r: bool) {
    bytes_eq(name, "CBodyComponent".as_bytes()) || bytes_eq(name, "CLightComponent".as_bytes()) || bytes_eq(
        name,
        "CPhysicsComponent".as_bytes(),
    ) || bytes_eq(name, "CRenderComponent".as_bytes()) || bytes_eq(name, "CPlayerLocalData".as_bytes())
}

/// Parses a var-type string through the grammar
/// `base (< generic >)? *? ([count])?`; the generic part is the
/// greedy middle between the first `< ` and the last ` >`.
pub fn find_field_type(
    name: &[u8],
    field_type_map: &mut Vec<(Vec<u8>, FieldType)>,
    depth: u32,
) -> (r: Result<FieldType, FirstPassError>)
    decreases depth,
{
    if depth == 0 {
        return Err(FirstPassError::MalformedSchema);
    }
    // Base: the longest prefix free of '<', '[' and '*'.
    let mut base_end: usize = 0;
    while base_end < name.len() && name[base_end] != 60 && name[base_end] != 91 && name[base_end]
        != 42
        invariant
            base_end <= name@.len(),
        decreases name@.len() - base_end,
    {
        base_end = base_end + 1;
    }
    if base_end == 0 {
        return Err(FirstPassError::MalformedSchema);
    }
    let base_type = copy_bytes(vstd::slice::slice_subrange(name, 0, base_end));
    let mut generic_type: Option<Box<FieldType>> = None;
    let mut cursor: usize = base_end;
    if cursor < name.len() && name[cursor] == 60 {
        // Find the last '>' of the string.
        let mut last_gt: usize = 0;
        let mut found = false;
        let mut k: usize = cursor;
        while k < name.len()
            invariant
                cursor <= k <= name@.len(),
                found ==> cursor <= last_gt < name@.len(),
            decreases name@.len() - k,
        {
            if name[k] == 62 {
                last_gt = k;
                found = true;
            }
            k = k + 1;
        }
        if !found || last_gt - cursor < 3 {
            return Err(FirstPassError::MalformedSchema);
        }
        // Strip "< " and " >".
        let inner = vstd::slice::slice_subrange(name, cursor + 2, last_gt - 1);
        let inner_ft = find_field_type(inner, field_type_map, depth - 1)?;
        generic_type = Some(Box::new(inner_ft));
        cursor = last_gt + 1;
    }
    let mut pointer = false;
    if cursor < name.len() && name[cursor] == 42 {
        pointer = true;
        cursor = cursor + 1;
    } else {
        pointer = is_pointer_basetype(name);
    }
    let mut count: Option<i32> = None;
    if cursor < name.len() && name[cursor] == 91 {
        let mut value: i32 = 0;
        let mut k = cursor + 1;
        while k < name.len() && name[k] != 93
            invariant
                cursor < k <= name@.len(),
                0 <= value,
            decreases name@.len() - k,
        {
            let c = name[k];
            if 48 <= c && c <= 57 {
                if value <= 21474835 {
                    value = value * 10 + (c - 48) as i32;
                } else {
                    value = 0;
                }
            } else {
                // A non-numeric count falls back to zero.
                value = 0;
                k = name.len();
                continue ;
            }
            k = k + 1;
        }
        count = Some(value);
    }
    let mut ft = FieldType { base_type, pointer, count, generic_type, element_type: None };
    if ft.count.is_some() {
        let ft_string = field_type_to_string(&ft, true);
        let elem = for_string(field_type_map, ft_string, depth - 1)?;
        ft.element_type = Some(Box::new(elem));
    }
    Ok(ft)
}

/// Renders a field type back to a string key, optionally without its
/// count part.
pub fn field_type_to_string(ft: &FieldType, omit_count: bool) -> (r: Vec<u8>)
    decreases *ft,
{
    let mut s = copy_bytes(ft.base_type.as_slice());
    match &ft.generic_type {
        Some(gt) => {
            let inner = field_type_to_string(gt, true);
            let mut t = bytes_concat(s.as_slice(), "< ".as_bytes());
            t = bytes_concat(t.as_slice(), inner.as_slice());
            s = bytes_concat(t.as_slice(), "< ".as_bytes());
        },
        None => {},
    }
    if ft.pointer {
        s = bytes_concat(s.as_slice(), "*".as_bytes());
    }
    if !omit_count {
        match ft.count {
            Some(c) => {
                s = bytes_concat(s.as_slice(), "[".as_bytes());
                let digits = render_i32(c);
                s = bytes_concat(s.as_slice(), digits.as_slice());
                s = bytes_concat(s.as_slice(), "]".as_bytes());
            },
            None => {},
        }
    }
    s
}

/// Decimal rendering of a 32-bit signed value.
fn render_i32(v: i32) -> (r: Vec<u8>) {
    let mut out: Vec<u8> = Vec::new();
    if v == 0 {
        out.push(48);
        return out;
    }
    let mut n: u64 = if v < 0 {
        out.push(45);
        (-(v as i64)) as u64
    } else {
        v as u64
    };
    let mut digits: Vec<u8> = Vec::new();
    while n > 0
        invariant
            digits@.len() <= 20,
            n <= 0x8000_0000,
        decreases n,
    {
        if digits.len() < 20 {
            digits.push((n % 10) as u8 + 48);
        }
        n = n / 10;
    }
    let mut i = digits.len();
    while i > 0
        invariant
            i <= digits@.len(),
        decreases i,
    {
        i = i - 1;
        out.push(digits[i]);
    }
    out
}

/// Looks a rendered type up in the cache, parsing and caching it on a
/// miss.
pub fn for_string(
    field_type_map: &mut Vec<(Vec<u8>, FieldType)>,
    field_type_string: Vec<u8>,
    depth: u32,
) -> (r: Result<FieldType, FirstPassError>)
    decreases depth,
{
    if depth == 0 {
        return Err(FirstPassError::MalformedSchema);
    }
    let mut i: usize = 0;
    while i < field_type_map.len()
        invariant
            i <= field_type_map@.len(),
        decreases field_type_map@.len() - i,
    {
        if bytes_eq(field_type_map[i].0.as_slice(), field_type_string.as_slice()) {
            let ft = clone_field_type(&field_type_map[i].1, MAX_SCHEMA_DEPTH);
            return Ok(ft);
        }
        i = i + 1;
    }
    let result = find_field_type(field_type_string.as_slice(), field_type_map, depth - 1)?;
    field_type_map.push((field_type_string, clone_field_type(&result, MAX_SCHEMA_DEPTH)));
    Ok(result)
}

/// Builds the raw constructor field from one descriptor, resolving its
/// symbol references.
pub fn field_from_msg(
    field: &FlatFieldT,
    msg: &FlattenedSerializer,
    ft: FieldType,
) -> (r: Result<ConstructorField, FirstPassError>) {
    let ser_name: Option<Vec<u8>> = match field.field_serializer_name_sym {
        Some(idx) => {
            if idx < 0 || (idx as usize) >= msg.symbols.len() {
                return Err(FirstPassError::MalformedSchema);
            }
            Some(copy_bytes(msg.symbols[idx as usize].as_slice()))
        },
        None => None,
    };
    let enc_name: Vec<u8> = match field.var_encoder_sym {
        Some(idx) => {
            if idx < 0 || (idx as usize) >= msg.symbols.len() {
                return Err(FirstPassError::MalformedSchema);
            }
            copy_bytes(msg.symbols[idx as usize].as_slice())
        },
        None => Vec::new(),
    };
    if field.var_name_sym < 0 || (field.var_name_sym as usize) >= msg.symbols.len() {
        return Err(FirstPassError::MalformedSchema);
    }
    let var_name = copy_bytes(msg.symbols[field.var_name_sym as usize].as_slice());
    if field.var_type_sym < 0 || (field.var_type_sym as usize) >= msg.symbols.len() {
        return Err(FirstPassError::MalformedSchema);
    }
    let var_type = copy_bytes(msg.symbols[field.var_type_sym as usize].as_slice());
    if field.send_node_sym < 0 || (field.send_node_sym as usize) >= msg.symbols.len() {
        return Err(FirstPassError::MalformedSchema);
    }
    let send_node = copy_bytes(msg.symbols[field.send_node_sym as usize].as_slice());
    Ok(
        ConstructorField {
            field_enum_type: None,
            bitcount: field.bit_count,
            var_name,
            var_type,
            send_node,
            serializer_name: ser_name,
            encoder: enc_name,
            encode_flags: field.encode_flags,
            low_value: match field.low_value_bits {
                Some(b) => b,
                None => 0,
            },
            high_value: match field.high_value_bits {
                Some(b) => b,
                None => crate::softfloat::F32_ONE,
            },
            field_type: ft,
            decoder: Decoder::BaseDecoder,
            category: FieldCategory::Value,
        },
    )
}

impl ConstructorField {
    /// Pointer fields: an explicit `*`, or one of the component types.
    pub fn is_pointer(&self) -> (r: bool) {
        if self.field_type.pointer {
            return true;
        }
        is_pointer_basetype(self.field_type.base_type.as_slice())
    }

    /// Array fields: a count on anything but a char string.
    pub fn is_array(&self) -> (r: bool) {
        match self.field_type.count {
            Some(_) => !bytes_eq(self.field_type.base_type.as_slice(), "char".as_bytes()),
            None => false,
        }
    }

    /// Vector fields: a named serializer, or one of the vector types.
    pub fn is_vector(&self) -> (r: bool) {
        if self.serializer_name.is_some() {
            return true;
        }
        bytes_eq(self.field_type.base_type.as_slice(), "CUtlVector".as_bytes()) || bytes_eq(
            self.field_type.base_type.as_slice(),
            "CNetworkUtlVectorBase".as_bytes(),
        )
    }
}

/// The category, in priority order: pointer, vector, array, value.
pub fn find_category(field: &ConstructorField) -> (r: FieldCategory) {
    if field.is_pointer() {
        FieldCategory::Pointer
    } else if field.is_vector() {
        FieldCategory::Vector
    } else if field.is_array() {
        FieldCategory::Array
    } else {
        FieldCategory::Value
    }
}

/// Builds the raw field data for one descriptor: type, category,
/// decoder, and the fixed per-name decoder overrides.
pub fn generate_field_data(
    field: &FlatFieldT,
    msg: &FlattenedSerializer,
    field_type_map: &mut Vec<(Vec<u8>, FieldType)>,
    qf_mapper: &mut QfMapper,
) -> (r: Result<ConstructorField, FirstPassError>)
    ensures
        forall|j: int|
            0 <= j < old(qf_mapper).map@.len() ==> final (qf_mapper).map@[j] == old(
                qf_mapper,
            ).map@[j],
        final (qf_mapper).map@.len() >= old(qf_mapper).map@.len(),
        forall|j: int|
            old(qf_mapper).map@.len() <= j < final (qf_mapper).map@.len() ==> (#[trigger] final (qf_mapper).map@[j]).wf(),
{
    if field.var_type_sym < 0 || (field.var_type_sym as usize) >= msg.symbols.len() {
        return Err(FirstPassError::MalformedSchema);
    }
    let name = msg.symbols[field.var_type_sym as usize].as_slice();
    let ft = find_field_type(name, field_type_map, MAX_SCHEMA_DEPTH)?;
    let mut f = field_from_msg(field, msg, clone_field_type(&ft, MAX_SCHEMA_DEPTH))?;
    f.category = find_category(&f);
    f.decoder = find_decoder(&f, qf_mapper);
    if bytes_eq(f.var_name.as_slice(), "m_PredFloatVariables".as_bytes()) || bytes_eq(
        f.var_name.as_slice(),
        "m_OwnerOnlyPredNetFloatVariables".as_bytes(),
    ) {
        f.decoder = Decoder::NoscaleDecoder;
    } else if bytes_eq(f.var_name.as_slice(), "m_OwnerOnlyPredNetVectorVariables".as_bytes()) || bytes_eq(
        f.var_name.as_slice(),
        "m_PredVectorVariables".as_bytes(),
    ) {
        f.decoder = Decoder::VectorNoscaleDecoder;
    } else if bytes_eq(f.var_name.as_slice(), "m_pGameModeRules".as_bytes()) {
        f.decoder = Decoder::GameModeRulesDecoder;
    }
    if bytes_eq(f.encoder.as_slice(), "qangle_precise".as_bytes()) {
        f.decoder = Decoder::QanglePresDecoder;
    }
    f.field_type = ft;
    Ok(f)
}

/// Resolves one field slot into a tree node: a named serializer becomes
/// a pointer or embedded serializer, anything else a value leaf; the
/// category wraps it in an array or vector.
pub fn create_field(fd: &mut ConstructorField, serializers: &Vec<(Vec<u8>, Serializer)>) -> (r:
    Result<Field, FirstPassError>) {
    let element_field: Field = match &fd.serializer_name {
        Some(name) => {
            let mut found: Option<usize> = None;
            let mut i: usize = 0;
            while i < serializers.len()
                invariant
                    i <= serializers@.len(),
                    found matches Some(k) ==> k < serializers@.len(),
                decreases serializers@.len() - i,
            {
                if bytes_eq(serializers[i].0.as_slice(), name.as_slice()) {
                    found = Some(i);
                }
                i = i + 1;
            }
            match found {
                Some(k) => {
                    let ser = &serializers[k].1;
                    if fd.category == FieldCategory::Pointer {
                        Field::Pointer(PointerField::new(ser))
                    } else {
                        Field::Serializer(SerializerField::new(ser))
                    }
                },
                None => {
                    return Err(FirstPassError::MalformedSchema);
                },
            }
        },
        None => Field::Value(ValueField::new(fd.decoder, fd.var_name.as_slice())),
    };
    match fd.category {
        FieldCategory::Array => {
            let length: usize = match fd.field_type.count {
                Some(c) => {
                    if c >= 0 {
                        c as usize
                    } else {
                        0
                    }
                },
                None => 0,
            };
            Ok(Field::Array(ArrayField::new(element_field, length)))
        },
        FieldCategory::Vector => Ok(Field::Vector(VectorField::new(element_field))),
        _ => Ok(element_field),
    }
}

/// Builds one serializer: resolves each referenced field index, creating
/// its tree node on first use.
pub fn generate_serializer(
    serializer: &crate::protowire::FlatSerializerT,
    field_data: &mut Vec<Option<ConstructorField>>,
    msg: &FlattenedSerializer,
    serializers: &Vec<(Vec<u8>, Serializer)>,
) -> (r: Result<Serializer, FirstPassError>) {
    if serializer.serializer_name_sym < 0 || (serializer.serializer_name_sym as usize)
        >= msg.symbols.len() {
        return Err(FirstPassError::MalformedSchema);
    }
    let name = copy_bytes(msg.symbols[serializer.serializer_name_sym as usize].as_slice());
    let mut fields_this_ser: Vec<Field> = Vec::new();
    let mut idx: usize = 0;
    while idx < serializer.fields_index.len()
        invariant
            idx <= serializer.fields_index@.len(),
        decreases serializer.fields_index@.len() - idx,
    {
        let fi = serializer.fields_index[idx];
        if fi < 0 || (fi as usize) >= field_data.len() {
            fields_this_ser.push(Field::Unset);
            idx = idx + 1;
            continue ;
        }
        let needs_build = match &field_data[fi as usize] {
            Some(f) => f.field_enum_type.is_none(),
            None => false,
        };
        if needs_build {
            let mut taken = match &field_data[fi as usize] {
                Some(f) => clone_constructor_field(f),
                None => {
                    return Err(FirstPassError::MalformedSchema);
                },
            };
            let built = create_field(&mut taken, serializers)?;
            taken.field_enum_type = Some(built);
            field_data[fi as usize] = Some(taken);
        }
        match &field_data[fi as usize] {
            Some(f) => {
                match &f.field_enum_type {
                    Some(field) => {
                        fields_this_ser.push(clone_field(field, MAX_SCHEMA_DEPTH));
                    },
                    None => {
                        fields_this_ser.push(Field::Unset);
                    },
                }
            },
            None => {
                fields_this_ser.push(Field::Unset);
            },
        }
        idx = idx + 1;
    }
    Ok(Serializer { name, fields: fields_this_ser })
}

/// Builds every named serializer of a flattened-serializer message,
/// assigning property ids through the controller as each tree is
/// finished.
pub fn get_serializers(
    msg: &FlattenedSerializer,
    qf_mapper: &mut QfMapper,
    prop_controller: &mut crate::propcontroller::PropController,
) -> (r: Result<Vec<(Vec<u8>, Serializer)>, FirstPassError>)
    ensures
        forall|j: int|
            0 <= j < old(qf_mapper).map@.len() ==> final (qf_mapper).map@[j] == old(
                qf_mapper,
            ).map@[j],
        final (qf_mapper).map@.len() >= old(qf_mapper).map@.len(),
        forall|j: int|
            old(qf_mapper).map@.len() <= j < final (qf_mapper).map@.len() ==> (#[trigger] final (qf_mapper).map@[j]).wf(),
        crate::propcontroller::ctrl_wf(old(prop_controller)) ==> crate::propcontroller::ctrl_wf(
            final (prop_controller),
        ),
        r matches Ok(v) ==> v@.len() == msg.serializers@.len(),
        r matches Ok(v) ==> forall|k: int|
            0 <= k < v@.len() ==> (#[trigger] v@[k]).0@ == v@[k].1.name@,
        r matches Ok(v) ==> forall|k: int|
            0 <= k < v@.len() ==> crate::propcontroller::fields_walked_ok(
                (#[trigger] v@[k]).1.fields@,
                final (prop_controller).prop_infos@,
                crate::propcontroller::MAX_TRAVERSE_DEPTH as int,
            ),
{
    let mut fields: Vec<Option<ConstructorField>> = Vec::new();
    let mut field_type_map: Vec<(Vec<u8>, FieldType)> = Vec::new();
    let mut serializers: Vec<(Vec<u8>, Serializer)> = Vec::new();
    let mut i: usize = 0;
    while i < msg.fields.len()
        invariant
            i <= msg.fields@.len(),
            forall|j: int|
                0 <= j < old(qf_mapper).map@.len() ==> qf_mapper.map@[j] == old(
                    qf_mapper,
                ).map@[j],
            qf_mapper.map@.len() >= old(qf_mapper).map@.len(),
            forall|j: int|
                old(qf_mapper).map@.len() <= j < qf_mapper.map@.len() ==> (
                #[trigger] qf_mapper.map@[j]).wf(),
        decreases msg.fields@.len() - i,
    {
        let fd = generate_field_data(&msg.fields[i], msg, &mut field_type_map, qf_mapper)?;
        fields.push(Some(fd));
        i = i + 1;
    }
    let mut s: usize = 0;
    while s < msg.serializers.len()
        invariant
            s <= msg.serializers@.len(),
            serializers@.len() == s,
            forall|j: int|
                0 <= j < old(qf_mapper).map@.len() ==> qf_mapper.map@[j] == old(
                    qf_mapper,
                ).map@[j],
            qf_mapper.map@.len() >= old(qf_mapper).map@.len(),
            forall|j: int|
                old(qf_mapper).map@.len() <= j < qf_mapper.map@.len() ==> (
                #[trigger] qf_mapper.map@[j]).wf(),
            crate::propcontroller::ctrl_wf(old(prop_controller))
                ==> crate::propcontroller::ctrl_wf(prop_controller),
            forall|k: int|
                0 <= k < serializers@.len() ==> (#[trigger] serializers@[k]).0@
                    == serializers@[k].1.name@,
            forall|k: int|
                0 <= k < serializers@.len() ==> crate::propcontroller::fields_walked_ok(
                    (#[trigger] serializers@[k]).1.fields@,
                    prop_controller.prop_infos@,
                    crate::propcontroller::MAX_TRAVERSE_DEPTH as int,
                ),
            forall|id: u32|
                crate::propcontroller::has_prop_info(old(prop_controller).prop_infos@, id)
                    ==> crate::propcontroller::has_prop_info(prop_controller.prop_infos@, id),
        decreases msg.serializers@.len() - s,
    {
        let ser = generate_serializer(&msg.serializers[s], &mut fields, msg, &serializers)?;
        let ghost infos_prev = prop_controller.prop_infos@;
        let ser = prop_controller.find_prop_name_paths(ser);
        proof {
            assert forall|k: int| 0 <= k < serializers@.len() implies
            crate::propcontroller::fields_walked_ok(
                (#[trigger] serializers@[k]).1.fields@,
                prop_controller.prop_infos@,
                crate::propcontroller::MAX_TRAVERSE_DEPTH as int,
            ) by {
                crate::propcontroller::lemma_fields_walked_ok_mono(
                    serializers@[k].1.fields@,
                    infos_prev,
                    prop_controller.prop_infos@,
                    crate::propcontroller::MAX_TRAVERSE_DEPTH as int,
                );
            }
        }
        let key = copy_bytes(ser.name.as_slice());
        serializers.push((key, ser));
        s = s + 1;
    }
    Ok(serializers)
}

/// Wrapping 32-bit sum, as the id contextualisation is defined on the
/// full ring.
pub open spec fn wrap32(a: u32, b: u32) -> u32 {
    ((a + b) % 0x1_0000_0000) as u32
}

/// The path-contextualised property id: the weapon-list id moves by the
/// third path entry, the skin id by the second, and each reserved
/// purchase-group id by the third when the second entry is not one.
pub open spec fn spec_contextualise(base: u32, fp: FieldPath) -> u32 {
    let p1 = fp.path@[1] as u32;
    let p2 = fp.path@[2] as u32;
    let id1 = if base == crate::propcontroller::MY_WEAPONS_OFFSET && fp.last != 1 {
        wrap32(crate::propcontroller::MY_WEAPONS_OFFSET, wrap32(p2, 1))
    } else {
        base
    };
    let id2 = if id1 == crate::propcontroller::WEAPON_SKIN_ID {
        wrap32(crate::propcontroller::WEAPON_SKIN_ID, p1)
    } else {
        id1
    };
    if fp.path@[1] != 1 {
        let id3 = if id2 >= crate::propcontroller::ITEM_PURCHASE_COUNT && id2
            < crate::propcontroller::ITEM_PURCHASE_COUNT
            + crate::propcontroller::FLATTENED_VEC_MAX_LEN {
            wrap32(crate::propcontroller::ITEM_PURCHASE_COUNT, p2)
        } else {
            id2
        };
        let id4 = if id3 >= crate::propcontroller::ITEM_PURCHASE_DEF_IDX && id3
            < crate::propcontroller::ITEM_PURCHASE_DEF_IDX
            + crate::propcontroller::FLATTENED_VEC_MAX_LEN {
            wrap32(crate::propcontroller::ITEM_PURCHASE_DEF_IDX, p2)
        } else {
            id3
        };
        let id5 = if id4 >= crate::propcontroller::ITEM_PURCHASE_COST && id4
            < crate::propcontroller::ITEM_PURCHASE_COST
            + crate::propcontroller::FLATTENED_VEC_MAX_LEN {
            wrap32(crate::propcontroller::ITEM_PURCHASE_COST, p2)
        } else {
            id4
        };
        let id6 = if id5 >= crate::propcontroller::ITEM_PURCHASE_HANDLE && id5
            < crate::propcontroller::ITEM_PURCHASE_HANDLE
            + crate::propcontroller::FLATTENED_VEC_MAX_LEN {
            wrap32(crate::propcontroller::ITEM_PURCHASE_HANDLE, p2)
        } else {
            id5
        };
        if id6 >= crate::propcontroller::ITEM_PURCHASE_NEW_DEF_IDX && id6
            < crate::propcontroller::ITEM_PURCHASE_NEW_DEF_IDX
            + crate::propcontroller::FLATTENED_VEC_MAX_LEN {
            wrap32(crate::propcontroller::ITEM_PURCHASE_NEW_DEF_IDX, p2)
        } else {
            id6
        }
    } else {
        id2
    }
}

/// The child a node exposes at `idx`: the single element of an array
/// or vector, or the indexed field of an embedded or pointed-to
/// serializer; leaves expose none.
pub open spec fn spec_get_inner(f: Field, idx: int) -> Option<Field> {
    match f {
        Field::Array(a) => Some(*a.field_enum),
        Field::Vector(v) => Some(*v.field_enum),
        Field::Serializer(sf) => if 0 <= idx < sf.serializer.fields@.len() {
            Some(sf.serializer.fields@[idx])
        } else {
            None
        },
        Field::Pointer(pf) => if 0 <= idx < pf.serializer.fields@.len() {
            Some(pf.serializer.fields@[idx])
        } else {
            None
        },
        Field::Value(_) => None,
        Field::Unset => None,
    }
}

/// Following a path from `f` through entries `k ..= last`.
pub open spec fn spec_find_from(f: Field, fp: FieldPath, k: int) -> Option<Field>
    decreases 7 - k,
{
    if k > fp.last || k >= 7 {
        Some(f)
    } else if fp.path@[k] < 0 {
        None
    } else {
        match spec_get_inner(f, fp.path@[k] as int) {
            Some(g) => spec_find_from(g, fp, k + 1),
            None => None,
        }
    }
}

/// The node a path addresses in a serializer tree, when every entry is
/// in range.
pub open spec fn spec_find(ser: Serializer, fp: FieldPath) -> Option<Field> {
    if 0 <= fp.path@[0] < ser.fields@.len() {
        spec_find_from(ser.fields@[fp.path@[0] as int], fp, 1)
    } else {
        None
    }
}

impl Field {
    /// The child at `idx`: the single element of an array or vector,
    /// or the indexed field of an embedded or pointed-to serializer.
    pub fn get_inner(&self, idx: usize) -> (r: Result<&Field, FirstPassError>)
        ensures
            match r {
                Ok(f) => spec_get_inner(*self, idx as int) == Some(*f),
                Err(_) => spec_get_inner(*self, idx as int) is None,
            },
    {
        match self {
            Field::Array(inner) => Ok(&inner.field_enum),
            Field::Vector(inner) => Ok(&inner.field_enum),
            Field::Serializer(inner) => {
                if idx < inner.serializer.fields.len() {
                    Ok(&inner.serializer.fields[idx])
                } else {
                    Err(FirstPassError::MissingField)
                }
            },
            Field::Pointer(inner) => {
                if idx < inner.serializer.fields.len() {
                    Ok(&inner.serializer.fields[idx])
                } else {
                    Err(FirstPassError::MissingField)
                }
            },
            Field::Value(_) => Err(FirstPassError::MissingField),
            Field::Unset => Err(FirstPassError::MissingField),
        }
    }

    /// The field-info of a leaf (or of a vector over leaves), with the
    /// reserved property-id ranges contextualised by the path.
    pub fn get_propinfo(&self, path: &FieldPath) -> (r: Option<FieldInfo>)
        ensures
            self matches Field::Value(v) ==> r == Some(
                FieldInfo {
                    decoder: v.decoder,
                    should_parse: v.should_parse,
                    prop_id: spec_contextualise(v.prop_id, *path),
                },
            ),
            self matches Field::Vector(vf) ==> ((*vf.field_enum matches Field::Value(iv) ==> r
                == Some(
                FieldInfo {
                    decoder: vf.decoder,
                    should_parse: iv.should_parse,
                    prop_id: spec_contextualise(iv.prop_id, *path),
                },
            )) && (!(*vf.field_enum is Value) ==> r is None)),
            !(self is Value || self is Vector) ==> r is None,
    {
        let mut fi: FieldInfo = match self {
            Field::Value(v) => FieldInfo {
                decoder: v.decoder,
                should_parse: v.should_parse,
                prop_id: v.prop_id,
            },
            Field::Vector(v) => {
                match self.get_inner(0) {
                    Ok(inner) => match inner {
                        Field::Value(iv) => FieldInfo {
                            decoder: v.decoder,
                            prop_id: iv.prop_id,
                            should_parse: iv.should_parse,
                        },
                        _ => {
                            return None;
                        },
                    },
                    Err(_) => {
                        return None;
                    },
                }
            },
            _ => {
                return None;
            },
        };
        let p1 = path.path[1] as u32;
        let p2 = path.path[2] as u32;
        if fi.prop_id == crate::propcontroller::MY_WEAPONS_OFFSET {
            if path.last != 1 {
                fi.prop_id = u32_wrap_add(
                    crate::propcontroller::MY_WEAPONS_OFFSET,
                    u32_wrap_add(p2, 1),
                );
            }
        }
        if fi.prop_id == crate::propcontroller::WEAPON_SKIN_ID {
            fi.prop_id = u32_wrap_add(crate::propcontroller::WEAPON_SKIN_ID, p1);
        }
        if path.path[1] != 1 {
            if fi.prop_id >= crate::propcontroller::ITEM_PURCHASE_COUNT && fi.prop_id
                < crate::propcontroller::ITEM_PURCHASE_COUNT
                + crate::propcontroller::FLATTENED_VEC_MAX_LEN {
                fi.prop_id = u32_wrap_add(crate::propcontroller::ITEM_PURCHASE_COUNT, p2);
            }
            if fi.prop_id >= crate::propcontroller::ITEM_PURCHASE_DEF_IDX && fi.prop_id
                < crate::propcontroller::ITEM_PURCHASE_DEF_IDX
                + crate::propcontroller::FLATTENED_VEC_MAX_LEN {
                fi.prop_id = u32_wrap_add(crate::propcontroller::ITEM_PURCHASE_DEF_IDX, p2);
            }
            if fi.prop_id >= crate::propcontroller::ITEM_PURCHASE_COST && fi.prop_id
                < crate::propcontroller::ITEM_PURCHASE_COST
                + crate::propcontroller::FLATTENED_VEC_MAX_LEN {
                fi.prop_id = u32_wrap_add(crate::propcontroller::ITEM_PURCHASE_COST, p2);
            }
            if fi.prop_id >= crate::propcontroller::ITEM_PURCHASE_HANDLE && fi.prop_id
                < crate::propcontroller::ITEM_PURCHASE_HANDLE
                + crate::propcontroller::FLATTENED_VEC_MAX_LEN {
                fi.prop_id = u32_wrap_add(crate::propcontroller::ITEM_PURCHASE_HANDLE, p2);
            }
            if fi.prop_id >= crate::propcontroller::ITEM_PURCHASE_NEW_DEF_IDX && fi.prop_id
                < crate::propcontroller::ITEM_PURCHASE_NEW_DEF_IDX
                + crate::propcontroller::FLATTENED_VEC_MAX_LEN {
                fi.prop_id = u32_wrap_add(crate::propcontroller::ITEM_PURCHASE_NEW_DEF_IDX, p2);
            }
        }
        Some(fi)
    }

    /// The decoder of this node: a leaf's own, a pointer's existence
    /// decoder, or the length decoder of a vector.
    pub fn get_decoder(&self) -> (r: Result<Decoder, FirstPassError>)
        ensures
            match r {
                Ok(_) => self is Value || self is Pointer || self is Vector,
                Err(_) => !(self is Value || self is Pointer || self is Vector),
            },
            self matches Field::Value(v) ==> r == Ok::<Decoder, FirstPassError>(v.decoder),
            self matches Field::Pointer(p) ==> r == Ok::<Decoder, FirstPassError>(p.decoder),
            self is Vector ==> r == Ok::<Decoder, FirstPassError>(Decoder::UnsignedDecoder),
    {
        match self {
            Field::Value(inner) => Ok(inner.decoder),
            Field::Pointer(inner) => Ok(inner.decoder),
            Field::Vector(_) => Ok(Decoder::UnsignedDecoder),
            _ => Err(FirstPassError::MissingField),
        }
    }
}

/// Wrapping 32-bit addition, as the id contextualisation arithmetic is
/// defined on the full ring.
fn u32_wrap_add(a: u32, b: u32) -> (r: u32)
    ensures
        r == (a + b) % 0x1_0000_0000,
{
    (((a as u64) + (b as u64)) % 0x1_0000_0000) as u32
}

impl FieldPath {
    /// Follows this path into a serializer tree, one level per used
    /// path entry, to the full seven-entry depth.
    pub fn find<'s>(&self, ser: &'s Serializer) -> (r: Result<&'s Field, FirstPassError>)
        requires
            self.wf(),
        ensures
            match r {
                Ok(f) => spec_find(*ser, *self) == Some(*f),
                Err(_) => spec_find(*ser, *self) is None,
            },
    {
        if self.path[0] < 0 || (self.path[0] as usize) >= ser.fields.len() {
            return Err(FirstPassError::MissingField);
        }
        let mut cur: &Field = &ser.fields[self.path[0] as usize];
        let mut k: usize = 1;
        while k <= self.last
            invariant
                self.wf(),
                1 <= k <= self.last + 1,
                spec_find(*ser, *self) == spec_find_from(*cur, *self, k as int),
            decreases self.last + 1 - k,
        {
            let e = self.path[k];
            if e < 0 {
                return Err(FirstPassError::MissingField);
            }
            cur = match cur.get_inner(e as usize) {
                Ok(g) => g,
                Err(e) => {
                    return Err(e);
                },
            };
            k = k + 1;
        }
        Ok(cur)
    }
}

} // verus!
