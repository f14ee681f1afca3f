use vstd::prelude::*;

use crate::errors::DecodeError;

verus! {

broadcast use vstd::std_specs::vec::axiom_vec_index_decreases;

/// The mathematical model of an untyped, JSON-shaped wire value: the only
/// currency the transport understands. Numbers that the schemas use are
/// unsigned integers; a floating-valued scalar is carried opaquely as the
/// bit pattern of its 64-bit representation, since the verified layer
/// never computes with it.
#[verifier::ext_equal]
pub enum WireVal {
    Null,
    Bool(bool),
    UInt(u64),
    Float(u64),
    Text(Seq<char>),
    Arr(Seq<WireVal>),
    Obj(Seq<(Seq<char>, WireVal)>),
}

/// An untyped, JSON-shaped wire value, as exchanged with the transport
/// boundary. Its view is the [`WireVal`] it denotes. An object keeps its
/// fields in insertion order; lookup takes the first binding of a key.
#[derive(Debug, PartialEq)]
pub enum WireValue {
    Null,
    Bool(bool),
    UInt(u64),
    Float(u64),
    Text(String),
    Arr(Vec<WireValue>),
    Obj(Vec<(String, WireValue)>),
}

/// The denotation of a wire value.
pub open spec fn wire_view(v: WireValue) -> WireVal
    decreases v, 1int, 0int,
{
    match v {
        WireValue::Null => WireVal::Null,
        WireValue::Bool(b) => WireVal::Bool(b),
        WireValue::UInt(n) => WireVal::UInt(n),
        WireValue::Float(bits) => WireVal::Float(bits),
        WireValue::Text(s) => WireVal::Text(s@),
        WireValue::Arr(items) => WireVal::Arr(arr_view_upto(items, items.len() as int)),
        WireValue::Obj(fields) => WireVal::Obj(obj_view_upto(fields, fields.len() as int)),
    }
}

/// The denotations of the first `n` elements of an array's backing vector.
pub open spec fn arr_view_upto(items: Vec<WireValue>, n: int) -> Seq<WireVal>
    decreases items, 0int, n,
    via arr_view_upto_dec
{
    if 0 < n <= items@.len() {
        arr_view_upto(items, n - 1).push(wire_view(items[n - 1]))
    } else {
        Seq::empty()
    }
}

#[via_fn]
proof fn arr_view_upto_dec(items: Vec<WireValue>, n: int) {
    broadcast use vstd::std_specs::vec::axiom_vec_index_decreases;

    if 0 < n <= items@.len() {
        assert(decreases_to!(items => items[n - 1]));
    }
}

/// The denotations of the first `n` fields of an object's backing vector.
pub open spec fn obj_view_upto(fields: Vec<(String, WireValue)>, n: int) -> Seq<
    (Seq<char>, WireVal),
>
    decreases fields, 0int, n,
    via obj_view_upto_dec
{
    if 0 < n <= fields@.len() {
        obj_view_upto(fields, n - 1).push((fields[n - 1].0@, wire_view(fields[n - 1].1)))
    } else {
        Seq::empty()
    }
}

#[via_fn]
proof fn obj_view_upto_dec(fields: Vec<(String, WireValue)>, n: int) {
    broadcast use vstd::std_specs::vec::axiom_vec_index_decreases;

    if 0 < n <= fields@.len() {
        assert(decreases_to!(fields => fields[n - 1]));
    }
}

impl View for WireValue {
    type V = WireVal;

    open spec fn view(&self) -> WireVal {
        wire_view(*self)
    }
}

/// The view of an exec field list, elementwise.
pub open spec fn pairs_view(fields: Seq<(String, WireValue)>) -> Seq<(Seq<char>, WireVal)> {
    Seq::new(fields.len(), |i: int| (fields[i].0@, fields[i].1@))
}

/// An object's view is its field list's view, elementwise.
pub proof fn lemma_obj_view(fields: Vec<(String, WireValue)>, n: int)
    requires
        0 <= n <= fields@.len(),
    ensures
        obj_view_upto(fields, n) =~= pairs_view(fields@).subrange(0, n),
    decreases n,
{
    if n > 0 {
        lemma_obj_view(fields, n - 1);
    }
}

/// An object's whole view is its field list's view.
pub proof fn lemma_obj_view_full(fields: Vec<(String, WireValue)>)
    ensures
        obj_view_upto(fields, fields@.len() as int) == pairs_view(fields@),
{
    lemma_obj_view(fields, fields@.len() as int);
    assert(pairs_view(fields@).subrange(0, fields@.len() as int) =~= pairs_view(fields@));
}

/// An array's whole view is its element vector's view.
pub proof fn lemma_arr_view_full(items: Vec<WireValue>)
    ensures
        arr_view_upto(items, items@.len() as int) == views_of(items@),
{
    lemma_arr_view(items, items@.len() as int);
    assert(views_of(items@).subrange(0, items@.len() as int) =~= views_of(items@));
}

/// An array's view is its element vector's view, elementwise.
pub proof fn lemma_arr_view(items: Vec<WireValue>, n: int)
    requires
        0 <= n <= items@.len(),
    ensures
        arr_view_upto(items, n) =~= views_of(items@).subrange(0, n),
    decreases n,
{
    if n > 0 {
        lemma_arr_view(items, n - 1);
    }
}

/// The views of the elements of a sequence.
pub open spec fn views_of<T: View>(s: Seq<T>) -> Seq<<T as View>::V> {
    Seq::new(s.len(), |i: int| s[i]@)
}

/// First binding of `key` in an object's field list, if any.
pub open spec fn obj_get(fields: Seq<(Seq<char>, WireVal)>, key: Seq<char>) -> Option<WireVal>
    decreases fields.len(),
{
    if fields.len() == 0 {
        None
    } else if fields[0].0 == key {
        Some(fields[0].1)
    } else {
        obj_get(fields.subrange(1, fields.len() as int), key)
    }
}

// ---------------------------------------------------------------------
// Field shapes, at the specification level. Each `..._ok` predicate says
// when an object's field list carries `key` in the shape a schema field
// expects; the companion function reads the carried value, meaningful
// only under the predicate.
// ---------------------------------------------------------------------

/// Whether `key` is bound at all.
pub open spec fn field_is_some(fs: Seq<(Seq<char>, WireVal)>, key: Seq<char>) -> bool {
    obj_get(fs, key) is Some
}

/// The value bound to `key`, meaningful only when the key is bound.
pub open spec fn field_val(fs: Seq<(Seq<char>, WireVal)>, key: Seq<char>) -> WireVal {
    match obj_get(fs, key) {
        Some(w) => w,
        None => WireVal::Null,
    }
}

/// A required text field.
pub open spec fn field_is_text(fs: Seq<(Seq<char>, WireVal)>, key: Seq<char>) -> bool {
    obj_get(fs, key) matches Some(WireVal::Text(_))
}

pub open spec fn field_text(fs: Seq<(Seq<char>, WireVal)>, key: Seq<char>) -> Seq<char> {
    match obj_get(fs, key) {
        Some(WireVal::Text(s)) => s,
        _ => Seq::empty(),
    }
}

/// A required unsigned-integer field.
pub open spec fn field_is_uint(fs: Seq<(Seq<char>, WireVal)>, key: Seq<char>) -> bool {
    obj_get(fs, key) matches Some(WireVal::UInt(_))
}

pub open spec fn field_uint(fs: Seq<(Seq<char>, WireVal)>, key: Seq<char>) -> u64 {
    match obj_get(fs, key) {
        Some(WireVal::UInt(n)) => n,
        _ => 0,
    }
}

/// An unsigned-integer field that defaults to zero when absent.
pub open spec fn dflt_uint_ok(fs: Seq<(Seq<char>, WireVal)>, key: Seq<char>) -> bool {
    match obj_get(fs, key) {
        None => true,
        Some(WireVal::UInt(_)) => true,
        _ => false,
    }
}

pub open spec fn dflt_uint(fs: Seq<(Seq<char>, WireVal)>, key: Seq<char>) -> u64 {
    match obj_get(fs, key) {
        Some(WireVal::UInt(n)) => n,
        _ => 0,
    }
}

/// A required boolean field.
pub open spec fn field_is_bool(fs: Seq<(Seq<char>, WireVal)>, key: Seq<char>) -> bool {
    obj_get(fs, key) matches Some(WireVal::Bool(_))
}

pub open spec fn field_bool(fs: Seq<(Seq<char>, WireVal)>, key: Seq<char>) -> bool {
    match obj_get(fs, key) {
        Some(WireVal::Bool(b)) => b,
        _ => false,
    }
}

/// A boolean field that defaults to false when absent.
pub open spec fn dflt_bool_ok(fs: Seq<(Seq<char>, WireVal)>, key: Seq<char>) -> bool {
    match obj_get(fs, key) {
        None => true,
        Some(WireVal::Bool(_)) => true,
        _ => false,
    }
}

pub open spec fn dflt_bool(fs: Seq<(Seq<char>, WireVal)>, key: Seq<char>) -> bool {
    match obj_get(fs, key) {
        Some(WireVal::Bool(b)) => b,
        _ => false,
    }
}

/// An optional text field: absent and null both mean "no value".
pub open spec fn opt_text_ok(fs: Seq<(Seq<char>, WireVal)>, key: Seq<char>) -> bool {
    match obj_get(fs, key) {
        None => true,
        Some(WireVal::Null) => true,
        Some(WireVal::Text(_)) => true,
        _ => false,
    }
}

pub open spec fn opt_text(fs: Seq<(Seq<char>, WireVal)>, key: Seq<char>) -> Option<Seq<char>> {
    match obj_get(fs, key) {
        Some(WireVal::Text(s)) => Some(s),
        _ => None,
    }
}

/// An optional boolean field: absent and null both mean "no value".
pub open spec fn opt_bool_ok(fs: Seq<(Seq<char>, WireVal)>, key: Seq<char>) -> bool {
    match obj_get(fs, key) {
        None => true,
        Some(WireVal::Null) => true,
        Some(WireVal::Bool(_)) => true,
        _ => false,
    }
}

pub open spec fn opt_bool(fs: Seq<(Seq<char>, WireVal)>, key: Seq<char>) -> Option<bool> {
    match obj_get(fs, key) {
        Some(WireVal::Bool(b)) => Some(b),
        _ => None,
    }
}

/// A required floating-valued field, carried as an opaque bit pattern.
pub open spec fn field_is_float(fs: Seq<(Seq<char>, WireVal)>, key: Seq<char>) -> bool {
    obj_get(fs, key) matches Some(WireVal::Float(_))
}

pub open spec fn field_float(fs: Seq<(Seq<char>, WireVal)>, key: Seq<char>) -> u64 {
    match obj_get(fs, key) {
        Some(WireVal::Float(bits)) => bits,
        _ => 0,
    }
}

/// A required field holding an array whose elements are all text.
pub open spec fn field_is_text_arr(fs: Seq<(Seq<char>, WireVal)>, key: Seq<char>) -> bool {
    obj_get(fs, key) matches Some(WireVal::Arr(items))
        && (forall|i: int| 0 <= i < items.len() ==> items[i] is Text)
}

pub open spec fn field_text_arr(fs: Seq<(Seq<char>, WireVal)>, key: Seq<char>) -> Seq<Seq<char>> {
    match obj_get(fs, key) {
        Some(WireVal::Arr(items)) => Seq::new(
            items.len(),
            |i: int| match items[i] {
                WireVal::Text(s) => s,
                _ => Seq::empty(),
            },
        ),
        _ => Seq::empty(),
    }
}

// ---------------------------------------------------------------------
// Executable lookup and field readers.
// ---------------------------------------------------------------------

/// Finds the first binding of `key` in an object's field list.
pub fn lookup<'a>(fields: &'a Vec<(String, WireValue)>, key: &str) -> (r: Option<&'a WireValue>)
    ensures
        match r {
            Some(v) => obj_get(pairs_view(fields@), key@) == Some(v@),
            None => obj_get(pairs_view(fields@), key@) is None,
        },
{
    let ghost gfs = pairs_view(fields@);
    let key_string: String = key.to_owned();
    proof {
        assert(gfs.subrange(0, gfs.len() as int) =~= gfs);
    }
    let mut i: usize = 0;
    while i < fields.len()
        invariant
            0 <= i <= fields.len(),
            gfs == pairs_view(fields@),
            key_string@ == key@,
            obj_get(gfs, key@) == obj_get(gfs.subrange(i as int, gfs.len() as int), key@),
        decreases fields.len() - i,
    {
        proof {
            assert(gfs.subrange(i as int, gfs.len() as int).len() > 0);
            assert(gfs.subrange(i as int, gfs.len() as int)[0] == gfs[i as int]);
        }
        let found = fields[i].0.eq(&key_string);
        proof {
            assert(gfs[i as int] == (fields@[i as int].0@, fields@[i as int].1@));
            assert(found == (fields@[i as int].0@ == key@));
        }
        if found {
            proof {
                assert(gfs[i as int].0 == key@);
            }
            return Some(&fields[i].1);
        }
        proof {
            assert(gfs.subrange(i as int, gfs.len() as int).subrange(
                1,
                gfs.subrange(i as int, gfs.len() as int).len() as int,
            ) =~= gfs.subrange(i as int + 1, gfs.len() as int));
        }
        i = i + 1;
    }
    proof {
        assert(gfs.subrange(i as int, gfs.len() as int).len() == 0);
    }
    None
}

/// Reads a required text field, cloning the carried string.
pub fn get_text(fields: &Vec<(String, WireValue)>, key: &str) -> (r: Result<String, DecodeError>)
    ensures
        r is Ok <==> field_is_text(pairs_view(fields@), key@),
        r matches Ok(s) ==> s@ == field_text(pairs_view(fields@), key@),
{
    match lookup(fields, key) {
        Some(WireValue::Text(s)) => Ok(s.clone()),
        _ => Err(DecodeError { field: key.to_owned() }),
    }
}

/// Reads a required unsigned-integer field.
pub fn get_uint(fields: &Vec<(String, WireValue)>, key: &str) -> (r: Result<u64, DecodeError>)
    ensures
        r is Ok <==> field_is_uint(pairs_view(fields@), key@),
        r matches Ok(n) ==> n == field_uint(pairs_view(fields@), key@),
{
    match lookup(fields, key) {
        Some(WireValue::UInt(n)) => Ok(*n),
        _ => Err(DecodeError { field: key.to_owned() }),
    }
}

/// Reads an unsigned-integer field that defaults to zero when absent.
pub fn get_dflt_uint(fields: &Vec<(String, WireValue)>, key: &str) -> (r: Result<
    u64,
    DecodeError,
>)
    ensures
        r is Ok <==> dflt_uint_ok(pairs_view(fields@), key@),
        r matches Ok(n) ==> n == dflt_uint(pairs_view(fields@), key@),
{
    match lookup(fields, key) {
        Some(WireValue::UInt(n)) => Ok(*n),
        Some(_) => Err(DecodeError { field: key.to_owned() }),
        None => Ok(0),
    }
}

/// Reads a required boolean field.
pub fn get_bool(fields: &Vec<(String, WireValue)>, key: &str) -> (r: Result<bool, DecodeError>)
    ensures
        r is Ok <==> field_is_bool(pairs_view(fields@), key@),
        r matches Ok(b) ==> b == field_bool(pairs_view(fields@), key@),
{
    match lookup(fields, key) {
        Some(WireValue::Bool(b)) => Ok(*b),
        _ => Err(DecodeError { field: key.to_owned() }),
    }
}

/// Reads a boolean field that defaults to false when absent.
pub fn get_dflt_bool(fields: &Vec<(String, WireValue)>, key: &str) -> (r: Result<
    bool,
    DecodeError,
>)
    ensures
        r is Ok <==> dflt_bool_ok(pairs_view(fields@), key@),
        r matches Ok(b) ==> b == dflt_bool(pairs_view(fields@), key@),
{
    match lookup(fields, key) {
        Some(WireValue::Bool(b)) => Ok(*b),
        Some(_) => Err(DecodeError { field: key.to_owned() }),
        None => Ok(false),
    }
}

/// Reads an optional text field: absent and null both decode to `None`.
pub fn get_opt_text(fields: &Vec<(String, WireValue)>, key: &str) -> (r: Result<
    Option<String>,
    DecodeError,
>)
    ensures
        r is Ok <==> opt_text_ok(pairs_view(fields@), key@),
        r matches Ok(o) ==> opt_str_view(o) == opt_text(pairs_view(fields@), key@),
{
    match lookup(fields, key) {
        Some(WireValue::Text(s)) => Ok(Some(s.clone())),
        Some(WireValue::Null) => Ok(None),
        Some(_) => Err(DecodeError { field: key.to_owned() }),
        None => Ok(None),
    }
}

/// Reads an optional boolean field: absent and null both decode to `None`.
pub fn get_opt_bool(fields: &Vec<(String, WireValue)>, key: &str) -> (r: Result<
    Option<bool>,
    DecodeError,
>)
    ensures
        r is Ok <==> opt_bool_ok(pairs_view(fields@), key@),
        r matches Ok(o) ==> o == opt_bool(pairs_view(fields@), key@),
{
    match lookup(fields, key) {
        Some(WireValue::Bool(b)) => Ok(Some(*b)),
        Some(WireValue::Null) => Ok(None),
        Some(_) => Err(DecodeError { field: key.to_owned() }),
        None => Ok(None),
    }
}

/// Reads a required floating-valued field as its opaque bit pattern.
pub fn get_float(fields: &Vec<(String, WireValue)>, key: &str) -> (r: Result<u64, DecodeError>)
    ensures
        r is Ok <==> field_is_float(pairs_view(fields@), key@),
        r matches Ok(bits) ==> bits == field_float(pairs_view(fields@), key@),
{
    match lookup(fields, key) {
        Some(WireValue::Float(bits)) => Ok(*bits),
        _ => Err(DecodeError { field: key.to_owned() }),
    }
}

/// Reads a required field, whatever its shape.
pub fn get_req<'a>(fields: &'a Vec<(String, WireValue)>, key: &str) -> (r: Result<
    &'a WireValue,
    DecodeError,
>)
    ensures
        r is Ok <==> obj_get(pairs_view(fields@), key@) is Some,
        r matches Ok(v) ==> obj_get(pairs_view(fields@), key@) == Some(v@),
{
    match lookup(fields, key) {
        Some(v) => Ok(v),
        None => Err(DecodeError { field: key.to_owned() }),
    }
}

/// Reads a required field holding an array of text values, cloning them.
pub fn get_text_arr(fields: &Vec<(String, WireValue)>, key: &str) -> (r: Result<
    Vec<String>,
    DecodeError,
>)
    ensures
        r is Ok <==> field_is_text_arr(pairs_view(fields@), key@),
        r matches Ok(texts) ==> views_of(texts@) == field_text_arr(pairs_view(fields@), key@),
{
    let items = match lookup(fields, key) {
        Some(WireValue::Arr(items)) => items,
        _ => { return Err(DecodeError { field: key.to_owned() }); },
    };
    let ghost gitems = match obj_get(pairs_view(fields@), key@) {
        Some(WireVal::Arr(g)) => g,
        _ => Seq::empty(),
    };
    proof {
        lemma_arr_view(*items, items@.len() as int);
        assert(views_of(items@).subrange(0, items@.len() as int) =~= views_of(items@));
        assert(gitems =~= Seq::new(items@.len(), |i: int| items@[i]@));
    }
    let mut texts: Vec<String> = Vec::new();
    let mut i: usize = 0;
    while i < items.len()
        invariant
            0 <= i <= items.len(),
            gitems == Seq::new(items@.len(), |i: int| items@[i]@),
            obj_get(pairs_view(fields@), key@) == Some(WireVal::Arr(gitems)),
            forall|j: int| 0 <= j < i ==> gitems[j] is Text,
            texts@.len() == i,
            forall|j: int| 0 <= j < i ==> texts@[j]@ == field_text_arr(
                pairs_view(fields@),
                key@,
            )[j],
        decreases items.len() - i,
    {
        proof {
            assert(gitems[i as int] == items@[i as int]@);
        }
        match &items[i] {
            WireValue::Text(s) => {
                proof {
                    assert(gitems[i as int] == WireVal::Text(s@));
                    assert(field_text_arr(pairs_view(fields@), key@)[i as int] == s@);
                }
                texts.push(s.clone());
            },
            _ => {
                proof {
                    assert(!(gitems[i as int] is Text));
                    assert(!field_is_text_arr(pairs_view(fields@), key@));
                }
                return Err(DecodeError { field: key.to_owned() });
            },
        }
        i = i + 1;
    }
    proof {
        assert(views_of(texts@) =~= field_text_arr(pairs_view(fields@), key@));
    }
    Ok(texts)
}

/// The view of an optional string.
pub open spec fn opt_str_view(o: Option<String>) -> Option<Seq<char>> {
    match o {
        Some(s) => Some(s@),
        None => None,
    }
}

} // verus!
