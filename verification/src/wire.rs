//! Reading and writing the fields of a structured payload.
//!
//! The payload format itself belongs to the `protobuf` crate: every byte of a
//! field is read and written by it. This module walks a payload field by
//! field and hands the fields on as plain values.

use vstd::prelude::*;

verus! {

/// The error type of the `protobuf` crate, carried through unopened.
#[verifier::external_type_specification]
#[verifier::external_body]
pub struct ExProtobufError(protobuf::ProtobufError);

/// Largest number that names a wire type.
pub const MAX_WIRE_TYPE: u8 = 5;

/// Largest field number a payload can carry.
pub const FIELD_NUMBER_MAX: u32 = 0x1fff_ffff;

/// The value of one field, by wire type.
#[derive(Clone, Debug, PartialEq, Eq)]
pub enum Value {
    Varint(u64),
    Fixed64(u64),
    Fixed32(u32),
    Bytes(Vec<u8>),
}

/// Mathematical model of a [`Value`].
pub enum ValueView {
    Varint(u64),
    Fixed64(u64),
    Fixed32(u32),
    Bytes(Seq<u8>),
}

impl View for Value {
    type V = ValueView;

    open spec fn view(&self) -> ValueView {
        match *self {
            Value::Varint(v) => ValueView::Varint(v),
            Value::Fixed64(v) => ValueView::Fixed64(v),
            Value::Fixed32(v) => ValueView::Fixed32(v),
            Value::Bytes(b) => ValueView::Bytes(b@),
        }
    }
}

/// One field of a payload: its number and its value.
#[derive(Clone, Debug, PartialEq, Eq)]
pub struct Field {
    pub number: u32,
    pub value: Value,
}

/// Mathematical model of a [`Field`].
pub struct FieldView {
    pub number: u32,
    pub value: ValueView,
}

impl View for Field {
    type V = FieldView;

    open spec fn view(&self) -> FieldView {
        FieldView { number: self.number, value: self.value@ }
    }
}

/// What `protobuf::CodedInputStream::read_tag_unpack` yields on a stream over
/// `bytes`: the field number, the wire type number and the count of bytes
/// read, or `None` where it reports an error.
pub uninterp spec fn tag_at(bytes: Seq<u8>) -> Option<(u32, u8, usize)>;

/// What `protobuf::CodedInputStream::read_unknown` yields for `wire_type` on a
/// stream over `bytes`: the value and the count of bytes read, or `None` where
/// it reports an error. Meant for wire type numbers, which are at most
/// [`MAX_WIRE_TYPE`].
pub uninterp spec fn value_at(bytes: Seq<u8>, wire_type: u8) -> Option<(ValueView, usize)>;

/// The bytes that `protobuf::CodedOutputStream::write_uint32` writes for
/// field `number` with `value`.
pub uninterp spec fn uint32_field(number: u32, value: u32) -> Seq<u8>;

/// The bytes that `protobuf::CodedOutputStream::write_bytes` writes for
/// field `number` with the content `content`.
pub uninterp spec fn bytes_field(number: u32, content: Seq<u8>) -> Seq<u8>;

/// Calls `protobuf::CodedInputStream::read_tag_unpack` on a fresh stream over
/// `bytes`. Trusted: the outcome is a function of `bytes` alone, named
/// [`tag_at`]; the third component is the stream's position after the read.
#[verifier::external_body]
fn read_tag(bytes: &[u8]) -> (r: Result<(u32, u8, usize), protobuf::ProtobufError>)
    ensures
        r matches Ok(t) ==> tag_at(bytes@) == Some(t),
        r is Err ==> tag_at(bytes@) is None,
{
    let mut stream = protobuf::CodedInputStream::from_bytes(bytes);
    match stream.read_tag_unpack() {
        Ok((number, wire_type)) => Ok((number, wire_type as u8, stream.pos() as usize)),
        Err(e) => Err(e),
    }
}

/// Calls `protobuf::CodedInputStream::read_unknown` on a fresh stream over
/// `bytes`, for the wire type with the number `wire_type`. Trusted: the
/// outcome is a function of the two arguments alone, named [`value_at`]; the
/// count is the stream's position after the read.
#[verifier::external_body]
fn read_value(bytes: &[u8], wire_type: u8) -> (r: Result<(Value, usize), protobuf::ProtobufError>)
    requires
        wire_type <= MAX_WIRE_TYPE,
    ensures
        r matches Ok(p) ==> value_at(bytes@, wire_type) == Some((p.0@, p.1)),
        r is Err ==> value_at(bytes@, wire_type) is None,
{
    let mut stream = protobuf::CodedInputStream::from_bytes(bytes);
    let kind = protobuf::wire_format::WireType::new(wire_type as u32).unwrap();
    let value = match stream.read_unknown(kind)? {
        protobuf::UnknownValue::Varint(v) => Value::Varint(v),
        protobuf::UnknownValue::Fixed64(v) => Value::Fixed64(v),
        protobuf::UnknownValue::Fixed32(v) => Value::Fixed32(v),
        protobuf::UnknownValue::LengthDelimited(b) => Value::Bytes(b),
    };
    Ok((value, stream.pos() as usize))
}

/// Calls `protobuf::CodedOutputStream::write_uint32` on a stream that appends
/// to `out`, then flushes it. Trusted: what was in `out` stays, and the bytes
/// added are a function of `number` and `value` alone, named
/// [`uint32_field`]. The outside call panics on a field number out of range,
/// which `requires` leaves out.
#[verifier::external_body]
pub(crate) fn put_uint32(out: &mut Vec<u8>, number: u32, value: u32)
    requires
        1 <= number <= FIELD_NUMBER_MAX,
    ensures
        final(out)@ == old(out)@ + uint32_field(number, value),
{
    let mut stream = protobuf::CodedOutputStream::vec(out);
    stream.write_uint32(number, value).unwrap();
    stream.flush().unwrap();
}

/// Calls `protobuf::CodedOutputStream::write_bytes` on a stream that appends
/// to `out`, then flushes it. Trusted: what was in `out` stays, and the bytes
/// added are a function of `number` and `content` alone, named
/// [`bytes_field`]. The outside call panics on a field number out of range,
/// which `requires` leaves out.
#[verifier::external_body]
pub(crate) fn put_bytes(out: &mut Vec<u8>, number: u32, content: &[u8])
    requires
        1 <= number <= FIELD_NUMBER_MAX,
    ensures
        final(out)@ == old(out)@ + bytes_field(number, content@),
{
    let mut stream = protobuf::CodedOutputStream::vec(out);
    stream.write_bytes(number, content).unwrap();
    stream.flush().unwrap();
}

/// The views of a run of fields.
pub open spec fn views(fields: Seq<Field>) -> Seq<FieldView> {
    fields.map_values(|f: Field| f@)
}

/// The field at the front of `bytes` and how many bytes it takes, or `None`
/// where the bytes do not start with a whole field.
pub open spec fn field_at(bytes: Seq<u8>) -> Option<(FieldView, int)> {
    match tag_at(bytes) {
        None => None,
        Some((number, wire_type, n)) => if n == 0 || n > bytes.len() || wire_type > MAX_WIRE_TYPE {
            None
        } else {
            match value_at(bytes.skip(n as int), wire_type) {
                None => None,
                Some((value, m)) => if m > bytes.len() - n {
                    None
                } else {
                    Some((FieldView { number, value }, n + m))
                },
            }
        },
    }
}

/// The fields of a payload in the order in which they stand, or `None` where
/// the payload is no sequence of whole fields.
pub open spec fn fields_of(bytes: Seq<u8>) -> Option<Seq<FieldView>>
    decreases bytes.len(),
{
    if bytes.len() == 0 {
        Some(Seq::empty())
    } else {
        match field_at(bytes) {
            None => None,
            Some((field, used)) => match fields_of(bytes.skip(used)) {
                None => None,
                Some(rest) => Some(seq![field] + rest),
            },
        }
    }
}

/// Whether `bytes` is a sequence of whole fields.
pub open spec fn well_formed(bytes: Seq<u8>) -> bool {
    fields_of(bytes) is Some
}

/// Reads the field at the front of `bytes`.
pub fn decode_field(bytes: &[u8]) -> (r: Option<(Field, usize)>)
    ensures
        match r {
            Some((field, used)) => field_at(bytes@) == Some((field@, used as int)),
            None => field_at(bytes@) is None,
        },
{
    let (number, wire_type, n) = match read_tag(bytes) {
        Ok(t) => t,
        Err(_) => {
            return None;
        },
    };
    if n == 0 || n > bytes.len() || wire_type > MAX_WIRE_TYPE {
        return None;
    }
    let rest = vstd::slice::slice_subrange(bytes, n, bytes.len());
    let (value, m) = match read_value(rest, wire_type) {
        Ok(p) => p,
        Err(_) => {
            return None;
        },
    };
    if m > bytes.len() - n {
        return None;
    }
    Some((Field { number, value }, n + m))
}

/// Reads all fields of a payload, in order.
pub fn decode_fields(payload: &[u8]) -> (r: Option<Vec<Field>>)
    ensures
        match r {
            Some(fields) => fields_of(payload@) == Some(views(fields@)),
            None => fields_of(payload@) is None,
        },
{
    let mut fields: Vec<Field> = Vec::new();
    let mut pos: usize = 0;
    proof {
        assert(payload@.skip(0) =~= payload@);
        assert(views(fields@) =~= Seq::empty());
        lemma_prepend(Seq::empty(), fields_of(payload@));
    }
    while pos < payload.len()
        invariant
            pos <= payload.len(),
            fields_of(payload@) == prepend(views(fields@), fields_of(payload@.skip(pos as int))),
        decreases payload.len() - pos,
    {
        let rest = vstd::slice::slice_subrange(payload, pos, payload.len());
        assert(rest@ =~= payload@.skip(pos as int));
        match decode_field(rest) {
            None => {
                return None;
            },
            Some((field, used)) => {
                proof {
                    assert(rest@.skip(used as int) =~= payload@.skip(pos + used));
                    lemma_prepend_push(views(fields@), field@, fields_of(rest@.skip(used as int)));
                    assert(views(fields@.push(field)) =~= views(fields@).push(field@));
                }
                fields.push(field);
                pos = pos + used;
            },
        }
    }
    proof {
        assert(payload@.skip(pos as int).len() == 0);
    }
    Some(fields)
}

/// `head` followed by `tail`, where there is a tail.
pub open spec fn prepend(head: Seq<FieldView>, tail: Option<Seq<FieldView>>) -> Option<
    Seq<FieldView>,
> {
    match tail {
        None => None,
        Some(rest) => Some(head + rest),
    }
}

proof fn lemma_prepend(head: Seq<FieldView>, tail: Option<Seq<FieldView>>)
    requires
        head.len() == 0,
    ensures
        prepend(head, tail) == tail,
{
    if let Some(rest) = tail {
        assert(head + rest =~= rest);
    }
}

proof fn lemma_prepend_push(head: Seq<FieldView>, field: FieldView, tail: Option<Seq<FieldView>>)
    ensures
        prepend(head, prepend(seq![field], tail)) == prepend(head.push(field), tail),
{
    if let Some(rest) = tail {
        assert(head + (seq![field] + rest) =~= head.push(field) + rest);
    }
}

/// The value of the last variable-length integer field numbered `number`,
/// if there is one: where a field occurs more than once, the last one counts.
pub open spec fn last_varint_of(fields: Seq<FieldView>, number: u32) -> Option<u64>
    decreases fields.len(),
{
    if fields.len() == 0 {
        None
    } else {
        match fields.last() {
            FieldView { number: n, value: ValueView::Varint(v) } if n == number => Some(v),
            _ => last_varint_of(fields.drop_last(), number),
        }
    }
}

/// The content of the last length-delimited field numbered `number`, if
/// there is one.
pub open spec fn last_bytes_of(fields: Seq<FieldView>, number: u32) -> Option<Seq<u8>>
    decreases fields.len(),
{
    if fields.len() == 0 {
        None
    } else {
        match fields.last() {
            FieldView { number: n, value: ValueView::Bytes(b) } if n == number => Some(b),
            _ => last_bytes_of(fields.drop_last(), number),
        }
    }
}

/// The values of all variable-length integer fields numbered `number`, in
/// the order in which they stand.
pub open spec fn varints_of(fields: Seq<FieldView>, number: u32) -> Seq<u64>
    decreases fields.len(),
{
    if fields.len() == 0 {
        Seq::empty()
    } else {
        match fields.last() {
            FieldView { number: n, value: ValueView::Varint(v) } if n == number => varints_of(
                fields.drop_last(),
                number,
            ).push(v),
            _ => varints_of(fields.drop_last(), number),
        }
    }
}

/// Finds the last variable-length integer field numbered `number`.
pub fn last_varint(fields: &Vec<Field>, number: u32) -> (r: Option<u64>)
    ensures
        r == last_varint_of(views(fields@), number),
{
    let mut found: Option<u64> = None;
    let mut i: usize = 0;
    while i < fields.len()
        invariant
            i <= fields.len(),
            found == last_varint_of(views(fields@).take(i as int), number),
        decreases fields.len() - i,
    {
        proof {
            assert(views(fields@).take(i + 1).drop_last() =~= views(fields@).take(i as int));
        }
        let field = &fields[i];
        if field.number == number {
            if let Value::Varint(v) = &field.value {
                found = Some(*v);
            }
        }
        i = i + 1;
    }
    proof {
        assert(views(fields@).take(i as int) =~= views(fields@));
    }
    found
}

/// Finds the last length-delimited field numbered `number`, and copies its
/// content.
pub fn last_bytes(fields: &Vec<Field>, number: u32) -> (r: Option<Vec<u8>>)
    ensures
        match r {
            Some(b) => last_bytes_of(views(fields@), number) == Some(b@),
            None => last_bytes_of(views(fields@), number) is None,
        },
{
    let mut found: Option<usize> = None;
    let mut i: usize = 0;
    while i < fields.len()
        invariant
            i <= fields.len(),
            match found {
                Some(k) => k < i && fields@[k as int].value is Bytes && last_bytes_of(
                    views(fields@).take(i as int),
                    number,
                ) == Some(fields@[k as int].value->Bytes_0@),
                None => last_bytes_of(views(fields@).take(i as int), number) is None,
            },
        decreases fields.len() - i,
    {
        proof {
            assert(views(fields@).take(i + 1).drop_last() =~= views(fields@).take(i as int));
        }
        let field = &fields[i];
        if field.number == number {
            if let Value::Bytes(_) = &field.value {
                found = Some(i);
            }
        }
        i = i + 1;
    }
    proof {
        assert(views(fields@).take(i as int) =~= views(fields@));
    }
    match found {
        Some(k) => match &fields[k].value {
            Value::Bytes(b) => Some(b.clone()),
            _ => None,
        },
        None => None,
    }
}

/// Collects all variable-length integer fields numbered `number`, in order.
pub fn varints(fields: &Vec<Field>, number: u32) -> (r: Vec<u64>)
    ensures
        r@ == varints_of(views(fields@), number),
{
    let mut found: Vec<u64> = Vec::new();
    let mut i: usize = 0;
    while i < fields.len()
        invariant
            i <= fields.len(),
            found@ == varints_of(views(fields@).take(i as int), number),
        decreases fields.len() - i,
    {
        proof {
            assert(views(fields@).take(i + 1).drop_last() =~= views(fields@).take(i as int));
        }
        let field = &fields[i];
        if field.number == number {
            if let Value::Varint(v) = &field.value {
                found.push(*v);
            }
        }
        i = i + 1;
    }
    proof {
        assert(views(fields@).take(i as int) =~= views(fields@));
    }
    found
}

/// The low 32 bits of a variable-length integer: what a 32-bit field holds.
pub open spec fn low32(v: u64) -> u32 {
    (v % 0x1_0000_0000) as u32
}

/// Cuts a variable-length integer down to the 32 bits of a 32-bit field.
pub fn to_u32(v: u64) -> (r: u32)
    ensures
        r == low32(v),
{
    (v % 0x1_0000_0000) as u32
}

} // verus!
