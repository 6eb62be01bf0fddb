//! Trailer fields, and their conversion to the stricter header representation.
//!
//! A field whose name or value the stricter representation refuses is dropped
//! from its set; the rest of the set is kept, in order.
use vstd::prelude::*;

verus! {

/// One trailer field: a header name and its value, as bytes.
pub struct Field {
    pub name: Vec<u8>,
    pub value: Vec<u8>,
}

impl View for Field {
    type V = (Seq<u8>, Seq<u8>);

    open spec fn view(&self) -> (Seq<u8>, Seq<u8>) {
        (self.name@, self.value@)
    }
}

/// The fields of a set, as (name, value) pairs of byte sequences.
pub open spec fn fields_view(s: Seq<Field>) -> Seq<(Seq<u8>, Seq<u8>)> {
    s.map_values(|f: Field| f@)
}

pub open spec fn opt_bytes(o: Option<Vec<u8>>) -> Option<Seq<u8>> {
    match o {
        Some(v) => Some(v@),
        None => None,
    }
}

/// The name that the stricter representation makes of the bytes `b`
/// (normalized to lower case), or `None` where it refuses them.
pub uninterp spec fn header_name_of(b: Seq<u8>) -> Option<Seq<u8>>;

/// A byte that may stand in a header value: a tab, or a byte from 32 up,
/// DEL (127) excepted.
pub open spec fn is_value_byte(b: u8) -> bool {
    (b >= 32 && b != 127) || b == 9
}

pub open spec fn is_header_value(s: Seq<u8>) -> bool {
    forall|i: int| 0 <= i < s.len() ==> is_value_byte(#[trigger] s[i])
}

/// A field built from a converted name and a value: kept where the name was
/// accepted and the value is a valid header value.
pub open spec fn field_of(name: Option<Seq<u8>>, value: Seq<u8>) -> Option<(Seq<u8>, Seq<u8>)> {
    match name {
        Some(n) => if is_header_value(value) {
            Some((n, value))
        } else {
            None
        },
        None => None,
    }
}

/// What a field becomes in the stricter representation, if anything.
pub open spec fn convert_field(f: (Seq<u8>, Seq<u8>)) -> Option<(Seq<u8>, Seq<u8>)> {
    field_of(header_name_of(f.0), f.1)
}

/// A trailer set in the stricter representation: the fields that convert,
/// in their order.
pub open spec fn convert_fields(s: Seq<(Seq<u8>, Seq<u8>)>) -> Seq<(Seq<u8>, Seq<u8>)> {
    s.filter_map(|f: (Seq<u8>, Seq<u8>)| convert_field(f))
}

/// Relies on `http::HeaderName::from_bytes` (0.2) and `HeaderName::as_str`:
/// whether a name is accepted, and the normalized text it becomes, depend on
/// the bytes alone.
#[verifier::external_body]
fn header_name_from_bytes(b: &[u8]) -> (r: Option<Vec<u8>>)
    ensures
        opt_bytes(r) == header_name_of(b@),
{
    http::HeaderName::from_bytes(b).ok().map(|n| n.as_str().as_bytes().to_vec())
}

/// Relies on `http::HeaderValue::from_bytes` (0.2) and `HeaderValue::as_bytes`:
/// a value is accepted exactly when each of its bytes is a tab or a byte from
/// 32 up other than 127, and then keeps its bytes unchanged.
#[verifier::external_body]
fn header_value_from_bytes(b: &[u8]) -> (r: Option<Vec<u8>>)
    ensures
        r.is_some() == is_header_value(b@),
        r.is_some() ==> r.unwrap()@ == b@,
{
    http::HeaderValue::from_bytes(b).ok().map(|v| v.as_bytes().to_vec())
}

/// Builds the converted field from the name that conversion gave (`None`
/// where it refused the name) and the field's value.
pub fn field_from_name(name: Option<Vec<u8>>, value: &Vec<u8>) -> (r: Option<Field>)
    ensures
        match r {
            Some(f) => field_of(opt_bytes(name), value@) == Some(f@),
            None => field_of(opt_bytes(name), value@).is_none(),
        },
{
    match name {
        Some(n) => match header_value_from_bytes(value.as_slice()) {
            Some(v) => Some(Field { name: n, value: v }),
            None => None,
        },
        None => None,
    }
}

/// Converts one field, or gives `None` where the stricter representation
/// refuses its name or its value.
pub fn convert_one(field: &Field) -> (r: Option<Field>)
    ensures
        match r {
            Some(f) => convert_field(field@) == Some(f@),
            None => convert_field(field@).is_none(),
        },
{
    let name = header_name_from_bytes(field.name.as_slice());
    field_from_name(name, &field.value)
}

/// Converts a trailer set: the fields that convert are kept, in order; the
/// others are dropped.
pub fn convert_trailers(fields: &Vec<Field>) -> (r: Vec<Field>)
    ensures
        fields_view(r@) == convert_fields(fields_view(fields@)),
{
    let mut out: Vec<Field> = Vec::new();
    let mut i: usize = 0;
    while i < fields.len()
        invariant
            i <= fields.len(),
            fields_view(out@) == convert_fields(fields_view(fields@.take(i as int))),
        decreases fields.len() - i,
    {
        let converted = convert_one(&fields[i]);
        let ghost before = out@;
        proof {
            let s = fields_view(fields@.take(i as int + 1));
            assert(s.drop_last() =~= fields_view(fields@.take(i as int)));
            assert(s.last() == fields[i as int]@);
        }
        match converted {
            Some(f) => {
                out.push(f);
                assert(fields_view(out@) =~= fields_view(before) + seq![f@]);
            },
            None => {},
        }
        i += 1;
    }
    assert(fields@.take(fields.len() as int) =~= fields@);
    out
}

} // verus!
