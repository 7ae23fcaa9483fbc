use vstd::prelude::*;
use vstd::string::StrSliceExecFns;

verus! {

/// A UUID or time-UUID, as the wire protocol carries it: two 64-bit halves.
#[derive(Clone, Copy, Debug, PartialEq, Eq, Structural)]
pub struct Uuid {
    pub time_and_version: u64,
    pub clock_seq_and_node: u64,
}

/// A network address: 4 octets (IPv4) or 16 octets (IPv6).
///
/// A value with any other octet count is rejected at bind time with
/// `CassError::ValueEncoding`.
#[derive(Debug, PartialEq)]
pub struct Inet {
    pub octets: Vec<u8>,
}

/// An opaque pre-built map collection handle, produced by the external
/// collection-builder collaborator and bound as a single value.
#[derive(Clone, Copy, Debug, PartialEq, Eq, Structural)]
pub struct MapHandle {
    pub id: u64,
}

/// An opaque pre-built set collection handle from the collection builder.
#[derive(Clone, Copy, Debug, PartialEq, Eq, Structural)]
pub struct SetHandle {
    pub id: u64,
}

/// An opaque pre-built list collection handle from the collection builder.
#[derive(Clone, Copy, Debug, PartialEq, Eq, Structural)]
pub struct ListHandle {
    pub id: u64,
}

/// An opaque pre-built tuple handle from the tuple builder.
#[derive(Clone, Copy, Debug, PartialEq, Eq, Structural)]
pub struct TupleHandle {
    pub id: u64,
}

/// An opaque pre-built user-defined-type record handle.
#[derive(Clone, Copy, Debug, PartialEq, Eq, Structural)]
pub struct UserTypeHandle {
    pub id: u64,
}

/// The closed set of value kinds that can be bound into a parameter slot.
///
/// Each variant carries the semantic payload needed to encode it. The two
/// floating-point kinds carry their IEEE-754 bit patterns, which is exactly
/// what the wire encoding transports. Collections, tuples and user-defined
/// types are single pre-built handles from the external builder
/// collaborators, not field-by-field values.
#[derive(Debug, PartialEq)]
pub enum TypedValue {
    Null,
    Bool(bool),
    Int8(i8),
    Int16(i16),
    Int32(i32),
    Uint32(u32),
    Int64(i64),
    FloatBits(u32),
    DoubleBits(u64),
    Text(String),
    Bytes(Vec<u8>),
    Uuid(Uuid),
    Inet(Inet),
    MapVal(MapHandle),
    SetVal(SetHandle),
    ListVal(ListHandle),
    TupleVal(TupleHandle),
    UserTypeVal(UserTypeHandle),
}

/// The mathematical shape of a bindable value: text as a character
/// sequence, bytes as a byte sequence, everything else as itself.
#[verifier::ext_equal]
pub ghost enum ValueView {
    Null,
    Bool(bool),
    Int8(i8),
    Int16(i16),
    Int32(i32),
    Uint32(u32),
    Int64(i64),
    FloatBits(u32),
    DoubleBits(u64),
    Text(Seq<char>),
    Bytes(Seq<u8>),
    Uuid(Uuid),
    Inet(Seq<u8>),
    MapVal(u64),
    SetVal(u64),
    ListVal(u64),
    TupleVal(u64),
    UserTypeVal(u64),
}

impl DeepView for TypedValue {
    type V = ValueView;

    open spec fn deep_view(&self) -> ValueView {
        match self {
            TypedValue::Null => ValueView::Null,
            TypedValue::Bool(b) => ValueView::Bool(*b),
            TypedValue::Int8(v) => ValueView::Int8(*v),
            TypedValue::Int16(v) => ValueView::Int16(*v),
            TypedValue::Int32(v) => ValueView::Int32(*v),
            TypedValue::Uint32(v) => ValueView::Uint32(*v),
            TypedValue::Int64(v) => ValueView::Int64(*v),
            TypedValue::FloatBits(v) => ValueView::FloatBits(*v),
            TypedValue::DoubleBits(v) => ValueView::DoubleBits(*v),
            TypedValue::Text(s) => ValueView::Text(s@),
            TypedValue::Bytes(b) => ValueView::Bytes(b@),
            TypedValue::Uuid(u) => ValueView::Uuid(*u),
            TypedValue::Inet(i) => ValueView::Inet(i.octets@),
            TypedValue::MapVal(h) => ValueView::MapVal(h.id),
            TypedValue::SetVal(h) => ValueView::SetVal(h.id),
            TypedValue::ListVal(h) => ValueView::ListVal(h.id),
            TypedValue::TupleVal(h) => ValueView::TupleVal(h.id),
            TypedValue::UserTypeVal(h) => ValueView::UserTypeVal(h.id),
        }
    }
}

/// Text is representable in the resource layer's encoding exactly when it
/// carries no embedded terminator.
pub open spec fn text_ok(s: Seq<char>) -> bool {
    forall|i: int| 0 <= i < s.len() ==> s[i] != '\0'
}

/// Whether a value can be represented in its wire form: text must be
/// encodable, a network address must have 4 or 16 octets, every other kind
/// always encodes.
pub open spec fn value_ok(v: ValueView) -> bool {
    match v {
        ValueView::Text(s) => text_ok(s),
        ValueView::Inet(o) => o.len() == 4 || o.len() == 16,
        _ => true,
    }
}

/// Decides `text_ok` for a text value.
pub fn text_check(s: &str) -> (r: bool)
    ensures
        r == text_ok(s@),
{
    let len = s.unicode_len();
    let mut i: usize = 0;
    while i < len
        invariant
            i <= len,
            len == s@.len(),
            forall|j: int| 0 <= j < i ==> s@[j] != '\0',
        decreases len - i,
    {
        if s.get_char(i) == '\0' {
            return false;
        }
        i += 1;
    }
    true
}

/// Copies a byte vector element by element.
fn copy_bytes(v: &Vec<u8>) -> (r: Vec<u8>)
    ensures
        r@ == v@,
{
    let mut out: Vec<u8> = Vec::new();
    let mut i: usize = 0;
    while i < v.len()
        invariant
            i <= v.len(),
            out@ == v@.subrange(0, i as int),
        decreases v.len() - i,
    {
        out.push(v[i]);
        i += 1;
    }
    proof {
        assert(out@ =~= v@);
    }
    out
}

impl Clone for Inet {
    fn clone(&self) -> (r: Self)
        ensures
            r.octets@ == self.octets@,
    {
        Inet { octets: copy_bytes(&self.octets) }
    }
}

impl Clone for TypedValue {
    fn clone(&self) -> (r: Self)
        ensures
            r.deep_view() == self.deep_view(),
    {
        match self {
            TypedValue::Null => TypedValue::Null,
            TypedValue::Bool(b) => TypedValue::Bool(*b),
            TypedValue::Int8(v) => TypedValue::Int8(*v),
            TypedValue::Int16(v) => TypedValue::Int16(*v),
            TypedValue::Int32(v) => TypedValue::Int32(*v),
            TypedValue::Uint32(v) => TypedValue::Uint32(*v),
            TypedValue::Int64(v) => TypedValue::Int64(*v),
            TypedValue::FloatBits(v) => TypedValue::FloatBits(*v),
            TypedValue::DoubleBits(v) => TypedValue::DoubleBits(*v),
            TypedValue::Text(s) => TypedValue::Text(s.clone()),
            TypedValue::Bytes(b) => TypedValue::Bytes(copy_bytes(b)),
            TypedValue::Uuid(u) => TypedValue::Uuid(*u),
            TypedValue::Inet(i) => TypedValue::Inet(i.clone()),
            TypedValue::MapVal(h) => TypedValue::MapVal(*h),
            TypedValue::SetVal(h) => TypedValue::SetVal(*h),
            TypedValue::ListVal(h) => TypedValue::ListVal(*h),
            TypedValue::TupleVal(h) => TypedValue::TupleVal(*h),
            TypedValue::UserTypeVal(h) => TypedValue::UserTypeVal(*h),
        }
    }
}

impl TypedValue {
    /// Decides whether this value can be represented in its wire form.
    pub fn encodable(&self) -> (r: bool)
        ensures
            r == value_ok(self.deep_view()),
    {
        match self {
            TypedValue::Text(s) => text_check(s.as_str()),
            TypedValue::Inet(i) => i.octets.len() == 4 || i.octets.len() == 16,
            _ => true,
        }
    }
}

} // verus!
