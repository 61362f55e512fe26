//! The values that a document field is normalised into.

use std::borrow::Cow;
use std::ops::{Deref, DerefMut};
use vstd::prelude::*;
use vstd::std_specs::convert::{FromSpec, FromSpecImpl, IntoSpec};

use crate::bindings::tantivy_path_of;
use crate::datetime::DateTime;
use crate::facet::Facet;
use crate::float::Float64;
use crate::ip::{Ipv4Address, Ipv6Address};
use crate::wrappers::{Bytes, Text};

verus! {

/// The fields of an object or of a document, in the order in which they were
/// given. A key may occur more than once.
pub type KeyValues<'a> = Vec<(Cow<'a, str>, Value<'a>)>;

/// The iterator that hands the fields out one by one, in their order.
pub type KeyValuesIter<'a> = std::vec::IntoIter<(Cow<'a, str>, Value<'a>)>;

/// The type that a field holds, by which one type per field name is
/// enforced across an index.
#[derive(Debug, Clone, Copy, PartialEq, Eq, Structural, Hash)]
pub enum FieldType {
    Null,
    String,
    U64,
    I64,
    F64,
    Bool,
    Facet,
    DateTime,
    IpAddr,
    Bytes,
    Array,
    Object,
}

/// A value of a document field.
#[derive(Debug, PartialEq)]
pub enum Value<'a> {
    Null,
    Str(Cow<'a, str>),
    U64(u64),
    I64(i64),
    F64(Float64),
    Bool(bool),
    Facet(Facet<'a>),
    DateTime(DateTime),
    /// An IP address, always in its IPv6 form.
    IpAddr(Ipv6Address),
    Bytes(Vec<u8>),
    Array(Vec<Value<'a>>),
    Object(KeyValues<'a>),
}

/// What a [`Value`] holds, whether it borrows its text or owns it.
pub enum ValueView {
    Null,
    Str(Seq<char>),
    U64(u64),
    I64(i64),
    F64(Float64),
    Bool(bool),
    Facet(Seq<char>),
    /// The microsecond count of the timestamp.
    DateTime(int),
    IpAddr(Ipv6Address),
    Bytes(Seq<u8>),
    Array(Seq<ValueView>),
    Object(Seq<(Seq<char>, ValueView)>),
}

impl<'a> Value<'a> {
    /// What the value holds.
    pub open spec fn spec_view(self) -> ValueView
        decreases self,
    {
        match self {
            Value::Null => ValueView::Null,
            Value::Str(text) => ValueView::Str(text@),
            Value::U64(v) => ValueView::U64(v),
            Value::I64(v) => ValueView::I64(v),
            Value::F64(v) => ValueView::F64(v),
            Value::Bool(v) => ValueView::Bool(v),
            Value::Facet(facet) => ValueView::Facet(facet@),
            Value::DateTime(datetime) => ValueView::DateTime(datetime@),
            Value::IpAddr(addr) => ValueView::IpAddr(addr),
            Value::Bytes(bytes) => ValueView::Bytes(bytes@),
            Value::Array(items) => ValueView::Array(
                Seq::new(
                    items@.len(),
                    |i: int|
                        if 0 <= i < items@.len() {
                            items@[i].spec_view()
                        } else {
                            ValueView::Null
                        },
                ),
            ),
            Value::Object(fields) => ValueView::Object(
                Seq::new(
                    fields@.len(),
                    |i: int|
                        if 0 <= i < fields@.len() {
                            (fields@[i].0@, fields@[i].1.spec_view())
                        } else {
                            (Seq::empty(), ValueView::Null)
                        },
                ),
            ),
        }
    }
}

impl<'a> View for Value<'a> {
    type V = ValueView;

    open spec fn view(&self) -> ValueView {
        self.spec_view()
    }
}

/// What each of the values holds, in their order.
pub open spec fn item_views<'a>(items: Seq<Value<'a>>) -> Seq<ValueView> {
    Seq::new(items.len(), |i: int| items[i]@)
}

/// The key of each field and what its value holds, in their order.
pub open spec fn field_views<'a>(fields: Seq<(Cow<'a, str>, Value<'a>)>) -> Seq<
    (Seq<char>, ValueView),
> {
    Seq::new(fields.len(), |i: int| (fields[i].0@, fields[i].1@))
}

/// An array holds what its items hold, in their order.
pub proof fn lemma_array_view<'a>(items: Vec<Value<'a>>)
    ensures
        Value::Array(items)@ == ValueView::Array(item_views(items@)),
{
    assert(Value::Array(items)@->Array_0 =~= item_views(items@));
}

/// An object holds the keys of its fields and what their values hold, in
/// their order.
pub proof fn lemma_object_view<'a>(fields: KeyValues<'a>)
    ensures
        Value::Object(fields)@ == ValueView::Object(field_views(fields@)),
{
    assert(Value::Object(fields)@->Object_0 =~= field_views(fields@));
}

impl ValueView {
    /// The field type of a value with this view.
    pub open spec fn field_type(self) -> FieldType {
        match self {
            ValueView::Null => FieldType::Null,
            ValueView::Str(_) => FieldType::String,
            ValueView::U64(_) => FieldType::U64,
            ValueView::I64(_) => FieldType::I64,
            ValueView::F64(_) => FieldType::F64,
            ValueView::Bool(_) => FieldType::Bool,
            ValueView::Facet(_) => FieldType::Facet,
            ValueView::DateTime(_) => FieldType::DateTime,
            ValueView::IpAddr(_) => FieldType::IpAddr,
            ValueView::Bytes(_) => FieldType::Bytes,
            ValueView::Array(_) => FieldType::Array,
            ValueView::Object(_) => FieldType::Object,
        }
    }
}

/// True when the two are of the same variant, whatever they hold.
pub open spec fn same_variant(a: ValueView, b: ValueView) -> bool {
    match (a, b) {
        (ValueView::Null, ValueView::Null) => true,
        (ValueView::Str(_), ValueView::Str(_)) => true,
        (ValueView::U64(_), ValueView::U64(_)) => true,
        (ValueView::I64(_), ValueView::I64(_)) => true,
        (ValueView::F64(_), ValueView::F64(_)) => true,
        (ValueView::Bool(_), ValueView::Bool(_)) => true,
        (ValueView::Facet(_), ValueView::Facet(_)) => true,
        (ValueView::DateTime(_), ValueView::DateTime(_)) => true,
        (ValueView::IpAddr(_), ValueView::IpAddr(_)) => true,
        (ValueView::Bytes(_), ValueView::Bytes(_)) => true,
        (ValueView::Array(_), ValueView::Array(_)) => true,
        (ValueView::Object(_), ValueView::Object(_)) => true,
        _ => false,
    }
}

/// The field type of a value depends on its variant and on nothing else:
/// two values have the same field type exactly when they are of the same
/// variant.
pub proof fn lemma_field_type_by_variant<'a>(a: Value<'a>, b: Value<'a>)
    ensures
        a@.field_type() == b@.field_type() <==> same_variant(a@, b@),
{
}

/// The names of the field types are in step with the types: no two types
/// share a name.
pub proof fn lemma_names_distinct(a: FieldType, b: FieldType)
    ensures
        a.spec_name() == b.spec_name() <==> a == b,
{
    reveal_strlit("null");
    reveal_strlit("string");
    reveal_strlit("u64");
    reveal_strlit("i64");
    reveal_strlit("f64");
    reveal_strlit("bool");
    reveal_strlit("facet");
    reveal_strlit("datetime");
    reveal_strlit("ip");
    reveal_strlit("bytes");
    reveal_strlit("array");
    reveal_strlit("object");
    if a != b && a.spec_name() == b.spec_name() {
        assert(a.spec_name().len() == b.spec_name().len());
        assert(a.spec_name()[0] == b.spec_name()[0]);
    }
}

/// An IPv4 address and its IPv4-mapped IPv6 form become the same value,
/// which is shown to users as `ip`.
pub proof fn lemma_ipv4_is_its_mapped_form<'a>(v4: Ipv4Address)
    ensures
        <Value<'a> as FromSpec<Ipv4Address>>::from_spec(v4) == <Value<'a> as FromSpec<
            Ipv6Address,
        >>::from_spec(v4.spec_to_ipv6_mapped()),
        <Value<'a> as FromSpec<Ipv4Address>>::from_spec(v4).spec_display_type_name() == "ip"@,
        <Value<'a> as FromSpec<Ipv6Address>>::from_spec(
            v4.spec_to_ipv6_mapped(),
        ).spec_display_type_name() == "ip"@,
{
}

impl<'a> Value<'a> {
    /// The field type of the value: one tag for each variant, whatever the
    /// variant holds.
    #[inline]
    pub fn as_field_type(&self) -> (r: FieldType)
        ensures
            r == self@.field_type(),
    {
        match self {
            Value::Null => FieldType::Null,
            Value::Str(_) => FieldType::String,
            Value::U64(_) => FieldType::U64,
            Value::I64(_) => FieldType::I64,
            Value::F64(_) => FieldType::F64,
            Value::Bool(_) => FieldType::Bool,
            Value::Facet(_) => FieldType::Facet,
            Value::DateTime(_) => FieldType::DateTime,
            Value::IpAddr(_) => FieldType::IpAddr,
            Value::Bytes(_) => FieldType::Bytes,
            Value::Array(_) => FieldType::Array,
            Value::Object(_) => FieldType::Object,
        }
    }
}

impl FieldType {
    /// The name under which the type is shown to users.
    pub open spec fn spec_name(self) -> Seq<char> {
        match self {
            FieldType::Null => "null"@,
            FieldType::String => "string"@,
            FieldType::U64 => "u64"@,
            FieldType::I64 => "i64"@,
            FieldType::F64 => "f64"@,
            FieldType::Bool => "bool"@,
            FieldType::Facet => "facet"@,
            FieldType::DateTime => "datetime"@,
            FieldType::IpAddr => "ip"@,
            FieldType::Bytes => "bytes"@,
            FieldType::Array => "array"@,
            FieldType::Object => "object"@,
        }
    }

    /// The name under which the type is shown to users.
    pub fn name(self) -> (r: &'static str)
        ensures
            r@ == self.spec_name(),
    {
        match self {
            FieldType::Null => "null",
            FieldType::String => "string",
            FieldType::U64 => "u64",
            FieldType::I64 => "i64",
            FieldType::F64 => "f64",
            FieldType::Bool => "bool",
            FieldType::Facet => "facet",
            FieldType::DateTime => "datetime",
            FieldType::IpAddr => "ip",
            FieldType::Bytes => "bytes",
            FieldType::Array => "array",
            FieldType::Object => "object",
        }
    }
}

/// A value that can tell the user what type it is of.
pub trait UserDisplayType {
    /// What `display_type_name` returns.
    spec fn spec_display_type_name(&self) -> Seq<char>;

    /// The name of the value's type, as diagnostics show it.
    fn display_type_name(&self) -> (name: Cow<'static, str>)
        ensures
            name@ == self.spec_display_type_name(),
    ;
}

impl<'a> UserDisplayType for Value<'a> {
    open spec fn spec_display_type_name(&self) -> Seq<char> {
        self@.field_type().spec_name()
    }

    fn display_type_name(&self) -> (name: Cow<'static, str>) {
        Cow::Borrowed(self.as_field_type().name())
    }
}

impl<'a> UserDisplayType for &Value<'a> {
    open spec fn spec_display_type_name(&self) -> Seq<char> {
        (**self)@.field_type().spec_name()
    }

    fn display_type_name(&self) -> (name: Cow<'static, str>) {
        Cow::Borrowed((*self).as_field_type().name())
    }
}

impl<'a> UserDisplayType for KeyValues<'a> {
    open spec fn spec_display_type_name(&self) -> Seq<char> {
        FieldType::Object.spec_name()
    }

    fn display_type_name(&self) -> (name: Cow<'static, str>) {
        Cow::Borrowed(FieldType::Object.name())
    }
}

impl<'a> UserDisplayType for Facet<'a> {
    open spec fn spec_display_type_name(&self) -> Seq<char> {
        FieldType::Facet.spec_name()
    }

    fn display_type_name(&self) -> (name: Cow<'static, str>) {
        Cow::Borrowed(FieldType::Facet.name())
    }
}

impl<'a> From<&'a str> for Value<'a> {
    fn from(value: &'a str) -> (r: Self)
        ensures
            r@ == ValueView::Str(value@),
    {
        Self::Str(Cow::Borrowed(value))
    }
}

impl<'a> FromSpecImpl<&'a str> for Value<'a> {
    open spec fn obeys_from_spec() -> bool {
        true
    }

    open spec fn from_spec(value: &'a str) -> Self {
        Value::Str(Cow::Borrowed(value))
    }
}

impl<'a> From<String> for Value<'a> {
    fn from(value: String) -> (r: Self)
        ensures
            r@ == ValueView::Str(value@),
    {
        Self::Str(Cow::Owned(value))
    }
}

impl<'a> FromSpecImpl<String> for Value<'a> {
    open spec fn obeys_from_spec() -> bool {
        true
    }

    open spec fn from_spec(value: String) -> Self {
        Value::Str(Cow::Owned(value))
    }
}

impl<'a> From<Text<'a>> for Value<'a> {
    fn from(value: Text<'a>) -> (r: Self)
        ensures
            r@ == ValueView::Str(value@),
    {
        Self::Str(value.0)
    }
}

impl<'a> FromSpecImpl<Text<'a>> for Value<'a> {
    open spec fn obeys_from_spec() -> bool {
        true
    }

    open spec fn from_spec(value: Text<'a>) -> Self {
        Value::Str(value.0)
    }
}

impl<'a> From<Cow<'a, str>> for Value<'a> {
    fn from(value: Cow<'a, str>) -> (r: Self)
        ensures
            r@ == ValueView::Str(value@),
    {
        Self::Str(value)
    }
}

impl<'a> FromSpecImpl<Cow<'a, str>> for Value<'a> {
    open spec fn obeys_from_spec() -> bool {
        true
    }

    open spec fn from_spec(value: Cow<'a, str>) -> Self {
        Value::Str(value)
    }
}

impl<'a> From<Bytes> for Value<'a> {
    fn from(value: Bytes) -> (r: Self)
        ensures
            r@ == ValueView::Bytes(value@),
    {
        Self::Bytes(value.0)
    }
}

impl<'a> FromSpecImpl<Bytes> for Value<'a> {
    open spec fn obeys_from_spec() -> bool {
        true
    }

    open spec fn from_spec(value: Bytes) -> Self {
        Value::Bytes(value.0)
    }
}

impl<'a> From<u64> for Value<'a> {
    fn from(value: u64) -> (r: Self)
        ensures
            r@ == ValueView::U64(value),
    {
        Self::U64(value)
    }
}

impl<'a> FromSpecImpl<u64> for Value<'a> {
    open spec fn obeys_from_spec() -> bool {
        true
    }

    open spec fn from_spec(value: u64) -> Self {
        Value::U64(value)
    }
}

impl<'a> From<i64> for Value<'a> {
    fn from(value: i64) -> (r: Self)
        ensures
            r@ == ValueView::I64(value),
    {
        Self::I64(value)
    }
}

impl<'a> FromSpecImpl<i64> for Value<'a> {
    open spec fn obeys_from_spec() -> bool {
        true
    }

    open spec fn from_spec(value: i64) -> Self {
        Value::I64(value)
    }
}

impl<'a> From<Float64> for Value<'a> {
    fn from(value: Float64) -> (r: Self)
        ensures
            r@ == ValueView::F64(value),
    {
        Self::F64(value)
    }
}

impl<'a> FromSpecImpl<Float64> for Value<'a> {
    open spec fn obeys_from_spec() -> bool {
        true
    }

    open spec fn from_spec(value: Float64) -> Self {
        Value::F64(value)
    }
}

impl<'a> From<bool> for Value<'a> {
    fn from(value: bool) -> (r: Self)
        ensures
            r@ == ValueView::Bool(value),
    {
        Self::Bool(value)
    }
}

impl<'a> FromSpecImpl<bool> for Value<'a> {
    open spec fn obeys_from_spec() -> bool {
        true
    }

    open spec fn from_spec(value: bool) -> Self {
        Value::Bool(value)
    }
}

impl<'a> From<Ipv4Address> for Value<'a> {
    /// The address in its IPv4-mapped IPv6 form.
    fn from(value: Ipv4Address) -> (r: Self)
        ensures
            r@ == ValueView::IpAddr(value.spec_to_ipv6_mapped()),
    {
        Self::IpAddr(value.to_ipv6_mapped())
    }
}

impl<'a> FromSpecImpl<Ipv4Address> for Value<'a> {
    open spec fn obeys_from_spec() -> bool {
        true
    }

    open spec fn from_spec(value: Ipv4Address) -> Self {
        Value::IpAddr(value.spec_to_ipv6_mapped())
    }
}

impl<'a> From<Ipv6Address> for Value<'a> {
    fn from(value: Ipv6Address) -> (r: Self)
        ensures
            r@ == ValueView::IpAddr(value),
    {
        Self::IpAddr(value)
    }
}

impl<'a> FromSpecImpl<Ipv6Address> for Value<'a> {
    open spec fn obeys_from_spec() -> bool {
        true
    }

    open spec fn from_spec(value: Ipv6Address) -> Self {
        Value::IpAddr(value)
    }
}

impl<'a> From<DateTime> for Value<'a> {
    fn from(value: DateTime) -> (r: Self)
        ensures
            r@ == ValueView::DateTime(value@),
    {
        Self::DateTime(value)
    }
}

impl<'a> FromSpecImpl<DateTime> for Value<'a> {
    open spec fn obeys_from_spec() -> bool {
        true
    }

    open spec fn from_spec(value: DateTime) -> Self {
        Value::DateTime(value)
    }
}

impl<'a> From<Facet<'a>> for Value<'a> {
    fn from(value: Facet<'a>) -> (r: Self)
        ensures
            r@ == ValueView::Facet(value@),
    {
        Self::Facet(value)
    }
}

impl<'a> FromSpecImpl<Facet<'a>> for Value<'a> {
    open spec fn obeys_from_spec() -> bool {
        true
    }

    open spec fn from_spec(value: Facet<'a>) -> Self {
        Value::Facet(value)
    }
}

/// The types that convert into a [`Value`], and so can be the items of an
/// array.
///
/// The conversion of a vector states its contract for these types only. A
/// key with a value is not among them: a vector of such pairs becomes an
/// object, by the conversion of its own.
pub trait ArrayItem<'a> {
    /// True of every type that converts into a value.
    spec fn is_array_item() -> bool;
}

impl<'a, T: Into<Value<'a>>> ArrayItem<'a> for T {
    open spec fn is_array_item() -> bool {
        true
    }
}

impl<'a, T: Into<Value<'a>>> From<Vec<T>> for Value<'a> {
    /// The array of the items, each converted, in their order: as many
    /// items as the vector has, none dropped, merged or flattened.
    fn from(value: Vec<T>) -> (r: Self)
        ensures
            <T as ArrayItem<'a>>::is_array_item() ==> r is Array,
            <T as ArrayItem<'a>>::is_array_item() ==> r->Array_0@.len() == value@.len(),
            <T as ArrayItem<'a>>::is_array_item() && <T as IntoSpec<Value<'a>>>::obeys_into_spec()
                ==> forall|i: int|
                0 <= i < value@.len() ==> #[trigger] r->Array_0@[i] == value@[i].into_spec(),
            <T as ArrayItem<'a>>::is_array_item() && <T as IntoSpec<Value<'a>>>::obeys_into_spec()
                ==> r@ == ValueView::Array(
                Seq::new(value@.len(), |i: int| value@[i].into_spec()@),
            ),
    {
        let ghost source = value@;
        let mut items: Vec<Value<'a>> = Vec::new();
        for item in it: value
            invariant
                it.seq() == source,
                items@.len() == it.index(),
                <T as IntoSpec<Value<'a>>>::obeys_into_spec() ==> forall|j: int|
                    0 <= j < items@.len() ==> items@[j] == #[trigger] source[j].into_spec(),
        {
            items.push(item.into());
        }
        let r = Value::Array(items);
        proof {
            if <T as IntoSpec<Value<'a>>>::obeys_into_spec() {
                assert(r@->Array_0 =~= Seq::new(source.len(), |i: int| source[i].into_spec()@));
            }
        }
        r
    }
}

impl<'a, T: Into<Value<'a>>> FromSpecImpl<Vec<T>> for Value<'a> {
    open spec fn obeys_from_spec() -> bool {
        false
    }

    closed spec fn from_spec(value: Vec<T>) -> Self {
        arbitrary()
    }
}

impl<'a, T: Into<Value<'a>>> From<Vec<(Cow<'a, str>, T)>> for Value<'a> {
    /// The object of the fields, each value converted, in their order: as
    /// many fields as the vector has pairs, each under its key, a key that
    /// occurs twice kept twice.
    fn from(value: Vec<(Cow<'a, str>, T)>) -> (r: Self)
        ensures
            r is Object,
            r->Object_0@.len() == value@.len(),
            forall|i: int|
                0 <= i < value@.len() ==> (#[trigger] r->Object_0@[i]).0 == value@[i].0,
            <T as IntoSpec<Value<'a>>>::obeys_into_spec() ==> forall|i: int|
                0 <= i < value@.len() ==> (#[trigger] r->Object_0@[i]).1
                    == value@[i].1.into_spec(),
            <T as IntoSpec<Value<'a>>>::obeys_into_spec() ==> r@ == ValueView::Object(
                Seq::new(value@.len(), |i: int| (value@[i].0@, value@[i].1.into_spec()@)),
            ),
    {
        let ghost source = value@;
        let mut fields: KeyValues<'a> = Vec::new();
        for field in it: value
            invariant
                it.seq() == source,
                fields@.len() == it.index(),
                forall|j: int| 0 <= j < fields@.len() ==> (#[trigger] fields@[j]).0 == source[j].0,
                <T as IntoSpec<Value<'a>>>::obeys_into_spec() ==> forall|j: int|
                    0 <= j < fields@.len() ==> fields@[j].1 == #[trigger] source[j].1.into_spec(),
        {
            let (key, item) = field;
            fields.push((key, item.into()));
        }
        let r = Value::Object(fields);
        proof {
            if <T as IntoSpec<Value<'a>>>::obeys_into_spec() {
                assert(r@->Object_0 =~= Seq::new(
                    source.len(),
                    |i: int| (source[i].0@, source[i].1.into_spec()@),
                ));
            }
        }
        r
    }
}

impl<'a, T: Into<Value<'a>>> FromSpecImpl<Vec<(Cow<'a, str>, T)>> for Value<'a> {
    open spec fn obeys_from_spec() -> bool {
        false
    }

    closed spec fn from_spec(value: Vec<(Cow<'a, str>, T)>) -> Self {
        arbitrary()
    }
}

impl<'a> From<tantivy::schema::Facet> for Value<'a> {
    /// The facet whose text is the path that the parsed facet renders.
    fn from(value: tantivy::schema::Facet) -> (r: Self)
        ensures
            r@ == ValueView::Facet(tantivy_path_of(value)),
    {
        Self::Facet(Facet::from(value))
    }
}

impl<'a> FromSpecImpl<tantivy::schema::Facet> for Value<'a> {
    open spec fn obeys_from_spec() -> bool {
        false
    }

    closed spec fn from_spec(value: tantivy::schema::Facet) -> Self {
        arbitrary()
    }
}

/// Copies text: borrowed text stays borrowed, owned text is copied.
fn clone_text<'a>(text: &Cow<'a, str>) -> (r: Cow<'a, str>)
    ensures
        r@ == text@,
{
    match text {
        Cow::Borrowed(borrowed) => Cow::Borrowed(*borrowed),
        Cow::Owned(owned) => Cow::Owned(owned.clone()),
    }
}

impl<'a> Clone for Value<'a> {
    /// A copy that holds what the value holds.
    fn clone(&self) -> (r: Self)
        ensures
            r@ == self@,
        decreases self,
    {
        match self {
            Value::Null => Value::Null,
            Value::Str(text) => Value::Str(clone_text(text)),
            Value::U64(v) => Value::U64(*v),
            Value::I64(v) => Value::I64(*v),
            Value::F64(v) => Value::F64(*v),
            Value::Bool(v) => Value::Bool(*v),
            Value::Facet(facet) => Value::Facet(facet.clone()),
            Value::DateTime(datetime) => Value::DateTime(*datetime),
            Value::IpAddr(addr) => Value::IpAddr(*addr),
            Value::Bytes(bytes) => {
                let copy = bytes.clone();
                assert(copy@ =~= bytes@);
                Value::Bytes(copy)
            },
            Value::Array(items) => {
                let mut copies: Vec<Value<'a>> = Vec::new();
                let mut i: usize = 0;
                while i < items.len()
                    invariant
                        i <= items@.len(),
                        copies@.len() == i,
                        forall|j: int| 0 <= j < i ==> (#[trigger] copies@[j])@ == items@[j]@,
                        self is Array,
                        self->Array_0 == *items,
                    decreases items@.len() - i,
                {
                    copies.push(items[i].clone());
                    i += 1;
                }
                let r = Value::Array(copies);
                assert(r@->Array_0 =~= self@->Array_0);
                r
            },
            Value::Object(fields) => {
                let mut copies: KeyValues<'a> = Vec::new();
                let mut i: usize = 0;
                while i < fields.len()
                    invariant
                        i <= fields@.len(),
                        copies@.len() == i,
                        forall|j: int|
                            0 <= j < i ==> (#[trigger] copies@[j]).0@ == fields@[j].0@
                                && copies@[j].1@ == fields@[j].1@,
                        self is Object,
                        self->Object_0 == *fields,
                    decreases fields@.len() - i,
                {
                    let key = clone_text(&fields[i].0);
                    let value = fields[i].1.clone();
                    copies.push((key, value));
                    i += 1;
                }
                let r = Value::Object(copies);
                assert(r@->Object_0 =~= self@->Object_0);
                r
            },
        }
    }
}

/// A JSON-like document: its fields in the order in which they were given.
///
/// A key may occur more than once: nothing is merged, reordered or checked
/// here. The view of a document is the key of each field and what its value
/// holds, in that order.
#[derive(Debug)]
pub struct DynamicDocument<'a>(pub KeyValues<'a>);

impl<'a> View for DynamicDocument<'a> {
    type V = Seq<(Seq<char>, ValueView)>;

    open spec fn view(&self) -> Seq<(Seq<char>, ValueView)> {
        field_views(self.0@)
    }
}

impl<'a> Clone for DynamicDocument<'a> {
    /// A copy with the same fields in the same order.
    fn clone(&self) -> (r: Self)
        ensures
            r@ == self@,
    {
        let mut copies: KeyValues<'a> = Vec::new();
        let mut i: usize = 0;
        while i < self.0.len()
            invariant
                i <= self.0@.len(),
                copies@.len() == i,
                forall|j: int|
                    0 <= j < i ==> (#[trigger] copies@[j]).0@ == self.0@[j].0@ && copies@[j].1@
                        == self.0@[j].1@,
            decreases self.0@.len() - i,
        {
            let key = clone_text(&self.0[i].0);
            let value = self.0[i].1.clone();
            copies.push((key, value));
            i += 1;
        }
        let r = Self(copies);
        assert(r@ =~= self@);
        r
    }
}

impl<'a> Default for DynamicDocument<'a> {
    /// The document without fields.
    fn default() -> (r: Self)
        ensures
            r.0@ == Seq::<(Cow<'a, str>, Value<'a>)>::empty(),
            r@ == Seq::<(Seq<char>, ValueView)>::empty(),
    {
        Self(Vec::new())
    }
}

impl<'a> From<KeyValues<'a>> for DynamicDocument<'a> {
    fn from(value: KeyValues<'a>) -> (r: Self)
        ensures
            r.0 == value,
            r@ == field_views(value@),
    {
        Self(value)
    }
}

impl<'a> FromSpecImpl<KeyValues<'a>> for DynamicDocument<'a> {
    open spec fn obeys_from_spec() -> bool {
        true
    }

    open spec fn from_spec(value: KeyValues<'a>) -> Self {
        DynamicDocument(value)
    }
}

impl<'a> Deref for DynamicDocument<'a> {
    type Target = KeyValues<'a>;

    fn deref(&self) -> (r: &Self::Target)
        ensures
            *r == self.0,
    {
        &self.0
    }
}

impl<'a> DerefMut for DynamicDocument<'a> {
    fn deref_mut(&mut self) -> (r: &mut Self::Target)
        ensures
            *r == old(self).0,
            final(self).0 == *final(r),
    {
        &mut self.0
    }
}

impl<'a> From<DynamicDocument<'a>> for Value<'a> {
    /// The object with the fields of the document.
    fn from(value: DynamicDocument<'a>) -> (r: Self)
        ensures
            r@ == ValueView::Object(value@),
    {
        proof {
            lemma_object_view(value.0);
        }
        Self::Object(value.0)
    }
}

impl<'a> FromSpecImpl<DynamicDocument<'a>> for Value<'a> {
    open spec fn obeys_from_spec() -> bool {
        true
    }

    open spec fn from_spec(value: DynamicDocument<'a>) -> Self {
        Value::Object(value.0)
    }
}

} // verus!
