//! Logical schemas and the coercion mapping between the engine's logical
//! column types and the cache's internal representation.

use vstd::prelude::*;
use crate::CacheMode;

verus! {

/// Granularity of a timestamp column.
#[derive(Clone, Copy, Debug, PartialEq, Eq, Structural)]
pub enum TimeUnit {
    Second,
    Millisecond,
    Microsecond,
    Nanosecond,
}

impl TimeUnit {
    /// Number of ticks of this unit per nanosecond tick, i.e. the factor by
    /// which a value in this unit is multiplied to express it in nanoseconds.
    pub open spec fn ns_factor_spec(self) -> int {
        match self {
            TimeUnit::Second => 1_000_000_000,
            TimeUnit::Millisecond => 1_000_000,
            TimeUnit::Microsecond => 1_000,
            TimeUnit::Nanosecond => 1,
        }
    }

    /// Executable twin of [`Self::ns_factor_spec`].
    pub fn ns_factor(self) -> (r: i64)
        ensures
            r as int == self.ns_factor_spec(),
            1 <= r <= 1_000_000_000,
    {
        match self {
            TimeUnit::Second => 1_000_000_000,
            TimeUnit::Millisecond => 1_000_000,
            TimeUnit::Microsecond => 1_000,
            TimeUnit::Nanosecond => 1,
        }
    }
}

/// A column's logical type, as the query engine sees it, together with the
/// cache-internal representations that coercion can introduce.
#[derive(Clone, Copy, Debug, PartialEq, Eq, Structural)]
pub enum LogicalType {
    Boolean,
    Int8,
    Int16,
    Int32,
    Int64,
    Date32,
    Utf8,
    LargeUtf8,
    Binary,
    /// Fixed-point decimal with the given precision and scale.
    Decimal { precision: u8, scale: u8 },
    /// Point in time counted in ticks of the given unit.
    Timestamp { unit: TimeUnit },
    /// Cache-internal: dictionary-encoded string column.
    DictUtf8,
    /// Cache-internal: dictionary-encoded binary column.
    DictBinary,
    /// Cache-internal: sixteen-byte fixed-width binary layout.
    FixedBinary16,
    /// A type this pass does not know; carried through untouched.
    Other { code: u64 },
}

/// Mathematical view of a schema field: a name and a logical type.
#[verifier::ext_equal]
pub ghost struct FieldView {
    pub name: Seq<char>,
    pub ty: LogicalType,
}

/// A named, typed column of a schema.
#[derive(Debug, PartialEq, Eq)]
pub struct Field {
    pub name: String,
    pub ty: LogicalType,
}

impl View for Field {
    type V = FieldView;

    open spec fn view(&self) -> FieldView {
        FieldView { name: self.name@, ty: self.ty }
    }
}

impl Field {
    /// Build a field from its parts.
    pub fn new(name: String, ty: LogicalType) -> (r: Field)
        ensures
            r@ == (FieldView { name: name@, ty }),
    {
        Field { name, ty }
    }

    /// A structurally equal copy of this field.
    pub fn duplicate(&self) -> (r: Field)
        ensures
            r@ == self@,
    {
        Field { name: self.name.clone(), ty: self.ty }
    }
}

/// An ordered sequence of fields; field order is significant, because rows
/// bind to fields positionally.
#[derive(Debug, PartialEq, Eq)]
pub struct Schema {
    pub fields: Vec<Field>,
}

impl View for Schema {
    type V = Seq<FieldView>;

    open spec fn view(&self) -> Seq<FieldView> {
        Seq::new(self.fields@.len(), |i: int| self.fields@[i]@)
    }
}

impl Schema {
    /// Build a schema from its fields.
    pub fn new(fields: Vec<Field>) -> (r: Schema)
        ensures
            r@ == Seq::new(fields@.len(), |i: int| fields@[i]@),
    {
        Schema { fields }
    }

    /// Number of fields.
    pub fn len(&self) -> (r: usize)
        ensures
            r == self@.len(),
    {
        self.fields.len()
    }

    /// A structurally equal copy of this schema.
    pub fn duplicate(&self) -> (r: Schema)
        ensures
            r@ == self@,
    {
        let mut fields: Vec<Field> = Vec::new();
        let mut i: usize = 0;
        while i < self.fields.len()
            invariant
                i <= self.fields@.len(),
                fields@.len() == i as int,
                forall|j: int| 0 <= j < i ==> fields@[j]@ == self.fields@[j]@,
            decreases self.fields@.len() - i,
        {
            fields.push(self.fields[i].duplicate());
            i = i + 1;
        }
        let r = Schema { fields };
        assert(r@ =~= self@);
        r
    }
}

/// Why a schema could not be coerced to the cache's representation.
#[derive(Clone, Copy, Debug, PartialEq, Eq, Structural)]
pub enum CoerceError {
    /// The field at this position has a type the cache cannot represent.
    UnsupportedType { field_index: usize },
}

/// The fixed coercion table: the cache-compatible representation of a
/// logical type under the given cache mode, or `None` where the cache cannot
/// represent the type. With the cache disengaged nothing is re-represented.
pub open spec fn coerce_type_spec(t: LogicalType, mode: CacheMode) -> Option<LogicalType> {
    if !mode.is_engaged() {
        Some(t)
    } else {
        match t {
            LogicalType::Utf8 => Some(LogicalType::DictUtf8),
            LogicalType::LargeUtf8 => Some(LogicalType::DictUtf8),
            LogicalType::Binary => Some(LogicalType::DictBinary),
            LogicalType::Decimal { precision, scale } => Some(LogicalType::FixedBinary16),
            LogicalType::Timestamp { unit } => Some(
                LogicalType::Timestamp { unit: TimeUnit::Nanosecond },
            ),
            LogicalType::Other { code } => None,
            _ => Some(t),
        }
    }
}

/// Executable twin of the coercion table.
pub fn coerce_type(t: LogicalType, mode: CacheMode) -> (r: Option<LogicalType>)
    ensures
        r == coerce_type_spec(t, mode),
{
    if matches!(mode, CacheMode::Disabled) {
        Some(t)
    } else {
        match t {
            LogicalType::Utf8 => Some(LogicalType::DictUtf8),
            LogicalType::LargeUtf8 => Some(LogicalType::DictUtf8),
            LogicalType::Binary => Some(LogicalType::DictBinary),
            LogicalType::Decimal { precision, scale } => Some(LogicalType::FixedBinary16),
            LogicalType::Timestamp { unit } => Some(
                LogicalType::Timestamp { unit: TimeUnit::Nanosecond },
            ),
            LogicalType::Other { code } => None,
            other => Some(other),
        }
    }
}

/// Whether every field of `s` has a cache-compatible representation under `mode`.
pub open spec fn all_coercible(s: Seq<FieldView>, mode: CacheMode) -> bool {
    forall|i: int| 0 <= i < s.len() ==> #[trigger] coerce_type_spec(s[i].ty, mode) is Some
}

/// The coerced image of a schema: same field count, same names, same order,
/// each type replaced by its cache-compatible representation.
pub open spec fn coerce_schema_spec(s: Seq<FieldView>, mode: CacheMode) -> Option<Seq<FieldView>> {
    if all_coercible(s, mode) {
        Some(
            Seq::new(
                s.len(),
                |i: int| FieldView { name: s[i].name, ty: coerce_type_spec(s[i].ty, mode)->Some_0 },
            ),
        )
    } else {
        None
    }
}

/// Schema Coercion Mapper: maps each field's logical type to its
/// cache-compatible representation, preserving field count, names and order,
/// and reports the first unrepresentable field instead of dropping it.
pub fn coerce_schema(s: &Schema, mode: CacheMode) -> (r: Result<Schema, CoerceError>)
    ensures
        match r {
            Ok(cs) => coerce_schema_spec(s@, mode) == Some(cs@),
            Err(e) => {
                &&& coerce_schema_spec(s@, mode) is None
                &&& e matches CoerceError::UnsupportedType { field_index } && field_index
                    < s@.len() && coerce_type_spec(s@[field_index as int].ty, mode) is None
            },
        },
{
    let mut fields: Vec<Field> = Vec::new();
    let mut i: usize = 0;
    while i < s.fields.len()
        invariant
            i <= s.fields@.len(),
            fields@.len() == i as int,
            forall|j: int| 0 <= j < i ==> #[trigger] coerce_type_spec(s@[j].ty, mode) is Some,
            forall|j: int|
                0 <= j < i ==> #[trigger] fields@[j]@ == (FieldView {
                    name: s@[j].name,
                    ty: coerce_type_spec(s@[j].ty, mode)->Some_0,
                }),
        decreases s.fields@.len() - i,
    {
        let f = &s.fields[i];
        match coerce_type(f.ty, mode) {
            Some(ct) => {
                fields.push(Field { name: f.name.clone(), ty: ct });
            },
            None => {
                return Err(CoerceError::UnsupportedType { field_index: i });
            },
        }
        i = i + 1;
    }
    let cs = Schema { fields };
    proof {
        assert(all_coercible(s@, mode));
        assert(cs@ =~= coerce_schema_spec(s@, mode)->Some_0);
    }
    Ok(cs)
}

/// The mapper is transparent to everything but the types: a coerced schema
/// has exactly the field count, names and order of its original.
pub proof fn lemma_coercion_preserves_shape(s: Seq<FieldView>, mode: CacheMode)
    requires
        coerce_schema_spec(s, mode) is Some,
    ensures
        coerce_schema_spec(s, mode)->Some_0.len() == s.len(),
        forall|i: int|
            0 <= i < s.len() ==> #[trigger] coerce_schema_spec(s, mode)->Some_0[i].name
                == s[i].name,
{
}

/// With the cache disengaged the mapper is the identity.
pub proof fn lemma_coercion_disabled_identity(s: Seq<FieldView>)
    ensures
        coerce_schema_spec(s, CacheMode::Disabled) == Some(s),
{
    assert(coerce_schema_spec(s, CacheMode::Disabled)->Some_0 =~= s);
}

} // verus!
