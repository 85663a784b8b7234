//! The type-mapping validator.
//!
//! Source batches describe their columns with a columnar type tree
//! ([`SourceType`]); the table stores columns with its own, smaller type tree
//! ([`TargetType`]).  [`map_type`] maps the first onto
//! the second, totally and fail-fast: every source type either maps structurally by the
//! rule table encoded in [`map_type_spec`], or is rejected with a
//! [`TypeConversionError`] naming the reason — never silently defaulted.

use vstd::prelude::*;

verus! {

broadcast use vstd::std_specs::vec::group_vec_axioms, vstd::seq::group_seq_axioms;

/// Resolution of a timestamp-like source column.
#[derive(Clone, Copy, Debug, PartialEq, Eq, Structural)]
pub enum TimeUnit {
    Second,
    Millisecond,
    Microsecond,
    Nanosecond,
}

/// Unit of a calendar-interval source column.
#[derive(Clone, Copy, Debug, PartialEq, Eq, Structural)]
pub enum IntervalUnit {
    YearMonth,
    DayTime,
    MonthDayNano,
}

/// A named, possibly nullable column or nested element of the source data.
#[derive(Debug, PartialEq)]
pub struct SourceField {
    pub name: String,
    pub dtype: SourceType,
    pub nullable: bool,
}

/// The columnar type tree of the incoming data.
///
/// This mirrors the type system that the batch source describes its columns
/// with: a superset of what the table can store (unsigned widths, time of
/// day, durations, intervals, unions, encoded types, null-only columns).
#[derive(Debug, PartialEq)]
pub enum SourceType {
    Boolean,
    Int8,
    Int16,
    Int32,
    Int64,
    UInt8,
    UInt16,
    UInt32,
    UInt64,
    Float16,
    Float32,
    Float64,
    Utf8,
    LargeUtf8,
    Utf8View,
    Binary,
    LargeBinary,
    BinaryView,
    FixedSizeBinary(i32),
    Date32,
    Date64,
    /// Unit, and whether the column carries a time zone.
    Timestamp(TimeUnit, bool),
    Time32(TimeUnit),
    Time64(TimeUnit),
    Duration(TimeUnit),
    Interval(IntervalUnit),
    Decimal32(u8, i8),
    Decimal64(u8, i8),
    Decimal128(u8, i8),
    Decimal256(u8, i8),
    List(Box<SourceField>),
    LargeList(Box<SourceField>),
    FixedSizeList(Box<SourceField>, i32),
    ListView(Box<SourceField>),
    LargeListView(Box<SourceField>),
    /// The entries field (one struct per key/value pair), and whether the
    /// keys are sorted.
    MapOf(Box<SourceField>, bool),
    Struct(Vec<SourceField>),
    Union,
    /// A dictionary-encoded column, reduced to its logical value type.
    Dictionary(Box<SourceType>),
    /// A run-end-encoded column, reduced to its logical values field.
    RunEndEncoded(Box<SourceField>),
    Null,
}

/// Primitive kinds that the table can store.
#[derive(Clone, Copy, Debug, PartialEq, Eq, Structural)]
pub enum TargetPrimitive {
    Boolean,
    Byte,
    Short,
    Integer,
    Long,
    Float,
    Double,
    String,
    Binary,
    Date,
    /// Timestamp with a time zone.
    Timestamp,
    /// Timestamp without a time zone.
    TimestampNtz,
    /// Fixed-point decimal: precision, then scale.
    Decimal(u8, u8),
}

/// A named, possibly nullable field of the table's schema.
#[derive(Debug, PartialEq)]
pub struct TargetField {
    pub name: String,
    pub dtype: TargetType,
    pub nullable: bool,
}

/// The type tree of the table's own type system.
#[derive(Debug, PartialEq)]
pub enum TargetType {
    Primitive(TargetPrimitive),
    Array { element: Box<TargetType>, contains_null: bool },
    MapOf { key: Box<TargetType>, value: Box<TargetType>, value_contains_null: bool },
    Struct { fields: Vec<TargetField> },
}

/// Mathematical model of a [`SourceField`].
pub struct SourceFieldV {
    pub name: Seq<char>,
    pub dtype: SourceTypeV,
    pub nullable: bool,
}

/// Mathematical model of a [`SourceType`].
pub enum SourceTypeV {
    Boolean,
    Int8,
    Int16,
    Int32,
    Int64,
    UInt8,
    UInt16,
    UInt32,
    UInt64,
    Float16,
    Float32,
    Float64,
    Utf8,
    LargeUtf8,
    Utf8View,
    Binary,
    LargeBinary,
    BinaryView,
    FixedSizeBinary(i32),
    Date32,
    Date64,
    Timestamp(TimeUnit, bool),
    Time32(TimeUnit),
    Time64(TimeUnit),
    Duration(TimeUnit),
    Interval(IntervalUnit),
    Decimal32(u8, i8),
    Decimal64(u8, i8),
    Decimal128(u8, i8),
    Decimal256(u8, i8),
    List(Box<SourceFieldV>),
    LargeList(Box<SourceFieldV>),
    FixedSizeList(Box<SourceFieldV>, i32),
    ListView(Box<SourceFieldV>),
    LargeListView(Box<SourceFieldV>),
    MapOf(Box<SourceFieldV>, bool),
    Struct(Seq<SourceFieldV>),
    Union,
    Dictionary(Box<SourceTypeV>),
    RunEndEncoded(Box<SourceFieldV>),
    Null,
}

/// Mathematical model of a [`TargetField`].
pub struct TargetFieldV {
    pub name: Seq<char>,
    pub dtype: TargetTypeV,
    pub nullable: bool,
}

/// Mathematical model of a [`TargetType`].
pub enum TargetTypeV {
    Primitive(TargetPrimitive),
    Array { element: Box<TargetTypeV>, contains_null: bool },
    MapOf { key: Box<TargetTypeV>, value: Box<TargetTypeV>, value_contains_null: bool },
    Struct { fields: Seq<TargetFieldV> },
}

/// Model of a sequence of source fields, element by element.
pub open spec fn source_fields_view(fields: Seq<SourceField>) -> Seq<SourceFieldV>
    decreases fields,
{
    if fields.len() == 0 {
        Seq::empty()
    } else {
        seq![fields[0]@] + source_fields_view(fields.drop_first())
    }
}

/// Model of a sequence of target fields, element by element.
pub open spec fn target_fields_view(fields: Seq<TargetField>) -> Seq<TargetFieldV>
    decreases fields,
{
    if fields.len() == 0 {
        Seq::empty()
    } else {
        seq![fields[0]@] + target_fields_view(fields.drop_first())
    }
}

impl View for SourceField {
    type V = SourceFieldV;

    open spec fn view(&self) -> SourceFieldV
        decreases self,
    {
        SourceFieldV { name: self.name@, dtype: self.dtype@, nullable: self.nullable }
    }
}

impl View for SourceType {
    type V = SourceTypeV;

    open spec fn view(&self) -> SourceTypeV
        decreases self,
    {
        match self {
            SourceType::Boolean => SourceTypeV::Boolean,
            SourceType::Int8 => SourceTypeV::Int8,
            SourceType::Int16 => SourceTypeV::Int16,
            SourceType::Int32 => SourceTypeV::Int32,
            SourceType::Int64 => SourceTypeV::Int64,
            SourceType::UInt8 => SourceTypeV::UInt8,
            SourceType::UInt16 => SourceTypeV::UInt16,
            SourceType::UInt32 => SourceTypeV::UInt32,
            SourceType::UInt64 => SourceTypeV::UInt64,
            SourceType::Float16 => SourceTypeV::Float16,
            SourceType::Float32 => SourceTypeV::Float32,
            SourceType::Float64 => SourceTypeV::Float64,
            SourceType::Utf8 => SourceTypeV::Utf8,
            SourceType::LargeUtf8 => SourceTypeV::LargeUtf8,
            SourceType::Utf8View => SourceTypeV::Utf8View,
            SourceType::Binary => SourceTypeV::Binary,
            SourceType::LargeBinary => SourceTypeV::LargeBinary,
            SourceType::BinaryView => SourceTypeV::BinaryView,
            SourceType::FixedSizeBinary(w) => SourceTypeV::FixedSizeBinary(*w),
            SourceType::Date32 => SourceTypeV::Date32,
            SourceType::Date64 => SourceTypeV::Date64,
            SourceType::Timestamp(u, zoned) => SourceTypeV::Timestamp(*u, *zoned),
            SourceType::Time32(u) => SourceTypeV::Time32(*u),
            SourceType::Time64(u) => SourceTypeV::Time64(*u),
            SourceType::Duration(u) => SourceTypeV::Duration(*u),
            SourceType::Interval(u) => SourceTypeV::Interval(*u),
            SourceType::Decimal32(p, s) => SourceTypeV::Decimal32(*p, *s),
            SourceType::Decimal64(p, s) => SourceTypeV::Decimal64(*p, *s),
            SourceType::Decimal128(p, s) => SourceTypeV::Decimal128(*p, *s),
            SourceType::Decimal256(p, s) => SourceTypeV::Decimal256(*p, *s),
            SourceType::List(f) => SourceTypeV::List(Box::new((**f)@)),
            SourceType::LargeList(f) => SourceTypeV::LargeList(Box::new((**f)@)),
            SourceType::FixedSizeList(f, n) => SourceTypeV::FixedSizeList(Box::new((**f)@), *n),
            SourceType::ListView(f) => SourceTypeV::ListView(Box::new((**f)@)),
            SourceType::LargeListView(f) => SourceTypeV::LargeListView(Box::new((**f)@)),
            SourceType::MapOf(f, sorted) => SourceTypeV::MapOf(Box::new((**f)@), *sorted),
            SourceType::Struct(fields) => SourceTypeV::Struct(source_fields_view(fields@)),
            SourceType::Union => SourceTypeV::Union,
            SourceType::Dictionary(v) => SourceTypeV::Dictionary(Box::new((**v)@)),
            SourceType::RunEndEncoded(f) => SourceTypeV::RunEndEncoded(Box::new((**f)@)),
            SourceType::Null => SourceTypeV::Null,
        }
    }
}

impl View for TargetField {
    type V = TargetFieldV;

    open spec fn view(&self) -> TargetFieldV
        decreases self,
    {
        TargetFieldV { name: self.name@, dtype: self.dtype@, nullable: self.nullable }
    }
}

impl View for TargetType {
    type V = TargetTypeV;

    open spec fn view(&self) -> TargetTypeV
        decreases self,
    {
        match self {
            TargetType::Primitive(p) => TargetTypeV::Primitive(*p),
            TargetType::Array { element, contains_null } => TargetTypeV::Array {
                element: Box::new((**element)@),
                contains_null: *contains_null,
            },
            TargetType::MapOf { key, value, value_contains_null } => TargetTypeV::MapOf {
                key: Box::new((**key)@),
                value: Box::new((**value)@),
                value_contains_null: *value_contains_null,
            },
            TargetType::Struct { fields } => TargetTypeV::Struct {
                fields: target_fields_view(fields@),
            },
        }
    }
}

/// Why a source type has no representation in the table's type system.
#[derive(Clone, Copy, Debug, PartialEq, Eq, Structural)]
pub enum UnsupportedReason {
    /// 64-bit unsigned integers may exceed the range of the widest signed kind.
    UnsignedLongRange,
    /// Stand-alone time-of-day columns have no target representation.
    TimeOfDay,
    /// Duration columns have no target representation.
    DurationColumn,
    /// Calendar-interval columns have no target representation.
    IntervalColumn,
    /// Union columns have no target representation.
    UnionColumn,
    /// Columns holding only nulls have no concrete target type.
    NullOnly,
    /// Decimal parameters outside precision 1..=38 or scale 0..=precision.
    InvalidDecimal { precision: u8, scale: i8 },
    /// A 256-bit decimal wider than the target's precision ceiling.
    PrecisionExceeded { precision: u8 },
    /// A map type whose entries are not a two-field key/value struct.
    MapShape,
    /// A struct with two fields of the same name.
    DuplicateFieldNames,
}

/// A source type was rejected by the type mapper.
#[derive(Clone, Copy, Debug, PartialEq, Eq, Structural)]
pub struct TypeConversionError {
    pub reason: UnsupportedReason,
}

/// Decimal parameters the table can store: precision 1..=38, scale 0..=precision.
pub open spec fn valid_decimal(precision: u8, scale: i8) -> bool {
    &&& 1 <= precision <= 38
    &&& 0 <= scale <= precision
}

/// Rule for decimal source types of any width: accepted structurally when the
/// parameters are valid, rejected otherwise.
pub open spec fn map_decimal_spec(precision: u8, scale: i8) -> Result<
    TargetTypeV,
    UnsupportedReason,
> {
    if valid_decimal(precision, scale) {
        Ok(TargetTypeV::Primitive(TargetPrimitive::Decimal(precision, scale as u8)))
    } else {
        Err(UnsupportedReason::InvalidDecimal { precision, scale })
    }
}

/// Two fields of the sequence share a name.
pub open spec fn has_dup_names(fields: Seq<SourceFieldV>) -> bool {
    exists|i: int, j: int| 0 <= i < j < fields.len() && fields[i].name == fields[j].name
}

/// Rule for list-like source types: the element type is mapped recursively
/// and the element's nullability is preserved.
pub open spec fn map_element_spec(f: SourceFieldV) -> Result<TargetTypeV, UnsupportedReason>
    decreases f,
{
    match map_type_spec(f.dtype) {
        Ok(element) => Ok(
            TargetTypeV::Array { element: Box::new(element), contains_null: f.nullable },
        ),
        Err(e) => Err(e),
    }
}

/// Maps a sequence of source fields in order, keeping each field's name and
/// nullability, and propagating the first failure.
pub open spec fn map_fields_spec(fields: Seq<SourceFieldV>) -> Result<
    Seq<TargetFieldV>,
    UnsupportedReason,
>
    decreases fields,
{
    if fields.len() == 0 {
        Ok(Seq::empty())
    } else {
        match map_type_spec(fields[0].dtype) {
            Ok(dtype) => match map_fields_spec(fields.drop_first()) {
                Ok(rest) => Ok(
                    seq![
                        TargetFieldV {
                            name: fields[0].name,
                            dtype: dtype,
                            nullable: fields[0].nullable,
                        },
                    ] + rest,
                ),
                Err(e) => Err(e),
            },
            Err(e) => Err(e),
        }
    }
}

/// The rule table of the type mapper, one rule per source variant.
pub open spec fn map_type_spec(t: SourceTypeV) -> Result<TargetTypeV, UnsupportedReason>
    decreases t,
{
    match t {
        SourceTypeV::Boolean => Ok(TargetTypeV::Primitive(TargetPrimitive::Boolean)),
        SourceTypeV::Int8 => Ok(TargetTypeV::Primitive(TargetPrimitive::Byte)),
        SourceTypeV::Int16 => Ok(TargetTypeV::Primitive(TargetPrimitive::Short)),
        SourceTypeV::Int32 => Ok(TargetTypeV::Primitive(TargetPrimitive::Integer)),
        SourceTypeV::Int64 => Ok(TargetTypeV::Primitive(TargetPrimitive::Long)),
        // Unsigned widths are promoted to the next wider signed kind.
        SourceTypeV::UInt8 => Ok(TargetTypeV::Primitive(TargetPrimitive::Short)),
        SourceTypeV::UInt16 => Ok(TargetTypeV::Primitive(TargetPrimitive::Integer)),
        SourceTypeV::UInt32 => Ok(TargetTypeV::Primitive(TargetPrimitive::Long)),
        SourceTypeV::UInt64 => Err(UnsupportedReason::UnsignedLongRange),
        SourceTypeV::Float16 => Ok(TargetTypeV::Primitive(TargetPrimitive::Float)),
        SourceTypeV::Float32 => Ok(TargetTypeV::Primitive(TargetPrimitive::Float)),
        SourceTypeV::Float64 => Ok(TargetTypeV::Primitive(TargetPrimitive::Double)),
        SourceTypeV::Utf8 => Ok(TargetTypeV::Primitive(TargetPrimitive::String)),
        SourceTypeV::LargeUtf8 => Ok(TargetTypeV::Primitive(TargetPrimitive::String)),
        SourceTypeV::Utf8View => Ok(TargetTypeV::Primitive(TargetPrimitive::String)),
        SourceTypeV::Binary => Ok(TargetTypeV::Primitive(TargetPrimitive::Binary)),
        SourceTypeV::LargeBinary => Ok(TargetTypeV::Primitive(TargetPrimitive::Binary)),
        SourceTypeV::BinaryView => Ok(TargetTypeV::Primitive(TargetPrimitive::Binary)),
        SourceTypeV::FixedSizeBinary(_) => Ok(TargetTypeV::Primitive(TargetPrimitive::Binary)),
        SourceTypeV::Date32 => Ok(TargetTypeV::Primitive(TargetPrimitive::Date)),
        SourceTypeV::Date64 => Ok(TargetTypeV::Primitive(TargetPrimitive::Date)),
        // The unit narrows; only the presence of a zone splits the kind.
        SourceTypeV::Timestamp(_, zoned) => if zoned {
            Ok(TargetTypeV::Primitive(TargetPrimitive::Timestamp))
        } else {
            Ok(TargetTypeV::Primitive(TargetPrimitive::TimestampNtz))
        },
        SourceTypeV::Time32(_) => Err(UnsupportedReason::TimeOfDay),
        SourceTypeV::Time64(_) => Err(UnsupportedReason::TimeOfDay),
        SourceTypeV::Duration(_) => Err(UnsupportedReason::DurationColumn),
        SourceTypeV::Interval(_) => Err(UnsupportedReason::IntervalColumn),
        SourceTypeV::Decimal32(p, s) => map_decimal_spec(p, s),
        SourceTypeV::Decimal64(p, s) => map_decimal_spec(p, s),
        SourceTypeV::Decimal128(p, s) => map_decimal_spec(p, s),
        SourceTypeV::Decimal256(p, s) => if p > 38 {
            Err(UnsupportedReason::PrecisionExceeded { precision: p })
        } else {
            map_decimal_spec(p, s)
        },
        SourceTypeV::List(f) => map_element_spec(*f),
        SourceTypeV::LargeList(f) => map_element_spec(*f),
        SourceTypeV::FixedSizeList(f, _) => map_element_spec(*f),
        SourceTypeV::ListView(f) => map_element_spec(*f),
        SourceTypeV::LargeListView(f) => map_element_spec(*f),
        SourceTypeV::MapOf(entries, _) => match (*entries).dtype {
            SourceTypeV::Struct(fs) => if fs.len() == 2 {
                match map_type_spec(fs[0].dtype) {
                    Ok(key) => match map_type_spec(fs[1].dtype) {
                        Ok(value) => Ok(
                            TargetTypeV::MapOf {
                                key: Box::new(key),
                                value: Box::new(value),
                                value_contains_null: fs[1].nullable,
                            },
                        ),
                        Err(e) => Err(e),
                    },
                    Err(e) => Err(e),
                }
            } else {
                Err(UnsupportedReason::MapShape)
            },
            _ => Err(UnsupportedReason::MapShape),
        },
        SourceTypeV::Struct(fields) => match map_fields_spec(fields) {
            Ok(tfs) => if has_dup_names(fields) {
                Err(UnsupportedReason::DuplicateFieldNames)
            } else {
                Ok(TargetTypeV::Struct { fields: tfs })
            },
            Err(e) => Err(e),
        },
        SourceTypeV::Union => Err(UnsupportedReason::UnionColumn),
        // Encodings are a storage concern; the logical type decides.
        SourceTypeV::Dictionary(v) => map_type_spec(*v),
        SourceTypeV::RunEndEncoded(f) => map_type_spec((*f).dtype),
        SourceTypeV::Null => Err(UnsupportedReason::NullOnly),
    }
}

/// Maps decimal parameters of any width, as [`map_decimal_spec`] states.
fn map_decimal(precision: u8, scale: i8) -> (r: Result<TargetType, TypeConversionError>)
    ensures
        r matches Ok(tt) ==> map_decimal_spec(precision, scale) == Ok::<
            TargetTypeV,
            UnsupportedReason,
        >(tt@),
        r matches Err(e) ==> map_decimal_spec(precision, scale) == Err::<
            TargetTypeV,
            UnsupportedReason,
        >(e.reason),
{
    if 1 <= precision && precision <= 38 && 0 <= scale && scale as u8 <= precision {
        Ok(TargetType::Primitive(TargetPrimitive::Decimal(precision, scale as u8)))
    } else {
        Err(TypeConversionError { reason: UnsupportedReason::InvalidDecimal { precision, scale } })
    }
}

/// The element-wise model of a field sequence has the same length and
/// indexes back to each field's own model.
pub broadcast proof fn lemma_source_fields_view(fields: Seq<SourceField>)
    ensures
        (#[trigger] source_fields_view(fields)).len() == fields.len(),
        forall|k: int|
            0 <= k < fields.len() ==> #[trigger] source_fields_view(fields)[k] == fields[k]@,
    decreases fields,
{
    if fields.len() > 0 {
        lemma_source_fields_view(fields.drop_first());
        assert(source_fields_view(fields) == seq![fields[0]@] + source_fields_view(
            fields.drop_first(),
        ));
        assert forall|k: int| 0 <= k < fields.len() implies #[trigger] source_fields_view(
            fields,
        )[k] == fields[k]@ by {
            if k > 0 {
                assert(source_fields_view(fields)[k] == source_fields_view(fields.drop_first())[
                    k - 1
                ]);
                assert(fields.drop_first()[k - 1] == fields[k]);
            }
        }
    } else {
        assert(source_fields_view(fields) == Seq::<SourceFieldV>::empty());
    }
}

/// The element-wise model of a target field sequence has the same length and
/// indexes back to each field's own model.
pub broadcast proof fn lemma_target_fields_view(fields: Seq<TargetField>)
    ensures
        (#[trigger] target_fields_view(fields)).len() == fields.len(),
        forall|k: int|
            0 <= k < fields.len() ==> #[trigger] target_fields_view(fields)[k] == fields[k]@,
    decreases fields,
{
    if fields.len() > 0 {
        lemma_target_fields_view(fields.drop_first());
        assert(target_fields_view(fields) == seq![fields[0]@] + target_fields_view(
            fields.drop_first(),
        ));
        assert forall|k: int| 0 <= k < fields.len() implies #[trigger] target_fields_view(
            fields,
        )[k] == fields[k]@ by {
            if k > 0 {
                assert(target_fields_view(fields)[k] == target_fields_view(fields.drop_first())[
                    k - 1
                ]);
                assert(fields.drop_first()[k - 1] == fields[k]);
            }
        }
    } else {
        assert(target_fields_view(fields) == Seq::<TargetFieldV>::empty());
    }
}

/// Reports whether two fields of the sequence share a name, as
/// [`has_dup_names`] states.
fn fields_have_dup_names(fields: &Vec<SourceField>) -> (r: bool)
    ensures
        r == has_dup_names(source_fields_view(fields@)),
{
    proof {
        lemma_source_fields_view(fields@);
    }
    let ghost svs = source_fields_view(fields@);
    let mut i: usize = 0;
    while i < fields.len()
        invariant
            i <= fields.len(),
            svs == source_fields_view(fields@),
            forall|jj: int, ii: int| 0 <= jj < ii < i ==> svs[jj].name != svs[ii].name,
        decreases fields.len() - i,
    {
        let mut j: usize = 0;
        while j < i
            invariant
                j <= i < fields.len(),
                svs == source_fields_view(fields@),
                forall|jj: int| 0 <= jj < j ==> svs[jj].name != svs[i as int].name,
            decreases i - j,
        {
            proof {
                lemma_source_fields_view(fields@);
            }
            if fields[j].name == fields[i].name {
                assert(svs[j as int].name == svs[i as int].name);
                assert(has_dup_names(svs));
                return true;
            }
            assert(svs[j as int].name != svs[i as int].name);
            j = j + 1;
        }
        i = i + 1;
    }
    proof {
        lemma_source_fields_view(fields@);
    }
    false
}

/// Maps one list-like element field, as [`map_element_spec`] states.
fn map_element(f: &SourceField) -> (r: Result<TargetType, TypeConversionError>)
    ensures
        r matches Ok(tt) ==> map_element_spec(f@) == Ok::<TargetTypeV, UnsupportedReason>(tt@),
        r matches Err(e) ==> map_element_spec(f@) == Err::<TargetTypeV, UnsupportedReason>(
            e.reason,
        ),
    decreases *f,
{
    proof {
        assert(f@.dtype == f.dtype@);
    }
    match map_type(&f.dtype) {
        Ok(element) => {
            let ghost ev = element@;
            let tt = TargetType::Array { element: Box::new(element), contains_null: f.nullable };
            proof {
                assert(tt@ == (TargetTypeV::Array { element: Box::new(ev), contains_null: f@.nullable }));
                assert(map_element_spec(f@) == Ok::<TargetTypeV, UnsupportedReason>(tt@));
            }
            Ok(tt)
        },
        Err(e) => {
            proof {
                assert(map_element_spec(f@) == Err::<TargetTypeV, UnsupportedReason>(e.reason));
            }
            Err(e)
        },
    }
}

/// Maps the fields of a struct from position `i` on, as [`map_fields_spec`]
/// states of the corresponding suffix.
fn map_fields_from(fields: &Vec<SourceField>, i: usize) -> (r: Result<
    Vec<TargetField>,
    TypeConversionError,
>)
    requires
        i <= fields@.len(),
    ensures
        r matches Ok(tfs) ==> map_fields_spec(source_fields_view(fields@).skip(i as int)) == Ok::<
            Seq<TargetFieldV>,
            UnsupportedReason,
        >(target_fields_view(tfs@)),
        r matches Err(e) ==> map_fields_spec(source_fields_view(fields@).skip(i as int)) == Err::<
            Seq<TargetFieldV>,
            UnsupportedReason,
        >(e.reason),
    decreases *fields, fields@.len() - i,
{
    proof {
        lemma_source_fields_view(fields@);
    }
    let ghost svs = source_fields_view(fields@).skip(i as int);
    if i == fields.len() {
        let out: Vec<TargetField> = Vec::new();
        proof {
            lemma_target_fields_view(out@);
            assert(target_fields_view(out@) =~= Seq::<TargetFieldV>::empty());
            assert(svs.len() == 0);
            assert(map_fields_spec(svs) == Ok::<Seq<TargetFieldV>, UnsupportedReason>(
                Seq::empty(),
            ));
        }
        Ok(out)
    } else {
        proof {
            assert(svs[0] == source_fields_view(fields@)[i as int]);
            assert(svs[0] == fields@[i as int]@);
            assert(svs[0].dtype == fields@[i as int].dtype@);
        }
        match map_type(&fields[i].dtype) {
            Ok(dtype) => {
                match map_fields_from(fields, i + 1) {
                    Ok(mut rest) => {
                        let ghost rest_prev = rest@;
                        let ghost rest_v = target_fields_view(rest@);
                        let ghost dv = dtype@;
                        let tf = TargetField {
                            name: fields[i].name.clone(),
                            dtype: dtype,
                            nullable: fields[i].nullable,
                        };
                        let ghost tfv = tf@;
                        rest.insert(0, tf);
                        proof {
                            lemma_target_fields_view(rest@);
                            lemma_target_fields_view(rest_prev);
                            assert(target_fields_view(rest@) =~= seq![tfv] + rest_v);
                            assert(tfv == (TargetFieldV {
                                name: svs[0].name,
                                dtype: dv,
                                nullable: svs[0].nullable,
                            }));
                            assert(svs.drop_first() =~= source_fields_view(fields@).skip(
                                i + 1,
                            ));
                            assert(map_fields_spec(svs) == Ok::<
                                Seq<TargetFieldV>,
                                UnsupportedReason,
                            >(seq![tfv] + rest_v));
                        }
                        Ok(rest)
                    },
                    Err(e) => {
                        proof {
                            assert(svs.drop_first() =~= source_fields_view(fields@).skip(
                                i + 1,
                            ));
                            assert(map_fields_spec(svs) == Err::<
                                Seq<TargetFieldV>,
                                UnsupportedReason,
                            >(e.reason));
                        }
                        Err(e)
                    },
                }
            },
            Err(e) => {
                proof {
                    assert(map_fields_spec(svs) == Err::<Seq<TargetFieldV>, UnsupportedReason>(
                        e.reason,
                    ));
                }
                Err(e)
            },
        }
    }
}

/// The type mapper: maps one source type onto the table's type system,
/// exactly as the rule table [`map_type_spec`] states, or rejects it with
/// the reason that table gives.
pub fn map_type(t: &SourceType) -> (r: Result<TargetType, TypeConversionError>)
    ensures
        r matches Ok(tt) ==> map_type_spec(t@) == Ok::<TargetTypeV, UnsupportedReason>(tt@),
        r matches Err(e) ==> map_type_spec(t@) == Err::<TargetTypeV, UnsupportedReason>(e.reason),
    decreases *t,
{
    match t {
        SourceType::Boolean => {
            let tt = TargetType::Primitive(TargetPrimitive::Boolean);
            proof {
                assert(t@ == SourceTypeV::Boolean);
                assert(tt@ == TargetTypeV::Primitive(TargetPrimitive::Boolean));
                assert(map_type_spec(t@) == Ok::<TargetTypeV, UnsupportedReason>(tt@));
            }
            Ok(tt)
        },
        SourceType::Int8 => {
            let tt = TargetType::Primitive(TargetPrimitive::Byte);
            proof {
                assert(t@ == SourceTypeV::Int8);
                assert(tt@ == TargetTypeV::Primitive(TargetPrimitive::Byte));
                assert(map_type_spec(t@) == Ok::<TargetTypeV, UnsupportedReason>(tt@));
            }
            Ok(tt)
        },
        SourceType::Int16 => {
            let tt = TargetType::Primitive(TargetPrimitive::Short);
            proof {
                assert(t@ == SourceTypeV::Int16);
                assert(tt@ == TargetTypeV::Primitive(TargetPrimitive::Short));
                assert(map_type_spec(t@) == Ok::<TargetTypeV, UnsupportedReason>(tt@));
            }
            Ok(tt)
        },
        SourceType::Int32 => {
            let tt = TargetType::Primitive(TargetPrimitive::Integer);
            proof {
                assert(t@ == SourceTypeV::Int32);
                assert(tt@ == TargetTypeV::Primitive(TargetPrimitive::Integer));
                assert(map_type_spec(t@) == Ok::<TargetTypeV, UnsupportedReason>(tt@));
            }
            Ok(tt)
        },
        SourceType::Int64 => {
            let tt = TargetType::Primitive(TargetPrimitive::Long);
            proof {
                assert(t@ == SourceTypeV::Int64);
                assert(tt@ == TargetTypeV::Primitive(TargetPrimitive::Long));
                assert(map_type_spec(t@) == Ok::<TargetTypeV, UnsupportedReason>(tt@));
            }
            Ok(tt)
        },
        SourceType::UInt8 => {
            let tt = TargetType::Primitive(TargetPrimitive::Short);
            proof {
                assert(t@ == SourceTypeV::UInt8);
                assert(tt@ == TargetTypeV::Primitive(TargetPrimitive::Short));
                assert(map_type_spec(t@) == Ok::<TargetTypeV, UnsupportedReason>(tt@));
            }
            Ok(tt)
        },
        SourceType::UInt16 => {
            let tt = TargetType::Primitive(TargetPrimitive::Integer);
            proof {
                assert(t@ == SourceTypeV::UInt16);
                assert(tt@ == TargetTypeV::Primitive(TargetPrimitive::Integer));
                assert(map_type_spec(t@) == Ok::<TargetTypeV, UnsupportedReason>(tt@));
            }
            Ok(tt)
        },
        SourceType::UInt32 => {
            let tt = TargetType::Primitive(TargetPrimitive::Long);
            proof {
                assert(t@ == SourceTypeV::UInt32);
                assert(tt@ == TargetTypeV::Primitive(TargetPrimitive::Long));
                assert(map_type_spec(t@) == Ok::<TargetTypeV, UnsupportedReason>(tt@));
            }
            Ok(tt)
        },
        SourceType::UInt64 => {
            proof {
                assert(t@ == SourceTypeV::UInt64);
                assert(map_type_spec(t@) == Err::<TargetTypeV, UnsupportedReason>(
                    UnsupportedReason::UnsignedLongRange,
                ));
            }
            Err(TypeConversionError { reason: UnsupportedReason::UnsignedLongRange })
        },
        SourceType::Float16 => {
            let tt = TargetType::Primitive(TargetPrimitive::Float);
            proof {
                assert(t@ == SourceTypeV::Float16);
                assert(tt@ == TargetTypeV::Primitive(TargetPrimitive::Float));
                assert(map_type_spec(t@) == Ok::<TargetTypeV, UnsupportedReason>(tt@));
            }
            Ok(tt)
        },
        SourceType::Float32 => {
            let tt = TargetType::Primitive(TargetPrimitive::Float);
            proof {
                assert(t@ == SourceTypeV::Float32);
                assert(tt@ == TargetTypeV::Primitive(TargetPrimitive::Float));
                assert(map_type_spec(t@) == Ok::<TargetTypeV, UnsupportedReason>(tt@));
            }
            Ok(tt)
        },
        SourceType::Float64 => {
            let tt = TargetType::Primitive(TargetPrimitive::Double);
            proof {
                assert(t@ == SourceTypeV::Float64);
                assert(tt@ == TargetTypeV::Primitive(TargetPrimitive::Double));
                assert(map_type_spec(t@) == Ok::<TargetTypeV, UnsupportedReason>(tt@));
            }
            Ok(tt)
        },
        SourceType::Utf8 => {
            let tt = TargetType::Primitive(TargetPrimitive::String);
            proof {
                assert(t@ == SourceTypeV::Utf8);
                assert(tt@ == TargetTypeV::Primitive(TargetPrimitive::String));
                assert(map_type_spec(t@) == Ok::<TargetTypeV, UnsupportedReason>(tt@));
            }
            Ok(tt)
        },
        SourceType::LargeUtf8 => {
            let tt = TargetType::Primitive(TargetPrimitive::String);
            proof {
                assert(t@ == SourceTypeV::LargeUtf8);
                assert(tt@ == TargetTypeV::Primitive(TargetPrimitive::String));
                assert(map_type_spec(t@) == Ok::<TargetTypeV, UnsupportedReason>(tt@));
            }
            Ok(tt)
        },
        SourceType::Utf8View => {
            let tt = TargetType::Primitive(TargetPrimitive::String);
            proof {
                assert(t@ == SourceTypeV::Utf8View);
                assert(tt@ == TargetTypeV::Primitive(TargetPrimitive::String));
                assert(map_type_spec(t@) == Ok::<TargetTypeV, UnsupportedReason>(tt@));
            }
            Ok(tt)
        },
        SourceType::Binary => {
            let tt = TargetType::Primitive(TargetPrimitive::Binary);
            proof {
                assert(t@ == SourceTypeV::Binary);
                assert(tt@ == TargetTypeV::Primitive(TargetPrimitive::Binary));
                assert(map_type_spec(t@) == Ok::<TargetTypeV, UnsupportedReason>(tt@));
            }
            Ok(tt)
        },
        SourceType::LargeBinary => {
            let tt = TargetType::Primitive(TargetPrimitive::Binary);
            proof {
                assert(t@ == SourceTypeV::LargeBinary);
                assert(tt@ == TargetTypeV::Primitive(TargetPrimitive::Binary));
                assert(map_type_spec(t@) == Ok::<TargetTypeV, UnsupportedReason>(tt@));
            }
            Ok(tt)
        },
        SourceType::BinaryView => {
            let tt = TargetType::Primitive(TargetPrimitive::Binary);
            proof {
                assert(t@ == SourceTypeV::BinaryView);
                assert(tt@ == TargetTypeV::Primitive(TargetPrimitive::Binary));
                assert(map_type_spec(t@) == Ok::<TargetTypeV, UnsupportedReason>(tt@));
            }
            Ok(tt)
        },
        SourceType::FixedSizeBinary(w) => {
            let tt = TargetType::Primitive(TargetPrimitive::Binary);
            proof {
                assert(t@ == SourceTypeV::FixedSizeBinary(*w));
                assert(tt@ == TargetTypeV::Primitive(TargetPrimitive::Binary));
                assert(map_type_spec(t@) == Ok::<TargetTypeV, UnsupportedReason>(tt@));
            }
            Ok(tt)
        },
        SourceType::Date32 => {
            let tt = TargetType::Primitive(TargetPrimitive::Date);
            proof {
                assert(t@ == SourceTypeV::Date32);
                assert(tt@ == TargetTypeV::Primitive(TargetPrimitive::Date));
                assert(map_type_spec(t@) == Ok::<TargetTypeV, UnsupportedReason>(tt@));
            }
            Ok(tt)
        },
        SourceType::Date64 => {
            let tt = TargetType::Primitive(TargetPrimitive::Date);
            proof {
                assert(t@ == SourceTypeV::Date64);
                assert(tt@ == TargetTypeV::Primitive(TargetPrimitive::Date));
                assert(map_type_spec(t@) == Ok::<TargetTypeV, UnsupportedReason>(tt@));
            }
            Ok(tt)
        },
        SourceType::Timestamp(u, zoned) => {
            proof {
                assert(t@ == SourceTypeV::Timestamp(*u, *zoned));
            }
            if *zoned {
                let tt = TargetType::Primitive(TargetPrimitive::Timestamp);
                proof {
                    assert(tt@ == TargetTypeV::Primitive(TargetPrimitive::Timestamp));
                    assert(map_type_spec(t@) == Ok::<TargetTypeV, UnsupportedReason>(tt@));
                }
                Ok(tt)
            } else {
                let tt = TargetType::Primitive(TargetPrimitive::TimestampNtz);
                proof {
                    assert(tt@ == TargetTypeV::Primitive(TargetPrimitive::TimestampNtz));
                    assert(map_type_spec(t@) == Ok::<TargetTypeV, UnsupportedReason>(tt@));
                }
                Ok(tt)
            }
        },
        SourceType::Time32(u) => {
            proof {
                assert(t@ == SourceTypeV::Time32(*u));
                assert(map_type_spec(t@) == Err::<TargetTypeV, UnsupportedReason>(
                    UnsupportedReason::TimeOfDay,
                ));
            }
            Err(TypeConversionError { reason: UnsupportedReason::TimeOfDay })
        },
        SourceType::Time64(u) => {
            proof {
                assert(t@ == SourceTypeV::Time64(*u));
                assert(map_type_spec(t@) == Err::<TargetTypeV, UnsupportedReason>(
                    UnsupportedReason::TimeOfDay,
                ));
            }
            Err(TypeConversionError { reason: UnsupportedReason::TimeOfDay })
        },
        SourceType::Duration(u) => {
            proof {
                assert(t@ == SourceTypeV::Duration(*u));
                assert(map_type_spec(t@) == Err::<TargetTypeV, UnsupportedReason>(
                    UnsupportedReason::DurationColumn,
                ));
            }
            Err(TypeConversionError { reason: UnsupportedReason::DurationColumn })
        },
        SourceType::Interval(u) => {
            proof {
                assert(t@ == SourceTypeV::Interval(*u));
                assert(map_type_spec(t@) == Err::<TargetTypeV, UnsupportedReason>(
                    UnsupportedReason::IntervalColumn,
                ));
            }
            Err(TypeConversionError { reason: UnsupportedReason::IntervalColumn })
        },
        SourceType::Decimal32(p, s) => {
            proof {
                assert(t@ == SourceTypeV::Decimal32(*p, *s));
                assert(map_type_spec(t@) == map_decimal_spec(*p, *s));
            }
            map_decimal(*p, *s)
        },
        SourceType::Decimal64(p, s) => {
            proof {
                assert(t@ == SourceTypeV::Decimal64(*p, *s));
                assert(map_type_spec(t@) == map_decimal_spec(*p, *s));
            }
            map_decimal(*p, *s)
        },
        SourceType::Decimal128(p, s) => {
            proof {
                assert(t@ == SourceTypeV::Decimal128(*p, *s));
                assert(map_type_spec(t@) == map_decimal_spec(*p, *s));
            }
            map_decimal(*p, *s)
        },
        SourceType::Decimal256(p, s) => {
            proof {
                assert(t@ == SourceTypeV::Decimal256(*p, *s));
            }
            if *p > 38 {
                proof {
                    assert(map_type_spec(t@) == Err::<TargetTypeV, UnsupportedReason>(
                        UnsupportedReason::PrecisionExceeded { precision: *p },
                    ));
                }
                Err(TypeConversionError {
                    reason: UnsupportedReason::PrecisionExceeded { precision: *p },
                })
            } else {
                proof {
                    assert(map_type_spec(t@) == map_decimal_spec(*p, *s));
                }
                map_decimal(*p, *s)
            }
        },
        SourceType::List(f) => {
            proof {
                assert(t@ == SourceTypeV::List(Box::new((**f)@)));
                assert(map_type_spec(t@) == map_element_spec((**f)@));
            }
            map_element(&**f)
        },
        SourceType::LargeList(f) => {
            proof {
                assert(t@ == SourceTypeV::LargeList(Box::new((**f)@)));
                assert(map_type_spec(t@) == map_element_spec((**f)@));
            }
            map_element(&**f)
        },
        SourceType::FixedSizeList(f, n) => {
            proof {
                assert(t@ == SourceTypeV::FixedSizeList(Box::new((**f)@), *n));
                assert(map_type_spec(t@) == map_element_spec((**f)@));
            }
            map_element(&**f)
        },
        SourceType::ListView(f) => {
            proof {
                assert(t@ == SourceTypeV::ListView(Box::new((**f)@)));
                assert(map_type_spec(t@) == map_element_spec((**f)@));
            }
            map_element(&**f)
        },
        SourceType::LargeListView(f) => {
            proof {
                assert(t@ == SourceTypeV::LargeListView(Box::new((**f)@)));
                assert(map_type_spec(t@) == map_element_spec((**f)@));
            }
            map_element(&**f)
        },
        SourceType::MapOf(entries, sorted) => {
            proof {
                assert(t@ == SourceTypeV::MapOf(Box::new((**entries)@), *sorted));
                assert((**entries)@.dtype == (**entries).dtype@);
            }
            match &(**entries).dtype {
                SourceType::Struct(fs) => {
                    proof {
                        lemma_source_fields_view(fs@);
                        assert((**entries).dtype@ == SourceTypeV::Struct(source_fields_view(fs@)));
                    }
                    if fs.len() == 2 {
                        proof {
                            assert(source_fields_view(fs@)[0] == fs@[0]@);
                            assert(source_fields_view(fs@)[1] == fs@[1]@);
                        }
                        match map_type(&fs[0].dtype) {
                            Ok(key) => match map_type(&fs[1].dtype) {
                                Ok(value) => {
                                    let ghost kv = key@;
                                    let ghost vv = value@;
                                    let tt = TargetType::MapOf {
                                        key: Box::new(key),
                                        value: Box::new(value),
                                        value_contains_null: fs[1].nullable,
                                    };
                                    proof {
                                        assert(tt@ == (TargetTypeV::MapOf {
                                            key: Box::new(kv),
                                            value: Box::new(vv),
                                            value_contains_null: fs@[1].nullable,
                                        }));
                                        assert(map_type_spec(t@) == Ok::<
                                            TargetTypeV,
                                            UnsupportedReason,
                                        >(tt@));
                                    }
                                    Ok(tt)
                                },
                                Err(e) => {
                                    proof {
                                        assert(map_type_spec(t@) == Err::<
                                            TargetTypeV,
                                            UnsupportedReason,
                                        >(e.reason));
                                    }
                                    Err(e)
                                },
                            },
                            Err(e) => {
                                proof {
                                    assert(map_type_spec(t@) == Err::<
                                        TargetTypeV,
                                        UnsupportedReason,
                                    >(e.reason));
                                }
                                Err(e)
                            },
                        }
                    } else {
                        proof {
                            assert(map_type_spec(t@) == Err::<TargetTypeV, UnsupportedReason>(
                                UnsupportedReason::MapShape,
                            ));
                        }
                        Err(TypeConversionError { reason: UnsupportedReason::MapShape })
                    }
                },
                _ => {
                    proof {
                        assert(map_type_spec(t@) == Err::<TargetTypeV, UnsupportedReason>(
                            UnsupportedReason::MapShape,
                        ));
                    }
                    Err(TypeConversionError { reason: UnsupportedReason::MapShape })
                },
            }
        },
        SourceType::Struct(fields) => {
            proof {
                assert(t@ == SourceTypeV::Struct(source_fields_view(fields@)));
                assert(source_fields_view(fields@).skip(0) =~= source_fields_view(fields@));
            }
            match map_fields_from(fields, 0) {
                Ok(tfs) => {
                    if fields_have_dup_names(fields) {
                        proof {
                            assert(map_type_spec(t@) == Err::<TargetTypeV, UnsupportedReason>(
                                UnsupportedReason::DuplicateFieldNames,
                            ));
                        }
                        Err(TypeConversionError { reason: UnsupportedReason::DuplicateFieldNames })
                    } else {
                        let ghost tv = target_fields_view(tfs@);
                        let tt = TargetType::Struct { fields: tfs };
                        proof {
                            assert(tt@ == (TargetTypeV::Struct { fields: tv }));
                            assert(map_type_spec(t@) == Ok::<TargetTypeV, UnsupportedReason>(tt@));
                        }
                        Ok(tt)
                    }
                },
                Err(e) => {
                    proof {
                        assert(map_type_spec(t@) == Err::<TargetTypeV, UnsupportedReason>(
                            e.reason,
                        ));
                    }
                    Err(e)
                },
            }
        },
        SourceType::Union => {
            proof {
                assert(t@ == SourceTypeV::Union);
                assert(map_type_spec(t@) == Err::<TargetTypeV, UnsupportedReason>(
                    UnsupportedReason::UnionColumn,
                ));
            }
            Err(TypeConversionError { reason: UnsupportedReason::UnionColumn })
        },
        SourceType::Dictionary(v) => {
            proof {
                assert(t@ == SourceTypeV::Dictionary(Box::new((**v)@)));
                assert(map_type_spec(t@) == map_type_spec((**v)@));
            }
            map_type(&**v)
        },
        SourceType::RunEndEncoded(f) => {
            proof {
                assert(t@ == SourceTypeV::RunEndEncoded(Box::new((**f)@)));
                assert((**f)@.dtype == (**f).dtype@);
                assert(map_type_spec(t@) == map_type_spec((**f).dtype@));
            }
            map_type(&(**f).dtype)
        },
        SourceType::Null => {
            proof {
                assert(t@ == SourceTypeV::Null);
                assert(map_type_spec(t@) == Err::<TargetTypeV, UnsupportedReason>(
                    UnsupportedReason::NullOnly,
                ));
            }
            Err(TypeConversionError { reason: UnsupportedReason::NullOnly })
        },
    }
}

/// Statement of each rejection reason, one sentence per reason.
pub open spec fn reason_text_spec(reason: UnsupportedReason) -> Seq<char> {
    match reason {
        UnsupportedReason::UnsignedLongRange => "unsigned 64-bit integers may exceed the range of the signed long kind"@,
        UnsupportedReason::TimeOfDay => "stand-alone time-of-day columns have no table representation"@,
        UnsupportedReason::DurationColumn => "duration columns have no table representation"@,
        UnsupportedReason::IntervalColumn => "calendar-interval columns have no table representation"@,
        UnsupportedReason::UnionColumn => "union columns have no table representation"@,
        UnsupportedReason::NullOnly => "columns holding only nulls have no concrete type"@,
        UnsupportedReason::InvalidDecimal { .. } => "decimal parameters outside the supported range"@,
        UnsupportedReason::PrecisionExceeded { .. } => "a decimal wider than the precision ceiling of 38"@,
        UnsupportedReason::MapShape => "a map type whose entries are not a two-field key/value struct"@,
        UnsupportedReason::DuplicateFieldNames => "a struct with two fields of the same name"@,
    }
}

/// Remediation hint for each rejection reason.
pub open spec fn suggestion_spec(reason: UnsupportedReason) -> Seq<char> {
    match reason {
        UnsupportedReason::UnsignedLongRange => "cast to a signed 64-bit integer if values are in range, or use a decimal"@,
        UnsupportedReason::TimeOfDay => "use a timestamp, or store the value as a string or integer"@,
        UnsupportedReason::DurationColumn => "store the duration as an integer count of a fixed unit"@,
        UnsupportedReason::IntervalColumn => "store the interval components as separate columns"@,
        UnsupportedReason::UnionColumn => "restructure the data, for instance as a struct with nullable fields"@,
        UnsupportedReason::NullOnly => "remove the column or give it a concrete type"@,
        UnsupportedReason::InvalidDecimal { .. } => "use precision 1 to 38 and a scale between 0 and the precision"@,
        UnsupportedReason::PrecisionExceeded { .. } => "reduce the precision to at most 38 or store the value as a string"@,
        UnsupportedReason::MapShape => "re-encode the map with one struct of key and value per entry"@,
        UnsupportedReason::DuplicateFieldNames => "rename the fields so that names are unique"@,
    }
}

impl TypeConversionError {
    /// Why the type was rejected, in words.
    pub fn reason_text(&self) -> (r: &'static str)
        ensures
            r@ == reason_text_spec(self.reason),
    {
        match self.reason {
            UnsupportedReason::UnsignedLongRange => "unsigned 64-bit integers may exceed the range of the signed long kind",
            UnsupportedReason::TimeOfDay => "stand-alone time-of-day columns have no table representation",
            UnsupportedReason::DurationColumn => "duration columns have no table representation",
            UnsupportedReason::IntervalColumn => "calendar-interval columns have no table representation",
            UnsupportedReason::UnionColumn => "union columns have no table representation",
            UnsupportedReason::NullOnly => "columns holding only nulls have no concrete type",
            UnsupportedReason::InvalidDecimal { .. } => "decimal parameters outside the supported range",
            UnsupportedReason::PrecisionExceeded { .. } => "a decimal wider than the precision ceiling of 38",
            UnsupportedReason::MapShape => "a map type whose entries are not a two-field key/value struct",
            UnsupportedReason::DuplicateFieldNames => "a struct with two fields of the same name",
        }
    }

    /// What a caller can do about it.
    pub fn suggestion(&self) -> (r: &'static str)
        ensures
            r@ == suggestion_spec(self.reason),
    {
        match self.reason {
            UnsupportedReason::UnsignedLongRange => "cast to a signed 64-bit integer if values are in range, or use a decimal",
            UnsupportedReason::TimeOfDay => "use a timestamp, or store the value as a string or integer",
            UnsupportedReason::DurationColumn => "store the duration as an integer count of a fixed unit",
            UnsupportedReason::IntervalColumn => "store the interval components as separate columns",
            UnsupportedReason::UnionColumn => "restructure the data, for instance as a struct with nullable fields",
            UnsupportedReason::NullOnly => "remove the column or give it a concrete type",
            UnsupportedReason::InvalidDecimal { .. } => "use precision 1 to 38 and a scale between 0 and the precision",
            UnsupportedReason::PrecisionExceeded { .. } => "reduce the precision to at most 38 or store the value as a string",
            UnsupportedReason::MapShape => "re-encode the map with one struct of key and value per entry",
            UnsupportedReason::DuplicateFieldNames => "rename the fields so that names are unique",
        }
    }
}

/// Maps every field of a schema in order, aborting on the first failure, and
/// rejecting duplicate top-level field names; this is the whole of the type
/// checking that creating a new table runs over its schema.
pub fn map_schema(fields: &Vec<SourceField>) -> (r: Result<Vec<TargetField>, TypeConversionError>)
    ensures
        r matches Ok(tfs) ==> map_fields_spec(source_fields_view(fields@)) == Ok::<
            Seq<TargetFieldV>,
            UnsupportedReason,
        >(target_fields_view(tfs@)) && !has_dup_names(source_fields_view(fields@)),
        r matches Err(e) ==> {
            ||| map_fields_spec(source_fields_view(fields@)) == Err::<
                Seq<TargetFieldV>,
                UnsupportedReason,
            >(e.reason)
            ||| (map_fields_spec(source_fields_view(fields@)) is Ok && has_dup_names(
                source_fields_view(fields@),
            ) && e.reason == UnsupportedReason::DuplicateFieldNames)
        },
{
    proof {
        assert(source_fields_view(fields@).skip(0) =~= source_fields_view(fields@));
    }
    match map_fields_from(fields, 0) {
        Ok(tfs) => {
            if fields_have_dup_names(fields) {
                Err(TypeConversionError { reason: UnsupportedReason::DuplicateFieldNames })
            } else {
                Ok(tfs)
            }
        },
        Err(e) => Err(e),
    }
}

/// How a table primitive is rendered in the source type system.
pub open spec fn unmap_primitive_spec(p: TargetPrimitive) -> SourceTypeV {
    match p {
        TargetPrimitive::Boolean => SourceTypeV::Boolean,
        TargetPrimitive::Byte => SourceTypeV::Int8,
        TargetPrimitive::Short => SourceTypeV::Int16,
        TargetPrimitive::Integer => SourceTypeV::Int32,
        TargetPrimitive::Long => SourceTypeV::Int64,
        TargetPrimitive::Float => SourceTypeV::Float32,
        TargetPrimitive::Double => SourceTypeV::Float64,
        TargetPrimitive::String => SourceTypeV::Utf8,
        TargetPrimitive::Binary => SourceTypeV::Binary,
        TargetPrimitive::Date => SourceTypeV::Date32,
        TargetPrimitive::Timestamp => SourceTypeV::Timestamp(TimeUnit::Microsecond, true),
        TargetPrimitive::TimestampNtz => SourceTypeV::Timestamp(TimeUnit::Microsecond, false),
        TargetPrimitive::Decimal(precision, scale) => SourceTypeV::Decimal128(
            precision,
            scale as i8,
        ),
    }
}

/// How a table type is rendered in the source type system: timestamps come
/// back at microsecond resolution, arrays as lists with an `item` element
/// field, maps with a non-null two-field `entries` struct.
pub open spec fn unmap_type_spec(t: TargetTypeV) -> SourceTypeV
    decreases t,
{
    match t {
        TargetTypeV::Primitive(p) => unmap_primitive_spec(p),
        TargetTypeV::Array { element, contains_null } => SourceTypeV::List(
            Box::new(
                SourceFieldV {
                    name: "item"@,
                    dtype: unmap_type_spec(*element),
                    nullable: contains_null,
                },
            ),
        ),
        TargetTypeV::MapOf { key, value, value_contains_null } => SourceTypeV::MapOf(
            Box::new(
                SourceFieldV {
                    name: "entries"@,
                    dtype: SourceTypeV::Struct(
                        seq![
                            SourceFieldV {
                                name: "key"@,
                                dtype: unmap_type_spec(*key),
                                nullable: false,
                            },
                            SourceFieldV {
                                name: "value"@,
                                dtype: unmap_type_spec(*value),
                                nullable: value_contains_null,
                            },
                        ],
                    ),
                    nullable: false,
                },
            ),
            false,
        ),
        TargetTypeV::Struct { fields } => SourceTypeV::Struct(unmap_fields_spec(fields)),
    }
}

/// Renders a sequence of table fields back in the source type system, in
/// order, keeping each field's name and nullability.
pub open spec fn unmap_fields_spec(fields: Seq<TargetFieldV>) -> Seq<SourceFieldV>
    decreases fields,
{
    if fields.len() == 0 {
        Seq::empty()
    } else {
        seq![
            SourceFieldV {
                name: fields[0].name,
                dtype: unmap_type_spec(fields[0].dtype),
                nullable: fields[0].nullable,
            },
        ] + unmap_fields_spec(fields.drop_first())
    }
}

/// Renders the table fields of a schema from position `i` on, as
/// [`unmap_fields_spec`] states of the corresponding suffix.
fn unmap_fields_from(fields: &Vec<TargetField>, i: usize) -> (r: Vec<SourceField>)
    requires
        i <= fields@.len(),
    ensures
        source_fields_view(r@) == unmap_fields_spec(target_fields_view(fields@).skip(i as int)),
    decreases *fields, fields@.len() - i,
{
    proof {
        lemma_target_fields_view(fields@);
    }
    let ghost tvs = target_fields_view(fields@).skip(i as int);
    if i == fields.len() {
        let out: Vec<SourceField> = Vec::new();
        proof {
            lemma_source_fields_view(out@);
            assert(source_fields_view(out@) =~= Seq::<SourceFieldV>::empty());
            assert(unmap_fields_spec(tvs) == Seq::<SourceFieldV>::empty());
        }
        out
    } else {
        proof {
            assert(tvs[0] == target_fields_view(fields@)[i as int]);
            assert(tvs[0] == fields@[i as int]@);
        }
        let dtype = unmap_type(&fields[i].dtype);
        let mut rest = unmap_fields_from(fields, i + 1);
        let ghost rest_prev = rest@;
        let ghost rest_v = source_fields_view(rest@);
        let ghost dv = dtype@;
        let sf = SourceField {
            name: fields[i].name.clone(),
            dtype: dtype,
            nullable: fields[i].nullable,
        };
        let ghost sfv = sf@;
        rest.insert(0, sf);
        proof {
            lemma_source_fields_view(rest@);
            lemma_source_fields_view(rest_prev);
            assert(source_fields_view(rest@) =~= seq![sfv] + rest_v);
            assert(sfv == (SourceFieldV { name: tvs[0].name, dtype: dv, nullable: tvs[0].nullable }));
            assert(tvs.drop_first() =~= target_fields_view(fields@).skip(i + 1));
            assert(unmap_fields_spec(tvs) == seq![sfv] + rest_v);
        }
        rest
    }
}

/// Renders one table type back in the source type system, exactly as
/// [`unmap_type_spec`] states.  This is how the table's stored schema is
/// reported to a caller that speaks the source type system.
pub fn unmap_type(t: &TargetType) -> (r: SourceType)
    ensures
        r@ == unmap_type_spec(t@),
    decreases *t,
{
    match t {
        TargetType::Primitive(p) => {
            let r = match p {
                TargetPrimitive::Boolean => SourceType::Boolean,
                TargetPrimitive::Byte => SourceType::Int8,
                TargetPrimitive::Short => SourceType::Int16,
                TargetPrimitive::Integer => SourceType::Int32,
                TargetPrimitive::Long => SourceType::Int64,
                TargetPrimitive::Float => SourceType::Float32,
                TargetPrimitive::Double => SourceType::Float64,
                TargetPrimitive::String => SourceType::Utf8,
                TargetPrimitive::Binary => SourceType::Binary,
                TargetPrimitive::Date => SourceType::Date32,
                TargetPrimitive::Timestamp => SourceType::Timestamp(TimeUnit::Microsecond, true),
                TargetPrimitive::TimestampNtz => SourceType::Timestamp(
                    TimeUnit::Microsecond,
                    false,
                ),
                TargetPrimitive::Decimal(precision, scale) => SourceType::Decimal128(
                    *precision,
                    #[verifier::truncate] (*scale as i8),
                ),
            };
            proof {
                assert(t@ == TargetTypeV::Primitive(*p));
                assert(r@ == unmap_primitive_spec(*p));
            }
            r
        },
        TargetType::Array { element, contains_null } => {
            let inner = unmap_type(element);
            let ghost iv = inner@;
            let item = SourceField { name: "item".to_owned(), dtype: inner, nullable: *contains_null };
            let ghost itemv = item@;
            let r = SourceType::List(Box::new(item));
            proof {
                assert(t@ == (TargetTypeV::Array {
                    element: Box::new((**element)@),
                    contains_null: *contains_null,
                }));
                assert(itemv == (SourceFieldV { name: "item"@, dtype: iv, nullable: *contains_null }));
                assert(r@ == SourceTypeV::List(Box::new(itemv)));
                assert(r@ == unmap_type_spec(t@));
            }
            r
        },
        TargetType::MapOf { key, value, value_contains_null } => {
            let key_type = unmap_type(key);
            let value_type = unmap_type(value);
            let ghost kv = key_type@;
            let ghost vv = value_type@;
            let key_field = SourceField { name: "key".to_owned(), dtype: key_type, nullable: false };
            let value_field = SourceField {
                name: "value".to_owned(),
                dtype: value_type,
                nullable: *value_contains_null,
            };
            let ghost kfv = key_field@;
            let ghost vfv = value_field@;
            let mut entry_fields: Vec<SourceField> = Vec::new();
            entry_fields.push(key_field);
            entry_fields.push(value_field);
            proof {
                lemma_source_fields_view(entry_fields@);
                assert(source_fields_view(entry_fields@) =~= seq![kfv, vfv]);
            }
            let entries = SourceField {
                name: "entries".to_owned(),
                dtype: SourceType::Struct(entry_fields),
                nullable: false,
            };
            let ghost ev = entries@;
            let r = SourceType::MapOf(Box::new(entries), false);
            proof {
                assert(t@ == (TargetTypeV::MapOf {
                    key: Box::new((**key)@),
                    value: Box::new((**value)@),
                    value_contains_null: *value_contains_null,
                }));
                assert(kfv == (SourceFieldV { name: "key"@, dtype: kv, nullable: false }));
                assert(vfv == (SourceFieldV {
                    name: "value"@,
                    dtype: vv,
                    nullable: *value_contains_null,
                }));
                assert(ev == (SourceFieldV {
                    name: "entries"@,
                    dtype: SourceTypeV::Struct(seq![kfv, vfv]),
                    nullable: false,
                }));
                assert(r@ == SourceTypeV::MapOf(Box::new(ev), false));
                assert(r@ == unmap_type_spec(t@));
            }
            r
        },
        TargetType::Struct { fields } => {
            let sfs = unmap_fields_from(fields, 0);
            let r = SourceType::Struct(sfs);
            proof {
                assert(t@ == (TargetTypeV::Struct { fields: target_fields_view(fields@) }));
                assert(target_fields_view(fields@).skip(0) =~= target_fields_view(fields@));
                assert(r@ == unmap_type_spec(t@));
            }
            r
        },
    }
}

/// Renders a whole table schema back in the source type system, field by
/// field, as [`unmap_fields_spec`] states.
pub fn unmap_schema(fields: &Vec<TargetField>) -> (r: Vec<SourceField>)
    ensures
        source_fields_view(r@) == unmap_fields_spec(target_fields_view(fields@)),
{
    proof {
        assert(target_fields_view(fields@).skip(0) =~= target_fields_view(fields@));
    }
    unmap_fields_from(fields, 0)
}

/// The source types that have a target representation, stated structurally
/// and independently of the rule table: no unsigned 64-bit integers, no
/// time-of-day, duration, interval, union or null-only columns anywhere in
/// the tree, all decimal parameters valid, every map a two-field entry
/// struct, and no struct with a repeated field name.
pub open spec fn supported(t: SourceTypeV) -> bool
    decreases t,
{
    match t {
        SourceTypeV::UInt64 => false,
        SourceTypeV::Time32(_) => false,
        SourceTypeV::Time64(_) => false,
        SourceTypeV::Duration(_) => false,
        SourceTypeV::Interval(_) => false,
        SourceTypeV::Union => false,
        SourceTypeV::Null => false,
        SourceTypeV::Decimal32(p, s) => valid_decimal(p, s),
        SourceTypeV::Decimal64(p, s) => valid_decimal(p, s),
        SourceTypeV::Decimal128(p, s) => valid_decimal(p, s),
        SourceTypeV::Decimal256(p, s) => valid_decimal(p, s),
        SourceTypeV::List(f) => supported((*f).dtype),
        SourceTypeV::LargeList(f) => supported((*f).dtype),
        SourceTypeV::FixedSizeList(f, _) => supported((*f).dtype),
        SourceTypeV::ListView(f) => supported((*f).dtype),
        SourceTypeV::LargeListView(f) => supported((*f).dtype),
        SourceTypeV::MapOf(entries, _) => match (*entries).dtype {
            SourceTypeV::Struct(fs) => fs.len() == 2 && supported(fs[0].dtype) && supported(
                fs[1].dtype,
            ),
            _ => false,
        },
        SourceTypeV::Struct(fields) => fields_supported(fields) && !has_dup_names(fields),
        SourceTypeV::Dictionary(v) => supported(*v),
        SourceTypeV::RunEndEncoded(f) => supported((*f).dtype),
        _ => true,
    }
}

/// Every field's type in the sequence is supported.
pub open spec fn fields_supported(fields: Seq<SourceFieldV>) -> bool
    decreases fields,
{
    fields.len() == 0 || (supported(fields[0].dtype) && fields_supported(fields.drop_first()))
}

/// Totality of the type mapper: a source type maps to a target type when and
/// only when it is [`supported`]; every unsupported type is rejected, and no
/// supported one is.
pub proof fn lemma_map_totality(t: SourceTypeV)
    ensures
        map_type_spec(t) is Ok <==> supported(t),
    decreases t,
{
    match t {
        SourceTypeV::List(f) => {
            lemma_map_totality((*f).dtype);
            assert(map_type_spec(t) == map_element_spec(*f));
            assert(map_element_spec(*f) is Ok <==> map_type_spec((*f).dtype) is Ok);
        },
        SourceTypeV::LargeList(f) => {
            lemma_map_totality((*f).dtype);
            assert(map_type_spec(t) == map_element_spec(*f));
            assert(map_element_spec(*f) is Ok <==> map_type_spec((*f).dtype) is Ok);
        },
        SourceTypeV::FixedSizeList(f, _) => {
            lemma_map_totality((*f).dtype);
            assert(map_type_spec(t) == map_element_spec(*f));
            assert(map_element_spec(*f) is Ok <==> map_type_spec((*f).dtype) is Ok);
        },
        SourceTypeV::ListView(f) => {
            lemma_map_totality((*f).dtype);
            assert(map_type_spec(t) == map_element_spec(*f));
            assert(map_element_spec(*f) is Ok <==> map_type_spec((*f).dtype) is Ok);
        },
        SourceTypeV::LargeListView(f) => {
            lemma_map_totality((*f).dtype);
            assert(map_type_spec(t) == map_element_spec(*f));
            assert(map_element_spec(*f) is Ok <==> map_type_spec((*f).dtype) is Ok);
        },
        SourceTypeV::MapOf(entries, _) => {
            match (*entries).dtype {
                SourceTypeV::Struct(fs) => {
                    if fs.len() == 2 {
                        lemma_map_totality(fs[0].dtype);
                        lemma_map_totality(fs[1].dtype);
                    }
                    assert(map_type_spec(t) is Ok <==> supported(t));
                },
                _ => {
                    assert(map_type_spec(t) is Ok <==> supported(t));
                },
            }
        },
        SourceTypeV::Struct(fields) => {
            lemma_map_fields_totality(fields);
            assert(map_type_spec(t) is Ok <==> supported(t));
        },
        SourceTypeV::Dictionary(v) => {
            lemma_map_totality(*v);
            assert(map_type_spec(t) == map_type_spec(*v));
        },
        SourceTypeV::RunEndEncoded(f) => {
            lemma_map_totality((*f).dtype);
            assert(map_type_spec(t) == map_type_spec((*f).dtype));
        },
        _ => {
            assert(map_type_spec(t) is Ok <==> supported(t));
        },
    }
}

/// Totality of the field mapper: a field sequence maps when and only when
/// every field's type is supported.
pub proof fn lemma_map_fields_totality(fields: Seq<SourceFieldV>)
    ensures
        map_fields_spec(fields) is Ok <==> fields_supported(fields),
    decreases fields,
{
    if fields.len() == 0 {
        assert(map_fields_spec(fields) is Ok);
        assert(fields_supported(fields));
    } else {
        lemma_map_totality(fields[0].dtype);
        lemma_map_fields_totality(fields.drop_first());
        assert(map_fields_spec(fields) is Ok <==> (map_type_spec(fields[0].dtype) is Ok
            && map_fields_spec(fields.drop_first()) is Ok));
        assert(fields_supported(fields) <==> (supported(fields[0].dtype) && fields_supported(
            fields.drop_first(),
        )));
    }
}

/// Shape preservation over a field sequence: a mapped sequence has the same
/// length, and every field keeps its place, its name and its nullability,
/// its type mapped by the rule table.
pub proof fn lemma_map_fields_shape(fields: Seq<SourceFieldV>)
    ensures
        map_fields_spec(fields) matches Ok(tfs) ==> {
            &&& tfs.len() == fields.len()
            &&& forall|i: int|
                0 <= i < fields.len() ==> (#[trigger] tfs[i]).name == fields[i].name && tfs[
                    i
                ].nullable == fields[i].nullable && map_type_spec(fields[i].dtype) == Ok::<
                    TargetTypeV,
                    UnsupportedReason,
                >(tfs[i].dtype)
        },
    decreases fields,
{
    if fields.len() == 0 {
        assert(map_fields_spec(fields) == Ok::<Seq<TargetFieldV>, UnsupportedReason>(Seq::empty()));
    } else {
        lemma_map_fields_shape(fields.drop_first());
        if map_type_spec(fields[0].dtype) is Ok && map_fields_spec(fields.drop_first()) is Ok {
            let head = TargetFieldV {
                name: fields[0].name,
                dtype: map_type_spec(fields[0].dtype)->Ok_0,
                nullable: fields[0].nullable,
            };
            let rest = map_fields_spec(fields.drop_first())->Ok_0;
            assert(map_fields_spec(fields) == Ok::<Seq<TargetFieldV>, UnsupportedReason>(
                seq![head] + rest,
            ));
            assert forall|i: int|
                0 <= i < fields.len() implies ((#[trigger] (seq![head] + rest)[i]).name == fields[
                i
            ].name && (seq![head] + rest)[i].nullable == fields[i].nullable && map_type_spec(
                fields[i].dtype,
            ) == Ok::<TargetTypeV, UnsupportedReason>((seq![head] + rest)[i].dtype)) by {
                if i > 0 {
                    assert((seq![head] + rest)[i] == rest[i - 1]);
                    assert(fields.drop_first()[i - 1] == fields[i]);
                }
            }
        }
    }
}

/// Nesting depth of a source type.  Encodings are transparent, and a map
/// counts as one level over its key and value, as its entry struct only
/// encodes the pairing.
pub open spec fn source_depth(t: SourceTypeV) -> nat
    decreases t,
{
    match t {
        SourceTypeV::List(f) => 1 + source_depth((*f).dtype),
        SourceTypeV::LargeList(f) => 1 + source_depth((*f).dtype),
        SourceTypeV::FixedSizeList(f, _) => 1 + source_depth((*f).dtype),
        SourceTypeV::ListView(f) => 1 + source_depth((*f).dtype),
        SourceTypeV::LargeListView(f) => 1 + source_depth((*f).dtype),
        SourceTypeV::MapOf(entries, _) => match (*entries).dtype {
            SourceTypeV::Struct(fs) => if fs.len() == 2 {
                1 + if source_depth(fs[0].dtype) >= source_depth(fs[1].dtype) {
                    source_depth(fs[0].dtype)
                } else {
                    source_depth(fs[1].dtype)
                }
            } else {
                0
            },
            _ => 0,
        },
        SourceTypeV::Struct(fields) => 1 + source_fields_depth(fields),
        SourceTypeV::Dictionary(v) => source_depth(*v),
        SourceTypeV::RunEndEncoded(f) => source_depth((*f).dtype),
        _ => 0,
    }
}

/// Greatest nesting depth among the types of a source field sequence.
pub open spec fn source_fields_depth(fields: Seq<SourceFieldV>) -> nat
    decreases fields,
{
    if fields.len() == 0 {
        0
    } else {
        if source_depth(fields[0].dtype) >= source_fields_depth(fields.drop_first()) {
            source_depth(fields[0].dtype)
        } else {
            source_fields_depth(fields.drop_first())
        }
    }
}

/// Nesting depth of a target type.
pub open spec fn target_depth(t: TargetTypeV) -> nat
    decreases t,
{
    match t {
        TargetTypeV::Primitive(_) => 0,
        TargetTypeV::Array { element, .. } => 1 + target_depth(*element),
        TargetTypeV::MapOf { key, value, .. } => 1 + if target_depth(*key) >= target_depth(
            *value,
        ) {
            target_depth(*key)
        } else {
            target_depth(*value)
        },
        TargetTypeV::Struct { fields } => 1 + target_fields_depth(fields),
    }
}

/// Greatest nesting depth among the types of a target field sequence.
pub open spec fn target_fields_depth(fields: Seq<TargetFieldV>) -> nat
    decreases fields,
{
    if fields.len() == 0 {
        0
    } else {
        if target_depth(fields[0].dtype) >= target_fields_depth(fields.drop_first()) {
            target_depth(fields[0].dtype)
        } else {
            target_fields_depth(fields.drop_first())
        }
    }
}

/// Depth preservation: a mapped type keeps the nesting depth of its source
/// type exactly.
pub proof fn lemma_map_depth(t: SourceTypeV)
    ensures
        map_type_spec(t) matches Ok(tt) ==> target_depth(tt) == source_depth(t),
    decreases t,
{
    match t {
        SourceTypeV::List(f) => {
            lemma_map_depth((*f).dtype);
            assert(map_type_spec(t) == map_element_spec(*f));
        },
        SourceTypeV::LargeList(f) => {
            lemma_map_depth((*f).dtype);
            assert(map_type_spec(t) == map_element_spec(*f));
        },
        SourceTypeV::FixedSizeList(f, _) => {
            lemma_map_depth((*f).dtype);
            assert(map_type_spec(t) == map_element_spec(*f));
        },
        SourceTypeV::ListView(f) => {
            lemma_map_depth((*f).dtype);
            assert(map_type_spec(t) == map_element_spec(*f));
        },
        SourceTypeV::LargeListView(f) => {
            lemma_map_depth((*f).dtype);
            assert(map_type_spec(t) == map_element_spec(*f));
        },
        SourceTypeV::MapOf(entries, _) => {
            match (*entries).dtype {
                SourceTypeV::Struct(fs) => {
                    if fs.len() == 2 {
                        lemma_map_depth(fs[0].dtype);
                        lemma_map_depth(fs[1].dtype);
                    }
                    assert(map_type_spec(t) matches Ok(tt) ==> target_depth(tt) == source_depth(
                        t,
                    ));
                },
                _ => {
                    assert(map_type_spec(t) is Err);
                },
            }
        },
        SourceTypeV::Struct(fields) => {
            lemma_map_fields_depth(fields);
            assert(map_type_spec(t) matches Ok(tt) ==> target_depth(tt) == source_depth(t));
        },
        SourceTypeV::Dictionary(v) => {
            lemma_map_depth(*v);
            assert(map_type_spec(t) == map_type_spec(*v));
        },
        SourceTypeV::RunEndEncoded(f) => {
            lemma_map_depth((*f).dtype);
            assert(map_type_spec(t) == map_type_spec((*f).dtype));
        },
        _ => {
            assert(map_type_spec(t) matches Ok(tt) ==> target_depth(tt) == source_depth(t));
        },
    }
}

/// Depth preservation over a field sequence.
pub proof fn lemma_map_fields_depth(fields: Seq<SourceFieldV>)
    ensures
        map_fields_spec(fields) matches Ok(tfs) ==> target_fields_depth(tfs)
            == source_fields_depth(fields),
    decreases fields,
{
    if fields.len() == 0 {
        assert(map_fields_spec(fields) == Ok::<Seq<TargetFieldV>, UnsupportedReason>(Seq::empty()));
    } else {
        lemma_map_depth(fields[0].dtype);
        lemma_map_fields_depth(fields.drop_first());
        if map_type_spec(fields[0].dtype) is Ok && map_fields_spec(fields.drop_first()) is Ok {
            let head = TargetFieldV {
                name: fields[0].name,
                dtype: map_type_spec(fields[0].dtype)->Ok_0,
                nullable: fields[0].nullable,
            };
            let rest = map_fields_spec(fields.drop_first())->Ok_0;
            assert(map_fields_spec(fields) == Ok::<Seq<TargetFieldV>, UnsupportedReason>(
                seq![head] + rest,
            ));
            assert((seq![head] + rest)[0] == head);
            assert((seq![head] + rest).drop_first() =~= rest);
            assert(target_fields_depth(seq![head] + rest) == if target_depth(head.dtype)
                >= target_fields_depth(rest) {
                target_depth(head.dtype)
            } else {
                target_fields_depth(rest)
            });
        }
    }
}

/// Structural equality of two source types, decided exactly: true when and
/// only when the two models are the same tree.
pub fn source_type_eq(a: &SourceType, b: &SourceType) -> (r: bool)
    ensures
        r == (a@ == b@),
    decreases *a,
{
    match (a, b) {
        (SourceType::Boolean, SourceType::Boolean) => {
            proof {
                assert(a@ == SourceTypeV::Boolean);
                assert(b@ == SourceTypeV::Boolean);
            }
            true
        },
        (SourceType::Boolean, _) => {
            proof {
                assert(a@ == SourceTypeV::Boolean);
                assert(a@ != b@);
            }
            false
        },
        (SourceType::Int8, SourceType::Int8) => {
            proof {
                assert(a@ == SourceTypeV::Int8);
                assert(b@ == SourceTypeV::Int8);
            }
            true
        },
        (SourceType::Int8, _) => {
            proof {
                assert(a@ == SourceTypeV::Int8);
                assert(a@ != b@);
            }
            false
        },
        (SourceType::Int16, SourceType::Int16) => {
            proof {
                assert(a@ == SourceTypeV::Int16);
                assert(b@ == SourceTypeV::Int16);
            }
            true
        },
        (SourceType::Int16, _) => {
            proof {
                assert(a@ == SourceTypeV::Int16);
                assert(a@ != b@);
            }
            false
        },
        (SourceType::Int32, SourceType::Int32) => {
            proof {
                assert(a@ == SourceTypeV::Int32);
                assert(b@ == SourceTypeV::Int32);
            }
            true
        },
        (SourceType::Int32, _) => {
            proof {
                assert(a@ == SourceTypeV::Int32);
                assert(a@ != b@);
            }
            false
        },
        (SourceType::Int64, SourceType::Int64) => {
            proof {
                assert(a@ == SourceTypeV::Int64);
                assert(b@ == SourceTypeV::Int64);
            }
            true
        },
        (SourceType::Int64, _) => {
            proof {
                assert(a@ == SourceTypeV::Int64);
                assert(a@ != b@);
            }
            false
        },
        (SourceType::UInt8, SourceType::UInt8) => {
            proof {
                assert(a@ == SourceTypeV::UInt8);
                assert(b@ == SourceTypeV::UInt8);
            }
            true
        },
        (SourceType::UInt8, _) => {
            proof {
                assert(a@ == SourceTypeV::UInt8);
                assert(a@ != b@);
            }
            false
        },
        (SourceType::UInt16, SourceType::UInt16) => {
            proof {
                assert(a@ == SourceTypeV::UInt16);
                assert(b@ == SourceTypeV::UInt16);
            }
            true
        },
        (SourceType::UInt16, _) => {
            proof {
                assert(a@ == SourceTypeV::UInt16);
                assert(a@ != b@);
            }
            false
        },
        (SourceType::UInt32, SourceType::UInt32) => {
            proof {
                assert(a@ == SourceTypeV::UInt32);
                assert(b@ == SourceTypeV::UInt32);
            }
            true
        },
        (SourceType::UInt32, _) => {
            proof {
                assert(a@ == SourceTypeV::UInt32);
                assert(a@ != b@);
            }
            false
        },
        (SourceType::UInt64, SourceType::UInt64) => {
            proof {
                assert(a@ == SourceTypeV::UInt64);
                assert(b@ == SourceTypeV::UInt64);
            }
            true
        },
        (SourceType::UInt64, _) => {
            proof {
                assert(a@ == SourceTypeV::UInt64);
                assert(a@ != b@);
            }
            false
        },
        (SourceType::Float16, SourceType::Float16) => {
            proof {
                assert(a@ == SourceTypeV::Float16);
                assert(b@ == SourceTypeV::Float16);
            }
            true
        },
        (SourceType::Float16, _) => {
            proof {
                assert(a@ == SourceTypeV::Float16);
                assert(a@ != b@);
            }
            false
        },
        (SourceType::Float32, SourceType::Float32) => {
            proof {
                assert(a@ == SourceTypeV::Float32);
                assert(b@ == SourceTypeV::Float32);
            }
            true
        },
        (SourceType::Float32, _) => {
            proof {
                assert(a@ == SourceTypeV::Float32);
                assert(a@ != b@);
            }
            false
        },
        (SourceType::Float64, SourceType::Float64) => {
            proof {
                assert(a@ == SourceTypeV::Float64);
                assert(b@ == SourceTypeV::Float64);
            }
            true
        },
        (SourceType::Float64, _) => {
            proof {
                assert(a@ == SourceTypeV::Float64);
                assert(a@ != b@);
            }
            false
        },
        (SourceType::Utf8, SourceType::Utf8) => {
            proof {
                assert(a@ == SourceTypeV::Utf8);
                assert(b@ == SourceTypeV::Utf8);
            }
            true
        },
        (SourceType::Utf8, _) => {
            proof {
                assert(a@ == SourceTypeV::Utf8);
                assert(a@ != b@);
            }
            false
        },
        (SourceType::LargeUtf8, SourceType::LargeUtf8) => {
            proof {
                assert(a@ == SourceTypeV::LargeUtf8);
                assert(b@ == SourceTypeV::LargeUtf8);
            }
            true
        },
        (SourceType::LargeUtf8, _) => {
            proof {
                assert(a@ == SourceTypeV::LargeUtf8);
                assert(a@ != b@);
            }
            false
        },
        (SourceType::Utf8View, SourceType::Utf8View) => {
            proof {
                assert(a@ == SourceTypeV::Utf8View);
                assert(b@ == SourceTypeV::Utf8View);
            }
            true
        },
        (SourceType::Utf8View, _) => {
            proof {
                assert(a@ == SourceTypeV::Utf8View);
                assert(a@ != b@);
            }
            false
        },
        (SourceType::Binary, SourceType::Binary) => {
            proof {
                assert(a@ == SourceTypeV::Binary);
                assert(b@ == SourceTypeV::Binary);
            }
            true
        },
        (SourceType::Binary, _) => {
            proof {
                assert(a@ == SourceTypeV::Binary);
                assert(a@ != b@);
            }
            false
        },
        (SourceType::LargeBinary, SourceType::LargeBinary) => {
            proof {
                assert(a@ == SourceTypeV::LargeBinary);
                assert(b@ == SourceTypeV::LargeBinary);
            }
            true
        },
        (SourceType::LargeBinary, _) => {
            proof {
                assert(a@ == SourceTypeV::LargeBinary);
                assert(a@ != b@);
            }
            false
        },
        (SourceType::BinaryView, SourceType::BinaryView) => {
            proof {
                assert(a@ == SourceTypeV::BinaryView);
                assert(b@ == SourceTypeV::BinaryView);
            }
            true
        },
        (SourceType::BinaryView, _) => {
            proof {
                assert(a@ == SourceTypeV::BinaryView);
                assert(a@ != b@);
            }
            false
        },
        (SourceType::Date32, SourceType::Date32) => {
            proof {
                assert(a@ == SourceTypeV::Date32);
                assert(b@ == SourceTypeV::Date32);
            }
            true
        },
        (SourceType::Date32, _) => {
            proof {
                assert(a@ == SourceTypeV::Date32);
                assert(a@ != b@);
            }
            false
        },
        (SourceType::Date64, SourceType::Date64) => {
            proof {
                assert(a@ == SourceTypeV::Date64);
                assert(b@ == SourceTypeV::Date64);
            }
            true
        },
        (SourceType::Date64, _) => {
            proof {
                assert(a@ == SourceTypeV::Date64);
                assert(a@ != b@);
            }
            false
        },
        (SourceType::Union, SourceType::Union) => {
            proof {
                assert(a@ == SourceTypeV::Union);
                assert(b@ == SourceTypeV::Union);
            }
            true
        },
        (SourceType::Union, _) => {
            proof {
                assert(a@ == SourceTypeV::Union);
                assert(a@ != b@);
            }
            false
        },
        (SourceType::Null, SourceType::Null) => {
            proof {
                assert(a@ == SourceTypeV::Null);
                assert(b@ == SourceTypeV::Null);
            }
            true
        },
        (SourceType::Null, _) => {
            proof {
                assert(a@ == SourceTypeV::Null);
                assert(a@ != b@);
            }
            false
        },
        (SourceType::FixedSizeBinary(w1), SourceType::FixedSizeBinary(w2)) => {
            proof {
                assert(a@ == SourceTypeV::FixedSizeBinary(*w1));
                assert(b@ == SourceTypeV::FixedSizeBinary(*w2));
            }
            *w1 == *w2
        },
        (SourceType::FixedSizeBinary(_), _) => {
            proof {
                assert(a@ is FixedSizeBinary);
                assert(a@ != b@);
            }
            false
        },
        (SourceType::Timestamp(u1, z1), SourceType::Timestamp(u2, z2)) => {
            proof {
                assert(a@ == SourceTypeV::Timestamp(*u1, *z1));
                assert(b@ == SourceTypeV::Timestamp(*u2, *z2));
            }
            *u1 == *u2 && *z1 == *z2
        },
        (SourceType::Timestamp(_, _), _) => {
            proof {
                assert(a@ is Timestamp);
                assert(a@ != b@);
            }
            false
        },
        (SourceType::Time32(u1), SourceType::Time32(u2)) => {
            proof {
                assert(a@ == SourceTypeV::Time32(*u1));
                assert(b@ == SourceTypeV::Time32(*u2));
            }
            *u1 == *u2
        },
        (SourceType::Time32(_), _) => {
            proof {
                assert(a@ is Time32);
                assert(a@ != b@);
            }
            false
        },
        (SourceType::Time64(u1), SourceType::Time64(u2)) => {
            proof {
                assert(a@ == SourceTypeV::Time64(*u1));
                assert(b@ == SourceTypeV::Time64(*u2));
            }
            *u1 == *u2
        },
        (SourceType::Time64(_), _) => {
            proof {
                assert(a@ is Time64);
                assert(a@ != b@);
            }
            false
        },
        (SourceType::Duration(u1), SourceType::Duration(u2)) => {
            proof {
                assert(a@ == SourceTypeV::Duration(*u1));
                assert(b@ == SourceTypeV::Duration(*u2));
            }
            *u1 == *u2
        },
        (SourceType::Duration(_), _) => {
            proof {
                assert(a@ is Duration);
                assert(a@ != b@);
            }
            false
        },
        (SourceType::Interval(u1), SourceType::Interval(u2)) => {
            proof {
                assert(a@ == SourceTypeV::Interval(*u1));
                assert(b@ == SourceTypeV::Interval(*u2));
            }
            *u1 == *u2
        },
        (SourceType::Interval(_), _) => {
            proof {
                assert(a@ is Interval);
                assert(a@ != b@);
            }
            false
        },
        (SourceType::Decimal32(p1, s1), SourceType::Decimal32(p2, s2)) => {
            proof {
                assert(a@ == SourceTypeV::Decimal32(*p1, *s1));
                assert(b@ == SourceTypeV::Decimal32(*p2, *s2));
            }
            *p1 == *p2 && *s1 == *s2
        },
        (SourceType::Decimal32(_, _), _) => {
            proof {
                assert(a@ is Decimal32);
                assert(a@ != b@);
            }
            false
        },
        (SourceType::Decimal64(p1, s1), SourceType::Decimal64(p2, s2)) => {
            proof {
                assert(a@ == SourceTypeV::Decimal64(*p1, *s1));
                assert(b@ == SourceTypeV::Decimal64(*p2, *s2));
            }
            *p1 == *p2 && *s1 == *s2
        },
        (SourceType::Decimal64(_, _), _) => {
            proof {
                assert(a@ is Decimal64);
                assert(a@ != b@);
            }
            false
        },
        (SourceType::Decimal128(p1, s1), SourceType::Decimal128(p2, s2)) => {
            proof {
                assert(a@ == SourceTypeV::Decimal128(*p1, *s1));
                assert(b@ == SourceTypeV::Decimal128(*p2, *s2));
            }
            *p1 == *p2 && *s1 == *s2
        },
        (SourceType::Decimal128(_, _), _) => {
            proof {
                assert(a@ is Decimal128);
                assert(a@ != b@);
            }
            false
        },
        (SourceType::Decimal256(p1, s1), SourceType::Decimal256(p2, s2)) => {
            proof {
                assert(a@ == SourceTypeV::Decimal256(*p1, *s1));
                assert(b@ == SourceTypeV::Decimal256(*p2, *s2));
            }
            *p1 == *p2 && *s1 == *s2
        },
        (SourceType::Decimal256(_, _), _) => {
            proof {
                assert(a@ is Decimal256);
                assert(a@ != b@);
            }
            false
        },
        (SourceType::List(f1), SourceType::List(f2)) => {
            proof {
                assert(a@ == SourceTypeV::List(Box::new((**f1)@)));
                assert(b@ == SourceTypeV::List(Box::new((**f2)@)));
            }
            source_field_eq(&**f1, &**f2)
        },
        (SourceType::List(_), _) => {
            proof {
                assert(a@ is List);
                assert(a@ != b@);
            }
            false
        },
        (SourceType::LargeList(f1), SourceType::LargeList(f2)) => {
            proof {
                assert(a@ == SourceTypeV::LargeList(Box::new((**f1)@)));
                assert(b@ == SourceTypeV::LargeList(Box::new((**f2)@)));
            }
            source_field_eq(&**f1, &**f2)
        },
        (SourceType::LargeList(_), _) => {
            proof {
                assert(a@ is LargeList);
                assert(a@ != b@);
            }
            false
        },
        (SourceType::ListView(f1), SourceType::ListView(f2)) => {
            proof {
                assert(a@ == SourceTypeV::ListView(Box::new((**f1)@)));
                assert(b@ == SourceTypeV::ListView(Box::new((**f2)@)));
            }
            source_field_eq(&**f1, &**f2)
        },
        (SourceType::ListView(_), _) => {
            proof {
                assert(a@ is ListView);
                assert(a@ != b@);
            }
            false
        },
        (SourceType::LargeListView(f1), SourceType::LargeListView(f2)) => {
            proof {
                assert(a@ == SourceTypeV::LargeListView(Box::new((**f1)@)));
                assert(b@ == SourceTypeV::LargeListView(Box::new((**f2)@)));
            }
            source_field_eq(&**f1, &**f2)
        },
        (SourceType::LargeListView(_), _) => {
            proof {
                assert(a@ is LargeListView);
                assert(a@ != b@);
            }
            false
        },
        (SourceType::RunEndEncoded(f1), SourceType::RunEndEncoded(f2)) => {
            proof {
                assert(a@ == SourceTypeV::RunEndEncoded(Box::new((**f1)@)));
                assert(b@ == SourceTypeV::RunEndEncoded(Box::new((**f2)@)));
            }
            source_field_eq(&**f1, &**f2)
        },
        (SourceType::RunEndEncoded(_), _) => {
            proof {
                assert(a@ is RunEndEncoded);
                assert(a@ != b@);
            }
            false
        },
        (SourceType::FixedSizeList(f1, n1), SourceType::FixedSizeList(f2, n2)) => {
            proof {
                assert(a@ == SourceTypeV::FixedSizeList(Box::new((**f1)@), *n1));
                assert(b@ == SourceTypeV::FixedSizeList(Box::new((**f2)@), *n2));
            }
            *n1 == *n2 && source_field_eq(&**f1, &**f2)
        },
        (SourceType::FixedSizeList(_, _), _) => {
            proof {
                assert(a@ is FixedSizeList);
                assert(a@ != b@);
            }
            false
        },
        (SourceType::MapOf(f1, s1), SourceType::MapOf(f2, s2)) => {
            proof {
                assert(a@ == SourceTypeV::MapOf(Box::new((**f1)@), *s1));
                assert(b@ == SourceTypeV::MapOf(Box::new((**f2)@), *s2));
            }
            *s1 == *s2 && source_field_eq(&**f1, &**f2)
        },
        (SourceType::MapOf(_, _), _) => {
            proof {
                assert(a@ is MapOf);
                assert(a@ != b@);
            }
            false
        },
        (SourceType::Struct(fs1), SourceType::Struct(fs2)) => {
            proof {
                assert(a@ == SourceTypeV::Struct(source_fields_view(fs1@)));
                assert(b@ == SourceTypeV::Struct(source_fields_view(fs2@)));
            }
            schema_eq(fs1, fs2)
        },
        (SourceType::Struct(_), _) => {
            proof {
                assert(a@ is Struct);
                assert(a@ != b@);
            }
            false
        },
        (SourceType::Dictionary(v1), SourceType::Dictionary(v2)) => {
            proof {
                assert(a@ == SourceTypeV::Dictionary(Box::new((**v1)@)));
                assert(b@ == SourceTypeV::Dictionary(Box::new((**v2)@)));
            }
            source_type_eq(&**v1, &**v2)
        },
        (SourceType::Dictionary(_), _) => {
            proof {
                assert(a@ is Dictionary);
                assert(a@ != b@);
            }
            false
        },
    }
}

/// Structural equality of two source fields: name, type and nullability.
pub fn source_field_eq(a: &SourceField, b: &SourceField) -> (r: bool)
    ensures
        r == (a@ == b@),
    decreases *a,
{
    proof {
        assert(a@ == (SourceFieldV { name: a.name@, dtype: a.dtype@, nullable: a.nullable }));
        assert(b@ == (SourceFieldV { name: b.name@, dtype: b.dtype@, nullable: b.nullable }));
    }
    a.name == b.name && a.nullable == b.nullable && source_type_eq(&a.dtype, &b.dtype)
}

/// Structural equality of two schemas from position `i` on.
fn schema_eq_from(a: &Vec<SourceField>, b: &Vec<SourceField>, i: usize) -> (r: bool)
    requires
        a@.len() == b@.len(),
        i <= a@.len(),
    ensures
        r == (source_fields_view(a@).skip(i as int) == source_fields_view(b@).skip(i as int)),
    decreases *a, a@.len() - i,
{
    proof {
        lemma_source_fields_view(a@);
        lemma_source_fields_view(b@);
    }
    let ghost avs = source_fields_view(a@).skip(i as int);
    let ghost bvs = source_fields_view(b@).skip(i as int);
    if i == a.len() {
        proof {
            assert(avs =~= bvs);
        }
        true
    } else {
        proof {
            assert(avs[0] == a@[i as int]@);
            assert(bvs[0] == b@[i as int]@);
        }
        if source_field_eq(&a[i], &b[i]) {
            let r = schema_eq_from(a, b, i + 1);
            proof {
                assert(avs.drop_first() =~= source_fields_view(a@).skip(i + 1));
                assert(bvs.drop_first() =~= source_fields_view(b@).skip(i + 1));
                if r {
                    assert(avs.len() == bvs.len());
                    assert forall|k: int| 0 <= k < avs.len() implies avs[k] == bvs[k] by {
                        if k > 0 {
                            assert(avs[k] == avs.drop_first()[k - 1]);
                            assert(bvs[k] == bvs.drop_first()[k - 1]);
                        }
                    }
                    assert(avs =~= bvs);
                } else {
                    if avs == bvs {
                        assert(avs.drop_first() =~= bvs.drop_first());
                        assert(false);
                    }
                }
            }
            r
        } else {
            proof {
                if avs == bvs {
                    assert(avs[0] == bvs[0]);
                    assert(false);
                }
            }
            false
        }
    }
}

/// Structural equality of two schemas, decided exactly; the streaming write
/// path uses this one comparison, up front, to decide whether batches pass
/// through unchanged or are cast.
pub fn schema_eq(a: &Vec<SourceField>, b: &Vec<SourceField>) -> (r: bool)
    ensures
        r == (source_fields_view(a@) == source_fields_view(b@)),
    decreases *a,
{
    proof {
        lemma_source_fields_view(a@);
        lemma_source_fields_view(b@);
    }
    if a.len() != b.len() {
        proof {
            assert(source_fields_view(a@).len() != source_fields_view(b@).len());
        }
        false
    } else {
        proof {
            assert(source_fields_view(a@).skip(0) =~= source_fields_view(a@));
            assert(source_fields_view(b@).skip(0) =~= source_fields_view(b@));
        }
        schema_eq_from(a, b, 0)
    }
}

/// Two fields of a target field sequence share a name.
pub open spec fn has_dup_target_names(fields: Seq<TargetFieldV>) -> bool {
    exists|i: int, j: int| 0 <= i < j < fields.len() && fields[i].name == fields[j].name
}

/// The invariant of the table's type system: decimal parameters within
/// precision 1..=38 and scale at most the precision, and no struct with a
/// repeated field name, everywhere in the tree.
pub open spec fn target_type_wf(t: TargetTypeV) -> bool
    decreases t,
{
    match t {
        TargetTypeV::Primitive(TargetPrimitive::Decimal(p, s)) => 1 <= p <= 38 && s <= p,
        TargetTypeV::Primitive(_) => true,
        TargetTypeV::Array { element, .. } => target_type_wf(*element),
        TargetTypeV::MapOf { key, value, .. } => target_type_wf(*key) && target_type_wf(*value),
        TargetTypeV::Struct { fields } => target_fields_wf(fields) && !has_dup_target_names(
            fields,
        ),
    }
}

/// Every field's type in the sequence is well-formed.
pub open spec fn target_fields_wf(fields: Seq<TargetFieldV>) -> bool
    decreases fields,
{
    fields.len() == 0 || (target_type_wf(fields[0].dtype) && target_fields_wf(
        fields.drop_first(),
    ))
}

/// The type mapper establishes the target invariant: whatever it accepts, it
/// produces a well-formed target type.
pub proof fn lemma_map_preserves_wf(t: SourceTypeV)
    ensures
        map_type_spec(t) matches Ok(tt) ==> target_type_wf(tt),
    decreases t,
{
    match t {
        SourceTypeV::List(f) => {
            lemma_map_preserves_wf((*f).dtype);
            assert(map_type_spec(t) == map_element_spec(*f));
        },
        SourceTypeV::LargeList(f) => {
            lemma_map_preserves_wf((*f).dtype);
            assert(map_type_spec(t) == map_element_spec(*f));
        },
        SourceTypeV::FixedSizeList(f, _) => {
            lemma_map_preserves_wf((*f).dtype);
            assert(map_type_spec(t) == map_element_spec(*f));
        },
        SourceTypeV::ListView(f) => {
            lemma_map_preserves_wf((*f).dtype);
            assert(map_type_spec(t) == map_element_spec(*f));
        },
        SourceTypeV::LargeListView(f) => {
            lemma_map_preserves_wf((*f).dtype);
            assert(map_type_spec(t) == map_element_spec(*f));
        },
        SourceTypeV::MapOf(entries, _) => {
            match (*entries).dtype {
                SourceTypeV::Struct(fs) => {
                    if fs.len() == 2 {
                        lemma_map_preserves_wf(fs[0].dtype);
                        lemma_map_preserves_wf(fs[1].dtype);
                    }
                    assert(map_type_spec(t) matches Ok(tt) ==> target_type_wf(tt));
                },
                _ => {
                    assert(map_type_spec(t) is Err);
                },
            }
        },
        SourceTypeV::Struct(fields) => {
            lemma_map_fields_preserve_wf(fields);
            if map_fields_spec(fields) is Ok && !has_dup_names(fields) {
                let tfs = map_fields_spec(fields)->Ok_0;
                lemma_map_fields_shape(fields);
                if has_dup_target_names(tfs) {
                    let (i, j) = choose|i: int, j: int|
                        0 <= i < j < tfs.len() && tfs[i].name == tfs[j].name;
                    assert(tfs[i].name == fields[i].name);
                    assert(tfs[j].name == fields[j].name);
                    assert(has_dup_names(fields));
                }
            }
            assert(map_type_spec(t) matches Ok(tt) ==> target_type_wf(tt));
        },
        SourceTypeV::Dictionary(v) => {
            lemma_map_preserves_wf(*v);
            assert(map_type_spec(t) == map_type_spec(*v));
        },
        SourceTypeV::RunEndEncoded(f) => {
            lemma_map_preserves_wf((*f).dtype);
            assert(map_type_spec(t) == map_type_spec((*f).dtype));
        },
        _ => {
            assert(map_type_spec(t) matches Ok(tt) ==> target_type_wf(tt));
        },
    }
}

/// The field mapper establishes the invariant field by field.
pub proof fn lemma_map_fields_preserve_wf(fields: Seq<SourceFieldV>)
    ensures
        map_fields_spec(fields) matches Ok(tfs) ==> target_fields_wf(tfs),
    decreases fields,
{
    if fields.len() == 0 {
        assert(map_fields_spec(fields) == Ok::<Seq<TargetFieldV>, UnsupportedReason>(Seq::empty()));
        assert(target_fields_wf(Seq::<TargetFieldV>::empty()));
    } else {
        lemma_map_preserves_wf(fields[0].dtype);
        lemma_map_fields_preserve_wf(fields.drop_first());
        if map_type_spec(fields[0].dtype) is Ok && map_fields_spec(fields.drop_first()) is Ok {
            let head = TargetFieldV {
                name: fields[0].name,
                dtype: map_type_spec(fields[0].dtype)->Ok_0,
                nullable: fields[0].nullable,
            };
            let rest = map_fields_spec(fields.drop_first())->Ok_0;
            assert(map_fields_spec(fields) == Ok::<Seq<TargetFieldV>, UnsupportedReason>(
                seq![head] + rest,
            ));
            assert((seq![head] + rest)[0] == head);
            assert((seq![head] + rest).drop_first() =~= rest);
            assert(target_fields_wf(seq![head] + rest));
        }
    }
}

} // verus!
