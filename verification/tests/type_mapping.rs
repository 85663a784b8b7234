use deltar::types::{
    map_schema, map_type, unmap_schema, unmap_type, schema_eq, IntervalUnit, SourceField,
    SourceType, TargetField, TargetPrimitive, TargetType, TimeUnit, UnsupportedReason,
};

fn field(name: &str, dtype: SourceType, nullable: bool) -> SourceField {
    SourceField { name: name.to_string(), dtype, nullable }
}

fn prim(p: TargetPrimitive) -> TargetType {
    TargetType::Primitive(p)
}

#[test]
fn maps_boolean_and_signed_integers_structurally() {
    assert_eq!(map_type(&SourceType::Boolean).unwrap(), prim(TargetPrimitive::Boolean));
    assert_eq!(map_type(&SourceType::Int8).unwrap(), prim(TargetPrimitive::Byte));
    assert_eq!(map_type(&SourceType::Int16).unwrap(), prim(TargetPrimitive::Short));
    assert_eq!(map_type(&SourceType::Int32).unwrap(), prim(TargetPrimitive::Integer));
    assert_eq!(map_type(&SourceType::Int64).unwrap(), prim(TargetPrimitive::Long));
}

#[test]
fn promotes_unsigned_integers_to_wider_signed_kinds() {
    assert_eq!(map_type(&SourceType::UInt8).unwrap(), prim(TargetPrimitive::Short));
    assert_eq!(map_type(&SourceType::UInt16).unwrap(), prim(TargetPrimitive::Integer));
    assert_eq!(map_type(&SourceType::UInt32).unwrap(), prim(TargetPrimitive::Long));
}

#[test]
fn rejects_unsigned_64_bit_integers() {
    let e = map_type(&SourceType::UInt64).unwrap_err();
    assert_eq!(e.reason, UnsupportedReason::UnsignedLongRange);
    assert!(e.suggestion().contains("signed 64-bit"));
}

#[test]
fn maps_floats_and_strings_and_binary() {
    assert_eq!(map_type(&SourceType::Float16).unwrap(), prim(TargetPrimitive::Float));
    assert_eq!(map_type(&SourceType::Float32).unwrap(), prim(TargetPrimitive::Float));
    assert_eq!(map_type(&SourceType::Float64).unwrap(), prim(TargetPrimitive::Double));
    assert_eq!(map_type(&SourceType::Utf8).unwrap(), prim(TargetPrimitive::String));
    assert_eq!(map_type(&SourceType::LargeUtf8).unwrap(), prim(TargetPrimitive::String));
    assert_eq!(map_type(&SourceType::Utf8View).unwrap(), prim(TargetPrimitive::String));
    assert_eq!(map_type(&SourceType::Binary).unwrap(), prim(TargetPrimitive::Binary));
    assert_eq!(map_type(&SourceType::LargeBinary).unwrap(), prim(TargetPrimitive::Binary));
    assert_eq!(map_type(&SourceType::BinaryView).unwrap(), prim(TargetPrimitive::Binary));
    assert_eq!(map_type(&SourceType::FixedSizeBinary(16)).unwrap(), prim(TargetPrimitive::Binary));
}

#[test]
fn unifies_date_variants() {
    assert_eq!(map_type(&SourceType::Date32).unwrap(), prim(TargetPrimitive::Date));
    assert_eq!(map_type(&SourceType::Date64).unwrap(), prim(TargetPrimitive::Date));
}

#[test]
fn splits_timestamps_on_zone_presence_only() {
    for unit in [TimeUnit::Second, TimeUnit::Millisecond, TimeUnit::Microsecond, TimeUnit::Nanosecond] {
        assert_eq!(
            map_type(&SourceType::Timestamp(unit, true)).unwrap(),
            prim(TargetPrimitive::Timestamp)
        );
        assert_eq!(
            map_type(&SourceType::Timestamp(unit, false)).unwrap(),
            prim(TargetPrimitive::TimestampNtz)
        );
    }
}

#[test]
fn rejects_time_duration_interval_union_and_null() {
    assert_eq!(
        map_type(&SourceType::Time32(TimeUnit::Second)).unwrap_err().reason,
        UnsupportedReason::TimeOfDay
    );
    assert_eq!(
        map_type(&SourceType::Time64(TimeUnit::Nanosecond)).unwrap_err().reason,
        UnsupportedReason::TimeOfDay
    );
    assert_eq!(
        map_type(&SourceType::Duration(TimeUnit::Millisecond)).unwrap_err().reason,
        UnsupportedReason::DurationColumn
    );
    assert_eq!(
        map_type(&SourceType::Interval(IntervalUnit::DayTime)).unwrap_err().reason,
        UnsupportedReason::IntervalColumn
    );
    assert_eq!(map_type(&SourceType::Union).unwrap_err().reason, UnsupportedReason::UnionColumn);
    assert_eq!(map_type(&SourceType::Null).unwrap_err().reason, UnsupportedReason::NullOnly);
}

#[test]
fn error_texts_name_reason_and_remediation() {
    let e = map_type(&SourceType::Time32(TimeUnit::Second)).unwrap_err();
    assert_eq!(e.reason_text(), "stand-alone time-of-day columns have no table representation");
    assert_eq!(e.suggestion(), "use a timestamp, or store the value as a string or integer");
}

#[test]
fn maps_decimals_of_every_width_when_parameters_are_valid() {
    for t in [
        SourceType::Decimal32(9, 2),
        SourceType::Decimal64(9, 2),
        SourceType::Decimal128(9, 2),
        SourceType::Decimal256(9, 2),
    ] {
        assert_eq!(map_type(&t).unwrap(), prim(TargetPrimitive::Decimal(9, 2)));
    }
    assert_eq!(
        map_type(&SourceType::Decimal128(38, 38)).unwrap(),
        prim(TargetPrimitive::Decimal(38, 38))
    );
}

#[test]
fn rejects_wide_and_malformed_decimals() {
    assert_eq!(
        map_type(&SourceType::Decimal256(40, 2)).unwrap_err().reason,
        UnsupportedReason::PrecisionExceeded { precision: 40 }
    );
    assert_eq!(
        map_type(&SourceType::Decimal128(9, -1)).unwrap_err().reason,
        UnsupportedReason::InvalidDecimal { precision: 9, scale: -1 }
    );
    assert_eq!(
        map_type(&SourceType::Decimal128(0, 0)).unwrap_err().reason,
        UnsupportedReason::InvalidDecimal { precision: 0, scale: 0 }
    );
    assert_eq!(
        map_type(&SourceType::Decimal64(5, 7)).unwrap_err().reason,
        UnsupportedReason::InvalidDecimal { precision: 5, scale: 7 }
    );
}

#[test]
fn maps_list_variants_preserving_element_nullability() {
    let make = |nullable| Box::new(field("item", SourceType::Int32, nullable));
    for t in [
        SourceType::List(make(true)),
        SourceType::LargeList(make(true)),
        SourceType::FixedSizeList(make(true), 4),
        SourceType::ListView(make(true)),
        SourceType::LargeListView(make(true)),
    ] {
        assert_eq!(
            map_type(&t).unwrap(),
            TargetType::Array {
                element: Box::new(prim(TargetPrimitive::Integer)),
                contains_null: true
            }
        );
    }
    let t = SourceType::List(make(false));
    assert_eq!(
        map_type(&t).unwrap(),
        TargetType::Array { element: Box::new(prim(TargetPrimitive::Integer)), contains_null: false }
    );
}

#[test]
fn list_of_unsupported_element_propagates_the_failure() {
    let t = SourceType::List(Box::new(field("item", SourceType::UInt64, true)));
    assert_eq!(map_type(&t).unwrap_err().reason, UnsupportedReason::UnsignedLongRange);
}

fn map_entries(key: SourceType, value: SourceType, value_nullable: bool) -> SourceType {
    SourceType::MapOf(
        Box::new(field(
            "entries",
            SourceType::Struct(vec![
                field("key", key, false),
                field("value", value, value_nullable),
            ]),
            false,
        )),
        false,
    )
}

#[test]
fn maps_two_field_entry_structs_preserving_value_nullability() {
    let t = map_entries(SourceType::Utf8, SourceType::Int64, true);
    assert_eq!(
        map_type(&t).unwrap(),
        TargetType::MapOf {
            key: Box::new(prim(TargetPrimitive::String)),
            value: Box::new(prim(TargetPrimitive::Long)),
            value_contains_null: true
        }
    );
}

#[test]
fn rejects_maps_whose_entries_are_not_a_two_field_struct() {
    let three = SourceType::MapOf(
        Box::new(field(
            "entries",
            SourceType::Struct(vec![
                field("key", SourceType::Utf8, false),
                field("value", SourceType::Int64, true),
                field("extra", SourceType::Int64, true),
            ]),
            false,
        )),
        false,
    );
    assert_eq!(map_type(&three).unwrap_err().reason, UnsupportedReason::MapShape);
    let not_struct = SourceType::MapOf(Box::new(field("entries", SourceType::Int64, false)), false);
    assert_eq!(map_type(&not_struct).unwrap_err().reason, UnsupportedReason::MapShape);
}

#[test]
fn maps_through_dictionary_and_run_end_encodings() {
    let dict = SourceType::Dictionary(Box::new(SourceType::Utf8));
    assert_eq!(map_type(&dict).unwrap(), prim(TargetPrimitive::String));
    let ree = SourceType::RunEndEncoded(Box::new(field("values", SourceType::Int32, true)));
    assert_eq!(map_type(&ree).unwrap(), prim(TargetPrimitive::Integer));
}

#[test]
fn rejects_structs_with_duplicate_field_names() {
    let t = SourceType::Struct(vec![
        field("a", SourceType::Int32, true),
        field("a", SourceType::Utf8, true),
    ]);
    assert_eq!(map_type(&t).unwrap_err().reason, UnsupportedReason::DuplicateFieldNames);
}

#[test]
fn struct_mapping_propagates_the_first_field_failure() {
    let t = SourceType::Struct(vec![
        field("a", SourceType::Time32(TimeUnit::Second), true),
        field("b", SourceType::UInt64, true),
    ]);
    assert_eq!(map_type(&t).unwrap_err().reason, UnsupportedReason::TimeOfDay);
}

#[test]
fn nested_struct_of_array_of_map_keeps_shape_exactly() {
    let inner_map = map_entries(SourceType::Utf8, SourceType::Int64, false);
    let t = SourceType::Struct(vec![
        field("payload", SourceType::List(Box::new(field("item", inner_map, true))), false),
        field("tag", SourceType::Utf8, true),
    ]);
    let mapped = map_type(&t).unwrap();
    let expected = TargetType::Struct {
        fields: vec![
            TargetField {
                name: "payload".to_string(),
                dtype: TargetType::Array {
                    element: Box::new(TargetType::MapOf {
                        key: Box::new(prim(TargetPrimitive::String)),
                        value: Box::new(prim(TargetPrimitive::Long)),
                        value_contains_null: false,
                    }),
                    contains_null: true,
                },
                nullable: false,
            },
            TargetField { name: "tag".to_string(), dtype: prim(TargetPrimitive::String), nullable: true },
        ],
    };
    assert_eq!(mapped, expected);
}

#[test]
fn maps_a_whole_schema_field_by_field() {
    let schema = vec![field("id", SourceType::Int64, false), field("val", SourceType::Utf8, true)];
    let mapped = map_schema(&schema).unwrap();
    assert_eq!(mapped.len(), 2);
    assert_eq!(mapped[0].name, "id");
    assert_eq!(mapped[0].dtype, prim(TargetPrimitive::Long));
    assert!(!mapped[0].nullable);
    assert_eq!(mapped[1].name, "val");
    assert_eq!(mapped[1].dtype, prim(TargetPrimitive::String));
    assert!(mapped[1].nullable);
}

#[test]
fn schema_with_duplicate_top_level_names_is_rejected() {
    let schema = vec![field("id", SourceType::Int64, false), field("id", SourceType::Utf8, true)];
    assert_eq!(map_schema(&schema).unwrap_err().reason, UnsupportedReason::DuplicateFieldNames);
}

#[test]
fn empty_schema_maps_to_empty_schema() {
    assert_eq!(map_schema(&vec![]).unwrap().len(), 0);
}

#[test]
fn renders_primitives_back_in_the_source_type_system() {
    assert_eq!(unmap_type(&prim(TargetPrimitive::Long)), SourceType::Int64);
    assert_eq!(unmap_type(&prim(TargetPrimitive::String)), SourceType::Utf8);
    assert_eq!(
        unmap_type(&prim(TargetPrimitive::Timestamp)),
        SourceType::Timestamp(TimeUnit::Microsecond, true)
    );
    assert_eq!(
        unmap_type(&prim(TargetPrimitive::TimestampNtz)),
        SourceType::Timestamp(TimeUnit::Microsecond, false)
    );
    assert_eq!(unmap_type(&prim(TargetPrimitive::Decimal(9, 2))), SourceType::Decimal128(9, 2));
    assert_eq!(unmap_type(&prim(TargetPrimitive::Date)), SourceType::Date32);
}

#[test]
fn renders_nested_types_back_with_the_conventional_field_names() {
    let t = TargetType::MapOf {
        key: Box::new(prim(TargetPrimitive::String)),
        value: Box::new(prim(TargetPrimitive::Long)),
        value_contains_null: true,
    };
    assert_eq!(unmap_type(&t), map_entries(SourceType::Utf8, SourceType::Int64, true));
    let a = TargetType::Array { element: Box::new(prim(TargetPrimitive::Integer)), contains_null: false };
    assert_eq!(
        unmap_type(&a),
        SourceType::List(Box::new(field("item", SourceType::Int32, false)))
    );
}

#[test]
fn renders_a_schema_back_field_by_field() {
    let schema = vec![field("id", SourceType::Int64, false), field("val", SourceType::Utf8, true)];
    let mapped = map_schema(&schema).unwrap();
    let back = unmap_schema(&mapped);
    assert_eq!(back, schema);
}

#[test]
fn schema_equality_is_structural_and_exact() {
    let a = vec![field("id", SourceType::Int64, false), field("val", SourceType::Utf8, true)];
    let b = vec![field("id", SourceType::Int64, false), field("val", SourceType::Utf8, true)];
    let c = vec![field("id", SourceType::Int64, false), field("val", SourceType::Utf8, false)];
    let d = vec![field("id", SourceType::Int64, false)];
    assert!(schema_eq(&a, &b));
    assert!(!schema_eq(&a, &c));
    assert!(!schema_eq(&a, &d));
    let nested_a = vec![field("m", map_entries(SourceType::Utf8, SourceType::Int64, true), true)];
    let nested_b = vec![field("m", map_entries(SourceType::Utf8, SourceType::Int64, false), true)];
    assert!(!schema_eq(&nested_a, &nested_b));
    assert!(schema_eq(&vec![], &vec![]));
}
