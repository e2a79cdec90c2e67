//! The read-options and writer-properties builders: defaults, setters,
//! getters, and the tri-state pruning flag.

use datafusion_c::options::{
    df_csv_read_options_get_delimiter, df_csv_read_options_get_file_extension,
    df_csv_read_options_get_has_header, df_csv_read_options_get_schema,
    df_csv_read_options_get_schema_infer_max_records,
    df_csv_read_options_get_table_partition_columns, df_csv_read_options_new,
    df_csv_read_options_set_delimiter, df_csv_read_options_set_file_extension,
    df_csv_read_options_set_has_header, df_csv_read_options_set_schema,
    df_csv_read_options_set_schema_infer_max_records,
    df_csv_read_options_set_table_partition_columns, df_parquet_read_options_get_file_extension,
    df_parquet_read_options_get_pruning, df_parquet_read_options_get_table_partition_columns,
    df_parquet_read_options_is_set_pruning, df_parquet_read_options_new,
    df_parquet_read_options_set_file_extension, df_parquet_read_options_set_pruning,
    df_parquet_read_options_set_table_partition_columns, df_parquet_read_options_unset_pruning,
    df_parquet_writer_properties_new, df_parquet_writer_properties_set_max_row_group_size,
};
use arrow::datatypes::{DataType, TimeUnit};
use datafusion_c::schema::{ColumnField, ColumnSchema};

#[test]
fn csv_options_start_with_engine_defaults() {
    let options = df_csv_read_options_new();
    assert!(df_csv_read_options_get_has_header(&options));
    assert_eq!(df_csv_read_options_get_delimiter(&options), b',');
    assert_eq!(df_csv_read_options_get_schema_infer_max_records(&options), 1000);
    assert_eq!(df_csv_read_options_get_file_extension(&options).as_str(), ".csv");
    assert!(df_csv_read_options_get_schema(&options).is_none());
    assert!(df_csv_read_options_get_table_partition_columns(&options).is_none());
}

#[test]
fn csv_setters_round_trip() {
    let mut options = df_csv_read_options_new();
    df_csv_read_options_set_has_header(&mut options, false);
    assert!(!df_csv_read_options_get_has_header(&options));
    df_csv_read_options_set_delimiter(&mut options, b';');
    assert_eq!(df_csv_read_options_get_delimiter(&options), b';');
    df_csv_read_options_set_schema_infer_max_records(&mut options, 25);
    assert_eq!(df_csv_read_options_get_schema_infer_max_records(&options), 25);
    df_csv_read_options_set_file_extension(&mut options, String::from(".tsv"));
    assert_eq!(df_csv_read_options_get_file_extension(&options).as_str(), ".tsv");
}

#[test]
fn csv_schema_round_trips_through_the_handle() {
    let mut options = df_csv_read_options_new();
    let schema = ColumnSchema {
        fields: vec![
            ColumnField {
                name: String::from("a"),
                data_type: DataType::Int64,
                nullable: true,
            },
            ColumnField {
                name: String::from("b"),
                data_type: DataType::Utf8,
                nullable: false,
            },
        ],
    };
    df_csv_read_options_set_schema(&mut options, Some(schema));
    let held = df_csv_read_options_get_schema(&options).as_ref().expect("schema held");
    assert_eq!(held.fields.len(), 2);
    assert_eq!(held.fields[0].name.as_str(), "a");
    assert_eq!(held.fields[0].data_type, DataType::Int64);
    assert!(held.fields[0].nullable);
    assert_eq!(held.fields[1].name.as_str(), "b");
    assert_eq!(held.fields[1].data_type, DataType::Utf8);
    assert!(!held.fields[1].nullable);
    df_csv_read_options_set_schema(&mut options, None);
    assert!(df_csv_read_options_get_schema(&options).is_none());
}

#[test]
fn csv_partition_columns_round_trip_through_the_handle() {
    let mut options = df_csv_read_options_new();
    let schema = ColumnSchema {
        fields: vec![ColumnField {
            name: String::from("year"),
            data_type: DataType::Date32,
            nullable: true,
        }],
    };
    df_csv_read_options_set_table_partition_columns(&mut options, Some(schema));
    let held = df_csv_read_options_get_table_partition_columns(&options)
        .as_ref()
        .expect("columns held");
    assert_eq!(held.fields.len(), 1);
    assert_eq!(held.fields[0].name.as_str(), "year");
    assert_eq!(held.fields[0].data_type, DataType::Date32);
}

#[test]
fn any_engine_column_type_rides_through_the_handle() {
    let mut options = df_csv_read_options_new();
    let schema = ColumnSchema {
        fields: vec![
            ColumnField {
                name: String::from("ts"),
                data_type: DataType::Timestamp(TimeUnit::Millisecond, None),
                nullable: true,
            },
            ColumnField {
                name: String::from("amount"),
                data_type: DataType::Decimal128(10, 2),
                nullable: false,
            },
        ],
    };
    df_csv_read_options_set_schema(&mut options, Some(schema));
    let held = df_csv_read_options_get_schema(&options).as_ref().expect("schema held");
    assert_eq!(
        held.fields[0].data_type,
        DataType::Timestamp(TimeUnit::Millisecond, None)
    );
    assert_eq!(held.fields[1].data_type, DataType::Decimal128(10, 2));
}

#[test]
fn parquet_options_start_with_engine_defaults() {
    let options = df_parquet_read_options_new();
    assert_eq!(df_parquet_read_options_get_file_extension(&options).as_str(), ".parquet");
    assert!(df_parquet_read_options_get_table_partition_columns(&options).is_none());
    assert!(!df_parquet_read_options_is_set_pruning(&options));
}

#[test]
fn parquet_setters_round_trip() {
    let mut options = df_parquet_read_options_new();
    df_parquet_read_options_set_file_extension(&mut options, String::from(".pq"));
    assert_eq!(df_parquet_read_options_get_file_extension(&options).as_str(), ".pq");
    let schema = ColumnSchema {
        fields: vec![ColumnField {
            name: String::from("region"),
            data_type: DataType::Utf8,
            nullable: true,
        }],
    };
    df_parquet_read_options_set_table_partition_columns(&mut options, Some(schema));
    let held = df_parquet_read_options_get_table_partition_columns(&options)
        .as_ref()
        .expect("columns held");
    assert_eq!(held.fields[0].name.as_str(), "region");
}

#[test]
fn pruning_is_a_tri_state() {
    let mut options = df_parquet_read_options_new();
    assert!(!df_parquet_read_options_is_set_pruning(&options));
    assert!(!df_parquet_read_options_get_pruning(&options));

    df_parquet_read_options_set_pruning(&mut options, true);
    assert!(df_parquet_read_options_is_set_pruning(&options));
    assert!(df_parquet_read_options_get_pruning(&options));

    df_parquet_read_options_unset_pruning(&mut options);
    assert!(!df_parquet_read_options_is_set_pruning(&options));
    assert!(!df_parquet_read_options_get_pruning(&options));

    df_parquet_read_options_set_pruning(&mut options, false);
    assert!(df_parquet_read_options_is_set_pruning(&options));
    assert!(!df_parquet_read_options_get_pruning(&options));
}

#[test]
fn writer_properties_hold_the_row_group_cap() {
    let mut properties = df_parquet_writer_properties_new();
    assert!(properties.max_row_group_size.is_none());
    df_parquet_writer_properties_set_max_row_group_size(&mut properties, 512);
    assert_eq!(properties.max_row_group_size, Some(512));
}
