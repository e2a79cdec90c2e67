//! Read-options and writer-properties handles: plain mutable builders
//! whose state a registration or write call consumes by value.

use vstd::prelude::*;
use vstd::string::StringExecFns;
use crate::schema::ColumnSchema;

verus! {

/// Configuration for registering a CSV-backed table. A fresh handle
/// carries the engine's own defaults.
#[derive(Debug)]
pub struct DFCSVReadOptions {
    pub has_header: bool,
    pub delimiter: u8,
    pub schema_infer_max_records: usize,
    pub file_extension: String,
    pub schema: Option<ColumnSchema>,
    pub table_partition_columns: Option<ColumnSchema>,
}

impl DFCSVReadOptions {
    /// Fresh options carrying the engine's CSV defaults: a header line,
    /// comma-delimited, schema inference over the leading rows, and the
    /// usual file extension.
    pub fn new() -> (r: DFCSVReadOptions)
        ensures
            r.has_header == true,
            r.delimiter == 44u8,
            r.schema_infer_max_records == 1000,
            r.file_extension@ == ".csv"@,
            r.schema is None,
            r.table_partition_columns is None,
    {
        DFCSVReadOptions {
            has_header: true,
            delimiter: 44u8,
            schema_infer_max_records: 1000,
            file_extension: String::from_str(".csv"),
            schema: None,
            table_partition_columns: None,
        }
    }
}

/// Create fresh CSV read options.
pub fn df_csv_read_options_new() -> (r: DFCSVReadOptions)
    ensures
        r.has_header == true,
        r.delimiter == 44u8,
        r.schema_infer_max_records == 1000,
        r.file_extension@ == ".csv"@,
        r.schema is None,
        r.table_partition_columns is None,
{
    DFCSVReadOptions::new()
}

/// Release CSV read options.
pub fn df_csv_read_options_free(_options: Option<Box<DFCSVReadOptions>>) {
}

pub fn df_csv_read_options_set_has_header(options: &mut DFCSVReadOptions, has_header: bool)
    ensures
        *final(options) == (DFCSVReadOptions { has_header, ..*old(options) }),
{
    options.has_header = has_header;
}

pub fn df_csv_read_options_get_has_header(options: &DFCSVReadOptions) -> (r: bool)
    ensures
        r == options.has_header,
{
    options.has_header
}

pub fn df_csv_read_options_set_delimiter(options: &mut DFCSVReadOptions, delimiter: u8)
    ensures
        *final(options) == (DFCSVReadOptions { delimiter, ..*old(options) }),
{
    options.delimiter = delimiter;
}

pub fn df_csv_read_options_get_delimiter(options: &DFCSVReadOptions) -> (r: u8)
    ensures
        r == options.delimiter,
{
    options.delimiter
}

pub fn df_csv_read_options_set_schema_infer_max_records(
    options: &mut DFCSVReadOptions,
    n: usize,
)
    ensures
        *final(options) == (DFCSVReadOptions { schema_infer_max_records: n, ..*old(options) }),
{
    options.schema_infer_max_records = n;
}

pub fn df_csv_read_options_get_schema_infer_max_records(options: &DFCSVReadOptions) -> (r:
    usize)
    ensures
        r == options.schema_infer_max_records,
{
    options.schema_infer_max_records
}

pub fn df_csv_read_options_set_file_extension(
    options: &mut DFCSVReadOptions,
    file_extension: String,
)
    ensures
        *final(options) == (DFCSVReadOptions { file_extension, ..*old(options) }),
{
    options.file_extension = file_extension;
}

pub fn df_csv_read_options_get_file_extension(options: &DFCSVReadOptions) -> (r: &String)
    ensures
        r == options.file_extension,
{
    &options.file_extension
}

/// Fix the schema the CSV reader should use instead of inferring one;
/// `None` returns to inference.
pub fn df_csv_read_options_set_schema(
    options: &mut DFCSVReadOptions,
    schema: Option<ColumnSchema>,
)
    ensures
        *final(options) == (DFCSVReadOptions { schema, ..*old(options) }),
{
    options.schema = schema;
}

pub fn df_csv_read_options_get_schema(options: &DFCSVReadOptions) -> (r: &Option<
    ColumnSchema,
>)
    ensures
        r == options.schema,
{
    &options.schema
}

/// Fix the partition columns as a schema-shaped view; the flat name/type
/// list the engine consumes is derived from it at registration time.
pub fn df_csv_read_options_set_table_partition_columns(
    options: &mut DFCSVReadOptions,
    schema: Option<ColumnSchema>,
)
    ensures
        *final(options) == (DFCSVReadOptions {
            table_partition_columns: schema,
            ..*old(options)
        }),
{
    options.table_partition_columns = schema;
}

pub fn df_csv_read_options_get_table_partition_columns(options: &DFCSVReadOptions) -> (r:
    &Option<ColumnSchema>)
    ensures
        r == options.table_partition_columns,
{
    &options.table_partition_columns
}

/// Configuration for registering a Parquet-backed table.
#[derive(Debug)]
pub struct DFParquetReadOptions {
    pub file_extension: String,
    pub table_partition_columns: Option<ColumnSchema>,
    pub pruning: Option<bool>,
}

/// The pruning choice after an explicit set.
pub open spec fn spec_set_pruning(options: DFParquetReadOptions, value: bool) -> DFParquetReadOptions {
    DFParquetReadOptions { pruning: Some(value), ..options }
}

/// The pruning choice after an explicit unset.
pub open spec fn spec_unset_pruning(options: DFParquetReadOptions) -> DFParquetReadOptions {
    DFParquetReadOptions { pruning: None, ..options }
}

/// Whether an explicit pruning choice is present.
pub open spec fn pruning_is_set(options: DFParquetReadOptions) -> bool {
    options.pruning is Some
}

/// The pruning value the handle reports: the explicit choice when one is
/// present, and `false` otherwise.
pub open spec fn pruning_effective(options: DFParquetReadOptions) -> bool {
    match options.pruning {
        Some(value) => value,
        None => false,
    }
}

impl DFParquetReadOptions {
    /// Fresh options carrying the engine's Parquet defaults, with the
    /// tri-state pruning flag unset.
    pub fn new() -> (r: DFParquetReadOptions)
        ensures
            r.file_extension@ == ".parquet"@,
            r.table_partition_columns is None,
            !pruning_is_set(r),
    {
        DFParquetReadOptions {
            file_extension: String::from_str(".parquet"),
            table_partition_columns: None,
            pruning: None,
        }
    }
}

/// Create fresh Parquet read options.
pub fn df_parquet_read_options_new() -> (r: DFParquetReadOptions)
    ensures
        r.file_extension@ == ".parquet"@,
        r.table_partition_columns is None,
        !pruning_is_set(r),
{
    DFParquetReadOptions::new()
}

/// Release Parquet read options.
pub fn df_parquet_read_options_free(_options: Option<Box<DFParquetReadOptions>>) {
}

pub fn df_parquet_read_options_set_file_extension(
    options: &mut DFParquetReadOptions,
    file_extension: String,
)
    ensures
        *final(options) == (DFParquetReadOptions { file_extension, ..*old(options) }),
{
    options.file_extension = file_extension;
}

pub fn df_parquet_read_options_get_file_extension(options: &DFParquetReadOptions) -> (r:
    &String)
    ensures
        r == options.file_extension,
{
    &options.file_extension
}

pub fn df_parquet_read_options_set_table_partition_columns(
    options: &mut DFParquetReadOptions,
    schema: Option<ColumnSchema>,
)
    ensures
        *final(options) == (DFParquetReadOptions {
            table_partition_columns: schema,
            ..*old(options)
        }),
{
    options.table_partition_columns = schema;
}

pub fn df_parquet_read_options_get_table_partition_columns(
    options: &DFParquetReadOptions,
) -> (r: &Option<ColumnSchema>)
    ensures
        r == options.table_partition_columns,
{
    &options.table_partition_columns
}

/// Make an explicit pruning choice.
pub fn df_parquet_read_options_set_pruning(options: &mut DFParquetReadOptions, pruning: bool)
    ensures
        *final(options) == spec_set_pruning(*old(options), pruning),
{
    options.pruning = Some(pruning);
}

/// Drop any explicit pruning choice, returning to the engine's default.
pub fn df_parquet_read_options_unset_pruning(options: &mut DFParquetReadOptions)
    ensures
        *final(options) == spec_unset_pruning(*old(options)),
{
    options.pruning = None;
}

/// Whether an explicit pruning choice is present.
pub fn df_parquet_read_options_is_set_pruning(options: &DFParquetReadOptions) -> (r: bool)
    ensures
        r == pruning_is_set(*options),
{
    match options.pruning {
        Some(_) => true,
        None => false,
    }
}

/// The pruning value the handle reports; `false` when no explicit choice
/// is present.
pub fn df_parquet_read_options_get_pruning(options: &DFParquetReadOptions) -> (r: bool)
    ensures
        r == pruning_effective(*options),
{
    match options.pruning {
        Some(value) => value,
        None => false,
    }
}

/// Tri-state pruning: an explicit choice is visible and reported as made,
/// and unsetting returns the handle to the no-choice state, whatever came
/// before. Together with the creation contract — a fresh handle has no
/// explicit choice — this pins the whole set/unset/is-set/get protocol.
pub proof fn lemma_pruning_tri_state(options: DFParquetReadOptions, value: bool)
    ensures
        pruning_is_set(spec_set_pruning(options, value)),
        pruning_effective(spec_set_pruning(options, value)) == value,
        !pruning_is_set(spec_unset_pruning(options)),
{
}

/// Configuration for writing a query result as a Parquet file.
#[derive(Debug)]
pub struct DFParquetWriterProperties {
    pub max_row_group_size: Option<usize>,
}

impl DFParquetWriterProperties {
    /// Fresh writer properties: no cap on rows per row group, so the
    /// engine's default applies.
    pub fn new() -> (r: DFParquetWriterProperties)
        ensures
            r.max_row_group_size is None,
    {
        DFParquetWriterProperties { max_row_group_size: None }
    }
}

/// Create fresh Parquet writer properties.
pub fn df_parquet_writer_properties_new() -> (r: DFParquetWriterProperties)
    ensures
        r.max_row_group_size is None,
{
    DFParquetWriterProperties::new()
}

/// Release Parquet writer properties.
pub fn df_parquet_writer_properties_free(
    _properties: Option<Box<DFParquetWriterProperties>>,
) {
}

/// Cap the number of rows per output row group.
pub fn df_parquet_writer_properties_set_max_row_group_size(
    properties: &mut DFParquetWriterProperties,
    size: usize,
)
    ensures
        final(properties).max_row_group_size == Some(size),
{
    properties.max_row_group_size = Some(size);
}

} // verus!
