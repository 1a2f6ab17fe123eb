//! The columnar vocabulary: column definitions, builders, sealed columns
//! and batches, with the mathematical model that the contracts speak of.
//!
//! A column is filled through a builder and then sealed. Sealing consumes
//! the builder, so a sealed column can never be appended to.

use vstd::prelude::*;
use vstd::utf8::encode_utf8;

verus! {

/// The type of the values of a column.
#[derive(Debug, Clone, Copy, PartialEq, Eq, Structural)]
pub enum ColumnKind {
    /// Unsigned 64-bit integers.
    UInt64,
    /// UTF-8 text.
    Utf8,
}

/// The definition of one column of a schema.
#[derive(Debug, Clone, Copy)]
pub struct ColumnDef {
    pub name: &'static str,
    pub kind: ColumnKind,
    pub nullable: bool,
}

/// A field of a schema, as contracts see it. `kind` is `None` for a field
/// whose values are neither unsigned 64-bit integers nor UTF-8 text.
pub struct FieldSpec {
    pub name: Seq<char>,
    pub kind: Option<ColumnKind>,
    pub nullable: bool,
}

/// The values of one column, as contracts see them.
pub enum ColumnData {
    UInt64(Seq<u64>),
    Utf8(Seq<Seq<char>>),
}

impl View for ColumnDef {
    type V = FieldSpec;

    open spec fn view(&self) -> FieldSpec {
        FieldSpec { name: self.name@, kind: Some(self.kind), nullable: self.nullable }
    }
}

impl ColumnData {
    /// The number of values in the column.
    pub open spec fn len(self) -> nat {
        match self {
            ColumnData::UInt64(values) => values.len(),
            ColumnData::Utf8(values) => values.len(),
        }
    }

    /// The type of the column's values.
    pub open spec fn kind(self) -> ColumnKind {
        match self {
            ColumnData::UInt64(_) => ColumnKind::UInt64,
            ColumnData::Utf8(_) => ColumnKind::Utf8,
        }
    }
}

/// The structural check of a batch: as many columns as fields, every
/// column of its field's type, and all columns of one length.
pub open spec fn columns_fit(fields: Seq<FieldSpec>, columns: Seq<ColumnData>) -> bool {
    &&& fields.len() == columns.len()
    &&& forall|i: int|
        0 <= i < columns.len() ==> (#[trigger] fields[i]).kind == Some(columns[i].kind())
    &&& forall|i: int| 0 <= i < columns.len() ==> (#[trigger] columns[i]).len() == columns[0].len()
}

/// True where every field is of one of the two kinds that this library
/// has columns for.
pub open spec fn kinds_known(fields: Seq<FieldSpec>) -> bool {
    forall|i: int| 0 <= i < fields.len() ==> (#[trigger] fields[i]).kind is Some
}

/// The largest number of bytes that a text column can hold: its offsets
/// are signed 32-bit integers.
pub const MAX_TEXT_BYTES: u64 = 2147483647;

/// The number of bytes that a text occupies, which is the length of its
/// UTF-8 encoding.
pub open spec fn byte_len(text: Seq<char>) -> nat {
    encode_utf8(text).len()
}

#[verifier::external_type_specification]
#[verifier::external_body]
pub struct ExField(arrow::datatypes::Field);

#[verifier::external_type_specification]
#[verifier::external_body]
pub struct ExSchema(arrow::datatypes::Schema);

#[verifier::external_type_specification]
#[verifier::external_body]
pub struct ExArrowError(arrow::error::ArrowError);

/// A mutable column of unsigned 64-bit integers: arrow's `UInt64Builder`,
/// which is generic over a trait of arrow's and so is held here unseen.
#[verifier::external_body]
pub struct NumberBuilder {
    inner: arrow::array::UInt64Builder,
}

/// A mutable column of text: arrow's `StringBuilder`, held unseen.
#[verifier::external_body]
pub struct TextBuilder {
    inner: arrow::array::StringBuilder,
}

/// A sealed column of unsigned 64-bit integers: arrow's `UInt64Array`,
/// held unseen. It is made by sealing a `NumberBuilder` and holds no null.
#[verifier::external_body]
pub struct NumberColumn {
    inner: arrow::array::UInt64Array,
}

/// A sealed column of text: arrow's `StringArray`, held unseen. It is made
/// by sealing a `TextBuilder` and holds no null.
#[verifier::external_body]
pub struct TextColumn {
    inner: arrow::array::StringArray,
}

/// A sealed batch: arrow's `RecordBatch`, held unseen because it indexes
/// into columns of a trait type. It is made by assembling a schema of
/// column definitions and sealed columns.
#[verifier::external_body]
#[derive(Debug)]
pub struct ColumnarBatch {
    inner: arrow::record_batch::RecordBatch,
}

/// The name, type and nullability of an arrow field.
pub uninterp spec fn field_spec(field: arrow::datatypes::Field) -> FieldSpec;

/// The fields of an arrow schema, in order.
pub uninterp spec fn schema_fields(schema: arrow::datatypes::Schema) -> Seq<FieldSpec>;

/// The values appended to a number builder so far, in order.
pub uninterp spec fn number_builder_items(builder: NumberBuilder) -> Seq<u64>;

/// The values appended to a text builder so far, in order.
pub uninterp spec fn text_builder_items(builder: TextBuilder) -> Seq<Seq<char>>;

/// The number of bytes that the values of a text builder occupy.
pub uninterp spec fn text_builder_bytes(builder: TextBuilder) -> nat;

/// The values of a sealed number column, in order.
pub uninterp spec fn number_column_items(column: NumberColumn) -> Seq<u64>;

/// The values of a sealed text column, in order.
pub uninterp spec fn text_column_items(column: TextColumn) -> Seq<Seq<char>>;

/// The fields of a batch's schema, in order.
pub uninterp spec fn batch_fields(batch: ColumnarBatch) -> Seq<FieldSpec>;

/// The columns of a batch, in schema order.
pub uninterp spec fn batch_columns(batch: ColumnarBatch) -> Seq<ColumnData>;

/// The debug rendering of a batch with the given fields and columns.
pub uninterp spec fn batch_debug(fields: Seq<FieldSpec>, columns: Seq<ColumnData>) -> Seq<char>;

/// The text that an `ArrowError` displays as.
pub uninterp spec fn arrow_error_display(error: arrow::error::ArrowError) -> Seq<char>;

/// The description with which `RecordBatch::try_new` refuses fields of
/// known kinds and columns that do not fit them, as its error displays it.
pub uninterp spec fn batch_refusal(fields: Seq<FieldSpec>, columns: Seq<ColumnData>) -> Seq<char>;

/// `arrow::datatypes::Field::new`: the field has the name, the data type
/// that stands for `kind`, and the nullability given.
#[verifier::external_body]
pub(crate) fn new_field(name: &str, kind: ColumnKind, nullable: bool) -> (field: arrow::datatypes::Field)
    ensures
        field_spec(field) == (FieldSpec { name: name@, kind: Some(kind), nullable }),
{
    let data_type = match kind {
        ColumnKind::UInt64 => arrow::datatypes::DataType::UInt64,
        ColumnKind::Utf8 => arrow::datatypes::DataType::Utf8,
    };
    arrow::datatypes::Field::new(name, data_type, nullable)
}

/// `arrow::datatypes::Schema::new`: the schema holds the given fields, in
/// the given order.
#[verifier::external_body]
pub(crate) fn new_schema(fields: Vec<arrow::datatypes::Field>) -> (schema: arrow::datatypes::Schema)
    ensures
        schema_fields(schema) == fields@.map_values(|f: arrow::datatypes::Field| field_spec(f)),
{
    arrow::datatypes::Schema::new(fields)
}

/// `UInt64Builder::new`: an empty builder.
#[verifier::external_body]
pub(crate) fn number_builder_new() -> (builder: NumberBuilder)
    ensures
        number_builder_items(builder) == Seq::<u64>::empty(),
{
    NumberBuilder { inner: arrow::array::UInt64Builder::new() }
}

/// `UInt64Builder::append_value`: the value is added after those held.
#[verifier::external_body]
pub(crate) fn number_builder_append(builder: &mut NumberBuilder, value: u64)
    ensures
        number_builder_items(*final(builder)) == number_builder_items(*old(builder)).push(value),
{
    builder.inner.append_value(value)
}

/// `UInt64Builder::finish`, on a builder that is given up: the column
/// holds the builder's values, in order.
#[verifier::external_body]
pub(crate) fn number_builder_finish(builder: NumberBuilder) -> (column: NumberColumn)
    ensures
        number_column_items(column) == number_builder_items(builder),
{
    let mut builder = builder;
    NumberColumn { inner: builder.inner.finish() }
}

/// `StringBuilder::new`: an empty builder, holding no bytes.
#[verifier::external_body]
pub(crate) fn text_builder_new() -> (builder: TextBuilder)
    ensures
        text_builder_items(builder) == Seq::<Seq<char>>::empty(),
        text_builder_bytes(builder) == 0,
{
    TextBuilder { inner: arrow::array::StringBuilder::new() }
}

/// `StringBuilder::append_value`: the text is added after those held, and
/// its bytes after the bytes held. The call panics where the bytes held
/// would exceed `MAX_TEXT_BYTES`, which `requires` leaves out.
#[verifier::external_body]
pub(crate) fn text_builder_append(builder: &mut TextBuilder, text: &str)
    requires
        text_builder_bytes(*old(builder)) + byte_len(text@) <= MAX_TEXT_BYTES,
    ensures
        text_builder_items(*final(builder)) == text_builder_items(*old(builder)).push(text@),
        text_builder_bytes(*final(builder)) == text_builder_bytes(*old(builder)) + byte_len(text@),
{
    builder.inner.append_value(text)
}

/// `StringBuilder::finish`, on a builder that is given up: the column
/// holds the builder's texts, in order.
#[verifier::external_body]
pub(crate) fn text_builder_finish(builder: TextBuilder) -> (column: TextColumn)
    ensures
        text_column_items(column) == text_builder_items(builder),
{
    let mut builder = builder;
    TextColumn { inner: builder.inner.finish() }
}

/// The three columns of a block batch, as contracts see them.
pub open spec fn three_columns(
    number: NumberColumn,
    hash: TextColumn,
    parent_hash: TextColumn,
) -> Seq<ColumnData> {
    seq![
        ColumnData::UInt64(number_column_items(number)),
        ColumnData::Utf8(text_column_items(hash)),
        ColumnData::Utf8(text_column_items(parent_hash)),
    ]
}

/// `RecordBatch::try_new` on a schema and three columns, the first of
/// numbers, the others of text. It succeeds exactly where the schema has
/// three fields of these types and the columns have one length (none of
/// the columns holds a null, so nullability decides nothing); the batch
/// then holds that schema and those columns. Where it fails, which check
/// failed and what its error says of it follow from the number and kinds
/// of the fields and from the lengths of the columns.
#[verifier::external_body]
pub(crate) fn try_new_batch(
    schema: arrow::datatypes::Schema,
    number: NumberColumn,
    hash: TextColumn,
    parent_hash: TextColumn,
) -> (r: Result<ColumnarBatch, arrow::error::ArrowError>)
    requires
        kinds_known(schema_fields(schema)),
    ensures
        r is Ok <==> columns_fit(schema_fields(schema), three_columns(number, hash, parent_hash)),
        r matches Ok(batch) ==> batch_fields(batch) == schema_fields(schema) && batch_columns(batch)
            == three_columns(number, hash, parent_hash),
        r matches Err(e) ==> arrow_error_display(e) == batch_refusal(schema_fields(schema), three_columns(number, hash, parent_hash)),
{
    let columns: Vec<arrow::array::ArrayRef> = vec![
        std::sync::Arc::new(number.inner),
        std::sync::Arc::new(hash.inner),
        std::sync::Arc::new(parent_hash.inner),
    ];
    match arrow::record_batch::RecordBatch::try_new(std::sync::Arc::new(schema), columns) {
        Ok(inner) => Ok(ColumnarBatch { inner }),
        Err(e) => Err(e),
    }
}

/// `to_string` on an `ArrowError`: the text that the error displays as.
#[verifier::external_body]
pub(crate) fn arrow_error_text(error: &arrow::error::ArrowError) -> (text: String)
    ensures
        text@ == arrow_error_display(*error),
{
    error.to_string()
}

/// The debug rendering of the `RecordBatch`. A batch is made of column
/// definitions and of columns without nulls only, so its rendering depends
/// on nothing but its fields and the values of its columns.
#[verifier::external_body]
pub(crate) fn batch_debug_text(batch: &ColumnarBatch) -> (text: String)
    ensures
        text@ == batch_debug(batch_fields(*batch), batch_columns(*batch)),
{
    format!("{:?}", batch.inner)
}

/// The names of the fields of the batch's schema, in order:
/// `RecordBatch::schema`, and `Field::name` of each field.
#[verifier::external_body]
pub(crate) fn batch_field_names(batch: &ColumnarBatch) -> (names: Vec<String>)
    ensures
        names@.len() == batch_fields(*batch).len(),
        forall|i: int|
            0 <= i < names@.len() ==> (#[trigger] names@[i])@ == batch_fields(*batch)[i].name,
{
    batch.inner.schema().fields().iter().map(|f| f.name().clone()).collect()
}

/// The numbers of the column at `column`, if there is such a column and
/// it holds numbers.
pub open spec fn numbers_at(columns: Seq<ColumnData>, column: int) -> Option<Seq<u64>> {
    if 0 <= column < columns.len() {
        match columns[column] {
            ColumnData::UInt64(values) => Some(values),
            ColumnData::Utf8(_) => None,
        }
    } else {
        None
    }
}

/// The texts of the column at `column`, if there is such a column and it
/// holds text.
pub open spec fn texts_at(columns: Seq<ColumnData>, column: int) -> Option<Seq<Seq<char>>> {
    if 0 <= column < columns.len() {
        match columns[column] {
            ColumnData::UInt64(_) => None,
            ColumnData::Utf8(values) => Some(values),
        }
    } else {
        None
    }
}

/// What a list of numbers that may be missing holds.
pub open spec fn numbers_seen(values: Option<Vec<u64>>) -> Option<Seq<u64>> {
    match values {
        Some(v) => Some(v@),
        None => None,
    }
}

/// What a list of texts that may be missing holds.
pub open spec fn texts_seen(values: Option<Vec<String>>) -> Option<Seq<Seq<char>>> {
    match values {
        Some(v) => Some(v@.map_values(|s: String| s@)),
        None => None,
    }
}

/// The values of one column of the batch, where there is such a column
/// and it holds numbers: `RecordBatch::columns`, the downcast to
/// `UInt64Array`, and `UInt64Array::values`.
#[verifier::external_body]
pub(crate) fn batch_numbers(batch: &ColumnarBatch, column: usize) -> (values: Option<Vec<u64>>)
    ensures
        numbers_seen(values) == numbers_at(batch_columns(*batch), column as int),
{
    let array = batch.inner.columns().get(column)?;
    let numbers = array.as_any().downcast_ref::<arrow::array::UInt64Array>()?;
    Some(numbers.values().to_vec())
}

/// The values of one column of the batch, where there is such a column
/// and it holds text: `RecordBatch::columns`, the downcast to
/// `StringArray`, and `StringArray::value` at each index.
#[verifier::external_body]
pub(crate) fn batch_texts(batch: &ColumnarBatch, column: usize) -> (values: Option<Vec<String>>)
    ensures
        texts_seen(values) == texts_at(batch_columns(*batch), column as int),
{
    let array = batch.inner.columns().get(column)?;
    let texts = array.as_any().downcast_ref::<arrow::array::StringArray>()?;
    let rows = arrow::array::Array::len(texts);
    Some((0..rows).map(|i| texts.value(i).to_string()).collect())
}

impl ColumnarBatch {
    /// The names of the columns, in schema order.
    pub fn column_names(&self) -> (names: Vec<String>)
        ensures
            names@.len() == batch_fields(*self).len(),
            forall|i: int|
                0 <= i < names@.len() ==> (#[trigger] names@[i])@ == batch_fields(*self)[i].name,
    {
        batch_field_names(self)
    }

    /// The values of the column at `column`, if there is one and it holds
    /// numbers.
    pub fn numbers(&self, column: usize) -> (values: Option<Vec<u64>>)
        ensures
            numbers_seen(values) == numbers_at(batch_columns(*self), column as int),
    {
        batch_numbers(self, column)
    }

    /// The values of the column at `column`, if there is one and it holds
    /// text.
    pub fn texts(&self, column: usize) -> (values: Option<Vec<String>>)
        ensures
            texts_seen(values) == texts_at(batch_columns(*self), column as int),
    {
        batch_texts(self, column)
    }
}

} // verus!
