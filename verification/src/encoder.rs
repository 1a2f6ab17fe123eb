//! The columnar encoder: one block record becomes one batch of one row
//! under a fixed schema of three columns.

use vstd::prelude::*;
use arrow::datatypes::Field;
use crate::columns::{
    arrow_error_text, batch_columns, batch_fields, batch_refusal, byte_len, columns_fit,
    field_spec, kinds_known, new_field, new_schema,
    number_builder_append, number_builder_finish, number_builder_items, number_builder_new,
    number_column_items, text_builder_append, text_builder_bytes, text_builder_finish,
    text_builder_items, text_builder_new, text_column_items, three_columns, try_new_batch,
    ColumnData, ColumnDef, ColumnKind, ColumnarBatch, FieldSpec, NumberColumn, TextColumn,
    MAX_TEXT_BYTES,
};
use crate::error::LakeError;
use crate::rpc::BlockRecord;

verus! {

/// The fixed schema of a block batch: `number`, `hash`, `parent_hash`, in
/// this order, none of them nullable.
pub open spec fn block_fields() -> Seq<FieldSpec> {
    seq![
        FieldSpec { name: "number"@, kind: Some(ColumnKind::UInt64), nullable: false },
        FieldSpec { name: "hash"@, kind: Some(ColumnKind::Utf8), nullable: false },
        FieldSpec { name: "parent_hash"@, kind: Some(ColumnKind::Utf8), nullable: false },
    ]
}

/// The height that a record is encoded with: zero where it has none.
pub open spec fn row_number(record: BlockRecord) -> u64 {
    match record.number {
        Some(number) => number,
        None => 0,
    }
}

/// The hash that a record is encoded with: the empty text where it has
/// none.
pub open spec fn row_hash(record: BlockRecord) -> Seq<char> {
    match record.hash {
        Some(hash) => hash@,
        None => Seq::<char>::empty(),
    }
}

/// The columns that encode a record: one row, in schema order.
pub open spec fn row_columns(record: BlockRecord) -> Seq<ColumnData> {
    seq![
        ColumnData::UInt64(seq![row_number(record)]),
        ColumnData::Utf8(seq![row_hash(record)]),
        ColumnData::Utf8(seq![record.parent_hash@]),
    ]
}

/// True where each text of the record fits a text column by itself.
pub open spec fn encodable(record: BlockRecord) -> bool {
    &&& byte_len(row_hash(record)) <= MAX_TEXT_BYTES
    &&& byte_len(record.parent_hash@) <= MAX_TEXT_BYTES
}

/// True where the batch is the encoding of the record.
pub open spec fn holds_block(batch: ColumnarBatch, record: BlockRecord) -> bool {
    &&& batch_fields(batch) == block_fields()
    &&& batch_columns(batch) == row_columns(record)
}

/// The fields that a list of column definitions stands for.
pub open spec fn defs_view(defs: Seq<ColumnDef>) -> Seq<FieldSpec> {
    defs.map_values(|d: ColumnDef| d@)
}

/// The texts of a list of strings.
pub open spec fn texts_view(texts: Seq<String>) -> Seq<Seq<char>> {
    texts.map_values(|s: String| s@)
}

/// The number of bytes that all the texts occupy together.
pub open spec fn total_bytes(texts: Seq<String>) -> nat
    decreases texts.len(),
{
    if texts.len() == 0 {
        0
    } else {
        total_bytes(texts.drop_last()) + byte_len(texts.last()@)
    }
}

/// True where the texts together fit one text column.
pub open spec fn texts_fit_column(texts: Seq<String>) -> bool {
    total_bytes(texts) <= MAX_TEXT_BYTES
}

/// True where the error is `EncodingFailure` carrying exactly `text`.
pub open spec fn is_encoding_failure(e: LakeError, text: Seq<char>) -> bool {
    match e {
        LakeError::EncodingFailure(t) => t@ == text,
        _ => false,
    }
}

proof fn total_bytes_of_prefix(texts: Seq<String>, n: int)
    requires
        0 <= n <= texts.len(),
    ensures
        total_bytes(texts.take(n)) <= total_bytes(texts),
    decreases texts.len(),
{
    if n == texts.len() {
        assert(texts.take(n) =~= texts);
    } else {
        total_bytes_of_prefix(texts.drop_last(), n);
        assert(texts.drop_last().take(n) =~= texts.take(n));
    }
}

/// The number of bytes of a text, as `str::len` counts them.
fn text_len(text: &str) -> (n: usize)
    ensures
        n == byte_len(text@),
{
    text.as_bytes().len()
}

/// Tells whether the texts together fit one text column, which is what
/// `text_column` asks of its argument.
pub fn texts_fit(values: &Vec<String>) -> (r: bool)
    ensures
        r == texts_fit_column(values@),
{
    let mut held: u64 = 0;
    let mut i: usize = 0;
    while i < values.len()
        invariant
            i <= values.len(),
            held == total_bytes(values@.take(i as int)),
            held <= MAX_TEXT_BYTES,
        decreases values.len() - i,
    {
        let n: usize = text_len(values[i].as_str());
        proof {
            total_bytes_of_prefix(values@, i + 1);
            assert(values@.take(i + 1).drop_last() =~= values@.take(i as int));
        }
        if n > 2147483647 || held + (n as u64) > MAX_TEXT_BYTES {
            return false;
        }
        held = held + (n as u64);
        i += 1;
    }
    assert(values@.take(i as int) =~= values@);
    true
}

/// The schema of a block batch, as column definitions.
pub fn block_schema() -> (defs: Vec<ColumnDef>)
    ensures
        defs_view(defs@) == block_fields(),
{
    let mut defs: Vec<ColumnDef> = Vec::new();
    defs.push(ColumnDef { name: "number", kind: ColumnKind::UInt64, nullable: false });
    defs.push(ColumnDef { name: "hash", kind: ColumnKind::Utf8, nullable: false });
    defs.push(ColumnDef { name: "parent_hash", kind: ColumnKind::Utf8, nullable: false });
    assert(defs_view(defs@) =~= block_fields());
    defs
}

/// Fills a number column with the values, in order, and seals it.
pub fn number_column(values: &Vec<u64>) -> (column: NumberColumn)
    ensures
        number_column_items(column) == values@,
{
    let mut builder = number_builder_new();
    let mut i: usize = 0;
    while i < values.len()
        invariant
            i <= values.len(),
            number_builder_items(builder) == values@.take(i as int),
        decreases values.len() - i,
    {
        number_builder_append(&mut builder, values[i]);
        assert(values@.take(i as int).push(values@[i as int]) =~= values@.take(i + 1));
        i += 1;
    }
    assert(values@.take(i as int) =~= values@);
    number_builder_finish(builder)
}

/// Fills a text column with the texts, in order, and seals it. The texts
/// together must fit the column, which `texts_fit` tells.
pub fn text_column(values: &Vec<String>) -> (column: TextColumn)
    requires
        texts_fit_column(values@),
    ensures
        text_column_items(column) == texts_view(values@),
{
    let mut builder = text_builder_new();
    let mut i: usize = 0;
    while i < values.len()
        invariant
            i <= values.len(),
            texts_fit_column(values@),
            text_builder_items(builder) == texts_view(values@.take(i as int)),
            text_builder_bytes(builder) == total_bytes(values@.take(i as int)),
        decreases values.len() - i,
    {
        proof {
            total_bytes_of_prefix(values@, i + 1);
            assert(values@.take(i + 1).drop_last() =~= values@.take(i as int));
        }
        text_builder_append(&mut builder, values[i].as_str());
        assert(texts_view(values@.take(i as int)).push(values@[i as int]@) =~= texts_view(
            values@.take(i + 1),
        ));
        i += 1;
    }
    assert(values@.take(i as int) =~= values@);
    text_builder_finish(builder)
}

/// Assembles a batch from a schema and three sealed columns, the first of
/// numbers, the others of text.
///
/// The structural check decides: the schema must define three columns of
/// these types, and the columns must have one length. Where it fails the
/// result is `EncodingFailure`, carrying the description of the mismatch
/// as arrow words it.
pub fn assemble(
    defs: &Vec<ColumnDef>,
    number: NumberColumn,
    hash: TextColumn,
    parent_hash: TextColumn,
) -> (r: Result<ColumnarBatch, LakeError>)
    ensures
        r is Ok <==> columns_fit(defs_view(defs@), three_columns(number, hash, parent_hash)),
        r matches Ok(batch) ==> batch_fields(batch) == defs_view(defs@) && batch_columns(batch)
            == three_columns(number, hash, parent_hash),
        r matches Err(e) ==> is_encoding_failure(
            e,
            batch_refusal(defs_view(defs@), three_columns(number, hash, parent_hash)),
        ),
{
    let mut fields: Vec<Field> = Vec::new();
    let mut i: usize = 0;
    while i < defs.len()
        invariant
            i <= defs.len(),
            fields@.map_values(|f: Field| field_spec(f)) == defs_view(defs@.take(i as int)),
        decreases defs.len() - i,
    {
        let def = &defs[i];
        let field = new_field(def.name, def.kind, def.nullable);
        let ghost before = fields@;
        fields.push(field);
        assert(fields@.map_values(|f: Field| field_spec(f)) =~= before.map_values(
            |f: Field| field_spec(f),
        ).push(field_spec(field)));
        assert(defs_view(defs@.take(i as int)).push(defs@[i as int]@) =~= defs_view(
            defs@.take(i + 1),
        ));
        i += 1;
    }
    assert(defs@.take(i as int) =~= defs@);
    let schema = new_schema(fields);
    assert(kinds_known(defs_view(defs@)));
    match try_new_batch(schema, number, hash, parent_hash) {
        Ok(batch) => Ok(batch),
        Err(e) => Err(LakeError::EncodingFailure(arrow_error_text(&e))),
    }
}

/// Tells whether each text of the record fits a text column by itself,
/// which is what `encode` asks of its argument.
pub fn can_encode(record: &BlockRecord) -> (r: bool)
    ensures
        r == encodable(*record),
{
    let hash_fits = match &record.hash {
        Some(hash) => text_len(hash.as_str()) <= 2147483647,
        None => true,
    };
    hash_fits && text_len(record.parent_hash.as_str()) <= 2147483647
}

/// Encodes one block record as a batch of one row under the block schema.
///
/// An absent height is encoded as zero and an absent hash as the empty
/// text. The encoding always succeeds: each builder receives exactly one
/// value, so the structural check of the assembly cannot fail.
pub fn encode(record: &BlockRecord) -> (r: Result<ColumnarBatch, LakeError>)
    requires
        encodable(*record),
    ensures
        r is Ok,
        holds_block(r->Ok_0, *record),
{
    let mut number_builder = number_builder_new();
    let mut hash_builder = text_builder_new();
    let mut parent_builder = text_builder_new();

    let number: u64 = match record.number {
        Some(number) => number,
        None => 0,
    };
    number_builder_append(&mut number_builder, number);
    match &record.hash {
        Some(hash) => text_builder_append(&mut hash_builder, hash.as_str()),
        None => {
            proof {
                reveal_strlit("");
            }
            assert(""@ =~= Seq::<char>::empty());
            text_builder_append(&mut hash_builder, "")
        },
    }
    text_builder_append(&mut parent_builder, record.parent_hash.as_str());

    let number_column = number_builder_finish(number_builder);
    let hash_column = text_builder_finish(hash_builder);
    let parent_column = text_builder_finish(parent_builder);

    let defs = block_schema();
    proof {
        let columns = three_columns(number_column, hash_column, parent_column);
        assert(number_column_items(number_column) =~= seq![row_number(*record)]);
        assert(text_column_items(hash_column) =~= seq![row_hash(*record)]);
        assert(text_column_items(parent_column) =~= seq![record.parent_hash@]);
        assert(columns =~= row_columns(*record));
    }
    assemble(&defs, number_column, hash_column, parent_column)
}

/// A block batch has exactly one row and exactly the three columns
/// `number`, `hash` and `parent_hash`, in this order, whatever the record
/// holds.
pub proof fn block_batch_shape(batch: ColumnarBatch, record: BlockRecord)
    requires
        holds_block(batch, record),
    ensures
        batch_fields(batch).len() == 3,
        batch_fields(batch)[0].name == "number"@,
        batch_fields(batch)[1].name == "hash"@,
        batch_fields(batch)[2].name == "parent_hash"@,
        batch_columns(batch).len() == 3,
        forall|i: int| 0 <= i < 3 ==> (#[trigger] batch_columns(batch)[i]).len() == 1,
        columns_fit(batch_fields(batch), batch_columns(batch)),
{
}

/// A record that lacks a field is encoded with that field's default: the
/// height zero, the empty hash.
pub proof fn absent_fields_take_defaults(batch: ColumnarBatch, record: BlockRecord)
    requires
        holds_block(batch, record),
    ensures
        record.number is None ==> batch_columns(batch)[0] == ColumnData::UInt64(seq![0u64]),
        record.hash is None ==> batch_columns(batch)[1] == ColumnData::Utf8(
            seq![Seq::<char>::empty()],
        ),
        record.number matches Some(n) ==> batch_columns(batch)[0] == ColumnData::UInt64(seq![n]),
        record.hash matches Some(h) ==> batch_columns(batch)[1] == ColumnData::Utf8(seq![h@]),
        batch_columns(batch)[2] == ColumnData::Utf8(seq![record.parent_hash@]),
{
}

} // verus!
