use eth_lake::columns::{ColumnDef, ColumnKind};
use eth_lake::encoder::{
    assemble, block_schema, can_encode, encode, number_column, text_column, texts_fit,
};
use eth_lake::error::LakeError;
use eth_lake::pipeline::fetch_block_arrow_reply;
use eth_lake::rpc::BlockRecord;

fn sample_block() -> BlockRecord {
    BlockRecord {
        number: Some(5),
        hash: Some("0xabc".to_string()),
        parent_hash: "0xdef".to_string(),
    }
}

fn texts(values: &[&str]) -> Vec<String> {
    values.iter().map(|v| v.to_string()).collect()
}

#[test]
fn block_schema_is_number_hash_parent_hash() {
    let defs = block_schema();
    assert_eq!(defs.len(), 3);
    assert_eq!(defs[0].name, "number");
    assert_eq!(defs[0].kind, ColumnKind::UInt64);
    assert_eq!(defs[1].name, "hash");
    assert_eq!(defs[1].kind, ColumnKind::Utf8);
    assert_eq!(defs[2].name, "parent_hash");
    assert_eq!(defs[2].kind, ColumnKind::Utf8);
    assert!(defs.iter().all(|d| !d.nullable));
}

#[test]
fn encoded_block_has_one_row_and_three_named_columns() {
    let batch = encode(&sample_block()).unwrap();
    assert_eq!(
        batch.column_names(),
        texts(&["number", "hash", "parent_hash"])
    );
    assert_eq!(batch.numbers(0).unwrap().len(), 1);
    assert_eq!(batch.texts(1).unwrap().len(), 1);
    assert_eq!(batch.texts(2).unwrap().len(), 1);
}

#[test]
fn block_scenario_row_is_5_0xabc_0xdef() {
    let encoded = fetch_block_arrow_reply(Ok(Some(sample_block()))).unwrap();
    assert_eq!(encoded.batch.numbers(0), Some(vec![5]));
    assert_eq!(encoded.batch.texts(1), Some(texts(&["0xabc"])));
    assert_eq!(encoded.batch.texts(2), Some(texts(&["0xdef"])));
}

#[test]
fn absent_height_and_hash_take_their_defaults() {
    let record = BlockRecord {
        number: None,
        hash: None,
        parent_hash: "0xdef".to_string(),
    };
    let batch = encode(&record).unwrap();
    assert_eq!(batch.numbers(0), Some(vec![0]));
    assert_eq!(batch.texts(1), Some(texts(&[""])));
    assert_eq!(batch.texts(2), Some(texts(&["0xdef"])));
    assert_eq!(
        batch.column_names(),
        texts(&["number", "hash", "parent_hash"])
    );
}

#[test]
fn absent_hash_alone_takes_its_default() {
    let record = BlockRecord {
        number: Some(u64::MAX),
        hash: None,
        parent_hash: String::new(),
    };
    let batch = encode(&record).unwrap();
    assert_eq!(batch.numbers(0), Some(vec![u64::MAX]));
    assert_eq!(batch.texts(1), Some(texts(&[""])));
    assert_eq!(batch.texts(2), Some(texts(&[""])));
}

#[test]
fn columns_are_read_by_their_own_type_only() {
    let batch = encode(&sample_block()).unwrap();
    assert_eq!(batch.texts(0), None);
    assert_eq!(batch.numbers(1), None);
    assert_eq!(batch.numbers(2), None);
    assert_eq!(batch.numbers(3), None);
    assert_eq!(batch.texts(3), None);
}

#[test]
fn rendering_names_the_columns_and_the_values() {
    let encoded = fetch_block_arrow_reply(Ok(Some(sample_block()))).unwrap();
    assert!(encoded.text.starts_with("RecordBatch"));
    assert!(encoded.text.contains("number"));
    assert!(encoded.text.contains("parent_hash"));
    assert!(encoded.text.contains("UInt64"));
    assert!(encoded.text.contains("0xabc"));
    assert!(encoded.text.contains("0xdef"));
}

#[test]
fn rendering_depends_on_the_record_alone() {
    let first = fetch_block_arrow_reply(Ok(Some(sample_block()))).unwrap();
    let second = fetch_block_arrow_reply(Ok(Some(sample_block()))).unwrap();
    assert_eq!(first.text, second.text);
    let mut other = sample_block();
    other.parent_hash = "0x123".to_string();
    let third = fetch_block_arrow_reply(Ok(Some(other))).unwrap();
    assert_ne!(first.text, third.text);
}

#[test]
fn non_ascii_text_is_kept() {
    let record = BlockRecord {
        number: Some(1),
        hash: Some("h\u{e9}\u{1f600}".to_string()),
        parent_hash: "p".to_string(),
    };
    assert!(can_encode(&record));
    let batch = encode(&record).unwrap();
    assert_eq!(batch.texts(1), Some(texts(&["h\u{e9}\u{1f600}"])));
}

#[test]
fn ordinary_records_can_be_encoded() {
    assert!(can_encode(&sample_block()));
    assert!(can_encode(&BlockRecord {
        number: None,
        hash: None,
        parent_hash: String::new(),
    }));
}

#[test]
fn columns_hold_the_values_in_order() {
    let number = number_column(&vec![7, 8, 9]);
    let hash = text_column(&texts(&["a", "b", "c"]));
    let parent = text_column(&texts(&["x", "y", "z"]));
    let batch = assemble(&block_schema(), number, hash, parent).unwrap();
    assert_eq!(batch.numbers(0), Some(vec![7, 8, 9]));
    assert_eq!(batch.texts(1), Some(texts(&["a", "b", "c"])));
    assert_eq!(batch.texts(2), Some(texts(&["x", "y", "z"])));
}

#[test]
fn empty_columns_assemble_into_an_empty_batch() {
    let batch = assemble(
        &block_schema(),
        number_column(&Vec::new()),
        text_column(&Vec::new()),
        text_column(&Vec::new()),
    )
    .unwrap();
    assert_eq!(batch.numbers(0), Some(Vec::new()));
    assert_eq!(batch.texts(1), Some(Vec::new()));
    assert_eq!(batch.column_names().len(), 3);
}

#[test]
fn columns_of_different_lengths_are_an_encoding_failure() {
    let result = assemble(
        &block_schema(),
        number_column(&vec![1, 2]),
        text_column(&texts(&["a"])),
        text_column(&texts(&["x", "y"])),
    );
    match result {
        Err(LakeError::EncodingFailure(text)) => {
            assert_eq!(
                text,
                "Invalid argument error: all columns in a record batch must have the same length"
            );
        }
        _ => panic!("the columns disagree in length"),
    }
}

#[test]
fn the_same_mismatch_is_described_the_same_way() {
    let first = assemble(
        &block_schema(),
        number_column(&vec![1, 2]),
        text_column(&texts(&["a"])),
        text_column(&texts(&["x", "y"])),
    )
    .unwrap_err();
    let second = assemble(
        &block_schema(),
        number_column(&vec![1, 2]),
        text_column(&texts(&["a"])),
        text_column(&texts(&["x", "y"])),
    )
    .unwrap_err();
    assert_eq!(first, second);
    assert_eq!(first.message(), second.message());
}

#[test]
fn ordinary_texts_fit_a_column() {
    assert!(texts_fit(&Vec::new()));
    assert!(texts_fit(&texts(&["", "0xabc", "h\u{e9}\u{1f600}"])));
}

#[test]
fn a_schema_with_too_few_columns_is_an_encoding_failure() {
    let mut defs = block_schema();
    defs.pop();
    let result = assemble(
        &defs,
        number_column(&vec![1]),
        text_column(&texts(&["a"])),
        text_column(&texts(&["x"])),
    );
    assert_eq!(
        result.unwrap_err(),
        LakeError::EncodingFailure(
            "Invalid argument error: number of columns(3) must match number of fields(2) in schema"
                .to_string()
        )
    );
}

#[test]
fn a_schema_of_other_types_is_an_encoding_failure() {
    let defs = vec![
        ColumnDef { name: "number", kind: ColumnKind::Utf8, nullable: false },
        ColumnDef { name: "hash", kind: ColumnKind::Utf8, nullable: false },
        ColumnDef { name: "parent_hash", kind: ColumnKind::Utf8, nullable: false },
    ];
    let result = assemble(
        &defs,
        number_column(&vec![1]),
        text_column(&texts(&["a"])),
        text_column(&texts(&["x"])),
    );
    assert!(matches!(result, Err(LakeError::EncodingFailure(_))));
}

#[test]
fn a_schema_of_other_names_and_nullability_is_kept() {
    let defs = vec![
        ColumnDef { name: "height", kind: ColumnKind::UInt64, nullable: true },
        ColumnDef { name: "id", kind: ColumnKind::Utf8, nullable: false },
        ColumnDef { name: "parent", kind: ColumnKind::Utf8, nullable: true },
    ];
    let batch = assemble(
        &defs,
        number_column(&vec![1]),
        text_column(&texts(&["a"])),
        text_column(&texts(&["x"])),
    )
    .unwrap();
    assert_eq!(batch.column_names(), texts(&["height", "id", "parent"]));
}
