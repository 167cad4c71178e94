use data_wizard::pipeline::BoundResultSet;
use data_wizard::rows::Row;
use data_wizard::scan::{scan_step, ColumnData, ScanCursor, CHUNK_SIZE};
use data_wizard::{ColumnSchema, DenoExecutor, DynamicValue, FloatValue};

fn col(name: &str, data_type: &str) -> ColumnSchema {
    ColumnSchema { name: name.to_string(), data_type: data_type.to_string() }
}

fn float_value(x: f64) -> DynamicValue {
    DynamicValue::Float(FloatValue { bits: x.to_bits(), text: x.to_string(), trunc: x as i64 })
}

fn row(cells: Vec<(&str, DynamicValue)>) -> Row {
    Row { cells: cells.into_iter().map(|(k, v)| (k.to_string(), v)).collect() }
}

#[test]
fn chunking_completeness_five_thousand_rows() {
    let mut rows: Vec<Row> = Vec::new();
    let mut i: i64 = 0;
    while i < 5000 {
        rows.push(row(vec![("n", DynamicValue::Integer(i))]));
        i += 1;
    }
    let set = BoundResultSet {
        cache_key: "q".to_string(),
        schema: vec![col("n", "bigint")],
        rows,
    };
    let mut cursor = ScanCursor::new();
    let mut sizes: Vec<usize> = Vec::new();
    loop {
        let chunk = scan_step(&mut cursor, &set);
        sizes.push(chunk.len);
        if chunk.len == 0 {
            break;
        }
    }
    assert_eq!(sizes, vec![2048, 2048, 904, 0]);
    assert_eq!(cursor.position(), 5000);
    assert_eq!(CHUNK_SIZE, 2048);
}

#[test]
fn chunk_rows_are_exact_and_in_order() {
    let mut rows: Vec<Row> = Vec::new();
    let mut i: i64 = 0;
    while i < 3000 {
        rows.push(row(vec![("n", DynamicValue::Integer(i))]));
        i += 1;
    }
    let set = BoundResultSet {
        cache_key: "q".to_string(),
        schema: vec![col("n", "bigint")],
        rows,
    };
    let mut cursor = ScanCursor::new();
    let first = scan_step(&mut cursor, &set);
    let second = scan_step(&mut cursor, &set);
    match (&first.columns[0], &second.columns[0]) {
        (ColumnData::Bigint(a), ColumnData::Bigint(b)) => {
            assert_eq!(a.len(), 2048);
            assert_eq!(b.len(), 952);
            assert_eq!(a[0], 0);
            assert_eq!(a[2047], 2047);
            assert_eq!(b[0], 2048);
            assert_eq!(b[951], 2999);
        },
        _ => panic!("expected bigint columns"),
    }
}

#[test]
fn coercion_defaults_for_missing_and_mismatched() {
    // One row missing every declared column, one row with wrong variants.
    let rows = vec![
        row(vec![]),
        row(vec![
            ("t", DynamicValue::Integer(12)),
            ("d", DynamicValue::String("not numeric".to_string())),
            ("b", DynamicValue::Boolean(true)),
        ]),
    ];
    let set = BoundResultSet {
        cache_key: "q".to_string(),
        schema: vec![col("t", "varchar"), col("d", "double"), col("b", "bigint")],
        rows,
    };
    let mut cursor = ScanCursor::new();
    let chunk = scan_step(&mut cursor, &set);
    assert_eq!(chunk.len, 2);
    match &chunk.columns[0] {
        ColumnData::Text(cells) => {
            assert_eq!(cells[0], "");
            // Varchar is strict: a wrong variant gives the type's default.
            assert_eq!(cells[1], "");
        },
        _ => panic!("expected text column"),
    }
    match &chunk.columns[1] {
        ColumnData::Double(cells) => {
            assert_eq!(f64::from_bits(cells[0]), 0.0);
            assert_eq!(f64::from_bits(cells[1]), 0.0);
        },
        _ => panic!("expected double column"),
    }
    match &chunk.columns[2] {
        ColumnData::Bigint(cells) => {
            assert_eq!(cells[0], 0);
            assert_eq!(cells[1], 0);
        },
        _ => panic!("expected bigint column"),
    }
}

#[test]
fn coercion_converts_across_numeric_kinds() {
    let rows = vec![row(vec![
        ("d", DynamicValue::Integer(3)),
        ("i", float_value(2.9)),
        ("t", float_value(1.5)),
        ("w", float_value(1.5)),
    ])];
    let set = BoundResultSet {
        cache_key: "q".to_string(),
        schema: vec![
            col("d", "double"),
            col("i", "bigint"),
            col("t", "date"),
            col("w", "varchar"),
        ],
        rows,
    };
    let mut cursor = ScanCursor::new();
    let chunk = scan_step(&mut cursor, &set);
    match &chunk.columns[0] {
        ColumnData::Double(cells) => assert_eq!(f64::from_bits(cells[0]), 3.0),
        _ => panic!("expected double column"),
    }
    match &chunk.columns[1] {
        ColumnData::Bigint(cells) => assert_eq!(cells[0], 2),
        _ => panic!("expected bigint column"),
    }
    // A date column stringifies per variant; a varchar column is strict.
    match &chunk.columns[2] {
        ColumnData::Text(cells) => assert_eq!(cells[0], "1.5"),
        _ => panic!("expected text column"),
    }
    match &chunk.columns[3] {
        ColumnData::Text(cells) => assert_eq!(cells[0], ""),
        _ => panic!("expected text column"),
    }
}

#[test]
fn varchar_passes_strings_through() {
    let rows = vec![row(vec![("s", DynamicValue::String("kept".to_string()))])];
    let set = BoundResultSet {
        cache_key: "q".to_string(),
        schema: vec![col("s", "varchar")],
        rows,
    };
    let mut cursor = ScanCursor::new();
    let chunk = scan_step(&mut cursor, &set);
    match &chunk.columns[0] {
        ColumnData::Text(cells) => assert_eq!(cells[0], "kept"),
        _ => panic!("expected text column"),
    }
}

#[test]
fn date_and_unknown_types_degrade_to_text() {
    let rows = vec![row(vec![
        ("when", DynamicValue::String("2024-01-02".to_string())),
        ("odd", DynamicValue::Integer(9)),
    ])];
    let set = BoundResultSet {
        cache_key: "q".to_string(),
        schema: vec![col("when", "date"), col("odd", "geometry")],
        rows,
    };
    let mut cursor = ScanCursor::new();
    let chunk = scan_step(&mut cursor, &set);
    match &chunk.columns[0] {
        ColumnData::Text(cells) => assert_eq!(cells[0], "2024-01-02"),
        _ => panic!("expected text column"),
    }
    match &chunk.columns[1] {
        ColumnData::Text(cells) => assert_eq!(cells[0], "9"),
        _ => panic!("expected text column"),
    }
}

#[test]
fn empty_result_set_signals_exhaustion_immediately() {
    let set = BoundResultSet {
        cache_key: "q".to_string(),
        schema: vec![col("a", "varchar")],
        rows: vec![],
    };
    let mut cursor = ScanCursor::new();
    let chunk = scan_step(&mut cursor, &set);
    assert_eq!(chunk.len, 0);
    assert_eq!(chunk.columns.len(), 1);
    match &chunk.columns[0] {
        ColumnData::Text(cells) => assert!(cells.is_empty()),
        _ => panic!("expected text column"),
    }
}

#[test]
fn end_to_end_earthquake_scenario() {
    // Generation declares the earthquake schema; the executor returns rows
    // with those seven keys; the scan emits columns in declared order with
    // the numeric ones as doubles and the rest as text.
    let reply = "```json\n{\"javascript_code\": \"async function fetch_data() { /* fetch a real earthquake feed */ }\", \"schema\": [{\"name\": \"magnitude\", \"data_type\": \"double\"}, {\"name\": \"place\", \"data_type\": \"varchar\"}, {\"name\": \"time\", \"data_type\": \"varchar\"}, {\"name\": \"depth\", \"data_type\": \"double\"}, {\"name\": \"latitude\", \"data_type\": \"double\"}, {\"name\": \"longitude\", \"data_type\": \"double\"}, {\"name\": \"type\", \"data_type\": \"varchar\"}]}\n```";
    let mut cache = data_wizard::ResponseCache::new();
    let client = data_wizard::LLMClient::new(Some("key".to_string()), None).unwrap();
    let step = data_wizard::pipeline::bind_prepare("recent earthquakes", &cache, &client, "now");
    assert!(matches!(step, data_wizard::pipeline::BindStep::NeedGeneration { .. }));
    let resp = data_wizard::pipeline::bind_after_generation(
        "recent earthquakes",
        &mut cache,
        Ok(reply.to_string()),
    )
    .unwrap();
    let names: Vec<&str> = resp.schema.iter().map(|c| c.name.as_str()).collect();
    assert_eq!(
        names,
        vec!["magnitude", "place", "time", "depth", "latitude", "longitude", "type"]
    );

    let executor = DenoExecutor::new();
    let stdout = "[{\"magnitude\": 6.5, \"place\": \"somewhere\", \"time\": \"2024-01-02T03:04:05Z\", \"depth\": 10.0, \"latitude\": 35.2, \"longitude\": -118.1, \"type\": \"earthquake\"}]";
    let rows = executor.interpret_output(true, stdout, "").unwrap();
    assert_eq!(rows.len(), 1);

    let set = BoundResultSet {
        cache_key: "recent earthquakes".to_string(),
        schema: resp.schema,
        rows,
    };
    let mut cursor = ScanCursor::new();
    let chunk = scan_step(&mut cursor, &set);
    assert_eq!(chunk.len, 1);
    assert_eq!(chunk.columns.len(), 7);
    match &chunk.columns[0] {
        ColumnData::Double(cells) => assert_eq!(f64::from_bits(cells[0]), 6.5),
        _ => panic!("magnitude must be numeric"),
    }
    match &chunk.columns[1] {
        ColumnData::Text(cells) => assert_eq!(cells[0], "somewhere"),
        _ => panic!("place must be text"),
    }
    match &chunk.columns[3] {
        ColumnData::Double(cells) => assert_eq!(f64::from_bits(cells[0]), 10.0),
        _ => panic!("depth must be numeric"),
    }
    match &chunk.columns[4] {
        ColumnData::Double(cells) => assert_eq!(f64::from_bits(cells[0]), 35.2),
        _ => panic!("latitude must be numeric"),
    }
    match &chunk.columns[5] {
        ColumnData::Double(cells) => assert_eq!(f64::from_bits(cells[0]), -118.1),
        _ => panic!("longitude must be numeric"),
    }
    match &chunk.columns[6] {
        ColumnData::Text(cells) => assert_eq!(cells[0], "earthquake"),
        _ => panic!("type must be text"),
    }
    let finish = scan_step(&mut cursor, &set);
    assert_eq!(finish.len, 0);
}
