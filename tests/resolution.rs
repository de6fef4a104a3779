use local_coin::amount::Amount;
use local_coin::bigquery_transactions::{
    addresses_and_values_as_vectors, find_matching_indices, get_address_position, make_address_vector,
    make_value_vector, parse_as_records, read_table, resolve, AddressType, TransactionTable,
};
use local_coin::errors::{AddressPositionError, RecordDecodeError, RecordField};

fn amount(x: f64) -> Amount {
    Amount::from_bits(x.to_bits())
}

fn parse_values(table: &TransactionTable) -> Vec<Option<Amount>> {
    table
        .outputs_values
        .iter()
        .map(|f| f.parse::<f64>().ok().map(amount))
        .collect()
}

fn load(text: &str) -> (TransactionTable, Vec<Option<Amount>>) {
    let table = read_table(text).expect("table decodes");
    let parsed = parse_values(&table);
    (table, parsed)
}

const ABA: &str = "inputs_addresses,outputs_addresses,outputs_value\n\
A,X,1.0\n\
B,Y,2.0\n\
A,Z,3.0\n";

#[test]
fn first_of_repeated_sender_is_returned() {
    let (table, parsed) = load(ABA);
    let r = get_address_position(&table, &parsed, "A".to_string(), None, AddressType::Input);
    assert_eq!(r.unwrap(), 0);
}

#[test]
fn address_with_value_picks_paired_row() {
    let (table, parsed) = load(ABA);
    let r = get_address_position(
        &table,
        &parsed,
        "A".to_string(),
        Some(amount(3.0)),
        AddressType::Input,
    );
    assert_eq!(r.unwrap(), 2);
}

#[test]
fn address_never_paired_with_value_fails_value_specific() {
    let (table, parsed) = load(ABA);
    let r = get_address_position(
        &table,
        &parsed,
        "A".to_string(),
        Some(amount(9.0)),
        AddressType::Input,
    );
    match r {
        Err(AddressPositionError::NoMatchingIndexForValue(a, v)) => {
            assert_eq!(a, "A");
            assert_eq!(v.to_bits(), 9.0f64.to_bits());
        }
        other => panic!("unexpected {:?}", other),
    }
}

#[test]
fn absent_address_fails_with_no_matching_address() {
    let (table, parsed) = load(ABA);
    let r = get_address_position(&table, &parsed, "Z".to_string(), None, AddressType::Input);
    match r {
        Err(AddressPositionError::NoMatchingAddress(a)) => assert_eq!(a, "Z"),
        other => panic!("unexpected {:?}", other),
    }
}

#[test]
fn absent_address_with_value_fails_value_specific() {
    let (table, parsed) = load(ABA);
    let r = get_address_position(
        &table,
        &parsed,
        "Q".to_string(),
        Some(amount(1.0)),
        AddressType::Input,
    );
    assert!(matches!(r, Err(AddressPositionError::NoMatchingIndexForValue(ref a, _)) if a == "Q"));
}

#[test]
fn receiver_column_is_searched_for_output() {
    let (table, parsed) = load(ABA);
    let r = get_address_position(&table, &parsed, "Z".to_string(), None, AddressType::Output);
    assert_eq!(r.unwrap(), 2);
    let r = get_address_position(&table, &parsed, "A".to_string(), None, AddressType::Output);
    assert!(matches!(r, Err(AddressPositionError::NoMatchingAddress(_))));
}

#[test]
fn non_numeric_value_names_its_row() {
    let text = "inputs_addresses,outputs_addresses,outputs_value\nA,X,1.0\nB,Y,lots\nC,Z,oops\n";
    let (table, parsed) = load(text);
    let r = make_value_vector(&table, &parsed);
    assert_eq!(
        r.unwrap_err(),
        RecordDecodeError::InvalidValue { row: 1, field: "lots".to_string() }
    );
    let r = parse_as_records(&table, &parsed);
    assert!(matches!(r, Err(RecordDecodeError::InvalidValue { row: 1, .. })));
    let r = get_address_position(&table, &parsed, "A".to_string(), Some(amount(1.0)), AddressType::Input);
    assert!(matches!(
        r,
        Err(AddressPositionError::Decode(RecordDecodeError::InvalidValue { row: 1, .. }))
    ));
    // without a value the value column is not read
    let r = get_address_position(&table, &parsed, "B".to_string(), None, AddressType::Input);
    assert_eq!(r.unwrap(), 1);
}

#[test]
fn loading_twice_gives_same_columns_in_order() {
    let first = read_table(ABA).unwrap();
    let second = read_table(ABA).unwrap();
    assert_eq!(first.inputs_addresses, second.inputs_addresses);
    assert_eq!(first.outputs_addresses, second.outputs_addresses);
    assert_eq!(first.outputs_values, second.outputs_values);
    assert_eq!(first.inputs_addresses, vec!["A", "B", "A"]);
    assert_eq!(first.outputs_addresses, vec!["X", "Y", "Z"]);
    assert_eq!(first.outputs_values, vec!["1.0", "2.0", "3.0"]);
}

#[test]
fn header_aliases_are_accepted_in_any_order() {
    let text = "satoshi,destination_address,extra,source_address\n5,R1,e,S1\n7,R2,f,S2\n";
    let (table, parsed) = load(text);
    assert_eq!(make_address_vector(&table, AddressType::Input), vec!["S1", "S2"]);
    assert_eq!(make_address_vector(&table, AddressType::Output), vec!["R1", "R2"]);
    let values = make_value_vector(&table, &parsed).unwrap();
    assert_eq!(values.iter().map(|a| a.to_bits()).collect::<Vec<_>>(), vec![
        5.0f64.to_bits(),
        7.0f64.to_bits()
    ]);
}

#[test]
fn delta_names_the_value_column() {
    let text = "delta,inputs_addresses,outputs_addresses\n2.5,S,R\n";
    let (table, parsed) = load(text);
    let r = get_address_position(&table, &parsed, "R".to_string(), Some(amount(2.5)), AddressType::Output);
    assert_eq!(r.unwrap(), 0);
}

#[test]
fn first_of_two_alias_columns_is_used() {
    let text = "source_address,inputs_addresses,outputs_addresses,outputs_value\nfirst,second,R,1\n";
    let (table, _) = load(text);
    assert_eq!(table.inputs_addresses, vec!["first"]);
}

#[test]
fn missing_column_is_reported_at_first_row() {
    let text = "inputs_addresses,outputs_value\nA,1.0\n";
    let r = read_table(text);
    assert_eq!(
        r.err().unwrap(),
        RecordDecodeError::MissingColumn { row: 0, column: RecordField::Receiver }
    );
    let text = "inputs_addresses,outputs_addresses\nA,B\n";
    assert_eq!(
        read_table(text).err().unwrap(),
        RecordDecodeError::MissingColumn { row: 0, column: RecordField::Value }
    );
    let text = "from,outputs_addresses,outputs_value\nA,B,1\n";
    assert_eq!(
        read_table(text).err().unwrap(),
        RecordDecodeError::MissingColumn { row: 0, column: RecordField::Sender }
    );
}

#[test]
fn row_with_wrong_field_count_is_reported() {
    let text = "inputs_addresses,outputs_addresses,outputs_value\nA,B,1\nC,D\nE,F,G,H\n";
    assert_eq!(
        read_table(text).err().unwrap(),
        RecordDecodeError::FieldCount { row: 1, expected: 3, found: 2 }
    );
}

#[test]
fn empty_text_and_header_only_give_empty_table() {
    let table = read_table("").unwrap();
    assert_eq!(table.len(), 0);
    let table = read_table("whatever,columns\n").unwrap();
    assert_eq!(table.len(), 0);
    let parsed = parse_values(&table);
    let r = get_address_position(&table, &parsed, "A".to_string(), None, AddressType::Input);
    assert!(matches!(r, Err(AddressPositionError::NoMatchingAddress(_))));
}

#[test]
fn quoted_fields_are_unquoted() {
    let text = "inputs_addresses,outputs_addresses,outputs_value\n\"A,1\",\"say \"\"hi\"\"\",4\n";
    let table = read_table(text).unwrap();
    assert_eq!(table.inputs_addresses, vec!["A,1"]);
    assert_eq!(table.outputs_addresses, vec!["say \"hi\""]);
}

#[test]
fn records_keep_row_order_and_fields() {
    let (table, parsed) = load(ABA);
    let records = parse_as_records(&table, &parsed).unwrap();
    assert_eq!(records.len(), 3);
    assert_eq!(records[2].from(), "A");
    assert_eq!(records[2].dest(), "Z");
    assert_eq!(records[1].value().to_bits(), 2.0f64.to_bits());
}

#[test]
fn all_three_columns_are_aligned() {
    let (table, parsed) = load(ABA);
    let (senders, receivers, values) = addresses_and_values_as_vectors(&table, &parsed).unwrap();
    assert_eq!(senders, vec!["A", "B", "A"]);
    assert_eq!(receivers, vec!["X", "Y", "Z"]);
    assert_eq!(values.len(), 3);
    assert_eq!(values[0].to_bits(), 1.0f64.to_bits());
}

#[test]
fn paired_scan_refuses_misaligned_columns() {
    let addresses = vec!["A".to_string(), "B".to_string()];
    let values = vec![amount(1.0)];
    let r = find_matching_indices(&addresses, &"A".to_string(), &values, &amount(1.0));
    assert!(matches!(
        r,
        Err(AddressPositionError::MisalignedColumns { first_len: 2, second_len: 1 })
    ));
    let r = resolve(&addresses, &values, "A".to_string(), Some(amount(1.0)));
    assert!(matches!(r, Err(AddressPositionError::MisalignedColumns { .. })));
}

#[test]
fn paired_scan_reports_no_matching_indices() {
    let addresses = vec!["A".to_string(), "B".to_string()];
    let values = vec![amount(1.0), amount(2.0)];
    let r = find_matching_indices(&addresses, &"B".to_string(), &values, &amount(1.0));
    match r {
        Err(AddressPositionError::NoMatchingIndices { address, value }) => {
            assert_eq!(address, "B");
            assert_eq!(value.to_bits(), 1.0f64.to_bits());
        }
        other => panic!("unexpected {:?}", other),
    }
    let r = find_matching_indices(&addresses, &"B".to_string(), &values, &amount(2.0));
    assert_eq!(r.unwrap(), 1);
}

#[test]
fn lowest_index_wins_on_a_large_column() {
    let mut addresses: Vec<String> = (0..100_000).map(|i| format!("addr{}", i % 997)).collect();
    addresses[5] = "target".to_string();
    addresses[60_000] = "target".to_string();
    addresses[99_999] = "target".to_string();
    let values: Vec<Amount> = (0..100_000).map(|i| amount(i as f64)).collect();
    for _ in 0..5 {
        let r = resolve(&addresses, &values, "target".to_string(), None);
        assert_eq!(r.unwrap(), 5);
        let r = resolve(&addresses, &values, "target".to_string(), Some(amount(60_000.0)));
        assert_eq!(r.unwrap(), 60_000);
    }
}

#[test]
fn same_address_and_value_twice_gives_lowest() {
    let addresses = vec!["B".to_string(), "A".to_string(), "A".to_string()];
    let values = vec![amount(4.0), amount(4.0), amount(4.0)];
    let r = resolve(&addresses, &values, "A".to_string(), Some(amount(4.0)));
    assert_eq!(r.unwrap(), 1);
}

#[test]
fn amounts_compare_as_floats() {
    assert!(amount(0.0).equals(&amount(-0.0)));
    assert!(amount(1.5).equals(&amount(1.5)));
    assert!(!amount(1.5).equals(&amount(1.25)));
    assert!(!amount(f64::NAN).equals(&amount(f64::NAN)));
    let addresses = vec!["A".to_string()];
    let values = vec![amount(-0.0)];
    assert_eq!(resolve(&addresses, &values, "A".to_string(), Some(amount(0.0))).unwrap(), 0);
}
