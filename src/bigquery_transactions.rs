use vstd::prelude::*;
use vstd::string::*;
use rayon::iter::{IndexedParallelIterator, IntoParallelRefIterator, ParallelIterator};
use crate::amount::{Amount, same_amount};
use crate::errors::{AddressPositionError, RecordDecodeError, RecordField};

verus! {

/// Which address column a lookup targets: the sender or the receiver.
#[derive(Debug, Clone, Copy, PartialEq, Eq, Structural)]
pub enum AddressType {
    Input,
    Output,
}

/// One decoded row of a transaction table.
#[derive(Debug, Clone)]
pub struct BigQueryCSVRecord {
    pub inputs_addresses: String,
    pub outputs_addresses: String,
    pub outputs_value: Amount,
}

impl BigQueryCSVRecord {
    /// The receiving address.
    pub fn dest(&self) -> (r: String)
        ensures
            r@ == self.outputs_addresses@,
    {
        self.outputs_addresses.clone()
    }

    /// The paying address.
    pub fn from(&self) -> (r: String)
        ensures
            r@ == self.inputs_addresses@,
    {
        self.inputs_addresses.clone()
    }

    /// The amount of the transfer.
    pub fn value(&self) -> (r: Amount)
        ensures
            r == self.outputs_value,
    {
        self.outputs_value
    }
}

/// The rows of a table as three index-aligned columns of field text: the
/// value field is kept as written, to be read as a number by the caller.
pub struct TransactionTable {
    pub inputs_addresses: Vec<String>,
    pub outputs_addresses: Vec<String>,
    pub outputs_values: Vec<String>,
}

pub struct TableView {
    pub senders: Seq<Seq<char>>,
    pub receivers: Seq<Seq<char>>,
    pub value_fields: Seq<Seq<char>>,
}

impl View for TransactionTable {
    type V = TableView;

    open spec fn view(&self) -> TableView {
        TableView {
            senders: self.inputs_addresses.deep_view(),
            receivers: self.outputs_addresses.deep_view(),
            value_fields: self.outputs_values.deep_view(),
        }
    }
}

impl TransactionTable {
    /// The three columns have one entry per row.
    pub open spec fn wf(&self) -> bool {
        &&& self.outputs_addresses.len() == self.inputs_addresses.len()
        &&& self.outputs_values.len() == self.inputs_addresses.len()
    }

    pub open spec fn rows(&self) -> nat {
        self.inputs_addresses.len() as nat
    }

    pub fn len(&self) -> (r: usize)
        requires
            self.wf(),
        ensures
            r == self.rows(),
    {
        self.inputs_addresses.len()
    }

    pub fn new() -> (r: TransactionTable)
        ensures
            r.wf(),
            r.rows() == 0,
            r@ == empty_table(),
    {
        let r = TransactionTable {
            inputs_addresses: Vec::new(),
            outputs_addresses: Vec::new(),
            outputs_values: Vec::new(),
        };
        assert(r@.senders =~= empty_table().senders);
        assert(r@.receivers =~= empty_table().receivers);
        assert(r@.value_fields =~= empty_table().value_fields);
        r
    }
}

pub open spec fn empty_table() -> TableView {
    TableView { senders: seq![], receivers: seq![], value_fields: seq![] }
}

/// What csv reads from the text: every record, the header line included, as
/// its fields in order; `None` where the reader reports an error.
pub uninterp spec fn csv_rows_of(text: Seq<char>) -> Option<Seq<Seq<Seq<char>>>>;

/// Relies on `csv::ReaderBuilder` (no header handling, records of any length)
/// and `csv::Reader::records`: the records of the text in order, each as its
/// fields, or an error.
#[verifier::external_body]
fn csv_records(text: &str) -> (r: Option<Vec<Vec<String>>>)
    ensures
        match r {
            Some(rows) => csv_rows_of(text@) == Some(rows.deep_view()),
            None => csv_rows_of(text@) is None,
        },
{
    let mut reader = csv::ReaderBuilder::new().has_headers(false).flexible(true).from_reader(
        text.as_bytes(),
    );
    reader.records().map(|rec| rec.map(|fields| fields.iter().map(String::from).collect())).collect::<
        Result<Vec<Vec<String>>, csv::Error>,
    >().ok()
}

/// The header names under which each field is accepted.
pub open spec fn accepts_header(field: RecordField, header: Seq<char>) -> bool {
    match field {
        RecordField::Sender => header == "inputs_addresses"@ || header == "source_address"@,
        RecordField::Receiver => header == "outputs_addresses"@ || header == "destination_address"@,
        RecordField::Value => header == "outputs_value"@ || header == "delta"@ || header
            == "satoshi"@,
    }
}

/// The first position at or after `start` whose header names `field`, or
/// `headers.len()` where none does.
pub open spec fn column_from(headers: Seq<Seq<char>>, field: RecordField, start: int) -> int
    decreases headers.len() - start,
{
    if start < 0 || start >= headers.len() {
        headers.len() as int
    } else if accepts_header(field, headers[start]) {
        start
    } else {
        column_from(headers, field, start + 1)
    }
}

/// The column that holds `field`: the first one whose header names it.
pub open spec fn column_of(headers: Seq<Seq<char>>, field: RecordField) -> int {
    column_from(headers, field, 0)
}

pub open spec fn has_column(headers: Seq<Seq<char>>, field: RecordField) -> bool {
    column_of(headers, field) < headers.len()
}

/// The first row at or after `start` that does not have `width` fields, or
/// `data.len()` where every one has.
pub open spec fn bad_row_from(data: Seq<Seq<Seq<char>>>, width: int, start: int) -> int
    decreases data.len() - start,
{
    if start < 0 || start >= data.len() {
        data.len() as int
    } else if data[start].len() != width {
        start
    } else {
        bad_row_from(data, width, start + 1)
    }
}

/// Column `col` of the rows, in row order.
pub open spec fn project(data: Seq<Seq<Seq<char>>>, col: int) -> Seq<Seq<char>> {
    Seq::new(data.len(), |i: int| data[i][col])
}

/// Decoding of csv records: the first is the header line, the others are rows.
/// With no rows the table is empty; otherwise every field needs a column and
/// every row as many fields as the header line.
pub open spec fn decode_rows(rows: Seq<Seq<Seq<char>>>) -> Result<TableView, RecordDecodeError> {
    if rows.len() <= 1 {
        Ok(empty_table())
    } else {
        let headers = rows[0];
        let data = rows.drop_first();
        if !has_column(headers, RecordField::Sender) {
            Err(RecordDecodeError::MissingColumn { row: 0, column: RecordField::Sender })
        } else if !has_column(headers, RecordField::Receiver) {
            Err(RecordDecodeError::MissingColumn { row: 0, column: RecordField::Receiver })
        } else if !has_column(headers, RecordField::Value) {
            Err(RecordDecodeError::MissingColumn { row: 0, column: RecordField::Value })
        } else if bad_row_from(data, headers.len() as int, 0) < data.len() {
            let b = bad_row_from(data, headers.len() as int, 0);
            Err(
                RecordDecodeError::FieldCount {
                    row: b as usize,
                    expected: headers.len() as usize,
                    found: data[b].len() as usize,
                },
            )
        } else {
            Ok(
                TableView {
                    senders: project(data, column_of(headers, RecordField::Sender)),
                    receivers: project(data, column_of(headers, RecordField::Receiver)),
                    value_fields: project(data, column_of(headers, RecordField::Value)),
                },
            )
        }
    }
}

/// The table that a text decodes to.
pub open spec fn load_table(text: Seq<char>) -> Result<TableView, RecordDecodeError> {
    match csv_rows_of(text) {
        None => Err(RecordDecodeError::MalformedTable),
        Some(rows) => decode_rows(rows),
    }
}

fn header_accepted(header: &String, field: RecordField) -> (r: bool)
    ensures
        r == accepts_header(field, header@),
{
    match field {
        RecordField::Sender => *header == String::from_str("inputs_addresses") || *header
            == String::from_str("source_address"),
        RecordField::Receiver => *header == String::from_str("outputs_addresses") || *header
            == String::from_str("destination_address"),
        RecordField::Value => *header == String::from_str("outputs_value") || *header
            == String::from_str("delta") || *header == String::from_str("satoshi"),
    }
}

fn find_column(headers: &Vec<String>, field: RecordField) -> (r: usize)
    ensures
        r == column_of(headers.deep_view(), field),
        r <= headers.len(),
{
    let ghost h = headers.deep_view();
    let mut i: usize = 0;
    while i < headers.len()
        invariant
            i <= headers.len(),
            h == headers.deep_view(),
            column_of(h, field) == column_from(h, field, i as int),
        decreases headers.len() - i,
    {
        if header_accepted(&headers[i], field) {
            return i;
        }
        i = i + 1;
    }
    i
}

/// Reads a table from its text: the header line, then one row per record,
/// kept in the order of the text.
pub fn read_table(text: &str) -> (r: Result<TransactionTable, RecordDecodeError>)
    ensures
        match r {
            Ok(t) => t.wf() && load_table(text@) == Ok::<TableView, RecordDecodeError>(t@),
            Err(e) => load_table(text@) == Err::<TableView, RecordDecodeError>(e),
        },
{
    let rows = match csv_records(text) {
        None => return Err(RecordDecodeError::MalformedTable),
        Some(rows) => rows,
    };
    let ghost all = rows.deep_view();
    if rows.len() <= 1 {
        return Ok(TransactionTable::new());
    }
    let headers = &rows[0];
    let ghost h = all[0];
    let ghost data = all.drop_first();
    assert(headers.deep_view() == h);
    let sender_col = find_column(headers, RecordField::Sender);
    if sender_col == headers.len() {
        return Err(RecordDecodeError::MissingColumn { row: 0, column: RecordField::Sender });
    }
    let receiver_col = find_column(headers, RecordField::Receiver);
    if receiver_col == headers.len() {
        return Err(RecordDecodeError::MissingColumn { row: 0, column: RecordField::Receiver });
    }
    let value_col = find_column(headers, RecordField::Value);
    if value_col == headers.len() {
        return Err(RecordDecodeError::MissingColumn { row: 0, column: RecordField::Value });
    }
    let width = headers.len();
    let mut table = TransactionTable::new();
    let mut i: usize = 1;
    while i < rows.len()
        invariant
            1 <= i <= rows.len(),
            all == rows.deep_view(),
            csv_rows_of(text@) == Some(all),
            data == all.drop_first(),
            h == all[0],
            width == h.len(),
            sender_col == column_of(h, RecordField::Sender),
            receiver_col == column_of(h, RecordField::Receiver),
            value_col == column_of(h, RecordField::Value),
            sender_col < width && receiver_col < width && value_col < width,
            table.wf(),
            table.rows() == i - 1,
            bad_row_from(data, width as int, 0) == bad_row_from(data, width as int, i - 1),
            forall|k: int|
                0 <= k < i - 1 ==> {
                    &&& table@.senders[k] == data[k][sender_col as int]
                    &&& table@.receivers[k] == data[k][receiver_col as int]
                    &&& table@.value_fields[k] == data[k][value_col as int]
                },
        decreases rows.len() - i,
    {
        let row = &rows[i];
        assert(row.deep_view() == data[i - 1]);
        if row.len() != width {
            return Err(
                RecordDecodeError::FieldCount { row: i - 1, expected: width, found: row.len() },
            );
        }
        let ghost before = table@;
        table.inputs_addresses.push(row[sender_col].clone());
        table.outputs_addresses.push(row[receiver_col].clone());
        table.outputs_values.push(row[value_col].clone());
        assert(table@.senders =~= before.senders.push(data[i - 1][sender_col as int]));
        assert(table@.receivers =~= before.receivers.push(data[i - 1][receiver_col as int]));
        assert(table@.value_fields =~= before.value_fields.push(data[i - 1][value_col as int]));
        i = i + 1;
    }
    assert(table@.senders =~= project(data, sender_col as int));
    assert(table@.receivers =~= project(data, receiver_col as int));
    assert(table@.value_fields =~= project(data, value_col as int));
    Ok(table)
}

/// The first row at or after `start` whose value field was not read as a
/// number, or `parsed.len()` where every one was.
pub open spec fn unparsed_from(parsed: Seq<Option<Amount>>, start: int) -> int
    decreases parsed.len() - start,
{
    if start < 0 || start >= parsed.len() {
        parsed.len() as int
    } else if parsed[start] is None {
        start
    } else {
        unparsed_from(parsed, start + 1)
    }
}

/// The amounts read from the value fields, where every one was read.
pub open spec fn amounts_of(parsed: Seq<Option<Amount>>) -> Seq<Amount> {
    Seq::new(parsed.len(), |i: int| parsed[i]->Some_0)
}

/// The address column of the table that `address_type` selects.
pub open spec fn address_column(t: TableView, address_type: AddressType) -> Seq<Seq<char>> {
    match address_type {
        AddressType::Input => t.senders,
        AddressType::Output => t.receivers,
    }
}

/// The value column outcome: the first value field that is not a number is
/// reported with its row.
pub open spec fn values_outcome(
    fields: Seq<Seq<char>>,
    parsed: Seq<Option<Amount>>,
    r: Result<Seq<Amount>, RecordDecodeError>,
) -> bool {
    let b = unparsed_from(parsed, 0);
    match r {
        Ok(v) => b == parsed.len() && v == amounts_of(parsed),
        Err(e) => b < parsed.len() && (e matches RecordDecodeError::InvalidValue { row, field }
            && row == b && field@ == fields[b]),
    }
}

fn copy_column(column: &Vec<String>) -> (r: Vec<String>)
    ensures
        r.deep_view() == column.deep_view(),
{
    let mut r: Vec<String> = Vec::new();
    let mut i: usize = 0;
    while i < column.len()
        invariant
            i <= column.len(),
            r.len() == i,
            forall|k: int| 0 <= k < i ==> r@[k]@ == column@[k]@,
        decreases column.len() - i,
    {
        r.push(column[i].clone());
        i = i + 1;
    }
    assert(r.deep_view() =~= column.deep_view());
    r
}

/// The address column that `address_type` selects, in row order.
pub fn make_address_vector(table: &TransactionTable, address_type: AddressType) -> (r: Vec<String>)
    ensures
        r.deep_view() == address_column(table@, address_type),
{
    match address_type {
        AddressType::Input => copy_column(&table.inputs_addresses),
        AddressType::Output => copy_column(&table.outputs_addresses),
    }
}

/// The value column in row order. `parsed` holds, for each value field of the
/// table, the number that it reads as, or `None` where it is not a number.
pub fn make_value_vector(table: &TransactionTable, parsed: &Vec<Option<Amount>>) -> (r: Result<
    Vec<Amount>,
    RecordDecodeError,
>)
    requires
        table.wf(),
        parsed.len() == table.rows(),
    ensures
        values_outcome(
            table@.value_fields,
            parsed@,
            match r {
                Ok(v) => Ok(v@),
                Err(e) => Err(e),
            },
        ),
{
    let mut values: Vec<Amount> = Vec::new();
    let mut i: usize = 0;
    while i < parsed.len()
        invariant
            i <= parsed.len(),
            parsed.len() == table.outputs_values.len(),
            values.len() == i,
            forall|k: int| 0 <= k < i ==> parsed@[k] == Some(#[trigger] values@[k]),
            unparsed_from(parsed@, 0) == unparsed_from(parsed@, i as int),
        decreases parsed.len() - i,
    {
        match parsed[i] {
            Some(a) => values.push(a),
            None => {
                assert(unparsed_from(parsed@, i as int) == i);
                return Err(
                    RecordDecodeError::InvalidValue {
                        row: i,
                        field: table.outputs_values[i].clone(),
                    },
                );
            },
        }
        i = i + 1;
    }
    assert(values@ =~= amounts_of(parsed@));
    Ok(values)
}

/// The three columns of the table: senders, receivers and values.
pub fn addresses_and_values_as_vectors(
    table: &TransactionTable,
    parsed: &Vec<Option<Amount>>,
) -> (r: Result<(Vec<String>, Vec<String>, Vec<Amount>), RecordDecodeError>)
    requires
        table.wf(),
        parsed.len() == table.rows(),
    ensures
        values_outcome(
            table@.value_fields,
            parsed@,
            match r {
                Ok(c) => Ok(c.2@),
                Err(e) => Err(e),
            },
        ),
        r matches Ok(c) ==> c.0.deep_view() == table@.senders && c.1.deep_view()
            == table@.receivers,
{
    let values = match make_value_vector(table, parsed) {
        Ok(v) => v,
        Err(e) => return Err(e),
    };
    let senders = make_address_vector(table, AddressType::Input);
    let receivers = make_address_vector(table, AddressType::Output);
    Ok((senders, receivers, values))
}

/// Every row of the table as a record, in row order.
pub fn parse_as_records(table: &TransactionTable, parsed: &Vec<Option<Amount>>) -> (r: Result<
    Vec<BigQueryCSVRecord>,
    RecordDecodeError,
>)
    requires
        table.wf(),
        parsed.len() == table.rows(),
    ensures
        values_outcome(
            table@.value_fields,
            parsed@,
            match r {
                Ok(recs) => Ok(Seq::new(recs.len() as nat, |i: int| recs@[i].outputs_value)),
                Err(e) => Err(e),
            },
        ),
        r matches Ok(recs) ==> forall|i: int|
            0 <= i < recs.len() ==> {
                &&& #[trigger] recs@[i].inputs_addresses@ == table@.senders[i]
                &&& recs@[i].outputs_addresses@ == table@.receivers[i]
            },
{
    let values = match make_value_vector(table, parsed) {
        Ok(v) => v,
        Err(e) => return Err(e),
    };
    let mut records: Vec<BigQueryCSVRecord> = Vec::new();
    let mut i: usize = 0;
    while i < values.len()
        invariant
            i <= values.len(),
            table.wf(),
            values.len() == table.rows(),
            records.len() == i,
            forall|k: int|
                0 <= k < i ==> {
                    &&& (#[trigger] records@[k]).inputs_addresses@ == table@.senders[k]
                    &&& records@[k].outputs_addresses@ == table@.receivers[k]
                    &&& records@[k].outputs_value == values@[k]
                },
        decreases values.len() - i,
    {
        let record = BigQueryCSVRecord {
            inputs_addresses: table.inputs_addresses[i].clone(),
            outputs_addresses: table.outputs_addresses[i].clone(),
            outputs_value: values[i],
        };
        assert(record.inputs_addresses@ == table@.senders[i as int]);
        assert(record.outputs_addresses@ == table@.receivers[i as int]);
        records.push(record);
        assert(records@[i as int] == record);
        i = i + 1;
    }
    assert(Seq::new(records.len() as nat, |k: int| records@[k].outputs_value) =~= values@);
    Ok(records)
}

/// Row `i` holds the address.
pub open spec fn address_at(column: Seq<Seq<char>>, target: Seq<char>, i: int) -> bool {
    0 <= i < column.len() && column[i] == target
}

/// Row `i` is the lowest row that holds the address.
pub open spec fn is_first_address(column: Seq<Seq<char>>, target: Seq<char>, i: int) -> bool {
    address_at(column, target, i) && forall|j: int| 0 <= j < i ==> !address_at(column, target, j)
}

pub open spec fn has_address(column: Seq<Seq<char>>, target: Seq<char>) -> bool {
    exists|i: int| address_at(column, target, i)
}

/// Row `i` holds both the address and an amount equal to the value.
pub open spec fn pair_at(
    column: Seq<Seq<char>>,
    values: Seq<Amount>,
    target: Seq<char>,
    value: Amount,
    i: int,
) -> bool {
    &&& 0 <= i < column.len()
    &&& i < values.len()
    &&& column[i] == target
    &&& same_amount(values[i], value)
}

/// Row `i` is the lowest row that holds both the address and the value.
pub open spec fn is_first_pair(
    column: Seq<Seq<char>>,
    values: Seq<Amount>,
    target: Seq<char>,
    value: Amount,
    i: int,
) -> bool {
    pair_at(column, values, target, value, i) && forall|j: int|
        0 <= j < i ==> !pair_at(column, values, target, value, j)
}

pub open spec fn has_pair(
    column: Seq<Seq<char>>,
    values: Seq<Amount>,
    target: Seq<char>,
    value: Amount,
) -> bool {
    exists|i: int| pair_at(column, values, target, value, i)
}

/// What a resolution returns. Without a value: the lowest row that holds the
/// address, else `NoMatchingAddress`. With a value: a misalignment error where
/// the columns differ in length, else the lowest row that holds both, else
/// `NoMatchingIndexForValue`.
pub open spec fn resolution_holds(
    column: Seq<Seq<char>>,
    values: Seq<Amount>,
    target: Seq<char>,
    value: Option<Amount>,
    r: Result<usize, AddressPositionError>,
) -> bool {
    match value {
        None => match r {
            Ok(i) => is_first_address(column, target, i as int),
            Err(e) => !has_address(column, target) && (e matches AddressPositionError::NoMatchingAddress(
                a,
            ) && a@ == target),
        },
        Some(v) => if column.len() != values.len() {
            r == Err::<usize, AddressPositionError>(
                AddressPositionError::MisalignedColumns {
                    first_len: column.len() as usize,
                    second_len: values.len() as usize,
                },
            )
        } else {
            match r {
                Ok(i) => is_first_pair(column, values, target, v, i as int),
                Err(e) => !has_pair(column, values, target, v) && (
                e matches AddressPositionError::NoMatchingIndexForValue(a, w) && a@ == target && w
                    == v),
            }
        },
    }
}

/// Compares one address with the target.
pub fn is_address(address: &String, target: &String) -> (r: bool)
    ensures
        r == (address@ == target@),
{
    *address == *target
}

/// Compares one row of an address column and a value column with the target
/// pair.
pub fn is_pair(address: &String, value: &Amount, target: &String, target_value: &Amount) -> (r:
    bool)
    ensures
        r == (address@ == target@ && same_amount(*value, *target_value)),
{
    *address == *target && value.equals(target_value)
}

/// Relies on rayon's `IndexedParallelIterator::position_first` over a slice:
/// the index of the sequentially first element for which the predicate holds,
/// or `None` where it holds for none, whatever the split among workers.
#[verifier::external_body]
fn par_position_of_address(column: &Vec<String>, target: &String) -> (r: Option<usize>)
    ensures
        match r {
            Some(i) => is_first_address(column.deep_view(), target@, i as int),
            None => !has_address(column.deep_view(), target@),
        },
{
    column.par_iter().position_first(|address| is_address(address, target))
}

/// Relies on rayon's `IndexedParallelIterator::zip` and `position_first` over
/// two slices of one length: the index of the sequentially first pair for
/// which the predicate holds, or `None` where it holds for none.
#[verifier::external_body]
fn par_position_of_pair(
    first: &Vec<String>,
    second: &Vec<Amount>,
    target: &String,
    target_value: &Amount,
) -> (r: Option<usize>)
    requires
        first.len() == second.len(),
    ensures
        match r {
            Some(i) => is_first_pair(first.deep_view(), second@, target@, *target_value, i as int),
            None => !has_pair(first.deep_view(), second@, target@, *target_value),
        },
{
    first.par_iter().zip(second.par_iter()).position_first(
        |(address, value)| is_pair(address, value, target, target_value),
    )
}

/// Paired scan: the lowest row where the first column holds `val1` and the
/// second an amount equal to `val2`. Columns of different lengths are refused.
pub fn find_matching_indices(
    first_vector: &Vec<String>,
    val1: &String,
    second_vector: &Vec<Amount>,
    val2: &Amount,
) -> (r: Result<usize, AddressPositionError>)
    ensures
        first_vector.len() != second_vector.len() ==> r == Err::<usize, AddressPositionError>(
            AddressPositionError::MisalignedColumns {
                first_len: first_vector.len(),
                second_len: second_vector.len(),
            },
        ),
        first_vector.len() == second_vector.len() ==> match r {
            Ok(i) => is_first_pair(first_vector.deep_view(), second_vector@, val1@, *val2, i as int),
            Err(e) => !has_pair(first_vector.deep_view(), second_vector@, val1@, *val2) && (
            e matches AddressPositionError::NoMatchingIndices { address, value } && address@
                == val1@ && value == *val2),
        },
{
    if first_vector.len() != second_vector.len() {
        return Err(
            AddressPositionError::MisalignedColumns {
                first_len: first_vector.len(),
                second_len: second_vector.len(),
            },
        );
    }
    match par_position_of_pair(first_vector, second_vector, val1, val2) {
        Some(i) => Ok(i),
        None => Err(AddressPositionError::NoMatchingIndices { address: val1.clone(), value: *val2 }),
    }
}

/// Resolves the position of an address in an address column, and where a
/// value is given, of the address paired with that value in the value column.
pub fn resolve(
    address_column: &Vec<String>,
    value_column: &Vec<Amount>,
    target_address: String,
    target_value: Option<Amount>,
) -> (r: Result<usize, AddressPositionError>)
    ensures
        resolution_holds(
            address_column.deep_view(),
            value_column@,
            target_address@,
            target_value,
            r,
        ),
{
    match target_value {
        Some(v) => match find_matching_indices(address_column, &target_address, value_column, &v) {
            Ok(i) => Ok(i),
            Err(AddressPositionError::NoMatchingIndices { .. }) => Err(
                AddressPositionError::NoMatchingIndexForValue(target_address, v),
            ),
            Err(e) => Err(e),
        },
        None => match par_position_of_address(address_column, &target_address) {
            Some(i) => Ok(i),
            None => Err(AddressPositionError::NoMatchingAddress(target_address)),
        },
    }
}

/// Resolves the position of `public_address` in the column of the table that
/// `address_type` selects; with a value, the address must be paired with it.
/// `parsed` holds what each value field reads as, as for `make_value_vector`.
pub fn get_address_position(
    table: &TransactionTable,
    parsed: &Vec<Option<Amount>>,
    public_address: String,
    value: Option<Amount>,
    address_type: AddressType,
) -> (r: Result<usize, AddressPositionError>)
    requires
        table.wf(),
        parsed.len() == table.rows(),
    ensures
        value is None ==> resolution_holds(
            address_column(table@, address_type),
            amounts_of(parsed@),
            public_address@,
            value,
            r,
        ),
        value is Some ==> match r {
            Err(AddressPositionError::Decode(e)) => values_outcome(
                table@.value_fields,
                parsed@,
                Err(e),
            ),
            _ => unparsed_from(parsed@, 0) == parsed.len() && resolution_holds(
                address_column(table@, address_type),
                amounts_of(parsed@),
                public_address@,
                value,
                r,
            ),
        },
{
    let addresses = make_address_vector(table, address_type);
    match value {
        Some(v) => {
            let values = match make_value_vector(table, parsed) {
                Ok(values) => values,
                Err(e) => return Err(AddressPositionError::Decode(e)),
            };
            resolve(&addresses, &values, public_address, Some(v))
        },
        None => {
            let no_values: Vec<Amount> = Vec::new();
            resolve(&addresses, &no_values, public_address, None)
        },
    }
}

} // verus!
