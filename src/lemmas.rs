use vstd::prelude::*;
use crate::amount::Amount;
use crate::bigquery_transactions::{
    TableView, address_at, column_of, csv_rows_of, has_address, has_pair, is_first_address, load_table,
    pair_at, resolution_holds,
};
use crate::errors::{AddressPositionError, RecordField};

verus! {

/// Two loads of one text give the same columns, and each column lists the
/// fields of the rows in the order of the text: row `i` is the record after
/// the header line at position `i + 1`.
pub proof fn lemma_load_preserves_order(text: Seq<char>, first: TableView, second: TableView)
    requires
        load_table(text) == Ok::<TableView, crate::errors::RecordDecodeError>(first),
        load_table(text) == Ok::<TableView, crate::errors::RecordDecodeError>(second),
    ensures
        first == second,
        match csv_rows_of(text) {
            Some(rows) => rows.len() > 1 ==> {
                &&& first.senders.len() == rows.len() - 1
                &&& forall|i: int|
                    0 <= i < first.senders.len() ==> {
                        &&& #[trigger] first.senders[i] == rows[i + 1][column_of(
                            rows[0],
                            RecordField::Sender,
                        )]
                        &&& first.receivers[i] == rows[i + 1][column_of(
                            rows[0],
                            RecordField::Receiver,
                        )]
                        &&& first.value_fields[i] == rows[i + 1][column_of(
                            rows[0],
                            RecordField::Value,
                        )]
                    }
            },
            None => false,
        },
{
}

/// The lowest row that holds an address is one row, and no row before it
/// holds the address.
pub proof fn lemma_first_address_is_unique(
    column: Seq<Seq<char>>,
    target: Seq<char>,
    i: int,
    j: int,
)
    requires
        is_first_address(column, target, i),
        address_at(column, target, j),
    ensures
        i <= j,
        is_first_address(column, target, j) ==> i == j,
{
}

/// Without a value, a resolution returns the lowest row that holds the
/// address, and fails with `NoMatchingAddress` only where no row holds it.
pub proof fn lemma_address_resolution_takes_lowest(
    column: Seq<Seq<char>>,
    values: Seq<Amount>,
    target: Seq<char>,
    k: int,
    r: Result<usize, AddressPositionError>,
)
    requires
        address_at(column, target, k),
        resolution_holds(column, values, target, None, r),
    ensures
        r matches Ok(i) && i <= k && is_first_address(column, target, i as int),
{
}

/// With a value, wherever some row `i` holds both the address and the value,
/// the resolution returns a row `j <= i` that holds both.
pub proof fn lemma_paired_resolution_precedes(
    column: Seq<Seq<char>>,
    values: Seq<Amount>,
    target: Seq<char>,
    value: Amount,
    i: int,
    r: Result<usize, AddressPositionError>,
)
    requires
        column.len() == values.len(),
        pair_at(column, values, target, value, i),
        resolution_holds(column, values, target, Some(value), r),
    ensures
        r matches Ok(j) && j <= i && pair_at(column, values, target, value, j as int),
{
}

/// A resolution that finds nothing says precisely why: `NoMatchingAddress`
/// where no row holds the address, and with a value, `NoMatchingIndexForValue`
/// where no row holds both, though rows may hold the address.
pub proof fn lemma_no_match_is_precise(
    column: Seq<Seq<char>>,
    values: Seq<Amount>,
    target: Seq<char>,
    value: Option<Amount>,
    r: Result<usize, AddressPositionError>,
)
    requires
        resolution_holds(column, values, target, value, r),
    ensures
        value is None && !has_address(column, target) ==> (r matches Err(
            AddressPositionError::NoMatchingAddress(a),
        ) && a@ == target),
        match value {
            Some(v) => column.len() == values.len() && !has_pair(column, values, target, v) ==> (
            r matches Err(AddressPositionError::NoMatchingIndexForValue(a, w)) && a@ == target && w
                == v),
            None => true,
        },
{
    if value is None && !has_address(column, target) {
        if let Ok(i) = r {
            assert(address_at(column, target, i as int));
        }
    }
    if let Some(v) = value {
        if column.len() == values.len() && !has_pair(column, values, target, v) {
            if let Ok(i) = r {
                assert(pair_at(column, values, target, v, i as int));
            }
        }
    }
}

/// A value-qualified resolution over columns of different lengths fails with
/// `MisalignedColumns`, and never returns a row.
pub proof fn lemma_misaligned_columns_fail(
    column: Seq<Seq<char>>,
    values: Seq<Amount>,
    target: Seq<char>,
    value: Amount,
    r: Result<usize, AddressPositionError>,
)
    requires
        column.len() != values.len(),
        resolution_holds(column, values, target, Some(value), r),
    ensures
        r matches Err(AddressPositionError::MisalignedColumns { first_len, second_len }) && first_len
            == column.len() as usize && second_len == values.len() as usize,
{
}

} // verus!
