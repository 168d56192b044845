//! The warehouse query and the summary of its rows.

use crate::amount::Amount;
use crate::config::{BigQuerySettings, BigQuerySettingsView};
use crate::text::{decimal, decimal_text, signed_decimal, signed_decimal_text};
use vstd::prelude::*;
use vstd::string::*;

verus! {

/// What one service has cost over the period.
#[derive(Debug, PartialEq, Eq)]
pub struct BillingData {
    pub service_description: String,
    pub cost: Amount,
    pub currency: String,
}

/// The cost of the period: the total, and the services in the order in which
/// the warehouse gave them, the dearest first.
#[derive(Debug, PartialEq, Eq)]
pub struct BillingSummary {
    pub total_cost: Amount,
    pub currency: String,
    pub services: Vec<BillingData>,
    pub period_days: i64,
}

/// One cell of a row, as the warehouse's client read it.
#[derive(Debug, PartialEq, Eq)]
pub enum Cell<T> {
    /// The cell holds a value of the type asked for.
    Value(T),
    /// The cell is empty.
    Null,
    /// The cell could not be read as the type asked for; `reason` says why.
    Invalid { reason: String },
}

/// The columns of a row of the query's result.
#[derive(Debug, Clone, Copy, PartialEq, Eq, Structural)]
pub enum Column {
    ServiceDescription,
    Cost,
    Currency,
    TotalCost,
}

/// One row of the query's result, each cell as it was read.
#[derive(Debug, PartialEq, Eq)]
pub struct RawRow {
    pub service_description: Cell<String>,
    pub cost: Cell<Amount>,
    pub currency: Cell<String>,
    pub total_cost: Cell<Amount>,
}

/// A cell that could not be read: the row, counted from zero, the column,
/// and the reason that came with the cell.
#[derive(Debug, PartialEq, Eq)]
pub struct RowError {
    pub row: usize,
    pub column: Column,
    pub reason: String,
}

/// A `RowError` as mathematics.
pub struct RowErrorView {
    pub row: int,
    pub column: Column,
    pub reason: Seq<char>,
}

impl View for RowError {
    type V = RowErrorView;

    open spec fn view(&self) -> RowErrorView {
        RowErrorView { row: self.row as int, column: self.column, reason: self.reason@ }
    }
}

/// A `BillingData` as mathematics: texts as sequences of characters, the
/// cost as its number of hundredths.
pub struct BillingDataView {
    pub service_description: Seq<char>,
    pub cost: int,
    pub currency: Seq<char>,
}

/// A `BillingSummary` as mathematics.
pub struct BillingSummaryView {
    pub total_cost: int,
    pub currency: Seq<char>,
    pub services: Seq<BillingDataView>,
    pub period_days: int,
}

impl View for BillingData {
    type V = BillingDataView;

    open spec fn view(&self) -> BillingDataView {
        BillingDataView {
            service_description: self.service_description@,
            cost: self.cost@,
            currency: self.currency@,
        }
    }
}

impl View for BillingSummary {
    type V = BillingSummaryView;

    open spec fn view(&self) -> BillingSummaryView {
        BillingSummaryView {
            total_cost: self.total_cost@,
            currency: self.currency@,
            services: self.services@.map_values(|d: BillingData| d@),
            period_days: self.period_days as int,
        }
    }
}

/// The column of the service's name.
pub const SERVICE_DESCRIPTION_COLUMN: &'static str = "service_description";

/// The column of the service's cost.
pub const COST_COLUMN: &'static str = "cost";

/// The column of the currency of the cost.
pub const CURRENCY_COLUMN: &'static str = "currency";

/// The column of the grand total of the currency.
pub const TOTAL_COST_COLUMN: &'static str = "total_cost";

/// The name that the query gives a column.
pub open spec fn column_name(column: Column) -> Seq<char> {
    match column {
        Column::ServiceDescription => SERVICE_DESCRIPTION_COLUMN@,
        Column::Cost => COST_COLUMN@,
        Column::Currency => CURRENCY_COLUMN@,
        Column::TotalCost => TOTAL_COST_COLUMN@,
    }
}

/// What a failure says of itself: the row, the column and the reason.
pub open spec fn row_error_text(error: RowErrorView) -> Seq<char> {
    "row "@ + decimal(error.row as nat) + ", column "@ + column_name(error.column) + ": "@
        + error.reason
}

impl Column {
    /// The name that the query gives the column.
    pub fn name(self) -> (name: &'static str)
        ensures
            name@ == column_name(self),
    {
        match self {
            Column::ServiceDescription => SERVICE_DESCRIPTION_COLUMN,
            Column::Cost => COST_COLUMN,
            Column::Currency => CURRENCY_COLUMN,
            Column::TotalCost => TOTAL_COST_COLUMN,
        }
    }
}

impl RowError {
    /// What the failure says of itself.
    pub fn message(&self) -> (text: String)
        ensures
            text@ == row_error_text(self@),
    {
        let mut text = String::from_str("row ");
        text.append(decimal_text(self.row as u64).as_str());
        text.append(", column ");
        text.append(self.column.name());
        text.append(": ");
        text.append(self.reason.as_str());
        text
    }
}

/// The query up to the table's path.
pub const QUERY_HEAD: &'static str =
    "WITH billing_data AS (\n  SELECT\n    service.description AS service_description,\n    SUM(cost) AS cost,\n    currency\n  FROM `";

/// The query between the table's path and the number of days.
pub const QUERY_WINDOW: &'static str =
    "`\n  WHERE DATE(usage_start_time) >= DATE_SUB(CURRENT_DATE(), INTERVAL ";

/// The query after the number of days.
pub const QUERY_TAIL: &'static str =
    " DAY)\n  GROUP BY service_description, currency\n  HAVING cost > 0\n  ORDER BY cost DESC\n),\ntotal AS (\n  SELECT SUM(cost) AS total_cost, currency\n  FROM billing_data\n  GROUP BY currency\n)\nSELECT\n  bd.service_description,\n  bd.cost,\n  bd.currency,\n  t.total_cost\nFROM billing_data bd\nJOIN total t ON bd.currency = t.currency\nORDER BY bd.cost DESC\n";

/// The query that sums the cost of the last days by service and currency,
/// drops what cost nothing, joins each service with the total of its
/// currency, and orders the rows by cost, the dearest first.
pub open spec fn query_text(settings: BigQuerySettingsView) -> Seq<char> {
    QUERY_HEAD@ + settings.project_id + "."@ + settings.dataset + "."@ + settings.table
        + QUERY_WINDOW@ + signed_decimal(settings.days_to_report) + QUERY_TAIL@
}

/// Writes the query for the table and the period of `settings`.
pub fn build_query(settings: &BigQuerySettings) -> (query: String)
    ensures
        query@ == query_text(settings@),
{
    let mut query = String::from_str(QUERY_HEAD);
    query.append(settings.project_id.as_str());
    query.append(".");
    query.append(settings.dataset.as_str());
    query.append(".");
    query.append(settings.table.as_str());
    query.append(QUERY_WINDOW);
    query.append(signed_decimal_text(settings.days_to_report).as_str());
    query.append(QUERY_TAIL);
    query
}

/// The text of a cell: what it holds, or nothing where it is empty.
pub open spec fn text_cell(cell: Cell<String>) -> Seq<char> {
    match cell {
        Cell::Value(text) => text@,
        _ => Seq::empty(),
    }
}

/// The amount of a cell: what it holds, or zero where it is empty.
pub open spec fn amount_cell(cell: Cell<Amount>) -> int {
    match cell {
        Cell::Value(amount) => amount@,
        _ => 0,
    }
}

/// The reason of a cell that could not be read.
pub open spec fn invalid_reason<T>(cell: Cell<T>) -> Option<Seq<char>> {
    match cell {
        Cell::Invalid { reason } => Some(reason@),
        _ => None,
    }
}

/// The first cell of a row that could not be read, in the order service,
/// cost, currency, total: its column and its reason.
pub open spec fn first_invalid(row: RawRow) -> Option<(Column, Seq<char>)> {
    if invalid_reason(row.service_description) is Some {
        Some((Column::ServiceDescription, invalid_reason(row.service_description)->0))
    } else if invalid_reason(row.cost) is Some {
        Some((Column::Cost, invalid_reason(row.cost)->0))
    } else if invalid_reason(row.currency) is Some {
        Some((Column::Currency, invalid_reason(row.currency)->0))
    } else if invalid_reason(row.total_cost) is Some {
        Some((Column::TotalCost, invalid_reason(row.total_cost)->0))
    } else {
        None
    }
}

/// Every cell of every row could be read.
pub open spec fn all_rows_valid(rows: Seq<RawRow>) -> bool {
    forall|i: int| 0 <= i < rows.len() ==> first_invalid(#[trigger] rows[i]) is None
}

/// What a row says of its service, empty cells read as nothing and as zero.
pub open spec fn data_of(row: RawRow) -> BillingDataView {
    BillingDataView {
        service_description: text_cell(row.service_description),
        cost: amount_cell(row.cost),
        currency: text_cell(row.currency),
    }
}

/// The summary of a result: the services of its rows in their order, and the
/// total and the currency that its first row carries; zero and no currency
/// where there is no row.
pub open spec fn summary_of(rows: Seq<RawRow>, period_days: int) -> BillingSummaryView {
    BillingSummaryView {
        total_cost: if rows.len() > 0 {
            amount_cell(rows[0].total_cost)
        } else {
            0
        },
        currency: if rows.len() > 0 {
            text_cell(rows[0].currency)
        } else {
            Seq::empty()
        },
        services: rows.map_values(|row: RawRow| data_of(row)),
        period_days,
    }
}

/// What became of reading a result, by its view.
pub open spec fn summary_outcome(
    outcome: Result<BillingSummary, RowError>,
) -> Result<BillingSummaryView, RowErrorView> {
    match outcome {
        Ok(summary) => Ok(summary@),
        Err(error) => Err(error@),
    }
}

/// The summary of a result over a period, or its first cell that could not
/// be read, rows in their order and within a row the columns in theirs.
pub open spec fn billing_data_of(rows: Seq<RawRow>, period_days: int) -> Result<
    BillingSummaryView,
    RowErrorView,
>
{
    if all_rows_valid(rows) {
        Ok(summary_of(rows, period_days))
    } else {
        let row = first_invalid_row(rows);
        let (column, reason) = first_invalid(rows[row]).unwrap();
        Err(RowErrorView { row, column, reason })
    }
}

/// The position of the first row with a cell that could not be read, or the
/// number of rows where there is none.
pub open spec fn first_invalid_row(rows: Seq<RawRow>) -> int
    decreases rows.len(),
{
    if rows.len() == 0 {
        0
    } else if first_invalid(rows[0]) is Some {
        0
    } else {
        1 + first_invalid_row(rows.drop_first())
    }
}

/// The services come dearest first.
pub open spec fn is_descending(services: Seq<BillingDataView>) -> bool {
    forall|i: int, j: int| 0 <= i <= j < services.len() ==> services[i].cost >= services[j].cost
}

/// The rows are as the query orders them: the dearest first.
pub open spec fn rows_descending(rows: Seq<RawRow>) -> bool {
    forall|i: int, j: int|
        0 <= i <= j < rows.len() ==> amount_cell(rows[i].cost) >= amount_cell(rows[j].cost)
}

/// The rows are of one currency, and so, by the query's join, all carry the
/// one grand total of that currency.
pub open spec fn single_currency(rows: Seq<RawRow>, currency: Seq<char>, total: int) -> bool {
    forall|i: int|
        0 <= i < rows.len() ==> text_cell(#[trigger] rows[i].currency) == currency && amount_cell(
            rows[i].total_cost,
        ) == total
}

/// A result of one currency whose rows come dearest first, every cell of it
/// read, gives a summary: its services are those of the rows and come dearest
/// first, and its total and currency are the grand total and the currency
/// that the rows carry.
pub proof fn lemma_summary_of_ordered_result(
    rows: Seq<RawRow>,
    period_days: int,
    currency: Seq<char>,
    total: int,
)
    requires
        rows.len() > 0,
        all_rows_valid(rows),
        rows_descending(rows),
        single_currency(rows, currency, total),
    ensures
        billing_data_of(rows, period_days) == Ok::<BillingSummaryView, RowErrorView>(
            summary_of(rows, period_days),
        ),
        summary_of(rows, period_days).services.len() == rows.len(),
        is_descending(summary_of(rows, period_days).services),
        summary_of(rows, period_days).total_cost == total,
        summary_of(rows, period_days).currency == currency,
        summary_of(rows, period_days).period_days == period_days,
{
    let services = summary_of(rows, period_days).services;
    assert forall|i: int, j: int| 0 <= i <= j < services.len() implies services[i].cost
        >= services[j].cost by {
        assert(services[i] == data_of(rows[i]));
        assert(services[j] == data_of(rows[j]));
    }
    assert(text_cell(rows[0].currency) == currency);
}

/// A result without rows gives a summary without services, with a total of
/// zero and no currency.
pub proof fn lemma_summary_of_empty_result(period_days: int)
    ensures
        billing_data_of(Seq::<RawRow>::empty(), period_days) == Ok::<
            BillingSummaryView,
            RowErrorView,
        >(summary_of(Seq::<RawRow>::empty(), period_days)),
        summary_of(Seq::<RawRow>::empty(), period_days).services.len() == 0,
        summary_of(Seq::<RawRow>::empty(), period_days).total_cost == 0,
        summary_of(Seq::<RawRow>::empty(), period_days).currency.len() == 0,
{
}

/// The text of a cell, or its reason where it could not be read.
fn read_text(cell: &Cell<String>) -> (r: Result<String, String>)
    ensures
        match r {
            Ok(text) => invalid_reason(*cell) is None && text@ == text_cell(*cell),
            Err(reason) => invalid_reason(*cell) == Some(reason@),
        },
{
    match cell {
        Cell::Value(text) => Ok(text.clone()),
        Cell::Null => Ok(String::new()),
        Cell::Invalid { reason } => Err(reason.clone()),
    }
}

/// The amount of a cell, or its reason where it could not be read.
fn read_amount(cell: &Cell<Amount>) -> (r: Result<Amount, String>)
    ensures
        match r {
            Ok(amount) => invalid_reason(*cell) is None && amount@ == amount_cell(*cell),
            Err(reason) => invalid_reason(*cell) == Some(reason@),
        },
{
    match cell {
        Cell::Value(amount) => Ok(*amount),
        Cell::Null => Ok(Amount::zero()),
        Cell::Invalid { reason } => Err(reason.clone()),
    }
}

/// Reads one row: its service, and the total that it carries.
fn read_row(row: &RawRow) -> (r: Result<(BillingData, Amount), (Column, String)>)
    ensures
        match r {
            Ok((data, total)) => first_invalid(*row) is None && data@ == data_of(*row) && total@
                == amount_cell(row.total_cost),
            Err((column, reason)) => first_invalid(*row) == Some((column, reason@)),
        },
{
    let service_description = match read_text(&row.service_description) {
        Ok(text) => text,
        Err(reason) => {
            return Err((Column::ServiceDescription, reason));
        },
    };
    let cost = match read_amount(&row.cost) {
        Ok(amount) => amount,
        Err(reason) => {
            return Err((Column::Cost, reason));
        },
    };
    let currency = match read_text(&row.currency) {
        Ok(text) => text,
        Err(reason) => {
            return Err((Column::Currency, reason));
        },
    };
    let total = match read_amount(&row.total_cost) {
        Ok(amount) => amount,
        Err(reason) => {
            return Err((Column::TotalCost, reason));
        },
    };
    Ok((BillingData { service_description, cost, currency }, total))
}

/// Rows without a cell that could not be read, then one with such a cell:
/// that one is the first.
proof fn lemma_first_invalid_row(rows: Seq<RawRow>, at: int)
    requires
        0 <= at <= rows.len(),
        all_rows_valid(rows.take(at)),
        at < rows.len() ==> first_invalid(rows[at]) is Some,
    ensures
        first_invalid_row(rows) == at,
    decreases at,
{
    if at == 0 {
    } else {
        assert(rows.take(at)[0] == rows[0]);
        let rest = rows.drop_first();
        assert(rest.take(at - 1) =~= rows.take(at).drop_first());
        assert forall|i: int| 0 <= i < rest.take(at - 1).len() implies first_invalid(
            #[trigger] rest.take(at - 1)[i],
        ) is None by {
            assert(rest.take(at - 1)[i] == rows.take(at)[i + 1]);
        }
        lemma_first_invalid_row(rest, at - 1);
    }
}

/// Summarises the rows of the query's result for the period of `settings`:
/// the services in the order of the rows, the total and the currency of the
/// first row. A cell that could not be read fails the whole result.
pub fn get_billing_data(settings: &BigQuerySettings, rows: &Vec<RawRow>) -> (outcome: Result<
    BillingSummary,
    RowError,
>)
    ensures
        summary_outcome(outcome) == billing_data_of(rows@, settings@.days_to_report),
        outcome is Ok <==> all_rows_valid(rows@),
        rows@.len() == 0 ==> (outcome matches Ok(summary) && summary.services@.len() == 0
            && summary.total_cost@ == 0 && summary.currency@.len() == 0),
{
    let mut services: Vec<BillingData> = Vec::new();
    let mut total_cost = Amount::zero();
    let mut currency = String::new();
    let mut i: usize = 0;
    while i < rows.len()
        invariant
            i <= rows@.len(),
            all_rows_valid(rows@.take(i as int)),
            services@.len() == i,
            forall|j: int| 0 <= j < i ==> (#[trigger] services@[j])@ == data_of(rows@[j]),
            total_cost@ == summary_of(rows@.take(i as int), 0).total_cost,
            currency@ == summary_of(rows@.take(i as int), 0).currency,
        decreases rows@.len() - i,
    {
        let ghost before = rows@.take(i as int);
        let ghost after = rows@.take(i + 1);
        match read_row(&rows[i]) {
            Err((column, reason)) => {
                proof {
                    lemma_first_invalid_row(rows@, i as int);
                    assert(!all_rows_valid(rows@));
                }
                return Err(RowError { row: i, column, reason });
            },
            Ok((data, total)) => {
                proof {
                    assert(after.drop_last() =~= before);
                    assert(after.last() == rows@[i as int]);
                    assert forall|j: int| 0 <= j < after.len() implies first_invalid(
                        #[trigger] after[j],
                    ) is None by {
                        if j < i {
                            assert(after[j] == before[j]);
                        }
                    }
                    if i > 0 {
                        assert(after[0] == before[0]);
                    }
                }
                if i == 0 {
                    total_cost = total;
                    currency = data.currency.clone();
                }
                services.push(data);
            },
        }
        i += 1;
    }
    assert(rows@.take(i as int) =~= rows@);
    assert(services@.map_values(|d: BillingData| d@) =~= rows@.map_values(
        |row: RawRow| data_of(row),
    ));
    Ok(BillingSummary { total_cost, currency, services, period_days: settings.days_to_report })
}

} // verus!
