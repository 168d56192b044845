use gcp_billing_alert::amount::Amount;
use gcp_billing_alert::bigquery::{
    build_query, get_billing_data, BillingData, BillingSummary, Cell, Column, RawRow, RowError,
};
use gcp_billing_alert::config::BigQuerySettings;

fn settings(days: i64) -> BigQuerySettings {
    BigQuerySettings {
        project_id: "my-project".to_string(),
        dataset: "billing".to_string(),
        table: "gcp_billing_export".to_string(),
        days_to_report: days,
    }
}

fn row(service: &str, cost: i64, currency: &str, total: i64) -> RawRow {
    RawRow {
        service_description: Cell::Value(service.to_string()),
        cost: Cell::Value(Amount::new(cost)),
        currency: Cell::Value(currency.to_string()),
        total_cost: Cell::Value(Amount::new(total)),
    }
}

fn invalid<T>(reason: &str) -> Cell<T> {
    Cell::Invalid { reason: reason.to_string() }
}

fn service(name: &str, cost: i64, currency: &str) -> BillingData {
    BillingData {
        service_description: name.to_string(),
        cost: Amount::new(cost),
        currency: currency.to_string(),
    }
}

#[test]
fn test_bigquery_data_extraction() {
    let rows = vec![
        row("Compute Engine", 7500, "USD", 10000),
        row("Cloud Storage", 2500, "USD", 10000),
    ];
    let billing_summary = get_billing_data(&settings(7), &rows).unwrap();
    println!("Successfully retrieved billing data:");
    println!(
        "Total cost: {} {}",
        billing_summary.total_cost.to_text(),
        billing_summary.currency
    );
    println!("Period: {} days", billing_summary.period_days);
    println!("Services:");
    for service in &billing_summary.services {
        println!(
            "  {}: {} {}",
            service.service_description,
            service.cost.to_text(),
            service.currency
        );
    }
    assert_eq!(
        billing_summary,
        BillingSummary {
            total_cost: Amount::new(10000),
            currency: "USD".to_string(),
            services: vec![
                service("Compute Engine", 7500, "USD"),
                service("Cloud Storage", 2500, "USD"),
            ],
            period_days: 7,
        }
    );
}

#[test]
fn build_query_writes_the_whole_query() {
    let expected = "WITH billing_data AS (\n  SELECT\n    service.description AS service_description,\n    SUM(cost) AS cost,\n    currency\n  FROM `my-project.billing.gcp_billing_export`\n  WHERE DATE(usage_start_time) >= DATE_SUB(CURRENT_DATE(), INTERVAL 30 DAY)\n  GROUP BY service_description, currency\n  HAVING cost > 0\n  ORDER BY cost DESC\n),\ntotal AS (\n  SELECT SUM(cost) AS total_cost, currency\n  FROM billing_data\n  GROUP BY currency\n)\nSELECT\n  bd.service_description,\n  bd.cost,\n  bd.currency,\n  t.total_cost\nFROM billing_data bd\nJOIN total t ON bd.currency = t.currency\nORDER BY bd.cost DESC\n";
    assert_eq!(build_query(&settings(30)), expected);
}

#[test]
fn build_query_names_the_table_and_the_days() {
    let settings = BigQuerySettings {
        project_id: "p".to_string(),
        dataset: "d".to_string(),
        table: "t".to_string(),
        days_to_report: 7,
    };
    let query = build_query(&settings);
    assert!(query.contains("FROM `p.d.t`\n"));
    assert!(query.contains("INTERVAL 7 DAY)"));
    assert!(!query.contains("INTERVAL 30 DAY)"));
}

#[test]
fn build_query_selects_the_columns_by_their_names() {
    let query = build_query(&settings(30));
    assert_eq!(Column::ServiceDescription.name(), "service_description");
    assert_eq!(Column::Cost.name(), "cost");
    assert_eq!(Column::Currency.name(), "currency");
    assert_eq!(Column::TotalCost.name(), "total_cost");
    assert!(query.contains("bd.service_description,"));
    assert!(query.contains("bd.cost,"));
    assert!(query.contains("bd.currency,"));
    assert!(query.contains("t.total_cost\n"));
}

#[test]
fn summary_of_an_ordered_result_keeps_order_and_total() {
    let rows = vec![
        row("Compute Engine", 50000, "EUR", 81234),
        row("BigQuery", 30000, "EUR", 81234),
        row("Cloud Storage", 1234, "EUR", 81234),
        row("Networking", 0, "EUR", 81234),
    ];
    let summary = get_billing_data(&settings(30), &rows).unwrap();
    assert_eq!(summary.total_cost, Amount::new(81234));
    assert_eq!(summary.currency, "EUR");
    assert_eq!(summary.period_days, 30);
    assert_eq!(summary.services.len(), 4);
    let names: Vec<&str> =
        summary.services.iter().map(|s| s.service_description.as_str()).collect();
    assert_eq!(names, vec!["Compute Engine", "BigQuery", "Cloud Storage", "Networking"]);
    assert!(summary.services.windows(2).all(|w| w[0].cost.hundredths >= w[1].cost.hundredths));
    assert!(summary.services.iter().all(|s| s.currency == "EUR"));
}

#[test]
fn summary_of_no_rows_is_empty() {
    let summary = get_billing_data(&settings(30), &Vec::new());
    assert_eq!(
        summary,
        Ok(BillingSummary {
            total_cost: Amount::new(0),
            currency: String::new(),
            services: Vec::new(),
            period_days: 30,
        })
    );
}

#[test]
fn summary_keeps_the_rows_in_the_order_given() {
    let rows = vec![row("B", 1, "USD", 3), row("A", 2, "USD", 3)];
    let summary = get_billing_data(&settings(1), &rows).unwrap();
    assert_eq!(summary.services, vec![service("B", 1, "USD"), service("A", 2, "USD")]);
}

#[test]
fn summary_takes_total_and_currency_from_the_first_row() {
    let rows = vec![row("A", 500, "USD", 700), row("B", 200, "EUR", 200), row("C", 200, "USD", 700)];
    let summary = get_billing_data(&settings(30), &rows).unwrap();
    assert_eq!(summary.total_cost, Amount::new(700));
    assert_eq!(summary.currency, "USD");
    assert_eq!(summary.services[1], service("B", 200, "EUR"));
}

#[test]
fn summary_reads_empty_cells_as_nothing() {
    let rows = vec![
        RawRow {
            service_description: Cell::Null,
            cost: Cell::Null,
            currency: Cell::Null,
            total_cost: Cell::Null,
        },
        row("B", 200, "EUR", 200),
    ];
    let summary = get_billing_data(&settings(30), &rows).unwrap();
    assert_eq!(summary.total_cost, Amount::new(0));
    assert_eq!(summary.currency, "");
    assert_eq!(summary.services, vec![service("", 0, ""), service("B", 200, "EUR")]);
}

#[test]
fn summary_fails_on_a_cell_that_could_not_be_read() {
    let mut bad = row("B", 200, "USD", 700);
    bad.cost = Cell::Invalid { reason: "not a number".to_string() };
    let rows = vec![row("A", 500, "USD", 700), bad, row("C", 1, "USD", 700)];
    assert_eq!(
        get_billing_data(&settings(30), &rows),
        Err(RowError { row: 1, column: Column::Cost, reason: "not a number".to_string() })
    );
}

#[test]
fn summary_fails_on_the_first_such_cell() {
    let mut second = row("B", 200, "USD", 700);
    second.currency = invalid("second row, currency");
    second.total_cost = invalid("second row, total");
    let mut third = row("C", 1, "USD", 700);
    third.service_description = invalid("third row, service");
    let rows = vec![row("A", 500, "USD", 700), second, third];
    assert_eq!(
        get_billing_data(&settings(30), &rows),
        Err(RowError {
            row: 1,
            column: Column::Currency,
            reason: "second row, currency".to_string()
        })
    );
}

#[test]
fn summary_fails_on_each_column() {
    let mut rows = vec![row("A", 1, "USD", 1)];
    rows[0].total_cost = invalid("t");
    assert_eq!(
        get_billing_data(&settings(30), &rows),
        Err(RowError { row: 0, column: Column::TotalCost, reason: "t".to_string() })
    );
    rows[0].service_description = invalid("s");
    assert_eq!(
        get_billing_data(&settings(30), &rows),
        Err(RowError { row: 0, column: Column::ServiceDescription, reason: "s".to_string() })
    );
}

#[test]
fn row_error_message_names_row_column_and_reason() {
    let error = RowError { row: 12, column: Column::TotalCost, reason: "no such column".into() };
    assert_eq!(error.message(), "row 12, column total_cost: no such column");
}
