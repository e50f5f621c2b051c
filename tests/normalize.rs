use air_quality::ingest::LoadSummary;
use air_quality::record::{normalize_row, Item, PmAndYear, RowError, PLACEHOLDER};

fn row(cells: &[&str]) -> Vec<String> {
    cells.iter().map(|c| c.to_string()).collect()
}

fn magnitude(row: &[String], at: usize) -> Option<f64> {
    row.get(at).and_then(|c| c.parse::<f64>().ok())
}

fn normalize(cells: &[&str]) -> Result<Item<f64>, RowError> {
    let r = row(cells);
    let pm10 = magnitude(&r, 4);
    let pm25 = magnitude(&r, 6);
    normalize_row(&r, pm10, pm25)
}

#[test]
fn full_row_gives_both_readings() {
    let item = normalize(&["Europe", "Southern Europe", "Italy", "Rome", "25.5", "2023", "15.3", "2023"]).unwrap();
    assert_eq!(item.region, "Europe");
    assert_eq!(item.subregion, "Southern Europe");
    assert_eq!(item.country, "Italy");
    assert_eq!(item.city, "Rome");
    assert_eq!(item.pm10, PmAndYear::Present(25.5, 2023));
    assert_eq!(item.pm25, PmAndYear::Present(15.3, 2023));
}

#[test]
fn missing_subregion_gets_placeholder() {
    let item = normalize(&["Europe", "", "Italy", "Rome", "10.0", "2022", "", "2022"]).unwrap();
    assert_eq!(item.subregion, PLACEHOLDER);
    assert_eq!(item.country, "Italy");
    assert_eq!(item.pm10, PmAndYear::Present(10.0, 2022));
    assert_eq!(item.pm25, PmAndYear::Missing);
}

#[test]
fn short_row_gets_placeholder_country() {
    let item = normalize(&["Asia", "Eastern Asia"]);
    assert_eq!(item, Err(RowError::MissingCity));
    let item = normalize(&["Asia", "Eastern Asia", "", "Tokyo"]).unwrap();
    assert_eq!(item.country, PLACEHOLDER);
    assert_eq!(item.pm10, PmAndYear::Missing);
    assert_eq!(item.pm25, PmAndYear::Missing);
}

#[test]
fn non_numeric_pm10_is_missing() {
    let item = normalize(&["Europe", "Western Europe", "France", "Paris", "n/a", "2023", "12.0", "2023"]).unwrap();
    assert_eq!(item.pm10, PmAndYear::Missing);
    assert_eq!(item.pm25, PmAndYear::Present(12.0, 2023));
}

#[test]
fn empty_pm10_cell_is_missing_whatever_value() {
    let r = row(&["Europe", "Western Europe", "France", "Paris", "", "2023", "12.0", "2023"]);
    let item = normalize_row(&r, Some(3.0), Some(12.0)).unwrap();
    assert_eq!(item.pm10, PmAndYear::Missing);
}

#[test]
fn zero_reading_is_present() {
    let item = normalize(&["Europe", "Western Europe", "France", "Paris", "0", "2020", "0.0", "2020"]).unwrap();
    assert_eq!(item.pm10, PmAndYear::Present(0.0, 2020));
    assert_eq!(item.pm25, PmAndYear::Present(0.0, 2020));
}

#[test]
fn pm10_takes_pm25_year_when_own_is_bad() {
    let item = normalize(&["Europe", "Western Europe", "France", "Paris", "20.5", "unknown", "11.5", "2021"]).unwrap();
    assert_eq!(item.pm10, PmAndYear::Present(20.5, 2021));
    assert_eq!(item.pm25, PmAndYear::Present(11.5, 2021));
}

#[test]
fn pm25_takes_pm10_year_when_own_is_absent() {
    let item = normalize(&["Europe", "Western Europe", "France", "Paris", "20.5", "2019", "11.5"]).unwrap();
    assert_eq!(item.pm10, PmAndYear::Present(20.5, 2019));
    assert_eq!(item.pm25, PmAndYear::Present(11.5, 2019));
}

#[test]
fn no_year_at_all_is_missing() {
    let item = normalize(&["Europe", "Western Europe", "France", "Paris", "20.5", "", "11.5", "x"]).unwrap();
    assert_eq!(item.pm10, PmAndYear::Missing);
    assert_eq!(item.pm25, PmAndYear::Missing);
}

#[test]
fn year_outside_calendar_falls_back() {
    let item = normalize(&["Europe", "Western Europe", "France", "Paris", "20.5", "20000", "11.5", "2018"]).unwrap();
    assert_eq!(item.pm10, PmAndYear::Present(20.5, 2018));
    let item = normalize(&["Europe", "Western Europe", "France", "Paris", "20.5", "9999", "11.5", "-10000"]).unwrap();
    assert_eq!(item.pm10, PmAndYear::Present(20.5, 9999));
    assert_eq!(item.pm25, PmAndYear::Present(11.5, 9999));
}

#[test]
fn year_cells_follow_integer_syntax() {
    let item = normalize(&["Europe", "Western Europe", "France", "Paris", "20.5", "+2017", "11.5", " 2016"]).unwrap();
    assert_eq!(item.pm10, PmAndYear::Present(20.5, 2017));
    assert_eq!(item.pm25, PmAndYear::Present(11.5, 2017));
    let item = normalize(&["Europe", "Western Europe", "France", "Paris", "20.5", "2015.0", "11.5", "-44"]).unwrap();
    assert_eq!(item.pm10, PmAndYear::Present(20.5, -44));
}

#[test]
fn missing_region_is_rejected() {
    assert_eq!(
        normalize(&["", "Southern Europe", "Italy", "Rome", "25.5", "2023", "15.3", "2023"]),
        Err(RowError::MissingRegion)
    );
    assert_eq!(normalize(&[]), Err(RowError::MissingRegion));
}

#[test]
fn missing_city_is_rejected() {
    assert_eq!(
        normalize(&["Europe", "Southern Europe", "Italy", "", "25.5", "2023", "15.3", "2023"]),
        Err(RowError::MissingCity)
    );
}

#[test]
fn summary_counts_only_stored_rows() {
    let mut summary = LoadSummary::new();
    let rows: [&[&str]; 4] = [
        &["Europe", "Southern Europe", "Italy", "Rome", "25.5", "2023", "15.3", "2023"],
        &["", "Southern Europe", "Italy", "Rome"],
        &["Europe", "Southern Europe", "Italy", ""],
        &["Europe", "", "", "Milan"],
    ];
    for cells in rows {
        let outcome = normalize(cells);
        summary.count(&outcome);
    }
    assert_eq!(summary.inserted, 2);
    assert_eq!(summary.missing_region, 1);
    assert_eq!(summary.missing_city, 1);
}

#[test]
fn stored_columns_restore_the_record() {
    let item = normalize(&["Europe", "Southern Europe", "Italy", "Rome", "25.5", "", "", "2023"]).unwrap();
    assert_eq!(item.pm10, PmAndYear::Present(25.5, 2023));
    let back = Item::from_columns(
        item.region.clone(),
        item.subregion.clone(),
        item.country.clone(),
        item.city.clone(),
        item.pm10.value(),
        item.pm10.year().map(|y| y as i64),
        item.pm25.value(),
        item.pm25.year().map(|y| y as i64),
    );
    assert_eq!(back, item);
}

#[test]
fn restored_reading_takes_other_year() {
    assert_eq!(PmAndYear::from_columns(Some(4.5), None, Some(2020)), PmAndYear::Present(4.5, 2020));
    assert_eq!(PmAndYear::from_columns(Some(4.5), Some(2021), Some(2020)), PmAndYear::Present(4.5, 2021));
    assert_eq!(PmAndYear::from_columns(Some(4.5), Some(1 << 40), None), PmAndYear::Missing);
    assert_eq!(PmAndYear::<f64>::from_columns(None, Some(2021), Some(2020)), PmAndYear::Missing);
    assert_eq!(PmAndYear::<f64>::Missing.value(), None);
    assert_eq!(PmAndYear::Present(1.5, 1999).year(), Some(1999));
}
