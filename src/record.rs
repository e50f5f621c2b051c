//! Records and their measurements: the normaliser that builds a record from a
//! raw row, and the reconstruction of a record from stored columns.
//!
//! A magnitude is generic (`V`): the library only carries it, and the caller
//! decides how a magnitude cell is parsed.

use vstd::prelude::*;
use crate::calendar::{has_first_day, is_calendar_year};
use crate::decimal::{parse_i32, parsed_i32};

verus! {

/// Text that stands in for an absent subregion or country.
pub const PLACEHOLDER: &'static str = "unknown";

/// Column of each field in a raw row.
pub const REGION: usize = 0;
pub const SUBREGION: usize = 1;
pub const COUNTRY: usize = 2;
pub const CITY: usize = 3;
pub const PM10: usize = 4;
pub const PM10_YEAR: usize = 5;
pub const PM25: usize = 6;
pub const PM25_YEAR: usize = 7;

/// One pollutant reading: a magnitude and the year it was taken, or nothing.
#[derive(Debug, Clone, Copy, PartialEq)]
pub enum PmAndYear<V> {
    Present(V, i32),
    Missing,
}

/// One location's observation.
#[derive(Debug, Clone, PartialEq)]
pub struct Item<V> {
    pub region: String,
    pub subregion: String,
    pub country: String,
    pub city: String,
    pub pm10: PmAndYear<V>,
    pub pm25: PmAndYear<V>,
}

/// Why a raw row yields no record.
#[derive(Debug, Clone, Copy, PartialEq, Eq)]
pub enum RowError {
    MissingRegion,
    MissingCity,
}

/// The text of cell `i` of `row`, where the row has that cell and it is not
/// empty.
pub open spec fn cell(row: Seq<String>, i: int) -> Option<Seq<char>> {
    if 0 <= i < row.len() && row[i]@.len() > 0 {
        Some(row[i]@)
    } else {
        None
    }
}

/// The calendar year that a year cell holds, if it holds one.
pub open spec fn year_of(c: Option<Seq<char>>) -> Option<i32> {
    match c {
        Some(t) => match parsed_i32(t) {
            Some(y) => if is_calendar_year(y as int) {
                Some(y)
            } else {
                None
            },
            None => None,
        },
        None => None,
    }
}

/// The pollutant's own year where it has one, else the other pollutant's.
pub open spec fn first_year(own: Option<i32>, other: Option<i32>) -> Option<i32> {
    if own is Some {
        own
    } else {
        other
    }
}

/// A reading with magnitude and year when both are there, else `Missing`.
pub open spec fn reading<V>(value: Option<V>, year: Option<i32>) -> PmAndYear<V> {
    match (value, year) {
        (Some(v), Some(y)) => PmAndYear::Present(v, y),
        _ => PmAndYear::Missing,
    }
}

/// The measurement that a row gives for the pollutant whose magnitude sits in
/// column `at` and parses to `value`, with its year in column `own` and the
/// fallback year in column `other`.
pub open spec fn measurement_of<V>(
    row: Seq<String>,
    at: int,
    value: Option<V>,
    own: int,
    other: int,
) -> PmAndYear<V> {
    if cell(row, at) is Some {
        reading(value, first_year(year_of(cell(row, own)), year_of(cell(row, other))))
    } else {
        PmAndYear::Missing
    }
}

/// The cell's text, or the placeholder where the cell is absent.
pub open spec fn text_or_placeholder(c: Option<Seq<char>>) -> Seq<char> {
    match c {
        Some(t) => t,
        None => PLACEHOLDER@,
    }
}

/// A measurement whose year, if any, is a calendar year.
pub open spec fn reading_well_formed<V>(m: PmAndYear<V>) -> bool {
    match m {
        PmAndYear::Present(_, y) => is_calendar_year(y as int),
        PmAndYear::Missing => true,
    }
}

/// The magnitude column stored for a measurement.
pub open spec fn stored_value<V>(m: PmAndYear<V>) -> Option<V> {
    match m {
        PmAndYear::Present(v, _) => Some(v),
        PmAndYear::Missing => None,
    }
}

/// The year column stored for a measurement.
pub open spec fn stored_year<V>(m: PmAndYear<V>) -> Option<i32> {
    match m {
        PmAndYear::Present(_, y) => Some(y),
        PmAndYear::Missing => None,
    }
}

/// A stored year read back as an `i64` column.
pub open spec fn widened(y: Option<i32>) -> Option<i64> {
    match y {
        Some(v) => Some(v as i64),
        None => None,
    }
}

/// The calendar year that a stored year column holds, if it holds one.
pub open spec fn column_year(y: Option<i64>) -> Option<i32> {
    match y {
        Some(v) => if is_calendar_year(v as int) {
            Some(v as i32)
        } else {
            None
        },
        None => None,
    }
}

/// The measurement rebuilt from its stored magnitude and year, with the other
/// pollutant's stored year as fallback.
pub open spec fn restored<V>(
    value: Option<V>,
    year: Option<i64>,
    other_year: Option<i64>,
) -> PmAndYear<V> {
    reading(value, first_year(column_year(year), column_year(other_year)))
}

impl<V> PmAndYear<V> {
    /// Rebuilds a measurement from its stored columns.
    pub fn from_columns(value: Option<V>, year: Option<i64>, other_year: Option<i64>) -> (r: Self)
        ensures
            r == restored(value, year, other_year),
    {
        match value {
            Some(v) => match first_of(column_to_year(year), column_to_year(other_year)) {
                Some(y) => PmAndYear::Present(v, y),
                None => PmAndYear::Missing,
            },
            None => PmAndYear::Missing,
        }
    }

    /// The year column to store.
    pub fn year(&self) -> (r: Option<i32>)
        ensures
            r == stored_year(*self),
    {
        match self {
            PmAndYear::Present(_, y) => Some(*y),
            PmAndYear::Missing => None,
        }
    }
}

impl<V: Copy> PmAndYear<V> {
    /// The magnitude column to store.
    pub fn value(&self) -> (r: Option<V>)
        ensures
            r == stored_value(*self),
    {
        match self {
            PmAndYear::Present(v, _) => Some(*v),
            PmAndYear::Missing => None,
        }
    }
}

fn first_of(own: Option<i32>, other: Option<i32>) -> (r: Option<i32>)
    ensures
        r == first_year(own, other),
{
    match own {
        Some(y) => Some(y),
        None => other,
    }
}

fn column_to_year(y: Option<i64>) -> (r: Option<i32>)
    ensures
        r == column_year(y),
{
    match y {
        Some(v) => if i32::MIN as i64 <= v && v <= i32::MAX as i64 && has_first_day(v as i32) {
            Some(v as i32)
        } else {
            None
        },
        None => None,
    }
}

/// The text of cell `i`, where the row has it and it is not empty.
fn cell_text(row: &Vec<String>, i: usize) -> (r: Option<&String>)
    ensures
        match r {
            Some(s) => cell(row@, i as int) == Some(s@),
            None => cell(row@, i as int) is None,
        },
{
    if i < row.len() && !row[i].as_str().is_empty() {
        Some(&row[i])
    } else {
        None
    }
}

fn cell_year(row: &Vec<String>, i: usize) -> (r: Option<i32>)
    ensures
        r == year_of(cell(row@, i as int)),
{
    match cell_text(row, i) {
        Some(t) => match parse_i32(t.as_str()) {
            Some(y) => if has_first_day(y) {
                Some(y)
            } else {
                None
            },
            None => None,
        },
        None => None,
    }
}

fn cell_or_placeholder(row: &Vec<String>, i: usize) -> (r: String)
    ensures
        r@ == text_or_placeholder(cell(row@, i as int)),
{
    match cell_text(row, i) {
        Some(t) => t.clone(),
        None => PLACEHOLDER.to_owned(),
    }
}

fn measurement_from_row<V>(row: &Vec<String>, at: usize, value: Option<V>, own: usize, other: usize) -> (r: PmAndYear<V>)
    ensures
        r == measurement_of(row@, at as int, value, own as int, other as int),
{
    if cell_text(row, at).is_none() {
        return PmAndYear::Missing;
    }
    match value {
        Some(v) => match first_of(cell_year(row, own), cell_year(row, other)) {
            Some(y) => PmAndYear::Present(v, y),
            None => PmAndYear::Missing,
        },
        None => PmAndYear::Missing,
    }
}

impl<V> Item<V> {
    /// A record of the given fields.
    pub fn new(
        region: String,
        subregion: String,
        country: String,
        city: String,
        pm10: PmAndYear<V>,
        pm25: PmAndYear<V>,
    ) -> (r: Item<V>)
        ensures
            r == (Item { region, subregion, country, city, pm10, pm25 }),
    {
        Item { region, subregion, country, city, pm10, pm25 }
    }

    /// Every identifier is non-empty and every year is a calendar year.
    pub open spec fn well_formed(&self) -> bool {
        &&& self.region@.len() > 0
        &&& self.subregion@.len() > 0
        &&& self.country@.len() > 0
        &&& self.city@.len() > 0
        &&& reading_well_formed(self.pm10)
        &&& reading_well_formed(self.pm25)
    }

    /// The record that stored columns describe.
    pub open spec fn restored(
        region: String,
        subregion: String,
        country: String,
        city: String,
        pm10: Option<V>,
        pm10_year: Option<i64>,
        pm25: Option<V>,
        pm25_year: Option<i64>,
    ) -> Item<V> {
        Item {
            region,
            subregion,
            country,
            city,
            pm10: restored(pm10, pm10_year, pm25_year),
            pm25: restored(pm25, pm25_year, pm10_year),
        }
    }

    /// Rebuilds a record from the columns of its stored row. A measurement
    /// whose own year column is empty takes the other pollutant's year.
    pub fn from_columns(
        region: String,
        subregion: String,
        country: String,
        city: String,
        pm10: Option<V>,
        pm10_year: Option<i64>,
        pm25: Option<V>,
        pm25_year: Option<i64>,
    ) -> (r: Item<V>)
        ensures
            r == Item::restored(region, subregion, country, city, pm10, pm10_year, pm25, pm25_year),
    {
        Item {
            region,
            subregion,
            country,
            city,
            pm10: PmAndYear::from_columns(pm10, pm10_year, pm25_year),
            pm25: PmAndYear::from_columns(pm25, pm25_year, pm10_year),
        }
    }
}

/// Normalises one raw row (region, subregion, country, city, pm10, pm10 year,
/// pm2.5, pm2.5 year) into a record. A cell is absent where the row is too
/// short or the cell is empty. `pm10` and `pm25` are what the two magnitude
/// cells parse to, `None` where a cell is absent or not a number.
pub fn normalize_row<V>(row: &Vec<String>, pm10: Option<V>, pm25: Option<V>) -> (r: Result<Item<V>, RowError>)
    ensures
        cell(row@, REGION as int) is None ==> r == Err::<Item<V>, RowError>(RowError::MissingRegion),
        cell(row@, REGION as int) is Some && cell(row@, CITY as int) is None
            ==> r == Err::<Item<V>, RowError>(RowError::MissingCity),
        cell(row@, REGION as int) is Some && cell(row@, CITY as int) is Some ==> {
            &&& r is Ok
            &&& r->Ok_0.region@ == cell(row@, REGION as int)->0
            &&& r->Ok_0.subregion@ == text_or_placeholder(cell(row@, SUBREGION as int))
            &&& r->Ok_0.country@ == text_or_placeholder(cell(row@, COUNTRY as int))
            &&& r->Ok_0.city@ == cell(row@, CITY as int)->0
            &&& r->Ok_0.pm10 == measurement_of(row@, PM10 as int, pm10, PM10_YEAR as int, PM25_YEAR as int)
            &&& r->Ok_0.pm25 == measurement_of(row@, PM25 as int, pm25, PM25_YEAR as int, PM10_YEAR as int)
        },
        r is Ok ==> r->Ok_0.well_formed(),
{
    let region = match cell_text(row, REGION) {
        Some(t) => t.clone(),
        None => return Err(RowError::MissingRegion),
    };
    let city = match cell_text(row, CITY) {
        Some(t) => t.clone(),
        None => return Err(RowError::MissingCity),
    };
    proof {
        reveal_strlit("unknown");
    }
    Ok(Item {
        region,
        subregion: cell_or_placeholder(row, SUBREGION),
        country: cell_or_placeholder(row, COUNTRY),
        city,
        pm10: measurement_from_row(row, PM10, pm10, PM10_YEAR, PM25_YEAR),
        pm25: measurement_from_row(row, PM25, pm25, PM25_YEAR, PM10_YEAR),
    })
}


/// A row whose pm10 cell parses to `v` and whose pm10 year cell holds the
/// calendar year `y` gives the pm10 reading `Present(v, y)`.
pub proof fn lemma_parsed_pm10_is_kept<V>(row: Seq<String>, v: V, y: i32)
    requires
        cell(row, PM10 as int) is Some,
        cell(row, PM10_YEAR as int) is Some,
        parsed_i32(cell(row, PM10_YEAR as int)->0) == Some(y),
        is_calendar_year(y as int),
    ensures
        measurement_of(row, PM10 as int, Some(v), PM10_YEAR as int, PM25_YEAR as int)
            == PmAndYear::Present(v, y),
{
}

/// A row whose pm10 cell is absent, empty or not a number gives a missing
/// pm10 reading, whatever its year cells hold.
pub proof fn lemma_unparsed_pm10_is_missing<V>(row: Seq<String>, value: Option<V>)
    requires
        cell(row, PM10 as int) is None || value is None,
    ensures
        measurement_of(row, PM10 as int, value, PM10_YEAR as int, PM25_YEAR as int)
            == PmAndYear::<V>::Missing,
{
}

/// A row whose pm10 year cell holds no calendar year takes the pm2.5 year
/// for a pm10 reading that parsed.
pub proof fn lemma_pm10_takes_pm25_year<V>(row: Seq<String>, v: V, y: i32)
    requires
        cell(row, PM10 as int) is Some,
        year_of(cell(row, PM10_YEAR as int)) is None,
        cell(row, PM25_YEAR as int) is Some,
        parsed_i32(cell(row, PM25_YEAR as int)->0) == Some(y),
        is_calendar_year(y as int),
    ensures
        measurement_of(row, PM10 as int, Some(v), PM10_YEAR as int, PM25_YEAR as int)
            == PmAndYear::Present(v, y),
{
}

/// Storing a well-formed record's columns and rebuilding the record from
/// them gives back the same record.
pub proof fn lemma_columns_round_trip<V>(item: Item<V>)
    requires
        item.well_formed(),
    ensures
        Item::restored(
            item.region,
            item.subregion,
            item.country,
            item.city,
            stored_value(item.pm10),
            widened(stored_year(item.pm10)),
            stored_value(item.pm25),
            widened(stored_year(item.pm25)),
        ) == item,
{
}

} // verus!
