//! The text of a look-up's result: one line per record.

use vstd::prelude::*;
use crate::decimal::{i32_text, int_text};
use crate::record::{Item, PmAndYear};

verus! {

/// Text of a measurement that is missing.
pub const MISSING: &'static str = "missing";

/// Text between a magnitude and its year.
pub const YEAR_TAG: &'static str = ", year: ";

/// The text of a measurement whose magnitude is already text.
pub open spec fn reading_text(m: PmAndYear<String>) -> Seq<char> {
    match m {
        PmAndYear::Present(v, y) => v@ + YEAR_TAG@ + int_text(y as int),
        PmAndYear::Missing => MISSING@,
    }
}

/// The line of one record.
pub open spec fn line_text(item: Item<String>) -> Seq<char> {
    "region "@ + item.region@ + " subregion "@ + item.subregion@ + " country "@ + item.country@
        + " city "@ + item.city@ + " | "@ + reading_text(item.pm10) + " "@ + reading_text(item.pm25)
}

/// The lines joined with a newline between each two.
pub open spec fn joined(lines: Seq<Seq<char>>) -> Seq<char>
    decreases lines.len(),
{
    if lines.len() == 0 {
        Seq::empty()
    } else if lines.len() == 1 {
        lines[0]
    } else {
        joined(lines.drop_last()) + seq!['\n'] + lines.last()
    }
}

/// The lines of some records, in order.
pub open spec fn lines_of(items: Seq<Item<String>>) -> Seq<Seq<char>> {
    items.map_values(|i: Item<String>| line_text(i))
}

fn append_reading(out: &mut String, m: &PmAndYear<String>)
    ensures
        final(out)@ == old(out)@ + reading_text(*m),
{
    match m {
        PmAndYear::Present(v, y) => {
            out.append(v.as_str());
            out.append(YEAR_TAG);
            let year = i32_text(*y);
            out.append(year.as_str());
        },
        PmAndYear::Missing => {
            out.append(MISSING);
        },
    }
}

/// Renders one record, its magnitudes already as text:
/// `region R subregion S country C city Ci | pm10 pm25`.
pub fn render_line(item: &Item<String>) -> (r: String)
    ensures
        r@ == line_text(*item),
{
    let mut out = String::from_str("region ");
    out.append(item.region.as_str());
    out.append(" subregion ");
    out.append(item.subregion.as_str());
    out.append(" country ");
    out.append(item.country.as_str());
    out.append(" city ");
    out.append(item.city.as_str());
    out.append(" | ");
    append_reading(&mut out, &item.pm10);
    out.append(" ");
    append_reading(&mut out, &item.pm25);
    out
}

/// Renders records one per line, in the given order.
pub fn render_lines(items: &Vec<Item<String>>) -> (r: String)
    ensures
        r@ == joined(lines_of(items@)),
{
    let mut out = String::new();
    let mut i: usize = 0;
    while i < items.len()
        invariant
            0 <= i <= items.len(),
            out@ == joined(lines_of(items@.subrange(0, i as int))),
        decreases items.len() - i,
    {
        let line = render_line(&items[i]);
        proof {
            reveal_strlit("\n");
            assert(lines_of(items@.subrange(0, i + 1)).drop_last() =~= lines_of(
                items@.subrange(0, i as int),
            ));
        }
        if i > 0 {
            out.append("\n");
        } else {
            assert(out@ =~= Seq::<char>::empty());
        }
        out.append(line.as_str());
        i += 1;
    }
    assert(items@.subrange(0, items.len() as int) =~= items@);
    out
}

} // verus!
