//! The console reporter: decoded observations rendered as a fixed-width
//! table, one header line and one right-aligned row per record.

use vstd::prelude::*;
use vstd::string::StrSliceExecFns;
use vstd::string::StringExecFns;

use crate::observation::AqiData;
use crate::text::count_char;
use crate::text::dec_u64;
use crate::text::lemma_count_char_concat;
use crate::text::lemma_count_char_single;
use crate::text::lemma_dec_no_newline;
use crate::text::lemma_pad_count;
use crate::text::pad_left;
use crate::text::spec_dec;
use crate::text::spec_pad_left;

verus! {

/// The table's column widths: date, hour, pollutant name, index value.
pub open spec fn date_width() -> int {
    10
}

pub open spec fn hour_width() -> int {
    10
}

pub open spec fn parameter_width() -> int {
    12
}

pub open spec fn aqi_width() -> int {
    10
}

/// The header line of the table.
pub open spec fn spec_header() -> Seq<char> {
    spec_pad_left("Date"@, date_width()) + spec_pad_left("Hour"@, hour_width()) + spec_pad_left(
        "Parameter"@,
        parameter_width(),
    ) + spec_pad_left("AQI"@, aqi_width()) + "\n"@
}

/// One record's line: each field right-aligned to its column width.
pub open spec fn spec_row(item: AqiData) -> Seq<char> {
    spec_pad_left(item.date_observed@, date_width()) + spec_pad_left(
        spec_dec(item.hour_observed as int),
        hour_width(),
    ) + spec_pad_left(item.parameter_name@, parameter_width()) + spec_pad_left(
        spec_dec(item.aqi as int),
        aqi_width(),
    ) + "\n"@
}

/// All record lines, in input order.
pub open spec fn spec_rows(items: Seq<AqiData>) -> Seq<char>
    decreases items.len(),
{
    if items.len() == 0 {
        Seq::empty()
    } else {
        spec_rows(items.drop_last()) + spec_row(items.last())
    }
}

/// The whole report: the fixed empty-response text for an empty batch, and
/// the header followed by one line per record otherwise.
pub open spec fn spec_report(items: Seq<AqiData>) -> Seq<char> {
    if items.len() == 0 {
        "Empty response\n"@
    } else {
        spec_header() + spec_rows(items)
    }
}

/// A record whose text fields carry no line break, so that it occupies
/// exactly one line of the table.
pub open spec fn wf_record(item: AqiData) -> bool {
    count_char(item.date_observed@, '\n') == 0 && count_char(item.parameter_name@, '\n') == 0
}

fn render_header() -> (r: String)
    ensures
        r@ == spec_header(),
{
    let mut out = pad_left("Date", 10);
    out.append(pad_left("Hour", 10).as_str());
    out.append(pad_left("Parameter", 12).as_str());
    out.append(pad_left("AQI", 10).as_str());
    out.append("\n");
    proof {
        assert(out@ =~= spec_header());
    }
    out
}

fn render_row(item: &AqiData) -> (r: String)
    ensures
        r@ == spec_row(*item),
{
    let mut out = pad_left(item.date_observed.as_str(), 10);
    out.append(pad_left(dec_u64(item.hour_observed as u64).as_str(), 10).as_str());
    out.append(pad_left(item.parameter_name.as_str(), 12).as_str());
    out.append(pad_left(dec_u64(item.aqi as u64).as_str(), 10).as_str());
    out.append("\n");
    proof {
        assert(out@ =~= spec_row(*item));
    }
    out
}

/// Renders the whole batch, exactly as `spec_report` describes: the literal
/// empty-response text for an empty batch, else a header line followed by
/// one right-aligned row per record.
pub fn render_report(items: &Vec<AqiData>) -> (r: String)
    ensures
        r@ == spec_report(items@),
{
    if items.len() == 0 {
        "Empty response\n".to_owned()
    } else {
        let mut out = render_header();
        let mut i: usize = 0;
        while i < items.len()
            invariant
                i <= items@.len(),
                out@ == spec_header() + spec_rows(items@.take(i as int)),
            decreases items@.len() - i,
        {
            out.append(render_row(&items[i]).as_str());
            proof {
                let s = items@;
                assert(s.take(i + 1).drop_last() =~= s.take(i as int));
                assert(s.take(i + 1).last() == s[i as int]);
                assert(out@ =~= spec_header() + spec_rows(s.take(i + 1)));
            }
            i = i + 1;
        }
        proof {
            assert(items@.take(items@.len() as int) =~= items@);
        }
        out
    }
}

proof fn lemma_header_one_line()
    ensures
        count_char(spec_header(), '\n') == 1,
{
    reveal_strlit("Date");
    reveal_strlit("Hour");
    reveal_strlit("Parameter");
    reveal_strlit("AQI");
    reveal_strlit("\n");
    let a = spec_pad_left("Date"@, date_width());
    let b = spec_pad_left("Hour"@, hour_width());
    let c = spec_pad_left("Parameter"@, parameter_width());
    let d = spec_pad_left("AQI"@, aqi_width());
    lemma_pad_count("Date"@, date_width(), '\n');
    lemma_pad_count("Hour"@, hour_width(), '\n');
    lemma_pad_count("Parameter"@, parameter_width(), '\n');
    lemma_pad_count("AQI"@, aqi_width(), '\n');
    crate::text::lemma_count_char_absent("Date"@, '\n');
    crate::text::lemma_count_char_absent("Hour"@, '\n');
    crate::text::lemma_count_char_absent("Parameter"@, '\n');
    crate::text::lemma_count_char_absent("AQI"@, '\n');
    assert("\n"@ =~= seq!['\n']);
    lemma_count_char_single('\n', '\n');
    lemma_count_char_concat(a, b, '\n');
    lemma_count_char_concat(a + b, c, '\n');
    lemma_count_char_concat(a + b + c, d, '\n');
    lemma_count_char_concat(a + b + c + d, "\n"@, '\n');
}

/// A well-formed record's row holds exactly the one newline that ends it.
proof fn lemma_row_one_line(item: AqiData)
    requires
        wf_record(item),
    ensures
        count_char(spec_row(item), '\n') == 1,
{
    reveal_strlit("\n");
    let a = spec_pad_left(item.date_observed@, date_width());
    let b = spec_pad_left(spec_dec(item.hour_observed as int), hour_width());
    let c = spec_pad_left(item.parameter_name@, parameter_width());
    let d = spec_pad_left(spec_dec(item.aqi as int), aqi_width());
    lemma_pad_count(item.date_observed@, date_width(), '\n');
    lemma_pad_count(spec_dec(item.hour_observed as int), hour_width(), '\n');
    lemma_pad_count(item.parameter_name@, parameter_width(), '\n');
    lemma_pad_count(spec_dec(item.aqi as int), aqi_width(), '\n');
    lemma_dec_no_newline(item.hour_observed as int);
    lemma_dec_no_newline(item.aqi as int);
    assert("\n"@ =~= seq!['\n']);
    lemma_count_char_single('\n', '\n');
    lemma_count_char_concat(a, b, '\n');
    lemma_count_char_concat(a + b, c, '\n');
    lemma_count_char_concat(a + b + c, d, '\n');
    lemma_count_char_concat(a + b + c + d, "\n"@, '\n');
}

/// Law: for a well-formed, non-empty batch, the report is the header
/// followed by the records' rows in order, and it holds exactly one line per
/// record plus the one header line.
pub proof fn lemma_report_shape(items: Seq<AqiData>)
    requires
        items.len() > 0,
        forall|i: int| 0 <= i < items.len() ==> wf_record(#[trigger] items[i]),
    ensures
        spec_report(items) == spec_header() + spec_rows(items),
        count_char(spec_report(items), '\n') == 1 + items.len(),
    decreases items.len(),
{
    lemma_header_one_line();
    lemma_rows_line_count(items);
    lemma_count_char_concat(spec_header(), spec_rows(items), '\n');
}

/// Each well-formed record contributes exactly one line.
proof fn lemma_rows_line_count(items: Seq<AqiData>)
    requires
        forall|i: int| 0 <= i < items.len() ==> wf_record(#[trigger] items[i]),
    ensures
        count_char(spec_rows(items), '\n') == items.len(),
    decreases items.len(),
{
    if items.len() > 0 {
        lemma_rows_line_count(items.drop_last());
        lemma_row_one_line(items.last());
        lemma_count_char_concat(spec_rows(items.drop_last()), spec_row(items.last()), '\n');
    }
}

} // verus!
