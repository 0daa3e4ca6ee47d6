//! The report: one row per aggregated record, with the status and return code
//! found in its text, or the absent sentinel.
use vstd::prelude::*;
use vstd::string::StringExecFns;
use crate::model::{entry_row, field_text, header_text, nil_text, output_of, report_text, row_text};
use crate::passes::{aggregate, discover, AggregatedRecord};
use crate::pattern::{
    first_refused, opt_view, patterns_compile, ret_code_of, status_of, PatternError, Patterns,
};

verus! {

/// One output row: an identifier and the two fields found for it.
pub struct ReportRow {
    pub id: String,
    pub status: Option<String>,
    pub ret_code: Option<String>,
}

/// A captured value, or `nil`.
fn field_or_nil(v: &Option<String>) -> (r: String)
    ensures
        r@ == field_text(opt_view(*v)),
{
    match v {
        Some(s) => s.clone(),
        None => {
            proof {
                reveal_strlit("nil");
            }
            let r = String::from_str("nil");
            assert(r@ =~= nil_text());
            r
        },
    }
}

impl ReportRow {
    /// The row as printed: identifier, status and return code, separated by
    /// a comma and a space.
    pub fn render(&self) -> (r: String)
        ensures
            r@ == row_text(self.id@, opt_view(self.status), opt_view(self.ret_code)),
    {
        proof {
            reveal_strlit(", ");
        }
        let mut r = self.id.clone();
        r.append(", ");
        let status = field_or_nil(&self.status);
        r.append(status.as_str());
        r.append(", ");
        let ret_code = field_or_nil(&self.ret_code);
        r.append(ret_code.as_str());
        assert(r@ =~= row_text(self.id@, opt_view(self.status), opt_view(self.ret_code)));
        r
    }
}

/// The header line of the report.
pub fn header() -> (r: String)
    ensures
        r@ == header_text(),
{
    proof {
        reveal_strlit("ID, STATUS, RETCODE");
    }
    let r = String::from_str("ID, STATUS, RETCODE");
    assert(r@ =~= header_text());
    r
}

/// One row per record, in the records' order.
pub fn report_rows(patterns: &Patterns, rec: &AggregatedRecord) -> (r: Vec<ReportRow>)
    requires
        rec.wf(),
    ensures
        r.len() == rec@.len(),
        forall|k: int|
            0 <= k < r.len() ==> {
                &&& (#[trigger] r@[k]).id@ == rec@[k].0
                &&& opt_view(r@[k].status) == status_of(rec@[k].1)
                &&& opt_view(r@[k].ret_code) == ret_code_of(rec@[k].1)
            },
{
    let mut rows: Vec<ReportRow> = Vec::new();
    let mut k: usize = 0;
    while k < rec.len()
        invariant
            rec.wf(),
            k <= rec@.len(),
            rows.len() == k,
            forall|j: int|
                0 <= j < k ==> {
                    &&& (#[trigger] rows@[j]).id@ == rec@[j].0
                    &&& opt_view(rows@[j].status) == status_of(rec@[j].1)
                    &&& opt_view(rows@[j].ret_code) == ret_code_of(rec@[j].1)
                },
        decreases rec@.len() - k,
    {
        let (id, text) = rec.entry(k);
        let status = patterns.status(text.as_str());
        let ret_code = patterns.ret_code(text.as_str());
        rows.push(ReportRow { id: id.clone(), status, ret_code });
        k += 1;
    }
    rows
}

/// The printed report: the header, then each row rendered.
pub fn render_report(rows: &Vec<ReportRow>) -> (r: Vec<String>)
    ensures
        r.deep_view() == seq![header_text()] + rows@.map_values(
            |row: ReportRow| row_text(row.id@, opt_view(row.status), opt_view(row.ret_code)),
        ),
{
    let ghost rendered = rows@.map_values(
        |row: ReportRow| row_text(row.id@, opt_view(row.status), opt_view(row.ret_code)),
    );
    let mut out: Vec<String> = Vec::new();
    out.push(header());
    let mut k: usize = 0;
    while k < rows.len()
        invariant
            k <= rows.len(),
            rendered == rows@.map_values(
                |row: ReportRow| row_text(row.id@, opt_view(row.status), opt_view(row.ret_code)),
            ),
            out.deep_view() == seq![header_text()] + rendered.take(k as int),
        decreases rows.len() - k,
    {
        let line = rows[k].render();
        assert(line@ == rendered[k as int]);
        let ghost before = out.deep_view();
        out.push(line);
        assert(out.deep_view() =~= before.push(line@));
        assert(rendered.take(k + 1) =~= rendered.take(k as int).push(rendered[k as int]));
        assert(out.deep_view() =~= seq![header_text()] + rendered.take(k + 1));
        k += 1;
    }
    assert(rendered.take(k as int) =~= rendered);
    out
}

/// The whole pipeline on lines held in memory: discovery, aggregation, report.
///
/// Fails exactly where the regex crate refuses to compile a pattern, with the
/// error of the first one refused; otherwise the output is a function of the
/// lines and the two identifiers alone.
pub fn extract(lines: &Vec<String>, merchant: &str, product: &str) -> (r: Result<
    Vec<String>,
    PatternError,
>)
    ensures
        r is Ok <==> patterns_compile(merchant@, product@),
        r matches Err(e) ==> first_refused(merchant@, product@) == Some(e),
        r matches Ok(out) ==> out.deep_view() == output_of(lines.deep_view(), merchant@, product@),
{
    let patterns = match Patterns::new(merchant, product) {
        Ok(p) => p,
        Err(e) => return Err(e),
    };
    let ids = discover(&patterns, lines);
    let rec = aggregate(&patterns, &ids, lines);
    let rows = report_rows(&patterns, &rec);
    let out = render_report(&rows);
    proof {
        let rendered = rows@.map_values(
            |row: ReportRow| row_text(row.id@, opt_view(row.status), opt_view(row.ret_code)),
        );
        assert(rendered =~= rec@.map_values(|e: (Seq<char>, Seq<char>)| entry_row(e)));
        assert(out.deep_view() =~= report_text(rec@));
    }
    Ok(out)
}

} // verus!
