use vstd::prelude::*;

use crate::interpret::{interpret, statement_of};
use crate::tokenize::{tokenize, tokens_of, views};
use crate::types::{Report, ReportModel, ReportType, Setting, SettingModel};

verus! {

pub open spec fn is_separator(c: char) -> bool {
    c == '\n' || c == ';'
}

/// The pieces of `s` between separators (one more than there are
/// separators; empty pieces included).
pub open spec fn split_lines(s: Seq<char>) -> Seq<Seq<char>>
    decreases s.len(),
{
    if s.len() == 0 {
        seq![Seq::empty()]
    } else {
        let rest = split_lines(s.drop_last());
        if is_separator(s.last()) {
            rest.push(Seq::empty())
        } else {
            rest.update(rest.len() - 1, rest.last().push(s.last()))
        }
    }
}

/// The report that line number `number`, of text `line`, gives: one for a
/// `name: type = value` whose annotation and value differ in type.
pub open spec fn report_for(line: Seq<char>, number: nat) -> Option<ReportModel> {
    match statement_of(tokens_of(line)) {
        Some(SettingModel::VariableDefinition(name, a, v)) => if a != v {
            Some(
                ReportModel {
                    t: ReportType::DeclarationAssignmentDisparity,
                    line,
                    i: number,
                    symbol: name,
                },
            )
        } else {
            None
        },
        _ => None,
    }
}

/// The reports of the first `k` lines, in order.
pub open spec fn reports_upto(lines: Seq<Seq<char>>, k: nat) -> Seq<ReportModel>
    decreases k,
{
    if k == 0 {
        Seq::empty()
    } else {
        let before = reports_upto(lines, (k - 1) as nat);
        match report_for(lines[k - 1], k) {
            Some(r) => before.push(r),
            None => before,
        }
    }
}

/// The reports of a whole text.
pub open spec fn reports_of(code: Seq<char>) -> Seq<ReportModel> {
    let lines = split_lines(code);
    reports_upto(lines, lines.len())
}

pub open spec fn report_views(v: Seq<Report>) -> Seq<ReportModel> {
    v.map_values(|r: Report| r@)
}

proof fn lemma_split_lines_nonempty(s: Seq<char>)
    ensures
        split_lines(s).len() >= 1,
        split_lines(s).len() <= s.len() + 1,
    decreases s.len(),
{
    if s.len() > 0 {
        lemma_split_lines_nonempty(s.drop_last());
    }
}

fn split_code(code: &str) -> (r: Vec<String>)
    ensures
        views(r@) == split_lines(code@),
{
    let mut out: Vec<String> = Vec::new();
    let mut cur = String::new();
    for c in it: code.chars()
        invariant
            it.seq() == code@,
            split_lines(code@.take(it.index() as int)) == views(out@).push(cur@),
    {
        let ghost i = it.index();
        let ghost o = views(out@);
        assert(code@.take(i + 1).drop_last() =~= code@.take(i as int));
        if c == '\n' || c == ';' {
            out.push(cur);
            cur = String::new();
            assert(views(out@) =~= o.push(split_lines(code@.take(i as int)).last()));
            assert(split_lines(code@.take(i + 1)) =~= views(out@).push(cur@));
        } else {
            cur.push(c);
            assert(split_lines(code@.take(i + 1)) =~= views(out@).push(cur@));
        }
    }
    assert(code@.take(code@.len() as int) =~= code@);
    let ghost o = views(out@);
    out.push(cur);
    assert(views(out@) =~= o.push(cur@));
    out
}

/// Checks every line of a text (lines end at a newline or a `;`) and
/// reports, in line order, each `name: type = value` whose annotation and
/// value differ in type.
pub fn check(code: &str) -> (r: Vec<Report>)
    ensures
        report_views(r@) == reports_of(code@),
{
    let lines = split_code(code);
    let ghost ls = split_lines(code@);
    proof {
        lemma_split_lines_nonempty(code@);
    }
    let mut reports: Vec<Report> = Vec::new();
    let mut j: usize = 0;
    while j < lines.len()
        invariant
            views(lines@) == ls,
            j <= lines.len(),
            lines.len() <= code@.len() + 1,
            report_views(reports@) == reports_upto(ls, j as nat),
        decreases lines.len() - j,
    {
        let ghost before = reports@;
        let tokens = tokenize(lines[j].as_str());
        let setting = interpret(tokens);
        assert(lines@[j as int]@ == ls[j as int]);
        if let Some(Setting::VariableDefinition(name, tanot, tval)) = setting {
            if tanot != tval {
                reports.push(
                    Report {
                        t: ReportType::DeclarationAssignmentDisparity,
                        line: lines[j].clone(),
                        i: j + 1,
                        symbol: name,
                    },
                );
                assert(report_views(reports@) =~= report_views(before).push(reports@.last()@));
            }
        }
        j = j + 1;
    }
    reports
}

} // verus!
