//! The report renderer's content contract: one row per catalog entry in
//! catalog order, each carrying the fact's rendering and the provenance
//! tag, followed by one sub-row per wrapper function with one line per
//! checker outcome. Producing the rows is a pure read of the catalog; the
//! markup technology around them is an external concern.

use crate::checker::{spec_env_short_text, spec_error_log, CppCheckerInfo, CppCheckerInfoView};
use crate::database::{
    CppFfiMethodView, Database, DatabaseItemSource, DatabaseItemSourceView, DatabaseItemView,
};
use crate::facts::spec_item_text;
use vstd::prelude::*;

verus! {

/// The verbatim tag of a provenance, as the report renders it.
pub open spec fn spec_source_tag(s: DatabaseItemSourceView) -> Seq<char> {
    match s {
        DatabaseItemSourceView::CppParser { .. } => "CppParser"@,
        DatabaseItemSourceView::Destructor => "Destructor"@,
        DatabaseItemSourceView::TemplateInstantiation => "TemplateInstantiation"@,
        DatabaseItemSourceView::SignalArguments => "SignalArguments"@,
    }
}

/// One line per checker outcome: the environment's short text and the
/// outcome's log rendering.
pub open spec fn spec_check_line(c: CppCheckerInfoView) -> Seq<char> {
    spec_env_short_text(c.env) + ": "@ + spec_error_log(c.error)
}

/// One sub-row per wrapper function.
#[verifier::ext_equal]
pub struct FfiMethodRowView {
    pub method_text: Seq<char>,
    pub check_lines: Seq<Seq<char>>,
}

/// One report row per catalog entry.
#[verifier::ext_equal]
pub struct ReportRowView {
    pub item_text: Seq<char>,
    pub source_text: Seq<char>,
    pub methods: Seq<FfiMethodRowView>,
}

/// The sub-row a wrapper function renders to.
pub open spec fn spec_ffi_row(m: CppFfiMethodView) -> FfiMethodRowView {
    FfiMethodRowView {
        method_text: m.short_text,
        check_lines: m.checks.map_values(|c: CppCheckerInfoView| spec_check_line(c)),
    }
}

/// The row a catalog entry renders to.
pub open spec fn spec_report_row(it: DatabaseItemView) -> ReportRowView {
    ReportRowView {
        item_text: spec_item_text(it.cpp_data),
        source_text: spec_source_tag(it.source),
        methods: it.cpp_ffi_methods.map_values(|m: CppFfiMethodView| spec_ffi_row(m)),
    }
}

/// One rendered sub-row for a wrapper function: its short signature text
/// and one line per checker outcome.
pub struct FfiMethodRow {
    pub method_text: String,
    pub check_lines: Vec<String>,
}

impl View for FfiMethodRow {
    type V = FfiMethodRowView;

    open spec fn view(&self) -> FfiMethodRowView {
        FfiMethodRowView {
            method_text: self.method_text@,
            check_lines: self.check_lines@.map_values(|s: String| s@),
        }
    }
}

/// One rendered report row for a catalog entry: the fact's rendering, the
/// provenance tag, and the entry's wrapper sub-rows.
pub struct ReportRow {
    pub item_text: String,
    pub source_text: String,
    pub methods: Vec<FfiMethodRow>,
}

impl View for ReportRow {
    type V = ReportRowView;

    open spec fn view(&self) -> ReportRowView {
        ReportRowView {
            item_text: self.item_text@,
            source_text: self.source_text@,
            methods: self.methods@.map_values(|m: FfiMethodRow| m@),
        }
    }
}

impl DatabaseItemSource {
    /// The provenance tag, as the report renders it.
    pub fn tag_text(&self) -> (r: String)
        ensures
            r@ == spec_source_tag(self@),
    {
        match self {
            DatabaseItemSource::CppParser { .. } => ("CppParser").to_owned(),
            DatabaseItemSource::Destructor => ("Destructor").to_owned(),
            DatabaseItemSource::TemplateInstantiation => ("TemplateInstantiation").to_owned(),
            DatabaseItemSource::SignalArguments => ("SignalArguments").to_owned(),
        }
    }
}

/// Renders the line for one checker outcome.
fn render_check_line(c: &CppCheckerInfo) -> (r: String)
    ensures
        r@ == spec_check_line(c@),
{
    let mut line = c.env.short_text();
    line.append(": ");
    let log = CppCheckerInfo::error_to_log(&c.error);
    line.append(log.as_str());
    proof {
        assert(line@ =~= spec_check_line(c@));
    }
    line
}

impl Database {
    /// Materializes the report rows for the current catalog state, one per
    /// catalog entry in catalog order. Pure read: the catalog is not
    /// changed, and repeated calls render the same rows.
    pub fn report_rows(&self) -> (rows: Vec<ReportRow>)
        ensures
            rows@.map_values(|r: ReportRow| r@) == self@.items.map_values(
                |it: DatabaseItemView| spec_report_row(it),
            ),
    {
        let mut rows: Vec<ReportRow> = Vec::new();
        let n = self.items.len();
        let mut i: usize = 0;
        while i < n
            invariant
                n == self.items@.len(),
                i <= n,
                rows@.len() == i,
                forall|t: int| 0 <= t < i ==> rows@[t]@ == spec_report_row(self@.items[t]),
            decreases n - i,
        {
            let item = &self.items[i];
            let mut methods: Vec<FfiMethodRow> = Vec::new();
            let m_count = item.cpp_ffi_methods.len();
            let mut j: usize = 0;
            while j < m_count
                invariant
                    m_count == item.cpp_ffi_methods@.len(),
                    j <= m_count,
                    methods@.len() == j,
                    forall|t: int|
                        0 <= t < j ==> methods@[t]@ == spec_ffi_row(item@.cpp_ffi_methods[t]),
                decreases m_count - j,
            {
                let ffi = &item.cpp_ffi_methods[j];
                let mut check_lines: Vec<String> = Vec::new();
                let c_count = ffi.checks.items.len();
                let mut k: usize = 0;
                while k < c_count
                    invariant
                        c_count == ffi.checks.items@.len(),
                        k <= c_count,
                        check_lines@.len() == k,
                        forall|t: int|
                            0 <= t < k ==> check_lines@[t]@ == spec_check_line(ffi@.checks[t]),
                    decreases c_count - k,
                {
                    check_lines.push(render_check_line(&ffi.checks.items[k]));
                    k += 1;
                }
                let row = FfiMethodRow { method_text: ffi.short_text.clone(), check_lines };
                proof {
                    assert(row@.check_lines =~= spec_ffi_row(ffi@).check_lines);
                    assert(row@ =~= spec_ffi_row(ffi@));
                    assert(item@.cpp_ffi_methods[j as int] == ffi@);
                }
                methods.push(row);
                j += 1;
            }
            let row = ReportRow {
                item_text: item.cpp_data.to_text(),
                source_text: item.source.tag_text(),
                methods,
            };
            proof {
                assert(row@.methods =~= spec_report_row(item@).methods);
                assert(row@ =~= spec_report_row(item@));
                assert(item@ == self@.items[i as int]);
            }
            rows.push(row);
            i += 1;
        }
        proof {
            assert(rows@.map_values(|r: ReportRow| r@) =~= self@.items.map_values(
                |it: DatabaseItemView| spec_report_row(it),
            ));
        }
        rows
    }
}

} // verus!
