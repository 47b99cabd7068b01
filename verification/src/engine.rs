//! The search engine's line-local core: selection, counting, records.

use vstd::prelude::*;

verus! {

use crate::pattern::{regex_match, CompiledPattern};

/// The effective per-line condition: a raw match, flipped by `invert`.
pub open spec fn line_selected(
    pattern: Seq<char>,
    ignore_case: bool,
    invert: bool,
    line: Seq<char>,
) -> bool {
    regex_match(pattern, ignore_case, line) != invert
}

/// The views of a sequence of owned lines.
pub open spec fn line_views(lines: Seq<String>) -> Seq<Seq<char>> {
    lines.map_values(|l: String| l@)
}

/// One reported line: its 1-based number and its text, casing untouched.
pub struct MatchRecord {
    pub line_number: usize,
    pub text: String,
}

impl View for MatchRecord {
    type V = (int, Seq<char>);

    open spec fn view(&self) -> (int, Seq<char>) {
        (self.line_number as int, self.text@)
    }
}

/// The records a scan of `lines` produces: one per selected line, in line
/// order, carrying the 1-based line number and the line's unmodified text.
pub open spec fn selected_records(
    pattern: Seq<char>,
    ignore_case: bool,
    invert: bool,
    lines: Seq<Seq<char>>,
) -> Seq<(int, Seq<char>)>
    decreases lines.len(),
{
    if lines.len() == 0 {
        Seq::empty()
    } else {
        let init = selected_records(pattern, ignore_case, invert, lines.drop_last());
        if line_selected(pattern, ignore_case, invert, lines.last()) {
            init.push((lines.len() as int, lines.last()))
        } else {
            init
        }
    }
}

/// How many lines of `lines` satisfy the effective match condition.
pub open spec fn match_count(
    pattern: Seq<char>,
    ignore_case: bool,
    invert: bool,
    lines: Seq<Seq<char>>,
) -> nat
    decreases lines.len(),
{
    if lines.len() == 0 {
        0
    } else {
        match_count(pattern, ignore_case, invert, lines.drop_last()) + (
        if line_selected(pattern, ignore_case, invert, lines.last()) {
            1nat
        } else {
            0nat
        })
    }
}

/// The count is exactly the number of records: count mode and line mode agree
/// on every file.
pub proof fn lemma_count_equals_records(
    pattern: Seq<char>,
    ignore_case: bool,
    invert: bool,
    lines: Seq<Seq<char>>,
)
    ensures
        match_count(pattern, ignore_case, invert, lines) == selected_records(
            pattern,
            ignore_case,
            invert,
            lines,
        ).len(),
    decreases lines.len(),
{
    if lines.len() > 0 {
        lemma_count_equals_records(pattern, ignore_case, invert, lines.drop_last());
    }
}

/// Inversion selects exactly the complement, line by line.
pub proof fn lemma_invert_complement(
    pattern: Seq<char>,
    ignore_case: bool,
    line: Seq<char>,
)
    ensures
        line_selected(pattern, ignore_case, true, line) == !line_selected(
            pattern,
            ignore_case,
            false,
            line,
        ),
{
}

/// The effective condition partitions every processed line into reported /
/// not reported: the straight and the inverted run together account for each
/// line exactly once.
pub proof fn lemma_invert_partitions(
    pattern: Seq<char>,
    ignore_case: bool,
    lines: Seq<Seq<char>>,
)
    ensures
        match_count(pattern, ignore_case, false, lines) + match_count(
            pattern,
            ignore_case,
            true,
            lines,
        ) == lines.len(),
    decreases lines.len(),
{
    if lines.len() > 0 {
        lemma_invert_partitions(pattern, ignore_case, lines.drop_last());
    }
}

/// Scan `lines` and return one record per selected line, in line order.
pub fn scan_lines(cp: &CompiledPattern, invert: bool, lines: &Vec<String>) -> (r: Vec<MatchRecord>)
    ensures
        r@.map_values(|m: MatchRecord| m@) == selected_records(
            cp.spec_pattern(),
            cp.spec_ignore_case(),
            invert,
            line_views(lines@),
        ),
{
    let mut out: Vec<MatchRecord> = Vec::new();
    let mut i: usize = 0;
    while i < lines.len()
        invariant
            i <= lines.len(),
            out@.map_values(|m: MatchRecord| m@) == selected_records(
                cp.spec_pattern(),
                cp.spec_ignore_case(),
                invert,
                line_views(lines@).take(i as int),
            ),
        decreases lines.len() - i,
    {
        let matched = cp.matches(lines[i].as_str());
        let condition = if invert { !matched } else { matched };
        let ghost prefix = line_views(lines@).take(i as int);
        let ghost extended = line_views(lines@).take(i + 1);
        proof {
            assert(extended.drop_last() =~= prefix);
            assert(extended.last() == lines@[i as int]@);
        }
        if condition {
            out.push(MatchRecord { line_number: i + 1, text: lines[i].clone() });
        }
        proof {
            assert(out@.map_values(|m: MatchRecord| m@) =~= selected_records(
                cp.spec_pattern(),
                cp.spec_ignore_case(),
                invert,
                extended,
            ));
        }
        i = i + 1;
    }
    proof {
        assert(line_views(lines@).take(lines@.len() as int) =~= line_views(lines@));
    }
    out
}

use crate::report::{count_line_spec, format_count, format_match, label_view, match_line_spec};

/// A recoverable, path-scoped failure; never fatal to the run.
#[derive(Clone, Copy, PartialEq, Eq, Structural, Debug)]
pub enum PathError {
    InvalidPath,
    DirectoryNotRecursive,
    OpenFailed,
    ReadFailed,
}

/// What probing a target path found it to be.
#[derive(Clone, Copy, PartialEq, Eq, Structural, Debug)]
pub enum TargetKind {
    RegularFile,
    Directory,
    Other,
}

/// What the engine does with one target path.
#[derive(Clone, Copy, PartialEq, Eq, Structural, Debug)]
pub enum TargetAction {
    ScanSingleFile,
    WalkRecursive,
    RejectDirectory,
    RejectInvalid,
}

/// Decide how to treat a target: a regular file is scanned as itself, a
/// directory is walked only when recursion is on and is otherwise a path-level
/// error, and anything else is an invalid path.
pub fn classify_target(kind: TargetKind, recursive: bool) -> (r: TargetAction)
    ensures
        kind is RegularFile ==> r is ScanSingleFile,
        kind is Directory && recursive ==> r is WalkRecursive,
        kind is Directory && !recursive ==> r is RejectDirectory,
        kind is Other ==> r is RejectInvalid,
{
    match kind {
        TargetKind::RegularFile => TargetAction::ScanSingleFile,
        TargetKind::Directory => if recursive {
            TargetAction::WalkRecursive
        } else {
            TargetAction::RejectDirectory
        },
        TargetKind::Other => TargetAction::RejectInvalid,
    }
}

/// Per-path outcome: how many lines were selected, or why the path failed.
#[derive(Clone, Copy, PartialEq, Eq, Structural, Debug)]
pub enum PathOutcome {
    Searched(usize),
    Failed(PathError),
}

/// Whether any path of the run failed; drives the non-zero exit status.
pub fn any_failure(results: &Vec<PathOutcome>) -> (r: bool)
    ensures
        r <==> exists|i: int| 0 <= i < results@.len() && results@[i] is Failed,
{
    let mut i: usize = 0;
    while i < results.len()
        invariant
            i <= results@.len(),
            forall|j: int| 0 <= j < i ==> !(results@[j] is Failed),
        decreases results@.len() - i,
    {
        if matches!(results[i], PathOutcome::Failed(_)) {
            return true;
        }
        i = i + 1;
    }
    false
}

/// The run's exit status: 0 for a clean run (matches or not), 1 when some
/// path failed, 2 when the pattern did not compile. Zero matches with no
/// error is deliberately a success.
pub fn exit_code(pattern_ok: bool, any_path_failed: bool) -> (r: i32)
    ensures
        !pattern_ok ==> r == 2,
        pattern_ok && any_path_failed ==> r == 1,
        pattern_ok && !any_path_failed ==> r == 0,
        r == 0 <==> pattern_ok && !any_path_failed,
{
    if !pattern_ok {
        2
    } else if any_path_failed {
        1
    } else {
        0
    }
}

/// What one file's scan reports: the count and the lines to print.
pub struct FileReport {
    pub count: usize,
    pub output: Vec<String>,
}

/// The exact output lines one file contributes: its single count line in
/// count mode, else one formatted line per selected line, in line order.
pub open spec fn file_output_spec(
    pattern: Seq<char>,
    ignore_case: bool,
    show_line_number: bool,
    invert: bool,
    count_only: bool,
    label: Option<Seq<char>>,
    lines: Seq<Seq<char>>,
) -> Seq<Seq<char>> {
    if count_only {
        seq![count_line_spec(label, match_count(pattern, ignore_case, invert, lines) as int)]
    } else {
        selected_records(pattern, ignore_case, invert, lines).map_values(
            |rec: (int, Seq<char>)| match_line_spec(label, show_line_number, rec.0, rec.1),
        )
    }
}

/// Scan one file's lines: count the selected lines and produce exactly the
/// output lines the configuration calls for.
pub fn search_file(
    cp: &CompiledPattern,
    show_line_number: bool,
    invert: bool,
    count_only: bool,
    label: Option<&str>,
    lines: &Vec<String>,
) -> (r: FileReport)
    ensures
        r.count == match_count(cp.spec_pattern(), cp.spec_ignore_case(), invert, line_views(lines@)),
        r.output@.map_values(|s: String| s@) == file_output_spec(
            cp.spec_pattern(),
            cp.spec_ignore_case(),
            show_line_number,
            invert,
            count_only,
            label_view(label),
            line_views(lines@),
        ),
{
    let ghost recs = selected_records(
        cp.spec_pattern(),
        cp.spec_ignore_case(),
        invert,
        line_views(lines@),
    );
    let records = scan_lines(cp, invert, lines);
    proof {
        lemma_count_equals_records(
            cp.spec_pattern(),
            cp.spec_ignore_case(),
            invert,
            line_views(lines@),
        );
    }
    let count = records.len();
    let mut output: Vec<String> = Vec::new();
    if count_only {
        output.push(format_count(label, count));
        proof {
            assert(output@.map_values(|s: String| s@) =~= file_output_spec(
                cp.spec_pattern(),
                cp.spec_ignore_case(),
                show_line_number,
                invert,
                count_only,
                label_view(label),
                line_views(lines@),
            ));
        }
    } else {
        let ghost formatted = recs.map_values(
            |rec: (int, Seq<char>)| match_line_spec(label_view(label), show_line_number, rec.0, rec.1),
        );
        let mut j: usize = 0;
        while j < records.len()
            invariant
                j <= records@.len(),
                records@.map_values(|m: MatchRecord| m@) == recs,
                formatted == recs.map_values(
                    |rec: (int, Seq<char>)| match_line_spec(
                        label_view(label),
                        show_line_number,
                        rec.0,
                        rec.1,
                    ),
                ),
                output@.map_values(|s: String| s@) == formatted.take(j as int),
            decreases records@.len() - j,
        {
            proof {
                assert(records@.map_values(|m: MatchRecord| m@)[j as int] == recs[j as int]);
                assert(records@[j as int]@ == recs[j as int]);
                assert(formatted[j as int] == match_line_spec(
                    label_view(label),
                    show_line_number,
                    recs[j as int].0,
                    recs[j as int].1,
                ));
                assert(formatted.take(j + 1) =~= formatted.take(j as int).push(
                    formatted[j as int],
                ));
            }
            output.push(format_match(label, show_line_number, &records[j]));
            proof {
                assert(output@.map_values(|s: String| s@) =~= formatted.take(j + 1));
            }
            j = j + 1;
        }
        proof {
            assert(formatted.take(records@.len() as int) =~= formatted);
            assert(output@.map_values(|s: String| s@) =~= file_output_spec(
                cp.spec_pattern(),
                cp.spec_ignore_case(),
                show_line_number,
                invert,
                count_only,
                label_view(label),
                line_views(lines@),
            ));
        }
    }
    FileReport { count, output }
}

/// Line mode reports the right lines, each exactly once, in order: every
/// record carries a 1-based number of a selected line and that line's exact
/// text; record numbers are strictly increasing, so no line is reported
/// twice; and every selected line has a record.
pub proof fn lemma_records_characterize(
    pattern: Seq<char>,
    ignore_case: bool,
    invert: bool,
    lines: Seq<Seq<char>>,
    recs: Seq<(int, Seq<char>)>,
)
    requires
        recs == selected_records(pattern, ignore_case, invert, lines),
    ensures
        forall|j: int| 0 <= j < recs.len() ==> 1 <= (#[trigger] recs[j]).0 && recs[j].0
            <= lines.len(),
        forall|j: int| 0 <= j < recs.len() ==> (#[trigger] recs[j]).1 == lines[recs[j].0 - 1]
            && line_selected(pattern, ignore_case, invert, lines[recs[j].0 - 1]),
        forall|j: int, k: int| 0 <= j < k < recs.len() ==> (#[trigger] recs[j]).0 < (
        #[trigger] recs[k]).0,
        forall|i: int|
            0 <= i < lines.len() && line_selected(pattern, ignore_case, invert, #[trigger] lines[i])
                ==> exists|j: int| 0 <= j < recs.len() && (#[trigger] recs[j]).0 == i + 1,
    decreases lines.len(),
{
    if lines.len() > 0 {
        let prev = selected_records(pattern, ignore_case, invert, lines.drop_last());
        lemma_records_characterize(pattern, ignore_case, invert, lines.drop_last(), prev);
        assert(forall|i: int|
            0 <= i < lines.len() - 1 ==> #[trigger] lines.drop_last()[i] == lines[i]);
        let pushed = line_selected(pattern, ignore_case, invert, lines.last());
        if pushed {
            assert(recs == prev.push((lines.len() as int, lines.last())));
            assert(forall|j: int| 0 <= j < prev.len() ==> #[trigger] recs[j] == prev[j]);
            assert(recs[prev.len() as int] == (lines.len() as int, lines.last()));
            assert(lines.last() == lines[lines.len() - 1]);
        } else {
            assert(recs == prev);
        }
        assert forall|j: int| 0 <= j < recs.len() implies 1 <= (#[trigger] recs[j]).0 && recs[j].0
            <= lines.len() by {
            if j < prev.len() {
                assert(recs[j] == prev[j]);
            }
        }
        assert forall|j: int| 0 <= j < recs.len() implies (#[trigger] recs[j]).1 == lines[recs[j].0
            - 1] && line_selected(pattern, ignore_case, invert, lines[recs[j].0 - 1]) by {
            if j < prev.len() {
                assert(recs[j] == prev[j]);
                assert(prev[j].1 == lines.drop_last()[prev[j].0 - 1]);
                assert(lines.drop_last()[prev[j].0 - 1] == lines[prev[j].0 - 1]);
            } else {
                assert(recs[j].1 == lines.last());
            }
        }
        assert forall|j: int, k: int| 0 <= j < k < recs.len() implies (#[trigger] recs[j]).0 < (
        #[trigger] recs[k]).0 by {
            if k < prev.len() {
                assert(recs[j] == prev[j]);
                assert(recs[k] == prev[k]);
            } else {
                assert(recs[j] == prev[j]);
                assert(prev[j].0 <= lines.drop_last().len());
                assert(recs[k].0 == lines.len());
            }
        }
        assert forall|i: int|
            0 <= i < lines.len() && line_selected(
                pattern,
                ignore_case,
                invert,
                #[trigger] lines[i],
            ) implies exists|j: int| 0 <= j < recs.len() && (#[trigger] recs[j]).0 == i + 1 by {
            if i < lines.len() - 1 {
                assert(lines.drop_last()[i] == lines[i]);
                assert(exists|j: int| 0 <= j < prev.len() && (#[trigger] prev[j]).0 == i + 1);
                let j = choose|j: int| 0 <= j < prev.len() && (#[trigger] prev[j]).0 == i + 1;
                assert(recs[j] == prev[j]);
                assert(recs[j].0 == i + 1);
            } else {
                assert(lines[i] == lines.last());
                assert(recs[prev.len() as int].0 == i + 1);
            }
        }
    }
}

use crate::pattern::regex_valid;

/// The validated configuration of one run, built once by the option parser
/// and read-only afterwards. An empty `targets` means "read standard input".
pub struct SearchConfig {
    pub pattern: String,
    pub ignore_case: bool,
    pub show_line_number: bool,
    pub invert: bool,
    pub recursive: bool,
    pub count_only: bool,
    pub targets: Vec<String>,
}

impl SearchConfig {
    /// Compile this configuration's pattern; fails exactly on an invalid
    /// pattern, which is fatal to the whole run.
    pub fn compile(&self) -> (r: Result<CompiledPattern, String>)
        ensures
            r is Ok <==> regex_valid(self.pattern@, self.ignore_case),
            self.pattern@.len() == 0 ==> r is Ok,
            r is Ok ==> r->Ok_0.spec_pattern() == self.pattern@ && r->Ok_0.spec_ignore_case()
                == self.ignore_case,
    {
        CompiledPattern::compile(self.pattern.as_str(), self.ignore_case)
    }
}

/// Per file, inversion reports exactly the complement set of lines: a line
/// has a record in the straight run exactly when it has none in the inverted
/// run of the same file.
pub proof fn lemma_invert_reports_complement(
    pattern: Seq<char>,
    ignore_case: bool,
    lines: Seq<Seq<char>>,
    i: int,
)
    requires
        0 <= i < lines.len(),
    ensures
        (exists|j: int|
            0 <= j < selected_records(pattern, ignore_case, false, lines).len() && (
            #[trigger] selected_records(pattern, ignore_case, false, lines)[j]).0 == i + 1) <==> !(
        exists|j: int|
            0 <= j < selected_records(pattern, ignore_case, true, lines).len() && (
            #[trigger] selected_records(pattern, ignore_case, true, lines)[j]).0 == i + 1),
{
    let straight = selected_records(pattern, ignore_case, false, lines);
    let inverted = selected_records(pattern, ignore_case, true, lines);
    lemma_records_characterize(pattern, ignore_case, false, lines, straight);
    lemma_records_characterize(pattern, ignore_case, true, lines, inverted);
    if line_selected(pattern, ignore_case, false, lines[i]) {
        assert(exists|j: int| 0 <= j < straight.len() && (#[trigger] straight[j]).0 == i + 1);
        assert forall|j: int| 0 <= j < inverted.len() implies (#[trigger] inverted[j]).0 != i
            + 1 by {
            if inverted[j].0 == i + 1 {
                assert(line_selected(pattern, ignore_case, true, lines[i]));
            }
        }
    } else {
        assert(line_selected(pattern, ignore_case, true, lines[i]));
        assert(exists|j: int| 0 <= j < inverted.len() && (#[trigger] inverted[j]).0 == i + 1);
        assert forall|j: int| 0 <= j < straight.len() implies (#[trigger] straight[j]).0 != i
            + 1 by {
            if straight[j].0 == i + 1 {
                assert(line_selected(pattern, ignore_case, false, lines[i]));
            }
        }
    }
}

} // verus!
