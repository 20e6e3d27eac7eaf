//! The crawl orchestrator: enumerates batches, admits and resolves IDs under
//! the cancellation flags, renumbers and exports each batch, and reports
//! progress through an injected event sink.
use vstd::prelude::*;
use crate::book::rows_to_book;
use crate::enumerate::{enumerate_batches, effective_chunk, id_count};
use crate::item::CourseItem;
use crate::numfmt::{all_digits, dec_str, digits_val, parse_u64, u64_to_string};
use crate::resolve::{resolve_course, Fetcher};
use crate::run::{run_continues, submit_allowed, tallies_wf, BatchEngine, Resolution, RunState};
use umya_spreadsheet::Workbook;

verus! {

/// One notification to the presentation layer; each kind carries only the
/// fields relevant to it.
pub enum CrawlEvent {
    /// A snapshot of the tallies.
    Progress {
        done: u64,
        total: u64,
        success: u64,
        failed: u64,
        ignored: u64,
        started: u64,
        current_id: Option<u64>,
    },
    /// One fetch round-trip finished for this ID.
    Tick { id: u64 },
    /// The outcome of one ID.
    Item { id: u64, result: crate::item::Outcome },
    /// A fatal or per-batch error notice.
    Error { message: String },
    /// One artifact was written.
    Exported { path: String },
    /// The run is over; every artifact that was written.
    Done { outputs: Vec<String> },
}

/// The injected event sink; the core never talks to a presentation layer
/// directly.
pub trait EventSink {
    fn emit(&mut self, ev: &CrawlEvent);
}

/// The injected artifact destination: writes a finished workbook under the
/// given name and answers with the realized path, or nothing on failure.
pub trait ArtifactWriter {
    fn write_artifact(&mut self, name: &str, book: Workbook) -> Option<String>;
}

fn emit_progress<S: EventSink>(sink: &mut S, st: &RunState) {
    sink.emit(
        &CrawlEvent::Progress {
            done: st.tallies.done,
            total: st.tallies.total,
            success: st.tallies.success,
            failed: st.tallies.failed,
            ignored: st.tallies.ignored,
            started: st.tallies.started,
            current_id: None,
        },
    );
}

fn clone_ids(v: &Vec<u64>) -> (r: Vec<u64>)
    ensures
        r@ == v@,
{
    let mut r: Vec<u64> = Vec::new();
    let mut i: usize = 0;
    while i < v.len()
        invariant
            0 <= i <= v@.len(),
            r@ == v@.take(i as int),
        decreases v@.len() - i,
    {
        r.push(v[i]);
        proof {
            assert(v@.take(i + 1) =~= v@.take(i as int).push(v@[i as int]));
        }
        i = i + 1;
    }
    proof {
        assert(v@.take(i as int) =~= v@);
    }
    r
}

fn clone_strings(v: &Vec<String>) -> (r: Vec<String>)
    ensures
        r@.len() == v@.len(),
        forall|i: int| 0 <= i < v@.len() ==> r.deep_view()[i] == v.deep_view()[i],
{
    let mut r: Vec<String> = Vec::new();
    let mut i: usize = 0;
    while i < v.len()
        invariant
            0 <= i <= v@.len(),
            r@.len() == i,
            forall|t: int| 0 <= t < i ==> r.deep_view()[t] == v.deep_view()[t],
        decreases v@.len() - i,
    {
        r.push(v[i].clone());
        i = i + 1;
    }
    r
}

/// The numeric value of a row ID cell, when it is a decimal `u64`.
pub open spec fn row_id_val(s: Seq<char>) -> Option<int> {
    if s.len() > 0 && all_digits(s) && digits_val(s) <= u64::MAX {
        Some(digits_val(s) as int)
    } else {
        None
    }
}

/// The largest numeric ID among the given ID cells, if any parses.
pub open spec fn spec_max_id(ids: Seq<Seq<char>>) -> Option<int>
    decreases ids.len(),
{
    if ids.len() == 0 {
        None
    } else {
        let rest = spec_max_id(ids.drop_last());
        match row_id_val(ids.last()) {
            Some(v) => match rest {
                Some(m) => if v > m {
                    Some(v)
                } else {
                    Some(m)
                },
                None => Some(v),
            },
            None => rest,
        }
    }
}

/// The ID cells of a batch's collected rows.
pub open spec fn row_ids(rows: Seq<CourseItem>) -> Seq<Seq<char>> {
    rows.map_values(|it: CourseItem| it.course_id@)
}

/// The artifact name is `first-last.xlsx`: the first requested ID of the
/// batch and the highest numeric ID actually present among the collected
/// rows (the first requested ID again when none parses).
pub open spec fn spec_artifact_name(first_id: u64, rows: Seq<CourseItem>) -> Seq<char> {
    dec_str(first_id as nat) + "-"@ + dec_str(
        (match spec_max_id(row_ids(rows)) {
            Some(v) => v,
            None => first_id as int,
        }) as nat,
    ) + ".xlsx"@
}

/// Derives the artifact name of a batch from what was actually collected.
pub fn artifact_name(first_id: u64, rows: &Vec<CourseItem>) -> (r: String)
    ensures
        r@ == spec_artifact_name(first_id, rows@),
{
    let mut best: Option<u64> = None;
    let mut i: usize = 0;
    while i < rows.len()
        invariant
            0 <= i <= rows@.len(),
            (match best {
                Some(b) => spec_max_id(row_ids(rows@).take(i as int)) == Some(b as int),
                None => spec_max_id(row_ids(rows@).take(i as int)) is None,
            }),
        decreases rows@.len() - i,
    {
        let ghost pre = row_ids(rows@).take(i as int);
        let parsed = parse_u64(rows[i].course_id.as_str());
        proof {
            assert(row_ids(rows@).take(i + 1).drop_last() =~= pre);
            assert(row_ids(rows@).take(i + 1).last() == rows@[i as int].course_id@);
        }
        match parsed {
            Some(v) => {
                best = match best {
                    Some(b) => if v > b {
                        Some(v)
                    } else {
                        Some(b)
                    },
                    None => Some(v),
                };
            },
            None => {
            },
        }
        i = i + 1;
    }
    proof {
        assert(row_ids(rows@).take(i as int) =~= row_ids(rows@));
    }
    let end_id: u64 = match best {
        Some(b) => b,
        None => first_id,
    };
    let r = u64_to_string(first_id).concat("-").concat(u64_to_string(end_id).as_str()).concat(
        ".xlsx",
    );
    proof {
        assert(r@ =~= spec_artifact_name(first_id, rows@));
    }
    r
}

/// Runs one whole crawl over injected capabilities: per batch, IDs are
/// admitted in ascending order while no cancellation flag is up, each
/// completion is tallied and collected, and a non-empty batch is exported
/// under its realized name. An authorization failure stops the run after the
/// current batch drains; its rows are dropped, not exported. A reversed
/// range yields no artifact at all.
pub fn run_crawl<F: Fetcher, S: EventSink, W: ArtifactWriter>(
    f: &mut F,
    sink: &mut S,
    writer: &mut W,
    st: &mut RunState,
    start_id: u64,
    end_id: u64,
    chunk_size: usize,
) -> (outputs: Vec<String>)
    requires
        end_id < start_id || end_id - start_id < usize::MAX as u64,
    ensures
        end_id < start_id ==> outputs@.len() == 0,
        outputs@.len() as nat <= id_count(start_id, end_id),
        outputs@.len() > 0 ==> (outputs@.len() - 1) * effective_chunk(
            chunk_size,
            id_count(start_id, end_id),
        ) < id_count(start_id, end_id),
        outputs@.len() > 0 ==> final(st).tallies.done > 0,
        !final(st).auth_expired ==> final(st).tallies.started as nat == id_count(start_id, end_id)
            && final(st).tallies.done == final(st).tallies.started,
        !final(st).user_cancel,
        tallies_wf(final(st).tallies),
        final(st).tallies.total as nat == id_count(start_id, end_id),
        final(st).tallies.done <= final(st).tallies.started,
        final(st).tallies.started as nat <= id_count(start_id, end_id),
{
    let total64: u64 = if end_id < start_id {
        0
    } else {
        end_id - start_id + 1
    };
    *st = RunState::start_run(total64);
    emit_progress(sink, st);
    let batches = enumerate_batches(start_id, end_id, chunk_size);
    let ghost cs_g = effective_chunk(chunk_size, id_count(start_id, end_id)) as int;
    proof {
        if total64 > 0 {
            assert((batches@.len() - 1) as int <= (batches@.len() - 1) * cs_g)
                by (nonlinear_arith)
                requires
                    cs_g >= 1,
                    batches@.len() >= 1,
            ;
            assert(batches@.len() as int <= total64 as int);
        }
    }
    let mut outputs: Vec<String> = Vec::new();
    let mut halted = false;
    let mut bi: usize = 0;
    while !halted && bi < batches.len()
        invariant
            total64 as nat == id_count(start_id, end_id),
            cs_g == effective_chunk(chunk_size, id_count(start_id, end_id)),
            forall|i: int|
                0 <= i < batches@.len() ==> (#[trigger] batches@[i])@.len() == (if i * cs_g + cs_g
                    <= total64 as int {
                    cs_g
                } else {
                    total64 - i * cs_g
                }),
            forall|i: int| 0 <= i < batches@.len() ==> (#[trigger] batches@[i])@.len() > 0,
            end_id < start_id ==> batches@.len() == 0 && outputs@.len() == 0,
            0 <= bi <= batches@.len(),
            batches@.len() as int <= total64 as int,
            outputs@.len() <= bi,
            outputs@.len() > 0 ==> st.tallies.done > 0,
            !st.user_cancel,
            !halted ==> !st.auth_expired,
            halted ==> st.auth_expired,
            total64 > 0 ==> batches@.len() as int * cs_g >= total64 as int,
            tallies_wf(st.tallies),
            st.tallies.total == total64,
            st.tallies.done <= st.tallies.started,
            !st.auth_expired ==> st.tallies.done == st.tallies.started,
            !st.auth_expired ==> st.tallies.started as int == (if bi * cs_g <= total64 as int {
                bi * cs_g
            } else {
                total64 as int
            }),
            st.tallies.started <= total64,
            bi < batches@.len() ==> st.tallies.started as int <= bi * cs_g,
        decreases batches@.len() - bi,
    {
        let ids = clone_ids(&batches[bi]);
        let first_id = ids[0];
        let ghost l_bi = ids@.len() as int;
        let ghost started0 = st.tallies.started;
        let ghost done0 = st.tallies.done;
        proof {
            assert(started0 as int + l_bi <= total64 as int);
        }
        let mut eng = BatchEngine::new(ids);
        let mut go = eng.can_submit(st);
        while go
            invariant
                eng.wf(),
                eng.in_flight == 0,
                eng.ids@.len() == l_bi,
                go == (submit_allowed(*st) && eng.next < eng.ids@.len()),
                !st.user_cancel,
                tallies_wf(st.tallies),
                st.tallies.total == total64,
                st.tallies.done <= st.tallies.started,
                !st.auth_expired ==> st.tallies.done == st.tallies.started,
                st.tallies.done as int == done0 + eng.rows@.len(),
                st.tallies.started as int == started0 + eng.next,
                started0 as int + l_bi <= total64 as int,
            decreases eng.ids@.len() - eng.next,
        {
            let id = eng.record_submitted(st);
            emit_progress(sink, st);
            let res = resolve_course(f, id);
            let row_done = match &res {
                Resolution::Row(it) => {
                    sink.emit(&CrawlEvent::Tick { id });
                    sink.emit(&CrawlEvent::Item { id, result: it.result });
                    true
                },
                Resolution::TransportFailed => {
                    sink.emit(&CrawlEvent::Item { id, result: crate::item::Outcome::Failed });
                    true
                },
                Resolution::AuthExpired => {
                    sink.emit(
                        &CrawlEvent::Error { message: "403 登录失效，任务已终止".to_owned() },
                    );
                    false
                },
            };
            eng.record_completion(st, id, res);
            if row_done {
                emit_progress(sink, st);
            }
            go = eng.can_submit(st);
        }
        proof {
            if !st.auth_expired {
                assert(submit_allowed(*st));
                assert(eng.next == l_bi);
                assert(st.tallies.started as int == started0 + l_bi);
            }
        }
        if !run_continues(st) {
            halted = true;
        } else if eng.rows.len() > 0 {
            let name = artifact_name(first_id, &eng.rows);
            if eng.rows.len() <= (u32::MAX - 2) as usize {
                let book = rows_to_book(&eng.rows);
                match writer.write_artifact(name.as_str(), book) {
                    Some(path) => {
                        sink.emit(&CrawlEvent::Exported { path: path.clone() });
                        outputs.push(path);
                    },
                    None => {
                        sink.emit(&CrawlEvent::Error { message: "导出失败".to_owned() });
                    },
                }
            } else {
                sink.emit(&CrawlEvent::Error { message: "导出失败".to_owned() });
            }
        }
        proof {
            assert((bi as int) * cs_g + cs_g == (bi as int + 1) * cs_g) by (nonlinear_arith);
            if bi + 1 < batches@.len() {
                assert((bi as int) * cs_g + l_bi <= (bi + 1) as int * cs_g);
            }
            if !st.auth_expired {
                assert((bi as int) * cs_g <= (batches@.len() - 1) as int * cs_g)
                    by (nonlinear_arith)
                    requires
                        bi as int <= batches@.len() - 1,
                        cs_g >= 0,
                ;
                assert((bi as int) * cs_g < total64 as int);
                assert(started0 as int == (bi as int) * cs_g);
                assert(batches@[bi as int]@.len() == l_bi);
            }
        }
        bi = bi + 1;
    }
    proof {
        if outputs@.len() > 0 {
            assert((outputs@.len() - 1) as int * cs_g <= (batches@.len() - 1) as int * cs_g)
                by (nonlinear_arith)
                requires
                    outputs@.len() <= batches@.len(),
                    outputs@.len() >= 1,
                    cs_g >= 0,
            ;
        }
    }
    let done_outputs = clone_strings(&outputs);
    sink.emit(&CrawlEvent::Done { outputs: done_outputs });
    outputs
}

} // verus!
