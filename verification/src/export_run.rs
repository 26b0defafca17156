//! The decisions of the two long-running exports, as state machines: the
//! caller performs each action (writing, flushing, querying, renaming,
//! updating the job) and hands back what happened as the next event.
use vstd::prelude::*;
use crate::export::{
    export_percent, progress_percent, should_start_new_part, starts_new_part, ExportFormat,
    XLSX_ZIP32_LIMIT_BYTES,
};
use crate::jobs::{copy_texts, texts, JobChange};
use crate::streaming::{stream_next_offset, STREAM_CHUNK_SIZE};

verus! {

// ---------------------------------------------------------------------------
// Table exports
// ---------------------------------------------------------------------------

/// Rows written between two flushes and progress reports.
pub const EXPORT_PAGE_SIZE: i64 = 2000;

/// Where a table export stands.
#[derive(Clone, Copy, Debug, PartialEq, Eq, Structural)]
pub enum RunPhase {
    /// Queued, waiting for an export slot.
    Waiting,
    /// Started, counting the rows.
    Counting,
    /// Streaming rows into the file.
    Writing,
    /// A page of rows written; the file is being flushed and measured.
    Measuring,
    /// Every row written; the file is being moved in place.
    Finalizing,
    /// Finished, cancelled or failed.
    Done,
}

/// The state of one table export run.
#[derive(Clone, Copy, Debug, PartialEq, Eq, Structural)]
pub struct TableExportRun {
    pub format: ExportFormat,
    pub phase: RunPhase,
    pub total_rows: i64,
    pub processed: i64,
    /// The Excel part being written, from 1.
    pub xlsx_part: u32,
    /// The bytes of the parts already moved in place.
    pub completed_bytes: u64,
}

/// What happened since the last action.
#[derive(Clone, Copy, Debug, PartialEq, Eq, Structural)]
pub enum ExportEvent {
    /// An export slot was obtained; whether the job was cancelled meanwhile.
    SlotAcquired { cancelled: bool },
    /// The rows the filters keep were counted.
    Counted { total_rows: i64 },
    /// A row came from the stream; whether the job is cancelled now.
    RowArrived { cancelled: bool },
    /// The file was flushed; its size.
    Measured { bytes: u64 },
    /// The stream has no more rows; the size of the file being written.
    RowsEnded { bytes: u64 },
    /// The finished file was moved in place; its size.
    Replaced { final_bytes: u64 },
}

/// What the caller does next.
#[derive(Clone, Copy, Debug, PartialEq, Eq, Structural)]
pub enum ExportAction {
    /// Mark the job cancelled, drop the temporary file and stop.
    Cancel,
    /// Mark the job running and count the rows.
    Count,
    /// Record the count, open the file, write its header, start the stream.
    StartWriting,
    /// Write the row; then flush and measure the file when `flush` holds,
    /// else wait for the next row.
    WriteRow { flush: bool },
    /// Report progress and go on with the next row.
    Progress { processed_rows: i64, bytes_written: u64, percent: u8 },
    /// Report progress, finish Excel part `finished_part`, move it in place
    /// and open part `next_part`.
    NewPart { processed_rows: i64, bytes_written: u64, percent: u8, finished_part: u32, next_part: u32 },
    /// Fail the job: an Excel part outgrew the ZIP32 limit.
    PartTooLarge,
    /// Report the last progress, close the file and move it in place: over
    /// the numbered part `numbered_part` when there is one, else over the
    /// requested path.
    Finalize { processed_rows: i64, bytes_written: u64, numbered_part: Option<u32> },
    /// Mark the job completed.
    Complete { bytes_written: u64 },
    /// The event does not belong to this phase; nothing to do.
    Ignore,
}

impl TableExportRun {
    pub open spec fn wf(&self) -> bool {
        &&& self.processed >= 0
        &&& self.xlsx_part >= 1
        &&& self.total_rows <= i64::MAX / 100
    }

    /// A run that waits for its slot.
    pub fn new(format: ExportFormat) -> (r: Self)
        ensures
            r.wf(),
            r == (TableExportRun {
                format,
                phase: RunPhase::Waiting,
                total_rows: 0,
                processed: 0,
                xlsx_part: 1,
                completed_bytes: 0,
            }),
    {
        TableExportRun { format, phase: RunPhase::Waiting, total_rows: 0, processed: 0, xlsx_part: 1, completed_bytes: 0 }
    }
}

/// What an event may carry: counts and sizes within the machine's range.
pub open spec fn export_event_fits(s: TableExportRun, e: ExportEvent) -> bool {
    match e {
        ExportEvent::Counted { total_rows } => total_rows <= i64::MAX / 100,
        ExportEvent::RowArrived { .. } => s.processed < i64::MAX,
        ExportEvent::Measured { .. } => s.xlsx_part < u32::MAX,
        _ => true,
    }
}

pub open spec fn saturating_sum(a: u64, b: u64) -> u64 {
    if a + b > u64::MAX {
        u64::MAX
    } else {
        (a + b) as u64
    }
}

/// The next state and action of a table export.
pub open spec fn export_step_spec(s: TableExportRun, e: ExportEvent) -> (TableExportRun, ExportAction) {
    match (s.phase, e) {
        (RunPhase::Waiting, ExportEvent::SlotAcquired { cancelled }) => if cancelled {
            (TableExportRun { phase: RunPhase::Done, ..s }, ExportAction::Cancel)
        } else {
            (TableExportRun { phase: RunPhase::Counting, ..s }, ExportAction::Count)
        },
        (RunPhase::Counting, ExportEvent::Counted { total_rows }) => (
            TableExportRun { phase: RunPhase::Writing, total_rows, ..s },
            ExportAction::StartWriting,
        ),
        (RunPhase::Writing, ExportEvent::RowArrived { cancelled }) => if cancelled {
            (TableExportRun { phase: RunPhase::Done, ..s }, ExportAction::Cancel)
        } else {
            let processed = (s.processed + 1) as i64;
            let flush = processed % EXPORT_PAGE_SIZE == 0;
            (
                TableExportRun {
                    phase: if flush { RunPhase::Measuring } else { RunPhase::Writing },
                    processed,
                    ..s
                },
                ExportAction::WriteRow { flush },
            )
        },
        (RunPhase::Measuring, ExportEvent::Measured { bytes }) => {
            let written = saturating_sum(s.completed_bytes, bytes);
            let percent = progress_percent(s.processed as int, s.total_rows as int) as u8;
            if starts_new_part(s.format, bytes, s.processed, s.total_rows) {
                (
                    TableExportRun {
                        phase: RunPhase::Writing,
                        xlsx_part: (s.xlsx_part + 1) as u32,
                        completed_bytes: written,
                        ..s
                    },
                    ExportAction::NewPart {
                        processed_rows: s.processed,
                        bytes_written: written,
                        percent,
                        finished_part: s.xlsx_part,
                        next_part: (s.xlsx_part + 1) as u32,
                    },
                )
            } else {
                (
                    TableExportRun { phase: RunPhase::Writing, ..s },
                    ExportAction::Progress { processed_rows: s.processed, bytes_written: written, percent },
                )
            }
        },
        (RunPhase::Writing, ExportEvent::RowsEnded { bytes }) => if s.format == ExportFormat::Xlsx && bytes
            >= XLSX_ZIP32_LIMIT_BYTES {
            (TableExportRun { phase: RunPhase::Done, ..s }, ExportAction::PartTooLarge)
        } else {
            (
                TableExportRun { phase: RunPhase::Finalizing, ..s },
                ExportAction::Finalize {
                    processed_rows: s.processed,
                    bytes_written: saturating_sum(s.completed_bytes, bytes),
                    numbered_part: if s.format == ExportFormat::Xlsx && s.xlsx_part > 1 {
                        Some(s.xlsx_part)
                    } else {
                        None
                    },
                },
            )
        },
        (RunPhase::Finalizing, ExportEvent::Replaced { final_bytes }) => (
            TableExportRun { phase: RunPhase::Done, ..s },
            ExportAction::Complete { bytes_written: saturating_sum(s.completed_bytes, final_bytes) },
        ),
        _ => (s, ExportAction::Ignore),
    }
}

/// One step of a table export: the state after the event and what to do.
pub fn table_export_step(state: &TableExportRun, event: ExportEvent) -> (r: (TableExportRun, ExportAction))
    requires
        state.wf(),
        export_event_fits(*state, event),
    ensures
        r.0.wf(),
        r == export_step_spec(*state, event),
{
    let s = *state;
    match (s.phase, event) {
        (RunPhase::Waiting, ExportEvent::SlotAcquired { cancelled }) => if cancelled {
            (TableExportRun { phase: RunPhase::Done, ..s }, ExportAction::Cancel)
        } else {
            (TableExportRun { phase: RunPhase::Counting, ..s }, ExportAction::Count)
        },
        (RunPhase::Counting, ExportEvent::Counted { total_rows }) => (
            TableExportRun { phase: RunPhase::Writing, total_rows, ..s },
            ExportAction::StartWriting,
        ),
        (RunPhase::Writing, ExportEvent::RowArrived { cancelled }) => if cancelled {
            (TableExportRun { phase: RunPhase::Done, ..s }, ExportAction::Cancel)
        } else {
            let processed = s.processed + 1;
            let flush = processed % EXPORT_PAGE_SIZE == 0;
            (
                TableExportRun {
                    phase: if flush { RunPhase::Measuring } else { RunPhase::Writing },
                    processed,
                    ..s
                },
                ExportAction::WriteRow { flush },
            )
        },
        (RunPhase::Measuring, ExportEvent::Measured { bytes }) => {
            let written = s.completed_bytes.saturating_add(bytes);
            let percent = export_percent(s.processed, s.total_rows);
            if should_start_new_part(s.format, bytes, s.processed, s.total_rows) {
                (
                    TableExportRun { phase: RunPhase::Writing, xlsx_part: s.xlsx_part + 1, completed_bytes: written, ..s },
                    ExportAction::NewPart {
                        processed_rows: s.processed,
                        bytes_written: written,
                        percent,
                        finished_part: s.xlsx_part,
                        next_part: s.xlsx_part + 1,
                    },
                )
            } else {
                (
                    TableExportRun { phase: RunPhase::Writing, ..s },
                    ExportAction::Progress { processed_rows: s.processed, bytes_written: written, percent },
                )
            }
        },
        (RunPhase::Writing, ExportEvent::RowsEnded { bytes }) => {
            let xlsx = s.format == ExportFormat::Xlsx;
            if xlsx && bytes >= XLSX_ZIP32_LIMIT_BYTES {
                (TableExportRun { phase: RunPhase::Done, ..s }, ExportAction::PartTooLarge)
            } else {
                let numbered_part = if xlsx && s.xlsx_part > 1 {
                    Some(s.xlsx_part)
                } else {
                    None
                };
                (
                    TableExportRun { phase: RunPhase::Finalizing, ..s },
                    ExportAction::Finalize {
                        processed_rows: s.processed,
                        bytes_written: s.completed_bytes.saturating_add(bytes),
                        numbered_part,
                    },
                )
            }
        },
        (RunPhase::Finalizing, ExportEvent::Replaced { final_bytes }) => (
            TableExportRun { phase: RunPhase::Done, ..s },
            ExportAction::Complete { bytes_written: s.completed_bytes.saturating_add(final_bytes) },
        ),
        _ => (s, ExportAction::Ignore),
    }
}

/// The error of a table export whose Excel part outgrew the ZIP32 limit.
pub open spec fn part_too_large_text() -> Seq<char> {
    "An Excel part exceeded the safe ZIP32 size limit"@
}

/// What an action changes in the export's job, given the run after the step,
/// the time now and the paths of the files finished so far: the start, the
/// count, each progress report, each new part, the last report, the
/// completion, a cancellation or a failure; nothing for writing a row.
pub open spec fn job_changes_spec(
    run: TableExportRun,
    a: ExportAction,
    now: Seq<char>,
    paths: Seq<Seq<char>>,
    r: Seq<JobChange>,
) -> bool {
    match a {
        ExportAction::Cancel => r.len() == 1 && (r[0] matches JobChange::Cancelled { finished_at }
            && finished_at@ == now),
        ExportAction::Count => r.len() == 1 && (r[0] matches JobChange::Started { started_at }
            && started_at@ == now),
        ExportAction::StartWriting => r.len() == 1 && r[0] == (JobChange::Counted { total_rows: run.total_rows }),
        ExportAction::WriteRow { .. } => r.len() == 0,
        ExportAction::Progress { processed_rows, bytes_written, .. } => r.len() == 1 && r[0] == (
        JobChange::Progress { processed_rows, bytes_written }),
        ExportAction::NewPart { processed_rows, bytes_written, next_part, .. } => r.len() == 2 && r[0] == (
        JobChange::Progress { processed_rows, bytes_written }) && (r[1] matches JobChange::NewPart {
            part,
            output_paths,
        } && part == next_part && texts(output_paths@) == paths),
        ExportAction::PartTooLarge => r.len() == 1 && (r[0] matches JobChange::Failed { error, finished_at }
            && error@ == part_too_large_text() && finished_at@ == now),
        ExportAction::Finalize { processed_rows, bytes_written, .. } => r.len() == 1 && r[0] == (
        JobChange::Finalizing { processed_rows, bytes_written }),
        ExportAction::Complete { bytes_written } => r.len() == 1 && (r[0] matches JobChange::Completed {
            bytes_written: b,
            finished_at,
            output_paths,
        } && b == bytes_written && finished_at@ == now && texts(output_paths@) == paths),
        ExportAction::Ignore => r.len() == 0,
    }
}

/// The job changes of a step's action, for `update_job`.
pub fn job_changes(run: &TableExportRun, action: ExportAction, now: &str, paths: &Vec<String>) -> (r: Vec<JobChange>)
    ensures
        job_changes_spec(*run, action, now@, texts(paths@), r@),
{
    let mut r: Vec<JobChange> = Vec::new();
    match action {
        ExportAction::Cancel => r.push(JobChange::Cancelled { finished_at: String::from_str(now) }),
        ExportAction::Count => r.push(JobChange::Started { started_at: String::from_str(now) }),
        ExportAction::StartWriting => r.push(JobChange::Counted { total_rows: run.total_rows }),
        ExportAction::WriteRow { .. } => {},
        ExportAction::Progress { processed_rows, bytes_written, .. } => r.push(
            JobChange::Progress { processed_rows, bytes_written },
        ),
        ExportAction::NewPart { processed_rows, bytes_written, next_part, .. } => {
            r.push(JobChange::Progress { processed_rows, bytes_written });
            r.push(JobChange::NewPart { part: next_part, output_paths: copy_texts(paths) });
        },
        ExportAction::PartTooLarge => {
            proof {
                reveal_strlit("An Excel part exceeded the safe ZIP32 size limit");
            }
            r.push(
                JobChange::Failed {
                    error: String::from_str("An Excel part exceeded the safe ZIP32 size limit"),
                    finished_at: String::from_str(now),
                },
            )
        },
        ExportAction::Finalize { processed_rows, bytes_written, .. } => r.push(
            JobChange::Finalizing { processed_rows, bytes_written },
        ),
        ExportAction::Complete { bytes_written } => r.push(
            JobChange::Completed { bytes_written, finished_at: String::from_str(now), output_paths: copy_texts(paths) },
        ),
        ExportAction::Ignore => {},
    }
    r
}

// ---------------------------------------------------------------------------
// General Ledger exports
// ---------------------------------------------------------------------------

/// The state of a General Ledger export: its parts and how far the rows have
/// been read.
#[derive(Clone, Copy, Debug, PartialEq, Eq, Structural)]
pub struct GlExportState {
    pub rows_per_part: i64,
    pub total_parts: u32,
    /// The part being written, from 1.
    pub current_part: u32,
    pub current_part_rows: i64,
    pub loaded: i64,
    /// Where the page being read starts.
    pub offset: i64,
}

#[derive(Clone, Copy, Debug, PartialEq, Eq, Structural)]
pub enum GlExportEvent {
    /// A ledger row was read from the current page.
    Row,
    /// The current page is written; it held `fetched` rows.
    PageEnded { fetched: i64 },
}

#[derive(Clone, Copy, Debug, PartialEq, Eq, Structural)]
pub enum GlExportAction {
    /// Write the row into the current part.
    WriteRow,
    /// Finish the current part, move it in place, open part `part`, then
    /// write the row into it.
    StartPartThenWrite { part: u32 },
    /// Flush, then read the page that starts at `offset`.
    FetchFrom { offset: i64 },
    /// Flush, finish the last part and move it in place.
    Finish,
}

impl GlExportState {
    pub open spec fn wf(&self) -> bool {
        &&& self.current_part >= 1
        &&& self.current_part_rows >= 0
        &&& self.loaded >= 0
        &&& self.offset >= 0
    }

    /// Before the first row: part 1 of `total_parts`, nothing read.
    pub fn new(rows_per_part: i64, total_parts: u32) -> (r: Self)
        ensures
            r.wf(),
            r == (GlExportState { rows_per_part, total_parts, current_part: 1, current_part_rows: 0, loaded: 0, offset: 0 }),
    {
        GlExportState { rows_per_part, total_parts, current_part: 1, current_part_rows: 0, loaded: 0, offset: 0 }
    }
}

/// What an event may carry: a page no longer than the ledger page, and
/// counts within the machine's range.
pub open spec fn gl_event_fits(s: GlExportState, e: GlExportEvent) -> bool {
    match e {
        GlExportEvent::Row => s.loaded < i64::MAX && s.current_part_rows < i64::MAX,
        GlExportEvent::PageEnded { fetched } => 0 <= fetched <= STREAM_CHUNK_SIZE && s.offset + STREAM_CHUNK_SIZE
            <= i64::MAX,
    }
}

/// The next state and action of a General Ledger export: a row opens a new
/// part once the current one holds its share and parts remain; a short page
/// ends the export.
pub open spec fn gl_step_spec(s: GlExportState, e: GlExportEvent) -> (GlExportState, GlExportAction) {
    match e {
        GlExportEvent::Row => if s.current_part_rows >= s.rows_per_part && s.current_part < s.total_parts {
            (
                GlExportState {
                    current_part: (s.current_part + 1) as u32,
                    current_part_rows: 1,
                    loaded: (s.loaded + 1) as i64,
                    ..s
                },
                GlExportAction::StartPartThenWrite { part: (s.current_part + 1) as u32 },
            )
        } else {
            (
                GlExportState { current_part_rows: (s.current_part_rows + 1) as i64, loaded: (s.loaded + 1) as i64, ..s },
                GlExportAction::WriteRow,
            )
        },
        GlExportEvent::PageEnded { fetched } => if fetched < STREAM_CHUNK_SIZE {
            (s, GlExportAction::Finish)
        } else {
            let offset = (s.offset + fetched) as i64;
            (GlExportState { offset, ..s }, GlExportAction::FetchFrom { offset })
        },
    }
}

/// One step of a General Ledger export.
pub fn gl_export_step(state: GlExportState, event: GlExportEvent) -> (r: (GlExportState, GlExportAction))
    requires
        state.wf(),
        gl_event_fits(state, event),
    ensures
        r.0.wf(),
        r == gl_step_spec(state, event),
{
    let s = state;
    match event {
        GlExportEvent::Row => if s.current_part_rows >= s.rows_per_part && s.current_part < s.total_parts {
            let part = s.current_part + 1;
            (
                GlExportState { current_part: part, current_part_rows: 1, loaded: s.loaded + 1, ..s },
                GlExportAction::StartPartThenWrite { part },
            )
        } else {
            (
                GlExportState { current_part_rows: s.current_part_rows + 1, loaded: s.loaded + 1, ..s },
                GlExportAction::WriteRow,
            )
        },
        GlExportEvent::PageEnded { fetched } => match stream_next_offset(s.offset, fetched, STREAM_CHUNK_SIZE) {
            None => (s, GlExportAction::Finish),
            Some(offset) => (GlExportState { offset, ..s }, GlExportAction::FetchFrom { offset }),
        },
    }
}

/// Every part a General Ledger export opens is one of its planned parts:
/// the part number never passes the total.
pub proof fn lemma_gl_parts_within_plan(s: GlExportState, e: GlExportEvent)
    requires
        s.wf(),
        gl_event_fits(s, e),
        s.current_part <= s.total_parts,
    ensures
        gl_step_spec(s, e).0.current_part <= s.total_parts,
        gl_step_spec(s, e).0.loaded >= s.loaded,
{
}

/// A table export moves to a new Excel part only while rows remain, and each
/// part number is one more than the last.
pub proof fn lemma_new_part_only_while_rows_remain(s: TableExportRun, e: ExportEvent)
    requires
        s.wf(),
        export_event_fits(s, e),
        export_step_spec(s, e).1 is NewPart,
    ensures
        s.format == ExportFormat::Xlsx,
        s.processed < s.total_rows,
        export_step_spec(s, e).0.xlsx_part == s.xlsx_part + 1,
{
}

} // verus!
