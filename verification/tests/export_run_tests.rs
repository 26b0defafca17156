use sage_data_bridge::export::ExportFormat;
use sage_data_bridge::jobs::{ExportJobs, JobChange};
use sage_data_bridge::export::TableExportSpec;
use sage_data_bridge::export_run::{
    job_changes, gl_export_step, table_export_step, ExportAction, ExportEvent, GlExportAction, GlExportEvent,
    GlExportState, RunPhase, TableExportRun,
};

#[test]
fn a_cancelled_job_stops_before_it_starts() {
    let run = TableExportRun::new(ExportFormat::Csv);
    let (next, action) = table_export_step(&run, ExportEvent::SlotAcquired { cancelled: true });
    assert_eq!(action, ExportAction::Cancel);
    assert_eq!(next.phase, RunPhase::Done);
}

#[test]
fn a_table_export_counts_writes_and_completes() {
    let run = TableExportRun::new(ExportFormat::Csv);
    let (run, action) = table_export_step(&run, ExportEvent::SlotAcquired { cancelled: false });
    assert_eq!(action, ExportAction::Count);
    let (run, action) = table_export_step(&run, ExportEvent::Counted { total_rows: 4000 });
    assert_eq!(action, ExportAction::StartWriting);
    assert_eq!(run.total_rows, 4000);
    let mut run = run;
    for _ in 0..1999 {
        let (next, action) = table_export_step(&run, ExportEvent::RowArrived { cancelled: false });
        assert_eq!(action, ExportAction::WriteRow { flush: false });
        run = next;
    }
    let (run, action) = table_export_step(&run, ExportEvent::RowArrived { cancelled: false });
    assert_eq!(action, ExportAction::WriteRow { flush: true });
    assert_eq!(run.phase, RunPhase::Measuring);
    let (run, action) = table_export_step(&run, ExportEvent::Measured { bytes: 1000 });
    assert_eq!(action, ExportAction::Progress { processed_rows: 2000, bytes_written: 1000, percent: 50 });
    let (run, action) = table_export_step(&run, ExportEvent::RowsEnded { bytes: 1200 });
    assert_eq!(action, ExportAction::Finalize { processed_rows: 2000, bytes_written: 1200, numbered_part: None });
    let (run, action) = table_export_step(&run, ExportEvent::Replaced { final_bytes: 1300 });
    assert_eq!(action, ExportAction::Complete { bytes_written: 1300 });
    assert_eq!(run.phase, RunPhase::Done);
    let (_, action) = table_export_step(&run, ExportEvent::RowArrived { cancelled: false });
    assert_eq!(action, ExportAction::Ignore);
}

#[test]
fn a_cancelled_job_stops_mid_stream() {
    let run = TableExportRun::new(ExportFormat::Json);
    let (run, _) = table_export_step(&run, ExportEvent::SlotAcquired { cancelled: false });
    let (run, _) = table_export_step(&run, ExportEvent::Counted { total_rows: 10 });
    let (run, _) = table_export_step(&run, ExportEvent::RowArrived { cancelled: false });
    let (run, action) = table_export_step(&run, ExportEvent::RowArrived { cancelled: true });
    assert_eq!(action, ExportAction::Cancel);
    assert_eq!(run.processed, 1);
}

#[test]
fn an_excel_export_switches_parts_when_one_grows_large() {
    let run = TableExportRun {
        format: ExportFormat::Xlsx,
        phase: RunPhase::Measuring,
        total_rows: 10_000,
        processed: 4000,
        xlsx_part: 1,
        completed_bytes: 0,
    };
    let (run, action) = table_export_step(&run, ExportEvent::Measured { bytes: 450_000_000 });
    assert_eq!(
        action,
        ExportAction::NewPart {
            processed_rows: 4000,
            bytes_written: 450_000_000,
            percent: 40,
            finished_part: 1,
            next_part: 2
        }
    );
    assert_eq!((run.xlsx_part, run.completed_bytes, run.phase), (2, 450_000_000, RunPhase::Writing));
    let (_, action) = table_export_step(&run, ExportEvent::RowsEnded { bytes: 10 });
    assert_eq!(
        action,
        ExportAction::Finalize { processed_rows: 4000, bytes_written: 450_000_010, numbered_part: Some(2) }
    );
    let (_, action) = table_export_step(&run, ExportEvent::RowsEnded { bytes: 3_800_000_000 });
    assert_eq!(action, ExportAction::PartTooLarge);
}

#[test]
fn a_csv_export_never_switches_parts() {
    let run = TableExportRun {
        format: ExportFormat::Csv,
        phase: RunPhase::Measuring,
        total_rows: 10_000,
        processed: 4000,
        xlsx_part: 1,
        completed_bytes: 5,
    };
    let (_, action) = table_export_step(&run, ExportEvent::Measured { bytes: 900_000_000 });
    assert_eq!(action, ExportAction::Progress { processed_rows: 4000, bytes_written: 900_000_005, percent: 40 });
}

#[test]
fn the_ledger_export_opens_parts_and_stops_on_a_short_page() {
    let s = GlExportState::new(2, 2);
    let (s, a) = gl_export_step(s, GlExportEvent::Row);
    assert_eq!(a, GlExportAction::WriteRow);
    let (s, a) = gl_export_step(s, GlExportEvent::Row);
    assert_eq!(a, GlExportAction::WriteRow);
    let (s, a) = gl_export_step(s, GlExportEvent::Row);
    assert_eq!(a, GlExportAction::StartPartThenWrite { part: 2 });
    assert_eq!((s.current_part, s.current_part_rows, s.loaded), (2, 1, 3));
    let (s, a) = gl_export_step(s, GlExportEvent::Row);
    let (s, a2) = gl_export_step(s, GlExportEvent::Row);
    assert_eq!((a, a2), (GlExportAction::WriteRow, GlExportAction::WriteRow));
    assert_eq!((s.current_part, s.current_part_rows, s.loaded), (2, 3, 5));
    let (s, a) = gl_export_step(s, GlExportEvent::PageEnded { fetched: 2000 });
    assert_eq!(a, GlExportAction::FetchFrom { offset: 2000 });
    assert_eq!(s.offset, 2000);
    let (_, a) = gl_export_step(s, GlExportEvent::PageEnded { fetched: 5 });
    assert_eq!(a, GlExportAction::Finish);
}

#[test]
fn each_action_changes_the_job() {
    let run = TableExportRun::new(ExportFormat::Xlsx);
    let paths = vec!["/tmp/t.part-001.xlsx".to_string()];
    assert!(matches!(job_changes(&run, ExportAction::Cancel, "t1", &paths)[..], [JobChange::Cancelled { .. }]));
    assert!(matches!(job_changes(&run, ExportAction::Count, "t1", &paths)[..], [JobChange::Started { .. }]));
    assert!(job_changes(&run, ExportAction::WriteRow { flush: false }, "t1", &paths).is_empty());
    let changes = job_changes(
        &run,
        ExportAction::NewPart { processed_rows: 10, bytes_written: 99, percent: 5, finished_part: 1, next_part: 2 },
        "t1",
        &paths,
    );
    assert!(matches!(changes[0], JobChange::Progress { processed_rows: 10, bytes_written: 99 }));
    match &changes[1] {
        JobChange::NewPart { part, output_paths } => assert_eq!((*part, output_paths.clone()), (2, paths.clone())),
        _ => panic!("expected a new part"),
    }
    match &job_changes(&run, ExportAction::PartTooLarge, "t2", &paths)[0] {
        JobChange::Failed { error, finished_at } => {
            assert_eq!(error, "An Excel part exceeded the safe ZIP32 size limit");
            assert_eq!(finished_at, "t2");
        }
        _ => panic!("expected a failure"),
    }
}

#[test]
fn a_run_drives_its_job_to_completion() {
    let spec = TableExportSpec {
        connection_id: "c1".into(),
        schema: "dbo".into(),
        table: "T".into(),
        filters: vec![],
        selected_columns: vec![],
        format: "csv".into(),
        file_path: "/tmp/t.csv".into(),
    };
    let mut jobs = ExportJobs::new();
    jobs.start_table_export(&spec, "j1".into(), "t0".into(), "[]").unwrap();
    let paths: Vec<String> = vec![];
    let mut run = TableExportRun::new(ExportFormat::Csv);
    let mut finished: Vec<String> = vec![];
    for event in [
        ExportEvent::SlotAcquired { cancelled: false },
        ExportEvent::Counted { total_rows: 1 },
        ExportEvent::RowArrived { cancelled: false },
        ExportEvent::RowsEnded { bytes: 20 },
        ExportEvent::Replaced { final_bytes: 20 },
    ] {
        let (next, action) = table_export_step(&run, event);
        run = next;
        if let ExportAction::Finalize { .. } = action {
            finished.push("/tmp/t.csv".into());
        }
        let list = if matches!(action, ExportAction::Complete { .. }) { &finished } else { &paths };
        for change in job_changes(&run, action, "t1", list) {
            jobs.update_job("j1", change).unwrap();
        }
    }
    let job = jobs.get("j1").unwrap();
    assert_eq!(job.status, "completed");
    assert_eq!(job.percent, 100);
    assert_eq!(job.processed_rows, 1);
    assert_eq!(job.bytes_written, 20);
    assert_eq!(job.output_paths, vec!["/tmp/t.csv".to_string()]);
}
