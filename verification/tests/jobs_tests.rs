use sage_data_bridge::export::TableExportSpec;
use sage_data_bridge::jobs::{copy_job, dedupe_key, ExportJobs, JobChange, MAX_EXPORT_JOBS};

fn spec(table: &str, path: &str) -> TableExportSpec {
    TableExportSpec {
        connection_id: "c1".into(),
        schema: "dbo".into(),
        table: table.into(),
        filters: vec![],
        selected_columns: vec!["CG_Num".into(), "Montant".into()],
        format: "xlsx".into(),
        file_path: path.into(),
    }
}

#[test]
fn dedupe_keys_name_the_export() {
    assert_eq!(
        dedupe_key(&spec("F_ECRITUREC", "/tmp/a.xlsx"), "[]"),
        "table:c1:dbo:F_ECRITUREC:xlsx:[]:[\"CG_Num\",\"Montant\"]"
    );
}

#[test]
fn dedupe_keys_escape_column_names_as_json() {
    let mut s = spec("T", "/tmp/b.csv");
    s.selected_columns = vec!["a\"b\\c\n\u{1}\u{8}é".into(), "x".into()];
    let expected = format!("table:c1:dbo:T:xlsx:[]:{}", serde_json::to_string(&s.selected_columns).unwrap());
    assert_eq!(dedupe_key(&s, "[]"), expected);
    assert!(dedupe_key(&s, "[]").ends_with(r#":["a\"b\\c\n\u0001\bé","x"]"#));
    s.selected_columns = vec![];
    assert_eq!(dedupe_key(&s, "[]"), "table:c1:dbo:T:xlsx:[]:[]");
}

#[test]
fn a_new_export_is_queued() {
    let mut jobs = ExportJobs::new();
    let job = jobs
        .start_table_export(&spec("F_ECRITUREC", "/tmp/a.xlsx"), "j1".into(), "2024-01-01T10:00:00Z".into(), "[]")
        .unwrap();
    assert_eq!(job.id, "j1");
    assert_eq!(job.kind, "table-xlsx");
    assert_eq!(job.label, "dbo.F_ECRITUREC (XLSX)");
    assert_eq!(job.status, "queued");
    assert_eq!(job.phase, "queued");
    assert_eq!(job.output_paths, vec!["/tmp/a.xlsx".to_string()]);
    assert!(job.cancellable);
    assert!(!job.cancel_requested);
    assert_eq!(jobs.len(), 1);
}

#[test]
fn an_equal_running_export_is_reused() {
    let mut jobs = ExportJobs::new();
    jobs.start_table_export(&spec("T", "/tmp/a.xlsx"), "j1".into(), "t1".into(), "[]").unwrap();
    let again = jobs
        .start_table_export(&spec("T", "/tmp/a.xlsx"), "j2".into(), "t2".into(), "[]")
        .unwrap();
    assert_eq!(again.id, "j1");
    assert_eq!(jobs.len(), 1);
    let clash = jobs.start_table_export(&spec("U", "/tmp/a.xlsx"), "j3".into(), "t3".into(), "[]");
    assert_eq!(clash.unwrap_err(), "Another export is already writing to this output path");
    let other = jobs
        .start_table_export(&spec("U", "/tmp/b.xlsx"), "j4".into(), "t4".into(), "[]")
        .unwrap();
    assert_eq!(other.id, "j4");
    assert_eq!(jobs.len(), 2);
}

#[test]
fn a_finished_export_can_be_run_again() {
    let mut jobs = ExportJobs::new();
    jobs.start_table_export(&spec("T", "/tmp/a.xlsx"), "j1".into(), "t1".into(), "[]").unwrap();
    jobs.update_job(
        "j1",
        JobChange::Completed { bytes_written: 10, finished_at: "t9".into(), output_paths: vec!["/tmp/a.xlsx".into()] },
    )
    .unwrap();
    let again = jobs
        .start_table_export(&spec("T", "/tmp/a.xlsx"), "j2".into(), "t2".into(), "[]")
        .unwrap();
    assert_eq!(again.id, "j2");
    assert_eq!(jobs.len(), 2);
}

#[test]
fn jobs_move_through_their_phases() {
    let mut jobs = ExportJobs::new();
    jobs.start_table_export(&spec("T", "/tmp/a.xlsx"), "j1".into(), "t1".into(), "[]").unwrap();
    let j = jobs.update_job("j1", JobChange::Started { started_at: "t2".into() }).unwrap();
    assert_eq!((j.status.as_str(), j.phase.as_str()), ("running", "counting"));
    assert_eq!(j.started_at, Some("t2".to_string()));
    let j = jobs.update_job("j1", JobChange::Counted { total_rows: 400 }).unwrap();
    assert_eq!((j.total_rows, j.phase.as_str()), (400, "writing"));
    let j = jobs.update_job("j1", JobChange::Progress { processed_rows: 100, bytes_written: 2048 }).unwrap();
    assert_eq!((j.processed_rows, j.bytes_written, j.percent), (100, 2048, 25));
    let j = jobs.update_job("j1", JobChange::Progress { processed_rows: 400, bytes_written: 4096 }).unwrap();
    assert_eq!(j.percent, 99);
    let j = jobs
        .update_job("j1", JobChange::NewPart { part: 2, output_paths: vec!["/tmp/a_part001.xlsx".into()] })
        .unwrap();
    assert_eq!(j.phase, "writing Excel part 2");
    assert_eq!(j.output_paths, vec!["/tmp/a_part001.xlsx".to_string()]);
    let j = jobs.update_job("j1", JobChange::Finalizing { processed_rows: 400, bytes_written: 5000 }).unwrap();
    assert_eq!((j.phase.as_str(), j.percent), ("finalizing", 99));
    let j = jobs
        .update_job(
            "j1",
            JobChange::Completed {
                bytes_written: 6000,
                finished_at: "t3".into(),
                output_paths: vec!["/tmp/a_part001.xlsx".into(), "/tmp/a_part002.xlsx".into()],
            },
        )
        .unwrap();
    assert_eq!((j.status.as_str(), j.phase.as_str(), j.percent), ("completed", "completed", 100));
    assert!(!j.cancellable);
    assert_eq!(j.output_paths.len(), 2);
    assert_eq!(jobs.update_job("nope", JobChange::Counted { total_rows: 1 }).unwrap_err(), "Export job 'nope' not found");
}

#[test]
fn failures_and_empty_tables_are_recorded() {
    let mut jobs = ExportJobs::new();
    jobs.start_table_export(&spec("T", "/tmp/a.csv"), "j1".into(), "t1".into(), "[]").unwrap();
    let j = jobs.update_job("j1", JobChange::Progress { processed_rows: 0, bytes_written: 0 }).unwrap();
    assert_eq!(j.percent, 99);
    let j = jobs
        .update_job("j1", JobChange::Failed { error: "boom".into(), finished_at: "t2".into() })
        .unwrap();
    assert_eq!((j.status.as_str(), j.phase.as_str()), ("failed", "failed"));
    assert_eq!(j.error, Some("boom".to_string()));
}

#[test]
fn only_active_jobs_are_cancelled() {
    let mut jobs = ExportJobs::new();
    jobs.start_table_export(&spec("T", "/tmp/a.xlsx"), "j1".into(), "t1".into(), "[]").unwrap();
    assert!(!jobs.is_cancelled("j1"));
    let j = jobs.cancel_export_job("j1").unwrap();
    assert!(j.cancel_requested);
    assert_eq!(j.phase, "cancelling");
    assert!(jobs.is_cancelled("j1"));
    let j = jobs.update_job("j1", JobChange::Cancelled { finished_at: "t2".into() }).unwrap();
    assert_eq!(j.status, "cancelled");
    let again = jobs.cancel_export_job("j1").unwrap();
    assert_eq!(again.phase, "cancelled");
    assert_eq!(jobs.cancel_export_job("j9").unwrap_err(), "Export job 'j9' not found");
    assert!(!jobs.is_cancelled("j9"));
}

#[test]
fn jobs_are_listed_newest_first() {
    let mut jobs = ExportJobs::new();
    jobs.start_table_export(&spec("A", "/tmp/a"), "a".into(), "2024-01-02".into(), "[]").unwrap();
    jobs.start_table_export(&spec("B", "/tmp/b"), "b".into(), "2024-01-03".into(), "[]").unwrap();
    jobs.start_table_export(&spec("C", "/tmp/c"), "c".into(), "2024-01-01".into(), "[]").unwrap();
    let ids: Vec<String> = jobs.list_export_jobs().into_iter().map(|j| j.id).collect();
    assert_eq!(ids, vec!["b".to_string(), "a".to_string(), "c".to_string()]);
    let got = jobs.get("a").unwrap();
    assert_eq!(copy_job(&got).label, "dbo.A (XLSX)");
}

#[test]
fn the_oldest_finished_jobs_make_room() {
    let mut jobs = ExportJobs::new();
    for n in 0..MAX_EXPORT_JOBS {
        let id = format!("j{:03}", n);
        let path = format!("/tmp/{}.csv", id);
        jobs.start_table_export(&spec(&id, &path), id.clone(), format!("2024-01-01T00:{:03}", n), "[]")
            .unwrap();
        if n % 2 == 0 {
            jobs.update_job(&id, JobChange::Failed { error: "x".into(), finished_at: "t".into() }).unwrap();
        }
    }
    assert_eq!(jobs.len(), 100);
    jobs.start_table_export(&spec("new", "/tmp/new.csv"), "new".into(), "2024-02-01".into(), "[]").unwrap();
    assert_eq!(jobs.len(), 100);
    assert!(jobs.get("j000").is_none());
    assert!(jobs.get("j001").is_some());
    assert!(jobs.get("j002").is_some());
    assert!(jobs.get("new").is_some());
}
