use sage_data_bridge::connection::{
    connection_profile_summary, dashboard_timeout_secs, decode_odbc_text, decode_windows_1252,
    odbc_server, resolve_tds_target, shorten_sql, tds_settings, ConnectionConfig,
    QueryExecutionContext,
};
use sage_data_bridge::credentials::{
    credential_blob_size, delete_outcome, last_error, read_outcome, target_name, wide, CallFailure,
};
use sage_data_bridge::settings::{
    check_password, forget_field_value, mask_password, password_to_store, push_recent,
    recent_field_values, remember_field_value, verify_secret,
};

fn profile(host: &str, instance: &str) -> ConnectionConfig {
    ConnectionConfig {
        id: "c1".into(),
        name: "Main".into(),
        host: host.into(),
        instance_name: instance.into(),
        port: 1433,
        database: " COMPTA ".into(),
        username: "sa".into(),
        password: "secret".into(),
        use_windows_auth: false,
        encrypt: true,
        trust_cert: false,
        sage_edition: "auto".into(),
        custom_schema: None,
    }
}

#[test]
fn profile_summary_never_shows_credentials() {
    assert_eq!(
        connection_profile_summary(&profile(" srv ", "SAGE")),
        "server=srv\\SAGE database=COMPTA auth=sql encrypt=true trust_cert=false"
    );
    let mut windows = profile("srv", "");
    windows.use_windows_auth = true;
    assert_eq!(
        connection_profile_summary(&windows),
        "server=srv database=COMPTA auth=windows encrypt=true trust_cert=false"
    );
}

#[test]
fn odbc_server_forms() {
    assert_eq!(odbc_server(&profile("srv", "INST")), "srv\\INST");
    assert_eq!(odbc_server(&profile("sqlexpress", "")), ".\\SQLEXPRESS");
    assert_eq!(odbc_server(&profile("srv\\X", "")), "srv\\X");
    assert_eq!(odbc_server(&profile("(LOCAL)", "")), "localhost,1433");
    assert_eq!(odbc_server(&profile("", "")), "localhost,1433");
    assert_eq!(odbc_server(&profile("db.example", "")), "db.example,1433");
}

#[test]
fn tds_targets() {
    assert_eq!(resolve_tds_target("srv", "INST"), ("srv".to_string(), Some("INST".to_string())));
    assert_eq!(resolve_tds_target(".\\SAGE\\X", ""), ("localhost".to_string(), Some("SAGE\\X".to_string())));
    assert_eq!(resolve_tds_target("SQLExpress", ""), ("localhost".to_string(), Some("SQLEXPRESS".to_string())));
    assert_eq!(resolve_tds_target(".", ""), ("localhost".to_string(), None));
    assert_eq!(resolve_tds_target(" host ", " "), ("host".to_string(), None));
    let settings = tds_settings(&profile("srv\\", "")).unwrap();
    assert_eq!(settings.host, "srv");
    assert_eq!(settings.instance_name, None);
    assert_eq!(settings.database, Some(" COMPTA ".to_string()));
    let mut windows = profile("srv", "");
    windows.use_windows_auth = true;
    assert_eq!(tds_settings(&windows).err(), Some("Windows authentication is only supported on Windows".to_string()));
}

#[test]
fn query_contexts_and_timeouts() {
    let ctx = QueryExecutionContext::new("get_balance", "dashboard_balance")
        .with_connection_id("c1")
        .with_database("COMPTA")
        .with_table("[dbo].[F_ECRITUREC]")
        .with_timeout_secs(0);
    assert_eq!(ctx.endpoint, "get_balance");
    assert_eq!(ctx.table, "[dbo].[F_ECRITUREC]");
    assert_eq!(ctx.timeout_secs, Some(1));
    assert_eq!(ctx.resolved_timeout(), 1);
    assert_eq!(QueryExecutionContext::new("a", "b").resolved_timeout(), 30);
    assert_eq!(dashboard_timeout_secs(None), 35);
    assert_eq!(dashboard_timeout_secs(Some(0)), 1);
    assert_eq!(dashboard_timeout_secs(Some(90)), 90);
}

#[test]
fn sql_is_collapsed_and_shortened() {
    assert_eq!(shorten_sql("  SELECT *\n   FROM  t  ", 100), "SELECT * FROM t");
    assert_eq!(shorten_sql("SELECT a FROM t", 6), "SELECT…");
}

#[test]
fn odbc_text_decoding() {
    assert_eq!(decode_windows_1252(&[0x80, 0x41, 0xE9, 0x9F]), "€AéŸ");
    assert_eq!(decode_odbc_text("Société".as_bytes()), "Société");
    assert_eq!(decode_odbc_text(&[0x53, 0x6F, 0x63, 0x69, 0xE9, 0x74, 0xE9]), "Société");
}

#[test]
fn credential_entries() {
    assert_eq!(target_name("abc"), "SageDataBridge/connection/abc");
    assert_eq!(wide("A€😀"), vec![0x41, 0x20AC, 0xD83D, 0xDE00, 0]);
    assert!(last_error("read").starts_with("Windows Credential Manager read failed: "));
    let unavailable = "Windows Credential Manager is only available on Windows".to_string();
    assert_eq!(sage_data_bridge::credentials::write("c1", "pw"), Err(unavailable.clone()));
    assert_eq!(sage_data_bridge::credentials::read("c1"), Err(unavailable.clone()));
    assert_eq!(sage_data_bridge::credentials::delete("c1"), Err(unavailable));
}

#[test]
fn field_history_most_recent_first() {
    let mut list: Vec<String> = Vec::new();
    for i in 0..12 {
        list = remember_field_value(list, &format!(" v{} ", i));
    }
    assert_eq!(list.len(), 10);
    assert_eq!(list[0], "v11");
    list = remember_field_value(list, "v5");
    assert_eq!(list[0], "v5");
    assert_eq!(list.iter().filter(|v| v.as_str() == "v5").count(), 1);
    assert_eq!(list.len(), 10);
    let unchanged = remember_field_value(list.clone(), "   ");
    assert_eq!(unchanged, list);
    let forgotten = forget_field_value(list.clone(), "v5");
    assert!(!forgotten.iter().any(|v| v == "v5"));
    assert_eq!(recent_field_values(list).len(), 10);
    let history = push_recent(vec![1, 2, 3], 0, 3);
    assert_eq!(history, vec![0, 1, 2]);
}

#[test]
fn passwords_masked_and_checked() {
    assert_eq!(mask_password(""), "");
    assert_eq!(mask_password("pw"), "••••••••");
    assert_eq!(password_to_store("••••••••", "old"), "old");
    assert_eq!(password_to_store("new", "old"), "new");
    assert_eq!(check_password(None, "anything"), Ok(true));
    assert!(check_password(Some("not a phc string"), "pw").is_err());
    assert!(verify_secret("pw", "").is_err());
    let salt = argon2::password_hash::SaltString::from_b64("c2FsdHNhbHRzYWx0c2FsdA").unwrap();
    let hash = argon2::PasswordHasher::hash_password(&argon2::Argon2::default(), b"pw", &salt)
        .unwrap()
        .to_string();
    assert_eq!(check_password(Some(&hash), "pw"), Ok(true));
    assert_eq!(check_password(Some(&hash), "other"), Ok(false));
}

#[test]
fn credential_manager_answers() {
    let missing = || CallFailure { code: Some(1168), text: "Element not found.".into() };
    let denied = || CallFailure { code: Some(5), text: "Access is denied.".into() };
    assert_eq!(read_outcome(Err(missing())), Ok(None));
    assert_eq!(read_outcome(Err(denied())), Err("Windows Credential Manager read failed: Access is denied.".to_string()));
    assert_eq!(read_outcome(Ok("pässword".as_bytes().to_vec())), Ok(Some("pässword".to_string())));
    assert_eq!(read_outcome(Ok(vec![0xff, 0xfe])), Err("Stored database credential is not valid UTF-8".to_string()));
    assert_eq!(delete_outcome(Err(missing())), Ok(()));
    assert_eq!(delete_outcome(Ok(())), Ok(()));
    assert_eq!(delete_outcome(Err(denied())), Err("Windows Credential Manager delete failed: Access is denied.".to_string()));
    assert_eq!(credential_blob_size(12), Ok(12));
}
