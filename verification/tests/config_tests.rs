use sage_data_bridge::settings::{hash_secret, verify_secret};
use sage_data_bridge::config::{
    append_query_history, clear_query_history, delete_connection, delete_saved_query,
    get_field_history, get_settings, has_admin_password, has_password, has_pin, list_connections,
    list_query_history, list_saved_queries, remove_admin_password, remove_field_history_entry,
    remove_password, save_connection, save_field_history, save_saved_query, save_settings,
    set_admin_password, set_password, verify_admin_password, verify_password, verify_pin,
    AppConfig, QueryHistoryEntry, SavedQuery,
};
use sage_data_bridge::connection::ConnectionConfig;
use sage_data_bridge::settings::AppSettings;

fn config() -> AppConfig {
    AppConfig {
        connections: vec![],
        saved_queries: vec![],
        query_history: vec![],
        input_history: vec![],
        password_hash: None,
        admin_password_hash: None,
        query_timeout_secs: 30,
        dashboard_timeout_secs: 60,
        login_timeout_secs: 15,
        account_ar: "411000".into(),
        account_sales: "701000".into(),
        account_vat: "443100".into(),
    }
}

fn profile(id: &str, password: &str) -> ConnectionConfig {
    ConnectionConfig {
        id: id.into(),
        name: "Compta".into(),
        host: " srv-sql ".into(),
        instance_name: "SAGE".into(),
        port: 1433,
        database: "COMPTA".into(),
        username: "sa".into(),
        password: password.into(),
        use_windows_auth: false,
        encrypt: true,
        trust_cert: true,
        sage_edition: "sage100".into(),
        custom_schema: None,
    }
}

fn query(id: &str, connection: &str, updated_at: &str) -> SavedQuery {
    SavedQuery {
        id: id.into(),
        connection_id: connection.into(),
        name: format!("q{}", id),
        sql: "SELECT 1".into(),
        updated_at: updated_at.into(),
    }
}

fn run(id: &str, connection: &str, ran_at: &str) -> QueryHistoryEntry {
    QueryHistoryEntry {
        id: id.into(),
        connection_id: connection.into(),
        connection_name: "Compta".into(),
        sql: "SELECT 1".into(),
        ran_at: ran_at.into(),
        ok: true,
        row_count: Some(1),
        error: None,
    }
}

#[test]
fn passwords_are_optional() {
    let mut c = config();
    assert!(!has_password(&c));
    assert_eq!(verify_password(&c, "anything"), Ok(true));
    assert_eq!(verify_pin(&c, "1234"), Ok(true));
    c.password_hash = Some("not a phc string".into());
    assert!(has_password(&c));
    assert!(has_pin(&c));
    assert!(verify_password(&c, "anything").is_err());
    remove_password(&mut c);
    assert!(!has_password(&c));
    c.admin_password_hash = Some("x".into());
    assert!(has_admin_password(&c));
    assert!(!has_password(&c));
    assert!(verify_admin_password(&c, "x").is_err());
    remove_admin_password(&mut c);
    assert_eq!(verify_admin_password(&c, "x"), Ok(true));
}

#[test]
fn a_set_password_is_hashed_and_then_accepted() {
    let mut c = config();
    set_password(&mut c, "s3cret").unwrap();
    let stored = c.password_hash.clone().unwrap();
    assert!(stored.starts_with("$argon2id$"));
    assert_ne!(stored, "s3cret");
    assert_eq!(verify_password(&c, "s3cret"), Ok(true));
    assert_eq!(verify_password(&c, "other"), Ok(false));
    assert_eq!(c.admin_password_hash, None);
    set_admin_password(&mut c, "root").unwrap();
    assert_eq!(verify_admin_password(&c, "root"), Ok(true));
    assert_eq!(verify_admin_password(&c, "s3cret"), Ok(false));
    assert_eq!(c.password_hash, Some(stored));
    let first = hash_secret("same").unwrap();
    let second = hash_secret("same").unwrap();
    assert_ne!(first, second);
    assert_eq!(verify_secret("same", &first), Ok(true));
    assert_eq!(verify_secret("same", &second), Ok(true));
}

#[test]
fn settings_round_trip() {
    let mut c = config();
    let s = get_settings(&c);
    assert_eq!((s.query_timeout_secs, s.account_vat.as_str()), (30, "443100"));
    save_settings(
        &mut c,
        AppSettings {
            query_timeout_secs: 120,
            dashboard_timeout_secs: 300,
            login_timeout_secs: 20,
            account_ar: "411100".into(),
            account_sales: "706000".into(),
            account_vat: "443200".into(),
        },
    );
    let s = get_settings(&c);
    assert_eq!(s.query_timeout_secs, 120);
    assert_eq!(s.dashboard_timeout_secs, 300);
    assert_eq!(s.account_sales, "706000");
}

#[test]
fn field_history_keeps_recent_distinct_values() {
    let mut c = config();
    save_field_history(&mut c, "host".into(), "  ");
    assert!(c.input_history.is_empty());
    for n in 0..12 {
        save_field_history(&mut c, "host".into(), &format!(" srv{} ", n));
    }
    save_field_history(&mut c, "host".into(), "srv5");
    let h = get_field_history(&c, "host");
    assert_eq!(h.len(), 10);
    assert_eq!(h[0], "srv5");
    assert_eq!(h[1], "srv11");
    assert_eq!(h.iter().filter(|v| v.as_str() == "srv5").count(), 1);
    remove_field_history_entry(&mut c, "host", "srv5");
    assert_eq!(get_field_history(&c, "host")[0], "srv11");
    assert!(get_field_history(&c, "database").is_empty());
}

#[test]
fn saved_profiles_keep_their_password_and_list_it_masked() {
    let mut c = config();
    let saved = save_connection(&mut c, profile("", "secret"), "id-1".into());
    assert_eq!(saved.id, "id-1");
    assert_eq!(saved.password, "secret");
    let listed = list_connections(&c);
    assert_eq!(listed[0].password, "••••••••");
    let updated = save_connection(&mut c, profile("id-1", "••••••••"), "unused".into());
    assert_eq!(updated.password, "secret");
    assert_eq!(c.connections.len(), 1);
    assert_eq!(c.connections[0].password, "secret");
    save_connection(&mut c, profile("id-1", "new"), "unused".into());
    assert_eq!(c.connections[0].password, "new");
    let mut blank = profile("", "");
    blank.id = "id-2".into();
    save_connection(&mut c, blank, "unused".into());
    assert_eq!(list_connections(&c)[1].password, "");
    assert_eq!(get_field_history(&c, "conn_host"), vec!["srv-sql".to_string()]);
    assert_eq!(get_field_history(&c, "conn_database"), vec!["COMPTA".to_string()]);
}

#[test]
fn deleting_a_profile_deletes_its_queries_and_history() {
    let mut c = config();
    save_connection(&mut c, profile("a", ""), "a".into());
    let mut other = profile("b", "");
    other.id = "b".into();
    save_connection(&mut c, other, "b".into());
    save_saved_query(&mut c, query("q1", "a", ""), "t1".into(), "n1".into());
    save_saved_query(&mut c, query("q2", "b", ""), "t2".into(), "n2".into());
    append_query_history(&mut c, run("r1", "a", "t1"));
    append_query_history(&mut c, run("r2", "b", "t2"));
    delete_connection(&mut c, "a");
    assert_eq!(c.connections.len(), 1);
    assert_eq!(c.connections[0].id, "b");
    assert_eq!(c.saved_queries.len(), 1);
    assert_eq!(c.saved_queries[0].id, "q2");
    assert_eq!(c.query_history.len(), 1);
    assert_eq!(c.query_history[0].id, "r2");
}

#[test]
fn saved_queries_are_listed_most_recent_first() {
    let mut c = config();
    let first = save_saved_query(&mut c, query("", "a", ""), "2024-01-01".into(), "n1".into());
    assert_eq!(first.id, "n1");
    save_saved_query(&mut c, query("q2", "a", ""), "2024-01-03".into(), "n2".into());
    save_saved_query(&mut c, query("q3", "b", ""), "2024-01-02".into(), "n3".into());
    let mut edit = query("n1", "a", "");
    edit.name = "renamed".into();
    let edited = save_saved_query(&mut c, edit, "2024-01-04".into(), "n4".into());
    assert_eq!((edited.id.as_str(), edited.name.as_str()), ("n1", "renamed"));
    assert_eq!(c.saved_queries.len(), 3);
    let all: Vec<String> = list_saved_queries(&c, None).into_iter().map(|q| q.id).collect();
    assert_eq!(all, vec!["n1".to_string(), "q2".to_string(), "q3".to_string()]);
    let of_a: Vec<String> = list_saved_queries(&c, Some("a")).into_iter().map(|q| q.id).collect();
    assert_eq!(of_a, vec!["n1".to_string(), "q2".to_string()]);
    delete_saved_query(&mut c, "q2");
    assert_eq!(c.saved_queries.len(), 2);
}

#[test]
fn query_history_is_capped_and_newest_first() {
    let mut c = config();
    for n in 0..105 {
        append_query_history(&mut c, run(&format!("r{:03}", n), if n % 2 == 0 { "a" } else { "b" }, &format!("t{:03}", n)));
    }
    assert_eq!(c.query_history.len(), 100);
    assert_eq!(c.query_history[0].id, "r104");
    let of_b = list_query_history(&c, Some("b"));
    assert_eq!(of_b[0].id, "r103");
    assert!(of_b.iter().all(|e| e.connection_id == "b"));
    clear_query_history(&mut c, Some("a"));
    assert!(c.query_history.iter().all(|e| e.connection_id == "b"));
    clear_query_history(&mut c, None);
    assert!(c.query_history.is_empty());
}
