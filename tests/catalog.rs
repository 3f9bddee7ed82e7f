use adba::database::{CatalogLookup, CatalogRecord, DatabaseEngine, DatabaseInfo, DatabaseStatus};
use adba::error::AdbaError;
use std::path::PathBuf;

fn record(id: &str, name: &str, app: &str, at: i64) -> CatalogRecord {
    CatalogRecord { id: id.to_string(), name: name.to_string(), client_app: app.to_string(), created_at: at }
}

#[test]
fn engine_keeps_its_data_dir() {
    let e = DatabaseEngine::new(PathBuf::from("/srv/adba/data"));
    assert_eq!(e.data_dir(), &PathBuf::from("/srv/adba/data"));
}

#[test]
fn created_database_has_no_tables_and_is_active() {
    let info = DatabaseEngine::created_info(record("id-1", "Foo", "app1", 1700000000000), 0);
    assert_eq!(info.tables_count, 0);
    assert_eq!(info.size_bytes, 0);
    assert_eq!(info.status, DatabaseStatus::Active);
    assert_eq!(info.name, "Foo");
    assert_eq!(info.client_app, "app1");
    assert_eq!(info.id, "id-1");
    assert_eq!(info.created_at, 1700000000000);
}

#[test]
fn record_info_joins_file_facts() {
    let info = DatabaseEngine::record_info(record("x", "orders", "shop", 5), 8192, 3);
    assert_eq!(
        info,
        DatabaseInfo {
            id: "x".to_string(),
            name: "orders".to_string(),
            client_app: "shop".to_string(),
            created_at: 5,
            size_bytes: 8192,
            tables_count: 3,
            status: DatabaseStatus::Active,
        }
    );
}

#[test]
fn listing_skips_unreadable_rows_and_keeps_order() {
    let a = DatabaseEngine::record_info(record("a", "a", "x", 3), 1, 0);
    let b = DatabaseEngine::record_info(record("b", "b", "x", 2), 2, 1);
    let listed = DatabaseEngine::collect_listing(vec![Some(a.clone()), None, Some(b.clone()), None]);
    assert_eq!(listed, vec![a, b]);
    assert!(DatabaseEngine::collect_listing(Vec::new()).is_empty());
}

#[test]
fn lookup_without_rows_is_not_an_error() {
    assert_eq!(DatabaseEngine::lookup_result(CatalogLookup::NoRows), Ok(None));
}

#[test]
fn lookup_found_and_failed() {
    let a = DatabaseEngine::record_info(record("a", "a", "x", 3), 1, 0);
    assert_eq!(DatabaseEngine::lookup_result(CatalogLookup::Found(a.clone())), Ok(Some(a)));
    assert_eq!(
        DatabaseEngine::lookup_result(CatalogLookup::Failed("disk I/O error".to_string())),
        Err(AdbaError::Database("disk I/O error".to_string()))
    );
}

#[test]
fn error_descriptions() {
    assert_eq!(AdbaError::Database("x".to_string()).describe(), "Database error: x");
    assert_eq!(AdbaError::Auth("Invalid pairing code".to_string()).describe(), "Authentication failed: Invalid pairing code");
    assert_eq!(AdbaError::NotFound("orders".to_string()).describe(), "Database not found: orders");
    assert_eq!(AdbaError::Io("denied".to_string()).describe(), "IO error: denied");
    assert_eq!(AdbaError::Server("s".to_string()).describe(), "Server error: s");
    assert_eq!(AdbaError::Network("n".to_string()).describe(), "Network error: n");
    assert_eq!(AdbaError::Discovery("d".to_string()).describe(), "Discovery error: d");
}
