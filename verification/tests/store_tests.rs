use backend::store::UserStore;
use backend::CreateUser;
use backend::UpdateUser;

fn create_input(name: &str, email: &str) -> CreateUser {
    CreateUser { name: name.to_string(), email: email.to_string() }
}

#[test]
fn create_assigns_first_id_and_timestamp() {
    let mut store = UserStore::new();
    let u = store.create(&create_input("Ada", "ada@example.com"), "2024-01-01 00:00:00");
    assert_eq!(u.id, 1);
    assert_eq!(u.name, "Ada");
    assert_eq!(u.email, "ada@example.com");
    assert_eq!(u.created_at.as_deref(), Some("2024-01-01 00:00:00"));
}

#[test]
fn create_then_list_contains_exactly_one_match() {
    let mut store = UserStore::new();
    store.create(&create_input("Grace", "grace@example.com"), "2024-01-01 00:00:00");
    let u = store.create(&create_input("Ada", "ada@example.com"), "2024-01-02 12:30:00");
    let rows = store.list();
    let matching: Vec<_> = rows
        .iter()
        .filter(|r| r.name == "Ada" && r.email == "ada@example.com")
        .collect();
    assert_eq!(matching.len(), 1);
    assert_eq!(matching[0].id, u.id);
    assert!(matching[0].id >= 1);
    assert!(matching[0].created_at.is_some());
}

#[test]
fn update_existing_id_keeps_id_and_timestamp() {
    let mut store = UserStore::new();
    let u = store.create(&create_input("Ada", "ada@example.com"), "2024-01-01 00:00:00");
    let updated = store
        .update(u.id, &UpdateUser { name: "Ada L.".to_string(), email: "ada@example.com".to_string() })
        .expect("row exists");
    assert_eq!(updated.id, 1);
    assert_eq!(updated.name, "Ada L.");
    assert_eq!(updated.email, "ada@example.com");
    assert_eq!(updated.created_at.as_deref(), Some("2024-01-01 00:00:00"));
    let fetched = store.get(u.id).expect("row exists");
    assert_eq!(fetched.name, "Ada L.");
    assert_eq!(fetched.email, "ada@example.com");
    assert_eq!(fetched.id, 1);
    assert_eq!(fetched.created_at.as_deref(), Some("2024-01-01 00:00:00"));
}

#[test]
fn update_missing_id_changes_nothing() {
    let mut store = UserStore::new();
    store.create(&create_input("Ada", "ada@example.com"), "2024-01-01 00:00:00");
    let r = store.update(
        999,
        &UpdateUser { name: "X".to_string(), email: "x@example.com".to_string() },
    );
    assert!(r.is_none());
    let rows = store.list();
    assert_eq!(rows.len(), 1);
    assert_eq!(rows[0].name, "Ada");
}

#[test]
fn delete_then_fetch_finds_nothing() {
    let mut store = UserStore::new();
    let u = store.create(&create_input("Ada", "ada@example.com"), "2024-01-01 00:00:00");
    store.delete(u.id);
    assert!(store.get(u.id).is_none());
    assert_eq!(store.list().len(), 0);
}

#[test]
fn second_delete_of_same_id_is_harmless() {
    let mut store = UserStore::new();
    let u = store.create(&create_input("Ada", "ada@example.com"), "2024-01-01 00:00:00");
    store.create(&create_input("Grace", "grace@example.com"), "2024-01-02 00:00:00");
    store.delete(u.id);
    store.delete(u.id);
    let rows = store.list();
    assert_eq!(rows.len(), 1);
    assert_eq!(rows[0].name, "Grace");
}

#[test]
fn delete_of_unknown_id_is_harmless() {
    let mut store = UserStore::new();
    store.create(&create_input("Ada", "ada@example.com"), "2024-01-01 00:00:00");
    store.delete(999);
    assert_eq!(store.list().len(), 1);
}

#[test]
fn ids_are_not_reused_after_delete() {
    let mut store = UserStore::new();
    let a = store.create(&create_input("Ada", "ada@example.com"), "2024-01-01 00:00:00");
    store.delete(a.id);
    let b = store.create(&create_input("Grace", "grace@example.com"), "2024-01-02 00:00:00");
    assert_eq!(b.id, 2);
}

#[test]
fn list_after_n_creates_has_n_populated_rows() {
    let mut store = UserStore::new();
    let n = 7;
    for i in 0..n {
        store.create(
            &create_input(&format!("user{}", i), &format!("user{}@example.com", i)),
            "2024-01-01 00:00:00",
        );
    }
    let rows = store.list();
    assert_eq!(rows.len(), n);
    for row in &rows {
        assert!(row.id >= 1);
        assert!(row.created_at.is_some());
    }
    let mut ids: Vec<i32> = rows.iter().map(|r| r.id).collect();
    ids.sort();
    ids.dedup();
    assert_eq!(ids.len(), n);
}
