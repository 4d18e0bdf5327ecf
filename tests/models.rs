use slatehub_api::models::{Person, PublicPerson, Timestamp};

#[test]
fn public_person_drops_private_fields() {
    let t = Timestamp { seconds: 1_700_000_000, nanos: 5 };
    let p = Person {
        id: "person:1".to_string(),
        username: "ana".to_string(),
        email: "ana@example.com".to_string(),
        password_hash: "hash".to_string(),
        name: Some("Ana".to_string()),
        stage_name: None,
        profile_image_id: Some("img".to_string()),
        created_at: t,
        updated_at: Timestamp { seconds: 1_800_000_000, nanos: 0 },
    };
    let q = PublicPerson::from(p);
    assert_eq!(q.id, "person:1");
    assert_eq!(q.username, "ana");
    assert_eq!(q.name, Some("Ana".to_string()));
    assert_eq!(q.stage_name, None);
    assert_eq!(q.profile_image_id, Some("img".to_string()));
    assert!(q.created_at == t);
}
