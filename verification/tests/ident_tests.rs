use uuid::{Uuid, Variant, Version};
use webm_jobs::ident::assign_job_id;

#[test]
fn a_supplied_identifier_is_kept() {
    assert_eq!(assign_job_id(Some("my-job".to_string())), "my-job");
    assert_eq!(assign_job_id(Some(String::new())), "");
    assert_eq!(assign_job_id(Some("Über Job 7".to_string())), "Über Job 7");
}

#[test]
fn a_fresh_identifier_is_a_hyphenated_lower_case_uuid() {
    for _ in 0..200 {
        let id = assign_job_id(None);
        let c: Vec<char> = id.chars().collect();
        assert_eq!(c.len(), 36);
        for (i, ch) in c.iter().enumerate() {
            if i == 8 || i == 13 || i == 18 || i == 23 {
                assert_eq!(*ch, '-');
            } else {
                assert!(matches!(*ch, '0'..='9' | 'a'..='f'), "char {:?} at {}", ch, i);
            }
        }
        assert_eq!(c[14], '4');
        assert!(matches!(c[19], '8' | '9' | 'a' | 'b'));
    }
}

#[test]
fn a_fresh_identifier_is_a_random_uuid() {
    let id = assign_job_id(None);
    let uuid = Uuid::parse_str(&id).unwrap();
    assert_eq!(uuid.get_version(), Some(Version::Random));
    assert_eq!(uuid.get_variant(), Variant::RFC4122);
    assert_eq!(uuid.to_string(), id);
}

#[test]
fn fresh_identifiers_differ() {
    let mut seen = std::collections::HashSet::new();
    for _ in 0..1000 {
        assert!(seen.insert(assign_job_id(None)));
    }
}
