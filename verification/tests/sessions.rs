use std::collections::HashMap;
use zscm::handler::account::account_of;
use zscm::handler::auth::{session_claim, session_valid};
use zscm::handler::get_programs::{programs_query, programs_sql};
use zscm::handler::login::{get_uuid, hex_text, md5_encrypt, session_key, uuid_text};
use zscm::web::Reason;

#[test]
fn password_is_stored_as_md5_hex() {
    assert_eq!(md5_encrypt("123456"), "e10adc3949ba59abbe56e057f20f883e");
    assert_eq!(md5_encrypt(""), "d41d8cd98f00b204e9800998ecf8427e");
    assert_eq!(md5_encrypt("密码"), format!("{:x}", md5::compute("密码".as_bytes())));
}

#[test]
fn hex_is_lowercase_two_digits_a_byte() {
    assert_eq!(hex_text(&[0x00, 0x0f, 0xab, 0xff]), "000fabff");
}

#[test]
fn uuid_text_has_no_dashes() {
    let bytes = [0x67, 0xe5, 0x50, 0x44, 0x10, 0xb1, 0x42, 0x6f, 0x92, 0x47, 0xbb, 0x68, 0x0e, 0x5f, 0xe0, 0xc8];
    assert_eq!(uuid_text(bytes), "67e5504410b1426f9247bb680e5fe0c8");
    let u = uuid::Uuid::from_bytes(bytes);
    assert_eq!(uuid_text(bytes), format!("{u}").split('-').collect::<String>());
}

#[test]
fn new_session_ids_are_random_version_four_uuids() {
    let a = get_uuid();
    let b = get_uuid();
    assert_eq!(a.len(), 32);
    assert!(a.chars().all(|c| c.is_ascii_hexdigit() && !c.is_ascii_uppercase()));
    assert_eq!(&a[12..13], "4");
    assert!(matches!(&a[16..17], "8" | "9" | "a" | "b"));
    assert_ne!(a, b);
}

#[test]
fn session_key_prefixes_the_account() {
    assert_eq!(session_key("admin"), "zscm_admin");
    assert_eq!(session_key(""), "zscm_");
}

#[test]
fn guard_needs_both_headers_readable() {
    let claim = session_claim(Some(b"admin"), Some(b"abc123")).unwrap();
    assert_eq!(claim.0, "zscm_admin");
    assert_eq!(claim.1, "abc123");
    assert!(session_claim(None, Some(b"abc")).is_none());
    assert!(session_claim(Some(b"admin"), None).is_none());
    assert!(session_claim(Some(&[0xe4, 0xb8, 0xad]), Some(b"abc")).is_none());
}

#[test]
fn session_must_equal_a_kept_one() {
    assert!(session_valid(&"abc".to_string(), &"abc".to_string()));
    assert!(!session_valid(&"abc".to_string(), &"abd".to_string()));
    assert!(!session_valid(&"".to_string(), &"".to_string()));
}

#[test]
fn account_header_must_be_present_and_not_empty() {
    assert!(matches!(account_of(None).unwrap_err().reason, Reason::NoAccount));
    assert_eq!(account_of(Some(b"")).unwrap_err().message(), "no account");
    assert_eq!(account_of(Some(b"editor")).unwrap(), "editor");
    let e = account_of(Some(&[0x80, 0x41])).unwrap_err();
    assert_eq!(e.message(), "failed to convert header to a str");
}

#[test]
fn programs_of_the_account_sites() {
    assert_eq!(
        programs_sql("editor"),
        "select * from program where state = 1 and site_id in (select site_id from admin_sites where admin_id in (select id from admin where name = 'editor'))"
    );
    assert_eq!(programs_query(Some(b"editor")).unwrap(), programs_sql("editor"));
    assert!(matches!(programs_query(None).unwrap_err().reason, Reason::NoAccount));
}

#[test]
fn latest_sign_in_is_the_one_honoured() {
    let mut store: HashMap<String, String> = HashMap::new();
    let first = get_uuid();
    store.insert(session_key("admin"), first.clone());
    let (key, id) = session_claim(Some(b"admin"), Some(first.as_bytes())).unwrap();
    assert!(session_valid(&id, store.get(&key).unwrap()));
    let later = get_uuid();
    assert_ne!(later, first);
    store.insert(session_key("admin"), later);
    assert!(!session_valid(&id, store.get(&key).unwrap()));
}
