use version_pick::head::into_pairs;
use version_pick::object_id::{SHA1_LEN, SHA256_LEN};
use version_pick::{Error, ObjectId, RemoteHead};

#[test]
fn object_id_takes_twenty_or_thirty_two_bytes() {
    let sha1: Vec<u8> = (0u8..20).collect();
    let sha256: Vec<u8> = (100u8..132).collect();
    assert_eq!(ObjectId::from_bytes(&sha1).unwrap().as_bytes(), &sha1[..]);
    assert_eq!(ObjectId::from_bytes(&sha256).unwrap().as_bytes(), &sha256[..]);
    assert_eq!(SHA1_LEN, 20);
    assert_eq!(SHA256_LEN, 32);
}

#[test]
fn object_id_refuses_every_other_length() {
    let bytes = [0xabu8; 40];
    for len in 0..=40 {
        let id = ObjectId::from_bytes(&bytes[..len]);
        assert_eq!(id.is_some(), len == 20 || len == 32, "length {}", len);
    }
}

#[test]
fn object_id_clone_is_equal() {
    let bytes: Vec<u8> = (1u8..=20).rev().collect();
    let id = ObjectId::from_bytes(&bytes).unwrap();
    let copy = id.clone();
    assert_eq!(copy, id);
    assert_eq!(copy.as_bytes(), &bytes[..]);
}

#[test]
fn object_ids_differ_where_their_bytes_do() {
    let mut bytes = [0u8; 20];
    let zero = ObjectId::from_bytes(&bytes).unwrap();
    bytes[19] = 1;
    let one = ObjectId::from_bytes(&bytes).unwrap();
    assert_ne!(zero, one);
    assert!(zero < one);
}

#[test]
fn error_carries_its_message_unchanged() {
    let error = Error::new("remote hung up; class=Net (12)".to_string());
    assert_eq!(error.message(), "remote hung up; class=Net (12)");
    assert_eq!(error.to_string(), "remote hung up; class=Net (12)");
    assert_eq!(error.clone(), error);
    assert_eq!(Error::new(String::new()).to_string(), "");
}

#[test]
fn into_pairs_keeps_every_entry_in_place() {
    let a = ObjectId::from_bytes(&[1u8; 20]).unwrap();
    let b = ObjectId::from_bytes(&[2u8; 32]).unwrap();
    let heads = vec![
        RemoteHead { name: "refs/tags/v1".to_string(), oid: b.clone() },
        RemoteHead { name: "HEAD".to_string(), oid: a.clone() },
        RemoteHead { name: "refs/tags/v1".to_string(), oid: b.clone() },
    ];
    let expected = vec![
        ("refs/tags/v1".to_string(), b.clone()),
        ("HEAD".to_string(), a),
        ("refs/tags/v1".to_string(), b),
    ];
    assert_eq!(into_pairs(heads), expected);
    assert_eq!(into_pairs(Vec::new()), Vec::new());
}
