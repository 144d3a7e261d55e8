use backend::hash::{hash, hash_eq};

const EXPECTED: [u8; 32] = [
    45, 212, 115, 72, 150, 118, 100, 252, 241, 233, 6, 177, 106, 152, 195, 226, 167, 195, 179,
    178, 52, 2, 56, 114, 192, 40, 52, 81, 59, 78, 247, 192,
];

#[test]
fn hash_is_sha256_of_password_and_salt() {
    assert_eq!(hash("hunter2", "pepper"), EXPECTED.to_vec());
}

#[test]
fn stored_hash_accepts_its_password() {
    let stored = hash("hunter2", "pepper");
    assert!(hash_eq("hunter2", "pepper", &stored));
}

#[test]
fn stored_hash_refuses_other_passwords() {
    let stored = hash("hunter2", "pepper");
    assert!(!hash_eq("hunter3", "pepper", &stored));
    assert!(!hash_eq("hunter2", "salt", &stored));
}

#[test]
fn short_stored_value_is_compared_on_its_own_bytes() {
    assert!(hash_eq("hunter2", "pepper", &vec![45, 212]));
    assert!(!hash_eq("hunter2", "pepper", &vec![45, 213]));
    assert!(hash_eq("anything", "pepper", &Vec::new()));
}
