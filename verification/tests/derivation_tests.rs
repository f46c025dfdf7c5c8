use secure_container::derivation::DeriveEvent;
use secure_container::derivation::DeriveFlow;
use secure_container::derivation::derivation_prefix;
use secure_container::derivation::get_password;
use secure_container::derivation::transfer_secret;
use secure_container::encoding::convert_to_base64;
use secure_container::errors::SecureContainerErr;

fn complete_session(id: &str, key: Vec<u8>) -> DeriveFlow {
    let flow = DeriveFlow::start(id);
    let flow = flow.step(DeriveEvent::Inited { rc: 0 });
    let flow = flow.step(DeriveEvent::Opened { rc: 0 });
    let flow = flow.step(DeriveEvent::UuidRead { rc: 0 });
    let flow = flow.step(DeriveEvent::LenQueried { len: 32 });
    let flow = flow.step(DeriveEvent::KeyDerived { rc: 0, key });
    flow.step(DeriveEvent::Closed { rc: 0 })
}

#[test]
fn test_get_password() {
    let input = "test";
    let output = get_password(complete_session(input, vec![1, 2, 3]));
    println!("{:?}", output.unwrap().len());
}

#[test]
fn test_convert_to_base64() {
    let input = vec![0, 1, 2, 3, 4, 5, 6, 7, 8, 9];
    let output = convert_to_base64(input);
    assert_eq!(output, "AAECAwQFBgcICQ");
}

#[test]
fn password_is_unpadded_base64_of_the_key() {
    let output = get_password(complete_session("test", vec![1, 2, 3]));
    assert_eq!(output.unwrap().as_str(), "AQID");
}

#[test]
fn session_fails_on_first_nonzero_status() {
    let flow = DeriveFlow::start("test");
    let flow = flow.step(DeriveEvent::Inited { rc: 7 });
    match get_password(flow) {
        Err(SecureContainerErr::LibutaDeriveKeyError(msg)) => {
            assert_eq!(msg.as_str(), "Error: UTA Init");
        }
        other => panic!("unexpected outcome: {:?}", other),
    }
    let flow = DeriveFlow::start("test");
    let flow = flow.step(DeriveEvent::Inited { rc: 0 });
    let flow = flow.step(DeriveEvent::Opened { rc: 1 });
    match get_password(flow) {
        Err(SecureContainerErr::LibutaDeriveKeyError(msg)) => {
            assert_eq!(msg.as_str(), "Error: UTA Open");
        }
        other => panic!("unexpected outcome: {:?}", other),
    }
}

#[test]
fn session_rejects_empty_id_and_empty_key() {
    match get_password(DeriveFlow::start("")) {
        Err(SecureContainerErr::LibutaDeriveKeyError(msg)) => {
            assert_eq!(
                msg.as_str(),
                "Error: Derivation string must be at least 8 characters long"
            );
        }
        other => panic!("unexpected outcome: {:?}", other),
    }
    match get_password(complete_session("test", vec![])) {
        Err(SecureContainerErr::LibutaDeriveKeyError(msg)) => {
            assert_eq!(msg.as_str(), "Error: Key is empty");
        }
        other => panic!("unexpected outcome: {:?}", other),
    }
}

#[test]
fn derivation_input_truncates_to_eight_bytes() {
    // ids agreeing on their first 8 bytes derive from the same input
    assert_eq!(derivation_prefix("aaaaaaaa"), derivation_prefix("aaaaaaaaX"));
    // a 7-byte id derives from a different input than the 8-byte form
    assert_ne!(derivation_prefix("aaaaaaa"), derivation_prefix("aaaaaaaa"));
    assert_eq!(derivation_prefix("ab"), vec![b'a', b'b']);
    assert_eq!(derivation_prefix("abcdefghij"), b"abcdefgh".to_vec());
}

#[test]
fn distinct_keys_give_distinct_passwords() {
    let a = get_password(complete_session("test", b"test-key-bytes-1".to_vec())).unwrap();
    let b = get_password(complete_session("test", b"test-key-bytes-2".to_vec())).unwrap();
    let c = get_password(complete_session("test", b"test-key-bytes-1".to_vec())).unwrap();
    assert_ne!(a, b);
    assert_eq!(a, c);
}

#[test]
fn transfer_secret_is_deterministic_and_salted() {
    let one = transfer_secret("123", "box1");
    let again = transfer_secret("123", "box1");
    let other_salt = transfer_secret("123", "box2");
    let other_secret = transfer_secret("124", "box1");
    assert_eq!(one, again);
    assert_ne!(one, other_salt);
    assert_ne!(one, other_secret);
    // 32 hashed bytes render as 43 unpadded base64 characters
    assert_eq!(one.len(), 43);
}
