use supply_chain_trust::address::{event_key, Namespace};
use supply_chain_trust::identity::Identity;

#[test]
fn derive_prefixes_namespace_tag() {
    let key = vec![1u8, 2, 3];
    let id = supply_chain_trust::address::derive(Namespace::Batch, &key);
    assert_eq!(id, b"batch\x01\x02\x03".to_vec());
    let id = supply_chain_trust::address::derive(Namespace::ProgramState, &Vec::new());
    assert_eq!(id, b"program_state".to_vec());
    let id = supply_chain_trust::address::derive(Namespace::Event, &vec![9u8]);
    assert_eq!(id, b"event\x09".to_vec());
    let id = supply_chain_trust::address::derive(Namespace::UserAuth, &vec![0u8]);
    assert_eq!(id, b"user_auth\x00".to_vec());
}

#[test]
fn derive_is_deterministic() {
    let key = vec![7u8, 7, 7];
    assert_eq!(supply_chain_trust::address::derive(Namespace::Batch, &key), supply_chain_trust::address::derive(Namespace::Batch, &key));
}

#[test]
fn derive_distinguishes_namespaces_and_keys() {
    let key = vec![7u8];
    assert_ne!(supply_chain_trust::address::derive(Namespace::Batch, &key), supply_chain_trust::address::derive(Namespace::Event, &key));
    assert_ne!(supply_chain_trust::address::derive(Namespace::Batch, &vec![7u8]), supply_chain_trust::address::derive(Namespace::Batch, &vec![8u8]));
}

#[test]
fn event_key_appends_le_id() {
    let batch_identifier = b"batchX".to_vec();
    let k = event_key(&batch_identifier, 1);
    assert_eq!(k, b"batchX\x01\x00\x00\x00\x00\x00\x00\x00".to_vec());
    let k2 = event_key(&batch_identifier, 0x0102030405060708);
    assert_eq!(k2[6..], [8, 7, 6, 5, 4, 3, 2, 1]);
}

#[test]
fn identity_serializes_to_32_le_bytes() {
    let id = Identity { w0: 1, w1: 2, w2: 3, w3: 0x0A0B0C0D0E0F1011 };
    let b = id.to_bytes();
    assert_eq!(b.len(), 32);
    assert_eq!(b[0], 1);
    assert_eq!(b[8], 2);
    assert_eq!(b[16], 3);
    assert_eq!(b[24..], [0x11, 0x10, 0x0F, 0x0E, 0x0D, 0x0C, 0x0B, 0x0A]);
}
