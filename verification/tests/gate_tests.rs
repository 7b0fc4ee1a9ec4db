use filetransfer::errors::TransferError;
use filetransfer::ip::{check_client_ip, is_local_or_private_ip, AdmissionPolicy, ClientIp};

#[test]
fn exact_match_policy_rejects_other_address() {
    let policy = AdmissionPolicy::ExactAllow(ClientIp::V4(192, 168, 1, 10));
    let client = ClientIp::V4(203, 0, 113, 5);
    match check_client_ip(&policy, &client) {
        Err(TransferError::Forbidden) => {}
        _ => panic!("a foreign address must be rejected"),
    }
    assert_eq!(TransferError::Forbidden.status_code(), 403);
}

#[test]
fn exact_match_policy_admits_the_configured_address() {
    let policy = AdmissionPolicy::ExactAllow(ClientIp::V4(192, 168, 1, 10));
    assert!(check_client_ip(&policy, &ClientIp::V4(192, 168, 1, 10)).is_ok());
}

#[test]
fn private_range_policy_admits_local_addresses() {
    let policy = AdmissionPolicy::LocalPrivate;
    let allowed = [
        ClientIp::V4(127, 0, 0, 1),
        ClientIp::V4(10, 1, 2, 3),
        ClientIp::V4(192, 168, 0, 5),
        ClientIp::V6(0xfe80, 0, 0, 0, 0, 0, 0, 1),
    ];
    for ip in allowed {
        assert!(check_client_ip(&policy, &ip).is_ok(), "{:?} must be admitted", ip);
    }
}

#[test]
fn private_range_policy_denies_public_address() {
    let policy = AdmissionPolicy::LocalPrivate;
    match check_client_ip(&policy, &ClientIp::V4(8, 8, 8, 8)) {
        Err(TransferError::Forbidden) => {}
        _ => panic!("a public address must be denied"),
    }
}

#[test]
fn private_ranges_cover_their_edges() {
    assert!(is_local_or_private_ip(&ClientIp::V4(172, 16, 0, 1)));
    assert!(is_local_or_private_ip(&ClientIp::V4(172, 31, 255, 255)));
    assert!(!is_local_or_private_ip(&ClientIp::V4(172, 15, 0, 1)));
    assert!(!is_local_or_private_ip(&ClientIp::V4(172, 32, 0, 1)));
    assert!(is_local_or_private_ip(&ClientIp::V4(169, 254, 9, 9)));
    assert!(is_local_or_private_ip(&ClientIp::V6(0, 0, 0, 0, 0, 0, 0, 1)));
    assert!(is_local_or_private_ip(&ClientIp::V6(0xfc00, 0, 0, 0, 0, 0, 0, 2)));
    assert!(is_local_or_private_ip(&ClientIp::V6(0xfd12, 0, 0, 0, 0, 0, 0, 2)));
    assert!(!is_local_or_private_ip(&ClientIp::V6(0x2001, 0xdb8, 0, 0, 0, 0, 0, 1)));
}
