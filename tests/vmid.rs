use wsld::vmid::{
    classify_hresult, find_guest, parse_vm_id, registry_match, service_id, ComputeSystem,
    HcsStatus, InvalidVmId, VmId, HCS_ACCESS_DENIED,
};

#[test]
fn parses_a_uuid() {
    assert_eq!(
        parse_vm_id("550e8400-e29b-41d4-a716-446655440000"),
        Ok(VmId { value: 0x550e8400_e29b_41d4_a716_446655440000 })
    );
    assert_eq!(
        parse_vm_id("{550e8400-e29b-41d4-a716-446655440000}"),
        Ok(VmId { value: 0x550e8400_e29b_41d4_a716_446655440000 })
    );
}

#[test]
fn rejects_what_is_no_uuid() {
    assert_eq!(parse_vm_id(""), Err(InvalidVmId));
    assert_eq!(parse_vm_id("not-a-uuid"), Err(InvalidVmId));
    assert_eq!(parse_vm_id("550e8400-e29b-41d4-a716-44665544000"), Err(InvalidVmId));
}

fn system(id: u128, owner: &str) -> ComputeSystem {
    ComputeSystem {
        id: VmId { value: id },
        system_type: "VirtualMachine".to_string(),
        owner: owner.to_string(),
        runtime_id: VmId { value: id + 1 },
        state: "Running".to_string(),
    }
}

#[test]
fn finds_the_first_guest() {
    let v = vec![system(1, "docker"), system(2, "WSL"), system(3, "WSL")];
    assert_eq!(find_guest(&v), Some(VmId { value: 2 }));
    assert_eq!(find_guest(&vec![system(1, "docker"), system(2, "wsl")]), None);
    assert_eq!(find_guest(&vec![]), None);
}

#[test]
fn registry_keys() {
    let key = "550e8400-e29b-41d4-a716-446655440000";
    assert_eq!(
        registry_match(key, Some(2)),
        Some(VmId { value: 0x550e8400_e29b_41d4_a716_446655440000 })
    );
    assert_eq!(registry_match(key, Some(1)), None);
    assert_eq!(registry_match(key, None), None);
    assert_eq!(registry_match("garbage", Some(2)), None);
}

#[test]
fn service_id_carries_the_port() {
    assert_eq!(service_id(6000).value, 0x00001770_facb_11e6_bd58_64006a7986d3);
    assert_eq!(service_id(0).value, 0x00000000_facb_11e6_bd58_64006a7986d3);
    assert_eq!(service_id(u32::MAX).value, 0xffffffff_facb_11e6_bd58_64006a7986d3);
}

#[test]
fn result_codes() {
    assert_eq!(classify_hresult(0), HcsStatus::Success);
    assert_eq!(HCS_ACCESS_DENIED, 0x8037011Bu32 as i32);
    assert_eq!(classify_hresult(0x8037011Bu32 as i32), HcsStatus::AccessDenied);
    assert_eq!(classify_hresult(5), HcsStatus::Failed(5));
}
