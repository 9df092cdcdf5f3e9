use hyper_connect::identity::{DeviceIdentity, IdentityManager};

#[test]
fn identity_is_read_back_as_given() {
    let manager = IdentityManager::from_identity(DeviceIdentity {
        device_id: "550e8400-e29b-41d4-a716-446655440000".to_string(),
        display_name: "Linux Device".to_string(),
        platform: "Linux".to_string(),
        app_version: "1.0.0".to_string(),
    });
    assert_eq!(manager.device_id(), "550e8400-e29b-41d4-a716-446655440000");
    assert_eq!(manager.display_name(), "Linux Device");
    assert_eq!(manager.platform(), "Linux");
    assert_eq!(manager.app_version(), "1.0.0");
    assert_eq!(manager.identity().device_id, manager.device_id());
}
