use gatt_session::status::{check_bt_status, check_gatt_status};
use gatt_session::types::ServerError;

#[test]
fn success_codes_translate_to_ok() {
    assert_eq!(check_bt_status(0), Ok(()));
    assert_eq!(check_gatt_status(0), Ok(()));
}

#[test]
fn every_other_code_is_an_operation_failure() {
    assert_eq!(check_bt_status(1), Err(ServerError::OperationFailed { code: 1 }));
    assert_eq!(check_bt_status(0x85), Err(ServerError::OperationFailed { code: 0x85 }));
    assert_eq!(check_gatt_status(3), Err(ServerError::OperationFailed { code: 3 }));
    assert_eq!(check_gatt_status(0xff), Err(ServerError::OperationFailed { code: 0xff }));
}
