//! Status translator: maps raw stack outcome codes into the two-valued
//! success / failure domain. Any non-success code surfaces as
//! `ServerError::OperationFailed` carrying that code; a failed step is
//! fatal to the operation it answered and is never retried.

use vstd::prelude::*;

use crate::types::{ServerError, BT_STATUS_SUCCESS, GATT_STATUS_OK};

verus! {

/// Translate an outcome code of the advertising / connection plane.
pub fn check_bt_status(status: u8) -> (r: Result<(), ServerError>)
    ensures
        r == if status == BT_STATUS_SUCCESS {
            Ok::<(), ServerError>(())
        } else {
            Err::<(), ServerError>(ServerError::OperationFailed { code: status })
        },
{
    if status == BT_STATUS_SUCCESS {
        Ok(())
    } else {
        Err(ServerError::OperationFailed { code: status })
    }
}

/// Translate an outcome code of the GATT server plane.
pub fn check_gatt_status(status: u8) -> (r: Result<(), ServerError>)
    ensures
        r == if status == GATT_STATUS_OK {
            Ok::<(), ServerError>(())
        } else {
            Err::<(), ServerError>(ServerError::OperationFailed { code: status })
        },
{
    if status == GATT_STATUS_OK {
        Ok(())
    } else {
        Err(ServerError::OperationFailed { code: status })
    }
}

} // verus!
