//! Bringing up the non-volatile storage: when its partition is erased and
//! initialised a second time.

use vstd::prelude::*;
use crate::esp_idf::{
    esp_err_t,
    EspError,
    ESP_ERR_NVS_NEW_VERSION_FOUND,
    ESP_ERR_NVS_NO_FREE_PAGES,
};

verus! {

/// The call whose status is being judged.
#[derive(Copy, Clone, Debug, PartialEq, Eq, Structural)]
pub enum Call {
    /// The first initialisation.
    Init,
    /// The erasure of the partition.
    Erase,
    /// The initialisation after the erasure.
    Reinit,
}

/// What follows a call.
#[derive(Copy, Clone, Debug, PartialEq, Eq)]
pub enum Next {
    /// Make this call.
    Call(Call),
    /// The storage is up, or it is not: this is the result.
    Finish(Result<(), EspError>),
}

/// The partition can be made usable by erasing it: it has no free page, or
/// holds data in a newer format.
pub open spec fn recoverable(status: esp_err_t) -> bool {
    status == ESP_ERR_NVS_NO_FREE_PAGES || status == ESP_ERR_NVS_NEW_VERSION_FOUND
}

/// What follows `call` when it returned `status`.
///
/// A first initialisation that fails recoverably is followed by an erasure
/// and a second initialisation, and a failure of either of these is the
/// result. Any other failure of the first initialisation is passed over.
pub open spec fn flash_init_spec(call: Call, status: esp_err_t) -> Next {
    match call {
        Call::Init => if status != 0 && recoverable(status) {
            Next::Call(Call::Erase)
        } else {
            Next::Finish(Ok(()))
        },
        Call::Erase => if status == 0 {
            Next::Call(Call::Reinit)
        } else {
            Next::Finish(Err(EspError(status)))
        },
        Call::Reinit => if status == 0 {
            Next::Finish(Ok(()))
        } else {
            Next::Finish(Err(EspError(status)))
        },
    }
}

/// Decides what follows `call` when it returned `status`.
pub fn flash_init(call: Call, status: esp_err_t) -> (next: Next)
    ensures
        next == flash_init_spec(call, status),
{
    match call {
        Call::Init => {
            if status != 0 && (status == ESP_ERR_NVS_NO_FREE_PAGES || status
                == ESP_ERR_NVS_NEW_VERSION_FOUND) {
                Next::Call(Call::Erase)
            } else {
                Next::Finish(Ok(()))
            }
        },
        Call::Erase => {
            if status == 0 {
                Next::Call(Call::Reinit)
            } else {
                Next::Finish(Err(EspError(status)))
            }
        },
        Call::Reinit => {
            if status == 0 {
                Next::Finish(Ok(()))
            } else {
                Next::Finish(Err(EspError(status)))
            }
        },
    }
}

} // verus!
