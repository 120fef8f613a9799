//! Status codes of the vendor SDK and their mapping to `Result`.

use vstd::prelude::*;

verus! {

/// Status code type of the vendor SDK: zero is success.
#[allow(non_camel_case_types)]
pub type esp_err_t = i32;

/// Number of a GPIO pin.
#[allow(non_camel_case_types)]
pub type gpio_num_t = i32;

/// Success.
pub const ESP_OK: esp_err_t = 0;

/// Generic failure.
pub const ESP_FAIL: esp_err_t = -1;

/// Out of memory.
pub const ESP_ERR_NO_MEM: esp_err_t = 0x101;

/// Invalid argument.
pub const ESP_ERR_INVALID_ARG: esp_err_t = 0x102;

/// Invalid size.
pub const ESP_ERR_INVALID_SIZE: esp_err_t = 0x104;

/// Received response was invalid.
pub const ESP_ERR_INVALID_RESPONSE: esp_err_t = 0x108;

/// The non-volatile storage partition holds no empty page.
pub const ESP_ERR_NVS_NO_FREE_PAGES: esp_err_t = 0x110d;

/// The non-volatile storage partition holds data in a newer format.
pub const ESP_ERR_NVS_NEW_VERSION_FOUND: esp_err_t = 0x1110;

/// `errno` value for "out of memory".
pub const ENOMEM: u32 = 12;

/// A non-zero status code of the vendor SDK.
#[derive(Copy, Clone, Debug, PartialEq, Eq, Structural)]
pub struct EspError(pub esp_err_t);

/// Conversion of a raw status into a `Result`.
pub trait AsResult<T, E>: Sized {
    /// The `Result` that `self` stands for.
    spec fn as_result_spec(self) -> Result<T, E>;

    /// Converts `self` into the `Result` it stands for.
    fn as_result(self) -> (result: Result<T, E>)
        ensures
            result == self.as_result_spec(),
    ;
}

impl AsResult<(), EspError> for esp_err_t {
    open spec fn as_result_spec(self) -> Result<(), EspError> {
        if self == 0 {
            Ok(())
        } else {
            Err(EspError(self))
        }
    }

    fn as_result(self) -> (result: Result<(), EspError>) {
        if self == 0 {
            Ok(())
        } else {
            Err(EspError(self))
        }
    }
}

impl EspError {
    /// The `Result` that this status stands for: `Ok` for zero, else the status as error.
    pub fn into(self) -> (result: Result<(), EspError>)
        ensures
            result == self.0.as_result_spec(),
    {
        if self.0 == 0 {
            Ok(())
        } else {
            Err(self)
        }
    }
}

impl From<esp_err_t> for EspError {
    fn from(err: esp_err_t) -> (e: EspError) {
        EspError(err)
    }
}

impl vstd::std_specs::convert::FromSpecImpl<esp_err_t> for EspError {
    open spec fn obeys_from_spec() -> bool {
        true
    }

    open spec fn from_spec(err: esp_err_t) -> EspError {
        EspError(err)
    }
}

impl From<()> for EspError {
    fn from(_err: ()) -> (e: EspError) {
        EspError(1)
    }
}

impl vstd::std_specs::convert::FromSpecImpl<()> for EspError {
    open spec fn obeys_from_spec() -> bool {
        true
    }

    open spec fn from_spec(_err: ()) -> EspError {
        EspError(1)
    }
}

} // verus!
