use vstd::prelude::*;

verus! {

/// What the dashboard shows of a device: the error met reading its values, or the values read.
#[derive(Clone, Debug)]
pub struct DeviceStatus {
    pub error: Option<String>,
    pub info: Vec<String>,
}

/// The status shown for a device whose values were read as `values`: the values, or, where the
/// read failed with the error described by the text in `Err`, that text and no values.
pub fn device_status(values: Result<Vec<String>, String>) -> (status: DeviceStatus)
    ensures
        match values {
            Ok(info) => status.error is None && status.info@ == info@,
            Err(error) => status.error == Some(error) && status.info@.len() == 0,
        },
{
    match values {
        Ok(info) => DeviceStatus { error: None, info },
        Err(error) => DeviceStatus { error: Some(error), info: Vec::new() },
    }
}

} // verus!
