use vstd::prelude::*;
use crate::types::{HeadData, HostConfig, ParasError, ValidationCode};

verus! {

/// Whether a code blob respects the configured bound.
pub open spec fn code_fits(code: Seq<u8>, cfg: HostConfig) -> bool {
    code.len() <= cfg.max_code_size as int
}

/// Whether a head blob respects the configured bound.
pub open spec fn head_fits(head: Seq<u8>, cfg: HostConfig) -> bool {
    head.len() <= cfg.max_head_data_size as int
}

/// Checks a validation code blob against the size bound of `cfg`.
pub fn validate_code(code: &ValidationCode, cfg: &HostConfig) -> (r: Result<(), ParasError>)
    ensures
        r == (if code_fits(code@, *cfg) {
            Ok(())
        } else {
            Err(ParasError::BlobTooLarge)
        }),
{
    if code.0.len() <= cfg.max_code_size as usize {
        Ok(())
    } else {
        Err(ParasError::BlobTooLarge)
    }
}

/// Checks a head data blob against the size bound of `cfg`.
pub fn validate_head(head: &HeadData, cfg: &HostConfig) -> (r: Result<(), ParasError>)
    ensures
        r == (if head_fits(head@, *cfg) {
            Ok(())
        } else {
            Err(ParasError::BlobTooLarge)
        }),
{
    if head.0.len() <= cfg.max_head_data_size as usize {
        Ok(())
    } else {
        Err(ParasError::BlobTooLarge)
    }
}

} // verus!
