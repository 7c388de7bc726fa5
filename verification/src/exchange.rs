//! What the reply of a native write, read or take call means to the caller.
//!
//! The call itself is made by whoever holds the memory; the functions here
//! decide, from what the call reported, whether the caller gets a buffer, a
//! failure, or word that there was nothing to get.

use vstd::prelude::*;
use crate::buffer::Backing;
use crate::buffer::BufferModel;
use crate::buffer::OwnedBuffer;
use crate::dds_error::outcome_of;
use crate::DDSError;
use crate::DdsEntity;

verus! {

/// What a read or take that reported `code` hands over: the failure that a
/// negative code names; no data where nothing came or what came holds no
/// valid data; else the number of samples that came.
pub open spec fn delivered(code: int, valid_data: bool) -> Result<int, DDSError> {
    if code < 0 {
        Err(outcome_of(code))
    } else if code == 0 || !valid_data {
        Err(DDSError::NoData)
    } else {
        Ok(code)
    }
}

/// Reads the reply of a native write: done where the code is zero or
/// above, the failure that the code names otherwise.
pub fn written(code: i32) -> (outcome: Result<(), DDSError>)
    ensures
        code >= 0 <==> outcome.is_ok(),
        code < 0 ==> outcome == Err::<(), DDSError>(outcome_of(code as int)),
{
    if code >= 0 {
        Ok(())
    } else {
        Err(DDSError::from(code))
    }
}

/// Reads the reply of a native read or take on `entity`: `code` is what the
/// call returned, `address` where it put the samples, `valid_data` whether
/// it marked them as holding data.
///
/// The caller gets a buffer only where samples came: it is on loan from
/// `entity` and holds as many samples as the call reported, however many
/// were asked for. A reply of success without data is `NoData`, never an
/// empty buffer. Samples at the null address are no reply of the
/// middleware, and no caller may pass them.
pub fn received<T>(entity: DdsEntity, code: i32, address: usize, valid_data: bool) -> (outcome:
    Result<OwnedBuffer<T>, DDSError>)
    requires
        code > 0 && valid_data ==> address != 0,
    ensures
        match delivered(code as int, valid_data) {
            Ok(count) => outcome matches Ok(buffer) && buffer@ == (BufferModel::<T> {
                backing: Backing::Loan { address, entity, count: count as u32 },
                values: Seq::empty(),
                released: false,
            }),
            Err(failure) => outcome matches Err(e) && e == failure,
        },
{
    if code < 0 {
        Err(DDSError::from(code))
    } else if code == 0 || !valid_data {
        Err(DDSError::NoData)
    } else {
        Ok(OwnedBuffer::from_loan(address, entity, code as u32))
    }
}

/// A read or take never hands over an empty success: what is delivered
/// holds at least one sample, and exactly as many as the call reported.
/// Success without valid data is `NoData`, and a failure is never `DdsOk`.
pub proof fn lemma_no_empty_success(code: int, valid_data: bool)
    ensures
        delivered(code, valid_data) matches Ok(count) ==> count >= 1 && count == code && valid_data,
        code >= 0 && !valid_data ==> delivered(code, valid_data) == Err::<int, DDSError>(
            DDSError::NoData,
        ),
        code == 0 ==> delivered(code, valid_data) == Err::<int, DDSError>(DDSError::NoData),
        delivered(code, valid_data) matches Err(failure) ==> failure != DDSError::DdsOk,
{
}

} // verus!
