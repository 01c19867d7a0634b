//! Request ingestion: validating a declared body length, splitting a body
//! into the two bitplanes, and mapping a driver outcome to an HTTP status.
//!
//! Validation works on the declared length alone, so a malformed request is
//! rejected before any byte is read and strictly before the panel's
//! exclusive handle is acquired: a bad request never blocks a good one.

use vstd::prelude::*;

use crate::DriverError;
use crate::protocol::blank_red_model;
use crate::protocol::blank_red_plane;

verus! {

/// How a request body of valid length carries the bitplanes.
#[derive(Clone, Copy, Debug, PartialEq, Eq, Structural)]
pub enum BodyLayout {
    /// The body is the black plane alone; the red plane is implied blank.
    BlackOnly,
    /// The body is the black plane followed by the red plane.
    BlackThenRed,
}

/// Validates a declared content length against the panel's plane size. A
/// length of one plane carries the black plane alone; a length of two
/// planes carries black then red; every other length is a `SizeMismatch`,
/// rejected before any hardware access.
pub fn classify_content_length(len: usize, plane_size: usize) -> (r: Result<
    BodyLayout,
    DriverError,
>)
    ensures
        r == Ok::<BodyLayout, DriverError>(BodyLayout::BlackOnly) <==> len == plane_size,
        r == Ok::<BodyLayout, DriverError>(BodyLayout::BlackThenRed) <==> (len as int == 2
            * plane_size as int && len != plane_size),
        r is Err <==> (len != plane_size && len as int != 2 * plane_size as int),
        r is Err ==> r == Err::<BodyLayout, DriverError>(DriverError::SizeMismatch),
{
    if len == plane_size {
        Ok(BodyLayout::BlackOnly)
    } else if plane_size <= usize::MAX / 2 && len == 2 * plane_size {
        Ok(BodyLayout::BlackThenRed)
    } else {
        proof {
            if plane_size > usize::MAX / 2 {
                assert(2 * plane_size as int > usize::MAX as int);
            }
        }
        Err(DriverError::SizeMismatch)
    }
}

/// Splits a fully read request body into the black and red planes. A body
/// of one plane is the black plane, with a blank red plane synthesized; a
/// body of two planes is black then red, in that order; every other length
/// is a `SizeMismatch`.
pub fn split_planes(body: Vec<u8>, plane_size: usize) -> (r: Result<
    (Vec<u8>, Vec<u8>),
    DriverError,
>)
    ensures
        match r {
            Ok(planes) => planes.0@.len() == plane_size && planes.1@.len() == plane_size && (
            body@.len() == plane_size ==> planes.0@ == body@ && planes.1@ == blank_red_model(
                plane_size as nat,
            )) && (body@.len() != plane_size ==> body@.len() == 2 * plane_size as int && planes.0@
                == body@.take(plane_size as int) && planes.1@ == body@.skip(plane_size as int)),
            Err(e) => e == DriverError::SizeMismatch && body@.len() != plane_size && body@.len()
                != 2 * plane_size as int,
        },
{
    match classify_content_length(body.len(), plane_size) {
        Ok(BodyLayout::BlackOnly) => {
            let red = blank_red_plane(plane_size);
            Ok((body, red))
        },
        Ok(BodyLayout::BlackThenRed) => {
            let mut black: Vec<u8> = Vec::new();
            let mut i: usize = 0;
            while i < plane_size
                invariant
                    i <= plane_size,
                    body@.len() == 2 * plane_size as int,
                    black@ == body@.take(i as int),
                decreases plane_size - i,
            {
                black.push(body[i]);
                proof {
                    assert(body@.take(i + 1 as int) =~= body@.take(i as int).push(
                        body@[i as int],
                    ));
                }
                i = i + 1;
            }
            let mut red: Vec<u8> = Vec::new();
            while i < body.len()
                invariant
                    plane_size <= i <= body@.len(),
                    body@.len() == 2 * plane_size as int,
                    red@ == body@.subrange(plane_size as int, i as int),
                decreases body@.len() - i,
            {
                red.push(body[i]);
                proof {
                    assert(body@.subrange(plane_size as int, i + 1 as int) =~= body@.subrange(
                        plane_size as int,
                        i as int,
                    ).push(body@[i as int]));
                }
                i = i + 1;
            }
            proof {
                assert(body@.skip(plane_size as int) =~= body@.subrange(
                    plane_size as int,
                    body@.len() as int,
                ));
            }
            Ok((black, red))
        },
        Err(e) => Err(e),
    }
}

/// The HTTP status of a driver outcome: success is 200; a rejected body
/// length is 413, bad input; every hardware or timeout failure is 500.
pub fn http_status(r: &Result<(), DriverError>) -> (code: u16)
    ensures
        code == (match *r {
            Ok(_) => 200u16,
            Err(DriverError::SizeMismatch) => 413u16,
            Err(_) => 500u16,
        }),
{
    match r {
        Ok(_) => 200,
        Err(DriverError::SizeMismatch) => 413,
        Err(_) => 500,
    }
}

} // verus!
