//! Simulated workloads: handler errors and query durations drawn at random.
//! The choice made from a draw is exact and verified; only the draw itself
//! comes from the random-number generator.

use crate::apperror::AppError;
use vstd::prelude::*;

verus! {

/// Relies on rand's thread-local generator. Nothing can be promised of a
/// random value.
pub assume_specification<T>[ rand::random::<T> ]() -> (r: T)
    where
        rand::distr::StandardUniform: rand::distr::Distribution<T>,
;

/// The handler error chosen for a random draw: one of the five simulated
/// failures, cycled through by the draw's remainder.
pub open spec fn spec_error_for_draw(draw: u8) -> AppError {
    if draw % 5 == 0 {
        AppError::Unforseen
    } else if draw % 5 == 1 {
        AppError::Unlucky
    } else if draw % 5 == 2 {
        AppError::Doomed
    } else if draw % 5 == 3 {
        AppError::TooLittleTooLate
    } else if draw % 5 == 4 {
        AppError::Oops
    } else {
        AppError::ShouldNeverHappen
    }
}

/// Chooses the simulated handler error for one draw.
pub fn error_for_draw(draw: u8) -> (e: AppError)
    ensures
        e == spec_error_for_draw(draw),
        !(e is ShouldNeverHappen),
{
    match draw % 5 {
        0 => AppError::Unforseen,
        1 => AppError::Unlucky,
        2 => AppError::Doomed,
        3 => AppError::TooLittleTooLate,
        4 => AppError::Oops,
        _ => AppError::ShouldNeverHappen,
    }
}

/// Draws a random simulated handler error. Whatever is drawn, the remainder
/// of the draw picks one of the five real failures, never the unreachable
/// placeholder.
pub fn generate_random_error() -> (e: AppError)
    ensures
        !(e is ShouldNeverHappen),
{
    let draw: u8 = rand::random();
    error_for_draw(draw)
}

/// The duration of a short simulated query: at least one second, plus up to
/// a second chosen by the draw.
pub fn short_query_duration_millis(draw: u16) -> (ms: u64)
    ensures
        ms == 1000 + (draw % 1000) as u64,
        1000 <= ms < 2000,
{
    1000 + (draw % 1000) as u64
}

/// The duration of a long simulated query: at least five seconds, plus up to
/// ten seconds chosen by the draw.
pub fn long_query_duration_millis(draw: u16) -> (ms: u64)
    ensures
        ms == 5000 + (draw % 10000) as u64,
        5000 <= ms < 15000,
{
    5000 + (draw % 10000) as u64
}

/// Draws the duration of a short simulated query.
pub fn random_short_query_duration_millis() -> (ms: u64)
    ensures
        1000 <= ms < 2000,
{
    let draw: u16 = rand::random();
    short_query_duration_millis(draw)
}

/// Draws the duration of a long simulated query.
pub fn random_long_query_duration_millis() -> (ms: u64)
    ensures
        5000 <= ms < 15000,
{
    let draw: u16 = rand::random();
    long_query_duration_millis(draw)
}

} // verus!
