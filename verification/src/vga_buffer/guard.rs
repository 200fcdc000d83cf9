//! Shared access to the one writer of a display: whoever prints takes the
//! spin lock around it, writes, and lets the lock go.

use crate::vga_buffer::writer::Writer;
use std::ops::DerefMut;
use vstd::prelude::*;

verus! {

/// `spin::Mutex`: a value behind a spin lock.
#[verifier::external_type_specification]
#[verifier::external_body]
#[verifier::reject_recursive_types(T)]
pub struct ExMutex<T: ?Sized>(spin::Mutex<T>);

/// `spin::MutexGuard`: the held lock, through which the value is reached.
#[verifier::external_type_specification]
#[verifier::external_body]
#[verifier::reject_recursive_types(T)]
pub struct ExMutexGuard<'a, T: ?Sized + 'a>(spin::MutexGuard<'a, T>);

/// `spin::Mutex::lock`: spins until no one else holds the lock, takes it and
/// returns the guard through which the value behind the lock is reached. The
/// lock is released when the guard is dropped. A caller that holds the lock
/// already waits for ever. Nothing is claimed of the value: it is what the last
/// holder of the lock left.
pub assume_specification<T: ?Sized>[ spin::Mutex::<T>::lock ](
    mutex: &spin::Mutex<T>,
) -> spin::MutexGuard<'_, T>;

/// `DerefMut::deref_mut` of `spin::MutexGuard`: the exclusive reference to the
/// value behind the lock, for as long as the guard is borrowed.
pub assume_specification<'a, 'b, T: ?Sized>[ <spin::MutexGuard<'a, T> as DerefMut>::deref_mut ](
    guard: &'b mut spin::MutexGuard<'a, T>,
) -> &'b mut T;

/// Appends `text` to the display behind `writer`, as `Writer::write_string`
/// does, while holding the lock: the bytes of two texts printed through one
/// lock never interleave. It waits until the lock is free, so the caller must
/// not hold it.
pub fn _print(writer: &spin::Mutex<Writer>, text: &str) {
    let mut held = writer.lock();
    held.deref_mut().write_string(text);
}

} // verus!
