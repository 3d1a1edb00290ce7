//! Readings of the machine's load from `sysinfo`.

use sysinfo::System;
use vstd::prelude::*;

verus! {

/// The handle through which `sysinfo` reads the machine's state.
#[verifier::external_type_specification]
#[verifier::external_body]
pub struct ExSystem(System);

/// `sysinfo::System::refresh_all`: reads the machine's state anew. Nothing is
/// claimed of what the handle holds afterwards.
#[verifier::external_body]
pub(crate) fn refresh_all(system: &mut System) {
    system.refresh_all()
}

/// `sysinfo::System::global_cpu_usage`: the processors' load at the last
/// refresh, in whole percent. Nothing is claimed of the number.
#[verifier::external_body]
pub(crate) fn global_cpu_usage(system: &System) -> (percent: u64) {
    system.global_cpu_usage() as u64
}

/// `sysinfo::System::used_memory`: the memory in use at the last refresh, in
/// bytes. Nothing is claimed of the number.
#[verifier::external_body]
pub(crate) fn used_memory(system: &System) -> (bytes: u64) {
    system.used_memory()
}

} // verus!
