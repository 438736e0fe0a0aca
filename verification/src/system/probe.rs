//! Questions about the running system whose answers nothing here can
//! foretell.

use vstd::prelude::*;

verus! {

/// Check if running as root: `nix::unistd::Uid::effective().is_root()`.
/// Trusted, and nothing is claimed of the answer: it depends on who runs
/// the program.
#[verifier::external_body]
pub fn is_root() -> bool {
    nix::unistd::Uid::effective().is_root()
}

/// Check if system is booted with UEFI: `Path::exists` of the standard
/// library on the firmware's directory `/sys/firmware/efi`. Trusted, and
/// nothing is claimed of the answer: it depends on how the machine was
/// booted.
#[verifier::external_body]
pub fn is_uefi() -> bool {
    std::path::Path::new("/sys/firmware/efi").exists()
}

} // verus!
