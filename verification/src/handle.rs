//! The platform handle that travels beside some frames.

use vstd::prelude::*;

verus! {

/// `mesa3d_util::MesaHandle`, a reference to a shared buffer or a fence of
/// the platform. Nothing is claimed of it: the codec never looks inside a
/// handle, it only moves the one it was given into the command that carries
/// it. The type has no `Clone`, so a handle cannot be duplicated on the way.
#[verifier::external_type_specification]
#[verifier::external_body]
pub struct ExMesaHandle(mesa3d_util::MesaHandle);

} // verus!
