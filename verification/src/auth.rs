//! On whose behalf a request is served.

use vstd::prelude::*;

use crate::ids::Uuid;

verus! {

/// What authentication established of a request.
#[derive(Clone, Copy, Debug, PartialEq, Eq, Structural)]
pub struct SecurityContext {
    pub insight_tenant_id: Uuid,
}

} // verus!
