//! The shared data exchanged between the host and a computation block:
//! the latched parameter and port regions handed to the binder, and the
//! factory input a block receives when it is created.

use vstd::prelude::*;

use crate::binder::BINDINGS_BYTES_CAP;

verus! {

/// An opaque block configuration blob.
#[derive(Debug, Clone, Copy)]
pub struct Config(pub [u8; 504]);

/// The data a block factory receives: the control period and the
/// configuration blob with its used length.
#[derive(Debug, Clone, Copy)]
pub struct FactoryInput {
    pub control_period_ms: u32,
    pub config_len: u32,
    pub config: Config,
}

/// The shared buffer regions between the host and the block: one latched
/// region for parameters and one for ports, each of the fixed binding
/// capacity. Owned by the host between steps and lent to the block for
/// the duration of one step.
#[derive(Debug, Clone, PartialEq, Eq)]
pub struct Shared {
    pub latched_params: Vec<u8>,
    pub latched_ports: Vec<u8>,
}

impl Shared {
    /// Both regions hold exactly the binding capacity.
    pub open spec fn wf(self) -> bool {
        self.latched_params@.len() == BINDINGS_BYTES_CAP && self.latched_ports@.len()
            == BINDINGS_BYTES_CAP
    }

    /// A new shared buffer: both regions zeroed, at full capacity.
    pub fn new() -> (r: Self)
        ensures
            r.wf(),
            forall|i: int| 0 <= i < r.latched_params@.len() ==> r.latched_params@[i] == 0u8,
            forall|i: int| 0 <= i < r.latched_ports@.len() ==> r.latched_ports@[i] == 0u8,
    {
        Shared { latched_params: zeroed_region(), latched_ports: zeroed_region() }
    }
}

impl Default for Shared {
    fn default() -> (r: Self)
        ensures
            r.wf(),
            forall|i: int| 0 <= i < r.latched_params@.len() ==> r.latched_params@[i] == 0u8,
            forall|i: int| 0 <= i < r.latched_ports@.len() ==> r.latched_ports@[i] == 0u8,
    {
        Shared::new()
    }
}

/// One zeroed binding region.
fn zeroed_region() -> (r: Vec<u8>)
    ensures
        r@.len() == BINDINGS_BYTES_CAP,
        forall|i: int| 0 <= i < r@.len() ==> r@[i] == 0u8,
{
    let mut v: Vec<u8> = Vec::new();
    let mut i: usize = 0;
    while i < BINDINGS_BYTES_CAP
        invariant
            i <= BINDINGS_BYTES_CAP,
            v@.len() == i,
            forall|j: int| 0 <= j < i ==> v@[j] == 0u8,
        decreases BINDINGS_BYTES_CAP - i,
    {
        v.push(0);
        i = i + 1;
    }
    v
}

} // verus!
