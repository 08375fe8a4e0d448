//! Wire-level data model for a telecontrol (SCADA/RTU) information-exchange
//! protocol, together with the shared-memory binding layer that lets small
//! computation blocks read and write that data safely.
//!
//! The crate has three layers:
//! - the information-element (IE) catalog: fixed-layout records for
//!   measurements, commands and parameters, each identified by a stable
//!   numeric type code, together with their packed quality and command
//!   qualifier bytes;
//! - the tagged union [`SmallIE`] over the catalog and its flat byte
//!   encoding [`IEBuf`], with validated conversions in both directions;
//! - the port/parameter binder, which slices a shared byte buffer into
//!   bounds- and cardinality-checked fields and tracks which elements a
//!   block has written.

pub mod address;
pub mod binder;
pub mod bitops;
pub mod command;
pub mod conversion;
pub mod iebuf;
pub mod measurement;
pub mod metadata;
pub mod parameter;
pub mod qds;
pub mod qoc;
pub mod shared;
pub mod small_ie;
pub mod system;
pub mod wire;

pub use address::{CA, IOA};
pub use binder::{
    parse_port, BindingDefinition, Direction, DirtyFlags, FieldView, NativeBindingDefinition,
    ParseError, ParsedBindings, StepResult, BINDINGS_BYTES_CAP, REQUIRED,
};
pub use command::{
    C_DC_NA_1, C_SC_NA_1, C_SE_NA_1, C_SE_NB_1, C_SE_NC_1, DCO, DCS, InvalidState, QOS, SCO,
    TI200, TI201, TI202, TI203,
};
pub use conversion::IEConversionError;
pub use iebuf::{IEBuf, IEDeserializationError, IEBUF_LEN};
pub use measurement::{
    DIQ, DPI, M_DP_NA_1, M_ME_NB_1, M_ME_NE_1, M_SP_NA_1, QDS, SIQ, TI136, TI137, TI138, TI139,
};
pub use parameter::{KPA, P_ME_NC_1, QPM};
pub use qds::{QualityDescriptor, QualityDescriptorHolder, RawQualityDescriptor};
pub use qoc::{QualifierOfCommand, QualifierOfCommandHolder, RawQualifierOfCommand, QU};
pub use shared::{Config, FactoryInput, Shared};
pub use small_ie::{BufferTooSmall, SmallIE, TI1, TI11, TI112, TI13, TI3, TI45, TI49, TI50};
pub use system::{C_IC_NA_1, C_RD_NA_1, C_TS_NA_1, QOI};

use vstd::prelude::*;

verus! {

/// Unwraps an option that the caller has already shown to be present;
/// the burden of proof is on the caller, so the body can never fail.
pub fn wasm_unwrap<T>(v: Option<T>) -> (r: T)
    requires
        v is Some,
    ensures
        v == Some(r),
{
    match v {
        Some(inner) => inner,
        None => vstd::pervasive::unreached(),
    }
}

/// Logging goes through the host; there is nothing to set up on the
/// block side.
pub fn init_logger() {
}

} // verus!
