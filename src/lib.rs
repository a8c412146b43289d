//! Gamma ramp control for displays driven through the RandR extension.
//!
//! The library holds the decisions: version negotiation, validation and
//! snapshot of each controller's gamma tables, the linear base ramp, and the
//! order in which set-gamma requests are issued and abandoned. Talking to the
//! display server is left to the caller, which hands the replies in as plain
//! values.

mod error;
mod method;
mod ramp;
mod randr;

pub use error::{ConnFailure, RandrError};
pub use method::{DummyMethod, DUMMY_WARNING};
pub use ramp::{base_ramp, base_ramp_value, base_value, fill_base_ramp, GammaRamp, CHANNEL_RANGE};
pub use randr::{
    lemma_restore_plan_stable, lemma_tables_have_ramp_size, negotiate_version, version_supported,
    Crtc, CrtcGamma, RandrState, Step, RANDR_MAJOR_VERSION, RANDR_MINOR_VERSION,
};
