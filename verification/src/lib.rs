//! Lifecycle shim for a native engine reachable only across a
//! foreign-function boundary. The verified core is the opaque handle
//! lifecycle manager ([`StrayPhotons`]), which owns a single native resource
//! handle from creation through destruction, together with the write-once
//! platform application registry ([`AppRegistry`]) and the argument
//! marshaler. The native entry points themselves (initialize, run, destroy)
//! are performed by the host around this crate; the core decides, for every
//! outcome they report, what must happen next.

mod registry;
mod sp;

pub use registry::AppRegistry;
pub use registry::lemma_write_once;
pub use registry::set_once;
pub use sp::ManagerState;
pub use sp::Phase;
pub use sp::SessionEnd;
pub use sp::StrayPhotons;
pub use sp::arg_wf;
pub use sp::args_wf;
pub use sp::args_view;
pub use sp::program_name;
pub use sp::program_identifier;
pub use sp::lemma_never_run_never_destroys;
pub use sp::lemma_failed_init_never_destroys;
pub use sp::lemma_success_destroys_once;
pub use sp::lemma_failure_destroys_once_before_exit;
