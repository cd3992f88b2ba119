//! Board-support library for an ARMv8-R class interrupt controller (GICv3).
//!
//! The crate models the three hardware register blocks of the GIC — the
//! distributor, the per-core redistributor and the per-core CPU interface —
//! as exclusively-owned register-block values, and implements the driver
//! protocol on top of them: the staged initialization sequence, the
//! per-SGI enable/priority/pending operations, the acknowledge /
//! end-of-interrupt lifecycle, and the SGI routing-word encoding for
//! cross-core messaging.  A small UART transmit model rounds out the
//! board-support surface.

pub mod bits;
pub mod cpu_interface;
pub mod distributor;
pub mod gic;
pub mod redistributor;
pub mod sgi;
pub mod uart;

pub use gic::Gic;
pub use gic::gic_init;
pub use gic::send_sgi;
pub use gic::send_sgi_broadcast;
pub use gic::send_sgi_to_self;
pub use uart::Uart;
