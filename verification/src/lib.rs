//! Plans the build of minimal root filesystems and disk images, one target
//! architecture at a time.
//!
//! Nothing here touches the disk, the network or another process. A build is
//! a list of [`step::Step`]s: [`arch::Arch::rootfs`],
//! [`arch::Arch::libc_test`] and [`arch::Arch::image`] give the list for
//! each goal, as far as the [`facts::Facts`] tell. A
//! [`pipeline::Pipeline`] hands the steps out one by one, takes in how each
//! one ended, and gives up at the first that ended badly.
//!
//! What holds of every build is proved in [`laws`] and [`stability`].

pub mod text;
pub mod archive;
pub mod tool;
pub mod arch;
pub mod step;
pub mod facts;
pub mod fetch;
pub mod rootfs;
pub mod toolchain;
pub mod image;
pub mod pipeline;
pub mod laws;
pub mod stability;
