//! Host-side orchestration for running kernels on a parallel accelerator.
//!
//! The library decides; the caller performs. It builds launch descriptors
//! (`Param`), hands out the driver operations of a launch one at a time and
//! stops at the first failure (`LaunchRun`), orders the driver calls that
//! bring devices up (`DeviceScan`), renders driver errors (`CUerror`), and
//! plans the nested build that produces a kernel image (`GpuCode`). The driver
//! calls, the process and the file system are the caller's.
pub mod device;
pub mod error;
pub mod gpu_code;
pub mod host;
pub mod launch;
pub mod name_desc;
pub mod text;

pub use device::{attribute_result, check_c_string, target_cpu_flag, DeviceScan, ScanOp, ScanStep};
pub use error::{check, CUerror, CUresult};
pub use gpu_code::{warning, BuildAction, BuildEnv, BuildPlan, GpuCode};
pub use host::{Param, ParamView};
pub use launch::{DriverOp, LaunchRun, LaunchStep, PendingResult};
pub use name_desc::get_name_desc;
