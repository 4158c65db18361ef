//! Abstractions of the hostfxr library.

pub mod context;
pub mod delegate_loader;
pub mod hosting_exit_code;
pub mod library;
pub mod library2_1;
pub mod library6_0;
pub mod managed_function;
pub mod runtime_property;

pub use context::{InitializedForCommandLine, InitializedForRuntimeConfig, RuntimeDelegateCache};
pub use delegate_loader::GetManagedFunctionError;
pub use hosting_exit_code::{HostingErrorExitCode, HostingExitCode, HostingSuccessExitCode};
pub use library::AppOrHostingResult;
pub use library2_1::ResolveSdkResult;
pub use library6_0::{EnvironmentInfo, FrameworkInfo, SdkInfo};
pub use managed_function::ManagedFunction;
