//! The built-in targets: each assembles the primitive transformers with
//! its own constants.

pub mod linux;
pub mod onedrive;
pub mod windows;

pub use linux::Linux;
pub use onedrive::OneDrive;
pub use windows::Windows;
