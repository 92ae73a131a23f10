//! Errors reported by the browser's managers.
use vstd::prelude::*;

verus! {

/// Why an operation of a manager was refused.
#[derive(Debug, Clone, Copy, PartialEq, Eq)]
pub enum BrowserError {
    /// The engine was asked to render before it was initialised.
    EngineNotInitialized,
    /// No view sits at the given position.
    InvalidViewIndex,
    /// No extension is registered under the given id.
    ExtensionNotFound,
    /// No profile has the given id.
    ProfileNotFound,
    /// The site already holds a password for this user name.
    PasswordExists,
    /// The site holds no password for this user name.
    PasswordNotFound,
    /// The password store was given no file to save to.
    NoStoragePath,
    /// A response body is not valid UTF-8.
    InvalidUtf8,
    /// The request method has no implementation.
    MethodNotImplemented,
    /// The OpenVPN configuration file does not exist.
    OvpnFileMissing,
    /// The OpenVPN configuration file does not end in `.ovpn`.
    NotOvpnFile,
    /// A SOCKS version other than 4 or 5 was asked for.
    InvalidSocksVersion,
    /// The tunnel has no configuration to connect with.
    NoVpnConfig,
    /// The tunnel is already connected.
    VpnAlreadyConnected,
}

impl BrowserError {
    /// A sentence that describes the error.
    pub fn message(&self) -> (r: &'static str) {
        match self {
            BrowserError::EngineNotInitialized => "Engine not initialized",
            BrowserError::InvalidViewIndex => "Invalid view index",
            BrowserError::ExtensionNotFound => "Extension not found",
            BrowserError::ProfileNotFound => "Profile not found",
            BrowserError::PasswordExists => "Password already exists",
            BrowserError::PasswordNotFound => "Password not found",
            BrowserError::NoStoragePath => "No storage path configured",
            BrowserError::InvalidUtf8 => "Invalid UTF-8",
            BrowserError::MethodNotImplemented => "Method not implemented",
            BrowserError::OvpnFileMissing => "OVPN file does not exist",
            BrowserError::NotOvpnFile => "File must have .ovpn extension",
            BrowserError::InvalidSocksVersion => "SOCKS version must be 4 or 5",
            BrowserError::NoVpnConfig => "No VPN configuration set",
            BrowserError::VpnAlreadyConnected => "VPN already connected",
        }
    }
}

} // verus!
