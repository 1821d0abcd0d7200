//! The logging facade toward the host. The host registers one callback per
//! severity level; the backend's only decisions are that the facade is
//! installed at most once and which callback a message of a given level is
//! routed to. Formatting and the call itself are the surrounding program's
//! work.

use vstd::prelude::*;

use crate::error::RoastError;

verus! {

/// Severity of a log message.
#[derive(Clone, Copy, PartialEq, Eq, Structural, Debug)]
pub enum LogLevel {
    Error,
    Warn,
    Info,
    Debug,
    Trace,
}

/// The five callbacks that log at different levels to the host's logger.
/// Each is an opaque token under which the surrounding program keeps the
/// host's actual function.
#[derive(Clone, Copy, PartialEq, Eq, Structural, Debug)]
pub struct JavaLoggerCallbacks {
    pub error: u64,
    pub warn: u64,
    pub info: u64,
    pub debug: u64,
    pub trace: u64,
}

/// Logging facade that redirects to the host's logger.
#[derive(Clone, Copy, PartialEq, Eq, Structural, Debug)]
pub struct JavaLogger {
    callbacks: JavaLoggerCallbacks,
}

/// Where the process-wide logger lives; the facade can be installed into
/// it exactly once.
pub struct LoggerRegistry {
    installed: Option<JavaLogger>,
}

impl LoggerRegistry {
    /// The installed facade, if one was installed.
    pub closed spec fn installed_spec(&self) -> Option<JavaLogger> {
        self.installed
    }

    /// A registry with no logger installed.
    pub fn new() -> (r: LoggerRegistry)
        ensures
            r.installed_spec() is None,
    {
        LoggerRegistry { installed: None }
    }
}

impl JavaLogger {
    /// The callbacks this facade routes to.
    pub closed spec fn callbacks_spec(&self) -> JavaLoggerCallbacks {
        self.callbacks
    }

    /// Builds the facade over the host's callbacks.
    pub fn new(callbacks: JavaLoggerCallbacks) -> (r: JavaLogger)
        ensures
            r.callbacks_spec() == callbacks,
    {
        JavaLogger { callbacks }
    }

    /// Installs this facade as the process logger. Fails, changing
    /// nothing, exactly when a logger is already installed: the facade can
    /// only be initialized once.
    pub fn init(self, registry: &mut LoggerRegistry) -> (r: Result<(), RoastError>)
        ensures
            match r {
                Ok(()) => old(registry).installed_spec() is None
                    && final(registry).installed_spec() == Some(self),
                Err(e) => old(registry).installed_spec() is Some
                    && *final(registry) == *old(registry)
                    && e is IllegalState,
            },
    {
        match registry.installed {
            None => {
                registry.installed = Some(self);
                Ok(())
            },
            Some(_) => Err(
                RoastError::IllegalState("Could not initialize backend logger".to_owned()),
            ),
        }
    }

    /// The callback a message of this level is routed to.
    pub fn callback_for(&self, level: LogLevel) -> (r: u64)
        ensures
            r == (match level {
                LogLevel::Error => self.callbacks_spec().error,
                LogLevel::Warn => self.callbacks_spec().warn,
                LogLevel::Info => self.callbacks_spec().info,
                LogLevel::Debug => self.callbacks_spec().debug,
                LogLevel::Trace => self.callbacks_spec().trace,
            }),
    {
        match level {
            LogLevel::Error => self.callbacks.error,
            LogLevel::Warn => self.callbacks.warn,
            LogLevel::Info => self.callbacks.info,
            LogLevel::Debug => self.callbacks.debug,
            LogLevel::Trace => self.callbacks.trace,
        }
    }
}

} // verus!
