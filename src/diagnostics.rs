use vstd::prelude::*;

verus! {

/// Severity bits of a driver diagnostic, as the debug-utils extension
/// defines them.
pub const SEVERITY_VERBOSE: u32 = 0x1;

pub const SEVERITY_INFO: u32 = 0x10;

pub const SEVERITY_WARNING: u32 = 0x100;

pub const SEVERITY_ERROR: u32 = 0x1000;

/// Category bits of a driver diagnostic.
pub const CATEGORY_GENERAL: u32 = 0x1;

pub const CATEGORY_VALIDATION: u32 = 0x2;

pub const CATEGORY_PERFORMANCE: u32 = 0x4;

/// The severities the bridge subscribes to: warnings and errors.
pub const FORWARDED_SEVERITIES: u32 = SEVERITY_WARNING | SEVERITY_ERROR;

/// The categories the bridge subscribes to.
pub const FORWARDED_CATEGORIES: u32 = CATEGORY_GENERAL | CATEGORY_VALIDATION | CATEGORY_PERFORMANCE;

/// The subscription asked of the driver when the messenger is created.
#[derive(Clone, Copy, Debug, PartialEq, Eq, Structural)]
pub struct MessageFilter {
    pub severities: u32,
    pub categories: u32,
}

/// The log level a forwarded diagnostic is written at.
#[derive(Clone, Copy, Debug, PartialEq, Eq, Structural)]
pub enum LogLevel {
    Error,
    Warn,
}

/// Where a driver diagnostic goes: errors to the error level, warnings to
/// the warning level; informational and verbose messages, and messages of no
/// subscribed category, are dropped.
pub open spec fn message_route(severity: u32, category: u32) -> Option<LogLevel> {
    if category & FORWARDED_CATEGORIES == 0 {
        None
    } else if severity & SEVERITY_ERROR != 0 {
        Some(LogLevel::Error)
    } else if severity & SEVERITY_WARNING != 0 {
        Some(LogLevel::Warn)
    } else {
        None
    }
}

/// The filter the debug messenger is created with: warnings and errors of
/// the general, validation and performance categories.
pub fn messenger_filter() -> (r: MessageFilter)
    ensures
        r.severities == SEVERITY_WARNING | SEVERITY_ERROR,
        r.categories == CATEGORY_GENERAL | CATEGORY_VALIDATION | CATEGORY_PERFORMANCE,
{
    MessageFilter { severities: FORWARDED_SEVERITIES, categories: FORWARDED_CATEGORIES }
}

/// Decides the log level of one driver diagnostic, or that it is dropped.
pub fn route_message(severity: u32, category: u32) -> (r: Option<LogLevel>)
    ensures
        r == message_route(severity, category),
{
    if category & FORWARDED_CATEGORIES == 0 {
        None
    } else if severity & SEVERITY_ERROR != 0 {
        Some(LogLevel::Error)
    } else if severity & SEVERITY_WARNING != 0 {
        Some(LogLevel::Warn)
    } else {
        None
    }
}

} // verus!
