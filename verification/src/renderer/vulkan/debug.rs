//! The bridge from the driver's diagnostic messages to the engine's log.

use vstd::prelude::*;
use vstd::string::StringExecFns;
use crate::logs::{Level, TAB_MESSAGE};

verus! {

/// The severities a driver message is flagged with.
#[derive(Debug, Clone, Copy, PartialEq, Eq, Structural)]
pub struct DebugUtilsMessageSeverity {
    pub error: bool,
    pub warning: bool,
    pub information: bool,
    pub verbose: bool,
}

/// The categories a driver message is flagged with.
#[derive(Debug, Clone, Copy, PartialEq, Eq, Structural)]
pub struct DebugUtilsMessageType {
    pub general: bool,
    pub validation: bool,
    pub performance: bool,
    pub address_binding: bool,
}

/// The severities and categories the engine registers its callback for.
#[derive(Debug, Clone, Copy, PartialEq, Eq, Structural)]
pub struct DebugUtilsMessengerCreateInfo {
    pub message_severity: DebugUtilsMessageSeverity,
    pub message_type: DebugUtilsMessageType,
}

/// The severity a message is taken to have; the gravest flag wins.
#[derive(Debug, Clone, Copy, PartialEq, Eq, Structural)]
pub enum Severity {
    Error,
    Warning,
    Verbose,
    Information,
    Unknown,
}

/// The category a message is taken to have.
#[derive(Debug, Clone, Copy, PartialEq, Eq, Structural)]
pub enum Category {
    General,
    Performance,
    Validation,
    AddressBinding,
    Unknown,
}

pub open spec fn severity_of(flags: DebugUtilsMessageSeverity) -> Severity {
    if flags.error {
        Severity::Error
    } else if flags.warning {
        Severity::Warning
    } else if flags.verbose {
        Severity::Verbose
    } else if flags.information {
        Severity::Information
    } else {
        Severity::Unknown
    }
}

pub open spec fn category_of(flags: DebugUtilsMessageType) -> Category {
    if flags.general {
        Category::General
    } else if flags.performance {
        Category::Performance
    } else if flags.validation {
        Category::Validation
    } else if flags.address_binding {
        Category::AddressBinding
    } else {
        Category::Unknown
    }
}

/// The level at which a message is logged. A message whose severity or category
/// the engine does not know breaks the contract with the driver and is fatal.
pub open spec fn level_for(severity: Severity, category: Category) -> Level {
    if severity == Severity::Unknown || category == Category::Unknown {
        Level::FATAL
    } else {
        match severity {
            Severity::Error => Level::ERROR,
            Severity::Warning => Level::WARN,
            Severity::Information => Level::INFO,
            _ => Level::DEBUG,
        }
    }
}

/// The engine cannot go on after the message: the driver flagged an error, or
/// the message is of a kind the engine does not know.
pub open spec fn escalates(severity: Severity, category: Category) -> bool {
    severity == Severity::Error || severity == Severity::Unknown || category
        == Category::Unknown
}

pub open spec fn severity_label(severity: Severity) -> Seq<char> {
    match severity {
        Severity::Error => " [ERROR]"@,
        Severity::Warning => " [WARN]"@,
        Severity::Verbose => " [VERBOSE]"@,
        Severity::Information => " [INFO]"@,
        Severity::Unknown => " [UNKNOWN]"@,
    }
}

pub open spec fn category_label(category: Category) -> Seq<char> {
    match category {
        Category::General => " [GENERAL]"@,
        Category::Performance => " [PERFORM]"@,
        Category::Validation => " [VALIDATION]"@,
        Category::AddressBinding => " [ADDRESS BINDING]"@,
        Category::Unknown => " [UNKNOWN]"@,
    }
}

/// The layer a message is attributed to where the driver names none.
pub const UNKNOWN_LAYER: &'static str = "UNKNOWN";

/// The text of a log entry for a driver message: one line that names the layer,
/// the severity and the category, then the description on a line of its own,
/// indented to the column where log messages start.
pub open spec fn message_text(
    layer_prefix: Option<Seq<char>>,
    severity: Severity,
    category: Category,
    description: Seq<char>,
) -> Seq<char> {
    "["@ + (match layer_prefix {
        Some(prefix) => prefix,
        None => UNKNOWN_LAYER@,
    }) + "] "@ + severity_label(severity) + category_label(category) + TAB_MESSAGE@
        + description
}

/// What the engine does with one driver message.
#[derive(Debug)]
pub struct DebugLog {
    pub level: Level,
    pub text: String,
    /// The message is to reach the engine's top-level error path.
    pub escalate: bool,
}

/// The registration of the callback: every severity and every category.
pub fn init_debug_utils() -> (r: DebugUtilsMessengerCreateInfo)
    ensures
        r.message_severity == (DebugUtilsMessageSeverity {
            error: true,
            warning: true,
            information: true,
            verbose: true,
        }),
        r.message_type == (DebugUtilsMessageType {
            general: true,
            validation: true,
            performance: true,
            address_binding: true,
        }),
{
    DebugUtilsMessengerCreateInfo {
        message_severity: DebugUtilsMessageSeverity {
            error: true,
            warning: true,
            information: true,
            verbose: true,
        },
        message_type: DebugUtilsMessageType {
            general: true,
            validation: true,
            performance: true,
            address_binding: true,
        },
    }
}

/// Takes the gravest severity a message is flagged with.
pub fn classify_severity(flags: DebugUtilsMessageSeverity) -> (r: Severity)
    ensures
        r == severity_of(flags),
{
    if flags.error {
        Severity::Error
    } else if flags.warning {
        Severity::Warning
    } else if flags.verbose {
        Severity::Verbose
    } else if flags.information {
        Severity::Information
    } else {
        Severity::Unknown
    }
}

/// Takes the first category a message is flagged with, in the order general,
/// performance, validation, address binding.
pub fn classify_category(flags: DebugUtilsMessageType) -> (r: Category)
    ensures
        r == category_of(flags),
{
    if flags.general {
        Category::General
    } else if flags.performance {
        Category::Performance
    } else if flags.validation {
        Category::Validation
    } else if flags.address_binding {
        Category::AddressBinding
    } else {
        Category::Unknown
    }
}

/// Turns one driver message into a log entry: classifies it, words it, and says
/// at which level it is logged and whether the engine has to stop over it.
/// Nothing ever propagates back into the driver from here.
pub fn log_callback(
    severity: DebugUtilsMessageSeverity,
    ty: DebugUtilsMessageType,
    layer_prefix: Option<&str>,
    description: &str,
) -> (r: DebugLog)
    ensures
        r.level == level_for(severity_of(severity), category_of(ty)),
        r.escalate == escalates(severity_of(severity), category_of(ty)),
        r.text@ == message_text(
            match layer_prefix {
                Some(p) => Some(p@),
                None => None,
            },
            severity_of(severity),
            category_of(ty),
            description@,
        ),
{
    let sev = classify_severity(severity);
    let cat = classify_category(ty);
    let severity_text = match sev {
        Severity::Error => " [ERROR]",
        Severity::Warning => " [WARN]",
        Severity::Verbose => " [VERBOSE]",
        Severity::Information => " [INFO]",
        Severity::Unknown => " [UNKNOWN]",
    };
    let category_text = match cat {
        Category::General => " [GENERAL]",
        Category::Performance => " [PERFORM]",
        Category::Validation => " [VALIDATION]",
        Category::AddressBinding => " [ADDRESS BINDING]",
        Category::Unknown => " [UNKNOWN]",
    };
    let mut text = String::from_str("[");
    match layer_prefix {
        Some(prefix) => text.append(prefix),
        None => text.append(UNKNOWN_LAYER),
    }
    text.append("] ");
    text.append(severity_text);
    text.append(category_text);
    text.append(TAB_MESSAGE);
    text.append(description);
    let unknown = matches!(sev, Severity::Unknown) || matches!(cat, Category::Unknown);
    let level = if unknown {
        Level::FATAL
    } else {
        match sev {
            Severity::Error => Level::ERROR,
            Severity::Warning => Level::WARN,
            Severity::Information => Level::INFO,
            _ => Level::DEBUG,
        }
    };
    let escalate = unknown || matches!(sev, Severity::Error);
    DebugLog { level, text, escalate }
}

} // verus!
