//! The errors of the scanner.

use crate::decimal;
use crate::text::cat;
use vstd::prelude::*;

verus! {

/// What can go wrong, each with the text that explains it.
#[derive(Debug)]
pub enum OxideScannerError {
    Config(String),
    ExternalTool { tool: String, message: String },
    Validation(String),
    Parse(String),
    Io(String),
    Timeout { duration_ms: u64 },
    ServiceDetection(String),
    TargetResolution(String),
}

/// An error by the characters of its texts.
#[verifier::ext_equal]
pub enum ErrorView {
    Config(Seq<char>),
    ExternalTool { tool: Seq<char>, message: Seq<char> },
    Validation(Seq<char>),
    Parse(Seq<char>),
    Io(Seq<char>),
    Timeout { duration_ms: u64 },
    ServiceDetection(Seq<char>),
    TargetResolution(Seq<char>),
}

impl DeepView for OxideScannerError {
    type V = ErrorView;

    open spec fn deep_view(&self) -> ErrorView {
        match *self {
            OxideScannerError::Config(m) => ErrorView::Config(m@),
            OxideScannerError::ExternalTool { tool, message } => ErrorView::ExternalTool {
                tool: tool@,
                message: message@,
            },
            OxideScannerError::Validation(m) => ErrorView::Validation(m@),
            OxideScannerError::Parse(m) => ErrorView::Parse(m@),
            OxideScannerError::Io(m) => ErrorView::Io(m@),
            OxideScannerError::Timeout { duration_ms } => ErrorView::Timeout { duration_ms },
            OxideScannerError::ServiceDetection(m) => ErrorView::ServiceDetection(m@),
            OxideScannerError::TargetResolution(m) => ErrorView::TargetResolution(m@),
        }
    }
}

impl Clone for OxideScannerError {
    fn clone(&self) -> (r: Self)
        ensures
            r.deep_view() == self.deep_view(),
    {
        match self {
            OxideScannerError::Config(m) => OxideScannerError::Config(m.clone()),
            OxideScannerError::ExternalTool { tool, message } => OxideScannerError::ExternalTool {
                tool: tool.clone(),
                message: message.clone(),
            },
            OxideScannerError::Validation(m) => OxideScannerError::Validation(m.clone()),
            OxideScannerError::Parse(m) => OxideScannerError::Parse(m.clone()),
            OxideScannerError::Io(m) => OxideScannerError::Io(m.clone()),
            OxideScannerError::Timeout { duration_ms } => OxideScannerError::Timeout {
                duration_ms: *duration_ms,
            },
            OxideScannerError::ServiceDetection(m) => OxideScannerError::ServiceDetection(
                m.clone(),
            ),
            OxideScannerError::TargetResolution(m) => OxideScannerError::TargetResolution(
                m.clone(),
            ),
        }
    }
}

/// What an operation of the scanner returns.
pub type Outcome<T> = core::result::Result<T, OxideScannerError>;

/// An outcome by the contents of its value or of its error.
pub open spec fn outcome<T: DeepView>(r: Outcome<T>) -> core::result::Result<T::V, ErrorView> {
    match r {
        Ok(v) => Ok(v.deep_view()),
        Err(e) => Err(e.deep_view()),
    }
}

impl ErrorView {
    /// The text shown to the user.
    pub open spec fn described(self) -> Seq<char> {
        match self {
            ErrorView::Config(m) => "Configuration error: "@ + m,
            ErrorView::ExternalTool { tool, message } => "External tool error: "@ + tool
                + " failed with "@ + message,
            ErrorView::Validation(m) => "Validation error: "@ + m,
            ErrorView::Parse(m) => "Parsing error: "@ + m,
            ErrorView::Io(m) => "IO error: "@ + m,
            ErrorView::Timeout { duration_ms } => "Timeout error: operation timed out after "@
                + decimal::digits_of(duration_ms as nat) + "ms"@,
            ErrorView::ServiceDetection(m) => "Service detection failed: "@ + m,
            ErrorView::TargetResolution(m) => "Target resolution failed: "@ + m,
        }
    }
}

impl OxideScannerError {
    pub fn config(msg: &str) -> (r: Self)
        ensures
            r.deep_view() == ErrorView::Config(msg@),
    {
        OxideScannerError::Config(msg.to_owned())
    }

    pub fn external_tool(tool: &str, message: &str) -> (r: Self)
        ensures
            r.deep_view() == (ErrorView::ExternalTool { tool: tool@, message: message@ }),
    {
        OxideScannerError::ExternalTool { tool: tool.to_owned(), message: message.to_owned() }
    }

    pub fn validation(msg: &str) -> (r: Self)
        ensures
            r.deep_view() == ErrorView::Validation(msg@),
    {
        OxideScannerError::Validation(msg.to_owned())
    }

    pub fn parse(msg: &str) -> (r: Self)
        ensures
            r.deep_view() == ErrorView::Parse(msg@),
    {
        OxideScannerError::Parse(msg.to_owned())
    }

    pub fn timeout(duration_ms: u64) -> (r: Self)
        ensures
            r == (OxideScannerError::Timeout { duration_ms }),
    {
        OxideScannerError::Timeout { duration_ms }
    }

    pub fn service_detection(msg: &str) -> (r: Self)
        ensures
            r.deep_view() == ErrorView::ServiceDetection(msg@),
    {
        OxideScannerError::ServiceDetection(msg.to_owned())
    }

    pub fn target_resolution(msg: &str) -> (r: Self)
        ensures
            r.deep_view() == ErrorView::TargetResolution(msg@),
    {
        OxideScannerError::TargetResolution(msg.to_owned())
    }

    /// The text shown to the user.
    pub fn describe(&self) -> (r: String)
        ensures
            r@ == self.deep_view().described(),
    {
        match self {
            OxideScannerError::Config(m) => cat("Configuration error: ", m.as_str()),
            OxideScannerError::ExternalTool { tool, message } => {
                let mut s = cat("External tool error: ", tool.as_str());
                s.append(" failed with ");
                s.append(message.as_str());
                s
            },
            OxideScannerError::Validation(m) => cat("Validation error: ", m.as_str()),
            OxideScannerError::Parse(m) => cat("Parsing error: ", m.as_str()),
            OxideScannerError::Io(m) => cat("IO error: ", m.as_str()),
            OxideScannerError::Timeout { duration_ms } => {
                let n = decimal::write(*duration_ms);
                let mut s = cat("Timeout error: operation timed out after ", n.as_str());
                s.append("ms");
                s
            },
            OxideScannerError::ServiceDetection(m) => cat("Service detection failed: ", m.as_str()),
            OxideScannerError::TargetResolution(m) => cat("Target resolution failed: ", m.as_str()),
        }
    }
}

} // verus!
