//! What can go wrong, each with its text and its code on the wire.

use crate::pipeline::PipelineState;
use crate::text::{decimal_digits, unsigned_decimal};
use vstd::prelude::*;
use vstd::string::*;

verus! {

/// A failure reported to the caller of an operation.
#[derive(Debug)]
pub enum GStreamerMcpError {
    /// The engine could not be started; holds the engine's words.
    GStreamerInit(String),
    ElementNotFound(String),
    PluginNotFound(String),
    InvalidElementName(String),
    RegistryError(String),
    PropertyError(String),
    /// A failed read or write; holds its description.
    Io(String),
    /// A value that could not be written out or read back; holds the description.
    Serialization(String),
    Other(String),
    /// The registry already holds as many pipelines as it may; holds that maximum.
    CapacityExceeded(usize),
    /// No pipeline has this identifier.
    NotFound(String),
    /// The engine could not build a graph from a description; holds the full report.
    ParseError(String),
    /// The description built something other than a top-level pipeline.
    GraphTypeError,
    /// The engine rejected a transition to this state.
    StateChangeError(PipelineState),
}

impl GStreamerMcpError {
    /// The text shown for this error.
    pub open spec fn message_text(self) -> Seq<char> {
        match self {
            GStreamerMcpError::GStreamerInit(detail) => "GStreamer initialization failed: "@
                + detail@,
            GStreamerMcpError::ElementNotFound(name) => "Element not found: "@ + name@,
            GStreamerMcpError::PluginNotFound(name) => "Plugin not found: "@ + name@,
            GStreamerMcpError::InvalidElementName(name) => "Invalid element name: "@ + name@,
            GStreamerMcpError::RegistryError(detail) => "Registry access failed: "@ + detail@,
            GStreamerMcpError::PropertyError(detail) => "Property inspection failed: "@ + detail@,
            GStreamerMcpError::Io(detail) => "IO error: "@ + detail@,
            GStreamerMcpError::Serialization(detail) => "Serialization error: "@ + detail@,
            GStreamerMcpError::Other(detail) => "Other error: "@ + detail@,
            GStreamerMcpError::CapacityExceeded(max) => "Maximum pipeline limit ("@
                + decimal_digits(max as nat) + ") reached"@,
            GStreamerMcpError::NotFound(id) => "Pipeline '"@ + id@ + "' not found"@,
            GStreamerMcpError::ParseError(report) => report@,
            GStreamerMcpError::GraphTypeError => "Failed to cast to Pipeline"@,
            GStreamerMcpError::StateChangeError(state) => "Failed to change pipeline state to "@
                + state.name_text(),
        }
    }

    /// The code that stands for this error on the wire.
    pub open spec fn code_of(self) -> int {
        match self {
            GStreamerMcpError::ElementNotFound(_) => -32001,
            GStreamerMcpError::PluginNotFound(_) => -32002,
            GStreamerMcpError::InvalidElementName(_) => -32003,
            GStreamerMcpError::GStreamerInit(_) => -32004,
            GStreamerMcpError::RegistryError(_) => -32005,
            GStreamerMcpError::PropertyError(_) => -32006,
            _ => -32000,
        }
    }

    /// Renders this error as text.
    pub fn message(&self) -> (text: String)
        ensures
            text@ == self.message_text(),
    {
        match self {
            GStreamerMcpError::GStreamerInit(detail) => prefixed(
                "GStreamer initialization failed: ",
                detail.as_str(),
            ),
            GStreamerMcpError::ElementNotFound(name) => prefixed(
                "Element not found: ",
                name.as_str(),
            ),
            GStreamerMcpError::PluginNotFound(name) => prefixed("Plugin not found: ", name.as_str()),
            GStreamerMcpError::InvalidElementName(name) => prefixed(
                "Invalid element name: ",
                name.as_str(),
            ),
            GStreamerMcpError::RegistryError(detail) => prefixed(
                "Registry access failed: ",
                detail.as_str(),
            ),
            GStreamerMcpError::PropertyError(detail) => prefixed(
                "Property inspection failed: ",
                detail.as_str(),
            ),
            GStreamerMcpError::Io(detail) => prefixed("IO error: ", detail.as_str()),
            GStreamerMcpError::Serialization(detail) => prefixed(
                "Serialization error: ",
                detail.as_str(),
            ),
            GStreamerMcpError::Other(detail) => prefixed("Other error: ", detail.as_str()),
            GStreamerMcpError::CapacityExceeded(max) => {
                let mut text = "Maximum pipeline limit (".to_owned();
                let digits = unsigned_decimal(*max as u64);
                text.append(digits.as_str());
                text.append(") reached");
                text
            },
            GStreamerMcpError::NotFound(id) => {
                let mut text = "Pipeline '".to_owned();
                text.append(id.as_str());
                text.append("' not found");
                text
            },
            GStreamerMcpError::ParseError(report) => report.clone(),
            GStreamerMcpError::GraphTypeError => "Failed to cast to Pipeline".to_owned(),
            GStreamerMcpError::StateChangeError(state) => {
                let name = state.name();
                prefixed("Failed to change pipeline state to ", name.as_str())
            },
        }
    }

    /// The code that stands for this error on the wire.
    pub fn code(&self) -> (code: i32)
        ensures
            code == self.code_of(),
    {
        match self {
            GStreamerMcpError::ElementNotFound(_) => -32001,
            GStreamerMcpError::PluginNotFound(_) => -32002,
            GStreamerMcpError::InvalidElementName(_) => -32003,
            GStreamerMcpError::GStreamerInit(_) => -32004,
            GStreamerMcpError::RegistryError(_) => -32005,
            GStreamerMcpError::PropertyError(_) => -32006,
            _ => -32000,
        }
    }
}

/// `prefix` followed by `rest`.
pub fn prefixed(prefix: &str, rest: &str) -> (text: String)
    ensures
        text@ == prefix@ + rest@,
{
    let mut text = prefix.to_owned();
    text.append(rest);
    text
}

} // verus!
