//! Wire-level records: the telemetry envelope that the submission pipeline
//! ships, the transmission status body that the ingestion service returns,
//! and the generated contract records that payloads are built from.

use vstd::prelude::*;

verus! {

/// The unit of telemetry submitted to the server. The pipeline treats it as a
/// serialized-ready record: the payload and the context tags are already
/// rendered to JSON text, and the pipeline neither inspects nor mutates them.
#[derive(Debug, PartialEq)]
pub struct Envelope {
    /// Envelope type name.
    pub name: String,
    /// The time stamp of the telemetry item, already formatted.
    pub time: String,
    /// The instrumentation key of the destination resource.
    pub i_key: Option<String>,
    /// Context tags, rendered to a JSON object.
    pub tags: Option<String>,
    /// The payload, rendered to a JSON object.
    pub data: Option<String>,
}

impl Clone for Envelope {
    fn clone(&self) -> (r: Self)
        ensures
            r == *self,
    {
        Envelope {
            name: self.name.clone(),
            time: self.time.clone(),
            i_key: self.i_key.clone(),
            tags: self.tags.clone(),
            data: self.data.clone(),
        }
    }
}

impl Default for Envelope {
    fn default() -> (r: Self)
        ensures
            r.name@ == Seq::<char>::empty(),
            r.time@ == Seq::<char>::empty(),
            r.i_key is None,
            r.tags is None,
            r.data is None,
    {
        Envelope {
            name: String::new(),
            time: String::new(),
            i_key: None,
            tags: None,
            data: None,
        }
    }
}

/// One entry of the `errors` array of a transmission status body: the
/// per-item submission status the server reports for a rejected item.
#[derive(Debug, Clone, PartialEq)]
pub struct TransmissionItem {
    /// Position of the rejected item in the submitted batch.
    pub index: usize,
    /// HTTP-style status code the server assigned to that item.
    pub status_code: u16,
    /// Human-readable explanation.
    pub message: String,
}

/// The transmission status body that the server returns for partially
/// accepted batches: how many items arrived, how many were taken, and a
/// status entry for each rejected item.
#[derive(Debug, Clone, PartialEq)]
pub struct Transmission {
    pub items_accepted: usize,
    pub items_received: usize,
    pub errors: Vec<TransmissionItem>,
}

/// Stack frame information.
#[derive(Debug, Clone, PartialEq)]
pub struct StackFrame {
    pub level: i32,
    pub method: String,
    pub assembly: Option<String>,
    pub file_name: Option<String>,
    pub line: Option<i32>,
}

impl Default for StackFrame {
    fn default() -> (r: Self)
        ensures
            r.level == 0,
            r.method@ == Seq::<char>::empty(),
            r.assembly is None,
            r.file_name is None,
            r.line is None,
    {
        StackFrame {
            level: 0,
            method: String::new(),
            assembly: None,
            file_name: None,
            line: None,
        }
    }
}

/// Exception details of the exception in a chain.
#[derive(Debug, Clone, PartialEq)]
pub struct ExceptionDetails {
    pub id: Option<i32>,
    pub outer_id: Option<i32>,
    pub typename: String,
    pub message: String,
    pub has_full_stack: Option<bool>,
    pub stack: Option<String>,
    pub parsed_stack: Vec<StackFrame>,
}

impl Default for ExceptionDetails {
    fn default() -> (r: Self)
        ensures
            r.id is None,
            r.outer_id is None,
            r.typename@ == Seq::<char>::empty(),
            r.message@ == Seq::<char>::empty(),
            r.has_full_stack == Some(true),
            r.stack is None,
            r.parsed_stack@ == Seq::<StackFrame>::empty(),
    {
        ExceptionDetails {
            id: None,
            outer_id: None,
            typename: String::new(),
            message: String::new(),
            has_full_stack: Some(true),
            stack: None,
            parsed_stack: Vec::new(),
        }
    }
}

/// Value of the severity field of a rendered payload.
#[derive(Debug, Clone, Copy, PartialEq, Eq, Structural)]
pub enum SeverityLevel {
    Verbose,
    Information,
    Warning,
    Error,
    Critical,
}

} // verus!
