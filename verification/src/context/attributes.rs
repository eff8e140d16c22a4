//! Langfuse-specific attribute keys.
//!
//! These follow the Langfuse OpenTelemetry conventions.

use vstd::prelude::*;

verus! {

/// Session ID attribute key.
pub const TRACE_SESSION_ID: &'static str = "langfuse.session.id";

/// User ID attribute key.
pub const TRACE_USER_ID: &'static str = "langfuse.user.id";

/// Tags attribute key; the value is the JSON text of an array of strings.
pub const TRACE_TAGS: &'static str = "langfuse.trace.tags";

/// Metadata attribute key; the value is JSON text.
pub const TRACE_METADATA: &'static str = "langfuse.trace.metadata";

/// Trace name attribute key.
pub const TRACE_NAME: &'static str = "langfuse.trace.name";

} // verus!
