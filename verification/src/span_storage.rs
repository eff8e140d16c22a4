//! Span storage for interceptor patterns.
//!
//! Where a span is created in one call and completed in another, as in an
//! HTTP interceptor, the span is kept in a [`SpanRegistry`] in between,
//! under an ID that travels with the request. The registry is a value that
//! the caller owns and passes on; there is no registry of the process.

use crate::assoc::{
    contains_key, distinct_keys, entry_views, get_entry, has_entry, lookup, remove_entry,
    set_entry, upsert, without,
};
use crate::text::{concat, decimal, decimal_text};
use vstd::prelude::*;

verus! {

/// The prefix of every span ID.
pub const SPAN_ID_PREFIX: &'static str = "span-";

/// The span ID for a point in time: the prefix, then the time in decimal.
pub open spec fn span_id_text(timestamp_nanos: nat) -> Seq<char> {
    SPAN_ID_PREFIX@ + decimal(timestamp_nanos)
}

/// Generate a span ID from the time, given in nanoseconds since the epoch.
pub fn generate_span_id(timestamp_nanos: u128) -> (span_id: String)
    ensures
        span_id@ == span_id_text(timestamp_nanos as nat),
{
    let number = decimal_text(timestamp_nanos);
    concat(SPAN_ID_PREFIX, number.as_str())
}

/// A span as the registry keeps it.
struct Stored<S> {
    span: S,
}

impl<S> View for Stored<S> {
    type V = S;

    closed spec fn view(&self) -> S {
        self.span
    }
}

/// Registry of active spans, keyed by span ID.
pub struct SpanRegistry<S> {
    spans: Vec<(String, Stored<S>)>,
}

impl<S> View for SpanRegistry<S> {
    type V = Seq<(Seq<char>, S)>;

    /// The spans with their IDs, in the order in which the IDs were first used.
    closed spec fn view(&self) -> Seq<(Seq<char>, S)> {
        entry_views(self.spans@)
    }
}

impl<S> SpanRegistry<S> {
    #[verifier::type_invariant]
    spec fn well_formed(self) -> bool {
        distinct_keys(entry_views(self.spans@))
    }

    /// A registry without spans.
    pub fn new() -> (registry: Self)
        ensures
            registry@ == Seq::<(Seq<char>, S)>::empty(),
    {
        let spans: Vec<(String, Stored<S>)> = Vec::new();
        assert(entry_views(spans@) =~= Seq::<(Seq<char>, S)>::empty());
        SpanRegistry { spans }
    }
}

/// Store a span that was just created and return its ID, which is the one
/// of the time given. A span that the registry holds under the same ID is
/// replaced.
pub fn create_and_store_span<S>(
    registry: &mut SpanRegistry<S>,
    span: S,
    timestamp_nanos: u128,
) -> (span_id: String)
    ensures
        span_id@ == span_id_text(timestamp_nanos as nat),
        final(registry)@ == upsert(old(registry)@, span_id@, span),
        distinct_keys(old(registry)@),
        distinct_keys(final(registry)@),
{
    proof {
        use_type_invariant(&*registry);
    }
    let span_id = generate_span_id(timestamp_nanos);
    let mut spans: Vec<(String, Stored<S>)> = Vec::new();
    core::mem::swap(&mut registry.spans, &mut spans);
    set_entry(&mut spans, span_id.clone(), Stored { span });
    registry.spans = spans;
    span_id
}

/// The span that is stored under an ID, to add attributes to it or to set
/// its status.
pub fn stored_span<'a, S>(registry: &'a SpanRegistry<S>, span_id: &str) -> (span: Option<&'a S>)
    ensures
        match span {
            Some(found) => lookup(registry@, span_id@) == Some(*found),
            None => lookup(registry@, span_id@) is None,
        },
{
    match get_entry(&registry.spans, span_id) {
        Some(stored) => Some(&stored.span),
        None => None,
    }
}

/// Take a stored span out of the registry, to end it.
pub fn end_span<S>(registry: &mut SpanRegistry<S>, span_id: &str) -> (span: Option<S>)
    ensures
        final(registry)@ == without(old(registry)@, span_id@),
        span == lookup(old(registry)@, span_id@),
        !contains_key(final(registry)@, span_id@),
{
    proof {
        use_type_invariant(&*registry);
        crate::assoc::lemma_without(registry@, span_id@);
    }
    let mut spans: Vec<(String, Stored<S>)> = Vec::new();
    core::mem::swap(&mut registry.spans, &mut spans);
    let removed = remove_entry(&mut spans, span_id);
    registry.spans = spans;
    match removed {
        Some(stored) => Some(stored.span),
        None => None,
    }
}

/// Check if a span exists in the registry.
pub fn has_span<S>(registry: &SpanRegistry<S>, span_id: &str) -> (held: bool)
    ensures
        held == contains_key(registry@, span_id@),
{
    has_entry(&registry.spans, span_id)
}

/// Get the current number of active spans in the registry.
pub fn active_span_count<S>(registry: &SpanRegistry<S>) -> (count: usize)
    ensures
        count == registry@.len(),
{
    registry.spans.len()
}

} // verus!
