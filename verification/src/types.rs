//! Identifiers, the shared identifier counter, and the opaque value types
//! that pass through the capability interface untouched.

use vstd::prelude::*;

verus! {

/// Declares `serde_json::Value`, the opaque payload type carried through the
/// update encoding and the capability interface. This layer never looks
/// inside such a value; it only stores it and hands it on.
#[verifier::external_type_specification]
#[verifier::external_body]
pub struct ExValue(serde_json::Value);

/// Relies on the `Clone` impl that serde_json derives for `Value`: a clone of
/// a JSON value is equal to the original.
pub assume_specification[ <serde_json::Value as Clone>::clone ](
    v: &serde_json::Value,
) -> (r: serde_json::Value)
    ensures
        r == *v,
;

/// Declares `std::time::Instant`, so timer deadlines pass through the
/// scheduling calls untouched.
#[verifier::external_type_specification]
#[verifier::external_body]
pub struct ExInstant(std::time::Instant);

/// Identifier of a view: a presented, navigable projection of a buffer.
#[derive(Clone, Copy, Debug, PartialEq, Eq, Hash, Structural)]
pub struct ViewId(pub usize);

/// Identifier of a buffer: the underlying editable text content.
#[derive(Clone, Copy, Debug, PartialEq, Eq, Hash, Structural)]
pub struct BufferId(pub usize);

/// One monotonically increasing counter shared by both identifier spaces, so
/// that a view identifier and a buffer identifier never collide.
pub struct Counter {
    next: usize,
}

impl Counter {
    /// The value the counter will hand out next.
    pub closed spec fn value(&self) -> usize {
        self.next
    }

    pub fn new() -> (r: Self)
        ensures
            r.value() == 0,
    {
        Counter { next: 0 }
    }

    /// Allocates a fresh view identifier and advances the shared counter.
    pub fn next_view_id(&mut self) -> (r: ViewId)
        requires
            old(self).value() < usize::MAX,
        ensures
            r.0 == old(self).value(),
            final(self).value() == old(self).value() + 1,
    {
        let id = self.next;
        self.next = self.next + 1;
        ViewId(id)
    }

    /// Allocates a fresh buffer identifier from the same counter.
    pub fn next_buffer_id(&mut self) -> (r: BufferId)
        requires
            old(self).value() < usize::MAX,
        ensures
            r.0 == old(self).value(),
            final(self).value() == old(self).value() + 1,
    {
        let id = self.next;
        self.next = self.next + 1;
        BufferId(id)
    }
}

/// A style definition; its internal shape belongs to the excluded
/// rendering subsystem and passes through this layer untouched.
#[derive(Debug)]
pub struct Style(pub serde_json::Value);

/// A theme's settings; opaque to this layer.
#[derive(Debug)]
pub struct ThemeSettings(pub serde_json::Value);

/// The identifier of a syntax/language definition.
#[derive(Debug)]
pub struct LanguageId(pub String);

/// What a front-end needs to know about one available plugin; opaque to
/// this layer.
#[derive(Debug)]
pub struct ClientPluginInfo(pub serde_json::Value);

/// A command a plugin exports; opaque to this layer.
#[derive(Debug)]
pub struct Command(pub serde_json::Value);

/// The status of a find query; opaque to this layer.
#[derive(Debug)]
pub struct FindStatus(pub serde_json::Value);

/// The status of a replacement; opaque to this layer.
#[derive(Debug)]
pub struct Replace(pub serde_json::Value);

/// A configuration change-set; opaque to this layer.
#[derive(Debug)]
pub struct Table(pub serde_json::Value);

/// One width-measurement request: the strings to measure in a given font.
#[derive(Debug)]
pub struct WidthReq {
    pub id: usize,
    pub font: String,
    pub strings: Vec<String>,
}

/// A front-end's reply to a width measurement; its shape belongs to the
/// excluded layout subsystem and passes through this layer untouched.
#[derive(Debug)]
pub struct WidthResponse(pub serde_json::Value);

} // verus!
