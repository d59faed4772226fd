//! The update encoding: the serializable payload of a "view changed"
//! notification, an ordered sequence of typed operations a front-end replays
//! against its cached visible lines.
//!
//! Construction is purely additive: one builder per operation kind, and no
//! operation is mutated after construction. On the wire an operation is an
//! object `{op, n, lines?, ln?}` whose optional fields are omitted entirely
//! when absent, and an update is `{ops, pristine, annotations}`.

use vstd::prelude::*;
use crate::wire::{
    Json, obj_entries, entry_key, entry_val, has_key, is_str, is_payload_seq, jstr, payload_array,
    obj2, obj3,
};

verus! {

/// The discriminant of one update operation.
#[derive(Clone, Copy, Debug, PartialEq, Eq, Structural)]
pub enum OpType {
    Insert,
    Skip,
    Invalidate,
    Copy,
}

/// One step of a view's visible-line delta.
#[derive(Debug)]
pub struct UpdateOp {
    pub(crate) op: OpType,
    pub(crate) n: usize,
    pub(crate) lines: Option<Vec<serde_json::Value>>,
    pub(crate) first_line_number: Option<usize>,
}

impl UpdateOp {
    /// The operation's discriminant.
    pub closed spec fn kind(&self) -> OpType {
        self.op
    }

    /// The count of output lines the operation covers.
    pub closed spec fn n(&self) -> usize {
        self.n
    }

    /// The new line payloads, present exactly for `Insert`.
    pub closed spec fn lines(&self) -> Option<Seq<serde_json::Value>> {
        match self.lines {
            Option::Some(ls) => Option::Some(ls@),
            Option::None => Option::None,
        }
    }

    /// The source line number in the front-end's cache, present exactly for
    /// `Copy`.
    pub closed spec fn first_line_number(&self) -> Option<usize> {
        self.first_line_number
    }

    /// Exactly one of {lines present, first line number present, neither}
    /// holds, determined solely by the discriminant, and for `Insert` the
    /// count always equals the number of supplied lines.
    pub open spec fn wf(&self) -> bool {
        match self.kind() {
            OpType::Insert => {
                &&& self.lines() matches Option::Some(ls) && self.n() == ls.len()
                &&& self.first_line_number() is None
            },
            OpType::Copy => self.lines() is None && self.first_line_number() is Some,
            OpType::Skip => self.lines() is None && self.first_line_number() is None,
            OpType::Invalidate => self.lines() is None && self.first_line_number() is None,
        }
    }

    /// Advance `n` lines without emitting or re-validating content: the
    /// front-end keeps its current rendering for these lines.
    pub fn skip(n: usize) -> (r: UpdateOp)
        ensures
            r.kind() == OpType::Skip,
            r.n() == n,
            r.wf(),
    {
        UpdateOp { op: OpType::Skip, n, lines: Option::None, first_line_number: Option::None }
    }

    /// Mark `n` lines as needing a redraw without supplying new content.
    pub fn invalidate(n: usize) -> (r: UpdateOp)
        ensures
            r.kind() == OpType::Invalidate,
            r.n() == n,
            r.wf(),
    {
        UpdateOp { op: OpType::Invalidate, n, lines: Option::None, first_line_number: Option::None }
    }

    /// Reuse `n` lines already held by the front-end's cache, starting at
    /// `line` in that cache, positioned at the current cursor of the op
    /// sequence.
    pub fn copy(n: usize, line: usize) -> (r: UpdateOp)
        ensures
            r.kind() == OpType::Copy,
            r.n() == n,
            r.first_line_number() == Option::Some(line),
            r.wf(),
    {
        UpdateOp {
            op: OpType::Copy,
            n,
            lines: Option::None,
            first_line_number: Option::Some(line),
        }
    }

    /// Supply brand-new line payloads; the count always equals the number of
    /// supplied lines, so an empty supply yields an empty insert.
    pub fn insert(lines: Vec<serde_json::Value>) -> (r: UpdateOp)
        ensures
            r.kind() == OpType::Insert,
            r.lines() == Option::Some(lines@),
            r.n() == lines@.len(),
            r.wf(),
    {
        let n = lines.len();
        UpdateOp { op: OpType::Insert, n, lines: Option::Some(lines), first_line_number: Option::None }
    }

    /// Runtime check of the construction invariant, for callers outside the
    /// verified world.
    pub fn is_well_formed(&self) -> (r: bool)
        ensures
            r == self.wf(),
    {
        match self.op {
            OpType::Insert => match &self.lines {
                Option::Some(ls) => self.n == ls.len() && self.first_line_number.is_none(),
                Option::None => false,
            },
            OpType::Copy => self.lines.is_none() && self.first_line_number.is_some(),
            OpType::Skip => self.lines.is_none() && self.first_line_number.is_none(),
            OpType::Invalidate => self.lines.is_none() && self.first_line_number.is_none(),
        }
    }

    /// The wire form of the operation: an object whose entries are, in
    /// order, `op` (the kind's name), `n` (the count), then `lines` only for
    /// `Insert` and `ln` only for `Copy`; both are omitted, not null, for
    /// `Skip` and `Invalidate`.
    pub open spec fn wire_matches(&self, j: Json) -> bool {
        match self.kind() {
            OpType::Skip => {
                &&& obj_entries(j).len() == 2
                &&& entry_key(j, 0) == "op"@ && is_str(entry_val(j, 0), "skip"@)
                &&& entry_key(j, 1) == "n"@ && entry_val(j, 1) == Json::UInt(self.n() as u64)
            },
            OpType::Invalidate => {
                &&& obj_entries(j).len() == 2
                &&& entry_key(j, 0) == "op"@ && is_str(entry_val(j, 0), "invalidate"@)
                &&& entry_key(j, 1) == "n"@ && entry_val(j, 1) == Json::UInt(self.n() as u64)
            },
            OpType::Copy => {
                &&& obj_entries(j).len() == 3
                &&& entry_key(j, 0) == "op"@ && is_str(entry_val(j, 0), "copy"@)
                &&& entry_key(j, 1) == "n"@ && entry_val(j, 1) == Json::UInt(self.n() as u64)
                &&& entry_key(j, 2) == "ln"@
                &&& entry_val(j, 2) == Json::UInt(self.first_line_number().unwrap() as u64)
            },
            OpType::Insert => {
                &&& obj_entries(j).len() == 3
                &&& entry_key(j, 0) == "op"@ && is_str(entry_val(j, 0), "ins"@)
                &&& entry_key(j, 1) == "n"@ && entry_val(j, 1) == Json::UInt(self.n() as u64)
                &&& entry_key(j, 2) == "lines"@
                &&& is_payload_seq(entry_val(j, 2), self.lines().unwrap())
            },
        }
    }

    /// Encodes the operation for the wire.
    pub fn to_wire(&self) -> (r: Json)
        requires
            self.wf(),
        ensures
            self.wire_matches(r),
    {
        match self.op {
            OpType::Skip => obj2("op", jstr("skip"), "n", Json::UInt(self.n as u64)),
            OpType::Invalidate => obj2("op", jstr("invalidate"), "n", Json::UInt(self.n as u64)),
            OpType::Copy => {
                let ln = self.first_line_number.unwrap();
                obj3(
                    "op",
                    jstr("copy"),
                    "n",
                    Json::UInt(self.n as u64),
                    "ln",
                    Json::UInt(ln as u64),
                )
            },
            OpType::Insert => {
                let ls = self.lines.as_ref().unwrap();
                obj3(
                    "op",
                    jstr("ins"),
                    "n",
                    Json::UInt(self.n as u64),
                    "lines",
                    payload_array(ls),
                )
            },
        }
    }
}

/// Law: the optional entries of an operation's wire form appear exactly
/// where the discriminant calls for them. `lines` is present if and only if
/// the operation is an `Insert`, and `ln` if and only if it is a `Copy`;
/// for `Skip` and `Invalidate` both are omitted from the object entirely.
pub proof fn lemma_wire_optional_keys(op: UpdateOp, j: Json)
    requires
        op.wire_matches(j),
    ensures
        has_key(j, "lines"@) <==> op.kind() is Insert,
        has_key(j, "ln"@) <==> op.kind() is Copy,
{
    reveal_strlit("op");
    reveal_strlit("n");
    reveal_strlit("lines");
    reveal_strlit("ln");
    // The fixed keys differ from the optional ones: `op` and `ln` share a
    // length, so compare a character; the others differ in length already.
    assert("op"@.len() == 2);
    assert("n"@.len() == 1);
    assert("lines"@.len() == 5);
    assert("ln"@.len() == 2);
    assert("op"@[0] != "ln"@[0]);
    match op.kind() {
        OpType::Skip | OpType::Invalidate => {
            assert forall|i: int| 0 <= i < obj_entries(j).len() implies entry_key(j, i)
                != "lines"@ && entry_key(j, i) != "ln"@ by {
                assert(entry_key(j, 0) == "op"@);
                assert(entry_key(j, 1) == "n"@);
            }
        },
        OpType::Copy => {
            assert(entry_key(j, 2) == "ln"@);
            assert forall|i: int| 0 <= i < obj_entries(j).len() implies entry_key(j, i)
                != "lines"@ by {
                assert(entry_key(j, 0) == "op"@);
                assert(entry_key(j, 1) == "n"@);
            }
        },
        OpType::Insert => {
            assert(entry_key(j, 2) == "lines"@);
            assert forall|i: int| 0 <= i < obj_entries(j).len() implies entry_key(j, i)
                != "ln"@ by {
                assert(entry_key(j, 0) == "op"@);
                assert(entry_key(j, 1) == "n"@);
            }
        },
    }
}

/// Ties the abstract view of an operation to its stored fields, for proofs
/// in the rest of the crate.
pub(crate) proof fn lemma_op_views(op: &UpdateOp)
    ensures
        op.kind() == op.op,
        op.n() == op.n,
        op.first_line_number() == op.first_line_number,
        op.lines() matches Option::Some(ls) ==> op.lines matches Option::Some(v) && v@ == ls,
        op.lines() is None <==> op.lines is None,
{
}

/// The payload of a "view changed" notification: the ordered operation
/// sequence, whether the buffer still has unsaved changes, and the opaque
/// annotation payloads.
#[derive(Debug)]
pub struct Update {
    pub(crate) ops: Vec<UpdateOp>,
    pub(crate) pristine: bool,
    pub(crate) annotations: Vec<serde_json::Value>,
}

impl Update {
    /// The ordered operation sequence.
    pub closed spec fn ops(&self) -> Seq<UpdateOp> {
        self.ops@
    }

    /// Whether the underlying buffer is free of unsaved changes.
    pub closed spec fn pristine(&self) -> bool {
        self.pristine
    }

    /// The opaque annotation payloads, in order.
    pub closed spec fn annotations(&self) -> Seq<serde_json::Value> {
        self.annotations@
    }

    /// Every operation satisfies its construction invariant.
    pub open spec fn wf(&self) -> bool {
        forall|i: int| 0 <= i < self.ops().len() ==> (#[trigger] self.ops()[i]).wf()
    }

    /// Assembles an update from operations built with the per-kind builders.
    pub fn new(ops: Vec<UpdateOp>, pristine: bool, annotations: Vec<serde_json::Value>) -> (r:
        Update)
        ensures
            r.ops() == ops@,
            r.pristine() == pristine,
            r.annotations() == annotations@,
    {
        Update { ops, pristine, annotations }
    }

    /// Runtime check of the construction invariant across all operations,
    /// for callers outside the verified world.
    pub fn is_well_formed(&self) -> (r: bool)
        ensures
            r == self.wf(),
    {
        let mut i: usize = 0;
        while i < self.ops.len()
            invariant
                i <= self.ops.len(),
                forall|k: int| 0 <= k < i ==> (#[trigger] self.ops()[k]).wf(),
            decreases self.ops.len() - i,
        {
            if !self.ops[i].is_well_formed() {
                proof {
                    assert(!self.ops()[i as int].wf());
                }
                return false;
            }
            i = i + 1;
        }
        true
    }

    /// Ties the abstract view of an update to its stored fields, for proofs
    /// in the rest of the crate.
    pub(crate) proof fn lemma_views(&self)
        ensures
            self.ops() == self.ops@,
            self.pristine() == self.pristine,
            self.annotations() == self.annotations@,
    {
    }

    /// The wire form of the update: the object
    /// `{ops: [...], pristine: bool, annotations: [...]}` with the encoded
    /// operations in emission order.
    pub open spec fn wire_matches(&self, j: Json) -> bool {
        &&& obj_entries(j).len() == 3
        &&& entry_key(j, 0) == "ops"@
        &&& entry_val(j, 0) matches Json::Array(items)
        &&& items@.len() == self.ops().len()
        &&& forall|i: int|
            0 <= i < self.ops().len() ==> (#[trigger] self.ops()[i]).wire_matches(items@[i])
        &&& entry_key(j, 1) == "pristine"@ && entry_val(j, 1) == Json::Bool(self.pristine())
        &&& entry_key(j, 2) == "annotations"@
        &&& is_payload_seq(entry_val(j, 2), self.annotations())
    }

    /// Encodes the update for the wire.
    pub fn to_wire(&self) -> (r: Json)
        requires
            self.wf(),
        ensures
            self.wire_matches(r),
    {
        let mut items: Vec<Json> = Vec::new();
        let mut i: usize = 0;
        while i < self.ops.len()
            invariant
                self.wf(),
                i <= self.ops.len(),
                items@.len() == i,
                forall|k: int| 0 <= k < i ==> (#[trigger] self.ops()[k]).wire_matches(items@[k]),
            decreases self.ops.len() - i,
        {
            assert(self.ops()[i as int].wf());
            items.push(self.ops[i].to_wire());
            i = i + 1;
        }
        obj3(
            "ops",
            Json::Array(items),
            "pristine",
            Json::Bool(self.pristine),
            "annotations",
            payload_array(&self.annotations),
        )
    }
}

} // verus!
