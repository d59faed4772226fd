//! Replay of an update against a front-end's cached rendering.
//!
//! The operation sequence of an update is order-significant: replay
//! processes ops in emission order, advancing an implicit output-line cursor
//! by each op's count. A second, implicit cursor walks the cached lines:
//! `Skip` keeps the cached lines at that cursor unchanged and `Invalidate`
//! replaces them with placeholders, so both consume cached lines; `Copy`
//! names its source lines explicitly and `Insert` supplies brand-new
//! payloads, so neither moves the cache cursor.

use vstd::prelude::*;
use crate::update::{OpType, Update, UpdateOp};

verus! {

/// One line of a front-end's cached rendering: a rendered payload, or a
/// placeholder whose content must be re-requested.
#[derive(Debug, PartialEq)]
pub enum DisplayLine {
    Valid(serde_json::Value),
    Invalid,
}

impl Clone for DisplayLine {
    fn clone(&self) -> (r: Self)
        ensures
            r == *self,
    {
        match self {
            DisplayLine::Valid(v) => DisplayLine::Valid(v.clone()),
            DisplayLine::Invalid => DisplayLine::Invalid,
        }
    }
}

/// Whether the cached lines an operation keeps or re-positions exist, with
/// the cache cursor at `cpos`.
pub open spec fn op_in_bounds(op: UpdateOp, cache_len: int, cpos: int) -> bool {
    match op.kind() {
        OpType::Skip => cpos + op.n() <= cache_len,
        OpType::Copy => op.first_line_number().unwrap() + op.n() <= cache_len,
        OpType::Invalidate => true,
        OpType::Insert => true,
    }
}

/// The lines one operation contributes to the new rendering, with the
/// cache cursor at `cpos`.
pub open spec fn op_lines(op: UpdateOp, cache: Seq<DisplayLine>, cpos: int) -> Seq<DisplayLine> {
    match op.kind() {
        OpType::Skip => cache.subrange(cpos, cpos + op.n()),
        OpType::Copy => cache.subrange(
            op.first_line_number().unwrap() as int,
            op.first_line_number().unwrap() + op.n(),
        ),
        OpType::Invalidate => Seq::new(op.n() as nat, |i: int| DisplayLine::Invalid),
        OpType::Insert => op.lines().unwrap().map_values(
            |v: serde_json::Value| DisplayLine::Valid(v),
        ),
    }
}

/// Where the cache cursor stands after an operation. `Skip` and
/// `Invalidate` consume their count of cached lines; an `Invalidate` may
/// reach past the cache (lines newly exposed at the bottom have no cached
/// content), so the cursor stops at the cache's end.
pub open spec fn next_cache_pos(op: UpdateOp, cache_len: int, cpos: int) -> int {
    match op.kind() {
        OpType::Skip => cpos + op.n(),
        OpType::Invalidate => if cpos + op.n() <= cache_len {
            cpos + op.n()
        } else {
            cache_len
        },
        OpType::Copy => cpos,
        OpType::Insert => cpos,
    }
}

/// Where the cache cursor stands after a whole operation sequence.
pub open spec fn cache_pos_after(ops: Seq<UpdateOp>, cache_len: int, cpos: int) -> int
    decreases ops.len(),
{
    if ops.len() == 0 {
        cpos
    } else {
        cache_pos_after(ops.skip(1), cache_len, next_cache_pos(ops[0], cache_len, cpos))
    }
}

/// The new rendering produced by replaying `ops` in emission order against
/// `cache` with the cache cursor starting at `cpos`, or nothing when an
/// operation keeps or re-positions lines past the end of the cache.
pub open spec fn replay_ops(ops: Seq<UpdateOp>, cache: Seq<DisplayLine>, cpos: int) -> Option<
    Seq<DisplayLine>,
>
    decreases ops.len(),
{
    if ops.len() == 0 {
        Option::Some(Seq::empty())
    } else if op_in_bounds(ops[0], cache.len() as int, cpos) {
        match replay_ops(ops.skip(1), cache, next_cache_pos(ops[0], cache.len() as int, cpos)) {
            Option::Some(rest) => Option::Some(op_lines(ops[0], cache, cpos) + rest),
            Option::None => Option::None,
        }
    } else {
        Option::None
    }
}

/// The intended final line sequence of a whole update.
pub open spec fn replay_spec(u: Update, cache: Seq<DisplayLine>) -> Option<Seq<DisplayLine>> {
    replay_ops(u.ops(), cache, 0)
}

/// Sum of the counts of the `Skip`, `Copy` and `Invalidate` operations.
pub open spec fn walked_n(ops: Seq<UpdateOp>) -> int
    decreases ops.len(),
{
    if ops.len() == 0 {
        0
    } else {
        (if ops[0].kind() is Insert {
            0
        } else {
            ops[0].n() as int
        }) + walked_n(ops.skip(1))
    }
}

/// Count of lines supplied by the `Insert` operations.
pub open spec fn inserted_count(ops: Seq<UpdateOp>) -> int
    decreases ops.len(),
{
    if ops.len() == 0 {
        0
    } else {
        (if ops[0].kind() is Insert {
            ops[0].lines().unwrap().len() as int
        } else {
            0
        }) + inserted_count(ops.skip(1))
    }
}

/// Law: replaying a successful operation sequence yields exactly as many
/// output lines as the sum of `n` across `Skip`/`Copy`/`Invalidate`
/// operations plus the count of inserted lines.
pub proof fn lemma_replay_output_len(ops: Seq<UpdateOp>, cache: Seq<DisplayLine>, cpos: int)
    requires
        0 <= cpos,
        forall|i: int| 0 <= i < ops.len() ==> (#[trigger] ops[i]).wf(),
    ensures
        replay_ops(ops, cache, cpos) matches Option::Some(out) ==> out.len() == walked_n(ops)
            + inserted_count(ops),
    decreases ops.len(),
{
    if ops.len() == 0 {
    } else {
        assert(forall|i: int|
            0 <= i < ops.skip(1).len() ==> (#[trigger] ops.skip(1)[i]).wf()) by {
            assert(forall|i: int|
                0 <= i < ops.skip(1).len() ==> ops.skip(1)[i] == ops[i + 1]);
        }
        lemma_replay_output_len(
            ops.skip(1),
            cache,
            next_cache_pos(ops[0], cache.len() as int, cpos),
        );
        assert(ops[0].wf());
        if op_in_bounds(ops[0], cache.len() as int, cpos) {
            match replay_ops(
                ops.skip(1),
                cache,
                next_cache_pos(ops[0], cache.len() as int, cpos),
            ) {
                Option::Some(rest) => {
                    assert(op_lines(ops[0], cache, cpos).len() == (if ops[0].kind() is Insert {
                        ops[0].lines().unwrap().len() as int
                    } else {
                        ops[0].n() as int
                    }));
                },
                Option::None => {},
            }
        }
    }
}

/// Law, stated over a whole update: the sum of `n` across the
/// `Skip`/`Copy`/`Invalidate` ops plus the count of inserted lines equals
/// the total number of output lines the front-end ends up displaying.
pub proof fn lemma_update_output_len(u: Update, cache: Seq<DisplayLine>)
    requires
        u.wf(),
    ensures
        replay_spec(u, cache) matches Option::Some(out) ==> out.len() == walked_n(u.ops())
            + inserted_count(u.ops()),
{
    lemma_replay_output_len(u.ops(), cache, 0);
}

/// Law: replay distributes over concatenation. The first sequence replays
/// with the cache cursor at `cpos`, the second where the first left it, and
/// the outputs concatenate; a failure on either side fails the whole.
pub proof fn lemma_replay_append(
    a: Seq<UpdateOp>,
    b: Seq<UpdateOp>,
    cache: Seq<DisplayLine>,
    cpos: int,
)
    ensures
        replay_ops(a + b, cache, cpos) == (match replay_ops(a, cache, cpos) {
            Option::Some(oa) => match replay_ops(
                b,
                cache,
                cache_pos_after(a, cache.len() as int, cpos),
            ) {
                Option::Some(ob) => Option::Some(oa + ob),
                Option::None => Option::<Seq<DisplayLine>>::None,
            },
            Option::None => Option::<Seq<DisplayLine>>::None,
        }),
    decreases a.len(),
{
    if a.len() == 0 {
        assert(a + b =~= b);
        match replay_ops(b, cache, cpos) {
            Option::Some(ob) => {
                assert(Seq::<DisplayLine>::empty() + ob =~= ob);
            },
            Option::None => {},
        }
    } else {
        assert((a + b)[0] == a[0]);
        assert((a + b).skip(1) =~= a.skip(1) + b);
        let next = next_cache_pos(a[0], cache.len() as int, cpos);
        lemma_replay_append(a.skip(1), b, cache, next);
        if op_in_bounds(a[0], cache.len() as int, cpos) {
            match replay_ops(a.skip(1), cache, next) {
                Option::Some(oskip) => {
                    match replay_ops(
                        b,
                        cache,
                        cache_pos_after(a.skip(1), cache.len() as int, next),
                    ) {
                        Option::Some(ob) => {
                            assert(op_lines(a[0], cache, cpos) + (oskip + ob) =~= (op_lines(
                                a[0],
                                cache,
                                cpos,
                            ) + oskip) + ob);
                        },
                        Option::None => {},
                    }
                },
                Option::None => {},
            }
        }
    }
}

/// Law: a degenerate `Copy` of zero lines is a no-op. Splicing it anywhere
/// into an operation sequence leaves the replay result unchanged, as long as
/// its source line number does not point past the cache.
pub proof fn lemma_copy_zero_noop(
    a: Seq<UpdateOp>,
    op: UpdateOp,
    b: Seq<UpdateOp>,
    cache: Seq<DisplayLine>,
    cpos: int,
)
    requires
        op.kind() is Copy,
        op.n() == 0,
        op.first_line_number().unwrap() <= cache.len(),
    ensures
        replay_ops(a + seq![op] + b, cache, cpos) == replay_ops(a + b, cache, cpos),
{
    lemma_replay_append(a, seq![op] + b, cache, cpos);
    lemma_replay_append(seq![op], b, cache, cache_pos_after(a, cache.len() as int, cpos));
    lemma_replay_append(a, b, cache, cpos);
    assert((a + seq![op] + b) =~= a + (seq![op] + b));
    let q = cache_pos_after(a, cache.len() as int, cpos);
    assert(seq![op].skip(1) =~= Seq::<UpdateOp>::empty());
    assert(op_lines(op, cache, q) =~= Seq::<DisplayLine>::empty());
    assert(op_lines(op, cache, q) + Seq::<DisplayLine>::empty() =~= Seq::<
        DisplayLine,
    >::empty());
    assert(replay_ops(seq![op].skip(1), cache, next_cache_pos(op, cache.len() as int, q))
        == Option::Some(Seq::<DisplayLine>::empty()));
    assert(op_in_bounds(seq![op][0], cache.len() as int, q));
    assert(replay_ops(seq![op], cache, q) == Option::Some(Seq::<DisplayLine>::empty()));
    assert(next_cache_pos(op, cache.len() as int, q) == q);
    assert(cache_pos_after(
        seq![op].skip(1),
        cache.len() as int,
        next_cache_pos(op, cache.len() as int, q),
    ) == q);
    assert(cache_pos_after(seq![op], cache.len() as int, q) == q);
}

/// Replays the update's ops in emission order against the cached lines and
/// returns the new rendering, or nothing when an operation keeps or
/// re-positions lines past the end of the cache.
pub fn replay(u: &Update, cache: &Vec<DisplayLine>) -> (r: Option<Vec<DisplayLine>>)
    requires
        u.wf(),
    ensures
        r is Some <==> replay_spec(*u, cache@) is Some,
        r matches Option::Some(out) ==> replay_spec(*u, cache@) == Option::Some(out@),
{
    let mut out: Vec<DisplayLine> = Vec::new();
    let mut cpos: usize = 0;
    let mut i: usize = 0;
    proof {
        u.lemma_views();
        assert(u.ops().skip(0) =~= u.ops());
        match replay_ops(u.ops(), cache@, 0) {
            Option::Some(rest) => {
                assert(Seq::<DisplayLine>::empty() + rest =~= rest);
            },
            Option::None => {},
        }
    }
    while i < u.ops.len()
        invariant
            u.wf(),
            u.ops() == u.ops@,
            i <= u.ops.len(),
            cpos <= cache.len(),
            replay_ops(u.ops(), cache@, 0) == (match replay_ops(
                u.ops().skip(i as int),
                cache@,
                cpos as int,
            ) {
                Option::Some(rest) => Option::Some(out@ + rest),
                Option::None => Option::<Seq<DisplayLine>>::None,
            }),
        decreases u.ops.len() - i,
    {
        let ghost pre = out@;
        let ghost pos = cpos as int;
        let ghost suffix = u.ops().skip(i as int);
        let op = &u.ops[i];
        proof {
            crate::update::lemma_op_views(op);
            assert(suffix[0] == *op);
            assert(suffix.skip(1) =~= u.ops().skip(i as int + 1));
            assert(u.ops()[i as int].wf());
        }
        match op.op {
            OpType::Skip => {
                if !(op.n <= cache.len() - cpos) {
                    proof {
                        assert(!op_in_bounds(*op, cache@.len() as int, pos));
                    }
                    return Option::None;
                }
                let base = cpos;
                let mut k: usize = 0;
                while k < op.n
                    invariant
                        k <= op.n,
                        base + op.n <= cache.len(),
                        out@ == pre + cache@.subrange(base as int, base + k),
                    decreases op.n - k,
                {
                    out.push(cache[base + k].clone());
                    proof {
                        assert(pre + cache@.subrange(base as int, base + k + 1) =~= (pre
                            + cache@.subrange(base as int, base + k)).push(cache@[base + k]));
                    }
                    k = k + 1;
                }
                cpos = cpos + op.n;
                proof {
                    assert(out@ =~= pre + op_lines(*op, cache@, pos));
                }
            },
            OpType::Copy => {
                let ln = match op.first_line_number {
                    Option::Some(l) => l,
                    Option::None => {
                        proof {
                            assert(false);
                        }
                        0
                    },
                };
                if !(ln <= cache.len() && op.n <= cache.len() - ln) {
                    proof {
                        assert(!op_in_bounds(*op, cache@.len() as int, pos));
                    }
                    return Option::None;
                }
                let mut k: usize = 0;
                while k < op.n
                    invariant
                        k <= op.n,
                        ln + op.n <= cache.len(),
                        out@ == pre + cache@.subrange(ln as int, ln + k),
                    decreases op.n - k,
                {
                    out.push(cache[ln + k].clone());
                    proof {
                        assert(pre + cache@.subrange(ln as int, ln + k + 1) =~= (pre
                            + cache@.subrange(ln as int, ln + k)).push(cache@[ln + k]));
                    }
                    k = k + 1;
                }
                proof {
                    assert(out@ =~= pre + op_lines(*op, cache@, pos));
                }
            },
            OpType::Invalidate => {
                let mut k: usize = 0;
                while k < op.n
                    invariant
                        k <= op.n,
                        out@ == pre + Seq::new(k as nat, |j: int| DisplayLine::Invalid),
                    decreases op.n - k,
                {
                    out.push(DisplayLine::Invalid);
                    proof {
                        assert(pre + Seq::new((k + 1) as nat, |j: int| DisplayLine::Invalid) =~= (
                        pre + Seq::new(k as nat, |j: int| DisplayLine::Invalid)).push(
                            DisplayLine::Invalid,
                        ));
                    }
                    k = k + 1;
                }
                cpos = if op.n <= cache.len() - cpos {
                    cpos + op.n
                } else {
                    cache.len()
                };
                proof {
                    assert(out@ =~= pre + op_lines(*op, cache@, pos));
                }
            },
            OpType::Insert => {
                let ls = match &op.lines {
                    Option::Some(ls) => ls,
                    Option::None => {
                        proof {
                            assert(false);
                        }
                        return Option::None;
                    },
                };
                let mut k: usize = 0;
                while k < ls.len()
                    invariant
                        k <= ls.len(),
                        out@.len() == pre.len() + k,
                        forall|j: int| 0 <= j < pre.len() ==> out@[j] == pre[j],
                        forall|j: int|
                            0 <= j < k ==> out@[pre.len() + j] == DisplayLine::Valid(ls@[j]),
                    decreases ls.len() - k,
                {
                    out.push(DisplayLine::Valid(ls[k].clone()));
                    k = k + 1;
                }
                proof {
                    assert(out@ =~= pre + op_lines(*op, cache@, pos));
                }
            },
        }
        proof {
            assert(cpos as int == next_cache_pos(*op, cache@.len() as int, pos));
            assert(op_in_bounds(*op, cache@.len() as int, pos));
            match replay_ops(u.ops().skip(i as int + 1), cache@, cpos as int) {
                Option::Some(rest) => {
                    assert(pre + (op_lines(*op, cache@, pos) + rest) =~= out@ + rest);
                },
                Option::None => {},
            }
        }
        i = i + 1;
    }
    proof {
        assert(u.ops().skip(i as int) =~= Seq::<UpdateOp>::empty());
        assert(out@ + Seq::<DisplayLine>::empty() =~= out@);
    }
    Option::Some(out)
}

} // verus!
