//! Whole-run model: what a fresh hub hands out for a sequence of allocation
//! requests, and the laws that make identifier sequences predictable.

use vstd::prelude::*;

use crate::hub::ResourceHub;
use crate::id::{Backend, Identifier, ResourceKind};
use crate::text::id_text;

verus! {

/// How many requests in `ops` ask for `kind` on `backend`.
pub open spec fn matching_count(
    ops: Seq<(ResourceKind, Backend)>,
    kind: ResourceKind,
    backend: Backend,
) -> nat
    decreases ops.len(),
{
    if ops.len() == 0 {
        0
    } else {
        matching_count(ops.drop_last(), kind, backend) + (if ops.last() == (kind, backend) {
            1nat
        } else {
            0nat
        })
    }
}

/// The identifiers a fresh hub hands out for the request sequence `ops`, in
/// call order: each request receives, as index, the number of earlier
/// requests for the same kind and backend.
pub open spec fn run_ids(ops: Seq<(ResourceKind, Backend)>) -> Seq<Identifier>
    decreases ops.len(),
{
    if ops.len() == 0 {
        Seq::empty()
    } else {
        run_ids(ops.drop_last()).push(
            Identifier {
                index: matching_count(ops.drop_last(), ops.last().0, ops.last().1) as u64,
                generation: 1,
                backend: ops.last().1,
            },
        )
    }
}

/// The textual forms of a run's identifiers, in call order.
pub open spec fn run_texts(ops: Seq<(ResourceKind, Backend)>) -> Seq<Seq<char>> {
    run_ids(ops).map_values(|id: Identifier| id_text(id))
}

/// A run hands out exactly one identifier per request.
pub proof fn lemma_run_ids_len(ops: Seq<(ResourceKind, Backend)>)
    ensures
        run_ids(ops).len() == ops.len(),
    decreases ops.len(),
{
    if ops.len() > 0 {
        lemma_run_ids_len(ops.drop_last());
    }
}

/// No more requests match than there are requests.
pub proof fn lemma_matching_count_le_len(
    ops: Seq<(ResourceKind, Backend)>,
    kind: ResourceKind,
    backend: Backend,
)
    ensures
        matching_count(ops, kind, backend) <= ops.len(),
    decreases ops.len(),
{
    if ops.len() > 0 {
        lemma_matching_count_le_len(ops.drop_last(), kind, backend);
    }
}

/// Extending a prefix by one request raises the matching count by one
/// exactly when that request matches.
pub proof fn lemma_matching_count_step(
    ops: Seq<(ResourceKind, Backend)>,
    kind: ResourceKind,
    backend: Backend,
    i: int,
)
    requires
        0 <= i < ops.len(),
    ensures
        matching_count(ops.take(i + 1), kind, backend) == matching_count(ops.take(i), kind, backend)
            + (if ops[i] == (kind, backend) {
            1nat
        } else {
            0nat
        }),
{
    assert(ops.take(i + 1).drop_last() =~= ops.take(i));
    assert(ops.take(i + 1).last() == ops[i]);
}

/// Matching counts only grow along a run.
pub proof fn lemma_matching_count_monotonic(
    ops: Seq<(ResourceKind, Backend)>,
    kind: ResourceKind,
    backend: Backend,
    i: int,
    j: int,
)
    requires
        0 <= i <= j <= ops.len(),
    ensures
        matching_count(ops.take(i), kind, backend) <= matching_count(ops.take(j), kind, backend),
    decreases j - i,
{
    if i < j {
        lemma_matching_count_step(ops, kind, backend, j - 1);
        lemma_matching_count_monotonic(ops, kind, backend, i, j - 1);
    }
}

/// Over a stretch without a matching request, the matching count stands
/// still.
pub proof fn lemma_matching_count_constant(
    ops: Seq<(ResourceKind, Backend)>,
    kind: ResourceKind,
    backend: Backend,
    i: int,
    j: int,
)
    requires
        0 <= i <= j <= ops.len(),
        forall|m: int| i <= m < j ==> ops[m] != (kind, backend),
    ensures
        matching_count(ops.take(j), kind, backend) == matching_count(ops.take(i), kind, backend),
    decreases j - i,
{
    if i < j {
        lemma_matching_count_step(ops, kind, backend, j - 1);
        lemma_matching_count_constant(ops, kind, backend, i, j - 1);
    }
}

/// The closed form of a run: the request at position `i` receives the number
/// of earlier matching requests as index, generation 1, and its own backend
/// tag.
pub proof fn lemma_run_ids_index(ops: Seq<(ResourceKind, Backend)>, i: int)
    requires
        0 <= i < ops.len(),
    ensures
        run_ids(ops).len() == ops.len(),
        run_ids(ops)[i] == (Identifier {
            index: matching_count(ops.take(i), ops[i].0, ops[i].1) as u64,
            generation: 1,
            backend: ops[i].1,
        }),
    decreases ops.len(),
{
    lemma_run_ids_len(ops);
    if i == ops.len() - 1 {
        assert(ops.take(i) =~= ops.drop_last());
    } else {
        lemma_run_ids_index(ops.drop_last(), i);
        assert(ops.drop_last().take(i) =~= ops.take(i));
    }
}

/// Monotonicity, start of the sequence: a request with no earlier request
/// for the same kind and backend receives index 0.
pub proof fn lemma_first_index(ops: Seq<(ResourceKind, Backend)>, i: int)
    requires
        0 <= i < ops.len(),
        forall|m: int| 0 <= m < i ==> ops[m] != ops[i],
    ensures
        run_ids(ops)[i].index == 0,
        run_ids(ops)[i].generation == 1,
        run_ids(ops)[i].backend == ops[i].1,
{
    lemma_run_ids_index(ops, i);
    lemma_matching_count_constant(ops, ops[i].0, ops[i].1, 0, i);
    assert(ops.take(0) =~= Seq::<(ResourceKind, Backend)>::empty());
}

/// Monotonicity, no gaps: two requests for the same kind and backend with no
/// matching request between them receive consecutive indices.
pub proof fn lemma_consecutive_indices(ops: Seq<(ResourceKind, Backend)>, i: int, j: int)
    requires
        ops.len() <= u64::MAX,
        0 <= i < j < ops.len(),
        ops[j] == ops[i],
        forall|m: int| i < m < j ==> ops[m] != ops[i],
    ensures
        run_ids(ops)[j].index == run_ids(ops)[i].index + 1,
{
    lemma_run_ids_index(ops, i);
    lemma_run_ids_index(ops, j);
    lemma_matching_count_step(ops, ops[i].0, ops[i].1, i);
    lemma_matching_count_constant(ops, ops[i].0, ops[i].1, i + 1, j);
    lemma_matching_count_le_len(ops.take(i), ops[i].0, ops[i].1);
}

/// Monotonicity, no repeats: indices for one kind and backend strictly grow
/// in call order.
pub proof fn lemma_indices_increase(ops: Seq<(ResourceKind, Backend)>, i: int, j: int)
    requires
        ops.len() <= u64::MAX,
        0 <= i < j < ops.len(),
        ops[j] == ops[i],
    ensures
        run_ids(ops)[i].index < run_ids(ops)[j].index,
{
    lemma_run_ids_index(ops, i);
    lemma_run_ids_index(ops, j);
    lemma_matching_count_step(ops, ops[i].0, ops[i].1, i);
    lemma_matching_count_monotonic(ops, ops[i].0, ops[i].1, i + 1, j);
    lemma_matching_count_le_len(ops.take(i), ops[i].0, ops[i].1);
    lemma_matching_count_le_len(ops.take(j), ops[i].0, ops[i].1);
}

/// Uniqueness: a run never hands out the same identifier twice for one kind
/// and backend; together with backend tagging this makes every identifier of
/// a kind unique for as long as the hub lives.
pub proof fn lemma_run_ids_unique(ops: Seq<(ResourceKind, Backend)>, i: int, j: int)
    requires
        ops.len() <= u64::MAX,
        0 <= i < ops.len(),
        0 <= j < ops.len(),
        i != j,
        ops[i] == ops[j],
    ensures
        run_ids(ops)[i] != run_ids(ops)[j],
{
    if i < j {
        lemma_indices_increase(ops, i, j);
    } else {
        lemma_indices_increase(ops, j, i);
    }
}

/// Serve the request sequence `ops` from a fresh hub, in order. The
/// identifiers that come out are exactly the run model's: the whole output
/// is a function of `ops` alone.
pub fn run_allocations(ops: &Vec<(ResourceKind, Backend)>) -> (ids: Vec<Identifier>)
    requires
        ops@.len() <= u64::MAX,
    ensures
        ids@ == run_ids(ops@),
{
    let mut hub = ResourceHub::new();
    let mut ids: Vec<Identifier> = Vec::new();
    let mut i: usize = 0;
    proof {
        assert(ops@.take(0) =~= Seq::<(ResourceKind, Backend)>::empty());
    }
    while i < ops.len()
        invariant
            i <= ops@.len() <= u64::MAX,
            ids@ == run_ids(ops@.take(i as int)),
            forall|k: ResourceKind, b: Backend|
                hub.counter(k, b) == matching_count(ops@.take(i as int), k, b),
        decreases ops@.len() - i,
    {
        let (kind, backend) = ops[i];
        proof {
            lemma_matching_count_le_len(ops@.take(i as int), kind, backend);
            lemma_matching_count_step(ops@, kind, backend, i as int);
            assert(ops@.take(i as int + 1).drop_last() =~= ops@.take(i as int));
            assert forall|k: ResourceKind, b: Backend|
                !(k == kind && b
                    == backend) implies matching_count(ops@.take(i as int + 1), k, b)
                == matching_count(ops@.take(i as int), k, b) by {
                lemma_matching_count_step(ops@, k, b, i as int);
            }
        }
        let id = hub.next(kind, backend);
        ids.push(id);
        i = i + 1;
    }
    proof {
        assert(ops@.take(ops@.len() as int) =~= ops@);
    }
    ids
}

/// Serve the request sequence `ops` from a fresh hub and return the textual
/// form of every identifier, in call order.
pub fn replay(ops: &Vec<(ResourceKind, Backend)>) -> (texts: Vec<String>)
    requires
        ops@.len() <= u64::MAX,
    ensures
        texts@.len() == ops@.len(),
        forall|i: int| 0 <= i < ops@.len() ==> texts@[i]@ == run_texts(ops@)[i],
{
    proof {
        lemma_run_ids_len(ops@);
    }
    let ids = run_allocations(ops);
    let mut texts: Vec<String> = Vec::new();
    let mut i: usize = 0;
    while i < ids.len()
        invariant
            i <= ids@.len(),
            ids@ == run_ids(ops@),
            ids@.len() == ops@.len(),
            texts@.len() == i,
            forall|m: int| 0 <= m < i ==> texts@[m]@ == run_texts(ops@)[m],
        decreases ids@.len() - i,
    {
        let t = ids[i].text();
        texts.push(t);
        i = i + 1;
    }
    texts
}

/// Determinism / replay: two runs of the same request sequence, each from a
/// fresh hub, yield identical sequences of identifier texts.
pub proof fn lemma_replay_deterministic(
    ops: Seq<(ResourceKind, Backend)>,
    first: Seq<Seq<char>>,
    second: Seq<Seq<char>>,
)
    requires
        first.len() == ops.len(),
        forall|i: int| 0 <= i < ops.len() ==> first[i] == run_texts(ops)[i],
        second.len() == ops.len(),
        forall|i: int| 0 <= i < ops.len() ==> second[i] == run_texts(ops)[i],
    ensures
        first == second,
{
    assert(first =~= second);
}

} // verus!
