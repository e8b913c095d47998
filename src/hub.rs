//! The hub router: an ordered, append-only registry of backends and the
//! rules that turn per-backend outcomes into one result.
use vstd::prelude::*;

verus! {

/// Outcome of a fanned-out write: the first error in registry order, else success.
pub open spec fn write_outcome<E>(results: Seq<Result<(), E>>) -> Result<(), E>
    decreases results.len(),
{
    if results.len() == 0 {
        Ok(())
    } else if results[0] is Err {
        results[0]
    } else {
        write_outcome(results.drop_first())
    }
}

/// Outcome of a fanned-out read: the first entry in registry order that is an
/// error or a hit decides; when every entry is a miss the key is not found.
pub open spec fn read_outcome<V, E>(results: Seq<Result<Option<V>, E>>) -> Result<Option<V>, E>
    decreases results.len(),
{
    if results.len() == 0 {
        Ok(None)
    } else if is_miss(results[0]) {
        read_outcome(results.drop_first())
    } else {
        results[0]
    }
}

/// A miss: the backend answered and does not hold the key.
pub open spec fn is_miss<V, E>(r: Result<Option<V>, E>) -> bool {
    r is Ok && r->Ok_0 is None
}

/// A fanned-out write reports exactly the error of the lowest-index backend that
/// failed, whatever the later backends answered.
pub proof fn lemma_write_reports_lowest_failure<E>(results: Seq<Result<(), E>>, i: int)
    requires
        0 <= i < results.len(),
        results[i] is Err,
        forall|j: int| 0 <= j < i ==> (#[trigger] results[j]) is Ok,
    ensures
        write_outcome(results) == results[i],
    decreases i,
{
    if i > 0 {
        assert forall|j: int| 0 <= j < i - 1 implies (#[trigger] results.drop_first()[j]) is Ok by {
            assert(results.drop_first()[j] == results[j + 1]);
        }
        lemma_write_reports_lowest_failure(results.drop_first(), i - 1);
    }
}

/// A fanned-out write succeeds exactly when every backend's write succeeded.
pub proof fn lemma_write_succeeds_iff_all_succeed<E>(results: Seq<Result<(), E>>)
    ensures
        write_outcome(results) is Ok <==> forall|j: int| 0 <= j < results.len() ==> (#[trigger] results[j]) is Ok,
    decreases results.len(),
{
    if results.len() > 0 {
        lemma_write_succeeds_iff_all_succeed(results.drop_first());
        assert forall|j: int| 1 <= j < results.len() implies results[j] == #[trigger] results.drop_first()[j - 1] by {}
        if write_outcome(results) is Ok {
            assert forall|j: int| 0 <= j < results.len() implies (#[trigger] results[j]) is Ok by {
                if j > 0 {
                    assert(results[j] == results.drop_first()[j - 1]);
                }
            }
        }
    }
}

/// A read over an empty registry finds nothing.
pub proof fn lemma_read_empty_registry_not_found<V, E>()
    ensures
        read_outcome(Seq::<Result<Option<V>, E>>::empty()) == Ok::<Option<V>, E>(None),
{
}

/// A read reports not-found exactly when every backend answered with a miss.
pub proof fn lemma_read_not_found_iff_all_miss<V, E>(results: Seq<Result<Option<V>, E>>)
    ensures
        read_outcome(results) == Ok::<Option<V>, E>(None) <==> forall|j: int| 0 <= j < results.len() ==> is_miss(#[trigger] results[j]),
    decreases results.len(),
{
    if results.len() > 0 {
        lemma_read_not_found_iff_all_miss(results.drop_first());
        if read_outcome(results) == Ok::<Option<V>, E>(None) {
            assert forall|j: int| 0 <= j < results.len() implies is_miss(#[trigger] results[j]) by {
                if j > 0 {
                    assert(results[j] == results.drop_first()[j - 1]);
                }
            }
        } else {
            if forall|j: int| 0 <= j < results.len() ==> is_miss(#[trigger] results[j]) {
                assert forall|j: int| 0 <= j < results.len() - 1 implies is_miss(#[trigger] results.drop_first()[j]) by {
                    assert(results.drop_first()[j] == results[j + 1]);
                }
                assert(is_miss(results[0]));
            }
        }
    }
}

/// When the backend at position `i` holds the key and every other backend
/// misses, the read returns that backend's value.
pub proof fn lemma_read_single_holder<V, E>(results: Seq<Result<Option<V>, E>>, i: int, v: V)
    requires
        0 <= i < results.len(),
        results[i] == Ok::<Option<V>, E>(Some(v)),
        forall|j: int| 0 <= j < results.len() && j != i ==> is_miss(#[trigger] results[j]),
    ensures
        read_outcome(results) == Ok::<Option<V>, E>(Some(v)),
    decreases i,
{
    if i > 0 {
        assert(is_miss(results[0]));
        assert forall|j: int| 0 <= j < results.len() - 1 && j != i - 1 implies is_miss(#[trigger] results.drop_first()[j]) by {
            assert(results.drop_first()[j] == results[j + 1]);
        }
        lemma_read_single_holder(results.drop_first(), i - 1, v);
    }
}

/// With a single backend the hub is transparent: a write reports exactly that
/// backend's outcome and a read returns exactly its answer, so a value written
/// and read back through the hub is the one the backend gives back.
pub proof fn lemma_single_backend_transparent<V, E>(w: Result<(), E>, r: Result<Option<V>, E>)
    ensures
        write_outcome(seq![w]) == w,
        read_outcome(seq![r]) == r,
{
    assert(seq![w].drop_first() =~= Seq::<Result<(), E>>::empty());
    assert(seq![r].drop_first() =~= Seq::<Result<Option<V>, E>>::empty());
    assert(write_outcome(Seq::<Result<(), E>>::empty()) == Ok::<(), E>(()));
    assert(read_outcome(Seq::<Result<Option<V>, E>>::empty()) == Ok::<Option<V>, E>(None));
    if w is Ok {
        assert(w->Ok_0 == ());
        assert(w == Ok::<(), E>(w->Ok_0));
    }
    if is_miss(r) {
        assert(r == Ok::<Option<V>, E>(None));
    }
}

/// Central router over an ordered registry of backends.
pub struct MemoryHub<B> {
    backends: Vec<B>,
}

impl<B> View for MemoryHub<B> {
    type V = Seq<B>;

    /// The registry, in registration order.
    closed spec fn view(&self) -> Seq<B> {
        self.backends@
    }
}

impl<B> MemoryHub<B> {
    /// An empty hub.
    pub fn new() -> (r: Self)
        ensures
            r@ == Seq::<B>::empty(),
    {
        MemoryHub { backends: Vec::new() }
    }

    /// Appends a backend to the registry; earlier entries keep their places.
    pub fn register_backend(&mut self, backend: B)
        ensures
            final(self)@ == old(self)@.push(backend),
    {
        self.backends.push(backend);
    }

    /// Number of registered backends.
    pub fn len(&self) -> (r: usize)
        ensures
            r == self@.len(),
    {
        self.backends.len()
    }

    /// The backend registered at position `i`.
    pub fn backend(&self, i: usize) -> (r: &B)
        requires
            i < self@.len(),
        ensures
            *r == self@[i as int],
    {
        &self.backends[i]
    }

    /// The write to issue to each backend, in registry order: one copy of
    /// `(key, value)` per registered backend.
    pub fn write_requests(&self, key: &String, value: &Vec<u8>) -> (r: Vec<(String, Vec<u8>)>)
        ensures
            r@.len() == self@.len(),
            forall|i: int| 0 <= i < r@.len() ==> (#[trigger] r@[i]).0@ == key@ && r@[i].1@ == value@,
    {
        let mut out: Vec<(String, Vec<u8>)> = Vec::new();
        let n = self.backends.len();
        let mut i: usize = 0;
        while i < n
            invariant
                n == self@.len(),
                i <= n,
                out@.len() == i,
                forall|j: int| 0 <= j < i ==> (#[trigger] out@[j]).0@ == key@ && out@[j].1@ == value@,
            decreases n - i,
        {
            let k = key.clone();
            let v = value.clone();
            assert(v@ =~= value@);
            out.push((k, v));
            i = i + 1;
        }
        out
    }

    /// The key to issue to each backend for a read, in registry order.
    pub fn read_requests(&self, key: &String) -> (r: Vec<String>)
        ensures
            r@.len() == self@.len(),
            forall|i: int| 0 <= i < r@.len() ==> (#[trigger] r@[i])@ == key@,
    {
        let mut out: Vec<String> = Vec::new();
        let n = self.backends.len();
        let mut i: usize = 0;
        while i < n
            invariant
                n == self@.len(),
                i <= n,
                out@.len() == i,
                forall|j: int| 0 <= j < i ==> (#[trigger] out@[j])@ == key@,
            decreases n - i,
        {
            out.push(key.clone());
            i = i + 1;
        }
        out
    }
}

/// Merges the outcomes of a fanned-out write, given in registry order.
pub fn merge_write<E>(results: Vec<Result<(), E>>) -> (r: Result<(), E>)
    ensures
        r == write_outcome(results@),
{
    let mut rs = results;
    let ghost all = rs@;
    let n = rs.len();
    let mut i: usize = 0;
    assert(all.subrange(0, n as int) =~= all);
    while i < n
        invariant
            rs@ == all,
            results@ == all,
            n == all.len(),
            i <= n,
            write_outcome(all) == write_outcome(all.subrange(i as int, n as int)),
        decreases n - i,
    {
        assert(all.subrange(i as int, n as int).drop_first() =~= all.subrange(i + 1, n as int));
        assert(all.subrange(i as int, n as int)[0] == all[i as int]);
        if rs[i].is_err() {
            return rs.remove(i);
        }
        i = i + 1;
    }
    assert(all.subrange(n as int, n as int) =~= Seq::<Result<(), E>>::empty());
    Ok(())
}

/// Merges the outcomes of a fanned-out read, given in registry order.
pub fn merge_read<V, E>(results: Vec<Result<Option<V>, E>>) -> (r: Result<Option<V>, E>)
    ensures
        r == read_outcome(results@),
{
    let mut rs = results;
    let ghost all = rs@;
    let n = rs.len();
    let mut i: usize = 0;
    assert(all.subrange(0, n as int) =~= all);
    while i < n
        invariant
            rs@ == all,
            results@ == all,
            n == all.len(),
            i <= n,
            read_outcome(all) == read_outcome(all.subrange(i as int, n as int)),
        decreases n - i,
    {
        assert(all.subrange(i as int, n as int).drop_first() =~= all.subrange(i + 1, n as int));
        assert(all.subrange(i as int, n as int)[0] == all[i as int]);
        let decisive = match &rs[i] {
            Ok(None) => false,
            _ => true,
        };
        if decisive {
            return rs.remove(i);
        }
        i = i + 1;
    }
    assert(all.subrange(n as int, n as int) =~= Seq::<Result<Option<V>, E>>::empty());
    Ok(None)
}

} // verus!
