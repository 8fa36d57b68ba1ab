//! The native-function registry: a frozen mapping from (address, module,
//! function) to a host implementation, and the helpers that assemble its
//! registration table.

use vstd::prelude::*;
use crate::identifier::{AccountAddress, Identifier, is_valid_identifier};
use crate::status::{PartialVMError, DUPLICATE_NATIVE_FUNCTION};

verus! {

/// One registration: the address, module name and function name under which
/// an implementation is reachable.
pub type NativeFunctionEntry<F> = (AccountAddress, Identifier, Identifier, F);

/// The flat list of registrations a registry is built from.
pub type NativeFunctionTable<F> = Vec<NativeFunctionEntry<F>>;

/// The (address, module, function) triple of a registration.
pub type NativeKey = (u128, Seq<char>, Seq<char>);

/// The triple under which an entry registers its implementation.
pub open spec fn entry_key<F>(e: NativeFunctionEntry<F>) -> NativeKey {
    (e.0.0, e.1@, e.2@)
}

/// No two entries of the table share a triple.
pub open spec fn keys_distinct<F>(t: Seq<NativeFunctionEntry<F>>) -> bool {
    forall|i: int, j: int|
        0 <= i < t.len() && 0 <= j < t.len() && i != j ==> entry_key(#[trigger] t[i])
            != entry_key(#[trigger] t[j])
}

/// Some entry of the table registers the triple `k`.
pub open spec fn has_key<F>(t: Seq<NativeFunctionEntry<F>>, k: NativeKey) -> bool {
    exists|i: int| 0 <= i < t.len() && entry_key(#[trigger] t[i]) == k
}

/// The mapping a table describes, each triple to the implementation of its
/// last entry.
pub open spec fn table_map<F>(t: Seq<NativeFunctionEntry<F>>) -> Map<NativeKey, F>
    decreases t.len(),
{
    if t.len() == 0 {
        Map::empty()
    } else {
        table_map(t.drop_last()).insert(entry_key(t.last()), t.last().3)
    }
}

/// The mapping of a table holds exactly the triples that its entries name.
pub proof fn lemma_table_map_domain<F>(t: Seq<NativeFunctionEntry<F>>, k: NativeKey)
    ensures
        table_map(t).contains_key(k) <==> has_key(t, k),
    decreases t.len(),
{
    if t.len() > 0 {
        lemma_table_map_domain(t.drop_last(), k);
        if has_key(t, k) && entry_key(t.last()) != k {
            let i = choose|i: int| 0 <= i < t.len() && entry_key(#[trigger] t[i]) == k;
            assert(t.drop_last()[i] == t[i]);
        }
        if has_key(t.drop_last(), k) {
            let i = choose|i: int|
                0 <= i < t.drop_last().len() && entry_key(#[trigger] t.drop_last()[i]) == k;
            assert(t[i] == t.drop_last()[i]);
        }
    }
}

/// In a table without repeated triples, each entry's triple maps to that
/// entry's implementation.
pub proof fn lemma_table_map_entry<F>(t: Seq<NativeFunctionEntry<F>>, i: int)
    requires
        keys_distinct(t),
        0 <= i < t.len(),
    ensures
        table_map(t).contains_key(entry_key(t[i])),
        table_map(t)[entry_key(t[i])] == t[i].3,
    decreases t.len(),
{
    lemma_table_map_domain(t, entry_key(t[i]));
    if i < t.len() - 1 {
        let p = t.drop_last();
        assert(p[i] == t[i]);
        assert(keys_distinct(p)) by {
            assert forall|a: int, b: int|
                0 <= a < p.len() && 0 <= b < p.len() && a != b implies entry_key(#[trigger] p[a])
                != entry_key(#[trigger] p[b]) by {
                assert(p[a] == t[a] && p[b] == t[b]);
            }
        }
        lemma_table_map_entry(p, i);
        assert(entry_key(t.last()) != entry_key(t[i]));
    }
}

/// Building a registry from a table with no repeated triple succeeds, and the
/// registry then resolves every registered triple to exactly the registered
/// implementation and every other triple to nothing.
pub proof fn lemma_distinct_table_resolves<F>(t: Seq<NativeFunctionEntry<F>>)
    requires
        keys_distinct(t),
    ensures
        forall|i: int|
            0 <= i < t.len() ==> #[trigger] table_map(t).contains_key(entry_key(t[i]))
                && table_map(t)[entry_key(t[i])] == t[i].3,
        forall|k: NativeKey| !has_key(t, k) ==> !#[trigger] table_map(t).contains_key(k),
{
    assert forall|i: int| 0 <= i < t.len() implies #[trigger] table_map(t).contains_key(
        entry_key(t[i]),
    ) && table_map(t)[entry_key(t[i])] == t[i].3 by {
        lemma_table_map_entry(t, i);
    }
    assert forall|k: NativeKey| !has_key(t, k) implies !#[trigger] table_map(t).contains_key(k) by {
        lemma_table_map_domain(t, k);
    }
}

/// A table in which two entries share a triple is one that the registry
/// refuses to be built from.
pub proof fn lemma_duplicate_table_refused<F>(t: Seq<NativeFunctionEntry<F>>, i: int, j: int)
    requires
        0 <= i < t.len(),
        0 <= j < t.len(),
        i != j,
        entry_key(t[i]) == entry_key(t[j]),
    ensures
        !keys_distinct(t),
{
}

/// The registration of `func` as `module_name::func_name` at `addr`.
fn make_entry<F>(addr: AccountAddress, module_name: &str, func_name: &str, func: F) -> (r:
    NativeFunctionEntry<F>)
    requires
        is_valid_identifier(module_name@),
        is_valid_identifier(func_name@),
    ensures
        r.0 == addr,
        r.1@ == module_name@,
        r.2@ == func_name@,
        r.3 == func,
{
    (addr, Identifier::new(module_name).unwrap(), Identifier::new(func_name).unwrap(), func)
}

/// Turns (module name, function name, implementation) triples into
/// registrations under `addr`, in the same order. Every name must be a legal
/// identifier.
pub fn make_table<F: Copy>(addr: AccountAddress, elems: &[(&str, &str, F)]) -> (r:
    NativeFunctionTable<F>)
    requires
        forall|i: int|
            0 <= i < elems@.len() ==> is_valid_identifier((#[trigger] elems@[i]).0@)
                && is_valid_identifier(elems@[i].1@),
    ensures
        r@.len() == elems@.len(),
        forall|i: int|
            0 <= i < elems@.len() ==> (#[trigger] r@[i]).0 == addr && r@[i].1@ == elems@[i].0@
                && r@[i].2@ == elems@[i].1@ && r@[i].3 == elems@[i].2,
{
    let mut table: NativeFunctionTable<F> = Vec::new();
    let mut i: usize = 0;
    while i < elems.len()
        invariant
            i <= elems@.len(),
            table@.len() == i,
            forall|i: int|
                0 <= i < elems@.len() ==> is_valid_identifier((#[trigger] elems@[i]).0@)
                    && is_valid_identifier(elems@[i].1@),
            forall|j: int|
                0 <= j < i ==> (#[trigger] table@[j]).0 == addr && table@[j].1@ == elems@[j].0@
                    && table@[j].2@ == elems@[j].1@ && table@[j].3 == elems@[j].2,
        decreases elems@.len() - i,
    {
        let e = &elems[i];
        table.push(make_entry(addr, e.0, e.1, e.2));
        i = i + 1;
    }
    table
}

/// Turns owned (module name, function name, implementation) triples into
/// registrations under `addr`, in the same order. Every name must be a legal
/// identifier.
pub fn make_table_from_iter<F>(addr: AccountAddress, elems: Vec<(String, String, F)>) -> (r:
    NativeFunctionTable<F>)
    requires
        forall|i: int|
            0 <= i < elems@.len() ==> is_valid_identifier((#[trigger] elems@[i]).0@)
                && is_valid_identifier(elems@[i].1@),
    ensures
        r@.len() == elems@.len(),
        forall|i: int|
            0 <= i < elems@.len() ==> (#[trigger] r@[i]).0 == addr && r@[i].1@ == elems@[i].0@
                && r@[i].2@ == elems@[i].1@ && r@[i].3 == elems@[i].2,
{
    let mut table: NativeFunctionTable<F> = Vec::new();
    let mut rest = elems;
    let ghost orig = rest@;
    let n = rest.len();
    let mut i: usize = 0;
    while i < n
        invariant
            n == orig.len(),
            i <= n,
            rest@ == orig.subrange(i as int, n as int),
            table@.len() == i,
            forall|i: int|
                0 <= i < orig.len() ==> is_valid_identifier((#[trigger] orig[i]).0@)
                    && is_valid_identifier(orig[i].1@),
            forall|j: int|
                0 <= j < i ==> (#[trigger] table@[j]).0 == addr && table@[j].1@ == orig[j].0@
                    && table@[j].2@ == orig[j].1@ && table@[j].3 == orig[j].2,
        decreases n - i,
    {
        let (module_name, func_name, func) = rest.remove(0);
        table.push(make_entry(addr, module_name.as_str(), func_name.as_str(), func));
        i = i + 1;
    }
    table
}

/// The registry: for each registered triple, the implementation to call.
pub struct NativeFunctions<F> {
    entries: NativeFunctionTable<F>,
}

impl<F> View for NativeFunctions<F> {
    type V = Map<NativeKey, F>;

    closed spec fn view(&self) -> Map<NativeKey, F> {
        table_map(self.entries@)
    }
}

impl<F> NativeFunctions<F> {
    /// No triple is stored twice.
    #[verifier::type_invariant]
    spec fn inv(&self) -> bool {
        keys_distinct(self.entries@)
    }
}

impl<F: Copy> NativeFunctions<F> {
    /// Builds the registry from a table. Fails, with no registry at all, when
    /// two entries share a triple.
    pub fn new(natives: NativeFunctionTable<F>) -> (r: Result<NativeFunctions<F>, PartialVMError>)
        ensures
            r is Ok <==> keys_distinct(natives@),
            r matches Ok(reg) ==> reg@ == table_map(natives@),
            r matches Err(e) ==> e.major_status == DUPLICATE_NATIVE_FUNCTION,
    {
        let n = natives.len();
        let mut i: usize = 0;
        while i < n
            invariant
                n == natives@.len(),
                i <= n,
                keys_distinct(natives@.take(i as int)),
            decreases n - i,
        {
            let e = &natives[i];
            let mut j: usize = 0;
            while j < i
                invariant
                    n == natives@.len(),
                    j <= i < n,
                    *e == natives@[i as int],
                    forall|k: int| 0 <= k < j ==> entry_key(#[trigger] natives@[k]) != entry_key(natives@[i as int]),
                decreases i - j,
            {
                let f = &natives[j];
                if f.0 == e.0 && f.1 == e.1 && f.2 == e.2 {
                    proof {
                        assert(!keys_distinct(natives@)) by {
                            assert(entry_key(natives@[j as int]) == entry_key(natives@[i as int]));
                        }
                    }
                    return Err(PartialVMError::new(DUPLICATE_NATIVE_FUNCTION));
                }
                j = j + 1;
            }
            proof {
                let t = natives@.take(i as int + 1);
                assert forall|a: int, b: int|
                    0 <= a < t.len() && 0 <= b < t.len() && a != b implies entry_key(#[trigger] t[a])
                    != entry_key(#[trigger] t[b]) by {
                    assert(t[a] == natives@[a] && t[b] == natives@[b]);
                    if a < i && b < i {
                        assert(natives@.take(i as int)[a] == t[a]);
                        assert(natives@.take(i as int)[b] == t[b]);
                    }
                }
            }
            i = i + 1;
        }
        assert(natives@.take(n as int) == natives@);
        Ok(NativeFunctions { entries: natives })
    }

    /// The implementation registered under the triple, or `None` where nothing
    /// is registered there.
    pub fn resolve(&self, addr: &AccountAddress, module_name: &str, func_name: &str) -> (r: Option<F>)
        ensures
            r == (if self@.contains_key((addr.0, module_name@, func_name@)) {
                Some(self@[(addr.0, module_name@, func_name@)])
            } else {
                None
            }),
    {
        proof {
            use_type_invariant(self);
        }
        let module = module_name.to_owned();
        let func = func_name.to_owned();
        let ghost k: NativeKey = (addr.0, module_name@, func_name@);
        let n = self.entries.len();
        let mut i: usize = 0;
        while i < n
            invariant
                n == self.entries@.len(),
                i <= n,
                keys_distinct(self.entries@),
                k == (addr.0, module_name@, func_name@),
                module@ == module_name@,
                func@ == func_name@,
                forall|j: int| 0 <= j < i ==> entry_key(#[trigger] self.entries@[j]) != k,
            decreases n - i,
        {
            let e = &self.entries[i];
            if e.0 == *addr && e.1.is_spelled(&module) && e.2.is_spelled(&func) {
                proof {
                    lemma_table_map_entry(self.entries@, i as int);
                }
                return Some(e.3);
            }
            i = i + 1;
        }
        proof {
            lemma_table_map_domain(self.entries@, k);
        }
        None
    }
}

} // verus!
