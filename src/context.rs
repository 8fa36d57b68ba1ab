//! The per-call execution context: the only surface through which a native
//! implementation reaches the interpreter, the data store, the gas schedule,
//! the type resolver and the host extensions. Every fallible collaborator call
//! is classified here before its outcome reaches the native implementation.

use vstd::prelude::*;
use crate::events::{EventLog, EventRecord, is_appended};
use crate::status::{PartialVMError, is_invariant_violation};

verus! {

/// The persistent data store's side of event emission: it decides whether an
/// event may be recorded and, when it may, with which serialization layout.
pub trait DataStore {
    type Ty;
    type Layout;
    type Value;

    /// The layout under which the event is to be recorded, or the reason it
    /// may not be.
    fn emit_event(&mut self, guid: &Vec<u8>, seq_num: u64, ty: &Self::Ty, val: &Self::Value) -> Result<
        Self::Layout,
        PartialVMError,
    >;
}

/// Translation of runtime types into their serializable tags and layouts.
pub trait Resolver {
    type Ty;
    type Tag;
    type Layout;

    fn type_to_type_tag(&self, ty: &Self::Ty) -> Result<Self::Tag, PartialVMError>;

    fn type_to_type_layout(&self, ty: &Self::Ty) -> Result<Self::Layout, PartialVMError>;
}

/// The interpreter's diagnostic view of its call stack.
pub trait Interpreter {
    /// Writes a dump of the call stack at the end of `buf`, leaving what
    /// `buf` held before in place.
    fn debug_print_stack_trace<R: Resolver>(&self, buf: &mut String, resolver: &R) -> (r: Result<
        (),
        PartialVMError,
    >)
        ensures
            old(buf)@.is_prefix_of(final(buf)@),
    ;
}

/// What `save_event` reports for what the data store answered: `true` when
/// the event was recorded, the error itself when it is an invariant
/// violation, `false` for any other refusal.
pub open spec fn event_outcome<L>(res: Result<L, PartialVMError>) -> Result<bool, PartialVMError> {
    match res {
        Ok(_) => Ok(true),
        Err(e) => if is_invariant_violation(e) {
            Err(e)
        } else {
            Ok(false)
        },
    }
}

/// Classifies the data store's answer to an event: recorded, refused for an
/// ordinary reason, or failed fatally.
pub fn classify_event_outcome<L>(res: &Result<L, PartialVMError>) -> (r: Result<bool, PartialVMError>)
    ensures
        r == event_outcome(*res),
{
    match res {
        Ok(_) => Ok(true),
        Err(e) => if e.is_invariant_violation() {
            Err(*e)
        } else {
            Ok(false)
        },
    }
}

/// What `type_to_type_layout` reports for what the resolver answered: the
/// layout, the error itself when it is an invariant violation, and no layout
/// for any other failure.
pub open spec fn layout_outcome<L>(res: Result<L, PartialVMError>) -> Result<Option<L>, PartialVMError> {
    match res {
        Ok(l) => Ok(Some(l)),
        Err(e) => if is_invariant_violation(e) {
            Err(e)
        } else {
            Ok(None)
        },
    }
}

/// Classifies the resolver's answer to a layout query: a layout, no layout,
/// or a fatal failure.
pub fn classify_layout_outcome<L>(res: Result<L, PartialVMError>) -> (r: Result<Option<L>, PartialVMError>)
    ensures
        r == layout_outcome(res),
{
    match res {
        Ok(l) => Ok(Some(l)),
        Err(e) => if e.is_invariant_violation() {
            Err(e)
        } else {
            Ok(None)
        },
    }
}

/// What a native implementation hands back: the gas it charged, and either
/// its return values or an abort code of the contract language.
#[derive(Debug)]
pub struct NativeResult<V> {
    pub cost: u64,
    pub result: Result<Vec<V>, u64>,
}

impl<V> NativeResult<V> {
    /// A successful return of `values` at the given cost.
    pub fn ok(cost: u64, values: Vec<V>) -> (r: NativeResult<V>)
        ensures
            r.cost == cost,
            r.result matches Ok(v) && v@ == values@,
    {
        NativeResult { cost, result: Ok(values) }
    }

    /// An abort with `abort_code` at the given cost.
    pub fn err(cost: u64, abort_code: u64) -> (r: NativeResult<V>)
        ensures
            r.cost == cost,
            r.result == Err::<Vec<V>, u64>(abort_code),
    {
        NativeResult { cost, result: Err(abort_code) }
    }
}

/// The sandbox of one native call. It borrows its collaborators for that
/// call alone and offers nothing beyond the methods below.
pub struct NativeContext<'a, I, S: DataStore, C, R, E> {
    interpreter: &'a I,
    data_store: &'a mut S,
    event_log: &'a mut EventLog<S::Ty, S::Layout, S::Value>,
    cost_table: &'a C,
    resolver: &'a R,
    extensions: &'a mut E,
}

impl<'a, I: Interpreter, S: DataStore, C, R: Resolver, E> NativeContext<'a, I, S, C, R, E> {
    /// The event log as it stands.
    pub closed spec fn log(&self) -> Seq<EventRecord<S::Ty, S::Layout, S::Value>> {
        self.event_log@
    }

    /// The gas schedule's cost table in force for this call.
    pub closed spec fn costs(&self) -> C {
        *self.cost_table
    }

    /// The host extensions as they stand.
    pub closed spec fn ext(&self) -> E {
        *self.extensions
    }

    /// The borrow of the host's event log.
    pub closed spec fn log_borrow(&self) -> &'a mut EventLog<S::Ty, S::Layout, S::Value> {
        self.event_log
    }

    /// The borrow of the host extensions.
    pub closed spec fn ext_borrow(&self) -> &'a mut E {
        self.extensions
    }

    /// Once a context is no longer used, the host's event log and extensions
    /// hold what the context last held.
    pub proof fn lemma_borrows_returned(&self)
        requires
            has_resolved(*self),
        ensures
            final(self.log_borrow())@ == self.log(),
            *final(self.ext_borrow()) == self.ext(),
    {
    }

    /// A context over the given collaborators.
    pub fn new(
        interpreter: &'a I,
        data_store: &'a mut S,
        event_log: &'a mut EventLog<S::Ty, S::Layout, S::Value>,
        cost_table: &'a C,
        resolver: &'a R,
        extensions: &'a mut E,
    ) -> (r: Self)
        ensures
            r.log() == old(event_log)@,
            final(event_log)@ == final(r.log_borrow())@,
            *final(extensions) == *final(r.ext_borrow()),
            r.costs() == *cost_table,
            r.ext() == *old(extensions),
    {
        NativeContext { interpreter, data_store, event_log, cost_table, resolver, extensions }
    }

    /// Writes a dump of the call stack at the end of `buf`; diagnostic only,
    /// it changes nothing that the context holds.
    pub fn print_stack_trace(&self, buf: &mut String) -> (r: Result<(), PartialVMError>)
        ensures
            old(buf)@.is_prefix_of(final(buf)@),
    {
        self.interpreter.debug_print_stack_trace(buf, self.resolver)
    }

    /// The active cost table, from which a native computes the cost it
    /// reports; the context itself charges nothing.
    pub fn cost_table(&self) -> (r: &C)
        ensures
            *r == self.costs(),
    {
        self.cost_table
    }

    /// Records an event. Returns `true` when the store accepts it, and the
    /// event is then the last of the log; `false` when the store refuses it
    /// for an ordinary reason; the store's error when that error is an
    /// invariant violation. Anything but `true` leaves the log as it was.
    pub fn save_event(&mut self, guid: Vec<u8>, seq_num: u64, ty: S::Ty, val: S::Value) -> (r: Result<bool, PartialVMError>)
        ensures
            r == Ok::<bool, PartialVMError>(true) ==> is_appended(
                old(self).log(),
                final(self).log(),
                guid@,
                seq_num,
                ty,
                val,
            ),
            r != Ok::<bool, PartialVMError>(true) ==> final(self).log() == old(self).log(),
            r matches Err(e) ==> is_invariant_violation(e),
            final(self).ext() == old(self).ext(),
            final(self).costs() == old(self).costs(),
            final(final(self).log_borrow())@ == final(old(self).log_borrow())@,
            *final(final(self).ext_borrow()) == *final(old(self).ext_borrow()),
    {
        let res = self.data_store.emit_event(&guid, seq_num, &ty, &val);
        let r = classify_event_outcome(&res);
        match res {
            Ok(layout) => {
                self.event_log.append(guid, seq_num, ty, layout, val);
            },
            Err(_) => {},
        }
        r
    }

    /// The events recorded so far, oldest first.
    pub fn events(&self) -> (r: &Vec<EventRecord<S::Ty, S::Layout, S::Value>>)
        ensures
            r@ == self.log(),
    {
        self.event_log.events()
    }

    /// The tag of a runtime type. Every failure is passed on as it came.
    pub fn type_to_type_tag(&self, ty: &R::Ty) -> (r: Result<R::Tag, PartialVMError>) {
        self.resolver.type_to_type_tag(ty)
    }

    /// The layout of a runtime type: the resolver's layout, no layout where
    /// the resolver fails for an ordinary reason, and the resolver's error
    /// where it is an invariant violation.
    pub fn type_to_type_layout(&self, ty: &R::Ty) -> (r: Result<Option<R::Layout>, PartialVMError>)
        ensures
            r matches Err(e) ==> is_invariant_violation(e),
    {
        let res = self.resolver.type_to_type_layout(ty);
        classify_layout_outcome(res)
    }

    /// Read access to the host extensions.
    pub fn extensions(&self) -> (r: &E)
        ensures
            *r == self.ext(),
    {
        self.extensions
    }

    /// Write access to the host extensions.
    pub fn extensions_mut(&mut self) -> (r: &mut E)
        ensures
            *r == old(self).ext(),
            final(self).ext() == *final(r),
            final(self).log() == old(self).log(),
            final(final(self).log_borrow())@ == final(old(self).log_borrow())@,
            *final(final(self).ext_borrow()) == *final(old(self).ext_borrow()),
    {
        self.extensions
    }
}

} // verus!
