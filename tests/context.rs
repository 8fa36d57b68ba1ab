use std::collections::VecDeque;

use move_natives::context::{
    classify_event_outcome, classify_layout_outcome, DataStore, Interpreter, NativeContext,
    NativeResult, Resolver,
};
use move_natives::events::EventLog;
use move_natives::identifier::AccountAddress;
use move_natives::registry::{make_table, NativeFunctions};
use move_natives::status::PartialVMError;

#[derive(Clone, Debug, PartialEq)]
enum Ty {
    U64,
    Vector(Box<Ty>),
    Param(u16),
    Broken,
}

#[derive(Clone, Debug, PartialEq)]
enum Layout {
    U64,
    Vector(Box<Layout>),
}

#[derive(Clone, Debug, PartialEq)]
enum Val {
    U64(u64),
    Vector(Vec<u64>),
}

struct StubStore {
    answer: Option<u64>,
    asked: u64,
}

impl DataStore for StubStore {
    type Ty = Ty;
    type Layout = Layout;
    type Value = Val;

    fn emit_event(&mut self, _guid: &Vec<u8>, _seq_num: u64, ty: &Ty, _val: &Val) -> Result<Layout, PartialVMError> {
        self.asked += 1;
        match self.answer {
            Some(code) => Err(PartialVMError::new(code)),
            None => layout(ty),
        }
    }
}

struct StubResolver;

fn layout(ty: &Ty) -> Result<Layout, PartialVMError> {
    match ty {
        Ty::U64 => Ok(Layout::U64),
        Ty::Vector(t) => Ok(Layout::Vector(Box::new(layout(t)?))),
        Ty::Param(_) => Err(PartialVMError::new(4016)),
        Ty::Broken => Err(PartialVMError::new(2017)),
    }
}

impl Resolver for StubResolver {
    type Ty = Ty;
    type Tag = String;
    type Layout = Layout;

    fn type_to_type_tag(&self, ty: &Ty) -> Result<String, PartialVMError> {
        match ty {
            Ty::U64 => Ok("u64".to_string()),
            Ty::Vector(_) => Ok("vector".to_string()),
            Ty::Param(_) => Err(PartialVMError::new(4016)),
            Ty::Broken => Err(PartialVMError::new(2017)),
        }
    }

    fn type_to_type_layout(&self, ty: &Ty) -> Result<Layout, PartialVMError> {
        layout(ty)
    }
}

struct CostTable {
    length_base: u64,
    per_element: u64,
}

struct StubInterpreter;

impl Interpreter for StubInterpreter {
    fn debug_print_stack_trace<R: Resolver>(&self, buf: &mut String, _resolver: &R) -> Result<(), PartialVMError> {
        buf.push_str("frame 0: 0x1::vector::length\n");
        Ok(())
    }
}

struct Extensions {
    calls: u64,
}

type Ctx<'a> = NativeContext<'a, StubInterpreter, StubStore, CostTable, StubResolver, Extensions>;
type Native = for<'a, 'b> fn(&'b mut Ctx<'a>, Vec<Ty>, VecDeque<Val>) -> Result<NativeResult<Val>, PartialVMError>;

fn store(answer: Option<u64>) -> StubStore {
    StubStore { answer, asked: 0 }
}

fn gas() -> CostTable {
    CostTable { length_base: 11, per_element: 2 }
}

#[test]
fn accepted_event_is_appended_last() {
    let (interp, g, res) = (StubInterpreter, gas(), StubResolver);
    let mut st = store(None);
    let mut ext = Extensions { calls: 0 };
    let mut log = EventLog::new();
    let mut ctx = NativeContext::new(&interp, &mut st, &mut log, &g, &res, &mut ext);
    assert_eq!(ctx.save_event(vec![1], 0, Ty::U64, Val::U64(5)), Ok(true));
    assert_eq!(ctx.save_event(vec![2], 4, Ty::U64, Val::U64(6)), Ok(true));
    let events = ctx.events();
    assert_eq!(events.len(), 2);
    assert_eq!(events[1], (vec![2], 4, Ty::U64, Layout::U64, Val::U64(6)));
    assert_eq!(events.iter().filter(|e| e.0 == vec![2u8]).count(), 1);
    drop(ctx);
    assert_eq!(st.asked, 2);
    assert_eq!(log.events().len(), 2);
}

#[test]
fn invariant_violation_from_store_propagates() {
    let (interp, g, res) = (StubInterpreter, gas(), StubResolver);
    let mut st = store(Some(2017));
    let mut ext = Extensions { calls: 0 };
    let mut log = EventLog::new();
    let mut ctx = NativeContext::new(&interp, &mut st, &mut log, &g, &res, &mut ext);
    assert_eq!(ctx.save_event(vec![1], 0, Ty::U64, Val::U64(5)), Err(PartialVMError::new(2017)));
    assert!(ctx.events().is_empty());
}

#[test]
fn ordinary_store_refusal_returns_false() {
    let (interp, g, res) = (StubInterpreter, gas(), StubResolver);
    let mut st = store(Some(4016));
    let mut ext = Extensions { calls: 0 };
    let mut log = EventLog::new();
    let mut ctx = NativeContext::new(&interp, &mut st, &mut log, &g, &res, &mut ext);
    assert_eq!(ctx.save_event(vec![1], 0, Ty::U64, Val::U64(5)), Ok(false));
    assert!(ctx.events().is_empty());
    assert_eq!(ctx.save_event(vec![1], 1, Ty::U64, Val::U64(5)), Ok(false));
    drop(ctx);
    assert_eq!(st.asked, 2);
    assert!(log.events().is_empty());
}

#[test]
fn events_keep_call_order() {
    let (interp, g, res) = (StubInterpreter, gas(), StubResolver);
    let mut st = store(None);
    let mut ext = Extensions { calls: 0 };
    let mut log = EventLog::new();
    let mut ctx = NativeContext::new(&interp, &mut st, &mut log, &g, &res, &mut ext);
    assert_eq!(ctx.save_event(b"G1".to_vec(), 9, Ty::Vector(Box::new(Ty::U64)), Val::Vector(vec![3, 1])), Ok(true));
    assert_eq!(ctx.save_event(b"G2".to_vec(), 0, Ty::U64, Val::U64(0)), Ok(true));
    assert_eq!(ctx.save_event(b"G3".to_vec(), 5, Ty::U64, Val::U64(u64::MAX)), Ok(true));
    let guids: Vec<Vec<u8>> = ctx.events().iter().map(|e| e.0.clone()).collect();
    assert_eq!(guids, vec![b"G1".to_vec(), b"G2".to_vec(), b"G3".to_vec()]);
    assert_eq!(ctx.events()[0].3, Layout::Vector(Box::new(Layout::U64)));
}

#[test]
fn layout_queries_are_classified() {
    let (interp, g, res) = (StubInterpreter, gas(), StubResolver);
    let mut st = store(None);
    let mut ext = Extensions { calls: 0 };
    let mut log = EventLog::new();
    let ctx = NativeContext::new(&interp, &mut st, &mut log, &g, &res, &mut ext);
    let vec_ty = Ty::Vector(Box::new(Ty::U64));
    assert_eq!(ctx.type_to_type_layout(&vec_ty), Ok(Some(Layout::Vector(Box::new(Layout::U64)))));
    assert_eq!(ctx.type_to_type_layout(&Ty::Param(0)), Ok(None));
    assert_eq!(ctx.type_to_type_layout(&Ty::Broken), Err(PartialVMError::new(2017)));
}

#[test]
fn type_tag_failures_always_propagate() {
    let (interp, g, res) = (StubInterpreter, gas(), StubResolver);
    let mut st = store(None);
    let mut ext = Extensions { calls: 0 };
    let mut log = EventLog::new();
    let ctx = NativeContext::new(&interp, &mut st, &mut log, &g, &res, &mut ext);
    assert_eq!(ctx.type_to_type_tag(&Ty::U64), Ok("u64".to_string()));
    assert_eq!(ctx.type_to_type_tag(&Ty::Param(1)), Err(PartialVMError::new(4016)));
    assert_eq!(ctx.type_to_type_tag(&Ty::Broken), Err(PartialVMError::new(2017)));
}

#[test]
fn classification_of_collaborator_answers() {
    assert_eq!(classify_event_outcome(&Ok::<u8, PartialVMError>(0)), Ok(true));
    assert_eq!(classify_event_outcome::<u8>(&Err(PartialVMError::new(2000))), Err(PartialVMError::new(2000)));
    assert_eq!(classify_event_outcome::<u8>(&Err(PartialVMError::new(1999))), Ok(false));
    assert_eq!(classify_event_outcome::<u8>(&Err(PartialVMError::new(3000))), Ok(false));
    assert_eq!(classify_layout_outcome(Ok(7u8)), Ok(Some(7u8)));
    assert_eq!(classify_layout_outcome::<u8>(Err(PartialVMError::new(2999))), Err(PartialVMError::new(2999)));
    assert_eq!(classify_layout_outcome::<u8>(Err(PartialVMError::new(4000))), Ok(None));
}

#[test]
fn stack_trace_and_extensions() {
    let (interp, g, res) = (StubInterpreter, gas(), StubResolver);
    let mut st = store(None);
    let mut ext = Extensions { calls: 0 };
    let mut log = EventLog::new();
    {
        let mut ctx = NativeContext::new(&interp, &mut st, &mut log, &g, &res, &mut ext);
        let mut buf = "trace:\n".to_string();
        assert_eq!(ctx.print_stack_trace(&mut buf), Ok(()));
        assert_eq!(buf, "trace:\nframe 0: 0x1::vector::length\n");
        ctx.extensions_mut().calls += 3;
        assert_eq!(ctx.extensions().calls, 3);
        assert!(ctx.events().is_empty());
    }
    assert_eq!(ext.calls, 3);
}

fn native_length(ctx: &mut Ctx<'_>, ty_args: Vec<Ty>, mut args: VecDeque<Val>) -> Result<NativeResult<Val>, PartialVMError> {
    assert!(ty_args.is_empty());
    match args.pop_back() {
        Some(Val::Vector(v)) => {
            let table = ctx.cost_table();
            let cost = table.length_base + table.per_element * v.len() as u64;
            Ok(NativeResult::ok(cost, vec![Val::U64(v.len() as u64)]))
        }
        _ => Ok(NativeResult::err(0, 1)),
    }
}

fn native_push_back(ctx: &mut Ctx<'_>, _ty_args: Vec<Ty>, mut args: VecDeque<Val>) -> Result<NativeResult<Val>, PartialVMError> {
    let elem = args.pop_back();
    let vec = args.pop_back();
    match (vec, elem) {
        (Some(Val::Vector(mut v)), Some(Val::U64(x))) => {
            v.push(x);
            Ok(NativeResult::ok(ctx.cost_table().per_element, vec![Val::Vector(v)]))
        }
        _ => Ok(NativeResult::err(0, 1)),
    }
}

#[test]
fn end_to_end_length_native() {
    let addr = AccountAddress::new(1);
    let table = make_table(addr, &[("vector", "length", native_length as Native), ("vector", "push_back", native_push_back as Native)]);
    let natives = NativeFunctions::new(table).unwrap();
    assert!(natives.resolve(&addr, "vector", "push_back").is_some());
    let length = natives.resolve(&addr, "vector", "length").unwrap();

    let (interp, g, res) = (StubInterpreter, gas(), StubResolver);
    let mut st = store(None);
    let mut ext = Extensions { calls: 0 };
    let mut log = EventLog::new();
    let mut ctx = NativeContext::new(&interp, &mut st, &mut log, &g, &res, &mut ext);
    let mut args = VecDeque::new();
    args.push_back(Val::Vector(vec![10, 20, 30]));
    let out = length(&mut ctx, Vec::new(), args).unwrap();
    assert_eq!(out.cost, 11 + 2 * 3);
    assert_eq!(out.result, Ok(vec![Val::U64(3)]));

    let push = natives.resolve(&addr, "vector", "push_back").unwrap();
    let mut args = VecDeque::new();
    args.push_back(Val::Vector(vec![10]));
    args.push_back(Val::U64(4));
    let out = push(&mut ctx, Vec::new(), args).unwrap();
    assert_eq!(out.result, Ok(vec![Val::Vector(vec![10, 4])]));

    assert!(natives.resolve(&addr, "vector", "swap").is_none());
}
