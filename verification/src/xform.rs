//! The blocking-wait rewrite transformation.
//!
//! A compiled binary module may contain the native blocking-wait instruction,
//! which must never execute on a thread that drives the host's event loop.
//! This pass replaces every occurrence of the 32-bit wait instruction with a
//! call to an injected dispatcher that consults a runtime-toggleable
//! "blocking prohibited" global: when blocking is allowed it executes the
//! real wait instruction, otherwise it spins, bounded by the per-call timeout
//! and by a global spin ceiling. The dispatcher, the spin loop, the two
//! imports they need and the two exported globals are added once per module;
//! every other instruction is left exactly as it was.
//!
//! The module is modelled as a structured instruction list per function
//! (block structure appears as explicit `Block`/`Loop`/`If`/`Else`/`End`
//! markers, as in the binary format itself); instructions the pass does not
//! touch can stand as any variant, including the opaque `Other`.

use vstd::prelude::*;

verus! {

/// A value type of the binary format, as far as this pass needs them.
#[derive(Clone, Copy, PartialEq, Eq, Structural, Debug)]
pub enum ValTy {
    /// A 32-bit integer.
    I32,
    /// A 64-bit integer.
    I64,
}

/// The binary operators the injected functions use.
#[derive(Clone, Copy, PartialEq, Eq, Structural, Debug)]
pub enum BinaryOp {
    /// 32-bit inequality test.
    I32Ne,
    /// 64-bit subtraction.
    I64Sub,
    /// 64-bit unsigned greater-or-equal test.
    I64GeU,
}

/// The unary operators the injected functions use.
#[derive(Clone, Copy, PartialEq, Eq, Structural, Debug)]
pub enum UnaryOp {
    /// 64-bit test for zero.
    I64Eqz,
}

/// One instruction. Nesting is written flat, as in the binary format:
/// `Block`, `Loop`, `If` and `Else` open arms that a matching `End` closes.
/// Anything the pass neither replaces nor generates may be carried as
/// `Other`, an opaque code that is preserved exactly.
#[derive(Clone, Copy, PartialEq, Eq, Debug)]
pub enum Instr {
    /// The native blocking wait: parks the thread until the 32-bit word at
    /// the given location leaves the expected value, or a timeout elapses.
    AtomicWait {
        /// Index of the linear memory the location lives in.
        memory: usize,
        /// Byte alignment of the access.
        align: u32,
        /// Constant byte offset added to the address operand.
        offset: u32,
        /// Whether this is the wide, 64-bit form of the wait.
        sixty_four: bool,
    },
    /// An atomic 32-bit load.
    AtomicLoad {
        /// Index of the linear memory read.
        memory: usize,
        /// Byte alignment of the access.
        align: u32,
        /// Constant byte offset added to the address operand.
        offset: u32,
    },
    /// A call to the function with the given index.
    Call {
        /// Index of the callee in the module's function list.
        func: usize,
    },
    /// Reads a global.
    GlobalGet {
        /// Index of the global read.
        global: usize,
    },
    /// Reads a local (parameters first, then declared locals).
    LocalGet {
        /// Index of the local read.
        local: usize,
    },
    /// Writes a local.
    LocalSet {
        /// Index of the local written.
        local: usize,
    },
    /// Writes a local and keeps the value on the stack.
    LocalTee {
        /// Index of the local written.
        local: usize,
    },
    /// Pushes a 32-bit constant.
    ConstI32 {
        /// The constant.
        value: i32,
    },
    /// Pushes a 64-bit constant.
    ConstI64 {
        /// The constant.
        value: i64,
    },
    /// Applies a binary operator to the two topmost stack values.
    Binary {
        /// The operator.
        op: BinaryOp,
    },
    /// Applies a unary operator to the topmost stack value.
    Unary {
        /// The operator.
        op: UnaryOp,
    },
    /// Opens a block arm, closed by a matching `End`.
    Block {
        /// The arm's result type, if any.
        ty: Option<ValTy>,
    },
    /// Opens a loop arm, closed by a matching `End`; a branch to it repeats.
    Loop {
        /// The arm's result type, if any.
        ty: Option<ValTy>,
    },
    /// Opens a conditional arm, optionally split by `Else`, closed by `End`.
    If {
        /// The arm's result type, if any.
        ty: Option<ValTy>,
    },
    /// Separates the two arms of an `If`.
    Else,
    /// Closes the innermost open arm.
    End,
    /// Branches to the `depth`-th enclosing arm, innermost first.
    Br {
        /// How many arms out the target is.
        depth: u32,
    },
    /// Returns from the function.
    Return,
    /// Traps.
    Unreachable,
    /// Any other instruction, preserved exactly.
    Other {
        /// An opaque code standing for the instruction.
        code: u64,
    },
}

/// An imported or locally defined function.
#[derive(Clone, PartialEq, Eq, Debug)]
pub enum FuncKind {
    /// A function imported from the host, by module and name.
    Imported {
        /// The import's module name.
        module: String,
        /// The import's field name.
        name: String,
    },
    /// A function defined in this module.
    Local {
        /// The declared locals, indexed after the parameters.
        locals: Vec<ValTy>,
        /// The function's instructions, flat.
        body: Vec<Instr>,
    },
}

/// One function of the module; its index is its position in the list.
#[derive(Clone, PartialEq, Eq, Debug)]
pub struct Function {
    /// The function's debug name, if any.
    pub name: Option<String>,
    /// The parameter types.
    pub params: Vec<ValTy>,
    /// The result types.
    pub results: Vec<ValTy>,
    /// Imported or local, with the body when local.
    pub kind: FuncKind,
}

/// The constant a global is initialized with.
#[derive(Clone, Copy, PartialEq, Eq, Debug)]
pub enum ConstVal {
    /// A 32-bit constant.
    I32(i32),
    /// A 64-bit constant.
    I64(i64),
}

/// One global of the module; its index is its position in the list.
#[derive(Clone, PartialEq, Eq, Debug)]
pub struct Global {
    /// The global's debug name, if any.
    pub name: Option<String>,
    /// The global's value type.
    pub ty: ValTy,
    /// Whether the global can be written at run time.
    pub mutable: bool,
    /// Whether the global is shared between threads.
    pub shared: bool,
    /// The initializer.
    pub init: ConstVal,
}

/// What one export of the module points at.
#[derive(Clone, Copy, PartialEq, Eq, Debug)]
pub enum ExportItem {
    /// A function, by index.
    Func(usize),
    /// A global, by index.
    Global(usize),
    /// A linear memory, by index.
    Memory(usize),
    /// A table, by index.
    Table(usize),
}

/// One export of the module.
#[derive(Clone, PartialEq, Eq, Debug)]
pub struct Export {
    /// The name the item is exported under.
    pub name: String,
    /// The exported item.
    pub item: ExportItem,
}

/// A compiled binary module, as far as this pass reads and writes it:
/// how many linear memories it has, and its functions, globals and exports.
#[derive(Clone, PartialEq, Eq, Debug)]
pub struct Module {
    /// How many linear memories the module has; the wait instructions must
    /// all target the first one, index 0.
    pub memories: usize,
    /// The functions, imported and local; indices are positions.
    pub functions: Vec<Function>,
    /// The globals; indices are positions.
    pub globals: Vec<Global>,
    /// The exports.
    pub exports: Vec<Export>,
}

/// Import name of the function returning the monotonic clock in nanoseconds.
pub open spec fn clock_ns_import_name() -> Seq<char> {
    "__wbindgen_clock_ns"@
}

/// Import name of the function called when the maximum spin time is exceeded.
pub open spec fn spin_timeout_import_name() -> Seq<char> {
    "__wbindgen_spin_timeout"@
}

/// Export name of the global that tells the injected code whether blocking
/// is prohibited on the current thread.
pub open spec fn wait_prohibited_global_name() -> Seq<char> {
    "wait_prohibited"@
}

/// Export name of the global holding the maximum spin time.
pub open spec fn max_spin_ns_global_name() -> Seq<char> {
    "max_spin_ns"@
}

/// Name of the injected wait dispatcher.
pub open spec fn wait_func_name() -> Seq<char> {
    "__atomic_wait32"@
}

/// Name of the injected spin loop.
pub open spec fn spin_func_name() -> Seq<char> {
    "__atomic_spin32"@
}

/// Default maximum spin time, in nanoseconds: large but finite, a liveness
/// safety net rather than a semantic bound.
pub const MAX_SPIN_NS: i64 = 10000000000;

/// The one memory argument the pass supports on a wait instruction.
pub open spec fn wait_arg_supported(align: u32, offset: u32) -> bool {
    align == 4 && offset == 0
}

/// Whether instruction `i` is acceptable to the pass: wait instructions must
/// be the narrow form, on the supported argument, against memory `memory`;
/// everything else is acceptable as it stands.
pub open spec fn wait_supported(i: Instr, memory: usize) -> bool {
    match i {
        Instr::AtomicWait { memory: m, align, offset, sixty_four } => m == memory
            && wait_arg_supported(align, offset) && !sixty_four,
        _ => true,
    }
}

/// Every instruction of the body is acceptable to the pass.
pub open spec fn body_ok(body: Seq<Instr>, memory: usize) -> bool {
    forall|k: int| 0 <= k < body.len() ==> wait_supported(body[k], memory)
}

/// The instructions of a function: its body when local, nothing when
/// imported.
pub open spec fn local_body(f: Function) -> Seq<Instr> {
    match f.kind {
        FuncKind::Local { locals, body } => body@,
        FuncKind::Imported { .. } => Seq::<Instr>::empty(),
    }
}

/// Every wait instruction anywhere in the module is acceptable to the pass.
pub open spec fn module_ok(m: Module) -> bool {
    forall|fi: int| 0 <= fi < m.functions@.len() ==> body_ok(local_body(m.functions@[fi]), 0)
}

/// The transformation failed; nothing was changed.
#[derive(Clone, Copy, PartialEq, Eq, Debug)]
pub enum XformError {
    /// The module has no linear memory at all.
    NoMemory,
    /// A wait instruction targets a memory other than the first, named by
    /// its index, at instruction `instr` of function `func`.
    UnsupportedMemory {
        /// The function holding the offending instruction.
        func: usize,
        /// The offending instruction's position in that function.
        instr: usize,
        /// The unsupported memory index it targets.
        memory: usize,
    },
    /// A wait instruction uses an unsupported alignment or offset, at
    /// instruction `instr` of function `func`.
    UnsupportedArg {
        /// The function holding the offending instruction.
        func: usize,
        /// The offending instruction's position in that function.
        instr: usize,
        /// The unsupported alignment.
        align: u32,
        /// The unsupported offset.
        offset: u32,
    },
    /// A wait instruction is the wide, 64-bit form, at instruction `instr`
    /// of function `func`.
    UnsupportedWait64 {
        /// The function holding the offending instruction.
        func: usize,
        /// The offending instruction's position in that function.
        instr: usize,
    },
}

/// The error reported for the unacceptable wait instruction `i`, found at
/// position `instr` of function `func`: the wide form outranks a bad
/// argument, which outranks a bad memory index.
pub open spec fn wait_error(func: usize, instr: usize, i: Instr, memory: usize) -> XformError
    recommends
        i is AtomicWait,
        !wait_supported(i, memory),
{
    match i {
        Instr::AtomicWait { memory: m, align, offset, sixty_four } => {
            if sixty_four {
                XformError::UnsupportedWait64 { func, instr }
            } else if !wait_arg_supported(align, offset) {
                XformError::UnsupportedArg { func, instr, align, offset }
            } else {
                XformError::UnsupportedMemory { func, instr, memory: m }
            }
        },
        _ => XformError::NoMemory,
    }
}

/// What the pass does to one instruction: the wait becomes a call to the
/// injected dispatcher; everything else is untouched.
pub open spec fn rewrite_instr(i: Instr, wait_fn: usize) -> Instr {
    match i {
        Instr::AtomicWait { .. } => Instr::Call { func: wait_fn },
        _ => i,
    }
}

/// Function `b` is function `a` after the pass: an import is untouched, a
/// local function keeps everything but its body, whose instructions are
/// rewritten one for one.
pub open spec fn function_rewritten(a: Function, b: Function, wait_fn: usize) -> bool {
    match a.kind {
        FuncKind::Imported { .. } => b == a,
        FuncKind::Local { locals: al, body: ab } => {
            &&& b.name == a.name
            &&& b.params == a.params
            &&& b.results == a.results
            &&& b.kind matches FuncKind::Local { locals: bl, body: bb } && bl == al
                && bb@.len() == ab@.len() && (forall|k: int|
                0 <= k < ab@.len() ==> bb@[k] == rewrite_instr(ab@[k], wait_fn))
        },
    }
}

/// The body of the injected dispatcher `__atomic_wait32(ptr, expected,
/// timeout)`: if the blocking-prohibited global is set, spin; otherwise
/// execute the real native wait.
pub open spec fn wait32_body(memory: usize, wait_prohibited: usize, spin_fn: usize) -> Seq<
    Instr,
> {
    seq![
        Instr::GlobalGet { global: wait_prohibited },
        Instr::If { ty: Some(ValTy::I32) },
        Instr::LocalGet { local: 0 },
        Instr::LocalGet { local: 1 },
        Instr::LocalGet { local: 2 },
        Instr::Call { func: spin_fn },
        Instr::Else,
        Instr::LocalGet { local: 0 },
        Instr::LocalGet { local: 1 },
        Instr::LocalGet { local: 2 },
        Instr::AtomicWait { memory, align: 4, offset: 0, sixty_four: false },
        Instr::End,
    ]
}

/// The body of the injected spin loop `__atomic_spin32(ptr, expected,
/// timeout)`, with locals `start_time` (3), `elapsed` (4) and a cached copy
/// of the global spin ceiling (5). Sample the watched value once: if it
/// already differs from `expected`, return 0 ("not equal") at once.
/// Otherwise loop: return 1 ("value changed") when the value moves, 2
/// ("timed out") when `elapsed` reaches the per-call timeout, and invoke the
/// spin-timeout import (which is expected to abort execution) when a nonzero
/// global ceiling is exceeded.
pub open spec fn spin32_body(
    memory: usize,
    clock_fn: usize,
    max_spin_global: usize,
    spin_timeout_fn: usize,
) -> Seq<Instr> {
    seq![
        Instr::LocalGet { local: 0 },
        Instr::AtomicLoad { memory, align: 4, offset: 0 },
        Instr::LocalGet { local: 1 },
        Instr::Binary { op: BinaryOp::I32Ne },
        Instr::If { ty: None },
        Instr::ConstI32 { value: 0 },
        Instr::Return,
        Instr::End,
        Instr::Call { func: clock_fn },
        Instr::LocalSet { local: 3 },
        Instr::GlobalGet { global: max_spin_global },
        Instr::LocalSet { local: 5 },
        Instr::Loop { ty: None },
        Instr::LocalGet { local: 0 },
        Instr::AtomicLoad { memory, align: 4, offset: 0 },
        Instr::LocalGet { local: 1 },
        Instr::Binary { op: BinaryOp::I32Ne },
        Instr::If { ty: None },
        Instr::ConstI32 { value: 1 },
        Instr::Return,
        Instr::End,
        Instr::Call { func: clock_fn },
        Instr::LocalGet { local: 3 },
        Instr::Binary { op: BinaryOp::I64Sub },
        Instr::LocalTee { local: 4 },
        Instr::LocalGet { local: 2 },
        Instr::Binary { op: BinaryOp::I64GeU },
        Instr::If { ty: None },
        Instr::ConstI32 { value: 2 },
        Instr::Return,
        Instr::End,
        Instr::LocalGet { local: 5 },
        Instr::Unary { op: UnaryOp::I64Eqz },
        Instr::If { ty: None },
        Instr::Else,
        Instr::LocalGet { local: 4 },
        Instr::LocalGet { local: 5 },
        Instr::Binary { op: BinaryOp::I64GeU },
        Instr::If { ty: None },
        Instr::Call { func: spin_timeout_fn },
        Instr::Unreachable,
        Instr::End,
        Instr::End,
        Instr::Br { depth: 0 },
        Instr::End,
        Instr::Unreachable,
    ]
}

/// `f` is the injected clock import: `() -> i64` imported from the
/// placeholder module under the documented name.
pub open spec fn is_clock_import(f: Function, placeholder: Seq<char>) -> bool {
    &&& f.name matches Some(n) && n@ == clock_ns_import_name()
    &&& f.params@ == Seq::<ValTy>::empty()
    &&& f.results@ == seq![ValTy::I64]
    &&& f.kind matches FuncKind::Imported { module, name } && module@ == placeholder && name@
        == clock_ns_import_name()
}

/// `f` is the injected spin-timeout import: `() -> ()` imported from the
/// placeholder module under the documented name.
pub open spec fn is_spin_timeout_import(f: Function, placeholder: Seq<char>) -> bool {
    &&& f.name matches Some(n) && n@ == spin_timeout_import_name()
    &&& f.params@ == Seq::<ValTy>::empty()
    &&& f.results@ == Seq::<ValTy>::empty()
    &&& f.kind matches FuncKind::Imported { module, name } && module@ == placeholder && name@
        == spin_timeout_import_name()
}

/// `f` is the injected spin loop with the given collaborators.
pub open spec fn is_spin_func(
    f: Function,
    memory: usize,
    clock_fn: usize,
    max_spin_global: usize,
    spin_timeout_fn: usize,
) -> bool {
    &&& f.name matches Some(n) && n@ == spin_func_name()
    &&& f.params@ == seq![ValTy::I32, ValTy::I32, ValTy::I64]
    &&& f.results@ == seq![ValTy::I32]
    &&& f.kind matches FuncKind::Local { locals, body } && locals@ == seq![
        ValTy::I64,
        ValTy::I64,
        ValTy::I64,
    ] && body@ == spin32_body(memory, clock_fn, max_spin_global, spin_timeout_fn)
}

/// `f` is the injected wait dispatcher with the given collaborators.
pub open spec fn is_wait_func(
    f: Function,
    memory: usize,
    wait_prohibited: usize,
    spin_fn: usize,
) -> bool {
    &&& f.name matches Some(n) && n@ == wait_func_name()
    &&& f.params@ == seq![ValTy::I32, ValTy::I32, ValTy::I64]
    &&& f.results@ == seq![ValTy::I32]
    &&& f.kind matches FuncKind::Local { locals, body } && locals@ == Seq::<ValTy>::empty()
        && body@ == wait32_body(memory, wait_prohibited, spin_fn)
}

/// `g` is the injected blocking-prohibited global: a mutable, unshared
/// 32-bit flag, defaulting to 0 (blocking allowed).
pub open spec fn is_wait_prohibited_global(g: Global) -> bool {
    &&& g.name matches Some(n) && n@ == wait_prohibited_global_name()
    &&& g.ty is I32
    &&& g.mutable
    &&& !g.shared
    &&& g.init == ConstVal::I32(0)
}

/// `g` is the injected spin-ceiling global: a mutable, unshared 64-bit
/// duration, defaulting to the large but finite `MAX_SPIN_NS`.
pub open spec fn is_max_spin_global(g: Global) -> bool {
    &&& g.name matches Some(n) && n@ == max_spin_ns_global_name()
    &&& g.ty is I64
    &&& g.mutable
    &&& !g.shared
    &&& g.init == ConstVal::I64(MAX_SPIN_NS)
}

/// `e` exports `item` under `name`.
pub open spec fn export_named(e: Export, name: Seq<char>, item: ExportItem) -> bool {
    e.name@ == name && e.item == item
}

/// Adds the clock import; its contract is `is_clock_import`.
fn add_clock_ns_import(module: &mut Module, placeholder_module: &str) -> (f: usize)
    ensures
        f == old(module).functions@.len(),
        final(module).functions@ == old(module).functions@.push(
            final(module).functions@[f as int],
        ),
        is_clock_import(final(module).functions@[f as int], placeholder_module@),
        final(module).memories == old(module).memories,
        final(module).globals@ == old(module).globals@,
        final(module).exports@ == old(module).exports@,
{
    let f = module.functions.len();
    let func = Function {
        name: Some("__wbindgen_clock_ns".to_owned()),
        params: Vec::new(),
        results: {
            let mut results: Vec<ValTy> = Vec::new();
            results.push(ValTy::I64);
            results
        },
        kind: FuncKind::Imported {
            module: placeholder_module.to_owned(),
            name: "__wbindgen_clock_ns".to_owned(),
        },
    };
    proof {
        assert(func.results@ =~= seq![ValTy::I64]);
        assert(func.params@ =~= Seq::<ValTy>::empty());
    }
    module.functions.push(func);
    f
}

/// Adds the spin-timeout import; its contract is `is_spin_timeout_import`.
fn add_spin_timeout_import(module: &mut Module, placeholder_module: &str) -> (f: usize)
    ensures
        f == old(module).functions@.len(),
        final(module).functions@ == old(module).functions@.push(
            final(module).functions@[f as int],
        ),
        is_spin_timeout_import(final(module).functions@[f as int], placeholder_module@),
        final(module).memories == old(module).memories,
        final(module).globals@ == old(module).globals@,
        final(module).exports@ == old(module).exports@,
{
    let f = module.functions.len();
    let func = Function {
        name: Some("__wbindgen_spin_timeout".to_owned()),
        params: Vec::new(),
        results: Vec::new(),
        kind: FuncKind::Imported {
            module: placeholder_module.to_owned(),
            name: "__wbindgen_spin_timeout".to_owned(),
        },
    };
    proof {
        assert(func.results@ =~= Seq::<ValTy>::empty());
        assert(func.params@ =~= Seq::<ValTy>::empty());
    }
    module.functions.push(func);
    f
}

/// Adds the blocking-prohibited global and exports it under its documented
/// name, so a runtime can discover and toggle it.
fn add_wait_prohibited_global(module: &mut Module) -> (g: usize)
    ensures
        g == old(module).globals@.len(),
        final(module).globals@ == old(module).globals@.push(final(module).globals@[g as int]),
        is_wait_prohibited_global(final(module).globals@[g as int]),
        final(module).exports@ == old(module).exports@.push(
            final(module).exports@[old(module).exports@.len() as int],
        ),
        export_named(
            final(module).exports@[old(module).exports@.len() as int],
            wait_prohibited_global_name(),
            ExportItem::Global(g),
        ),
        final(module).memories == old(module).memories,
        final(module).functions@ == old(module).functions@,
{
    let g = module.globals.len();
    module.globals.push(
        Global {
            name: Some("wait_prohibited".to_owned()),
            ty: ValTy::I32,
            mutable: true,
            shared: false,
            init: ConstVal::I32(0),
        },
    );
    module.exports.push(
        Export { name: "wait_prohibited".to_owned(), item: ExportItem::Global(g) },
    );
    g
}

/// Adds the spin-ceiling global and exports it under its documented name,
/// so a runtime can discover and tune it.
fn add_max_spin_ns_global(module: &mut Module) -> (g: usize)
    ensures
        g == old(module).globals@.len(),
        final(module).globals@ == old(module).globals@.push(final(module).globals@[g as int]),
        is_max_spin_global(final(module).globals@[g as int]),
        final(module).exports@ == old(module).exports@.push(
            final(module).exports@[old(module).exports@.len() as int],
        ),
        export_named(
            final(module).exports@[old(module).exports@.len() as int],
            max_spin_ns_global_name(),
            ExportItem::Global(g),
        ),
        final(module).memories == old(module).memories,
        final(module).functions@ == old(module).functions@,
{
    let g = module.globals.len();
    module.globals.push(
        Global {
            name: Some("max_spin_ns".to_owned()),
            ty: ValTy::I64,
            mutable: true,
            shared: false,
            init: ConstVal::I64(MAX_SPIN_NS),
        },
    );
    module.exports.push(Export { name: "max_spin_ns".to_owned(), item: ExportItem::Global(g) });
    g
}

/// Adds the `__atomic_wait32` dispatcher to the module; its contract is
/// `is_wait_func`.
fn add_atomic_wait32_func(
    module: &mut Module,
    memory: usize,
    wait_prohibited: usize,
    spin_fn: usize,
) -> (f: usize)
    ensures
        f == old(module).functions@.len(),
        final(module).functions@ == old(module).functions@.push(
            final(module).functions@[f as int],
        ),
        is_wait_func(final(module).functions@[f as int], memory, wait_prohibited, spin_fn),
        final(module).memories == old(module).memories,
        final(module).globals@ == old(module).globals@,
        final(module).exports@ == old(module).exports@,
{
    let f = module.functions.len();
    let mut params: Vec<ValTy> = Vec::new();
    params.push(ValTy::I32);
    params.push(ValTy::I32);
    params.push(ValTy::I64);
    let mut results: Vec<ValTy> = Vec::new();
    results.push(ValTy::I32);

    let mut body: Vec<Instr> = Vec::new();
    body.push(Instr::GlobalGet { global: wait_prohibited });
    body.push(Instr::If { ty: Some(ValTy::I32) });
    body.push(Instr::LocalGet { local: 0 });
    body.push(Instr::LocalGet { local: 1 });
    body.push(Instr::LocalGet { local: 2 });
    body.push(Instr::Call { func: spin_fn });
    body.push(Instr::Else);
    body.push(Instr::LocalGet { local: 0 });
    body.push(Instr::LocalGet { local: 1 });
    body.push(Instr::LocalGet { local: 2 });
    body.push(Instr::AtomicWait { memory, align: 4, offset: 0, sixty_four: false });
    body.push(Instr::End);

    proof {
        assert(params@ =~= seq![ValTy::I32, ValTy::I32, ValTy::I64]);
        assert(results@ =~= seq![ValTy::I32]);
        assert(body@ =~= wait32_body(memory, wait_prohibited, spin_fn));
    }
    let func = Function {
        name: Some("__atomic_wait32".to_owned()),
        params,
        results,
        kind: FuncKind::Local { locals: Vec::new(), body },
    };
    module.functions.push(func);
    f
}

/// Adds the `__atomic_spin32` spin loop to the module; its contract is
/// `is_spin_func`.
fn add_atomic_spin32_func(
    module: &mut Module,
    memory: usize,
    clock_fn: usize,
    max_spin_global: usize,
    spin_timeout_fn: usize,
) -> (f: usize)
    ensures
        f == old(module).functions@.len(),
        final(module).functions@ == old(module).functions@.push(
            final(module).functions@[f as int],
        ),
        is_spin_func(
            final(module).functions@[f as int],
            memory,
            clock_fn,
            max_spin_global,
            spin_timeout_fn,
        ),
        final(module).memories == old(module).memories,
        final(module).globals@ == old(module).globals@,
        final(module).exports@ == old(module).exports@,
{
    let f = module.functions.len();
    let mut params: Vec<ValTy> = Vec::new();
    params.push(ValTy::I32);
    params.push(ValTy::I32);
    params.push(ValTy::I64);
    let mut results: Vec<ValTy> = Vec::new();
    results.push(ValTy::I32);
    let mut locals: Vec<ValTy> = Vec::new();
    locals.push(ValTy::I64);
    locals.push(ValTy::I64);
    locals.push(ValTy::I64);

    let mut body: Vec<Instr> = Vec::new();
    // Check the initial value: if it is not the expected one, return 0.
    body.push(Instr::LocalGet { local: 0 });
    body.push(Instr::AtomicLoad { memory, align: 4, offset: 0 });
    body.push(Instr::LocalGet { local: 1 });
    body.push(Instr::Binary { op: BinaryOp::I32Ne });
    body.push(Instr::If { ty: None });
    body.push(Instr::ConstI32 { value: 0 });
    body.push(Instr::Return);
    body.push(Instr::End);
    // Record the start time and cache the spin ceiling in a local.
    body.push(Instr::Call { func: clock_fn });
    body.push(Instr::LocalSet { local: 3 });
    body.push(Instr::GlobalGet { global: max_spin_global });
    body.push(Instr::LocalSet { local: 5 });
    // The spin loop.
    body.push(Instr::Loop { ty: None });
    // Re-sample: if the value changed, return 1.
    body.push(Instr::LocalGet { local: 0 });
    body.push(Instr::AtomicLoad { memory, align: 4, offset: 0 });
    body.push(Instr::LocalGet { local: 1 });
    body.push(Instr::Binary { op: BinaryOp::I32Ne });
    body.push(Instr::If { ty: None });
    body.push(Instr::ConstI32 { value: 1 });
    body.push(Instr::Return);
    body.push(Instr::End);
    // Compare the elapsed time against the per-call timeout: return 2.
    body.push(Instr::Call { func: clock_fn });
    body.push(Instr::LocalGet { local: 3 });
    body.push(Instr::Binary { op: BinaryOp::I64Sub });
    body.push(Instr::LocalTee { local: 4 });
    body.push(Instr::LocalGet { local: 2 });
    body.push(Instr::Binary { op: BinaryOp::I64GeU });
    body.push(Instr::If { ty: None });
    body.push(Instr::ConstI32 { value: 2 });
    body.push(Instr::Return);
    body.push(Instr::End);
    // A zero ceiling disables the global spin bound.
    body.push(Instr::LocalGet { local: 5 });
    body.push(Instr::Unary { op: UnaryOp::I64Eqz });
    body.push(Instr::If { ty: None });
    body.push(Instr::Else);
    // The ceiling is enabled: beyond it, call the spin-timeout import,
    // which is expected to abort execution.
    body.push(Instr::LocalGet { local: 4 });
    body.push(Instr::LocalGet { local: 5 });
    body.push(Instr::Binary { op: BinaryOp::I64GeU });
    body.push(Instr::If { ty: None });
    body.push(Instr::Call { func: spin_timeout_fn });
    body.push(Instr::Unreachable);
    body.push(Instr::End);
    body.push(Instr::End);
    // Repeat.
    body.push(Instr::Br { depth: 0 });
    body.push(Instr::End);
    body.push(Instr::Unreachable);

    proof {
        assert(params@ =~= seq![ValTy::I32, ValTy::I32, ValTy::I64]);
        assert(results@ =~= seq![ValTy::I32]);
        assert(locals@ =~= seq![ValTy::I64, ValTy::I64, ValTy::I64]);
        assert(body@ =~= spin32_body(memory, clock_fn, max_spin_global, spin_timeout_fn));
    }
    let func = Function {
        name: Some("__atomic_spin32".to_owned()),
        params,
        results,
        kind: FuncKind::Local { locals, body },
    };
    module.functions.push(func);
    f
}

/// Checks every instruction of one function body against the pass's
/// preconditions: returns the error for the first unacceptable wait
/// instruction, if any.
#[verifier::loop_isolation(false)]
fn check_body(func_index: usize, body: &Vec<Instr>, memory: usize) -> (r: Result<(), XformError>)
    ensures
        r is Ok <==> body_ok(body@, memory),
        r matches Err(e) ==> exists|k: int|
            0 <= k < body@.len() && !wait_supported(#[trigger] body@[k], memory) && (forall|j: int|
                0 <= j < k ==> wait_supported(body@[j], memory)) && e == wait_error(
                func_index,
                k as usize,
                body@[k],
                memory,
            ),
{
    let n = body.len();
    let mut k: usize = 0;
    while k < n
        invariant
            k <= n,
            forall|j: int| 0 <= j < k ==> wait_supported(body@[j], memory),
        decreases n - k,
    {
        match body[k] {
            Instr::AtomicWait { memory: m, align, offset, sixty_four } => {
                if sixty_four {
                    return Err(XformError::UnsupportedWait64 { func: func_index, instr: k });
                }
                if !(align == 4 && offset == 0) {
                    return Err(
                        XformError::UnsupportedArg { func: func_index, instr: k, align, offset },
                    );
                }
                if m != memory {
                    return Err(
                        XformError::UnsupportedMemory { func: func_index, instr: k, memory: m },
                    );
                }
            },
            _ => {},
        }
        k += 1;
    }
    Ok(())
}

/// Replaces every wait instruction of one body by a call to the dispatcher.
#[verifier::loop_isolation(false)]
fn rewrite_body(body: &mut Vec<Instr>, wait_fn: usize)
    ensures
        final(body)@.len() == old(body)@.len(),
        forall|k: int|
            0 <= k < old(body)@.len() ==> final(body)@[k] == rewrite_instr(
                old(body)@[k],
                wait_fn,
            ),
{
    let n = body.len();
    let mut k: usize = 0;
    while k < n
        invariant
            k <= n,
            body@.len() == n,
            n == old(body)@.len(),
            forall|j: int| 0 <= j < k ==> body@[j] == rewrite_instr(old(body)@[j], wait_fn),
            forall|j: int| k <= j < n ==> body@[j] == old(body)@[j],
        decreases n - k,
    {
        match body[k] {
            Instr::AtomicWait { .. } => {
                body[k] = Instr::Call { func: wait_fn };
            },
            _ => {},
        }
        k += 1;
    }
}

/// Module `b` is module `a` after a successful pass: the pre-existing
/// functions rewritten, the four injected functions appended in order, the
/// two globals appended and exported under their documented names, and
/// nothing else changed.
pub open spec fn pass_applied(a: Module, b: Module, placeholder: Seq<char>) -> bool {
    let l = a.functions@.len() as int;
    let g = a.globals@.len() as int;
    let x = a.exports@.len() as int;
    let wait_fn = (l + 3) as usize;
    &&& b.memories == a.memories
    &&& b.functions@.len() == l + 4
    &&& forall|fi: int|
        0 <= fi < l ==> function_rewritten(
            a.functions@[fi],
            #[trigger] b.functions@[fi],
            wait_fn,
        )
    &&& is_clock_import(b.functions@[l], placeholder)
    &&& is_spin_timeout_import(b.functions@[l + 1], placeholder)
    &&& is_spin_func(b.functions@[l + 2], 0, l as usize, g as usize, (l + 1) as usize)
    &&& is_wait_func(b.functions@[l + 3], 0, (g + 1) as usize, (l + 2) as usize)
    &&& b.globals@.len() == g + 2
    &&& forall|gi: int| 0 <= gi < g ==> #[trigger] b.globals@[gi] == a.globals@[gi]
    &&& is_max_spin_global(b.globals@[g])
    &&& is_wait_prohibited_global(b.globals@[g + 1])
    &&& b.exports@.len() == x + 2
    &&& forall|xi: int| 0 <= xi < x ==> #[trigger] b.exports@[xi] == a.exports@[xi]
    &&& export_named(b.exports@[x], max_spin_ns_global_name(), ExportItem::Global(g as usize))
    &&& export_named(
        b.exports@[x + 1],
        wait_prohibited_global_name(),
        ExportItem::Global((g + 1) as usize),
    )
}

/// Runs the transformation: checks that the module has a memory and that
/// every wait instruction is the supported narrow form on the first memory
/// with the supported argument; on any violation it fails, naming the
/// offending instruction, and leaves the module untouched. Otherwise it
/// injects the two imports, the two exported globals and the two generated
/// functions, and replaces every wait instruction of the pre-existing
/// functions — and only those — by a call to the dispatcher. The generated
/// functions themselves are excluded from the rewrite, so the one real wait
/// instruction left afterwards is the dispatcher's own.
#[verifier::loop_isolation(false)]
#[verifier::rlimit(100)]
pub fn run(module: &mut Module, placeholder_module: &str) -> (r: Result<(), XformError>)
    ensures
        r is Ok <==> (old(module).memories > 0 && module_ok(*old(module))),
        r == Err::<(), XformError>(XformError::NoMemory) <==> old(module).memories == 0,
        r is Err ==> *final(module) == *old(module),
        old(module).memories > 0 && !module_ok(*old(module)) ==> exists|fi: int, k: int|
            #![auto]
            {
                &&& 0 <= fi < old(module).functions@.len()
                &&& 0 <= k < local_body(old(module).functions@[fi]).len()
                &&& forall|j: int|
                    0 <= j < fi ==> body_ok(local_body(old(module).functions@[j]), 0)
                &&& forall|j: int|
                    0 <= j < k ==> wait_supported(local_body(old(module).functions@[fi])[j], 0)
                &&& !wait_supported(local_body(old(module).functions@[fi])[k], 0)
                &&& r == Err::<(), XformError>(
                    wait_error(
                        fi as usize,
                        k as usize,
                        local_body(old(module).functions@[fi])[k],
                        0,
                    ),
                )
            },
        r is Ok ==> pass_applied(*old(module), *final(module), placeholder_module@),
{
    // For now only one memory is supported; the wait instructions must all
    // target the first.
    if module.memories == 0 {
        return Err(XformError::NoMemory);
    }
    let memory: usize = 0;

    // Check every pre-existing function first, so that a failing module is
    // handed back untouched: no partial output.
    let n = module.functions.len();
    let mut fi: usize = 0;
    while fi < n
        invariant
            fi <= n,
            n == module.functions@.len(),
            forall|j: int| 0 <= j < fi ==> body_ok(local_body(module.functions@[j]), 0),
        decreases n - fi,
    {
        let func = &module.functions[fi];
        match &func.kind {
            FuncKind::Local { locals: _, body } => {
                match check_body(fi, body, memory) {
                    Ok(()) => {},
                    Err(e) => {
                        return Err(e);
                    },
                }
            },
            FuncKind::Imported { .. } => {},
        }
        fi += 1;
    }

    inject_and_rewrite(module, placeholder_module);
    Ok(())
}

/// The mutating half of the pass: injects the imports, globals and generated
/// functions, then rewrites every pre-existing function's body.
#[verifier::loop_isolation(false)]
#[verifier::rlimit(100)]
fn inject_and_rewrite(module: &mut Module, placeholder_module: &str)
    ensures
        pass_applied(*old(module), *final(module), placeholder_module@),
{
    let memory: usize = 0;
    let n = module.functions.len();

    // Add the necessary items to the module.
    let clock_fn = add_clock_ns_import(module, placeholder_module);
    let spin_timeout_fn = add_spin_timeout_import(module, placeholder_module);
    let max_spin_global = add_max_spin_ns_global(module);
    let spin_fn = add_atomic_spin32_func(
        module,
        memory,
        clock_fn,
        max_spin_global,
        spin_timeout_fn,
    );
    let wait_prohibited = add_wait_prohibited_global(module);
    let wait_fn = add_atomic_wait32_func(module, memory, wait_prohibited, spin_fn);

    // Replace all wait instructions of the pre-existing functions by calls
    // to the dispatcher; the two generated functions, which sit past `n`,
    // are excluded from their own rewrite.
    let ghost mid = *module;
    let mut fi: usize = 0;
    while fi < n
        invariant
            fi <= n,
            n + 4 == module.functions@.len(),
            module.functions@.len() == mid.functions@.len(),
            module.memories == mid.memories,
            module.globals@ == mid.globals@,
            module.exports@ == mid.exports@,
            forall|j: int|
                fi <= j < mid.functions@.len() ==> #[trigger] module.functions@[j]
                    == mid.functions@[j],
            forall|j: int|
                0 <= j < fi ==> function_rewritten(
                    mid.functions@[j],
                    #[trigger] module.functions@[j],
                    wait_fn,
                ),
        decreases n - fi,
    {
        let func = &mut module.functions[fi];
        match &mut func.kind {
            FuncKind::Local { locals: _, body } => {
                rewrite_body(body, wait_fn);
            },
            FuncKind::Imported { .. } => {},
        }
        fi += 1;
    }
}

/// The pass is idempotent per instruction: a replaced wait is a call, and a
/// call — like anything that is not a wait — is never visited again, so
/// rewriting twice is rewriting once.
pub proof fn lemma_rewrite_idempotent_per_instruction(i: Instr, wait_fn: usize)
    ensures
        rewrite_instr(rewrite_instr(i, wait_fn), wait_fn) == rewrite_instr(i, wait_fn),
{
}

/// After a successful pass no pre-existing function holds a wait
/// instruction any more — each became a call to the dispatcher — and every
/// instruction that was not a wait stands exactly as it was.
pub proof fn lemma_rewritten_function_has_no_wait(a: Function, b: Function, wait_fn: usize)
    requires
        function_rewritten(a, b, wait_fn),
    ensures
        forall|k: int| 0 <= k < local_body(b).len() ==> !(local_body(b)[k] is AtomicWait),
        local_body(b).len() == local_body(a).len(),
        forall|k: int|
            0 <= k < local_body(a).len() && !(local_body(a)[k] is AtomicWait) ==> local_body(
                b,
            )[k] == local_body(a)[k],
        forall|k: int|
            0 <= k < local_body(a).len() && local_body(a)[k] is AtomicWait ==> local_body(b)[k]
                == (Instr::Call { func: wait_fn }),
{
    match a.kind {
        FuncKind::Imported { .. } => {},
        FuncKind::Local { locals, body } => {
            assert(forall|k: int|
                0 <= k < local_body(a).len() ==> local_body(b)[k] == rewrite_instr(
                    local_body(a)[k],
                    wait_fn,
                ));
        },
    }
}

} // verus!
