//! Runs the bodies the library registers on a small interpreter for the
//! instructions they use, and checks what they compute.

use clean_stdlib::codegen::CodeGenerator;
use clean_stdlib::json_class::JsonClass;
use clean_stdlib::list_advanced::ListAdvancedManager;
use clean_stdlib::list_behavior::ListBehaviorManager;
use clean_stdlib::list_class::ListClass;
use clean_stdlib::list_ops::ListManager;
use clean_stdlib::matrix_literals::MatrixLiteralsManager;
use clean_stdlib::matrix_ops::MatrixOperations;
use clean_stdlib::memory::MemoryManager;
use clean_stdlib::wasm::{BlockType, Instruction, WasmType};
use std::collections::HashMap;

#[derive(Clone, Copy, Debug, PartialEq)]
enum V {
    I(i32),
    F(f64),
}

impl V {
    fn i(self) -> i32 {
        match self {
            V::I(x) => x,
            V::F(_) => panic!("expected i32"),
        }
    }
    fn f(self) -> f64 {
        match self {
            V::F(x) => x,
            V::I(_) => panic!("expected f64"),
        }
    }
}

type Host = fn(&mut Machine, &[V]) -> Option<V>;

struct Func {
    name: String,
    n_params: usize,
    locals: Vec<WasmType>,
    body: Vec<Instruction>,
    has_result: bool,
}

struct Machine {
    mem: Vec<u8>,
    globals: Vec<i32>,
    funcs: Vec<Func>,
    host: HashMap<u32, Host>,
    fuel: u64,
}

/// A bump allocator for host imports: `(type_id, size) -> ptr`.
fn host_mem_alloc(m: &mut Machine, args: &[V]) -> Option<V> {
    let size = args[1].i();
    let p = m.globals[0];
    m.globals[0] = (p + size + 7) & !7;
    Some(V::I(p))
}

impl Machine {
    fn new(codegen: &CodeGenerator) -> Machine {
        let funcs = codegen
            .entries()
            .iter()
            .map(|e| Func {
                name: e.name.clone(),
                n_params: e.params.len(),
                locals: e.locals.clone(),
                body: e.body.clone(),
                has_result: e.result.is_some(),
            })
            .collect();
        Machine { mem: vec![0; 1 << 20], globals: vec![4096, 0, 0, 0], funcs, host: HashMap::new(), fuel: 10_000_000 }
    }

    fn index(&self, name: &str) -> u32 {
        self.funcs.iter().rposition(|f| f.name == name).unwrap() as u32
    }

    fn call_named(&mut self, name: &str, args: &[V]) -> Option<V> {
        let i = self.index(name);
        self.call(i, args)
    }

    fn ld32(&self, a: usize) -> i32 {
        i32::from_le_bytes(self.mem[a..a + 4].try_into().unwrap())
    }
    fn st32(&mut self, a: usize, v: i32) {
        self.mem[a..a + 4].copy_from_slice(&v.to_le_bytes());
    }
    fn ldf(&self, a: usize) -> f64 {
        f64::from_le_bytes(self.mem[a..a + 8].try_into().unwrap())
    }
    fn stf(&mut self, a: usize, v: f64) {
        self.mem[a..a + 8].copy_from_slice(&v.to_le_bytes());
    }

    /// A Clean string: 4-byte length, then the bytes.
    fn string(&mut self, s: &str) -> i32 {
        let p = self.globals[0];
        self.st32(p as usize, s.len() as i32);
        self.mem[p as usize + 4..p as usize + 4 + s.len()].copy_from_slice(s.as_bytes());
        self.globals[0] = (p + 4 + s.len() as i32 + 7) & !7;
        p
    }

    /// A list: 16-byte header [size, capacity, type, behaviour], i32 elements.
    fn list(&mut self, elems: &[i32], cap: i32, behaviour: i32) -> i32 {
        let p = self.globals[0];
        self.st32(p as usize, elems.len() as i32);
        self.st32(p as usize + 4, cap);
        self.st32(p as usize + 8, 4);
        self.st32(p as usize + 12, behaviour);
        for (k, e) in elems.iter().enumerate() {
            self.st32(p as usize + 16 + 4 * k, *e);
        }
        self.globals[0] = p + 16 + 4 * cap;
        p
    }

    fn call(&mut self, idx: u32, args: &[V]) -> Option<V> {
        if let Some(h) = self.host.get(&idx).copied() {
            return h(self, args);
        }
        let f = &self.funcs[idx as usize];
        assert!(f.locals.len() < 64);
        let body = f.body.clone();
        let has_result = f.has_result;
        let mut locals: Vec<V> = args.to_vec();
        assert_eq!(locals.len(), f.n_params, "arity of {}", f.name);
        for t in f.locals.clone() {
            locals.push(if t == WasmType::F64 { V::F(0.0) } else { V::I(0) });
        }
        // locals a body names beyond those it declares read as i32 zero
        while locals.len() < 32 {
            locals.push(V::I(0));
        }
        let mut stack = Vec::new();
        self.exec(&body, &mut locals, &mut stack);
        if has_result {
            Some(stack.pop().expect("result"))
        } else {
            None
        }
    }

    /// Matching `Else`/`End` of the block opened at `pc`.
    fn matching(body: &[Instruction], pc: usize) -> (Option<usize>, usize) {
        let mut depth = 0;
        let mut els = None;
        for (k, ins) in body.iter().enumerate().skip(pc + 1) {
            match ins {
                Instruction::Block(_) | Instruction::Loop(_) | Instruction::If(_) => depth += 1,
                Instruction::Else if depth == 0 => els = Some(k),
                Instruction::End => {
                    if depth == 0 {
                        return (els, k);
                    }
                    depth -= 1;
                },
                _ => {},
            }
        }
        panic!("unbalanced body");
    }

    fn exec(&mut self, body: &[Instruction], locals: &mut Vec<V>, stack: &mut Vec<V>) {
        // label: (is_loop, start, end, stack height, arity)
        let mut labels: Vec<(bool, usize, usize, usize, usize)> = Vec::new();
        let mut pc = 0;
        while pc < body.len() {
            self.fuel -= 1;
            assert!(self.fuel > 0, "out of fuel");
            let ins = body[pc];
            let arity = |bt: BlockType| if let BlockType::Result(_) = bt { 1 } else { 0 };
            match ins {
                Instruction::Block(bt) => {
                    let (_, end) = Self::matching(body, pc);
                    labels.push((false, pc, end, stack.len(), arity(bt)));
                },
                Instruction::Loop(_) => {
                    let (_, end) = Self::matching(body, pc);
                    labels.push((true, pc, end, stack.len(), 0));
                },
                Instruction::If(bt) => {
                    let c = pop_i(stack);
                    let (els, end) = Self::matching(body, pc);
                    labels.push((false, pc, end, stack.len(), arity(bt)));
                    if c == 0 {
                        match els {
                            Some(e) => pc = e,
                            None => {
                                labels.pop();
                                pc = end;
                            },
                        }
                    }
                },
                Instruction::Else => {
                    // end of the then-branch: leave the if
                    let (_, _, end, _, _) = labels.pop().unwrap();
                    pc = end;
                },
                Instruction::End => {
                    labels.pop();
                },
                Instruction::Br(n) | Instruction::BrIf(n) => {
                    let take = if let Instruction::BrIf(_) = ins { pop_i(stack) != 0 } else { true };
                    if take {
                        let k = labels.len() - 1 - n as usize;
                        let (is_loop, start, end, h, ar) = labels[k];
                        let kept: Vec<V> = stack[stack.len() - if is_loop { 0 } else { ar }..].to_vec();
                        stack.truncate(h);
                        stack.extend(kept);
                        if is_loop {
                            labels.truncate(k + 1);
                            pc = start;
                        } else {
                            labels.truncate(k);
                            pc = end;
                        }
                    }
                },
                Instruction::Return => return,
                Instruction::Unreachable => panic!("unreachable"),
                Instruction::Call(f) => {
                    let n = if let Some(_) = self.host.get(&f) {
                        2
                    } else {
                        self.funcs[f as usize].n_params
                    };
                    let args = stack.split_off(stack.len() - n);
                    if let Some(r) = self.call(f, &args) {
                        stack.push(r);
                    }
                },
                Instruction::Drop => {
                    stack.pop();
                },
                Instruction::Select => {
                    let c = pop_i(stack);
                    let b = stack.pop().unwrap();
                    let a = stack.pop().unwrap();
                    stack.push(if c != 0 { a } else { b });
                },
                Instruction::LocalGet(i) => stack.push(locals[i as usize]),
                Instruction::LocalSet(i) => locals[i as usize] = stack.pop().unwrap(),
                Instruction::LocalTee(i) => locals[i as usize] = *stack.last().unwrap(),
                Instruction::GlobalGet(i) => stack.push(V::I(self.globals[i as usize])),
                Instruction::GlobalSet(i) => self.globals[i as usize] = pop_i(stack),
                Instruction::I32Load(m) => {
                    let a = pop_i(stack) as u32 as usize + m.offset as usize;
                    stack.push(V::I(self.ld32(a)));
                },
                Instruction::I32Load8U(m) => {
                    let a = pop_i(stack) as u32 as usize + m.offset as usize;
                    stack.push(V::I(self.mem[a] as i32));
                },
                Instruction::F64Load(m) => {
                    let a = pop_i(stack) as u32 as usize + m.offset as usize;
                    stack.push(V::F(self.ldf(a)));
                },
                Instruction::I32Store(m) => {
                    let v = pop_i(stack);
                    let a = pop_i(stack) as u32 as usize + m.offset as usize;
                    self.st32(a, v);
                },
                Instruction::I32Store8(m) => {
                    let v = pop_i(stack);
                    let a = pop_i(stack) as u32 as usize + m.offset as usize;
                    self.mem[a] = v as u8;
                },
                Instruction::F64Store(m) => {
                    let v = pop_f(stack);
                    let a = pop_i(stack) as u32 as usize + m.offset as usize;
                    self.stf(a, v);
                },
                Instruction::I32Const(c) => stack.push(V::I(c)),
                Instruction::F64Const(b) => stack.push(V::F(f64::from_bits(b))),
                Instruction::I32Eqz => {
                    let a = pop_i(stack);
                    stack.push(V::I((a == 0) as i32));
                },
                Instruction::F64Abs | Instruction::F64Neg | Instruction::F64Ceil | Instruction::F64Floor
                | Instruction::F64Trunc | Instruction::F64Nearest | Instruction::F64Sqrt => {
                    let a = pop_f(stack);
                    stack.push(V::F(match ins {
                        Instruction::F64Abs => a.abs(),
                        Instruction::F64Neg => -a,
                        Instruction::F64Ceil => a.ceil(),
                        Instruction::F64Floor => a.floor(),
                        Instruction::F64Trunc => a.trunc(),
                        Instruction::F64Nearest => a.round_ties_even(),
                        _ => a.sqrt(),
                    }));
                },
                Instruction::I32TruncF64S => {
                    let a = pop_f(stack);
                    stack.push(V::I(a as i32));
                },
                Instruction::F64ConvertI32S => {
                    let a = pop_i(stack);
                    stack.push(V::F(a as f64));
                },
                Instruction::F64Eq | Instruction::F64Ne | Instruction::F64Lt | Instruction::F64Gt
                | Instruction::F64Le | Instruction::F64Ge => {
                    let b = pop_f(stack);
                    let a = pop_f(stack);
                    let r = match ins {
                        Instruction::F64Eq => a == b,
                        Instruction::F64Ne => a != b,
                        Instruction::F64Lt => a < b,
                        Instruction::F64Gt => a > b,
                        Instruction::F64Le => a <= b,
                        _ => a >= b,
                    };
                    stack.push(V::I(r as i32));
                },
                Instruction::F64Add | Instruction::F64Sub | Instruction::F64Mul | Instruction::F64Div
                | Instruction::F64Min | Instruction::F64Max => {
                    let b = pop_f(stack);
                    let a = pop_f(stack);
                    stack.push(V::F(match ins {
                        Instruction::F64Add => a + b,
                        Instruction::F64Sub => a - b,
                        Instruction::F64Mul => a * b,
                        Instruction::F64Div => a / b,
                        Instruction::F64Min => a.min(b),
                        _ => a.max(b),
                    }));
                },
                _ => {
                    let b = pop_i(stack);
                    let a = pop_i(stack);
                    let (ua, ub) = (a as u32, b as u32);
                    let r = match ins {
                        Instruction::I32Eq => (a == b) as i32,
                        Instruction::I32Ne => (a != b) as i32,
                        Instruction::I32LtS => (a < b) as i32,
                        Instruction::I32LtU => (ua < ub) as i32,
                        Instruction::I32GtS => (a > b) as i32,
                        Instruction::I32GtU => (ua > ub) as i32,
                        Instruction::I32LeU => (ua <= ub) as i32,
                        Instruction::I32GeS => (a >= b) as i32,
                        Instruction::I32GeU => (ua >= ub) as i32,
                        Instruction::I32Add => a.wrapping_add(b),
                        Instruction::I32Sub => a.wrapping_sub(b),
                        Instruction::I32Mul => a.wrapping_mul(b),
                        Instruction::I32DivU => (ua / ub) as i32,
                        Instruction::I32RemU => (ua % ub) as i32,
                        Instruction::I32And => a & b,
                        Instruction::I32Or => a | b,
                        Instruction::I32Shl => a.wrapping_shl(ub),
                        Instruction::I32ShrU => (ua.wrapping_shr(ub)) as i32,
                        other => panic!("instruction {:?}", other),
                    };
                    stack.push(V::I(r));
                },
            }
            pc += 1;
        }
    }
}

fn pop_i(stack: &mut Vec<V>) -> i32 {
    stack.pop().unwrap().i()
}

fn pop_f(stack: &mut Vec<V>) -> f64 {
    stack.pop().unwrap().f()
}

fn behaviour_machine() -> Machine {
    let mut codegen = CodeGenerator::new();
    let manager = ListBehaviorManager::new(MemoryManager::new(1, Some(16)));
    manager.register_functions(&mut codegen).unwrap();
    Machine::new(&codegen)
}

#[test]
fn line_list_remove_takes_from_the_front() {
    let mut m = behaviour_machine();
    let l = m.list(&[10, 20, 30], 8, 1);
    assert_eq!(m.call_named("list.remove", &[V::I(l)]), Some(V::I(10)));
    assert_eq!(m.call_named("list.remove", &[V::I(l)]), Some(V::I(20)));
    assert_eq!(m.ld32(l as usize), 1);
    assert_eq!(m.ld32(l as usize + 16), 30);
}

#[test]
fn pile_list_remove_takes_from_the_back() {
    let mut m = behaviour_machine();
    let l = m.list(&[10, 20, 30], 8, 2);
    assert_eq!(m.call_named("list.remove", &[V::I(l)]), Some(V::I(30)));
    assert_eq!(m.call_named("list.remove", &[V::I(l)]), Some(V::I(20)));
    assert_eq!(m.ld32(l as usize), 1);
}

#[test]
fn remove_on_an_empty_list_gives_zero() {
    let mut m = behaviour_machine();
    let l = m.list(&[], 8, 1);
    assert_eq!(m.call_named("list.remove", &[V::I(l)]), Some(V::I(0)));
    assert_eq!(m.ld32(l as usize), 0);
}

#[test]
fn unique_list_add_skips_duplicates() {
    let mut m = behaviour_machine();
    let l = m.list(&[5, 6], 8, 4);
    assert_eq!(m.call_named("list.add", &[V::I(l), V::I(6)]), Some(V::I(l)));
    assert_eq!(m.ld32(l as usize), 2);
    assert_eq!(m.call_named("list.add", &[V::I(l), V::I(7)]), Some(V::I(l)));
    assert_eq!(m.ld32(l as usize), 3);
    assert_eq!(m.ld32(l as usize + 24), 7);
}

#[test]
fn plain_list_add_appends_duplicates() {
    let mut m = behaviour_machine();
    let l = m.list(&[5, 6], 8, 0);
    m.call_named("list.add", &[V::I(l), V::I(6)]);
    assert_eq!(m.ld32(l as usize), 3);
    assert_eq!(m.ld32(l as usize + 24), 6);
}

/// A table whose first eight functions are host imports, the last of them
/// `mem_alloc` at index 7.
fn with_imports() -> CodeGenerator {
    let mut codegen = CodeGenerator::new();
    for k in 0..8 {
        let name = if k == 7 { "mem_alloc".to_string() } else { format!("host_{}", k) };
        codegen
            .register_import_function("memory_runtime", &name, &[WasmType::I32, WasmType::I32], Some(WasmType::I32))
            .unwrap();
    }
    codegen
}

fn matrix_machine() -> Machine {
    let mut codegen = with_imports();
    MatrixOperations::new().register_functions(&mut codegen).unwrap();
    let mut m = Machine::new(&codegen);
    m.host.insert(7, host_mem_alloc);
    m
}

#[test]
fn matrices_do_not_overlap_and_index_by_their_columns() {
    let mut m = matrix_machine();
    let p = m.call_named("matrix.create", &[V::I(2), V::I(3)]).unwrap().i();
    let q = m.call_named("matrix.create", &[V::I(3), V::I(3)]).unwrap().i();
    assert!(q >= p + 12 + 8 * 6 || p >= q + 12 + 8 * 9);
    assert_eq!((m.ld32(p as usize), m.ld32(p as usize + 4), m.ld32(p as usize + 8)), (2, 3, 6));
    assert_eq!((m.ld32(q as usize), m.ld32(q as usize + 4), m.ld32(q as usize + 8)), (3, 3, 9));
    assert_eq!(m.call_named("matrix.set", &[V::I(p), V::I(1), V::I(0), V::F(7.0)]), Some(V::I(1)));
    assert_eq!(m.ldf(p as usize + 12 + 8 * 3), 7.0);
    assert_eq!(m.call_named("matrix.get", &[V::I(p), V::I(1), V::I(0)]), Some(V::F(7.0)));
    assert_eq!(m.call_named("matrix.get", &[V::I(p), V::I(0), V::I(2)]), Some(V::F(0.0)));
    assert_eq!(m.call_named("matrix.get", &[V::I(q), V::I(1), V::I(0)]), Some(V::F(0.0)));
}

fn list_class_machine() -> Machine {
    let mut codegen = with_imports();
    ListClass::new().register_functions(&mut codegen).unwrap();
    let mut m = Machine::new(&codegen);
    m.host.insert(7, host_mem_alloc);
    m
}

#[test]
fn range_lists_share_the_list_layout() {
    let mut m = list_class_machine();
    let l = m.call_named("list.range", &[V::I(3), V::I(7)]).unwrap().i();
    assert_eq!(m.ld32(l as usize), 4);
    assert_eq!(m.call_named("list.first", &[V::I(l)]), Some(V::I(3)));
    assert_eq!(m.call_named("list.last", &[V::I(l)]), Some(V::I(6)));
    let e = m.call_named("list.range", &[V::I(5), V::I(2)]).unwrap().i();
    assert_eq!(m.ld32(e as usize), 0);
}

#[test]
fn fill_lists_share_the_list_layout() {
    let mut m = list_class_machine();
    let l = m.call_named("list.fill", &[V::I(3), V::I(9)]).unwrap().i();
    assert_eq!(m.ld32(l as usize), 3);
    assert_eq!(m.call_named("list.first", &[V::I(l)]), Some(V::I(9)));
    assert_eq!(m.call_named("list.last", &[V::I(l)]), Some(V::I(9)));
}

#[test]
fn pop_removes_and_returns_the_last_element() {
    let mut m = list_class_machine();
    let l = m.list(&[1, 2, 3], 4, 0);
    assert_eq!(m.call_named("list.pop", &[V::I(l)]), Some(V::I(3)));
    assert_eq!(m.ld32(l as usize), 2);
    assert_eq!(m.ld32(l as usize + 20), 2);
    let e = m.list(&[], 4, 0);
    assert_eq!(m.call_named("list.pop", &[V::I(e)]), Some(V::I(0)));
    assert_eq!(m.ld32(e as usize), 0);
}

fn json_machine() -> Machine {
    let mut codegen = CodeGenerator::new();
    // a bump allocator on global 0
    codegen
        .register_function_with_locals(
            "__malloc",
            &[WasmType::I32],
            Some(WasmType::I32),
            &[WasmType::I32],
            vec![
                Instruction::GlobalGet(0),
                Instruction::LocalSet(1),
                Instruction::GlobalGet(0),
                Instruction::LocalGet(0),
                Instruction::I32Add,
                Instruction::I32Const(7),
                Instruction::I32Add,
                Instruction::I32Const(-8),
                Instruction::I32And,
                Instruction::GlobalSet(0),
                Instruction::LocalGet(1),
            ],
        )
        .unwrap();
    JsonClass::new().register_functions(&mut codegen).unwrap();
    Machine::new(&codegen)
}

#[test]
fn json_numbers_parse_with_fraction_and_exponent() {
    let mut m = json_machine();
    for (text, value) in [("-12.5", -12.5), ("1e2", 100.0), ("2.5E-1", 0.25), ("0", 0.0), ("7e+1", 70.0)] {
        let s = m.string(text);
        let r = m.call_named("json.textToData", &[V::I(s)]).unwrap().i();
        assert_eq!(m.ld32(r as usize), 3, "{}", text);
        assert_eq!(m.ldf(r as usize + 4), value, "{}", text);
    }
}

#[test]
fn try_text_to_data_gives_null_on_invalid_json() {
    let mut m = json_machine();
    for text in ["", "   ", "@", "{\"a\":", "tru", "[1,]", "{\"a\" 1}", "1 2", "\"abc", "[1,2", "-", "01"] {
        let s = m.string(text);
        assert_eq!(m.call_named("json.tryTextToData", &[V::I(s)]), Some(V::I(0)), "{}", text);
    }
}

#[test]
fn try_text_to_data_parses_valid_json() {
    let mut m = json_machine();
    for (text, tag) in [("{\"a\": [1, 2.5e1, \"x\\\"y\"]}", 6), (" [true, false, null] ", 5), ("\"s\"", 4), ("-0.5", 3)] {
        let s = m.string(text);
        let r = m.call_named("json.tryTextToData", &[V::I(s)]).unwrap().i();
        assert_ne!(r, 0, "{}", text);
        assert_eq!(m.ld32(r as usize), tag, "{}", text);
    }
}

fn elems(m: &Machine, l: i32) -> Vec<i32> {
    let n = m.ld32(l as usize);
    (0..n).map(|k| m.ld32(l as usize + 16 + 4 * k as usize)).collect()
}

#[test]
fn index_of_and_last_index_of_search_the_list() {
    let mut m = list_class_machine();
    let l = m.list(&[4, 7, 4, 9], 8, 0);
    assert_eq!(m.call_named("list.indexOf", &[V::I(l), V::I(4)]), Some(V::I(0)));
    assert_eq!(m.call_named("list.lastIndexOf", &[V::I(l), V::I(4)]), Some(V::I(2)));
    assert_eq!(m.call_named("list.indexOf", &[V::I(l), V::I(5)]), Some(V::I(-1)));
    assert_eq!(m.call_named("list.lastIndexOf", &[V::I(l), V::I(5)]), Some(V::I(-1)));
}

#[test]
fn find_gives_the_matching_element_or_null() {
    let mut m = list_class_machine();
    let l = m.list(&[4, 7, 9], 8, 0);
    assert_eq!(m.call_named("list.find", &[V::I(l), V::I(7)]), Some(V::I(7)));
    assert_eq!(m.call_named("list.find", &[V::I(l), V::I(5)]), Some(V::I(0)));
    let e = m.list(&[], 4, 0);
    assert_eq!(m.call_named("list.find", &[V::I(e), V::I(7)]), Some(V::I(0)));
}

#[test]
fn shift_unshift_and_insert_move_the_elements() {
    let mut m = list_class_machine();
    let l = m.list(&[1, 2, 3], 8, 0);
    assert_eq!(m.call_named("list.shift", &[V::I(l)]), Some(V::I(1)));
    assert_eq!(elems(&m, l), vec![2, 3]);
    m.call_named("list.unshift", &[V::I(l), V::I(9)]);
    assert_eq!(elems(&m, l), vec![9, 2, 3]);
    assert_eq!(m.call_named("list.insert", &[V::I(l), V::I(1), V::I(5)]), Some(V::I(1)));
    assert_eq!(elems(&m, l), vec![9, 5, 2, 3]);
    assert_eq!(m.call_named("list.insert", &[V::I(l), V::I(4), V::I(6)]), Some(V::I(1)));
    assert_eq!(elems(&m, l), vec![9, 5, 2, 3, 6]);
    assert_eq!(m.call_named("list.insert", &[V::I(l), V::I(9), V::I(6)]), Some(V::I(0)));
    let e = m.list(&[], 4, 0);
    assert_eq!(m.call_named("list.shift", &[V::I(e)]), Some(V::I(0)));
}

#[test]
fn reverse_and_sort_work_in_place() {
    let mut m = list_class_machine();
    let l = m.list(&[3, -1, 2, 8], 8, 0);
    assert_eq!(m.call_named("list.reverse", &[V::I(l)]), Some(V::I(l)));
    assert_eq!(elems(&m, l), vec![8, 2, -1, 3]);
    assert_eq!(m.call_named("list.sort", &[V::I(l)]), Some(V::I(l)));
    assert_eq!(elems(&m, l), vec![-1, 2, 3, 8]);
}

#[test]
fn copy_slice_and_equals_compare_contents() {
    let mut m = list_class_machine();
    let l = m.list(&[1, 2, 3, 4], 8, 2);
    let c = m.call_named("list.copy", &[V::I(l)]).unwrap().i();
    assert_ne!(c, l);
    assert_eq!(elems(&m, c), vec![1, 2, 3, 4]);
    assert_eq!(m.ld32(c as usize + 12), 2);
    assert_eq!(m.call_named("list.equals", &[V::I(l), V::I(c)]), Some(V::I(1)));
    let s = m.call_named("list.slice", &[V::I(l), V::I(1), V::I(3)]).unwrap().i();
    assert_eq!(elems(&m, s), vec![2, 3]);
    assert_eq!(m.call_named("list.equals", &[V::I(l), V::I(s)]), Some(V::I(0)));
    let t = m.call_named("list.slice", &[V::I(l), V::I(-2), V::I(10)]).unwrap().i();
    assert_eq!(elems(&m, t), vec![1, 2, 3, 4]);
    let u = m.call_named("list.slice", &[V::I(l), V::I(3), V::I(1)]).unwrap().i();
    assert_eq!(elems(&m, u), Vec::<i32>::new());
}

fn list_ops_machine() -> Machine {
    let mut codegen = CodeGenerator::new();
    ListManager::new(MemoryManager::new(1, Some(16))).register_functions(&mut codegen).unwrap();
    let mut m = Machine::new(&codegen);
    // the heap pointer the list functions allocate from
    m.st32(0, 200_000);
    m
}

#[test]
fn list_ops_search_set_insert_and_remove() {
    let mut m = list_ops_machine();
    let l = m.list(&[5, 6, 7], 8, 0);
    assert_eq!(m.call_named("list_contains", &[V::I(l), V::I(6)]), Some(V::I(1)));
    assert_eq!(m.call_named("list_contains", &[V::I(l), V::I(9)]), Some(V::I(0)));
    assert_eq!(m.call_named("list_index_of", &[V::I(l), V::I(7)]), Some(V::I(2)));
    assert_eq!(m.call_named("list_index_of", &[V::I(l), V::I(9)]), Some(V::I(-1)));
    m.call_named("list.set", &[V::I(l), V::I(1), V::I(60)]);
    assert_eq!(elems(&m, l), vec![5, 60, 7]);
    m.call_named("list.set", &[V::I(l), V::I(3), V::I(1)]);
    assert_eq!(elems(&m, l), vec![5, 60, 7]);
    assert_eq!(m.call_named("list_insert", &[V::I(l), V::I(0), V::I(4)]), Some(V::I(l)));
    assert_eq!(elems(&m, l), vec![4, 5, 60, 7]);
    assert_eq!(m.call_named("list_remove", &[V::I(l), V::I(2)]), Some(V::I(60)));
    assert_eq!(elems(&m, l), vec![4, 5, 7]);
    assert_eq!(m.call_named("list_remove", &[V::I(l), V::I(3)]), Some(V::I(0)));
}

#[test]
fn list_ops_build_new_lists() {
    let mut m = list_ops_machine();
    let a = m.list(&[1, 2, 3], 4, 0);
    let b = m.list(&[8, 9], 4, 0);
    let c = m.call_named("list_concat", &[V::I(a), V::I(b)]).unwrap().i();
    assert_eq!(elems(&m, c), vec![1, 2, 3, 8, 9]);
    let r = m.call_named("list_reverse", &[V::I(c)]).unwrap().i();
    assert_eq!(elems(&m, r), vec![9, 8, 3, 2, 1]);
    assert_eq!(elems(&m, c), vec![1, 2, 3, 8, 9]);
    let s = m.call_named("list_slice", &[V::I(r), V::I(1), V::I(4)]).unwrap().i();
    assert_eq!(elems(&m, s), vec![8, 3, 2]);
    assert!(s >= 200_000 && r >= 200_000 && c >= 200_000);
}

#[test]
fn advanced_fill_and_range_build_lists() {
    let mut codegen = with_imports();
    ListAdvancedManager::new(MemoryManager::new(1, Some(16))).register_functions(&mut codegen).unwrap();
    let mut m = Machine::new(&codegen);
    m.host.insert(7, host_mem_alloc);
    let r = m.call_named("list.rangeAdvanced", &[V::I(2), V::I(11), V::I(3)]).unwrap().i();
    assert_eq!(elems(&m, r), vec![2, 5, 8]);
    let e = m.call_named("list.rangeAdvanced", &[V::I(5), V::I(1), V::I(1)]).unwrap().i();
    assert_eq!(elems(&m, e), Vec::<i32>::new());
    let l = m.list(&[1, 1, 1, 1], 4, 0);
    assert_eq!(m.call_named("list.fillAdvanced", &[V::I(l), V::I(7), V::I(1), V::I(9)]), Some(V::I(l)));
    assert_eq!(elems(&m, l), vec![1, 7, 7, 7]);
}

#[test]
fn push_then_get_and_length_read_back() {
    let mut m = list_ops_machine();
    let l = m.list(&[5, 6], 8, 0);
    assert_eq!(m.call_named("list_push", &[V::I(l), V::I(42)]), Some(V::I(l)));
    assert_eq!(m.call_named("list.get", &[V::I(l), V::I(2)]), Some(V::I(42)));
    assert_eq!(m.call_named("list.get", &[V::I(l), V::I(0)]), Some(V::I(5)));
    assert_eq!(m.call_named("list.get", &[V::I(l), V::I(1)]), Some(V::I(6)));
    assert_eq!(m.call_named("list.length", &[V::I(l)]), Some(V::I(3)));
}

#[test]
fn size_and_is_empty_read_the_size_word() {
    let mut m = behaviour_machine();
    let l = m.list(&[1, 2, 3], 8, 0);
    let e = m.list(&[], 8, 0);
    assert_eq!(m.call_named("list.size", &[V::I(l)]), Some(V::I(3)));
    assert_eq!(m.call_named("list.isEmpty", &[V::I(l)]), Some(V::I(0)));
    assert_eq!(m.call_named("list.isEmpty", &[V::I(e)]), Some(V::I(1)));
    let mut c = list_class_machine();
    let k = c.list(&[9, 8], 4, 0);
    assert_eq!(c.call_named("list.size", &[V::I(k)]), Some(V::I(2)));
}

fn literal_matrix(m: &mut Machine, at: usize, rows: i32, cols: i32, elems: &[i32]) -> i32 {
    m.st32(at, rows);
    m.st32(at + 4, cols);
    m.st32(at + 8, 1);
    m.st32(at + 12, 4);
    m.st32(at + 16, rows * cols * 4);
    for (k, e) in elems.iter().enumerate() {
        m.st32(at + 20 + 4 * k, *e);
    }
    at as i32
}

#[test]
fn matrix_equals_compares_the_elements() {
    let mut codegen = CodeGenerator::new();
    MatrixLiteralsManager::new(MemoryManager::new(1, Some(16))).register_functions(&mut codegen).unwrap();
    let mut m = Machine::new(&codegen);
    let a = literal_matrix(&mut m, 1000, 2, 2, &[1, 2, 3, 4]);
    let b = literal_matrix(&mut m, 2000, 2, 2, &[1, 2, 3, 4]);
    let c = literal_matrix(&mut m, 3000, 2, 2, &[1, 2, 3, 5]);
    let d = literal_matrix(&mut m, 4000, 1, 4, &[1, 2, 3, 4]);
    assert_eq!(m.call_named("matrix.equals", &[V::I(a), V::I(b)]), Some(V::I(1)));
    assert_eq!(m.call_named("matrix.equals", &[V::I(a), V::I(c)]), Some(V::I(0)));
    assert_eq!(m.call_named("matrix.equals", &[V::I(a), V::I(d)]), Some(V::I(0)));
}

#[test]
fn map_advanced_results_get_their_own_memory() {
    let mut codegen = with_imports();
    ListAdvancedManager::new(MemoryManager::new(1, Some(16))).register_functions(&mut codegen).unwrap();
    let mut m = Machine::new(&codegen);
    m.host.insert(7, host_mem_alloc);
    let l = m.list(&[1, 2, 3], 4, 0);
    let a = m.call_named("list.mapAdvanced", &[V::I(l), V::I(0)]).unwrap().i();
    let b = m.call_named("list.mapAdvanced", &[V::I(l), V::I(0)]).unwrap().i();
    assert_ne!(a, b);
    assert!(a + 16 + 4 * 3 <= b || b + 16 + 4 * 3 <= a);
    assert_eq!(m.ld32(a as usize), 3);
    assert_eq!(m.ld32(b as usize), 3);
    let f = m.call_named("list.filterAdvanced", &[V::I(l), V::I(0)]).unwrap().i();
    assert!(f != a && f != b);
}
