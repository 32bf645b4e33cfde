//! The code generator's function table as the standard library sees it:
//! functions are registered in order and get consecutive indices, and a
//! name (or alias) resolves to the index it was last bound to.

use vstd::prelude::*;
use crate::error::CompilerError;
use crate::wasm::{Instruction, WasmType, body_ok, structured};

verus! {

/// Type id the code generator gives to list objects.
pub const LIST_TYPE_ID: u32 = 4;

/// A registered function (an import when `import_module` is set).
pub struct FunctionEntry {
    pub name: String,
    pub import_module: Option<String>,
    pub params: Vec<WasmType>,
    pub result: Option<WasmType>,
    pub locals: Vec<WasmType>,
    pub body: Vec<Instruction>,
}

/// A registered function as plain values: name, host module (for
/// imports), parameters, result, extra locals and body (empty for imports).
pub struct Signature {
    pub name: Seq<char>,
    pub import_module: Option<Seq<char>>,
    pub params: Seq<WasmType>,
    pub result: Option<WasmType>,
    pub locals: Seq<WasmType>,
    pub body: Seq<Instruction>,
}

/// The signature of a registered function.
pub open spec fn signature_of(e: FunctionEntry) -> Signature {
    Signature {
        name: e.name@,
        import_module: module_view(e.import_module),
        params: e.params@,
        result: e.result,
        locals: e.locals@,
        body: e.body@,
    }
}

/// The signature of a function defined by the library, with its body.
pub open spec fn defined(
    name: Seq<char>,
    params: Seq<WasmType>,
    result: Option<WasmType>,
    locals: Seq<WasmType>,
    body: Seq<Instruction>,
) -> Signature {
    Signature { name, import_module: None, params, result, locals, body }
}

/// The function table grew by `sigs`, in order, and kept what it held.
pub open spec fn grew(old: CodeGenerator, new: CodeGenerator, sigs: Seq<Signature>) -> bool {
    &&& new.n_functions() == old.n_functions() + sigs.len()
    &&& new.functions().subrange(0, old.n_functions() as int) == old.functions()
    &&& forall|j: int|
        0 <= j < sigs.len() ==> signature_of(#[trigger] new.functions()[old.n_functions() + j])
            == sigs[j]
}

/// Name bindings whose indices count from `base`.
pub open spec fn bound(binds: Seq<(Seq<char>, int)>, base: int) -> Seq<(Seq<char>, u32)> {
    binds.map_values(|b: (Seq<char>, int)| (b.0, (base + b.1) as u32))
}

/// The function table grew by `sigs`, in order, and the name bindings by
/// `binds`, whose indices count from the first new function.
pub open spec fn appended(
    old: CodeGenerator,
    new: CodeGenerator,
    sigs: Seq<Signature>,
    binds: Seq<(Seq<char>, int)>,
) -> bool {
    &&& grew(old, new, sigs)
    &&& new.names() == old.names() + bound(binds, old.n_functions() as int)
}

/// Each of `sigs` bound under its own name, at its own position.
pub open spec fn own_bindings(sigs: Seq<Signature>) -> Seq<(Seq<char>, int)> {
    Seq::new(sigs.len(), |k: int| (sigs[k].name, k))
}

/// Nothing registered yet.
pub proof fn lemma_appended_start(g: CodeGenerator)
    ensures
        appended(g, g, Seq::empty(), Seq::empty()),
{
    assert(g.functions().subrange(0, g.n_functions() as int) =~= g.functions());
    assert(g.names() + bound(Seq::<(Seq<char>, int)>::empty(), g.n_functions() as int) =~= g.names());
}

/// The index a name is bound to: its last binding in `names`.
pub open spec fn lookup(names: Seq<(Seq<char>, u32)>, name: Seq<char>) -> Option<u32>
    decreases names.len(),
{
    if names.len() == 0 {
        None
    } else if names.last().0 == name {
        Some(names.last().1)
    } else {
        lookup(names.drop_last(), name)
    }
}

/// The function table.
pub struct CodeGenerator {
    functions: Vec<FunctionEntry>,
    names: Vec<(String, u32)>,
}

impl CodeGenerator {
    /// The registered functions, in index order.
    pub closed spec fn functions(&self) -> Seq<FunctionEntry> {
        self.functions@
    }

    /// Number of registered functions.
    pub open spec fn n_functions(&self) -> nat {
        self.functions().len()
    }

    /// The name bindings, oldest first.
    pub closed spec fn names(&self) -> Seq<(Seq<char>, u32)> {
        self.names@.map_values(|p: (String, u32)| (p.0@, p.1))
    }

    /// The index `name` resolves to.
    pub open spec fn index_of(&self, name: Seq<char>) -> Option<u32> {
        lookup(self.names(), name)
    }

    /// The table's invariant: indices fit in u32 and every defined body is
    /// structured.
    pub closed spec fn wf(&self) -> bool {
        &&& self.functions@.len() <= u32::MAX
        &&& forall|i: int|
            0 <= i < self.functions@.len() && (#[trigger] self.functions@[i]).import_module is None
                ==> structured(self.functions@[i].body@)
    }

    /// An empty table.
    pub fn new() -> (g: CodeGenerator)
        ensures
            g.wf(),
            g.n_functions() == 0,
            g.names() == Seq::<(Seq<char>, u32)>::empty(),
    {
        let g = CodeGenerator { functions: Vec::new(), names: Vec::new() };
        proof {
            assert(g.names() =~= Seq::<(Seq<char>, u32)>::empty());
        }
        g
    }

    /// The registered functions, in index order.
    pub fn entries(&self) -> (r: &Vec<FunctionEntry>)
        ensures
            r@ == self.functions(),
    {
        &self.functions
    }

    /// The index the next registered function will get.
    pub fn get_next_function_index(&self) -> (idx: u32)
        requires
            self.wf(),
        ensures
            idx == self.n_functions(),
    {
        self.functions.len() as u32
    }

    /// The index `name` resolves to, if any.
    pub fn get_function_index(&self, name: &str) -> (idx: Option<u32>)
        ensures
            idx == self.index_of(name@),
    {
        let key = String::from_str(name);
        let mut i = self.names.len();
        assert(self.names().subrange(0, i as int) =~= self.names());
        while i > 0
            invariant
                i <= self.names@.len(),
                key@ == name@,
                lookup(self.names(), name@) == lookup(self.names().subrange(0, i as int), name@),
            decreases i,
        {
            let ghost prefix = self.names().subrange(0, i as int);
            assert(prefix.last() == (self.names@[i - 1].0@, self.names@[i - 1].1));
            assert(prefix.drop_last() =~= self.names().subrange(0, i - 1));
            if self.names[i - 1].0 == key {
                return Some(self.names[i - 1].1);
            }
            i = i - 1;
        }
        assert(self.names().subrange(0, 0) =~= Seq::<(Seq<char>, u32)>::empty());
        None
    }

    /// Bind another name to a function index.
    pub fn add_function_alias(&mut self, name: &str, idx: u32)
        requires
            old(self).wf(),
        ensures
            final(self).wf(),
            final(self).functions() == old(self).functions(),
            final(self).names() == old(self).names().push((name@, idx)),
    {
        let ghost before = self.names@;
        self.names.push((String::from_str(name), idx));
        proof {
            assert(self.names() =~= old(self).names().push((name@, idx)));
        }
    }

    fn add_entry(&mut self, entry: FunctionEntry) -> (r: Result<u32, CompilerError>)
        requires
            old(self).wf(),
            entry.import_module is None ==> structured(entry.body@),
        ensures
            final(self).wf(),
            match r {
                Ok(idx) => {
                    &&& idx == old(self).n_functions()
                    &&& final(self).functions() == old(self).functions().push(entry)
                    &&& final(self).names() == old(self).names().push((entry.name@, idx))
                },
                Err(e) => {
                    &&& e == CompilerError::FunctionLimit
                    &&& old(self).n_functions() == u32::MAX
                    &&& final(self).functions() == old(self).functions()
                    &&& final(self).names() == old(self).names()
                },
            },
    {
        if self.functions.len() >= u32::MAX as usize {
            return Err(CompilerError::FunctionLimit);
        }
        let idx = self.functions.len() as u32;
        let key = entry.name.clone();
        let ghost old_functions = self.functions@;
        self.functions.push(entry);
        self.names.push((key, idx));
        proof {
            assert(self.names() =~= old(self).names().push((entry.name@, idx)));
            assert forall|i: int|
                0 <= i < self.functions@.len() && (#[trigger] self.functions@[i]).import_module is None
                    implies structured(self.functions@[i].body@) by {
                if i < old_functions.len() {
                    assert(self.functions@[i] == old_functions[i]);
                }
            }
        }
        Ok(idx)
    }

    /// Register a defined function whose locals are its parameters only.
    pub fn register_function(
        &mut self,
        name: &str,
        params: &[WasmType],
        result: Option<WasmType>,
        body: Vec<Instruction>,
    ) -> (r: Result<u32, CompilerError>)
        requires
            old(self).wf(),
            structured(body@),
        ensures
            final(self).wf(),
            registered_one(*old(self), *final(self), r, defined(name@, params@, result, Seq::empty(), body@)),
    {
        let no_locals: [WasmType; 0] = [];
        assert(no_locals@ =~= Seq::<WasmType>::empty());
        self.register_function_with_locals(name, params, result, &no_locals, body)
    }

    /// Register a defined function with extra locals after its parameters.
    pub fn register_function_with_locals(
        &mut self,
        name: &str,
        params: &[WasmType],
        result: Option<WasmType>,
        locals: &[WasmType],
        body: Vec<Instruction>,
    ) -> (r: Result<u32, CompilerError>)
        requires
            old(self).wf(),
            structured(body@),
        ensures
            final(self).wf(),
            registered_one(*old(self), *final(self), r, defined(name@, params@, result, locals@, body@)),
    {
        let entry = FunctionEntry {
            name: String::from_str(name),
            import_module: None,
            params: vstd::slice::slice_to_vec(params),
            result,
            locals: vstd::slice::slice_to_vec(locals),
            body,
        };
        let ghost e = entry;
        let r = self.add_entry(entry);
        proof {
            if r is Ok {
                assert(self.functions().subrange(0, old(self).n_functions() as int)
                    =~= old(self).functions());
                assert(self.functions()[old(self).n_functions() as int] == e);
            }
        }
        r
    }

    /// Register a function imported from a host module.
    pub fn register_import_function(
        &mut self,
        module: &str,
        name: &str,
        params: &[WasmType],
        result: Option<WasmType>,
    ) -> (r: Result<u32, CompilerError>)
        requires
            old(self).wf(),
        ensures
            final(self).wf(),
            registered_one(
                *old(self),
                *final(self),
                r,
                Signature {
                    name: name@,
                    import_module: Some(module@),
                    params: params@,
                    result,
                    locals: Seq::empty(),
                    body: Seq::empty(),
                },
            ),
    {
        let entry = FunctionEntry {
            name: String::from_str(name),
            import_module: Some(String::from_str(module)),
            params: vstd::slice::slice_to_vec(params),
            result,
            locals: Vec::new(),
            body: Vec::new(),
        };
        let ghost e = entry;
        let r = self.add_entry(entry);
        proof {
            if r is Ok {
                assert(self.functions().subrange(0, old(self).n_functions() as int)
                    =~= old(self).functions());
                assert(self.functions()[old(self).n_functions() as int] == e);
                assert(e.locals@ =~= Seq::<WasmType>::empty());
                assert(e.body@ =~= Seq::<Instruction>::empty());
            }
        }
        r
    }
}

/// The host module of an import, as characters.
pub open spec fn module_view(m: Option<String>) -> Option<Seq<char>> {
    match m {
        Some(s) => Some(s@),
        None => None,
    }
}

/// `new` is `old` with one more function of signature `sig` at index
/// `old.n_functions()`, bound to its name; or, when the index space is full,
/// `old` unchanged with `FunctionLimit`.
pub open spec fn registered_one(
    old: CodeGenerator,
    new: CodeGenerator,
    r: Result<u32, CompilerError>,
    sig: Signature,
) -> bool {
    match r {
        Ok(idx) => {
            &&& idx == old.n_functions()
            &&& new.n_functions() == old.n_functions() + 1
            &&& new.functions().subrange(0, old.n_functions() as int) == old.functions()
            &&& signature_of(new.functions()[idx as int]) == sig
            &&& new.names() == old.names().push((sig.name, idx))
        },
        Err(e) => {
            &&& e == CompilerError::FunctionLimit
            &&& old.n_functions() == u32::MAX
            &&& new.functions() == old.functions()
            &&& new.names() == old.names()
        },
    }
}

/// One more registration extends what has been appended since `start`.
pub proof fn lemma_appended_register(
    start: CodeGenerator,
    mid: CodeGenerator,
    new: CodeGenerator,
    sigs: Seq<Signature>,
    binds: Seq<(Seq<char>, int)>,
    idx: u32,
    sig: Signature,
)
    requires
        appended(start, mid, sigs, binds),
        registered_one(mid, new, Ok(idx), sig),
    ensures
        appended(start, new, sigs.push(sig), binds.push((sig.name, sigs.len() as int))),
        idx == start.n_functions() + sigs.len(),
{
    let n0 = start.n_functions() as int;
    assert(new.functions().subrange(0, n0) =~= mid.functions().subrange(0, n0)) by {
        assert forall|i: int| 0 <= i < n0 implies new.functions()[i] == mid.functions()[i] by {
            assert(new.functions().subrange(0, mid.n_functions() as int)[i] == mid.functions()[i]);
        }
    }
    assert forall|j: int| 0 <= j < sigs.len() + 1 implies signature_of(
        #[trigger] new.functions()[n0 + j],
    ) == sigs.push(sig)[j] by {
        if j < sigs.len() {
            assert(new.functions().subrange(0, mid.n_functions() as int)[n0 + j] == mid.functions()[n0
                + j]);
        }
    }
    let n0i = start.n_functions() as int;
    assert(bound(binds.push((sig.name, sigs.len() as int)), n0i) =~= bound(binds, n0i).push(
        (sig.name, idx),
    ));
    assert(new.names() =~= start.names() + bound(binds.push((sig.name, sigs.len() as int)), n0i));
}

/// Binding another name to the `j`-th new function extends the bindings.
pub proof fn lemma_appended_alias(
    start: CodeGenerator,
    mid: CodeGenerator,
    new: CodeGenerator,
    sigs: Seq<Signature>,
    binds: Seq<(Seq<char>, int)>,
    name: Seq<char>,
    j: int,
)
    requires
        appended(start, mid, sigs, binds),
        new.functions() == mid.functions(),
        new.names() == mid.names().push((name, (start.n_functions() + j) as u32)),
    ensures
        appended(start, new, sigs, binds.push((name, j))),
{
    let n0i = start.n_functions() as int;
    assert(bound(binds.push((name, j)), n0i) =~= bound(binds, n0i).push(
        (name, (start.n_functions() + j) as u32),
    ));
    assert(new.names() =~= start.names() + bound(binds.push((name, j)), n0i));
}

/// Two consecutive growths of the function table make one.
pub proof fn lemma_grew_compose(
    a: CodeGenerator,
    b: CodeGenerator,
    c: CodeGenerator,
    s1: Seq<Signature>,
    s2: Seq<Signature>,
)
    requires
        grew(a, b, s1),
        grew(b, c, s2),
    ensures
        grew(a, c, s1 + s2),
{
    let na = a.n_functions() as int;
    let nb = b.n_functions() as int;
    assert(c.functions().subrange(0, na) =~= a.functions()) by {
        assert forall|i: int| 0 <= i < na implies c.functions()[i] == a.functions()[i] by {
            assert(c.functions().subrange(0, nb)[i] == b.functions()[i]);
            assert(b.functions().subrange(0, na)[i] == a.functions()[i]);
        }
    }
    assert forall|j: int| 0 <= j < (s1 + s2).len() implies signature_of(
        #[trigger] c.functions()[na + j],
    ) == (s1 + s2)[j] by {
        if j < s1.len() {
            assert(c.functions().subrange(0, nb)[na + j] == b.functions()[na + j]);
            assert(signature_of(b.functions()[na + j]) == s1[j]);
        } else {
            let j2 = j - s1.len();
            assert(signature_of(c.functions()[nb + j2]) == s2[j2]);
            assert(na + j == nb + j2);
        }
    }
}

/// Bindings whose indices count from `k` functions later.
pub open spec fn shifted(binds: Seq<(Seq<char>, int)>, k: int) -> Seq<(Seq<char>, int)> {
    binds.map_values(|b: (Seq<char>, int)| (b.0, b.1 + k))
}

/// Two consecutive batches of registrations make one.
pub proof fn lemma_appended_compose(
    a: CodeGenerator,
    b: CodeGenerator,
    c: CodeGenerator,
    s1: Seq<Signature>,
    b1: Seq<(Seq<char>, int)>,
    s2: Seq<Signature>,
    b2: Seq<(Seq<char>, int)>,
)
    requires
        appended(a, b, s1, b1),
        appended(b, c, s2, b2),
    ensures
        appended(a, c, s1 + s2, b1 + shifted(b2, s1.len() as int)),
{
    let na = a.n_functions() as int;
    let nb = b.n_functions() as int;
    assert(c.functions().subrange(0, na) =~= a.functions()) by {
        assert forall|i: int| 0 <= i < na implies c.functions()[i] == a.functions()[i] by {
            assert(c.functions().subrange(0, nb)[i] == b.functions()[i]);
            assert(b.functions().subrange(0, na)[i] == a.functions()[i]);
        }
    }
    assert forall|j: int| 0 <= j < (s1 + s2).len() implies signature_of(
        #[trigger] c.functions()[na + j],
    ) == (s1 + s2)[j] by {
        if j < s1.len() {
            assert(c.functions().subrange(0, nb)[na + j] == b.functions()[na + j]);
            assert(signature_of(b.functions()[na + j]) == s1[j]);
        } else {
            let j2 = j - s1.len();
            assert(signature_of(c.functions()[nb + j2]) == s2[j2]);
            assert(na + j == nb + j2);
        }
    }
    assert(bound(b1 + shifted(b2, s1.len() as int), na) =~= bound(b1, na) + bound(b2, nb));
    assert(c.names() =~= a.names() + bound(b1 + shifted(b2, s1.len() as int), na));
}

/// A batch of registrations fits the index space exactly when its size
/// does.
pub proof fn lemma_appended_fits(a: CodeGenerator, b: CodeGenerator, s: Seq<Signature>, bs: Seq<(Seq<char>, int)>)
    requires
        b.wf(),
        appended(a, b, s, bs),
    ensures
        a.n_functions() + s.len() <= u32::MAX,
{
}

/// The binding a registration adds: the signature's name, at the
/// position the signature takes among `sigs`.
pub open spec fn binding_for(sigs: Seq<Signature>, sig: Signature) -> (Seq<char>, int) {
    (sig.name, sigs.len() as int)
}

/// Register a function and account for it in what has been appended since
/// `start`; `sig` is its signature, spelled out for the caller's accounting.
pub fn register_tracked(
    codegen: &mut CodeGenerator,
    Ghost(start): Ghost<CodeGenerator>,
    Ghost(sigs): Ghost<Seq<Signature>>,
    Ghost(binds): Ghost<Seq<(Seq<char>, int)>>,
    Ghost(sig): Ghost<Signature>,
    name: &str,
    params: &[WasmType],
    result: Option<WasmType>,
    locals: &[WasmType],
    instructions: Vec<Instruction>,
) -> (r: Result<u32, CompilerError>)
    requires
        old(codegen).wf(),
        appended(start, *old(codegen), sigs, binds),
        body_ok(instructions@, params@.len() + locals@.len()),
        sig.name == name@,
        sig.import_module is None,
        sig.params =~= params@,
        sig.result == result,
        sig.locals =~= locals@,
        sig.body == instructions@,
    ensures
        final(codegen).wf(),
        match r {
            Ok(idx) => {
                &&& idx == start.n_functions() + sigs.len()
                &&& appended(
                    start,
                    *final(codegen),
                    sigs.push(sig),
                    binds.push(binding_for(sigs, sig)),
                )
            },
            Err(e) => e == CompilerError::FunctionLimit && start.n_functions() + sigs.len()
                == u32::MAX,
        },
{
    let ghost mid = *codegen;
    let r = codegen.register_function_with_locals(name, params, result, locals, instructions);
    proof {
        assert(sig == defined(name@, params@, result, locals@, instructions@));
        if let Ok(idx) = r {
            lemma_appended_register(start, mid, *codegen, sigs, binds, idx, sig);
        }
    }
    r
}

/// Register a function whose body is structured but may name locals beyond
/// those it declares, and account for it in what has been appended since
/// `start`.
pub fn register_tracked_structured(
    codegen: &mut CodeGenerator,
    Ghost(start): Ghost<CodeGenerator>,
    Ghost(sigs): Ghost<Seq<Signature>>,
    Ghost(binds): Ghost<Seq<(Seq<char>, int)>>,
    Ghost(sig): Ghost<Signature>,
    name: &str,
    params: &[WasmType],
    result: Option<WasmType>,
    locals: &[WasmType],
    instructions: Vec<Instruction>,
) -> (r: Result<u32, CompilerError>)
    requires
        old(codegen).wf(),
        appended(start, *old(codegen), sigs, binds),
        structured(instructions@),
        sig.name == name@,
        sig.import_module is None,
        sig.params =~= params@,
        sig.result == result,
        sig.locals =~= locals@,
        sig.body == instructions@,
    ensures
        final(codegen).wf(),
        match r {
            Ok(idx) => {
                &&& idx == start.n_functions() + sigs.len()
                &&& appended(
                    start,
                    *final(codegen),
                    sigs.push(sig),
                    binds.push(binding_for(sigs, sig)),
                )
            },
            Err(e) => e == CompilerError::FunctionLimit && start.n_functions() + sigs.len()
                == u32::MAX,
        },
{
    let ghost mid = *codegen;
    let r = codegen.register_function_with_locals(name, params, result, locals, instructions);
    proof {
        assert(sig == defined(name@, params@, result, locals@, instructions@));
        if let Ok(idx) = r {
            lemma_appended_register(start, mid, *codegen, sigs, binds, idx, sig);
        }
    }
    r
}

/// Register a host import and account for it in what has been appended
/// since `start`; `sig` is its signature, spelled out for the caller's
/// accounting.
pub fn import_tracked(
    codegen: &mut CodeGenerator,
    Ghost(start): Ghost<CodeGenerator>,
    Ghost(sigs): Ghost<Seq<Signature>>,
    Ghost(binds): Ghost<Seq<(Seq<char>, int)>>,
    Ghost(sig): Ghost<Signature>,
    module: &str,
    name: &str,
    params: &[WasmType],
    result: Option<WasmType>,
) -> (r: Result<u32, CompilerError>)
    requires
        old(codegen).wf(),
        appended(start, *old(codegen), sigs, binds),
        sig.name == name@,
        sig.import_module == Some(module@),
        sig.params =~= params@,
        sig.result == result,
        sig.locals =~= Seq::<WasmType>::empty(),
        sig.body == Seq::<Instruction>::empty(),
    ensures
        final(codegen).wf(),
        match r {
            Ok(idx) => {
                &&& idx == start.n_functions() + sigs.len()
                &&& appended(
                    start,
                    *final(codegen),
                    sigs.push(sig),
                    binds.push(binding_for(sigs, sig)),
                )
            },
            Err(e) => e == CompilerError::FunctionLimit && start.n_functions() + sigs.len()
                == u32::MAX,
        },
{
    let ghost mid = *codegen;
    let r = codegen.register_import_function(module, name, params, result);
    proof {
        assert(sig == Signature {
            name: name@,
            import_module: Some(module@),
            params: params@,
            result,
            locals: Seq::empty(),
            body: Seq::empty(),
        });
        if let Ok(idx) = r {
            lemma_appended_register(start, mid, *codegen, sigs, binds, idx, sig);
        }
    }
    r
}

/// Bind another name to the function at index `idx`, the `j`-th appended
/// since `start`, and account for it.
pub fn alias_tracked(
    codegen: &mut CodeGenerator,
    Ghost(start): Ghost<CodeGenerator>,
    Ghost(sigs): Ghost<Seq<Signature>>,
    Ghost(binds): Ghost<Seq<(Seq<char>, int)>>,
    name: &str,
    idx: u32,
)
    requires
        old(codegen).wf(),
        appended(start, *old(codegen), sigs, binds),
        start.n_functions() <= idx < start.n_functions() + sigs.len(),
    ensures
        final(codegen).wf(),
        appended(
            start,
            *final(codegen),
            sigs,
            binds.push((name@, idx - start.n_functions())),
        ),
{
    let ghost mid = *codegen;
    codegen.add_function_alias(name, idx);
    proof {
        lemma_appended_alias(start, mid, *codegen, sigs, binds, name@, idx - start.n_functions());
    }
}

/// The bindings after, for each pair `(from, to)` in order, `to` was bound
/// to the index `from` resolved to at that moment, where it resolved.
pub open spec fn aliased(
    names: Seq<(Seq<char>, u32)>,
    pairs: Seq<(Seq<char>, Seq<char>)>,
) -> Seq<(Seq<char>, u32)>
    decreases pairs.len(),
{
    if pairs.len() == 0 {
        names
    } else {
        let prev = aliased(names, pairs.drop_last());
        match lookup(prev, pairs.last().0) {
            Some(i) => prev.push((pairs.last().1, i)),
            None => prev,
        }
    }
}

/// One more conditional alias extends `aliased` by one pair.
pub proof fn lemma_aliased_push(
    names: Seq<(Seq<char>, u32)>,
    pairs: Seq<(Seq<char>, Seq<char>)>,
    pair: (Seq<char>, Seq<char>),
)
    ensures
        aliased(names, pairs.push(pair)) == match lookup(aliased(names, pairs), pair.0) {
            Some(i) => aliased(names, pairs).push((pair.1, i)),
            None => aliased(names, pairs),
        },
{
    assert(pairs.push(pair).drop_last() =~= pairs);
}

/// Aliasing by two runs of pairs is aliasing by the first run, then by the
/// second.
pub proof fn lemma_aliased_concat(
    names: Seq<(Seq<char>, u32)>,
    a: Seq<(Seq<char>, Seq<char>)>,
    b: Seq<(Seq<char>, Seq<char>)>,
)
    ensures
        aliased(names, a + b) == aliased(aliased(names, a), b),
    decreases b.len(),
{
    if b.len() == 0 {
        assert(a + b =~= a);
    } else {
        assert((a + b).drop_last() =~= a + b.drop_last());
        assert((a + b).last() == b.last());
        lemma_aliased_concat(names, a, b.drop_last());
    }
}

/// Aliases that bind other names leave a name's resolution as it was.
pub proof fn lemma_aliased_lookup_other(
    names: Seq<(Seq<char>, u32)>,
    pairs: Seq<(Seq<char>, Seq<char>)>,
    key: Seq<char>,
)
    requires
        forall|j: int| 0 <= j < pairs.len() ==> (#[trigger] pairs[j]).1 != key,
    ensures
        lookup(aliased(names, pairs), key) == lookup(names, key),
    decreases pairs.len(),
{
    if pairs.len() > 0 {
        let prev = pairs.drop_last();
        assert forall|j: int| 0 <= j < prev.len() implies (#[trigger] prev[j]).1 != key by {
            assert(prev[j] == pairs[j]);
        }
        lemma_aliased_lookup_other(names, prev, key);
        assert(pairs[pairs.len() - 1].1 != key);
        if let Some(i) = lookup(aliased(names, prev), pairs.last().0) {
            lemma_lookup_push(aliased(names, prev), (pairs.last().1, i), key);
        }
    }
}

/// Bind `to` to the index `from` resolves to, where `from` resolves;
/// otherwise leave the table as it is.
pub fn alias_if_present(codegen: &mut CodeGenerator, from: &str, to: &str)
    requires
        old(codegen).wf(),
    ensures
        final(codegen).wf(),
        final(codegen).functions() == old(codegen).functions(),
        final(codegen).names() == match old(codegen).index_of(from@) {
            Some(i) => old(codegen).names().push((to@, i)),
            None => old(codegen).names(),
        },
{
    if let Some(idx) = codegen.get_function_index(from) {
        codegen.add_function_alias(to, idx);
    }
}

/// Looking a name up after one more binding.
pub proof fn lemma_lookup_push(names: Seq<(Seq<char>, u32)>, b: (Seq<char>, u32), key: Seq<char>)
    ensures
        lookup(names.push(b), key) == if b.0 == key {
            Some(b.1)
        } else {
            lookup(names, key)
        },
{
    assert(names.push(b).drop_last() =~= names);
}

/// Looking a name up in two runs of bindings: the later run wins.
pub proof fn lemma_lookup_concat(a: Seq<(Seq<char>, u32)>, b: Seq<(Seq<char>, u32)>, key: Seq<char>)
    ensures
        lookup(a + b, key) == match lookup(b, key) {
            Some(v) => Some(v),
            None => lookup(a, key),
        },
    decreases b.len(),
{
    if b.len() == 0 {
        assert(a + b =~= a);
    } else {
        assert((a + b).drop_last() =~= a + b.drop_last());
        assert((a + b).last() == b.last());
        lemma_lookup_concat(a, b.drop_last(), key);
    }
}

/// A name that none of `binds` carries is not bound by them.
pub proof fn lemma_lookup_bound_absent(binds: Seq<(Seq<char>, int)>, base: int, key: Seq<char>)
    requires
        forall|j: int| 0 <= j < binds.len() ==> (#[trigger] binds[j]).0 != key,
    ensures
        lookup(bound(binds, base), key) is None,
    decreases binds.len(),
{
    if binds.len() > 0 {
        assert(bound(binds, base).drop_last() =~= bound(binds.drop_last(), base));
        assert(binds[binds.len() - 1].0 != key);
        lemma_lookup_bound_absent(binds.drop_last(), base, key);
    }
}

/// A name resolves to its last binding among `binds`.
pub proof fn lemma_lookup_bound_found(binds: Seq<(Seq<char>, int)>, base: int, key: Seq<char>, j: int)
    requires
        0 <= j < binds.len(),
        binds[j].0 == key,
        forall|k: int| j < k < binds.len() ==> (#[trigger] binds[k]).0 != key,
    ensures
        lookup(bound(binds, base), key) == Some((base + binds[j].1) as u32),
    decreases binds.len(),
{
    assert(bound(binds, base).drop_last() =~= bound(binds.drop_last(), base));
    if j < binds.len() - 1 {
        assert(binds[binds.len() - 1].0 != key);
        assert forall|k: int| j < k < binds.drop_last().len() implies (
        #[trigger] binds.drop_last()[k]).0 != key by {
            assert(binds.drop_last()[k] == binds[k]);
        }
        lemma_lookup_bound_found(binds.drop_last(), base, key, j);
    }
}

/// Right after a batch whose last binding names `name`, `name` resolves
/// to that binding.
pub proof fn lemma_lookup_last(
    start: CodeGenerator,
    g: CodeGenerator,
    sigs: Seq<Signature>,
    binds: Seq<(Seq<char>, int)>,
    name: Seq<char>,
    k: int,
)
    requires
        appended(start, g, sigs, binds),
        binds.len() > 0,
        binds.last() == (name, k),
    ensures
        g.index_of(name) == Some((start.n_functions() + k) as u32),
{
    lemma_lookup_concat(start.names(), bound(binds, start.n_functions() as int), name);
    lemma_lookup_bound_found(binds, start.n_functions() as int, name, binds.len() - 1);
}

/// Register a stdlib function whose locals are its parameters only.
pub fn register_stdlib_function(
    codegen: &mut CodeGenerator,
    name: &str,
    params: &[WasmType],
    result: Option<WasmType>,
    instructions: Vec<Instruction>,
) -> (r: Result<u32, CompilerError>)
    requires
        old(codegen).wf(),
        body_ok(instructions@, params@.len()),
    ensures
        final(codegen).wf(),
        registered_one(*old(codegen), *final(codegen), r, defined(name@, params@, result, Seq::empty(), instructions@)),
{
    codegen.register_function(name, params, result, instructions)
}

/// Register a stdlib function with extra locals after its parameters.
pub fn register_stdlib_function_with_locals(
    codegen: &mut CodeGenerator,
    name: &str,
    params: &[WasmType],
    result: Option<WasmType>,
    local_types: &[WasmType],
    instructions: Vec<Instruction>,
) -> (r: Result<u32, CompilerError>)
    requires
        old(codegen).wf(),
        body_ok(instructions@, params@.len() + local_types@.len()),
    ensures
        final(codegen).wf(),
        registered_one(*old(codegen), *final(codegen), r, defined(name@, params@, result, local_types@, instructions@)),
{
    codegen.register_function_with_locals(name, params, result, local_types, instructions)
}

} // verus!
