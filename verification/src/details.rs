use vstd::prelude::*;
use vstd::string::StringExecFns;
use crate::text::{spec_ends_with, str_ends_with, str_eq};

verus! {

/// A concrete type occurring in a function signature, with the numeric id as
/// the key and the optional debug name the builtin filter goes by.
#[derive(Debug)]
pub struct TypeId {
    pub id: u64,
    pub debug_name: Option<String>,
}

impl TypeId {
    /// An equal copy; written out because the compiler-derived clone of a
    /// type with a `String` field says nothing to the verifier.
    pub fn duplicate(&self) -> (r: Self)
        ensures
            r == *self,
    {
        TypeId {
            id: self.id,
            debug_name: match &self.debug_name {
                Some(n) => Some(n.clone()),
                None => None,
            },
        }
    }
}

/// A type declaration of the program: the concrete id it declares, the
/// generic type it instantiates, and its size in slots.
#[derive(Debug)]
pub struct TypeDeclaration {
    pub id: TypeId,
    pub generic_id: String,
    pub size: i16,
}

/// One function of the program, with the debug name test cases are matched
/// against by suffix.
#[derive(Debug)]
pub struct SierraFunction {
    pub debug_name: String,
    pub entry_point: usize,
    pub param_types: Vec<TypeId>,
    pub ret_types: Vec<TypeId>,
}

/// The surface of a compiled intermediate-representation program the
/// scheduler reads: its functions and its type declarations.
#[derive(Debug)]
pub struct SierraProgram {
    pub funcs: Vec<SierraFunction>,
    pub type_declarations: Vec<TypeDeclaration>,
}

/// Per-case metadata handed to the executor: the entry point and the typed
/// shape of the parameters and returns, as (generic type, size in slots).
#[derive(Debug)]
pub struct TestDetails {
    pub entry_point_offset: usize,
    pub parameter_types: Vec<(String, i16)>,
    pub return_types: Vec<(String, i16)>,
}

/// The mathematical shape of per-case details.
pub ghost struct TestDetailsView {
    pub entry_point_offset: int,
    pub parameter_types: Seq<(Seq<char>, i16)>,
    pub return_types: Seq<(Seq<char>, i16)>,
}

/// Type entries with their strings abstracted to character sequences.
pub open spec fn entries_view(s: Seq<(String, i16)>) -> Seq<(Seq<char>, i16)> {
    s.map_values(|e: (String, i16)| (e.0@, e.1))
}

impl View for TestDetails {
    type V = TestDetailsView;

    open spec fn view(&self) -> TestDetailsView {
        TestDetailsView {
            entry_point_offset: self.entry_point_offset as int,
            parameter_types: entries_view(self.parameter_types@),
            return_types: entries_view(self.return_types@),
        }
    }
}

/// The fixed builtin slot names, in order; parameters with these debug names
/// are not part of the fuzzable signature.
pub open spec fn spec_builtin_names() -> Seq<Seq<char>> {
    seq![
        "Pedersen"@,
        "RangeCheck"@,
        "Bitwise"@,
        "EcOp"@,
        "Poseidon"@,
        "SegmentArena"@,
        "GasBuiltin"@,
        "System"@,
    ]
}

/// Whether a parameter is one of the well-known builtin slots.
pub open spec fn spec_is_builtin_param(pt: TypeId) -> bool {
    match pt.debug_name {
        Some(n) => spec_builtin_names().contains(n@),
        None => false,
    }
}

/// The first function whose debug name ends with `name`.
pub open spec fn spec_find_function(funcs: Seq<SierraFunction>, name: Seq<char>) -> Option<
    SierraFunction,
>
    decreases funcs.len(),
{
    if funcs.len() == 0 {
        None
    } else if spec_ends_with(funcs.first().debug_name@, name) {
        Some(funcs.first())
    } else {
        spec_find_function(funcs.drop_first(), name)
    }
}

/// The first declaration of the concrete type with numeric id `id`.
pub open spec fn spec_find_declaration(decls: Seq<TypeDeclaration>, id: u64) -> Option<
    TypeDeclaration,
>
    decreases decls.len(),
{
    if decls.len() == 0 {
        None
    } else if decls.first().id.id == id {
        Some(decls.first())
    } else {
        spec_find_declaration(decls.drop_first(), id)
    }
}

/// The (generic type, size) entry a parameter resolves to, if its type is
/// declared.
pub open spec fn spec_param_entry(decls: Seq<TypeDeclaration>, pt: TypeId) -> Option<
    (Seq<char>, i16),
> {
    match spec_find_declaration(decls, pt.id) {
        Some(td) => Some((td.generic_id@, td.size)),
        None => None,
    }
}

/// Resolve every parameter to its entry; nothing when any type is undeclared.
pub open spec fn spec_type_entries(decls: Seq<TypeDeclaration>, params: Seq<TypeId>) -> Option<
    Seq<(Seq<char>, i16)>,
>
    decreases params.len(),
{
    if params.len() == 0 {
        Some(Seq::empty())
    } else {
        match (spec_type_entries(decls, params.drop_last()), spec_param_entry(
            decls,
            params.last(),
        )) {
            (Some(rest), Some(e)) => Some(rest.push(e)),
            _ => None,
        }
    }
}

/// The fuzzable signature: the parameters that are not builtin slots, in
/// order.
pub open spec fn spec_function_args(params: Seq<TypeId>) -> Seq<TypeId>
    decreases params.len(),
{
    if params.len() == 0 {
        Seq::empty()
    } else {
        let rest = spec_function_args(params.drop_last());
        if spec_is_builtin_param(params.last()) {
            rest
        } else {
            rest.push(params.last())
        }
    }
}

/// The details a test case resolves to: entry point offset and the entries
/// of its parameter and return types, if the function exists and every type
/// it mentions is declared.
pub open spec fn spec_build_test_details(name: Seq<char>, program: SierraProgram) -> Option<
    TestDetailsView,
> {
    match spec_find_function(program.funcs@, name) {
        None => None,
        Some(f) => match (spec_type_entries(program.type_declarations@, f.param_types@),
            spec_type_entries(program.type_declarations@, f.ret_types@)) {
            (Some(ps), Some(rs)) => Some(
                TestDetailsView {
                    entry_point_offset: f.entry_point as int,
                    parameter_types: ps,
                    return_types: rs,
                },
            ),
            _ => None,
        },
    }
}

proof fn lemma_find_function_skip(funcs: Seq<SierraFunction>, name: Seq<char>, i: int)
    requires
        0 <= i <= funcs.len(),
        forall|j: int| 0 <= j < i ==> !spec_ends_with((#[trigger] funcs[j]).debug_name@, name),
    ensures
        spec_find_function(funcs, name) == spec_find_function(
            funcs.subrange(i, funcs.len() as int),
            name,
        ),
    decreases i,
{
    if i > 0 {
        lemma_find_function_skip(funcs, name, i - 1);
        let t = funcs.subrange(i - 1, funcs.len() as int);
        assert(t.first() == funcs[i - 1]);
        assert(t.drop_first() =~= funcs.subrange(i, funcs.len() as int));
    } else {
        assert(funcs.subrange(0, funcs.len() as int) =~= funcs);
    }
}

proof fn lemma_find_declaration_skip(decls: Seq<TypeDeclaration>, id: u64, i: int)
    requires
        0 <= i <= decls.len(),
        forall|j: int| 0 <= j < i ==> (#[trigger] decls[j]).id.id != id,
    ensures
        spec_find_declaration(decls, id) == spec_find_declaration(
            decls.subrange(i, decls.len() as int),
            id,
        ),
    decreases i,
{
    if i > 0 {
        lemma_find_declaration_skip(decls, id, i - 1);
        let t = decls.subrange(i - 1, decls.len() as int);
        assert(t.first() == decls[i - 1]);
        assert(t.drop_first() =~= decls.subrange(i, decls.len() as int));
    } else {
        assert(decls.subrange(0, decls.len() as int) =~= decls);
    }
}

proof fn lemma_type_entries_none(decls: Seq<TypeDeclaration>, params: Seq<TypeId>, j: int)
    requires
        0 <= j < params.len(),
        spec_param_entry(decls, params[j]) is None,
    ensures
        spec_type_entries(decls, params) is None,
    decreases params.len(),
{
    if j < params.len() - 1 {
        assert(params.drop_last()[j] == params[j]);
        lemma_type_entries_none(decls, params.drop_last(), j);
    }
}

/// The first function of the program whose debug name ends with `name`.
pub fn find_function<'a>(program: &'a SierraProgram, name: &str) -> (r: Option<&'a SierraFunction>)
    ensures
        r is Some <==> spec_find_function(program.funcs@, name@) is Some,
        r matches Some(f) ==> spec_find_function(program.funcs@, name@) == Some(*f),
{
    let n = program.funcs.len();
    let mut i: usize = 0;
    while i < n
        invariant
            0 <= i <= n,
            n == program.funcs@.len(),
            forall|j: int|
                0 <= j < i ==> !spec_ends_with(
                    (#[trigger] program.funcs@[j]).debug_name@,
                    name@,
                ),
        decreases n - i,
    {
        let f = &program.funcs[i];
        if str_ends_with(f.debug_name.as_str(), name) {
            proof {
                lemma_find_function_skip(program.funcs@, name@, i as int);
                let t = program.funcs@.subrange(i as int, n as int);
                assert(t.first() == program.funcs@[i as int]);
            }
            return Some(f);
        }
        i = i + 1;
    }
    proof {
        lemma_find_function_skip(program.funcs@, name@, n as int);
        assert(program.funcs@.subrange(n as int, n as int) =~= Seq::<SierraFunction>::empty());
    }
    None
}

/// The first declaration of the concrete type with numeric id `id`.
fn find_declaration<'a>(decls: &'a Vec<TypeDeclaration>, id: u64) -> (r: Option<
    &'a TypeDeclaration,
>)
    ensures
        r is Some <==> spec_find_declaration(decls@, id) is Some,
        r matches Some(td) ==> spec_find_declaration(decls@, id) == Some(*td),
{
    let n = decls.len();
    let mut i: usize = 0;
    while i < n
        invariant
            0 <= i <= n,
            n == decls@.len(),
            forall|j: int| 0 <= j < i ==> (#[trigger] decls@[j]).id.id != id,
        decreases n - i,
    {
        let td = &decls[i];
        if td.id.id == id {
            proof {
                lemma_find_declaration_skip(decls@, id, i as int);
                let t = decls@.subrange(i as int, n as int);
                assert(t.first() == decls@[i as int]);
            }
            return Some(td);
        }
        i = i + 1;
    }
    proof {
        lemma_find_declaration_skip(decls@, id, n as int);
        assert(decls@.subrange(n as int, n as int) =~= Seq::<TypeDeclaration>::empty());
    }
    None
}

/// Resolve a list of signature types to their (generic type, size) entries.
fn resolve_type_entries(decls: &Vec<TypeDeclaration>, params: &Vec<TypeId>) -> (r: Option<
    Vec<(String, i16)>,
>)
    ensures
        r is Some <==> spec_type_entries(decls@, params@) is Some,
        r matches Some(v) ==> spec_type_entries(decls@, params@) == Some(entries_view(v@)),
{
    let n = params.len();
    let mut out: Vec<(String, i16)> = Vec::new();
    let mut i: usize = 0;
    while i < n
        invariant
            0 <= i <= n,
            n == params@.len(),
            spec_type_entries(decls@, params@.subrange(0, i as int)) == Some(entries_view(out@)),
        decreases n - i,
    {
        proof {
            assert(params@.subrange(0, i as int + 1).drop_last() =~= params@.subrange(0, i as int));
            assert(params@.subrange(0, i as int + 1).last() == params@[i as int]);
        }
        match find_declaration(decls, params[i].id) {
            Some(td) => {
                let entry = (td.generic_id.clone(), td.size);
                proof {
                    assert(entries_view(out@.push(entry)) =~= entries_view(out@).push(
                        (entry.0@, entry.1),
                    ));
                }
                out.push(entry);
            },
            None => {
                proof {
                    lemma_type_entries_none(decls@, params@, i as int);
                }
                return None;
            },
        }
        i = i + 1;
    }
    proof {
        assert(params@.subrange(0, n as int) =~= params@);
    }
    Some(out)
}

/// Build the per-case details for the test named `test_name` from the
/// program: find the function by debug-name suffix and resolve its parameter
/// and return types. Nothing when the function is missing or a type is
/// undeclared.
pub fn build_test_details(test_name: &str, program: &SierraProgram) -> (r: Option<TestDetails>)
    ensures
        r is Some <==> spec_build_test_details(test_name@, *program) is Some,
        r matches Some(d) ==> spec_build_test_details(test_name@, *program) == Some(d@),
{
    let f = match find_function(program, test_name) {
        Some(f) => f,
        None => {
            return None;
        },
    };
    let parameter_types = match resolve_type_entries(&program.type_declarations, &f.param_types) {
        Some(v) => v,
        None => {
            return None;
        },
    };
    let return_types = match resolve_type_entries(&program.type_declarations, &f.ret_types) {
        Some(v) => v,
        None => {
            return None;
        },
    };
    Some(TestDetails { entry_point_offset: f.entry_point, parameter_types, return_types })
}

/// Whether `name` is one of the builtin slot names.
fn is_builtin_name(name: &String) -> (r: bool)
    ensures
        r == spec_builtin_names().contains(name@),
{
    let s = name.as_str();
    if str_eq(s, "Pedersen") || str_eq(s, "RangeCheck") || str_eq(s, "Bitwise") || str_eq(s, "EcOp")
        || str_eq(s, "Poseidon") || str_eq(s, "SegmentArena") || str_eq(s, "GasBuiltin") || str_eq(
        s,
        "System",
    ) {
        proof {
            let names = spec_builtin_names();
            if name@ == "Pedersen"@ {
                assert(names[0] == "Pedersen"@);
            } else if name@ == "RangeCheck"@ {
                assert(names[1] == "RangeCheck"@);
            } else if name@ == "Bitwise"@ {
                assert(names[2] == "Bitwise"@);
            } else if name@ == "EcOp"@ {
                assert(names[3] == "EcOp"@);
            } else if name@ == "Poseidon"@ {
                assert(names[4] == "Poseidon"@);
            } else if name@ == "SegmentArena"@ {
                assert(names[5] == "SegmentArena"@);
            } else if name@ == "GasBuiltin"@ {
                assert(names[6] == "GasBuiltin"@);
            } else {
                assert(names[7] == "System"@);
            }
        }
        true
    } else {
        proof {
            let names = spec_builtin_names();
            assert forall|k: int| 0 <= k < names.len() implies names[k] != name@ by {
                assert(names[0] == "Pedersen"@);
                assert(names[1] == "RangeCheck"@);
                assert(names[2] == "Bitwise"@);
                assert(names[3] == "EcOp"@);
                assert(names[4] == "Poseidon"@);
                assert(names[5] == "SegmentArena"@);
                assert(names[6] == "GasBuiltin"@);
                assert(names[7] == "System"@);
            }
        }
        false
    }
}

/// The builtin slot names as strings, in their fixed order.
pub fn builtins() -> (r: Vec<String>)
    ensures
        r@.len() == spec_builtin_names().len(),
        forall|i: int| 0 <= i < r@.len() ==> (#[trigger] r@[i])@ == spec_builtin_names()[i],
{
    let mut v: Vec<String> = Vec::new();
    v.push(String::from_str("Pedersen"));
    v.push(String::from_str("RangeCheck"));
    v.push(String::from_str("Bitwise"));
    v.push(String::from_str("EcOp"));
    v.push(String::from_str("Poseidon"));
    v.push(String::from_str("SegmentArena"));
    v.push(String::from_str("GasBuiltin"));
    v.push(String::from_str("System"));
    v
}

/// The fuzzable signature of a function: its parameters with the builtin
/// slots stripped.
pub fn function_args(function: &SierraFunction) -> (r: Vec<TypeId>)
    ensures
        r@ == spec_function_args(function.param_types@),
{
    let params = &function.param_types;
    let n = params.len();
    let mut out: Vec<TypeId> = Vec::new();
    let mut i: usize = 0;
    while i < n
        invariant
            0 <= i <= n,
            n == params@.len(),
            out@ == spec_function_args(params@.subrange(0, i as int)),
        decreases n - i,
    {
        proof {
            assert(params@.subrange(0, i as int + 1).drop_last() =~= params@.subrange(0, i as int));
            assert(params@.subrange(0, i as int + 1).last() == params@[i as int]);
        }
        let pt = &params[i];
        let skip: bool = match &pt.debug_name {
            Some(nm) => is_builtin_name(nm),
            None => false,
        };
        if !skip {
            out.push(pt.duplicate());
        }
        i = i + 1;
    }
    proof {
        assert(params@.subrange(0, n as int) =~= params@);
    }
    out
}

} // verus!
