//! The typed term algebra.
//!
//! A term is either a variable, resolved against the knowledge store at
//! evaluation time, or the application of a function symbol to an ordered
//! list of child terms.  Terms carry their typing: the structural
//! invariant [`well_typed`] states that every application has as many
//! children as its shape declares, each of the declared type.  The
//! mutators rewrite terms through paths, and [`lemma_replace_preserves_typing`]
//! is the heart of their type-preservation guarantee.

use vstd::prelude::*;
use crate::agent::AgentName;
use crate::dynamic_function::DynamicFunction;
use crate::dynamic_function::DynFnV;
use crate::error::Error;
use crate::msgs::TlsMessageType;
use crate::types::DynamicFunctionShape;
use crate::types::ShapeV;
use crate::types::TypeShape;
use crate::types::TypeShapeV;

verus! {

broadcast use vstd::std_specs::vec::group_vec_axioms;

/// Identifies which observation a variable binds to: the observed agent,
/// the kind of the containing message (or none for a flat query), and a
/// counter telling repeated messages of one kind apart.
#[derive(Clone, Copy, PartialEq, Eq, Structural, Debug)]
pub struct QueryId {
    pub agent_name: AgentName,
    pub tls_message_type: Option<TlsMessageType>,
    pub counter: u16,
}

/// Model of a [`Variable`].
pub struct VariableV {
    pub type_shape: TypeShapeV,
    pub query: QueryId,
}

/// A placeholder of a declared type, resolved at evaluation time.
#[derive(Debug)]
pub struct Variable {
    pub type_shape: TypeShape,
    pub query: QueryId,
}

impl View for Variable {
    type V = VariableV;

    open spec fn view(&self) -> VariableV {
        VariableV { type_shape: self.type_shape@, query: self.query }
    }
}

impl Variable {
    /// A variable of the given type bound to the given query.
    pub fn new(type_shape: TypeShape, query: QueryId) -> (r: Variable)
        ensures
            r@ == (VariableV { type_shape: type_shape@, query }),
    {
        Variable { type_shape, query }
    }

    /// An exact copy of this variable.
    pub fn deep_clone(&self) -> (r: Variable)
        ensures
            r@ == self@,
    {
        Variable { type_shape: self.type_shape.deep_clone(), query: self.query }
    }
}

/// Model of a [`Function`].
pub struct FunctionV {
    pub shape: ShapeV,
    pub dynamic_fn: DynFnV,
}

/// A function symbol: its declared shape and its erased callable.
#[derive(Debug)]
pub struct Function {
    pub shape: DynamicFunctionShape,
    pub dynamic_fn: DynamicFunction,
}

impl View for Function {
    type V = FunctionV;

    open spec fn view(&self) -> FunctionV {
        FunctionV { shape: self.shape@, dynamic_fn: self.dynamic_fn@ }
    }
}

impl Function {
    /// A symbol from its shape and callable.
    pub fn new(shape: DynamicFunctionShape, dynamic_fn: DynamicFunction) -> (r: Function)
        ensures
            r@ == (FunctionV { shape: shape@, dynamic_fn: dynamic_fn@ }),
    {
        Function { shape, dynamic_fn }
    }

    /// An exact copy of this symbol.
    pub fn deep_clone(&self) -> (r: Function)
        ensures
            r@ == self@,
    {
        Function { shape: self.shape.deep_clone(), dynamic_fn: self.dynamic_fn.deep_clone() }
    }

    /// Swap in a different symbol, keeping the node.
    pub fn change_function(&mut self, shape: DynamicFunctionShape, dynamic_fn: DynamicFunction)
        ensures
            final(self)@ == (FunctionV { shape: shape@, dynamic_fn: dynamic_fn@ }),
    {
        self.shape = shape;
        self.dynamic_fn = dynamic_fn;
    }
}

/// Model of a [`Term`].
pub enum TermV {
    Variable(VariableV),
    Application(FunctionV, Seq<TermV>),
}

/// A typed recipe: a variable, or a function symbol applied to children.
#[derive(Debug)]
pub enum Term {
    Variable(Variable),
    Application(Function, Vec<Term>),
}

/// The views of a list of terms, in order.
pub open spec fn terms_view(ts: Seq<Term>) -> Seq<TermV>
    decreases ts,
{
    Seq::new(
        ts.len(),
        |i: int|
            if 0 <= i < ts.len() {
                ts[i]@
            } else {
                arbitrary()
            },
    )
}

impl View for Term {
    type V = TermV;

    open spec fn view(&self) -> TermV
        decreases self,
    {
        match self {
            Term::Variable(v) => TermV::Variable(v@),
            Term::Application(f, args) => TermV::Application(f@, terms_view(args@)),
        }
    }
}

/// The output type of a term: a variable's declared type, or the return
/// type of an application's symbol.
pub open spec fn term_type_id(t: TermV) -> u64 {
    match t {
        TermV::Variable(v) => v.type_shape.id,
        TermV::Application(f, _) => f.shape.return_type.id,
    }
}

/// Whether each term of a list matches the corresponding declared type.
pub open spec fn types_match(args: Seq<TermV>, tys: Seq<TypeShapeV>) -> bool {
    forall|i: int| 0 <= i < args.len() ==> #[trigger] term_type_id(args[i]) == tys[i].id
}

/// The structural typing invariant: every application has exactly the
/// declared number of children, each of the declared type.
pub open spec fn well_typed(t: TermV) -> bool
    decreases t,
{
    match t {
        TermV::Variable(_) => true,
        TermV::Application(f, args) => {
            &&& args.len() == f.shape.argument_types.len()
            &&& types_match(args, f.shape.argument_types)
            &&& all_well_typed(args)
        },
    }
}

/// Whether every term of a list satisfies the typing invariant.
pub open spec fn all_well_typed(ts: Seq<TermV>) -> bool
    decreases ts,
{
    if ts.len() == 0 {
        true
    } else {
        well_typed(ts[0]) && all_well_typed(ts.subrange(1, ts.len() as int))
    }
}

/// A list is well typed exactly when each of its terms is.
pub proof fn lemma_all_well_typed_iff(ts: Seq<TermV>)
    ensures
        all_well_typed(ts) <==> (forall|i: int| 0 <= i < ts.len() ==> #[trigger] well_typed(
            ts[i],
        )),
    decreases ts.len(),
{
    if ts.len() > 0 {
        let rest = ts.subrange(1, ts.len() as int);
        lemma_all_well_typed_iff(rest);
        assert(forall|i: int| 1 <= i < ts.len() ==> ts[i] == rest[i - 1]);
        if well_typed(ts[0]) && (forall|i: int|
            0 <= i < rest.len() ==> #[trigger] well_typed(rest[i])) {
            assert(forall|i: int| 0 <= i < ts.len() ==> #[trigger] well_typed(ts[i])) by {
                assert(forall|i: int| 1 <= i < ts.len() ==> well_typed(rest[i - 1]) ==> well_typed(
                    ts[i],
                ));
            }
        }
    }
}

/// The number of nodes of a term.
pub open spec fn term_size(t: TermV) -> nat
    decreases t,
{
    match t {
        TermV::Variable(_) => 1,
        TermV::Application(_, args) => 1 + terms_size(args),
    }
}

/// The total number of nodes of a list of terms.
pub open spec fn terms_size(ts: Seq<TermV>) -> nat
    decreases ts,
{
    if ts.len() == 0 {
        0
    } else {
        term_size(ts[0]) + terms_size(ts.subrange(1, ts.len() as int))
    }
}

/// A list's node count is at least any element's.
proof fn lemma_terms_size_elem(ts: Seq<TermV>, i: int)
    requires
        0 <= i < ts.len(),
    ensures
        term_size(ts[i]) <= terms_size(ts),
    decreases i,
{
    if i == 0 {
    } else {
        lemma_terms_size_elem(ts.subrange(1, ts.len() as int), i - 1);
        assert(ts.subrange(1, ts.len() as int)[i - 1] == ts[i]);
    }
}

/// A child's node count is strictly below its application's.
pub proof fn lemma_child_size_lt(t: TermV, j: int)
    requires
        t is Application,
        0 <= j < t->Application_1.len(),
    ensures
        term_size(t->Application_1[j]) < term_size(t),
{
    lemma_terms_size_elem(t->Application_1, j);
}

/// Updating one element adjusts a list's node count by the difference.
proof fn lemma_terms_size_update(ts: Seq<TermV>, i: int, c: TermV)
    requires
        0 <= i < ts.len(),
    ensures
        terms_size(ts.update(i, c)) + term_size(ts[i]) == terms_size(ts) + term_size(c),
    decreases i,
{
    let u = ts.update(i, c);
    if i == 0 {
        assert(u[0] == c);
        assert(u.subrange(1, u.len() as int) =~= ts.subrange(1, ts.len() as int));
    } else {
        lemma_terms_size_update(ts.subrange(1, ts.len() as int), i - 1, c);
        assert(u[0] == ts[0]);
        assert(u.subrange(1, u.len() as int) =~= ts.subrange(1, ts.len() as int).update(
            i - 1,
            c,
        ));
        assert(ts.subrange(1, ts.len() as int)[i - 1] == ts[i]);
    }
}

/// Replacing a subterm adjusts the node count by the difference
/// between the old subterm and the new one.
pub proof fn lemma_replace_size(t: TermV, p: Seq<usize>, s: TermV)
    requires
        subterm_at(t, p) is Some,
    ensures
        term_size(replace_at_spec(t, p, s)) + term_size(subterm_at(t, p)->Some_0) == term_size(t)
            + term_size(s),
    decreases p.len(),
{
    if p.len() == 0 {
    } else {
        match t {
            TermV::Variable(_) => {},
            TermV::Application(f, args) => {
                let i = p[0] as int;
                let rest = p.subrange(1, p.len() as int);
                lemma_replace_size(args[i], rest, s);
                lemma_terms_size_update(args, i, replace_at_spec(args[i], rest, s));
            },
        }
    }
}

/// The subterm reached by descending along `path`, one child index per
/// step; nothing when the path leaves the term.
pub open spec fn subterm_at(t: TermV, path: Seq<usize>) -> Option<TermV>
    decreases path.len(),
{
    if path.len() == 0 {
        Some(t)
    } else {
        match t {
            TermV::Variable(_) => None,
            TermV::Application(_, args) => {
                if (path[0] as int) < args.len() {
                    subterm_at(args[path[0] as int], path.subrange(1, path.len() as int))
                } else {
                    None
                }
            },
        }
    }
}

/// The term with the subterm at `path` replaced by `s`; where the path
/// leaves the term, the term is unchanged.
pub open spec fn replace_at_spec(t: TermV, path: Seq<usize>, s: TermV) -> TermV
    decreases path.len(),
{
    if path.len() == 0 {
        s
    } else {
        match t {
            TermV::Variable(_) => t,
            TermV::Application(f, args) => {
                if (path[0] as int) < args.len() {
                    TermV::Application(
                        f,
                        args.update(
                            path[0] as int,
                            replace_at_spec(
                                args[path[0] as int],
                                path.subrange(1, path.len() as int),
                                s,
                            ),
                        ),
                    )
                } else {
                    t
                }
            },
        }
    }
}

/// Replacing a subterm by one of the same output type preserves the
/// typing invariant and the term's own output type.
pub proof fn lemma_replace_preserves_typing(t: TermV, path: Seq<usize>, s: TermV)
    requires
        well_typed(t),
        well_typed(s),
        subterm_at(t, path) is Some,
        term_type_id(subterm_at(t, path)->Some_0) == term_type_id(s),
    ensures
        well_typed(replace_at_spec(t, path, s)),
        term_type_id(replace_at_spec(t, path, s)) == term_type_id(t),
    decreases path.len(),
{
    if path.len() == 0 {
    } else {
        match t {
            TermV::Variable(_) => {},
            TermV::Application(f, args) => {
                let i = path[0] as int;
                let rest = path.subrange(1, path.len() as int);
                lemma_all_well_typed_iff(args);
                lemma_replace_preserves_typing(args[i], rest, s);
                let new_child = replace_at_spec(args[i], rest, s);
                let new_args = args.update(i, new_child);
                lemma_all_well_typed_iff(new_args);
                assert(forall|j: int|
                    0 <= j < new_args.len() && j != i ==> new_args[j] == args[j]);
                assert(types_match(new_args, f.shape.argument_types));
            },
        }
    }
}

impl Term {
    /// The output type of this term.
    pub fn type_id(&self) -> (r: u64)
        ensures
            r == term_type_id(self@),
    {
        match self {
            Term::Variable(v) => v.type_shape.id,
            Term::Application(f, _) => f.shape.return_type.id,
        }
    }

    /// An exact copy of this term: the deep clone of the algebra.
    #[verifier::loop_isolation(false)]
    pub fn deep_clone(&self) -> (r: Term)
        ensures
            r@ == self@,
        decreases self,
    {
        match self {
            Term::Variable(v) => Term::Variable(v.deep_clone()),
            Term::Application(f, args) => {
                let mut out: Vec<Term> = Vec::new();
                let mut i: usize = 0;
                while i < args.len()
                    invariant
                        i <= args.len(),
                        out@.len() == i,
                        forall|j: int| 0 <= j < i ==> out@[j]@ == args@[j]@,
                    decreases args.len() - i,
                {
                    let c = args[i].deep_clone();
                    out.push(c);
                    i += 1;
                }
                let r = Term::Application(f.deep_clone(), out);
                proof {
                    assert(terms_view(out@) =~= terms_view(args@));
                    assert(r@ == self@);
                }
                r
            },
        }
    }

    /// Build an application, rejecting arity or type mismatches: the
    /// construction keeps terms well typed.
    pub fn application(function: Function, children: Vec<Term>) -> (r: Result<Term, Error>)
        ensures
            match r {
                Ok(t) => {
                    &&& t@ == TermV::Application(function@, terms_view(children@))
                    &&& terms_view(children@).len() == function@.shape.argument_types.len()
                    &&& types_match(terms_view(children@), function@.shape.argument_types)
                    &&& (all_well_typed(terms_view(children@)) ==> well_typed(t@))
                },
                Err(e) => {
                    &&& e is Term
                    &&& !(children@.len() == function@.shape.argument_types.len() && types_match(
                        terms_view(children@),
                        function@.shape.argument_types,
                    ))
                },
            },
    {
        if children.len() != function.shape.argument_types.len() {
            return Err(Error::Term("arity mismatch".to_owned()));
        }
        let mut i: usize = 0;
        while i < children.len()
            invariant
                i <= children.len(),
                children@.len() == function@.shape.argument_types.len(),
                forall|j: int|
                    0 <= j < i ==> #[trigger] term_type_id(terms_view(children@)[j])
                        == function@.shape.argument_types[j].id,
            decreases children.len() - i,
        {
            if children[i].type_id() != function.shape.argument_types[i].id {
                proof {
                    assert(term_type_id(terms_view(children@)[i as int]) != function@
                        .shape.argument_types[i as int].id);
                }
                return Err(Error::Term("argument type mismatch".to_owned()));
            }
            i += 1;
        }
        let t = Term::Application(function, children);
        Ok(t)
    }

    /// A variable leaf.
    pub fn variable(v: Variable) -> (r: Term)
        ensures
            r@ == TermV::Variable(v@),
    {
        Term::Variable(v)
    }

    /// The number of nodes of this term, saturating at the machine
    /// limit.
    #[verifier::loop_isolation(false)]
    pub fn size(&self) -> (r: usize)
        ensures
            term_size(self@) <= usize::MAX ==> r as nat == term_size(self@),
            term_size(self@) > usize::MAX ==> r == usize::MAX,
        decreases self,
    {
        match self {
            Term::Variable(_) => 1,
            Term::Application(_, args) => {
                let mut total: usize = 1;
                let ghost argv = terms_view(args@);
                let mut i: usize = 0;
                while i < args.len()
                    invariant
                        i <= args.len(),
                        argv == terms_view(args@),
                        1 + terms_size(argv.subrange(0, i as int)) <= usize::MAX ==> total as nat
                            == 1 + terms_size(argv.subrange(0, i as int)),
                        1 + terms_size(argv.subrange(0, i as int)) > usize::MAX ==> total
                            == usize::MAX,
                    decreases args.len() - i,
                {
                    let cs = args[i].size();
                    proof {
                        assert(argv[i as int] == args@[i as int]@);
                        lemma_terms_size_snoc(argv, i as int);
                    }
                    if total > usize::MAX - cs {
                        total = usize::MAX;
                    } else {
                        total = total + cs;
                    }
                    i += 1;
                }
                proof {
                    assert(argv.subrange(0, argv.len() as int) =~= argv);
                }
                total
            },
        }
    }

    /// A clone of the subterm at `path`, if the path stays inside.
    #[verifier::loop_isolation(false)]
    pub fn subterm_clone(&self, path: &Vec<usize>, from: usize) -> (r: Option<Term>)
        requires
            from <= path@.len(),
        ensures
            match r {
                Some(s) => subterm_at(self@, path@.subrange(from as int, path@.len() as int))
                    == Some(s@),
                None => subterm_at(self@, path@.subrange(from as int, path@.len() as int))
                    is None,
            },
        decreases self,
    {
        if from == path.len() {
            proof {
                assert(path@.subrange(from as int, path@.len() as int).len() == 0);
            }
            return Some(self.deep_clone());
        }
        let ghost p = path@.subrange(from as int, path@.len() as int);
        match self {
            Term::Variable(_) => {
                proof {
                    assert(p.len() > 0);
                }
                None
            },
            Term::Application(f, args) => {
                let idx = path[from];
                if idx < args.len() {
                    let r = args[idx].subterm_clone(path, from + 1);
                    proof {
                        assert(p[0] == path@[from as int]);
                        assert(p.subrange(1, p.len() as int) =~= path@.subrange(
                            from + 1 as int,
                            path@.len() as int,
                        ));
                        assert(terms_view(args@)[idx as int] == args@[idx as int]@);
                    }
                    r
                } else {
                    proof {
                        assert(p[0] == path@[from as int]);
                        assert(terms_view(args@).len() == args@.len());
                    }
                    None
                }
            },
        }
    }

    /// The term with the subterm at `path` replaced by `s`; answers
    /// nothing when the path leaves the term, and the term is unchanged.
    #[verifier::loop_isolation(false)]
    pub fn replace_at(&self, path: &Vec<usize>, from: usize, s: &Term) -> (r: Option<Term>)
        requires
            from <= path@.len(),
        ensures
            match r {
                Some(t) => {
                    &&& subterm_at(self@, path@.subrange(from as int, path@.len() as int))
                        is Some
                    &&& t@ == replace_at_spec(
                        self@,
                        path@.subrange(from as int, path@.len() as int),
                        s@,
                    )
                },
                None => subterm_at(self@, path@.subrange(from as int, path@.len() as int))
                    is None,
            },
        decreases self,
    {
        let ghost p = path@.subrange(from as int, path@.len() as int);
        if from == path.len() {
            proof {
                assert(p.len() == 0);
            }
            return Some(s.deep_clone());
        }
        match self {
            Term::Variable(_) => {
                proof {
                    assert(p.len() > 0);
                }
                None
            },
            Term::Application(f, args) => {
                let idx = path[from];
                proof {
                    assert(p[0] == path@[from as int]);
                    assert(p.subrange(1, p.len() as int) =~= path@.subrange(
                        from + 1 as int,
                        path@.len() as int,
                    ));
                }
                if idx < args.len() {
                    let new_child = args[idx].replace_at(path, from + 1, s);
                    match new_child {
                        None => {
                            proof {
                                assert(terms_view(args@)[idx as int] == args@[idx as int]@);
                            }
                            None
                        },
                        Some(nc) => {
                            let mut out: Vec<Term> = Vec::new();
                            let mut i: usize = 0;
                            while i < args.len()
                                invariant
                                    i <= args.len(),
                                    idx < args.len(),
                                    out@.len() == i,
                                    forall|j: int|
                                        0 <= j < i && j != idx ==> out@[j]@ == args@[j]@,
                                    forall|j: int| 0 <= j < i && j == idx ==> out@[j]@ == nc@,
                                    nc@ == replace_at_spec(args@[idx as int]@, p.subrange(1, p.len() as int), s@),
                                decreases args.len() - i,
                            {
                                if i == idx {
                                    out.push(nc.deep_clone());
                                } else {
                                    out.push(args[i].deep_clone());
                                }
                                i += 1;
                            }
                            let r = Term::Application(f.deep_clone(), out);
                            proof {
                                let argv = terms_view(args@);
                                assert(argv[idx as int] == args@[idx as int]@);
                                assert(terms_view(out@) =~= argv.update(idx as int, nc@));
                                assert(r@ == replace_at_spec(self@, p, s@));
                            }
                            Some(r)
                        },
                    }
                } else {
                    proof {
                        assert(terms_view(args@).len() == args@.len());
                    }
                    None
                }
            },
        }
    }
}

proof fn lemma_terms_size_snoc(ts: Seq<TermV>, i: int)
    requires
        0 <= i < ts.len(),
    ensures
        terms_size(ts.subrange(0, i + 1)) == terms_size(ts.subrange(0, i)) + term_size(ts[i]),
    decreases i,
{
    let a = ts.subrange(0, i + 1);
    let b = ts.subrange(0, i);
    if i == 0 {
        assert(a.subrange(1, a.len() as int) =~= Seq::<TermV>::empty());
        assert(b =~= Seq::<TermV>::empty());
    } else {
        lemma_terms_size_snoc(ts.subrange(1, ts.len() as int), i - 1);
        assert(a.subrange(1, a.len() as int) =~= ts.subrange(1, ts.len() as int).subrange(
            0,
            i,
        ));
        assert(b.subrange(1, b.len() as int) =~= ts.subrange(1, ts.len() as int).subrange(
            0,
            i - 1,
        ));
    }
}

/// Decide the typing invariant of a term.
#[verifier::loop_isolation(false)]
pub fn check_well_typed(t: &Term) -> (r: bool)
    ensures
        r == well_typed(t@),
    decreases t,
{
    match t {
        Term::Variable(_) => true,
        Term::Application(f, args) => {
            let ghost argv = terms_view(args@);
            proof {
                lemma_all_well_typed_iff(argv);
            }
            if args.len() != f.shape.argument_types.len() {
                proof {
                    assert(argv.len() == args@.len());
                    assert(f@.shape.argument_types.len() == f.shape.argument_types@.len());
                }
                return false;
            }
            let mut i: usize = 0;
            while i < args.len()
                invariant
                    i <= args.len(),
                    args@.len() == f.shape.argument_types@.len(),
                    forall|j: int|
                        0 <= j < i ==> #[trigger] term_type_id(argv[j]) == f@
                            .shape.argument_types[j].id,
                    forall|j: int| 0 <= j < i ==> #[trigger] well_typed(argv[j]),
                decreases args.len() - i,
            {
                proof {
                    assert(argv[i as int] == args@[i as int]@);
                    assert(f@.shape.argument_types[i as int] == f.shape.argument_types@[
                        i as int]@);
                }
                if args[i].type_id() != f.shape.argument_types[i].id {
                    proof {
                        assert(term_type_id(argv[i as int]) != f@.shape.argument_types[
                            i as int].id);
                        assert(!types_match(argv, f@.shape.argument_types));
                    }
                    return false;
                }
                if !check_well_typed(&args[i]) {
                    proof {
                        assert(!well_typed(argv[i as int]));
                        assert(!all_well_typed(argv));
                    }
                    return false;
                }
                proof {
                    assert forall|j: int|
                        0 <= j < i + 1 implies #[trigger] term_type_id(argv[j]) == f@
                            .shape.argument_types[j].id by {
                        if j == i {
                            assert(argv[j] == args@[j]@);
                            assert(term_type_id(argv[j]) == f@.shape.argument_types[j].id);
                        }
                    }
                    assert forall|j: int| 0 <= j < i + 1 implies #[trigger] well_typed(
                        argv[j],
                    ) by {
                        if j == i {
                            assert(argv[j] == args@[j]@);
                            assert(well_typed(argv[j]));
                        }
                    }
                }
                i += 1;
            }
            proof {
                assert(types_match(argv, f@.shape.argument_types));
            }
            true
        },
    }
}

/// Whether `p` is a prefix of `q`.
pub open spec fn path_is_prefix(p: Seq<usize>, q: Seq<usize>) -> bool {
    p.len() <= q.len() && q.subrange(0, p.len() as int) == p
}

/// Whether `p` is a prefix of `q`, decided on path values.
pub fn check_path_prefix(p: &Vec<usize>, q: &Vec<usize>) -> (r: bool)
    ensures
        r == path_is_prefix(p@, q@),
{
    if p.len() > q.len() {
        proof {
            assert(!path_is_prefix(p@, q@));
        }
        return false;
    }
    let mut i: usize = 0;
    while i < p.len()
        invariant
            i <= p@.len(),
            p@.len() <= q@.len(),
            forall|j: int| 0 <= j < i ==> p@[j] == q@[j],
        decreases p@.len() - i,
    {
        if p[i] != q[i] {
            proof {
                assert(q@.subrange(0, p@.len() as int)[i as int] == q@[i as int]);
            }
            return false;
        }
        i += 1;
    }
    proof {
        assert(q@.subrange(0, p@.len() as int) =~= p@);
    }
    true
}

/// Whether two paths lead into disjoint subtrees: neither is a prefix
/// of the other.
pub open spec fn paths_disjoint(p: Seq<usize>, q: Seq<usize>) -> bool {
    !path_is_prefix(p, q) && !path_is_prefix(q, p)
}

/// The subterm one step below `p`: the `j`-th child of the application
/// at `p`.
pub proof fn lemma_subterm_push(t: TermV, p: Seq<usize>, j: usize)
    ensures
        subterm_at(t, p.push(j)) == (match subterm_at(t, p) {
            Some(s) => match s {
                TermV::Application(_, args) => if (j as int) < args.len() {
                    Some(args[j as int])
                } else {
                    None::<TermV>
                },
                TermV::Variable(_) => None::<TermV>,
            },
            None => None::<TermV>,
        }),
    decreases p.len(),
{
    let q = p.push(j);
    if p.len() == 0 {
        assert(q[0] == j);
        assert(q.subrange(1, q.len() as int) =~= Seq::<usize>::empty());
        match t {
            TermV::Variable(_) => {},
            TermV::Application(_, args) => {
                if (j as int) < args.len() {
                    assert(subterm_at(args[j as int], q.subrange(1, q.len() as int)) == Some(
                        args[j as int],
                    ));
                }
            },
        }
    } else {
        match t {
            TermV::Variable(_) => {
                assert(q.len() > 0);
            },
            TermV::Application(_, args) => {
                assert(q[0] == p[0]);
                if (p[0] as int) < args.len() {
                    assert(q.subrange(1, q.len() as int) =~= p.subrange(
                        1,
                        p.len() as int,
                    ).push(j));
                    lemma_subterm_push(args[p[0] as int], p.subrange(1, p.len() as int), j);
                }
            },
        }
    }
}

/// Replacing below one path leaves the subterm at a disjoint path
/// untouched.
pub proof fn lemma_replace_disjoint(t: TermV, p1: Seq<usize>, s: TermV, p2: Seq<usize>)
    requires
        subterm_at(t, p1) is Some,
        subterm_at(t, p2) is Some,
        paths_disjoint(p1, p2),
    ensures
        subterm_at(replace_at_spec(t, p1, s), p2) == subterm_at(t, p2),
    decreases p1.len(),
{
    if p1.len() == 0 {
        assert(p2.subrange(0, p1.len() as int) =~= p1);
        assert(path_is_prefix(p1, p2));
    } else if p2.len() == 0 {
        assert(p1.subrange(0, p2.len() as int) =~= p2);
        assert(path_is_prefix(p2, p1));
    } else {
        match t {
            TermV::Variable(_) => {},
            TermV::Application(f, args) => {
                let i1 = p1[0] as int;
                let i2 = p2[0] as int;
                let r1 = p1.subrange(1, p1.len() as int);
                let r2 = p2.subrange(1, p2.len() as int);
                let new_child = replace_at_spec(args[i1], r1, s);
                let new_args = args.update(i1, new_child);
                if i1 == i2 {
                    assert(paths_disjoint(r1, r2)) by {
                        if path_is_prefix(r1, r2) {
                            assert(p2.subrange(0, p1.len() as int) =~= seq![p1[0]] + r2.subrange(
                                0,
                                r1.len() as int,
                            ));
                            assert(p1 =~= seq![p1[0]] + r1);
                            assert(path_is_prefix(p1, p2));
                        }
                        if path_is_prefix(r2, r1) {
                            assert(p1.subrange(0, p2.len() as int) =~= seq![p2[0]] + r1.subrange(
                                0,
                                r2.len() as int,
                            ));
                            assert(p2 =~= seq![p2[0]] + r2);
                            assert(path_is_prefix(p2, p1));
                        }
                    }
                    lemma_replace_disjoint(args[i1], r1, s, r2);
                    assert(new_args[i2] == new_child);
                } else {
                    assert(new_args[i2] == args[i2]);
                }
            },
        }
    }
}

/// Every subterm of a well-typed term is well typed.
pub proof fn lemma_subterm_well_typed(t: TermV, path: Seq<usize>)
    requires
        well_typed(t),
        subterm_at(t, path) is Some,
    ensures
        well_typed(subterm_at(t, path)->Some_0),
    decreases path.len(),
{
    if path.len() == 0 {
    } else {
        match t {
            TermV::Variable(_) => {},
            TermV::Application(f, args) => {
                let i = path[0] as int;
                lemma_all_well_typed_iff(args);
                lemma_subterm_well_typed(args[i], path.subrange(1, path.len() as int));
            },
        }
    }
}

/// Every path to a subterm of `t`, prefixed by `prefix`, in a fixed
/// depth-first order; the answered paths are exactly the valid ones.
#[verifier::loop_isolation(false)]
pub fn all_subterm_paths(t: &Term, prefix: &Vec<usize>, out: &mut Vec<Vec<usize>>)
    ensures
        final(out)@.len() >= old(out)@.len(),
        forall|k: int|
            0 <= k < old(out)@.len() ==> final(out)@[k] == old(out)@[k],
        forall|k: int|
            old(out)@.len() <= k < final(out)@.len() ==> (#[trigger] final(out)@[k]@).len()
                >= prefix@.len() && final(out)@[k]@.subrange(0, prefix@.len() as int) == prefix@
                && subterm_at(t@, final(out)@[k]@.subrange(
                prefix@.len() as int,
                final(out)@[k]@.len() as int,
            )) is Some,
        forall|p: Seq<usize>|
            #[trigger] subterm_at(t@, p) is Some ==> exists|k: int|
                old(out)@.len() <= k < final(out)@.len() && (#[trigger] final(out)@[k])@
                    == prefix@ + p,
    decreases t,
{
    let me = clone_path(prefix);
    proof {
        assert(me@.subrange(0, prefix@.len() as int) =~= prefix@);
        assert(me@.subrange(prefix@.len() as int, me@.len() as int) =~= Seq::<usize>::empty());
    }
    let ghost base_len = out@.len();
    out.push(me);
    proof {
        assert(out@[base_len as int]@ =~= prefix@ + Seq::<usize>::empty());
    }
    match t {
        Term::Variable(_) => {
            proof {
                assert forall|p: Seq<usize>| #[trigger] subterm_at(t@, p) is Some implies exists|
                    k: int,
                |
                    base_len <= k < out@.len() && (#[trigger] out@[k])@ == prefix@ + p by {
                    assert(p.len() == 0);
                    assert(out@[base_len as int]@ == prefix@ + p);
                }
            }
        },
        Term::Application(_, args) => {
            let mut i: usize = 0;
            while i < args.len()
                invariant
                    i <= args.len(),
                    out@.len() > base_len,
                    forall|k: int| 0 <= k < base_len ==> out@[k] == old(out)@[k],
                    forall|k: int|
                        base_len <= k < out@.len() ==> (#[trigger] out@[k]@).len()
                            >= prefix@.len() && out@[k]@.subrange(0, prefix@.len() as int)
                            == prefix@ && subterm_at(t@, out@[k]@.subrange(
                            prefix@.len() as int,
                            out@[k]@.len() as int,
                        )) is Some,
                    forall|p: Seq<usize>|
                        (#[trigger] subterm_at(t@, p) is Some && (p.len() == 0 || p[0] < i))
                            ==> exists|k: int|
                            base_len <= k < out@.len() && (#[trigger] out@[k])@ == prefix@
                                + p,
                decreases args.len() - i,
            {
                let mut child_prefix = clone_path(prefix);
                child_prefix.push(i);
                let ghost pre_len = out@.len();
                all_subterm_paths(&args[i], &child_prefix, out);
                proof {
                    let argv = terms_view(args@);
                    assert(argv[i as int] == args@[i as int]@);
                    assert forall|k: int| pre_len <= k < out@.len() implies (
                    #[trigger] out@[k]@).len() >= prefix@.len() && out@[k]@.subrange(
                        0,
                        prefix@.len() as int,
                    ) == prefix@ && subterm_at(t@, out@[k]@.subrange(
                        prefix@.len() as int,
                        out@[k]@.len() as int,
                    )) is Some by {
                        let p = out@[k]@;
                        assert(p.len() >= child_prefix@.len());
                        assert(p.subrange(0, child_prefix@.len() as int) == child_prefix@);
                        assert(p.subrange(0, prefix@.len() as int) =~= child_prefix@.subrange(
                            0,
                            prefix@.len() as int,
                        ));
                        assert(child_prefix@.subrange(0, prefix@.len() as int) =~= prefix@);
                        let rel = p.subrange(prefix@.len() as int, p.len() as int);
                        assert(rel.len() > 0);
                        assert(rel[0] == p[prefix@.len() as int]);
                        assert(p[prefix@.len() as int] == child_prefix@[prefix@.len() as int]);
                        assert(child_prefix@[prefix@.len() as int] == i as usize);
                        assert(rel.subrange(1, rel.len() as int) =~= p.subrange(
                            child_prefix@.len() as int,
                            p.len() as int,
                        ));
                        assert(subterm_at(args@[i as int]@, p.subrange(
                            child_prefix@.len() as int,
                            p.len() as int,
                        )) is Some);
                        assert(subterm_at(t@, rel) is Some);
                    }
                    assert forall|p: Seq<usize>|
                        (#[trigger] subterm_at(t@, p) is Some && (p.len() == 0 || p[0] < i
                            + 1)) implies exists|k: int|
                        base_len <= k < out@.len() && (#[trigger] out@[k])@ == prefix@ + p by {
                        if p.len() == 0 || p[0] < i {
                        } else {
                            assert(p.len() > 0 && p[0] == i);
                            let rest = p.subrange(1, p.len() as int);
                            assert(subterm_at(t@, p) == subterm_at(argv[i as int], rest));
                            assert(subterm_at(args@[i as int]@, rest) is Some);
                            let k = choose|k: int|
                                pre_len <= k < out@.len() && (#[trigger] out@[k])@
                                    == child_prefix@ + rest;
                            assert(out@[k]@ == child_prefix@ + rest);
                            assert(child_prefix@ =~= prefix@.push(i as usize));
                            assert(p =~= seq![p[0]] + rest);
                            assert(out@[k]@ =~= prefix@ + p);
                        }
                    }
                }
                i += 1;
            }
            proof {
                assert forall|p: Seq<usize>| #[trigger] subterm_at(t@, p) is Some implies exists|
                    k: int,
                |
                    base_len <= k < out@.len() && (#[trigger] out@[k])@ == prefix@ + p by {
                    if p.len() > 0 {
                        assert((p[0] as int) < terms_view(args@).len());
                        assert(terms_view(args@).len() == args@.len());
                    }
                }
            }
        },
    }
}

/// An exact copy of a path.
pub fn clone_path(p: &Vec<usize>) -> (r: Vec<usize>)
    ensures
        r@ == p@,
{
    crate::util::clone_copy_vec(p)
}

} // verus!
