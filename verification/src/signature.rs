//! The signature: the immutable catalog of every function symbol and
//! every type the term algebra may use.
//!
//! A signature is built once at start-up and then only read.  Serialized
//! terms reference symbols and types by name, so the catalog also acts as
//! the name table of the deserializer.

use vstd::prelude::*;
use crate::agent::AgentName;
use crate::msgs::TlsMessageType;
use crate::term::Function;
use crate::term::FunctionV;
use crate::term::QueryId;
use crate::term::Variable;
use crate::term::VariableV;
use crate::types::DynamicFunctionShape;
use crate::types::TypeShape;
use crate::types::TypeShapeV;
use crate::dynamic_function::DynamicFunction;
use crate::util::str_eq;

verus! {

/// One entry of the catalog: a shape paired with its erased callable.
pub type FunctionDefinition = Function;

/// The views of a list of function definitions, in order.
pub open spec fn functions_view(s: Seq<Function>) -> Seq<FunctionV> {
    Seq::new(s.len(), |i: int| s[i]@)
}

/// The views of a list of type shapes, in order.
pub open spec fn type_shapes_view(s: Seq<TypeShape>) -> Seq<TypeShapeV> {
    Seq::new(s.len(), |i: int| s[i]@)
}

/// Model of a [`Signature`].
pub struct SignatureV {
    pub functions: Seq<FunctionV>,
    pub types_by_name: Seq<TypeShapeV>,
}

/// Whether a type with the given identifier is in the table.
pub open spec fn type_id_in(types: Seq<TypeShapeV>, id: u64) -> bool {
    exists|k: int| 0 <= k < types.len() && types[k].id == id
}

/// Whether some definition mentions the given type identifier, as its
/// return type or among its argument types.
pub open spec fn type_id_used(fns: Seq<FunctionV>, id: u64) -> bool {
    exists|i: int|
        0 <= i < fns.len() && ((#[trigger] fns[i]).shape.return_type.id == id || exists|j: int|
            0 <= j < fns[i].shape.argument_types.len() && fns[i].shape.argument_types[j].id
                == id)
}

/// Every type a shape mentions is in the table, by identifier.
pub open spec fn shape_types_in(f: FunctionV, types: Seq<TypeShapeV>) -> bool {
    &&& type_id_in(types, f.shape.return_type.id)
    &&& forall|j: int|
        0 <= j < f.shape.argument_types.len() ==> type_id_in(
            types,
            (#[trigger] f.shape.argument_types[j]).id,
        )
}

/// Well-formedness of a signature: unique symbol names, and unique type
/// identifiers naming consistent types.
pub open spec fn sig_wf(s: SignatureV) -> bool {
    &&& forall|i: int, j: int|
        0 <= i < j < s.functions.len() ==> (#[trigger] s.functions[i]).shape.name != (
        #[trigger] s.functions[j]).shape.name
    &&& forall|i: int, j: int|
        0 <= i < j < s.types_by_name.len() ==> (#[trigger] s.types_by_name[i]).name != (
        #[trigger] s.types_by_name[j]).name
}

/// The first definition with the given name, scanning in order.
pub open spec fn find_by_name(fns: Seq<FunctionV>, name: Seq<char>) -> Option<FunctionV>
    decreases fns.len(),
{
    if fns.len() == 0 {
        None
    } else if fns[0].shape.name == name {
        Some(fns[0])
    } else {
        find_by_name(fns.subrange(1, fns.len() as int), name)
    }
}

proof fn lemma_find_by_name_step(fns: Seq<FunctionV>, name: Seq<char>, i: int)
    requires
        0 <= i < fns.len(),
        fns[i].shape.name != name,
    ensures
        find_by_name(fns.subrange(i, fns.len() as int), name) == find_by_name(
            fns.subrange(i + 1, fns.len() as int),
            name,
        ),
{
    let s = fns.subrange(i, fns.len() as int);
    assert(s[0] == fns[i]);
    assert(s.subrange(1, s.len() as int) =~= fns.subrange(i + 1, fns.len() as int));
}

/// The first type with the given name, scanning in order.
pub open spec fn find_type_by_name(types: Seq<TypeShapeV>, name: Seq<char>) -> Option<TypeShapeV>
    decreases types.len(),
{
    if types.len() == 0 {
        None
    } else if types[0].name == name {
        Some(types[0])
    } else {
        find_type_by_name(types.subrange(1, types.len() as int), name)
    }
}

proof fn lemma_find_type_by_name_step(types: Seq<TypeShapeV>, name: Seq<char>, i: int)
    requires
        0 <= i < types.len(),
        types[i].name != name,
    ensures
        find_type_by_name(types.subrange(i, types.len() as int), name) == find_type_by_name(
            types.subrange(i + 1, types.len() as int),
            name,
        ),
{
    let s = types.subrange(i, types.len() as int);
    assert(s[0] == types[i]);
    assert(s.subrange(1, s.len() as int) =~= types.subrange(i + 1, types.len() as int));
}

/// The catalog of all function symbols, indexed for lookup by name and
/// by return type, together with every type they mention.
#[derive(Debug)]
pub struct Signature {
    pub functions: Vec<FunctionDefinition>,
    pub types_by_name: Vec<TypeShape>,
}

impl View for Signature {
    type V = SignatureV;

    open spec fn view(&self) -> SignatureV {
        SignatureV {
            functions: functions_view(self.functions@),
            types_by_name: type_shapes_view(self.types_by_name@),
        }
    }
}

impl Signature {
    /// Build the catalog from its definitions.  The type table receives
    /// every type any shape mentions, first occurrence of each
    /// identifier kept.
    pub fn new(definitions: Vec<FunctionDefinition>) -> (r: Signature)
        ensures
            r@.functions == functions_view(definitions@),
            forall|i: int|
                0 <= i < r@.functions.len() ==> shape_types_in(
                    #[trigger] r@.functions[i],
                    r@.types_by_name,
                ),
            forall|k: int|
                0 <= k < r@.types_by_name.len() ==> type_id_used(
                    functions_view(definitions@),
                    (#[trigger] r@.types_by_name[k]).id,
                ),
    {
        let mut types_by_name: Vec<TypeShape> = Vec::new();
        let mut i: usize = 0;
        while i < definitions.len()
            invariant
                i <= definitions.len(),
                forall|k: int|
                    0 <= k < i ==> shape_types_in(
                        #[trigger] functions_view(definitions@)[k],
                        type_shapes_view(types_by_name@),
                    ),
                forall|k: int|
                    0 <= k < type_shapes_view(types_by_name@).len() ==> type_id_used(
                        functions_view(definitions@),
                        (#[trigger] type_shapes_view(types_by_name@)[k]).id,
                    ),
            decreases definitions.len() - i,
        {
            let ghost pre = type_shapes_view(types_by_name@);
            proof {
                assert(functions_view(definitions@)[i as int] == definitions@[i as int]@);
                assert(type_id_used(
                    functions_view(definitions@),
                    definitions@[i as int]@.shape.return_type.id,
                ));
            }
            add_type(&mut types_by_name, &definitions[i].shape.return_type);
            let mut j: usize = 0;
            while j < definitions[i].shape.argument_types.len()
                invariant
                    i < definitions@.len(),
                    j <= definitions@[i as int].shape.argument_types@.len(),
                    forall|k: int|
                        0 <= k < i ==> shape_types_in(
                            #[trigger] functions_view(definitions@)[k],
                            type_shapes_view(types_by_name@),
                        ),
                    type_id_in(
                        type_shapes_view(types_by_name@),
                        definitions@[i as int]@.shape.return_type.id,
                    ),
                    forall|l: int|
                        0 <= l < j ==> type_id_in(
                            type_shapes_view(types_by_name@),
                            (#[trigger] definitions@[i as int]@.shape.argument_types[l]).id,
                        ),
                    forall|k: int|
                        0 <= k < type_shapes_view(types_by_name@).len() ==> type_id_used(
                            functions_view(definitions@),
                            (#[trigger] type_shapes_view(types_by_name@)[k]).id,
                        ),
                decreases definitions@[i as int].shape.argument_types@.len() - j,
            {
                proof {
                    assert(definitions@[i as int]@.shape.argument_types[j as int]
                        == definitions@[i as int].shape.argument_types@[j as int]@);
                    assert(functions_view(definitions@)[i as int] == definitions@[i as int]@);
                    assert(type_id_used(
                        functions_view(definitions@),
                        definitions@[i as int]@.shape.argument_types[j as int].id,
                    ));
                }
                add_type(&mut types_by_name, &definitions[i].shape.argument_types[j]);
                j += 1;
            }
            proof {
                assert(shape_types_in(
                    functions_view(definitions@)[i as int],
                    type_shapes_view(types_by_name@),
                ));
            }
            i += 1;
        }
        let r = Signature { functions: definitions, types_by_name };
        r
    }

    /// Make a symbol from its shape and callable.
    pub fn new_function(shape: DynamicFunctionShape, dynamic_fn: DynamicFunction) -> (r: Function)
        ensures
            r@ == (FunctionV { shape: shape@, dynamic_fn: dynamic_fn@ }),
    {
        Function::new(shape, dynamic_fn)
    }

    /// Make a variable of the given type bound to the given query.
    pub fn new_var(type_shape: TypeShape, query_id: QueryId) -> (r: Variable)
        ensures
            r@ == (VariableV { type_shape: type_shape@, query: query_id }),
    {
        Variable::new(type_shape, query_id)
    }

    /// Make a variable from the parts of its query.
    pub fn new_var_by_type_id(
        type_shape: TypeShape,
        agent_name: AgentName,
        tls_message_type: Option<TlsMessageType>,
        counter: u16,
    ) -> (r: Variable)
        ensures
            r@ == (VariableV {
                type_shape: type_shape@,
                query: QueryId { agent_name, tls_message_type, counter },
            }),
    {
        Variable::new(type_shape, QueryId { agent_name, tls_message_type, counter })
    }

    /// The first definition with the given name, cloned out; nothing
    /// when the name is unknown.
    pub fn lookup_by_name(&self, name: &str) -> (r: Option<FunctionDefinition>)
        ensures
            match r {
                Some(d) => find_by_name(self@.functions, name@) == Some(d@),
                None => find_by_name(self@.functions, name@) is None,
            },
    {
        let ghost fns = self@.functions;
        proof {
            assert(fns.subrange(0, fns.len() as int) =~= fns);
        }
        let mut i: usize = 0;
        while i < self.functions.len()
            invariant
                i <= self.functions@.len(),
                fns == self@.functions,
                find_by_name(fns, name@) == find_by_name(
                    fns.subrange(i as int, fns.len() as int),
                    name@,
                ),
            decreases self.functions@.len() - i,
        {
            proof {
                assert(fns[i as int] == self.functions@[i as int]@);
            }
            if str_eq(self.functions[i].shape.name.as_str(), name) {
                let d = self.functions[i].deep_clone();
                proof {
                    let s = fns.subrange(i as int, fns.len() as int);
                    assert(s[0] == fns[i as int]);
                }
                return Some(d);
            }
            proof {
                lemma_find_by_name_step(fns, name@, i as int);
            }
            i += 1;
        }
        proof {
            assert(fns.subrange(i as int, fns.len() as int).len() == 0);
        }
        None
    }

    /// The first type with the given name, cloned out.
    pub fn lookup_type_by_name(&self, name: &str) -> (r: Option<TypeShape>)
        ensures
            match r {
                Some(t) => find_type_by_name(self@.types_by_name, name@) == Some(t@),
                None => find_type_by_name(self@.types_by_name, name@) is None,
            },
    {
        let ghost types = self@.types_by_name;
        proof {
            assert(types.subrange(0, types.len() as int) =~= types);
        }
        let mut i: usize = 0;
        while i < self.types_by_name.len()
            invariant
                i <= self.types_by_name@.len(),
                types == self@.types_by_name,
                find_type_by_name(types, name@) == find_type_by_name(
                    types.subrange(i as int, types.len() as int),
                    name@,
                ),
            decreases self.types_by_name@.len() - i,
        {
            proof {
                assert(types[i as int] == self.types_by_name@[i as int]@);
            }
            if str_eq(self.types_by_name[i].name.as_str(), name) {
                let t = self.types_by_name[i].deep_clone();
                proof {
                    let s = types.subrange(i as int, types.len() as int);
                    assert(s[0] == types[i as int]);
                }
                return Some(t);
            }
            proof {
                lemma_find_type_by_name_step(types, name@, i as int);
            }
            i += 1;
        }
        proof {
            assert(types.subrange(i as int, types.len() as int).len() == 0);
        }
        None
    }

    /// Every definition whose return type matches, in catalog order.
    pub fn functions_returning(&self, type_id: u64) -> (r: Vec<FunctionDefinition>)
        ensures
            functions_view(r@) == filter_returning(self@.functions, type_id),
    {
        let ghost fns = self@.functions;
        let mut out: Vec<FunctionDefinition> = Vec::new();
        let mut i: usize = 0;
        while i < self.functions.len()
            invariant
                i <= self.functions@.len(),
                fns == self@.functions,
                functions_view(out@) == filter_returning(fns.subrange(0, i as int), type_id),
            decreases self.functions@.len() - i,
        {
            proof {
                assert(fns[i as int] == self.functions@[i as int]@);
                lemma_filter_returning_snoc(fns, type_id, i as int);
            }
            if self.functions[i].shape.return_type.id == type_id {
                out.push(self.functions[i].deep_clone());
                proof {
                    assert(functions_view(out@) =~= filter_returning(
                        fns.subrange(0, i + 1 as int),
                        type_id,
                    ));
                }
            } else {
                proof {
                    assert(functions_view(out@) =~= filter_returning(
                        fns.subrange(0, i + 1 as int),
                        type_id,
                    ));
                }
            }
            i += 1;
        }
        proof {
            assert(fns.subrange(0, fns.len() as int) =~= fns);
        }
        out
    }

    /// All definitions, for random sampling.
    pub fn all_functions(&self) -> (r: &Vec<FunctionDefinition>)
        ensures
            functions_view(r@) == self@.functions,
    {
        &self.functions
    }
}

/// The definitions returning the given type, in order.
pub open spec fn filter_returning(fns: Seq<FunctionV>, type_id: u64) -> Seq<FunctionV>
    decreases fns.len(),
{
    if fns.len() == 0 {
        Seq::empty()
    } else if fns[0].shape.return_type.id == type_id {
        seq![fns[0]] + filter_returning(fns.subrange(1, fns.len() as int), type_id)
    } else {
        filter_returning(fns.subrange(1, fns.len() as int), type_id)
    }
}

proof fn lemma_filter_returning_snoc(fns: Seq<FunctionV>, type_id: u64, i: int)
    requires
        0 <= i < fns.len(),
    ensures
        filter_returning(fns.subrange(0, i + 1), type_id) == if fns[i].shape.return_type.id
            == type_id {
            filter_returning(fns.subrange(0, i), type_id) + seq![fns[i]]
        } else {
            filter_returning(fns.subrange(0, i), type_id)
        },
    decreases i,
{
    let a = fns.subrange(0, i + 1);
    let b = fns.subrange(0, i);
    if i == 0 {
        assert(a.subrange(1, a.len() as int) =~= Seq::<FunctionV>::empty());
        assert(b =~= Seq::<FunctionV>::empty());
        if fns[0].shape.return_type.id == type_id {
            assert(filter_returning(a, type_id) =~= filter_returning(b, type_id) + seq![fns[0]]);
        }
    } else {
        lemma_filter_returning_snoc(fns.subrange(1, fns.len() as int), type_id, i - 1);
        assert(a.subrange(1, a.len() as int) =~= fns.subrange(1, fns.len() as int).subrange(
            0,
            i,
        ));
        assert(b.subrange(1, b.len() as int) =~= fns.subrange(1, fns.len() as int).subrange(
            0,
            i - 1,
        ));
        if fns[i].shape.return_type.id == type_id {
            assert(filter_returning(a, type_id) =~= filter_returning(b, type_id) + seq![fns[i]]);
        } else {
            assert(filter_returning(a, type_id) =~= filter_returning(b, type_id));
        }
    }
}

/// Add a type to the table unless its identifier is already there.
fn add_type(types: &mut Vec<TypeShape>, t: &TypeShape)
    ensures
        type_id_in(type_shapes_view(final(types)@), t@.id),
        forall|id: u64|
            type_id_in(type_shapes_view(old(types)@), id) ==> type_id_in(
                type_shapes_view(final(types)@),
                id,
            ),
        forall|k: int|
            0 <= k < old(types)@.len() ==> type_shapes_view(final(types)@)[k]
                == type_shapes_view(old(types)@)[k],
        type_shapes_view(final(types)@).len() == type_shapes_view(old(types)@).len()
            || (type_shapes_view(final(types)@).len() == type_shapes_view(old(types)@).len() + 1
            && type_shapes_view(final(types)@)[old(types)@.len() as int] == t@),
{
    let ghost pre = type_shapes_view(types@);
    let mut i: usize = 0;
    while i < types.len()
        invariant
            i <= types@.len(),
            pre == type_shapes_view(types@),
            forall|k: int| 0 <= k < i ==> pre[k].id != t@.id,
        decreases types@.len() - i,
    {
        proof {
            assert(pre[i as int] == types@[i as int]@);
        }
        if types[i].id == t.id {
            proof {
                assert(type_id_in(type_shapes_view(types@), t@.id));
            }
            return ;
        }
        i += 1;
    }
    types.push(t.deep_clone());
    proof {
        let post = type_shapes_view(types@);
        assert(post[post.len() - 1].id == t@.id);
        assert(forall|k: int| 0 <= k < pre.len() ==> post[k] == pre[k]);
    }
}

} // verus!
