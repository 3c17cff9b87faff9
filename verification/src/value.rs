use vstd::prelude::*;

use crate::error::PickleError;

verus! {

broadcast use vstd::std_specs::vec::axiom_vec_index_decreases, vstd::std_specs::vec::axiom_vec_decreases_to_view, vstd::seq::axiom_seq_index_decreases;

/// A qualified identifier: the (module, name) pair under which a stream
/// refers to an external symbol.
#[derive(Debug, PartialEq)]
pub struct Global {
    pub module: String,
    pub name: String,
}

/// The mathematical shape of a [`Global`]: the two name components as
/// character sequences. Equality is structural on the two components.
pub struct GlobalModel {
    pub module: Seq<char>,
    pub name: Seq<char>,
}

impl View for Global {
    type V = GlobalModel;

    open spec fn view(&self) -> GlobalModel {
        GlobalModel { module: self.module@, name: self.name@ }
    }
}

impl Global {
    /// Structural equality on the two name components.
    pub fn matches(&self, other: &Global) -> (r: bool)
        ensures
            r == (self@ == other@),
    {
        self.module == other.module && self.name == other.name
    }

    /// An owned copy with the same two components.
    pub fn duplicate(&self) -> (r: Global)
        ensures
            r@ == self@,
    {
        Global { module: self.module.clone(), name: self.name.clone() }
    }
}

/// The closed set of built-in safe constructors that a [`Function`] may
/// dispatch to. Only constructors listed here can ever run.
#[derive(Debug, Clone, Copy, PartialEq, Eq, Structural)]
pub enum Constructor {
    /// Builds the distinguished ordered-association container from an empty
    /// argument tuple.
    OrderedDict,
}

/// A registered safe callable: a display name paired with the built-in
/// constructor it dispatches to.
#[derive(Debug, PartialEq)]
pub struct Function {
    pub name: String,
    pub def: Constructor,
}

/// The mathematical shape of a [`Function`].
pub struct FunctionModel {
    pub name: Seq<char>,
    pub def: Constructor,
}

impl View for Function {
    type V = FunctionModel;

    open spec fn view(&self) -> FunctionModel {
        FunctionModel { name: self.name@, def: self.def }
    }
}

impl Function {
    /// Wraps a built-in constructor under a display name.
    pub fn from_fn(name: String, def: Constructor) -> (r: Function)
        ensures
            r@ == (FunctionModel { name: name@, def }),
    {
        Function { name, def }
    }
}

/// An ordered association container with duplicate keys and insertion order
/// preserved, as dict-building instructions may legally produce both.
#[derive(Debug, PartialEq)]
pub struct Dict(pub Vec<(Value, Value)>);

/// The distinguished ordered-association container built by the registered
/// `collections.OrderedDict` constructor.
#[derive(Debug, PartialEq)]
pub struct OrderedDict(pub Vec<(Value, Value)>);

/// A reconstructed runtime value.
#[derive(Debug, PartialEq)]
pub enum Value {
    U32(u32),
    I32(i32),
    String(String),
    Bool(bool),
    Dict(Dict),
    OrderedDict(OrderedDict),
    Tuple(Vec<Value>),
    List(Vec<Value>),
    Global(Global),
    PersistentLoad(Box<Value>),
    Reduce(Box<Value>, Box<Value>),
    Function(Function),
    SetState(Box<Value>, Box<Value>),
}

/// The mathematical shape of a [`Value`]: containers become sequences,
/// strings become character sequences.
#[verifier::ext_equal]
pub enum ValueModel {
    U32(u32),
    I32(i32),
    Str(Seq<char>),
    Bool(bool),
    Dict(Seq<(ValueModel, ValueModel)>),
    OrderedDict(Seq<(ValueModel, ValueModel)>),
    Tuple(Seq<ValueModel>),
    List(Seq<ValueModel>),
    Global(GlobalModel),
    PersistentLoad(Box<ValueModel>),
    Reduce(Box<ValueModel>, Box<ValueModel>),
    Function(FunctionModel),
    SetState(Box<ValueModel>, Box<ValueModel>),
}

impl Value {
    /// The mathematical shape of this value.
    pub open spec fn model(self) -> ValueModel
        decreases self,
    {
        match self {
            Value::U32(u) => ValueModel::U32(u),
            Value::I32(i) => ValueModel::I32(i),
            Value::String(s) => ValueModel::Str(s@),
            Value::Bool(b) => ValueModel::Bool(b),
            Value::Dict(d) => ValueModel::Dict(pairs_model(d.0@)),
            Value::OrderedDict(d) => ValueModel::OrderedDict(pairs_model(d.0@)),
            Value::Tuple(vs) => ValueModel::Tuple(values_model(vs@)),
            Value::List(vs) => ValueModel::List(values_model(vs@)),
            Value::Global(g) => ValueModel::Global(g@),
            Value::PersistentLoad(v) => ValueModel::PersistentLoad(Box::new((*v).model())),
            Value::Reduce(f, a) => ValueModel::Reduce(
                Box::new((*f).model()),
                Box::new((*a).model()),
            ),
            Value::Function(f) => ValueModel::Function(f@),
            Value::SetState(o, s) => ValueModel::SetState(
                Box::new((*o).model()),
                Box::new((*s).model()),
            ),
        }
    }
}

/// The models of a sequence of values, element by element.
pub open spec fn values_model(vs: Seq<Value>) -> Seq<ValueModel>
    decreases vs,
{
    Seq::new(
        vs.len(),
        |i: int|
            if 0 <= i < vs.len() {
                vs[i].model()
            } else {
                arbitrary()
            },
    )
}

/// The models of a sequence of key/value pairs, element by element.
pub open spec fn pairs_model(ps: Seq<(Value, Value)>) -> Seq<(ValueModel, ValueModel)>
    decreases ps,
{
    Seq::new(
        ps.len(),
        |i: int|
            if 0 <= i < ps.len() {
                (ps[i].0.model(), ps[i].1.model())
            } else {
                arbitrary()
            },
    )
}

impl View for Value {
    type V = ValueModel;

    open spec fn view(&self) -> ValueModel {
        (*self).model()
    }
}

pub proof fn lemma_values_model_concat(a: Seq<Value>, b: Seq<Value>)
    ensures
        values_model(a + b) == values_model(a) + values_model(b),
{
    assert(values_model(a + b) =~= values_model(a) + values_model(b));
}

pub proof fn lemma_values_model_push(a: Seq<Value>, v: Value)
    ensures
        values_model(a.push(v)) == values_model(a).push(v@),
{
    assert(values_model(a.push(v)) =~= values_model(a).push(v@));
}

pub proof fn lemma_pairs_model_concat(a: Seq<(Value, Value)>, b: Seq<(Value, Value)>)
    ensures
        pairs_model(a + b) == pairs_model(a) + pairs_model(b),
{
    assert(pairs_model(a + b) =~= pairs_model(a) + pairs_model(b));
}

pub proof fn lemma_pairs_model_push(a: Seq<(Value, Value)>, p: (Value, Value))
    ensures
        pairs_model(a.push(p)) == pairs_model(a).push((p.0@, p.1@)),
{
    assert(pairs_model(a.push(p)) =~= pairs_model(a).push((p.0@, p.1@)));
}

impl Dict {
    /// A fresh, empty ordered association container.
    pub fn new() -> (d: Dict)
        ensures
            pairs_model(d.0@) == Seq::<(ValueModel, ValueModel)>::empty(),
    {
        let d = Dict(Vec::new());
        proof {
            assert(pairs_model(d.0@) =~= Seq::<(ValueModel, ValueModel)>::empty());
        }
        d
    }
}

impl OrderedDict {
    /// A fresh, empty distinguished ordered association container.
    pub fn new() -> (d: OrderedDict)
        ensures
            pairs_model(d.0@) == Seq::<(ValueModel, ValueModel)>::empty(),
    {
        let d = OrderedDict(Vec::new());
        proof {
            assert(pairs_model(d.0@) =~= Seq::<(ValueModel, ValueModel)>::empty());
        }
        d
    }
}

/// What item-assignment does to a value: containers of either association
/// kind take the new pair at the end; anything else is a type mismatch.
pub open spec fn set_item_model(v: ValueModel, k: ValueModel, val: ValueModel) -> Result<
    ValueModel,
    PickleError,
> {
    match v {
        ValueModel::Dict(ps) => Ok(ValueModel::Dict(ps.push((k, val)))),
        ValueModel::OrderedDict(ps) => Ok(ValueModel::OrderedDict(ps.push((k, val)))),
        _ => Err(PickleError::TypeMismatch),
    }
}

/// What multi-item assignment does to a value: containers of either
/// association kind take the run of pairs at the end, in order.
pub open spec fn set_items_model(v: ValueModel, items: Seq<(ValueModel, ValueModel)>) -> Result<
    ValueModel,
    PickleError,
> {
    match v {
        ValueModel::Dict(ps) => Ok(ValueModel::Dict(ps + items)),
        ValueModel::OrderedDict(ps) => Ok(ValueModel::OrderedDict(ps + items)),
        _ => Err(PickleError::TypeMismatch),
    }
}

/// What append-items does to a value: a list takes the run of values at the
/// end, in order; anything else is a type mismatch.
pub open spec fn extend_model(v: ValueModel, items: Seq<ValueModel>) -> Result<
    ValueModel,
    PickleError,
> {
    match v {
        ValueModel::List(vs) => Ok(ValueModel::List(vs + items)),
        _ => Err(PickleError::TypeMismatch),
    }
}

impl Value {
    /// Appends one key/value pair to an association container, in place.
    pub fn set_item(&mut self, key: Value, value: Value) -> (r: Result<(), PickleError>)
        ensures
            ({
                let m = set_item_model(old(self)@, key@, value@);
                match m {
                    Ok(v2) => r is Ok && final(self)@ == v2,
                    Err(e) => r == Err::<(), PickleError>(e) && final(self)@ == old(self)@,
                }
            }),
    {
        let mut tmp = Value::Bool(false);
        core::mem::swap(self, &mut tmp);
        match tmp {
            Value::Dict(mut d) => {
                let ghost ps = d.0@;
                d.0.push((key, value));
                proof {
                    lemma_pairs_model_push(ps, (key, value));
                }
                *self = Value::Dict(d);
                Ok(())
            },
            Value::OrderedDict(mut d) => {
                let ghost ps = d.0@;
                d.0.push((key, value));
                proof {
                    lemma_pairs_model_push(ps, (key, value));
                }
                *self = Value::OrderedDict(d);
                Ok(())
            },
            other => {
                *self = other;
                Err(PickleError::TypeMismatch)
            },
        }
    }

    /// Appends a run of key/value pairs to an association container, in
    /// place and in order.
    pub fn set_items(&mut self, items: Vec<(Value, Value)>) -> (r: Result<(), PickleError>)
        ensures
            ({
                let m = set_items_model(old(self)@, pairs_model(items@));
                match m {
                    Ok(v2) => r is Ok && final(self)@ == v2,
                    Err(e) => r == Err::<(), PickleError>(e) && final(self)@ == old(self)@,
                }
            }),
    {
        let mut items = items;
        let mut tmp = Value::Bool(false);
        core::mem::swap(self, &mut tmp);
        match tmp {
            Value::Dict(mut d) => {
                let ghost ps = d.0@;
                let ghost qs = items@;
                d.0.append(&mut items);
                proof {
                    lemma_pairs_model_concat(ps, qs);
                }
                *self = Value::Dict(d);
                Ok(())
            },
            Value::OrderedDict(mut d) => {
                let ghost ps = d.0@;
                let ghost qs = items@;
                d.0.append(&mut items);
                proof {
                    lemma_pairs_model_concat(ps, qs);
                }
                *self = Value::OrderedDict(d);
                Ok(())
            },
            other => {
                *self = other;
                Err(PickleError::TypeMismatch)
            },
        }
    }

    /// Appends a run of values to a list, in place and in order.
    pub fn extend(&mut self, items: Vec<Value>) -> (r: Result<(), PickleError>)
        ensures
            ({
                let m = extend_model(old(self)@, values_model(items@));
                match m {
                    Ok(v2) => r is Ok && final(self)@ == v2,
                    Err(e) => r == Err::<(), PickleError>(e) && final(self)@ == old(self)@,
                }
            }),
    {
        let mut items = items;
        let mut tmp = Value::Bool(false);
        core::mem::swap(self, &mut tmp);
        match tmp {
            Value::List(mut vs) => {
                let ghost a = vs@;
                let ghost b = items@;
                vs.append(&mut items);
                proof {
                    lemma_values_model_concat(a, b);
                }
                *self = Value::List(vs);
                Ok(())
            },
            other => {
                *self = other;
                Err(PickleError::TypeMismatch)
            },
        }
    }

    /// An owned copy whose model is identical to this value's.
    pub fn deep_clone(&self) -> (r: Value)
        ensures
            r@ == self@,
        decreases self,
    {
        match self {
            Value::U32(u) => Value::U32(*u),
            Value::I32(i) => Value::I32(*i),
            Value::String(s) => Value::String(s.clone()),
            Value::Bool(b) => Value::Bool(*b),
            Value::Dict(d) => {
                let pairs = clone_pairs(&d.0);
                Value::Dict(Dict(pairs))
            },
            Value::OrderedDict(d) => {
                let pairs = clone_pairs(&d.0);
                Value::OrderedDict(OrderedDict(pairs))
            },
            Value::Tuple(vs) => Value::Tuple(clone_values(vs)),
            Value::List(vs) => Value::List(clone_values(vs)),
            Value::Global(g) => Value::Global(g.duplicate()),
            Value::PersistentLoad(v) => Value::PersistentLoad(Box::new(v.deep_clone())),
            Value::Reduce(f, a) => Value::Reduce(
                Box::new(f.deep_clone()),
                Box::new(a.deep_clone()),
            ),
            Value::Function(f) => Value::Function(
                Function { name: f.name.clone(), def: f.def },
            ),
            Value::SetState(o, s) => Value::SetState(
                Box::new(o.deep_clone()),
                Box::new(s.deep_clone()),
            ),
        }
    }
}

impl From<Function> for Value {
    fn from(value: Function) -> Value {
        Value::Function(value)
    }
}

impl vstd::std_specs::convert::FromSpecImpl<Function> for Value {
    open spec fn obeys_from_spec() -> bool {
        true
    }

    open spec fn from_spec(v: Function) -> Value {
        Value::Function(v)
    }
}

impl From<String> for Value {
    fn from(value: String) -> Value {
        Value::String(value)
    }
}

impl vstd::std_specs::convert::FromSpecImpl<String> for Value {
    open spec fn obeys_from_spec() -> bool {
        true
    }

    open spec fn from_spec(v: String) -> Value {
        Value::String(v)
    }
}

impl From<i32> for Value {
    fn from(value: i32) -> Value {
        Value::I32(value)
    }
}

impl vstd::std_specs::convert::FromSpecImpl<i32> for Value {
    open spec fn obeys_from_spec() -> bool {
        true
    }

    open spec fn from_spec(v: i32) -> Value {
        Value::I32(v)
    }
}

impl From<i8> for Value {
    fn from(value: i8) -> Value {
        Value::I32(value as i32)
    }
}

impl vstd::std_specs::convert::FromSpecImpl<i8> for Value {
    open spec fn obeys_from_spec() -> bool {
        true
    }

    open spec fn from_spec(v: i8) -> Value {
        Value::I32(v as i32)
    }
}

impl From<i16> for Value {
    fn from(value: i16) -> Value {
        Value::I32(value as i32)
    }
}

impl vstd::std_specs::convert::FromSpecImpl<i16> for Value {
    open spec fn obeys_from_spec() -> bool {
        true
    }

    open spec fn from_spec(v: i16) -> Value {
        Value::I32(v as i32)
    }
}

impl From<bool> for Value {
    fn from(value: bool) -> Value {
        Value::Bool(value)
    }
}

impl vstd::std_specs::convert::FromSpecImpl<bool> for Value {
    open spec fn obeys_from_spec() -> bool {
        true
    }

    open spec fn from_spec(v: bool) -> Value {
        Value::Bool(v)
    }
}

/// Copies of every element of a value sequence, preserving each model.
fn clone_values(vs: &Vec<Value>) -> (r: Vec<Value>)
    ensures
        values_model(r@) == values_model(vs@),
    decreases vs,
{
    let mut out: Vec<Value> = Vec::new();
    let mut k: usize = 0;
    while k < vs.len()
        invariant
            k <= vs@.len(),
            out@.len() == k as int,
            forall|j: int| 0 <= j < k as int ==> out@[j]@ == vs@[j]@,
        decreases vs@.len() - k,
    {
        proof {
            vstd::std_specs::vec::axiom_vec_index_decreases(*vs, k as int);
        }
        out.push(vs[k].deep_clone());
        k = k + 1;
    }
    proof {
        assert(values_model(out@) =~= values_model(vs@));
    }
    out
}

/// Copies of every element of a pair sequence, preserving each model.
fn clone_pairs(ps: &Vec<(Value, Value)>) -> (r: Vec<(Value, Value)>)
    ensures
        pairs_model(r@) == pairs_model(ps@),
    decreases ps,
{
    let mut out: Vec<(Value, Value)> = Vec::new();
    let mut k: usize = 0;
    while k < ps.len()
        invariant
            k <= ps@.len(),
            out@.len() == k as int,
            forall|j: int| 0 <= j < k as int ==> out@[j].0@ == ps@[j].0@ && out@[j].1@
                == ps@[j].1@,
        decreases ps@.len() - k,
    {
        proof {
            vstd::std_specs::vec::axiom_vec_index_decreases(*ps, k as int);
        }
        let pair = (ps[k].0.deep_clone(), ps[k].1.deep_clone());
        out.push(pair);
        k = k + 1;
    }
    proof {
        assert(pairs_model(out@) =~= pairs_model(ps@));
    }
    out
}

} // verus!
