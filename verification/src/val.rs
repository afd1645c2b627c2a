use crate::float::{Binary32, Binary64};
use crate::handle::share;
use crate::types::{
    copy_named_types, copy_names, copy_type, copy_types, lemma_view_unfold, named_types_model,
    names_model, types_model, InterType, TypeModel,
};
use io_extras::grip::OwnedGrip;
use std::borrow::Cow;
use std::sync::Arc;
use vstd::prelude::*;

verus! {

/// A value together with enough of its schema to say what shape it has.
///
/// A floating-point case holds `None` for not-a-number and the datum
/// otherwise. A handle is a shared reference to one open OS resource.
#[derive(Debug)]
pub enum InterVal {
    S8(i8),
    U8(u8),
    S16(i16),
    U16(u16),
    S32(i32),
    U32(u32),
    S64(i64),
    U64(u64),
    F32(Option<Binary32>),
    F64(Option<Binary64>),
    Char(char),
    String(Cow<'static, str>),
    Bool(bool),
    Handle(Arc<OwnedGrip>),
    Variant(Vec<(String, InterType)>, String, Box<InterVal>),
    Record(Vec<(String, InterVal)>),
    List(Box<InterType>, Vec<InterVal>),
    Tuple(Vec<InterVal>),
    Flags(Vec<(String, bool)>),
    Enum(Vec<String>, String, Box<InterVal>),
    Option(Box<InterType>, Option<Box<InterVal>>),
    Union(Vec<InterType>, usize, Box<InterVal>),
    Result(Box<InterType>, Box<InterType>, Result<Box<InterVal>, Box<InterVal>>),
}

/// The mathematical value that an [`InterVal`] denotes.
pub enum ValModel {
    S8(i8),
    U8(u8),
    S16(i16),
    U16(u16),
    S32(i32),
    U32(u32),
    S64(i64),
    U64(u64),
    F32(Option<Binary32>),
    F64(Option<Binary64>),
    Char(char),
    String(Seq<char>),
    Bool(bool),
    Handle(Arc<OwnedGrip>),
    Variant(Seq<(Seq<char>, TypeModel)>, Seq<char>, Box<ValModel>),
    Record(Seq<(Seq<char>, ValModel)>),
    List(Box<TypeModel>, Seq<ValModel>),
    Tuple(Seq<ValModel>),
    Flags(Seq<(Seq<char>, bool)>),
    Enum(Seq<Seq<char>>, Seq<char>, Box<ValModel>),
    Option(Box<TypeModel>, Option<Box<ValModel>>),
    Union(Seq<TypeModel>, nat, Box<ValModel>),
    Result(Box<TypeModel>, Box<TypeModel>, Result<Box<ValModel>, Box<ValModel>>),
}

impl InterVal {
    /// The value denoted, constituent by constituent.
    pub open spec fn model(&self) -> ValModel
        decreases self,
    {
        match self {
            InterVal::S8(i) => ValModel::S8(*i),
            InterVal::U8(i) => ValModel::U8(*i),
            InterVal::S16(i) => ValModel::S16(*i),
            InterVal::U16(i) => ValModel::U16(*i),
            InterVal::S32(i) => ValModel::S32(*i),
            InterVal::U32(i) => ValModel::U32(*i),
            InterVal::S64(i) => ValModel::S64(*i),
            InterVal::U64(i) => ValModel::U64(*i),
            InterVal::F32(f) => ValModel::F32(*f),
            InterVal::F64(f) => ValModel::F64(*f),
            InterVal::Char(c) => ValModel::Char(*c),
            InterVal::String(s) => ValModel::String(s@),
            InterVal::Bool(b) => ValModel::Bool(*b),
            InterVal::Handle(h) => ValModel::Handle(*h),
            InterVal::Variant(arms, label, payload) => ValModel::Variant(
                named_types_model(arms@),
                label@,
                Box::new(payload.model()),
            ),
            InterVal::Record(fields) => ValModel::Record(
                Seq::new(
                    fields.len() as nat,
                    |i: int|
                        if 0 <= i < fields.len() {
                            (fields[i].0@, fields[i].1.model())
                        } else {
                            arbitrary()
                        },
                ),
            ),
            InterVal::List(elem, items) => ValModel::List(
                Box::new((**elem)@),
                Seq::new(
                    items.len() as nat,
                    |i: int|
                        if 0 <= i < items.len() {
                            items[i].model()
                        } else {
                            arbitrary()
                        },
                ),
            ),
            InterVal::Tuple(items) => ValModel::Tuple(
                Seq::new(
                    items.len() as nat,
                    |i: int|
                        if 0 <= i < items.len() {
                            items[i].model()
                        } else {
                            arbitrary()
                        },
                ),
            ),
            InterVal::Flags(states) => ValModel::Flags(flags_model(states@)),
            InterVal::Enum(names, label, payload) => ValModel::Enum(
                names_model(names@),
                label@,
                Box::new(payload.model()),
            ),
            InterVal::Option(inner, value) => ValModel::Option(
                Box::new((**inner)@),
                match value {
                    Some(v) => Some(Box::new(v.model())),
                    None => None,
                },
            ),
            InterVal::Union(alts, index, payload) => ValModel::Union(
                types_model(alts@),
                *index as nat,
                Box::new(payload.model()),
            ),
            InterVal::Result(ok, err, value) => ValModel::Result(
                Box::new((**ok)@),
                Box::new((**err)@),
                match value {
                    Ok(v) => Ok(Box::new(v.model())),
                    Err(e) => Err(Box::new(e.model())),
                },
            ),
        }
    }
}

impl View for InterVal {
    type V = ValModel;

    open spec fn view(&self) -> ValModel {
        self.model()
    }
}

/// The models of a list of values, entry by entry.
pub open spec fn vals_model(items: Seq<InterVal>) -> Seq<ValModel> {
    Seq::new(items.len(), |i: int| items[i]@)
}

/// The models of a list of named values, entry by entry.
pub open spec fn named_vals_model(fields: Seq<(String, InterVal)>) -> Seq<(Seq<char>, ValModel)> {
    Seq::new(fields.len(), |i: int| (fields[i].0@, fields[i].1@))
}

/// The models of a list of flag states, entry by entry.
pub open spec fn flags_model(states: Seq<(String, bool)>) -> Seq<(Seq<char>, bool)> {
    Seq::new(states.len(), |i: int| (states[i].0@, states[i].1))
}

/// What the view of a record, a list and a tuple is, over the list models.
pub proof fn lemma_val_unfold(v: InterVal)
    ensures
        v matches InterVal::Record(fields) ==> v@ == ValModel::Record(named_vals_model(fields@)),
        v matches InterVal::List(elem, items) ==> v@ == ValModel::List(
            Box::new((*elem)@),
            vals_model(items@),
        ),
        v matches InterVal::Tuple(items) ==> v@ == ValModel::Tuple(vals_model(items@)),
{
    match v {
        InterVal::Record(fields) => {
            assert(v@->Record_0 =~= named_vals_model(fields@));
        },
        InterVal::List(elem, items) => {
            assert(v@->List_1 =~= vals_model(items@));
        },
        InterVal::Tuple(items) => {
            assert(v@->Tuple_0 =~= vals_model(items@));
        },
        _ => {},
    }
}

impl ValModel {
    /// The descriptor that a value derives: fixed for a scalar, rebuilt field
    /// by field for a record and a tuple, and the carried fragment otherwise.
    pub open spec fn ty(self) -> TypeModel
        decreases self,
    {
        match self {
            ValModel::S8(_) => TypeModel::S8,
            ValModel::U8(_) => TypeModel::U8,
            ValModel::S16(_) => TypeModel::S16,
            ValModel::U16(_) => TypeModel::U16,
            ValModel::S32(_) => TypeModel::S32,
            ValModel::U32(_) => TypeModel::U32,
            ValModel::S64(_) => TypeModel::S64,
            ValModel::U64(_) => TypeModel::U64,
            ValModel::F32(_) => TypeModel::F32,
            ValModel::F64(_) => TypeModel::F64,
            ValModel::Char(_) => TypeModel::Char,
            ValModel::String(_) => TypeModel::String,
            ValModel::Bool(_) => TypeModel::Bool,
            ValModel::Handle(_) => TypeModel::Handle,
            ValModel::Variant(arms, _, _) => TypeModel::Variant(arms),
            ValModel::Record(fields) => TypeModel::Record(
                Seq::new(
                    fields.len(),
                    |i: int|
                        if 0 <= i < fields.len() {
                            (fields[i].0, fields[i].1.ty())
                        } else {
                            arbitrary()
                        },
                ),
            ),
            ValModel::List(elem, _) => TypeModel::List(elem),
            ValModel::Tuple(items) => TypeModel::Tuple(
                Seq::new(
                    items.len(),
                    |i: int|
                        if 0 <= i < items.len() {
                            items[i].ty()
                        } else {
                            arbitrary()
                        },
                ),
            ),
            ValModel::Flags(states) => TypeModel::Flags(
                Seq::new(states.len(), |i: int| states[i].0),
            ),
            ValModel::Enum(names, _, _) => TypeModel::Enum(names),
            ValModel::Option(inner, _) => TypeModel::Option(inner),
            ValModel::Union(alts, _, _) => TypeModel::Union(alts),
            ValModel::Result(ok, err, _) => TypeModel::Result(ok, err),
        }
    }

    /// The invariant of a value: a present float is a number, a chosen label
    /// is one of the carried names, a chosen alternative exists, every element
    /// of a list has the carried element type, and every constituent is
    /// itself well formed.
    pub open spec fn wf(self) -> bool
        decreases self,
    {
        match self {
            ValModel::F32(f) => f matches Some(x) ==> !x.spec_is_nan(),
            ValModel::F64(f) => f matches Some(x) ==> !x.spec_is_nan(),
            ValModel::Variant(arms, label, payload) => {
                &&& exists|i: int| 0 <= i < arms.len() && (#[trigger] arms[i]).0 == label
                &&& payload.wf()
            },
            ValModel::Record(fields) => forall|i: int|
                0 <= i < fields.len() ==> (#[trigger] fields[i]).1.wf(),
            ValModel::List(elem, items) => forall|i: int|
                0 <= i < items.len() ==> (#[trigger] items[i]).wf() && items[i].ty() == *elem,
            ValModel::Tuple(items) => forall|i: int|
                0 <= i < items.len() ==> (#[trigger] items[i]).wf(),
            ValModel::Enum(names, label, payload) => names.contains(label) && payload.wf(),
            ValModel::Option(_, value) => value matches Some(v) ==> v.wf(),
            ValModel::Union(alts, index, payload) => index < alts.len() && payload.wf(),
            ValModel::Result(_, _, value) => match value {
                Ok(v) => v.wf(),
                Err(e) => e.wf(),
            },
            _ => true,
        }
    }
}

/// The descriptors that a list of values derives, entry by entry.
pub open spec fn types_of(items: Seq<ValModel>) -> Seq<TypeModel> {
    Seq::new(items.len(), |i: int| items[i].ty())
}

/// The descriptors that a list of named values derives, under their names.
pub open spec fn named_types_of(fields: Seq<(Seq<char>, ValModel)>) -> Seq<(Seq<char>, TypeModel)> {
    Seq::new(fields.len(), |i: int| (fields[i].0, fields[i].1.ty()))
}

/// The names that a list of flag states declares, in order.
pub open spec fn flag_names(states: Seq<(Seq<char>, bool)>) -> Seq<Seq<char>> {
    Seq::new(states.len(), |i: int| states[i].0)
}

/// What a record and a tuple derive, over the list functions.
pub proof fn lemma_ty_unfold(v: ValModel)
    ensures
        v matches ValModel::Record(fields) ==> v.ty() == TypeModel::Record(named_types_of(fields)),
        v matches ValModel::Tuple(items) ==> v.ty() == TypeModel::Tuple(types_of(items)),
        v matches ValModel::Flags(states) ==> v.ty() == TypeModel::Flags(flag_names(states)),
{
    match v {
        ValModel::Record(fields) => {
            assert(v.ty()->Record_0 =~= named_types_of(fields));
        },
        ValModel::Tuple(items) => {
            assert(v.ty()->Tuple_0 =~= types_of(items));
        },
        _ => {},
    }
}

fn types_of_vals(items: &Vec<InterVal>) -> (r: Vec<InterType>)
    ensures
        types_model(r@) == types_of(vals_model(items@)),
    decreases items,
{
    let mut out: Vec<InterType> = Vec::new();
    let mut i: usize = 0;
    while i < items.len()
        invariant
            i <= items.len(),
            out.len() == i,
            forall|j: int| 0 <= j < i ==> out[j]@ == items[j]@.ty(),
        decreases items.len() - i,
    {
        proof {
            assert(decreases_to!(items => items[i as int]));
        }
        out.push(items[i].ty());
        i += 1;
    }
    assert(types_model(out@) =~= types_of(vals_model(items@)));
    out
}

fn named_types_of_vals(fields: &Vec<(String, InterVal)>) -> (r: Vec<(String, InterType)>)
    ensures
        named_types_model(r@) == named_types_of(named_vals_model(fields@)),
    decreases fields,
{
    let mut out: Vec<(String, InterType)> = Vec::new();
    let mut i: usize = 0;
    while i < fields.len()
        invariant
            i <= fields.len(),
            out.len() == i,
            forall|j: int|
                0 <= j < i ==> out[j].0@ == fields[j].0@ && out[j].1@ == fields[j].1@.ty(),
        decreases fields.len() - i,
    {
        proof {
            assert(decreases_to!(fields => fields[i as int]));
        }
        out.push((fields[i].0.clone(), fields[i].1.ty()));
        i += 1;
    }
    assert(named_types_model(out@) =~= named_types_of(named_vals_model(fields@)));
    out
}

impl InterVal {
    /// Derives the descriptor of this value.
    pub fn ty(&self) -> (t: InterType)
        ensures
            t@ == self@.ty(),
        decreases self,
    {
        let t = match self {
            InterVal::S8(_) => InterType::S8,
            InterVal::U8(_) => InterType::U8,
            InterVal::S16(_) => InterType::S16,
            InterVal::U16(_) => InterType::U16,
            InterVal::S32(_) => InterType::S32,
            InterVal::U32(_) => InterType::U32,
            InterVal::S64(_) => InterType::S64,
            InterVal::U64(_) => InterType::U64,
            InterVal::F32(_) => InterType::F32,
            InterVal::F64(_) => InterType::F64,
            InterVal::Char(_) => InterType::Char,
            InterVal::String(_) => InterType::String,
            InterVal::Bool(_) => InterType::Bool,
            InterVal::Handle(_) => InterType::Handle,
            InterVal::Variant(arms, _, _) => InterType::Variant(copy_named_types(arms)),
            InterVal::Record(fields) => InterType::Record(named_types_of_vals(fields)),
            InterVal::List(elem, _) => InterType::List(Box::new(copy_type(elem))),
            InterVal::Tuple(items) => InterType::Tuple(types_of_vals(items)),
            InterVal::Flags(states) => {
                let mut out: Vec<String> = Vec::new();
                let mut i: usize = 0;
                while i < states.len()
                    invariant
                        i <= states.len(),
                        out.len() == i,
                        forall|j: int| 0 <= j < i ==> out[j]@ == states[j].0@,
                    decreases states.len() - i,
                {
                    out.push(states[i].0.clone());
                    i += 1;
                }
                assert(names_model(out@) =~= flag_names(flags_model(states@)));
                InterType::Flags(out)
            },
            InterVal::Enum(names, _, _) => InterType::Enum(copy_names(names)),
            InterVal::Option(inner, _) => InterType::Option(Box::new(copy_type(inner))),
            InterVal::Union(alts, _, _) => InterType::Union(copy_types(alts)),
            InterVal::Result(ok, err, _) => InterType::Result(
                Box::new(copy_type(ok)),
                Box::new(copy_type(err)),
            ),
        };
        proof {
            lemma_view_unfold(t);
            lemma_val_unfold(*self);
            lemma_ty_unfold(self@);
        }
        t
    }

    /// A string value that borrows a static string.
    pub fn str(s: &'static str) -> (v: InterVal)
        ensures
            v@ == ValModel::String(s@),
            v@.wf(),
    {
        InterVal::String(Cow::Borrowed(s))
    }
}

fn copy_vals(items: &Vec<InterVal>) -> (r: Vec<InterVal>)
    ensures
        vals_model(r@) == vals_model(items@),
    decreases items,
{
    let mut out: Vec<InterVal> = Vec::new();
    let mut i: usize = 0;
    while i < items.len()
        invariant
            i <= items.len(),
            out.len() == i,
            forall|j: int| 0 <= j < i ==> out[j]@ == items[j]@,
        decreases items.len() - i,
    {
        proof {
            assert(decreases_to!(items => items[i as int]));
        }
        out.push(copy_val(&items[i]));
        i += 1;
    }
    assert(vals_model(out@) =~= vals_model(items@));
    out
}

fn copy_named_vals(fields: &Vec<(String, InterVal)>) -> (r: Vec<(String, InterVal)>)
    ensures
        named_vals_model(r@) == named_vals_model(fields@),
    decreases fields,
{
    let mut out: Vec<(String, InterVal)> = Vec::new();
    let mut i: usize = 0;
    while i < fields.len()
        invariant
            i <= fields.len(),
            out.len() == i,
            forall|j: int| 0 <= j < i ==> out[j].0@ == fields[j].0@ && out[j].1@ == fields[j].1@,
        decreases fields.len() - i,
    {
        proof {
            assert(decreases_to!(fields => fields[i as int]));
        }
        out.push((fields[i].0.clone(), copy_val(&fields[i].1)));
        i += 1;
    }
    assert(named_vals_model(out@) =~= named_vals_model(fields@));
    out
}

fn copy_flags(states: &Vec<(String, bool)>) -> (r: Vec<(String, bool)>)
    ensures
        flags_model(r@) == flags_model(states@),
{
    let mut out: Vec<(String, bool)> = Vec::new();
    let mut i: usize = 0;
    while i < states.len()
        invariant
            i <= states.len(),
            out.len() == i,
            forall|j: int| 0 <= j < i ==> out[j].0@ == states[j].0@ && out[j].1 == states[j].1,
        decreases states.len() - i,
    {
        out.push((states[i].0.clone(), states[i].1));
        i += 1;
    }
    assert(flags_model(out@) =~= flags_model(states@));
    out
}

fn copy_text(s: &Cow<'static, str>) -> (r: Cow<'static, str>)
    ensures
        r@ == s@,
{
    match s {
        Cow::Borrowed(b) => Cow::Borrowed(*b),
        Cow::Owned(o) => Cow::Owned(o.clone()),
    }
}

fn copy_val(v: &InterVal) -> (r: InterVal)
    ensures
        r@ == v@,
    decreases v,
{
    let r = match v {
        InterVal::S8(i) => InterVal::S8(*i),
        InterVal::U8(i) => InterVal::U8(*i),
        InterVal::S16(i) => InterVal::S16(*i),
        InterVal::U16(i) => InterVal::U16(*i),
        InterVal::S32(i) => InterVal::S32(*i),
        InterVal::U32(i) => InterVal::U32(*i),
        InterVal::S64(i) => InterVal::S64(*i),
        InterVal::U64(i) => InterVal::U64(*i),
        InterVal::F32(f) => InterVal::F32(*f),
        InterVal::F64(f) => InterVal::F64(*f),
        InterVal::Char(c) => InterVal::Char(*c),
        InterVal::String(s) => InterVal::String(copy_text(s)),
        InterVal::Bool(b) => InterVal::Bool(*b),
        InterVal::Handle(h) => InterVal::Handle(share(h)),
        InterVal::Variant(arms, label, payload) => InterVal::Variant(
            copy_named_types(arms),
            label.clone(),
            Box::new(copy_val(payload)),
        ),
        InterVal::Record(fields) => InterVal::Record(copy_named_vals(fields)),
        InterVal::List(elem, items) => InterVal::List(Box::new(copy_type(elem)), copy_vals(items)),
        InterVal::Tuple(items) => InterVal::Tuple(copy_vals(items)),
        InterVal::Flags(states) => InterVal::Flags(copy_flags(states)),
        InterVal::Enum(names, label, payload) => InterVal::Enum(
            copy_names(names),
            label.clone(),
            Box::new(copy_val(payload)),
        ),
        InterVal::Option(inner, value) => InterVal::Option(
            Box::new(copy_type(inner)),
            match value {
                Some(x) => Some(Box::new(copy_val(x))),
                None => None,
            },
        ),
        InterVal::Union(alts, index, payload) => InterVal::Union(
            copy_types(alts),
            *index,
            Box::new(copy_val(payload)),
        ),
        InterVal::Result(ok, err, value) => InterVal::Result(
            Box::new(copy_type(ok)),
            Box::new(copy_type(err)),
            match value {
                Ok(x) => Ok(Box::new(copy_val(x))),
                Err(e) => Err(Box::new(copy_val(e))),
            },
        ),
    };
    proof {
        lemma_val_unfold(*v);
        lemma_val_unfold(r);
    }
    r
}

impl Clone for InterVal {
    /// A copy that denotes the same value. A handle is shared, not duplicated:
    /// the copy refers to the same open resource.
    fn clone(&self) -> (r: InterVal)
        ensures
            r@ == self@,
    {
        copy_val(self)
    }
}

} // verus!
