use vstd::prelude::*;
use vstd::std_specs::cmp::PartialEqSpecImpl;

verus! {

/// The shape of a value: a closed, self-describing schema.
#[derive(Debug)]
pub enum InterType {
    S8,
    U8,
    S16,
    U16,
    S32,
    U32,
    S64,
    U64,
    F32,
    F64,
    Char,
    String,
    Bool,
    Handle,
    Variant(Vec<(String, InterType)>),
    Record(Vec<(String, InterType)>),
    List(Box<InterType>),
    Tuple(Vec<InterType>),
    Flags(Vec<String>),
    Enum(Vec<String>),
    Option(Box<InterType>),
    Union(Vec<InterType>),
    Result(Box<InterType>, Box<InterType>),
}

/// The mathematical value that an [`InterType`] denotes. Two descriptors are
/// equal exactly when their models are.
pub enum TypeModel {
    S8,
    U8,
    S16,
    U16,
    S32,
    U32,
    S64,
    U64,
    F32,
    F64,
    Char,
    String,
    Bool,
    Handle,
    Variant(Seq<(Seq<char>, TypeModel)>),
    Record(Seq<(Seq<char>, TypeModel)>),
    List(Box<TypeModel>),
    Tuple(Seq<TypeModel>),
    Flags(Seq<Seq<char>>),
    Enum(Seq<Seq<char>>),
    Option(Box<TypeModel>),
    Union(Seq<TypeModel>),
    Result(Box<TypeModel>, Box<TypeModel>),
}

impl InterType {
    /// The shape denoted, constituent by constituent.
    pub open spec fn model(&self) -> TypeModel
        decreases self,
    {
        match self {
            InterType::S8 => TypeModel::S8,
            InterType::U8 => TypeModel::U8,
            InterType::S16 => TypeModel::S16,
            InterType::U16 => TypeModel::U16,
            InterType::S32 => TypeModel::S32,
            InterType::U32 => TypeModel::U32,
            InterType::S64 => TypeModel::S64,
            InterType::U64 => TypeModel::U64,
            InterType::F32 => TypeModel::F32,
            InterType::F64 => TypeModel::F64,
            InterType::Char => TypeModel::Char,
            InterType::String => TypeModel::String,
            InterType::Bool => TypeModel::Bool,
            InterType::Handle => TypeModel::Handle,
            InterType::Variant(arms) => TypeModel::Variant(
                Seq::new(
                    arms.len() as nat,
                    |i: int|
                        if 0 <= i < arms.len() {
                            (arms[i].0@, arms[i].1.model())
                        } else {
                            arbitrary()
                        },
                ),
            ),
            InterType::Record(fields) => TypeModel::Record(
                Seq::new(
                    fields.len() as nat,
                    |i: int|
                        if 0 <= i < fields.len() {
                            (fields[i].0@, fields[i].1.model())
                        } else {
                            arbitrary()
                        },
                ),
            ),
            InterType::List(elem) => TypeModel::List(Box::new(elem.model())),
            InterType::Tuple(elems) => TypeModel::Tuple(
                Seq::new(
                    elems.len() as nat,
                    |i: int|
                        if 0 <= i < elems.len() {
                            elems[i].model()
                        } else {
                            arbitrary()
                        },
                ),
            ),
            InterType::Flags(names) => TypeModel::Flags(names_model(names@)),
            InterType::Enum(names) => TypeModel::Enum(names_model(names@)),
            InterType::Option(inner) => TypeModel::Option(Box::new(inner.model())),
            InterType::Union(alts) => TypeModel::Union(
                Seq::new(
                    alts.len() as nat,
                    |i: int|
                        if 0 <= i < alts.len() {
                            alts[i].model()
                        } else {
                            arbitrary()
                        },
                ),
            ),
            InterType::Result(ok, err) => TypeModel::Result(
                Box::new(ok.model()),
                Box::new(err.model()),
            ),
        }
    }
}

impl View for InterType {
    type V = TypeModel;

    open spec fn view(&self) -> TypeModel {
        self.model()
    }
}

/// The models of a list of named descriptors, entry by entry.
pub open spec fn named_types_model(entries: Seq<(String, InterType)>) -> Seq<
    (Seq<char>, TypeModel),
> {
    Seq::new(entries.len(), |i: int| (entries[i].0@, entries[i].1@))
}

/// The models of a list of descriptors, entry by entry.
pub open spec fn types_model(entries: Seq<InterType>) -> Seq<TypeModel> {
    Seq::new(entries.len(), |i: int| entries[i]@)
}

/// The views of a list of names, entry by entry.
pub open spec fn names_model(names: Seq<String>) -> Seq<Seq<char>> {
    names.map_values(|n: String| n@)
}

/// What the view of each composite descriptor is, over the three list models.
pub proof fn lemma_view_unfold(t: InterType)
    ensures
        t matches InterType::Variant(arms) ==> t@ == TypeModel::Variant(named_types_model(arms@)),
        t matches InterType::Record(fields) ==> t@ == TypeModel::Record(
            named_types_model(fields@),
        ),
        t matches InterType::Tuple(elems) ==> t@ == TypeModel::Tuple(types_model(elems@)),
        t matches InterType::Union(alts) ==> t@ == TypeModel::Union(types_model(alts@)),
        t matches InterType::Flags(names) ==> t@ == TypeModel::Flags(names_model(names@)),
        t matches InterType::Enum(names) ==> t@ == TypeModel::Enum(names_model(names@)),
{
    match t {
        InterType::Variant(arms) => {
            assert(t@->Variant_0 =~= named_types_model(arms@));
        },
        InterType::Record(fields) => {
            assert(t@->Record_0 =~= named_types_model(fields@));
        },
        InterType::Tuple(elems) => {
            assert(t@->Tuple_0 =~= types_model(elems@));
        },
        InterType::Union(alts) => {
            assert(t@->Union_0 =~= types_model(alts@));
        },
        _ => {},
    }
}

pub(crate) fn copy_names(names: &Vec<String>) -> (r: Vec<String>)
    ensures
        names_model(r@) == names_model(names@),
{
    let mut out: Vec<String> = Vec::new();
    let mut i: usize = 0;
    while i < names.len()
        invariant
            i <= names.len(),
            out.len() == i,
            forall|j: int| 0 <= j < i ==> out[j]@ == names[j]@,
        decreases names.len() - i,
    {
        out.push(names[i].clone());
        i += 1;
    }
    assert(names_model(out@) =~= names_model(names@));
    out
}

pub(crate) fn copy_types(entries: &Vec<InterType>) -> (r: Vec<InterType>)
    ensures
        types_model(r@) == types_model(entries@),
    decreases entries,
{
    let mut out: Vec<InterType> = Vec::new();
    let mut i: usize = 0;
    while i < entries.len()
        invariant
            i <= entries.len(),
            out.len() == i,
            forall|j: int| 0 <= j < i ==> out[j]@ == entries[j]@,
        decreases entries.len() - i,
    {
        proof {
            assert(decreases_to!(entries => entries[i as int]));
        }
        out.push(copy_type(&entries[i]));
        i += 1;
    }
    assert(types_model(out@) =~= types_model(entries@));
    out
}

pub(crate) fn copy_named_types(entries: &Vec<(String, InterType)>) -> (r: Vec<(String, InterType)>)
    ensures
        named_types_model(r@) == named_types_model(entries@),
    decreases entries,
{
    let mut out: Vec<(String, InterType)> = Vec::new();
    let mut i: usize = 0;
    while i < entries.len()
        invariant
            i <= entries.len(),
            out.len() == i,
            forall|j: int| 0 <= j < i ==> out[j].0@ == entries[j].0@ && out[j].1@ == entries[j].1@,
        decreases entries.len() - i,
    {
        proof {
            assert(decreases_to!(entries => entries[i as int]));
        }
        out.push((entries[i].0.clone(), copy_type(&entries[i].1)));
        i += 1;
    }
    assert(named_types_model(out@) =~= named_types_model(entries@));
    out
}

pub(crate) fn copy_type(t: &InterType) -> (r: InterType)
    ensures
        r@ == t@,
    decreases t,
{
    let r = match t {
        InterType::S8 => InterType::S8,
        InterType::U8 => InterType::U8,
        InterType::S16 => InterType::S16,
        InterType::U16 => InterType::U16,
        InterType::S32 => InterType::S32,
        InterType::U32 => InterType::U32,
        InterType::S64 => InterType::S64,
        InterType::U64 => InterType::U64,
        InterType::F32 => InterType::F32,
        InterType::F64 => InterType::F64,
        InterType::Char => InterType::Char,
        InterType::String => InterType::String,
        InterType::Bool => InterType::Bool,
        InterType::Handle => InterType::Handle,
        InterType::Variant(arms) => InterType::Variant(copy_named_types(arms)),
        InterType::Record(fields) => InterType::Record(copy_named_types(fields)),
        InterType::List(elem) => InterType::List(Box::new(copy_type(elem))),
        InterType::Tuple(elems) => InterType::Tuple(copy_types(elems)),
        InterType::Flags(names) => InterType::Flags(copy_names(names)),
        InterType::Enum(names) => InterType::Enum(copy_names(names)),
        InterType::Option(inner) => InterType::Option(Box::new(copy_type(inner))),
        InterType::Union(alts) => InterType::Union(copy_types(alts)),
        InterType::Result(ok, err) => InterType::Result(
            Box::new(copy_type(ok)),
            Box::new(copy_type(err)),
        ),
    };
    proof {
        lemma_view_unfold(*t);
        lemma_view_unfold(r);
    }
    r
}

impl Clone for InterType {
    /// A copy that denotes the same descriptor.
    fn clone(&self) -> (r: InterType)
        ensures
            r@ == self@,
    {
        copy_type(self)
    }
}

fn same_names(a: &Vec<String>, b: &Vec<String>) -> (r: bool)
    ensures
        r == (names_model(a@) == names_model(b@)),
{
    if a.len() != b.len() {
        assert(names_model(a@).len() != names_model(b@).len());
        return false;
    }
    let mut i: usize = 0;
    while i < a.len()
        invariant
            i <= a.len(),
            a.len() == b.len(),
            forall|j: int| 0 <= j < i ==> a[j]@ == b[j]@,
        decreases a.len() - i,
    {
        if a[i] != b[i] {
            assert(names_model(a@)[i as int] != names_model(b@)[i as int]);
            return false;
        }
        i += 1;
    }
    assert(names_model(a@) =~= names_model(b@));
    true
}

fn same_types(a: &Vec<InterType>, b: &Vec<InterType>) -> (r: bool)
    ensures
        r == (types_model(a@) == types_model(b@)),
    decreases a,
{
    if a.len() != b.len() {
        assert(types_model(a@).len() != types_model(b@).len());
        return false;
    }
    let mut i: usize = 0;
    while i < a.len()
        invariant
            i <= a.len(),
            a.len() == b.len(),
            forall|j: int| 0 <= j < i ==> a[j]@ == b[j]@,
        decreases a.len() - i,
    {
        proof {
            assert(decreases_to!(a => a[i as int]));
        }
        if !same_type(&a[i], &b[i]) {
            assert(types_model(a@)[i as int] != types_model(b@)[i as int]);
            return false;
        }
        i += 1;
    }
    assert(types_model(a@) =~= types_model(b@));
    true
}

fn same_named_types(a: &Vec<(String, InterType)>, b: &Vec<(String, InterType)>) -> (r: bool)
    ensures
        r == (named_types_model(a@) == named_types_model(b@)),
    decreases a,
{
    if a.len() != b.len() {
        assert(named_types_model(a@).len() != named_types_model(b@).len());
        return false;
    }
    let mut i: usize = 0;
    while i < a.len()
        invariant
            i <= a.len(),
            a.len() == b.len(),
            forall|j: int| 0 <= j < i ==> a[j].0@ == b[j].0@ && a[j].1@ == b[j].1@,
        decreases a.len() - i,
    {
        proof {
            assert(decreases_to!(a => a[i as int]));
        }
        if a[i].0 != b[i].0 || !same_type(&a[i].1, &b[i].1) {
            assert(named_types_model(a@)[i as int] != named_types_model(b@)[i as int]);
            return false;
        }
        i += 1;
    }
    assert(named_types_model(a@) =~= named_types_model(b@));
    true
}

fn same_type(a: &InterType, b: &InterType) -> (r: bool)
    ensures
        r == (a@ == b@),
    decreases a,
{
    proof {
        lemma_view_unfold(*a);
        lemma_view_unfold(*b);
    }
    match (a, b) {
        (InterType::S8, InterType::S8) => true,
        (InterType::U8, InterType::U8) => true,
        (InterType::S16, InterType::S16) => true,
        (InterType::U16, InterType::U16) => true,
        (InterType::S32, InterType::S32) => true,
        (InterType::U32, InterType::U32) => true,
        (InterType::S64, InterType::S64) => true,
        (InterType::U64, InterType::U64) => true,
        (InterType::F32, InterType::F32) => true,
        (InterType::F64, InterType::F64) => true,
        (InterType::Char, InterType::Char) => true,
        (InterType::String, InterType::String) => true,
        (InterType::Bool, InterType::Bool) => true,
        (InterType::Handle, InterType::Handle) => true,
        (InterType::Variant(x), InterType::Variant(y)) => same_named_types(x, y),
        (InterType::Record(x), InterType::Record(y)) => same_named_types(x, y),
        (InterType::List(x), InterType::List(y)) => same_type(x, y),
        (InterType::Tuple(x), InterType::Tuple(y)) => same_types(x, y),
        (InterType::Flags(x), InterType::Flags(y)) => same_names(x, y),
        (InterType::Enum(x), InterType::Enum(y)) => same_names(x, y),
        (InterType::Option(x), InterType::Option(y)) => same_type(x, y),
        (InterType::Union(x), InterType::Union(y)) => same_types(x, y),
        (InterType::Result(x, e), InterType::Result(y, f)) => same_type(x, y) && same_type(e, f),
        _ => false,
    }
}

impl PartialEq for InterType {
    /// Structural equality: the two descriptors denote the same shape.
    fn eq(&self, other: &InterType) -> (r: bool) {
        same_type(self, other)
    }
}

impl Eq for InterType {

}

impl PartialEqSpecImpl for InterType {
    open spec fn obeys_eq_spec() -> bool {
        true
    }

    open spec fn eq_spec(&self, other: &InterType) -> bool {
        self@ == other@
    }
}

} // verus!
