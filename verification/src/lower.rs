use crate::convert::InterTypeable;
use crate::float::{Binary32, Binary64};
use crate::handle::share;
use crate::text::{
    bool_text, char_text, int_text, lemma_fixed_texts, lemma_int_text_injective, nan_text,
    render_bool, render_char, render_nan, render_signed, render_unsigned,
};
use crate::types::InterType;
use crate::val::{InterVal, ValModel};
use io_extras::grip::OwnedGrip;
use std::borrow::Cow;
use std::sync::Arc;
use vstd::prelude::*;

verus! {

/// How typed values are lowered into a child's invocation surface. One
/// strategy exists; the choice is kept explicit so that others can be added.
#[derive(Debug, Clone, Copy, PartialEq, Eq, Structural)]
pub enum Convention {
    Implicit,
}

/// The descriptor number given to the first handle. The numbers below it
/// belong to the child's standard input, output and error streams.
pub const FIRST_DESCRIPTOR: i32 = 3;

/// What one lowered entry shows to the child: a text, or a float that is a
/// number, whose decimal text is produced where the process is launched.
#[derive(Debug)]
pub enum Rendered {
    Text(String),
    Single(Binary32),
    Double(Binary64),
}

/// The mathematical value of a [`Rendered`].
pub enum RenderedModel {
    Text(Seq<char>),
    Single(Binary32),
    Double(Binary64),
}

impl View for Rendered {
    type V = RenderedModel;

    open spec fn view(&self) -> RenderedModel {
        match self {
            Rendered::Text(s) => RenderedModel::Text(s@),
            Rendered::Single(x) => RenderedModel::Single(*x),
            Rendered::Double(x) => RenderedModel::Double(*x),
        }
    }
}

/// A process specification ready to be launched: the program, the
/// child-visible arguments and environment entries in the order given, and
/// the pending duplications, each a shared resource with the descriptor
/// number at which the child must find it open.
#[derive(Debug)]
pub struct ProcessSpec {
    pub program: String,
    pub args: Vec<Rendered>,
    pub envs: Vec<(String, Rendered)>,
    pub dups: Vec<(Arc<OwnedGrip>, i32)>,
}

/// The mathematical value of a [`ProcessSpec`].
pub struct ProcessModel {
    pub program: Seq<char>,
    pub args: Seq<RenderedModel>,
    pub envs: Seq<(Seq<char>, RenderedModel)>,
    pub dups: Seq<(Arc<OwnedGrip>, int)>,
}

impl View for ProcessSpec {
    type V = ProcessModel;

    open spec fn view(&self) -> ProcessModel {
        ProcessModel {
            program: self.program@,
            args: Seq::new(self.args@.len(), |i: int| self.args@[i]@),
            envs: Seq::new(self.envs@.len(), |i: int| (self.envs@[i].0@, self.envs@[i].1@)),
            dups: Seq::new(self.dups@.len(), |i: int| (self.dups@[i].0, self.dups@[i].1 as int)),
        }
    }
}

/// Where an entry stood: among the arguments or among the environment values.
#[derive(Debug, Clone, Copy, PartialEq, Eq, Structural)]
pub enum Slot {
    Arg,
    Env,
}

/// The lowering of a kind of value is not implemented: the entry at `index`
/// of the arguments or of the environment values has the composite type `kind`.
#[derive(Debug)]
pub struct Unimplemented {
    pub slot: Slot,
    pub index: usize,
    pub kind: InterType,
}

impl Unimplemented {
    /// The place of the offending entry in the sequence of the arguments
    /// followed by the environment values, `args` being the number of arguments.
    pub open spec fn position(self, args: int) -> int {
        match self.slot {
            Slot::Arg => self.index as int,
            Slot::Env => args + self.index,
        }
    }
}

/// The kinds that lowering handles: the scalars, text, and handles.
pub open spec fn lowerable(v: ValModel) -> bool {
    match v {
        ValModel::S8(_)
        | ValModel::U8(_)
        | ValModel::S16(_)
        | ValModel::U16(_)
        | ValModel::S32(_)
        | ValModel::U32(_)
        | ValModel::S64(_)
        | ValModel::U64(_)
        | ValModel::F32(_)
        | ValModel::F64(_)
        | ValModel::Char(_)
        | ValModel::String(_)
        | ValModel::Bool(_)
        | ValModel::Handle(_) => true,
        _ => false,
    }
}

/// What a value that is no handle shows to the child: the decimal text of an
/// integer, `true` or `false`, the character, the string as it is, `NaN` for
/// an absent float, and a present float itself.
pub open spec fn canonical(v: ValModel) -> RenderedModel
    recommends
        lowerable(v),
        !(v is Handle),
{
    match v {
        ValModel::S8(i) => RenderedModel::Text(int_text(i as int)),
        ValModel::U8(i) => RenderedModel::Text(int_text(i as int)),
        ValModel::S16(i) => RenderedModel::Text(int_text(i as int)),
        ValModel::U16(i) => RenderedModel::Text(int_text(i as int)),
        ValModel::S32(i) => RenderedModel::Text(int_text(i as int)),
        ValModel::U32(i) => RenderedModel::Text(int_text(i as int)),
        ValModel::S64(i) => RenderedModel::Text(int_text(i as int)),
        ValModel::U64(i) => RenderedModel::Text(int_text(i as int)),
        ValModel::F32(Some(x)) => RenderedModel::Single(x),
        ValModel::F32(None) => RenderedModel::Text(nan_text()),
        ValModel::F64(Some(x)) => RenderedModel::Double(x),
        ValModel::F64(None) => RenderedModel::Text(nan_text()),
        ValModel::Char(c) => RenderedModel::Text(char_text(c)),
        ValModel::String(s) => RenderedModel::Text(s),
        ValModel::Bool(b) => RenderedModel::Text(bool_text(b)),
        _ => RenderedModel::Text(Seq::empty()),
    }
}

/// What an entry shows to the child when `target` is the next free descriptor
/// number: a handle shows that number, any other value its canonical form.
pub open spec fn lowered(v: ValModel, target: int) -> RenderedModel
    recommends
        lowerable(v),
{
    if v is Handle {
        RenderedModel::Text(int_text(target))
    } else {
        canonical(v)
    }
}

/// The duplications pending after the first `n` entries: one for each handle
/// met, in the order met, numbered upwards from [`FIRST_DESCRIPTOR`].
pub open spec fn pending_upto(entries: Seq<ValModel>, n: int) -> Seq<(Arc<OwnedGrip>, int)>
    decreases n,
{
    if n <= 0 {
        Seq::empty()
    } else {
        let before = pending_upto(entries, n - 1);
        match entries[n - 1] {
            ValModel::Handle(h) => before.push((h, FIRST_DESCRIPTOR + before.len())),
            _ => before,
        }
    }
}

/// The duplications that a sequence of entries asks for.
pub open spec fn pending(entries: Seq<ValModel>) -> Seq<(Arc<OwnedGrip>, int)> {
    pending_upto(entries, entries.len() as int)
}

/// The number of handles among the first `n` entries.
pub open spec fn handles_before(entries: Seq<ValModel>, n: int) -> nat {
    pending_upto(entries, n).len()
}

/// The descriptor number that is free when entry `i` is reached, which is the
/// one that entry gets if it is a handle.
pub open spec fn target_at(entries: Seq<ValModel>, i: int) -> int {
    FIRST_DESCRIPTOR + handles_before(entries, i)
}

/// The arguments followed by the environment values: the order in which
/// lowering meets the entries.
pub open spec fn combined(args: Seq<ValModel>, envs: Seq<(Seq<char>, ValModel)>) -> Seq<ValModel> {
    args + Seq::new(envs.len(), |i: int| envs[i].1)
}

/// The process specification that lowering yields where every entry is of a
/// kind it handles.
pub open spec fn lowering(
    program: Seq<char>,
    args: Seq<ValModel>,
    envs: Seq<(Seq<char>, ValModel)>,
) -> ProcessModel {
    let entries = combined(args, envs);
    ProcessModel {
        program,
        args: Seq::new(args.len(), |i: int| lowered(args[i], target_at(entries, i))),
        envs: Seq::new(
            envs.len(),
            |i: int| (envs[i].0, lowered(envs[i].1, target_at(entries, args.len() + i))),
        ),
        dups: pending(entries),
    }
}

/// Every entry is of a kind that lowering handles.
pub open spec fn all_lowerable(entries: Seq<ValModel>) -> bool {
    forall|i: int| 0 <= i < entries.len() ==> lowerable(#[trigger] entries[i])
}

/// The error names the first entry that lowering does not handle: its place
/// among `args` arguments or `envs` environment values, every entry before it
/// being handled, and the type it derives.
pub open spec fn is_first_unsupported(
    entries: Seq<ValModel>,
    args: nat,
    envs: nat,
    e: Unimplemented,
) -> bool {
    let at = e.position(args as int);
    &&& e.slot == Slot::Arg ==> e.index < args
    &&& e.slot == Slot::Env ==> e.index < envs
    &&& !lowerable(entries[at])
    &&& forall|i: int| 0 <= i < at ==> lowerable(#[trigger] entries[i])
    &&& e.kind@ == entries[at].ty()
}

/// The models of the arguments handed to lowering.
pub open spec fn args_model(args: Seq<InterVal>) -> Seq<ValModel> {
    Seq::new(args.len(), |i: int| args[i]@)
}

/// The models of the environment entries handed to lowering.
pub open spec fn envs_model(envs: Seq<(String, InterVal)>) -> Seq<(Seq<char>, ValModel)> {
    Seq::new(envs.len(), |i: int| (envs[i].0@, envs[i].1@))
}

/// The duplications pending after fewer entries are the first of those
/// pending after more.
pub proof fn lemma_pending_grows(entries: Seq<ValModel>, n: int, m: int)
    requires
        n <= m,
    ensures
        pending_upto(entries, n).len() <= pending_upto(entries, m).len(),
        forall|k: int|
            0 <= k < pending_upto(entries, n).len() ==> pending_upto(entries, n)[k]
                == pending_upto(entries, m)[k],
    decreases m - n,
{
    if n < m {
        lemma_pending_grows(entries, n, m - 1);
    }
}

/// There are no more pending duplications than entries.
pub proof fn lemma_pending_bounded(entries: Seq<ValModel>, n: int)
    requires
        0 <= n,
    ensures
        pending_upto(entries, n).len() <= n,
    decreases n,
{
    if n > 0 {
        lemma_pending_bounded(entries, n - 1);
    }
}

fn text_of(s: &Cow<'static, str>) -> (r: String)
    ensures
        r@ == s@,
{
    match s {
        Cow::Borrowed(b) => (*b).to_owned(),
        Cow::Owned(o) => o.clone(),
    }
}

/// Lowers one entry: its child-visible form, and for a handle one more
/// pending duplication at the next free descriptor number. `None` for a kind
/// that lowering does not handle.
fn lower_entry(v: &InterVal, next: &mut i32, dups: &mut Vec<(Arc<OwnedGrip>, i32)>) -> (r: Option<
    Rendered,
>)
    requires
        v@ is Handle ==> *old(next) < i32::MAX,
    ensures
        r is Some <==> lowerable(v@),
        r matches Some(t) ==> t@ == lowered(v@, *old(next) as int),
        match v@ {
            ValModel::Handle(h) => {
                &&& final(dups)@ == old(dups)@.push((h, *old(next)))
                &&& *final(next) == *old(next) + 1
            },
            _ => final(dups)@ == old(dups)@ && *final(next) == *old(next),
        },
{
    match v {
        InterVal::S8(i) => Some(Rendered::Text(render_signed(*i as i64))),
        InterVal::U8(i) => Some(Rendered::Text(render_unsigned(*i as u64))),
        InterVal::S16(i) => Some(Rendered::Text(render_signed(*i as i64))),
        InterVal::U16(i) => Some(Rendered::Text(render_unsigned(*i as u64))),
        InterVal::S32(i) => Some(Rendered::Text(render_signed(*i as i64))),
        InterVal::U32(i) => Some(Rendered::Text(render_unsigned(*i as u64))),
        InterVal::S64(i) => Some(Rendered::Text(render_signed(*i))),
        InterVal::U64(i) => Some(Rendered::Text(render_unsigned(*i))),
        InterVal::F32(f) => match f {
            Some(x) => Some(Rendered::Single(*x)),
            None => Some(Rendered::Text(render_nan())),
        },
        InterVal::F64(f) => match f {
            Some(x) => Some(Rendered::Double(*x)),
            None => Some(Rendered::Text(render_nan())),
        },
        InterVal::Bool(b) => Some(Rendered::Text(render_bool(*b))),
        InterVal::Char(c) => Some(Rendered::Text(render_char(*c))),
        InterVal::String(s) => Some(Rendered::Text(text_of(s))),
        InterVal::Handle(handle) => {
            let target = *next;
            dups.push((share(handle), target));
            *next = target + 1;
            Some(Rendered::Text(render_signed(target as i64)))
        },
        _ => None,
    }
}

impl ProcessSpec {
    /// Whether a pre-launch action is owed: there is one exactly when some
    /// duplication is pending.
    pub fn needs_pre_launch(&self) -> (r: bool)
        ensures
            r == (self@.dups.len() > 0),
    {
        self.dups.len() > 0
    }
}

/// The descriptor numbers needed fit the descriptor type: the number after
/// the last one given is at most `i32::MAX`.
pub open spec fn descriptors_fit(entries: Seq<ValModel>) -> bool {
    FIRST_DESCRIPTOR + pending(entries).len() <= i32::MAX
}

/// Tests whether the handles among the arguments and environment values can
/// all be numbered, which [`make_command`] requires.
pub fn descriptors_suffice(args: &[InterVal], envs: &[(String, InterVal)]) -> (r: bool)
    ensures
        r == descriptors_fit(combined(args_model(args@), envs_model(envs@))),
{
    let ghost entries = combined(args_model(args@), envs_model(envs@));
    let limit: usize = (i32::MAX - FIRST_DESCRIPTOR) as usize;
    let mut count: usize = 0;
    let mut i: usize = 0;
    while i < args.len()
        invariant
            entries == combined(args_model(args@), envs_model(envs@)),
            limit == i32::MAX - FIRST_DESCRIPTOR,
            i <= args.len(),
            count == pending_upto(entries, i as int).len(),
            count <= limit,
        decreases args.len() - i,
    {
        proof {
            assert(entries[i as int] == args[i as int]@);
            lemma_pending_grows(entries, i + 1, entries.len() as int);
        }
        if let InterVal::Handle(_) = &args[i] {
            if count == limit {
                return false;
            }
            count += 1;
        }
        i += 1;
    }
    let mut i: usize = 0;
    while i < envs.len()
        invariant
            entries == combined(args_model(args@), envs_model(envs@)),
            limit == i32::MAX - FIRST_DESCRIPTOR,
            i <= envs.len(),
            count == pending_upto(entries, args.len() + i).len(),
            count <= limit,
        decreases envs.len() - i,
    {
        proof {
            assert(entries[args.len() + i] == envs[i as int].1@);
            lemma_pending_grows(entries, args.len() + i + 1, entries.len() as int);
        }
        if let InterVal::Handle(_) = &envs[i].1 {
            if count == limit {
                return false;
            }
            count += 1;
        }
        i += 1;
    }
    assert(entries.len() == args.len() + envs.len());
    true
}

/// Lowers a program path, arguments and named environment values into a
/// process specification.
///
/// Every entry must be a scalar, a string or a handle. A scalar or a string
/// becomes its canonical text. A handle becomes the decimal text of the next
/// free descriptor number, counted from [`FIRST_DESCRIPTOR`] over the
/// arguments and then the environment values, and adds a pending duplication
/// of its resource onto that number. The first entry of any other kind fails
/// the call, and nothing is produced.
pub fn make_command(
    program: &str,
    args: &[InterVal],
    envs: &[(String, InterVal)],
    convention: Convention,
) -> (r: Result<ProcessSpec, Unimplemented>)
    requires
        descriptors_fit(combined(args_model(args@), envs_model(envs@))),
    ensures
        r is Ok <==> all_lowerable(combined(args_model(args@), envs_model(envs@))),
        r matches Ok(spec) ==> spec@ == lowering(program@, args_model(args@), envs_model(envs@)),
        r matches Err(e) ==> is_first_unsupported(
            combined(args_model(args@), envs_model(envs@)),
            args@.len(),
            envs@.len(),
            e,
        ),
{
    let ghost arg_models = args_model(args@);
    let ghost env_models = envs_model(envs@);
    let ghost entries = combined(arg_models, env_models);
    let mut dups: Vec<(Arc<OwnedGrip>, i32)> = Vec::new();
    let mut next: i32 = FIRST_DESCRIPTOR;

    match convention {
        Convention::Implicit => {},
    }

    let mut out_args: Vec<Rendered> = Vec::new();
    let mut i: usize = 0;
    while i < args.len()
        invariant
            arg_models == args_model(args@),
            env_models == envs_model(envs@),
            entries == combined(arg_models, env_models),
            descriptors_fit(entries),
            i <= args.len(),
            out_args.len() == i,
            next == FIRST_DESCRIPTOR + dups.len(),
            dups.len() == pending_upto(entries, i as int).len(),
            forall|k: int|
                0 <= k < dups.len() ==> (dups[k].0, dups[k].1 as int) == pending_upto(
                    entries,
                    i as int,
                )[k],
            forall|j: int| 0 <= j < i ==> lowerable(#[trigger] entries[j]),
            forall|j: int|
                0 <= j < i ==> (#[trigger] out_args[j])@ == lowered(
                    arg_models[j],
                    target_at(entries, j),
                ),
        decreases args.len() - i,
    {
        proof {
            assert(entries[i as int] == args[i as int]@);
            lemma_pending_grows(entries, i + 1, entries.len() as int);
        }
        match lower_entry(&args[i], &mut next, &mut dups) {
            Some(text) => {
                out_args.push(text);
            },
            None => {
                return Err(Unimplemented { slot: Slot::Arg, index: i, kind: args[i].ty() });
            },
        }
        i += 1;
    }

    let mut out_envs: Vec<(String, Rendered)> = Vec::new();
    let mut i: usize = 0;
    while i < envs.len()
        invariant
            arg_models == args_model(args@),
            env_models == envs_model(envs@),
            entries == combined(arg_models, env_models),
            descriptors_fit(entries),
            i <= envs.len(),
            out_envs.len() == i,
            next == FIRST_DESCRIPTOR + dups.len(),
            dups.len() == pending_upto(entries, args.len() + i).len(),
            forall|k: int|
                0 <= k < dups.len() ==> (dups[k].0, dups[k].1 as int) == pending_upto(
                    entries,
                    args.len() + i,
                )[k],
            forall|j: int| 0 <= j < args.len() + i ==> lowerable(#[trigger] entries[j]),
            forall|j: int|
                0 <= j < i ==> (#[trigger] out_envs[j]).0@ == env_models[j].0 && out_envs[j].1@
                    == lowered(env_models[j].1, target_at(entries, args.len() + j)),
        decreases envs.len() - i,
    {
        proof {
            assert(entries[args.len() + i] == envs[i as int].1@);
            lemma_pending_grows(entries, args.len() + i + 1, entries.len() as int);
        }
        match lower_entry(&envs[i].1, &mut next, &mut dups) {
            Some(text) => {
                out_envs.push((envs[i].0.clone(), text));
            },
            None => {
                return Err(Unimplemented { slot: Slot::Env, index: i, kind: envs[i].1.ty() });
            },
        }
        i += 1;
    }

    let spec = ProcessSpec { program: program.to_owned(), args: out_args, envs: out_envs, dups };
    proof {
        let expected = lowering(program@, arg_models, env_models);
        assert(entries.len() == args.len() + envs.len());
        assert(spec@.args =~= expected.args);
        assert(spec@.envs =~= expected.envs);
        assert(spec@.dups =~= expected.dups);
    }
    Ok(spec)
}

/// The test for a handle, as a function.
pub open spec fn is_handle() -> spec_fn(ValModel) -> bool {
    |v: ValModel| v is Handle
}

proof fn lemma_pending_is_filter(entries: Seq<ValModel>, n: int)
    requires
        0 <= n <= entries.len(),
    ensures
        pending_upto(entries, n).len() == entries.take(n).filter(is_handle()).len(),
        forall|j: int|
            0 <= j < pending_upto(entries, n).len() ==> #[trigger] pending_upto(entries, n)[j] == (
                entries.take(n).filter(is_handle())[j]->Handle_0,
                FIRST_DESCRIPTOR + j,
            ),
    decreases n,
{
    reveal(Seq::filter);
    if n > 0 {
        lemma_pending_is_filter(entries, n - 1);
        assert(entries.take(n).drop_last() =~= entries.take(n - 1));
        assert(entries.take(n).last() == entries[n - 1]);
    }
}

/// Descriptor allocation: the pending duplications are those of the handles
/// among the entries, in the order met, and the `j`-th of them has the
/// descriptor number `FIRST_DESCRIPTOR + j`. With `k` handles the numbers
/// given are 3, 4, and so on up to `3 + k - 1`.
pub proof fn lemma_descriptor_allocation(entries: Seq<ValModel>)
    ensures
        pending(entries).len() == entries.filter(is_handle()).len(),
        forall|j: int|
            0 <= j < pending(entries).len() ==> #[trigger] pending(entries)[j] == (
                entries.filter(is_handle())[j]->Handle_0,
                FIRST_DESCRIPTOR + j,
            ),
{
    lemma_pending_is_filter(entries, entries.len() as int);
    assert(entries.take(entries.len() as int) =~= entries);
}

/// A handle among the entries shows the child the descriptor number free
/// when it is met, and the duplication pending under that number is that of
/// its own resource.
pub proof fn lemma_handle_is_pending(entries: Seq<ValModel>, i: int)
    requires
        0 <= i < entries.len(),
        entries[i] is Handle,
    ensures
        handles_before(entries, i) < pending(entries).len(),
        pending(entries)[handles_before(entries, i) as int] == (
            entries[i]->Handle_0,
            target_at(entries, i),
        ),
        lowered(entries[i], target_at(entries, i)) == RenderedModel::Text(
            int_text(target_at(entries, i)),
        ),
{
    lemma_pending_grows(entries, i + 1, entries.len() as int);
}

/// Aliasing: one shared handle in two places gets two different descriptor
/// numbers, shown as two different texts, and both pending duplications are
/// of that same resource.
pub proof fn lemma_shared_handle_twice(entries: Seq<ValModel>, i: int, j: int)
    requires
        0 <= i < j < entries.len(),
        entries[i] is Handle,
        entries[j] == entries[i],
    ensures
        target_at(entries, i) < target_at(entries, j),
        lowered(entries[i], target_at(entries, i)) != lowered(entries[j], target_at(entries, j)),
        pending(entries)[handles_before(entries, i) as int].0 == entries[i]->Handle_0,
        pending(entries)[handles_before(entries, j) as int].0 == entries[i]->Handle_0,
{
    lemma_handle_is_pending(entries, i);
    lemma_handle_is_pending(entries, j);
    lemma_pending_grows(entries, i + 1, j);
    if int_text(target_at(entries, i)) == int_text(target_at(entries, j)) {
        lemma_int_text_injective(target_at(entries, i), target_at(entries, j));
    }
}

/// Scalars keep their place and their canonical text: where every argument is
/// of a kind that lowering handles and none is a handle, there are as many
/// child-visible arguments as arguments, each the canonical form of the value
/// in its place, and the arguments ask for no duplication.
pub proof fn lemma_scalars_lower_in_place(
    program: Seq<char>,
    args: Seq<ValModel>,
    envs: Seq<(Seq<char>, ValModel)>,
)
    requires
        forall|i: int| 0 <= i < args.len() ==> lowerable(#[trigger] args[i]) && !(args[i] is Handle),
    ensures
        lowering(program, args, envs).args.len() == args.len(),
        forall|i: int|
            0 <= i < args.len() ==> #[trigger] lowering(program, args, envs).args[i] == canonical(
                args[i],
            ),
        handles_before(combined(args, envs), args.len() as int) == 0,
        envs.len() == 0 ==> lowering(program, args, envs).dups.len() == 0,
{
    let entries = combined(args, envs);
    lemma_no_handles_none_pending(entries, args.len() as int);
}

proof fn lemma_no_handles_none_pending(entries: Seq<ValModel>, n: int)
    requires
        n <= entries.len(),
        forall|i: int| 0 <= i < n ==> !(#[trigger] entries[i] is Handle),
    ensures
        pending_upto(entries, n).len() == 0,
    decreases n,
{
    if n > 0 {
        lemma_no_handles_none_pending(entries, n - 1);
    }
}

/// A float that is not a number converts to the absent value, and lowers to
/// the text `NaN`.
pub proof fn lemma_nan_lowers_to_text(single: Binary32, double: Binary64, target: int)
    ensures
        single.spec_is_nan() ==> single.val_model() == ValModel::F32(None) && lowered(
            single.val_model(),
            target,
        ) == RenderedModel::Text("NaN"@),
        double.spec_is_nan() ==> double.val_model() == ValModel::F64(None) && lowered(
            double.val_model(),
            target,
        ) == RenderedModel::Text("NaN"@),
        !single.spec_is_nan() ==> lowered(single.val_model(), target) == RenderedModel::Single(
            single,
        ),
        !double.spec_is_nan() ==> lowered(double.val_model(), target) == RenderedModel::Double(
            double,
        ),
{
    lemma_fixed_texts();
}

/// No composite kind is lowered: a record, a tuple, a variant, an enum,
/// flags, a union, an optional, a result and a list all fail the call.
pub proof fn lemma_composites_rejected(v: ValModel)
    ensures
        lowerable(v) <==> !(v is Variant || v is Record || v is List || v is Tuple || v is Flags
            || v is Enum || v is Option || v is Union || v is Result),
{
}

} // verus!
