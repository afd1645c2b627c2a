use crate::float::{Binary32, Binary64};
use crate::types::{InterType, TypeModel};
use crate::val::{lemma_val_unfold, vals_model, InterVal, ValModel};
use io_extras::grip::OwnedGrip;
use std::borrow::Cow;
use std::sync::Arc;
use vstd::prelude::*;
use vstd::std_specs::convert::FromSpecImpl;

verus! {

/// A native kind that converts into an [`InterVal`] and knows its own
/// descriptor.
///
/// Whatever implements this trait promises, and proves, that the value a
/// datum converts to is well formed and derives the descriptor of the kind.
/// `into_val` is the conversion with a contract; `From` and `Into` are the
/// same conversion for the kinds implemented here.
pub trait InterTypeable: Into<InterVal> {
    /// The descriptor of this kind.
    spec fn type_model() -> TypeModel;

    /// The value that a datum of this kind converts to.
    spec fn val_model(self) -> ValModel;

    /// The value that a datum converts to is well formed, and the descriptor
    /// it derives is the descriptor of the kind.
    proof fn lemma_converts_typed(self)
        ensures
            self.val_model().wf(),
            self.val_model().ty() == Self::type_model(),
    ;

    /// The descriptor of this kind.
    fn inter_ty() -> (t: InterType)
        ensures
            t@ == Self::type_model(),
    ;

    /// Converts the datum.
    fn into_val(self) -> (v: InterVal)
        ensures
            v@ == self.val_model(),
    ;
}

impl InterTypeable for i8 {
    open spec fn type_model() -> TypeModel {
        TypeModel::S8
    }

    open spec fn val_model(self) -> ValModel {
        ValModel::S8(self)
    }

    proof fn lemma_converts_typed(self) {
    }

    fn inter_ty() -> InterType {
        InterType::S8
    }

    fn into_val(self) -> InterVal {
        InterVal::S8(self)
    }
}

impl From<i8> for InterVal {
    fn from(val: i8) -> (v: InterVal)
        ensures
            v@ == val.val_model(),
    {
        InterVal::S8(val)
    }
}

impl FromSpecImpl<i8> for InterVal {
    open spec fn obeys_from_spec() -> bool {
        true
    }

    open spec fn from_spec(val: i8) -> InterVal {
        InterVal::S8(val)
    }
}

impl InterTypeable for u8 {
    open spec fn type_model() -> TypeModel {
        TypeModel::U8
    }

    open spec fn val_model(self) -> ValModel {
        ValModel::U8(self)
    }

    proof fn lemma_converts_typed(self) {
    }

    fn inter_ty() -> InterType {
        InterType::U8
    }

    fn into_val(self) -> InterVal {
        InterVal::U8(self)
    }
}

impl From<u8> for InterVal {
    fn from(val: u8) -> (v: InterVal)
        ensures
            v@ == val.val_model(),
    {
        InterVal::U8(val)
    }
}

impl FromSpecImpl<u8> for InterVal {
    open spec fn obeys_from_spec() -> bool {
        true
    }

    open spec fn from_spec(val: u8) -> InterVal {
        InterVal::U8(val)
    }
}

impl InterTypeable for i16 {
    open spec fn type_model() -> TypeModel {
        TypeModel::S16
    }

    open spec fn val_model(self) -> ValModel {
        ValModel::S16(self)
    }

    proof fn lemma_converts_typed(self) {
    }

    fn inter_ty() -> InterType {
        InterType::S16
    }

    fn into_val(self) -> InterVal {
        InterVal::S16(self)
    }
}

impl From<i16> for InterVal {
    fn from(val: i16) -> (v: InterVal)
        ensures
            v@ == val.val_model(),
    {
        InterVal::S16(val)
    }
}

impl FromSpecImpl<i16> for InterVal {
    open spec fn obeys_from_spec() -> bool {
        true
    }

    open spec fn from_spec(val: i16) -> InterVal {
        InterVal::S16(val)
    }
}

impl InterTypeable for u16 {
    open spec fn type_model() -> TypeModel {
        TypeModel::U16
    }

    open spec fn val_model(self) -> ValModel {
        ValModel::U16(self)
    }

    proof fn lemma_converts_typed(self) {
    }

    fn inter_ty() -> InterType {
        InterType::U16
    }

    fn into_val(self) -> InterVal {
        InterVal::U16(self)
    }
}

impl From<u16> for InterVal {
    fn from(val: u16) -> (v: InterVal)
        ensures
            v@ == val.val_model(),
    {
        InterVal::U16(val)
    }
}

impl FromSpecImpl<u16> for InterVal {
    open spec fn obeys_from_spec() -> bool {
        true
    }

    open spec fn from_spec(val: u16) -> InterVal {
        InterVal::U16(val)
    }
}

impl InterTypeable for i32 {
    open spec fn type_model() -> TypeModel {
        TypeModel::S32
    }

    open spec fn val_model(self) -> ValModel {
        ValModel::S32(self)
    }

    proof fn lemma_converts_typed(self) {
    }

    fn inter_ty() -> InterType {
        InterType::S32
    }

    fn into_val(self) -> InterVal {
        InterVal::S32(self)
    }
}

impl From<i32> for InterVal {
    fn from(val: i32) -> (v: InterVal)
        ensures
            v@ == val.val_model(),
    {
        InterVal::S32(val)
    }
}

impl FromSpecImpl<i32> for InterVal {
    open spec fn obeys_from_spec() -> bool {
        true
    }

    open spec fn from_spec(val: i32) -> InterVal {
        InterVal::S32(val)
    }
}

impl InterTypeable for u32 {
    open spec fn type_model() -> TypeModel {
        TypeModel::U32
    }

    open spec fn val_model(self) -> ValModel {
        ValModel::U32(self)
    }

    proof fn lemma_converts_typed(self) {
    }

    fn inter_ty() -> InterType {
        InterType::U32
    }

    fn into_val(self) -> InterVal {
        InterVal::U32(self)
    }
}

impl From<u32> for InterVal {
    fn from(val: u32) -> (v: InterVal)
        ensures
            v@ == val.val_model(),
    {
        InterVal::U32(val)
    }
}

impl FromSpecImpl<u32> for InterVal {
    open spec fn obeys_from_spec() -> bool {
        true
    }

    open spec fn from_spec(val: u32) -> InterVal {
        InterVal::U32(val)
    }
}

impl InterTypeable for i64 {
    open spec fn type_model() -> TypeModel {
        TypeModel::S64
    }

    open spec fn val_model(self) -> ValModel {
        ValModel::S64(self)
    }

    proof fn lemma_converts_typed(self) {
    }

    fn inter_ty() -> InterType {
        InterType::S64
    }

    fn into_val(self) -> InterVal {
        InterVal::S64(self)
    }
}

impl From<i64> for InterVal {
    fn from(val: i64) -> (v: InterVal)
        ensures
            v@ == val.val_model(),
    {
        InterVal::S64(val)
    }
}

impl FromSpecImpl<i64> for InterVal {
    open spec fn obeys_from_spec() -> bool {
        true
    }

    open spec fn from_spec(val: i64) -> InterVal {
        InterVal::S64(val)
    }
}

impl InterTypeable for u64 {
    open spec fn type_model() -> TypeModel {
        TypeModel::U64
    }

    open spec fn val_model(self) -> ValModel {
        ValModel::U64(self)
    }

    proof fn lemma_converts_typed(self) {
    }

    fn inter_ty() -> InterType {
        InterType::U64
    }

    fn into_val(self) -> InterVal {
        InterVal::U64(self)
    }
}

impl From<u64> for InterVal {
    fn from(val: u64) -> (v: InterVal)
        ensures
            v@ == val.val_model(),
    {
        InterVal::U64(val)
    }
}

impl FromSpecImpl<u64> for InterVal {
    open spec fn obeys_from_spec() -> bool {
        true
    }

    open spec fn from_spec(val: u64) -> InterVal {
        InterVal::U64(val)
    }
}

/// A float converts to itself where it is a number, and to the absent
/// value where it is not.
impl InterTypeable for Binary32 {
    open spec fn type_model() -> TypeModel {
        TypeModel::F32
    }

    open spec fn val_model(self) -> ValModel {
        ValModel::F32(
            if self.spec_is_nan() {
                None
            } else {
                Some(self)
            },
        )
    }

    proof fn lemma_converts_typed(self) {
    }

    fn inter_ty() -> InterType {
        InterType::F32
    }

    fn into_val(self) -> InterVal {
        if self.is_nan() {
            InterVal::F32(None)
        } else {
            InterVal::F32(Some(self))
        }
    }
}

impl From<Binary32> for InterVal {
    fn from(val: Binary32) -> (v: InterVal)
        ensures
            v@ == val.val_model(),
    {
        if val.is_nan() {
            InterVal::F32(None)
        } else {
            InterVal::F32(Some(val))
        }
    }
}

impl FromSpecImpl<Binary32> for InterVal {
    open spec fn obeys_from_spec() -> bool {
        true
    }

    open spec fn from_spec(val: Binary32) -> InterVal {
        if val.spec_is_nan() {
            InterVal::F32(None)
        } else {
            InterVal::F32(Some(val))
        }
    }
}

/// A float converts to itself where it is a number, and to the absent
/// value where it is not.
impl InterTypeable for Binary64 {
    open spec fn type_model() -> TypeModel {
        TypeModel::F64
    }

    open spec fn val_model(self) -> ValModel {
        ValModel::F64(
            if self.spec_is_nan() {
                None
            } else {
                Some(self)
            },
        )
    }

    proof fn lemma_converts_typed(self) {
    }

    fn inter_ty() -> InterType {
        InterType::F64
    }

    fn into_val(self) -> InterVal {
        if self.is_nan() {
            InterVal::F64(None)
        } else {
            InterVal::F64(Some(self))
        }
    }
}

impl From<Binary64> for InterVal {
    fn from(val: Binary64) -> (v: InterVal)
        ensures
            v@ == val.val_model(),
    {
        if val.is_nan() {
            InterVal::F64(None)
        } else {
            InterVal::F64(Some(val))
        }
    }
}

impl FromSpecImpl<Binary64> for InterVal {
    open spec fn obeys_from_spec() -> bool {
        true
    }

    open spec fn from_spec(val: Binary64) -> InterVal {
        if val.spec_is_nan() {
            InterVal::F64(None)
        } else {
            InterVal::F64(Some(val))
        }
    }
}

fn char_val(c: char) -> (v: InterVal)
    ensures
        v == InterVal::Char(c),
        v@ == ValModel::Char(c),
{
    InterVal::Char(c)
}

impl InterTypeable for char {
    open spec fn type_model() -> TypeModel {
        TypeModel::Char
    }

    open spec fn val_model(self) -> ValModel {
        ValModel::Char(self)
    }

    proof fn lemma_converts_typed(self) {
    }

    fn inter_ty() -> InterType {
        InterType::Char
    }

    fn into_val(self) -> InterVal {
        char_val(self)
    }
}

impl From<char> for InterVal {
    fn from(val: char) -> (v: InterVal)
        ensures
            v@ == val.val_model(),
    {
        char_val(val)
    }
}

impl FromSpecImpl<char> for InterVal {
    open spec fn obeys_from_spec() -> bool {
        true
    }

    open spec fn from_spec(val: char) -> InterVal {
        InterVal::Char(val)
    }
}

impl InterTypeable for std::string::String {
    open spec fn type_model() -> TypeModel {
        TypeModel::String
    }

    open spec fn val_model(self) -> ValModel {
        ValModel::String(self@)
    }

    proof fn lemma_converts_typed(self) {
    }

    fn inter_ty() -> InterType {
        InterType::String
    }

    fn into_val(self) -> InterVal {
        InterVal::String(Cow::Owned(self))
    }
}

impl From<std::string::String> for InterVal {
    fn from(val: std::string::String) -> (v: InterVal)
        ensures
            v@ == val.val_model(),
    {
        InterVal::String(Cow::Owned(val))
    }
}

impl FromSpecImpl<std::string::String> for InterVal {
    open spec fn obeys_from_spec() -> bool {
        true
    }

    open spec fn from_spec(val: std::string::String) -> InterVal {
        InterVal::String(Cow::Owned(val))
    }
}

impl InterTypeable for &'static str {
    open spec fn type_model() -> TypeModel {
        TypeModel::String
    }

    open spec fn val_model(self) -> ValModel {
        ValModel::String(self@)
    }

    proof fn lemma_converts_typed(self) {
    }

    fn inter_ty() -> InterType {
        InterType::String
    }

    fn into_val(self) -> InterVal {
        InterVal::String(Cow::Borrowed(self))
    }
}

impl From<&'static str> for InterVal {
    fn from(val: &'static str) -> (v: InterVal)
        ensures
            v@ == val.val_model(),
    {
        InterVal::String(Cow::Borrowed(val))
    }
}

impl FromSpecImpl<&'static str> for InterVal {
    open spec fn obeys_from_spec() -> bool {
        true
    }

    open spec fn from_spec(val: &'static str) -> InterVal {
        InterVal::String(Cow::Borrowed(val))
    }
}

impl InterTypeable for bool {
    open spec fn type_model() -> TypeModel {
        TypeModel::Bool
    }

    open spec fn val_model(self) -> ValModel {
        ValModel::Bool(self)
    }

    proof fn lemma_converts_typed(self) {
    }

    fn inter_ty() -> InterType {
        InterType::Bool
    }

    fn into_val(self) -> InterVal {
        InterVal::Bool(self)
    }
}

impl From<bool> for InterVal {
    fn from(val: bool) -> (v: InterVal)
        ensures
            v@ == val.val_model(),
    {
        InterVal::Bool(val)
    }
}

impl FromSpecImpl<bool> for InterVal {
    open spec fn obeys_from_spec() -> bool {
        true
    }

    open spec fn from_spec(val: bool) -> InterVal {
        InterVal::Bool(val)
    }
}

impl InterTypeable for Arc<OwnedGrip> {
    open spec fn type_model() -> TypeModel {
        TypeModel::Handle
    }

    open spec fn val_model(self) -> ValModel {
        ValModel::Handle(self)
    }

    proof fn lemma_converts_typed(self) {
    }

    fn inter_ty() -> InterType {
        InterType::Handle
    }

    fn into_val(self) -> InterVal {
        InterVal::Handle(self)
    }
}

impl From<Arc<OwnedGrip>> for InterVal {
    fn from(val: Arc<OwnedGrip>) -> (v: InterVal)
        ensures
            v@ == val.val_model(),
    {
        InterVal::Handle(val)
    }
}

impl FromSpecImpl<Arc<OwnedGrip>> for InterVal {
    open spec fn obeys_from_spec() -> bool {
        true
    }

    open spec fn from_spec(val: Arc<OwnedGrip>) -> InterVal {
        InterVal::Handle(val)
    }
}

/// An owned resource converts to a handle: the value takes the resource
/// over and shares it from then on.
impl InterTypeable for OwnedGrip {
    open spec fn type_model() -> TypeModel {
        TypeModel::Handle
    }

    open spec fn val_model(self) -> ValModel {
        ValModel::Handle(Arc::new(self))
    }

    proof fn lemma_converts_typed(self) {
    }

    fn inter_ty() -> InterType {
        InterType::Handle
    }

    fn into_val(self) -> InterVal {
        InterVal::Handle(Arc::new(self))
    }
}

impl From<OwnedGrip> for InterVal {
    fn from(val: OwnedGrip) -> (v: InterVal)
        ensures
            v@ == val.val_model(),
    {
        InterVal::Handle(Arc::new(val))
    }
}

impl FromSpecImpl<OwnedGrip> for InterVal {
    open spec fn obeys_from_spec() -> bool {
        true
    }

    open spec fn from_spec(val: OwnedGrip) -> InterVal {
        InterVal::Handle(Arc::new(val))
    }
}

impl<T: InterTypeable> InterTypeable for Vec<T> {
    open spec fn type_model() -> TypeModel {
        TypeModel::List(Box::new(T::type_model()))
    }

    open spec fn val_model(self) -> ValModel {
        ValModel::List(
            Box::new(T::type_model()),
            Seq::new(self@.len(), |i: int| self@[i].val_model()),
        )
    }

    proof fn lemma_converts_typed(self) {
        assert forall|i: int| 0 <= i < self@.len() implies (#[trigger] self@[i].val_model()).wf()
            && self@[i].val_model().ty() == T::type_model() by {
            self@[i].lemma_converts_typed();
        }
    }

    fn inter_ty() -> InterType {
        InterType::List(Box::new(T::inter_ty()))
    }

    fn into_val(self) -> InterVal {
        let ghost source = self@;
        let mut items: Vec<InterVal> = Vec::new();
        for x in iter: self
            invariant
                iter.seq() == source,
                items.len() == iter.index(),
                forall|j: int| 0 <= j < items.len() ==> items[j]@ == source[j].val_model(),
        {
            items.push(x.into_val());
        }
        let v = InterVal::List(Box::new(T::inter_ty()), items);
        proof {
            lemma_val_unfold(v);
            assert(vals_model(items@) =~= Seq::new(
                source.len(),
                |i: int| source[i].val_model(),
            ));
        }
        v
    }
}

impl<T: InterTypeable> From<Vec<T>> for InterVal {
    fn from(val: Vec<T>) -> (v: InterVal)
        ensures
            v@ == val.val_model(),
    {
        val.into_val()
    }
}

/// A list's conversion is stated by the `ensures` of `from`, over models.
impl<T: InterTypeable> FromSpecImpl<Vec<T>> for InterVal {
    open spec fn obeys_from_spec() -> bool {
        false
    }

    open spec fn from_spec(val: Vec<T>) -> InterVal {
        arbitrary()
    }
}

impl<T: InterTypeable> InterTypeable for Option<T> {
    open spec fn type_model() -> TypeModel {
        TypeModel::Option(Box::new(T::type_model()))
    }

    open spec fn val_model(self) -> ValModel {
        ValModel::Option(
            Box::new(T::type_model()),
            match self {
                Some(t) => Some(Box::new(t.val_model())),
                None => None,
            },
        )
    }

    proof fn lemma_converts_typed(self) {
        match self {
            Some(t) => {
                t.lemma_converts_typed();
            },
            None => {},
        }
    }

    fn inter_ty() -> InterType {
        InterType::Option(Box::new(T::inter_ty()))
    }

    fn into_val(self) -> InterVal {
        let inner = Box::new(T::inter_ty());
        match self {
            Some(t) => InterVal::Option(inner, Some(Box::new(t.into_val()))),
            None => InterVal::Option(inner, None),
        }
    }
}

impl<T: InterTypeable> From<Option<T>> for InterVal {
    fn from(val: Option<T>) -> (v: InterVal)
        ensures
            v@ == val.val_model(),
    {
        val.into_val()
    }
}

/// An optional's conversion is stated by the `ensures` of `from`, over models.
impl<T: InterTypeable> FromSpecImpl<Option<T>> for InterVal {
    open spec fn obeys_from_spec() -> bool {
        false
    }

    open spec fn from_spec(val: Option<T>) -> InterVal {
        arbitrary()
    }
}

impl<T: InterTypeable, E: InterTypeable> InterTypeable for Result<T, E> {
    open spec fn type_model() -> TypeModel {
        TypeModel::Result(Box::new(T::type_model()), Box::new(E::type_model()))
    }

    open spec fn val_model(self) -> ValModel {
        ValModel::Result(
            Box::new(T::type_model()),
            Box::new(E::type_model()),
            match self {
                Ok(t) => Ok(Box::new(t.val_model())),
                Err(e) => Err(Box::new(e.val_model())),
            },
        )
    }

    proof fn lemma_converts_typed(self) {
        match self {
            Ok(t) => {
                t.lemma_converts_typed();
            },
            Err(e) => {
                e.lemma_converts_typed();
            },
        }
    }

    fn inter_ty() -> InterType {
        InterType::Result(Box::new(T::inter_ty()), Box::new(E::inter_ty()))
    }

    fn into_val(self) -> InterVal {
        let ok = Box::new(T::inter_ty());
        let err = Box::new(E::inter_ty());
        match self {
            Ok(t) => InterVal::Result(ok, err, Ok(Box::new(t.into_val()))),
            Err(e) => InterVal::Result(ok, err, Err(Box::new(e.into_val()))),
        }
    }
}

impl<T: InterTypeable, E: InterTypeable> From<Result<T, E>> for InterVal {
    fn from(val: Result<T, E>) -> (v: InterVal)
        ensures
            v@ == val.val_model(),
    {
        val.into_val()
    }
}

/// A result's conversion is stated by the `ensures` of `from`, over models.
impl<T: InterTypeable, E: InterTypeable> FromSpecImpl<Result<T, E>> for InterVal {
    open spec fn obeys_from_spec() -> bool {
        false
    }

    open spec fn from_spec(val: Result<T, E>) -> InterVal {
        arbitrary()
    }
}

} // verus!
