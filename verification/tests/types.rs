use intercomm::InterType;

fn named(name: &str, ty: InterType) -> (String, InterType) {
    (name.to_string(), ty)
}

fn scalars() -> Vec<InterType> {
    vec![
        InterType::S8,
        InterType::U8,
        InterType::S16,
        InterType::U16,
        InterType::S32,
        InterType::U32,
        InterType::S64,
        InterType::U64,
        InterType::F32,
        InterType::F64,
        InterType::Char,
        InterType::String,
        InterType::Bool,
        InterType::Handle,
    ]
}

#[test]
fn scalar_descriptors_equal_only_themselves() {
    let all = scalars();
    for (i, a) in all.iter().enumerate() {
        for (j, b) in all.iter().enumerate() {
            assert_eq!(a == b, i == j);
        }
    }
}

#[test]
fn record_equality_compares_names_and_types_in_order() {
    let a = InterType::Record(vec![named("x", InterType::S32), named("y", InterType::Bool)]);
    let same = InterType::Record(vec![named("x", InterType::S32), named("y", InterType::Bool)]);
    let renamed = InterType::Record(vec![named("x", InterType::S32), named("z", InterType::Bool)]);
    let retyped = InterType::Record(vec![named("x", InterType::S32), named("y", InterType::Char)]);
    let swapped = InterType::Record(vec![named("y", InterType::Bool), named("x", InterType::S32)]);
    let shorter = InterType::Record(vec![named("x", InterType::S32)]);
    assert!(a == same);
    assert!(a != renamed);
    assert!(a != retyped);
    assert!(a != swapped);
    assert!(a != shorter);
    assert!(shorter != a);
}

#[test]
fn record_and_variant_with_the_same_entries_differ() {
    let record = InterType::Record(vec![named("x", InterType::S32)]);
    let variant = InterType::Variant(vec![named("x", InterType::S32)]);
    assert!(record != variant);
    assert!(variant == InterType::Variant(vec![named("x", InterType::S32)]));
}

#[test]
fn tuple_and_union_compare_element_by_element() {
    let a = InterType::Tuple(vec![InterType::U8, InterType::String]);
    assert!(a == InterType::Tuple(vec![InterType::U8, InterType::String]));
    assert!(a != InterType::Tuple(vec![InterType::String, InterType::U8]));
    assert!(a != InterType::Tuple(vec![InterType::U8]));
    assert!(a != InterType::Union(vec![InterType::U8, InterType::String]));
    assert!(InterType::Tuple(vec![]) == InterType::Tuple(vec![]));
    assert!(
        InterType::Union(vec![InterType::U8, InterType::Handle])
            == InterType::Union(vec![InterType::U8, InterType::Handle])
    );
}

#[test]
fn flags_and_enum_compare_their_names() {
    let flags = InterType::Flags(vec!["r".to_string(), "w".to_string()]);
    assert!(flags == InterType::Flags(vec!["r".to_string(), "w".to_string()]));
    assert!(flags != InterType::Flags(vec!["r".to_string(), "x".to_string()]));
    assert!(flags != InterType::Flags(vec!["r".to_string()]));
    assert!(flags != InterType::Enum(vec!["r".to_string(), "w".to_string()]));
    assert!(
        InterType::Enum(vec!["on".to_string()]) == InterType::Enum(vec!["on".to_string()])
    );
}

#[test]
fn nested_descriptors_compare_in_depth() {
    let deep = |leaf: InterType| {
        InterType::List(Box::new(InterType::Option(Box::new(InterType::Result(
            Box::new(leaf),
            Box::new(InterType::String),
        )))))
    };
    assert!(deep(InterType::U16) == deep(InterType::U16));
    assert!(deep(InterType::U16) != deep(InterType::S16));
    assert!(
        InterType::Result(Box::new(InterType::U8), Box::new(InterType::S8))
            != InterType::Result(Box::new(InterType::S8), Box::new(InterType::U8))
    );
    assert!(InterType::List(Box::new(InterType::U8)) != InterType::Option(Box::new(InterType::U8)));
}

#[test]
fn clone_denotes_the_same_descriptor() {
    let mut all = scalars();
    all.push(InterType::Record(vec![
        named("id", InterType::U64),
        named("tags", InterType::List(Box::new(InterType::String))),
    ]));
    all.push(InterType::Variant(vec![named("a", InterType::Bool), named("b", InterType::Handle)]));
    all.push(InterType::Tuple(vec![InterType::F32, InterType::F64]));
    all.push(InterType::Flags(vec!["a".to_string(), "b".to_string()]));
    all.push(InterType::Enum(vec!["red".to_string()]));
    all.push(InterType::Option(Box::new(InterType::Char)));
    all.push(InterType::Union(vec![InterType::S8, InterType::U8]));
    all.push(InterType::Result(Box::new(InterType::S32), Box::new(InterType::String)));
    for ty in &all {
        let copy = ty.clone();
        assert!(&copy == ty);
        assert_eq!(format!("{:?}", copy), format!("{:?}", ty));
    }
}
