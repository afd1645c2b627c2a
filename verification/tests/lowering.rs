use intercomm::{
    descriptors_suffice, make_command, Binary32, Binary64, Convention, InterType, InterVal,
    ProcessSpec, Rendered, Slot, FIRST_DESCRIPTOR,
};
use io_extras::grip::OwnedGrip;
use std::sync::Arc;

fn shown(rendered: &Rendered) -> String {
    match rendered {
        Rendered::Text(text) => text.clone(),
        Rendered::Single(x) => f32::from_bits(x.to_bits()).to_string(),
        Rendered::Double(x) => f64::from_bits(x.to_bits()).to_string(),
    }
}

fn shown_args(spec: &ProcessSpec) -> Vec<String> {
    spec.args.iter().map(shown).collect()
}

fn shown_envs(spec: &ProcessSpec) -> Vec<(String, String)> {
    spec.envs.iter().map(|(key, value)| (key.clone(), shown(value))).collect()
}

fn pipe_ends() -> (Arc<OwnedGrip>, Arc<OwnedGrip>) {
    let (reader, writer) = rustix::pipe::pipe().unwrap();
    (Arc::new(reader), Arc::new(writer))
}

fn single(x: f32) -> InterVal {
    InterVal::from(Binary32::from_bits(x.to_bits()))
}

fn double(x: f64) -> InterVal {
    InterVal::from(Binary64::from_bits(x.to_bits()))
}

#[test]
fn nothing_to_lower_gives_an_empty_specification() {
    let spec = make_command("prog", &[], &[], Convention::Implicit).unwrap();
    assert_eq!(spec.program, "prog");
    assert!(spec.args.is_empty());
    assert!(spec.envs.is_empty());
    assert!(spec.dups.is_empty());
}

#[test]
fn scalars_become_their_canonical_text_in_order() {
    let args = [
        InterVal::S8(-8),
        InterVal::U8(8),
        InterVal::S16(-1600),
        InterVal::U16(1600),
        InterVal::S32(-32_000_000),
        InterVal::U32(32_000_000),
        InterVal::S64(i64::MIN),
        InterVal::U64(u64::MAX),
        InterVal::Bool(true),
        InterVal::Bool(false),
        InterVal::Char('z'),
        InterVal::str("as it is"),
        InterVal::from("owned too".to_string()),
        InterVal::str(""),
    ];
    let spec = make_command("/bin/prog", &args, &[], Convention::Implicit).unwrap();
    assert_eq!(spec.program, "/bin/prog");
    assert_eq!(
        shown_args(&spec),
        vec![
            "-8",
            "8",
            "-1600",
            "1600",
            "-32000000",
            "32000000",
            "-9223372036854775808",
            "18446744073709551615",
            "true",
            "false",
            "z",
            "as it is",
            "owned too",
            "",
        ]
    );
    for rendered in &spec.args {
        assert!(matches!(rendered, Rendered::Text(_)));
    }
    assert!(spec.envs.is_empty());
    assert!(spec.dups.is_empty());
}

#[test]
fn environment_values_keep_their_names_and_order() {
    let envs = [
        ("B".to_string(), InterVal::U8(2)),
        ("A".to_string(), InterVal::str("one")),
        ("B".to_string(), InterVal::Bool(false)),
    ];
    let spec = make_command("prog", &[InterVal::S8(0)], &envs, Convention::Implicit).unwrap();
    assert_eq!(shown_args(&spec), vec!["0"]);
    assert_eq!(
        shown_envs(&spec),
        vec![
            ("B".to_string(), "2".to_string()),
            ("A".to_string(), "one".to_string()),
            ("B".to_string(), "false".to_string()),
        ]
    );
    assert!(spec.dups.is_empty());
}

#[test]
fn a_float_that_is_not_a_number_lowers_to_nan() {
    let args = [single(f32::NAN), double(f64::NAN), InterVal::F32(None), InterVal::F64(None)];
    let envs = [("X".to_string(), double(f64::NAN))];
    let spec = make_command("prog", &args, &envs, Convention::Implicit).unwrap();
    assert_eq!(spec.args.len(), 4);
    for rendered in &spec.args {
        match rendered {
            Rendered::Text(text) => assert_eq!(text, "NaN"),
            other => panic!("unexpected {:?}", other),
        }
    }
    match &spec.envs[0].1 {
        Rendered::Text(text) => assert_eq!(text, "NaN"),
        other => panic!("unexpected {:?}", other),
    }
}

#[test]
fn a_float_that_is_a_number_lowers_to_itself() {
    let singles = [0.0f32, -0.0, 1.5, -2.75e-3, 3.4e38, f32::INFINITY, f32::NEG_INFINITY];
    for x in singles {
        let spec = make_command("prog", &[single(x)], &[], Convention::Implicit).unwrap();
        match &spec.args[0] {
            Rendered::Single(kept) => assert_eq!(kept.to_bits(), x.to_bits()),
            other => panic!("unexpected {:?}", other),
        }
        assert_eq!(shown(&spec.args[0]).parse::<f32>().unwrap(), x);
    }
    let doubles = [0.0f64, -0.0, 1.5, -2.75e-300, 1.7e308, f64::INFINITY, f64::NEG_INFINITY];
    for x in doubles {
        let envs = [("X".to_string(), double(x))];
        let spec = make_command("prog", &[], &envs, Convention::Implicit).unwrap();
        match &spec.envs[0].1 {
            Rendered::Double(kept) => assert_eq!(kept.to_bits(), x.to_bits()),
            other => panic!("unexpected {:?}", other),
        }
        assert_eq!(shown(&spec.envs[0].1).parse::<f64>().unwrap(), x);
    }
}

#[test]
fn handles_are_numbered_from_three_over_arguments_then_environment() {
    let (a, b) = pipe_ends();
    let (c, d) = pipe_ends();
    let args = [
        InterVal::str("--first"),
        InterVal::Handle(a.clone()),
        InterVal::U8(5),
        InterVal::Handle(b.clone()),
    ];
    let envs = [
        ("PLAIN".to_string(), InterVal::Bool(true)),
        ("FD_C".to_string(), InterVal::Handle(c.clone())),
        ("FD_D".to_string(), InterVal::Handle(d.clone())),
    ];
    let spec = make_command("prog", &args, &envs, Convention::Implicit).unwrap();
    assert_eq!(shown_args(&spec), vec!["--first", "3", "5", "4"]);
    assert_eq!(
        shown_envs(&spec),
        vec![
            ("PLAIN".to_string(), "true".to_string()),
            ("FD_C".to_string(), "5".to_string()),
            ("FD_D".to_string(), "6".to_string()),
        ]
    );
    assert_eq!(spec.dups.len(), 4);
    let targets: Vec<i32> = spec.dups.iter().map(|(_, target)| *target).collect();
    assert_eq!(targets, vec![3, 4, 5, 6]);
    assert!(Arc::ptr_eq(&spec.dups[0].0, &a));
    assert!(Arc::ptr_eq(&spec.dups[1].0, &b));
    assert!(Arc::ptr_eq(&spec.dups[2].0, &c));
    assert!(Arc::ptr_eq(&spec.dups[3].0, &d));
}

#[test]
fn handles_in_the_environment_alone_start_at_three() {
    let (a, b) = pipe_ends();
    let envs = [
        ("IN".to_string(), InterVal::Handle(a.clone())),
        ("OUT".to_string(), InterVal::Handle(b.clone())),
    ];
    let spec = make_command("prog", &[InterVal::S8(9)], &envs, Convention::Implicit).unwrap();
    assert_eq!(shown_args(&spec), vec!["9"]);
    assert_eq!(
        shown_envs(&spec),
        vec![("IN".to_string(), "3".to_string()), ("OUT".to_string(), "4".to_string())]
    );
    assert_eq!(spec.dups.len(), 2);
    assert_eq!(spec.dups[0].1, 3);
    assert_eq!(spec.dups[1].1, 4);
}

#[test]
fn many_handles_get_consecutive_numbers() {
    let (a, _b) = pipe_ends();
    let args: Vec<InterVal> = (0..12).map(|_| InterVal::Handle(a.clone())).collect();
    let spec = make_command("prog", &args, &[], Convention::Implicit).unwrap();
    let expected: Vec<String> = (3..15).map(|n: i32| n.to_string()).collect();
    assert_eq!(shown_args(&spec), expected);
    for (k, (source, target)) in spec.dups.iter().enumerate() {
        assert_eq!(*target, 3 + k as i32);
        assert!(Arc::ptr_eq(source, &a));
    }
}

#[test]
fn one_shared_handle_in_two_places_gets_two_numbers() {
    let (reader, writer) = pipe_ends();
    let before = Arc::strong_count(&writer);
    let args = [InterVal::Handle(writer.clone()), InterVal::Handle(writer.clone())];
    assert_eq!(Arc::strong_count(&writer), before + 2);
    let spec = make_command("prog", &args, &[], Convention::Implicit).unwrap();
    assert_eq!(shown_args(&spec), vec!["3", "4"]);
    assert_eq!(spec.dups.len(), 2);
    assert_eq!(spec.dups[0].1, 3);
    assert_eq!(spec.dups[1].1, 4);
    assert!(Arc::ptr_eq(&spec.dups[0].0, &writer));
    assert!(Arc::ptr_eq(&spec.dups[1].0, &writer));
    assert_eq!(Arc::strong_count(&writer), before + 4);

    drop(spec);
    drop(args);
    assert_eq!(Arc::strong_count(&writer), before);
    assert_eq!(rustix::io::write(&*writer, b"still open").unwrap(), 10);
    let mut buffer = [0u8; 16];
    let n = rustix::io::read(&*reader, &mut buffer).unwrap();
    assert_eq!(&buffer[..n], b"still open");
}

#[test]
fn the_pending_duplication_refers_to_the_resource_given() {
    let (reader, writer) = pipe_ends();
    assert_eq!(rustix::io::write(&*writer, b"known bytes").unwrap(), 11);
    let args = [InterVal::str("--use-fd"), InterVal::from(reader.clone())];
    let spec = make_command("target/debug/examples/debug", &args, &[], Convention::Implicit)
        .unwrap();
    assert_eq!(shown_args(&spec), vec!["--use-fd", "3"]);
    assert!(spec.envs.is_empty());
    assert_eq!(spec.dups.len(), 1);
    assert_eq!(spec.dups[0].1, 3);
    assert_eq!(shown(&spec.args[1]).parse::<i32>(), Ok(spec.dups[0].1));

    let duplicate = rustix::io::dup(&*spec.dups[0].0).unwrap();
    let mut buffer = [0u8; 32];
    let n = rustix::io::read(&duplicate, &mut buffer).unwrap();
    assert_eq!(&buffer[..n], b"known bytes");
}

#[test]
fn the_parent_keeps_its_handle_after_lowering() {
    let (reader, writer) = pipe_ends();
    {
        let args = [InterVal::Handle(reader.clone())];
        let spec = make_command("prog", &args, &[], Convention::Implicit).unwrap();
        assert_eq!(Arc::strong_count(&reader), 3);
        drop(spec);
    }
    assert_eq!(Arc::strong_count(&reader), 1);
    assert_eq!(rustix::io::write(&*writer, b"x").unwrap(), 1);
    let mut buffer = [0u8; 4];
    assert_eq!(rustix::io::read(&*reader, &mut buffer).unwrap(), 1);
}

#[test]
fn a_record_argument_is_rejected() {
    let record = InterVal::Record(vec![("x".to_string(), InterVal::U8(1))]);
    let args = [InterVal::S8(1), record];
    let error = make_command("prog", &args, &[], Convention::Implicit).unwrap_err();
    assert_eq!(error.slot, Slot::Arg);
    assert_eq!(error.index, 1);
    assert_eq!(error.kind, InterType::Record(vec![("x".to_string(), InterType::U8)]));
}

#[test]
fn every_composite_kind_is_rejected() {
    let composites = vec![
        InterVal::Variant(
            vec![("a".to_string(), InterType::U8)],
            "a".to_string(),
            Box::new(InterVal::U8(1)),
        ),
        InterVal::Record(vec![]),
        InterVal::List(Box::new(InterType::U8), vec![InterVal::U8(1)]),
        InterVal::Tuple(vec![InterVal::U8(1)]),
        InterVal::Flags(vec![("f".to_string(), true)]),
        InterVal::Enum(vec!["e".to_string()], "e".to_string(), Box::new(InterVal::U8(1))),
        InterVal::Option(Box::new(InterType::U8), None),
        InterVal::Union(vec![InterType::U8], 0, Box::new(InterVal::U8(1))),
        InterVal::Result(
            Box::new(InterType::U8),
            Box::new(InterType::U8),
            Ok(Box::new(InterVal::U8(1))),
        ),
        InterVal::from(vec![1u8, 2]),
        InterVal::from(Some(true)),
    ];
    for value in composites {
        let kind = value.ty();
        let envs = [("K".to_string(), value.clone())];
        let as_arg = make_command("prog", &[value], &[], Convention::Implicit).unwrap_err();
        assert_eq!(as_arg.slot, Slot::Arg);
        assert_eq!(as_arg.index, 0);
        assert_eq!(as_arg.kind, kind);
        let as_env = make_command("prog", &[], &envs, Convention::Implicit).unwrap_err();
        assert_eq!(as_env.slot, Slot::Env);
        assert_eq!(as_env.index, 0);
        assert_eq!(as_env.kind, kind);
    }
}

#[test]
fn the_first_offending_entry_is_reported() {
    let tuple = InterVal::Tuple(vec![InterVal::Bool(true)]);
    let record = InterVal::Record(vec![]);
    let args = [InterVal::S8(1), InterVal::str("ok"), tuple.clone(), record.clone()];
    let envs = [("A".to_string(), InterVal::U8(1)), ("B".to_string(), record.clone())];
    let error = make_command("prog", &args, &envs, Convention::Implicit).unwrap_err();
    assert_eq!(error.slot, Slot::Arg);
    assert_eq!(error.index, 2);
    assert_eq!(error.kind, InterType::Tuple(vec![InterType::Bool]));

    let fine = [InterVal::S8(1), InterVal::str("ok")];
    let envs = [
        ("A".to_string(), InterVal::U8(1)),
        ("B".to_string(), record),
        ("C".to_string(), tuple),
    ];
    let error = make_command("prog", &fine, &envs, Convention::Implicit).unwrap_err();
    assert_eq!(error.slot, Slot::Env);
    assert_eq!(error.index, 1);
    assert_eq!(error.kind, InterType::Record(vec![]));
}

#[test]
fn a_rejected_call_keeps_no_reference_to_a_handle() {
    let (reader, _writer) = pipe_ends();
    let args = [InterVal::Handle(reader.clone()), InterVal::Tuple(vec![])];
    assert_eq!(Arc::strong_count(&reader), 2);
    let error = make_command("prog", &args, &[], Convention::Implicit).unwrap_err();
    assert_eq!(error.index, 1);
    assert_eq!(Arc::strong_count(&reader), 2);
}

#[test]
fn a_pre_launch_action_is_owed_only_for_handles() {
    let (reader, _writer) = pipe_ends();
    let plain = make_command("prog", &[InterVal::U8(1)], &[], Convention::Implicit).unwrap();
    assert!(!plain.needs_pre_launch());
    let args = [InterVal::Handle(reader.clone())];
    let with_arg = make_command("prog", &args, &[], Convention::Implicit).unwrap();
    assert!(with_arg.needs_pre_launch());
    let envs = [("FD".to_string(), InterVal::Handle(reader.clone()))];
    let with_env = make_command("prog", &[], &envs, Convention::Implicit).unwrap();
    assert!(with_env.needs_pre_launch());
}

#[test]
fn ordinary_inputs_are_within_the_descriptor_range() {
    let (reader, _writer) = pipe_ends();
    assert_eq!(FIRST_DESCRIPTOR, 3);
    assert!(descriptors_suffice(&[], &[]));
    let args = [InterVal::Handle(reader.clone()), InterVal::Record(vec![]), InterVal::U8(1)];
    let envs = [("FD".to_string(), InterVal::Handle(reader.clone()))];
    assert!(descriptors_suffice(&args, &envs));
    assert!(descriptors_suffice(&args, &[]));
    assert!(descriptors_suffice(&[], &envs));
}
