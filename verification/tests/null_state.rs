use construction_state::{NoState, ParserEnv, SourceText, StateType};

fn start<R>() -> NoState {
    let env = ParserEnv::default();
    let source = SourceText::make(b"<?hh");
    <NoState as StateType<'_, R>>::initial(&env, &source)
}

#[test]
fn null_state_initial_is_the_unit_value() {
    assert_eq!(start::<u32>(), NoState);
}

#[test]
fn null_state_initial_ignores_settings_and_source() {
    let plain = ParserEnv::default();
    let codegen = ParserEnv { codegen: true, hhvm_compat_mode: true, php5_compat_mode: true };
    let short = SourceText::make(b"");
    let long = SourceText::make(b"<?hh echo 1;");
    let a = <NoState as StateType<'_, u32>>::initial(&plain, &short);
    let b = <NoState as StateType<'_, u32>>::initial(&codegen, &long);
    assert_eq!(a, b);
    assert_eq!(a, NoState);
}

#[test]
fn empty_production() {
    let s0 = start::<u32>();
    let s1 = <NoState as StateType<'_, u32>>::next(s0, &[]);
    assert_eq!(s1, NoState);
    assert_eq!(s1, start::<u32>());
}

#[test]
fn null_state_next_is_identity_for_one_child() {
    let child = 7u32;
    let s = NoState::next(start::<u32>(), &[&child]);
    assert_eq!(s, NoState);
}

#[test]
fn null_state_next_is_identity_for_many_children() {
    let children: Vec<u32> = (0..64).collect();
    let refs: Vec<&u32> = children.iter().collect();
    let s = NoState::next(start::<u32>(), &refs);
    assert_eq!(s, NoState);
}

#[test]
fn null_state_is_fixed_over_a_run_of_productions() {
    let children = [String::from("a"), String::from("b"), String::from("c")];
    let mut state = start::<String>();
    for round in 0..1000usize {
        let taken = round % 4;
        let refs: Vec<&String> = children.iter().take(taken).collect();
        state = NoState::next(state, &refs);
        assert_eq!(state, NoState);
    }
}

#[test]
fn null_state_serves_any_result_type() {
    let width = 3usize;
    let unit = ();
    let node = vec![1u8, 2, 3];
    assert_eq!(NoState::next(start::<usize>(), &[&width, &width]), NoState);
    assert_eq!(NoState::next(start::<()>(), &[&unit]), NoState);
    assert_eq!(NoState::next(start::<Vec<u8>>(), &[&node, &node, &node]), NoState);
}

#[test]
fn null_state_next_is_pure() {
    let (a, b) = (1u32, 2u32);
    let first = NoState::next(start::<u32>(), &[&a, &b]);
    let second = NoState::next(start::<u32>(), &[&a, &b]);
    assert_eq!(first, second);
}

#[test]
fn null_state_clone_is_the_same_value() {
    let s = start::<u32>();
    let kept = s.clone();
    let moved_on = NoState::next(s, &[&5u32]);
    assert_eq!(kept, moved_on);
}

#[test]
fn null_state_takes_no_room() {
    assert_eq!(std::mem::size_of::<NoState>(), 0);
}
