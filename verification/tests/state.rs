use react_component::component::{conclude, invoke, Component};
use react_component::counter::Counter;
use react_component::element::{Child, Kind};
use react_component::html::Html;
use react_component::props::Props;
use react_component::state::{Context, Hooks, Update};
use react_component::value::{Marshal, RenderError, Value};

#[test]
fn values_round_trip_through_the_codec() {
    for n in [0u32, 1, 3, 4_294_967_295] {
        assert_eq!(u32::decode(&n.encode()), Ok(n));
    }
    for n in [i64::MIN, -1, 0, 42, i64::MAX] {
        assert_eq!(i64::decode(&n.encode()), Ok(n));
    }
    assert_eq!(bool::decode(&true.encode()), Ok(true));
    assert_eq!(bool::decode(&false.encode()), Ok(false));
    assert_eq!(7u32.encode(), Value::Number(7));
    assert_eq!((-7i64).encode(), Value::Number(-7));
    assert_eq!(true.encode(), Value::Bool(true));
}

#[test]
fn components_round_trip_through_their_properties() {
    for initial in [0u32, 3, u32::MAX] {
        let c = Counter { initial };
        assert_eq!(Counter::parse(&c.to_props()), Ok(c));
    }
}

#[test]
fn payload_of_another_type_is_a_marshalling_failure() {
    assert_eq!(u32::decode(&Value::text("3")), Err(RenderError::Marshal));
    assert_eq!(u32::decode(&Value::Number(-1)), Err(RenderError::Marshal));
    assert_eq!(u32::decode(&Value::Number(4_294_967_296)), Err(RenderError::Marshal));
    assert_eq!(i64::decode(&Value::Bool(true)), Err(RenderError::Marshal));
    assert_eq!(bool::decode(&Value::Null), Err(RenderError::Marshal));
    assert_eq!(bool::decode(&Value::Handler(1)), Err(RenderError::Marshal));
    assert_eq!(Counter::parse(&Props::new()), Err(RenderError::Marshal));
    let wrong = Props::new().set("initial".to_string(), Value::text("three"));
    assert_eq!(Counter::parse(&wrong), Err(RenderError::Marshal));
}

#[test]
fn value_same_and_duplicate() {
    let v = Value::text("abc");
    assert!(v.same(&v.duplicate()));
    assert_eq!(v.duplicate(), Value::Text("abc".to_string()));
    assert!(!v.same(&Value::text("abd")));
    assert!(!Value::Number(1).same(&Value::Handler(1)));
    assert!(Value::Null.same(&Value::Null));
}

fn first_pass(initial: u32) -> Hooks {
    let mut context = Context::new(Hooks::new());
    let state = context.state(initial).unwrap();
    assert_eq!(*state.get(), initial);
    assert_eq!(state.slot_index(), 0);
    context.finish().unwrap()
}

#[test]
fn first_pass_registers_the_cell_with_the_initial_value() {
    let hooks = first_pass(3);
    assert!(hooks.is_mounted());
    assert_eq!(hooks.len(), 1);
    assert_eq!(hooks.cell(0), Some(Value::Number(3)));
    assert_eq!(hooks.cell(1), None);
}

#[test]
fn fresh_instance_has_no_cell() {
    let hooks = Hooks::new();
    assert!(!hooks.is_mounted());
    assert_eq!(hooks.len(), 0);
    assert_eq!(hooks.cell(0), None);
}

#[test]
fn later_pass_reads_the_cell_and_not_the_initial_value() {
    let mut hooks = first_pass(3);
    let mut context = Context::new(hooks);
    let state = context.state(3u32).unwrap();
    assert_eq!(*state.get(), 3);
    let update = state.set(10);
    hooks = context.finish().unwrap();
    assert_eq!(hooks.apply(update), Ok(()));
    for _ in 0..2 {
        let mut context = Context::new(hooks);
        let state = context.state(3u32).unwrap();
        assert_eq!(*state.get(), 10);
        hooks = context.finish().unwrap();
    }
    assert_eq!(hooks.len(), 1);
}

#[test]
fn set_leaves_the_snapshot_as_it_is() {
    let mut context = Context::new(Hooks::new());
    let state = context.state(5i64).unwrap();
    let update = state.set(6);
    assert_eq!(update, Update { slot: 0, value: Value::Number(6) });
    assert_eq!(*state.get(), 5);
    let copy = state.clone();
    assert_eq!(*copy.get(), 5);
    assert_eq!(copy.slot_index(), 0);
}

#[test]
fn of_two_direct_writes_the_later_stands() {
    let mut context = Context::new(Hooks::new());
    let state = context.state(1u32).unwrap();
    let first = state.set(20);
    let second = state.set(30);
    let mut hooks = context.finish().unwrap();
    assert_eq!(hooks.apply(first), Ok(()));
    assert_eq!(hooks.cell(0), Some(Value::Number(20)));
    assert_eq!(hooks.apply(second), Ok(()));
    assert_eq!(hooks.cell(0), Some(Value::Number(30)));
}

#[test]
fn functional_updates_compose() {
    let mut context = Context::new(Hooks::new());
    let state = context.state(5u32).unwrap();
    let first = state.set_with(|x: u32| x + 1);
    let second = state.set_with(|x: u32| x * 2);
    let mut hooks = context.finish().unwrap();
    assert_eq!(hooks.apply_with(first), Ok(6));
    assert_eq!(hooks.apply_with(second), Ok(12));
    assert_eq!(hooks.cell(0), Some(Value::Number(12)));
    let mut context = Context::new(hooks);
    assert_eq!(*context.state(5u32).unwrap().get(), 12);
}

#[test]
fn functional_update_sees_an_earlier_direct_write() {
    let mut context = Context::new(Hooks::new());
    let state = context.state(5u32).unwrap();
    let direct = state.set(100);
    let deferred = state.set_with(|x: u32| x + 1);
    let mut hooks = context.finish().unwrap();
    hooks.apply(direct).unwrap();
    assert_eq!(hooks.apply_with(deferred), Ok(101));
    assert_eq!(hooks.cell(0), Some(Value::Number(101)));
}

#[test]
fn slots_are_told_apart_by_their_order() {
    let mut context = Context::new(Hooks::new());
    let a = context.state(1u32).unwrap();
    let b = context.state(true).unwrap();
    let c = context.state(-4i64).unwrap();
    assert_eq!((a.slot_index(), b.slot_index(), c.slot_index()), (0, 1, 2));
    let mut hooks = context.finish().unwrap();
    assert_eq!(hooks.len(), 3);
    hooks.apply(b.set(false)).unwrap();
    let mut context = Context::new(hooks);
    assert_eq!(*context.state(0u32).unwrap().get(), 1);
    assert_eq!(*context.state(true).unwrap().get(), false);
    assert_eq!(*context.state(0i64).unwrap().get(), -4);
    assert!(context.finish().is_ok());
}

#[test]
fn later_pass_that_asks_for_more_slots_is_refused() {
    let hooks = first_pass(3);
    let mut context = Context::new(hooks);
    assert!(context.state(3u32).is_ok());
    assert_eq!(context.state(0u32).err(), Some(RenderError::SlotMismatch));
    let hooks = context.finish().unwrap();
    assert_eq!(hooks.len(), 1);
}

#[test]
fn later_pass_that_asks_for_fewer_slots_is_refused() {
    let hooks = first_pass(3);
    let context = Context::new(hooks);
    assert_eq!(context.finish(), Err(RenderError::SlotMismatch));
}

#[test]
fn later_pass_that_asks_for_another_type_is_refused() {
    let hooks = first_pass(3);
    let mut context = Context::new(hooks);
    assert_eq!(context.state(true).err(), Some(RenderError::Marshal));
    assert_eq!(*context.state(0u32).unwrap().get(), 3);
}

#[test]
fn write_to_a_missing_slot_is_refused() {
    let mut hooks = first_pass(3);
    let stray = Update { slot: 1, value: Value::Number(8) };
    assert_eq!(hooks.apply(stray), Err(RenderError::SlotMismatch));
    assert_eq!(hooks.cell(0), Some(Value::Number(3)));
    assert_eq!(hooks.len(), 1);
}

#[test]
fn functional_update_of_a_missing_or_mistyped_slot_is_refused() {
    let mut context = Context::new(Hooks::new());
    let flag = context.state(true).unwrap();
    let mut hooks = context.finish().unwrap();
    let mut other = Context::new(Hooks::new());
    let _ = other.state(0u32).unwrap();
    let far = other.state(0u32).unwrap();
    assert_eq!(hooks.apply_with(far.set_with(|x: u32| x + 1)), Err(RenderError::SlotMismatch));
    let mut third = Context::new(Hooks::new());
    let number = third.state(0u32).unwrap();
    assert_eq!(hooks.apply_with(number.set_with(|x: u32| x + 1)), Err(RenderError::Marshal));
    assert_eq!(hooks.cell(0), Some(Value::Bool(true)));
    assert_eq!(hooks.apply_with(flag.set_with(|b: bool| !b)), Ok(false));
    assert_eq!(hooks.cell(0), Some(Value::Bool(false)));
}

#[test]
fn counter_shows_four_after_one_click() {
    let counter = Counter { initial: 3 };
    let props = counter.to_props();

    let mut context = Context::new(Hooks::new());
    let state = context.state(counter.initial).unwrap();
    assert_eq!(*state.get(), 3);
    let click = Counter::click(&state);
    assert_eq!(click, Update { slot: 0, value: Value::Number(4) });
    let mut hooks = context.finish().unwrap();

    let first = invoke::<Counter>(&props, Hooks::new()).unwrap();
    assert_eq!(first.node.children, vec![Child::Value(Value::Number(3))]);
    assert_eq!(first.hooks, hooks);

    hooks.apply(click).unwrap();
    let mut context = Context::new(hooks);
    let state = context.state(3u32).unwrap();
    assert_eq!(*state.get(), 4);
    let hooks = context.finish().unwrap();

    let second = invoke::<Counter>(&props, hooks).unwrap();
    assert_eq!(second.node.kind, Kind::Tag("button".to_string()));
    assert_eq!(second.node.properties.get("onClick"), Some(Value::Handler(0)));
    assert_eq!(second.node.children, vec![Child::Value(Value::Number(4))]);
    assert_eq!(second.hooks.cell(0), Some(Value::Number(4)));
}

#[test]
fn counter_stays_at_the_largest_count() {
    let mut context = Context::new(Hooks::new());
    let state = context.state(u32::MAX).unwrap();
    assert_eq!(
        Counter::click(&state),
        Update { slot: 0, value: Value::Number(4_294_967_295) }
    );
}

#[test]
fn render_function_refuses_properties_of_another_component() {
    let props = Props::new().set("label".to_string(), Value::text("x"));
    assert_eq!(invoke::<Counter>(&props, Hooks::new()), Err(RenderError::Marshal));
}

#[test]
fn render_function_refuses_cells_of_another_component() {
    let mut context = Context::new(Hooks::new());
    context.state(true).unwrap();
    let hooks = context.finish().unwrap();
    let props = Counter { initial: 1 }.to_props();
    assert_eq!(invoke::<Counter>(&props, hooks), Err(RenderError::Marshal));
}

#[test]
fn conclude_passes_a_failure_on_and_refuses_an_unfinished_pass() {
    let context = Context::new(Hooks::new());
    assert_eq!(conclude(Err(RenderError::Marshal), context), Err(RenderError::Marshal));

    let context = Context::new(first_pass(1));
    let element = Html::new("p").to_element();
    assert_eq!(conclude(Ok(element), context), Err(RenderError::SlotMismatch));

    let mut context = Context::new(first_pass(1));
    context.state(0u32).unwrap();
    let done = conclude(Ok(Html::new("p").to_element()), context).unwrap();
    assert_eq!(done.node.kind, Kind::Tag("p".to_string()));
    assert_eq!(done.hooks.cell(0), Some(Value::Number(1)));
    assert!(done.hooks.is_mounted());
}

#[test]
fn restored_cells_are_those_of_a_mounted_instance() {
    let hooks = Hooks::restore(vec![Value::Number(8), Value::Bool(true)]);
    assert!(hooks.is_mounted());
    assert_eq!(hooks.len(), 2);
    let mut context = Context::new(hooks.clone());
    assert_eq!(*context.state(0u32).unwrap().get(), 8);
    assert_eq!(*context.state(false).unwrap().get(), true);
    assert_eq!(context.finish(), Ok(hooks));
}

#[test]
fn handle_over_a_cell_outside_a_render_pass() {
    let hooks = Hooks::restore(vec![Value::Number(8), Value::Bool(true)]);
    let count = hooks.state_at::<u32>(0).unwrap();
    assert_eq!(*count, 8);
    assert_eq!(count.slot_index(), 0);
    let flag = hooks.state_at::<bool>(1).unwrap();
    assert_eq!(*flag, true);
    assert_eq!(flag.set(false), Update { slot: 1, value: Value::Bool(false) });
    assert_eq!(hooks.state_at::<bool>(0).err(), Some(RenderError::Marshal));
    assert_eq!(hooks.state_at::<u32>(2).err(), Some(RenderError::SlotMismatch));
}

#[test]
fn dereferencing_a_state_gives_its_snapshot() {
    let mut context = Context::new(Hooks::new());
    let state = context.state(41i64).unwrap();
    assert_eq!(*state, 41);
    assert_eq!(*state + 1, 42);
    assert_eq!(*state, *state.get());
}

#[test]
fn click_after_click_counts_from_the_latest_pass() {
    let props = Counter { initial: 3 }.to_props();
    let mut hooks = invoke::<Counter>(&props, Hooks::new()).unwrap().hooks;
    for expected in [4i64, 5, 6] {
        let click = Counter::click(&hooks.state_at::<u32>(0).unwrap());
        hooks.apply(click).unwrap();
        let rendered = invoke::<Counter>(&props, hooks).unwrap();
        assert_eq!(rendered.node.children, vec![Child::Value(Value::Number(expected))]);
        hooks = rendered.hooks;
    }
}

#[test]
fn batch_of_writes_is_applied_in_issuance_order() {
    let mut context = Context::new(Hooks::new());
    let a = context.state(1u32).unwrap();
    let b = context.state(2u32).unwrap();
    let mut hooks = context.finish().unwrap();
    let batch = vec![a.set(10), b.set(20), a.set(11), a.set(12)];
    assert_eq!(hooks.apply_all(&batch), Ok(()));
    assert_eq!(hooks.cell(0), Some(Value::Number(12)));
    assert_eq!(hooks.cell(1), Some(Value::Number(20)));
    assert_eq!(hooks.apply_all(&Vec::new()), Ok(()));
    assert_eq!(hooks.cell(0), Some(Value::Number(12)));
}

#[test]
fn batch_with_a_stray_write_applies_the_rest_and_reports_it() {
    let mut hooks = Hooks::restore(vec![Value::Number(1)]);
    let batch = vec![
        Update { slot: 0, value: Value::Number(5) },
        Update { slot: 3, value: Value::Number(6) },
        Update { slot: 0, value: Value::Number(7) },
    ];
    assert_eq!(hooks.apply_all(&batch), Err(RenderError::SlotMismatch));
    assert_eq!(hooks.cell(0), Some(Value::Number(7)));
    assert_eq!(hooks.len(), 1);
}
