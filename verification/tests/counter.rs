use flux_counter::dispatcher::Dispatcher;
use flux_counter::render::{int_text, render_text};
use flux_counter::store::{Action, Store};
use flux_counter::view::{CounterView, Key};

fn fresh_view() -> CounterView {
    CounterView::new(Dispatcher::new(Store::new()))
}

#[test]
fn three_increments() {
    let mut d = Dispatcher::new(Store::new());
    d.dispatch(Action::Increment);
    d.dispatch(Action::Increment);
    d.dispatch(Action::Increment);
    assert_eq!(d.store.count, 3);
}

#[test]
fn three_increments_five_decrements() {
    let mut d = Dispatcher::new(Store::new());
    for _ in 0..3 {
        d.dispatch(Action::Increment);
    }
    for _ in 0..5 {
        d.dispatch(Action::Decrement);
    }
    assert_eq!(d.store.count, -2);
}

#[test]
fn increments_then_decrements_accumulate() {
    let mut store = Store::new();
    for _ in 0..40 {
        store.update(Action::Increment);
    }
    for _ in 0..15 {
        store.update(Action::Decrement);
    }
    assert_eq!(store.count, 25);
}

#[test]
fn key_mapping_is_deterministic() {
    let v = fresh_view();
    assert_eq!(v.handle_user_input(Some(Key::Up)), Some(Action::Increment));
    assert_eq!(v.handle_user_input(Some(Key::Down)), Some(Action::Decrement));
    assert_eq!(v.handle_user_input(Some(Key::Char('q'))), None);
    assert_eq!(v.handle_user_input(Some(Key::Char('a'))), None);
    assert_eq!(v.handle_user_input(Some(Key::Other)), None);
    assert_eq!(v.handle_user_input(None), None);
}

#[test]
fn up_and_down_move_the_counter() {
    let mut v = fresh_view();
    v.on_input(Some(Key::Up));
    v.on_input(Some(Key::Up));
    assert_eq!(v.dispatcher.store.count, 2);
    v.on_input(Some(Key::Down));
    assert_eq!(v.dispatcher.store.count, 1);
    v.on_input(Some(Key::Char('z')));
    v.on_input(None);
    assert_eq!(v.dispatcher.store.count, 1);
}

#[test]
fn quiet_iteration_keeps_text_and_keeps_running() {
    let mut v = fresh_view();
    let before = v.frame_text();
    v.on_input(None);
    v.on_quit(None);
    let after = v.frame_text();
    assert_eq!(before, after);
    assert!(v.is_running());
}

#[test]
fn quit_key_terminates() {
    let mut v = fresh_view();
    assert!(v.is_running());
    v.on_quit(Some(Key::Char('q')));
    assert!(!v.is_running());
}

#[test]
fn quit_wins_over_pending_input() {
    let mut v = fresh_view();
    v.on_input(Some(Key::Up));
    v.on_quit(Some(Key::Char('q')));
    assert!(!v.is_running());
    assert_eq!(v.dispatcher.store.count, 1);
}

#[test]
fn only_q_quits() {
    let mut v = fresh_view();
    v.on_quit(Some(Key::Char('x')));
    v.on_quit(Some(Key::Up));
    v.on_quit(Some(Key::Other));
    v.on_quit(None);
    assert!(v.is_running());
}

#[test]
fn rendered_text_is_exact() {
    assert_eq!(render_text(0), "Counter: 0");
    assert_eq!(render_text(3), "Counter: 3");
    assert_eq!(render_text(-2), "Counter: -2");
    assert_eq!(render_text(100), "Counter: 100");
    assert_eq!(render_text(i32::MIN), "Counter: -2147483648");
    assert_eq!(render_text(i32::MAX), "Counter: 2147483647");
}

#[test]
fn rendering_is_pure_in_the_value() {
    let mut v = fresh_view();
    v.on_input(Some(Key::Up));
    let one_up = v.frame_text();
    v.on_input(Some(Key::Up));
    v.on_input(Some(Key::Down));
    let back_to_one = v.frame_text();
    assert_eq!(one_up, "Counter: 1");
    assert_eq!(one_up, back_to_one);
}

#[test]
fn decimal_text_of_plain_values() {
    assert_eq!(int_text(0), "0");
    assert_eq!(int_text(9), "9");
    assert_eq!(int_text(10), "10");
    assert_eq!(int_text(-1), "-1");
    assert_eq!(int_text(1234567890), "1234567890");
    assert_eq!(int_text(-1000000), "-1000000");
}

#[test]
fn frame_text_reads_the_store() {
    let mut store = Store::new();
    store.update(Action::Decrement);
    let v = CounterView::new(Dispatcher::new(store));
    assert_eq!(v.frame_text(), "Counter: -1");
}
