use std::sync::mpsc::channel;

use hex_field_playground::app::{keeps_running, App, Model, Present, Status};
use hex_field_playground::app::Render;
use hex_field_playground::channel::{absorb, drain_available, Received, Step};
use hex_field_playground::counter_model::CounterModel;
use hex_field_playground::counter_text_present::CounterTextPresent;
use hex_field_playground::error::{UpdateError, RECEIVE_FAILED};
use hex_field_playground::event::{
    DeviceId, ElementState, Event, KeyboardInput, ModifiersState, Window, WindowId, KEY_DOWN,
    KEY_UP,
};
use hex_field_playground::term_render::TermRender;

fn key(code: u32) -> Event {
    Event::Window {
        window_id: WindowId { id: 1 },
        event: Window::KeyboardInput {
            device_id: DeviceId { id: 2 },
            input: KeyboardInput {
                scancode: 0,
                state: ElementState::Pressed,
                virtual_keycode: Some(code),
                modifiers: ModifiersState { bits: 0 },
            },
            is_synthetic: false,
        },
    }
}

fn close() -> Event {
    Event::Window { window_id: WindowId { id: 1 }, event: Window::CloseRequested }
}

#[test]
fn drain_returns_events_in_send_order() {
    let (tx, rx) = channel();
    tx.send(key(KEY_UP)).unwrap();
    tx.send(Event::Suspended).unwrap();
    tx.send(key(KEY_DOWN)).unwrap();
    let batch = drain_available(&rx).unwrap();
    assert_eq!(batch, vec![key(KEY_UP), Event::Suspended, key(KEY_DOWN)]);
    let again = drain_available(&rx).unwrap();
    assert!(again.is_empty());
}

#[test]
fn drain_of_empty_channel_is_an_empty_batch() {
    let (_tx, rx) = channel::<Event>();
    assert_eq!(drain_available(&rx), Ok(vec![]));
}

#[test]
fn drain_after_sender_dropped_reports_disconnection() {
    let (tx, rx) = channel::<Event>();
    drop(tx);
    assert_eq!(drain_available(&rx), Err(UpdateError::Disconnected(RECEIVE_FAILED)));
}

#[test]
fn drain_after_sender_dropped_with_queued_events_reports_disconnection() {
    let (tx, rx) = channel();
    tx.send(key(KEY_UP)).unwrap();
    tx.send(Event::Resumed).unwrap();
    drop(tx);
    assert!(matches!(drain_available(&rx), Err(UpdateError::Disconnected(_))));
}

#[test]
fn disconnection_message_names_the_reason() {
    let e = UpdateError::Disconnected(RECEIVE_FAILED);
    assert_eq!(e.message(), "Disconnected from parent: Can't receive events from parent");
}

#[test]
fn counter_counts_two_ups_and_one_down() {
    let (tx, rx) = channel();
    let mut app = App::new(rx, CounterModel::new(), CounterTextPresent, TermRender::new());
    tx.send(key(KEY_UP)).unwrap();
    tx.send(key(KEY_UP)).unwrap();
    tx.send(key(KEY_DOWN)).unwrap();
    assert_eq!(app.update(), Ok(Status::Running));
    assert_eq!(app.model().value(), 1);
    assert_eq!(app.render().buffered(), "");
}

#[test]
fn close_request_stops_the_loop_after_the_first_update() {
    let (tx, rx) = channel();
    let mut app = App::new(rx, CounterModel::new(), CounterTextPresent, TermRender::new());
    tx.send(close()).unwrap();
    let mut calls: u32 = 0;
    loop {
        if calls == 0 {
            // what the platform thread sends after the close request
            tx.send(key(KEY_UP)).unwrap();
        }
        let outcome = app.update();
        calls += 1;
        if calls == 1 {
            assert_eq!(outcome, Ok(Status::Finished));
        }
        if !keeps_running(&outcome) {
            break;
        }
        assert!(calls < 10);
    }
    assert_eq!(calls, 1);
    assert_eq!(app.model().value(), 0);
}

#[test]
fn close_request_finishes_whatever_else_the_batch_holds() {
    let mut model = CounterModel::new();
    let batch = vec![key(KEY_UP), key(KEY_UP), close(), key(KEY_DOWN)];
    assert_eq!(model.update(&batch), Status::Finished);
    assert_eq!(model.value(), 2);
    let mut model = CounterModel::new();
    assert_eq!(model.update(&[close()]), Status::Finished);
}

#[test]
fn inert_batch_leaves_counter_running_and_unchanged() {
    let mut model = CounterModel::new();
    assert_eq!(model.update(&[key(KEY_UP)]), Status::Running);
    let batch = vec![Event::Suspended, key(KEY_UP + 100), Event::Resumed];
    assert_eq!(model.update(&batch), Status::Running);
    assert_eq!(model.value(), 1);
    assert_eq!(model.update(&[]), Status::Running);
    assert_eq!(model.value(), 1);
}

#[test]
fn counter_wraps_at_the_ends_of_its_range() {
    let mut model = CounterModel::new();
    assert_eq!(model.update(&[key(KEY_DOWN)]), Status::Running);
    assert_eq!(model.value(), -1);
    let mut top = CounterModel::with_value(i32::MAX);
    assert_eq!(top.update(&[key(KEY_UP)]), Status::Running);
    assert_eq!(top.value(), i32::MIN);
    assert_eq!(top.update(&[key(KEY_DOWN)]), Status::Running);
    assert_eq!(top.value(), i32::MAX);
    let mut bottom = CounterModel::with_value(i32::MIN);
    assert_eq!(bottom.update(&[key(KEY_DOWN), key(KEY_DOWN)]), Status::Running);
    assert_eq!(bottom.value(), i32::MAX - 1);
}

#[test]
fn absorb_gives_the_verdict_of_each_outcome() {
    match absorb(vec![1u8], Received::Item(2)) {
        Step::More(b) => assert_eq!(b, vec![1, 2]),
        Step::Done(_) => panic!("an item must not end the drain"),
    }
    match absorb(vec![1u8, 2], Received::Empty) {
        Step::Done(r) => assert_eq!(r, Ok(vec![1, 2])),
        Step::More(_) => panic!("an empty queue ends the drain"),
    }
    match absorb(vec![1u8, 2], Received::Disconnected) {
        Step::Done(r) => assert_eq!(r, Err(UpdateError::Disconnected(RECEIVE_FAILED))),
        Step::More(_) => panic!("a lost sender ends the drain"),
    }
}

#[test]
fn render_takes_the_buffered_text() {
    let mut render = TermRender::new();
    render.add_line("x");
    assert_eq!(render.take_buffered(), "\n ->> x");
    assert_eq!(render.buffered(), "");
    render.add_line("y");
    render.render();
    assert_eq!(render.buffered(), "");
}

#[test]
fn finished_tick_leaves_presentation_and_sink_untouched() {
    let (_tx, rx) = channel();
    let mut render = TermRender::new();
    render.add_line("kept");
    let mut app = App::new(rx, CounterModel::new(), CounterTextPresent, render);
    assert_eq!(app.tick(&[key(KEY_UP), close()]), Status::Finished);
    assert_eq!(app.render().buffered(), "\n ->> kept");
    assert_eq!(app.tick(&[key(KEY_UP)]), Status::Running);
    assert_eq!(app.render().buffered(), "");
}

#[test]
fn update_fails_once_the_sender_is_gone() {
    let (tx, rx) = channel();
    let mut app = App::new(rx, CounterModel::new(), CounterTextPresent, TermRender::new());
    tx.send(key(KEY_UP)).unwrap();
    drop(tx);
    assert_eq!(app.update(), Err(UpdateError::Disconnected(RECEIVE_FAILED)));
    assert_eq!(app.model().value(), 0);
    assert!(!keeps_running(&app.update()));
}

#[test]
fn keeps_running_only_after_a_running_tick() {
    assert!(keeps_running(&Ok(Status::Running)));
    assert!(!keeps_running(&Ok(Status::Finished)));
    assert!(!keeps_running(&Err(UpdateError::Disconnected(RECEIVE_FAILED))));
}

#[test]
fn term_render_accumulates_lines() {
    let mut render = TermRender::new();
    render.add_line("a");
    render.add_line("b");
    assert_eq!(render.buffered(), "\n\n ->> a ->> b");
}

#[test]
fn counter_is_presented_as_a_line() {
    let mut model = CounterModel::new();
    model.update(&[key(KEY_DOWN), key(KEY_DOWN)]);
    let mut render = TermRender::new();
    let mut present = CounterTextPresent;
    present.present(&model, &mut render);
    assert_eq!(render.buffered(), "\n ->> Values is: -2");
}
