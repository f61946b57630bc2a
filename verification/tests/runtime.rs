use flemish::channel::Channel;
use flemish::color::Color;
use flemish::models::base64;
use flemish::models::counter::{Model, Msg};
use flemish::runtime::{Action, Closing, Pace, Phase, Redraw, Runtime, POLL_MILLIS};
use flemish::sandbox::Sandbox;
use flemish::settings::{Font, Role, Settings};
use flemish::theme::{plan, Step};

fn running(redraw: Redraw) -> Runtime<Model> {
    let (mut runtime, _launch) = Runtime::<Model>::init(Settings::default(), redraw);
    runtime.shown();
    runtime
}

#[test]
fn channel_is_first_in_first_out() {
    let mut channel: Channel<u32> = Channel::new();
    assert!(channel.is_empty());
    assert_eq!(channel.try_recv(), None);
    channel.send(1);
    channel.send(2);
    channel.send(3);
    assert_eq!(channel.len(), 3);
    assert_eq!(channel.try_recv(), Some(1));
    channel.send(4);
    assert_eq!(channel.recv(), 2);
    assert_eq!(channel.try_recv(), Some(3));
    assert_eq!(channel.try_recv(), Some(4));
    assert_eq!(channel.try_recv(), None);
    assert_eq!(channel.len(), 0);
}

#[test]
fn init_builds_state_tree_and_launch() {
    let settings = Settings {
        size: (300, 100),
        foreground: Some(Color::from_rgb(1, 2, 3)),
        ..Settings::default()
    };
    let expected = plan(&settings);
    let (runtime, launch) = Runtime::<Model>::init(settings, Redraw::OnDemand);
    assert_eq!(runtime.phase(), Phase::Init);
    assert_eq!(runtime.model().value(), 0);
    assert_eq!(runtime.title(), "0 - 7GUI: Counter");
    assert_eq!(runtime.tree().value, "0");
    assert_eq!(runtime.tree().down, Msg::Dec);
    assert_eq!(runtime.tree().up, Msg::Inc);
    assert_eq!(runtime.pending(), 0);
    assert_eq!(launch.plan, expected);
    assert!(launch.plan.contains(&Step::Role(Role::Foreground, Color::from_rgb(1, 2, 3))));
    assert_eq!(launch.plan.last(), Some(&Step::Font(Font::CourierBold)));
    assert_eq!((launch.window.width, launch.window.height), (300, 100));
    assert_eq!(launch.window.label, "0 - 7GUI: Counter");
    assert_eq!(launch.window.xclass, "0 - 7GUI: Counter");
}

#[test]
fn nothing_is_applied_before_the_window_is_shown() {
    let (mut runtime, _launch) = Runtime::<Model>::init(Settings::default(), Redraw::Always);
    runtime.send(Msg::Inc);
    assert_eq!(runtime.pump(true), Action::Idle);
    assert_eq!(runtime.close(), Closing::Ignore);
    assert_eq!(runtime.phase(), Phase::Init);
    assert_eq!(runtime.pending(), 1);
    assert_eq!(runtime.model().value(), 0);
    runtime.shown();
    assert_eq!(runtime.phase(), Phase::Running);
    assert_eq!(runtime.pump(true), Action::Rebuild);
    assert_eq!(runtime.model().value(), 1);
}

#[test]
fn one_message_is_applied_per_pump_step() {
    let mut runtime = running(Redraw::OnDemand);
    for _ in 0..5 {
        runtime.send(Msg::Inc);
    }
    for applied in 1..=5u8 {
        assert_eq!(runtime.pump(true), Action::Rebuild);
        assert_eq!(runtime.model().value(), applied);
        assert_eq!(runtime.pending(), usize::from(5 - applied));
        assert_eq!(runtime.tree().value, applied.to_string());
        assert_eq!(*runtime.title(), runtime.model().title());
    }
    assert_eq!(runtime.pump(true), Action::Idle);
    assert_eq!(runtime.model().value(), 5);
}

#[test]
fn messages_are_applied_in_the_order_of_sending() {
    let mut runtime = running(Redraw::OnDemand);
    runtime.send(Msg::Dec);
    runtime.send(Msg::Inc);
    runtime.send(Msg::Inc);
    runtime.pump(true);
    runtime.pump(true);
    runtime.pump(true);
    assert_eq!(runtime.model().value(), 2);
    let mut other = running(Redraw::OnDemand);
    other.send(Msg::Inc);
    other.send(Msg::Inc);
    other.send(Msg::Dec);
    other.pump(true);
    other.pump(true);
    other.pump(true);
    assert_eq!(other.model().value(), 1);
}

#[test]
fn runtime_state_is_the_left_fold_of_update() {
    let messages = [Msg::Inc, Msg::Dec, Msg::Dec, Msg::Inc, Msg::Inc, Msg::Inc, Msg::Dec];
    let mut folded = Model::new();
    let mut runtime = running(Redraw::Always);
    for message in messages {
        folded.update(message);
        runtime.send(message);
    }
    let mut rebuilds = 0;
    for _ in messages {
        if runtime.pump(true) == Action::Rebuild {
            rebuilds += 1;
        }
    }
    assert_eq!(*runtime.model(), folded);
    assert_eq!(runtime.model().value(), 2);
    assert_eq!(rebuilds, messages.len());
    assert_eq!(runtime.pending(), 0);
}

#[test]
fn a_send_between_pump_steps_waits_its_turn() {
    let mut runtime = running(Redraw::OnDemand);
    runtime.send(Msg::Inc);
    runtime.send(Msg::Inc);
    runtime.pump(true);
    runtime.send(Msg::Dec);
    assert_eq!(runtime.pending(), 2);
    runtime.pump(true);
    assert_eq!(runtime.model().value(), 2);
    runtime.pump(true);
    assert_eq!(runtime.model().value(), 1);
}

#[test]
fn a_dead_window_stops_the_runtime() {
    let mut runtime = running(Redraw::OnDemand);
    runtime.send(Msg::Inc);
    assert_eq!(runtime.pump(false), Action::Stop);
    assert_eq!(runtime.phase(), Phase::Terminated);
    assert_eq!(runtime.pump(true), Action::Stop);
    assert_eq!(runtime.model().value(), 0);
    assert_eq!(runtime.pending(), 1);
    assert_eq!(runtime.close(), Closing::Ignore);
}

#[test]
fn close_terminates_by_default() {
    let mut runtime = running(Redraw::OnDemand);
    assert_eq!(runtime.close(), Closing::Quit);
    assert_eq!(runtime.phase(), Phase::Terminated);
    assert_eq!(runtime.pump(true), Action::Stop);
}

#[test]
fn close_is_left_to_an_application_that_handles_it() {
    let settings = Settings { custom_close: true, ..Settings::default() };
    let (mut runtime, _launch) = Runtime::<Model>::init(settings, Redraw::OnDemand);
    runtime.shown();
    assert_eq!(runtime.close(), Closing::Defer);
    assert_eq!(runtime.phase(), Phase::Running);
    runtime.send(Msg::Inc);
    assert_eq!(runtime.pump(true), Action::Rebuild);
}

#[test]
fn the_runtime_polls_while_a_worker_is_at_work() {
    let mut runtime = running(Redraw::OnDemand);
    assert_eq!(POLL_MILLIS, 20);
    assert_eq!(runtime.pace(), Pace::Block);
    runtime.spawned();
    runtime.spawned();
    assert_eq!(runtime.pace(), Pace::Poll(20));
    assert_eq!(runtime.pump(true), Action::Idle);
    runtime.send(Msg::Dec);
    runtime.completed(Msg::Inc);
    assert_eq!(runtime.pace(), Pace::Poll(20));
    runtime.completed(Msg::Inc);
    assert_eq!(runtime.pace(), Pace::Block);
    assert_eq!(runtime.pending(), 3);
    runtime.pump(true);
    assert_eq!(runtime.model().value(), 0);
    runtime.pump(true);
    runtime.pump(true);
    assert_eq!(runtime.model().value(), 2);
    runtime.completed(Msg::Dec);
    assert_eq!(runtime.pace(), Pace::Block);
}

#[test]
fn title_and_view_give_the_same_twice() {
    let mut model = Model::new();
    model.update(Msg::Inc);
    assert_eq!(model.title(), model.title());
    assert_eq!(model.view().value, model.view().value);
    let mut coder = base64::Model::new();
    coder.update(base64::Msg::Dec(String::from("abc")));
    assert_eq!(coder.title(), coder.title());
    assert_eq!(coder.view().encode, coder.view().encode);
    assert_eq!(coder.view().decode, coder.view().decode);
}

#[test]
fn the_coder_runs_under_the_runtime() {
    let (mut runtime, launch) =
        Runtime::<base64::Model>::init(Settings::default(), Redraw::OnDemand);
    assert_eq!(launch.window.label, "FlBase64 - encode");
    runtime.shown();
    runtime.send(base64::Msg::Enc(String::from("not base64!")));
    runtime.send(base64::Msg::Dec(String::from("ok")));
    assert_eq!(runtime.pump(true), Action::Rebuild);
    assert_eq!(runtime.title(), "FlBase64 - decode");
    assert_eq!(runtime.tree().encode, "not base64!");
    assert_eq!(runtime.tree().decode, "Invalid symbol 32, offset 3.");
    assert_eq!(runtime.tree().focus, 2);
    assert_eq!(runtime.pump(true), Action::Rebuild);
    assert_eq!(runtime.title(), "FlBase64 - encode");
    assert_eq!(runtime.tree().encode, "b2s=");
    assert_eq!(runtime.phase(), Phase::Running);
}

#[test]
fn the_counter_stays_within_its_bounds() {
    let mut model = Model::new();
    model.update(Msg::Dec);
    assert_eq!(model.value(), 0);
    for _ in 0..300 {
        model.update(Msg::Inc);
    }
    assert_eq!(model.value(), 255);
    assert_eq!(model.title(), "255 - 7GUI: Counter");
    model.update(Msg::Dec);
    assert_eq!(model.view().value, "254");
}
