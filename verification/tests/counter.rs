use flemish::models::counter::{Model, Msg};
use flemish::runtime::{Action, Phase, Redraw, Runtime};
use flemish::sandbox::Sandbox;
use flemish::settings::Settings;

#[test]
fn counter_starts_at_zero() {
    let model = Model::new();
    assert_eq!(model.value(), 0);
    assert_eq!(model.title(), "0 - 7GUI: Counter");
}

#[test]
fn counter_inc_inc_dec_yields_one() {
    let mut model = Model::new();
    assert!(model.update(Msg::Inc));
    assert!(model.update(Msg::Inc));
    assert!(model.update(Msg::Dec));
    assert_eq!(model.value(), 1);
    assert!(model.title().contains("1"));
    assert_eq!(model.title(), "1 - 7GUI: Counter");
}

#[test]
fn counter_runs_under_the_runtime() {
    let (mut runtime, _launch) = Runtime::<Model>::init(Settings::default(), Redraw::OnDemand);
    runtime.shown();
    assert_eq!(runtime.phase(), Phase::Running);
    runtime.send(Msg::Inc);
    runtime.send(Msg::Inc);
    runtime.send(Msg::Dec);
    assert_eq!(runtime.pump(true), Action::Rebuild);
    assert_eq!(runtime.model().value(), 1);
    assert_eq!(runtime.pump(true), Action::Rebuild);
    assert_eq!(runtime.pump(true), Action::Rebuild);
    assert_eq!(runtime.pump(true), Action::Idle);
    assert_eq!(runtime.model().value(), 1);
    assert!(runtime.title().contains("1"));
    assert_eq!(runtime.tree().value, "1");
}
