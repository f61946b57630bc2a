use flemish::models::csv::{names_table, Model, Msg};
use flemish::runtime::{Action, Redraw, Runtime};
use flemish::sandbox::Sandbox;
use flemish::settings::Settings;

fn names(list: &[&str]) -> Vec<String> {
    list.iter().map(|name| name.to_string()).collect()
}

#[test]
fn only_csv_files_name_tables() {
    assert!(names_table("AAPL.csv"));
    assert!(names_table(".csv"));
    assert!(names_table("données.csv"));
    assert!(!names_table("AAPL.txt"));
    assert!(!names_table("csv"));
    assert!(!names_table(""));
    assert!(!names_table("AAPL.csv.bak"));
    assert!(!names_table("AAPL.CSV"));
}

#[test]
fn listing_keeps_the_tables_and_asks_for_the_first() {
    let mut model: Model<u32> = Model::empty();
    assert_eq!(model.len(), 0);
    assert_eq!(model.wanted(), None);
    model.init(&names(&["GOOG.csv", "notes.txt", "AAPL.csv", "données.csv"]));
    assert_eq!(model.len(), 3);
    assert_eq!(model.list(), "GOOG|AAPL|données");
    assert_eq!(model.entry(1).name, "AAPL");
    assert_eq!(model.entry(1).data, None);
    assert_eq!(model.curr(), 0);
    assert_eq!(model.wanted(), Some((0, &String::from("GOOG"))));
}

#[test]
fn listing_nothing_asks_for_nothing() {
    let mut model: Model<u32> = Model::empty();
    model.init(&names(&["readme.md"]));
    assert_eq!(model.len(), 0);
    assert_eq!(model.list(), "");
    assert_eq!(model.wanted(), None);
}

#[test]
fn a_table_is_shown_once_it_has_been_read() {
    let mut model: Model<u32> = Model::empty();
    model.init(&names(&["a.csv", "b.csv", "c.csv"]));
    model.loaded(0, Some(vec![1, 2, 3]));
    assert_eq!(model.curr(), 0);
    assert_eq!(model.wanted(), None);
    assert_eq!(model.entry(0).data, Some(vec![1, 2, 3]));
    assert!(model.choice(2));
    assert_eq!(model.curr(), 0);
    assert_eq!(model.wanted(), Some((2, &String::from("c"))));
    model.loaded(2, Some(vec![7]));
    assert_eq!(model.curr(), 2);
    assert_eq!(model.wanted(), None);
    assert!(model.choice(0));
    assert_eq!(model.curr(), 0);
    assert_eq!(model.wanted(), None);
    assert_eq!(model.entry(0).name, "a");
    assert_eq!(model.entry(2).data, Some(vec![7]));
}

#[test]
fn a_table_that_cannot_be_read_changes_nothing() {
    let mut model: Model<u32> = Model::empty();
    model.init(&names(&["a.csv", "b.csv"]));
    model.loaded(0, Some(vec![1]));
    model.choice(1);
    model.loaded(1, None);
    assert_eq!(model.curr(), 0);
    assert_eq!(model.wanted(), None);
    assert_eq!(model.entry(1).data, None);
}

#[test]
fn records_that_were_not_asked_for_are_kept_but_not_shown() {
    let mut model: Model<u32> = Model::empty();
    model.init(&names(&["a.csv", "b.csv"]));
    model.loaded(1, Some(vec![5]));
    assert_eq!(model.curr(), 0);
    assert_eq!(model.entry(1).data, Some(vec![5]));
    assert_eq!(model.wanted(), Some((0, &String::from("a"))));
    model.loaded(1, Some(vec![6]));
    assert_eq!(model.entry(1).data, Some(vec![5]));
    model.loaded(9, Some(vec![6]));
    assert_eq!(model.len(), 2);
}

#[test]
fn the_browser_runs_under_the_runtime() {
    let (mut runtime, launch) = Runtime::<Model<u32>>::init(Settings::default(), Redraw::OnDemand);
    assert_eq!(launch.window.label, "FlCSV");
    runtime.shown();
    runtime.send(Msg::Listed(names(&["x.csv", "y.csv"])));
    assert_eq!(runtime.pump(true), Action::Rebuild);
    assert_eq!(runtime.tree().choices, "x|y");
    assert_eq!(runtime.tree().curr, 0);
    assert_eq!(runtime.model().wanted().map(|wanted| wanted.0), Some(0));
    runtime.completed(Msg::Loaded(0, Some(vec![1])));
    runtime.send(Msg::Choice(1));
    runtime.send(Msg::Choice(5));
    assert_eq!(runtime.pump(true), Action::Rebuild);
    assert_eq!(runtime.pump(true), Action::Rebuild);
    assert_eq!(runtime.pump(true), Action::Idle);
    assert_eq!(runtime.pending(), 0);
    assert_eq!(runtime.tree().curr, 0);
    assert_eq!(runtime.model().wanted().map(|wanted| wanted.0), Some(1));
    runtime.send(Msg::Loaded(1, Some(vec![2, 3])));
    assert_eq!(runtime.pump(true), Action::Rebuild);
    assert_eq!(runtime.tree().curr, 1);
    assert_eq!(runtime.model().view().choices, "x|y");
    assert_eq!(runtime.title(), "FlCSV");
}

#[test]
fn a_rebuild_follows_exactly_the_messages_that_call_for_one() {
    let messages = || {
        vec![
            Msg::Choice(0),
            Msg::Listed(names(&["x.csv", "y.csv"])),
            Msg::Choice(7),
            Msg::Choice(1),
            Msg::Loaded(1, Some(vec![4u32])),
            Msg::Choice(2),
        ]
    };
    let mut model: Model<u32> = Model::new();
    let answers: Vec<bool> = messages().into_iter().map(|message| model.update(message)).collect();
    assert_eq!(answers, vec![false, true, false, true, true, false]);

    let (mut on_demand, _launch) =
        Runtime::<Model<u32>>::init(Settings::default(), Redraw::OnDemand);
    on_demand.shown();
    let (mut always, _launch) = Runtime::<Model<u32>>::init(Settings::default(), Redraw::Always);
    always.shown();
    for message in messages() {
        on_demand.send(message);
    }
    for message in messages() {
        always.send(message);
    }
    for answer in answers {
        let expected = if answer { Action::Rebuild } else { Action::Idle };
        assert_eq!(on_demand.pump(true), expected);
        assert_eq!(always.pump(true), Action::Rebuild);
    }
    assert_eq!(on_demand.pump(true), Action::Idle);
    assert_eq!(always.pump(true), Action::Idle);
    assert_eq!(on_demand.model().curr(), model.curr());
    assert_eq!(on_demand.model().list(), model.list());
    assert_eq!(always.model().curr(), 1);
    assert_eq!(on_demand.tree().curr, 1);
    assert_eq!(on_demand.tree().choices, "x|y");
}

#[test]
fn an_absorbed_message_leaves_caption_and_tree_alone() {
    let mut model: Model<u32> = Model::new();
    model.update(Msg::Listed(names(&["x.csv"])));
    let (title, choices, curr) = (model.title(), model.view().choices, model.view().curr);
    assert!(!model.update(Msg::Choice(1)));
    assert_eq!(model.title(), title);
    assert_eq!(model.view().choices, choices);
    assert_eq!(model.view().curr, curr);
}

#[test]
fn an_empty_directory_changes_nothing() {
    let mut model: Model<u32> = Model::empty();
    model.init(&names(&["a.csv", "b.csv"]));
    model.loaded(0, Some(vec![1]));
    model.loaded(1, None);
    assert_eq!(model.wanted(), None);
    model.init(&Vec::new());
    assert_eq!(model.len(), 2);
    assert_eq!(model.curr(), 0);
    assert_eq!(model.wanted(), None);
    assert_eq!(model.list(), "a|b");

    let mut open: Model<u32> = Model::empty();
    open.init(&names(&["a.csv"]));
    open.loaded(0, None);
    assert_eq!(open.wanted(), None);
    open.init(&Vec::new());
    assert_eq!(open.wanted(), None);
    assert_eq!(open.len(), 1);
    assert!(open.update(Msg::Listed(Vec::new())));
    assert_eq!(open.wanted(), None);
    assert_eq!(open.curr(), 0);
}

#[test]
fn a_directory_without_tables_still_chooses_the_current_one() {
    let mut model: Model<u32> = Model::empty();
    model.init(&names(&["a.csv"]));
    model.loaded(0, None);
    assert_eq!(model.wanted(), None);
    model.init(&names(&["notes.txt"]));
    assert_eq!(model.len(), 1);
    assert_eq!(model.wanted(), Some((0, &String::from("a"))));
}

#[test]
fn listing_again_adds_to_the_list() {
    let mut model: Model<u32> = Model::empty();
    model.init(&names(&["a.csv"]));
    model.loaded(0, Some(vec![1]));
    model.init(&names(&["b.csv", "c.txt", "d.csv"]));
    assert_eq!(model.list(), "a|b|d");
    assert_eq!(model.curr(), 0);
    assert_eq!(model.wanted(), None);
    assert_eq!(model.entry(0).data, Some(vec![1]));
}
