use envtrackernode::poller::{poll_next, PollAction, PollOutcome};
use envtrackernode::site::{panes_to_add, Pane, PaneId, TreeBehavior};

#[test]
fn pane_keeps_its_id_and_alias() {
    let p = Pane::new(PaneId("abc".to_string()), "Desk".to_string());
    assert_eq!(p.get_id(), "abc");
    assert_eq!(p.get_alias(), "Desk");
}

#[test]
fn reset_plot_sets_the_flag() {
    let mut t = TreeBehavior { reset: false };
    t.reset_plot();
    assert!(t.reset);
}

#[test]
fn new_panes_skip_known_and_repeated_outlets() {
    let known = vec![PaneId("a".to_string())];
    let devices = vec![
        ("a".to_string(), "A".to_string()),
        ("b".to_string(), "B".to_string()),
        ("c".to_string(), "C".to_string()),
        ("b".to_string(), "B again".to_string()),
    ];
    let panes = panes_to_add(&known, &devices);
    let got: Vec<(String, String)> = panes.iter().map(|p| (p.get_id().clone(), p.get_alias().clone())).collect();
    assert_eq!(got, vec![("b".to_string(), "B".to_string()), ("c".to_string(), "C".to_string())]);
}

#[test]
fn poll_stops_on_failure_and_on_exhaustion() {
    assert!(matches!(poll_next(PollOutcome::Busy), PollAction::Stop));
    assert!(matches!(poll_next(PollOutcome::SendFailed), PollAction::Stop));
    assert!(matches!(poll_next(PollOutcome::BadStatus), PollAction::Stop));
    assert!(matches!(poll_next(PollOutcome::Batches(0)), PollAction::Stop));
}

#[test]
fn poll_stores_batches_and_skips_unparsable_answers() {
    assert!(matches!(poll_next(PollOutcome::Batches(3)), PollAction::Store));
    assert!(matches!(poll_next(PollOutcome::Unparsable), PollAction::Again));
}

#[test]
fn tiles_load_once() {
    let mut registered = false;
    let known = vec![PaneId("a".to_string())];
    let none: Vec<(String, String)> = vec![];
    assert!(envtrackernode::site::load_tiles(&mut registered, &known, &none).is_none());
    assert!(!registered);
    let devices = vec![
        ("a".to_string(), "A".to_string()),
        ("b".to_string(), "B".to_string()),
        ("b".to_string(), "B2".to_string()),
    ];
    let load = envtrackernode::site::load_tiles(&mut registered, &known, &devices).expect("a first load");
    assert!(registered);
    let panes: Vec<(String, String)> = load.panes.iter().map(|p| (p.get_id().clone(), p.get_alias().clone())).collect();
    assert_eq!(panes, vec![("b".to_string(), "B".to_string())]);
    let widgets: Vec<String> = load.widgets.iter().map(|w| w.0.clone()).collect();
    assert_eq!(widgets, vec!["a".to_string(), "b".to_string(), "b".to_string()]);
    assert!(envtrackernode::site::load_tiles(&mut registered, &known, &devices).is_none());
}
