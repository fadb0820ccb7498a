use plugin_host::editor::PluginPeer;
use plugin_host::supervisor::{
    Action, ChildExit, Event, Lifecycle, PluginProcess, PluginStartupError, PLUGIN_DIR,
    PLUGIN_FILE,
};

fn all_events() -> Vec<Event> {
    vec![
        Event::Spawned(PluginPeer { id: 9 }),
        Event::StartupFailed(PluginStartupError::PathUnresolved),
        Event::StartupFailed(PluginStartupError::SpawnFailed),
        Event::ProbeSent,
        Event::Registered,
        Event::Closed(ChildExit::Success),
        Event::Closed(ChildExit::Failed(1)),
        Event::Closed(ChildExit::Killed(9)),
        Event::Closed(ChildExit::Unobserved),
    ]
}

fn dispatching(peer: PluginPeer) -> PluginProcess {
    let mut process = PluginProcess::new();
    process.on_event(Event::Spawned(peer));
    process.on_event(Event::ProbeSent);
    process.on_event(Event::Registered);
    process
}

#[test]
fn the_plugin_lies_in_its_directory_beside_the_host() {
    assert_eq!(PLUGIN_DIR, "python");
    assert_eq!(PLUGIN_FILE, "plugin.py");
}

#[test]
fn a_new_process_has_not_started() {
    let process = PluginProcess::new();
    assert_eq!(process.state(), Lifecycle::NotStarted);
    assert_eq!(process.peer(), None);
    assert_eq!(process.exit(), None);
}

#[test]
fn a_plugin_goes_from_spawn_to_dispatching() {
    let peer = PluginPeer { id: 4 };
    let mut process = PluginProcess::new();

    assert_eq!(process.on_event(Event::Spawned(peer)), Action::SendProbe);
    assert_eq!(process.state(), Lifecycle::Spawned);
    assert_eq!(process.peer(), Some(peer));

    assert_eq!(process.on_event(Event::ProbeSent), Action::Register(peer));
    assert_eq!(process.state(), Lifecycle::Connected);

    assert_eq!(process.on_event(Event::Registered), Action::Dispatch);
    assert_eq!(process.state(), Lifecycle::Dispatching);
    assert_eq!(process.exit(), None);

    assert_eq!(
        process.on_event(Event::Closed(ChildExit::Success)),
        Action::ReportExit(ChildExit::Success)
    );
    assert_eq!(process.state(), Lifecycle::Exited);
    assert_eq!(process.exit(), Some(ChildExit::Success));
    assert_eq!(process.peer(), Some(peer));
}

#[test]
fn missing_plugin_binary_ends_the_process_with_a_startup_error() {
    let mut process = PluginProcess::new();
    assert_eq!(
        process.on_event(Event::StartupFailed(PluginStartupError::SpawnFailed)),
        Action::ReportStartupError(PluginStartupError::SpawnFailed)
    );
    assert_eq!(process.state(), Lifecycle::Exited);
    assert_eq!(process.peer(), None);
    assert_eq!(process.exit(), None);
    for event in all_events() {
        assert_eq!(process.on_event(event), Action::Nothing);
        assert_eq!(process.state(), Lifecycle::Exited);
    }
}

#[test]
fn unresolved_path_ends_the_process_with_a_startup_error() {
    let mut process = PluginProcess::new();
    assert_eq!(
        process.on_event(Event::StartupFailed(PluginStartupError::PathUnresolved)),
        Action::ReportStartupError(PluginStartupError::PathUnresolved)
    );
    assert_eq!(process.state(), Lifecycle::Exited);
}

#[test]
fn one_failed_plugin_does_not_touch_another() {
    let mut failed = PluginProcess::new();
    let mut healthy = PluginProcess::new();
    failed.on_event(Event::StartupFailed(PluginStartupError::SpawnFailed));
    assert_eq!(healthy.on_event(Event::Spawned(PluginPeer { id: 1 })), Action::SendProbe);
    assert_eq!(healthy.state(), Lifecycle::Spawned);
    assert_eq!(failed.state(), Lifecycle::Exited);
}

#[test]
fn exit_is_reported_once_whether_clean_or_not() {
    let statuses = vec![
        ChildExit::Success,
        ChildExit::Failed(1),
        ChildExit::Failed(-7),
        ChildExit::Killed(9),
        ChildExit::Unobserved,
    ];
    for status in statuses {
        let mut process = dispatching(PluginPeer { id: 2 });
        assert_eq!(process.on_event(Event::Closed(status)), Action::ReportExit(status));
        assert_eq!(process.state(), Lifecycle::Exited);
        assert_eq!(process.exit(), Some(status));

        let mut reports = 0;
        for event in all_events() {
            let action = process.on_event(event);
            if action != Action::Nothing {
                reports += 1;
            }
            assert_eq!(process.state(), Lifecycle::Exited);
            assert_eq!(process.exit(), Some(status));
        }
        assert_eq!(reports, 0);
    }
}

#[test]
fn a_child_that_dies_early_exits_from_any_running_state() {
    let peer = PluginPeer { id: 5 };

    let mut spawned = PluginProcess::new();
    spawned.on_event(Event::Spawned(peer));
    assert_eq!(
        spawned.on_event(Event::Closed(ChildExit::Killed(15))),
        Action::ReportExit(ChildExit::Killed(15))
    );
    assert_eq!(spawned.state(), Lifecycle::Exited);

    let mut connected = PluginProcess::new();
    connected.on_event(Event::Spawned(peer));
    connected.on_event(Event::ProbeSent);
    assert_eq!(
        connected.on_event(Event::Closed(ChildExit::Failed(2))),
        Action::ReportExit(ChildExit::Failed(2))
    );
    assert_eq!(connected.state(), Lifecycle::Exited);
}

#[test]
fn an_event_out_of_turn_changes_nothing() {
    let mut process = PluginProcess::new();
    assert_eq!(process.on_event(Event::ProbeSent), Action::Nothing);
    assert_eq!(process.on_event(Event::Registered), Action::Nothing);
    assert_eq!(process.on_event(Event::Closed(ChildExit::Success)), Action::Nothing);
    assert_eq!(process.state(), Lifecycle::NotStarted);
    assert_eq!(process.exit(), None);

    let peer = PluginPeer { id: 6 };
    process.on_event(Event::Spawned(peer));
    assert_eq!(process.on_event(Event::Spawned(PluginPeer { id: 7 })), Action::Nothing);
    assert_eq!(process.on_event(Event::Registered), Action::Nothing);
    assert_eq!(
        process.on_event(Event::StartupFailed(PluginStartupError::SpawnFailed)),
        Action::Nothing
    );
    assert_eq!(process.state(), Lifecycle::Spawned);
    assert_eq!(process.peer(), Some(peer));

    let mut running = dispatching(peer);
    assert_eq!(running.on_event(Event::ProbeSent), Action::Nothing);
    assert_eq!(running.on_event(Event::Registered), Action::Nothing);
    assert_eq!(running.state(), Lifecycle::Dispatching);
}

#[test]
fn each_piece_of_work_is_asked_for_once() {
    let peer = PluginPeer { id: 8 };
    let events = vec![
        Event::Spawned(peer),
        Event::Spawned(peer),
        Event::ProbeSent,
        Event::ProbeSent,
        Event::Registered,
        Event::Registered,
        Event::Spawned(peer),
        Event::Closed(ChildExit::Success),
        Event::Closed(ChildExit::Failed(3)),
        Event::Registered,
    ];
    let mut process = PluginProcess::new();
    let mut actions = Vec::new();
    for event in events {
        let action = process.on_event(event);
        if action != Action::Nothing {
            actions.push(action);
        }
    }
    assert_eq!(
        actions,
        vec![
            Action::SendProbe,
            Action::Register(peer),
            Action::Dispatch,
            Action::ReportExit(ChildExit::Success),
        ]
    );
    assert_eq!(process.exit(), Some(ChildExit::Success));
}
