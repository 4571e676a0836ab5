use hello_windows::bootstrap::{
    class_descriptor, window_params, BootCommand, BootEvent, Bootstrap, Phase, SHOW_MODE_DEFAULT,
};
use hello_windows::dispatch::{
    about_text, about_title, dispatch, result_code, window_text, Action, DispatchResult, EventKind,
};
use hello_windows::menu::{build_menu, MenuEntry};
use hello_windows::message_loop::{loop_step, pump, LoopDecision, LoopOutcome, Retrieved};
use hello_windows::{IDM_ABOUT, IDM_EXIT, IDM_FILE};

#[test]
fn about_command_shows_one_dialog() {
    let p = dispatch(&EventKind::Command { id: IDM_ABOUT });
    assert_eq!(p.actions, vec![Action::ShowAboutDialog]);
    assert_eq!(p.result, DispatchResult::Handled);
}

#[test]
fn exit_command_requests_destroy() {
    let p = dispatch(&EventKind::Command { id: IDM_EXIT });
    assert_eq!(p.actions, vec![Action::RequestDestroy]);
    assert_eq!(p.result, DispatchResult::Handled);
}

#[test]
fn unknown_command_defers_without_side_effects() {
    let p = dispatch(&EventKind::Command { id: 42 });
    assert!(p.actions.is_empty());
    assert_eq!(p.result, DispatchResult::Deferred);
}

#[test]
fn file_anchor_command_defers() {
    // Selecting the File anchor opens the popup; as a command id it is not
    // handled and falls through to the default handler.
    let p = dispatch(&EventKind::Command { id: IDM_FILE });
    assert!(p.actions.is_empty());
    assert_eq!(p.result, DispatchResult::Deferred);
}

#[test]
fn unknown_event_kind_defers() {
    let p = dispatch(&EventKind::Other { code: 0x0200 });
    assert!(p.actions.is_empty());
    assert_eq!(p.result, DispatchResult::Deferred);
}

#[test]
fn paint_queries_bounds_first_and_ends_session_last() {
    let p = dispatch(&EventKind::Paint);
    assert_eq!(
        p.actions,
        vec![
            Action::QueryClientBounds,
            Action::BeginPaintSession,
            Action::DisableTextBackground,
            Action::DrawCenteredText,
            Action::EndPaintSession,
        ]
    );
    assert_eq!(p.result, DispatchResult::Handled);
}

#[test]
fn destroy_posts_quit_with_payload_zero() {
    let p = dispatch(&EventKind::Destroy);
    assert_eq!(p.actions, vec![Action::PostQuit { payload: 0 }]);
    assert_eq!(p.result, DispatchResult::Handled);
}

#[test]
fn result_code_is_zero_when_handled() {
    assert_eq!(result_code(&DispatchResult::Handled, -17), 0);
    assert_eq!(result_code(&DispatchResult::Deferred, -17), -17);
}

#[test]
fn fixed_texts() {
    assert_eq!(window_text(), "Hello, Windows!");
    assert_eq!(about_title(), "About Hello Windows Sample");
    assert_eq!(
        about_text(),
        "Version 1.0 \n\nCreated for demonstration purposes.\n\n\nCopyright \u{a9}\u{fe0f} LOLOLOL Corp."
    );
}

#[test]
fn menu_tree_shape_and_ids() {
    let m = build_menu();
    assert_eq!(m.bar.len(), 2);
    match m.bar[0] {
        MenuEntry::PopupAnchor { id, label } => {
            assert_eq!(id, IDM_FILE);
            assert_eq!(label, "&File");
        }
        _ => panic!("first bar entry must anchor the File popup"),
    }
    match m.bar[1] {
        MenuEntry::CommandItem { id, label } => {
            assert_eq!(id, IDM_ABOUT);
            assert_eq!(label, "&About");
        }
        _ => panic!("second bar entry must be the About command"),
    }
    assert_eq!(m.file_popup.len(), 1);
    match m.file_popup[0] {
        MenuEntry::CommandItem { id, label } => {
            assert_eq!(id, IDM_EXIT);
            assert_eq!(label, "E&xit");
        }
        _ => panic!("the popup entry must be the Exit command"),
    }
    let ids = [IDM_FILE, IDM_ABOUT, IDM_EXIT];
    for i in 0..ids.len() {
        for j in (i + 1)..ids.len() {
            assert_ne!(ids[i], ids[j]);
        }
    }
}

#[test]
fn loop_exits_on_quit_without_dispatching() {
    let d = loop_step(&Retrieved::Quit { payload: 0 });
    assert_eq!(d, LoopDecision::ExitLoop { code: 0 });
}

#[test]
fn loop_dispatches_delivered_events() {
    let d = loop_step(&Retrieved::Deliver { event: EventKind::Paint });
    assert_eq!(d, LoopDecision::DispatchDelivered);
}

#[test]
fn pump_without_destroy_never_terminates() {
    let events = vec![
        EventKind::Paint,
        EventKind::Command { id: IDM_ABOUT },
        EventKind::Other { code: 7 },
        EventKind::Paint,
    ];
    let r = pump(&events);
    assert_eq!(r.outcome, LoopOutcome::Waiting);
    assert_eq!(r.dispatched, 4);
}

#[test]
fn pump_of_empty_queue_waits() {
    let r = pump(&Vec::new());
    assert_eq!(r.outcome, LoopOutcome::Waiting);
    assert_eq!(r.dispatched, 0);
}

#[test]
fn pump_with_destroy_exits_zero_after_dispatching_all() {
    let events = vec![EventKind::Paint, EventKind::Destroy, EventKind::Paint];
    let r = pump(&events);
    assert_eq!(r.outcome, LoopOutcome::Exited { code: 0 });
    assert_eq!(r.dispatched, 3);
}

#[test]
fn registration_failure_is_fatal_with_platform_code() {
    let mut b = Bootstrap::new(Some(SHOW_MODE_DEFAULT));
    assert_eq!(b.initial_command(), BootCommand::RegisterClass);
    let cmd = b.step(BootEvent::RegisterFailed { err: 1410 });
    assert_eq!(cmd, BootCommand::ExitProcess { code: 1410 });
    assert_eq!(b.phase, Phase::Done { exit: 1410 });
}

#[test]
fn creation_failure_is_fatal_with_platform_code() {
    let mut b = Bootstrap::new(Some(SHOW_MODE_DEFAULT));
    b.step(BootEvent::RegisterSucceeded);
    let cmd = b.step(BootEvent::CreateFailed { err: 8 });
    assert_eq!(cmd, BootCommand::ExitProcess { code: 8 });
    assert_eq!(b.phase, Phase::Done { exit: 8 });
}

#[test]
fn show_mode_hint_and_fallback() {
    assert_eq!(Bootstrap::new(Some(3)).show, 3);
    assert_eq!(Bootstrap::new(None).show, SHOW_MODE_DEFAULT);
}

#[test]
fn class_descriptor_fields() {
    let d = class_descriptor();
    assert!(d.redraw_on_width_change);
    assert!(d.redraw_on_height_change);
    assert_eq!(d.icon_id, 32512);
    assert_eq!(d.cursor_id, 32512);
    assert_eq!(d.background_color_index, 5);
    assert_eq!(d.class_name, "MyWindowClass");
}

#[test]
fn window_params_fields() {
    let p = window_params();
    assert_eq!(p.title, "Hello Windows sample");
    assert_eq!(p.width, 800);
    assert_eq!(p.height, 600);
    assert!(p.platform_chooses_position);
    assert!(p.overlapped_style);
    assert!(!p.has_parent);
}

#[test]
fn end_to_end_run() {
    // Start: the class registers, the window is created with the menu,
    // and the window is shown with the hinted mode.
    let mut b = Bootstrap::new(Some(10));
    assert_eq!(b.initial_command(), BootCommand::RegisterClass);
    assert_eq!(b.step(BootEvent::RegisterSucceeded), BootCommand::CreateWindow);
    let menu = build_menu();
    assert_eq!(menu.bar.len(), 2);
    assert_eq!(menu.file_popup.len(), 1);
    assert_eq!(b.step(BootEvent::CreateSucceeded), BootCommand::ShowWindow { mode: 10 });
    assert_eq!(b.step(BootEvent::WindowShown), BootCommand::Retrieve);

    // The loop pumps one Paint: the fixed text is drawn centered.
    let paint = Retrieved::Deliver { event: EventKind::Paint };
    assert_eq!(
        b.step(BootEvent::EventRetrieved { item: paint }),
        BootCommand::DispatchEvent { event: EventKind::Paint }
    );
    let plan = dispatch(&EventKind::Paint);
    assert!(plan.actions.contains(&Action::DrawCenteredText));
    assert_eq!(window_text(), "Hello, Windows!");
    assert_eq!(b.step(BootEvent::Dispatched), BootCommand::Retrieve);

    // The loop pumps Command(110): the window is destroyed.
    let exit_cmd = EventKind::Command { id: IDM_EXIT };
    let got = b.step(BootEvent::EventRetrieved {
        item: Retrieved::Deliver { event: exit_cmd },
    });
    assert_eq!(got, BootCommand::DispatchEvent { event: exit_cmd });
    let plan = dispatch(&exit_cmd);
    assert_eq!(plan.actions, vec![Action::RequestDestroy]);
    assert_eq!(b.step(BootEvent::Dispatched), BootCommand::Retrieve);

    // The loop pumps Destroy: quit(0) is posted.
    let got = b.step(BootEvent::EventRetrieved {
        item: Retrieved::Deliver { event: EventKind::Destroy },
    });
    assert_eq!(got, BootCommand::DispatchEvent { event: EventKind::Destroy });
    let plan = dispatch(&EventKind::Destroy);
    assert_eq!(plan.actions, vec![Action::PostQuit { payload: 0 }]);
    assert_eq!(b.step(BootEvent::Dispatched), BootCommand::Retrieve);

    // The loop pumps the quit signal: the loop exits, exit code zero.
    let got = b.step(BootEvent::EventRetrieved {
        item: Retrieved::Quit { payload: 0 },
    });
    assert_eq!(got, BootCommand::ExitProcess { code: 0 });
    assert_eq!(b.phase, Phase::Done { exit: 0 });
}
