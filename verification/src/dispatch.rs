//! The window procedure, as a pure decision function.
//!
//! Every event the platform delivers to the window is routed here. Instead of
//! performing the platform calls itself, the procedure returns a
//! [`DispatchPlan`]: the exact sequence of platform actions the shell must
//! perform for this event, in order, and whether the event counts as handled
//! or must be deferred to the platform's default handler.

use vstd::prelude::*;

use crate::{known_menu_id, IDM_ABOUT, IDM_EXIT};

verus! {

/// One delivered event, decoded from the platform's raw message record.
/// The known kinds form a closed set; everything else is carried through
/// as [`EventKind::Other`] and deferred.
#[derive(Clone, Copy, PartialEq, Eq, Structural, Debug)]
pub enum EventKind {
    /// A menu or control selection carrying its numeric command id.
    Command { id: u64 },
    /// The window's client area must be repainted.
    Paint,
    /// The window is being destroyed.
    Destroy,
    /// Any other event kind, identified by its raw platform code.
    Other { code: u32 },
}

/// One platform action that the shell performs on the dispatcher's behalf.
#[derive(Clone, Copy, PartialEq, Eq, Structural, Debug)]
pub enum Action {
    /// Show the modal About dialog with the fixed informational message.
    ShowAboutDialog,
    /// Request destruction of the window instance.
    RequestDestroy,
    /// Query the current client-area bounds.
    QueryClientBounds,
    /// Begin a paint session on the window.
    BeginPaintSession,
    /// Disable the opaque background fill behind drawn text.
    DisableTextBackground,
    /// Draw the fixed window text centered in the client area, one line.
    DrawCenteredText,
    /// End the current paint session.
    EndPaintSession,
    /// Post the quit signal with the given payload to the thread's queue.
    PostQuit { payload: u32 },
}

/// Whether the dispatcher handled the event itself (result code zero) or
/// defers it, in which case the shell returns the default handler's value.
#[derive(Clone, Copy, PartialEq, Eq, Structural, Debug)]
pub enum DispatchResult {
    Handled,
    Deferred,
}

/// What the window procedure decided for one event.
#[derive(Debug)]
pub struct DispatchPlan {
    /// The platform actions to perform, in order.
    pub actions: Vec<Action>,
    /// Handled, or deferred to the default handler.
    pub result: DispatchResult,
}

/// The exact action sequence the window procedure emits for an event.
pub open spec fn dispatch_actions(e: EventKind) -> Seq<Action> {
    match e {
        EventKind::Command { id } => if id == IDM_ABOUT {
            seq![Action::ShowAboutDialog]
        } else if id == IDM_EXIT {
            seq![Action::RequestDestroy]
        } else {
            Seq::<Action>::empty()
        },
        EventKind::Paint => seq![
            Action::QueryClientBounds,
            Action::BeginPaintSession,
            Action::DisableTextBackground,
            Action::DrawCenteredText,
            Action::EndPaintSession,
        ],
        EventKind::Destroy => seq![(Action::PostQuit { payload: 0 })],
        EventKind::Other { .. } => Seq::<Action>::empty(),
    }
}

/// Whether the window procedure handles an event itself or defers it.
pub open spec fn dispatch_result(e: EventKind) -> DispatchResult {
    match e {
        EventKind::Command { id } => if id == IDM_ABOUT || id == IDM_EXIT {
            DispatchResult::Handled
        } else {
            DispatchResult::Deferred
        },
        EventKind::Paint => DispatchResult::Handled,
        EventKind::Destroy => DispatchResult::Handled,
        EventKind::Other { .. } => DispatchResult::Deferred,
    }
}

/// Route one delivered event: decide which platform actions to perform and
/// whether the event is handled or deferred.
pub fn dispatch(e: &EventKind) -> (p: DispatchPlan)
    ensures
        p.actions@ == dispatch_actions(*e),
        p.result == dispatch_result(*e),
{
    let mut actions: Vec<Action> = Vec::new();
    let result: DispatchResult;
    match e {
        EventKind::Command { id } => {
            if *id == IDM_ABOUT {
                actions.push(Action::ShowAboutDialog);
                result = DispatchResult::Handled;
            } else if *id == IDM_EXIT {
                actions.push(Action::RequestDestroy);
                result = DispatchResult::Handled;
            } else {
                result = DispatchResult::Deferred;
            }
        },
        EventKind::Paint => {
            actions.push(Action::QueryClientBounds);
            actions.push(Action::BeginPaintSession);
            actions.push(Action::DisableTextBackground);
            actions.push(Action::DrawCenteredText);
            actions.push(Action::EndPaintSession);
            result = DispatchResult::Handled;
        },
        EventKind::Destroy => {
            actions.push(Action::PostQuit { payload: 0 });
            result = DispatchResult::Handled;
        },
        EventKind::Other { .. } => {
            result = DispatchResult::Deferred;
        },
    }
    proof {
        assert(actions@ =~= dispatch_actions(*e));
    }
    DispatchPlan { actions, result }
}

/// Turn the dispatch result into the result code the window procedure
/// returns to the platform: zero when handled, the default handler's value
/// when deferred.
pub fn result_code(r: &DispatchResult, deferred_value: isize) -> (c: isize)
    ensures
        *r is Handled ==> c == 0,
        *r is Deferred ==> c == deferred_value,
{
    match r {
        DispatchResult::Handled => 0,
        DispatchResult::Deferred => deferred_value,
    }
}

/// The fixed string drawn centered in the client area on every repaint.
pub fn window_text() -> (s: &'static str)
    ensures
        s@ == "Hello, Windows!"@,
{
    "Hello, Windows!"
}

/// The title of the modal About dialog.
pub fn about_title() -> (s: &'static str)
    ensures
        s@ == "About Hello Windows Sample"@,
{
    "About Hello Windows Sample"
}

/// The fixed multi-line message shown by the modal About dialog.
pub fn about_text() -> (s: &'static str)
    ensures
        s@ == "Version 1.0 \n\nCreated for demonstration purposes.\n\n\nCopyright \u{a9}\u{fe0f} LOLOLOL Corp."@,
{
    "Version 1.0 \n\nCreated for demonstration purposes.\n\n\nCopyright \u{a9}\u{fe0f} LOLOLOL Corp."
}

/// Law: the About command triggers exactly one modal dialog display — the
/// plan is the one-element sequence — and reports the event as handled.
pub proof fn lemma_about_command_shows_one_dialog()
    ensures
        dispatch_actions((EventKind::Command { id: IDM_ABOUT })) =~= seq![Action::ShowAboutDialog],
        dispatch_result((EventKind::Command { id: IDM_ABOUT })) is Handled,
{
}

/// Law: the Exit command requests destruction of the window — and nothing
/// else — and reports the event as handled.
pub proof fn lemma_exit_command_requests_destroy()
    ensures
        dispatch_actions((EventKind::Command { id: IDM_EXIT })) =~= seq![Action::RequestDestroy],
        dispatch_result((EventKind::Command { id: IDM_EXIT })) is Handled,
{
}

/// Law: a command whose id the menu tree does not carry is deferred to the
/// default handler, shows no dialog and destroys nothing.
pub proof fn lemma_unknown_command_defers(id: u64)
    requires
        !known_menu_id(id),
    ensures
        dispatch_result((EventKind::Command { id })) is Deferred,
        dispatch_actions((EventKind::Command { id })) =~= Seq::<Action>::empty(),
        !dispatch_actions((EventKind::Command { id })).contains(Action::ShowAboutDialog),
        !dispatch_actions((EventKind::Command { id })).contains(Action::RequestDestroy),
{
}

/// Law: a repaint queries the client bounds before the paint session begins,
/// draws inside the session, and ends the session last, unconditionally.
pub proof fn lemma_paint_session_ordering()
    ensures
        dispatch_actions(EventKind::Paint).len() == 5,
        dispatch_actions(EventKind::Paint)[0] is QueryClientBounds,
        dispatch_actions(EventKind::Paint)[1] is BeginPaintSession,
        dispatch_actions(EventKind::Paint)[2] is DisableTextBackground,
        dispatch_actions(EventKind::Paint)[3] is DrawCenteredText,
        dispatch_actions(EventKind::Paint)[4] is EndPaintSession,
        dispatch_actions(EventKind::Paint).last() is EndPaintSession,
        dispatch_result(EventKind::Paint) is Handled,
{
}

/// Law: destroying the window posts exactly the quit signal with payload
/// zero, and nothing else.
pub proof fn lemma_destroy_posts_quit()
    ensures
        dispatch_actions(EventKind::Destroy) =~= seq![(Action::PostQuit { payload: 0 })],
        dispatch_result(EventKind::Destroy) is Handled,
{
}

/// Law: no event other than Destroy ever posts the quit signal.
pub proof fn lemma_only_destroy_posts_quit(e: EventKind)
    requires
        !(e is Destroy),
    ensures
        forall|i: int|
            0 <= i < dispatch_actions(e).len() ==> !(#[trigger] dispatch_actions(e)[i] is PostQuit),
{
}

} // verus!
