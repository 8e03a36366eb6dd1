//! Shared shortcut event routing.
//!
//! Every shortcut event, from either hotkey implementation, is routed the
//! same way: transcription bindings go to the transcription coordinator;
//! the cancel binding fires only on a press, and only while recording; any
//! other binding starts its action on press and stops it on release. This
//! module decides the route; running the action (off the hotkey thread for
//! cancel) belongs to the caller.

use vstd::prelude::*;
use crate::coordinator::{is_transcribe_binding, is_transcribe_binding_spec};
use crate::text::str_eq;

verus! {

/// Where a shortcut event goes.
#[derive(Clone, Copy, PartialEq, Eq, Structural, Debug)]
pub enum ShortcutRoute {
    /// To the transcription coordinator, with push-to-talk resolved there.
    Coordinator,
    /// No action is registered for the binding: nothing happens.
    Unbound,
    /// Run the cancel action, if a recording is in progress.
    CancelIfRecording,
    /// Nothing to do (a release of the cancel binding).
    Ignore,
    /// Run the binding's start action.
    Start,
    /// Run the binding's stop action.
    Stop,
}

/// The route of an event of `binding` (pressed or released), `has_action`
/// telling whether an action is registered for it.
pub open spec fn route_spec(binding: Seq<char>, is_pressed: bool, has_action: bool) -> ShortcutRoute {
    if is_transcribe_binding_spec(binding) {
        ShortcutRoute::Coordinator
    } else if !has_action {
        ShortcutRoute::Unbound
    } else if binding == "cancel"@ {
        if is_pressed { ShortcutRoute::CancelIfRecording } else { ShortcutRoute::Ignore }
    } else if is_pressed {
        ShortcutRoute::Start
    } else {
        ShortcutRoute::Stop
    }
}

/// Routes a shortcut event of the binding `binding_id`.
pub fn route_shortcut(binding_id: &str, is_pressed: bool, has_action: bool) -> (route: ShortcutRoute)
    ensures
        route == route_spec(binding_id@, is_pressed, has_action),
{
    if is_transcribe_binding(binding_id) {
        ShortcutRoute::Coordinator
    } else if !has_action {
        ShortcutRoute::Unbound
    } else if str_eq(binding_id, "cancel") {
        if is_pressed { ShortcutRoute::CancelIfRecording } else { ShortcutRoute::Ignore }
    } else if is_pressed {
        ShortcutRoute::Start
    } else {
        ShortcutRoute::Stop
    }
}

/// Transcription bindings always reach the coordinator, pressed or
/// released, whatever the action table holds; nothing else does.
pub proof fn law_transcription_goes_to_coordinator(binding: Seq<char>, is_pressed: bool, has_action: bool)
    ensures
        (route_spec(binding, is_pressed, has_action) == ShortcutRoute::Coordinator) <==> is_transcribe_binding_spec(binding),
{
}

/// The cancel binding never fires on a release, and never starts or stops
/// an action directly.
pub proof fn law_cancel_fires_on_press_only(is_pressed: bool, has_action: bool)
    ensures
        route_spec("cancel"@, is_pressed, has_action) != ShortcutRoute::Start,
        route_spec("cancel"@, is_pressed, has_action) != ShortcutRoute::Stop,
        route_spec("cancel"@, false, has_action) != ShortcutRoute::CancelIfRecording,
{
    reveal_strlit("cancel");
    reveal_strlit("transcribe");
    reveal_strlit("transcribe_with_post_process");
}

/// Any other binding with an action starts it on a press and stops it on
/// a release; a binding without an action does nothing; the cancel binding
/// with an action fires (while recording) on a press and does nothing on a
/// release.
pub proof fn law_routes_by_press(binding: Seq<char>, is_pressed: bool)
    ensures
        !is_transcribe_binding_spec(binding) ==> route_spec(binding, is_pressed, false) == ShortcutRoute::Unbound,
        !is_transcribe_binding_spec(binding) && binding != "cancel"@ ==>
            route_spec(binding, true, true) == ShortcutRoute::Start && route_spec(binding, false, true) == ShortcutRoute::Stop,
        route_spec("cancel"@, true, true) == ShortcutRoute::CancelIfRecording,
        route_spec("cancel"@, false, true) == ShortcutRoute::Ignore,
{
    reveal_strlit("cancel");
    reveal_strlit("transcribe");
    reveal_strlit("transcribe_with_post_process");
    assert("cancel"@.len() == 6);
    assert("transcribe"@.len() == 10);
    assert("transcribe_with_post_process"@.len() == 28);
    assert(!is_transcribe_binding_spec("cancel"@));
}

} // verus!
