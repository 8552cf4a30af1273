use frappe_gtk::dialog::{
    Busy, Cleanup, DialogAdapter, DialogCall, DialogState, Effect, OptDialogAdapter,
};
use frappe_gtk::handle::{Registry, WidgetId};

const YES: i32 = -8;
const NO: i32 = -9;
const CANCEL: i32 = -6;

fn two_dialogs() -> (WidgetId, WidgetId) {
    let mut registry = Registry::new();
    (registry.create(), registry.create())
}

/// Serves one request on `adapter` and returns everything that happened.
fn serve(adapter: &mut DialogAdapter, dialog: WidgetId, response: i32) -> Vec<Effect> {
    let mut effects = Vec::new();
    if let Ok(calls) = adapter.request(dialog) {
        effects.extend(calls.into_iter().map(Effect::Call));
    }
    effects.extend(adapter.respond(response).into_iter().map(Effect::Call));
    if let Some(value) = adapter.emit() {
        effects.push(Effect::Emit(value));
    }
    effects
}

#[test]
fn hiding_is_the_default_cleanup() {
    assert_eq!(Cleanup::default(), Cleanup::Hide);
}

#[test]
fn run_dialog_goes_through_show_respond_hide_emit() {
    let (dialog, _) = two_dialogs();
    let mut adapter = DialogAdapter::run_dialog();
    assert_eq!(adapter.current(), DialogState::Idle);

    let calls = adapter.request(dialog).unwrap();
    assert_eq!(calls, vec![DialogCall::Show(dialog), DialogCall::ConnectResponse(dialog)]);
    assert_eq!(adapter.current(), DialogState::Shown { dialog });

    let calls = adapter.respond(YES);
    assert_eq!(calls, vec![DialogCall::Hide(dialog)]);
    assert_eq!(adapter.current(), DialogState::Completing { dialog, response: YES });

    assert_eq!(adapter.emit(), Some(YES));
    assert_eq!(adapter.current(), DialogState::Idle);
}

#[test]
fn destroy_cleanup_is_an_opt_in() {
    let (dialog, _) = two_dialogs();
    let mut adapter = DialogAdapter::map_dialog(Cleanup::Destroy);
    adapter.request(dialog).unwrap();
    assert_eq!(adapter.respond(NO), vec![DialogCall::Destroy(dialog)]);
    assert_eq!(adapter.emit(), Some(NO));
}

#[test]
fn keep_cleanup_asks_for_no_call() {
    let (dialog, _) = two_dialogs();
    let mut adapter = DialogAdapter::map_dialog(Cleanup::Keep);
    adapter.request(dialog).unwrap();
    assert_eq!(adapter.respond(CANCEL), Vec::<DialogCall>::new());
    assert_eq!(adapter.current(), DialogState::Completing { dialog, response: CANCEL });
    assert_eq!(adapter.emit(), Some(CANCEL));
}

#[test]
fn response_before_show_is_ignored() {
    let mut adapter = DialogAdapter::run_dialog();
    assert_eq!(adapter.respond(YES), Vec::<DialogCall>::new());
    assert_eq!(adapter.current(), DialogState::Idle);
    assert_eq!(adapter.emit(), None);
}

#[test]
fn only_the_first_response_counts() {
    let (dialog, _) = two_dialogs();
    let mut adapter = DialogAdapter::run_dialog();
    adapter.request(dialog).unwrap();
    assert_eq!(adapter.respond(YES), vec![DialogCall::Hide(dialog)]);
    assert_eq!(adapter.respond(NO), Vec::<DialogCall>::new());
    assert_eq!(adapter.emit(), Some(YES));
    assert_eq!(adapter.respond(NO), Vec::<DialogCall>::new());
    assert_eq!(adapter.emit(), None);
    assert_eq!(adapter.current(), DialogState::Idle);
}

#[test]
fn nothing_is_emitted_before_the_response() {
    let (dialog, _) = two_dialogs();
    let mut adapter = DialogAdapter::run_dialog();
    assert_eq!(adapter.emit(), None);
    adapter.request(dialog).unwrap();
    assert_eq!(adapter.emit(), None);
    assert_eq!(adapter.current(), DialogState::Shown { dialog });
}

#[test]
fn request_while_shown_is_refused() {
    let (first, second) = two_dialogs();
    let mut adapter = DialogAdapter::run_dialog();
    adapter.request(first).unwrap();
    assert_eq!(adapter.request(second), Err(Busy { dialog: first }));
    assert_eq!(adapter.current(), DialogState::Shown { dialog: first });
    adapter.respond(YES);
    assert_eq!(adapter.request(second), Err(Busy { dialog: first }));
    assert_eq!(adapter.emit(), Some(YES));
    assert!(adapter.request(second).is_ok());
}

#[test]
fn two_requests_in_a_row_run_two_cycles() {
    let (first, second) = two_dialogs();
    let mut adapter = DialogAdapter::run_dialog();
    let mut effects = serve(&mut adapter, first, YES);
    effects.extend(serve(&mut adapter, second, CANCEL));
    assert_eq!(
        effects,
        vec![
            Effect::Call(DialogCall::Show(first)),
            Effect::Call(DialogCall::ConnectResponse(first)),
            Effect::Call(DialogCall::Hide(first)),
            Effect::Emit(YES),
            Effect::Call(DialogCall::Show(second)),
            Effect::Call(DialogCall::ConnectResponse(second)),
            Effect::Call(DialogCall::Hide(second)),
            Effect::Emit(CANCEL),
        ]
    );
    let shows = effects.iter().filter(|e| matches!(e, Effect::Call(DialogCall::Show(_)))).count();
    let emissions = effects.iter().filter(|e| matches!(e, Effect::Emit(_))).count();
    assert_eq!((shows, emissions), (2, 2));
    assert_eq!(adapter.current(), DialogState::Idle);
}

#[test]
fn the_same_dialog_can_be_run_again_after_hiding() {
    let (dialog, _) = two_dialogs();
    let mut adapter = DialogAdapter::run_dialog();
    let first = serve(&mut adapter, dialog, NO);
    let second = serve(&mut adapter, dialog, YES);
    assert_eq!(first.len(), 4);
    assert_eq!(second.len(), 4);
    assert_eq!(first.last(), Some(&Effect::Emit(NO)));
    assert_eq!(second.last(), Some(&Effect::Emit(YES)));
}

#[test]
fn dialogs_side_by_side_have_adapters_of_their_own() {
    let (first, second) = two_dialogs();
    let mut left = DialogAdapter::run_dialog();
    let mut right = DialogAdapter::map_dialog(Cleanup::Destroy);
    left.request(first).unwrap();
    right.request(second).unwrap();
    assert_eq!(right.respond(NO), vec![DialogCall::Destroy(second)]);
    assert_eq!(left.current(), DialogState::Shown { dialog: first });
    assert_eq!(right.emit(), Some(NO));
    assert_eq!(left.respond(YES), vec![DialogCall::Hide(first)]);
    assert_eq!(left.emit(), Some(YES));
}

#[test]
fn emit_map_hands_on_what_the_closure_makes_of_the_response() {
    let (dialog, _) = two_dialogs();
    let mut adapter = DialogAdapter::map_dialog(Cleanup::Hide);
    adapter.request(dialog).unwrap();
    adapter.respond(YES);
    let emitted = adapter.emit_map(|dlg: WidgetId, response: i32| (dlg.slot, response == YES));
    assert_eq!(emitted, Some((dialog.slot, true)));
    assert_eq!(adapter.current(), DialogState::Idle);
}

#[test]
fn emit_map_leaves_the_closure_uncalled_without_a_response() {
    let (dialog, _) = two_dialogs();
    let mut adapter = DialogAdapter::map_dialog(Cleanup::Hide);
    adapter.request(dialog).unwrap();
    let mut called = false;
    let emitted = adapter.emit_map(|_dlg: WidgetId, _response: i32| {
        called = true;
    });
    assert_eq!(emitted, None);
    assert!(!called);
}

#[test]
fn no_dialog_emits_no_response_at_once() {
    let mut adapter = OptDialogAdapter::run_opt_dialog();
    let start = adapter.request(None).unwrap();
    assert_eq!(start.calls, Vec::<DialogCall>::new());
    assert_eq!(start.emitted, Some(None));
    assert_eq!(adapter.current(), DialogState::Idle);
    // Nothing is left to respond to or to emit.
    assert_eq!(adapter.respond(YES), Vec::<DialogCall>::new());
    assert_eq!(adapter.emit(), None);
}

#[test]
fn optional_dialog_that_is_needed_runs_a_whole_cycle() {
    let (dialog, _) = two_dialogs();
    let mut adapter = OptDialogAdapter::run_opt_dialog();
    let start = adapter.request(Some(dialog)).unwrap();
    assert_eq!(start.calls, vec![DialogCall::Show(dialog), DialogCall::ConnectResponse(dialog)]);
    assert_eq!(start.emitted, None);
    assert_eq!(adapter.current(), DialogState::Shown { dialog });
    assert_eq!(adapter.respond(YES), vec![DialogCall::Hide(dialog)]);
    assert_eq!(adapter.emit(), Some(Some(YES)));
    assert_eq!(adapter.current(), DialogState::Idle);
}

#[test]
fn no_dialog_bypasses_a_dialog_in_progress() {
    let (dialog, other) = two_dialogs();
    let mut adapter = OptDialogAdapter::map_opt_dialog(Cleanup::Destroy);
    adapter.request(Some(dialog)).unwrap();
    let start = adapter.request(None).unwrap();
    assert!(start.calls.is_empty());
    assert_eq!(start.emitted, Some(None));
    assert_eq!(adapter.current(), DialogState::Shown { dialog });
    assert_eq!(adapter.request(Some(other)).err(), Some(Busy { dialog }));
    assert_eq!(adapter.respond(CANCEL), vec![DialogCall::Destroy(dialog)]);
    assert_eq!(adapter.emit(), Some(Some(CANCEL)));
}

#[test]
fn optional_emit_map_wraps_the_mapped_value() {
    let (dialog, _) = two_dialogs();
    let mut adapter = OptDialogAdapter::map_opt_dialog(Cleanup::Keep);
    assert_eq!(adapter.emit_map(|_d: WidgetId, r: i32| r + 1), None);
    adapter.request(Some(dialog)).unwrap();
    assert_eq!(adapter.respond(NO), Vec::<DialogCall>::new());
    assert_eq!(adapter.emit_map(|d: WidgetId, r: i32| (d, -r)), Some(Some((dialog, 9))));
}

#[test]
fn save_prompt_chain_runs_its_dialogs_in_sequence() {
    // Confirm unsaved changes, then choose a file name: the second dialog is
    // requested by what the first one emitted.
    let (confirm, chooser) = two_dialogs();
    let mut first = OptDialogAdapter::run_opt_dialog();
    let mut second = DialogAdapter::run_dialog();
    let mut calls = Vec::new();

    calls.extend(first.request(Some(confirm)).unwrap().calls);
    calls.extend(first.respond(YES));
    let answer = first.emit().unwrap();
    assert_eq!(answer, Some(YES));
    if answer == Some(YES) {
        calls.extend(second.request(chooser).unwrap());
    }
    calls.extend(second.respond(-3));
    assert_eq!(second.emit(), Some(-3));
    assert_eq!(
        calls,
        vec![
            DialogCall::Show(confirm),
            DialogCall::ConnectResponse(confirm),
            DialogCall::Hide(confirm),
            DialogCall::Show(chooser),
            DialogCall::ConnectResponse(chooser),
            DialogCall::Hide(chooser),
        ]
    );
}
