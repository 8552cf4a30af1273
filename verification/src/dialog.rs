//! Modal dialogs as stream stages.
//!
//! A request names a dialog. The adapter has it shown and a response callback
//! registered, waits for the first response, has the dialog cleaned up as the
//! caller chose, and then hands the response on. Each transition returns the
//! toolkit calls that the caller has to perform, in order. One adapter drives
//! one dialog at a time; dialogs that are open side by side each have an
//! adapter of their own.

use crate::handle::WidgetId;
use vstd::prelude::*;

verus! {

/// What is done to a dialog once it has been answered.
#[derive(Debug, Clone, Copy, PartialEq, Eq, Structural, Hash)]
pub enum Cleanup {
    /// The dialog is left as it is.
    Keep,
    /// The dialog is hidden and can be shown again.
    Hide,
    /// The dialog is destroyed.
    Destroy,
}

impl Default for Cleanup {
    /// A dialog is hidden unless the caller asks for something else.
    fn default() -> (cleanup: Self)
        ensures
            cleanup == Cleanup::Hide,
    {
        Cleanup::Hide
    }
}

/// A call into the toolkit that the adapter asks for.
#[derive(Debug, Clone, Copy, PartialEq, Eq, Structural, Hash)]
pub enum DialogCall {
    Show(WidgetId),
    ConnectResponse(WidgetId),
    Hide(WidgetId),
    Destroy(WidgetId),
}

/// Where the adapter stands.
#[derive(Debug, Clone, Copy, PartialEq, Eq, Structural, Hash)]
pub enum DialogState {
    /// No dialog is in progress.
    Idle,
    /// The dialog is on screen and no response has come yet.
    Shown { dialog: WidgetId },
    /// The dialog was answered and cleaned up; the response is still to be
    /// handed on.
    Completing { dialog: WidgetId, response: i32 },
}

/// A request came while another dialog was in progress.
#[derive(Debug, Clone, Copy, PartialEq, Eq, Structural, Hash)]
pub struct Busy {
    /// The dialog that is in progress.
    pub dialog: WidgetId,
}

/// Something the adapter makes happen: a call into the toolkit, or a value
/// in the output stream.
#[derive(Debug, Clone, Copy, PartialEq, Eq, Structural, Hash)]
pub enum Effect {
    Call(DialogCall),
    Emit(i32),
}

/// The calls that put a dialog on screen.
pub open spec fn show_calls(dialog: WidgetId) -> Seq<DialogCall> {
    seq![DialogCall::Show(dialog), DialogCall::ConnectResponse(dialog)]
}

/// The calls that clean a dialog up.
pub open spec fn cleanup_calls(cleanup: Cleanup, dialog: WidgetId) -> Seq<DialogCall> {
    match cleanup {
        Cleanup::Keep => seq![],
        Cleanup::Hide => seq![DialogCall::Hide(dialog)],
        Cleanup::Destroy => seq![DialogCall::Destroy(dialog)],
    }
}

/// The state after a request for `dialog`.
pub open spec fn after_request(state: DialogState, dialog: WidgetId) -> DialogState {
    match state {
        DialogState::Idle => DialogState::Shown { dialog },
        _ => state,
    }
}

/// The calls that a request for `dialog` asks for.
pub open spec fn calls_on_request(state: DialogState, dialog: WidgetId) -> Seq<DialogCall> {
    match state {
        DialogState::Idle => show_calls(dialog),
        _ => seq![],
    }
}

/// The state after a response.
pub open spec fn after_response(state: DialogState, response: i32) -> DialogState {
    match state {
        DialogState::Shown { dialog } => DialogState::Completing { dialog, response },
        _ => state,
    }
}

/// The calls that a response asks for.
pub open spec fn calls_on_response(cleanup: Cleanup, state: DialogState) -> Seq<DialogCall> {
    match state {
        DialogState::Shown { dialog } => cleanup_calls(cleanup, dialog),
        _ => seq![],
    }
}

/// The state after the response was handed on.
pub open spec fn after_emit(state: DialogState) -> DialogState {
    match state {
        DialogState::Completing { .. } => DialogState::Idle,
        _ => state,
    }
}

/// The response that is handed on.
pub open spec fn emitted_in(state: DialogState) -> Option<i32> {
    match state {
        DialogState::Completing { response, .. } => Some(response),
        _ => None,
    }
}

/// The dialog that is in progress.
pub open spec fn dialog_in(state: DialogState) -> Option<WidgetId> {
    match state {
        DialogState::Idle => None,
        DialogState::Shown { dialog } => Some(dialog),
        DialogState::Completing { dialog, .. } => Some(dialog),
    }
}

/// Drives one dialog at a time from request to response.
#[derive(Debug)]
pub struct DialogAdapter {
    cleanup: Cleanup,
    state: DialogState,
}

impl DialogAdapter {
    /// What is done to a dialog once it has been answered.
    pub closed spec fn cleanup(&self) -> Cleanup {
        self.cleanup
    }

    /// Where the adapter stands.
    pub closed spec fn state(&self) -> DialogState {
        self.state
    }

    /// An idle adapter that cleans its dialogs up as `cleanup` says.
    pub fn map_dialog(cleanup: Cleanup) -> (adapter: Self)
        ensures
            adapter.cleanup() == cleanup,
            adapter.state() == DialogState::Idle,
    {
        DialogAdapter { cleanup, state: DialogState::Idle }
    }

    /// An idle adapter that hides its dialogs once they have been answered.
    pub fn run_dialog() -> (adapter: Self)
        ensures
            adapter.cleanup() == Cleanup::Hide,
            adapter.state() == DialogState::Idle,
    {
        DialogAdapter::map_dialog(Cleanup::Hide)
    }

    /// Where the adapter stands.
    pub fn current(&self) -> (state: DialogState)
        ensures
            state == self.state(),
    {
        self.state
    }

    /// A request arrives. An idle adapter asks for the dialog to be shown and
    /// a response callback to be registered, and waits. An adapter with a
    /// dialog in progress refuses and asks for nothing.
    pub fn request(&mut self, dialog: WidgetId) -> (outcome: Result<Vec<DialogCall>, Busy>)
        ensures
            final(self).cleanup() == old(self).cleanup(),
            final(self).state() == after_request(old(self).state(), dialog),
            outcome is Ok <==> old(self).state() is Idle,
            match outcome {
                Ok(calls) => calls@ == calls_on_request(old(self).state(), dialog),
                Err(busy) => dialog_in(old(self).state()) == Some(busy.dialog),
            },
    {
        match self.state {
            DialogState::Idle => {
                self.state = DialogState::Shown { dialog };
                let mut calls: Vec<DialogCall> = Vec::new();
                calls.push(DialogCall::Show(dialog));
                calls.push(DialogCall::ConnectResponse(dialog));
                assert(calls@ =~= show_calls(dialog));
                Ok(calls)
            },
            DialogState::Shown { dialog: shown } => Err(Busy { dialog: shown }),
            DialogState::Completing { dialog: shown, .. } => Err(Busy { dialog: shown }),
        }
    }

    /// The response callback fires. The first response to a shown dialog is
    /// taken and the cleanup asked for. A response that comes when no dialog
    /// is shown, or after the first, is ignored.
    pub fn respond(&mut self, response: i32) -> (calls: Vec<DialogCall>)
        ensures
            final(self).cleanup() == old(self).cleanup(),
            final(self).state() == after_response(old(self).state(), response),
            calls@ == calls_on_response(old(self).cleanup(), old(self).state()),
    {
        let mut calls: Vec<DialogCall> = Vec::new();
        match self.state {
            DialogState::Shown { dialog } => {
                self.state = DialogState::Completing { dialog, response };
                match self.cleanup {
                    Cleanup::Keep => {},
                    Cleanup::Hide => {
                        calls.push(DialogCall::Hide(dialog));
                    },
                    Cleanup::Destroy => {
                        calls.push(DialogCall::Destroy(dialog));
                    },
                }
                assert(calls@ =~= cleanup_calls(self.cleanup, dialog));
            },
            _ => {},
        }
        calls
    }

    /// Hands the response on and returns to idle. Hands on nothing unless a
    /// dialog was answered and cleaned up.
    pub fn emit(&mut self) -> (emitted: Option<i32>)
        ensures
            final(self).cleanup() == old(self).cleanup(),
            final(self).state() == after_emit(old(self).state()),
            emitted == emitted_in(old(self).state()),
    {
        match self.state {
            DialogState::Completing { response, .. } => {
                self.state = DialogState::Idle;
                Some(response)
            },
            _ => None,
        }
    }

    /// Hands on what `f` makes of the dialog and its response, and returns to
    /// idle. Hands on nothing, and leaves `f` uncalled, unless a dialog was
    /// answered and cleaned up.
    pub fn emit_map<R, F: FnOnce(WidgetId, i32) -> R>(&mut self, f: F) -> (emitted: Option<R>)
        requires
            forall|dialog: WidgetId, response: i32|
                old(self).state() == (DialogState::Completing { dialog, response })
                    ==> call_requires(f, (dialog, response)),
        ensures
            final(self).cleanup() == old(self).cleanup(),
            final(self).state() == after_emit(old(self).state()),
            match old(self).state() {
                DialogState::Completing { dialog, response } => emitted is Some && call_ensures(
                    f,
                    (dialog, response),
                    emitted->0,
                ),
                _ => emitted is None,
            },
    {
        match self.state {
            DialogState::Completing { dialog, response } => {
                self.state = DialogState::Idle;
                Some(f(dialog, response))
            },
            _ => None,
        }
    }
}

/// What a request to an adapter for optional dialogs starts.
#[derive(Debug)]
pub struct OptStart {
    /// The toolkit calls to perform, in order.
    pub calls: Vec<DialogCall>,
    /// The value to push into the output stream at once, if any. The value
    /// `None` says that no dialog was needed.
    pub emitted: Option<Option<i32>>,
}

/// Drives dialogs that may not be needed at all: a request without a dialog
/// is answered at once, with no response.
#[derive(Debug)]
pub struct OptDialogAdapter {
    inner: DialogAdapter,
}

impl OptDialogAdapter {
    /// What is done to a dialog once it has been answered.
    pub closed spec fn cleanup(&self) -> Cleanup {
        self.inner.cleanup()
    }

    /// Where the adapter stands.
    pub closed spec fn state(&self) -> DialogState {
        self.inner.state()
    }

    /// An idle adapter that cleans its dialogs up as `cleanup` says.
    pub fn map_opt_dialog(cleanup: Cleanup) -> (adapter: Self)
        ensures
            adapter.cleanup() == cleanup,
            adapter.state() == DialogState::Idle,
    {
        OptDialogAdapter { inner: DialogAdapter::map_dialog(cleanup) }
    }

    /// An idle adapter that hides its dialogs once they have been answered.
    pub fn run_opt_dialog() -> (adapter: Self)
        ensures
            adapter.cleanup() == Cleanup::Hide,
            adapter.state() == DialogState::Idle,
    {
        OptDialogAdapter { inner: DialogAdapter::run_dialog() }
    }

    /// Where the adapter stands.
    pub fn current(&self) -> (state: DialogState)
        ensures
            state == self.state(),
    {
        self.inner.current()
    }

    /// A request arrives. Without a dialog, the adapter emits "no response"
    /// at once, asks for no toolkit call and stays where it is, whatever it
    /// is doing. With a dialog, it behaves as the adapter for plain dialogs.
    pub fn request(&mut self, dialog: Option<WidgetId>) -> (outcome: Result<OptStart, Busy>)
        ensures
            final(self).cleanup() == old(self).cleanup(),
            match dialog {
                None => {
                    &&& final(self).state() == old(self).state()
                    &&& outcome matches Ok(start)
                    &&& start.calls@ == Seq::<DialogCall>::empty()
                    &&& start.emitted == Some(None::<i32>)
                },
                Some(dialog) => {
                    &&& final(self).state() == after_request(old(self).state(), dialog)
                    &&& outcome is Ok <==> old(self).state() is Idle
                    &&& match outcome {
                        Ok(start) => {
                            &&& start.calls@ == calls_on_request(old(self).state(), dialog)
                            &&& start.emitted is None
                        },
                        Err(busy) => dialog_in(old(self).state()) == Some(busy.dialog),
                    }
                },
            },
    {
        match dialog {
            None => Ok(OptStart { calls: Vec::new(), emitted: Some(None) }),
            Some(dialog) => match self.inner.request(dialog) {
                Ok(calls) => Ok(OptStart { calls, emitted: None }),
                Err(busy) => Err(busy),
            },
        }
    }

    /// The response callback fires. See [`DialogAdapter::respond`].
    pub fn respond(&mut self, response: i32) -> (calls: Vec<DialogCall>)
        ensures
            final(self).cleanup() == old(self).cleanup(),
            final(self).state() == after_response(old(self).state(), response),
            calls@ == calls_on_response(old(self).cleanup(), old(self).state()),
    {
        self.inner.respond(response)
    }

    /// Hands the response on, as `Some`, and returns to idle. Hands on
    /// nothing unless a dialog was answered and cleaned up.
    pub fn emit(&mut self) -> (emitted: Option<Option<i32>>)
        ensures
            final(self).cleanup() == old(self).cleanup(),
            final(self).state() == after_emit(old(self).state()),
            match emitted_in(old(self).state()) {
                Some(response) => emitted == Some(Some(response)),
                None => emitted is None,
            },
    {
        match self.inner.emit() {
            Some(response) => Some(Some(response)),
            None => None,
        }
    }

    /// Hands on, as `Some`, what `f` makes of the dialog and its response,
    /// and returns to idle. See [`DialogAdapter::emit_map`].
    pub fn emit_map<R, F: FnOnce(WidgetId, i32) -> R>(&mut self, f: F) -> (emitted: Option<
        Option<R>,
    >)
        requires
            forall|dialog: WidgetId, response: i32|
                old(self).state() == (DialogState::Completing { dialog, response })
                    ==> call_requires(f, (dialog, response)),
        ensures
            final(self).cleanup() == old(self).cleanup(),
            final(self).state() == after_emit(old(self).state()),
            match old(self).state() {
                DialogState::Completing { dialog, response } => {
                    &&& emitted matches Some(Some(value))
                    &&& call_ensures(f, (dialog, response), value)
                },
                _ => emitted is None,
            },
    {
        match self.inner.emit_map(f) {
            Some(value) => Some(Some(value)),
            None => None,
        }
    }
}

/// Lifts toolkit calls to effects.
pub open spec fn as_effects(calls: Seq<DialogCall>) -> Seq<Effect> {
    Seq::new(calls.len(), |i: int| Effect::Call(calls[i]))
}

/// Everything one request makes happen, from show to emission, when its
/// response is `response`.
pub open spec fn cycle(cleanup: Cleanup, dialog: WidgetId, response: i32) -> Seq<Effect> {
    as_effects(show_calls(dialog)) + as_effects(cleanup_calls(cleanup, dialog)) + seq![
        Effect::Emit(response),
    ]
}

/// The effects of a request, of the response to it and of the emission,
/// taken one after the other from `state`.
pub open spec fn effects_of_round(
    cleanup: Cleanup,
    state: DialogState,
    dialog: WidgetId,
    response: i32,
) -> Seq<Effect> {
    let shown = after_request(state, dialog);
    let answered = after_response(shown, response);
    as_effects(calls_on_request(state, dialog)) + as_effects(calls_on_response(cleanup, shown))
        + match emitted_in(answered) {
        Some(value) => seq![Effect::Emit(value)],
        None => seq![],
    }
}

/// The state after a request, the response to it and the emission.
pub open spec fn after_round(state: DialogState, dialog: WidgetId, response: i32) -> DialogState {
    after_emit(after_response(after_request(state, dialog), response))
}

/// The state after the requests in `rounds`, each given with its response,
/// were served one after the other.
pub open spec fn after_rounds(state: DialogState, rounds: Seq<(WidgetId, i32)>) -> DialogState
    decreases rounds.len(),
{
    if rounds.len() == 0 {
        state
    } else {
        after_rounds(after_round(state, rounds[0].0, rounds[0].1), rounds.drop_first())
    }
}

/// The effects of serving the requests in `rounds` one after the other.
pub open spec fn effects_of_rounds(
    cleanup: Cleanup,
    state: DialogState,
    rounds: Seq<(WidgetId, i32)>,
) -> Seq<Effect>
    decreases rounds.len(),
{
    if rounds.len() == 0 {
        seq![]
    } else {
        effects_of_round(cleanup, state, rounds[0].0, rounds[0].1) + effects_of_rounds(
            cleanup,
            after_round(state, rounds[0].0, rounds[0].1),
            rounds.drop_first(),
        )
    }
}

/// The cycles of the requests in `rounds`, one after the other.
pub open spec fn cycles(cleanup: Cleanup, rounds: Seq<(WidgetId, i32)>) -> Seq<Effect>
    decreases rounds.len(),
{
    if rounds.len() == 0 {
        seq![]
    } else {
        cycle(cleanup, rounds[0].0, rounds[0].1) + cycles(cleanup, rounds.drop_first())
    }
}

/// Number of emissions among `effects`.
pub open spec fn emissions(effects: Seq<Effect>) -> nat
    decreases effects.len(),
{
    if effects.len() == 0 {
        0
    } else {
        emissions(effects.drop_last()) + if effects.last() is Emit {
            1nat
        } else {
            0nat
        }
    }
}

/// Number of show calls among `effects`.
pub open spec fn shows(effects: Seq<Effect>) -> nat
    decreases effects.len(),
{
    if effects.len() == 0 {
        0
    } else {
        shows(effects.drop_last()) + if effects.last() matches Effect::Call(DialogCall::Show(_)) {
            1nat
        } else {
            0nat
        }
    }
}

/// One request served from idle runs one whole cycle, and nothing else: the
/// dialog is shown and connected, cleaned up after its response, the
/// response is emitted, and the adapter is idle again.
pub proof fn law_one_request_one_cycle(cleanup: Cleanup, dialog: WidgetId, response: i32)
    ensures
        effects_of_round(cleanup, DialogState::Idle, dialog, response) == cycle(
            cleanup,
            dialog,
            response,
        ),
        after_round(DialogState::Idle, dialog, response) == DialogState::Idle,
{
}

/// While a dialog is in progress, a request starts nothing: no call is asked
/// for and the state stays. So the next cycle cannot begin before the
/// response of the current one was emitted.
pub proof fn law_no_cycle_begins_inside_another(state: DialogState, dialog: WidgetId)
    requires
        !(state is Idle),
    ensures
        calls_on_request(state, dialog) == Seq::<DialogCall>::empty(),
        after_request(state, dialog) == state,
{
}

/// A response is taken only while a dialog is shown: before the show and
/// after the first response it asks for nothing and changes nothing, and
/// nothing is emitted for it.
pub proof fn law_only_first_response_counts(cleanup: Cleanup, state: DialogState, response: i32)
    requires
        !(state is Shown),
    ensures
        calls_on_response(cleanup, state) == Seq::<DialogCall>::empty(),
        after_response(state, response) == state,
        emitted_in(after_response(state, response)) == emitted_in(state),
{
}

/// A shown dialog is answered by its first response: that response is what
/// is emitted, whatever responses follow it, and it is emitted once.
pub proof fn law_first_response_wins(dialog: WidgetId, first: i32, later: i32)
    ensures
        emitted_in(after_response((DialogState::Shown { dialog }), first)) == Some(first),
        emitted_in(
            after_response(after_response((DialogState::Shown { dialog }), first), later),
        ) == Some(first),
        emitted_in(after_emit(after_response((DialogState::Shown { dialog }), first))) is None,
{
}

/// Requests served one after the other from idle make happen exactly their
/// cycles, in the order of the requests, and leave the adapter idle.
pub proof fn law_serial_requests_run_their_cycles(cleanup: Cleanup, rounds: Seq<(WidgetId, i32)>)
    ensures
        effects_of_rounds(cleanup, DialogState::Idle, rounds) == cycles(cleanup, rounds),
        after_rounds(DialogState::Idle, rounds) == DialogState::Idle,
    decreases rounds.len(),
{
    if rounds.len() > 0 {
        law_one_request_one_cycle(cleanup, rounds[0].0, rounds[0].1);
        law_serial_requests_run_their_cycles(cleanup, rounds.drop_first());
    }
}

/// Counting distributes over concatenation.
proof fn lemma_counts_add(first: Seq<Effect>, second: Seq<Effect>)
    ensures
        emissions(first + second) == emissions(first) + emissions(second),
        shows(first + second) == shows(first) + shows(second),
    decreases second.len(),
{
    if second.len() == 0 {
        assert(first + second =~= first);
    } else {
        lemma_counts_add(first, second.drop_last());
        assert((first + second).drop_last() =~= first + second.drop_last());
        assert((first + second).last() == second.last());
    }
}

/// One cycle shows once and emits once.
proof fn lemma_cycle_counts(cleanup: Cleanup, dialog: WidgetId, response: i32)
    ensures
        emissions(cycle(cleanup, dialog, response)) == 1,
        shows(cycle(cleanup, dialog, response)) == 1,
{
    let opening = as_effects(show_calls(dialog));
    let closing = as_effects(cleanup_calls(cleanup, dialog));
    let emission = seq![Effect::Emit(response)];
    assert(opening =~= seq![
        Effect::Call(DialogCall::Show(dialog)),
        Effect::Call(DialogCall::ConnectResponse(dialog)),
    ]);
    assert(opening.drop_last() =~= seq![Effect::Call(DialogCall::Show(dialog))]);
    assert(opening.drop_last().drop_last() =~= Seq::<Effect>::empty());
    assert(emissions(opening) == 0 && shows(opening) == 1) by {
        reveal_with_fuel(emissions, 3);
        reveal_with_fuel(shows, 3);
    }
    assert(emissions(closing) == 0 && shows(closing) == 0) by {
        reveal_with_fuel(emissions, 2);
        reveal_with_fuel(shows, 2);
        match cleanup {
            Cleanup::Keep => {
                assert(closing =~= Seq::<Effect>::empty());
            },
            Cleanup::Hide => {
                assert(closing =~= seq![Effect::Call(DialogCall::Hide(dialog))]);
                assert(closing.drop_last() =~= Seq::<Effect>::empty());
            },
            Cleanup::Destroy => {
                assert(closing =~= seq![Effect::Call(DialogCall::Destroy(dialog))]);
                assert(closing.drop_last() =~= Seq::<Effect>::empty());
            },
        }
    }
    assert(emissions(emission) == 1 && shows(emission) == 0) by {
        reveal_with_fuel(emissions, 2);
        reveal_with_fuel(shows, 2);
        assert(emission.drop_last() =~= Seq::<Effect>::empty());
    }
    lemma_counts_add(opening, closing);
    lemma_counts_add(opening + closing, emission);
}

/// Requests served one after the other from idle show as many dialogs as
/// there are requests, and emit as many responses: one each.
pub proof fn law_one_show_and_one_emission_each(cleanup: Cleanup, rounds: Seq<(WidgetId, i32)>)
    ensures
        shows(effects_of_rounds(cleanup, DialogState::Idle, rounds)) == rounds.len(),
        emissions(effects_of_rounds(cleanup, DialogState::Idle, rounds)) == rounds.len(),
    decreases rounds.len(),
{
    law_serial_requests_run_their_cycles(cleanup, rounds);
    lemma_cycles_counts(cleanup, rounds);
}

/// The cycles of a sequence of requests show once and emit once per request.
proof fn lemma_cycles_counts(cleanup: Cleanup, rounds: Seq<(WidgetId, i32)>)
    ensures
        shows(cycles(cleanup, rounds)) == rounds.len(),
        emissions(cycles(cleanup, rounds)) == rounds.len(),
    decreases rounds.len(),
{
    if rounds.len() > 0 {
        lemma_cycle_counts(cleanup, rounds[0].0, rounds[0].1);
        lemma_cycles_counts(cleanup, rounds.drop_first());
        lemma_counts_add(
            cycle(cleanup, rounds[0].0, rounds[0].1),
            cycles(cleanup, rounds.drop_first()),
        );
    }
}

/// Two requests served one after the other run two cycles, the second wholly
/// after the first: the second dialog is shown only after the response to
/// the first was emitted.
pub proof fn law_second_request_waits_for_first(
    cleanup: Cleanup,
    first: (WidgetId, i32),
    second: (WidgetId, i32),
)
    ensures
        effects_of_rounds(cleanup, DialogState::Idle, seq![first, second]) == cycle(
            cleanup,
            first.0,
            first.1,
        ) + cycle(cleanup, second.0, second.1),
        shows(effects_of_rounds(cleanup, DialogState::Idle, seq![first, second])) == 2,
        emissions(effects_of_rounds(cleanup, DialogState::Idle, seq![first, second])) == 2,
        cycle(cleanup, first.0, first.1).last() == Effect::Emit(first.1),
        cycle(cleanup, second.0, second.1).first() == Effect::Call(DialogCall::Show(second.0)),
{
    let rounds = seq![first, second];
    law_serial_requests_run_their_cycles(cleanup, rounds);
    law_one_show_and_one_emission_each(cleanup, rounds);
    assert(rounds.drop_first() =~= seq![second]);
    assert(rounds.drop_first().drop_first() =~= Seq::<(WidgetId, i32)>::empty());
    assert(cycles(cleanup, rounds) =~= cycle(cleanup, first.0, first.1) + cycle(
        cleanup,
        second.0,
        second.1,
    )) by {
        reveal_with_fuel(cycles, 3);
    }
}

} // verus!
