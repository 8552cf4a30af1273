use frappe_gtk::affinity::{Fragile, ThreadTag};
use frappe_gtk::delivery::MainQueue;
use frappe_gtk::dialog::{Cleanup, DialogAdapter, DialogCall, DialogState};
use frappe_gtk::event::{EventKind, EventSource};
use frappe_gtk::handle::{Registry, WidgetId};
use frappe_gtk::sink::MutatingSink;
use std::collections::VecDeque;

/// A small deterministic generator of test inputs.
struct Lcg(u64);

impl Lcg {
    fn next(&mut self) -> u64 {
        self.0 = self.0.wrapping_mul(6364136223846793005).wrapping_add(1442695040888963407);
        self.0 >> 33
    }

    fn below(&mut self, bound: u64) -> u64 {
        self.next() % bound
    }
}

#[test]
fn registry_agrees_with_a_list_of_everything_handed_out() {
    let mut random = Lcg(1);
    let mut registry = Registry::new();
    let mut issued: Vec<(WidgetId, bool)> = Vec::new();
    for _ in 0..2000 {
        if issued.is_empty() || random.below(3) != 0 {
            let id = registry.create();
            assert!(issued.iter().all(|(known, _)| *known != id), "{:?} handed out twice", id);
            issued.push((id, true));
        } else {
            let pick = random.below(issued.len() as u64) as usize;
            let was_live = registry.destroy(&issued[pick].0);
            assert_eq!(was_live, issued[pick].1);
            issued[pick].1 = false;
        }
        for (id, alive) in &issued {
            assert_eq!(registry.is_live(id), *alive);
            let resolved = registry.upgrade(&id.downgrade());
            assert_eq!(resolved, if *alive { Some(*id) } else { None });
            let delivered = MutatingSink::bind(id).deliver(&registry, 1u8);
            assert_eq!(delivered.is_some(), *alive);
        }
    }
    let live = issued.iter().filter(|(_, alive)| *alive).count();
    assert!(registry.slot_count() >= live);
}

#[test]
fn registry_reuses_the_lowest_free_slot() {
    let mut random = Lcg(7);
    let mut registry = Registry::new();
    let mut slots: Vec<Option<WidgetId>> = Vec::new();
    for _ in 0..1000 {
        if random.below(2) == 0 {
            let expected = slots.iter().position(|slot| slot.is_none()).unwrap_or(slots.len());
            let id = registry.create();
            assert_eq!(id.slot, expected);
            if expected == slots.len() {
                assert_eq!(id.generation, 1);
                slots.push(Some(id));
            } else {
                slots[expected] = Some(id);
            }
        } else if !slots.is_empty() {
            let pick = random.below(slots.len() as u64) as usize;
            if let Some(id) = slots[pick].take() {
                assert!(registry.destroy(&id));
            }
        }
        assert_eq!(registry.slot_count(), slots.len());
    }
}

#[test]
fn generations_of_a_slot_only_grow() {
    let mut registry = Registry::new();
    let mut last = registry.create();
    for round in 2..200u64 {
        registry.destroy(&last);
        let next = registry.create();
        assert_eq!(next.slot, last.slot);
        assert_eq!(next.generation, round);
        assert!(!registry.is_live(&last));
        last = next;
    }
}

#[test]
fn queue_agrees_with_a_plain_deque() {
    let ui = ThreadTag { id: 3 };
    let mut random = Lcg(42);
    let mut queue = MainQueue::new(ui);
    let mut model: VecDeque<u64> = VecDeque::new();
    let mut open = true;
    for step in 0..5000u64 {
        match random.below(20) {
            0 => {
                assert_eq!(queue.drain(ui), model.drain(..).collect::<Vec<u64>>());
            }
            1 if step > 4000 => {
                queue.teardown();
                model.clear();
                open = false;
            }
            2..=10 => {
                assert_eq!(queue.to_main_thread(step), open);
                if open {
                    model.push_back(step);
                }
            }
            _ => {
                assert_eq!(queue.dispatch(ui), model.pop_front());
            }
        }
        assert_eq!(queue.pending(), model.len());
        assert_eq!(queue.accepts(), open);
    }
}

#[test]
fn every_submission_is_delivered_exactly_once() {
    let ui = ThreadTag { id: 1 };
    let mut random = Lcg(5);
    let mut queue = MainQueue::new(ui);
    let mut delivered = Vec::new();
    let mut submitted = 0u32;
    while submitted < 1000 {
        if random.below(3) == 0 {
            delivered.extend(queue.dispatch(ui));
        } else {
            queue.to_main_thread(submitted);
            submitted += 1;
        }
    }
    delivered.extend(queue.drain(ui));
    assert_eq!(delivered, (0..1000).collect::<Vec<u32>>());
}

/// What the dialog adapter is to do, written down once more, plainly.
fn expected_step(
    cleanup: Cleanup,
    state: DialogState,
    event: u64,
    dialog: WidgetId,
    response: i32,
) -> (DialogState, Vec<DialogCall>, Option<i32>) {
    match (event, state) {
        (0, DialogState::Idle) => (
            DialogState::Shown { dialog },
            vec![DialogCall::Show(dialog), DialogCall::ConnectResponse(dialog)],
            None,
        ),
        (1, DialogState::Shown { dialog: shown }) => {
            let calls = match cleanup {
                Cleanup::Keep => vec![],
                Cleanup::Hide => vec![DialogCall::Hide(shown)],
                Cleanup::Destroy => vec![DialogCall::Destroy(shown)],
            };
            (DialogState::Completing { dialog: shown, response }, calls, None)
        }
        (2, DialogState::Completing { response: held, .. }) => {
            (DialogState::Idle, vec![], Some(held))
        }
        (_, state) => (state, vec![], None),
    }
}

#[test]
fn dialog_adapter_follows_its_state_machine_on_any_events() {
    for (seed, cleanup) in [(1, Cleanup::Keep), (2, Cleanup::Hide), (3, Cleanup::Destroy)] {
        let mut random = Lcg(seed);
        let mut adapter = DialogAdapter::map_dialog(cleanup);
        let mut state = DialogState::Idle;
        let (mut shows, mut emissions) = (0u32, 0u32);
        for _ in 0..3000 {
            let event = random.below(3);
            let dialog = WidgetId { slot: random.below(4) as usize, generation: 1 };
            let response = -(random.below(11) as i32) - 1;
            let (next, calls, emitted) = expected_step(cleanup, state, event, dialog, response);
            match event {
                0 => match adapter.request(dialog) {
                    Ok(made) => assert_eq!(made, calls),
                    Err(busy) => {
                        assert!(calls.is_empty());
                        match state {
                            DialogState::Idle => panic!("an idle adapter refused a request"),
                            DialogState::Shown { dialog: shown } => assert_eq!(busy.dialog, shown),
                            DialogState::Completing { dialog: shown, .. } => {
                                assert_eq!(busy.dialog, shown)
                            }
                        }
                    }
                },
                1 => assert_eq!(adapter.respond(response), calls),
                _ => assert_eq!(adapter.emit(), emitted),
            }
            shows += calls.iter().filter(|c| matches!(c, DialogCall::Show(_))).count() as u32;
            emissions += emitted.is_some() as u32;
            state = next;
            assert_eq!(adapter.current(), state);
            // Never more answers than questions.
            assert!(emissions <= shows && shows <= emissions + 1);
        }
    }
}

#[test]
fn stream_gets_one_value_per_event_whatever_the_events() {
    let mut random = Lcg(11);
    for kind in [EventKind::Clicked, EventKind::DeleteEvent, EventKind::Response] {
        let widget = WidgetId { slot: 0, generation: 1 };
        let mut source = EventSource::connect(widget, kind, true);
        let count = random.below(500) as usize;
        let events: Vec<u64> = (0..count).map(|_| random.next()).collect();
        let mut stream = Vec::new();
        for event in &events {
            let emission = source.fire_with(*event, |native: u64| native ^ 1);
            assert_eq!(emission.inhibit, source.answer());
            stream.push(emission.value);
        }
        assert_eq!(stream.len(), events.len());
        assert!(stream.iter().zip(&events).all(|(value, event)| *value == *event ^ 1));
    }
}

#[test]
fn only_the_owner_among_many_threads_gets_the_payload() {
    let mut random = Lcg(3);
    for _ in 0..500 {
        let owner = ThreadTag { id: random.below(8) };
        let payload = random.next();
        let wrapped = Fragile::new(payload, owner);
        for id in 0..8 {
            let caller = ThreadTag { id };
            let outcome = wrapped.try_get(caller);
            if caller == owner {
                assert_eq!(outcome, Ok(&payload));
            } else {
                let violation = outcome.unwrap_err();
                assert_eq!((violation.caller, violation.owner), (caller, owner));
            }
            assert_eq!(wrapped.is_valid(caller), caller == owner);
        }
    }
}
