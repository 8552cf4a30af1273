use frappe::Sink;
use frappe_gtk::affinity::{InvalidThreadAccess, ThreadTag};
use frappe_gtk::delivery::MainQueue;
use frappe_gtk::event::{EventKind, EventSource, PollingSignal};
use frappe_gtk::handle::WidgetId;
use frappe_gtk::types::{NotebookPage, ToggleState};
use std::cell::Cell;
use std::rc::Rc;

const UI: ThreadTag = ThreadTag { id: 1 };
const WORKER: ThreadTag = ThreadTag { id: 2 };
const BUTTON: WidgetId = WidgetId { slot: 0, generation: 1 };

const ALL_KINDS: [EventKind; 24] = [
    EventKind::Activate,
    EventKind::ActivateDefault,
    EventKind::ActivateFocus,
    EventKind::ActivateLink,
    EventKind::Add,
    EventKind::Backspace,
    EventKind::ChangeValue,
    EventKind::Changed,
    EventKind::Clicked,
    EventKind::Close,
    EventKind::DeleteEvent,
    EventKind::EnterNotify,
    EventKind::Hide,
    EventKind::LeaveNotify,
    EventKind::ModifiedChanged,
    EventKind::MotionNotify,
    EventKind::PageAdded,
    EventKind::PageRemoved,
    EventKind::PageReordered,
    EventKind::Remove,
    EventKind::Response,
    EventKind::Show,
    EventKind::SwitchPage,
    EventKind::Toggled,
];

#[test]
fn source_remembers_its_callback_slot() {
    let source: EventSource<()> = EventSource::connect(BUTTON, EventKind::Clicked, false);
    assert_eq!(source.widget_id(), BUTTON);
    assert_eq!(source.event_kind(), EventKind::Clicked);
    assert_eq!(source.answer(), None);
}

#[test]
fn six_kinds_of_event_take_a_decision() {
    let deciding: Vec<EventKind> =
        ALL_KINDS.iter().copied().filter(|kind| kind.returns_decision()).collect();
    assert_eq!(
        deciding,
        vec![
            EventKind::ActivateLink,
            EventKind::ChangeValue,
            EventKind::DeleteEvent,
            EventKind::EnterNotify,
            EventKind::LeaveNotify,
            EventKind::MotionNotify,
        ]
    );
}

#[test]
fn decision_is_kept_only_where_the_callback_decides() {
    for kind in ALL_KINDS {
        for inhibit in [false, true] {
            let source: EventSource<u8> = EventSource::connect(BUTTON, kind, inhibit);
            let expected = if kind.returns_decision() { Some(inhibit) } else { None };
            assert_eq!(source.answer(), expected);
        }
    }
}

#[test]
fn each_event_pushes_one_value_in_firing_order() {
    let mut source = EventSource::connect(BUTTON, EventKind::Clicked, false);
    let mut stream = Vec::new();
    for event in ["press", "release", "press", "press"] {
        let emission = source.fire(event);
        assert_eq!(emission.inhibit, None);
        stream.push(emission.value);
    }
    assert_eq!(stream, vec!["press", "release", "press", "press"]);
}

#[test]
fn fixed_decision_is_handed_back_every_time() {
    let mut stopping = EventSource::connect(BUTTON, EventKind::DeleteEvent, true);
    let mut passing = EventSource::connect(BUTTON, EventKind::DeleteEvent, false);
    for n in 0..3u8 {
        assert_eq!(stopping.fire(n).inhibit, Some(true));
        assert_eq!(passing.fire(n).inhibit, Some(false));
    }
    assert_eq!(stopping.answer(), Some(true));
}

#[test]
fn extraction_makes_the_stream_value() {
    let mut toggled = EventSource::connect(BUTTON, EventKind::Toggled, false);
    let emission = toggled.fire_with((true, false), |(active, inconsistent): (bool, bool)| {
        ToggleState { active, inconsistent }
    });
    assert_eq!(emission.value, ToggleState { active: true, inconsistent: false });
    assert_eq!(emission.inhibit, None);

    let mut page_added = EventSource::connect(BUTTON, EventKind::PageAdded, false);
    let emission = page_added.fire_with(("tab", 3u32), |(child, page_num): (&str, u32)| {
        NotebookPage { child: String::from(child), page_num }
    });
    assert_eq!(emission.value, NotebookPage { child: String::from("tab"), page_num: 3 });
}

#[test]
fn counting_fold_over_three_requests_yields_one_two_three() {
    let mut clicked = EventSource::connect(BUTTON, EventKind::Clicked, false);
    let sink = Sink::new();
    let counts = sink.stream().scan(0u32, |count, _| count + 1).collect::<Vec<u32>>();
    for request in ['A', 'B', 'C'] {
        let emission = clicked.fire(request);
        sink.send(emission.value);
    }
    assert_eq!(counts.sample(), vec![1, 2, 3]);
}

#[test]
fn stream_carries_the_events_themselves() {
    let mut clicked = EventSource::connect(BUTTON, EventKind::Clicked, false);
    let sink = Sink::new();
    let seen = sink.stream().collect::<Vec<char>>();
    for request in ['A', 'B', 'C'] {
        sink.send(clicked.fire(request).value);
    }
    assert_eq!(seen.sample(), vec!['A', 'B', 'C']);
}

#[test]
fn events_before_the_subscription_are_not_replayed() {
    let mut clicked = EventSource::connect(BUTTON, EventKind::Clicked, false);
    let sink = Sink::new();
    sink.send(clicked.fire(1u8).value);
    let seen = sink.stream().collect::<Vec<u8>>();
    sink.send(clicked.fire(2u8).value);
    sink.send(clicked.fire(3u8).value);
    assert_eq!(seen.sample(), vec![2, 3]);
}

#[test]
fn worker_values_reach_the_stream_through_the_queue() {
    let sink = Sink::new();
    let labels = sink.stream().map(|n| format!("counter: {}", n)).collect::<Vec<String>>();
    let mut queue = MainQueue::new(UI);
    for n in 1..=3u32 {
        queue.to_main_thread(n);
    }
    assert_eq!(labels.sample(), Vec::<String>::new());
    while let Some(n) = queue.dispatch(UI) {
        sink.send(n);
    }
    assert_eq!(labels.sample(), vec!["counter: 1", "counter: 2", "counter: 3"]);
}

#[test]
fn sampling_calls_the_accessor_now() {
    let modified = Rc::new(Cell::new(false));
    let signal = PollingSignal::lift(modified.clone(), UI, |buffer: &Rc<Cell<bool>>| buffer.get());
    assert_eq!(signal.owner_tag(), UI);
    assert!(!signal.sample(UI));
    modified.set(true);
    assert!(signal.sample(UI));
    modified.set(false);
    assert_eq!(signal.try_sample(UI), Ok(false));
}

#[test]
fn sampling_from_another_thread_is_refused() {
    let calls = Rc::new(Cell::new(0u32));
    let signal = PollingSignal::lift(calls.clone(), UI, |calls: &Rc<Cell<u32>>| {
        calls.set(calls.get() + 1);
        calls.get()
    });
    assert_eq!(
        signal.try_sample(WORKER),
        Err(InvalidThreadAccess { caller: WORKER, owner: UI })
    );
    assert_eq!(calls.get(), 0);
    assert_eq!(signal.try_sample(UI), Ok(1));
    assert_eq!(signal.sample(UI), 2);
}

#[test]
fn copy_of_a_signal_samples_the_same_accessor() {
    let value = Rc::new(Cell::new(7i32));
    let signal = PollingSignal::lift(value.clone(), UI, |cell: &Rc<Cell<i32>>| cell.get() * 2);
    let copy = signal.clone();
    assert_eq!(copy.owner_tag(), UI);
    assert_eq!(copy.sample(UI), 14);
    value.set(8);
    assert_eq!(signal.sample(UI), 16);
    assert_eq!(copy.sample(UI), 16);
    assert!(copy.try_sample(WORKER).is_err());
}
