//! The event pump's decision logic: which of the window-system events drained
//! in one tick request that the window close. The recognized event is a press
//! of the quit key (escape); every other event is observed and ignored — a
//! deliberately minimal policy.

use vstd::prelude::*;

verus! {

/// Key code of the designated quit key (escape) as the windowing system
/// reports it.
pub const KEY_ESCAPE: u32 = 256;

/// What happened to a key.
#[derive(Clone, Copy, Debug, PartialEq, Eq, Structural)]
pub enum KeyAction {
    Press,
    Release,
    Repeat,
}

/// A window-system event as the lifecycle sees it: a key event with its code
/// and action, or any other event, which the lifecycle ignores.
#[derive(Clone, Copy, Debug, PartialEq, Eq, Structural)]
pub enum InputEvent {
    Key { code: u32, action: KeyAction },
    Other,
}

/// The one event that requests the window to close: a press of the quit key.
pub open spec fn is_quit_event(e: InputEvent) -> bool {
    e matches InputEvent::Key { code, action } && code == KEY_ESCAPE && action == KeyAction::Press
}

/// Whether some event of a drained queue requests the window to close.
pub open spec fn contains_quit(events: Seq<InputEvent>) -> bool {
    exists|i: int| 0 <= i < events.len() && is_quit_event(#[trigger] events[i])
}

proof fn lemma_contains_quit_push(s: Seq<InputEvent>, e: InputEvent)
    ensures
        contains_quit(s.push(e)) == (contains_quit(s) || is_quit_event(e)),
{
    let t = s.push(e);
    if contains_quit(t) {
        let i = choose|i: int| 0 <= i < t.len() && is_quit_event(t[i]);
        if i < s.len() {
            assert(s[i] == t[i]);
        } else {
            assert(t[i] == e);
        }
    }
    if contains_quit(s) {
        let i = choose|i: int| 0 <= i < s.len() && is_quit_event(s[i]);
        assert(is_quit_event(t[i]));
    }
    if is_quit_event(e) {
        assert(is_quit_event(t[s.len() as int]));
    }
}

/// Drain one tick's queue of events in arrival order: the close-requested
/// flag is set exactly when it was set before or some drained event is a
/// press of the quit key; it is never cleared here.
pub fn pump_events(close_requested: &mut bool, events: &Vec<InputEvent>)
    ensures
        *final(close_requested) == (*old(close_requested) || contains_quit(events@)),
{
    let start: bool = *close_requested;
    let mut flag: bool = start;
    let mut i: usize = 0;
    while i < events.len()
        invariant
            i <= events@.len(),
            flag == (start || contains_quit(events@.subrange(0, i as int))),
        decreases events@.len() - i,
    {
        let quit: bool = match events[i] {
            InputEvent::Key { code, action } => code == KEY_ESCAPE && action == KeyAction::Press,
            InputEvent::Other => false,
        };
        if quit {
            flag = true;
        }
        proof {
            lemma_contains_quit_push(events@.subrange(0, i as int), events@[i as int]);
            assert(events@.subrange(0, i + 1 as int) =~= events@.subrange(0, i as int).push(
                events@[i as int],
            ));
        }
        i = i + 1;
    }
    proof {
        assert(events@.subrange(0, i as int) =~= events@);
    }
    *close_requested = flag;
}

/// Law: a queue with no quit event never requests a close, so pumping it
/// leaves the close-requested flag as it was.
pub proof fn lemma_pump_quiet(before: bool, events: Seq<InputEvent>)
    requires
        forall|i: int| 0 <= i < events.len() ==> !is_quit_event(#[trigger] events[i]),
    ensures
        !contains_quit(events),
        (before || contains_quit(events)) == before,
{
    if contains_quit(events) {
        let i = choose|i: int| 0 <= i < events.len() && is_quit_event(events[i]);
        assert(!is_quit_event(events[i]));
    }
}

/// Law: pumping an empty queue changes nothing, so pumping is idempotent
/// once the queue has been drained.
pub proof fn lemma_pump_empty_idempotent(before: bool)
    ensures
        (before || contains_quit(Seq::<InputEvent>::empty())) == before,
{
    lemma_pump_quiet(before, Seq::<InputEvent>::empty());
}

/// Law: a queue holding a press of the quit key always requests a close.
pub proof fn lemma_pump_quit_sets(before: bool, events: Seq<InputEvent>, i: int)
    requires
        0 <= i < events.len(),
        is_quit_event(events[i]),
    ensures
        (before || contains_quit(events)) == true,
{
    assert(contains_quit(events));
}

} // verus!
