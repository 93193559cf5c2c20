//! The laws of the editor: what whole runs of events guarantee, proved from
//! the transition function `step` alone.

use vstd::prelude::*;
use crate::app::{AppView, CurrentScreen, CurrentlyEditing};
use crate::events::{KeyEvent, KeyKind, KeyCode, step};

verus! {

/// Running a sequence of events, first to last; each event moves the state as
/// `step` says (laws about the session's end speak of `step`'s verdict
/// directly).
pub open spec fn run_events(s: AppView, evs: Seq<KeyEvent>) -> AppView
    decreases evs.len(),
{
    if evs.len() == 0 {
        s
    } else {
        run_events(step(s, evs[0]).0, evs.drop_first())
    }
}

/// A plain press of the character `c`.
pub open spec fn press_char(c: char) -> KeyEvent {
    KeyEvent { kind: KeyKind::Press, code: KeyCode::Character(c) }
}

/// A plain press of `code`.
pub open spec fn press(code: KeyCode) -> KeyEvent {
    KeyEvent { kind: KeyKind::Press, code }
}

/// One press per character: how a user types `cs`.
pub open spec fn typing(cs: Seq<char>) -> Seq<KeyEvent> {
    cs.map_values(|c: char| press_char(c))
}

/// The keystrokes that enter one pair: start a new pair, type the key,
/// confirm, type the value, confirm.
pub open spec fn commit_events(k: Seq<char>, v: Seq<char>) -> Seq<KeyEvent> {
    seq![press_char('e')] + typing(k) + seq![press(KeyCode::Enter)] + typing(v) + seq![
        press(KeyCode::Enter),
    ]
}

/// Running a concatenation runs the two halves in turn.
pub proof fn lemma_run_append(s: AppView, a: Seq<KeyEvent>, b: Seq<KeyEvent>)
    ensures
        run_events(s, a + b) == run_events(run_events(s, a), b),
    decreases a.len(),
{
    if a.len() == 0 {
        assert(a + b =~= b);
    } else {
        assert((a + b).drop_first() =~= a.drop_first() + b);
        lemma_run_append(step(s, a[0]).0, a.drop_first(), b);
    }
}

/// Running a single event is a single step.
pub proof fn lemma_run_one(s: AppView, ev: KeyEvent)
    ensures
        run_events(s, seq![ev]) == step(s, ev).0,
{
    let e = seq![ev];
    assert(e.drop_first() =~= Seq::<KeyEvent>::empty());
    assert(run_events(step(s, ev).0, Seq::<KeyEvent>::empty()) == step(s, ev).0);
}

/// Typing while the key buffer is focused appends to it, character by
/// character, and touches nothing else.
proof fn lemma_typing_into_key(s: AppView, cs: Seq<char>)
    requires
        s.current_screen is Editing,
        s.currently_editing == Some(CurrentlyEditing::Key),
    ensures
        run_events(s, typing(cs)) == (AppView {
            key_input: s.key_input + cs,
            value_input: s.value_input,
            pairs: s.pairs,
            current_screen: s.current_screen,
            currently_editing: s.currently_editing,
        }),
    decreases cs.len(),
{
    if cs.len() == 0 {
        assert(s.key_input + cs =~= s.key_input);
    } else {
        let s1 = s.append_char(cs[0]);
        assert(typing(cs)[0] == press_char(cs[0]));
        assert(typing(cs).drop_first() =~= typing(cs.drop_first()));
        lemma_typing_into_key(s1, cs.drop_first());
        assert(s1.key_input + cs.drop_first() =~= s.key_input + cs);
    }
}

/// Typing while the value buffer is focused appends to it, character by
/// character, and touches nothing else.
proof fn lemma_typing_into_value(s: AppView, cs: Seq<char>)
    requires
        s.current_screen is Editing,
        s.currently_editing == Some(CurrentlyEditing::Value),
    ensures
        run_events(s, typing(cs)) == (AppView {
            key_input: s.key_input,
            value_input: s.value_input + cs,
            pairs: s.pairs,
            current_screen: s.current_screen,
            currently_editing: s.currently_editing,
        }),
    decreases cs.len(),
{
    if cs.len() == 0 {
        assert(s.value_input + cs =~= s.value_input);
    } else {
        let s1 = s.append_char(cs[0]);
        assert(typing(cs)[0] == press_char(cs[0]));
        assert(typing(cs).drop_first() =~= typing(cs.drop_first()));
        lemma_typing_into_value(s1, cs.drop_first());
        assert(s1.value_input + cs.drop_first() =~= s.value_input + cs);
    }
}

/// Commit law: from browsing with clean drafts, starting a new pair, typing
/// the key, confirming, typing the value and confirming again leaves the
/// store with exactly that binding added, both drafts empty, and the editor
/// browsing with nothing focused.
pub proof fn lemma_commit(s: AppView, k: Seq<char>, v: Seq<char>)
    requires
        s.current_screen is Main,
        s.key_input == Seq::<char>::empty(),
        s.value_input == Seq::<char>::empty(),
    ensures
        ({
            let t = run_events(s, commit_events(k, v));
            &&& t.pairs == s.pairs.insert(k, v)
            &&& t.key_input == Seq::<char>::empty()
            &&& t.value_input == Seq::<char>::empty()
            &&& t.current_screen is Main
            &&& t.currently_editing is None
        }),
{
    let e_begin = seq![press_char('e')];
    let e_enter = seq![press(KeyCode::Enter)];
    let s1 = run_events(s, e_begin);
    lemma_run_one(s, press_char('e'));
    assert(s1 == s.begin_new_pair());
    lemma_run_append(s, e_begin, typing(k) + e_enter + typing(v) + e_enter);
    assert(e_begin + (typing(k) + e_enter + typing(v) + e_enter) =~= commit_events(k, v));
    lemma_typing_into_key(s1, k);
    let s2 = run_events(s1, typing(k));
    assert(s2.key_input =~= k);
    lemma_run_append(s1, typing(k), e_enter + typing(v) + e_enter);
    assert(typing(k) + (e_enter + typing(v) + e_enter) =~= typing(k) + e_enter + typing(v)
        + e_enter);
    let s3 = run_events(s2, e_enter);
    lemma_run_one(s2, press(KeyCode::Enter));
    assert(s3 == s2.advance());
    lemma_run_append(s2, e_enter, typing(v) + e_enter);
    assert(e_enter + (typing(v) + e_enter) =~= e_enter + typing(v) + e_enter);
    lemma_typing_into_value(s3, v);
    let s4 = run_events(s3, typing(v));
    assert(s4.value_input =~= v);
    lemma_run_append(s3, typing(v), e_enter);
    let s5 = run_events(s4, e_enter);
    lemma_run_one(s4, press(KeyCode::Enter));
    assert(s5 == s4.advance());
}

/// Overwrite law: committing the same key twice leaves one binding for it —
/// the store is a map, so a key has at most one — and it holds the second
/// value; no other key is touched.
pub proof fn lemma_overwrite(s: AppView, k: Seq<char>, v1: Seq<char>, v2: Seq<char>)
    requires
        s.current_screen is Main,
        s.key_input == Seq::<char>::empty(),
        s.value_input == Seq::<char>::empty(),
    ensures
        ({
            let t = run_events(s, commit_events(k, v1) + commit_events(k, v2));
            &&& t.pairs == s.pairs.insert(k, v2)
            &&& t.pairs.dom() == s.pairs.dom().insert(k)
            &&& t.pairs[k] == v2
        }),
{
    lemma_run_append(s, commit_events(k, v1), commit_events(k, v2));
    lemma_commit(s, k, v1);
    let t1 = run_events(s, commit_events(k, v1));
    lemma_commit(t1, k, v2);
    let t = run_events(t1, commit_events(k, v2));
    assert(t.pairs =~= s.pairs.insert(k, v2));
    assert(t.pairs.dom() =~= s.pairs.dom().insert(k));
}

/// Events that neither confirm nor cancel: whatever they do, they keep the
/// editor editing and the store as it was.
pub open spec fn stays_editing(evs: Seq<KeyEvent>) -> bool {
    forall|i: int|
        0 <= i < evs.len() ==> !(evs[i].code is Enter) && !(evs[i].code is Escape)
}

/// While editing, typing, deleting and switching focus never touch the store
/// and never leave editing mode.
proof fn lemma_editing_keeps_store(s: AppView, evs: Seq<KeyEvent>)
    requires
        s.current_screen is Editing,
        stays_editing(evs),
    ensures
        ({
            let t = run_events(s, evs);
            &&& t.pairs == s.pairs
            &&& t.current_screen is Editing
        }),
    decreases evs.len(),
{
    if evs.len() > 0 {
        let s1 = step(s, evs[0]).0;
        assert(s1.pairs == s.pairs && s1.current_screen is Editing);
        lemma_editing_keeps_store(s1, evs.drop_first());
    }
}

/// Cancel law: entering editing and then typing, deleting or switching focus
/// in any order, followed by Escape, leaves the store exactly as it was,
/// empties both drafts, and returns to browsing with nothing focused.
pub proof fn lemma_cancel(s: AppView, evs: Seq<KeyEvent>)
    requires
        s.current_screen is Editing,
        stays_editing(evs),
    ensures
        ({
            let t = run_events(s, evs + seq![press(KeyCode::Escape)]);
            &&& t.pairs == s.pairs
            &&& t.key_input == Seq::<char>::empty()
            &&& t.value_input == Seq::<char>::empty()
            &&& t.current_screen is Main
            &&& t.currently_editing is None
        }),
{
    lemma_run_append(s, evs, seq![press(KeyCode::Escape)]);
    lemma_editing_keeps_store(s, evs);
    let m = run_events(s, evs);
    lemma_run_one(m, press(KeyCode::Escape));
    assert(step(m, press(KeyCode::Escape)).0 == m.cancel_editing());
}

/// Which events the current mode reacts to — the rows of the state-machine
/// table. Releases are dropped everywhere; editing also drops auto-repeats.
pub open spec fn reacts(s: AppView, ev: KeyEvent) -> bool {
    !(ev.kind is Release) && match s.current_screen {
        CurrentScreen::Main => ev.code == KeyCode::Character('e') || ev.code == KeyCode::Character(
            'q',
        ),
        CurrentScreen::Exiting => ev.code == KeyCode::Character('y') || ev.code
            == KeyCode::Character('n'),
        CurrentScreen::Editing => ev.kind is Press && !(ev.code is Other),
    }
}

/// Mode-gating law: an event the current mode does not react to leaves the
/// state identical and the session running.
pub proof fn lemma_mode_gating(s: AppView, ev: KeyEvent)
    requires
        !reacts(s, ev),
    ensures
        step(s, ev).0 == s,
        step(s, ev).1 is None,
{
}

/// Exit law: `q` while browsing brings up the exit prompt; at the prompt,
/// `y` ends the session with `should_print` true and `n` ends it with
/// `should_print` false — a returned verdict is what stops the driver's loop,
/// and there is no way back to browsing from the prompt.
pub proof fn lemma_exit(s: AppView)
    ensures
        s.current_screen is Main ==> step(s, press_char('q')).0.current_screen is Exiting,
        s.current_screen is Exiting ==> step(s, press_char('y')) == (s, Some(true)),
        s.current_screen is Exiting ==> step(s, press_char('n')) == (s, Some(false)),
{
}

/// The editing keystrokes the buffer-length law ranges over: plain presses
/// of characters and of backspace.
pub open spec fn append_or_delete_events(evs: Seq<KeyEvent>) -> bool {
    forall|i: int|
        0 <= i < evs.len() ==> evs[i].kind is Press && (evs[i].code is Character || evs[i].code
            is Backspace)
}

/// How many of the events append a character.
pub open spec fn append_count(evs: Seq<KeyEvent>) -> nat
    decreases evs.len(),
{
    if evs.len() == 0 {
        0
    } else {
        (if evs[0].code is Character {
            1nat
        } else {
            0nat
        }) + append_count(evs.drop_first())
    }
}

/// How many of the deletes actually remove a character, starting from a
/// focused buffer of length `len`: a backspace on an empty buffer is a no-op
/// and is not counted.
pub open spec fn effective_delete_count(len: nat, evs: Seq<KeyEvent>) -> nat
    decreases evs.len(),
{
    if evs.len() == 0 {
        0
    } else if evs[0].code is Character {
        effective_delete_count(len + 1, evs.drop_first())
    } else if len > 0 {
        1 + effective_delete_count((len - 1) as nat, evs.drop_first())
    } else {
        effective_delete_count(len, evs.drop_first())
    }
}

/// The buffer that receives input.
pub open spec fn focused_buffer(s: AppView) -> Seq<char> {
    match s.currently_editing {
        Some(CurrentlyEditing::Key) => s.key_input,
        Some(CurrentlyEditing::Value) => s.value_input,
        None => Seq::empty(),
    }
}

/// Buffer-length law: over any run of appends and deletes while editing, the
/// focused buffer's final length plus the effective (non-no-op) deletes
/// equals its starting length plus the appends. Read from a cleared buffer,
/// the length is the appends minus the effective deletes — and, a natural
/// number, it never falls below zero.
pub proof fn lemma_buffer_length(s: AppView, evs: Seq<KeyEvent>)
    requires
        s.current_screen is Editing,
        s.currently_editing is Some,
        append_or_delete_events(evs),
    ensures
        ({
            let t = run_events(s, evs);
            &&& t.currently_editing == s.currently_editing
            &&& focused_buffer(t).len() + effective_delete_count(focused_buffer(s).len(), evs)
                == focused_buffer(s).len() + append_count(evs)
        }),
    decreases evs.len(),
{
    if evs.len() > 0 {
        let s1 = step(s, evs[0]).0;
        assert(s1.current_screen is Editing && s1.currently_editing == s.currently_editing);
        assert(append_or_delete_events(evs.drop_first()));
        lemma_buffer_length(s1, evs.drop_first());
    }
}

/// Focus is held exactly while editing.
pub open spec fn focus_consistent(s: AppView) -> bool {
    s.currently_editing is Some <==> s.current_screen is Editing
}

/// Every step preserves focus consistency: no reachable state focuses a
/// buffer outside editing mode, or edits without a focus.
pub proof fn lemma_step_keeps_focus_consistent(s: AppView, ev: KeyEvent)
    requires
        focus_consistent(s),
    ensures
        focus_consistent(step(s, ev).0),
{
}

} // verus!
