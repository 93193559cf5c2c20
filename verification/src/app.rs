//! The editor state: modes, draft buffers, and the key-value store.

use vstd::prelude::*;

verus! {

/// The coarse interaction mode: browsing the store, editing a pair, or
/// confirming exit.
#[derive(Clone, Copy, PartialEq, Eq, Structural, Debug)]
pub enum CurrentScreen {
    Main,
    Editing,
    Exiting,
}

/// Within editing, which of the two draft buffers receives input.
#[derive(Clone, Copy, PartialEq, Eq, Structural, Debug)]
pub enum CurrentlyEditing {
    Key,
    Value,
}

/// The keys of `s` are pairwise distinct (as character sequences).
pub open spec fn keys_unique(s: Seq<(String, String)>) -> bool {
    forall|i: int, j: int| 0 <= i < j < s.len() ==> s[i].0@ != s[j].0@
}

/// The store a sequence of pairs denotes: later entries win.
pub open spec fn map_of(s: Seq<(String, String)>) -> Map<Seq<char>, Seq<char>>
    decreases s.len(),
{
    if s.len() == 0 {
        Map::empty()
    } else {
        map_of(s.drop_last()).insert(s.last().0@, s.last().1@)
    }
}

/// The abstract editor state: every field of `App` as a mathematical value.
pub struct AppView {
    pub key_input: Seq<char>,
    pub value_input: Seq<char>,
    pub pairs: Map<Seq<char>, Seq<char>>,
    pub current_screen: CurrentScreen,
    pub currently_editing: Option<CurrentlyEditing>,
}

impl AppView {
    /// Enter editing mode with the key buffer focused; drafts are kept.
    pub open spec fn begin_new_pair(self) -> AppView {
        AppView {
            key_input: self.key_input,
            value_input: self.value_input,
            pairs: self.pairs,
            current_screen: CurrentScreen::Editing,
            currently_editing: Some(CurrentlyEditing::Key),
        }
    }

    /// Ask to leave the session: move to the exit-confirmation mode.
    pub open spec fn request_exit(self) -> AppView {
        AppView {
            key_input: self.key_input,
            value_input: self.value_input,
            pairs: self.pairs,
            current_screen: CurrentScreen::Exiting,
            currently_editing: self.currently_editing,
        }
    }

    /// Flip the focus between the two draft buffers; an unfocused state gains
    /// focus on the key buffer.
    pub open spec fn toggle_focus(self) -> AppView {
        AppView {
            key_input: self.key_input,
            value_input: self.value_input,
            pairs: self.pairs,
            current_screen: self.current_screen,
            currently_editing: match self.currently_editing {
                None => Some(CurrentlyEditing::Key),
                Some(CurrentlyEditing::Key) => Some(CurrentlyEditing::Value),
                Some(CurrentlyEditing::Value) => Some(CurrentlyEditing::Key),
            },
        }
    }

    /// Append `c` to the focused draft buffer; no effect when nothing is
    /// focused.
    pub open spec fn append_char(self, c: char) -> AppView {
        AppView {
            key_input: if self.currently_editing == Some(CurrentlyEditing::Key) {
                self.key_input.push(c)
            } else {
                self.key_input
            },
            value_input: if self.currently_editing == Some(CurrentlyEditing::Value) {
                self.value_input.push(c)
            } else {
                self.value_input
            },
            pairs: self.pairs,
            current_screen: self.current_screen,
            currently_editing: self.currently_editing,
        }
    }

    /// Drop the last character of the focused draft buffer; an empty buffer,
    /// or an unfocused state, is left as it is.
    pub open spec fn delete_last_char(self) -> AppView {
        AppView {
            key_input: if self.currently_editing == Some(CurrentlyEditing::Key)
                && self.key_input.len() > 0 {
                self.key_input.drop_last()
            } else {
                self.key_input
            },
            value_input: if self.currently_editing == Some(CurrentlyEditing::Value)
                && self.value_input.len() > 0 {
                self.value_input.drop_last()
            } else {
                self.value_input
            },
            pairs: self.pairs,
            current_screen: self.current_screen,
            currently_editing: self.currently_editing,
        }
    }

    /// Abandon the drafts: both buffers empty, store untouched, back to
    /// browsing with nothing focused.
    pub open spec fn cancel_editing(self) -> AppView {
        AppView {
            key_input: Seq::empty(),
            value_input: Seq::empty(),
            pairs: self.pairs,
            current_screen: CurrentScreen::Main,
            currently_editing: None,
        }
    }

    /// Commit the drafts into the store (the last write for a key wins) and
    /// clear them; the mode is left as it is.
    pub open spec fn save_pair(self) -> AppView {
        AppView {
            key_input: Seq::empty(),
            value_input: Seq::empty(),
            pairs: self.pairs.insert(self.key_input, self.value_input),
            current_screen: self.current_screen,
            currently_editing: None,
        }
    }

    /// Confirm the focused field: with the key focused, move focus to the
    /// value; with the value focused, commit the pair and return to browsing;
    /// with nothing focused, do nothing.
    pub open spec fn advance(self) -> AppView {
        match self.currently_editing {
            Some(CurrentlyEditing::Key) => AppView {
                key_input: self.key_input,
                value_input: self.value_input,
                pairs: self.pairs,
                current_screen: self.current_screen,
                currently_editing: Some(CurrentlyEditing::Value),
            },
            Some(CurrentlyEditing::Value) => AppView {
                key_input: Seq::empty(),
                value_input: Seq::empty(),
                pairs: self.pairs.insert(self.key_input, self.value_input),
                current_screen: CurrentScreen::Main,
                currently_editing: None,
            },
            None => self,
        }
    }
}

/// The editor state: the two draft buffers, the accumulated store, the mode,
/// and the focused buffer (meaningful while editing).
pub struct App {
    pub key_input: String,
    pub value_input: String,
    pub pairs: Vec<(String, String)>,
    pub current_screen: CurrentScreen,
    pub currently_editing: Option<CurrentlyEditing>,
}

impl View for App {
    type V = AppView;

    open spec fn view(&self) -> AppView {
        AppView {
            key_input: self.key_input@,
            value_input: self.value_input@,
            pairs: map_of(self.pairs@),
            current_screen: self.current_screen,
            currently_editing: self.currently_editing,
        }
    }
}

impl App {
    /// The store holds no two entries with the same key.
    pub open spec fn wf(self) -> bool {
        keys_unique(self.pairs@)
    }

    /// A fresh session: empty store, empty drafts, browsing, nothing focused.
    pub fn new() -> (app: App)
        ensures
            app.wf(),
            app@.key_input == Seq::<char>::empty(),
            app@.value_input == Seq::<char>::empty(),
            app@.pairs == Map::<Seq<char>, Seq<char>>::empty(),
            app@.current_screen == CurrentScreen::Main,
            app@.currently_editing is None,
    {
        App {
            key_input: String::new(),
            value_input: String::new(),
            pairs: Vec::new(),
            current_screen: CurrentScreen::Main,
            currently_editing: None,
        }
    }

    /// Runtime check of the store invariant, for callers outside the
    /// verifier's reach: true exactly when no key occurs twice.
    pub fn store_ok(&self) -> (b: bool)
        ensures
            b == self.wf(),
    {
        let n = self.pairs.len();
        let mut i: usize = 0;
        while i < n
            invariant
                n == self.pairs.len(),
                i <= n,
                forall|a: int, b2: int|
                    0 <= a < b2 < self.pairs@.len() && a < i ==> self.pairs@[a].0@
                        != self.pairs@[b2].0@,
            decreases n - i,
        {
            let mut j: usize = i + 1;
            while j < n
                invariant
                    n == self.pairs.len(),
                    i < n,
                    i + 1 <= j <= n,
                    forall|a: int, b2: int|
                        0 <= a < b2 < self.pairs@.len() && a < i ==> self.pairs@[a].0@
                            != self.pairs@[b2].0@,
                    forall|b2: int|
                        i < b2 < j ==> self.pairs@[i as int].0@ != self.pairs@[b2].0@,
                decreases n - j,
            {
                if self.pairs[i].0 == self.pairs[j].0 {
                    return false;
                }
                j += 1;
            }
            i += 1;
        }
        true
    }

    /// Enter editing mode with the key buffer focused.
    pub fn begin_new_pair(&mut self)
        ensures
            final(self)@ == old(self)@.begin_new_pair(),
            final(self).pairs == old(self).pairs,
    {
        self.current_screen = CurrentScreen::Editing;
        self.currently_editing = Some(CurrentlyEditing::Key);
    }

    /// Move to the exit-confirmation mode.
    pub fn request_exit(&mut self)
        ensures
            final(self)@ == old(self)@.request_exit(),
            final(self).pairs == old(self).pairs,
    {
        self.current_screen = CurrentScreen::Exiting;
    }

    /// Flip the focus between the key and value buffers; when nothing is
    /// focused yet, focus the key buffer.
    pub fn toggle_editing_mode(&mut self)
        ensures
            final(self)@ == old(self)@.toggle_focus(),
            final(self).pairs == old(self).pairs,
    {
        if let Some(mode) = &self.currently_editing {
            match mode {
                CurrentlyEditing::Key => {
                    self.currently_editing = Some(CurrentlyEditing::Value);
                },
                CurrentlyEditing::Value => {
                    self.currently_editing = Some(CurrentlyEditing::Key);
                },
            }
        } else {
            self.currently_editing = Some(CurrentlyEditing::Key);
        }
    }

    /// Append `c` to the focused draft buffer; without focus, do nothing.
    pub fn append_char(&mut self, c: char)
        ensures
            final(self)@ == old(self)@.append_char(c),
            final(self).pairs == old(self).pairs,
    {
        match &self.currently_editing {
            Some(CurrentlyEditing::Key) => {
                self.key_input.push(c);
            },
            Some(CurrentlyEditing::Value) => {
                self.value_input.push(c);
            },
            None => {},
        }
    }

    /// Drop the last character of the focused draft buffer; an empty buffer,
    /// or no focus, means nothing happens.
    pub fn delete_last_char(&mut self)
        ensures
            final(self)@ == old(self)@.delete_last_char(),
            final(self).pairs == old(self).pairs,
    {
        match &self.currently_editing {
            Some(CurrentlyEditing::Key) => {
                self.key_input.pop();
            },
            Some(CurrentlyEditing::Value) => {
                self.value_input.pop();
            },
            None => {},
        }
    }

    /// Abandon both drafts and return to browsing; the store is untouched.
    pub fn cancel_editing(&mut self)
        ensures
            final(self)@ == old(self)@.cancel_editing(),
            final(self).pairs == old(self).pairs,
    {
        self.current_screen = CurrentScreen::Main;
        self.currently_editing = None;
        self.key_input = String::new();
        self.value_input = String::new();
    }

    /// Commit the drafts into the store — the new value replaces any earlier
    /// one under the same key — and clear them; the mode is left as it is.
    pub fn save_key_value_pair(&mut self)
        requires
            old(self).wf(),
        ensures
            final(self).wf(),
            final(self)@ == old(self)@.save_pair(),
            final(self).current_screen == old(self).current_screen,
    {
        let key = self.key_input.clone();
        let value = self.value_input.clone();
        let ghost s0 = self.pairs@;
        let n = self.pairs.len();
        let mut i: usize = 0;
        let mut found: bool = false;
        let mut idx: usize = 0;
        while i < n
            invariant
                n == self.pairs.len(),
                i <= n,
                self == old(self),
                key == old(self).key_input,
                value == old(self).value_input,
                !found ==> forall|j: int| 0 <= j < i ==> self.pairs@[j].0@ != key@,
                found ==> idx < n && self.pairs@[idx as int].0@ == key@,
            decreases n - i,
        {
            if !found && self.pairs[i].0 == key {
                found = true;
                idx = i;
            }
            i += 1;
        }
        if found {
            proof {
                lemma_map_of_update(s0, idx as int, (key, value));
            }
            self.pairs.set(idx, (key, value));
        } else {
            proof {
                lemma_map_of_push(s0, (key, value));
            }
            self.pairs.push((key, value));
        }
        self.key_input = String::new();
        self.value_input = String::new();
        self.currently_editing = None;
    }

    /// Confirm the focused field: with the key focused, move focus to the
    /// value; with the value focused, commit the pair and return to browsing;
    /// without focus, do nothing.
    pub fn advance(&mut self)
        requires
            old(self).wf(),
        ensures
            final(self).wf(),
            final(self)@ == old(self)@.advance(),
    {
        match &self.currently_editing {
            Some(CurrentlyEditing::Key) => {
                self.currently_editing = Some(CurrentlyEditing::Value);
            },
            Some(CurrentlyEditing::Value) => {
                self.save_key_value_pair();
                self.current_screen = CurrentScreen::Main;
            },
            None => {},
        }
    }
}

/// Replacing the entry at `i` by a pair with the same key updates the denoted
/// store at that key alone, and keeps the keys distinct.
proof fn lemma_map_of_update(s: Seq<(String, String)>, i: int, p: (String, String))
    requires
        keys_unique(s),
        0 <= i < s.len(),
        p.0@ == s[i].0@,
    ensures
        map_of(s.update(i, p)) == map_of(s).insert(p.0@, p.1@),
        keys_unique(s.update(i, p)),
    decreases s.len(),
{
    let t = s.update(i, p);
    assert(keys_unique(t)) by {
        assert forall|a: int, b: int| 0 <= a < b < t.len() implies t[a].0@ != t[b].0@ by {
            assert(t[a].0@ == if a == i { p.0@ } else { s[a].0@ });
            assert(t[b].0@ == if b == i { p.0@ } else { s[b].0@ });
        }
    }
    if i == s.len() - 1 {
        assert(t.drop_last() =~= s.drop_last());
        assert(t.last() == p);
        assert(map_of(s) == map_of(s.drop_last()).insert(s[i].0@, s[i].1@));
        assert(map_of(t) =~= map_of(s).insert(p.0@, p.1@));
    } else {
        assert(t.last() == s.last());
        assert(t.drop_last() =~= s.drop_last().update(i, p));
        assert(keys_unique(s.drop_last())) by {
            assert forall|a: int, b: int|
                0 <= a < b < s.drop_last().len() implies s.drop_last()[a].0@
                != s.drop_last()[b].0@ by {
                assert(s.drop_last()[a] == s[a]);
                assert(s.drop_last()[b] == s[b]);
            }
        }
        lemma_map_of_update(s.drop_last(), i, p);
        assert(s[i].0@ != s.last().0@);
        assert(map_of(t) == map_of(s.drop_last()).insert(p.0@, p.1@).insert(
            s.last().0@,
            s.last().1@,
        ));
        assert(map_of(t) =~= map_of(s).insert(p.0@, p.1@));
    }
}

/// Appending a pair whose key occurs nowhere in `s` inserts it into the
/// denoted store, and keeps the keys distinct.
proof fn lemma_map_of_push(s: Seq<(String, String)>, p: (String, String))
    requires
        keys_unique(s),
        forall|j: int| 0 <= j < s.len() ==> s[j].0@ != p.0@,
    ensures
        map_of(s.push(p)) == map_of(s).insert(p.0@, p.1@),
        keys_unique(s.push(p)),
{
    let t = s.push(p);
    assert(t.drop_last() =~= s);
    assert(t.last() == p);
    assert(keys_unique(t)) by {
        assert forall|a: int, b: int| 0 <= a < b < t.len() implies t[a].0@ != t[b].0@ by {
            assert(t[a] == s[a]);
            assert(t[b] == if b == s.len() { p } else { s[b] });
        }
    }
}

} // verus!
