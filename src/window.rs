use vstd::prelude::*;
use crate::text::{lower_of, lowercase, seq_contains, str_contains};

verus! {

/// Cross-platform window identifier.
#[derive(Debug, Clone, Copy, PartialEq, Eq, Structural)]
pub struct WindowIdentifier(pub u64);

impl WindowIdentifier {
    pub fn new(id: u64) -> (r: Self)
        ensures
            r.0 == id,
    {
        WindowIdentifier(id)
    }

    pub fn as_u64(&self) -> (r: u64)
        ensures
            r == self.0,
    {
        self.0
    }
}

/// A window of the desktop, known by its identifier.
#[derive(Debug, Clone, Copy, PartialEq, Eq, Structural)]
pub struct Window {
    pub id: WindowIdentifier,
}

/// Whether a window with the given title is selected by a search for
/// `search`, both already folded to lower case.
pub open spec fn folded_title_selected(folded_title: Option<Seq<char>>, folded_search: Seq<char>) -> bool {
    match folded_title {
        Some(t) => seq_contains(t, folded_search),
        None => false,
    }
}

/// The windows whose folded titles contain the folded search text, in order.
pub open spec fn selected_windows(
    windows: Seq<Window>,
    folded_titles: Seq<Option<Seq<char>>>,
    folded_search: Seq<char>,
) -> Seq<Window>
    decreases windows.len(),
{
    if windows.len() == 0 || folded_titles.len() != windows.len() {
        Seq::empty()
    } else {
        let rest = selected_windows(windows.drop_last(), folded_titles.drop_last(), folded_search);
        if folded_title_selected(folded_titles.last(), folded_search) {
            rest.push(windows.last())
        } else {
            rest
        }
    }
}

/// The view of an optional title.
pub open spec fn title_view(t: Option<String>) -> Option<Seq<char>> {
    match t {
        Some(s) => Some(s@),
        None => None,
    }
}

/// The title of each candidate, folded to lower case.
pub open spec fn folded_titles_of(candidates: Seq<(Window, Option<String>)>) -> Seq<Option<Seq<char>>> {
    candidates.map_values(|c: (Window, Option<String>)|
        match c.1 {
            Some(s) => Some(lower_of(s@)),
            None => None,
        }
    )
}

/// The index of the first candidate whose title equals `title`, if any.
pub open spec fn first_exact_title(candidates: Seq<(Window, Option<String>)>, title: Seq<char>) -> Option<int>
    decreases candidates.len(),
{
    if candidates.len() == 0 {
        None
    } else {
        match first_exact_title(candidates.drop_last(), title) {
            Some(i) => Some(i),
            None => if title_view(candidates.last().1) == Some(title) {
                Some(candidates.len() - 1)
            } else {
                None
            },
        }
    }
}

impl Window {
    pub fn new(id: WindowIdentifier) -> (r: Self)
        ensures
            r.id == id,
    {
        Window { id }
    }

    pub fn id(&self) -> (r: WindowIdentifier)
        ensures
            r == self.id,
    {
        self.id
    }

    /// Whether this window is the focused one, given the identifier of the
    /// focused window (`None` when no window has the focus).
    pub fn is_focused(&self, focused: Option<WindowIdentifier>) -> (r: bool)
        ensures
            r == (focused == Some(self.id)),
    {
        match focused {
            Some(current) => current == self.id,
            None => false,
        }
    }

    /// Whether this window is visible, given the state read for it (`None`
    /// when its state could not be read).
    pub fn is_visible(&self, state: Option<WindowState>) -> (r: bool)
        ensures
            r == (state is Some && state->0.visible),
    {
        match state {
            Some(s) => s.visible,
            None => false,
        }
    }

    /// Selects the windows whose already folded titles contain the already
    /// folded search text, keeping their order.
    pub fn select_by_folded_title(
        windows: &Vec<Window>,
        folded_titles: &Vec<Option<String>>,
        folded_search: &str,
    ) -> (r: Vec<Window>)
        requires
            windows.len() == folded_titles.len(),
        ensures
            r@ == selected_windows(windows@, folded_titles@.map_values(|t: Option<String>| title_view(t)), folded_search@),
    {
        let ghost titles = folded_titles@.map_values(|t: Option<String>| title_view(t));
        let mut r: Vec<Window> = Vec::new();
        let mut i: usize = 0;
        while i < windows.len()
            invariant
                i <= windows.len(),
                windows.len() == folded_titles.len(),
                titles == folded_titles@.map_values(|t: Option<String>| title_view(t)),
                r@ == selected_windows(windows@.subrange(0, i as int), titles.subrange(0, i as int), folded_search@),
            decreases windows.len() - i,
        {
            let selected = match &folded_titles[i] {
                Some(t) => str_contains(t.as_str(), folded_search),
                None => false,
            };
            proof {
                let ws = windows@.subrange(0, i + 1);
                let ts = titles.subrange(0, i + 1);
                assert(ws.drop_last() == windows@.subrange(0, i as int));
                assert(ts.drop_last() == titles.subrange(0, i as int));
                assert(ts.last() == title_view(folded_titles@[i as int]));
            }
            if selected {
                r.push(windows[i]);
            }
            i = i + 1;
        }
        proof {
            assert(windows@.subrange(0, i as int) == windows@);
            assert(titles.subrange(0, i as int) == titles);
        }
        r
    }

    /// Finds, among the listed windows and their titles, those whose title
    /// contains `search`, ignoring case.
    pub fn find_by_title(candidates: &Vec<(Window, Option<String>)>, search: &str) -> (r: Vec<Window>)
        ensures
            r@ == selected_windows(candidates@.map_values(|c: (Window, Option<String>)| c.0), folded_titles_of(candidates@), lower_of(search@)),
    {
        let folded_search = lowercase(search);
        let mut windows: Vec<Window> = Vec::new();
        let mut folded: Vec<Option<String>> = Vec::new();
        let mut i: usize = 0;
        while i < candidates.len()
            invariant
                i <= candidates.len(),
                windows.len() == i,
                folded.len() == i,
                forall|j: int| 0 <= j < i ==> #[trigger] windows@[j] == candidates@[j].0,
                forall|j: int| 0 <= j < i ==> title_view(#[trigger] folded@[j]) == folded_titles_of(candidates@)[j],
            decreases candidates.len() - i,
        {
            windows.push(candidates[i].0);
            let f = match &candidates[i].1 {
                Some(t) => Some(lowercase(t.as_str())),
                None => None,
            };
            folded.push(f);
            i = i + 1;
        }
        proof {
            assert(windows@ == candidates@.map_values(|c: (Window, Option<String>)| c.0));
            assert(folded@.map_values(|t: Option<String>| title_view(t)) == folded_titles_of(candidates@));
        }
        Window::select_by_folded_title(&windows, &folded, folded_search.as_str())
    }

    /// Finds the first listed window whose title is exactly `title`.
    pub fn find_by_exact_title(candidates: &Vec<(Window, Option<String>)>, title: &str) -> (r: Option<Window>)
        ensures
            r == (match first_exact_title(candidates@, title@) {
                Some(i) => Some(candidates@[i].0),
                None => None,
            }),
    {
        let wanted = title.to_owned();
        let mut i: usize = 0;
        while i < candidates.len()
            invariant
                i <= candidates.len(),
                wanted@ == title@,
                first_exact_title(candidates@.subrange(0, i as int), title@) is None,
            decreases candidates.len() - i,
        {
            proof {
                assert(candidates@.subrange(0, i + 1).drop_last() == candidates@.subrange(0, i as int));
            }
            let hit = match &candidates[i].1 {
                Some(t) => *t == wanted,
                None => false,
            };
            if hit {
                proof {
                    lemma_first_exact_extends(candidates@, title@, i as int + 1);
                }
                return Some(candidates[i].0);
            }
            i = i + 1;
        }
        proof {
            assert(candidates@.subrange(0, i as int) == candidates@);
        }
        None
    }
}

/// A match found in a prefix stays the first match of the whole sequence.
proof fn lemma_first_exact_extends(s: Seq<(Window, Option<String>)>, title: Seq<char>, k: int)
    requires
        0 <= k <= s.len(),
        first_exact_title(s.subrange(0, k), title) is Some,
    ensures
        first_exact_title(s, title) == first_exact_title(s.subrange(0, k), title),
    decreases s.len() - k,
{
    if k < s.len() {
        let p = s.subrange(0, k + 1);
        assert(p.drop_last() == s.subrange(0, k));
        lemma_first_exact_extends(s, title, k + 1);
    } else {
        assert(s.subrange(0, k) == s);
    }
}

/// The state of a window, the same on every platform.
#[derive(Debug, Clone, Copy, PartialEq, Eq, Structural)]
pub struct WindowState {
    pub visible: bool,
    pub maximized: bool,
    pub minimized: bool,
    /// Whether the window is enabled (can receive input).
    pub enabled: bool,
}

impl WindowState {
    /// Visible, neither maximized nor minimized.
    pub fn is_normal(&self) -> (r: bool)
        ensures
            r == (self.visible && !self.maximized && !self.minimized),
    {
        self.visible && !self.maximized && !self.minimized
    }

    /// Not visible.
    pub fn is_hidden(&self) -> (r: bool)
        ensures
            r == !self.visible,
    {
        !self.visible
    }

    /// Enabled and visible.
    pub fn can_accept_input(&self) -> (r: bool)
        ensures
            r == (self.enabled && self.visible),
    {
        self.enabled && self.visible
    }
}

} // verus!
