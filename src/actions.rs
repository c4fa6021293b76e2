use vstd::prelude::*;
use crate::window::{Window, WindowIdentifier};

verus! {

/// Opens a URL in the default browser, or in a chosen one.
pub struct OpenInBrowser {
    pub url: String,
    pub browser: Option<String>,
}

impl OpenInBrowser {
    pub fn new(url: String) -> (r: Self)
        ensures
            r.url@ == url@,
            r.browser is None,
    {
        OpenInBrowser { url, browser: None }
    }

    /// Uses the given browser instead of the default one.
    pub fn with_browser(self, browser: String) -> (r: Self)
        ensures
            r.url@ == self.url@,
            r.browser matches Some(b) && b@ == browser@,
    {
        let mut a = self;
        a.browser = Some(browser);
        a
    }

    pub fn url(&self) -> (r: &str)
        ensures
            r@ == self.url@,
    {
        self.url.as_str()
    }

    pub fn browser(&self) -> (r: Option<&str>)
        ensures
            match self.browser {
                Some(b) => r matches Some(s) && s@ == b@,
                None => r is None,
            },
    {
        match &self.browser {
            Some(b) => Some(b.as_str()),
            None => None,
        }
    }
}

/// Closes a window.
pub struct CloseWindow {
    pub window_id: WindowIdentifier,
}

impl CloseWindow {
    pub fn for_window(window: Window) -> (r: Self)
        ensures
            r.window_id == window.id,
    {
        CloseWindow { window_id: window.id() }
    }

    /// The action for the focused window, `None` when no window has the focus.
    pub fn try_current(focused: Option<Window>) -> (r: Option<Self>)
        ensures
            match focused {
                Some(w) => r matches Some(a) && a.window_id == w.id,
                None => r is None,
            },
    {
        match focused {
            Some(w) => Some(Self::for_window(w)),
            None => None,
        }
    }

    pub fn from_id(window_id: WindowIdentifier) -> (r: Self)
        ensures
            r.window_id == window_id,
    {
        CloseWindow { window_id }
    }
}

/// Maximizes a window.
pub struct MaximizeWindow {
    pub window_id: WindowIdentifier,
}

impl MaximizeWindow {
    pub fn for_window(window: Window) -> (r: Self)
        ensures
            r.window_id == window.id,
    {
        MaximizeWindow { window_id: window.id() }
    }

    /// The action for the focused window, `None` when no window has the focus.
    pub fn try_current(focused: Option<Window>) -> (r: Option<Self>)
        ensures
            match focused {
                Some(w) => r matches Some(a) && a.window_id == w.id,
                None => r is None,
            },
    {
        match focused {
            Some(w) => Some(Self::for_window(w)),
            None => None,
        }
    }

    pub fn from_id(window_id: WindowIdentifier) -> (r: Self)
        ensures
            r.window_id == window_id,
    {
        MaximizeWindow { window_id }
    }
}

/// Minimizes a window.
pub struct MinimizeWindow {
    pub window_id: WindowIdentifier,
}

impl MinimizeWindow {
    pub fn for_window(window: Window) -> (r: Self)
        ensures
            r.window_id == window.id,
    {
        MinimizeWindow { window_id: window.id() }
    }

    /// The action for the focused window, `None` when no window has the focus.
    pub fn try_current(focused: Option<Window>) -> (r: Option<Self>)
        ensures
            match focused {
                Some(w) => r matches Some(a) && a.window_id == w.id,
                None => r is None,
            },
    {
        match focused {
            Some(w) => Some(Self::for_window(w)),
            None => None,
        }
    }

    pub fn from_id(window_id: WindowIdentifier) -> (r: Self)
        ensures
            r.window_id == window_id,
    {
        MinimizeWindow { window_id }
    }
}

/// Sets the title of a window.
pub struct SetWindowTitle {
    pub window_id: WindowIdentifier,
    pub title: String,
}

impl SetWindowTitle {
    pub fn for_window(window: Window, title: String) -> (r: Self)
        ensures
            r.window_id == window.id,
            r.title@ == title@,
    {
        SetWindowTitle { window_id: window.id(), title }
    }

    /// The action for the focused window, `None` when no window has the focus.
    pub fn try_current(focused: Option<Window>, title: String) -> (r: Option<Self>)
        ensures
            match focused {
                Some(w) => r matches Some(a) && a.window_id == w.id && a.title@ == title@,
                None => r is None,
            },
    {
        match focused {
            Some(w) => Some(Self::for_window(w, title)),
            None => None,
        }
    }

    pub fn from_id(window_id: WindowIdentifier, title: String) -> (r: Self)
        ensures
            r.window_id == window_id,
            r.title@ == title@,
    {
        SetWindowTitle { window_id, title }
    }

    pub fn window_id(&self) -> (r: WindowIdentifier)
        ensures
            r == self.window_id,
    {
        self.window_id
    }

    pub fn title(&self) -> (r: &str)
        ensures
            r@ == self.title@,
    {
        self.title.as_str()
    }
}

} // verus!
