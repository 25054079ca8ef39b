//! Configuration used to build the application and its window.

use vstd::prelude::*;

verus! {

/// Configuration struct that is used to build the application and renderer.
#[derive(Debug)]
pub struct AppConfig {
    /// The title of the window.
    pub title: String,
    /// Is the window resizable.
    pub resizable: bool,
    /// The width of the window.
    pub width: u32,
    /// The height of the window.
    pub height: u32,
    /// Should the window always be on top.
    pub top: bool,
    /// Should the window have decorations.
    pub decor: bool,
    /// Should the window be visible.
    pub visible: bool,
}

impl AppConfig {
    /// Create a new AppConfig with the default window settings, which can then
    /// be built upon.
    pub fn new() -> (c: Self)
        ensures
            c.title@ == "Gomp Application"@,
            c.resizable,
            c.width == 400,
            c.height == 300,
            !c.top,
            c.decor,
            c.visible,
    {
        Self {
            title: "Gomp Application".to_owned(),
            resizable: true,
            width: 400,
            height: 300,
            top: false,
            decor: true,
            visible: true,
        }
    }

    /// Sets the title.
    pub fn with_title(self, title: &str) -> (c: Self)
        ensures
            c == (Self { title: c.title, ..self }),
            c.title@ == title@,
    {
        Self { title: title.to_owned(), ..self }
    }

    /// Sets if resizable.
    pub fn with_resizable(self, resizable: bool) -> (c: Self)
        ensures
            c == (Self { resizable, ..self }),
    {
        Self { resizable, ..self }
    }

    /// Sets the width.
    pub fn with_width(self, width: u32) -> (c: Self)
        ensures
            c == (Self { width, ..self }),
    {
        Self { width, ..self }
    }

    /// Sets the height.
    pub fn with_height(self, height: u32) -> (c: Self)
        ensures
            c == (Self { height, ..self }),
    {
        Self { height, ..self }
    }

    /// Sets if the window should always be on top.
    pub fn with_on_top(self, top: bool) -> (c: Self)
        ensures
            c == (Self { top, ..self }),
    {
        Self { top, ..self }
    }

    /// Sets if the window should have decorations.
    pub fn with_decor(self, decor: bool) -> (c: Self)
        ensures
            c == (Self { decor, ..self }),
    {
        Self { decor, ..self }
    }

    /// Sets if the window should be visible.
    pub fn with_visibiliy(self, visible: bool) -> (c: Self)
        ensures
            c == (Self { visible, ..self }),
    {
        Self { visible, ..self }
    }
}

} // verus!
