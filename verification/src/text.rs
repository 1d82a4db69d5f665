//! The dialogue surface: a paged text box that every battle phase writes to
//! in turn. A page is left either when its waiting time has passed or, if it
//! has none, when the player confirms.

use vstd::prelude::*;
use crate::lifecycle::{Completable, Entity, Reset, Sequence};
use crate::strings::{texts, copy_lines};

verus! {

/// One page of dialogue.
pub struct MessagePage {
    /// The lines shown together on this page.
    pub lines: Vec<String>,
    /// Milliseconds after which the page is left by itself; `None` waits for
    /// the player.
    pub wait: Option<u32>,
}

/// What a page says and how long it stays.
pub struct PageView {
    pub lines: Seq<Seq<char>>,
    pub wait: Option<u32>,
}

impl View for MessagePage {
    type V = PageView;

    open spec fn view(&self) -> PageView {
        PageView { lines: texts(self.lines@), wait: self.wait }
    }
}

impl MessagePage {
    /// A page of the given lines.
    pub fn new(lines: Vec<String>, wait: Option<u32>) -> (page: Self)
        ensures
            page.lines == lines,
            page.wait == wait,
    {
        MessagePage { lines, wait }
    }
}

/// The views of the pages of `v`, in order.
pub open spec fn page_views(v: Seq<MessagePage>) -> Seq<PageView> {
    Seq::new(v.len(), |i: int| v[i]@)
}

/// The dialogue surface.
pub struct TextDisplay {
    alive: bool,
    pages: Vec<MessagePage>,
    current: usize,
    timer: u32,
    finished: bool,
}

/// The observable state of a dialogue surface.
pub struct TextView {
    /// Whether the box is on screen.
    pub alive: bool,
    /// The script.
    pub pages: Seq<PageView>,
    /// Index of the page being shown.
    pub current: nat,
    /// Milliseconds spent on the current page, capped at `u32::MAX`.
    pub timer: nat,
    /// Whether the last page has been left.
    pub finished: bool,
}

impl TextView {
    /// A surface with no script, off screen.
    pub open spec fn blank() -> TextView {
        TextView { alive: false, pages: Seq::empty(), current: 0, timer: 0, finished: false }
    }

    /// Back on the first page, with nothing read yet.
    pub open spec fn rewound(self) -> TextView {
        TextView { current: 0, timer: 0, finished: false, ..self }
    }

    /// The script thrown away.
    pub open spec fn cleared(self) -> TextView {
        TextView { pages: Seq::empty(), ..self.rewound() }
    }

    /// One more page at the end of the script.
    pub open spec fn pushed(self, page: PageView) -> TextView {
        TextView { pages: self.pages.push(page), ..self }
    }

    /// Put on screen, from the first page.
    pub open spec fn spawned(self) -> TextView {
        TextView { alive: true, ..self.rewound() }
    }

    /// Taken off screen.
    pub open spec fn despawned(self) -> TextView {
        TextView { alive: false, ..self }
    }

    /// Whether a page is on screen and can be left.
    pub open spec fn can_continue(self) -> bool {
        self.alive && !self.finished && self.current < self.pages.len()
    }

    /// The time on the current page after `delta` more milliseconds.
    pub open spec fn waited(self, delta: nat) -> nat {
        if self.timer + delta <= u32::MAX { self.timer + delta } else { u32::MAX as nat }
    }

    /// Whether this frame leaves the current page.
    pub open spec fn leaves_page(self, delta: nat, confirm: bool) -> bool {
        self.can_continue() && match self.pages[self.current as int].wait {
            Some(wait) => self.waited(delta) >= wait,
            None => confirm,
        }
    }

    /// The surface after one frame of `delta` milliseconds in which the
    /// player did or did not confirm.
    pub open spec fn advanced(self, delta: nat, confirm: bool) -> TextView {
        if !self.alive || self.finished {
            self
        } else if self.current >= self.pages.len() {
            TextView { finished: true, ..self }
        } else if self.leaves_page(delta, confirm) {
            if self.current + 1 < self.pages.len() {
                TextView { current: self.current + 1, timer: 0, ..self }
            } else {
                TextView { finished: true, timer: self.waited(delta), ..self }
            }
        } else {
            TextView { timer: self.waited(delta), ..self }
        }
    }
}

impl View for TextDisplay {
    type V = TextView;

    closed spec fn view(&self) -> TextView {
        TextView {
            alive: self.alive,
            pages: page_views(self.pages@),
            current: self.current as nat,
            timer: self.timer as nat,
            finished: self.finished,
        }
    }
}

impl TextDisplay {
    /// An empty surface, off screen.
    pub fn new() -> (text: Self)
        ensures
            text@ == TextView::blank(),
    {
        let text = TextDisplay { alive: false, pages: Vec::new(), current: 0, timer: 0, finished: false };
        assert(text@.pages =~= Seq::empty());
        text
    }

    /// Throws the script away.
    pub fn clear(&mut self)
        ensures
            final(self)@ == old(self)@.cleared(),
    {
        self.pages = Vec::new();
        self.current = 0;
        self.timer = 0;
        self.finished = false;
        assert(self@.pages =~= Seq::empty());
    }

    /// Adds a page at the end of the script.
    pub fn push(&mut self, page: MessagePage)
        ensures
            final(self)@ == old(self)@.pushed(page@),
    {
        self.pages.push(page);
        assert(self@.pages =~= old(self)@.pages.push(page@));
    }

    /// Index of the page being shown.
    pub fn current(&self) -> (current: usize)
        ensures
            current == self@.current,
    {
        self.current
    }

    /// Number of pages in the script.
    pub fn len(&self) -> (len: usize)
        ensures
            len == self@.pages.len(),
    {
        self.pages.len()
    }

    /// Whether a page is on screen and can be left.
    pub fn can_continue(&self) -> (ready: bool)
        ensures
            ready == self@.can_continue(),
    {
        self.alive && !self.finished && self.current < self.pages.len()
    }

    /// The lines of page `index`, copied out for drawing.
    pub fn page_lines(&self, index: usize) -> (lines: Option<Vec<String>>)
        ensures
            index >= self@.pages.len() ==> lines is None,
            index < self@.pages.len() ==> lines is Some && texts(lines->0@)
                == self@.pages[index as int].lines,
    {
        if index >= self.pages.len() {
            return None;
        }
        Some(copy_lines(&self.pages[index].lines))
    }

    /// Advances the dialogue by one frame.
    pub fn update(&mut self, delta: u32, confirm: bool)
        ensures
            final(self)@ == old(self)@.advanced(delta as nat, confirm),
    {
        if !self.alive || self.finished {
            return;
        }
        if self.current >= self.pages.len() {
            self.finished = true;
            return;
        }
        let waited: u32 = if self.timer <= u32::MAX - delta { self.timer + delta } else { u32::MAX };
        let leaves = match self.pages[self.current].wait {
            Some(wait) => waited >= wait,
            None => confirm,
        };
        if leaves {
            if self.current + 1 < self.pages.len() {
                self.current = self.current + 1;
                self.timer = 0;
            } else {
                self.finished = true;
                self.timer = waited;
            }
        } else {
            self.timer = waited;
        }
    }
}

impl Completable for TextDisplay {
    open spec fn completed(&self) -> bool {
        self@.finished
    }

    /// Whether the last page has been left.
    fn finished(&self) -> (finished: bool) {
        self.finished
    }
}

impl Reset for TextDisplay {
    open spec fn is_reset(&self) -> bool {
        self@ == self@.rewound()
    }

    /// Goes back to the first page of the script.
    fn reset(&mut self)
        ensures
            final(self)@ == old(self)@.rewound(),
    {
        self.current = 0;
        self.timer = 0;
        self.finished = false;
    }
}

impl Sequence for TextDisplay {
    proof fn reset_is_unfinished(&self) {
    }
}

impl Entity for TextDisplay {
    open spec fn living(&self) -> bool {
        self@.alive
    }

    /// Puts the box on screen, starting at the first page.
    fn spawn(&mut self)
        ensures
            final(self)@ == old(self)@.spawned(),
    {
        self.alive = true;
        self.current = 0;
        self.timer = 0;
        self.finished = false;
    }

    /// Takes the box off screen. The script and the position stay.
    fn despawn(&mut self)
        ensures
            final(self)@ == old(self)@.despawned(),
    {
        self.alive = false;
    }

    /// Whether the box is on screen.
    fn alive(&self) -> (alive: bool) {
        self.alive
    }
}

} // verus!
