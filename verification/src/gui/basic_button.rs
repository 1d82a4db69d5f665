//! A line of text inside a panel that can be switched on and off.

use vstd::prelude::*;
use vstd::string::StringExecFns;

verus! {

/// A button made of text.
pub struct BasicButton {
    alive: bool,
    x: isize,
    y: isize,
    panel_x: isize,
    panel_y: isize,
    name: String,
    font_id: usize,
}

/// The state of a button.
pub struct ButtonView {
    /// Whether the button is switched on.
    pub alive: bool,
    /// Where the button sits inside its panel.
    pub place: (isize, isize),
    /// Where the panel sits on screen.
    pub panel: (isize, isize),
    /// The text.
    pub name: Seq<char>,
    /// The font that the text is set in.
    pub font_id: usize,
}

/// A line of text to draw, from its left end.
pub struct TextDraw {
    pub font_id: usize,
    pub text: String,
    pub x: i128,
    pub y: i128,
}

impl View for BasicButton {
    type V = ButtonView;

    closed spec fn view(&self) -> ButtonView {
        ButtonView {
            alive: self.alive,
            place: (self.x, self.y),
            panel: (self.panel_x, self.panel_y),
            name: self.name@,
            font_id: self.font_id,
        }
    }
}

impl BasicButton {
    /// A button that reads `name`, at `(x, y)` inside a panel at
    /// `(panel_x, panel_y)`, switched off.
    pub fn new(name: &str, font_id: usize, x: isize, y: isize, panel_x: isize, panel_y: isize) -> (button: Self)
        ensures
            button@ == (ButtonView {
                alive: false,
                place: (x, y),
                panel: (panel_x, panel_y),
                name: name@,
                font_id,
            }),
    {
        BasicButton { alive: false, x, y, panel_x, panel_y, name: String::from_str(name), font_id }
    }

    /// Switches the button on.
    pub fn enable(&mut self)
        ensures
            final(self)@ == (ButtonView { alive: true, ..old(self)@ }),
    {
        self.alive = true;
    }

    /// Switches the button off.
    pub fn disable(&mut self)
        ensures
            final(self)@ == (ButtonView { alive: false, ..old(self)@ }),
    {
        self.alive = false;
    }

    /// Whether the button is switched on.
    pub fn is_active(&self) -> (active: bool)
        ensures
            active == self@.alive,
    {
        self.alive
    }

    /// Moves the panel that the button sits in.
    pub fn update_position(&mut self, x: isize, y: isize)
        ensures
            final(self)@ == (ButtonView { panel: (x, y), ..old(self)@ }),
    {
        self.panel_x = x;
        self.panel_y = y;
    }

    /// The text to draw and where.
    pub fn render(&self) -> (draw: TextDraw)
        ensures
            draw.font_id == self@.font_id,
            draw.text@ == self@.name,
            draw.x == self@.panel.0 + self@.place.0,
            draw.y == self@.panel.1 + self@.place.1,
    {
        TextDraw {
            font_id: self.font_id,
            text: self.name.clone(),
            x: self.panel_x as i128 + self.x as i128,
            y: self.panel_y as i128 + self.y as i128,
        }
    }

    /// The text of the button.
    pub fn get_text(&self) -> (text: &str)
        ensures
            text@ == self@.name,
    {
        self.name.as_str()
    }

    /// The font that the text is set in.
    pub fn get_font_id(&self) -> (font_id: usize)
        ensures
            font_id == self@.font_id,
    {
        self.font_id
    }
}

} // verus!
