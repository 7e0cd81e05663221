use vstd::prelude::*;

verus! {

/// Something that can be drawn on a screen: it says what it shows.
pub trait Draw {
    fn draw(&self) -> String;
}

pub struct Screen {
    pub components: Vec<Box<dyn Draw>>,
}

impl Screen {
    /// What each component shows, in the components' order.
    pub fn render(&self) -> (shown: Vec<String>)
        ensures
            shown@.len() == self.components@.len(),
    {
        let mut shown: Vec<String> = Vec::new();
        let mut i: usize = 0;
        while i < self.components.len()
            invariant
                i <= self.components@.len(),
                shown@.len() == i,
            decreases self.components@.len() - i,
        {
            let text = self.components[i].draw();
            shown.push(text);
            i = i + 1;
        }
        shown
    }
}

#[derive(Debug)]
pub struct Button {
    pub width: u32,
    pub height: u32,
    pub label: String,
}

#[derive(Debug)]
pub struct SelectBox {
    pub width: u32,
    pub height: u32,
    pub options: Vec<String>,
}

/// What each of a list of strings holds.
pub open spec fn option_texts(options: Seq<String>) -> Seq<Seq<char>> {
    Seq::new(options.len(), |i: int| options[i]@)
}

/// A button as the `Debug` format writes it.
pub uninterp spec fn button_debug(width: u32, height: u32, label: Seq<char>) -> Seq<char>;

/// A select box as the `Debug` format writes it.
pub uninterp spec fn select_box_debug(width: u32, height: u32, options: Seq<Seq<char>>) -> Seq<
    char,
>;

/// The `Debug` format of a button, as `derive` and `format!` write it.
#[verifier::external_body]
fn debug_of_button(button: &Button) -> (text: String)
    ensures
        text@ == button_debug(button.width, button.height, button.label@),
{
    format!("{:?}", button)
}

/// The `Debug` format of a select box, as `derive` and `format!` write it.
#[verifier::external_body]
fn debug_of_select_box(select_box: &SelectBox) -> (text: String)
    ensures
        text@ == select_box_debug(
            select_box.width,
            select_box.height,
            option_texts(select_box.options@),
        ),
{
    format!("{:?}", select_box)
}

impl Draw for Button {
    fn draw(&self) -> (text: String)
        ensures
            text@ == "Draw button : "@ + button_debug(self.width, self.height, self.label@),
    {
        let mut text = String::from_str("Draw button : ");
        let shown = debug_of_button(self);
        text.append(shown.as_str());
        text
    }
}

impl Draw for SelectBox {
    fn draw(&self) -> (text: String)
        ensures
            text@ == "Draw select box : "@ + select_box_debug(
                self.width,
                self.height,
                option_texts(self.options@),
            ),
    {
        let mut text = String::from_str("Draw select box : ");
        let shown = debug_of_select_box(self);
        text.append(shown.as_str());
        text
    }
}

} // verus!
