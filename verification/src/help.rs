//! The help scene: one page of Markdown, put together from the help pages of
//! the other scenes.

use crate::ohm_law;
use crate::voltage_divider;
use vstd::prelude::*;
use vstd::string::*;

verus! {

/// What the help scene may be told.
#[derive(Debug)]
pub enum Message {
    /// A link on the page was clicked.
    LinkClicked(()),
}

impl Clone for Message {
    fn clone(&self) -> (res: Self)
        ensures
            res == *self,
    {
        Message::LinkClicked(())
    }
}

/// The state of the help scene.
#[derive(Debug)]
pub struct Help {
    /// The page, in Markdown.
    pub markdown: String,
}

impl View for Help {
    type V = Seq<char>;

    open spec fn view(&self) -> Seq<char> {
        self.markdown@
    }
}

/// The page: a heading, and under it a section for each scene, made of the
/// scene's heading and body.
pub open spec fn page() -> Seq<char> {
    "# Help\n"@ + "## "@ + ohm_law::HELP_TITLE@ + "\n"@ + ohm_law::HELP_TEXT@ + "\n\n"@ + "## "@
        + voltage_divider::HELP_TITLE@ + "\n"@ + voltage_divider::HELP_TEXT@
}

impl Help {
    /// The help scene, with its page put together.
    pub fn new() -> (res: Self)
        ensures
            res@ == page(),
    {
        let help1 = ohm_law::help();
        let help2 = voltage_divider::help();
        let mut t = "# Help\n".to_owned();
        t.append("## ");
        t.append(help1.0.as_str());
        t.append("\n");
        t.append(help1.1.as_str());
        t.append("\n\n");
        t.append("## ");
        t.append(help2.0.as_str());
        t.append("\n");
        t.append(help2.1.as_str());
        Self { markdown: t }
    }

    /// The name of the scene.
    pub fn title(&self) -> (res: String)
        ensures
            res@ == "Help"@,
    {
        "Help".to_owned()
    }

    /// Takes a message. The page does not change.
    pub fn update(&mut self, _message: Message)
        ensures
            final(self)@ == old(self)@,
    {
    }
}

} // verus!
