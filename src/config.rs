//! Startup options of the viewer and the decisions taken from them alone.
use vstd::prelude::*;

verus! {

/// How the window reacts to pointer input.
#[derive(Clone, Copy, Debug, PartialEq, Eq, Structural, Default)]
pub enum MouseBehavior {
    /// Pointer input reaches the image area; dragging does not move the window.
    #[default]
    Disabled,
    /// Dragging on the image area moves the window.
    Drag,
    /// The window takes no pointer input anywhere.
    Passthrough,
}

/// Whether the image is read from a clipboard, and from which.
#[derive(Clone, Copy, Debug, PartialEq, Eq, Structural)]
pub enum UseClipboard {
    No,
    Primary,
    Yes,
}

/// The options the viewer starts with.
#[derive(Clone, Debug)]
pub struct Args {
    /// The image file to open; a file chooser is shown where there is none.
    pub file: Option<String>,
    /// The accelerator that quits the viewer, or `none`.
    pub quit_with: String,
    pub mouse: MouseBehavior,
    pub no_context_menu: bool,
    pub no_maximize: bool,
    pub clipboard: UseClipboard,
}

/// Where the image comes from.
#[derive(Clone, Debug)]
pub enum ImageSource {
    PrimaryClipboard,
    Clipboard,
    File(String),
    Chooser,
}

/// The text of `quit_with` that turns the quit accelerator off.
pub open spec fn quit_disabled_text() -> Seq<char> {
    seq!['n', 'o', 'n', 'e']
}

impl Args {
    /// A clipboard, where one is asked for, wins over a file; without a file
    /// the user chooses one.
    pub fn image_source(&self) -> (r: ImageSource)
        ensures
            self.clipboard == UseClipboard::Primary ==> r is PrimaryClipboard,
            self.clipboard == UseClipboard::Yes ==> r is Clipboard,
            self.clipboard == UseClipboard::No ==> match self.file {
                Some(f) => r matches ImageSource::File(g) && g@ == f@,
                None => r is Chooser,
            },
    {
        match self.clipboard {
            UseClipboard::Primary => ImageSource::PrimaryClipboard,
            UseClipboard::Yes => ImageSource::Clipboard,
            UseClipboard::No => match &self.file {
                Some(f) => ImageSource::File(f.clone()),
                None => ImageSource::Chooser,
            },
        }
    }

    /// The accelerator to install for quitting, `None` where it is turned off.
    pub fn quit_accelerator(&self) -> (r: Option<String>)
        ensures
            r is None <==> self.quit_with@ == quit_disabled_text(),
            r matches Some(a) ==> a@ == self.quit_with@,
    {
        let off = "none".to_owned();
        proof {
            reveal_strlit("none");
            assert(off@ =~= quit_disabled_text());
        }
        if self.quit_with == off {
            None
        } else {
            Some(self.quit_with.clone())
        }
    }
}

} // verus!
