//! What the game asks of a front end: to show a screen of text and to let the
//! player choose from a list.

pub mod fallback;
pub mod measure;
pub mod mock;
pub mod render;
pub mod text_layout;
pub mod viewport;

use vstd::prelude::*;

pub use mock::MockMenu;

verus! {

/// The error type of std's input and output, carried through unread.
#[verifier::external_type_specification]
#[verifier::external_body]
pub struct ExIoError(std::io::Error);

/// The list of options for a user to choose from
pub struct OptionList<'a> {
    /// A list of options for the player to choose from
    pub options: &'a [String],
    /// A command to show the user
    pub prompt: &'a str,
}

impl<'a> OptionList<'a> {
    /// Constructs an [`OptionList`] from a list of options, which may not be
    /// empty, and a prompt.
    pub fn new(options: &'a [String], prompt: &'a str) -> (r: Self)
        requires
            options@.len() > 0,
        ensures
            r.options@ == options@,
            r.prompt@ == prompt@,
    {
        Self { options, prompt }
    }
}

/// A screen of text that can be shown to the user
#[derive(Debug)]
pub struct Screen<'a> {
    /// The title of the screen
    pub title: &'a str,
    /// The text to display
    pub content: &'a str,
}

/// An error which can occur while displaying a menu.
#[derive(Debug)]
pub enum Error {
    /// An IO error
    Io(std::io::Error),
    /// A character was encountered which is not supported
    IncompatibleCharacter,
}

/// What std tells of one of its errors of input and output. Nothing is
/// claimed of the text.
#[verifier::external_body]
fn io_error_text(error: &std::io::Error) -> String {
    format!("{error}")
}

impl Error {
    /// The sentence that tells of the error. Of an error of input and output
    /// it is what std tells of it.
    pub fn to_string(&self) -> (r: String)
        ensures
            *self is IncompatibleCharacter ==> r@ == "an incompatible character was encountered"@,
    {
        match self {
            Error::Io(e) => io_error_text(e),
            Error::IncompatibleCharacter => String::from_str(
                "an incompatible character was encountered",
            ),
        }
    }
}

impl From<std::io::Error> for Error {
    /// An error of input and output as an error of a menu.
    fn from(value: std::io::Error) -> (r: Self) {
        Error::Io(value)
    }
}

impl vstd::std_specs::convert::FromSpecImpl<std::io::Error> for Error {
    open spec fn obeys_from_spec() -> bool {
        true
    }

    open spec fn from_spec(value: std::io::Error) -> Self {
        Error::Io(value)
    }
}

/// What each of `options` holds.
pub open spec fn option_texts(options: Seq<String>) -> Seq<Seq<char>> {
    Seq::new(options.len(), |k: int| options[k]@)
}

/// A front end: something that can show screens and lists of options.
///
/// What a front end does when it is asked to show something is its own
/// affair. Each front end says what it is in three relations, one for each
/// thing that it can be asked to show: between the front end before, the
/// front end after, what was to be shown, and the answer. Whoever shows
/// something through a front end can then say what was shown and that the
/// answer is the front end's. A front end that does not say what it does is
/// one of which anything is to be expected.
pub trait Menu: Sized {
    /// Whether showing the screen with this title and this text can turn
    /// the front end `before` into the front end `after` with the answer
    /// `result`.
    open spec fn screen_shown(
        before: Self,
        after: Self,
        title: Seq<char>,
        content: Seq<char>,
        result: Result<(), Error>,
    ) -> bool {
        true
    }

    /// Whether showing the list of these options under this prompt can turn
    /// the front end `before` into the front end `after` with the answer
    /// `result`.
    open spec fn list_shown(
        before: Self,
        after: Self,
        options: Seq<Seq<char>>,
        prompt: Seq<char>,
        result: Result<usize, Error>,
    ) -> bool {
        true
    }

    /// Whether showing the list of these options under this prompt,
    /// together with a way to cancel, can turn the front end `before` into
    /// the front end `after` with the answer `result`.
    open spec fn cancellable_list_shown(
        before: Self,
        after: Self,
        options: Seq<Seq<char>>,
        prompt: Seq<char>,
        result: Result<Option<usize>, Error>,
    ) -> bool {
        true
    }

    /// Creates a new instance of the front end
    fn new() -> Result<Self, std::io::Error>;

    /// Shows a list of options and returns the index of the one that the
    /// user selected.
    fn try_show_option_list(&mut self, list: OptionList) -> (r: Result<usize, Error>)
        requires
            list.options@.len() > 0,
        ensures
            r matches Ok(i) ==> i < list.options@.len(),
            Self::list_shown(
                *old(self),
                *final(self),
                option_texts(list.options@),
                list.prompt@,
                r,
            ),
    ;

    /// Shows a list of options together with a way to cancel. Returns
    /// `None` if the user cancelled, else the index of the option that the
    /// user selected.
    fn try_show_option_list_cancellable(&mut self, list: OptionList) -> (r: Result<
        Option<usize>,
        Error,
    >)
        requires
            list.options@.len() > 0,
        ensures
            r matches Ok(Some(i)) ==> i < list.options@.len(),
            Self::cancellable_list_shown(
                *old(self),
                *final(self),
                option_texts(list.options@),
                list.prompt@,
                r,
            ),
    ;

    /// Shows a screen and waits until the user has acknowledged it.
    fn try_show_screen(&mut self, screen: Screen) -> (r: Result<(), Error>)
        ensures
            Self::screen_shown(*old(self), *final(self), screen.title@, screen.content@, r),
    ;
}

} // verus!
