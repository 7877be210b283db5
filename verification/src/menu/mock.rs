//! A front end without a user: it answers from a script and remembers what
//! it was last asked to show.

use std::collections::VecDeque;
use vstd::prelude::*;
use crate::menu::{option_texts, Error, Menu, OptionList, Screen};

verus! {

/// A front end that picks what its script says and shows nothing.
#[derive(Debug, Clone, Default)]
pub struct MockMenu {
    /// The title and the text of the screen shown last
    last_screen: Option<(String, String)>,
    /// The prompt and the options of the list shown last
    last_list: Option<(String, Vec<String>)>,
    /// The answers still to give, the next one first. `None` stands for
    /// cancelling.
    numbers_to_produce: VecDeque<Option<usize>>,
}

/// The error of std that stands for a script that has run out, or whose next
/// answer the list does not allow: the end of the input came unexpectedly.
/// Nothing is claimed of the value.
#[verifier::external_body]
fn script_failed() -> std::io::Error {
    std::io::Error::from(std::io::ErrorKind::UnexpectedEof)
}

/// A copy of a list of strings.
pub fn copy_strings(strings: &[String]) -> (r: Vec<String>)
    ensures
        r@ == strings@,
{
    let mut copy: Vec<String> = Vec::new();
    let mut k: usize = 0;
    while k < strings.len()
        invariant
            k <= strings@.len(),
            copy@ == strings@.subrange(0, k as int),
        decreases strings@.len() - k,
    {
        copy.push(strings[k].clone());
        assert(copy@ =~= strings@.subrange(0, k + 1));
        k = k + 1;
    }
    assert(strings@.subrange(0, k as int) =~= strings@);
    copy
}

impl MockMenu {
    /// The answers that the menu has still to give, the next one first.
    pub closed spec fn script(&self) -> Seq<Option<usize>> {
        self.numbers_to_produce@
    }

    /// The title and the text of the screen shown last, if any was shown.
    pub closed spec fn shown_screen(&self) -> Option<(Seq<char>, Seq<char>)> {
        match self.last_screen {
            Some((title, content)) => Some((title@, content@)),
            None => None,
        }
    }

    /// The prompt of the list shown last, if any was shown.
    pub closed spec fn shown_prompt(&self) -> Option<Seq<char>> {
        match self.last_list {
            Some((prompt, _)) => Some(prompt@),
            None => None,
        }
    }

    /// The options of the list shown last, if any was shown.
    pub closed spec fn shown_options(&self) -> Option<Seq<String>> {
        match self.last_list {
            Some((_, options)) => Some(options@),
            None => None,
        }
    }

    /// What the options of the list shown last hold, if any was shown.
    pub open spec fn shown_option_texts(&self) -> Option<Seq<Seq<char>>> {
        match self.shown_options() {
            Some(options) => Some(option_texts(options)),
            None => None,
        }
    }

    /// Whether `after` is `before` with the list of `options` under `prompt`
    /// remembered and the next answer, if there is one, taken off the
    /// script.
    pub open spec fn asked(
        before: Self,
        after: Self,
        options: Seq<Seq<char>>,
        prompt: Seq<char>,
    ) -> bool {
        &&& after.shown_prompt() == Some(prompt)
        &&& after.shown_option_texts() == Some(options)
        &&& after.shown_screen() == before.shown_screen()
        &&& after.script() == if before.script().len() > 0 {
            before.script().drop_first()
        } else {
            before.script()
        }
    }

    /// A menu that gives the answers of `choices`, the first one first.
    pub fn with_choices(choices: Vec<Option<usize>>) -> (r: Self)
        ensures
            r.script() == choices@,
            r.shown_screen() is None,
            r.shown_prompt() is None,
            r.shown_options() is None,
    {
        let mut numbers: VecDeque<Option<usize>> = VecDeque::new();
        let mut k: usize = 0;
        while k < choices.len()
            invariant
                k <= choices@.len(),
                numbers@ == choices@.subrange(0, k as int),
            decreases choices@.len() - k,
        {
            numbers.push_back(choices[k]);
            assert(numbers@ =~= choices@.subrange(0, k + 1));
            k = k + 1;
        }
        assert(choices@.subrange(0, k as int) =~= choices@);
        Self { last_screen: None, last_list: None, numbers_to_produce: numbers }
    }

    /// The title and the text of the screen shown last, if any was shown.
    pub fn last_screen(&self) -> (r: Option<(String, String)>)
        ensures
            match r {
                Some((title, content)) => self.shown_screen() == Some((title@, content@)),
                None => self.shown_screen() is None,
            },
    {
        match &self.last_screen {
            Some((title, content)) => Some((title.clone(), content.clone())),
            None => None,
        }
    }

    /// The prompt and the options of the list shown last, if any was shown.
    pub fn last_list(&self) -> (r: Option<(String, Vec<String>)>)
        ensures
            match r {
                Some((prompt, options)) => self.shown_prompt() == Some(prompt@)
                    && self.shown_options() == Some(options@),
                None => self.shown_prompt() is None && self.shown_options() is None,
            },
    {
        match &self.last_list {
            Some((prompt, options)) => Some((prompt.clone(), copy_strings(options.as_slice()))),
            None => None,
        }
    }

    /// Remembers `list` and takes the next answer off the script.
    fn answer(&mut self, list: &OptionList) -> (r: Option<Option<usize>>)
        ensures
            final(self).shown_prompt() == Some(list.prompt@),
            final(self).shown_options() == Some(list.options@),
            final(self).shown_screen() == old(self).shown_screen(),
            if old(self).script().len() > 0 {
                r == Some(old(self).script()[0]) && final(self).script() == old(self).script().drop_first()
            } else {
                r is None && final(self).script() == old(self).script()
            },
    {
        self.last_list = Some((String::from_str(list.prompt), copy_strings(list.options)));
        let r = self.numbers_to_produce.pop_front();
        assert(self.numbers_to_produce@ =~= if old(self).script().len() > 0 {
            old(self).script().drop_first()
        } else {
            old(self).script()
        });
        r
    }
}

impl Menu for MockMenu {
    /// The screen is remembered, the script is left alone, and the answer is
    /// that all went well.
    open spec fn screen_shown(
        before: Self,
        after: Self,
        title: Seq<char>,
        content: Seq<char>,
        result: Result<(), Error>,
    ) -> bool {
        &&& result is Ok
        &&& after.shown_screen() == Some((title, content))
        &&& after.script() == before.script()
        &&& after.shown_prompt() == before.shown_prompt()
        &&& after.shown_options() == before.shown_options()
    }

    /// The list is remembered and the next answer is taken off the script.
    /// The answer is that of the script, if the script has one left that
    /// names one of the options; else it is an error.
    open spec fn list_shown(
        before: Self,
        after: Self,
        options: Seq<Seq<char>>,
        prompt: Seq<char>,
        result: Result<usize, Error>,
    ) -> bool {
        &&& Self::asked(before, after, options, prompt)
        &&& result is Ok <==> before.script().len() > 0 && before.script()[0] is Some
            && before.script()[0]->0 < options.len()
        &&& result is Ok ==> Some(result->Ok_0) == before.script()[0]
    }

    /// The list is remembered and the next answer is taken off the script.
    /// The answer is that of the script, if the script has one left that
    /// cancels or names one of the options; else it is an error.
    open spec fn cancellable_list_shown(
        before: Self,
        after: Self,
        options: Seq<Seq<char>>,
        prompt: Seq<char>,
        result: Result<Option<usize>, Error>,
    ) -> bool {
        &&& Self::asked(before, after, options, prompt)
        &&& result is Ok <==> before.script().len() > 0 && (before.script()[0] is Some
            ==> before.script()[0]->0 < options.len())
        &&& result is Ok ==> result->Ok_0 == before.script()[0]
    }

    /// A menu with an empty script.
    fn new() -> (r: Result<Self, std::io::Error>)
        ensures
            r matches Ok(menu) && menu.script().len() == 0 && menu.shown_screen() is None,
    {
        Ok(Self { last_screen: None, last_list: None, numbers_to_produce: VecDeque::new() })
    }

    /// Remembers the list and gives the next answer of the script. It is an
    /// error if the script has run out, if its next answer is to cancel, or
    /// if the list has no option at the place that the answer names.
    fn try_show_option_list(&mut self, list: OptionList) -> (r: Result<usize, Error>) {
        match self.answer(&list) {
            Some(Some(number)) => {
                if number < list.options.len() {
                    Ok(number)
                } else {
                    Err(Error::Io(script_failed()))
                }
            },
            _ => Err(Error::Io(script_failed())),
        }
    }

    /// Remembers the list and gives the next answer of the script. It is an
    /// error if the script has run out, or if the list has no option at the
    /// place that the answer names.
    fn try_show_option_list_cancellable(&mut self, list: OptionList) -> (r: Result<
        Option<usize>,
        Error,
    >) {
        match self.answer(&list) {
            Some(Some(number)) => {
                if number < list.options.len() {
                    Ok(Some(number))
                } else {
                    Err(Error::Io(script_failed()))
                }
            },
            Some(None) => Ok(None),
            None => Err(Error::Io(script_failed())),
        }
    }

    /// Remembers the screen.
    fn try_show_screen(&mut self, screen: Screen) -> (r: Result<(), Error>) {
        self.last_screen = Some((String::from_str(screen.title), String::from_str(screen.content)));
        Ok(())
    }
}

} // verus!
