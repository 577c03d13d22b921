//! The fluent, order-preserving prompt builder.

use crate::prompt::Prompt;
use crate::prompt::PromptSection;
use crate::prompt::SectionModel;
use vstd::prelude::*;

verus! {

/// A chainable constructor for a [`Prompt`]. Each append operation consumes
/// the builder by value and returns a distinct successor value holding
/// exactly one more section, so that no two call chains can share builder
/// state. A terminal [`PromptBuilder::build`] yields the finished prompt.
pub struct PromptBuilder {
    prompt: Prompt,
}

impl View for PromptBuilder {
    type V = Seq<SectionModel>;

    closed spec fn view(&self) -> Seq<SectionModel> {
        self.prompt@
    }
}

impl Default for PromptBuilder {
    /// The default builder wraps an empty prompt, as [`PromptBuilder::new`]
    /// gives it.
    fn default() -> (b: PromptBuilder)
        ensures
            b@ == Seq::<SectionModel>::empty(),
    {
        PromptBuilder::new()
    }
}

impl PromptBuilder {
    /// Creates a builder wrapping an empty prompt.
    pub fn new() -> (b: PromptBuilder)
        ensures
            b@ == Seq::<SectionModel>::empty(),
    {
        PromptBuilder { prompt: Prompt::new() }
    }

    /// Appends a goal section. Any text is accepted, the empty string
    /// included; repeated calls all append, none overwrites.
    pub fn goal(self, text: &str) -> (b: PromptBuilder)
        ensures
            b@ == self@.push(SectionModel::Goal(text@)),
    {
        let mut prompt = self.prompt;
        prompt.add_section(PromptSection::Goal(text.to_owned()));
        PromptBuilder { prompt }
    }

    /// Appends a role section, under the same rules as [`PromptBuilder::goal`].
    pub fn role(self, text: &str) -> (b: PromptBuilder)
        ensures
            b@ == self@.push(SectionModel::Role(text@)),
    {
        let mut prompt = self.prompt;
        prompt.add_section(PromptSection::Role(text.to_owned()));
        PromptBuilder { prompt }
    }

    /// Appends a step section, under the same rules as [`PromptBuilder::goal`].
    pub fn step(self, text: &str) -> (b: PromptBuilder)
        ensures
            b@ == self@.push(SectionModel::Step(text@)),
    {
        let mut prompt = self.prompt;
        prompt.add_section(PromptSection::Step(text.to_owned()));
        PromptBuilder { prompt }
    }

    /// Appends an output-format section, under the same rules as
    /// [`PromptBuilder::goal`].
    pub fn output(self, text: &str) -> (b: PromptBuilder)
        ensures
            b@ == self@.push(SectionModel::Output(text@)),
    {
        let mut prompt = self.prompt;
        prompt.add_section(PromptSection::Output(text.to_owned()));
        PromptBuilder { prompt }
    }

    /// Finishes building: consumes the builder and yields the prompt holding
    /// exactly the appended sections, in call order. No validation happens; a
    /// prompt with zero sections is a legal result.
    pub fn build(self) -> (p: Prompt)
        ensures
            p@ == self@,
    {
        self.prompt
    }
}

/// Builder consumption: appending one section yields a successor holding
/// exactly one more section; every earlier section stays at its place, and
/// the new section stands last.
pub proof fn lemma_append_adds_one(s: Seq<SectionModel>, sec: SectionModel)
    ensures
        s.push(sec).len() == s.len() + 1,
        forall|i: int| 0 <= i < s.len() ==> s.push(sec)[i] == s[i],
        s.push(sec).last() == sec,
{
}

} // verus!
