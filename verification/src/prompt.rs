//! Sections, prompts, and the canonical text rendering.

use vstd::prelude::*;
use vstd::string::StringExecFns;

verus! {

/// The mathematical model of one prompt section: its kind together with the
/// payload text, as a sequence of characters.
#[verifier::ext_equal]
pub enum SectionModel {
    Goal(Seq<char>),
    Role(Seq<char>),
    Step(Seq<char>),
    Output(Seq<char>),
}

/// One labeled unit of prompt content. The variant tag is fixed at
/// construction; the payload is arbitrary text, the empty string included.
#[derive(Debug, Clone)]
pub enum PromptSection {
    /// The main goal or objective.
    Goal(String),
    /// The role or persona for the model.
    Role(String),
    /// One specific instruction.
    Step(String),
    /// The desired output format.
    Output(String),
}

impl View for PromptSection {
    type V = SectionModel;

    open spec fn view(&self) -> SectionModel {
        match self {
            PromptSection::Goal(t) => SectionModel::Goal(t@),
            PromptSection::Role(t) => SectionModel::Role(t@),
            PromptSection::Step(t) => SectionModel::Step(t@),
            PromptSection::Output(t) => SectionModel::Output(t@),
        }
    }
}

/// The rendered form of one section: its fixed label, a colon and a space,
/// then the payload text unmodified.
pub open spec fn section_line(s: SectionModel) -> Seq<char> {
    match s {
        SectionModel::Goal(t) => "Goal: "@ + t,
        SectionModel::Role(t) => "Role: "@ + t,
        SectionModel::Step(t) => "Step: "@ + t,
        SectionModel::Output(t) => "Output: "@ + t,
    }
}

/// The canonical rendering of a whole prompt: one line per section, in
/// order, joined by single newlines, with no trailing newline. An empty
/// prompt renders to the empty string.
pub open spec fn rendered(sections: Seq<SectionModel>) -> Seq<char>
    decreases sections.len(),
{
    if sections.len() == 0 {
        Seq::empty()
    } else if sections.len() == 1 {
        section_line(sections[0])
    } else {
        rendered(sections.drop_last()) + "\n"@ + section_line(sections.last())
    }
}

/// An ordered sequence of sections with a canonical text rendering.
/// Insertion order is preserved exactly; there is no deduplication,
/// reordering, or length cap.
#[derive(Debug, Clone)]
pub struct Prompt {
    sections: Vec<PromptSection>,
}

impl View for Prompt {
    type V = Seq<SectionModel>;

    closed spec fn view(&self) -> Seq<SectionModel> {
        self.sections@.map_values(|s: PromptSection| s@)
    }
}

impl Default for Prompt {
    /// The default prompt is empty, as [`Prompt::new`] gives it.
    fn default() -> (p: Prompt)
        ensures
            p@ == Seq::<SectionModel>::empty(),
    {
        Prompt::new()
    }
}

impl Prompt {
    /// Creates a prompt with no sections.
    pub fn new() -> (p: Prompt)
        ensures
            p@ == Seq::<SectionModel>::empty(),
    {
        let p = Prompt { sections: Vec::new() };
        proof {
            assert(p@ =~= Seq::<SectionModel>::empty());
        }
        p
    }

    /// Appends one section at the end, keeping all earlier sections in place.
    pub(crate) fn add_section(&mut self, section: PromptSection)
        ensures
            final(self)@ == old(self)@.push(section@),
    {
        let ghost prev = self.sections@;
        self.sections.push(section);
        proof {
            assert(self@ =~= prev.map_values(|s: PromptSection| s@).push(self.sections@.last()@));
        }
    }

    /// The number of sections this prompt holds.
    pub fn section_count(&self) -> (n: usize)
        ensures
            n == self@.len(),
    {
        self.sections.len()
    }

    /// Returns the section at position `i`, counting from zero in insertion
    /// order.
    pub fn section_at(&self, i: usize) -> (s: &PromptSection)
        requires
            i < self@.len(),
        ensures
            s@ == self@[i as int],
    {
        &self.sections[i]
    }

    /// Produces the canonical text form of this prompt: one `Label: payload`
    /// line per section in insertion order, joined by single newlines, with
    /// no trailing newline. The result is a pure function of the section
    /// sequence alone: rendering mutates nothing, and any two renderings of
    /// equal prompts yield identical text.
    pub fn render(&self) -> (r: String)
        ensures
            r@ == rendered(self@),
    {
        let mut out = String::new();
        let mut i: usize = 0;
        while i < self.sections.len()
            invariant
                i <= self.sections.len(),
                self.sections@.map_values(|s: PromptSection| s@) == self@,
                out@ == rendered(self@.take(i as int)),
            decreases self.sections.len() - i,
        {
            if i > 0 {
                out.append("\n");
            }
            match &self.sections[i] {
                PromptSection::Goal(t) => {
                    out.append("Goal: ");
                    out.append(t.as_str());
                }
                PromptSection::Role(t) => {
                    out.append("Role: ");
                    out.append(t.as_str());
                }
                PromptSection::Step(t) => {
                    out.append("Step: ");
                    out.append(t.as_str());
                }
                PromptSection::Output(t) => {
                    out.append("Output: ");
                    out.append(t.as_str());
                }
            }
            proof {
                let taken = self@.take(i as int);
                lemma_rendered_push(taken, self@[i as int]);
                assert(taken.push(self@[i as int]) =~= self@.take(i as int + 1));
                assert(out@ =~= rendered(self@.take(i as int + 1)));
            }
            i += 1;
        }
        proof {
            assert(self@.take(self.sections@.len() as int) =~= self@);
        }
        out
    }
}

/// Order preservation: appending a section to any prompt appends exactly its
/// rendered line at the end of the rendered text, after a newline when the
/// prompt was non-empty; nothing earlier is reordered or merged.
pub proof fn lemma_rendered_push(s: Seq<SectionModel>, sec: SectionModel)
    ensures
        rendered(s.push(sec)) == (if s.len() == 0 {
            section_line(sec)
        } else {
            rendered(s) + "\n"@ + section_line(sec)
        }),
{
    let p = s.push(sec);
    if s.len() == 0 {
        assert(p[0] == sec);
    } else {
        assert(p.drop_last() =~= s);
        assert(p.last() == sec);
    }
}

/// An empty prompt renders to the empty string.
pub proof fn lemma_rendered_empty()
    ensures
        rendered(Seq::<SectionModel>::empty()) == Seq::<char>::empty(),
{
}

} // verus!
