//! The scores of one run, their average, and the lines that report them.

use crate::score::Score;
use vstd::prelude::*;

verus! {

/// The scores gathered in one run. Memory and processor load are always
/// rated; the battery and the processor temperature only where the host
/// offers them.
#[derive(Clone, Copy, Debug)]
pub struct Scorecard {
    pub memory: Score,
    pub cpu: Score,
    pub battery: Option<Score>,
    pub temperature: Option<Score>,
}

/// An optional score as a sequence of no or one element.
pub open spec fn present(score: Option<Score>) -> Seq<Score> {
    match score {
        Some(s) => seq![s],
        None => Seq::empty(),
    }
}

/// The rank of an optional score, counting an absent one as zero.
pub open spec fn optional_rank(score: Option<Score>) -> int {
    match score {
        Some(s) => s.rank(),
        None => 0,
    }
}

/// A report line: a label followed by the name of a score.
pub open spec fn line(label: Seq<char>, score: Score) -> Seq<char> {
    label + score.name()
}

/// The report line of an optional score: none where the score is absent.
pub open spec fn optional_line(label: Seq<char>, score: Option<Score>) -> Seq<Seq<char>> {
    match score {
        Some(s) => seq![line(label, s)],
        None => Seq::empty(),
    }
}

impl Scorecard {
    /// The scores that enter the average: memory, processor load, then the
    /// battery and the temperature where present.
    pub open spec fn listed(self) -> Seq<Score> {
        seq![self.memory, self.cpu] + present(self.battery) + present(self.temperature)
    }

    /// How many scores are present.
    pub open spec fn count(self) -> int {
        2 + (if self.battery is Some { 1int } else { 0int }) + (if self.temperature is Some {
            1int
        } else {
            0int
        })
    }

    /// The ranks of the scores present, added up.
    pub open spec fn rank_total(self) -> int {
        self.memory.rank() + self.cpu.rank() + optional_rank(self.battery) + optional_rank(
            self.temperature,
        )
    }

    /// The overall score: the mean of the listed scores.
    pub open spec fn overall(self) -> Score {
        Score::mean(self.listed())
    }

    /// The lines of the report, in the order in which they are shown: the
    /// average first, then battery, memory, processor load and temperature,
    /// with no line for an absent score.
    pub open spec fn report(self) -> Seq<Seq<char>> {
        seq![line("- Average Score:    "@, self.overall())] + optional_line(
            "- Battery Score:    "@,
            self.battery,
        ) + seq![
            line("- Memory Score:     "@, self.memory),
            line("- CPU Score:        "@, self.cpu),
        ] + optional_line("- CPU TEMP Score:   "@, self.temperature)
    }

    /// Lists the scores that enter the average.
    pub fn to_vec(&self) -> (scores: Vec<Score>)
        ensures
            scores@ == self.listed(),
    {
        let mut scores: Vec<Score> = Vec::new();
        scores.push(self.memory);
        scores.push(self.cpu);
        if let Some(score) = self.battery {
            scores.push(score);
        }
        if let Some(score) = self.temperature {
            scores.push(score);
        }
        assert(scores@ =~= self.listed());
        scores
    }

    /// Averages the scores that are present.
    pub fn average(&self) -> (score: Score)
        ensures
            score == self.overall(),
    {
        let scores = self.to_vec();
        Score::avg(&scores)
    }

    /// Writes the report, one string per line.
    pub fn lines(&self) -> (out: Vec<String>)
        ensures
            out@.len() == self.report().len(),
            forall|i: int| 0 <= i < out@.len() ==> (#[trigger] out@[i])@ == self.report()[i],
    {
        let mut out: Vec<String> = Vec::new();
        out.push(labelled("- Average Score:    ", self.average()));
        if let Some(score) = self.battery {
            out.push(labelled("- Battery Score:    ", score));
        }
        out.push(labelled("- Memory Score:     ", self.memory));
        out.push(labelled("- CPU Score:        ", self.cpu));
        if let Some(score) = self.temperature {
            out.push(labelled("- CPU TEMP Score:   ", score));
        }
        out
    }
}

/// Joins a label and the name of a score into one line.
fn labelled(label: &str, score: Score) -> (text: String)
    ensures
        text@ == line(label@, score),
{
    let mut text = String::from_str(label);
    let name = score.to_string();
    text.append(name.as_str());
    text
}

} // verus!
