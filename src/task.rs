use vstd::prelude::*;

verus! {

/// One unit of work for the worker. Each variant that expects an answer owns
/// the reply slot it is answered through: `S` for a score, `E` for a list of
/// entities, `N` for the echo of a number. The slots are the caller's own and
/// are never shared.
pub enum Task<S, E, N> {
    /// Writes a line to the worker's log; nobody waits for it.
    Echo(String),
    /// Scores a text for a prompt-injection attempt.
    ScorePromptInjection(String, S),
    /// Scores a text for toxicity.
    ScoreToxicity(String, S),
    /// Extracts the named entities of a text.
    PII(String, E),
    /// Answers with the number it carries, without touching the runtime.
    Test(i32, N),
    /// Tells the worker to stop; it carries no reply slot.
    Stop,
}

/// A scoring capability of the native runtime.
#[derive(Clone, Copy, Debug, PartialEq, Eq, Structural)]
pub enum Scorer {
    PromptInjection,
    Toxicity,
}

impl<S, E, N> Task<S, E, N> {
    /// A task that scores `text` for a prompt-injection attempt.
    pub fn score_prompt_injection(text: String, reply: S) -> (r: Self)
        ensures
            r == Task::<S, E, N>::ScorePromptInjection(text, reply),
    {
        Task::ScorePromptInjection(text, reply)
    }

    /// A task that scores `text` for toxicity.
    pub fn score_toxicity(text: String, reply: S) -> (r: Self)
        ensures
            r == Task::<S, E, N>::ScoreToxicity(text, reply),
    {
        Task::ScoreToxicity(text, reply)
    }

    /// A task that extracts the entities of `text`.
    pub fn extract_pii(text: String, reply: E) -> (r: Self)
        ensures
            r == Task::<S, E, N>::PII(text, reply),
    {
        Task::PII(text, reply)
    }
}

} // verus!
