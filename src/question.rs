use rand::Rng;
use vstd::prelude::*;

verus! {

/// One entry of the question bank: the prompt shown, and the answer expected.
#[derive(Debug, Clone)]
pub struct Question {
    pub text: String,
    pub actual: String,
}

/// Why a question bank cannot be used.
#[derive(Debug, Clone, Copy, PartialEq, Eq, Structural)]
pub enum ConfigError {
    /// The bank holds no question, so nothing could ever be asked.
    EmptyBank,
}

/// The question bank of a round, in the order it was configured.
#[derive(Debug)]
pub struct Config {
    pub questions: Vec<Question>,
}

impl Config {
    /// Takes a bank of questions; an empty one is refused.
    pub fn load(questions: Vec<Question>) -> (r: Result<Config, ConfigError>)
        ensures
            questions@.len() == 0 <==> r == Err::<Config, ConfigError>(ConfigError::EmptyBank),
            r matches Ok(c) ==> c.questions@ == questions@,
    {
        if questions.len() == 0 {
            Err(ConfigError::EmptyBank)
        } else {
            Ok(Config { questions })
        }
    }

    pub fn len(&self) -> (r: usize)
        ensures
            r == self.questions@.len(),
    {
        self.questions.len()
    }

    pub fn is_empty(&self) -> (r: bool)
        ensures
            r == (self.questions@.len() == 0),
    {
        self.questions.len() == 0
    }

    /// The question at `index`.
    pub fn pick(&self, index: usize) -> (r: &Question)
        requires
            index < self.questions@.len(),
        ensures
            *r == self.questions@[index as int],
    {
        &self.questions[index]
    }

    /// A question drawn at random, uniformly over the bank; the same one may
    /// come twice in a row.
    pub fn pick_random(&self) -> (r: &Question)
        requires
            self.questions@.len() > 0,
        ensures
            self.questions@.contains(*r),
    {
        let index = random_below(self.questions.len());
        let r = self.pick(index);
        assert(self.questions@[index as int] == *r);
        r
    }
}

impl Default for Config {
    fn default() -> (r: Config)
        ensures
            r.questions@ == Seq::<Question>::empty(),
    {
        Config { questions: Vec::new() }
    }
}

/// Relies on `rand::thread_rng().gen_range(0..n)`: a number drawn from
/// `0..n`. It panics on an empty range, which `requires` rules out.
#[verifier::external_body]
pub(crate) fn random_below(n: usize) -> (r: usize)
    requires
        n > 0,
    ensures
        r < n,
{
    rand::thread_rng().gen_range(0..n)
}

} // verus!
