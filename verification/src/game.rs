use colored::Colorize;
use vstd::prelude::*;

verus! {

/// Length every secret word and every accepted guess must have.
pub const WORD_LENGTH: usize = 5;

/// Maximum number of guesses a single game allows.
pub const MAX_TRIES: usize = 6;

/// Classification of one guessed letter against the secret word.
#[derive(Clone, Copy, Debug, PartialEq, Eq, Structural)]
pub enum Category {
    /// The letter matches the secret at the same position.
    Exact,
    /// The letter occurs in the secret, but not at this position.
    Present,
    /// The letter does not occur in the secret at all.
    Absent,
}

/// The category of the guessed letter at position `i`, per the simplified
/// scorer: positions are judged independently, with no duplicate-letter
/// accounting (a letter of the secret may justify `Present` at several
/// positions of the guess).
pub open spec fn spec_category(secret: Seq<char>, guess: Seq<char>, i: int) -> Category {
    if guess[i] == secret[i] {
        Category::Exact
    } else if secret.contains(guess[i]) {
        Category::Present
    } else {
        Category::Absent
    }
}

fn str_contains_char(s: &str, c: char) -> (r: bool)
    ensures
        r == s@.contains(c),
{
    let n = s.unicode_len();
    let mut i: usize = 0;
    while i < n
        invariant
            i <= n,
            n == s@.len(),
            forall|j: int| 0 <= j < i ==> s@[j] != c,
        decreases n - i,
    {
        if s.get_char(i) == c {
            return true;
        }
        i = i + 1;
    }
    false
}

/// Score a guess against the secret, position by position.
pub fn score_guess(secret: &str, guess: &str) -> (fb: Vec<Category>)
    requires
        secret@.len() == guess@.len(),
    ensures
        fb@.len() == guess@.len(),
        forall|i: int| 0 <= i < fb@.len() ==> fb@[i] == spec_category(secret@, guess@, i),
{
    let n = guess.unicode_len();
    let mut fb: Vec<Category> = Vec::new();
    let mut i: usize = 0;
    while i < n
        invariant
            i <= n,
            n == guess@.len(),
            secret@.len() == guess@.len(),
            fb@.len() == i,
            forall|j: int| 0 <= j < i ==> fb@[j] == spec_category(secret@, guess@, j),
        decreases n - i,
    {
        let c = guess.get_char(i);
        let cat = if secret.get_char(i) == c {
            Category::Exact
        } else if str_contains_char(secret, c) {
            Category::Present
        } else {
            Category::Absent
        };
        fb.push(cat);
        i = i + 1;
    }
    fb
}

/// The two shapes styled text can take: the bare character when coloring is
/// disabled, or the character between the style's escape prefix and the
/// reset suffix.
pub open spec fn styled_with(prefix: Seq<char>, c: char, r: Seq<char>) -> bool {
    r == seq![c] || r == prefix + seq![c] + "\x1B[0m"@
}

/// Escape prefix for an exact match: bold, bright green.
pub open spec fn exact_prefix() -> Seq<char> {
    "\x1B[1;92m"@
}

/// Escape prefix for a present letter: bold, yellow.
pub open spec fn present_prefix() -> Seq<char> {
    "\x1B[1;33m"@
}

/// Escape prefix for an absent letter: bold, red.
pub open spec fn absent_prefix() -> Seq<char> {
    "\x1B[1;31m"@
}

/// Relies on colored::Colorize::bright_green, colored::ColoredString::bold
/// and the Display impl of ColoredString: the output is the bare character
/// when coloring is disabled, and otherwise the character wrapped in the
/// bold-bright-green escape prefix and the reset suffix; either way the
/// character itself remains in the output.
#[verifier::external_body]
fn style_exact(c: char) -> (r: String)
    ensures
        r@.contains(c),
        styled_with(exact_prefix(), c, r@),
{
    format!("{}", c).bright_green().bold().to_string()
}

/// Relies on colored::Colorize::yellow, colored::ColoredString::bold and the
/// Display impl of ColoredString: the bare character, or the character
/// wrapped in the bold-yellow escape prefix and the reset suffix.
#[verifier::external_body]
fn style_present(c: char) -> (r: String)
    ensures
        r@.contains(c),
        styled_with(present_prefix(), c, r@),
{
    format!("{}", c).yellow().bold().to_string()
}

/// Relies on colored::Colorize::red, colored::ColoredString::bold and the
/// Display impl of ColoredString: the bare character, or the character
/// wrapped in the bold-red escape prefix and the reset suffix.
#[verifier::external_body]
fn style_absent(c: char) -> (r: String)
    ensures
        r@.contains(c),
        styled_with(absent_prefix(), c, r@),
{
    format!("{}", c).red().bold().to_string()
}

/// Map one guessed letter and its category to the styled text that displays
/// it: exact matches bright green, present letters yellow, absent letters
/// red, all bold. Whatever the terminal settings, the letter itself is in
/// the text.
pub fn render_letter(c: char, cat: Category) -> (r: String)
    ensures
        r@.contains(c),
        cat == Category::Exact ==> styled_with(exact_prefix(), c, r@),
        cat == Category::Present ==> styled_with(present_prefix(), c, r@),
        cat == Category::Absent ==> styled_with(absent_prefix(), c, r@),
{
    match cat {
        Category::Exact => style_exact(c),
        Category::Present => style_present(c),
        Category::Absent => style_absent(c),
    }
}

/// One game of guessing a fixed secret word.
pub struct WordleGame {
    word: String,
    guesses: Vec<String>,
}

impl WordleGame {
    /// The secret word.
    pub closed spec fn word_spec(&self) -> Seq<char> {
        self.word@
    }

    /// The guesses made so far, oldest first.
    pub closed spec fn guesses_spec(&self) -> Seq<Seq<char>> {
        self.guesses@.map_values(|g: String| g@)
    }

    /// The game is complete when the most recent guess equals the secret.
    pub open spec fn spec_is_complete(&self) -> bool {
        self.guesses_spec().len() > 0 && self.guesses_spec().last() == self.word_spec()
    }

    /// Another turn is available while the game is incomplete and fewer than
    /// `MAX_TRIES` guesses have been made.
    pub open spec fn spec_has_next(&self) -> bool {
        self.guesses_spec().len() < MAX_TRIES && !self.spec_is_complete()
    }

    /// The history never holds more than `MAX_TRIES` guesses.
    pub open spec fn wf(&self) -> bool {
        self.guesses_spec().len() <= MAX_TRIES
    }

    /// Start a game around the given secret word, with an empty history.
    pub fn new(word: String) -> (g: WordleGame)
        ensures
            g.word_spec() == word@,
            g.guesses_spec() =~= Seq::<Seq<char>>::empty(),
            g.wf(),
    {
        WordleGame { word, guesses: Vec::new() }
    }

    /// How many guesses have been made so far.
    pub fn guess_count(&self) -> (n: usize)
        ensures
            n == self.guesses_spec().len(),
    {
        self.guesses.len()
    }

    /// Whether the most recent guess equals the secret word.
    pub fn is_complete(&self) -> (r: bool)
        ensures
            r == self.spec_is_complete(),
    {
        if self.guesses.len() > 0 {
            let last: &String = &self.guesses[self.guesses.len() - 1];
            *last == self.word
        } else {
            false
        }
    }

    /// Whether the player still has a turn to take.
    pub fn has_next(&self) -> (r: bool)
        ensures
            r == self.spec_has_next(),
    {
        self.guesses.len() < MAX_TRIES && !self.is_complete()
    }

    /// Take a turn: append the guess to the history and score it against the
    /// secret.
    pub fn next(&mut self, word: String) -> (fb: Vec<Category>)
        requires
            old(self).spec_has_next(),
            word@.len() == old(self).word_spec().len(),
        ensures
            final(self).word_spec() == old(self).word_spec(),
            final(self).guesses_spec() =~= old(self).guesses_spec().push(word@),
            final(self).wf(),
            fb@.len() == word@.len(),
            forall|i: int| 0 <= i < fb@.len() ==> fb@[i] == spec_category(
                final(self).word_spec(),
                word@,
                i,
            ),
    {
        let fb = score_guess(self.word.as_str(), word.as_str());
        self.guesses.push(word);
        fb
    }

    /// Styled per-letter feedback for the most recent guess, ready to print.
    pub fn render_last_guess(&self) -> (r: Vec<String>)
        requires
            self.guesses_spec().len() > 0,
            self.guesses_spec().last().len() == self.word_spec().len(),
        ensures
            r@.len() == self.guesses_spec().last().len(),
            forall|i: int| 0 <= i < r@.len() ==> #[trigger] r@[i]@.contains(
                self.guesses_spec().last()[i],
            ),
    {
        let last: &String = &self.guesses[self.guesses.len() - 1];
        let fb = score_guess(self.word.as_str(), last.as_str());
        let n = last.as_str().unicode_len();
        let mut out: Vec<String> = Vec::new();
        let mut i: usize = 0;
        while i < n
            invariant
                i <= n,
                n == self.guesses_spec().last().len(),
                n == fb@.len(),
                last@ == self.guesses_spec().last(),
                out@.len() == i,
                forall|j: int| 0 <= j < i ==> #[trigger] out@[j]@.contains(
                    self.guesses_spec().last()[j],
                ),
            decreases n - i,
        {
            let c = last.as_str().get_char(i);
            out.push(render_letter(c, fb[i]));
            i = i + 1;
        }
        out
    }
}

/// While a turn is still available the history is strictly under the bound,
/// so taking that turn never pushes the history past `MAX_TRIES`: whatever
/// further input arrives, a game built of such turns keeps at most
/// `MAX_TRIES` guesses.
pub proof fn lemma_history_bounded(before: WordleGame, after: WordleGame, guess: Seq<char>)
    requires
        before.spec_has_next(),
        after.guesses_spec() == before.guesses_spec().push(guess),
    ensures
        after.wf(),
{
}

/// With the history full — `MAX_TRIES` guesses made — no further turn is
/// available, whatever the guesses and the secret were: the turn loop issues
/// no further prompt.
pub proof fn lemma_no_turn_when_history_full(g: WordleGame)
    requires
        g.guesses_spec().len() == MAX_TRIES,
    ensures
        !g.spec_has_next(),
{
}

/// Every position of the feedback is `Exact` exactly when the guessed letter
/// equals the secret's letter at that position.
pub proof fn lemma_feedback_exact_iff(secret: Seq<char>, guess: Seq<char>, i: int)
    requires
        secret.len() == guess.len(),
        0 <= i < guess.len(),
    ensures
        spec_category(secret, guess, i) == Category::Exact <==> guess[i] == secret[i],
{
}

/// At a position that is not `Exact`, the feedback is `Present` exactly when
/// the secret contains the guessed letter anywhere, and `Absent` otherwise.
pub proof fn lemma_feedback_present_iff(secret: Seq<char>, guess: Seq<char>, i: int)
    requires
        secret.len() == guess.len(),
        0 <= i < guess.len(),
        spec_category(secret, guess, i) != Category::Exact,
    ensures
        spec_category(secret, guess, i) == Category::Present <==> secret.contains(guess[i]),
        spec_category(secret, guess, i) == Category::Absent <==> !secret.contains(guess[i]),
{
}

} // verus!
