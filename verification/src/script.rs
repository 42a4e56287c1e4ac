//! A renderer that replays a fixed list of replies and keeps every line it
//! is asked to show, for running a challenge without a terminal.

use vstd::prelude::*;
use vstd::string::*;
use crate::challenge::{Challenge, ChallengeError, ChallengeType, Renderer, RendererError, Reply};

verus! {

/// `std::io::Error::from` on `std::io::ErrorKind::UnexpectedEof`: the error
/// that stands for a script with no reply left. Nothing is claimed of it.
#[verifier::external_body]
fn out_of_replies() -> std::io::Error {
    std::io::Error::from(std::io::ErrorKind::UnexpectedEof)
}

/// Replies to hand out in order, the position of the next one, and the
/// lines shown so far: questions and hints as they are, a verdict as
/// `Correct` or `Incorrect`. The replies are handed out as they stand, so
/// a script holds them trimmed and in lower case.
#[derive(Debug)]
pub struct Script {
    pub replies: Vec<String>,
    pub next: usize,
    pub shown: Vec<String>,
}

/// The texts of a list of strings.
pub open spec fn lines(strings: Seq<String>) -> Seq<Seq<char>> {
    Seq::new(strings.len(), |i: int| strings[i]@)
}

/// The line that stands for a verdict.
pub open spec fn verdict_line(correct: bool) -> Seq<char> {
    if correct {
        "Correct"@
    } else {
        "Incorrect"@
    }
}

/// Whether a reply is a guess that is marked right.
pub open spec fn solves(answer: ChallengeType, reply: Seq<char>) -> bool {
    reply != "peek"@ && answer.verdict(reply) == Some(true)
}

/// The line shown in return for a reply: the answer for `peek`, a verdict
/// for anything else.
pub open spec fn reaction(answer: ChallengeType, reply: Seq<char>) -> Seq<char> {
    if reply == "peek"@ {
        answer.shown()
    } else {
        verdict_line(answer.verdict(reply) == Some(true))
    }
}

/// Whether some reply of the list solves the challenge.
pub open spec fn solved(answer: ChallengeType, replies: Seq<Seq<char>>) -> bool
    decreases replies.len(),
{
    if replies.len() == 0 {
        false
    } else if solves(answer, replies[0]) {
        true
    } else {
        solved(answer, replies.drop_first())
    }
}

/// The lines shown while the replies come in: one per reply, up to and
/// including the first guess that is marked right.
pub open spec fn transcript(answer: ChallengeType, replies: Seq<Seq<char>>) -> Seq<Seq<char>>
    decreases replies.len(),
{
    if replies.len() == 0 {
        Seq::empty()
    } else if solves(answer, replies[0]) {
        seq![reaction(answer, replies[0])]
    } else {
        seq![reaction(answer, replies[0])] + transcript(answer, replies.drop_first())
    }
}

/// How many replies are taken: all of them, or those up to and including
/// the first guess that is marked right.
pub open spec fn turns(answer: ChallengeType, replies: Seq<Seq<char>>) -> nat
    decreases replies.len(),
{
    if replies.len() == 0 {
        0
    } else if solves(answer, replies[0]) {
        1
    } else {
        1 + turns(answer, replies.drop_first())
    }
}

impl Script {
    /// The replies that have not been handed out yet.
    pub open spec fn pending(&self) -> Seq<Seq<char>> {
        if self.next <= self.replies@.len() {
            lines(self.replies@).skip(self.next as int)
        } else {
            Seq::empty()
        }
    }

    /// A script at its start, with nothing shown.
    pub fn new(replies: Vec<String>) -> (r: Script)
        ensures
            r.replies == replies,
            r.next == 0,
            r.shown@.len() == 0,
            r.pending() == lines(replies@),
    {
        let script = Script { replies, next: 0, shown: Vec::new() };
        assert(script.pending() =~= lines(script.replies@));
        script
    }

    /// Keeps one more line.
    fn show(&mut self, line: String)
        ensures
            final(self).replies == old(self).replies,
            final(self).next == old(self).next,
            lines(final(self).shown@) == lines(old(self).shown@).push(line@),
    {
        self.shown.push(line);
        assert(lines(self.shown@) =~= lines(old(self).shown@).push(line@));
    }

    /// Shows the question, then answers reply after reply until a guess is
    /// marked right or no reply is left. Succeeds exactly when some pending
    /// reply solves the challenge; the replies after that one stay pending.
    pub fn play(&mut self, challenge: &Challenge) -> (r: Result<(), ChallengeError>)
        ensures
            final(self).replies == old(self).replies,
            lines(final(self).shown@) == lines(old(self).shown@).push(challenge.text())
                + transcript(challenge.key(), old(self).pending()),
            r is Ok <==> solved(challenge.key(), old(self).pending()),
            r matches Err(e) ==> e is RendererError,
            final(self).next == old(self).next + turns(challenge.key(), old(self).pending()),
    {
        let ghost answer = challenge.key();
        let ghost total = lines(self.shown@).push(challenge.text()) + transcript(
            answer,
            self.pending(),
        );
        let ghost goal = solved(answer, self.pending());
        let ghost end = self.next + turns(answer, self.pending());
        self.show(challenge.question().clone());
        while self.next < self.replies.len()
            invariant
                self.replies == old(self).replies,
                answer == challenge.key(),
                total == lines(old(self).shown@).push(challenge.text()) + transcript(
                    answer,
                    old(self).pending(),
                ),
                goal == solved(answer, old(self).pending()),
                end == old(self).next + turns(answer, old(self).pending()),
                self.next + turns(answer, self.pending()) == end,
                lines(self.shown@) + transcript(answer, self.pending()) == total,
                solved(answer, self.pending()) == goal,
            decreases self.replies@.len() - self.next,
        {
            let ghost before = self.pending();
            let ghost lines_before = lines(self.shown@);
            let reply = challenge.respond(self.replies[self.next].as_str());
            self.next = self.next + 1;
            proof {
                assert(before[0] == self.replies@[self.next - 1]@);
                assert(self.pending() =~= before.drop_first());
            }
            match reply {
                Reply::Hint(hint) => {
                    self.show(hint);
                },
                Reply::Mark(correct) => {
                    if correct {
                        self.show(String::from_str("Correct"));
                        assert(lines(self.shown@) =~= total);
                        return Ok(());
                    }
                    self.show(String::from_str("Incorrect"));
                },
            }
            assert(lines(self.shown@) + transcript(answer, self.pending()) =~= lines_before
                + transcript(answer, before));
        }
        assert(self.pending() =~= Seq::<Seq<char>>::empty());
        assert(lines(self.shown@) =~= total);
        Err(ChallengeError::RendererError(RendererError::IoError(out_of_replies())))
    }
}

impl Renderer for Script {
    /// Keeps the question as a line.
    fn challenge(&mut self, question: &String) -> (r: Result<(), RendererError>)
        ensures
            r is Ok,
            final(self).replies == old(self).replies,
            final(self).next == old(self).next,
            lines(final(self).shown@) == lines(old(self).shown@).push(question@),
    {
        self.show(question.clone());
        Ok(())
    }

    /// Hands out the next reply, and fails when none is left.
    fn response(&mut self) -> (r: Result<String, RendererError>)
        ensures
            final(self).replies == old(self).replies,
            final(self).shown == old(self).shown,
            old(self).next < old(self).replies@.len() ==> final(self).next == old(self).next + 1
                && r is Ok && r->Ok_0@ == old(self).replies@[old(self).next as int]@,
            old(self).next >= old(self).replies@.len() ==> final(self).next == old(self).next
                && r is Err,
    {
        if self.next < self.replies.len() {
            let reply = self.replies[self.next].clone();
            self.next = self.next + 1;
            Ok(reply)
        } else {
            Err(RendererError::IoError(out_of_replies()))
        }
    }

    /// Keeps the hint as a line.
    fn hint(&mut self, hint: String) -> (r: Result<(), RendererError>)
        ensures
            r is Ok,
            final(self).replies == old(self).replies,
            final(self).next == old(self).next,
            lines(final(self).shown@) == lines(old(self).shown@).push(hint@),
    {
        self.show(hint);
        Ok(())
    }

    /// Keeps the verdict as the line `Correct` or `Incorrect`.
    fn mark(&mut self, result: bool) -> (r: Result<(), RendererError>)
        ensures
            r is Ok,
            final(self).replies == old(self).replies,
            final(self).next == old(self).next,
            lines(final(self).shown@) == lines(old(self).shown@).push(verdict_line(result)),
    {
        if result {
            self.show(String::from_str("Correct"));
        } else {
            self.show(String::from_str("Incorrect"));
        }
        Ok(())
    }
}

/// The word `peek` is never judged: it is answered with the hint and
/// does not end the challenge, whatever the answer is.
pub proof fn lemma_peek_judges_nothing(answer: ChallengeType)
    ensures
        !solves(answer, "peek"@),
        reaction(answer, "peek"@) == answer.shown(),
{
}

/// A guess that cannot be read as the kind of value asked for is answered
/// with `Incorrect` and does not end the challenge.
pub proof fn lemma_unreadable_guess_is_incorrect(answer: ChallengeType, reply: Seq<char>)
    requires
        reply != "peek"@,
        answer.verdict(reply) is None,
    ensures
        !solves(answer, reply),
        reaction(answer, reply) == "Incorrect"@,
{
}

/// However often the solver peeks, the challenge stays open, and every
/// peek is answered with the hint.
pub proof fn lemma_peeking_never_solves(answer: ChallengeType, replies: Seq<Seq<char>>)
    requires
        forall|i: int| 0 <= i < replies.len() ==> replies[i] == "peek"@,
    ensures
        !solved(answer, replies),
        transcript(answer, replies) == Seq::new(replies.len(), |i: int| answer.shown()),
    decreases replies.len(),
{
    if replies.len() > 0 {
        lemma_peeking_never_solves(answer, replies.drop_first());
        assert(transcript(answer, replies) =~= Seq::new(replies.len(), |i: int| answer.shown()));
    } else {
        assert(transcript(answer, replies) =~= Seq::new(replies.len(), |i: int| answer.shown()));
    }
}

} // verus!
