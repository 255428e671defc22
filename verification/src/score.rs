use vstd::prelude::*;

verus! {

/// `String::push` of std appends one character to the end of the string.
pub assume_specification[ String::push ](s: &mut String, ch: char)
    ensures
        final(s)@ == old(s)@.push(ch),
;

/// How many digits the score shows at least.
pub const SCORE_WIDTH: usize = 3;

/// The obstacles passed so far.
#[derive(Debug, Clone, Copy, PartialEq, Eq, Structural)]
pub struct Score(pub u32);

impl Default for Score {
    fn default() -> (score: Self)
        ensures
            score.0 == 0,
    {
        Score(0)
    }
}

/// Whether an obstacle earns its point in this frame: it has passed the player
/// and has not been counted before.
pub open spec fn scores_now(counted: bool, passed: bool) -> bool {
    !counted && passed
}

/// Whether an obstacle is marked as counted after the given frames, each of which
/// says whether the obstacle had passed the player in it.
pub open spec fn counted_after(counted: bool, frames: Seq<bool>) -> bool
    decreases frames.len(),
{
    if frames.len() == 0 {
        counted
    } else {
        counted_after(counted, frames.drop_last()) || frames.last()
    }
}

/// The points that one obstacle earns over the given frames.
pub open spec fn points_after(counted: bool, frames: Seq<bool>) -> nat
    decreases frames.len(),
{
    if frames.len() == 0 {
        0
    } else {
        let before = points_after(counted, frames.drop_last());
        if scores_now(counted_after(counted, frames.drop_last()), frames.last()) {
            before + 1
        } else {
            before
        }
    }
}

/// An obstacle earns one point in all, however many frames see it beyond the
/// player: one if any frame does and it was not counted before, none otherwise.
pub proof fn lemma_counted_once(counted: bool, frames: Seq<bool>)
    ensures
        counted_after(counted, frames) == (counted || exists|i: int|
            0 <= i < frames.len() && frames[i]),
        points_after(counted, frames) == if !counted && exists|i: int|
            0 <= i < frames.len() && frames[i] {
            1nat
        } else {
            0nat
        },
    decreases frames.len(),
{
    if frames.len() > 0 {
        let head = frames.drop_last();
        lemma_counted_once(counted, head);
        if exists|i: int| 0 <= i < head.len() && head[i] {
            let i = choose|i: int| 0 <= i < head.len() && head[i];
            assert(frames[i]);
        }
        if frames.last() {
            assert(frames[frames.len() - 1]);
        }
        if exists|i: int| 0 <= i < frames.len() && frames[i] {
            let i = choose|i: int| 0 <= i < frames.len() && frames[i];
            if i < head.len() {
                assert(head[i]);
            }
        }
    }
}

/// The character for one decimal digit.
pub open spec fn digit_char(d: nat) -> char {
    if d == 0 {
        '0'
    } else if d == 1 {
        '1'
    } else if d == 2 {
        '2'
    } else if d == 3 {
        '3'
    } else if d == 4 {
        '4'
    } else if d == 5 {
        '5'
    } else if d == 6 {
        '6'
    } else if d == 7 {
        '7'
    } else if d == 8 {
        '8'
    } else {
        '9'
    }
}

/// The decimal digits of `n`, the highest first, without leading zeros.
pub open spec fn digits(n: nat) -> Seq<char>
    decreases n,
{
    if n < 10 {
        seq![digit_char(n)]
    } else {
        digits(n / 10).push(digit_char(n % 10))
    }
}

/// The digits of `n`, with zeros in front where there are fewer than `width`.
pub open spec fn padded(n: nat, width: nat) -> Seq<char> {
    if digits(n).len() >= width {
        digits(n)
    } else {
        Seq::new((width - digits(n).len()) as nat, |i: int| '0') + digits(n)
    }
}

/// What the score display reads for `n` points.
pub open spec fn label_text(n: nat) -> Seq<char> {
    "SCORE: "@ + padded(n, SCORE_WIDTH as nat)
}

/// The character for one decimal digit.
fn digit(d: u32) -> (c: char)
    requires
        d < 10,
    ensures
        c == digit_char(d as nat),
{
    if d == 0 {
        '0'
    } else if d == 1 {
        '1'
    } else if d == 2 {
        '2'
    } else if d == 3 {
        '3'
    } else if d == 4 {
        '4'
    } else if d == 5 {
        '5'
    } else if d == 6 {
        '6'
    } else if d == 7 {
        '7'
    } else if d == 8 {
        '8'
    } else {
        '9'
    }
}

impl Score {
    /// The points so far.
    pub fn value(&self) -> (value: u32)
        ensures
            value == self.0,
    {
        self.0
    }

    /// Looks at one obstacle in one frame. `counted` says whether it was counted
    /// before, `passed` whether it is level with the player or beyond.
    ///
    /// Returns whether the obstacle earns its point now, and is to be marked as
    /// counted; the score goes up by one exactly then.
    pub fn count(&mut self, counted: bool, passed: bool) -> (now: bool)
        requires
            scores_now(counted, passed) ==> old(self).0 < u32::MAX,
        ensures
            now == scores_now(counted, passed),
            now ==> final(self).0 == old(self).0 + 1,
            !now ==> final(self).0 == old(self).0,
    {
        if counted {
            return false;
        }
        if !passed {
            return false;
        }
        self.0 = self.0 + 1;
        true
    }

    /// The text of the score display: the points in decimal, with zeros in front
    /// up to three digits.
    pub fn label(&self) -> (text: String)
        ensures
            text@ == label_text(self.0 as nat),
    {
        let ghost n = self.0 as nat;
        let mut low_first: Vec<char> = Vec::new();
        let mut rest: u32 = self.0;
        while rest >= 10
            invariant
                digits(n) == digits(rest as nat) + low_first@.reverse(),
            decreases rest,
        {
            let ghost before = low_first@;
            low_first.push(digit(rest % 10));
            proof {
                let d = digit_char((rest % 10) as nat);
                assert(low_first@.reverse() =~= seq![d] + before.reverse());
                assert(digits((rest / 10) as nat).push(d) + before.reverse() =~= digits(
                    (rest / 10) as nat,
                ) + (seq![d] + before.reverse()));
            }
            rest = rest / 10;
        }
        let ghost before = low_first@;
        low_first.push(digit(rest));
        proof {
            let d = digit_char(rest as nat);
            assert(low_first@.reverse() =~= seq![d] + before.reverse());
            assert(low_first@.reverse() =~= digits(n));
        }
        let ghost shown = digits(n).len();
        while low_first.len() < SCORE_WIDTH
            invariant
                shown == digits(n).len(),
                low_first@.len() >= shown,
                low_first@.len() == shown || low_first@.len() <= SCORE_WIDTH,
                low_first@.reverse() == Seq::new((low_first@.len() - shown) as nat, |i: int| '0')
                    + digits(n),
            decreases SCORE_WIDTH - low_first.len(),
        {
            let ghost before = low_first@;
            low_first.push('0');
            assert(low_first@.reverse() =~= Seq::new(
                (low_first@.len() - shown) as nat,
                |i: int| '0',
            ) + digits(n)) by {
                assert(low_first@.reverse() =~= seq!['0'] + before.reverse());
            }
        }
        assert(low_first@.reverse() =~= padded(n, SCORE_WIDTH as nat));
        let mut text = "SCORE: ".to_owned();
        let mut i: usize = low_first.len();
        while i > 0
            invariant
                i <= low_first@.len(),
                text@ == "SCORE: "@ + low_first@.reverse().take(low_first@.len() - i),
            decreases i,
        {
            i = i - 1;
            let ghost before = text@;
            text.push(low_first[i]);
            assert(text@ =~= "SCORE: "@ + low_first@.reverse().take(low_first@.len() - i));
        }
        assert(low_first@.reverse().take(low_first@.len() as int) =~= low_first@.reverse());
        text
    }
}

} // verus!
