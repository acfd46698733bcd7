//! Animates the iteration of characters in text components
use vstd::prelude::*;

use std::time::Duration;

verus! {

/// The number of bytes of `text` in UTF-8, as the string reports it
pub open spec fn text_byte_len(text: Seq<char>) -> usize {
    vstd::utf8::encode_utf8(text).len() as usize
}

/// The first `count` characters of `text`, or all of them when it has fewer
pub open spec fn first_chars(text: Seq<char>, count: nat) -> Seq<char> {
    if count < text.len() {
        text.take(count as int)
    } else {
        text
    }
}

/// What a frame of the animation does to the text component
pub struct TextUpdate {
    /// The content the text component is given, if it changes
    pub content: Option<String>,
    /// Whether the animation has shown the whole text and ends
    pub finished: bool,
}

/// What a frame of the animation is given: whether the delay is over, whether the text
/// component shows nothing, and whether the interval timer ticked
#[derive(Debug, Clone, Copy, PartialEq, Eq, Structural)]
pub struct TextFrame {
    pub delay_done: bool,
    pub shown_empty: bool,
    pub ticked: bool,
}

/// What a frame does from `position` on `text`: the position after it, the content the text
/// component is given if it changes, and whether the animation finishes
pub open spec fn frame_outcome(position: nat, text: Seq<char>, frame: TextFrame) -> (nat, Option<
    Seq<char>,
>, bool) {
    if !frame.delay_done {
        (
            position,
            if frame.shown_empty {
                None
            } else {
                Some(Seq::empty())
            },
            false,
        )
    } else if position == 0 || frame.ticked {
        (position + 1, Some(first_chars(text, position)), position == text_byte_len(text))
    } else {
        (position, None, false)
    }
}

/// The text of an update's content
pub open spec fn content_text(content: Option<String>) -> Option<Seq<char>> {
    match content {
        Some(text) => Some(text@),
        None => None,
    }
}

/// Manage the iteration of characters in text components; the text appears one more character
/// every time the interval passes, once the delay has passed
pub struct IterativeText {
    text: String,
    current_character: usize,
    interval: Duration,
    delay: Option<Duration>,
}

impl IterativeText {
    /// The text the animation shows
    pub closed spec fn text(self) -> Seq<char> {
        self.text@
    }

    /// How many characters the next shown content holds
    pub closed spec fn position(self) -> usize {
        self.current_character
    }

    /// The time between two characters
    pub closed spec fn spec_interval(self) -> Duration {
        self.interval
    }

    /// The time before the first character, when one was set
    pub closed spec fn spec_delay(self) -> Option<Duration> {
        self.delay
    }

    /// Instantiate a new iterative text animation of `text`, one character every `duration`
    pub fn new(duration: Duration, text: String) -> (animation: Self)
        ensures
            animation.text() == text@,
            animation.position() == 0,
            animation.spec_interval() == duration,
            animation.spec_delay() is None,
    {
        Self { text, current_character: 0, interval: duration, delay: None }
    }

    /// Set the duration between character iterations
    pub fn with_duration(self, duration: Duration) -> (animation: Self)
        ensures
            animation.text() == self.text(),
            animation.position() == self.position(),
            animation.spec_interval() == duration,
            animation.spec_delay() == self.spec_delay(),
    {
        IterativeText { interval: duration, ..self }
    }

    /// Delay the start of the iteration
    pub fn with_delay(self, delay: Duration) -> (animation: Self)
        ensures
            animation.text() == self.text(),
            animation.position() == self.position(),
            animation.spec_interval() == self.spec_interval(),
            animation.spec_delay() == Some(delay),
    {
        IterativeText { delay: Some(delay), ..self }
    }

    /// The time between two characters
    pub fn interval(&self) -> (interval: Duration)
        ensures
            interval == self.spec_interval(),
    {
        self.interval
    }

    /// The time before the first character, when one was set
    pub fn delay(&self) -> (delay: Option<Duration>)
        ensures
            delay == self.spec_delay(),
    {
        self.delay
    }

    /// Whether the next frame waits for the interval timer; the first character comes at once
    pub fn waits_for_tick(&self) -> (waits: bool)
        ensures
            waits == (self.position() != 0),
    {
        self.current_character != 0
    }

    /// Run a frame of the animation. Until `delay_done`, the text component is cleared unless
    /// `shown_empty`. After that, when the first frame comes or the interval timer `ticked`, the
    /// component shows the first characters of the text, one more each time, and the animation
    /// finishes once that count has gone one past the byte length of the text.
    pub fn advance(&mut self, delay_done: bool, shown_empty: bool, ticked: bool) -> (update: TextUpdate)
        requires
            old(self).position() < usize::MAX,
        ensures
            final(self).text() == old(self).text(),
            final(self).spec_interval() == old(self).spec_interval(),
            final(self).spec_delay() == old(self).spec_delay(),
            (final(self).position() as nat, content_text(update.content), update.finished)
                == frame_outcome(
                old(self).position() as nat,
                old(self).text(),
                TextFrame { delay_done, shown_empty, ticked },
            ),
            !delay_done ==> {
                &&& final(self).position() == old(self).position()
                &&& !update.finished
                &&& if shown_empty {
                    update.content is None
                } else {
                    update.content matches Some(content) && content@ == Seq::<char>::empty()
                }
            },
            delay_done && (old(self).position() == 0 || ticked) ==> {
                &&& final(self).position() == old(self).position() + 1
                &&& update.content matches Some(content) && content@ == first_chars(
                    old(self).text(),
                    old(self).position() as nat,
                )
                &&& update.finished == (old(self).position() == text_byte_len(old(self).text()))
            },
            delay_done && old(self).position() != 0 && !ticked ==> {
                &&& final(self).position() == old(self).position()
                &&& update.content is None
                &&& !update.finished
            },
    {
        if !delay_done {
            if shown_empty {
                return TextUpdate { content: None, finished: false };
            }
            return TextUpdate { content: Some(String::new()), finished: false };
        }
        if self.current_character == 0 || ticked {
            let index = self.current_character;
            let count = self.text.unicode_len();
            let shown = if index < count {
                index
            } else {
                count
            };
            let content = String::from_str(self.text.substring_char(0, shown));
            proof {
                assert(content@ =~= first_chars(self.text@, index as nat));
            }
            let finished = index == self.text.as_str().len();
            self.current_character = index + 1;
            return TextUpdate { content: Some(content), finished };
        }
        TextUpdate { content: None, finished: false }
    }
}

/// The position of an animation of `text` that starts at the first character, after `frames`
pub open spec fn position_after(text: Seq<char>, frames: Seq<TextFrame>) -> nat
    decreases frames.len(),
{
    if frames.len() == 0 {
        0
    } else {
        frame_outcome(position_after(text, frames.drop_last()), text, frames.last()).0
    }
}

/// What frame `i` of `frames` does to an animation of `text` that starts at the first character
pub open spec fn outcome_at(text: Seq<char>, frames: Seq<TextFrame>, i: int) -> (nat, Option<
    Seq<char>,
>, bool) {
    frame_outcome(position_after(text, frames.take(i)), text, frames[i])
}

/// Whether frame `i`, once the delay is over, shows the whole text
pub open spec fn shows_whole(text: Seq<char>, frames: Seq<TextFrame>, i: int) -> bool {
    frames[i].delay_done && outcome_at(text, frames, i).1 == Some(text)
}

/// What the animation keeps at frame `i`: during the delay the component is at most cleared;
/// after it, every content shown is the first characters of the text up to the position, which
/// grows by at most one character a frame; and the animation finishes exactly in the frame that
/// first shows the whole text
pub open spec fn frame_law(text: Seq<char>, frames: Seq<TextFrame>, i: int) -> bool {
    let position = position_after(text, frames.take(i));
    let outcome = outcome_at(text, frames, i);
    &&& !frames[i].delay_done ==> (outcome.1 is None || outcome.1 == Some(Seq::<char>::empty()))
        && !outcome.2
    &&& (frames[i].delay_done && outcome.1 is Some) ==> outcome.1 == Some(
        first_chars(text, position),
    ) && outcome.0 == position + 1
    &&& position <= outcome.0 <= position + 1
    &&& outcome.2 <==> (shows_whole(text, frames, i) && forall|j: int|
        0 <= j < i ==> !#[trigger] shows_whole(text, frames, j))
}

/// The position after the first `i + 1` frames is what frame `i` makes of the position before it
proof fn lemma_position_step(text: Seq<char>, frames: Seq<TextFrame>, i: int)
    requires
        0 <= i < frames.len(),
    ensures
        position_after(text, frames.take(i + 1)) == outcome_at(text, frames, i).0,
{
    assert(frames.take(i + 1).drop_last() =~= frames.take(i));
    assert(frames.take(i + 1).last() == frames[i]);
}

/// Positions never go back, and a frame that shows characters moves past its position
proof fn lemma_position_grows(text: Seq<char>, frames: Seq<TextFrame>, j: int, i: int)
    requires
        0 <= j <= i <= frames.len(),
    ensures
        position_after(text, frames.take(j)) <= position_after(text, frames.take(i)),
        j < i && frames[j].delay_done && outcome_at(text, frames, j).1 is Some ==> position_after(
            text,
            frames.take(j),
        ) < position_after(text, frames.take(i)),
    decreases i - j,
{
    if j < i {
        lemma_position_step(text, frames, j);
        lemma_position_grows(text, frames, j + 1, i);
    }
}

/// Every position below the one reached after `i` frames was the position of a frame before
/// `i` that showed characters
proof fn lemma_position_reached(text: Seq<char>, frames: Seq<TextFrame>, i: int, v: nat)
    requires
        0 <= i <= frames.len(),
        v < position_after(text, frames.take(i)),
    ensures
        exists|j: int|
            0 <= j < i && frames[j].delay_done && (#[trigger] outcome_at(text, frames, j)).1 is Some
                && position_after(text, frames.take(j)) == v,
    decreases i,
{
    if i == 0 {
        assert(frames.take(0) =~= Seq::<TextFrame>::empty());
    } else {
        lemma_position_step(text, frames, i - 1);
        let before = position_after(text, frames.take(i - 1));
        if v < before {
            lemma_position_reached(text, frames, i - 1, v);
            let j = choose|j: int|
                0 <= j < i - 1 && frames[j].delay_done && (#[trigger] outcome_at(
                    text,
                    frames,
                    j,
                )).1 is Some && position_after(text, frames.take(j)) == v;
            assert(0 <= j < i);
        } else {
            assert(frames[i - 1].delay_done && outcome_at(text, frames, i - 1).1 is Some);
        }
    }
}

/// The shown characters of an ASCII text are the whole text exactly from its length on
proof fn lemma_first_chars_whole(text: Seq<char>, count: nat)
    ensures
        first_chars(text, count) == text <==> count >= text.len(),
{
    if count < text.len() {
        assert(first_chars(text, count).len() == count);
    }
}

/// The typing animation over successive frames, on a text of ASCII characters that starts at its
/// first character: until the delay is over the text component is at most cleared; then each
/// content shown is a prefix of the text that grows by at most one character a frame; and the
/// animation finishes exactly in the first frame, after the delay, that shows the whole text
pub proof fn lemma_typing_animation(text: Seq<char>, frames: Seq<TextFrame>)
    requires
        vstd::utf8::is_ascii_chars(text),
        text.len() <= usize::MAX,
    ensures
        forall|i: int| 0 <= i < frames.len() ==> #[trigger] frame_law(text, frames, i),
{
    vstd::utf8::is_ascii_chars_encode_utf8(text);
    assert(text_byte_len(text) == text.len());
    assert forall|i: int| 0 <= i < frames.len() implies #[trigger] frame_law(text, frames, i) by {
        let position = position_after(text, frames.take(i));
        let outcome = outcome_at(text, frames, i);
        if outcome.2 {
            assert(position == text.len());
            lemma_first_chars_whole(text, position);
            assert forall|j: int| 0 <= j < i implies !#[trigger] shows_whole(text, frames, j) by {
                if shows_whole(text, frames, j) {
                    lemma_position_grows(text, frames, j, i);
                    lemma_first_chars_whole(text, position_after(text, frames.take(j)));
                }
            }
        }
        if shows_whole(text, frames, i) && forall|j: int|
            0 <= j < i ==> !#[trigger] shows_whole(text, frames, j) {
            lemma_first_chars_whole(text, position);
            if position > text.len() {
                lemma_position_reached(text, frames, i, text.len());
                let j = choose|j: int|
                    0 <= j < i && frames[j].delay_done && (#[trigger] outcome_at(
                        text,
                        frames,
                        j,
                    )).1 is Some && position_after(text, frames.take(j)) == text.len();
                lemma_first_chars_whole(text, text.len());
                assert(shows_whole(text, frames, j));
            }
        }
    }
}

} // verus!
