//! The dialogue box: a text that is revealed letter by letter.

use vstd::prelude::*;
use vstd::string::{StrSliceExecFns, StringExecFns};
use crate::fixed::{clamp, lemma_product_bound, MICROS_PER_SECOND};

verus! {

/// The reveal velocity of a new dialogue box, in letters per second.
pub const DEFAULT_VELOCITY: u32 = 30;

/// A dialogue box: the whole text, the time since it was set, and how many
/// letters appear per second.
#[derive(Debug)]
pub struct TextBox {
    pub text: String,
    pub timer: u32,
    pub velocity: u32,
}

/// The dialogue lines that share a name.
#[derive(Debug)]
pub struct DialogueSet {
    pub name: String,
    pub dialogue: Vec<String>,
}

/// Why no dialogue could be shown.
#[derive(Clone, Copy, Debug, PartialEq, Eq, Structural)]
pub enum DialogueError {
    /// The encounter names no dialogue for this turn.
    NoDialogueForTurn,
    /// No dialogue has the name that the encounter gives for this turn.
    UnknownDialogue,
    /// The dialogue of that name has no line.
    EmptyDialogue,
}

/// The letters that show after `elapsed` microseconds at `velocity` letters
/// per second, of a text of `len` letters: the letters that the time yields,
/// rounded down, but no more than there are.
pub open spec fn revealed_len(velocity: int, elapsed: int, len: int) -> int {
    clamp((velocity * elapsed) / (MICROS_PER_SECOND as int), 0, len)
}

/// The reveal never runs back and never passes the end of the text; it
/// starts with nothing, and shows the whole text once the time has yielded
/// as many letters as the text has.
pub proof fn lemma_reveal_monotonic(velocity: int, len: int, earlier: int, later: int)
    requires
        0 <= velocity,
        0 <= len,
        0 <= earlier <= later,
    ensures
        revealed_len(velocity, 0, len) == 0,
        0 <= revealed_len(velocity, earlier, len) <= revealed_len(velocity, later, len) <= len,
        velocity * later >= len * MICROS_PER_SECOND ==> revealed_len(velocity, later, len) == len,
{
    let b = MICROS_PER_SECOND as int;
    assert(velocity * 0 == 0);
    assert(0 <= velocity * earlier <= velocity * later) by (nonlinear_arith)
        requires
            0 <= velocity,
            0 <= earlier <= later,
    ;
    vstd::arithmetic::div_mod::lemma_div_is_ordered(velocity * earlier, velocity * later, b);
    vstd::arithmetic::div_mod::lemma_div_pos_is_pos(velocity * earlier, b);
    if velocity * later >= len * b {
        vstd::arithmetic::div_mod::lemma_div_is_ordered(len * b, velocity * later, b);
        vstd::arithmetic::div_mod::lemma_div_multiples_vanish(len, b);
    }
}

impl TextBox {
    /// An empty dialogue box.
    pub fn new(velocity: u32) -> (text_box: TextBox)
        ensures
            text_box.text@ == Seq::<char>::empty(),
            text_box.timer == 0,
            text_box.velocity == velocity,
    {
        TextBox { text: String::new(), timer: 0, velocity }
    }

    /// How many letters show now.
    pub open spec fn shown_len(self) -> int {
        revealed_len(self.velocity as int, self.timer as int, self.text@.len() as int)
    }

    /// The letters that show now: the start of the text.
    pub open spec fn revealed(self) -> Seq<char> {
        self.text@.subrange(0, self.shown_len())
    }

    /// Empties the box. The reveal goes on from where it is.
    pub fn clear_box(&mut self)
        ensures
            final(self).text@ == Seq::<char>::empty(),
            final(self).timer == old(self).timer,
            final(self).velocity == old(self).velocity,
    {
        self.text = String::new();
    }

    /// Puts a new text into the box and starts its reveal from nothing.
    pub fn set_text(&mut self, text: String)
        ensures
            final(self).text@ == text@,
            final(self).timer == 0,
            final(self).velocity == old(self).velocity,
            final(self).shown_len() == 0,
    {
        self.text = text;
        self.timer = 0;
        proof {
            lemma_reveal_monotonic(self.velocity as int, self.text@.len() as int, 0, 0);
        }
    }

    /// Whether the whole text shows.
    pub fn is_revealed(&self) -> (whole: bool)
        ensures
            whole == (self.shown_len() == self.text@.len()),
    {
        let len: usize = self.text.as_str().unicode_len();
        proof {
            lemma_product_bound(
                self.velocity as int,
                self.timer as int,
                0xffff_ffff,
                0xffff_ffff,
            );
            vstd::arithmetic::div_mod::lemma_div_pos_is_pos(
                self.velocity as int * self.timer as int,
                MICROS_PER_SECOND as int,
            );
        }
        let yielded: u64 = (self.velocity as u64 * self.timer as u64) / (MICROS_PER_SECOND as u64);
        yielded >= len as u64
    }

    /// The text that shows now.
    pub fn display(&self) -> (shown: String)
        ensures
            shown@ == self.revealed(),
            shown@.len() == self.shown_len(),
    {
        let len: usize = self.text.as_str().unicode_len();
        proof {
            lemma_product_bound(
                self.velocity as int,
                self.timer as int,
                0xffff_ffff,
                0xffff_ffff,
            );
            vstd::arithmetic::div_mod::lemma_div_pos_is_pos(
                self.velocity as int * self.timer as int,
                MICROS_PER_SECOND as int,
            );
        }
        let yielded: u64 = (self.velocity as u64 * self.timer as u64) / (MICROS_PER_SECOND as u64);
        let count: usize = if yielded >= len as u64 {
            len
        } else {
            yielded as usize
        };
        String::from_str(self.text.as_str().substring_char(0, count))
    }
}

/// One tick of the reveal: the time since the text was set grows by `dt`, and
/// stops at the end of its range. Returns the text that shows after it.
pub fn update_text(text_box: &mut TextBox, dt: u32) -> (shown: String)
    ensures
        final(text_box).text@ == old(text_box).text@,
        final(text_box).velocity == old(text_box).velocity,
        final(text_box).timer == clamp(old(text_box).timer + dt, 0, u32::MAX as int),
        shown@ == final(text_box).revealed(),
        old(text_box).shown_len() <= final(text_box).shown_len() <= final(text_box).text@.len(),
{
    let ghost before = text_box.timer as int;
    text_box.timer = text_box.timer.saturating_add(dt);
    proof {
        lemma_reveal_monotonic(
            text_box.velocity as int,
            text_box.text@.len() as int,
            before,
            text_box.timer as int,
        );
    }
    text_box.display()
}

/// Whether the dialogue at place `i` is the first with the name `name`.
pub open spec fn is_first_named(sets: Seq<DialogueSet>, name: Seq<char>, i: int) -> bool {
    &&& 0 <= i < sets.len()
    &&& sets[i].name@ == name
    &&& forall|j: int| 0 <= j < i ==> sets[j].name@ != name
}

/// No dialogue has the name `name`.
pub open spec fn none_named(sets: Seq<DialogueSet>, name: Seq<char>) -> bool {
    forall|j: int| 0 <= j < sets.len() ==> sets[j].name@ != name
}

/// The place of the first dialogue with the name `name`.
pub fn find_dialogue(sets: &Vec<DialogueSet>, name: &String) -> (found: Option<usize>)
    ensures
        found matches Some(i) ==> is_first_named(sets@, name@, i as int),
        found is None ==> none_named(sets@, name@),
{
    let mut i: usize = 0;
    while i < sets.len()
        invariant
            i <= sets@.len(),
            forall|j: int| 0 <= j < i ==> sets@[j].name@ != name@,
        decreases sets@.len() - i,
    {
        if sets[i].name == *name {
            return Some(i);
        }
        i = i + 1;
    }
    None
}

/// The text that opens the dialogue of a turn: a bullet mark and the line.
pub open spec fn opening_text(line: Seq<char>) -> Seq<char> {
    "* "@ + line
}

/// Shows the line that opens the dialogue of the turn `turn`.
///
/// `names` gives the name of each turn's dialogue; the line is the first one
/// of the first dialogue of that name. The box is left as it is where the
/// turn has no name, the name no dialogue, or the dialogue no line.
pub fn refresh_text(
    text_box: &mut TextBox,
    sets: &Vec<DialogueSet>,
    names: &Vec<String>,
    turn: u32,
) -> (done: Result<(), DialogueError>)
    ensures
        final(text_box).velocity == old(text_box).velocity,
        turn >= names@.len() ==> done == Err::<(), DialogueError>(
            DialogueError::NoDialogueForTurn,
        ),
        turn < names@.len() && none_named(sets@, names@[turn as int]@) ==> done == Err::<
            (),
            DialogueError,
        >(DialogueError::UnknownDialogue),
        forall|i: int|
            turn < names@.len() && #[trigger] is_first_named(sets@, names@[turn as int]@, i) ==> {
                if sets@[i].dialogue@.len() == 0 {
                    done == Err::<(), DialogueError>(DialogueError::EmptyDialogue)
                } else {
                    &&& done is Ok
                    &&& final(text_box).text@ == opening_text(sets@[i].dialogue@[0]@)
                    &&& final(text_box).timer == 0
                }
            },
        done is Err ==> final(text_box).text@ == old(text_box).text@ && final(text_box).timer == old(
            text_box,
        ).timer,
{
    if turn as usize >= names.len() {
        return Err(DialogueError::NoDialogueForTurn);
    }
    let name: &String = &names[turn as usize];
    match find_dialogue(sets, name) {
        None => Err(DialogueError::UnknownDialogue),
        Some(i) => {
            assert forall|k: int| #[trigger] is_first_named(sets@, name@, k) implies k == i by {
                if k < i {
                    assert(sets@[k].name@ == name@);
                } else if k > i {
                    assert(sets@[i as int].name@ == name@);
                }
            }
            if sets[i].dialogue.len() == 0 {
                return Err(DialogueError::EmptyDialogue);
            }
            let line: String = String::from_str("* ").concat(sets[i].dialogue[0].as_str());
            text_box.set_text(line);
            Ok(())
        },
    }
}

} // verus!
