use crate::common::{FontSize, Input, Key, Reposition, CENTER, LEFT, TOP};
use crate::drawing::Draw;
use crate::entities::{is_text_run, Justify, Text};
use vstd::prelude::*;

verus! {

/// The screen being shown. A click or Enter toggles between the two screens in
/// both directions; any other frame leaves the screen as it is.
#[derive(Clone, Copy, Debug, PartialEq, Eq, Structural)]
pub enum State {
    /// The opening screen with the title and a prompt.
    Init,
    /// The game screen.
    Searching,
}

/// The screen after one frame of input.
pub open spec fn next_state(s: State, input: Input) -> State {
    if input.spec_triggered() {
        match s {
            State::Init => State::Searching,
            State::Searching => State::Init,
        }
    } else {
        s
    }
}

/// The screen after a run of frames, the first input first.
pub open spec fn run_frames(s: State, inputs: Seq<Input>) -> State
    decreases inputs.len(),
{
    if inputs.len() == 0 {
        s
    } else {
        run_frames(next_state(s, inputs[0]), inputs.subrange(1, inputs.len() as int))
    }
}

impl Default for State {
    fn default() -> (r: Self)
        ensures
            r == State::Init,
    {
        State::Init
    }
}

impl State {
    /// Moves to the screen that the frame's input asks for.
    pub fn update(&mut self, input: Input)
        ensures
            *final(self) == next_state(*old(self), input),
    {
        if input.triggered() {
            *self = match *self {
                State::Init => State::Searching,
                State::Searching => State::Init,
            };
        }
    }

    /// Draws the screen. The opening screen shows the title and the prompt,
    /// both of medium size and centred; the game screen shows the title small
    /// and centred, and a large placeholder line.
    pub fn draw<'a, F, M: Fn(&F, &String, i32) -> i32>(&self, draw: Draw<'a, F>, measure: &M) -> (r:
        Draw<'a, F>)
        requires
            draw.wf(),
            forall|f: &F, s: &String, p: i32| measure.requires((f, s, p)),
        ensures
            r.wf(),
            r.spec_fonts() == draw.spec_fonts(),
            r.spec_dimensions() == draw.spec_dimensions(),
            r.spec_commands().len() == draw.spec_commands().len() + 2,
            r.spec_commands().subrange(0, draw.spec_commands().len() as int)
                == draw.spec_commands(),
            *self == State::Init ==> {
                &&& is_text_run(
                    &draw,
                    r.spec_commands()[draw.spec_commands().len() as int],
                    FontSize::Medium,
                    "Word Search"@,
                    (CENTER, 5),
                    Justify::Center,
                    *measure,
                )
                &&& is_text_run(
                    &draw,
                    r.spec_commands()[draw.spec_commands().len() + 1int],
                    FontSize::Medium,
                    "Click or press ENTER to start"@,
                    (CENTER, 77),
                    Justify::Center,
                    *measure,
                )
            },
            *self == State::Searching ==> {
                &&& is_text_run(
                    &draw,
                    r.spec_commands()[draw.spec_commands().len() as int],
                    FontSize::Small,
                    "Word Search"@,
                    (CENTER, 5),
                    Justify::Center,
                    *measure,
                )
                &&& is_text_run(
                    &draw,
                    r.spec_commands()[draw.spec_commands().len() + 1int],
                    FontSize::Large,
                    "Large..."@,
                    (5, CENTER),
                    Justify::Left,
                    *measure,
                )
            },
    {
        let (first, second) = match *self {
            State::Init => (
                Text::medium("Word Search", CENTER, TOP.down(5), Justify::Center),
                Text::medium("Click or press ENTER to start", CENTER, CENTER.up(50), Justify::Center),
            ),
            State::Searching => (
                Text::small("Word Search", CENTER, TOP.down(5), Justify::Center),
                Text::large("Large...", LEFT.right(5), CENTER, Justify::Left),
            ),
        };
        let d1 = first.draw(draw, measure);
        let d2 = second.draw(d1, measure);
        d2
    }
}

/// A frame without a click or Enter leaves any screen as it is.
pub proof fn lemma_no_trigger_keeps_state(s: State, input: Input)
    requires
        !input.spec_triggered(),
    ensures
        next_state(s, input) == s,
{
}

/// Any run of frames none of which has a click or Enter ends on the screen it
/// started from.
pub proof fn lemma_quiet_frames_keep_state(s: State, inputs: Seq<Input>)
    requires
        forall|i: int| 0 <= i < inputs.len() ==> !(#[trigger] inputs[i]).spec_triggered(),
    ensures
        run_frames(s, inputs) == s,
    decreases inputs.len(),
{
    if inputs.len() > 0 {
        let rest = inputs.subrange(1, inputs.len() as int);
        assert(!inputs[0].spec_triggered());
        assert forall|i: int| 0 <= i < rest.len() implies !(#[trigger] rest[i]).spec_triggered() by {
            assert(rest[i] == inputs[i + 1]);
        }
        lemma_quiet_frames_keep_state(s, rest);
    }
}

/// A click on the opening screen starts the game, wherever the pointer is and
/// whatever keys came with it.
pub proof fn lemma_click_starts(input: Input)
    requires
        input.clicked,
    ensures
        next_state(State::Init, input) == State::Searching,
{
}

/// Enter on the game screen goes back to the opening screen.
pub proof fn lemma_enter_returns(input: Input)
    requires
        input.keys@.contains(Key::Enter),
    ensures
        next_state(State::Searching, input) == State::Init,
{
}

} // verus!
