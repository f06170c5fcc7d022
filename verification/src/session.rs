//! The calculator session as a state machine.
//!
//! The session itself reads nothing and prints nothing. In each state it
//! says what it needs from outside (`State::request`); whoever drives it
//! does that and hands back what happened as an `Event`; `step` then gives
//! the next state and what is to be said or done on the way. Input that is
//! not understood leaves the state as it is and earns a complaint, so the
//! same request comes again.
//!
//! A division by zero is reported and the calculation is started afresh,
//! from the first operand.

use crate::answer::{continuation_given_by, parse_continuation};
use crate::calculation::{calculate, divides_by_zero, Calculation};
use crate::message::Message;
use crate::operand::Operand;
use crate::operator::Operator;
use vstd::prelude::*;

verus! {

/// Where the session stands.
#[derive(Clone, Copy, Debug, PartialEq, Eq, Structural)]
pub enum State {
    /// Waiting for the first operand.
    AwaitingOperandA,
    /// Waiting for the second operand.
    AwaitingOperandB { a: Operand },
    /// Waiting for the operator.
    AwaitingOperator { a: Operand, b: Operand },
    /// Operands and operator are in; the value is being worked out.
    Computing { a: Operand, b: Operand, op: Operator },
    /// The value is in and is being shown.
    DisplayingResult { a: Operand, b: Operand, op: Operator, value: Operand },
    /// Waiting for the answer whether to go on.
    AwaitingContinue,
    /// The user has declined to go on.
    Terminated,
}

/// What happened outside the session.
#[derive(Debug)]
pub enum Event {
    /// A line was read where an operand was asked for; it stood for the
    /// number given, or for none.
    Operand(Option<Operand>),
    /// A line was read where an operator or an answer was asked for. The
    /// session interprets it.
    Line(String),
    /// The arithmetic that was asked for gave this value.
    Value(Operand),
    /// What was asked for has been done, and there is nothing to hand back.
    Done,
}

/// What the session needs from outside before it can take its next step.
#[derive(Clone, Copy, Debug, PartialEq, Eq, Structural)]
pub enum Request {
    /// Show the prompt, read a line, and hand in `Event::Operand` with the
    /// number that the trimmed line stands for, if it stands for one.
    ReadOperand { prompt: Message },
    /// Show the prompt, read a line, and hand it in as `Event::Line`.
    ReadLine { prompt: Message },
    /// Carry out the arithmetic and hand in the value as `Event::Value`.
    Evaluate { calculation: Calculation },
    /// The calculation has no value. Hand in `Event::Done` to hear of it.
    Acknowledge,
    /// Clear the screen, show the result line, and hand in `Event::Done`.
    Display { a: Operand, b: Operand, op: Operator, value: Operand },
    /// Nothing more: the session is over.
    Exit,
}

/// What is to be said or done on the way into the next state.
#[derive(Clone, Copy, Debug, PartialEq, Eq, Structural)]
pub enum Effect {
    Nothing,
    Say(Message),
    ClearScreen,
}

/// The outcome of a step.
#[derive(Clone, Copy, Debug, PartialEq, Eq, Structural)]
pub struct Transition {
    pub state: State,
    pub effect: Effect,
}

impl State {
    /// The state in which every session begins.
    pub open spec fn initial() -> State {
        State::AwaitingOperandA
    }

    /// Whether the session is waiting for a line of input.
    pub open spec fn is_awaiting(self) -> bool {
        self is AwaitingOperandA || self is AwaitingOperandB || self is AwaitingOperator
            || self is AwaitingContinue
    }

    /// Whether the state is one that a session can be in: a result is never
    /// shown for a division by zero.
    pub open spec fn is_sound(self) -> bool {
        self matches State::DisplayingResult { b, op, .. } ==> !divides_by_zero(b, op)
    }

    /// The state in which every session begins.
    pub fn start() -> (r: State)
        ensures
            r == State::initial(),
    {
        State::AwaitingOperandA
    }

    /// Tells whether the session is over.
    pub fn is_terminated(self) -> (r: bool)
        ensures
            r == (self is Terminated),
    {
        match self {
            State::Terminated => true,
            _ => false,
        }
    }

    /// Whether `request` is what the session needs in this state.
    pub open spec fn needs(self, request: Request) -> bool {
        match self {
            State::AwaitingOperandA => request matches Request::ReadOperand { prompt }
                && prompt == Message::AskFirstOperand,
            State::AwaitingOperandB { .. } => request matches Request::ReadOperand { prompt }
                && prompt == Message::AskSecondOperand,
            State::AwaitingOperator { .. } => request matches Request::ReadLine { prompt }
                && prompt == Message::AskOperator,
            State::Computing { a, b, op } => if divides_by_zero(b, op) {
                request is Acknowledge
            } else {
                request matches Request::Evaluate { calculation } && calculation.left() == a
                    && calculation.right() == b && calculation.operator() == op
            },
            State::DisplayingResult { a, b, op, value } => request matches Request::Display {
                a: shown_a,
                b: shown_b,
                op: shown_op,
                value: shown_value,
            } && shown_a == a && shown_b == b && shown_op == op && shown_value == value,
            State::AwaitingContinue => request matches Request::ReadLine { prompt } && prompt
                == Message::AskContinue,
            State::Terminated => request is Exit,
        }
    }

    /// What the session needs from outside in this state.
    pub fn request(self) -> (r: Request)
        ensures
            self.needs(r),
    {
        match self {
            State::AwaitingOperandA => Request::ReadOperand { prompt: Message::AskFirstOperand },
            State::AwaitingOperandB { .. } => Request::ReadOperand {
                prompt: Message::AskSecondOperand,
            },
            State::AwaitingOperator { .. } => Request::ReadLine { prompt: Message::AskOperator },
            State::Computing { a, b, op } => match calculate(a, b, op) {
                Ok(calculation) => Request::Evaluate { calculation },
                Err(_) => Request::Acknowledge,
            },
            State::DisplayingResult { a, b, op, value } => Request::Display { a, b, op, value },
            State::AwaitingContinue => Request::ReadLine { prompt: Message::AskContinue },
            State::Terminated => Request::Exit,
        }
    }
}

impl Transition {
    /// Into `state` with nothing said or done.
    pub open spec fn quiet(state: State) -> Transition {
        Transition { state, effect: Effect::Nothing }
    }

    /// Into `state` with `message` said on the way.
    pub open spec fn saying(state: State, message: Message) -> Transition {
        Transition { state, effect: Effect::Say(message) }
    }
}

/// The step that the session takes from `state` when `event` comes in.
///
/// The states follow one another in a line: first operand, second operand,
/// operator, computing, displaying, the question whether to go on. Each
/// waiting state loops on input that it does not understand. Computing
/// falls back to the first operand on a division by zero. The answer to the
/// last question leads back to the first operand or to the end. An event
/// that the state has not asked for changes nothing.
pub open spec fn next(state: State, event: Event) -> Transition {
    match state {
        State::AwaitingOperandA => match event {
            Event::Operand(Some(a)) => Transition::quiet(State::AwaitingOperandB { a }),
            Event::Operand(None) => Transition::saying(state, Message::InvalidNumber),
            _ => Transition::quiet(state),
        },
        State::AwaitingOperandB { a } => match event {
            Event::Operand(Some(b)) => Transition::quiet(State::AwaitingOperator { a, b }),
            Event::Operand(None) => Transition::saying(state, Message::InvalidNumber),
            _ => Transition::quiet(state),
        },
        State::AwaitingOperator { a, b } => match event {
            Event::Line(line) => match Operator::selected_by(line@) {
                Some(op) => Transition::quiet(State::Computing { a, b, op }),
                None => Transition::saying(state, Message::InvalidOperator),
            },
            _ => Transition::quiet(state),
        },
        State::Computing { a, b, op } => if divides_by_zero(b, op) {
            match event {
                Event::Done => Transition::saying(State::AwaitingOperandA, Message::DivisionByZero),
                _ => Transition::quiet(state),
            }
        } else {
            match event {
                Event::Value(value) => Transition::quiet(State::DisplayingResult { a, b, op, value }),
                _ => Transition::quiet(state),
            }
        },
        State::DisplayingResult { .. } => match event {
            Event::Done => Transition::quiet(State::AwaitingContinue),
            _ => Transition::quiet(state),
        },
        State::AwaitingContinue => match event {
            Event::Line(line) => match continuation_given_by(line@) {
                Some(true) => Transition {
                    state: State::AwaitingOperandA,
                    effect: Effect::ClearScreen,
                },
                Some(false) => Transition::saying(State::Terminated, Message::Goodbye),
                None => Transition::saying(state, Message::InvalidAnswer),
            },
            _ => Transition::quiet(state),
        },
        State::Terminated => Transition::quiet(state),
    }
}

/// Takes the step from `state` that `event` calls for.
pub fn step(state: State, event: &Event) -> (r: Transition)
    ensures
        r == next(state, *event),
{
    let unchanged = Transition { state, effect: Effect::Nothing };
    match state {
        State::AwaitingOperandA => match event {
            Event::Operand(Some(a)) => Transition {
                state: State::AwaitingOperandB { a: *a },
                effect: Effect::Nothing,
            },
            Event::Operand(None) => Transition {
                state,
                effect: Effect::Say(Message::InvalidNumber),
            },
            _ => unchanged,
        },
        State::AwaitingOperandB { a } => match event {
            Event::Operand(Some(b)) => Transition {
                state: State::AwaitingOperator { a, b: *b },
                effect: Effect::Nothing,
            },
            Event::Operand(None) => Transition {
                state,
                effect: Effect::Say(Message::InvalidNumber),
            },
            _ => unchanged,
        },
        State::AwaitingOperator { a, b } => match event {
            Event::Line(line) => match Operator::parse(line.as_str()) {
                Some(op) => Transition {
                    state: State::Computing { a, b, op },
                    effect: Effect::Nothing,
                },
                None => Transition { state, effect: Effect::Say(Message::InvalidOperator) },
            },
            _ => unchanged,
        },
        State::Computing { a, b, op } => match calculate(a, b, op) {
            Err(_) => match event {
                Event::Done => Transition {
                    state: State::AwaitingOperandA,
                    effect: Effect::Say(Message::DivisionByZero),
                },
                _ => unchanged,
            },
            Ok(_) => match event {
                Event::Value(value) => Transition {
                    state: State::DisplayingResult { a, b, op, value: *value },
                    effect: Effect::Nothing,
                },
                _ => unchanged,
            },
        },
        State::DisplayingResult { .. } => match event {
            Event::Done => Transition { state: State::AwaitingContinue, effect: Effect::Nothing },
            _ => unchanged,
        },
        State::AwaitingContinue => match event {
            Event::Line(line) => match parse_continuation(line.as_str()) {
                Some(true) => Transition {
                    state: State::AwaitingOperandA,
                    effect: Effect::ClearScreen,
                },
                Some(false) => Transition {
                    state: State::Terminated,
                    effect: Effect::Say(Message::Goodbye),
                },
                None => Transition { state, effect: Effect::Say(Message::InvalidAnswer) },
            },
            _ => unchanged,
        },
        State::Terminated => unchanged,
    }
}

/// The state that the session is in after the events of `events` have come
/// in, one after the other, from `state` on.
pub open spec fn after(state: State, events: Seq<Event>) -> State
    decreases events.len(),
{
    if events.len() == 0 {
        state
    } else {
        next(after(state, events.drop_last()), events.last()).state
    }
}

/// The place of a state in the line that a calculation runs through.
pub open spec fn rank(state: State) -> nat {
    match state {
        State::AwaitingOperandA => 0,
        State::AwaitingOperandB { .. } => 1,
        State::AwaitingOperator { .. } => 2,
        State::Computing { .. } => 3,
        State::DisplayingResult { .. } => 4,
        State::AwaitingContinue => 5,
        State::Terminated => 6,
    }
}

/// Whether `event` is a line of input that the waiting state `state` cannot
/// use: no number where an operand is awaited, no operator where the
/// operator is awaited, no answer where the answer is awaited.
pub open spec fn is_unusable(state: State, event: Event) -> bool {
    match state {
        State::AwaitingOperandA | State::AwaitingOperandB { .. } => event == Event::Operand(None),
        State::AwaitingOperator { .. } => event matches Event::Line(line) && Operator::selected_by(
            line@,
        ) is None,
        State::AwaitingContinue => event matches Event::Line(line) && continuation_given_by(line@)
            is None,
        _ => false,
    }
}

/// The session asks for a line of input in its four waiting states and in
/// no other, and each time with one of the prompts.
pub proof fn lemma_waiting_states_prompt(state: State, request: Request)
    requires
        state.needs(request),
    ensures
        state.is_awaiting() <==> request is ReadOperand || request is ReadLine,
        request matches Request::ReadOperand { prompt } ==> prompt.is_prompt(),
        request matches Request::ReadLine { prompt } ==> prompt.is_prompt(),
{
}

/// Input that cannot be used never moves the session on. The state stays
/// as it was, so the same request comes again, and a complaint is said:
/// no bad input is passed over in silence.
pub proof fn lemma_unusable_input_asks_again(state: State, event: Event)
    requires
        is_unusable(state, event),
    ensures
        next(state, event).state == state,
        next(state, event).effect matches Effect::Say(message) && message.is_complaint(),
        forall|request: Request| state.needs(request) == next(state, event).state.needs(request),
{
}

/// However many unusable inputs come in a row, the session is still where
/// it was.
pub proof fn lemma_unusable_inputs_ask_again(state: State, events: Seq<Event>)
    requires
        forall|i: int| 0 <= i < events.len() ==> is_unusable(state, #[trigger] events[i]),
    ensures
        after(state, events) == state,
    decreases events.len(),
{
    if events.len() > 0 {
        lemma_unusable_inputs_ask_again(state, events.drop_last());
        lemma_unusable_input_asks_again(state, events.last());
    }
}

/// A step leads nowhere but to the same state, to the next state in line,
/// or, from computing and from the last question, back to the first operand.
pub proof fn lemma_states_follow_in_line(state: State, event: Event)
    ensures
        ({
            let to = next(state, event).state;
            ||| to == state
            ||| rank(to) == rank(state) + 1
            ||| to == State::AwaitingOperandA && (state is Computing || state is AwaitingContinue)
        }),
{
}

/// The session never shows a result for a division by zero: every state
/// reached from a sound one is sound.
pub proof fn lemma_step_keeps_sound(state: State, event: Event)
    requires
        state.is_sound(),
    ensures
        next(state, event).state.is_sound(),
{
}

/// Every state that a session reaches from its start is sound.
pub proof fn lemma_sessions_are_sound(events: Seq<Event>)
    ensures
        after(State::initial(), events).is_sound(),
    decreases events.len(),
{
    if events.len() > 0 {
        lemma_sessions_are_sound(events.drop_last());
        lemma_step_keeps_sound(after(State::initial(), events.drop_last()), events.last());
    }
}

/// Once the user has declined to go on, nothing moves the session again and
/// nothing more is said.
pub proof fn lemma_terminated_is_final(event: Event)
    ensures
        next(State::Terminated, event) == Transition::quiet(State::Terminated),
{
}

/// The session ends on no other step than the answer `no` to the last
/// question.
pub proof fn lemma_only_declining_terminates(state: State, event: Event)
    requires
        !(state is Terminated),
        next(state, event).state is Terminated,
    ensures
        state is AwaitingContinue,
        event matches Event::Line(line) && continuation_given_by(line@) == Some(false),
{
}

/// The answer to the last question decides: `yes` leads back to the first
/// operand with the screen cleared, `no` ends the session with a farewell.
pub proof fn lemma_answer_decides(line: String)
    ensures
        continuation_given_by(line@) == Some(true) ==> next(
            State::AwaitingContinue,
            Event::Line(line),
        ) == (Transition { state: State::AwaitingOperandA, effect: Effect::ClearScreen }),
        continuation_given_by(line@) == Some(false) ==> next(
            State::AwaitingContinue,
            Event::Line(line),
        ) == Transition::saying(State::Terminated, Message::Goodbye),
{
}

/// One calculation from start to end: two numbers, an operator that does
/// not divide by zero, the value, its display, and the answer `no` take the
/// session through the display of exactly that calculation and end it after
/// the one round.
pub proof fn lemma_one_round(
    a: Operand,
    b: Operand,
    choice: String,
    op: Operator,
    value: Operand,
    answer: String,
)
    requires
        Operator::selected_by(choice@) == Some(op),
        !divides_by_zero(b, op),
        continuation_given_by(answer@) == Some(false),
    ensures
        ({
            let events = seq![
                Event::Operand(Some(a)),
                Event::Operand(Some(b)),
                Event::Line(choice),
                Event::Value(value),
                Event::Done,
                Event::Line(answer),
            ];
            &&& after(State::initial(), events.take(4)) == State::DisplayingResult {
                a,
                b,
                op,
                value,
            }
            &&& after(State::initial(), events) == State::Terminated
            &&& forall|n: int| 0 <= n < 6 ==> !(#[trigger] after(State::initial(), events.take(n))
                is Terminated)
        }),
{
    let events = seq![
        Event::Operand(Some(a)),
        Event::Operand(Some(b)),
        Event::Line(choice),
        Event::Value(value),
        Event::Done,
        Event::Line(answer),
    ];
    let start = State::initial();
    assert(events.take(0).len() == 0);
    assert(after(start, events.take(0)) == start);
    assert(events.take(1).drop_last() == events.take(0) && events.take(1).last() == events[0]);
    assert(after(start, events.take(1)) == State::AwaitingOperandB { a });
    assert(events.take(2).drop_last() == events.take(1) && events.take(2).last() == events[1]);
    assert(after(start, events.take(2)) == State::AwaitingOperator { a, b });
    assert(events.take(3).drop_last() == events.take(2) && events.take(3).last() == events[2]);
    assert(after(start, events.take(3)) == State::Computing { a, b, op });
    assert(events.take(4).drop_last() == events.take(3) && events.take(4).last() == events[3]);
    assert(after(start, events.take(4)) == State::DisplayingResult { a, b, op, value });
    assert(events.take(5).drop_last() == events.take(4) && events.take(5).last() == events[4]);
    assert(after(start, events.take(5)) == State::AwaitingContinue);
    assert(events.drop_last() == events.take(5) && events.last() == events[5]);
    assert(after(start, events) == State::Terminated);
}

/// A division by zero is not a value: it is reported, and the session goes
/// back to ask for the first operand.
pub proof fn lemma_division_by_zero_restarts(a: Operand, b: Operand)
    requires
        b.is_zero(),
    ensures
        next(State::Computing { a, b, op: Operator::Divide }, Event::Done) == Transition::saying(
            State::AwaitingOperandA,
            Message::DivisionByZero,
        ),
        forall|value: Operand|
            #[trigger] next(State::Computing { a, b, op: Operator::Divide }, Event::Value(value))
                == Transition::quiet(State::Computing { a, b, op: Operator::Divide }),
{
}

} // verus!
