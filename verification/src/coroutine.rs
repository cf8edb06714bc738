//! A coroutine written out as a state machine.
//!
//! The sequential program
//!
//! ```text
//! say "Program starting"
//! txt = get("/600/HelloAsyncAwait").wait;  say txt
//! txt = get("/400/HelloAsyncAwait").wait;  say txt
//! say "Received 2 responses."
//! ```
//!
//! suspends at each `wait`. It becomes a future with one state for each
//! suspension point, which holds the child future that is awaited there, and
//! a stack of the variables that live across a suspension. What the program
//! says is collected for the caller to print.

use crate::future::Future;
use crate::future::PollState;
use crate::http::Http;
use crate::http::HttpGetFuture;
use crate::http::Phase;
use crate::http::Request;
use crate::runtime::waker::Waker;
use vstd::prelude::*;

verus! {

/// The path of the first request.
pub const FIRST_PATH: &'static str = "/600/HelloAsyncAwait";

/// The path of the second request.
pub const SECOND_PATH: &'static str = "/400/HelloAsyncAwait";

/// One line of what the program says.
#[derive(Debug, PartialEq, Eq)]
pub enum Line {
    /// The program has started.
    Starting,
    /// The text of a response.
    Response(String),
    /// The number of responses that were received.
    Received(usize),
}

/// A line, with its text as a sequence.
pub enum Said {
    Starting,
    Response(Seq<char>),
    Received(usize),
}

impl View for Line {
    type V = Said;

    open spec fn view(&self) -> Said {
        match self {
            Line::Starting => Said::Starting,
            Line::Response(text) => Said::Response(text@),
            Line::Received(count) => Said::Received(*count),
        }
    }
}

/// The state of the coroutine: where it is suspended, with the child future
/// that it awaits there.
pub enum State0<F> {
    /// Not polled yet.
    Start,
    /// Awaiting the first response.
    Wait1(F),
    /// Awaiting the second response.
    Wait2(F),
    /// Complete.
    Resolved,
}

/// The variables that live across a suspension. A slot is filled before the
/// coroutine suspends and emptied when it resumes.
pub struct Stack0 {
    pub counter: Option<usize>,
}

/// Where a coroutine is, without the child future.
#[derive(Clone, Copy, Debug, PartialEq, Eq, Structural)]
pub enum Stage {
    Start,
    Wait1,
    Wait2,
    Resolved,
}

impl Stage {
    /// The number of suspension points that are still ahead, counting the
    /// start.
    pub open spec fn ahead(self) -> nat {
        match self {
            Stage::Start => 3,
            Stage::Wait1 => 2,
            Stage::Wait2 => 1,
            Stage::Resolved => 0,
        }
    }
}

impl<F> State0<F> {
    /// The stage of this state.
    pub open spec fn stage(&self) -> Stage {
        match self {
            State0::Start => Stage::Start,
            State0::Wait1(_) => Stage::Wait1,
            State0::Wait2(_) => Stage::Wait2,
            State0::Resolved => Stage::Resolved,
        }
    }

    /// The child future that is awaited in this state, where one is.
    pub open spec fn held(&self) -> F
        recommends
            self is Wait1 || self is Wait2,
    {
        match self {
            State0::Wait1(child) => *child,
            State0::Wait2(child) => *child,
            _ => arbitrary(),
        }
    }
}

/// What the program has said when it is at `stage`: the lines come in the
/// order of the program, each response before the next request is made.
pub open spec fn said_at(stage: Stage, lines: Seq<Said>) -> bool {
    match stage {
        Stage::Start => lines.len() == 0,
        Stage::Wait1 => lines.len() == 1 && lines[0] is Starting,
        Stage::Wait2 => lines.len() == 2 && lines[0] is Starting && lines[1] is Response,
        Stage::Resolved => {
            &&& lines.len() == 4
            &&& lines[0] is Starting
            &&& lines[1] is Response
            &&& lines[2] is Response
            &&& lines[3] == Said::Received(2)
        },
    }
}

/// The counter on the stack when the coroutine is at `stage`: the number of
/// responses received, while it is suspended; no value before the start
/// and after the end.
pub open spec fn counter_at(stage: Stage) -> Option<usize> {
    match stage {
        Stage::Start => None,
        Stage::Wait1 => Some(0usize),
        Stage::Wait2 => Some(1usize),
        Stage::Resolved => None,
    }
}

/// The lines of `output` as sequences.
pub open spec fn lines_of(output: Seq<Line>) -> Seq<Said> {
    output.map_values(|line: Line| line@)
}

/// What a coroutine holds between polls: its saved variables, its state,
/// and what the program has said so far.
pub struct Frame<F> {
    pub stack: Stack0,
    pub state: State0<F>,
    pub output: Vec<Line>,
}

/// The coroutine. `connect` turns a request into the child future that
/// carries it out.
#[verifier::reject_recursive_types(C)]
#[verifier::reject_recursive_types(F)]
pub struct Coroutine0<C, F> where C: Fn(HttpGetFuture) -> F, F: Future<Output = String> {
    frame: Frame<F>,
    connect: C,
}

/// A request for `path` that has not started.
pub open spec fn fresh_request(path: Seq<char>) -> Request {
    Request { phase: Phase::NotStarted, path, received: Seq::empty(), id: 0 }
}

/// Whether `child` is a future that `connect` has made, just now, of a
/// fresh request for `path`.
pub open spec fn connected<C, F>(connect: C, path: Seq<char>, child: F) -> bool where
    C: Fn(HttpGetFuture) -> F,
    F: Future<Output = String>,
 {
    exists|request: HttpGetFuture|
        request@ == fresh_request(path) && #[trigger] call_ensures(connect, (request,), child)
}

/// Whether `connect` can be called on every request that is not done and
/// makes of it a future that has not resolved.
pub open spec fn connects<C, F>(connect: C) -> bool where
    C: Fn(HttpGetFuture) -> F,
    F: Future<Output = String>,
 {
    &&& forall|request: HttpGetFuture|
        request@.phase != Phase::Done ==> call_requires(connect, (request,))
    &&& forall|request: HttpGetFuture, child: F|
        request@.phase != Phase::Done && #[trigger] call_ensures(connect, (request,), child)
            ==> !child.resolved()
}

/// The path of the request that is awaited at `stage`.
pub open spec fn path_at(stage: Stage) -> Seq<char> {
    if stage == Stage::Wait1 {
        FIRST_PATH@
    } else {
        SECOND_PATH@
    }
}

/// The place among the lines where the program says the response that is
/// awaited at `stage`.
pub open spec fn line_at(stage: Stage) -> int {
    if stage == Stage::Wait1 {
        1
    } else {
        2
    }
}

impl<F: Future<Output = String>> Frame<F> {
    /// Where the coroutine is.
    pub open spec fn stage(&self) -> Stage {
        self.state.stage()
    }

    /// What the program has said so far.
    pub open spec fn said(&self) -> Seq<Said> {
        lines_of(self.output@)
    }

    /// Whether `child` is the future that a call has to poll for the
    /// response awaited at `stage`, when the call finds the coroutine as
    /// `self`: the child that is held, if the coroutine is suspended at that
    /// stage, and else one that `connect` has made of a fresh request for the
    /// path of that stage.
    pub open spec fn asks<C: Fn(HttpGetFuture) -> F>(
        &self,
        connect: C,
        stage: Stage,
        child: F,
    ) -> bool {
        if self.stage() == stage {
            child == self.state.held()
        } else {
            connected(connect, path_at(stage), child)
        }
    }

    /// Whether the program has gone on past `stage` with `state` as the
    /// answer of the child that was awaited there: the child was ready, and
    /// the program has said its text in the place of that response.
    pub open spec fn went_on(&self, stage: Stage, state: PollState<String>) -> bool {
        &&& state matches PollState::Ready(text)
        &&& line_at(stage) < self.said().len()
        &&& self.said()[line_at(stage)] == Said::Response(text@)
    }

    /// Whether the counter and the lines fit the stage.
    pub open spec fn fits(&self) -> bool {
        &&& self.stack.counter == counter_at(self.stage())
        &&& said_at(self.stage(), self.said())
    }

    /// What holds of a frame between polls: the counter and the lines fit
    /// the stage, and a child that is awaited has not resolved.
    pub open spec fn consistent(&self) -> bool {
        &&& self.fits()
        &&& self.state matches State0::Wait1(child) ==> !child.resolved()
        &&& self.state matches State0::Wait2(child) ==> !child.resolved()
    }

    /// The frame of a coroutine that has not been polled.
    pub fn start() -> (frame: Self)
        ensures
            frame.consistent(),
            frame.stage() == Stage::Start,
            frame.said() == Seq::<Said>::empty(),
    {
        Frame { stack: Stack0 { counter: None }, state: State0::Start, output: Vec::new() }
    }

    /// Runs the program from its start up to the first suspension: the
    /// counter goes onto the stack, the program says that it starts, and the
    /// first request is made.
    pub fn begin<C: Fn(HttpGetFuture) -> F>(&mut self, connect: &C)
        requires
            connects::<C, F>(*connect),
            old(self).consistent(),
            old(self).stage() == Stage::Start,
        ensures
            final(self).consistent(),
            final(self).stage() == Stage::Wait1,
            final(self).said() == old(self).said().push(Said::Starting),
            final(self).state matches State0::Wait1(child) && connected(
                *connect,
                FIRST_PATH@,
                child,
            ),
    {
        self.stack.counter = Some(0);
        self.output.push(Line::Starting);
        let first = connect(Http::get(FIRST_PATH));
        self.state = State0::Wait1(first);
    }

    /// Runs the program from the suspension where it awaits a response, now
    /// that the child has reported `text`, up to the next suspension or to
    /// the end.
    ///
    /// The counter comes off the stack and counts the response, and the
    /// program says the text. After the first response the second request
    /// is made and the counter goes back onto the stack. After the second
    /// the program says how many responses it has received and completes
    /// with the empty text, which is returned.
    pub fn proceed<C: Fn(HttpGetFuture) -> F>(&mut self, text: String, connect: &C) -> (value:
        Option<String>)
        requires
            connects::<C, F>(*connect),
            old(self).fits(),
            old(self).stage() == Stage::Wait1 || old(self).stage() == Stage::Wait2,
        ensures
            final(self).consistent(),
            old(self).stage() == Stage::Wait1 ==> {
                &&& final(self).stage() == Stage::Wait2
                &&& final(self).said() == old(self).said().push(Said::Response(text@))
                &&& final(self).state matches State0::Wait2(child) && connected(
                    *connect,
                    SECOND_PATH@,
                    child,
                )
                &&& value is None
            },
            old(self).stage() == Stage::Wait2 ==> {
                &&& final(self).stage() == Stage::Resolved
                &&& final(self).said() == old(self).said().push(Said::Response(text@)).push(
                    Said::Received(2),
                )
                &&& value matches Some(empty)
                &&& empty@ == Seq::<char>::empty()
            },
    {
        let counter: usize = self.stack.counter.take().unwrap() + 1;
        self.output.push(Line::Response(text));
        match self.state {
            State0::Wait1(_) => {
                let second = connect(Http::get(SECOND_PATH));
                self.state = State0::Wait2(second);
                self.stack.counter = Some(counter);
                None
            },
            _ => {
                self.output.push(Line::Received(counter));
                self.state = State0::Resolved;
                Some(String::new())
            },
        }
    }
}

/// Runs the coroutine until it suspends or completes.
///
/// From the start, the program runs up to its first request. Where it
/// awaits a child, the child is polled: if it is ready, the program goes on
/// to the next request, or to its end, within the same call; if not, the
/// call returns `NotReady` and nothing has changed. So a call either moves
/// the coroutine forward or leaves it as it was, lines are only added, and
/// `Ready` comes with the empty text when the coroutine has resolved.
///
/// Of the children the contract says, for each of the two responses that
/// the call comes to: the child that stands for it (see `Frame::asks`) was
/// polled with the waker of this call. If the call ends at that stage, the
/// child has answered `NotReady` and is held as its poll left it. If the
/// call has gone on, the child has answered `Ready` with the text that the
/// program says in the place of that response.
pub fn resume<C, F>(frame: &mut Frame<F>, connect: &C, waker: &Waker) -> (polled: PollState<
    String,
>) where C: Fn(HttpGetFuture) -> F, F: Future<Output = String>
    requires
        connects::<C, F>(*connect),
        old(frame).consistent(),
        old(frame).stage() != Stage::Resolved,
    ensures
        final(frame).consistent(),
        polled is Ready <==> final(frame).stage() == Stage::Resolved,
        polled matches PollState::Ready(text) ==> text@ == Seq::<char>::empty(),
        final(frame).stage().ahead() <= old(frame).stage().ahead(),
        final(frame).stage() != Stage::Start,
        final(frame).stage() == old(frame).stage() ==> final(frame).said() == old(frame).said(),
        old(frame).said().len() <= final(frame).said().len(),
        final(frame).said().take(old(frame).said().len() as int) == old(frame).said(),
        old(frame).stage() != Stage::Wait2 ==> exists|child: &mut F, state: PollState<String>|
            {
                &&& old(frame).asks(*connect, Stage::Wait1, *child)
                &&& #[trigger] call_ensures(F::poll, (child, waker), state)
                &&& if final(frame).stage() == Stage::Wait1 {
                    state is NotReady && final(frame).state.held() == *final(child)
                } else {
                    final(frame).went_on(Stage::Wait1, state)
                }
            },
        final(frame).stage() != Stage::Wait1 ==> exists|child: &mut F, state: PollState<String>|
            {
                &&& old(frame).asks(*connect, Stage::Wait2, *child)
                &&& #[trigger] call_ensures(F::poll, (child, waker), state)
                &&& if final(frame).stage() == Stage::Wait2 {
                    state is NotReady && final(frame).state.held() == *final(child)
                } else {
                    final(frame).went_on(Stage::Wait2, state)
                }
            },
{
    loop
        invariant
            connects::<C, F>(*connect),
            frame.consistent(),
            frame.stage() != Stage::Resolved,
            frame.stage().ahead() <= old(frame).stage().ahead(),
            frame.stage() == old(frame).stage() ==> frame.said() == old(frame).said(),
            old(frame).said().len() <= frame.said().len(),
            frame.said().take(old(frame).said().len() as int) == old(frame).said(),
            frame.stage() != Stage::Start ==> old(frame).asks(
                *connect,
                frame.stage(),
                frame.state.held(),
            ),
            old(frame).stage() != Stage::Wait2 && frame.stage() == Stage::Wait2 ==> exists|
                child: &mut F,
                state: PollState<String>,
            |
                {
                    &&& old(frame).asks(*connect, Stage::Wait1, *child)
                    &&& #[trigger] call_ensures(F::poll, (child, waker), state)
                    &&& frame.went_on(Stage::Wait1, state)
                },
        decreases frame.stage().ahead(),
    {
        let state = match &mut frame.state {
            State0::Start => {
                frame.begin(connect);
                continue;
            },
            State0::Wait1(child) => child.poll(waker),
            State0::Wait2(child) => child.poll(waker),
            State0::Resolved => vstd::pervasive::unreached(),
        };
        match state {
            PollState::Ready(text) => {
                match frame.proceed(text, connect) {
                    Some(value) => {
                        return PollState::Ready(value);
                    },
                    None => {},
                }
            },
            PollState::NotReady => {
                return PollState::NotReady;
            },
        }
    }
}

impl<C, F> Coroutine0<C, F> where C: Fn(HttpGetFuture) -> F, F: Future<Output = String> {
    #[verifier::type_invariant]
    spec fn well_formed(&self) -> bool {
        &&& connects::<C, F>(self.connect)
        &&& self.frame.consistent()
    }

    /// What the coroutine holds: its saved variables, its state with the
    /// child that is awaited, and what the program has said.
    pub closed spec fn frame(&self) -> Frame<F> {
        self.frame
    }

    /// The function that makes the child futures.
    pub closed spec fn connector(&self) -> C {
        self.connect
    }

    /// Where the coroutine is.
    pub open spec fn spec_stage(&self) -> Stage {
        self.frame().stage()
    }

    /// What the program has said so far.
    pub open spec fn said(&self) -> Seq<Said> {
        self.frame().said()
    }

    /// A coroutine at its start, which makes its child futures with
    /// `connect`.
    pub fn new(connect: C) -> (coroutine: Self)
        requires
            connects::<C, F>(connect),
        ensures
            coroutine.stage() == Stage::Start,
            coroutine.said() == Seq::<Said>::empty(),
            coroutine.connector() == connect,
            !coroutine.resolved(),
    {
        Coroutine0 { frame: Frame::start(), connect }
    }

    /// Where the coroutine is. What it has said so far goes with the stage.
    #[verifier::when_used_as_spec(spec_stage)]
    pub fn stage(&self) -> (stage: Stage)
        ensures
            stage == self.stage(),
            stage == Stage::Resolved <==> self.resolved(),
            said_at(stage, self.said()),
    {
        proof {
            use_type_invariant(self);
        }
        match self.frame.state {
            State0::Start => Stage::Start,
            State0::Wait1(_) => Stage::Wait1,
            State0::Wait2(_) => Stage::Wait2,
            State0::Resolved => Stage::Resolved,
        }
    }

    /// What the program has said so far, for the caller to print.
    pub fn output(&self) -> (lines: &Vec<Line>)
        ensures
            lines_of(lines@) == self.said(),
    {
        &self.frame.output
    }
}

impl<C, F> Future for Coroutine0<C, F> where C: Fn(HttpGetFuture) -> F, F: Future<Output = String> {
    type Output = String;

    open spec fn resolved(&self) -> bool {
        self.stage() == Stage::Resolved
    }

    /// Runs the program until it has to wait for a response or is complete.
    /// The call moves the coroutine forward or leaves it as it was, only
    /// adds to what was said, and completes with the empty text.
    ///
    /// For each of the two responses that the call comes to, the child that
    /// stands for it was polled with the waker of this call. If the call
    /// ends at that stage, the child has answered `NotReady` and is held as
    /// its poll left it. If the call has gone on, the child has answered
    /// `Ready` with the text that the program says in the place of that
    /// response.
    fn poll(&mut self, waker: &Waker) -> (state: PollState<String>)
        ensures
            state is Ready <==> final(self).stage() == Stage::Resolved,
            state matches PollState::Ready(text) ==> text@ == Seq::<char>::empty(),
            final(self).connector() == old(self).connector(),
            final(self).stage().ahead() <= old(self).stage().ahead(),
            final(self).stage() != Stage::Start,
            final(self).stage() == old(self).stage() ==> final(self).said() == old(self).said(),
            said_at(final(self).stage(), final(self).said()),
            old(self).said().len() <= final(self).said().len(),
            final(self).said().take(old(self).said().len() as int) == old(self).said(),
            old(self).stage() != Stage::Wait2 ==> exists|child: &mut F, answer: PollState<String>|
                {
                    &&& old(self).frame().asks(old(self).connector(), Stage::Wait1, *child)
                    &&& #[trigger] call_ensures(F::poll, (child, waker), answer)
                    &&& if final(self).stage() == Stage::Wait1 {
                        answer is NotReady && final(self).frame().state.held() == *final(child)
                    } else {
                        final(self).frame().went_on(Stage::Wait1, answer)
                    }
                },
            final(self).stage() != Stage::Wait1 ==> exists|child: &mut F, answer: PollState<String>|
                {
                    &&& old(self).frame().asks(old(self).connector(), Stage::Wait2, *child)
                    &&& #[trigger] call_ensures(F::poll, (child, waker), answer)
                    &&& if final(self).stage() == Stage::Wait2 {
                        answer is NotReady && final(self).frame().state.held() == *final(child)
                    } else {
                        final(self).frame().went_on(Stage::Wait2, answer)
                    }
                },
    {
        proof {
            use_type_invariant(&*self);
        }
        let mut frame = Frame::start();
        std::mem::swap(&mut self.frame, &mut frame);
        let state = resume(&mut frame, &self.connect, waker);
        self.frame = frame;
        state
    }
}

/// The program as a future: a coroutine at its start.
pub fn async_main<C, F>(connect: C) -> (coroutine: Coroutine0<C, F>) where
    C: Fn(HttpGetFuture) -> F,
    F: Future<Output = String>,

    requires
        connects::<C, F>(connect),
    ensures
        coroutine.stage() == Stage::Start,
        coroutine.said() == Seq::<Said>::empty(),
        coroutine.connector() == connect,
        !coroutine.resolved(),
{
    Coroutine0::new(connect)
}

} // verus!
