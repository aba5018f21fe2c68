//! Connect screen: waits for the browser and for the user to reach the form.
use vstd::prelude::*;
use super::{Color, KeyCode, KeyPress, Span, SpanView};

verus! {

/// How far the connection to the browser has come.
#[derive(Debug, PartialEq)]
pub enum State {
    Launching,
    Ready,
    Failed(String),
}

/// The contents of a [`State`].
#[verifier::ext_equal]
pub enum StateView {
    Launching,
    Ready,
    Failed(Seq<char>),
}

impl View for State {
    type V = StateView;

    open spec fn view(&self) -> StateView {
        match *self {
            State::Launching => StateView::Launching,
            State::Ready => StateView::Ready,
            State::Failed(why) => StateView::Failed(why@),
        }
    }
}

/// What a key press on the connect screen asks for.
#[derive(Debug, Clone, Copy, PartialEq, Eq, Structural)]
pub enum ConnectAction {
    /// Stay on the screen.
    Stay,
    /// Leave the application.
    Quit,
    /// Go on with the browser.
    Continue,
    /// Launch the browser again.
    Relaunch,
}

/// What a key press on the connect screen asks for.
pub open spec fn asked(key: KeyPress, state: StateView) -> ConnectAction {
    if key.quits() {
        ConnectAction::Quit
    } else if state is Ready && key.code == KeyCode::Enter {
        ConnectAction::Continue
    } else if state is Failed && (key.code == KeyCode::Enter || key.code == KeyCode::Char('r')) {
        ConnectAction::Relaunch
    } else {
        ConnectAction::Stay
    }
}

/// Handles a key press.
pub fn handle_event(key: KeyPress, state: &mut State) -> (action: ConnectAction)
    ensures
        action == asked(key, old(state)@),
        final(state)@ == if action == ConnectAction::Continue || action == ConnectAction::Relaunch {
            StateView::Launching
        } else {
            old(state)@
        },
{
    if key.is_quit() {
        return ConnectAction::Quit;
    }
    match state {
        State::Launching => ConnectAction::Stay,
        State::Ready => {
            if key.code == KeyCode::Enter {
                *state = State::Launching;
                ConnectAction::Continue
            } else {
                ConnectAction::Stay
            }
        },
        State::Failed(_) => {
            if key.code == KeyCode::Enter || key.code == KeyCode::Char('r') {
                *state = State::Launching;
                ConnectAction::Relaunch
            } else {
                ConnectAction::Stay
            }
        },
    }
}

/// Takes in what came of launching the browser.
pub fn launched(outcome: Result<(), String>) -> (state: State)
    ensures
        state@ == match outcome {
            Ok(_) => StateView::Ready,
            Err(why) => StateView::Failed(why@),
        },
{
    match outcome {
        Ok(_) => State::Ready,
        Err(why) => State::Failed(why),
    }
}

/// The lines of the screen.
pub open spec fn screen_lines(state: StateView) -> Seq<Seq<SpanView>> {
    match state {
        StateView::Launching => seq![
            seq![super::plain_span("Launching browser and connecting to Chrome DevTools…"@)],
            seq![super::plain_span(""@)],
            seq![super::plain_span("A Chrome or Edge window should appear shortly."@)],
            seq![super::colored_span("[q]"@, Color::Red), super::plain_span(" Quit"@)],
        ],
        StateView::Ready => seq![
            seq![super::plain_span("Browser launched."@)],
            seq![super::plain_span(""@)],
            seq![super::plain_span("Navigate to your form and press Enter to start recording."@)],
            seq![
                super::colored_span("[Enter]"@, Color::Green),
                super::plain_span(" Start recording   "@),
                super::colored_span("[q]"@, Color::Red),
                super::plain_span(" Quit"@),
            ],
        ],
        StateView::Failed(why) => seq![
            seq![super::plain_span("Failed to connect to the browser."@)],
            seq![super::plain_span(""@)],
            seq![super::colored_span(why, Color::Red)],
            seq![
                super::colored_span("[Enter]"@, Color::Green),
                super::plain_span(" Retry   "@),
                super::colored_span("[q]"@, Color::Red),
                super::plain_span(" Quit"@),
            ],
        ],
    }
}

/// The lines of the screen.
pub fn lines(state: &State) -> (lines: Vec<Vec<Span>>)
    ensures
        lines.deep_view() == screen_lines(state@),
{
    let mut lines: Vec<Vec<Span>> = Vec::new();
    let mut keys: Vec<Span> = Vec::new();
    match state {
        State::Launching => {
            lines.push(
                super::line(super::plain("Launching browser and connecting to Chrome DevTools…")),
            );
            lines.push(super::line(super::plain("")));
            lines.push(super::line(super::plain("A Chrome or Edge window should appear shortly.")));
        },
        State::Ready => {
            lines.push(super::line(super::plain("Browser launched.")));
            lines.push(super::line(super::plain("")));
            lines.push(
                super::line(
                    super::plain("Navigate to your form and press Enter to start recording."),
                ),
            );
            keys.push(super::colored("[Enter]", Color::Green));
            keys.push(super::plain(" Start recording   "));
        },
        State::Failed(why) => {
            lines.push(super::line(super::plain("Failed to connect to the browser.")));
            lines.push(super::line(super::plain("")));
            lines.push(super::line(super::colored(why, Color::Red)));
            keys.push(super::colored("[Enter]", Color::Green));
            keys.push(super::plain(" Retry   "));
        },
    }
    keys.push(super::colored("[q]", Color::Red));
    keys.push(super::plain(" Quit"));
    assert(keys.deep_view() =~= screen_lines(state@)[3]);
    lines.push(keys);
    assert(lines.deep_view() =~= screen_lines(state@));
    lines
}

/// The screen goes on only when the browser is ready, launches again only after a
/// failure, and can be left at any time.
pub proof fn law_when_to_go_on(key: KeyPress, state: StateView)
    ensures
        asked(key, state) == ConnectAction::Quit <==> key.code == KeyCode::Char('q') || key.code
            == KeyCode::Char('c') && key.ctrl,
        asked(key, state) == ConnectAction::Continue <==> state is Ready && key.code
            == KeyCode::Enter,
        asked(key, state) == ConnectAction::Relaunch <==> state is Failed && (key.code
            == KeyCode::Enter || key.code == KeyCode::Char('r')),
{
}

/// A failure is shown with its reason, and what can be pressed is shown where it can
/// be: Enter unless the browser is still being launched.
pub proof fn law_failure_is_shown(state: StateView)
    ensures
        state matches StateView::Failed(why) ==> exists|i: int|
            0 <= i < screen_lines(state).len() && (#[trigger] screen_lines(state)[i]).len() == 1
                && screen_lines(state)[i][0].text == why && screen_lines(state)[i][0].color
                == Color::Red,
        screen_lines(state).last()[0].text == "[Enter]"@ <==> state !is Launching,
{
    reveal_strlit("[Enter]");
    reveal_strlit("[q]");
    assert("[Enter]"@.len() == 7 && "[q]"@.len() == 3);
    let keys = screen_lines(state).last();
    assert(keys == screen_lines(state)[3]);
    if state is Failed {
        assert(screen_lines(state)[2].len() == 1);
    }
}

} // verus!
