//! The operations that a layout tree compiles to, and their lowering into a
//! batch of tmux commands.
use tmux_interface::{NewSession, SelectPane, SendKeys, SplitWindow, TmuxCommands};
use vstd::prelude::*;

verus! {

/// How a split lays out the two new panes.
#[derive(Debug, Clone, Copy, PartialEq, Eq, Structural)]
pub enum Orientation {
    /// Side by side (tmux's `-h`).
    Horizontal,
    /// One above the other (tmux's `-v`).
    Vertical,
}

/// The pane that a selection moves to.
#[derive(Debug, Clone, Copy, PartialEq, Eq, Structural)]
pub enum Direction {
    Left,
    Right,
    Up,
    Down,
}

/// One operation for the multiplexer.
#[derive(Debug)]
pub enum TmuxOp {
    /// Types `text` into the pane `target`.
    SendText { target: String, text: String },
    /// Presses Enter in the pane `target`.
    SendEnter { target: String },
    /// Splits the window `target`.
    SplitPane { target: String, orientation: Orientation },
    /// Moves to the neighbouring pane.
    SelectPane { direction: Direction },
}

/// Mathematical counterpart of [`TmuxOp`].
pub enum OpView {
    SendText(Seq<char>, Seq<char>),
    SendEnter(Seq<char>),
    SplitPane(Seq<char>, Orientation),
    SelectPane(Direction),
}

impl View for TmuxOp {
    type V = OpView;

    open spec fn view(&self) -> OpView {
        match self {
            TmuxOp::SendText { target, text } => OpView::SendText(target@, text@),
            TmuxOp::SendEnter { target } => OpView::SendEnter(target@),
            TmuxOp::SplitPane { target, orientation } => OpView::SplitPane(target@, *orientation),
            TmuxOp::SelectPane { direction } => OpView::SelectPane(*direction),
        }
    }
}

/// The views of a sequence of operations.
pub open spec fn ops_view(ops: Seq<TmuxOp>) -> Seq<OpView> {
    ops.map_values(|o: TmuxOp| o@)
}

pub proof fn lemma_ops_view_concat(a: Seq<TmuxOp>, b: Seq<TmuxOp>)
    ensures
        ops_view(a + b) == ops_view(a) + ops_view(b),
{
    assert(ops_view(a + b) =~= ops_view(a) + ops_view(b));
}

/// One tmux command of a batch, as this library builds them.
pub enum TmuxCall {
    /// `send-keys -t target key`.
    SendKeys(Seq<char>, Seq<char>),
    /// `split-window -h|-v -t target`; `true` for `-h`.
    SplitWindow(Seq<char>, bool),
    /// `select-pane -L|-R|-U|-D`.
    SelectPane(Direction),
    /// `new-session -A -s session -c start_directory`.
    NewSession(Seq<char>, Seq<char>),
}

/// The key that tmux reads as Enter.
pub open spec fn enter_key() -> Seq<char> {
    seq!['C', '-', 'm']
}

/// The tmux command that performs an operation.
pub open spec fn call_of(op: OpView) -> TmuxCall {
    match op {
        OpView::SendText(target, text) => TmuxCall::SendKeys(target, text),
        OpView::SendEnter(target) => TmuxCall::SendKeys(target, enter_key()),
        OpView::SplitPane(target, orientation) => TmuxCall::SplitWindow(
            target,
            orientation == Orientation::Horizontal,
        ),
        OpView::SelectPane(direction) => TmuxCall::SelectPane(direction),
    }
}

/// The tmux commands that perform a sequence of operations.
pub open spec fn calls_of(ops: Seq<OpView>) -> Seq<TmuxCall> {
    ops.map_values(|o: OpView| call_of(o))
}

#[verifier::external_type_specification]
#[verifier::external_body]
pub struct ExTmuxCommands<'a>(TmuxCommands<'a>);

/// The commands of a batch, in the order in which tmux runs them.
pub uninterp spec fn batch_calls(c: TmuxCommands) -> Seq<TmuxCall>;

/// Relies on `TmuxCommands::new`: a batch without commands.
#[verifier::external_body]
fn empty_batch<'a>() -> (r: TmuxCommands<'a>)
    ensures
        batch_calls(r) == Seq::<TmuxCall>::empty(),
{
    TmuxCommands::new()
}

/// Relies on `TmuxCommands::push` (it appends to the batch's command list) of
/// `SendKeys::new().target_pane(target).key(key)`.
#[verifier::external_body]
fn push_send_keys<'a>(c: &mut TmuxCommands<'a>, target: String, key: String)
    ensures
        batch_calls(*final(c)) == batch_calls(*old(c)).push(TmuxCall::SendKeys(target@, key@)),
{
    c.push(SendKeys::new().target_pane(target).key(key))
}

/// Relies on `TmuxCommands::push` of
/// `SplitWindow::new().horizontal().target_window(target)`.
#[verifier::external_body]
fn push_split_horizontal<'a>(c: &mut TmuxCommands<'a>, target: String)
    ensures
        batch_calls(*final(c)) == batch_calls(*old(c)).push(TmuxCall::SplitWindow(target@, true)),
{
    c.push(SplitWindow::new().horizontal().target_window(target))
}

/// Relies on `TmuxCommands::push` of
/// `SplitWindow::new().vertical().target_window(target)`.
#[verifier::external_body]
fn push_split_vertical<'a>(c: &mut TmuxCommands<'a>, target: String)
    ensures
        batch_calls(*final(c)) == batch_calls(*old(c)).push(TmuxCall::SplitWindow(target@, false)),
{
    c.push(SplitWindow::new().vertical().target_window(target))
}

/// Relies on `TmuxCommands::push` of `SelectPane::new().left()`.
#[verifier::external_body]
fn push_select_left<'a>(c: &mut TmuxCommands<'a>)
    ensures
        batch_calls(*final(c)) == batch_calls(*old(c)).push(TmuxCall::SelectPane(Direction::Left)),
{
    c.push(SelectPane::new().left())
}

/// Relies on `TmuxCommands::push` of `SelectPane::new().right()`.
#[verifier::external_body]
fn push_select_right<'a>(c: &mut TmuxCommands<'a>)
    ensures
        batch_calls(*final(c)) == batch_calls(*old(c)).push(TmuxCall::SelectPane(Direction::Right)),
{
    c.push(SelectPane::new().right())
}

/// Relies on `TmuxCommands::push` of `SelectPane::new().up()`.
#[verifier::external_body]
fn push_select_up<'a>(c: &mut TmuxCommands<'a>)
    ensures
        batch_calls(*final(c)) == batch_calls(*old(c)).push(TmuxCall::SelectPane(Direction::Up)),
{
    c.push(SelectPane::new().up())
}

/// Relies on `TmuxCommands::push` of `SelectPane::new().down()`.
#[verifier::external_body]
fn push_select_down<'a>(c: &mut TmuxCommands<'a>)
    ensures
        batch_calls(*final(c)) == batch_calls(*old(c)).push(TmuxCall::SelectPane(Direction::Down)),
{
    c.push(SelectPane::new().down())
}

/// Relies on `TmuxCommands::push` of
/// `NewSession::new().attach().session_name(session).start_directory(start_dir)`.
#[verifier::external_body]
fn push_new_session<'a>(c: &mut TmuxCommands<'a>, session: String, start_dir: String)
    ensures
        batch_calls(*final(c)) == batch_calls(*old(c)).push(
            TmuxCall::NewSession(session@, start_dir@),
        ),
{
    c.push(NewSession::new().attach().session_name(session).start_directory(start_dir))
}

/// A batch that creates the session `session`, started in `start_dir` and
/// attached, then performs `ops` in it.
pub fn launch_batch<'a>(session: String, start_dir: String, ops: Vec<TmuxOp>) -> (r: TmuxCommands<
    'a,
>)
    ensures
        batch_calls(r) == seq![TmuxCall::NewSession(session@, start_dir@)] + calls_of(
            ops_view(ops@),
        ),
{
    let mut batch = empty_batch();
    push_new_session(&mut batch, session, start_dir);
    push_ops(&mut batch, ops);
    proof {
        assert(Seq::<TmuxCall>::empty().push(TmuxCall::NewSession(session@, start_dir@))
            =~= seq![TmuxCall::NewSession(session@, start_dir@)]);
    }
    batch
}

/// Appends to `batch` the tmux command that performs `op`.
pub fn push_op<'a>(batch: &mut TmuxCommands<'a>, op: TmuxOp)
    ensures
        batch_calls(*final(batch)) == batch_calls(*old(batch)).push(call_of(op@)),
{
    match op {
        TmuxOp::SendText { target, text } => push_send_keys(batch, target, text),
        TmuxOp::SendEnter { target } => {
            let key = String::from_str("C-m");
            proof {
                reveal_strlit("C-m");
                assert(key@ =~= enter_key());
            }
            push_send_keys(batch, target, key)
        },
        TmuxOp::SplitPane { target, orientation } => match orientation {
            Orientation::Horizontal => push_split_horizontal(batch, target),
            Orientation::Vertical => push_split_vertical(batch, target),
        },
        TmuxOp::SelectPane { direction } => match direction {
            Direction::Left => push_select_left(batch),
            Direction::Right => push_select_right(batch),
            Direction::Up => push_select_up(batch),
            Direction::Down => push_select_down(batch),
        },
    }
}

/// Appends to `batch` the tmux commands that perform `ops`, in order.
pub fn push_ops<'a>(batch: &mut TmuxCommands<'a>, ops: Vec<TmuxOp>)
    ensures
        batch_calls(*final(batch)) == batch_calls(*old(batch)) + calls_of(ops_view(ops@)),
{
    let ghost start = batch_calls(*batch);
    let ghost all = ops@;
    let n = ops.len();
    let mut rest = ops;
    let mut done: usize = 0;
    while rest.len() > 0
        invariant
            all.len() == n,
            done + rest.len() == all.len(),
            rest@ == all.subrange(done as int, all.len() as int),
            batch_calls(*batch) == start + calls_of(ops_view(all.subrange(0, done as int))),
        decreases rest.len(),
    {
        let op = rest.remove(0);
        proof {
            assert(op == all[done as int]);
            assert(rest@ =~= all.subrange(done + 1, all.len() as int));
        }
        push_op(batch, op);
        done = done + 1;
        proof {
            assert(calls_of(ops_view(all.subrange(0, done as int))) =~= calls_of(
                ops_view(all.subrange(0, done - 1)),
            ).push(call_of(all[done - 1]@)));
        }
    }
    proof {
        assert(all.subrange(0, done as int) =~= all);
    }
}

/// A batch holding the tmux commands that perform `ops`, in order.
pub fn batch_of<'a>(ops: Vec<TmuxOp>) -> (r: TmuxCommands<'a>)
    ensures
        batch_calls(r) == calls_of(ops_view(ops@)),
{
    let mut batch = empty_batch();
    push_ops(&mut batch, ops);
    proof {
        assert(Seq::<TmuxCall>::empty() + calls_of(ops_view(ops@)) =~= calls_of(ops_view(ops@)));
    }
    batch
}

} // verus!
