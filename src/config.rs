//! Layout trees, their compilation into multiplexer operations, and the
//! catalog of trees.
use vstd::prelude::*;

use tmux_interface::TmuxCommands;

use crate::database::Space;
use crate::entries::{map_of, unique_names, NamedEntries};
use crate::template::{expand, expand_template, push_char, CmdParsingError, TemplateFault};
use crate::tmux::{
    batch_calls, batch_of, calls_of, lemma_ops_view_concat, ops_view, Direction, OpView,
    Orientation, TmuxOp,
};
use crate::DsError;

verus! {

/// A tree, what the environment will look like.
#[derive(Debug)]
pub enum SpaceTree {
    /// A command to run in the pane; `{Space.wdir}` in it stands for the
    /// working directory of the space.
    Cmd(String),
    /// Splits the pane into a left and a right one.
    TmuxVSplit { lhs: Option<Box<SpaceTree>>, rhs: Option<Box<SpaceTree>> },
    /// Splits the pane into a top and a bottom one.
    TmuxHSplit { top: Option<Box<SpaceTree>>, bottom: Option<Box<SpaceTree>> },
}

/// The name of a tree.
#[derive(Debug)]
pub struct SpaceTreeId(pub String);

impl Clone for SpaceTreeId {
    fn clone(&self) -> (r: Self)
        ensures
            r == *self,
    {
        SpaceTreeId(self.0.clone())
    }
}

impl Clone for SpaceTree {
    fn clone(&self) -> (r: Self)
        ensures
            r == *self,
        decreases self,
    {
        match self {
            SpaceTree::Cmd(c) => SpaceTree::Cmd(c.clone()),
            SpaceTree::TmuxVSplit { lhs, rhs } => SpaceTree::TmuxVSplit {
                lhs: match lhs {
                    Some(b) => Some(Box::new((**b).clone())),
                    None => None,
                },
                rhs: match rhs {
                    Some(b) => Some(Box::new((**b).clone())),
                    None => None,
                },
            },
            SpaceTree::TmuxHSplit { top, bottom } => SpaceTree::TmuxHSplit {
                top: match top {
                    Some(b) => Some(Box::new((**b).clone())),
                    None => None,
                },
                bottom: match bottom {
                    Some(b) => Some(Box::new((**b).clone())),
                    None => None,
                },
            },
        }
    }
}

impl From<&str> for SpaceTreeId {
    fn from(value: &str) -> (r: Self)
        ensures
            r.0@ == value@,
    {
        SpaceTreeId(String::from_str(value))
    }
}

impl vstd::std_specs::convert::FromSpecImpl<&str> for SpaceTreeId {
    /// A `String` cannot be built in specifications: the conversion is
    /// described by the `ensures` of `from` alone.
    open spec fn obeys_from_spec() -> bool {
        false
    }

    open spec fn from_spec(v: &str) -> SpaceTreeId {
        arbitrary()
    }
}

/// The operations of one side of a split: the selection of that side, then
/// its own operations; nothing where the side is absent.
pub open spec fn side_ops(present: bool, dir: Direction, ops: Seq<OpView>) -> Seq<OpView> {
    if present {
        seq![OpView::SelectPane(dir)] + ops
    } else {
        Seq::empty()
    }
}

/// A split: the split itself first, then the first side, then the second. The
/// first side's failure comes before the second's.
pub open spec fn split_ops(
    split: OpView,
    first_present: bool,
    first_dir: Direction,
    first: Result<Seq<OpView>, TemplateFault>,
    second_present: bool,
    second_dir: Direction,
    second: Result<Seq<OpView>, TemplateFault>,
) -> Result<Seq<OpView>, TemplateFault> {
    match first {
        Err(e) => Err(e),
        Ok(a) => match second {
            Err(e) => Err(e),
            Ok(b) => Ok(
                seq![split] + side_ops(first_present, first_dir, a) + side_ops(
                    second_present,
                    second_dir,
                    b,
                ),
            ),
        },
    }
}

/// The operations that tree `t` compiles to, for a space whose working
/// directory is `wdir`, against the pane `target`.
pub open spec fn compile_ops(t: SpaceTree, wdir: Seq<char>, target: Seq<char>) -> Result<
    Seq<OpView>,
    TemplateFault,
>
    decreases t,
{
    match t {
        SpaceTree::Cmd(c) => match expand(c@, wdir) {
            Ok(x) => Ok(seq![OpView::SendText(target, x), OpView::SendEnter(target)]),
            Err(e) => Err(e),
        },
        SpaceTree::TmuxVSplit { lhs, rhs } => split_ops(
            OpView::SplitPane(target, Orientation::Horizontal),
            lhs is Some,
            Direction::Left,
            match lhs {
                Some(b) => compile_ops(*b, wdir, target),
                None => Ok(Seq::empty()),
            },
            rhs is Some,
            Direction::Right,
            match rhs {
                Some(b) => compile_ops(*b, wdir, target),
                None => Ok(Seq::empty()),
            },
        ),
        SpaceTree::TmuxHSplit { top, bottom } => split_ops(
            OpView::SplitPane(target, Orientation::Vertical),
            top is Some,
            Direction::Up,
            match top {
                Some(b) => compile_ops(*b, wdir, target),
                None => Ok(Seq::empty()),
            },
            bottom is Some,
            Direction::Down,
            match bottom {
                Some(b) => compile_ops(*b, wdir, target),
                None => Ok(Seq::empty()),
            },
        ),
    }
}

/// The trees, keyed by name, and the one given to new spaces.
#[derive(Debug)]
pub struct Config {
    /// The tree of a space created without one.
    pub default_tree: SpaceTreeId,
    pub trees: NamedEntries<SpaceTree>,
}

/// The greeting that the default tree runs.
pub open spec fn welcome_cmd() -> Seq<char> {
    "clear && echo 'Hello, welcome to the default devspace's tree'"@
}

/// The name of the default tree.
pub open spec fn jump_name() -> Seq<char> {
    "jump"@
}

impl Default for Config {
    /// One tree, `jump`, that greets; it is also the default tree.
    fn default() -> (r: Config)
        ensures
            r.wf(),
            r.default_tree.0@ == jump_name(),
            r.trees().dom() == set![jump_name()],
            r.trees()[jump_name()] matches SpaceTree::Cmd(c) && c@ == welcome_cmd(),
    {
        let mut trees = NamedEntries::new();
        trees.insert(
            String::from_str("jump"),
            SpaceTree::Cmd(String::from_str("clear && echo 'Hello, welcome to the default devspace's tree'")),
        );
        proof {
            assert(trees@.dom() =~= set![jump_name()]);
        }
        Config { default_tree: SpaceTreeId::from("jump"), trees }
    }
}

impl Config {
    pub closed spec fn wf(&self) -> bool {
        self.trees.wf()
    }

    /// The trees, keyed by name.
    pub closed spec fn trees(&self) -> Map<Seq<char>, SpaceTree> {
        self.trees@
    }

    /// A configuration without trees.
    pub fn new(default_tree: SpaceTreeId) -> (r: Config)
        ensures
            r.wf(),
            r.default_tree == default_tree,
            r.trees() == Map::<Seq<char>, SpaceTree>::empty(),
    {
        Config { default_tree, trees: NamedEntries::new() }
    }

    /// A configuration with the trees of `trees` keyed by their names; where
    /// a name occurs twice the later tree is kept.
    pub fn from_trees(default_tree: SpaceTreeId, trees: Vec<(String, SpaceTree)>) -> (r: Config)
        ensures
            r.wf(),
            r.default_tree == default_tree,
            r.trees() == map_of(trees@),
    {
        Config { default_tree, trees: NamedEntries::from_items(trees) }
    }

    /// The tree of the given name.
    pub fn get_tree(&self, key: &SpaceTreeId) -> (r: Result<&SpaceTree, DsError>)
        requires
            self.wf(),
        ensures
            match r {
                Ok(t) => self.trees().contains_key(key.0@) && *t == self.trees()[key.0@],
                Err(e) => !self.trees().contains_key(key.0@) && e == DsError::SpaceTreeNotFound(
                    *key,
                ),
            },
    {
        match self.trees.get(key.0.as_str()) {
            Some(t) => Ok(t),
            None => Err(DsError::SpaceTreeNotFound(key.clone())),
        }
    }

    /// Binds `tree_name` to `tree`, replacing a tree of that name.
    pub fn insert_tree(&mut self, tree_name: String, tree: SpaceTree)
        requires
            old(self).wf(),
        ensures
            final(self).wf(),
            final(self).default_tree == old(self).default_tree,
            final(self).trees() == old(self).trees().insert(tree_name@, tree),
    {
        self.trees.insert(tree_name, tree)
    }

    /// Removes the tree of the given name; does nothing where there is none.
    pub fn remove_tree(&mut self, tree_name: &str)
        requires
            old(self).wf(),
        ensures
            final(self).wf(),
            final(self).default_tree == old(self).default_tree,
            final(self).trees() == old(self).trees().remove(tree_name@),
    {
        self.trees.remove(tree_name)
    }

    /// Whether no tree is configured.
    pub fn is_empty_trees(&self) -> (r: bool)
        requires
            self.wf(),
        ensures
            self.trees().dom().finite(),
            r == (self.trees() == Map::<Seq<char>, SpaceTree>::empty()),
            r == (self.trees().dom().len() == 0),
    {
        self.trees.is_empty()
    }

    /// The trees with their names, each name once, in no particular order.
    pub fn trees_iter(&self) -> (r: &Vec<(String, SpaceTree)>)
        requires
            self.wf(),
        ensures
            unique_names(r@),
            map_of(r@) == self.trees(),
    {
        self.trees.entries()
    }
}

/// A leaf compiles to exactly two operations, the text and then Enter, both
/// sent to the target pane; it fails only where its template does.
pub proof fn lemma_leaf_two_ops(t: String, wdir: Seq<char>, target: Seq<char>)
    ensures
        compile_ops(SpaceTree::Cmd(t), wdir, target) is Ok <==> expand(t@, wdir) is Ok,
        compile_ops(SpaceTree::Cmd(t), wdir, target) is Ok ==> {
            let ops = compile_ops(SpaceTree::Cmd(t), wdir, target)->Ok_0;
            &&& ops.len() == 2
            &&& ops[0] == OpView::SendText(target, expand(t@, wdir)->Ok_0)
            &&& ops[1] == OpView::SendEnter(target)
        },
{
}

/// A vertical split of two leaves compiles to the split, then the left pane's
/// selection and command, then the right pane's, in this order.
pub proof fn lemma_vsplit_of_two_leaves(a: String, b: String, wdir: Seq<char>, target: Seq<char>)
    requires
        expand(a@, wdir) is Ok,
        expand(b@, wdir) is Ok,
    ensures
        compile_ops(
            SpaceTree::TmuxVSplit {
                lhs: Some(Box::new(SpaceTree::Cmd(a))),
                rhs: Some(Box::new(SpaceTree::Cmd(b))),
            },
            wdir,
            target,
        ) == Ok::<Seq<OpView>, TemplateFault>(
            seq![
                OpView::SplitPane(target, Orientation::Horizontal),
                OpView::SelectPane(Direction::Left),
                OpView::SendText(target, expand(a@, wdir)->Ok_0),
                OpView::SendEnter(target),
                OpView::SelectPane(Direction::Right),
                OpView::SendText(target, expand(b@, wdir)->Ok_0),
                OpView::SendEnter(target),
            ],
        ),
{
    let t = SpaceTree::TmuxVSplit {
        lhs: Some(Box::new(SpaceTree::Cmd(a))),
        rhs: Some(Box::new(SpaceTree::Cmd(b))),
    };
    let ea = expand(a@, wdir)->Ok_0;
    let eb = expand(b@, wdir)->Ok_0;
    assert(compile_ops(SpaceTree::Cmd(a), wdir, target) == Ok::<Seq<OpView>, TemplateFault>(
        seq![OpView::SendText(target, ea), OpView::SendEnter(target)],
    ));
    assert(compile_ops(SpaceTree::Cmd(b), wdir, target) == Ok::<Seq<OpView>, TemplateFault>(
        seq![OpView::SendText(target, eb), OpView::SendEnter(target)],
    ));
    assert(compile_ops(t, wdir, target)->Ok_0 =~= seq![
        OpView::SplitPane(target, Orientation::Horizontal),
        OpView::SelectPane(Direction::Left),
        OpView::SendText(target, ea),
        OpView::SendEnter(target),
        OpView::SelectPane(Direction::Right),
        OpView::SendText(target, eb),
        OpView::SendEnter(target),
    ]);
}

/// A split with both sides absent compiles to the split alone.
pub proof fn lemma_empty_splits(wdir: Seq<char>, target: Seq<char>)
    ensures
        compile_ops(SpaceTree::TmuxVSplit { lhs: None, rhs: None }, wdir, target) == Ok::<
            Seq<OpView>,
            TemplateFault,
        >(seq![OpView::SplitPane(target, Orientation::Horizontal)]),
        compile_ops(SpaceTree::TmuxHSplit { top: None, bottom: None }, wdir, target) == Ok::<
            Seq<OpView>,
            TemplateFault,
        >(seq![OpView::SplitPane(target, Orientation::Vertical)]),
{
    assert(compile_ops(SpaceTree::TmuxVSplit { lhs: None, rhs: None }, wdir, target)->Ok_0
        =~= seq![OpView::SplitPane(target, Orientation::Horizontal)]);
    assert(compile_ops(SpaceTree::TmuxHSplit { top: None, bottom: None }, wdir, target)->Ok_0
        =~= seq![OpView::SplitPane(target, Orientation::Vertical)]);
}

/// Appends one side of a split: the selection of that side, then its
/// operations.
fn push_side(ops: &mut Vec<TmuxOp>, dir: Direction, sub: Vec<TmuxOp>)
    ensures
        ops_view(final(ops)@) == ops_view(old(ops)@) + side_ops(true, dir, ops_view(sub@)),
{
    let mut sub = sub;
    let ghost before = ops@;
    let ghost rest = sub@;
    ops.push(TmuxOp::SelectPane { direction: dir });
    let ghost pushed = ops@;
    ops.append(&mut sub);
    proof {
        lemma_ops_view_concat(pushed, rest);
        assert(ops_view(pushed) =~= ops_view(before) + seq![OpView::SelectPane(dir)]);
        assert(ops_view(before) + seq![OpView::SelectPane(dir)] + ops_view(rest) =~= ops_view(
            before,
        ) + side_ops(true, dir, ops_view(rest)));
    }
}

/// What `{:?}` prints of a string: the string quoted, with escapes.
pub uninterp spec fn debug_str(s: Seq<char>) -> Seq<char>;

/// Relies on the `Debug` format of `str`, through `format!("{:?}")`.
#[verifier::external_body]
fn debug_quoted(s: &str) -> (r: String)
    ensures
        r@ == debug_str(s@),
{
    format!("{:?}", s)
}

/// `n` spaces.
pub open spec fn blanks(n: nat) -> Seq<char> {
    Seq::new(n, |i: int| ' ')
}

/// How deep splits nest in `t`.
pub open spec fn depth(t: SpaceTree) -> nat
    decreases t,
{
    match t {
        SpaceTree::Cmd(_) => 0,
        SpaceTree::TmuxVSplit { lhs, rhs } => 1 + vstd::math::max(
            match lhs {
                Some(b) => depth(*b) as int,
                None => 0,
            },
            match rhs {
                Some(b) => depth(*b) as int,
                None => 0,
            },
        ) as nat,
        SpaceTree::TmuxHSplit { top, bottom } => 1 + vstd::math::max(
            match top {
                Some(b) => depth(*b) as int,
                None => 0,
            },
            match bottom {
                Some(b) => depth(*b) as int,
                None => 0,
            },
        ) as nat,
    }
}

/// The text that shows tree `t`, its fields indented by `indent` spaces
/// more than the tree itself.
pub open spec fn pretty(t: SpaceTree, indent: nat) -> Seq<char>
    decreases t,
{
    match t {
        SpaceTree::TmuxVSplit { lhs, rhs } => "TmuxVSplit:\n"@ + blanks(indent) + "  | lhs: "@ + match lhs {
            Some(b) => pretty(*b, indent + 2),
            None => "None\n"@,
        } + blanks(indent) + "  | rhs: "@ + match rhs {
            Some(b) => pretty(*b, indent + 2),
            None => "None\n"@,
        },
        SpaceTree::TmuxHSplit { top, bottom } => "TmuxHSplit:\n"@ + blanks(indent) + "  | top: "@
            + match top {
            Some(b) => pretty(*b, indent + 2),
            None => "None\n"@,
        } + blanks(indent) + "  | bottom: "@ + match bottom {
            Some(b) => pretty(*b, indent + 2),
            None => "None\n"@,
        },
        SpaceTree::Cmd(c) => "Cmd("@ + debug_str(c@) + ")\n"@,
    }
}

/// Appends `n` spaces to `out`.
fn push_blanks(out: &mut String, n: usize)
    ensures
        final(out)@ == old(out)@ + blanks(n as nat),
{
    let ghost start = out@;
    let mut i: usize = 0;
    while i < n
        invariant
            i <= n,
            out@ == start + blanks(i as nat),
        decreases n - i,
    {
        push_char(out, ' ');
        i = i + 1;
        assert(out@ =~= start + blanks(i as nat));
    }
}

/// Expands the placeholders of the leaf command `cmd` for `space`.
pub fn cmd_placeholders(cmd: &str, space: &Space) -> (r: Result<String, DsError>)
    ensures
        match r {
            Ok(s) => expand(cmd@, space.wdir@) == Ok::<Seq<char>, TemplateFault>(s@),
            Err(e) => e matches DsError::CmdParsingError(pe) && expand(cmd@, space.wdir@) == Err::<
                Seq<char>,
                TemplateFault,
            >(pe@),
        },
{
    match expand_template(cmd, space.wdir.as_str()) {
        Ok(s) => Ok(s),
        Err(e) => Err(DsError::CmdParsingError(e)),
    }
}

impl SpaceTree {
    /// The indentation that each level of nesting adds.
    pub const PRINT_INDENT: usize = 2;

    /// Shows one side of a split: the side's tree, or `None`.
    fn pretty_side(side: &Option<Box<SpaceTree>>, indent: usize, out: &mut String)
        requires
            match side {
                Some(b) => indent + 2 * depth(**b) <= usize::MAX,
                None => true,
            },
        ensures
            final(out)@ == old(out)@ + match side {
                Some(b) => pretty(**b, indent as nat),
                None => "None\n"@,
            },
        decreases side,
    {
        match side {
            Some(b) => {
                let text = b.pretty_print(indent);
                out.append(text.as_str());
            },
            None => out.append("None\n"),
        }
    }

    /// The tree shown with an AST-like syntax; `indent` is the indentation of
    /// the line that the tree starts on.
    pub fn pretty_print(&self, indent: usize) -> (r: String)
        requires
            indent + 2 * depth(*self) <= usize::MAX,
        ensures
            r@ == pretty(*self, indent as nat),
        decreases self, 1nat,
    {
        let mut out = String::new();
        match self {
            SpaceTree::TmuxVSplit { lhs, rhs } => {
                out.append("TmuxVSplit:\n");
                push_blanks(&mut out, indent);
                out.append("  | lhs: ");
                Self::pretty_side(lhs, indent + Self::PRINT_INDENT, &mut out);
                push_blanks(&mut out, indent);
                out.append("  | rhs: ");
                Self::pretty_side(rhs, indent + Self::PRINT_INDENT, &mut out);
            },
            SpaceTree::TmuxHSplit { top, bottom } => {
                out.append("TmuxHSplit:\n");
                push_blanks(&mut out, indent);
                out.append("  | top: ");
                Self::pretty_side(top, indent + Self::PRINT_INDENT, &mut out);
                push_blanks(&mut out, indent);
                out.append("  | bottom: ");
                Self::pretty_side(bottom, indent + Self::PRINT_INDENT, &mut out);
            },
            SpaceTree::Cmd(cmd) => {
                out.append("Cmd(");
                let quoted = debug_quoted(cmd.as_str());
                out.append(quoted.as_str());
                out.append(")\n");
            },
        }
        assert(out@ =~= pretty(*self, indent as nat));
        out
    }

    /// The tmux batch that lays the tree out in the session `space_name`,
    /// the leaf commands expanded for `space`.
    pub fn build<'a>(&self, space: &Space, space_name: &'a str) -> (r: Result<
        TmuxCommands<'a>,
        DsError,
    >)
        ensures
            match r {
                Ok(c) => compile_ops(*self, space.wdir@, space_name@) is Ok && batch_calls(c)
                    == calls_of(compile_ops(*self, space.wdir@, space_name@)->Ok_0),
                Err(e) => e matches DsError::CmdParsingError(pe) && compile_ops(
                    *self,
                    space.wdir@,
                    space_name@,
                ) == Err::<Seq<OpView>, TemplateFault>(pe@),
            },
    {
        match self.compile(space, space_name) {
            Ok(ops) => Ok(batch_of(ops)),
            Err(e) => Err(DsError::CmdParsingError(e)),
        }
    }

    /// Compiles the tree into the operations that lay it out in the pane
    /// `target`, expanding the leaf commands for `space`.
    pub fn compile(&self, space: &Space, target: &str) -> (r: Result<Vec<TmuxOp>, CmdParsingError>)
        ensures
            match r {
                Ok(ops) => compile_ops(*self, space.wdir@, target@) == Ok::<
                    Seq<OpView>,
                    TemplateFault,
                >(ops_view(ops@)),
                Err(e) => compile_ops(*self, space.wdir@, target@) == Err::<
                    Seq<OpView>,
                    TemplateFault,
                >(e@),
            },
        decreases self,
    {
        match self {
            SpaceTree::Cmd(cmd) => {
                let text = expand_template(cmd.as_str(), space.wdir.as_str())?;
                let ops = vec![
                    TmuxOp::SendText { target: String::from_str(target), text },
                    TmuxOp::SendEnter { target: String::from_str(target) },
                ];
                assert(ops_view(ops@) =~= seq![
                    OpView::SendText(target@, text@),
                    OpView::SendEnter(target@),
                ]);
                Ok(ops)
            },
            SpaceTree::TmuxVSplit { lhs, rhs } => {
                let mut ops = vec![
                    TmuxOp::SplitPane {
                        target: String::from_str(target),
                        orientation: Orientation::Horizontal,
                    },
                ];
                let ghost head = ops_view(ops@);
                if let Some(l) = lhs {
                    let sub = l.compile(space, target)?;
                    push_side(&mut ops, Direction::Left, sub);
                }
                let ghost mid = ops_view(ops@);
                if let Some(r) = rhs {
                    let sub = r.compile(space, target)?;
                    push_side(&mut ops, Direction::Right, sub);
                }
                proof {
                    assert(head =~= seq![OpView::SplitPane(target@, Orientation::Horizontal)]);
                    if lhs is None {
                        assert(mid =~= head + Seq::<OpView>::empty());
                    }
                    if rhs is None {
                        assert(ops_view(ops@) =~= mid + Seq::<OpView>::empty());
                    }
                }
                Ok(ops)
            },
            SpaceTree::TmuxHSplit { top, bottom } => {
                let mut ops = vec![
                    TmuxOp::SplitPane {
                        target: String::from_str(target),
                        orientation: Orientation::Vertical,
                    },
                ];
                let ghost head = ops_view(ops@);
                if let Some(t) = top {
                    let sub = t.compile(space, target)?;
                    push_side(&mut ops, Direction::Up, sub);
                }
                let ghost mid = ops_view(ops@);
                if let Some(b) = bottom {
                    let sub = b.compile(space, target)?;
                    push_side(&mut ops, Direction::Down, sub);
                }
                proof {
                    assert(head =~= seq![OpView::SplitPane(target@, Orientation::Vertical)]);
                    if top is None {
                        assert(mid =~= head + Seq::<OpView>::empty());
                    }
                    if bottom is None {
                        assert(ops_view(ops@) =~= mid + Seq::<OpView>::empty());
                    }
                }
                Ok(ops)
            },
        }
    }
}

/// Taking the trees of a configuration apart and building a configuration
/// from them and its default tree gives the same configuration: with `trees`
/// what `trees_iter` returns for `config` and `back` what `from_trees` builds.
pub proof fn lemma_trees_round_trip(config: Config, trees: Seq<(String, SpaceTree)>, back: Config)
    requires
        map_of(trees) == config.trees(),
        back.trees() == map_of(trees),
        back.default_tree == config.default_tree,
    ensures
        back.trees() == config.trees(),
        back.default_tree == config.default_tree,
{
}

/// Removing a name that no tree has leaves the trees as they were: with
/// `after` what `remove_tree` makes of `before`, the two hold the same trees.
pub proof fn lemma_remove_absent_tree(before: Config, after: Config, key: Seq<char>)
    requires
        !before.trees().contains_key(key),
        after.trees() == before.trees().remove(key),
        after.default_tree == before.default_tree,
    ensures
        after.trees() == before.trees(),
        after.default_tree == before.default_tree,
{
    assert(after.trees() =~= before.trees());
}

} // verus!
