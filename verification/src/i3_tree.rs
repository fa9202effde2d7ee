//! The i3 layout tree as `i3-msg -t get_tree` reports it, reduced to the
//! fields that the workspace visualiser and the window switcher read.

use vstd::prelude::*;
use crate::text::str_eq;

verus! {

/// One container of the i3 layout tree.
///
/// Each field holds what the JSON node holds under the same key when it has
/// the type named here, and `None` (or an empty list) otherwise.
pub struct I3Node {
    /// `id` as an unsigned integer.
    pub id: Option<u64>,
    /// `type`, such as `root`, `workspace`, `con` or `floating_con`.
    pub node_type: Option<String>,
    /// `name`: the title of a window, the name of a workspace.
    pub name: Option<String>,
    /// `layout`, such as `splith`, `splitv`, `tabbed` or `stacked`.
    pub layout: Option<String>,
    /// `focused`.
    pub focused: Option<bool>,
    /// `urgent`.
    pub urgent: Option<bool>,
    /// Whether `window` is present and not null.
    pub has_window: bool,
    /// `window` as an unsigned integer: the X11 window id.
    pub window: Option<u64>,
    /// `app_id` (Wayland).
    pub app_id: Option<String>,
    /// `window_properties.class`.
    pub class: Option<String>,
    /// `window_properties.instance`.
    pub instance: Option<String>,
    /// `nodes`: the tiled children.
    pub nodes: Vec<I3Node>,
    /// `floating_nodes`: the floating children.
    pub floating_nodes: Vec<I3Node>,
}

/// Whether an optional text field holds exactly `t`.
pub open spec fn holds(f: Option<String>, t: Seq<char>) -> bool {
    f matches Some(s) && s@ == t
}

pub(crate) fn field_is(f: &Option<String>, t: &str) -> (r: bool)
    ensures
        r == holds(*f, t@),
{
    match f {
        Some(s) => str_eq(s.as_str(), t),
        None => false,
    }
}

/// Whether the node is a workspace.
pub open spec fn is_workspace(n: I3Node) -> bool {
    holds(n.node_type, "workspace"@)
}

/// The characters of an optional text field.
pub open spec fn text_of(f: Option<String>) -> Option<Seq<char>> {
    match f {
        Some(s) => Some(s@),
        None => None,
    }
}

/// `window_properties.class`, or `window_properties.instance` where the class
/// is missing.
pub open spec fn class_or_instance(n: I3Node) -> Option<Seq<char>> {
    match n.class {
        Some(c) => Some(c@),
        None => text_of(n.instance),
    }
}

/// What names the application of a window: `app_id`, else the class, else
/// the instance.
pub open spec fn app_identity(n: I3Node) -> Option<Seq<char>> {
    match n.app_id {
        Some(a) => Some(a@),
        None => class_or_instance(n),
    }
}

pub(crate) fn class_or_instance_of(n: &I3Node) -> (r: Option<&String>)
    ensures
        match r {
            Some(s) => class_or_instance(*n) == Some(s@),
            None => class_or_instance(*n).is_none(),
        },
{
    match &n.class {
        Some(c) => Some(c),
        None => match &n.instance {
            Some(i) => Some(i),
            None => None,
        },
    }
}

pub(crate) fn app_identity_of(n: &I3Node) -> (r: Option<&String>)
    ensures
        match r {
            Some(s) => app_identity(*n) == Some(s@),
            None => app_identity(*n).is_none(),
        },
{
    match &n.app_id {
        Some(a) => Some(a),
        None => class_or_instance_of(n),
    }
}

/// Whether the node is marked focused.
pub(crate) fn is_focused(n: &I3Node) -> (r: bool)
    ensures
        r == (n.focused == Some(true)),
{
    match n.focused {
        Some(b) => b,
        None => false,
    }
}

pub(crate) fn is_workspace_node(n: &I3Node) -> (r: bool)
    ensures
        r == is_workspace(*n),
{
    field_is(&n.node_type, "workspace")
}

// == Traversal ==

/// The two child lists of a node are smaller than the node.
pub proof fn lemma_children_smaller(n: I3Node)
    ensures
        decreases_to!(n => n.nodes@),
        decreases_to!(n => n.floating_nodes@),
{
    assert(decreases_to!(n => n.nodes));
    assert(decreases_to!(n.nodes => n.nodes@)) by {
        broadcast use vstd::std_specs::vec::axiom_vec_decreases_to_view;
    }
    assert(decreases_to!(n => n.floating_nodes));
    assert(decreases_to!(n.floating_nodes => n.floating_nodes@)) by {
        broadcast use vstd::std_specs::vec::axiom_vec_decreases_to_view;
    }
}

/// Whether the node or any container below it has the focus.
pub open spec fn subtree_focused(n: I3Node) -> bool
    decreases n,
{
    proof {
        lemma_children_smaller(n);
    }
    n.focused == Some(true) || any_focused(n.nodes@) || any_focused(n.floating_nodes@)
}

/// Whether any node of `s` has the focus in its subtree.
pub open spec fn any_focused(s: Seq<I3Node>) -> bool
    decreases s,
{
    if s.len() == 0 {
        false
    } else {
        subtree_focused(s[0]) || any_focused(s.drop_first())
    }
}

/// Whether `n` or a container below it has the focus.
pub fn subtree_has_focused(n: &I3Node) -> (r: bool)
    ensures
        r == subtree_focused(*n),
    decreases *n,
{
    proof {
        lemma_children_smaller(*n);
    }
    if is_focused(n) {
        return true;
    }
    list_has_focused(&n.nodes) || list_has_focused(&n.floating_nodes)
}

fn list_has_focused(v: &Vec<I3Node>) -> (r: bool)
    ensures
        r == any_focused(v@),
    decreases v@,
{
    let mut i: usize = 0;
    assert(v@.skip(0) =~= v@);
    while i < v.len()
        invariant
            i <= v.len(),
            any_focused(v@) == any_focused(v@.skip(i as int)),
        decreases v.len() - i,
    {
        proof {
            assert(v@.skip(i as int).drop_first() =~= v@.skip(i + 1));
            assert(v@.skip(i as int)[0] == v@[i as int]);
            assert(decreases_to!(v@ => v@[i as int]));
        }
        if subtree_has_focused(&v[i]) {
            return true;
        }
        i = i + 1;
    }
    assert(v@.skip(i as int).len() == 0);
    false
}

/// The id of the workspace that holds the focus: the first workspace, in
/// depth-first order through `nodes` then `floating_nodes`, whose subtree has
/// the focus. Such a workspace without an id ends the search with `None`.
pub open spec fn focused_workspace(n: I3Node) -> Option<u64>
    decreases n,
{
    proof {
        lemma_children_smaller(n);
    }
    if is_workspace(n) && subtree_focused(n) {
        n.id
    } else {
        match first_focused_workspace(n.nodes@) {
            Some(id) => Some(id),
            None => first_focused_workspace(n.floating_nodes@),
        }
    }
}

/// The first `Some` of `focused_workspace` over the nodes of `s`.
pub open spec fn first_focused_workspace(s: Seq<I3Node>) -> Option<u64>
    decreases s,
{
    if s.len() == 0 {
        None
    } else {
        match focused_workspace(s[0]) {
            Some(id) => Some(id),
            None => first_focused_workspace(s.drop_first()),
        }
    }
}

/// The id of the workspace that holds the focus.
pub fn focused_workspace_id(n: &I3Node) -> (r: Option<u64>)
    ensures
        r == focused_workspace(*n),
    decreases *n,
{
    proof {
        lemma_children_smaller(*n);
    }
    if is_workspace_node(n) && subtree_has_focused(n) {
        return n.id;
    }
    match list_focused_workspace(&n.nodes) {
        Some(id) => Some(id),
        None => list_focused_workspace(&n.floating_nodes),
    }
}

fn list_focused_workspace(v: &Vec<I3Node>) -> (r: Option<u64>)
    ensures
        r == first_focused_workspace(v@),
    decreases v@,
{
    let mut i: usize = 0;
    assert(v@.skip(0) =~= v@);
    while i < v.len()
        invariant
            i <= v.len(),
            first_focused_workspace(v@) == first_focused_workspace(v@.skip(i as int)),
        decreases v.len() - i,
    {
        proof {
            assert(v@.skip(i as int).drop_first() =~= v@.skip(i + 1));
            assert(v@.skip(i as int)[0] == v@[i as int]);
            assert(decreases_to!(v@ => v@[i as int]));
        }
        match focused_workspace_id(&v[i]) {
            Some(id) => {
                return Some(id);
            },
            None => {},
        }
        i = i + 1;
    }
    assert(v@.skip(i as int).len() == 0);
    None
}

/// The first workspace, in depth-first order, whose id is `id`.
pub open spec fn workspace_with_id(n: I3Node, id: u64) -> Option<I3Node>
    decreases n,
{
    proof {
        lemma_children_smaller(n);
    }
    if is_workspace(n) && n.id == Some(id) {
        Some(n)
    } else {
        match first_workspace_with_id(n.nodes@, id) {
            Some(w) => Some(w),
            None => first_workspace_with_id(n.floating_nodes@, id),
        }
    }
}

/// The first `Some` of `workspace_with_id` over the nodes of `s`.
pub open spec fn first_workspace_with_id(s: Seq<I3Node>, id: u64) -> Option<I3Node>
    decreases s,
{
    if s.len() == 0 {
        None
    } else {
        match workspace_with_id(s[0], id) {
            Some(w) => Some(w),
            None => first_workspace_with_id(s.drop_first(), id),
        }
    }
}

/// The workspace whose id is `id`.
pub fn find_workspace_node(n: &I3Node, id: u64) -> (r: Option<&I3Node>)
    ensures
        match r {
            Some(w) => workspace_with_id(*n, id) == Some(*w),
            None => workspace_with_id(*n, id).is_none(),
        },
    decreases *n,
{
    proof {
        lemma_children_smaller(*n);
    }
    if is_workspace_node(n) && n.id == Some(id) {
        return Some(n);
    }
    match list_workspace_with_id(&n.nodes, id) {
        Some(w) => Some(w),
        None => list_workspace_with_id(&n.floating_nodes, id),
    }
}

fn list_workspace_with_id(v: &Vec<I3Node>, id: u64) -> (r: Option<&I3Node>)
    ensures
        match r {
            Some(w) => first_workspace_with_id(v@, id) == Some(*w),
            None => first_workspace_with_id(v@, id).is_none(),
        },
    decreases v@,
{
    let mut i: usize = 0;
    assert(v@.skip(0) =~= v@);
    while i < v.len()
        invariant
            i <= v.len(),
            first_workspace_with_id(v@, id) == first_workspace_with_id(v@.skip(i as int), id),
        decreases v.len() - i,
    {
        proof {
            assert(v@.skip(i as int).drop_first() =~= v@.skip(i + 1));
            assert(v@.skip(i as int)[0] == v@[i as int]);
            assert(decreases_to!(v@ => v@[i as int]));
        }
        match find_workspace_node(&v[i], id) {
            Some(w) => {
                return Some(w);
            },
            None => {},
        }
        i = i + 1;
    }
    assert(v@.skip(i as int).len() == 0);
    None
}

/// The first workspace in depth-first order.
pub open spec fn first_workspace(n: I3Node) -> Option<I3Node>
    decreases n,
{
    proof {
        lemma_children_smaller(n);
    }
    if is_workspace(n) {
        Some(n)
    } else {
        match first_workspace_in(n.nodes@) {
            Some(w) => Some(w),
            None => first_workspace_in(n.floating_nodes@),
        }
    }
}

/// The first `Some` of `first_workspace` over the nodes of `s`.
pub open spec fn first_workspace_in(s: Seq<I3Node>) -> Option<I3Node>
    decreases s,
{
    if s.len() == 0 {
        None
    } else {
        match first_workspace(s[0]) {
            Some(w) => Some(w),
            None => first_workspace_in(s.drop_first()),
        }
    }
}

/// The first workspace of the tree.
pub fn first_workspace_node(n: &I3Node) -> (r: Option<&I3Node>)
    ensures
        match r {
            Some(w) => first_workspace(*n) == Some(*w),
            None => first_workspace(*n).is_none(),
        },
    decreases *n,
{
    proof {
        lemma_children_smaller(*n);
    }
    if is_workspace_node(n) {
        return Some(n);
    }
    match list_first_workspace(&n.nodes) {
        Some(w) => Some(w),
        None => list_first_workspace(&n.floating_nodes),
    }
}

fn list_first_workspace(v: &Vec<I3Node>) -> (r: Option<&I3Node>)
    ensures
        match r {
            Some(w) => first_workspace_in(v@) == Some(*w),
            None => first_workspace_in(v@).is_none(),
        },
    decreases v@,
{
    let mut i: usize = 0;
    assert(v@.skip(0) =~= v@);
    while i < v.len()
        invariant
            i <= v.len(),
            first_workspace_in(v@) == first_workspace_in(v@.skip(i as int)),
        decreases v.len() - i,
    {
        proof {
            assert(v@.skip(i as int).drop_first() =~= v@.skip(i + 1));
            assert(v@.skip(i as int)[0] == v@[i as int]);
            assert(decreases_to!(v@ => v@[i as int]));
        }
        match first_workspace_node(&v[i]) {
            Some(w) => {
                return Some(w);
            },
            None => {},
        }
        i = i + 1;
    }
    assert(v@.skip(i as int).len() == 0);
    None
}

} // verus!
