//! The rows of the open tray menu: which submenu a path leads to, which rows
//! are shown, which of them the keyboard can select, and what the selected
//! row does.

use vstd::prelude::*;
use crate::names::views;
use crate::text::{chars_of, chars_eq};
use crate::tray_core::{item_view, items_view, lemma_items_view, MenuItemView, TrayMenuItem, TrayMenuTree};

verus! {

// == Submenus ==

/// `k` is the first position of `items` whose id is `id`.
pub open spec fn first_with_id(items: Seq<MenuItemView>, id: Seq<char>, k: int) -> bool {
    0 <= k < items.len() && items[k].id == id && forall|j: int| 0 <= j < k ==> items[j].id != id
}

/// The rows reached by following `path` from `items`: each segment names
/// the first row with that id, which must have a submenu; nothing when a
/// segment names no row or a row without a submenu.
pub open spec fn descend(items: Seq<MenuItemView>, path: Seq<Seq<char>>) -> Option<Seq<MenuItemView>>
    decreases path.len(),
{
    if path.len() == 0 {
        Some(items)
    } else if exists|k: int| first_with_id(items, path[0], k) {
        let k = choose|k: int| first_with_id(items, path[0], k);
        if items[k].submenu.len() == 0 {
            None
        } else {
            descend(items[k].submenu, path.skip(1))
        }
    } else {
        None
    }
}

proof fn lemma_first_with_id_unique(items: Seq<MenuItemView>, id: Seq<char>, k: int, j: int)
    requires
        first_with_id(items, id, k),
        first_with_id(items, id, j),
    ensures
        k == j,
{
}

fn find_id(items: &Vec<TrayMenuItem>, id: &str) -> (r: Option<usize>)
    ensures
        match r {
            Some(k) => first_with_id(items_view(items@), id@, k as int),
            None => forall|k: int| 0 <= k < items@.len() ==> items_view(items@)[k].id != id@,
        },
{
    proof {
        lemma_items_view(items@);
    }
    let wanted = chars_of(id);
    let mut k: usize = 0;
    while k < items.len()
        invariant
            k <= items@.len(),
            wanted@ == id@,
            items_view(items@).len() == items@.len(),
            forall|j: int| 0 <= j < items@.len() ==> #[trigger] items_view(items@)[j] == item_view(items@[j]),
            forall|j: int| 0 <= j < k ==> items_view(items@)[j].id != id@,
        decreases items@.len() - k,
    {
        let candidate = chars_of(items[k].id.as_str());
        if chars_eq(&candidate, &wanted) {
            assert(items_view(items@)[k as int] == item_view(items@[k as int]));
            return Some(k);
        }
        assert(items_view(items@)[k as int] == item_view(items@[k as int]));
        k = k + 1;
    }
    None
}

/// The rows that `path` leads to from `items`.
pub fn submenu_items<'a>(items: &'a Vec<TrayMenuItem>, path: &Vec<String>) -> (r: Option<&'a Vec<TrayMenuItem>>)
    ensures
        match r {
            Some(v) => descend(items_view(items@), views(path@)) == Some(items_view(v@)),
            None => descend(items_view(items@), views(path@)) is None,
        },
{
    let ghost whole = descend(items_view(items@), views(path@));
    let mut cur: &'a Vec<TrayMenuItem> = items;
    let mut i: usize = 0;
    assert(views(path@).skip(0) =~= views(path@));
    while i < path.len()
        invariant
            i <= path@.len(),
            whole == descend(items_view(items@), views(path@)),
            whole == descend(items_view(cur@), views(path@).skip(i as int)),
        decreases path@.len() - i,
    {
        let ghost rest = views(path@).skip(i as int);
        assert(rest[0] == path@[i as int]@);
        assert(rest.skip(1) =~= views(path@).skip(i + 1));
        match find_id(cur, path[i].as_str()) {
            Some(k) => {
                proof {
                    lemma_items_view(cur@);
                    let c = choose|j: int| first_with_id(items_view(cur@), rest[0], j);
                    lemma_first_with_id_unique(items_view(cur@), rest[0], k as int, c);
                    lemma_items_view(cur@[k as int].submenu@);
                }
                if cur[k].submenu.len() == 0 {
                    proof {
                        assert(items_view(cur@)[k as int] == item_view(cur@[k as int]));
                        assert(item_view(cur@[k as int]).submenu == items_view(cur@[k as int].submenu@));
                        assert(items_view(cur@)[k as int].submenu.len() == 0);
                        assert(descend(items_view(cur@), rest) is None);
                    }
                    return None;
                }
                cur = &cur[k].submenu;
            },
            None => {
                proof {
                    lemma_items_view(cur@);
                    assert(forall|j: int| !first_with_id(items_view(cur@), rest[0], j));
                }
                return None;
            },
        }
        i = i + 1;
    }
    assert(views(path@).skip(i as int).len() == 0);
    Some(cur)
}

/// The rows shown for an application with the submenu `path` open.
pub open spec fn app_rows(tree: TrayMenuTree, app_id: Seq<char>, path: Seq<Seq<char>>) -> Option<Seq<MenuItemView>> {
    if tree.app_entries().contains_key(app_id) {
        descend(tree.app_entries()[app_id].menu, path)
    } else {
        None
    }
}

/// The rows shown for an application with a submenu path open: nothing
/// when the application is not registered or the path leads nowhere.
pub fn resolve_current_single_app_items<'a>(tree: &'a TrayMenuTree, app_id: &str, path: &Vec<String>) -> (r: Option<&'a Vec<TrayMenuItem>>)
    requires
        tree.wf(),
    ensures
        match r {
            Some(v) => app_rows(*tree, app_id@, views(path@)) == Some(items_view(v@)),
            None => app_rows(*tree, app_id@, views(path@)) is None,
        },
{
    match tree.app(app_id) {
        Some(app) => submenu_items(&app.menu_items, path),
        None => None,
    }
}

// == Shown and selectable rows ==

/// The rows that are shown, in order.
pub open spec fn visible_rows(items: Seq<MenuItemView>) -> Seq<MenuItemView>
    decreases items.len(),
{
    if items.len() == 0 {
        seq![]
    } else if items.last().visible {
        visible_rows(items.drop_last()).push(items.last())
    } else {
        visible_rows(items.drop_last())
    }
}

/// Whether the keyboard can select a row: it is enabled and not a
/// separator, so labels and separators are skipped.
pub open spec fn selectable(v: MenuItemView) -> bool {
    v.enabled && !v.is_separator
}

/// The positions of the selectable rows.
pub open spec fn selectable_positions(rows: Seq<MenuItemView>) -> Seq<usize>
    decreases rows.len(),
{
    if rows.len() == 0 {
        seq![]
    } else if selectable(rows.last()) {
        selectable_positions(rows.drop_last()).push((rows.len() - 1) as usize)
    } else {
        selectable_positions(rows.drop_last())
    }
}

/// Whether a row can be selected.
pub fn is_selectable(item: &TrayMenuItem) -> (r: bool)
    ensures
        r == selectable(item_view(*item)),
{
    item.enabled && !item.is_separator
}

proof fn lemma_visible_step(items: Seq<TrayMenuItem>, k: int)
    requires
        0 <= k < items.len(),
    ensures
        items_view(items.subrange(0, k + 1)) == items_view(items.subrange(0, k)).push(item_view(items[k])),
        items_view(items.subrange(0, k + 1)).drop_last() == items_view(items.subrange(0, k)),
        items_view(items.subrange(0, k + 1)).last() == item_view(items[k]),
{
    let a = items.subrange(0, k);
    assert(items.subrange(0, k + 1) =~= a.push(items[k]));
    crate::tray_core::lemma_items_view_push(a, items[k]);
}

/// The shown rows, in order.
pub fn visible_items(items: &Vec<TrayMenuItem>) -> (r: Vec<&TrayMenuItem>)
    ensures
        r@.len() == visible_rows(items_view(items@)).len(),
        forall|p: int| 0 <= p < r@.len() ==> item_view(*#[trigger] r@[p]) == visible_rows(items_view(items@))[p],
{
    let mut r: Vec<&TrayMenuItem> = Vec::new();
    let mut k: usize = 0;
    assert(items@.subrange(0, 0) =~= Seq::<TrayMenuItem>::empty());
    while k < items.len()
        invariant
            k <= items@.len(),
            r@.len() == visible_rows(items_view(items@.subrange(0, k as int))).len(),
            forall|p: int| 0 <= p < r@.len() ==> item_view(*#[trigger] r@[p]) == visible_rows(items_view(items@.subrange(0, k as int)))[p],
        decreases items@.len() - k,
    {
        proof {
            lemma_visible_step(items@, k as int);
        }
        let ghost next = items_view(items@.subrange(0, k + 1));
        if items[k].visible {
            r.push(&items[k]);
        }
        assert(visible_rows(next) == if item_view(items@[k as int]).visible {
            visible_rows(items_view(items@.subrange(0, k as int))).push(item_view(items@[k as int]))
        } else {
            visible_rows(items_view(items@.subrange(0, k as int)))
        });
        k = k + 1;
    }
    assert(items@.subrange(0, items@.len() as int) =~= items@);
    r
}

/// How many rows are shown.
pub fn visible_count(items: &Vec<TrayMenuItem>) -> (n: usize)
    ensures
        n == visible_rows(items_view(items@)).len(),
{
    visible_items(items).len()
}

fn selectable_positions_of(rows: &Vec<&TrayMenuItem>) -> (r: Vec<usize>)
    ensures
        r@ == selectable_positions(rows@.map_values(|x: &TrayMenuItem| item_view(*x))),
{
    let ghost all = rows@.map_values(|x: &TrayMenuItem| item_view(*x));
    let mut r: Vec<usize> = Vec::new();
    let mut k: usize = 0;
    assert(all.subrange(0, 0) =~= Seq::<MenuItemView>::empty());
    while k < rows.len()
        invariant
            k <= rows@.len(),
            all == rows@.map_values(|x: &TrayMenuItem| item_view(*x)),
            r@ == selectable_positions(all.subrange(0, k as int)),
        decreases rows@.len() - k,
    {
        let ghost next = all.subrange(0, k + 1);
        assert(next.drop_last() =~= all.subrange(0, k as int));
        assert(next.last() == item_view(*rows@[k as int]));
        if is_selectable(rows[k]) {
            r.push(k);
        }
        k = k + 1;
    }
    assert(all.subrange(0, rows@.len() as int) =~= all);
    r
}

/// The positions, among the shown rows, of those the keyboard can select.
pub fn selectable_visible_indices(items: &Vec<TrayMenuItem>) -> (r: Vec<usize>)
    ensures
        r@ == selectable_positions(visible_rows(items_view(items@))),
{
    let rows = visible_items(items);
    assert(rows@.map_values(|x: &TrayMenuItem| item_view(*x)) =~= visible_rows(items_view(items@)));
    selectable_positions_of(&rows)
}

/// The positions of the rows the keyboard can select, counting every row.
pub fn selectable_indices(items: &Vec<TrayMenuItem>) -> (r: Vec<usize>)
    ensures
        r@ == selectable_positions(items_view(items@)),
{
    let mut rows: Vec<&TrayMenuItem> = Vec::new();
    let mut k: usize = 0;
    while k < items.len()
        invariant
            k <= items@.len(),
            rows@.len() == k,
            forall|j: int| 0 <= j < k ==> *#[trigger] rows@[j] == items@[j],
        decreases items@.len() - k,
    {
        rows.push(&items[k]);
        k = k + 1;
    }
    proof {
        lemma_items_view(items@);
    }
    assert(rows@.map_values(|x: &TrayMenuItem| item_view(*x)) =~= items_view(items@));
    selectable_positions_of(&rows)
}

/// The shown row at `index`, when there is one and it can be selected.
pub open spec fn selectable_visible_at(items: Seq<MenuItemView>, index: int) -> Option<MenuItemView> {
    let rows = visible_rows(items);
    if 0 <= index < rows.len() && selectable(rows[index]) {
        Some(rows[index])
    } else {
        None
    }
}

/// The shown row at a position, when it can be selected.
pub fn visible_selectable_item(items: &Vec<TrayMenuItem>, index: usize) -> (r: Option<&TrayMenuItem>)
    ensures
        match r {
            Some(x) => selectable_visible_at(items_view(items@), index as int) == Some(item_view(*x)),
            None => selectable_visible_at(items_view(items@), index as int) is None,
        },
{
    let rows = visible_items(items);
    if index < rows.len() && is_selectable(rows[index]) {
        Some(rows[index])
    } else {
        None
    }
}

/// The row at `index`, counting every row, when it can be selected.
pub open spec fn selectable_at(items: Seq<MenuItemView>, index: int) -> Option<MenuItemView> {
    if 0 <= index < items.len() && selectable(items[index]) {
        Some(items[index])
    } else {
        None
    }
}

/// The row at a position, when it can be selected.
pub fn selectable_item(items: &Vec<TrayMenuItem>, index: usize) -> (r: Option<&TrayMenuItem>)
    ensures
        match r {
            Some(x) => selectable_at(items_view(items@), index as int) == Some(item_view(*x)),
            None => selectable_at(items_view(items@), index as int) is None,
        },
{
    proof {
        lemma_items_view(items@);
    }
    if index < items.len() && is_selectable(&items[index]) {
        Some(&items[index])
    } else {
        None
    }
}

proof fn lemma_selectable_positions(rows: Seq<MenuItemView>)
    requires
        rows.len() <= usize::MAX,
    ensures
        forall|p: int| 0 <= p < selectable_positions(rows).len() ==> {
            let i = #[trigger] selectable_positions(rows)[p] as int;
            0 <= i < rows.len() && selectable(rows[i])
        },
    decreases rows.len(),
{
    if rows.len() > 0 {
        lemma_selectable_positions(rows.drop_last());
        assert forall|p: int| 0 <= p < selectable_positions(rows).len() implies {
            let i = #[trigger] selectable_positions(rows)[p] as int;
            0 <= i < rows.len() && selectable(rows[i])
        } by {
            let d = rows.drop_last();
            if p < selectable_positions(d).len() {
                assert(selectable_positions(rows)[p] == selectable_positions(d)[p]);
                assert(rows[selectable_positions(d)[p] as int] == d[selectable_positions(d)[p] as int]);
            }
        }
    }
}

/// Every row the keyboard can move to has an action to trigger: each
/// selectable position among the shown rows names a shown, selectable row.
pub proof fn selected_rows_can_be_triggered(items: Seq<MenuItemView>, p: int)
    requires
        items.len() <= usize::MAX,
        0 <= p < selectable_positions(visible_rows(items)).len(),
    ensures
        selectable_visible_at(items, selectable_positions(visible_rows(items))[p] as int) is Some,
{
    lemma_visible_rows_len(items);
    lemma_selectable_positions(visible_rows(items));
}

proof fn lemma_visible_rows_len(items: Seq<MenuItemView>)
    ensures
        visible_rows(items).len() <= items.len(),
    decreases items.len(),
{
    if items.len() > 0 {
        lemma_visible_rows_len(items.drop_last());
    }
}

} // verus!
