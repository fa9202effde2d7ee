//! Operations of the tray menu tree: registering and removing applications,
//! navigation between them, the aggregated and favorites menus.

use vstd::prelude::*;
use crate::bar_control::toggled;
use crate::names::{
    contains_name, distinct_names, lemma_views_push, lemma_views_remove, name_set, position_of, views,
};
use crate::text::{chars_of, has_infix, chars_contain, owned, push_str, string_of, to_lowercase, lowercase};
use crate::tray_core::{
    clone_item, item_view, items_view, lemma_items_view, lemma_items_view_push, now, MenuItemView,
    TrayApp, TrayIcon, TrayMenuItem, TrayMenuNavigation, TrayMenuTree,
};
use crate::menu_order::{sort_by_full_path, sorted_by_path};

verus! {

broadcast use vstd::seq_lib::group_to_multiset_ensures;

/// Abstract value of a registered application: its icon and its menu.
pub struct AppView {
    pub icon: TrayIcon,
    pub menu: Seq<MenuItemView>,
}

pub open spec fn app_view(a: TrayApp) -> AppView {
    AppView { icon: a.icon, menu: items_view(a.menu_items@) }
}

/// The ids of the applications, in order.
pub open spec fn app_ids(apps: Seq<TrayApp>) -> Seq<Seq<char>> {
    apps.map_values(|a: TrayApp| a.icon.id@)
}

/// The applications keyed by the id of their icon.
pub open spec fn app_map(apps: Seq<TrayApp>) -> Map<Seq<char>, AppView>
    decreases apps.len(),
{
    if apps.len() == 0 {
        Map::empty()
    } else {
        app_map(apps.drop_last()).insert(apps.last().icon.id@, app_view(apps.last()))
    }
}

proof fn lemma_app_map_dom(apps: Seq<TrayApp>)
    ensures
        app_map(apps).dom() == app_ids(apps).to_set(),
    decreases apps.len(),
{
    if apps.len() > 0 {
        lemma_app_map_dom(apps.drop_last());
        assert(app_ids(apps.drop_last()) =~= app_ids(apps).drop_last());
        assert forall|x: Seq<char>| app_ids(apps).to_set().contains(x)
            == app_ids(apps.drop_last()).to_set().insert(apps.last().icon.id@).contains(x) by {
            if app_ids(apps).contains(x) {
                let k = choose|k: int| 0 <= k < app_ids(apps).len() && app_ids(apps)[k] == x;
                if k < apps.len() - 1 {
                    assert(app_ids(apps.drop_last())[k] == x);
                }
            }
            if app_ids(apps.drop_last()).contains(x) {
                let k = choose|k: int| 0 <= k < app_ids(apps.drop_last()).len() && app_ids(apps.drop_last())[k] == x;
                assert(app_ids(apps)[k] == x);
            }
            if x == apps.last().icon.id@ {
                assert(app_ids(apps)[apps.len() - 1] == x);
            }
        }
        assert(app_map(apps).dom() =~= app_ids(apps).to_set());
    } else {
        assert(app_map(apps).dom() =~= app_ids(apps).to_set());
    }
}

/// With distinct ids, the entry of each application is its own view.
proof fn lemma_app_map_at(apps: Seq<TrayApp>, i: int)
    requires
        0 <= i < apps.len(),
        app_ids(apps).no_duplicates(),
    ensures
        app_map(apps).contains_key(apps[i].icon.id@),
        app_map(apps)[apps[i].icon.id@] == app_view(apps[i]),
    decreases apps.len(),
{
    if i < apps.len() - 1 {
        let d = apps.drop_last();
        assert(app_ids(d) =~= app_ids(apps).drop_last());
        assert(d[i] == apps[i]);
        assert(app_ids(apps)[i] != app_ids(apps)[apps.len() - 1]);
        lemma_app_map_at(d, i);
    }
}

proof fn lemma_app_map_update(apps: Seq<TrayApp>, i: int, a: TrayApp)
    requires
        0 <= i < apps.len(),
        app_ids(apps).no_duplicates(),
        a.icon.id@ == apps[i].icon.id@,
    ensures
        app_map(apps.update(i, a)) == app_map(apps).insert(a.icon.id@, app_view(a)),
        app_ids(apps.update(i, a)) == app_ids(apps),
    decreases apps.len(),
{
    let u = apps.update(i, a);
    assert(app_ids(u) =~= app_ids(apps));
    if i == apps.len() - 1 {
        assert(u.drop_last() =~= apps.drop_last());
        assert(app_map(u) =~= app_map(apps).insert(a.icon.id@, app_view(a)));
    } else {
        let d = apps.drop_last();
        assert(app_ids(d) =~= app_ids(apps).drop_last());
        assert(u.drop_last() =~= d.update(i, a));
        lemma_app_map_update(d, i, a);
        assert(app_ids(apps)[i] != app_ids(apps)[apps.len() - 1]);
        assert(app_map(u) =~= app_map(apps).insert(a.icon.id@, app_view(a)));
    }
}

proof fn lemma_app_map_remove(apps: Seq<TrayApp>, i: int)
    requires
        0 <= i < apps.len(),
        app_ids(apps).no_duplicates(),
    ensures
        app_map(apps.remove(i)) == app_map(apps).remove(apps[i].icon.id@),
        app_ids(apps.remove(i)) == app_ids(apps).remove(i),
    decreases apps.len(),
{
    let r = apps.remove(i);
    assert(app_ids(r) =~= app_ids(apps).remove(i));
    let id = apps[i].icon.id@;
    if i == apps.len() - 1 {
        assert(r =~= apps.drop_last());
        lemma_app_map_dom(apps.drop_last());
        assert(app_ids(apps.drop_last()) =~= app_ids(apps).drop_last());
        assert(app_ids(apps)[apps.len() - 1] == id);
        assert(!app_ids(apps.drop_last()).contains(id)) by {
            if app_ids(apps.drop_last()).contains(id) {
                let k = choose|k: int| 0 <= k < app_ids(apps.drop_last()).len() && app_ids(apps.drop_last())[k] == id;
                assert(app_ids(apps)[k] == id);
            }
        }
        assert(app_map(r) =~= app_map(apps).remove(id));
    } else {
        let d = apps.drop_last();
        assert(app_ids(d) =~= app_ids(apps).drop_last());
        assert(r.drop_last() =~= d.remove(i));
        assert(r.last() == apps.last());
        lemma_app_map_remove(d, i);
        assert(d[i] == apps[i]);
        assert(app_ids(apps)[i] != app_ids(apps)[apps.len() - 1]);
        assert(app_map(r) =~= app_map(apps).remove(id));
    }
}

proof fn lemma_app_map_push(apps: Seq<TrayApp>, a: TrayApp)
    ensures
        app_map(apps.push(a)) == app_map(apps).insert(a.icon.id@, app_view(a)),
        app_ids(apps.push(a)) == app_ids(apps).push(a.icon.id@),
{
    assert(apps.push(a).drop_last() =~= apps);
    assert(app_ids(apps.push(a)) =~= app_ids(apps).push(a.icon.id@));
}

proof fn lemma_contains_push(s: Seq<Seq<char>>, a: Seq<char>, y: Seq<char>)
    ensures
        s.push(a).contains(y) == (s.contains(y) || y == a),
{
    if s.push(a).contains(y) {
        let k = choose|k: int| 0 <= k < s.push(a).len() && s.push(a)[k] == y;
        if k < s.len() {
            assert(s[k] == y);
        }
    }
    if s.contains(y) {
        let k = choose|k: int| 0 <= k < s.len() && s[k] == y;
        assert(s.push(a)[k] == y);
    }
    if y == a {
        assert(s.push(a)[s.len() as int] == y);
    }
}

proof fn lemma_contains_split(s: Seq<Seq<char>>, y: Seq<char>)
    requires
        s.len() > 0,
    ensures
        s.contains(y) == (s.drop_last().contains(y) || y == s.last()),
{
    assert(s.drop_last().push(s.last()) =~= s);
    lemma_contains_push(s.drop_last(), s.last(), y);
}

/// `s` without any occurrence of `x`, order kept.
pub open spec fn without(s: Seq<Seq<char>>, x: Seq<char>) -> Seq<Seq<char>>
    decreases s.len(),
{
    if s.len() == 0 {
        s
    } else if s.last() == x {
        without(s.drop_last(), x)
    } else {
        without(s.drop_last(), x).push(s.last())
    }
}

proof fn lemma_without(s: Seq<Seq<char>>, x: Seq<char>)
    requires
        s.no_duplicates(),
    ensures
        without(s, x).no_duplicates(),
        without(s, x).to_set() == s.to_set().remove(x),
    decreases s.len(),
{
    if s.len() > 0 {
        let d = s.drop_last();
        assert(d.no_duplicates());
        lemma_without(d, x);
        let w = without(d, x);
        if s.last() != x {
            assert(!w.contains(s.last())) by {
                if w.contains(s.last()) {
                    assert(w.to_set().contains(s.last()));
                    let k = choose|k: int| 0 <= k < d.len() && d[k] == s.last();
                    assert(s[k] == s[s.len() - 1]);
                }
            }
            assert forall|a: int, b: int| 0 <= a < w.push(s.last()).len() && 0 <= b < w.push(s.last()).len() && a != b
                implies w.push(s.last())[a] != w.push(s.last())[b] by {
                if a < w.len() && b < w.len() {
                } else if a == w.len() {
                    assert(w.push(s.last())[b] == w[b]);
                } else {
                    assert(w.push(s.last())[a] == w[a]);
                }
            }
        }
        assert forall|y: Seq<char>| without(s, x).to_set().contains(y) == s.to_set().remove(x).contains(y) by {
            lemma_contains_split(s, y);
            assert(w.to_set().contains(y) == d.to_set().remove(x).contains(y));
            if s.last() != x {
                lemma_contains_push(w, s.last(), y);
            }
        }
        assert(without(s, x).to_set() =~= s.to_set().remove(x));
    } else {
        assert(without(s, x).to_set() =~= s.to_set().remove(x));
    }
}

impl TrayMenuTree {
    /// The internal invariant: every application is kept once, every icon
    /// id appears once in the display order and exactly the registered
    /// applications appear there, and no favorite is recorded twice.
    pub open spec fn wf(&self) -> bool {
        &&& app_ids(self.apps@).no_duplicates()
        &&& distinct_names(self.icon_order@)
        &&& distinct_names(self.favorites@)
        &&& app_ids(self.apps@).to_set() == name_set(self.icon_order@)
    }

    /// The applications keyed by icon id.
    pub open spec fn app_entries(&self) -> Map<Seq<char>, AppView> {
        app_map(self.apps@)
    }

    /// The display order of the icons.
    pub open spec fn order(&self) -> Seq<Seq<char>> {
        views(self.icon_order@)
    }

    /// The ids of the favorite menu items.
    pub open spec fn favorite_set(&self) -> Set<Seq<char>> {
        name_set(self.favorites@)
    }

    /// Creates an empty menu tree.
    pub fn new() -> (t: Self)
        ensures
            t.wf(),
            t.apps@.len() == 0,
            t.icon_order@.len() == 0,
            t.favorites@.len() == 0,
            t.app_entries() == Map::<Seq<char>, AppView>::empty(),
            t.favorite_set() == Set::<Seq<char>>::empty(),
    {
        let t = TrayMenuTree { apps: Vec::new(), favorites: Vec::new(), icon_order: Vec::new() };
        assert(app_ids(t.apps@).to_set() =~= name_set(t.icon_order@));
        assert(name_set(t.favorites@) =~= Set::<Seq<char>>::empty());
        t
    }

    fn app_position(&self, app_id: &str) -> (r: Option<usize>)
        ensures
            match r {
                Some(i) => i < self.apps@.len() && self.apps@[i as int].icon.id@ == app_id@,
                None => !app_ids(self.apps@).contains(app_id@),
            },
    {
        let wanted = chars_of(app_id);
        let mut i: usize = 0;
        while i < self.apps.len()
            invariant
                i <= self.apps@.len(),
                wanted@ == app_id@,
                forall|k: int| 0 <= k < i ==> self.apps@[k].icon.id@ != app_id@,
            decreases self.apps.len() - i,
        {
            let candidate = chars_of(self.apps[i].icon.id.as_str());
            if crate::text::chars_eq(&candidate, &wanted) {
                return Some(i);
            }
            i = i + 1;
        }
        proof {
            assert forall|k: int| 0 <= k < app_ids(self.apps@).len() implies app_ids(self.apps@)[k] != app_id@ by {
                assert(app_ids(self.apps@)[k] == self.apps@[k].icon.id@);
            }
        }
        None
    }

    /// The registered application with the given id, if any.
    pub fn app(&self, app_id: &str) -> (r: Option<&TrayApp>)
        requires
            self.wf(),
        ensures
            match r {
                Some(a) => self.app_entries().contains_key(app_id@)
                    && self.app_entries()[app_id@] == app_view(*a)
                    && a.icon.id@ == app_id@,
                None => !self.app_entries().contains_key(app_id@),
            },
    {
        proof {
            lemma_app_map_dom(self.apps@);
        }
        match self.app_position(app_id) {
            Some(i) => {
                proof {
                    lemma_app_map_at(self.apps@, i as int);
                }
                Some(&self.apps[i])
            },
            None => None,
        }
    }

    /// Adds an application, or replaces the one with the same icon id; its
    /// menu starts empty. A new id is appended to the display order.
    pub fn update_app(&mut self, icon: TrayIcon)
        requires
            old(self).wf(),
        ensures
            final(self).wf(),
            final(self).app_entries() == old(self).app_entries().insert(
                icon.id@, AppView { icon: icon, menu: Seq::empty() }),
            final(self).order() == if old(self).order().contains(icon.id@) {
                old(self).order()
            } else {
                old(self).order().push(icon.id@)
            },
            final(self).favorites@ == old(self).favorites@,
    {
        let app_id = icon.id.clone();
        let ghost old_order = self.icon_order@;
        let ghost old_apps = self.apps@;
        let listed = contains_name(&self.icon_order, app_id.as_str());
        if !listed {
            proof {
                lemma_views_push(self.icon_order@, app_id);
            }
            self.icon_order.push(app_id.clone());
        }
        let pos = self.app_position(app_id.as_str());
        let app = TrayApp { icon, menu_items: Vec::new(), last_updated: now() };
        proof {
            lemma_items_view(app.menu_items@);
            assert(items_view(app.menu_items@) =~= Seq::<MenuItemView>::empty());
        }
        match pos {
            Some(i) => {
                proof {
                    lemma_app_map_update(self.apps@, i as int, app);
                }
                self.apps.set(i, app);
            },
            None => {
                proof {
                    lemma_app_map_push(self.apps@, app);
                    assert forall|a: int, b: int| 0 <= a < app_ids(self.apps@.push(app)).len()
                        && 0 <= b < app_ids(self.apps@.push(app)).len() && a != b
                        implies app_ids(self.apps@.push(app))[a] != app_ids(self.apps@.push(app))[b] by {
                        let p = app_ids(self.apps@.push(app));
                        if a == self.apps@.len() && b < self.apps@.len() {
                            assert(p[b] == app_ids(self.apps@)[b]);
                        } else if b == self.apps@.len() && a < self.apps@.len() {
                            assert(p[a] == app_ids(self.apps@)[a]);
                        } else {
                            assert(p[a] == app_ids(self.apps@)[a]);
                            assert(p[b] == app_ids(self.apps@)[b]);
                        }
                    }
                }
                self.apps.push(app);
            },
        }
        proof {
            let ids = app_ids(self.apps@);
            assert forall|x: Seq<char>| ids.to_set().contains(x) == name_set(self.icon_order@).contains(x) by {
                if pos is Some {
                    assert(ids =~= app_ids(old_apps));
                    if x == app_id@ {
                        let i = pos.unwrap() as int;
                        assert(app_ids(old_apps)[i] == x);
                        assert(app_ids(old_apps).to_set().contains(x));
                    }
                } else {
                    assert(ids =~= app_ids(old_apps).push(app_id@));
                    if ids.contains(x) {
                        let k = choose|k: int| 0 <= k < ids.len() && ids[k] == x;
                        if k < old_apps.len() {
                            assert(app_ids(old_apps)[k] == x);
                            assert(app_ids(old_apps).to_set().contains(x));
                        }
                    }
                    if app_ids(old_apps).contains(x) {
                        let k = choose|k: int| 0 <= k < app_ids(old_apps).len() && app_ids(old_apps)[k] == x;
                        assert(ids[k] == x);
                    }
                    if x == app_id@ {
                        assert(ids[old_apps.len() as int] == x);
                    }
                }
                if listed {
                    assert(self.icon_order@ == old_order);
                } else {
                    assert(name_set(self.icon_order@) == name_set(old_order).insert(app_id@));
                }
                assert(name_set(old_order).contains(x) == app_ids(old_apps).to_set().contains(x));
            }
            assert(ids.to_set() =~= name_set(self.icon_order@));
            if !listed {
                assert(views(self.icon_order@) == views(old_order).push(app_id@));
            }
        }
    }

    /// Removes an application and its place in the display order.
    pub fn remove_app(&mut self, app_id: &str)
        requires
            old(self).wf(),
        ensures
            final(self).wf(),
            final(self).app_entries() == old(self).app_entries().remove(app_id@),
            final(self).order() == without(old(self).order(), app_id@),
            final(self).favorites@ == old(self).favorites@,
    {
        let ghost old_apps = self.apps@;
        let ghost old_order = self.icon_order@;
        let pos = self.app_position(app_id);
        match pos {
            Some(i) => {
                proof {
                    lemma_app_map_remove(self.apps@, i as int);
                }
                self.apps.remove(i);
            },
            None => {
                proof {
                    lemma_app_map_dom(self.apps@);
                    assert(app_map(self.apps@) =~= app_map(self.apps@).remove(app_id@));
                }
            },
        }
        let wanted = chars_of(app_id);
        let mut kept: Vec<String> = Vec::new();
        let mut k: usize = 0;
        while k < self.icon_order.len()
            invariant
                k <= self.icon_order@.len(),
                self.icon_order@ == old_order,
                wanted@ == app_id@,
                views(kept@) == without(views(old_order).subrange(0, k as int), app_id@),
            decreases self.icon_order.len() - k,
        {
            let candidate = chars_of(self.icon_order[k].as_str());
            let same = crate::text::chars_eq(&candidate, &wanted);
            let ghost before = kept@;
            let ghost pre = views(old_order).subrange(0, k as int);
            let ghost next = views(old_order).subrange(0, k + 1);
            assert(next.drop_last() =~= pre);
            assert(next.last() == old_order[k as int]@);
            if !same {
                kept.push(self.icon_order[k].clone());
                assert(views(kept@) =~= views(before).push(old_order[k as int]@));
            }
            k = k + 1;
        }
        assert(views(old_order).subrange(0, old_order.len() as int) =~= views(old_order));
        self.icon_order = kept;
        proof {
            lemma_without(views(old_order), app_id@);
            let ids = app_ids(self.apps@);
            match pos {
                Some(iu) => {
                    let i = iu as int;
                    assert(ids == app_ids(old_apps).remove(i));
                    assert forall|x: Seq<char>| ids.to_set().contains(x) == app_ids(old_apps).to_set().remove(app_id@).contains(x) by {
                        let o = app_ids(old_apps);
                        if ids.contains(x) {
                            let k2 = choose|k2: int| 0 <= k2 < ids.len() && ids[k2] == x;
                            if k2 < i { assert(o[k2] == x); assert(o[k2] != o[i]); } else { assert(o[k2 + 1] == x); assert(o[k2 + 1] != o[i]); }
                        }
                        if o.contains(x) && x != app_id@ {
                            let k2 = choose|k2: int| 0 <= k2 < o.len() && o[k2] == x;
                            if k2 < i { assert(ids[k2] == x); } else { assert(k2 != i); assert(ids[k2 - 1] == x); }
                        }
                    }
                },
                None => {
                    assert(ids == app_ids(old_apps));
                    assert forall|x: Seq<char>| ids.to_set().contains(x) == app_ids(old_apps).to_set().remove(app_id@).contains(x) by {}
                },
            }
            assert(ids.to_set() =~= name_set(self.icon_order@));
        }
    }

    /// Replaces the menu of a registered application; unknown ids are ignored.
    pub fn update_app_menu(&mut self, app_id: &str, menu_items: Vec<TrayMenuItem>)
        requires
            old(self).wf(),
        ensures
            final(self).wf(),
            final(self).app_entries() == if old(self).app_entries().contains_key(app_id@) {
                old(self).app_entries().insert(app_id@, AppView {
                    icon: old(self).app_entries()[app_id@].icon,
                    menu: items_view(menu_items@),
                })
            } else {
                old(self).app_entries()
            },
            final(self).icon_order@ == old(self).icon_order@,
            final(self).favorites@ == old(self).favorites@,
    {
        proof {
            lemma_app_map_dom(self.apps@);
        }
        match self.app_position(app_id) {
            Some(i) => {
                proof {
                    lemma_app_map_at(self.apps@, i as int);
                }
                let icon = self.apps[i].icon.duplicate();
                let app = TrayApp { icon, menu_items, last_updated: now() };
                proof {
                    lemma_app_map_update(self.apps@, i as int, app);
                }
                self.apps.set(i, app);
            },
            None => {},
        }
    }

    /// Navigation state for an application: its place in the display order
    /// (the first place when it is not there) and whether there are
    /// applications before and after it.
    pub fn get_app_navigation(&self, current_app_id: &str) -> (nav: TrayMenuNavigation)
        ensures
            views(nav.app_order@) == self.order(),
            nav.current_app_index == if self.order().contains(current_app_id@) {
                self.order().index_of_first(current_app_id@).unwrap()
            } else {
                0
            },
            nav.can_go_left == (nav.current_app_index > 0),
            nav.can_go_right == (self.order().len() > 0 && nav.current_app_index < self.order().len() - 1),
    {
        let current_index = match position_of(&self.icon_order, current_app_id) {
            Some(i) => i,
            None => 0,
        };
        proof {
            let o = self.order();
            match self.order().index_of_first(current_app_id@) {
                Some(j) => {},
                None => {},
            }
            o.index_of_first_ensures(current_app_id@);
            if o.contains(current_app_id@) {
                let j = o.index_of_first(current_app_id@).unwrap();
                assert(o[j] == self.icon_order@[j]@);
                assert(o[current_index as int] == self.icon_order@[current_index as int]@);
            } else {
                assert forall|k: int| 0 <= k < self.icon_order@.len() implies (#[trigger] self.icon_order@[k])@ != current_app_id@ by {
                    assert(o[k] == self.icon_order@[k]@);
                }
            }
        }
        let order = clone_strings(&self.icon_order);
        let len = self.icon_order.len();
        TrayMenuNavigation {
            current_app_index: current_index,
            app_order: order,
            can_go_left: current_index > 0,
            can_go_right: current_index < (if len == 0 { 0 } else { len - 1 }),
        }
    }

    /// Marks a menu item as favorite, or unmarks it; returns whether it is a
    /// favorite afterwards.
    pub fn toggle_favorite(&mut self, item_id: &str) -> (added: bool)
        requires
            old(self).wf(),
        ensures
            final(self).wf(),
            added == !old(self).favorite_set().contains(item_id@),
            final(self).favorite_set() == toggled(old(self).favorite_set(), item_id@),
            final(self).apps@ == old(self).apps@,
            final(self).icon_order@ == old(self).icon_order@,
    {
        match position_of(&self.favorites, item_id) {
            Some(i) => {
                proof {
                    lemma_views_remove(self.favorites@, i as int);
                    assert(views(self.favorites@)[i as int] == item_id@);
                }
                self.favorites.remove(i);
                false
            },
            None => {
                let id = owned(item_id);
                proof {
                    assert forall|k: int| 0 <= k < views(self.favorites@).len()
                        implies views(self.favorites@)[k] != item_id@ by {
                        assert(views(self.favorites@)[k] == self.favorites@[k]@);
                    }
                    lemma_views_push(self.favorites@, id);
                }
                self.favorites.push(id);
                true
            },
        }
    }

    /// Whether a menu item id is a favorite.
    pub fn is_favorite(&self, item_id: &str) -> (r: bool)
        ensures
            r == self.favorite_set().contains(item_id@),
    {
        contains_name(&self.favorites, item_id)
    }

    /// Appends to `result` the item, when it is shown, under the path
    /// "app → label", then the items of its submenus in the same way.
    fn flatten_menu_items(&self, item: &TrayMenuItem, app_id: &str, result: &mut Vec<TrayMenuItem>)
        ensures
            items_view(final(result)@) == items_view(old(result)@) + flat_view(item_view(*item), app_id@),
        decreases *item,
    {
        let ghost start = items_view(result@);
        if !item.is_separator && item.visible && item.enabled {
            let mut flattened = clone_item(item);
            let mut path: Vec<char> = Vec::new();
            push_str(&mut path, app_id);
            push_str(&mut path, " → ");
            push_str(&mut path, item.label.as_str());
            flattened.full_path = string_of(&path);
            proof {
                lemma_items_view_push(result@, flattened);
                assert(item_view(flattened) == MenuItemView { full_path: app_id@ + " → "@ + item.label@, ..item_view(*item) });
            }
            result.push(flattened);
        }
        let ghost head = items_view(result@);
        proof {
            assert(item_view(*item).submenu == items_view(item.submenu@));
            assert(item.submenu@.subrange(0, 0) =~= Seq::<TrayMenuItem>::empty());
            lemma_items_view(item.submenu@.subrange(0, 0));
            assert(items_view(item.submenu@.subrange(0, 0)) =~= Seq::<MenuItemView>::empty());
            assert(head =~= head + flat_views(Seq::<MenuItemView>::empty(), app_id@));
        }
        let mut k: usize = 0;
        while k < item.submenu.len()
            invariant
                k <= item.submenu@.len(),
                items_view(result@) == head + flat_views(items_view(item.submenu@.subrange(0, k as int)), app_id@),
            decreases item.submenu.len() - k,
        {
            assert(decreases_to!(*item => item.submenu@[k as int]));
            let ghost before = items_view(result@);
            self.flatten_menu_items(&item.submenu[k], app_id, result);
            proof {
                let sub = item.submenu@;
                assert(sub.subrange(0, k + 1) =~= sub.subrange(0, k as int).push(sub[k as int]));
                lemma_items_view_push(sub.subrange(0, k as int), sub[k as int]);
                lemma_flat_views_push(items_view(sub.subrange(0, k as int)), item_view(sub[k as int]), app_id@);
                assert(items_view(result@) =~= head + flat_views(items_view(sub.subrange(0, k + 1)), app_id@));
            }
            k = k + 1;
        }
        proof {
            assert(item.submenu@.subrange(0, item.submenu@.len() as int) =~= item.submenu@);
            let v = item_view(*item);
            if !item.is_separator && item.visible && item.enabled {
                assert(head == start.push(MenuItemView { full_path: app_id@ + " → "@ + item.label@, ..v }));
            } else {
                assert(head == start);
            }
            assert(items_view(result@) =~= start + flat_view(v, app_id@));
        }
    }

    /// Appends to `result` the item when it is a favorite, then the favorites
    /// among its submenus.
    fn collect_favorites(&self, item: &TrayMenuItem, result: &mut Vec<TrayMenuItem>)
        ensures
            items_view(final(result)@) == items_view(old(result)@) + fav_view(item_view(*item), self.favorite_set()),
        decreases *item,
    {
        let ghost start = items_view(result@);
        if contains_name(&self.favorites, item.id.as_str()) {
            let c = clone_item(item);
            proof {
                lemma_items_view_push(result@, c);
            }
            result.push(c);
        }
        let ghost head = items_view(result@);
        proof {
            assert(item.submenu@.subrange(0, 0) =~= Seq::<TrayMenuItem>::empty());
            lemma_items_view(item.submenu@.subrange(0, 0));
            assert(items_view(item.submenu@.subrange(0, 0)) =~= Seq::<MenuItemView>::empty());
            assert(head =~= head + fav_views(Seq::<MenuItemView>::empty(), self.favorite_set()));
        }
        let mut k: usize = 0;
        while k < item.submenu.len()
            invariant
                k <= item.submenu@.len(),
                items_view(result@) == head + fav_views(items_view(item.submenu@.subrange(0, k as int)), self.favorite_set()),
            decreases item.submenu.len() - k,
        {
            assert(decreases_to!(*item => item.submenu@[k as int]));
            self.collect_favorites(&item.submenu[k], result);
            proof {
                let sub = item.submenu@;
                assert(sub.subrange(0, k + 1) =~= sub.subrange(0, k as int).push(sub[k as int]));
                lemma_items_view_push(sub.subrange(0, k as int), sub[k as int]);
                lemma_fav_views_push(items_view(sub.subrange(0, k as int)), item_view(sub[k as int]), self.favorite_set());
                assert(items_view(result@) =~= head + fav_views(items_view(sub.subrange(0, k + 1)), self.favorite_set()));
            }
            k = k + 1;
        }
        proof {
            assert(item.submenu@.subrange(0, item.submenu@.len() as int) =~= item.submenu@);
            assert(items_view(result@) =~= start + fav_view(item_view(*item), self.favorite_set()));
        }
    }

    /// The flattened menus of all applications, keeping the items whose label
    /// or path contains the filter (compared in lowercase), ordered by path.
    pub fn get_aggregated_menu(&self, filter: Option<&str>) -> (r: Vec<TrayMenuItem>)
        ensures
            sorted_by_path(items_view(r@)),
            items_view(r@).to_multiset() == matching(all_flat(self.apps@), match filter {
                Some(f) => Some(f@),
                None => None,
            }).to_multiset(),
    {
        let mut items: Vec<TrayMenuItem> = Vec::new();
        let mut a: usize = 0;
        proof {
            lemma_items_view(items@);
            assert(items_view(items@) =~= all_flat(self.apps@.subrange(0, 0)));
        }
        while a < self.apps.len()
            invariant
                a <= self.apps@.len(),
                items_view(items@) == all_flat(self.apps@.subrange(0, a as int)),
            decreases self.apps.len() - a,
        {
            let app = &self.apps[a];
            let ghost base = items_view(items@);
            let mut k: usize = 0;
            proof {
                assert(app.menu_items@.subrange(0, 0) =~= Seq::<TrayMenuItem>::empty());
                lemma_items_view(app.menu_items@.subrange(0, 0));
                assert(items_view(app.menu_items@.subrange(0, 0)) =~= Seq::<MenuItemView>::empty());
                assert(base =~= base + flat_views(Seq::<MenuItemView>::empty(), app.icon.id@));
            }
            while k < app.menu_items.len()
                invariant
                    k <= app.menu_items@.len(),
                    items_view(items@) == base + flat_views(items_view(app.menu_items@.subrange(0, k as int)), app.icon.id@),
                decreases app.menu_items.len() - k,
            {
                self.flatten_menu_items(&app.menu_items[k], app.icon.id.as_str(), &mut items);
                proof {
                    let m = app.menu_items@;
                    assert(m.subrange(0, k + 1) =~= m.subrange(0, k as int).push(m[k as int]));
                    lemma_items_view_push(m.subrange(0, k as int), m[k as int]);
                    lemma_flat_views_push(items_view(m.subrange(0, k as int)), item_view(m[k as int]), app.icon.id@);
                    assert(items_view(items@) =~= base + flat_views(items_view(m.subrange(0, k + 1)), app.icon.id@));
                }
                k = k + 1;
            }
            proof {
                assert(app.menu_items@.subrange(0, app.menu_items@.len() as int) =~= app.menu_items@);
                let s2 = self.apps@.subrange(0, a + 1);
                assert(s2.drop_last() =~= self.apps@.subrange(0, a as int));
                assert(s2.last() == self.apps@[a as int]);
            }
            a = a + 1;
        }
        assert(self.apps@.subrange(0, self.apps@.len() as int) =~= self.apps@);
        let kept = match filter {
            Some(f) => keep_matching(items, f),
            None => {
                proof {
                    assert(matching(items_view(items@), None) == items_view(items@));
                }
                items
            },
        };
        sort_by_full_path(kept)
    }

    /// The favorite items of all applications, ordered by path.
    pub fn get_favorites_menu(&self) -> (r: Vec<TrayMenuItem>)
        ensures
            sorted_by_path(items_view(r@)),
            items_view(r@).to_multiset() == all_favs(self.apps@, self.favorite_set()).to_multiset(),
    {
        let mut favorites: Vec<TrayMenuItem> = Vec::new();
        let mut a: usize = 0;
        proof {
            lemma_items_view(favorites@);
            assert(items_view(favorites@) =~= all_favs(self.apps@.subrange(0, 0), self.favorite_set()));
        }
        while a < self.apps.len()
            invariant
                a <= self.apps@.len(),
                items_view(favorites@) == all_favs(self.apps@.subrange(0, a as int), self.favorite_set()),
            decreases self.apps.len() - a,
        {
            let app = &self.apps[a];
            let ghost base = items_view(favorites@);
            let mut k: usize = 0;
            proof {
                assert(app.menu_items@.subrange(0, 0) =~= Seq::<TrayMenuItem>::empty());
                lemma_items_view(app.menu_items@.subrange(0, 0));
                assert(items_view(app.menu_items@.subrange(0, 0)) =~= Seq::<MenuItemView>::empty());
                assert(base =~= base + fav_views(Seq::<MenuItemView>::empty(), self.favorite_set()));
            }
            while k < app.menu_items.len()
                invariant
                    k <= app.menu_items@.len(),
                    items_view(favorites@) == base + fav_views(items_view(app.menu_items@.subrange(0, k as int)), self.favorite_set()),
                decreases app.menu_items.len() - k,
            {
                self.collect_favorites(&app.menu_items[k], &mut favorites);
                proof {
                    let m = app.menu_items@;
                    assert(m.subrange(0, k + 1) =~= m.subrange(0, k as int).push(m[k as int]));
                    lemma_items_view_push(m.subrange(0, k as int), m[k as int]);
                    lemma_fav_views_push(items_view(m.subrange(0, k as int)), item_view(m[k as int]), self.favorite_set());
                    assert(items_view(favorites@) =~= base + fav_views(items_view(m.subrange(0, k + 1)), self.favorite_set()));
                }
                k = k + 1;
            }
            proof {
                assert(app.menu_items@.subrange(0, app.menu_items@.len() as int) =~= app.menu_items@);
                let s2 = self.apps@.subrange(0, a + 1);
                assert(s2.drop_last() =~= self.apps@.subrange(0, a as int));
                assert(s2.last() == self.apps@[a as int]);
            }
            a = a + 1;
        }
        assert(self.apps@.subrange(0, self.apps@.len() as int) =~= self.apps@);
        sort_by_full_path(favorites)
    }
}

impl Default for TrayMenuTree {
    fn default() -> (t: Self)
        ensures
            t.wf(),
            t.apps@.len() == 0,
            t.icon_order@.len() == 0,
            t.favorites@.len() == 0,
    {
        TrayMenuTree::new()
    }
}

/// A copy of a list of strings.
pub fn clone_strings(v: &Vec<String>) -> (r: Vec<String>)
    ensures
        r@ == v@,
{
    let mut r: Vec<String> = Vec::new();
    let mut k: usize = 0;
    while k < v.len()
        invariant
            k <= v@.len(),
            r@ == v@.subrange(0, k as int),
        decreases v.len() - k,
    {
        r.push(v[k].clone());
        k = k + 1;
        assert(r@ =~= v@.subrange(0, k as int));
    }
    assert(r@ =~= v@);
    r
}

/// Whether a menu item is listed in the aggregated view.
pub open spec fn shown(v: MenuItemView) -> bool {
    !v.is_separator && v.visible && v.enabled
}

/// The aggregated entries of an item: the item itself when shown, under the
/// path "app → label", followed by the entries of its submenus.
pub open spec fn flat_view(v: MenuItemView, app: Seq<char>) -> Seq<MenuItemView>
    decreases v, 1int,
{
    (if shown(v) {
        seq![MenuItemView { full_path: app + " → "@ + v.label, ..v }]
    } else {
        Seq::empty()
    }) + flat_views(v.submenu, app)
}

/// The aggregated entries of a list of items.
pub open spec fn flat_views(vs: Seq<MenuItemView>, app: Seq<char>) -> Seq<MenuItemView>
    decreases vs, 0int,
{
    if vs.len() == 0 {
        Seq::empty()
    } else {
        flat_view(vs[0], app) + flat_views(vs.drop_first(), app)
    }
}

pub proof fn lemma_flat_views_push(vs: Seq<MenuItemView>, v: MenuItemView, app: Seq<char>)
    ensures
        flat_views(vs.push(v), app) == flat_views(vs, app) + flat_view(v, app),
    decreases vs.len(),
{
    if vs.len() == 0 {
        assert(vs.push(v).drop_first() =~= Seq::<MenuItemView>::empty());
        assert(vs.push(v)[0] == v);
        assert(flat_views(Seq::<MenuItemView>::empty(), app) == Seq::<MenuItemView>::empty());
        assert(flat_views(vs.push(v), app) =~= flat_views(vs, app) + flat_view(v, app));
    } else {
        assert(vs.push(v).drop_first() =~= vs.drop_first().push(v));
        lemma_flat_views_push(vs.drop_first(), v, app);
        assert(flat_views(vs.push(v), app) =~= flat_views(vs, app) + flat_view(v, app));
    }
}

/// The aggregated entries of all applications, application by application.
pub open spec fn all_flat(apps: Seq<TrayApp>) -> Seq<MenuItemView>
    decreases apps.len(),
{
    if apps.len() == 0 {
        Seq::empty()
    } else {
        all_flat(apps.drop_last()) + flat_views(items_view(apps.last().menu_items@), apps.last().icon.id@)
    }
}

/// The favorite entries of an item and its submenus: each favorite item as it is.
pub open spec fn fav_view(v: MenuItemView, favs: Set<Seq<char>>) -> Seq<MenuItemView>
    decreases v, 1int,
{
    (if favs.contains(v.id) { seq![v] } else { Seq::empty() }) + fav_views(v.submenu, favs)
}

pub open spec fn fav_views(vs: Seq<MenuItemView>, favs: Set<Seq<char>>) -> Seq<MenuItemView>
    decreases vs, 0int,
{
    if vs.len() == 0 {
        Seq::empty()
    } else {
        fav_view(vs[0], favs) + fav_views(vs.drop_first(), favs)
    }
}

pub proof fn lemma_fav_views_push(vs: Seq<MenuItemView>, v: MenuItemView, favs: Set<Seq<char>>)
    ensures
        fav_views(vs.push(v), favs) == fav_views(vs, favs) + fav_view(v, favs),
    decreases vs.len(),
{
    if vs.len() == 0 {
        assert(vs.push(v).drop_first() =~= Seq::<MenuItemView>::empty());
        assert(vs.push(v)[0] == v);
        assert(fav_views(Seq::<MenuItemView>::empty(), favs) == Seq::<MenuItemView>::empty());
        assert(fav_views(vs.push(v), favs) =~= fav_views(vs, favs) + fav_view(v, favs));
    } else {
        assert(vs.push(v).drop_first() =~= vs.drop_first().push(v));
        lemma_fav_views_push(vs.drop_first(), v, favs);
        assert(fav_views(vs.push(v), favs) =~= fav_views(vs, favs) + fav_view(v, favs));
    }
}

/// The favorite entries of all applications.
pub open spec fn all_favs(apps: Seq<TrayApp>, favs: Set<Seq<char>>) -> Seq<MenuItemView>
    decreases apps.len(),
{
    if apps.len() == 0 {
        Seq::empty()
    } else {
        all_favs(apps.drop_last(), favs) + fav_views(items_view(apps.last().menu_items@), favs)
    }
}

/// Whether an entry's label or path contains the filter, compared in lowercase.
pub open spec fn entry_matches(v: MenuItemView, f: Seq<char>) -> bool {
    has_infix(lowercase(v.label), lowercase(f)) || has_infix(lowercase(v.full_path), lowercase(f))
}

/// The entries that match the filter, order kept; all of them without a filter.
pub open spec fn matching(s: Seq<MenuItemView>, f: Option<Seq<char>>) -> Seq<MenuItemView>
    decreases s.len(),
{
    match f {
        None => s,
        Some(t) => if s.len() == 0 {
            s
        } else if entry_matches(s.last(), t) {
            matching(s.drop_last(), f).push(s.last())
        } else {
            matching(s.drop_last(), f)
        },
    }
}

fn keep_matching(items: Vec<TrayMenuItem>, filter_text: &str) -> (r: Vec<TrayMenuItem>)
    ensures
        items_view(r@) == matching(items_view(items@), Some(filter_text@)),
{
    let lowered = to_lowercase(filter_text);
    let needle = chars_of(lowered.as_str());
    let mut kept: Vec<TrayMenuItem> = Vec::new();
    let mut rest = items;
    let ghost orig = items@;
    let mut k: usize = 0;
    proof {
        lemma_items_view(kept@);
        lemma_items_view(orig.subrange(0, 0));
        assert(items_view(kept@) =~= matching(items_view(orig.subrange(0, 0)), Some(filter_text@)));
    }
    while k < rest.len()
        invariant
            rest@ == orig,
            k <= orig.len(),
            needle@ == lowercase(filter_text@),
            items_view(kept@) == matching(items_view(orig.subrange(0, k as int)), Some(filter_text@)),
        decreases rest.len() - k,
    {
        let label = to_lowercase(rest[k].label.as_str());
        let path = to_lowercase(rest[k].full_path.as_str());
        let l = chars_of(label.as_str());
        let p = chars_of(path.as_str());
        let keep = chars_contain(&l, &needle) || chars_contain(&p, &needle);
        proof {
            let pre = orig.subrange(0, k as int);
            assert(orig.subrange(0, k + 1) =~= pre.push(orig[k as int]));
            lemma_items_view_push(pre, orig[k as int]);
            assert(items_view(orig.subrange(0, k + 1)).drop_last() == items_view(pre));
            assert(items_view(orig.subrange(0, k + 1)).last() == item_view(orig[k as int]));
        }
        if keep {
            let c = clone_item(&rest[k]);
            proof {
                lemma_items_view_push(kept@, c);
            }
            kept.push(c);
        }
        k = k + 1;
    }
    assert(orig.subrange(0, orig.len() as int) =~= orig);
    kept
}

/// Toggling the same item twice as favorite leaves the favorites as they were.
pub proof fn favorite_toggle_twice_restores(favs: Set<Seq<char>>, item_id: Seq<char>)
    ensures
        toggled(toggled(favs, item_id), item_id) == favs,
{
    crate::bar_control::toggle_twice_restores(favs, item_id);
}
/// The menu filter keeps exactly the entries whose label or full path
/// contains the filter text, ignoring case: an entry matched only by its
/// path is kept as well as one matched by its label.
pub proof fn filter_matches_label_or_path(s: Seq<MenuItemView>, f: Seq<char>, x: MenuItemView)
    ensures
        matching(s, Some(f)).contains(x) <==> (s.contains(x) && (has_infix(lowercase(x.label), lowercase(f))
            || has_infix(lowercase(x.full_path), lowercase(f)))),
    decreases s.len(),
{
    if s.len() > 0 {
        filter_matches_label_or_path(s.drop_last(), f, x);
        let d = s.drop_last();
        assert(s =~= d.push(s.last()));
        if s.contains(x) && !d.contains(x) {
            let k = choose|k: int| 0 <= k < s.len() && s[k] == x;
            if k < d.len() {
                assert(d[k] == x);
            }
        }
        if d.contains(x) {
            let k = choose|k: int| 0 <= k < d.len() && d[k] == x;
            assert(s[k] == x);
        }
        let m = matching(d, Some(f));
        if entry_matches(s.last(), f) {
            assert(matching(s, Some(f)) == m.push(s.last()));
            if m.push(s.last()).contains(x) && !m.contains(x) {
                let k = choose|k: int| 0 <= k < m.len() + 1 && m.push(s.last())[k] == x;
                if k < m.len() {
                    assert(m[k] == x);
                }
            }
            if m.contains(x) {
                let k = choose|k: int| 0 <= k < m.len() && m[k] == x;
                assert(m.push(s.last())[k] == x);
            }
            assert(m.push(s.last())[m.len() as int] == s.last());
        }
        assert(s[s.len() - 1] == s.last());
    }
}

} // verus!
