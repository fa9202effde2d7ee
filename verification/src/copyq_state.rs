//! State transitions of the clipboard popup: what each message and key does
//! to the query, the selection, the status line and the image previews, and
//! which outside work it asks for (reading the history, activating entries,
//! loading images, animating). The animation progress itself is kept by the
//! renderer.

use vstd::prelude::*;
use std::collections::HashMap;
use crate::copyq::{
    filter_item_indices, filtered_positions, filtered_positions_keep_history_order,
    image_load_requests_for_visible_items, load_requests, moved_row, next_selected_row, query_tokens,
    row_window, visible_row_window, ClipboardItem, CopyqFrontendOptions, ImageLoadRequest,
    ImagePreviewState, SelectionMove,
};
use crate::i3_vis::KeyModifiers;
use crate::text::{
    chars_eq_ignore_case, chars_of, decimal, eq_ignore_ascii_case, owned, push_decimal, push_str, string_of,
};

verus! {

broadcast use vstd::std_specs::hash::group_hash_axioms;

/// Whether the popup is fading in, shown, or fading out.
#[derive(Debug, Clone, Copy, PartialEq, Eq, Structural)]
pub enum VisibilityPhase {
    Opening,
    Open,
    Closing,
}

/// A key pressed in the popup.
#[derive(Debug, Clone, PartialEq, Eq)]
pub enum CopyqKey {
    Escape,
    F1,
    ArrowDown,
    Tab,
    ArrowUp,
    PageDown,
    PageUp,
    Home,
    End,
    Enter,
    Character(String),
    Other,
}

/// Messages of the clipboard popup.
#[derive(Debug)]
pub enum CopyqMessage {
    LoadRequested,
    Loaded(Result<Vec<ClipboardItem>, String>),
    ImageLoaded(usize, Result<Vec<u8>, String>),
    AnimationTick,
    QueryChanged(String),
    RowSelected(usize),
    ActivateSelected,
    PasteIndex(usize),
    MergeVisibleSelection,
    ToggleHelp,
    OperationDone(Result<(), String>),
    CloseRequested,
    WindowUnfocused,
    KeyPressed(CopyqKey, KeyModifiers),
}

/// Outside work that a message asks for.
#[derive(Debug, PartialEq, Eq)]
pub enum CopyqTask {
    Nothing,
    /// Read the clipboard history and deliver it as a `Loaded` message.
    LoadItems,
    /// Activate (paste) the history entries with these indices, then deliver
    /// an `OperationDone` message.
    Activate(Vec<usize>),
    /// Load these images, delivering each as an `ImageLoaded` message.
    LoadImages(Vec<ImageLoadRequest>),
    /// Advance the open/close animation one step.
    Animate,
}

/// State of the clipboard popup apart from its animation progress.
#[derive(Debug)]
pub struct CopyqState {
    pub options: CopyqFrontendOptions,
    pub query: String,
    pub items: Vec<ClipboardItem>,
    pub selected_row: usize,
    pub show_help: bool,
    pub status: String,
    pub loading: bool,
    pub image_previews: HashMap<usize, ImagePreviewState>,
    pub visibility: VisibilityPhase,
}

/// Abstract value of an image preview.
pub enum PreviewView {
    Loading,
    Ready(Seq<u8>),
    Error(Seq<char>),
}

pub open spec fn preview_view(p: ImagePreviewState) -> PreviewView {
    match p {
        ImagePreviewState::Loading => PreviewView::Loading,
        ImagePreviewState::Ready(bytes) => PreviewView::Ready(bytes@),
        ImagePreviewState::Error(e) => PreviewView::Error(e@),
    }
}

pub open spec fn previews_view(m: Map<usize, ImagePreviewState>) -> Map<usize, PreviewView> {
    m.map_values(|p: ImagePreviewState| preview_view(p))
}

/// Abstract value of the popup state (the options aside).
pub struct CopyqView {
    pub query: Seq<char>,
    pub items: Seq<ClipboardItem>,
    pub selected_row: usize,
    pub show_help: bool,
    pub status: Seq<char>,
    pub loading: bool,
    pub previews: Map<usize, PreviewView>,
    pub visibility: VisibilityPhase,
}

/// Abstract value of a task.
pub enum TaskView {
    Nothing,
    LoadItems,
    Activate(Seq<usize>),
    LoadImages(Seq<(usize, Seq<char>)>),
    Animate,
}

pub open spec fn requests_view(rs: Seq<ImageLoadRequest>) -> Seq<(usize, Seq<char>)> {
    rs.map_values(|q: ImageLoadRequest| (q.index, q.mime_type@))
}

pub open spec fn task_view(t: CopyqTask) -> TaskView {
    match t {
        CopyqTask::Nothing => TaskView::Nothing,
        CopyqTask::LoadItems => TaskView::LoadItems,
        CopyqTask::Activate(ix) => TaskView::Activate(ix@),
        CopyqTask::LoadImages(rs) => TaskView::LoadImages(requests_view(rs@)),
        CopyqTask::Animate => TaskView::Animate,
    }
}

impl CopyqState {
    pub open spec fn view(&self) -> CopyqView {
        CopyqView {
            query: self.query@,
            items: self.items@,
            selected_row: self.selected_row,
            show_help: self.show_help,
            status: self.status@,
            loading: self.loading,
            previews: previews_view(self.image_previews@),
            visibility: self.visibility,
        }
    }

    /// A popup that is opening and loading the history.
    pub fn new(options: CopyqFrontendOptions) -> (s: Self)
        ensures
            s.options == options,
            s.view() == (CopyqView {
                query: Seq::empty(),
                items: Seq::empty(),
                selected_row: 0,
                show_help: false,
                status: "Loading CopyQ history…"@,
                loading: true,
                previews: Map::empty(),
                visibility: VisibilityPhase::Opening,
            }),
    {
        let s = CopyqState {
            options,
            query: String::new(),
            items: Vec::new(),
            selected_row: 0,
            show_help: false,
            status: owned("Loading CopyQ history…"),
            loading: true,
            image_previews: HashMap::new(),
            visibility: VisibilityPhase::Opening,
        };
        assert(s.view().query =~= Seq::<char>::empty());
        assert(s.view().items =~= Seq::<ClipboardItem>::empty());
        assert(s.view().previews =~= Map::<usize, PreviewView>::empty());
        s
    }
}

// == What each step does ==

/// The positions of the entries shown for the current query.
pub open spec fn shown(v: CopyqView) -> Seq<usize> {
    filtered_positions(v.items, v.query)
}

/// The shown positions inside the visible window around the selection.
pub open spec fn visible_positions(v: CopyqView, max_visible_rows: usize) -> Seq<usize> {
    let f = shown(v);
    let (start, end) = row_window(f.len(), v.selected_row as nat, max_visible_rows as nat);
    f.subrange(start, end)
}

/// The previews with every requested image marked as loading.
pub open spec fn marked_loading(m: Map<usize, PreviewView>, reqs: Seq<(usize, Seq<char>)>) -> Map<usize, PreviewView>
    decreases reqs.len(),
{
    if reqs.len() == 0 {
        m
    } else {
        marked_loading(m, reqs.drop_last()).insert(reqs.last().0, PreviewView::Loading)
    }
}

/// Starting the image loads of the visible entries that have no preview yet.
pub open spec fn with_image_loads(v: CopyqView, max_visible_rows: usize) -> (CopyqView, TaskView) {
    let reqs = load_requests(v.items, visible_positions(v, max_visible_rows), v.previews.dom());
    (
        CopyqView { previews: marked_loading(v.previews, reqs), ..v },
        if reqs.len() == 0 { TaskView::Nothing } else { TaskView::LoadImages(reqs) },
    )
}

/// Activating history entries: a status saying what happens, and the
/// activation; nothing to activate is reported instead.
pub open spec fn pasting(v: CopyqView, indices: Seq<usize>) -> (CopyqView, TaskView) {
    if indices.len() == 0 {
        (CopyqView { status: "No clipboard entry selected"@, ..v }, TaskView::Nothing)
    } else if indices.len() == 1 {
        (CopyqView { status: "Activating clipboard #"@ + decimal(indices[0] as nat) + "…"@, ..v }, TaskView::Activate(indices))
    } else {
        (CopyqView { status: "Merging "@ + decimal(indices.len()) + " visible clipboard entries…"@, ..v }, TaskView::Activate(indices))
    }
}

/// Starting to close.
pub open spec fn closing(v: CopyqView) -> CopyqView {
    CopyqView { visibility: VisibilityPhase::Closing, status: "Closing…"@, ..v }
}

/// The history index of the selected entry, if a shown entry is selected.
pub open spec fn selected_index(v: CopyqView) -> Option<usize> {
    let f = shown(v);
    if v.selected_row < f.len() { Some(v.items[f[v.selected_row as int] as int].index) } else { None }
}

/// The history indices of the entries in the visible window.
pub open spec fn visible_indices(v: CopyqView, max_visible_rows: usize) -> Seq<usize> {
    visible_positions(v, max_visible_rows).map_values(|p: usize| v.items[p as int].index)
}

/// Moving the selection, then loading the newly visible images.
pub open spec fn moving(v: CopyqView, movement: SelectionMove, max_visible_rows: usize) -> (CopyqView, TaskView) {
    with_image_loads(
        CopyqView { selected_row: moved_row(v.selected_row as int, shown(v).len() as int, movement) as usize, ..v },
        max_visible_rows,
    )
}

/// What one message does to the popup.
pub open spec fn copyq_step(v: CopyqView, opts: CopyqFrontendOptions, m: CopyqMessage) -> (CopyqView, TaskView) {
    match m {
        CopyqMessage::LoadRequested => (
            CopyqView { loading: true, previews: Map::empty(), status: "Refreshing CopyQ history…"@, ..v },
            TaskView::LoadItems,
        ),
        CopyqMessage::Loaded(Ok(items)) => {
            let w = CopyqView { items: items@, loading: false, ..v };
            let n = shown(w).len();
            let last: int = if n > 0 { n - 1 } else { 0 };
            with_image_loads(
                CopyqView {
                    selected_row: if v.selected_row < last { v.selected_row } else { last as usize },
                    status: decimal(items@.len()) + " clipboard entries · single CopyQ eval"@,
                    ..w
                },
                opts.max_visible_rows,
            )
        },
        CopyqMessage::Loaded(Err(e)) => (CopyqView { loading: false, status: e@, ..v }, TaskView::Nothing),
        CopyqMessage::QueryChanged(q) => with_image_loads(CopyqView { query: q@, selected_row: 0, ..v }, opts.max_visible_rows),
        CopyqMessage::RowSelected(r) => (CopyqView { selected_row: r, ..v }, TaskView::Nothing),
        CopyqMessage::ActivateSelected => match selected_index(v) {
            Some(i) => pasting(v, seq![i]),
            None => (v, TaskView::Nothing),
        },
        CopyqMessage::PasteIndex(i) => pasting(v, seq![i]),
        CopyqMessage::MergeVisibleSelection => pasting(v, visible_indices(v, opts.max_visible_rows)),
        CopyqMessage::ToggleHelp => (CopyqView { show_help: !v.show_help, ..v }, TaskView::Nothing),
        CopyqMessage::OperationDone(Ok(())) => {
            let w = CopyqView { status: "Clipboard entry activated"@, ..v };
            (if opts.paste_on_activate { closing(w) } else { w }, TaskView::Nothing)
        },
        CopyqMessage::OperationDone(Err(e)) => (CopyqView { status: e@, ..v }, TaskView::Nothing),
        CopyqMessage::CloseRequested => (closing(v), TaskView::Nothing),
        CopyqMessage::WindowUnfocused =>
            (if opts.close_on_unfocus && !v.loading { closing(v) } else { v }, TaskView::Nothing),
        CopyqMessage::ImageLoaded(i, Ok(bytes)) => (
            CopyqView {
                previews: v.previews.insert(i, if bytes@.len() > 0 {
                    PreviewView::Ready(bytes@)
                } else {
                    PreviewView::Error("CopyQ returned empty image data"@)
                }),
                ..v
            },
            TaskView::Nothing,
        ),
        CopyqMessage::ImageLoaded(i, Err(e)) =>
            (CopyqView { previews: v.previews.insert(i, PreviewView::Error(e@)), ..v }, TaskView::Nothing),
        CopyqMessage::AnimationTick => (v, TaskView::Animate),
        CopyqMessage::KeyPressed(key, mods) => key_step(v, opts, key, mods),
    }
}

/// What a key does: Escape closes the help or the popup, F1 toggles the
/// help, arrows, Tab, Page Up/Down, Home and End move the selection, Enter
/// activates it; with Control, R reloads, U clears the query and M merges
/// the visible entries.
pub open spec fn key_step(v: CopyqView, opts: CopyqFrontendOptions, key: CopyqKey, mods: KeyModifiers) -> (CopyqView, TaskView) {
    match key {
        CopyqKey::Escape => (if v.show_help { CopyqView { show_help: false, ..v } } else { closing(v) }, TaskView::Nothing),
        CopyqKey::F1 => (CopyqView { show_help: !v.show_help, ..v }, TaskView::Nothing),
        CopyqKey::ArrowDown | CopyqKey::Tab => moving(v, SelectionMove::Down(1), opts.max_visible_rows),
        CopyqKey::ArrowUp => moving(v, SelectionMove::Up(1), opts.max_visible_rows),
        CopyqKey::PageDown => moving(v, SelectionMove::Down(10), opts.max_visible_rows),
        CopyqKey::PageUp => moving(v, SelectionMove::Up(10), opts.max_visible_rows),
        CopyqKey::Home => moving(v, SelectionMove::First, opts.max_visible_rows),
        CopyqKey::End => moving(v, SelectionMove::Last, opts.max_visible_rows),
        CopyqKey::Enter => match selected_index(v) {
            Some(i) => pasting(v, seq![i]),
            None => (v, TaskView::Nothing),
        },
        CopyqKey::Character(c) => if mods.control && eq_ignore_ascii_case(c@, "r"@) {
            (CopyqView { loading: true, previews: Map::empty(), status: "Refreshing CopyQ history…"@, ..v }, TaskView::LoadItems)
        } else if mods.control && eq_ignore_ascii_case(c@, "u"@) {
            (CopyqView { query: Seq::empty(), selected_row: 0, ..v }, TaskView::Nothing)
        } else if mods.control && eq_ignore_ascii_case(c@, "m"@) {
            pasting(v, visible_indices(v, opts.max_visible_rows))
        } else {
            (v, TaskView::Nothing)
        },
        CopyqKey::Other => (v, TaskView::Nothing),
    }
}

// == Steps ==

proof fn lemma_shown_in_range(items: Seq<ClipboardItem>, query: Seq<char>)
    requires
        items.len() <= usize::MAX,
    ensures
        forall|k: int| 0 <= k < filtered_positions(items, query).len()
            ==> (#[trigger] filtered_positions(items, query)[k]) < items.len(),
{
    if query_tokens(query).len() > 0 {
        filtered_positions_keep_history_order(items, query_tokens(query));
    }
}

impl CopyqState {
    fn shown_positions(&self) -> (r: Vec<usize>)
        ensures
            r@ == shown(self.view()),
            forall|k: int| 0 <= k < r@.len() ==> (#[trigger] r@[k]) < self.items@.len(),
    {
        proof {
            assert(self.items@.len() == self.items.len());
            lemma_shown_in_range(self.items@, self.query@);
        }
        filter_item_indices(self.items.as_slice(), self.query.as_str())
    }

    fn visible_shown(&self) -> (r: Vec<usize>)
        ensures
            r@ == visible_positions(self.view(), self.options.max_visible_rows),
            forall|k: int| 0 <= k < r@.len() ==> (#[trigger] r@[k]) < self.items@.len(),
    {
        let shown = self.shown_positions();
        let window = visible_row_window(shown.len(), self.selected_row, self.options.max_visible_rows);
        let mut out: Vec<usize> = Vec::new();
        let mut k: usize = window.start;
        while k < window.end
            invariant
                window.start <= k <= window.end <= shown@.len(),
                out@ == shown@.subrange(window.start as int, k as int),
            decreases window.end - k,
        {
            out.push(shown[k]);
            assert(out@ =~= shown@.subrange(window.start as int, k + 1));
            k = k + 1;
        }
        out
    }

    /// Starts loading the images of the visible entries that have no preview.
    fn schedule_visible_image_loads(&mut self) -> (t: CopyqTask)
        ensures
            final(self).options == old(self).options,
            final(self).view() == with_image_loads(old(self).view(), old(self).options.max_visible_rows).0,
            task_view(t) == with_image_loads(old(self).view(), old(self).options.max_visible_rows).1,
    {
        let visible = self.visible_shown();
        let requests = image_load_requests_for_visible_items(self.items.as_slice(), visible.as_slice(), &self.image_previews);
        let ghost reqs = requests_view(requests@);
        let ghost start = previews_view(self.image_previews@);
        let ghost o = *self;
        assert(start.dom() =~= self.image_previews@.dom());
        assert(reqs == load_requests(o.items@, visible_positions(o.view(), o.options.max_visible_rows), o.view().previews.dom()));
        let mut i: usize = 0;
        assert(reqs.take(0) =~= Seq::<(usize, Seq<char>)>::empty());
        while i < requests.len()
            invariant
                self.options == o.options,
                self.query == o.query,
                self.items == o.items,
                self.selected_row == o.selected_row,
                self.show_help == o.show_help,
                self.status == o.status,
                self.loading == o.loading,
                self.visibility == o.visibility,
                i <= requests@.len(),
                reqs == requests_view(requests@),
                previews_view(self.image_previews@) == marked_loading(start, reqs.take(i as int)),
            decreases requests.len() - i,
        {
            let index = requests[i].index;
            let ghost before = self.image_previews@;
            self.image_previews.insert(index, ImagePreviewState::Loading);
            proof {
                let t = reqs.take(i + 1);
                assert(t.drop_last() =~= reqs.take(i as int));
                assert(t.last() == reqs[i as int]);
                assert(reqs[i as int].0 == index);
                assert(previews_view(self.image_previews@) =~= previews_view(before).insert(index, PreviewView::Loading));
            }
            i = i + 1;
        }
        assert(reqs.take(i as int) =~= reqs);
        assert(reqs.len() == requests@.len());
        if requests.len() == 0 {
            CopyqTask::Nothing
        } else {
            CopyqTask::LoadImages(requests)
        }
    }

    /// Starts activating history entries.
    fn start_paste(&mut self, indices: Vec<usize>) -> (t: CopyqTask)
        ensures
            final(self).options == old(self).options,
            final(self).view() == pasting(old(self).view(), indices@).0,
            task_view(t) == pasting(old(self).view(), indices@).1,
    {
        if indices.len() == 0 {
            self.status = owned("No clipboard entry selected");
            return CopyqTask::Nothing;
        }
        let mut v: Vec<char> = Vec::new();
        if indices.len() == 1 {
            push_str(&mut v, "Activating clipboard #");
            push_decimal(&mut v, indices[0] as u128);
            push_str(&mut v, "…");
        } else {
            push_str(&mut v, "Merging ");
            push_decimal(&mut v, indices.len() as u128);
            push_str(&mut v, " visible clipboard entries…");
        }
        self.status = string_of(&v);
        CopyqTask::Activate(indices)
    }

    /// Starts closing the popup.
    fn begin_close(&mut self)
        ensures
            final(self).options == old(self).options,
            final(self).view() == closing(old(self).view()),
    {
        self.visibility = VisibilityPhase::Closing;
        self.status = owned("Closing…");
    }

    /// The history index of the selected entry, if a shown entry is selected.
    fn selected_item_index(&self) -> (r: Option<usize>)
        ensures
            r == selected_index(self.view()),
    {
        let shown = self.shown_positions();
        if self.selected_row < shown.len() {
            let p = shown[self.selected_row];
            Some(self.items[p].index)
        } else {
            None
        }
    }

    /// The history indices of the visible entries.
    fn visible_item_indices(&self) -> (r: Vec<usize>)
        ensures
            r@ == visible_indices(self.view(), self.options.max_visible_rows),
    {
        let visible = self.visible_shown();
        let mut out: Vec<usize> = Vec::new();
        let mut k: usize = 0;
        while k < visible.len()
            invariant
                k <= visible@.len(),
                forall|j: int| 0 <= j < visible@.len() ==> (#[trigger] visible@[j]) < self.items@.len(),
                out@ == visible@.take(k as int).map_values(|p: usize| self.items@[p as int].index),
            decreases visible.len() - k,
        {
            let p = visible[k];
            out.push(self.items[p].index);
            assert(out@ =~= visible@.take(k + 1).map_values(|p: usize| self.items@[p as int].index));
            k = k + 1;
        }
        assert(visible@.take(k as int) =~= visible@);
        out
    }

    fn move_selection(&mut self, movement: SelectionMove) -> (t: CopyqTask)
        ensures
            final(self).options == old(self).options,
            final(self).view() == moving(old(self).view(), movement, old(self).options.max_visible_rows).0,
            task_view(t) == moving(old(self).view(), movement, old(self).options.max_visible_rows).1,
    {
        let len = self.shown_positions().len();
        self.selected_row = next_selected_row(self.selected_row, len, movement);
        self.schedule_visible_image_loads()
    }
}

impl CopyqState {
    fn refresh(&mut self) -> (t: CopyqTask)
        ensures
            final(self).options == old(self).options,
            final(self).view() == (CopyqView {
                loading: true,
                previews: Map::empty(),
                status: "Refreshing CopyQ history…"@,
                ..old(self).view()
            }),
            t == CopyqTask::LoadItems,
    {
        self.loading = true;
        self.image_previews.clear();
        self.status = owned("Refreshing CopyQ history…");
        assert(previews_view(self.image_previews@) =~= Map::<usize, PreviewView>::empty());
        CopyqTask::LoadItems
    }

    fn activate_selected(&mut self) -> (t: CopyqTask)
        ensures
            final(self).options == old(self).options,
            final(self).view() == (match selected_index(old(self).view()) {
                Some(i) => pasting(old(self).view(), seq![i]),
                None => (old(self).view(), TaskView::Nothing),
            }).0,
            task_view(t) == (match selected_index(old(self).view()) {
                Some(i) => pasting(old(self).view(), seq![i]),
                None => (old(self).view(), TaskView::Nothing),
            }).1,
    {
        match self.selected_item_index() {
            Some(index) => {
                let mut v: Vec<usize> = Vec::new();
                v.push(index);
                assert(v@ =~= seq![index]);
                self.start_paste(v)
            },
            None => CopyqTask::Nothing,
        }
    }

    fn merge_visible(&mut self) -> (t: CopyqTask)
        ensures
            final(self).options == old(self).options,
            final(self).view() == pasting(old(self).view(), visible_indices(old(self).view(), old(self).options.max_visible_rows)).0,
            task_view(t) == pasting(old(self).view(), visible_indices(old(self).view(), old(self).options.max_visible_rows)).1,
    {
        let indices = self.visible_item_indices();
        self.start_paste(indices)
    }

    /// Applies one message; returns the outside work it asks for.
    pub fn update(&mut self, message: CopyqMessage) -> (t: CopyqTask)
        ensures
            final(self).options == old(self).options,
            final(self).view() == copyq_step(old(self).view(), old(self).options, message).0,
            task_view(t) == copyq_step(old(self).view(), old(self).options, message).1,
    {
        match message {
            CopyqMessage::LoadRequested => self.refresh(),
            CopyqMessage::Loaded(Ok(items)) => {
                let count = items.len();
                self.items = items;
                self.loading = false;
                let n = self.shown_positions().len();
                let last: usize = if n > 0 { n - 1 } else { 0 };
                if self.selected_row >= last {
                    self.selected_row = last;
                }
                let mut v: Vec<char> = Vec::new();
                push_decimal(&mut v, count as u128);
                push_str(&mut v, " clipboard entries · single CopyQ eval");
                self.status = string_of(&v);
                self.schedule_visible_image_loads()
            },
            CopyqMessage::Loaded(Err(error)) => {
                self.loading = false;
                self.status = error;
                CopyqTask::Nothing
            },
            CopyqMessage::QueryChanged(query) => {
                self.query = query;
                self.selected_row = 0;
                self.schedule_visible_image_loads()
            },
            CopyqMessage::RowSelected(row) => {
                self.selected_row = row;
                CopyqTask::Nothing
            },
            CopyqMessage::ActivateSelected => self.activate_selected(),
            CopyqMessage::PasteIndex(index) => {
                let mut v: Vec<usize> = Vec::new();
                v.push(index);
                assert(v@ =~= seq![index]);
                self.start_paste(v)
            },
            CopyqMessage::MergeVisibleSelection => self.merge_visible(),
            CopyqMessage::ToggleHelp => {
                self.show_help = !self.show_help;
                CopyqTask::Nothing
            },
            CopyqMessage::OperationDone(Ok(())) => {
                self.status = owned("Clipboard entry activated");
                if self.options.paste_on_activate {
                    self.begin_close();
                }
                CopyqTask::Nothing
            },
            CopyqMessage::OperationDone(Err(error)) => {
                self.status = error;
                CopyqTask::Nothing
            },
            CopyqMessage::CloseRequested => {
                self.begin_close();
                CopyqTask::Nothing
            },
            CopyqMessage::WindowUnfocused => {
                if self.options.close_on_unfocus && !self.loading {
                    self.begin_close();
                }
                CopyqTask::Nothing
            },
            CopyqMessage::ImageLoaded(index, Ok(bytes)) => {
                let ghost before = self.image_previews@;
                let ghost b = bytes@;
                if bytes.len() > 0 {
                    self.image_previews.insert(index, ImagePreviewState::Ready(bytes));
                    assert(previews_view(self.image_previews@) =~= previews_view(before).insert(index, PreviewView::Ready(b)));
                } else {
                    self.image_previews.insert(index, ImagePreviewState::Error(owned("CopyQ returned empty image data")));
                    assert(previews_view(self.image_previews@) =~= previews_view(before).insert(
                        index, PreviewView::Error("CopyQ returned empty image data"@)));
                }
                CopyqTask::Nothing
            },
            CopyqMessage::ImageLoaded(index, Err(error)) => {
                let ghost before = self.image_previews@;
                let ghost e = error@;
                self.image_previews.insert(index, ImagePreviewState::Error(error));
                assert(previews_view(self.image_previews@) =~= previews_view(before).insert(index, PreviewView::Error(e)));
                CopyqTask::Nothing
            },
            CopyqMessage::AnimationTick => CopyqTask::Animate,
            CopyqMessage::KeyPressed(key, modifiers) => self.handle_key(key, modifiers),
        }
    }

    fn is_control_char(value: &String, modifiers: KeyModifiers, letter: &str) -> (r: bool)
        ensures
            r == (modifiers.control && eq_ignore_ascii_case(value@, letter@)),
    {
        if !modifiers.control {
            return false;
        }
        let a = chars_of(value.as_str());
        let b = chars_of(letter);
        chars_eq_ignore_case(&a, &b)
    }

    /// Applies a key press.
    fn handle_key(&mut self, key: CopyqKey, modifiers: KeyModifiers) -> (t: CopyqTask)
        ensures
            final(self).options == old(self).options,
            final(self).view() == key_step(old(self).view(), old(self).options, key, modifiers).0,
            task_view(t) == key_step(old(self).view(), old(self).options, key, modifiers).1,
    {
        match key {
            CopyqKey::Escape => {
                if self.show_help {
                    self.show_help = false;
                } else {
                    self.begin_close();
                }
                CopyqTask::Nothing
            },
            CopyqKey::F1 => {
                self.show_help = !self.show_help;
                CopyqTask::Nothing
            },
            CopyqKey::ArrowDown | CopyqKey::Tab => self.move_selection(SelectionMove::Down(1)),
            CopyqKey::ArrowUp => self.move_selection(SelectionMove::Up(1)),
            CopyqKey::PageDown => self.move_selection(SelectionMove::Down(10)),
            CopyqKey::PageUp => self.move_selection(SelectionMove::Up(10)),
            CopyqKey::Home => self.move_selection(SelectionMove::First),
            CopyqKey::End => self.move_selection(SelectionMove::Last),
            CopyqKey::Enter => self.activate_selected(),
            CopyqKey::Character(value) => {
                if Self::is_control_char(&value, modifiers, "r") {
                    self.refresh()
                } else if Self::is_control_char(&value, modifiers, "u") {
                    self.query = String::new();
                    self.selected_row = 0;
                    CopyqTask::Nothing
                } else if Self::is_control_char(&value, modifiers, "m") {
                    self.merge_visible()
                } else {
                    CopyqTask::Nothing
                }
            },
            CopyqKey::Other => CopyqTask::Nothing,
        }
    }
}

} // verus!
