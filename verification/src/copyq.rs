//! Clipboard history frontend logic: item descriptions, filtering, preview
//! text, selection movement and the scripts that are sent to CopyQ.

use vstd::prelude::*;
use std::collections::HashMap;
use crate::action_runner::ActionOutcome;
use crate::text::{
    ascii_lower, chars_contain, chars_of, decimal, decimal_string, has_infix, has_prefix, mark_breaks,
    mark_line_breaks, owned, push_decimal, push_str, split_whitespace, str_eq,
    str_starts_with, string_of, to_lowercase, trim, trimmed, lowercase, ws_tokens,
};

use crate::names::views;

verus! {

pub const DEFAULT_MAX_PREVIEW_CHARS: usize = 220;
pub const DEFAULT_MAX_VISIBLE_ROWS: usize = 160;
pub const DEFAULT_WINDOW_WIDTH: u32 = 880;
pub const DEFAULT_WINDOW_HEIGHT: u32 = 640;
pub const I3_WINDOW_WIDTH: u32 = 900;
pub const I3_WINDOW_HEIGHT: u32 = 620;

/// Options of the clipboard frontend.
#[derive(Debug, Clone, PartialEq, Eq)]
pub struct CopyqFrontendOptions {
    pub copyq_bin: String,
    pub max_preview_chars: usize,
    pub max_visible_rows: usize,
    pub paste_on_activate: bool,
    pub window_width: u32,
    pub window_height: u32,
    pub i3_shortcut_mode: bool,
    pub close_on_unfocus: bool,
    pub window_title: String,
    pub application_id: String,
}

impl Default for CopyqFrontendOptions {
    fn default() -> (o: Self)
        ensures
            o.copyq_bin@ == "copyq"@,
            o.max_preview_chars == DEFAULT_MAX_PREVIEW_CHARS,
            o.max_visible_rows == DEFAULT_MAX_VISIBLE_ROWS,
            o.paste_on_activate,
            o.window_width == DEFAULT_WINDOW_WIDTH,
            o.window_height == DEFAULT_WINDOW_HEIGHT,
            !o.i3_shortcut_mode,
            !o.close_on_unfocus,
            o.window_title@ == "DeskHalloumi CopyQ"@,
            o.application_id@ == "unilii-copyq"@,
    {
        CopyqFrontendOptions {
            copyq_bin: owned("copyq"),
            max_preview_chars: DEFAULT_MAX_PREVIEW_CHARS,
            max_visible_rows: DEFAULT_MAX_VISIBLE_ROWS,
            paste_on_activate: true,
            window_width: DEFAULT_WINDOW_WIDTH,
            window_height: DEFAULT_WINDOW_HEIGHT,
            i3_shortcut_mode: false,
            close_on_unfocus: false,
            window_title: owned("DeskHalloumi CopyQ"),
            application_id: owned("unilii-copyq"),
        }
    }
}

/// The rows shown for `total` rows with row `selected` selected, at most
/// `max_visible_rows` of them, centred on the selection where possible.
pub open spec fn row_window(total: nat, selected: nat, max_visible_rows: nat) -> (int, int) {
    if total == 0 || max_visible_rows == 0 {
        (0, 0)
    } else {
        let count = if total < max_visible_rows { total } else { max_visible_rows };
        let sel = if selected < total - 1 { selected as int } else { total - 1 };
        let preferred = if sel >= count / 2 { sel - count / 2 } else { 0 };
        let start = if preferred < total - count { preferred } else { total - count };
        (start, start + count)
    }
}

pub fn visible_row_window(total: usize, selected: usize, max_visible_rows: usize) -> (r: std::ops::Range<usize>)
    ensures
        (r.start as int, r.end as int) == row_window(total as nat, selected as nat, max_visible_rows as nat),
        r.start <= r.end <= total,
{
    if total == 0 || max_visible_rows == 0 {
        return 0..0;
    }
    let visible_count = if total < max_visible_rows { total } else { max_visible_rows };
    let selected = if selected < total - 1 { selected } else { total - 1 };
    let preferred_start = if selected >= visible_count / 2 { selected - visible_count / 2 } else { 0 };
    let start = if preferred_start < total - visible_count { preferred_start } else { total - visible_count };
    start..start + visible_count
}

/// One entry of the clipboard history.
#[derive(Debug, Clone, PartialEq, Eq)]
pub struct ClipboardItem {
    pub index: usize,
    pub mime_type: String,
    pub mime_types: Vec<String>,
    pub preview: String,
    pub is_text: bool,
    pub image_mime_type: Option<String>,
    pub chars: usize,
    pub lines: usize,
}

/// The image formats preferred for previews, best first.
pub open spec fn preferred_formats() -> Seq<Seq<char>> {
    seq!["image/png"@, "image/jpeg"@, "image/jpg"@, "image/webp"@, "image/gif"@, "image/bmp"@, "image/tiff"@]
}

/// The first preferred format among `prefs` that `mimes` lists.
pub open spec fn first_listed(prefs: Seq<Seq<char>>, mimes: Seq<Seq<char>>) -> Option<Seq<char>>
    decreases prefs.len(),
{
    if prefs.len() == 0 {
        None
    } else if mimes.contains(prefs[0]) {
        Some(prefs[0])
    } else {
        first_listed(prefs.drop_first(), mimes)
    }
}

/// The first of `mimes` that begins with `image/`.
pub open spec fn first_image(mimes: Seq<Seq<char>>) -> Option<Seq<char>>
    decreases mimes.len(),
{
    if mimes.len() == 0 {
        None
    } else if has_prefix(mimes[0], "image/"@) {
        Some(mimes[0])
    } else {
        first_image(mimes.drop_first())
    }
}

/// The image format to preview: the best preferred format listed, otherwise
/// the first listed image format.
pub open spec fn preferred_image(mimes: Seq<Seq<char>>) -> Option<Seq<char>> {
    match first_listed(preferred_formats(), mimes) {
        Some(m) => Some(m),
        None => first_image(mimes),
    }
}

pub open spec fn str_opt(o: Option<&str>) -> Option<Seq<char>> {
    match o {
        Some(s) => Some(s@),
        None => None,
    }
}

fn listed(mime_types: &[String], candidate: &str) -> (r: bool)
    ensures
        r == views(mime_types@).contains(candidate@),
{
    let mut k: usize = 0;
    while k < mime_types.len()
        invariant
            k <= mime_types@.len(),
            forall|j: int| 0 <= j < k ==> mime_types@[j]@ != candidate@,
        decreases mime_types.len() - k,
    {
        if str_eq(mime_types[k].as_str(), candidate) {
            assert(views(mime_types@)[k as int] == candidate@);
            return true;
        }
        k = k + 1;
    }
    assert forall|j: int| 0 <= j < mime_types@.len() implies #[trigger] views(mime_types@)[j] != candidate@ by {
        assert(mime_types@[j]@ != candidate@);
    }
    false
}

/// The image format to preview among the given formats.
pub fn preferred_image_mime(mime_types: &[String]) -> (r: Option<&str>)
    ensures
        str_opt(r) == preferred_image(views(mime_types@)),
{
    let ghost mimes = views(mime_types@);
    let preferred: [&str; 7] = ["image/png", "image/jpeg", "image/jpg", "image/webp", "image/gif", "image/bmp", "image/tiff"];
    let ghost prefs = preferred_formats();
    assert(preferred@.map_values(|p: &str| p@) =~= prefs);
    assert(prefs.skip(0) =~= prefs);
    let mut p: usize = 0;
    while p < 7
        invariant
            p <= 7,
            mimes == views(mime_types@),
            preferred@.map_values(|q: &str| q@) == prefs,
            prefs == preferred_formats(),
            first_listed(prefs, mimes) == first_listed(prefs.skip(p as int), mimes),
        decreases 7 - p,
    {
        let candidate = preferred[p];
        assert(prefs.skip(p as int)[0] == candidate@) by {
            assert(preferred@.map_values(|q: &str| q@)[p as int] == candidate@);
        }
        if listed(mime_types, candidate) {
            proof {
                let rest = prefs.skip(p as int);
                assert(rest.len() > 0);
                assert(first_listed(rest, mimes) == Some(candidate@));
                assert(first_listed(preferred_formats(), mimes) == Some(candidate@));
                assert(preferred_image(mimes) == Some(candidate@));
            }
            return Some(candidate);
        }
        assert(prefs.skip(p as int).drop_first() =~= prefs.skip(p + 1));
        p = p + 1;
    }
    assert(prefs.skip(7) =~= Seq::<Seq<char>>::empty());
    assert(first_listed(preferred_formats(), mimes) is None);
    let mut k: usize = 0;
    assert(mimes.skip(0) =~= mimes);
    while k < mime_types.len()
        invariant
            k <= mime_types@.len(),
            mimes == views(mime_types@),
            first_listed(preferred_formats(), mimes) is None,
            first_image(mimes) == first_image(mimes.skip(k as int)),
        decreases mime_types.len() - k,
    {
        assert(mimes.skip(k as int)[0] == mime_types@[k as int]@);
        if str_starts_with(mime_types[k].as_str(), "image/") {
            proof {
                let rest = mimes.skip(k as int);
                assert(rest.len() > 0);
                assert(first_image(rest) == Some(mime_types@[k as int]@));
                assert(preferred_image(mimes) == Some(mime_types@[k as int]@));
            }
            return Some(mime_types[k].as_str());
        }
        assert(mimes.skip(k as int).drop_first() =~= mimes.skip(k + 1));
        k = k + 1;
    }
    assert(mimes.skip(k as int) =~= Seq::<Seq<char>>::empty());
    assert(first_listed(prefs, mimes) is None);
    None
}

/// The image format of a clipboard item: the recorded one, otherwise the
/// preferred listed one, otherwise its main format when that is an image.
pub open spec fn item_image(i: ClipboardItem) -> Option<Seq<char>> {
    match i.image_mime_type {
        Some(m) => Some(m@),
        None => match preferred_image(views(i.mime_types@)) {
            Some(m) => Some(m),
            None => if has_prefix(i.mime_type@, "image/"@) { Some(i.mime_type@) } else { None },
        },
    }
}

/// The kind of a clipboard item, as shown in the list.
pub open spec fn kind_of(i: ClipboardItem) -> Seq<char> {
    if item_image(i) is Some {
        "image"@
    } else if i.is_text {
        if i.mime_type@ == "text/html"@ { "html"@ } else { "text"@ }
    } else if has_prefix(i.mime_type@, "application/"@) {
        "data"@
    } else {
        "mime"@
    }
}

/// The metadata line of an item: index, kind, line and character counts
/// when present, and format, separated by " · ".
pub open spec fn meta_line(i: ClipboardItem) -> Seq<char> {
    let sep = " · "@;
    "#"@ + decimal(i.index as nat) + sep + kind_of(i)
        + (if i.lines > 1 { sep + decimal(i.lines as nat) + " lines"@ } else { Seq::empty() })
        + (if i.chars > 0 { sep + decimal(i.chars as nat) + " chars"@ } else { Seq::empty() })
        + sep + i.mime_type@
}

impl ClipboardItem {
    pub fn kind_label(&self) -> (r: &'static str)
        ensures
            r@ == kind_of(*self),
    {
        if self.is_image() {
            "image"
        } else if self.is_text {
            if str_eq(self.mime_type.as_str(), "text/html") {
                "html"
            } else {
                "text"
            }
        } else if str_starts_with(self.mime_type.as_str(), "application/") {
            "data"
        } else {
            "mime"
        }
    }

    pub fn is_image(&self) -> (r: bool)
        ensures
            r == (item_image(*self) is Some),
    {
        self.primary_image_mime().is_some()
    }

    pub fn primary_image_mime(&self) -> (r: Option<&str>)
        ensures
            str_opt(r) == item_image(*self),
    {
        match &self.image_mime_type {
            Some(m) => Some(m.as_str()),
            None => match preferred_image_mime(self.mime_types.as_slice()) {
                Some(m) => Some(m),
                None => if str_starts_with(self.mime_type.as_str(), "image/") {
                    Some(self.mime_type.as_str())
                } else {
                    None
                },
            },
        }
    }

    pub fn compact_meta(&self) -> (r: String)
        ensures
            r@ == meta_line(*self),
    {
        let mut v: Vec<char> = Vec::new();
        push_str(&mut v, "#");
        push_decimal(&mut v, self.index as u128);
        push_str(&mut v, " · ");
        push_str(&mut v, self.kind_label());
        if self.lines > 1 {
            push_str(&mut v, " · ");
            push_decimal(&mut v, self.lines as u128);
            push_str(&mut v, " lines");
        }
        if self.chars > 0 {
            push_str(&mut v, " · ");
            push_decimal(&mut v, self.chars as u128);
            push_str(&mut v, " chars");
        }
        push_str(&mut v, " · ");
        push_str(&mut v, self.mime_type.as_str());
        proof {
            let sep = " · "@;
            let a = "#"@ + decimal(self.index as nat) + sep + kind_of(*self);
            let b = if self.lines > 1 { sep + decimal(self.lines as nat) + " lines"@ } else { Seq::empty() };
            let c = if self.chars > 0 { sep + decimal(self.chars as nat) + " chars"@ } else { Seq::empty() };
            assert(v@ =~= a + b + c + sep + self.mime_type@);
        }
        string_of(&v)
    }
}

/// Errors of the CopyQ client.
#[derive(Debug, Clone, PartialEq, Eq)]
pub enum CopyqError {
    CommandFailed { program: String, message: String },
    Json(String),
    EmptyHistory,
}

/// The displayed message of an error.
pub open spec fn copyq_error_message(e: CopyqError) -> Seq<char> {
    match e {
        CopyqError::CommandFailed { program, message } => program@ + " failed: "@ + message@,
        CopyqError::Json(m) => "failed to parse CopyQ JSON: "@ + m@,
        CopyqError::EmptyHistory => "CopyQ history is empty"@,
    }
}

impl CopyqError {
    /// The human-readable message of the error.
    pub fn message(&self) -> (r: String)
        ensures
            r@ == copyq_error_message(*self),
    {
        let mut v: Vec<char> = Vec::new();
        match self {
            CopyqError::CommandFailed { program, message } => {
                push_str(&mut v, program.as_str());
                push_str(&mut v, " failed: ");
                push_str(&mut v, message.as_str());
            },
            CopyqError::Json(m) => {
                push_str(&mut v, "failed to parse CopyQ JSON: ");
                push_str(&mut v, m.as_str());
            },
            CopyqError::EmptyHistory => {
                push_str(&mut v, "CopyQ history is empty");
            },
        }
        string_of(&v)
    }
}

/// Client of the CopyQ command-line program.
#[derive(Debug, Clone)]
pub struct CopyqClient {
    pub copyq_bin: String,
    pub max_preview_chars: usize,
}

/// How to select (and paste) history entries: one entry is selected as it
/// stands; several are merged by evaluating a script that prints their text,
/// which is then added as a new first entry and selected.
#[derive(Debug, Clone, PartialEq, Eq)]
pub enum PastePlan {
    SelectOne { index: usize, paste: bool },
    Merge { script: String, paste: bool },
}

/// The commands that a merge runs once the script printed the merged text:
/// add it, select the first entry, and paste when asked.
pub open spec fn merge_commands(text: Seq<char>, paste: bool) -> Seq<Seq<Seq<char>>> {
    seq![seq!["add"@, text], seq!["select"@, "0"@]] + if paste { seq![seq!["paste"@]] } else { Seq::empty() }
}

/// The commands that selecting entry `index` runs: select it, and paste
/// when asked.
pub open spec fn select_commands(index: usize, paste: bool) -> Seq<Seq<Seq<char>>> {
    seq![seq!["select"@, decimal(index as nat)]] + if paste { seq![seq!["paste"@]] } else { Seq::empty() }
}

fn command_line(parts: &Vec<&str>) -> (r: Vec<String>)
    ensures
        views(r@) == parts@.map_values(|p: &str| p@),
{
    let mut r: Vec<String> = Vec::new();
    let mut i: usize = 0;
    while i < parts.len()
        invariant
            i <= parts@.len(),
            views(r@) == parts@.take(i as int).map_values(|p: &str| p@),
        decreases parts.len() - i,
    {
        let ghost before = r@;
        let part = owned(parts[i]);
        r.push(part);
        assert(views(r@) =~= views(before).push(part@));
        assert(parts@.take(i + 1) =~= parts@.take(i as int).push(parts@[i as int]));
        assert(views(r@) =~= parts@.take(i + 1).map_values(|p: &str| p@));
        i = i + 1;
    }
    assert(parts@.take(i as int) =~= parts@);
    r
}

impl CopyqClient {
    /// How to select (and paste) the given history entries; nothing to
    /// select is an error.
    pub fn paste_plan(&self, indices: &[usize], paste: bool) -> (r: Result<PastePlan, CopyqError>)
        ensures
            indices@.len() == 0 ==> r == Err::<PastePlan, CopyqError>(CopyqError::EmptyHistory),
            indices@.len() == 1 ==> r == Ok::<PastePlan, CopyqError>(PastePlan::SelectOne { index: indices@[0], paste }),
            indices@.len() > 1 ==> (r matches Ok(PastePlan::Merge { script, paste: p }) && p == paste && script@
                == SELECTED_SCRIPT_HEAD@ + joined_decimals(indices@) + SELECTED_SCRIPT_TAIL@),
    {
        if indices.len() == 0 {
            return Err(CopyqError::EmptyHistory);
        }
        if indices.len() == 1 {
            return Ok(PastePlan::SelectOne { index: indices[0], paste });
        }
        Ok(PastePlan::Merge { script: build_selected_items_eval_script(indices), paste })
    }

    /// The command lines (arguments of the CopyQ program) that selecting
    /// entry `index` runs.
    pub fn select_command_lines(index: usize, paste: bool) -> (r: Vec<Vec<String>>)
        ensures
            r@.map_values(|c: Vec<String>| views(c@)) == select_commands(index, paste),
    {
        let number = decimal_string(index as u128);
        let mut r: Vec<Vec<String>> = Vec::new();
        let parts = vec!["select", number.as_str()];
        let select = command_line(&parts);
        assert(parts@.map_values(|p: &str| p@) =~= seq!["select"@, decimal(index as nat)]);
        r.push(select);
        if paste {
            let parts = vec!["paste"];
            let p = command_line(&parts);
            assert(parts@.map_values(|p: &str| p@) =~= seq!["paste"@]);
            r.push(p);
        }
        assert(r@.map_values(|c: Vec<String>| views(c@)) =~= select_commands(index, paste));
        r
    }

    /// The command lines that a merge runs after its script printed `text`.
    pub fn merge_command_lines(text: &str, paste: bool) -> (r: Vec<Vec<String>>)
        ensures
            r@.map_values(|c: Vec<String>| views(c@)) == merge_commands(text@, paste),
    {
        let mut r: Vec<Vec<String>> = Vec::new();
        let parts = vec!["add", text];
        let add = command_line(&parts);
        assert(parts@.map_values(|p: &str| p@) =~= seq!["add"@, text@]);
        r.push(add);
        let parts = vec!["select", "0"];
        let select = command_line(&parts);
        assert(parts@.map_values(|p: &str| p@) =~= seq!["select"@, "0"@]);
        r.push(select);
        if paste {
            let parts = vec!["paste"];
            let p = command_line(&parts);
            assert(parts@.map_values(|p: &str| p@) =~= seq!["paste"@]);
            r.push(p);
        }
        assert(r@.map_values(|c: Vec<String>| views(c@)) =~= merge_commands(text@, paste));
        r
    }

    /// What the output of an `eval` run gives: the run's error (its standard
    /// error when not blank), an error when the output hit the limit, else
    /// the trimmed output.
    pub fn eval_output(&self, outcome: ActionOutcome<()>) -> (r: Result<String, CopyqError>)
        ensures
            match outcome.result {
                Err(e) => (r matches Err(CopyqError::CommandFailed { program, message }) && program == self.copyq_bin
                    && message@ == (if trim(outcome.stderr@).len() == 0 { e@ } else { trim(outcome.stderr@) })),
                Ok(_) => if outcome.stdout_truncated {
                    (r matches Err(CopyqError::CommandFailed { program, message }) && program == self.copyq_bin
                        && message@ == "CopyQ output exceeded limit ("@ + decimal(outcome.stdout_bytes as nat)
                        + " bytes)"@)
                } else {
                    (r matches Ok(t) && t@ == trim(outcome.stdout@))
                },
            },
    {
        match outcome.result {
            Err(error) => Err(
                CopyqError::CommandFailed {
                    program: self.copyq_bin.clone(),
                    message: command_error(error, outcome.stderr.as_str()),
                },
            ),
            Ok(_) => {
                if outcome.stdout_truncated {
                    let mut v: Vec<char> = Vec::new();
                    push_str(&mut v, "CopyQ output exceeded limit (");
                    push_decimal(&mut v, outcome.stdout_bytes as u128);
                    push_str(&mut v, " bytes)");
                    Err(CopyqError::CommandFailed { program: self.copyq_bin.clone(), message: string_of(&v) })
                } else {
                    Ok(string_of(&trimmed(outcome.stdout.as_str())))
                }
            },
        }
    }

    pub fn new(options: &CopyqFrontendOptions) -> (c: Self)
        ensures
            c.copyq_bin == options.copyq_bin,
            c.max_preview_chars == options.max_preview_chars,
    {
        CopyqClient { copyq_bin: options.copyq_bin.clone(), max_preview_chars: options.max_preview_chars }
    }
}

/// The error to report for a failed command: its trimmed standard error when
/// that is not blank, otherwise the runner's error.
pub fn command_error(error: String, stderr: &str) -> (r: String)
    ensures
        r@ == if trim(stderr@).len() == 0 { error@ } else { trim(stderr@) },
{
    let t = trimmed(stderr);
    if t.len() == 0 {
        error
    } else {
        string_of(&t)
    }
}

/// Options for the i3 shortcut popup: shortcut mode and close-on-unfocus on,
/// and the i3 window size where the size was left at its default.
pub fn apply_i3_shortcut_defaults(options: CopyqFrontendOptions) -> (o: CopyqFrontendOptions)
    ensures
        o == (CopyqFrontendOptions {
            i3_shortcut_mode: true,
            close_on_unfocus: true,
            window_width: if options.window_width == DEFAULT_WINDOW_WIDTH { I3_WINDOW_WIDTH } else { options.window_width },
            window_height: if options.window_height == DEFAULT_WINDOW_HEIGHT { I3_WINDOW_HEIGHT } else { options.window_height },
            ..options
        }),
{
    let mut options = options;
    options.i3_shortcut_mode = true;
    options.close_on_unfocus = true;
    if options.window_width == DEFAULT_WINDOW_WIDTH {
        options.window_width = I3_WINDOW_WIDTH;
    }
    if options.window_height == DEFAULT_WINDOW_HEIGHT {
        options.window_height = I3_WINDOW_HEIGHT;
    }
    options
}

pub const COPYQ_SNIPPET_HEAD: &'static str = "for_window [app_id=\"unilii-copyq\"] floating enable, border pixel 2, move position center, sticky enable\nbindsym ";

/// The i3 configuration lines for the clipboard popup.
pub fn i3_config_snippet(executable: &str, modifier: &str) -> (r: String)
    ensures
        r@ == COPYQ_SNIPPET_HEAD@ + modifier@ + "+v exec --no-startup-id "@ + executable@ + " --i3-shortcut"@,
{
    let mut v: Vec<char> = Vec::new();
    push_str(&mut v, COPYQ_SNIPPET_HEAD);
    push_str(&mut v, modifier);
    push_str(&mut v, "+v exec --no-startup-id ");
    push_str(&mut v, executable);
    push_str(&mut v, " --i3-shortcut");
    string_of(&v)
}


/// The text that a query is matched against: index, format, kind and
/// preview, separated by spaces, in lowercase.
pub open spec fn haystack(i: ClipboardItem) -> Seq<char> {
    lowercase(decimal(i.index as nat) + " "@ + i.mime_type@ + " "@ + kind_of(i) + " "@ + i.preview@)
}

/// Whether every token occurs in the text.
pub open spec fn all_tokens_in(tokens: Seq<Seq<char>>, text: Seq<char>) -> bool {
    forall|t: int| 0 <= t < tokens.len() ==> has_infix(text, #[trigger] tokens[t])
}

/// The query tokens: the whitespace-separated words of the query, each in lowercase.
pub open spec fn query_tokens(query: Seq<char>) -> Seq<Seq<char>> {
    ws_tokens(query).map_values(|w: Seq<char>| lowercase(w))
}

/// The positions of the items that contain every query token, in history order.
pub open spec fn matching_positions(items: Seq<ClipboardItem>, tokens: Seq<Seq<char>>) -> Seq<usize>
    decreases items.len(),
{
    if items.len() == 0 {
        Seq::empty()
    } else if all_tokens_in(tokens, haystack(items.last())) {
        matching_positions(items.drop_last(), tokens).push((items.len() - 1) as usize)
    } else {
        matching_positions(items.drop_last(), tokens)
    }
}

/// The positions of the items that match a query, in history order; all
/// positions for a blank query.
pub open spec fn filtered_positions(items: Seq<ClipboardItem>, query: Seq<char>) -> Seq<usize> {
    if query_tokens(query).len() == 0 {
        Seq::new(items.len(), |k: int| k as usize)
    } else {
        matching_positions(items, query_tokens(query))
    }
}

/// The positions of the items that match a query; all positions for a blank query.
pub fn filter_item_indices(items: &[ClipboardItem], query: &str) -> (r: Vec<usize>)
    ensures
        r@ == filtered_positions(items@, query@),
{
    let words = split_whitespace(query);
    let mut tokens: Vec<Vec<char>> = Vec::new();
    let mut w: usize = 0;
    while w < words.len()
        invariant
            w <= words@.len(),
            words@.map_values(|t: Vec<char>| t@) == ws_tokens(query@),
            tokens@.len() == w,
            forall|j: int| 0 <= j < w ==> #[trigger] tokens@[j]@ == lowercase(words@[j]@),
        decreases words.len() - w,
    {
        let word = string_of(&words[w]);
        let lowered = to_lowercase(word.as_str());
        tokens.push(chars_of(lowered.as_str()));
        w = w + 1;
    }
    let ghost qt = query_tokens(query@);
    proof {
        assert(tokens@.map_values(|t: Vec<char>| t@) =~= qt) by {
            assert forall|j: int| 0 <= j < qt.len() implies tokens@.map_values(|t: Vec<char>| t@)[j] == qt[j] by {
                assert(ws_tokens(query@)[j] == words@[j]@);
            }
        }
    }
    let mut out: Vec<usize> = Vec::new();
    if tokens.len() == 0 {
        let mut k: usize = 0;
        while k < items.len()
            invariant
                k <= items@.len(),
                out@ == Seq::new(k as nat, |j: int| j as usize),
            decreases items.len() - k,
        {
            out.push(k);
            k = k + 1;
            assert(out@ =~= Seq::new(k as nat, |j: int| j as usize));
        }
        return out;
    }
    let mut k: usize = 0;
    proof {
        assert(items@.subrange(0, 0) =~= Seq::<ClipboardItem>::empty());
        assert(out@ =~= matching_positions(items@.subrange(0, 0), qt));
    }
    while k < items.len()
        invariant
            k <= items@.len(),
            tokens@.map_values(|t: Vec<char>| t@) == qt,
            out@ == matching_positions(items@.subrange(0, k as int), qt),
        decreases items.len() - k,
    {
        let item = &items[k];
        let mut text: Vec<char> = Vec::new();
        push_decimal(&mut text, item.index as u128);
        push_str(&mut text, " ");
        push_str(&mut text, item.mime_type.as_str());
        push_str(&mut text, " ");
        push_str(&mut text, item.kind_label());
        push_str(&mut text, " ");
        push_str(&mut text, item.preview.as_str());
        let joined = string_of(&text);
        let lowered = to_lowercase(joined.as_str());
        let hay = chars_of(lowered.as_str());
        proof {
            assert(text@ =~= decimal(item.index as nat) + " "@ + item.mime_type@ + " "@ + kind_of(*item) + " "@ + item.preview@);
        }
        let mut all = true;
        let mut t: usize = 0;
        while t < tokens.len()
            invariant
                t <= tokens@.len(),
                hay@ == haystack(items@[k as int]),
                tokens@.map_values(|x: Vec<char>| x@) == qt,
                all == forall|j: int| 0 <= j < t ==> has_infix(hay@, #[trigger] qt[j]),
            decreases tokens.len() - t,
        {
            let found = chars_contain(&hay, &tokens[t]);
            proof {
                assert(qt[t as int] == tokens@[t as int]@);
            }
            all = all && found;
            t = t + 1;
        }
        proof {
            let p = items@.subrange(0, k + 1);
            assert(p.drop_last() =~= items@.subrange(0, k as int));
            assert(p.last() == items@[k as int]);
        }
        if all {
            out.push(k);
        }
        k = k + 1;
    }
    assert(items@.subrange(0, items@.len() as int) =~= items@);
    out
}

// == Status line ==

/// The selection part of the status line: nothing when no entry matches;
/// otherwise the selected row (clamped to the last one, counted from 1),
/// the number of matching entries, and the visible rows `start + 1` to
/// `end`.
pub open spec fn selection_text(filtered_len: nat, selected_row: nat, start: nat, end: nat) -> Seq<char> {
    if filtered_len == 0 {
        "no selection"@
    } else {
        "selected "@ + decimal((if selected_row < filtered_len { selected_row } else { (filtered_len - 1) as nat }) + 1)
            + " / "@ + decimal(filtered_len) + " · rows "@ + decimal(start + 1) + "–"@ + decimal(end)
    }
}

/// The selection part of the status line.
pub fn selection_status(filtered_len: usize, selected_row: usize, start: usize, end: usize) -> (r: String)
    ensures
        r@ == selection_text(filtered_len as nat, selected_row as nat, start as nat, end as nat),
{
    if filtered_len == 0 {
        return owned("no selection");
    }
    let row: usize = if selected_row < filtered_len { selected_row } else { filtered_len - 1 };
    let mut v: Vec<char> = Vec::new();
    push_str(&mut v, "selected ");
    push_decimal(&mut v, row as u128 + 1);
    push_str(&mut v, " / ");
    push_decimal(&mut v, filtered_len as u128);
    push_str(&mut v, " · rows ");
    push_decimal(&mut v, start as u128 + 1);
    push_str(&mut v, "–");
    push_decimal(&mut v, end as u128);
    string_of(&v)
}

/// The status line: the status message, the selection, the number of
/// entries in the history and the shortcut hint; shown after a hollow dot
/// while loading and a full one otherwise.
pub fn status_line(loading: bool, status: &str, selection: &str, total: usize) -> (r: (&'static str, String))
    ensures
        r.0@ == (if loading { "◌"@ } else { "●"@ }),
        r.1@ == status@ + " · "@ + selection@ + " · "@ + decimal(total as nat) + " total · F1 shortcuts"@,
{
    let mut v: Vec<char> = Vec::new();
    push_str(&mut v, status);
    push_str(&mut v, " · ");
    push_str(&mut v, selection);
    push_str(&mut v, " · ");
    push_decimal(&mut v, total as u128);
    push_str(&mut v, " total · F1 shortcuts");
    (if loading { "◌" } else { "●" }, string_of(&v))
}

/// Number of characters kept when shortening text: everything that fits,
/// otherwise an ellipsis in the middle of the first and last characters.
pub open spec fn middle_truncated(s: Seq<char>, max_chars: nat) -> Seq<char> {
    if s.len() <= max_chars {
        s
    } else if max_chars <= 3 {
        seq!['…']
    } else {
        let keep = max_chars - 1;
        let head = keep / 2;
        let tail = keep - head;
        s.take(head) + seq!['…'] + s.skip(s.len() - tail)
    }
}

/// Shortens text to `max_chars` characters by replacing its middle with an ellipsis.
pub fn truncate_middle(value: &str, max_chars: usize) -> (r: String)
    ensures
        r@ == middle_truncated(value@, max_chars as nat),
{
    let v = chars_of(value);
    let len = v.len();
    if len <= max_chars {
        return string_of(&v);
    }
    if max_chars <= 3 {
        let mut e: Vec<char> = Vec::new();
        e.push('…');
        return string_of(&e);
    }
    let keep = max_chars - 1;
    let head = keep / 2;
    let tail = keep - head;
    let mut out: Vec<char> = Vec::new();
    let mut k: usize = 0;
    while k < head
        invariant
            k <= head < len,
            len == v@.len(),
            out@ == v@.take(k as int),
        decreases head - k,
    {
        out.push(v[k]);
        k = k + 1;
        assert(out@ =~= v@.take(k as int));
    }
    out.push('…');
    let ghost mid = out@;
    let mut j: usize = len - tail;
    while j < len
        invariant
            tail <= len,
            len - tail <= j <= len,
            len == v@.len(),
            out@ == mid + v@.subrange(len - tail, j as int),
        decreases len - j,
    {
        out.push(v[j]);
        j = j + 1;
        assert(out@ =~= mid + v@.subrange(len - tail, j as int));
    }
    assert(v@.subrange(len - tail, len as int) =~= v@.skip(len - tail));
    string_of(&out)
}

/// Preview text: line breaks shown as `↵`, then shortened in the middle.
pub fn compact_preview(value: &str, max_chars: usize) -> (r: String)
    ensures
        r@ == middle_truncated(mark_line_breaks(value@), max_chars as nat),
{
    let marked = mark_breaks(value);
    let s = string_of(&marked);
    truncate_middle(s.as_str(), max_chars)
}

/// Moves of the selection in the history list.
#[derive(Debug, Clone, Copy, PartialEq, Eq)]
pub enum SelectionMove {
    Up(usize),
    Down(usize),
    First,
    Last,
}

/// The selected row after a move within `len` rows: up and down by a count
/// stop at the first and last rows; an empty list selects row 0.
pub open spec fn moved_row(current: int, len: int, movement: SelectionMove) -> int {
    if len == 0 {
        0
    } else {
        match movement {
            SelectionMove::Up(n) => if current >= n { current - n } else { 0 },
            SelectionMove::Down(n) => if current + n < len - 1 { current + n } else { len - 1 },
            SelectionMove::First => 0,
            SelectionMove::Last => len - 1,
        }
    }
}

/// The selected row after a move, kept within `len` rows.
pub fn next_selected_row(current: usize, len: usize, movement: SelectionMove) -> (r: usize)
    ensures
        r == moved_row(current as int, len as int, movement),
{
    if len == 0 {
        return 0;
    }
    match movement {
        SelectionMove::Up(amount) => if current >= amount { current - amount } else { 0 },
        SelectionMove::Down(amount) => {
            if current >= len - 1 || amount >= len - 1 - current { len - 1 } else { current + amount }
        },
        SelectionMove::First => 0,
        SelectionMove::Last => len - 1,
    }
}

/// State of an image preview.
#[derive(Debug, Clone, PartialEq, Eq)]
pub enum ImagePreviewState {
    Loading,
    Ready(Vec<u8>),
    Error(String),
}

/// A request to load the image of a history entry.
#[derive(Debug, Clone, PartialEq, Eq)]
pub struct ImageLoadRequest {
    pub index: usize,
    pub mime_type: String,
}

/// The image loads needed for the visible entries: one per visible entry
/// that is an image and has no preview state yet, in the visible order.
pub open spec fn load_requests(items: Seq<ClipboardItem>, visible: Seq<usize>, cached: Set<usize>) -> Seq<(usize, Seq<char>)>
    decreases visible.len(),
{
    if visible.len() == 0 {
        Seq::empty()
    } else {
        let rest = load_requests(items, visible.drop_last(), cached);
        let p = visible.last();
        if p < items.len() && item_image(items[p as int]) is Some && !cached.contains(items[p as int].index) {
            rest.push((items[p as int].index, item_image(items[p as int]).unwrap()))
        } else {
            rest
        }
    }
}

pub fn image_load_requests_for_visible_items(
    items: &[ClipboardItem],
    filtered_indices: &[usize],
    image_previews: &HashMap<usize, ImagePreviewState>,
) -> (r: Vec<ImageLoadRequest>)
    ensures
        r@.map_values(|q: ImageLoadRequest| (q.index, q.mime_type@))
            == load_requests(items@, filtered_indices@, image_previews@.dom()),
{
    broadcast use vstd::std_specs::hash::group_hash_axioms;
    let mut out: Vec<ImageLoadRequest> = Vec::new();
    let mut k: usize = 0;
    proof {
        assert(filtered_indices@.subrange(0, 0) =~= Seq::<usize>::empty());
        assert(out@.map_values(|q: ImageLoadRequest| (q.index, q.mime_type@)) =~= Seq::<(usize, Seq<char>)>::empty());
    }
    while k < filtered_indices.len()
        invariant
            k <= filtered_indices@.len(),
            out@.map_values(|q: ImageLoadRequest| (q.index, q.mime_type@))
                == load_requests(items@, filtered_indices@.subrange(0, k as int), image_previews@.dom()),
        decreases filtered_indices.len() - k,
    {
        let p = filtered_indices[k];
        let ghost before = out@;
        proof {
            let s = filtered_indices@.subrange(0, k + 1);
            assert(s.drop_last() =~= filtered_indices@.subrange(0, k as int));
            assert(s.last() == p);
        }
        if p < items.len() {
            let item = &items[p];
            match item.primary_image_mime() {
                Some(mime) => {
                    if !image_previews.contains_key(&item.index) {
                        out.push(ImageLoadRequest { index: item.index, mime_type: owned(mime) });
                        proof {
                            assert(out@.map_values(|q: ImageLoadRequest| (q.index, q.mime_type@))
                                =~= before.map_values(|q: ImageLoadRequest| (q.index, q.mime_type@)).push((item.index, mime@)));
                        }
                    }
                },
                None => {},
            }
        }
        k = k + 1;
    }
    assert(filtered_indices@.subrange(0, filtered_indices@.len() as int) =~= filtered_indices@);
    out
}

pub const HISTORY_SCRIPT_HEAD: &'static str = "\nvar MAX_LENGTH = ";
pub const HISTORY_SCRIPT_TAIL: &'static str = ";\nvar ELLIPSIS = \"…\";\n\nfunction truncateMiddle(value) {\n  if (value.length <= MAX_LENGTH) {\n    return value;\n  }\n  if (MAX_LENGTH <= ELLIPSIS.length + 2) {\n    return ELLIPSIS;\n  }\n  var keep = MAX_LENGTH - ELLIPSIS.length;\n  var head = Math.floor(keep / 2);\n  var tail = keep - head;\n  return value.substring(0, head) + ELLIPSIS + value.substring(value.length - tail);\n}\n\nfunction compactPreview(value) {\n  return truncateMiddle(String(value).replace(/\\r\\n|\\r|\\n/g, \"↵\"));\n}\n\nfunction nonEmpty(value) { return value.length > 0; }\nfunction hasMime(mimeTypes, target) { return mimeTypes.indexOf(target) !== -1; }\nfunction preferredImageMime(mimeTypes) {\n  var preferred = [\"image/png\", \"image/jpeg\", \"image/jpg\", \"image/webp\", \"image/gif\", \"image/bmp\", \"image/tiff\"];\n  for (var p = 0; p < preferred.length; p++) {\n    if (hasMime(mimeTypes, preferred[p])) { return preferred[p]; }\n  }\n  for (var m = 0; m < mimeTypes.length; m++) {\n    if (mimeTypes[m].indexOf(\"image/\") === 0) { return mimeTypes[m]; }\n  }\n  return null;\n}\n\nvar items = [];\nfor (var i = 0; i < count(); ++i) {\n  var mimeTypes = str(read(\"?\", i)).split(\"\\n\").filter(nonEmpty);\n  var mimeType = mimeTypes.length > 0 ? mimeTypes[0] : \"application/octet-stream\";\n  var isText = hasMime(mimeTypes, \"text/plain\") || hasMime(mimeTypes, \"text/html\") ||\n               mimeType === \"text/plain\" || mimeType === \"text/html\";\n  var imageMime = preferredImageMime(mimeTypes);\n  var raw = isText ? str(read(i)) : (imageMime ? \"<image: \" + imageMime + \">\" : \"<\" + mimeType + \">\");\n  var lines = raw.length === 0 ? 0 : raw.split(/\\r\\n|\\r|\\n/).length;\n  items.push({\n    index: i,\n    mime_type: mimeType,\n    mime_types: mimeTypes,\n    preview: compactPreview(raw),\n    is_text: isText,\n    image_mime_type: imageMime,\n    chars: raw.length,\n    lines: lines\n  });\n}\nprint(JSON.stringify(items));\n";
pub const SELECTED_SCRIPT_HEAD: &'static str = "\nvar indices = [";
pub const SELECTED_SCRIPT_TAIL: &'static str = "];\nfor (var i = 0; i < indices.length; i++) {\n  var j = indices[i];\n  var mimeTypes = str(read(\"?\", j)).split(\"\\n\");\n  var mimeType = mimeTypes.length > 0 ? mimeTypes[0] : \"application/octet-stream\";\n  if (mimeTypes.indexOf(\"text/plain\") !== -1 || mimeTypes.indexOf(\"text/html\") !== -1 ||\n      mimeType === \"text/plain\" || mimeType === \"text/html\") {\n    print(str(read(j)));\n  } else {\n    print(\"<\" + mimeType + \">\");\n  }\n  print(\"\\n\");\n}\n";

/// The CopyQ script that lists the history as JSON, previews shortened to
/// `max_preview_chars` characters.
pub fn build_history_eval_script(max_preview_chars: usize) -> (r: String)
    ensures
        r@ == HISTORY_SCRIPT_HEAD@ + decimal(max_preview_chars as nat) + HISTORY_SCRIPT_TAIL@,
{
    let mut v: Vec<char> = Vec::new();
    push_str(&mut v, HISTORY_SCRIPT_HEAD);
    push_decimal(&mut v, max_preview_chars as u128);
    push_str(&mut v, HISTORY_SCRIPT_TAIL);
    string_of(&v)
}

/// Decimal renderings of the numbers, separated by ", ".
pub open spec fn joined_decimals(s: Seq<usize>) -> Seq<char>
    decreases s.len(),
{
    if s.len() == 0 {
        Seq::empty()
    } else if s.len() == 1 {
        decimal(s[0] as nat)
    } else {
        joined_decimals(s.drop_last()) + ", "@ + decimal(s.last() as nat)
    }
}

/// The CopyQ script that prints the text of the given history entries.
pub fn build_selected_items_eval_script(indices: &[usize]) -> (r: String)
    ensures
        r@ == SELECTED_SCRIPT_HEAD@ + joined_decimals(indices@) + SELECTED_SCRIPT_TAIL@,
{
    let mut v: Vec<char> = Vec::new();
    push_str(&mut v, SELECTED_SCRIPT_HEAD);
    let ghost head = v@;
    let mut k: usize = 0;
    proof {
        assert(indices@.subrange(0, 0) =~= Seq::<usize>::empty());
        assert(v@ =~= head + joined_decimals(indices@.subrange(0, 0)));
    }
    while k < indices.len()
        invariant
            k <= indices@.len(),
            v@ == head + joined_decimals(indices@.subrange(0, k as int)),
        decreases indices.len() - k,
    {
        let ghost before = v@;
        if k > 0 {
            push_str(&mut v, ", ");
        }
        push_decimal(&mut v, indices[k] as u128);
        proof {
            let s = indices@.subrange(0, k + 1);
            assert(s.drop_last() =~= indices@.subrange(0, k as int));
            assert(s.last() == indices@[k as int]);
            if k == 0 {
                assert(s.len() == 1);
                assert(v@ =~= head + joined_decimals(s));
            } else {
                assert(v@ =~= head + joined_decimals(s));
            }
        }
        k = k + 1;
    }
    assert(indices@.subrange(0, indices@.len() as int) =~= indices@);
    push_str(&mut v, SELECTED_SCRIPT_TAIL);
    string_of(&v)
}

// == Laws ==

/// The visible rows always include the selected row (clamped to the last
/// row), and there are as many of them as fit: all rows when they fit,
/// otherwise `max_visible_rows`.
pub proof fn visible_window_keeps_selection(total: nat, selected: nat, max_visible_rows: nat)
    requires
        total > 0,
        max_visible_rows > 0,
    ensures
        ({
            let (start, end) = row_window(total, selected, max_visible_rows);
            let sel = if selected < total { selected as int } else { total - 1 };
            &&& 0 <= start <= sel < end <= total
            &&& end - start == if total < max_visible_rows { total } else { max_visible_rows }
        }),
{
}

/// A selection on a row of a non-empty list stays on a row after any move.
pub proof fn selection_stays_in_bounds(current: int, len: int, movement: SelectionMove)
    requires
        0 <= current < len,
    ensures
        0 <= moved_row(current, len, movement) < len,
{
}

/// Shortened text fits: text that fits is unchanged, and longer text is
/// shortened to exactly `max_chars` characters (to a lone ellipsis when
/// `max_chars` is three or less), keeping its first and last characters.
pub proof fn truncation_fits(s: Seq<char>, max_chars: nat)
    ensures
        s.len() <= max_chars ==> middle_truncated(s, max_chars) == s,
        s.len() > max_chars && max_chars > 3 ==> {
            &&& middle_truncated(s, max_chars).len() == max_chars
            &&& middle_truncated(s, max_chars)[0] == s[0]
            &&& middle_truncated(s, max_chars).last() == s.last()
        },
        s.len() > max_chars && max_chars <= 3 ==> middle_truncated(s, max_chars) == seq!['…'],
{
    if s.len() > max_chars && max_chars > 3 {
        let keep = (max_chars - 1) as nat;
        let head = keep / 2;
        let tail = (keep - head) as nat;
        let t = middle_truncated(s, max_chars);
        assert(t == s.take(head as int) + seq!['…'] + s.skip(s.len() - tail));
        assert(t[0] == s[0]);
        assert(t.last() == s.skip(s.len() - tail).last());
    }
}

/// Filtering keeps history order: the matching positions are increasing and
/// each is a position of the history.
pub proof fn filtered_positions_keep_history_order(items: Seq<ClipboardItem>, tokens: Seq<Seq<char>>)
    requires
        items.len() <= usize::MAX,
    ensures
        forall|a: int, b: int| 0 <= a < b < matching_positions(items, tokens).len()
            ==> (#[trigger] matching_positions(items, tokens)[a]) < (#[trigger] matching_positions(items, tokens)[b]),
        forall|a: int| 0 <= a < matching_positions(items, tokens).len()
            ==> (#[trigger] matching_positions(items, tokens)[a]) < items.len(),
    decreases items.len(),
{
    if items.len() > 0 {
        filtered_positions_keep_history_order(items.drop_last(), tokens);
        let rest = matching_positions(items.drop_last(), tokens);
        let m = matching_positions(items, tokens);
        if all_tokens_in(tokens, haystack(items.last())) {
            assert(m == rest.push((items.len() - 1) as usize));
            assert forall|a: int, b: int| 0 <= a < b < m.len() implies (#[trigger] m[a]) < (#[trigger] m[b]) by {
                if b == m.len() - 1 {
                    assert(m[a] == rest[a]);
                } else {
                    assert(m[a] == rest[a] && m[b] == rest[b]);
                }
            }
            assert forall|a: int| 0 <= a < m.len() implies (#[trigger] m[a]) < items.len() by {
                if a < m.len() - 1 {
                    assert(m[a] == rest[a]);
                }
            }
        }
    }
}

proof fn lemma_all_tokens_in_concat(x: Seq<Seq<char>>, y: Seq<Seq<char>>, h: Seq<char>)
    ensures
        all_tokens_in(x + y, h) == (all_tokens_in(x, h) && all_tokens_in(y, h)),
{
    let xy = x + y;
    if all_tokens_in(x, h) && all_tokens_in(y, h) {
        assert forall|t: int| 0 <= t < xy.len() implies has_infix(h, #[trigger] xy[t]) by {
            if t < x.len() {
                assert(xy[t] == x[t]);
            } else {
                assert(xy[t] == y[t - x.len()]);
            }
        }
    }
    if all_tokens_in(xy, h) {
        assert forall|t: int| 0 <= t < x.len() implies has_infix(h, #[trigger] x[t]) by {
            assert(xy[t] == x[t]);
        }
        assert forall|t: int| 0 <= t < y.len() implies has_infix(h, #[trigger] y[t]) by {
            assert(xy[t + x.len()] == y[t]);
        }
    }
}

proof fn lemma_matching_same_tests(items: Seq<ClipboardItem>, a: Seq<Seq<char>>, b: Seq<Seq<char>>)
    requires
        forall|k: int| 0 <= k < items.len() ==> all_tokens_in(a, haystack(#[trigger] items[k])) == all_tokens_in(b, haystack(items[k])),
    ensures
        matching_positions(items, a) == matching_positions(items, b),
    decreases items.len(),
{
    if items.len() > 0 {
        let d = items.drop_last();
        assert forall|k: int| 0 <= k < d.len() implies all_tokens_in(a, haystack(#[trigger] d[k])) == all_tokens_in(b, haystack(d[k])) by {
            assert(d[k] == items[k]);
        }
        lemma_matching_same_tests(d, a, b);
        assert(items.last() == items[items.len() - 1]);
    }
}

proof fn lemma_no_tokens_match_all(items: Seq<ClipboardItem>)
    requires
        items.len() <= usize::MAX,
    ensures
        matching_positions(items, Seq::empty()) == Seq::new(items.len(), |k: int| k as usize),
    decreases items.len(),
{
    if items.len() > 0 {
        lemma_no_tokens_match_all(items.drop_last());
        assert(all_tokens_in(Seq::<Seq<char>>::empty(), haystack(items.last())));
        assert(Seq::new((items.len() - 1) as nat, |k: int| k as usize).push((items.len() - 1) as usize)
            =~= Seq::new(items.len(), |k: int| k as usize));
    } else {
        assert(Seq::new(items.len(), |k: int| k as usize) =~= Seq::<usize>::empty());
    }
}

/// The filtered positions are the items matching the query's tokens; a
/// blank query has no tokens, and no tokens match every item.
proof fn lemma_filtered_is_matching(items: Seq<ClipboardItem>, q: Seq<char>)
    requires
        items.len() <= usize::MAX,
    ensures
        filtered_positions(items, q) == matching_positions(items, query_tokens(q)),
{
    if query_tokens(q).len() == 0 {
        assert(query_tokens(q) =~= Seq::<Seq<char>>::empty());
        lemma_no_tokens_match_all(items);
    }
}

proof fn lemma_query_tokens_concat(q1: Seq<char>, q2: Seq<char>)
    ensures
        query_tokens(q1 + seq![' '] + q2) == query_tokens(q1) + query_tokens(q2),
{
    crate::text::lemma_ws_tokens_concat(q1, q2);
    assert((ws_tokens(q1) + ws_tokens(q2)).map_values(|w: Seq<char>| lowercase(w))
        =~= ws_tokens(q1).map_values(|w: Seq<char>| lowercase(w)) + ws_tokens(q2).map_values(|w: Seq<char>| lowercase(w)));
}

/// Whether an item of the history contains every token.
pub open spec fn item_matches(items: Seq<ClipboardItem>, tokens: Seq<Seq<char>>, p: usize) -> bool {
    all_tokens_in(tokens, haystack(items[p as int]))
}

proof fn lemma_matching_concat(items: Seq<ClipboardItem>, n: nat, x: Seq<Seq<char>>, y: Seq<Seq<char>>)
    requires
        n <= items.len() <= usize::MAX,
    ensures
        matching_positions(items.take(n as int), x + y)
            == matching_positions(items.take(n as int), x).filter(|p: usize| item_matches(items, y, p)),
    decreases n,
{
    reveal(Seq::filter);
    let pre = items.take(n as int);
    if n == 0 {
        assert(pre.len() == 0);
    } else {
        lemma_matching_concat(items, (n - 1) as nat, x, y);
        assert(pre.drop_last() =~= items.take(n - 1));
        assert(pre.last() == items[n - 1]);
        lemma_all_tokens_in_concat(x, y, haystack(items[n - 1]));
        let m = matching_positions(items.take(n - 1), x);
        assert(m.push((n - 1) as usize).drop_last() =~= m);
    }
}

/// Query tokens combine in any order: a query of two parts filters the
/// history the same whichever part comes first.
pub proof fn filter_ignores_token_order(items: Seq<ClipboardItem>, q1: Seq<char>, q2: Seq<char>)
    requires
        items.len() <= usize::MAX,
    ensures
        filtered_positions(items, q1 + seq![' '] + q2) == filtered_positions(items, q2 + seq![' '] + q1),
{
    lemma_filtered_is_matching(items, q1 + seq![' '] + q2);
    lemma_filtered_is_matching(items, q2 + seq![' '] + q1);
    lemma_query_tokens_concat(q1, q2);
    lemma_query_tokens_concat(q2, q1);
    let a = query_tokens(q1);
    let b = query_tokens(q2);
    assert forall|k: int| 0 <= k < items.len() implies all_tokens_in(a + b, haystack(#[trigger] items[k]))
        == all_tokens_in(b + a, haystack(items[k])) by {
        lemma_all_tokens_in_concat(a, b, haystack(items[k]));
        lemma_all_tokens_in_concat(b, a, haystack(items[k]));
    }
    lemma_matching_same_tests(items, a + b, b + a);
}

/// Adding words to a query narrows the result: the items that match
/// `q1 q2` are those that match `q1`, in the same order, that also contain
/// every token of `q2`.
pub proof fn more_tokens_narrow_the_filter(items: Seq<ClipboardItem>, q1: Seq<char>, q2: Seq<char>)
    requires
        items.len() <= usize::MAX,
    ensures
        filtered_positions(items, q1 + seq![' '] + q2)
            == filtered_positions(items, q1).filter(|p: usize| item_matches(items, query_tokens(q2), p)),
{
    lemma_filtered_is_matching(items, q1 + seq![' '] + q2);
    lemma_filtered_is_matching(items, q1);
    lemma_query_tokens_concat(q1, q2);
    lemma_matching_concat(items, items.len(), query_tokens(q1), query_tokens(q2));
    assert(items.take(items.len() as int) =~= items);
}

/// The filter ignores ASCII case in the query: a query and its ASCII
/// uppercase filter the history alike.
pub proof fn filter_ignores_query_case(items: Seq<ClipboardItem>, q: Seq<char>)
    ensures
        filtered_positions(items, crate::text::ascii_upper(q)) == filtered_positions(items, q),
{
    crate::text::lemma_ws_tokens_upper(q);
    let w = ws_tokens(q);
    let u = ws_tokens(crate::text::ascii_upper(q));
    assert(query_tokens(crate::text::ascii_upper(q)) =~= query_tokens(q)) by {
        assert forall|j: int| 0 <= j < w.len() implies query_tokens(crate::text::ascii_upper(q))[j] == query_tokens(q)[j] by {
            assert(u[j] == crate::text::ascii_upper(w[j]));
            crate::text::lemma_lowercase_of_upper(w[j]);
        }
    }
}

/// Moving the selection up by `n` rows lands `n` rows above, or on the first
/// row when fewer rows are above; moving down by `n` lands `n` rows below,
/// or on the last row; and a move down followed by the same move up, with
/// room for it, comes back to the start.
pub proof fn selection_moves_by_the_count(current: int, len: int, n: usize)
    requires
        0 <= current < len,
    ensures
        n <= current ==> moved_row(current, len, SelectionMove::Up(n)) + n == current,
        n > current ==> moved_row(current, len, SelectionMove::Up(n)) == 0,
        current + n < len ==> moved_row(current, len, SelectionMove::Down(n)) == current + n,
        current + n >= len ==> moved_row(current, len, SelectionMove::Down(n)) == len - 1,
        current + n < len ==> moved_row(moved_row(current, len, SelectionMove::Down(n)), len, SelectionMove::Up(n)) == current,
        moved_row(current, len, SelectionMove::Up(n)) <= current <= moved_row(current, len, SelectionMove::Down(n)),
{
}

} // verus!
