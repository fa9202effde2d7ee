//! Where a tray icon named by its theme name is looked for: the search
//! roots, the name variants, and the ordered list of files to try, from
//! which the first one that exists is taken.

use vstd::prelude::*;
use crate::names::views;
use crate::text::{chars_of, owned, replace_all, replaced, string_of};

verus! {

// == Paths ==

/// `part` appended to `base` as `PathBuf::push` does on Unix: an absolute
/// `part` replaces `base`; otherwise a separator is added between them
/// unless `base` is empty or already ends with one.
pub open spec fn joined_path(base: Seq<char>, part: Seq<char>) -> Seq<char> {
    if part.len() > 0 && part[0] == '/' {
        part
    } else if base.len() == 0 || base.last() == '/' {
        base + part
    } else {
        base + seq!['/'] + part
    }
}

/// Joins two path strings.
pub fn path_join(base: &str, part: &str) -> (r: String)
    ensures
        r@ == joined_path(base@, part@),
{
    let p = chars_of(part);
    if p.len() > 0 && p[0] == '/' {
        return string_of(&p);
    }
    let mut out = chars_of(base);
    if out.len() > 0 && out[out.len() - 1] != '/' {
        out.push('/');
    }
    let ghost head = out@;
    let mut rest = p;
    out.append(&mut rest);
    proof {
        if base@.len() == 0 || base@.last() == '/' {
            assert(head == base@);
        } else {
            assert(head =~= base@ + seq!['/']);
        }
    }
    string_of(&out)
}

// == Search roots ==

/// Where icons are looked for: with a home directory, its two user icon
/// directories first, then the system icon directories and the pixmaps.
pub open spec fn search_roots(home: Option<Seq<char>>) -> Seq<Seq<char>> {
    let system = seq!["/usr/share/icons"@, "/usr/local/share/icons"@, "/usr/share/pixmaps"@];
    match home {
        Some(h) => seq![h + "/.local/share/icons"@, h + "/.icons"@] + system,
        None => system,
    }
}

/// The directories icons are looked for in, given the home directory.
pub fn icon_search_roots(home: Option<&str>) -> (r: Vec<String>)
    ensures
        views(r@) == search_roots(match home { Some(h) => Some(h@), None => None }),
{
    let mut roots: Vec<String> = Vec::new();
    match home {
        Some(h) => {
            let mut local = chars_of(h);
            let mut tail = chars_of("/.local/share/icons");
            local.append(&mut tail);
            roots.push(string_of(&local));
            let mut dot = chars_of(h);
            let mut tail2 = chars_of("/.icons");
            dot.append(&mut tail2);
            roots.push(string_of(&dot));
        },
        None => {},
    }
    roots.push(owned("/usr/share/icons"));
    roots.push(owned("/usr/local/share/icons"));
    roots.push(owned("/usr/share/pixmaps"));
    assert(views(roots@) =~= search_roots(match home { Some(h) => Some(h@), None => None }));
    roots
}

// == Names and theme directories ==

/// The names tried for an icon: the name itself, the name without its
/// `-symbolic` parts, and the name with `-symbolic` appended.
pub open spec fn name_variants(name: Seq<char>) -> Seq<Seq<char>> {
    seq![name, replaced(name, "-symbolic"@, ""@), name + "-symbolic"@]
}

/// The names tried for an icon.
pub fn icon_name_variants(name: &str) -> (r: Vec<String>)
    ensures
        views(r@) == name_variants(name@),
{
    proof {
        reveal_strlit("-symbolic");
    }
    let mut r: Vec<String> = Vec::new();
    r.push(owned(name));
    r.push(replace_all(name, "-symbolic", ""));
    let mut with = chars_of(name);
    let mut tail = chars_of("-symbolic");
    with.append(&mut tail);
    r.push(string_of(&with));
    assert(views(r@) =~= name_variants(name@));
    r
}

/// The directory levels below a search root, outermost first: themes,
/// sizes, categories.
pub open spec fn theme_levels() -> Seq<Seq<Seq<char>>> {
    seq![
        seq!["Papirus-Dark"@, "Papirus"@, "Adwaita"@, "hicolor"@, "breeze"@, "default"@],
        seq!["16x16"@, "18x18"@, "20x20"@, "22x22"@, "24x24"@, "32x32"@, "scalable"@, "symbolic"@],
        seq!["status"@, "apps"@, "actions"@, "devices"@, "places"@, "categories"@, "panel"@, "mimetypes"@],
    ]
}

/// The character views of a list of lists of strings.
pub open spec fn level_views(levels: Seq<Vec<String>>) -> Seq<Seq<Seq<char>>> {
    levels.map_values(|v: Vec<String>| views(v@))
}

fn push_owned(v: &mut Vec<String>, s: &str)
    ensures
        views(final(v)@) == views(old(v)@).push(s@),
{
    let ghost before = views(v@);
    v.push(owned(s));
    assert(views(v@) =~= before.push(s@));
}

/// The theme, size and category directory names.
fn theme_directory_levels() -> (r: Vec<Vec<String>>)
    ensures
        level_views(r@) == theme_levels(),
{
    let mut themes: Vec<String> = Vec::new();
    push_owned(&mut themes, "Papirus-Dark");
    push_owned(&mut themes, "Papirus");
    push_owned(&mut themes, "Adwaita");
    push_owned(&mut themes, "hicolor");
    push_owned(&mut themes, "breeze");
    push_owned(&mut themes, "default");
    let mut sizes: Vec<String> = Vec::new();
    push_owned(&mut sizes, "16x16");
    push_owned(&mut sizes, "18x18");
    push_owned(&mut sizes, "20x20");
    push_owned(&mut sizes, "22x22");
    push_owned(&mut sizes, "24x24");
    push_owned(&mut sizes, "32x32");
    push_owned(&mut sizes, "scalable");
    push_owned(&mut sizes, "symbolic");
    let mut cats: Vec<String> = Vec::new();
    push_owned(&mut cats, "status");
    push_owned(&mut cats, "apps");
    push_owned(&mut cats, "actions");
    push_owned(&mut cats, "devices");
    push_owned(&mut cats, "places");
    push_owned(&mut cats, "categories");
    push_owned(&mut cats, "panel");
    push_owned(&mut cats, "mimetypes");
    let ghost tv = views(themes@);
    let ghost sv = views(sizes@);
    let ghost cv = views(cats@);
    assert(tv =~= theme_levels()[0]);
    assert(sv =~= theme_levels()[1]);
    assert(cv =~= theme_levels()[2]);
    let mut r: Vec<Vec<String>> = Vec::new();
    r.push(themes);
    r.push(sizes);
    r.push(cats);
    assert(level_views(r@) =~= theme_levels());
    r
}

// == Candidate files ==

/// The two files tried for `name` in `dir`: its PNG, then its SVG.
pub open spec fn icon_files(dir: Seq<char>, name: Seq<char>) -> Seq<Seq<char>> {
    seq![joined_path(dir, name + ".png"@), joined_path(dir, name + ".svg"@)]
}

/// The files tried for `name` below `dir`, going down the directory levels
/// from `depth`: at the bottom, the icon files; above it, the files below
/// each directory of the level, in the level's order.
pub open spec fn nested_files(dir: Seq<char>, levels: Seq<Seq<Seq<char>>>, depth: nat, name: Seq<char>) -> Seq<Seq<char>>
    decreases levels.len() - depth, levels[depth as int].len() + 1,
{
    if depth >= levels.len() {
        icon_files(dir, name)
    } else {
        level_files(dir, levels, depth, levels[depth as int].len(), name)
    }
}

/// The files below the first `count` directories of level `depth`.
pub open spec fn level_files(dir: Seq<char>, levels: Seq<Seq<Seq<char>>>, depth: nat, count: nat, name: Seq<char>) -> Seq<Seq<char>>
    decreases levels.len() - depth, count,
{
    if depth >= levels.len() || count == 0 || count > levels[depth as int].len() {
        seq![]
    } else {
        level_files(dir, levels, depth, (count - 1) as nat, name)
            + nested_files(joined_path(dir, levels[depth as int][count - 1]), levels, depth + 1, name)
    }
}

/// The files tried below one search root, for the first `count` names:
/// for each name, its icon files in the root, then those below the theme
/// directories.
pub open spec fn root_files(root: Seq<char>, names: Seq<Seq<char>>, count: nat, levels: Seq<Seq<Seq<char>>>) -> Seq<Seq<char>>
    decreases count,
{
    if count == 0 || count > names.len() {
        seq![]
    } else {
        root_files(root, names, (count - 1) as nat, levels) + icon_files(root, names[count - 1])
            + nested_files(root, levels, 0, names[count - 1])
    }
}

/// The files tried below the first `count` search roots, root by root.
pub open spec fn all_files(roots: Seq<Seq<char>>, count: nat, names: Seq<Seq<char>>, levels: Seq<Seq<Seq<char>>>) -> Seq<Seq<char>>
    decreases count,
{
    if count == 0 || count > roots.len() {
        seq![]
    } else {
        all_files(roots, (count - 1) as nat, names, levels) + root_files(roots[count - 1], names, names.len(), levels)
    }
}

/// The files tried for an icon name, in the order they are tried.
pub open spec fn theme_icon_files(roots: Seq<Seq<char>>, name: Seq<char>) -> Seq<Seq<char>> {
    all_files(roots, roots.len(), name_variants(name), theme_levels())
}

fn push_icon_files(out: &mut Vec<String>, dir: &str, name: &str)
    ensures
        views(final(out)@) == views(old(out)@) + icon_files(dir@, name@),
{
    proof {
        reveal_strlit(".png");
        reveal_strlit(".svg");
    }
    let mut png = chars_of(name);
    let mut ext = chars_of(".png");
    png.append(&mut ext);
    let png_name = string_of(&png);
    let mut svg = chars_of(name);
    let mut ext2 = chars_of(".svg");
    svg.append(&mut ext2);
    let svg_name = string_of(&svg);
    let ghost before = views(out@);
    out.push(path_join(dir, &png_name));
    out.push(path_join(dir, &svg_name));
    assert(views(out@) =~= before + icon_files(dir@, name@));
}

fn push_nested_files(out: &mut Vec<String>, dir: &str, levels: &Vec<Vec<String>>, depth: usize, name: &str)
    requires
        depth <= levels@.len(),
    ensures
        views(final(out)@) == views(old(out)@) + nested_files(dir@, level_views(levels@), depth as nat, name@),
    decreases levels@.len() - depth,
{
    let ghost lv = level_views(levels@);
    if depth >= levels.len() {
        push_icon_files(out, dir, name);
        return;
    }
    let subs = &levels[depth];
    assert(lv[depth as int] == views(subs@));
    let ghost start = views(out@);
    let mut k: usize = 0;
    while k < subs.len()
        invariant
            depth < levels.len(),
            subs == levels@[depth as int],
            lv == level_views(levels@),
            lv[depth as int] == views(subs@),
            k <= subs@.len(),
            views(out@) == start + level_files(dir@, lv, depth as nat, k as nat, name@),
        decreases subs@.len() - k,
    {
        let sub_dir = path_join(dir, &subs[k]);
        assert(lv[depth as int][k as int] == subs@[k as int]@);
        let ghost mid = views(out@);
        push_nested_files(out, &sub_dir, levels, depth + 1, name);
        assert(views(out@) =~= start + level_files(dir@, lv, depth as nat, (k + 1) as nat, name@));
        k = k + 1;
    }
    assert(lv[depth as int].len() == subs@.len());
}

/// The files tried for an icon name below the given search roots, in the
/// order they are tried: for each root, for each name variant, its PNG and
/// SVG in the root, then those in every theme, size and category directory.
pub fn theme_icon_candidates(roots: &Vec<String>, icon_name: &str) -> (r: Vec<String>)
    ensures
        views(r@) == theme_icon_files(views(roots@), icon_name@),
{
    let names = icon_name_variants(icon_name);
    let levels = theme_directory_levels();
    let ghost nv = views(names@);
    let ghost rv = views(roots@);
    let mut out: Vec<String> = Vec::new();
    let mut i: usize = 0;
    while i < roots.len()
        invariant
            i <= roots@.len(),
            nv == views(names@),
            rv == views(roots@),
            nv == name_variants(icon_name@),
            level_views(levels@) == theme_levels(),
            views(out@) == all_files(rv, i as nat, nv, theme_levels()),
        decreases roots@.len() - i,
    {
        let root = &roots[i];
        assert(rv[i as int] == root@);
        let ghost before = views(out@);
        let mut j: usize = 0;
        while j < names.len()
            invariant
                i < roots@.len(),
                j <= names@.len(),
                nv == views(names@),
                rv[i as int] == root@,
                level_views(levels@) == theme_levels(),
                views(out@) == before + root_files(root@, nv, j as nat, theme_levels()),
            decreases names@.len() - j,
        {
            assert(nv[j as int] == names@[j as int]@);
            push_icon_files(&mut out, root, &names[j]);
            push_nested_files(&mut out, root, &levels, 0, &names[j]);
            assert(views(out@) =~= before + root_files(root@, nv, (j + 1) as nat, theme_levels()));
            j = j + 1;
        }
        assert(views(out@) =~= all_files(rv, (i + 1) as nat, nv, theme_levels()));
        i = i + 1;
    }
    out
}

// == Files that name an icon directly ==

/// Whether an icon name may be a file path: it holds a slash or a dot.
pub open spec fn names_a_path(name: Seq<char>) -> bool {
    name.contains('/') || name.contains('.')
}

/// Whether an icon name may be a file path.
pub fn is_icon_path(name: &str) -> (r: bool)
    ensures
        r == names_a_path(name@),
{
    let v = chars_of(name);
    let mut i: usize = 0;
    while i < v.len()
        invariant
            v@ == name@,
            i <= v@.len(),
            forall|k: int| 0 <= k < i ==> v@[k] != '/' && v@[k] != '.',
        decreases v@.len() - i,
    {
        if v[i] == '/' || v[i] == '.' {
            assert(v@[i as int] == name@[i as int]);
            return true;
        }
        i = i + 1;
    }
    false
}

/// The kind of image an icon file holds.
#[derive(Debug, Clone, Copy, PartialEq, Eq, Structural)]
pub enum IconAssetKind {
    Raster,
    Svg,
}

/// The extension of a path as `Path::extension` reads it, when it has one.
pub uninterp spec fn path_extension(path: Seq<char>) -> Option<Seq<char>>;

/// The extension of a path.
///
/// Trusted: calls `Path::extension` on the path; the claim is that the
/// result is `path_extension` of the path's characters. Which extension a
/// path has is not stated here.
#[verifier::external_body]
fn extension_of(path: &str) -> (r: Option<String>)
    ensures
        match r {
            Some(e) => path_extension(path@) == Some(e@),
            None => path_extension(path@) is None,
        },
{
    match std::path::Path::new(path).extension() {
        Some(e) => Some(e.to_string_lossy().into_owned()),
        None => None,
    }
}

/// The image kind named by an extension, compared without ASCII case:
/// `svg` is a vector image; `png`, `jpg`, `jpeg` and `webp` are raster
/// images; any other extension names none.
pub open spec fn asset_kind(ext: Option<Seq<char>>) -> Option<IconAssetKind> {
    match ext {
        Some(e) => {
            let l = crate::text::ascii_lower(e);
            if l == "svg"@ {
                Some(IconAssetKind::Svg)
            } else if l == "png"@ || l == "jpg"@ || l == "jpeg"@ || l == "webp"@ {
                Some(IconAssetKind::Raster)
            } else {
                None
            }
        },
        None => None,
    }
}

/// The image kind of an icon file, by its extension.
pub fn icon_file_kind(path: &str) -> (r: Option<IconAssetKind>)
    ensures
        r == asset_kind(path_extension(path@)),
{
    match extension_of(path) {
        Some(e) => {
            let l = crate::text::lower_chars(&chars_of(&e));
            let lower = string_of(&l);
            if crate::text::str_eq(&lower, "svg") {
                Some(IconAssetKind::Svg)
            } else if crate::text::str_eq(&lower, "png") || crate::text::str_eq(&lower, "jpg")
                || crate::text::str_eq(&lower, "jpeg") || crate::text::str_eq(&lower, "webp") {
                Some(IconAssetKind::Raster)
            } else {
                None
            }
        },
        None => None,
    }
}

} // verus!
