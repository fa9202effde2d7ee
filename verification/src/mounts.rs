//! Mount information for the mount menu: the entries of `/proc/mounts`, and
//! whether a configured network or volume mount is mounted.

use vstd::prelude::*;
use crate::text::{
    chars_of, chars_contain, has_infix, push_str, replace_all, replaced, split_pieces, split_whitespace, string_of,
    ws_tokens,
};

verus! {

/// One line of `/proc/mounts`: what is mounted, where, and its file system
/// type.
#[derive(Debug, Clone, PartialEq, Eq)]
pub struct ProcMountEntry {
    pub source: String,
    pub target: String,
    pub fstype: String,
}

/// `/proc/mounts` escapes space, tab, newline and backslash in its fields
/// as octal `\040`, `\011`, `\012` and `\134`; this undoes them in that
/// order, each replacement over the result of the one before.
pub open spec fn unescaped(v: Seq<char>) -> Seq<char> {
    replaced(replaced(replaced(replaced(v, "\\040"@, " "@), "\\011"@, "\t"@), "\\012"@, "\n"@), "\\134"@, "\\"@)
}

/// Undoes the octal escapes of a `/proc/mounts` field.
pub fn unescape_mount_field(value: &str) -> (r: String)
    ensures
        r@ == unescaped(value@),
{
    proof {
        reveal_strlit("\\040");
        reveal_strlit("\\011");
        reveal_strlit("\\012");
        reveal_strlit("\\134");
    }
    let a = replace_all(value, "\\040", " ");
    let b = replace_all(a.as_str(), "\\011", "\t");
    let c = replace_all(b.as_str(), "\\012", "\n");
    replace_all(c.as_str(), "\\134", "\\")
}

/// Abstract value of an entry.
pub open spec fn mount_view(e: ProcMountEntry) -> (Seq<char>, Seq<char>, Seq<char>) {
    (e.source@, e.target@, e.fstype@)
}

/// The entry of one line: its first three whitespace-separated fields, the
/// first two unescaped; a line with fewer fields has none.
pub open spec fn line_entry(line: Seq<char>) -> Option<(Seq<char>, Seq<char>, Seq<char>)> {
    let f = ws_tokens(line);
    if f.len() >= 3 {
        Some((unescaped(f[0]), unescaped(f[1]), f[2]))
    } else {
        None
    }
}

/// The entries of the lines, in order.
pub open spec fn line_entries(lines: Seq<Seq<char>>) -> Seq<(Seq<char>, Seq<char>, Seq<char>)>
    decreases lines.len(),
{
    if lines.len() == 0 {
        Seq::empty()
    } else {
        let before = line_entries(lines.drop_last());
        match line_entry(lines.last()) {
            Some(e) => before.push(e),
            None => before,
        }
    }
}

/// The entries of the text of `/proc/mounts`, one per line that has at
/// least three fields, in order.
pub open spec fn proc_mounts(contents: Seq<char>) -> Seq<(Seq<char>, Seq<char>, Seq<char>)> {
    line_entries(split_pieces(contents, '\n'))
}

fn split_lines(v: &Vec<char>) -> (r: Vec<Vec<char>>)
    ensures
        r@.map_values(|l: Vec<char>| l@) == split_pieces(v@, '\n'),
{
    let mut done: Vec<Vec<char>> = Vec::new();
    let mut cur: Vec<char> = Vec::new();
    let mut i: usize = 0;
    assert(v@.take(0) =~= Seq::<char>::empty());
    assert(done@.map_values(|l: Vec<char>| l@).push(cur@) =~= seq![Seq::<char>::empty()]);
    while i < v.len()
        invariant
            i <= v@.len(),
            split_pieces(v@.take(i as int), '\n') == done@.map_values(|l: Vec<char>| l@).push(cur@),
        decreases v.len() - i,
    {
        let c = v[i];
        let ghost before = done@.map_values(|l: Vec<char>| l@);
        proof {
            assert(v@.take(i + 1).drop_last() =~= v@.take(i as int));
            assert(v@.take(i + 1).last() == c);
        }
        if c == '\n' {
            let line = cur;
            done.push(line);
            cur = Vec::new();
            assert(done@.map_values(|l: Vec<char>| l@) =~= before.push(line@));
            assert(split_pieces(v@.take(i + 1), '\n') =~= done@.map_values(|l: Vec<char>| l@).push(cur@));
        } else {
            let ghost old_cur = cur@;
            cur.push(c);
            assert(split_pieces(v@.take(i + 1), '\n') =~= before.push(old_cur).update(
                before.len() as int,
                old_cur.push(c),
            ));
            assert(before.push(old_cur).update(before.len() as int, old_cur.push(c)) =~= before.push(cur@));
        }
        i = i + 1;
    }
    assert(v@.take(i as int) =~= v@);
    let ghost before = done@.map_values(|l: Vec<char>| l@);
    let last = cur;
    done.push(last);
    assert(done@.map_values(|l: Vec<char>| l@) =~= before.push(last@));
    done
}

/// The entries of the text of `/proc/mounts`.
pub fn parse_proc_mounts(contents: &str) -> (r: Vec<ProcMountEntry>)
    ensures
        r@.map_values(|e: ProcMountEntry| mount_view(e)) == proc_mounts(contents@),
{
    let v = chars_of(contents);
    let lines = split_lines(&v);
    let ghost all = lines@.map_values(|l: Vec<char>| l@);
    let mut out: Vec<ProcMountEntry> = Vec::new();
    let mut k: usize = 0;
    assert(all.take(0) =~= Seq::<Seq<char>>::empty());
    assert(out@.map_values(|e: ProcMountEntry| mount_view(e)) =~= Seq::<(Seq<char>, Seq<char>, Seq<char>)>::empty());
    while k < lines.len()
        invariant
            k <= lines@.len(),
            all == lines@.map_values(|l: Vec<char>| l@),
            all == split_pieces(contents@, '\n'),
            out@.map_values(|e: ProcMountEntry| mount_view(e)) == line_entries(all.take(k as int)),
        decreases lines.len() - k,
    {
        let ghost before = out@.map_values(|e: ProcMountEntry| mount_view(e));
        proof {
            assert(all.take(k + 1).drop_last() =~= all.take(k as int));
            assert(all.take(k + 1).last() == lines@[k as int]@);
        }
        let text = string_of(&lines[k]);
        let fields = split_whitespace(text.as_str());
        proof {
            assert(fields@.map_values(|t: Vec<char>| t@).len() == fields@.len());
        }
        if fields.len() >= 3 {
            let source = unescape_mount_field(string_of(&fields[0]).as_str());
            let target = unescape_mount_field(string_of(&fields[1]).as_str());
            let fstype = string_of(&fields[2]);
            let entry = ProcMountEntry { source: source, target: target, fstype: fstype };
            proof {
                let f = fields@.map_values(|t: Vec<char>| t@);
                assert(f[0] == fields@[0]@ && f[1] == fields@[1]@ && f[2] == fields@[2]@);
            }
            out.push(entry);
            assert(out@.map_values(|e: ProcMountEntry| mount_view(e)) =~= before.push(mount_view(entry)));
        }
        k = k + 1;
    }
    assert(all.take(k as int) =~= all);
    out
}

/// The source that an sshfs mount of `user@host:remote_path` shows.
pub open spec fn sshfs_source(user: Seq<char>, host: Seq<char>, remote_path: Seq<char>) -> Seq<char> {
    user + "@"@ + host + ":"@ + remote_path
}

/// Whether an sshfs profile is mounted: some entry is mounted at its mount
/// point, with a file system type that names sshfs or with the profile's
/// remote source.
pub open spec fn sshfs_mounted(
    mounts: Seq<ProcMountEntry>,
    user: Seq<char>,
    host: Seq<char>,
    remote_path: Seq<char>,
    mountpoint: Seq<char>,
) -> bool {
    exists|i: int|
        0 <= i < mounts.len() && (#[trigger] mounts[i]).target@ == mountpoint && (has_infix(
            mounts[i].fstype@,
            "sshfs"@,
        ) || mounts[i].source@ == sshfs_source(user, host, remote_path))
}

/// Whether an sshfs profile is mounted.
pub fn sshfs_profile_mounted(
    mounts: &Vec<ProcMountEntry>,
    user: &str,
    host: &str,
    remote_path: &str,
    mountpoint: &str,
) -> (r: bool)
    ensures
        r == sshfs_mounted(mounts@, user@, host@, remote_path@, mountpoint@),
{
    let mut source: Vec<char> = Vec::new();
    push_str(&mut source, user);
    push_str(&mut source, "@");
    push_str(&mut source, host);
    push_str(&mut source, ":");
    push_str(&mut source, remote_path);
    let sshfs = chars_of("sshfs");
    let mut i: usize = 0;
    while i < mounts.len()
        invariant
            i <= mounts@.len(),
            source@ == sshfs_source(user@, host@, remote_path@),
            sshfs@ == "sshfs"@,
            forall|j: int|
                0 <= j < i ==> !((#[trigger] mounts@[j]).target@ == mountpoint@ && (has_infix(
                    mounts@[j].fstype@,
                    "sshfs"@,
                ) || mounts@[j].source@ == sshfs_source(user@, host@, remote_path@))),
        decreases mounts.len() - i,
    {
        let e = &mounts[i];
        if crate::text::str_eq(e.target.as_str(), mountpoint) {
            let fstype = chars_of(e.fstype.as_str());
            let src = chars_of(e.source.as_str());
            if chars_contain(&fstype, &sshfs) || crate::text::chars_eq(&src, &source) {
                return true;
            }
        }
        i = i + 1;
    }
    false
}

/// Whether anything is mounted at `mountpoint`.
pub open spec fn mounted_at(mounts: Seq<ProcMountEntry>, mountpoint: Seq<char>) -> bool {
    exists|i: int| 0 <= i < mounts.len() && (#[trigger] mounts[i]).target@ == mountpoint
}

/// Whether anything is mounted at `mountpoint`.
pub fn is_mounted_at(mounts: &Vec<ProcMountEntry>, mountpoint: &str) -> (r: bool)
    ensures
        r == mounted_at(mounts@, mountpoint@),
{
    let mut i: usize = 0;
    while i < mounts.len()
        invariant
            i <= mounts@.len(),
            forall|j: int| 0 <= j < i ==> (#[trigger] mounts@[j]).target@ != mountpoint@,
        decreases mounts.len() - i,
    {
        if crate::text::str_eq(mounts[i].target.as_str(), mountpoint) {
            return true;
        }
        i = i + 1;
    }
    false
}

// == Loop devices ==

/// A device name with every leading `/dev/` removed, as
/// `trim_start_matches("/dev/")` leaves it.
pub open spec fn without_dev_prefix(s: Seq<char>) -> Seq<char>
    decreases s.len(),
{
    if s.len() >= 5 && crate::text::has_prefix(s, "/dev/"@) {
        without_dev_prefix(s.skip(5))
    } else {
        s
    }
}

/// Removes every leading `/dev/` from a device path.
pub fn strip_dev_prefix(device: &str) -> (r: String)
    ensures
        r@ == without_dev_prefix(device@),
{
    proof {
        reveal_strlit("/dev/");
    }
    let v = chars_of(device);
    let prefix = chars_of("/dev/");
    let mut i: usize = 0;
    assert(v@.skip(0) =~= v@);
    while v.len() >= 5 && i <= v.len() - 5 && crate::text::chars_match_at(&v, &prefix, i)
        invariant
            v@ == device@,
            prefix@ == "/dev/"@,
            "/dev/"@.len() == 5,
            i <= v@.len(),
            without_dev_prefix(v@.skip(i as int)) == without_dev_prefix(device@),
        decreases v@.len() - i,
    {
        let ghost rest = v@.skip(i as int);
        assert(rest.subrange(0, 5) =~= v@.subrange(i as int, i + 5));
        assert(rest.skip(5) =~= v@.skip(i + 5));
        i = i + 5;
    }
    let ghost rest = v@.skip(i as int);
    if v.len() >= 5 && i <= v.len() - 5 {
        assert(rest.subrange(0, 5) =~= v@.subrange(i as int, i + 5));
    }
    let mut out: Vec<char> = Vec::new();
    let mut k: usize = i;
    while k < v.len()
        invariant
            i <= k <= v@.len(),
            out@ == v@.subrange(i as int, k as int),
        decreases v@.len() - k,
    {
        out.push(v[k]);
        assert(v@.subrange(i as int, k + 1) =~= out@);
        k = k + 1;
    }
    assert(out@ =~= rest);
    string_of(&out)
}

/// A block device and where it is mounted, if anywhere.
#[derive(Debug, Clone, PartialEq, Eq)]
pub struct DeviceMount {
    pub name: String,
    pub mountpoint: Option<String>,
}

/// Where the device with this name is mounted: the mount point of the last
/// listed device of that name, when one is listed and mounted.
pub open spec fn device_mountpoint(devices: Seq<DeviceMount>, name: Seq<char>) -> Option<Seq<char>>
    decreases devices.len(),
{
    if devices.len() == 0 {
        None
    } else if devices.last().name@ == name {
        match devices.last().mountpoint {
            Some(m) => Some(m@),
            None => None,
        }
    } else {
        device_mountpoint(devices.drop_last(), name)
    }
}

/// Where a loop device is mounted, looked up by its name without `/dev/`
/// among the listed block devices.
pub fn loop_device_mountpoint(devices: &Vec<DeviceMount>, loop_device: &str) -> (r: Option<String>)
    ensures
        match r {
            Some(m) => device_mountpoint(devices@, without_dev_prefix(loop_device@)) == Some(m@),
            None => device_mountpoint(devices@, without_dev_prefix(loop_device@)) is None,
        },
{
    let name = strip_dev_prefix(loop_device);
    let mut k: usize = devices.len();
    assert(devices@.subrange(0, devices@.len() as int) =~= devices@);
    while k > 0
        invariant
            k <= devices@.len(),
            name@ == without_dev_prefix(loop_device@),
            device_mountpoint(devices@, name@) == device_mountpoint(devices@.subrange(0, k as int), name@),
        decreases k,
    {
        let ghost prefix = devices@.subrange(0, k as int);
        assert(prefix.drop_last() =~= devices@.subrange(0, k - 1));
        assert(prefix.last() == devices@[k - 1]);
        if crate::text::str_eq(devices[k - 1].name.as_str(), name.as_str()) {
            return match &devices[k - 1].mountpoint {
                Some(m) => Some(m.clone()),
                None => None,
            };
        }
        k = k - 1;
    }
    None
}

} // verus!
