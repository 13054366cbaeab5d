//! Where the resource compiler is looked for when the icon is built into a program.

use vstd::prelude::*;

use crate::logs::{text_order_is_total, text_order_is_transitive};
use crate::number::{all_digits, are_digits, digits_value, is_number_le};
use crate::state_store::{join, joined};
use crate::text::{
    any_of, chars_of, code_of, concat2, is_text_le, pieces, same_text, split_any, text_le, text_of,
    texts_view,
};

verus! {

/// What a search may come upon: the version in the path, if there is one, and the path.
#[derive(Debug)]
pub struct Candidate {
    pub version: String,
    pub path: String,
}

/// The drive of a directory: what its first two bytes hold, or "C:" where they do not
/// hold whole characters.
pub open spec fn drive_of(dir: Seq<char>) -> Seq<char> {
    if dir.len() >= 2 && (dir[0] as int) < 0x80 && (dir[1] as int) < 0x80 {
        dir.take(2)
    } else if dir.len() >= 1 && 0x80 <= (dir[0] as int) < 0x800 {
        dir.take(1)
    } else {
        "C:"@
    }
}

/// The drive of a directory.
pub fn drive(dir: &str) -> (out: String)
    ensures
        out@ == drive_of(dir@),
{
    let v = chars_of(dir);
    if v.len() >= 2 && code_of(v[0]) < 0x80 && code_of(v[1]) < 0x80 {
        let t = text_of(&v, 0, 2);
        assert(t@ =~= dir@.take(2));
        t
    } else if v.len() >= 1 && code_of(v[0]) >= 0x80 && code_of(v[0]) < 0x800 {
        let t = text_of(&v, 0, 1);
        assert(t@ =~= dir@.take(1));
        t
    } else {
        "C:".to_owned()
    }
}

/// The kit directories below program directories that are set.
pub open spec fn kits_below(dirs: Seq<Option<Seq<char>>>) -> Seq<Seq<char>>
    decreases dirs.len(),
{
    if dirs.len() == 0 {
        seq![]
    } else {
        let front = kits_below(dirs.drop_last());
        match dirs.last() {
            Some(d) if d.len() > 0 => front.push(joined(d, "Windows Kits"@)),
            _ => front,
        }
    }
}

/// Where the kits may be: below the program directories that are set, then at the usual
/// places on the system's drive.
pub open spec fn kit_roots(dirs: Seq<Option<Seq<char>>>, system_root: Option<Seq<char>>) -> Seq<
    Seq<char>,
> {
    let drive = drive_of(
        match system_root {
            Some(r) => r,
            None => r"C:\Windows"@,
        },
    );
    kits_below(dirs).push(drive + r"\Program Files (x86)\Windows Kits"@).push(
        drive + r"\Program Files\Windows Kits"@,
    )
}

/// Optional texts by their characters.
pub open spec fn options_view(v: Seq<Option<String>>) -> Seq<Option<Seq<char>>> {
    v.map_values(|s: Option<String>| crate::protocol::text_view(s))
}

/// Lists where the kits may be, by the program directories and the system's directory as
/// far as they are set.
pub fn sdk_roots(dirs: &Vec<Option<String>>, system_root: &Option<String>) -> (out: Vec<String>)
    ensures
        texts_view(out@) == kit_roots(
            options_view(dirs@),
            crate::protocol::text_view(*system_root),
        ),
{
    let ghost all = options_view(dirs@);
    let mut out: Vec<String> = Vec::new();
    let mut i: usize = 0;
    assert(texts_view(out@) =~= kits_below(all.take(0)));
    while i < dirs.len()
        invariant
            i <= dirs@.len(),
            all == options_view(dirs@),
            texts_view(out@) == kits_below(all.take(i as int)),
        decreases dirs@.len() - i,
    {
        assert(all.take(i + 1).drop_last() =~= all.take(i as int));
        assert(all[i as int] == crate::protocol::text_view(dirs@[i as int]));
        let ghost before = texts_view(out@);
        match &dirs[i] {
            Some(d) => {
                if chars_of(d.as_str()).len() > 0 {
                    let path = join(d.as_str(), "Windows Kits");
                    out.push(path);
                    assert(texts_view(out@) =~= before.push(path@));
                }
            },
            None => {},
        }
        i = i + 1;
    }
    assert(all.take(all.len() as int) =~= all);
    let letter = match system_root {
        Some(r) => drive(r.as_str()),
        None => drive(r"C:\Windows"),
    };
    let first = concat2(letter.as_str(), r"\Program Files (x86)\Windows Kits");
    let second = concat2(letter.as_str(), r"\Program Files\Windows Kits");
    let ghost before = texts_view(out@);
    out.push(first);
    assert(texts_view(out@) =~= before.push(first@));
    out.push(second);
    assert(texts_view(out@) =~= before.push(first@).push(second@));
    out
}

/// The directory of the tools for an architecture.
pub fn arch_dir(arch: &Option<String>) -> (dir: &'static str)
    ensures
        dir@ == match *arch {
            Some(a) => if a@ == "x86_64"@ || a@ == "aarch64"@ {
                "x64"@
            } else {
                "x86"@
            },
            None => "x86"@,
        },
{
    match arch {
        Some(a) => {
            if same_text(a.as_str(), "x86_64") || same_text(a.as_str(), "aarch64") {
                "x64"
            } else {
                "x86"
            }
        },
        None => "x86",
    }
}

/// The path of the compiler below a directory of tools.
pub fn compiler_path(bin: &str, arch: &str) -> (path: String)
    ensures
        path@ == joined(joined(bin@, arch@), "rc.exe"@),
{
    let dir = join(bin, arch);
    join(dir.as_str(), "rc.exe")
}

/// The directory of tools of a version of the kits.
pub fn tools_dir(kits: &str, major: &str) -> (path: String)
    ensures
        path@ == joined(joined(kits@, major@), "bin"@),
{
    let dir = join(kits, major);
    join(dir.as_str(), "bin")
}

/// The version that a directory is named after: only a name that begins with a digit is
/// one.
pub open spec fn version_of(name: Option<Seq<char>>) -> Seq<char> {
    match name {
        Some(n) => if n.len() > 0 && 48 <= (n[0] as int) <= 57 {
            n
        } else {
            seq![]
        },
        None => seq![],
    }
}

/// The version that a directory is named after.
pub fn read_version(name: &Option<String>) -> (v: String)
    ensures
        v@ == version_of(crate::protocol::text_view(*name)),
{
    match name {
        Some(n) => {
            let c = chars_of(n.as_str());
            if c.len() > 0 && code_of(c[0]) >= 48 && code_of(c[0]) <= 57 {
                n.clone()
            } else {
                String::new()
            }
        },
        None => String::new(),
    }
}

// ---------------------------------------------------------------------------
// The order of versions
// ---------------------------------------------------------------------------

/// What a part of a version is: nothing, a number, or something else, in this order.
pub open spec fn part_rank(p: Seq<char>) -> int {
    if p.len() == 0 {
        0
    } else if all_digits(p, 10) {
        1
    } else {
        2
    }
}

/// Whether one part of a version is no newer than another: numbers by their values, other
/// parts as texts. A number is older than a part that is none.
pub open spec fn part_le(a: Seq<char>, b: Seq<char>) -> bool {
    if part_rank(a) != part_rank(b) {
        part_rank(a) < part_rank(b)
    } else if part_rank(a) == 1 {
        digits_value(a, 10) <= digits_value(b, 10)
    } else {
        text_le(a, b)
    }
}

/// Whether the parts of one version are no newer than those of another: the first parts
/// that differ decide, and a version is older than one that goes on behind it.
pub open spec fn parts_le(a: Seq<Seq<char>>, b: Seq<Seq<char>>) -> bool
    decreases a.len(),
{
    if a.len() == 0 {
        true
    } else if b.len() == 0 {
        false
    } else if part_le(a[0], b[0]) && part_le(b[0], a[0]) {
        parts_le(a.skip(1), b.skip(1))
    } else {
        part_le(a[0], b[0])
    }
}

/// The parts of a version, which dots hold apart.
pub open spec fn version_parts(v: Seq<char>) -> Seq<Seq<char>> {
    pieces(v, any_of(seq!['.']))
}

/// Whether one version is no newer than another.
pub open spec fn version_le(a: Seq<char>, b: Seq<char>) -> bool {
    parts_le(version_parts(a), version_parts(b))
}

fn rank_of(p: &str) -> (r: u8)
    ensures
        r == part_rank(p@),
{
    let v = chars_of(p);
    if v.len() == 0 {
        0
    } else if are_digits(&v, 10) {
        1
    } else {
        2
    }
}

fn is_part_le(a: &str, b: &str) -> (r: bool)
    ensures
        r == part_le(a@, b@),
{
    let ra: u8 = rank_of(a);
    let rb: u8 = rank_of(b);
    if ra != rb {
        ra < rb
    } else if ra == 1 {
        is_number_le(&chars_of(a), &chars_of(b))
    } else {
        is_text_le(a, b)
    }
}

/// Compares two versions.
pub fn is_version_le(a: &str, b: &str) -> (r: bool)
    ensures
        r == version_le(a@, b@),
{
    let mut dot: Vec<char> = Vec::new();
    dot.push('.');
    assert(dot@ =~= seq!['.']);
    let x = split_any(a, &dot);
    let y = split_any(b, &dot);
    let ghost xs = version_parts(a@);
    let ghost ys = version_parts(b@);
    let mut i: usize = 0;
    assert(xs.skip(0) =~= xs);
    assert(ys.skip(0) =~= ys);
    while i < x.len() && i < y.len()
        invariant
            i <= x@.len(),
            i <= y@.len(),
            xs == texts_view(x@),
            ys == texts_view(y@),
            version_le(a@, b@) == parts_le(xs.skip(i as int), ys.skip(i as int)),
        decreases x@.len() - i,
    {
        let le = is_part_le(x[i].as_str(), y[i].as_str());
        let ge = is_part_le(y[i].as_str(), x[i].as_str());
        proof {
            assert(xs.skip(i as int)[0] == x@[i as int]@);
            assert(ys.skip(i as int)[0] == y@[i as int]@);
            assert(xs.skip(i as int).skip(1) =~= xs.skip(i + 1));
            assert(ys.skip(i as int).skip(1) =~= ys.skip(i + 1));
        }
        if !(le && ge) {
            return le;
        }
        i = i + 1;
    }
    i >= x.len()
}

proof fn lemma_parts_total(a: Seq<char>, b: Seq<char>)
    ensures
        part_le(a, b) || part_le(b, a),
{
    text_order_is_total(a, b);
}

proof fn lemma_parts_carry(a: Seq<char>, b: Seq<char>, c: Seq<char>)
    requires
        part_le(a, b),
        part_le(b, c),
    ensures
        part_le(a, c),
{
    if text_le(a, b) && text_le(b, c) {
        text_order_is_transitive(a, b, c);
    }
}

proof fn lemma_lists_total(a: Seq<Seq<char>>, b: Seq<Seq<char>>)
    ensures
        parts_le(a, b) || parts_le(b, a),
    decreases a.len(),
{
    if a.len() > 0 && b.len() > 0 {
        lemma_parts_total(a[0], b[0]);
        lemma_lists_total(a.skip(1), b.skip(1));
    }
}

proof fn lemma_lists_carry(a: Seq<Seq<char>>, b: Seq<Seq<char>>, c: Seq<Seq<char>>)
    requires
        parts_le(a, b),
        parts_le(b, c),
    ensures
        parts_le(a, c),
    decreases a.len(),
{
    if a.len() > 0 && b.len() > 0 && c.len() > 0 {
        lemma_parts_carry(a[0], b[0], c[0]);
        if part_le(c[0], a[0]) {
            lemma_parts_carry(c[0], a[0], b[0]);
            lemma_parts_carry(b[0], c[0], a[0]);
            lemma_lists_carry(a.skip(1), b.skip(1), c.skip(1));
        }
    }
}

/// Of two versions one is no newer than the other.
pub proof fn version_order_is_total(a: Seq<char>, b: Seq<char>)
    ensures
        version_le(a, b) || version_le(b, a),
{
    lemma_lists_total(version_parts(a), version_parts(b));
}

/// The order of versions carries over.
pub proof fn version_order_is_transitive(a: Seq<char>, b: Seq<char>, c: Seq<char>)
    requires
        version_le(a, b),
        version_le(b, c),
    ensures
        version_le(a, c),
{
    lemma_lists_carry(version_parts(a), version_parts(b), version_parts(c));
}

/// A path without a version is no newer than any other.
pub proof fn empty_version_is_oldest(v: Seq<char>)
    ensures
        version_le(seq![], v),
{
    let a = version_parts(seq![]);
    let b = version_parts(v);
    assert(a =~= seq![Seq::<char>::empty()]) by {
        crate::text::lemma_first_where(seq![], any_of(seq!['.']));
    }
    assert(b.len() > 0);
    reveal_with_fuel(parts_le, 2);
}

proof fn lemma_number_decides(a: Seq<Seq<char>>, b: Seq<Seq<char>>, i: int)
    requires
        0 <= i < a.len(),
        i < b.len(),
        a.take(i) == b.take(i),
        part_rank(a[i]) == 1,
        part_rank(b[i]) == 1,
        digits_value(a[i], 10) < digits_value(b[i], 10),
    ensures
        parts_le(a, b),
        !parts_le(b, a),
    decreases i,
{
    if i > 0 {
        assert(a.take(i)[0] == b.take(i)[0]);
        lemma_parts_total(a[0], a[0]);
        assert(a.skip(1).take(i - 1) =~= a.take(i).skip(1));
        assert(b.skip(1).take(i - 1) =~= b.take(i).skip(1));
        lemma_number_decides(a.skip(1), b.skip(1), i - 1);
    }
}

/// Of two versions that agree up to a part, the one with the greater number there is the
/// newer.
pub proof fn greater_number_is_newer(a: Seq<char>, b: Seq<char>, i: int)
    requires
        0 <= i < version_parts(a).len(),
        i < version_parts(b).len(),
        version_parts(a).take(i) == version_parts(b).take(i),
        part_rank(version_parts(a)[i]) == 1,
        part_rank(version_parts(b)[i]) == 1,
        digits_value(version_parts(a)[i], 10) < digits_value(version_parts(b)[i], 10),
    ensures
        version_le(a, b),
        !version_le(b, a),
{
    lemma_number_decides(version_parts(a), version_parts(b), i);
}

/// Picks the newest compiler, the first one where several are as new.
pub fn find_rc_exe(found: &Vec<Candidate>) -> (best: Option<usize>)
    ensures
        match best {
            Some(b) => {
                &&& b < found@.len()
                &&& forall|k: int|
                    0 <= k < found@.len() ==> version_le(
                        (#[trigger] found@[k]).version@,
                        found@[b as int].version@,
                    )
                &&& forall|k: int|
                    0 <= k < b ==> !version_le(
                        found@[b as int].version@,
                        (#[trigger] found@[k]).version@,
                    )
            },
            None => found@.len() == 0,
        },
{
    if found.len() == 0 {
        return None;
    }
    let mut best: usize = 0;
    let mut i: usize = 1;
    proof {
        version_order_is_total(found@[0].version@, found@[0].version@);
    }
    while i < found.len()
        invariant
            best < i <= found@.len(),
            forall|k: int|
                0 <= k < i ==> version_le((#[trigger] found@[k]).version@, found@[best as int].version@),
            forall|k: int|
                0 <= k < best ==> !version_le(
                    found@[best as int].version@,
                    (#[trigger] found@[k]).version@,
                ),
        decreases found@.len() - i,
    {
        let le = is_version_le(found[i].version.as_str(), found[best].version.as_str());
        proof {
            let (x, y) = (found@[i as int].version@, found@[best as int].version@);
            version_order_is_total(x, y);
            version_order_is_total(x, x);
            if !le {
                assert forall|k: int| 0 <= k < i + 1 implies version_le(
                    (#[trigger] found@[k]).version@,
                    x,
                ) by {
                    if k < i {
                        version_order_is_transitive(found@[k].version@, y, x);
                    }
                }
                assert forall|k: int| 0 <= k < i implies !version_le(
                    x,
                    (#[trigger] found@[k]).version@,
                ) by {
                    if version_le(x, found@[k].version@) {
                        version_order_is_transitive(x, found@[k].version@, y);
                    }
                }
            }
        }
        if !le {
            best = i;
        }
        i = i + 1;
    }
    Some(best)
}

} // verus!
