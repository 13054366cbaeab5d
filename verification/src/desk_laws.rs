//! What is made of the command line, of the tray's menu, and of the places where the resource
//! compiler may be.

use vstd::prelude::*;

use crate::icon::{
    drive_of, kit_roots, kits_below, part_le, part_rank, parts_le, version_le, version_of,
    version_parts,
};
use crate::logs::text_order_is_total;
use crate::number::digits_value;
use crate::service_host::{command_of, Command};
use crate::state_store::joined;
use crate::text::{any_of, text_le};
use crate::text_laws::{
    is_written_in, number_is_what_the_digits_are_worth, separator_parts_the_pieces,
    text_without_separator_is_one_piece, weight,
};
use crate::tray::{icon_of, tip_of, TrayAction, TrayMenu, TrayState};

verus! {

// ---------------------------------------------------------------------------
// Command line and tray
// ---------------------------------------------------------------------------

/// The first argument settles what the program does; it runs as a service unless it is told
/// something that it knows.
pub proof fn argument_settles_the_command(a: Seq<char>)
    ensures
        command_of(None) is Service,
        command_of(Some("--install-service"@)) is Install,
        command_of(Some("--uninstall-service"@)) is Uninstall,
        command_of(Some("--console"@)) is Console,
        a != "--install-service"@ && a != "--uninstall-service"@ && a != "--console"@
            ==> command_of(Some(a)) is Service,
{
    reveal_strlit("--install-service");
    reveal_strlit("--uninstall-service");
    reveal_strlit("--console");
    assert("--install-service"@.len() == 17);
    assert("--uninstall-service"@.len() == 19);
    assert("--console"@.len() == 9);
}

/// The tray says in words and by its icon where traffic goes.
pub proof fn tray_says_where_traffic_goes()
    ensures
        tip_of(TrayState::Direct) == "RouteTool - 直连"@,
        tip_of(TrayState::Bypass) == "RouteTool - 旁路由生效"@,
        tip_of(TrayState::Fallback) == "RouteTool - 异常已自动回退"@,
        icon_of(TrayState::Direct) == "tray_direct.rgba"@,
        icon_of(TrayState::Bypass) == "tray_bypass.rgba"@,
        icon_of(TrayState::Fallback) == "tray_fallback.rgba"@,
{
}

/// Each item of the menu stands for its own action, where no two have the same identifier;
/// an identifier of no item stands for nothing.
pub proof fn item_stands_for_its_action(m: TrayMenu, id: Seq<char>)
    requires
        m.toggle_id@ != m.settings_id@,
        m.toggle_id@ != m.logs_id@,
        m.toggle_id@ != m.quit_id@,
        m.settings_id@ != m.logs_id@,
        m.settings_id@ != m.quit_id@,
        m.logs_id@ != m.quit_id@,
    ensures
        m.action_of(id) == Some(TrayAction::Toggle) <==> id == m.toggle_id@,
        m.action_of(id) == Some(TrayAction::OpenSettings) <==> id == m.settings_id@,
        m.action_of(id) == Some(TrayAction::OpenLogs) <==> id == m.logs_id@,
        m.action_of(id) == Some(TrayAction::Quit) <==> id == m.quit_id@,
{
}

// ---------------------------------------------------------------------------
// Places
// ---------------------------------------------------------------------------

/// The drive is the first two bytes of a directory: two characters of ASCII, or one that
/// takes two bytes. Where these bytes end within a character or there are fewer, it is C.
pub proof fn drive_is_the_first_two_bytes(a: char, b: char, rest: Seq<char>)
    ensures
        (a as int) < 128 && (b as int) < 128 ==> drive_of(seq![a, b] + rest) == seq![a, b],
        128 <= a as int && (a as int) < 2048 ==> drive_of(seq![a] + rest) == seq![a],
        a as int >= 2048 ==> drive_of(seq![a] + rest) == "C:"@,
        (a as int) < 128 && b as int >= 128 ==> drive_of(seq![a, b] + rest) == "C:"@,
        (a as int) < 128 ==> drive_of(seq![a]) == "C:"@,
        drive_of(Seq::empty()) == "C:"@,
{
    let s = seq![a, b] + rest;
    assert(s[0] == a && s[1] == b);
    assert(s.take(2) =~= seq![a, b]);
    let t = seq![a] + rest;
    assert(t[0] == a);
    assert(t.take(1) =~= seq![a]);
}

/// The kits are looked for below the program directories in turn.
pub proof fn kits_are_looked_for_in_order(
    a: Seq<Option<Seq<char>>>,
    b: Seq<Option<Seq<char>>>,
)
    ensures
        kits_below(a + b) == kits_below(a) + kits_below(b),
    decreases b.len(),
{
    if b.len() == 0 {
        assert(a + b =~= a);
        assert(kits_below(a) + kits_below(b) =~= kits_below(a));
    } else {
        kits_are_looked_for_in_order(a, b.drop_last());
        assert((a + b).drop_last() =~= a + b.drop_last());
        assert((a + b).last() == b.last());
        assert(kits_below(a + b) =~= kits_below(a) + kits_below(b));
    }
}

/// A program directory is passed over if it is not set or empty.
pub proof fn unset_directory_is_passed_over(d: Seq<char>)
    ensures
        kits_below(seq![None]).len() == 0,
        d.len() == 0 ==> kits_below(seq![Some(d)]).len() == 0,
        d.len() > 0 ==> kits_below(seq![Some(d)]) == seq![joined(d, "Windows Kits"@)],
{
    let (x, y) = (seq![None::<Seq<char>>], seq![Some(d)]);
    assert(x.drop_last() =~= Seq::<Option<Seq<char>>>::empty());
    assert(y.drop_last() =~= Seq::<Option<Seq<char>>>::empty());
    reveal_with_fuel(kits_below, 2);
    if d.len() > 0 {
        assert(kits_below(y) =~= seq![joined(d, "Windows Kits"@)]);
    }
}

/// Last of all the kits are looked for at the usual places of the system's drive.
pub proof fn usual_places_come_last(dirs: Seq<Option<Seq<char>>>, root: Option<Seq<char>>)
    ensures
        ({
            let all = kit_roots(dirs, root);
            let n = kits_below(dirs).len() as int;
            let drive = match root {
                Some(r) => drive_of(r),
                None => "C:"@,
            };
            &&& all.len() == n + 2
            &&& all.take(n) == kits_below(dirs)
            &&& all[n] == drive + r"\Program Files (x86)\Windows Kits"@
            &&& all[n + 1] == drive + r"\Program Files\Windows Kits"@
        }),
{
    reveal_strlit(r"C:\Windows");
    reveal_strlit("C:");
    let w = r"C:\Windows"@;
    assert(w[0] == 'C' && w[1] == ':');
    assert(drive_of(w) =~= "C:"@);
    let all = kit_roots(dirs, root);
    assert(all.take(kits_below(dirs).len() as int) =~= kits_below(dirs));
}

/// A directory names a version exactly if its name begins with a digit.
pub proof fn version_begins_with_a_digit(n: Seq<char>)
    ensures
        n.len() > 0 && '0' <= n[0] <= '9' ==> version_of(Some(n)) == n,
        n.len() > 0 && !('0' <= n[0] <= '9') ==> version_of(Some(n)).len() == 0,
        version_of(Some(Seq::empty())).len() == 0,
        version_of(None).len() == 0,
{
}

// ---------------------------------------------------------------------------
// Versions
// ---------------------------------------------------------------------------

/// Whether a part of a version is a number.
pub open spec fn is_number(p: Seq<char>) -> bool {
    p.len() > 0 && is_written_in(p, 10)
}

proof fn lemma_rank(p: Seq<char>)
    ensures
        part_rank(p) == 1 <==> is_number(p),
        p.len() == 0 <==> part_rank(p) == 0,
        is_number(p) ==> weight(p, 10) == digits_value(p, 10),
{
    number_is_what_the_digits_are_worth(p, 10, digits_value(p, 10), digits_value(p, 10));
}

/// Parts of a version are compared as numbers where both are numbers, and as texts where
/// neither is one; nothing is older than a number, and a number older than anything else.
pub proof fn parts_are_compared_by_kind(a: Seq<char>, b: Seq<char>)
    ensures
        is_number(a) && is_number(b) ==> (part_le(a, b) <==> weight(a, 10) <= weight(b, 10)),
        a.len() == 0 ==> part_le(a, b),
        a.len() == 0 && b.len() > 0 ==> !part_le(b, a),
        is_number(a) && b.len() > 0 && !is_number(b) ==> part_le(a, b) && !part_le(b, a),
        a.len() > 0 && b.len() > 0 && !is_number(a) && !is_number(b) ==> part_le(a, b) == text_le(
            a,
            b,
        ),
{
    lemma_rank(a);
    lemma_rank(b);
}

/// The parts of a version are what dots hold apart.
pub proof fn dots_hold_the_parts_apart(a: Seq<char>, b: Seq<char>)
    ensures
        version_parts(a.push('.') + b) == version_parts(a) + version_parts(b),
        !a.contains('.') ==> version_parts(a) == seq![a],
{
    let p = any_of(seq!['.']);
    assert(seq!['.'][0] == '.');
    assert(seq!['.'].contains('.'));
    separator_parts_the_pieces(a, '.', b, p);
    if !a.contains('.') {
        assert forall|i: int| 0 <= i < a.len() implies !p(#[trigger] a[i]) by {
            if seq!['.'].contains(a[i]) {
                assert(a[i] == '.');
                assert(a.contains(a[i]));
            }
        }
        text_without_separator_is_one_piece(a, p);
    }
}

proof fn lemma_part_is_no_newer_than_itself(a: Seq<char>)
    ensures
        part_le(a, a),
{
    text_order_is_total(a, a);
}

/// The first parts that differ decide, whatever follows; a version is older than one that
/// goes on behind it.
pub proof fn first_parts_that_differ_decide(
    front: Seq<Seq<char>>,
    a: Seq<Seq<char>>,
    b: Seq<Seq<char>>,
)
    ensures
        parts_le(front, front + b),
        b.len() > 0 ==> !parts_le(front + b, front),
        a.len() > 0 && b.len() > 0 && part_le(a[0], b[0]) && !part_le(b[0], a[0]) ==> parts_le(
            front + a,
            front + b,
        ) && !parts_le(front + b, front + a),
    decreases front.len(),
{
    let (x, y) = (front + a, front + b);
    if front.len() > 0 {
        lemma_part_is_no_newer_than_itself(front[0]);
        assert(x[0] == front[0] && y[0] == front[0]);
        assert(x.skip(1) =~= front.skip(1) + a);
        assert(y.skip(1) =~= front.skip(1) + b);
        first_parts_that_differ_decide(front.skip(1), a, b);
    } else {
        assert(x =~= a);
        assert(y =~= b);
        assert(front =~= Seq::<Seq<char>>::empty());
    }
}

/// Versions are compared by their parts.
pub proof fn versions_are_compared_by_parts(a: Seq<char>, b: Seq<char>)
    ensures
        version_le(a, b) == parts_le(version_parts(a), version_parts(b)),
{
}

} // verus!
