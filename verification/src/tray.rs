//! The tray menu as a derived, read-only projection of the stored groups:
//! recomputed on demand from a settings-store snapshot, never kept as a
//! separate mutable cache. One submenu per group that has items, one entry
//! per item, and a pure decision function mapping a clicked menu entry to
//! the action the shell performs.

use vstd::prelude::*;
use vstd::string::StrSliceExecFns;
use vstd::string::StringExecFns;

use crate::model::ProgramGroup;
use crate::text::{str_eq, str_starts_with};

verus! {

/// A menu entry that launches a stored item.
#[derive(Debug)]
pub struct TrayItem {
    pub id: String,
    pub label: String,
}

/// Mathematical image of a `TrayItem`.
#[verifier::ext_equal]
pub struct TrayItemView {
    pub id: Seq<char>,
    pub label: Seq<char>,
}

impl View for TrayItem {
    type V = TrayItemView;

    open spec fn view(&self) -> TrayItemView {
        TrayItemView { id: self.id@, label: self.label@ }
    }
}

impl DeepView for TrayItem {
    type V = TrayItemView;

    open spec fn deep_view(&self) -> TrayItemView {
        self.view()
    }
}

/// A group's submenu: its label and one entry per item.
#[derive(Debug)]
pub struct TraySubmenu {
    pub id: String,
    pub label: String,
    pub entries: Vec<TrayItem>,
}

/// Mathematical image of a `TraySubmenu`.
#[verifier::ext_equal]
pub struct TraySubmenuView {
    pub id: Seq<char>,
    pub label: Seq<char>,
    pub entries: Seq<TrayItemView>,
}

impl View for TraySubmenu {
    type V = TraySubmenuView;

    open spec fn view(&self) -> TraySubmenuView {
        TraySubmenuView {
            id: self.id@,
            label: self.label@,
            entries: self.entries.deep_view(),
        }
    }
}

impl DeepView for TraySubmenu {
    type V = TraySubmenuView;

    open spec fn deep_view(&self) -> TraySubmenuView {
        self.view()
    }
}

/// The menu entry projected from one stored item: its identifier under
/// the `launch_` prefix, its display name as the label.
pub open spec fn item_entry(item_id: Seq<char>, item_name: Seq<char>) -> TrayItemView {
    TrayItemView { id: "launch_"@ + item_id, label: item_name }
}

/// The submenu projected from one stored group: its identifier under the
/// `group_` prefix, its name as the label, its items in stored order.
pub open spec fn group_submenu(g: ProgramGroup) -> TraySubmenuView {
    TraySubmenuView {
        id: "group_"@ + g.id@,
        label: g.name@,
        entries: Seq::new(g.items@.len(), |i: int| item_entry(g.items@[i].id@, g.items@[i].name@)),
    }
}

/// The tray's group submenus, projected from a groups snapshot: one per
/// group that has at least one item, in stored order; empty groups get
/// no submenu.
pub open spec fn tray_menu_model(groups: Seq<ProgramGroup>) -> Seq<TraySubmenuView>
    decreases groups.len(),
{
    if groups.len() == 0 {
        Seq::empty()
    } else {
        let rest = tray_menu_model(groups.drop_last());
        if groups.last().items@.len() > 0 {
            rest.push(group_submenu(groups.last()))
        } else {
            rest
        }
    }
}

/// Builds the submenu for one group.
fn build_group_submenu(g: &ProgramGroup) -> (r: TraySubmenu)
    ensures
        r@ == group_submenu(*g),
{
    let id = "group_".to_owned().concat(g.id.as_str());
    let mut entries: Vec<TrayItem> = Vec::new();
    let mut i: usize = 0;
    let n = g.items.len();
    while i < n
        invariant
            i <= n,
            n == g.items@.len(),
            entries.deep_view() =~~= Seq::new(
                i as nat,
                |j: int| item_entry(g.items@[j].id@, g.items@[j].name@),
            ),
        decreases n - i,
    {
        let ghost old_entries = entries;
        proof {
            assert(old_entries.deep_view().len() == i as int);
            assert(old_entries@.len() == i as int);
        }
        let entry_id = "launch_".to_owned().concat(g.items[i].id.as_str());
        let label = g.items[i].name.clone();
        entries.push(TrayItem { id: entry_id, label });
        proof {
            let dv = entries.deep_view();
            assert(dv[i as int] == item_entry(g.items@[i as int].id@, g.items@[i as int].name@));
            assert forall|j: int| 0 <= j < i implies dv[j] == item_entry(
                g.items@[j].id@,
                g.items@[j].name@,
            ) by {
                assert(entries@[j] == old_entries@[j]);
                assert(dv[j] == entries@[j].deep_view());
                assert(old_entries.deep_view()[j] == old_entries@[j].deep_view());
                assert(old_entries.deep_view()[j] == item_entry(
                    g.items@[j].id@,
                    g.items@[j].name@,
                ));
            }
            assert(entries.deep_view() =~~= Seq::new(
                (i + 1) as nat,
                |j: int| item_entry(g.items@[j].id@, g.items@[j].name@),
            ));
        }
        i += 1;
    }
    let r = TraySubmenu { id, label: g.name.clone(), entries };
    proof {
        assert(r@ =~~= group_submenu(*g));
    }
    r
}

/// Projects the tray's group submenus from a groups snapshot.
pub fn build_tray_menu(groups: &Vec<ProgramGroup>) -> (r: Vec<TraySubmenu>)
    ensures
        r.deep_view() == tray_menu_model(groups@),
{
    let mut r: Vec<TraySubmenu> = Vec::new();
    let mut i: usize = 0;
    let n = groups.len();
    proof {
        assert(r.deep_view() =~= tray_menu_model(groups@.take(0)));
    }
    while i < n
        invariant
            i <= n,
            n == groups@.len(),
            r.deep_view() == tray_menu_model(groups@.take(i as int)),
        decreases n - i,
    {
        let ghost pre = r.deep_view();
        if groups[i].items.len() > 0 {
            let sub = build_group_submenu(&groups[i]);
            r.push(sub);
            proof {
                assert(r.deep_view() =~= pre.push(group_submenu(groups@[i as int])));
            }
        }
        proof {
            let t = groups@.take(i + 1);
            assert(t.drop_last() =~= groups@.take(i as int));
            assert(t.last() == groups@[i as int]);
        }
        i += 1;
    }
    proof {
        assert(groups@.take(n as int) =~= groups@);
    }
    r
}

/// One pixel of the fallback tray icon: teal, fully opaque, as RGBA.
pub open spec fn icon_pixel() -> Seq<u8> {
    seq![0x00u8, 0x80u8, 0x80u8, 0xFFu8]
}

/// The fallback tray icon: a 16-by-16 teal square as raw RGBA bytes
/// (not an encoded image file).
pub fn get_tray_icon() -> (r: Vec<u8>)
    ensures
        r@.len() == 1024,
        forall|k: int| 0 <= k < r@.len() ==> r@[k] == icon_pixel()[k % 4],
{
    let mut r: Vec<u8> = Vec::new();
    let mut i: usize = 0;
    while i < 1024
        invariant
            i <= 1024,
            r@.len() == i,
            forall|k: int| 0 <= k < i ==> r@[k] == icon_pixel()[k % 4],
        decreases 1024 - i,
    {
        let b: u8 = match i % 4 {
            0 => 0x00,
            1 => 0x80,
            2 => 0x80,
            _ => 0xFF,
        };
        r.push(b);
        i += 1;
    }
    r
}

/// What the shell does when a tray menu entry is activated.
#[derive(Debug)]
pub enum TrayAction {
    /// Bring the main window back: unminimize, show, focus.
    ShowWindow,
    /// Quit the application.
    Exit,
    /// Notify the UI layer to launch the stored item with this
    /// identifier; delivery is the UI collaborator's concern.
    EmitLaunch(String),
    /// An identifier this menu does not know.
    Ignore,
}

/// Mathematical image of a `TrayAction`.
#[verifier::ext_equal]
pub enum TrayActionView {
    ShowWindow,
    Exit,
    EmitLaunch(Seq<char>),
    Ignore,
}

impl View for TrayAction {
    type V = TrayActionView;

    open spec fn view(&self) -> TrayActionView {
        match self {
            TrayAction::ShowWindow => TrayActionView::ShowWindow,
            TrayAction::Exit => TrayActionView::Exit,
            TrayAction::EmitLaunch(id) => TrayActionView::EmitLaunch(id@),
            TrayAction::Ignore => TrayActionView::Ignore,
        }
    }
}

/// The action a clicked menu identifier decides: the fixed `show` and
/// `exit` entries, an item launch for a `launch_`-prefixed identifier
/// (the prefix stripped), and nothing for anything else.
pub open spec fn menu_action(id: Seq<char>) -> TrayActionView {
    if id == "show"@ {
        TrayActionView::ShowWindow
    } else if id == "exit"@ {
        TrayActionView::Exit
    } else if "launch_"@.is_prefix_of(id) {
        TrayActionView::EmitLaunch(id.skip("launch_"@.len() as int))
    } else {
        TrayActionView::Ignore
    }
}

/// Decides the action for a clicked tray menu identifier.
pub fn handle_menu_event(id: &str) -> (r: TrayAction)
    ensures
        r@ == menu_action(id@),
{
    if str_eq(id, "show") {
        TrayAction::ShowWindow
    } else if str_eq(id, "exit") {
        TrayAction::Exit
    } else if str_starts_with(id, "launch_") {
        proof {
            reveal_strlit("launch_");
        }
        let n: usize = id.unicode_len();
        let item_id = id.substring_char(7, n).to_owned();
        proof {
            assert(item_id@ =~= id@.skip("launch_"@.len() as int));
        }
        TrayAction::EmitLaunch(item_id)
    } else {
        TrayAction::Ignore
    }
}

} // verus!
