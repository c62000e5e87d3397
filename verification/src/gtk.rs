//! The Linux/GTK driver: owns an application-indicator object that can only
//! display an icon from a file path, so every icon change is staged by
//! writing a PNG under a staging directory, at a path keyed by the driver's
//! internal id and a monotonically increasing revision counter. Native
//! indicator calls and file operations are returned as [`GtkCommand`]
//! values for the host to perform; the driver itself only decides.
//!
//! This platform delivers no click or hover events at all; only mutation is
//! meaningful here.

use vstd::prelude::*;
use vstd::string::StringExecFns;

use crate::attributes::{AttrsView, MenuHandle, TrayIconAttributes};
use crate::counter::{dec_rep, format_u32, lemma_dec_rep_injective};
use crate::error::Error;
use crate::geometry::Rect;
use crate::icon::{png_of, Icon, IconView};

verus! {

/// One native indicator call or file operation for the host to perform.
#[derive(Clone, Debug)]
pub enum GtkCommand {
    /// Create the application indicator and mark it active.
    CreateIndicator,
    /// Set the indicator active (visible) or passive (hidden).
    SetStatus { active: bool },
    /// Create the staging directory and any missing parents.
    CreateDirAll { path: String },
    /// Write the staged icon PNG to the given path.
    WriteIconPng { path: String, bytes: Vec<u8> },
    /// Point the indicator at the staged icon file.
    SetIconPath { theme_path: String, icon_path: String },
    /// Attach the given menu to the indicator.
    SetMenu { menu: MenuHandle },
    /// Set the indicator's label text.
    SetLabel { text: String },
    /// Remove a staged icon file, ignoring failure.
    RemoveFile { path: String },
}

/// The mathematical content of a [`GtkCommand`].
#[verifier::ext_equal]
pub ghost enum GtkCommandView {
    CreateIndicator,
    SetStatus { active: bool },
    CreateDirAll { path: Seq<char> },
    WriteIconPng { path: Seq<char>, bytes: Seq<u8> },
    SetIconPath { theme_path: Seq<char>, icon_path: Seq<char> },
    SetMenu { menu: MenuHandle },
    SetLabel { text: Seq<char> },
    RemoveFile { path: Seq<char> },
}

impl View for GtkCommand {
    type V = GtkCommandView;

    open spec fn view(&self) -> GtkCommandView {
        match self {
            GtkCommand::CreateIndicator => GtkCommandView::CreateIndicator,
            GtkCommand::SetStatus { active } => GtkCommandView::SetStatus { active: *active },
            GtkCommand::CreateDirAll { path } => GtkCommandView::CreateDirAll { path: path@ },
            GtkCommand::WriteIconPng { path, bytes } => GtkCommandView::WriteIconPng {
                path: path@,
                bytes: bytes@,
            },
            GtkCommand::SetIconPath { theme_path, icon_path } => GtkCommandView::SetIconPath {
                theme_path: theme_path@,
                icon_path: icon_path@,
            },
            GtkCommand::SetMenu { menu } => GtkCommandView::SetMenu { menu: *menu },
            GtkCommand::SetLabel { text } => GtkCommandView::SetLabel { text: text@ },
            GtkCommand::RemoveFile { path } => GtkCommandView::RemoveFile { path: path@ },
        }
    }
}

/// The views of a command list, in order.
pub open spec fn cmd_views(cmds: Seq<GtkCommand>) -> Seq<GtkCommandView> {
    cmds.map_values(|c: GtkCommand| c@)
}

/// The staging directory: the explicitly configured directory when one is
/// set, else a `tray-icon` subdirectory of the host-supplied base (the
/// runtime directory, falling back to the OS temp directory).
pub open spec fn parent_path_spec(temp_icon_dir: Option<Seq<char>>, default_base: Seq<char>) -> Seq<
    char,
> {
    match temp_icon_dir {
        Some(p) => p,
        None => default_base + "/tray-icon"@,
    }
}

/// The staged icon file path: the staging directory plus a file name keyed
/// by the driver's internal id and the revision counter.
pub open spec fn icon_file_path_spec(parent: Seq<char>, id: nat, counter: nat) -> Seq<char> {
    parent + "/tray-icon-"@ + dec_rep(id) + "-"@ + dec_rep(counter) + ".png"@
}

/// Generates the staging directory and the staged icon path for the given
/// id and revision counter.
pub fn temp_icon_path(temp_icon_dir: Option<&String>, default_base: &str, id: u32, counter: u32) -> (r:
    (String, String))
    ensures
        r.0@ == parent_path_spec(
            match temp_icon_dir {
                Some(p) => Some(p@),
                None => None,
            },
            default_base@,
        ),
        r.1@ == icon_file_path_spec(r.0@, id as nat, counter as nat),
{
    let parent: String = match temp_icon_dir {
        Some(p) => p.clone(),
        None => String::from_str(default_base).concat("/tray-icon"),
    };
    let mut path: String = parent.clone();
    path.append("/tray-icon-");
    let id_s = format_u32(id);
    path.append(id_s.as_str());
    path.append("-");
    let counter_s = format_u32(counter);
    path.append(counter_s.as_str());
    path.append(".png");
    (parent, path)
}

/// Two sequences that differ, wrapped in the same prefix and suffix, still
/// differ.
pub proof fn lemma_framed_ne(a: Seq<char>, x: Seq<char>, y: Seq<char>, b: Seq<char>)
    requires
        x != y,
    ensures
        a + x + b != a + y + b,
{
    if x.len() != y.len() {
        assert((a + x + b).len() != (a + y + b).len());
    } else {
        if forall|k: int| 0 <= k < x.len() ==> x[k] == y[k] {
            assert(x =~= y);
        }
        let k = choose|k: int| 0 <= k < x.len() && x[k] != y[k];
        assert((a + x + b)[a.len() + k] == x[k]);
        assert((a + y + b)[a.len() + k] == y[k]);
    }
}

/// Staged icon paths for distinct revision counters are distinct: a new
/// revision never reuses an earlier revision's file path, so replacing an
/// icon can never overwrite the still-displayed previous file.
pub proof fn lemma_icon_path_distinct(parent: Seq<char>, id: nat, c1: nat, c2: nat)
    requires
        c1 != c2,
    ensures
        icon_file_path_spec(parent, id, c1) != icon_file_path_spec(parent, id, c2),
{
    lemma_dec_rep_injective(c1, c2);
    let a = parent + "/tray-icon-"@ + dec_rep(id) + "-"@;
    let b = ".png"@;
    assert(icon_file_path_spec(parent, id, c1) =~= a + dec_rep(c1) + b);
    assert(icon_file_path_spec(parent, id, c2) =~= a + dec_rep(c2) + b);
    lemma_framed_ne(a, dec_rep(c1), dec_rep(c2), b);
}

/// In particular, replacing an icon stages the new file at a path
/// distinct from the one currently displayed: the revision advances by
/// one, and successive revisions never share a path.
pub proof fn lemma_successive_paths_distinct(parent: Seq<char>, id: nat, rev: nat)
    ensures
        icon_file_path_spec(parent, id, rev) != icon_file_path_spec(parent, id, rev + 1),
{
    lemma_icon_path_distinct(parent, id, rev, rev + 1);
}

/// The mathematical content of the GTK driver's state.
#[verifier::ext_equal]
pub ghost struct GtkTrayView {
    pub internal_id: u32,
    pub default_base: Seq<char>,
    pub temp_dir_path: Option<Seq<char>>,
    pub path: Seq<char>,
    pub staged: Seq<Seq<char>>,
    pub revision: u32,
    pub menu: Option<MenuHandle>,
    pub title: Option<Seq<char>>,
    pub icon: Option<IconView>,
    pub visible: bool,
}

/// The live Linux/GTK tray icon driver state: the mirrored attributes, the
/// staging bookkeeping, and the revision counter. The native indicator
/// object itself lives with the host, which performs the returned
/// commands.
#[derive(Debug)]
pub struct GtkTrayIcon {
    internal_id: u32,
    default_base: String,
    temp_dir_path: Option<String>,
    path: String,
    staged: Vec<String>,
    revision: u32,
    menu: Option<MenuHandle>,
    title: Option<String>,
    icon: Option<Icon>,
    visible: bool,
}

impl View for GtkTrayIcon {
    type V = GtkTrayView;

    closed spec fn view(&self) -> GtkTrayView {
        GtkTrayView {
            internal_id: self.internal_id,
            default_base: self.default_base@,
            temp_dir_path: match self.temp_dir_path {
                Some(s) => Some(s@),
                None => None,
            },
            path: self.path@,
            staged: self.staged.deep_view(),
            revision: self.revision,
            menu: self.menu,
            title: match self.title {
                Some(s) => Some(s@),
                None => None,
            },
            icon: match self.icon {
                Some(i) => Some(i@),
                None => None,
            },
            visible: self.visible,
        }
    }
}

/// The commands construction issues, in order: create the indicator
/// (active), make the staging directory, stage the icon file when an icon
/// is configured, point the indicator at the staged path, then attach the
/// menu and label when configured.
pub open spec fn gtk_new_cmd_views(a: AttrsView, parent: Seq<char>, path: Seq<char>) -> Seq<
    GtkCommandView,
> {
    seq![GtkCommandView::CreateIndicator, GtkCommandView::CreateDirAll { path: parent }] + (
    match a.icon {
        Some(iv) => seq![
            GtkCommandView::WriteIconPng { path, bytes: png_of(iv.rgba, iv.width, iv.height) },
        ],
        None => seq![],
    }) + seq![GtkCommandView::SetIconPath { theme_path: parent, icon_path: path }] + (
    match a.menu {
        Some(m) => seq![GtkCommandView::SetMenu { menu: m }],
        None => seq![],
    }) + (match a.title {
        Some(t) => seq![GtkCommandView::SetLabel { text: t }],
        None => seq![],
    })
}

/// The state of a freshly constructed GTK driver: the attributes
/// mirrored, the first icon file staged, and the indicator active.
pub open spec fn gtk_new_state(internal_id: u32, a: AttrsView, base: Seq<char>) -> GtkTrayView {
    let parent = parent_path_spec(a.temp_dir_path, base);
    let path = icon_file_path_spec(parent, internal_id as nat, 0);
    GtkTrayView {
        internal_id,
        default_base: base,
        temp_dir_path: a.temp_dir_path,
        path,
        staged: seq![path],
        revision: 0,
        menu: a.menu,
        title: a.title,
        icon: a.icon,
        visible: true,
    }
}

/// The state after a visibility change: only the visibility flag moves.
pub open spec fn gtk_set_visible_state(s: GtkTrayView, visible: bool) -> GtkTrayView {
    GtkTrayView { visible, ..s }
}

/// Hiding a tray icon and then showing it again restores exactly the
/// freshly constructed state: the mirrored icon, title and menu survive
/// the visibility toggle.
pub proof fn lemma_visibility_roundtrip(internal_id: u32, a: AttrsView, base: Seq<char>)
    ensures
        gtk_set_visible_state(
            gtk_set_visible_state(gtk_new_state(internal_id, a, base), false),
            true,
        ) == gtk_new_state(internal_id, a, base),
{
    assert(gtk_set_visible_state(
        gtk_set_visible_state(gtk_new_state(internal_id, a, base), false),
        true,
    ) =~= gtk_new_state(internal_id, a, base));
}

impl GtkTrayIcon {
    /// Creates the driver state and the commands that build the native
    /// indicator. Fails only when the configured icon cannot be encoded as
    /// PNG, in which case nothing is built.
    pub fn new(internal_id: u32, attrs: TrayIconAttributes, default_base: &str) -> (r: Result<
        (GtkTrayIcon, Vec<GtkCommand>),
        Error,
    >)
        ensures
            r matches Err(e) ==> e is PngEncodingError && attrs@.icon is Some,
            r is Ok <==> crate::icon::opt_icon_encodable(attrs@.icon),
            r matches Ok((t, cmds)) ==> {
                let parent = parent_path_spec(attrs@.temp_dir_path, default_base@);
                let path = icon_file_path_spec(parent, internal_id as nat, 0);
                &&& t@ == gtk_new_state(internal_id, attrs@, default_base@)
                &&& cmd_views(cmds@) == gtk_new_cmd_views(attrs@, parent, path)
            },
    {
        let png: Option<Vec<u8>> = match &attrs.icon {
            Some(icon) => match icon.to_png() {
                Ok(b) => Some(b),
                Err(e) => {
                    return Err(e);
                },
            },
            None => None,
        };
        let (parent, path) = temp_icon_path(
            attrs.temp_dir_path.as_ref(),
            default_base,
            internal_id,
            0,
        );
        let mut cmds: Vec<GtkCommand> = Vec::new();
        cmds.push(GtkCommand::CreateIndicator);
        cmds.push(GtkCommand::CreateDirAll { path: parent.clone() });
        match png {
            Some(bytes) => cmds.push(GtkCommand::WriteIconPng { path: path.clone(), bytes }),
            None => (),
        }
        cmds.push(GtkCommand::SetIconPath { theme_path: parent, icon_path: path.clone() });
        match &attrs.menu {
            Some(m) => cmds.push(GtkCommand::SetMenu { menu: *m }),
            None => (),
        }
        match &attrs.title {
            Some(t) => cmds.push(GtkCommand::SetLabel { text: t.clone() }),
            None => (),
        }
        let mut staged: Vec<String> = Vec::new();
        staged.push(path.clone());
        let tray = GtkTrayIcon {
            internal_id,
            default_base: String::from_str(default_base),
            temp_dir_path: attrs.temp_dir_path,
            path,
            staged,
            revision: 0,
            menu: attrs.menu,
            title: attrs.title,
            icon: attrs.icon,
            visible: true,
        };
        proof {
            assert(cmd_views(cmds@) =~= gtk_new_cmd_views(
                attrs@,
                parent_path_spec(attrs@.temp_dir_path, default_base@),
                icon_file_path_spec(
                    parent_path_spec(attrs@.temp_dir_path, default_base@),
                    internal_id as nat,
                    0,
                ),
            ));
        }
        Ok((tray, cmds))
    }

    /// Replaces (or clears) the tray icon. A fresh revision of the staged
    /// file is written at a path distinct from every earlier revision; the
    /// previously staged files stay on disk until the driver is taken
    /// down, so the indicator never points at a missing file. Fails only
    /// when the new icon cannot be encoded as PNG, leaving all state
    /// unchanged.
    pub fn set_icon(&mut self, icon: Option<Icon>) -> (r: Result<Vec<GtkCommand>, Error>)
        requires
            old(self)@.revision < u32::MAX,
        ensures
            r matches Err(e) ==> e is PngEncodingError && final(self)@ == old(self)@,
            r is Ok <==> crate::icon::opt_icon_encodable(
                match icon {
                    Some(i) => Some(i@),
                    None => None,
                },
            ),
            r matches Ok(cmds) ==> {
                let parent = parent_path_spec(old(self)@.temp_dir_path, old(self)@.default_base);
                let path = icon_file_path_spec(
                    parent,
                    old(self)@.internal_id as nat,
                    (old(self)@.revision + 1) as nat,
                );
                &&& final(self)@ == (GtkTrayView {
                    path,
                    staged: old(self)@.staged.push(path),
                    revision: (old(self)@.revision + 1) as u32,
                    icon: match icon {
                        Some(i) => Some(i@),
                        None => None,
                    },
                    ..old(self)@
                })
                &&& cmd_views(cmds@) == seq![GtkCommandView::CreateDirAll { path: parent }] + (
                match icon {
                    Some(i) => seq![
                        GtkCommandView::WriteIconPng {
                            path,
                            bytes: png_of(i@.rgba, i@.width, i@.height),
                        },
                    ],
                    None => seq![],
                }) + seq![GtkCommandView::SetIconPath { theme_path: parent, icon_path: path }]
            },
    {
        let png: Option<Vec<u8>> = match &icon {
            Some(i) => match i.to_png() {
                Ok(b) => Some(b),
                Err(e) => {
                    return Err(e);
                },
            },
            None => None,
        };
        self.revision = self.revision + 1;
        let (parent, path) = temp_icon_path(
            self.temp_dir_path.as_ref(),
            self.default_base.as_str(),
            self.internal_id,
            self.revision,
        );
        let mut cmds: Vec<GtkCommand> = Vec::new();
        cmds.push(GtkCommand::CreateDirAll { path: parent.clone() });
        match png {
            Some(bytes) => cmds.push(GtkCommand::WriteIconPng { path: path.clone(), bytes }),
            None => (),
        }
        cmds.push(GtkCommand::SetIconPath { theme_path: parent, icon_path: path.clone() });
        self.staged.push(path.clone());
        self.path = path;
        self.icon = icon;
        Ok(cmds)
    }

    /// Attaches a menu. Once a menu is attached it cannot be detached:
    /// passing `None` while a menu is attached is a no-op, and only a new
    /// menu can replace the current one.
    pub fn set_menu(&mut self, menu: Option<MenuHandle>) -> (cmds: Vec<GtkCommand>)
        ensures
            menu matches Some(m) ==> final(self)@ == (GtkTrayView {
                menu: Some(m),
                ..old(self)@
            }) && cmd_views(cmds@) == seq![GtkCommandView::SetMenu { menu: m }],
            menu is None ==> final(self)@ == old(self)@ && cmds@.len() == 0,
    {
        let mut cmds: Vec<GtkCommand> = Vec::new();
        match menu {
            Some(m) => {
                cmds.push(GtkCommand::SetMenu { menu: m });
                self.menu = Some(m);
            },
            None => (),
        }
        cmds
    }

    /// Tooltips are unsupported on this platform: the call succeeds and
    /// changes nothing.
    pub fn set_tooltip(&mut self, tooltip: Option<&str>) -> (r: Result<Vec<GtkCommand>, Error>)
        ensures
            r matches Ok(cmds) && cmds@.len() == 0,
            final(self)@ == old(self)@,
    {
        let _ = tooltip;
        Ok(Vec::new())
    }

    /// Sets or clears the indicator's label.
    pub fn set_title(&mut self, title: Option<&str>) -> (cmds: Vec<GtkCommand>)
        ensures
            final(self)@ == (GtkTrayView {
                title: match title {
                    Some(t) => Some(t@),
                    None => None,
                },
                ..old(self)@
            }),
            cmd_views(cmds@) == seq![
                GtkCommandView::SetLabel {
                    text: match title {
                        Some(t) => t@,
                        None => ""@,
                    },
                },
            ],
    {
        let text: String = match title {
            Some(t) => {
                self.title = Some(t.to_owned());
                t.to_owned()
            },
            None => {
                self.title = None;
                String::from_str("")
            },
        };
        let mut cmds: Vec<GtkCommand> = Vec::new();
        cmds.push(GtkCommand::SetLabel { text });
        cmds
    }

    /// Shows or hides the indicator. Hiding only marks the indicator
    /// passive; every configured attribute is kept, so showing it again
    /// restores the same icon, menu and title.
    pub fn set_visible(&mut self, visible: bool) -> (r: Result<Vec<GtkCommand>, Error>)
        ensures
            r matches Ok(cmds) && cmd_views(cmds@) == seq![GtkCommandView::SetStatus { active: visible }],
            final(self)@ == gtk_set_visible_state(old(self)@, visible),
    {
        self.visible = visible;
        let mut cmds: Vec<GtkCommand> = Vec::new();
        cmds.push(GtkCommand::SetStatus { active: visible });
        Ok(cmds)
    }

    /// Changes the staging directory used for future icon changes.
    pub fn set_temp_dir_path(&mut self, path: Option<String>)
        ensures
            final(self)@ == (GtkTrayView {
                temp_dir_path: match path {
                    Some(p) => Some(p@),
                    None => None,
                },
                ..old(self)@
            }),
    {
        self.temp_dir_path = path;
    }

    /// The icon's screen rectangle is not available on this platform.
    pub fn rect(&self) -> (r: Option<Rect>)
        ensures
            r is None,
    {
        None
    }

    /// The mirrored icon.
    pub fn icon(&self) -> (r: Option<Icon>)
        ensures
            (match r {
                Some(i) => Some(i@),
                None => None,
            }) == self@.icon,
    {
        match &self.icon {
            Some(i) => Some(i.clone()),
            None => None,
        }
    }

    /// The mirrored title.
    pub fn title(&self) -> (r: Option<String>)
        ensures
            (match r {
                Some(t) => Some(t@),
                None => None,
            }) == self@.title,
    {
        match &self.title {
            Some(t) => Some(t.clone()),
            None => None,
        }
    }

    /// The mirrored menu.
    pub fn menu(&self) -> (r: Option<MenuHandle>)
        ensures
            r == self@.menu,
    {
        self.menu
    }

    /// Whether the indicator is currently active.
    pub fn visible(&self) -> (r: bool)
        ensures
            r == self@.visible,
    {
        self.visible
    }

    /// The currently staged icon file path.
    pub fn icon_path(&self) -> (r: &String)
        ensures
            r@ == self@.path,
    {
        &self.path
    }

    /// Every staged icon file path, in staging order.
    pub fn staged_paths(&self) -> (r: &Vec<String>)
        ensures
            r.deep_view() == self@.staged,
    {
        &self.staged
    }

    /// The current staged-file revision counter.
    pub fn revision(&self) -> (r: u32)
        ensures
            r == self@.revision,
    {
        self.revision
    }

    /// Releases the native indicator: marks it passive and removes every
    /// staged icon file (best effort), in staging order.
    pub fn take_down(&mut self) -> (cmds: Vec<GtkCommand>)
        ensures
            cmds@.len() == old(self)@.staged.len() + 1,
            cmds@[0]@ == (GtkCommandView::SetStatus { active: false }),
            forall|i: int|
                0 <= i < old(self)@.staged.len() ==> (#[trigger] cmds@[i + 1]@)
                    == (GtkCommandView::RemoveFile { path: old(self)@.staged[i] }),
            final(self)@ == (GtkTrayView { staged: seq![], visible: false, ..old(self)@ }),
    {
        let mut cmds: Vec<GtkCommand> = Vec::new();
        cmds.push(GtkCommand::SetStatus { active: false });
        let mut i: usize = 0;
        while i < self.staged.len()
            invariant
                i <= self.staged@.len(),
                self == old(self),
                cmds@.len() == i + 1,
                cmds@[0]@ == (GtkCommandView::SetStatus { active: false }),
                forall|j: int|
                    0 <= j < i ==> (#[trigger] cmds@[j + 1]@) == (GtkCommandView::RemoveFile {
                        path: old(self)@.staged[j],
                    }),
            decreases self.staged@.len() - i,
        {
            cmds.push(GtkCommand::RemoveFile { path: self.staged[i].clone() });
            i = i + 1;
        }
        self.staged = Vec::new();
        self.visible = false;
        cmds
    }
}

} // verus!
