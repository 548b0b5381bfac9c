use vstd::prelude::*;

use crate::framebuffer::{DEFAULT_FONT, Dimensions, Point, RGBColor};
use crate::messages::{ShortcutType, WindowManagerRequest, WindowMessage, WindowMessageResponse};
use crate::themes::ThemeInfo;
use crate::window_likes::app_window::AppWindow;
use crate::window_likes::desktop_background::{DesktopBackground, sat_sub};
use crate::window_likes::lock_screen::LockScreen;
use crate::window_likes::start_menu::StartMenu;
use crate::window_likes::taskbar::Taskbar;
use crate::window_likes::workspace_indicator::WorkspaceIndicator;

verus! {

broadcast use vstd::seq_lib::group_to_multiset_ensures;

/// The height of the taskbar along the bottom of the screen.
pub const TASKBAR_HEIGHT: usize = 38;

/// The height of the workspace indicator along the top of the screen.
pub const INDICATOR_HEIGHT: usize = 20;

/// The height of a window's title bar.
pub const WINDOW_TOP_HEIGHT: usize = 26;

/// How far one move shortcut nudges a window, in pixels.
pub const MOVE_STEP: usize = 15;

/// How many workspaces there are; they are numbered from zero.
pub const WORKSPACE_COUNT: u8 = 9;

/// One drawing step, in the coordinates of the surface that produced it.
pub enum DrawInstructions {
    Rect(Point, Dimensions, RGBColor),
    /// Position, font name, text, text colour, background colour.
    Text(Point, &'static str, String, RGBColor, RGBColor),
    /// Position, size, first colour, last colour, number of bands.
    Gradient(Point, Dimensions, RGBColor, RGBColor, usize),
    /// The system logo at a position.
    Mingde(Point),
}

#[derive(Clone, Copy, Debug, PartialEq, Eq, Structural)]
pub enum WindowLikeType {
    LockScreen,
    Window,
    DesktopBackground,
    Taskbar,
    StartMenu,
    WorkspaceIndicator,
}

/// A surface that the compositor can own, message and draw.
pub trait WindowLike: Sized {
    /// What kind of surface this is; it never changes.
    spec fn kind(&self) -> WindowLikeType;

    /// The size the surface asks for on a screen of size `screen`.
    spec fn ideal(&self, screen: Dimensions) -> Dimensions;

    /// The size the surface was last given.
    spec fn size(&self) -> Dimensions;

    /// Whether handling `message` may take the surface to `next`, answering `r`.
    spec fn handles(&self, message: WindowMessage, next: Self, r: WindowMessageResponse) -> bool;

    /// Handles one message. `Init` gives the surface its size, and the
    /// surface then asks to be painted.
    fn handle_message(&mut self, message: WindowMessage) -> (r: WindowMessageResponse)
        ensures
            final(self).kind() == old(self).kind(),
            message is Init ==> final(self).size() == message->Init_0 && r is JustRerender,
            old(self).handles(message, *final(self), r),
    ;

    /// The title shown in the window's title bar and in the taskbar.
    spec fn spec_title(&self) -> &'static str;

    fn title(&self) -> (r: &'static str)
        ensures
            r == self.spec_title(),
    ;

    fn resizable(&self) -> bool;

    fn subtype(&self) -> (r: WindowLikeType)
        ensures
            r == self.kind(),
    ;

    /// Whether `out` is what the surface draws with palette `theme`.
    spec fn draws(&self, theme: ThemeInfo, out: Seq<DrawInstructions>) -> bool;

    fn draw(&self, theme_info: &ThemeInfo) -> (r: Vec<DrawInstructions>)
        ensures
            self.draws(*theme_info, r@),
    ;

    fn ideal_dimensions(&self, dimensions: Dimensions) -> (r: Dimensions)
        ensures
            r == self.ideal(dimensions),
    ;
}

/// An owned surface of any kind.
pub enum WindowBox {
    LockScreen(LockScreen),
    Window(AppWindow),
    DesktopBackground(DesktopBackground),
    Taskbar(Taskbar),
    StartMenu(StartMenu),
    WorkspaceIndicator(WorkspaceIndicator),
}

impl WindowLike for WindowBox {
    open spec fn kind(&self) -> WindowLikeType {
        match self {
            WindowBox::LockScreen(_) => WindowLikeType::LockScreen,
            WindowBox::Window(_) => WindowLikeType::Window,
            WindowBox::DesktopBackground(_) => WindowLikeType::DesktopBackground,
            WindowBox::Taskbar(_) => WindowLikeType::Taskbar,
            WindowBox::StartMenu(_) => WindowLikeType::StartMenu,
            WindowBox::WorkspaceIndicator(_) => WindowLikeType::WorkspaceIndicator,
        }
    }

    open spec fn handles(&self, message: WindowMessage, next: Self, r: WindowMessageResponse) -> bool {
        match self {
            WindowBox::LockScreen(w) => next matches WindowBox::LockScreen(n) && w.handles(message, n, r),
            WindowBox::Window(w) => next matches WindowBox::Window(n) && w.handles(message, n, r),
            WindowBox::DesktopBackground(w) => next matches WindowBox::DesktopBackground(n) && w.handles(message, n, r),
            WindowBox::Taskbar(w) => next matches WindowBox::Taskbar(n) && w.handles(message, n, r),
            WindowBox::StartMenu(w) => next matches WindowBox::StartMenu(n) && w.handles(message, n, r),
            WindowBox::WorkspaceIndicator(w) => next matches WindowBox::WorkspaceIndicator(n) && w.handles(
                message,
                n,
                r,
            ),
        }
    }

    open spec fn draws(&self, theme: ThemeInfo, out: Seq<DrawInstructions>) -> bool {
        match self {
            WindowBox::LockScreen(w) => w.draws(theme, out),
            WindowBox::Window(w) => w.draws(theme, out),
            WindowBox::DesktopBackground(w) => w.draws(theme, out),
            WindowBox::Taskbar(w) => w.draws(theme, out),
            WindowBox::StartMenu(w) => w.draws(theme, out),
            WindowBox::WorkspaceIndicator(w) => w.draws(theme, out),
        }
    }

    open spec fn spec_title(&self) -> &'static str {
        match self {
            WindowBox::LockScreen(w) => w.spec_title(),
            WindowBox::Window(w) => w.spec_title(),
            WindowBox::DesktopBackground(w) => w.spec_title(),
            WindowBox::Taskbar(w) => w.spec_title(),
            WindowBox::StartMenu(w) => w.spec_title(),
            WindowBox::WorkspaceIndicator(w) => w.spec_title(),
        }
    }

    open spec fn size(&self) -> Dimensions {
        match self {
            WindowBox::LockScreen(w) => w.size(),
            WindowBox::Window(w) => w.size(),
            WindowBox::DesktopBackground(w) => w.size(),
            WindowBox::Taskbar(w) => w.size(),
            WindowBox::StartMenu(w) => w.size(),
            WindowBox::WorkspaceIndicator(w) => w.size(),
        }
    }

    open spec fn ideal(&self, screen: Dimensions) -> Dimensions {
        match self {
            WindowBox::LockScreen(w) => w.ideal(screen),
            WindowBox::Window(w) => w.ideal(screen),
            WindowBox::DesktopBackground(w) => w.ideal(screen),
            WindowBox::Taskbar(w) => w.ideal(screen),
            WindowBox::StartMenu(w) => w.ideal(screen),
            WindowBox::WorkspaceIndicator(w) => w.ideal(screen),
        }
    }

    fn handle_message(&mut self, message: WindowMessage) -> (r: WindowMessageResponse) {
        match self {
            WindowBox::LockScreen(w) => w.handle_message(message),
            WindowBox::Window(w) => w.handle_message(message),
            WindowBox::DesktopBackground(w) => w.handle_message(message),
            WindowBox::Taskbar(w) => w.handle_message(message),
            WindowBox::StartMenu(w) => w.handle_message(message),
            WindowBox::WorkspaceIndicator(w) => w.handle_message(message),
        }
    }

    fn title(&self) -> (r: &'static str) {
        match self {
            WindowBox::LockScreen(w) => w.title(),
            WindowBox::Window(w) => w.title(),
            WindowBox::DesktopBackground(w) => w.title(),
            WindowBox::Taskbar(w) => w.title(),
            WindowBox::StartMenu(w) => w.title(),
            WindowBox::WorkspaceIndicator(w) => w.title(),
        }
    }

    fn resizable(&self) -> bool {
        false
    }

    fn subtype(&self) -> (r: WindowLikeType) {
        match self {
            WindowBox::LockScreen(_) => WindowLikeType::LockScreen,
            WindowBox::Window(_) => WindowLikeType::Window,
            WindowBox::DesktopBackground(_) => WindowLikeType::DesktopBackground,
            WindowBox::Taskbar(_) => WindowLikeType::Taskbar,
            WindowBox::StartMenu(_) => WindowLikeType::StartMenu,
            WindowBox::WorkspaceIndicator(_) => WindowLikeType::WorkspaceIndicator,
        }
    }

    fn draw(&self, theme_info: &ThemeInfo) -> (r: Vec<DrawInstructions>) {
        match self {
            WindowBox::LockScreen(w) => w.draw(theme_info),
            WindowBox::Window(w) => w.draw(theme_info),
            WindowBox::DesktopBackground(w) => w.draw(theme_info),
            WindowBox::Taskbar(w) => w.draw(theme_info),
            WindowBox::StartMenu(w) => w.draw(theme_info),
            WindowBox::WorkspaceIndicator(w) => w.draw(theme_info),
        }
    }

    fn ideal_dimensions(&self, dimensions: Dimensions) -> (r: Dimensions) {
        match self {
            WindowBox::LockScreen(w) => w.ideal_dimensions(dimensions),
            WindowBox::Window(w) => w.ideal_dimensions(dimensions),
            WindowBox::DesktopBackground(w) => w.ideal_dimensions(dimensions),
            WindowBox::Taskbar(w) => w.ideal_dimensions(dimensions),
            WindowBox::StartMenu(w) => w.ideal_dimensions(dimensions),
            WindowBox::WorkspaceIndicator(w) => w.ideal_dimensions(dimensions),
        }
    }
}

/// Where a surface is visible: everywhere, or in one numbered workspace.
#[derive(Clone, Copy, Debug, PartialEq, Eq, Structural)]
pub enum Workspace {
    All,
    Workspace(u8),
}

/// One surface owned by the compositor, with its place on the screen.
pub struct WindowLikeInfo {
    pub id: usize,
    pub window_like: WindowBox,
    pub top_left: Point,
    pub dimensions: Dimensions,
    pub workspace: Workspace,
}

impl WindowLikeInfo {
    pub open spec fn kind(&self) -> WindowLikeType {
        self.window_like.kind()
    }

    /// Everything about the entry but the surface's own state.
    pub open spec fn layout(&self) -> EntryLayout {
        EntryLayout {
            id: self.id,
            kind: self.kind(),
            top_left: self.top_left,
            dimensions: self.dimensions,
            workspace: self.workspace,
        }
    }
}

/// The compositor's view of one entry: its id, kind, place and workspace.
pub struct EntryLayout {
    pub id: usize,
    pub kind: WindowLikeType,
    pub top_left: Point,
    pub dimensions: Dimensions,
    pub workspace: Workspace,
}

/// The workspace tag that an entry of kind `kind` gets when it is opened
/// while `current` is the active workspace.
pub open spec fn workspace_for(kind: WindowLikeType, current: u8) -> Workspace {
    if kind == WindowLikeType::Window {
        Workspace::Workspace(current)
    } else {
        Workspace::All
    }
}

/// Whether an entry tagged `workspace` shows while `current` is active;
/// surfaces of every workspace show only if `include_all`.
pub open spec fn visible_in(workspace: Workspace, current: u8, include_all: bool) -> bool {
    match workspace {
        Workspace::Workspace(w) => w == current,
        Workspace::All => include_all,
    }
}

/// Ids in `1..=id_count`, all different, and ordinary windows (only they)
/// tagged with an existing workspace.
pub open spec fn layouts_wf(ls: Seq<EntryLayout>, id_count: usize) -> bool {
    &&& forall|i: int| 0 <= i < ls.len() ==> 1 <= #[trigger] ls[i].id <= id_count
    &&& forall|i: int, j: int|
        0 <= i < ls.len() && 0 <= j < ls.len() && i != j ==> #[trigger] ls[i].id != #[trigger] ls[j].id
    &&& forall|i: int| 0 <= i < ls.len() ==> #[trigger] entry_workspace_ok(ls[i])
}

/// The smaller of two sizes.
pub fn min(one: usize, two: usize) -> (r: usize)
    ensures
        r == if one > two {
            two
        } else {
            one
        },
{
    if one > two {
        two
    } else {
        one
    }
}

/// What is drawn when the system stops on a fatal error: a green strip in
/// the top-left corner with `message` on it.
pub fn draw_panic(message: &str) -> (r: Vec<DrawInstructions>)
    ensures
        r@.len() == 2,
        r@[0] == DrawInstructions::Rect([0usize, 0usize], [200usize, 10usize], [0u8, 255u8, 0u8]),
        r@[1] matches DrawInstructions::Text(p, font, text, ink, paper) && p == [0usize, 0usize] && text@
            == message@ && ink == [0u8, 0u8, 0u8] && paper == [0u8, 255u8, 0u8],
{
    let text = message.to_string();
    vec![
        DrawInstructions::Rect([0, 0], [200, 10], [0, 255, 0]),
        DrawInstructions::Text([0, 0], DEFAULT_FONT, text, [0, 0, 0], [0, 255, 0]),
    ]
}

/// The entries of a freshly unlocked desktop on a screen of size `screen`,
/// numbered after `id_count`: the background below the indicator, the
/// taskbar along the bottom, the indicator along the top.
pub open spec fn desktop_layouts(id_count: usize, screen: Dimensions) -> Seq<EntryLayout> {
    seq![
        EntryLayout {
            id: (id_count + 1) as usize,
            kind: WindowLikeType::DesktopBackground,
            top_left: [0usize, INDICATOR_HEIGHT],
            dimensions: [screen[0], sat_sub(screen[1], (TASKBAR_HEIGHT + INDICATOR_HEIGHT) as int)],
            workspace: Workspace::All,
        },
        EntryLayout {
            id: (id_count + 2) as usize,
            kind: WindowLikeType::Taskbar,
            top_left: [0usize, sat_sub(screen[1], TASKBAR_HEIGHT as int)],
            dimensions: [screen[0], TASKBAR_HEIGHT],
            workspace: Workspace::All,
        },
        EntryLayout {
            id: (id_count + 3) as usize,
            kind: WindowLikeType::WorkspaceIndicator,
            top_left: [0usize, 0usize],
            dimensions: [screen[0], INDICATOR_HEIGHT],
            workspace: Workspace::All,
        },
    ]
}

/// Whether `ls` is the entries of `o` with its start menu, if it has one,
/// taken out and the rest kept in order.
pub open spec fn closes_start_menu(o: WindowManager, ls: Seq<EntryLayout>) -> bool {
    &&& o.count_of(WindowLikeType::StartMenu) == 0 ==> ls == o.layouts()
    &&& o.count_of(WindowLikeType::StartMenu) > 0 ==> exists|idx: int|
        0 <= idx < o.layouts().len() && o.layouts()[idx].kind == WindowLikeType::StartMenu && ls
            == o.layouts().remove(idx)
}

/// Where an entry of kind `kind` and size `size` opens on a screen of size
/// `screen`: a start menu just above the taskbar at the left edge, an
/// ordinary window at `[42, 42]`.
pub open spec fn open_position(kind: WindowLikeType, screen: Dimensions, size: Dimensions) -> Point {
    if kind == WindowLikeType::StartMenu {
        [0usize, sat_sub(sat_sub(screen[1], TASKBAR_HEIGHT as int), size[1] as int)]
    } else {
        [42usize, 42usize]
    }
}

/// What carrying out `request` does to `o`, leaving `f`. Nothing at all
/// once the id counter is nearly exhausted, or for a request that its
/// sender (the focused entry) may not make.
pub open spec fn request_outcome(o: WindowManager, f: WindowManager, request: WindowManagerRequest) -> bool {
    let ready = o.id_count <= usize::MAX - 3;
    &&& f.wf()
    &&& f.id_count >= o.id_count
    &&& f.dimensions == o.dimensions
    &&& f.theme == o.theme
    &&& f.held_special_keys == o.held_special_keys
    &&& f.current_workspace == o.current_workspace
    &&& !ready ==> f == o
    &&& !(request is Lock) && !(request is Unlock) ==> f.locked == o.locked
    &&& (request is OpenWindow && !may_open(o.sender())) ==> f == o
    &&& (request is OpenWindow && !openable(request->OpenWindow_0.kind())) ==> f == o
    &&& (request is OpenWindow && may_open(o.sender()) && openable(request->OpenWindow_0.kind()) && ready) ==> {
        let w = request->OpenWindow_0;
        let size = w.ideal(o.dimensions);
        &&& f.id_count == o.id_count + 1
        &&& f.focused_id == Some(f.id_count)
        &&& f.layouts().len() > 0
        &&& f.layouts().last() == (EntryLayout {
            id: f.id_count,
            kind: w.kind(),
            top_left: open_position(w.kind(), o.dimensions, size),
            dimensions: size,
            workspace: workspace_for(w.kind(), o.current_workspace),
        })
        &&& closes_start_menu(o, f.layouts().drop_last())
        &&& !f.locked
        &&& taskbar_current(f)
    }
    &&& (request is CloseStartMenu && !may_open(o.sender())) ==> f == o
    &&& (request is CloseStartMenu && may_open(o.sender()) && ready) ==> {
        &&& closes_start_menu(o, f.layouts())
        &&& f.count_of(WindowLikeType::StartMenu) == 0
        &&& f.id_count == o.id_count
        &&& o.sender() == Some(WindowLikeType::Taskbar) ==> f.focused_id == o.focused_id
    }
    &&& (request is Unlock && o.sender() != Some(WindowLikeType::LockScreen)) ==> f == o
    &&& (request is Unlock && o.sender() == Some(WindowLikeType::LockScreen) && ready) ==> {
        &&& !f.locked
        &&& f.layouts() == desktop_layouts(o.id_count, o.dimensions)
        &&& f.kinds() == seq![
            WindowLikeType::DesktopBackground,
            WindowLikeType::Taskbar,
            WindowLikeType::WorkspaceIndicator,
        ]
        &&& f.id_count == o.id_count + 3
        &&& f.focused_id == Some(f.id_count)
    }
    &&& (request is Lock && o.sender() != Some(WindowLikeType::StartMenu)) ==> f == o
    &&& (request is Lock && o.sender() == Some(WindowLikeType::StartMenu) && ready) ==> {
        &&& f.locked
        &&& f.kinds() == seq![WindowLikeType::LockScreen]
        &&& f.layouts() == seq![
            EntryLayout {
                id: f.id_count,
                kind: WindowLikeType::LockScreen,
                top_left: [0usize, 0usize],
                dimensions: o.dimensions,
                workspace: Workspace::All,
            },
        ]
        &&& f.focused_id == Some(f.id_count)
    }
}

/// Whether `ws` lists, by strictly ascending id, the ordinary windows of the
/// active workspace of `o` with their titles, each once and nothing else.
pub open spec fn lists_workspace_windows(o: WindowManager, ws: Seq<(usize, &'static str)>) -> bool {
    &&& ids_strictly_ascending(ws)
    &&& forall|x: int| 0 <= x < ws.len() ==> #[trigger] o.shows_window(ws[x])
    &&& forall|j: int|
        0 <= j < o.layouts().len() && visible_in(#[trigger] o.layouts()[j].workspace, o.current_workspace, false)
            ==> exists|x: int| 0 <= x < ws.len() && ws[x].0 == o.layouts()[j].id
}

/// Whether the taskbar of `f` shows the window list of the active
/// workspace and the focused id.
pub open spec fn taskbar_current(f: WindowManager) -> bool {
    exists|k: int|
        0 <= k < f.window_infos@.len() && f.layouts()[k].kind == WindowLikeType::Taskbar && (
        f.window_infos@[k].window_like matches WindowBox::Taskbar(t) && lists_workspace_windows(f, t.windows@)
            && t.focused_id == f.focused_id)
}

/// Whether a request to open a window may come from a sender of this kind.
pub open spec fn may_open(sender: Option<WindowLikeType>) -> bool {
    sender == Some(WindowLikeType::Taskbar) || sender == Some(WindowLikeType::StartMenu)
}

/// Whether a surface of this kind may be opened on request.
pub open spec fn openable(kind: WindowLikeType) -> bool {
    kind == WindowLikeType::Window || kind == WindowLikeType::StartMenu
}

/// Whether the ids of `list` strictly increase.
pub open spec fn ids_strictly_ascending(list: Seq<(usize, &'static str)>) -> bool {
    forall|a: int, b: int| 0 <= a < b < list.len() ==> (#[trigger] list[a]).0 < (#[trigger] list[b]).0
}

/// Whether `list` holds the items of `items` and no others.
pub open spec fn same_items(list: Seq<(usize, &'static str)>, items: Seq<(usize, &'static str)>) -> bool {
    &&& forall|x: int| 0 <= x < list.len() ==> items.contains(#[trigger] list[x])
    &&& forall|q: int| 0 <= q < items.len() ==> list.contains(#[trigger] items[q])
}

/// Inserting an item anywhere adds it to the items held.
proof fn lemma_insert_same_items(
    before: Seq<(usize, &'static str)>,
    items: Seq<(usize, &'static str)>,
    p: int,
    item: (usize, &'static str),
)
    requires
        0 <= p <= before.len(),
        same_items(before, items),
    ensures
        same_items(before.insert(p, item), items.push(item)),
{
    let after = before.insert(p, item);
    let items2 = items.push(item);
    assert forall|x: int| 0 <= x < after.len() implies items2.contains(#[trigger] after[x]) by {
        if x < p {
            assert(after[x] == before[x]);
            let q = choose|q: int| 0 <= q < items.len() && items[q] == before[x];
            assert(items2[q] == items[q]);
        } else if x == p {
            assert(items2[items.len() as int] == item);
        } else {
            assert(after[x] == before[x - 1]);
            let q = choose|q: int| 0 <= q < items.len() && items[q] == before[x - 1];
            assert(items2[q] == items[q]);
        }
    }
    assert forall|q: int| 0 <= q < items2.len() implies after.contains(#[trigger] items2[q]) by {
        if q == items.len() {
            assert(after[p] == item);
        } else {
            assert(items2[q] == items[q]);
            let x = choose|x: int| 0 <= x < before.len() && before[x] == items[q];
            if x < p {
                assert(after[x] == items[q]);
            } else {
                assert(after[x + 1] == items[q]);
            }
        }
    }
}

/// Puts `item` into `list` where its id keeps the ids ascending.
fn insert_by_id(list: &mut Vec<(usize, &'static str)>, item: (usize, &'static str))
    requires
        ids_strictly_ascending(old(list)@),
        forall|x: int| 0 <= x < old(list)@.len() ==> (#[trigger] old(list)@[x]).0 != item.0,
    ensures
        ids_strictly_ascending(final(list)@),
        exists|p: int| 0 <= p <= old(list)@.len() && final(list)@ == old(list)@.insert(p, item),
{
    let mut p: usize = 0;
    while p < list.len() && list[p].0 < item.0
        invariant
            p <= list@.len(),
            list@ == old(list)@,
            forall|q: int| 0 <= q < p ==> (#[trigger] list@[q]).0 < item.0,
        decreases list@.len() - p,
    {
        p = p + 1;
    }
    let ghost before = list@;
    list.insert(p, item);
    proof {
        assert forall|q: int| p <= q < before.len() implies item.0 < (#[trigger] before[q]).0 by {
            assert(before[p as int].0 <= before[q].0);
            assert(before[q].0 != item.0);
        }
        assert forall|a: int, b: int| 0 <= a < b < list@.len() implies (#[trigger] list@[a]).0
            < (#[trigger] list@[b]).0 by {
            let oa = if a < p { a } else if a == p { -1 } else { a - 1 };
            let ob = if b < p { b } else if b == p { -1 } else { b - 1 };
            if a != p && b != p {
                assert(list@[a] == before[oa]);
                assert(list@[b] == before[ob]);
            } else if a == p {
                assert(list@[b] == before[ob]);
            } else {
                assert(list@[a] == before[oa]);
            }
        }
    }
}

/// Ordinary windows, and only they, carry a workspace number, and it exists.
pub open spec fn entry_workspace_ok(l: EntryLayout) -> bool {
    &&& (l.kind == WindowLikeType::Window) == (l.workspace is Workspace)
    &&& l.workspace matches Workspace::Workspace(n) ==> n < WORKSPACE_COUNT
}

/// The compositor: it owns every surface, in paint order (the last paints
/// on top), and tracks focus, held modifiers, the lock and the workspace.
pub struct WindowManager {
    pub id_count: usize,
    pub window_infos: Vec<WindowLikeInfo>,
    pub dimensions: Dimensions,
    pub theme: crate::themes::Themes,
    pub focused_id: Option<usize>,
    pub held_special_keys: Vec<&'static str>,
    pub locked: bool,
    pub current_workspace: u8,
}

impl WindowManager {
    /// The entries in paint order, without the surfaces' own state.
    pub open spec fn layouts(&self) -> Seq<EntryLayout> {
        self.window_infos@.map_values(|w: WindowLikeInfo| w.layout())
    }

    /// The kinds of the entries in paint order.
    pub open spec fn kinds(&self) -> Seq<WindowLikeType> {
        self.layouts().map_values(|l: EntryLayout| l.kind)
    }

    /// How many entries are of kind `k`.
    pub open spec fn count_of(&self, k: WindowLikeType) -> nat {
        self.kinds().to_multiset().count(k)
    }

    /// Whether an ordinary window of the active workspace has the id and
    /// title of `item`.
    pub open spec fn shows_window(&self, item: (usize, &'static str)) -> bool {
        exists|j: int|
            0 <= j < self.layouts().len() && #[trigger] self.layouts()[j].id == item.0 && visible_in(
                self.layouts()[j].workspace,
                self.current_workspace,
                false,
            ) && self.window_infos@[j].window_like.spec_title() == item.1
    }

    /// Whether some entry has id `id`.
    pub open spec fn has_id(&self, id: usize) -> bool {
        exists|i: int| 0 <= i < self.layouts().len() && #[trigger] self.layouts()[i].id == id
    }

    /// Whether entry `i` is the focused one.
    pub open spec fn is_focused_index(&self, i: int) -> bool {
        &&& 0 <= i < self.layouts().len()
        &&& self.focused_id == Some(self.layouts()[i].id)
    }

    /// The kind of the focused entry: the sender of any request.
    pub open spec fn sender(&self) -> Option<WindowLikeType> {
        if exists|i: int| self.is_focused_index(i) {
            Some(self.layouts()[choose|i: int| self.is_focused_index(i)].kind)
        } else {
            None
        }
    }

    /// The entry set of a locked system: one lock screen and nothing else.
    pub open spec fn locked_shape(&self) -> bool {
        self.kinds() == seq![WindowLikeType::LockScreen]
    }

    /// The entry set of an unlocked system: one background, one taskbar and
    /// one workspace indicator, no lock screen, and at most one start menu.
    pub open spec fn unlocked_shape(&self) -> bool {
        &&& self.count_of(WindowLikeType::DesktopBackground) == 1
        &&& self.count_of(WindowLikeType::Taskbar) == 1
        &&& self.count_of(WindowLikeType::WorkspaceIndicator) == 1
        &&& self.count_of(WindowLikeType::LockScreen) == 0
        &&& self.count_of(WindowLikeType::StartMenu) <= 1
    }

    /// The compositor's invariant.
    pub open spec fn wf(&self) -> bool {
        &&& self.current_workspace < WORKSPACE_COUNT
        &&& layouts_wf(self.layouts(), self.id_count)
        &&& self.focused_id matches Some(f) ==> self.has_id(f)
        &&& self.locked ==> self.locked_shape()
        &&& !self.locked ==> self.unlocked_shape()
    }

    /// Whether `other` differs from `self` at most in the surfaces' own state.
    pub open spec fn same_but_surfaces(&self, other: &WindowManager) -> bool {
        &&& other.layouts() == self.layouts()
        &&& other.id_count == self.id_count
        &&& other.dimensions == self.dimensions
        &&& other.theme == self.theme
        &&& other.focused_id == self.focused_id
        &&& other.held_special_keys == self.held_special_keys
        &&& other.locked == self.locked
        &&& other.current_workspace == self.current_workspace
    }

    /// A compositor with no surfaces yet; `init` gives it a screen.
    pub fn new() -> (r: Self)
        ensures
            r.id_count == 0,
            r.window_infos@.len() == 0,
            r.focused_id is None,
            r.held_special_keys@.len() == 0,
            r.current_workspace == 0,
    {
        WindowManager {
            id_count: 0,
            window_infos: Vec::new(),
            dimensions: [0, 0],
            theme: crate::themes::Themes::Standard,
            focused_id: None,
            held_special_keys: Vec::new(),
            locked: false,
            current_workspace: 0,
        }
    }

    /// Takes the screen size and starts locked.
    pub fn init(&mut self, dimensions: Dimensions)
        requires
            old(self).id_count < usize::MAX,
            old(self).current_workspace < WORKSPACE_COUNT,
        ensures
            final(self).wf(),
            final(self).locked,
            final(self).dimensions == dimensions,
            final(self).id_count == old(self).id_count + 1,
            final(self).kinds() == seq![WindowLikeType::LockScreen],
            final(self).layouts() == seq![
                EntryLayout {
                    id: final(self).id_count,
                    kind: WindowLikeType::LockScreen,
                    top_left: [0usize, 0usize],
                    dimensions,
                    workspace: Workspace::All,
                },
            ],
            final(self).focused_id == Some(final(self).id_count),
    {
        self.dimensions = dimensions;
        self.lock();
    }

    /// Opens `window_like` as a new topmost entry at `top_left`, at the given
    /// size or else the size it asks for, and focuses it. Ordinary windows
    /// go to the active workspace, other kinds to every workspace.
    pub fn add_window_like(&mut self, window_like: WindowBox, top_left: Point, dimensions: Option<Dimensions>)
        requires
            old(self).id_count < usize::MAX,
        ensures
            final(self).id_count == old(self).id_count + 1,
            final(self).focused_id == Some(final(self).id_count),
            final(self).layouts() == old(self).layouts().push(
                EntryLayout {
                    id: final(self).id_count,
                    kind: window_like.kind(),
                    top_left,
                    dimensions: match dimensions {
                        Some(d) => d,
                        None => window_like.ideal(old(self).dimensions),
                    },
                    workspace: workspace_for(window_like.kind(), old(self).current_workspace),
                },
            ),
            final(self).kinds() == old(self).kinds().push(window_like.kind()),
            window_like.handles(
                WindowMessage::Init(final(self).layouts().last().dimensions),
                final(self).window_infos@.last().window_like,
                WindowMessageResponse::JustRerender,
            ),
            final(self).window_infos@.last().window_like.size() == final(self).layouts().last().dimensions,
            forall|i: int| 0 <= i < old(self).window_infos@.len() ==> final(self).window_infos@[i] == old(self).window_infos@[i],
            final(self).dimensions == old(self).dimensions,
            final(self).locked == old(self).locked,
            final(self).current_workspace == old(self).current_workspace,
            final(self).held_special_keys == old(self).held_special_keys,
            final(self).theme == old(self).theme,
            old(self).wf() && !old(self).locked && (window_like.kind() == WindowLikeType::Window || (
            window_like.kind() == WindowLikeType::StartMenu && old(self).count_of(WindowLikeType::StartMenu) == 0))
                ==> final(self).wf(),
    {
        let mut window_like = window_like;
        let subtype = window_like.subtype();
        let dimensions = match dimensions {
            Some(d) => d,
            None => window_like.ideal_dimensions(self.dimensions),
        };
        self.id_count = self.id_count + 1;
        let id = self.id_count;
        self.focused_id = Some(id);
        let ghost before = window_like;
        let init_answer = window_like.handle_message(WindowMessage::Init(dimensions));
        assert(init_answer is JustRerender);
        let workspace = if subtype == WindowLikeType::Window {
            Workspace::Workspace(self.current_workspace)
        } else {
            Workspace::All
        };
        let ghost old_infos = self.window_infos@;
        self.window_infos.push(WindowLikeInfo { id, window_like, top_left, dimensions, workspace });
        proof {
            let ls = self.layouts();
            let ol = old(self).layouts();
            assert(ls =~= ol.push(self.window_infos@.last().layout()));
            assert(self.kinds() =~= old(self).kinds().push(subtype));
            assert(ls[ol.len() as int].id == id);
            if old(self).wf() {
                assert forall|i: int| 0 <= i < ls.len() implies 1 <= #[trigger] ls[i].id <= self.id_count by {
                    if i < ol.len() {
                        assert(ls[i] == ol[i]);
                    }
                }
                assert forall|i: int, j: int|
                    0 <= i < ls.len() && 0 <= j < ls.len() && i != j implies #[trigger] ls[i].id
                    != #[trigger] ls[j].id by {
                    if i < ol.len() {
                        assert(ls[i] == ol[i]);
                    }
                    if j < ol.len() {
                        assert(ls[j] == ol[j]);
                    }
                }
                assert forall|i: int| 0 <= i < ls.len() implies #[trigger] entry_workspace_ok(ls[i]) by {
                    if i < ol.len() {
                        assert(ls[i] == ol[i]);
                    }
                }
            }
        }
    }

    /// The position of the focused entry, if focus names one.
    pub(crate) fn get_focused_index(&self) -> (r: Option<usize>)
        ensures
            r matches Some(i) ==> self.is_focused_index(i as int),
            r is None ==> forall|i: int| !self.is_focused_index(i),
    {
        match self.focused_id {
            None => None,
            Some(f) => {
                let mut i: usize = 0;
                while i < self.window_infos.len()
                    invariant
                        i <= self.window_infos@.len(),
                        self.focused_id == Some(f),
                        forall|j: int| 0 <= j < i ==> self.window_infos@[j].id != f,
                    decreases self.window_infos@.len() - i,
                {
                    if self.window_infos[i].id == f {
                        return Some(i);
                    }
                    i = i + 1;
                }
                None
            },
        }
    }

    /// The position of the first entry of kind `kind`, if there is one.
    pub(crate) fn position_of_kind(&self, kind: WindowLikeType) -> (r: Option<usize>)
        ensures
            r matches Some(i) ==> i < self.window_infos@.len() && self.window_infos@[i as int].kind() == kind,
            r is None ==> !self.kinds().contains(kind),
            r is None ==> self.count_of(kind) == 0,
            r is Some ==> self.count_of(kind) > 0,
    {
        let mut i: usize = 0;
        while i < self.window_infos.len()
            invariant
                i <= self.window_infos@.len(),
                forall|j: int| 0 <= j < i ==> self.window_infos@[j].kind() != kind,
            decreases self.window_infos@.len() - i,
        {
            if self.window_infos[i].window_like.subtype() == kind {
                assert(self.kinds()[i as int] == kind);
                assert(self.kinds().contains(kind));
                return Some(i);
            }
            i = i + 1;
        }
        proof {
            assert forall|j: int| 0 <= j < self.kinds().len() implies self.kinds()[j] != kind by {
                assert(self.window_infos@[j].kind() != kind);
            }
        }
        None
    }

    /// Replaces every entry with a single full-screen lock screen.
    pub fn lock(&mut self)
        requires
            old(self).id_count < usize::MAX,
            old(self).current_workspace < WORKSPACE_COUNT,
        ensures
            final(self).wf(),
            final(self).locked,
            final(self).kinds() == seq![WindowLikeType::LockScreen],
            final(self).layouts() == seq![
                EntryLayout {
                    id: (old(self).id_count + 1) as usize,
                    kind: WindowLikeType::LockScreen,
                    top_left: [0usize, 0usize],
                    dimensions: old(self).dimensions,
                    workspace: Workspace::All,
                },
            ],
            final(self).id_count == old(self).id_count + 1,
            final(self).focused_id == Some(final(self).id_count),
            final(self).dimensions == old(self).dimensions,
            final(self).current_workspace == old(self).current_workspace,
            final(self).held_special_keys == old(self).held_special_keys,
            final(self).theme == old(self).theme,
    {
        self.locked = true;
        self.window_infos = Vec::new();
        assert(self.layouts() =~= Seq::<EntryLayout>::empty());
        assert(self.kinds() =~= Seq::<WindowLikeType>::empty());
        self.add_window_like(WindowBox::LockScreen(LockScreen::new()), [0, 0], None);
        proof {
            assert(self.kinds() =~= seq![WindowLikeType::LockScreen]);
            assert(self.layouts()[0] == self.window_infos@[0].layout());
            assert(self.layouts()[0].id == self.id_count);
            assert(self.has_id(self.id_count));
            assert(self.layouts() =~= seq![self.window_infos@[0].layout()]);
        }
    }

    /// Replaces every entry with the desktop: background, taskbar and
    /// workspace indicator, each shown in every workspace.
    pub fn unlock(&mut self)
        requires
            old(self).id_count + 3 <= usize::MAX,
            old(self).current_workspace < WORKSPACE_COUNT,
        ensures
            final(self).wf(),
            !final(self).locked,
            final(self).kinds() == seq![
                WindowLikeType::DesktopBackground,
                WindowLikeType::Taskbar,
                WindowLikeType::WorkspaceIndicator,
            ],
            final(self).layouts() == desktop_layouts(old(self).id_count, old(self).dimensions),
            forall|i: int| 0 <= i < 3 ==> (#[trigger] final(self).window_infos@[i]).workspace == Workspace::All,
            final(self).id_count == old(self).id_count + 3,
            final(self).focused_id == Some(final(self).id_count),
            final(self).dimensions == old(self).dimensions,
            final(self).current_workspace == old(self).current_workspace,
            final(self).held_special_keys == old(self).held_special_keys,
            final(self).theme == old(self).theme,
    {
        self.locked = false;
        self.window_infos = Vec::new();
        assert(self.layouts() =~= Seq::<EntryLayout>::empty());
        assert(self.kinds() =~= Seq::<WindowLikeType>::empty());
        self.add_window_like(
            WindowBox::DesktopBackground(DesktopBackground::new()),
            [0, INDICATOR_HEIGHT],
            None,
        );
        assert(self.layouts().len() == 1);
        self.add_window_like(
            WindowBox::Taskbar(Taskbar::new()),
            [0, self.dimensions[1].saturating_sub(TASKBAR_HEIGHT)],
            None,
        );
        assert(self.layouts().len() == 2);
        self.add_window_like(WindowBox::WorkspaceIndicator(WorkspaceIndicator::new()), [0, 0], None);
        assert(self.layouts().len() == 3);
        assert(self.window_infos@.len() == 3);
        proof {
            assert forall|i: int| 0 <= i < 3 implies (#[trigger] self.window_infos@[i]).workspace
                == Workspace::All && 1 <= self.window_infos@[i].id <= self.id_count by {
                assert(self.layouts()[i] == self.window_infos@[i].layout());
            }
            assert(self.layouts()[0] == self.window_infos@[0].layout());
            assert(self.layouts()[1] == self.window_infos@[1].layout());
            assert(self.layouts() =~= desktop_layouts(old(self).id_count, old(self).dimensions));
            let ks = self.kinds();
            assert(ks =~= seq![
                WindowLikeType::DesktopBackground,
                WindowLikeType::Taskbar,
                WindowLikeType::WorkspaceIndicator,
            ]);
            assert(ks =~= seq![WindowLikeType::DesktopBackground].push(WindowLikeType::Taskbar).push(
                WindowLikeType::WorkspaceIndicator,
            ));
            assert(seq![WindowLikeType::DesktopBackground] =~= Seq::<WindowLikeType>::empty().push(
                WindowLikeType::DesktopBackground,
            ));
            assert(self.layouts()[2] == self.window_infos@[2].layout());
            assert(self.layouts()[2].id == self.id_count);
            assert(self.has_id(self.id_count));
        }
    }

    /// Only one entry can be the focused one, and it is the sender.
    pub proof fn lemma_focused_sender(&self, i: int)
        requires
            layouts_wf(self.layouts(), self.id_count),
            self.is_focused_index(i),
        ensures
            self.sender() == Some(self.layouts()[i].kind),
            forall|j: int| #[trigger] self.is_focused_index(j) ==> j == i,
    {
        let c = choose|j: int| self.is_focused_index(j);
        assert(self.is_focused_index(c));
        assert(self.layouts()[c].id == self.layouts()[i].id);
    }

    /// Sends `message` to the surface of entry `i` and returns its answer.
    pub(crate) fn message_entry(&mut self, i: usize, message: WindowMessage) -> (r: WindowMessageResponse)
        requires
            i < old(self).window_infos@.len(),
        ensures
            old(self).same_but_surfaces(final(self)),
            final(self).window_infos@.len() == old(self).window_infos@.len(),
            forall|j: int| 0 <= j < old(self).window_infos@.len() && j != i ==> final(self).window_infos@[j]
                == old(self).window_infos@[j],
            old(self).window_infos@[i as int].window_like.handles(
                message,
                final(self).window_infos@[i as int].window_like,
                r,
            ),
    {
        let r = self.window_infos[i].window_like.handle_message(message);
        proof {
            assert forall|j: int| 0 <= j < self.window_infos@.len() implies self.window_infos@[j].layout()
                == old(self).window_infos@[j].layout() by {}
            assert(self.layouts() =~= old(self).layouts());
        }
        r
    }

    /// Removes entry `i`; focus on it is dropped.
    pub(crate) fn remove_entry(&mut self, i: usize)
        requires
            i < old(self).window_infos@.len(),
        ensures
            final(self).layouts() == old(self).layouts().remove(i as int),
            final(self).kinds() == old(self).kinds().remove(i as int),
            final(self).focused_id == if old(self).focused_id == Some(old(self).layouts()[i as int].id) {
                None
            } else {
                old(self).focused_id
            },
            final(self).id_count == old(self).id_count,
            final(self).dimensions == old(self).dimensions,
            final(self).theme == old(self).theme,
            final(self).held_special_keys == old(self).held_special_keys,
            final(self).locked == old(self).locked,
            final(self).current_workspace == old(self).current_workspace,
            old(self).wf() && !old(self).locked && (old(self).kinds()[i as int] == WindowLikeType::Window
                || old(self).kinds()[i as int] == WindowLikeType::StartMenu) ==> final(self).wf(),
    {
        let removed = self.window_infos.remove(i);
        if self.focused_id == Some(removed.id) {
            self.focused_id = None;
        }
        proof {
            let ls = self.layouts();
            let ol = old(self).layouts();
            assert(ls =~= ol.remove(i as int));
            assert(self.kinds() =~= old(self).kinds().remove(i as int));
            if old(self).wf() {
                assert forall|a: int| 0 <= a < ls.len() implies 1 <= #[trigger] ls[a].id <= self.id_count by {
                    if a < i {
                        assert(ls[a] == ol[a]);
                    } else {
                        assert(ls[a] == ol[a + 1]);
                    }
                }
                assert forall|a: int, b: int|
                    0 <= a < ls.len() && 0 <= b < ls.len() && a != b implies #[trigger] ls[a].id
                    != #[trigger] ls[b].id by {
                    let oa = if a < i { a } else { a + 1 };
                    let ob = if b < i { b } else { b + 1 };
                    assert(ls[a] == ol[oa]);
                    assert(ls[b] == ol[ob]);
                }
                assert forall|a: int| 0 <= a < ls.len() implies #[trigger] entry_workspace_ok(ls[a]) by {
                    if a < i {
                        assert(ls[a] == ol[a]);
                    } else {
                        assert(ls[a] == ol[a + 1]);
                    }
                }
                if let Some(f) = self.focused_id {
                    let k = choose|k: int| 0 <= k < ol.len() && #[trigger] ol[k].id == f;
                    assert(k != i);
                    let nk = if k < i { k } else { k - 1 };
                    assert(ls[nk] == ol[k]);
                    assert(self.has_id(f));
                }
            }
        }
    }

    /// Moves entry `index` to the end of the paint order, on top of the rest.
    pub(crate) fn move_index_to_top(&mut self, index: usize)
        requires
            index < old(self).window_infos@.len(),
        ensures
            final(self).layouts() == old(self).layouts().remove(index as int).push(
                old(self).layouts()[index as int],
            ),
            final(self).window_infos@ == old(self).window_infos@.remove(index as int).push(
                old(self).window_infos@[index as int],
            ),
            final(self).focused_id == old(self).focused_id,
            final(self).id_count == old(self).id_count,
            final(self).dimensions == old(self).dimensions,
            final(self).theme == old(self).theme,
            final(self).held_special_keys == old(self).held_special_keys,
            final(self).locked == old(self).locked,
            final(self).current_workspace == old(self).current_workspace,
            old(self).wf() ==> final(self).wf(),
    {
        let removed = self.window_infos.remove(index);
        self.window_infos.push(removed);
        proof {
            let ls = self.layouts();
            let ol = old(self).layouts();
            let n = ol.len() as int;
            let i = index as int;
            assert(ls =~= ol.remove(i).push(ol[i]));
            assert(self.kinds() =~= old(self).kinds().remove(i).push(old(self).kinds()[i]));
            assert(old(self).kinds().remove(i).push(old(self).kinds()[i]).to_multiset() =~= old(self).kinds().to_multiset());
            if old(self).wf() {
                let src = |a: int| if a == n - 1 { i } else if a < i { a } else { a + 1 };
                assert forall|a: int| 0 <= a < ls.len() implies ls[a] == ol[src(a)] by {}
                assert forall|a: int| 0 <= a < ls.len() implies 1 <= #[trigger] ls[a].id <= self.id_count by {
                    assert(ls[a] == ol[src(a)]);
                }
                assert forall|a: int, b: int|
                    0 <= a < ls.len() && 0 <= b < ls.len() && a != b implies #[trigger] ls[a].id
                    != #[trigger] ls[b].id by {
                    assert(ls[a] == ol[src(a)]);
                    assert(ls[b] == ol[src(b)]);
                }
                assert forall|a: int| 0 <= a < ls.len() implies #[trigger] entry_workspace_ok(ls[a]) by {
                    assert(ls[a] == ol[src(a)]);
                }
                if let Some(f) = self.focused_id {
                    let k = choose|k: int| 0 <= k < ol.len() && #[trigger] ol[k].id == f;
                    let nk = if k == i { n - 1 } else if k < i { k } else { k - 1 };
                    assert(ls[nk] == ol[k]);
                    assert(self.has_id(f));
                }
                if self.locked {
                    assert(self.kinds() =~= old(self).kinds());
                }
            }
        }
    }


    /// The positions, in paint order, of the ordinary windows of the active
    /// workspace, and of the surfaces shown everywhere if `include_non_window`.
    fn get_windows_in_workspace(&self, include_non_window: bool) -> (r: Vec<usize>)
        ensures
            forall|k: int| 0 <= k < r@.len() ==> {
                &&& #[trigger] r@[k] < self.layouts().len()
                &&& visible_in(self.layouts()[r@[k] as int].workspace, self.current_workspace, include_non_window)
            },
            forall|a: int, b: int| 0 <= a < b < r@.len() ==> #[trigger] r@[a] < #[trigger] r@[b],
            forall|i: int| 0 <= i < self.layouts().len() && visible_in(
                #[trigger] self.layouts()[i].workspace,
                self.current_workspace,
                include_non_window,
            ) ==> r@.contains(i as usize),
    {
        let mut r: Vec<usize> = Vec::new();
        let mut i: usize = 0;
        while i < self.window_infos.len()
            invariant
                i <= self.layouts().len(),
                self.layouts().len() == self.window_infos@.len(),
                forall|k: int| 0 <= k < r@.len() ==> {
                    &&& #[trigger] r@[k] < i
                    &&& visible_in(self.layouts()[r@[k] as int].workspace, self.current_workspace, include_non_window)
                },
                forall|a: int, b: int| 0 <= a < b < r@.len() ==> #[trigger] r@[a] < #[trigger] r@[b],
                forall|j: int| 0 <= j < i && visible_in(
                    #[trigger] self.layouts()[j].workspace,
                    self.current_workspace,
                    include_non_window,
                ) ==> r@.contains(j as usize),
            decreases self.window_infos@.len() - i,
        {
            let show = match self.window_infos[i].workspace {
                Workspace::Workspace(w) => w == self.current_workspace,
                Workspace::All => include_non_window,
            };
            assert(self.layouts()[i as int] == self.window_infos@[i as int].layout());
            if show {
                let ghost before = r@;
                r.push(i);
                proof {
                    assert forall|j: int| 0 <= j <= i && visible_in(
                        #[trigger] self.layouts()[j].workspace,
                        self.current_workspace,
                        include_non_window,
                    ) implies r@.contains(j as usize) by {
                        if j < i {
                            let k = choose|k: int| 0 <= k < before.len() && before[k] == j as usize;
                            assert(r@[k] == j as usize);
                        } else {
                            assert(r@[before.len() as int] == i);
                        }
                    }
                }
            }
            i = i + 1;
        }
        r
    }

    /// Sends the taskbar the ordinary windows of the active workspace,
    /// ordered by id, and the focused id.
    pub(crate) fn taskbar_update_windows(&mut self)
        requires
            old(self).wf(),
            !old(self).locked,
        ensures
            old(self).same_but_surfaces(final(self)),
            taskbar_current(*final(self)),
            final(self).window_infos@.len() == old(self).window_infos@.len(),
            forall|j: int|
                0 <= j < old(self).window_infos@.len() && old(self).layouts()[j].kind != WindowLikeType::Taskbar
                    ==> #[trigger] final(self).window_infos@[j] == old(self).window_infos@[j],
    {
        let taskbar_index = match self.position_of_kind(WindowLikeType::Taskbar) {
            Some(t) => t,
            None => {
                return;
            },
        };
        let visible = self.get_windows_in_workspace(false);
        let n = self.window_infos.len();
        let ghost ls = self.layouts();
        let ghost added: Seq<(usize, &'static str)> = Seq::empty();
        let mut relevant: Vec<(usize, &'static str)> = Vec::new();
        let mut k: usize = 0;
        while k < visible.len()
            invariant
                k <= visible@.len(),
                ls == self.layouts(),
                ls.len() == self.window_infos@.len(),
                ls.len() == n,
                self.wf(),
                ids_strictly_ascending(relevant@),
                forall|j: int| 0 <= j < visible@.len() ==> #[trigger] visible@[j] < self.window_infos@.len(),
                forall|a: int, b: int| 0 <= a < b < visible@.len() ==> #[trigger] visible@[a] < #[trigger] visible@[b],
                added.len() == k,
                forall|q: int|
                    0 <= q < k ==> #[trigger] added[q] == (
                        ls[visible@[q] as int].id,
                        self.window_infos@[visible@[q] as int].window_like.spec_title(),
                    ),
                same_items(relevant@, added),
            decreases visible@.len() - k,
        {
            let w = &self.window_infos[visible[k]];
            let item = (w.id, w.window_like.title());
            assert(ls[visible@[k as int] as int] == self.window_infos@[visible@[k as int] as int].layout());
            proof {
                assert forall|x: int| 0 <= x < relevant@.len() implies (#[trigger] relevant@[x]).0 != item.0 by {
                    assert(added.contains(relevant@[x]));
                    let q = choose|q: int| 0 <= q < added.len() && added[q] == relevant@[x];
                    assert(visible@[q] < visible@[k as int]);
                    assert(ls[visible@[q] as int].id != ls[visible@[k as int] as int].id);
                }
            }
            let ghost before = relevant@;
            insert_by_id(&mut relevant, item);
            proof {
                let p = choose|p: int| 0 <= p <= before.len() && relevant@ == #[trigger] before.insert(p, item);
                lemma_insert_same_items(before, added, p, item);
                added = added.push(item);
            }
            k = k + 1;
        }
        let focused = self.focused_id;
        let ghost list = relevant@;
        let ghost infos = self.window_infos@;
        self.message_entry(
            taskbar_index,
            WindowMessage::Info(crate::messages::InfoType::WindowsInWorkspace(relevant, focused)),
        );
        proof {
            assert(self.layouts() == ls);
            assert(self.layouts()[taskbar_index as int] == self.window_infos@[taskbar_index as int].layout());
            let o = *self;
            assert forall|x: int| 0 <= x < list.len() implies #[trigger] o.shows_window(list[x]) by {
                assert(added.contains(list[x]));
                let q = choose|q: int| 0 <= q < added.len() && added[q] == list[x];
                let j = visible@[q] as int;
                assert(ls[j].id == list[x].0);
                assert(visible_in(ls[j].workspace, self.current_workspace, false));
                assert(o.layouts()[j].id == list[x].0);
                if j != taskbar_index {
                    assert(o.window_infos@[j] == infos[j]);
                } else {
                    assert(ls[j].kind == WindowLikeType::Taskbar);
                }
            }
            assert(o.layouts() == ls);
            assert forall|j: int| 0 <= j < ls.len() && visible_in(
                #[trigger] ls[j].workspace,
                self.current_workspace,
                false,
            ) implies exists|x: int| 0 <= x < list.len() && list[x].0 == ls[j].id by {
                assert(visible@.contains(j as usize));
                let q = choose|q: int| 0 <= q < visible@.len() && visible@[q] == j as usize;
                assert(added[q].0 == ls[j].id);
                assert(list.contains(added[q]));
                let x = choose|x: int| 0 <= x < list.len() && list[x] == added[q];
                assert(list[x].0 == ls[j].id);
            }
            assert(lists_workspace_windows(o, list));
        }
    }

    /// Closes the start menu if one is open.
    pub(crate) fn close_start_menu(&mut self)
        requires
            old(self).wf(),
            !old(self).locked,
        ensures
            final(self).wf(),
            final(self).count_of(WindowLikeType::StartMenu) == 0,
            old(self).count_of(WindowLikeType::StartMenu) == 0 ==> *final(self) == *old(self),
            closes_start_menu(*old(self), final(self).layouts()),
            final(self).id_count == old(self).id_count,
            final(self).dimensions == old(self).dimensions,
            final(self).theme == old(self).theme,
            final(self).held_special_keys == old(self).held_special_keys,
            final(self).locked == old(self).locked,
            final(self).current_workspace == old(self).current_workspace,
            forall|i: int| #[trigger] old(self).is_focused_index(i) && old(self).layouts()[i].kind
                != WindowLikeType::StartMenu ==> final(self).focused_id == old(self).focused_id,
    {
        match self.position_of_kind(WindowLikeType::StartMenu) {
            Some(i) => {
                proof {
                    assert(old(self).kinds()[i as int] == WindowLikeType::StartMenu);
                    assert(old(self).kinds().contains(WindowLikeType::StartMenu));
                    assert forall|j: int| #[trigger] old(self).is_focused_index(j) && old(self).layouts()[j].kind
                        != WindowLikeType::StartMenu implies old(self).focused_id != Some(old(self).layouts()[i as int].id) by {
                        assert(j != i);
                    }
                }
                self.remove_entry(i);
            },
            None => {},
        }
    }

    /// Focuses the taskbar and tells its Start toggle to flip. When
    /// `off_only` is false the answer asks to close the start menu if one is
    /// open, and to open one otherwise; when `off_only` is true an open start
    /// menu is closed here (and nothing at all happens without one).
    pub(crate) fn toggle_start_menu(&mut self, off_only: bool) -> (r: WindowMessageResponse)
        requires
            old(self).wf(),
            !old(self).locked,
        ensures
            final(self).wf(),
            !final(self).locked,
            final(self).id_count == old(self).id_count,
            final(self).dimensions == old(self).dimensions,
            final(self).theme == old(self).theme,
            final(self).held_special_keys == old(self).held_special_keys,
            final(self).current_workspace == old(self).current_workspace,
            off_only && old(self).count_of(WindowLikeType::StartMenu) == 0 ==> r is DoNothing && *final(self)
                == *old(self),
            off_only ==> final(self).count_of(WindowLikeType::StartMenu) == 0,
            off_only ==> closes_start_menu(*old(self), final(self).layouts()),
            !off_only ==> final(self).layouts() == old(self).layouts(),
            !off_only || old(self).count_of(WindowLikeType::StartMenu) > 0 ==> final(self).sender() == Some(
                WindowLikeType::Taskbar,
            ),
            !off_only || old(self).count_of(WindowLikeType::StartMenu) > 0 ==> (final(self).focused_id matches Some(
                fid,
            ) && exists|k: int|
                0 <= k < old(self).layouts().len() && #[trigger] old(self).layouts()[k].id == fid && old(
                    self,
                ).layouts()[k].kind == WindowLikeType::Taskbar),
            !off_only && old(self).count_of(WindowLikeType::StartMenu) == 0 ==> (r matches WindowMessageResponse::Request(
                WindowManagerRequest::OpenWindow(w),
            ) && w.kind() == WindowLikeType::StartMenu),
            !off_only && old(self).count_of(WindowLikeType::StartMenu) > 0 ==> (r matches WindowMessageResponse::Request(
                WindowManagerRequest::CloseStartMenu,
            )),
    {
        let start_menu_exists = self.position_of_kind(WindowLikeType::StartMenu).is_some();
        if off_only && !start_menu_exists {
            return WindowMessageResponse::DoNothing;
        }
        let t = match self.position_of_kind(WindowLikeType::Taskbar) {
            Some(t) => t,
            None => {
                return WindowMessageResponse::DoNothing;
            },
        };
        let taskbar_id = self.window_infos[t].id;
        self.focused_id = Some(taskbar_id);
        let ghost focused = *self;
        assert(self.layouts()[t as int] == self.window_infos@[t as int].layout());
        assert(self.layouts()[t as int].id == taskbar_id);
        assert(self.has_id(taskbar_id));
        assert(self.is_focused_index(t as int));
        if off_only {
            self.close_start_menu();
        }
        let t2 = match self.position_of_kind(WindowLikeType::Taskbar) {
            Some(t2) => t2,
            None => {
                return WindowMessageResponse::DoNothing;
            },
        };
        assert(self.layouts()[t2 as int] == self.window_infos@[t2 as int].layout());
        self.message_entry(t2, WindowMessage::Shortcut(ShortcutType::StartMenu));
        proof {
            let k = choose|k: int| 0 <= k < self.layouts().len() && #[trigger] self.layouts()[k].id == taskbar_id;
            if !off_only {
                assert(self.layouts()[k] == old(self).layouts()[k]);
            } else {
                let idx = choose|idx: int|
                    0 <= idx < focused.layouts().len() && focused.layouts()[idx].kind == WindowLikeType::StartMenu
                        && self.layouts() == focused.layouts().remove(idx);
                assert(idx != t);
                let nk = if t < idx { t as int } else { t - 1 };
                assert(self.layouts()[nk] == focused.layouts()[t as int]);
                assert(self.layouts()[nk].id == taskbar_id);
                assert(nk == k);
            }
            assert(self.is_focused_index(k));
            self.lemma_focused_sender(k);
            assert(old(self).layouts()[t as int].id == taskbar_id);
        }
        if start_menu_exists {
            WindowMessageResponse::Request(WindowManagerRequest::CloseStartMenu)
        } else {
            WindowMessageResponse::Request(WindowManagerRequest::OpenWindow(WindowBox::StartMenu(StartMenu::new())))
        }
    }

    /// Carries out a request from the focused surface, if its kind allows
    /// it: opening a window or closing the start menu only from the taskbar
    /// or the start menu, unlocking only from the lock screen, and locking
    /// only from the start menu. Only ordinary windows and the start menu
    /// can be opened this way. Anything else is dropped.
    pub fn handle_request(&mut self, request: WindowManagerRequest)
        requires
            old(self).wf(),
        ensures
            final(self).wf(),
            final(self).id_count >= old(self).id_count,
            final(self).dimensions == old(self).dimensions,
            final(self).theme == old(self).theme,
            final(self).held_special_keys == old(self).held_special_keys,
            final(self).current_workspace == old(self).current_workspace,
            request_outcome(*old(self), *final(self), request),
    {
        if self.id_count > usize::MAX - 3 {
            return;
        }
        let focused_index = match self.get_focused_index() {
            Some(i) => i,
            None => {
                return;
            },
        };
        let subtype = self.window_infos[focused_index].window_like.subtype();
        proof {
            self.lemma_focused_sender(focused_index as int);
            assert(self.layouts()[focused_index as int] == self.window_infos@[focused_index as int].layout());
            assert(self.kinds()[focused_index as int] == subtype);
        }
        match request {
            WindowManagerRequest::OpenWindow(w) => {
                if subtype != WindowLikeType::Taskbar && subtype != WindowLikeType::StartMenu {
                    return;
                }
                let kind = w.subtype();
                if kind != WindowLikeType::Window && kind != WindowLikeType::StartMenu {
                    return;
                }
                self.toggle_start_menu(true);
                let ghost closed = *self;
                let ideal_dimensions = w.ideal_dimensions(self.dimensions);
                let top_left = if kind == WindowLikeType::StartMenu {
                    [0, self.dimensions[1].saturating_sub(TASKBAR_HEIGHT).saturating_sub(ideal_dimensions[1])]
                } else {
                    [42, 42]
                };
                assert(top_left == open_position(kind, old(self).dimensions, ideal_dimensions));
                self.add_window_like(w, top_left, Some(ideal_dimensions));
                assert(self.layouts().drop_last() =~= closed.layouts());
                let ghost opened = *self;
                self.taskbar_update_windows();
                assert(self.layouts() == opened.layouts());
                assert(self.layouts().drop_last() == closed.layouts());
            },
            WindowManagerRequest::CloseStartMenu => {
                if subtype != WindowLikeType::Taskbar && subtype != WindowLikeType::StartMenu {
                    return;
                }
                self.close_start_menu();
            },
            WindowManagerRequest::Unlock => {
                if subtype != WindowLikeType::LockScreen {
                    return;
                }
                self.unlock();
            },
            WindowManagerRequest::Lock => {
                if subtype != WindowLikeType::StartMenu {
                    return;
                }
                self.lock();
            },
        }
    }


    /// Carries out `requests` in order, each as `handle_request` does. Open
    /// requests from a sender that may not open windows change nothing, so a
    /// run of them leaves the compositor exactly as it was.
    pub fn handle_requests(&mut self, requests: Vec<WindowManagerRequest>)
        requires
            old(self).wf(),
        ensures
            final(self).wf(),
            exists|states: Seq<WindowManager>|
                {
                    &&& states.len() == requests@.len() + 1
                    &&& states[0] == *old(self)
                    &&& states.last() == *final(self)
                    &&& forall|k: int|
                        0 <= k < requests@.len() ==> #[trigger] request_outcome(states[k], states[k + 1], requests@[k])
                },
            (forall|k: int| 0 <= k < requests@.len() ==> (#[trigger] requests@[k]) is OpenWindow) && !may_open(
                old(self).sender(),
            ) ==> *final(self) == *old(self),
    {
        let ghost all_open = forall|k: int| 0 <= k < requests@.len() ==> (#[trigger] requests@[k]) is OpenWindow;
        let ghost original = requests@;
        let mut requests = requests;
        let ghost start = *self;
        let ghost states: Seq<WindowManager> = seq![start];
        let ghost done: Seq<WindowManagerRequest> = Seq::empty();
        while requests.len() > 0
            invariant
                self.wf(),
                all_open ==> forall|k: int| 0 <= k < requests@.len() ==> (#[trigger] requests@[k]) is OpenWindow,
                all_open && !may_open(start.sender()) ==> *self == start,
                original == done + requests@,
                states.len() == done.len() + 1,
                states[0] == start,
                states.last() == *self,
                forall|k: int| 0 <= k < done.len() ==> #[trigger] request_outcome(states[k], states[k + 1], done[k]),
            decreases requests@.len(),
        {
            let ghost before = requests@;
            let request = requests.remove(0);
            let ghost req = request;
            proof {
                assert(req == before[0]);
                if all_open {
                    assert(before[0] is OpenWindow);
                    assert forall|k: int| 0 <= k < requests@.len() implies (#[trigger] requests@[k]) is OpenWindow by {
                        assert(requests@[k] == before[k + 1]);
                    }
                }
            }
            let ghost prior = *self;
            self.handle_request(request);
            proof {
                let old_states = states;
                let old_done = done;
                states = states.push(*self);
                done = done.push(req);
                assert(original =~= done + requests@) by {
                    assert(before =~= seq![req] + requests@);
                }
                assert forall|k: int| 0 <= k < done.len() implies #[trigger] request_outcome(
                    states[k],
                    states[k + 1],
                    done[k],
                ) by {
                    if k < old_done.len() {
                        assert(states[k] == old_states[k]);
                        assert(states[k + 1] == old_states[k + 1]);
                        assert(done[k] == old_done[k]);
                    } else {
                        assert(states[k] == prior);
                    }
                }
            }
        }
        assert(done =~= original);
    }

}

} // verus!
