//! Typed mirror of the window manager's state tree.
//!
//! Every entity is an immutable snapshot decoded from one query against the
//! manager; the hierarchy runs state → monitors → desktops → window trees.
//! The `…V` structs are the mathematical views the contracts speak of: the
//! same shapes with strings and lists as sequences.

use vstd::prelude::*;

verus! {

/// How a desktop arranges its windows.
#[derive(Debug, Clone, Copy, PartialEq, Eq, Structural)]
pub enum Layout {
    Tiled,
    PsuedoTiled,
    Floating,
    Monocle,
}

impl Default for Layout {
    fn default() -> (r: Self)
        ensures
            r == Layout::Tiled,
    {
        Layout::Tiled
    }
}

impl Layout {
    /// The fixed rendering of each layout mode.
    pub open spec fn spec_display(self) -> Seq<char> {
        match self {
            Layout::Tiled => "tiled"@,
            Layout::PsuedoTiled => "pseudo-tiled"@,
            Layout::Floating => "floating"@,
            Layout::Monocle => "monocle"@,
        }
    }

    /// The literal each layout mode carries in the manager's JSON.
    pub open spec fn spec_json_name(self) -> Seq<char> {
        match self {
            Layout::Tiled => "tiled"@,
            Layout::PsuedoTiled => "psuedoTiled"@,
            Layout::Floating => "floating"@,
            Layout::Monocle => "monocle"@,
        }
    }

    pub fn display(&self) -> (r: String)
        ensures
            r@ == self.spec_display(),
    {
        match self {
            Layout::Tiled => "tiled".to_owned(),
            Layout::PsuedoTiled => "pseudo-tiled".to_owned(),
            Layout::Floating => "floating".to_owned(),
            Layout::Monocle => "monocle".to_owned(),
        }
    }

    pub fn json_name(&self) -> (r: &'static str)
        ensures
            r@ == self.spec_json_name(),
    {
        match self {
            Layout::Tiled => "tiled",
            Layout::PsuedoTiled => "psuedoTiled",
            Layout::Floating => "floating",
            Layout::Monocle => "monocle",
        }
    }
}

/// The direction a tree node splits in.
#[derive(Debug, Clone, Copy, PartialEq, Eq, Structural)]
pub enum SplitType {
    Vertical,
    Horizontal,
}

impl Default for SplitType {
    fn default() -> (r: Self)
        ensures
            r == SplitType::Vertical,
    {
        SplitType::Vertical
    }
}

impl SplitType {
    pub open spec fn spec_display(self) -> Seq<char> {
        match self {
            SplitType::Vertical => "vertical"@,
            SplitType::Horizontal => "horizontal"@,
        }
    }

    /// The JSON literal coincides with the rendering for split types.
    pub open spec fn spec_json_name(self) -> Seq<char> {
        self.spec_display()
    }

    pub fn display(&self) -> (r: String)
        ensures
            r@ == self.spec_display(),
    {
        match self {
            SplitType::Vertical => "vertical".to_owned(),
            SplitType::Horizontal => "horizontal".to_owned(),
        }
    }

    pub fn json_name(&self) -> (r: &'static str)
        ensures
            r@ == self.spec_json_name(),
    {
        match self {
            SplitType::Vertical => "vertical",
            SplitType::Horizontal => "horizontal",
        }
    }
}

/// The stacking layer a client sits on.
#[derive(Debug, Clone, Copy, PartialEq, Eq, Structural)]
pub enum Layer {
    Normal,
}

impl Default for Layer {
    fn default() -> (r: Self)
        ensures
            r == Layer::Normal,
    {
        Layer::Normal
    }
}

impl Layer {
    pub open spec fn spec_display(self) -> Seq<char> {
        match self {
            Layer::Normal => "normal"@,
        }
    }

    /// The JSON literal coincides with the rendering for layers.
    pub open spec fn spec_json_name(self) -> Seq<char> {
        self.spec_display()
    }

    pub fn display(&self) -> (r: String)
        ensures
            r@ == self.spec_display(),
    {
        match self {
            Layer::Normal => "normal".to_owned(),
        }
    }

    pub fn json_name(&self) -> (r: &'static str)
        ensures
            r@ == self.spec_json_name(),
    {
        match self {
            Layer::Normal => "normal",
        }
    }
}

/// Minimum size a client insists on.
#[derive(Debug, Clone, Copy, PartialEq, Eq, Structural)]
pub struct Constraints {
    pub min_width: usize,
    pub min_height: usize,
}

impl Default for Constraints {
    fn default() -> (r: Self)
        ensures
            r == (Constraints { min_width: 0, min_height: 0 }),
    {
        Constraints { min_width: 0, min_height: 0 }
    }
}

/// Four-sided padding around a desktop.
#[derive(Debug, Clone, Copy, PartialEq, Eq, Structural)]
pub struct Padding {
    pub top: usize,
    pub right: usize,
    pub bottom: usize,
    pub left: usize,
}

impl Default for Padding {
    fn default() -> (r: Self)
        ensures
            r == (Padding { top: 0, right: 0, bottom: 0, left: 0 }),
    {
        Padding { top: 0, right: 0, bottom: 0, left: 0 }
    }
}

/// A screen-space bounding box.
#[derive(Debug, Clone, Copy, PartialEq, Eq, Structural)]
pub struct Rectangle {
    pub x: usize,
    pub y: usize,
    pub width: usize,
    pub height: usize,
}

impl Default for Rectangle {
    fn default() -> (r: Self)
        ensures
            r == (Rectangle { x: 0, y: 0, width: 0, height: 0 }),
    {
        Rectangle { x: 0, y: 0, width: 0, height: 0 }
    }
}

/// One entry of the focus history: which node held focus on which desktop
/// of which monitor.
#[derive(Debug, Clone, Copy, PartialEq, Eq, Structural)]
pub struct Focus {
    monitor_id: usize,
    desktop_id: usize,
    node_id: usize,
}

impl Default for Focus {
    fn default() -> (r: Self)
        ensures
            r.spec_monitor_id() == 0,
            r.spec_desktop_id() == 0,
            r.spec_node_id() == 0,
    {
        Focus { monitor_id: 0, desktop_id: 0, node_id: 0 }
    }
}

impl Focus {
    /// The entry with the three given identifiers.
    pub closed spec fn spec_new(monitor_id: usize, desktop_id: usize, node_id: usize) -> Focus {
        Focus { monitor_id, desktop_id, node_id }
    }

    pub fn new(monitor_id: usize, desktop_id: usize, node_id: usize) -> (r: Self)
        ensures
            r == Focus::spec_new(monitor_id, desktop_id, node_id),
            r.spec_monitor_id() == monitor_id,
            r.spec_desktop_id() == desktop_id,
            r.spec_node_id() == node_id,
    {
        Focus { monitor_id, desktop_id, node_id }
    }

    /// An entry is nothing but its three identifiers.
    pub broadcast proof fn lemma_from_ids(f: Focus)
        ensures
            #[trigger] Focus::spec_new(f.spec_monitor_id(), f.spec_desktop_id(), f.spec_node_id())
                == f,
    {
    }

    pub closed spec fn spec_monitor_id(self) -> usize {
        self.monitor_id
    }

    pub closed spec fn spec_desktop_id(self) -> usize {
        self.desktop_id
    }

    pub closed spec fn spec_node_id(self) -> usize {
        self.node_id
    }

    pub fn monitor_id(&self) -> (r: usize)
        ensures
            r == self.spec_monitor_id(),
    {
        self.monitor_id
    }

    pub fn desktop_id(&self) -> (r: usize)
        ensures
            r == self.spec_desktop_id(),
    {
        self.desktop_id
    }

    pub fn node_id(&self) -> (r: usize)
        ensures
            r == self.spec_node_id(),
    {
        self.node_id
    }
}

/// View of a window tree summary.
pub struct TreeV {
    pub id: usize,
    pub split_type: SplitType,
    pub vacant: bool,
    pub hidden: bool,
    pub sticky: bool,
    pub private: bool,
    pub locked: bool,
    pub marked: bool,
    pub presel: Option<Seq<char>>,
    pub rectangle: Rectangle,
}

/// A lightweight summary of one node of a desktop's window tree, as a
/// restricted query returns it: no children and no client attached.
#[derive(Debug, Clone, PartialEq)]
pub struct Tree {
    pub id: usize,
    pub split_type: SplitType,
    pub vacant: bool,
    pub hidden: bool,
    pub sticky: bool,
    pub private: bool,
    pub locked: bool,
    pub marked: bool,
    pub presel: Option<String>,
    pub rectangle: Rectangle,
}

impl View for Tree {
    type V = TreeV;

    open spec fn view(&self) -> TreeV {
        TreeV {
            id: self.id,
            split_type: self.split_type,
            vacant: self.vacant,
            hidden: self.hidden,
            sticky: self.sticky,
            private: self.private,
            locked: self.locked,
            marked: self.marked,
            presel: match self.presel {
                Some(s) => Some(s@),
                None => None,
            },
            rectangle: self.rectangle,
        }
    }
}

impl Default for Tree {
    fn default() -> (r: Self)
        ensures
            r@ == (TreeV {
                id: 0,
                split_type: SplitType::Vertical,
                vacant: false,
                hidden: false,
                sticky: false,
                private: false,
                locked: false,
                marked: false,
                presel: None,
                rectangle: Rectangle { x: 0, y: 0, width: 0, height: 0 },
            }),
    {
        Tree {
            id: 0,
            split_type: SplitType::Vertical,
            vacant: false,
            hidden: false,
            sticky: false,
            private: false,
            locked: false,
            marked: false,
            presel: None,
            rectangle: Rectangle { x: 0, y: 0, width: 0, height: 0 },
        }
    }
}

/// View of a managed window.
pub struct ClientV {
    pub class_name: Seq<char>,
    pub instance_name: Seq<char>,
    pub border_width: usize,
    pub state: Layout,
    pub last_state: Layout,
    pub layer: Layer,
    pub last_layer: Layer,
    pub urgent: bool,
    pub shown: bool,
    pub tiled_rectangle: Rectangle,
    pub floating_rectangle: Rectangle,
}

/// The managed window a leaf node owns.  The two rectangles are tracked
/// independently, so a window keeps its floating geometry while tiled.
#[derive(Debug, Clone, PartialEq)]
pub struct Client {
    pub class_name: String,
    pub instance_name: String,
    pub border_width: usize,
    pub state: Layout,
    pub last_state: Layout,
    pub layer: Layer,
    pub last_layer: Layer,
    pub urgent: bool,
    pub shown: bool,
    pub tiled_rectangle: Rectangle,
    pub floating_rectangle: Rectangle,
}

impl View for Client {
    type V = ClientV;

    open spec fn view(&self) -> ClientV {
        ClientV {
            class_name: self.class_name@,
            instance_name: self.instance_name@,
            border_width: self.border_width,
            state: self.state,
            last_state: self.last_state,
            layer: self.layer,
            last_layer: self.last_layer,
            urgent: self.urgent,
            shown: self.shown,
            tiled_rectangle: self.tiled_rectangle,
            floating_rectangle: self.floating_rectangle,
        }
    }
}

impl Default for Client {
    fn default() -> (r: Self)
        ensures
            r@ == (ClientV {
                class_name: Seq::empty(),
                instance_name: Seq::empty(),
                border_width: 0,
                state: Layout::Tiled,
                last_state: Layout::Tiled,
                layer: Layer::Normal,
                last_layer: Layer::Normal,
                urgent: false,
                shown: false,
                tiled_rectangle: Rectangle { x: 0, y: 0, width: 0, height: 0 },
                floating_rectangle: Rectangle { x: 0, y: 0, width: 0, height: 0 },
            }),
    {
        Client {
            class_name: String::new(),
            instance_name: String::new(),
            border_width: 0,
            state: Layout::Tiled,
            last_state: Layout::Tiled,
            layer: Layer::Normal,
            last_layer: Layer::Normal,
            urgent: false,
            shown: false,
            tiled_rectangle: Rectangle { x: 0, y: 0, width: 0, height: 0 },
            floating_rectangle: Rectangle { x: 0, y: 0, width: 0, height: 0 },
        }
    }
}

/// View of a virtual workspace.
pub struct DesktopV {
    pub name: Seq<char>,
    pub id: usize,
    pub layout: Layout,
    pub user_layout: Layout,
    pub window_gap: usize,
    pub border_width: usize,
    pub focused_node_id: usize,
    pub padding: Padding,
    pub root: Option<TreeV>,
}

/// A virtual workspace on one monitor.  The current and the user-requested
/// layout may diverge for a while, as during a transient monocle view.
#[derive(Debug, Clone, PartialEq)]
pub struct Desktop {
    pub name: String,
    pub id: usize,
    pub layout: Layout,
    pub user_layout: Layout,
    pub window_gap: usize,
    pub border_width: usize,
    pub focused_node_id: usize,
    pub padding: Padding,
    pub root: Option<Tree>,
}

impl View for Desktop {
    type V = DesktopV;

    open spec fn view(&self) -> DesktopV {
        DesktopV {
            name: self.name@,
            id: self.id,
            layout: self.layout,
            user_layout: self.user_layout,
            window_gap: self.window_gap,
            border_width: self.border_width,
            focused_node_id: self.focused_node_id,
            padding: self.padding,
            root: match self.root {
                Some(t) => Some(t@),
                None => None,
            },
        }
    }
}

impl Default for Desktop {
    fn default() -> (r: Self)
        ensures
            r@ == (DesktopV {
                name: Seq::empty(),
                id: 0,
                layout: Layout::Tiled,
                user_layout: Layout::Tiled,
                window_gap: 0,
                border_width: 0,
                focused_node_id: 0,
                padding: Padding { top: 0, right: 0, bottom: 0, left: 0 },
                root: None,
            }),
    {
        Desktop {
            name: String::new(),
            id: 0,
            layout: Layout::Tiled,
            user_layout: Layout::Tiled,
            window_gap: 0,
            border_width: 0,
            focused_node_id: 0,
            padding: Padding { top: 0, right: 0, bottom: 0, left: 0 },
            root: None,
        }
    }
}

/// View of a physical display.
pub struct MonitorV {
    pub name: Seq<char>,
    pub id: usize,
    pub randr_id: usize,
    pub wired: bool,
    pub sticky_count: usize,
    pub window_gap: usize,
    pub border_width: usize,
    pub focused_desktop_id: usize,
    pub desktops: Seq<DesktopV>,
}

/// A physical display with its ordered desktops.
#[derive(Debug, Clone, PartialEq)]
pub struct Monitor {
    pub name: String,
    pub id: usize,
    pub randr_id: usize,
    pub wired: bool,
    pub sticky_count: usize,
    pub window_gap: usize,
    pub border_width: usize,
    pub focused_desktop_id: usize,
    pub desktops: Vec<Desktop>,
}

impl View for Monitor {
    type V = MonitorV;

    open spec fn view(&self) -> MonitorV {
        MonitorV {
            name: self.name@,
            id: self.id,
            randr_id: self.randr_id,
            wired: self.wired,
            sticky_count: self.sticky_count,
            window_gap: self.window_gap,
            border_width: self.border_width,
            focused_desktop_id: self.focused_desktop_id,
            desktops: self.desktops@.map_values(|d: Desktop| d@),
        }
    }
}

impl Default for Monitor {
    fn default() -> (r: Self)
        ensures
            r@ == (MonitorV {
                name: Seq::empty(),
                id: 0,
                randr_id: 0,
                wired: false,
                sticky_count: 0,
                window_gap: 0,
                border_width: 0,
                focused_desktop_id: 0,
                desktops: Seq::empty(),
            }),
    {
        let r = Monitor {
            name: String::new(),
            id: 0,
            randr_id: 0,
            wired: false,
            sticky_count: 0,
            window_gap: 0,
            border_width: 0,
            focused_desktop_id: 0,
            desktops: Vec::new(),
        };
        proof {
            assert(r@.desktops =~= Seq::<DesktopV>::empty());
        }
        r
    }
}

/// View of a full state snapshot.
pub struct StateV {
    pub focused_monitor_id: usize,
    pub primary_monitor_id: usize,
    pub clients_count: usize,
    pub monitors: Seq<MonitorV>,
    pub focus_history: Seq<Focus>,
    pub stacking_list: Seq<usize>,
}

/// The manager's full state: every monitor, the focus history and the
/// stacking order of all windows.
#[derive(Debug, Clone, PartialEq)]
pub struct State {
    pub focused_monitor_id: usize,
    pub primary_monitor_id: usize,
    pub clients_count: usize,
    pub monitors: Vec<Monitor>,
    pub focus_history: Vec<Focus>,
    pub stacking_list: Vec<usize>,
}

impl View for State {
    type V = StateV;

    open spec fn view(&self) -> StateV {
        StateV {
            focused_monitor_id: self.focused_monitor_id,
            primary_monitor_id: self.primary_monitor_id,
            clients_count: self.clients_count,
            monitors: self.monitors@.map_values(|m: Monitor| m@),
            focus_history: self.focus_history@,
            stacking_list: self.stacking_list@,
        }
    }
}

impl Default for State {
    fn default() -> (r: Self)
        ensures
            r@ == (StateV {
                focused_monitor_id: 0,
                primary_monitor_id: 0,
                clients_count: 0,
                monitors: Seq::empty(),
                focus_history: Seq::empty(),
                stacking_list: Seq::empty(),
            }),
    {
        let r = State {
            focused_monitor_id: 0,
            primary_monitor_id: 0,
            clients_count: 0,
            monitors: Vec::new(),
            focus_history: Vec::new(),
            stacking_list: Vec::new(),
        };
        proof {
            assert(r@.monitors =~= Seq::<MonitorV>::empty());
        }
        r
    }
}

} // verus!
