//! Decoding the manager's JSON documents into the typed model.
//!
//! Decoding is strict per field name: a missing or mistyped required field
//! fails the enclosing structure, unknown fields are ignored, and an
//! enumerated field accepts only its fixed literal set.  The `parse_…` spec
//! functions are the exact statement of that schema; each `from_json`
//! returns precisely what they describe.

use vstd::prelude::*;

use crate::json::{
    field_bool, field_num, field_str, get_bool, get_field, get_num, get_str, json_from_slice,
    json_of, lookup, Json,
};
use crate::model::{
    Client, ClientV, Constraints, Desktop, DesktopV, Focus, Layer, Layout, Monitor, MonitorV,
    Padding, Rectangle, SplitType, State, StateV, Tree, TreeV,
};
use crate::Error;

verus! {

/// The fixed literal set of a layout field.
pub open spec fn parse_layout(j: Json) -> Option<Layout> {
    match j {
        Json::Str(s) => if s@ == "tiled"@ {
            Some(Layout::Tiled)
        } else if s@ == "psuedoTiled"@ {
            Some(Layout::PsuedoTiled)
        } else if s@ == "floating"@ {
            Some(Layout::Floating)
        } else if s@ == "monocle"@ {
            Some(Layout::Monocle)
        } else {
            None
        },
        _ => None,
    }
}

/// The fixed literal set of a split-type field.
pub open spec fn parse_split_type(j: Json) -> Option<SplitType> {
    match j {
        Json::Str(s) => if s@ == "vertical"@ {
            Some(SplitType::Vertical)
        } else if s@ == "horizontal"@ {
            Some(SplitType::Horizontal)
        } else {
            None
        },
        _ => None,
    }
}

/// The fixed literal set of a layer field.
pub open spec fn parse_layer(j: Json) -> Option<Layer> {
    match j {
        Json::Str(s) => if s@ == "normal"@ {
            Some(Layer::Normal)
        } else {
            None
        },
        _ => None,
    }
}

impl Layout {
    pub fn from_json(j: &Json) -> (r: Option<Self>)
        ensures
            r == parse_layout(*j),
    {
        match j {
            Json::Str(s) => {
                if *s == "tiled".to_owned() {
                    Some(Layout::Tiled)
                } else if *s == "psuedoTiled".to_owned() {
                    Some(Layout::PsuedoTiled)
                } else if *s == "floating".to_owned() {
                    Some(Layout::Floating)
                } else if *s == "monocle".to_owned() {
                    Some(Layout::Monocle)
                } else {
                    None
                }
            },
            _ => None,
        }
    }
}

impl SplitType {
    pub fn from_json(j: &Json) -> (r: Option<Self>)
        ensures
            r == parse_split_type(*j),
    {
        match j {
            Json::Str(s) => {
                if *s == "vertical".to_owned() {
                    Some(SplitType::Vertical)
                } else if *s == "horizontal".to_owned() {
                    Some(SplitType::Horizontal)
                } else {
                    None
                }
            },
            _ => None,
        }
    }
}

impl Layer {
    pub fn from_json(j: &Json) -> (r: Option<Self>)
        ensures
            r == parse_layer(*j),
    {
        match j {
            Json::Str(s) => {
                if *s == "normal".to_owned() {
                    Some(Layer::Normal)
                } else {
                    None
                }
            },
            _ => None,
        }
    }
}

/// The schema of a rectangle object.
pub open spec fn parse_rectangle(j: Json) -> Option<Rectangle> {
    match j {
        Json::Obj(fields) => {
            let x = field_num(fields@, "x"@);
            let y = field_num(fields@, "y"@);
            let width = field_num(fields@, "width"@);
            let height = field_num(fields@, "height"@);
            if x is Some && y is Some && width is Some && height is Some {
                Some(Rectangle {
                    x: x.unwrap(),
                    y: y.unwrap(),
                    width: width.unwrap(),
                    height: height.unwrap(),
                })
            } else {
                None
            }
        },
        _ => None,
    }
}

impl Rectangle {
    pub fn from_json(j: &Json) -> (r: Option<Self>)
        ensures
            r == parse_rectangle(*j),
    {
        match j {
            Json::Obj(fields) => {
                let x = match get_num(fields, "x") {
                    Some(v) => v,
                    None => {
                        return None;
                    },
                };
                let y = match get_num(fields, "y") {
                    Some(v) => v,
                    None => {
                        return None;
                    },
                };
                let width = match get_num(fields, "width") {
                    Some(v) => v,
                    None => {
                        return None;
                    },
                };
                let height = match get_num(fields, "height") {
                    Some(v) => v,
                    None => {
                        return None;
                    },
                };
                Some(Rectangle { x, y, width, height })
            },
            _ => None,
        }
    }
}

/// The schema of a padding object.
pub open spec fn parse_padding(j: Json) -> Option<Padding> {
    match j {
        Json::Obj(fields) => {
            let top = field_num(fields@, "top"@);
            let right = field_num(fields@, "right"@);
            let bottom = field_num(fields@, "bottom"@);
            let left = field_num(fields@, "left"@);
            if top is Some && right is Some && bottom is Some && left is Some {
                Some(Padding {
                    top: top.unwrap(),
                    right: right.unwrap(),
                    bottom: bottom.unwrap(),
                    left: left.unwrap(),
                })
            } else {
                None
            }
        },
        _ => None,
    }
}

impl Padding {
    pub fn from_json(j: &Json) -> (r: Option<Self>)
        ensures
            r == parse_padding(*j),
    {
        match j {
            Json::Obj(fields) => {
                let top = match get_num(fields, "top") {
                    Some(v) => v,
                    None => {
                        return None;
                    },
                };
                let right = match get_num(fields, "right") {
                    Some(v) => v,
                    None => {
                        return None;
                    },
                };
                let bottom = match get_num(fields, "bottom") {
                    Some(v) => v,
                    None => {
                        return None;
                    },
                };
                let left = match get_num(fields, "left") {
                    Some(v) => v,
                    None => {
                        return None;
                    },
                };
                Some(Padding { top, right, bottom, left })
            },
            _ => None,
        }
    }
}

/// The schema of a size-constraints object.
pub open spec fn parse_constraints(j: Json) -> Option<Constraints> {
    match j {
        Json::Obj(fields) => {
            let min_width = field_num(fields@, "minWidth"@);
            let min_height = field_num(fields@, "minHeight"@);
            if min_width is Some && min_height is Some {
                Some(Constraints { min_width: min_width.unwrap(), min_height: min_height.unwrap() })
            } else {
                None
            }
        },
        _ => None,
    }
}

impl Constraints {
    pub fn from_json(j: &Json) -> (r: Option<Self>)
        ensures
            r == parse_constraints(*j),
    {
        match j {
            Json::Obj(fields) => {
                let min_width = match get_num(fields, "minWidth") {
                    Some(v) => v,
                    None => {
                        return None;
                    },
                };
                let min_height = match get_num(fields, "minHeight") {
                    Some(v) => v,
                    None => {
                        return None;
                    },
                };
                Some(Constraints { min_width, min_height })
            },
            _ => None,
        }
    }
}

/// The schema of a focus-history entry.
pub open spec fn parse_focus(j: Json) -> Option<Focus> {
    match j {
        Json::Obj(fields) => {
            let monitor_id = field_num(fields@, "monitorId"@);
            let desktop_id = field_num(fields@, "desktopId"@);
            let node_id = field_num(fields@, "nodeId"@);
            if monitor_id is Some && desktop_id is Some && node_id is Some {
                Some(Focus::spec_new(monitor_id.unwrap(), desktop_id.unwrap(), node_id.unwrap()))
            } else {
                None
            }
        },
        _ => None,
    }
}

impl Focus {
    pub fn from_json(j: &Json) -> (r: Option<Self>)
        ensures
            r == parse_focus(*j),
    {
        match j {
            Json::Obj(fields) => {
                let monitor_id = match get_num(fields, "monitorId") {
                    Some(v) => v,
                    None => {
                        return None;
                    },
                };
                let desktop_id = match get_num(fields, "desktopId") {
                    Some(v) => v,
                    None => {
                        return None;
                    },
                };
                let node_id = match get_num(fields, "nodeId") {
                    Some(v) => v,
                    None => {
                        return None;
                    },
                };
                Some(Focus::new(monitor_id, desktop_id, node_id))
            },
            _ => None,
        }
    }
}

/// The schema of a window tree summary.
pub open spec fn parse_tree(j: Json) -> Option<TreeV> {
    match j {
        Json::Obj(fields) => {
            let f = fields@;
            let id = field_num(f, "id"@);
            let split_type = match lookup(f, "splitType"@) {
                Some(x) => parse_split_type(x),
                None => None,
            };
            let vacant = field_bool(f, "vacant"@);
            let hidden = field_bool(f, "hidden"@);
            let sticky = field_bool(f, "sticky"@);
            let private = field_bool(f, "private"@);
            let locked = field_bool(f, "locked"@);
            let marked = field_bool(f, "marked"@);
            let presel = match lookup(f, "presel"@) {
                None => Some(None),
                Some(Json::Null) => Some(None),
                Some(Json::Str(s)) => Some(Some(s@)),
                Some(_) => None,
            };
            let rectangle = match lookup(f, "rectangle"@) {
                Some(x) => parse_rectangle(x),
                None => None,
            };
            if id is Some && split_type is Some && vacant is Some && hidden is Some
                && sticky is Some && private is Some && locked is Some && marked is Some
                && presel is Some && rectangle is Some {
                Some(TreeV {
                    id: id.unwrap(),
                    split_type: split_type.unwrap(),
                    vacant: vacant.unwrap(),
                    hidden: hidden.unwrap(),
                    sticky: sticky.unwrap(),
                    private: private.unwrap(),
                    locked: locked.unwrap(),
                    marked: marked.unwrap(),
                    presel: presel.unwrap(),
                    rectangle: rectangle.unwrap(),
                })
            } else {
                None
            }
        },
        _ => None,
    }
}

impl Tree {
    pub fn from_json(j: &Json) -> (r: Option<Self>)
        ensures
            match r {
                Some(t) => parse_tree(*j) == Some(t@),
                None => parse_tree(*j) is None,
            },
    {
        match j {
            Json::Obj(fields) => {
                let id = match get_num(fields, "id") {
                    Some(v) => v,
                    None => {
                        return None;
                    },
                };
                let split_type = match get_field(fields, "splitType") {
                    Some(x) => match SplitType::from_json(x) {
                        Some(v) => v,
                        None => {
                            return None;
                        },
                    },
                    None => {
                        return None;
                    },
                };
                let vacant = match get_bool(fields, "vacant") {
                    Some(v) => v,
                    None => {
                        return None;
                    },
                };
                let hidden = match get_bool(fields, "hidden") {
                    Some(v) => v,
                    None => {
                        return None;
                    },
                };
                let sticky = match get_bool(fields, "sticky") {
                    Some(v) => v,
                    None => {
                        return None;
                    },
                };
                let private = match get_bool(fields, "private") {
                    Some(v) => v,
                    None => {
                        return None;
                    },
                };
                let locked = match get_bool(fields, "locked") {
                    Some(v) => v,
                    None => {
                        return None;
                    },
                };
                let marked = match get_bool(fields, "marked") {
                    Some(v) => v,
                    None => {
                        return None;
                    },
                };
                let presel: Option<String> = match get_field(fields, "presel") {
                    None => None,
                    Some(Json::Null) => None,
                    Some(Json::Str(s)) => Some(s.clone()),
                    Some(_) => {
                        return None;
                    },
                };
                let rectangle = match get_field(fields, "rectangle") {
                    Some(x) => match Rectangle::from_json(x) {
                        Some(v) => v,
                        None => {
                            return None;
                        },
                    },
                    None => {
                        return None;
                    },
                };
                Some(Tree {
                    id,
                    split_type,
                    vacant,
                    hidden,
                    sticky,
                    private,
                    locked,
                    marked,
                    presel,
                    rectangle,
                })
            },
            _ => None,
        }
    }
}

/// The schema of a client object.
pub open spec fn parse_client(j: Json) -> Option<ClientV> {
    match j {
        Json::Obj(fields) => {
            let f = fields@;
            let class_name = field_str(f, "className"@);
            let instance_name = field_str(f, "instanceName"@);
            let border_width = field_num(f, "borderWidth"@);
            let state = match lookup(f, "state"@) {
                Some(x) => parse_layout(x),
                None => None,
            };
            let last_state = match lookup(f, "lastState"@) {
                Some(x) => parse_layout(x),
                None => None,
            };
            let layer = match lookup(f, "layer"@) {
                Some(x) => parse_layer(x),
                None => None,
            };
            let last_layer = match lookup(f, "lastLayer"@) {
                Some(x) => parse_layer(x),
                None => None,
            };
            let urgent = field_bool(f, "urgent"@);
            let shown = field_bool(f, "shown"@);
            let tiled_rectangle = match lookup(f, "tiledRectangle"@) {
                Some(x) => parse_rectangle(x),
                None => None,
            };
            let floating_rectangle = match lookup(f, "floatingRectangle"@) {
                Some(x) => parse_rectangle(x),
                None => None,
            };
            if class_name is Some && instance_name is Some && border_width is Some
                && state is Some && last_state is Some && layer is Some && last_layer is Some
                && urgent is Some && shown is Some && tiled_rectangle is Some
                && floating_rectangle is Some {
                Some(ClientV {
                    class_name: class_name.unwrap(),
                    instance_name: instance_name.unwrap(),
                    border_width: border_width.unwrap(),
                    state: state.unwrap(),
                    last_state: last_state.unwrap(),
                    layer: layer.unwrap(),
                    last_layer: last_layer.unwrap(),
                    urgent: urgent.unwrap(),
                    shown: shown.unwrap(),
                    tiled_rectangle: tiled_rectangle.unwrap(),
                    floating_rectangle: floating_rectangle.unwrap(),
                })
            } else {
                None
            }
        },
        _ => None,
    }
}

impl Client {
    pub fn from_json(j: &Json) -> (r: Option<Self>)
        ensures
            match r {
                Some(c) => parse_client(*j) == Some(c@),
                None => parse_client(*j) is None,
            },
    {
        match j {
            Json::Obj(fields) => {
                let class_name = match get_str(fields, "className") {
                    Some(v) => v,
                    None => {
                        return None;
                    },
                };
                let instance_name = match get_str(fields, "instanceName") {
                    Some(v) => v,
                    None => {
                        return None;
                    },
                };
                let border_width = match get_num(fields, "borderWidth") {
                    Some(v) => v,
                    None => {
                        return None;
                    },
                };
                let state = match get_field(fields, "state") {
                    Some(x) => match Layout::from_json(x) {
                        Some(v) => v,
                        None => {
                            return None;
                        },
                    },
                    None => {
                        return None;
                    },
                };
                let last_state = match get_field(fields, "lastState") {
                    Some(x) => match Layout::from_json(x) {
                        Some(v) => v,
                        None => {
                            return None;
                        },
                    },
                    None => {
                        return None;
                    },
                };
                let layer = match get_field(fields, "layer") {
                    Some(x) => match Layer::from_json(x) {
                        Some(v) => v,
                        None => {
                            return None;
                        },
                    },
                    None => {
                        return None;
                    },
                };
                let last_layer = match get_field(fields, "lastLayer") {
                    Some(x) => match Layer::from_json(x) {
                        Some(v) => v,
                        None => {
                            return None;
                        },
                    },
                    None => {
                        return None;
                    },
                };
                let urgent = match get_bool(fields, "urgent") {
                    Some(v) => v,
                    None => {
                        return None;
                    },
                };
                let shown = match get_bool(fields, "shown") {
                    Some(v) => v,
                    None => {
                        return None;
                    },
                };
                let tiled_rectangle = match get_field(fields, "tiledRectangle") {
                    Some(x) => match Rectangle::from_json(x) {
                        Some(v) => v,
                        None => {
                            return None;
                        },
                    },
                    None => {
                        return None;
                    },
                };
                let floating_rectangle = match get_field(fields, "floatingRectangle") {
                    Some(x) => match Rectangle::from_json(x) {
                        Some(v) => v,
                        None => {
                            return None;
                        },
                    },
                    None => {
                        return None;
                    },
                };
                Some(Client {
                    class_name,
                    instance_name,
                    border_width,
                    state,
                    last_state,
                    layer,
                    last_layer,
                    urgent,
                    shown,
                    tiled_rectangle,
                    floating_rectangle,
                })
            },
            _ => None,
        }
    }
}

/// The schema of a desktop object.
pub open spec fn parse_desktop(j: Json) -> Option<DesktopV> {
    match j {
        Json::Obj(fields) => {
            let f = fields@;
            let name = field_str(f, "name"@);
            let id = field_num(f, "id"@);
            let layout = match lookup(f, "layout"@) {
                Some(x) => parse_layout(x),
                None => None,
            };
            let user_layout = match lookup(f, "userLayout"@) {
                Some(x) => parse_layout(x),
                None => None,
            };
            let window_gap = field_num(f, "windowGap"@);
            let border_width = field_num(f, "borderWidth"@);
            let focused_node_id = field_num(f, "focusedNodeId"@);
            let padding = match lookup(f, "padding"@) {
                Some(x) => parse_padding(x),
                None => None,
            };
            let root = match lookup(f, "root"@) {
                None => Some(None),
                Some(Json::Null) => Some(None),
                Some(x) => match parse_tree(x) {
                    Some(t) => Some(Some(t)),
                    None => None,
                },
            };
            if name is Some && id is Some && layout is Some && user_layout is Some
                && window_gap is Some && border_width is Some && focused_node_id is Some
                && padding is Some && root is Some {
                Some(DesktopV {
                    name: name.unwrap(),
                    id: id.unwrap(),
                    layout: layout.unwrap(),
                    user_layout: user_layout.unwrap(),
                    window_gap: window_gap.unwrap(),
                    border_width: border_width.unwrap(),
                    focused_node_id: focused_node_id.unwrap(),
                    padding: padding.unwrap(),
                    root: root.unwrap(),
                })
            } else {
                None
            }
        },
        _ => None,
    }
}

impl Desktop {
    pub fn from_json(j: &Json) -> (r: Option<Self>)
        ensures
            match r {
                Some(d) => parse_desktop(*j) == Some(d@),
                None => parse_desktop(*j) is None,
            },
    {
        match j {
            Json::Obj(fields) => {
                let name = match get_str(fields, "name") {
                    Some(v) => v,
                    None => {
                        return None;
                    },
                };
                let id = match get_num(fields, "id") {
                    Some(v) => v,
                    None => {
                        return None;
                    },
                };
                let layout = match get_field(fields, "layout") {
                    Some(x) => match Layout::from_json(x) {
                        Some(v) => v,
                        None => {
                            return None;
                        },
                    },
                    None => {
                        return None;
                    },
                };
                let user_layout = match get_field(fields, "userLayout") {
                    Some(x) => match Layout::from_json(x) {
                        Some(v) => v,
                        None => {
                            return None;
                        },
                    },
                    None => {
                        return None;
                    },
                };
                let window_gap = match get_num(fields, "windowGap") {
                    Some(v) => v,
                    None => {
                        return None;
                    },
                };
                let border_width = match get_num(fields, "borderWidth") {
                    Some(v) => v,
                    None => {
                        return None;
                    },
                };
                let focused_node_id = match get_num(fields, "focusedNodeId") {
                    Some(v) => v,
                    None => {
                        return None;
                    },
                };
                let padding = match get_field(fields, "padding") {
                    Some(x) => match Padding::from_json(x) {
                        Some(v) => v,
                        None => {
                            return None;
                        },
                    },
                    None => {
                        return None;
                    },
                };
                let root: Option<Tree> = match get_field(fields, "root") {
                    None => None,
                    Some(Json::Null) => None,
                    Some(x) => match Tree::from_json(x) {
                        Some(t) => Some(t),
                        None => {
                            return None;
                        },
                    },
                };
                Some(Desktop {
                    name,
                    id,
                    layout,
                    user_layout,
                    window_gap,
                    border_width,
                    focused_node_id,
                    padding,
                    root,
                })
            },
            _ => None,
        }
    }
}

/// A whole array of desktops; one bad element fails the array.
pub open spec fn parse_desktops(a: Seq<Json>) -> Option<Seq<DesktopV>> {
    if forall|i: int| 0 <= i < a.len() ==> (#[trigger] parse_desktop(a[i])) is Some {
        Some(Seq::new(a.len(), |i: int| parse_desktop(a[i]).unwrap()))
    } else {
        None
    }
}

fn desktops_from_json(arr: &Vec<Json>) -> (r: Option<Vec<Desktop>>)
    ensures
        match r {
            Some(v) => parse_desktops(arr@) == Some(v@.map_values(|d: Desktop| d@)),
            None => parse_desktops(arr@) is None,
        },
{
    let mut out: Vec<Desktop> = Vec::new();
    let mut i: usize = 0;
    while i < arr.len()
        invariant
            i <= arr@.len(),
            out@.len() == i,
            forall|k: int|
                0 <= k < i ==> (#[trigger] parse_desktop(arr@[k])) is Some && out@[k]@
                    == parse_desktop(arr@[k]).unwrap(),
        decreases arr@.len() - i,
    {
        match Desktop::from_json(&arr[i]) {
            Some(d) => {
                out.push(d);
            },
            None => {
                return None;
            },
        }
        i = i + 1;
    }
    proof {
        assert(out@.map_values(|d: Desktop| d@) =~= Seq::new(
            arr@.len(),
            |i: int| parse_desktop(arr@[i]).unwrap(),
        ));
    }
    Some(out)
}

/// The schema of a monitor object.
pub open spec fn parse_monitor(j: Json) -> Option<MonitorV> {
    match j {
        Json::Obj(fields) => {
            let f = fields@;
            let name = field_str(f, "name"@);
            let id = field_num(f, "id"@);
            let randr_id = field_num(f, "randrId"@);
            let wired = field_bool(f, "wired"@);
            let sticky_count = field_num(f, "stickyCount"@);
            let window_gap = field_num(f, "windowGap"@);
            let border_width = field_num(f, "borderWidth"@);
            let focused_desktop_id = field_num(f, "focusedDesktopId"@);
            let desktops = match lookup(f, "desktops"@) {
                Some(Json::Arr(a)) => parse_desktops(a@),
                _ => None,
            };
            if name is Some && id is Some && randr_id is Some && wired is Some
                && sticky_count is Some && window_gap is Some && border_width is Some
                && focused_desktop_id is Some && desktops is Some {
                Some(MonitorV {
                    name: name.unwrap(),
                    id: id.unwrap(),
                    randr_id: randr_id.unwrap(),
                    wired: wired.unwrap(),
                    sticky_count: sticky_count.unwrap(),
                    window_gap: window_gap.unwrap(),
                    border_width: border_width.unwrap(),
                    focused_desktop_id: focused_desktop_id.unwrap(),
                    desktops: desktops.unwrap(),
                })
            } else {
                None
            }
        },
        _ => None,
    }
}

impl Monitor {
    pub fn from_json(j: &Json) -> (r: Option<Self>)
        ensures
            match r {
                Some(m) => parse_monitor(*j) == Some(m@),
                None => parse_monitor(*j) is None,
            },
    {
        match j {
            Json::Obj(fields) => {
                let name = match get_str(fields, "name") {
                    Some(v) => v,
                    None => {
                        return None;
                    },
                };
                let id = match get_num(fields, "id") {
                    Some(v) => v,
                    None => {
                        return None;
                    },
                };
                let randr_id = match get_num(fields, "randrId") {
                    Some(v) => v,
                    None => {
                        return None;
                    },
                };
                let wired = match get_bool(fields, "wired") {
                    Some(v) => v,
                    None => {
                        return None;
                    },
                };
                let sticky_count = match get_num(fields, "stickyCount") {
                    Some(v) => v,
                    None => {
                        return None;
                    },
                };
                let window_gap = match get_num(fields, "windowGap") {
                    Some(v) => v,
                    None => {
                        return None;
                    },
                };
                let border_width = match get_num(fields, "borderWidth") {
                    Some(v) => v,
                    None => {
                        return None;
                    },
                };
                let focused_desktop_id = match get_num(fields, "focusedDesktopId") {
                    Some(v) => v,
                    None => {
                        return None;
                    },
                };
                let desktops = match get_field(fields, "desktops") {
                    Some(Json::Arr(a)) => match desktops_from_json(a) {
                        Some(v) => v,
                        None => {
                            return None;
                        },
                    },
                    _ => {
                        return None;
                    },
                };
                Some(Monitor {
                    name,
                    id,
                    randr_id,
                    wired,
                    sticky_count,
                    window_gap,
                    border_width,
                    focused_desktop_id,
                    desktops,
                })
            },
            _ => None,
        }
    }
}

/// A whole array of monitors; one bad element fails the array.
pub open spec fn parse_monitors(a: Seq<Json>) -> Option<Seq<MonitorV>> {
    if forall|i: int| 0 <= i < a.len() ==> (#[trigger] parse_monitor(a[i])) is Some {
        Some(Seq::new(a.len(), |i: int| parse_monitor(a[i]).unwrap()))
    } else {
        None
    }
}

fn monitors_from_json(arr: &Vec<Json>) -> (r: Option<Vec<Monitor>>)
    ensures
        match r {
            Some(v) => parse_monitors(arr@) == Some(v@.map_values(|m: Monitor| m@)),
            None => parse_monitors(arr@) is None,
        },
{
    let mut out: Vec<Monitor> = Vec::new();
    let mut i: usize = 0;
    while i < arr.len()
        invariant
            i <= arr@.len(),
            out@.len() == i,
            forall|k: int|
                0 <= k < i ==> (#[trigger] parse_monitor(arr@[k])) is Some && out@[k]@
                    == parse_monitor(arr@[k]).unwrap(),
        decreases arr@.len() - i,
    {
        match Monitor::from_json(&arr[i]) {
            Some(m) => {
                out.push(m);
            },
            None => {
                return None;
            },
        }
        i = i + 1;
    }
    proof {
        assert(out@.map_values(|m: Monitor| m@) =~= Seq::new(
            arr@.len(),
            |i: int| parse_monitor(arr@[i]).unwrap(),
        ));
    }
    Some(out)
}

/// A whole array of focus-history entries.
pub open spec fn parse_focuses(a: Seq<Json>) -> Option<Seq<Focus>> {
    if forall|i: int| 0 <= i < a.len() ==> (#[trigger] parse_focus(a[i])) is Some {
        Some(Seq::new(a.len(), |i: int| parse_focus(a[i]).unwrap()))
    } else {
        None
    }
}

fn focuses_from_json(arr: &Vec<Json>) -> (r: Option<Vec<Focus>>)
    ensures
        match r {
            Some(v) => parse_focuses(arr@) == Some(v@),
            None => parse_focuses(arr@) is None,
        },
{
    let mut out: Vec<Focus> = Vec::new();
    let mut i: usize = 0;
    while i < arr.len()
        invariant
            i <= arr@.len(),
            out@.len() == i,
            forall|k: int|
                0 <= k < i ==> (#[trigger] parse_focus(arr@[k])) is Some && out@[k]
                    == parse_focus(arr@[k]).unwrap(),
        decreases arr@.len() - i,
    {
        match Focus::from_json(&arr[i]) {
            Some(e) => {
                out.push(e);
            },
            None => {
                return None;
            },
        }
        i = i + 1;
    }
    proof {
        assert(out@ =~= Seq::new(arr@.len(), |i: int| parse_focus(arr@[i]).unwrap()));
    }
    Some(out)
}

/// One numeric element of the stacking list.
pub open spec fn parse_num(j: Json) -> Option<usize> {
    match j {
        Json::Num(n) => if n <= usize::MAX {
            Some(n as usize)
        } else {
            None
        },
        _ => None,
    }
}

/// A whole array of node identifiers.
pub open spec fn parse_nums(a: Seq<Json>) -> Option<Seq<usize>> {
    if forall|i: int| 0 <= i < a.len() ==> (#[trigger] parse_num(a[i])) is Some {
        Some(Seq::new(a.len(), |i: int| parse_num(a[i]).unwrap()))
    } else {
        None
    }
}

fn nums_from_json(arr: &Vec<Json>) -> (r: Option<Vec<usize>>)
    ensures
        match r {
            Some(v) => parse_nums(arr@) == Some(v@),
            None => parse_nums(arr@) is None,
        },
{
    let mut out: Vec<usize> = Vec::new();
    let mut i: usize = 0;
    while i < arr.len()
        invariant
            i <= arr@.len(),
            out@.len() == i,
            forall|k: int|
                0 <= k < i ==> (#[trigger] parse_num(arr@[k])) is Some && out@[k]
                    == parse_num(arr@[k]).unwrap(),
        decreases arr@.len() - i,
    {
        match &arr[i] {
            Json::Num(n) => {
                if *n <= usize::MAX as u64 {
                    out.push(*n as usize);
                } else {
                    proof {
                        assert(parse_num(arr@[i as int]) is None);
                    }
                    return None;
                }
            },
            _ => {
                proof {
                    assert(parse_num(arr@[i as int]) is None);
                }
                return None;
            },
        }
        i = i + 1;
    }
    proof {
        assert(out@ =~= Seq::new(arr@.len(), |i: int| parse_num(arr@[i]).unwrap()));
    }
    Some(out)
}

/// The schema of a full-state dump.
pub open spec fn parse_state(j: Json) -> Option<StateV> {
    match j {
        Json::Obj(fields) => {
            let f = fields@;
            let focused_monitor_id = field_num(f, "focusedMonitorId"@);
            let primary_monitor_id = field_num(f, "primaryMonitorId"@);
            let clients_count = field_num(f, "clientsCount"@);
            let monitors = match lookup(f, "monitors"@) {
                Some(Json::Arr(a)) => parse_monitors(a@),
                _ => None,
            };
            let focus_history = match lookup(f, "focusHistory"@) {
                Some(Json::Arr(a)) => parse_focuses(a@),
                _ => None,
            };
            let stacking_list = match lookup(f, "stackingList"@) {
                Some(Json::Arr(a)) => parse_nums(a@),
                _ => None,
            };
            if focused_monitor_id is Some && primary_monitor_id is Some && clients_count is Some
                && monitors is Some && focus_history is Some && stacking_list is Some {
                Some(StateV {
                    focused_monitor_id: focused_monitor_id.unwrap(),
                    primary_monitor_id: primary_monitor_id.unwrap(),
                    clients_count: clients_count.unwrap(),
                    monitors: monitors.unwrap(),
                    focus_history: focus_history.unwrap(),
                    stacking_list: stacking_list.unwrap(),
                })
            } else {
                None
            }
        },
        _ => None,
    }
}

impl State {
    pub fn from_json(j: &Json) -> (r: Option<Self>)
        ensures
            match r {
                Some(s) => parse_state(*j) == Some(s@),
                None => parse_state(*j) is None,
            },
    {
        match j {
            Json::Obj(fields) => {
                let focused_monitor_id = match get_num(fields, "focusedMonitorId") {
                    Some(v) => v,
                    None => {
                        return None;
                    },
                };
                let primary_monitor_id = match get_num(fields, "primaryMonitorId") {
                    Some(v) => v,
                    None => {
                        return None;
                    },
                };
                let clients_count = match get_num(fields, "clientsCount") {
                    Some(v) => v,
                    None => {
                        return None;
                    },
                };
                let monitors = match get_field(fields, "monitors") {
                    Some(Json::Arr(a)) => match monitors_from_json(a) {
                        Some(v) => v,
                        None => {
                            return None;
                        },
                    },
                    _ => {
                        return None;
                    },
                };
                let focus_history = match get_field(fields, "focusHistory") {
                    Some(Json::Arr(a)) => match focuses_from_json(a) {
                        Some(v) => v,
                        None => {
                            return None;
                        },
                    },
                    _ => {
                        return None;
                    },
                };
                let stacking_list = match get_field(fields, "stackingList") {
                    Some(Json::Arr(a)) => match nums_from_json(a) {
                        Some(v) => v,
                        None => {
                            return None;
                        },
                    },
                    _ => {
                        return None;
                    },
                };
                Some(State {
                    focused_monitor_id,
                    primary_monitor_id,
                    clients_count,
                    monitors,
                    focus_history,
                    stacking_list,
                })
            },
            _ => None,
        }
    }
}

/// What a byte stream decodes to as a full-state dump.
pub open spec fn decode_state(b: Seq<u8>) -> Option<StateV> {
    match json_of(b) {
        Some(j) => parse_state(j),
        None => None,
    }
}

/// What a byte stream decodes to as a monitor tree.
pub open spec fn decode_monitor(b: Seq<u8>) -> Option<MonitorV> {
    match json_of(b) {
        Some(j) => parse_monitor(j),
        None => None,
    }
}

/// What a byte stream decodes to as a desktop tree.
pub open spec fn decode_desktop(b: Seq<u8>) -> Option<DesktopV> {
    match json_of(b) {
        Some(j) => parse_desktop(j),
        None => None,
    }
}

/// Decodes a full-state dump from the manager's raw output.  Malformed or
/// empty input is a deserialization failure, never a panic and never a
/// defaulted structure.
pub fn state_from_slice(b: &[u8]) -> (r: Result<State, Error>)
    ensures
        match r {
            Ok(s) => decode_state(b@) == Some(s@),
            Err(e) => decode_state(b@) is None && e is Deserialize,
        },
{
    match json_from_slice(b) {
        Some(j) => match State::from_json(&j) {
            Some(s) => Ok(s),
            None => Err(Error::Deserialize),
        },
        None => Err(Error::Deserialize),
    }
}

/// Decodes a monitor tree from the manager's raw output.
pub fn monitor_from_slice(b: &[u8]) -> (r: Result<Monitor, Error>)
    ensures
        match r {
            Ok(m) => decode_monitor(b@) == Some(m@),
            Err(e) => decode_monitor(b@) is None && e is Deserialize,
        },
{
    match json_from_slice(b) {
        Some(j) => match Monitor::from_json(&j) {
            Some(m) => Ok(m),
            None => Err(Error::Deserialize),
        },
        None => Err(Error::Deserialize),
    }
}

/// Decodes a desktop tree from the manager's raw output.
pub fn desktop_from_slice(b: &[u8]) -> (r: Result<Desktop, Error>)
    ensures
        match r {
            Ok(d) => decode_desktop(b@) == Some(d@),
            Err(e) => decode_desktop(b@) is None && e is Deserialize,
        },
{
    match json_from_slice(b) {
        Some(j) => match Desktop::from_json(&j) {
            Some(d) => Ok(d),
            None => Err(Error::Deserialize),
        },
        None => Err(Error::Deserialize),
    }
}

} // verus!
