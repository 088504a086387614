//! Encoding the typed model back into JSON documents.
//!
//! Each `to_json` carries the round trip as its contract: decoding the
//! encoded document yields exactly the value that was encoded.  Together
//! with the `parse_…` functions this pins both directions of the schema.

use vstd::prelude::*;

use crate::json::{lemma_lookup_at, Json};
use crate::model::{
    Client, Constraints, Desktop, Focus, Layer, Layout, Monitor, Padding, Rectangle, SplitType,
    State, Tree,
};
use crate::parse::{
    parse_client, parse_constraints, parse_desktop, parse_desktops, parse_focus, parse_focuses,
    parse_layer, parse_layout, parse_monitor, parse_monitors, parse_num, parse_nums,
    parse_padding, parse_rectangle, parse_split_type, parse_state, parse_tree,
};

verus! {

impl Layout {
    /// Encodes the value as its JSON literal; decoding it gives it back.
    pub fn to_json(&self) -> (r: Json)
        ensures
            parse_layout(r) == Some(*self),
    {
        proof {
            reveal_strlit("tiled");
            reveal_strlit("psuedoTiled");
            reveal_strlit("floating");
            reveal_strlit("monocle");
            assert("tiled"@.len() == 5 && "psuedoTiled"@.len() == 11 && "floating"@.len() == 8 && "monocle"@.len() == 7);
        }
        match self {
            Layout::Tiled => Json::Str("tiled".to_owned()),
            Layout::PsuedoTiled => Json::Str("psuedoTiled".to_owned()),
            Layout::Floating => Json::Str("floating".to_owned()),
            Layout::Monocle => Json::Str("monocle".to_owned()),
        }
    }
}

impl SplitType {
    /// Encodes the value as its JSON literal; decoding it gives it back.
    pub fn to_json(&self) -> (r: Json)
        ensures
            parse_split_type(r) == Some(*self),
    {
        proof {
            reveal_strlit("vertical");
            reveal_strlit("horizontal");
            assert("vertical"@.len() == 8 && "horizontal"@.len() == 10);
        }
        match self {
            SplitType::Vertical => Json::Str("vertical".to_owned()),
            SplitType::Horizontal => Json::Str("horizontal".to_owned()),
        }
    }
}

impl Layer {
    /// Encodes the value as its JSON literal; decoding it gives it back.
    pub fn to_json(&self) -> (r: Json)
        ensures
            parse_layer(r) == Some(*self),
    {
        proof {
            reveal_strlit("normal");
            assert("normal"@.len() == 6);
        }
        match self {
            Layer::Normal => Json::Str("normal".to_owned()),
        }
    }
}

impl Rectangle {
    /// Encodes the value as its JSON object; decoding it gives it back.
    pub fn to_json(&self) -> (r: Json)
        ensures
            parse_rectangle(r) == Some(*self),
    {
        let mut fields: Vec<(String, Json)> = Vec::new();
        fields.push(("x".to_owned(), Json::Num(self.x as u64)));
        fields.push(("y".to_owned(), Json::Num(self.y as u64)));
        fields.push(("width".to_owned(), Json::Num(self.width as u64)));
        fields.push(("height".to_owned(), Json::Num(self.height as u64)));
        proof {
            reveal_strlit("x");
            reveal_strlit("y");
            reveal_strlit("width");
            reveal_strlit("height");
            assert("x"@.len() == 1 && "y"@.len() == 1 && "width"@.len() == 5 && "height"@.len() == 6);
            assert("x"@[0] == 'x' && "y"@[0] == 'y' && "width"@[0] == 'w' && "height"@[0] == 'h');
            let f = fields@;
            assert(f.len() == 4 && f[0].0@ == "x"@ && f[1].0@ == "y"@ && f[2].0@ == "width"@ && f[3].0@ == "height"@);
            lemma_lookup_at(f, "x"@, 0);
            lemma_lookup_at(f, "y"@, 1);
            lemma_lookup_at(f, "width"@, 2);
            lemma_lookup_at(f, "height"@, 3);
        }
        Json::Obj(fields)
    }
}

impl Padding {
    /// Encodes the value as its JSON object; decoding it gives it back.
    pub fn to_json(&self) -> (r: Json)
        ensures
            parse_padding(r) == Some(*self),
    {
        let mut fields: Vec<(String, Json)> = Vec::new();
        fields.push(("top".to_owned(), Json::Num(self.top as u64)));
        fields.push(("right".to_owned(), Json::Num(self.right as u64)));
        fields.push(("bottom".to_owned(), Json::Num(self.bottom as u64)));
        fields.push(("left".to_owned(), Json::Num(self.left as u64)));
        proof {
            reveal_strlit("top");
            reveal_strlit("right");
            reveal_strlit("bottom");
            reveal_strlit("left");
            assert("top"@.len() == 3 && "right"@.len() == 5 && "bottom"@.len() == 6 && "left"@.len() == 4);
            assert("top"@[0] == 't' && "right"@[0] == 'r' && "bottom"@[0] == 'b' && "left"@[0] == 'l');
            let f = fields@;
            assert(f.len() == 4 && f[0].0@ == "top"@ && f[1].0@ == "right"@ && f[2].0@ == "bottom"@ && f[3].0@ == "left"@);
            lemma_lookup_at(f, "top"@, 0);
            lemma_lookup_at(f, "right"@, 1);
            lemma_lookup_at(f, "bottom"@, 2);
            lemma_lookup_at(f, "left"@, 3);
        }
        Json::Obj(fields)
    }
}

impl Constraints {
    /// Encodes the value as its JSON object; decoding it gives it back.
    pub fn to_json(&self) -> (r: Json)
        ensures
            parse_constraints(r) == Some(*self),
    {
        let mut fields: Vec<(String, Json)> = Vec::new();
        fields.push(("minWidth".to_owned(), Json::Num(self.min_width as u64)));
        fields.push(("minHeight".to_owned(), Json::Num(self.min_height as u64)));
        proof {
            reveal_strlit("minWidth");
            reveal_strlit("minHeight");
            assert("minWidth"@.len() == 8 && "minHeight"@.len() == 9);
            assert("minWidth"@[0] == 'm' && "minHeight"@[0] == 'm');
            let f = fields@;
            assert(f.len() == 2 && f[0].0@ == "minWidth"@ && f[1].0@ == "minHeight"@);
            lemma_lookup_at(f, "minWidth"@, 0);
            lemma_lookup_at(f, "minHeight"@, 1);
        }
        Json::Obj(fields)
    }
}

impl Focus {
    /// Encodes the value as its JSON object; decoding it gives it back.
    pub fn to_json(&self) -> (r: Json)
        ensures
            parse_focus(r) == Some(*self),
    {
        let mut fields: Vec<(String, Json)> = Vec::new();
        fields.push(("monitorId".to_owned(), Json::Num(self.monitor_id() as u64)));
        fields.push(("desktopId".to_owned(), Json::Num(self.desktop_id() as u64)));
        fields.push(("nodeId".to_owned(), Json::Num(self.node_id() as u64)));
        proof {
            reveal_strlit("monitorId");
            reveal_strlit("desktopId");
            reveal_strlit("nodeId");
            assert("monitorId"@.len() == 9 && "desktopId"@.len() == 9 && "nodeId"@.len() == 6);
            assert("monitorId"@[0] == 'm' && "desktopId"@[0] == 'd' && "nodeId"@[0] == 'n');
            let f = fields@;
            assert(f.len() == 3 && f[0].0@ == "monitorId"@ && f[1].0@ == "desktopId"@ && f[2].0@ == "nodeId"@);
            lemma_lookup_at(f, "monitorId"@, 0);
            lemma_lookup_at(f, "desktopId"@, 1);
            lemma_lookup_at(f, "nodeId"@, 2);
            Focus::lemma_from_ids(*self);
        }
        Json::Obj(fields)
    }
}

impl Tree {
    /// Encodes the value as its JSON object; decoding it gives it back.
    pub fn to_json(&self) -> (r: Json)
        ensures
            parse_tree(r) == Some(self@),
    {
        let mut fields: Vec<(String, Json)> = Vec::new();
        fields.push(("id".to_owned(), Json::Num(self.id as u64)));
        fields.push(("splitType".to_owned(), self.split_type.to_json()));
        fields.push(("vacant".to_owned(), Json::Bool(self.vacant)));
        fields.push(("hidden".to_owned(), Json::Bool(self.hidden)));
        fields.push(("sticky".to_owned(), Json::Bool(self.sticky)));
        fields.push(("private".to_owned(), Json::Bool(self.private)));
        fields.push(("locked".to_owned(), Json::Bool(self.locked)));
        fields.push(("marked".to_owned(), Json::Bool(self.marked)));
        fields.push(("presel".to_owned(), (match &self.presel {
            Some(s) => Json::Str(s.clone()),
            None => Json::Null,
        })));
        fields.push(("rectangle".to_owned(), self.rectangle.to_json()));
        proof {
            reveal_strlit("id");
            reveal_strlit("splitType");
            reveal_strlit("vacant");
            reveal_strlit("hidden");
            reveal_strlit("sticky");
            reveal_strlit("private");
            reveal_strlit("locked");
            reveal_strlit("marked");
            reveal_strlit("presel");
            reveal_strlit("rectangle");
            assert("id"@.len() == 2 && "splitType"@.len() == 9 && "vacant"@.len() == 6 && "hidden"@.len() == 6 && "sticky"@.len() == 6 && "private"@.len() == 7 && "locked"@.len() == 6 && "marked"@.len() == 6 && "presel"@.len() == 6 && "rectangle"@.len() == 9);
            assert("id"@[0] == 'i' && "splitType"@[0] == 's' && "vacant"@[0] == 'v' && "hidden"@[0] == 'h' && "sticky"@[0] == 's' && "private"@[0] == 'p' && "locked"@[0] == 'l' && "marked"@[0] == 'm' && "presel"@[0] == 'p' && "rectangle"@[0] == 'r');
            let f = fields@;
            assert(f.len() == 10 && f[0].0@ == "id"@ && f[1].0@ == "splitType"@ && f[2].0@ == "vacant"@ && f[3].0@ == "hidden"@ && f[4].0@ == "sticky"@ && f[5].0@ == "private"@ && f[6].0@ == "locked"@ && f[7].0@ == "marked"@ && f[8].0@ == "presel"@ && f[9].0@ == "rectangle"@);
            lemma_lookup_at(f, "id"@, 0);
            lemma_lookup_at(f, "splitType"@, 1);
            lemma_lookup_at(f, "vacant"@, 2);
            lemma_lookup_at(f, "hidden"@, 3);
            lemma_lookup_at(f, "sticky"@, 4);
            lemma_lookup_at(f, "private"@, 5);
            lemma_lookup_at(f, "locked"@, 6);
            lemma_lookup_at(f, "marked"@, 7);
            lemma_lookup_at(f, "presel"@, 8);
            lemma_lookup_at(f, "rectangle"@, 9);
        }
        Json::Obj(fields)
    }
}

impl Client {
    /// Encodes the value as its JSON object; decoding it gives it back.
    pub fn to_json(&self) -> (r: Json)
        ensures
            parse_client(r) == Some(self@),
    {
        let mut fields: Vec<(String, Json)> = Vec::new();
        fields.push(("className".to_owned(), Json::Str(self.class_name.clone())));
        fields.push(("instanceName".to_owned(), Json::Str(self.instance_name.clone())));
        fields.push(("borderWidth".to_owned(), Json::Num(self.border_width as u64)));
        fields.push(("state".to_owned(), self.state.to_json()));
        fields.push(("lastState".to_owned(), self.last_state.to_json()));
        fields.push(("layer".to_owned(), self.layer.to_json()));
        fields.push(("lastLayer".to_owned(), self.last_layer.to_json()));
        fields.push(("urgent".to_owned(), Json::Bool(self.urgent)));
        fields.push(("shown".to_owned(), Json::Bool(self.shown)));
        fields.push(("tiledRectangle".to_owned(), self.tiled_rectangle.to_json()));
        fields.push(("floatingRectangle".to_owned(), self.floating_rectangle.to_json()));
        proof {
            reveal_strlit("className");
            reveal_strlit("instanceName");
            reveal_strlit("borderWidth");
            reveal_strlit("state");
            reveal_strlit("lastState");
            reveal_strlit("layer");
            reveal_strlit("lastLayer");
            reveal_strlit("urgent");
            reveal_strlit("shown");
            reveal_strlit("tiledRectangle");
            reveal_strlit("floatingRectangle");
            assert("className"@.len() == 9 && "instanceName"@.len() == 12 && "borderWidth"@.len() == 11 && "state"@.len() == 5 && "lastState"@.len() == 9 && "layer"@.len() == 5 && "lastLayer"@.len() == 9 && "urgent"@.len() == 6 && "shown"@.len() == 5 && "tiledRectangle"@.len() == 14 && "floatingRectangle"@.len() == 17);
            assert("className"@[0] == 'c' && "instanceName"@[0] == 'i' && "borderWidth"@[0] == 'b' && "state"@[0] == 's' && "lastState"@[0] == 'l' && "layer"@[0] == 'l' && "lastLayer"@[0] == 'l' && "urgent"@[0] == 'u' && "shown"@[0] == 's' && "tiledRectangle"@[0] == 't' && "floatingRectangle"@[0] == 'f');
            assert("lastState"@[4] == 'S' && "lastLayer"@[4] == 'L' && "state"@[1] == 't' && "shown"@[1] == 'h');
            let f = fields@;
            assert(f.len() == 11 && f[0].0@ == "className"@ && f[1].0@ == "instanceName"@ && f[2].0@ == "borderWidth"@ && f[3].0@ == "state"@ && f[4].0@ == "lastState"@ && f[5].0@ == "layer"@ && f[6].0@ == "lastLayer"@ && f[7].0@ == "urgent"@ && f[8].0@ == "shown"@ && f[9].0@ == "tiledRectangle"@ && f[10].0@ == "floatingRectangle"@);
            lemma_lookup_at(f, "className"@, 0);
            lemma_lookup_at(f, "instanceName"@, 1);
            lemma_lookup_at(f, "borderWidth"@, 2);
            lemma_lookup_at(f, "state"@, 3);
            lemma_lookup_at(f, "lastState"@, 4);
            lemma_lookup_at(f, "layer"@, 5);
            lemma_lookup_at(f, "lastLayer"@, 6);
            lemma_lookup_at(f, "urgent"@, 7);
            lemma_lookup_at(f, "shown"@, 8);
            lemma_lookup_at(f, "tiledRectangle"@, 9);
            lemma_lookup_at(f, "floatingRectangle"@, 10);
        }
        Json::Obj(fields)
    }
}

impl Desktop {
    /// Encodes the value as its JSON object; decoding it gives it back.
    pub fn to_json(&self) -> (r: Json)
        ensures
            parse_desktop(r) == Some(self@),
    {
        let mut fields: Vec<(String, Json)> = Vec::new();
        fields.push(("name".to_owned(), Json::Str(self.name.clone())));
        fields.push(("id".to_owned(), Json::Num(self.id as u64)));
        fields.push(("layout".to_owned(), self.layout.to_json()));
        fields.push(("userLayout".to_owned(), self.user_layout.to_json()));
        fields.push(("windowGap".to_owned(), Json::Num(self.window_gap as u64)));
        fields.push(("borderWidth".to_owned(), Json::Num(self.border_width as u64)));
        fields.push(("focusedNodeId".to_owned(), Json::Num(self.focused_node_id as u64)));
        fields.push(("padding".to_owned(), self.padding.to_json()));
        fields.push(("root".to_owned(), (match &self.root {
            Some(t) => t.to_json(),
            None => Json::Null,
        })));
        proof {
            reveal_strlit("name");
            reveal_strlit("id");
            reveal_strlit("layout");
            reveal_strlit("userLayout");
            reveal_strlit("windowGap");
            reveal_strlit("borderWidth");
            reveal_strlit("focusedNodeId");
            reveal_strlit("padding");
            reveal_strlit("root");
            assert("name"@.len() == 4 && "id"@.len() == 2 && "layout"@.len() == 6 && "userLayout"@.len() == 10 && "windowGap"@.len() == 9 && "borderWidth"@.len() == 11 && "focusedNodeId"@.len() == 13 && "padding"@.len() == 7 && "root"@.len() == 4);
            assert("name"@[0] == 'n' && "id"@[0] == 'i' && "layout"@[0] == 'l' && "userLayout"@[0] == 'u' && "windowGap"@[0] == 'w' && "borderWidth"@[0] == 'b' && "focusedNodeId"@[0] == 'f' && "padding"@[0] == 'p' && "root"@[0] == 'r');
            let f = fields@;
            assert(f.len() == 9 && f[0].0@ == "name"@ && f[1].0@ == "id"@ && f[2].0@ == "layout"@ && f[3].0@ == "userLayout"@ && f[4].0@ == "windowGap"@ && f[5].0@ == "borderWidth"@ && f[6].0@ == "focusedNodeId"@ && f[7].0@ == "padding"@ && f[8].0@ == "root"@);
            lemma_lookup_at(f, "name"@, 0);
            lemma_lookup_at(f, "id"@, 1);
            lemma_lookup_at(f, "layout"@, 2);
            lemma_lookup_at(f, "userLayout"@, 3);
            lemma_lookup_at(f, "windowGap"@, 4);
            lemma_lookup_at(f, "borderWidth"@, 5);
            lemma_lookup_at(f, "focusedNodeId"@, 6);
            lemma_lookup_at(f, "padding"@, 7);
            lemma_lookup_at(f, "root"@, 8);
        }
        Json::Obj(fields)
    }
}

fn desktops_to_json(v: &Vec<Desktop>) -> (r: Vec<Json>)
    ensures
        parse_desktops(r@) == Some(v@.map_values(|d: Desktop| d@)),
{
    let mut out: Vec<Json> = Vec::new();
    let mut i: usize = 0;
    while i < v.len()
        invariant
            i <= v@.len(),
            out@.len() == i,
            forall|k: int| 0 <= k < i ==> #[trigger] parse_desktop(out@[k]) == Some(v@[k]@),
        decreases v@.len() - i,
    {
        out.push(v[i].to_json());
        i = i + 1;
    }
    proof {
        assert(v@.map_values(|d: Desktop| d@) =~= Seq::new(
            out@.len(),
            |k: int| parse_desktop(out@[k]).unwrap(),
        ));
    }
    out
}

impl Monitor {
    /// Encodes the value as its JSON object; decoding it gives it back.
    pub fn to_json(&self) -> (r: Json)
        ensures
            parse_monitor(r) == Some(self@),
    {
        let mut fields: Vec<(String, Json)> = Vec::new();
        fields.push(("name".to_owned(), Json::Str(self.name.clone())));
        fields.push(("id".to_owned(), Json::Num(self.id as u64)));
        fields.push(("randrId".to_owned(), Json::Num(self.randr_id as u64)));
        fields.push(("wired".to_owned(), Json::Bool(self.wired)));
        fields.push(("stickyCount".to_owned(), Json::Num(self.sticky_count as u64)));
        fields.push(("windowGap".to_owned(), Json::Num(self.window_gap as u64)));
        fields.push(("borderWidth".to_owned(), Json::Num(self.border_width as u64)));
        fields.push(("focusedDesktopId".to_owned(), Json::Num(self.focused_desktop_id as u64)));
        fields.push(("desktops".to_owned(), Json::Arr(desktops_to_json(&self.desktops))));
        proof {
            reveal_strlit("name");
            reveal_strlit("id");
            reveal_strlit("randrId");
            reveal_strlit("wired");
            reveal_strlit("stickyCount");
            reveal_strlit("windowGap");
            reveal_strlit("borderWidth");
            reveal_strlit("focusedDesktopId");
            reveal_strlit("desktops");
            assert("name"@.len() == 4 && "id"@.len() == 2 && "randrId"@.len() == 7 && "wired"@.len() == 5 && "stickyCount"@.len() == 11 && "windowGap"@.len() == 9 && "borderWidth"@.len() == 11 && "focusedDesktopId"@.len() == 16 && "desktops"@.len() == 8);
            assert("name"@[0] == 'n' && "id"@[0] == 'i' && "randrId"@[0] == 'r' && "wired"@[0] == 'w' && "stickyCount"@[0] == 's' && "windowGap"@[0] == 'w' && "borderWidth"@[0] == 'b' && "focusedDesktopId"@[0] == 'f' && "desktops"@[0] == 'd');
            let f = fields@;
            assert(f.len() == 9 && f[0].0@ == "name"@ && f[1].0@ == "id"@ && f[2].0@ == "randrId"@ && f[3].0@ == "wired"@ && f[4].0@ == "stickyCount"@ && f[5].0@ == "windowGap"@ && f[6].0@ == "borderWidth"@ && f[7].0@ == "focusedDesktopId"@ && f[8].0@ == "desktops"@);
            lemma_lookup_at(f, "name"@, 0);
            lemma_lookup_at(f, "id"@, 1);
            lemma_lookup_at(f, "randrId"@, 2);
            lemma_lookup_at(f, "wired"@, 3);
            lemma_lookup_at(f, "stickyCount"@, 4);
            lemma_lookup_at(f, "windowGap"@, 5);
            lemma_lookup_at(f, "borderWidth"@, 6);
            lemma_lookup_at(f, "focusedDesktopId"@, 7);
            lemma_lookup_at(f, "desktops"@, 8);
        }
        Json::Obj(fields)
    }
}

fn monitors_to_json(v: &Vec<Monitor>) -> (r: Vec<Json>)
    ensures
        parse_monitors(r@) == Some(v@.map_values(|m: Monitor| m@)),
{
    let mut out: Vec<Json> = Vec::new();
    let mut i: usize = 0;
    while i < v.len()
        invariant
            i <= v@.len(),
            out@.len() == i,
            forall|k: int| 0 <= k < i ==> #[trigger] parse_monitor(out@[k]) == Some(v@[k]@),
        decreases v@.len() - i,
    {
        out.push(v[i].to_json());
        i = i + 1;
    }
    proof {
        assert(v@.map_values(|m: Monitor| m@) =~= Seq::new(
            out@.len(),
            |k: int| parse_monitor(out@[k]).unwrap(),
        ));
    }
    out
}

fn focuses_to_json(v: &Vec<Focus>) -> (r: Vec<Json>)
    ensures
        parse_focuses(r@) == Some(v@),
{
    let mut out: Vec<Json> = Vec::new();
    let mut i: usize = 0;
    while i < v.len()
        invariant
            i <= v@.len(),
            out@.len() == i,
            forall|k: int| 0 <= k < i ==> #[trigger] parse_focus(out@[k]) == Some(v@[k]),
        decreases v@.len() - i,
    {
        out.push(v[i].to_json());
        i = i + 1;
    }
    proof {
        assert(v@ =~= Seq::new(out@.len(), |k: int| parse_focus(out@[k]).unwrap()));
    }
    out
}

fn nums_to_json(v: &Vec<usize>) -> (r: Vec<Json>)
    ensures
        parse_nums(r@) == Some(v@),
{
    let mut out: Vec<Json> = Vec::new();
    let mut i: usize = 0;
    while i < v.len()
        invariant
            i <= v@.len(),
            out@.len() == i,
            forall|k: int| 0 <= k < i ==> #[trigger] parse_num(out@[k]) == Some(v@[k]),
        decreases v@.len() - i,
    {
        out.push(Json::Num(v[i] as u64));
        i = i + 1;
    }
    proof {
        assert(v@ =~= Seq::new(out@.len(), |k: int| parse_num(out@[k]).unwrap()));
    }
    out
}

impl State {
    /// Encodes the value as its JSON object; decoding it gives it back.
    pub fn to_json(&self) -> (r: Json)
        ensures
            parse_state(r) == Some(self@),
    {
        let mut fields: Vec<(String, Json)> = Vec::new();
        fields.push(("focusedMonitorId".to_owned(), Json::Num(self.focused_monitor_id as u64)));
        fields.push(("primaryMonitorId".to_owned(), Json::Num(self.primary_monitor_id as u64)));
        fields.push(("clientsCount".to_owned(), Json::Num(self.clients_count as u64)));
        fields.push(("monitors".to_owned(), Json::Arr(monitors_to_json(&self.monitors))));
        fields.push(("focusHistory".to_owned(), Json::Arr(focuses_to_json(&self.focus_history))));
        fields.push(("stackingList".to_owned(), Json::Arr(nums_to_json(&self.stacking_list))));
        proof {
            reveal_strlit("focusedMonitorId");
            reveal_strlit("primaryMonitorId");
            reveal_strlit("clientsCount");
            reveal_strlit("monitors");
            reveal_strlit("focusHistory");
            reveal_strlit("stackingList");
            assert("focusedMonitorId"@.len() == 16 && "primaryMonitorId"@.len() == 16 && "clientsCount"@.len() == 12 && "monitors"@.len() == 8 && "focusHistory"@.len() == 12 && "stackingList"@.len() == 12);
            assert("focusedMonitorId"@[0] == 'f' && "primaryMonitorId"@[0] == 'p' && "clientsCount"@[0] == 'c' && "monitors"@[0] == 'm' && "focusHistory"@[0] == 'f' && "stackingList"@[0] == 's');
            let f = fields@;
            assert(f.len() == 6 && f[0].0@ == "focusedMonitorId"@ && f[1].0@ == "primaryMonitorId"@ && f[2].0@ == "clientsCount"@ && f[3].0@ == "monitors"@ && f[4].0@ == "focusHistory"@ && f[5].0@ == "stackingList"@);
            lemma_lookup_at(f, "focusedMonitorId"@, 0);
            lemma_lookup_at(f, "primaryMonitorId"@, 1);
            lemma_lookup_at(f, "clientsCount"@, 2);
            lemma_lookup_at(f, "monitors"@, 3);
            lemma_lookup_at(f, "focusHistory"@, 4);
            lemma_lookup_at(f, "stackingList"@, 5);
        }
        Json::Obj(fields)
    }
}

} // verus!
