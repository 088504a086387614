use bspc_client::json::Json;
use bspc_client::parse::{desktop_from_slice, monitor_from_slice, state_from_slice};
use bspc_client::{
    Client, Desktop, Error, Focus, Layer, Layout, Monitor, Padding, Rectangle, SplitType, State,
    Tree,
};

fn sample_state() -> State {
    State {
        focused_monitor_id: 1,
        primary_monitor_id: 1,
        clients_count: 2,
        monitors: vec![Monitor {
            name: "DP-1".to_string(),
            id: 1,
            randr_id: 97,
            wired: true,
            sticky_count: 0,
            window_gap: 6,
            border_width: 2,
            focused_desktop_id: 3,
            desktops: vec![Desktop {
                name: "web".to_string(),
                id: 3,
                layout: Layout::Tiled,
                user_layout: Layout::Monocle,
                window_gap: 6,
                border_width: 2,
                focused_node_id: 7,
                padding: Padding {
                    top: 0,
                    right: 0,
                    bottom: 0,
                    left: 0,
                },
                root: Some(Tree {
                    id: 7,
                    split_type: SplitType::Vertical,
                    vacant: false,
                    hidden: false,
                    sticky: false,
                    private: false,
                    locked: false,
                    marked: false,
                    presel: None,
                    rectangle: Rectangle {
                        x: 0,
                        y: 0,
                        width: 1920,
                        height: 1080,
                    },
                }),
            }],
        }],
        focus_history: vec![Focus::new(1, 3, 7)],
        stacking_list: vec![7],
    }
}

const SAMPLE_JSON: &str = r#"{
  "focusedMonitorId": 1,
  "primaryMonitorId": 1,
  "clientsCount": 2,
  "monitors": [
    {
      "name": "DP-1",
      "id": 1,
      "randrId": 97,
      "wired": true,
      "stickyCount": 0,
      "windowGap": 6,
      "borderWidth": 2,
      "focusedDesktopId": 3,
      "desktops": [
        {
          "name": "web",
          "id": 3,
          "layout": "tiled",
          "userLayout": "monocle",
          "windowGap": 6,
          "borderWidth": 2,
          "focusedNodeId": 7,
          "padding": {"top": 0, "right": 0, "bottom": 0, "left": 0},
          "root": {
            "id": 7,
            "splitType": "vertical",
            "splitRatio": 0.5,
            "vacant": false,
            "hidden": false,
            "sticky": false,
            "private": false,
            "locked": false,
            "marked": false,
            "presel": null,
            "rectangle": {"x": 0, "y": 0, "width": 1920, "height": 1080}
          }
        }
      ]
    }
  ],
  "focusHistory": [{"monitorId": 1, "desktopId": 3, "nodeId": 7}],
  "stackingList": [7]
}"#;

#[test]
fn state_decodes_from_full_dump() {
    let state = state_from_slice(SAMPLE_JSON.as_bytes()).unwrap();
    assert_eq!(state, sample_state())
}

#[test]
fn state_round_trips_through_json() {
    let state = sample_state();
    let encoded = state.to_json();
    let decoded = State::from_json(&encoded).unwrap();
    assert_eq!(decoded, state)
}

#[test]
fn empty_input_is_a_deserialize_error() {
    assert!(matches!(state_from_slice(b""), Err(Error::Deserialize)));
    assert!(matches!(monitor_from_slice(b""), Err(Error::Deserialize)));
    assert!(matches!(desktop_from_slice(b""), Err(Error::Deserialize)));
}

#[test]
fn malformed_input_is_a_deserialize_error() {
    assert!(matches!(
        state_from_slice(b"not json at all"),
        Err(Error::Deserialize)
    ));
    assert!(matches!(
        state_from_slice(b"{\"focusedMonitorId\": 1"),
        Err(Error::Deserialize)
    ));
    assert!(matches!(
        monitor_from_slice(b"[1, 2, 3]"),
        Err(Error::Deserialize)
    ));
}

#[test]
fn missing_required_field_fails_whole_decode() {
    // A state dump without its stacking list is rejected, not defaulted.
    let text = r#"{
      "focusedMonitorId": 1,
      "primaryMonitorId": 1,
      "clientsCount": 0,
      "monitors": [],
      "focusHistory": []
    }"#;
    assert!(matches!(
        state_from_slice(text.as_bytes()),
        Err(Error::Deserialize)
    ));
}

#[test]
fn unknown_fields_are_ignored() {
    let text = r#"{
      "focusedMonitorId": 4,
      "primaryMonitorId": 4,
      "clientsCount": 0,
      "monitors": [],
      "focusHistory": [],
      "stackingList": [],
      "someFutureField": {"nested": [1.5, -3, "x"]}
    }"#;
    let state = state_from_slice(text.as_bytes()).unwrap();
    assert_eq!(state.focused_monitor_id, 4);
    assert_eq!(state.monitors, vec![]);
}

#[test]
fn bad_enum_literal_is_rejected() {
    let text = r#"{
      "name": "web",
      "id": 3,
      "layout": "spiral",
      "userLayout": "tiled",
      "windowGap": 6,
      "borderWidth": 2,
      "focusedNodeId": 7,
      "padding": {"top": 0, "right": 0, "bottom": 0, "left": 0},
      "root": null
    }"#;
    assert!(matches!(
        desktop_from_slice(text.as_bytes()),
        Err(Error::Deserialize)
    ));
}

#[test]
fn monitor_decodes_alone() {
    let text = r#"{
      "name": "HDMI-0",
      "id": 2,
      "randrId": 98,
      "wired": false,
      "stickyCount": 1,
      "windowGap": 4,
      "borderWidth": 1,
      "focusedDesktopId": 9,
      "desktops": []
    }"#;
    let monitor = monitor_from_slice(text.as_bytes()).unwrap();
    assert_eq!(monitor.name, "HDMI-0");
    assert_eq!(monitor.id, 2);
    assert!(!monitor.wired);
    assert_eq!(monitor.desktops, vec![]);
}

#[test]
fn enum_literals_decode() {
    assert_eq!(
        Layout::from_json(&Json::Str("psuedoTiled".to_string())),
        Some(Layout::PsuedoTiled)
    );
    assert_eq!(
        Layout::from_json(&Json::Str("floating".to_string())),
        Some(Layout::Floating)
    );
    assert_eq!(Layout::from_json(&Json::Str("spiral".to_string())), None);
    assert_eq!(
        SplitType::from_json(&Json::Str("horizontal".to_string())),
        Some(SplitType::Horizontal)
    );
    assert_eq!(
        Layer::from_json(&Json::Str("normal".to_string())),
        Some(Layer::Normal)
    );
    assert_eq!(Layer::from_json(&Json::Bool(true)), None);
}

#[test]
fn display_strings() {
    assert_eq!(Layout::PsuedoTiled.display(), "pseudo-tiled");
    assert_eq!(Layout::Tiled.display(), "tiled");
    assert_eq!(Layout::Floating.display(), "floating");
    assert_eq!(Layout::Monocle.display(), "monocle");
    assert_eq!(SplitType::Horizontal.display(), "horizontal");
    assert_eq!(SplitType::Vertical.display(), "vertical");
    assert_eq!(Layer::Normal.display(), "normal");
}

#[test]
fn defaults_match_the_manager_conventions() {
    assert_eq!(Layout::default(), Layout::Tiled);
    assert_eq!(SplitType::default(), SplitType::Vertical);
    assert_eq!(Layer::default(), Layer::Normal);
    let state = State::default();
    assert_eq!(state.clients_count, 0);
    assert_eq!(state.monitors, vec![]);
    let client = Client::default();
    assert_eq!(client.class_name, "");
    assert_eq!(client.state, Layout::Tiled);
}

#[test]
fn client_round_trips_through_json() {
    let client = Client {
        class_name: "firefox".to_string(),
        instance_name: "Navigator".to_string(),
        border_width: 2,
        state: Layout::Floating,
        last_state: Layout::Tiled,
        layer: Layer::Normal,
        last_layer: Layer::Normal,
        urgent: false,
        shown: true,
        tiled_rectangle: Rectangle {
            x: 0,
            y: 0,
            width: 960,
            height: 1080,
        },
        floating_rectangle: Rectangle {
            x: 100,
            y: 80,
            width: 800,
            height: 600,
        },
    };
    let decoded = Client::from_json(&client.to_json()).unwrap();
    assert_eq!(decoded, client)
}

#[test]
fn tree_with_presel_round_trips() {
    let tree = Tree {
        id: 11,
        split_type: SplitType::Horizontal,
        vacant: false,
        hidden: false,
        sticky: true,
        private: false,
        locked: false,
        marked: true,
        presel: Some("north".to_string()),
        rectangle: Rectangle {
            x: 5,
            y: 5,
            width: 640,
            height: 480,
        },
    };
    let decoded = Tree::from_json(&tree.to_json()).unwrap();
    assert_eq!(decoded, tree)
}
