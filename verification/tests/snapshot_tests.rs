use wayice::output_utils::{OutputInfo, OutputMode};
use wayice::state::WayiceState;
use wayice::window_utils::{
    build_window_list, get_window_info, get_x11_window_info, list_toplevel_windows, ForeignMeta,
    ToplevelMeta, WindowEntry,
};

fn meta(title: &str, app_id: &str, modal: bool, parent: Option<u64>) -> ToplevelMeta {
    ToplevelMeta {
        title: Some(title.as_bytes().to_vec()),
        app_id: Some(app_id.as_bytes().to_vec()),
        modal,
        parent_id: parent,
    }
}

#[test]
fn native_record_with_all_fields() {
    let m = meta("Files", "org.example.files", true, Some(17));
    assert_eq!(
        get_window_info(&m),
        br#"{"app_id":"org.example.files","is_modal":true,"parent_id":"17","title":"Files"}"#
            .to_vec()
    );
}

#[test]
fn native_record_uses_placeholders_when_metadata_is_absent() {
    let m = ToplevelMeta {
        title: None,
        app_id: None,
        modal: false,
        parent_id: None,
    };
    assert_eq!(
        get_window_info(&m),
        br#"{"app_id":"No App ID","is_modal":false,"parent_id":"None","title":"No Title"}"#
            .to_vec()
    );
}

#[test]
fn string_content_is_escaped() {
    let m = ToplevelMeta {
        title: Some(b"a\"b\\c\nd".to_vec()),
        app_id: None,
        modal: false,
        parent_id: None,
    };
    assert_eq!(
        get_window_info(&m),
        b"{\"app_id\":\"No App ID\",\"is_modal\":false,\"parent_id\":\"None\",\"title\":\"a\\\"b\\\\c\\nd\"}"
            .to_vec()
    );
}

#[test]
fn control_bytes_get_unicode_escapes() {
    let m = ToplevelMeta {
        title: Some(vec![0x01, 0x1f]),
        app_id: None,
        modal: false,
        parent_id: None,
    };
    assert_eq!(
        get_window_info(&m),
        b"{\"app_id\":\"No App ID\",\"is_modal\":false,\"parent_id\":\"None\",\"title\":\"\\u0001\\u001f\"}"
            .to_vec()
    );
}

#[test]
fn foreign_record_carries_the_foreign_metadata() {
    let f = ForeignMeta {
        window_id: 4194305,
        title: b"Editor".to_vec(),
        class: b"editor".to_vec(),
        instance: b"editor-main".to_vec(),
        pid: 4321,
    };
    assert_eq!(
        get_x11_window_info(&f),
        br#"{"class":"editor","instance":"editor-main","pid":4321,"title":"Editor","window_id":"4194305"}"#
            .to_vec()
    );
}

#[test]
fn snapshot_produces_one_record_per_native_window_in_order() {
    let windows = vec![
        WindowEntry::Native(meta("One", "a", false, None)),
        WindowEntry::Native(meta("Two", "b", false, None)),
        WindowEntry::Native(meta("Three", "c", false, None)),
    ];
    let list = build_window_list(&windows);
    assert_eq!(
        list,
        br#"[{"app_id":"a","is_modal":false,"parent_id":"None","title":"One"},{"app_id":"b","is_modal":false,"parent_id":"None","title":"Two"},{"app_id":"c","is_modal":false,"parent_id":"None","title":"Three"}]"#
            .to_vec()
    );
}

#[test]
fn snapshot_skips_unmapped_and_degrades_invalid_foreign_surfaces() {
    let windows = vec![
        WindowEntry::Unmapped,
        WindowEntry::Foreign(None),
        WindowEntry::Native(meta("One", "a", false, None)),
    ];
    let list = build_window_list(&windows);
    assert_eq!(
        list,
        br#"[{"error":"invalid foreign surface"},{"app_id":"a","is_modal":false,"parent_id":"None","title":"One"}]"#
            .to_vec()
    );
}

#[test]
fn empty_window_set_publishes_an_empty_list() {
    assert_eq!(build_window_list(&vec![]), b"[]".to_vec());
}

#[test]
fn list_toplevel_windows_serializes_each_window() {
    let metas = vec![meta("A", "a", false, None), meta("B", "b", true, Some(2))];
    let records = list_toplevel_windows(&metas);
    assert_eq!(records.len(), 2);
    assert_eq!(
        records[0],
        br#"{"app_id":"a","is_modal":false,"parent_id":"None","title":"A"}"#.to_vec()
    );
    assert_eq!(
        records[1],
        br#"{"app_id":"b","is_modal":true,"parent_id":"2","title":"B"}"#.to_vec()
    );
}

#[test]
fn monitor_info_lists_the_mode_when_there_is_one() {
    let out = OutputInfo {
        name: b"DP-1".to_vec(),
        description: b"Example 27in".to_vec(),
        mode: Some(OutputMode {
            width: 2560,
            height: 1440,
            refresh: 59951,
        }),
    };
    let pairs = wayice::output_utils::get_monitor_info(&out);
    assert_eq!(pairs.len(), 5);
    assert_eq!(pairs[0], (b"name".to_vec(), b"DP-1".to_vec()));
    assert_eq!(pairs[1], (b"description".to_vec(), b"Example 27in".to_vec()));
    assert_eq!(pairs[2], (b"width".to_vec(), b"2560".to_vec()));
    assert_eq!(pairs[3], (b"height".to_vec(), b"1440".to_vec()));
    assert_eq!(pairs[4], (b"refresh_rate".to_vec(), b"59951 Hz".to_vec()));

    let bare = OutputInfo {
        name: b"DP-2".to_vec(),
        description: b"".to_vec(),
        mode: None,
    };
    assert_eq!(wayice::output_utils::get_monitor_info(&bare).len(), 2);
}

#[test]
fn list_all_outputs_serializes_every_output() {
    let state = WayiceState {
        windows: vec![],
        outputs: vec![
            OutputInfo {
                name: b"DP-1".to_vec(),
                description: b"left".to_vec(),
                mode: Some(OutputMode {
                    width: 1920,
                    height: 1080,
                    refresh: 60000,
                }),
            },
            OutputInfo {
                name: b"HDMI-A-1".to_vec(),
                description: b"right".to_vec(),
                mode: Some(OutputMode {
                    width: 1280,
                    height: 720,
                    refresh: 50000,
                }),
            },
        ],
    };
    assert_eq!(
        state.list_all_outputs(),
        br#"[{"name":"DP-1","refresh_rate":60000,"size":{"height":1080,"width":1920}},{"name":"HDMI-A-1","refresh_rate":50000,"size":{"height":720,"width":1280}}]"#
            .to_vec()
    );
}
