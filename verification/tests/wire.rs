use niri_switch::wire::{decode_event, decode_reply, encode_request, WireReply};
use niri_switch::{NiriEvent, NiriRequest, Window, Workspace};

fn text(bytes: Option<Vec<u8>>) -> String {
    String::from_utf8(bytes.expect("the request is encoded")).expect("JSON is UTF-8")
}

fn wire_window(id: u64, workspace_id: Option<u64>, focused: bool, title: Option<&str>) -> niri_ipc::Window {
    niri_ipc::Window {
        id,
        title: title.map(|t| t.to_string()),
        app_id: Some("org.example.App".to_string()),
        pid: Some(4242),
        workspace_id,
        is_focused: focused,
        is_floating: false,
        is_urgent: false,
        layout: niri_ipc::WindowLayout {
            pos_in_scrolling_layout: Some((1, 1)),
            tile_size: (800.0, 600.0),
            window_size: (800, 600),
            tile_pos_in_workspace_view: None,
            window_offset_in_tile: (0.0, 0.0),
        },
        focus_timestamp: None,
    }
}

fn wire_workspace(id: u64, idx: u8, active: bool, focused: bool) -> niri_ipc::Workspace {
    niri_ipc::Workspace {
        id,
        idx,
        name: Some(format!("ws{id}")),
        output: Some("eDP-1".to_string()),
        is_urgent: false,
        is_active: active,
        is_focused: focused,
        active_window_id: None,
    }
}

fn line(event: &niri_ipc::Event) -> String {
    let mut json = serde_json::to_string(event).expect("the event is written");
    json.push('\n');
    json
}

#[test]
fn event_stream_request_is_a_bare_string_and_a_newline() {
    assert_eq!(text(encode_request(&NiriRequest::EventStream)), "\"EventStream\"\n");
}

#[test]
fn focus_window_request_carries_the_id() {
    assert_eq!(
        text(encode_request(&NiriRequest::FocusWindow { id: 5 })),
        "{\"Action\":{\"FocusWindow\":{\"id\":5}}}\n"
    );
}

#[test]
fn close_window_request_carries_the_optional_id() {
    assert_eq!(
        text(encode_request(&NiriRequest::CloseWindow { id: Some(7) })),
        "{\"Action\":{\"CloseWindow\":{\"id\":7}}}\n"
    );
    assert_eq!(
        text(encode_request(&NiriRequest::CloseWindow { id: None })),
        "{\"Action\":{\"CloseWindow\":{\"id\":null}}}\n"
    );
}

#[test]
fn move_window_request_carries_window_index_and_focus() {
    let request =
        NiriRequest::MoveWindowToWorkspace { window_id: Some(7), workspace_index: 2, focus: false };
    assert_eq!(
        text(encode_request(&request)),
        "{\"Action\":{\"MoveWindowToWorkspace\":{\"window_id\":7,\"reference\":{\"Index\":2},\"focus\":false}}}\n"
    );
}

#[test]
fn focus_workspace_request_carries_the_index() {
    assert_eq!(
        text(encode_request(&NiriRequest::FocusWorkspace { index: 3 })),
        "{\"Action\":{\"FocusWorkspace\":{\"reference\":{\"Index\":3}}}}\n"
    );
}

#[test]
fn encoded_request_is_what_the_compositor_parses() {
    let bytes = encode_request(&NiriRequest::FocusWindow { id: u64::MAX }).expect("encoded");
    assert_eq!(bytes.last(), Some(&b'\n'));
    assert_eq!(bytes.iter().filter(|b| **b == b'\n').count(), 1);
    let parsed: niri_ipc::Request = serde_json::from_slice(&bytes).expect("parses back");
    assert!(matches!(
        parsed,
        niri_ipc::Request::Action(niri_ipc::Action::FocusWindow { id: u64::MAX })
    ));
}

#[test]
fn handled_reply_is_accepted() {
    assert_eq!(decode_reply("{\"Ok\":\"Handled\"}\n"), WireReply::Accepted);
}

#[test]
fn reply_with_a_payload_is_accepted() {
    assert_eq!(decode_reply("{\"Ok\":{\"Version\":\"25.11\"}}\n"), WireReply::Accepted);
}

#[test]
fn error_reply_is_rejected_with_the_compositors_message() {
    assert_eq!(
        decode_reply("{\"Err\":\"no such window\"}\n"),
        WireReply::Rejected { message: "no such window".to_string() }
    );
}

#[test]
fn garbage_reply_is_malformed() {
    assert!(matches!(decode_reply("not json\n"), WireReply::Malformed { .. }));
    assert!(matches!(decode_reply(""), WireReply::Malformed { .. }));
    assert!(matches!(decode_reply("{\"Ok\":\"NoSuchResponse\"}"), WireReply::Malformed { .. }));
}

#[test]
fn reply_is_trimmed_before_it_is_parsed() {
    assert_eq!(decode_reply("  \t{\"Ok\":\"Handled\"}\r\n"), WireReply::Accepted);
    assert_eq!(decode_reply("\u{a0}{\"Ok\":\"Handled\"}\u{3000}\u{2028}"), WireReply::Accepted);
    assert!(matches!(
        decode_reply("\u{200b}{\"Ok\":\"Handled\"}"),
        WireReply::Malformed { .. }
    ));
}

#[test]
fn window_closed_event_is_decoded() {
    assert_eq!(decode_event("{\"WindowClosed\":{\"id\":10}}\n"), Ok(NiriEvent::WindowClosed { id: 10 }));
}

#[test]
fn window_focus_changed_event_is_decoded() {
    assert_eq!(
        decode_event("{\"WindowFocusChanged\":{\"id\":12}}\n"),
        Ok(NiriEvent::WindowFocusChanged { id: Some(12) })
    );
    assert_eq!(
        decode_event("{\"WindowFocusChanged\":{\"id\":null}}\n"),
        Ok(NiriEvent::WindowFocusChanged { id: None })
    );
}

#[test]
fn workspace_activated_event_is_decoded() {
    assert_eq!(
        decode_event("{\"WorkspaceActivated\":{\"id\":2,\"focused\":true}}\n"),
        Ok(NiriEvent::WorkspaceActivated { id: 2, focused: true })
    );
}

#[test]
fn workspaces_changed_event_is_decoded_field_for_field() {
    let event = niri_ipc::Event::WorkspacesChanged {
        workspaces: vec![wire_workspace(1, 3, true, true), wire_workspace(2, 4, false, false)],
    };
    assert_eq!(
        decode_event(&line(&event)),
        Ok(NiriEvent::WorkspacesChanged {
            workspaces: vec![
                Workspace { id: 1, idx: 3, is_active: true, is_focused: true },
                Workspace { id: 2, idx: 4, is_active: false, is_focused: false },
            ],
        })
    );
}

#[test]
fn windows_changed_event_is_decoded_field_for_field() {
    let event = niri_ipc::Event::WindowsChanged {
        windows: vec![
            wire_window(10, Some(1), true, Some("shell")),
            wire_window(11, None, false, None),
        ],
    };
    assert_eq!(
        decode_event(&line(&event)),
        Ok(NiriEvent::WindowsChanged {
            windows: vec![
                Window {
                    id: 10,
                    workspace_id: Some(1),
                    is_focused: true,
                    title: Some("shell".to_string()),
                    app_id: Some("org.example.App".to_string()),
                },
                Window {
                    id: 11,
                    workspace_id: None,
                    is_focused: false,
                    title: None,
                    app_id: Some("org.example.App".to_string()),
                },
            ],
        })
    );
}

#[test]
fn empty_lists_are_decoded_as_empty_lists() {
    assert_eq!(
        decode_event("{\"WindowsChanged\":{\"windows\":[]}}"),
        Ok(NiriEvent::WindowsChanged { windows: vec![] })
    );
    assert_eq!(
        decode_event("{\"WorkspacesChanged\":{\"workspaces\":[]}}"),
        Ok(NiriEvent::WorkspacesChanged { workspaces: vec![] })
    );
}

#[test]
fn window_opened_or_changed_event_is_decoded_field_for_field() {
    let event = niri_ipc::Event::WindowOpenedOrChanged {
        window: wire_window(11, Some(2), false, Some("editor")),
    };
    assert_eq!(
        decode_event(&line(&event)),
        Ok(NiriEvent::WindowOpenedOrChanged {
            window: Window {
                id: 11,
                workspace_id: Some(2),
                is_focused: false,
                title: Some("editor".to_string()),
                app_id: Some("org.example.App".to_string()),
            },
        })
    );
}

#[test]
fn untracked_events_are_decoded_as_other() {
    assert_eq!(decode_event("{\"OverviewOpenedOrClosed\":{\"is_open\":true}}\n"), Ok(NiriEvent::Other));
    assert_eq!(decode_event("{\"ConfigLoaded\":{\"failed\":false}}\n"), Ok(NiriEvent::Other));
    assert_eq!(
        decode_event("{\"WorkspaceUrgencyChanged\":{\"id\":1,\"urgent\":true}}\n"),
        Ok(NiriEvent::Other)
    );
}

#[test]
fn malformed_event_lines_give_the_parsers_words() {
    let detail = decode_event("{\"WindowClosed\":{\"id\":\"ten\"}}\n").expect_err("no event");
    assert!(!detail.is_empty());
    assert!(decode_event("").is_err());
    assert!(decode_event("\n").is_err());
    assert!(decode_event("{\"NoSuchEvent\":{}}").is_err());
    assert!(decode_event("{\"WindowClosed\":{\"id\":10}} trailing").is_err());
}

#[test]
fn event_is_trimmed_before_it_is_parsed() {
    assert_eq!(
        decode_event(" \u{2003}{\"WindowClosed\":{\"id\":10}}\u{85}\r\n"),
        Ok(NiriEvent::WindowClosed { id: 10 })
    );
}
