//! Channels of ComfyUI.
use relay::forward::{apply_comfyui_channel_config, ResolvedForward};

#[test]
fn server_node_sets_target_and_keeps_rule_workflow() {
    let mut resolved = ResolvedForward {
        comfyui_workflow_id: Some(9),
        ..Default::default()
    };
    apply_comfyui_channel_config(&mut resolved, "comfyui", r#"{"comfyui_server_id":3}"#);
    assert_eq!(resolved.target_type, "comfyui");
    assert_eq!(resolved.upstream_path, "/prompt");
    assert_eq!(resolved.comfyui_server_id, Some(3));
    assert_eq!(resolved.comfyui_server_ids, vec![3]);
    assert_eq!(resolved.comfyui_workflow_id, Some(9));
    assert!(!resolved.is_cascade);
}

#[test]
fn legacy_workflow_binding_still_overrides() {
    let mut resolved = ResolvedForward {
        comfyui_workflow_id: Some(9),
        ..Default::default()
    };
    apply_comfyui_channel_config(
        &mut resolved,
        "comfyui",
        r#"{"comfyui_workflow_id":5}"#,
    );
    assert_eq!(resolved.comfyui_workflow_id, Some(5));
    assert_eq!(resolved.comfyui_server_id, None);
}

#[test]
fn other_provider_untouched() {
    let mut resolved = ResolvedForward::default();
    apply_comfyui_channel_config(&mut resolved, "custom", r#"{"comfyui_server_id":1}"#);
    assert_eq!(resolved.target_type, "openai");
    assert_eq!(resolved.comfyui_server_id, None);
    assert!(resolved.comfyui_server_ids.is_empty());
}

#[test]
fn multi_ids_and_dispatch() {
    let mut resolved = ResolvedForward::default();
    apply_comfyui_channel_config(
        &mut resolved,
        "comfyui",
        r#"{"comfyui_server_ids":[4,2,4],"comfyui_dispatch":"least_busy"}"#,
    );
    assert_eq!(resolved.comfyui_server_ids, vec![4, 2]);
    assert_eq!(resolved.comfyui_server_id, Some(4));
    assert_eq!(resolved.comfyui_dispatch.as_deref(), Some("least_busy"));
}
