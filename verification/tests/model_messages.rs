use codex_bridge::model_messages::{
    ModelMessages, MultiAgentToolMessages, ResolvedModelMessages, ToolMessage,
    MAX_TOOL_DESCRIPTION_BYTES,
};

#[test]
fn catalog_tool_descriptions_fall_back_when_the_byte_limit_is_exceeded() {
    for (description, accepted) in [
        (String::new(), true),
        ("a".repeat(MAX_TOOL_DESCRIPTION_BYTES), true),
        ("a".repeat(MAX_TOOL_DESCRIPTION_BYTES + 1), false),
        ("界".repeat(MAX_TOOL_DESCRIPTION_BYTES / 3 + 1), false),
    ] {
        let tool = Some(ToolMessage { description: Some(description.clone()) });
        let catalog = ModelMessages {
            multi_agent: Some(MultiAgentToolMessages {
                spawn_agent: tool.clone(),
                send_message: tool.clone(),
                followup_task: tool.clone(),
                wait_agent: tool.clone(),
                interrupt_agent: tool.clone(),
                list_agents: tool,
            }),
        };
        let resolved = ResolvedModelMessages { catalog_messages: Some(catalog) };
        let actual = [
            "spawn_agent",
            "send_message",
            "followup_task",
            "wait_agent",
            "interrupt_agent",
            "list_agents",
        ]
        .map(|name| resolved.multi_agent_tool_description_override(name));
        assert_eq!(actual, [accepted.then_some(description.as_str()); 6]);
    }
}

#[test]
fn bundled_descriptions_apply_where_the_catalog_says_nothing() {
    let resolved = ResolvedModelMessages { catalog_messages: None };
    assert_eq!(resolved.multi_agent_tool_description_override("spawn_agent"), None);
    let silent = ToolMessage { description: None };
    let resolved = ResolvedModelMessages {
        catalog_messages: Some(ModelMessages {
            multi_agent: Some(MultiAgentToolMessages {
                spawn_agent: Some(silent),
                send_message: None,
                followup_task: None,
                wait_agent: Some(ToolMessage { description: Some("Wait.".to_string()) }),
                interrupt_agent: None,
                list_agents: None,
            }),
        }),
    };
    assert_eq!(resolved.multi_agent_tool_description_override("spawn_agent"), None);
    assert_eq!(resolved.multi_agent_tool_description_override("send_message"), None);
    assert_eq!(resolved.multi_agent_tool_description_override("wait_agent"), Some("Wait."));
    assert_eq!(resolved.multi_agent_tool_description_override("wait"), None);
}
