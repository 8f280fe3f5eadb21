//! Tool descriptions that a model catalog puts in place of the bundled ones.

use crate::text::{byte_len, same_text};
use vstd::prelude::*;
use vstd::utf8::*;

verus! {

/// The longest tool description that a catalog may give, in UTF-8 bytes.
pub const MAX_TOOL_DESCRIPTION_BYTES: usize = 1000;

/// What a catalog says of a tool.
#[derive(Clone, Debug, PartialEq, Eq)]
pub struct ToolMessage {
    pub description: Option<String>,
}

/// What a catalog says of the tools for several agents.
#[derive(Clone, Debug, PartialEq, Eq)]
pub struct MultiAgentToolMessages {
    pub spawn_agent: Option<ToolMessage>,
    pub send_message: Option<ToolMessage>,
    pub followup_task: Option<ToolMessage>,
    pub wait_agent: Option<ToolMessage>,
    pub interrupt_agent: Option<ToolMessage>,
    pub list_agents: Option<ToolMessage>,
}

/// What a catalog says of a model's tools, as far as it says anything.
#[derive(Clone, Debug, PartialEq, Eq)]
pub struct ModelMessages {
    pub multi_agent: Option<MultiAgentToolMessages>,
}

/// What a catalog says of a tool, by the tool's name.
pub open spec fn tool_message(messages: MultiAgentToolMessages, name: Seq<char>) -> Option<
    ToolMessage,
> {
    if name == "spawn_agent"@ {
        messages.spawn_agent
    } else if name == "send_message"@ {
        messages.send_message
    } else if name == "followup_task"@ {
        messages.followup_task
    } else if name == "wait_agent"@ {
        messages.wait_agent
    } else if name == "interrupt_agent"@ {
        messages.interrupt_agent
    } else if name == "list_agents"@ {
        messages.list_agents
    } else {
        None
    }
}

/// The description that a catalog gives a tool. One that is too long counts as none.
pub open spec fn description_override(
    catalog: Option<ModelMessages>,
    name: Seq<char>,
) -> Option<Seq<char>> {
    match catalog {
        Some(ModelMessages { multi_agent: Some(messages) }) => match tool_message(messages, name) {
            Some(ToolMessage { description: Some(description) }) => if encode_utf8(
                description@,
            ).len() <= MAX_TOOL_DESCRIPTION_BYTES {
                Some(description@)
            } else {
                None
            },
            _ => None,
        },
        _ => None,
    }
}

/// The messages that apply to a model.
pub struct ResolvedModelMessages {
    pub catalog_messages: Option<ModelMessages>,
}

/// What a catalog says of a tool, by the tool's name.
fn find_tool<'a>(messages: &'a MultiAgentToolMessages, name: &str) -> (r: &'a Option<ToolMessage>)
    ensures
        *r == tool_message(*messages, name@),
{
    if same_text(name, "spawn_agent") {
        &messages.spawn_agent
    } else if same_text(name, "send_message") {
        &messages.send_message
    } else if same_text(name, "followup_task") {
        &messages.followup_task
    } else if same_text(name, "wait_agent") {
        &messages.wait_agent
    } else if same_text(name, "interrupt_agent") {
        &messages.interrupt_agent
    } else if same_text(name, "list_agents") {
        &messages.list_agents
    } else {
        &None
    }
}

impl ResolvedModelMessages {
    /// The description that the catalog gives a tool. Where it gives none, or one that is too long,
    /// the bundled description applies.
    pub fn multi_agent_tool_description_override(&self, name: &str) -> (r: Option<&str>)
        ensures
            r is Some <==> description_override(self.catalog_messages, name@) is Some,
            r matches Some(description) ==> description_override(self.catalog_messages, name@)
                == Some(description@),
    {
        match &self.catalog_messages {
            Some(catalog) => match &catalog.multi_agent {
                Some(messages) => match find_tool(messages, name) {
                    Some(tool) => match &tool.description {
                        Some(description) => {
                            if byte_len(description.as_str()) <= MAX_TOOL_DESCRIPTION_BYTES {
                                Some(description.as_str())
                            } else {
                                None
                            }
                        },
                        None => None,
                    },
                    None => None,
                },
                None => None,
            },
            None => None,
        }
    }
}

/// A catalog never puts a description in place that is longer than allowed, and without a catalog
/// none is put in place.
pub proof fn law_overrides_are_short(catalog: Option<ModelMessages>, name: Seq<char>)
    ensures
        description_override(catalog, name) matches Some(description) ==> encode_utf8(
            description,
        ).len() <= MAX_TOOL_DESCRIPTION_BYTES,
        catalog is None ==> description_override(catalog, name) is None,
{
}

proof fn lemma_tool_names()
    ensures
        "spawn_agent"@ != "send_message"@,
        "spawn_agent"@ != "followup_task"@,
        "spawn_agent"@ != "wait_agent"@,
        "spawn_agent"@ != "interrupt_agent"@,
        "spawn_agent"@ != "list_agents"@,
        "send_message"@ != "followup_task"@,
        "send_message"@ != "wait_agent"@,
        "send_message"@ != "interrupt_agent"@,
        "send_message"@ != "list_agents"@,
        "followup_task"@ != "wait_agent"@,
        "followup_task"@ != "interrupt_agent"@,
        "followup_task"@ != "list_agents"@,
        "wait_agent"@ != "interrupt_agent"@,
        "wait_agent"@ != "list_agents"@,
        "interrupt_agent"@ != "list_agents"@,
{
    reveal_strlit("spawn_agent");
    reveal_strlit("send_message");
    reveal_strlit("followup_task");
    reveal_strlit("wait_agent");
    reveal_strlit("interrupt_agent");
    reveal_strlit("list_agents");
    assert("spawn_agent"@.len() == 11);
    assert("send_message"@.len() == 12);
    assert("followup_task"@.len() == 13);
    assert("wait_agent"@.len() == 10);
    assert("interrupt_agent"@.len() == 15);
    assert("list_agents"@.len() == 11);
    assert("spawn_agent"@[0] != "list_agents"@[0]);
}

/// Each of the six tools has its own place in a catalog, and no other tool has one.
pub proof fn law_each_tool_has_its_own_message(messages: MultiAgentToolMessages, name: Seq<char>)
    ensures
        tool_message(messages, "spawn_agent"@) == messages.spawn_agent,
        tool_message(messages, "send_message"@) == messages.send_message,
        tool_message(messages, "followup_task"@) == messages.followup_task,
        tool_message(messages, "wait_agent"@) == messages.wait_agent,
        tool_message(messages, "interrupt_agent"@) == messages.interrupt_agent,
        tool_message(messages, "list_agents"@) == messages.list_agents,
        name != "spawn_agent"@ && name != "send_message"@ && name != "followup_task"@ && name
            != "wait_agent"@ && name != "interrupt_agent"@ && name != "list_agents"@
            ==> tool_message(messages, name) is None,
{
    lemma_tool_names();
}

/// A description that a catalog gives a tool is put in place, word for word, exactly if it takes no
/// more than 1000 bytes; an empty one is too.
pub proof fn law_short_descriptions_are_put_in_place(
    messages: MultiAgentToolMessages,
    name: Seq<char>,
)
    ensures
        ({
            let given = description_override(
                Some(ModelMessages { multi_agent: Some(messages) }),
                name,
            );
            let tool = tool_message(messages, name);
            &&& tool is None ==> given is None
            &&& tool is Some && tool->Some_0.description is None ==> given is None
            &&& tool is Some ==> (tool->Some_0.description matches Some(description) ==> {
                &&& encode_utf8(description@).len() <= 1000 ==> given == Some(description@)
                &&& encode_utf8(description@).len() > 1000 ==> given is None
            })
        }),
        description_override(Some(ModelMessages { multi_agent: None }), name) is None,
        description_override(None, name) is None,
{
}

} // verus!
