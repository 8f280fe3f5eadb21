//! Commands that the application submits to the agent, and the turn context they carry.

use crate::json::Json;
use crate::text::{copy_text, opt_view};
use vstd::prelude::*;

verus! {

/// How hard the model is asked to think.
#[derive(Clone, Copy, Debug, PartialEq, Eq, Structural)]
pub enum ReasoningEffort {
    NoReasoning,
    Minimal,
    Low,
    Medium,
    High,
    XHigh,
    Max,
    Ultra,
}

/// When the agent asks before it acts.
#[derive(Clone, Copy, Debug, PartialEq, Eq, Structural)]
pub enum ApprovalPolicy {
    UnlessTrusted,
    OnFailure,
    OnRequest,
    Never,
}

/// Who reviews what the agent asks for.
#[derive(Clone, Copy, Debug, PartialEq, Eq, Structural)]
pub enum ApprovalsReviewer {
    User,
    AutoReview,
}

/// The service tier that a turn asks for.
#[derive(Clone, Copy, Debug, PartialEq, Eq, Structural)]
pub enum ServiceTier {
    Fast,
    Flex,
}

/// The tone of the agent.
#[derive(Clone, Copy, Debug, PartialEq, Eq, Structural)]
pub enum Personality {
    Neutral,
    Friendly,
    Pragmatic,
}

/// A sandbox policy: whether the sandbox is provided from outside, and the encoded policy.
#[derive(Debug, PartialEq, Eq)]
pub struct SandboxPolicy {
    pub external: bool,
    pub encoded: String,
}

impl Clone for SandboxPolicy {
    fn clone(&self) -> (r: Self)
        ensures
            r == *self,
    {
        SandboxPolicy { external: self.external, encoded: self.encoded.clone() }
    }
}

/// A permission profile, in its encoded form.
#[derive(Debug, PartialEq, Eq)]
pub struct PermissionProfile {
    pub encoded: String,
}

impl Clone for PermissionProfile {
    fn clone(&self) -> (r: Self)
        ensures
            r == *self,
    {
        PermissionProfile { encoded: self.encoded.clone() }
    }
}

/// The kind of collaboration between user and agent.
#[derive(Clone, Copy, Debug, PartialEq, Eq, Structural)]
pub enum ModeKind {
    Default,
    Plan,
}

/// The settings of a collaboration mode.
#[derive(Debug, PartialEq, Eq)]
pub struct Settings {
    pub model: String,
    pub reasoning_effort: Option<ReasoningEffort>,
    pub developer_instructions: Option<String>,
}

/// A collaboration mode.
#[derive(Debug, PartialEq, Eq)]
pub struct CollaborationMode {
    pub mode: ModeKind,
    pub settings: Settings,
}

/// Replacements for parts of a collaboration mode. An outer `None` keeps what is there.
#[derive(Debug, PartialEq, Eq)]
pub struct CollaborationModeMask {
    pub mode: Option<ModeKind>,
    pub model: Option<String>,
    pub reasoning_effort: Option<Option<ReasoningEffort>>,
    pub developer_instructions: Option<Option<String>>,
}

impl Clone for CollaborationMode {
    fn clone(&self) -> (r: Self)
        ensures
            r == *self,
    {
        CollaborationMode {
            mode: self.mode,
            settings: Settings {
                model: self.settings.model.clone(),
                reasoning_effort: self.settings.reasoning_effort,
                developer_instructions: copy_text(&self.settings.developer_instructions),
            },
        }
    }
}

impl CollaborationMode {
    /// The mode with the parts that `mask` names replaced.
    pub open spec fn masked(self, mask: CollaborationModeMask) -> CollaborationMode {
        CollaborationMode {
            mode: match mask.mode {
                Some(mode) => mode,
                None => self.mode,
            },
            settings: Settings {
                model: match mask.model {
                    Some(model) => model,
                    None => self.settings.model,
                },
                reasoning_effort: match mask.reasoning_effort {
                    Some(effort) => effort,
                    None => self.settings.reasoning_effort,
                },
                developer_instructions: match mask.developer_instructions {
                    Some(text) => text,
                    None => self.settings.developer_instructions,
                },
            },
        }
    }

    /// The mode with model, effort and instructions replaced where a replacement is given.
    pub open spec fn updated(
        self,
        model: Option<String>,
        effort: Option<Option<ReasoningEffort>>,
        developer_instructions: Option<Option<String>>,
    ) -> CollaborationMode {
        self.masked(
            CollaborationModeMask {
                mode: None,
                model,
                reasoning_effort: effort,
                developer_instructions,
            },
        )
    }

    /// The mode with the parts that `mask` names replaced.
    pub fn apply_mask(&self, mask: &CollaborationModeMask) -> (r: CollaborationMode)
        ensures
            r == self.masked(*mask),
    {
        CollaborationMode {
            mode: match mask.mode {
                Some(mode) => mode,
                None => self.mode,
            },
            settings: Settings {
                model: match &mask.model {
                    Some(model) => model.clone(),
                    None => self.settings.model.clone(),
                },
                reasoning_effort: match mask.reasoning_effort {
                    Some(effort) => effort,
                    None => self.settings.reasoning_effort,
                },
                developer_instructions: match &mask.developer_instructions {
                    Some(text) => copy_text(text),
                    None => copy_text(&self.settings.developer_instructions),
                },
            },
        }
    }

    /// The mode with model, effort and instructions replaced where a replacement is given.
    pub fn with_updates(
        &self,
        model: Option<String>,
        effort: Option<Option<ReasoningEffort>>,
        developer_instructions: Option<Option<String>>,
    ) -> (r: CollaborationMode)
        ensures
            r == self.updated(model, effort, developer_instructions),
    {
        self.apply_mask(
            &CollaborationModeMask {
                mode: None,
                model,
                reasoning_effort: effort,
                developer_instructions,
            },
        )
    }
}

/// A mask replaces exactly what it names, and an empty one nothing; what it names, it leaves no
/// trace of.
pub proof fn law_mask_replaces_what_it_names(
    mode: CollaborationMode,
    other: CollaborationMode,
    mask: CollaborationModeMask,
)
    ensures
        mask.mode is None ==> mode.masked(mask).mode == mode.mode,
        mask.mode matches Some(kind) ==> mode.masked(mask).mode == kind,
        mask.model is None ==> mode.masked(mask).settings.model == mode.settings.model,
        mask.model matches Some(model) ==> mode.masked(mask).settings.model == model,
        mask.reasoning_effort is None ==> mode.masked(mask).settings.reasoning_effort
            == mode.settings.reasoning_effort,
        mask.reasoning_effort matches Some(effort) ==> mode.masked(mask).settings.reasoning_effort
            == effort,
        mask.developer_instructions is None ==> mode.masked(mask).settings.developer_instructions
            == mode.settings.developer_instructions,
        mask.developer_instructions matches Some(instructions) ==> mode.masked(
            mask,
        ).settings.developer_instructions == instructions,
        mode.masked(mask).masked(mask) == mode.masked(mask),
        mask.mode is Some && mask.model is Some && mask.reasoning_effort is Some
            && mask.developer_instructions is Some ==> mode.masked(mask) == other.masked(mask),
{
}

/// An update replaces model, effort and instructions exactly where it gives others, and keeps the
/// kind of the mode.
pub proof fn law_update_keeps_what_it_does_not_give(
    mode: CollaborationMode,
    model: Option<String>,
    effort: Option<Option<ReasoningEffort>>,
    instructions: Option<Option<String>>,
)
    ensures
        ({
            let after = mode.updated(model, effort, instructions);
            &&& after.mode == mode.mode
            &&& model is None ==> after.settings.model == mode.settings.model
            &&& model matches Some(given) ==> after.settings.model == given
            &&& effort is None ==> after.settings.reasoning_effort == mode.settings.reasoning_effort
            &&& effort matches Some(given) ==> after.settings.reasoning_effort == given
            &&& instructions is None ==> after.settings.developer_instructions
                == mode.settings.developer_instructions
            &&& instructions matches Some(given) ==> after.settings.developer_instructions == given
        }),
{
}

/// A marked range of an input text.
#[derive(Clone, Copy, Debug, PartialEq, Eq, Structural)]
pub struct TextElement {
    pub start: usize,
    pub end: usize,
}

/// An item of user input.
#[derive(Debug, PartialEq, Eq)]
pub enum UserInput {
    Text { text: String, text_elements: Vec<TextElement> },
}

/// The content of an item of user input.
#[verifier::ext_equal]
pub enum UserInputView {
    Text { text: Seq<char>, text_elements: Seq<TextElement> },
}

impl View for UserInput {
    type V = UserInputView;

    open spec fn view(&self) -> UserInputView {
        match self {
            UserInput::Text { text, text_elements } => UserInputView::Text {
                text: text@,
                text_elements: text_elements@,
            },
        }
    }
}

/// The one item of a plain text input.
pub open spec fn plain_input(text: Seq<char>) -> Seq<UserInputView> {
    seq![UserInputView::Text { text, text_elements: Seq::empty() }]
}

/// The plain input for a text is one item, which holds the text and marks nothing in it.
pub proof fn law_plain_input_is_the_text(text: Seq<char>)
    ensures
        plain_input(text).len() == 1,
        plain_input(text)[0]->text == text,
        plain_input(text)[0]->text_elements.len() == 0,
{
}

/// The input that holds `text` and nothing else.
pub fn plain_text_input(text: &String) -> (r: Vec<UserInput>)
    ensures
        input_views(r@) == plain_input(text@),
{
    let item = UserInput::Text { text: text.clone(), text_elements: Vec::new() };
    let mut r = Vec::new();
    r.push(item);
    assert(input_views(r@) =~= plain_input(text@));
    r
}

/// The contents of a list of input items.
pub open spec fn input_views(items: Seq<UserInput>) -> Seq<UserInputView> {
    items.map_values(|item: UserInput| item@)
}

/// A turn of the user, with the context that it runs in.
#[derive(Debug, PartialEq, Eq)]
pub struct UserTurn {
    pub items: Vec<UserInput>,
    pub cwd: String,
    pub approval_policy: ApprovalPolicy,
    pub sandbox_policy: Option<SandboxPolicy>,
    pub permission_profile: Option<PermissionProfile>,
    pub model: String,
    pub effort: Option<ReasoningEffort>,
    pub summary: Option<String>,
    pub service_tier: Option<Option<ServiceTier>>,
    pub final_output_json_schema: Option<Json>,
    pub collaboration_mode: Option<CollaborationMode>,
    pub personality: Option<Personality>,
    pub approvals_reviewer: Option<ApprovalsReviewer>,
}

/// The content of a turn.
#[verifier::ext_equal]
pub struct UserTurnView {
    pub items: Seq<UserInputView>,
    pub cwd: String,
    pub approval_policy: ApprovalPolicy,
    pub sandbox_policy: Option<SandboxPolicy>,
    pub permission_profile: Option<PermissionProfile>,
    pub model: String,
    pub effort: Option<ReasoningEffort>,
    pub summary: Option<String>,
    pub service_tier: Option<Option<ServiceTier>>,
    pub final_output_json_schema: Option<Json>,
    pub collaboration_mode: Option<CollaborationMode>,
    pub personality: Option<Personality>,
    pub approvals_reviewer: Option<ApprovalsReviewer>,
}

impl View for UserTurn {
    type V = UserTurnView;

    open spec fn view(&self) -> UserTurnView {
        UserTurnView {
            items: input_views(self.items@),
            cwd: self.cwd,
            approval_policy: self.approval_policy,
            sandbox_policy: self.sandbox_policy,
            permission_profile: self.permission_profile,
            model: self.model,
            effort: self.effort,
            summary: self.summary,
            service_tier: self.service_tier,
            final_output_json_schema: self.final_output_json_schema,
            collaboration_mode: self.collaboration_mode,
            personality: self.personality,
            approvals_reviewer: self.approvals_reviewer,
        }
    }
}

/// The user's verdict on a command that the agent wants to run.
#[derive(Clone, Copy, Debug, PartialEq, Eq, Structural)]
pub enum CommandExecutionApprovalDecision {
    Accept,
    AcceptForSession,
    Decline,
    Cancel,
}

/// The user's verdict on a file change that the agent wants to make.
#[derive(Clone, Copy, Debug, PartialEq, Eq, Structural)]
pub enum FileChangeApprovalDecision {
    Accept,
    AcceptForSession,
    Decline,
    Cancel,
}

/// The answers given to one question of a tool.
#[derive(Clone, Debug, PartialEq, Eq)]
pub struct ToolRequestUserInputAnswer {
    pub question_id: String,
    pub answers: Vec<String>,
}

/// The user's answers to the questions of a tool.
#[derive(Clone, Debug, PartialEq, Eq)]
pub struct ToolRequestUserInputResponse {
    pub answers: Vec<ToolRequestUserInputAnswer>,
}

/// A command to the agent.
#[derive(Debug, PartialEq, Eq)]
#[allow(inconsistent_fields)]
pub enum AppCommand {
    SetThreadName { name: String },
    ExecApproval {
        id: String,
        turn_id: Option<String>,
        decision: CommandExecutionApprovalDecision,
    },
    PatchApproval { id: String, decision: FileChangeApprovalDecision },
    UserInputAnswer { id: String, response: ToolRequestUserInputResponse },
    UserTurn(UserTurn),
    AddToHistory { text: String },
}

/// The content of a command.
#[verifier::ext_equal]
#[allow(inconsistent_fields)]
pub enum CommandView {
    SetThreadName { name: Seq<char> },
    ExecApproval {
        id: Seq<char>,
        turn_id: Option<Seq<char>>,
        decision: CommandExecutionApprovalDecision,
    },
    PatchApproval { id: Seq<char>, decision: FileChangeApprovalDecision },
    UserInputAnswer { id: Seq<char>, response: ToolRequestUserInputResponse },
    UserTurn(UserTurnView),
    AddToHistory { text: Seq<char> },
}

impl View for AppCommand {
    type V = CommandView;

    open spec fn view(&self) -> CommandView {
        match self {
            AppCommand::SetThreadName { name } => CommandView::SetThreadName { name: name@ },
            AppCommand::ExecApproval { id, turn_id, decision } => CommandView::ExecApproval {
                id: id@,
                turn_id: opt_view(*turn_id),
                decision: *decision,
            },
            AppCommand::PatchApproval { id, decision } => CommandView::PatchApproval {
                id: id@,
                decision: *decision,
            },
            AppCommand::UserInputAnswer { id, response } => CommandView::UserInputAnswer {
                id: id@,
                response: *response,
            },
            AppCommand::UserTurn(turn) => CommandView::UserTurn(turn@),
            AppCommand::AddToHistory { text } => CommandView::AddToHistory { text: text@ },
        }
    }
}

/// What a command is seen as is what it is: the same kind, for the same call and turn, with the same
/// verdict, name, answers, text and turn.
pub proof fn law_commands_are_seen_as_they_are(command: AppCommand)
    ensures
        match command {
            AppCommand::SetThreadName { name } => command@ == (CommandView::SetThreadName {
                name: name@,
            }),
            AppCommand::ExecApproval { id, turn_id, decision } => command@ == (
            CommandView::ExecApproval { id: id@, turn_id: opt_view(turn_id), decision }),
            AppCommand::PatchApproval { id, decision } => command@ == (CommandView::PatchApproval {
                id: id@,
                decision,
            }),
            AppCommand::UserInputAnswer { id, response } => command@ == (
            CommandView::UserInputAnswer { id: id@, response }),
            AppCommand::AddToHistory { text } => command@ == (CommandView::AddToHistory {
                text: text@,
            }),
            AppCommand::UserTurn(turn) => command@ matches CommandView::UserTurn(seen) && {
                &&& seen.items.len() == turn.items@.len()
                &&& forall|i: int|
                    0 <= i < turn.items@.len() ==> {
                        &&& (#[trigger] seen.items[i])->text == turn.items@[i]->text@
                        &&& seen.items[i]->text_elements == turn.items@[i]->text_elements@
                    }
                &&& seen.cwd == turn.cwd
                &&& seen.approval_policy == turn.approval_policy
                &&& seen.sandbox_policy == turn.sandbox_policy
                &&& seen.permission_profile == turn.permission_profile
                &&& seen.model == turn.model
                &&& seen.effort == turn.effort
                &&& seen.summary == turn.summary
                &&& seen.service_tier == turn.service_tier
                &&& seen.final_output_json_schema == turn.final_output_json_schema
                &&& seen.collaboration_mode == turn.collaboration_mode
                &&& seen.personality == turn.personality
                &&& seen.approvals_reviewer == turn.approvals_reviewer
            },
        },
{
}

} // verus!
