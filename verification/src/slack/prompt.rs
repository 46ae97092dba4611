//! The request for approval as it is posted to a Slack channel.

use crate::approval::{
    button_id, button_label, excerpt, input_text, new_approval_id, Choice,
};
use vstd::prelude::*;
use vstd::string::*;

verus! {

/// A button below a request.
pub struct SlackButton {
    pub action_id: String,
    pub label: String,
    /// The name of the button's style, where it is not the plain one.
    pub style: Option<String>,
}

pub struct SlackButtonView {
    pub action_id: Seq<char>,
    pub label: Seq<char>,
    pub style: Option<Seq<char>>,
}

impl View for SlackButton {
    type V = SlackButtonView;

    open spec fn view(&self) -> SlackButtonView {
        SlackButtonView {
            action_id: self.action_id@,
            label: self.label@,
            style: crate::approval::text_view(self.style),
        }
    }
}

/// A request for approval as it is posted: a text with one row of buttons.
pub struct SlackPrompt {
    pub approval_id: String,
    pub text: String,
    pub buttons: Vec<SlackButton>,
}

#[verifier::ext_equal]
pub struct SlackPromptView {
    pub approval_id: Seq<char>,
    pub text: Seq<char>,
    pub buttons: Seq<SlackButtonView>,
}

impl View for SlackPrompt {
    type V = SlackPromptView;

    open spec fn view(&self) -> SlackPromptView {
        SlackPromptView {
            approval_id: self.approval_id@,
            text: self.text@,
            buttons: self.buttons@.map_values(|b: SlackButton| b@),
        }
    }
}

pub open spec fn style_of(choice: Choice) -> Option<Seq<char>> {
    match choice {
        Choice::Approve => Some("primary"@),
        Choice::Always => None,
        Choice::Deny => Some("danger"@),
    }
}

pub open spec fn button_of(choice: Choice, approval_id: Seq<char>) -> SlackButtonView {
    SlackButtonView {
        action_id: crate::approval::button_id_of(choice, approval_id),
        label: crate::approval::label_of(choice),
        style: style_of(choice),
    }
}

/// The text of a request: the tool's name, and its input as far as it is shown.
pub open spec fn text_of(tool_name: Seq<char>, input_text: Seq<char>) -> Seq<char> {
    "🔐 *Tool Approval Required*\n\nTool: `"@ + tool_name + "`\nInput:\n```\n"@
        + crate::approval::excerpt_of(input_text) + "\n```"@
}

/// The request `approval_id` for a call of `tool_name`.
pub open spec fn prompt_of(
    approval_id: Seq<char>,
    tool_name: Seq<char>,
    input_text: Seq<char>,
) -> SlackPromptView {
    SlackPromptView {
        approval_id,
        text: text_of(tool_name, input_text),
        buttons: seq![
            button_of(Choice::Approve, approval_id),
            button_of(Choice::Always, approval_id),
            button_of(Choice::Deny, approval_id),
        ],
    }
}

fn button(choice: Choice, approval_id: &str) -> (button: SlackButton)
    ensures
        button@ == button_of(choice, approval_id@),
{
    let style = match choice {
        Choice::Approve => Some("primary".to_owned()),
        Choice::Always => None,
        Choice::Deny => Some("danger".to_owned()),
    };
    SlackButton { action_id: button_id(choice, approval_id), label: button_label(choice), style }
}

impl SlackPrompt {
    /// A request, under a new random id, for a call of `tool_name` with `input`, from
    /// which secrets have been removed.
    pub fn new(tool_name: &str, input: &serde_json::Value) -> (prompt: Self)
        ensures
            crate::approval::is_random_uuid(prompt.approval_id@),
            prompt@ == prompt_of(
                prompt.approval_id@,
                tool_name@,
                crate::approval::input_text_of(*input),
            ),
    {
        let approval_id = new_approval_id();
        let shown = input_text(input);
        Self::compose(approval_id, tool_name, shown.as_str())
    }

    /// The request `approval_id` for a call of `tool_name` whose input reads `input_text`.
    pub fn compose(approval_id: String, tool_name: &str, input_text: &str) -> (prompt: Self)
        ensures
            prompt@ == prompt_of(approval_id@, tool_name@, input_text@),
            prompt.approval_id@ == approval_id@,
            prompt.text@ == "🔐 *Tool Approval Required*\n\nTool: `"@ + tool_name@ + "`\nInput:\n```\n"@
                + crate::approval::excerpt_of(input_text@) + "\n```"@,
            prompt.buttons@.len() == 3,
            prompt.buttons@[0].action_id@ == "approve:"@ + approval_id@,
            prompt.buttons@[0].label@ == "✅ Yes"@,
            crate::approval::text_view(prompt.buttons@[0].style) == Some("primary"@),
            prompt.buttons@[1].action_id@ == "always:"@ + approval_id@,
            prompt.buttons@[1].label@ == "🔁 Always (session)"@,
            prompt.buttons@[1].style is None,
            prompt.buttons@[2].action_id@ == "deny:"@ + approval_id@,
            prompt.buttons@[2].label@ == "❌ No"@,
            crate::approval::text_view(prompt.buttons@[2].style) == Some("danger"@),
    {
        let text = "🔐 *Tool Approval Required*\n\nTool: `".to_owned().concat(tool_name).concat(
            "`\nInput:\n```\n",
        ).concat(excerpt(input_text)).concat("\n```");
        let mut buttons: Vec<SlackButton> = Vec::new();
        buttons.push(button(Choice::Approve, approval_id.as_str()));
        buttons.push(button(Choice::Always, approval_id.as_str()));
        buttons.push(button(Choice::Deny, approval_id.as_str()));
        let prompt = SlackPrompt { approval_id, text, buttons };
        assert(prompt@ =~= prompt_of(approval_id@, tool_name@, input_text@));
        proof {
            law_request_is_posted_as_viewed(prompt, 0);
            law_request_is_posted_as_viewed(prompt, 1);
            law_request_is_posted_as_viewed(prompt, 2);
        }
        prompt
    }
}

/// A request names its tool and shows the excerpt of its input, whatever the tool, the
/// input and the id: the text is the heading, the tool's name, the excerpt and the end of
/// the block, and nothing else.
pub proof fn law_request_names_the_tool(
    approval_id: Seq<char>,
    tool_name: Seq<char>,
    input_text: Seq<char>,
)
    ensures
        prompt_of(approval_id, tool_name, input_text).approval_id == approval_id,
        prompt_of(approval_id, tool_name, input_text).text == "🔐 *Tool Approval Required*\n\nTool: `"@
            + tool_name + "`\nInput:\n```\n"@ + crate::approval::excerpt_of(input_text) + "\n```"@,
        ("🔐 *Tool Approval Required*\n\nTool: `"@ + tool_name + "`\nInput:\n```\n"@).is_prefix_of(
            prompt_of(approval_id, tool_name, input_text).text,
        ),
{
}

/// A request offers three buttons, in order: yes, always and no. Each carries its own
/// choice and the id of the request, whatever the tool and its input.
pub proof fn law_request_offers_three_choices(
    approval_id: Seq<char>,
    tool_name: Seq<char>,
    input_text: Seq<char>,
)
    ensures
        prompt_of(approval_id, tool_name, input_text).buttons.len() == 3,
        prompt_of(approval_id, tool_name, input_text).buttons[0] == (SlackButtonView {
            action_id: "approve:"@ + approval_id,
            label: "✅ Yes"@,
            style: Some("primary"@),
        }),
        prompt_of(approval_id, tool_name, input_text).buttons[1] == (SlackButtonView {
            action_id: "always:"@ + approval_id,
            label: "🔁 Always (session)"@,
            style: None,
        }),
        prompt_of(approval_id, tool_name, input_text).buttons[2] == (SlackButtonView {
            action_id: "deny:"@ + approval_id,
            label: "❌ No"@,
            style: Some("danger"@),
        }),
{
}

/// The buttons depend on the id of a request alone, and its text on the tool and the input
/// alone.
pub proof fn law_buttons_depend_on_the_id_alone(
    approval_id: Seq<char>,
    other_id: Seq<char>,
    tool_name: Seq<char>,
    other_tool: Seq<char>,
    input_text: Seq<char>,
    other_input: Seq<char>,
)
    ensures
        prompt_of(approval_id, tool_name, input_text).buttons == prompt_of(
            approval_id,
            other_tool,
            other_input,
        ).buttons,
        prompt_of(approval_id, tool_name, input_text).text == prompt_of(
            other_id,
            tool_name,
            input_text,
        ).text,
{
}

/// What is said of a request is said of what is posted: its view holds its texts and its
/// buttons as they are, in their order.
pub proof fn law_request_is_posted_as_viewed(prompt: SlackPrompt, i: int)
    ensures
        prompt@.approval_id == prompt.approval_id@,
        prompt@.text == prompt.text@,
        prompt@.buttons.len() == prompt.buttons@.len(),
        0 <= i < prompt.buttons@.len() ==> prompt@.buttons[i] == (SlackButtonView {
            action_id: prompt.buttons@[i].action_id@,
            label: prompt.buttons@[i].label@,
            style: crate::approval::text_view(prompt.buttons@[i].style),
        }),
{
}

} // verus!
