use vstd::prelude::*;

verus! {

/// Who speaks in a conversation turn.
#[derive(Clone, Copy, Debug, PartialEq, Eq, Structural)]
pub enum MessageRole {
    User,
    Assistant,
    System,
}

/// One role-tagged unit of a conversation.
#[derive(Clone, Debug)]
pub struct ChatMessage {
    pub role: MessageRole,
    pub content: String,
}

/// A turn as a mathematical value: its role and its text.
pub type Turn = (MessageRole, Seq<char>);

impl View for ChatMessage {
    type V = Turn;

    open spec fn view(&self) -> Turn {
        (self.role, self.content@)
    }
}

/// The turns that a sequence of messages stands for, in order.
pub open spec fn turns(s: Seq<ChatMessage>) -> Seq<Turn> {
    s.map_values(|m: ChatMessage| m@)
}

impl ChatMessage {
    pub fn new(role: MessageRole, content: String) -> (r: ChatMessage)
        ensures
            r@ == (role, content@),
    {
        ChatMessage { role, content }
    }

    /// A copy of this turn.
    pub fn duplicate(&self) -> (r: ChatMessage)
        ensures
            r@ == self@,
    {
        ChatMessage { role: self.role, content: self.content.clone() }
    }
}

/// What is sent to the completion endpoint.
#[derive(Clone, Debug)]
pub struct ChatCompletionRequest {
    pub model: String,
    pub messages: Vec<ChatMessage>,
    pub max_tokens: Option<u32>,
}

/// One alternative answer of the model.
#[derive(Clone, Debug)]
pub struct ChatCompletionChoice {
    pub index: u32,
    pub message: ChatMessage,
    pub finish_reason: String,
}

/// What the completion endpoint answers.
#[derive(Clone, Debug)]
pub struct ChatCompletionResponse {
    pub id: String,
    pub model: String,
    pub choices: Vec<ChatCompletionChoice>,
    pub created: u64,
}

/// The text of the first choice, if the model returned any.
pub open spec fn first_reply(resp: ChatCompletionResponse) -> Option<Seq<char>> {
    if resp.choices@.len() > 0 {
        Some(resp.choices@[0].message.content@)
    } else {
        None
    }
}

impl ChatCompletionResponse {
    /// The content of the first choice; `None` when there are no choices.
    pub fn first_content(&self) -> (r: Option<String>)
        ensures
            match r {
                Some(s) => first_reply(*self) == Some(s@),
                None => first_reply(*self) is None,
            },
    {
        if self.choices.len() > 0 {
            Some(self.choices[0].message.content.clone())
        } else {
            None
        }
    }
}

} // verus!
