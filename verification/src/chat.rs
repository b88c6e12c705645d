//! Chat models: the runtimes that can serve one, the text of a request's
//! messages, and the checks made before a model is loaded.

use vstd::prelude::*;
use vstd::string::*;

verus! {

/// The runtime that serves a chat model.
#[derive(Debug, PartialEq, Eq, Clone, Copy, Structural)]
pub enum LlmRuntime {
    Candle,
    Mistral,
    Openai,
}

impl LlmRuntime {
    /// The runtime's name as configuration files write it: lower case.
    pub fn name(&self) -> (name: &'static str)
        ensures
            name@ == match *self {
                LlmRuntime::Candle => "candle"@,
                LlmRuntime::Mistral => "mistral"@,
                LlmRuntime::Openai => "openai"@,
            },
    {
        match self {
            LlmRuntime::Candle => "candle",
            LlmRuntime::Mistral => "mistral",
            LlmRuntime::Openai => "openai",
        }
    }
}

/// Why a chat model could not be made ready.
#[derive(Debug)]
pub enum Error {
    /// The model's weights are not where they were expected.
    LocalModelNotFound { expected_path: String },
    /// The tokenizer, or its configuration, is not where it was expected.
    LocalTokenizerNotFound { expected_path: String },
    /// Neither a model type nor model weights were given for this model.
    FailedToLoadModel { model_id: String },
}

/// One part of a user message that comes in parts.
#[derive(Debug)]
pub enum ContentPart {
    Text(String),
    /// An image, given by its address.
    Image(String),
}

/// What a user message holds.
#[derive(Debug)]
pub enum UserContent {
    Text(String),
    Array(Vec<ContentPart>),
}

/// One message of a chat request.
#[derive(Debug)]
pub enum ChatMessage {
    User(UserContent),
    System(String),
    Tool(String),
    Assistant(Option<String>),
    Function(Option<String>),
}

/// The text of one part: its text, or the address of its image.
pub open spec fn part_text(part: ContentPart) -> Seq<char> {
    match part {
        ContentPart::Text(t) => t@,
        ContentPart::Image(url) => url@,
    }
}

/// The texts of the first `n` parts, each on a line of its own: a line break
/// stands between two parts, none before the first or behind the last.
pub open spec fn joined_parts(parts: Seq<ContentPart>, n: int) -> Seq<char>
    decreases n,
{
    if n <= 0 {
        Seq::empty()
    } else if n == 1 {
        part_text(parts[0])
    } else {
        joined_parts(parts, n - 1) + seq!['\n'] + part_text(parts[n - 1])
    }
}

/// The text of a message. The parts of a user message are joined by line
/// breaks; an assistant or function message without content is empty.
pub open spec fn content_of(message: ChatMessage) -> Seq<char> {
    match message {
        ChatMessage::User(UserContent::Text(t)) => t@,
        ChatMessage::User(UserContent::Array(parts)) => joined_parts(parts@, parts@.len() as int),
        ChatMessage::System(t) => t@,
        ChatMessage::Tool(t) => t@,
        ChatMessage::Assistant(Some(t)) => t@,
        ChatMessage::Assistant(None) => Seq::empty(),
        ChatMessage::Function(Some(t)) => t@,
        ChatMessage::Function(None) => Seq::empty(),
    }
}

/// The texts of the first `n` messages, joined by line breaks.
pub open spec fn joined_messages(messages: Seq<ChatMessage>, n: int) -> Seq<char>
    decreases n,
{
    if n <= 0 {
        Seq::empty()
    } else if n == 1 {
        content_of(messages[0])
    } else {
        joined_messages(messages, n - 1) + seq!['\n'] + content_of(messages[n - 1])
    }
}

/// Turns a message into plain text.
pub fn message_to_content(message: &ChatMessage) -> (text: String)
    ensures
        text@ == content_of(*message),
{
    match message {
        ChatMessage::User(UserContent::Text(t)) => t.clone(),
        ChatMessage::User(UserContent::Array(parts)) => {
            let mut text = String::new();
            let mut i: usize = 0;
            while i < parts.len()
                invariant
                    i <= parts@.len(),
                    text@ == joined_parts(parts@, i as int),
                decreases parts@.len() - i,
            {
                proof {
                    reveal_strlit("\n");
                }
                if i > 0 {
                    text.append("\n");
                    assert("\n"@ =~= seq!['\n']);
                } else {
                    assert(text@ + part_text(parts@[0]) =~= part_text(parts@[0]));
                }
                match &parts[i] {
                    ContentPart::Text(t) => {
                        text.append(t.as_str());
                    },
                    ContentPart::Image(url) => {
                        text.append(url.as_str());
                    },
                }
                i = i + 1;
            }
            text
        },
        ChatMessage::System(t) => t.clone(),
        ChatMessage::Tool(t) => t.clone(),
        ChatMessage::Assistant(Some(t)) => t.clone(),
        ChatMessage::Assistant(None) => String::new(),
        ChatMessage::Function(Some(t)) => t.clone(),
        ChatMessage::Function(None) => String::new(),
    }
}

/// The prompt of a request: the texts of its messages, joined by line breaks.
pub fn prompt_of(messages: &Vec<ChatMessage>) -> (prompt: String)
    ensures
        prompt@ == joined_messages(messages@, messages@.len() as int),
{
    let mut prompt = String::new();
    let mut i: usize = 0;
    while i < messages.len()
        invariant
            i <= messages@.len(),
            prompt@ == joined_messages(messages@, i as int),
        decreases messages@.len() - i,
    {
        proof {
            reveal_strlit("\n");
        }
        let text = message_to_content(&messages[i]);
        if i > 0 {
            prompt.append("\n");
            assert("\n"@ =~= seq!['\n']);
        } else {
            assert(prompt@ + content_of(messages@[0]) =~= content_of(messages@[0]));
        }
        prompt.append(text.as_str());
        i = i + 1;
    }
    prompt
}

/// Checks what is given for a model from a model hub: a model type or model
/// weights must be named.
pub fn create_hf_model(
    model_id: &str,
    model_type: &Option<String>,
    model_weights: &Option<String>,
) -> (r: Result<(), Error>)
    ensures
        r is Ok <==> (model_type is Some || model_weights is Some),
        r is Err ==> (r->Err_0 matches Error::FailedToLoadModel { model_id: id } && id@
            == model_id@),
{
    if model_type.is_none() && model_weights.is_none() {
        return Err(Error::FailedToLoadModel { model_id: String::from_str(model_id) });
    }
    Ok(())
}

/// Checks that the files of a local model are there, given for each whether
/// it exists: the weights first, then the tokenizer if one is named, then
/// the tokenizer's configuration. The first that is missing is reported with
/// its path.
pub fn create_local_model(
    model_weights: &str,
    weights_exist: bool,
    tokenizer: Option<&str>,
    tokenizer_exists: bool,
    tokenizer_config: &str,
    tokenizer_config_exists: bool,
) -> (r: Result<(), Error>)
    ensures
        r is Ok <==> weights_exist && (tokenizer is None || tokenizer_exists)
            && tokenizer_config_exists,
        r is Err ==> if !weights_exist {
            r->Err_0 matches Error::LocalModelNotFound { expected_path } && expected_path@
                == model_weights@
        } else if tokenizer is Some && !tokenizer_exists {
            r->Err_0 matches Error::LocalTokenizerNotFound { expected_path } && expected_path@
                == tokenizer->Some_0@
        } else {
            r->Err_0 matches Error::LocalTokenizerNotFound { expected_path } && expected_path@
                == tokenizer_config@
        },
{
    if !weights_exist {
        return Err(Error::LocalModelNotFound { expected_path: String::from_str(model_weights) });
    }
    match tokenizer {
        Some(path) => {
            if !tokenizer_exists {
                return Err(
                    Error::LocalTokenizerNotFound { expected_path: String::from_str(path) },
                );
            }
        },
        None => {},
    }
    if !tokenizer_config_exists {
        return Err(
            Error::LocalTokenizerNotFound { expected_path: String::from_str(tokenizer_config) },
        );
    }
    Ok(())
}

} // verus!
