//! What the chat client exchanges with a model server: the models it offers,
//! the chat requests sent to it and the replies read back, and the Ollama
//! server's settings, addresses and listings.

use vstd::prelude::*;
use vstd::string::StringExecFns;
use std::collections::HashMap;

verus! {

/// A JSON value of serde_json, carried through the library as it is.
#[verifier::external_type_specification]
#[verifier::external_body]
pub struct ExJsonValue(serde_json::Value);

/// The views of an optional text.
pub open spec fn opt_text(o: Option<String>) -> Option<Seq<char>> {
    match o {
        Some(s) => Some(s@),
        None => None,
    }
}

/// A copy of an optional text.
fn clone_opt_text(o: &Option<String>) -> (res: Option<String>)
    ensures
        opt_text(res) == opt_text(*o),
{
    match o {
        Some(s) => Some(s.clone()),
        None => None,
    }
}

/// The decimal digit of `d`, for `0 <= d < 10`.
pub open spec fn digit_char(d: nat) -> char {
    seq!['0', '1', '2', '3', '4', '5', '6', '7', '8', '9'][d as int]
}

/// The decimal text of `n`, with no sign and no leading zero.
pub open spec fn decimal(n: nat) -> Seq<char>
    decreases n,
{
    if n < 10 {
        seq![digit_char(n)]
    } else {
        decimal(n / 10) + seq![digit_char(n % 10)]
    }
}

/// The number that a text of decimal digits stands for, read from the most
/// significant digit.
pub open spec fn digits_value(s: Seq<char>) -> int
    decreases s.len(),
{
    if s.len() == 0 {
        0
    } else {
        digits_value(s.drop_last()) * 10 + (s.last() as int - '0' as int)
    }
}

/// Whether `c` is one of the decimal digits `0` to `9`.
pub open spec fn is_digit(c: char) -> bool {
    '0' as int <= c as int <= '9' as int
}

/// The digit character of `d` stands for `d`.
proof fn lemma_digit_char(d: nat)
    requires
        d < 10,
    ensures
        digit_char(d) as int - '0' as int == d,
        is_digit(digit_char(d)),
{
    if d == 0 {
    } else if d == 1 {
    } else if d == 2 {
    } else if d == 3 {
    } else if d == 4 {
    } else if d == 5 {
    } else if d == 6 {
    } else if d == 7 {
    } else if d == 8 {
    } else {
    }
}

/// The decimal text of a number is made of digits, starts with `0` only for
/// zero itself, and reads back as the number.
pub proof fn law_decimal_reads_back(n: nat)
    ensures
        decimal(n).len() > 0,
        forall|i: int| 0 <= i < decimal(n).len() ==> is_digit(#[trigger] decimal(n)[i]),
        decimal(n)[0] == '0' ==> n == 0,
        digits_value(decimal(n)) == n,
    decreases n,
{
    if n < 10 {
        lemma_digit_char(n);
        assert(decimal(n) == seq![digit_char(n)]);
        assert(seq![digit_char(n)].drop_last() =~= Seq::<char>::empty());
        assert(digits_value(Seq::<char>::empty()) == 0);
        assert(digits_value(seq![digit_char(n)]) == digit_char(n) as int - '0' as int);
    } else {
        law_decimal_reads_back(n / 10);
        lemma_digit_char(n % 10);
        let head = decimal(n / 10);
        let s = head + seq![digit_char(n % 10)];
        assert(decimal(n) == s);
        assert(s.drop_last() =~= head);
        assert(s.last() == digit_char(n % 10));
        assert(s[0] == head[0]);
        assert(digits_value(s) == digits_value(head) * 10 + (n % 10));
        assert((n / 10) * 10 + n % 10 == n);
        assert forall|i: int| 0 <= i < s.len() implies is_digit(#[trigger] s[i]) by {
            if i < head.len() {
                assert(s[i] == head[i]);
            }
        }
    }
}

/// The one-character text of the decimal digit `d`.
fn digit_str(d: u64) -> (res: &'static str)
    requires
        d < 10,
    ensures
        res@ == seq![digit_char(d as nat)],
{
    proof {
        reveal_strlit("0");
        reveal_strlit("1");
        reveal_strlit("2");
        reveal_strlit("3");
        reveal_strlit("4");
        reveal_strlit("5");
        reveal_strlit("6");
        reveal_strlit("7");
        reveal_strlit("8");
        reveal_strlit("9");
    }
    if d == 0 {
        "0"
    } else if d == 1 {
        "1"
    } else if d == 2 {
        "2"
    } else if d == 3 {
        "3"
    } else if d == 4 {
        "4"
    } else if d == 5 {
        "5"
    } else if d == 6 {
        "6"
    } else if d == 7 {
        "7"
    } else if d == 8 {
        "8"
    } else {
        "9"
    }
}

/// The decimal text of `n`, with no sign and no leading zero.
pub fn decimal_text(n: u64) -> (res: String)
    ensures
        res@ == decimal(n as nat),
    decreases n,
{
    if n < 10 {
        String::from_str(digit_str(n))
    } else {
        let head = decimal_text(n / 10);
        head.concat(digit_str(n % 10))
    }
}

/// A model that a server offers, as the client shows it.
#[derive(Debug, Clone)]
pub struct ModelInfo {
    pub name: String,
    pub size: Option<String>,
    pub quantization: Option<String>,
    pub context_length: Option<usize>,
}

/// A model offered, as plain values.
pub struct ModelInfoView {
    pub name: Seq<char>,
    pub size: Option<Seq<char>>,
    pub quantization: Option<Seq<char>>,
    pub context_length: Option<usize>,
}

impl View for ModelInfo {
    type V = ModelInfoView;

    open spec fn view(&self) -> ModelInfoView {
        ModelInfoView {
            name: self.name@,
            size: opt_text(self.size),
            quantization: opt_text(self.quantization),
            context_length: self.context_length,
        }
    }
}

/// A message of a chat request or reply.
#[derive(Debug, Clone)]
pub struct Message {
    /// `"user"` or `"assistant"`.
    pub role: String,
    pub content: String,
}

/// A chat message as plain values.
pub struct MessageView {
    pub role: Seq<char>,
    pub content: Seq<char>,
}

impl View for Message {
    type V = MessageView;

    open spec fn view(&self) -> MessageView {
        MessageView { role: self.role@, content: self.content@ }
    }
}

impl From<crate::models::Message> for Message {
    fn from(message: crate::models::Message) -> (res: Self) {
        Message { role: message.role, content: message.content }
    }
}

impl vstd::std_specs::convert::FromSpecImpl<crate::models::Message> for Message {
    open spec fn obeys_from_spec() -> bool {
        true
    }

    open spec fn from_spec(v: crate::models::Message) -> Self {
        Message { role: v.role, content: v.content }
    }
}

/// A chat request: the model, the messages so far, whether the reply is to be
/// streamed, and further options of the model.
#[derive(Debug, Clone)]
pub struct ChatRequest {
    pub model: String,
    pub messages: Vec<Message>,
    pub stream: bool,
    pub options: HashMap<String, serde_json::Value>,
}

/// The views of a sequence of chat messages.
pub open spec fn chat_message_views(messages: Seq<Message>) -> Seq<MessageView> {
    messages.map_values(|m: Message| m@)
}

/// A chat request as plain values.
pub struct ChatRequestView {
    pub model: Seq<char>,
    pub messages: Seq<MessageView>,
    pub stream: bool,
    pub options: Map<String, serde_json::Value>,
}

impl View for ChatRequest {
    type V = ChatRequestView;

    open spec fn view(&self) -> ChatRequestView {
        ChatRequestView {
            model: self.model@,
            messages: chat_message_views(self.messages@),
            stream: self.stream,
            options: self.options@,
        }
    }
}

/// One reply of a chat: a message or a part of one, and whether the reply is
/// complete.
#[derive(Debug, Clone)]
pub struct ChatResponse {
    pub message: Option<Message>,
    pub done: bool,
    pub done_reason: Option<String>,
}

/// A chat reply as plain values.
pub struct ChatResponseView {
    pub message: Option<MessageView>,
    pub done: bool,
    pub done_reason: Option<Seq<char>>,
}

impl View for ChatResponse {
    type V = ChatResponseView;

    open spec fn view(&self) -> ChatResponseView {
        ChatResponseView {
            message: match self.message {
                Some(m) => Some(m@),
                None => None,
            },
            done: self.done,
            done_reason: opt_text(self.done_reason),
        }
    }
}

/// Where an Ollama server is and how long a request to it may take, in
/// seconds.
#[derive(Debug, Clone)]
pub struct OllamaConfig {
    pub base_url: String,
    pub timeout: u64,
}

impl Default for OllamaConfig {
    fn default() -> (res: Self)
        ensures
            res.base_url@ == "http://localhost:11434"@,
            res.timeout == 30,
    {
        OllamaConfig { base_url: String::from_str("http://localhost:11434"), timeout: 30 }
    }
}

impl OllamaConfig {
    /// The address that lists the server's models, which also answers the
    /// health check.
    pub fn models_url(&self) -> (res: String)
        ensures
            res@ == self.base_url@ + "/api/models"@,
    {
        self.base_url.clone().concat("/api/models")
    }

    /// The address that chat requests are sent to.
    pub fn chat_url(&self) -> (res: String)
        ensures
            res@ == self.base_url@ + "/api/chat"@,
    {
        self.base_url.clone().concat("/api/chat")
    }
}

/// The details of a model in an Ollama listing.
#[derive(Debug, Clone)]
pub struct OllamaModelDetails {
    pub quantization_level: Option<String>,
    pub context_length: Option<usize>,
}

/// A model in an Ollama listing; its size is in bytes.
#[derive(Debug, Clone)]
pub struct OllamaModel {
    pub name: String,
    pub size: Option<u64>,
    pub details: Option<OllamaModelDetails>,
}

/// An Ollama listing of models.
#[derive(Debug, Clone)]
pub struct OllamaModelsResponse {
    pub models: Vec<OllamaModel>,
}

/// The text a model's size in bytes is shown as: the decimal number and
/// `" bytes"`.
pub open spec fn size_text(bytes: u64) -> Seq<char> {
    decimal(bytes as nat) + " bytes"@
}

/// What the client shows of a listed model: its name, its size as text, and
/// the quantization and context length of its details, where it has details.
pub open spec fn model_info_of(m: OllamaModel) -> ModelInfoView {
    ModelInfoView {
        name: m.name@,
        size: match m.size {
            Some(s) => Some(size_text(s)),
            None => None,
        },
        quantization: match m.details {
            Some(d) => opt_text(d.quantization_level),
            None => None,
        },
        context_length: match m.details {
            Some(d) => d.context_length,
            None => None,
        },
    }
}

/// What is shown of a listed model: its own name; its size as the decimal
/// number of bytes followed by `" bytes"`, where it has a size; and the
/// quantization level and context length of its details, where it has
/// details.
pub proof fn law_model_info_fields(m: OllamaModel)
    ensures
        model_info_of(m).name == m.name@,
        m.size matches Some(b) ==> model_info_of(m).size == Some(decimal(b as nat) + " bytes"@),
        m.size is None ==> model_info_of(m).size is None,
        m.details matches Some(d) ==> model_info_of(m).quantization == opt_text(d.quantization_level)
            && model_info_of(m).context_length == d.context_length,
        m.details is None ==> model_info_of(m).quantization is None && model_info_of(
            m,
        ).context_length is None,
{
}

/// The text a size in bytes is shown as.
pub fn size_label(bytes: u64) -> (res: String)
    ensures
        res@ == size_text(bytes),
{
    decimal_text(bytes).concat(" bytes")
}

/// What the client shows of a listed model.
pub fn model_info(m: &OllamaModel) -> (res: ModelInfo)
    ensures
        res@ == model_info_of(*m),
{
    let size = match m.size {
        Some(s) => Some(size_label(s)),
        None => None,
    };
    let (quantization, context_length) = match &m.details {
        Some(d) => (clone_opt_text(&d.quantization_level), d.context_length),
        None => (None, None),
    };
    ModelInfo { name: m.name.clone(), size, quantization, context_length }
}

/// What the client shows of each model of a listing, in the listing's order.
pub fn models_from_response(data: &OllamaModelsResponse) -> (res: Vec<ModelInfo>)
    ensures
        res.len() == data.models.len(),
        forall|i: int| 0 <= i < res.len() ==> #[trigger] res@[i]@ == model_info_of(data.models@[i]),
{
    let mut res: Vec<ModelInfo> = Vec::new();
    let mut i: usize = 0;
    while i < data.models.len()
        invariant
            i <= data.models.len(),
            res.len() == i,
            forall|j: int| 0 <= j < i ==> #[trigger] res@[j]@ == model_info_of(data.models@[j]),
        decreases data.models.len() - i,
    {
        res.push(model_info(&data.models[i]));
        i = i + 1;
    }
    res
}

/// The outcome of a health check whose request was answered with the HTTP
/// status `status`: healthy exactly on a success status (200 to 299).
pub fn health_from_status(status: u16) -> (res: Result<(), String>)
    ensures
        res is Ok <==> 200 <= status < 300,
        res matches Err(e) ==> e@ == "Health check failed"@,
{
    if 200 <= status && status < 300 {
        Ok(())
    } else {
        Err(String::from_str("Health check failed"))
    }
}

} // verus!
