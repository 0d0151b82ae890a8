//! Chat completions: messages, requests and their builders, responses.

use crate::api::extraction_prompt::PromptTemplate;
use crate::client::{ClientEnum, HttpRequest, Method};
use crate::json::{
    find_member, lemma_find_member_concat, lemma_find_optional_entry, member_views,
    optional_entry, optional_view, same_text, views_of, FromJson, Json, JsonView, ToJson,
};
use crate::response_wrapper::OpenAIError;
use vstd::hash_map::StringHashMap;
use vstd::prelude::*;
use vstd::string::*;

verus! {

/// Who speaks in a message.
#[derive(Debug, Clone, Copy, PartialEq, Eq, Structural)]
pub enum Role {
    System,
    User,
    Assistant,
}

impl Default for Role {
    fn default() -> (role: Self)
        ensures
            role == Role::User,
    {
        Role::User
    }
}

impl Role {
    /// The name of the role on the wire.
    pub open spec fn name(self) -> Seq<char> {
        match self {
            Role::System => "system"@,
            Role::User => "user"@,
            Role::Assistant => "assistant"@,
        }
    }

    pub fn as_str(&self) -> (name: &'static str)
        ensures
            name@ == self.name(),
    {
        match self {
            Role::System => "system",
            Role::User => "user",
            Role::Assistant => "assistant",
        }
    }

    pub fn to_string(&self) -> (name: String)
        ensures
            name@ == self.name(),
    {
        String::from_str(self.as_str())
    }
}

/// One message of a conversation.
#[derive(Debug, Clone)]
pub struct ChatCompletionMessage {
    pub role: Role,
    pub content: String,
    pub name: Option<String>,
}

impl Default for ChatCompletionMessage {
    fn default() -> (message: Self)
        ensures
            message.role == Role::User,
            message.content@.len() == 0,
            message.name is None,
    {
        Self { role: Role::User, content: String::new(), name: None }
    }
}

/// Accumulates the fields of a [`ChatCompletionMessage`].
#[derive(Debug, Clone)]
pub struct ChatCompletionMessageRequestBuilder {
    pub role: Option<Role>,
    pub content: Option<String>,
    pub name: Option<String>,
}

impl Default for ChatCompletionMessageRequestBuilder {
    fn default() -> (builder: Self)
        ensures
            builder.role is None,
            builder.content is None,
            builder.name is None,
    {
        Self { role: None, content: None, name: None }
    }
}

impl ChatCompletionMessageRequestBuilder {
    pub fn role(&mut self, value: Role) -> (builder: &mut Self)
        ensures
            *builder == (Self { role: Some(value), ..*old(self) }),
            *final(self) == *final(builder),
    {
        self.role = Some(value);
        self
    }

    pub fn content(&mut self, value: String) -> (builder: &mut Self)
        ensures
            *builder == (Self { content: Some(value), ..*old(self) }),
            *final(self) == *final(builder),
    {
        self.content = Some(value);
        self
    }

    pub fn name(&mut self, value: String) -> (builder: &mut Self)
        ensures
            *builder == (Self { name: Some(value), ..*old(self) }),
            *final(self) == *final(builder),
    {
        self.name = Some(value);
        self
    }

    /// The role that `build` gives the message: the one that was set, or
    /// `User`.
    pub open spec fn built_role(&self) -> Role {
        match self.role {
            Some(role) => role,
            None => Role::User,
        }
    }

    /// The content that `build` gives the message: the one that was set, or
    /// the empty text.
    pub open spec fn built_content(&self) -> Seq<char> {
        match self.content {
            Some(content) => content@,
            None => Seq::empty(),
        }
    }

    /// Finishes the message. A message has no required field, so this
    /// succeeds on every builder.
    pub fn build(&self) -> (r: Result<ChatCompletionMessage, OpenAIError>)
        ensures
            r matches Ok(message) && message.role == self.built_role() && message.content@
                == self.built_content() && message.name == self.name,
    {
        let role = match self.role {
            Some(role) => role,
            None => Role::default(),
        };
        let content = match &self.content {
            Some(content) => content.clone(),
            None => String::new(),
        };
        Ok(ChatCompletionMessage { role, content, name: copy_text(&self.name) })
    }
}

/// A copy of an optional text.
pub fn copy_text(text: &Option<String>) -> (copy: Option<String>)
    ensures
        copy == *text,
{
    match text {
        Some(text) => Some(text.clone()),
        None => None,
    }
}

/// An optional text as an optional JSON string.
pub open spec fn text_json(text: Option<String>) -> Option<JsonView> {
    match text {
        Some(text) => Some(JsonView::Text(text@)),
        None => None,
    }
}

/// The role with this name on the wire, if there is one.
pub open spec fn role_named(name: Seq<char>) -> Option<Role> {
    if name == "system"@ {
        Some(Role::System)
    } else if name == "user"@ {
        Some(Role::User)
    } else if name == "assistant"@ {
        Some(Role::Assistant)
    } else {
        None
    }
}

/// The role with this name on the wire, if there is one.
pub fn parse_role(name: &str) -> (role: Option<Role>)
    ensures
        role == role_named(name@),
{
    if same_text(name, "system") {
        Some(Role::System)
    } else if same_text(name, "user") {
        Some(Role::User)
    } else if same_text(name, "assistant") {
        Some(Role::Assistant)
    } else {
        None
    }
}

impl ChatCompletionMessage {
    /// A copy of the message.
    pub fn duplicate(&self) -> (copy: Self)
        ensures
            copy == *self,
    {
        Self { role: self.role, content: self.content.clone(), name: copy_text(&self.name) }
    }
}

impl ToJson for ChatCompletionMessage {
    open spec fn json(&self) -> JsonView {
        JsonView::Object(
            seq![
                ("role"@, JsonView::Text(self.role.name())),
                ("content"@, JsonView::Text(self.content@)),
            ] + optional_entry("name"@, text_json(self.name)),
        )
    }

    fn to_json(&self) -> (doc: Json) {
        let mut members: Vec<(String, Json)> = Vec::new();
        Json::push_member(&mut members, "role", Json::text(self.role.as_str()));
        Json::push_member(&mut members, "content", Json::text(self.content.as_str()));
        if let Some(name) = &self.name {
            Json::push_member(&mut members, "name", Json::text(name.as_str()));
        }
        proof {
            assert(member_views(members@) =~= self.json()->Object_0);
        }
        Json::object(members)
    }
}

impl FromJson for ChatCompletionMessage {
    open spec fn accepts(doc: JsonView) -> bool {
        &&& doc.text_member("role"@) matches Some(name) && role_named(name) is Some
        &&& doc.text_member("content"@) is Some
        &&& doc.optional_text_ok("name"@)
    }

    open spec fn agrees_with(&self, doc: JsonView) -> bool {
        &&& doc.text_member("role"@) matches Some(name) && role_named(name) == Some(self.role)
        &&& doc.text_member("content"@) == Some(self.content@)
        &&& doc.optional_member("name"@) == text_json(self.name)
    }

    fn from_json(doc: &Json) -> (r: Option<Self>) {
        let role = match doc.text_member("role") {
            Some(name) => match parse_role(name.as_str()) {
                Some(role) => role,
                None => {
                    return None;
                },
            },
            None => {
                return None;
            },
        };
        let content = match doc.text_member("content") {
            Some(content) => content,
            None => {
                return None;
            },
        };
        match doc.optional_text_member("name") {
            Some(name) => Some(ChatCompletionMessage { role, content, name }),
            None => None,
        }
    }
}

/// A sampling parameter: an IEEE-754 single-precision number, carried by its
/// bit pattern. The library hands it on and never computes with it.
#[derive(Debug, Clone, Copy, PartialEq, Eq, Structural)]
pub struct Single {
    pub bits: u32,
}

impl Single {
    pub fn from_bits(bits: u32) -> (number: Self)
        ensures
            number.bits == bits,
    {
        Single { bits }
    }

    pub fn to_bits(&self) -> (bits: u32)
        ensures
            bits == self.bits,
    {
        self.bits
    }
}

/// Where the completion stops: at one sequence, or at any of several.
#[derive(Debug, Clone)]
pub enum Stop {
    Text(String),
    Sequences(Vec<String>),
}

/// A sequence of texts as JSON strings.
pub open spec fn text_docs(texts: Seq<String>) -> Seq<JsonView> {
    Seq::new(texts.len(), |i: int| JsonView::Text(texts[i]@))
}

impl ToJson for Stop {
    open spec fn json(&self) -> JsonView {
        match self {
            Stop::Text(text) => JsonView::Text(text@),
            Stop::Sequences(texts) => JsonView::Array(text_docs(texts@)),
        }
    }

    fn to_json(&self) -> (doc: Json) {
        match self {
            Stop::Text(text) => Json::text(text.as_str()),
            Stop::Sequences(texts) => {
                let mut items: Vec<Json> = Vec::new();
                let mut i: usize = 0;
                while i < texts.len()
                    invariant
                        i <= texts.len(),
                        views_of(items@) == text_docs(texts@.take(i as int)),
                    decreases texts.len() - i,
                {
                    let ghost done = views_of(items@);
                    items.push(Json::text(texts[i].as_str()));
                    proof {
                        assert(views_of(items@) =~= done.push(JsonView::Text(texts@[i as int]@)));
                        assert(texts@.take(i + 1) =~= texts@.take(i as int).push(texts@[i as int]));
                        assert(text_docs(texts@.take(i + 1)) =~= text_docs(
                            texts@.take(i as int),
                        ).push(JsonView::Text(texts@[i as int]@)));
                    }
                    i = i + 1;
                }
                proof {
                    assert(texts@.take(i as int) == texts@);
                }
                Json::array(items)
            },
        }
    }
}

/// Whether no two members have the same name.
pub open spec fn distinct_names(members: Seq<(Seq<char>, JsonView)>) -> bool {
    forall|i: int, j: int| 0 <= i < j < members.len() ==> members[i].0 != members[j].0
}

/// A bias for each of some token identifiers. No identifier occurs twice.
#[derive(Debug)]
pub struct LogitBias {
    entries: Vec<(String, Json)>,
}

impl View for LogitBias {
    type V = Seq<(Seq<char>, JsonView)>;

    closed spec fn view(&self) -> Self::V {
        member_views(self.entries@)
    }
}

impl LogitBias {
    #[verifier::type_invariant]
    spec fn well_formed(&self) -> bool {
        distinct_names(member_views(self.entries@))
    }

    pub fn new() -> (bias: Self)
        ensures
            bias@.len() == 0,
    {
        LogitBias { entries: Vec::new() }
    }

    pub fn len(&self) -> (n: usize)
        ensures
            n == self@.len(),
    {
        self.entries.len()
    }

    /// Sets the bias of `token`: in place where the token has one, at the end
    /// where it has none.
    pub fn insert(&mut self, token: &str, bias: Json)
        ensures
            distinct_names(final(self)@),
            forall|k: int|
                0 <= k < old(self)@.len() && old(self)@[k].0 == token@ ==> final(self)@
                    == old(self)@.update(k, (token@, bias@)),
            (forall|k: int| 0 <= k < old(self)@.len() ==> old(self)@[k].0 != token@)
                ==> final(self)@ == old(self)@.push((token@, bias@)),
    {
        proof {
            use_type_invariant(&*self);
        }
        let mut entries: Vec<(String, Json)> = Vec::new();
        std::mem::swap(&mut self.entries, &mut entries);
        let ghost before = member_views(entries@);
        let mut i: usize = 0;
        while i < entries.len()
            invariant
                i <= entries.len(),
                before == member_views(entries@),
                before == old(self)@,
                distinct_names(before),
                forall|k: int| 0 <= k < i ==> before[k].0 != token@,
            decreases entries.len() - i,
        {
            if same_text(entries[i].0.as_str(), token) {
                entries.set(i, (String::from_str(token), bias));
                proof {
                    let after = before.update(i as int, (token@, bias@));
                    assert(member_views(entries@) =~= after);
                    assert(before[i as int].0 == token@);
                    assert forall|a: int, b: int| 0 <= a < b < after.len() implies after[a].0
                        != after[b].0 by {
                        assert(after[a].0 == before[a].0);
                        assert(after[b].0 == before[b].0);
                    }
                    assert forall|k: int|
                        0 <= k < before.len() && before[k].0 == token@ implies k == i by {
                        if k < i {
                            assert(before[k].0 != before[i as int].0);
                        } else if i < k {
                            assert(before[i as int].0 != before[k].0);
                        }
                    }
                }
                self.entries = entries;
                return ;
            }
            i = i + 1;
        }
        entries.push((String::from_str(token), bias));
        proof {
            let after = before.push((token@, bias@));
            assert(member_views(entries@) =~= after);
            assert forall|a: int, b: int| 0 <= a < b < after.len() implies after[a].0
                != after[b].0 by {
                if b < before.len() {
                    assert(after[a].0 == before[a].0);
                    assert(after[b].0 == before[b].0);
                }
            }
        }
        self.entries = entries;
    }

    /// A copy of the biases.
    pub fn duplicate(&self) -> (copy: Self)
        ensures
            copy@ == self@,
    {
        proof {
            use_type_invariant(self);
        }
        let mut entries: Vec<(String, Json)> = Vec::new();
        let mut i: usize = 0;
        while i < self.entries.len()
            invariant
                i <= self.entries.len(),
                member_views(entries@) == member_views(self.entries@).take(i as int),
            decreases self.entries.len() - i,
        {
            let ghost done = member_views(entries@);
            entries.push((self.entries[i].0.clone(), self.entries[i].1.duplicate()));
            proof {
                assert(member_views(entries@) =~= done.push(member_views(self.entries@)[i as int]));
                assert(member_views(self.entries@).take(i + 1) =~= member_views(
                    self.entries@,
                ).take(i as int).push(member_views(self.entries@)[i as int]));
            }
            i = i + 1;
        }
        proof {
            assert(member_views(self.entries@).take(i as int) == member_views(self.entries@));
        }
        LogitBias { entries }
    }
}

impl ToJson for LogitBias {
    open spec fn json(&self) -> JsonView {
        JsonView::Object(self@)
    }

    fn to_json(&self) -> (doc: Json) {
        match self.duplicate() {
            LogitBias { entries } => Json::object(entries),
        }
    }
}

/// A request for a chat completion. `model` and `messages` are required;
/// every other field is sent only where it is set.
#[derive(Debug)]
pub struct CreateChatRequest {
    pub model: String,
    pub messages: Vec<ChatCompletionMessage>,
    pub temperature: Option<Single>,
    pub top_p: Option<Single>,
    pub n: Option<u8>,
    pub stream: Option<bool>,
    pub stop: Option<Stop>,
    pub max_tokens: Option<u32>,
    pub presence_penalty: Option<Single>,
    pub frequency_penalty: Option<Single>,
    pub logit_bias: Option<LogitBias>,
    pub user: Option<String>,
}

/// The documents of a sequence of messages.
pub open spec fn message_docs(messages: Seq<ChatCompletionMessage>) -> Seq<JsonView> {
    Seq::new(messages.len(), |i: int| messages[i].json())
}

/// An optional sampling parameter as an optional JSON number.
pub open spec fn single_json(number: Option<Single>) -> Option<JsonView> {
    match number {
        Some(number) => Some(JsonView::Single(number.bits)),
        None => None,
    }
}

/// An optional count as an optional JSON number.
pub open spec fn count_json(count: Option<u64>) -> Option<JsonView> {
    match count {
        Some(count) => Some(JsonView::Unsigned(count)),
        None => None,
    }
}

/// An optional flag as an optional JSON boolean.
pub open spec fn flag_json(flag: Option<bool>) -> Option<JsonView> {
    match flag {
        Some(flag) => Some(JsonView::Bool(flag)),
        None => None,
    }
}

/// An optional value as an optional document.
pub open spec fn value_json<T: ToJson>(value: Option<T>) -> Option<JsonView> {
    match value {
        Some(value) => Some(value.json()),
        None => None,
    }
}

/// A `u8` count widened, where there is one.
pub open spec fn wide_u8(count: Option<u8>) -> Option<u64> {
    match count {
        Some(count) => Some(count as u64),
        None => None,
    }
}

/// A `u32` count widened, where there is one.
pub open spec fn wide_u32(count: Option<u32>) -> Option<u64> {
    match count {
        Some(count) => Some(count as u64),
        None => None,
    }
}

fn single_doc(number: &Option<Single>) -> (doc: Option<Json>)
    ensures
        optional_view(doc) == single_json(*number),
{
    match number {
        Some(number) => Some(Json::Single(number.bits)),
        None => None,
    }
}

fn value_doc<T: ToJson>(value: &Option<T>) -> (doc: Option<Json>)
    ensures
        optional_view(doc) == value_json(*value),
{
    match value {
        Some(value) => Some(value.to_json()),
        None => None,
    }
}

impl CreateChatRequest {
    /// Whether the request has what every request needs: a model that is not
    /// the empty text, and at least one message.
    pub open spec fn well_formed(&self) -> bool {
        self.model@.len() > 0 && self.messages@.len() > 0
    }

    /// The members of the request's JSON object, in order: the two required
    /// fields, then each optional field that is set.
    pub open spec fn members(&self) -> Seq<(Seq<char>, JsonView)> {
        seq![
            ("model"@, JsonView::Text(self.model@)),
            ("messages"@, JsonView::Array(message_docs(self.messages@))),
        ] + optional_entry("temperature"@, single_json(self.temperature)) + optional_entry(
            "top_p"@,
            single_json(self.top_p),
        ) + optional_entry("n"@, count_json(wide_u8(self.n))) + optional_entry(
            "stream"@,
            flag_json(self.stream),
        ) + optional_entry("stop"@, value_json(self.stop)) + optional_entry(
            "max_tokens"@,
            count_json(wide_u32(self.max_tokens)),
        ) + optional_entry("presence_penalty"@, single_json(self.presence_penalty))
            + optional_entry("frequency_penalty"@, single_json(self.frequency_penalty))
            + optional_entry("logit_bias"@, value_json(self.logit_bias)) + optional_entry(
            "user"@,
            text_json(self.user),
        )
    }
}

impl ToJson for CreateChatRequest {
    open spec fn json(&self) -> JsonView {
        JsonView::Object(self.members())
    }

    fn to_json(&self) -> (doc: Json) {
        let mut docs: Vec<Json> = Vec::new();
        let mut i: usize = 0;
        while i < self.messages.len()
            invariant
                i <= self.messages.len(),
                views_of(docs@) == message_docs(self.messages@.take(i as int)),
            decreases self.messages.len() - i,
        {
            let ghost done = views_of(docs@);
            docs.push(self.messages[i].to_json());
            proof {
                let message = self.messages@[i as int];
                assert(views_of(docs@) =~= done.push(message.json()));
                assert(self.messages@.take(i + 1) =~= self.messages@.take(i as int).push(message));
                assert(message_docs(self.messages@.take(i + 1)) =~= message_docs(
                    self.messages@.take(i as int),
                ).push(message.json()));
            }
            i = i + 1;
        }
        proof {
            assert(self.messages@.take(i as int) == self.messages@);
        }
        let mut members: Vec<(String, Json)> = Vec::new();
        Json::push_member(&mut members, "model", Json::text(self.model.as_str()));
        Json::push_member(&mut members, "messages", Json::array(docs));
        proof {
            assert(member_views(members@) =~= seq![
                ("model"@, JsonView::Text(self.model@)),
                ("messages"@, JsonView::Array(message_docs(self.messages@))),
            ]);
        }
        Json::push_optional(&mut members, "temperature", single_doc(&self.temperature));
        Json::push_optional(&mut members, "top_p", single_doc(&self.top_p));
        let n = match self.n {
            Some(n) => Some(Json::Unsigned(n as u64)),
            None => None,
        };
        Json::push_optional(&mut members, "n", n);
        let stream = match self.stream {
            Some(stream) => Some(Json::Bool(stream)),
            None => None,
        };
        Json::push_optional(&mut members, "stream", stream);
        Json::push_optional(&mut members, "stop", value_doc(&self.stop));
        let max_tokens = match self.max_tokens {
            Some(max_tokens) => Some(Json::Unsigned(max_tokens as u64)),
            None => None,
        };
        Json::push_optional(&mut members, "max_tokens", max_tokens);
        Json::push_optional(&mut members, "presence_penalty", single_doc(&self.presence_penalty));
        Json::push_optional(&mut members, "frequency_penalty", single_doc(&self.frequency_penalty));
        Json::push_optional(&mut members, "logit_bias", value_doc(&self.logit_bias));
        let user = match &self.user {
            Some(user) => Some(Json::text(user.as_str())),
            None => None,
        };
        Json::push_optional(&mut members, "user", user);
        Json::object(members)
    }
}

/// Accumulates the fields of a [`CreateChatRequest`].
#[derive(Debug)]
pub struct CreateChatRequestBuilder {
    pub model: Option<String>,
    pub messages: Option<Vec<ChatCompletionMessage>>,
    pub temperature: Option<Single>,
    pub top_p: Option<Single>,
    pub n: Option<u8>,
    pub stream: Option<bool>,
    pub stop: Option<Stop>,
    pub max_tokens: Option<u32>,
    pub presence_penalty: Option<Single>,
    pub frequency_penalty: Option<Single>,
    pub logit_bias: Option<LogitBias>,
    pub user: Option<String>,
}

impl Default for CreateChatRequestBuilder {
    fn default() -> (builder: Self)
        ensures
            builder.model is None,
            builder.messages is None,
            builder.temperature is None,
            builder.top_p is None,
            builder.n is None,
            builder.stream is None,
            builder.stop is None,
            builder.max_tokens is None,
            builder.presence_penalty is None,
            builder.frequency_penalty is None,
            builder.logit_bias is None,
            builder.user is None,
    {
        Self {
            model: None, messages: None, temperature: None, top_p: None, n: None, stream: None, stop: None, max_tokens: None, presence_penalty: None, frequency_penalty: None, logit_bias: None, user: None,
        }
    }
}

/// A copy of a sequence of messages.
pub fn copy_messages(messages: &Vec<ChatCompletionMessage>) -> (copy: Vec<ChatCompletionMessage>)
    ensures
        copy@ == messages@,
{
    let mut copy: Vec<ChatCompletionMessage> = Vec::new();
    let mut i: usize = 0;
    while i < messages.len()
        invariant
            i <= messages.len(),
            copy@ == messages@.take(i as int),
        decreases messages.len() - i,
    {
        copy.push(messages[i].duplicate());
        proof {
            assert(copy@ =~= messages@.take(i + 1));
        }
        i = i + 1;
    }
    proof {
        assert(messages@.take(i as int) == messages@);
    }
    copy
}

impl Stop {
    /// A copy of the stop condition.
    pub fn duplicate(&self) -> (copy: Self)
        ensures
            copy.json() == self.json(),
    {
        match self {
            Stop::Text(text) => Stop::Text(text.clone()),
            Stop::Sequences(texts) => {
                let mut copy: Vec<String> = Vec::new();
                let mut i: usize = 0;
                while i < texts.len()
                    invariant
                        i <= texts.len(),
                        copy@ == texts@.take(i as int),
                    decreases texts.len() - i,
                {
                    copy.push(texts[i].clone());
                    proof {
                        assert(copy@ =~= texts@.take(i + 1));
                    }
                    i = i + 1;
                }
                proof {
                    assert(texts@.take(i as int) == texts@);
                }
                Stop::Sequences(copy)
            },
        }
    }
}

impl CreateChatRequestBuilder {
    pub fn model(&mut self, value: String) -> (builder: &mut Self)
        ensures
            *builder == (Self { model: Some(value), ..*old(self) }),
            *final(self) == *final(builder),
    {
        self.model = Some(value);
        self
    }

    pub fn messages(&mut self, value: Vec<ChatCompletionMessage>) -> (builder: &mut Self)
        ensures
            *builder == (Self { messages: Some(value), ..*old(self) }),
            *final(self) == *final(builder),
    {
        self.messages = Some(value);
        self
    }

    pub fn temperature(&mut self, value: Single) -> (builder: &mut Self)
        ensures
            *builder == (Self { temperature: Some(value), ..*old(self) }),
            *final(self) == *final(builder),
    {
        self.temperature = Some(value);
        self
    }

    pub fn top_p(&mut self, value: Single) -> (builder: &mut Self)
        ensures
            *builder == (Self { top_p: Some(value), ..*old(self) }),
            *final(self) == *final(builder),
    {
        self.top_p = Some(value);
        self
    }

    pub fn n(&mut self, value: u8) -> (builder: &mut Self)
        ensures
            *builder == (Self { n: Some(value), ..*old(self) }),
            *final(self) == *final(builder),
    {
        self.n = Some(value);
        self
    }

    pub fn stream(&mut self, value: bool) -> (builder: &mut Self)
        ensures
            *builder == (Self { stream: Some(value), ..*old(self) }),
            *final(self) == *final(builder),
    {
        self.stream = Some(value);
        self
    }

    pub fn stop(&mut self, value: Stop) -> (builder: &mut Self)
        ensures
            *builder == (Self { stop: Some(value), ..*old(self) }),
            *final(self) == *final(builder),
    {
        self.stop = Some(value);
        self
    }

    pub fn max_tokens(&mut self, value: u32) -> (builder: &mut Self)
        ensures
            *builder == (Self { max_tokens: Some(value), ..*old(self) }),
            *final(self) == *final(builder),
    {
        self.max_tokens = Some(value);
        self
    }

    pub fn presence_penalty(&mut self, value: Single) -> (builder: &mut Self)
        ensures
            *builder == (Self { presence_penalty: Some(value), ..*old(self) }),
            *final(self) == *final(builder),
    {
        self.presence_penalty = Some(value);
        self
    }

    pub fn frequency_penalty(&mut self, value: Single) -> (builder: &mut Self)
        ensures
            *builder == (Self { frequency_penalty: Some(value), ..*old(self) }),
            *final(self) == *final(builder),
    {
        self.frequency_penalty = Some(value);
        self
    }

    pub fn logit_bias(&mut self, value: LogitBias) -> (builder: &mut Self)
        ensures
            *builder == (Self { logit_bias: Some(value), ..*old(self) }),
            *final(self) == *final(builder),
    {
        self.logit_bias = Some(value);
        self
    }

    pub fn user(&mut self, value: String) -> (builder: &mut Self)
        ensures
            *builder == (Self { user: Some(value), ..*old(self) }),
            *final(self) == *final(builder),
    {
        self.user = Some(value);
        self
    }

    /// Whether a model has been set, and is not the empty text.
    pub open spec fn has_model(&self) -> bool {
        self.model matches Some(model) && model@.len() > 0
    }

    /// Whether messages have been set, at least one of them.
    pub open spec fn has_messages(&self) -> bool {
        self.messages matches Some(messages) && messages@.len() > 0
    }

    /// Why `build` refuses the builder, if it does: the model is required and
    /// must not be empty, and so are the messages. The model is looked at
    /// first.
    pub open spec fn refusal(&self) -> Option<Seq<char>> {
        if !self.has_model() {
            Some("model must not be empty"@)
        } else if !self.has_messages() {
            Some("messages must not be empty"@)
        } else {
            None
        }
    }

    /// A builder is refused exactly where the model or the messages are
    /// missing or empty: with both in place, whatever else is set or unset,
    /// it is finished.
    pub proof fn lemma_refused_exactly_when_incomplete(&self)
        ensures
            self.refusal() is None <==> self.has_model() && self.has_messages(),
    {
    }

    /// Whether `request` holds what the builder has accumulated: the required
    /// fields as set, every optional field set or unset as in the builder.
    pub open spec fn builds(&self, request: CreateChatRequest) -> bool {
        &&& self.model matches Some(model) && request.model@ == model@
        &&& self.messages matches Some(messages) && request.messages@ == messages@
        &&& request.temperature == self.temperature
        &&& request.top_p == self.top_p
        &&& request.n == self.n
        &&& request.stream == self.stream
        &&& value_json(request.stop) == value_json(self.stop)
        &&& request.max_tokens == self.max_tokens
        &&& request.presence_penalty == self.presence_penalty
        &&& request.frequency_penalty == self.frequency_penalty
        &&& value_json(request.logit_bias) == value_json(self.logit_bias)
        &&& request.user == self.user
    }

    /// Finishes the request, or refuses it with an invalid-argument error
    /// that says what is missing.
    pub fn build(&self) -> (r: Result<CreateChatRequest, OpenAIError>)
        ensures
            r is Ok <==> self.has_model() && self.has_messages(),
            match self.refusal() {
                Some(reason) => r matches Err(OpenAIError::InvalidArgument(text)) && text@
                    == reason,
                None => r matches Ok(request) && self.builds(request) && request.well_formed(),
            },
    {
        let model = match &self.model {
            Some(model) => model.clone(),
            None => String::new(),
        };
        if model.as_str().is_empty() {
            return Err(OpenAIError::InvalidArgument(String::from_str("model must not be empty")));
        }
        let messages = match &self.messages {
            Some(messages) => copy_messages(messages),
            None => Vec::new(),
        };
        if messages.len() == 0 {
            return Err(
                OpenAIError::InvalidArgument(String::from_str("messages must not be empty")),
            );
        }
        let stop = match &self.stop {
            Some(stop) => Some(stop.duplicate()),
            None => None,
        };
        let logit_bias = match &self.logit_bias {
            Some(logit_bias) => Some(logit_bias.duplicate()),
            None => None,
        };
        Ok(
            CreateChatRequest {
                model,
                messages,
                temperature: self.temperature,
                top_p: self.top_p,
                n: self.n,
                stream: self.stream,
                stop,
                max_tokens: self.max_tokens,
                presence_penalty: self.presence_penalty,
                frequency_penalty: self.frequency_penalty,
                logit_bias,
                user: copy_text(&self.user),
            },
        )
    }
}

/// A role and a text, both as plain strings.
#[derive(Debug, Clone)]
pub struct Message {
    pub role: String,
    pub content: String,
}

/// Token counts of one completion.
#[derive(Debug, Clone, Copy, PartialEq, Eq, Structural)]
pub struct ChatUsage {
    pub prompt_tokens: u32,
    pub completion_tokens: u32,
    pub total_tokens: u32,
}

/// One candidate of a completion.
#[derive(Debug, Clone)]
pub struct ChatChoice {
    pub message: ChatCompletionMessage,
    pub finish_reason: String,
    pub index: u32,
}

/// The body of a successful completion.
#[derive(Debug, Clone)]
pub struct ChatResponse {
    pub id: String,
    pub object: String,
    pub created: u32,
    pub choices: Vec<ChatChoice>,
    pub usage: ChatUsage,
}

impl FromJson for ChatUsage {
    open spec fn accepts(doc: JsonView) -> bool {
        &&& doc.u32_member("prompt_tokens"@) is Some
        &&& doc.u32_member("completion_tokens"@) is Some
        &&& doc.u32_member("total_tokens"@) is Some
    }

    open spec fn agrees_with(&self, doc: JsonView) -> bool {
        &&& doc.u32_member("prompt_tokens"@) == Some(self.prompt_tokens)
        &&& doc.u32_member("completion_tokens"@) == Some(self.completion_tokens)
        &&& doc.u32_member("total_tokens"@) == Some(self.total_tokens)
    }

    fn from_json(doc: &Json) -> (r: Option<Self>) {
        let prompt_tokens = match doc.u32_member("prompt_tokens") {
            Some(count) => count,
            None => {
                return None;
            },
        };
        let completion_tokens = match doc.u32_member("completion_tokens") {
            Some(count) => count,
            None => {
                return None;
            },
        };
        match doc.u32_member("total_tokens") {
            Some(total_tokens) => Some(
                ChatUsage { prompt_tokens, completion_tokens, total_tokens },
            ),
            None => None,
        }
    }
}

impl FromJson for ChatChoice {
    open spec fn accepts(doc: JsonView) -> bool {
        &&& doc.member("message"@) matches Some(message) && ChatCompletionMessage::accepts(
            message,
        )
        &&& doc.text_member("finish_reason"@) is Some
        &&& doc.u32_member("index"@) is Some
    }

    open spec fn agrees_with(&self, doc: JsonView) -> bool {
        &&& doc.member("message"@) matches Some(message) && self.message.agrees_with(message)
        &&& doc.text_member("finish_reason"@) == Some(self.finish_reason@)
        &&& doc.u32_member("index"@) == Some(self.index)
    }

    fn from_json(doc: &Json) -> (r: Option<Self>) {
        let message = match doc.get("message") {
            Some(message) => match ChatCompletionMessage::from_json(message) {
                Some(message) => message,
                None => {
                    return None;
                },
            },
            None => {
                return None;
            },
        };
        let finish_reason = match doc.text_member("finish_reason") {
            Some(finish_reason) => finish_reason,
            None => {
                return None;
            },
        };
        match doc.u32_member("index") {
            Some(index) => Some(ChatChoice { message, finish_reason, index }),
            None => None,
        }
    }
}

/// Whether every document of a sequence has the shape of a choice.
pub open spec fn all_choices(docs: Seq<JsonView>) -> bool {
    forall|i: int| 0 <= i < docs.len() ==> ChatChoice::accepts(#[trigger] docs[i])
}

/// Whether the choices hold, one by one and in order, what the documents say.
pub open spec fn choices_agree(choices: Seq<ChatChoice>, docs: Seq<JsonView>) -> bool {
    &&& choices.len() == docs.len()
    &&& forall|i: int| 0 <= i < docs.len() ==> (#[trigger] choices[i]).agrees_with(docs[i])
}

/// Reads the choices of a response from the items of an array: `Some`
/// exactly where every item has the shape of a choice.
pub fn read_choices(items: &Vec<Json>) -> (r: Option<Vec<ChatChoice>>)
    ensures
        r is Some <==> all_choices(views_of(items@)),
        r matches Some(choices) ==> choices_agree(choices@, views_of(items@)),
{
    let mut choices: Vec<ChatChoice> = Vec::new();
    let mut i: usize = 0;
    while i < items.len()
        invariant
            i <= items.len(),
            choices@.len() == i,
            forall|j: int| 0 <= j < i ==> ChatChoice::accepts(#[trigger] views_of(items@)[j]),
            forall|j: int|
                0 <= j < i ==> (#[trigger] choices@[j]).agrees_with(views_of(items@)[j]),
        decreases items.len() - i,
    {
        match ChatChoice::from_json(&items[i]) {
            Some(choice) => {
                choices.push(choice);
            },
            None => {
                proof {
                    assert(!ChatChoice::accepts(views_of(items@)[i as int]));
                }
                return None;
            },
        }
        i = i + 1;
    }
    Some(choices)
}

impl FromJson for ChatResponse {
    open spec fn accepts(doc: JsonView) -> bool {
        &&& doc.text_member("id"@) is Some
        &&& doc.text_member("object"@) is Some
        &&& doc.u32_member("created"@) is Some
        &&& doc.member("choices"@) matches Some(JsonView::Array(docs)) && all_choices(docs)
        &&& doc.member("usage"@) matches Some(usage) && ChatUsage::accepts(usage)
    }

    open spec fn agrees_with(&self, doc: JsonView) -> bool {
        &&& doc.text_member("id"@) == Some(self.id@)
        &&& doc.text_member("object"@) == Some(self.object@)
        &&& doc.u32_member("created"@) == Some(self.created)
        &&& doc.member("choices"@) matches Some(JsonView::Array(docs)) && choices_agree(
            self.choices@,
            docs,
        )
        &&& doc.member("usage"@) matches Some(usage) && self.usage.agrees_with(usage)
    }

    fn from_json(doc: &Json) -> (r: Option<Self>) {
        let id = match doc.text_member("id") {
            Some(id) => id,
            None => {
                return None;
            },
        };
        let object = match doc.text_member("object") {
            Some(object) => object,
            None => {
                return None;
            },
        };
        let created = match doc.u32_member("created") {
            Some(created) => created,
            None => {
                return None;
            },
        };
        let choices = match doc.get("choices") {
            Some(choices) => match choices.as_array() {
                Some(items) => match read_choices(items) {
                    Some(choices) => choices,
                    None => {
                        return None;
                    },
                },
                None => {
                    return None;
                },
            },
            None => {
                return None;
            },
        };
        match doc.get("usage") {
            Some(usage) => match ChatUsage::from_json(usage) {
                Some(usage) => Some(ChatResponse { id, object, created, choices, usage }),
                None => None,
            },
            None => None,
        }
    }
}

/// The document of the request that a rendered prompt is sent with: the
/// model, and one message of the user that holds the prompt.
pub open spec fn prompt_request(model: Seq<char>, prompt: Seq<char>) -> JsonView {
    JsonView::Object(
        seq![
            ("model"@, JsonView::Text(model)),
            (
                "messages"@,
                JsonView::Array(
                    seq![
                        JsonView::Object(
                            seq![
                                ("role"@, JsonView::Text("user"@)),
                                ("content"@, JsonView::Text(prompt)),
                            ],
                        ),
                    ],
                ),
            ),
        ],
    )
}

/// Chat completions on one backend.
#[derive(Debug)]
pub struct Chat {
    client: ClientEnum,
}

impl Chat {
    /// The backend that requests are made for.
    pub closed spec fn backend(&self) -> ClientEnum {
        self.client
    }

    /// Whether `request` posts the document `body` to the completions route
    /// of this backend.
    pub open spec fn posts(&self, request: HttpRequest, body: JsonView) -> bool {
        &&& request.addressed(
            Method::Post,
            self.backend().base() + self.backend().routed("/chat/completions"@),
            self.backend().header_list(),
            self.backend().key(),
        )
        &&& request.has_body(body)
    }

    pub fn new(client: ClientEnum) -> (chat: Self)
        ensures
            chat.backend() == client,
    {
        Self { client }
    }

    /// The request that asks for the completion of `req`.
    pub fn create(&self, req: &CreateChatRequest) -> (request: HttpRequest)
        ensures
            self.posts(request, req.json()),
    {
        self.client.post("/chat/completions", req)
    }

    /// Renders the template, and asks for the completion of the prompt as one
    /// message of the user. Without a model nothing is built.
    pub fn create_with_template(
        &self,
        template: PromptTemplate,
        objects: StringHashMap<String>,
        model: &str,
    ) -> (r: Result<HttpRequest, OpenAIError>)
        ensures
            if model@.len() == 0 {
                r matches Err(OpenAIError::InvalidArgument(text)) && text@
                    == "Failed to build CreateChatRequest"@
            } else {
                r matches Ok(request) && self.posts(
                    request,
                    prompt_request(model@, template.prompt_text(objects@)),
                )
            },
    {
        let ghost prompt_text = template.prompt_text(objects@);
        let prompt = template.generate_prompt(objects);
        let message = ChatCompletionMessage { role: Role::User, content: prompt, name: None };
        let mut builder = CreateChatRequestBuilder::default();
        builder.model(String::from_str(model)).messages(vec![message]);
        match builder.build() {
            Ok(req) => {
                proof {
                    assert(req.messages@.len() == 1);
                    assert(req.messages@[0] == message);
                    assert(message.json()->Object_0 =~= seq![
                        ("role"@, JsonView::Text("user"@)),
                        ("content"@, JsonView::Text(prompt_text)),
                    ]);
                    assert(message_docs(req.messages@) =~= seq![message.json()]);
                    assert(req.members() =~= prompt_request(model@, prompt_text)->Object_0);
                }
                Ok(self.create(&req))
            },
            Err(_) => Err(
                OpenAIError::InvalidArgument(String::from_str("Failed to build CreateChatRequest")),
            ),
        }
    }
}

/// The names of the request's fields on the wire, by length and first
/// character: no two of them are the same.
pub proof fn lemma_field_names()
    ensures
        "model"@.len() == 5,
        "model"@[0] == 'm',
        "messages"@.len() == 8,
        "messages"@[0] == 'm',
        "temperature"@.len() == 11,
        "temperature"@[0] == 't',
        "top_p"@.len() == 5,
        "top_p"@[0] == 't',
        "n"@.len() == 1,
        "n"@[0] == 'n',
        "stream"@.len() == 6,
        "stream"@[0] == 's',
        "stop"@.len() == 4,
        "stop"@[0] == 's',
        "max_tokens"@.len() == 10,
        "max_tokens"@[0] == 'm',
        "presence_penalty"@.len() == 16,
        "presence_penalty"@[0] == 'p',
        "frequency_penalty"@.len() == 17,
        "frequency_penalty"@[0] == 'f',
        "logit_bias"@.len() == 10,
        "logit_bias"@[0] == 'l',
        "user"@.len() == 4,
        "user"@[0] == 'u',
{
    reveal_strlit("model");
    reveal_strlit("messages");
    reveal_strlit("temperature");
    reveal_strlit("top_p");
    reveal_strlit("n");
    reveal_strlit("stream");
    reveal_strlit("stop");
    reveal_strlit("max_tokens");
    reveal_strlit("presence_penalty");
    reveal_strlit("frequency_penalty");
    reveal_strlit("logit_bias");
    reveal_strlit("user");
}

impl CreateChatRequest {
    /// The value that the request's object holds under `key`: each field
    /// under its own name, and nothing under any other name.
    pub open spec fn field_named(&self, key: Seq<char>) -> Option<JsonView> {
        if key == "model"@ {
            Some(JsonView::Text(self.model@))
        } else if key == "messages"@ {
            Some(JsonView::Array(message_docs(self.messages@)))
        } else if key == "temperature"@ {
            single_json(self.temperature)
        } else if key == "top_p"@ {
            single_json(self.top_p)
        } else if key == "n"@ {
            count_json(wide_u8(self.n))
        } else if key == "stream"@ {
            flag_json(self.stream)
        } else if key == "stop"@ {
            value_json(self.stop)
        } else if key == "max_tokens"@ {
            count_json(wide_u32(self.max_tokens))
        } else if key == "presence_penalty"@ {
            single_json(self.presence_penalty)
        } else if key == "frequency_penalty"@ {
            single_json(self.frequency_penalty)
        } else if key == "logit_bias"@ {
            value_json(self.logit_bias)
        } else if key == "user"@ {
            text_json(self.user)
        } else {
            None
        }
    }

    /// A lookup in the request's object finds exactly the request's fields:
    /// for every name, the member under it is the field of that name, set, or
    /// there is no such member.
    pub proof fn lemma_member_is_field(&self, key: Seq<char>)
        ensures
            self.json().member(key) == self.field_named(key),
    {
        lemma_field_names();
        let required = seq![
            ("model"@, JsonView::Text(self.model@)),
            ("messages"@, JsonView::Array(message_docs(self.messages@))),
        ];
        assert(required.drop_first() =~= seq![
            ("messages"@, JsonView::Array(message_docs(self.messages@))),
        ]);
        assert(required.drop_first().drop_first() =~= Seq::<(Seq<char>, JsonView)>::empty());
        assert(find_member(required, key) == if key == "model"@ {
            Some(JsonView::Text(self.model@))
        } else if key == "messages"@ {
            Some(JsonView::Array(message_docs(self.messages@)))
        } else {
            None
        }) by {
            reveal_with_fuel(find_member, 3);
        }
        let run = required;
        let entry = optional_entry("temperature"@, single_json(self.temperature));
        lemma_find_member_concat(run, entry, key);
        lemma_find_optional_entry("temperature"@, single_json(self.temperature), key);
        let run = run + entry;
        let entry = optional_entry("top_p"@, single_json(self.top_p));
        lemma_find_member_concat(run, entry, key);
        lemma_find_optional_entry("top_p"@, single_json(self.top_p), key);
        let run = run + entry;
        let entry = optional_entry("n"@, count_json(wide_u8(self.n)));
        lemma_find_member_concat(run, entry, key);
        lemma_find_optional_entry("n"@, count_json(wide_u8(self.n)), key);
        let run = run + entry;
        let entry = optional_entry("stream"@, flag_json(self.stream));
        lemma_find_member_concat(run, entry, key);
        lemma_find_optional_entry("stream"@, flag_json(self.stream), key);
        let run = run + entry;
        let entry = optional_entry("stop"@, value_json(self.stop));
        lemma_find_member_concat(run, entry, key);
        lemma_find_optional_entry("stop"@, value_json(self.stop), key);
        let run = run + entry;
        let entry = optional_entry("max_tokens"@, count_json(wide_u32(self.max_tokens)));
        lemma_find_member_concat(run, entry, key);
        lemma_find_optional_entry("max_tokens"@, count_json(wide_u32(self.max_tokens)), key);
        let run = run + entry;
        let entry = optional_entry("presence_penalty"@, single_json(self.presence_penalty));
        lemma_find_member_concat(run, entry, key);
        lemma_find_optional_entry("presence_penalty"@, single_json(self.presence_penalty), key);
        let run = run + entry;
        let entry = optional_entry("frequency_penalty"@, single_json(self.frequency_penalty));
        lemma_find_member_concat(run, entry, key);
        lemma_find_optional_entry("frequency_penalty"@, single_json(self.frequency_penalty), key);
        let run = run + entry;
        let entry = optional_entry("logit_bias"@, value_json(self.logit_bias));
        lemma_find_member_concat(run, entry, key);
        lemma_find_optional_entry("logit_bias"@, value_json(self.logit_bias), key);
        let run = run + entry;
        let entry = optional_entry("user"@, text_json(self.user));
        lemma_find_member_concat(run, entry, key);
        lemma_find_optional_entry("user"@, text_json(self.user), key);
        let run = run + entry;
        assert(run == self.members());
    }

    /// A field that is left unset has no member in the request's object, and
    /// a field that is set has one that holds its value: what is unset is
    /// omitted, never sent as `null`.
    pub proof fn lemma_unset_fields_are_omitted(&self)
        ensures
            self.json().member("model"@) == Some(JsonView::Text(self.model@)),
            self.json().member("messages"@) == Some(
                JsonView::Array(message_docs(self.messages@)),
            ),
            self.json().member("temperature"@) == single_json(self.temperature),
            self.json().member("top_p"@) == single_json(self.top_p),
            self.json().member("n"@) == count_json(wide_u8(self.n)),
            self.json().member("stream"@) == flag_json(self.stream),
            self.json().member("stop"@) == value_json(self.stop),
            self.json().member("max_tokens"@) == count_json(wide_u32(self.max_tokens)),
            self.json().member("presence_penalty"@) == single_json(self.presence_penalty),
            self.json().member("frequency_penalty"@) == single_json(self.frequency_penalty),
            self.json().member("logit_bias"@) == value_json(self.logit_bias),
            self.json().member("user"@) == text_json(self.user),
            forall|key: Seq<char>| self.json().member(key) != Some(JsonView::Null),
    {
        lemma_field_names();
        self.lemma_member_is_field("model"@);
        self.lemma_member_is_field("messages"@);
        self.lemma_member_is_field("temperature"@);
        self.lemma_member_is_field("top_p"@);
        self.lemma_member_is_field("n"@);
        self.lemma_member_is_field("stream"@);
        self.lemma_member_is_field("stop"@);
        self.lemma_member_is_field("max_tokens"@);
        self.lemma_member_is_field("presence_penalty"@);
        self.lemma_member_is_field("frequency_penalty"@);
        self.lemma_member_is_field("logit_bias"@);
        self.lemma_member_is_field("user"@);
        assert forall|key: Seq<char>| self.json().member(key) != Some(JsonView::Null) by {
            self.lemma_member_is_field(key);
        }
    }
}

} // verus!
