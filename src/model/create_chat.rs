//! Chat: the request with its messages and function declarations, its
//! payload, and the response.
use vstd::prelude::*;
use crate::decode::{
    count_member, count_of, decodable_at, decodes_at, list_decodable, list_decodes, list_member,
    optional_decodable, optional_decodes, optional_member, optional_text_member,
    optional_text_of, text_member, text_of, value_member, view_of_text, Decode,
};
use crate::error::{Error, unexpected};
use crate::json::{
    array_text, entries_to_text, entry_texts, json_accepts, json_quoted, json_tree, member, members_view,
    object_text, quote, render_array, render_object, same_text, texts, Json,
};
use crate::model::function::{function_members, Function};
use crate::model::object::Object;
use crate::payload::{
    count_option, count_text, flag_option, flag_text, has_key, optional_member as optional_entry,
    push_member, push_optional, quote_option, quoted_text, signed_option, signed_text, Members,
};
use crate::temperature::{temperature_option, temperature_text, Temperature};

verus! {

/// A chat request: the conversation so far and the parameters for the next
/// reply. An unset optional parameter is left out of the payload.
#[derive(Debug)]
pub struct Request<'a> {
    pub model: &'a Model,
    pub messages: Vec<Message>,
    pub functions: Option<Vec<Function>>,
    pub max_tokens: Option<usize>,
    pub temperature: Option<Temperature>,
    pub top_p: Option<usize>,
    pub n: Option<usize>,
    pub stream: Option<bool>,
    pub stop: Option<String>,
    pub presence_penalty: Option<isize>,
    pub frequency_penalty: Option<isize>,
    pub logit_bias: Option<String>,
    pub user: Option<String>,
}

/// A call of a declared function. The wire carries the arguments as a
/// JSON-encoded string; here they are the decoded object's members, and an
/// empty object is no arguments at all.
#[derive(Debug)]
pub struct FunctionCall {
    pub name: String,
    pub arguments: Option<Vec<(String, Json)>>,
}

/// The JSON text of a call's arguments object.
pub open spec fn arguments_text(a: Option<Vec<(String, Json)>>) -> Seq<char> {
    match a {
        Some(v) => object_text(entry_texts(v@)),
        None => seq!['{', '}'],
    }
}

impl FunctionCall {
    /// The members of the call: the arguments go as a JSON string.
    pub open spec fn members(self) -> Members {
        seq![("name"@, json_quoted(self.name@))]
            + seq![("arguments"@, json_quoted(arguments_text(self.arguments)))]
    }

    /// The JSON text of the call.
    pub fn to_json(&self) -> (r: String)
        ensures
            r@ == object_text(self.members()),
    {
        let mut m: Vec<(String, String)> = Vec::new();
        push_member(&mut m, "name", quote(self.name.as_str()));
        assert(members_view(m@) =~= seq![("name"@, json_quoted(self.name@))]);
        let arguments = match &self.arguments {
            Some(v) => entries_to_text(v),
            None => {
                proof { reveal_strlit("{}"); }
                let t = "{}".to_owned();
                assert(t@ =~= seq!['{', '}']);
                t
            },
        };
        push_member(&mut m, "arguments", quote(arguments.as_str()));
        render_object(&m)
    }

    /// The arguments that a decoded arguments object stands for: an empty
    /// object is no arguments; anything but an object is refused.
    pub fn arguments_from(parsed: Json) -> (r: Result<Option<Vec<(String, Json)>>, Error>)
        ensures
            match arguments_of(parsed) {
                Some(a) => r == Ok::<Option<Vec<(String, Json)>>, Error>(a),
                None => r matches Err(Error::InvalidResponse(_)),
            },
    {
        match parsed {
            Json::Object(e) => if e.len() == 0 {
                Ok(None)
            } else {
                Ok(Some(e))
            },
            _ => Err(unexpected("arguments")),
        }
    }
}

/// The arguments that a decoded arguments object stands for: `None` inside
/// for an empty object, and nothing at all for a value that is no object.
pub open spec fn arguments_of(parsed: Json) -> Option<Option<Vec<(String, Json)>>> {
    match parsed {
        Json::Object(e) => if e@.len() == 0 { Some(None) } else { Some(Some(e)) },
        _ => None,
    }
}

impl Decode for FunctionCall {
    /// A call has a name, and arguments that are absent, `null`, or a string
    /// holding the JSON text of an object.
    open spec fn decodable(j: Json) -> bool {
        &&& text_of(member(j, "name"@)) is Some
        &&& match optional_text_of(member(j, "arguments"@)) {
            Some(None) => true,
            Some(Some(t)) => json_accepts(t) && arguments_of(json_tree(t)) is Some,
            None => false,
        }
    }

    open spec fn decodes_from(self, j: Json) -> bool {
        &&& text_of(member(j, "name"@)) == Some(self.name@)
        &&& match optional_text_of(member(j, "arguments"@)) {
            Some(None) => self.arguments is None,
            Some(Some(t)) => json_accepts(t) && arguments_of(json_tree(t)) == Some(self.arguments),
            None => false,
        }
    }

    fn from_json(j: &Json) -> (r: Result<FunctionCall, Error>) {
        let name = text_member(j, "name")?;
        let arguments = match optional_text_member(j, "arguments")? {
            Some(t) => FunctionCall::arguments_from(Json::parse(t.as_str())?)?,
            None => None,
        };
        Ok(FunctionCall { name, arguments })
    }
}

/// The JSON text of an optional function call.
pub open spec fn call_text(o: Option<FunctionCall>) -> Option<Seq<char>> {
    match o {
        Some(c) => Some(object_text(c.members())),
        None => None,
    }
}

impl Message {
    /// The members of the message; unset fields are left out.
    pub open spec fn members(self) -> Members {
        seq![("role"@, json_quoted(self.role.name()))]
            + optional_entry("content"@, quoted_text(self.content))
            + optional_entry("name"@, quoted_text(self.name))
            + optional_entry("function_call"@, call_text(self.function_call))
    }

    /// The JSON text of the message.
    pub fn to_json(&self) -> (r: String)
        ensures
            r@ == object_text(self.members()),
    {
        let mut m: Vec<(String, String)> = Vec::new();
        push_member(&mut m, "role", quote(self.role.as_str()));
        assert(members_view(m@) =~= seq![("role"@, json_quoted(self.role.name()))]);
        push_optional(&mut m, "content", quote_option(&self.content));
        push_optional(&mut m, "name", quote_option(&self.name));
        let call = match &self.function_call {
            Some(c) => Some(c.to_json()),
            None => None,
        };
        push_optional(&mut m, "function_call", call);
        render_object(&m)
    }
}

/// The texts of a list of messages.
pub open spec fn message_texts(ms: Seq<Message>) -> Seq<Seq<char>> {
    Seq::new(ms.len(), |i: int| object_text(ms[i].members()))
}

/// The JSON text of an optional list of function declarations.
pub open spec fn functions_text(o: Option<Vec<Function>>) -> Option<Seq<char>> {
    match o {
        Some(v) => Some(array_text(Seq::new(v@.len(), |i: int| object_text(function_members(v@[i]))))),
        None => None,
    }
}

fn messages_to_json(ms: &Vec<Message>) -> (r: String)
    ensures
        r@ == array_text(message_texts(ms@)),
{
    let mut parts: Vec<String> = Vec::new();
    let mut i: usize = 0;
    while i < ms.len()
        invariant
            i <= ms@.len(),
            parts@.len() == i,
            forall|k: int| 0 <= k < i ==> (#[trigger] parts@[k])@ == object_text(ms@[k].members()),
        decreases ms@.len() - i,
    {
        parts.push(ms[i].to_json());
        i += 1;
    }
    assert(texts(parts@) =~= message_texts(ms@));
    render_array(&parts)
}

fn functions_to_json(o: &Option<Vec<Function>>) -> (r: Option<String>)
    ensures
        crate::payload::option_view(r) == functions_text(*o),
{
    match o {
        Some(fs) => {
            let mut parts: Vec<String> = Vec::new();
            let mut i: usize = 0;
            while i < fs.len()
                invariant
                    i <= fs@.len(),
                    parts@.len() == i,
                    forall|k: int| 0 <= k < i ==> (#[trigger] parts@[k])@ == object_text(
                        function_members(fs@[k]),
                    ),
                decreases fs@.len() - i,
            {
                parts.push(fs[i].to_json());
                i += 1;
            }
            assert(texts(parts@) =~= Seq::new(
                fs@.len(),
                |i: int| object_text(function_members(fs@[i])),
            ));
            Some(render_array(&parts))
        },
        None => None,
    }
}

impl<'a> Request<'a> {
    /// A request for the conversation `messages`, with no optional parameter set.
    pub fn new(model: &'a Model, messages: Vec<Message>) -> (r: Request<'a>)
        ensures
            r == (Request {
                model,
                messages,
                functions: None,
                max_tokens: None,
                temperature: None,
                top_p: None,
                n: None,
                stream: None,
                stop: None,
                presence_penalty: None,
                frequency_penalty: None,
                logit_bias: None,
                user: None,
            }),
    {
        Request {
            model,
            messages,
            functions: None,
            max_tokens: None,
            temperature: None,
            top_p: None,
            n: None,
            stream: None,
            stop: None,
            presence_penalty: None,
            frequency_penalty: None,
            logit_bias: None,
            user: None,
        }
    }

    /// Declares the functions that the model may call.
    pub fn functions(self, functions: Vec<Function>) -> (r: Request<'a>)
        ensures
            r == (Request { functions: Some(functions), ..self }),
    {
        let mut r = self;
        r.functions = Some(functions);
        r
    }

    /// Sets or clears the most tokens to generate.
    pub fn max_tokens(self, max_tokens: Option<usize>) -> (r: Request<'a>)
        ensures
            r == (Request { max_tokens, ..self }),
    {
        let mut r = self;
        r.max_tokens = max_tokens;
        r
    }

    /// Sets the sampling temperature when one is given. The bound check lets
    /// a value through when it is at most `2.0` or at least `0.0`; every value
    /// is one or the other, so a given value is always kept, also outside the
    /// documented range of `0.0` to `2.0`.
    pub fn temperature(self, temperature: Option<Temperature>) -> (r: Request<'a>)
        ensures
            r == (Request {
                temperature: if temperature is Some { temperature } else { self.temperature },
                ..self
            }),
    {
        let mut r = self;
        if let Some(t) = temperature {
            if t.thousandths <= 2000 || t.thousandths >= 0 {
                r.temperature = Some(t);
            }
        }
        r
    }

    /// The payload's members, in the order they are written.
    pub open spec fn members(self) -> Members {
        seq![("model"@, json_quoted(self.model.name()))]
            + seq![("messages"@, array_text(message_texts(self.messages@)))]
            + optional_entry("functions"@, functions_text(self.functions))
            + optional_entry("max_tokens"@, count_text(self.max_tokens))
            + optional_entry("temperature"@, temperature_text(self.temperature))
            + optional_entry("top_p"@, count_text(self.top_p))
            + optional_entry("n"@, count_text(self.n))
            + optional_entry("stream"@, flag_text(self.stream))
            + optional_entry("stop"@, quoted_text(self.stop))
            + optional_entry("presence_penalty"@, signed_text(self.presence_penalty))
            + optional_entry("frequency_penalty"@, signed_text(self.frequency_penalty))
            + optional_entry("logit_bias"@, quoted_text(self.logit_bias))
            + optional_entry("user"@, quoted_text(self.user))
    }

    /// The JSON payload of the request.
    pub fn to_json(&self) -> (r: String)
        ensures
            r@ == object_text(self.members()),
    {
        let mut m: Vec<(String, String)> = Vec::new();
        push_member(&mut m, "model", quote(self.model.as_str()));
        assert(members_view(m@) =~= seq![("model"@, json_quoted(self.model.name()))]);
        push_member(&mut m, "messages", messages_to_json(&self.messages));
        push_optional(&mut m, "functions", functions_to_json(&self.functions));
        push_optional(&mut m, "max_tokens", count_option(self.max_tokens));
        push_optional(&mut m, "temperature", temperature_option(self.temperature));
        push_optional(&mut m, "top_p", count_option(self.top_p));
        push_optional(&mut m, "n", count_option(self.n));
        push_optional(&mut m, "stream", flag_option(self.stream));
        push_optional(&mut m, "stop", quote_option(&self.stop));
        push_optional(&mut m, "presence_penalty", signed_option(self.presence_penalty));
        push_optional(&mut m, "frequency_penalty", signed_option(self.frequency_penalty));
        push_optional(&mut m, "logit_bias", quote_option(&self.logit_bias));
        push_optional(&mut m, "user", quote_option(&self.user));
        render_object(&m)
    }
}


/// One message of a conversation. A message that calls a function may have
/// no content.
#[derive(Debug)]
pub struct Message {
    pub role: Role,
    pub content: Option<String>,
    pub name: Option<String>,
    pub function_call: Option<FunctionCall>,
}

impl Decode for Message {
    open spec fn decodable(j: Json) -> bool {
        &&& decodable_at::<Role>(member(j, "role"@))
        &&& optional_text_of(member(j, "content"@)) is Some
        &&& optional_text_of(member(j, "name"@)) is Some
        &&& optional_decodable::<FunctionCall>(member(j, "function_call"@))
    }

    open spec fn decodes_from(self, j: Json) -> bool {
        &&& decodes_at(member(j, "role"@), self.role)
        &&& optional_text_of(member(j, "content"@)) == Some(view_of_text(self.content))
        &&& optional_text_of(member(j, "name"@)) == Some(view_of_text(self.name))
        &&& optional_decodes(member(j, "function_call"@), self.function_call)
    }

    fn from_json(j: &Json) -> (r: Result<Message, Error>) {
        let role = value_member(j, "role")?;
        let content = optional_text_member(j, "content")?;
        let name = optional_text_member(j, "name")?;
        let function_call = optional_member(j, "function_call")?;
        Ok(Message { role, content, name, function_call })
    }
}

/// A chat response.
#[derive(Debug)]
pub struct Response {
    pub id: String,
    pub object: Object,
    pub created: usize,
    pub model: Model,
    pub choices: Vec<Choice>,
    pub usage: Usage,
}

impl Decode for Response {
    open spec fn decodable(j: Json) -> bool {
        &&& text_of(member(j, "id"@)) is Some
        &&& decodable_at::<Object>(member(j, "object"@))
        &&& count_of(member(j, "created"@)) is Some
        &&& decodable_at::<Model>(member(j, "model"@))
        &&& list_decodable::<Choice>(member(j, "choices"@))
        &&& decodable_at::<Usage>(member(j, "usage"@))
    }

    open spec fn decodes_from(self, j: Json) -> bool {
        &&& text_of(member(j, "id"@)) == Some(self.id@)
        &&& decodes_at(member(j, "object"@), self.object)
        &&& count_of(member(j, "created"@)) == Some(self.created)
        &&& decodes_at(member(j, "model"@), self.model)
        &&& list_decodes(member(j, "choices"@), self.choices@)
        &&& decodes_at(member(j, "usage"@), self.usage)
    }

    fn from_json(j: &Json) -> (r: Result<Response, Error>) {
        let id = text_member(j, "id")?;
        let object = value_member(j, "object")?;
        let created = count_member(j, "created")?;
        let model = value_member(j, "model")?;
        let choices = list_member(j, "choices")?;
        let usage = value_member(j, "usage")?;
        Ok(Response { id, object, created, model, choices, usage })
    }
}

/// One reply.
#[derive(Debug)]
pub struct Choice {
    pub index: usize,
    pub message: Message,
    pub finish_reason: FinishReason,
}

impl Decode for Choice {
    open spec fn decodable(j: Json) -> bool {
        &&& count_of(member(j, "index"@)) is Some
        &&& decodable_at::<Message>(member(j, "message"@))
        &&& decodable_at::<FinishReason>(member(j, "finish_reason"@))
    }

    open spec fn decodes_from(self, j: Json) -> bool {
        &&& count_of(member(j, "index"@)) == Some(self.index)
        &&& decodes_at(member(j, "message"@), self.message)
        &&& decodes_at(member(j, "finish_reason"@), self.finish_reason)
    }

    fn from_json(j: &Json) -> (r: Result<Choice, Error>) {
        let index = count_member(j, "index")?;
        let message = value_member(j, "message")?;
        let finish_reason = value_member(j, "finish_reason")?;
        Ok(Choice { index, message, finish_reason })
    }
}

/// What follows a reply in a conversation.
#[derive(Debug)]
pub enum TurnAction {
    /// The model asks for a function call; the conversation is left as it was.
    CallRequested(Message),
    /// The reply was added to the conversation as its last message.
    Replied,
}

/// Adds the user's line to the conversation, as a user message with that
/// content and nothing else.
pub fn add_user_turn(history: &mut Vec<Message>, line: String)
    ensures
        final(history)@ == old(history)@.push(
            Message { role: Role::User, content: Some(line), name: None, function_call: None },
        ),
{
    history.push(Message { role: Role::User, content: Some(line), name: None, function_call: None });
}

/// Takes the reply to a user turn: a reply that asks for a function call is
/// handed back and leaves the conversation as it was; any other reply joins it.
pub fn take_reply(history: &mut Vec<Message>, reply: Choice) -> (r: TurnAction)
    ensures
        reply.finish_reason == FinishReason::FunctionCall ==> final(history)@ == old(history)@
            && r == TurnAction::CallRequested(reply.message),
        reply.finish_reason != FinishReason::FunctionCall ==> final(history)@ == old(
            history,
        )@.push(reply.message) && r is Replied,
{
    let Choice { index: _, message, finish_reason } = reply;
    match finish_reason {
        FinishReason::FunctionCall => TurnAction::CallRequested(message),
        _ => {
            history.push(message);
            TurnAction::Replied
        },
    }
}

/// Withdraws the user turn whose request failed, so that the conversation is
/// as it was before that turn. A conversation that does not end with a user
/// message is left alone.
pub fn abandon_turn(history: &mut Vec<Message>)
    ensures
        old(history)@.len() > 0 && old(history)@.last().role == Role::User ==> final(history)@
            == old(history)@.drop_last(),
        !(old(history)@.len() > 0 && old(history)@.last().role == Role::User) ==> final(history)@
            == old(history)@,
{
    let n = history.len();
    if n > 0 && history[n - 1].role == Role::User {
        let _ = history.pop();
    }
}

/// The parameter names of the payload are pairwise different.
proof fn lemma_parameter_names_distinct()
    ensures
        "model"@ != "messages"@,
        "model"@ != "functions"@,
        "model"@ != "max_tokens"@,
        "model"@ != "temperature"@,
        "model"@ != "top_p"@,
        "model"@ != "n"@,
        "model"@ != "stream"@,
        "model"@ != "stop"@,
        "model"@ != "presence_penalty"@,
        "model"@ != "frequency_penalty"@,
        "model"@ != "logit_bias"@,
        "model"@ != "user"@,
        "messages"@ != "functions"@,
        "messages"@ != "max_tokens"@,
        "messages"@ != "temperature"@,
        "messages"@ != "top_p"@,
        "messages"@ != "n"@,
        "messages"@ != "stream"@,
        "messages"@ != "stop"@,
        "messages"@ != "presence_penalty"@,
        "messages"@ != "frequency_penalty"@,
        "messages"@ != "logit_bias"@,
        "messages"@ != "user"@,
        "functions"@ != "max_tokens"@,
        "functions"@ != "temperature"@,
        "functions"@ != "top_p"@,
        "functions"@ != "n"@,
        "functions"@ != "stream"@,
        "functions"@ != "stop"@,
        "functions"@ != "presence_penalty"@,
        "functions"@ != "frequency_penalty"@,
        "functions"@ != "logit_bias"@,
        "functions"@ != "user"@,
        "max_tokens"@ != "temperature"@,
        "max_tokens"@ != "top_p"@,
        "max_tokens"@ != "n"@,
        "max_tokens"@ != "stream"@,
        "max_tokens"@ != "stop"@,
        "max_tokens"@ != "presence_penalty"@,
        "max_tokens"@ != "frequency_penalty"@,
        "max_tokens"@ != "logit_bias"@,
        "max_tokens"@ != "user"@,
        "temperature"@ != "top_p"@,
        "temperature"@ != "n"@,
        "temperature"@ != "stream"@,
        "temperature"@ != "stop"@,
        "temperature"@ != "presence_penalty"@,
        "temperature"@ != "frequency_penalty"@,
        "temperature"@ != "logit_bias"@,
        "temperature"@ != "user"@,
        "top_p"@ != "n"@,
        "top_p"@ != "stream"@,
        "top_p"@ != "stop"@,
        "top_p"@ != "presence_penalty"@,
        "top_p"@ != "frequency_penalty"@,
        "top_p"@ != "logit_bias"@,
        "top_p"@ != "user"@,
        "n"@ != "stream"@,
        "n"@ != "stop"@,
        "n"@ != "presence_penalty"@,
        "n"@ != "frequency_penalty"@,
        "n"@ != "logit_bias"@,
        "n"@ != "user"@,
        "stream"@ != "stop"@,
        "stream"@ != "presence_penalty"@,
        "stream"@ != "frequency_penalty"@,
        "stream"@ != "logit_bias"@,
        "stream"@ != "user"@,
        "stop"@ != "presence_penalty"@,
        "stop"@ != "frequency_penalty"@,
        "stop"@ != "logit_bias"@,
        "stop"@ != "user"@,
        "presence_penalty"@ != "frequency_penalty"@,
        "presence_penalty"@ != "logit_bias"@,
        "presence_penalty"@ != "user"@,
        "frequency_penalty"@ != "logit_bias"@,
        "frequency_penalty"@ != "user"@,
        "logit_bias"@ != "user"@,
{
    reveal_strlit("model");
    reveal_strlit("messages");
    reveal_strlit("functions");
    reveal_strlit("max_tokens");
    reveal_strlit("temperature");
    reveal_strlit("top_p");
    reveal_strlit("n");
    reveal_strlit("stream");
    reveal_strlit("stop");
    reveal_strlit("presence_penalty");
    reveal_strlit("frequency_penalty");
    reveal_strlit("logit_bias");
    reveal_strlit("user");
    assert("model"@.len() == 5);
    assert("messages"@.len() == 8);
    assert("functions"@.len() == 9);
    assert("max_tokens"@.len() == 10);
    assert("temperature"@.len() == 11);
    assert("top_p"@.len() == 5);
    assert("n"@.len() == 1);
    assert("stream"@.len() == 6);
    assert("stop"@.len() == 4);
    assert("presence_penalty"@.len() == 16);
    assert("frequency_penalty"@.len() == 17);
    assert("logit_bias"@.len() == 10);
    assert("user"@.len() == 4);
    let ghost a = "model"@;
    let ghost b = "top_p"@;
    assert(a[0] != b[0]);
    let ghost a = "max_tokens"@;
    let ghost b = "logit_bias"@;
    assert(a[0] != b[0]);
    let ghost a = "stop"@;
    let ghost b = "user"@;
    assert(a[0] != b[0]);
}

/// Each optional parameter has a member in the payload exactly when it is
/// set: an unset one leaves no key at all, not even one with `null`.
pub proof fn lemma_unset_parameters_omitted(r: Request<'_>)
    ensures
        has_key(r.members(), "model"@),
        has_key(r.members(), "messages"@),
        has_key(r.members(), "functions"@) <==> r.functions is Some,
        has_key(r.members(), "max_tokens"@) <==> r.max_tokens is Some,
        has_key(r.members(), "temperature"@) <==> r.temperature is Some,
        has_key(r.members(), "top_p"@) <==> r.top_p is Some,
        has_key(r.members(), "n"@) <==> r.n is Some,
        has_key(r.members(), "stream"@) <==> r.stream is Some,
        has_key(r.members(), "stop"@) <==> r.stop is Some,
        has_key(r.members(), "presence_penalty"@) <==> r.presence_penalty is Some,
        has_key(r.members(), "frequency_penalty"@) <==> r.frequency_penalty is Some,
        has_key(r.members(), "logit_bias"@) <==> r.logit_bias is Some,
        has_key(r.members(), "user"@) <==> r.user is Some,
{
    broadcast use crate::payload::group_has_key;

    lemma_parameter_names_distinct();
}

/// The field names of the payload are pairwise different.
proof fn lemma_message_field_names_distinct()
    ensures
        "role"@ != "content"@,
        "role"@ != "name"@,
        "role"@ != "function_call"@,
        "content"@ != "name"@,
        "content"@ != "function_call"@,
        "name"@ != "function_call"@,
{
    reveal_strlit("role");
    reveal_strlit("content");
    reveal_strlit("name");
    reveal_strlit("function_call");
    assert("role"@.len() == 4);
    assert("content"@.len() == 7);
    assert("name"@.len() == 4);
    assert("function_call"@.len() == 13);
    let ghost a = "role"@;
    let ghost b = "name"@;
    assert(a[0] != b[0]);
}

/// Each optional message field has a member in the payload exactly when it is
/// set: an unset one leaves no key at all, not even one with `null`.
pub proof fn lemma_unset_message_fields_omitted(r: Message)
    ensures
        has_key(r.members(), "role"@),
        has_key(r.members(), "content"@) <==> r.content is Some,
        has_key(r.members(), "name"@) <==> r.name is Some,
        has_key(r.members(), "function_call"@) <==> r.function_call is Some,
{
    broadcast use crate::payload::group_has_key;

    lemma_message_field_names_distinct();
}

/// Token counts of a chat completion.
#[derive(Debug)]
pub struct Usage {
    pub prompt_tokens: usize,
    pub completion_tokens: usize,
    pub total_tokens: usize,
}

impl Decode for Usage {
    open spec fn decodable(j: Json) -> bool {
        &&& count_of(member(j, "prompt_tokens"@)) is Some
        &&& count_of(member(j, "completion_tokens"@)) is Some
        &&& count_of(member(j, "total_tokens"@)) is Some
    }

    open spec fn decodes_from(self, j: Json) -> bool {
        &&& count_of(member(j, "prompt_tokens"@)) == Some(self.prompt_tokens)
        &&& count_of(member(j, "completion_tokens"@)) == Some(self.completion_tokens)
        &&& count_of(member(j, "total_tokens"@)) == Some(self.total_tokens)
    }

    fn from_json(j: &Json) -> (r: Result<Usage, Error>) {
        let prompt_tokens = count_member(j, "prompt_tokens")?;
        let completion_tokens = count_member(j, "completion_tokens")?;
        let total_tokens = count_member(j, "total_tokens")?;
        Ok(Usage { prompt_tokens, completion_tokens, total_tokens })
    }
}

#[allow(non_camel_case_types)]
/// A model that chat accepts.
#[derive(Clone, Copy, Debug, PartialEq, Eq, Structural)]
pub enum Model {
    Gpt4,
    Gpt4_0613,
    Gpt4_32k,
    Gpt4_32k_0613,
    Gpt3dot5Turbo,
    Gpt3dot5Turbo_16k,
    Gpt3dot5Turbo_0613,
    Gpt3dot5Turbo_16k_0613,
}

impl Model {
    /// The spelling that the wire carries for this value.
    pub open spec fn name(self) -> Seq<char> {
        match self {
            Model::Gpt4 => "gpt-4"@,
            Model::Gpt4_0613 => "gpt-4-0613"@,
            Model::Gpt4_32k => "gpt-4-32k"@,
            Model::Gpt4_32k_0613 => "gpt-4-32k-0613"@,
            Model::Gpt3dot5Turbo => "gpt-3.5-turbo"@,
            Model::Gpt3dot5Turbo_16k => "gpt-3.5-turbo-16k"@,
            Model::Gpt3dot5Turbo_0613 => "gpt-3.5-turbo-0613"@,
            Model::Gpt3dot5Turbo_16k_0613 => "gpt-3.5-turbo-16k-0613"@,
        }
    }

    /// The value that a user-supplied string names, if any.
    pub open spec fn from_name(s: Seq<char>) -> Option<Model> {
        if s == "gpt-4"@ {
            Some(Model::Gpt4)
        } else if s == "gpt-4-0613"@ {
            Some(Model::Gpt4_0613)
        } else if s == "gpt-4-32k"@ {
            Some(Model::Gpt4_32k)
        } else if s == "gpt-4-32k-0613"@ {
            Some(Model::Gpt4_32k_0613)
        } else if s == "gpt-3.5-turbo"@ {
            Some(Model::Gpt3dot5Turbo)
        } else if s == "gpt-3.5-turbo-16k"@ {
            Some(Model::Gpt3dot5Turbo_16k)
        } else if s == "gpt-3.5-turbo-0613"@ {
            Some(Model::Gpt3dot5Turbo_0613)
        } else if s == "gpt-3.5-turbo-16k-0613"@ {
            Some(Model::Gpt3dot5Turbo_16k_0613)
        } else {
            None
        }
    }

    /// The value that a response carries under the given spelling, if any.
    pub open spec fn from_wire(s: Seq<char>) -> Option<Model> {
        Model::from_name(s)
    }

    /// The value that a JSON string in a response stands for, if any.
    pub open spec fn decoded(j: Json) -> Option<Model> {
        match j {
            Json::Str(s) => Model::from_wire(s@),
            _ => None,
        }
    }

    /// The spelling that the wire carries for this value.
    pub fn as_str(&self) -> (r: &'static str)
        ensures
            r@ == self.name(),
    {
        match self {
            Model::Gpt4 => "gpt-4",
            Model::Gpt4_0613 => "gpt-4-0613",
            Model::Gpt4_32k => "gpt-4-32k",
            Model::Gpt4_32k_0613 => "gpt-4-32k-0613",
            Model::Gpt3dot5Turbo => "gpt-3.5-turbo",
            Model::Gpt3dot5Turbo_16k => "gpt-3.5-turbo-16k",
            Model::Gpt3dot5Turbo_0613 => "gpt-3.5-turbo-0613",
            Model::Gpt3dot5Turbo_16k_0613 => "gpt-3.5-turbo-16k-0613",
        }
    }

    /// Resolves a user-supplied string; any other string is refused with `UnsupportedModel`.
    pub fn parse(s: &str) -> (r: Result<Model, Error>)
        ensures
            Model::from_name(s@) matches Some(v) ==> r == Ok::<Model, Error>(v),
            Model::from_name(s@) is None ==> (r matches Err(Error::UnsupportedModel(t)) && t@ == s@),
    {
        if same_text(s, "gpt-4") {
            Ok(Model::Gpt4)
        } else if same_text(s, "gpt-4-0613") {
            Ok(Model::Gpt4_0613)
        } else if same_text(s, "gpt-4-32k") {
            Ok(Model::Gpt4_32k)
        } else if same_text(s, "gpt-4-32k-0613") {
            Ok(Model::Gpt4_32k_0613)
        } else if same_text(s, "gpt-3.5-turbo") {
            Ok(Model::Gpt3dot5Turbo)
        } else if same_text(s, "gpt-3.5-turbo-16k") {
            Ok(Model::Gpt3dot5Turbo_16k)
        } else if same_text(s, "gpt-3.5-turbo-0613") {
            Ok(Model::Gpt3dot5Turbo_0613)
        } else if same_text(s, "gpt-3.5-turbo-16k-0613") {
            Ok(Model::Gpt3dot5Turbo_16k_0613)
        } else {
            Err(Error::UnsupportedModel(s.to_owned()))
        }
    }

}

impl Decode for Model {
    open spec fn decodable(j: Json) -> bool {
        Model::decoded(j) is Some
    }

    open spec fn decodes_from(self, j: Json) -> bool {
        Model::decoded(j) == Some(self)
    }

    fn from_json(j: &Json) -> (r: Result<Model, Error>) {
        match j {
            Json::Str(s) => {
                if same_text(s.as_str(), "gpt-4") {
                    Ok(Model::Gpt4)
                } else if same_text(s.as_str(), "gpt-4-0613") {
                    Ok(Model::Gpt4_0613)
                } else if same_text(s.as_str(), "gpt-4-32k") {
                    Ok(Model::Gpt4_32k)
                } else if same_text(s.as_str(), "gpt-4-32k-0613") {
                    Ok(Model::Gpt4_32k_0613)
                } else if same_text(s.as_str(), "gpt-3.5-turbo") {
                    Ok(Model::Gpt3dot5Turbo)
                } else if same_text(s.as_str(), "gpt-3.5-turbo-16k") {
                    Ok(Model::Gpt3dot5Turbo_16k)
                } else if same_text(s.as_str(), "gpt-3.5-turbo-0613") {
                    Ok(Model::Gpt3dot5Turbo_0613)
                } else if same_text(s.as_str(), "gpt-3.5-turbo-16k-0613") {
                    Ok(Model::Gpt3dot5Turbo_16k_0613)
                } else {
                    Err(unexpected(s.as_str()))
                }
            },
            _ => Err(unexpected("Model")),
        }
    }
}

impl std::str::FromStr for Model {
    type Err = Error;

    fn from_str(s: &str) -> Result<Model, Error> {
        Model::parse(s)
    }
}

/// Parsing then writing back a known identifier gives the same spelling, and each
/// value is parsed back from its own spelling.
pub proof fn lemma_model_name_round_trip(s: Seq<char>)
    ensures
        Model::from_name(s) matches Some(m) ==> m.name() == s,
        forall|m: Model| Model::from_name(#[trigger] m.name()) == Some(m),
{
    assert forall|m: Model| Model::from_name(#[trigger] m.name()) == Some(m) by {
        reveal_strlit("gpt-3.5-turbo");
        assert("gpt-3.5-turbo"@.len() == 13);
        reveal_strlit("gpt-3.5-turbo-0613");
        assert("gpt-3.5-turbo-0613"@.len() == 18);
        reveal_strlit("gpt-3.5-turbo-16k");
        assert("gpt-3.5-turbo-16k"@.len() == 17);
        reveal_strlit("gpt-3.5-turbo-16k-0613");
        assert("gpt-3.5-turbo-16k-0613"@.len() == 22);
        reveal_strlit("gpt-4");
        assert("gpt-4"@.len() == 5);
        reveal_strlit("gpt-4-0613");
        assert("gpt-4-0613"@.len() == 10);
        reveal_strlit("gpt-4-32k");
        assert("gpt-4-32k"@.len() == 9);
        reveal_strlit("gpt-4-32k-0613");
        assert("gpt-4-32k-0613"@.len() == 14);
        match m {
            Model::Gpt4 => assert(Model::from_name("gpt-4"@) == Some(Model::Gpt4)),
            Model::Gpt4_0613 => assert(Model::from_name("gpt-4-0613"@) == Some(Model::Gpt4_0613)),
            Model::Gpt4_32k => assert(Model::from_name("gpt-4-32k"@) == Some(Model::Gpt4_32k)),
            Model::Gpt4_32k_0613 => assert(Model::from_name("gpt-4-32k-0613"@) == Some(Model::Gpt4_32k_0613)),
            Model::Gpt3dot5Turbo => assert(Model::from_name("gpt-3.5-turbo"@) == Some(Model::Gpt3dot5Turbo)),
            Model::Gpt3dot5Turbo_16k => assert(Model::from_name("gpt-3.5-turbo-16k"@) == Some(Model::Gpt3dot5Turbo_16k)),
            Model::Gpt3dot5Turbo_0613 => assert(Model::from_name("gpt-3.5-turbo-0613"@) == Some(Model::Gpt3dot5Turbo_0613)),
            Model::Gpt3dot5Turbo_16k_0613 => assert(Model::from_name("gpt-3.5-turbo-16k-0613"@) == Some(Model::Gpt3dot5Turbo_16k_0613)),
        }
    }
}

/// Who wrote a chat message.
#[derive(Clone, Copy, Debug, PartialEq, Eq, Structural)]
pub enum Role {
    System,
    Assistant,
    User,
    Function,
}

impl Role {
    /// The spelling that the wire carries for this value.
    pub open spec fn name(self) -> Seq<char> {
        match self {
            Role::System => "system"@,
            Role::Assistant => "assistant"@,
            Role::User => "user"@,
            Role::Function => "function"@,
        }
    }

    /// The value that a user-supplied string names, if any.
    pub open spec fn from_name(s: Seq<char>) -> Option<Role> {
        if s == "system"@ {
            Some(Role::System)
        } else if s == "assistant"@ {
            Some(Role::Assistant)
        } else if s == "user"@ {
            Some(Role::User)
        } else if s == "function"@ {
            Some(Role::Function)
        } else {
            None
        }
    }

    /// The value that a response carries under the given spelling, if any.
    pub open spec fn from_wire(s: Seq<char>) -> Option<Role> {
        Role::from_name(s)
    }

    /// The value that a JSON string in a response stands for, if any.
    pub open spec fn decoded(j: Json) -> Option<Role> {
        match j {
            Json::Str(s) => Role::from_wire(s@),
            _ => None,
        }
    }

    /// The spelling that the wire carries for this value.
    pub fn as_str(&self) -> (r: &'static str)
        ensures
            r@ == self.name(),
    {
        match self {
            Role::System => "system",
            Role::Assistant => "assistant",
            Role::User => "user",
            Role::Function => "function",
        }
    }

    /// Resolves a user-supplied string; any other string is refused with `UnsupportedRole`.
    pub fn parse(s: &str) -> (r: Result<Role, Error>)
        ensures
            Role::from_name(s@) matches Some(v) ==> r == Ok::<Role, Error>(v),
            Role::from_name(s@) is None ==> (r matches Err(Error::UnsupportedRole(t)) && t@ == s@),
    {
        if same_text(s, "system") {
            Ok(Role::System)
        } else if same_text(s, "assistant") {
            Ok(Role::Assistant)
        } else if same_text(s, "user") {
            Ok(Role::User)
        } else if same_text(s, "function") {
            Ok(Role::Function)
        } else {
            Err(Error::UnsupportedRole(s.to_owned()))
        }
    }

}

impl Decode for Role {
    open spec fn decodable(j: Json) -> bool {
        Role::decoded(j) is Some
    }

    open spec fn decodes_from(self, j: Json) -> bool {
        Role::decoded(j) == Some(self)
    }

    fn from_json(j: &Json) -> (r: Result<Role, Error>) {
        match j {
            Json::Str(s) => {
                if same_text(s.as_str(), "system") {
                    Ok(Role::System)
                } else if same_text(s.as_str(), "assistant") {
                    Ok(Role::Assistant)
                } else if same_text(s.as_str(), "user") {
                    Ok(Role::User)
                } else if same_text(s.as_str(), "function") {
                    Ok(Role::Function)
                } else {
                    Err(unexpected(s.as_str()))
                }
            },
            _ => Err(unexpected("Role")),
        }
    }
}

impl std::str::FromStr for Role {
    type Err = Error;

    fn from_str(s: &str) -> Result<Role, Error> {
        Role::parse(s)
    }
}

/// Parsing then writing back a known role gives the same spelling, and each
/// value is parsed back from its own spelling.
pub proof fn lemma_role_name_round_trip(s: Seq<char>)
    ensures
        Role::from_name(s) matches Some(m) ==> m.name() == s,
        forall|m: Role| Role::from_name(#[trigger] m.name()) == Some(m),
{
    assert forall|m: Role| Role::from_name(#[trigger] m.name()) == Some(m) by {
        reveal_strlit("assistant");
        assert("assistant"@.len() == 9);
        reveal_strlit("function");
        assert("function"@.len() == 8);
        reveal_strlit("system");
        assert("system"@.len() == 6);
        reveal_strlit("user");
        assert("user"@.len() == 4);
        match m {
            Role::System => assert(Role::from_name("system"@) == Some(Role::System)),
            Role::Assistant => assert(Role::from_name("assistant"@) == Some(Role::Assistant)),
            Role::User => assert(Role::from_name("user"@) == Some(Role::User)),
            Role::Function => assert(Role::from_name("function"@) == Some(Role::Function)),
        }
    }
}

/// Why a chat completion stopped.
#[derive(Clone, Copy, Debug, PartialEq, Eq, Structural)]
pub enum FinishReason {
    Length,
    Stop,
    FunctionCall,
}

impl FinishReason {
    /// The value that a response carries under the given spelling, if any.
    pub open spec fn from_wire(s: Seq<char>) -> Option<FinishReason> {
        if s == "length"@ {
            Some(FinishReason::Length)
        } else if s == "stop"@ {
            Some(FinishReason::Stop)
        } else if s == "function_call"@ {
            Some(FinishReason::FunctionCall)
        } else {
            None
        }
    }

    /// The value that a JSON string in a response stands for, if any.
    pub open spec fn decoded(j: Json) -> Option<FinishReason> {
        match j {
            Json::Str(s) => FinishReason::from_wire(s@),
            _ => None,
        }
    }

}

impl Decode for FinishReason {
    open spec fn decodable(j: Json) -> bool {
        FinishReason::decoded(j) is Some
    }

    open spec fn decodes_from(self, j: Json) -> bool {
        FinishReason::decoded(j) == Some(self)
    }

    fn from_json(j: &Json) -> (r: Result<FinishReason, Error>) {
        match j {
            Json::Str(s) => {
                if same_text(s.as_str(), "length") {
                    Ok(FinishReason::Length)
                } else if same_text(s.as_str(), "stop") {
                    Ok(FinishReason::Stop)
                } else if same_text(s.as_str(), "function_call") {
                    Ok(FinishReason::FunctionCall)
                } else {
                    Err(unexpected(s.as_str()))
                }
            },
            _ => Err(unexpected("FinishReason")),
        }
    }
}

} // verus!
