//! Screen capture through the desktop portal.
//!
//! The portal answers each request twice: the call itself only returns the
//! path of a request object, and the result comes later as a signal on that
//! path. So the path has to be known before the call is made.
use vstd::prelude::*;
use crate::outside::object_path_accepts;
use crate::source::PortalSession;
use crate::text::{
    chars_of, decimal, is_digit, law_decimal_reads_back, lemma_mentions, lemma_radix_injective,
    lemma_radix_reads_back, mentions, positional, push_decimal, same_text,
};

verus! {

/// A character of an object path's element.
pub open spec fn is_path_char(c: char) -> bool {
    ('a' <= c <= 'z') || ('A' <= c <= 'Z') || ('0' <= c <= '9') || c == '_'
}

/// D-Bus's rules for object paths: a slash, or elements of letters, digits
/// and underscores, each behind a slash of its own.
pub open spec fn is_object_path(s: Seq<char>) -> bool {
    &&& s.len() > 0 && s[0] == '/'
    &&& s.len() > 1 ==> s.last() != '/'
    &&& forall|i: int| 0 <= i < s.len() ==> #[trigger] s[i] == '/' || is_path_char(s[i])
    &&& forall|i: int, j: int|
        0 <= i && j == i + 1 && j < s.len() && #[trigger] s[i] == '/' ==> #[trigger] s[j] != '/'
}

/// A value in a portal's response, as far as it matters here.
#[derive(Debug)]
pub enum PortalValue {
    Text(String),
    /// The node ids of the streams that were chosen.
    Streams(Vec<u32>),
    /// A value of any other type.
    Other,
}

/// A value in a portal's response, with its name.
#[derive(Debug)]
pub struct PortalEntry {
    pub key: String,
    pub value: PortalValue,
}

/// What can go wrong between the recorder and the portal.
#[derive(Debug)]
pub enum PortalError {
    /// The path of the request would not be a valid object path.
    InvalidRequestPath,
    /// The portal answered with this response code.
    Refused(u32),
    /// The response lacks this value.
    Missing(String),
    /// This value of the response is of another type.
    UnexpectedType(String),
    /// The session's handle is not a valid object path.
    InvalidSessionHandle,
    /// The portal granted a session without any stream.
    NoStreams,
}

impl PortalError {
    /// What to tell the user.
    pub open spec fn text(self) -> Seq<char> {
        match self {
            PortalError::InvalidRequestPath => "portal produced an invalid request object path"@,
            PortalError::Refused(code) => "the portal request was cancelled or failed (response code "@
                + decimal(code as nat) + ")"@,
            PortalError::Missing(key) => "portal response is missing '"@ + key@ + "'"@,
            PortalError::UnexpectedType(key) => "portal response's '"@ + key@
                + "' had an unexpected type: incorrect type"@,
            PortalError::InvalidSessionHandle => "portal returned an invalid session handle"@,
            PortalError::NoStreams => "the portal reported success but selected no streams"@,
        }
    }

    /// What to tell the user.
    pub fn message(&self) -> (message: String)
        ensures
            message@ == self.text(),
    {
        let mut message = String::new();
        match self {
            PortalError::InvalidRequestPath => {
                message.append("portal produced an invalid request object path");
            },
            PortalError::Refused(code) => {
                message.append("the portal request was cancelled or failed (response code ");
                push_decimal(&mut message, *code as u64);
                message.append(")");
            },
            PortalError::Missing(key) => {
                message.append("portal response is missing '");
                message.append(key.as_str());
                message.append("'");
            },
            PortalError::UnexpectedType(key) => {
                message.append("portal response's '");
                message.append(key.as_str());
                message.append("' had an unexpected type: incorrect type");
            },
            PortalError::InvalidSessionHandle => {
                message.append("portal returned an invalid session handle");
            },
            PortalError::NoStreams => {
                message.append("the portal reported success but selected no streams");
            },
        }
        assert(message@ =~= self.text());
        message
    }
}

/// Numbers the requests of a process.
#[derive(Debug, Clone, Copy, PartialEq, Eq, Structural)]
pub struct TokenCounter {
    pub next: u64,
}

/// The token of request number `n`.
pub open spec fn token(n: u64) -> Seq<char> {
    "desktoprecorder_"@ + decimal(n as nat)
}

impl TokenCounter {
    /// A token that has not been used yet.
    pub fn next_token(&mut self) -> (text: String)
        ensures
            text@ == token(old(self).next),
            final(self).next == (if old(self).next == u64::MAX {
                0
            } else {
                (old(self).next + 1) as u64
            }),
    {
        let mut text = String::new();
        text.append("desktoprecorder_");
        push_decimal(&mut text, self.next);
        assert(text@ =~= token(self.next));
        self.next = if self.next == u64::MAX {
            0
        } else {
            self.next + 1
        };
        text
    }
}

/// Different requests have different tokens.
pub proof fn law_tokens_differ(m: u64, n: u64)
    requires
        token(m) == token(n),
    ensures
        m == n,
{
    let prefix = "desktoprecorder_"@;
    assert(token(m).skip(prefix.len() as int) =~= decimal(m as nat));
    assert(token(n).skip(prefix.len() as int) =~= decimal(n as nat));
    lemma_radix_injective(m as nat, n as nat, 10);
}

/// A bus name without its leading colons.
pub open spec fn without_colons(name: Seq<char>) -> Seq<char>
    decreases name.len(),
{
    if name.len() > 0 && name[0] == ':' {
        without_colons(name.skip(1))
    } else {
        name
    }
}

/// A bus name as it stands in request paths: without its leading colons,
/// and with an underscore for every dot.
pub open spec fn sender(name: Seq<char>) -> Seq<char> {
    without_colons(name).map_values(
        |c: char|
            if c == '.' {
                '_'
            } else {
                c
            },
    )
}

/// The path of the object that answers a request.
pub open spec fn request_object(name: Seq<char>, token: Seq<char>) -> Seq<char> {
    "/org/freedesktop/portal/desktop/request/"@ + sender(name) + "/"@ + token
}

/// The path of the object that will answer the request tagged with `token`
/// from the bus connection called `unique_name`.
pub fn request_path(unique_name: &str, token: &str) -> (path: Result<String, PortalError>)
    ensures
        match path {
            Ok(p) => p@ == request_object(unique_name@, token@) && is_object_path(p@),
            Err(PortalError::InvalidRequestPath) => !is_object_path(
                request_object(unique_name@, token@),
            ),
            Err(_) => false,
        },
{
    let chars = chars_of(unique_name);
    let mut start: usize = 0;
    assert(chars@.skip(0) =~= chars@);
    while start < chars.len() && chars[start] == ':'
        invariant
            start <= chars.len(),
            without_colons(chars@) == without_colons(chars@.skip(start as int)),
        decreases chars.len() - start,
    {
        assert(chars@.skip(start as int)[0] == chars@[start as int]);
        assert(chars@.skip(start as int).skip(1) =~= chars@.skip(start + 1));
        start = start + 1;
    }
    let ghost bare = chars@.skip(start as int);
    assert(bare.len() > 0 ==> bare[0] == chars@[start as int]);
    assert(without_colons(unique_name@) == bare);
    let mut path = String::new();
    path.append("/org/freedesktop/portal/desktop/request/");
    let ghost prefix = "/org/freedesktop/portal/desktop/request/"@;
    let mut i: usize = start;
    assert(path@ =~= prefix + sender(unique_name@).take(0));
    while i < chars.len()
        invariant
            start <= i <= chars.len(),
            bare == chars@.skip(start as int),
            without_colons(unique_name@) == bare,
            path@ == prefix + sender(unique_name@).take(i - start),
        decreases chars.len() - i,
    {
        let c: char = chars[i];
        assert(bare[i - start] == c);
        if c == '.' {
            path.push('_');
        } else {
            path.push(c);
        }
        i = i + 1;
        assert(path@ =~= prefix + sender(unique_name@).take(i - start));
    }
    assert(sender(unique_name@).take(i - start) =~= sender(unique_name@));
    path.append("/");
    path.append(token);
    assert(path@ =~= request_object(unique_name@, token@));
    if object_path_accepts(path.as_str()) {
        Ok(path)
    } else {
        Err(PortalError::InvalidRequestPath)
    }
}

/// A connection whose bus name is made of letters, digits, underscores and
/// dots, as bus daemons assign them, always gets a valid request path for
/// the recorder's own tokens.
pub proof fn law_own_requests_have_valid_paths(name: Seq<char>, n: u64)
    requires
        without_colons(name).len() > 0,
        forall|i: int|
            0 <= i < without_colons(name).len() ==> is_path_char(#[trigger] without_colons(name)[i])
                || without_colons(name)[i] == '.',
    ensures
        is_object_path(request_object(name, token(n))),
{
    reveal_strlit("/org/freedesktop/portal/desktop/request/");
    reveal_strlit("/");
    reveal_strlit("desktoprecorder_");
    let prefix = "/org/freedesktop/portal/desktop/request/"@;
    let from = sender(name);
    let tok = token(n);
    let word = "desktoprecorder_"@;
    let digits = decimal(n as nat);
    lemma_radix_reads_back(n as nat, 10);
    let path = request_object(name, tok);
    let a = prefix.len() as int;
    let b = a + from.len();
    assert(a == 40 && word.len() == 16);
    assert forall|i: int| 0 <= i < from.len() implies is_path_char(#[trigger] from[i]) by {
        let c = without_colons(name)[i];
        assert(is_path_char(c) || c == '.');
    }
    assert forall|i: int| 0 <= i < tok.len() implies is_path_char(#[trigger] tok[i]) by {
        if i < 16 {
            assert(tok[i] == word[i]);
        } else {
            assert(tok[i] == digits[i - 16]);
            assert(is_digit(digits[i - 16], 10));
        }
    }
    assert forall|i: int| 0 <= i < path.len() implies #[trigger] path[i] == '/' || is_path_char(path[i]) by {
        if i < a {
            assert(path[i] == prefix[i]);
        } else if i < b {
            assert(path[i] == from[i - a]);
        } else if i > b {
            assert(path[i] == tok[i - b - 1]);
        }
    }
    assert forall|i: int, j: int|
        0 <= i && j == i + 1 && j < path.len() && #[trigger] path[i] == '/' implies #[trigger] path[j] != '/' by {
        if j < a {
            assert(path[i] == prefix[i] && path[j] == prefix[j]);
        } else if j < b {
            assert(path[j] == from[j - a]);
        } else if j == b {
            assert(path[i] == from[i - a]);
        } else {
            assert(path[j] == tok[j - b - 1]);
        }
    }
    assert(path[0] == prefix[0]);
    assert(path.last() == tok.last());
}

/// Whether `i` is where the value called `key` first occurs.
pub open spec fn first_entry(results: Seq<PortalEntry>, key: Seq<char>, i: int) -> bool {
    &&& 0 <= i < results.len() && results[i].key@ == key
    &&& forall|j: int| 0 <= j < i ==> (#[trigger] results[j]).key@ != key
}

/// Whether a response holds no value called `key`.
pub open spec fn lacks(results: Seq<PortalEntry>, key: Seq<char>) -> bool {
    forall|i: int| 0 <= i < results.len() ==> (#[trigger] results[i]).key@ != key
}

/// The value called `key` in a response.
pub fn get_value<'a>(results: &'a Vec<PortalEntry>, key: &str) -> (value: Result<
    &'a PortalValue,
    PortalError,
>)
    ensures
        match value {
            Ok(v) => exists|i: int| #[trigger] first_entry(results@, key@, i) && results@[i].value == *v,
            Err(PortalError::Missing(k)) => k@ == key@ && lacks(results@, key@),
            Err(_) => false,
        },
{
    let mut i: usize = 0;
    while i < results.len()
        invariant
            i <= results.len(),
            forall|j: int| 0 <= j < i ==> (#[trigger] results@[j]).key@ != key@,
        decreases results.len() - i,
    {
        if same_text(results[i].key.as_str(), key) {
            assert(first_entry(results@, key@, i as int));
            return Ok(&results[i].value);
        }
        i = i + 1;
    }
    Err(PortalError::Missing(key.to_owned()))
}

/// The text called `key` in a response.
pub fn get_text(results: &Vec<PortalEntry>, key: &str) -> (text: Result<String, PortalError>)
    ensures
        match text {
            Ok(t) => exists|i: int|
                #[trigger] first_entry(results@, key@, i) && (results@[i].value matches PortalValue::Text(
                    s,
                ) && s@ == t@),
            Err(PortalError::Missing(k)) => k@ == key@ && lacks(results@, key@),
            Err(PortalError::UnexpectedType(k)) => k@ == key@ && exists|i: int|
                #[trigger] first_entry(results@, key@, i) && !(results@[i].value is Text),
            Err(_) => false,
        },
{
    match get_value(results, key) {
        Ok(PortalValue::Text(text)) => Ok(text.clone()),
        Ok(_) => Err(PortalError::UnexpectedType(key.to_owned())),
        Err(e) => Err(e),
    }
}

/// The first of the streams called `key` in a response.
pub fn get_first_stream(results: &Vec<PortalEntry>, key: &str) -> (node: Result<u32, PortalError>)
    ensures
        match node {
            Ok(n) => exists|i: int|
                #[trigger] first_entry(results@, key@, i) && (results@[i].value matches PortalValue::Streams(
                    nodes,
                ) && nodes@.len() > 0 && nodes@[0] == n),
            Err(PortalError::NoStreams) => exists|i: int|
                #[trigger] first_entry(results@, key@, i) && (results@[i].value matches PortalValue::Streams(
                    nodes,
                ) && nodes@.len() == 0),
            Err(PortalError::Missing(k)) => k@ == key@ && lacks(results@, key@),
            Err(PortalError::UnexpectedType(k)) => k@ == key@ && exists|i: int|
                #[trigger] first_entry(results@, key@, i) && !(results@[i].value is Streams),
            Err(_) => false,
        },
{
    match get_value(results, key) {
        Ok(PortalValue::Streams(nodes)) => {
            if nodes.len() > 0 {
                Ok(nodes[0])
            } else {
                Err(PortalError::NoStreams)
            }
        },
        Ok(_) => Err(PortalError::UnexpectedType(key.to_owned())),
        Err(e) => Err(e),
    }
}

/// The calls that a negotiation makes, in order.
#[derive(Debug, Clone, Copy, PartialEq, Eq, Structural)]
pub enum Stage {
    CreateSession,
    SelectSources,
    /// This is what shows the user the portal's dialog.
    Start,
    /// All answers are in; what is left is to open the connection.
    OpenRemote,
}

impl Stage {
    /// What failed, where this call fails.
    pub open spec fn failure(self) -> Seq<char> {
        match self {
            Stage::CreateSession => "CreateSession failed"@,
            Stage::SelectSources => "SelectSources failed"@,
            Stage::Start => "Start failed (did the picker dialog get cancelled?)"@,
            Stage::OpenRemote => "OpenPipeWireRemote failed"@,
        }
    }

    /// What failed, where this call fails.
    pub fn context(self) -> (context: &'static str)
        ensures
            context@ == self.failure(),
    {
        match self {
            Stage::CreateSession => "CreateSession failed",
            Stage::SelectSources => "SelectSources failed",
            Stage::Start => "Start failed (did the picker dialog get cancelled?)",
            Stage::OpenRemote => "OpenPipeWireRemote failed",
        }
    }
}

/// The value of an option of a call.
#[derive(Debug)]
pub enum OptionValue {
    Text(String),
    Number(u32),
    Flag(bool),
}

/// An option of a call.
#[derive(Debug)]
pub struct CallOption {
    pub name: &'static str,
    pub value: OptionValue,
}

/// The model of an `OptionValue`.
pub ghost enum OptionModel {
    Text(Seq<char>),
    Number(u32),
    Flag(bool),
}

impl View for OptionValue {
    type V = OptionModel;

    open spec fn view(&self) -> OptionModel {
        match self {
            OptionValue::Text(s) => OptionModel::Text(s@),
            OptionValue::Number(n) => OptionModel::Number(*n),
            OptionValue::Flag(b) => OptionModel::Flag(*b),
        }
    }
}

/// A call to make, and where its answer will arrive.
#[derive(Debug)]
pub struct PortalCall {
    pub stage: Stage,
    /// The handle of the session that the call is made on; there is none yet
    /// for the first call.
    pub session: String,
    /// The path to listen on before the call is made.
    pub request_path: String,
    pub options: Vec<CallOption>,
}

/// The options of a call. Monitors and windows are both offered, one of
/// them to be picked; the pointer is embedded in the pictures or hidden.
pub open spec fn call_options(stage: Stage, show_pointer: bool, token: Seq<char>) -> Seq<
    (Seq<char>, OptionModel),
> {
    match stage {
        Stage::CreateSession => seq![
            ("handle_token"@, OptionModel::Text(token)),
            ("session_handle_token"@, OptionModel::Text(token)),
        ],
        Stage::SelectSources => seq![
            ("handle_token"@, OptionModel::Text(token)),
            ("types"@, OptionModel::Number(3)),
            ("multiple"@, OptionModel::Flag(false)),
            (
                "cursor_mode"@,
                OptionModel::Number(
                    if show_pointer {
                        2
                    } else {
                        1
                    },
                ),
            ),
        ],
        Stage::Start => seq![("handle_token"@, OptionModel::Text(token))],
        Stage::OpenRemote => seq![],
    }
}

/// A negotiation with the portal.
#[derive(Debug)]
pub struct Negotiation {
    pub show_pointer: bool,
    pub stage: Stage,
    /// The session's handle, once there is one.
    pub session: String,
    /// The stream's node, once there is one.
    pub node: u32,
}

impl Negotiation {
    /// Past the first call there is a session, whose handle is a valid
    /// object path.
    pub open spec fn well_formed(self) -> bool {
        self.stage != Stage::CreateSession ==> is_object_path(self.session@)
    }
}

/// Whether a response names `handle` as the session.
pub open spec fn names_session(results: Seq<PortalEntry>, handle: Seq<char>) -> bool {
    exists|i: int|
        #[trigger] first_entry(results, "session_handle"@, i) && (results[i].value matches PortalValue::Text(
            s,
        ) && s@ == handle)
}

/// Whether `node` is the first stream in a response.
pub open spec fn names_stream(results: Seq<PortalEntry>, node: u32) -> bool {
    exists|i: int|
        #[trigger] first_entry(results, "streams"@, i) && (results[i].value matches PortalValue::Streams(
            nodes,
        ) && nodes@.len() > 0 && nodes@[0] == node)
}

/// Whether an answer takes a negotiation from `before` to `after`.
pub open spec fn accepted(
    before: Negotiation,
    code: u32,
    results: Seq<PortalEntry>,
    after: Negotiation,
) -> bool {
    &&& code == 0
    &&& after.show_pointer == before.show_pointer
    &&& match before.stage {
        Stage::CreateSession => {
            &&& after.stage == Stage::SelectSources
            &&& names_session(results, after.session@) && is_object_path(after.session@)
            &&& after.node == before.node
        },
        Stage::SelectSources => {
            &&& after.stage == Stage::Start
            &&& after.session == before.session
            &&& after.node == before.node
        },
        Stage::Start => {
            &&& after.stage == Stage::OpenRemote
            &&& after.session == before.session
            &&& names_stream(results, after.node)
        },
        Stage::OpenRemote => false,
    }
}

/// Whether `error` is what is wrong with the answer to a call.
pub open spec fn explains(
    stage: Stage,
    code: u32,
    results: Seq<PortalEntry>,
    error: PortalError,
) -> bool {
    match error {
        PortalError::Refused(c) => code != 0 && c == code,
        PortalError::Missing(key) => code == 0 && (stage == Stage::CreateSession && key@
            == "session_handle"@ || stage == Stage::Start && key@ == "streams"@) && lacks(
            results,
            key@,
        ),
        PortalError::UnexpectedType(key) => code == 0 && (stage == Stage::CreateSession && key@
            == "session_handle"@ && (exists|i: int|
            #[trigger] first_entry(results, key@, i) && !(results[i].value is Text)) || stage
            == Stage::Start && key@ == "streams"@ && (exists|i: int|
            #[trigger] first_entry(results, key@, i) && !(results[i].value is Streams))),
        PortalError::InvalidSessionHandle => code == 0 && stage == Stage::CreateSession && exists|
            handle: Seq<char>,
        | #[trigger] names_session(results, handle) && !is_object_path(handle),
        PortalError::NoStreams => code == 0 && stage == Stage::Start && exists|i: int|
            #[trigger] first_entry(results, "streams"@, i) && (
            results[i].value matches PortalValue::Streams(nodes) && nodes@.len() == 0),
        PortalError::InvalidRequestPath => false,
    }
}

/// Three answers that are accepted one after the other lead from the
/// beginning of a negotiation to its end. The session is the one that the
/// first of them names, and the stream is the first that the last one names.
pub proof fn law_negotiation_gathers_a_session(
    begun: Negotiation,
    created: Seq<PortalEntry>,
    first: Negotiation,
    selected: Seq<PortalEntry>,
    second: Negotiation,
    started: Seq<PortalEntry>,
    third: Negotiation,
)
    requires
        begun.stage == Stage::CreateSession,
        accepted(begun, 0, created, first),
        accepted(first, 0, selected, second),
        accepted(second, 0, started, third),
    ensures
        third.stage == Stage::OpenRemote,
        third.show_pointer == begun.show_pointer,
        names_session(created, third.session@),
        is_object_path(third.session@),
        names_stream(started, third.node),
{
}

/// Begins a negotiation.
pub fn negotiate(show_pointer: bool) -> (negotiation: Negotiation)
    ensures
        negotiation.well_formed(),
        negotiation.show_pointer == show_pointer,
        negotiation.stage == Stage::CreateSession,
        negotiation.session@ == Seq::<char>::empty(),
        negotiation.node == 0,
{
    Negotiation { show_pointer, stage: Stage::CreateSession, session: String::new(), node: 0 }
}

impl Negotiation {
    /// The next call to make on the connection called `unique_name`.
    pub fn next_call(&self, unique_name: &str, tokens: &mut TokenCounter) -> (call: Result<
        PortalCall,
        PortalError,
    >)
        requires
            self.stage != Stage::OpenRemote,
        ensures
            final(tokens).next == (if old(tokens).next == u64::MAX {
                0
            } else {
                (old(tokens).next + 1) as u64
            }),
            match call {
                Ok(c) => {
                    &&& c.stage == self.stage
                    &&& c.session@ == self.session@
                    &&& c.request_path@ == request_object(unique_name@, token(old(tokens).next))
                    &&& is_object_path(c.request_path@)
                    &&& c.options@.map_values(|o: CallOption| (o.name@, o.value@)) == call_options(
                        self.stage,
                        self.show_pointer,
                        token(old(tokens).next),
                    )
                },
                Err(PortalError::InvalidRequestPath) => !is_object_path(
                    request_object(unique_name@, token(old(tokens).next)),
                ),
                Err(_) => false,
            },
    {
        let token = tokens.next_token();
        let request_path = match request_path(unique_name, token.as_str()) {
            Ok(path) => path,
            Err(e) => return Err(e),
        };
        let mut options: Vec<CallOption> = Vec::new();
        options.push(CallOption { name: "handle_token", value: OptionValue::Text(token.clone()) });
        match self.stage {
            Stage::CreateSession => {
                options.push(
                    CallOption { name: "session_handle_token", value: OptionValue::Text(token) },
                );
            },
            Stage::SelectSources => {
                options.push(CallOption { name: "types", value: OptionValue::Number(3) });
                options.push(CallOption { name: "multiple", value: OptionValue::Flag(false) });
                let mode: u32 = if self.show_pointer {
                    2
                } else {
                    1
                };
                options.push(CallOption { name: "cursor_mode", value: OptionValue::Number(mode) });
            },
            _ => {},
        }
        assert(options@.map_values(|o: CallOption| (o.name@, o.value@)) =~= call_options(
            self.stage,
            self.show_pointer,
            crate::portal::token(old(tokens).next),
        ));
        Ok(PortalCall { stage: self.stage, session: self.session.clone(), request_path, options })
    }

    /// Takes in the answer to the call that was made.
    pub fn on_response(&mut self, code: u32, results: &Vec<PortalEntry>) -> (taken: Result<
        (),
        PortalError,
    >)
        requires
            old(self).well_formed(),
            old(self).stage != Stage::OpenRemote,
        ensures
            final(self).well_formed(),
            match taken {
                Ok(_) => accepted(*old(self), code, results@, *final(self)),
                Err(e) => *final(self) == *old(self) && explains(old(self).stage, code, results@, e),
            },
    {
        if code != 0 {
            return Err(PortalError::Refused(code));
        }
        match self.stage {
            Stage::CreateSession => {
                let handle = match get_text(results, "session_handle") {
                    Ok(handle) => handle,
                    Err(e) => return Err(e),
                };
                assert(names_session(results@, handle@));
                if !object_path_accepts(handle.as_str()) {
                    return Err(PortalError::InvalidSessionHandle);
                }
                self.session = handle;
                self.stage = Stage::SelectSources;
            },
            Stage::SelectSources => {
                self.stage = Stage::Start;
            },
            _ => {
                let node: u32 = match get_first_stream(results, "streams") {
                    Ok(node) => node,
                    Err(e) => return Err(e),
                };
                self.node = node;
                self.stage = Stage::OpenRemote;
            },
        }
        Ok(())
    }

    /// The session that was granted, once its connection has been opened as
    /// `fd`.
    pub fn session(&self, fd: i32) -> (session: PortalSession)
        requires
            self.stage == Stage::OpenRemote,
        ensures
            session == (PortalSession { fd, node: self.node }),
    {
        PortalSession { fd, node: self.node }
    }
}

/// Whether `options` hold the option `name` with `value`, and with no other.
pub open spec fn is_option(
    options: Seq<(Seq<char>, OptionModel)>,
    name: Seq<char>,
    value: OptionModel,
) -> bool {
    &&& options.contains((name, value))
    &&& forall|k: int| 0 <= k < options.len() && (#[trigger] options[k]).0 == name ==> options[k].1
        == value
}

proof fn lemma_option_names_differ()
    ensures
        "handle_token"@.len() == 12,
        "session_handle_token"@.len() == 20,
        "types"@.len() == 5,
        "multiple"@.len() == 8,
        "cursor_mode"@.len() == 11,
{
    reveal_strlit("handle_token");
    reveal_strlit("session_handle_token");
    reveal_strlit("types");
    reveal_strlit("multiple");
    reveal_strlit("cursor_mode");
}

/// Whatever the pointer setting is, the user is offered monitors (the first
/// bit of the types) and windows (the second) and nothing else, and picks one
/// of them. The cursor mode is the embedded one exactly where the pointer is
/// shown, and the hidden one exactly where it is not.
pub proof fn law_user_picks_one_monitor_or_window(show_pointer: bool, token: Seq<char>, types: u32)
    ensures
        is_option(
            call_options(Stage::SelectSources, show_pointer, token),
            "types"@,
            OptionModel::Number(types),
        ) <==> types & 1 == 1 && types & 2 == 2 && types <= 3,
        is_option(
            call_options(Stage::SelectSources, show_pointer, token),
            "multiple"@,
            OptionModel::Flag(false),
        ),
        is_option(
            call_options(Stage::SelectSources, show_pointer, token),
            "cursor_mode"@,
            OptionModel::Number(2),
        ) <==> show_pointer,
        is_option(
            call_options(Stage::SelectSources, show_pointer, token),
            "cursor_mode"@,
            OptionModel::Number(1),
        ) <==> !show_pointer,
        call_options(Stage::SelectSources, show_pointer, token).len() == 4,
{
    lemma_option_names_differ();
    let o = call_options(Stage::SelectSources, show_pointer, token);
    assert(types & 1 == 1 && types & 2 == 2 && types <= 3 <==> types == 3) by (bit_vector);
    assert(o[0].0 == "handle_token"@ && o[1].0 == "types"@ && o[2].0 == "multiple"@ && o[3].0
        == "cursor_mode"@);
    assert(o[1] == ("types"@, OptionModel::Number(3)));
    assert(o[2] == ("multiple"@, OptionModel::Flag(false)));
    assert(o.contains(o[1]) && o.contains(o[2]) && o.contains(o[3]));
    assert forall|k: int| 0 <= k < o.len() && #[trigger] o[k].0 == "types"@ implies k == 1 by {}
    assert forall|k: int| 0 <= k < o.len() && #[trigger] o[k].0 == "cursor_mode"@ implies k == 3 by {}
}

/// Every call that is answered later is tagged with the token that it is
/// going to be answered under, and the session takes its name from the first
/// call's.
pub proof fn law_calls_are_tagged_with_their_token(
    stage: Stage,
    show_pointer: bool,
    token: Seq<char>,
)
    requires
        stage != Stage::OpenRemote,
    ensures
        is_option(
            call_options(stage, show_pointer, token),
            "handle_token"@,
            OptionModel::Text(token),
        ),
        stage == Stage::CreateSession ==> is_option(
            call_options(stage, show_pointer, token),
            "session_handle_token"@,
            OptionModel::Text(token),
        ) && call_options(stage, show_pointer, token).len() == 2,
        stage == Stage::Start ==> call_options(stage, show_pointer, token).len() == 1,
{
    lemma_option_names_differ();
    let o = call_options(stage, show_pointer, token);
    assert(o[0] == ("handle_token"@, OptionModel::Text(token)));
    assert(o.contains(o[0]));
    if stage == Stage::CreateSession {
        assert(o[1] == ("session_handle_token"@, OptionModel::Text(token)));
        assert(o.contains(o[1]));
    }
}

/// An answer arrives where the portal's rules say: under the portal's request
/// directory, in the caller's own part of it, which is the unique name
/// without the colon in front and with underscores for dots, and under the
/// token of the call.
pub proof fn law_answers_arrive_under_the_token(rest: Seq<char>, token: Seq<char>)
    requires
        rest.len() > 0 ==> rest[0] != ':',
    ensures
        ({
            let path = request_object(seq![':'] + rest, token);
            let a = "/org/freedesktop/portal/desktop/request/"@.len() as int;
            let b = a + rest.len();
            &&& path.len() == b + 1 + token.len()
            &&& path.take(a) == "/org/freedesktop/portal/desktop/request/"@
            &&& forall|i: int|
                0 <= i < rest.len() ==> #[trigger] path[a + i] == if rest[i] == '.' {
                    '_'
                } else {
                    rest[i]
                }
            &&& path[b] == '/'
            &&& path.skip(b + 1) == token
        }),
{
    reveal_strlit("/");
    let name = seq![':'] + rest;
    assert(name.skip(1) =~= rest);
    assert(without_colons(rest) == rest);
    assert(without_colons(name) == rest);
    let path = request_object(name, token);
    let prefix = "/org/freedesktop/portal/desktop/request/"@;
    let a = prefix.len() as int;
    let b = a + rest.len();
    assert(sender(name).len() == rest.len());
    assert(path.take(a) =~= prefix);
    assert(path.skip(b + 1) =~= token);
    assert forall|i: int| 0 <= i < rest.len() implies #[trigger] path[a + i] == if rest[i] == '.' {
        '_'
    } else {
        rest[i]
    } by {
        assert(path[a + i] == sender(name)[i]);
    }
}

/// A token is the recorder's name and the number of the request.
pub proof fn law_tokens_are_numbered(n: u64)
    ensures
        token(n).len() > "desktoprecorder_"@.len(),
        token(n).take("desktoprecorder_"@.len() as int) == "desktoprecorder_"@,
        positional(token(n).skip("desktoprecorder_"@.len() as int), 10) == n,
{
    law_decimal_reads_back(n as nat);
    let w = "desktoprecorder_"@.len() as int;
    assert(token(n).take(w) =~= "desktoprecorder_"@);
    assert(token(n).skip(w) =~= decimal(n as nat));
}

/// Whether the value at `i` is the first called `key`.
pub open spec fn is_first(results: Seq<PortalEntry>, key: Seq<char>, i: int) -> bool {
    &&& 0 <= i < results.len() && results[i].key@ == key
    &&& forall|j: int| 0 <= j < i ==> #[trigger] results[j].key@ != key
}

/// An answer moves a negotiation on to the next call only if it says that all
/// went well. The session's handle is then the text that the answer calls
/// `session_handle`, and the stream's node the first of its `streams`; what
/// was found out before stays.
pub proof fn law_answers_move_a_negotiation_on(
    before: Negotiation,
    code: u32,
    results: Seq<PortalEntry>,
    after: Negotiation,
)
    requires
        accepted(before, code, results, after),
    ensures
        code == 0,
        after.show_pointer == before.show_pointer,
        match before.stage {
            Stage::CreateSession => after.stage == Stage::SelectSources && after.node == before.node
                && exists|i: int|
                #[trigger] is_first(results, "session_handle"@, i) && (
                results[i].value matches PortalValue::Text(s) && s@ == after.session@),
            Stage::SelectSources => after.stage == Stage::Start && after.session@
                == before.session@ && after.node == before.node,
            Stage::Start => after.stage == Stage::OpenRemote && after.session@ == before.session@
                && exists|i: int|
                #[trigger] is_first(results, "streams"@, i) && (
                results[i].value matches PortalValue::Streams(nodes) && nodes@.len() > 0
                    && nodes@[0] == after.node),
            Stage::OpenRemote => false,
        },
{
    if before.stage == Stage::CreateSession {
        let i = choose|i: int| #[trigger]
            first_entry(results, "session_handle"@, i) && (results[i].value matches PortalValue::Text(
                s,
            ) && s@ == after.session@);
        assert(is_first(results, "session_handle"@, i));
    } else if before.stage == Stage::Start {
        let i = choose|i: int| #[trigger]
            first_entry(results, "streams"@, i) && (results[i].value matches PortalValue::Streams(
                nodes,
            ) && nodes@.len() > 0 && nodes@[0] == after.node);
        assert(is_first(results, "streams"@, i));
    }
}

/// A negotiation fails only for a reason: because the portal said so, or
/// because what it has to name is not there to be taken. An answer that
/// names what it has to never fails, nor does a good answer to the call that
/// has nothing to name.
pub proof fn law_good_answers_never_fail(
    stage: Stage,
    code: u32,
    results: Seq<PortalEntry>,
    error: PortalError,
    i: int,
)
    requires
        explains(stage, code, results, error),
    ensures
        error is Refused <==> code != 0,
        error matches PortalError::Refused(c) ==> c == code,
        code == 0 ==> stage == Stage::CreateSession || stage == Stage::Start,
        code == 0 && stage == Stage::CreateSession && is_first(results, "session_handle"@, i) ==> !(
        results[i].value matches PortalValue::Text(s) && is_object_path(s@)),
        code == 0 && stage == Stage::Start && is_first(results, "streams"@, i) ==> !(
        results[i].value matches PortalValue::Streams(nodes) && nodes@.len() > 0),
{
    reveal_strlit("session_handle");
    reveal_strlit("streams");
    assert("session_handle"@.len() == 14 && "streams"@.len() == 7);
    if code == 0 && stage == Stage::CreateSession && is_first(results, "session_handle"@, i) {
        assert(first_entry(results, "session_handle"@, i));
    }
    if code == 0 && stage == Stage::Start && is_first(results, "streams"@, i) {
        assert(first_entry(results, "streams"@, i));
    }
}

/// What goes wrong with a portal is told with the code, or the name of the
/// value, that it is about.
pub proof fn law_portal_errors_say_what_they_are_about(error: PortalError)
    ensures
        error matches PortalError::Refused(code) ==> mentions(
            error.text(),
            "response code "@ + decimal(code as nat),
        ),
        error matches PortalError::Missing(key) ==> mentions(
            error.text(),
            "is missing '"@ + key@ + "'"@,
        ),
        error matches PortalError::UnexpectedType(key) ==> mentions(
            error.text(),
            "'"@ + key@ + "' had an unexpected type"@,
        ),
{
    reveal_strlit("the portal request was cancelled or failed (response code ");
    reveal_strlit("response code ");
    reveal_strlit("portal response is missing '");
    reveal_strlit("is missing '");
    reveal_strlit("portal response's '");
    reveal_strlit("'");
    reveal_strlit("' had an unexpected type: incorrect type");
    reveal_strlit("' had an unexpected type");
    match error {
        PortalError::Refused(code) => {
            let part = "response code "@ + decimal(code as nat);
            let before = "the portal request was cancelled or failed (response code "@.take(44);
            assert(error.text() =~= before + part + ")"@);
            lemma_mentions(before, part, ")"@);
        },
        PortalError::Missing(key) => {
            let part = "is missing '"@ + key@ + "'"@;
            let before = "portal response is missing '"@.take(16);
            assert(error.text() =~= before + part + seq![]);
            lemma_mentions(before, part, seq![]);
        },
        PortalError::UnexpectedType(key) => {
            let part = "'"@ + key@ + "' had an unexpected type"@;
            let before = "portal response's '"@.take(18);
            let after = "' had an unexpected type: incorrect type"@.skip(24);
            assert(error.text() =~= before + part + after);
            lemma_mentions(before, part, after);
        },
        _ => {},
    }
}

/// What D-Bus takes for an object path: it begins with a slash, ends in one
/// only if that is all of it, has no two of them side by side, and is made of
/// letters, digits and underscores besides.
pub proof fn law_object_paths_are_made_of_elements(s: Seq<char>)
    ensures
        is_object_path(s) <==> {
            &&& s.len() > 0 && s[0] == '/'
            &&& s.last() == '/' ==> s.len() == 1
            &&& forall|i: int|
                0 <= i < s.len() ==> #[trigger] s[i] == '/' || s[i] == '_' || 'a' <= s[i] <= 'z'
                    || 'A' <= s[i] <= 'Z' || '0' <= s[i] <= '9'
            &&& forall|i: int| 0 < i < s.len() && #[trigger] s[i] == '/' ==> s[i - 1] != '/'
        },
{
    let literal = {
        &&& s.len() > 0 && s[0] == '/'
        &&& s.last() == '/' ==> s.len() == 1
        &&& forall|i: int|
            0 <= i < s.len() ==> #[trigger] s[i] == '/' || s[i] == '_' || 'a' <= s[i] <= 'z' || 'A'
                <= s[i] <= 'Z' || '0' <= s[i] <= '9'
        &&& forall|i: int| 0 < i < s.len() && #[trigger] s[i] == '/' ==> s[i - 1] != '/'
    };
    if is_object_path(s) {
        assert forall|i: int| 0 < i < s.len() && #[trigger] s[i] == '/' implies s[i - 1] != '/' by {
            let j = i - 1;
            if s[j] == '/' {
                assert(s[i] != '/');
            }
        }
    }
    if literal {
        assert forall|i: int, j: int|
            0 <= i && j == i + 1 && j < s.len() && #[trigger] s[i] == '/' implies #[trigger] s[j]
            != '/' by {
            if s[j] == '/' {
                assert(s[j - 1] != '/');
            }
        }
    }
}

/// The colons in front of a bus name, however many, do not count.
pub proof fn law_colons_in_front_do_not_count(name: Seq<char>, token: Seq<char>)
    ensures
        request_object(seq![':'] + name, token) == request_object(name, token),
{
    assert((seq![':'] + name).skip(1) =~= name);
}

/// An answer fails for its own reason: what is said to be missing is not
/// there, what is said to be of another type is, a handle that is said to be
/// invalid cannot be one, and where no streams are said to be chosen none
/// are.
pub proof fn law_answers_fail_for_their_own_reason(
    stage: Stage,
    code: u32,
    results: Seq<PortalEntry>,
    error: PortalError,
    i: int,
)
    requires
        explains(stage, code, results, error),
        0 <= i < results.len(),
    ensures
        error matches PortalError::Missing(key) ==> results[i].key@ != key@ && key@ == (if stage
            == Stage::CreateSession {
            "session_handle"@
        } else {
            "streams"@
        }),
        error matches PortalError::UnexpectedType(key) ==> key@ == (if stage
            == Stage::CreateSession {
            "session_handle"@
        } else {
            "streams"@
        }) && (is_first(results, key@, i) ==> if stage == Stage::CreateSession {
            !(results[i].value is Text)
        } else {
            !(results[i].value is Streams)
        }),
        error is InvalidSessionHandle ==> stage == Stage::CreateSession && (is_first(
            results,
            "session_handle"@,
            i,
        ) ==> (results[i].value matches PortalValue::Text(s) && !is_object_path(s@))),
        error is NoStreams ==> stage == Stage::Start && (is_first(results, "streams"@, i) ==> (
        results[i].value matches PortalValue::Streams(nodes) && nodes@.len() == 0)),
        !(error is InvalidRequestPath),
{
    if error is UnexpectedType {
        let key = error->UnexpectedType_0;
        if is_first(results, key@, i) {
            assert(first_entry(results, key@, i));
        }
    }
    if is_first(results, "session_handle"@, i) {
        assert(first_entry(results, "session_handle"@, i));
    }
    if is_first(results, "streams"@, i) {
        assert(first_entry(results, "streams"@, i));
    }
}

/// What failed is told by the call that did.
pub proof fn law_failed_calls_are_named(stage: Stage)
    ensures
        stage == Stage::CreateSession ==> stage.failure() == "CreateSession failed"@,
        stage == Stage::SelectSources ==> stage.failure() == "SelectSources failed"@,
        stage == Stage::Start ==> stage.failure()
            == "Start failed (did the picker dialog get cancelled?)"@,
        stage == Stage::OpenRemote ==> stage.failure() == "OpenPipeWireRemote failed"@,
{
}

/// A value is looked up by its name: the first of that name is found, and
/// none is where there is none of that name.
pub proof fn law_values_are_found_by_name(results: Seq<PortalEntry>, key: Seq<char>, i: int)
    ensures
        first_entry(results, key, i) <==> is_first(results, key, i),
        lacks(results, key) <==> forall|k: int|
            0 <= k < results.len() ==> (#[trigger] results[k]).key@ != key,
{
}

/// Past its first call, a negotiation has a handle that can be called.
pub proof fn law_sessions_have_handles(negotiation: Negotiation)
    ensures
        negotiation.well_formed() <==> negotiation.stage == Stage::CreateSession || is_object_path(
            negotiation.session@,
        ),
{
}

} // verus!
