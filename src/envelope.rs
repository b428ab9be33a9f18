//! The envelope codec: commands as compact JSON objects for the peer, and
//! replies checked for the identity that routes them.
//!
//! An outbound envelope is `{"uuid":..,"command":..}` followed by the one field
//! that the command carries, if any. Fields that a command leaves unset are
//! omitted from the text, never written as `null`.
use crate::json::{ExtensionRequest, ExtensionResponse, Tab, TabQuery, Theme};
use vstd::prelude::*;
use vstd::string::StringExecFns;
use vstd::utf8::encode_utf8;

verus! {

/// The JSON string literal for a text: quoted, with the characters that JSON
/// requires escaped.
pub uninterp spec fn json_quoted(s: Seq<char>) -> Seq<char>;

/// A character that a JSON string literal holds as it is: no quote, no
/// backslash, no control character below U+0020.
pub open spec fn is_plain_char(c: char) -> bool {
    c as u32 >= 0x20 && c != '"' && c != '\\'
}

/// No character of `s` needs an escape.
pub open spec fn is_plain_text(s: Seq<char>) -> bool {
    forall|i: int| 0 <= i < s.len() ==> is_plain_char(#[trigger] s[i])
}

/// The JSON string literal for `s`: the text itself between quotes when no
/// character needs an escape, otherwise the encoder's escaped form.
pub open spec fn string_literal(s: Seq<char>) -> Seq<char> {
    if is_plain_text(s) {
        seq!['"'] + s + seq!['"']
    } else {
        json_quoted(s)
    }
}

/// Relies on `serde_json::to_string` on a string slice: the JSON string literal
/// for `s`, where characters that need no escape stand as they are between
/// quotes. Serializing a `str` into a `Vec` reports no error, so the fallback
/// is never taken.
#[verifier::external_body]
fn json_string(s: &str) -> (r: String)
    ensures
        r@ == json_quoted(s@),
        is_plain_text(s@) ==> r@ == seq!['"'] + s@ + seq!['"'],
{
    serde_json::to_string(s).unwrap_or_default()
}

/// A command for the peer.
#[derive(Clone, Debug, PartialEq)]
pub enum RequestType {
    ListThemes,
    SetTheme(String),
    ListTabs(TabQuery),
    SwapTab(u16),
}

/// Why a command could not be encoded. Kept in the signature of
/// `RequestType::serialize` for callers that handle an encoder fault; every
/// command of this library encodes, so it is never returned.
#[derive(Clone, Copy, Debug, PartialEq, Eq, Structural)]
pub enum EncodeError {
    Serialization,
}

/// Why an inbound message was discarded.
#[derive(Clone, Copy, Debug, PartialEq, Eq, Structural)]
pub enum DecodeError {
    /// Not valid structured text.
    Malformed,
    /// Structured text without a `uuid` field.
    MissingIdentity,
}

/// The fields of an inbound message as parsed, before its identity is checked.
#[derive(Clone, Debug, PartialEq)]
pub struct ReplyFields {
    pub uuid: Option<String>,
    pub themes: Option<Vec<Theme>>,
    pub success: Option<bool>,
    pub tabs: Option<Vec<Tab>>,
}

/// `"key":value`.
pub open spec fn member(key: Seq<char>, value: Seq<char>) -> Seq<char> {
    seq!['"'] + key + seq!['"', ':'] + value
}

/// The members separated by commas.
pub open spec fn join(ms: Seq<Seq<char>>) -> Seq<char>
    decreases ms.len(),
{
    if ms.len() == 0 {
        Seq::empty()
    } else if ms.len() == 1 {
        ms[0]
    } else {
        join(ms.drop_last()) + seq![','] + ms.last()
    }
}

/// A JSON object with the given members, in order.
pub open spec fn object_text(ms: Seq<Seq<char>>) -> Seq<char> {
    seq!['{'] + join(ms) + seq!['}']
}

pub open spec fn bool_text(b: bool) -> Seq<char> {
    if b {
        seq!['t', 'r', 'u', 'e']
    } else {
        seq!['f', 'a', 'l', 's', 'e']
    }
}

pub open spec fn digit_char(d: nat) -> char {
    seq!['0', '1', '2', '3', '4', '5', '6', '7', '8', '9'][d as int]
}

/// Decimal digits of `n`, without leading zeros.
pub open spec fn decimal(n: nat) -> Seq<char>
    decreases n,
{
    if n < 10 {
        seq![digit_char(n)]
    } else {
        decimal(n / 10).push(digit_char(n % 10))
    }
}

pub open spec fn opt_bool_member(key: Seq<char>, o: Option<bool>) -> Seq<Seq<char>> {
    match o {
        Some(b) => seq![member(key, bool_text(b))],
        None => Seq::empty(),
    }
}

pub open spec fn opt_u16_member(key: Seq<char>, o: Option<u16>) -> Seq<Seq<char>> {
    match o {
        Some(n) => seq![member(key, decimal(n as nat))],
        None => Seq::empty(),
    }
}

pub open spec fn opt_str_member(key: Seq<char>, o: Option<String>) -> Seq<Seq<char>> {
    match o {
        Some(s) => seq![member(key, string_literal(s@))],
        None => Seq::empty(),
    }
}

/// The members of a tab query: one for each field that is set, in field order.
pub open spec fn query_members(q: TabQuery) -> Seq<Seq<char>> {
    opt_bool_member("active"@, q.active) + opt_bool_member("attention"@, q.attention)
        + opt_bool_member("audible"@, q.audible) + opt_bool_member(
        "currentWindow"@,
        q.current_window,
    ) + opt_u16_member("index"@, q.index) + opt_bool_member("muted"@, q.muted)
        + opt_bool_member("pinned"@, q.pinned) + opt_str_member("title"@, q.title)
        + opt_str_member("url"@, q.url) + opt_str_member("windowId"@, q.window_id)
        + opt_str_member("windowType"@, q.window_type)
}

/// The command tag that the peer dispatches on.
pub open spec fn command_tag(c: RequestType) -> Seq<char> {
    match c {
        RequestType::ListThemes => "list_themes"@,
        RequestType::SetTheme(_) => "set_theme"@,
        RequestType::ListTabs(_) => "list_tabs"@,
        RequestType::SwapTab(_) => "select_tab"@,
    }
}

/// The members that the command carries beside its identity and tag.
pub open spec fn payload_members(c: RequestType) -> Seq<Seq<char>> {
    match c {
        RequestType::ListThemes => Seq::empty(),
        RequestType::SetTheme(t) => seq![member("theme_id"@, string_literal(t@))],
        RequestType::ListTabs(q) => seq![member("query"@, object_text(query_members(q)))],
        RequestType::SwapTab(i) => seq![member("index"@, decimal(i as nat))],
    }
}

/// The members of the envelope for command `c` under identity `uuid`.
pub open spec fn envelope_members(c: RequestType, uuid: Seq<char>) -> Seq<Seq<char>> {
    seq![member("uuid"@, string_literal(uuid)), member("command"@, string_literal(command_tag(c)))]
        + payload_members(c)
}

/// The text of the envelope for command `c` under identity `uuid`.
pub open spec fn envelope_text(c: RequestType, uuid: Seq<char>) -> Seq<char> {
    object_text(envelope_members(c, uuid))
}

/// `r` is the request that carries command `c` under identity `uuid`: the tag
/// names the command, its own field is set, and every other field is unset.
pub open spec fn is_request_for(r: ExtensionRequest, c: RequestType, uuid: Seq<char>) -> bool {
    &&& r.uuid@ == uuid
    &&& r.command@ == command_tag(c)
    &&& match c {
        RequestType::ListThemes => r.theme_id is None && r.query is None && r.index is None,
        RequestType::SetTheme(t) => r.theme_id == Some(t) && r.query is None && r.index is None,
        RequestType::ListTabs(q) => r.theme_id is None && r.query == Some(q) && r.index is None,
        RequestType::SwapTab(i) => r.theme_id is None && r.query is None && r.index == Some(i),
    }
}

/// The command that a request carries, read the way the peer reads it: by its
/// tag, and from the one field that the tag calls for.
pub open spec fn command_of(r: ExtensionRequest) -> Option<RequestType> {
    if r.command@ == "list_themes"@ {
        Some(RequestType::ListThemes)
    } else if r.command@ == "set_theme"@ {
        match r.theme_id {
            Some(t) => Some(RequestType::SetTheme(t)),
            None => None,
        }
    } else if r.command@ == "list_tabs"@ {
        match r.query {
            Some(q) => Some(RequestType::ListTabs(q)),
            None => None,
        }
    } else if r.command@ == "select_tab"@ {
        match r.index {
            Some(i) => Some(RequestType::SwapTab(i)),
            None => None,
        }
    } else {
        None
    }
}

/// Builds the text of a JSON object member by member.
struct ObjectWriter {
    text: String,
    empty: bool,
    members: Ghost<Seq<Seq<char>>>,
}

impl ObjectWriter {
    spec fn inv(&self) -> bool {
        &&& self.text@ == seq!['{'] + join(self.members@)
        &&& self.empty == (self.members@.len() == 0)
    }

    fn new() -> (r: Self)
        ensures
            r.inv(),
            r.members@ == Seq::<Seq<char>>::empty(),
    {
        proof {
            reveal_strlit("{");
        }
        let w = ObjectWriter { text: "{".to_owned(), empty: true, members: Ghost(Seq::empty()) };
        assert(w.text@ =~= seq!['{'] + join(w.members@));
        w
    }

    fn push_member(&mut self, key: &str, value: &str)
        requires
            old(self).inv(),
        ensures
            final(self).inv(),
            final(self).members@ == old(self).members@.push(member(key@, value@)),
    {
        proof {
            reveal_strlit(",");
            reveal_strlit("\"");
            reveal_strlit("\":");
        }
        let ghost old_members = self.members@;
        let ghost m = member(key@, value@);
        let ghost ms = old_members.push(m);
        assert(ms.drop_last() =~= old_members);
        if !self.empty {
            self.text.append(",");
        }
        self.text.append("\"");
        self.text.append(key);
        self.text.append("\":");
        self.text.append(value);
        self.members = Ghost(ms);
        self.empty = false;
        assert(self.text@ =~= seq!['{'] + join(ms));
    }

    fn finish(self) -> (r: String)
        requires
            self.inv(),
        ensures
            r@ == object_text(self.members@),
    {
        proof {
            reveal_strlit("}");
        }
        let mut text = self.text;
        text.append("}");
        text
    }

    fn push_opt_bool(&mut self, key: &str, o: Option<bool>)
        requires
            old(self).inv(),
        ensures
            final(self).inv(),
            final(self).members@ == old(self).members@ + opt_bool_member(key@, o),
    {
        proof {
            reveal_strlit("true");
            reveal_strlit("false");
        }
        let ghost before = self.members@;
        match o {
            Some(b) => {
                let v = if b {
                    "true"
                } else {
                    "false"
                };
                assert(v@ =~= bool_text(b));
                self.push_member(key, v);
            },
            None => {},
        }
        assert(self.members@ =~= before + opt_bool_member(key@, o));
    }

    fn push_opt_u16(&mut self, key: &str, o: Option<u16>)
        requires
            old(self).inv(),
        ensures
            final(self).inv(),
            final(self).members@ == old(self).members@ + opt_u16_member(key@, o),
    {
        let ghost before = self.members@;
        match o {
            Some(n) => {
                let d = decimal_text(n);
                self.push_member(key, d.as_str());
            },
            None => {},
        }
        assert(self.members@ =~= before + opt_u16_member(key@, o));
    }

    fn push_opt_str(&mut self, key: &str, o: &Option<String>)
        requires
            old(self).inv(),
        ensures
            final(self).inv(),
            final(self).members@ == old(self).members@ + opt_str_member(key@, *o),
    {
        let ghost before = self.members@;
        match o {
            Some(s) => {
                let q = json_string(s.as_str());
                self.push_member(key, q.as_str());
            },
            None => {},
        }
        assert(self.members@ =~= before + opt_str_member(key@, *o));
    }
}

fn digit_str(d: u16) -> (r: &'static str)
    requires
        d < 10,
    ensures
        r@ == seq![digit_char(d as nat)],
{
    proof {
        reveal_strlit("0");
        reveal_strlit("1");
        reveal_strlit("2");
        reveal_strlit("3");
        reveal_strlit("4");
        reveal_strlit("5");
        reveal_strlit("6");
        reveal_strlit("7");
        reveal_strlit("8");
        reveal_strlit("9");
    }
    let r = if d == 0 {
        "0"
    } else if d == 1 {
        "1"
    } else if d == 2 {
        "2"
    } else if d == 3 {
        "3"
    } else if d == 4 {
        "4"
    } else if d == 5 {
        "5"
    } else if d == 6 {
        "6"
    } else if d == 7 {
        "7"
    } else if d == 8 {
        "8"
    } else {
        "9"
    };
    assert(r@ =~= seq![digit_char(d as nat)]);
    r
}

/// The decimal text of `n`.
pub fn decimal_text(n: u16) -> (r: String)
    ensures
        r@ == decimal(n as nat),
    decreases n,
{
    if n < 10 {
        digit_str(n).to_owned()
    } else {
        let mut s = decimal_text(n / 10);
        s.append(digit_str(n % 10));
        s
    }
}

/// The JSON object for a tab query: one member per field that is set.
pub fn query_text(q: &TabQuery) -> (r: String)
    ensures
        r@ == object_text(query_members(*q)),
{
    let mut w = ObjectWriter::new();
    w.push_opt_bool("active", q.active);
    assert(w.members@ =~= opt_bool_member("active"@, q.active));
    w.push_opt_bool("attention", q.attention);
    w.push_opt_bool("audible", q.audible);
    w.push_opt_bool("currentWindow", q.current_window);
    w.push_opt_u16("index", q.index);
    w.push_opt_bool("muted", q.muted);
    w.push_opt_bool("pinned", q.pinned);
    w.push_opt_str("title", &q.title);
    w.push_opt_str("url", &q.url);
    w.push_opt_str("windowId", &q.window_id);
    w.push_opt_str("windowType", &q.window_type);
    w.finish()
}

impl RequestType {
    /// The envelope for this command under identity `uuid`, as UTF-8 bytes.
    /// Every command encodes: the error is never returned.
    pub fn serialize(&self, uuid: String) -> (r: Result<Vec<u8>, EncodeError>)
        ensures
            r matches Ok(b) && b@ == encode_utf8(envelope_text(*self, uuid@)),
    {
        let mut w = ObjectWriter::new();
        let u = json_string(uuid.as_str());
        w.push_member("uuid", u.as_str());
        let tag = match self {
            RequestType::ListThemes => "list_themes",
            RequestType::SetTheme(_) => "set_theme",
            RequestType::ListTabs(_) => "list_tabs",
            RequestType::SwapTab(_) => "select_tab",
        };
        let c = json_string(tag);
        w.push_member("command", c.as_str());
        match self {
            RequestType::ListThemes => {},
            RequestType::SetTheme(t) => {
                let q = json_string(t.as_str());
                w.push_member("theme_id", q.as_str());
            },
            RequestType::ListTabs(q) => {
                let t = query_text(q);
                w.push_member("query", t.as_str());
            },
            RequestType::SwapTab(i) => {
                let d = decimal_text(*i);
                w.push_member("index", d.as_str());
            },
        }
        assert(w.members@ =~= envelope_members(*self, uuid@));
        let text = w.finish();
        Ok(vstd::slice::slice_to_vec(text.as_str().as_bytes()))
    }

    /// The request that carries this command under identity `uuid`.
    pub fn into_request(self, uuid: String) -> (r: ExtensionRequest)
        ensures
            is_request_for(r, self, uuid@),
    {
        let command = match &self {
            RequestType::ListThemes => "list_themes",
            RequestType::SetTheme(_) => "set_theme",
            RequestType::ListTabs(_) => "list_tabs",
            RequestType::SwapTab(_) => "select_tab",
        }.to_owned();
        match self {
            RequestType::ListThemes => ExtensionRequest {
                uuid,
                command,
                theme_id: None,
                query: None,
                index: None,
            },
            RequestType::SetTheme(t) => ExtensionRequest {
                uuid,
                command,
                theme_id: Some(t),
                query: None,
                index: None,
            },
            RequestType::ListTabs(q) => ExtensionRequest {
                uuid,
                command,
                theme_id: None,
                query: Some(q),
                index: None,
            },
            RequestType::SwapTab(i) => ExtensionRequest {
                uuid,
                command,
                theme_id: None,
                query: None,
                index: Some(i),
            },
        }
    }
}

fn is_tag(s: &String, tag: &str) -> (r: bool)
    ensures
        r == (s@ == tag@),
{
    *s == tag.to_owned()
}

impl ExtensionRequest {
    /// The command this request carries, read by its tag; `None` for an unknown
    /// tag or when the field that the tag calls for is unset.
    pub fn into_command(self) -> (r: Option<RequestType>)
        ensures
            r == command_of(self),
    {
        if is_tag(&self.command, "list_themes") {
            Some(RequestType::ListThemes)
        } else if is_tag(&self.command, "set_theme") {
            match self.theme_id {
                Some(t) => Some(RequestType::SetTheme(t)),
                None => None,
            }
        } else if is_tag(&self.command, "list_tabs") {
            match self.query {
                Some(q) => Some(RequestType::ListTabs(q)),
                None => None,
            }
        } else if is_tag(&self.command, "select_tab") {
            match self.index {
                Some(i) => Some(RequestType::SwapTab(i)),
                None => None,
            }
        } else {
            None
        }
    }
}

/// Reading back the request built for a command, as the peer does, gives that
/// command and identity again, with every populated field recovered.
pub proof fn lemma_request_round_trip(r: ExtensionRequest, c: RequestType, uuid: Seq<char>)
    requires
        is_request_for(r, c, uuid),
    ensures
        command_of(r) == Some(c),
        r.uuid@ == uuid,
{
    reveal_strlit("list_themes");
    reveal_strlit("set_theme");
    reveal_strlit("list_tabs");
    reveal_strlit("select_tab");
    assert("set_theme"@.len() != "list_themes"@.len());
    assert("list_tabs"@[0] != "set_theme"@[0]);
    assert("select_tab"@.len() != "list_themes"@.len());
    assert("select_tab"@.len() != "set_theme"@.len());
    assert("select_tab"@.len() != "list_tabs"@.len());
}

/// The envelope's members: identity and tag, then exactly one member when the
/// command carries a field and none when it carries nothing; a tab query
/// contributes one member for each of its fields that is set.
pub proof fn lemma_envelope_shape(c: RequestType, uuid: Seq<char>)
    ensures
        envelope_members(c, uuid).len() == if c is ListThemes {
            2int
        } else {
            3int
        },
        c matches RequestType::ListTabs(q) ==> query_members(q).len() == count_set(q),
{
}

/// How many fields of a tab query are set.
pub open spec fn count_set(q: TabQuery) -> nat {
    (if q.active is Some { 1nat } else { 0 }) + (if q.attention is Some { 1nat } else { 0 })
        + (if q.audible is Some { 1nat } else { 0 }) + (if q.current_window is Some {
        1nat
    } else {
        0
    }) + (if q.index is Some { 1nat } else { 0 }) + (if q.muted is Some { 1nat } else { 0 })
        + (if q.pinned is Some { 1nat } else { 0 }) + (if q.title is Some { 1nat } else { 0 })
        + (if q.url is Some { 1nat } else { 0 }) + (if q.window_id is Some { 1nat } else { 0 })
        + (if q.window_type is Some { 1nat } else { 0 })
}

/// Checks the identity of a parsed inbound message. `None` stands for text that
/// did not parse.
pub fn decode_reply(parsed: Option<ReplyFields>) -> (r: Result<ExtensionResponse, DecodeError>)
    ensures
        match parsed {
            None => r == Err::<ExtensionResponse, DecodeError>(DecodeError::Malformed),
            Some(f) => match f.uuid {
                None => r == Err::<ExtensionResponse, DecodeError>(DecodeError::MissingIdentity),
                Some(u) => r == Ok::<ExtensionResponse, DecodeError>(
                    (ExtensionResponse { uuid: u, themes: f.themes, success: f.success, tabs: f.tabs }),
                ),
            },
        },
{
    match parsed {
        None => Err(DecodeError::Malformed),
        Some(f) => match f.uuid {
            None => Err(DecodeError::MissingIdentity),
            Some(uuid) => Ok(
                ExtensionResponse { uuid, themes: f.themes, success: f.success, tabs: f.tabs },
            ),
        },
    }
}

} // verus!
