//! The JSON text of the envelopes: writing an envelope as an object with its
//! members in order, and reading an inbound frame into a command.

use vstd::prelude::*;
use crate::json::{text_of, ClientEnvelope, HOSClientReq, HOSServerReq, ServerEnvelope};

verus! {

/// What a member of a JSON object holds, as far as the protocol goes: null,
/// a string, a status code (which only outbound envelopes carry), or
/// anything else, which is not kept.
pub enum Member {
    Null,
    Text(Seq<char>),
    Number(u16),
    Other,
}

/// The executable form of [`Member`].
#[derive(Debug, PartialEq, Clone)]
pub enum Scalar {
    Null,
    Text(String),
    Number(u16),
    Other,
}

impl View for Scalar {
    type V = Member;

    open spec fn view(&self) -> Member {
        match self {
            Scalar::Null => Member::Null,
            Scalar::Text(s) => Member::Text(s@),
            Scalar::Number(n) => Member::Number(*n),
            Scalar::Other => Member::Other,
        }
    }
}

/// The members of an object, each a key with what it holds, in order.
pub type Members = Seq<(Seq<char>, Member)>;

/// The view of a vector of members.
pub open spec fn members_of(v: Seq<(String, Scalar)>) -> Members {
    v.map_values(|p: (String, Scalar)| (p.0@, p.1@))
}

/// The JSON string literal that stands for `s`: quoted and escaped.
pub uninterp spec fn json_string(s: Seq<char>) -> Seq<char>;

/// Calls `serde_json::to_string` on a string slice. The result is the JSON
/// string literal of `s`, which depends on `s` alone; writing a string into
/// memory does not fail.
#[verifier::external_body]
fn quote(s: &str) -> (r: String)
    ensures
        r@ == json_string(s@),
{
    serde_json::to_string(s).unwrap()
}

/// The decimal digit `d`, as text.
pub open spec fn digit(d: nat) -> Seq<char> {
    if d == 0 {
        "0"@
    } else if d == 1 {
        "1"@
    } else if d == 2 {
        "2"@
    } else if d == 3 {
        "3"@
    } else if d == 4 {
        "4"@
    } else if d == 5 {
        "5"@
    } else if d == 6 {
        "6"@
    } else if d == 7 {
        "7"@
    } else if d == 8 {
        "8"@
    } else {
        "9"@
    }
}

/// The decimal numeral of `n`, without sign or leading zeros.
pub open spec fn decimal(n: nat) -> Seq<char>
    decreases n,
{
    if n < 10 {
        digit(n)
    } else {
        decimal(n / 10) + digit(n % 10)
    }
}

fn digit_text(d: u16) -> (r: &'static str)
    requires
        d < 10,
    ensures
        r@ == digit(d as nat),
{
    if d == 0 {
        "0"
    } else if d == 1 {
        "1"
    } else if d == 2 {
        "2"
    } else if d == 3 {
        "3"
    } else if d == 4 {
        "4"
    } else if d == 5 {
        "5"
    } else if d == 6 {
        "6"
    } else if d == 7 {
        "7"
    } else if d == 8 {
        "8"
    } else {
        "9"
    }
}

/// Writes `n` as a decimal numeral.
pub fn decimal_text(n: u16) -> (r: String)
    ensures
        r@ == decimal(n as nat),
    decreases n,
{
    if n < 10 {
        String::from_str(digit_text(n))
    } else {
        let mut s = decimal_text(n / 10);
        s.append(digit_text(n % 10));
        s
    }
}

/// The text of what a member holds. A member that was not kept is not
/// written: callers leave it out.
pub open spec fn value_text(m: Member) -> Seq<char> {
    match m {
        Member::Text(s) => json_string(s),
        Member::Number(n) => decimal(n as nat),
        _ => "null"@,
    }
}

/// The text of one member: the key as a string literal, a colon, the value.
pub open spec fn member_text(m: (Seq<char>, Member)) -> Seq<char> {
    json_string(m.0) + ":"@ + value_text(m.1)
}

/// The members' texts with a comma between neighbours.
pub open spec fn members_text(ms: Members) -> Seq<char>
    decreases ms.len(),
{
    if ms.len() == 0 {
        Seq::empty()
    } else if ms.len() == 1 {
        member_text(ms[0])
    } else {
        members_text(ms.drop_last()) + ","@ + member_text(ms.last())
    }
}

/// The text of an object: its members between braces.
pub open spec fn object_text(ms: Members) -> Seq<char> {
    "{"@ + members_text(ms) + "}"@
}

/// Whether every member can be written: none of them is [`Member::Other`].
pub open spec fn writable(ms: Members) -> bool {
    forall|i: int| 0 <= i < ms.len() ==> !(#[trigger] ms[i].1 is Other)
}

fn write_value(out: &mut String, value: &Scalar)
    requires
        !(value@ is Other),
    ensures
        final(out)@ == old(out)@ + value_text(value@),
{
    match value {
        Scalar::Text(s) => {
            let q = quote(s.as_str());
            out.append(q.as_str());
        },
        Scalar::Number(n) => {
            let d = decimal_text(*n);
            out.append(d.as_str());
        },
        _ => {
            out.append("null");
        },
    }
}

/// Writes an object with the given members, in their order.
fn write_object(members: &Vec<(String, Scalar)>) -> (r: String)
    requires
        writable(members_of(members@)),
    ensures
        r@ == object_text(members_of(members@)),
{
    let ghost ms = members_of(members@);
    let mut out = String::from_str("{");
    let mut i: usize = 0;
    while i < members.len()
        invariant
            i <= members.len(),
            ms == members_of(members@),
            writable(ms),
            out@ == "{"@ + members_text(ms.take(i as int)),
        decreases members.len() - i,
    {
        if i > 0 {
            out.append(",");
        }
        let key = quote(members[i].0.as_str());
        out.append(key.as_str());
        out.append(":");
        assert(!(ms[i as int].1 is Other));
        write_value(&mut out, &members[i].1);
        proof {
            let next = ms.take(i + 1);
            assert(next.drop_last() == ms.take(i as int));
            assert(next.last() == ms[i as int]);
            assert(out@ =~= "{"@ + members_text(next));
        }
        i += 1;
    }
    proof {
        assert(ms.take(i as int) == ms);
    }
    out.append("}");
    out
}

/// The member `key` with the text `value`, or no member where there is none.
pub open spec fn text_member(key: Seq<char>, value: Option<Seq<char>>) -> Members {
    match value {
        Some(v) => seq![(key, Member::Text(v))],
        None => Seq::empty(),
    }
}

/// The member `key` with the number `value`, or no member where there is none.
pub open spec fn number_member(key: Seq<char>, value: Option<u16>) -> Members {
    match value {
        Some(n) => seq![(key, Member::Number(n))],
        None => Seq::empty(),
    }
}

/// The members that an outbound envelope is written with: the kind always,
/// every other field only where it is present.
pub open spec fn client_members(e: ClientEnvelope) -> Members {
    seq![("type"@, Member::Text(e.kind))] + text_member("id"@, e.id) + text_member(
        "code"@,
        e.code,
    ) + number_member("status"@, e.status) + text_member("content"@, e.content)
}

/// The members that an inbound envelope is written with.
pub open spec fn server_members(e: ServerEnvelope) -> Members {
    seq![
        ("type"@, Member::Text(e.kind)),
        ("method"@, Member::Text(e.method)),
        ("url"@, Member::Text(e.url)),
    ] + text_member("id"@, e.id)
}

/// The text frame of an outbound envelope.
pub open spec fn client_text(e: ClientEnvelope) -> Seq<char> {
    object_text(client_members(e))
}

/// The text frame of an inbound envelope.
pub open spec fn server_text(e: ServerEnvelope) -> Seq<char> {
    object_text(server_members(e))
}

/// The keys of the members, in order.
pub open spec fn keys_of(ms: Members) -> Seq<Seq<char>> {
    ms.map_values(|m: (Seq<char>, Member)| m.0)
}

fn push_text(members: &mut Vec<(String, Scalar)>, key: &str, value: &Option<String>)
    ensures
        members_of(final(members)@) == members_of(old(members)@) + text_member(
            key@,
            text_of(*value),
        ),
{
    match value {
        Some(s) => {
            members.push((String::from_str(key), Scalar::Text(s.clone())));
            assert(members_of(members@) =~= members_of(old(members)@) + text_member(
                key@,
                text_of(*value),
            ));
        },
        None => {
            assert(members_of(members@) =~= members_of(old(members)@) + text_member(
                key@,
                text_of(*value),
            ));
        },
    }
}

fn push_number(members: &mut Vec<(String, Scalar)>, key: &str, value: Option<u16>)
    ensures
        members_of(final(members)@) == members_of(old(members)@) + number_member(key@, value),
{
    match value {
        Some(n) => {
            members.push((String::from_str(key), Scalar::Number(n)));
            assert(members_of(members@) =~= members_of(old(members)@) + number_member(
                key@,
                value,
            ));
        },
        None => {
            assert(members_of(members@) =~= members_of(old(members)@) + number_member(
                key@,
                value,
            ));
        },
    }
}

/// The members of an outbound envelope can all be written.
pub proof fn lemma_client_members_writable(e: ClientEnvelope)
    ensures
        writable(client_members(e)),
{
}

/// An outbound envelope is written without a null: every member holds a
/// string or a number, so a field that is absent is left out.
pub proof fn lemma_client_members_hold_values(e: ClientEnvelope)
    ensures
        forall|i: int|
            0 <= i < client_members(e).len() ==> (#[trigger] client_members(e)[i].1 is Text
                || client_members(e)[i].1 is Number),
{
}

/// The members of an inbound envelope can all be written.
pub proof fn lemma_server_members_writable(e: ServerEnvelope)
    ensures
        writable(server_members(e)),
{
}

/// Writes an outbound envelope as a text frame: an object that holds `type`,
/// then `id`, `code`, `status` and `content`, each only where it is present.
pub fn encode_client(req: &HOSClientReq) -> (r: String)
    ensures
        r@ == client_text(req@),
{
    let mut members: Vec<(String, Scalar)> = Vec::new();
    members.push((String::from_str("type"), Scalar::Text(req._type.clone())));
    assert(members_of(members@) =~= seq![("type"@, Member::Text(req@.kind))]);
    push_text(&mut members, "id", &req.id);
    push_text(&mut members, "code", &req.code);
    push_number(&mut members, "status", req.status);
    push_text(&mut members, "content", &req.content);
    proof {
        lemma_client_members_writable(req@);
    }
    write_object(&members)
}

/// Writes an inbound envelope as a text frame: an object that holds `type`,
/// `method`, `url` and, where it is present, `id`.
pub fn encode_server(req: &HOSServerReq) -> (r: String)
    ensures
        r@ == server_text(req@),
{
    let mut members: Vec<(String, Scalar)> = Vec::new();
    members.push((String::from_str("type"), Scalar::Text(req._type.clone())));
    members.push((String::from_str("method"), Scalar::Text(req.method.clone())));
    members.push((String::from_str("url"), Scalar::Text(req.url.clone())));
    assert(members_of(members@) =~= seq![
        ("type"@, Member::Text(req@.kind)),
        ("method"@, Member::Text(req@.method)),
        ("url"@, Member::Text(req@.url)),
    ]);
    push_text(&mut members, "id", &req.id);
    proof {
        lemma_server_members_writable(req@);
    }
    write_object(&members)
}

/// A pairing envelope is written with `type` and, where a token is present,
/// `code`, and with no other key.
pub proof fn lemma_pairing_keys(e: ClientEnvelope)
    requires
        e.is_pairing(),
    ensures
        client_members(e) == seq![("type"@, Member::Text("pairing"@))] + text_member(
            "code"@,
            e.code,
        ),
        e.code is Some ==> keys_of(client_members(e)) == seq!["type"@, "code"@],
        e.code is None ==> keys_of(client_members(e)) == seq!["type"@],
{
    assert(client_members(e) =~= seq![("type"@, Member::Text("pairing"@))] + text_member(
        "code"@,
        e.code,
    ));
    assert(e.code is Some ==> keys_of(client_members(e)) =~= seq!["type"@, "code"@]);
    assert(e.code is None ==> keys_of(client_members(e)) =~= seq!["type"@]);
}

/// The text frame of a pairing envelope, written out: the kind, then the
/// token where there is one, and nothing else.
pub proof fn lemma_pairing_text(e: ClientEnvelope)
    requires
        e.is_pairing(),
    ensures
        e.code is None ==> client_text(e) == "{"@ + (json_string("type"@) + ":"@ + json_string(
            "pairing"@,
        )) + "}"@,
        e.code is Some ==> client_text(e) == "{"@ + ((json_string("type"@) + ":"@ + json_string(
            "pairing"@,
        )) + ","@ + (json_string("code"@) + ":"@ + json_string(e.code->0))) + "}"@,
{
    lemma_pairing_keys(e);
    let kind = ("type"@, Member::Text("pairing"@));
    match e.code {
        Some(c) => {
            let ms = seq![kind, ("code"@, Member::Text(c))];
            assert(client_members(e) =~= ms);
            assert(ms.drop_last() =~= seq![kind]);
            assert(members_text(seq![kind]) == member_text(kind));
            assert(members_text(ms) == members_text(ms.drop_last()) + ","@ + member_text(
                ms.last(),
            ));
        },
        None => {
            assert(client_members(e) =~= seq![kind]);
            assert(members_text(seq![kind]) == member_text(kind));
        },
    }
}

/// A response envelope with a correlation id is written with `type`, `id`,
/// `status` and `content`, and with `code` between `id` and `status` exactly
/// where a token is present.
pub proof fn lemma_response_keys(e: ClientEnvelope)
    requires
        e.is_response(),
        e.id is Some,
    ensures
        e.code is Some ==> client_members(e) == seq![
            ("type"@, Member::Text("response"@)),
            ("id"@, Member::Text(e.id->0)),
            ("code"@, Member::Text(e.code->0)),
            ("status"@, Member::Number(e.status->0)),
            ("content"@, Member::Text(e.content->0)),
        ],
        e.code is None ==> client_members(e) == seq![
            ("type"@, Member::Text("response"@)),
            ("id"@, Member::Text(e.id->0)),
            ("status"@, Member::Number(e.status->0)),
            ("content"@, Member::Text(e.content->0)),
        ],
        e.code is Some ==> keys_of(client_members(e)) == seq![
            "type"@,
            "id"@,
            "code"@,
            "status"@,
            "content"@,
        ],
        e.code is None ==> keys_of(client_members(e)) == seq![
            "type"@,
            "id"@,
            "status"@,
            "content"@,
        ],
{
    assert(e.code is Some ==> client_members(e) =~= seq![
        ("type"@, Member::Text("response"@)),
        ("id"@, Member::Text(e.id->0)),
        ("code"@, Member::Text(e.code->0)),
        ("status"@, Member::Number(e.status->0)),
        ("content"@, Member::Text(e.content->0)),
    ]);
    assert(e.code is None ==> client_members(e) =~= seq![
        ("type"@, Member::Text("response"@)),
        ("id"@, Member::Text(e.id->0)),
        ("status"@, Member::Number(e.status->0)),
        ("content"@, Member::Text(e.content->0)),
    ]);
    assert(e.code is Some ==> keys_of(client_members(e)) =~= seq![
        "type"@,
        "id"@,
        "code"@,
        "status"@,
        "content"@,
    ]);
    assert(e.code is None ==> keys_of(client_members(e)) =~= seq![
        "type"@,
        "id"@,
        "status"@,
        "content"@,
    ]);
}

/// A field of an inbound envelope.
#[derive(Debug, PartialEq, Eq, Structural, Clone, Copy)]
pub enum Field {
    Kind,
    Method,
    Url,
    Id,
}

/// Why a text frame is no inbound envelope.
#[derive(Debug, PartialEq, Eq, Structural, Clone, Copy)]
pub enum DecodeError {
    /// The frame is no JSON text.
    Malformed,
    /// The frame is JSON, but no object.
    NotAnObject,
    /// A required field is absent.
    Missing(Field),
    /// A field is present and holds something else than text.
    NotText(Field),
}

/// The view of a parsed frame.
pub enum Parsed {
    Object(Members),
    Other,
}

/// A parsed frame: an object with its members, or anything else.
#[derive(Debug, PartialEq, Clone)]
pub enum Document {
    Object(Vec<(String, Scalar)>),
    Other,
}

impl View for Document {
    type V = Parsed;

    open spec fn view(&self) -> Parsed {
        match self {
            Document::Object(v) => Parsed::Object(members_of(v@)),
            Document::Other => Parsed::Other,
        }
    }
}

/// The error with which `serde_json` refuses a text.
#[verifier::external_type_specification]
#[verifier::external_body]
pub struct ExJsonError(serde_json::Error);

/// What a text parses to as JSON: nothing where it is no JSON text, else the
/// document, in which a member holds `Null` for null, `Text` for a string and
/// `Other` for anything else.
pub uninterp spec fn json_document(text: Seq<char>) -> Option<Parsed>;

/// Calls `serde_json::from_str` for a `serde_json::Value` and moves the
/// top level of the value over. The outcome depends on the text alone: an
/// error where the text is no JSON, else the document that it denotes.
#[verifier::external_body]
fn parse(text: &str) -> (r: Result<Document, serde_json::Error>)
    ensures
        match r {
            Ok(d) => json_document(text@) == Some(d@),
            Err(_) => json_document(text@) is None,
        },
{
    Ok(match serde_json::from_str::<serde_json::Value>(text)? {
        serde_json::Value::Object(m) => Document::Object(m.into_iter().map(|(k, v)| (k, match v {
            serde_json::Value::Null => Scalar::Null,
            serde_json::Value::String(s) => Scalar::Text(s),
            serde_json::Value::Bool(_) | serde_json::Value::Number(_) => Scalar::Other,
            serde_json::Value::Array(_) | serde_json::Value::Object(_) => Scalar::Other,
        })).collect()),
        _ => Document::Other,
    })
}

/// What the members hold under `key`: the last member with that key.
pub open spec fn lookup(ms: Members, key: Seq<char>) -> Option<Member>
    decreases ms.len(),
{
    if ms.len() == 0 {
        None
    } else if ms.last().0 == key {
        Some(ms.last().1)
    } else {
        lookup(ms.drop_last(), key)
    }
}

/// A field that must be present and hold text.
pub open spec fn required_text(ms: Members, key: Seq<char>, field: Field) -> Result<
    Seq<char>,
    DecodeError,
> {
    match lookup(ms, key) {
        None => Err(DecodeError::Missing(field)),
        Some(Member::Text(s)) => Ok(s),
        Some(_) => Err(DecodeError::NotText(field)),
    }
}

/// A field that may be absent or null, and else must hold text.
pub open spec fn optional_text(ms: Members, key: Seq<char>, field: Field) -> Result<
    Option<Seq<char>>,
    DecodeError,
> {
    match lookup(ms, key) {
        None => Ok(None),
        Some(Member::Null) => Ok(None),
        Some(Member::Text(s)) => Ok(Some(s)),
        Some(_) => Err(DecodeError::NotText(field)),
    }
}

/// The inbound envelope that the members of an object make up. The fields
/// are looked at in the order `type`, `method`, `url`, `id`, and the first
/// that fails gives the error; members with other keys are passed over.
pub open spec fn read_server(ms: Members) -> Result<ServerEnvelope, DecodeError> {
    match required_text(ms, "type"@, Field::Kind) {
        Err(e) => Err(e),
        Ok(kind) => match required_text(ms, "method"@, Field::Method) {
            Err(e) => Err(e),
            Ok(method) => match required_text(ms, "url"@, Field::Url) {
                Err(e) => Err(e),
                Ok(url) => match optional_text(ms, "id"@, Field::Id) {
                    Err(e) => Err(e),
                    Ok(id) => Ok(ServerEnvelope { kind, method, url, id }),
                },
            },
        },
    }
}

/// The inbound envelope that a parsed frame makes up.
pub open spec fn read_document(d: Parsed) -> Result<ServerEnvelope, DecodeError> {
    match d {
        Parsed::Object(ms) => read_server(ms),
        Parsed::Other => Err(DecodeError::NotAnObject),
    }
}

/// The inbound envelope that a text frame makes up.
pub open spec fn decoded(text: Seq<char>) -> Result<ServerEnvelope, DecodeError> {
    match json_document(text) {
        None => Err(DecodeError::Malformed),
        Some(d) => read_document(d),
    }
}

/// Whether `r` is the executable form of `expected`.
pub open spec fn stands_for(
    r: Result<HOSServerReq, DecodeError>,
    expected: Result<ServerEnvelope, DecodeError>,
) -> bool {
    match r {
        Ok(req) => expected == Ok::<ServerEnvelope, DecodeError>(req@),
        Err(e) => expected == Err::<ServerEnvelope, DecodeError>(e),
    }
}

/// The place of the last member with the key `key`, if there is one.
pub fn find(members: &Vec<(String, Scalar)>, key: &str) -> (r: Option<usize>)
    ensures
        match r {
            Some(i) => i < members@.len() && lookup(members_of(members@), key@) == Some(
                members@[i as int].1@,
            ),
            None => lookup(members_of(members@), key@) is None,
        },
{
    let ghost ms = members_of(members@);
    let wanted = String::from_str(key);
    let mut found: Option<usize> = None;
    let mut i: usize = 0;
    while i < members.len()
        invariant
            i <= members.len(),
            ms == members_of(members@),
            wanted@ == key@,
            match found {
                Some(j) => j < i && lookup(ms.take(i as int), key@) == Some(members@[j as int].1@),
                None => lookup(ms.take(i as int), key@) is None,
            },
        decreases members.len() - i,
    {
        proof {
            let next = ms.take(i + 1);
            assert(next.drop_last() == ms.take(i as int));
            assert(next.last() == (members@[i as int].0@, members@[i as int].1@));
        }
        if members[i].0 == wanted {
            found = Some(i);
        }
        i += 1;
    }
    proof {
        assert(ms.take(i as int) == ms);
    }
    found
}

fn read_required(members: &Vec<(String, Scalar)>, key: &str, field: Field) -> (r: Result<
    String,
    DecodeError,
>)
    ensures
        match r {
            Ok(s) => required_text(members_of(members@), key@, field) == Ok::<
                Seq<char>,
                DecodeError,
            >(s@),
            Err(e) => required_text(members_of(members@), key@, field) == Err::<
                Seq<char>,
                DecodeError,
            >(e),
        },
{
    match find(members, key) {
        None => Err(DecodeError::Missing(field)),
        Some(i) => match &members[i].1 {
            Scalar::Text(s) => Ok(s.clone()),
            _ => Err(DecodeError::NotText(field)),
        },
    }
}

fn read_optional(members: &Vec<(String, Scalar)>, key: &str, field: Field) -> (r: Result<
    Option<String>,
    DecodeError,
>)
    ensures
        match r {
            Ok(s) => optional_text(members_of(members@), key@, field) == Ok::<
                Option<Seq<char>>,
                DecodeError,
            >(text_of(s)),
            Err(e) => optional_text(members_of(members@), key@, field) == Err::<
                Option<Seq<char>>,
                DecodeError,
            >(e),
        },
{
    match find(members, key) {
        None => Ok(None),
        Some(i) => match &members[i].1 {
            Scalar::Null => Ok(None),
            Scalar::Text(s) => Ok(Some(s.clone())),
            _ => Err(DecodeError::NotText(field)),
        },
    }
}

/// Reads an inbound envelope from a parsed frame.
pub fn server_from_document(document: &Document) -> (r: Result<HOSServerReq, DecodeError>)
    ensures
        stands_for(r, read_document(document@)),
{
    match document {
        Document::Other => Err(DecodeError::NotAnObject),
        Document::Object(members) => {
            let kind = match read_required(members, "type", Field::Kind) {
                Ok(s) => s,
                Err(e) => { return Err(e); },
            };
            let method = match read_required(members, "method", Field::Method) {
                Ok(s) => s,
                Err(e) => { return Err(e); },
            };
            let url = match read_required(members, "url", Field::Url) {
                Ok(s) => s,
                Err(e) => { return Err(e); },
            };
            let id = match read_optional(members, "id", Field::Id) {
                Ok(s) => s,
                Err(e) => { return Err(e); },
            };
            Ok(HOSServerReq { _type: kind, method, url, id })
        },
    }
}

/// Reads an inbound envelope from a text frame. The frame must be a JSON
/// object in which `type`, `method` and `url` hold text and `id`, where it
/// is present and not null, holds text too.
pub fn decode_server(text: &str) -> (r: Result<HOSServerReq, DecodeError>)
    ensures
        stands_for(r, decoded(text@)),
{
    match parse(text) {
        Err(_) => Err(DecodeError::Malformed),
        Ok(document) => server_from_document(&document),
    }
}

/// Looking a key up after one more member was added.
pub proof fn lemma_lookup_push(ms: Members, m: (Seq<char>, Member), key: Seq<char>)
    ensures
        lookup(ms.push(m), key) == if m.0 == key {
            Some(m.1)
        } else {
            lookup(ms, key)
        },
{
    assert(ms.push(m).drop_last() == ms);
}

/// Reading the members that an inbound envelope is written with gives the
/// envelope back, field by field.
pub proof fn lemma_server_round_trip(e: ServerEnvelope)
    ensures
        read_server(server_members(e)) == Ok::<ServerEnvelope, DecodeError>(e),
        read_document(Parsed::Object(server_members(e))) == Ok::<ServerEnvelope, DecodeError>(e),
{
    reveal_strlit("type");
    reveal_strlit("method");
    reveal_strlit("url");
    reveal_strlit("id");
    let k = ("type"@, Member::Text(e.kind));
    let m = ("method"@, Member::Text(e.method));
    let u = ("url"@, Member::Text(e.url));
    let s0 = Seq::<(Seq<char>, Member)>::empty();
    let s3 = s0.push(k).push(m).push(u);
    assert("type"@ != "method"@ && "type"@ != "url"@ && "type"@ != "id"@) by {
        assert("type"@.len() == 4 && "method"@.len() == 6 && "url"@.len() == 3 && "id"@.len()
            == 2);
    }
    assert("method"@ != "url"@ && "method"@ != "id"@ && "url"@ != "id"@) by {
        assert("method"@.len() == 6 && "url"@.len() == 3 && "id"@.len() == 2);
    }
    let ms = server_members(e);
    match e.id {
        Some(v) => {
            let i = ("id"@, Member::Text(v));
            assert(ms =~= s3.push(i));
            lemma_lookup_push(s3, i, "type"@);
            lemma_lookup_push(s3, i, "method"@);
            lemma_lookup_push(s3, i, "url"@);
            lemma_lookup_push(s3, i, "id"@);
        },
        None => {
            assert(ms =~= s3);
        },
    }
    lemma_lookup_push(s0, k, "type"@);
    lemma_lookup_push(s0, k, "method"@);
    lemma_lookup_push(s0, k, "url"@);
    lemma_lookup_push(s0, k, "id"@);
    lemma_lookup_push(s0.push(k), m, "type"@);
    lemma_lookup_push(s0.push(k), m, "method"@);
    lemma_lookup_push(s0.push(k), m, "url"@);
    lemma_lookup_push(s0.push(k), m, "id"@);
    lemma_lookup_push(s0.push(k).push(m), u, "type"@);
    lemma_lookup_push(s0.push(k).push(m), u, "method"@);
    lemma_lookup_push(s0.push(k).push(m), u, "url"@);
    lemma_lookup_push(s0.push(k).push(m), u, "id"@);
}

} // verus!
