//! The email operations: request and response shapes, and the JSON bodies
//! that the two endpoints receive.
use vstd::prelude::*;

use crate::client::{PostRequest, SendKit};
use crate::json::{
    json_array, json_object, json_string_array, json_string_literal, object, pairs_view, push_member,
    string_array, string_literal, strings_view, array,
};

verus! {

/// The email operations of a client.
pub struct Emails;

/// A file attached to an email.
#[derive(Debug)]
pub struct Attachment {
    pub filename: String,
    pub content: String,
    pub content_type: Option<String>,
}

/// A structured email. `headers` keeps the caller's order.
#[derive(Debug, Default)]
pub struct SendEmailParams {
    pub from: String,
    pub to: Vec<String>,
    pub subject: String,
    pub html: Option<String>,
    pub text: Option<String>,
    pub cc: Option<Vec<String>>,
    pub bcc: Option<Vec<String>>,
    pub reply_to: Option<String>,
    pub headers: Option<Vec<(String, String)>>,
    pub tags: Option<Vec<String>>,
    pub scheduled_at: Option<String>,
    pub attachments: Option<Vec<Attachment>>,
}

/// The server's answer to a structured send.
#[derive(Debug)]
pub struct SendEmailResponse {
    pub id: String,
}

/// A raw MIME email with its envelope.
#[derive(Debug)]
pub struct SendMimeEmailParams {
    pub envelope_from: String,
    pub envelope_to: String,
    pub raw_message: String,
}

/// The server's answer to a MIME send.
#[derive(Debug)]
pub struct SendMimeEmailResponse {
    pub id: String,
}

/// Appends the member `(key, value)` when `value` is present.
pub open spec fn push_opt(
    members: Seq<(Seq<char>, Seq<char>)>,
    key: Seq<char>,
    value: Option<Seq<char>>,
) -> Seq<(Seq<char>, Seq<char>)> {
    match value {
        Some(v) => members.push((key, v)),
        None => members,
    }
}

/// An optional string as an optional JSON string.
pub open spec fn opt_string_json(o: Option<String>) -> Option<Seq<char>> {
    match o {
        Some(s) => Some(json_string_literal(s@)),
        None => None,
    }
}

/// An optional list of strings as an optional JSON array of strings.
pub open spec fn opt_strings_json(o: Option<Vec<String>>) -> Option<Seq<char>> {
    match o {
        Some(v) => Some(json_string_array(strings_view(v@))),
        None => None,
    }
}

/// Header names and values as a JSON object of strings, in order.
pub open spec fn headers_json(h: Seq<(String, String)>) -> Seq<char> {
    json_object(
        pairs_view(h).map_values(
            |p: (Seq<char>, Seq<char>)| (p.0, json_string_literal(p.1)),
        ),
    )
}

/// The members of an attachment's JSON object.
pub open spec fn attachment_members(a: Attachment) -> Seq<(Seq<char>, Seq<char>)> {
    push_opt(
        seq![("filename"@, json_string_literal(a.filename@)), ("content"@, json_string_literal(a.content@))],
        "content_type"@,
        opt_string_json(a.content_type),
    )
}

/// The JSON object of an attachment.
pub open spec fn attachment_json(a: Attachment) -> Seq<char> {
    json_object(attachment_members(a))
}

/// The JSON array of a list of attachments.
pub open spec fn attachments_json(v: Seq<Attachment>) -> Seq<char> {
    json_array(v.map_values(|a: Attachment| attachment_json(a)))
}

/// The members of a structured email's JSON body: the three required fields,
/// then each optional field that is set, in declaration order.
pub open spec fn send_email_members(p: SendEmailParams) -> Seq<(Seq<char>, Seq<char>)> {
    let required = seq![
        ("from"@, json_string_literal(p.from@)),
        ("to"@, json_string_array(strings_view(p.to@))),
        ("subject"@, json_string_literal(p.subject@)),
    ];
    let m1 = push_opt(required, "html"@, opt_string_json(p.html));
    let m2 = push_opt(m1, "text"@, opt_string_json(p.text));
    let m3 = push_opt(m2, "cc"@, opt_strings_json(p.cc));
    let m4 = push_opt(m3, "bcc"@, opt_strings_json(p.bcc));
    let m5 = push_opt(m4, "reply_to"@, opt_string_json(p.reply_to));
    let m6 = push_opt(
        m5,
        "headers"@,
        match p.headers {
            Some(h) => Some(headers_json(h@)),
            None => None,
        },
    );
    let m7 = push_opt(m6, "tags"@, opt_strings_json(p.tags));
    let m8 = push_opt(m7, "scheduled_at"@, opt_string_json(p.scheduled_at));
    push_opt(
        m8,
        "attachments"@,
        match p.attachments {
            Some(v) => Some(attachments_json(v@)),
            None => None,
        },
    )
}

/// The JSON body of a structured send.
pub open spec fn send_email_json(p: SendEmailParams) -> Seq<char> {
    json_object(send_email_members(p))
}

/// The JSON body of a MIME send.
pub open spec fn send_mime_json(p: SendMimeEmailParams) -> Seq<char> {
    json_object(
        seq![
            ("envelope_from"@, json_string_literal(p.envelope_from@)),
            ("envelope_to"@, json_string_literal(p.envelope_to@)),
            ("raw_message"@, json_string_literal(p.raw_message@)),
        ],
    )
}

/// The names of the members of a list of members.
pub open spec fn member_keys(members: Seq<(Seq<char>, Seq<char>)>) -> Seq<Seq<char>> {
    members.map_values(|m: (Seq<char>, Seq<char>)| m.0)
}

fn push_opt_string(members: &mut Vec<(String, String)>, key: &str, value: &Option<String>)
    ensures
        pairs_view(final(members)@) == push_opt(pairs_view(old(members)@), key@, opt_string_json(*value)),
{
    if let Some(s) = value {
        push_member(members, key, string_literal(s.as_str()));
    }
}

fn push_opt_strings(members: &mut Vec<(String, String)>, key: &str, value: &Option<Vec<String>>)
    ensures
        pairs_view(final(members)@) == push_opt(pairs_view(old(members)@), key@, opt_strings_json(*value)),
{
    if let Some(v) = value {
        push_member(members, key, string_array(v));
    }
}

fn headers_to_json(headers: &Vec<(String, String)>) -> (r: String)
    ensures
        r@ == headers_json(headers@),
{
    let mut members: Vec<(String, String)> = Vec::new();
    let mut i: usize = 0;
    while i < headers.len()
        invariant
            i <= headers.len(),
            members.len() == i,
            forall|j: int|
                0 <= j < i ==> #[trigger] members@[j].0@ == headers@[j].0@ && members@[j].1@
                    == json_string_literal(headers@[j].1@),
        decreases headers.len() - i,
    {
        let name = headers[i].0.clone();
        let value = string_literal(headers[i].1.as_str());
        members.push((name, value));
        i = i + 1;
    }
    assert(pairs_view(members@) =~= pairs_view(headers@).map_values(
        |p: (Seq<char>, Seq<char>)| (p.0, json_string_literal(p.1)),
    ));
    object(&members)
}

impl Attachment {
    /// The JSON object of this attachment; an absent content type is left out.
    pub fn to_json(&self) -> (r: String)
        ensures
            r@ == attachment_json(*self),
    {
        let mut members: Vec<(String, String)> = Vec::new();
        push_member(&mut members, "filename", string_literal(self.filename.as_str()));
        push_member(&mut members, "content", string_literal(self.content.as_str()));
        push_opt_string(&mut members, "content_type", &self.content_type);
        assert(pairs_view(members@) =~= attachment_members(*self));
        object(&members)
    }
}

fn attachments_to_json(v: &Vec<Attachment>) -> (r: String)
    ensures
        r@ == attachments_json(v@),
{
    let mut items: Vec<String> = Vec::new();
    let mut i: usize = 0;
    while i < v.len()
        invariant
            i <= v.len(),
            items.len() == i,
            forall|j: int| 0 <= j < i ==> #[trigger] items@[j]@ == attachment_json(v@[j]),
        decreases v.len() - i,
    {
        items.push(v[i].to_json());
        i = i + 1;
    }
    assert(strings_view(items@) =~= v@.map_values(|a: Attachment| attachment_json(a)));
    array(&items)
}

impl SendEmailParams {
    /// The JSON body of a structured send; unset optional fields are left out.
    #[verifier::rlimit(40)]
    pub fn to_json(&self) -> (r: String)
        ensures
            r@ == send_email_json(*self),
    {
        let mut members: Vec<(String, String)> = Vec::new();
        push_member(&mut members, "from", string_literal(self.from.as_str()));
        push_member(&mut members, "to", string_array(&self.to));
        push_member(&mut members, "subject", string_literal(self.subject.as_str()));
        assert(pairs_view(members@) =~= seq![
            ("from"@, json_string_literal(self.from@)),
            ("to"@, json_string_array(strings_view(self.to@))),
            ("subject"@, json_string_literal(self.subject@)),
        ]);
        push_opt_string(&mut members, "html", &self.html);
        push_opt_string(&mut members, "text", &self.text);
        push_opt_strings(&mut members, "cc", &self.cc);
        push_opt_strings(&mut members, "bcc", &self.bcc);
        push_opt_string(&mut members, "reply_to", &self.reply_to);
        if let Some(h) = &self.headers {
            push_member(&mut members, "headers", headers_to_json(h));
        }
        push_opt_strings(&mut members, "tags", &self.tags);
        push_opt_string(&mut members, "scheduled_at", &self.scheduled_at);
        if let Some(v) = &self.attachments {
            push_member(&mut members, "attachments", attachments_to_json(v));
        }
        object(&members)
    }
}

impl SendMimeEmailParams {
    /// The JSON body of a MIME send.
    pub fn to_json(&self) -> (r: String)
        ensures
            r@ == send_mime_json(*self),
    {
        let mut members: Vec<(String, String)> = Vec::new();
        push_member(&mut members, "envelope_from", string_literal(self.envelope_from.as_str()));
        push_member(&mut members, "envelope_to", string_literal(self.envelope_to.as_str()));
        push_member(&mut members, "raw_message", string_literal(self.raw_message.as_str()));
        assert(pairs_view(members@) =~= seq![
            ("envelope_from"@, json_string_literal(self.envelope_from@)),
            ("envelope_to"@, json_string_literal(self.envelope_to@)),
            ("raw_message"@, json_string_literal(self.raw_message@)),
        ]);
        object(&members)
    }
}

impl Emails {
    /// The POST of a structured send: to `/v1/emails` under the client's base
    /// URL, with the client's bearer credential and `params` as JSON body.
    pub fn send_request(&self, client: &SendKit, params: &SendEmailParams) -> (r: PostRequest)
        ensures
            r.url@ == client.base_url_view() + "/v1/emails"@,
            r.authorization@ == "Bearer "@ + client.api_key_view(),
            r.body@ == send_email_json(*params),
    {
        client.post_request("/v1/emails", params.to_json())
    }

    /// The POST of a MIME send: to `/v1/emails/mime` under the client's base
    /// URL, with the client's bearer credential and `params` as JSON body.
    pub fn send_mime_request(&self, client: &SendKit, params: &SendMimeEmailParams) -> (r: PostRequest)
        ensures
            r.url@ == client.base_url_view() + "/v1/emails/mime"@,
            r.authorization@ == "Bearer "@ + client.api_key_view(),
            r.body@ == send_mime_json(*params),
    {
        client.post_request("/v1/emails/mime", params.to_json())
    }
}

proof fn lemma_push_opt_keys(m: Seq<(Seq<char>, Seq<char>)>, k: Seq<char>, v: Option<Seq<char>>, key: Seq<char>)
    ensures
        member_keys(push_opt(m, k, v)).contains(key) <==> (member_keys(m).contains(key) || (
        v is Some && k == key)),
{
    let mk = member_keys(m);
    let mp = member_keys(push_opt(m, k, v));
    if let Some(x) = v {
        assert(mp =~= mk.push(k));
        if mk.contains(key) {
            let i = choose|i: int| 0 <= i < mk.len() && mk[i] == key;
            assert(mp[i] == key);
        }
        if k == key {
            assert(mp[mk.len() as int] == key);
        }
        if mp.contains(key) {
            let i = choose|i: int| 0 <= i < mp.len() && mp[i] == key;
            if i < mk.len() {
                assert(mk[i] == key);
            }
        }
    } else {
        assert(mp == mk);
    }
}

/// The field names of the request bodies differ from one another.
proof fn lemma_field_names_differ()
    ensures
        "from"@ != "html"@,
        "from"@ != "text"@,
        "from"@ != "tags"@,
        "html"@ != "text"@,
        "html"@ != "tags"@,
        "text"@ != "tags"@,
        "to"@ != "cc"@,
        "subject"@ != "headers"@,
        "from"@.len() == 4,
        "to"@.len() == 2,
        "subject"@.len() == 7,
        "html"@.len() == 4,
        "text"@.len() == 4,
        "cc"@.len() == 2,
        "bcc"@.len() == 3,
        "reply_to"@.len() == 8,
        "headers"@.len() == 7,
        "tags"@.len() == 4,
        "scheduled_at"@.len() == 12,
        "attachments"@.len() == 11,
        "filename"@.len() == 8,
        "content"@.len() == 7,
        "content_type"@.len() == 12,
{
    reveal_strlit("from");
    reveal_strlit("html");
    reveal_strlit("text");
    reveal_strlit("tags");
    reveal_strlit("to");
    reveal_strlit("cc");
    reveal_strlit("subject");
    reveal_strlit("headers");
    reveal_strlit("bcc");
    reveal_strlit("reply_to");
    reveal_strlit("scheduled_at");
    reveal_strlit("attachments");
    reveal_strlit("filename");
    reveal_strlit("content");
    reveal_strlit("content_type");
    assert("from"@[0] != "html"@[0]);
    assert("from"@[0] != "text"@[0]);
    assert("from"@[0] != "tags"@[0]);
    assert("html"@[0] != "text"@[0]);
    assert("html"@[0] != "tags"@[0]);
    assert("text"@[1] != "tags"@[1]);
    assert("to"@[0] != "cc"@[0]);
    assert("subject"@[0] != "headers"@[0]);
}

proof fn lemma_keys_of_send(p: SendEmailParams, key: Seq<char>)
    requires
        key == "html"@ || key == "text"@ || key == "cc"@ || key == "bcc"@ || key == "reply_to"@ || key
            == "headers"@ || key == "tags"@ || key == "scheduled_at"@ || key == "attachments"@,
    ensures
        member_keys(send_email_members(p)).contains(key) <==> (
        (p.html is Some && key == "html"@)
        || (p.text is Some && key == "text"@)
        || (p.cc is Some && key == "cc"@)
        || (p.bcc is Some && key == "bcc"@)
        || (p.reply_to is Some && key == "reply_to"@)
        || (p.headers is Some && key == "headers"@)
        || (p.tags is Some && key == "tags"@)
        || (p.scheduled_at is Some && key == "scheduled_at"@)
        || (p.attachments is Some && key == "attachments"@)),
{
    let required = seq![
        ("from"@, json_string_literal(p.from@)),
        ("to"@, json_string_array(strings_view(p.to@))),
        ("subject"@, json_string_literal(p.subject@)),
    ];
    lemma_field_names_differ();
    assert(member_keys(required) =~= seq!["from"@, "to"@, "subject"@]);
    assert(key != "from"@ && key != "to"@ && key != "subject"@);
    assert(!member_keys(required).contains(key));
    let m1 = push_opt(required, "html"@, opt_string_json(p.html));
    let m2 = push_opt(m1, "text"@, opt_string_json(p.text));
    let m3 = push_opt(m2, "cc"@, opt_strings_json(p.cc));
    let m4 = push_opt(m3, "bcc"@, opt_strings_json(p.bcc));
    let m5 = push_opt(m4, "reply_to"@, opt_string_json(p.reply_to));
    let h = match p.headers {
        Some(h) => Some(headers_json(h@)),
        None => None,
    };
    let m6 = push_opt(m5, "headers"@, h);
    let m7 = push_opt(m6, "tags"@, opt_strings_json(p.tags));
    let m8 = push_opt(m7, "scheduled_at"@, opt_string_json(p.scheduled_at));
    let at = match p.attachments {
        Some(v) => Some(attachments_json(v@)),
        None => None,
    };
    lemma_push_opt_keys(required, "html"@, opt_string_json(p.html), key);
    lemma_push_opt_keys(m1, "text"@, opt_string_json(p.text), key);
    lemma_push_opt_keys(m2, "cc"@, opt_strings_json(p.cc), key);
    lemma_push_opt_keys(m3, "bcc"@, opt_strings_json(p.bcc), key);
    lemma_push_opt_keys(m4, "reply_to"@, opt_string_json(p.reply_to), key);
    lemma_push_opt_keys(m5, "headers"@, h, key);
    lemma_push_opt_keys(m6, "tags"@, opt_strings_json(p.tags), key);
    lemma_push_opt_keys(m7, "scheduled_at"@, opt_string_json(p.scheduled_at), key);
    lemma_push_opt_keys(m8, "attachments"@, at, key);
}

/// An optional field of a structured email appears in its JSON body exactly
/// when it is set: an unset one is left out, never written as `null`. The same
/// holds of an attachment's content type.
pub proof fn lemma_unset_fields_absent(p: SendEmailParams, a: Attachment)
    ensures
        member_keys(send_email_members(p)).contains("html"@) <==> p.html is Some,
        member_keys(send_email_members(p)).contains("text"@) <==> p.text is Some,
        member_keys(send_email_members(p)).contains("cc"@) <==> p.cc is Some,
        member_keys(send_email_members(p)).contains("bcc"@) <==> p.bcc is Some,
        member_keys(send_email_members(p)).contains("reply_to"@) <==> p.reply_to is Some,
        member_keys(send_email_members(p)).contains("headers"@) <==> p.headers is Some,
        member_keys(send_email_members(p)).contains("tags"@) <==> p.tags is Some,
        member_keys(send_email_members(p)).contains("scheduled_at"@) <==> p.scheduled_at is Some,
        member_keys(send_email_members(p)).contains("attachments"@) <==> p.attachments is Some,
        member_keys(attachment_members(a)).contains("content_type"@) <==> a.content_type is Some,
{
    lemma_field_names_differ();
    lemma_keys_of_send(p, "html"@);
    lemma_keys_of_send(p, "text"@);
    lemma_keys_of_send(p, "cc"@);
    lemma_keys_of_send(p, "bcc"@);
    lemma_keys_of_send(p, "reply_to"@);
    lemma_keys_of_send(p, "headers"@);
    lemma_keys_of_send(p, "tags"@);
    lemma_keys_of_send(p, "scheduled_at"@);
    lemma_keys_of_send(p, "attachments"@);
    let base = seq![("filename"@, json_string_literal(a.filename@)), ("content"@, json_string_literal(a.content@))];
    lemma_push_opt_keys(base, "content_type"@, opt_string_json(a.content_type), "content_type"@);
    assert(member_keys(base) =~= seq!["filename"@, "content"@]);
    assert(member_keys(base)[0] != "content_type"@);
    assert(member_keys(base)[1] != "content_type"@);
}

} // verus!
