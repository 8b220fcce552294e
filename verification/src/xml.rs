//! The wire-format encoder: XML escaping and element rendering, with exact
//! specs over `Seq<char>`. Text content is always escaped; element names and
//! namespace URIs are fixed literals.

use vstd::prelude::*;
use vstd::string::*;

verus! {

/// The replacement for one character of text content: the five XML-special
/// characters and the carriage return become entities, everything else is
/// kept as it is.
pub open spec fn escape_char_seq(c: char) -> Seq<char> {
    if c == '&' {
        "&amp;"@
    } else if c == '<' {
        "&lt;"@
    } else if c == '>' {
        "&gt;"@
    } else if c == '\'' {
        "&apos;"@
    } else if c == '"' {
        "&quot;"@
    } else if c == '\r' {
        "&#13;"@
    } else {
        seq![c]
    }
}

/// XML-escaped text content.
pub open spec fn escape_seq(s: Seq<char>) -> Seq<char>
    decreases s.len(),
{
    if s.len() == 0 {
        Seq::empty()
    } else {
        escape_seq(s.drop_last()) + escape_char_seq(s.last())
    }
}

/// Relies on quick_xml::escape::escape: replaces `&`, `<`, `>`, `'`, `"`
/// and `\r` with their XML entities and leaves every other character as it
/// is. This is exactly the escaping the writer applies to text content.
#[verifier::external_body]
pub fn xml_escape(s: &str) -> (r: String)
    ensures
        r@ == escape_seq(s@),
{
    quick_xml::escape::escape(s).into_owned()
}

/// `<name>inner</name>`
pub open spec fn elem(name: Seq<char>, inner: Seq<char>) -> Seq<char> {
    "<"@ + name + ">"@ + inner + "</"@ + name + ">"@
}

/// `<name xmlns="ns">inner</name>`
pub open spec fn elem_ns(name: Seq<char>, ns: Seq<char>, inner: Seq<char>) -> Seq<char> {
    "<"@ + name + " xmlns=\""@ + ns + "\">"@ + inner + "</"@ + name + ">"@
}

/// `<ResponseMetadata><RequestId>id</RequestId></ResponseMetadata>`,
/// with the identifier escaped.
pub open spec fn response_metadata(request_id: Seq<char>) -> Seq<char> {
    elem("ResponseMetadata"@, elem("RequestId"@, escape_seq(request_id)))
}

/// `<entry><key>k</key><value>v</value></entry>`, both texts escaped.
pub open spec fn entry_xml(k: Seq<char>, v: Seq<char>) -> Seq<char> {
    elem("entry"@, elem("key"@, escape_seq(k)) + elem("value"@, escape_seq(v)))
}

/// The namespace URI of every success envelope.
pub open spec fn success_ns() -> Seq<char> {
    "https://sns.amazonaws.com/doc/2010-03-31/"@
}

/// The namespace URI of the error envelope. It deliberately differs from
/// the success namespace in its scheme.
pub open spec fn error_ns() -> Seq<char> {
    "http://sns.amazonaws.com/doc/2010-03-31/"@
}

/// A success envelope: the action's response element wrapping the payload
/// followed by the response metadata.
pub open spec fn success_xml(action_elem: Seq<char>, payload: Seq<char>, request_id: Seq<char>) -> Seq<
    char,
> {
    elem_ns(action_elem, success_ns(), payload + response_metadata(request_id))
}

/// The error envelope:
/// `<ErrorResponse xmlns="..."><Error><Type>Sender</Type><Code>code</Code>`
/// `<Message>message</Message></Error><RequestId>id</RequestId></ErrorResponse>`.
pub open spec fn error_xml(code: Seq<char>, message: Seq<char>, request_id: Seq<char>) -> Seq<char> {
    elem_ns(
        "ErrorResponse"@,
        error_ns(),
        elem(
            "Error"@,
            elem("Type"@, escape_seq("Sender"@)) + elem("Code"@, escape_seq(code)) + elem(
                "Message"@,
                escape_seq(message),
            ),
        ) + elem("RequestId"@, escape_seq(request_id)),
    )
}

/// Appends `<name>` to `out`.
pub fn push_open(out: &mut String, name: &str)
    ensures
        final(out)@ == old(out)@ + "<"@ + name@ + ">"@,
{
    out.append("<");
    out.append(name);
    out.append(">");
}

/// Appends `</name>` to `out`.
pub fn push_close(out: &mut String, name: &str)
    ensures
        final(out)@ == old(out)@ + "</"@ + name@ + ">"@,
{
    out.append("</");
    out.append(name);
    out.append(">");
}

/// Appends `<name>escaped-text</name>` to `out`.
pub fn push_text_elem(out: &mut String, name: &str, text: &str)
    ensures
        final(out)@ == old(out)@ + elem(name@, escape_seq(text@)),
{
    push_open(out, name);
    let e = xml_escape(text);
    out.append(e.as_str());
    push_close(out, name);
    proof {
        assert(final(out)@ =~= old(out)@ + elem(name@, escape_seq(text@)));
    }
}

/// Appends `<name xmlns="ns">` to `out`.
pub fn push_open_ns(out: &mut String, name: &str, ns: &str)
    ensures
        final(out)@ == old(out)@ + "<"@ + name@ + " xmlns=\""@ + ns@ + "\">"@,
{
    out.append("<");
    out.append(name);
    out.append(" xmlns=\"");
    out.append(ns);
    out.append("\">");
}

/// Appends the response-metadata element for `request_id` to `out`.
pub fn push_response_metadata(out: &mut String, request_id: &str)
    ensures
        final(out)@ == old(out)@ + response_metadata(request_id@),
{
    push_open(out, "ResponseMetadata");
    push_text_elem(out, "RequestId", request_id);
    push_close(out, "ResponseMetadata");
    proof {
        assert(final(out)@ =~= old(out)@ + response_metadata(request_id@));
    }
}

/// Appends `<entry><key>k</key><value>v</value></entry>` to `out`.
pub fn push_entry(out: &mut String, k: &str, v: &str)
    ensures
        final(out)@ == old(out)@ + entry_xml(k@, v@),
{
    push_open(out, "entry");
    push_text_elem(out, "key", k);
    push_text_elem(out, "value", v);
    push_close(out, "entry");
    proof {
        assert(final(out)@ =~= old(out)@ + entry_xml(k@, v@));
    }
}

/// Renders the full error envelope.
pub fn render_error(code: &str, message: &str, request_id: &str) -> (r: String)
    ensures
        r@ == error_xml(code@, message@, request_id@),
{
    let mut out = String::new();
    push_open_ns(&mut out, "ErrorResponse", "http://sns.amazonaws.com/doc/2010-03-31/");
    push_open(&mut out, "Error");
    push_text_elem(&mut out, "Type", "Sender");
    push_text_elem(&mut out, "Code", code);
    push_text_elem(&mut out, "Message", message);
    push_close(&mut out, "Error");
    push_text_elem(&mut out, "RequestId", request_id);
    push_close(&mut out, "ErrorResponse");
    proof {
        assert(out@ =~= error_xml(code@, message@, request_id@));
    }
    out
}

} // verus!
