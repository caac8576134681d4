//! Message builder: renders the three protocol messages of one call dialog
//! (initial invite, authenticated invite, cancel) from the call data and the
//! per-call transaction state. All three share one header block, derived
//! once from the call data and the call identifier, so that they belong to
//! the same dialog (same Call-ID, From, To, Via).
use vstd::prelude::*;
use crate::SipCallData;

verus! {

/// The request URI of the call: `sip:<username>@<server>`.
pub open spec fn spec_uri(username: Seq<char>, server: Seq<char>) -> Seq<char> {
    "sip:"@ + username + "@"@ + server
}

/// The header block shared verbatim by all three messages of one dialog.
pub open spec fn spec_default_header(
    source: Seq<char>,
    server: Seq<char>,
    target: Seq<char>,
    username: Seq<char>,
    call_id: Seq<char>,
) -> Seq<char> {
    "sip: "@ + server + " SIP/2.0\n"@ + "From: <sip:"@ + username + "@"@ + source + ">\n"@
        + "Via: SIP/2.0/TCP "@ + server + "\n"@ + "To: <sip:"@ + target + ">;tag=x\n"@
        + "Call-ID: i"@ + call_id + "\n"@ + "User-Agent: Stupid rust script\n"@
        + "Content-Length: 0\n"@
}

/// The initial invite: request line and header block, sequence counter 1,
/// blank-line terminator.
pub open spec fn spec_invite(header: Seq<char>) -> Seq<char> {
    "INVITE "@ + header + "Cseq: 1 INVITE\n"@ + "\n\n"@
}

/// The authenticated invite: the same header block, an Authorization header
/// carrying username, realm, nonce, URI and digest, sequence counter 2, and
/// the blank-line terminator.
pub open spec fn spec_authenticated_invite(
    header: Seq<char>,
    username: Seq<char>,
    realm: Seq<char>,
    nonce: Seq<char>,
    uri: Seq<char>,
    digest: Seq<char>,
) -> Seq<char> {
    "INVITE "@ + header + "Authorization: Digest username=\""@ + username + "\",\n"@ + " realm=\""@
        + realm + "\",\n"@ + " nonce=\""@ + nonce + "\",\n"@ + " uri=\""@ + uri + "\",\n"@
        + " response=\""@ + digest + "\"\n"@ + "Cseq: 2 INVITE\n"@ + "\n\n"@
}

/// The cancel message: the same header block, sequence counter 2 with method
/// CANCEL, blank-line terminator.
pub open spec fn spec_cancel(header: Seq<char>) -> Seq<char> {
    "CANCEL "@ + header + "Cseq: 2 CANCEL\n"@ + "\n\n"@
}

/// Builds the request URI of the call.
pub fn build_uri(call_data: &SipCallData) -> (r: String)
    ensures
        r@ == spec_uri(call_data.username@, call_data.server@),
{
    let mut u = "sip:".to_owned();
    u.append(call_data.username.as_str());
    u.append("@");
    u.append(call_data.server.as_str());
    u
}

/// Builds the header block shared by all three messages of one call.
pub fn get_default_sip_header(call_data: &SipCallData, call_id: &String) -> (r: String)
    ensures
        r@ == spec_default_header(
            call_data.source@,
            call_data.server@,
            call_data.target@,
            call_data.username@,
            call_id@,
        ),
{
    let mut h = "sip: ".to_owned();
    h.append(call_data.server.as_str());
    h.append(" SIP/2.0\n");
    h.append("From: <sip:");
    h.append(call_data.username.as_str());
    h.append("@");
    h.append(call_data.source.as_str());
    h.append(">\n");
    h.append("Via: SIP/2.0/TCP ");
    h.append(call_data.server.as_str());
    h.append("\n");
    h.append("To: <sip:");
    h.append(call_data.target.as_str());
    h.append(">;tag=x\n");
    h.append("Call-ID: i");
    h.append(call_id.as_str());
    h.append("\n");
    h.append("User-Agent: Stupid rust script\n");
    h.append("Content-Length: 0\n");
    h
}

/// Builds the initial invite message.
pub fn build_invite(default_header: &str) -> (r: String)
    ensures
        r@ == spec_invite(default_header@),
{
    let mut m = "INVITE ".to_owned();
    m.append(default_header);
    m.append("Cseq: 1 INVITE\n");
    m.append("\n\n");
    m
}

/// Builds the authenticated invite message.
pub fn build_authenticated_invite(
    default_header: &str,
    username: &str,
    realm: &str,
    nonce: &str,
    uri: &str,
    digest: &str,
) -> (r: String)
    ensures
        r@ == spec_authenticated_invite(default_header@, username@, realm@, nonce@, uri@, digest@),
{
    let mut m = "INVITE ".to_owned();
    m.append(default_header);
    m.append("Authorization: Digest username=\"");
    m.append(username);
    m.append("\",\n");
    m.append(" realm=\"");
    m.append(realm);
    m.append("\",\n");
    m.append(" nonce=\"");
    m.append(nonce);
    m.append("\",\n");
    m.append(" uri=\"");
    m.append(uri);
    m.append("\",\n");
    m.append(" response=\"");
    m.append(digest);
    m.append("\"\n");
    m.append("Cseq: 2 INVITE\n");
    m.append("\n\n");
    m
}

/// Builds the cancel message.
pub fn build_cancel(default_header: &str) -> (r: String)
    ensures
        r@ == spec_cancel(default_header@),
{
    let mut m = "CANCEL ".to_owned();
    m.append(default_header);
    m.append("Cseq: 2 CANCEL\n");
    m.append("\n\n");
    m
}

/// Law (dialog consistency): all three messages of one call carry the header
/// block byte-for-byte — each embeds the given header, unchanged, right
/// after its 7-character request-line prefix, so the three requests share
/// the same Call-ID, From, To and Via.
pub proof fn lemma_dialog_consistency(
    header: Seq<char>,
    username: Seq<char>,
    realm: Seq<char>,
    nonce: Seq<char>,
    uri: Seq<char>,
    digest: Seq<char>,
)
    ensures
        spec_invite(header).subrange(7, 7 + header.len() as int) == header,
        spec_authenticated_invite(header, username, realm, nonce, uri, digest).subrange(
            7,
            7 + header.len() as int,
        ) == header,
        spec_cancel(header).subrange(7, 7 + header.len() as int) == header,
{
    reveal_strlit("INVITE ");
    reveal_strlit("CANCEL ");
    assert(spec_invite(header).subrange(7, 7 + header.len() as int) =~= header);
    assert(spec_authenticated_invite(header, username, realm, nonce, uri, digest).subrange(
        7,
        7 + header.len() as int,
    ) =~= header);
    assert(spec_cancel(header).subrange(7, 7 + header.len() as int) =~= header);
}

/// Law: every message ends with the blank-line terminator — its last two
/// characters are line breaks, so a framed reader that stops at the first
/// blank line sees a complete message.
pub proof fn lemma_messages_end_with_blank_line(
    header: Seq<char>,
    username: Seq<char>,
    realm: Seq<char>,
    nonce: Seq<char>,
    uri: Seq<char>,
    digest: Seq<char>,
)
    ensures
        spec_invite(header).last() == '\n' && spec_invite(header)[spec_invite(header).len() - 2]
            == '\n',
        spec_cancel(header).last() == '\n' && spec_cancel(header)[spec_cancel(header).len() - 2]
            == '\n',
        ({
            let m = spec_authenticated_invite(header, username, realm, nonce, uri, digest);
            m.last() == '\n' && m[m.len() - 2] == '\n'
        }),
{
    reveal_strlit("\n\n");
}

} // verus!
