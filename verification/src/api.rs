//! The requests of the GitLab REST interface that a run sends: their
//! addresses, and what their status codes mean.

use vstd::prelude::*;
use vstd::string::*;
use vstd::utf8::encode_utf8;
use crate::text::{decimal, push_decimal};

verus! {

/// Bytes that stand for themselves in an address: ASCII letters and digits,
/// `-`, `.`, `_` and `~`.
pub open spec fn is_unreserved(b: u8) -> bool {
    ||| 0x30 <= b <= 0x39
    ||| 0x41 <= b <= 0x5a
    ||| 0x61 <= b <= 0x7a
    ||| b == 0x2d
    ||| b == 0x2e
    ||| b == 0x5f
    ||| b == 0x7e
}

/// The upper-case hexadecimal digit of a value below 16.
pub open spec fn hex_digit(d: u8) -> char {
    if d < 10 {
        ((0x30 + d) as u8) as char
    } else {
        ((0x41 + d - 10) as u8) as char
    }
}

/// One byte as it stands in an address: itself, or `%` and two hexadecimal digits.
pub open spec fn escaped_byte(b: u8) -> Seq<char> {
    if is_unreserved(b) {
        seq![b as char]
    } else {
        seq!['%', hex_digit(b / 16), hex_digit(b % 16)]
    }
}

/// A byte string as it stands in an address, byte by byte.
pub open spec fn escaped(bytes: Seq<u8>) -> Seq<char>
    decreases bytes.len(),
{
    if bytes.len() == 0 {
        Seq::empty()
    } else {
        escaped_byte(bytes[0]) + escaped(bytes.drop_first())
    }
}

/// A text as it stands in an address: the escaped bytes of its UTF-8 form.
pub open spec fn url_encoded(text: Seq<char>) -> Seq<char> {
    escaped(encode_utf8(text))
}

/// An escaped text holds no `/`: a project's name, namespace and all, stays
/// one segment of the address.
pub proof fn lemma_escaped_is_one_segment(bytes: Seq<u8>)
    ensures
        forall|i: int| 0 <= i < escaped(bytes).len() ==> escaped(bytes)[i] != '/',
    decreases bytes.len(),
{
    if bytes.len() > 0 {
        lemma_escaped_is_one_segment(bytes.drop_first());
        let head = escaped_byte(bytes[0]);
        let tail = escaped(bytes.drop_first());
        assert forall|i: int| 0 <= i < escaped(bytes).len() implies escaped(bytes)[i] != '/' by {
            if i < head.len() {
                assert(escaped(bytes)[i] == head[i]);
            } else {
                assert(escaped(bytes)[i] == tail[i - head.len()]);
            }
        }
    }
}

/// Calls `urlencoding::encode` and copies the result into a `String`.
///
/// Trusted: the result is taken to be the percent-encoding of the UTF-8
/// bytes of `text`, in which every byte but ASCII letters, digits, `-`, `.`,
/// `_` and `~` becomes `%` and two upper-case hexadecimal digits.
#[verifier::external_body]
fn percent_encode(text: &str) -> (r: String)
    ensures
        r@ == url_encoded(text@),
{
    urlencoding::encode(text).into_owned()
}

/// A byte that may stand in the value of a header: the tab, and every byte
/// from the space on but the delete character.
pub open spec fn is_header_byte(b: u8) -> bool {
    (b >= 32 && b != 127) || b == 9
}

/// A token can be sent when every byte of its UTF-8 form may stand in the
/// value of a header.
pub open spec fn token_wellformed(token: Seq<char>) -> bool {
    forall|i: int| 0 <= i < encode_utf8(token).len() ==> is_header_byte(#[trigger] encode_utf8(token)[i])
}

/// Calls `reqwest::header::HeaderValue::from_str` and tells success from failure.
///
/// Trusted: the call is taken to succeed exactly when no byte of `token` is
/// a control character other than the tab.
#[verifier::external_body]
fn header_value_parses(token: &str) -> (r: bool)
    ensures
        r == token_wellformed(token@),
{
    reqwest::header::HeaderValue::from_str(token).is_ok()
}

/// Whether the access token can be sent as the value of a header. A token
/// that cannot is a fault of the settings, found before any request is sent.
pub fn token_accepted(token: &str) -> (r: bool)
    ensures
        r == token_wellformed(token@),
{
    header_value_parses(token)
}

/// The name of the header that carries the access token on every request.
pub fn token_header() -> (r: &'static str)
    ensures
        r@ == "PRIVATE-TOKEN"@,
{
    "PRIVATE-TOKEN"
}

/// The root of the REST interface of an instance.
pub open spec fn api_root(gitlab_url: Seq<char>) -> Seq<char> {
    gitlab_url + "/api/v4"@
}

/// The address of a project's metadata, the project given by name.
pub open spec fn project_address(base_url: Seq<char>, repo: Seq<char>) -> Seq<char> {
    base_url + "/projects/"@ + url_encoded(repo)
}

/// The address of the branches of a project: where a branch is created.
pub open spec fn branches_address(base_url: Seq<char>, project_id: u64) -> Seq<char> {
    base_url + "/projects/"@ + decimal(project_id as nat) + "/repository/branches"@
}

/// The address of one branch of a project.
pub open spec fn branch_address(base_url: Seq<char>, project_id: u64, branch_name: Seq<char>) -> Seq<
    char,
> {
    base_url + "/projects/"@ + decimal(project_id as nat) + "/repository/branches/"@ + branch_name
}

/// The root of the REST interface of the instance at `gitlab_url`.
pub fn base_url(gitlab_url: &str) -> (r: String)
    ensures
        r@ == api_root(gitlab_url@),
{
    let mut out = String::from_str(gitlab_url);
    out.append("/api/v4");
    out
}

/// The address to read a project's metadata from. The name is escaped, so
/// that a name with a namespace is one path segment.
pub fn project_url(base_url: &str, repo: &str) -> (r: String)
    ensures
        r@ == project_address(base_url@, repo@),
{
    let mut out = String::from_str(base_url);
    out.append("/projects/");
    let name = percent_encode(repo);
    out.append(name.as_str());
    out
}

/// The address to create a branch at.
pub fn branches_url(base_url: &str, project_id: u64) -> (r: String)
    ensures
        r@ == branches_address(base_url@, project_id),
{
    let mut out = String::from_str(base_url);
    out.append("/projects/");
    push_decimal(&mut out, project_id);
    out.append("/repository/branches");
    out
}

/// The address to ask for one branch at. The branch name goes in as it is.
pub fn branch_url(base_url: &str, project_id: u64, branch_name: &str) -> (r: String)
    ensures
        r@ == branch_address(base_url@, project_id, branch_name@),
{
    let mut out = branches_url(base_url, project_id);
    out.append("/");
    out.append(branch_name);
    proof {
        reveal_strlit("/repository/branches");
        reveal_strlit("/repository/branches/");
        reveal_strlit("/");
        assert("/repository/branches"@ + "/"@ =~= "/repository/branches/"@);
    }
    out
}

/// Whether the answer to a request for a branch says that the branch exists:
/// status 200 and no other.
pub fn branch_exists(status: u16) -> (r: bool)
    ensures
        r == (status == 200),
{
    status == 200
}

/// Whether the answer to a request to create a branch says that it was
/// created: status 201 and no other.
pub fn branch_created(status: u16) -> (r: bool)
    ensures
        r == (status == 201),
{
    status == 201
}

} // verus!
