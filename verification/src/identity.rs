//! How a run names itself.

use crate::clock::Timestamp;
use crate::text::{join2, join3, option_view, to_ascii_lower, trim};
use vstd::prelude::*;
use vstd::utf8::{decode_utf8, valid_utf8};

verus! {

/// A text that is set and not empty.
pub open spec fn filled(text: Option<Seq<char>>) -> Option<Seq<char>> {
    match text {
        Some(t) => if t.len() > 0 {
            Some(t)
        } else {
            None
        },
        None => None,
    }
}

/// A text that is set and not empty.
pub fn if_filled(text: &Option<String>) -> (out: Option<String>)
    ensures
        option_view(out) == filled(option_view(*text)),
{
    match text {
        Some(t) => if t.as_str().is_empty() {
            None
        } else {
            Some(t.clone())
        },
        None => None,
    }
}

/// The bytes of an optional list.
pub open spec fn bytes_view(bytes: Option<Vec<u8>>) -> Option<Seq<u8>> {
    match bytes {
        Some(b) => Some(b@),
        None => None,
    }
}

/// `String::from_utf8` of std: the text that the bytes encode, if they are valid UTF-8.
#[verifier::external_body]
fn text_of(bytes: &Vec<u8>) -> (text: Option<String>)
    ensures
        text is Some <==> valid_utf8(bytes@),
        text matches Some(t) ==> t@ == decode_utf8(bytes@),
{
    String::from_utf8(bytes.clone()).ok()
}

/// The commit that a run reports: the configured one, else what git printed, without the white
/// space around it, else `unknown`.
pub open spec fn reported_commit(
    configured: Option<Seq<char>>,
    git_head: Option<Seq<u8>>,
) -> Seq<char> {
    let printed = match git_head {
        Some(bytes) => if valid_utf8(bytes) {
            Some(crate::text::trimmed(decode_utf8(bytes)))
        } else {
            None
        },
        None => None,
    };
    match filled(configured) {
        Some(commit) => commit,
        None => filled(printed).unwrap_or("unknown"@),
    }
}

/// Whether git has to be asked for the commit.
pub fn needs_git_head(configured: &Option<String>) -> (yes: bool)
    ensures
        yes == (filled(option_view(*configured)) is None),
{
    match configured {
        Some(commit) => commit.as_str().is_empty(),
        None => true,
    }
}

/// The commit that a run reports.
pub fn source_commit(configured: &Option<String>, git_head: &Option<Vec<u8>>) -> (commit: String)
    ensures
        commit@ == reported_commit(option_view(*configured), bytes_view(*git_head)),
{
    if let Some(commit) = if_filled(configured) {
        return commit;
    }
    if let Some(bytes) = git_head {
        if let Some(text) = text_of(bytes) {
            let commit = trim(text.as_str());
            if !commit.as_str().is_empty() {
                return commit;
            }
        }
    }
    "unknown".to_owned()
}

/// The host name that a run reports: the first that is known, in lower case.
pub open spec fn reported_host(
    hostname: Option<Seq<char>>,
    computername: Option<Seq<char>>,
) -> Seq<char> {
    crate::text::ascii_lowered(
        crate::known::first_known(hostname, computername).unwrap_or("unknown-host"@),
    )
}

/// The host name that a run reports.
pub fn host_name(hostname: &Option<String>, computername: &Option<String>) -> (host: String)
    ensures
        host@ == reported_host(option_view(*hostname), option_view(*computername)),
{
    match hostname {
        Some(name) => to_ascii_lower(name.as_str()),
        None => match computername {
            Some(name) => to_ascii_lower(name.as_str()),
            None => to_ascii_lower("unknown-host"),
        },
    }
}

/// The identifier of a run: the configured one, else one made of the host and the time.
pub open spec fn run_id_for(
    configured: Option<Seq<char>>,
    host: Seq<char>,
    stamp: Timestamp,
) -> Seq<char> {
    match filled(configured) {
        Some(id) => id,
        None => "mewx-"@ + host + "-"@ + stamp.compact(),
    }
}

/// The identifier of a run.
pub fn run_id(configured: &Option<String>, host: &str, stamp: Timestamp) -> (id: String)
    ensures
        id@ == run_id_for(option_view(*configured), host@, stamp),
{
    if let Some(id) = if_filled(configured) {
        return id;
    }
    let prefix = join3("mewx-", host, "-");
    let time = stamp.compact_text();
    join2(prefix.as_str(), time.as_str())
}

} // verus!
