//! The health probe: which build is running.

use crate::response::{Body, BodyView, Response, ResponseView, OK};
use vstd::prelude::*;
use vstd::string::StringExecFns;

verus! {

/// What stands for the commit hash where the build knows none.
pub const NO_COMMIT: &'static str = ":-(";

/// The number of characters of a short hash.
pub const SHORT_HASH_LENGTH: usize = 7;

/// The commit hash that the service reports: the build's, or `NO_COMMIT`.
pub open spec fn commit_text(commit: Option<Seq<char>>) -> Seq<char> {
    match commit {
        Some(hash) => hash,
        None => NO_COMMIT@,
    }
}

/// The first seven characters of a hash, or nothing where it has fewer.
pub open spec fn short_hash_of(hash: Seq<char>) -> Seq<char> {
    if hash.len() >= SHORT_HASH_LENGTH {
        hash.take(SHORT_HASH_LENGTH as int)
    } else {
        Seq::empty()
    }
}

/// The value of the `X-App` header: name, version and short hash, with a
/// colon between them.
pub open spec fn x_app_of(name: Seq<char>, version: Seq<char>, commit: Option<Seq<char>>) -> Seq<
    char,
> {
    name + ":"@ + version + ":"@ + short_hash_of(commit_text(commit))
}

/// The answer of the health probe.
pub open spec fn health_reply(
    name: Seq<char>,
    version: Seq<char>,
    commit: Option<Seq<char>>,
) -> ResponseView {
    ResponseView {
        status: OK,
        content_type: None,
        x_app: Some(x_app_of(name, version, commit)),
        body: BodyView::Text(commit_text(commit)),
    }
}

/// The first seven characters of `hash`, or the empty string where it has
/// fewer.
pub fn short_hash(hash: &str) -> (short: &str)
    ensures
        short@ == short_hash_of(hash@),
{
    if hash.unicode_len() >= SHORT_HASH_LENGTH {
        hash.substring_char(0, SHORT_HASH_LENGTH)
    } else {
        proof {
            reveal_strlit("");
        }
        ""
    }
}

/// Answers the health probe, under whatever method it came. `name` and
/// `version` are the package's, `commit` the hash of the commit that it was
/// built from, where the build knew it. The answer never fails: status 200,
/// `X-App` with name, version and short hash, and the whole hash as the body,
/// or `NO_COMMIT` in its place.
pub fn health(name: &str, version: &str, commit: Option<&str>) -> (reply: Response)
    ensures
        reply@ == health_reply(
            name@,
            version@,
            match commit {
                Some(hash) => Some(hash@),
                None => None,
            },
        ),
{
    let hash = match commit {
        Some(hash) => hash,
        None => NO_COMMIT,
    };
    let mut x_app = String::from_str(name);
    x_app.append(":");
    x_app.append(version);
    x_app.append(":");
    x_app.append(short_hash(hash));
    Response { status: OK, content_type: None, x_app: Some(x_app), body: Body::Text(hash.to_owned()) }
}

/// The `X-App` header is never empty, and where the build knows no commit
/// its last part is: the header ends with the colon behind the version, and
/// the body is `NO_COMMIT`.
pub proof fn lemma_health_without_commit(name: Seq<char>, version: Seq<char>)
    ensures
        x_app_of(name, version, None) == name + ":"@ + version + ":"@,
        health_reply(name, version, None).body == BodyView::Text(NO_COMMIT@),
{
    reveal_strlit(":-(");
}

/// The `X-App` header holds two colons at least, so it is never empty; it
/// starts with the name, and the short hash at its end has seven characters
/// or none.
pub proof fn lemma_x_app_shape(name: Seq<char>, version: Seq<char>, commit: Option<Seq<char>>)
    ensures
        x_app_of(name, version, commit).len() == name.len() + version.len() + 2 + short_hash_of(
            commit_text(commit),
        ).len(),
        x_app_of(name, version, commit).len() >= 2,
        x_app_of(name, version, commit).take(name.len() as int) == name,
        short_hash_of(commit_text(commit)).len() == 7 || short_hash_of(commit_text(commit)).len()
            == 0,
{
    reveal_strlit(":");
}

} // verus!
