//! The greeting page: the caller's address, as an IP-echo service reports it,
//! set into a page of HTML.

use crate::error::{error_reply, error_response, RequestError};
use crate::fields::TextMap;
use crate::json::json_string_fields;
use crate::response::{Body, BodyView, ContentType, Response, ResponseView, OK};
use crate::text::{
    clear_before, lemma_clear_before, lemma_substituted_at_placeholder,
    lemma_substituted_without_placeholder, substitute, substituted,
};
use vstd::prelude::*;

verus! {

/// The service that is asked for the caller's address. It answers with a
/// JSON object of strings.
pub const IP_ECHO_URL: &'static str = "https://httpbin.org/ip";

/// The member of the answer that holds the address.
pub const ORIGIN: &'static str = "origin";

/// The page; `{}` stands where the address goes.
pub const HTML: &'static str =
    "\n<!DOCTYPE html>\n<html>\n<head>\n<style>\n    body {\n        background-color: lightgreen;\n    }\n</style>\n    <body>\n    Hi: {}\n    </body>\n</html>";

/// The page in front of the address.
pub open spec fn page_head() -> Seq<char> {
    "\n<!DOCTYPE html>\n<html>\n<head>\n<style>\n    body {\n        background-color: lightgreen;\n    }\n</style>\n    <body>\n    Hi: "@
}

/// The page behind the address.
pub open spec fn page_tail() -> Seq<char> {
    "\n    </body>\n</html>"@
}

/// The address in the answer of the IP-echo service: its member `origin`.
pub open spec fn origin_of(fields: Option<Map<Seq<char>, Seq<char>>>) -> Option<Seq<char>> {
    match fields {
        Some(members) => if members.dom().contains(ORIGIN@) {
            Some(members[ORIGIN@])
        } else {
            None
        },
        None => None,
    }
}

/// The greeting for a caller at `origin`, or for one whose address could not
/// be found out.
pub open spec fn greeting_reply(origin: Option<Seq<char>>) -> ResponseView {
    match origin {
        Some(address) => ResponseView {
            status: OK,
            content_type: Some(ContentType::Html),
            x_app: None,
            body: BodyView::Text(substituted(HTML@, address)),
        },
        None => error_reply(RequestError::Upstream),
    }
}

/// The greeting page for a caller at `origin`: the page with the address in
/// place of `{}`. Where the address is not known, the response says that the
/// service behind this one failed.
pub fn greeting(origin: Option<&str>) -> (reply: Response)
    ensures
        reply@ == greeting_reply(
            match origin {
                Some(address) => Some(address@),
                None => None,
            },
        ),
{
    match origin {
        Some(address) => Response {
            status: OK,
            content_type: Some(ContentType::Html),
            x_app: None,
            body: Body::Text(substitute(HTML, address)),
        },
        None => error_response(RequestError::Upstream),
    }
}

/// The page holds the address once, in the place of `{}`, and is otherwise
/// the same for every caller.
pub proof fn lemma_page_holds_address(address: Seq<char>)
    ensures
        substituted(HTML@, address) == page_head() + address + page_tail(),
{
    reveal_strlit(
        "\n<!DOCTYPE html>\n<html>\n<head>\n<style>\n    body {\n        background-color: lightgreen;\n    }\n</style>\n    <body>\n    Hi: {}\n    </body>\n</html>",
    );
    reveal_strlit(
        "\n<!DOCTYPE html>\n<html>\n<head>\n<style>\n    body {\n        background-color: lightgreen;\n    }\n</style>\n    <body>\n    Hi: ",
    );
    reveal_strlit("\n    </body>\n</html>");
    assert(HTML@ =~= page_head() + seq!['{', '}'] + page_tail());
    // The head holds one brace, in the style sheet; the check walks the head
    // in steps that the solver takes one at a time.
    assert(clear_before(HTML@, 25)) by {
        reveal_with_fuel(clear_before, 26);
    }
    assert(clear_before(HTML@, 50)) by {
        reveal_with_fuel(clear_before, 26);
    }
    assert(clear_before(HTML@, 75)) by {
        reveal_with_fuel(clear_before, 26);
    }
    assert(clear_before(HTML@, 100)) by {
        reveal_with_fuel(clear_before, 26);
    }
    assert(clear_before(HTML@, 122)) by {
        reveal_with_fuel(clear_before, 23);
    }
    lemma_clear_before(HTML@, 122);
    assert(clear_before(page_tail(), 20)) by {
        reveal_with_fuel(clear_before, 21);
    }
    lemma_clear_before(page_tail(), 20);
    lemma_substituted_at_placeholder(page_head(), page_tail(), address);
    lemma_substituted_without_placeholder(page_tail(), address);
}

/// Answers `GET` for the greeting page. `answer` is the body that the
/// IP-echo service sent, or `None` where the call to it failed. The address
/// is the member `origin` of that body, read as a JSON object of strings; a
/// body that is no such object, or has no such member, counts as a failed
/// call.
pub fn hello(answer: Option<&[u8]>) -> (reply: Response)
    ensures
        reply@ == greeting_reply(
            match answer {
                Some(body) => origin_of(json_string_fields(body@)),
                None => None,
            },
        ),
{
    let fields = match answer {
        Some(body) => TextMap::from_json(body),
        None => None,
    };
    match &fields {
        Some(members) => match members.get(ORIGIN) {
            Some(address) => greeting(Some(address.as_str())),
            None => greeting(None),
        },
        None => greeting(None),
    }
}

} // verus!
