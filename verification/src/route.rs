//! The HTTP surface: which route a method and a path name.
//!
//! | Method | Path | Route |
//! |---|---|---|
//! | POST | /admin/processor | create a processor |
//! | GET | /admin/processors | list the processors of the user |
//! | GET | /admin/processor/{id} | fetch a processor |
//! | PUT | /admin/processor/{id} | replace a processor |
//! | DELETE | /admin/processor/{id} | remove a processor |
//! | GET | /conversation/{id} | fetch a conversation with its items |
//! | GET | /conversation/{id}/audit_item | fetch the items of a conversation |
//! | any | /processor/{id}/run | run a processor |
//! | any | /processor/{id}/run_with_prelude | run it between prelude and sequel |
//! | any | /hello/{name} | run the default code |
//! | GET | /health_check | liveness |

use vstd::prelude::*;
use crate::ident::{parse_id, text_id};
use crate::text::text_eq;

verus! {

/// The parts of a text between the occurrences of a separator. A text
/// without the separator has one part, itself.
pub open spec fn split(text: Seq<char>, separator: char) -> Seq<Seq<char>>
    decreases text.len(),
{
    if text.len() == 0 {
        seq![Seq::empty()]
    } else {
        let front = split(text.drop_last(), separator);
        if text.last() == separator {
            front.push(Seq::empty())
        } else {
            front.drop_last().push(front.last().push(text.last()))
        }
    }
}

/// A text has at least one part.
pub proof fn lemma_split_len(text: Seq<char>, separator: char)
    ensures
        split(text, separator).len() > 0,
    decreases text.len(),
{
    if text.len() > 0 {
        lemma_split_len(text.drop_last(), separator);
    }
}

/// A text without the separator has one part, itself.
pub proof fn lemma_split_plain(text: Seq<char>, separator: char)
    requires
        forall|i: int| 0 <= i < text.len() ==> text[i] != separator,
    ensures
        split(text, separator) == seq![text],
    decreases text.len(),
{
    if text.len() == 0 {
        assert(text =~= Seq::<char>::empty());
    } else {
        let front = text.drop_last();
        lemma_split_plain(front, separator);
        assert(front.push(text.last()) =~= text);
        assert(seq![front].last() == front);
        assert(seq![front].drop_last().push(text) =~= seq![text]);
    }
}

/// A text without the separator that follows a separator is the last part,
/// behind the parts of what stands in front of that separator.
pub proof fn lemma_split_after(front: Seq<char>, text: Seq<char>, separator: char)
    requires
        forall|i: int| 0 <= i < text.len() ==> text[i] != separator,
    ensures
        split(front + seq![separator] + text, separator) == split(front, separator).push(text),
    decreases text.len(),
{
    let whole = front + seq![separator] + text;
    let parts = split(front, separator);
    if text.len() == 0 {
        assert(whole.drop_last() =~= front);
        assert(whole.last() == separator);
        assert(text =~= Seq::<char>::empty());
    } else {
        let shorter = text.drop_last();
        lemma_split_after(front, shorter, separator);
        assert(whole.drop_last() =~= front + seq![separator] + shorter);
        assert(whole.last() == text.last());
        assert(parts.push(shorter).drop_last() =~= parts);
        assert(shorter.push(text.last()) =~= text);
    }
}

/// The path of a conversation, the text `/conversation/` followed by a
/// text without a slash, has three parts: none, `conversation`, and the text.
pub proof fn lemma_conversation_path(text: Seq<char>)
    requires
        forall|i: int| 0 <= i < text.len() ==> text[i] != '/',
    ensures
        split("/conversation/"@ + text, '/') == seq![Seq::<char>::empty(), "conversation"@, text],
{
    reveal_strlit("/conversation/");
    reveal_strlit("conversation");
    let name = "conversation"@;
    let none = Seq::<char>::empty();
    assert(name.len() == 12);
    assert forall|i: int| 0 <= i < name.len() implies name[i] != '/' by {
        if i == 0 {
        } else if i == 1 {
        } else if i == 2 {
        } else if i == 3 {
        } else if i == 4 {
        } else if i == 5 {
        } else if i == 6 {
        } else if i == 7 {
        } else if i == 8 {
        } else if i == 9 {
        } else if i == 10 {
        } else {
        }
    }
    lemma_split_plain(none, '/');
    lemma_split_after(none, name, '/');
    lemma_split_after(none + seq!['/'] + name, text, '/');
    assert("/conversation/"@ =~= none + seq!['/'] + name + seq!['/']);
    assert("/conversation/"@ + text =~= none + seq!['/'] + name + seq!['/'] + text);
}

/// The path `/conversation/` followed by a text without a slash that reads
/// as an identifier names, for the method GET, the route that fetches the
/// conversation of that identifier.
pub proof fn lemma_conversation_route(text: Seq<char>, id: u128)
    requires
        forall|i: int| 0 <= i < text.len() ==> text[i] != '/',
        text_id(text) == Some(id),
    ensures
        route_of("GET"@, "/conversation/"@ + text) == Route::GetConversation(id),
{
    lemma_conversation_path(text);
    reveal_strlit("conversation");
    reveal_strlit("hello");
    reveal_strlit("admin");
    assert("conversation"@.len() == 12);
    assert("hello"@.len() == 5);
    assert("admin"@.len() == 5);
}

/// The texts of a list of strings.
pub open spec fn texts(parts: Seq<String>) -> Seq<Seq<char>> {
    parts.map_values(|p: String| p@)
}

/// Splits a text at each occurrence of a separator.
pub fn split_text(text: &str, separator: char) -> (parts: Vec<String>)
    ensures
        texts(parts@) == split(text@, separator),
{
    let n = text.unicode_len();
    let mut parts: Vec<String> = Vec::new();
    let mut start: usize = 0;
    let mut i: usize = 0;
    proof {
        assert(text@.take(0) =~= Seq::<char>::empty());
        assert(text@.subrange(0, 0) =~= Seq::<char>::empty());
        assert(texts(parts@).push(text@.subrange(0, 0)) =~= seq![Seq::<char>::empty()]);
    }
    while i < n
        invariant
            n == text@.len(),
            start <= i <= n,
            split(text@.take(i as int), separator) == texts(parts@).push(
                text@.subrange(start as int, i as int),
            ),
        decreases n - i,
    {
        let c = text.get_char(i);
        proof {
            let longer = text@.take(i as int + 1);
            assert(longer.drop_last() =~= text@.take(i as int));
            assert(longer.last() == c);
            let front = split(text@.take(i as int), separator);
            assert(front.last() == text@.subrange(start as int, i as int));
            assert(front.drop_last() =~= texts(parts@));
            assert(text@.subrange(start as int, i as int).push(c) =~= text@.subrange(
                start as int,
                i as int + 1,
            ));
            assert(text@.subrange(i as int + 1, i as int + 1) =~= Seq::<char>::empty());
        }
        if c == separator {
            let part = text.substring_char(start, i).to_owned();
            proof {
                assert(texts(parts@.push(part)) =~= texts(parts@).push(part@));
            }
            parts.push(part);
            start = i + 1;
        }
        i += 1;
    }
    let part = text.substring_char(start, n).to_owned();
    proof {
        assert(text@.take(n as int) =~= text@);
        assert(texts(parts@.push(part)) =~= texts(parts@).push(part@));
    }
    parts.push(part);
    parts
}

/// What a request asks for.
#[derive(Clone, Copy, Debug, PartialEq, Eq, Structural)]
pub enum Route {
    CreateProcessor,
    GetProcessors,
    GetProcessor(u128),
    UpdateProcessor(u128),
    DeleteProcessor(u128),
    GetConversation(u128),
    GetConversationItems(u128),
    Run { id: u128, prelude: bool },
    Hello,
    HealthCheck,
    /// The path names a route, but not for this method.
    MethodNotAllowed,
    /// The path names no route.
    NotFound,
}

/// The route of a path for every method, if the path has one.
pub open spec fn any_method_route(parts: Seq<Seq<char>>) -> Option<Route> {
    if parts.len() == 4 && parts[1] == "processor"@ && parts[3] == "run"@ {
        match text_id(parts[2]) {
            Some(id) => Some(Route::Run { id, prelude: false }),
            None => None,
        }
    } else if parts.len() == 4 && parts[1] == "processor"@ && parts[3] == "run_with_prelude"@ {
        match text_id(parts[2]) {
            Some(id) => Some(Route::Run { id, prelude: true }),
            None => None,
        }
    } else if parts.len() == 3 && parts[1] == "hello"@ {
        Some(Route::Hello)
    } else {
        None
    }
}

/// The route of a path for the method GET, if the path has one.
pub open spec fn get_route(parts: Seq<Seq<char>>) -> Option<Route> {
    if parts.len() == 3 && parts[1] == "admin"@ && parts[2] == "processors"@ {
        Some(Route::GetProcessors)
    } else if parts.len() == 4 && parts[1] == "admin"@ && parts[2] == "processor"@ {
        match text_id(parts[3]) {
            Some(id) => Some(Route::GetProcessor(id)),
            None => None,
        }
    } else if parts.len() == 3 && parts[1] == "conversation"@ {
        match text_id(parts[2]) {
            Some(id) => Some(Route::GetConversation(id)),
            None => None,
        }
    } else if parts.len() == 4 && parts[1] == "conversation"@ && parts[3] == "audit_item"@ {
        match text_id(parts[2]) {
            Some(id) => Some(Route::GetConversationItems(id)),
            None => None,
        }
    } else if parts.len() == 2 && parts[1] == "health_check"@ {
        Some(Route::HealthCheck)
    } else {
        None
    }
}

/// The route of a path for the method POST, if the path has one.
pub open spec fn post_route(parts: Seq<Seq<char>>) -> Option<Route> {
    if parts.len() == 3 && parts[1] == "admin"@ && parts[2] == "processor"@ {
        Some(Route::CreateProcessor)
    } else {
        None
    }
}

/// The route of a path for the method PUT, if the path has one.
pub open spec fn put_route(parts: Seq<Seq<char>>) -> Option<Route> {
    if parts.len() == 4 && parts[1] == "admin"@ && parts[2] == "processor"@ {
        match text_id(parts[3]) {
            Some(id) => Some(Route::UpdateProcessor(id)),
            None => None,
        }
    } else {
        None
    }
}

/// The route of a path for the method DELETE, if the path has one.
pub open spec fn delete_route(parts: Seq<Seq<char>>) -> Option<Route> {
    if parts.len() == 4 && parts[1] == "admin"@ && parts[2] == "processor"@ {
        match text_id(parts[3]) {
            Some(id) => Some(Route::DeleteProcessor(id)),
            None => None,
        }
    } else {
        None
    }
}

/// The route of a path for a method that is given by name, if the path has
/// one for it.
pub open spec fn method_route(method: Seq<char>, parts: Seq<Seq<char>>) -> Option<Route> {
    if method == "GET"@ {
        get_route(parts)
    } else if method == "POST"@ {
        post_route(parts)
    } else if method == "PUT"@ {
        put_route(parts)
    } else if method == "DELETE"@ {
        delete_route(parts)
    } else {
        None
    }
}

/// The path has a route for some method that is given by name.
pub open spec fn some_method_route(parts: Seq<Seq<char>>) -> bool {
    get_route(parts) is Some || post_route(parts) is Some || put_route(parts) is Some
        || delete_route(parts) is Some
}

/// The route that a method and the parts of a path name. A path names
/// routes only where it starts with the separator, so that its first part is
/// empty.
pub open spec fn parts_route(method: Seq<char>, parts: Seq<Seq<char>>) -> Route {
    if parts.len() == 0 || parts[0].len() != 0 {
        Route::NotFound
    } else {
        match any_method_route(parts) {
            Some(r) => r,
            None => match method_route(method, parts) {
                Some(r) => r,
                None => if some_method_route(parts) {
                    Route::MethodNotAllowed
                } else {
                    Route::NotFound
                },
            },
        }
    }
}

/// The route that a method and a path name.
pub open spec fn route_of(method: Seq<char>, path: Seq<char>) -> Route {
    parts_route(method, split(path, '/'))
}

/// True when the part at an index is the text given.
fn part_is(parts: &Vec<String>, i: usize, text: &str) -> (is: bool)
    requires
        i < parts@.len(),
    ensures
        is == (texts(parts@)[i as int] == text@),
{
    text_eq(parts[i].as_str(), text)
}

/// The identifier that the part at an index is.
fn part_id(parts: &Vec<String>, i: usize) -> (id: Option<u128>)
    requires
        i < parts@.len(),
    ensures
        id == text_id(texts(parts@)[i as int]),
{
    parse_id(parts[i].as_str())
}

fn find_any_method_route(parts: &Vec<String>) -> (found: Option<Route>)
    ensures
        found == any_method_route(texts(parts@)),
{
    let n = parts.len();
    if n == 4 && part_is(parts, 1, "processor") && part_is(parts, 3, "run") {
        match part_id(parts, 2) {
            Some(id) => Some(Route::Run { id, prelude: false }),
            None => None,
        }
    } else if n == 4 && part_is(parts, 1, "processor") && part_is(parts, 3, "run_with_prelude") {
        match part_id(parts, 2) {
            Some(id) => Some(Route::Run { id, prelude: true }),
            None => None,
        }
    } else if n == 3 && part_is(parts, 1, "hello") {
        Some(Route::Hello)
    } else {
        None
    }
}

fn find_get_route(parts: &Vec<String>) -> (found: Option<Route>)
    ensures
        found == get_route(texts(parts@)),
{
    let n = parts.len();
    if n == 3 && part_is(parts, 1, "admin") && part_is(parts, 2, "processors") {
        Some(Route::GetProcessors)
    } else if n == 4 && part_is(parts, 1, "admin") && part_is(parts, 2, "processor") {
        match part_id(parts, 3) {
            Some(id) => Some(Route::GetProcessor(id)),
            None => None,
        }
    } else if n == 3 && part_is(parts, 1, "conversation") {
        match part_id(parts, 2) {
            Some(id) => Some(Route::GetConversation(id)),
            None => None,
        }
    } else if n == 4 && part_is(parts, 1, "conversation") && part_is(parts, 3, "audit_item") {
        match part_id(parts, 2) {
            Some(id) => Some(Route::GetConversationItems(id)),
            None => None,
        }
    } else if n == 2 && part_is(parts, 1, "health_check") {
        Some(Route::HealthCheck)
    } else {
        None
    }
}

fn find_post_route(parts: &Vec<String>) -> (found: Option<Route>)
    ensures
        found == post_route(texts(parts@)),
{
    if parts.len() == 3 && part_is(parts, 1, "admin") && part_is(parts, 2, "processor") {
        Some(Route::CreateProcessor)
    } else {
        None
    }
}

/// The identifier of the processor that an admin path names, if it names
/// one.
fn find_admin_processor(parts: &Vec<String>) -> (found: Option<u128>)
    ensures
        found == if texts(parts@).len() == 4 && texts(parts@)[1] == "admin"@ && texts(parts@)[2]
            == "processor"@ {
            text_id(texts(parts@)[3])
        } else {
            None
        },
{
    if parts.len() == 4 && part_is(parts, 1, "admin") && part_is(parts, 2, "processor") {
        part_id(parts, 3)
    } else {
        None
    }
}

/// The route that a method and a path name.
pub fn route(method: &str, path: &str) -> (found: Route)
    ensures
        found == route_of(method@, path@),
{
    let parts = split_text(path, '/');
    proof {
        lemma_split_len(path@, '/');
    }
    if parts.len() == 0 || parts[0].as_str().unicode_len() != 0 {
        return Route::NotFound;
    }
    match find_any_method_route(&parts) {
        Some(r) => {
            return r;
        },
        None => {},
    }
    let get = find_get_route(&parts);
    let post = find_post_route(&parts);
    let admin = find_admin_processor(&parts);
    let named = if text_eq(method, "GET") {
        get
    } else if text_eq(method, "POST") {
        post
    } else if text_eq(method, "PUT") {
        match admin {
            Some(id) => Some(Route::UpdateProcessor(id)),
            None => None,
        }
    } else if text_eq(method, "DELETE") {
        match admin {
            Some(id) => Some(Route::DeleteProcessor(id)),
            None => None,
        }
    } else {
        None
    };
    match named {
        Some(r) => r,
        None => if get.is_some() || post.is_some() || admin.is_some() {
            Route::MethodNotAllowed
        } else {
            Route::NotFound
        },
    }
}

} // verus!
