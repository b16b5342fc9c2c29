//! The loopback redirect: what is read from the first line of the browser's
//! request, what is answered, and what the accept loop does next.

use vstd::prelude::*;
use vstd::string::*;
use crate::text::{decimal, is_space, is_whitespace, join2, pairs_view, push_decimal};
use crate::weburl::{parse_url, url_query_pairs, url_serialization};

verus! {

/// The first place at or after `from` that holds no white space, or the end.
pub open spec fn skip_spaces(line: Seq<char>, from: int) -> int
    decreases line.len() - from,
{
    if 0 <= from < line.len() && is_space(line[from]) {
        skip_spaces(line, from + 1)
    } else {
        from
    }
}

/// The first place at or after `from` that holds white space, or the end.
pub open spec fn skip_word(line: Seq<char>, from: int) -> int
    decreases line.len() - from,
{
    if 0 <= from < line.len() && !is_space(line[from]) {
        skip_word(line, from + 1)
    } else {
        from
    }
}

/// Where the word with number `n` starts, counting from 0; the length of the
/// line where it has fewer words.
pub open spec fn word_start(line: Seq<char>, n: nat) -> int
    decreases n,
{
    if n == 0 {
        skip_spaces(line, 0)
    } else {
        skip_spaces(line, skip_word(line, word_start(line, (n - 1) as nat)))
    }
}

/// The word with number `n` of a line that is split at white space.
pub open spec fn nth_word(line: Seq<char>, n: nat) -> Option<Seq<char>> {
    let start = word_start(line, n);
    if 0 <= start < line.len() {
        Some(line.subrange(start, skip_word(line, start)))
    } else {
        None
    }
}

/// The request target of a request line `METHOD TARGET VERSION`: its second
/// word.
pub open spec fn request_target(line: Seq<char>) -> Option<Seq<char>> {
    nth_word(line, 1)
}

/// Whether `word` is a word: not empty, and without white space.
pub open spec fn is_word(word: Seq<char>) -> bool {
    word.len() > 0 && forall|i: int| 0 <= i < word.len() ==> !is_space(#[trigger] word[i])
}

/// Whether `gap` is nothing but white space.
pub open spec fn is_blank(gap: Seq<char>) -> bool {
    forall|i: int| 0 <= i < gap.len() ==> is_space(#[trigger] gap[i])
}

proof fn lemma_skip_spaces_run(line: Seq<char>, from: int, to: int)
    requires
        0 <= from <= to <= line.len(),
        forall|k: int| from <= k < to ==> is_space(#[trigger] line[k]),
        to == line.len() || !is_space(line[to]),
    ensures
        skip_spaces(line, from) == to,
    decreases to - from,
{
    if from < to {
        lemma_skip_spaces_run(line, from + 1, to);
    }
}

proof fn lemma_skip_word_run(line: Seq<char>, from: int, to: int)
    requires
        0 <= from <= to <= line.len(),
        forall|k: int| from <= k < to ==> !is_space(#[trigger] line[k]),
        to == line.len() || is_space(line[to]),
    ensures
        skip_word(line, from) == to,
    decreases to - from,
{
    if from < to {
        lemma_skip_word_run(line, from + 1, to);
    }
}

/// In a line of the shape `METHOD TARGET VERSION`, the request target is
/// `TARGET`: whatever white space precedes the method and parts it from the
/// target, and whatever follows the target after white space.
pub proof fn lemma_request_target_of_request_line(
    before: Seq<char>,
    method: Seq<char>,
    gap: Seq<char>,
    target: Seq<char>,
    rest: Seq<char>,
)
    requires
        is_blank(before),
        is_word(method),
        gap.len() > 0,
        is_blank(gap),
        is_word(target),
        rest.len() == 0 || is_space(rest[0]),
    ensures
        request_target(before + method + gap + target + rest) == Some(target),
{
    let line = before + method + gap + target + rest;
    let a = before.len() as int;
    let b = a + method.len();
    let c = b + gap.len();
    let d = c + target.len();
    assert forall|k: int| 0 <= k < a implies is_space(#[trigger] line[k]) by {
        assert(line[k] == before[k]);
    }
    assert forall|k: int| a <= k < b implies !is_space(#[trigger] line[k]) by {
        assert(line[k] == method[k - a]);
    }
    assert forall|k: int| b <= k < c implies is_space(#[trigger] line[k]) by {
        assert(line[k] == gap[k - b]);
    }
    assert forall|k: int| c <= k < d implies !is_space(#[trigger] line[k]) by {
        assert(line[k] == target[k - c]);
    }
    if d < line.len() {
        assert(line[d] == rest[0]);
    }
    lemma_skip_spaces_run(line, 0, a);
    lemma_skip_word_run(line, a, b);
    lemma_skip_spaces_run(line, b, c);
    lemma_skip_word_run(line, c, d);
    assert(word_start(line, 0) == a);
    assert(word_start(line, 1) == skip_spaces(line, skip_word(line, word_start(line, 0))));
    assert(line.subrange(c, d) =~= target);
}

/// A line with one word or none has no request target.
pub proof fn lemma_no_request_target_in_short_line(
    before: Seq<char>,
    method: Seq<char>,
    after: Seq<char>,
)
    requires
        is_blank(before),
        method.len() == 0 || is_word(method),
        is_blank(after),
    ensures
        request_target(before + method + after) is None,
{
    let line = before + method + after;
    let a = before.len() as int;
    let b = a + method.len();
    let end = line.len() as int;
    assert forall|k: int| 0 <= k < a implies is_space(#[trigger] line[k]) by {
        assert(line[k] == before[k]);
    }
    assert forall|k: int| a <= k < b implies !is_space(#[trigger] line[k]) by {
        assert(line[k] == method[k - a]);
    }
    assert forall|k: int| b <= k < end implies is_space(#[trigger] line[k]) by {
        assert(line[k] == after[k - b]);
    }
    assert(word_start(line, 1) == skip_spaces(line, skip_word(line, word_start(line, 0))));
    if method.len() == 0 {
        lemma_skip_spaces_run(line, 0, end);
        lemma_skip_word_run(line, end, end);
        lemma_skip_spaces_run(line, end, end);
    } else {
        lemma_skip_spaces_run(line, 0, a);
        lemma_skip_word_run(line, a, b);
        lemma_skip_spaces_run(line, b, end);
    }
}

fn pass_spaces(line: &str, from: usize, len: usize) -> (to: usize)
    requires
        from <= len == line@.len(),
    ensures
        to == skip_spaces(line@, from as int),
        from <= to <= len,
        to < len ==> !is_space(line@[to as int]),
{
    let mut i: usize = from;
    while i < len && is_whitespace(line.get_char(i))
        invariant
            from <= i <= len == line@.len(),
            skip_spaces(line@, from as int) == skip_spaces(line@, i as int),
        decreases len - i,
    {
        i += 1;
    }
    i
}

fn pass_word(line: &str, from: usize, len: usize) -> (to: usize)
    requires
        from <= len == line@.len(),
    ensures
        to == skip_word(line@, from as int),
        from <= to <= len,
        from < len && !is_space(line@[from as int]) ==> from < to,
        forall|k: int| from <= k < to ==> !is_space(#[trigger] line@[k]),
{
    let mut i: usize = from;
    while i < len && !is_whitespace(line.get_char(i))
        invariant
            from <= i <= len == line@.len(),
            skip_word(line@, from as int) == skip_word(line@, i as int),
            forall|k: int| from <= k < i ==> !is_space(#[trigger] line@[k]),
        decreases len - i,
    {
        i += 1;
    }
    i
}

/// Reads the request target from the first line of an HTTP request. `None`
/// where the line has fewer than two words. A target is never empty and holds
/// no white space.
pub fn read_request_target(line: &str) -> (target: Option<String>)
    ensures
        target is Some <==> request_target(line@) is Some,
        target matches Some(t) ==> request_target(line@) == Some(t@) && t@.len() > 0 && forall|
            k: int,
        | 0 <= k < t@.len() ==> !is_space(#[trigger] t@[k]),
{
    let len = line.unicode_len();
    let first = pass_spaces(line, 0, len);
    let first_end = pass_word(line, first, len);
    let second = pass_spaces(line, first_end, len);
    assert(word_start(line@, 0) == first);
    assert(word_start(line@, 1) == second) by {
        assert(word_start(line@, 1) == skip_spaces(line@, skip_word(line@, word_start(line@, 0))));
    }
    if second < len {
        let second_end = pass_word(line, second, len);
        assert(second_end > second);
        let word = line.substring_char(second, second_end);
        Some(String::from_str(word))
    } else {
        None
    }
}

/// The value of the first pair that is named `code`.
pub open spec fn code_in(pairs: Seq<(Seq<char>, Seq<char>)>) -> Option<Seq<char>>
    decreases pairs.len(),
{
    if pairs.len() == 0 {
        None
    } else if pairs[0].0 == "code"@ {
        Some(pairs[0].1)
    } else {
        code_in(pairs.drop_first())
    }
}

/// Looks for the authorization code among the pairs of a query string: the
/// value of the first pair whose name is exactly `code`.
pub fn find_code(pairs: &Vec<(String, String)>) -> (code: Option<String>)
    ensures
        code is Some <==> code_in(pairs_view(pairs@)) is Some,
        code matches Some(c) ==> code_in(pairs_view(pairs@)) == Some(c@),
        code is None <==> forall|i: int| 0 <= i < pairs@.len() ==> (#[trigger] pairs@[i]).0@ != "code"@,
        code matches Some(c) ==> exists|i: int|
            0 <= i < pairs@.len() && (#[trigger] pairs@[i]).0@ == "code"@ && pairs@[i].1@ == c@ && forall|
                j: int,
            | 0 <= j < i ==> (#[trigger] pairs@[j]).0@ != "code"@,
{
    let wanted = String::from_str("code");
    let ghost all = pairs_view(pairs@);
    let mut i: usize = 0;
    assert(all.subrange(0, all.len() as int) =~= all);
    while i < pairs.len()
        invariant
            i <= pairs@.len(),
            wanted@ == "code"@,
            all == pairs_view(pairs@),
            code_in(all) == code_in(all.subrange(i as int, all.len() as int)),
            forall|j: int| 0 <= j < i ==> (#[trigger] pairs@[j]).0@ != "code"@,
        decreases pairs@.len() - i,
    {
        let ghost rest = all.subrange(i as int, all.len() as int);
        assert(rest[0] == all[i as int]);
        assert(rest.drop_first() =~= all.subrange(i as int + 1, all.len() as int));
        if pairs[i].0 == wanted {
            let value = pairs[i].1.clone();
            assert(code_in(rest) == Some(value@));
            return Some(value);
        }
        i += 1;
    }
    assert(all.subrange(i as int, all.len() as int).len() == 0);
    None
}

/// The URL on which the query string of a request target is read: the target
/// behind a scheme and a host of no importance.
pub open spec fn redirect_url_text(target: Seq<char>) -> Seq<char> {
    "http://localhost"@ + target
}

/// The authorization code that the first line of a redirect request carries:
/// the request target is made a URL, and where the `url` crate accepts it, the
/// code is looked for among the pairs that the crate reads from its query
/// string.
pub open spec fn redirect_code(line: Seq<char>) -> Option<Seq<char>> {
    match request_target(line) {
        None => None,
        Some(target) => if url_serialization(redirect_url_text(target)) is Some {
            code_in(url_query_pairs(redirect_url_text(target)))
        } else {
            None
        },
    }
}

/// Extracts the authorization code from the first line of the request that
/// the browser made to the loopback listener. `None` where the line has no
/// request target, the target is no URL path, or its query string has no
/// parameter named `code`.
pub fn read_redirect_code(line: &str) -> (code: Option<String>)
    ensures
        code is Some <==> redirect_code(line@) is Some,
        code matches Some(c) ==> redirect_code(line@) == Some(c@),
{
    match read_request_target(line) {
        None => None,
        Some(target) => {
            let url_text = join2("http://localhost", target.as_str());
            match parse_url(url_text.as_str()) {
                None => None,
                Some(url) => find_code(&url.query_pairs),
            }
        },
    }
}

/// The answer to any request with the given body: status 200, the length of
/// the body in bytes, and the body.
pub open spec fn ok_response(body: &str) -> Seq<char> {
    "HTTP/1.1 200 OK\r\ncontent-length: "@ + decimal(body.spec_bytes().len()) + "\r\n\r\n"@ + body@
}

/// Writes the HTTP answer with status 200 and `body`.
pub fn write_ok_response(body: &str) -> (response: String)
    ensures
        response@ == ok_response(body),
{
    let mut response = String::from_str("HTTP/1.1 200 OK\r\ncontent-length: ");
    let length = body.as_bytes().len();
    push_decimal(&mut response, length as u64);
    response.append("\r\n\r\n");
    response.append(body);
    response
}

/// The page that the browser shows once the redirect was received.
pub fn confirmation_response() -> (response: String)
    ensures
        response@ == ok_response("Login Complete! You can close this window."),
{
    write_ok_response("Login Complete! You can close this window.")
}

/// What the accept loop of the redirect listener met.
#[derive(Debug)]
pub enum AcceptEvent {
    /// A connection was accepted, and this is the first line of its request.
    Connection(String),
    /// No connection is waiting.
    WouldBlock,
    /// Accepting failed for another reason.
    Failed,
}

/// What the accept loop does next.
#[derive(Debug)]
pub enum AcceptAction {
    /// Hand the code, if there is one, to the session; write `response` to the
    /// connection; close it, and stop listening.
    Reply { code: Option<String>, response: String },
    /// Let the given number of frames pass, then poll again.
    Sleep(u32),
    /// Give the sign-in attempt up.
    Abort,
}

/// The number of frames that the accept loop lets pass between two polls.
pub open spec fn poll_interval() -> u32 {
    60
}

/// Decides what the accept loop does after `event`. The listener serves one
/// connection: whatever its request holds, it is answered and the loop ends.
pub fn accept_step(event: &AcceptEvent) -> (action: AcceptAction)
    ensures
        match *event {
            AcceptEvent::Connection(line) => action matches AcceptAction::Reply { code, response }
                && response@ == ok_response("Login Complete! You can close this window.")
                && (code is Some <==> redirect_code(line@) is Some)
                && (code matches Some(c) ==> redirect_code(line@) == Some(c@)),
            AcceptEvent::WouldBlock => action == AcceptAction::Sleep(poll_interval()),
            AcceptEvent::Failed => action == AcceptAction::Abort,
        },
{
    match event {
        AcceptEvent::Connection(line) => AcceptAction::Reply {
            code: read_redirect_code(line.as_str()),
            response: confirmation_response(),
        },
        AcceptEvent::WouldBlock => AcceptAction::Sleep(60),
        AcceptEvent::Failed => AcceptAction::Abort,
    }
}

} // verus!
