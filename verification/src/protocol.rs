//! Telling what a new connection wants from its opening bytes, and the
//! answer to a request for the front page.

use vstd::prelude::*;
use vstd::string::*;

verus! {

/// Opens a request for the chat endpoint.
pub const CHAT_REQUEST: &'static str = "GET /ws";

/// Opens a request for the front page.
pub const PAGE_REQUEST: &'static str = "GET / ";

/// The response head up to the length of the page.
pub const PAGE_HEAD: &'static str =
    "HTTP/1.1 200 OK\r\nContent-Type: text/html\r\nContent-Length: ";

/// Ends the response head.
pub const HEAD_END: &'static str = "\r\n\r\n";

/// Where a new connection is handed.
#[derive(Clone, Copy, Debug, PartialEq, Eq)]
pub enum Route {
    /// Upgrade to a message stream and chat over it.
    WebSocket,
    /// Answer with the front page.
    StaticPage,
    /// Chat over the byte stream as it is.
    RawTcp,
}

/// Whether `needle` stands in `hay` at `at`.
pub open spec fn occurs_at(hay: Seq<u8>, needle: Seq<u8>, at: int) -> bool {
    0 <= at && at + needle.len() <= hay.len() && hay.subrange(at, at + needle.len()) == needle
}

/// Whether `needle` stands anywhere in `hay`.
pub open spec fn contains_spec(hay: Seq<u8>, needle: Seq<u8>) -> bool {
    exists|at: int| occurs_at(hay, needle, at)
}

/// Where the opening bytes of a connection send it. A request for the chat
/// endpoint wins over one for the front page; bytes that show neither, be
/// it for want of more, mean a raw chat.
pub open spec fn route_spec(peeked: Seq<u8>) -> Route {
    if contains_spec(peeked, CHAT_REQUEST.spec_bytes()) {
        Route::WebSocket
    } else if contains_spec(peeked, PAGE_REQUEST.spec_bytes()) {
        Route::StaticPage
    } else {
        Route::RawTcp
    }
}

/// A number in decimal digits.
pub open spec fn decimal_spec(n: nat) -> Seq<u8>
    decreases n,
{
    if n < 10 {
        seq![(0x30 + n) as u8]
    } else {
        decimal_spec(n / 10).push((0x30 + n % 10) as u8)
    }
}

/// The number that decimal digits stand for.
pub open spec fn decimal_value_spec(digits: Seq<u8>) -> nat
    decreases digits.len(),
{
    if digits.len() == 0 {
        0
    } else {
        (decimal_value_spec(digits.drop_last()) * 10 + (digits.last() - 0x30)) as nat
    }
}

/// The response that carries a page: the head, the length of the page in
/// bytes, and the page.
pub open spec fn page_response_spec(page: Seq<u8>) -> Seq<u8> {
    PAGE_HEAD.spec_bytes() + decimal_spec(page.len()) + HEAD_END.spec_bytes() + page
}

/// Whether `needle` stands in `hay` at `at`.
pub fn matches_at(hay: &[u8], needle: &[u8], at: usize) -> (found: bool)
    ensures
        found == occurs_at(hay@, needle@, at as int),
{
    let len: usize = hay.len();
    if at > len || needle.len() > len - at {
        return false;
    }
    let mut i: usize = 0;
    while i < needle.len()
        invariant
            i <= needle@.len(),
            at + needle@.len() <= hay@.len() == len,
            forall|j: int| 0 <= j < i ==> hay@[at + j] == needle@[j],
        decreases needle@.len() - i,
    {
        if hay[at + i] != needle[i] {
            assert(hay@.subrange(at as int, at + needle@.len())[i as int] != needle@[i as int]);
            return false;
        }
        i += 1;
    }
    assert(hay@.subrange(at as int, at + needle@.len()) =~= needle@);
    true
}

/// The first place where `needle` stands in `hay`.
pub fn find(hay: &[u8], needle: &[u8]) -> (place: Option<usize>)
    ensures
        place is Some <==> contains_spec(hay@, needle@),
        place matches Some(at) ==> occurs_at(hay@, needle@, at as int) && forall|before: int|
            0 <= before < at ==> !occurs_at(hay@, needle@, before),
{
    if needle.len() > hay.len() {
        return None;
    }
    let last: usize = hay.len() - needle.len();
    let mut at: usize = 0;
    loop
        invariant
            at <= last,
            last + needle@.len() == hay@.len(),
            forall|before: int| 0 <= before < at ==> !occurs_at(hay@, needle@, before),
        decreases last - at,
    {
        if matches_at(hay, needle, at) {
            return Some(at);
        }
        if at == last {
            return None;
        }
        at += 1;
    }
}

/// Decides where a new connection goes from the bytes it opens with. The
/// bytes are only looked at; the caller has peeked them, not read them.
pub fn detect(peeked: &[u8]) -> (route: Route)
    ensures
        route == route_spec(peeked@),
{
    if find(peeked, CHAT_REQUEST.as_bytes()).is_some() {
        Route::WebSocket
    } else if find(peeked, PAGE_REQUEST.as_bytes()).is_some() {
        Route::StaticPage
    } else {
        Route::RawTcp
    }
}

/// Appends a number in decimal digits.
pub fn decimal_into(out: &mut Vec<u8>, n: usize)
    ensures
        final(out)@ == old(out)@ + decimal_spec(n as nat),
    decreases n,
{
    let ghost before = out@;
    if n >= 10 {
        decimal_into(out, n / 10);
    }
    let digit: u8 = (n % 10) as u8;
    out.push(0x30 + digit);
    assert(out@ =~= before + decimal_spec(n as nat));
}

/// Builds the response that carries a page.
pub fn page_response(page: &[u8]) -> (response: Vec<u8>)
    ensures
        response@ == page_response_spec(page@),
{
    let mut response: Vec<u8> = Vec::new();
    response.extend_from_slice(PAGE_HEAD.as_bytes());
    decimal_into(&mut response, page.len());
    response.extend_from_slice(HEAD_END.as_bytes());
    response.extend_from_slice(page);
    assert(response@ =~= page_response_spec(page@));
    response
}

/// The digits written for a number are digits, and stand for that number:
/// the length a response reports is the length of its page.
pub proof fn law_decimal_reads_back(n: nat)
    ensures
        decimal_value_spec(decimal_spec(n)) == n,
        forall|i: int|
            0 <= i < decimal_spec(n).len() ==> 0x30 <= #[trigger] decimal_spec(n)[i] <= 0x39,
    decreases n,
{
    let digits = decimal_spec(n);
    if n < 10 {
        assert(digits.drop_last() =~= Seq::<u8>::empty());
        assert(decimal_value_spec(digits.drop_last()) == 0);
        assert(digits.last() == 0x30 + n);
    } else {
        law_decimal_reads_back(n / 10);
        assert(digits.drop_last() =~= decimal_spec(n / 10));
        assert(digits.last() == 0x30 + n % 10);
    }
}

/// Opening bytes too few to hold either request mean a raw chat.
pub proof fn law_short_peek_is_raw(peeked: Seq<u8>)
    requires
        peeked.len() < PAGE_REQUEST@.len(),
    ensures
        route_spec(peeked) == Route::RawTcp,
{
    reveal_strlit("GET /ws");
    reveal_strlit("GET / ");
    is_ascii_spec_bytes(CHAT_REQUEST);
    is_ascii_spec_bytes(PAGE_REQUEST);
    assert(is_ascii(CHAT_REQUEST));
    assert(is_ascii(PAGE_REQUEST));
}

} // verus!
