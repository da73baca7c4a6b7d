//! The wire of the JSON-RPC transport: one HTTP request per call, over a
//! plain connection. The functions here take a URL apart, frame a request
//! and find the body of an answer.

use vstd::prelude::*;
use vstd::string::*;
use crate::text::{concat2, decimal, decimal_string, text_eq};

verus! {

/// Whether `k` is where the first `/` of `s` stands, or the length of `s`
/// where it holds none.
pub open spec fn is_cut(s: Seq<char>, k: int) -> bool {
    &&& 0 <= k <= s.len()
    &&& k < s.len() ==> s[k] == '/'
    &&& forall|j: int| 0 <= j < k ==> s[j] != '/'
}

/// Whether the text holds a colon.
pub open spec fn has_colon(s: Seq<char>) -> bool {
    exists|i: int| 0 <= i < s.len() && s[i] == ':'
}

/// The address and the path of an `http://` URL. The address is the host
/// with its port, port 80 where the URL names none; the path is what
/// follows the host, `/` where nothing follows. A URL of another scheme,
/// or without a host, has neither.
pub open spec fn spec_split_http_url(url: Seq<char>) -> Option<(Seq<char>, Seq<char>)> {
    if url.len() >= 7 && url.take(7) == "http://"@ {
        let rest = url.skip(7);
        let k = choose|k: int| is_cut(rest, k);
        if k == 0 {
            None
        } else {
            let host = rest.take(k);
            let address = if has_colon(host) {
                host
            } else {
                host + ":80"@
            };
            let path = if k == rest.len() {
                "/"@
            } else {
                rest.skip(k)
            };
            Some((address, path))
        }
    } else {
        None
    }
}

/// There is one cut only.
pub proof fn lemma_cut_is(s: Seq<char>, k: int)
    requires
        is_cut(s, k),
    ensures
        (choose|c: int| is_cut(s, c)) == k,
{
    let c = choose|c: int| is_cut(s, c);
    assert(is_cut(s, c));
    if c < k {
        assert(s[c] != '/');
    } else if k < c {
        assert(s[k] != '/');
    }
}

fn find_colon(s: &str) -> (r: bool)
    ensures
        r == has_colon(s@),
{
    let n = s.unicode_len();
    let mut i: usize = 0;
    while i < n
        invariant
            i <= n,
            n == s@.len(),
            forall|j: int| 0 <= j < i ==> s@[j] != ':',
        decreases n - i,
    {
        if s.get_char(i) == ':' {
            return true;
        }
        i += 1;
    }
    false
}

/// Takes an `http://` URL apart into the address to connect to and the
/// path to ask for.
pub fn split_http_url(url: &str) -> (r: Option<(String, String)>)
    ensures
        match spec_split_http_url(url@) {
            Some((address, path)) => r is Some && r->Some_0.0@ == address && r->Some_0.1@ == path,
            None => r is None,
        },
{
    let n = url.unicode_len();
    if n < 7 {
        return None;
    }
    let scheme = url.substring_char(0, 7);
    assert(scheme@ =~= url@.take(7));
    if !text_eq(scheme, "http://") {
        return None;
    }
    let rest = url.substring_char(7, n);
    assert(rest@ =~= url@.skip(7));
    let m = n - 7;
    let mut k: usize = 0;
    while k < m && rest.get_char(k) != '/'
        invariant
            k <= m,
            m == rest@.len(),
            forall|j: int| 0 <= j < k ==> rest@[j] != '/',
        decreases m - k,
    {
        k += 1;
    }
    proof {
        lemma_cut_is(rest@, k as int);
    }
    if k == 0 {
        return None;
    }
    let host = rest.substring_char(0, k);
    assert(host@ =~= rest@.take(k as int));
    let address = if find_colon(host) {
        String::from_str(host)
    } else {
        concat2(host, ":80")
    };
    let path = if k == m {
        String::from_str("/")
    } else {
        let tail = rest.substring_char(k, m);
        assert(tail@ =~= rest@.skip(k as int));
        String::from_str(tail)
    };
    Some((address, path))
}

/// The head of the request that posts a JSON body of `length` bytes to
/// `path` at `address`.
pub open spec fn spec_post_head(address: Seq<char>, path: Seq<char>, length: nat) -> Seq<char> {
    "POST "@ + path + " HTTP/1.0\r\nHost: "@ + address
        + "\r\nContent-Type: application/json\r\nContent-Length: "@ + decimal(length)
        + "\r\nConnection: close\r\n\r\n"@
}

/// Writes the head of the request that posts a JSON body of `length` bytes
/// to `path` at `address`.
pub fn post_head(address: &str, path: &str, length: u64) -> (r: String)
    ensures
        r@ == spec_post_head(address@, path@, length as nat),
{
    let digits = decimal_string(length);
    let mut s = String::from_str("POST ");
    s.append(path);
    s.append(" HTTP/1.0\r\nHost: ");
    s.append(address);
    s.append("\r\nContent-Type: application/json\r\nContent-Length: ");
    s.append(digits.as_str());
    s.append("\r\nConnection: close\r\n\r\n");
    s
}

/// Whether an answer begins with a status line of success: `HTTP/1.0 200`
/// or `HTTP/1.1 200`.
pub open spec fn is_success(answer: Seq<u8>) -> bool {
    &&& answer.len() >= 12
    &&& answer[0] == 72 && answer[1] == 84 && answer[2] == 84 && answer[3] == 80
    &&& answer[4] == 47 && answer[5] == 49 && answer[6] == 46
    &&& answer[7] == 48 || answer[7] == 49
    &&& answer[8] == 32 && answer[9] == 50 && answer[10] == 48 && answer[11] == 48
}

/// Whether the empty line that ends the head of an answer begins at `k`.
pub open spec fn is_break(answer: Seq<u8>, k: int) -> bool {
    &&& 0 <= k
    &&& k + 4 <= answer.len()
    &&& answer[k] == 13 && answer[k + 1] == 10 && answer[k + 2] == 13 && answer[k + 3] == 10
}

/// Whether the first empty line of an answer begins at `k`.
pub open spec fn is_first_break(answer: Seq<u8>, k: int) -> bool {
    is_break(answer, k) && forall|j: int| 0 <= j < k ==> !is_break(answer, j)
}

fn success(answer: &Vec<u8>) -> (r: bool)
    ensures
        r == is_success(answer@),
{
    answer.len() >= 12 && answer[0] == 72 && answer[1] == 84 && answer[2] == 84 && answer[3] == 80
        && answer[4] == 47 && answer[5] == 49 && answer[6] == 46 && (answer[7] == 48 || answer[7]
        == 49) && answer[8] == 32 && answer[9] == 50 && answer[10] == 48 && answer[11] == 48
}

/// The body of an answer: what follows the first empty line, where the
/// answer begins with a status line of success. `None` for an answer of
/// another status, and for one without an empty line.
pub fn response_body(answer: &Vec<u8>) -> (r: Option<Vec<u8>>)
    ensures
        match r {
            Some(body) => is_success(answer@) && exists|k: int|
                is_first_break(answer@, k) && body@ == answer@.skip(k + 4),
            None => !is_success(answer@) || forall|k: int| !is_break(answer@, k),
        },
{
    if !success(answer) {
        return None;
    }
    let n = answer.len();
    let mut k: usize = 0;
    while n - k >= 4
        invariant
            k <= n,
            n == answer@.len(),
            is_success(answer@),
            forall|j: int| 0 <= j < k ==> !is_break(answer@, j),
        decreases n - k,
    {
        if answer[k] == 13 && answer[k + 1] == 10 && answer[k + 2] == 13 && answer[k + 3] == 10 {
            let mut body: Vec<u8> = Vec::new();
            let mut i: usize = k + 4;
            while i < n
                invariant
                    k + 4 <= i <= n,
                    n == answer@.len(),
                    body@ == answer@.subrange(k + 4, i as int),
                decreases n - i,
            {
                body.push(answer[i]);
                assert(body@ =~= answer@.subrange(k + 4, i + 1));
                i += 1;
            }
            assert(body@ =~= answer@.skip(k + 4));
            assert(is_first_break(answer@, k as int));
            return Some(body);
        }
        k += 1;
    }
    None
}

} // verus!
