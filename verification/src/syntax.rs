//! Syntax of a service argument: `host:port`, where the host is a bracketed
//! address literal or any non-empty colon-free token, and the port is one to
//! five digits with no leading zero.

use vstd::prelude::*;

verus! {

/// A decimal digit.
pub open spec fn spec_is_digit(c: char) -> bool {
    ('0' as u32) <= (c as u32) <= ('9' as u32)
}

/// A decimal digit other than zero.
pub open spec fn spec_is_nonzero_digit(c: char) -> bool {
    ('1' as u32) <= (c as u32) <= ('9' as u32)
}

/// A character allowed between the brackets of a bracketed host: a
/// hexadecimal digit, a dot or a colon.
pub open spec fn spec_is_host_literal_char(c: char) -> bool {
    ||| spec_is_digit(c)
    ||| ('a' as u32) <= (c as u32) <= ('f' as u32)
    ||| ('A' as u32) <= (c as u32) <= ('F' as u32)
    ||| c == '.'
    ||| c == ':'
}

/// A valid port: one to five digits, the first not zero (so 1 to 99999,
/// written without a leading zero).
pub open spec fn spec_is_port(s: Seq<char>) -> bool {
    &&& 1 <= s.len() <= 5
    &&& spec_is_nonzero_digit(s[0])
    &&& forall|i: int| 0 <= i < s.len() ==> spec_is_digit(#[trigger] s[i])
}

/// A bracketed host: `[`, one or more address-literal characters, `]`.
pub open spec fn spec_is_bracketed_host(s: Seq<char>) -> bool {
    &&& s.len() >= 3
    &&& s[0] == '['
    &&& s[s.len() - 1] == ']'
    &&& forall|i: int| 1 <= i < s.len() - 1 ==> spec_is_host_literal_char(#[trigger] s[i])
}

/// A plain host: any non-empty token without a colon.
pub open spec fn spec_is_plain_host(s: Seq<char>) -> bool {
    &&& s.len() >= 1
    &&& forall|i: int| 0 <= i < s.len() ==> #[trigger] s[i] != ':'
}

/// A valid service argument: a host, a colon, and a port.
pub open spec fn spec_is_valid_service(s: Seq<char>) -> bool {
    exists|i: int|
        {
            &&& 0 <= i < s.len()
            &&& #[trigger] s[i] == ':'
            &&& (spec_is_bracketed_host(s.subrange(0, i)) || spec_is_plain_host(s.subrange(0, i)))
            &&& spec_is_port(s.subrange(i + 1, s.len() as int))
        }
}

/// The error text a rejected service argument is answered with.
pub open spec fn spec_service_syntax_error() -> Seq<char> {
    "does not match regular expression \"^(\\[[0-9a-fA-F.:]+\\]|[^:]+):([1-9][0-9]{0,4})$\"."@
}

/// The colon splitting host from port can only be the last one of the text:
/// everything after it is a port, and a port holds no colon. So the text is
/// valid exactly when the split at its last colon is.
pub proof fn lemma_valid_iff_split_at_last_colon(s: Seq<char>, i: int)
    requires
        0 <= i < s.len(),
        s[i] == ':',
        forall|j: int| i < j < s.len() ==> #[trigger] s[j] != ':',
    ensures
        spec_is_valid_service(s) <==> {
            &&& (spec_is_bracketed_host(s.subrange(0, i)) || spec_is_plain_host(s.subrange(0, i)))
            &&& spec_is_port(s.subrange(i + 1, s.len() as int))
        },
{
    if spec_is_valid_service(s) {
        let j = choose|j: int|
            {
                &&& 0 <= j < s.len()
                &&& #[trigger] s[j] == ':'
                &&& (spec_is_bracketed_host(s.subrange(0, j)) || spec_is_plain_host(
                    s.subrange(0, j),
                ))
                &&& spec_is_port(s.subrange(j + 1, s.len() as int))
            };
        if j < i {
            // The splitting colon of the witness would sit inside its port
            // part, but a port holds only digits.
            let port = s.subrange(j + 1, s.len() as int);
            assert(port[i - j - 1] == ':');
            assert(spec_is_digit(port[i - j - 1]));
            assert(false);
        }
        assert(j == i);
    }
}

/// A text without any colon is not a valid service argument.
pub proof fn lemma_no_colon_not_valid(s: Seq<char>)
    requires
        forall|j: int| 0 <= j < s.len() ==> #[trigger] s[j] != ':',
    ensures
        !spec_is_valid_service(s),
{
}

/// Validates the syntax of one service argument and answers with the text
/// itself, or with the error text naming the pattern it must match. The text
/// is accepted exactly when it is a host, a colon and a port, as
/// [`spec_is_valid_service`] lays down; no name resolution is attempted here.
pub fn parse_service_syntax(text: &str) -> (validated: Result<String, String>)
    ensures
        validated is Ok <==> spec_is_valid_service(text@),
        validated matches Ok(t) ==> t@ == text@,
        validated matches Err(e) ==> e@ == spec_service_syntax_error(),
{
    let n = text.unicode_len();
    // The index of the last colon, or n when there is none.
    let mut last_colon: usize = n;
    let mut k: usize = 0;
    while k < n
        invariant
            0 <= k <= n,
            n == text@.len(),
            last_colon == n || (last_colon < k && text@[last_colon as int] == ':'),
            forall|j: int| last_colon < j < k ==> #[trigger] text@[j] != ':',
            last_colon == n ==> forall|j: int| 0 <= j < k ==> #[trigger] text@[j] != ':',
        decreases n - k,
    {
        if text.get_char(k) == ':' {
            last_colon = k;
        }
        k += 1;
    }
    if last_colon == n {
        proof {
            lemma_no_colon_not_valid(text@);
        }
        return Err(service_syntax_error());
    }
    let i = last_colon;
    proof {
        lemma_valid_iff_split_at_last_colon(text@, i as int);
    }
    let port_ok = check_port(text, i + 1, n);
    let host_ok = check_bracketed_host(text, i) || check_plain_host(text, i);
    if port_ok && host_ok {
        Ok(text.to_owned())
    } else {
        Err(service_syntax_error())
    }
}

/// The error text a rejected service argument is answered with.
fn service_syntax_error() -> (message: String)
    ensures
        message@ == spec_service_syntax_error(),
{
    "does not match regular expression \"^(\\[[0-9a-fA-F.:]+\\]|[^:]+):([1-9][0-9]{0,4})$\".".to_owned()
}

/// Whether the characters of `text` from `from` (inclusive) to `to`
/// (exclusive) form a valid port.
fn check_port(text: &str, from: usize, to: usize) -> (ok: bool)
    requires
        0 <= from <= to <= text@.len(),
    ensures
        ok == spec_is_port(text@.subrange(from as int, to as int)),
{
    let ghost port = text@.subrange(from as int, to as int);
    let len = to - from;
    if len < 1 || len > 5 {
        return false;
    }
    let first = text.get_char(from) as u32;
    if !(('1' as u32) <= first && first <= ('9' as u32)) {
        assert(!spec_is_nonzero_digit(port[0]));
        return false;
    }
    let mut k: usize = from;
    while k < to
        invariant
            from <= k <= to <= text@.len(),
            port == text@.subrange(from as int, to as int),
            forall|j: int| from <= j < k ==> spec_is_digit(#[trigger] text@[j]),
        decreases to - k,
    {
        let c = text.get_char(k) as u32;
        if !(('0' as u32) <= c && c <= ('9' as u32)) {
            assert(!spec_is_digit(port[k - from]));
            return false;
        }
        k += 1;
    }
    assert forall|j: int| 0 <= j < port.len() implies spec_is_digit(#[trigger] port[j]) by {
        assert(port[j] == text@[from + j]);
    }
    true
}

/// Whether the first `len` characters of `text` form a bracketed host.
fn check_bracketed_host(text: &str, len: usize) -> (ok: bool)
    requires
        0 <= len <= text@.len(),
    ensures
        ok == spec_is_bracketed_host(text@.subrange(0, len as int)),
{
    let ghost host = text@.subrange(0, len as int);
    if len < 3 {
        return false;
    }
    if text.get_char(0) != '[' {
        assert(host[0] != '[');
        return false;
    }
    if text.get_char(len - 1) != ']' {
        assert(host[host.len() - 1] != ']');
        return false;
    }
    let mut k: usize = 1;
    while k < len - 1
        invariant
            1 <= k <= len - 1,
            len <= text@.len(),
            host == text@.subrange(0, len as int),
            forall|j: int| 1 <= j < k ==> spec_is_host_literal_char(#[trigger] text@[j]),
        decreases len - 1 - k,
    {
        let c = text.get_char(k);
        let u = c as u32;
        let allowed = (('0' as u32) <= u && u <= ('9' as u32)) || (('a' as u32) <= u && u <= ('f'
            as u32)) || (('A' as u32) <= u && u <= ('F' as u32)) || c == '.' || c == ':';
        if !allowed {
            assert(!spec_is_host_literal_char(host[k as int]));
            return false;
        }
        k += 1;
    }
    assert forall|j: int| 1 <= j < host.len() - 1 implies spec_is_host_literal_char(
        #[trigger] host[j],
    ) by {
        assert(host[j] == text@[j]);
    }
    true
}

/// Whether the first `len` characters of `text` form a plain (colon-free,
/// non-empty) host.
fn check_plain_host(text: &str, len: usize) -> (ok: bool)
    requires
        0 <= len <= text@.len(),
    ensures
        ok == spec_is_plain_host(text@.subrange(0, len as int)),
{
    let ghost host = text@.subrange(0, len as int);
    if len < 1 {
        return false;
    }
    let mut k: usize = 0;
    while k < len
        invariant
            0 <= k <= len <= text@.len(),
            host == text@.subrange(0, len as int),
            forall|j: int| 0 <= j < k ==> #[trigger] text@[j] != ':',
        decreases len - k,
    {
        if text.get_char(k) == ':' {
            assert(host[k as int] == ':');
            return false;
        }
        k += 1;
    }
    assert forall|j: int| 0 <= j < host.len() implies #[trigger] host[j] != ':' by {
        assert(host[j] == text@[j]);
    }
    true
}

} // verus!
