//! The listen address of the configuration: `host:port`.

use vstd::prelude::*;
use vstd::string::*;
use crate::error::ConfigurationError;

verus! {

/// The index of the first colon of `s` at or after `from`; the length of `s`
/// where no colon follows.
pub open spec fn colon_from(s: Seq<char>, from: int) -> int
    decreases s.len() - from,
{
    if from < 0 || from >= s.len() {
        s.len() as int
    } else if s[from] == ':' {
        from
    } else {
        colon_from(s, from + 1)
    }
}

/// What `colon_from` finds: nothing before it is a colon, and it is one
/// unless it is the end.
pub proof fn lemma_colon_from(s: Seq<char>, from: int)
    requires
        0 <= from <= s.len(),
    ensures
        from <= colon_from(s, from) <= s.len(),
        colon_from(s, from) < s.len() ==> s[colon_from(s, from)] == ':',
        forall|j: int| from <= j < colon_from(s, from) ==> s[j] != ':',
    decreases s.len() - from,
{
    if from < s.len() && s[from] != ':' {
        lemma_colon_from(s, from + 1);
    }
}

/// An index of which the claims of `lemma_colon_from` hold is the one that
/// `colon_from` finds.
pub proof fn lemma_colon_from_unique(s: Seq<char>, from: int, at: int)
    requires
        0 <= from <= at <= s.len(),
        at < s.len() ==> s[at] == ':',
        forall|j: int| from <= j < at ==> s[j] != ':',
    ensures
        colon_from(s, from) == at,
    decreases at - from,
{
    if from < at {
        lemma_colon_from_unique(s, from + 1, at);
    }
}

/// The host of a listen address: what stands before its first colon.
pub open spec fn host_part(s: Seq<char>) -> Seq<char> {
    s.subrange(0, colon_from(s, 0))
}

/// The port of a listen address, as text: what stands between its first
/// colon and its second, or its end. Further colons and what follows them
/// are not looked at.
pub open spec fn port_part(s: Seq<char>) -> Seq<char>
    recommends
        colon_from(s, 0) < s.len(),
{
    s.subrange(colon_from(s, 0) + 1, colon_from(s, colon_from(s, 0) + 1))
}

/// Whether `c` is a decimal digit.
pub open spec fn is_digit(c: char) -> bool {
    '0' <= c <= '9'
}

/// The number that a run of decimal digits denotes.
pub open spec fn digits_value(s: Seq<char>) -> nat
    decreases s.len(),
{
    if s.len() == 0 {
        0
    } else {
        (digits_value(s.drop_last()) * 10 + (s.last() as int - 48)) as nat
    }
}

/// A port number as text without the plus sign that may lead it.
pub open spec fn unsigned_part(s: Seq<char>) -> Seq<char> {
    if s.len() > 0 && s[0] == '+' {
        s.subrange(1, s.len() as int)
    } else {
        s
    }
}

/// The port that a text denotes: decimal digits, at least one, after an
/// optional plus sign, with a value of at most 65535. Anything else,
/// white space included, denotes none.
pub open spec fn port_of(s: Seq<char>) -> Option<u16> {
    let digits = unsigned_part(s);
    if digits.len() > 0 && (forall|i: int| 0 <= i < digits.len() ==> is_digit(#[trigger] digits[i]))
        && digits_value(digits) <= 65535 {
        Some(digits_value(digits) as u16)
    } else {
        None
    }
}

/// The host and port that a listen address denotes, or the reason why it
/// denotes none.
pub open spec fn listen_address(s: Seq<char>) -> Result<(Seq<char>, u16), ConfigurationError> {
    if colon_from(s, 0) >= s.len() {
        Err(ConfigurationError::MissingPort)
    } else {
        match port_of(port_part(s)) {
            Some(port) => Ok((host_part(s), port)),
            None => Err(ConfigurationError::InvalidPort),
        }
    }
}

/// A listen address is refused for its missing port exactly where it holds
/// no colon. Where it holds one, its host is all that stands before the
/// first colon, and neither host nor port text holds a colon.
pub proof fn lemma_port_needs_colon(s: Seq<char>)
    ensures
        listen_address(s) == Err::<(Seq<char>, u16), ConfigurationError>(
            ConfigurationError::MissingPort,
        ) <==> !s.contains(':'),
        !host_part(s).contains(':'),
        s.contains(':') ==> !port_part(s).contains(':') && s.subrange(
            0,
            host_part(s).len() as int + 1,
        ) == host_part(s).push(':'),
{
    lemma_colon_from(s, 0);
    let first = colon_from(s, 0);
    if first < s.len() {
        assert(s[first] == ':');
        lemma_colon_from(s, first + 1);
        assert(s.subrange(0, first + 1) =~= host_part(s).push(':'));
    }
}

/// The value of a run of digits is at least that of each of its prefixes.
pub proof fn lemma_digits_value_prefix(s: Seq<char>, k: int)
    requires
        0 <= k <= s.len(),
        forall|i: int| 0 <= i < s.len() ==> is_digit(#[trigger] s[i]),
    ensures
        digits_value(s.subrange(0, k)) <= digits_value(s),
    decreases s.len(),
{
    if k == s.len() {
        assert(s.subrange(0, k) =~= s);
    } else {
        lemma_digits_value_prefix(s.drop_last(), k);
        assert(s.drop_last().subrange(0, k) =~= s.subrange(0, k));
        assert(is_digit(s[s.len() - 1]));
    }
}

/// Reads a port number.
pub fn parse_port(text: &str) -> (port: Option<u16>)
    ensures
        port == port_of(text@),
{
    broadcast use group_string_axioms;

    let length: usize = text.unicode_len();
    let ghost digits = unsigned_part(text@);
    let ghost lead: int = text@.len() - digits.len();
    let mut value: u32 = 0;
    let mut seen: usize = 0;
    let mut index: usize = 0;
    for c in it: text.chars()
        invariant
            it.seq() == text@,
            index == it.index(),
            length == text@.len(),
            digits == unsigned_part(text@),
            lead == text@.len() - digits.len(),
            lead <= index ==> seen == index - lead,
            index < lead ==> seen == 0,
            seen <= digits.len(),
            forall|i: int| 0 <= i < seen ==> is_digit(#[trigger] digits[i]),
            value == digits_value(digits.subrange(0, seen as int)),
            value <= 65535,
    {
        if index == 0 && c == '+' {
            assert(lead == 1);
        } else {
            assert(lead <= index);
            assert(digits[seen as int] == c);
            if !('0' <= c && c <= '9') {
                return None;
            }
            let digit: u32 = (c as u32) - 48;
            let next: u32 = value * 10 + digit;
            proof {
                let upto = digits.subrange(0, seen + 1);
                assert(upto.drop_last() =~= digits.subrange(0, seen as int));
                assert(upto.last() == c);
                assert(digits_value(upto) == next);
                if next > 65535 {
                    if forall|i: int| 0 <= i < digits.len() ==> is_digit(#[trigger] digits[i]) {
                        lemma_digits_value_prefix(digits, seen + 1);
                    }
                }
            }
            if next > 65535 {
                return None;
            }
            value = next;
            seen = seen + 1;
        }
        index = index + 1;
    }
    proof {
        assert(digits.subrange(0, seen as int) =~= digits);
    }
    if seen == 0 {
        None
    } else {
        Some(value as u16)
    }
}

/// Splits a listen address into its host and its port.
///
/// The host is the text before the first colon, and may be empty. A third
/// part, after a second colon, is ignored.
pub fn split_listen(listen: &str) -> (parts: Result<(String, u16), ConfigurationError>)
    ensures
        match parts {
            Ok((host, port)) => listen_address(listen@) == Ok::<(Seq<char>, u16), ConfigurationError>(
                (host@, port),
            ),
            Err(e) => listen_address(listen@) == Err::<(Seq<char>, u16), ConfigurationError>(e),
        },
{
    broadcast use group_string_axioms;

    let length: usize = listen.unicode_len();
    let mut first: usize = length;
    let mut second: usize = length;
    let mut index: usize = 0;
    for c in it: listen.chars()
        invariant
            it.seq() == listen@,
            index == it.index(),
            length == listen@.len(),
            first <= second <= length,
            first < length ==> first < index && listen@[first as int] == ':',
            first == length ==> second == length,
            first < length ==> first < second,
            forall|j: int| 0 <= j < index && j < first ==> listen@[j] != ':',
            second < length ==> second < index && listen@[second as int] == ':',
            forall|j: int| first < j < index && j < second ==> listen@[j] != ':',
    {
        if c == ':' {
            if first == length {
                first = index;
            } else if second == length {
                second = index;
            }
        }
        index = index + 1;
    }
    proof {
        lemma_colon_from_unique(listen@, 0, first as int);
        if first < length {
            lemma_colon_from_unique(listen@, first + 1, second as int);
        }
    }
    if first == length {
        return Err(ConfigurationError::MissingPort);
    }
    let host = listen.substring_char(0, first).to_owned();
    match parse_port(listen.substring_char(first + 1, second)) {
        Some(port) => Ok((host, port)),
        None => Err(ConfigurationError::InvalidPort),
    }
}

} // verus!
