//! Error events that the provider's API reports.
use crate::text::same_text;
use crate::text;
use crate::text::chars_of;
use vstd::prelude::*;
use vstd::string::*;

verus! {

/// A delay that the provider asks for before the next attempt.
#[derive(Clone, Copy, Debug, PartialEq, Eq, Structural)]
pub struct RetryDelay {
    /// Whole seconds.
    pub seconds: u64,
    /// Nanoseconds beyond the whole seconds.
    pub nanoseconds: u32,
}

/// Retry metadata derived from one typed transport or API error.
#[derive(Clone, Copy, Debug)]
pub struct RetryAdvice {
    /// Stable low-cardinality retry class.
    pub class: &'static str,
    /// Server-supplied minimum delay, if any.
    pub server_delay: Option<RetryDelay>,
}

/// What retry metadata states.
pub struct AdviceView {
    /// The retry class.
    pub class: Seq<char>,
    /// The server-supplied minimum delay, if any.
    pub server_delay: Option<RetryDelay>,
}

/// Whether optional retry metadata states what is owed.
pub open spec fn advises(advice: Option<RetryAdvice>, owed: Option<AdviceView>) -> bool {
    match (advice, owed) {
        (Some(advice), Some(owed)) => advice.class@ == owed.class && advice.server_delay
            == owed.server_delay,
        (None, None) => true,
        _ => false,
    }
}

/// The error that an event carries.
#[derive(Debug)]
pub struct ApiErrorDetail {
    /// The error's type.
    pub kind: Option<String>,
    /// The error's code.
    pub code: Option<String>,
    /// The delay that the error asks for, where it states a representable one.
    pub retry_after: Option<RetryDelay>,
}

/// One header of an event. The delay is there when the header's value is a
/// representable number of seconds.
#[derive(Debug)]
pub struct EventHeader {
    /// The header's name.
    pub name: String,
    /// The delay that its value states.
    pub delay: Option<RetryDelay>,
}

/// The parts of an error event that decide how the error is treated.
///
/// `error` is the event's own error, and `response_error` the one inside the
/// failed response that the event reports.
#[derive(Debug)]
pub struct ApiErrorEnvelope {
    /// The event's own error.
    pub error: Option<ApiErrorDetail>,
    /// The error of the response that the event reports.
    pub response_error: Option<ApiErrorDetail>,
    /// Headers in the order in which they are looked through.
    pub headers: Vec<EventHeader>,
}

/// A text of an optional string.
pub open spec fn text_of(value: Option<String>) -> Option<Seq<char>> {
    match value {
        Some(value) => Some(value@),
        None => None,
    }
}

impl ApiErrorDetail {
    /// What the error is told apart by: its code, or its type without a code.
    pub open spec fn discriminant(self) -> Option<Seq<char>> {
        if self.code is Some {
            text_of(self.code)
        } else {
            text_of(self.kind)
        }
    }
}

/// The retry class of an error by what it is told apart by.
pub open spec fn retry_class(discriminant: Option<Seq<char>>) -> Option<Seq<char>> {
    match discriminant {
        Some(name) => if name == "server_is_overloaded"@ || name == "slow_down"@ || name
            == "server_error"@ || name == "websocket_connection_limit_reached"@ {
            Some("api_server"@)
        } else if name == "rate_limit_exceeded"@ {
            Some("api_rate_limit"@)
        } else {
            None
        },
        None => None,
    }
}

/// The lower-case form of an ASCII letter; any other character as it is.
pub open spec fn ascii_lower(c: char) -> char {
    if 65 <= c as u32 <= 90 {
        (c as u32 + 32) as char
    } else {
        c
    }
}

/// Whether two texts agree when ASCII letters are compared without case.
pub open spec fn same_ignoring_ascii_case(a: Seq<char>, b: Seq<char>) -> bool {
    &&& a.len() == b.len()
    &&& forall|i: int| 0 <= i < a.len() ==> #[trigger] ascii_lower(a[i]) == ascii_lower(b[i])
}

/// The delay of the first header with the retry header's name.
pub open spec fn header_delay(headers: Seq<EventHeader>) -> Option<RetryDelay>
    decreases headers.len(),
{
    if headers.len() == 0 {
        None
    } else if same_ignoring_ascii_case(headers[0].name@, "retry-after"@) {
        headers[0].delay
    } else {
        header_delay(headers.skip(1))
    }
}

impl ApiErrorEnvelope {
    /// The error that counts: the event's own, or the response's without one.
    pub open spec fn detail(self) -> Option<ApiErrorDetail> {
        if self.error is Some {
            self.error
        } else {
            self.response_error
        }
    }

    /// Whether the error that counts has a code.
    pub open spec fn has_code(self, expected: Seq<char>) -> bool {
        self.detail() is Some && text_of(self.detail()->0.code) == Some(expected)
    }

    /// The retry metadata owed for the event.
    pub open spec fn advice(self) -> Option<AdviceView> {
        match self.detail() {
            Some(detail) => match retry_class(detail.discriminant()) {
                Some(class) => Some(
                    AdviceView {
                        class,
                        server_delay: if detail.retry_after is Some {
                            detail.retry_after
                        } else {
                            header_delay(self.headers@)
                        },
                    },
                ),
                None => None,
            },
            None => None,
        }
    }

    /// Returns the error that counts.
    fn counted(&self) -> (r: Option<&ApiErrorDetail>)
        ensures
            match r {
                Some(detail) => self.detail() == Some(*detail),
                None => self.detail() is None,
            },
    {
        match &self.error {
            Some(detail) => Some(detail),
            None => match &self.response_error {
                Some(detail) => Some(detail),
                None => None,
            },
        }
    }
}

/// Compares two characters without regard to ASCII case.
fn same_letter(a: char, b: char) -> (r: bool)
    ensures
        r == (ascii_lower(a) == ascii_lower(b)),
{
    let left: u32 = a as u32;
    let right: u32 = b as u32;
    let left_lower: u32 = if 65 <= left && left <= 90 {
        left + 32
    } else {
        left
    };
    let right_lower: u32 = if 65 <= right && right <= 90 {
        right + 32
    } else {
        right
    };
    left_lower == right_lower
}

/// Compares two texts without regard to ASCII case.
pub fn eq_ignoring_ascii_case(a: &str, b: &str) -> (r: bool)
    ensures
        r == same_ignoring_ascii_case(a@, b@),
{
    let left = chars_of(a);
    let right = chars_of(b);
    if left.len() != right.len() {
        return false;
    }
    let mut i: usize = 0;
    while i < left.len()
        invariant
            i <= left@.len(),
            left@ == a@,
            right@ == b@,
            left@.len() == right@.len(),
            forall|j: int| 0 <= j < i ==> #[trigger] ascii_lower(a@[j]) == ascii_lower(b@[j]),
        decreases left@.len() - i,
    {
        if !same_letter(left[i], right[i]) {
            assert(ascii_lower(a@[i as int]) != ascii_lower(b@[i as int]));
            return false;
        }
        i = i + 1;
    }
    true
}

/// Returns the delay that the retry header asks for.
pub fn retry_after_header(headers: &Vec<EventHeader>) -> (r: Option<RetryDelay>)
    ensures
        r == header_delay(headers@),
{
    let mut i: usize = 0;
    proof {
        assert(headers@.skip(0) =~= headers@);
    }
    while i < headers.len()
        invariant
            i <= headers@.len(),
            header_delay(headers@) == header_delay(headers@.skip(i as int)),
        decreases headers@.len() - i,
    {
        proof {
            assert(headers@.skip(i as int)[0] == headers@[i as int]);
            assert(headers@.skip(i as int).skip(1) =~= headers@.skip(i as int + 1));
        }
        if eq_ignoring_ascii_case(headers[i].name.as_str(), "retry-after") {
            return headers[i].delay;
        }
        i = i + 1;
    }
    None
}

/// Returns whether the error of an event has a code. An event without
/// readable error fields has none.
pub fn api_error_has_code(event: Option<&ApiErrorEnvelope>, expected: &str) -> (r: bool)
    ensures
        r == (event is Some && event->0.has_code(expected@)),
{
    match event {
        Some(event) => match event.counted() {
            Some(detail) => match &detail.code {
                Some(code) => same_text(code.as_str(), expected),
                None => false,
            },
            None => false,
        },
        None => false,
    }
}

/// Returns the retry metadata of an error event. An event without readable
/// error fields is not retried.
pub fn retryable_api_error(event: Option<&ApiErrorEnvelope>) -> (r: Option<RetryAdvice>)
    ensures
        advises(
            r,
            match event {
                Some(event) => event.advice(),
                None => None,
            },
        ),
{
    let Some(event) = event else {
        return None;
    };
    let Some(detail) = event.counted() else {
        return None;
    };
    let name = match &detail.code {
        Some(code) => code,
        None => match &detail.kind {
            Some(kind) => kind,
            None => return None,
        },
    };
    let name = name.as_str();
    let class = if same_text(name, "server_is_overloaded") || same_text(name, "slow_down")
        || same_text(name, "server_error") || same_text(
        name,
        "websocket_connection_limit_reached",
    ) {
        "api_server"
    } else if same_text(name, "rate_limit_exceeded") {
        "api_rate_limit"
    } else {
        return None;
    };
    let server_delay = match detail.retry_after {
        Some(delay) => Some(delay),
        None => retry_after_header(&event.headers),
    };
    Some(RetryAdvice { class, server_delay })
}

/// An error's code decides alone: with a code, its type changes nothing.
pub proof fn law_code_takes_precedence_over_type(
    event: ApiErrorEnvelope,
    other: ApiErrorEnvelope,
)
    requires
        event.detail() is Some,
        other.detail() is Some,
        event.detail()->0.code is Some,
        event.detail()->0.code == other.detail()->0.code,
        event.detail()->0.retry_after == other.detail()->0.retry_after,
        event.headers == other.headers,
    ensures
        event.advice() == other.advice(),
{
}

/// The codes of a missing checkpoint and of an exceeded context window are not
/// retried.
pub proof fn law_terminal_codes_are_not_retried(event: ApiErrorEnvelope)
    requires
        event.has_code("previous_response_not_found"@) || event.has_code(
            "context_length_exceeded"@,
        ),
    ensures
        event.advice() is None,
{
    reveal_strlit("previous_response_not_found");
    reveal_strlit("context_length_exceeded");
    reveal_strlit("server_is_overloaded");
    reveal_strlit("slow_down");
    reveal_strlit("server_error");
    reveal_strlit("websocket_connection_limit_reached");
    reveal_strlit("rate_limit_exceeded");
    assert("previous_response_not_found"@.len() == 27);
    assert("context_length_exceeded"@.len() == 23);
    assert("server_is_overloaded"@.len() == 20);
    assert("slow_down"@.len() == 9);
    assert("server_error"@.len() == 12);
    assert("websocket_connection_limit_reached"@.len() == 34);
    assert("rate_limit_exceeded"@.len() == 19);
}

/// An event is retried exactly when the error that counts names an overload, a
/// server failure, a used-up number of connections or a rate limit; of these
/// only the last is a rate limit.
pub proof fn law_overload_and_rate_limits_are_retried(event: ApiErrorEnvelope, name: Seq<char>)
    requires
        event.detail() is Some,
        event.detail()->0.discriminant() == Some(name),
    ensures
        event.advice() is Some <==> name == "server_is_overloaded"@ || name == "slow_down"@ || name
            == "server_error"@ || name == "websocket_connection_limit_reached"@ || name
            == "rate_limit_exceeded"@,
        event.advice() matches Some(advice) ==> name == "rate_limit_exceeded"@ ==> advice.class
            == "api_rate_limit"@,
        event.advice() matches Some(advice) ==> name != "rate_limit_exceeded"@ ==> advice.class
            == "api_server"@,
{
    reveal_strlit("server_is_overloaded");
    reveal_strlit("slow_down");
    reveal_strlit("server_error");
    reveal_strlit("websocket_connection_limit_reached");
    reveal_strlit("rate_limit_exceeded");
    assert("server_is_overloaded"@.len() == 20);
    assert("slow_down"@.len() == 9);
    assert("server_error"@.len() == 12);
    assert("websocket_connection_limit_reached"@.len() == 34);
    assert("rate_limit_exceeded"@.len() == 19);
}

/// The event's own error counts before the response's, an error's code before
/// its type, and its own delay before that of a header.
pub proof fn law_the_nearest_statement_counts(event: ApiErrorEnvelope)
    ensures
        event.error is Some ==> event.detail() == event.error,
        event.error is None ==> event.detail() == event.response_error,
        event.detail() matches Some(detail) ==> {
            &&& detail.code matches Some(code) ==> detail.discriminant() == Some(code@)
            &&& detail.code is None ==> (detail.kind matches Some(kind) ==> detail.discriminant()
                == Some(kind@))
            &&& detail.code is None && detail.kind is None ==> event.advice() is None
            &&& event.advice() matches Some(advice) ==> {
                &&& detail.retry_after is Some ==> advice.server_delay == detail.retry_after
                &&& detail.retry_after is None ==> advice.server_delay == header_delay(
                    event.headers@,
                )
            }
        },
        event.detail() is None ==> event.advice() is None,
{
}

/// The first retry header counts, however its name is written; headers of other
/// names are passed over.
pub proof fn law_the_first_retry_header_counts(
    before: Seq<EventHeader>,
    header: EventHeader,
    after: Seq<EventHeader>,
)
    requires
        forall|i: int|
            0 <= i < before.len() ==> !same_ignoring_ascii_case(
                (#[trigger] before[i]).name@,
                "retry-after"@,
            ),
    ensures
        same_ignoring_ascii_case(header.name@, "retry-after"@) ==> header_delay(
            before + seq![header] + after,
        ) == header.delay,
        header_delay(before) is None,
    decreases before.len(),
{
    let all = before + seq![header] + after;
    if before.len() > 0 {
        let rest = before.skip(1);
        assert forall|i: int| 0 <= i < rest.len() implies !same_ignoring_ascii_case(
            (#[trigger] rest[i]).name@,
            "retry-after"@,
        ) by {
            assert(rest[i] == before[i + 1]);
        }
        law_the_first_retry_header_counts(rest, header, after);
        assert(all[0] == before[0]);
        assert(all.skip(1) =~= rest + seq![header] + after);
    } else {
        assert(all[0] == header);
    }
}

/// Names are compared without the case of ASCII letters, and with everything
/// else as it is.
pub proof fn law_case_alone_is_ignored(one: char, other: char)
    ensures
        'A' <= one && one <= 'Z' ==> ascii_lower(one) as int == one as int + 32,
        !('A' <= one && one <= 'Z') ==> ascii_lower(one) == one,
        ascii_lower(ascii_lower(one)) == ascii_lower(one),
        same_ignoring_ascii_case(seq![one], seq![other]) <==> ascii_lower(one) == ascii_lower(
            other,
        ),
{
    if same_ignoring_ascii_case(seq![one], seq![other]) {
        assert(ascii_lower(seq![one][0]) == ascii_lower(seq![other][0]));
    }
}

/// Retry metadata states what is owed exactly when class and delay agree, or
/// neither side has any.
pub proof fn law_advice_is_given_as_owed(advice: Option<RetryAdvice>, owed: Option<AdviceView>)
    requires
        advises(advice, owed),
    ensures
        advice is Some <==> owed is Some,
        advice matches Some(given) ==> given.class@ == owed->0.class && given.server_delay
            == owed->0.server_delay,
{
}

} // verus!
