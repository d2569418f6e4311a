//! What errors, numbers and statuses look like as text.
use crate::client;
use crate::error::RelayError;
use crate::http_status;
use crate::text;
use vstd::prelude::*;

verus! {

/// The number that a text of decimal digits stands for.
pub open spec fn number_of(digits: Seq<char>) -> int
    decreases digits.len(),
{
    if digits.len() == 0 {
        0
    } else {
        10 * number_of(digits.drop_last()) + (digits.last() as int - '0' as int)
    }
}

/// Whether a text is a decimal number without leading zeros.
pub open spec fn is_decimal(digits: Seq<char>) -> bool {
    &&& digits.len() > 0
    &&& forall|i: int| 0 <= i < digits.len() ==> '0' <= #[trigger] digits[i] <= '9'
    &&& digits[0] == '0' ==> digits.len() == 1
}

proof fn lemma_digit(d: u64)
    requires
        d < 10,
    ensures
        text::digit_text(d).len() == 1,
        '0' <= text::digit_text(d)[0] <= '9',
        text::digit_text(d)[0] as int - '0' as int == d,
{
    reveal_strlit("0");
    reveal_strlit("1");
    reveal_strlit("2");
    reveal_strlit("3");
    reveal_strlit("4");
    reveal_strlit("5");
    reveal_strlit("6");
    reveal_strlit("7");
    reveal_strlit("8");
    reveal_strlit("9");
}

proof fn lemma_decimal(n: nat)
    ensures
        is_decimal(text::decimal(n)),
        number_of(text::decimal(n)) == n,
        n > 0 ==> text::decimal(n)[0] != '0',
        n < 10 <==> text::decimal(n).len() == 1,
        10 <= n < 100 <==> text::decimal(n).len() == 2,
        100 <= n < 1000 <==> text::decimal(n).len() == 3,
    decreases n,
{
    let digits = text::decimal(n);
    if n < 10 {
        lemma_digit(n as u64);
        assert(digits.drop_last() =~= Seq::<char>::empty());
        assert(number_of(digits.drop_last()) == 0);
    } else {
        let head = text::decimal(n / 10);
        lemma_decimal(n / 10);
        lemma_digit((n % 10) as u64);
        assert(digits.drop_last() =~= head);
        assert(digits[0] == head[0]);
        assert forall|i: int| 0 <= i < digits.len() implies '0' <= #[trigger] digits[i] <= '9' by {
            if i < head.len() {
                assert(digits[i] == head[i]);
            }
        }
    }
}

/// The decimal text of a number stands for that number and has no leading zeros.
pub proof fn law_decimal_text_stands_for_its_number(n: u64, r: String)
    requires
        call_ensures(text::decimal_string, (n,), r),
    ensures
        is_decimal(r@),
        number_of(r@) == n,
{
    lemma_decimal(n as nat);
}

/// Texts are the same exactly if they have the same characters, and are joined
/// one behind the other.
pub proof fn law_texts_are_compared_and_joined(a: &str, b: &str, c: &str, same: bool, r: String)
    requires
        call_ensures(text::same_text, (a, b), same),
        call_ensures(text::join3, (a, b, c), r),
    ensures
        same <==> a@ =~= b@,
        r@.len() == a@.len() + b@.len() + c@.len(),
        r@.take(a@.len() as int) == a@,
        r@.subrange(a@.len() as int, (a@.len() + b@.len()) as int) == b@,
        r@.skip((a@.len() + b@.len()) as int) == c@,
{
}

/// A posted device message is delivered exactly if the relay answers with 204; any
/// other answer is told with its three-digit code, a space and its phrase.
pub proof fn law_only_no_content_accepts_a_message(status: u16, r: Result<(), RelayError>)
    requires
        100 <= status <= 999,
        call_ensures(client::device_message_result, (status,), r),
    ensures
        r is Ok <==> status == 204,
        r is Err ==> (r->Err_0 matches RelayError::Rejected { status: line } && {
            &&& line@.len() == 4 + http_status::status_reason(status).len()
            &&& is_decimal(line@.take(3))
            &&& number_of(line@.take(3)) == status
            &&& line@[3] == ' '
            &&& line@.skip(4) == http_status::status_reason(status)
        }),
{
    lemma_decimal(status as nat);
    reveal_strlit(" ");
    if let Err(RelayError::Rejected { status: line }) = r {
        let digits = text::decimal(status as nat);
        assert(line@.take(3) =~= digits);
        assert(line@.skip(4) =~= http_status::status_reason(status));
    }
}

/// Each error is told in its own words, and with what it carries.
pub proof fn law_errors_are_told_in_their_words(error: &RelayError, r: String)
    requires
        call_ensures(RelayError::message, (error,), r),
    ensures
        match *error {
            RelayError::NotConnected => r@ == "Relay transport is not connected"@,
            RelayError::QueueFull => r@ == "Relay send queue is full; request was not queued"@,
            RelayError::QueueClosed => r@ == "Relay connection is closed"@,
            RelayError::ConnectCancelled => r@ == "Relay connection attempt cancelled"@,
            RelayError::ConnectSuperseded => r@ == "Relay connection attempt superseded"@,
            RelayError::NotAuthenticated => r@ == "Authenticated relay connection is unavailable"@,
            RelayError::InvalidTarget => r@ == "Invalid relay target device id"@,
            RelayError::InvalidUrl { reason } => r@ == reason@,
            RelayError::InvalidScheme => r@ == "Invalid relay WebSocket scheme"@,
            RelayError::InvalidHttpScheme => r@ == "Invalid relay HTTP scheme"@,
            RelayError::InvalidEndpoint => r@ == "Invalid relay WebSocket endpoint"@,
            RelayError::InvalidPath => r@ == "Invalid relay WebSocket path"@,
            RelayError::Rejected { status } => r@ == "Relay device message rejected (HTTP "@
                + status@ + ")"@,
            RelayError::WriteTimedOut => r@ == "Relay WebSocket write timed out"@,
            RelayError::DialTimedOut { ws_url } => r@ == "dial "@ + ws_url@
                + ": connection timed out after 15 seconds"@,
            RelayError::Dial { ws_url, reason } => r@ == "dial "@ + ws_url@ + ": "@ + reason@,
            RelayError::NoTrustedRoots => r@
                == "No trusted Windows root certificates available for relay connection"@,
            RelayError::Transport { reason } => r@ == reason@,
        },
{
    if let RelayError::DialTimedOut { ws_url } = *error {
        reveal_with_fuel(text::decimal, 2);
        reveal_strlit("1");
        reveal_strlit("5");
        reveal_strlit(": connection timed out after ");
        reveal_strlit(" seconds");
        reveal_strlit(": connection timed out after 15 seconds");
        assert(": connection timed out after "@ + text::decimal(15) + " seconds"@
            =~= ": connection timed out after 15 seconds"@);
        assert("dial "@ + ws_url@ + ": connection timed out after "@ + text::decimal(15)
            + " seconds"@ =~= "dial "@ + ws_url@ + (": connection timed out after "@
            + text::decimal(15) + " seconds"@));
    }
}

} // verus!
