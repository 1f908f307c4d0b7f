//! What is read from texts, JSON values and timestamps.

use vstd::prelude::*;

use crate::deadline;
use crate::events;
use crate::events::{EventView, LifecycleEventKind, MessageView};
use crate::json;
use crate::json::JsonView;
use crate::text;

verus! {

/// A first choice is taken where it is there, and the second only where it is not.
pub proof fn first_choices_win<A>(first: Option<A>, second: Option<A>)
    ensures
        first is Some ==> text::or_else_view(first, second) == first,
        first is None ==> text::or_else_view(first, second) == second,
{
}

/// Whether the part of a text from `a` to `b` is the text without the white space
/// at its ends: there is white space all around the part, and none at its ends.
pub open spec fn is_trimmed_part(s: Seq<char>, a: int, b: int) -> bool {
    &&& 0 <= a <= b <= s.len()
    &&& forall|i: int| 0 <= i < a ==> text::is_whitespace(#[trigger] s[i])
    &&& forall|i: int| b <= i < s.len() ==> text::is_whitespace(#[trigger] s[i])
    &&& a < b ==> !text::is_whitespace(s[a]) && !text::is_whitespace(s[b - 1])
}

/// Trimming takes white space off both ends and nothing else.
pub proof fn trimming_takes_white_space_off_the_ends(s: Seq<char>) -> (part: (int, int))
    ensures
        is_trimmed_part(s, part.0, part.1),
        text::trimmed(s) == s.subrange(part.0, part.1),
    decreases s.len(),
{
    if s.len() == 0 {
        assert(s.subrange(0, 0) =~= s);
        (0, 0)
    } else if text::is_whitespace(s[0]) {
        let rest = s.skip(1);
        let (a, b) = trimming_takes_white_space_off_the_ends(rest);
        assert(rest.subrange(a, b) =~= s.subrange(a + 1, b + 1));
        assert forall|i: int| 0 <= i < a + 1 implies text::is_whitespace(#[trigger] s[i]) by {
            if i > 0 {
                assert(rest[i - 1] == s[i]);
            }
        }
        assert forall|i: int| b + 1 <= i < s.len() implies text::is_whitespace(
            #[trigger] s[i],
        ) by {
            assert(rest[i - 1] == s[i]);
        }
        (a + 1, b + 1)
    } else if text::is_whitespace(s.last()) {
        let rest = s.drop_last();
        let (a, b) = trimming_takes_white_space_off_the_ends(rest);
        assert(rest.subrange(a, b) =~= s.subrange(a, b));
        assert forall|i: int| 0 <= i < a implies text::is_whitespace(#[trigger] s[i]) by {
            assert(rest[i] == s[i]);
        }
        assert forall|i: int| b <= i < s.len() implies text::is_whitespace(#[trigger] s[i]) by {
            if i < rest.len() {
                assert(rest[i] == s[i]);
            }
        }
        (a, b)
    } else {
        assert(s.subrange(0, s.len() as int) =~= s);
        (0, s.len() as int)
    }
}

/// Spaces, tabs and line breaks are white space; no visible ASCII character is.
pub proof fn visible_characters_are_no_white_space(c: char)
    ensures
        text::is_whitespace(' ') && text::is_whitespace('\t') && text::is_whitespace('\n')
            && text::is_whitespace('\r'),
        '!' <= c <= '~' ==> !text::is_whitespace(c),
        text::is_whitespace(c) <==> '\u{9}' <= c <= '\u{d}' || c == ' ' || c == '\u{85}' || c
            == '\u{a0}' || c == '\u{1680}' || '\u{2000}' <= c <= '\u{200a}' || c == '\u{2028}'
            || c == '\u{2029}' || c == '\u{202f}' || c == '\u{205f}' || c == '\u{3000}',
{
}

/// Lower case turns the capital letters A to Z into the letters a to z, and leaves
/// everything else as it is.
pub proof fn lower_case_changes_capitals_only(s: Seq<char>, i: int)
    requires
        0 <= i < s.len(),
    ensures
        text::ascii_lower(s).len() == s.len(),
        'A' <= s[i] <= 'Z' ==> text::ascii_lower(s)[i] as int - 'a' as int == s[i] as int
            - 'A' as int,
        !('A' <= s[i] <= 'Z') ==> text::ascii_lower(s)[i] == s[i],
        !('A' <= text::ascii_lower(s)[i] <= 'Z'),
{
    assert('a' as int - 'A' as int == 32);
}

/// Two texts are the same but for case just where they are in lower case.
pub proof fn case_does_not_tell_texts_apart(a: Seq<char>, b: Seq<char>)
    ensures
        events::same_ignoring_case(a, b) <==> text::ascii_lower(a) == text::ascii_lower(b),
        events::same_ignoring_case(a, text::ascii_lower(a)),
{
    assert(text::ascii_lower(text::ascii_lower(a)) =~= text::ascii_lower(a));
}

/// A written number is read with a sign before it or without; a text with anything
/// else in it is none.
pub proof fn numbers_are_signs_and_digits(s: Seq<char>, n: int, i: int)
    requires
        0 <= n,
    ensures
        text::integer_value(text::decimal(n)) == Some(n),
        text::integer_value(seq!['+'] + text::decimal(n)) == Some(n),
        text::integer_value(seq!['-'] + text::decimal(n)) == Some(-n),
        text::integer_value(seq!['0'] + text::decimal(n)) == Some(n),
        text::integer_value(Seq::empty()) is None,
        0 <= i < s.len() && !text::is_digit(s[i]) && !(i == 0 && (s[i] == '-' || s[i] == '+'))
            ==> text::integer_value(s) is None,
        i64::MIN <= n <= i64::MAX ==> text::written_i64(text::decimal(n)) == Some(n as i64),
        n > i64::MAX ==> text::written_i64(text::decimal(n)) is None,
        n <= i32::MAX ==> text::written_i32(text::decimal(n)) == Some(n as i32),
        n > i32::MAX ==> text::written_i32(text::decimal(n)) is None,
{
    text::decimal_reads_back(n);
    let d = text::decimal(n);
    assert((seq!['+'] + d).skip(1) =~= d);
    assert((seq!['-'] + d).skip(1) =~= d);
    lemma_decimal_digits(n as nat);
    lemma_leading_zero(d);
    if 0 <= i < s.len() && !text::is_digit(s[i]) && !(i == 0 && (s[i] == '-' || s[i] == '+')) {
        if i > 0 {
            assert(s.skip(1)[i - 1] == s[i]);
        }
    }
}

proof fn lemma_decimal_digits(n: nat)
    ensures
        text::all_digits(text::nat_decimal(n)),
        text::digits_value(text::nat_decimal(n)) == n,
    decreases n,
{
    if n >= 10 {
        lemma_decimal_digits(n / 10);
        assert(text::nat_decimal(n).drop_last() =~= text::nat_decimal(n / 10));
    } else {
        let s = text::nat_decimal(n);
        assert(s.drop_last().len() == 0);
        assert(text::digits_value(s) == text::digits_value(s.drop_last()) * 10
            + text::digit_value(s.last()));
    }
}

proof fn lemma_leading_zero(s: Seq<char>)
    requires
        text::all_digits(s),
    ensures
        text::digits_value(seq!['0'] + s) == text::digits_value(s),
        text::all_digits(seq!['0'] + s),
    decreases s.len(),
{
    let padded = seq!['0'] + s;
    let front = s.drop_last();
    assert(padded.drop_last() =~= seq!['0'] + front);
    if front.len() > 0 {
        assert(text::all_digits(front));
        lemma_leading_zero(front);
    } else {
        assert(seq!['0'] + front =~= seq!['0']);
        assert(seq!['0'].drop_last() =~= Seq::<char>::empty());
        reveal_with_fuel(text::digits_value, 3);
    }
    assert forall|i: int| 0 <= i < padded.len() implies text::is_digit(#[trigger] padded[i]) by {
        if i > 0 {
            assert(padded[i] == s[i - 1]);
        }
    }
}

/// A key names the first member with that name, and nothing where there is none or
/// the value is no object.
pub proof fn keys_name_their_first_member(
    members: Seq<(Seq<char>, JsonView)>,
    key: Seq<char>,
    i: int,
)
    ensures
        0 <= i < members.len() && members[i].0 == key && (forall|j: int|
            0 <= j < i ==> (#[trigger] members[j]).0 != key) ==> json::member(
            JsonView::Object(members),
            key,
        ) == Some(members[i].1),
        (forall|j: int| 0 <= j < members.len() ==> (#[trigger] members[j]).0 != key)
            ==> json::member(JsonView::Object(members), key) is None,
    decreases members.len(),
{
    if members.len() > 0 && members[0].0 != key {
        let rest = members.skip(1);
        keys_name_their_first_member(rest, key, i - 1);
        if 0 <= i < members.len() && members[i].0 == key && (forall|j: int|
            0 <= j < i ==> (#[trigger] members[j]).0 != key) {
            assert(rest[i - 1] == members[i]);
            assert forall|j: int| 0 <= j < i - 1 implies (#[trigger] rest[j]).0 != key by {
                assert(rest[j] == members[j + 1]);
            }
        }
        if forall|j: int| 0 <= j < members.len() ==> (#[trigger] members[j]).0 != key {
            assert forall|j: int| 0 <= j < rest.len() implies (#[trigger] rest[j]).0 != key by {
                assert(rest[j] == members[j + 1]);
            }
        }
    }
}

/// What a value gives as a text, as an integer and as plain text: blank texts give
/// no text, and only texts and numbers give anything.
pub proof fn scalars_are_texts_and_numbers(value: JsonView, t: Seq<char>, n: i64)
    ensures
        value == JsonView::Text(t) && text::trimmed(t).len() > 0 ==> json::scalar_text(value)
            == Some(t),
        value == JsonView::Text(t) && text::trimmed(t).len() == 0 ==> json::scalar_text(value)
            is None && json::scalar_int(value) is None,
        value == json::int_json(n as int) ==> json::scalar_text(value) == Some(
            text::decimal(n as int),
        ) && json::scalar_int(value) == Some(n) && json::int_value(value) == Some(n)
            && json::text_value(value) is None,
        value == JsonView::Text(t) ==> json::text_value(value) == Some(t) && json::int_value(value)
            is None,
        value == JsonView::Text(t) && text::trimmed(t) == text::decimal(n as int)
            ==> json::scalar_int(value) == Some(n),
        n >= 0 && (value matches JsonView::Number(number) && number.signed is None
            && number.unsigned == Some(n as u64)) ==> json::scalar_int(value) == Some(n),
        !(value is Text) && !(value is Number) ==> json::scalar_text(value) is None
            && json::scalar_int(value) is None && json::scalar_small_int(value) is None
            && json::text_value(value) is None && json::int_value(value) is None,
        forall|object: JsonView, key: Seq<char>|
            json::member(object, key) == Some(value) ==> #[trigger] json::text_at(object, key)
                == json::scalar_text(value),
        forall|object: JsonView, key: Seq<char>|
            json::member(object, key) == Some(value) ==> #[trigger] json::int_at(object, key)
                == json::scalar_int(value),
        forall|object: JsonView, key: Seq<char>|
            json::member(object, key) == Some(value) ==> #[trigger] json::str_at(object, key)
                == json::text_value(value),
{
    text::decimal_reads_back(n as int);
    assert(Seq::<char>::empty().len() == 0);
}

/// Of several keys, the first that has a value gives it.
pub proof fn the_first_key_with_a_value_counts(value: JsonView, keys: Seq<Seq<char>>, i: int)
    ensures
        0 <= i < keys.len() && json::text_at(value, keys[i]) is Some && (forall|j: int|
            0 <= j < i ==> json::text_at(value, #[trigger] keys[j]) is None) ==> json::first_text(
            value,
            keys,
        ) == json::text_at(value, keys[i]),
        (forall|j: int| 0 <= j < keys.len() ==> json::text_at(value, #[trigger] keys[j]) is None)
            ==> json::first_text(value, keys) is None,
        0 <= i < keys.len() && json::int_at(value, keys[i]) is Some && (forall|j: int|
            0 <= j < i ==> json::int_at(value, #[trigger] keys[j]) is None) ==> json::first_int(
            value,
            keys,
        ) == json::int_at(value, keys[i]),
        0 <= i < keys.len() && json::str_at(value, keys[i]) is Some && (forall|j: int|
            0 <= j < i ==> json::str_at(value, #[trigger] keys[j]) is None) ==> json::str_or_empty(
            value,
            keys,
        ) == json::str_at(value, keys[i])->0,
        (forall|j: int| 0 <= j < keys.len() ==> json::str_at(value, #[trigger] keys[j]) is None)
            ==> json::str_or_empty(value, keys) == Seq::<char>::empty(),
    decreases keys.len(),
{
    if keys.len() > 0 {
        let rest = keys.skip(1);
        the_first_key_with_a_value_counts(value, rest, i - 1);
        assert forall|j: int| 0 <= j < rest.len() implies #[trigger] rest[j] == keys[j + 1] by {}
    }
}

/// A timestamp counts seconds up to ten thousand million, and milliseconds beyond;
/// those are cut off towards zero.
pub proof fn large_timestamps_count_milliseconds(raw: i64)
    ensures
        -10_000_000_000 <= raw <= 10_000_000_000 ==> deadline::in_seconds(raw) == raw,
        raw > 10_000_000_000 ==> deadline::in_seconds(raw) * 1000 <= raw < deadline::in_seconds(raw)
            * 1000 + 1000,
        i64::MIN < raw < -10_000_000_000 ==> deadline::in_seconds(raw) * 1000 - 1000 < raw
            <= deadline::in_seconds(raw) * 1000,
{
}

/// A timestamp is the number that its text writes: with white space around it for
/// a task, and as it stands for a subscription.
pub proof fn timestamps_are_written_numbers(t: Seq<char>, n: i64)
    requires
        -10_000_000_000 <= n <= 10_000_000_000,
    ensures
        text::trimmed(t) == text::decimal(n as int) ==> deadline::opt_timestamp(Some(t)) == Some(n),
        deadline::exact_timestamp_of(Some(text::decimal(n as int))) == Some(n),
        deadline::opt_timestamp(None) is None,
        deadline::exact_timestamp_of(None) is None,
        text::integer_value(t) is None ==> deadline::exact_timestamp_of(Some(t)) is None,
{
    text::decimal_reads_back(n as int);
}

/// A subscription timestamp has passed once the clock reaches it, and is in the
/// future before; one that is missing is neither.
pub proof fn timestamps_pass_when_the_clock_reaches_them(n: i64, now: i64)
    requires
        -10_000_000_000 <= n <= 10_000_000_000,
    ensures
        deadline::has_passed(Some(text::decimal(n as int)), now) <==> now >= n,
        deadline::is_future(Some(text::decimal(n as int)), now) <==> now < n,
        !deadline::has_passed(None, now),
        !deadline::is_future(None, now),
{
    timestamps_are_written_numbers(text::decimal(n as int), n);
}

/// A second has a local time from the year -262143 to the year 262142 in UTC.
pub proof fn dated_seconds_lie_between_two_years(seconds: i64)
    ensures
        deadline::is_dated(seconds) <==> -8_334_601_228_800 <= seconds <= 8_210_266_876_799,
{
}

/// A local time is the one of its own timestamp, written with date, time and
/// offset.
pub proof fn local_times_are_of_their_timestamp(
    time: Option<Seq<char>>,
    value: Option<Seq<char>>,
)
    requires
        deadline::is_time_of(time, value),
    ensures
        value is None ==> time is None,
        time is Some ==> deadline::opt_timestamp(value) is Some && exists|offset: i32|
            -86_400 < offset < 86_400 && time->0 == #[trigger] deadline::formatted_time(
                deadline::opt_timestamp(value)->0,
                offset,
                "%Y-%m-%d %H:%M:%S %:z"@,
            ),
{
}

/// Each kind of event has its own names, in any case and with white space around
/// them.
pub proof fn names_belong_to_one_kind(name: Seq<char>)
    ensures
        ({
            let key = text::ascii_lower(text::trimmed(name));
            let kind = events::event_kind_of(name);
            &&& kind == Some(LifecycleEventKind::AspSelected) <==> key == "job_asp_selected"@
            &&& kind == Some(LifecycleEventKind::Created) <==> key == "job_created"@
            &&& kind == Some(LifecycleEventKind::Accepted) <==> key == "job_accepted"@
            &&& kind == Some(LifecycleEventKind::Submitted) <==> key == "job_submitted"@
            &&& kind == Some(LifecycleEventKind::Completed) <==> key == "job_completed"@
                || key == "job_auto_completed"@
            &&& kind == Some(LifecycleEventKind::Rejected) <==> key == "job_rejected"@
            &&& kind == Some(LifecycleEventKind::DisputeRequested) <==> key == "dispute_approved"@
            &&& kind == Some(LifecycleEventKind::Disputed) <==> key == "job_disputed"@
            &&& kind == Some(LifecycleEventKind::DisputeResolved) <==> key == "dispute_resolved"@
            &&& kind == Some(LifecycleEventKind::ReviewExpired) <==> key == "review_expired"@
            &&& kind == Some(LifecycleEventKind::RejectExpired) <==> key == "reject_expired"@
            &&& kind == Some(LifecycleEventKind::ProviderRejected)
                <==> key == "job_provider_reject"@
            &&& kind == Some(LifecycleEventKind::Closed) <==> key == "job_closed"@
                || key == "job_asp_reject_closed"@
            &&& kind == Some(LifecycleEventKind::Expired) <==> key == "job_expired"@
                || key == "job_asp_accept_expire"@ || key == "submit_expired"@
            &&& kind == Some(LifecycleEventKind::Refunded) <==> key == "job_refunded"@
                || key == "job_auto_refunded"@ || key == "job_asp_reject_expire"@
            &&& kind == Some(LifecycleEventKind::Failed) <==> key == "job_failed"@
            &&& kind == Some(LifecycleEventKind::SubscriptionOpened) <==> key == "sub_open"@
            &&& kind == Some(LifecycleEventKind::SubscriptionCreated) <==> key == "sub_created"@
            &&& kind == Some(LifecycleEventKind::SubscriptionAspSelected)
                <==> key == "sub_asp_selected"@
            &&& kind == Some(LifecycleEventKind::SubscriptionCancelled) <==> key == "sub_cancel"@
            &&& kind == Some(LifecycleEventKind::SubscriptionDeliveryRejected)
                <==> key == "sub_user_reject"@
            &&& kind == Some(LifecycleEventKind::SubscriptionRefundApproved)
                <==> key == "sub_asp_agree"@
            &&& kind == Some(LifecycleEventKind::SubscriptionDisputed)
                <==> key == "sub_asp_dispute"@
            &&& kind == Some(LifecycleEventKind::SubscriptionTrialConverted)
                <==> key == "sub_trial_into_active"@
            &&& kind == Some(LifecycleEventKind::SubscriptionRenewed) <==> key == "sub_renew"@
            &&& kind == Some(LifecycleEventKind::SubscriptionExpiryWarning)
                <==> key == "sub_expire_warn"@
            &&& kind == Some(LifecycleEventKind::SubscriptionCompleted)
                <==> key == "sub_complete_notify"@
            &&& kind == Some(LifecycleEventKind::SubscriptionClosed) <==> key == "sub_close_notify"@
            &&& kind == Some(LifecycleEventKind::SubscriptionFailed)
                <==> key == "sub_failed_notify"@
            &&& kind == Some(LifecycleEventKind::SubscriptionAutoRefunded)
                <==> key == "sub_reject_refund_notify"@
            &&& kind == Some(LifecycleEventKind::SubscriptionIncomeClaimed)
                <==> key == "sub_asp_claim_notify"@
        }),
{
    reveal_strlit("job_asp_selected");
    reveal_strlit("job_created");
    reveal_strlit("job_accepted");
    reveal_strlit("job_submitted");
    reveal_strlit("job_completed");
    reveal_strlit("job_auto_completed");
    reveal_strlit("job_rejected");
    reveal_strlit("dispute_approved");
    reveal_strlit("job_disputed");
    reveal_strlit("dispute_resolved");
    reveal_strlit("review_expired");
    reveal_strlit("reject_expired");
    reveal_strlit("job_provider_reject");
    reveal_strlit("job_closed");
    reveal_strlit("job_asp_reject_closed");
    reveal_strlit("job_expired");
    reveal_strlit("job_asp_accept_expire");
    reveal_strlit("submit_expired");
    reveal_strlit("job_refunded");
    reveal_strlit("job_auto_refunded");
    reveal_strlit("job_asp_reject_expire");
    reveal_strlit("job_failed");
    reveal_strlit("sub_open");
    reveal_strlit("sub_created");
    reveal_strlit("sub_asp_selected");
    reveal_strlit("sub_cancel");
    reveal_strlit("sub_user_reject");
    reveal_strlit("sub_asp_agree");
    reveal_strlit("sub_asp_dispute");
    reveal_strlit("sub_trial_into_active");
    reveal_strlit("sub_renew");
    reveal_strlit("sub_expire_warn");
    reveal_strlit("sub_complete_notify");
    reveal_strlit("sub_close_notify");
    reveal_strlit("sub_failed_notify");
    reveal_strlit("sub_reject_refund_notify");
    reveal_strlit("sub_asp_claim_notify");
    assert("job_asp_selected"@.len() == 16);
    assert("job_created"@.len() == 11);
    assert("job_accepted"@.len() == 12);
    assert("job_submitted"@.len() == 13);
    assert("job_completed"@.len() == 13);
    assert("job_auto_completed"@.len() == 18);
    assert("job_rejected"@.len() == 12);
    assert("dispute_approved"@.len() == 16);
    assert("job_disputed"@.len() == 12);
    assert("dispute_resolved"@.len() == 16);
    assert("review_expired"@.len() == 14);
    assert("reject_expired"@.len() == 14);
    assert("job_provider_reject"@.len() == 19);
    assert("job_closed"@.len() == 10);
    assert("job_asp_reject_closed"@.len() == 21);
    assert("job_expired"@.len() == 11);
    assert("job_asp_accept_expire"@.len() == 21);
    assert("submit_expired"@.len() == 14);
    assert("job_refunded"@.len() == 12);
    assert("job_auto_refunded"@.len() == 17);
    assert("job_asp_reject_expire"@.len() == 21);
    assert("job_failed"@.len() == 10);
    assert("sub_open"@.len() == 8);
    assert("sub_created"@.len() == 11);
    assert("sub_asp_selected"@.len() == 16);
    assert("sub_cancel"@.len() == 10);
    assert("sub_user_reject"@.len() == 15);
    assert("sub_asp_agree"@.len() == 13);
    assert("sub_asp_dispute"@.len() == 15);
    assert("sub_trial_into_active"@.len() == 21);
    assert("sub_renew"@.len() == 9);
    assert("sub_expire_warn"@.len() == 15);
    assert("sub_complete_notify"@.len() == 19);
    assert("sub_close_notify"@.len() == 16);
    assert("sub_failed_notify"@.len() == 17);
    assert("sub_reject_refund_notify"@.len() == 24);
    assert("sub_asp_claim_notify"@.len() == 20);
    assert("job_asp_selected"@[0] != "dispute_approved"@[0]);
    assert("job_asp_selected"@[0] != "dispute_resolved"@[0]);
    assert("job_asp_selected"@[0] != "sub_asp_selected"@[0]);
    assert("job_asp_selected"@[0] != "sub_close_notify"@[0]);
    assert("job_created"@[4] != "job_expired"@[4]);
    assert("job_created"@[0] != "sub_created"@[0]);
    assert("job_accepted"@[4] != "job_rejected"@[4]);
    assert("job_accepted"@[4] != "job_disputed"@[4]);
    assert("job_accepted"@[4] != "job_refunded"@[4]);
    assert("job_submitted"@[4] != "job_completed"@[4]);
    assert("job_submitted"@[0] != "sub_asp_agree"@[0]);
    assert("job_completed"@[0] != "sub_asp_agree"@[0]);
    assert("job_rejected"@[4] != "job_disputed"@[4]);
    assert("job_rejected"@[6] != "job_refunded"@[6]);
    assert("dispute_approved"@[8] != "dispute_resolved"@[8]);
    assert("dispute_approved"@[0] != "sub_asp_selected"@[0]);
    assert("dispute_approved"@[0] != "sub_close_notify"@[0]);
    assert("job_disputed"@[4] != "job_refunded"@[4]);
    assert("dispute_resolved"@[0] != "sub_asp_selected"@[0]);
    assert("dispute_resolved"@[0] != "sub_close_notify"@[0]);
    assert("review_expired"@[2] != "reject_expired"@[2]);
    assert("review_expired"@[0] != "submit_expired"@[0]);
    assert("reject_expired"@[0] != "submit_expired"@[0]);
    assert("job_provider_reject"@[0] != "sub_complete_notify"@[0]);
    assert("job_closed"@[4] != "job_failed"@[4]);
    assert("job_closed"@[0] != "sub_cancel"@[0]);
    assert("job_asp_reject_closed"@[8] != "job_asp_accept_expire"@[8]);
    assert("job_asp_reject_closed"@[15] != "job_asp_reject_expire"@[15]);
    assert("job_asp_reject_closed"@[0] != "sub_trial_into_active"@[0]);
    assert("job_expired"@[0] != "sub_created"@[0]);
    assert("job_asp_accept_expire"@[8] != "job_asp_reject_expire"@[8]);
    assert("job_asp_accept_expire"@[0] != "sub_trial_into_active"@[0]);
    assert("job_auto_refunded"@[0] != "sub_failed_notify"@[0]);
    assert("job_asp_reject_expire"@[0] != "sub_trial_into_active"@[0]);
    assert("job_failed"@[0] != "sub_cancel"@[0]);
    assert("sub_asp_selected"@[4] != "sub_close_notify"@[4]);
    assert("sub_user_reject"@[4] != "sub_asp_dispute"@[4]);
    assert("sub_user_reject"@[4] != "sub_expire_warn"@[4]);
    assert("sub_asp_dispute"@[4] != "sub_expire_warn"@[4]);
}

/// What an official object says of its event, by its keys; the message adds its id,
/// its sender and the time at which it was sent.
pub proof fn events_state_their_keys(
    envelope: JsonView,
    name: Seq<char>,
    kind: LifecycleEventKind,
    message: MessageView,
)
    ensures
        ({
            let event = events::stated_event(envelope, name, kind, message);
            let time = json::first_text(
                envelope,
                seq!["occurredAt"@, "eventTime"@, "timestamp"@, "createdAt"@],
            );
            &&& event.message_id == message.id
            &&& event.sender_inbox_id == message.sender_inbox_id
            &&& event.kind == kind
            &&& event.name == text::ascii_lower(text::trimmed(name))
            &&& event.event_id == json::text_at(envelope, "eventId"@)
            &&& time is Some ==> event.occurred_at == time
            &&& time is None ==> event.occurred_at == message.sent_at
            &&& event.deadline_at == json::first_text(
                envelope,
                seq![
                    "reviewDeadlineAt"@,
                    "reviewWindowEndsAt"@,
                    "rejectWindowEndsAt"@,
                    "acceptDeadline"@,
                    "trialEndTime"@,
                    "trailEndTime"@,
                    "subBufferEndTime"@,
                    "expireTime"@,
                ],
            )
            &&& event.authoritative_status == json::first_text(
                envelope,
                seq!["subStatus"@, "jobStatus"@, "taskStatus"@, "status"@],
            )
            &&& event.outcome == json::first_text(
                envelope,
                seq![
                    "renewResult"@,
                    "cancelResult"@,
                    "disputeResult"@,
                    "evaluationResult"@,
                    "winner"@,
                    "verdict"@,
                    "result"@,
                ],
            )
            &&& event.reason == json::first_text(
                envelope,
                seq![
                    "failReason"@,
                    "failReasopn"@,
                    "aspRejectReason"@,
                    "refundReason"@,
                    "rejectReason"@,
                    "reason"@,
                ],
            )
            &&& events::job_type_at(envelope) is Some ==> event.job_type == events::job_type_at(
                envelope,
            )
            &&& events::job_type_at(envelope) is None && event.name.take(4) == "sub_"@
                && event.name.len() >= 4 ==> event.job_type == Some(1i32)
            &&& events::job_type_at(envelope) is None && event.job_type is Some
                ==> event.name.len() >= 4 && event.name.take(4) == "sub_"@
        }),
{
    reveal_strlit("sub_");
    assert("sub_"@.len() == 4);
}

/// A message states an event of a job just where its object is the system's, names
/// exactly the job, and has an event with a known name.
pub proof fn only_official_messages_state_events(
    job: Seq<char>,
    message: MessageView,
    envelope: JsonView,
    name: Seq<char>,
)
    ensures
        events::official_envelope(message.content) == Some(envelope) && json::text_at(
            envelope,
            "jobId"@,
        ) == Some(job) && json::str_at(envelope, "event"@) == Some(name) && events::event_kind_of(
            name,
        ) is Some ==> events::recognized_event(job, message) == Some(
            events::stated_event(envelope, name, events::event_kind_of(name)->0, message),
        ),
        events::official_envelope(message.content) is None ==> events::recognized_event(
            job,
            message,
        ) is None,
        events::official_envelope(message.content) == Some(envelope) && json::text_at(
            envelope,
            "jobId"@,
        ) != Some(job) ==> events::recognized_event(job, message) is None,
        events::official_envelope(message.content) == Some(envelope) && json::str_at(
            envelope,
            "event"@,
        ) is None ==> events::recognized_event(job, message) is None,
        events::official_envelope(message.content) == Some(envelope) && json::str_at(
            envelope,
            "event"@,
        ) == Some(name) && events::event_kind_of(name) is None ==> events::recognized_event(
            job,
            message,
        ) is None,
{
    reveal(events::recognized_event);
}

/// The official object of a message is its content, or the `message` in it, and
/// says that the system is its source; a text counts as the object that it writes.
pub proof fn official_objects_name_the_system(content: JsonView, inner: JsonView)
    ensures
        ({
            let found = events::official_envelope(content);
            let nested = json::member(content, "message"@) == Some(inner) && inner is Object;
            let by_system = |object: JsonView|
                json::str_at(object, "source"@) is Some && text::ascii_lower(
                    json::str_at(object, "source"@)->0,
                ) == "system"@;
            &&& content is Object && nested ==> found == (if by_system(inner) {
                Some(inner)
            } else {
                None
            })
            &&& content is Object && !(json::member(content, "message"@) matches Some(value)
                && value is Object) ==> found == (if by_system(content) {
                Some(content)
            } else {
                None
            })
            &&& content is Text && json::parsed_json(content->Text_0) == Some(inner) && inner
                is Object ==> found == events::official_envelope(inner)
            &&& content is Text && json::parsed_json(content->Text_0) is None ==> found is None
            &&& !(content is Object) && !(content is Text) ==> found is None
        }),
{
    reveal_strlit("system");
    assert(text::ascii_lower("system"@) =~= "system"@);
}

/// Events with a date come before those without, and the earlier before the later;
/// of two at one time the lesser message id comes first.
pub proof fn events_are_ordered_by_time(a: EventView, b: EventView)
    ensures
        ({
            let first = deadline::opt_timestamp(a.occurred_at);
            let second = deadline::opt_timestamp(b.occurred_at);
            &&& first is Some && second is Some && first->0 < second->0
                ==> events::event_before(a, b)
                && !events::event_before(b, a)
            &&& first is Some && second is None ==> events::event_before(a, b)
                && !events::event_before(b, a)
            &&& first is Some && first == second ==> (events::event_before(a, b)
                <==> text::text_less(a.message_id, b.message_id))
            &&& a.occurred_at == b.occurred_at ==> (events::event_before(a, b) <==> text::text_less(
                a.message_id,
                b.message_id,
            ))
        }),
{
}

/// Two statements are of one event where they have the same event id, or no id and
/// the same name and time.
pub proof fn statements_of_one_event_share_its_key(job: Seq<char>, a: EventView, b: EventView)
    ensures
        a.event_id is Some ==> events::logical_key(job, a) == a.event_id->0,
        a.event_id is None && a.occurred_at is Some ==> events::logical_key(job, a) == job + ":"@
            + a.name + ":"@ + a.occurred_at->0,
        a.event_id is Some && a.event_id == b.event_id ==> events::logical_key(job, a)
            == events::logical_key(job, b),
        a.event_id is None && b.event_id is None && a.name == b.name && a.occurred_at
            == b.occurred_at ==> events::logical_key(job, a) == events::logical_key(job, b),
{
}

/// The first difference decides the order of texts.
pub proof fn the_first_difference_orders_texts(prefix: Seq<char>, a: Seq<char>, b: Seq<char>)
    ensures
        text::text_less(prefix + a, prefix + b) <==> text::text_less(a, b),
        a.len() > 0 && b.len() > 0 && a[0] < b[0] ==> text::text_less(a, b),
        a.len() == 0 && b.len() > 0 ==> text::text_less(a, b),
    decreases prefix.len(),
{
    if prefix.len() == 0 {
        assert(prefix + a =~= a);
        assert(prefix + b =~= b);
    } else {
        let rest = prefix.skip(1);
        assert((prefix + a).skip(1) =~= rest + a);
        assert((prefix + b).skip(1) =~= rest + b);
        the_first_difference_orders_texts(rest, a, b);
    }
}

} // verus!
