//! What both channels share when they ask for an approval: the id of a request, the
//! text that shows the tool's input, and the reading of the reply.

use tokio::sync::oneshot;
use vstd::prelude::*;
use vstd::utf8::*;

verus! {

/// How long a request waits for a click before it counts as denied.
pub const APPROVAL_TIMEOUT_SECS: u64 = 300;

/// How much of the tool's input a request shows, in bytes of UTF-8.
pub const EXCERPT_BYTES: usize = 1800;

/// `serde_json::Value`: any JSON value.
#[verifier::external_type_specification]
#[verifier::external_body]
pub struct ExJsonValue(serde_json::Value);

/// `serde_json::Error`: why a value could not be written as JSON.
#[verifier::external_type_specification]
#[verifier::external_body]
pub struct ExJsonError(serde_json::Error);

/// The indented JSON text that `serde_json::to_string_pretty` gives for `value`, or
/// `None` where it fails.
pub uninterp spec fn pretty_json(value: serde_json::Value) -> Option<Seq<char>>;

/// The JSON text on one line that `serde_json::Value` displays for `value`.
pub uninterp spec fn compact_json(value: serde_json::Value) -> Seq<char>;

/// Calls `serde_json::to_string_pretty`. Whether it succeeds, and with what text,
/// depends on the value alone; the text itself is named, not spelled out.
#[verifier::external_body]
fn to_string_pretty(value: &serde_json::Value) -> (text: Result<String, serde_json::Error>)
    ensures
        text is Ok <==> pretty_json(*value) is Some,
        text matches Ok(t) ==> pretty_json(*value) == Some(t@),
{
    serde_json::to_string_pretty(value)
}

/// Calls `to_string` on a `serde_json::Value`. The text depends on the value alone; it
/// is named, not spelled out.
#[verifier::external_body]
fn to_string_compact(value: &serde_json::Value) -> (text: String)
    ensures
        text@ == compact_json(*value),
{
    value.to_string()
}

/// The text under which a tool's input is shown.
pub open spec fn input_text_of(input: serde_json::Value) -> Seq<char> {
    match pretty_json(input) {
        Some(text) => text,
        None => compact_json(input),
    }
}

/// The JSON text of a tool's input: indented, or on one line should that fail.
pub fn input_text(input: &serde_json::Value) -> (text: String)
    ensures
        text@ == input_text_of(*input),
{
    match to_string_pretty(input) {
        Ok(text) => text,
        Err(_) => to_string_compact(input),
    }
}

pub open spec fn is_lower_hex(c: char) -> bool {
    '0' <= c <= '9' || 'a' <= c <= 'f'
}

/// The form of a random (version 4) UUID: 36 characters, hyphens after 8, 12, 16 and 20
/// lower-case hexadecimal digits, the version digit 4 and one of the four variant digits.
pub open spec fn is_random_uuid(id: Seq<char>) -> bool {
    &&& id.len() == 36
    &&& forall|i: int|
        #![trigger id[i]]
        0 <= i < 36 ==> if i == 8 || i == 13 || i == 18 || i == 23 {
            id[i] == '-'
        } else {
            is_lower_hex(id[i])
        }
    &&& id[14] == '4'
    &&& id[19] == '8' || id[19] == '9' || id[19] == 'a' || id[19] == 'b'
}

/// Calls `uuid::Uuid::new_v4` and writes the UUID out. Every outcome has the hyphenated
/// lower-case form of a version 4 UUID; the other digits are random.
#[verifier::external_body]
pub(crate) fn new_approval_id() -> (id: String)
    ensures
        is_random_uuid(id@),
{
    uuid::Uuid::new_v4().to_string()
}

/// How far an excerpt of `text` may reach: 1800 bytes, or the whole text if it is shorter.
pub open spec fn cut_of(text: Seq<char>) -> int {
    if encode_utf8(text).len() <= EXCERPT_BYTES {
        encode_utf8(text).len() as int
    } else {
        EXCERPT_BYTES as int
    }
}

/// The last place at or before `at` that does not lie inside a character.
pub open spec fn last_boundary(bytes: Seq<u8>, at: int) -> int
    decreases at,
{
    if at <= 0 {
        0
    } else if is_char_boundary(bytes, at) {
        at
    } else {
        last_boundary(bytes, at - 1)
    }
}

/// The part of `text` that a request shows: as many whole characters from its beginning
/// as fit before the cut.
pub open spec fn excerpt_of(text: Seq<char>) -> Seq<char> {
    decode_utf8(
        encode_utf8(text).subrange(0, last_boundary(encode_utf8(text), cut_of(text))),
    )
}

proof fn lemma_last_boundary(bytes: Seq<u8>, at: int)
    requires
        valid_utf8(bytes),
        0 <= at <= bytes.len(),
    ensures
        0 <= last_boundary(bytes, at) <= at,
        is_char_boundary(bytes, last_boundary(bytes, at)),
        forall|k: int|
            last_boundary(bytes, at) < k <= at ==> !#[trigger] is_char_boundary(bytes, k),
    decreases at,
{
    if at > 0 && !is_char_boundary(bytes, at) {
        lemma_last_boundary(bytes, at - 1);
    }
}

/// The part of `text` that a request shows: its longest beginning of at most 1800 bytes.
pub fn excerpt(text: &str) -> (shown: &str)
    ensures
        shown@ == excerpt_of(text@),
        shown@.is_prefix_of(text@),
        encode_utf8(shown@).len() <= EXCERPT_BYTES,
        forall|k: int|
            encode_utf8(shown@).len() < k <= cut_of(text@) ==> !#[trigger] is_char_boundary(
                encode_utf8(text@),
                k,
            ),
{
    let bytes: usize = text.as_bytes().len();
    let mut at: usize = if bytes <= EXCERPT_BYTES {
        bytes
    } else {
        EXCERPT_BYTES
    };
    proof {
        encode_utf8_valid_utf8(text@);
        is_char_boundary_start_end_of_seq(encode_utf8(text@));
    }
    while !text.is_char_boundary(at)
        invariant
            is_char_boundary(encode_utf8(text@), 0),
            last_boundary(encode_utf8(text@), at as int) == last_boundary(
                encode_utf8(text@),
                cut_of(text@),
            ),
        decreases at,
    {
        at -= 1;
    }
    let (shown, _) = text.split_at(at);
    proof {
        encode_utf8_decode_utf8(shown@);
        law_excerpt_is_the_beginning(text@);
    }
    shown
}

/// The excerpt is a beginning of the text, takes up at most 1800 bytes, and stops at the
/// last place before the cut that does not lie inside a character.
pub proof fn law_excerpt_is_the_beginning(text: Seq<char>)
    ensures
        excerpt_of(text).is_prefix_of(text),
        encode_utf8(excerpt_of(text)).len() == last_boundary(encode_utf8(text), cut_of(text)),
        encode_utf8(excerpt_of(text)).len() <= EXCERPT_BYTES,
        forall|k: int|
            encode_utf8(excerpt_of(text)).len() < k <= cut_of(text) ==> !#[trigger] is_char_boundary(
                encode_utf8(text),
                k,
            ),
{
    let bytes = encode_utf8(text);
    let at = last_boundary(bytes, cut_of(text));
    encode_utf8_valid_utf8(text);
    encode_utf8_decode_utf8(text);
    lemma_last_boundary(bytes, cut_of(text));
    decode_utf8_split(bytes, at);
    valid_utf8_split(bytes, at);
    decode_utf8_encode_utf8(bytes.subrange(0, at));
}

/// The bytes of the first `n` characters end between two characters, and more characters
/// take more bytes.
proof fn lemma_bytes_of_beginning(text: Seq<char>, n: int)
    requires
        0 <= n <= text.len(),
    ensures
        encode_utf8(text.take(n)).len() <= encode_utf8(text).len(),
        n < text.len() ==> encode_utf8(text.take(n)).len() < encode_utf8(text).len(),
        is_char_boundary(encode_utf8(text), encode_utf8(text.take(n)).len() as int),
    decreases n,
{
    let bytes = encode_utf8(text);
    encode_utf8_valid_utf8(text);
    if n == 0 {
        assert(encode_utf8(text.take(0)).len() == 0);
        if text.len() > 0 {
            assert(bytes.len() >= encode_scalar(text[0] as u32).len());
        }
    } else {
        let rest = text.drop_first();
        encode_utf8_first_scalar(text);
        assert(text.take(n).drop_first() =~= rest.take(n - 1));
        assert(pop_first_scalar(bytes) =~= encode_utf8(rest));
        lemma_bytes_of_beginning(rest, n - 1);
    }
}

/// No longer beginning of the text fits: one that takes up at most 1800 bytes has no more
/// characters than the excerpt.
pub proof fn law_excerpt_is_the_longest(text: Seq<char>, n: int)
    requires
        0 <= n <= text.len(),
        encode_utf8(text.take(n)).len() <= EXCERPT_BYTES,
    ensures
        n <= excerpt_of(text).len(),
{
    law_excerpt_is_the_beginning(text);
    lemma_bytes_of_beginning(text, n);
    let m = excerpt_of(text).len() as int;
    if m < n {
        assert(text.take(n).take(m) =~= excerpt_of(text));
        lemma_bytes_of_beginning(text.take(n), m);
    }
}

/// Where the cut does not lie inside a character, everything before it is shown.
pub proof fn law_clean_cut_is_kept(text: Seq<char>)
    requires
        is_char_boundary(encode_utf8(text), cut_of(text)),
    ensures
        encode_utf8(excerpt_of(text)) == encode_utf8(text).subrange(0, cut_of(text)),
{
    encode_utf8_valid_utf8(text);
    valid_utf8_split(encode_utf8(text), cut_of(text));
    decode_utf8_encode_utf8(encode_utf8(text).subrange(0, cut_of(text)));
}

/// A text of at most 1800 bytes is shown whole.
pub proof fn law_short_text_is_shown_whole(text: Seq<char>)
    requires
        encode_utf8(text).len() <= EXCERPT_BYTES,
    ensures
        excerpt_of(text) == text,
{
    let bytes = encode_utf8(text);
    encode_utf8_valid_utf8(text);
    encode_utf8_decode_utf8(text);
    is_char_boundary_start_end_of_seq(bytes);
    assert(bytes.subrange(0, bytes.len() as int) =~= bytes);
}

/// ASCII text is cut by characters: its first 1800 are shown.
pub proof fn law_ascii_text_is_cut_by_characters(text: Seq<char>)
    requires
        is_ascii_chars(text),
    ensures
        excerpt_of(text) == text.take(cut_of(text)),
{
    let bytes = encode_utf8(text);
    let at = cut_of(text);
    encode_utf8_valid_utf8(text);
    is_ascii_chars_encode_utf8(text);
    is_char_boundary_start_end_of_seq(bytes);
    if at < bytes.len() {
        is_char_boundary_iff_not_is_continuation_byte(bytes, at);
    }
    law_excerpt_is_the_beginning(text);
    is_ascii_chars_encode_utf8(excerpt_of(text));
}

/// The three answers that a request offers.
#[derive(Clone, Copy, Debug, PartialEq, Eq, Structural)]
pub enum Choice {
    Approve,
    Always,
    Deny,
}

/// What the id of a choice's button begins with.
pub open spec fn tag_of(choice: Choice) -> Seq<char> {
    match choice {
        Choice::Approve => "approve:"@,
        Choice::Always => "always:"@,
        Choice::Deny => "deny:"@,
    }
}

/// The id of the button for `choice` in the request `approval_id`.
pub open spec fn button_id_of(choice: Choice, approval_id: Seq<char>) -> Seq<char> {
    tag_of(choice) + approval_id
}

/// What the button for `choice` says.
pub open spec fn label_of(choice: Choice) -> Seq<char> {
    match choice {
        Choice::Approve => "✅ Yes"@,
        Choice::Always => "🔁 Always (session)"@,
        Choice::Deny => "❌ No"@,
    }
}

/// The id of the button for `choice` in the request `approval_id`.
pub fn button_id(choice: Choice, approval_id: &str) -> (id: String)
    ensures
        id@ == button_id_of(choice, approval_id@),
{
    let tag = match choice {
        Choice::Approve => "approve:",
        Choice::Always => "always:",
        Choice::Deny => "deny:",
    };
    tag.to_owned().concat(approval_id)
}

/// What the button for `choice` says.
pub fn button_label(choice: Choice) -> (label: String)
    ensures
        label@ == label_of(choice),
{
    let label = match choice {
        Choice::Approve => "✅ Yes",
        Choice::Always => "🔁 Always (session)",
        Choice::Deny => "❌ No",
    };
    label.to_owned()
}

/// No two buttons share an id: the id tells both the choice and the request.
pub proof fn law_button_ids_are_unambiguous(
    choice: Choice,
    approval_id: Seq<char>,
    other_choice: Choice,
    other_id: Seq<char>,
)
    requires
        button_id_of(choice, approval_id) == button_id_of(other_choice, other_id),
    ensures
        choice == other_choice,
        approval_id == other_id,
{
    reveal_strlit("approve:");
    reveal_strlit("always:");
    reveal_strlit("deny:");
    let id = button_id_of(choice, approval_id);
    assert(id[0] == tag_of(choice)[0]);
    assert(id[0] == tag_of(other_choice)[0]);
    assert(id[1] == tag_of(choice)[1]);
    assert(id[1] == tag_of(other_choice)[1]);
    assert(choice == other_choice);
    let n = tag_of(choice).len() as int;
    assert(approval_id =~= id.skip(n));
    assert(other_id =~= id.skip(n));
}

/// Why a request is denied before anybody is asked.
#[derive(Clone, Copy, Debug, PartialEq, Eq, Structural)]
pub enum Obstacle {
    /// The bot is not connected.
    NotConnected,
    /// The bot has no token to post with.
    NoBotToken,
    /// Neither the session nor the owner has a channel to ask in.
    NoChannel,
}

/// How the wait for a click ended.
#[derive(Clone, Copy, Debug, PartialEq, Eq, Structural)]
pub enum Reply {
    /// A button was clicked.
    Answered { approved: bool, always: bool },
    /// The request was dropped, so that no answer can come.
    Closed,
    /// Nobody clicked in time.
    TimedOut,
}

/// The answer that a reply amounts to: the one given, or a refusal.
pub open spec fn answer_of(reply: Reply) -> (bool, bool) {
    match reply {
        Reply::Answered { approved, always } => (approved, always),
        Reply::Closed => (false, false),
        Reply::TimedOut => (false, false),
    }
}

/// The text that replaces the request once it is over, if it is replaced at all.
pub open spec fn closing_text_of(reply: Reply) -> Option<Seq<char>> {
    match reply {
        Reply::Answered { approved, always } => if always {
            Some("🔁 Always approved (session)"@)
        } else if approved {
            Some("✅ Approved"@)
        } else {
            Some("❌ Denied"@)
        },
        Reply::Closed => None,
        Reply::TimedOut => Some("⏱️ Approval timed out — denied"@),
    }
}

pub open spec fn text_view(text: Option<String>) -> Option<Seq<char>> {
    match text {
        Some(t) => Some(t@),
        None => None,
    }
}

/// The answer that a reply amounts to.
pub fn answer(reply: Reply) -> (answer: (bool, bool))
    ensures
        answer == answer_of(reply),
{
    match reply {
        Reply::Answered { approved, always } => (approved, always),
        Reply::Closed => (false, false),
        Reply::TimedOut => (false, false),
    }
}

/// The text that replaces the request once it is over.
pub fn closing_text(reply: Reply) -> (text: Option<String>)
    ensures
        text_view(text) == closing_text_of(reply),
{
    match reply {
        Reply::Answered { approved, always } => if always {
            Some("🔁 Always approved (session)".to_owned())
        } else if approved {
            Some("✅ Approved".to_owned())
        } else {
            Some("❌ Denied".to_owned())
        },
        Reply::Closed => None,
        Reply::TimedOut => Some("⏱️ Approval timed out — denied".to_owned()),
    }
}

/// A click decides the request it belongs to: a reply that brings what arrived amounts to
/// the answer that was clicked, and a reply that brings nothing to a refusal.
pub proof fn law_click_decides_or_denies(
    tx: oneshot::Sender<(bool, bool)>,
    rx: oneshot::Receiver<(bool, bool)>,
    click: (bool, bool),
    reply: Reply,
)
    requires
        crate::pending::arriving_at(rx) == crate::pending::sent_through(tx),
        crate::pending::handed_over(tx, click),
        reply is Answered ==> crate::pending::arriving_at(rx).contains(answer_of(reply)),
    ensures
        answer_of(reply) == (if reply is Answered {
            click
        } else {
            (false, false)
        }),
        crate::pending::receiver_gone(tx) ==> answer_of(reply) == (false, false),
{
    crate::pending::law_waiter_hears_only_the_answer(tx, rx, click);
}

/// A request whose id is registered again is denied: no answer can arrive any more.
pub proof fn law_replaced_request_is_denied(
    table: Map<Seq<char>, oneshot::Sender<(bool, bool)>>,
    id: Seq<char>,
    rx: oneshot::Receiver<(bool, bool)>,
    reply: Reply,
)
    requires
        table.contains_key(id),
        crate::pending::arriving_at(rx) == crate::pending::sent_through(table[id]),
        crate::pending::replaced_in(table, id),
        reply is Answered ==> crate::pending::arriving_at(rx).contains(answer_of(reply)),
    ensures
        !(reply is Answered),
        answer_of(reply) == (false, false),
{
}

/// What comes after the attempt to post a request; `D` is the channel's decision.
pub enum AfterPrompt<D> {
    /// Wait for the answer to arrive here.
    Wait(oneshot::Receiver<(bool, bool)>),
    /// The request could not be posted, and is decided.
    Decided(D),
}

/// How a request ends; `D` is the channel's decision.
pub struct Outcome<D> {
    pub decision: D,
    /// What the posted request is to say from now on, without its buttons.
    pub closing_text: Option<String>,
}

/// A reply amounts to what was answered; a lost request and a timeout amount to a refusal.
pub proof fn law_reply_amounts_to_its_answer(approved: bool, always: bool)
    ensures
        answer_of(Reply::Answered { approved, always }) == (approved, always),
        answer_of(Reply::Closed) == (false, false),
        answer_of(Reply::TimedOut) == (false, false),
{
}

/// The closing text tells how a request ended: "Always" before anything else, then yes or
/// no, then that time ran out. A lost request is left as it is.
pub proof fn law_closing_text_tells_the_end(approved: bool)
    ensures
        closing_text_of(Reply::Answered { approved, always: true }) == Some(
            "🔁 Always approved (session)"@,
        ),
        closing_text_of(Reply::Answered { approved: true, always: false }) == Some("✅ Approved"@),
        closing_text_of(Reply::Answered { approved: false, always: false }) == Some("❌ Denied"@),
        closing_text_of(Reply::TimedOut) == Some("⏱️ Approval timed out — denied"@),
        closing_text_of(Reply::Closed) is None,
{
}

/// A button carries its own choice and the id of its request, and says its own choice,
/// whatever the id. The three ids differ.
pub proof fn law_button_carries_its_choice(approval_id: Seq<char>)
    ensures
        button_id_of(Choice::Approve, approval_id) == "approve:"@ + approval_id,
        button_id_of(Choice::Always, approval_id) == "always:"@ + approval_id,
        button_id_of(Choice::Deny, approval_id) == "deny:"@ + approval_id,
        label_of(Choice::Approve) == "✅ Yes"@,
        label_of(Choice::Always) == "🔁 Always (session)"@,
        label_of(Choice::Deny) == "❌ No"@,
        button_id_of(Choice::Approve, approval_id) != button_id_of(Choice::Always, approval_id),
        button_id_of(Choice::Approve, approval_id) != button_id_of(Choice::Deny, approval_id),
        button_id_of(Choice::Always, approval_id) != button_id_of(Choice::Deny, approval_id),
{
    if button_id_of(Choice::Approve, approval_id) == button_id_of(Choice::Always, approval_id) {
        law_button_ids_are_unambiguous(Choice::Approve, approval_id, Choice::Always, approval_id);
    }
    if button_id_of(Choice::Approve, approval_id) == button_id_of(Choice::Deny, approval_id) {
        law_button_ids_are_unambiguous(Choice::Approve, approval_id, Choice::Deny, approval_id);
    }
    if button_id_of(Choice::Always, approval_id) == button_id_of(Choice::Deny, approval_id) {
        law_button_ids_are_unambiguous(Choice::Always, approval_id, Choice::Deny, approval_id);
    }
}

/// A tool's input is shown as indented JSON wherever there is such a text, and on one line
/// only where there is none.
pub proof fn law_input_is_shown_indented(input: serde_json::Value, text: Seq<char>)
    ensures
        pretty_json(input) == Some(text) ==> input_text_of(input) == text,
        pretty_json(input) is None ==> input_text_of(input) == compact_json(input),
{
}

/// The excerpt holds the first characters of the text, and among them every one that ends
/// within its first 1800 bytes: the first `n` characters fit into 1800 bytes if and only if
/// the excerpt is at least that long.
pub proof fn law_excerpt_is_what_fits(text: Seq<char>, n: int)
    requires
        0 <= n <= text.len(),
    ensures
        excerpt_of(text).is_prefix_of(text),
        encode_utf8(excerpt_of(text)).len() <= 1800,
        encode_utf8(text.take(n)).len() <= 1800 <==> n <= excerpt_of(text).len(),
{
    let m = excerpt_of(text).len() as int;
    law_excerpt_is_the_beginning(text);
    if encode_utf8(text.take(n)).len() <= 1800 {
        law_excerpt_is_the_longest(text, n);
    }
    if n <= m {
        assert(text.take(m) =~= excerpt_of(text));
        assert(text.take(m).take(n) =~= text.take(n));
        lemma_bytes_of_beginning(text.take(m), n);
    }
}

/// The id of a request has the form of a version 4 UUID: five groups of 8, 4, 4, 4 and 12
/// lower-case hexadecimal digits, joined by hyphens, with the version and variant digits.
pub proof fn law_approval_id_has_uuid_form(id: Seq<char>, i: int)
    requires
        is_random_uuid(id),
    ensures
        id.len() == 36,
        id[8] == '-' && id[13] == '-' && id[18] == '-' && id[23] == '-',
        0 <= i < 36 && i != 8 && i != 13 && i != 18 && i != 23 ==> '0' <= id[i] <= '9' || 'a'
            <= id[i] <= 'f',
        id[14] == '4',
        seq!['8', '9', 'a', 'b'].contains(id[19]),
{
    let variants = seq!['8', '9', 'a', 'b'];
    assert(variants[0] == '8' && variants[1] == '9' && variants[2] == 'a' && variants[3] == 'b');
}

} // verus!
