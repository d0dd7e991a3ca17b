use vstd::prelude::*;
use vstd::string::StringExecFns;

verus! {

/// What a local consumer asks to receive. `user` is a 20-byte account address.
#[derive(Debug)]
pub enum Subscription {
    AllMids,
    Trades { coin: String },
    L2Book { coin: String },
    UserEvents { user: [u8; 20] },
    UserFills { user: [u8; 20] },
    Candle { coin: String, interval: String },
    OrderUpdates { user: [u8; 20] },
    UserFundings { user: [u8; 20] },
    UserNonFundingLedgerUpdates { user: [u8; 20] },
    Notification { user: [u8; 20] },
}

/// How one character is written inside a JSON string literal: quote and
/// backslash are escaped, control characters use their short escape where
/// JSON has one and `\u00XX` (lower-case hex) otherwise; the rest is kept.
pub open spec fn json_escape(c: char) -> Seq<char> {
    if c == '"' {
        seq!['\\', '"']
    } else if c == '\\' {
        seq!['\\', '\\']
    } else if c == '\u{8}' {
        seq!['\\', 'b']
    } else if c == '\t' {
        seq!['\\', 't']
    } else if c == '\n' {
        seq!['\\', 'n']
    } else if c == '\u{c}' {
        seq!['\\', 'f']
    } else if c == '\r' {
        seq!['\\', 'r']
    } else if (c as u32) < 0x20 {
        seq![
            '\\',
            'u',
            '0',
            '0',
            hex_digit((c as u32 / 16) as u8),
            hex_digit((c as u32 % 16) as u8),
        ]
    } else {
        seq![c]
    }
}

/// The characters of `s`, each written as `json_escape` gives it.
pub open spec fn json_escaped(s: Seq<char>) -> Seq<char>
    decreases s.len(),
{
    if s.len() == 0 {
        Seq::empty()
    } else {
        json_escaped(s.drop_last()) + json_escape(s.last())
    }
}

/// The JSON string literal that encodes `s`: its escaped characters between
/// double quotes.
pub open spec fn json_string_of(s: Seq<char>) -> Seq<char> {
    seq!['"'] + json_escaped(s) + seq!['"']
}

/// The quoted, escaped form in which `{:?}` writes the text `s`.
pub uninterp spec fn debug_str_of(s: Seq<char>) -> Seq<char>;

/// Relies on serde_json::to_string applied to a string (`format_escaped_str`
/// and its `ESCAPE` table): it yields the JSON string literal of that text,
/// and cannot fail, since it writes into a `Vec`
/// and string escaping has no error path.
#[verifier::external_body]
fn json_string(s: &String) -> (r: Result<String, String>)
    ensures
        r is Ok,
        r->Ok_0@ == json_string_of(s@),
{
    serde_json::to_string(s).map_err(|e| e.to_string())
}

/// Relies on the `Debug` formatting of a string: the text quoted and escaped.
#[verifier::external_body]
pub(crate) fn debug_string(s: &String) -> (r: String)
    ensures
        r@ == debug_str_of(s@),
{
    format!("{s:?}")
}

/// Relies on the serde `Serialize` impl of ethers' `H160` (impl-serde's
/// fixed-hash encoding), written out by serde_json::to_string: a JSON string
/// holding `0x` and two lower-case hex digits per byte, high nibble first.
/// It cannot fail: the impl only writes a string into a `Vec`.
#[verifier::external_body]
fn address_json(user: &[u8; 20]) -> (r: Result<String, String>)
    ensures
        r is Ok,
        r->Ok_0@ == address_json_text(user@),
{
    serde_json::to_string(&ethers::types::H160(*user)).map_err(|e| e.to_string())
}

/// The lower-case hex digit of `n`, for `n < 16`.
pub open spec fn hex_digit(n: u8) -> char {
    "0123456789abcdef"@[n as int]
}

/// `0x` followed by two lower-case hex digits per byte, high nibble first.
pub open spec fn address_text(b: Seq<u8>) -> Seq<char> {
    "0x"@ + Seq::new(
        2 * b.len(),
        |i: int|
            if i % 2 == 0 {
                hex_digit(b[i / 2] / 16)
            } else {
                hex_digit(b[i / 2] % 16)
            },
    )
}

/// An address as a JSON string: its text in double quotes.
pub open spec fn address_json_text(b: Seq<u8>) -> Seq<char> {
    "\""@ + address_text(b) + "\""@
}

/// `,"user":"0x…"`, the member that carries an account address.
pub open spec fn user_member(user: Seq<u8>) -> Seq<char> {
    ",\"user\":"@ + address_json_text(user)
}

/// `{"type":"<kind>"`, the opening of every descriptor object.
pub open spec fn type_member(kind: Seq<char>) -> Seq<char> {
    "{\"type\":\""@ + kind + "\""@
}

/// `,"<name>":<json of value>`, one further member of a descriptor object.
pub open spec fn string_member(name: Seq<char>, value: Seq<char>) -> Seq<char> {
    ",\""@ + name + "\":"@ + json_string_of(value)
}

/// The canonical JSON form of a descriptor: an object tagged by `type`, with
/// the variant's fields after the tag in declaration order.
pub open spec fn descriptor_json(d: Subscription) -> Seq<char> {
    match d {
        Subscription::AllMids => type_member("allMids"@) + "}"@,
        Subscription::Trades { coin } => type_member("trades"@) + string_member("coin"@, coin@)
            + "}"@,
        Subscription::L2Book { coin } => type_member("l2Book"@) + string_member("coin"@, coin@)
            + "}"@,
        Subscription::UserEvents { user } => type_member("userEvents"@) + user_member(user@) + "}"@,
        Subscription::UserFills { user } => type_member("userFills"@) + user_member(user@) + "}"@,
        Subscription::Candle { coin, interval } => type_member("candle"@) + string_member(
            "coin"@,
            coin@,
        ) + string_member("interval"@, interval@) + "}"@,
        Subscription::OrderUpdates { user } => type_member("orderUpdates"@)
            + user_member(user@) + "}"@,
        Subscription::UserFundings { user } => type_member("userFundings"@)
            + user_member(user@) + "}"@,
        Subscription::UserNonFundingLedgerUpdates { user } => type_member(
            "userNonFundingLedgerUpdates"@,
        ) + user_member(user@) + "}"@,
        Subscription::Notification { user } => type_member("notification"@)
            + user_member(user@) + "}"@,
    }
}

/// The topic a descriptor is registered under: its canonical JSON, except that
/// account events and order updates share one topic whatever the user.
pub open spec fn topic_of(d: Subscription) -> Seq<char> {
    match d {
        Subscription::UserEvents { .. } => "userEvents"@,
        Subscription::OrderUpdates { .. } => "orderUpdates"@,
        _ => descriptor_json(d),
    }
}

/// Every descriptor's JSON is an object, so it opens with `{`.
pub proof fn lemma_descriptor_opens(d: Subscription)
    ensures
        descriptor_json(d).len() > 0,
        descriptor_json(d)[0] == '{',
{
    reveal_strlit("{\"type\":\"");
}

/// Only an account event descriptor is registered under `userEvents`.
pub proof fn lemma_account_topic(d: Subscription)
    ensures
        topic_of(d) == "userEvents"@ <==> d is UserEvents,
{
    lemma_descriptor_opens(d);
    reveal_strlit("userEvents");
    reveal_strlit("orderUpdates");
    if !(d is UserEvents) && !(d is OrderUpdates) {
        assert(topic_of(d)[0] != "userEvents"@[0]);
    }
    if d is OrderUpdates {
        assert(topic_of(d)[0] != "userEvents"@[0]);
    }
}

/// `{"method":"<method>","subscription":<descriptor>}`.
pub open spec fn control_frame(method: Seq<char>, d: Subscription) -> Seq<char> {
    "{\"method\":\""@ + method + "\",\"subscription\":"@ + descriptor_json(d) + "}"@
}

fn push_type_member(s: &mut String, kind: &str)
    ensures
        final(s)@ == old(s)@ + type_member(kind@),
{
    s.append("{\"type\":\"");
    s.append(kind);
    s.append("\"");
    assert(final(s)@ =~= old(s)@ + type_member(kind@));
}

fn push_string_member(s: &mut String, name: &str, value: &String)
    ensures
        final(s)@ == old(s)@ + string_member(name@, value@),
{
    let encoded = json_string(value).unwrap();
    s.append(",\"");
    s.append(name);
    s.append("\":");
    s.append(encoded.as_str());
    assert(final(s)@ =~= old(s)@ + string_member(name@, value@));
}

fn push_user_descriptor(s: &mut String, kind: &str, user: &[u8; 20])
    ensures
        final(s)@ == old(s)@ + type_member(kind@) + user_member(user@) + "}"@,
{
    push_type_member(s, kind);
    let encoded = address_json(user).unwrap();
    s.append(",\"user\":");
    s.append(encoded.as_str());
    s.append("}");
    assert(final(s)@ =~= old(s)@ + type_member(kind@) + user_member(user@) + "}"@);
}

fn push_coin_descriptor(s: &mut String, kind: &str, coin: &String)
    ensures
        final(s)@ == old(s)@ + type_member(kind@) + string_member("coin"@, coin@) + "}"@,
{
    push_type_member(s, kind);
    push_string_member(s, "coin", coin);
    s.append("}");
    assert(final(s)@ =~= old(s)@ + type_member(kind@) + string_member("coin"@, coin@) + "}"@);
}

/// Appends the canonical JSON of `d` to `s`.
fn push_descriptor(s: &mut String, d: &Subscription)
    ensures
        final(s)@ == old(s)@ + descriptor_json(*d),
{
    match d {
        Subscription::AllMids => {
            push_type_member(s, "allMids");
            s.append("}");
        },
        Subscription::Trades { coin } => push_coin_descriptor(s, "trades", coin),
        Subscription::L2Book { coin } => push_coin_descriptor(s, "l2Book", coin),
        Subscription::UserEvents { user } => push_user_descriptor(s, "userEvents", user),
        Subscription::UserFills { user } => push_user_descriptor(s, "userFills", user),
        Subscription::Candle { coin, interval } => {
            push_type_member(s, "candle");
            push_string_member(s, "coin", coin);
            push_string_member(s, "interval", interval);
            s.append("}");
        },
        Subscription::OrderUpdates { user } => push_user_descriptor(s, "orderUpdates", user),
        Subscription::UserFundings { user } => push_user_descriptor(s, "userFundings", user),
        Subscription::UserNonFundingLedgerUpdates { user } => push_user_descriptor(
            s,
            "userNonFundingLedgerUpdates",
            user,
        ),
        Subscription::Notification { user } => push_user_descriptor(s, "notification", user),
    }
    assert(final(s)@ =~= old(s)@ + descriptor_json(*d));
}

/// The topic under which `d` is registered.
pub fn topic(d: &Subscription) -> (r: String)
    ensures
        r@ == topic_of(*d),
{
    match d {
        Subscription::UserEvents { .. } => String::from_str("userEvents"),
        Subscription::OrderUpdates { .. } => String::from_str("orderUpdates"),
        _ => {
            let mut s = String::new();
            push_descriptor(&mut s, d);
            assert(s@ =~= descriptor_json(*d));
            s
        },
    }
}

/// Builds `{"method":"<method>","subscription":<descriptor>}`.
fn control(method: &str, d: &Subscription) -> (r: String)
    ensures
        r@ == control_frame(method@, *d),
{
    let mut s = String::from_str("{\"method\":\"");
    s.append(method);
    s.append("\",\"subscription\":");
    push_descriptor(&mut s, d);
    s.append("}");
    assert(s@ =~= control_frame(method@, *d));
    s
}

/// The upstream frame that subscribes the connection to `d`.
pub fn subscribe_frame(d: &Subscription) -> (r: String)
    ensures
        r@ == control_frame("subscribe"@, *d),
{
    control("subscribe", d)
}

/// The upstream frame that ends the connection's subscription to `d`.
pub fn unsubscribe_frame(d: &Subscription) -> (r: String)
    ensures
        r@ == control_frame("unsubscribe"@, *d),
{
    control("unsubscribe", d)
}

/// The keepalive frame, `{"method":"ping"}`.
pub fn ping_frame() -> (r: String)
    ensures
        r@ == "{\"method\":\"ping\"}"@,
{
    String::from_str("{\"method\":\"ping\"}")
}

} // verus!
