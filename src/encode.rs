//! Writing requests out: the JSON text of a chat completion request, and the
//! decimal text of the numbers it carries.
use vstd::prelude::*;
use crate::message::{ChatCompletionMessage, ChatCompletionRequest, ChatCompletionRoles};

verus! {

/// A lowercase hexadecimal digit.
pub open spec fn hex_digit(d: nat) -> char {
    if d < 10 {
        digit_char(d)
    } else if d == 10 {
        'a'
    } else if d == 11 {
        'b'
    } else if d == 12 {
        'c'
    } else if d == 13 {
        'd'
    } else if d == 14 {
        'e'
    } else {
        'f'
    }
}

/// How one character is written inside a JSON string: quote and backslash
/// behind a backslash, the usual short escapes for backspace, tab, line
/// feed, form feed and carriage return, `\u00` and two lowercase hex digits
/// for the other characters below U+0020, and every other character as it
/// is.
pub open spec fn escaped_char(c: char) -> Seq<char> {
    if c == '"' {
        seq!['\\', '"']
    } else if c == '\\' {
        seq!['\\', '\\']
    } else if c == '\u{8}' {
        seq!['\\', 'b']
    } else if c == '\t' {
        seq!['\\', 't']
    } else if c == '\n' {
        seq!['\\', 'n']
    } else if c == '\u{c}' {
        seq!['\\', 'f']
    } else if c == '\r' {
        seq!['\\', 'r']
    } else if (c as u32) < 0x20 {
        seq![
            '\\',
            'u',
            '0',
            '0',
            hex_digit(((c as u32) / 16) as nat),
            hex_digit(((c as u32) % 16) as nat),
        ]
    } else {
        seq![c]
    }
}

/// The characters of `s`, each written as `escaped_char` says.
pub open spec fn escaped(s: Seq<char>) -> Seq<char>
    decreases s.len(),
{
    if s.len() == 0 {
        Seq::empty()
    } else {
        escaped(s.drop_last()) + escaped_char(s.last())
    }
}

/// The JSON string literal that writes `s`: a quote, the escaped
/// characters, a quote.
pub open spec fn json_quoted(s: Seq<char>) -> Seq<char> {
    seq!['"'] + escaped(s) + seq!['"']
}

/// Relies on `serde_json::to_string` applied to a `str`: it writes the
/// string literal as `json_quoted` states (serde_json's escape table).
/// Writing a `str` into memory cannot fail.
#[verifier::external_body]
fn quote_json(s: &str) -> (r: String)
    ensures
        r@ == json_quoted(s@),
{
    serde_json::to_string(s).unwrap_or_default()
}

/// The character of a decimal digit.
pub open spec fn digit_char(d: nat) -> char {
    if d == 0 {
        '0'
    } else if d == 1 {
        '1'
    } else if d == 2 {
        '2'
    } else if d == 3 {
        '3'
    } else if d == 4 {
        '4'
    } else if d == 5 {
        '5'
    } else if d == 6 {
        '6'
    } else if d == 7 {
        '7'
    } else if d == 8 {
        '8'
    } else {
        '9'
    }
}

/// The decimal text of `n`, without leading zeros.
pub open spec fn decimal(n: nat) -> Seq<char>
    decreases n,
{
    if n < 10 {
        seq![digit_char(n)]
    } else {
        decimal(n / 10) + seq![digit_char(n % 10)]
    }
}

/// The digits after the point of `f` thousandths (`f < 1000`), trailing
/// zeros dropped; `f == 0` writes nothing.
pub open spec fn fraction(f: nat) -> Seq<char> {
    if f == 0 {
        Seq::empty()
    } else if f % 100 == 0 {
        seq![digit_char(f / 100)]
    } else if f % 10 == 0 {
        seq![digit_char(f / 100), digit_char((f / 10) % 10)]
    } else {
        seq![digit_char(f / 100), digit_char((f / 10) % 10), digit_char(f % 10)]
    }
}

/// A value counted in thousandths written as a JSON number: always with a
/// point and at least one digit after it (`1.0`, `0.7`, `1.25`).
pub open spec fn milli_json(v: nat) -> Seq<char> {
    if v % 1000 == 0 {
        decimal(v / 1000) + ".0"@
    } else {
        decimal(v / 1000) + "."@ + fraction(v % 1000)
    }
}

/// A value counted in thousandths written as plain text: whole values
/// without a point (`1`, `0.7`, `1.25`).
pub open spec fn milli_text(v: nat) -> Seq<char> {
    if v % 1000 == 0 {
        decimal(v / 1000)
    } else {
        decimal(v / 1000) + "."@ + fraction(v % 1000)
    }
}

fn digit_str(d: u64) -> (r: &'static str)
    requires
        d < 10,
    ensures
        r@ == seq![digit_char(d as nat)],
{
    proof {
        reveal_strlit("0");
        reveal_strlit("1");
        reveal_strlit("2");
        reveal_strlit("3");
        reveal_strlit("4");
        reveal_strlit("5");
        reveal_strlit("6");
        reveal_strlit("7");
        reveal_strlit("8");
        reveal_strlit("9");
    }
    if d == 0 {
        "0"
    } else if d == 1 {
        "1"
    } else if d == 2 {
        "2"
    } else if d == 3 {
        "3"
    } else if d == 4 {
        "4"
    } else if d == 5 {
        "5"
    } else if d == 6 {
        "6"
    } else if d == 7 {
        "7"
    } else if d == 8 {
        "8"
    } else {
        "9"
    }
}

/// The decimal text of `n`.
pub fn decimal_text(n: u64) -> (r: String)
    ensures
        r@ == decimal(n as nat),
    decreases n,
{
    if n < 10 {
        String::from_str(digit_str(n))
    } else {
        let head = decimal_text(n / 10);
        head.concat(digit_str(n % 10))
    }
}

fn fraction_text(f: u32) -> (r: String)
    requires
        0 < f < 1000,
    ensures
        r@ == fraction(f as nat),
{
    let f = f as u64;
    let mut s = String::from_str(digit_str(f / 100));
    if f % 100 != 0 {
        s.append(digit_str((f / 10) % 10));
        if f % 10 != 0 {
            s.append(digit_str(f % 10));
        }
    }
    s
}

/// `v` thousandths as a JSON number.
pub fn milli_json_text(v: u32) -> (r: String)
    ensures
        r@ == milli_json(v as nat),
{
    let whole = decimal_text((v / 1000) as u64);
    if v % 1000 == 0 {
        whole.concat(".0")
    } else {
        whole.concat(".").concat(fraction_text(v % 1000).as_str())
    }
}

/// `v` thousandths as plain text.
pub fn milli_plain_text(v: u32) -> (r: String)
    ensures
        r@ == milli_text(v as nat),
{
    let whole = decimal_text((v / 1000) as u64);
    if v % 1000 == 0 {
        whole
    } else {
        whole.concat(".").concat(fraction_text(v % 1000).as_str())
    }
}


/// Texts joined with commas between them.
pub open spec fn join(items: Seq<Seq<char>>) -> Seq<char>
    decreases items.len(),
{
    if items.len() == 0 {
        Seq::empty()
    } else if items.len() == 1 {
        items[0]
    } else {
        join(items.drop_last()) + ","@ + items.last()
    }
}

/// One member of a JSON object: the quoted key, a colon, the value's text.
pub open spec fn member_text(key: Seq<char>, value: Seq<char>) -> Seq<char> {
    json_quoted(key) + ":"@ + value
}

/// A JSON object with these keys and value texts, in this order.
pub open spec fn object_text(members: Seq<(Seq<char>, Seq<char>)>) -> Seq<char> {
    "{"@ + join(members.map_values(|m: (Seq<char>, Seq<char>)| member_text(m.0, m.1))) + "}"@
}

/// A JSON array of these element texts.
pub open spec fn array_text(items: Seq<Seq<char>>) -> Seq<char> {
    "["@ + join(items) + "]"@
}

/// The lowercase name under which a role travels.
pub open spec fn role_name(r: ChatCompletionRoles) -> Seq<char> {
    match r {
        ChatCompletionRoles::System => "system"@,
        ChatCompletionRoles::User => "user"@,
        ChatCompletionRoles::Assistant => "assistant"@,
    }
}

/// The members of a message's JSON object: role and content, then the name
/// when there is one.
pub open spec fn message_members(m: ChatCompletionMessage) -> Seq<(Seq<char>, Seq<char>)> {
    seq![("role"@, json_quoted(role_name(m.role))), ("content"@, json_quoted(m.content@))]
        + match m.name {
        Some(n) => seq![("name"@, json_quoted(n@))],
        None => Seq::empty(),
    }
}

/// The JSON text of a message.
pub open spec fn message_json(m: ChatCompletionMessage) -> Seq<char> {
    object_text(message_members(m))
}

/// The JSON text of a list of messages.
pub open spec fn messages_json(ms: Seq<ChatCompletionMessage>) -> Seq<char> {
    array_text(ms.map_values(|m: ChatCompletionMessage| message_json(m)))
}

/// The JSON text of a list of strings.
pub open spec fn strings_json(ss: Seq<String>) -> Seq<char> {
    array_text(ss.map_values(|s: String| json_quoted(s@)))
}

pub open spec fn bool_json(b: bool) -> Seq<char> {
    if b {
        "true"@
    } else {
        "false"@
    }
}

/// The members of a request's JSON object. Unset parameters take their
/// defaults (temperature 1.0, 1024 tokens, top-p 1.0, no streaming); stop
/// sequences and seed appear only when set.
pub open spec fn request_members(r: ChatCompletionRequest) -> Seq<(Seq<char>, Seq<char>)> {
    seq![
        ("model"@, json_quoted(r.model@)),
        ("messages"@, messages_json(r.messages@)),
        ("temperature"@, milli_json(match r.temperature { Some(t) => t as nat, None => 1000 })),
        ("max_tokens"@, decimal(match r.max_tokens { Some(t) => t as nat, None => 1024 })),
        ("top_p"@, milli_json(match r.top_p { Some(t) => t as nat, None => 1000 })),
        ("stream"@, bool_json(match r.stream { Some(b) => b, None => false })),
    ] + match r.stop {
        Some(stop) => seq![("stop"@, strings_json(stop@))],
        None => Seq::empty(),
    } + match r.seed {
        Some(seed) => seq![("seed"@, decimal(seed as nat))],
        None => Seq::empty(),
    }
}

/// The JSON text of a request.
pub open spec fn request_json(r: ChatCompletionRequest) -> Seq<char> {
    object_text(request_members(r))
}

pub open spec fn views(items: Seq<String>) -> Seq<Seq<char>> {
    items.map_values(|s: String| s@)
}

/// Joins texts with commas and puts `open` and `close` around them.
fn enclose(open: &str, items: &Vec<String>, close: &str) -> (r: String)
    ensures
        r@ == open@ + join(views(items@)) + close@,
{
    let mut out = String::from_str(open);
    let mut i: usize = 0;
    while i < items.len()
        invariant
            i <= items@.len(),
            out@ == open@ + join(views(items@.take(i as int))),
        decreases items@.len() - i,
    {
        proof {
            assert(views(items@.take(i + 1)).drop_last() =~= views(items@.take(i as int)));
            assert(views(items@.take(i + 1)).last() == items@[i as int]@);
        }
        if i > 0 {
            out.append(",");
        }
        out.append(items[i].as_str());
        i += 1;
    }
    proof {
        assert(items@.take(i as int) =~= items@);
    }
    out.concat(close)
}

/// One object member: the quoted key, a colon, the value's text.
fn member(key: &str, value: String) -> (r: String)
    ensures
        r@ == member_text(key@, value@),
{
    quote_json(key).concat(":").concat(value.as_str())
}

/// The JSON text of a message.
pub fn message_to_json(m: &ChatCompletionMessage) -> (r: String)
    ensures
        r@ == message_json(*m),
{
    let role = match m.role {
        ChatCompletionRoles::System => "system",
        ChatCompletionRoles::User => "user",
        ChatCompletionRoles::Assistant => "assistant",
    };
    let mut items: Vec<String> = Vec::new();
    items.push(member("role", quote_json(role)));
    items.push(member("content", quote_json(m.content.as_str())));
    match &m.name {
        Some(n) => items.push(member("name", quote_json(n.as_str()))),
        None => {},
    }
    let r = enclose("{", &items, "}");
    proof {
        let ms = message_members(*m);
        assert(views(items@) =~= ms.map_values(
            |x: (Seq<char>, Seq<char>)| member_text(x.0, x.1),
        ));
    }
    r
}

fn messages_to_json(ms: &Vec<ChatCompletionMessage>) -> (r: String)
    ensures
        r@ == messages_json(ms@),
{
    let mut items: Vec<String> = Vec::new();
    let mut i: usize = 0;
    while i < ms.len()
        invariant
            i <= ms@.len(),
            views(items@) =~= ms@.take(i as int).map_values(
                |m: ChatCompletionMessage| message_json(m),
            ),
        decreases ms@.len() - i,
    {
        let ghost before = items@;
        items.push(message_to_json(&ms[i]));
        proof {
            assert(views(items@) =~= views(before).push(message_json(ms@[i as int])));
            assert(ms@.take(i + 1).map_values(|m: ChatCompletionMessage| message_json(m))
                =~= ms@.take(i as int).map_values(|m: ChatCompletionMessage| message_json(m)).push(
                message_json(ms@[i as int]),
            ));
        }
        i += 1;
    }
    proof {
        assert(ms@.take(i as int) =~= ms@);
    }
    enclose("[", &items, "]")
}

fn strings_to_json(ss: &Vec<String>) -> (r: String)
    ensures
        r@ == strings_json(ss@),
{
    let mut items: Vec<String> = Vec::new();
    let mut i: usize = 0;
    while i < ss.len()
        invariant
            i <= ss@.len(),
            views(items@) =~= ss@.take(i as int).map_values(|s: String| json_quoted(s@)),
        decreases ss@.len() - i,
    {
        let ghost before = items@;
        items.push(quote_json(ss[i].as_str()));
        proof {
            assert(views(items@) =~= views(before).push(json_quoted(ss@[i as int]@)));
            assert(ss@.take(i + 1).map_values(|s: String| json_quoted(s@)) =~= ss@.take(
                i as int,
            ).map_values(|s: String| json_quoted(s@)).push(json_quoted(ss@[i as int]@)));
        }
        i += 1;
    }
    proof {
        assert(ss@.take(i as int) =~= ss@);
    }
    enclose("[", &items, "]")
}

/// The JSON text of a chat completion request, as it is sent.
pub fn encode_request(req: &ChatCompletionRequest) -> (r: String)
    ensures
        r@ == request_json(*req),
{
    let temperature = match req.temperature {
        Some(t) => t,
        None => 1000,
    };
    let max_tokens = match req.max_tokens {
        Some(t) => t,
        None => 1024,
    };
    let top_p = match req.top_p {
        Some(t) => t,
        None => 1000,
    };
    let stream = match req.stream {
        Some(b) => b,
        None => false,
    };
    let mut items: Vec<String> = Vec::new();
    items.push(member("model", quote_json(req.model.as_str())));
    items.push(member("messages", messages_to_json(&req.messages)));
    items.push(member("temperature", milli_json_text(temperature)));
    items.push(member("max_tokens", decimal_text(max_tokens as u64)));
    items.push(member("top_p", milli_json_text(top_p)));
    items.push(member("stream", String::from_str(if stream { "true" } else { "false" })));
    match &req.stop {
        Some(stop) => items.push(member("stop", strings_to_json(stop))),
        None => {},
    }
    match req.seed {
        Some(seed) => items.push(member("seed", decimal_text(seed))),
        None => {},
    }
    let r = enclose("{", &items, "}");
    proof {
        assert(views(items@) =~= request_members(*req).map_values(
            |x: (Seq<char>, Seq<char>)| member_text(x.0, x.1),
        ));
    }
    r
}


/// The JSON text of a request sent for a streamed answer: the request with
/// streaming switched on.
pub fn encode_stream_request(req: ChatCompletionRequest) -> (r: String)
    ensures
        r@ == request_json(ChatCompletionRequest { stream: Some(true), ..req }),
{
    let req = req.stream(true);
    encode_request(&req)
}

/// A request left at its defaults (each optional parameter either unset or
/// at the value the constructor gives it, and neither stop sequences nor a
/// seed) writes temperature 1.0, 1024 tokens, top-p 1.0 and no streaming,
/// and has no `stop` or `seed` member.
pub proof fn lemma_default_request_json(r: ChatCompletionRequest)
    requires
        r.temperature is None || r.temperature == Some(1000u32),
        r.max_tokens is None || r.max_tokens == Some(1024u32),
        r.top_p is None || r.top_p == Some(1000u32),
        r.stream is None || r.stream == Some(false),
        r.stop is None,
        r.seed is None,
    ensures
        request_members(r) == seq![
            ("model"@, json_quoted(r.model@)),
            ("messages"@, messages_json(r.messages@)),
            ("temperature"@, "1.0"@),
            ("max_tokens"@, "1024"@),
            ("top_p"@, "1.0"@),
            ("stream"@, "false"@),
        ],
{
    reveal_strlit("1.0");
    reveal_strlit(".0");
    reveal_strlit("1024");
    assert(decimal(1) == seq!['1']);
    assert(decimal(10) == seq!['1', '0']);
    assert(decimal(102) == seq!['1', '0', '2']);
    assert(decimal(1024) =~= "1024"@);
    assert(milli_json(1000) =~= "1.0"@);
    assert(request_members(r) =~= seq![
        ("model"@, json_quoted(r.model@)),
        ("messages"@, messages_json(r.messages@)),
        ("temperature"@, "1.0"@),
        ("max_tokens"@, "1024"@),
        ("top_p"@, "1.0"@),
        ("stream"@, "false"@),
    ]);
}

/// A message writes a `name` member exactly when it has a name, and then as
/// its last member; without a name its members are role and content alone.
pub proof fn lemma_message_name_member(m: ChatCompletionMessage)
    ensures
        (exists|i: int|
            0 <= i < message_members(m).len() && (#[trigger] message_members(m)[i]).0 == "name"@)
            <==> m.name is Some,
        m.name matches Some(n) ==> message_members(m) == seq![
            ("role"@, json_quoted(role_name(m.role))),
            ("content"@, json_quoted(m.content@)),
            ("name"@, json_quoted(n@)),
        ],
        m.name is None ==> message_members(m) == seq![
            ("role"@, json_quoted(role_name(m.role))),
            ("content"@, json_quoted(m.content@)),
        ],
{
    reveal_strlit("name");
    reveal_strlit("role");
    reveal_strlit("content");
    let ms = message_members(m);
    assert("role"@[0] != "name"@[0]);
    assert("content"@.len() != "name"@.len());
    match m.name {
        Some(n) => {
            assert(ms =~= seq![
                ("role"@, json_quoted(role_name(m.role))),
                ("content"@, json_quoted(m.content@)),
                ("name"@, json_quoted(n@)),
            ]);
            assert(ms[2].0 == "name"@);
        },
        None => {
            assert(ms =~= seq![
                ("role"@, json_quoted(role_name(m.role))),
                ("content"@, json_quoted(m.content@)),
            ]);
            assert(ms[0].0 != "name"@ && ms[1].0 != "name"@);
        },
    }
}

/// Two messages that hold the same text.
pub open spec fn same_message(a: ChatCompletionMessage, b: ChatCompletionMessage) -> bool {
    &&& a.role == b.role
    &&& a.content@ == b.content@
    &&& match (a.name, b.name) {
        (Some(x), Some(y)) => x@ == y@,
        (None, None) => true,
        _ => false,
    }
}

/// Two requests that hold the same text and parameters.
pub open spec fn same_request(a: ChatCompletionRequest, b: ChatCompletionRequest) -> bool {
    &&& a.model@ == b.model@
    &&& a.messages@.len() == b.messages@.len()
    &&& forall|i: int|
        0 <= i < a.messages@.len() ==> same_message(#[trigger] a.messages@[i], b.messages@[i])
    &&& a.temperature == b.temperature
    &&& a.max_tokens == b.max_tokens
    &&& a.top_p == b.top_p
    &&& a.stream == b.stream
    &&& match (a.stop, b.stop) {
        (Some(x), Some(y)) => views(x@) == views(y@),
        (None, None) => true,
        _ => false,
    }
    &&& a.seed == b.seed
}

/// Writing out a request depends on nothing but what it holds: the same
/// request, or a copy of it, written twice gives the same JSON text.
pub proof fn lemma_request_json_deterministic(a: ChatCompletionRequest, b: ChatCompletionRequest)
    requires
        same_request(a, b),
    ensures
        request_json(a) == request_json(b),
{
    assert forall|i: int| 0 <= i < a.messages@.len() implies message_json(
        #[trigger] a.messages@[i],
    ) == message_json(b.messages@[i]) by {
        assert(message_members(a.messages@[i]) =~= message_members(b.messages@[i]));
    }
    assert(a.messages@.map_values(|m: ChatCompletionMessage| message_json(m))
        =~= b.messages@.map_values(|m: ChatCompletionMessage| message_json(m)));
    match (a.stop, b.stop) {
        (Some(x), Some(y)) => {
            assert(views(x@).len() == x@.len() && views(y@).len() == y@.len());
            assert forall|i: int| 0 <= i < x@.len() implies json_quoted(#[trigger] x@[i]@)
                == json_quoted(y@[i]@) by {
                assert(views(x@)[i] == views(y@)[i]);
            }
            assert(x@.map_values(|s: String| json_quoted(s@)) =~= y@.map_values(
                |s: String| json_quoted(s@),
            ));
        },
        _ => {},
    }
    assert(request_members(a) =~= request_members(b));
}

} // verus!
