//! Requests to landing services: URLs, authentication headers and JSON-RPC bodies.

use vstd::prelude::*;

verus! {

/// A character as it appears inside a JSON string: quote and backslash escaped,
/// control characters written as `\b`, `\f`, `\n`, `\r`, `\t` or `\u00xx`.
pub open spec fn json_escape_char(c: char) -> Seq<char> {
    if c == '"' {
        seq!['\\', '"']
    } else if c == '\\' {
        seq!['\\', '\\']
    } else if c == '\u{8}' {
        seq!['\\', 'b']
    } else if c == '\u{c}' {
        seq!['\\', 'f']
    } else if c == '\n' {
        seq!['\\', 'n']
    } else if c == '\r' {
        seq!['\\', 'r']
    } else if c == '\t' {
        seq!['\\', 't']
    } else if (c as u32) < 0x20 {
        seq!['\\', 'u', '0', '0', hex_lower((c as u32) / 16), hex_lower((c as u32) % 16)]
    } else {
        seq![c]
    }
}

/// Lower-case hex digit of `n` (below 16).
pub open spec fn hex_lower(n: u32) -> char {
    if n < 10 {
        ('0' as u32 + n) as char
    } else {
        ('a' as u32 + n - 10) as char
    }
}

/// The characters of `s` escaped for a JSON string.
pub open spec fn json_escape(s: Seq<char>) -> Seq<char>
    decreases s.len(),
{
    if s.len() == 0 {
        Seq::empty()
    } else {
        json_escape(s.drop_last()) + json_escape_char(s.last())
    }
}

fn hex_lower_str(n: u32) -> (r: &'static str)
    requires
        n < 16,
    ensures
        r@ == seq![hex_lower(n)],
{
    proof {
        reveal_strlit("0");
        reveal_strlit("1");
        reveal_strlit("2");
        reveal_strlit("3");
        reveal_strlit("4");
        reveal_strlit("5");
        reveal_strlit("6");
        reveal_strlit("7");
        reveal_strlit("8");
        reveal_strlit("9");
        reveal_strlit("a");
        reveal_strlit("b");
        reveal_strlit("c");
        reveal_strlit("d");
        reveal_strlit("e");
        reveal_strlit("f");
    }
    let r = match n {
        0 => "0",
        1 => "1",
        2 => "2",
        3 => "3",
        4 => "4",
        5 => "5",
        6 => "6",
        7 => "7",
        8 => "8",
        9 => "9",
        10 => "a",
        11 => "b",
        12 => "c",
        13 => "d",
        14 => "e",
        _ => "f",
    };
    assert(r@ =~= seq![hex_lower(n)]);
    r
}

/// Appends one character, escaped for a JSON string.
fn push_escaped(out: &mut String, c: char, one: &str)
    requires
        one@ == seq![c],
    ensures
        final(out)@ == old(out)@ + json_escape_char(c),
{
    proof {
        reveal_strlit("\\\"");
        reveal_strlit("\\\\");
        reveal_strlit("\\b");
        reveal_strlit("\\f");
        reveal_strlit("\\n");
        reveal_strlit("\\r");
        reveal_strlit("\\t");
        reveal_strlit("\\u00");
    }
    if c == '"' {
        out.append("\\\"");
    } else if c == '\\' {
        out.append("\\\\");
    } else if c == '\u{8}' {
        out.append("\\b");
    } else if c == '\u{c}' {
        out.append("\\f");
    } else if c == '\n' {
        out.append("\\n");
    } else if c == '\r' {
        out.append("\\r");
    } else if c == '\t' {
        out.append("\\t");
    } else if (c as u32) < 0x20 {
        out.append("\\u00");
        out.append(hex_lower_str((c as u32) / 16));
        out.append(hex_lower_str((c as u32) % 16));
    } else {
        out.append(one);
    }
    assert(out@ =~= old(out)@ + json_escape_char(c));
}

/// Appends `s` as the contents of a JSON string.
fn push_json_string_contents(out: &mut String, s: &str)
    ensures
        final(out)@ == old(out)@ + json_escape(s@),
{
    let ghost start = out@;
    let n = s.unicode_len();
    let mut i: usize = 0;
    while i < n
        invariant
            n == s@.len(),
            i <= n,
            out@ == start + json_escape(s@.take(i as int)),
        decreases n - i,
    {
        let piece = s.substring_char(i, i + 1);
        let c = s.get_char(i);
        assert(piece@ =~= seq![c]);
        push_escaped(out, c, piece);
        proof {
            assert(s@.take(i + 1).drop_last() =~= s@.take(i as int));
            assert(json_escape(s@.take(i + 1)) == json_escape(s@.take(i as int)) + json_escape_char(c));
        }
        i = i + 1;
    }
    assert(s@.take(n as int) =~= s@);
}

/// The JSON-RPC `sendTransaction` body for one encoded transaction, as `serde_json`
/// writes it (keys sorted, no spaces).
pub open spec fn spec_send_transaction_body(content: Seq<char>) -> Seq<char> {
    "{\"id\":1,\"jsonrpc\":\"2.0\",\"method\":\"sendTransaction\",\"params\":[\""@ + json_escape(content)
        + "\",{\"encoding\":\"base64\"}]}"@
}

/// The JSON-RPC `sendTransaction` body for one base64-encoded transaction.
pub fn send_transaction_body(content: &str) -> (r: String)
    ensures
        r@ == spec_send_transaction_body(content@),
{
    let mut body = "{\"id\":1,\"jsonrpc\":\"2.0\",\"method\":\"sendTransaction\",\"params\":[\"".to_owned();
    push_json_string_contents(&mut body, content);
    body.append("\",{\"encoding\":\"base64\"}]}");
    body
}

/// A JSON array of JSON strings.
pub open spec fn json_string_array(items: Seq<String>) -> Seq<char>
    decreases items.len(),
{
    if items.len() == 0 {
        "[]"@
    } else {
        json_string_array_items(items) + "]"@
    }
}

/// `[` followed by the comma-separated quoted items (no closing bracket).
pub open spec fn json_string_array_items(items: Seq<String>) -> Seq<char>
    decreases items.len(),
{
    if items.len() == 0 {
        "["@
    } else if items.len() == 1 {
        "[\""@ + json_escape(items[0]@) + "\""@
    } else {
        json_string_array_items(items.drop_last()) + ",\""@ + json_escape(items.last()@) + "\""@
    }
}

/// The JSON-RPC `sendBundle` body for base64-encoded transactions, as `serde_json`
/// writes it (keys sorted, no spaces).
pub open spec fn spec_send_bundle_body(txs: Seq<String>) -> Seq<char> {
    "{\"id\":1,\"jsonrpc\":\"2.0\",\"method\":\"sendBundle\",\"params\":["@ + json_string_array(txs)
        + ",{\"encoding\":\"base64\"}]}"@
}

/// The JSON-RPC `sendBundle` body for base64-encoded transactions.
pub fn send_bundle_body(txs: &Vec<String>) -> (r: String)
    ensures
        r@ == spec_send_bundle_body(txs@),
{
    let mut body = "{\"id\":1,\"jsonrpc\":\"2.0\",\"method\":\"sendBundle\",\"params\":[".to_owned();
    if txs.len() == 0 {
        body.append("[]");
        proof {
            reveal_strlit("[]");
        }
    } else {
        let ghost start = body@;
        body.append("[\"");
        push_json_string_contents(&mut body, txs[0].as_str());
        body.append("\"");
        proof {
            reveal_strlit("[\"");
            reveal_strlit("\"");
            assert(txs@.take(1).len() == 1);
            assert(body@ =~= start + json_string_array_items(txs@.take(1)));
        }
        let mut i: usize = 1;
        while i < txs.len()
            invariant
                1 <= i <= txs@.len(),
                body@ == start + json_string_array_items(txs@.take(i as int)),
            decreases txs@.len() - i,
        {
            body.append(",\"");
            push_json_string_contents(&mut body, txs[i].as_str());
            body.append("\"");
            proof {
                reveal_strlit(",\"");
                reveal_strlit("\"");
                assert(txs@.take(i + 1).drop_last() =~= txs@.take(i as int));
                assert(body@ =~= start + json_string_array_items(txs@.take(i + 1)));
            }
            i = i + 1;
        }
        body.append("]");
        proof {
            reveal_strlit("]");
            assert(txs@.take(txs@.len() as int) =~= txs@);
        }
    }
    body.append(",{\"encoding\":\"base64\"}]}");
    body
}

/// Jito URL for `path`: the endpoint, the path, and `?uuid=<token>` when a token is set.
pub open spec fn spec_jito_url(endpoint: Seq<char>, path: Seq<char>, auth_token: Seq<char>) -> Seq<char> {
    if auth_token.len() == 0 {
        endpoint + path
    } else {
        endpoint + path + "?uuid="@ + auth_token
    }
}

fn jito_url(endpoint: &str, path: &str, auth_token: &str) -> (r: String)
    ensures
        r@ == spec_jito_url(endpoint@, path@, auth_token@),
{
    let mut url = endpoint.to_owned();
    url.append(path);
    if !auth_token.is_empty() {
        url.append("?uuid=");
        url.append(auth_token);
    }
    url
}

/// Jito URL for single transactions.
pub fn jito_transactions_url(endpoint: &str, auth_token: &str) -> (r: String)
    ensures
        r@ == spec_jito_url(endpoint@, "/api/v1/transactions"@, auth_token@),
{
    jito_url(endpoint, "/api/v1/transactions", auth_token)
}

/// Jito URL for bundles.
pub fn jito_bundles_url(endpoint: &str, auth_token: &str) -> (r: String)
    ensures
        r@ == spec_jito_url(endpoint@, "/api/v1/bundles"@, auth_token@),
{
    jito_url(endpoint, "/api/v1/bundles", auth_token)
}

/// The `x-jito-auth` header value: the token, when one is set.
pub fn jito_auth_header(auth_token: &str) -> (r: Option<String>)
    ensures
        auth_token@.len() == 0 ==> r is None,
        auth_token@.len() != 0 ==> (r matches Some(h) && h@ == auth_token@),
{
    if auth_token.is_empty() {
        None
    } else {
        Some(auth_token.to_owned())
    }
}

/// Stellium URL: the endpoint, a slash and the API key (for sends and keep-alive pings).
pub fn stellium_url(endpoint: &str, auth_token: &str) -> (r: String)
    ensures
        r@ == endpoint@ + "/"@ + auth_token@,
{
    let mut url = endpoint.to_owned();
    url.append("/");
    url.append(auth_token);
    url
}

/// The 0slot `sendTransaction` body, as `serde_json` writes it (keys sorted, no spaces):
/// base64 encoding and no preflight.
pub open spec fn spec_zeroslot_body(content: Seq<char>) -> Seq<char> {
    "{\"id\":1,\"jsonrpc\":\"2.0\",\"method\":\"sendTransaction\",\"params\":[\""@ + json_escape(content)
        + "\",{\"encoding\":\"base64\",\"skipPreflight\":true}]}"@
}

/// The 0slot `sendTransaction` body for one base64-encoded transaction.
pub fn zeroslot_body(content: &str) -> (r: String)
    ensures
        r@ == spec_zeroslot_body(content@),
{
    let mut body = "{\"id\":1,\"jsonrpc\":\"2.0\",\"method\":\"sendTransaction\",\"params\":[\"".to_owned();
    push_json_string_contents(&mut body, content);
    body.append("\",{\"encoding\":\"base64\",\"skipPreflight\":true}]}");
    body
}

/// 0slot URL: the endpoint, then `/?api-key=` and the key.
pub fn zeroslot_url(endpoint: &str, auth_token: &str) -> (r: String)
    ensures
        r@ == endpoint@ + "/?api-key="@ + auth_token@,
{
    let mut url = endpoint.to_owned();
    url.append("/?api-key=");
    url.append(auth_token);
    url
}

/// The FlashBlock body for one encoded transaction, as `serde_json` writes it.
pub open spec fn spec_flashblock_body(content: Seq<char>) -> Seq<char> {
    "{\"transactions\":[\""@ + json_escape(content) + "\"]}"@
}

/// The FlashBlock body for one base64-encoded transaction.
pub fn flashblock_body(content: &str) -> (r: String)
    ensures
        r@ == spec_flashblock_body(content@),
{
    let mut body = "{\"transactions\":[\"".to_owned();
    push_json_string_contents(&mut body, content);
    body.append("\"]}");
    body
}

/// The submit-batch URL of FlashBlock and bloXroute: the endpoint, then
/// `/api/v2/submit-batch`.
pub fn submit_batch_url(endpoint: &str) -> (r: String)
    ensures
        r@ == endpoint@ + "/api/v2/submit-batch"@,
{
    let mut url = endpoint.to_owned();
    url.append("/api/v2/submit-batch");
    url
}

/// bloXroute submit URL: the endpoint, then `/api/v2/submit`.
pub fn bloxroute_submit_url(endpoint: &str) -> (r: String)
    ensures
        r@ == endpoint@ + "/api/v2/submit"@,
{
    let mut url = endpoint.to_owned();
    url.append("/api/v2/submit");
    url
}

/// One bloXroute entry: the content inserted as it is (base64 needs no escaping).
pub open spec fn bloxroute_entry(content: Seq<char>) -> Seq<char> {
    "{\"transaction\":{\"content\":\""@ + content + "\"}}"@
}

/// The bloXroute submit body for one base64-encoded transaction, without front-running
/// protection and through staked RPCs.
pub open spec fn spec_bloxroute_body(content: Seq<char>) -> Seq<char> {
    "{\"transaction\":{\"content\":\""@ + content + "\"},\"frontRunningProtection\":false,\"useStakedRPCs\":true}"@
}

/// The bloXroute submit body for one base64-encoded transaction.
pub fn bloxroute_body(content: &str) -> (r: String)
    ensures
        r@ == spec_bloxroute_body(content@),
{
    let mut body = "{\"transaction\":{\"content\":\"".to_owned();
    body.append(content);
    body.append("\"},\"frontRunningProtection\":false,\"useStakedRPCs\":true}");
    body
}

/// Comma-separated bloXroute entries.
pub open spec fn bloxroute_entries(contents: Seq<String>) -> Seq<char>
    decreases contents.len(),
{
    if contents.len() == 0 {
        Seq::empty()
    } else if contents.len() == 1 {
        bloxroute_entry(contents[0]@)
    } else {
        bloxroute_entries(contents.drop_last()) + ","@ + bloxroute_entry(contents.last()@)
    }
}

/// The bloXroute submit-batch body: the entries in an `entries` array.
pub open spec fn spec_bloxroute_batch_body(contents: Seq<String>) -> Seq<char> {
    "{\"entries\":["@ + bloxroute_entries(contents) + "]}"@
}

/// The bloXroute submit-batch body for base64-encoded transactions.
pub fn bloxroute_batch_body(contents: &Vec<String>) -> (r: String)
    ensures
        r@ == spec_bloxroute_batch_body(contents@),
{
    let mut body = "{\"entries\":[".to_owned();
    let ghost start = body@;
    let mut i: usize = 0;
    proof {
        assert(contents@.take(0) =~= Seq::<String>::empty());
        assert(body@ =~= start + bloxroute_entries(contents@.take(0)));
    }
    while i < contents.len()
        invariant
            i <= contents@.len(),
            body@ == start + bloxroute_entries(contents@.take(i as int)),
        decreases contents@.len() - i,
    {
        if i > 0 {
            body.append(",");
        }
        body.append("{\"transaction\":{\"content\":\"");
        body.append(contents[i].as_str());
        body.append("\"}}");
        proof {
            reveal_strlit(",");
            assert(contents@.take(i + 1).drop_last() =~= contents@.take(i as int));
            if i == 0 {
                assert(contents@.take(1).len() == 1);
            }
            assert(body@ =~= start + bloxroute_entries(contents@.take(i + 1)));
        }
        i = i + 1;
    }
    body.append("]}");
    proof {
        assert(contents@.take(contents@.len() as int) =~= contents@);
    }
    body
}

/// `s` with every occurrence of the non-empty `from` replaced by `to`, scanning from
/// the left without overlaps (as `str::replace` does).
pub open spec fn replace_all(s: Seq<char>, from: Seq<char>, to: Seq<char>) -> Seq<char>
    decreases s.len(),
{
    if from.len() == 0 || s.len() == 0 {
        s
    } else if from.len() <= s.len() && s.subrange(0, from.len() as int) == from {
        to + replace_all(s.subrange(from.len() as int, s.len() as int), from, to)
    } else {
        seq![s[0]] + replace_all(s.subrange(1, s.len() as int), from, to)
    }
}

/// Whether `from` occurs in `s` at `pos`.
fn occurs_at(s: &str, pos: usize, from: &str) -> (r: bool)
    requires
        pos <= s@.len(),
    ensures
        r == (pos + from@.len() <= s@.len() && s@.subrange(pos as int, pos + from@.len()) == from@),
{
    let n = s.unicode_len();
    let m = from.unicode_len();
    if m > n - pos {
        return false;
    }
    let mut j: usize = 0;
    while j < m
        invariant
            pos + m <= n,
            n == s@.len(),
            m == from@.len(),
            j <= m,
            forall|k: int| 0 <= k < j ==> s@[pos + k] == from@[k],
        decreases m - j,
    {
        if s.get_char(pos + j) != from.get_char(j) {
            assert(s@.subrange(pos as int, pos + m)[j as int] != from@[j as int]);
            return false;
        }
        j = j + 1;
    }
    assert(s@.subrange(pos as int, pos + m) =~= from@);
    true
}

proof fn lemma_replace_step(s: Seq<char>, pos: int, from: Seq<char>, to: Seq<char>)
    requires
        0 <= pos < s.len(),
        from.len() > 0,
    ensures
        replace_all(s.subrange(pos, s.len() as int), from, to) == if pos + from.len() <= s.len()
            && s.subrange(pos, pos + from.len()) == from {
            to + replace_all(s.subrange(pos + from.len(), s.len() as int), from, to)
        } else {
            seq![s[pos]] + replace_all(s.subrange(pos + 1, s.len() as int), from, to)
        },
{
    let t = s.subrange(pos, s.len() as int);
    if from.len() <= t.len() {
        assert(t.subrange(0, from.len() as int) =~= s.subrange(pos, pos + from.len()));
        assert(t.subrange(from.len() as int, t.len() as int) =~= s.subrange(pos + from.len(), s.len() as int));
    }
    assert(t.subrange(1, t.len() as int) =~= s.subrange(pos + 1, s.len() as int));
}

/// `s` with every occurrence of the non-empty `from` replaced by `to` (see `replace_all`).
pub fn replace_str(s: &str, from: &str, to: &str) -> (r: String)
    requires
        from@.len() > 0,
    ensures
        r@ == replace_all(s@, from@, to@),
{
    let n = s.unicode_len();
    let m = from.unicode_len();
    let mut out = String::new();
    let mut pos: usize = 0;
    proof {
        assert(s@.subrange(0, n as int) =~= s@);
        assert(out@ + replace_all(s@, from@, to@) =~= replace_all(s@, from@, to@));
    }
    while pos < n
        invariant
            n == s@.len(),
            m == from@.len(),
            m > 0,
            pos <= n,
            out@ + replace_all(s@.subrange(pos as int, n as int), from@, to@) == replace_all(s@, from@, to@),
        decreases n - pos,
    {
        proof {
            lemma_replace_step(s@, pos as int, from@, to@);
        }
        if occurs_at(s, pos, from) {
            let ghost before = out@;
            out.append(to);
            proof {
                assert(before + (to@ + replace_all(s@.subrange(pos + m, n as int), from@, to@)) =~= out@
                    + replace_all(s@.subrange(pos + m, n as int), from@, to@));
            }
            pos = pos + m;
        } else {
            let c = s.get_char(pos);
            let ghost before = out@;
            let piece = s.substring_char(pos, pos + 1);
            out.append(piece);
            proof {
                assert(piece@ =~= seq![c]);
                assert(before + (seq![c] + replace_all(s@.subrange(pos + 1, n as int), from@, to@)) =~= out@
                    + replace_all(s@.subrange(pos + 1, n as int), from@, to@));
            }
            pos = pos + 1;
        }
    }
    proof {
        assert(s@.subrange(n as int, n as int) =~= Seq::<char>::empty());
        assert(out@ + Seq::<char>::empty() =~= out@);
    }
    out
}

/// BlockRazor keep-alive URL: the send endpoint with `/v2/sendTransaction` turned into
/// `/v2/health`.
pub fn blockrazor_health_url(endpoint: &str) -> (r: String)
    ensures
        r@ == replace_all(endpoint@, "/v2/sendTransaction"@, "/v2/health"@),
{
    proof {
        reveal_strlit("/v2/sendTransaction");
    }
    replace_str(endpoint, "/v2/sendTransaction", "/v2/health")
}

} // verus!
