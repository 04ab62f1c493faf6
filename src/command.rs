use crate::style::SessionStyle;
use crate::text::push_char;
use vstd::prelude::*;

verus! {

/// The handshake that opens every control connection.
pub const HELLO_COMMAND: &'static str = "HELLO VERSION MIN=3.0 MAX=3.2\n";

/// The request for a fresh key pair.
pub const DEST_GENERATE_COMMAND: &'static str = "DEST GENERATE\n";

/// The tunnel settings of datagram and raw sessions: no extra hops and a
/// single tunnel each way, for the lowest latency.
pub const TUNNEL_OPTIONS: &'static str = " inbound.length=0 outbound.length=0 inbound.lengthVariance=0 outbound.lengthVariance=0 inbound.quantity=1 outbound.quantity=1";

/// The character of a decimal digit.
pub open spec fn digit(d: nat) -> char {
    (('0' as nat) + d) as char
}

/// `n` written in decimal, without leading zeros.
pub open spec fn decimal(n: nat) -> Seq<char>
    decreases n,
{
    if n < 10 {
        seq![digit(n)]
    } else {
        decimal(n / 10).push(digit(n % 10))
    }
}

/// The line that creates a session of `style` under the name `id` with the
/// private key `key`. Datagram and raw sessions name the local `host` and
/// `port` that receive their traffic, and the fixed tunnel settings.
pub open spec fn session_create_line(
    style: SessionStyle,
    id: Seq<char>,
    key: Seq<char>,
    host: Seq<char>,
    port: nat,
) -> Seq<char> {
    let head = "SESSION CREATE STYLE="@ + style.name() + " ID="@ + id + " DESTINATION="@ + key;
    match style {
        SessionStyle::Stream => head + "\n"@,
        _ => head + TUNNEL_OPTIONS@ + " PORT="@ + decimal(port) + " HOST="@ + host + "\n"@,
    }
}

/// The line that forwards the inbound streams of session `id` to `host:port`.
pub open spec fn stream_forward_line(id: Seq<char>, host: Seq<char>, port: nat) -> Seq<char> {
    "STREAM FORWARD ID="@ + id + " PORT="@ + decimal(port) + " HOST="@ + host + "\n"@
}

/// The line that opens a stream from session `id` to `destination`.
pub open spec fn stream_connect_line(id: Seq<char>, destination: Seq<char>) -> Seq<char> {
    "STREAM CONNECT ID="@ + id + " DESTINATION="@ + destination + "\n"@
}

/// The line that asks the router to resolve `name`.
pub open spec fn naming_lookup_line(name: Seq<char>) -> Seq<char> {
    "NAMING LOOKUP NAME="@ + name + "\n"@
}

/// The session-create line of a datagram or raw session holds the fixed
/// tunnel settings verbatim, right after the key.
pub proof fn lemma_create_line_has_tunnel_options(
    style: SessionStyle,
    id: Seq<char>,
    key: Seq<char>,
    host: Seq<char>,
    port: nat,
)
    requires
        style != SessionStyle::Stream,
    ensures
        ({
            let at = ("SESSION CREATE STYLE="@ + style.name() + " ID="@ + id + " DESTINATION="@
                + key).len();
            session_create_line(style, id, key, host, port).subrange(
                at as int,
                (at + TUNNEL_OPTIONS@.len()) as int,
            ) == TUNNEL_OPTIONS@
        }),
{
    let head = "SESSION CREATE STYLE="@ + style.name() + " ID="@ + id + " DESTINATION="@ + key;
    let line = session_create_line(style, id, key, host, port);
    assert(line =~= head + TUNNEL_OPTIONS@ + " PORT="@ + decimal(port) + " HOST="@ + host + "\n"@);
    assert(line.subrange(head.len() as int, (head.len() + TUNNEL_OPTIONS@.len()) as int) =~= TUNNEL_OPTIONS@);
}

fn push_decimal(out: &mut String, n: u16)
    ensures
        final(out)@ == old(out)@ + decimal(n as nat),
    decreases n,
{
    if n >= 10 {
        push_decimal(out, n / 10);
    }
    let d = n % 10;
    let c = ((d as u8) + 48) as char;
    assert(c == digit(d as nat));
    push_char(out, c);
}

/// The line that creates a session; see [`session_create_line`].
pub fn session_create_command(
    style: SessionStyle,
    id: &str,
    key: &str,
    host: &str,
    port: u16,
) -> (r: String)
    ensures
        r@ == session_create_line(style, id@, key@, host@, port as nat),
{
    let mut r = String::new();
    r.append("SESSION CREATE STYLE=");
    r.append(style.as_string());
    r.append(" ID=");
    r.append(id);
    r.append(" DESTINATION=");
    r.append(key);
    match style {
        SessionStyle::Stream => {},
        _ => {
            r.append(TUNNEL_OPTIONS);
            r.append(" PORT=");
            push_decimal(&mut r, port);
            r.append(" HOST=");
            r.append(host);
        },
    }
    r.append("\n");
    r
}

/// The line that forwards inbound streams; see [`stream_forward_line`].
pub fn stream_forward_command(id: &str, host: &str, port: u16) -> (r: String)
    ensures
        r@ == stream_forward_line(id@, host@, port as nat),
{
    let mut r = String::new();
    r.append("STREAM FORWARD ID=");
    r.append(id);
    r.append(" PORT=");
    push_decimal(&mut r, port);
    r.append(" HOST=");
    r.append(host);
    r.append("\n");
    r
}

/// The line that opens an outbound stream; see [`stream_connect_line`].
pub fn stream_connect_command(id: &str, destination: &str) -> (r: String)
    ensures
        r@ == stream_connect_line(id@, destination@),
{
    let mut r = String::new();
    r.append("STREAM CONNECT ID=");
    r.append(id);
    r.append(" DESTINATION=");
    r.append(destination);
    r.append("\n");
    r
}

/// The line that resolves a name; see [`naming_lookup_line`].
pub fn naming_lookup_command(name: &str) -> (r: String)
    ensures
        r@ == naming_lookup_line(name@),
{
    let mut r = String::new();
    r.append("NAMING LOOKUP NAME=");
    r.append(name);
    r.append("\n");
    r
}

} // verus!
